//! The two closed code spaces of the protocol: the command codes, in their
//! request / response / error forms, and the one-byte execution statuses a
//! device reports inside an error-form reply.

use vstd::prelude::*;

verus! {

/// One wire form of one logical command. Each command's response form is its
/// request code with bit 7 set, and its error form is the request code with
/// bits 7 and 6 set; `CmdReadMyHidData` is the one command with a request
/// form only.
#[derive(Debug, Clone, Copy, PartialEq, Eq, Structural)]
pub enum CmdCodeMap {
    CmdGetInfo,
    RespGetInfo,
    ErrGetInfo,
    CmdSendKbGeneralData,
    RespSendKbGeneralData,
    ErrSendKbGeneralData,
    CmdSendKbMediaData,
    RespSendKbMediaData,
    ErrSendKbMediaData,
    CmdSendMsAbsData,
    RespSendMsAbsData,
    ErrSendMsAbsData,
    CmdSendMsRelData,
    RespSendMsRelData,
    ErrSendMsRelData,
    CmdSendMyHidData,
    RespSendMyHidData,
    ErrSendMyHidData,
    CmdReadMyHidData,
    CmdGetParaCfg,
    RespGetParaCfg,
    ErrGetParaCfg,
    CmdSetParaCfg,
    RespSetParaCfg,
    ErrSetParaCfg,
    CmdGetUsbString,
    RespGetUsbString,
    ErrGetUsbString,
    CmdSetUsbString,
    RespSetUsbString,
    ErrSetUsbString,
    CmdSetDefaultCfg,
    RespSetDefaultCfg,
    ErrSetDefaultCfg,
    CmdReset,
    RespReset,
    ErrReset,
}

/// A byte that names no command form.
#[derive(Debug, Clone, Copy, PartialEq, Eq, Structural)]
pub struct UnknownCode(pub u8);

impl CmdCodeMap {
    /// The one-byte wire code of this command form.
    pub open spec fn spec_code(self) -> u8 {
        match self {
            CmdCodeMap::CmdGetInfo => 0x01,
            CmdCodeMap::RespGetInfo => 0x81,
            CmdCodeMap::ErrGetInfo => 0xC1,
            CmdCodeMap::CmdSendKbGeneralData => 0x02,
            CmdCodeMap::RespSendKbGeneralData => 0x82,
            CmdCodeMap::ErrSendKbGeneralData => 0xC2,
            CmdCodeMap::CmdSendKbMediaData => 0x03,
            CmdCodeMap::RespSendKbMediaData => 0x83,
            CmdCodeMap::ErrSendKbMediaData => 0xC3,
            CmdCodeMap::CmdSendMsAbsData => 0x04,
            CmdCodeMap::RespSendMsAbsData => 0x84,
            CmdCodeMap::ErrSendMsAbsData => 0xC4,
            CmdCodeMap::CmdSendMsRelData => 0x05,
            CmdCodeMap::RespSendMsRelData => 0x85,
            CmdCodeMap::ErrSendMsRelData => 0xC5,
            CmdCodeMap::CmdSendMyHidData => 0x06,
            CmdCodeMap::RespSendMyHidData => 0x86,
            CmdCodeMap::ErrSendMyHidData => 0xC6,
            CmdCodeMap::CmdReadMyHidData => 0x87,
            CmdCodeMap::CmdGetParaCfg => 0x08,
            CmdCodeMap::RespGetParaCfg => 0x88,
            CmdCodeMap::ErrGetParaCfg => 0xC8,
            CmdCodeMap::CmdSetParaCfg => 0x09,
            CmdCodeMap::RespSetParaCfg => 0x89,
            CmdCodeMap::ErrSetParaCfg => 0xC9,
            CmdCodeMap::CmdGetUsbString => 0x0A,
            CmdCodeMap::RespGetUsbString => 0x8A,
            CmdCodeMap::ErrGetUsbString => 0xCA,
            CmdCodeMap::CmdSetUsbString => 0x0B,
            CmdCodeMap::RespSetUsbString => 0x8B,
            CmdCodeMap::ErrSetUsbString => 0xCB,
            CmdCodeMap::CmdSetDefaultCfg => 0x0C,
            CmdCodeMap::RespSetDefaultCfg => 0x8C,
            CmdCodeMap::ErrSetDefaultCfg => 0xCC,
            CmdCodeMap::CmdReset => 0x0F,
            CmdCodeMap::RespReset => 0x8F,
            CmdCodeMap::ErrReset => 0xCF,
        }
    }

    /// The command form a byte decodes to, if any: the exact inverse of
    /// `spec_code` over the closed set of valid codes.
    pub open spec fn spec_from(code: u8) -> Option<CmdCodeMap> {
        match code {
            0x01 => Some(CmdCodeMap::CmdGetInfo),
            0x81 => Some(CmdCodeMap::RespGetInfo),
            0xC1 => Some(CmdCodeMap::ErrGetInfo),
            0x02 => Some(CmdCodeMap::CmdSendKbGeneralData),
            0x82 => Some(CmdCodeMap::RespSendKbGeneralData),
            0xC2 => Some(CmdCodeMap::ErrSendKbGeneralData),
            0x03 => Some(CmdCodeMap::CmdSendKbMediaData),
            0x83 => Some(CmdCodeMap::RespSendKbMediaData),
            0xC3 => Some(CmdCodeMap::ErrSendKbMediaData),
            0x04 => Some(CmdCodeMap::CmdSendMsAbsData),
            0x84 => Some(CmdCodeMap::RespSendMsAbsData),
            0xC4 => Some(CmdCodeMap::ErrSendMsAbsData),
            0x05 => Some(CmdCodeMap::CmdSendMsRelData),
            0x85 => Some(CmdCodeMap::RespSendMsRelData),
            0xC5 => Some(CmdCodeMap::ErrSendMsRelData),
            0x06 => Some(CmdCodeMap::CmdSendMyHidData),
            0x86 => Some(CmdCodeMap::RespSendMyHidData),
            0xC6 => Some(CmdCodeMap::ErrSendMyHidData),
            0x87 => Some(CmdCodeMap::CmdReadMyHidData),
            0x08 => Some(CmdCodeMap::CmdGetParaCfg),
            0x88 => Some(CmdCodeMap::RespGetParaCfg),
            0xC8 => Some(CmdCodeMap::ErrGetParaCfg),
            0x09 => Some(CmdCodeMap::CmdSetParaCfg),
            0x89 => Some(CmdCodeMap::RespSetParaCfg),
            0xC9 => Some(CmdCodeMap::ErrSetParaCfg),
            0x0A => Some(CmdCodeMap::CmdGetUsbString),
            0x8A => Some(CmdCodeMap::RespGetUsbString),
            0xCA => Some(CmdCodeMap::ErrGetUsbString),
            0x0B => Some(CmdCodeMap::CmdSetUsbString),
            0x8B => Some(CmdCodeMap::RespSetUsbString),
            0xCB => Some(CmdCodeMap::ErrSetUsbString),
            0x0C => Some(CmdCodeMap::CmdSetDefaultCfg),
            0x8C => Some(CmdCodeMap::RespSetDefaultCfg),
            0xCC => Some(CmdCodeMap::ErrSetDefaultCfg),
            0x0F => Some(CmdCodeMap::CmdReset),
            0x8F => Some(CmdCodeMap::RespReset),
            0xCF => Some(CmdCodeMap::ErrReset),
            _ => None,
        }
    }

    /// The wire code of this command form.
    pub fn get_code(&self) -> (code: u8)
        ensures
            code == self.spec_code(),
    {
        match self {
            CmdCodeMap::CmdGetInfo => 0x01,
            CmdCodeMap::RespGetInfo => 0x81,
            CmdCodeMap::ErrGetInfo => 0xC1,
            CmdCodeMap::CmdSendKbGeneralData => 0x02,
            CmdCodeMap::RespSendKbGeneralData => 0x82,
            CmdCodeMap::ErrSendKbGeneralData => 0xC2,
            CmdCodeMap::CmdSendKbMediaData => 0x03,
            CmdCodeMap::RespSendKbMediaData => 0x83,
            CmdCodeMap::ErrSendKbMediaData => 0xC3,
            CmdCodeMap::CmdSendMsAbsData => 0x04,
            CmdCodeMap::RespSendMsAbsData => 0x84,
            CmdCodeMap::ErrSendMsAbsData => 0xC4,
            CmdCodeMap::CmdSendMsRelData => 0x05,
            CmdCodeMap::RespSendMsRelData => 0x85,
            CmdCodeMap::ErrSendMsRelData => 0xC5,
            CmdCodeMap::CmdSendMyHidData => 0x06,
            CmdCodeMap::RespSendMyHidData => 0x86,
            CmdCodeMap::ErrSendMyHidData => 0xC6,
            CmdCodeMap::CmdReadMyHidData => 0x87,
            CmdCodeMap::CmdGetParaCfg => 0x08,
            CmdCodeMap::RespGetParaCfg => 0x88,
            CmdCodeMap::ErrGetParaCfg => 0xC8,
            CmdCodeMap::CmdSetParaCfg => 0x09,
            CmdCodeMap::RespSetParaCfg => 0x89,
            CmdCodeMap::ErrSetParaCfg => 0xC9,
            CmdCodeMap::CmdGetUsbString => 0x0A,
            CmdCodeMap::RespGetUsbString => 0x8A,
            CmdCodeMap::ErrGetUsbString => 0xCA,
            CmdCodeMap::CmdSetUsbString => 0x0B,
            CmdCodeMap::RespSetUsbString => 0x8B,
            CmdCodeMap::ErrSetUsbString => 0xCB,
            CmdCodeMap::CmdSetDefaultCfg => 0x0C,
            CmdCodeMap::RespSetDefaultCfg => 0x8C,
            CmdCodeMap::ErrSetDefaultCfg => 0xCC,
            CmdCodeMap::CmdReset => 0x0F,
            CmdCodeMap::RespReset => 0x8F,
            CmdCodeMap::ErrReset => 0xCF,
        }
    }

    /// Decode a wire code; a byte outside the closed set of command codes is
    /// reported, never accepted or coerced.
    pub fn from(code: u8) -> (r: Result<CmdCodeMap, UnknownCode>)
        ensures
            match r {
                Ok(c) => CmdCodeMap::spec_from(code) == Some(c),
                Err(e) => CmdCodeMap::spec_from(code) is None && e == UnknownCode(code),
            },
    {
        match code {
            0x01 => Ok(CmdCodeMap::CmdGetInfo),
            0x81 => Ok(CmdCodeMap::RespGetInfo),
            0xC1 => Ok(CmdCodeMap::ErrGetInfo),
            0x02 => Ok(CmdCodeMap::CmdSendKbGeneralData),
            0x82 => Ok(CmdCodeMap::RespSendKbGeneralData),
            0xC2 => Ok(CmdCodeMap::ErrSendKbGeneralData),
            0x03 => Ok(CmdCodeMap::CmdSendKbMediaData),
            0x83 => Ok(CmdCodeMap::RespSendKbMediaData),
            0xC3 => Ok(CmdCodeMap::ErrSendKbMediaData),
            0x04 => Ok(CmdCodeMap::CmdSendMsAbsData),
            0x84 => Ok(CmdCodeMap::RespSendMsAbsData),
            0xC4 => Ok(CmdCodeMap::ErrSendMsAbsData),
            0x05 => Ok(CmdCodeMap::CmdSendMsRelData),
            0x85 => Ok(CmdCodeMap::RespSendMsRelData),
            0xC5 => Ok(CmdCodeMap::ErrSendMsRelData),
            0x06 => Ok(CmdCodeMap::CmdSendMyHidData),
            0x86 => Ok(CmdCodeMap::RespSendMyHidData),
            0xC6 => Ok(CmdCodeMap::ErrSendMyHidData),
            0x87 => Ok(CmdCodeMap::CmdReadMyHidData),
            0x08 => Ok(CmdCodeMap::CmdGetParaCfg),
            0x88 => Ok(CmdCodeMap::RespGetParaCfg),
            0xC8 => Ok(CmdCodeMap::ErrGetParaCfg),
            0x09 => Ok(CmdCodeMap::CmdSetParaCfg),
            0x89 => Ok(CmdCodeMap::RespSetParaCfg),
            0xC9 => Ok(CmdCodeMap::ErrSetParaCfg),
            0x0A => Ok(CmdCodeMap::CmdGetUsbString),
            0x8A => Ok(CmdCodeMap::RespGetUsbString),
            0xCA => Ok(CmdCodeMap::ErrGetUsbString),
            0x0B => Ok(CmdCodeMap::CmdSetUsbString),
            0x8B => Ok(CmdCodeMap::RespSetUsbString),
            0xCB => Ok(CmdCodeMap::ErrSetUsbString),
            0x0C => Ok(CmdCodeMap::CmdSetDefaultCfg),
            0x8C => Ok(CmdCodeMap::RespSetDefaultCfg),
            0xCC => Ok(CmdCodeMap::ErrSetDefaultCfg),
            0x0F => Ok(CmdCodeMap::CmdReset),
            0x8F => Ok(CmdCodeMap::RespReset),
            0xCF => Ok(CmdCodeMap::ErrReset),
            _ => Err(UnknownCode(code)),
        }
    }
}

/// Law: decoding the code of any command form gives back that same form, for
/// all thirteen commands and every form each of them has.
pub proof fn lemma_cmd_code_roundtrip(c: CmdCodeMap)
    ensures
        CmdCodeMap::spec_from(c.spec_code()) == Some(c),
{
}

/// Law: the code table is injective — a byte that decodes to a command form
/// is that form's own code.
pub proof fn lemma_cmd_code_inverse(code: u8)
    ensures
        CmdCodeMap::spec_from(code) matches Some(c) ==> c.spec_code() == code,
{
}

/// One execution status a device reports inside an error-form reply:
/// success, or one of six distinct failure categories.
#[derive(Debug, Clone, Copy, PartialEq, Eq, Structural)]
pub enum CmdExecuteStatusMap {
    DefCmdSuccess,
    DefCmdErrTimeout,
    DefCmdErrHead,
    DefCmdErrCmd,
    DefCmdErrSum,
    DefCmdErrPara,
    DefCmdErrOperate,
}

/// A byte outside the closed set of execution statuses.
#[derive(Debug, Clone, Copy, PartialEq, Eq, Structural)]
pub struct UnknownStatus(pub u8);

impl CmdExecuteStatusMap {
    /// The one-byte wire code of this execution status.
    pub open spec fn spec_code(self) -> u8 {
        match self {
            CmdExecuteStatusMap::DefCmdSuccess => 0x00,
            CmdExecuteStatusMap::DefCmdErrTimeout => 0xE1,
            CmdExecuteStatusMap::DefCmdErrHead => 0xE2,
            CmdExecuteStatusMap::DefCmdErrCmd => 0xE3,
            CmdExecuteStatusMap::DefCmdErrSum => 0xE4,
            CmdExecuteStatusMap::DefCmdErrPara => 0xE5,
            CmdExecuteStatusMap::DefCmdErrOperate => 0xE6,
        }
    }

    /// The execution status a byte decodes to, if any: the exact inverse of
    /// `spec_code` over the seven defined codes.
    pub open spec fn spec_from(code: u8) -> Option<CmdExecuteStatusMap> {
        match code {
            0x00 => Some(CmdExecuteStatusMap::DefCmdSuccess),
            0xE1 => Some(CmdExecuteStatusMap::DefCmdErrTimeout),
            0xE2 => Some(CmdExecuteStatusMap::DefCmdErrHead),
            0xE3 => Some(CmdExecuteStatusMap::DefCmdErrCmd),
            0xE4 => Some(CmdExecuteStatusMap::DefCmdErrSum),
            0xE5 => Some(CmdExecuteStatusMap::DefCmdErrPara),
            0xE6 => Some(CmdExecuteStatusMap::DefCmdErrOperate),
            _ => None,
        }
    }

    /// The wire code of this execution status.
    pub fn get_code(&self) -> (code: u8)
        ensures
            code == self.spec_code(),
    {
        match self {
            CmdExecuteStatusMap::DefCmdSuccess => 0x00,
            CmdExecuteStatusMap::DefCmdErrTimeout => 0xE1,
            CmdExecuteStatusMap::DefCmdErrHead => 0xE2,
            CmdExecuteStatusMap::DefCmdErrCmd => 0xE3,
            CmdExecuteStatusMap::DefCmdErrSum => 0xE4,
            CmdExecuteStatusMap::DefCmdErrPara => 0xE5,
            CmdExecuteStatusMap::DefCmdErrOperate => 0xE6,
        }
    }

    /// Decode a status byte; a byte outside the seven defined codes is
    /// reported as unknown, never accepted and never a reason to abort.
    pub fn from(code: u8) -> (r: Result<CmdExecuteStatusMap, UnknownStatus>)
        ensures
            match r {
                Ok(s) => CmdExecuteStatusMap::spec_from(code) == Some(s),
                Err(e) => CmdExecuteStatusMap::spec_from(code) is None && e == UnknownStatus(code),
            },
    {
        match code {
            0x00 => Ok(CmdExecuteStatusMap::DefCmdSuccess),
            0xE1 => Ok(CmdExecuteStatusMap::DefCmdErrTimeout),
            0xE2 => Ok(CmdExecuteStatusMap::DefCmdErrHead),
            0xE3 => Ok(CmdExecuteStatusMap::DefCmdErrCmd),
            0xE4 => Ok(CmdExecuteStatusMap::DefCmdErrSum),
            0xE5 => Ok(CmdExecuteStatusMap::DefCmdErrPara),
            0xE6 => Ok(CmdExecuteStatusMap::DefCmdErrOperate),
            _ => Err(UnknownStatus(code)),
        }
    }
}

/// Law: decoding the code of any execution status gives back that same
/// status.
pub proof fn lemma_status_code_roundtrip(s: CmdExecuteStatusMap)
    ensures
        CmdExecuteStatusMap::spec_from(s.spec_code()) == Some(s),
{
}

} // verus!
