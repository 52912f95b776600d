//! The session half of the exchange engine that a transport cannot touch:
//! the device address and connection record, the request frames each command
//! puts on the wire, and the interpretation of the bytes read back. The
//! caller owns the transport and performs the write, the fixed delay and the
//! read; everything decided before the write and after the read is here.

use vstd::prelude::*;

use crate::constants::CmdCodeMap;
use crate::constants::CmdExecuteStatusMap;
use crate::frame_format::Frame;
use crate::frame_format::FrameError;
use crate::frame_format::FrameView;
use crate::frame_format::spec_build;
use crate::frame_format::spec_parse;

verus! {

/// A parsed reply from the device.
#[derive(Debug, Clone)]
pub struct KbmsResponse {
    pub frame: Frame,
}

/// The decoded get-info reply: chip version, USB status, and the three
/// keyboard lock flags.
#[derive(Debug, Clone, Copy, PartialEq, Eq, Structural)]
pub struct KbmsInfo {
    pub ic_ver: u8,
    pub usb_status: u8,
    pub num_lock: bool,
    pub caps_lock: bool,
    pub scroll_lock: bool,
}

/// How a transaction fails short of the transport: a malformed reply, a
/// reply that belongs to another command, or an error the device itself
/// reported.
#[derive(Debug, Clone, Copy, PartialEq, Eq, Structural)]
pub enum KbmsError {
    /// The reply bytes do not parse as a frame.
    Protocol(FrameError),
    /// The reply parses, but its command form answers some other command.
    UnexpectedCommand(CmdCodeMap),
    /// An error-form reply carried no status byte.
    MissingStatus,
    /// An error-form reply carried a status byte outside the known set.
    UnknownStatus(u8),
    /// The device reported this execution status in an error-form reply.
    Device(CmdExecuteStatusMap),
    /// A response-form get-info reply whose payload is not exactly eight
    /// bytes.
    BadInfoPayload,
}

/// What an error-form reply's payload means: its first byte read as an
/// execution status.
pub open spec fn spec_error_status(payload: Seq<u8>) -> KbmsError {
    if payload.len() == 0 {
        KbmsError::MissingStatus
    } else {
        match CmdExecuteStatusMap::spec_from(payload[0]) {
            Some(s) => KbmsError::Device(s),
            None => KbmsError::UnknownStatus(payload[0]),
        }
    }
}

/// Read the device-reported outcome out of an error-form reply's payload.
/// A status byte outside the known set is surfaced, never a reason to
/// abort.
pub fn error_status(payload: &Vec<u8>) -> (e: KbmsError)
    ensures
        e == spec_error_status(payload@),
{
    if payload.len() == 0 {
        return KbmsError::MissingStatus;
    }
    match CmdExecuteStatusMap::from(payload[0]) {
        Ok(s) => KbmsError::Device(s),
        Err(u) => KbmsError::UnknownStatus(u.0),
    }
}

/// What a raw get-info reply means, byte for byte: parse the buffer; a
/// response-form reply must carry exactly eight payload bytes, of which
/// byte 1 is the chip version, byte 2 the USB status and bits 0 to 2 of
/// byte 3 the num-lock, caps-lock and scroll-lock flags; an error-form
/// reply carries an execution status; anything else answers some other
/// command.
pub open spec fn spec_interpret_get_info(bytes: Seq<u8>) -> Result<KbmsInfo, KbmsError> {
    match spec_parse(bytes) {
        Err(e) => Err(KbmsError::Protocol(e)),
        Ok(fv) => {
            if fv.cmd_code == CmdCodeMap::RespGetInfo {
                if fv.data.len() != 8 {
                    Err(KbmsError::BadInfoPayload)
                } else {
                    Ok(
                        KbmsInfo {
                            ic_ver: fv.data[1],
                            usb_status: fv.data[2],
                            num_lock: fv.data[3] & 0x01 == 0x01,
                            caps_lock: fv.data[3] & 0x02 == 0x02,
                            scroll_lock: fv.data[3] & 0x04 == 0x04,
                        },
                    )
                }
            } else if fv.cmd_code == CmdCodeMap::ErrGetInfo {
                Err(spec_error_status(fv.data))
            } else {
                Err(KbmsError::UnexpectedCommand(fv.cmd_code))
            }
        },
    }
}

/// Interpret the bytes read back after a get-info request.
pub fn interpret_get_info(data: &[u8]) -> (r: Result<KbmsInfo, KbmsError>)
    ensures
        r == spec_interpret_get_info(data@),
{
    let frame = match Frame::parse(data) {
        Ok(f) => f,
        Err(e) => {
            return Err(KbmsError::Protocol(e));
        },
    };
    if frame.cmd_code == CmdCodeMap::RespGetInfo {
        if frame.data.len() != 8 {
            return Err(KbmsError::BadInfoPayload);
        }
        let keyboard_status = frame.data[3];
        Ok(
            KbmsInfo {
                ic_ver: frame.data[1],
                usb_status: frame.data[2],
                num_lock: keyboard_status & 0x01 == 0x01,
                caps_lock: keyboard_status & 0x02 == 0x02,
                scroll_lock: keyboard_status & 0x04 == 0x04,
            },
        )
    } else if frame.cmd_code == CmdCodeMap::ErrGetInfo {
        Err(error_status(&frame.data))
    } else {
        Err(KbmsError::UnexpectedCommand(frame.cmd_code))
    }
}

/// One session against the device: the address it is spoken to at and a
/// record of whether a transport is attached. The transport handle itself
/// lives with the caller, which writes and reads what the session builds
/// and interprets; exactly one transaction is in flight at a time.
#[derive(Debug)]
pub struct KbmsMgr {
    pub address: u8,
    pub connected: bool,
}

impl Default for KbmsMgr {
    /// A session at address zero, disconnected.
    fn default() -> (m: KbmsMgr)
        ensures
            m.address == 0,
            !m.spec_connected(),
    {
        KbmsMgr { address: 0, connected: false }
    }
}

impl KbmsMgr {
    /// Whether a transport is recorded as attached.
    pub open spec fn spec_connected(self) -> bool {
        self.connected
    }

    /// A fresh session: disconnected, at the given device address.
    pub fn new(address: u8) -> (m: KbmsMgr)
        ensures
            m.address == address,
            !m.spec_connected(),
    {
        KbmsMgr { address, connected: false }
    }

    /// Whether the session is connected.
    pub fn is_connected(&self) -> (b: bool)
        ensures
            b == self.spec_connected(),
    {
        self.connected
    }

    /// Record that a transport was acquired. Refused — nothing changes and
    /// the call reports failure — when one is already attached; exactly
    /// then does it succeed.
    pub fn mark_connected(&mut self) -> (ok: bool)
        ensures
            ok == !old(self).spec_connected(),
            final(self).spec_connected(),
            final(self).address == old(self).address,
    {
        if self.connected {
            return false;
        }
        self.connected = true;
        true
    }

    /// Drop the connection record; idempotent.
    pub fn disconnect(&mut self)
        ensures
            !final(self).spec_connected(),
            final(self).address == old(self).address,
    {
        self.connected = false;
    }

    /// The request frame of one command: the session's address, the given
    /// command form, and the given payload (empty when none). The caller
    /// guarantees the payload fits the one-byte length field.
    pub fn request_frame(&self, cmd: CmdCodeMap, data: Option<Vec<u8>>) -> (f: Frame)
        requires
            data matches Some(d) ==> d.len() <= 255,
        ensures
            f.address == self.address,
            f.cmd_code == cmd,
            f@.data == (match data {
                Some(d) => d@,
                None => Seq::<u8>::empty(),
            }),
            f.data.len() <= 255,
    {
        let payload = match data {
            Some(d) => d,
            None => Vec::new(),
        };
        Frame::new(self.address, cmd, payload)
    }

    /// The exact bytes one command's request puts on the wire.
    pub fn request_bytes(&self, cmd: CmdCodeMap, data: Option<Vec<u8>>) -> (bytes: Vec<u8>)
        requires
            data matches Some(d) ==> d.len() <= 255,
        ensures
            bytes@ == spec_build(
                FrameView {
                    address: self.address,
                    cmd_code: cmd,
                    data: match data {
                        Some(d) => d@,
                        None => Seq::<u8>::empty(),
                    },
                },
            ),
    {
        let frame = self.request_frame(cmd, data);
        frame.build()
    }
}

} // verus!

