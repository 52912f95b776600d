use kbms::constants::CmdCodeMap;
use kbms::constants::CmdExecuteStatusMap;
use kbms::constants::UnknownCode;
use kbms::constants::UnknownStatus;
use kbms::frame_format::Frame;
use kbms::frame_format::FrameError;
use kbms::kbms_mgr::interpret_get_info;
use kbms::kbms_mgr::KbmsError;
use kbms::kbms_mgr::KbmsInfo;
use kbms::kbms_mgr::KbmsMgr;
use kbms::kbms_mgr::KbmsResponse;

fn check_code_roundtrip(c: CmdCodeMap) {
    assert_eq!(CmdCodeMap::from(c.get_code()), Ok(c));
}

#[test]
fn cmd_code_roundtrip_all_forms() {
    let forms = [
        CmdCodeMap::CmdGetInfo,
        CmdCodeMap::RespGetInfo,
        CmdCodeMap::ErrGetInfo,
        CmdCodeMap::CmdSendKbGeneralData,
        CmdCodeMap::RespSendKbGeneralData,
        CmdCodeMap::ErrSendKbGeneralData,
        CmdCodeMap::CmdSendKbMediaData,
        CmdCodeMap::RespSendKbMediaData,
        CmdCodeMap::ErrSendKbMediaData,
        CmdCodeMap::CmdSendMsAbsData,
        CmdCodeMap::RespSendMsAbsData,
        CmdCodeMap::ErrSendMsAbsData,
        CmdCodeMap::CmdSendMsRelData,
        CmdCodeMap::RespSendMsRelData,
        CmdCodeMap::ErrSendMsRelData,
        CmdCodeMap::CmdSendMyHidData,
        CmdCodeMap::RespSendMyHidData,
        CmdCodeMap::ErrSendMyHidData,
        CmdCodeMap::CmdReadMyHidData,
        CmdCodeMap::CmdGetParaCfg,
        CmdCodeMap::RespGetParaCfg,
        CmdCodeMap::ErrGetParaCfg,
        CmdCodeMap::CmdSetParaCfg,
        CmdCodeMap::RespSetParaCfg,
        CmdCodeMap::ErrSetParaCfg,
        CmdCodeMap::CmdGetUsbString,
        CmdCodeMap::RespGetUsbString,
        CmdCodeMap::ErrGetUsbString,
        CmdCodeMap::CmdSetUsbString,
        CmdCodeMap::RespSetUsbString,
        CmdCodeMap::ErrSetUsbString,
        CmdCodeMap::CmdSetDefaultCfg,
        CmdCodeMap::RespSetDefaultCfg,
        CmdCodeMap::ErrSetDefaultCfg,
        CmdCodeMap::CmdReset,
        CmdCodeMap::RespReset,
        CmdCodeMap::ErrReset,
    ];
    for c in forms {
        check_code_roundtrip(c);
    }
}

#[test]
fn cmd_code_request_bases() {
    assert_eq!(CmdCodeMap::CmdGetInfo.get_code(), 0x01);
    assert_eq!(CmdCodeMap::CmdSendKbGeneralData.get_code(), 0x02);
    assert_eq!(CmdCodeMap::CmdSendKbMediaData.get_code(), 0x03);
    assert_eq!(CmdCodeMap::CmdSendMsAbsData.get_code(), 0x04);
    assert_eq!(CmdCodeMap::CmdSendMsRelData.get_code(), 0x05);
    assert_eq!(CmdCodeMap::CmdSendMyHidData.get_code(), 0x06);
    assert_eq!(CmdCodeMap::CmdReadMyHidData.get_code(), 0x87);
    assert_eq!(CmdCodeMap::CmdGetParaCfg.get_code(), 0x08);
    assert_eq!(CmdCodeMap::CmdSetParaCfg.get_code(), 0x09);
    assert_eq!(CmdCodeMap::CmdGetUsbString.get_code(), 0x0A);
    assert_eq!(CmdCodeMap::CmdSetUsbString.get_code(), 0x0B);
    assert_eq!(CmdCodeMap::CmdSetDefaultCfg.get_code(), 0x0C);
    assert_eq!(CmdCodeMap::CmdReset.get_code(), 0x0F);
}

#[test]
fn cmd_code_form_derivation() {
    let pairs = [
        (CmdCodeMap::CmdGetInfo, CmdCodeMap::RespGetInfo, CmdCodeMap::ErrGetInfo),
        (
            CmdCodeMap::CmdSendKbGeneralData,
            CmdCodeMap::RespSendKbGeneralData,
            CmdCodeMap::ErrSendKbGeneralData,
        ),
        (
            CmdCodeMap::CmdSendKbMediaData,
            CmdCodeMap::RespSendKbMediaData,
            CmdCodeMap::ErrSendKbMediaData,
        ),
        (CmdCodeMap::CmdSendMsAbsData, CmdCodeMap::RespSendMsAbsData, CmdCodeMap::ErrSendMsAbsData),
        (CmdCodeMap::CmdSendMsRelData, CmdCodeMap::RespSendMsRelData, CmdCodeMap::ErrSendMsRelData),
        (CmdCodeMap::CmdSendMyHidData, CmdCodeMap::RespSendMyHidData, CmdCodeMap::ErrSendMyHidData),
        (CmdCodeMap::CmdGetParaCfg, CmdCodeMap::RespGetParaCfg, CmdCodeMap::ErrGetParaCfg),
        (CmdCodeMap::CmdSetParaCfg, CmdCodeMap::RespSetParaCfg, CmdCodeMap::ErrSetParaCfg),
        (CmdCodeMap::CmdGetUsbString, CmdCodeMap::RespGetUsbString, CmdCodeMap::ErrGetUsbString),
        (CmdCodeMap::CmdSetUsbString, CmdCodeMap::RespSetUsbString, CmdCodeMap::ErrSetUsbString),
        (CmdCodeMap::CmdSetDefaultCfg, CmdCodeMap::RespSetDefaultCfg, CmdCodeMap::ErrSetDefaultCfg),
        (CmdCodeMap::CmdReset, CmdCodeMap::RespReset, CmdCodeMap::ErrReset),
    ];
    for (req, resp, err) in pairs {
        assert_eq!(resp.get_code(), req.get_code() | 0x80);
        assert_eq!(err.get_code(), req.get_code() | 0xC0);
    }
}

#[test]
fn cmd_code_unknown_byte() {
    assert_eq!(CmdCodeMap::from(0x7F), Err(UnknownCode(0x7F)));
    assert_eq!(CmdCodeMap::from(0x00), Err(UnknownCode(0x00)));
    assert_eq!(CmdCodeMap::from(0x47), Err(UnknownCode(0x47)));
}

#[test]
fn status_code_roundtrip() {
    let statuses = [
        CmdExecuteStatusMap::DefCmdSuccess,
        CmdExecuteStatusMap::DefCmdErrTimeout,
        CmdExecuteStatusMap::DefCmdErrHead,
        CmdExecuteStatusMap::DefCmdErrCmd,
        CmdExecuteStatusMap::DefCmdErrSum,
        CmdExecuteStatusMap::DefCmdErrPara,
        CmdExecuteStatusMap::DefCmdErrOperate,
    ];
    let codes: [u8; 7] = [0x00, 0xE1, 0xE2, 0xE3, 0xE4, 0xE5, 0xE6];
    for (s, code) in statuses.iter().zip(codes.iter()) {
        assert_eq!(s.get_code(), *code);
        assert_eq!(CmdExecuteStatusMap::from(*code), Ok(*s));
    }
}

#[test]
fn status_checksum_mismatch_and_unknown() {
    assert_eq!(CmdExecuteStatusMap::from(0xE4), Ok(CmdExecuteStatusMap::DefCmdErrSum));
    assert_eq!(CmdExecuteStatusMap::from(0x42), Err(UnknownStatus(0x42)));
}

#[test]
fn frame_new_holds_fields() {
    let f = Frame::new(0x33, CmdCodeMap::CmdSetParaCfg, vec![9, 8, 7]);
    assert_eq!(f.address, 0x33);
    assert_eq!(f.cmd_code, CmdCodeMap::CmdSetParaCfg);
    assert_eq!(f.data, vec![9, 8, 7]);
}

#[test]
fn frame_build_layout() {
    let f = Frame::new(0x02, CmdCodeMap::CmdSendMsRelData, vec![0x10, 0x20]);
    assert_eq!(f.build(), vec![0x57, 0xAB, 0x02, 0x05, 0x02, 0x10, 0x20]);
}

#[test]
fn frame_roundtrip() {
    let f = Frame::new(0x01, CmdCodeMap::CmdSendKbGeneralData, vec![1, 2, 3, 4, 5, 6]);
    let bytes = f.build();
    let parsed = Frame::parse(&bytes).unwrap();
    assert_eq!(parsed.address, f.address);
    assert_eq!(parsed.cmd_code, f.cmd_code);
    assert_eq!(parsed.data, f.data);
}

#[test]
fn frame_roundtrip_largest_payload() {
    let f = Frame::new(0xFF, CmdCodeMap::CmdSetUsbString, vec![0xAA; 255]);
    let bytes = f.build();
    assert_eq!(bytes.len(), 260);
    let parsed = Frame::parse(&bytes).unwrap();
    assert_eq!(parsed.address, 0xFF);
    assert_eq!(parsed.cmd_code, CmdCodeMap::CmdSetUsbString);
    assert_eq!(parsed.data, vec![0xAA; 255]);
}

#[test]
fn parse_too_short() {
    assert!(matches!(Frame::parse(&[]), Err(FrameError::TooShort)));
    assert!(matches!(Frame::parse(&[0x57, 0xAB, 0x01, 0x01, 0x00]), Err(FrameError::TooShort)));
}

#[test]
fn parse_truncated() {
    // Declared payload length 4, but only two payload bytes supplied.
    assert!(matches!(
        Frame::parse(&[0x57, 0xAB, 0x01, 0x01, 0x04, 0x00, 0x00]),
        Err(FrameError::Truncated)
    ));
}

#[test]
fn parse_unknown_command() {
    assert!(matches!(
        Frame::parse(&[0x57, 0xAB, 0x01, 0x7F, 0x01, 0x00]),
        Err(FrameError::UnknownCommand(0x7F))
    ));
}

#[test]
fn session_lifecycle() {
    let mut m = KbmsMgr::new(0x01);
    assert_eq!(m.address, 0x01);
    assert!(!m.is_connected());
    assert!(m.mark_connected());
    assert!(m.is_connected());
    // A second transport may not be attached to a connected session.
    assert!(!m.mark_connected());
    m.disconnect();
    assert!(!m.is_connected());
    // Disconnecting twice is harmless.
    m.disconnect();
    assert!(!m.is_connected());
}

#[test]
fn get_info_request_bytes() {
    let m = KbmsMgr::new(0x01);
    let bytes = m.request_bytes(CmdCodeMap::CmdGetInfo, None);
    assert_eq!(bytes, vec![0x57, 0xAB, 0x01, 0x01, 0x00]);
}

#[test]
fn get_info_reply_decodes() {
    // Response form, eight payload bytes; keyboard-status byte 0x03 sets
    // num-lock and caps-lock but not scroll-lock.
    let reply = [0x57, 0xAB, 0x01, 0x81, 0x08, 0x00, 0x05, 0x02, 0x03, 0, 0, 0, 0];
    assert_eq!(
        interpret_get_info(&reply),
        Ok(KbmsInfo {
            ic_ver: 5,
            usb_status: 2,
            num_lock: true,
            caps_lock: true,
            scroll_lock: false,
        })
    );
}

#[test]
fn get_info_reply_wrong_payload_length() {
    let reply = [0x57, 0xAB, 0x01, 0x81, 0x07, 0x00, 0x05, 0x02, 0x03, 0, 0, 0];
    assert_eq!(interpret_get_info(&reply), Err(KbmsError::BadInfoPayload));
}

#[test]
fn get_info_reply_device_error() {
    let reply = [0x57, 0xAB, 0x01, 0xC1, 0x01, 0xE5];
    assert_eq!(
        interpret_get_info(&reply),
        Err(KbmsError::Device(CmdExecuteStatusMap::DefCmdErrPara))
    );
}

#[test]
fn get_info_reply_device_reports_success_status() {
    let reply = [0x57, 0xAB, 0x01, 0xC1, 0x01, 0x00];
    assert_eq!(
        interpret_get_info(&reply),
        Err(KbmsError::Device(CmdExecuteStatusMap::DefCmdSuccess))
    );
}

#[test]
fn get_info_reply_unknown_status() {
    let reply = [0x57, 0xAB, 0x01, 0xC1, 0x01, 0x42];
    assert_eq!(interpret_get_info(&reply), Err(KbmsError::UnknownStatus(0x42)));
}

#[test]
fn get_info_reply_missing_status() {
    // An error-form reply whose declared payload is empty; the trailing byte
    // keeps the buffer at the parser's six-byte minimum but is not payload.
    let reply = [0x57, 0xAB, 0x01, 0xC1, 0x00, 0xFF];
    assert_eq!(interpret_get_info(&reply), Err(KbmsError::MissingStatus));
}

#[test]
fn get_info_reply_unexpected_command() {
    let reply = [0x57, 0xAB, 0x01, 0x8F, 0x01, 0x00];
    assert_eq!(
        interpret_get_info(&reply),
        Err(KbmsError::UnexpectedCommand(CmdCodeMap::RespReset))
    );
}

#[test]
fn get_info_reply_protocol_error() {
    let reply = [0x57, 0xAB, 0x01];
    assert_eq!(interpret_get_info(&reply), Err(KbmsError::Protocol(FrameError::TooShort)));
}

#[test]
fn kb_general_data_request_bytes() {
    let m = KbmsMgr::new(0x01);
    let payload = vec![0x00, 0x01, 0x02, 0x03, 0x04, 0x05];
    let bytes = m.request_bytes(CmdCodeMap::CmdSendKbGeneralData, Some(payload));
    assert_eq!(bytes, vec![0x57, 0xAB, 0x01, 0x02, 0x06, 0x00, 0x01, 0x02, 0x03, 0x04, 0x05]);
}

#[test]
fn request_frame_carries_session_address() {
    let m = KbmsMgr::new(0x7E);
    let f = m.request_frame(CmdCodeMap::CmdReset, None);
    assert_eq!(f.address, 0x7E);
    assert_eq!(f.cmd_code, CmdCodeMap::CmdReset);
    assert!(f.data.is_empty());
}

#[test]
fn response_wraps_frame() {
    let frame = Frame::new(0x01, CmdCodeMap::RespGetParaCfg, vec![0x01, 0x02]);
    let resp = KbmsResponse { frame };
    assert_eq!(resp.frame.cmd_code, CmdCodeMap::RespGetParaCfg);
    assert_eq!(resp.frame.data, vec![0x01, 0x02]);
}
