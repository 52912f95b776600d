//! Frame codec and exchange logic for a serial-attached USB HID emulation
//! chip: the command-code space, the execution-status table, the wire frame
//! format, and the session that builds requests and interprets replies.

pub mod constants;
pub mod frame_format;
pub mod kbms_mgr;
