//! The wire frame: a fixed two-byte preamble, a device address, a command
//! code, a one-byte payload length, then the payload. Serialization and
//! parsing are exact inverses of each other wherever both are defined.

use vstd::prelude::*;

use crate::constants::CmdCodeMap;
use crate::constants::UnknownCode;
use crate::constants::lemma_cmd_code_roundtrip;

verus! {

/// First byte of the fixed frame preamble.
pub const FRAME_HEAD_0: u8 = 0x57;

/// Second byte of the fixed frame preamble.
pub const FRAME_HEAD_1: u8 = 0xAB;

/// Why a byte buffer is not a frame.
#[derive(Debug, Clone, Copy, PartialEq, Eq, Structural)]
pub enum FrameError {
    /// Fewer bytes than the shortest frame the parser accepts.
    TooShort,
    /// The command byte names no command form.
    UnknownCommand(u8),
    /// The declared payload length runs past the end of the buffer.
    Truncated,
}

/// One logical frame: the unit of exchange with the device.
#[derive(Debug, Clone)]
pub struct Frame {
    pub address: u8,
    pub cmd_code: CmdCodeMap,
    pub data: Vec<u8>,
}

/// The mathematical content of a frame.
pub struct FrameView {
    pub address: u8,
    pub cmd_code: CmdCodeMap,
    pub data: Seq<u8>,
}

impl View for Frame {
    type V = FrameView;

    open spec fn view(&self) -> FrameView {
        FrameView { address: self.address, cmd_code: self.cmd_code, data: self.data@ }
    }
}

/// The bytes a frame serializes to: preamble, address, command code, payload
/// length, payload.
pub open spec fn spec_build(f: FrameView) -> Seq<u8> {
    seq![FRAME_HEAD_0, FRAME_HEAD_1, f.address, f.cmd_code.spec_code(), f.data.len() as u8]
        + f.data
}

/// The frame a byte buffer parses to, or the exact reason it is rejected:
/// too short under six bytes, then an unknown command byte, then a payload
/// length running past the buffer. The two preamble bytes are skipped by
/// position, not value-checked.
pub open spec fn spec_parse(bytes: Seq<u8>) -> Result<FrameView, FrameError> {
    if bytes.len() < 6 {
        Err(FrameError::TooShort)
    } else {
        match CmdCodeMap::spec_from(bytes[3]) {
            None => Err(FrameError::UnknownCommand(bytes[3])),
            Some(cmd) => {
                if 5 + bytes[4] as int > bytes.len() {
                    Err(FrameError::Truncated)
                } else {
                    Ok(
                        FrameView {
                            address: bytes[2],
                            cmd_code: cmd,
                            data: bytes.subrange(5, 5 + bytes[4] as int),
                        },
                    )
                }
            },
        }
    }
}

impl Frame {
    /// A frame is no more than its three fields.
    pub fn new(address: u8, cmd_code: CmdCodeMap, data: Vec<u8>) -> (f: Frame)
        ensures
            f.address == address,
            f.cmd_code == cmd_code,
            f.data == data,
    {
        Frame { address, cmd_code, data }
    }

    /// Serialize this frame; the caller guarantees the payload fits the
    /// one-byte length field.
    pub fn build(&self) -> (bytes: Vec<u8>)
        requires
            self.data.len() <= 255,
        ensures
            bytes@ == spec_build(self@),
    {
        let mut bytes: Vec<u8> = Vec::new();
        bytes.push(FRAME_HEAD_0);
        bytes.push(FRAME_HEAD_1);
        bytes.push(self.address);
        bytes.push(self.cmd_code.get_code());
        bytes.push(self.data.len() as u8);
        let mut i: usize = 0;
        while i < self.data.len()
            invariant
                i <= self.data.len(),
                self.data.len() <= 255,
                bytes@.len() == 5 + i,
                bytes@ == spec_build(self@).subrange(0, 5 + i as int),
            decreases self.data.len() - i,
        {
            bytes.push(self.data[i]);
            proof {
                assert(bytes@ =~= spec_build(self@).subrange(0, 5 + (i + 1) as int));
            }
            i = i + 1;
        }
        proof {
            assert(bytes@ =~= spec_build(self@));
        }
        bytes
    }

    /// Parse a byte buffer into a frame. Never panics: every malformed
    /// buffer comes back as the `FrameError` that names what is wrong.
    pub fn parse(data: &[u8]) -> (r: Result<Frame, FrameError>)
        ensures
            match r {
                Ok(f) => spec_parse(data@) == Ok::<FrameView, FrameError>(f@),
                Err(e) => spec_parse(data@) == Err::<FrameView, FrameError>(e),
            },
    {
        if data.len() < 6 {
            return Err(FrameError::TooShort);
        }
        let address = data[2];
        let cmd_code = match CmdCodeMap::from(data[3]) {
            Ok(c) => c,
            Err(UnknownCode(b)) => {
                return Err(FrameError::UnknownCommand(b));
            },
        };
        let data_len = data[4] as usize;
        if data_len > data.len() - 5 {
            return Err(FrameError::Truncated);
        }
        let mut payload: Vec<u8> = Vec::new();
        let mut i: usize = 5;
        while i < 5 + data_len
            invariant
                data_len <= 255,
                5 <= i <= 5 + data_len,
                5 + data_len <= data@.len(),
                payload@ == data@.subrange(5, i as int),
            decreases 5 + data_len - i,
        {
            payload.push(data[i]);
            proof {
                assert(payload@ =~= data@.subrange(5, i + 1 as int));
            }
            i = i + 1;
        }
        Ok(Frame { address, cmd_code, data: payload })
    }
}

/// Law: serializing a frame and parsing the bytes back returns the same
/// frame, for every frame whose payload has 1 to 255 bytes. (An empty
/// payload serializes to five bytes, which the parser rejects as too short.)
pub proof fn lemma_frame_roundtrip(f: FrameView)
    requires
        1 <= f.data.len() <= 255,
    ensures
        spec_parse(spec_build(f)) == Ok::<FrameView, FrameError>(f),
{
    let bytes = spec_build(f);
    lemma_cmd_code_roundtrip(f.cmd_code);
    assert(bytes[4] as int == f.data.len());
    assert(bytes.subrange(5, 5 + bytes[4] as int) =~= f.data);
}

/// Law: any buffer of fewer than six bytes is rejected as too short.
pub proof fn lemma_parse_too_short(bytes: Seq<u8>)
    requires
        bytes.len() < 6,
    ensures
        spec_parse(bytes) == Err::<FrameView, FrameError>(FrameError::TooShort),
{
}

/// Law: a long-enough buffer whose command byte names no command form is
/// rejected as an unknown command, never a panic.
pub proof fn lemma_parse_unknown_command(bytes: Seq<u8>)
    requires
        bytes.len() >= 6,
        CmdCodeMap::spec_from(bytes[3]) is None,
    ensures
        spec_parse(bytes) == Err::<FrameView, FrameError>(FrameError::UnknownCommand(bytes[3])),
{
}

/// Law: a buffer whose declared payload length exceeds the bytes available
/// after the header is rejected as truncated.
pub proof fn lemma_parse_truncated(bytes: Seq<u8>)
    requires
        bytes.len() >= 6,
        CmdCodeMap::spec_from(bytes[3]) is Some,
        5 + bytes[4] > bytes.len(),
    ensures
        spec_parse(bytes) == Err::<FrameView, FrameError>(FrameError::Truncated),
{
}

} // verus!
