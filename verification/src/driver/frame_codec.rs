//! Frame codec used by the transports.

use vstd::prelude::*;
use crate::protocol::error::FrameError;
use crate::protocol::frame::{
    find_header, find_header_position, spec_decode, spec_encode, FrameType, RawFrame,
};
use crate::protocol::wire::{read_u16, u16_at};

verus! {

/// Frame encoder and decoder.
pub struct FrameCodec;

/// `buf` holds a whole frame after its first header byte: the header and
/// as many bytes as its LEN field announces, plus the CRC.
pub open spec fn spec_has_complete_frame(buf: Seq<u8>) -> bool {
    match find_header(buf) {
        None => false,
        Some(h) => buf.len() - h >= 4 && buf.len() - h >= 6 + u16_at(buf, h + 2),
    }
}

impl FrameCodec {
    /// Decodes the first frame in `buf`; returns it and the number of bytes
    /// consumed up to its end.
    pub fn decode(buf: &[u8]) -> (r: Result<(RawFrame, usize), FrameError>)
        ensures
            match r {
                Ok((f, n)) => spec_decode(buf@) == Ok::<_, FrameError>((f@, n)),
                Err(e) => spec_decode(buf@) == Err::<((FrameType, Seq<u8>), usize), FrameError>(
                    e,
                ),
            },
    {
        RawFrame::decode(buf)
    }

    /// Encodes a frame to bytes.
    pub fn encode(frame: &RawFrame) -> (bytes: Vec<u8>)
        ensures
            bytes@ == spec_encode(frame.frame_type, frame.payload@),
    {
        frame.encode()
    }

    /// Position of the first header byte in `buf`.
    pub fn find_header(buf: &[u8]) -> (r: Option<usize>)
        ensures
            match r {
                Some(h) => find_header(buf@) == Some(h as int),
                None => find_header(buf@) is None,
            },
    {
        find_header_position(buf)
    }

    /// Whether `buf` holds a whole frame after its first header byte.
    pub fn has_complete_frame(buf: &[u8]) -> (b: bool)
        ensures
            b == spec_has_complete_frame(buf@),
    {
        let header_pos = match FrameCodec::find_header(buf) {
            Some(pos) => pos,
            None => return false,
        };
        if buf.len() - header_pos < 4 {
            return false;
        }
        let payload_len = read_u16(buf, header_pos + 2) as usize;
        let total_len = 4 + payload_len + 2;
        buf.len() - header_pos >= total_len
    }
}

/// A buffer holds a complete frame exactly when decoding it neither misses
/// the header nor runs out of bytes: it then yields a frame or a CRC
/// mismatch.
pub proof fn lemma_complete_frame_decodes(buf: Seq<u8>)
    ensures
        spec_has_complete_frame(buf) <==> (spec_decode(buf) is Ok || spec_decode(buf) matches Err(
            FrameError::CrcMismatch { .. },
        )),
{
}

} // verus!
