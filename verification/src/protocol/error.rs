//! Errors raised while decoding frames and payloads.

use vstd::prelude::*;
use crate::protocol::text::{append_decimal, append_hex, spec_decimal, spec_hex};

verus! {

/// Frame and payload decoding errors.
#[derive(Debug, Clone, Copy, PartialEq, Eq)]
#[allow(inconsistent_fields)]
pub enum FrameError {
    /// No frame header byte was found.
    NoHeader,
    /// The frame is incomplete; `needed` more bytes are required.
    Incomplete { needed: usize },
    /// The CRC carried by the frame differs from the one computed over it.
    CrcMismatch { expected: u16, got: u16 },
    /// The payload could not be decoded.
    PayloadDecode(&'static str),
    /// The payload is shorter than its type requires.
    PayloadTooShort { expected: usize, got: usize },
}

impl FrameError {
    /// The text shown for an error; CRC values are written as `0x` and four
    /// lower-case hexadecimal digits.
    pub open spec fn spec_display(self) -> Seq<char> {
        match self {
            FrameError::NoHeader => "No frame header found"@,
            FrameError::Incomplete { needed } => "Incomplete frame, need "@ + spec_decimal(
                needed as nat,
            ) + " more bytes"@,
            FrameError::CrcMismatch { expected, got } => "CRC mismatch: expected 0x"@ + spec_hex(
                expected as nat,
                4,
                false,
            ) + ", got 0x"@ + spec_hex(got as nat, 4, false),
            FrameError::PayloadDecode(msg) => "Payload decode error: "@ + msg@,
            FrameError::PayloadTooShort { expected, got } => "Payload too short: expected "@
                + spec_decimal(expected as nat) + " bytes, got "@ + spec_decimal(got as nat),
        }
    }

    /// The text shown for this error (see `spec_display`).
    pub fn to_string(&self) -> (s: String)
        ensures
            s@ == self.spec_display(),
    {
        let mut s = String::new();
        match self {
            FrameError::NoHeader => s.append("No frame header found"),
            FrameError::Incomplete { needed } => {
                s.append("Incomplete frame, need ");
                append_decimal(&mut s, *needed as u64);
                s.append(" more bytes");
            },
            FrameError::CrcMismatch { expected, got } => {
                s.append("CRC mismatch: expected 0x");
                append_hex(&mut s, *expected as u64, 4, false);
                s.append(", got 0x");
                append_hex(&mut s, *got as u64, 4, false);
            },
            FrameError::PayloadDecode(msg) => {
                s.append("Payload decode error: ");
                s.append(msg);
            },
            FrameError::PayloadTooShort { expected, got } => {
                s.append("Payload too short: expected ");
                append_decimal(&mut s, *expected as u64);
                s.append(" bytes, got ");
                append_decimal(&mut s, *got as u64);
            },
        }
        proof {
            assert(s@ =~= self.spec_display());
        }
        s
    }
}

} // verus!
