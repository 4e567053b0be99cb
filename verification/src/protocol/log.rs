//! Log messages sent by the board.
//!
//! Payload layout: `[level:1][file_name\0][fun_name\0][msg...]`; the file and
//! function names end with a NUL byte and the message takes the remaining
//! bytes, all UTF-8.

use vstd::prelude::*;
use vstd::utf8::{
    char_is_scalar, char_u32_cast, decode_utf8, encode_scalar, encode_utf8, encode_utf8_decode_utf8,
    encode_utf8_valid_utf8, has_width_1_encoding, has_width_2_encoding, has_width_3_encoding,
    is_scalar, last_continuation_byte, leading_byte_width_1, leading_byte_width_2,
    leading_byte_width_3, leading_byte_width_4, second_last_continuation_byte,
    third_last_continuation_byte, valid_utf8,
};
use crate::protocol::error::FrameError;
use crate::protocol::frame::{FromPayload, ToPayload};
use crate::protocol::wire::{first_index_of, is_first_index, lemma_first_index_of, position_from, push_bytes};

verus! {

/// Log level.
#[derive(Debug, Clone, Copy, PartialEq, Eq, Default, Structural)]
pub enum LogLevel {
    #[default]
    OFF,
    Debug,
    Info,
    Warn,
    Error,
}

impl LogLevel {
    /// The level that byte `v` denotes: bytes 0 to 4 are the numbers of the
    /// levels, and every other byte denotes `OFF`.
    pub open spec fn spec_from_u8(v: u8) -> LogLevel {
        if v == 1 {
            LogLevel::Debug
        } else if v == 2 {
            LogLevel::Info
        } else if v == 3 {
            LogLevel::Warn
        } else if v == 4 {
            LogLevel::Error
        } else {
            LogLevel::OFF
        }
    }

    /// The number of a level.
    pub open spec fn spec_as_u8(self) -> u8 {
        match self {
            LogLevel::OFF => 0,
            LogLevel::Debug => 1,
            LogLevel::Info => 2,
            LogLevel::Warn => 3,
            LogLevel::Error => 4,
        }
    }

    pub open spec fn spec_name(self) -> Seq<char> {
        match self {
            LogLevel::OFF => "OFF"@,
            LogLevel::Debug => "DEBUG"@,
            LogLevel::Info => "INFO"@,
            LogLevel::Warn => "WARN"@,
            LogLevel::Error => "ERROR"@,
        }
    }

    /// Decodes a level byte.
    pub fn from_u8(v: u8) -> (l: LogLevel)
        ensures
            l == LogLevel::spec_from_u8(v),
    {
        match v {
            0 => LogLevel::OFF,
            1 => LogLevel::Debug,
            2 => LogLevel::Info,
            3 => LogLevel::Warn,
            4 => LogLevel::Error,
            _ => LogLevel::OFF,
        }
    }

    /// The number of this level.
    pub fn as_u8(&self) -> (v: u8)
        ensures
            v == self.spec_as_u8(),
    {
        match self {
            LogLevel::OFF => 0,
            LogLevel::Debug => 1,
            LogLevel::Info => 2,
            LogLevel::Warn => 3,
            LogLevel::Error => 4,
        }
    }

    /// Display name of this level.
    pub fn name(&self) -> (s: &'static str)
        ensures
            s@ == self.spec_name(),
    {
        match self {
            LogLevel::OFF => "OFF",
            LogLevel::Debug => "DEBUG",
            LogLevel::Info => "INFO",
            LogLevel::Warn => "WARN",
            LogLevel::Error => "ERROR",
        }
    }

    /// Display name of this level as an owned string.
    pub fn to_string(&self) -> (s: String)
        ensures
            s@ == self.spec_name(),
    {
        self.name().to_owned()
    }
}

/// Decodes `bytes` as UTF-8 with `core::str::from_utf8`. Its documentation
/// says that it succeeds exactly on valid UTF-8 and returns the string those
/// bytes encode; the contract states this over vstd's UTF-8 model.
#[verifier::external_body]
fn str_from_utf8(bytes: &[u8]) -> (r: Option<&str>)
    ensures
        match r {
            Some(s) => valid_utf8(bytes@) && s@ == decode_utf8(bytes@),
            None => !valid_utf8(bytes@),
        },
{
    core::str::from_utf8(bytes).ok()
}

/// A log message from the board.
#[derive(Debug, Clone, Default)]
pub struct LogMessage {
    pub level: LogLevel,
    pub file_name: String,
    pub fun_name: String,
    pub msg: String,
}

impl View for LogMessage {
    type V = (LogLevel, Seq<char>, Seq<char>, Seq<char>);

    open spec fn view(&self) -> (LogLevel, Seq<char>, Seq<char>, Seq<char>) {
        (self.level, self.file_name@, self.fun_name@, self.msg@)
    }
}

/// Result of decoding a log payload.
pub open spec fn spec_log_from_bytes(data: Seq<u8>) -> Result<
    (LogLevel, Seq<char>, Seq<char>, Seq<char>),
    FrameError,
> {
    if data.len() == 0 {
        Err(FrameError::PayloadTooShort { expected: 1, got: 0 })
    } else {
        let level = LogLevel::spec_from_u8(data[0]);
        let rest = data.subrange(1, data.len() as int);
        match first_index_of(rest, 0) {
            None => Err(FrameError::PayloadDecode("missing null terminator for file_name")),
            Some(f) => {
                let file = rest.subrange(0, f);
                if !valid_utf8(file) {
                    Err(FrameError::PayloadDecode("invalid utf8 in file_name"))
                } else {
                    let rest2 = rest.subrange(f + 1, rest.len() as int);
                    match first_index_of(rest2, 0) {
                        None => Err(
                            FrameError::PayloadDecode("missing null terminator for fun_name"),
                        ),
                        Some(g) => {
                            let fun = rest2.subrange(0, g);
                            if !valid_utf8(fun) {
                                Err(FrameError::PayloadDecode("invalid utf8 in fun_name"))
                            } else {
                                let msg = rest2.subrange(g + 1, rest2.len() as int);
                                if !valid_utf8(msg) {
                                    Err(FrameError::PayloadDecode("invalid utf8 in msg"))
                                } else {
                                    Ok(
                                        (
                                            level,
                                            decode_utf8(file),
                                            decode_utf8(fun),
                                            decode_utf8(msg),
                                        ),
                                    )
                                }
                            }
                        },
                    }
                }
            },
        }
    }
}

impl LogMessage {
    /// The payload bytes of a log message.
    pub open spec fn spec_to_bytes(self) -> Seq<u8> {
        seq![self.level.spec_as_u8()] + encode_utf8(self.file_name@) + seq![0u8] + encode_utf8(
            self.fun_name@,
        ) + seq![0u8] + encode_utf8(self.msg@)
    }

    /// The text shown for a log message: `[LEVEL] file::function: message`.
    pub open spec fn spec_display(self) -> Seq<char> {
        "["@ + self.level.spec_name() + "] "@ + self.file_name@ + "::"@ + self.fun_name@ + ": "@
            + self.msg@
    }

    /// Decodes a log payload.
    pub fn from_bytes(data: &[u8]) -> (r: Result<LogMessage, FrameError>)
        ensures
            match r {
                Ok(m) => spec_log_from_bytes(data@) == Ok::<_, FrameError>(m@),
                Err(e) => spec_log_from_bytes(data@) == Err::<
                    (LogLevel, Seq<char>, Seq<char>, Seq<char>),
                    FrameError,
                >(e),
            },
    {
        if data.len() == 0 {
            return Err(FrameError::PayloadTooShort { expected: 1, got: 0 });
        }
        let level = LogLevel::from_u8(data[0]);
        let ghost rest = data@.subrange(1, data@.len() as int);
        let file_end = match position_from(data, 1, 0) {
            Some(i) => i,
            None => return Err(FrameError::PayloadDecode("missing null terminator for file_name")),
        };
        let file_bytes = &data[1..1 + file_end];
        assert(file_bytes@ =~= rest.subrange(0, file_end as int));
        let file_name = match str_from_utf8(file_bytes) {
            Some(s) => s.to_owned(),
            None => return Err(FrameError::PayloadDecode("invalid utf8 in file_name")),
        };
        let fun_start = 1 + file_end + 1;
        let ghost rest2 = rest.subrange(file_end + 1, rest.len() as int);
        assert(rest2 =~= data@.subrange(fun_start as int, data@.len() as int));
        let fun_end = match position_from(data, fun_start, 0) {
            Some(i) => i,
            None => return Err(FrameError::PayloadDecode("missing null terminator for fun_name")),
        };
        let fun_bytes = &data[fun_start..fun_start + fun_end];
        assert(fun_bytes@ =~= rest2.subrange(0, fun_end as int));
        let fun_name = match str_from_utf8(fun_bytes) {
            Some(s) => s.to_owned(),
            None => return Err(FrameError::PayloadDecode("invalid utf8 in fun_name")),
        };
        let msg_bytes = &data[fun_start + fun_end + 1..data.len()];
        assert(msg_bytes@ =~= rest2.subrange(fun_end + 1, rest2.len() as int));
        let msg = match str_from_utf8(msg_bytes) {
            Some(s) => s.to_owned(),
            None => return Err(FrameError::PayloadDecode("invalid utf8 in msg")),
        };
        Ok(LogMessage { level, file_name, fun_name, msg })
    }

    /// Encodes this log payload.
    pub fn to_bytes(&self) -> (bytes: Vec<u8>)
        ensures
            bytes@ == self.spec_to_bytes(),
    {
        let mut buf: Vec<u8> = Vec::new();
        buf.push(self.level.as_u8());
        push_bytes(&mut buf, self.file_name.as_str().as_bytes());
        buf.push(0);
        push_bytes(&mut buf, self.fun_name.as_str().as_bytes());
        buf.push(0);
        push_bytes(&mut buf, self.msg.as_str().as_bytes());
        proof {
            assert(buf@ =~= self.spec_to_bytes());
        }
        buf
    }

    /// The text shown for this message, `[LEVEL] file::function: message`.
    pub fn to_string(&self) -> (s: String)
        ensures
            s@ == self.spec_display(),
    {
        let mut s = String::new();
        s.append("[");
        s.append(self.level.name());
        s.append("] ");
        s.append(self.file_name.as_str());
        s.append("::");
        s.append(self.fun_name.as_str());
        s.append(": ");
        s.append(self.msg.as_str());
        proof {
            assert(s@ =~= self.spec_display());
        }
        s
    }
}

impl ToPayload for LogMessage {
    fn to_payload(&self) -> (bytes: Vec<u8>)
        ensures
            bytes@ == self.spec_to_bytes(),
    {
        self.to_bytes()
    }
}

impl FromPayload for LogMessage {
    open spec fn decodable(payload: Seq<u8>) -> bool {
        true
    }

    fn from_payload(p: &[u8]) -> (r: Result<LogMessage, FrameError>)
        ensures
            match r {
                Ok(m) => spec_log_from_bytes(p@) == Ok::<_, FrameError>(m@),
                Err(e) => spec_log_from_bytes(p@) == Err::<
                    (LogLevel, Seq<char>, Seq<char>, Seq<char>),
                    FrameError,
                >(e),
            },
    {
        LogMessage::from_bytes(p)
    }
}

proof fn lemma_encode_scalar_nonzero(v: u32)
    requires
        is_scalar(v),
        v != 0,
    ensures
        forall|i: int| 0 <= i < encode_scalar(v).len() ==> encode_scalar(v)[i] != 0,
{
    if has_width_1_encoding(v) {
        assert(leading_byte_width_1(v) != 0) by (bit_vector)
            requires
                v <= 0x7F && v != 0,
        ;
    } else if has_width_2_encoding(v) {
        assert(leading_byte_width_2(v) != 0) by (bit_vector);
        assert(last_continuation_byte(v) != 0) by (bit_vector);
    } else if has_width_3_encoding(v) {
        assert(leading_byte_width_3(v) != 0) by (bit_vector);
        assert(second_last_continuation_byte(v) != 0) by (bit_vector);
        assert(last_continuation_byte(v) != 0) by (bit_vector);
    } else {
        assert(leading_byte_width_4(v) != 0) by (bit_vector);
        assert(third_last_continuation_byte(v) != 0) by (bit_vector);
        assert(second_last_continuation_byte(v) != 0) by (bit_vector);
        assert(last_continuation_byte(v) != 0) by (bit_vector);
    }
}

/// The UTF-8 encoding of text without a NUL character holds no zero byte.
pub proof fn lemma_encode_utf8_no_zero(chars: Seq<char>)
    requires
        !chars.contains('\0'),
    ensures
        forall|i: int| 0 <= i < encode_utf8(chars).len() ==> encode_utf8(chars)[i] != 0,
    decreases chars.len(),
{
    if chars.len() > 0 {
        let c = chars[0];
        assert(c != '\0') by {
            assert(chars[0] == c);
        }
        char_is_scalar(c);
        assert((c as u32) != 0) by {
            char_u32_cast(c, c as u32);
            assert(('\0' as u32) == 0);
        }
        lemma_encode_scalar_nonzero(c as u32);
        assert(!chars.drop_first().contains('\0')) by {
            if chars.drop_first().contains('\0') {
                let j = choose|j: int| 0 <= j < chars.drop_first().len() && chars.drop_first()[j] == '\0';
                assert(chars[j + 1] == '\0');
            }
        }
        lemma_encode_utf8_no_zero(chars.drop_first());
        let e = encode_utf8(chars);
        let a = encode_scalar(c as u32);
        let b = encode_utf8(chars.drop_first());
        assert(e == a + b);
        assert forall|i: int| 0 <= i < e.len() implies e[i] != 0 by {
            if i < a.len() {
                assert(e[i] == a[i]);
            } else {
                assert(e[i] == b[i - a.len()]);
            }
        }
    }
}

/// Every level's number decodes to that level, and every byte above the
/// numbers decodes to `OFF`.
pub proof fn lemma_log_level_byte_roundtrip(l: LogLevel, v: u8)
    ensures
        LogLevel::spec_from_u8(l.spec_as_u8()) == l,
        v >= 5 ==> LogLevel::spec_from_u8(v) == LogLevel::OFF,
{
}

/// Decoding the encoding of a log message gives it back when its file and
/// function names hold no NUL character.
pub proof fn lemma_log_roundtrip(m: LogMessage)
    requires
        !m.file_name@.contains('\0'),
        !m.fun_name@.contains('\0'),
    ensures
        spec_log_from_bytes(m.spec_to_bytes()) == Ok::<_, FrameError>(m@),
{
    let fb = encode_utf8(m.file_name@);
    let ub = encode_utf8(m.fun_name@);
    let mb = encode_utf8(m.msg@);
    let data = m.spec_to_bytes();
    lemma_encode_utf8_no_zero(m.file_name@);
    lemma_encode_utf8_no_zero(m.fun_name@);
    encode_utf8_valid_utf8(m.file_name@);
    encode_utf8_valid_utf8(m.fun_name@);
    encode_utf8_valid_utf8(m.msg@);
    encode_utf8_decode_utf8(m.file_name@);
    encode_utf8_decode_utf8(m.fun_name@);
    encode_utf8_decode_utf8(m.msg@);
    let rest = data.subrange(1, data.len() as int);
    assert(rest =~= fb + seq![0u8] + ub + seq![0u8] + mb);
    assert(is_first_index(rest, 0, fb.len() as int)) by {
        assert forall|j: int| 0 <= j < fb.len() implies rest[j] != 0 by {
            assert(rest[j] == fb[j]);
        }
    }
    lemma_first_index_of(rest, 0, fb.len() as int);
    assert(rest.subrange(0, fb.len() as int) =~= fb);
    let rest2 = rest.subrange(fb.len() as int + 1, rest.len() as int);
    assert(rest2 =~= ub + seq![0u8] + mb);
    assert(is_first_index(rest2, 0, ub.len() as int)) by {
        assert forall|j: int| 0 <= j < ub.len() implies rest2[j] != 0 by {
            assert(rest2[j] == ub[j]);
        }
    }
    lemma_first_index_of(rest2, 0, ub.len() as int);
    assert(rest2.subrange(0, ub.len() as int) =~= ub);
    assert(rest2.subrange(ub.len() as int + 1, rest2.len() as int) =~= mb);
}

/// The level byte means: 1 debug, 2 info, 3 warn, 4 error, 0 and anything else off; the levels are written as 0 to 4 from off to error.
pub proof fn lemma_log_level_codes(v: u8)
    ensures
        (LogLevel::spec_from_u8(v) == LogLevel::Debug) <==> v == 1,
        (LogLevel::spec_from_u8(v) == LogLevel::Info) <==> v == 2,
        (LogLevel::spec_from_u8(v) == LogLevel::Warn) <==> v == 3,
        (LogLevel::spec_from_u8(v) == LogLevel::Error) <==> v == 4,
        (LogLevel::spec_from_u8(v) == LogLevel::OFF) <==> !(v == 1 || v == 2 || v == 3 || v == 4),
        LogLevel::OFF.spec_as_u8() == 0,
        LogLevel::Debug.spec_as_u8() == 1,
        LogLevel::Info.spec_as_u8() == 2,
        LogLevel::Warn.spec_as_u8() == 3,
        LogLevel::Error.spec_as_u8() == 4,
{
}

} // verus!
