//! Frame format.
//!
//! Every frame, in both directions, is laid out as
//! `HEAD(0xAA) | TYPE(1) | LEN(2, little-endian) | PAYLOAD(LEN) | CRC(2, little-endian)`,
//! where the CRC is CRC-16/CCITT over TYPE, LEN and PAYLOAD. A receiver looks
//! for the first header byte and then reads LEN bytes; header bytes inside
//! the payload need no escaping.

use vstd::prelude::*;
use crate::protocol::crc::{crc16_ccitt_table, spec_crc16_ccitt};
use crate::protocol::error::FrameError;
use crate::protocol::text::{append_hex, spec_hex};
use crate::protocol::wire::{copy_range, push_bytes, read_u16, u16_at, u16_le};
use crate::protocol::battery_state::BatteryState;
use crate::protocol::config::{BoardConfigSnapshot, Config, ConfigType};
use crate::protocol::event::BoardEvent;
use crate::protocol::imu::ImuData;
use crate::protocol::power::PowerData;
use crate::protocol::system::{system_payload_decodable, SystemInfo};
use crate::protocol::thermal::ThermalData;

verus! {

/// Frame header byte.
pub const FRAME_HEAD: u8 = 0xAA;

/// Length of HEAD + TYPE + LEN.
pub const FRAME_HEADER_SIZE: usize = 4;

/// Length of the CRC trailer.
pub const FRAME_CRC_SIZE: usize = 2;

/// Frame type carried in the TYPE byte.
#[derive(Debug, Clone, Copy, PartialEq, Eq, Structural)]
pub enum FrameType {
    // Uplink (board to host)
    Imu,
    Power,
    Thermal,
    Config,
    Battery,
    System,
    Event,
    // Downlink (host to board)
    CfgWrite,
    CfgQuery,
    CfgQueryAll,
    // Responses (board to host)
    AckCfgWrite,
    AckCfgQuery,
    AckCfgQueryAll,
    /// Any other TYPE byte.
    Unknown(u8),
}

impl FrameType {
    /// The frame type that the TYPE byte `v` denotes.
    pub open spec fn spec_from_u8(v: u8) -> FrameType {
        if v == 0x01 {
            FrameType::Imu
        } else if v == 0x02 {
            FrameType::Power
        } else if v == 0x03 {
            FrameType::Thermal
        } else if v == 0x04 {
            FrameType::Config
        } else if v == 0x05 {
            FrameType::Battery
        } else if v == 0x06 {
            FrameType::System
        } else if v == 0x07 {
            FrameType::Event
        } else if v == 0x80 {
            FrameType::CfgWrite
        } else if v == 0x81 {
            FrameType::CfgQuery
        } else if v == 0x82 {
            FrameType::CfgQueryAll
        } else if v == 0xC0 {
            FrameType::AckCfgWrite
        } else if v == 0xC1 {
            FrameType::AckCfgQuery
        } else if v == 0xC2 {
            FrameType::AckCfgQueryAll
        } else {
            FrameType::Unknown(v)
        }
    }

    /// The TYPE byte of a frame type.
    pub open spec fn spec_as_u8(self) -> u8 {
        match self {
            FrameType::Imu => 0x01,
            FrameType::Power => 0x02,
            FrameType::Thermal => 0x03,
            FrameType::Config => 0x04,
            FrameType::Battery => 0x05,
            FrameType::System => 0x06,
            FrameType::Event => 0x07,
            FrameType::CfgWrite => 0x80,
            FrameType::CfgQuery => 0x81,
            FrameType::CfgQueryAll => 0x82,
            FrameType::AckCfgWrite => 0xC0,
            FrameType::AckCfgQuery => 0xC1,
            FrameType::AckCfgQueryAll => 0xC2,
            FrameType::Unknown(v) => v,
        }
    }

    /// A frame type is canonical when decoding its TYPE byte gives it back:
    /// every named type, and `Unknown(v)` for a byte `v` that names no type.
    pub open spec fn is_canonical(self) -> bool {
        FrameType::spec_from_u8(self.spec_as_u8()) == self
    }

    pub open spec fn spec_is_uplink(self) -> bool {
        match self {
            FrameType::Imu | FrameType::Power | FrameType::Thermal | FrameType::Config
            | FrameType::Battery | FrameType::System | FrameType::Event => true,
            _ => false,
        }
    }

    pub open spec fn spec_is_downlink(self) -> bool {
        match self {
            FrameType::CfgWrite | FrameType::CfgQuery | FrameType::CfgQueryAll => true,
            _ => false,
        }
    }

    pub open spec fn spec_is_response(self) -> bool {
        match self {
            FrameType::AckCfgWrite | FrameType::AckCfgQuery | FrameType::AckCfgQueryAll => true,
            _ => false,
        }
    }

    pub open spec fn spec_name(self) -> Seq<char> {
        match self {
            FrameType::Imu => "IMU"@,
            FrameType::Power => "Power"@,
            FrameType::Thermal => "Thermal"@,
            FrameType::Config => "Config"@,
            FrameType::Battery => "Battery"@,
            FrameType::System => "System"@,
            FrameType::Event => "Event"@,
            FrameType::CfgWrite => "CfgWrite"@,
            FrameType::CfgQuery => "CfgQuery"@,
            FrameType::CfgQueryAll => "CfgQueryAll"@,
            FrameType::AckCfgWrite => "AckCfgWrite"@,
            FrameType::AckCfgQuery => "AckCfgQuery"@,
            FrameType::AckCfgQueryAll => "AckCfgQueryAll"@,
            FrameType::Unknown(_) => "Unknown"@,
        }
    }

    /// Decodes a TYPE byte.
    pub fn from_u8(v: u8) -> (t: FrameType)
        ensures
            t == FrameType::spec_from_u8(v),
    {
        match v {
            0x01 => FrameType::Imu,
            0x02 => FrameType::Power,
            0x03 => FrameType::Thermal,
            0x04 => FrameType::Config,
            0x05 => FrameType::Battery,
            0x06 => FrameType::System,
            0x07 => FrameType::Event,
            0x80 => FrameType::CfgWrite,
            0x81 => FrameType::CfgQuery,
            0x82 => FrameType::CfgQueryAll,
            0xC0 => FrameType::AckCfgWrite,
            0xC1 => FrameType::AckCfgQuery,
            0xC2 => FrameType::AckCfgQueryAll,
            _ => FrameType::Unknown(v),
        }
    }

    /// The TYPE byte of this frame type.
    pub fn as_u8(&self) -> (v: u8)
        ensures
            v == self.spec_as_u8(),
    {
        match self {
            FrameType::Imu => 0x01,
            FrameType::Power => 0x02,
            FrameType::Thermal => 0x03,
            FrameType::Config => 0x04,
            FrameType::Battery => 0x05,
            FrameType::System => 0x06,
            FrameType::Event => 0x07,
            FrameType::CfgWrite => 0x80,
            FrameType::CfgQuery => 0x81,
            FrameType::CfgQueryAll => 0x82,
            FrameType::AckCfgWrite => 0xC0,
            FrameType::AckCfgQuery => 0xC1,
            FrameType::AckCfgQueryAll => 0xC2,
            FrameType::Unknown(v) => *v,
        }
    }

    /// Whether frames of this type travel from the board to the host as data.
    pub fn is_uplink(&self) -> (b: bool)
        ensures
            b == self.spec_is_uplink(),
    {
        match self {
            FrameType::Imu | FrameType::Power | FrameType::Thermal | FrameType::Config
            | FrameType::Battery | FrameType::System | FrameType::Event => true,
            _ => false,
        }
    }

    /// Whether frames of this type travel from the host to the board.
    pub fn is_downlink(&self) -> (b: bool)
        ensures
            b == self.spec_is_downlink(),
    {
        match self {
            FrameType::CfgWrite | FrameType::CfgQuery | FrameType::CfgQueryAll => true,
            _ => false,
        }
    }

    /// Whether frames of this type answer a downlink request.
    pub fn is_response(&self) -> (b: bool)
        ensures
            b == self.spec_is_response(),
    {
        match self {
            FrameType::AckCfgWrite | FrameType::AckCfgQuery | FrameType::AckCfgQueryAll => true,
            _ => false,
        }
    }

    /// Human-readable name.
    pub fn name(&self) -> (s: &'static str)
        ensures
            s@ == self.spec_name(),
    {
        match self {
            FrameType::Imu => "IMU",
            FrameType::Power => "Power",
            FrameType::Thermal => "Thermal",
            FrameType::Config => "Config",
            FrameType::Battery => "Battery",
            FrameType::System => "System",
            FrameType::Event => "Event",
            FrameType::CfgWrite => "CfgWrite",
            FrameType::CfgQuery => "CfgQuery",
            FrameType::CfgQueryAll => "CfgQueryAll",
            FrameType::AckCfgWrite => "AckCfgWrite",
            FrameType::AckCfgQuery => "AckCfgQuery",
            FrameType::AckCfgQueryAll => "AckCfgQueryAll",
            FrameType::Unknown(_) => "Unknown",
        }
    }

    /// The text shown for a frame type: its name, and for an unknown type
    /// `Unknown(0x..)` with its byte in two lower-case hexadecimal digits.
    pub open spec fn spec_display(self) -> Seq<char> {
        match self {
            FrameType::Unknown(v) => "Unknown(0x"@ + spec_hex(v as nat, 2, false) + ")"@,
            _ => self.spec_name(),
        }
    }

    /// The text shown for this frame type (see `spec_display`).
    pub fn to_string(&self) -> (s: String)
        ensures
            s@ == self.spec_display(),
    {
        match self {
            FrameType::Unknown(v) => {
                let mut s = String::new();
                s.append("Unknown(0x");
                append_hex(&mut s, *v as u64, 2, false);
                s.append(")");
                proof {
                    assert(s@ =~= self.spec_display());
                }
                s
            },
            _ => self.name().to_owned(),
        }
    }
}

/// Decoding a TYPE byte and encoding it again gives the byte back.
pub proof fn lemma_frame_type_byte_roundtrip(v: u8)
    ensures
        FrameType::spec_from_u8(v).spec_as_u8() == v,
{
}

/// Every named frame type is canonical; `Unknown(v)` is canonical exactly
/// when `v` names no type.
pub proof fn lemma_frame_type_canonical(t: FrameType)
    ensures
        t.is_canonical() <==> match t {
            FrameType::Unknown(v) => FrameType::spec_from_u8(v) is Unknown,
            _ => true,
        },
{
}

/// A frame as it travels on the wire, before its payload is interpreted.
#[derive(Debug, Clone)]
pub struct RawFrame {
    pub frame_type: FrameType,
    pub payload: Vec<u8>,
}

impl View for RawFrame {
    type V = (FrameType, Seq<u8>);

    open spec fn view(&self) -> (FrameType, Seq<u8>) {
        (self.frame_type, self.payload@)
    }
}

/// `h` is the position of the first header byte of `buf`.
pub open spec fn is_first_header(buf: Seq<u8>, h: int) -> bool {
    &&& 0 <= h < buf.len()
    &&& buf[h] == FRAME_HEAD
    &&& forall|j: int| 0 <= j < h ==> buf[j] != FRAME_HEAD
}

/// Position of the first header byte of `buf`, if any.
pub open spec fn find_header(buf: Seq<u8>) -> Option<int> {
    if exists|h: int| is_first_header(buf, h) {
        Some(choose|h: int| is_first_header(buf, h))
    } else {
        None
    }
}

/// The bytes of a frame of type `t` carrying `payload`: the LEN field holds
/// the payload length modulo 2^16, and the CRC covers TYPE, LEN and PAYLOAD.
pub open spec fn spec_encode(t: FrameType, payload: Seq<u8>) -> Seq<u8> {
    let body = seq![t.spec_as_u8()] + u16_le((payload.len() % 65536) as u16) + payload;
    seq![FRAME_HEAD] + body + u16_le(spec_crc16_ccitt(body))
}

/// Result of decoding the first frame in `buf`: the frame and the number of
/// bytes consumed up to its end, or the reason none could be decoded.
pub open spec fn spec_decode(buf: Seq<u8>) -> Result<((FrameType, Seq<u8>), usize), FrameError> {
    match find_header(buf) {
        None => Err(FrameError::NoHeader),
        Some(h) => {
            let avail = buf.len() - h;
            if avail < 4 {
                Err(FrameError::Incomplete { needed: (4 - avail) as usize })
            } else {
                let plen = u16_at(buf, h + 2) as int;
                let total = 6 + plen;
                if avail < total {
                    Err(FrameError::Incomplete { needed: (total - avail) as usize })
                } else {
                    let received = u16_at(buf, h + 4 + plen);
                    let calculated = spec_crc16_ccitt(buf.subrange(h + 1, h + 4 + plen));
                    if received != calculated {
                        Err(FrameError::CrcMismatch { expected: calculated, got: received })
                    } else {
                        Ok(
                            (
                                (
                                    FrameType::spec_from_u8(buf[h + 1]),
                                    buf.subrange(h + 4, h + 4 + plen),
                                ),
                                (h + total) as usize,
                            ),
                        )
                    }
                }
            }
        },
    }
}

proof fn lemma_first_header_unique(buf: Seq<u8>, h1: int, h2: int)
    requires
        is_first_header(buf, h1),
        is_first_header(buf, h2),
    ensures
        h1 == h2,
{
    if h1 < h2 {
        assert(buf[h1] != FRAME_HEAD);
    } else if h2 < h1 {
        assert(buf[h2] != FRAME_HEAD);
    }
}

/// Position of the first header byte of `buf`.
pub fn find_header_position(buf: &[u8]) -> (r: Option<usize>)
    ensures
        match r {
            Some(h) => find_header(buf@) == Some(h as int),
            None => find_header(buf@) is None,
        },
{
    let mut i: usize = 0;
    while i < buf.len()
        invariant
            i <= buf@.len(),
            forall|j: int| 0 <= j < i ==> buf@[j] != FRAME_HEAD,
        decreases buf@.len() - i,
    {
        if buf[i] == FRAME_HEAD {
            proof {
                assert(is_first_header(buf@, i as int));
                let c = choose|h: int| is_first_header(buf@, h);
                lemma_first_header_unique(buf@, c, i as int);
            }
            return Some(i);
        }
        i += 1;
    }
    proof {
        assert forall|h: int| !is_first_header(buf@, h) by {
            if 0 <= h < buf@.len() {
                assert(buf@[h] != FRAME_HEAD);
            }
        }
    }
    None
}

impl RawFrame {
    /// Decodes the first frame found in `buf`; returns it with the number of
    /// bytes consumed up to its end.
    pub fn decode(buf: &[u8]) -> (r: Result<(RawFrame, usize), FrameError>)
        ensures
            match r {
                Ok((f, n)) => spec_decode(buf@) == Ok::<_, FrameError>((f@, n)),
                Err(e) => spec_decode(buf@) == Err::<((FrameType, Seq<u8>), usize), FrameError>(
                    e,
                ),
            },
    {
        let header_pos = match find_header_position(buf) {
            Some(h) => h,
            None => return Err(FrameError::NoHeader),
        };
        if buf.len() - header_pos < FRAME_HEADER_SIZE {
            return Err(FrameError::Incomplete { needed: FRAME_HEADER_SIZE - (buf.len() - header_pos) });
        }
        let frame_type = FrameType::from_u8(buf[header_pos + 1]);
        let payload_len = read_u16(buf, header_pos + 2) as usize;
        let total_len = FRAME_HEADER_SIZE + payload_len + FRAME_CRC_SIZE;
        if buf.len() - header_pos < total_len {
            return Err(FrameError::Incomplete { needed: total_len - (buf.len() - header_pos) });
        }
        let payload_start = header_pos + FRAME_HEADER_SIZE;
        let payload_end = payload_start + payload_len;
        let payload = copy_range(buf, payload_start, payload_end);
        let received_crc = read_u16(buf, payload_end);
        let crc_data = &buf[header_pos + 1..payload_end];
        let calculated_crc = crc16_ccitt_table(crc_data);
        if received_crc != calculated_crc {
            return Err(FrameError::CrcMismatch { expected: calculated_crc, got: received_crc });
        }
        Ok((RawFrame { frame_type, payload }, header_pos + total_len))
    }

    /// Encodes this frame to bytes. The LEN field holds the payload length
    /// modulo 2^16.
    pub fn encode(&self) -> (bytes: Vec<u8>)
        ensures
            bytes@ == spec_encode(self.frame_type, self.payload@),
    {
        let payload_len = self.payload.len();
        let mut buf: Vec<u8> = Vec::new();
        buf.push(FRAME_HEAD);
        buf.push(self.frame_type.as_u8());
        let len_field = (payload_len % 65536) as u16;
        buf.push((len_field % 256) as u8);
        buf.push((len_field / 256) as u8);
        push_bytes(&mut buf, self.payload.as_slice());
        let crc_data = &buf.as_slice()[1..buf.len()];
        let crc = crc16_ccitt_table(crc_data);
        let ghost body = crc_data@;
        buf.push((crc % 256) as u8);
        buf.push((crc / 256) as u8);
        proof {
            assert(body =~= seq![self.frame_type.spec_as_u8()] + u16_le(len_field)
                + self.payload@);
            assert(buf@ =~= spec_encode(self.frame_type, self.payload@));
        }
        buf
    }
}

/// Decoding the bytes of a frame gives the frame back, consuming all of
/// them, when its type is canonical and its payload fits the LEN field.
pub proof fn lemma_decode_encode(t: FrameType, payload: Seq<u8>)
    requires
        t.is_canonical(),
        payload.len() <= 0xFFFF,
    ensures
        spec_decode(spec_encode(t, payload)) == Ok::<_, FrameError>(
            ((t, payload), spec_encode(t, payload).len() as usize),
        ),
{
    let bytes = spec_encode(t, payload);
    let plen = payload.len() as int;
    let body = seq![t.spec_as_u8()] + u16_le((payload.len() % 65536) as u16) + payload;
    assert(is_first_header(bytes, 0));
    lemma_first_header_unique(bytes, choose|h: int| is_first_header(bytes, h), 0);
    assert(bytes.subrange(2, 4) =~= u16_le(plen as u16));
    crate::protocol::wire::lemma_u16_roundtrip(plen as u16, bytes, 2);
    assert(bytes.subrange(4 + plen, 6 + plen) =~= u16_le(spec_crc16_ccitt(body)));
    crate::protocol::wire::lemma_u16_roundtrip(spec_crc16_ccitt(body), bytes, 4 + plen);
    assert(bytes.subrange(1, 4 + plen) =~= body);
    assert(bytes.subrange(4, 4 + plen) =~= payload);
}

/// Decoding skips whatever precedes the first header byte and leaves what
/// follows the frame: bytes without a header byte, then an encoded frame,
/// then anything, decode to that frame, consuming the skipped bytes and the
/// frame.
pub proof fn lemma_decode_skips_junk(t: FrameType, payload: Seq<u8>, junk: Seq<u8>, tail: Seq<u8>)
    requires
        t.is_canonical(),
        payload.len() <= 0xFFFF,
        forall|j: int| 0 <= j < junk.len() ==> junk[j] != FRAME_HEAD,
    ensures
        spec_decode(junk + spec_encode(t, payload) + tail) == Ok::<_, FrameError>(
            ((t, payload), (junk.len() + payload.len() + 6) as usize),
        ),
{
    let bytes = spec_encode(t, payload);
    let buf = junk + bytes + tail;
    let h = junk.len() as int;
    let plen = payload.len() as int;
    let body = seq![t.spec_as_u8()] + u16_le((payload.len() % 65536) as u16) + payload;
    assert(bytes.len() == 6 + plen);
    assert forall|j: int| 0 <= j < bytes.len() implies buf[h + j] == bytes[j] by {}
    assert(is_first_header(buf, h)) by {
        assert forall|j: int| 0 <= j < h implies buf[j] != FRAME_HEAD by {
            assert(buf[j] == junk[j]);
        }
    }
    lemma_first_header_unique(buf, choose|x: int| is_first_header(buf, x), h);
    assert(buf.subrange(h + 2, h + 4) =~= u16_le(plen as u16));
    crate::protocol::wire::lemma_u16_roundtrip(plen as u16, buf, h + 2);
    assert(buf.subrange(h + 4 + plen, h + 6 + plen) =~= u16_le(spec_crc16_ccitt(body)));
    crate::protocol::wire::lemma_u16_roundtrip(spec_crc16_ccitt(body), buf, h + 4 + plen);
    assert(buf.subrange(h + 1, h + 4 + plen) =~= body);
    assert(buf.subrange(h + 4, h + 4 + plen) =~= payload);
}

/// The CRC rejects any single changed TYPE or PAYLOAD byte: decoding an
/// encoded frame with byte `i` (the TYPE byte or a payload byte) replaced by
/// another value fails with a CRC mismatch, the CRC computed over the changed
/// bytes differing from the CRC the frame carries.
pub proof fn lemma_crc_rejects_changed_byte(t: FrameType, payload: Seq<u8>, i: int, b: u8)
    requires
        payload.len() <= 0xFFFF,
        i == 1 || 4 <= i < 4 + payload.len(),
        b != spec_encode(t, payload)[i],
    ensures
        ({
            let e = spec_encode(t, payload);
            let e2 = e.update(i, b);
            let n = payload.len() as int;
            let expected = spec_crc16_ccitt(e2.subrange(1, 4 + n));
            let got = u16_at(e, 4 + n);
            &&& spec_decode(e2) == Err::<((FrameType, Seq<u8>), usize), FrameError>(
                FrameError::CrcMismatch { expected, got },
            )
            &&& expected != got
        }),
{
    let e = spec_encode(t, payload);
    let e2 = e.update(i, b);
    let n = payload.len() as int;
    let body = seq![t.spec_as_u8()] + u16_le((payload.len() % 65536) as u16) + payload;
    assert(e.len() == 6 + n);
    assert(is_first_header(e2, 0));
    lemma_first_header_unique(e2, choose|x: int| is_first_header(e2, x), 0);
    assert(e2.subrange(2, 4) =~= u16_le(n as u16));
    crate::protocol::wire::lemma_u16_roundtrip(n as u16, e2, 2);
    assert(e.subrange(4 + n, 6 + n) =~= u16_le(spec_crc16_ccitt(body)));
    crate::protocol::wire::lemma_u16_roundtrip(spec_crc16_ccitt(body), e, 4 + n);
    assert(u16_at(e2, 4 + n) == u16_at(e, 4 + n));
    assert(e.subrange(1, 4 + n) =~= body);
    let body2 = e2.subrange(1, 4 + n);
    crate::protocol::crc::lemma_crc_detects_single_byte(body, body2, i - 1);
}

/// Payload types that encode themselves to frame payload bytes.
pub trait ToPayload {
    fn to_payload(&self) -> Vec<u8>;
}

/// Payload types that decode themselves from frame payload bytes.
pub trait FromPayload: Sized {
    /// Payloads that `from_payload` may be given without failing.
    spec fn decodable(payload: Seq<u8>) -> bool;

    fn from_payload(payload: &[u8]) -> Result<Self, FrameError>
        requires
            Self::decodable(payload@),
    ;
}

/// A frame with its payload decoded.
#[derive(Debug, Clone)]
pub enum TypedFrame {
    // Uplink frames
    Imu(ImuData),
    Power(PowerData),
    Thermal(ThermalData),
    Config(BoardConfigSnapshot),
    Battery(BatteryState),
    System(SystemInfo),
    Event(BoardEvent),
    // Responses
    AckCfgWrite { success: bool },
    AckCfgQuery(Config),
    AckCfgQueryAll(BoardConfigSnapshot),
    // Downlink frames, for sending
    ConfigWrite(Config),
    ConfigQuery(ConfigType),
    ConfigQueryAll,
}

/// Whether a frame of type `t` with payload `p` may be handed to
/// `TypedFrame::from_raw`: a system payload of 41 to 44 bytes cannot be
/// decoded.
pub open spec fn typed_frame_decodable(t: FrameType, p: Seq<u8>) -> bool {
    t == FrameType::System ==> system_payload_decodable(p.len())
}

/// The error that decoding the payload `p` of a frame of type `t` gives, or
/// `None` when it succeeds.
pub open spec fn spec_typed_error(t: FrameType, p: Seq<u8>) -> Option<FrameError> {
    match t {
        FrameType::Imu => match ImuData::spec_from_bytes(p) {
            Ok(_) => None,
            Err(e) => Some(e),
        },
        FrameType::Power => match PowerData::spec_from_bytes(p) {
            Ok(_) => None,
            Err(e) => Some(e),
        },
        FrameType::Thermal => match ThermalData::spec_from_bytes(p) {
            Ok(_) => None,
            Err(e) => Some(e),
        },
        FrameType::Config | FrameType::AckCfgQueryAll => match BoardConfigSnapshot::spec_from_bytes(
            p,
        ) {
            Ok(_) => None,
            Err(e) => Some(e),
        },
        FrameType::Battery => if p.len() < 20 {
            Some(FrameError::PayloadTooShort { expected: 20, got: p.len() as usize })
        } else {
            None
        },
        FrameType::System => match SystemInfo::spec_from_bytes(p) {
            Ok(_) => None,
            Err(e) => Some(e),
        },
        FrameType::Event => if p.len() < 7 {
            Some(FrameError::PayloadTooShort { expected: 7, got: p.len() as usize })
        } else {
            None
        },
        FrameType::AckCfgWrite => if p.len() == 0 {
            Some(FrameError::PayloadTooShort { expected: 1, got: 0 })
        } else {
            None
        },
        FrameType::AckCfgQuery => match Config::spec_from_bytes(p) {
            Ok(_) => None,
            Err(e) => Some(e),
        },
        FrameType::Unknown(_) => Some(FrameError::PayloadDecode("Unknown frame type")),
        _ => Some(FrameError::PayloadDecode("Unexpected frame type")),
    }
}

impl TypedFrame {
    pub open spec fn spec_frame_type(&self) -> FrameType {
        match self {
            TypedFrame::Imu(_) => FrameType::Imu,
            TypedFrame::Power(_) => FrameType::Power,
            TypedFrame::Thermal(_) => FrameType::Thermal,
            TypedFrame::Config(_) => FrameType::Config,
            TypedFrame::Battery(_) => FrameType::Battery,
            TypedFrame::System(_) => FrameType::System,
            TypedFrame::Event(_) => FrameType::Event,
            TypedFrame::AckCfgWrite { .. } => FrameType::AckCfgWrite,
            TypedFrame::AckCfgQuery(_) => FrameType::AckCfgQuery,
            TypedFrame::AckCfgQueryAll(_) => FrameType::AckCfgQueryAll,
            TypedFrame::ConfigWrite(_) => FrameType::CfgWrite,
            TypedFrame::ConfigQuery(_) => FrameType::CfgQuery,
            TypedFrame::ConfigQueryAll => FrameType::CfgQueryAll,
        }
    }

    /// `self` is what decoding the payload `p` of a frame of type `t` gives.
    pub open spec fn spec_decoded_from(&self, t: FrameType, p: Seq<u8>) -> bool {
        match t {
            FrameType::Imu => ImuData::spec_from_bytes(p) matches Ok(d) && *self
                == TypedFrame::Imu(d),
            FrameType::Power => PowerData::spec_from_bytes(p) matches Ok(d) && *self
                == TypedFrame::Power(d),
            FrameType::Thermal => ThermalData::spec_from_bytes(p) matches Ok(d) && *self
                == TypedFrame::Thermal(d),
            FrameType::Config => BoardConfigSnapshot::spec_from_bytes(p) matches Ok(d) && *self
                == TypedFrame::Config(d),
            FrameType::Battery => self matches TypedFrame::Battery(b) && b.spec_decoded_from(p),
            FrameType::System => SystemInfo::spec_from_bytes(p) matches Ok(d) && *self
                == TypedFrame::System(d),
            FrameType::Event => self matches TypedFrame::Event(e) && e.spec_fields()
                == BoardEvent::spec_decoded_fields(p),
            FrameType::AckCfgWrite => p.len() > 0 && *self == TypedFrame::AckCfgWrite {
                success: p[0] != 0,
            },
            FrameType::AckCfgQuery => Config::spec_from_bytes(p) matches Ok(c) && *self
                == TypedFrame::AckCfgQuery(c),
            FrameType::AckCfgQueryAll => BoardConfigSnapshot::spec_from_bytes(p) matches Ok(d)
                && *self == TypedFrame::AckCfgQueryAll(d),
            _ => false,
        }
    }

    /// Decodes the payload of `frame` according to its type. Downlink frame
    /// types and unknown types are rejected.
    pub fn from_raw(frame: &RawFrame) -> (r: Result<TypedFrame, FrameError>)
        requires
            typed_frame_decodable(frame.frame_type, frame.payload@),
        ensures
            match r {
                Ok(t) => spec_typed_error(frame.frame_type, frame.payload@) is None
                    && t.spec_decoded_from(frame.frame_type, frame.payload@),
                Err(e) => spec_typed_error(frame.frame_type, frame.payload@) == Some(e),
            },
    {
        let p = frame.payload.as_slice();
        match frame.frame_type {
            FrameType::Imu => match ImuData::from_bytes(p) {
                Ok(d) => Ok(TypedFrame::Imu(d)),
                Err(e) => Err(e),
            },
            FrameType::Power => match PowerData::from_bytes(p) {
                Ok(d) => Ok(TypedFrame::Power(d)),
                Err(e) => Err(e),
            },
            FrameType::Thermal => match ThermalData::from_bytes(p) {
                Ok(d) => Ok(TypedFrame::Thermal(d)),
                Err(e) => Err(e),
            },
            FrameType::Config => match BoardConfigSnapshot::from_bytes(p) {
                Ok(d) => Ok(TypedFrame::Config(d)),
                Err(e) => Err(e),
            },
            FrameType::Battery => match BatteryState::from_bytes(p) {
                Ok(d) => Ok(TypedFrame::Battery(d)),
                Err(e) => Err(e),
            },
            FrameType::System => match SystemInfo::from_bytes(p) {
                Ok(d) => Ok(TypedFrame::System(d)),
                Err(e) => Err(e),
            },
            FrameType::Event => match BoardEvent::from_bytes(p) {
                Ok(d) => Ok(TypedFrame::Event(d)),
                Err(e) => Err(e),
            },
            FrameType::AckCfgWrite => {
                if p.len() == 0 {
                    return Err(FrameError::PayloadTooShort { expected: 1, got: 0 });
                }
                Ok(TypedFrame::AckCfgWrite { success: p[0] != 0 })
            },
            FrameType::AckCfgQuery => match Config::from_bytes(p) {
                Ok(c) => Ok(TypedFrame::AckCfgQuery(c)),
                Err(e) => Err(e),
            },
            FrameType::AckCfgQueryAll => match BoardConfigSnapshot::from_bytes(p) {
                Ok(d) => Ok(TypedFrame::AckCfgQueryAll(d)),
                Err(e) => Err(e),
            },
            FrameType::Unknown(_) => Err(FrameError::PayloadDecode("Unknown frame type")),
            _ => Err(FrameError::PayloadDecode("Unexpected frame type")),
        }
    }

    /// The frame type that carries this frame.
    pub fn frame_type(&self) -> (t: FrameType)
        ensures
            t == self.spec_frame_type(),
    {
        match self {
            TypedFrame::Imu(_) => FrameType::Imu,
            TypedFrame::Power(_) => FrameType::Power,
            TypedFrame::Thermal(_) => FrameType::Thermal,
            TypedFrame::Config(_) => FrameType::Config,
            TypedFrame::Battery(_) => FrameType::Battery,
            TypedFrame::System(_) => FrameType::System,
            TypedFrame::Event(_) => FrameType::Event,
            TypedFrame::AckCfgWrite { .. } => FrameType::AckCfgWrite,
            TypedFrame::AckCfgQuery(_) => FrameType::AckCfgQuery,
            TypedFrame::AckCfgQueryAll(_) => FrameType::AckCfgQueryAll,
            TypedFrame::ConfigWrite(_) => FrameType::CfgWrite,
            TypedFrame::ConfigQuery(_) => FrameType::CfgQuery,
            TypedFrame::ConfigQueryAll => FrameType::CfgQueryAll,
        }
    }
}

impl RawFrame {
    /// Decodes the payload of this frame according to its type.
    pub fn parse_typed(&self) -> (r: Result<TypedFrame, FrameError>)
        requires
            typed_frame_decodable(self.frame_type, self.payload@),
        ensures
            match r {
                Ok(t) => spec_typed_error(self.frame_type, self.payload@) is None
                    && t.spec_decoded_from(self.frame_type, self.payload@),
                Err(e) => spec_typed_error(self.frame_type, self.payload@) == Some(e),
            },
    {
        TypedFrame::from_raw(self)
    }
}

/// A typed frame decoded from a raw frame is carried by that frame's type.
pub proof fn lemma_typed_frame_type(t: TypedFrame, ft: FrameType, p: Seq<u8>)
    requires
        t.spec_decoded_from(ft, p),
    ensures
        t.spec_frame_type() == ft,
{
}

/// Decoding succeeds exactly for the data and response types whose payload
/// decodes: downlink and unknown frame types never decode.
pub proof fn lemma_typed_frame_direction(ft: FrameType, p: Seq<u8>)
    requires
        spec_typed_error(ft, p) is None,
    ensures
        ft.spec_is_uplink() || ft.spec_is_response(),
{
}

/// The TYPE byte of every frame type is the one the protocol assigns:
/// 0x01 IMU, 0x02 power, 0x03 temperatures, 0x04 configuration, 0x05
/// battery, 0x06 system, 0x07 event, 0x80 to 0x82 the configuration write,
/// query and query-all requests, 0xC0 to 0xC2 their answers; any other byte
/// is an unknown type that carries the byte. Decoding reads these types from
/// exactly these bytes and encoding writes exactly these bytes.
pub proof fn lemma_frame_type_codes(v: u8)
    ensures
        (FrameType::spec_from_u8(v) == FrameType::Imu) <==> v == 0x01,
        (FrameType::spec_from_u8(v) == FrameType::Power) <==> v == 0x02,
        (FrameType::spec_from_u8(v) == FrameType::Thermal) <==> v == 0x03,
        (FrameType::spec_from_u8(v) == FrameType::Config) <==> v == 0x04,
        (FrameType::spec_from_u8(v) == FrameType::Battery) <==> v == 0x05,
        (FrameType::spec_from_u8(v) == FrameType::System) <==> v == 0x06,
        (FrameType::spec_from_u8(v) == FrameType::Event) <==> v == 0x07,
        (FrameType::spec_from_u8(v) == FrameType::CfgWrite) <==> v == 0x80,
        (FrameType::spec_from_u8(v) == FrameType::CfgQuery) <==> v == 0x81,
        (FrameType::spec_from_u8(v) == FrameType::CfgQueryAll) <==> v == 0x82,
        (FrameType::spec_from_u8(v) == FrameType::AckCfgWrite) <==> v == 0xC0,
        (FrameType::spec_from_u8(v) == FrameType::AckCfgQuery) <==> v == 0xC1,
        (FrameType::spec_from_u8(v) == FrameType::AckCfgQueryAll) <==> v == 0xC2,
        (FrameType::spec_from_u8(v) == FrameType::Unknown(v)) <==> !(v == 0x01 || v == 0x02 || v == 0x03 || v == 0x04 || v == 0x05 || v == 0x06 || v == 0x07 || v == 0x80 || v == 0x81 || v == 0x82 || v == 0xC0 || v == 0xC1 || v == 0xC2),
        FrameType::Imu.spec_as_u8() == 0x01,
        FrameType::Power.spec_as_u8() == 0x02,
        FrameType::Thermal.spec_as_u8() == 0x03,
        FrameType::Config.spec_as_u8() == 0x04,
        FrameType::Battery.spec_as_u8() == 0x05,
        FrameType::System.spec_as_u8() == 0x06,
        FrameType::Event.spec_as_u8() == 0x07,
        FrameType::CfgWrite.spec_as_u8() == 0x80,
        FrameType::CfgQuery.spec_as_u8() == 0x81,
        FrameType::CfgQueryAll.spec_as_u8() == 0x82,
        FrameType::AckCfgWrite.spec_as_u8() == 0xC0,
        FrameType::AckCfgQuery.spec_as_u8() == 0xC1,
        FrameType::AckCfgQueryAll.spec_as_u8() == 0xC2,
        FrameType::Unknown(v).spec_as_u8() == v,
{
}

} // verus!
