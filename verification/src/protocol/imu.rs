//! IMU samples.

use vstd::prelude::*;
use crate::protocol::error::FrameError;
use crate::protocol::frame::{FromPayload, ToPayload};
use crate::protocol::wire::{lemma_words_le, push_words, read_u32, u32_at, words_le};

verus! {

/// Length of the payload.
pub const IMUDATA_PAYLOAD_LEN: usize = 56;

/// IMU sample. Every value but the timestamp is an IEEE-754 single-precision number, held here as its bit pattern exactly as it travels on the wire; `f32::from_bits` gives the number.
#[derive(Debug, Clone, Copy, Default, PartialEq, Eq)]
pub struct ImuData {
    /// Acceleration x, y, z.
    pub accel: [u32; 3],
    /// Angular rate x, y, z.
    pub gyro: [u32; 3],
    /// Orientation quaternion w, x, y, z.
    pub quaternion: [u32; 4],
    /// Board timestamp (ms); an integer, not a float.
    pub timestamp_ms: u32,
    /// Roll angle (degrees).
    pub roll: u32,
    /// Pitch angle (degrees).
    pub pitch: u32,
    /// Yaw angle (degrees).
    pub yaw: u32,
}

impl ImuData {
    /// The record's 32-bit words in payload order.
    pub open spec fn spec_words(self) -> Seq<u32> {
        seq![self.accel[0], self.accel[1], self.accel[2], self.gyro[0], self.gyro[1], self.gyro[2], self.quaternion[0], self.quaternion[1], self.quaternion[2], self.quaternion[3], self.timestamp_ms, self.roll, self.pitch, self.yaw]
    }

    /// The payload bytes of `self`.
    pub open spec fn spec_to_bytes(self) -> Seq<u8> {
        words_le(self.spec_words())
    }

    /// Result of decoding a payload; bytes after the first 56 are ignored.
    pub open spec fn spec_from_bytes(data: Seq<u8>) -> Result<ImuData, FrameError> {
        if data.len() < 56 {
            Err(FrameError::PayloadTooShort { expected: 56, got: data.len() as usize })
        } else {
            Ok(
                ImuData {
                    accel: [u32_at(data, 0), u32_at(data, 4), u32_at(data, 8)],
                    gyro: [u32_at(data, 12), u32_at(data, 16), u32_at(data, 20)],
                    quaternion: [u32_at(data, 24), u32_at(data, 28), u32_at(data, 32), u32_at(data, 36)],
                    timestamp_ms: u32_at(data, 40),
                    roll: u32_at(data, 44),
                    pitch: u32_at(data, 48),
                    yaw: u32_at(data, 52),
                },
            )
        }
    }

    /// Decodes a payload.
    pub fn from_bytes(data: &[u8]) -> (r: Result<ImuData, FrameError>)
        ensures
            r == ImuData::spec_from_bytes(data@),
    {
        if data.len() < 56 {
            return Err(FrameError::PayloadTooShort { expected: 56, got: data.len() });
        }
        Ok(ImuData {
            accel: [read_u32(data, 0), read_u32(data, 4), read_u32(data, 8)],
            gyro: [read_u32(data, 12), read_u32(data, 16), read_u32(data, 20)],
            quaternion: [read_u32(data, 24), read_u32(data, 28), read_u32(data, 32), read_u32(data, 36)],
            timestamp_ms: read_u32(data, 40),
            roll: read_u32(data, 44),
            pitch: read_u32(data, 48),
            yaw: read_u32(data, 52),
        })
    }

    /// Encodes this payload.
    pub fn to_bytes(&self) -> (bytes: Vec<u8>)
        ensures
            bytes@ == self.spec_to_bytes(),
    {
        let words: [u32; 14] = [self.accel[0], self.accel[1], self.accel[2], self.gyro[0], self.gyro[1], self.gyro[2], self.quaternion[0], self.quaternion[1], self.quaternion[2], self.quaternion[3], self.timestamp_ms, self.roll, self.pitch, self.yaw];
        let mut buf: Vec<u8> = Vec::new();
        assert(words@ =~= self.spec_words());
        push_words(&mut buf, &words);
        assert(buf@ =~= self.spec_to_bytes());
        buf
    }
}

/// Decoding the encoding of any record gives it back.
pub proof fn lemma_imu_roundtrip(d: ImuData)
    ensures
        d.spec_to_bytes().len() == 56,
        ImuData::spec_from_bytes(d.spec_to_bytes()) == Ok::<ImuData, FrameError>(d),
{
    let ws = d.spec_words();
    lemma_words_le(ws);
    assert forall|k: int| 0 <= k < 14 implies u32_at(d.spec_to_bytes(), 4 * k) == ws[k] by {}
    let r = ImuData::spec_from_bytes(d.spec_to_bytes()).unwrap();
    assert(r.spec_words() =~= ws);
    assert(r.accel@ =~= d.accel@);
    assert(r.gyro@ =~= d.gyro@);
    assert(r.quaternion@ =~= d.quaternion@);
    assert(r.accel =~= d.accel);
    assert(r.gyro =~= d.gyro);
    assert(r.quaternion =~= d.quaternion);
}

impl ToPayload for ImuData {
    fn to_payload(&self) -> (bytes: Vec<u8>)
        ensures
            bytes@ == self.spec_to_bytes(),
    {
        self.to_bytes()
    }
}

impl FromPayload for ImuData {
    open spec fn decodable(payload: Seq<u8>) -> bool {
        true
    }

    fn from_payload(p: &[u8]) -> (r: Result<ImuData, FrameError>)
        ensures
            r == ImuData::spec_from_bytes(p@),
    {
        ImuData::from_bytes(p)
    }
}

} // verus!
