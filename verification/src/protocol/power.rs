//! Power rail measurements.

use vstd::prelude::*;
use crate::protocol::error::FrameError;
use crate::protocol::frame::{FromPayload, ToPayload};
use crate::protocol::wire::{
    i16_at, i16_le, lemma_i16_bits, lemma_u16_bits, push_i16, push_u16, read_i16, read_u16, u16_at, u16_le,
};

verus! {

/// Length of a power payload.
pub const POWER_PAYLOAD_LEN: usize = 12;

/// Power rail measurements, as integers on the wire.
#[derive(Debug, Clone, Copy, Default, PartialEq, Eq, Structural)]
pub struct PowerData {
    /// Servo supply output voltage.
    pub servo_voltage_mv: u16,
    /// Servo supply output current.
    pub servo_current_ma: u16,
    /// Charging input voltage.
    pub charge_in_voltage_mv: u16,
    /// Charging input current.
    pub charge_in_current_ma: u16,
    /// Battery voltage.
    pub bat_voltage_mv: u16,
    /// Battery current.
    pub bat_current_ma: i16,
}

impl PowerData {
    /// The payload bytes of `self`.
    pub open spec fn spec_to_bytes(self) -> Seq<u8> {
        u16_le(self.servo_voltage_mv) + u16_le(self.servo_current_ma) + u16_le(
            self.charge_in_voltage_mv,
        ) + u16_le(self.charge_in_current_ma) + u16_le(self.bat_voltage_mv) + i16_le(
            self.bat_current_ma,
        )
    }

    /// What decoding `data` gives.
    pub open spec fn spec_from_bytes(data: Seq<u8>) -> Result<PowerData, FrameError> {
        if data.len() < 12 {
            Err(FrameError::PayloadTooShort { expected: 12, got: data.len() as usize })
        } else {
            Ok(
                PowerData {
                    servo_voltage_mv: u16_at(data, 0),
                    servo_current_ma: u16_at(data, 2),
                    charge_in_voltage_mv: u16_at(data, 4),
                    charge_in_current_ma: u16_at(data, 6),
                    bat_voltage_mv: u16_at(data, 8),
                    bat_current_ma: i16_at(data, 10),
                },
            )
        }
    }

    /// Decodes a power payload; bytes after the first 12 are ignored.
    pub fn from_bytes(data: &[u8]) -> (r: Result<PowerData, FrameError>)
        ensures
            r == PowerData::spec_from_bytes(data@),
    {
        if data.len() < 12 {
            return Err(FrameError::PayloadTooShort { expected: 12, got: data.len() });
        }
        Ok(
            PowerData {
                servo_voltage_mv: read_u16(data, 0),
                servo_current_ma: read_u16(data, 2),
                charge_in_voltage_mv: read_u16(data, 4),
                charge_in_current_ma: read_u16(data, 6),
                bat_voltage_mv: read_u16(data, 8),
                bat_current_ma: read_i16(data, 10),
            },
        )
    }

    /// Encodes this power payload.
    pub fn to_bytes(&self) -> (bytes: Vec<u8>)
        ensures
            bytes@ == self.spec_to_bytes(),
    {
        let mut buf: Vec<u8> = Vec::new();
        push_u16(&mut buf, self.servo_voltage_mv);
        push_u16(&mut buf, self.servo_current_ma);
        push_u16(&mut buf, self.charge_in_voltage_mv);
        push_u16(&mut buf, self.charge_in_current_ma);
        push_u16(&mut buf, self.bat_voltage_mv);
        push_i16(&mut buf, self.bat_current_ma);
        buf
    }
}

/// Decoding the encoding of any power record gives it back.
pub proof fn lemma_power_roundtrip(p: PowerData)
    ensures
        PowerData::spec_from_bytes(p.spec_to_bytes()) == Ok::<PowerData, FrameError>(p),
{
    let b = p.spec_to_bytes();
    assert(b.len() == 12);
    lemma_i16_bits(p.bat_current_ma);
    assert(u16_at(b, 0) == p.servo_voltage_mv);
    assert(u16_at(b, 2) == p.servo_current_ma);
    assert(u16_at(b, 4) == p.charge_in_voltage_mv);
    assert(u16_at(b, 6) == p.charge_in_current_ma);
    assert(u16_at(b, 8) == p.bat_voltage_mv);
    assert(i16_at(b, 10) == p.bat_current_ma);
}

/// Encoding what was decoded from `data` gives back its first 12 bytes.
pub proof fn lemma_power_bytes_roundtrip(data: Seq<u8>)
    requires
        data.len() >= 12,
    ensures
        PowerData::spec_from_bytes(data).unwrap().spec_to_bytes() == data.take(12),
{
    let p = PowerData::spec_from_bytes(data).unwrap();
    let b = p.spec_to_bytes();
    lemma_u16_bits(u16_at(data, 10));
    assert(b =~= data.take(12));
}

impl ToPayload for PowerData {
    fn to_payload(&self) -> (bytes: Vec<u8>)
        ensures
            bytes@ == self.spec_to_bytes(),
    {
        self.to_bytes()
    }
}

impl FromPayload for PowerData {
    open spec fn decodable(payload: Seq<u8>) -> bool {
        true
    }

    fn from_payload(p: &[u8]) -> (r: Result<PowerData, FrameError>)
        ensures
            r == PowerData::spec_from_bytes(p@),
    {
        PowerData::from_bytes(p)
    }
}

} // verus!
