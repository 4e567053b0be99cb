//! Temperatures.

use vstd::prelude::*;
use crate::protocol::error::FrameError;
use crate::protocol::frame::{FromPayload, ToPayload};
use crate::protocol::wire::{lemma_words_le, push_words, read_u32, u32_at, words_le};

verus! {

/// Length of the payload.
pub const THERMALDATA_PAYLOAD_LEN: usize = 24;

/// Temperatures in degrees. Each value is an IEEE-754 single-precision number, held here as its bit pattern exactly as it travels on the wire; `f32::from_bits` gives the number.
#[derive(Debug, Clone, Copy, Default, PartialEq, Eq)]
pub struct ThermalData {
    /// Servo supply temperature.
    pub temp_servo_power: u32,
    /// 5V supply temperature.
    pub temp_5v_power: u32,
    /// MCU temperature.
    pub temp_mcu: u32,
    /// Charger temperature.
    pub temp_charge: u32,
    /// Battery temperature.
    pub temp_battery: u32,
    /// Reserved.
    pub reserved: u32,
}

impl ThermalData {
    /// The record's 32-bit words in payload order.
    pub open spec fn spec_words(self) -> Seq<u32> {
        seq![self.temp_servo_power, self.temp_5v_power, self.temp_mcu, self.temp_charge, self.temp_battery, self.reserved]
    }

    /// The payload bytes of `self`.
    pub open spec fn spec_to_bytes(self) -> Seq<u8> {
        words_le(self.spec_words())
    }

    /// Result of decoding a payload; bytes after the first 24 are ignored.
    pub open spec fn spec_from_bytes(data: Seq<u8>) -> Result<ThermalData, FrameError> {
        if data.len() < 24 {
            Err(FrameError::PayloadTooShort { expected: 24, got: data.len() as usize })
        } else {
            Ok(
                ThermalData {
                    temp_servo_power: u32_at(data, 0),
                    temp_5v_power: u32_at(data, 4),
                    temp_mcu: u32_at(data, 8),
                    temp_charge: u32_at(data, 12),
                    temp_battery: u32_at(data, 16),
                    reserved: u32_at(data, 20),
                },
            )
        }
    }

    /// Decodes a payload.
    pub fn from_bytes(data: &[u8]) -> (r: Result<ThermalData, FrameError>)
        ensures
            r == ThermalData::spec_from_bytes(data@),
    {
        if data.len() < 24 {
            return Err(FrameError::PayloadTooShort { expected: 24, got: data.len() });
        }
        Ok(ThermalData {
            temp_servo_power: read_u32(data, 0),
            temp_5v_power: read_u32(data, 4),
            temp_mcu: read_u32(data, 8),
            temp_charge: read_u32(data, 12),
            temp_battery: read_u32(data, 16),
            reserved: read_u32(data, 20),
        })
    }

    /// Encodes this payload.
    pub fn to_bytes(&self) -> (bytes: Vec<u8>)
        ensures
            bytes@ == self.spec_to_bytes(),
    {
        let words: [u32; 6] = [self.temp_servo_power, self.temp_5v_power, self.temp_mcu, self.temp_charge, self.temp_battery, self.reserved];
        let mut buf: Vec<u8> = Vec::new();
        assert(words@ =~= self.spec_words());
        push_words(&mut buf, &words);
        assert(buf@ =~= self.spec_to_bytes());
        buf
    }
}

/// Decoding the encoding of any record gives it back.
pub proof fn lemma_thermal_roundtrip(d: ThermalData)
    ensures
        d.spec_to_bytes().len() == 24,
        ThermalData::spec_from_bytes(d.spec_to_bytes()) == Ok::<ThermalData, FrameError>(d),
{
    let ws = d.spec_words();
    lemma_words_le(ws);
    assert forall|k: int| 0 <= k < 6 implies u32_at(d.spec_to_bytes(), 4 * k) == ws[k] by {}
    let r = ThermalData::spec_from_bytes(d.spec_to_bytes()).unwrap();
    assert(r.spec_words() =~= ws);
}

impl ToPayload for ThermalData {
    fn to_payload(&self) -> (bytes: Vec<u8>)
        ensures
            bytes@ == self.spec_to_bytes(),
    {
        self.to_bytes()
    }
}

impl FromPayload for ThermalData {
    open spec fn decodable(payload: Seq<u8>) -> bool {
        true
    }

    fn from_payload(p: &[u8]) -> (r: Result<ThermalData, FrameError>)
        ensures
            r == ThermalData::spec_from_bytes(p@),
    {
        ThermalData::from_bytes(p)
    }
}

} // verus!
