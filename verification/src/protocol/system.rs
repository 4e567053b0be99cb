//! System information reported once a second, temperatures included.

use vstd::prelude::*;
use crate::protocol::error::FrameError;
use crate::protocol::text::{append_decimal, spec_decimal};
use crate::protocol::frame::{FromPayload, ToPayload};
use crate::protocol::wire::{
    i16_at, i16_le, lemma_at_concat_left, lemma_at_concat_right, lemma_i16_bits, push_i16, push_u16, push_u32, read_i16, read_u16, read_u32,
    u16_at, u16_le, u32_at, u32_le,
};

verus! {

/// Firmware version.
#[derive(Debug, Clone, Copy, PartialEq, Eq, Structural)]
pub struct Version {
    pub major: u8,
    pub minor: u8,
    pub patch: u8,
}

impl Version {
    pub fn new(major: u8, minor: u8, patch: u8) -> (v: Version)
        ensures
            v == (Version { major, minor, patch }),
    {
        Version { major, minor, patch }
    }

    /// `major.minor.patch` in decimal.
    pub open spec fn spec_display(self) -> Seq<char> {
        spec_decimal(self.major as nat) + "."@ + spec_decimal(self.minor as nat) + "."@
            + spec_decimal(self.patch as nat)
    }

    /// The text shown for this version (see `spec_display`).
    pub fn to_string(&self) -> (s: String)
        ensures
            s@ == self.spec_display(),
    {
        let mut s = String::new();
        append_decimal(&mut s, self.major as u64);
        s.append(".");
        append_decimal(&mut s, self.minor as u64);
        s.append(".");
        append_decimal(&mut s, self.patch as u64);
        proof {
            assert(s@ =~= self.spec_display());
        }
        s
    }
}

/// Length of the system payload as encoded.
pub const SYSTEM_PAYLOAD_LEN: usize = 45;

/// Shortest system payload that decoding accepts.
pub const SYSTEM_MIN_LEN: usize = 41;

/// System information.
#[derive(Debug, Clone, Copy, PartialEq, Eq, Structural)]
pub struct SystemInfo {
    /// STM32 device ID.
    pub device_id: u16,
    /// STM32 unique ID.
    pub uid: u32,
    /// IMU chip ID.
    pub imu_id: u8,
    /// Running time in seconds.
    pub uptime_s: u32,
    /// CPU usage.
    pub cpu_usage_percent: u8,
    pub free_heap_kb: u16,
    /// Smallest free stack space since start.
    pub stack_watermark_min_kb: u16,
    pub i2c_error_count: u16,
    pub spi_error_count: u16,
    pub uart_error_count: u16,
    pub usb_error_count: u16,
    /// Total frames sent.
    pub frames_sent_total: u32,
    /// Voltage negotiated with the USB-PD source.
    pub pd_request_voltage_mv: u16,
    /// Current negotiated with the USB-PD source.
    pub pd_request_current_ma: u16,
    pub firmware_version: Version,
    /// Servo supply temperature in tenths of a degree.
    pub temp_servo_power: i16,
    /// 5V supply temperature in tenths of a degree.
    pub temp_5v_power: i16,
    /// MCU temperature in tenths of a degree.
    pub temp_mcu: i16,
    /// Charger temperature in tenths of a degree.
    pub temp_charge: i16,
    /// Battery temperature in tenths of a degree.
    pub temp_battery: i16,
}

impl Default for SystemInfo {
    fn default() -> (s: SystemInfo)
        ensures
            s == SystemInfo::spec_default(),
    {
        SystemInfo {
            device_id: 0,
            uid: 0,
            imu_id: 0,
            uptime_s: 0,
            cpu_usage_percent: 0,
            free_heap_kb: 0,
            stack_watermark_min_kb: 0,
            i2c_error_count: 0,
            spi_error_count: 0,
            uart_error_count: 0,
            usb_error_count: 0,
            frames_sent_total: 0,
            pd_request_voltage_mv: 0,
            pd_request_current_ma: 0,
            firmware_version: Version::new(0, 1, 0),
            temp_servo_power: 0,
            temp_5v_power: 0,
            temp_mcu: 0,
            temp_charge: 0,
            temp_battery: 0,
        }
    }
}

/// Decoding reads 45 bytes but rejects only payloads shorter than 41,
/// so a payload of 41 to 44 bytes cannot be decoded.
pub open spec fn system_payload_decodable(len: nat) -> bool {
    len < 41 || len >= 45
}

impl SystemInfo {
    /// All counters zero, firmware version 0.1.0.
    pub open spec fn spec_default() -> SystemInfo {
        SystemInfo {
            device_id: 0,
            uid: 0,
            imu_id: 0,
            uptime_s: 0,
            cpu_usage_percent: 0,
            free_heap_kb: 0,
            stack_watermark_min_kb: 0,
            i2c_error_count: 0,
            spi_error_count: 0,
            uart_error_count: 0,
            usb_error_count: 0,
            frames_sent_total: 0,
            pd_request_voltage_mv: 0,
            pd_request_current_ma: 0,
            firmware_version: Version { major: 0, minor: 1, patch: 0 },
            temp_servo_power: 0,
            temp_5v_power: 0,
            temp_mcu: 0,
            temp_charge: 0,
            temp_battery: 0,
        }
    }

    /// The first 24 payload bytes: identity, uptime, load and error counters.
    pub open spec fn spec_head_bytes(self) -> Seq<u8> {
        u16_le(self.device_id) + u32_le(self.uid) + seq![self.imu_id] + u32_le(self.uptime_s) + seq![self.cpu_usage_percent] + u16_le(self.free_heap_kb) + u16_le(self.stack_watermark_min_kb) + u16_le(self.i2c_error_count) + u16_le(self.spi_error_count) + u16_le(self.uart_error_count) + u16_le(self.usb_error_count)
    }

    /// The last 21 payload bytes: frame count, USB-PD request, firmware
    /// version and temperatures.
    pub open spec fn spec_tail_bytes(self) -> Seq<u8> {
        u32_le(self.frames_sent_total) + u16_le(self.pd_request_voltage_mv) + u16_le(self.pd_request_current_ma) + seq![self.firmware_version.major, self.firmware_version.minor, self.firmware_version.patch] + i16_le(self.temp_servo_power) + i16_le(self.temp_5v_power) + i16_le(self.temp_mcu) + i16_le(self.temp_charge) + i16_le(self.temp_battery)
    }

    /// The payload bytes of `self`.
    pub open spec fn spec_to_bytes(self) -> Seq<u8> {
        self.spec_head_bytes() + self.spec_tail_bytes()
    }

    /// Result of decoding a system payload.
    pub open spec fn spec_from_bytes(data: Seq<u8>) -> Result<SystemInfo, FrameError> {
        if data.len() < 41 {
            Err(FrameError::PayloadTooShort { expected: 41, got: data.len() as usize })
        } else {
            Ok(
                SystemInfo {
                    device_id: u16_at(data, 0),
                    uid: u32_at(data, 2),
                    imu_id: data[6],
                    uptime_s: u32_at(data, 7),
                    cpu_usage_percent: data[11],
                    free_heap_kb: u16_at(data, 12),
                    stack_watermark_min_kb: u16_at(data, 14),
                    i2c_error_count: u16_at(data, 16),
                    spi_error_count: u16_at(data, 18),
                    uart_error_count: u16_at(data, 20),
                    usb_error_count: u16_at(data, 22),
                    frames_sent_total: u32_at(data, 24),
                    pd_request_voltage_mv: u16_at(data, 28),
                    pd_request_current_ma: u16_at(data, 30),
                    firmware_version: Version { major: data[32], minor: data[33], patch: data[34] },
                    temp_servo_power: i16_at(data, 35),
                    temp_5v_power: i16_at(data, 37),
                    temp_mcu: i16_at(data, 39),
                    temp_charge: i16_at(data, 41),
                    temp_battery: i16_at(data, 43),
                },
            )
        }
    }

    /// Decodes a system payload. A payload of 41 to 44 bytes passes the
    /// length check but is too short for the fields read, so it is excluded.
    pub fn from_bytes(data: &[u8]) -> (r: Result<SystemInfo, FrameError>)
        requires
            system_payload_decodable(data@.len()),
        ensures
            r == SystemInfo::spec_from_bytes(data@),
    {
        if data.len() < SYSTEM_MIN_LEN {
            return Err(FrameError::PayloadTooShort { expected: 41, got: data.len() });
        }
        Ok(SystemInfo {
            device_id: read_u16(data, 0),
            uid: read_u32(data, 2),
            imu_id: data[6],
            uptime_s: read_u32(data, 7),
            cpu_usage_percent: data[11],
            free_heap_kb: read_u16(data, 12),
            stack_watermark_min_kb: read_u16(data, 14),
            i2c_error_count: read_u16(data, 16),
            spi_error_count: read_u16(data, 18),
            uart_error_count: read_u16(data, 20),
            usb_error_count: read_u16(data, 22),
            frames_sent_total: read_u32(data, 24),
            pd_request_voltage_mv: read_u16(data, 28),
            pd_request_current_ma: read_u16(data, 30),
            firmware_version: Version::new(data[32], data[33], data[34]),
            temp_servo_power: read_i16(data, 35),
            temp_5v_power: read_i16(data, 37),
            temp_mcu: read_i16(data, 39),
            temp_charge: read_i16(data, 41),
            temp_battery: read_i16(data, 43),
        })
    }

    /// Encodes this system payload.
    pub fn to_bytes(&self) -> (bytes: Vec<u8>)
        ensures
            bytes@ == self.spec_to_bytes(),
    {
        let mut buf: Vec<u8> = Vec::new();
        push_u16(&mut buf, self.device_id);
        push_u32(&mut buf, self.uid);
        buf.push(self.imu_id);
        push_u32(&mut buf, self.uptime_s);
        buf.push(self.cpu_usage_percent);
        push_u16(&mut buf, self.free_heap_kb);
        push_u16(&mut buf, self.stack_watermark_min_kb);
        push_u16(&mut buf, self.i2c_error_count);
        push_u16(&mut buf, self.spi_error_count);
        push_u16(&mut buf, self.uart_error_count);
        push_u16(&mut buf, self.usb_error_count);
        push_u32(&mut buf, self.frames_sent_total);
        push_u16(&mut buf, self.pd_request_voltage_mv);
        push_u16(&mut buf, self.pd_request_current_ma);
        buf.push(self.firmware_version.major);
        buf.push(self.firmware_version.minor);
        buf.push(self.firmware_version.patch);
        push_i16(&mut buf, self.temp_servo_power);
        push_i16(&mut buf, self.temp_5v_power);
        push_i16(&mut buf, self.temp_mcu);
        push_i16(&mut buf, self.temp_charge);
        push_i16(&mut buf, self.temp_battery);
        proof {
            assert(buf@ =~= self.spec_to_bytes());
        }
        buf
    }
}

/// Where each field of the first part of the encoding lies.
#[verifier::spinoff_prover]
#[verifier::rlimit(60)]
proof fn lemma_system_head(s: SystemInfo)
    ensures
        ({
            let h = s.spec_head_bytes();
            &&& h.len() == 24
            &&& u16_at(h, 0) == s.device_id
            &&& u32_at(h, 2) == s.uid
            &&& h[6] == s.imu_id
            &&& u32_at(h, 7) == s.uptime_s
            &&& h[11] == s.cpu_usage_percent
            &&& u16_at(h, 12) == s.free_heap_kb
            &&& u16_at(h, 14) == s.stack_watermark_min_kb
            &&& u16_at(h, 16) == s.i2c_error_count
            &&& u16_at(h, 18) == s.spi_error_count
            &&& u16_at(h, 20) == s.uart_error_count
            &&& u16_at(h, 22) == s.usb_error_count
        }),
{
}

/// Where each field of the second part of the encoding lies.
#[verifier::spinoff_prover]
#[verifier::rlimit(60)]
proof fn lemma_system_tail(s: SystemInfo)
    ensures
        ({
            let t = s.spec_tail_bytes();
            &&& t.len() == 21
            &&& u32_at(t, 0) == s.frames_sent_total
            &&& u16_at(t, 4) == s.pd_request_voltage_mv
            &&& u16_at(t, 6) == s.pd_request_current_ma
            &&& t[8] == s.firmware_version.major
            &&& t[9] == s.firmware_version.minor
            &&& t[10] == s.firmware_version.patch
            &&& i16_at(t, 11) == s.temp_servo_power
            &&& i16_at(t, 13) == s.temp_5v_power
            &&& i16_at(t, 15) == s.temp_mcu
            &&& i16_at(t, 17) == s.temp_charge
            &&& i16_at(t, 19) == s.temp_battery
        }),
{
    lemma_i16_bits(s.temp_servo_power);
    lemma_i16_bits(s.temp_5v_power);
    lemma_i16_bits(s.temp_mcu);
    lemma_i16_bits(s.temp_charge);
    lemma_i16_bits(s.temp_battery);
}

/// Decoding the encoding of any system record gives it back.
pub proof fn lemma_system_roundtrip(s: SystemInfo)
    ensures
        s.spec_to_bytes().len() == 45,
        SystemInfo::spec_from_bytes(s.spec_to_bytes()) == Ok::<SystemInfo, FrameError>(s),
{
    let h = s.spec_head_bytes();
    let t = s.spec_tail_bytes();
    lemma_system_head(s);
    lemma_system_tail(s);
    lemma_at_concat_left(h, t, 0);
    lemma_at_concat_left(h, t, 2);
    lemma_at_concat_left(h, t, 6);
    lemma_at_concat_left(h, t, 7);
    lemma_at_concat_left(h, t, 11);
    lemma_at_concat_left(h, t, 12);
    lemma_at_concat_left(h, t, 14);
    lemma_at_concat_left(h, t, 16);
    lemma_at_concat_left(h, t, 18);
    lemma_at_concat_left(h, t, 20);
    lemma_at_concat_left(h, t, 22);
    lemma_at_concat_right(h, t, 0);
    lemma_at_concat_right(h, t, 4);
    lemma_at_concat_right(h, t, 6);
    lemma_at_concat_right(h, t, 8);
    lemma_at_concat_right(h, t, 9);
    lemma_at_concat_right(h, t, 10);
    lemma_at_concat_right(h, t, 11);
    lemma_at_concat_right(h, t, 13);
    lemma_at_concat_right(h, t, 15);
    lemma_at_concat_right(h, t, 17);
    lemma_at_concat_right(h, t, 19);
}

impl ToPayload for SystemInfo {
    fn to_payload(&self) -> (bytes: Vec<u8>)
        ensures
            bytes@ == self.spec_to_bytes(),
    {
        self.to_bytes()
    }
}

impl FromPayload for SystemInfo {
    open spec fn decodable(payload: Seq<u8>) -> bool {
        system_payload_decodable(payload.len())
    }

    fn from_payload(p: &[u8]) -> (r: Result<SystemInfo, FrameError>)
        ensures
            r == SystemInfo::spec_from_bytes(p@),
    {
        SystemInfo::from_bytes(p)
    }
}

} // verus!
