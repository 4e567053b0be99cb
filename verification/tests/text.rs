use servo_robot::bridge::services::{invalid_type_text, log_stamp, query_value, switch_config};
use servo_robot::driver::dispatch::log_clock;
use servo_robot::protocol::config::Config;
use servo_robot::protocol::error::FrameError;
use servo_robot::protocol::event::{
    BoardEvent, ChargePhase, ErrorFlags, ProtectionFlags, StateChangeFlags,
};
use servo_robot::protocol::frame::FrameType;
use servo_robot::protocol::system::Version;

#[test]
fn frame_error_texts() {
    assert_eq!(FrameError::NoHeader.to_string(), "No frame header found");
    assert_eq!(
        FrameError::Incomplete { needed: 12 }.to_string(),
        "Incomplete frame, need 12 more bytes"
    );
    assert_eq!(
        FrameError::CrcMismatch { expected: 0x29B1, got: 0x00a0 }.to_string(),
        "CRC mismatch: expected 0x29b1, got 0x00a0"
    );
    assert_eq!(
        FrameError::PayloadDecode("bad level").to_string(),
        "Payload decode error: bad level"
    );
    assert_eq!(
        FrameError::PayloadTooShort { expected: 56, got: 0 }.to_string(),
        "Payload too short: expected 56 bytes, got 0"
    );
}

#[test]
fn frame_type_texts() {
    assert_eq!(FrameType::Imu.to_string(), "IMU");
    assert_eq!(FrameType::AckCfgQueryAll.to_string(), "AckCfgQueryAll");
    assert_eq!(FrameType::Unknown(0x0b).to_string(), "Unknown(0x0b)");
    assert_eq!(FrameType::Unknown(0xFF).to_string(), "Unknown(0xff)");
}

#[test]
fn version_and_event_texts() {
    assert_eq!(Version::new(1, 20, 255).to_string(), "1.20.255");
    assert_eq!(Version::new(0, 1, 0).to_string(), "0.1.0");
    let e = BoardEvent {
        charge_phase: ChargePhase::Cv,
        state_change_flags: StateChangeFlags::from_bits_retain(0x001B),
        protection_flags: ProtectionFlags::empty(),
        error_flags: ErrorFlags::from_bits_retain(0x00A0),
    };
    assert_eq!(e.to_string(), "phase=3 state=0x001B prot=0x0000 err=0x00A0");
}

#[test]
fn log_clock_splits_time_of_day() {
    assert_eq!(log_clock(0), (0, 0, 0, 0));
    assert_eq!(log_clock(86_399_999), (23, 59, 59, 999));
    assert_eq!(log_clock(86_400_000 + 3_723_004), (1, 2, 3, 4));
}

#[test]
fn bridge_requests() {
    assert_eq!(switch_config(0x10, true), Some(Config::SwitchPowerServo(true)));
    assert_eq!(switch_config(0x13, false), Some(Config::SwitchBatExtOut(false)));
    assert_eq!(switch_config(0x14, true), None);
    assert_eq!(invalid_type_text("switch", 0x1f), "Invalid switch type: 0x1F");
    assert_eq!(invalid_type_text("config", 0x05), "Invalid config type: 0x05");
    assert_eq!(log_stamp(1_700_000_123_456), (1_700_000_123, 456_000_000));
    assert_eq!(log_stamp(3_000_000_000_000).0, (3_000_000_000u64 as u32) as i32);
    assert_eq!(query_value(&Config::ChargeStopVoltageMv(40000)), 40000u16 as i16);
    assert_eq!(query_value(&Config::SwitchCharge(true)), 1);
}
