use servo_robot::protocol::crc::{crc16_ccitt, crc16_ccitt_table};
use servo_robot::protocol::error::FrameError;
use servo_robot::protocol::frame::{FrameType, RawFrame};
use servo_robot::protocol::imu::ImuData;
use servo_robot::protocol::log::{LogLevel, LogMessage};
use servo_robot::protocol::power::PowerData;
use servo_robot::protocol::thermal::ThermalData;

#[test]
fn test_crc_known_values() {
    assert_eq!(crc16_ccitt(&[]), 0xFFFF);
    assert_eq!(crc16_ccitt(b"123456789"), 0x29B1);
    assert_eq!(crc16_ccitt_table(b"123456789"), 0x29B1);
}

#[test]
fn test_frame_type_from_u8() {
    assert_eq!(FrameType::from_u8(0x01), FrameType::Imu);
    assert_eq!(FrameType::from_u8(0x80), FrameType::CfgWrite);
    assert_eq!(FrameType::from_u8(0xC0), FrameType::AckCfgWrite);
    assert_eq!(FrameType::from_u8(0xFF), FrameType::Unknown(0xFF));
}

#[test]
fn test_raw_frame_encode_decode() {
    let frame = RawFrame {
        frame_type: FrameType::Imu,
        payload: vec![0x01, 0x02, 0x03, 0x04],
    };
    let encoded = frame.encode();
    let (decoded, consumed) = RawFrame::decode(&encoded).unwrap();
    assert_eq!(consumed, encoded.len());
    assert_eq!(decoded.frame_type, frame.frame_type);
    assert_eq!(decoded.payload, frame.payload);
}

#[test]
fn test_log_encode_decode_roundtrip() {
    let log = LogMessage {
        level: LogLevel::Warn,
        file_name: "main.c".into(),
        fun_name: "app_init".into(),
        msg: "sensor timeout".into(),
    };
    let bytes = log.to_bytes();
    let decoded = LogMessage::from_bytes(&bytes).unwrap();
    assert_eq!(decoded.level, LogLevel::Warn);
    assert_eq!(decoded.file_name, "main.c");
    assert_eq!(decoded.fun_name, "app_init");
    assert_eq!(decoded.msg, "sensor timeout");
}

#[test]
fn test_log_display() {
    let log = LogMessage {
        level: LogLevel::Error,
        file_name: "imu.c".into(),
        fun_name: "read_gyro".into(),
        msg: "bus busy".into(),
    };
    assert_eq!(log.to_string(), "[ERROR] imu.c::read_gyro: bus busy");
}

#[test]
fn test_log_empty_payload() {
    assert!(LogMessage::from_bytes(&[]).is_err());
}

#[test]
fn test_log_minimal() {
    let bytes = vec![0x02, 0, 0];
    let log = LogMessage::from_bytes(&bytes).unwrap();
    assert_eq!(log.level, LogLevel::Info);
    assert_eq!(log.file_name, "");
    assert_eq!(log.fun_name, "");
    assert_eq!(log.msg, "");
}

#[test]
fn test_imu_encode_decode() {
    let data = ImuData {
        accel: [1.0f32.to_bits(), 2.0f32.to_bits(), 3.0f32.to_bits()],
        gyro: [0.1f32.to_bits(), 0.2f32.to_bits(), 0.3f32.to_bits()],
        quaternion: [1.0f32.to_bits(), 0.0f32.to_bits(), 0.0f32.to_bits(), 0.0f32.to_bits()],
        timestamp_ms: 12345,
        roll: 45.0f32.to_bits(),
        pitch: 30.0f32.to_bits(),
        yaw: 90.0f32.to_bits(),
    };
    let bytes = data.to_bytes();
    assert_eq!(bytes.len(), 56);
    let decoded = ImuData::from_bytes(&bytes).unwrap();
    assert_eq!(decoded.accel, data.accel);
    assert_eq!(decoded.timestamp_ms, 12345);
}

#[test]
fn crc_table_agrees_with_bitwise() {
    let samples: [&[u8]; 4] = [b"", b"\x00", b"\xAA\x01\x04\x00", b"servo robot board"];
    for s in samples.iter() {
        assert_eq!(crc16_ccitt(s), crc16_ccitt_table(s));
    }
    assert_eq!(crc16_ccitt(b"A"), 0xB915);
}

#[test]
fn frame_type_bytes_round_trip() {
    for v in 0u8..=255 {
        let t = FrameType::from_u8(v);
        assert_eq!(t.as_u8(), v);
    }
    assert!(FrameType::Imu.is_uplink());
    assert!(FrameType::CfgWrite.is_downlink());
    assert!(FrameType::AckCfgQuery.is_response());
    assert!(!FrameType::Unknown(0x55).is_uplink());
    assert_eq!(FrameType::Battery.name(), "Battery");
}

#[test]
fn frame_encoding_is_exact() {
    let frame = RawFrame { frame_type: FrameType::CfgQueryAll, payload: vec![] };
    let bytes = frame.encode();
    let crc = crc16_ccitt(&[0x82, 0x00, 0x00]);
    assert_eq!(bytes, vec![0xAA, 0x82, 0x00, 0x00, (crc & 0xFF) as u8, (crc >> 8) as u8]);
}

#[test]
fn decode_skips_garbage_before_header() {
    let frame = RawFrame { frame_type: FrameType::Power, payload: vec![1, 2, 3] };
    let mut bytes = vec![0x00, 0x13, 0x37];
    bytes.extend(frame.encode());
    bytes.extend([0xAA, 0x01]);
    let (decoded, consumed) = RawFrame::decode(&bytes).unwrap();
    assert_eq!(decoded.frame_type, FrameType::Power);
    assert_eq!(decoded.payload, vec![1, 2, 3]);
    assert_eq!(consumed, 3 + 9);
}

#[test]
fn decode_errors() {
    assert_eq!(RawFrame::decode(&[0x01, 0x02]).unwrap_err(), FrameError::NoHeader);
    assert_eq!(
        RawFrame::decode(&[0xAA, 0x01]).unwrap_err(),
        FrameError::Incomplete { needed: 2 }
    );
    assert_eq!(
        RawFrame::decode(&[0xAA, 0x01, 0x02, 0x00, 0x05]).unwrap_err(),
        FrameError::Incomplete { needed: 3 }
    );
    let mut bytes = RawFrame { frame_type: FrameType::Imu, payload: vec![9] }.encode();
    let n = bytes.len();
    bytes[n - 1] ^= 0xFF;
    match RawFrame::decode(&bytes).unwrap_err() {
        FrameError::CrcMismatch { expected, got } => assert_ne!(expected, got),
        other => panic!("unexpected {:?}", other),
    }
}

#[test]
fn frame_length_wraps_at_sixteen_bits() {
    let frame = RawFrame { frame_type: FrameType::Imu, payload: vec![0u8; 65536 + 2] };
    let bytes = frame.encode();
    assert_eq!(bytes[2], 2);
    assert_eq!(bytes[3], 0);
}

#[test]
fn power_round_trip() {
    let p = PowerData {
        servo_voltage_mv: 8600,
        servo_current_ma: 12500,
        charge_in_voltage_mv: 20000,
        charge_in_current_ma: 3000,
        bat_voltage_mv: 16800,
        bat_current_ma: -1000,
    };
    let bytes = p.to_bytes();
    assert_eq!(bytes.len(), 12);
    assert_eq!(&bytes[0..2], &[0x98, 0x21]);
    let q = PowerData::from_bytes(&bytes).unwrap();
    assert_eq!(q, p);
    assert_eq!(
        PowerData::from_bytes(&bytes[..11]).unwrap_err(),
        FrameError::PayloadTooShort { expected: 12, got: 11 }
    );
}

#[test]
fn thermal_round_trip() {
    let t = ThermalData {
        temp_servo_power: 40.5f32.to_bits(),
        temp_5v_power: 35.0f32.to_bits(),
        temp_mcu: 30.25f32.to_bits(),
        temp_charge: 45.0f32.to_bits(),
        temp_battery: 27.0f32.to_bits(),
        reserved: 0,
    };
    let bytes = t.to_bytes();
    assert_eq!(bytes.len(), 24);
    let u = ThermalData::from_bytes(&bytes).unwrap();
    assert_eq!(f32::from_bits(u.temp_mcu), 30.25);
    assert_eq!(u.temp_charge, t.temp_charge);
    assert!(ThermalData::from_bytes(&bytes[..23]).is_err());
}

#[test]
fn log_level_numbers() {
    assert_eq!(LogLevel::from_u8(0), LogLevel::OFF);
    assert_eq!(LogLevel::from_u8(1), LogLevel::Debug);
    assert_eq!(LogLevel::from_u8(3), LogLevel::Warn);
    assert_eq!(LogLevel::from_u8(4), LogLevel::Error);
    assert_eq!(LogLevel::from_u8(5), LogLevel::OFF);
    assert_eq!(LogLevel::from_u8(255), LogLevel::OFF);
    assert_eq!(LogLevel::Error.as_u8(), 4);
    assert_eq!(LogLevel::Warn.to_string(), "WARN");
    for l in [LogLevel::OFF, LogLevel::Debug, LogLevel::Info, LogLevel::Warn, LogLevel::Error] {
        assert_eq!(LogLevel::from_u8(l.as_u8()), l);
    }
}

#[test]
fn log_invalid_utf8_is_rejected() {
    assert!(LogMessage::from_bytes(&[0x02, 0xFF, 0x00, 0x00]).is_err());
}
