use servo_robot::protocol::crc::{crc16_ccitt, crc16_ccitt_table};
use servo_robot::protocol::battery_state::{
    BatteryChargeStatus, BatteryHealth, BatteryState, BatteryTechnology,
};
use servo_robot::protocol::config::{BoardConfigSnapshot, Config, ConfigType};
use servo_robot::protocol::error::FrameError;
use servo_robot::protocol::event::{
    BoardEvent, ChargePhase, ErrorFlags, EventKind, ProtectionFlags, StateChangeFlags,
};
use servo_robot::protocol::frame::{FrameType, RawFrame, TypedFrame};
use servo_robot::protocol::log::{LogLevel, LogMessage};
use servo_robot::protocol::system::{SystemInfo, Version};

fn battery(cells: usize) -> BatteryState {
    BatteryState {
        voltage_mv: 16400,
        current_ma: -1500,
        capacity_mah: 4600,
        design_capacity_mah: 5000,
        percentage: 80,
        temperature: 281,
        charge_status: BatteryChargeStatus::Discharging,
        health: BatteryHealth::Good,
        technology: BatteryTechnology::LiPo,
        present: true,
        serial_number: 12345,
        cell_voltages_mv: (0..cells).map(|k| 4100 + k as u16).collect(),
        cell_temperatures: (0..cells).map(|k| 280 - k as i16).collect(),
    }
}

#[test]
fn battery_round_trip_with_cells() {
    let b = battery(4);
    let bytes = b.to_bytes();
    assert_eq!(bytes.len(), 17 + 4 * 4);
    assert_eq!(BatteryState::from_bytes(&bytes).unwrap(), b);
}

#[test]
fn battery_without_cells_is_too_short() {
    let bytes = battery(0).to_bytes();
    assert_eq!(bytes.len(), 17);
    assert_eq!(
        BatteryState::from_bytes(&bytes).unwrap_err(),
        FrameError::PayloadTooShort { expected: 20, got: 17 }
    );
}

#[test]
fn battery_enums_by_number() {
    for v in 0u8..=255 {
        let s = BatteryChargeStatus::from_u8(v);
        if v <= 4 {
            assert_eq!(s.as_u8(), v);
        } else {
            assert_eq!(s, BatteryChargeStatus::Unknown);
        }
        assert_eq!(BatteryTechnology::from_u8(BatteryTechnology::from_u8(v).as_u8()), BatteryTechnology::from_u8(v));
        assert_eq!(BatteryHealth::from_u8(BatteryHealth::from_u8(v).as_u8()), BatteryHealth::from_u8(v));
    }
}

#[test]
fn config_items_round_trip() {
    let items = [
        Config::Reset,
        Config::Shutdown,
        Config::SwitchPowerServo(true),
        Config::SwitchPower5V(false),
        Config::SwitchCharge(true),
        Config::SwitchBatExtOut(false),
        Config::ChargeStopSoc(85),
        Config::TxLogLevel(LogLevel::Warn),
        Config::PowerServoCurrentLimitMa(6000),
        Config::PowerServoTempLimit(750),
        Config::Power5vTempLimit(650),
        Config::ChargeMaxCurrentMa(3000),
        Config::ChargeTempDerating(550),
        Config::ChargeTempLimit(600),
        Config::ChargeStopVoltageMv(16800),
    ];
    for c in items.iter() {
        assert_eq!(Config::from_bytes(&c.to_bytes()).unwrap(), *c);
        assert_eq!(Config::from_type_value(c.config_type(), c.value()), *c);
        let t = c.config_type();
        assert_eq!(ConfigType::from_u8(t.as_u8()), Some(t));
    }
    let err = Config::TxLogLevel(LogLevel::Error);
    assert_eq!(Config::from_bytes(&err.to_bytes()).unwrap(), err);
}

#[test]
fn config_snapshot_round_trip() {
    let mut c = BoardConfigSnapshot::default();
    c.charge_stop_voltage_mv = 16000;
    c.power_5v_on = false;
    c.tx_log_level = LogLevel::Debug;
    let bytes = c.to_bytes();
    assert_eq!(bytes.len(), 21);
    assert_eq!(BoardConfigSnapshot::from_bytes(&bytes).unwrap(), c);
    c.tx_log_level = LogLevel::Error;
    assert_eq!(BoardConfigSnapshot::from_bytes(&c.to_bytes()).unwrap().tx_log_level, LogLevel::Error);
}

#[test]
fn system_round_trip() {
    let mut s = SystemInfo::default();
    s.uid = 0xDEADBEEF;
    s.uptime_s = 86_400;
    s.firmware_version = Version::new(2, 3, 4);
    s.temp_mcu = -125;
    s.frames_sent_total = 7;
    let bytes = s.to_bytes();
    assert_eq!(bytes.len(), 45);
    assert_eq!(SystemInfo::from_bytes(&bytes).unwrap(), s);
    assert!(SystemInfo::from_bytes(&bytes[..40]).is_err());
}

#[test]
fn event_round_trip_and_phase_numbers() {
    let e = BoardEvent {
        charge_phase: ChargePhase::NotCharging,
        state_change_flags: StateChangeFlags::from_bits_retain(StateChangeFlags::FAN_ENABLED),
        protection_flags: ProtectionFlags::from_bits_retain(ProtectionFlags::BATTERY_LOW),
        error_flags: ErrorFlags::from_bits_retain(ErrorFlags::DMA_ERROR),
    };
    assert_eq!(BoardEvent::from_bytes(&e.to_bytes()).unwrap(), e);
    let cc = BoardEvent { charge_phase: ChargePhase::Cc, ..e };
    assert_eq!(BoardEvent::from_bytes(&cc.to_bytes()).unwrap().charge_phase, ChargePhase::PreCharge);
    let undefined = BoardEvent { error_flags: ErrorFlags::from_bits_retain(0x0100), ..e };
    assert!(BoardEvent::from_bytes(&undefined.to_bytes()).unwrap().error_flags.is_empty());
    assert!(BoardEvent::from_bytes(&[0u8; 6]).is_err());
}

#[test]
fn diff_events_example() {
    let prev = BoardEvent {
        charge_phase: ChargePhase::NotCharging,
        state_change_flags: StateChangeFlags::from_bits_retain(StateChangeFlags::FAN_ENABLED),
        protection_flags: ProtectionFlags::from_bits_retain(ProtectionFlags::SERVO_THERMAL),
        error_flags: ErrorFlags::empty(),
    };
    let cur = BoardEvent {
        charge_phase: ChargePhase::Cc,
        state_change_flags: StateChangeFlags::from_bits_retain(
            StateChangeFlags::CHARGER_CONNECTED,
        ),
        protection_flags: ProtectionFlags::from_bits_retain(
            ProtectionFlags::SERVO_THERMAL | ProtectionFlags::BATTERY_LOW,
        ),
        error_flags: ErrorFlags::from_bits_retain(ErrorFlags::USB_ERROR),
    };
    assert_eq!(
        cur.diff_events(&prev),
        vec![
            EventKind::CcCharge,
            EventKind::ChargerConnected,
            EventKind::FanOff,
            EventKind::BatteryLow,
            EventKind::UsbError,
        ]
    );
    assert!(cur.diff_events(&cur).is_empty());
    assert_eq!(cur.new_protection_events(&prev.protection_flags), vec![EventKind::BatteryLow]);
    assert_eq!(cur.new_error_events(&prev.error_flags), vec![EventKind::UsbError]);
    assert_eq!(
        cur.new_state_change_events(&prev.state_change_flags),
        vec![EventKind::ChargerConnected, EventKind::FanOff]
    );
}

#[test]
fn log_round_trip_with_error_level() {
    let m = LogMessage {
        level: LogLevel::Error,
        file_name: "power.c".into(),
        fun_name: "check".into(),
        msg: "überstrom".into(),
    };
    let back = LogMessage::from_bytes(&m.to_bytes()).unwrap();
    assert_eq!(back.level, LogLevel::Error);
    assert_eq!(back.msg, "überstrom");
}

#[test]
fn typed_frames() {
    let raw = RawFrame { frame_type: FrameType::AckCfgQuery, payload: Config::ChargeStopSoc(90).to_bytes() };
    match raw.parse_typed().unwrap() {
        TypedFrame::AckCfgQuery(c) => assert_eq!(c, Config::ChargeStopSoc(90)),
        other => panic!("unexpected {:?}", other),
    }
    assert_eq!(TypedFrame::from_raw(&raw).unwrap().frame_type(), FrameType::AckCfgQuery);
    let down = RawFrame { frame_type: FrameType::CfgQueryAll, payload: vec![] };
    assert!(down.parse_typed().is_err());
    let unknown = RawFrame { frame_type: FrameType::Unknown(0x55), payload: vec![1] };
    assert_eq!(
        unknown.parse_typed().unwrap_err(),
        FrameError::PayloadDecode("Unknown frame type")
    );
}

#[test]
fn crc_rejects_every_single_changed_byte() {
    let frame = RawFrame { frame_type: FrameType::Power, payload: vec![0x10, 0x20, 0x30, 0xAA, 0x00] };
    let e = frame.encode();
    let n = frame.payload.len();
    let mut positions = vec![1usize];
    positions.extend(4..4 + n);
    for &i in positions.iter() {
        for b in [0x00u8, 0x01, 0x55, 0xAA, 0xFF] {
            if b == e[i] {
                continue;
            }
            let mut e2 = e.clone();
            e2[i] = b;
            match RawFrame::decode(&e2) {
                Err(FrameError::CrcMismatch { expected, got }) => {
                    assert_ne!(expected, got);
                    assert_eq!(got, u16::from_le_bytes([e[4 + n], e[5 + n]]));
                }
                other => panic!("byte {} changed to {}: {:?}", i, b, other),
            }
        }
    }
}

#[test]
fn decode_skips_junk_and_keeps_tail() {
    let frame = RawFrame { frame_type: FrameType::Event, payload: vec![1, 2, 3, 4, 5, 6, 7] };
    let junk = vec![0x00, 0x7F, 0xAB];
    let mut buf = junk.clone();
    buf.extend(frame.encode());
    buf.extend([0xAA, 0x01, 0x02]);
    let (d, k) = RawFrame::decode(&buf).unwrap();
    assert_eq!(d.frame_type, FrameType::Event);
    assert_eq!(d.payload, frame.payload);
    assert_eq!(k, junk.len() + frame.payload.len() + 6);
}

#[test]
fn new_error_events_count_raised_bits() {
    let base = BoardEvent {
        charge_phase: ChargePhase::NotCharging,
        state_change_flags: StateChangeFlags::empty(),
        protection_flags: ProtectionFlags::empty(),
        error_flags: ErrorFlags::from_bits_retain(0b1011_0101),
    };
    let prev = ErrorFlags::from_bits_retain(0b0000_0101);
    let events = base.new_error_events(&prev);
    assert_eq!(events.len(), (0b1011_0101u16 & !0b0000_0101u16).count_ones() as usize);
    assert_eq!(events, vec![EventKind::I2c3Error, EventKind::Spi1Error, EventKind::DmaError]);
    let all = ErrorFlags::from_bits_retain(0xFF);
    assert!(base.new_error_events(&all).is_empty());
}

#[test]
fn crc_residue_is_zero() {
    for data in [&b""[..], &b"123456789"[..], &[0xAA, 0x01, 0x04, 0x00, 1, 2, 3, 4][..]] {
        let r = crc16_ccitt(data);
        let mut m = data.to_vec();
        m.push((r >> 8) as u8);
        m.push((r & 0xFF) as u8);
        assert_eq!(crc16_ccitt(&m), 0);
        assert_eq!(crc16_ccitt_table(&m), 0);
    }
}
