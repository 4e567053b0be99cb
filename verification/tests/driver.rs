use servo_robot::driver::command::{Command, CommandType, ResetReason, RgbLed};
use servo_robot::driver::dispatch::DriverEvent;
use servo_robot::driver::driver_common::{
    decode_and_dispatch, encode_cfg_query, encode_cfg_query_all, encode_cfg_write,
    is_frame_data_decodable,
};
use servo_robot::driver::error::DriverError;
use servo_robot::driver::frame_codec::FrameCodec;
use servo_robot::driver::frame_reader::FrameReader;
use servo_robot::driver::mock_core::{DataStream, MockCore};
use servo_robot::driver::mock_data::{EventSimulator, SystemSimulator};
use servo_robot::driver::read_loop::{
    begin_reconnect, finish_reconnect, is_timeout_message, read_step, ReadAction, ReadOutcome,
};
use servo_robot::driver::state::StateInner;
use servo_robot::protocol::config::{BoardConfigSnapshot, Config, ConfigType};
use servo_robot::protocol::event::{BoardEvent, ChargePhase, ErrorFlags, ProtectionFlags, StateChangeFlags};
use servo_robot::protocol::frame::{FrameType, RawFrame};
use servo_robot::protocol::log::LogLevel;
use servo_robot::protocol::power::PowerData;
use servo_robot::protocol::system::SystemInfo;

fn power_frame() -> (PowerData, Vec<u8>) {
    let p = PowerData {
        servo_voltage_mv: 8600,
        servo_current_ma: 1200,
        charge_in_voltage_mv: 0,
        charge_in_current_ma: 0,
        bat_voltage_mv: 16000,
        bat_current_ma: -500,
    };
    let bytes = RawFrame { frame_type: FrameType::Power, payload: p.to_bytes() }.encode();
    (p, bytes)
}

#[test]
fn cfg_requests_are_encoded_frames() {
    let q = encode_cfg_query(ConfigType::ChargeStopSoc);
    let (raw, _) = RawFrame::decode(&q).unwrap();
    assert_eq!(raw.frame_type, FrameType::CfgQuery);
    assert_eq!(raw.payload, vec![0x20]);

    let all = encode_cfg_query_all();
    let (raw, _) = RawFrame::decode(&all).unwrap();
    assert_eq!(raw.frame_type, FrameType::CfgQueryAll);
    assert!(raw.payload.is_empty());

    let w = encode_cfg_write(&Config::ChargeStopSoc(80));
    let (raw, _) = RawFrame::decode(&w).unwrap();
    assert_eq!(raw.frame_type, FrameType::CfgWrite);
    assert_eq!(Config::from_bytes(&raw.payload).unwrap(), Config::ChargeStopSoc(80));
}

#[test]
fn dispatch_stores_data_and_counts() {
    let mut state = StateInner::new();
    let (p, bytes) = power_frame();
    let ev = decode_and_dispatch(&bytes, &mut state);
    match ev {
        Some(DriverEvent::PowerData(d)) => assert_eq!(d, p),
        other => panic!("unexpected {:?}", other),
    }
    assert_eq!(state.power, Some(p));
    assert_eq!(state.frames_parsed, 1);
    assert_eq!(state.frame_count, 1);
    assert_eq!(state.frames_dropped, 0);
}

#[test]
fn dispatch_drops_bad_frames() {
    let mut state = StateInner::new();
    assert!(decode_and_dispatch(&[0x00, 0x01], &mut state).is_none());
    assert_eq!(state.frames_dropped, 1);
    let short = RawFrame { frame_type: FrameType::Power, payload: vec![1, 2] }.encode();
    assert!(decode_and_dispatch(&short, &mut state).is_none());
    assert_eq!(state.frames_dropped, 2);
    assert_eq!(state.frames_parsed, 0);
    assert!(state.power.is_none());
}

#[test]
fn dispatch_acknowledgements() {
    let mut state = StateInner::new();
    let ack = RawFrame { frame_type: FrameType::AckCfgWrite, payload: vec![1] }.encode();
    match decode_and_dispatch(&ack, &mut state) {
        Some(DriverEvent::AckCfgWrite { success }) => assert!(success),
        other => panic!("unexpected {:?}", other),
    }
    assert_eq!(state.frames_parsed, 1);
    assert_eq!(state.frame_count, 0);
    let ev = DriverEvent::AckCfgWrite { success: true };
    assert!(ev.is_ack());
    assert!(!DriverEvent::Error(DriverError::Timeout).is_ack());
}

#[test]
fn system_frames_of_unreadable_length_are_flagged() {
    let bad = RawFrame { frame_type: FrameType::System, payload: vec![0u8; 42] }.encode();
    assert!(!is_frame_data_decodable(&bad));
    let good = RawFrame { frame_type: FrameType::System, payload: SystemInfo::default().to_bytes() }.encode();
    assert!(is_frame_data_decodable(&good));
    let other = RawFrame { frame_type: FrameType::Power, payload: vec![0u8; 42] }.encode();
    assert!(is_frame_data_decodable(&other));
}

#[test]
fn timeout_messages() {
    assert!(is_timeout_message("timed out"));
    assert!(is_timeout_message("Operation timed out"));
    assert!(!is_timeout_message("timed ou"));
    assert!(!is_timeout_message("broken pipe"));
    assert!(!is_timeout_message(""));
}

#[test]
fn read_step_frame_resets_retries_and_delivers() {
    let mut state = StateInner::new();
    let mut retries = 2u32;
    let (p, bytes) = power_frame();
    match read_step(ReadOutcome::Frame(bytes), true, true, &mut state, &mut retries) {
        ReadAction::Deliver { event: DriverEvent::PowerData(d), ack } => {
            assert_eq!(d, p);
            assert!(!ack);
        }
        _ => panic!("expected delivery"),
    }
    assert_eq!(retries, 0);
    let ack = RawFrame { frame_type: FrameType::AckCfgWrite, payload: vec![0] }.encode();
    match read_step(ReadOutcome::Frame(ack), true, true, &mut state, &mut retries) {
        ReadAction::Deliver { event: DriverEvent::AckCfgWrite { success }, ack } => {
            assert!(!success);
            assert!(ack);
        }
        _ => panic!("expected delivery"),
    }
    match read_step(ReadOutcome::Frame(vec![1, 2, 3]), true, true, &mut state, &mut retries) {
        ReadAction::Continue => {}
        _ => panic!("expected continue"),
    }
    assert_eq!(state.frames_dropped, 1);
}

#[test]
fn read_step_connection_lost() {
    let mut state = StateInner::new();
    state.set_connected(true);
    let mut retries = 1u32;
    match read_step(ReadOutcome::Failed(DriverError::TransportClosed), true, true, &mut state, &mut retries) {
        ReadAction::Reconnect { drop_transport } => assert!(drop_transport),
        _ => panic!("expected reconnect"),
    }
    assert!(!state.connected);
    assert_eq!(retries, 1);
    match read_step(ReadOutcome::Failed(DriverError::TransportClosed), false, true, &mut state, &mut retries) {
        ReadAction::Stop { drop_transport } => assert!(drop_transport),
        _ => panic!("expected stop"),
    }
    assert!(state.last_error.is_none());
}

#[test]
fn read_step_missing_transport() {
    let mut state = StateInner::new();
    let mut retries = 0u32;
    match read_step(ReadOutcome::NoTransport, true, false, &mut state, &mut retries) {
        ReadAction::Reconnect { drop_transport } => assert!(!drop_transport),
        _ => panic!("expected reconnect"),
    }
    assert!(state.last_error.is_none());
    match read_step(ReadOutcome::NoTransport, false, false, &mut state, &mut retries) {
        ReadAction::Stop { drop_transport } => assert!(!drop_transport),
        _ => panic!("expected stop"),
    }
    assert!(matches!(state.last_error, Some(DriverError::TransportClosed)));
}

#[test]
fn read_step_errors() {
    let mut state = StateInner::new();
    let mut retries = 0u32;
    let timeout = DriverError::Io("read timed out".to_string());
    match read_step(ReadOutcome::Failed(timeout.clone()), true, true, &mut state, &mut retries) {
        ReadAction::Continue => {}
        _ => panic!("blocking driver skips timeouts"),
    }
    assert!(state.last_error.is_none());
    match read_step(ReadOutcome::Failed(timeout), true, false, &mut state, &mut retries) {
        ReadAction::Report(DriverError::Io(msg)) => assert_eq!(msg, "read timed out"),
        _ => panic!("asynchronous driver reports timeouts"),
    }
    assert!(matches!(state.last_error, Some(DriverError::Io(_))));
    match read_step(ReadOutcome::Failed(DriverError::Serial("gone".into())), true, true, &mut state, &mut retries) {
        ReadAction::Report(DriverError::Serial(msg)) => assert_eq!(msg, "gone"),
        _ => panic!("expected report"),
    }
}

#[test]
fn reconnect_limits() {
    let mut state = StateInner::new();
    assert!(!begin_reconnect(None, 0, &mut state));
    assert!(state.last_error.is_none());
    assert!(begin_reconnect(Some(3), 2, &mut state));
    assert!(state.last_error.is_none());
    assert!(!begin_reconnect(Some(3), 3, &mut state));
    assert!(matches!(state.last_error, Some(DriverError::TransportClosed)));

    let mut retries = 2u32;
    finish_reconnect(false, 3, &mut state, &mut retries);
    assert_eq!(retries, 3);
    let mut retries = 0u32;
    finish_reconnect(true, 3, &mut state, &mut retries);
    assert_eq!(retries, 0);
    assert!(state.connected);
}

#[test]
fn frame_reader_reads_back_encoded_frame() {
    let frame = RawFrame { frame_type: FrameType::Thermal, payload: vec![5, 6, 7, 8] }.encode();
    let mut stream = vec![0x00, 0x42];
    stream.extend(frame.iter());
    let mut reader = FrameReader::new();
    let mut pos = 0usize;
    let mut out = None;
    while out.is_none() {
        let n = reader.wanted();
        out = reader.push(&stream[pos..pos + n]);
        pos += n;
    }
    assert_eq!(out.unwrap(), frame);
    assert_eq!(pos, stream.len());
    assert!(reader.retries_timeout());
}

#[test]
fn frame_reader_empty_payload() {
    let frame = RawFrame { frame_type: FrameType::CfgQueryAll, payload: vec![] }.encode();
    let mut reader = FrameReader::new();
    assert_eq!(reader.wanted(), 1);
    assert!(reader.push(&frame[0..1]).is_none());
    assert!(!reader.retries_timeout());
    assert!(reader.push(&frame[1..2]).is_none());
    assert!(reader.push(&frame[2..4]).is_none());
    assert_eq!(reader.wanted(), 0);
    assert!(reader.push(&[]).is_none());
    assert_eq!(reader.wanted(), 2);
    assert_eq!(reader.push(&frame[4..6]), Some(frame.clone()));
}

#[test]
fn frame_codec_completeness() {
    let frame = RawFrame { frame_type: FrameType::Imu, payload: vec![1, 2, 3] }.encode();
    assert!(FrameCodec::has_complete_frame(&frame));
    assert!(!FrameCodec::has_complete_frame(&frame[..frame.len() - 1]));
    assert!(!FrameCodec::has_complete_frame(&[0x00, 0x01]));
    assert_eq!(FrameCodec::find_header(&[0x00, 0xAA, 0xAA]), Some(1));
    let (raw, n) = FrameCodec::decode(&frame).unwrap();
    assert_eq!(n, frame.len());
    assert_eq!(FrameCodec::encode(&raw), frame);
}

#[test]
fn event_simulator_cycle() {
    let mut sim = EventSimulator::new();
    sim.charging = true;
    let e = sim.generate();
    assert_eq!(sim.event_count, 1);
    assert_eq!(e.charge_phase, ChargePhase::Cc);
    assert_eq!(
        e.state_change_flags.bits(),
        StateChangeFlags::CHARGER_CONNECTED | StateChangeFlags::FAN_ENABLED
    );
    assert!(e.protection_flags.is_empty());
    sim.event_count = 499;
    let e = sim.generate();
    assert_eq!(e.charge_phase, ChargePhase::Cc);
    assert_eq!(e.protection_flags.bits(), ProtectionFlags::SERVO_OVERCURRENT);
    assert_eq!(e.state_change_flags.bits(), StateChangeFlags::CHARGER_CONNECTED | StateChangeFlags::FAN_ENABLED);
    sim.event_count = 799;
    sim.charging = false;
    let e = sim.generate();
    assert_eq!(e.charge_phase, ChargePhase::NotCharging);
    assert_eq!(e.error_flags.bits(), ErrorFlags::UART1_ERROR);
    sim.event_count = 1199;
    let e = sim.generate();
    assert_eq!(e.error_flags.bits(), ErrorFlags::I2C1_ERROR);
    sim.event_count = 2399;
    let e = sim.generate();
    assert_eq!(e.error_flags.bits(), ErrorFlags::UART1_ERROR);
    sim.charging = true;
    sim.event_count = 94;
    let e = sim.generate();
    assert_eq!(e.charge_phase, ChargePhase::NotCharging);
    assert_eq!(e.state_change_flags.bits(), StateChangeFlags::CHARGER_CONNECTED);
}

#[test]
fn system_simulator_fields() {
    let mut sim = SystemSimulator::new();
    sim.charging = true;
    let info = sim.generate_with(0x1_0000_0005, 3, 7, 1);
    assert_eq!(info.frames_sent_total, 1);
    assert_eq!(info.uptime_s, 5);
    assert_eq!(info.cpu_usage_percent, 38);
    assert_eq!(info.free_heap_kb, 127);
    assert_eq!(info.stack_watermark_min_kb, 9);
    assert_eq!(info.pd_request_voltage_mv, 20000);
    assert_eq!(info.pd_request_current_ma, 5000);
    assert_eq!(info.device_id, 0x4832);
    sim.charging = false;
    let info = sim.generate();
    assert_eq!(info.frames_sent_total, 2);
    assert!((35..50).contains(&info.cpu_usage_percent));
    assert!((120..150).contains(&info.free_heap_kb));
    assert!((8..12).contains(&info.stack_watermark_min_kb));
    assert_eq!(info.pd_request_voltage_mv, 0);
}

fn read_all(core: &mut MockCore) -> Vec<Vec<u8>> {
    let mut out = Vec::new();
    while let Some(f) = core.try_read_frame() {
        out.push(f);
    }
    out
}

#[test]
fn mock_core_answers_config_query() {
    let mut core = MockCore::new();
    let query = RawFrame {
        frame_type: FrameType::CfgQuery,
        payload: vec![ConfigType::PowerServoCurrentLimitMa.as_u8()],
    };
    core.prepare_write(&query.encode());
    assert_eq!(core.written_frames().len(), 1);
    let response = core.try_read_frame().unwrap();
    let (raw, _) = RawFrame::decode(&response).unwrap();
    assert_eq!(raw.frame_type, FrameType::AckCfgQuery);
    let config = Config::from_bytes(&raw.payload).unwrap();
    assert_eq!(config, Config::PowerServoCurrentLimitMa(BoardConfigSnapshot::default().servo_current_limit_ma));
    assert_eq!(core.frame_count, 1);
}

#[test]
fn mock_core_write_then_query() {
    let mut core = MockCore::new();
    core.prepare_write(&encode_cfg_write(&Config::ChargeTempLimit(650)));
    let frames = read_all(&mut core);
    assert_eq!(frames.len(), 2);
    let (ack, _) = RawFrame::decode(&frames[0]).unwrap();
    assert_eq!(ack.frame_type, FrameType::AckCfgWrite);
    assert_eq!(ack.payload, vec![1]);
    let (published, _) = RawFrame::decode(&frames[1]).unwrap();
    assert_eq!(published.frame_type, FrameType::Config);
    let snapshot = BoardConfigSnapshot::from_bytes(&published.payload).unwrap();
    assert_eq!(snapshot.charge_temp_limit, 650);

    core.prepare_write(&encode_cfg_query(ConfigType::ChargeTempLimit));
    let frames = read_all(&mut core);
    let (answer, _) = RawFrame::decode(&frames[0]).unwrap();
    assert_eq!(Config::from_bytes(&answer.payload).unwrap(), Config::ChargeTempLimit(650));

    core.prepare_write(&encode_cfg_write(&Config::TxLogLevel(LogLevel::Error)));
    read_all(&mut core);
    core.prepare_write(&encode_cfg_query(ConfigType::TxLogLevel));
    let frames = read_all(&mut core);
    let (answer, _) = RawFrame::decode(&frames[0]).unwrap();
    assert_eq!(Config::from_bytes(&answer.payload).unwrap(), Config::TxLogLevel(LogLevel::Error));
}

#[test]
fn mock_core_query_all_and_ignored_frames() {
    let mut core = MockCore::new();
    core.prepare_write(&encode_cfg_query_all());
    let frames = read_all(&mut core);
    assert_eq!(frames.len(), 1);
    let (raw, _) = RawFrame::decode(&frames[0]).unwrap();
    assert_eq!(raw.frame_type, FrameType::AckCfgQueryAll);
    assert_eq!(BoardConfigSnapshot::from_bytes(&raw.payload).unwrap(), BoardConfigSnapshot::default());

    core.prepare_write(&[0x01, 0x02]);
    core.prepare_write(&RawFrame { frame_type: FrameType::CfgQuery, payload: vec![0x99] }.encode());
    core.prepare_write(&RawFrame { frame_type: FrameType::CfgQuery, payload: vec![] }.encode());
    assert!(core.try_read_frame().is_none());
    assert_eq!(core.written_frames().len(), 4);
}

#[test]
fn mock_core_answers_before_data() {
    let mut core = MockCore::new();
    core.push_event_frame();
    core.push_system_frame();
    core.prepare_write(&encode_cfg_query_all());
    let frames = read_all(&mut core);
    assert_eq!(frames.len(), 3);
    let types: Vec<FrameType> = frames.iter().map(|f| RawFrame::decode(f).unwrap().0.frame_type).collect();
    assert_eq!(types, vec![FrameType::AckCfgQueryAll, FrameType::Event, FrameType::System]);
    let ev = BoardEvent::from_bytes(&RawFrame::decode(&frames[1]).unwrap().0.payload).unwrap();
    assert_eq!(ev.charge_phase, ChargePhase::NotCharging);
}

#[test]
fn mock_core_disconnects() {
    let mut core = MockCore::new();
    assert!(!core.check_disconnect());
    core.disconnect();
    assert!(core.check_disconnect());
    core.reconnect();
    core.set_auto_disconnect(2);
    core.push_event_frame();
    core.push_event_frame();
    core.try_read_frame();
    assert!(!core.check_disconnect());
    core.try_read_frame();
    assert!(core.check_disconnect());
    assert!(!core.connected);
}

#[test]
fn commands() {
    assert_eq!(CommandType::from_u8(0x03), Some(CommandType::SwitchServoPower));
    assert_eq!(CommandType::from_u8(0x08), None);
    assert_eq!(CommandType::SetRGB.as_u8(), 0x07);
    assert_eq!(CommandType::Reset.to_string(), "Reset all device");
    assert_eq!(Command::SwitchCharge(true).command_type(), CommandType::SwitchCharge);
    assert_eq!(Command::Reset.to_string(), "Reset all device");
    assert_eq!(Command::SwitchServoPower(true).to_string(), "Switch Servo Power: ON");
    assert_eq!(Command::SwitchBatExtOut(false).to_string(), "Switch Battery Extra Output: OFF");
    let leds = [RgbLed::RED(), RgbLed::new(7, 42, 100), RgbLed::ORANGE()];
    assert_eq!(Command::SetRGB(leds).to_string(), "Set RGB: [255,0,0] [7,42,100] [255,128,0]");
    assert_eq!(RgbLed::OFF(), RgbLed::default());
}

#[test]
fn reset_reasons() {
    assert_eq!(ResetReason::from_u8(1), ResetReason::Watchdog);
    assert_eq!(ResetReason::from_u8(6), ResetReason::BrownOut);
    assert_eq!(ResetReason::from_u8(0), ResetReason::Unknown);
    assert_eq!(ResetReason::from_u8(9), ResetReason::Unknown);
    assert_eq!(ResetReason::PinReset.description(), "NRST Pin Reset");
}

#[test]
fn state_snapshot_copies() {
    let mut state = StateInner::new();
    let (_, bytes) = power_frame();
    decode_and_dispatch(&bytes, &mut state);
    state.set_connected(true);
    let snap = state.snapshot();
    assert!(snap.connected);
    assert_eq!(snap.power, state.power);
    assert_eq!(snap.frames_parsed, 1);
}

#[test]
fn data_stream_schedule() {
    assert!(!DataStream::Imu.is_due(9));
    assert!(DataStream::Imu.is_due(10));
    assert_eq!(DataStream::Power.period_ms(), 50);
    assert!(!DataStream::Thermal.is_due(199));
    assert!(DataStream::Battery.is_due(100));
    assert!(!DataStream::System.is_due(999));
    assert!(DataStream::Event.is_due(1000));
}
