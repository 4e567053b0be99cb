//! The simulated board behind the mock transports: frame queues, the board
//! configuration, answers to requests and the connection state. The sensor
//! simulators and the clock that schedules their frames run outside and hand
//! their encoded payloads to `enqueue`.

use vstd::prelude::*;
use std::collections::VecDeque;
use crate::driver::mock_data::{EventSimulator, SystemSimulator, spec_sim_event, spec_system_info};
use crate::protocol::config::{BoardConfigSnapshot, Config, ConfigType};
use crate::protocol::frame::{spec_decode, spec_encode, FrameType, RawFrame};

verus! {

/// The contents of a frame queue.
pub open spec fn frames_view(q: Seq<Vec<u8>>) -> Seq<Seq<u8>> {
    q.map_values(|f: Vec<u8>| f@)
}

/// The value word of configuration item `t` as stored in `c`: a flag gives
/// 0 or 1, the log level its number; reset and shutdown give 0.
pub open spec fn spec_config_value(c: BoardConfigSnapshot, t: ConfigType) -> u16 {
    match t {
        ConfigType::PowerServoCurrentLimitMa => c.servo_current_limit_ma,
        ConfigType::PowerServoTempLimit => c.servo_temp_limit,
        ConfigType::Power5vTempLimit => c.temp_5v_limit,
        ConfigType::ChargeMaxCurrentMa => c.charge_max_current_ma,
        ConfigType::ChargeTempDerating => c.charge_temp_derating,
        ConfigType::ChargeTempLimit => c.charge_temp_limit,
        ConfigType::ChargeStopVoltageMv => c.charge_stop_voltage_mv,
        ConfigType::ChargeStopSoc => c.charge_stop_percentage as u16,
        ConfigType::TxLogLevel => c.tx_log_level.spec_as_u8() as u16,
        ConfigType::SwitchServoPower => if c.power_servo_on { 1 } else { 0 },
        ConfigType::Switch5VPower => if c.power_5v_on { 1 } else { 0 },
        ConfigType::SwitchCharge => if c.charge_on { 1 } else { 0 },
        ConfigType::SwitchBatExtOut => if c.bat_ext_out_on { 1 } else { 0 },
        ConfigType::Reset | ConfigType::Shutdown => 0,
    }
}

/// `c` with the item `cfg` stored; reset and shutdown store nothing.
pub open spec fn spec_config_update(c: BoardConfigSnapshot, cfg: Config) -> BoardConfigSnapshot {
    match cfg {
        Config::PowerServoCurrentLimitMa(v) => BoardConfigSnapshot { servo_current_limit_ma: v, ..c },
        Config::PowerServoTempLimit(v) => BoardConfigSnapshot { servo_temp_limit: v, ..c },
        Config::Power5vTempLimit(v) => BoardConfigSnapshot { temp_5v_limit: v, ..c },
        Config::ChargeMaxCurrentMa(v) => BoardConfigSnapshot { charge_max_current_ma: v, ..c },
        Config::ChargeTempDerating(v) => BoardConfigSnapshot { charge_temp_derating: v, ..c },
        Config::ChargeTempLimit(v) => BoardConfigSnapshot { charge_temp_limit: v, ..c },
        Config::ChargeStopVoltageMv(v) => BoardConfigSnapshot { charge_stop_voltage_mv: v, ..c },
        Config::ChargeStopSoc(v) => BoardConfigSnapshot { charge_stop_percentage: v, ..c },
        Config::TxLogLevel(level) => BoardConfigSnapshot { tx_log_level: level, ..c },
        Config::SwitchPowerServo(on) => BoardConfigSnapshot { power_servo_on: on, ..c },
        Config::SwitchPower5V(on) => BoardConfigSnapshot { power_5v_on: on, ..c },
        Config::SwitchCharge(on) => BoardConfigSnapshot { charge_on: on, ..c },
        Config::SwitchBatExtOut(on) => BoardConfigSnapshot { bat_ext_out_on: on, ..c },
        Config::Reset | Config::Shutdown => c,
    }
}

/// How the simulated board answers the written frame `frame` with the
/// configuration `c`: the answers put ahead of data frames, the data frames
/// published, and the new configuration. A query for one item is answered
/// with the item's stored value; a query for all items with the whole
/// configuration; a write stores the item, is acknowledged with success and
/// publishes the new configuration. Anything else, or what does not decode,
/// is ignored.
pub open spec fn spec_write_reply(frame: Seq<u8>, c: BoardConfigSnapshot) -> (
    Seq<Seq<u8>>,
    Seq<Seq<u8>>,
    BoardConfigSnapshot,
) {
    let ignored = (Seq::<Seq<u8>>::empty(), Seq::<Seq<u8>>::empty(), c);
    match spec_decode(frame) {
        Ok(((t, p), _)) => match t {
            FrameType::CfgQuery => if p.len() > 0 {
                match ConfigType::spec_from_u8(p[0]) {
                    Some(ct) => (
                        seq![
                            spec_encode(
                                FrameType::AckCfgQuery,
                                Config::spec_from_type_value(ct, spec_config_value(c, ct)).spec_to_bytes(),
                            ),
                        ],
                        Seq::<Seq<u8>>::empty(),
                        c,
                    ),
                    None => ignored,
                }
            } else {
                ignored
            },
            FrameType::CfgQueryAll => (
                seq![spec_encode(FrameType::AckCfgQueryAll, c.spec_to_bytes())],
                Seq::<Seq<u8>>::empty(),
                c,
            ),
            FrameType::CfgWrite => match Config::spec_from_bytes(p) {
                Ok(cfg) => {
                    let c2 = spec_config_update(c, cfg);
                    (
                        seq![spec_encode(FrameType::AckCfgWrite, seq![1u8])],
                        seq![spec_encode(FrameType::Config, c2.spec_to_bytes())],
                        c2,
                    )
                },
                Err(_) => ignored,
            },
            _ => ignored,
        },
        Err(_) => ignored,
    }
}

/// The kinds of data frame that the simulated board sends on its own.
#[derive(Debug, Clone, Copy, PartialEq, Eq, Structural)]
pub enum DataStream {
    Imu,
    Power,
    Thermal,
    Battery,
    System,
    Event,
}

impl DataStream {
    /// Milliseconds between two frames: IMU 100 Hz, power 20 Hz,
    /// temperatures 5 Hz, battery 10 Hz, system information and events 1 Hz.
    pub open spec fn spec_period_ms(self) -> u64 {
        match self {
            DataStream::Imu => 10,
            DataStream::Power => 50,
            DataStream::Thermal => 200,
            DataStream::Battery => 100,
            DataStream::System => 1000,
            DataStream::Event => 1000,
        }
    }

    /// Milliseconds between two frames of this stream.
    pub fn period_ms(&self) -> (p: u64)
        ensures
            p == self.spec_period_ms(),
    {
        match self {
            DataStream::Imu => 10,
            DataStream::Power => 50,
            DataStream::Thermal => 200,
            DataStream::Battery => 100,
            DataStream::System => 1000,
            DataStream::Event => 1000,
        }
    }

    /// Whether the next frame of this stream is due, `elapsed_ms`
    /// milliseconds after the last one.
    pub fn is_due(&self, elapsed_ms: u64) -> (due: bool)
        ensures
            due == (elapsed_ms >= self.spec_period_ms()),
    {
        elapsed_ms >= self.period_ms()
    }
}

/// The simulated board.
pub struct MockCore {
    /// Data frames waiting to be read.
    pub rx_queue: VecDeque<Vec<u8>>,
    /// Answers to requests, read before any data frame.
    pub priority_queue: VecDeque<Vec<u8>>,
    pub system: SystemSimulator,
    pub event: EventSimulator,
    /// The board configuration.
    pub config: BoardConfigSnapshot,
    /// Every frame written to the board, in order.
    pub written_frames: Vec<Vec<u8>>,
    pub connected: bool,
    /// Number of frames read after which the connection drops, if any.
    pub auto_disconnect_frames: Option<u64>,
    /// Frames read so far.
    pub frame_count: u64,
}

impl MockCore {
    /// Connected, with the factory configuration and empty queues.
    pub fn new() -> (m: MockCore)
        ensures
            m.rx_queue@.len() == 0,
            m.priority_queue@.len() == 0,
            m.config == BoardConfigSnapshot::spec_default(),
            m.written_frames@.len() == 0,
            m.connected,
            m.auto_disconnect_frames is None,
            m.frame_count == 0,
            m.system.frame_count == 0,
            !m.system.charging,
            m.event.event_count == 0,
            !m.event.charging,
    {
        MockCore {
            rx_queue: VecDeque::new(),
            priority_queue: VecDeque::new(),
            system: SystemSimulator::new(),
            event: EventSimulator::new(),
            config: BoardConfigSnapshot::default(),
            written_frames: Vec::new(),
            connected: true,
            auto_disconnect_frames: None,
            frame_count: 0,
        }
    }

    /// Sets whether the board is charging, as the system and event
    /// simulators report it.
    pub fn set_charging(&mut self, charging: bool)
        ensures
            *final(self) == (MockCore {
                system: SystemSimulator { charging, ..old(self).system },
                event: EventSimulator { charging, ..old(self).event },
                ..*old(self)
            }),
    {
        self.system.charging = charging;
        self.event.charging = charging;
    }

    /// Drops the connection once `after_frames` frames have been read.
    pub fn set_auto_disconnect(&mut self, after_frames: u64)
        ensures
            *final(self) == (MockCore { auto_disconnect_frames: Some(after_frames), ..*old(self) }),
    {
        self.auto_disconnect_frames = Some(after_frames);
    }

    /// Drops the connection.
    pub fn disconnect(&mut self)
        ensures
            *final(self) == (MockCore { connected: false, ..*old(self) }),
    {
        self.connected = false;
    }

    /// Restores the connection.
    pub fn reconnect(&mut self)
        ensures
            *final(self) == (MockCore { connected: true, ..*old(self) }),
    {
        self.connected = true;
    }

    /// Every frame written so far.
    pub fn written_frames(&self) -> (frames: &[Vec<u8>])
        ensures
            frames@ == self.written_frames@,
    {
        self.written_frames.as_slice()
    }

    /// Whether the connection is down; drops it first when the number of
    /// frames read has reached the automatic limit.
    pub fn check_disconnect(&mut self) -> (down: bool)
        ensures
            down == (!old(self).connected || (old(self).auto_disconnect_frames matches Some(t)
                && old(self).frame_count >= t)),
            *final(self) == (MockCore { connected: !down, ..*old(self) }),
    {
        if !self.connected {
            return true;
        }
        if let Some(threshold) = self.auto_disconnect_frames {
            if self.frame_count >= threshold {
                self.connected = false;
                return true;
            }
        }
        false
    }

    /// Takes the next frame to read: an answer first, else a data frame; a
    /// frame taken is counted.
    pub fn try_read_frame(&mut self) -> (frame: Option<Vec<u8>>)
        requires
            old(self).frame_count < u64::MAX,
        ensures
            old(self).priority_queue@.len() > 0 ==> {
                &&& frame == Some(old(self).priority_queue@[0])
                &&& final(self).priority_queue@ == old(self).priority_queue@.drop_first()
                &&& *final(self) == (MockCore {
                    priority_queue: final(self).priority_queue,
                    frame_count: (old(self).frame_count + 1) as u64,
                    ..*old(self)
                })
            },
            old(self).priority_queue@.len() == 0 && old(self).rx_queue@.len() > 0 ==> {
                &&& frame == Some(old(self).rx_queue@[0])
                &&& final(self).rx_queue@ == old(self).rx_queue@.drop_first()
                &&& *final(self) == (MockCore {
                    rx_queue: final(self).rx_queue,
                    frame_count: (old(self).frame_count + 1) as u64,
                    ..*old(self)
                })
            },
            old(self).priority_queue@.len() == 0 && old(self).rx_queue@.len() == 0 ==> {
                &&& frame is None
                &&& *final(self) == *old(self)
            },
    {
        if self.priority_queue.len() > 0 {
            let frame = self.priority_queue.pop_front();
            self.frame_count = self.frame_count + 1;
            return frame;
        }
        if self.rx_queue.len() > 0 {
            let frame = self.rx_queue.pop_front();
            self.frame_count = self.frame_count + 1;
            return frame;
        }
        None
    }

    /// Queues a data frame of type `frame_type` carrying `payload`.
    pub fn enqueue(&mut self, frame_type: FrameType, payload: Vec<u8>)
        ensures
            frames_view(final(self).rx_queue@) == frames_view(old(self).rx_queue@).push(
                spec_encode(frame_type, payload@),
            ),
            *final(self) == (MockCore { rx_queue: final(self).rx_queue, ..*old(self) }),
    {
        let frame = RawFrame { frame_type, payload }.encode();
        self.rx_queue.push_back(frame);
        proof {
            assert(frames_view(self.rx_queue@) =~= frames_view(old(self).rx_queue@).push(
                spec_encode(frame_type, payload@),
            ));
        }
    }

    /// Queues the next system information frame.
    pub fn push_system_frame(&mut self)
        requires
            old(self).system.frame_count < u32::MAX,
        ensures
            final(self).system.frame_count == old(self).system.frame_count + 1,
            final(self).system.charging == old(self).system.charging,
            frames_view(final(self).rx_queue@).len() == frames_view(old(self).rx_queue@).len() + 1,
            frames_view(final(self).rx_queue@).drop_last() == frames_view(old(self).rx_queue@),
            exists|uptime: u64, cpu: u8, heap: u16, stack: u16|
                cpu < 15 && heap < 30 && stack < 4 && frames_view(final(self).rx_queue@).last()
                    == spec_encode(
                    FrameType::System,
                    spec_system_info(
                        final(self).system.frame_count,
                        old(self).system.charging,
                        uptime,
                        cpu,
                        heap,
                        stack,
                    ).spec_to_bytes(),
                ),
            *final(self) == (MockCore {
                rx_queue: final(self).rx_queue,
                system: final(self).system,
                ..*old(self)
            }),
    {
        let info = self.system.generate();
        self.enqueue(FrameType::System, info.to_bytes());
        proof {
            let fv = frames_view(self.rx_queue@);
            assert(fv.drop_last() =~= frames_view(old(self).rx_queue@));
        }
    }

    /// Queues the next board event frame.
    pub fn push_event_frame(&mut self)
        requires
            old(self).event.event_count < u32::MAX,
        ensures
            final(self).event.event_count == old(self).event.event_count + 1,
            final(self).event.charging == old(self).event.charging,
            exists|e: crate::protocol::event::BoardEvent|
                e.spec_fields() == spec_sim_event(old(self).event.charging, final(self).event.event_count)
                    && frames_view(final(self).rx_queue@) == frames_view(old(self).rx_queue@).push(
                    spec_encode(FrameType::Event, e.spec_to_bytes()),
                ),
            *final(self) == (MockCore {
                rx_queue: final(self).rx_queue,
                event: final(self).event,
                ..*old(self)
            }),
    {
        let e = self.event.generate();
        self.enqueue(FrameType::Event, e.to_bytes());
    }

    /// Publishes the whole configuration as a data frame, as the board does
    /// after a change.
    pub fn publish_config(&mut self)
        ensures
            frames_view(final(self).rx_queue@) == frames_view(old(self).rx_queue@).push(
                spec_encode(FrameType::Config, old(self).config.spec_to_bytes()),
            ),
            *final(self) == (MockCore { rx_queue: final(self).rx_queue, ..*old(self) }),
    {
        let payload = self.config.to_bytes();
        self.enqueue(FrameType::Config, payload);
    }

    /// The stored value word of configuration item `ct`.
    pub fn get_config_value(&self, ct: ConfigType) -> (v: u16)
        ensures
            v == spec_config_value(self.config, ct),
    {
        let c = &self.config;
        match ct {
            ConfigType::PowerServoCurrentLimitMa => c.servo_current_limit_ma,
            ConfigType::PowerServoTempLimit => c.servo_temp_limit,
            ConfigType::Power5vTempLimit => c.temp_5v_limit,
            ConfigType::ChargeMaxCurrentMa => c.charge_max_current_ma,
            ConfigType::ChargeTempDerating => c.charge_temp_derating,
            ConfigType::ChargeTempLimit => c.charge_temp_limit,
            ConfigType::ChargeStopVoltageMv => c.charge_stop_voltage_mv,
            ConfigType::ChargeStopSoc => c.charge_stop_percentage as u16,
            ConfigType::TxLogLevel => c.tx_log_level.as_u8() as u16,
            ConfigType::SwitchServoPower => if c.power_servo_on { 1 } else { 0 },
            ConfigType::Switch5VPower => if c.power_5v_on { 1 } else { 0 },
            ConfigType::SwitchCharge => if c.charge_on { 1 } else { 0 },
            ConfigType::SwitchBatExtOut => if c.bat_ext_out_on { 1 } else { 0 },
            ConfigType::Reset | ConfigType::Shutdown => 0,
        }
    }

    /// Stores a configuration item.
    pub fn update_config(&mut self, config: Config)
        ensures
            *final(self) == (MockCore {
                config: spec_config_update(old(self).config, config),
                ..*old(self)
            }),
    {
        match config {
            Config::PowerServoCurrentLimitMa(v) => self.config.servo_current_limit_ma = v,
            Config::PowerServoTempLimit(v) => self.config.servo_temp_limit = v,
            Config::Power5vTempLimit(v) => self.config.temp_5v_limit = v,
            Config::ChargeMaxCurrentMa(v) => self.config.charge_max_current_ma = v,
            Config::ChargeTempDerating(v) => self.config.charge_temp_derating = v,
            Config::ChargeTempLimit(v) => self.config.charge_temp_limit = v,
            Config::ChargeStopVoltageMv(v) => self.config.charge_stop_voltage_mv = v,
            Config::ChargeStopSoc(v) => self.config.charge_stop_percentage = v,
            Config::TxLogLevel(level) => self.config.tx_log_level = level,
            Config::SwitchPowerServo(on) => self.config.power_servo_on = on,
            Config::SwitchPower5V(on) => self.config.power_5v_on = on,
            Config::SwitchCharge(on) => self.config.charge_on = on,
            Config::SwitchBatExtOut(on) => self.config.bat_ext_out_on = on,
            Config::Reset | Config::Shutdown => {},
        }
    }

    /// Records a written frame and answers it (see `spec_write_reply`).
    pub fn prepare_write(&mut self, frame: &[u8])
        ensures
            frames_view(final(self).written_frames@) == frames_view(
                old(self).written_frames@,
            ).push(frame@),
            frames_view(final(self).priority_queue@) == frames_view(old(self).priority_queue@)
                + spec_write_reply(frame@, old(self).config).0,
            frames_view(final(self).rx_queue@) == frames_view(old(self).rx_queue@)
                + spec_write_reply(frame@, old(self).config).1,
            final(self).config == spec_write_reply(frame@, old(self).config).2,
            *final(self) == (MockCore {
                written_frames: final(self).written_frames,
                priority_queue: final(self).priority_queue,
                rx_queue: final(self).rx_queue,
                config: final(self).config,
                ..*old(self)
            }),
    {
        self.written_frames.push(vstd::slice::slice_to_vec(frame));
        proof {
            assert(frames_view(self.written_frames@) =~= frames_view(old(self).written_frames@).push(
                frame@,
            ));
        }
        self.handle_write(frame);
    }

    /// Answers a written frame (see `spec_write_reply`).
    fn handle_write(&mut self, frame: &[u8])
        ensures
            frames_view(final(self).priority_queue@) == frames_view(old(self).priority_queue@)
                + spec_write_reply(frame@, old(self).config).0,
            frames_view(final(self).rx_queue@) == frames_view(old(self).rx_queue@)
                + spec_write_reply(frame@, old(self).config).1,
            final(self).config == spec_write_reply(frame@, old(self).config).2,
            *final(self) == (MockCore {
                priority_queue: final(self).priority_queue,
                rx_queue: final(self).rx_queue,
                config: final(self).config,
                ..*old(self)
            }),
    {
        let ghost p0 = frames_view(old(self).priority_queue@);
        let ghost r0 = frames_view(old(self).rx_queue@);
        let raw = match RawFrame::decode(frame) {
            Ok((raw, _)) => raw,
            Err(_) => {
                assert(p0 + Seq::<Seq<u8>>::empty() =~= p0);
                assert(r0 + Seq::<Seq<u8>>::empty() =~= r0);
                return;
            },
        };
        match raw.frame_type {
            FrameType::CfgQuery => {
                if raw.payload.len() > 0 {
                    if let Some(ct) = ConfigType::from_u8(raw.payload[0]) {
                        let config = Config::from_type_value(ct, self.get_config_value(ct));
                        let ack = RawFrame { frame_type: FrameType::AckCfgQuery, payload: config.to_bytes() };
                        self.priority_queue.push_back(ack.encode());
                        assert(frames_view(self.priority_queue@) =~= p0 + spec_write_reply(
                            frame@,
                            old(self).config,
                        ).0);
                        assert(r0 + Seq::<Seq<u8>>::empty() =~= r0);
                        return;
                    }
                }
                assert(p0 + Seq::<Seq<u8>>::empty() =~= p0);
                assert(r0 + Seq::<Seq<u8>>::empty() =~= r0);
            },
            FrameType::CfgQueryAll => {
                let ack = RawFrame { frame_type: FrameType::AckCfgQueryAll, payload: self.config.to_bytes() };
                self.priority_queue.push_back(ack.encode());
                assert(frames_view(self.priority_queue@) =~= p0 + spec_write_reply(
                    frame@,
                    old(self).config,
                ).0);
                assert(r0 + Seq::<Seq<u8>>::empty() =~= r0);
            },
            FrameType::CfgWrite => {
                match Config::from_bytes(raw.payload.as_slice()) {
                    Ok(config) => {
                        self.update_config(config);
                        let mut one: Vec<u8> = Vec::new();
                        one.push(1u8);
                        assert(one@ =~= seq![1u8]);
                        let ack = RawFrame { frame_type: FrameType::AckCfgWrite, payload: one };
                        self.priority_queue.push_back(ack.encode());
                        assert(frames_view(self.priority_queue@) =~= p0 + spec_write_reply(
                            frame@,
                            old(self).config,
                        ).0);
                        self.publish_config();
                        assert(frames_view(self.rx_queue@) =~= r0 + spec_write_reply(
                            frame@,
                            old(self).config,
                        ).1);
                    },
                    Err(_) => {
                        assert(p0 + Seq::<Seq<u8>>::empty() =~= p0);
                        assert(r0 + Seq::<Seq<u8>>::empty() =~= r0);
                    },
                }
            },
            _ => {
                assert(p0 + Seq::<Seq<u8>>::empty() =~= p0);
                assert(r0 + Seq::<Seq<u8>>::empty() =~= r0);
            },
        }
    }
}

/// A configuration item written to the board is then answered to a query
/// with the value written: querying item `cfg.config_type()` after storing
/// `cfg` gives back `cfg` (reset and shutdown, which store nothing,
/// excepted).
pub proof fn lemma_query_after_write(c: BoardConfigSnapshot, cfg: Config)
    requires
        !(cfg is Reset),
        !(cfg is Shutdown),
    ensures
        Config::spec_from_type_value(
            cfg.spec_config_type(),
            spec_config_value(spec_config_update(c, cfg), cfg.spec_config_type()),
        ) == cfg,
{
}

} // verus!
