use avr_servo::binding::{ConfigError, RegisterOp, ServoTimer};
use avr_servo::emitter::{op_writes, tccra_with_channel, tccrb_value, timing_writes, Register, RegisterWrite};
use avr_servo::registry::{is_valid, wiring_of, Capability, ChannelId, PinD44, Tc5, PinD11, PinD12, PinD13, PinD2, PinId, Tc1, Tc3, TimerId};
use avr_servo::timing::{angle_to_ticks, compute_top, pick_prescaler, ticks_to_angle, Prescaler, TimingError};

const CLOCK: u32 = 16_000_000;
const HALF_US_PS: u64 = 500_000;

#[test]
fn top_for_prescale8_at_50hz() {
    assert_eq!(compute_top(CLOCK, Prescaler::Prescale8, 50), Ok(39999));
}

#[test]
fn top_for_prescale64_at_50hz() {
    assert_eq!(compute_top(CLOCK, Prescaler::Prescale64, 50), Ok(4999));
}

#[test]
fn top_out_of_range() {
    // 320000 ticks per period do not fit 16 bits.
    assert_eq!(compute_top(CLOCK, Prescaler::Direct, 50), Err(TimingError::OutOfRange));
    // Rounds to zero ticks.
    assert_eq!(compute_top(CLOCK, Prescaler::Prescale1024, 1_000_000), Err(TimingError::OutOfRange));
    assert_eq!(compute_top(CLOCK, Prescaler::Prescale8, 0), Err(TimingError::OutOfRange));
}

#[test]
fn top_rounds_to_nearest() {
    // 16e6 / (8 * 60) = 33333.33 periods -> TOP 33332.
    assert_eq!(compute_top(CLOCK, Prescaler::Prescale8, 60), Ok(33332));
    // 16e6 / (1 * 30000) = 533.33 -> 533 -> TOP 532; 16e6 / (1 * 48000) = 333.33 -> 332.
    assert_eq!(compute_top(CLOCK, Prescaler::Direct, 30000), Ok(532));
    // 16e6 / (64 * 37) = 6756.76 -> 6757 -> TOP 6756.
    assert_eq!(compute_top(CLOCK, Prescaler::Prescale64, 37), Ok(6756));
}

#[test]
fn produced_frequency_within_one_tick() {
    for &(p, n) in &[(Prescaler::Prescale8, 8u64), (Prescaler::Prescale64, 64), (Prescaler::Prescale256, 256)] {
        for f in [37u32, 50, 60, 333] {
            if let Ok(top) = compute_top(CLOCK, p, f) {
                let d = n * f as u64;
                let period = d * (top as u64 + 1);
                let err = if period > CLOCK as u64 { period - CLOCK as u64 } else { CLOCK as u64 - period };
                assert!(2 * err <= d);
            }
        }
    }
}

#[test]
fn picks_finest_prescaler() {
    assert_eq!(pick_prescaler(CLOCK, 50), Ok(Prescaler::Prescale8));
    assert_eq!(pick_prescaler(CLOCK, 1), Ok(Prescaler::Prescale256));
    assert_eq!(pick_prescaler(CLOCK, 1000), Ok(Prescaler::Direct));
    assert!(compute_top(CLOCK, Prescaler::Direct, 50).is_err());
}

#[test]
fn unreachable_frequency() {
    assert_eq!(pick_prescaler(CLOCK, 0), Err(TimingError::Unreachable));
    assert_eq!(pick_prescaler(CLOCK, 1_000_000_000), Err(TimingError::Unreachable));
}

#[test]
fn angle_to_ticks_example() {
    assert_eq!(angle_to_ticks(0, 39999, 500, 2500, HALF_US_PS), 1000);
    assert_eq!(angle_to_ticks(180_000, 39999, 500, 2500, HALF_US_PS), 5000);
    assert_eq!(angle_to_ticks(90_000, 39999, 500, 2500, HALF_US_PS), 3000);
}

#[test]
fn angle_to_ticks_prescale64() {
    // 4 us ticks: 0.5 ms = 125 ticks, 2.5 ms = 625 ticks.
    assert_eq!(angle_to_ticks(0, 4999, 500, 2500, 4_000_000), 125);
    assert_eq!(angle_to_ticks(180_000, 4999, 500, 2500, 4_000_000), 625);
    // 45 degrees: 1000 us = 250 ticks.
    assert_eq!(angle_to_ticks(45_000, 4999, 500, 2500, 4_000_000), 250);
}

#[test]
fn angle_to_ticks_clamps_angle() {
    assert_eq!(angle_to_ticks(-10_000, 39999, 500, 2500, HALF_US_PS), angle_to_ticks(0, 39999, 500, 2500, HALF_US_PS));
    assert_eq!(angle_to_ticks(200_000, 39999, 500, 2500, HALF_US_PS), angle_to_ticks(180_000, 39999, 500, 2500, HALF_US_PS));
    assert_eq!(angle_to_ticks(i32::MIN, 39999, 500, 2500, HALF_US_PS), 1000);
    assert_eq!(angle_to_ticks(i32::MAX, 39999, 500, 2500, HALF_US_PS), 5000);
}

#[test]
fn angle_to_ticks_clamps_to_top() {
    assert_eq!(angle_to_ticks(180_000, 4000, 500, 2500, HALF_US_PS), 4000);
    assert_eq!(angle_to_ticks(0, 0, 500, 2500, HALF_US_PS), 0);
}

#[test]
fn angle_to_ticks_reversed_calibration() {
    assert_eq!(angle_to_ticks(0, 39999, 2500, 500, HALF_US_PS), 5000);
    assert_eq!(angle_to_ticks(180_000, 39999, 2500, 500, HALF_US_PS), 1000);
}

#[test]
fn ticks_to_angle_inverts() {
    assert_eq!(ticks_to_angle(1000, 39999, 500, 2500, HALF_US_PS), 0);
    assert_eq!(ticks_to_angle(3000, 39999, 500, 2500, HALF_US_PS), 90_000);
    assert_eq!(ticks_to_angle(5000, 39999, 500, 2500, HALF_US_PS), 180_000);
    // Beyond the travel.
    assert_eq!(ticks_to_angle(500, 39999, 500, 2500, HALF_US_PS), 0);
    assert_eq!(ticks_to_angle(9000, 39999, 500, 2500, HALF_US_PS), 180_000);
    // One tick is 0.045 degrees.
    assert_eq!(ticks_to_angle(1001, 39999, 500, 2500, HALF_US_PS), 45);
    assert_eq!(ticks_to_angle(3000, 39999, 2500, 500, HALF_US_PS), 90_000);
    assert_eq!(ticks_to_angle(3000, 39999, 500, 500, HALF_US_PS), 0);
}

#[test]
fn readback_stays_within_a_tick() {
    for a in (0..=180_000).step_by(777) {
        let t = angle_to_ticks(a, 39999, 500, 2500, HALF_US_PS);
        let back = ticks_to_angle(t, 39999, 500, 2500, HALF_US_PS);
        assert_eq!(angle_to_ticks(back as i32, 39999, 500, 2500, HALF_US_PS), t);
        // Pulse widths in picoseconds.
        let pulse_back = 500_000_000i64 + back as i64 * 2000 * 1000 / 180;
        let pulse_ticks = t as i64 * HALF_US_PS as i64;
        assert!((pulse_back - pulse_ticks).abs() < HALF_US_PS as i64);
    }
}

#[test]
fn registry_wiring() {
    assert!(is_valid(TimerId::T1, ChannelId::A, PinId::D11));
    assert!(is_valid(TimerId::T3, ChannelId::C, PinId::D3));
    assert!(!is_valid(TimerId::T1, ChannelId::C, PinId::D11));
    assert!(!is_valid(TimerId::T4, ChannelId::A, PinId::D11));
    assert_eq!(wiring_of(PinId::D44), (TimerId::T5, ChannelId::C));
    assert_eq!(wiring_of(PinId::D2), (TimerId::T3, ChannelId::B));
}

#[test]
fn bindings_share_timer_setup() {
    let mut t1 = ServoTimer::new(Tc1::take(), CLOCK);
    let (first, op) = t1.bind(PinD11::take(), 50, 500, 2500).unwrap();
    assert_eq!(op, Some(RegisterOp::ApplyTiming { timer: TimerId::T1, prescaler: Prescaler::Prescale8, top: 39999 }));
    let (second, op2) = t1.bind(PinD12::take(), 50, 500, 2500).unwrap();
    assert_eq!(op2, None);
    assert_eq!(first.config().top, second.config().top);
    assert_eq!(first.config().prescaler, second.config().prescaler);
    assert_eq!(first.channel(), ChannelId::A);
    assert_eq!(second.channel(), ChannelId::B);
    assert_eq!(second.pin(), PinId::D12);
    assert_eq!(first.tick_ps(), 500_000);
    assert_eq!(t1.bind(PinD13::take(), 60, 500, 2500).err(), Some(ConfigError::TimerAlreadyConfigured));
}

#[test]
fn unreachable_binding() {
    let mut t3 = ServoTimer::new(Tc3::take(), CLOCK);
    assert_eq!(t3.bind(PinD2::take(), 0, 500, 2500).err(), Some(ConfigError::UnreachableFrequency));
    assert_eq!(t3.setup(), None);
    let (b, op) = t3.bind(PinD2::take(), 50, 500, 2500).unwrap();
    assert_eq!(b.timer(), TimerId::T3);
    assert!(op.is_some());
}

#[test]
fn binding_angle_and_modes() {
    let mut t1 = ServoTimer::new(Tc1::take(), CLOCK);
    let (mut s, _) = t1.bind(PinD11::take(), 50, 500, 2500).unwrap();
    assert!(!s.is_enabled());
    assert_eq!(s.enable(), RegisterOp::SetChannelMode { timer: TimerId::T1, channel: ChannelId::A, enabled: true });
    assert_eq!(s.enable(), RegisterOp::SetChannelMode { timer: TimerId::T1, channel: ChannelId::A, enabled: true });
    assert!(s.is_enabled());
    assert_eq!(s.set_angle(90_000), Some(RegisterOp::SetCompare { timer: TimerId::T1, channel: ChannelId::A, value: 3000 }));
    assert_eq!(s.set_angle(90_000), None);
    assert_eq!(s.angle(), 90_000);
    assert_eq!(s.config().compare, 3000);
    assert_eq!(s.set_angle(-5_000), Some(RegisterOp::SetCompare { timer: TimerId::T1, channel: ChannelId::A, value: 1000 }));
    assert_eq!(s.angle(), 0);
    assert_eq!(s.disable(), RegisterOp::SetChannelMode { timer: TimerId::T1, channel: ChannelId::A, enabled: false });
    assert!(!s.is_enabled());
}

#[test]
fn register_values() {
    assert_eq!(tccra_with_channel(0b10, ChannelId::A, true), 0b1000_0010);
    assert_eq!(tccra_with_channel(0b10, ChannelId::C, true), 0b0000_1010);
    assert_eq!(tccra_with_channel(0b1110_0010, ChannelId::A, false), 0b0010_0010);
    assert_eq!(tccrb_value(Prescaler::Prescale8), 0b1_1010);
    assert_eq!(tccrb_value(Prescaler::Prescale64), 0b1_1011);
    let w = timing_writes(Prescaler::Prescale8, 39999);
    assert_eq!(w.len(), 6);
    assert_eq!(w[4], RegisterWrite { reg: Register::Icr, value: 39999 });
    assert_eq!(w[5], RegisterWrite { reg: Register::TccrB, value: 0b1_1010 });
}

#[test]
fn capability_from_marker_types() {
    let cap = Capability::of::<Tc1, PinD11>(PinD11::take());
    assert_eq!((cap.timer(), cap.channel(), cap.pin()), (TimerId::T1, ChannelId::A, PinId::D11));
    let cap = Capability::of::<Tc5, PinD44>(PinD44::take());
    assert_eq!((cap.timer(), cap.channel(), cap.pin()), (TimerId::T5, ChannelId::C, PinId::D44));
}

#[test]
fn slow_clock_binds_with_long_ticks() {
    // A 100 Hz clock reaches 1 Hz with TOP 99; one tick lasts 10 ms.
    let mut t1 = ServoTimer::new(Tc1::take(), 100);
    let (b, op) = t1.bind(PinD11::take(), 1, 500, 2500).unwrap();
    assert_eq!(op, Some(RegisterOp::ApplyTiming { timer: TimerId::T1, prescaler: Prescaler::Direct, top: 99 }));
    assert_eq!(b.tick_ps(), 10_000_000_000);
    assert_eq!(ticks_to_angle(99, 99, 500, 2500, 10_000_000_000), 180_000);
}

#[test]
fn channel_bound_once() {
    let mut t1 = ServoTimer::new(Tc1::take(), CLOCK);
    assert!(!t1.is_bound(ChannelId::A));
    assert!(t1.bind(PinD11::take(), 50, 500, 2500).is_ok());
    assert!(t1.is_bound(ChannelId::A));
    assert!(!t1.is_bound(ChannelId::B));
    assert_eq!(t1.bind(PinD11::take(), 50, 500, 2500).err(), Some(ConfigError::ChannelInUse));
    assert!(t1.bind(PinD12::take(), 50, 500, 2500).is_ok());
}

#[test]
fn register_writes_of_operations() {
    let w = op_writes(RegisterOp::ApplyTiming { timer: TimerId::T3, prescaler: Prescaler::Prescale64, top: 4999 }, 0);
    assert_eq!(w, timing_writes(Prescaler::Prescale64, 4999));
    assert_eq!(w[5], RegisterWrite { reg: Register::TccrB, value: 0b1_1011 });
    let w = op_writes(RegisterOp::SetCompare { timer: TimerId::T3, channel: ChannelId::C, value: 1000 }, 0b10);
    assert_eq!(w, vec![RegisterWrite { reg: Register::Ocr(ChannelId::C), value: 1000 }]);
    let w = op_writes(RegisterOp::SetChannelMode { timer: TimerId::T1, channel: ChannelId::A, enabled: true }, 0b10);
    assert_eq!(w, vec![RegisterWrite { reg: Register::TccrA, value: 0b1000_0010 }]);
    let w = op_writes(RegisterOp::SetChannelMode { timer: TimerId::T1, channel: ChannelId::A, enabled: false }, 0b1000_0010);
    assert_eq!(w, vec![RegisterWrite { reg: Register::TccrA, value: 0b10 }]);
}
