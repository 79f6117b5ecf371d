//! Servo bindings: one owner per timer fixes the timer-wide prescaler and
//! TOP, and hands out one binding per compare channel.
use vstd::prelude::*;
use crate::registry::{Capability, ChannelId, PinId, ServoPin, ServoTC, TimerId};
use crate::timing::{
    angle_of_ticks, angle_to_ticks, compute_top, finer, finest_fit, top_fits, pick_prescaler, reachable, ticks_of,
    ticks_to_angle, top_value, Prescaler,
};

verus! {

/// Failure to set up a binding.
#[derive(Clone, Copy, Debug, PartialEq, Eq, Structural)]
pub enum ConfigError {
    /// No prescaler gives the frequency with a TOP in `1..=65535`.
    UnreachableFrequency,
    /// The timer already runs at another frequency.
    TimerAlreadyConfigured,
    /// The channel of this pin is already bound on this timer.
    ChannelInUse,
}

/// Timer-wide prescaler and TOP, with the channel's compare value.
#[derive(Clone, Copy, Debug, PartialEq, Eq, Structural)]
pub struct PwmTimingConfig {
    pub prescaler: Prescaler,
    pub top: u16,
    pub compare: u16,
}

impl PwmTimingConfig {
    pub open spec fn wf(&self) -> bool {
        1 <= self.top && self.compare <= self.top
    }
}

/// An operation on the timer hardware.
#[derive(Clone, Copy, Debug, PartialEq, Eq, Structural)]
pub enum RegisterOp {
    /// Select the prescaler and TOP of a timer; comes once per timer, before
    /// any channel operation on it.
    ApplyTiming { timer: TimerId, prescaler: Prescaler, top: u16 },
    /// Write a channel's compare value.
    SetCompare { timer: TimerId, channel: ChannelId, value: u16 },
    /// Start or stop driving a channel's pin.
    SetChannelMode { timer: TimerId, channel: ChannelId, enabled: bool },
}

/// The frequency, prescaler and TOP a timer was set up with.
#[derive(Clone, Copy, Debug, PartialEq, Eq, Structural)]
pub struct TimerSetup {
    pub freq_hz: u32,
    pub prescaler: Prescaler,
    pub top: u16,
}

/// Length of a timer tick in picoseconds, rounded to the nearest one.
pub open spec fn tick_ps_of(clock_hz: int, p: Prescaler) -> int {
    crate::timing::round_div(p.divisor_spec() * 1_000_000_000_000, clock_hz)
}

/// The finest prescaler that reaches `freq_hz`, if any.
pub open spec fn servo_prescaler(clock_hz: int, freq_hz: int) -> Option<Prescaler> {
    if exists|p: Prescaler| #[trigger] finest_fit(clock_hz, p, freq_hz) {
        Some(choose|p: Prescaler| #[trigger] finest_fit(clock_hz, p, freq_hz))
    } else {
        None
    }
}

/// The timer setup after binding a channel at `freq_hz`, or the error: a
/// timer not yet set up takes the finest prescaler that reaches the
/// frequency; a set-up timer accepts only its own frequency.
pub open spec fn next_setup(clock_hz: int, setup: Option<TimerSetup>, freq_hz: u32) -> Result<TimerSetup, ConfigError> {
    match setup {
        Some(s) => if s.freq_hz == freq_hz {
            Ok(s)
        } else {
            Err(ConfigError::TimerAlreadyConfigured)
        },
        None => match servo_prescaler(clock_hz, freq_hz as int) {
            Some(p) => Ok(TimerSetup { freq_hz, prescaler: p, top: top_value(clock_hz, p, freq_hz as int) as u16 }),
            None => Err(ConfigError::UnreachableFrequency),
        },
    }
}

/// At most one prescaler is the finest that fits.
pub proof fn lemma_finest_unique(clock_hz: int, p: Prescaler, q: Prescaler, freq_hz: int)
    requires
        finest_fit(clock_hz, p, freq_hz),
        finest_fit(clock_hz, q, freq_hz),
    ensures
        p == q,
{
    if p != q {
        if p.divisor_spec() < q.divisor_spec() {
            assert(finer(p, q));
        } else {
            assert(p.divisor_spec() != q.divisor_spec()) by {
                match p { _ => {} }
            }
            assert(finer(q, p));
        }
    }
}

/// The finest fitting prescaler is the one `servo_prescaler` names.
proof fn lemma_servo_prescaler(clock_hz: int, p: Prescaler, freq_hz: int)
    requires
        finest_fit(clock_hz, p, freq_hz),
    ensures
        servo_prescaler(clock_hz, freq_hz) == Some(p),
{
    let q = choose|q: Prescaler| #[trigger] finest_fit(clock_hz, q, freq_hz);
    lemma_finest_unique(clock_hz, p, q, freq_hz);
}

/// No prescaler is the finest fitting one when none fits.
proof fn lemma_no_servo_prescaler(clock_hz: int, freq_hz: int)
    requires
        !reachable(clock_hz, freq_hz),
    ensures
        servo_prescaler(clock_hz, freq_hz) is None,
{
    if exists|p: Prescaler| #[trigger] finest_fit(clock_hz, p, freq_hz) {
        let p = choose|p: Prescaler| #[trigger] finest_fit(clock_hz, p, freq_hz);
        assert(top_fits(clock_hz, p, freq_hz));
    }
}

/// Two channels of one timer bound at the same frequency get the same
/// prescaler and TOP; a channel asking for another frequency is refused.
pub proof fn lemma_timer_shared(clock_hz: int, freq_hz: u32, other_hz: u32)
    requires
        next_setup(clock_hz, None, freq_hz) is Ok,
    ensures
        ({
            let first = next_setup(clock_hz, None, freq_hz)->Ok_0;
            &&& next_setup(clock_hz, Some(first), freq_hz) == Ok::<TimerSetup, ConfigError>(first)
            &&& other_hz != freq_hz ==> next_setup(clock_hz, Some(first), other_hz)
                == Err::<TimerSetup, ConfigError>(ConfigError::TimerAlreadyConfigured)
        }),
{
}

/// The owner of one timer. The first binding fixes the timer's frequency;
/// later ones must ask for the same frequency.
pub struct ServoTimer<TC: ServoTC> {
    tc: TC,
    clock_hz: u32,
    setup: Option<TimerSetup>,
    bound_a: bool,
    bound_b: bool,
    bound_c: bool,
}

impl<TC: ServoTC> ServoTimer<TC> {
    pub closed spec fn clock_spec(&self) -> u32 {
        self.clock_hz
    }

    pub closed spec fn setup_spec(&self) -> Option<TimerSetup> {
        self.setup
    }

    /// Whether a binding was made for channel `c`.
    pub closed spec fn bound_spec(&self, c: ChannelId) -> bool {
        match c {
            ChannelId::A => self.bound_a,
            ChannelId::B => self.bound_b,
            ChannelId::C => self.bound_c,
        }
    }

    /// Whether a binding was made for channel `c`.
    pub fn is_bound(&self, c: ChannelId) -> (r: bool)
        ensures
            r == self.bound_spec(c),
    {
        match c {
            ChannelId::A => self.bound_a,
            ChannelId::B => self.bound_b,
            ChannelId::C => self.bound_c,
        }
    }

    /// A set-up timer runs at the finest prescaler that reaches its
    /// frequency, with the TOP value for it.
    pub open spec fn wf(&self) -> bool {
        self.setup_spec() matches Some(s) ==> {
            &&& finest_fit(self.clock_spec() as int, s.prescaler, s.freq_hz as int)
            &&& s.top == top_value(self.clock_spec() as int, s.prescaler, s.freq_hz as int)
        }
    }

    /// A timer not yet set up, counting a clock of `clock_hz`.
    pub fn new(tc: TC, clock_hz: u32) -> (r: Self)
        ensures
            r.clock_spec() == clock_hz,
            r.setup_spec() is None,
            forall|c: ChannelId| !r.bound_spec(c),
            r.wf(),
    {
        ServoTimer { tc, clock_hz, setup: None, bound_a: false, bound_b: false, bound_c: false }
    }

    pub fn clock_hz(&self) -> (r: u32)
        ensures
            r == self.clock_spec(),
    {
        self.clock_hz
    }

    pub fn setup(&self) -> (r: Option<TimerSetup>)
        ensures
            r == self.setup_spec(),
    {
        self.setup
    }

    /// Binds `pin` as a servo output of this timer at `freq_hz`, with the
    /// servo's pulse running from `pulse_min_us` to `pulse_max_us`. The first
    /// binding picks the finest prescaler that reaches the frequency and
    /// returns the operation that sets up the timer; later bindings must ask
    /// for the same frequency and share its prescaler and TOP. A channel is
    /// bound at most once.
    pub fn bind<P: ServoPin<TC>>(&mut self, pin: P, freq_hz: u32, pulse_min_us: u32, pulse_max_us: u32) -> (r: Result<(ServoBinding, Option<RegisterOp>), ConfigError>)
        requires
            old(self).wf(),
        ensures
            final(self).wf(),
            final(self).clock_spec() == old(self).clock_spec(),
            r is Err ==> final(self).setup_spec() == old(self).setup_spec(),
            forall|c: ChannelId| #[trigger] final(self).bound_spec(c)
                == (old(self).bound_spec(c) || (r is Ok && c == P::channel_spec())),
            old(self).bound_spec(P::channel_spec()) ==>
                r == Err::<(ServoBinding, Option<RegisterOp>), ConfigError>(ConfigError::ChannelInUse),
            !old(self).bound_spec(P::channel_spec()) ==> match next_setup(old(self).clock_spec() as int, old(self).setup_spec(), freq_hz) {
                Ok(st) => {
                    &&& r matches Ok((b, op))
                    &&& final(self).setup_spec() == Some(st)
                    &&& b.config_spec().prescaler == st.prescaler
                    &&& b.config_spec().top == st.top
                    &&& b.tick_ps_spec() == tick_ps_of(old(self).clock_spec() as int, st.prescaler)
                    &&& op == if old(self).setup_spec() is None {
                        Some(RegisterOp::ApplyTiming { timer: TC::timer_spec(), prescaler: st.prescaler, top: st.top })
                    } else {
                        None
                    }
                },
                Err(e) => r == Err::<(ServoBinding, Option<RegisterOp>), ConfigError>(e)
                    && final(self).setup_spec() == old(self).setup_spec(),
            },
            r matches Ok((b, _)) ==> {
                &&& b.wf()
                &&& b.capability_spec().timer_spec() == TC::timer_spec()
                &&& b.capability_spec().channel_spec() == P::channel_spec()
                &&& b.capability_spec().pin_spec() == P::pin_spec()
                &&& b.config_spec().compare == 0
                &&& !b.enabled_spec()
                &&& b.pulse_min_spec() == pulse_min_us
                &&& b.pulse_max_spec() == pulse_max_us
            },
    {
        let ch = P::channel_id();
        if self.is_bound(ch) {
            return Err(ConfigError::ChannelInUse);
        }
        let (prescaler, top, op) = match self.setup {
            Some(s) => {
                if s.freq_hz != freq_hz {
                    return Err(ConfigError::TimerAlreadyConfigured);
                }
                proof {
                    if self.clock_hz == 0 {
                        crate::timing::lemma_round_div_nonpos(0, s.prescaler.divisor_spec() * s.freq_hz);
                    }
                }
                (s.prescaler, s.top, None)
            },
            None => {
                let p = match pick_prescaler(self.clock_hz, freq_hz) {
                    Ok(p) => p,
                    Err(_) => {
                        proof { lemma_no_servo_prescaler(self.clock_hz as int, freq_hz as int); }
                        return Err(ConfigError::UnreachableFrequency);
                    },
                };
                let top = match compute_top(self.clock_hz, p, freq_hz) {
                    Ok(t) => t,
                    Err(_) => return Err(ConfigError::UnreachableFrequency),
                };
                proof { lemma_servo_prescaler(self.clock_hz as int, p, freq_hz as int); }
                (p, top, Some(RegisterOp::ApplyTiming { timer: TC::timer_id(), prescaler: p, top }))
            },
        };
        proof {
            if self.clock_hz == 0 {
                let n = prescaler.divisor_spec();
                assert(top_fits(0, prescaler, freq_hz as int));
                assert(n * freq_hz > 0) by (nonlinear_arith)
                    requires n >= 1, freq_hz >= 1;
                crate::timing::lemma_round_div_nonpos(0, n * freq_hz);
            }
        }
        let tick = tick_ps(self.clock_hz, prescaler);
        self.setup = Some(TimerSetup { freq_hz, prescaler, top });
        match ch {
            ChannelId::A => self.bound_a = true,
            ChannelId::B => self.bound_b = true,
            ChannelId::C => self.bound_c = true,
        }
        let binding = ServoBinding {
            cap: Capability::of::<TC, P>(pin),
            config: PwmTimingConfig { prescaler, top, compare: 0 },
            enabled: false,
            pulse_min_us,
            pulse_max_us,
            tick_ps: tick,
        };
        Ok((binding, op))
    }
}

/// Length of a timer tick in picoseconds with prescaler `p`, rounded to
/// the nearest one.
fn tick_ps(clock_hz: u32, p: Prescaler) -> (r: u64)
    requires
        clock_hz > 0,
    ensures
        r == tick_ps_of(clock_hz as int, p),
        r > 0,
{
    proof {
        let n = p.divisor_spec() * 1_000_000_000_000;
        crate::timing::lemma_round_div(n, clock_hz as int);
        let q = crate::timing::round_div(n, clock_hz as int);
        assert(q > 0) by (nonlinear_arith)
            requires 2 * n < 2 * clock_hz * q + clock_hz, n >= 1_000_000_000_000, 0 < clock_hz <= 0xffff_ffff;
    }
    let n: u64 = p.divisor() as u64 * 1_000_000_000_000;
    (2 * n + clock_hz as u64) / (2 * clock_hz as u64)
}

/// A servo on one compare channel of a timer that has been set up.
pub struct ServoBinding {
    cap: Capability,
    config: PwmTimingConfig,
    enabled: bool,
    pulse_min_us: u32,
    pulse_max_us: u32,
    tick_ps: u64,
}

impl ServoBinding {
    pub closed spec fn capability_spec(&self) -> Capability {
        self.cap
    }

    pub closed spec fn config_spec(&self) -> PwmTimingConfig {
        self.config
    }

    pub closed spec fn enabled_spec(&self) -> bool {
        self.enabled
    }

    pub closed spec fn pulse_min_spec(&self) -> u32 {
        self.pulse_min_us
    }

    pub closed spec fn pulse_max_spec(&self) -> u32 {
        self.pulse_max_us
    }

    pub closed spec fn tick_ps_spec(&self) -> u64 {
        self.tick_ps
    }

    /// A binding holds a wired triple and a valid configuration.
    pub open spec fn wf(&self) -> bool {
        &&& self.capability_spec().wf()
        &&& self.config_spec().wf()
        &&& self.tick_ps_spec() > 0
    }

    /// Everything but the enabled flag and the compare value is the same.
    pub open spec fn same_setup(&self, other: &ServoBinding) -> bool {
        &&& self.capability_spec() == other.capability_spec()
        &&& self.config_spec().prescaler == other.config_spec().prescaler
        &&& self.config_spec().top == other.config_spec().top
        &&& self.pulse_min_spec() == other.pulse_min_spec()
        &&& self.pulse_max_spec() == other.pulse_max_spec()
        &&& self.tick_ps_spec() == other.tick_ps_spec()
    }

    /// Starts driving the pin; enabling twice leaves it enabled.
    pub fn enable(&mut self) -> (r: RegisterOp)
        ensures
            final(self).same_setup(old(self)),
            final(self).config_spec() == old(self).config_spec(),
            final(self).enabled_spec(),
            r == (RegisterOp::SetChannelMode {
                timer: old(self).capability_spec().timer_spec(),
                channel: old(self).capability_spec().channel_spec(),
                enabled: true,
            }),
    {
        self.enabled = true;
        RegisterOp::SetChannelMode { timer: self.cap.timer(), channel: self.cap.channel(), enabled: true }
    }

    /// Stops driving the pin.
    pub fn disable(&mut self) -> (r: RegisterOp)
        ensures
            final(self).same_setup(old(self)),
            final(self).config_spec() == old(self).config_spec(),
            !final(self).enabled_spec(),
            r == (RegisterOp::SetChannelMode {
                timer: old(self).capability_spec().timer_spec(),
                channel: old(self).capability_spec().channel_spec(),
                enabled: false,
            }),
    {
        self.enabled = false;
        RegisterOp::SetChannelMode { timer: self.cap.timer(), channel: self.cap.channel(), enabled: false }
    }

    /// Moves the servo to `angle_mdeg` millidegrees (clamped to `[0, 180]`
    /// degrees). Returns the compare write, or nothing when the compare
    /// value does not change.
    pub fn set_angle(&mut self, angle_mdeg: i32) -> (r: Option<RegisterOp>)
        requires
            old(self).wf(),
        ensures
            final(self).wf(),
            final(self).same_setup(old(self)),
            final(self).enabled_spec() == old(self).enabled_spec(),
            final(self).config_spec().compare == ticks_of(
                angle_mdeg as int,
                old(self).config_spec().top as int,
                old(self).pulse_min_spec() as int,
                old(self).pulse_max_spec() as int,
                old(self).tick_ps_spec() as int,
            ),
            r == if final(self).config_spec().compare == old(self).config_spec().compare {
                None
            } else {
                Some(RegisterOp::SetCompare {
                    timer: old(self).capability_spec().timer_spec(),
                    channel: old(self).capability_spec().channel_spec(),
                    value: final(self).config_spec().compare,
                })
            },
    {
        let value = angle_to_ticks(angle_mdeg, self.config.top, self.pulse_min_us, self.pulse_max_us, self.tick_ps);
        if value == self.config.compare {
            return None;
        }
        self.config.compare = value;
        Some(RegisterOp::SetCompare { timer: self.cap.timer(), channel: self.cap.channel(), value })
    }

    /// The angle in millidegrees that the current compare value stands for.
    pub fn angle(&self) -> (r: u32)
        ensures
            r == angle_of_ticks(
                self.config_spec().compare as int,
                self.config_spec().top as int,
                self.pulse_min_spec() as int,
                self.pulse_max_spec() as int,
                self.tick_ps_spec() as int,
            ),
    {
        ticks_to_angle(self.config.compare, self.config.top, self.pulse_min_us, self.pulse_max_us, self.tick_ps)
    }

    pub fn config(&self) -> (r: PwmTimingConfig)
        ensures
            r == self.config_spec(),
    {
        self.config
    }

    pub fn is_enabled(&self) -> (r: bool)
        ensures
            r == self.enabled_spec(),
    {
        self.enabled
    }

    pub fn timer(&self) -> (r: TimerId)
        ensures
            r == self.capability_spec().timer_spec(),
    {
        self.cap.timer()
    }

    pub fn channel(&self) -> (r: ChannelId)
        ensures
            r == self.capability_spec().channel_spec(),
    {
        self.cap.channel()
    }

    pub fn pin(&self) -> (r: PinId)
        ensures
            r == self.capability_spec().pin_spec(),
    {
        self.cap.pin()
    }

    pub fn tick_ps(&self) -> (r: u64)
        ensures
            r == self.tick_ps_spec(),
    {
        self.tick_ps
    }
}

} // verus!
