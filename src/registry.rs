//! Which (timer, compare channel, pin) triples the board wires together.
//!
//! A pin marker type implements `ServoPin<TC>` only for the timer whose
//! compare output it carries, so a binding for an unwired triple does not
//! type-check.
use vstd::prelude::*;
use crate::sealed::Sealed;

verus! {

/// A 16-bit timer/counter able to drive a servo.
#[derive(Clone, Copy, Debug, PartialEq, Eq, Structural)]
pub enum TimerId {
    T1,
    T3,
    T4,
    T5,
}

/// An output-compare channel of a timer.
#[derive(Clone, Copy, Debug, PartialEq, Eq, Structural)]
pub enum ChannelId {
    A,
    B,
    C,
}

/// A board pin that carries a 16-bit timer's compare output.
#[derive(Clone, Copy, Debug, PartialEq, Eq, Structural)]
pub enum PinId {
    /// Port PB5.
    D11,
    /// Port PB6.
    D12,
    /// Port PB7.
    D13,
    /// Port PE3.
    D5,
    /// Port PE4.
    D2,
    /// Port PE5.
    D3,
    /// Port PH3.
    D6,
    /// Port PH4.
    D7,
    /// Port PH5.
    D8,
    /// Port PL3.
    D46,
    /// Port PL4.
    D45,
    /// Port PL5.
    D44,
}

/// The wiring of compare outputs to pins.
pub open spec fn wired(timer: TimerId, channel: ChannelId, pin: PinId) -> bool {
    match pin {
        PinId::D11 => timer == TimerId::T1 && channel == ChannelId::A,
        PinId::D12 => timer == TimerId::T1 && channel == ChannelId::B,
        PinId::D13 => timer == TimerId::T1 && channel == ChannelId::C,
        PinId::D5 => timer == TimerId::T3 && channel == ChannelId::A,
        PinId::D2 => timer == TimerId::T3 && channel == ChannelId::B,
        PinId::D3 => timer == TimerId::T3 && channel == ChannelId::C,
        PinId::D6 => timer == TimerId::T4 && channel == ChannelId::A,
        PinId::D7 => timer == TimerId::T4 && channel == ChannelId::B,
        PinId::D8 => timer == TimerId::T4 && channel == ChannelId::C,
        PinId::D46 => timer == TimerId::T5 && channel == ChannelId::A,
        PinId::D45 => timer == TimerId::T5 && channel == ChannelId::B,
        PinId::D44 => timer == TimerId::T5 && channel == ChannelId::C,
    }
}

/// Whether `pin` carries compare output `channel` of `timer`.
pub fn is_valid(timer: TimerId, channel: ChannelId, pin: PinId) -> (r: bool)
    ensures
        r == wired(timer, channel, pin),
{
    let (t, c) = wiring_of(pin);
    t == timer && c == channel
}

/// The timer and channel whose compare output `pin` carries.
pub fn wiring_of(pin: PinId) -> (r: (TimerId, ChannelId))
    ensures
        wired(r.0, r.1, pin),
{
    match pin {
        PinId::D11 => (TimerId::T1, ChannelId::A),
        PinId::D12 => (TimerId::T1, ChannelId::B),
        PinId::D13 => (TimerId::T1, ChannelId::C),
        PinId::D5 => (TimerId::T3, ChannelId::A),
        PinId::D2 => (TimerId::T3, ChannelId::B),
        PinId::D3 => (TimerId::T3, ChannelId::C),
        PinId::D6 => (TimerId::T4, ChannelId::A),
        PinId::D7 => (TimerId::T4, ChannelId::B),
        PinId::D8 => (TimerId::T4, ChannelId::C),
        PinId::D46 => (TimerId::T5, ChannelId::A),
        PinId::D45 => (TimerId::T5, ChannelId::B),
        PinId::D44 => (TimerId::T5, ChannelId::C),
    }
}

/// Timer/counter with a 16-bit counter register.
pub trait ServoTC: Sealed {
    spec fn timer_spec() -> TimerId;

    fn timer_id() -> (r: TimerId)
        ensures
            r == Self::timer_spec(),
    ;
}

/// Pin whose compare output comes from timer `TC`.
pub trait ServoPin<TC: ServoTC>: Sealed {
    spec fn channel_spec() -> ChannelId;

    spec fn pin_spec() -> PinId;

    fn channel_id() -> (r: ChannelId)
        ensures
            r == Self::channel_spec(),
            wired(TC::timer_spec(), r, Self::pin_spec()),
    ;

    fn pin_id() -> (r: PinId)
        ensures
            r == Self::pin_spec(),
    ;
}

/// Timer/counter 1.
pub struct Tc1 {
    _private: (),
}

impl Tc1 {
    /// Takes hold of the timer.
    pub fn take() -> (r: Self) {
        Tc1 { _private: () }
    }
}

impl Sealed for Tc1 {}

impl ServoTC for Tc1 {
    open spec fn timer_spec() -> TimerId {
        TimerId::T1
    }

    fn timer_id() -> (r: TimerId) {
        TimerId::T1
    }
}

/// Timer/counter 3.
pub struct Tc3 {
    _private: (),
}

impl Tc3 {
    /// Takes hold of the timer.
    pub fn take() -> (r: Self) {
        Tc3 { _private: () }
    }
}

impl Sealed for Tc3 {}

impl ServoTC for Tc3 {
    open spec fn timer_spec() -> TimerId {
        TimerId::T3
    }

    fn timer_id() -> (r: TimerId) {
        TimerId::T3
    }
}

/// Timer/counter 4.
pub struct Tc4 {
    _private: (),
}

impl Tc4 {
    /// Takes hold of the timer.
    pub fn take() -> (r: Self) {
        Tc4 { _private: () }
    }
}

impl Sealed for Tc4 {}

impl ServoTC for Tc4 {
    open spec fn timer_spec() -> TimerId {
        TimerId::T4
    }

    fn timer_id() -> (r: TimerId) {
        TimerId::T4
    }
}

/// Timer/counter 5.
pub struct Tc5 {
    _private: (),
}

impl Tc5 {
    /// Takes hold of the timer.
    pub fn take() -> (r: Self) {
        Tc5 { _private: () }
    }
}

impl Sealed for Tc5 {}

impl ServoTC for Tc5 {
    open spec fn timer_spec() -> TimerId {
        TimerId::T5
    }

    fn timer_id() -> (r: TimerId) {
        TimerId::T5
    }
}

/// Pin 11 (PB5), compare output A of timer 1.
pub struct PinD11 {
    _private: (),
}

impl PinD11 {
    /// Takes hold of the pin.
    pub fn take() -> (r: Self) {
        PinD11 { _private: () }
    }
}

impl Sealed for PinD11 {}

impl ServoPin<Tc1> for PinD11 {
    open spec fn channel_spec() -> ChannelId {
        ChannelId::A
    }

    open spec fn pin_spec() -> PinId {
        PinId::D11
    }

    fn channel_id() -> (r: ChannelId) {
        ChannelId::A
    }

    fn pin_id() -> (r: PinId) {
        PinId::D11
    }
}

/// Pin 12 (PB6), compare output B of timer 1.
pub struct PinD12 {
    _private: (),
}

impl PinD12 {
    /// Takes hold of the pin.
    pub fn take() -> (r: Self) {
        PinD12 { _private: () }
    }
}

impl Sealed for PinD12 {}

impl ServoPin<Tc1> for PinD12 {
    open spec fn channel_spec() -> ChannelId {
        ChannelId::B
    }

    open spec fn pin_spec() -> PinId {
        PinId::D12
    }

    fn channel_id() -> (r: ChannelId) {
        ChannelId::B
    }

    fn pin_id() -> (r: PinId) {
        PinId::D12
    }
}

/// Pin 13 (PB7), compare output C of timer 1.
pub struct PinD13 {
    _private: (),
}

impl PinD13 {
    /// Takes hold of the pin.
    pub fn take() -> (r: Self) {
        PinD13 { _private: () }
    }
}

impl Sealed for PinD13 {}

impl ServoPin<Tc1> for PinD13 {
    open spec fn channel_spec() -> ChannelId {
        ChannelId::C
    }

    open spec fn pin_spec() -> PinId {
        PinId::D13
    }

    fn channel_id() -> (r: ChannelId) {
        ChannelId::C
    }

    fn pin_id() -> (r: PinId) {
        PinId::D13
    }
}

/// Pin 5 (PE3), compare output A of timer 3.
pub struct PinD5 {
    _private: (),
}

impl PinD5 {
    /// Takes hold of the pin.
    pub fn take() -> (r: Self) {
        PinD5 { _private: () }
    }
}

impl Sealed for PinD5 {}

impl ServoPin<Tc3> for PinD5 {
    open spec fn channel_spec() -> ChannelId {
        ChannelId::A
    }

    open spec fn pin_spec() -> PinId {
        PinId::D5
    }

    fn channel_id() -> (r: ChannelId) {
        ChannelId::A
    }

    fn pin_id() -> (r: PinId) {
        PinId::D5
    }
}

/// Pin 2 (PE4), compare output B of timer 3.
pub struct PinD2 {
    _private: (),
}

impl PinD2 {
    /// Takes hold of the pin.
    pub fn take() -> (r: Self) {
        PinD2 { _private: () }
    }
}

impl Sealed for PinD2 {}

impl ServoPin<Tc3> for PinD2 {
    open spec fn channel_spec() -> ChannelId {
        ChannelId::B
    }

    open spec fn pin_spec() -> PinId {
        PinId::D2
    }

    fn channel_id() -> (r: ChannelId) {
        ChannelId::B
    }

    fn pin_id() -> (r: PinId) {
        PinId::D2
    }
}

/// Pin 3 (PE5), compare output C of timer 3.
pub struct PinD3 {
    _private: (),
}

impl PinD3 {
    /// Takes hold of the pin.
    pub fn take() -> (r: Self) {
        PinD3 { _private: () }
    }
}

impl Sealed for PinD3 {}

impl ServoPin<Tc3> for PinD3 {
    open spec fn channel_spec() -> ChannelId {
        ChannelId::C
    }

    open spec fn pin_spec() -> PinId {
        PinId::D3
    }

    fn channel_id() -> (r: ChannelId) {
        ChannelId::C
    }

    fn pin_id() -> (r: PinId) {
        PinId::D3
    }
}

/// Pin 6 (PH3), compare output A of timer 4.
pub struct PinD6 {
    _private: (),
}

impl PinD6 {
    /// Takes hold of the pin.
    pub fn take() -> (r: Self) {
        PinD6 { _private: () }
    }
}

impl Sealed for PinD6 {}

impl ServoPin<Tc4> for PinD6 {
    open spec fn channel_spec() -> ChannelId {
        ChannelId::A
    }

    open spec fn pin_spec() -> PinId {
        PinId::D6
    }

    fn channel_id() -> (r: ChannelId) {
        ChannelId::A
    }

    fn pin_id() -> (r: PinId) {
        PinId::D6
    }
}

/// Pin 7 (PH4), compare output B of timer 4.
pub struct PinD7 {
    _private: (),
}

impl PinD7 {
    /// Takes hold of the pin.
    pub fn take() -> (r: Self) {
        PinD7 { _private: () }
    }
}

impl Sealed for PinD7 {}

impl ServoPin<Tc4> for PinD7 {
    open spec fn channel_spec() -> ChannelId {
        ChannelId::B
    }

    open spec fn pin_spec() -> PinId {
        PinId::D7
    }

    fn channel_id() -> (r: ChannelId) {
        ChannelId::B
    }

    fn pin_id() -> (r: PinId) {
        PinId::D7
    }
}

/// Pin 8 (PH5), compare output C of timer 4.
pub struct PinD8 {
    _private: (),
}

impl PinD8 {
    /// Takes hold of the pin.
    pub fn take() -> (r: Self) {
        PinD8 { _private: () }
    }
}

impl Sealed for PinD8 {}

impl ServoPin<Tc4> for PinD8 {
    open spec fn channel_spec() -> ChannelId {
        ChannelId::C
    }

    open spec fn pin_spec() -> PinId {
        PinId::D8
    }

    fn channel_id() -> (r: ChannelId) {
        ChannelId::C
    }

    fn pin_id() -> (r: PinId) {
        PinId::D8
    }
}

/// Pin 46 (PL3), compare output A of timer 5.
pub struct PinD46 {
    _private: (),
}

impl PinD46 {
    /// Takes hold of the pin.
    pub fn take() -> (r: Self) {
        PinD46 { _private: () }
    }
}

impl Sealed for PinD46 {}

impl ServoPin<Tc5> for PinD46 {
    open spec fn channel_spec() -> ChannelId {
        ChannelId::A
    }

    open spec fn pin_spec() -> PinId {
        PinId::D46
    }

    fn channel_id() -> (r: ChannelId) {
        ChannelId::A
    }

    fn pin_id() -> (r: PinId) {
        PinId::D46
    }
}

/// Pin 45 (PL4), compare output B of timer 5.
pub struct PinD45 {
    _private: (),
}

impl PinD45 {
    /// Takes hold of the pin.
    pub fn take() -> (r: Self) {
        PinD45 { _private: () }
    }
}

impl Sealed for PinD45 {}

impl ServoPin<Tc5> for PinD45 {
    open spec fn channel_spec() -> ChannelId {
        ChannelId::B
    }

    open spec fn pin_spec() -> PinId {
        PinId::D45
    }

    fn channel_id() -> (r: ChannelId) {
        ChannelId::B
    }

    fn pin_id() -> (r: PinId) {
        PinId::D45
    }
}

/// Pin 44 (PL5), compare output C of timer 5.
pub struct PinD44 {
    _private: (),
}

impl PinD44 {
    /// Takes hold of the pin.
    pub fn take() -> (r: Self) {
        PinD44 { _private: () }
    }
}

impl Sealed for PinD44 {}

impl ServoPin<Tc5> for PinD44 {
    open spec fn channel_spec() -> ChannelId {
        ChannelId::C
    }

    open spec fn pin_spec() -> PinId {
        PinId::D44
    }

    fn channel_id() -> (r: ChannelId) {
        ChannelId::C
    }

    fn pin_id() -> (r: PinId) {
        PinId::D44
    }
}

/// Proof that a (timer, channel, pin) triple is wired on the board. It is
/// made only from a pin marker and the timer type it belongs to.
pub struct Capability {
    timer: TimerId,
    channel: ChannelId,
    pin: PinId,
}

impl Capability {
    pub closed spec fn timer_spec(&self) -> TimerId {
        self.timer
    }

    pub closed spec fn channel_spec(&self) -> ChannelId {
        self.channel
    }

    pub closed spec fn pin_spec(&self) -> PinId {
        self.pin
    }

    /// Every capability names a wired triple.
    pub open spec fn wf(&self) -> bool {
        wired(self.timer_spec(), self.channel_spec(), self.pin_spec())
    }

    /// The capability for `pin` on timer `TC`; the pin is consumed.
    pub fn of<TC: ServoTC, P: ServoPin<TC>>(pin: P) -> (r: Capability)
        ensures
            r.wf(),
            r.timer_spec() == TC::timer_spec(),
            r.channel_spec() == P::channel_spec(),
            r.pin_spec() == P::pin_spec(),
    {
        Capability { timer: TC::timer_id(), channel: P::channel_id(), pin: P::pin_id() }
    }

    pub fn timer(&self) -> (r: TimerId)
        ensures
            r == self.timer_spec(),
    {
        self.timer
    }

    pub fn channel(&self) -> (r: ChannelId)
        ensures
            r == self.channel_spec(),
    {
        self.channel
    }

    pub fn pin(&self) -> (r: PinId)
        ensures
            r == self.pin_spec(),
    {
        self.pin
    }
}

} // verus!
