//! Register values for a 16-bit timer in fast PWM mode 14 (TOP in ICRn),
//! non-inverting compare outputs.
use vstd::prelude::*;
use crate::binding::RegisterOp;
use crate::registry::ChannelId;
use crate::timing::Prescaler;

verus! {

/// A control or data register of a 16-bit timer.
#[derive(Clone, Copy, Debug, PartialEq, Eq, Structural)]
pub enum Register {
    TccrA,
    TccrB,
    TccrC,
    Icr,
    Ocr(ChannelId),
}

/// One register write.
#[derive(Clone, Copy, Debug, PartialEq, Eq, Structural)]
pub struct RegisterWrite {
    pub reg: Register,
    pub value: u16,
}

/// WGMn1:0 of mode 14, in TCCRnA.
pub const WGM_LOW: u8 = 0b10;
/// WGMn3:2 of mode 14, placed at bits 4:3 of TCCRnB.
pub const WGM_HIGH: u8 = 0b1_1000;
/// Compare output mode "clear on match, set at BOTTOM".
pub const COM_NON_INVERTING: u8 = 0b10;

pub open spec fn cs_spec(p: Prescaler) -> u8 {
    match p {
        Prescaler::Direct => 1,
        Prescaler::Prescale8 => 2,
        Prescaler::Prescale64 => 3,
        Prescaler::Prescale256 => 4,
        Prescaler::Prescale1024 => 5,
    }
}

/// Clock-select bits CSn2:0 for a prescaler.
pub fn cs_bits(p: Prescaler) -> (r: u8)
    ensures
        r == cs_spec(p),
{
    match p {
        Prescaler::Direct => 1,
        Prescaler::Prescale8 => 2,
        Prescaler::Prescale64 => 3,
        Prescaler::Prescale256 => 4,
        Prescaler::Prescale1024 => 5,
    }
}

pub open spec fn com_shift_spec(c: ChannelId) -> u8 {
    match c {
        ChannelId::A => 6,
        ChannelId::B => 4,
        ChannelId::C => 2,
    }
}

/// Position of a channel's COMnx1:0 bits in TCCRnA.
pub fn com_shift(c: ChannelId) -> (r: u8)
    ensures
        r == com_shift_spec(c),
{
    match c {
        ChannelId::A => 6,
        ChannelId::B => 4,
        ChannelId::C => 2,
    }
}

/// TCCRnA with the compare output mode bits of `channel` replaced.
pub open spec fn tccra_spec(current: u8, channel: ChannelId, enabled: bool) -> u8 {
    let sh = com_shift_spec(channel);
    let mode: u8 = if enabled { COM_NON_INVERTING } else { 0 };
    (current & !(3u8 << sh)) | (mode << sh)
}

/// TCCRnA with the compare output mode of `channel` set to non-inverting
/// when `enabled` and to disconnected otherwise; the other bits are kept.
pub fn tccra_with_channel(current: u8, channel: ChannelId, enabled: bool) -> (r: u8)
    ensures
        r == tccra_spec(current, channel, enabled),
        r & !(3u8 << com_shift_spec(channel)) == current & !(3u8 << com_shift_spec(channel)),
        (r >> com_shift_spec(channel)) & 3 == if enabled { COM_NON_INVERTING } else { 0 },
{
    let sh = com_shift(channel);
    let mode: u8 = if enabled { COM_NON_INVERTING } else { 0 };
    let r = (current & !(3u8 << sh)) | (mode << sh);
    assert(r & !(3u8 << sh) == current & !(3u8 << sh) && (r >> sh) & 3 == mode) by (bit_vector)
        requires
            r == (current & !(3u8 << sh)) | (mode << sh),
            sh == 2 || sh == 4 || sh == 6,
            mode <= 3;
    r
}

/// TCCRnB for mode 14 with the prescaler's clock select.
pub fn tccrb_value(p: Prescaler) -> (r: u8)
    ensures
        r == WGM_HIGH | cs_spec(p),
        r & 7 == cs_spec(p),
        (r >> 3) & 3 == 3,
{
    let cs = cs_bits(p);
    let r = WGM_HIGH | cs;
    assert(r & 7 == cs && (r >> 3) & 3 == 3) by (bit_vector)
        requires
            r == 0b1_1000u8 | cs,
            cs <= 5;
    r
}

/// The writes that set up a timer, in order.
pub open spec fn timing_seq(p: Prescaler, top: u16) -> Seq<RegisterWrite> {
    seq![
        RegisterWrite { reg: Register::TccrA, value: 0 },
        RegisterWrite { reg: Register::TccrB, value: 0 },
        RegisterWrite { reg: Register::TccrC, value: 0 },
        RegisterWrite { reg: Register::TccrA, value: WGM_LOW as u16 },
        RegisterWrite { reg: Register::Icr, value: top },
        RegisterWrite { reg: Register::TccrB, value: (WGM_HIGH | cs_spec(p)) as u16 },
    ]
}

/// The writes that set up a timer: stop it and clear its modes, select
/// mode 14, set TOP, then start the clock with the prescaler.
pub fn timing_writes(p: Prescaler, top: u16) -> (r: Vec<RegisterWrite>)
    ensures
        r@ == timing_seq(p, top),
{
    let b = tccrb_value(p);
    vec![
        RegisterWrite { reg: Register::TccrA, value: 0 },
        RegisterWrite { reg: Register::TccrB, value: 0 },
        RegisterWrite { reg: Register::TccrC, value: 0 },
        RegisterWrite { reg: Register::TccrA, value: WGM_LOW as u16 },
        RegisterWrite { reg: Register::Icr, value: top },
        RegisterWrite { reg: Register::TccrB, value: b as u16 },
    ]
}

/// The register writes that carry out `op`, given the timer's current
/// TCCRnA value `tccra`.
pub fn op_writes(op: RegisterOp, tccra: u8) -> (r: Vec<RegisterWrite>)
    ensures
        r@ == match op {
            RegisterOp::ApplyTiming { prescaler, top, .. } => timing_seq(prescaler, top),
            RegisterOp::SetCompare { channel, value, .. } => seq![RegisterWrite { reg: Register::Ocr(channel), value }],
            RegisterOp::SetChannelMode { channel, enabled, .. } => seq![
                RegisterWrite { reg: Register::TccrA, value: tccra_spec(tccra, channel, enabled) as u16 },
            ],
        },
{
    match op {
        RegisterOp::ApplyTiming { prescaler, top, .. } => timing_writes(prescaler, top),
        RegisterOp::SetCompare { channel, value, .. } => vec![RegisterWrite { reg: Register::Ocr(channel), value }],
        RegisterOp::SetChannelMode { channel, enabled, .. } => {
            let v = tccra_with_channel(tccra, channel, enabled);
            vec![RegisterWrite { reg: Register::TccrA, value: v as u16 }]
        },
    }
}

} // verus!
