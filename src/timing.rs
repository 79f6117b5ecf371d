//! Frequency and duty-cycle arithmetic for 16-bit timers in fast PWM mode
//! with TOP held in the input capture register.
use vstd::prelude::*;
use vstd::arithmetic::div_mod::lemma_fundamental_div_mod;

verus! {

/// Clock divisor applied before the timer counter.
#[derive(Clone, Copy, Debug, PartialEq, Eq, Structural)]
pub enum Prescaler {
    Direct,
    Prescale8,
    Prescale64,
    Prescale256,
    Prescale1024,
}

/// Failure of a timing computation.
#[derive(Clone, Copy, Debug, PartialEq, Eq, Structural)]
pub enum TimingError {
    /// The TOP value for this prescaler does not fit in `1..=65535`.
    OutOfRange,
    /// No prescaler of the set gives a TOP value in `1..=65535`.
    Unreachable,
}

impl Prescaler {
    pub open spec fn divisor_spec(self) -> int {
        match self {
            Prescaler::Direct => 1,
            Prescaler::Prescale8 => 8,
            Prescaler::Prescale64 => 64,
            Prescaler::Prescale256 => 256,
            Prescaler::Prescale1024 => 1024,
        }
    }

    /// The clock divisor.
    pub fn divisor(self) -> (r: u32)
        ensures
            r == self.divisor_spec(),
    {
        match self {
            Prescaler::Direct => 1,
            Prescaler::Prescale8 => 8,
            Prescaler::Prescale64 => 64,
            Prescaler::Prescale256 => 256,
            Prescaler::Prescale1024 => 1024,
        }
    }
}

/// `a / d` rounded to the nearest integer, halves upward.
pub open spec fn round_div(a: int, d: int) -> int {
    (2 * a + d) / (2 * d)
}

/// The TOP value that makes the PWM period closest to `1 / freq_hz`:
/// `round(clock_hz / (N * freq_hz)) - 1`.
pub open spec fn top_value(clock_hz: int, p: Prescaler, freq_hz: int) -> int {
    round_div(clock_hz, p.divisor_spec() * freq_hz) - 1
}

/// Whether a TOP register can hold the TOP value for this request.
pub open spec fn top_fits(clock_hz: int, p: Prescaler, freq_hz: int) -> bool {
    freq_hz > 0 && 1 <= top_value(clock_hz, p, freq_hz) <= 65535
}

/// TOP value for a PWM frequency of `freq_hz` with the clock divided by
/// `prescaler`, rounded to the nearest tick.
pub fn compute_top(clock_hz: u32, prescaler: Prescaler, freq_hz: u32) -> (r: Result<u16, TimingError>)
    ensures
        top_fits(clock_hz as int, prescaler, freq_hz as int) <==> r is Ok,
        r matches Ok(top) ==> top == top_value(clock_hz as int, prescaler, freq_hz as int),
        r matches Err(e) ==> e == TimingError::OutOfRange,
{
    if freq_hz == 0 {
        return Err(TimingError::OutOfRange);
    }
    let dv: u32 = prescaler.divisor();
    proof {
        assert(dv as int * freq_hz as int <= 1024 * 0xffff_ffff) by (nonlinear_arith)
            requires dv <= 1024, freq_hz <= 0xffff_ffff;
        assert(dv as int * freq_hz as int >= 1) by (nonlinear_arith)
            requires dv >= 1, freq_hz >= 1;
    }
    let d: u64 = dv as u64 * freq_hz as u64;
    let n: u64 = (2 * clock_hz as u64 + d) / (2 * d);
    if n < 2 || n > 65536 {
        Err(TimingError::OutOfRange)
    } else {
        Ok((n - 1) as u16)
    }
}

/// `round_div(x, d)` is within half of `d` of `x / d`:
/// `2·d·q - d <= 2·x < 2·d·q + d`.
pub proof fn lemma_round_div(x: int, d: int)
    requires
        d > 0,
    ensures
        2 * d * round_div(x, d) - d <= 2 * x,
        2 * x < 2 * d * round_div(x, d) + d,
{
    lemma_fundamental_div_mod(2 * x + d, 2 * d);
    let q = (2 * x + d) / (2 * d);
    let m = (2 * x + d) % (2 * d);
    assert(0 <= m < 2 * d);
    assert(2 * d * q == (2 * d) * q) by (nonlinear_arith);
}

/// The PWM period given by a representable TOP differs from the requested
/// one by at most half a timer tick: with `d = N·freq_hz`,
/// `|clock_hz - d·(TOP + 1)| <= d / 2`, so the produced frequency
/// `clock_hz / (N·(TOP + 1))` is within one tick's worth of `freq_hz`.
pub proof fn lemma_top_period_error(clock_hz: u32, prescaler: Prescaler, freq_hz: u32)
    requires
        top_fits(clock_hz as int, prescaler, freq_hz as int),
    ensures
        ({
            let d = prescaler.divisor_spec() * freq_hz;
            let periods = top_value(clock_hz as int, prescaler, freq_hz as int) + 1;
            &&& 2 * (clock_hz - d * periods) <= d
            &&& 2 * (d * periods - clock_hz) <= d
        }),
{
    let n = prescaler.divisor_spec();
    let d = n * freq_hz;
    assert(n * freq_hz > 0) by (nonlinear_arith)
        requires n >= 1, freq_hz >= 1;
    lemma_round_div(clock_hz as int, d);
    let q = round_div(clock_hz as int, d);
    assert(2 * d * q == 2 * (d * q)) by (nonlinear_arith);
}

/// `p` divides the clock less than `q`: it gives finer ticks.
pub open spec fn finer(p: Prescaler, q: Prescaler) -> bool {
    p.divisor_spec() < q.divisor_spec()
}

/// No prescaler finer than `p` fits, from the result for each prescaler
/// finer than `p` in turn.
proof fn lemma_none_finer(c: int, f: int, p: Prescaler)
    requires
        p.divisor_spec() > 1 ==> !top_fits(c, Prescaler::Direct, f),
        p.divisor_spec() > 8 ==> !top_fits(c, Prescaler::Prescale8, f),
        p.divisor_spec() > 64 ==> !top_fits(c, Prescaler::Prescale64, f),
        p.divisor_spec() > 256 ==> !top_fits(c, Prescaler::Prescale256, f),
    ensures
        forall|q: Prescaler| #[trigger] finer(q, p) ==> !top_fits(c, q, f),
{
    assert forall|q: Prescaler| #[trigger] finer(q, p) implies !top_fits(c, q, f) by {
        match q {
            Prescaler::Direct => {},
            Prescaler::Prescale8 => {},
            Prescaler::Prescale64 => {},
            Prescaler::Prescale256 => {},
            Prescaler::Prescale1024 => {},
        }
    }
}

/// `p` is the finest prescaler for which the TOP value fits.
pub open spec fn finest_fit(clock_hz: int, p: Prescaler, freq_hz: int) -> bool {
    &&& top_fits(clock_hz, p, freq_hz)
    &&& forall|q: Prescaler| #[trigger] finer(q, p) ==> !top_fits(clock_hz, q, freq_hz)
}

/// Whether some prescaler gives a TOP value that fits.
pub open spec fn reachable(clock_hz: int, freq_hz: int) -> bool {
    exists|q: Prescaler| #[trigger] top_fits(clock_hz, q, freq_hz)
}

/// The finest prescaler for which `compute_top` succeeds.
pub fn pick_prescaler(clock_hz: u32, freq_hz: u32) -> (r: Result<Prescaler, TimingError>)
    ensures
        r matches Ok(p) ==> finest_fit(clock_hz as int, p, freq_hz as int),
        r is Err <==> !reachable(clock_hz as int, freq_hz as int),
        r matches Err(e) ==> e == TimingError::Unreachable,
{
    let ghost c = clock_hz as int;
    let ghost f = freq_hz as int;
    if compute_top(clock_hz, Prescaler::Direct, freq_hz).is_ok() {
        proof { lemma_none_finer(c, f, Prescaler::Direct); }
        return Ok(Prescaler::Direct);
    }
    if compute_top(clock_hz, Prescaler::Prescale8, freq_hz).is_ok() {
        proof { lemma_none_finer(c, f, Prescaler::Prescale8); }
        return Ok(Prescaler::Prescale8);
    }
    if compute_top(clock_hz, Prescaler::Prescale64, freq_hz).is_ok() {
        proof { lemma_none_finer(c, f, Prescaler::Prescale64); }
        return Ok(Prescaler::Prescale64);
    }
    if compute_top(clock_hz, Prescaler::Prescale256, freq_hz).is_ok() {
        proof { lemma_none_finer(c, f, Prescaler::Prescale256); }
        return Ok(Prescaler::Prescale256);
    }
    if compute_top(clock_hz, Prescaler::Prescale1024, freq_hz).is_ok() {
        proof { lemma_none_finer(c, f, Prescaler::Prescale1024); }
        return Ok(Prescaler::Prescale1024);
    }
    assert forall|q: Prescaler| !#[trigger] top_fits(c, q, f) by {
        match q {
            Prescaler::Direct => {},
            Prescaler::Prescale8 => {},
            Prescaler::Prescale64 => {},
            Prescaler::Prescale256 => {},
            Prescaler::Prescale1024 => {},
        }
    }
    Err(TimingError::Unreachable)
}

/// Full servo travel in millidegrees.
pub const FULL_TRAVEL_MDEG: u32 = 180000;

/// An angle in millidegrees brought into `[0, 180000]`.
pub open spec fn clamp_angle(angle_mdeg: int) -> int {
    if angle_mdeg < 0 {
        0
    } else if angle_mdeg > 180000 {
        180000
    } else {
        angle_mdeg
    }
}

/// The pulse width in picoseconds for an angle, times 180: the width runs
/// linearly from `pulse_min_us` at 0 degrees to `pulse_max_us` at 180 degrees.
pub open spec fn pulse_x180(angle_mdeg: int, pulse_min_us: int, pulse_max_us: int) -> int {
    pulse_min_us * 180_000_000 + angle_mdeg * (pulse_max_us - pulse_min_us) * 1000
}

/// The compare value for an angle: the pulse width in ticks of `tick_ps`
/// picoseconds, rounded to the nearest tick, after clamping the angle to
/// `[0, 180]` degrees, and at most `top`.
pub open spec fn ticks_of(angle_mdeg: int, top: int, pulse_min_us: int, pulse_max_us: int, tick_ps: int) -> int {
    let t = round_div(pulse_x180(clamp_angle(angle_mdeg), pulse_min_us, pulse_max_us), 180 * tick_ps);
    if t > top { top } else { t }
}

/// The angle in millidegrees whose pulse width is closest to `p180 / 180`
/// picoseconds, within `[0, 180000]`.
pub open spec fn angle_of(p180: int, pulse_min_us: int, pulse_max_us: int) -> int {
    let base = pulse_min_us * 180_000_000;
    if pulse_max_us > pulse_min_us {
        clamp_angle(round_div(p180 - base, (pulse_max_us - pulse_min_us) * 1000))
    } else if pulse_max_us < pulse_min_us {
        clamp_angle(round_div(base - p180, (pulse_min_us - pulse_max_us) * 1000))
    } else {
        0
    }
}

/// The angle for a compare value (taken as at most `top`) with ticks of
/// `tick_ps` picoseconds.
pub open spec fn angle_of_ticks(ticks: int, top: int, pulse_min_us: int, pulse_max_us: int, tick_ps: int) -> int {
    let t = if ticks > top { top } else { ticks };
    angle_of(t * tick_ps * 180, pulse_min_us, pulse_max_us)
}

/// Compare value for `angle_mdeg` millidegrees, with the servo's pulse
/// running from `pulse_min_us` (0 degrees) to `pulse_max_us` (180 degrees)
/// and timer ticks of `tick_ps` picoseconds. Angles outside `[0, 180]`
/// degrees are clamped; the result is clamped to `top`.
pub fn angle_to_ticks(angle_mdeg: i32, top: u16, pulse_min_us: u32, pulse_max_us: u32, tick_ps: u64) -> (r: u16)
    requires
        tick_ps > 0,
    ensures
        r == ticks_of(angle_mdeg as int, top as int, pulse_min_us as int, pulse_max_us as int, tick_ps as int),
{
    let a: u64 = if angle_mdeg < 0 {
        0
    } else if angle_mdeg > 180000 {
        180000
    } else {
        angle_mdeg as u64
    };
    let lo: u64 = pulse_min_us as u64;
    let hi: u64 = pulse_max_us as u64;
    proof {
        assert(lo * 180_000_000 <= 0xffff_ffff * 180_000_000) by (nonlinear_arith)
            requires lo <= 0xffff_ffff;
    }
    let base: u64 = lo * 180_000_000;
    let num: u64 = if hi >= lo {
        proof {
            assert(a * (hi - lo) <= 180000 * 0xffff_ffff) by (nonlinear_arith)
                requires a <= 180000, hi - lo <= 0xffff_ffff;
            assert(a * (hi - lo) * 1000 == a * ((hi - lo) * 1000)) by (nonlinear_arith);
        }
        base + a * (hi - lo) * 1000
    } else {
        proof {
            assert(a * (lo - hi) <= 180000 * (lo - hi)) by (nonlinear_arith)
                requires a <= 180000, lo - hi >= 0;
            assert(a * (lo - hi) * 1000 == a * ((lo - hi) * 1000)) by (nonlinear_arith);
            assert(a * (hi - lo) * 1000 == -(a * (lo - hi) * 1000)) by (nonlinear_arith);
        }
        base - a * (lo - hi) * 1000
    };
    let den: u128 = 180 * tick_ps as u128;
    let t: u128 = (2 * num as u128 + den) / (2 * den);
    if t > top as u128 {
        top
    } else {
        t as u16
    }
}

/// `round_div` of a value that is not positive is not positive.
pub proof fn lemma_round_div_nonpos(x: int, d: int)
    requires
        x <= 0,
        d > 0,
    ensures
        round_div(x, d) <= 0,
{
    lemma_round_div(x, d);
    let q = round_div(x, d);
    assert(q <= 0) by (nonlinear_arith)
        requires 2 * d * q - d <= 2 * x, x <= 0, d > 0;
}

/// Angle in millidegrees, in `[0, 180000]`, of the compare value `ticks`
/// (taken as at most `top`): the inverse of `angle_to_ticks`, rounded to
/// the nearest millidegree.
pub fn ticks_to_angle(ticks: u16, top: u16, pulse_min_us: u32, pulse_max_us: u32, tick_ps: u64) -> (r: u32)
    ensures
        r == angle_of_ticks(ticks as int, top as int, pulse_min_us as int, pulse_max_us as int, tick_ps as int),
        r <= FULL_TRAVEL_MDEG,
{
    let t: u128 = if ticks > top { top as u128 } else { ticks as u128 };
    proof {
        assert(t * tick_ps <= 0xffff * 0xffff_ffff_ffff_ffff) by (nonlinear_arith)
            requires t <= 0xffff, tick_ps <= 0xffff_ffff_ffff_ffff;
        assert(t * tick_ps * 180 == t * (tick_ps as int) * 180);
    }
    let p180: u128 = t * tick_ps as u128 * 180;
    let lo: u128 = pulse_min_us as u128;
    let hi: u128 = pulse_max_us as u128;
    proof {
        assert(lo * 180_000_000 <= 0xffff_ffff * 180_000_000) by (nonlinear_arith)
            requires lo <= 0xffff_ffff;
    }
    let base: u128 = lo * 180_000_000;
    let (x, span): (u128, u128) = if hi > lo {
        if p180 <= base {
            proof { lemma_round_div_nonpos(p180 - base, (hi - lo) * 1000); }
            return 0;
        }
        (p180 - base, (hi - lo) * 1000)
    } else if hi < lo {
        if base <= p180 {
            proof { lemma_round_div_nonpos(base - p180, (lo - hi) * 1000); }
            return 0;
        }
        (base - p180, (lo - hi) * 1000)
    } else {
        return 0;
    };
    let q: u128 = (2 * x + span) / (2 * span);
    if q > 180000 {
        180000
    } else {
        q as u32
    }
}

/// Out-of-range angles give the compare value of the nearest end of the
/// travel: below 0 degrees that of 0, above 180 degrees that of 180.
pub proof fn lemma_angle_clamped(angle_mdeg: int, top: int, pulse_min_us: int, pulse_max_us: int, tick_ps: int)
    ensures
        angle_mdeg < 0 ==> ticks_of(angle_mdeg, top, pulse_min_us, pulse_max_us, tick_ps)
            == ticks_of(0, top, pulse_min_us, pulse_max_us, tick_ps),
        angle_mdeg > 180000 ==> ticks_of(angle_mdeg, top, pulse_min_us, pulse_max_us, tick_ps)
            == ticks_of(180000, top, pulse_min_us, pulse_max_us, tick_ps),
{
}

/// Reading an angle back from the compare value it produced lands within
/// rounding of that compare value: for an angle in `[0, 180]` degrees whose
/// compare value is not cut off at `top`, the pulse width of the angle read
/// back differs from the compare value's by at most half a tick or half a
/// millidegree's worth of pulse width, whichever is larger.
pub proof fn lemma_readback_within_rounding(angle_mdeg: int, top: int, pulse_min_us: int, pulse_max_us: int, tick_ps: int)
    requires
        0 <= angle_mdeg <= 180000,
        0 <= pulse_min_us,
        0 <= pulse_max_us,
        tick_ps > 0,
        round_div(pulse_x180(angle_mdeg, pulse_min_us, pulse_max_us), 180 * tick_ps) <= top,
    ensures
        ({
            let t = ticks_of(angle_mdeg, top, pulse_min_us, pulse_max_us, tick_ps);
            let back = angle_of_ticks(t, top, pulse_min_us, pulse_max_us, tick_ps);
            let err = pulse_x180(back, pulse_min_us, pulse_max_us) - t * (180 * tick_ps);
            let step = if pulse_max_us >= pulse_min_us { pulse_max_us - pulse_min_us } else { pulse_min_us - pulse_max_us };
            &&& 2 * err <= if 180 * tick_ps >= step * 1000 { 180 * tick_ps } else { step * 1000 }
            &&& -2 * err <= if 180 * tick_ps >= step * 1000 { 180 * tick_ps } else { step * 1000 }
        }),
{
    let den = 180 * tick_ps;
    let base = pulse_min_us * 180_000_000;
    let num = pulse_x180(angle_mdeg, pulse_min_us, pulse_max_us);
    let t = ticks_of(angle_mdeg, top, pulse_min_us, pulse_max_us, tick_ps);
    lemma_round_div(num, den);
    assert(t == round_div(num, den));
    let tp = t * den;
    assert(t * tick_ps * 180 == tp) by (nonlinear_arith)
        requires tp == t * den, den == 180 * tick_ps;
    assert(2 * tp - den <= 2 * num < 2 * tp + den) by (nonlinear_arith)
        requires 2 * den * t - den <= 2 * num, 2 * num < 2 * den * t + den, tp == t * den;
    let back = angle_of_ticks(t, top, pulse_min_us, pulse_max_us, tick_ps);
    assert(back == angle_of(tp, pulse_min_us, pulse_max_us));
    if pulse_max_us > pulse_min_us {
        let s = (pulse_max_us - pulse_min_us) * 1000;
        assert(num == base + angle_mdeg * s) by (nonlinear_arith)
            requires num == pulse_min_us * 180_000_000 + angle_mdeg * (pulse_max_us - pulse_min_us) * 1000,
                base == pulse_min_us * 180_000_000, s == (pulse_max_us - pulse_min_us) * 1000;
        assert(0 <= angle_mdeg * s <= 180000 * s) by (nonlinear_arith)
            requires 0 <= angle_mdeg <= 180000, s > 0;
        let raw = round_div(tp - base, s);
        lemma_round_div(tp - base, s);
        assert(pulse_x180(back, pulse_min_us, pulse_max_us) == base + back * s) by (nonlinear_arith)
            requires s == (pulse_max_us - pulse_min_us) * 1000, base == pulse_min_us * 180_000_000;
        if raw < 0 {
            assert(2 * s * raw - s < 0 - s) by (nonlinear_arith) requires raw < 0, s > 0;
        } else if raw > 180000 {
            assert(2 * s * raw - s >= 2 * s * 180001 - s) by (nonlinear_arith) requires raw >= 180001, s > 0;
        } else {
            assert(back == raw);
            assert(back * s == raw * s);
            assert(2 * s * raw == 2 * (raw * s)) by (nonlinear_arith);
        }
    } else if pulse_max_us < pulse_min_us {
        let s = (pulse_min_us - pulse_max_us) * 1000;
        assert(num == base - angle_mdeg * s) by (nonlinear_arith)
            requires num == pulse_min_us * 180_000_000 + angle_mdeg * (pulse_max_us - pulse_min_us) * 1000,
                base == pulse_min_us * 180_000_000, s == (pulse_min_us - pulse_max_us) * 1000;
        assert(0 <= angle_mdeg * s <= 180000 * s) by (nonlinear_arith)
            requires 0 <= angle_mdeg <= 180000, s > 0;
        let raw = round_div(base - tp, s);
        lemma_round_div(base - tp, s);
        assert(pulse_x180(back, pulse_min_us, pulse_max_us) == base - back * s) by (nonlinear_arith)
            requires s == (pulse_min_us - pulse_max_us) * 1000, base == pulse_min_us * 180_000_000;
        if raw < 0 {
            assert(2 * s * raw - s < 0 - s) by (nonlinear_arith) requires raw < 0, s > 0;
        } else if raw > 180000 {
            assert(2 * s * raw - s >= 2 * s * 180001 - s) by (nonlinear_arith) requires raw >= 180001, s > 0;
        } else {
            assert(back == raw);
            assert(back * s == raw * s);
            assert(2 * s * raw == 2 * (raw * s)) by (nonlinear_arith);
        }
    } else {
        assert(back == 0);
        assert(num == base) by (nonlinear_arith)
            requires num == pulse_min_us * 180_000_000 + angle_mdeg * (pulse_max_us - pulse_min_us) * 1000,
                base == pulse_min_us * 180_000_000, pulse_max_us == pulse_min_us;
        assert(pulse_x180(back, pulse_min_us, pulse_max_us) == base);
    }
}

/// `k` is `round_div(x, d)` when `x / d` is within half of `d` of `k`.
pub proof fn lemma_round_div_unique(x: int, d: int, k: int)
    requires
        d > 0,
        2 * d * k - d <= 2 * x,
        2 * x < 2 * d * k + d,
    ensures
        round_div(x, d) == k,
{
    lemma_round_div(x, d);
    let q = round_div(x, d);
    assert(q == k) by (nonlinear_arith)
        requires
            d > 0,
            2 * d * k - d <= 2 * x,
            2 * x < 2 * d * k + d,
            2 * d * q - d <= 2 * x,
            2 * x < 2 * d * q + d;
}

/// Converting an angle in `[0, 180]` degrees to a compare value, reading
/// the angle back and converting it again gives the same compare value,
/// when one millidegree's worth of pulse width is shorter than a tick and
/// the compare value is not cut off at `top`.
pub proof fn lemma_round_trip(angle_mdeg: int, top: int, pulse_min_us: int, pulse_max_us: int, tick_ps: int)
    requires
        0 <= angle_mdeg <= 180000,
        0 <= pulse_min_us,
        0 <= pulse_max_us,
        tick_ps > 0,
        round_div(pulse_x180(angle_mdeg, pulse_min_us, pulse_max_us), 180 * tick_ps) <= top,
        (if pulse_max_us >= pulse_min_us { pulse_max_us - pulse_min_us } else { pulse_min_us - pulse_max_us }) * 1000
            < 180 * tick_ps,
    ensures
        ({
            let t = ticks_of(angle_mdeg, top, pulse_min_us, pulse_max_us, tick_ps);
            let back = angle_of_ticks(t, top, pulse_min_us, pulse_max_us, tick_ps);
            ticks_of(back, top, pulse_min_us, pulse_max_us, tick_ps) == t
        }),
{
    let den = 180 * tick_ps;
    let base = pulse_min_us * 180_000_000;
    let num = pulse_x180(angle_mdeg, pulse_min_us, pulse_max_us);
    let t = ticks_of(angle_mdeg, top, pulse_min_us, pulse_max_us, tick_ps);
    lemma_round_div(num, den);
    assert(t == round_div(num, den));
    let tp = t * den;
    assert(t * tick_ps * 180 == tp) by (nonlinear_arith)
        requires tp == t * den, den == 180 * tick_ps;
    assert(2 * tp - den <= 2 * num < 2 * tp + den) by (nonlinear_arith)
        requires 2 * den * t - den <= 2 * num, 2 * num < 2 * den * t + den, tp == t * den;
    let back = angle_of_ticks(t, top, pulse_min_us, pulse_max_us, tick_ps);
    assert(back == angle_of(tp, pulse_min_us, pulse_max_us));
    assert(0 <= back <= 180000);
    let nb = pulse_x180(back, pulse_min_us, pulse_max_us);
    if pulse_max_us > pulse_min_us {
        let s = (pulse_max_us - pulse_min_us) * 1000;
        assert(num == base + angle_mdeg * s) by (nonlinear_arith)
            requires num == pulse_min_us * 180_000_000 + angle_mdeg * (pulse_max_us - pulse_min_us) * 1000,
                base == pulse_min_us * 180_000_000, s == (pulse_max_us - pulse_min_us) * 1000;
        assert(0 <= angle_mdeg * s <= 180000 * s) by (nonlinear_arith)
            requires 0 <= angle_mdeg <= 180000, s > 0;
        let raw = round_div(tp - base, s);
        lemma_round_div(tp - base, s);
        assert(nb == base + back * s) by (nonlinear_arith)
            requires nb == pulse_min_us * 180_000_000 + back * (pulse_max_us - pulse_min_us) * 1000,
                s == (pulse_max_us - pulse_min_us) * 1000, base == pulse_min_us * 180_000_000;
        if raw < 0 {
            assert(2 * s * raw - s < 0 - s) by (nonlinear_arith) requires raw < 0, s > 0;
        } else if raw > 180000 {
            assert(2 * s * raw - s >= 2 * s * 180001 - s) by (nonlinear_arith) requires raw >= 180001, s > 0;
        } else {
            assert(back == raw);
            assert(2 * s * raw == 2 * (back * s)) by (nonlinear_arith) requires back == raw;
        }
    } else if pulse_max_us < pulse_min_us {
        let s = (pulse_min_us - pulse_max_us) * 1000;
        assert(num == base - angle_mdeg * s) by (nonlinear_arith)
            requires num == pulse_min_us * 180_000_000 + angle_mdeg * (pulse_max_us - pulse_min_us) * 1000,
                base == pulse_min_us * 180_000_000, s == (pulse_min_us - pulse_max_us) * 1000;
        assert(0 <= angle_mdeg * s <= 180000 * s) by (nonlinear_arith)
            requires 0 <= angle_mdeg <= 180000, s > 0;
        let raw = round_div(base - tp, s);
        lemma_round_div(base - tp, s);
        assert(nb == base - back * s) by (nonlinear_arith)
            requires nb == pulse_min_us * 180_000_000 + back * (pulse_max_us - pulse_min_us) * 1000,
                s == (pulse_min_us - pulse_max_us) * 1000, base == pulse_min_us * 180_000_000;
        if raw < 0 {
            assert(2 * s * raw - s < 0 - s) by (nonlinear_arith) requires raw < 0, s > 0;
        } else if raw > 180000 {
            assert(2 * s * raw - s >= 2 * s * 180001 - s) by (nonlinear_arith) requires raw >= 180001, s > 0;
        } else {
            assert(back == raw);
            assert(2 * s * raw == 2 * (back * s)) by (nonlinear_arith) requires back == raw;
        }
    } else {
        assert(num == base) by (nonlinear_arith)
            requires num == pulse_min_us * 180_000_000 + angle_mdeg * (pulse_max_us - pulse_min_us) * 1000,
                base == pulse_min_us * 180_000_000, pulse_max_us == pulse_min_us;
        assert(nb == base) by (nonlinear_arith)
            requires nb == pulse_min_us * 180_000_000 + back * (pulse_max_us - pulse_min_us) * 1000,
                base == pulse_min_us * 180_000_000, pulse_max_us == pulse_min_us;
    }
    assert(2 * tp - den <= 2 * nb < 2 * tp + den);
    assert(2 * den * t == 2 * tp) by (nonlinear_arith) requires tp == t * den;
    lemma_round_div_unique(nb, den, t);
    assert(clamp_angle(back) == back);
}

} // verus!
