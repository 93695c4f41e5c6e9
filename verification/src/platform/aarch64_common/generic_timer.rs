//! The AArch64 generic timer: conversion between counter ticks and
//! nanoseconds, the wall-clock offset, and the values that arm the
//! countdown.
//!
//! Nothing here reads or writes a register. The caller reads the counter,
//! the frequency and the control register, and writes back what the
//! functions return.

use vstd::prelude::*;

verus! {

/// Nanoseconds in a second.
pub const NANOS_PER_SEC: u64 = 1_000_000_000;

/// How often per second the periodic timer fires.
pub const TICKS_PER_SEC: usize = 32;

/// Largest interval that the countdown register takes.
pub const MAX_COUNTDOWN: u64 = 0xffff_ffff;

#[verifier::external_type_specification]
#[verifier::external_body]
pub struct ExRatio(int_ratio::Ratio);

/// The numerator and the denominator that an `int_ratio::Ratio` was made
/// from.
pub uninterp spec fn ratio_terms(ratio: int_ratio::Ratio) -> (u32, u32);

/// The multiplier and the shift that `int_ratio::Ratio::new` picks for the
/// ratio `numerator / denominator`: the ratio is close to the multiplier
/// divided by two to the power of the shift.
pub uninterp spec fn ratio_parts(numerator: u32, denominator: u32) -> (u32, u32);

/// A value times a multiplier, shifted right, before it is cut to 64 bits.
pub open spec fn scaled_wide(mult: u32, shift: u32, value: u64) -> u128 {
    ((value as u128 * mult as u128) as u128) >> shift
}

/// A value times a multiplier, shifted right, as a 64-bit number.
pub open spec fn scaled(mult: u32, shift: u32, value: u64) -> u64 {
    scaled_wide(mult, shift, value) as u64
}

/// `int_ratio::Ratio::zero`: the ratio `0/0`.
#[verifier::external_body]
fn ratio_zero() -> (ratio: int_ratio::Ratio)
    ensures
        ratio_terms(ratio).0 == 0,
        ratio_terms(ratio).1 == 0,
{
    int_ratio::Ratio::zero()
}

/// `int_ratio::Ratio::new`: the ratio of the two numbers. It panics on a
/// zero denominator under a numerator that is not zero, which is left out.
#[verifier::external_body]
fn ratio_new(numerator: u32, denominator: u32) -> (ratio: int_ratio::Ratio)
    requires
        !(denominator == 0 && numerator != 0),
    ensures
        ratio_terms(ratio).0 == numerator,
        ratio_terms(ratio).1 == denominator,
{
    int_ratio::Ratio::new(numerator, denominator)
}

/// `int_ratio::Ratio::inverse`: the ratio with numerator and denominator
/// exchanged. It panics on a zero numerator over a denominator that is not
/// zero, which is left out.
#[verifier::external_body]
fn ratio_inverse(ratio: &int_ratio::Ratio) -> (inverse: int_ratio::Ratio)
    requires
        !(ratio_terms(*ratio).0 == 0 && ratio_terms(*ratio).1 != 0),
    ensures
        ratio_terms(inverse).0 == ratio_terms(*ratio).1,
        ratio_terms(inverse).1 == ratio_terms(*ratio).0,
{
    ratio.inverse()
}

/// `int_ratio::Ratio::mul_trunc`: the value times the ratio's multiplier,
/// in 128 bits, shifted right by the ratio's shift and cut to the low 64
/// bits. Multiplier and shift are those that `Ratio::new` picks for the
/// ratio's numerator and denominator. A ratio with numerator zero has the
/// multiplier zero, so every product with it is zero.
#[verifier::external_body]
fn ratio_mul_trunc(ratio: &int_ratio::Ratio, value: u64) -> (product: u64)
    ensures
        product == scaled(ratio_parts(ratio_terms(*ratio).0, ratio_terms(*ratio).1).0, ratio_parts(ratio_terms(*ratio).0, ratio_terms(*ratio).1).1, value),
        ratio_terms(*ratio).0 == 0 ==> product == 0,
{
    ratio.mul_trunc(value)
}

/// The two numbers of a ratio.
///
/// `0/0` is the zero ratio. A zero denominator under any other numerator is
/// no ratio.
pub struct RatioTerms {
    pub numerator: u32,
    pub denominator: u32,
}

impl RatioTerms {
    /// Whether the pair is a ratio.
    pub open spec fn wf(self) -> bool {
        !(self.denominator == 0 && self.numerator != 0)
    }

    /// The multiplier of the fixed-point form of the ratio.
    pub open spec fn mult(self) -> u32 {
        ratio_parts(self.numerator, self.denominator).0
    }

    /// The shift of the fixed-point form of the ratio.
    pub open spec fn shift(self) -> u32 {
        ratio_parts(self.numerator, self.denominator).1
    }

    /// `value` scaled by the ratio and rounded down.
    pub open spec fn scale(self, value: u64) -> u64 {
        scaled(self.mult(), self.shift(), value)
    }

    /// Whether `value` scaled by the ratio fits 64 bits, so that nothing is
    /// cut off.
    pub open spec fn fits(self, value: u64) -> bool {
        scaled_wide(self.mult(), self.shift(), value) <= u64::MAX
    }

    /// The ratio turned upside down.
    pub open spec fn flipped(self) -> RatioTerms {
        RatioTerms { numerator: self.denominator, denominator: self.numerator }
    }
}

/// A ratio of two 32-bit numbers by which 64-bit values are scaled.
///
/// The fixed-point form is worked out once, when the ratio is made, so
/// that scaling is one multiplication and one shift. The view is the pair
/// of numbers.
#[derive(Clone, Copy, Debug)]
pub struct TickRatio {
    numerator: u32,
    denominator: u32,
    ratio: int_ratio::Ratio,
}

impl View for TickRatio {
    type V = RatioTerms;

    closed spec fn view(&self) -> RatioTerms {
        RatioTerms { numerator: self.numerator, denominator: self.denominator }
    }
}

impl TickRatio {
    #[verifier::type_invariant]
    spec fn inv(self) -> bool {
        &&& ratio_terms(self.ratio).0 == self.numerator
        &&& ratio_terms(self.ratio).1 == self.denominator
        &&& !(self.denominator == 0 && self.numerator != 0)
    }

    /// The zero ratio `0/0`, which scales every value to zero.
    pub fn zero() -> (ratio: TickRatio)
        ensures
            ratio@ == (RatioTerms { numerator: 0, denominator: 0 }),
    {
        TickRatio { numerator: 0, denominator: 0, ratio: ratio_zero() }
    }

    /// The ratio `numerator / denominator`, or `None` where the denominator
    /// is zero and the numerator is not.
    pub fn new(numerator: u32, denominator: u32) -> (ratio: Option<TickRatio>)
        ensures
            ratio.is_some() == !(denominator == 0 && numerator != 0),
            ratio.is_some() ==> ratio.unwrap()@ == (RatioTerms { numerator, denominator }),
    {
        if denominator == 0 && numerator != 0 {
            None
        } else {
            Some(TickRatio { numerator, denominator, ratio: ratio_new(numerator, denominator) })
        }
    }

    /// The numerator.
    pub fn numerator(&self) -> (numerator: u32)
        ensures
            numerator == self@.numerator,
    {
        self.numerator
    }

    /// The denominator.
    pub fn denominator(&self) -> (denominator: u32)
        ensures
            denominator == self@.denominator,
    {
        self.denominator
    }

    /// The inverse ratio, or `None` where the numerator is zero and the
    /// denominator is not. The zero ratio is its own inverse.
    pub fn inverse(&self) -> (ratio: Option<TickRatio>)
        ensures
            ratio.is_some() == self@.flipped().wf(),
            ratio.is_some() ==> ratio.unwrap()@ == self@.flipped(),
    {
        proof {
            use_type_invariant(self);
        }
        if self.numerator == 0 && self.denominator != 0 {
            None
        } else {
            Some(
                TickRatio {
                    numerator: self.denominator,
                    denominator: self.numerator,
                    ratio: ratio_inverse(&self.ratio),
                },
            )
        }
    }

    /// Multiplies `value` by the ratio and rounds the result down.
    pub fn mul_trunc(&self, value: u64) -> (product: u64)
        ensures
            product == self@.scale(value),
            self@.numerator == 0 ==> product == 0,
    {
        proof {
            use_type_invariant(self);
        }
        ratio_mul_trunc(&self.ratio, value)
    }
}

/// Scaling keeps the order of two values, as long as the larger result
/// fits 64 bits.
pub proof fn lemma_scaled_monotonic(mult: u32, shift: u32, low: u64, high: u64)
    requires
        low <= high,
        scaled_wide(mult, shift, high) <= u64::MAX,
    ensures
        scaled(mult, shift, low) <= scaled(mult, shift, high),
        scaled(mult, shift, high) == scaled_wide(mult, shift, high),
{
    let wide_low: u128 = (low as u128 * mult as u128) as u128;
    let wide_high: u128 = (high as u128 * mult as u128) as u128;
    assert(low * mult <= high * mult) by (nonlinear_arith)
        requires
            low <= high,
            mult >= 0,
    ;
    assert(high * mult <= 0xffff_ffff_ffff_ffff * 0xffff_ffff) by (nonlinear_arith)
        requires
            high <= 0xffff_ffff_ffff_ffff,
            mult <= 0xffff_ffff,
    ;
    assert(wide_low <= wide_high);
    assert((wide_low >> shift) <= (wide_high >> shift)) by (bit_vector)
        requires
            wide_low <= wide_high,
    ;
}

/// A value below two to the power of 32 always fits when it is scaled.
pub proof fn lemma_scaled_small_fits(mult: u32, shift: u32, value: u64)
    requires
        value <= u32::MAX,
    ensures
        scaled_wide(mult, shift, value) <= u64::MAX,
{
    let wide: u128 = (value as u128 * mult as u128) as u128;
    assert(value * mult <= 0xffff_ffff * 0xffff_ffff) by (nonlinear_arith)
        requires
            value <= 0xffff_ffff,
            mult <= 0xffff_ffff,
    ;
    assert((wide >> shift) <= wide) by (bit_vector);
}

/// The ratio that turns ticks of a counter of frequency `freq` into
/// nanoseconds: a second's nanoseconds over a second's ticks.
pub open spec fn counter_ratio(freq: u64) -> RatioTerms {
    RatioTerms { numerator: 1_000_000_000u32, denominator: freq as u32 }
}

/// Nanoseconds since the Unix epoch at `seconds` seconds after it.
pub open spec fn wall_nanos(seconds: u32) -> int {
    seconds * 1_000_000_000
}

/// Why no calibration could be made.
#[derive(Clone, Copy, Debug, PartialEq, Eq, Structural)]
pub enum CalibrationError {
    /// The counter reports the frequency zero.
    ZeroFrequency,
    /// The counter's frequency does not fit the 32 bits of a ratio's terms.
    FrequencyTooLarge,
    /// The real-time clock is behind the time that the counter has already
    /// run, so the offset would be negative.
    ClockBehindCounter,
}

/// The conversion ratios and the wall-clock offset, made once at boot and
/// only read afterwards.
#[derive(Clone, Copy, Debug)]
pub struct Calibration {
    to_nanos: TickRatio,
    to_ticks: TickRatio,
    epoch_offset: u64,
}

impl Calibration {
    /// The ratio from ticks to nanoseconds.
    pub closed spec fn to_nanos(self) -> RatioTerms {
        self.to_nanos@
    }

    /// The ratio from nanoseconds to ticks.
    pub closed spec fn to_ticks(self) -> RatioTerms {
        self.to_ticks@
    }

    /// Nanoseconds between the Unix epoch and the start of the counter.
    pub closed spec fn epoch_offset(self) -> u64 {
        self.epoch_offset
    }

    /// The state before calibration: both ratios are zero, so every
    /// conversion gives zero, and so is the offset.
    pub fn uninit() -> (cal: Calibration)
        ensures
            cal.to_nanos() == (RatioTerms { numerator: 0, denominator: 0 }),
            cal.to_ticks() == (RatioTerms { numerator: 0, denominator: 0 }),
            cal.epoch_offset() == 0,
    {
        Calibration { to_nanos: TickRatio::zero(), to_ticks: TickRatio::zero(), epoch_offset: 0 }
    }
}

/// Converts hardware ticks to nanoseconds.
pub fn ticks_to_nanos(cal: &Calibration, ticks: u64) -> (nanos: u64)
    ensures
        nanos == cal.to_nanos().scale(ticks),
        cal.to_nanos().numerator == 0 ==> nanos == 0,
{
    cal.to_nanos.mul_trunc(ticks)
}

/// Converts nanoseconds to hardware ticks.
pub fn nanos_to_ticks(cal: &Calibration, nanos: u64) -> (ticks: u64)
    ensures
        ticks == cal.to_ticks().scale(nanos),
        cal.to_ticks().numerator == 0 ==> ticks == 0,
{
    cal.to_ticks.mul_trunc(nanos)
}

/// Ticks that went to nanoseconds and back.
pub open spec fn round_trip(cal: Calibration, ticks: u64) -> u64 {
    cal.to_ticks().scale(cal.to_nanos().scale(ticks))
}

/// The round trip from ticks to nanoseconds and back keeps the order of
/// two tick counts, as long as neither conversion of the larger one runs
/// over 64 bits.
pub proof fn lemma_round_trip_monotonic(cal: Calibration, low: u64, high: u64)
    requires
        low <= high,
        cal.to_nanos().fits(high),
        cal.to_ticks().fits(cal.to_nanos().scale(high)),
    ensures
        round_trip(cal, low) <= round_trip(cal, high),
{
    lemma_scaled_monotonic(cal.to_nanos().mult(), cal.to_nanos().shift(), low, high);
    lemma_scaled_monotonic(
        cal.to_ticks().mult(),
        cal.to_ticks().shift(),
        cal.to_nanos().scale(low),
        cal.to_nanos().scale(high),
    );
}

/// The wall-clock time, in nanoseconds since the Unix epoch, at which the
/// counter stood at zero. It is whatever the calibration recorded.
pub fn epochoffset_nanos(cal: &Calibration) -> (offset: u64)
    ensures
        offset == cal.epoch_offset(),
{
    cal.epoch_offset
}

/// The offset between a wall-clock reading and the monotonic time at the
/// same moment, both in nanoseconds.
pub fn epoch_offset_from(wall_time_nanos: u64, monotonic_nanos: u64) -> (offset: u64)
    requires
        wall_time_nanos >= monotonic_nanos,
    ensures
        offset == wall_time_nanos - monotonic_nanos,
{
    wall_time_nanos - monotonic_nanos
}

/// Why `init_early` cannot calibrate from these readings, or `None` where
/// it can.
pub open spec fn calibration_outcome(freq: u64, rtc_seconds: Option<u32>, now_ticks: u64) -> Option<CalibrationError> {
    if freq == 0 {
        Some(CalibrationError::ZeroFrequency)
    } else if freq > u32::MAX {
        Some(CalibrationError::FrequencyTooLarge)
    } else if rtc_seconds.is_some() && wall_nanos(rtc_seconds.unwrap()) < counter_ratio(freq).scale(now_ticks) {
        Some(CalibrationError::ClockBehindCounter)
    } else {
        None
    }
}

/// The offset that `init_early` records.
pub open spec fn calibrated_offset(freq: u64, rtc_seconds: Option<u32>, now_ticks: u64) -> int {
    match rtc_seconds {
        Some(seconds) => wall_nanos(seconds) - counter_ratio(freq).scale(now_ticks),
        None => 0,
    }
}

/// Early initialisation: makes the calibration from the counter frequency
/// `freq`, the reading `rtc_seconds` of the real-time clock (seconds since
/// the Unix epoch; `None` where the machine has no such clock) and the
/// counter value `now_ticks` read together with it.
///
/// The ratios are those of the frequency as reported. A frequency of zero,
/// or one that does not fit 32 bits, is refused. Without a real-time clock
/// the offset is zero.
pub fn init_early(freq: u64, rtc_seconds: Option<u32>, now_ticks: u64) -> (made: Result<Calibration, CalibrationError>)
    ensures
        made.is_err() == calibration_outcome(freq, rtc_seconds, now_ticks).is_some(),
        made matches Err(error) ==> calibration_outcome(freq, rtc_seconds, now_ticks) == Some(error),
        made matches Ok(cal) ==> cal.to_nanos() == counter_ratio(freq),
        made matches Ok(cal) ==> cal.to_ticks() == counter_ratio(freq).flipped(),
        made matches Ok(cal) ==> cal.epoch_offset() == calibrated_offset(freq, rtc_seconds, now_ticks),
        made matches Ok(cal) ==> cal.to_nanos().denominator == freq,
{
    if freq == 0 {
        return Err(CalibrationError::ZeroFrequency);
    }
    if freq > 0xffff_ffff {
        return Err(CalibrationError::FrequencyTooLarge);
    }
    let denominator: u32 = freq as u32;
    let to_nanos = match TickRatio::new(1_000_000_000u32, denominator) {
        Some(ratio) => ratio,
        None => return Err(CalibrationError::ZeroFrequency),
    };
    let to_ticks = match to_nanos.inverse() {
        Some(ratio) => ratio,
        None => return Err(CalibrationError::ZeroFrequency),
    };
    let epoch_offset: u64 = match rtc_seconds {
        Some(seconds) => {
            let epoch_time_nanos: u64 = seconds as u64 * NANOS_PER_SEC;
            let monotonic_nanos: u64 = to_nanos.mul_trunc(now_ticks);
            if epoch_time_nanos < monotonic_nanos {
                return Err(CalibrationError::ClockBehindCounter);
            }
            epoch_offset_from(epoch_time_nanos, monotonic_nanos)
        },
        None => 0,
    };
    Ok(Calibration { to_nanos, to_ticks, epoch_offset })
}

/// The countdown that makes the timer fire when the counter reaches
/// `deadline_ticks`: the distance to the deadline, or zero where the
/// deadline is not ahead of `now_ticks`, so that the timer fires at once.
pub open spec fn countdown(now_ticks: u64, deadline_ticks: u64) -> int {
    if now_ticks < deadline_ticks {
        deadline_ticks - now_ticks
    } else {
        0
    }
}

/// The value to load into the countdown register for a deadline given in
/// ticks. The interval has to fit the register.
pub fn oneshot_interval(now_ticks: u64, deadline_ticks: u64) -> (interval: u64)
    requires
        countdown(now_ticks, deadline_ticks) <= MAX_COUNTDOWN,
    ensures
        interval == countdown(now_ticks, deadline_ticks),
        deadline_ticks <= now_ticks ==> interval == 0,
{
    if now_ticks < deadline_ticks {
        deadline_ticks - now_ticks
    } else {
        0
    }
}

/// Arms a one-shot timer for the monotonic time `deadline_ns`.
///
/// Returns the value to load into the countdown register, given the
/// counter value `now_ticks`. A deadline that has passed gives zero. A
/// deadline further away than the register can count gives `None`, and
/// nothing is to be written.
pub fn set_oneshot_timer(cal: &Calibration, now_ticks: u64, deadline_ns: u64) -> (interval: Option<u64>)
    ensures
        interval.is_some() == (countdown(now_ticks, cal.to_ticks().scale(deadline_ns))
            <= MAX_COUNTDOWN),
        interval.is_some() ==> interval.unwrap() == countdown(
            now_ticks,
            cal.to_ticks().scale(deadline_ns),
        ),
        cal.to_ticks().scale(deadline_ns) <= now_ticks ==> interval == Some(0u64),
{
    let deadline_ticks: u64 = nanos_to_ticks(cal, deadline_ns);
    if deadline_ticks > now_ticks && deadline_ticks - now_ticks > MAX_COUNTDOWN {
        None
    } else {
        Some(oneshot_interval(now_ticks, deadline_ticks))
    }
}

/// Control register bit: the timer counts.
pub const CTL_ENABLE: u64 = 1;

/// Control register bit: the timer's interrupt is masked.
pub const CTL_IMASK: u64 = 2;

/// Control register bit: the timer's condition is met. The hardware sets
/// and clears it; a write does not change it.
pub const CTL_ISTATUS: u64 = 4;

/// Every bit of the control register that has a meaning.
pub const CTL_ALL: u64 = 7;

/// Whether every bit of `flag` is set in `bits`.
pub open spec fn has_flag(bits: u64, flag: u64) -> bool {
    bits & flag == flag
}

/// A set of control register flags. Its view is the bit pattern, in which
/// only the three known bits can be set.
#[derive(Clone, Copy, Debug)]
pub struct TimerCtrlFlags {
    bits: u64,
}

impl View for TimerCtrlFlags {
    type V = u64;

    closed spec fn view(&self) -> u64 {
        self.bits
    }
}

impl TimerCtrlFlags {
    #[verifier::type_invariant]
    spec fn inv(self) -> bool {
        self.bits <= CTL_ALL
    }

    /// The flags in `bits`; bits without a meaning are dropped.
    pub fn from_bits_truncate(bits: u64) -> (flags: TimerCtrlFlags)
        ensures
            flags@ == bits & CTL_ALL,
    {
        assert(bits & 7 <= 7) by (bit_vector);
        TimerCtrlFlags { bits: bits & CTL_ALL }
    }

    /// The bit pattern.
    pub fn bits(&self) -> (bits: u64)
        ensures
            bits == self@,
            bits <= CTL_ALL,
    {
        proof {
            use_type_invariant(self);
        }
        self.bits
    }

    /// Whether every flag of `other` is in the set.
    pub fn contains(&self, other: TimerCtrlFlags) -> (held: bool)
        ensures
            held == has_flag(self@, other@),
    {
        self.bits & other.bits == other.bits
    }

    /// Adds the flags of `other`.
    pub fn insert(&mut self, other: TimerCtrlFlags)
        ensures
            final(self)@ == old(self)@ | other@,
    {
        proof {
            use_type_invariant(&*self);
            use_type_invariant(&other);
        }
        let a: u64 = self.bits;
        let b: u64 = other.bits;
        assert(a | b <= 7) by (bit_vector)
            requires
                a <= 7,
                b <= 7,
        ;
        self.bits = a | b;
    }

    /// Takes the flags of `other` out.
    pub fn remove(&mut self, other: TimerCtrlFlags)
        ensures
            final(self)@ == old(self)@ & !other@,
    {
        proof {
            use_type_invariant(&*self);
        }
        let a: u64 = self.bits;
        let b: u64 = other.bits;
        assert(a & !b <= 7) by (bit_vector)
            requires
                a <= 7,
        ;
        self.bits = a & !b;
    }
}

/// The control value that starts the timer with its interrupt unmasked:
/// of `ctl`, the known bits with `ENABLE` set and `IMASK` cleared.
pub open spec fn armed_ctl(ctl: u64) -> u64 {
    ((ctl & CTL_ALL) | CTL_ENABLE) & !CTL_IMASK
}

/// The control value that masks the timer's interrupt.
pub open spec fn masked_ctl(ctl: u64) -> u64 {
    (ctl & CTL_ALL) | CTL_IMASK
}

/// The control value that unmasks the timer's interrupt.
pub open spec fn unmasked_ctl(ctl: u64) -> u64 {
    (ctl & CTL_ALL) & !CTL_IMASK
}

/// The control value that stops the timer.
pub open spec fn disabled_ctl(ctl: u64) -> u64 {
    (ctl & CTL_ALL) & !CTL_ENABLE
}

/// What to write to the timer: the countdown first, then the control
/// register.
#[derive(Clone, Copy, Debug, PartialEq, Eq, Structural)]
pub struct TimerProgram {
    pub tval: u64,
    pub ctl: u64,
}

/// What `reset_timer` asks for: first the control value `mask`, if there is
/// one, then the program.
#[derive(Clone, Copy, Debug)]
pub struct TimerReset {
    pub mask: Option<u64>,
    pub program: TimerProgram,
}

/// The periodic timer of one core.
#[derive(Clone, Copy, Debug, PartialEq, Eq, Structural)]
pub struct GenericTimer {
    pub clk_freq: u64,
    pub reload_count: u64,
}

impl GenericTimer {
    /// A timer that has not been set up: frequency and reload count are zero.
    pub fn new() -> (timer: GenericTimer)
        ensures
            timer == (GenericTimer { clk_freq: 0, reload_count: 0 }),
    {
        GenericTimer { clk_freq: 0, reload_count: 0 }
    }

    /// Sets the timer up to fire `num_per_sec` times a second on a counter
    /// of frequency `clk_freq`, and returns what to write, given the control
    /// register's value `ctl`.
    pub fn init(&mut self, clk_freq: u64, num_per_sec: usize, ctl: u64) -> (program: TimerProgram)
        requires
            num_per_sec != 0,
        ensures
            final(self).clk_freq == clk_freq,
            final(self).reload_count == clk_freq / (num_per_sec as u64),
            program.tval == clk_freq / (num_per_sec as u64),
            program.ctl == armed_ctl(ctl),
    {
        self.clk_freq = clk_freq;
        self.reload_count = clk_freq / (num_per_sec as u64);
        let mut ctrl = TimerCtrlFlags::from_bits_truncate(ctl);
        ctrl.insert(TimerCtrlFlags::from_bits_truncate(CTL_ENABLE));
        ctrl.remove(TimerCtrlFlags::from_bits_truncate(CTL_IMASK));
        assert(1u64 & 7 == 1 && 2u64 & 7 == 2) by (bit_vector);
        TimerProgram { tval: self.reload_count, ctl: ctrl.bits() }
    }

    /// The control value that stops the timer.
    pub fn disable(ctl: u64) -> (written: u64)
        ensures
            written == disabled_ctl(ctl),
    {
        let mut ctrl = TimerCtrlFlags::from_bits_truncate(ctl);
        ctrl.remove(TimerCtrlFlags::from_bits_truncate(CTL_ENABLE));
        assert(1u64 & 7 == 1) by (bit_vector);
        ctrl.bits()
    }

    /// The control value that unmasks the timer's interrupt.
    pub fn set_irq(&self, ctl: u64) -> (written: u64)
        ensures
            written == unmasked_ctl(ctl),
    {
        let mut ctrl = TimerCtrlFlags::from_bits_truncate(ctl);
        ctrl.remove(TimerCtrlFlags::from_bits_truncate(CTL_IMASK));
        assert(2u64 & 7 == 2) by (bit_vector);
        ctrl.bits()
    }

    /// Masks the timer's interrupt where its condition is met: the control
    /// value to write in that case. Where the status bit of `ctl` is clear,
    /// nothing is to be written.
    pub fn clear_irq(&self, ctl: u64) -> (written: Option<u64>)
        ensures
            has_flag(ctl, CTL_ISTATUS) ==> written == Some(masked_ctl(ctl)),
            !has_flag(ctl, CTL_ISTATUS) ==> written.is_none(),
    {
        let mut ctrl = TimerCtrlFlags::from_bits_truncate(ctl);
        assert(4u64 & 7 == 4 && 2u64 & 7 == 2) by (bit_vector);
        assert(((ctl & 7) & 4 == 4) == (ctl & 4 == 4)) by (bit_vector);
        if ctrl.contains(TimerCtrlFlags::from_bits_truncate(CTL_ISTATUS)) {
            ctrl.insert(TimerCtrlFlags::from_bits_truncate(CTL_IMASK));
            Some(ctrl.bits())
        } else {
            None
        }
    }

    /// Starts the next period: the stored reload count and the control
    /// value that lets the timer run with its interrupt unmasked.
    pub fn reload_count(&self, ctl: u64) -> (program: TimerProgram)
        ensures
            program.tval == self.reload_count,
            program.ctl == armed_ctl(ctl),
    {
        let mut ctrl = TimerCtrlFlags::from_bits_truncate(ctl);
        ctrl.insert(TimerCtrlFlags::from_bits_truncate(CTL_ENABLE));
        ctrl.remove(TimerCtrlFlags::from_bits_truncate(CTL_IMASK));
        assert(1u64 & 7 == 1 && 2u64 & 7 == 2) by (bit_vector);
        TimerProgram { tval: self.reload_count, ctl: ctrl.bits() }
    }
}

/// What the armed control value holds: the timer runs, its interrupt is
/// not masked, the status bit is as it was read, and no other bit is set.
pub proof fn lemma_armed_ctl(ctl: u64)
    ensures
        has_flag(armed_ctl(ctl), CTL_ENABLE),
        armed_ctl(ctl) & CTL_IMASK == 0,
        has_flag(armed_ctl(ctl), CTL_ISTATUS) == has_flag(ctl, CTL_ISTATUS),
        armed_ctl(ctl) <= CTL_ALL,
{
    assert((((ctl & 7) | 1) & !2u64) & 1 == 1) by (bit_vector);
    assert((((ctl & 7) | 1) & !2u64) & 2 == 0) by (bit_vector);
    assert(((((ctl & 7) | 1) & !2u64) & 4 == 4) == (ctl & 4 == 4)) by (bit_vector);
    assert((((ctl & 7) | 1) & !2u64) <= 7) by (bit_vector);
}

/// Masking the interrupt first does not change the control value that
/// arms the timer afterwards.
pub proof fn lemma_armed_after_mask(ctl: u64)
    ensures
        armed_ctl(masked_ctl(ctl)) == armed_ctl(ctl),
        has_flag(masked_ctl(ctl), CTL_IMASK),
{
    assert((((((ctl & 7) | 2) & 7) | 1) & !2u64) == (((ctl & 7) | 1) & !2u64)) by (bit_vector);
    assert(((ctl & 7) | 2) & 2 == 2) by (bit_vector);
}

/// Sets the periodic timer of this core up at `TICKS_PER_SEC` periods a
/// second and returns what to write. The caller then unmasks the timer's
/// interrupt line at the interrupt controller.
pub fn init_percpu(timer: &mut GenericTimer, clk_freq: u64, ctl: u64) -> (program: TimerProgram)
    ensures
        final(timer).clk_freq == clk_freq,
        final(timer).reload_count == clk_freq / 32,
        program.tval == clk_freq / 32,
        program.ctl == armed_ctl(ctl),
{
    timer.init(clk_freq, TICKS_PER_SEC, ctl)
}

/// Ends one period of the periodic timer and starts the next, given the
/// control register's value `ctl`.
///
/// Where the status bit is set the interrupt is masked first. Where it is
/// clear no masking write is asked for. The program that follows reloads
/// the countdown and leaves the interrupt unmasked. It is computed from the
/// value that the control register holds after the masking write.
pub fn reset_timer(timer: &GenericTimer, ctl: u64) -> (reset: TimerReset)
    ensures
        has_flag(ctl, CTL_ISTATUS) ==> reset.mask == Some(masked_ctl(ctl)),
        !has_flag(ctl, CTL_ISTATUS) ==> reset.mask.is_none(),
        reset.program.tval == timer.reload_count,
        reset.program.ctl == armed_ctl(ctl),
        reset.program.ctl & CTL_IMASK == 0,
{
    let mask = timer.clear_irq(ctl);
    let current: u64 = match mask {
        Some(written) => written,
        None => ctl,
    };
    proof {
        lemma_armed_after_mask(ctl);
        lemma_armed_ctl(ctl);
    }
    let program = timer.reload_count(current);
    TimerReset { mask, program }
}

} // verus!
