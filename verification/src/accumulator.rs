//! Time-integrated accumulator: integrates a scalar signal over millisecond
//! timestamps with the trapezoidal rule, minus a settable per-sample
//! zero-offset ("center").
//!
//! The integral is held exactly, as an integer in *doubled raw-unit
//! milliseconds*: one `add_data` step contributes
//! `delta_ms * (previous value + new value) - center`, which is twice the
//! trapezoid area in raw-unit-milliseconds. Keeping the doubling explicit
//! avoids any rounding inside the engine; callers scale on read-out.

use vstd::prelude::*;

verus! {

/// Mathematical state of an [`Accumulator`], over unbounded integers.
pub ghost struct AccModel {
    /// Running integral, in doubled raw-unit-milliseconds.
    pub accumulated: int,
    /// Number of samples added since construction.
    pub samples: nat,
    /// Most recently added raw value.
    pub last_value: int,
    /// Timestamp of the last update (or reset), in milliseconds.
    pub last_time: int,
    /// Offset subtracted from every future integration step, in doubled
    /// raw-unit-milliseconds per sample.
    pub integrated_center: int,
}

/// Elapsed milliseconds from `last_time` to `now` on a free-running 32-bit
/// counter: modular subtraction, so a small delta comes out correctly when
/// the counter wraps.
pub open spec fn delta_ms(last_time: int, now: int) -> int {
    if now >= last_time {
        now - last_time
    } else {
        now - last_time + 0x1_0000_0000
    }
}

/// One integration step: twice the trapezoid area over the elapsed time,
/// minus the configured center.
pub open spec fn step_area(m: AccModel, value: int, now: int) -> int {
    delta_ms(m.last_time, now) * (m.last_value + value) - m.integrated_center
}

/// State after one `add_data` call.
pub open spec fn spec_add_data(m: AccModel, value: int, now: int) -> AccModel {
    AccModel {
        accumulated: m.accumulated + step_area(m, value, now),
        samples: m.samples + 1,
        last_value: value,
        last_time: now,
        integrated_center: m.integrated_center,
    }
}

/// State of a freshly constructed accumulator.
pub open spec fn spec_with_default(default: int, now: int) -> AccModel {
    AccModel {
        accumulated: default,
        samples: 0,
        last_value: 0,
        last_time: now,
        integrated_center: 0,
    }
}

/// State after a `reset`: the integral and last value are zeroed and the
/// timestamp is re-stamped; the sample count and the center are kept.
pub open spec fn spec_reset(m: AccModel, now: int) -> AccModel {
    AccModel {
        accumulated: 0,
        samples: m.samples,
        last_value: 0,
        last_time: now,
        integrated_center: m.integrated_center,
    }
}

/// State after `set_integrated_center`.
pub open spec fn spec_set_center(m: AccModel, center: int) -> AccModel {
    AccModel { integrated_center: center, ..m }
}

/// Truncating integer division (quotient rounded toward zero), for a
/// positive divisor.
pub open spec fn div_trunc(a: int, b: int) -> int {
    if a >= 0 {
        a / b
    } else {
        -((-a) / b)
    }
}

impl AccModel {
    /// Field ranges that every value reachable through [`Accumulator`]
    /// satisfies, reflecting the machine types that hold them.
    pub open spec fn wf(self) -> bool {
        &&& i128::MIN <= self.accumulated <= i128::MAX
        &&& self.samples <= u32::MAX
        &&& -0x8000 <= self.last_value <= 0x7fff
        &&& 0 <= self.last_time < 0x1_0000_0000
        &&& i64::MIN <= self.integrated_center <= i64::MAX
    }
}

/// Exact trapezoidal integrator with a settable zero-offset.
///
/// Raw values are 16-bit signed samples; timestamps come from a free-running
/// 32-bit millisecond counter that the caller reads. The running integral is
/// an `i128` in doubled raw-unit-milliseconds (see the module doc).
pub struct Accumulator {
    accumulated: i128,
    samples: u32,
    last_value: i16,
    last_time: u32,
    integrated_center: i64,
}

impl View for Accumulator {
    type V = AccModel;

    closed spec fn view(&self) -> AccModel {
        AccModel {
            accumulated: self.accumulated as int,
            samples: self.samples as nat,
            last_value: self.last_value as int,
            last_time: self.last_time as int,
            integrated_center: self.integrated_center as int,
        }
    }
}

impl Accumulator {
    /// Fresh accumulator with a zero integral, stamped at `now`.
    pub fn new(now: u32) -> (r: Self)
        ensures
            r@ == spec_with_default(0, now as int),
            r@.wf(),
    {
        Accumulator::with_default(0, now)
    }

    /// Fresh accumulator whose integral starts at `default`, stamped at `now`.
    pub fn with_default(default: i128, now: u32) -> (r: Self)
        ensures
            r@ == spec_with_default(default as int, now as int),
            r@.wf(),
    {
        Accumulator {
            accumulated: default,
            samples: 0,
            last_value: 0,
            last_time: now,
            integrated_center: 0,
        }
    }

    /// Integrate one sample taken at time `now` with the trapezoidal rule.
    ///
    /// The elapsed time is the modular 32-bit difference of the timestamps,
    /// so the step stays correct across a counter wrap.
    pub fn add_data(&mut self, value: i16, now: u32)
        requires
            old(self)@.samples < u32::MAX,
            i128::MIN <= old(self)@.accumulated + step_area(old(self)@, value as int, now as int),
            old(self)@.accumulated + step_area(old(self)@, value as int, now as int) <= i128::MAX,
        ensures
            final(self)@ == spec_add_data(old(self)@, value as int, now as int),
            final(self)@.wf(),
    {
        let dt: u32 = now.wrapping_sub(self.last_time);
        let sum: i32 = (self.last_value as i32) + (value as i32);
        proof {
            assert(dt as int == delta_ms(self@.last_time, now as int));
            assert((dt as int) * (sum as int) <= 0x1_0000_0000 * 0x10000
                && -0x1_0000_0000 * 0x10000 <= (dt as int) * (sum as int)) by (nonlinear_arith)
                requires
                    0 <= (dt as int) && (dt as int) < 0x1_0000_0000,
                    -0x10000 <= (sum as int) && (sum as int) <= 0x10000,
            ;
        }
        let area: i128 = (dt as i128) * (sum as i128) - (self.integrated_center as i128);
        self.accumulated = self.accumulated + area;
        self.last_value = value;
        self.last_time = now;
        self.samples = self.samples + 1;
    }

    /// The running integral as-is, in doubled raw-unit-milliseconds.
    pub fn get_integrated_value(&self) -> (r: i128)
        ensures
            r == self@.accumulated,
    {
        self.accumulated
    }

    /// Number of samples added since construction. Callers watch it to keep
    /// within the counter's range and to guarantee the average's divisor.
    pub fn sample_count(&self) -> (r: u32)
        ensures
            r == self@.samples,
    {
        self.samples
    }

    /// The most recently added raw value.
    pub fn get_last_value(&self) -> (r: i16)
        ensures
            r as int == self@.last_value,
    {
        self.last_value
    }

    /// Zero the integral and the last value and re-stamp the timestamp.
    ///
    /// The sample count is deliberately kept: it keeps serving as the
    /// divisor of [`Accumulator::get_integrated_average`], which every
    /// caller reads immediately before resetting.
    pub fn reset(&mut self, now: u32)
        ensures
            final(self)@ == spec_reset(old(self)@, now as int),
            final(self)@.wf(),
    {
        self.accumulated = 0;
        self.last_value = 0;
        self.last_time = now;
    }

    /// Overwrite the offset applied to all future `add_data` calls.
    /// The existing integral is not retroactively corrected.
    pub fn set_integrated_center(&mut self, center: i64)
        ensures
            final(self)@ == spec_set_center(old(self)@, center as int),
            final(self)@.wf(),
    {
        self.integrated_center = center;
    }

    /// Mean per-sample contribution to the integral: the running integral
    /// divided by the sample count, rounded toward zero.
    ///
    /// At least one sample must have been added; the division has no guard,
    /// by design, so a mis-sized calibration window shows up here instead of
    /// being masked by a silent default.
    pub fn get_integrated_average(&self) -> (r: i128)
        requires
            self@.samples >= 1,
            self@.accumulated != i128::MIN,
        ensures
            r == div_trunc(self@.accumulated, self@.samples as int),
    {
        if self.accumulated >= 0 {
            let q: u128 = (self.accumulated as u128) / (self.samples as u128);
            proof {
                vstd::arithmetic::div_mod::lemma_div_pos_is_pos(
                    self@.accumulated, self@.samples as int);
                vstd::arithmetic::div_mod::lemma_div_is_ordered_by_denominator(
                    self@.accumulated, 1, self@.samples as int);
            }
            q as i128
        } else {
            let mag: u128 = (-self.accumulated) as u128;
            let q: u128 = mag / (self.samples as u128);
            proof {
                vstd::arithmetic::div_mod::lemma_div_pos_is_pos(
                    mag as int, self@.samples as int);
                vstd::arithmetic::div_mod::lemma_div_is_ordered_by_denominator(
                    mag as int, 1, self@.samples as int);
            }
            -(q as i128)
        }
    }
}

/// Fold of [`spec_add_data`] over a sequence of timestamped samples, each a
/// `(time, value)` pair, applied first to last.
pub open spec fn run_adds(m: AccModel, s: Seq<(int, int)>) -> AccModel
    decreases s.len(),
{
    if s.len() == 0 {
        m
    } else {
        run_adds(spec_add_data(m, s[0].1, s[0].0), s.drop_first())
    }
}

/// Twice the trapezoidal-rule integral of the samples, in raw-unit
/// milliseconds: the sum of `(t_i - t_{i-1}) * (v_{i-1} + v_i)`, seeded
/// with the previous value and timestamp.
pub open spec fn trapezoid_sum(last_value: int, last_time: int, s: Seq<(int, int)>) -> int
    decreases s.len(),
{
    if s.len() == 0 {
        0
    } else {
        (s[0].0 - last_time) * (last_value + s[0].1) + trapezoid_sum(s[0].1, s[0].0, s.drop_first())
    }
}

/// The sample timestamps never decrease and stay within one epoch of the
/// 32-bit millisecond counter.
pub open spec fn times_in_order(last_time: int, s: Seq<(int, int)>) -> bool
    decreases s.len(),
{
    if s.len() == 0 {
        true
    } else {
        &&& last_time <= s[0].0 < 0x1_0000_0000
        &&& times_in_order(s[0].0, s.drop_first())
    }
}

/// Law: over any in-order sequence of `add_data` calls, the integral grows
/// by exactly the trapezoidal-rule sum of the samples minus one center per
/// sample — the engine is the trapezoidal rule, with no further state.
pub proof fn lemma_trapezoidal_integration(m: AccModel, s: Seq<(int, int)>)
    requires
        0 <= m.last_time < 0x1_0000_0000,
        times_in_order(m.last_time, s),
    ensures
        run_adds(m, s).accumulated == m.accumulated + trapezoid_sum(m.last_value, m.last_time, s)
            - s.len() * m.integrated_center,
        run_adds(m, s).samples == m.samples + s.len(),
        run_adds(m, s).integrated_center == m.integrated_center,
    decreases s.len(),
{
    if s.len() > 0 {
        let m1 = spec_add_data(m, s[0].1, s[0].0);
        assert(delta_ms(m.last_time, s[0].0) == s[0].0 - m.last_time);
        lemma_trapezoidal_integration(m1, s.drop_first());
        let k = s.len() as int;
        let c = m.integrated_center;
        assert(k * c == (k - 1) * c + c) by (nonlinear_arith)
            requires
                k >= 1,
        ;
    }
}

/// Law: a reset zeroes the integral, whatever the prior state, so an angle
/// read immediately after a reset yields zero.
pub proof fn lemma_reset_zeroes_integral(m: AccModel, now: int)
    ensures
        spec_reset(m, now).accumulated == 0,
{
}

/// Runs over the same samples from states that differ only in their
/// integral and their center diverge by exactly the initial difference plus
/// one center difference per sample.
proof fn lemma_center_difference(m1: AccModel, m2: AccModel, s: Seq<(int, int)>)
    requires
        m1.last_value == m2.last_value,
        m1.last_time == m2.last_time,
    ensures
        run_adds(m1, s).accumulated - run_adds(m2, s).accumulated == (m1.accumulated
            - m2.accumulated) - s.len() * (m1.integrated_center - m2.integrated_center),
    decreases s.len(),
{
    if s.len() > 0 {
        lemma_center_difference(
            spec_add_data(m1, s[0].1, s[0].0),
            spec_add_data(m2, s[0].1, s[0].0),
            s.drop_first(),
        );
        let k = s.len() as int;
        let c = m1.integrated_center - m2.integrated_center;
        assert(k * c == (k - 1) * c + c) by (nonlinear_arith)
            requires
                k >= 1,
        ;
    }
}

/// Law: the center only subtracts a constant bias. Re-running any sample
/// sequence with center `c` yields the result of the run with center zero,
/// minus `c` for each sample; the integration itself is unchanged.
pub proof fn lemma_center_subtracts_constant_bias(m: AccModel, c: int, s: Seq<(int, int)>)
    ensures
        run_adds(spec_set_center(m, c), s).accumulated == run_adds(
            spec_set_center(m, 0),
            s,
        ).accumulated - s.len() * c,
{
    lemma_center_difference(spec_set_center(m, c), spec_set_center(m, 0), s);
}

} // verus!
