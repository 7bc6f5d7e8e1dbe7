//! Driver core for the gyroscope: identity check at construction, per-tick
//! integration of decoded rate samples, and the calibration procedure that
//! measures the sensor's stationary bias and subtracts it from every later
//! integration step.
//!
//! The core is deterministic: the surrounding application owns the bus and
//! the clock, performs one transaction per tick and hands the received
//! response word and the current millisecond timestamp in. Read-outs are in
//! whole nano-degrees (and nano-degrees per second), derived from the fixed
//! sensor scale of 1/80 degree per second per least-significant bit.

use vstd::arithmetic::div_mod::{
    lemma_div_is_ordered, lemma_div_multiples_vanish, lemma_div_pos_is_pos,
};
use vstd::math::abs;
use vstd::prelude::*;

use crate::accumulator::{
    delta_ms, div_trunc, spec_add_data, spec_reset, spec_set_center, spec_with_default, AccModel,
    Accumulator,
};
use crate::protocol;
use crate::protocol::{spec_data_bits, spec_frame_valid, spec_sample};

verus! {

/// Targeted sample period of the polling loop, in milliseconds.
pub const SAMPLE_PERIOD: u16 = 2;

/// Length of the calibration window, in milliseconds.
pub const CALIBRATION_SAMPLE_TIME: u32 = 5_000;

/// Settling delay after power-up before calibration may sample, in
/// milliseconds.
pub const CALIBRATION_SETTLE_TIME: u32 = 100;

/// Expected high byte of the part-identifier register: the fixed device
/// signature.
pub const DEVICE_SIGNATURE: u16 = 0x52;

/// Nano-degrees per unit of the running integral. One integral unit is a
/// doubled raw-unit-millisecond, so this is 10^9 / (2 * 1000 * 80).
pub const NANODEGREES_PER_INTEGRAL_UNIT: i128 = 6_250;

/// Nano-degrees per second per raw least-significant bit: 10^9 / 80.
pub const NANODEGREES_PER_SECOND_PER_LSB: i64 = 12_500_000;

/// Largest magnitude one integration step can add to the integral while the
/// center is zero: the elapsed time is below 2^32 and the trapezoid's value
/// sum below 2^17, so this bound (2^48) is never reached.
pub const STEP_BOUND: i128 = 0x1_0000_0000_0000;

/// Largest magnitude of one integration step once a measured bias — itself
/// at most [`STEP_BOUND`] — is being subtracted: twice [`STEP_BOUND`].
pub const RUN_STEP_BOUND: i128 = 0x2_0000_0000_0000;

/// Construction failed: the part-identifier register did not carry the
/// device signature. Carries the identifier that was observed.
#[derive(Clone, Copy, PartialEq, Eq, Structural, Debug)]
pub struct DeviceNotFoundError {
    /// The part identifier the device reported (zero when the identity read
    /// itself produced no valid frame).
    pub part_id: u16,
}

/// Mathematical state of the driver.
pub ghost struct GyroModel {
    /// State of the embedded accumulator.
    pub acc: AccModel,
    /// True between `begin_calibration` and `finish_calibration`.
    pub calibrating: bool,
    /// Whether response frames must also pass the parity check.
    pub strict_parity: bool,
}

impl GyroModel {
    /// Invariant every reachable driver state satisfies. During calibration
    /// the center is zero and the integral grows by at most [`STEP_BOUND`]
    /// per sample; afterwards the center is a measured bias of at most
    /// [`STEP_BOUND`] and each step stays within [`RUN_STEP_BOUND`]. The
    /// bounds keep every computation inside `i128`.
    pub open spec fn wf(self) -> bool {
        &&& self.acc.wf()
        &&& if self.calibrating {
            &&& self.acc.integrated_center == 0
            &&& abs(self.acc.accumulated) <= self.acc.samples * STEP_BOUND
        } else {
            &&& abs(self.acc.integrated_center) <= STEP_BOUND
            &&& abs(self.acc.accumulated) <= self.acc.samples * RUN_STEP_BOUND
        }
    }
}

/// Driver state immediately after a successful identity check.
pub open spec fn spec_initial(now: int) -> GyroModel {
    GyroModel { acc: spec_with_default(0, now), calibrating: false, strict_parity: false }
}

/// The part identifier a response to the identity read yields: its data
/// bits on a valid frame, zero otherwise.
pub open spec fn spec_part_id(resp: u32) -> u16 {
    if spec_frame_valid(resp, false) {
        spec_data_bits(resp)
    } else {
        0
    }
}

/// Gyroscope driver over a register-access bus.
///
/// The embedded accumulator integrates raw rate samples; calibration
/// measures the stationary bias and sets it as the accumulator's center.
pub struct ADXRS450 {
    acc: Accumulator,
    calibrating: bool,
    strict_parity: bool,
}

impl View for ADXRS450 {
    type V = GyroModel;

    closed spec fn view(&self) -> GyroModel {
        GyroModel {
            acc: self.acc@,
            calibrating: self.calibrating,
            strict_parity: self.strict_parity,
        }
    }
}

impl ADXRS450 {
    /// Check the device's identity and construct the driver.
    ///
    /// `part_id_response` is the response frame of a read of
    /// [`protocol::Register::PartId`]. Construction succeeds exactly when
    /// the identifier's high byte is the device signature; otherwise the
    /// observed identifier is returned in the error and nothing proceeds.
    pub fn new(part_id_response: u32, now: u32) -> (r: Result<ADXRS450, DeviceNotFoundError>)
        ensures
            match r {
                Ok(g) => g@ == spec_initial(now as int) && g@.wf() && spec_part_id(
                    part_id_response,
                ) / 0x100 == DEVICE_SIGNATURE,
                Err(e) => e.part_id == spec_part_id(part_id_response) && spec_part_id(
                    part_id_response,
                ) / 0x100 != DEVICE_SIGNATURE,
            },
    {
        let pid: u16 = match protocol::decode_response(part_id_response, false) {
            Ok(v) => v as u16,
            Err(_) => 0,
        };
        proof {
            let d = spec_data_bits(part_id_response);
            assert((d as i16) as u16 == d) by (bit_vector);
            assert(pid >> 8 == pid / 0x100) by (bit_vector);
        }
        if pid >> 8 == DEVICE_SIGNATURE {
            Ok(ADXRS450 { acc: Accumulator::new(now), calibrating: false, strict_parity: false })
        } else {
            Err(DeviceNotFoundError { part_id: pid })
        }
    }

    /// Switch strict parity checking of response frames on or off.
    ///
    /// Off by default: the permissive behavior that never inspects response
    /// parity is kept for compatibility, as a documented integrity gap.
    pub fn set_strict_parity(&mut self, strict: bool)
        requires
            old(self)@.wf(),
        ensures
            final(self)@.wf(),
            final(self)@ == (GyroModel { strict_parity: strict, ..old(self)@ }),
    {
        self.strict_parity = strict;
    }

    /// Feed one response frame taken at time `now` into the integrator.
    ///
    /// A valid frame contributes its decoded rate; an invalid one degrades
    /// to a zero sample so the loop keeps running. Returns whether the
    /// frame was valid.
    pub fn update(&mut self, response: u32, now: u32) -> (valid: bool)
        requires
            old(self)@.wf(),
            old(self)@.acc.samples < u32::MAX,
        ensures
            final(self)@.wf(),
            valid == spec_frame_valid(response, old(self)@.strict_parity),
            final(self)@.acc == spec_add_data(
                old(self)@.acc,
                spec_sample(response, old(self)@.strict_parity),
                now as int,
            ),
            final(self)@.calibrating == old(self)@.calibrating,
            final(self)@.strict_parity == old(self)@.strict_parity,
    {
        let decoded = protocol::decode_response(response, self.strict_parity);
        let valid = decoded.is_ok();
        let rate: i16 = match decoded {
            Ok(v) => v,
            Err(_) => 0,
        };
        proof {
            let m = self@.acc;
            let d = delta_ms(m.last_time, now as int);
            let s = m.last_value + rate as int;
            assert(-0x1_0000_0000 * 0x10000 <= d * s && d * s <= 0x1_0000_0000 * 0x10000)
                by (nonlinear_arith)
                requires
                    0 <= d && d < 0x1_0000_0000,
                    -0x10000 <= s && s <= 0x10000,
            ;
        }
        self.acc.add_data(rate, now);
        valid
    }

    /// Start a calibration pass: clear the center and the integral, so the
    /// following updates accumulate the raw, uncorrected signal.
    pub fn begin_calibration(&mut self, now: u32)
        requires
            old(self)@.wf(),
        ensures
            final(self)@.wf(),
            final(self)@.calibrating,
            final(self)@.strict_parity == old(self)@.strict_parity,
            final(self)@.acc == spec_reset(
                spec_set_center(old(self)@.acc, 0),
                now as int,
            ),
    {
        self.acc.set_integrated_center(0);
        self.acc.reset(now);
        self.calibrating = true;
    }

    /// End a calibration pass: take the mean per-sample contribution
    /// accumulated over the window as the sensor's stationary bias, set it
    /// as the center of all further integration, and restart the integral
    /// from zero.
    ///
    /// At least one sample must have been taken during the window.
    pub fn finish_calibration(&mut self, now: u32)
        requires
            old(self)@.wf(),
            old(self)@.calibrating,
            old(self)@.acc.samples >= 1,
        ensures
            final(self)@.wf(),
            !final(self)@.calibrating,
            final(self)@.strict_parity == old(self)@.strict_parity,
            final(self)@.acc == spec_reset(
                spec_set_center(
                    old(self)@.acc,
                    div_trunc(old(self)@.acc.accumulated, old(self)@.acc.samples as int),
                ),
                now as int,
            ),
    {
        proof {
            lemma_average_bounded(self@.acc);
        }
        let avg: i128 = self.acc.get_integrated_average();
        self.acc.set_integrated_center(avg as i64);
        self.acc.reset(now);
        self.calibrating = false;
    }

    /// Zero the accumulated angle; the calibrated center is preserved.
    pub fn reset(&mut self, now: u32)
        requires
            old(self)@.wf(),
        ensures
            final(self)@.wf(),
            final(self)@.acc == spec_reset(old(self)@.acc, now as int),
            final(self)@.calibrating == old(self)@.calibrating,
            final(self)@.strict_parity == old(self)@.strict_parity,
    {
        self.acc.reset(now);
    }

    /// Number of samples integrated since construction. Callers watch it to
    /// keep within the counter's range before an update and to guarantee the
    /// calibration window held at least one sample.
    pub fn sample_count(&self) -> (r: u32)
        ensures
            r == self@.acc.samples,
    {
        self.acc.sample_count()
    }

    /// The integrated orientation angle, in nano-degrees.
    pub fn get_angle(&self) -> (r: i128)
        requires
            self@.wf(),
        ensures
            r == self@.acc.accumulated * NANODEGREES_PER_INTEGRAL_UNIT,
    {
        self.acc.get_integrated_value() * NANODEGREES_PER_INTEGRAL_UNIT
    }

    /// The most recent instantaneous rotation rate, in nano-degrees per
    /// second.
    pub fn get_rate(&self) -> (r: i64)
        requires
            self@.wf(),
        ensures
            r == self@.acc.last_value * NANODEGREES_PER_SECOND_PER_LSB,
    {
        (self.acc.get_last_value() as i64) * NANODEGREES_PER_SECOND_PER_LSB
    }
}

/// The mean per-sample contribution measured over a calibration window is
/// itself bounded by one calibration step, so it fits the center field.
proof fn lemma_average_bounded(m: AccModel)
    requires
        m.wf(),
        m.samples >= 1,
        abs(m.accumulated) <= m.samples * STEP_BOUND,
    ensures
        m.accumulated != i128::MIN,
        abs(div_trunc(m.accumulated, m.samples as int)) <= STEP_BOUND,
{
    let a = m.accumulated;
    let n = m.samples as int;
    assert(n * STEP_BOUND <= 0xffff_ffff * STEP_BOUND);
    if a >= 0 {
        lemma_div_pos_is_pos(a, n);
        lemma_div_is_ordered(a, n * STEP_BOUND, n);
        lemma_div_multiples_vanish(STEP_BOUND as int, n);
    } else {
        lemma_div_pos_is_pos(-a, n);
        lemma_div_is_ordered(-a, n * STEP_BOUND, n);
        lemma_div_multiples_vanish(STEP_BOUND as int, n);
    }
}

} // verus!
