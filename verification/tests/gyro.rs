use adxrs450::gyro::{DeviceNotFoundError, ADXRS450, SAMPLE_PERIOD};

/// A response frame with normal-operation status and the payload in the
/// data bits.
fn valid_frame(payload: u16) -> u32 {
    (1u32 << 26) | ((payload as u32) << 10)
}

/// A valid rate frame for a signed raw reading.
fn rate_frame(rate: i16) -> u32 {
    valid_frame(rate as u16)
}

/// A part-identifier frame whose high byte is the device signature.
fn good_part_id_frame() -> u32 {
    valid_frame(0x5200)
}

/// Run a calibration pass fed with a constant raw rate, one sample every
/// sample period, and return the driver and the timestamp after the pass.
fn calibrated_with_constant_rate(rate: i16, samples: u32) -> (ADXRS450, u32) {
    let mut gyro = ADXRS450::new(good_part_id_frame(), 0).unwrap();
    let mut now: u32 = 100;
    gyro.begin_calibration(now);
    for _ in 0..samples {
        now += SAMPLE_PERIOD as u32;
        gyro.update(rate_frame(rate), now);
    }
    gyro.finish_calibration(now);
    (gyro, now)
}

#[test]
fn construction_rejects_wrong_part_id() {
    // The identity read reports 0x5301: the high byte is not the device
    // signature, so construction fails and carries the observed value.
    let r = ADXRS450::new(valid_frame(0x5301), 0);
    assert_eq!(r.err(), Some(DeviceNotFoundError { part_id: 0x5301 }));
}

#[test]
fn construction_rejects_missing_response() {
    // An all-zero frame decodes to a zero reading, which cannot match the
    // signature either.
    let r = ADXRS450::new(0, 0);
    assert_eq!(r.err(), Some(DeviceNotFoundError { part_id: 0 }));
}

#[test]
fn construction_accepts_device_signature() {
    assert!(ADXRS450::new(good_part_id_frame(), 0).is_ok());
    assert!(ADXRS450::new(valid_frame(0x52ab), 7).is_ok());
}

#[test]
fn zero_rate_calibration_yields_zero_readouts() {
    let (gyro, _) = calibrated_with_constant_rate(0, 50);
    assert_eq!(gyro.get_angle(), 0);
    assert_eq!(gyro.get_rate(), 0);
}

#[test]
fn update_integrates_decoded_rate() {
    let mut gyro = ADXRS450::new(good_part_id_frame(), 0).unwrap();
    assert!(gyro.update(rate_frame(100), 2));
    assert!(gyro.update(rate_frame(100), 4));
    // Integral: 2*(0+100) + 2*(100+100) = 600 doubled raw-ms, scaled to
    // nano-degrees by 6250.
    assert_eq!(gyro.get_angle(), 600 * 6250);
    // Rate read-out: 100 raw = 100 * 12.5 million nano-degrees per second.
    assert_eq!(gyro.get_rate(), 100 * 12_500_000);
}

#[test]
fn invalid_frame_degrades_to_zero_sample() {
    let mut gyro = ADXRS450::new(good_part_id_frame(), 0).unwrap();
    assert!(gyro.update(rate_frame(100), 2));
    // Bad status: the tick still integrates, with a zero reading.
    assert!(!gyro.update(0, 4));
    assert_eq!(gyro.get_angle(), (200 + 2 * (100 + 0)) * 6250);
    assert_eq!(gyro.get_rate(), 0);
}

#[test]
fn strict_parity_can_be_switched_on() {
    let mut gyro = ADXRS450::new(good_part_id_frame(), 0).unwrap();
    let odd = 1u32 << 26;
    // Permissive by default: the odd-parity frame passes.
    assert!(gyro.update(odd, 2));
    gyro.set_strict_parity(true);
    assert!(!gyro.update(odd, 4));
    // An even-parity frame still passes under the strict check.
    assert!(gyro.update(valid_frame(1), 6));
}

#[test]
fn calibration_measures_and_subtracts_stationary_bias() {
    // A constant raw rate of 100 during the window: steps 2*(0+100) then
    // 2*(100+100) four times, so the integral is 1800 over 5 samples and
    // the measured bias is 360 per sample.
    let (mut gyro, mut now) = calibrated_with_constant_rate(100, 5);
    assert_eq!(gyro.get_angle(), 0);
    // The same stationary signal now integrates against the bias: the
    // first step contributes 2*(0+100) - 360 = -160 ...
    now += SAMPLE_PERIOD as u32;
    gyro.update(rate_frame(100), now);
    assert_eq!(gyro.get_angle(), -160 * 6250);
    // ... and every following one 2*(100+100) - 360 = 40.
    now += SAMPLE_PERIOD as u32;
    gyro.update(rate_frame(100), now);
    assert_eq!(gyro.get_angle(), (-160 + 40) * 6250);
}

#[test]
fn alternating_rate_follows_trapezoidal_reference() {
    // After a zero-bias calibration, 100 samples alternating +100/-100 raw
    // units at the fixed sample period: the first trapezoid contributes
    // 2*(0+100), every later pair of neighbors sums to zero.
    let (mut gyro, mut now) = calibrated_with_constant_rate(0, 50);
    let mut reference: i128 = 0;
    let mut last: i128 = 0;
    for i in 0..100u32 {
        let rate: i16 = if i % 2 == 0 { 100 } else { -100 };
        now += SAMPLE_PERIOD as u32;
        gyro.update(rate_frame(rate), now);
        reference += SAMPLE_PERIOD as i128 * (last + rate as i128);
        last = rate as i128;
    }
    assert_eq!(reference, 200);
    assert_eq!(gyro.get_angle(), reference * 6250);
    // The read-out stays within the bound of one trapezoid of the
    // alternating signal.
    assert!(gyro.get_angle().abs() <= 400 * 6250);
}

#[test]
fn reset_zeroes_angle_but_keeps_the_calibrated_center() {
    let (mut gyro, mut now) = calibrated_with_constant_rate(100, 5);
    now += SAMPLE_PERIOD as u32;
    gyro.update(rate_frame(100), now);
    assert_ne!(gyro.get_angle(), 0);
    now += 1;
    gyro.reset(now);
    assert_eq!(gyro.get_angle(), 0);
    assert_eq!(gyro.get_rate(), 0);
    // The bias of 360 per sample is still subtracted afterwards.
    now += SAMPLE_PERIOD as u32;
    gyro.update(rate_frame(100), now);
    assert_eq!(gyro.get_angle(), (2 * (0 + 100) - 360) * 6250);
}

#[test]
fn calibration_can_be_rerun() {
    // A first pass measures a bias; a second pass over a quiet sensor
    // clears it again.
    let (mut gyro, mut now) = calibrated_with_constant_rate(100, 5);
    gyro.begin_calibration(now);
    for _ in 0..5 {
        now += SAMPLE_PERIOD as u32;
        gyro.update(rate_frame(0), now);
    }
    gyro.finish_calibration(now);
    now += SAMPLE_PERIOD as u32;
    gyro.update(rate_frame(0), now);
    assert_eq!(gyro.get_angle(), 0);
}
