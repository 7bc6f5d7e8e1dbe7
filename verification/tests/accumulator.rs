use adxrs450::accumulator::Accumulator;

/// Reference trapezoidal sum in doubled raw-unit-milliseconds: for each
/// sample, (t - t_prev) * (v_prev + v), minus one center per sample.
fn reference_integral(t0: u32, samples: &[(u32, i16)], center: i64) -> i128 {
    let mut total: i128 = 0;
    let mut last_t = t0;
    let mut last_v: i16 = 0;
    for &(t, v) in samples {
        let dt = t.wrapping_sub(last_t) as i128;
        total += dt * (last_v as i128 + v as i128) - center as i128;
        last_t = t;
        last_v = v;
    }
    total
}

#[test]
fn integral_matches_trapezoidal_reference() {
    let samples: [(u32, i16); 5] = [(2, 100), (4, -100), (6, -100), (10, 50), (11, 0)];
    let mut acc = Accumulator::new(0);
    for (t, v) in samples {
        acc.add_data(v, t);
    }
    assert_eq!(
        acc.get_integrated_value(),
        reference_integral(0, &samples, 0)
    );
    // Spelled out: 2*(0+100) + 2*(100-100) + 2*(-100-100) + 4*(-100+50) + 1*(50+0).
    assert_eq!(acc.get_integrated_value(), 200 + 0 - 400 - 200 + 50);
}

#[test]
fn reset_zeroes_integral_and_last_value() {
    let mut acc = Accumulator::new(0);
    acc.add_data(1000, 7);
    acc.add_data(-2000, 19);
    assert_ne!(acc.get_integrated_value(), 0);
    acc.reset(20);
    assert_eq!(acc.get_integrated_value(), 0);
    assert_eq!(acc.get_last_value(), 0);
    // The next step integrates from a zero last value at the reset stamp.
    acc.add_data(10, 22);
    assert_eq!(acc.get_integrated_value(), 2 * (0 + 10));
}

#[test]
fn center_subtracts_constant_bias() {
    let samples: [(u32, i16); 4] = [(2, 10), (4, 30), (6, -20), (8, 0)];
    let mut plain = Accumulator::new(0);
    for (t, v) in samples {
        plain.add_data(v, t);
    }
    let mut centered = Accumulator::new(0);
    centered.set_integrated_center(9);
    for (t, v) in samples {
        centered.add_data(v, t);
    }
    // With center c the result is the c = 0 result minus c per sample.
    assert_eq!(
        centered.get_integrated_value(),
        plain.get_integrated_value() - samples.len() as i128 * 9
    );
    // Setting the center does not retroactively correct the integral.
    let before = plain.get_integrated_value();
    plain.set_integrated_center(1000);
    assert_eq!(plain.get_integrated_value(), before);
}

#[test]
fn average_is_truncated_mean_per_sample() {
    let mut acc = Accumulator::new(0);
    acc.add_data(100, 1);
    // One sample: integral 1*(0+100) = 100, average 100.
    assert_eq!(acc.get_integrated_average(), 100);
    acc.add_data(-100, 2);
    // Integral still 100 over two samples: 100 / 2 = 50.
    assert_eq!(acc.get_integrated_average(), 50);
}

#[test]
fn average_rounds_toward_zero_when_negative() {
    let mut acc = Accumulator::new(0);
    acc.add_data(-7, 1);
    acc.add_data(7, 2);
    // Integral is 1*(0-7) + 1*(-7+7) = -7 over two samples.
    assert_eq!(acc.get_integrated_value(), -7);
    assert_eq!(acc.get_integrated_average(), -3);
}

#[test]
fn delta_wraps_with_the_millisecond_counter() {
    // Counter rolls over between the stamp and the sample: the modular
    // difference 2 is used, not a huge or negative span.
    let mut acc = Accumulator::new(u32::MAX);
    acc.add_data(100, 1);
    assert_eq!(acc.get_integrated_value(), 2 * (0 + 100));
}

#[test]
fn with_default_seeds_the_integral() {
    let mut acc = Accumulator::with_default(50, 0);
    assert_eq!(acc.get_integrated_value(), 50);
    acc.add_data(10, 1);
    assert_eq!(acc.get_integrated_value(), 50 + 1 * (0 + 10));
    assert_eq!(acc.get_last_value(), 10);
}
