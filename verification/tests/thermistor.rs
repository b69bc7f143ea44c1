use micromath::F32Ext;
use thermopanel::thermistor::{classify, Sample, FULL_SCALE, SERIES_RESISTOR_OHMS};

/// Steinhart-Hart temperature in Celsius of a divider sample.
fn celsius(upper: u16, lower: u16) -> f32 {
    let r = SERIES_RESISTOR_OHMS as f32 * f32::from(upper) / f32::from(lower);
    let ln_r = F32Ext::ln(r);
    let inv_t = 0.001129148 + 0.000234125 * ln_r + 8.76741e-8 * ln_r * ln_r * ln_r;
    1.0 / inv_t - 273.15
}

#[test]
fn full_scale_is_an_open_circuit() {
    assert_eq!(FULL_SCALE, 4095);
    assert_eq!(classify(4095), Sample::OpenCircuit);
}

#[test]
fn other_codes_give_the_divider_ratio() {
    assert_eq!(classify(1), Sample::Divider { upper: 1, lower: 4094 });
    assert_eq!(classify(2048), Sample::Divider { upper: 2048, lower: 2047 });
    assert_eq!(classify(4094), Sample::Divider { upper: 4094, lower: 1 });
    for code in 0..4095u16 {
        assert_eq!(
            classify(code),
            Sample::Divider { upper: code, lower: 4095 - code }
        );
    }
}

#[test]
fn code_zero_is_not_guarded() {
    assert_eq!(classify(0), Sample::Divider { upper: 0, lower: 4095 });
}

#[test]
fn series_resistor_is_ten_kilohm() {
    assert_eq!(SERIES_RESISTOR_OHMS, 10_000);
}

#[test]
fn divider_ratio_rises_with_the_code() {
    let mut previous: Option<(u32, u32)> = None;
    for code in 0..4095u16 {
        let Sample::Divider { upper, lower } = classify(code) else {
            panic!("code {code} below full scale is no open circuit");
        };
        assert!(lower > 0);
        let (upper, lower) = (u32::from(upper), u32::from(lower));
        if let Some((pu, pl)) = previous {
            assert!(pu * lower < upper * pl, "code {code}");
        }
        previous = Some((upper, lower));
    }
}

#[test]
fn midscale_is_room_temperature() {
    let Sample::Divider { upper, lower } = classify(2048) else {
        panic!("mid scale is no open circuit");
    };
    let t = celsius(upper, lower);
    assert_eq!(format!("{t:.1}"), "25.0");
}

#[test]
fn temperature_is_finite_below_full_scale() {
    for code in 1..4095u16 {
        let Sample::Divider { upper, lower } = classify(code) else {
            panic!("code {code} below full scale is no open circuit");
        };
        assert!(celsius(upper, lower).is_finite(), "code {code}");
    }
}

#[test]
fn temperature_falls_as_the_code_rises() {
    let mut previous = f32::INFINITY;
    for code in 1..4095u16 {
        let Sample::Divider { upper, lower } = classify(code) else {
            panic!("code {code} below full scale is no open circuit");
        };
        let t = celsius(upper, lower);
        assert!(t < previous, "code {code}: {t} after {previous}");
        previous = t;
    }
    let Sample::Divider { upper: u1, lower: l1 } = classify(1000) else {
        panic!("no open circuit");
    };
    let Sample::Divider { upper: u2, lower: l2 } = classify(3000) else {
        panic!("no open circuit");
    };
    assert!(celsius(u2, l2) < celsius(u1, l1));
}
