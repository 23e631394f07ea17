use worthless_js_rt::float::{from_i64, from_i64_exact, to_i32};

fn narrowed(d: f64) -> Option<i32> {
    if d as i32 as f64 == d {
        Some(d as i32)
    } else {
        None
    }
}

#[test]
fn narrowing_agrees_with_the_machine() {
    let samples = [
        0.0f64,
        -0.0,
        1.0,
        -1.0,
        0.5,
        -0.5,
        1.5,
        42.0,
        2147483647.0,
        2147483648.0,
        -2147483648.0,
        -2147483649.0,
        2147483647.5,
        4294967296.0,
        4244444444444.0,
        1e300,
        -1e300,
        5e-324,
        f64::MIN_POSITIVE,
        f64::INFINITY,
        f64::NEG_INFINITY,
        f64::NAN,
        1048576.0,
        1048576.0000000002,
        3.0000000000000004,
    ];
    for d in samples {
        assert_eq!(to_i32(d.to_bits()), narrowed(d), "{}", d);
    }
}

#[test]
fn narrowing_exact_values() {
    assert_eq!(to_i32(0x4045_0000_0000_0000), Some(42));
    assert_eq!(to_i32(0xc1e0_0000_0000_0000), Some(i32::MIN));
    assert_eq!(to_i32(0x41df_ffff_ffc0_0000), Some(i32::MAX));
    assert_eq!(to_i32(0x41e0_0000_0000_0000), None);
    assert_eq!(to_i32(0x3ff8_0000_0000_0000), None);
    assert_eq!(to_i32(0x8000_0000_0000_0000), Some(0));
}

#[test]
fn widening_agrees_with_the_machine() {
    let mut v: i64 = i32::MIN as i64;
    while v <= i32::MAX as i64 {
        let bits = from_i64(v);
        assert_eq!(bits, (v as f64).to_bits(), "{}", v);
        assert_eq!(to_i32(bits), Some(v as i32));
        assert_eq!(from_i64_exact(v), Some(bits));
        v += 7_654_321;
    }
    let mut samples: Vec<i64> = vec![0, 1, -1, 2, 3, 42, -42, i64::MAX, i64::MIN, i64::MAX - 1];
    for shift in 0..63 {
        let p = 1i64 << shift;
        for delta in [-3i64, -2, -1, 0, 1, 2, 3] {
            samples.push(p.wrapping_add(delta));
            samples.push(p.wrapping_add(delta).wrapping_neg());
            samples.push((p | (p >> 1)).wrapping_add(delta));
            samples.push((p | (p >> 53)).wrapping_add(delta));
            samples.push((p | (p >> 54)).wrapping_add(delta));
        }
    }
    let mut state: u64 = 0x9e37_79b9_7f4a_7c15;
    for _ in 0..20_000 {
        state = state.wrapping_mul(6364136223846793005).wrapping_add(1442695040888963407);
        samples.push((state >> (state % 23)) as i64);
        samples.push(((state >> (state % 23)) as i64).wrapping_neg());
    }
    for v in samples {
        assert_eq!(from_i64(v), (v as f64).to_bits(), "{}", v);
        let exact = (v as f64) as i128 == v as i128;
        let expected = if exact { Some((v as f64).to_bits()) } else { None };
        assert_eq!(from_i64_exact(v), expected, "{}", v);
    }
    assert_eq!(from_i64(42), 0x4045_0000_0000_0000);
    assert_eq!(from_i64(4244444444444), 4244444444444f64.to_bits());
    assert_eq!(from_i64((1 << 53) + 1), 0x4340_0000_0000_0000);
    assert_eq!(from_i64((1 << 53) + 3), 0x4340_0000_0000_0002);
}
