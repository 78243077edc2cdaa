use rose_engine::binary64::round_to_double;
use rose_engine::binary64::seventy_percent;

fn float_seventy_percent(p: usize) -> usize {
    (p as f64 * 0.7) as usize
}

#[test]
fn seventy_percent_of_small_cycles() {
    assert_eq!(seventy_percent(0), 0);
    assert_eq!(seventy_percent(1), 0);
    assert_eq!(seventy_percent(2), 1);
    assert_eq!(seventy_percent(3), 2);
    assert_eq!(seventy_percent(10), 7);
    assert_eq!(seventy_percent(41), 28);
    assert_eq!(seventy_percent(100), 70);
}

#[test]
fn seventy_percent_is_below_seven_tenths_where_the_product_rounds_down() {
    assert_eq!(seventy_percent(90), 62);
    assert_eq!(seventy_percent(170), 118);
    assert_eq!(seventy_percent(180), 125);
    assert_eq!(seventy_percent(330), 230);
}

#[test]
fn seventy_percent_agrees_with_double_arithmetic_on_every_small_cycle() {
    for p in 0..200_000usize {
        assert_eq!(seventy_percent(p), float_seventy_percent(p), "cycle of {}", p);
    }
}

#[test]
fn seventy_percent_agrees_with_double_arithmetic_on_large_cycles() {
    let mut p: usize = 1;
    let mut step: usize = 0;
    while step < 63 {
        for delta in 0..40usize {
            let below = p - delta.min(p);
            let above = p.saturating_add(delta);
            assert_eq!(seventy_percent(below), float_seventy_percent(below), "cycle of {}", below);
            assert_eq!(seventy_percent(above), float_seventy_percent(above), "cycle of {}", above);
        }
        let spread = p.wrapping_mul(2_862_933_555_777_941_757).wrapping_add(3_037_000_493) % p.max(1);
        let q = p + spread;
        assert_eq!(seventy_percent(q), float_seventy_percent(q), "cycle of {}", q);
        p *= 2;
        step += 1;
    }
    assert_eq!(seventy_percent(usize::MAX), float_seventy_percent(usize::MAX));
}

#[test]
fn seventy_percent_never_exceeds_the_cycle() {
    for p in [0usize, 1, 2, 9, 90, 1 << 20, 1 << 53, (1 << 53) + 1, usize::MAX] {
        let d = seventy_percent(p);
        assert!(d <= p);
        if p >= 1 {
            assert!(d < p);
        }
    }
}

#[test]
fn seventy_percent_is_the_floor_of_seven_tenths_or_one_less() {
    for p in 0..50_000usize {
        let d = seventy_percent(p);
        assert!(10 * d <= 7 * p);
        assert!(7 * p < 10 * (d + 2));
    }
}

#[test]
fn very_large_cycles_can_draw_more_than_seven_tenths() {
    let p: u64 = 3_351_783_304_518_197;
    if usize::BITS >= 64 {
        let d = seventy_percent(p as usize) as u64;
        assert_eq!(d, 2_346_248_313_162_738);
        assert_eq!(d, 7 * (p / 10) + 7 * (p % 10) / 10 + 1);
    }
}

#[test]
fn round_to_double_keeps_what_fits_in_53_bits() {
    for x in [0u128, 1, 2, 3, 1000, (1 << 53) - 1, 1 << 53] {
        assert_eq!(round_to_double(x), x);
    }
}

#[test]
fn round_to_double_rounds_ties_to_even() {
    let base: u128 = 1 << 53;
    assert_eq!(round_to_double(base + 1), base);
    assert_eq!(round_to_double(base + 2), base + 2);
    assert_eq!(round_to_double(base + 3), base + 4);
    assert_eq!(round_to_double(base + 5), base + 4);
    assert_eq!(round_to_double(base + 6), base + 6);
    assert_eq!(round_to_double(base + 7), base + 8);
    let wide: u128 = 1 << 54;
    assert_eq!(round_to_double(wide + 1), wide);
    assert_eq!(round_to_double(wide + 2), wide);
    assert_eq!(round_to_double(wide + 3), wide + 4);
    assert_eq!(round_to_double(wide + 6), wide + 8);
    assert_eq!(round_to_double((1 << 54) - 1), 1 << 54);
}

#[test]
fn round_to_double_agrees_with_the_conversion_of_the_machine() {
    let mut x: u128 = 1;
    let mut seed: u128 = 0x9E37_79B9_7F4A_7C15;
    let mut step: usize = 0;
    while step < 4000 {
        seed = seed.wrapping_mul(6_364_136_223_846_793_005).wrapping_add(1_442_695_040_888_963_407);
        x = (seed >> (step % 70)) & ((1u128 << 116) - 1);
        assert_eq!(round_to_double(x), (x as f64) as u128, "rounding {}", x);
        step += 1;
    }
    assert_eq!(round_to_double(u64::MAX as u128), (u64::MAX as f64) as u128);
}
