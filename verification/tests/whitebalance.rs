use std::cell::RefCell;

use colorprofile::arith::{dot, dot_over_gains, BinOp};
use colorprofile::ieee::ONE;
use colorprofile::whitebalance::normalize_wbs;

fn fpu(op: BinOp, a: u32, b: u32) -> u32 {
    let x = f32::from_bits(a);
    let y = f32::from_bits(b);
    let r = match op {
        BinOp::Add => x + y,
        BinOp::Mul => x * y,
        BinOp::Div => x / y,
    };
    r.to_bits()
}

fn bits4(v: [f32; 4]) -> [u32; 4] {
    [v[0].to_bits(), v[1].to_bits(), v[2].to_bits(), v[3].to_bits()]
}

fn bits3(v: [f32; 3]) -> [u32; 3] {
    [v[0].to_bits(), v[1].to_bits(), v[2].to_bits()]
}

fn normalize(v: [f32; 4]) -> [f32; 4] {
    let out = normalize_wbs(bits4(v), &fpu);
    [
        f32::from_bits(out[0]),
        f32::from_bits(out[1]),
        f32::from_bits(out[2]),
        f32::from_bits(out[3]),
    ]
}

#[test]
fn normalize_divides_by_the_reference_gain() {
    assert_eq!(normalize([2.0, 4.0, 8.0, 1.0]), [0.5, 1.0, 2.0, 0.25]);
    assert_eq!(normalize([1.0, 1.0, 1.0, 1.0]), [1.0, 1.0, 1.0, 1.0]);
    assert_eq!(normalize([-3.0, -1.5, 6.0, 1.5]), [2.0, 1.0, -4.0, -1.0]);
}

#[test]
fn normalize_reference_channel_is_exactly_one() {
    let gains = [
        [2.3, 1.7, 1.4, 0.9],
        [1.0e-30, 3.0e-38, 7.5, 1.0],
        [1.0, f32::MAX, 1.0, 1.0],
        [1.0, f32::MIN_POSITIVE, 1.0, 1.0],
        [0.1, 0.3, 0.7, 0.9],
        [5.0, 1.0e-40, 2.0, 3.0],
    ];
    for v in gains {
        let out = normalize_wbs(bits4(v), &fpu);
        assert_eq!(out[1], ONE, "{:?}", v);
    }
}

#[test]
fn normalize_puts_one_for_every_gain_that_is_not_normal() {
    let irregular = [
        f32::NAN,
        f32::INFINITY,
        f32::NEG_INFINITY,
        0.0,
        -0.0,
        1.0e-40,
        -1.0e-40,
        f32::from_bits(1),
    ];
    for x in irregular {
        for i in 0..4 {
            let mut v = [3.0f32, 2.0, 5.0, 7.0];
            v[i] = x;
            let out = normalize_wbs(bits4(v), &fpu);
            assert_eq!(out[i], ONE, "{:?} at {}", x, i);
        }
    }
    let all = normalize_wbs(bits4([f32::NAN, 0.0, f32::INFINITY, 1.0e-40]), &fpu);
    assert_eq!(all, [ONE, ONE, ONE, ONE]);
}

#[test]
fn normalize_divides_by_a_reference_gain_that_is_not_normal() {
    let by_zero = normalize([1.0, 0.0, -2.0, 3.0]);
    assert_eq!(by_zero, [f32::INFINITY, 1.0, f32::NEG_INFINITY, f32::INFINITY]);
    let by_infinity = normalize([1.0, f32::INFINITY, -2.0, 3.0]);
    assert_eq!(by_infinity[1], 1.0);
    assert_eq!(by_infinity[0].to_bits(), 0.0f32.to_bits());
    assert_eq!(by_infinity[2].to_bits(), (-0.0f32).to_bits());
    assert_eq!(by_infinity[3].to_bits(), 0.0f32.to_bits());
    let by_nan = normalize([1.0, f32::NAN, -2.0, 3.0]);
    assert!(by_nan[0].is_nan() && by_nan[2].is_nan() && by_nan[3].is_nan());
    assert_eq!(by_nan[1], 1.0);
    let by_subnormal = normalize([1.0e-30, 1.0e-40, 1.0e-32, 1.0]);
    assert_eq!(by_subnormal[0], 1.0e-30f32 / 1.0e-40f32);
    assert_eq!(by_subnormal[1], 1.0);
    assert_eq!(by_subnormal[2], 1.0e-32f32 / 1.0e-40f32);
    assert_eq!(by_subnormal[3], f32::INFINITY);
}

#[test]
fn normalize_is_idempotent_on_normal_output() {
    let gains = [
        [2.3, 1.7, 1.4, 0.9],
        [0.1, 0.3, 0.7, 0.9],
        [1.0, 1.0, 1.0, 0.0],
        [f32::NAN, 2.0, 1.0, f32::INFINITY],
        [1.0e-30, 1.0e-40, 1.0e-32, 1.0e-35],
        [-4.0, 3.0, 1.0e20, 1.0e-20],
    ];
    for v in gains {
        let once = normalize_wbs(bits4(v), &fpu);
        assert!(once.iter().all(|g| f32::from_bits(*g).is_normal()), "{:?}", v);
        let twice = normalize_wbs(once, &fpu);
        assert_eq!(twice, once, "{:?}", v);
    }
}

#[test]
fn normalize_changes_output_that_left_the_normal_range() {
    let underflow = normalize_wbs(bits4([1.0e-30, 1.0e30, 1.0, 1.0]), &fpu);
    assert_eq!(underflow[0], 0);
    assert_eq!(normalize_wbs(underflow, &fpu)[0], ONE);
    let overflow = normalize_wbs(bits4([1.0e30, 1.0e-30, 1.0, 1.0]), &fpu);
    assert_eq!(overflow[0], f32::INFINITY.to_bits());
    assert_eq!(normalize_wbs(overflow, &fpu)[0], ONE);
    let by_zero = normalize_wbs(bits4([1.0, 0.0, 2.0, 3.0]), &fpu);
    assert_eq!(normalize_wbs(by_zero, &fpu), [ONE, ONE, ONE, ONE]);
}

#[test]
fn normalize_asks_for_one_division_per_normal_gain() {
    let log: RefCell<Vec<(BinOp, u32, u32)>> = RefCell::new(Vec::new());
    let recording = |op: BinOp, a: u32, b: u32| {
        log.borrow_mut().push((op, a, b));
        fpu(op, a, b)
    };
    let v = bits4([6.0, 3.0, f32::NAN, 0.0]);
    let out = normalize_wbs(v, &recording);
    assert_eq!(out, bits4([2.0, 1.0, 1.0, 1.0]));
    assert_eq!(*log.borrow(), vec![(BinOp::Div, v[0], v[1]), (BinOp::Div, v[1], v[1])]);
}

#[test]
fn normalize_hands_on_what_the_unit_returns() {
    let constant = |_op: BinOp, _a: u32, _b: u32| 0x1234_5678u32;
    let out = normalize_wbs(bits4([6.0, 3.0, f32::NAN, 1.0]), &constant);
    assert_eq!(out, [0x1234_5678, 0x1234_5678, ONE, 0x1234_5678]);
}

#[test]
fn dot_accumulates_products_from_zero_left_to_right() {
    let w = bits3([1.0, 2.0, 3.0]);
    let v = bits3([4.0, 5.0, 6.0]);
    assert_eq!(dot(&fpu, &w, &v), 32.0f32.to_bits());
    let big = bits3([1.0e30, 1.0e30, -1.0e38]);
    let by = bits3([1.0e8, 1.0e8, 1.0]);
    let expected = ((0.0f32 + 1.0e30f32 * 1.0e8f32) + 1.0e30f32 * 1.0e8f32) + -1.0e38f32 * 1.0f32;
    assert_eq!(dot(&fpu, &big, &by), expected.to_bits());
    let negative_zero = [(-0.0f32).to_bits()];
    assert_eq!(dot(&fpu, &negative_zero, &[ONE]), 0.0f32.to_bits());
    let empty: [u32; 0] = [];
    assert_eq!(dot(&fpu, &empty, &empty), 0);
}

#[test]
fn dot_asks_for_product_then_sum() {
    let log: RefCell<Vec<(BinOp, u32, u32)>> = RefCell::new(Vec::new());
    let recording = |op: BinOp, a: u32, b: u32| {
        log.borrow_mut().push((op, a, b));
        fpu(op, a, b)
    };
    let w = [2.0f32.to_bits(), 3.0f32.to_bits()];
    let v = [5.0f32.to_bits(), 7.0f32.to_bits()];
    assert_eq!(dot(&recording, &w, &v), 31.0f32.to_bits());
    assert_eq!(
        *log.borrow(),
        vec![
            (BinOp::Mul, w[0], v[0]),
            (BinOp::Add, 0, 10.0f32.to_bits()),
            (BinOp::Mul, w[1], v[1]),
            (BinOp::Add, 10.0f32.to_bits(), 21.0f32.to_bits()),
        ]
    );
}

#[test]
fn dot_over_gains_passes_over_gains_not_greater_than_zero() {
    let w = bits4([8.0, 6.0, 4.0, 2.0]);
    assert_eq!(dot_over_gains(&fpu, &w, &bits4([2.0, 3.0, 4.0, 0.5])), 11.0f32.to_bits());
    assert_eq!(dot_over_gains(&fpu, &w, &bits4([2.0, 0.0, 4.0, -0.5])), 5.0f32.to_bits());
    assert_eq!(dot_over_gains(&fpu, &w, &bits4([-0.0, f32::NAN, -4.0, f32::NEG_INFINITY])), 0);
    assert_eq!(dot_over_gains(&fpu, &w, &bits4([f32::INFINITY, 3.0, -1.0, 0.0])), 2.0f32.to_bits());
    let tiny = dot_over_gains(&fpu, &bits4([1.0e-40, 0.0, 0.0, 0.0]), &bits4([1.0e-40, -1.0, -1.0, -1.0]));
    assert_eq!(tiny, ONE);
}

fn next(state: &mut u64) -> u32 {
    *state = state.wrapping_mul(6364136223846793005).wrapping_add(1442695040888963407);
    (*state >> 32) as u32
}

#[test]
fn machine_division_gives_one_for_a_normal_number_by_itself() {
    let mut state: u64 = 0x0123_4567_89ab_cdef;
    let mut tried = 0;
    while tried < 100_000 {
        let x = next(&mut state);
        if f32::from_bits(x).is_normal() {
            assert_eq!(fpu(BinOp::Div, x, x), ONE, "{:#010x}", x);
            tried += 1;
        }
    }
    for x in [0x0080_0000u32, 0x7f7f_ffff, 0x8080_0000, 0xff7f_ffff, ONE] {
        assert_eq!(fpu(BinOp::Div, x, x), ONE, "{:#010x}", x);
    }
}

#[test]
fn machine_division_by_one_gives_the_number_back() {
    let mut state: u64 = 0xfedc_ba98_7654_3210;
    let mut tried = 0;
    while tried < 100_000 {
        let x = next(&mut state);
        if f32::from_bits(x).is_normal() {
            assert_eq!(fpu(BinOp::Div, x, ONE), x, "{:#010x}", x);
            tried += 1;
        }
    }
    for x in [0x0080_0000u32, 0x7f7f_ffff, 0x8080_0000, 0xff7f_ffff, ONE] {
        assert_eq!(fpu(BinOp::Div, x, ONE), x, "{:#010x}", x);
    }
}

#[test]
fn normalize_on_many_vectors_keeps_its_laws() {
    let mut state: u64 = 0x5851_f42d_4c95_7f2d;
    for _ in 0..50_000 {
        let v = [next(&mut state), next(&mut state), next(&mut state), next(&mut state)];
        let once = normalize_wbs(v, &fpu);
        assert_eq!(once[1], ONE);
        for i in 0..4 {
            if f32::from_bits(v[i]).is_normal() {
                let q = f32::from_bits(v[i]) / f32::from_bits(v[1]);
                assert!(once[i] == q.to_bits() || (q.is_nan() && f32::from_bits(once[i]).is_nan()));
            } else {
                assert_eq!(once[i], ONE);
            }
        }
        let twice = normalize_wbs(once, &fpu);
        if once.iter().all(|g| f32::from_bits(*g).is_normal()) {
            assert_eq!(twice, once);
        } else {
            assert_ne!(twice, once);
        }
    }
}
