//! Tests of the float generators: category membership, eventual bit
//! coverage, and completeness of the special-value set.

use wdg::Wdg;

#[test]
fn nan_f32() {
    let mut gen = Wdg::with_seed(0);
    assert!(f32::from_bits(gen.nan_f32()).is_nan());
}

#[test]
fn nan_f64() {
    let mut gen = Wdg::with_seed(0);
    assert!(f64::from_bits(gen.nan_f64()).is_nan());
}

#[test]
fn subnormal_f32() {
    let mut gen = Wdg::with_seed(0);
    assert!(f32::from_bits(gen.subnormal_f32()).is_subnormal());
}

#[test]
fn subnormal_f64() {
    let mut gen = Wdg::with_seed(0);
    assert!(f64::from_bits(gen.subnormal_f64()).is_subnormal());
}

#[test]
fn normal_f32() {
    let mut gen = Wdg::with_seed(0);
    assert!(!f32::from_bits(gen.normal_f32()).is_subnormal());
}

#[test]
fn normal_f64() {
    let mut gen = Wdg::with_seed(0);
    assert!(!f64::from_bits(gen.normal_f64()).is_subnormal());
}

#[test]
fn nan_f32_range() {
    let mut gen = Wdg::with_seed(0x29_21_f1_bd_8b_a9_c6_b6);
    let mut coverage: u32 = 0b0;
    for _ in 0..10000 {
        coverage |= gen.nan_f32();
    }

    // every bit should be generated at least once, given enough attempts
    assert_eq!(coverage, u32::MAX, "{:032b}", coverage);
}

#[test]
fn nan_f64_range() {
    let mut gen = Wdg::with_seed(0x6f_35_67_53_e6_37_13_c3);
    let mut coverage: u64 = 0b0;
    for _ in 0..10000 {
        coverage |= gen.nan_f64();
    }

    // every bit should be generated at least once, given enough attempts
    assert_eq!(coverage, u64::MAX, "{:064b}", coverage);
}

#[test]
fn subnormal_f32_range() {
    let mut gen = Wdg::with_seed(0x98_fb_6b_ef_ac_5d_81_f3);
    let mut coverage: u32 = 0b1111_1111 << 23;
    for _ in 0..10000 {
        coverage |= gen.subnormal_f32();
    }

    // every bit should be generated at least once, given enough attempts
    assert_eq!(coverage, u32::MAX, "{:032b}", coverage);
}

#[test]
fn subnormal_f64_range() {
    let mut gen = Wdg::with_seed(0x7a_07_58_14_f4_b8_2f_49);
    let mut coverage: u64 = 0b111_1111_1111 << 52;
    for _ in 0..10000 {
        coverage |= gen.subnormal_f64();
    }

    // every bit should be generated at least once, given enough attempts
    assert_eq!(coverage, u64::MAX, "{:064b}", coverage);
}

#[test]
fn normal_f32_range() {
    let mut gen = Wdg::with_seed(0x15_63_e3_11_09_cb_11_b5);
    let mut coverage: u32 = 0;
    for _ in 0..10000 {
        coverage |= gen.normal_f32();
    }

    // every bit should be generated at least once, given enough attempts
    assert_eq!(coverage, u32::MAX, "{:032b}", coverage);
}

#[test]
fn normal_f64_range() {
    let mut gen = Wdg::with_seed(0x56_e5_19_b1_47_f2_5e_0d);
    let mut coverage: u64 = 0;
    for _ in 0..10000 {
        coverage |= gen.normal_f64();
    }

    // every bit should be generated at least once, given enough attempts
    assert_eq!(coverage, u64::MAX, "{:064b}", coverage);
}

#[test]
fn special_f32() {
    let mut gen = Wdg::with_seed(0x69_1b_e9_82_15_ed_a0_7d);
    for _ in 0..10000 {
        gen.special_f32();
    }
}

#[test]
fn special_f64() {
    let mut gen = Wdg::with_seed(0xf5_31_9e_51_c4_1f_9e_35);
    for _ in 0..10000 {
        gen.special_f64();
    }
}

#[test]
fn special_f32_range() {
    let mut gen = Wdg::with_seed(0x90_ae_72_03_34_a0_d7_4b);
    let mut had_infinite = false;
    let mut had_neg_infinite = false;
    let mut had_zero = false;
    let mut had_neg_zero = false;
    let mut had_one = false;
    let mut had_neg_one = false;
    let mut had_min_positive = false;
    let mut had_max_negative = false;
    let mut had_epsilon = false;
    let mut had_neg_epsilon = false;
    for _ in 0..10000 {
        let num = gen.special_f32();
        had_infinite |= num == f32::INFINITY.to_bits();
        had_neg_infinite |= num == f32::NEG_INFINITY.to_bits();
        had_zero |= num == 0.0f32.to_bits();
        had_neg_zero |= num == (-0.0f32).to_bits();
        had_one |= num == 1.0f32.to_bits();
        had_neg_one |= num == (-1.0f32).to_bits();
        had_min_positive |= num == f32::MIN_POSITIVE.to_bits();
        had_max_negative |= num == (-f32::MIN_POSITIVE).to_bits();
        had_epsilon |= num == f32::EPSILON.to_bits();
        had_neg_epsilon |= num == (-f32::EPSILON).to_bits();
    }
    assert!(
        had_infinite
            && had_neg_infinite
            && had_zero
            && had_neg_zero
            && had_one
            && had_neg_one
            && had_min_positive
            && had_max_negative
            && had_epsilon
            && had_neg_epsilon
    );
}

#[test]
fn special_f64_range() {
    let mut gen = Wdg::with_seed(0x10_6c_a1_34_a5_6d_03_97);
    let mut had_infinite = false;
    let mut had_neg_infinite = false;
    let mut had_zero = false;
    let mut had_neg_zero = false;
    let mut had_one = false;
    let mut had_neg_one = false;
    let mut had_min_positive = false;
    let mut had_max_negative = false;
    let mut had_epsilon = false;
    let mut had_neg_epsilon = false;
    for _ in 0..10000 {
        let num = gen.special_f64();
        had_infinite |= num == f64::INFINITY.to_bits();
        had_neg_infinite |= num == f64::NEG_INFINITY.to_bits();
        had_zero |= num == 0.0f64.to_bits();
        had_neg_zero |= num == (-0.0f64).to_bits();
        had_one |= num == 1.0f64.to_bits();
        had_neg_one |= num == (-1.0f64).to_bits();
        had_min_positive |= num == f64::MIN_POSITIVE.to_bits();
        had_max_negative |= num == (-f64::MIN_POSITIVE).to_bits();
        had_epsilon |= num == f64::EPSILON.to_bits();
        had_neg_epsilon |= num == (-f64::EPSILON).to_bits();
    }
    assert!(
        had_infinite
            && had_neg_infinite
            && had_zero
            && had_neg_zero
            && had_one
            && had_neg_one
            && had_min_positive
            && had_max_negative
            && had_epsilon
            && had_neg_epsilon
    );
}

#[test]
fn f32_range() {
    let mut gen = Wdg::with_seed(0x7c_65_54_c7_d6_a9_d4_b7);

    // these should all be true by the end, given enough attempts
    let mut had_normal = false;
    let mut had_subnormal = false;
    let mut had_nan = false;
    let mut had_special = false;
    for _ in 0..10000 {
        let num = f32::from_bits(gen.f32_bits());
        had_normal |= num.is_normal();
        had_subnormal |= num.is_subnormal();
        had_nan |= num.is_nan();
        had_special |= num.is_infinite()
            | (num.to_bits() == 0.0f32.to_bits())
            | (num.to_bits() == (-0.0f32).to_bits())
            | (num.to_bits() == 1.0f32.to_bits())
            | (num.to_bits() == (-1.0f32).to_bits())
            | (num.to_bits() == f32::MIN.to_bits())
            | (num.to_bits() == f32::MAX.to_bits())
            | (num.to_bits() == f32::MIN_POSITIVE.to_bits())
            | (num.to_bits() == (-f32::MIN_POSITIVE).to_bits())
            | (num.to_bits() == f32::EPSILON.to_bits())
            | (num.to_bits() == (-f32::EPSILON).to_bits());
    }
    assert!(had_normal && had_subnormal && had_nan && had_special);
}

#[test]
fn f64_range() {
    let mut gen = Wdg::with_seed(0x9a_a4_ee_0f_08_ba_d9_de);

    // these should all be true by the end, given enough attempts
    let mut had_normal = false;
    let mut had_subnormal = false;
    let mut had_nan = false;
    let mut had_special = false;
    for _ in 0..10000 {
        let num = f64::from_bits(gen.f64_bits());
        had_normal |= num.is_normal();
        had_subnormal |= num.is_subnormal();
        had_nan |= num.is_nan();
        had_special |= num.is_infinite()
            | (num.to_bits() == 0.0f64.to_bits())
            | (num.to_bits() == (-0.0f64).to_bits())
            | (num.to_bits() == 1.0f64.to_bits())
            | (num.to_bits() == (-1.0f64).to_bits())
            | (num.to_bits() == f64::MIN.to_bits())
            | (num.to_bits() == f64::MAX.to_bits())
            | (num.to_bits() == f64::MIN_POSITIVE.to_bits())
            | (num.to_bits() == (-f64::MIN_POSITIVE).to_bits())
            | (num.to_bits() == f64::EPSILON.to_bits())
            | (num.to_bits() == (-f64::EPSILON).to_bits());
    }
    assert!(had_normal && had_subnormal && had_nan && had_special);
}

#[test]
fn nan_f32_always_nan() {
    let mut gen = Wdg::with_seed(0x0b_65_58_2b_4e_d8_20_fe);
    for i in 0..10000 {
        let num = f32::from_bits(gen.nan_f32());
        assert!(num.is_nan(), "{}: {:032b}", i, num.to_bits());
    }
}

#[test]
fn nan_f64_always_nan() {
    let mut gen = Wdg::with_seed(0x36_44_3e_f8_40_af_6e_49);
    for i in 0..10000 {
        let num = f64::from_bits(gen.nan_f64());
        assert!(num.is_nan(), "{}: {:064b}", i, num.to_bits());
    }
}

#[test]
fn subnormal_f32_always_subnormal() {
    let mut gen = Wdg::with_seed(0x52_58_4a_d1_55_e1_72_10);
    for i in 0..10000 {
        let num = f32::from_bits(gen.subnormal_f32());
        assert!(num.is_subnormal(), "{}: {:032b}", i, num.to_bits());
    }
}

#[test]
fn subnormal_f64_always_subnormal() {
    let mut gen = Wdg::with_seed(0x2d_46_cc_c0_45_c5_ec_03);
    for i in 0..10000 {
        let num = f64::from_bits(gen.subnormal_f64());
        assert!(num.is_subnormal(), "{}: {:064b}", i, num.to_bits());
    }
}

#[test]
fn normal_f32_never_subnormal() {
    let mut gen = Wdg::with_seed(0x2c_fe_59_bb_7a_56_28_20);
    for i in 0..10000 {
        let num = f32::from_bits(gen.normal_f32());
        assert!(num.is_normal(), "{}: {:032b}", i, num.to_bits());
    }
}

#[test]
fn normal_f64_never_subnormal() {
    let mut gen = Wdg::with_seed(0xa9_26_d1_d9_7b_d7_94_15);
    for i in 0..10000 {
        let num = f64::from_bits(gen.normal_f64());
        assert!(num.is_normal(), "{}: {:064b}", i, num.to_bits());
    }
}
