use memhover::mebibytes::{decimal_text, mebibytes_text};

fn float_text(bytes: u64) -> String {
    format!("{:.1}", bytes as f64 / 1_048_576.0)
}

#[test]
fn decimal_numbers() {
    for n in [0u128, 7, 10, 99, 100, 1048576, u64::MAX as u128, u128::MAX] {
        assert_eq!(decimal_text(n), n.to_string());
    }
}

#[test]
fn known_sizes() {
    assert_eq!(mebibytes_text(0), "0.0");
    assert_eq!(mebibytes_text(52_428), "0.0");
    assert_eq!(mebibytes_text(52_429), "0.1");
    assert_eq!(mebibytes_text(1_048_576), "1.0");
    assert_eq!(mebibytes_text(157_286_400), "150.0");
    assert_eq!(mebibytes_text(1_073_741_823), "1024.0");
    assert_eq!(mebibytes_text(u64::MAX), "17592186044416.0");
}

#[test]
fn ties_go_to_the_even_tenth() {
    assert_eq!(mebibytes_text(262_144), "0.2");
    assert_eq!(mebibytes_text(786_432), "0.8");
    assert_eq!(mebibytes_text(1_310_720), "1.2");
    assert_eq!(mebibytes_text(1_835_008), "1.8");
}

#[test]
fn sizes_read_as_floats_print() {
    for k in 0..20_000u64 {
        let pages = k * 4096;
        assert_eq!(mebibytes_text(pages), float_text(pages));
        let quarters = k * 262_144;
        assert_eq!(mebibytes_text(quarters), float_text(quarters));
    }
    let mut n: u64 = 88_172_645_463_325_252;
    for _ in 0..20_000 {
        n ^= n << 13;
        n ^= n >> 7;
        n ^= n << 17;
        for shift in [0, 5, 9, 11, 12, 20, 30, 40] {
            assert_eq!(mebibytes_text(n >> shift), float_text(n >> shift));
        }
    }
}

#[test]
fn sizes_beyond_exact_doubles() {
    for bit in 52..64u32 {
        let base = 1u64 << bit;
        for offset in 0..4_200u64 {
            assert_eq!(mebibytes_text(base + offset), float_text(base + offset));
            assert_eq!(mebibytes_text(base - 1 - offset), float_text(base - 1 - offset));
        }
    }
    for offset in 0..5_000u64 {
        assert_eq!(mebibytes_text(u64::MAX - offset), float_text(u64::MAX - offset));
    }
    for k in 0..3_000u64 {
        let tie = (1u64 << 53) + k * 262_144 + k % 3;
        assert_eq!(mebibytes_text(tie), float_text(tie));
    }
}

#[test]
fn whole_mebibytes_end_in_zero() {
    for m in [0u64, 1, 9, 10, 4096, 8_589_934_591] {
        assert_eq!(mebibytes_text(m * 1_048_576), format!("{}.0", m));
    }
}
