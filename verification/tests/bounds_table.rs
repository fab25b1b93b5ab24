use acorn_prng::Acorn;
use acorn_prng::NumType;

#[test]
fn bounds_testing() {
    assert_eq!(Acorn::generate_bounds(1, &NumType::U128), (0, 9));
    assert_eq!(Acorn::generate_bounds(2, &NumType::U128), (10, 99));
    assert_eq!(Acorn::generate_bounds(4, &NumType::U128), (1_000, 9_999));
    assert_eq!(Acorn::generate_bounds(6, &NumType::U128), (100_000, 999_999));
    assert_eq!(Acorn::generate_bounds(7, &NumType::U128), (1_000_000, 9_999_999));
    assert_eq!(Acorn::generate_bounds(8, &NumType::U128), (10_000_000, 99_999_999));
    assert_eq!(Acorn::generate_bounds(9, &NumType::U128), (100_000_000, 999_999_999));
    assert_eq!(Acorn::generate_bounds(11, &NumType::U128), (10_000_000_000, 99_999_999_999));
    assert_eq!(Acorn::generate_bounds(12, &NumType::U128), (100_000_000_000, 999_999_999_999));
    assert_eq!(Acorn::generate_bounds(13, &NumType::U128), (1_000_000_000_000, 9_999_999_999_999));
    assert_eq!(Acorn::generate_bounds(14, &NumType::U128), (10_000_000_000_000, 99_999_999_999_999));
    assert_eq!(Acorn::generate_bounds(15, &NumType::U128), (100_000_000_000_000, 999_999_999_999_999));
    assert_eq!(Acorn::generate_bounds(16, &NumType::U128), (1_000_000_000_000_000, 9_999_999_999_999_999));
    assert_eq!(Acorn::generate_bounds(17, &NumType::U128), (10_000_000_000_000_000, 99_999_999_999_999_999));
    assert_eq!(Acorn::generate_bounds(18, &NumType::U128), (100_000_000_000_000_000, 999_999_999_999_999_999));
    assert_eq!(Acorn::generate_bounds(19, &NumType::U128), (1_000_000_000_000_000_000, 9_999_999_999_999_999_999));
    assert_eq!(Acorn::generate_bounds(21, &NumType::U128),
        (100_000_000_000_000_000_000, 999_999_999_999_999_999_999));
    assert_eq!(Acorn::generate_bounds(22, &NumType::U128),
        (1_000_000_000_000_000_000_000, 9_999_999_999_999_999_999_999));
    assert_eq!(Acorn::generate_bounds(23, &NumType::U128),
        (10_000_000_000_000_000_000_000, 99_999_999_999_999_999_999_999));
    assert_eq!(Acorn::generate_bounds(24, &NumType::U128),
        (100_000_000_000_000_000_000_000, 999_999_999_999_999_999_999_999));
    assert_eq!(Acorn::generate_bounds(25, &NumType::U128),
        (1_000_000_000_000_000_000_000_000, 9_999_999_999_999_999_999_999_999));
    assert_eq!(Acorn::generate_bounds(26, &NumType::U128),
        (10_000_000_000_000_000_000_000_000, 99_999_999_999_999_999_999_999_999));
    assert_eq!(Acorn::generate_bounds(27, &NumType::U128),
        (100_000_000_000_000_000_000_000_000, 999_999_999_999_999_999_999_999_999));
    assert_eq!(Acorn::generate_bounds(28, &NumType::U128),
        (1_000_000_000_000_000_000_000_000_000, 9_999_999_999_999_999_999_999_999_999));
    assert_eq!(Acorn::generate_bounds(29, &NumType::U128),
        (10_000_000_000_000_000_000_000_000_000, 99_999_999_999_999_999_999_999_999_999));
    assert_eq!(Acorn::generate_bounds(30, &NumType::U128),
        (100_000_000_000_000_000_000_000_000_000, 999_999_999_999_999_999_999_999_999_999));
    assert_eq!(Acorn::generate_bounds(31, &NumType::U128),
        (1_000_000_000_000_000_000_000_000_000_000, 9_999_999_999_999_999_999_999_999_999_999));
    assert_eq!(Acorn::generate_bounds(32, &NumType::U128),
        (10_000_000_000_000_000_000_000_000_000_000, 99_999_999_999_999_999_999_999_999_999_999));
    assert_eq!(Acorn::generate_bounds(33, &NumType::U128),
        (100_000_000_000_000_000_000_000_000_000_000, 999_999_999_999_999_999_999_999_999_999_999));
    assert_eq!(Acorn::generate_bounds(34, &NumType::U128),
        (1_000_000_000_000_000_000_000_000_000_000_000, 9_999_999_999_999_999_999_999_999_999_999_999));
    assert_eq!(Acorn::generate_bounds(35, &NumType::U128),
        (10_000_000_000_000_000_000_000_000_000_000_000, 99_999_999_999_999_999_999_999_999_999_999_999));
    assert_eq!(Acorn::generate_bounds(36, &NumType::U128),
        (100_000_000_000_000_000_000_000_000_000_000_000, 999_999_999_999_999_999_999_999_999_999_999_999));
    assert_eq!(Acorn::generate_bounds(37, &NumType::U128),
        (1_000_000_000_000_000_000_000_000_000_000_000_000, 9_999_999_999_999_999_999_999_999_999_999_999_999));
    assert_eq!(Acorn::generate_bounds(38, &NumType::U128),
        (10_000_000_000_000_000_000_000_000_000_000_000_000, 99_999_999_999_999_999_999_999_999_999_999_999_999));
}

#[test]
fn bounds_clamped_for_narrow_widths() {
    assert_eq!(Acorn::generate_bounds(3, &NumType::U8), (100, 255));
    assert_eq!(Acorn::generate_bounds(3, &NumType::U128), (100, 999));
    assert_eq!(Acorn::generate_bounds(5, &NumType::U16), (10_000, 65_535));
    assert_eq!(Acorn::generate_bounds(5, &NumType::U128), (10_000, 99_999));
    assert_eq!(Acorn::generate_bounds(10, &NumType::U32), (1_000_000_000, 4_294_967_295));
    assert_eq!(Acorn::generate_bounds(10, &NumType::U128), (1_000_000_000, 9_999_999_999));
    assert_eq!(Acorn::generate_bounds(20, &NumType::U64), (10_000_000_000_000_000_000, 18_446_744_073_709_551_615));
    assert_eq!(Acorn::generate_bounds(20, &NumType::U128), (10_000_000_000_000_000_000, 99_999_999_999_999_999_999));
    assert_eq!(Acorn::generate_bounds(39, &NumType::U128),
        (100_000_000_000_000_000_000_000_000_000_000_000_000, u128::MAX));
}
