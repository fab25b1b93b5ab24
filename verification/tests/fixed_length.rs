use acorn_prng::Acorn;
use acorn_prng::NumType;
use acorn_prng::Order;
use acorn_prng::Seed;

#[test]
fn new_fixed_length_usize() {
    let mut prng = Acorn::new(Order::new(45), Seed::new(1_000_000));
    assert_eq!(prng.generate_fixed_length_usize(3), 822);
}

#[test]
fn new_fixed_length_u8() {
    let mut prng = Acorn::new(Order::new(45), Seed::new(1_000_000));
    assert_eq!(prng.generate_fixed_length_u8(3), 111);
}

#[test]
fn new_fixed_length_u16() {
    let mut prng = Acorn::new(Order::new(45), Seed::new(1_000_000));
    assert_eq!(prng.generate_fixed_length_u16(5), 31_202);
}

#[test]
fn new_fixed_length_u32() {
    let mut prng = Acorn::new(Order::new(45), Seed::new(1_000_000));
    assert_eq!(prng.generate_fixed_length_u32(10), 3_481_803_986);
}

#[test]
fn new_fixed_length_u64() {
    let mut prng = Acorn::new(Order::new(45), Seed::new(1_000_000));
    assert_eq!(prng.generate_fixed_length_u64(20), 17_368_202_499_702_739_666);
}

#[test]
fn new_fixed_length_u128() {
    let mut prng = Acorn::new(Order::new(45), Seed::new(1_000_000));
    assert_eq!(
        prng.generate_fixed_length_u128(39),
        100_412_619_346_714_740_768_478_515_842_161_398_482,
    );
}

#[test]
fn new_fixed_length_number() {
    let mut prng = Acorn::new(Order::new(45), Seed::new(1_000_000));
    assert_eq!(prng.generate_fixed_length_number(3, &NumType::U128), 822);
}

#[test]
fn usize_length_clamps_to_platform_width() {
    let mut prng = Acorn::new(Order::new(45), Seed::new(1_000_000));
    let widest = prng.generate_fixed_length_usize(25);
    if usize::MAX as u128 == u64::MAX as u128 {
        assert_eq!(widest as u64, 17_368_202_499_702_739_666);
    } else {
        assert!(widest >= 1_000_000_000);
    }
}

#[test]
fn fixed_length_clamps_low_and_high() {
    let mut prng = Acorn::new(Order::new(45), Seed::new(1_000_000));
    let one_digit = prng.generate_fixed_length_u8(0);
    assert!(one_digit <= 9);
    let mut prng = Acorn::new(Order::new(45), Seed::new(1_000_000));
    let capped = prng.generate_fixed_length_u8(100);
    assert!((100..=255).contains(&capped));
    let mut prng = Acorn::new(Order::new(45), Seed::new(1_000_000));
    let widest = prng.generate_fixed_length_u16(100);
    assert!((10_000..=65_535).contains(&widest));
}
