use acorn_prng::Acorn;
use acorn_prng::Order;
use acorn_prng::Seed;

#[test]
fn new_usize_between_range_different_length() {
    let mut prng = Acorn::new(Order::new(45), Seed::new(1_000_000));
    assert_eq!(prng.generate_usize_between_range(71, 777), 571);
}

#[test]
fn new_u8_between_range_different_length() {
    let mut prng = Acorn::new(Order::new(45), Seed::new(1_000_000));
    assert_eq!(prng.generate_u8_between_range(71, 255), 82);
}

#[test]
fn new_u16_between_range_different_length() {
    let mut prng = Acorn::new(Order::new(45), Seed::new(1_000_000));
    assert_eq!(prng.generate_u16_between_range(71, 777), 571);
}

#[test]
fn new_u32_between_range_different_length() {
    let mut prng = Acorn::new(Order::new(45), Seed::new(1_000_000));
    assert_eq!(prng.generate_u32_between_range(71, 777), 571);
}

#[test]
fn new_u64_between_range_different_length() {
    let mut prng = Acorn::new(Order::new(45), Seed::new(1_000_000));
    assert_eq!(prng.generate_u64_between_range(71, 777), 571);
}

#[test]
fn new_u128_between_range_different_length() {
    let mut prng = Acorn::new(Order::new(45), Seed::new(1_000_000));
    assert_eq!(prng.generate_u128_between_range(71, 777), 571);
}

#[test]
fn new_number_between_range_different_length() {
    let mut prng = Acorn::new(Order::new(45), Seed::new(1_000_000));
    assert_eq!(prng.generate_number_between_range(71, 777), 571);
}

#[test]
fn new_number_between_range_same_length() {
    let mut prng = Acorn::new(Order::new(45), Seed::new(1_000_000));
    assert_eq!(prng.generate_number_between_range(750, 777), 768);
}

#[test]
fn new_range_from_zero() {
    let mut prng = Acorn::new(Order::new(45), Seed::new(1_000_000));
    assert_eq!(prng.generate_from_zero_range(9999), 4818);
    assert_eq!(
        prng.generate_from_zero_range(u128::MAX),
        1_142_164_531_119_135_184_501_387_126_697_598_731,
    );
}

#[test]
fn degenerate_range_returns_its_only_value() {
    let mut prng = Acorn::new(Order::new(45), Seed::new(1_000_000));
    assert_eq!(prng.generate_number_between_range(5, 5), 5);
    assert_eq!(prng.generate_u8_between_range(200, 200), 200);
    assert_eq!(prng.generate_from_zero_range(0), 0);
}

#[test]
fn power_of_two_spans_reach_their_upper_end() {
    let mut prng = Acorn::new(Order::new(45), Seed::new(1_000_000));
    let coin: Vec<u128> = (0..10).map(|_| prng.generate_from_zero_range(1)).collect();
    assert!(coin.contains(&0) && coin.contains(&1), "{:?}", coin);
    let mut prng = Acorn::new(Order::new(45), Seed::new(1_000_000));
    let spanned: Vec<u128> = (0..60).map(|_| prng.generate_from_zero_range(8)).collect();
    assert!(spanned.contains(&8), "{:?}", spanned);
    assert!(spanned.iter().all(|v| *v <= 8));
}

#[test]
fn full_width_ranges_stay_in_bounds() {
    let mut prng = Acorn::new(Order::new(45), Seed::new(1_000_000));
    let _ = prng.generate_u128_between_range(0, u128::MAX);
    let full_u8 = prng.generate_u8_between_range(0, u8::MAX);
    assert!(full_u8 <= u8::MAX);
    let wide = prng.generate_u64_between_range(u64::MAX - 1, u64::MAX);
    assert!(wide >= u64::MAX - 1);
}
