use acorn_prng::Acorn;
use acorn_prng::Order;
use acorn_prng::Seed;

#[test]
fn new_order() {
    assert_eq!(Order::new(1), Order(45));
    assert_eq!(Order::new(77), Order(77));
    assert_eq!(Order::new(1_000_000), Order(65_535));
}

#[test]
fn new_seed() {
    assert_eq!(Seed::new(1), Seed(1_000_000));
    assert_eq!(Seed::new(777_777_777), Seed(777_777_777));
    assert_eq!(Seed::new(u128::MAX), Seed(340_282_366_920_938_463_463_374_607_431_768_211_455));
}

#[test]
fn new_acorn() {
    assert_eq!(
        Acorn::new(Order::new(45), Seed::new(1_000_000)),
        Acorn {
            k: Order(45),
            m: 2_u128.pow(120),
            y: (
                342_762_265_511_427_745_152_749_671_827_211_337,
                942_176_506_049_466_623_853_234_760_970_194_013,
            ),
        }
    );
}

#[test]
fn new_u128() {
    let mut prng = Acorn::new(Order::new(45), Seed::new(1_000_000));
    assert_eq!(prng.generate_u128(), 412_619_346_714_740_768_478_515_842_161_398_482);
}

#[test]
fn deterministic_sequences() {
    let mut a = Acorn::new(Order::new(45), Seed::new(1_000_000));
    let mut b = Acorn::new(Order::new(45), Seed::new(1_000_000));
    for _ in 0..100 {
        assert_eq!(a.generate_u128(), b.generate_u128());
    }
}

#[test]
fn instance_isolation() {
    let mut a = Acorn::new(Order::new(45), Seed::new(1_000_000));
    let b = Acorn::new(Order::new(45), Seed::new(1_000_000));
    drop(b);
    let c = Acorn::new(Order::new(77), Seed::new(777_777_777));
    drop(c);
    assert_eq!(a.generate_u128(), 412_619_346_714_740_768_478_515_842_161_398_482);
}

#[test]
fn odd_and_even_seeds_differ() {
    let mut even = Acorn::new(Order::new(45), Seed::new(1_000_000));
    let mut forced_odd = Acorn::new(Order::new(45), Seed::new(1_000_001));
    assert_eq!(even.generate_u128(), forced_odd.generate_u128());
    let mut next_odd = Acorn::new(Order::new(45), Seed::new(1_000_003));
    let mut fresh = Acorn::new(Order::new(45), Seed::new(1_000_000));
    assert_ne!(fresh.generate_u128(), next_odd.generate_u128());
}
