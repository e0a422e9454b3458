use counter::{Counter, Uint256};

const ALL_ONES: u64 = u64::MAX;

fn max_value() -> Uint256 {
    Uint256 { l0: ALL_ONES, l1: ALL_ONES, l2: ALL_ONES, l3: ALL_ONES }
}

fn limbs(v: Uint256) -> [u64; 4] {
    [v.l0, v.l1, v.l2, v.l3]
}

#[test]
fn deployed_counter_reads_zero() {
    let c = Counter::new();
    assert_eq!(c.number(), Uint256::zero());
    assert_eq!(limbs(c.number()), [0, 0, 0, 0]);
}

#[test]
fn set_then_read_returns_value() {
    let mut c = Counter::new();
    let values = [
        Uint256::from_u64(42),
        Uint256 { l0: 1, l1: 2, l2: 3, l3: 4 },
        max_value(),
        Uint256::zero(),
    ];
    for v in values {
        c.set_number(v);
        assert_eq!(c.number(), v);
    }
}

#[test]
fn increment_adds_one() {
    let mut c = Counter::new();
    c.set_number(Uint256::from_u64(41));
    c.increment();
    assert_eq!(c.number(), Uint256::from_u64(42));
}

#[test]
fn increment_carries_into_next_limb() {
    let mut c = Counter::new();
    c.set_number(Uint256 { l0: ALL_ONES, l1: 0, l2: 0, l3: 0 });
    c.increment();
    assert_eq!(limbs(c.number()), [0, 1, 0, 0]);

    c.set_number(Uint256 { l0: ALL_ONES, l1: ALL_ONES, l2: ALL_ONES, l3: 7 });
    c.increment();
    assert_eq!(limbs(c.number()), [0, 0, 0, 8]);
}

#[test]
fn increment_wraps_at_max() {
    let mut c = Counter::new();
    c.set_number(max_value());
    c.increment();
    assert_eq!(c.number(), Uint256::zero());
}

#[test]
fn increments_from_zero_count_up() {
    let mut c = Counter::new();
    for _ in 0..1000u64 {
        c.increment();
    }
    assert_eq!(c.number(), Uint256::from_u64(1000));
}

#[test]
fn wrapping_add_exact_sums() {
    let a = Uint256 { l0: 5, l1: ALL_ONES, l2: 0, l3: 9 };
    let b = Uint256 { l0: ALL_ONES, l1: 0, l2: 3, l3: 1 };
    assert_eq!(limbs(a.wrapping_add(b)), [4, 0, 4, 10]);
    assert_eq!(max_value().wrapping_add(max_value()), Uint256 { l0: ALL_ONES - 1, l1: ALL_ONES, l2: ALL_ONES, l3: ALL_ONES });
    assert_eq!(Uint256::from_u64(2).wrapping_add(Uint256::from_u64(3)), Uint256::from_u64(5));
}

#[test]
fn from_u64_fills_low_limb() {
    assert_eq!(limbs(Uint256::from_u64(ALL_ONES)), [ALL_ONES, 0, 0, 0]);
    assert_eq!(Uint256::from_u64(0), Uint256::zero());
}
