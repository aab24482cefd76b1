use limiter::render::round_quotient;

#[test]
fn quotients_round_to_the_nearest_whole_number() {
    assert_eq!(round_quotient(0, 5), 0);
    assert_eq!(round_quotient(1, 3), 0);
    assert_eq!(round_quotient(2, 3), 1);
    assert_eq!(round_quotient(10, 5), 2);
    assert_eq!(round_quotient(11, 5), 2);
    assert_eq!(round_quotient(12, 5), 2);
    assert_eq!(round_quotient(13, 5), 3);
    assert_eq!(round_quotient(14, 5), 3);
    assert_eq!(round_quotient(7, 1), 7);
}

#[test]
fn quotients_halfway_round_to_the_even_neighbour() {
    assert_eq!(round_quotient(1, 2), 0);
    assert_eq!(round_quotient(3, 2), 2);
    assert_eq!(round_quotient(5, 2), 2);
    assert_eq!(round_quotient(7, 2), 4);
    assert_eq!(round_quotient(20480, 40960), 0);
    assert_eq!(round_quotient(3 * 20480, 40960), 2);
}

#[test]
fn large_quotients_are_rounded_without_overflow() {
    assert_eq!(round_quotient(u64::MAX, 2), 1 << 63);
    assert_eq!(round_quotient(u64::MAX - 1, 1), u64::MAX - 1);
    assert_eq!(round_quotient(u64::MAX, u64::MAX), 1);
    assert_eq!(round_quotient(u64::MAX / 2, u64::MAX), 0);
    assert_eq!(round_quotient(u64::MAX / 2 + 1, u64::MAX), 1);
}
