use udp_probe::throughput::packets_per_second;

#[test]
fn zero_elapsed_counts_as_one_millisecond() {
    assert_eq!(packets_per_second(0, 255), 3);
    assert_eq!(packets_per_second(0, 1), 1000);
    assert_eq!(packets_per_second(0, 255), packets_per_second(1, 255));
}

#[test]
fn formula_floors_the_quotient() {
    assert_eq!(packets_per_second(250, 255), 980);
    assert_eq!(packets_per_second(1000, 3), 333333);
}

#[test]
fn formula_at_the_largest_inputs() {
    assert_eq!(packets_per_second(u64::MAX, 1), u64::MAX as u128 * 1000);
    assert_eq!(packets_per_second(1, u32::MAX), 0);
}
