use concurrency::text::{integer, join_range, natural};

#[test]
fn natural_numbers_in_decimal() {
    assert_eq!(natural(0), "0");
    assert_eq!(natural(7), "7");
    assert_eq!(natural(9), "9");
    assert_eq!(natural(10), "10");
    assert_eq!(natural(101), "101");
    assert_eq!(natural(1234567890), "1234567890");
    assert_eq!(natural(u64::MAX), "18446744073709551615");
    for n in 0..2000u64 {
        assert_eq!(natural(n), n.to_string());
    }
}

#[test]
fn integers_in_decimal() {
    assert_eq!(integer(0), "0");
    assert_eq!(integer(-1), "-1");
    assert_eq!(integer(42), "42");
    assert_eq!(integer(-9000), "-9000");
    assert_eq!(integer(i64::MAX), "9223372036854775807");
    assert_eq!(integer(i64::MIN), "-9223372036854775808");
    for n in -1500..1500i64 {
        assert_eq!(integer(n), n.to_string());
    }
}

#[test]
fn join_range_puts_the_separator_between_neighbours() {
    let parts: Vec<String> = ["a", "bb", "", "c"].iter().map(|s| s.to_string()).collect();
    assert_eq!(join_range(&parts, 0, 4, ", "), "a, bb, , c");
    assert_eq!(join_range(&parts, 1, 3, "-"), "bb-");
    assert_eq!(join_range(&parts, 3, 4, "-"), "c");
    assert_eq!(join_range(&parts, 2, 2, "-"), "");
    assert_eq!(join_range(&parts, 0, 4, ""), "abbc");
    assert_eq!(join_range(&Vec::new(), 0, 0, "x"), "");
}
