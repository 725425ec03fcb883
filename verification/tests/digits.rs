use sequential::{u64_to_string, Overflow};

#[test]
fn renders_small_numbers() {
    assert_eq!("0", u64_to_string(0));
    assert_eq!("7", u64_to_string(7));
    assert_eq!("10", u64_to_string(10));
    assert_eq!("15", u64_to_string(15));
}

#[test]
fn renders_large_numbers() {
    assert_eq!("1000000", u64_to_string(1_000_000));
    assert_eq!("18446744073709551615", u64_to_string(u64::MAX));
}

#[test]
fn overflow_message_format() {
    let report = Overflow { total: 15, bound: 10 };
    assert_eq!("overflow: 15 > 10", report.message());
}
