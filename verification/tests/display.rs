use fmd_adm::{StatValue, TransportId};

#[test]
fn stat_value_display_bool() {
    assert_eq!(StatValue::Bool(true).to_string(), "true");
    assert_eq!(StatValue::Bool(false).to_string(), "false");
}

#[test]
fn stat_value_display_integers() {
    assert_eq!(StatValue::Int32(-42).to_string(), "-42");
    assert_eq!(StatValue::UInt32(42).to_string(), "42");
    assert_eq!(StatValue::Int64(-100).to_string(), "-100");
    assert_eq!(StatValue::UInt64(100).to_string(), "100");
}

#[test]
fn stat_value_display_time() {
    assert_eq!(StatValue::Time(1_000_000_000).to_string(), "1000000000ns");
}

#[test]
fn stat_value_display_size() {
    assert_eq!(StatValue::Size(4096).to_string(), "4096B");
}

#[test]
fn stat_value_display_string() {
    assert_eq!(StatValue::String("hello".into()).to_string(), "hello");
}

#[test]
fn stat_value_display_unknown() {
    let v = StatValue::Unknown {
        type_code: 99,
        raw: 0xdead,
    };
    assert_eq!(v.to_string(), "unknown(type=99, raw=57005)");
}

#[test]
fn transport_id_display() {
    assert_eq!(TransportId(7).to_string(), "7");
}

#[test]
fn stat_value_display_extremes() {
    assert_eq!(StatValue::Int32(i32::MIN).to_string(), "-2147483648");
    assert_eq!(StatValue::Int64(i64::MIN).to_string(), "-9223372036854775808");
    assert_eq!(StatValue::UInt64(u64::MAX).to_string(), "18446744073709551615");
    assert_eq!(StatValue::UInt32(0).to_string(), "0");
    assert_eq!(StatValue::Time(0).to_string(), "0ns");
    assert_eq!(StatValue::Size(10).to_string(), "10B");
    assert_eq!(StatValue::String(String::new()).to_string(), "");
}

#[test]
fn transport_id_negative_and_raw() {
    assert_eq!(TransportId(-12).to_string(), "-12");
    assert_eq!(TransportId(0).to_string(), "0");
    assert_eq!(TransportId(31).as_raw(), 31);
}
