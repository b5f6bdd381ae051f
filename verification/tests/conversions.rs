use fmd_adm::text::{c_array_text, cstr_to_owned, error_message, i64_decimal, u64_decimal};
use fmd_adm::{
    c_string, finish_cases, finish_command, finish_modules, finish_resource_count,
    finish_resources, finish_serd_engines, finish_stats, finish_transports, optional_c_string,
    resource_acquit_arguments, uuid_c_string, Error, InvisibleResources, ModuleInfo,
    RawCaseInfo, RawModuleInfo, RawResourceInfo, RawSerdInfo, RawStat, RawStatValue, Stat,
    StatValue, Uuid,
};

const TEXT: &str = "550e8400-e29b-41d4-a716-446655440000";
const VALUE: u128 = 0x550e8400_e29b_41d4_a716_446655440000;

fn bytes(s: &str) -> Option<Vec<u8>> {
    Some(s.as_bytes().to_vec())
}

fn no_value() -> RawStatValue {
    RawStatValue { bool_: 0, i32_: 0, ui32: 0, i64_: 0, ui64: 0, str_: None }
}

#[test]
fn invisible_resources_flag() {
    assert_eq!(InvisibleResources::Included.as_c_int(), 1);
    assert_eq!(InvisibleResources::Excluded.as_c_int(), 0);
}

#[test]
fn c_strings_to_text() {
    assert_eq!(cstr_to_owned(None), "");
    assert_eq!(cstr_to_owned(Some(b"fmd")), "fmd");
    assert_eq!(cstr_to_owned(Some(&[0x61, 0xff, 0x62])), "a\u{FFFD}b");
    assert_eq!(error_message(None), "unknown error");
    assert_eq!(error_message(Some(b"no such module")), "no such module");
}

#[test]
fn fixed_arrays_to_text() {
    assert_eq!(c_array_text(b"fmd.accepted\0garbage"), "fmd.accepted");
    assert_eq!(c_array_text(b"\0abc"), "");
    assert_eq!(c_array_text(b"whole"), "whole");
}

#[test]
fn decimal_text() {
    assert_eq!(u64_decimal(0), "0");
    assert_eq!(u64_decimal(1234567890), "1234567890");
    assert_eq!(i64_decimal(-7), "-7");
    assert_eq!(i64_decimal(i64::MAX), "9223372036854775807");
}

#[test]
fn c_string_arguments() {
    assert_eq!(c_string("zfs://pool").unwrap(), b"zfs://pool".to_vec());
    match c_string("ab\0cd") {
        Err(Error::Nul(n)) => {
            assert_eq!(n.position, 2);
            assert_eq!(n.bytes, b"ab\0cd".to_vec());
        }
        other => panic!("unexpected {:?}", other),
    }
    match c_string("é\0") {
        Err(Error::Nul(n)) => assert_eq!(n.position, 2),
        other => panic!("unexpected {:?}", other),
    }
    assert!(matches!(optional_c_string(None), Ok(None)));
    assert_eq!(optional_c_string(Some("m")).unwrap(), Some(b"m".to_vec()));
    assert!(matches!(optional_c_string(Some("\0")), Err(Error::Nul(_))));
}

#[test]
fn uuid_parse_and_format() {
    let u = Uuid::parse(TEXT).unwrap();
    assert_eq!(u.value, VALUE);
    assert_eq!(u.to_hyphenated(), TEXT);
    assert_eq!(Uuid::parse("550E8400-E29B-41D4-A716-446655440000").unwrap().value, VALUE);
    assert_eq!(Uuid { value: 1 }.to_hyphenated(), "00000000-0000-0000-0000-000000000001");
    assert!(matches!(Uuid::parse("not-a-uuid"), Err(Error::Uuid(_))));
    assert!(matches!(Uuid::parse(""), Err(Error::Uuid(_))));
}

#[test]
fn uuid_arguments() {
    assert_eq!(uuid_c_string(&Uuid { value: VALUE }), TEXT.as_bytes().to_vec());
    let (f, c) = resource_acquit_arguments("hc://cpu=0", &Uuid { value: VALUE }).unwrap();
    assert_eq!(f, b"hc://cpu=0".to_vec());
    assert_eq!(c, TEXT.as_bytes().to_vec());
    assert!(matches!(
        resource_acquit_arguments("hc\0", &Uuid { value: VALUE }),
        Err(Error::Nul(_))
    ));
}

#[test]
fn command_outcomes() {
    assert!(finish_command(0, None).is_ok());
    match finish_command(-1, Some(b"permission denied")) {
        Err(Error::Fmd(m)) => assert_eq!(m, "permission denied"),
        other => panic!("unexpected {:?}", other),
    }
    match finish_command(3, None) {
        Err(Error::Fmd(m)) => assert_eq!(m, "unknown error"),
        other => panic!("unexpected {:?}", other),
    }
    assert_eq!(finish_resource_count(0, None, 5).unwrap(), 5);
    assert!(matches!(finish_resource_count(1, None, 5), Err(Error::Fmd(_))));
}

#[test]
fn module_records() {
    let raw = vec![
        RawModuleInfo {
            name: bytes("eft"),
            description: bytes("eversholt diagnosis engine"),
            version: bytes("1.16"),
            flags: 0,
        },
        RawModuleInfo { name: bytes("zfs-retire"), description: None, version: None, flags: 1 },
    ];
    let m: Vec<ModuleInfo> = finish_modules(0, None, &raw).unwrap();
    assert_eq!(m.len(), 2);
    assert_eq!(m[0].name, "eft");
    assert_eq!(m[0].description, "eversholt diagnosis engine");
    assert_eq!(m[0].version, "1.16");
    assert!(!m[0].failed);
    assert_eq!(m[1].name, "zfs-retire");
    assert_eq!(m[1].description, "");
    assert!(m[1].failed);
    match finish_modules(1, Some(b"daemon busy"), &raw) {
        Err(Error::Fmd(msg)) => assert_eq!(msg, "daemon busy"),
        other => panic!("unexpected {:?}", other),
    }
}

#[test]
fn resource_records() {
    let good = RawResourceInfo {
        fmri: bytes("hc:///cpu=0"),
        uuid: bytes(TEXT),
        case: bytes("00000000-0000-0000-0000-000000000001"),
        flags: 0x1 | 0x4,
    };
    let r = finish_resources(0, None, &vec![good]).unwrap();
    assert_eq!(r.len(), 1);
    assert_eq!(r[0].fmri, "hc:///cpu=0");
    assert_eq!(r[0].uuid.value, VALUE);
    assert_eq!(r[0].case.value, 1);
    assert!(r[0].faulty);
    assert!(!r[0].unusable);
    assert!(r[0].invisible);
    let bad = RawResourceInfo { fmri: None, uuid: bytes(TEXT), case: None, flags: 2 };
    let ok = RawResourceInfo { fmri: None, uuid: bytes(TEXT), case: bytes(TEXT), flags: 2 };
    assert!(matches!(finish_resources(0, None, &vec![ok, bad]), Err(Error::Uuid(_))));
    assert!(matches!(finish_resources(2, None, &vec![]), Err(Error::Fmd(_))));
    assert_eq!(finish_resources(0, None, &vec![]).unwrap().len(), 0);
}

#[test]
fn case_records() {
    let raw = vec![
        RawCaseInfo { uuid: bytes(TEXT), code: bytes("ZFS-8000-CS"), url: bytes("http://illumos.org/msg/"), event: Some(7u32) },
        RawCaseInfo { uuid: bytes(TEXT), code: None, url: None, event: None },
    ];
    let c = finish_cases(0, None, raw).unwrap();
    assert_eq!(c.len(), 2);
    assert_eq!(c[0].uuid.value, VALUE);
    assert_eq!(c[0].code, "ZFS-8000-CS");
    assert_eq!(c[0].url, "http://illumos.org/msg/");
    assert_eq!(c[0].event, Some(7));
    assert_eq!(c[1].event, None);
    let bad = vec![RawCaseInfo { uuid: bytes("x"), code: None, url: None, event: Some(1u8) }];
    assert!(matches!(finish_cases(0, None, bad), Err(Error::Uuid(_))));
    let none: Vec<RawCaseInfo<u8>> = vec![];
    assert!(matches!(finish_cases(-2, None, none), Err(Error::Fmd(_))));
}

#[test]
fn serd_and_transport_records() {
    let raw = vec![RawSerdInfo { name: bytes("io_retry"), delta: 10, n: 5, t: 600, count: 2, flags: 1 }];
    let s = finish_serd_engines(0, None, &raw).unwrap();
    assert_eq!(s[0].name, "io_retry");
    assert_eq!((s[0].delta_ns, s[0].n, s[0].t_ns, s[0].count, s[0].fired), (10, 5, 600, 2, true));
    assert!(matches!(finish_serd_engines(1, None, &raw), Err(Error::Fmd(_))));
    let t = finish_transports(0, None, &vec![3, -1]).unwrap();
    assert_eq!(t.len(), 2);
    assert_eq!(t[0].as_raw(), 3);
    assert_eq!(t[1].as_raw(), -1);
    assert!(matches!(finish_transports(1, None, &vec![]), Err(Error::Fmd(_))));
}

fn stat(name: &[u8], type_code: u32, value: RawStatValue) -> RawStat {
    RawStat { name: name.to_vec(), description: b"a counter\0\0\0".to_vec(), type_code, value }
}

#[test]
fn stat_records() {
    let raw = vec![
        stat(b"booted\0", 0, RawStatValue { bool_: 2, ..no_value() }),
        stat(b"a\0", 1, RawStatValue { i32_: -3, ..no_value() }),
        stat(b"b\0", 2, RawStatValue { ui32: 5, ..no_value() }),
        stat(b"c\0", 3, RawStatValue { i64_: -4, ..no_value() }),
        stat(b"d\0", 4, RawStatValue { ui64: 77, ..no_value() }),
        stat(b"e\0", 5, RawStatValue { str_: bytes("online"), ..no_value() }),
        stat(b"f\0", 5, no_value()),
        stat(b"g\0", 6, RawStatValue { ui64: 1000, ..no_value() }),
        stat(b"h\0", 7, RawStatValue { ui64: 512, ..no_value() }),
        stat(b"i\0", 42, RawStatValue { ui64: 9, ..no_value() }),
    ];
    let s: Vec<Stat> = finish_stats(0, None, &raw).unwrap();
    assert_eq!(s.len(), 10);
    assert_eq!(s[0].name, "booted");
    assert_eq!(s[0].description, "a counter");
    assert!(matches!(s[0].value, StatValue::Bool(true)));
    assert!(matches!(s[1].value, StatValue::Int32(-3)));
    assert!(matches!(s[2].value, StatValue::UInt32(5)));
    assert!(matches!(s[3].value, StatValue::Int64(-4)));
    assert!(matches!(s[4].value, StatValue::UInt64(77)));
    assert!(matches!(&s[5].value, StatValue::String(t) if t == "online"));
    assert!(matches!(&s[6].value, StatValue::String(t) if t.is_empty()));
    assert_eq!(s[7].value.to_string(), "1000ns");
    assert_eq!(s[8].value.to_string(), "512B");
    assert_eq!(s[9].value.to_string(), "unknown(type=42, raw=9)");
    assert!(matches!(finish_stats(1, Some(b"bad module"), &raw), Err(Error::Fmd(_))));
}
