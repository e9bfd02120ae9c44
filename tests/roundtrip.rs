use itest::{bench_used, check_roundtrip, RoundtripFailure};

#[test]
fn roundtrip_of_42_passes() {
    let r = check_roundtrip(&42i64, Ok::<i64, String>(42));
    assert!(r.is_ok());
}

#[test]
fn roundtrip_mismatch_reports_value_back() {
    let r = check_roundtrip(&42i64, Ok::<i64, String>(0));
    assert!(matches!(r, Err(RoundtripFailure::Mismatch(0))));
}

#[test]
fn roundtrip_conversion_error_is_reported() {
    let r = check_roundtrip(&42i64, Err::<i64, String>("not an int".to_string()));
    match r {
        Err(RoundtripFailure::Conversion(e)) => assert_eq!(e, "not an int"),
        _ => panic!("expected a conversion failure"),
    }
}

#[test]
fn roundtrip_of_strings() {
    let ok = check_roundtrip(&"abc".to_string(), Ok::<String, ()>("abc".to_string()));
    assert!(ok.is_ok());
    let bad = check_roundtrip(&"abc".to_string(), Ok::<String, ()>("ab".to_string()));
    assert!(matches!(bad, Err(RoundtripFailure::Mismatch(ref s)) if s == "ab"));
}

#[test]
fn bench_used_takes_any_value() {
    bench_used(42u64);
    bench_used(vec![1, 2, 3]);
    bench_used("text".to_string());
}
