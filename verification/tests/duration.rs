use flaps_client::duration::FlyctlDuration;
use flaps_client::durfmt::parse_fixed_point;

#[test]
fn test_parse_fixed_point() {
    assert_eq!(parse_fixed_point("0.5", 0).unwrap(), 0);
    assert_eq!(parse_fixed_point("0.5", 1).unwrap(), 5);
    assert_eq!(parse_fixed_point("0.5", 2).unwrap(), 50);
    assert_eq!(parse_fixed_point("100", 0).unwrap(), 100);
    assert_eq!(parse_fixed_point("100", 3).unwrap(), 100000);
    assert_eq!(parse_fixed_point("100.5", 0).unwrap(), 100);
    assert_eq!(parse_fixed_point("100.5", 1).unwrap(), 1005);
    assert_eq!(parse_fixed_point("10.512", 2).unwrap(), 1051);
}

#[test]
fn test_duration_round_trip() {
    let d = FlyctlDuration::from_secs(123456789);
    let s = d.to_string();
    println!("s: {s}");
    let d2 = s.parse::<FlyctlDuration>().unwrap();
    assert_eq!(d, d2);

    let nanos = std::time::Duration::from_secs_f64(0.0354).as_nanos() as u64;
    let d = FlyctlDuration::from_nanos(nanos);
    let s = d.to_string();
    println!("s: {s}");
    let d2 = s.parse::<FlyctlDuration>().unwrap();
    assert_eq!(d, d2);
}

#[test]
fn parse_fixed_point_rejects_bad_chars() {
    assert!(parse_fixed_point("1x", 0).is_err());
    assert!(parse_fixed_point("1.x5", 2).is_err());
    // a fraction character past the shift window is never read
    assert!(parse_fixed_point("1.5x", 0).is_ok());
    assert_eq!(parse_fixed_point("1.5x", 1).unwrap(), 15);
}

#[test]
fn parse_fixed_point_rejects_overflow() {
    assert_eq!(
        parse_fixed_point("18446744073709551615", 0).unwrap(),
        u64::MAX
    );
    assert!(parse_fixed_point("18446744073709551616", 0).is_err());
}

#[test]
fn duration_to_string_cases() {
    assert_eq!(FlyctlDuration::from_nanos(0).to_string(), "0s");
    assert_eq!(FlyctlDuration::from_nanos(500).to_string(), "500ns");
    assert_eq!(FlyctlDuration::from_nanos(1500).to_string(), "1.5µs");
    assert_eq!(FlyctlDuration::from_nanos(35_400_000).to_string(), "35.4ms");
    assert_eq!(FlyctlDuration::from_secs(99).to_string(), "1m39s");
    // the trim also eats whole-number trailing zeros, as the renderer defines
    assert_eq!(FlyctlDuration::from_secs(90).to_string(), "1m3s");
    let d = FlyctlDuration::new(72 * 3600 + 3 * 60, 500_000_000);
    assert_eq!(d.to_string(), "72h3m0.5s");
}

#[test]
fn duration_parse_cases() {
    let d = FlyctlDuration::parse("37h12m0.5s").unwrap();
    assert_eq!(d.secs, 37 * 3600 + 12 * 60);
    assert_eq!(d.nanos, 500_000_000);

    let d = FlyctlDuration::parse("250ms").unwrap();
    assert_eq!(d.secs, 0);
    assert_eq!(d.nanos, 250_000_000);

    let d = FlyctlDuration::parse("1.5µs").unwrap();
    assert_eq!(d.nanos, 1_500);

    let d = FlyctlDuration::parse("12us").unwrap();
    assert_eq!(d.nanos, 12_000);

    assert!(FlyctlDuration::parse("abc").is_err());
    assert!(FlyctlDuration::parse("5x").is_err());
    assert!(FlyctlDuration::parse("h").is_err());

    // a trailing number without a unit contributes nothing
    let d = FlyctlDuration::parse("1m30").unwrap();
    assert_eq!(d.secs, 60);
}
