use core::time::Duration;
use flashblocks::args::{parse_duration, within_duration_digits, ArgsError, FlashblocksArgs};

#[test]
fn test_leeway_time_cli_parsing() {
    // Test various duration formats
    let test_cases = vec![
        ("100ms", Duration::from_millis(100)),
        ("1s", Duration::from_secs(1)),
        ("500ms", Duration::from_millis(500)),
        ("2.5s", Duration::from_millis(2500)),
        ("0ms", Duration::from_millis(0)),
    ];

    for (input, expected) in test_cases {
        let mut args = FlashblocksArgs::default();
        args.set_leeway_time(input).expect("Should parse successfully");
        assert_eq!(args.leeway_time, expected.as_nanos(), "Failed for input: {input}");
    }
}

#[test]
fn test_leeway_time_invalid_format() {
    let invalid_inputs = vec!["invalid", "100", "ms100", "-50ms"];

    for input in invalid_inputs {
        let mut args = FlashblocksArgs::default();
        let result = args.set_leeway_time(input);
        assert!(result.is_err(), "Should fail to parse invalid input: {input}");
        assert_eq!(args.leeway_time, Duration::from_millis(75).as_nanos());
    }
}

#[test]
fn flashblocks_args_defaults() {
    let args = FlashblocksArgs::default();
    assert_eq!(args.interval, Duration::from_millis(250).as_nanos());
    assert_eq!(args.leeway_time, Duration::from_millis(75).as_nanos());
    assert_eq!(args.ws_address, "0.0.0.0:10111");
    assert!(!args.calculate_state_root);
}

#[test]
fn interval_argument() {
    let mut args = FlashblocksArgs::default();
    args.set_interval("200ms").unwrap();
    assert_eq!(args.interval, 200_000_000);
    assert_eq!(args.set_interval("soon"), Err(ArgsError::InvalidDuration));
    assert_eq!(args.interval, 200_000_000);
    assert_eq!(parse_duration("1h 12min"), Ok(Duration::from_secs(4320).as_nanos()));
}

#[test]
fn duration_digit_limit() {
    assert!(within_duration_digits("250ms"));
    assert!(within_duration_digits("1hour 12min 5s"));
    assert!(within_duration_digits("12345678901ns"));
    assert!(!within_duration_digits("123456789012ns"));
    assert!(!within_duration_digits("18446744073709551615s 1000000000ns"));
    assert!(within_duration_digits(""));
    assert_eq!(parse_duration("12345678901ns"), Ok(12_345_678_901));
    assert_eq!(parse_duration("1.5s"), Ok(1_500_000_000));
    assert_eq!(parse_duration(""), Err(ArgsError::InvalidDuration));
}
