use otp_backup::accounts::{Account, CodeError};
use otp_backup::backup::parse_backup;
use otp_backup::table::pretty_display;
use otp_backup::uri::{DecodeError, Field};

#[test]
fn rejects_line_without_scheme() {
    let r = Account::new("http://example.com/whatever?issuer=a&secret=B&period=30");
    assert_eq!(r.unwrap_err(), DecodeError::Syntax);
}

#[test]
fn line_without_query_misses_issuer() {
    let r = Account::new("otpauth://totp/bare");
    assert_eq!(r.unwrap_err(), DecodeError::MissingField(Field::Issuer));
}

#[test]
fn missing_issuer_is_reported() {
    let r = Account::new("otpauth://totp/site?secret=ABC&period=30");
    assert_eq!(r.unwrap_err(), DecodeError::MissingField(Field::Issuer));
}

#[test]
fn missing_secret_is_reported() {
    let r = Account::new("otpauth://totp/site?issuer=site&period=30");
    assert_eq!(r.unwrap_err(), DecodeError::MissingField(Field::Secret));
}

#[test]
fn missing_period_is_reported() {
    let r = Account::new("otpauth://totp/site?issuer=site&secret=ABC");
    assert_eq!(r.unwrap_err(), DecodeError::MissingField(Field::Period));
}

#[test]
fn non_numeric_period_is_invalid() {
    let r = Account::new("otpauth://totp/site?issuer=site&secret=ABC&period=toto");
    assert_eq!(r.unwrap_err(), DecodeError::InvalidPeriod);
}

#[test]
fn zero_period_is_invalid() {
    let r = Account::new("otpauth://totp/site?issuer=site&secret=ABC&period=0");
    assert_eq!(r.unwrap_err(), DecodeError::InvalidPeriod);
}

#[test]
fn huge_period_is_invalid() {
    let r = Account::new(
        "otpauth://totp/site?issuer=site&secret=ABC&period=18446744073709551616",
    );
    assert_eq!(r.unwrap_err(), DecodeError::InvalidPeriod);
}

#[test]
fn largest_period_is_accepted() {
    let r = Account::new(
        "otpauth://totp/site?issuer=site&secret=ABC&period=18446744073709551615",
    );
    assert_eq!(r.unwrap().period(), u64::MAX);
}

#[test]
fn bad_percent_escape_in_label_is_an_encoding_error() {
    let r = Account::new("otpauth://totp/%FF?issuer=site&secret=ABC&period=30");
    assert_eq!(r.unwrap_err(), DecodeError::Encoding);
}

#[test]
fn first_occurrence_of_a_key_wins() {
    let r = Account::new(
        "otpauth://totp/site?issuer=first&issuer=second&secret=ABC&period=30",
    );
    assert_eq!(r.unwrap().issuer().as_str(), "first");
}

#[test]
fn query_values_are_percent_decoded() {
    let r = Account::new("otpauth://totp/site?issuer=My%20Site&secret=ABC&period=30");
    assert_eq!(r.unwrap().issuer().as_str(), "My Site");
}

#[test]
fn colon_with_nothing_after_gives_empty_username() {
    let r = Account::new("otpauth://totp/site%3A?issuer=site&secret=ABC&period=30");
    assert_eq!(r.unwrap().username().unwrap().as_str(), "");
}

#[test]
fn known_timestamp_gives_known_code() {
    // The shared secret `12345678901234567890` in base32, at 59 seconds past
    // the epoch with a 30 second step, yields the six-digit code 287082.
    let r = Account::new(
        "otpauth://totp/demo?issuer=demo&secret=GEZDGNBVGY3TQOJQGEZDGNBVGY3TQOJQ&period=30",
    )
    .unwrap();
    assert_eq!(r.generate_code(59).unwrap(), "287082");
}

#[test]
fn small_codes_are_zero_padded() {
    let r = Account::new(
        "otpauth://totp/demo?issuer=demo&secret=GEZDGNBVGY3TQOJQGEZDGNBVGY3TQOJQ&period=30",
    )
    .unwrap();
    // Every code is exactly six characters even when the number is small.
    for now in [0u64, 59, 1111111109, 1234567890, 2000000000] {
        let code = r.generate_code(now).unwrap();
        assert_eq!(code.len(), 6);
        assert!(code.chars().all(|c| c.is_ascii_digit()));
    }
}

#[test]
fn invalid_secret_reports_invalid_secret() {
    let r = Account::new("otpauth://totp/demo?issuer=demo&secret=ABC1&period=30").unwrap();
    assert_eq!(r.generate_code(59).unwrap_err(), CodeError::InvalidSecret);
}

#[test]
fn load_fails_on_first_bad_line_with_its_error() {
    let lines: Vec<String> = vec![
        "otpauth://totp/site?issuer=site&secret=ABC&period=30".to_string(),
        "otpauth://totp/site?issuer=site&secret=ABC&period=soon".to_string(),
        "NOT_REALLY_AN_URI".to_string(),
    ];
    assert_eq!(parse_backup(&lines).unwrap_err(), DecodeError::InvalidPeriod);
}

#[test]
fn load_keeps_backup_order() {
    let lines: Vec<String> = vec![
        "otpauth://totp/a?issuer=alpha&secret=ABC&period=30".to_string(),
        "otpauth://totp/b?issuer=beta&secret=ABC&period=60".to_string(),
    ];
    let accounts = parse_backup(&lines).unwrap();
    assert_eq!(accounts.len(), 2);
    assert_eq!(accounts[0].issuer().as_str(), "alpha");
    assert_eq!(accounts[1].issuer().as_str(), "beta");
    assert_eq!(accounts[1].period(), 60);
}

#[test]
fn display_shows_dash_for_absent_username() {
    let account =
        Account::new("otpauth://totp/mukeymos?issuer=Real-Debrid&secret=AAAAAAAAA&period=30")
            .unwrap();
    let accounts = vec![account];
    let table: Vec<String> = pretty_display(&accounts).split('\n').map(|x| x.to_string()).collect();
    assert!(table[3].contains("-"));
    assert!(table[3].contains("Real-Debrid"));
}
