use otp_backup::accounts::Account;
use otp_backup::uri::DecodeError;
use otp_backup::table::pretty_display;

fn create_fake_account(fake_url: &str) -> Result<Account, DecodeError> {
    Account::new(fake_url)
}

#[test]
fn account_from_url_ok() {
    let account_result = create_fake_account(
        "
            otpauth://totp/one.website.net%3Amyuser%40mail.com?\
            secret=MYSUPERSECRET&\
            issuer=one.website.net&\
            algorithm=SHA1&\
            digits=6&\
            period=30",
    );
    assert!(account_result.is_ok());
    let account = account_result.unwrap();
    assert_eq!("myuser@mail.com", account.username().unwrap().as_str());
    assert_eq!("one.website.net", account.issuer().as_str());
    assert_eq!("MYSUPERSECRET", account.secret().as_str());
    assert_eq!(30, account.period());
}

#[test]
fn account_from_url_without_username_ok() {
    let account_result = create_fake_account(
        "
            otpauth://totp/mukeymos?\
            secret=AAAAAAAAA&\
            issuer=Real-Debrid&\
            algorithm=SHA1&\
            digits=6&\
            period=30",
    );
    assert!(account_result.is_ok());
    let account = account_result.unwrap();
    assert!(account.username().is_none());
    assert_eq!("Real-Debrid", account.issuer().as_str());
    assert_eq!("AAAAAAAAA", account.secret().as_str());
    assert_eq!(30, account.period());
}

#[test]
fn account_from_url_err() {
    let account_result = create_fake_account(
        "
            otpauth://totp/one.website.net%3Amyuser%40mail.com?\
            secret=MYSUPERSECRET&\
            issuer=one.website.net&\
            algorithm=SHA1&\
            period=toto
            ",
    );
    assert!(account_result.is_err());
}

#[test]
fn generate_code_ok() {
    let account_result = create_fake_account(
        "
            otpauth://totp/one.website.net%3Amyuser%40mail.com?\
            secret=MYSUPERSECRET&\
            issuer=one.website.net&\
            algorithm=SHA1&\
            digits=6&\
            period=30",
    );

    let account = account_result.unwrap();
    let code = account.generate_code(1_700_000_000);
    assert!(code.is_ok());
    assert_eq!(code.unwrap().len(), 6);
}

#[test]
fn generate_code_without_username_ok() {
    let account_result = create_fake_account(
        "
            otpauth://totp/mukeymos?\
            secret=AAAAAAAAA&\
            issuer=Real-Debrid&\
            algorithm=SHA1&\
            digits=6&\
            period=30",
    );
    let account = account_result.unwrap();
    let code = account.generate_code(1_700_000_000);
    assert!(code.is_ok());
    assert_eq!(code.unwrap().len(), 6);
}

#[test]
fn generate_code_err() {
    let account_result = create_fake_account(
        "
            otpauth://totp/one.website.net%3Amyuser%40mail.com?\
            secret=NOTABASE64SUPERSECRET???&\
            issuer=one.website.net&\
            algorithm=SHA1&\
            digits=6&\
            period=30",
    );

    let account = account_result.unwrap();
    let code = account.generate_code(1_700_000_000);
    assert!(code.is_err());
}

#[test]
fn pretty_display_test() {
    let account = create_fake_account(
        "
            otpauth://totp/one.website.net%3Amyuser%40mail.com?\
            secret=MYSUPERSECRET&\
            issuer=one.website.net&\
            algorithm=SHA1&\
            digits=6&\
            period=30",
    )
    .unwrap();
    let accounts: Vec<Account> = vec![account];

    let table: Vec<String> = pretty_display(&accounts)
        .split('\n')
        .map(|x| x.to_string())
        .collect();

    // Check headers
    assert!(&table[1].contains("#"));
    assert!(&table[1].contains("Issuer"));
    assert!(&table[1].contains("Username"));
    // Check cells
    assert!(&table[3].contains("0"));
    assert!(&table[3].contains("one.website.net"));
    assert!(&table[3].contains("myuser@mail.com"));
}
