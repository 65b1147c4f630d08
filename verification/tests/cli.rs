use otp_backup::backup::parse_backup;

#[test]
fn parse_backup_ok() {
    let backup = "otpauth://totp/one.website.net%3Amyuser%40mail.com?\
                      secret=MYSUPERSECRET&\
                      issuer=one.website.net&\
                      algorithm=SHA1&\
                      digits=6&\
                      period=30\n";
    let lines: Vec<String> = backup.lines().map(|l| l.to_string()).collect();

    let accounts = parse_backup(&lines);
    assert!(accounts.is_ok());
}

#[test]
fn parse_backup_err() {
    let backup = "NOT_REALLY_AN_URI";
    let lines: Vec<String> = backup.lines().map(|l| l.to_string()).collect();

    let accounts = parse_backup(&lines);
    assert!(accounts.is_err());
}
