//! Licenses and the tool that makes them.
use poly_5min_bot::license_tool::{expiry_from, expiry_secs, parse_args, Request, ToolError};
use poly_5min_bot::time::Now;
use poly_5min_bot::trial::{
    changes_are_noticed, check_license, create_license, decrypt_timestamp, derive_key, encrypt_timestamp,
    license_file_path, now_secs, part_payload, read_time, time_left, LicenseError,
};

fn at(secs: i64) -> Now {
    Now { instant: 0, utc: secs * 1_000_000_000 }
}

#[test]
fn the_key_is_the_hash_of_the_seed() {
    let key = derive_key();
    let expected = sha2::Digest::finalize(<sha2::Sha256 as sha2::Digest>::new_with_prefix(
        b"poly_15min_bot_trial_seed_2025",
    ));
    assert_eq!(key, expected.to_vec());
}

#[test]
fn licenses_are_read_back() {
    for secs in [0, 1, 1_700_000_000, u64::MAX] {
        let license = create_license(secs).unwrap();
        assert_eq!(decrypt_timestamp(&license), Ok(secs));
        assert_eq!(decrypt_timestamp(&format!("  {}\r\n", license)), Ok(secs));
    }
    assert_ne!(create_license(5).unwrap(), create_license(5).unwrap());
}

#[test]
fn a_nonce_fixes_the_license() {
    let nonce = vec![7u8; 12];
    let a = encrypt_timestamp(99, nonce.clone()).unwrap();
    assert_eq!(a, encrypt_timestamp(99, nonce).unwrap());
    // Twelve bytes of nonce, eight of time and sixteen of tag.
    assert_eq!(a.len(), 48);
    assert!(a.starts_with("BwcHBwcHBwcHBwcH"));
    assert_eq!(decrypt_timestamp(&a), Ok(99));
}

#[test]
fn licenses_that_were_tampered_with() {
    let license = create_license(1_700_000_000).unwrap();
    let mut chars: Vec<char> = license.chars().collect();
    chars[20] = if chars[20] == 'A' { 'B' } else { 'A' };
    let changed: String = chars.into_iter().collect();
    assert_eq!(decrypt_timestamp(&changed), Err(LicenseError::Tampered));
    assert_eq!(decrypt_timestamp("***"), Err(LicenseError::BadFormat));
    assert_eq!(decrypt_timestamp("AAAA"), Err(LicenseError::TooShort));
    assert_eq!(decrypt_timestamp("AAAAAAAAAAAAAAAA"), Err(LicenseError::Tampered));
    assert_eq!(decrypt_timestamp(""), Err(LicenseError::TooShort));
}

fn encoded(bytes: &[u8]) -> String {
    base64::Engine::encode(&base64::engine::general_purpose::STANDARD, bytes)
}

#[test]
fn changed_and_cut_licenses_are_refused() {
    let license = create_license(1_700_000_000).unwrap();
    assert_eq!(license.len(), 48);
    let payload = base64::Engine::decode(&base64::engine::general_purpose::STANDARD, &license).unwrap();
    assert_eq!(payload.len(), 36);
    assert_eq!(decrypt_timestamp(&encoded(&payload)), Ok(1_700_000_000));
    for i in 0..36 {
        for bit in 0..8 {
            let mut changed = payload.clone();
            changed[i] ^= 1 << bit;
            assert_eq!(decrypt_timestamp(&encoded(&changed)), Err(LicenseError::Tampered));
        }
        assert!(decrypt_timestamp(&encoded(&payload[..i])).is_err());
    }
    assert!(changes_are_noticed());
    let mut longer = payload.clone();
    longer.push(0);
    assert_eq!(decrypt_timestamp(&encoded(&longer)), Err(LicenseError::Tampered));
}

#[test]
fn parts_of_a_license() {
    let (nonce, rest) = part_payload(Some((0..20).collect())).unwrap();
    assert_eq!(nonce, (0..12).collect::<Vec<u8>>());
    assert_eq!(rest, (12..20).collect::<Vec<u8>>());
    assert_eq!(part_payload(None), Err(LicenseError::BadFormat));
    assert_eq!(part_payload(Some(vec![0; 11])), Err(LicenseError::TooShort));
    assert_eq!(read_time(Some(vec![1, 2, 0, 0, 0, 0, 0, 0])), Ok(513));
    assert_eq!(read_time(Some(vec![1])), Err(LicenseError::BadContent));
    assert_eq!(read_time(None), Err(LicenseError::Tampered));
}

#[test]
fn licenses_expire() {
    let license = create_license(1000).unwrap();
    assert_eq!(check_license(Some(&license), at(999)), Ok(1));
    assert_eq!(check_license(Some(&license), at(1000)), Err(LicenseError::Expired));
    assert_eq!(check_license(None, at(0)), Err(LicenseError::NotFound));
    assert_eq!(check_license(Some("***"), at(0)), Err(LicenseError::BadFormat));
    assert_eq!(check_license(None, at(-1)), Err(LicenseError::Clock));
    assert_eq!(now_secs(Now { instant: 0, utc: 1_999_999_999 }), Ok(1));
    assert_eq!(time_left(Ok(10), 3), Ok(7));
    assert_eq!(time_left(Err(LicenseError::TooShort), 3), Err(LicenseError::TooShort));
}

#[test]
fn license_files() {
    assert_eq!(license_file_path(None), "license.key");
    assert_eq!(license_file_path(Some("/a/b")), "/a/b");
}

#[test]
fn license_errors_in_words() {
    assert_eq!(LicenseError::Clock.text(), "System time error");
    assert_eq!(LicenseError::NotMade.text(), "Encryption failed");
    assert_eq!(
        LicenseError::TooShort.text(),
        "Invalid or tampered license (data too short)"
    );
    assert!(LicenseError::NotFound.text().contains("POLY_15MIN_BOT_LICENSE"));
}

fn args(words: &[&str]) -> Result<Request, ToolError> {
    parse_args(&words.iter().map(|w| w.to_string()).collect())
}

#[test]
fn arguments_of_the_tool() {
    let r = args(&["--hours", "24", "--out", "f", "--until", "x", "--hours", "1"]).unwrap();
    assert_eq!(r.hours, Some(1));
    assert_eq!(r.until.as_deref(), Some("x"));
    assert_eq!(r.out.as_deref(), Some("f"));
    let none = args(&[]).unwrap();
    assert!(none.hours.is_none() && none.until.is_none() && none.out.is_none());
    assert_eq!(args(&["--hours"]).unwrap_err(), ToolError::HoursMissing);
    assert_eq!(args(&["--hours", "-1"]).unwrap_err(), ToolError::HoursInvalid);
    assert_eq!(args(&["--until"]).unwrap_err(), ToolError::UntilMissing);
    assert_eq!(args(&["--out"]).unwrap_err(), ToolError::OutMissing);
    assert_eq!(args(&["x"]).unwrap_err(), ToolError::Usage);
    assert_eq!(ToolError::HoursMissing.text(), "--hours requires argument");
}

#[test]
fn times_of_expiry() {
    let ask = |words: &[&str]| expiry_secs(&args(words).unwrap(), 1000);
    assert_eq!(ask(&["--hours", "2"]), Ok(8200));
    assert_eq!(ask(&["--hours", "18446744073709551615"]), Err(ToolError::OutOfRange));
    assert_eq!(ask(&["--until", "2025-02-03 00:00:00"]), Ok(1738540800));
    assert_eq!(ask(&["--until", "2025-02-03T01:00:00+01:00"]), Ok(1738540800));
    // A time before the epoch is over at every second since.
    assert_eq!(ask(&["--until", "1969-12-31 23:59:59"]), Ok(0));
    assert_eq!(ask(&["--until", "1970-01-01 00:00:01"]), Ok(1));
    assert_eq!(ask(&["--until", "tomorrow"]), Err(ToolError::UntilInvalid));
    assert_eq!(ask(&["--until", "tomorrow", "--hours", "0"]), Ok(1000));
    assert_eq!(ask(&[]), Err(ToolError::Unspecified));
    let until = args(&["--until", "x"]).unwrap();
    assert_eq!(expiry_from(&until, 0, Some(5), Some(6)), Ok(5));
    assert_eq!(expiry_from(&until, 0, None, Some(6)), Ok(6));
}
