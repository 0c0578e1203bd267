use totp::{derive_counter, encode_digest, hotp, EncodeError, OtpError, Totp, UnixTime};

/// ASCII "12345678901234567890" in unpadded base32.
const RFC_SECRET: &str = "GEZDGNBVGY3TQOJQGEZDGNBVGY3TQOJQ";

fn rfc_totp(skew: i64) -> Totp {
    Totp::new(RFC_SECRET.to_string(), 30, skew)
}

#[test]
fn rfc6238_sha1_vector_at_59() {
    assert_eq!(derive_counter(59, 0, 30), 1);
    assert_eq!(rfc_totp(0).at(UnixTime::Since(59)), Ok(287082));
}

#[test]
fn rfc6238_sha1_vectors() {
    let t = rfc_totp(0);
    assert_eq!(t.at(UnixTime::Since(1111111109)), Ok(81804));
    assert_eq!(t.at(UnixTime::Since(1111111111)), Ok(50471));
    assert_eq!(t.at(UnixTime::Since(1234567890)), Ok(5924));
    assert_eq!(t.at(UnixTime::Since(2000000000)), Ok(279037));
    assert_eq!(t.at(UnixTime::Since(20000000000)), Ok(353130));
}

#[test]
fn rfc4226_hotp_values() {
    let key = b"12345678901234567890";
    let expected: [u32; 10] = [
        755224, 287082, 359152, 969429, 338314, 254676, 287922, 162583, 399871, 520489,
    ];
    for (counter, code) in expected.iter().enumerate() {
        assert_eq!(hotp(key, counter as u64), *code);
    }
}

#[test]
fn same_time_same_code() {
    let t = rfc_totp(0);
    let a = t.at(UnixTime::Since(1_700_000_000));
    let b = t.at(UnixTime::Since(1_700_000_000));
    assert!(a.is_ok());
    assert_eq!(a, b);
}

#[test]
fn counter_grows_by_one_step() {
    assert_eq!(derive_counter(0, 0, 30), 0);
    assert_eq!(derive_counter(29, 0, 30), 0);
    assert_eq!(derive_counter(30, 0, 30), 1);
    assert!(derive_counter(1000 + 30, 7, 30) > derive_counter(1000, 7, 30));
    assert_eq!(derive_counter(100, -40, 30), 2);
}

#[test]
fn negative_skewed_time_wraps_to_large_counter() {
    assert_eq!(derive_counter(0, -1, 30), u64::MAX / 30);
    assert_eq!(derive_counter(u64::MAX, 1, 1), 0);
}

#[test]
fn same_window_same_code() {
    let t = rfc_totp(0);
    assert_eq!(t.at(UnixTime::Since(30)), t.at(UnixTime::Since(59)));
    assert_eq!(t.at(UnixTime::Since(30)), Ok(287082));
    assert_ne!(t.at(UnixTime::Since(59)), t.at(UnixTime::Since(60)));
}

#[test]
fn verify_at_accepts_only_the_code() {
    let t = rfc_totp(0);
    assert_eq!(t.verify_at(287082, UnixTime::Since(59)), Ok(true));
    assert_eq!(t.verify_at(287083, UnixTime::Since(59)), Ok(false));
    assert_eq!(t.verify_at(94287082, UnixTime::Since(59)), Ok(false));
    assert_eq!(t.verify_at(287082, UnixTime::Before(1)), Err(OtpError::Time(1)));
}

#[test]
fn verify_now_agrees_with_now() {
    let t = rfc_totp(0);
    let code = t.now().unwrap();
    assert!(code < 1_000_000);
    assert_eq!(t.verify(1_000_000), Ok(false));
    let verdict = t.verify(code).unwrap();
    let again = t.now().unwrap();
    if again == code {
        assert!(verdict);
    }
}

#[test]
fn secret_with_foreign_symbols_fails_to_decode() {
    for secret in ["GEZDGNBVGY3TQOJq", "GEZDGNBVGY3TQOJ0", "GEZDGNBVGY3TQOJ1", "GEZDGNBVGY3TQOJ8", "GEZDGNBVGY3TQOJ9", "GEZDGNBVGY3TQOJQ========"] {
        let t = Totp::new(secret.to_string(), 30, 0);
        assert!(matches!(t.at(UnixTime::Since(59)), Err(OtpError::Decode(_))), "{}", secret);
        assert!(matches!(t.verify_at(0, UnixTime::Since(59)), Err(OtpError::Decode(_))));
    }
}

#[test]
fn secret_with_bad_length_or_trailing_bits_fails_to_decode() {
    let bad_length = Totp::new("ABC".to_string(), 30, 0);
    assert!(matches!(bad_length.at(UnixTime::Since(0)), Err(OtpError::Decode(_))));
    let trailing = Totp::new("AB".to_string(), 30, 0);
    assert!(matches!(trailing.at(UnixTime::Since(0)), Err(OtpError::Decode(_))));
    let fine = Totp::new("AE".to_string(), 30, 0);
    assert!(fine.at(UnixTime::Since(0)).is_ok());
    let empty = Totp::new(String::new(), 30, 0);
    assert!(empty.at(UnixTime::Since(0)).is_ok());
}

#[test]
fn time_before_epoch_fails() {
    let t = rfc_totp(0);
    assert_eq!(t.at(UnixTime::Before(5)), Err(OtpError::Time(5)));
    let bad = Totp::new("a".to_string(), 30, 0);
    assert_eq!(bad.at(UnixTime::Before(0)), Err(OtpError::Time(0)));
}

#[test]
fn truncation_rfc4226_example() {
    let digest: [u8; 20] = [
        0x1f, 0x86, 0x98, 0x69, 0x0e, 0x02, 0xca, 0x16, 0x61, 0x85, 0x50, 0xef, 0x7f, 0x19, 0xda,
        0x8e, 0x94, 0x5b, 0x55, 0x5a,
    ];
    assert_eq!(encode_digest(&digest), Ok(872921));
}

#[test]
fn truncation_at_maximal_offset() {
    let mut digest = [0u8; 20];
    digest[15] = 0xff;
    digest[16] = 0x00;
    digest[17] = 0x00;
    digest[18] = 0x01;
    digest[19] = 0x2f;
    // offset 15: window bytes 15..19 = 0xff000001, sign bit cleared: 0x7f000001 = 2130706433
    assert_eq!(encode_digest(&digest), Ok(706433));
    digest[19] = 0x0f;
    assert_eq!(encode_digest(&digest), Ok(706433));
}

#[test]
fn truncation_window_past_end_fails() {
    let digest = [0u8, 1, 2, 3, 4, 5, 6, 7, 8, 0x0f];
    assert_eq!(
        encode_digest(&digest),
        Err(EncodeError::WindowOutOfBounds { offset: 15, digest_len: 10 })
    );
    assert_eq!(
        encode_digest(&[0x00, 0x01, 0x02]),
        Err(EncodeError::WindowOutOfBounds { offset: 2, digest_len: 3 })
    );
    assert_eq!(encode_digest(&[0x10, 0x20, 0x30, 0x40]), Ok(0x10203040 % 1_000_000));
}

#[test]
fn truncation_of_empty_digest_fails() {
    assert_eq!(encode_digest(&[]), Err(EncodeError::EmptyDigest));
}

#[test]
fn skew_equals_shifted_time() {
    let k = 1234;
    assert_eq!(rfc_totp(k).at(UnixTime::Since(59)), rfc_totp(0).at(UnixTime::Since(59 + 1234)));
    assert_eq!(rfc_totp(-30).at(UnixTime::Since(89)), rfc_totp(0).at(UnixTime::Since(59)));
    assert_eq!(rfc_totp(-30).at(UnixTime::Since(89)), Ok(287082));
}
