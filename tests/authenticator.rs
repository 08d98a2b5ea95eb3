use google_auth::{decode_secret_key, encode_secret_key, new, with_defaults, AuthConfig, AuthError, AuthKey, Base};

const RFC_SECRET: &[u8] = b"12345678901234567890";

fn config(base: Base, code_digits: u32, window_size: u32) -> AuthConfig {
    AuthConfig {
        secret_bits: 80,
        code_digits,
        window_timestep_size: 30,
        window_size,
        base,
    }
}

#[test]
fn encode_secret_key_ten_chars_base32_should_yield_16_char_string() {
    let key = encode_secret_key(Base::BASE32, vec![100, 100, 100, 100, 100, 100, 100, 100, 100, 100]);
    assert!(key.len() == 16)
}

#[test]
fn validate_code_should_work_sixty_seconds_with_default_settings() {
    let auth = with_defaults();
    let creds = auth.create_credentials().unwrap();
    assert!(creds.key.len() == 16);
    let key_base = decode_secret_key(auth.config.base.clone(), creds.key.to_string()).unwrap();
    let code = auth.calculate_code(key_base.as_slice(), 0);
    for i in 1..60 {
        assert!(auth.validate_code(creds.clone(), i, code).unwrap());
    }
    assert!(!auth.validate_code(creds.clone(), 61, code).unwrap());
}

#[test]
fn validate_code_should_work_with_base64() {
    let auth = new(AuthConfig { secret_bits: 80, code_digits: 6, window_timestep_size: 30, window_size: 3, base: Base::BASE64 }).unwrap();
    let creds = auth.create_credentials().unwrap();
    assert!(creds.key.len() == 16);
    let key_base = decode_secret_key(auth.config.base.clone(), creds.key.to_string()).unwrap();
    let code = auth.calculate_code(key_base.as_slice(), 0);
    for i in 1..60 {
        assert!(auth.validate_code(creds.clone(), i, code).unwrap());
    }
    assert!(!auth.validate_code(creds.clone(), 61, code).unwrap());
}

#[test]
fn base32_encoding_of_ten_bytes_is_exact_and_unpadded() {
    let key = encode_secret_key(Base::BASE32, vec![100; 10]);
    assert_eq!(key, "MRSGIZDEMRSGIZDE");
    assert!(!key.contains('='));
}

#[test]
fn base64_encoding_is_padded() {
    assert_eq!(encode_secret_key(Base::BASE64, vec![100; 10]), "ZGRkZGRkZGRkZA==");
    assert_eq!(encode_secret_key(Base::BASE64, b"fo".to_vec()), "Zm8=");
}

#[test]
fn base32_encoding_matches_rfc4648_without_padding() {
    assert_eq!(encode_secret_key(Base::BASE32, b"foobar".to_vec()), "MZXW6YTBOI");
    assert_eq!(encode_secret_key(Base::BASE32, Vec::new()), "");
}

#[test]
fn decode_gives_the_bytes_of_known_texts() {
    assert_eq!(decode_secret_key(Base::BASE32, "MZXW6YTBOI".to_string()).unwrap(), b"foobar".to_vec());
    assert_eq!(decode_secret_key(Base::BASE64, "Zm8=".to_string()).unwrap(), b"fo".to_vec());
}

#[test]
fn round_trip_for_every_generated_length_and_both_bases() {
    for base in [Base::BASE32, Base::BASE64] {
        for len in 0..=32usize {
            let bytes: Vec<u8> = (0..len).map(|i| (i * 37 + 11) as u8).collect();
            let text = encode_secret_key(base, bytes.clone());
            assert_eq!(decode_secret_key(base, text).unwrap(), bytes);
        }
    }
}

#[test]
fn decode_rejects_characters_outside_the_alphabet() {
    assert_eq!(decode_secret_key(Base::BASE32, "MRSGIZDE!RSGIZDE".to_string()), Err(AuthError::MalformedKey));
    assert_eq!(decode_secret_key(Base::BASE32, "mrsgizdemrsgizde".to_string()), Err(AuthError::MalformedKey));
    assert_eq!(decode_secret_key(Base::BASE32, "MRSGIZDEMRSGIZD=".to_string()), Err(AuthError::MalformedKey));
    assert_eq!(decode_secret_key(Base::BASE64, "ZGRk*GRkZGRkZA==".to_string()), Err(AuthError::MalformedKey));
}

#[test]
fn decode_rejects_invalid_length() {
    assert_eq!(decode_secret_key(Base::BASE32, "M".to_string()), Err(AuthError::MalformedKey));
    assert_eq!(decode_secret_key(Base::BASE64, "Zm8".to_string()), Err(AuthError::MalformedKey));
}

#[test]
fn calculate_code_matches_rfc6238_vectors() {
    let auth = new(config(Base::BASE32, 8, 3)).unwrap();
    assert_eq!(auth.calculate_code(RFC_SECRET, 1), 94287082);
    assert_eq!(auth.calculate_code(RFC_SECRET, 37037036), 7081804);
    assert_eq!(auth.calculate_code(RFC_SECRET, 37037037), 14050471);
    assert_eq!(auth.calculate_code(RFC_SECRET, 41152263), 89005924);
    assert_eq!(auth.calculate_code(RFC_SECRET, 66666666), 69279037);
}

#[test]
fn calculate_code_reduces_to_the_configured_digits() {
    let auth = with_defaults();
    assert_eq!(auth.calculate_code(RFC_SECRET, 1), 287082);
    assert_eq!(auth.calculate_code(RFC_SECRET, 41152263), 5924);
    assert_eq!(auth.calculate_code(RFC_SECRET, 0), 755224);
}

#[test]
fn calculate_code_takes_a_negative_step_as_its_unsigned_bits() {
    let auth = new(config(Base::BASE32, 8, 3)).unwrap();
    assert_eq!(auth.calculate_code(RFC_SECRET, -1), 63094451);
}

#[test]
fn calculate_code_is_deterministic() {
    let auth = with_defaults();
    for step in [-5i64, 0, 1, 1000, i64::MAX, i64::MIN] {
        assert_eq!(auth.calculate_code(RFC_SECRET, step), auth.calculate_code(RFC_SECRET, step));
    }
}

#[test]
fn window_of_three_accepts_previous_and_current_step() {
    let auth = with_defaults();
    let creds = auth.key_from_secret(RFC_SECRET.to_vec());
    let code = auth.calculate_code(RFC_SECRET, 0);
    assert_eq!(code, 755224);
    for t in 1..60 {
        assert!(auth.validate_code(creds.clone(), t, code).unwrap());
    }
    assert!(!auth.validate_code(creds.clone(), 61, code).unwrap());
    assert!(auth.validate_code(creds.clone(), 61, 287082).unwrap());
    assert!(auth.validate_code(creds.clone(), 61, 359152).unwrap());
}

#[test]
fn time_step_truncates_toward_zero_for_negative_times() {
    let auth = with_defaults();
    let creds = auth.key_from_secret(RFC_SECRET.to_vec());
    assert!(auth.validate_code(creds.clone(), -29, 755224).unwrap());
    assert!(!auth.validate_code(creds.clone(), -31, 755224).unwrap());
    assert!(auth.validate_code(creds.clone(), -31, 94451).unwrap());
}

#[test]
fn window_of_five_checks_two_steps_back_and_one_ahead() {
    let auth = new(config(Base::BASE32, 6, 5)).unwrap();
    let creds = auth.key_from_secret(RFC_SECRET.to_vec());
    assert!(auth.validate_code(creds.clone(), 60, 755224).unwrap());
    assert!(!auth.validate_code(creds.clone(), 90, 755224).unwrap());
    assert!(auth.validate_code(creds.clone(), 0, 287082).unwrap());
    assert!(!auth.validate_code(creds.clone(), 0, 359152).unwrap());
}

#[test]
fn validate_code_reports_a_malformed_key() {
    let auth = with_defaults();
    let creds = AuthKey { key: "not base32!".to_string() };
    assert_eq!(auth.validate_code(creds, 0, 0), Err(AuthError::MalformedKey));
}

#[test]
fn end_to_end_with_default_config() {
    let auth = with_defaults();
    assert_eq!(auth.config.secret_bits, 80);
    assert_eq!(auth.config.code_digits, 6);
    assert_eq!(auth.config.window_timestep_size, 30);
    assert_eq!(auth.config.window_size, 3);
    assert_eq!(auth.config.base, Base::BASE32);
    let creds = auth.create_credentials().unwrap();
    let secret = decode_secret_key(Base::BASE32, creds.key.clone()).unwrap();
    assert_eq!(secret.len(), 10);
    let code = auth.calculate_code(&secret, 0);
    assert!(code < 1_000_000);
    for t in [1i64, 30, 59] {
        assert!(auth.validate_code(creds.clone(), t, code).unwrap());
    }
    let at_one = auth.calculate_code(&secret, 1);
    let at_two = auth.calculate_code(&secret, 2);
    if code != at_one && code != at_two {
        assert!(!auth.validate_code(creds.clone(), 61, code).unwrap());
    }
}

#[test]
fn cross_base_secrets_give_the_same_codes() {
    let bytes: Vec<u8> = (1..=10u8).collect();
    let b32 = new(config(Base::BASE32, 6, 3)).unwrap();
    let b64 = new(config(Base::BASE64, 6, 3)).unwrap();
    let k32 = b32.key_from_secret(bytes.clone());
    let k64 = b64.key_from_secret(bytes.clone());
    assert_ne!(k32.key, k64.key);
    let d32 = decode_secret_key(Base::BASE32, k32.key).unwrap();
    let d64 = decode_secret_key(Base::BASE64, k64.key).unwrap();
    assert_eq!(d32, d64);
    for step in [0i64, 1, 12345] {
        assert_eq!(b32.calculate_code(&d32, step), b64.calculate_code(&d64, step));
    }
}

#[test]
fn new_refuses_invalid_configurations() {
    let mut c = config(Base::BASE32, 6, 3);
    c.secret_bits = 81;
    assert!(matches!(new(c), Err(AuthError::InvalidConfig)));
    let mut c = config(Base::BASE32, 6, 3);
    c.window_size = 4;
    assert!(matches!(new(c), Err(AuthError::InvalidConfig)));
    let mut c = config(Base::BASE32, 6, 3);
    c.window_size = 0;
    assert!(matches!(new(c), Err(AuthError::InvalidConfig)));
    let mut c = config(Base::BASE32, 10, 3);
    c.code_digits = 10;
    assert!(matches!(new(c), Err(AuthError::InvalidConfig)));
    let mut c = config(Base::BASE32, 6, 3);
    c.window_timestep_size = 0;
    assert!(matches!(new(c), Err(AuthError::InvalidConfig)));
    assert!(new(config(Base::BASE64, 9, 1)).is_ok());
}

#[test]
fn created_credentials_have_the_configured_length() {
    let auth = new(AuthConfig { secret_bits: 160, code_digits: 6, window_timestep_size: 30, window_size: 3, base: Base::BASE64 }).unwrap();
    let creds = auth.create_credentials().unwrap();
    assert_eq!(creds.key.len(), 28);
    assert_eq!(decode_secret_key(Base::BASE64, creds.key).unwrap().len(), 20);
}
