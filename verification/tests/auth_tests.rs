use kvserver::auth::{generate_secret_key, issue_jwt, verify_auth, AuthError};
use kvserver::configuration::Configuration;

#[test]
fn test_generate_secret_key() {
    let secret_key = generate_secret_key();
    assert_eq!(secret_key.len(), 64);
}

#[test]
fn test_issue_jwt() {
    let secret_key = generate_secret_key();
    let jwt = issue_jwt(&secret_key, None).unwrap();
    assert!(jwt.len() > 0);
}

#[test]
fn secret_key_is_lowercase_hex() {
    let secret_key = generate_secret_key();
    assert!(secret_key.chars().all(|c| c.is_ascii_hexdigit() && !c.is_ascii_uppercase()));
}

#[test]
fn disabled_gate_passes_everything() {
    let config = Configuration::default();
    assert!(verify_auth(None, &config).is_ok());
    assert!(verify_auth(Some("".to_string()), &config).is_ok());
    assert!(verify_auth(Some("not a token at all".to_string()), &config).is_ok());
    assert!(verify_auth(Some("Bearer garbage".to_string()), &config).is_ok());
}

fn enabled_config() -> (Configuration, String) {
    let secret_key = generate_secret_key();
    let jwt = issue_jwt(&secret_key, None).unwrap();
    (Configuration::new_with_enabled(jwt.clone(), secret_key), jwt)
}

#[test]
fn missing_header_is_auth_missing() {
    let (config, _jwt) = enabled_config();
    assert_eq!(verify_auth(None, &config), Err(AuthError::AuthMissing));
}

#[test]
fn valid_unexpired_credential_passes() {
    let (config, jwt) = enabled_config();
    assert_eq!(verify_auth(Some(format!("Bearer {}", jwt)), &config), Ok(()));
    // The raw credential, without the "Bearer " prefix, passes as well.
    assert_eq!(verify_auth(Some(jwt), &config), Ok(()));
}

#[test]
fn tampered_signature_is_auth_invalid() {
    let (config, jwt) = enabled_config();
    let last = jwt.chars().last().unwrap();
    let flipped = if last == 'A' { 'B' } else { 'A' };
    let mut tampered: String = jwt.chars().take(jwt.len() - 1).collect();
    tampered.push(flipped);
    assert_eq!(
        verify_auth(Some(format!("Bearer {}", tampered)), &config),
        Err(AuthError::AuthInvalid)
    );
}

#[test]
fn expired_credential_is_auth_invalid() {
    let secret_key = generate_secret_key();
    let long_past: i64 = chrono::Utc::now().timestamp() - 1_000_000;
    let expired = issue_jwt(&secret_key, Some(long_past)).unwrap();
    let config = Configuration::new_with_enabled(expired.clone(), secret_key);
    assert_eq!(
        verify_auth(Some(format!("Bearer {}", expired)), &config),
        Err(AuthError::AuthInvalid)
    );
}

#[test]
fn credential_under_wrong_secret_is_auth_invalid() {
    let (config, _jwt) = enabled_config();
    let other_secret = generate_secret_key();
    let foreign = issue_jwt(&other_secret, None).unwrap();
    assert_eq!(
        verify_auth(Some(format!("Bearer {}", foreign)), &config),
        Err(AuthError::AuthInvalid)
    );
}

#[test]
fn garbage_credential_is_auth_invalid() {
    let (config, _jwt) = enabled_config();
    assert_eq!(
        verify_auth(Some("Bearer not.a.token".to_string()), &config),
        Err(AuthError::AuthInvalid)
    );
}

#[test]
fn hex_encoding_exact_value() {
    assert_eq!(kvserver::auth::hex_encode(&vec![0x00, 0xab, 0xff, 0x10]), "00abff10");
    assert_eq!(kvserver::auth::hex_encode(&vec![]), "");
}
