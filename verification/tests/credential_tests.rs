use blog_backend::auth::credential::{hash_password, verify_password, PasswordHashAlgorithm};
use blog_backend::crypto::{base64url_encode, hex_encode, sha256_digest};
use std::str::FromStr;

#[test]
fn plain_hash_appends_password_head() {
    assert_eq!(hash_password("secret", PasswordHashAlgorithm::Plain), "secretsecret");
}

#[test]
fn plain_hash_keeps_only_32_characters_of_head() {
    let pw = "abcdefghijklmnopqrstuvwxyz0123456789ABCD";
    let expected = format!("{}{}", pw, &pw[..32]);
    assert_eq!(hash_password(pw, PasswordHashAlgorithm::Plain), expected);
}

#[test]
fn plain_hash_of_empty_password_is_empty() {
    assert_eq!(hash_password("", PasswordHashAlgorithm::Plain), "");
}

#[test]
fn plain_hash_counts_characters_not_bytes() {
    let pw = "密码密码密码密码密码密码密码密码密码密码密码密码密码密码密码密码密码";
    let head: String = pw.chars().take(32).collect();
    assert_eq!(hash_password(pw, PasswordHashAlgorithm::Plain), format!("{}{}", pw, head));
}

#[test]
fn sha256_hash_known_value() {
    assert_eq!(
        hash_password("password", PasswordHashAlgorithm::Sha256Hex),
        "beb7b2c3d9a99d9aae5f062cef89c712678c539e2e574205be1a1b52234b93c7"
    );
}

#[test]
fn sha256_hash_is_64_hex_characters() {
    let h = hash_password("anything at all", PasswordHashAlgorithm::Sha256Hex);
    assert_eq!(h.len(), 64);
    assert!(h.chars().all(|c| c.is_ascii_hexdigit() && !c.is_ascii_uppercase()));
}

#[test]
fn verify_accepts_own_hash_in_both_modes() {
    for mode in [PasswordHashAlgorithm::Plain, PasswordHashAlgorithm::Sha256Hex] {
        let stored = hash_password("hunter2", mode);
        assert!(verify_password("hunter2", &stored, mode));
        assert!(!verify_password("hunter3", &stored, mode));
    }
}

#[test]
fn verify_rejects_hash_of_other_mode() {
    let stored = hash_password("hunter2", PasswordHashAlgorithm::Sha256Hex);
    assert!(!verify_password("hunter2", &stored, PasswordHashAlgorithm::Plain));
}

#[test]
fn algorithm_names_are_case_insensitive() {
    assert_eq!(PasswordHashAlgorithm::from_str("sha256"), Ok(PasswordHashAlgorithm::Sha256Hex));
    assert_eq!(PasswordHashAlgorithm::from_str("SHA256"), Ok(PasswordHashAlgorithm::Sha256Hex));
    assert_eq!(PasswordHashAlgorithm::from_str("Sha256Hex"), Ok(PasswordHashAlgorithm::Sha256Hex));
    assert_eq!(PasswordHashAlgorithm::from_str("plain"), Ok(PasswordHashAlgorithm::Plain));
    assert_eq!(PasswordHashAlgorithm::from_str("md5"), Ok(PasswordHashAlgorithm::Plain));
    assert_eq!(PasswordHashAlgorithm::from_str(""), Ok(PasswordHashAlgorithm::Plain));
    assert_eq!(PasswordHashAlgorithm::from_name("sha256 "), PasswordHashAlgorithm::Plain);
}

#[test]
fn sha256_digest_known_vector() {
    assert_eq!(
        hex_encode(&sha256_digest(b"abc")),
        "ba7816bf8f01cfea414140de5dae2223b00361a396177a9cb410ff61f20015ad"
    );
}

#[test]
fn hex_encode_is_lower_case_two_digits_per_byte() {
    assert_eq!(hex_encode(&[0x00, 0x0f, 0xab, 0xff]), "000fabff");
    assert_eq!(hex_encode(&[]), "");
}

#[test]
fn base64url_has_no_padding_and_url_alphabet() {
    assert_eq!(base64url_encode(&[0xfb, 0xff]), "-_8");
    assert_eq!(base64url_encode(b"f"), "Zg");
    assert_eq!(base64url_encode(b"fo"), "Zm8");
    assert_eq!(base64url_encode(b"foo"), "Zm9v");
    assert_eq!(base64url_encode(b""), "");
}
