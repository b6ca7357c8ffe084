use clipass::crypto::{
    decrypt, encrypt, genpass, hash_passphrase, password_from_draws, verify_passphrase, PASSWORD_CHARSET,
    PASSWORD_LENGTH,
};

#[test]
fn round_trip_recovers_plaintext() {
    for x in ["", "s3cr3t", "a longer secret with spaces and ünïcödé", "🔐"] {
        let c = encrypt("correct horse".to_string(), x.to_string());
        assert_eq!(decrypt("correct horse".to_string(), c).unwrap(), x);
    }
}

#[test]
fn ciphertext_differs_from_plaintext() {
    let c = encrypt("pw".to_string(), "s3cr3t".to_string());
    assert_ne!(c, "s3cr3t");
    assert!(c.chars().all(|ch| ch.is_ascii_alphanumeric() || "+/=".contains(ch)));
}

#[test]
fn encryption_is_deterministic() {
    let a = encrypt("pw".to_string(), "data".to_string());
    let b = encrypt("pw".to_string(), "data".to_string());
    assert_eq!(a, b);
}

#[test]
fn wrong_passphrase_does_not_recover_plaintext() {
    let c = encrypt("first".to_string(), "s3cr3t".to_string());
    match decrypt("second".to_string(), c) {
        Ok(s) => assert_ne!(s, "s3cr3t"),
        Err(_) => {}
    }
}

#[test]
fn malformed_ciphertext_is_rejected() {
    assert!(decrypt("pw".to_string(), "not base64 !!".to_string()).is_err());
    assert!(decrypt("pw".to_string(), "AAAA".to_string()).is_err());
}

#[test]
fn hash_is_hex_sha512() {
    assert_eq!(
        hash_passphrase(""),
        "cf83e1357eefb8bdf1542850d66d8007d620e4050b5715dc83f4a921d36ce9ce47d0d13c5d85f2b0ff8318d2877eec2f63b931bd47417a81a538327af927da3e"
    );
    assert_eq!(
        hash_passphrase("abc"),
        "ddaf35a193617abacc417349ae20413112e6fa4e89a97ea20a9eeee64b55d39a2192992a274fc1a836ba3c23a3feebbd454d4423643ce80e2a9ac94fa54ca49f"
    );
}

#[test]
fn verify_accepts_own_hash_only() {
    let h = hash_passphrase("master");
    assert!(verify_passphrase("master", &h));
    assert!(!verify_passphrase("Master", &h));
    assert!(!verify_passphrase("", &h));
    assert!(!verify_passphrase("master", "master"));
}

#[test]
fn generated_password_shape() {
    for _ in 0..100 {
        let p = genpass();
        assert_eq!(p.chars().count(), PASSWORD_LENGTH);
        assert_eq!(p.chars().count(), 16);
        assert!(p.chars().all(|c| PASSWORD_CHARSET.contains(c)));
    }
}

#[test]
fn generated_passwords_cover_alphabet() {
    let mut seen = std::collections::HashSet::new();
    for _ in 0..3000 {
        seen.extend(genpass().chars());
    }
    assert_eq!(PASSWORD_CHARSET.chars().count(), 90);
    for c in PASSWORD_CHARSET.chars() {
        assert!(seen.contains(&c), "never drew {c:?}");
    }
}

#[test]
fn generated_passwords_differ() {
    assert_ne!(genpass(), genpass());
}

#[test]
fn alphabet_has_ninety_distinct_characters() {
    let mut chars: Vec<char> = PASSWORD_CHARSET.chars().collect();
    assert_eq!(chars.len(), 90);
    chars.sort();
    chars.dedup();
    assert_eq!(chars.len(), 90);
    assert!(!PASSWORD_CHARSET.contains('`'));
}

#[test]
fn password_follows_draws() {
    assert_eq!(password_from_draws(&vec![0, 25, 26, 51, 52, 61, 62, 89]), "azAZ09!=");
    assert_eq!(password_from_draws(&vec![]), "");
    let draws: Vec<usize> = (0..16).map(|i| i * 5).collect();
    assert_eq!(password_from_draws(&draws), "afkpuzEJOTY38$(|");
}
