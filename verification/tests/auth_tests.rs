use mira_sharer::auth::{
    friendly_char, friendly_string_from_words, random_user_friendly_string, AuthError, AuthenticationPayload, Authenticator,
    DeclineReason, PasswordAuthenticator,
};

const ALPHABET: &str = "ABCDEFGHJKLMNPQRSTUVWXYZ23456789";

#[test]
fn empty_password_is_refused() {
    assert!(matches!(PasswordAuthenticator::new(String::new()), Err(AuthError::EmptyPassword)));
}

#[test]
fn password_is_kept() {
    let a = PasswordAuthenticator::new("X7KQ2".to_string()).unwrap();
    assert_eq!(a.password(), "X7KQ2");
}

#[test]
fn matching_password_is_admitted() {
    let a = PasswordAuthenticator::new("secret".to_string()).unwrap();
    let payload = AuthenticationPayload::Password { password: "secret".to_string() };
    assert_eq!(a.authenticate(&payload), None);
}

#[test]
fn wrong_password_is_declined() {
    let a = PasswordAuthenticator::new("secret".to_string()).unwrap();
    let payload = AuthenticationPayload::Password { password: "Secret".to_string() };
    assert_eq!(a.authenticate(&payload), Some(DeclineReason::IncorrectPassword));
    let empty = AuthenticationPayload::Password { password: String::new() };
    assert_eq!(a.authenticate(&empty), Some(DeclineReason::IncorrectPassword));
}

#[test]
fn missing_credentials_are_declined() {
    let a = PasswordAuthenticator::new("secret".to_string()).unwrap();
    assert_eq!(a.authenticate(&AuthenticationPayload::Anonymous), Some(DeclineReason::NoCredentials));
}

#[test]
fn random_password_has_five_friendly_characters() {
    for _ in 0..50 {
        let a = PasswordAuthenticator::random().unwrap();
        let p = a.password();
        assert_eq!(p.chars().count(), 5);
        assert!(p.chars().all(|c| ALPHABET.contains(c)));
        let payload = AuthenticationPayload::Password { password: p.clone() };
        assert_eq!(a.authenticate(&payload), None);
    }
}

#[test]
fn random_strings_have_the_requested_length() {
    assert_eq!(random_user_friendly_string(0), "");
    let s = random_user_friendly_string(32);
    assert_eq!(s.chars().count(), 32);
    assert!(s.chars().all(|c| ALPHABET.contains(c)));
}

#[test]
fn top_five_bits_pick_the_character() {
    assert_eq!(friendly_char(0), 'A');
    assert_eq!(friendly_char(0x07FF_FFFF), 'A');
    assert_eq!(friendly_char(1 << 27), 'B');
    assert_eq!(friendly_char(8 << 27), 'J');
    assert_eq!(friendly_char(24 << 27), '2');
    assert_eq!(friendly_char(u32::MAX), '9');
}

#[test]
fn empty_password_error_message() {
    let e = PasswordAuthenticator::new(String::new()).err().unwrap();
    assert_eq!(e.message(), "Password cannot be empty");
}

#[test]
fn words_select_the_characters() {
    assert_eq!(friendly_string_from_words(&vec![]), "");
    assert_eq!(friendly_string_from_words(&vec![0, 1 << 27, u32::MAX, 24 << 27]), "AB92");
}
