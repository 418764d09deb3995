use pin_hasher::hash;
use pin_hasher::verify;
use pin_hasher::HashingError;

#[test]
fn round_trip() {
    let h = hash("1234".to_string()).unwrap();
    assert_eq!(verify("1234".to_string(), h), Ok(true));
}

#[test]
fn wrong_pin_is_false_not_error() {
    let h = hash("1234".to_string()).unwrap();
    assert_eq!(verify("0000".to_string(), h), Ok(false));
}

#[test]
fn distinct_secrets_do_not_cross_verify() {
    let h1 = hash("1234".to_string()).unwrap();
    let h2 = hash("123456".to_string()).unwrap();
    assert_eq!(verify("123456".to_string(), h1), Ok(false));
    assert_eq!(verify("1234".to_string(), h2), Ok(false));
}

#[test]
fn repeated_derivations_draw_fresh_salts() {
    let h1 = hash("1234".to_string()).unwrap();
    let h2 = hash("1234".to_string()).unwrap();
    assert_ne!(h1, h2);
    assert_eq!(verify("1234".to_string(), h1), Ok(true));
    assert_eq!(verify("1234".to_string(), h2), Ok(true));
}

#[test]
fn malformed_text_is_an_error_not_a_verdict() {
    let r = verify("1234".to_string(), "not-a-valid-encoding".to_string());
    assert_eq!(r, Err(HashingError::MalformedInput));
}

#[test]
fn empty_text_is_malformed() {
    let r = verify("1234".to_string(), String::new());
    assert_eq!(r, Err(HashingError::MalformedInput));
}

#[test]
fn truncated_hash_is_malformed() {
    let h = hash("1234".to_string()).unwrap();
    // The default digest is 32 bytes, 43 B64 characters; dropping two leaves
    // the digest field 41 characters of B64, a length no B64 text has.
    let truncated: String = h.chars().take(h.chars().count() - 2).collect();
    let r = verify("1234".to_string(), truncated);
    assert_eq!(r, Err(HashingError::MalformedInput));
}

#[test]
fn incomplete_tuple_is_malformed() {
    // Parses as PHC, names the right algorithm, but carries no parameters,
    // salt or digest at all.
    let r = verify("1234".to_string(), "$argon2id".to_string());
    assert_eq!(r, Err(HashingError::MalformedInput));

    // Salt present, digest missing.
    let r = verify(
        "1234".to_string(),
        "$argon2id$v=19$m=19456,t=2,p=1$c2FsdHNhbHRzYWx0c2FsdA".to_string(),
    );
    assert_eq!(r, Err(HashingError::MalformedInput));
}

#[test]
fn undecodable_parameters_are_malformed() {
    // Structurally a fine PHC string, but the memory cost is no number, so
    // no derivation can be run from the embedded tuple.
    let r = verify(
        "1234".to_string(),
        "$argon2id$v=19$m=notanumber,t=2,p=1$c2FsdHNhbHRzYWx0c2FsdA$c2FsdHNhbHRzYWx0c2FsdA"
            .to_string(),
    );
    assert_eq!(r, Err(HashingError::MalformedInput));
}

#[test]
fn foreign_algorithm_is_malformed() {
    // Structurally a fine PHC string, but it names an algorithm outside the
    // Argon2 family.
    let r = verify(
        "1234".to_string(),
        "$bcrypt$c2FsdHNhbHRzYWx0c2FsdA$c2FsdHNhbHRzYWx0c2FsdA".to_string(),
    );
    assert_eq!(r, Err(HashingError::MalformedInput));
}

#[test]
fn output_carries_the_algorithm_tag() {
    let h = hash("1234".to_string()).unwrap();
    assert!(h.starts_with("$argon2id$"));
}

#[test]
fn error_messages_name_the_failure() {
    assert_eq!(HashingError::MalformedInput.message(), "malformed encoded hash");
    assert_eq!(HashingError::EncodingFailure.message(), "hash encoding failed");
    assert_eq!(
        HashingError::RandomnessUnavailable.message(),
        "secure randomness unavailable"
    );
}
