use sse_discord_bot::verification::{
    EmailAddress, EmailError, VerificationAttempt, MAX_FAILED_ATTEMPTS,
    VERIFICATION_CODE_TTL_MILLIS,
};

#[test]
fn in_process_addresses_split_at_the_first_at_sign() {
    let email = EmailAddress::parse("user@Example.com").unwrap();
    assert_eq!(email.to_string(), "user@Example.com");
    assert_eq!(EmailAddress::parse("nope").unwrap_err(), EmailError::MissingAt);
    assert_eq!(
        EmailAddress::parse("@x").unwrap_err().to_string(),
        "Invalid Email: missing user or domain"
    );
}

#[test]
fn attempts_expire_after_an_hour_and_count_failures() {
    let email = EmailAddress::parse("user@example.com").unwrap();
    let mut attempt = VerificationAttempt::started_at(7, email, 1_000).unwrap();
    assert_eq!(attempt.user_id(), 7);
    assert!(!attempt.is_expired_at(1_000 + VERIFICATION_CODE_TTL_MILLIS - 1));
    assert!(attempt.is_expired_at(1_000 + VERIFICATION_CODE_TTL_MILLIS));
    let code = attempt.code().to_string();
    assert_eq!(code.len(), 6);
    assert!(attempt.code_matches(&format!(" {code} ")));
    assert!(attempt.code().matches(&code));
    assert_eq!(attempt.attempts_remaining(), MAX_FAILED_ATTEMPTS);
    for remaining in (0..MAX_FAILED_ATTEMPTS).rev() {
        attempt.register_failed_attempt();
        assert_eq!(attempt.attempts_remaining(), remaining);
    }
    assert!(!attempt.has_attempts_remaining());
    let fresh = VerificationAttempt::new(8, EmailAddress::parse("a@b").unwrap()).unwrap();
    assert!(!fresh.is_expired());
}

#[test]
fn each_wrong_code_spends_one_attempt_until_none_is_left() {
    let mut attempt = VerificationAttempt::new(8, EmailAddress::parse("a@b").unwrap()).unwrap();
    for k in 0..10u8 {
        assert_eq!(attempt.attempts_remaining(), MAX_FAILED_ATTEMPTS - k.min(5));
        assert_eq!(attempt.has_attempts_remaining(), k < 5);
        assert_eq!(attempt.has_attempts_remaining(), attempt.attempts_remaining() > 0);
        let expired = attempt.is_expired();
        attempt.register_failed_attempt();
        assert!(!expired);
    }
}
