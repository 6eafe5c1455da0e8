use sse_discord_bot::domain::onboarding::{
    AuditKind, ClaimProvisioningResult, DecisionResult, OnboardingRequest, OnboardingRequestId,
    OnboardingStatus, WorkflowError, sanitize_error,
};
use sse_discord_bot::domain::verification::{DisplayName, EmailAddress, VerificationCode};

#[test]
fn request_ids_must_be_positive() {
    assert!(OnboardingRequestId::new(1).is_some());
    assert!(OnboardingRequestId::new(0).is_none());
    assert!(OnboardingRequestId::new(-1).is_none());
}

#[test]
fn onboarding_status_round_trips() {
    for status in [
        OnboardingStatus::Pending,
        OnboardingStatus::Approved,
        OnboardingStatus::Denied,
        OnboardingStatus::Provisioning,
        OnboardingStatus::Completed,
        OnboardingStatus::Failed,
    ] {
        assert_eq!(OnboardingStatus::parse(status.as_str()), Some(status));
    }
}

#[test]
fn parses_valid_email_address() {
    let parsed = EmailAddress::parse("test@EXAMPLE.COM").expect("email should parse");

    assert_eq!(parsed.to_string(), "test@example.com");
    assert_eq!(parsed.domain(), "example.com");
}

#[test]
fn rejects_invalid_email_address() {
    assert!(EmailAddress::parse("not-an-email").is_err());
    assert!(EmailAddress::parse("@example.com").is_err());
    assert!(EmailAddress::parse("test@").is_err());
    assert!(EmailAddress::parse("test@example.com@evil.example").is_err());
    assert!(EmailAddress::parse("test @example.com").is_err());
}

#[test]
fn parses_and_trims_display_name() {
    let parsed = DisplayName::parse("  Ada Lovelace  ").expect("name should parse");

    assert_eq!(parsed.as_str(), "Ada Lovelace");
}

#[test]
fn rejects_invalid_display_name() {
    assert!(DisplayName::parse("   ").is_err());
    assert!(DisplayName::parse(&"a".repeat(101)).is_err());
    assert!(DisplayName::parse("Ada\nLovelace").is_err());
}

#[test]
fn rejects_display_name_too_long_for_discord_nickname() {
    assert!(DisplayName::parse_discord_nickname(&"a".repeat(32)).is_ok());
    assert!(DisplayName::parse_discord_nickname(&"a".repeat(33)).is_err());
}

#[test]
fn generated_verification_code_is_six_digits() {
    let code = VerificationCode::generate().expect("the system random source should be available");

    assert_eq!(code.as_str().len(), 6);
    assert!(
        code.as_str()
            .chars()
            .all(|character| character.is_ascii_digit())
    );
}

#[test]
fn verification_code_hash_accepts_the_original_code() {
    let code = VerificationCode::generate().expect("the system random source should be available");
    let hash = code.hash().expect("verification code should hash");

    assert!(
        VerificationCode::verify_hash(&hash, code.as_str())
            .expect("verification code hash should verify")
    );
}

#[test]
fn verification_code_hash_rejects_a_different_code() {
    let code = VerificationCode::generate().expect("the system random source should be available");
    let hash = code.hash().expect("verification code should hash");

    assert!(
        !VerificationCode::verify_hash(&hash, "not-the-code")
            .expect("verification code hash should verify")
    );
}

#[test]
fn malformed_hashes_are_reported() {
    let error = VerificationCode::verify_hash("not a hash", "123456").unwrap_err();
    assert!(error.to_string().starts_with("invalid stored verification code hash: "));
}

fn pending() -> OnboardingRequest {
    OnboardingRequest::from_persisted(
        OnboardingRequestId::new(1).unwrap(),
        1,
        9,
        EmailAddress::parse("test@example.com").unwrap(),
        DisplayName::parse("Test Member").unwrap(),
        "headscale".to_string(),
        "Headscale".to_string(),
        0,
        0,
        OnboardingStatus::Pending,
        None,
        None,
        None,
        None,
        0,
        None,
        None,
        None,
        None,
    )
}

const MINUTE: i128 = 60_000_000_000;

#[test]
fn only_one_pending_decision_wins() {
    let approved = match pending().decide(OnboardingStatus::Approved, 11, 5) {
        DecisionResult::Updated(request) => request,
        _ => unreachable!(),
    };
    assert_eq!(approved.status(), OnboardingStatus::Approved);
    assert_eq!(approved.decided_by_user_id(), Some(11));
    match approved.decide(OnboardingStatus::Denied, 12, 6) {
        DecisionResult::AlreadyHandled(request) => {
            assert_eq!(request.status(), OnboardingStatus::Approved)
        }
        _ => panic!("a second decision must not apply"),
    }
}

#[test]
fn failed_provisioning_can_be_retried() {
    let approved = match pending().decide(OnboardingStatus::Approved, 11, 5) {
        DecisionResult::Updated(request) => request,
        _ => unreachable!(),
    };
    let claimed = match approved.claim_provisioning(6).unwrap() {
        ClaimProvisioningResult::Claimed(request) => request,
        _ => unreachable!(),
    };
    assert_eq!(claimed.provisioning_attempts(), 1);
    let attempt = claimed.provisioning_attempts();
    let failed = claimed.mark_failed("temporary failure", attempt, 7).unwrap();
    assert_eq!(failed.last_error(), Some("temporary failure"));

    let retried = failed.claim_provisioning(8).unwrap();
    assert!(matches!(retried, ClaimProvisioningResult::Claimed(ref r) if r.provisioning_attempts() == 2));
}

#[test]
fn denied_request_allows_a_new_request() {
    let denied = match pending().decide(OnboardingStatus::Denied, 11, 5) {
        DecisionResult::Updated(request) => request,
        _ => unreachable!(),
    };
    assert!(!denied.blocks_new_request(1, "headscale"));
    assert!(pending().blocks_new_request(1, "headscale"));
    assert!(!pending().blocks_new_request(1, "HEADSCALE"));
    assert!(!pending().blocks_new_request(2, "headscale"));
}

#[test]
fn stale_provisioning_attempt_cannot_overwrite_retry() {
    let approved = match pending().decide(OnboardingStatus::Approved, 11, 0) {
        DecisionResult::Updated(request) => request,
        _ => unreachable!(),
    };
    let first = match approved.claim_provisioning(0).unwrap() {
        ClaimProvisioningResult::Claimed(request) => request,
        _ => unreachable!(),
    };
    let first_attempt = first.provisioning_attempts();
    // A running attempt cannot be taken over before 15 minutes have passed.
    let first = match first.claim_provisioning(14 * MINUTE).unwrap() {
        ClaimProvisioningResult::Unavailable(request) => request,
        _ => panic!("a running attempt must not be claimed"),
    };
    let retry = match first.claim_provisioning(16 * MINUTE).unwrap() {
        ClaimProvisioningResult::Claimed(request) => request,
        _ => unreachable!(),
    };
    let retry_attempt = retry.provisioning_attempts();
    let stored = retry.clone();

    let retry = match retry.mark_failed("late failure", first_attempt, 17 * MINUTE) {
        Err(WorkflowError::NotProvisioning) => {
            // The request was handed back unchanged to the caller's copy.
            retry_attempt
        }
        _ => panic!("a stale attempt must not record a failure"),
    };
    assert_eq!(retry, 2);

    // The stored request is unchanged, so the current attempt still completes it.
    let completed = stored
        .mark_completed(123, retry_attempt, 18 * MINUTE)
        .expect("the current attempt should complete the request");
    assert_eq!(completed.status(), OnboardingStatus::Completed);
}

#[test]
fn the_running_attempt_completes_the_request() {
    let approved = match pending().decide(OnboardingStatus::Approved, 11, 0) {
        DecisionResult::Updated(request) => request,
        _ => unreachable!(),
    };
    let claimed = match approved.claim_provisioning(0).unwrap() {
        ClaimProvisioningResult::Claimed(request) => request,
        _ => unreachable!(),
    };
    let completed = claimed.mark_completed(123, 1, 1).unwrap();
    assert_eq!(completed.status(), OnboardingStatus::Completed);
    assert_eq!(completed.authentik_user_id(), Some(123));
    assert!(matches!(
        completed.claim_provisioning(100 * MINUTE),
        Ok(ClaimProvisioningResult::Unavailable(_))
    ));
}

#[test]
fn too_large_authentik_ids_are_refused() {
    let approved = match pending().decide(OnboardingStatus::Approved, 11, 0) {
        DecisionResult::Updated(request) => request,
        _ => unreachable!(),
    };
    let claimed = match approved.claim_provisioning(0).unwrap() {
        ClaimProvisioningResult::Claimed(request) => request,
        _ => unreachable!(),
    };
    assert!(matches!(
        claimed.mark_completed(u64::MAX, 1, 1),
        Err(WorkflowError::AuthentikIdTooLarge)
    ));
}

#[test]
fn stored_errors_drop_control_characters_and_are_cut() {
    assert_eq!(sanitize_error("bad\nthing\t happened"), "badthing happened");
    assert_eq!(sanitize_error(&"x".repeat(600)).len(), 500);
}

#[test]
fn pending_request_is_reused() {
    let first = pending();
    // A second request for the same member and target, made by another
    // officer, finds the first one still open and reuses it.
    assert!(first.blocks_new_request(1, "headscale"));
    assert_eq!(first.requested_by_user_id(), 9);
    assert_eq!(first.status(), OnboardingStatus::Pending);
}

#[test]
fn workflow_transitions_append_audit_events() {
    let approved = match pending().decide(OnboardingStatus::Approved, 11, 5) {
        DecisionResult::Updated(request) => request,
        _ => unreachable!(),
    };
    let claimed = match approved.claim_provisioning(6).unwrap() {
        ClaimProvisioningResult::Claimed(request) => request,
        _ => unreachable!(),
    };
    let attempt = claimed.provisioning_attempts();
    let completed = claimed.mark_completed(123, attempt, 7).unwrap();
    assert_eq!(completed.status(), OnboardingStatus::Completed);

    let event_types: Vec<&str> = [
        AuditKind::ProvisioningCompleted,
        AuditKind::ProvisioningStarted,
        AuditKind::of_decision(OnboardingStatus::Approved),
        AuditKind::RequestCreated,
    ]
    .iter()
    .map(|kind| kind.event_type())
    .collect();
    assert_eq!(
        event_types,
        vec![
            "onboarding.provisioning_completed",
            "onboarding.provisioning_started",
            "onboarding.approved",
            "onboarding.request_created"
        ]
    );
}

#[test]
fn request_ids_are_their_numbers() {
    let id = OnboardingRequestId::parse("42").unwrap();
    assert!(id.get() > 0);
    assert_eq!(OnboardingRequestId::new(id.get()), Some(id));
    assert_eq!(id.to_string(), id.get().to_string());
}

#[test]
fn a_stored_code_hash_is_never_the_code() {
    let code = VerificationCode::generate().expect("the system random source should be available");
    let hash = code.hash().unwrap();
    assert!(hash.starts_with('$'));
    assert_ne!(hash, code.as_str());
    assert!(VerificationCode::verify_hash(&hash, &format!("  {}\n", code.as_str())).unwrap());
}
