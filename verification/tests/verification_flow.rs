use sse_discord_bot::verify::{
    verification_component_step, verification_modal_step, ComponentStep, ModalStep,
};
use sse_discord_bot::domain::verification::VerificationCode;
use sse_discord_bot::pending::{
    attempt_outcome, check_code, start_result, CheckPendingVerificationResult, PendingAttempt,
    PendingChange, StartPendingVerificationResult, MAX_FAILED_ATTEMPTS,
};
use sse_discord_bot::verify::{
    code_sent_message, log_user_field, member_join_action, modal_code_step,
    parse_authorized_email, slash_code_step, sync_verified_roles, verify_component, verify_modal,
    JoinAction, ModalCodeStep, SlashCodeStep, VerifyComponent, VerifyModal,
};

fn attempt(code_hash: &str, failed_attempts: i16, display_name: Option<&str>, expired: bool) -> PendingAttempt {
    PendingAttempt {
        email: "test@example.com".to_string(),
        display_name: display_name.map(|n| n.to_string()),
        code_hash: code_hash.to_string(),
        failed_attempts,
        expired,
    }
}

#[test]
fn active_attempt_is_reused() {
    assert_eq!(start_result(None), StartPendingVerificationResult::Created);
    assert_eq!(start_result(Some((false, true))), StartPendingVerificationResult::Reused);
    assert_eq!(start_result(Some((true, true))), StartPendingVerificationResult::Created);
}

#[test]
fn legacy_attempt_is_replaced_with_a_named_attempt() {
    assert_eq!(start_result(Some((false, false))), StartPendingVerificationResult::Created);
}

#[test]
fn accepted_code_records_identity_and_consumes_attempt() {
    let code = VerificationCode::generate().expect("the system random source should be available");
    let hash = code.hash().unwrap();
    let result = check_code(Some(attempt(&hash, 0, Some("Test Member"), false)), code.as_str()).unwrap();
    match result {
        (CheckPendingVerificationResult::Accepted { email, display_name }, PendingChange::Accept) => {
            assert_eq!(email.to_string(), "test@example.com");
            assert_eq!(display_name.as_str(), "Test Member");
        }
        other => panic!("unexpected {other:?}"),
    }
}

#[test]
fn failed_attempt_limit_survives_separate_checks() {
    let code = VerificationCode::generate().expect("the system random source should be available");
    let hash = code.hash().unwrap();
    let mut failed: i16 = 0;
    for attempts_remaining in (1..MAX_FAILED_ATTEMPTS as u8).rev() {
        let (result, change) = check_code(Some(attempt(&hash, failed, Some("Test Member"), false)), "incorrect").unwrap();
        assert!(matches!(
            result,
            CheckPendingVerificationResult::Incorrect {
                attempts_remaining: actual,
                has_attempts_remaining: true,
            } if actual == attempts_remaining
        ));
        failed = match change {
            PendingChange::RecordFailures(n) => n,
            other => panic!("unexpected {other:?}"),
        };
    }
    let (final_result, change) = check_code(Some(attempt(&hash, failed, Some("Test Member"), false)), "incorrect").unwrap();
    assert!(matches!(
        final_result,
        CheckPendingVerificationResult::Incorrect {
            attempts_remaining: 0,
            has_attempts_remaining: false,
        }
    ));
    assert_eq!(change, PendingChange::Delete);
    let (missing, keep) = check_code(None, "incorrect").unwrap();
    assert!(matches!(missing, CheckPendingVerificationResult::Missing));
    assert_eq!(keep, PendingChange::Keep);
}

#[test]
fn expired_attempt_is_consumed() {
    let code = VerificationCode::generate().expect("the system random source should be available");
    let hash = code.hash().unwrap();
    let (result, change) = check_code(Some(attempt(&hash, 0, Some("Test Member"), true)), code.as_str()).unwrap();
    assert!(matches!(result, CheckPendingVerificationResult::Expired));
    assert_eq!(change, PendingChange::Delete);
}

#[test]
fn legacy_attempt_cannot_complete_without_a_display_name() {
    let code = VerificationCode::generate().expect("the system random source should be available");
    let hash = code.hash().unwrap();
    let (result, change) = check_code(Some(attempt(&hash, 0, None, false)), code.as_str()).unwrap();
    assert!(matches!(result, CheckPendingVerificationResult::Missing));
    assert_eq!(change, PendingChange::Delete);
}

#[test]
fn a_stored_attempt_with_a_broken_email_is_an_error() {
    let result = attempt_outcome(
        &PendingAttempt {
            email: "broken".to_string(),
            display_name: Some("Name".to_string()),
            code_hash: String::new(),
            failed_attempts: 0,
            expired: false,
        },
        Ok(true),
    );
    assert!(result.is_err());
}

#[test]
fn only_allowed_domains_are_accepted() {
    let allowed = vec!["rit.edu".to_string(), "g.rit.edu".to_string()];
    assert_eq!(parse_authorized_email(&allowed, " ab1234@RIT.EDU ").unwrap().to_string(), "ab1234@rit.edu");
    assert_eq!(
        parse_authorized_email(&allowed, "ab@gmail.com").unwrap_err(),
        "Verification requires an email address from: @rit.edu, @g.rit.edu"
    );
    assert_eq!(
        parse_authorized_email(&allowed, "no-at-sign").unwrap_err(),
        "That does not look like a valid email: Invalid email: missing '@' symbol"
    );
}

#[test]
fn roles_are_brought_in_line() {
    let sync = sync_verified_roles(&vec![3], 1, Some(3));
    assert_eq!(sync.add_verified, Some(1));
    assert_eq!(sync.remove_unverified, Some(3));
    let done = sync_verified_roles(&vec![1], 1, Some(3));
    assert_eq!(done.add_verified, None);
    assert_eq!(done.remove_unverified, None);
    assert!(matches!(member_join_action(true, true, &vec![], 1, Some(3)), JoinAction::Ignore));
    assert!(matches!(member_join_action(false, false, &vec![], 1, Some(3)), JoinAction::AddUnverified(3)));
    assert!(matches!(member_join_action(false, false, &vec![3], 1, Some(3)), JoinAction::Nothing));
    assert!(matches!(member_join_action(false, true, &vec![3], 1, Some(3)), JoinAction::Restore(_)));
}

#[test]
fn code_replies_depend_on_the_check() {
    let incorrect = CheckPendingVerificationResult::Incorrect {
        attempts_remaining: 3,
        has_attempts_remaining: true,
    };
    assert!(matches!(slash_code_step(&incorrect), SlashCodeStep::PromptRetry(3)));
    match modal_code_step(&incorrect) {
        ModalCodeStep::Reply { content, button } => {
            assert_eq!(content, "That verification code is incorrect. You have 3 attempts remaining.");
            assert_eq!(button, Some("Try again"));
        }
        ModalCodeStep::Complete => panic!("a wrong code does not complete"),
    }
    match slash_code_step(&CheckPendingVerificationResult::Expired) {
        SlashCodeStep::Reply(text) => {
            assert_eq!(text, "That verification code expired. Please run `/verify` again.")
        }
        _ => panic!("an expired code is answered"),
    }
    assert_eq!(
        code_sent_message(StartPendingVerificationResult::Reused),
        "You already have an active verification code. Check your email, then enter it below."
    );
    assert_eq!(log_user_field("ada", 42), "ada (42)");
}

#[test]
fn interactions_are_routed_by_custom_id() {
    assert_eq!(verify_component("verify:start"), VerifyComponent::Start);
    assert_eq!(verify_component("verify:code"), VerifyComponent::Code);
    assert_eq!(verify_component("verify:code:modal"), VerifyComponent::Other);
    assert_eq!(verify_modal("verify:email"), VerifyModal::Email);
    assert_eq!(verify_modal("verify:code:modal"), VerifyModal::Code);
}

#[test]
fn a_disabled_verification_module_refuses_its_buttons_and_forms() {
    for component in [VerifyComponent::Start, VerifyComponent::Code] {
        assert!(matches!(verification_component_step(false, component),
            ComponentStep::Refuse(r) if r == "Verification is currently disabled."));
    }
    assert!(matches!(verification_component_step(false, VerifyComponent::Other), ComponentStep::Ignore));
    assert!(matches!(verification_component_step(true, VerifyComponent::Start), ComponentStep::OpenEmailForm));
    assert!(matches!(verification_component_step(true, VerifyComponent::Code), ComponentStep::OpenCodeForm));
    for modal in [VerifyModal::Email, VerifyModal::Code] {
        assert!(matches!(verification_modal_step(false, modal),
            ModalStep::Refuse(r) if r == "Verification is currently disabled."));
    }
    assert!(matches!(verification_modal_step(true, VerifyModal::Email), ModalStep::CheckEmail));
    assert!(matches!(verification_modal_step(true, VerifyModal::Code), ModalStep::CheckCode));
    assert!(matches!(verification_modal_step(true, VerifyModal::Other), ModalStep::Ignore));
}
