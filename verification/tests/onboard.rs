use sse_discord_bot::config::targets::parse_onboarding_targets;
use sse_discord_bot::domain::onboarding::{
    OnboardingRequest, OnboardingRequestId, OnboardingStatus,
};
use sse_discord_bot::domain::verification::{DisplayName, EmailAddress};
use sse_discord_bot::onboard::{
    already_handled_message, audit_line, autocomplete_targets, available_targets_for_member,
    can_approve_target, check_identity, check_member, check_requester, check_reviewer,
    completion_message, custom_id, denial_message, dependency_report, find_target,
    parse_onboarding_custom_id, recent_requests_report, request_ready_message,
    request_status_content, review_buttons, review_message_content, safe_provisioning_error,
    status_report, GroupCheck, OnboardingAction, ProvisioningOutcome,
};

#[test]
fn parses_positive_custom_ids() {
    assert!(matches!(
        parse_onboarding_custom_id("onboard:approve:123"),
        Some((OnboardingAction::Approve, request_id)) if request_id.get() == 123
    ));
    assert!(matches!(
        parse_onboarding_custom_id("onboard:deny:123"),
        Some((OnboardingAction::Deny, request_id)) if request_id.get() == 123
    ));
}

#[test]
fn rejects_invalid_custom_ids() {
    assert!(parse_onboarding_custom_id("onboard:approve:0").is_none());
    assert!(parse_onboarding_custom_id("onboard:deny:-1").is_none());
    assert!(parse_onboarding_custom_id("other:123").is_none());
}

#[test]
fn completion_message_contains_account_and_tailscale_setup() {
    let message = completion_message(
        "Officers",
        "member@example.com",
        "member-42",
        "https://authentik.example.com",
        "https://authentik.example.com/if/flow/sse-recovery-flow/?flow_token=temporary",
        "https://headscale.example.com",
        "https://headscale.example.com",
    );

    assert!(message.contains("Verified email: `member@example.com`"));
    assert!(message.contains("Username: `member-42`"));
    assert!(message.contains("Create your password within 30 minutes"));
    assert!(message.contains("flow_token=temporary"));
    assert!(message.contains("https://tailscale.com/download"));
    assert!(message.contains("tailscale login --login-server https://headscale.example.com"));
    assert!(!message.contains("Additional access:"));
}

#[test]
fn completion_message_names_a_separate_completion_url() {
    let message = completion_message("T", "e@x.com", "u", "https://a", "https://r", "https://h", "https://extra");
    assert!(message.ends_with(
        "3. In the browser, sign in using the verified email above.\n\nAdditional access: https://extra"
    ));
    assert!(message.starts_with("Your SSE onboarding for T is complete.\n\n**Authentik account**\n"));
}

#[test]
fn custom_ids_round_trip() {
    let id = OnboardingRequestId::new(987).unwrap();
    for action in [OnboardingAction::Approve, OnboardingAction::Deny] {
        let text = custom_id(action, id);
        assert_eq!(parse_onboarding_custom_id(&text), Some((action, id)));
    }
    assert_eq!(custom_id(OnboardingAction::Deny, id), "onboard:deny:987");
    assert!(parse_onboarding_custom_id("onboard:approve:12x").is_none());
    assert!(parse_onboarding_custom_id("onboard:approve:onboard:deny:3").is_none());
}

fn request(status: OnboardingStatus, decided_by: Option<u64>, last_error: Option<&str>) -> OnboardingRequest {
    OnboardingRequest::from_persisted(
        OnboardingRequestId::new(7).unwrap(),
        42,
        9,
        EmailAddress::parse("member@example.com").unwrap(),
        DisplayName::parse("Ada").unwrap(),
        "headscale".to_string(),
        "Headscale".to_string(),
        0,
        0,
        status,
        decided_by,
        None,
        None,
        None,
        2,
        None,
        None,
        last_error.map(|e| e.to_string()),
        None,
    )
}

#[test]
fn status_content_lists_every_field() {
    let content = request_status_content(&request(OnboardingStatus::Failed, Some(11), Some("boom")));
    assert_eq!(
        content,
        "Status: `failed`\nTarget: Headscale\nUser: <@42>\nPreferred name: `Ada`\nRequested by: <@9>\nVerified email: `member@example.com`\nRequest ID: `7`\nProvisioning attempts: 2\nDecision by: <@11>\nLast error: `boom`"
    );
    let review = review_message_content(&request(OnboardingStatus::Pending, None, None));
    assert!(review.starts_with("**Infrastructure onboarding request**\nStatus: `pending`"));
    assert!(review.ends_with("Provisioning attempts: 2"));
}

#[test]
fn only_pending_requests_get_review_buttons() {
    let (approve, deny) = review_buttons(&request(OnboardingStatus::Pending, None, None)).unwrap();
    assert_eq!(approve, "onboard:approve:7");
    assert_eq!(deny, "onboard:deny:7");
    assert!(review_buttons(&request(OnboardingStatus::Approved, Some(1), None)).is_none());
}

#[test]
fn targets_are_found_by_trimmed_key_ignoring_case() {
    let targets = parse_onboarding_targets("headscale|Headscale|g|10;platform|Platform|p|20,30").unwrap();
    assert_eq!(find_target(&targets, "  PLATFORM ").unwrap().label, "Platform");
    assert!(find_target(&targets, "other").is_none());
    assert!(can_approve_target(&vec![1, 30], &targets[1]));
    assert!(!can_approve_target(&vec![10], &targets[1]));
    assert_eq!(available_targets_for_member(&targets, &vec![10, 20]), "`headscale`, `platform`");
    assert_eq!(available_targets_for_member(&targets, &vec![]), "none");
}

#[test]
fn requester_checks_name_the_problem() {
    let targets = parse_onboarding_targets("headscale|Headscale|g|10;platform|Platform|p|20").unwrap();
    assert_eq!(check_requester(&targets, "platform", &vec![20]), Ok(1));
    assert_eq!(
        check_requester(&targets, "nope", &vec![20]).unwrap_err(),
        "I do not recognize that onboarding target. Available targets: `platform`"
    );
    assert_eq!(
        check_requester(&targets, "headscale", &vec![20]).unwrap_err(),
        "You do not have the Discord role needed to onboard users into Headscale."
    );
    assert_eq!(check_member("ada", &vec![5, 6], 6), None);
    assert_eq!(
        check_member("ada", &vec![5], 6).unwrap(),
        "ada must complete Discord email verification before onboarding."
    );
    assert_eq!(
        check_identity("ada", None).unwrap(),
        "ada has the verified role but no persisted identity. Ask them to verify again."
    );
    assert_eq!(
        check_reviewer(&targets, "gone", &vec![20]).unwrap_err(),
        "That onboarding target is no longer configured."
    );
    assert_eq!(
        check_reviewer(&targets, "headscale", &vec![20]).unwrap_err(),
        "You do not have permission to handle this onboarding target."
    );
}

#[test]
fn outcome_messages_name_the_request() {
    let id = OnboardingRequestId::new(5).unwrap();
    assert_eq!(
        ProvisioningOutcome::Completed(id).message(),
        "Onboarding request `5` completed successfully."
    );
    assert_eq!(
        ProvisioningOutcome::Unavailable(OnboardingStatus::Denied).message(),
        "That onboarding request cannot be provisioned while it is `denied`."
    );
    assert_eq!(
        ProvisioningOutcome::Missing.message(),
        "That onboarding request does not exist."
    );
    assert!(ProvisioningOutcome::Failed(id)
        .message()
        .contains("retry it with `/onboarding_retry`"));
}

#[test]
fn provisioning_errors_join_their_causes() {
    assert_eq!(
        safe_provisioning_error(&vec![
            "failed to query Authentik users".to_string(),
            "connection refused".to_string()
        ]),
        "failed to query Authentik users: connection refused"
    );
    assert_eq!(safe_provisioning_error(&vec![]), "");
}

#[test]
fn replies_follow_the_request_status() {
    assert_eq!(
        request_ready_message("ada", &request(OnboardingStatus::Completed, None, None)),
        "ada already has completed onboarding for Headscale (request `7`)."
    );
    assert_eq!(
        request_ready_message("ada", &request(OnboardingStatus::Approved, None, None)),
        "ada's onboarding request `7` is waiting for approval."
    );
    assert_eq!(
        already_handled_message(OnboardingStatus::Denied),
        "That request is already `denied`."
    );
    assert_eq!(
        denial_message("Headscale"),
        "Your SSE onboarding request for Headscale was denied. Please contact an officer if you need clarification."
    );
}

#[test]
fn status_listings_are_formatted() {
    assert_eq!(
        audit_line(1700000000, "onboarding.approved", "approved", Some(11)),
        "- <t:1700000000:R> `onboarding.approved` → `approved` by <@11>"
    );
    assert_eq!(
        audit_line(1, "onboarding.provisioning_failed", "failed", None),
        "- <t:1:R> `onboarding.provisioning_failed` → `failed` by system"
    );
    let report = status_report(&request(OnboardingStatus::Pending, None, None), &vec![]);
    assert!(report.ends_with("\n\n**Recent audit events**\nNone"));

    let targets = parse_onboarding_targets("headscale|Headscale|g|10").unwrap();
    let requests = vec![request(OnboardingStatus::Pending, None, None)];
    assert_eq!(
        recent_requests_report(&targets, &vec![10], &requests),
        "**Recent onboarding requests**\n- `7` • Headscale • <@42> • `pending`"
    );
    assert_eq!(
        recent_requests_report(&targets, &vec![99], &requests),
        "No onboarding requests are visible to your configured roles."
    );
}

#[test]
fn suggestions_match_key_or_label() {
    let targets =
        parse_onboarding_targets("headscale|Headscale|g|10;platform|Platform Team|p|10;ops|Ops|o|20").unwrap();
    let all = autocomplete_targets(&targets, &vec![10], "  ");
    assert_eq!(
        all,
        vec![
            ("Headscale (headscale)".to_string(), "headscale".to_string()),
            ("Platform Team (platform)".to_string(), "platform".to_string()),
        ]
    );
    let some = autocomplete_targets(&targets, &vec![10, 20], "TEAM");
    assert_eq!(some, vec![("Platform Team (platform)".to_string(), "platform".to_string())]);
}

#[test]
fn dependency_report_lists_each_check() {
    let report = dependency_report(
        &None,
        &vec![
            GroupCheck { label: "Headscale".to_string(), error: None },
            GroupCheck { label: "Ops".to_string(), error: Some("status 404".to_string()) },
        ],
    );
    assert_eq!(
        report,
        "**Onboarding dependency check**\n- Authentik service account: ready\n- Headscale group: ready\n- Ops group: failed (`status 404`)"
    );
}
