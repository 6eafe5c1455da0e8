use sse_discord_bot::config::targets::parse_onboarding_targets;
use sse_discord_bot::domain::onboarding::{
    ClaimProvisioningResult, DecisionResult, OnboardingRequest, OnboardingRequestId,
    OnboardingStatus,
};
use sse_discord_bot::domain::verification::{DisplayName, EmailAddress, VerifiedIdentity};
use sse_discord_bot::onboard::ProvisioningOutcome;
use sse_discord_bot::provisioning::{
    ProvisioningAction, ProvisioningContext, ProvisioningEvent, ProvisioningFlow, Stage,
};

fn context() -> ProvisioningContext {
    ProvisioningContext {
        targets: parse_onboarding_targets("headscale|Headscale|group-uuid|10").unwrap(),
        verified_role_id: 1,
        headscale_login_url: "https://headscale.example.com".to_string(),
        authentik_login_url: "https://authentik.example.com".to_string(),
    }
}

fn approved() -> OnboardingRequest {
    let pending = OnboardingRequest::from_persisted(
        OnboardingRequestId::new(3).unwrap(),
        42,
        9,
        EmailAddress::parse("member@example.com").unwrap(),
        DisplayName::parse("Ada").unwrap(),
        "headscale".to_string(),
        "Headscale".to_string(),
        0,
        0,
        OnboardingStatus::Pending,
        None,
        None,
        None,
        None,
        0,
        None,
        None,
        None,
        None,
    );
    match pending.decide(OnboardingStatus::Approved, 11, 1) {
        DecisionResult::Updated(request) => request,
        _ => unreachable!(),
    }
}

fn identity() -> VerifiedIdentity {
    VerifiedIdentity::from_persisted(
        42,
        EmailAddress::parse("member@example.com").unwrap(),
        DisplayName::parse("Ada").unwrap(),
        true,
        0,
    )
}

#[test]
fn a_successful_run_completes_the_request() {
    let id = OnboardingRequestId::new(3).unwrap();
    let (flow, action) = ProvisioningFlow::start(id, 11, context());
    assert!(matches!(action, ProvisioningAction::LoadRequest(i) if i == id));
    let (flow, action) = flow.step(ProvisioningEvent::RequestLoaded(Some(approved())));
    assert!(matches!(action, ProvisioningAction::FetchActorRoles(11)));
    let (flow, action) = flow.step(ProvisioningEvent::ActorRoles(Some(vec![10])));
    assert!(matches!(action, ProvisioningAction::FetchMemberRoles(42)));
    let (flow, action) = flow.step(ProvisioningEvent::MemberRoles(Some(vec![1])));
    assert!(matches!(action, ProvisioningAction::LoadIdentity(42)));
    let (flow, action) = flow.step(ProvisioningEvent::IdentityLoaded(Some(identity())));
    assert!(matches!(action, ProvisioningAction::Claim(i, 11) if i == id));
    let claimed = match approved().claim_provisioning(2).unwrap() {
        ClaimProvisioningResult::Claimed(request) => request,
        _ => unreachable!(),
    };
    let (flow, action) = flow.step(ProvisioningEvent::ClaimResult(ClaimProvisioningResult::Claimed(claimed)));
    assert!(matches!(action, ProvisioningAction::SyncReview));
    let (flow, action) = flow.step(ProvisioningEvent::ReviewSynced);
    match &action {
        ProvisioningAction::Provision { group_uuid } => assert_eq!(group_uuid, "group-uuid"),
        other => panic!("unexpected {other:?}"),
    }
    let (flow, action) = flow.step(
        ProvisioningEvent::Provisioned(Ok((
            "member-42".to_string(),
            77,
            "https://authentik.example.com/recover".to_string(),
        ))),
    );
    match &action {
        ProvisioningAction::SendCompletion { user_id, message } => {
            assert_eq!(*user_id, 42);
            assert!(message.contains("Username: `member-42`"));
            assert!(message.contains("<https://authentik.example.com/recover>"));
            assert!(!message.contains("Additional access"));
        }
        other => panic!("unexpected {other:?}"),
    }
    let (flow, action) = flow.step(ProvisioningEvent::CompletionSent(true));
    let marked = match action {
        ProvisioningAction::MarkCompleted { id: i, authentik_user_id, attempt } => {
            assert_eq!(i, id);
            assert_eq!(authentik_user_id, 77);
            assert_eq!(attempt, 1);
            flow.request().unwrap().clone()
        }
        other => panic!("unexpected {other:?}"),
    };
    let completed = marked.mark_completed(77, 1, 3).unwrap();
    let (flow, action) = flow.step(ProvisioningEvent::Marked(completed));
    assert!(matches!(action, ProvisioningAction::SyncReview));
    let (flow, action) = flow.step(ProvisioningEvent::ReviewSynced);
    assert_eq!(flow.stage(), Stage::Finished);
    assert!(matches!(action, ProvisioningAction::Finish(ProvisioningOutcome::Completed(i)) if i == id));
}

#[test]
fn officers_without_an_approver_role_are_refused() {
    let (flow, _) = ProvisioningFlow::start(OnboardingRequestId::new(3).unwrap(), 11, context());
    let (flow, _) = flow.step(ProvisioningEvent::RequestLoaded(Some(approved())));
    let (_, action) = flow.step(ProvisioningEvent::ActorRoles(Some(vec![99])));
    assert!(matches!(action, ProvisioningAction::Finish(ProvisioningOutcome::Unauthorized)));
}

#[test]
fn members_whose_identity_changed_are_ineligible() {
    let (flow, _) = ProvisioningFlow::start(OnboardingRequestId::new(3).unwrap(), 11, context());
    let (flow, _) = flow.step(ProvisioningEvent::RequestLoaded(Some(approved())));
    let (flow, _) = flow.step(ProvisioningEvent::ActorRoles(Some(vec![10])));
    let (flow, _) = flow.step(ProvisioningEvent::MemberRoles(Some(vec![1])));
    let other = VerifiedIdentity::from_persisted(
        42,
        EmailAddress::parse("other@example.com").unwrap(),
        DisplayName::parse("Ada").unwrap(),
        true,
        0,
    );
    let (_, action) = flow.step(ProvisioningEvent::IdentityLoaded(Some(other)));
    assert!(matches!(action, ProvisioningAction::Finish(ProvisioningOutcome::Ineligible)));
}

#[test]
fn provisioning_errors_are_recorded_with_their_causes() {
    let id = OnboardingRequestId::new(3).unwrap();
    let (flow, _) = ProvisioningFlow::start(id, 11, context());
    let (flow, _) = flow.step(ProvisioningEvent::RequestLoaded(Some(approved())));
    let (flow, _) = flow.step(ProvisioningEvent::ActorRoles(Some(vec![10])));
    let (flow, _) = flow.step(ProvisioningEvent::MemberRoles(Some(vec![1])));
    let (flow, _) = flow.step(ProvisioningEvent::IdentityLoaded(Some(identity())));
    let claimed = match approved().claim_provisioning(2).unwrap() {
        ClaimProvisioningResult::Claimed(request) => request,
        _ => unreachable!(),
    };
    let (flow, _) = flow.step(ProvisioningEvent::ClaimResult(ClaimProvisioningResult::Claimed(claimed)));
    let (flow, _) = flow.step(ProvisioningEvent::ReviewSynced);
    let (_, action) = flow.step(
        ProvisioningEvent::Provisioned(Err(vec![
            "failed to add Authentik user to Headscale group".to_string(),
            "status 500".to_string(),
        ])),
    );
    match action {
        ProvisioningAction::MarkFailed { id: i, error, attempt } => {
            assert_eq!(i, id);
            assert_eq!(error, "failed to add Authentik user to Headscale group: status 500");
            assert_eq!(attempt, 1);
        }
        other => panic!("unexpected {other:?}"),
    }
}

#[test]
fn unavailable_requests_report_their_status() {
    let (flow, _) = ProvisioningFlow::start(OnboardingRequestId::new(3).unwrap(), 11, context());
    let (flow, _) = flow.step(ProvisioningEvent::RequestLoaded(Some(approved())));
    let (flow, _) = flow.step(ProvisioningEvent::ActorRoles(Some(vec![10])));
    let (flow, _) = flow.step(ProvisioningEvent::MemberRoles(Some(vec![1])));
    let (flow, _) = flow.step(ProvisioningEvent::IdentityLoaded(Some(identity())));
    let (_, action) = flow.step(ProvisioningEvent::ClaimResult(ClaimProvisioningResult::Unavailable(approved())));
    assert!(matches!(
        action,
        ProvisioningAction::Finish(ProvisioningOutcome::Unavailable(OnboardingStatus::Approved))
    ));
}
