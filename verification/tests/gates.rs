use sse_discord_bot::config::targets::parse_onboarding_targets;
use sse_discord_bot::domain::onboarding::{
    DecisionResult, OnboardingRequest, OnboardingRequestId, OnboardingStatus,
};
use sse_discord_bot::domain::verification::{DisplayName, EmailAddress, VerifiedIdentity};
use sse_discord_bot::gates::{
    approval_step, check_step, onboard_step, retry_step, review_step, status_step, verify_step,
    ApprovalStep, CheckStep, OnboardStep, RequestStep, ReviewStep, VerifyStep,
};

fn request() -> OnboardingRequest {
    OnboardingRequest::from_persisted(
        OnboardingRequestId::new(3).unwrap(),
        42,
        9,
        EmailAddress::parse("member@example.com").unwrap(),
        DisplayName::parse("Ada").unwrap(),
        "headscale".to_string(),
        "Headscale".to_string(),
        0,
        0,
        OnboardingStatus::Pending,
        None,
        None,
        None,
        None,
        0,
        None,
        None,
        None,
        None,
    )
}

fn identity(confirmed: bool) -> VerifiedIdentity {
    VerifiedIdentity::from_persisted(
        42,
        EmailAddress::parse("member@example.com").unwrap(),
        DisplayName::parse("Ada").unwrap(),
        confirmed,
        0,
    )
}

fn reply_of_onboard(step: OnboardStep) -> String {
    match step {
        OnboardStep::Reply(reply) => reply,
        other => panic!("expected a reply, got {other:?}"),
    }
}

#[test]
fn onboard_checks_apply_in_order() {
    let targets = parse_onboarding_targets("headscale|Headscale|g|10").unwrap();
    let officer = vec![10];
    let member = vec![1];
    let id = identity(true);

    assert_eq!(
        reply_of_onboard(onboard_step(false, None, None, "headscale", None, "ada", None, None)),
        "Onboarding only works inside a server."
    );
    assert!(matches!(
        onboard_step(true, None, Some(1), "headscale", None, "ada", None, None),
        OnboardStep::OnboardingDisabled
    ));
    assert!(matches!(
        onboard_step(true, Some(&targets), None, "headscale", None, "ada", None, None),
        OnboardStep::VerificationDisabled
    ));
    assert!(matches!(
        onboard_step(true, Some(&targets), Some(1), "headscale", None, "ada", None, None),
        OnboardStep::FetchRequesterRoles
    ));
    // An officer without the target's role is refused before the member is looked at.
    assert_eq!(
        reply_of_onboard(onboard_step(true, Some(&targets), Some(1), "headscale", Some(&vec![5]), "ada", Some(&vec![]), None)),
        "You do not have the Discord role needed to onboard users into Headscale."
    );
    assert!(matches!(
        onboard_step(true, Some(&targets), Some(1), "headscale", Some(&officer), "ada", None, None),
        OnboardStep::FetchMemberRoles
    ));
    assert_eq!(
        reply_of_onboard(onboard_step(true, Some(&targets), Some(1), "headscale", Some(&officer), "ada", Some(&vec![]), Some(Some(&id)))),
        "ada must complete Discord email verification before onboarding."
    );
    assert!(matches!(
        onboard_step(true, Some(&targets), Some(1), "headscale", Some(&officer), "ada", Some(&member), None),
        OnboardStep::LoadIdentity
    ));
    assert_eq!(
        reply_of_onboard(onboard_step(true, Some(&targets), Some(1), "headscale", Some(&officer), "ada", Some(&member), Some(None))),
        "ada has the verified role but no persisted identity. Ask them to verify again."
    );
    assert!(matches!(
        onboard_step(true, Some(&targets), Some(1), "HEADSCALE", Some(&officer), "ada", Some(&member), Some(Some(&id))),
        OnboardStep::Start(0)
    ));
}

#[test]
fn status_and_retry_checks_apply_in_order() {
    let targets = parse_onboarding_targets("headscale|Headscale|g|10").unwrap();
    let officer = vec![10];
    let q = request();

    assert!(matches!(status_step(false, None, None, Some(0), None),
        RequestStep::Reply(r) if r == "Onboarding status only works inside a server."));
    assert!(matches!(status_step(true, None, None, Some(0), None), RequestStep::OnboardingDisabled));
    assert!(matches!(status_step(true, Some(&targets), None, Some(0), None), RequestStep::FetchRoles));
    assert!(matches!(status_step(true, Some(&targets), Some(&officer), None, None), RequestStep::ListRecent));
    assert!(matches!(status_step(true, Some(&targets), Some(&officer), Some(0), None),
        RequestStep::Reply(r) if r == "Request IDs must be positive numbers."));
    assert!(matches!(status_step(true, Some(&targets), Some(&officer), Some(3), None),
        RequestStep::LoadRequest(id) if id.get() == 3));
    assert!(matches!(status_step(true, Some(&targets), Some(&officer), Some(3), Some(None)),
        RequestStep::Reply(r) if r == "That onboarding request does not exist."));
    assert!(matches!(status_step(true, Some(&targets), Some(&vec![]), Some(3), Some(Some(&q))),
        RequestStep::Reply(r) if r == "You do not have permission to inspect that request."));
    assert!(matches!(status_step(true, Some(&targets), Some(&officer), Some(3), Some(Some(&q))), RequestStep::Proceed));

    // The retry command checks the identifier before anything else in the server.
    assert!(matches!(retry_step(true, -1, None, None, None),
        RequestStep::Reply(r) if r == "Request IDs must be positive numbers."));
    assert!(matches!(retry_step(true, 3, Some(&targets), Some(&vec![]), Some(Some(&q))),
        RequestStep::Reply(r) if r == "You do not have permission to retry that request."));
    let other = parse_onboarding_targets("platform|Platform|p|10").unwrap();
    assert!(matches!(retry_step(true, 3, Some(&other), Some(&officer), Some(Some(&q))),
        RequestStep::Reply(r) if r == "That request's target is no longer configured."));
    assert!(matches!(retry_step(true, 3, Some(&targets), Some(&officer), Some(Some(&q))), RequestStep::Proceed));
}

#[test]
fn dependency_checks_cover_the_targets_an_officer_manages() {
    let targets = parse_onboarding_targets("a|A|g|10;b|B|h|20;c|C|i|10").unwrap();
    assert!(matches!(check_step(false, Some(&targets), None),
        CheckStep::Reply(r) if r == "Onboarding checks only work inside a server."));
    assert!(matches!(check_step(true, Some(&targets), None), CheckStep::FetchRoles));
    assert!(matches!(check_step(true, Some(&targets), Some(&vec![10])), CheckStep::CheckTargets(v) if v == vec![0, 2]));
    assert!(matches!(check_step(true, Some(&targets), Some(&vec![99])),
        CheckStep::Reply(r) if r == "You do not manage any configured onboarding targets."));
}

#[test]
fn review_buttons_check_the_request_before_the_reviewer() {
    let targets = parse_onboarding_targets("headscale|Headscale|g|10").unwrap();
    let q = request();
    assert!(matches!(review_step(None, None, true, None), ReviewStep::Ignore));
    assert!(matches!(review_step(Some(&targets), None, true, None), ReviewStep::LoadRequest));
    assert!(matches!(review_step(Some(&targets), Some(None), false, None),
        ReviewStep::Reply(r) if r == "That onboarding request does not exist."));
    assert!(matches!(review_step(Some(&targets), Some(Some(&q)), false, None),
        ReviewStep::Reply(r) if r == "Onboarding decisions only work inside the configured server."));
    assert!(matches!(review_step(Some(&targets), Some(Some(&q)), true, None), ReviewStep::FetchActorRoles));
    assert!(matches!(review_step(Some(&targets), Some(Some(&q)), true, Some(&vec![1])),
        ReviewStep::Reply(r) if r == "You do not have permission to handle this onboarding target."));
    assert!(matches!(review_step(Some(&targets), Some(Some(&q)), true, Some(&vec![10])), ReviewStep::Decide));
}

#[test]
fn approval_requires_a_still_eligible_member() {
    let q = request();
    let id = identity(true);
    let roles = vec![1];
    assert!(matches!(approval_step(None, None, None, &q), ApprovalStep::VerificationDisabled));
    assert!(matches!(approval_step(Some(1), None, None, &q), ApprovalStep::FetchMemberRoles));
    assert!(matches!(approval_step(Some(1), Some(Some(&roles)), None, &q), ApprovalStep::LoadIdentity));
    // Without the verified role the identity is not looked up.
    assert!(matches!(approval_step(Some(1), Some(Some(&vec![])), None, &q), ApprovalStep::Reply(_)));
    assert!(matches!(approval_step(Some(1), Some(None), None, &q), ApprovalStep::Reply(_)));
    assert!(matches!(approval_step(Some(1), Some(Some(&roles)), Some(Some(&identity(false))), &q),
        ApprovalStep::Reply(r) if r.starts_with("The target user is no longer eligible for onboarding.")));
    assert!(matches!(approval_step(Some(1), Some(Some(&roles)), Some(Some(&id)), &q), ApprovalStep::Approve));
    let approved = match q.decide(OnboardingStatus::Approved, 11, 1) {
        DecisionResult::Updated(request) => request,
        _ => unreachable!(),
    };
    assert_eq!(approved.status(), OnboardingStatus::Approved);
}

#[test]
fn verification_checks_apply_in_order() {
    let domains = vec!["rit.edu".to_string()];
    assert!(matches!(verify_step(false, None, None, None, "Ada"),
        VerifyStep::Reply(r) if r == "Verification only works inside a server."));
    assert!(matches!(verify_step(true, None, None, None, "Ada"), VerifyStep::VerificationDisabled));
    assert!(matches!(verify_step(true, Some(&domains), None, None, "Ada"), VerifyStep::LoadIdentity));
    assert!(matches!(verify_step(true, Some(&domains), Some(true), Some("bad"), "Ada"), VerifyStep::AlreadyVerified));
    assert!(matches!(verify_step(true, Some(&domains), Some(false), None, "Ada"),
        VerifyStep::Reply(r) if r == "The email form was incomplete. Please try again."));
    assert!(matches!(verify_step(true, Some(&domains), Some(false), Some("ada@example.com"), ""),
        VerifyStep::Reply(r) if r == "Verification requires an email address from: @rit.edu"));
    assert!(matches!(verify_step(true, Some(&domains), Some(false), Some("ada@rit.edu"), "   "),
        VerifyStep::Reply(r) if r == "Preferred name cannot be empty"));
    assert!(matches!(verify_step(true, Some(&domains), Some(false), Some(" ADA@RIT.EDU "), " Ada "),
        VerifyStep::Start(e, n) if e.to_string() == "ADA@rit.edu" && n.as_str() == "Ada"));
}
