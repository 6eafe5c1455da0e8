//! The order in which each command's checks apply. Each command gathers what
//! it knows (whether it runs in a server, which modules are enabled, roles,
//! stored records) and asks its step function what comes next: fetch one
//! more thing, refuse with a reply, or go ahead. Where several refusals
//! apply, the first in the step's order wins.
use vstd::prelude::*;
use crate::config::targets::{OnboardingTargetConfig, TargetView, target_views};
use crate::domain::onboarding::{OnboardingRequest, OnboardingRequestId, RequestView};
use crate::domain::verification::{
    DisplayName, EmailAddress, IdentityView, VerifiedIdentity, display_name_result, identity_error_text,
};
use crate::text::texts;
use crate::verify::{authorized_email_result, parse_authorized_email};
use crate::onboard::{
    RequestAccess, approves, can_approve_target, check_identity, check_member, check_requester,
    check_reviewer, find_target_index, identity_check, member_check, request_access,
    requester_check, reviewer_check, still_eligible, target_position, target_remains_eligible,
};

verus! {

// ---------------------------------------------------------------------------
// What a command knows so far
// ---------------------------------------------------------------------------

/// Roles, when they were fetched.
pub open spec fn roles_known(roles: Option<&Vec<u64>>) -> Option<Seq<u64>> {
    match roles {
        Some(r) => Some(r@),
        None => None,
    }
}

/// The configured targets, when the onboarding module is enabled.
pub open spec fn targets_known(targets: Option<&Vec<OnboardingTargetConfig>>) -> Option<Seq<TargetView>> {
    match targets {
        Some(t) => Some(target_views(t@)),
        None => None,
    }
}

/// A stored identity, when the lookup was made: the outer `None` means not
/// looked up yet, the inner `None` that there is none.
pub open spec fn identity_known(identity: Option<Option<&VerifiedIdentity>>) -> Option<Option<IdentityView>> {
    match identity {
        Some(Some(i)) => Some(Some(i@)),
        Some(None) => Some(None),
        None => None,
    }
}

/// A stored request, when the lookup was made, as `identity_known`.
pub open spec fn request_known(request: Option<Option<&OnboardingRequest>>) -> Option<Option<RequestView>> {
    match request {
        Some(Some(r)) => Some(Some(r@)),
        Some(None) => Some(None),
        None => None,
    }
}

// ---------------------------------------------------------------------------
// /onboard
// ---------------------------------------------------------------------------

/// What `/onboard` does next.
#[derive(Debug)]
pub enum OnboardStep {
    /// Refuse with this reply.
    Reply(String),
    /// The onboarding module is disabled.
    OnboardingDisabled,
    /// The verification module is disabled.
    VerificationDisabled,
    /// Fetch the roles of the officer who ran the command.
    FetchRequesterRoles,
    /// Fetch the roles of the member to onboard.
    FetchMemberRoles,
    /// Look up the member's stored identity.
    LoadIdentity,
    /// Start (or reuse) the request for the target at this position, with
    /// the member's stored identity.
    Start(usize),
}

pub enum OnboardStepView {
    Reply(Seq<char>),
    OnboardingDisabled,
    VerificationDisabled,
    FetchRequesterRoles,
    FetchMemberRoles,
    LoadIdentity,
    Start(int),
}

impl View for OnboardStep {
    type V = OnboardStepView;

    open spec fn view(&self) -> OnboardStepView {
        match self {
            OnboardStep::Reply(s) => OnboardStepView::Reply(s@),
            OnboardStep::OnboardingDisabled => OnboardStepView::OnboardingDisabled,
            OnboardStep::VerificationDisabled => OnboardStepView::VerificationDisabled,
            OnboardStep::FetchRequesterRoles => OnboardStepView::FetchRequesterRoles,
            OnboardStep::FetchMemberRoles => OnboardStepView::FetchMemberRoles,
            OnboardStep::LoadIdentity => OnboardStepView::LoadIdentity,
            OnboardStep::Start(i) => OnboardStepView::Start(*i as int),
        }
    }
}

/// The order of `/onboard`'s checks: in a server; both modules enabled; the
/// officer may onboard into the target; the member holds the verified role;
/// the member's stored identity has a confirmed preferred name.
pub open spec fn onboard_gate(
    in_guild: bool,
    targets: Option<Seq<TargetView>>,
    verified_role_id: Option<u64>,
    target_input: Seq<char>,
    requester_roles: Option<Seq<u64>>,
    user_name: Seq<char>,
    member_roles: Option<Seq<u64>>,
    identity: Option<Option<IdentityView>>,
) -> OnboardStepView {
    if !in_guild {
        OnboardStepView::Reply("Onboarding only works inside a server."@)
    } else if targets is None {
        OnboardStepView::OnboardingDisabled
    } else if verified_role_id is None {
        OnboardStepView::VerificationDisabled
    } else if requester_roles is None {
        OnboardStepView::FetchRequesterRoles
    } else {
        match requester_check(targets->0, target_input, requester_roles->0) {
            Err(m) => OnboardStepView::Reply(m),
            Ok(t) => if member_roles is None {
                OnboardStepView::FetchMemberRoles
            } else {
                match member_check(user_name, member_roles->0, verified_role_id->0) {
                    Some(m) => OnboardStepView::Reply(m),
                    None => if identity is None {
                        OnboardStepView::LoadIdentity
                    } else {
                        match identity_check(user_name, identity->0) {
                            Some(m) => OnboardStepView::Reply(m),
                            None => OnboardStepView::Start(t),
                        }
                    },
                }
            },
        }
    }
}

pub fn onboard_step(
    in_guild: bool,
    targets: Option<&Vec<OnboardingTargetConfig>>,
    verified_role_id: Option<u64>,
    target_input: &str,
    requester_roles: Option<&Vec<u64>>,
    user_name: &str,
    member_roles: Option<&Vec<u64>>,
    identity: Option<Option<&VerifiedIdentity>>,
) -> (r: OnboardStep)
    ensures
        r@ == onboard_gate(
            in_guild,
            targets_known(targets),
            verified_role_id,
            target_input@,
            roles_known(requester_roles),
            user_name@,
            roles_known(member_roles),
            identity_known(identity),
        ),
{
    if !in_guild {
        return OnboardStep::Reply(String::from_str("Onboarding only works inside a server."));
    }
    let targets = match targets {
        Some(t) => t,
        None => return OnboardStep::OnboardingDisabled,
    };
    let verified_role_id = match verified_role_id {
        Some(v) => v,
        None => return OnboardStep::VerificationDisabled,
    };
    let requester_roles = match requester_roles {
        Some(r) => r,
        None => return OnboardStep::FetchRequesterRoles,
    };
    let target = match check_requester(targets, target_input, requester_roles) {
        Ok(t) => t,
        Err(m) => return OnboardStep::Reply(m),
    };
    let member_roles = match member_roles {
        Some(r) => r,
        None => return OnboardStep::FetchMemberRoles,
    };
    match check_member(user_name, member_roles, verified_role_id) {
        Some(m) => return OnboardStep::Reply(m),
        None => {},
    }
    let identity = match identity {
        Some(i) => i,
        None => return OnboardStep::LoadIdentity,
    };
    match check_identity(user_name, identity) {
        Some(m) => OnboardStep::Reply(m),
        None => OnboardStep::Start(target),
    }
}


// ---------------------------------------------------------------------------
// /onboarding-status and /onboarding-retry
// ---------------------------------------------------------------------------

/// What a command about one stored request (or the recent ones) does next.
#[derive(Debug)]
pub enum RequestStep {
    /// Refuse with this reply.
    Reply(String),
    /// The onboarding module is disabled.
    OnboardingDisabled,
    /// Fetch the roles of the officer who ran the command.
    FetchRoles,
    /// Look up the request with this identifier.
    LoadRequest(OnboardingRequestId),
    /// Go ahead with the request that was looked up.
    Proceed,
    /// List the recent requests.
    ListRecent,
}

pub enum RequestStepView {
    Reply(Seq<char>),
    OnboardingDisabled,
    FetchRoles,
    LoadRequest(i64),
    Proceed,
    ListRecent,
}

impl View for RequestStep {
    type V = RequestStepView;

    open spec fn view(&self) -> RequestStepView {
        match self {
            RequestStep::Reply(s) => RequestStepView::Reply(s@),
            RequestStep::OnboardingDisabled => RequestStepView::OnboardingDisabled,
            RequestStep::FetchRoles => RequestStepView::FetchRoles,
            RequestStep::LoadRequest(id) => RequestStepView::LoadRequest(id@),
            RequestStep::Proceed => RequestStepView::Proceed,
            RequestStep::ListRecent => RequestStepView::ListRecent,
        }
    }
}

/// Whether the officer may act on a looked-up request: it must exist, its
/// target must still be configured, and the officer must hold one of its
/// approver roles. `verb` names the act in the refusal.
pub open spec fn request_gate(
    targets: Seq<TargetView>,
    roles: Seq<u64>,
    request: Option<RequestView>,
    verb: Seq<char>,
) -> RequestStepView {
    match request {
        None => RequestStepView::Reply("That onboarding request does not exist."@),
        Some(q) => match target_position(targets, q.target_key) {
            None => RequestStepView::Reply("That request's target is no longer configured."@),
            Some(i) => if approves(roles, targets[i].approver_role_ids) {
                RequestStepView::Proceed
            } else {
                RequestStepView::Reply("You do not have permission to "@ + verb + " that request."@)
            },
        },
    }
}

/// The order of `/onboarding-status`'s checks: in a server; the module
/// enabled; the officer's roles; then, for one request, a positive
/// identifier and `request_gate`; without one, the recent requests.
pub open spec fn status_gate(
    in_guild: bool,
    targets: Option<Seq<TargetView>>,
    roles: Option<Seq<u64>>,
    request_id: Option<i64>,
    request: Option<Option<RequestView>>,
) -> RequestStepView {
    if !in_guild {
        RequestStepView::Reply("Onboarding status only works inside a server."@)
    } else if targets is None {
        RequestStepView::OnboardingDisabled
    } else if roles is None {
        RequestStepView::FetchRoles
    } else {
        match request_id {
            None => RequestStepView::ListRecent,
            Some(raw) => if raw <= 0 {
                RequestStepView::Reply("Request IDs must be positive numbers."@)
            } else if request is None {
                RequestStepView::LoadRequest(raw)
            } else {
                request_gate(targets->0, roles->0, request->0, "inspect"@)
            },
        }
    }
}

/// The order of `/onboarding-retry`'s checks: in a server; a positive
/// identifier; the module enabled; the officer's roles; `request_gate`.
pub open spec fn retry_gate(
    in_guild: bool,
    request_id: i64,
    targets: Option<Seq<TargetView>>,
    roles: Option<Seq<u64>>,
    request: Option<Option<RequestView>>,
) -> RequestStepView {
    if !in_guild {
        RequestStepView::Reply("Onboarding retry only works inside a server."@)
    } else if request_id <= 0 {
        RequestStepView::Reply("Request IDs must be positive numbers."@)
    } else if targets is None {
        RequestStepView::OnboardingDisabled
    } else if roles is None {
        RequestStepView::FetchRoles
    } else if request is None {
        RequestStepView::LoadRequest(request_id)
    } else {
        request_gate(targets->0, roles->0, request->0, "retry"@)
    }
}

/// A target's position lies within the configured targets.
proof fn lemma_position_in_range(targets: Seq<TargetView>, key: Seq<char>)
    ensures
        target_position(targets, key) matches Some(i) ==> 0 <= i < targets.len(),
    decreases targets.len(),
{
    if targets.len() > 0 {
        lemma_position_in_range(targets.drop_last(), key);
    }
}

fn request_step(
    targets: &Vec<OnboardingTargetConfig>,
    roles: &Vec<u64>,
    request: Option<&OnboardingRequest>,
    inspect: bool,
) -> (r: RequestStep)
    ensures
        r@ == request_gate(
            target_views(targets@),
            roles@,
            match request {
                Some(q) => Some(q@),
                None => None,
            },
            if inspect { "inspect"@ } else { "retry"@ },
        ),
{
    let request = match request {
        Some(q) => q,
        None => return RequestStep::Reply(String::from_str("That onboarding request does not exist.")),
    };
    match request_access(targets, request.target_key(), roles) {
        RequestAccess::TargetGone => RequestStep::Reply(
            String::from_str("That request's target is no longer configured."),
        ),
        RequestAccess::Allowed(i) => {
            proof {
                lemma_position_in_range(target_views(targets@), request@.target_key);
            }
            assert(target_views(targets@)[i as int] == targets@[i as int]@);
            RequestStep::Proceed
        },
        RequestAccess::Denied => {
            proof {
                lemma_position_in_range(target_views(targets@), request@.target_key);
                let p = target_position(target_views(targets@), request@.target_key)->0;
                assert(target_views(targets@)[p] == targets@[p]@);
                reveal_strlit("inspect");
                reveal_strlit("retry");
                reveal_strlit("You do not have permission to inspect that request.");
                reveal_strlit("You do not have permission to retry that request.");
                reveal_strlit("You do not have permission to ");
                reveal_strlit(" that request.");
                assert("You do not have permission to "@ + "inspect"@ + " that request."@
                    =~= "You do not have permission to inspect that request."@);
                assert("You do not have permission to "@ + "retry"@ + " that request."@
                    =~= "You do not have permission to retry that request."@);
            }
            if inspect {
                RequestStep::Reply(String::from_str("You do not have permission to inspect that request."))
            } else {
                RequestStep::Reply(String::from_str("You do not have permission to retry that request."))
            }
        },
    }
}

pub fn status_step(
    in_guild: bool,
    targets: Option<&Vec<OnboardingTargetConfig>>,
    roles: Option<&Vec<u64>>,
    request_id: Option<i64>,
    request: Option<Option<&OnboardingRequest>>,
) -> (r: RequestStep)
    ensures
        r@ == status_gate(in_guild, targets_known(targets), roles_known(roles), request_id, request_known(request)),
{
    if !in_guild {
        return RequestStep::Reply(String::from_str("Onboarding status only works inside a server."));
    }
    let targets = match targets {
        Some(t) => t,
        None => return RequestStep::OnboardingDisabled,
    };
    let roles = match roles {
        Some(r) => r,
        None => return RequestStep::FetchRoles,
    };
    let raw = match request_id {
        Some(raw) => raw,
        None => return RequestStep::ListRecent,
    };
    let id = match OnboardingRequestId::new(raw) {
        Some(id) => id,
        None => return RequestStep::Reply(String::from_str("Request IDs must be positive numbers.")),
    };
    match request {
        None => RequestStep::LoadRequest(id),
        Some(q) => request_step(targets, roles, q, true),
    }
}

pub fn retry_step(
    in_guild: bool,
    request_id: i64,
    targets: Option<&Vec<OnboardingTargetConfig>>,
    roles: Option<&Vec<u64>>,
    request: Option<Option<&OnboardingRequest>>,
) -> (r: RequestStep)
    ensures
        r@ == retry_gate(in_guild, request_id, targets_known(targets), roles_known(roles), request_known(request)),
{
    if !in_guild {
        return RequestStep::Reply(String::from_str("Onboarding retry only works inside a server."));
    }
    let id = match OnboardingRequestId::new(request_id) {
        Some(id) => id,
        None => return RequestStep::Reply(String::from_str("Request IDs must be positive numbers.")),
    };
    let targets = match targets {
        Some(t) => t,
        None => return RequestStep::OnboardingDisabled,
    };
    let roles = match roles {
        Some(r) => r,
        None => return RequestStep::FetchRoles,
    };
    match request {
        None => RequestStep::LoadRequest(id),
        Some(q) => request_step(targets, roles, q, false),
    }
}


// ---------------------------------------------------------------------------
// /onboarding-check
// ---------------------------------------------------------------------------

/// The positions of the targets whose approver roles the officer holds, in
/// configured order.
pub open spec fn visible_targets(targets: Seq<TargetView>, roles: Seq<u64>) -> Seq<int>
    decreases targets.len(),
{
    if targets.len() == 0 {
        Seq::empty()
    } else if approves(roles, targets.last().approver_role_ids) {
        visible_targets(targets.drop_last(), roles).push(targets.len() - 1)
    } else {
        visible_targets(targets.drop_last(), roles)
    }
}

/// What `/onboarding-check` does next.
#[derive(Debug)]
pub enum CheckStep {
    /// Refuse with this reply.
    Reply(String),
    /// The onboarding module is disabled.
    OnboardingDisabled,
    /// Fetch the roles of the officer who ran the command.
    FetchRoles,
    /// Check Authentik access for the targets at these positions.
    CheckTargets(Vec<usize>),
}

pub enum CheckStepView {
    Reply(Seq<char>),
    OnboardingDisabled,
    FetchRoles,
    CheckTargets(Seq<int>),
}

impl View for CheckStep {
    type V = CheckStepView;

    open spec fn view(&self) -> CheckStepView {
        match self {
            CheckStep::Reply(s) => CheckStepView::Reply(s@),
            CheckStep::OnboardingDisabled => CheckStepView::OnboardingDisabled,
            CheckStep::FetchRoles => CheckStepView::FetchRoles,
            CheckStep::CheckTargets(v) => CheckStepView::CheckTargets(v@.map_values(|i: usize| i as int)),
        }
    }
}

/// The order of `/onboarding-check`'s checks: in a server; the module
/// enabled; the officer's roles; at least one target they manage.
pub open spec fn check_gate(in_guild: bool, targets: Option<Seq<TargetView>>, roles: Option<Seq<u64>>) -> CheckStepView {
    if !in_guild {
        CheckStepView::Reply("Onboarding checks only work inside a server."@)
    } else if targets is None {
        CheckStepView::OnboardingDisabled
    } else if roles is None {
        CheckStepView::FetchRoles
    } else if visible_targets(targets->0, roles->0).len() == 0 {
        CheckStepView::Reply("You do not manage any configured onboarding targets."@)
    } else {
        CheckStepView::CheckTargets(visible_targets(targets->0, roles->0))
    }
}

pub fn check_step(
    in_guild: bool,
    targets: Option<&Vec<OnboardingTargetConfig>>,
    roles: Option<&Vec<u64>>,
) -> (r: CheckStep)
    ensures
        r@ == check_gate(in_guild, targets_known(targets), roles_known(roles)),
{
    if !in_guild {
        return CheckStep::Reply(String::from_str("Onboarding checks only work inside a server."));
    }
    let targets = match targets {
        Some(t) => t,
        None => return CheckStep::OnboardingDisabled,
    };
    let roles = match roles {
        Some(r) => r,
        None => return CheckStep::FetchRoles,
    };
    let ghost views = target_views(targets@);
    let mut visible: Vec<usize> = Vec::new();
    let mut i: usize = 0;
    while i < targets.len()
        invariant
            i <= targets.len(),
            views == target_views(targets@),
            visible@.map_values(|k: usize| k as int) == visible_targets(views.take(i as int), roles@),
        decreases targets.len() - i,
    {
        let ghost before = visible@;
        assert(views.take(i + 1).drop_last() == views.take(i as int));
        assert(views.take(i + 1).last() == targets@[i as int]@);
        if can_approve_target(roles, &targets[i]) {
            visible.push(i);
            assert(visible@ == before.push(i));
            assert(visible@.map_values(|k: usize| k as int) =~= before.map_values(|k: usize| k as int).push(i as int));
        }
        i = i + 1;
    }
    assert(views.take(targets.len() as int) == views);
    if visible.len() == 0 {
        CheckStep::Reply(String::from_str("You do not manage any configured onboarding targets."))
    } else {
        CheckStep::CheckTargets(visible)
    }
}


// ---------------------------------------------------------------------------
// Review buttons
// ---------------------------------------------------------------------------

/// What a review button does next, once its custom ID was recognized.
#[derive(Debug)]
pub enum ReviewStep {
    /// The onboarding module is disabled: the press is ignored.
    Ignore,
    /// Look up the request the button is for.
    LoadRequest,
    /// Refuse with this reply.
    Reply(String),
    /// Fetch the roles of the officer who pressed the button.
    FetchActorRoles,
    /// Go ahead with the approval or denial.
    Decide,
}

pub enum ReviewStepView {
    Ignore,
    LoadRequest,
    Reply(Seq<char>),
    FetchActorRoles,
    Decide,
}

impl View for ReviewStep {
    type V = ReviewStepView;

    open spec fn view(&self) -> ReviewStepView {
        match self {
            ReviewStep::Ignore => ReviewStepView::Ignore,
            ReviewStep::LoadRequest => ReviewStepView::LoadRequest,
            ReviewStep::Reply(s) => ReviewStepView::Reply(s@),
            ReviewStep::FetchActorRoles => ReviewStepView::FetchActorRoles,
            ReviewStep::Decide => ReviewStepView::Decide,
        }
    }
}

/// The order of a review button's checks: the module enabled; the request
/// exists; its target is still configured; the press came from a server;
/// the officer holds one of the target's approver roles.
pub open spec fn review_gate(
    targets: Option<Seq<TargetView>>,
    request: Option<Option<RequestView>>,
    in_guild: bool,
    actor_roles: Option<Seq<u64>>,
) -> ReviewStepView {
    if targets is None {
        ReviewStepView::Ignore
    } else {
        match request {
            None => ReviewStepView::LoadRequest,
            Some(None) => ReviewStepView::Reply("That onboarding request does not exist."@),
            Some(Some(q)) => if target_position(targets->0, q.target_key) is None {
                ReviewStepView::Reply("That onboarding target is no longer configured."@)
            } else if !in_guild {
                ReviewStepView::Reply("Onboarding decisions only work inside the configured server."@)
            } else if actor_roles is None {
                ReviewStepView::FetchActorRoles
            } else {
                match reviewer_check(targets->0, q.target_key, actor_roles->0) {
                    Err(m) => ReviewStepView::Reply(m),
                    Ok(_) => ReviewStepView::Decide,
                }
            },
        }
    }
}

pub fn review_step(
    targets: Option<&Vec<OnboardingTargetConfig>>,
    request: Option<Option<&OnboardingRequest>>,
    in_guild: bool,
    actor_roles: Option<&Vec<u64>>,
) -> (r: ReviewStep)
    ensures
        r@ == review_gate(targets_known(targets), request_known(request), in_guild, roles_known(actor_roles)),
{
    let targets = match targets {
        Some(t) => t,
        None => return ReviewStep::Ignore,
    };
    let request = match request {
        None => return ReviewStep::LoadRequest,
        Some(None) => return ReviewStep::Reply(String::from_str("That onboarding request does not exist.")),
        Some(Some(q)) => q,
    };
    match find_target_index(targets, request.target_key()) {
        None => return ReviewStep::Reply(String::from_str("That onboarding target is no longer configured.")),
        Some(_) => {},
    }
    if !in_guild {
        return ReviewStep::Reply(String::from_str("Onboarding decisions only work inside the configured server."));
    }
    let actor_roles = match actor_roles {
        Some(r) => r,
        None => return ReviewStep::FetchActorRoles,
    };
    match check_reviewer(targets, request.target_key(), actor_roles) {
        Err(m) => ReviewStep::Reply(m),
        Ok(_) => ReviewStep::Decide,
    }
}

// ---------------------------------------------------------------------------
// Approving a request
// ---------------------------------------------------------------------------

/// Roles of a member, when fetched: the inner `None` means their membership
/// could not be confirmed.
pub open spec fn member_roles_known(roles: Option<Option<&Vec<u64>>>) -> Option<Option<Seq<u64>>> {
    match roles {
        Some(Some(r)) => Some(Some(r@)),
        Some(None) => Some(None),
        None => None,
    }
}

/// What an approval does next.
#[derive(Debug)]
pub enum ApprovalStep {
    /// The verification module is disabled.
    VerificationDisabled,
    /// Fetch the roles of the member the request is for.
    FetchMemberRoles,
    /// Look up the member's stored identity.
    LoadIdentity,
    /// Refuse with this reply.
    Reply(String),
    /// Record the approval.
    Approve,
}

pub enum ApprovalStepView {
    VerificationDisabled,
    FetchMemberRoles,
    LoadIdentity,
    Reply(Seq<char>),
    Approve,
}

impl View for ApprovalStep {
    type V = ApprovalStepView;

    open spec fn view(&self) -> ApprovalStepView {
        match self {
            ApprovalStep::VerificationDisabled => ApprovalStepView::VerificationDisabled,
            ApprovalStep::FetchMemberRoles => ApprovalStepView::FetchMemberRoles,
            ApprovalStep::LoadIdentity => ApprovalStepView::LoadIdentity,
            ApprovalStep::Reply(s) => ApprovalStepView::Reply(s@),
            ApprovalStep::Approve => ApprovalStepView::Approve,
        }
    }
}

pub open spec fn not_eligible_text() -> Seq<char> {
    "The target user is no longer eligible for onboarding. Confirm their Discord verification and persisted email before trying again."@
}

/// The order of an approval's checks: the verification module enabled; the
/// member's roles; their stored identity, looked up only when they hold the
/// verified role; then the member must still be eligible for the request.
pub open spec fn approval_gate(
    verified_role_id: Option<u64>,
    roles: Option<Option<Seq<u64>>>,
    identity: Option<Option<IdentityView>>,
    r: RequestView,
) -> ApprovalStepView {
    if verified_role_id is None {
        ApprovalStepView::VerificationDisabled
    } else if roles is None {
        ApprovalStepView::FetchMemberRoles
    } else {
        let verified = roles->0 matches Some(rs) && rs.contains(verified_role_id->0);
        if verified && identity is None {
            ApprovalStepView::LoadIdentity
        } else if still_eligible(roles->0, verified_role_id->0, if verified { identity->0 } else { None }, r) {
            ApprovalStepView::Approve
        } else {
            ApprovalStepView::Reply(not_eligible_text())
        }
    }
}

fn holds(roles: &Vec<u64>, role: u64) -> (r: bool)
    ensures
        r == roles@.contains(role),
{
    for i in 0..roles.len()
        invariant
            forall|k: int| 0 <= k < i ==> roles@[k] != role,
    {
        if roles[i] == role {
            return true;
        }
    }
    false
}

pub fn approval_step(
    verified_role_id: Option<u64>,
    roles: Option<Option<&Vec<u64>>>,
    identity: Option<Option<&VerifiedIdentity>>,
    request: &OnboardingRequest,
) -> (r: ApprovalStep)
    ensures
        r@ == approval_gate(verified_role_id, member_roles_known(roles), identity_known(identity), request@),
{
    let verified_role_id = match verified_role_id {
        Some(v) => v,
        None => return ApprovalStep::VerificationDisabled,
    };
    let roles = match roles {
        Some(r) => r,
        None => return ApprovalStep::FetchMemberRoles,
    };
    let verified = match roles {
        Some(rs) => holds(rs, verified_role_id),
        None => false,
    };
    let identity = if verified {
        match identity {
            Some(i) => i,
            None => return ApprovalStep::LoadIdentity,
        }
    } else {
        None
    };
    if target_remains_eligible(roles, verified_role_id, identity, request) {
        ApprovalStep::Approve
    } else {
        ApprovalStep::Reply(
            String::from_str(
                "The target user is no longer eligible for onboarding. Confirm their Discord verification and persisted email before trying again.",
            ),
        )
    }
}


// ---------------------------------------------------------------------------
// /verify and the email form
// ---------------------------------------------------------------------------

/// What a verification request (the command or the email form) does next.
#[derive(Debug)]
pub enum VerifyStep {
    /// Refuse with this reply.
    Reply(String),
    /// The verification module is disabled.
    VerificationDisabled,
    /// Look up whether the member already has a stored identity.
    LoadIdentity,
    /// The member is already verified: bring their roles in line and say so.
    AlreadyVerified,
    /// Start a verification of this address under this preferred name.
    Start(EmailAddress, DisplayName),
}

pub enum VerifyStepView {
    Reply(Seq<char>),
    VerificationDisabled,
    LoadIdentity,
    AlreadyVerified,
    Start((Seq<char>, Seq<char>), Seq<char>),
}

impl View for VerifyStep {
    type V = VerifyStepView;

    open spec fn view(&self) -> VerifyStepView {
        match self {
            VerifyStep::Reply(s) => VerifyStepView::Reply(s@),
            VerifyStep::VerificationDisabled => VerifyStepView::VerificationDisabled,
            VerifyStep::LoadIdentity => VerifyStepView::LoadIdentity,
            VerifyStep::AlreadyVerified => VerifyStepView::AlreadyVerified,
            VerifyStep::Start(e, n) => VerifyStepView::Start(e@, n@),
        }
    }
}

/// The order of a verification request's checks: in a server; the module
/// enabled; no stored identity yet; an address was given (the form may come
/// back without one); the address is valid and from an allowed domain; the
/// member's Discord name makes a valid preferred name.
pub open spec fn verify_gate(
    in_guild: bool,
    allowed_domains: Option<Seq<Seq<char>>>,
    has_identity: Option<bool>,
    email_input: Option<Seq<char>>,
    preferred_name: Seq<char>,
) -> VerifyStepView {
    if !in_guild {
        VerifyStepView::Reply("Verification only works inside a server."@)
    } else if allowed_domains is None {
        VerifyStepView::VerificationDisabled
    } else if has_identity is None {
        VerifyStepView::LoadIdentity
    } else if has_identity->0 {
        VerifyStepView::AlreadyVerified
    } else if email_input is None {
        VerifyStepView::Reply("The email form was incomplete. Please try again."@)
    } else {
        match authorized_email_result(allowed_domains->0, email_input->0) {
            Err(m) => VerifyStepView::Reply(m),
            Ok(e) => match display_name_result(preferred_name) {
                Err(err) => VerifyStepView::Reply(identity_error_text(err)),
                Ok(n) => VerifyStepView::Start(e, n),
            },
        }
    }
}

pub fn verify_step(
    in_guild: bool,
    allowed_domains: Option<&Vec<String>>,
    has_identity: Option<bool>,
    email_input: Option<&str>,
    preferred_name: &str,
) -> (r: VerifyStep)
    ensures
        r@ == verify_gate(
            in_guild,
            match allowed_domains {
                Some(d) => Some(texts(d@)),
                None => None,
            },
            has_identity,
            match email_input {
                Some(e) => Some(e@),
                None => None,
            },
            preferred_name@,
        ),
{
    if !in_guild {
        return VerifyStep::Reply(String::from_str("Verification only works inside a server."));
    }
    let allowed_domains = match allowed_domains {
        Some(d) => d,
        None => return VerifyStep::VerificationDisabled,
    };
    match has_identity {
        None => return VerifyStep::LoadIdentity,
        Some(true) => return VerifyStep::AlreadyVerified,
        Some(false) => {},
    }
    let email_input = match email_input {
        Some(e) => e,
        None => return VerifyStep::Reply(String::from_str("The email form was incomplete. Please try again.")),
    };
    let email = match parse_authorized_email(allowed_domains, email_input) {
        Ok(e) => e,
        Err(m) => return VerifyStep::Reply(m),
    };
    match DisplayName::parse(preferred_name) {
        Ok(n) => VerifyStep::Start(email, n),
        Err(err) => VerifyStep::Reply(err.to_string()),
    }
}

} // verus!
