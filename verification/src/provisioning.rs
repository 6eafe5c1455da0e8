//! Provisioning an approved onboarding request, as a state machine: each
//! step takes what the last action brought back and names the next action.
//! The caller performs the actions (Discord, the database, Authentik).
use vstd::prelude::*;
use crate::config::targets::{OnboardingTargetConfig, TargetView, target_views};
use crate::domain::onboarding::{
    ClaimProvisioningResult, OnboardingRequest, OnboardingRequestId, RequestView,
};
use crate::domain::verification::{IdentityView, VerifiedIdentity, email_text};
use crate::onboard::{
    OutcomeView, ProvisioningOutcome, approves, can_approve_target, completion_message, completion_text,
    error_chain_text, find_target_index, safe_provisioning_error, target_position,
};
use crate::text::texts;

verus! {

/// What the flow waits for.
#[derive(Debug, Clone, Copy, PartialEq, Eq, Structural)]
pub enum Stage {
    AwaitRequest,
    AwaitActor,
    AwaitMember,
    AwaitIdentity,
    AwaitClaim,
    AwaitSyncAfterClaim,
    AwaitProvision,
    AwaitCompletionSent,
    AwaitMarked,
    AwaitFinalSync,
    Finished,
}

/// What the settings give the flow.
pub struct ProvisioningContext {
    pub targets: Vec<OnboardingTargetConfig>,
    pub verified_role_id: u64,
    pub headscale_login_url: String,
    pub authentik_login_url: String,
}

pub struct ContextView {
    pub targets: Seq<TargetView>,
    pub verified_role_id: u64,
    pub headscale_login_url: Seq<char>,
    pub authentik_login_url: Seq<char>,
}

impl View for ProvisioningContext {
    type V = ContextView;

    open spec fn view(&self) -> ContextView {
        ContextView {
            targets: target_views(self.targets@),
            verified_role_id: self.verified_role_id,
            headscale_login_url: self.headscale_login_url@,
            authentik_login_url: self.authentik_login_url@,
        }
    }
}

/// What the caller brings back from an action.
#[derive(Debug)]
pub enum ProvisioningEvent {
    /// The stored request, if it exists.
    RequestLoaded(Option<OnboardingRequest>),
    /// The acting officer's roles; `None` when their membership could not be
    /// confirmed.
    ActorRoles(Option<Vec<u64>>),
    /// The member's roles; `None` when their membership could not be
    /// confirmed.
    MemberRoles(Option<Vec<u64>>),
    /// The member's stored verified identity, if any.
    IdentityLoaded(Option<VerifiedIdentity>),
    ClaimResult(ClaimProvisioningResult),
    ReviewSynced,
    /// The Authentik username, user ID and recovery link; or the messages of
    /// the error and its causes.
    Provisioned(Result<(String, u64, String), Vec<String>>),
    /// Whether the completion message reached the member.
    CompletionSent(bool),
    /// The stored request after the attempt was recorded.
    Marked(OnboardingRequest),
}

pub enum ClaimView {
    Claimed(RequestView),
    Missing,
    Unavailable(RequestView),
}

pub enum EventView {
    RequestLoaded(Option<RequestView>),
    ActorRoles(Option<Seq<u64>>),
    MemberRoles(Option<Seq<u64>>),
    IdentityLoaded(Option<IdentityView>),
    ClaimResult(ClaimView),
    ReviewSynced,
    Provisioned(Result<(Seq<char>, u64, Seq<char>), Seq<Seq<char>>>),
    CompletionSent(bool),
    Marked(RequestView),
}

impl View for ProvisioningEvent {
    type V = EventView;

    open spec fn view(&self) -> EventView {
        match self {
            ProvisioningEvent::RequestLoaded(r) => EventView::RequestLoaded(
                match r {
                    Some(q) => Some(q@),
                    None => None,
                },
            ),
            ProvisioningEvent::ActorRoles(r) => EventView::ActorRoles(
                match r {
                    Some(v) => Some(v@),
                    None => None,
                },
            ),
            ProvisioningEvent::MemberRoles(r) => EventView::MemberRoles(
                match r {
                    Some(v) => Some(v@),
                    None => None,
                },
            ),
            ProvisioningEvent::IdentityLoaded(i) => EventView::IdentityLoaded(
                match i {
                    Some(v) => Some(v@),
                    None => None,
                },
            ),
            ProvisioningEvent::ClaimResult(c) => EventView::ClaimResult(
                match c {
                    ClaimProvisioningResult::Claimed(q) => ClaimView::Claimed(q@),
                    ClaimProvisioningResult::Missing => ClaimView::Missing,
                    ClaimProvisioningResult::Unavailable(q) => ClaimView::Unavailable(q@),
                },
            ),
            ProvisioningEvent::ReviewSynced => EventView::ReviewSynced,
            ProvisioningEvent::Provisioned(p) => EventView::Provisioned(
                match p {
                    Ok((name, pk, link)) => Ok((name@, *pk, link@)),
                    Err(chain) => Err(texts(chain@)),
                },
            ),
            ProvisioningEvent::CompletionSent(b) => EventView::CompletionSent(*b),
            ProvisioningEvent::Marked(q) => EventView::Marked(q@),
        }
    }
}

/// What the caller is asked to do next.
#[derive(Debug)]
pub enum ProvisioningAction {
    LoadRequest(OnboardingRequestId),
    /// Fetch the roles of this officer in the server.
    FetchActorRoles(u64),
    /// Fetch the roles of this member in the server.
    FetchMemberRoles(u64),
    LoadIdentity(u64),
    /// Claim the request for a provisioning attempt by this officer.
    Claim(OnboardingRequestId, u64),
    /// Bring the review message in line with the flow's current request.
    SyncReview,
    /// Find or create the Authentik user for the flow's request (its email,
    /// member and preferred name), add it to this group, and create a
    /// recovery link for it.
    Provision { group_uuid: String },
    /// Send this direct message to the member.
    SendCompletion { user_id: u64, message: String },
    MarkFailed { id: OnboardingRequestId, error: String, attempt: u32 },
    MarkCompleted { id: OnboardingRequestId, authentik_user_id: u64, attempt: u32 },
    Finish(ProvisioningOutcome),
}

pub enum ActionView {
    LoadRequest(i64),
    FetchActorRoles(u64),
    FetchMemberRoles(u64),
    LoadIdentity(u64),
    Claim(i64, u64),
    SyncReview,
    Provision { group_uuid: Seq<char> },
    SendCompletion { user_id: u64, message: Seq<char> },
    MarkFailed { id: i64, error: Seq<char>, attempt: u32 },
    MarkCompleted { id: i64, authentik_user_id: u64, attempt: u32 },
    Finish(OutcomeView),
}

impl View for ProvisioningAction {
    type V = ActionView;

    open spec fn view(&self) -> ActionView {
        match self {
            ProvisioningAction::LoadRequest(id) => ActionView::LoadRequest(id@),
            ProvisioningAction::FetchActorRoles(u) => ActionView::FetchActorRoles(*u),
            ProvisioningAction::FetchMemberRoles(u) => ActionView::FetchMemberRoles(*u),
            ProvisioningAction::LoadIdentity(u) => ActionView::LoadIdentity(*u),
            ProvisioningAction::Claim(id, u) => ActionView::Claim(id@, *u),
            ProvisioningAction::SyncReview => ActionView::SyncReview,
            ProvisioningAction::Provision { group_uuid } => ActionView::Provision {
                group_uuid: group_uuid@,
            },
            ProvisioningAction::SendCompletion { user_id, message } => ActionView::SendCompletion {
                user_id: *user_id,
                message: message@,
            },
            ProvisioningAction::MarkFailed { id, error, attempt } => ActionView::MarkFailed {
                id: id@,
                error: error@,
                attempt: *attempt,
            },
            ProvisioningAction::MarkCompleted { id, authentik_user_id, attempt } =>
                ActionView::MarkCompleted {
                id: id@,
                authentik_user_id: *authentik_user_id,
                attempt: *attempt,
            },
            ProvisioningAction::Finish(o) => ActionView::Finish(o@),
        }
    }
}

/// The flow's state.
pub struct ProvisioningFlow {
    stage: Stage,
    request_id: OnboardingRequestId,
    actor_user_id: u64,
    request: Option<OnboardingRequest>,
    target: usize,
    authentik_user_id: u64,
    failed: bool,
    context: ProvisioningContext,
}

pub struct FlowView {
    pub stage: Stage,
    pub request_id: i64,
    pub actor_user_id: u64,
    pub request: Option<RequestView>,
    pub target: int,
    pub authentik_user_id: u64,
    pub failed: bool,
    pub context: ContextView,
}

impl View for ProvisioningFlow {
    type V = FlowView;

    closed spec fn view(&self) -> FlowView {
        FlowView {
            stage: self.stage,
            request_id: self.request_id@,
            actor_user_id: self.actor_user_id,
            request: match self.request {
                Some(r) => Some(r@),
                None => None,
            },
            target: self.target as int,
            authentik_user_id: self.authentik_user_id,
            failed: self.failed,
            context: self.context@,
        }
    }
}

/// Whether the flow, in `stage`, can take `e`: the event answers the action
/// the flow last asked for.
pub open spec fn accepts(stage: Stage, e: EventView) -> bool {
    match stage {
        Stage::AwaitRequest => e is RequestLoaded,
        Stage::AwaitActor => e is ActorRoles,
        Stage::AwaitMember => e is MemberRoles,
        Stage::AwaitIdentity => e is IdentityLoaded,
        Stage::AwaitClaim => e is ClaimResult,
        Stage::AwaitSyncAfterClaim => e is ReviewSynced,
        Stage::AwaitProvision => e is Provisioned,
        Stage::AwaitCompletionSent => e is CompletionSent,
        Stage::AwaitMarked => e is Marked,
        Stage::AwaitFinalSync => e is ReviewSynced,
        Stage::Finished => false,
    }
}

/// Whether the flow's state fits its stage: from the actor check on it holds
/// the request and the position of its target.
pub open spec fn well_formed(s: FlowView, c: ContextView) -> bool {
    &&& (s.stage != Stage::AwaitRequest && s.stage != Stage::Finished ==> s.request is Some)
    &&& (s.stage == Stage::AwaitActor || s.stage == Stage::AwaitProvision
        || s.stage == Stage::AwaitCompletionSent ==> 0 <= s.target < c.targets.len())
}

/// Whether a stored identity still backs the request: its preferred name is
/// confirmed, and its email and name are those the request was made with.
pub open spec fn identity_current(i: IdentityView, r: RequestView) -> bool {
    i.display_name_confirmed && i.email == r.email && i.display_name == r.display_name
}

pub open spec fn finish(s: FlowView, o: OutcomeView) -> (FlowView, ActionView) {
    (FlowView { stage: Stage::Finished, ..s }, ActionView::Finish(o))
}

pub open spec fn mark_failed(s: FlowView, r: RequestView, error: Seq<char>) -> (FlowView, ActionView) {
    (
        FlowView { stage: Stage::AwaitMarked, failed: true, request: Some(r), ..s },
        ActionView::MarkFailed { id: r.id, error, attempt: r.provisioning_attempts },
    )
}

/// The completion message for a request, its target and the settings.
pub open spec fn completion_for(c: ContextView, r: RequestView, t: TargetView, username: Seq<char>, link: Seq<char>) -> Seq<char> {
    completion_text(
        r.target_label,
        email_text(r.email),
        username,
        c.authentik_login_url,
        link,
        c.headscale_login_url,
        match t.completion_url {
            Some(u) => u,
            None => c.headscale_login_url,
        },
    )
}

/// One step of the flow.
pub open spec fn flow_step(s: FlowView, c: ContextView, e: EventView) -> (FlowView, ActionView) {
    let r = s.request->0;
    match e {
        EventView::RequestLoaded(None) => finish(s, OutcomeView::Missing),
        EventView::RequestLoaded(Some(q)) => match target_position(c.targets, q.target_key) {
            None => finish(s, OutcomeView::Unavailable(q.status)),
            Some(p) => (
                FlowView { stage: Stage::AwaitActor, request: Some(q), target: p, ..s },
                ActionView::FetchActorRoles(s.actor_user_id),
            ),
        },
        EventView::ActorRoles(roles) => if roles matches Some(rs) && approves(
            rs,
            c.targets[s.target].approver_role_ids,
        ) {
            (FlowView { stage: Stage::AwaitMember, ..s }, ActionView::FetchMemberRoles(r.user_id))
        } else {
            finish(s, OutcomeView::Unauthorized)
        },
        EventView::MemberRoles(roles) => if roles matches Some(rs) && rs.contains(c.verified_role_id) {
            (FlowView { stage: Stage::AwaitIdentity, ..s }, ActionView::LoadIdentity(r.user_id))
        } else {
            finish(s, OutcomeView::Ineligible)
        },
        EventView::IdentityLoaded(identity) => if identity matches Some(i) && identity_current(i, r) {
            (
                FlowView { stage: Stage::AwaitClaim, ..s },
                ActionView::Claim(s.request_id, s.actor_user_id),
            )
        } else {
            finish(s, OutcomeView::Ineligible)
        },
        EventView::ClaimResult(ClaimView::Missing) => finish(s, OutcomeView::Missing),
        EventView::ClaimResult(ClaimView::Unavailable(q)) => finish(
            s,
            OutcomeView::Unavailable(q.status),
        ),
        EventView::ClaimResult(ClaimView::Claimed(q)) => (
            FlowView { stage: Stage::AwaitSyncAfterClaim, request: Some(q), ..s },
            ActionView::SyncReview,
        ),
        EventView::ReviewSynced => if s.stage == Stage::AwaitSyncAfterClaim {
            match target_position(c.targets, r.target_key) {
                None => mark_failed(s, r, "onboarding target is no longer configured"@),
                Some(p) => (
                    FlowView { stage: Stage::AwaitProvision, target: p, ..s },
                    ActionView::Provision { group_uuid: c.targets[p].authentik_group_uuid },
                ),
            }
        } else {
            finish(
                s,
                if s.failed {
                    OutcomeView::Failed(r.id)
                } else {
                    OutcomeView::Completed(r.id)
                },
            )
        },
        EventView::Provisioned(Err(chain)) => mark_failed(s, r, error_chain_text(chain)),
        EventView::Provisioned(Ok((username, pk, link))) => (
            FlowView { stage: Stage::AwaitCompletionSent, authentik_user_id: pk, ..s },
            ActionView::SendCompletion {
                user_id: r.user_id,
                message: completion_for(c, r, c.targets[s.target], username, link),
            },
        ),
        EventView::CompletionSent(false) => mark_failed(
            s,
            r,
            "failed to deliver onboarding completion message"@,
        ),
        EventView::CompletionSent(true) => (
            FlowView { stage: Stage::AwaitMarked, failed: false, ..s },
            ActionView::MarkCompleted {
                id: r.id,
                authentik_user_id: s.authentik_user_id,
                attempt: r.provisioning_attempts,
            },
        ),
        EventView::Marked(m) => (
            FlowView { stage: Stage::AwaitFinalSync, request: Some(m), ..s },
            ActionView::SyncReview,
        ),
    }
}

impl ProvisioningFlow {
    #[verifier::type_invariant]
    spec fn flow_invariant(self) -> bool {
        well_formed(self@, self@.context)
    }

    /// A flow that provisions request `request_id` on behalf of the officer
    /// `actor_user_id` under the settings `context`; it begins by loading the
    /// request.
    pub fn start(request_id: OnboardingRequestId, actor_user_id: u64, context: ProvisioningContext) -> (r: (ProvisioningFlow, ProvisioningAction))
        ensures
            r.0@ == (FlowView {
                stage: Stage::AwaitRequest,
                request_id: request_id@,
                actor_user_id,
                request: None,
                target: 0,
                authentik_user_id: 0,
                failed: false,
                context: context@,
            }),
            r.1@ == ActionView::LoadRequest(request_id@),
    {
        (
            ProvisioningFlow {
                stage: Stage::AwaitRequest,
                request_id,
                actor_user_id,
                request: None,
                target: 0,
                authentik_user_id: 0,
                failed: false,
                context,
            },
            ProvisioningAction::LoadRequest(request_id),
        )
    }

    pub fn stage(&self) -> (s: Stage)
        ensures
            s == self@.stage,
    {
        self.stage
    }

    /// The request as the flow last saw it.
    pub fn request(&self) -> (r: Option<&OnboardingRequest>)
        ensures
            match r {
                Some(q) => self@.request == Some(q@),
                None => self@.request is None,
            },
    {
        match &self.request {
            Some(q) => Some(q),
            None => None,
        }
    }

    /// Whether the flow can take `event`: it answers the last action.
    pub fn accepts_event(&self, event: &ProvisioningEvent) -> (b: bool)
        ensures
            b == accepts(self@.stage, event@),
    {
        match (self.stage, event) {
            (Stage::AwaitRequest, ProvisioningEvent::RequestLoaded(_)) => true,
            (Stage::AwaitActor, ProvisioningEvent::ActorRoles(_)) => true,
            (Stage::AwaitMember, ProvisioningEvent::MemberRoles(_)) => true,
            (Stage::AwaitIdentity, ProvisioningEvent::IdentityLoaded(_)) => true,
            (Stage::AwaitClaim, ProvisioningEvent::ClaimResult(_)) => true,
            (Stage::AwaitSyncAfterClaim, ProvisioningEvent::ReviewSynced) => true,
            (Stage::AwaitProvision, ProvisioningEvent::Provisioned(_)) => true,
            (Stage::AwaitCompletionSent, ProvisioningEvent::CompletionSent(_)) => true,
            (Stage::AwaitMarked, ProvisioningEvent::Marked(_)) => true,
            (Stage::AwaitFinalSync, ProvisioningEvent::ReviewSynced) => true,
            _ => false,
        }
    }

    fn finish(self, outcome: ProvisioningOutcome) -> (r: (ProvisioningFlow, ProvisioningAction))
        ensures
            (r.0@, r.1@) == finish(self@, outcome@),
    {
        (ProvisioningFlow { stage: Stage::Finished, ..self }, ProvisioningAction::Finish(outcome))
    }

    fn mark_failed(self, error: String) -> (r: (ProvisioningFlow, ProvisioningAction))
        requires
            self@.request is Some,
        ensures
            (r.0@, r.1@) == mark_failed(self@, self@.request->0, error@),
    {
        let (id, attempt) = match &self.request {
            Some(q) => (q.id(), q.provisioning_attempts()),
            None => (self.request_id, 0),
        };
        (
            ProvisioningFlow { stage: Stage::AwaitMarked, failed: true, ..self },
            ProvisioningAction::MarkFailed { id, error, attempt },
        )
    }

    /// Takes what the last action brought back and names the next action.
    pub fn step(self, event: ProvisioningEvent) -> (r: (ProvisioningFlow, ProvisioningAction))
        requires
            accepts(self@.stage, event@),
        ensures
            (r.0@, r.1@) == flow_step(self@, self@.context, event@),
            r.0@.context == self@.context,
    {
        proof {
            use_type_invariant(&self);
        }
        match event {
            ProvisioningEvent::RequestLoaded(None) => self.finish(ProvisioningOutcome::Missing),
            ProvisioningEvent::RequestLoaded(Some(q)) => {
                match find_target_index(&self.context.targets, q.target_key()) {
                    None => {
                        let status = q.status();
                        self.finish(ProvisioningOutcome::Unavailable(status))
                    },
                    Some(p) => {
                        let actor = self.actor_user_id;
                        (
                            ProvisioningFlow { stage: Stage::AwaitActor, request: Some(q), target: p, ..self },
                            ProvisioningAction::FetchActorRoles(actor),
                        )
                    },
                }
            },
            ProvisioningEvent::ActorRoles(roles) => {
                let authorized = match &roles {
                    Some(rs) => can_approve_target(rs, &self.context.targets[self.target]),
                    None => false,
                };
                if authorized {
                    let user_id = match &self.request {
                        Some(q) => q.user_id(),
                        None => 0,
                    };
                    (ProvisioningFlow { stage: Stage::AwaitMember, ..self }, ProvisioningAction::FetchMemberRoles(user_id))
                } else {
                    self.finish(ProvisioningOutcome::Unauthorized)
                }
            },
            ProvisioningEvent::MemberRoles(roles) => {
                let verified = match &roles {
                    Some(rs) => holds(rs, self.context.verified_role_id),
                    None => false,
                };
                if verified {
                    let user_id = match &self.request {
                        Some(q) => q.user_id(),
                        None => 0,
                    };
                    (ProvisioningFlow { stage: Stage::AwaitIdentity, ..self }, ProvisioningAction::LoadIdentity(user_id))
                } else {
                    self.finish(ProvisioningOutcome::Ineligible)
                }
            },
            ProvisioningEvent::IdentityLoaded(identity) => {
                let current = match (&identity, &self.request) {
                    (Some(i), Some(q)) => i.is_display_name_confirmed() && i.email().same_as(q.email())
                        && i.display_name().same_as(q.display_name()),
                    _ => false,
                };
                if current {
                    let id = self.request_id;
                    let actor = self.actor_user_id;
                    (ProvisioningFlow { stage: Stage::AwaitClaim, ..self }, ProvisioningAction::Claim(id, actor))
                } else {
                    self.finish(ProvisioningOutcome::Ineligible)
                }
            },
            ProvisioningEvent::ClaimResult(ClaimProvisioningResult::Missing) => self.finish(
                ProvisioningOutcome::Missing,
            ),
            ProvisioningEvent::ClaimResult(ClaimProvisioningResult::Unavailable(q)) => {
                let status = q.status();
                self.finish(ProvisioningOutcome::Unavailable(status))
            },
            ProvisioningEvent::ClaimResult(ClaimProvisioningResult::Claimed(q)) => (
                ProvisioningFlow { stage: Stage::AwaitSyncAfterClaim, request: Some(q), ..self },
                ProvisioningAction::SyncReview,
            ),
            ProvisioningEvent::ReviewSynced => {
                if self.stage == Stage::AwaitSyncAfterClaim {
                    let found = match &self.request {
                        Some(q) => find_target_index(&self.context.targets, q.target_key()),
                        None => None,
                    };
                    match found {
                        None => self.mark_failed(String::from_str("onboarding target is no longer configured")),
                        Some(p) => {
                            let group_uuid = self.context.targets[p].authentik_group_uuid.clone();
                            (
                                ProvisioningFlow { stage: Stage::AwaitProvision, target: p, ..self },
                                ProvisioningAction::Provision { group_uuid },
                            )
                        },
                    }
                } else {
                    let id = match &self.request {
                        Some(q) => q.id(),
                        None => self.request_id,
                    };
                    if self.failed {
                        self.finish(ProvisioningOutcome::Failed(id))
                    } else {
                        self.finish(ProvisioningOutcome::Completed(id))
                    }
                }
            },
            ProvisioningEvent::Provisioned(Err(chain)) => {
                let error = safe_provisioning_error(&chain);
                self.mark_failed(error)
            },
            ProvisioningEvent::Provisioned(Ok((username, pk, link))) => {
                let target = &self.context.targets[self.target];
                let (user_id, message) = match &self.request {
                    Some(q) => {
                        let email = q.email().to_string();
                        let completion_url = match &target.completion_url {
                            Some(u) => u.as_str(),
                            None => self.context.headscale_login_url.as_str(),
                        };
                        let message = completion_message(
                            q.target_label(),
                            email.as_str(),
                            username.as_str(),
                            self.context.authentik_login_url.as_str(),
                            link.as_str(),
                            self.context.headscale_login_url.as_str(),
                            completion_url,
                        );
                        (q.user_id(), message)
                    },
                    None => (0, String::new()),
                };
                (
                    ProvisioningFlow { stage: Stage::AwaitCompletionSent, authentik_user_id: pk, ..self },
                    ProvisioningAction::SendCompletion { user_id, message },
                )
            },
            ProvisioningEvent::CompletionSent(sent) => {
                if !sent {
                    self.mark_failed(String::from_str("failed to deliver onboarding completion message"))
                } else {
                    let (id, attempt) = match &self.request {
                        Some(q) => (q.id(), q.provisioning_attempts()),
                        None => (self.request_id, 0),
                    };
                    let authentik_user_id = self.authentik_user_id;
                    (
                        ProvisioningFlow { stage: Stage::AwaitMarked, failed: false, ..self },
                        ProvisioningAction::MarkCompleted { id, authentik_user_id, attempt },
                    )
                }
            },
            ProvisioningEvent::Marked(m) => (
                ProvisioningFlow { stage: Stage::AwaitFinalSync, request: Some(m), ..self },
                ProvisioningAction::SyncReview,
            ),
        }
    }
}

fn holds(roles: &Vec<u64>, role: u64) -> (r: bool)
    ensures
        r == roles@.contains(role),
{
    for i in 0..roles.len()
        invariant
            forall|k: int| 0 <= k < i ==> roles@[k] != role,
    {
        if roles[i] == role {
            return true;
        }
    }
    false
}

// ---------------------------------------------------------------------------
// What every run of the flow satisfies
// ---------------------------------------------------------------------------

pub open spec fn stage_rank(stage: Stage) -> int {
    match stage {
        Stage::AwaitRequest => 0,
        Stage::AwaitActor => 1,
        Stage::AwaitMember => 2,
        Stage::AwaitIdentity => 3,
        Stage::AwaitClaim => 4,
        Stage::AwaitSyncAfterClaim => 5,
        Stage::AwaitProvision => 6,
        Stage::AwaitCompletionSent => 7,
        Stage::AwaitMarked => 8,
        Stage::AwaitFinalSync => 9,
        Stage::Finished => 10,
    }
}

/// Every step moves the flow to a later stage, so a run finishes after at
/// most ten steps; a finished flow asks for nothing but its outcome.
pub proof fn lemma_flow_progresses(s: FlowView, c: ContextView, e: EventView)
    requires
        accepts(s.stage, e),
    ensures
        stage_rank(flow_step(s, c, e).0.stage) > stage_rank(s.stage),
        flow_step(s, c, e).0.stage == Stage::Finished <==> flow_step(s, c, e).1 is Finish,
{
}

/// Nothing is claimed unless the officer holds an approver role of the
/// request's target, the member still holds the verified role, and the
/// member's stored identity still backs the request: each of these checks
/// is the only way past its stage.
pub proof fn lemma_claim_is_gated(s: FlowView, c: ContextView, e: EventView)
    requires
        accepts(s.stage, e),
    ensures
        flow_step(s, c, e).1 is FetchMemberRoles ==> (e matches EventView::ActorRoles(Some(rs))
            && approves(rs, c.targets[s.target].approver_role_ids)),
        flow_step(s, c, e).1 is LoadIdentity ==> (e matches EventView::MemberRoles(Some(rs))
            && rs.contains(c.verified_role_id)),
        flow_step(s, c, e).1 is Claim ==> (e matches EventView::IdentityLoaded(Some(i))
            && identity_current(i, s.request->0)),
        flow_step(s, c, e).0.stage == Stage::AwaitMember ==> s.stage == Stage::AwaitActor,
        flow_step(s, c, e).0.stage == Stage::AwaitIdentity ==> s.stage == Stage::AwaitMember,
        flow_step(s, c, e).0.stage == Stage::AwaitClaim ==> s.stage == Stage::AwaitIdentity,
{
}

/// The member is messaged only after the Authentik account, group and
/// recovery link were all set up; the attempt is recorded as completed
/// only after the message was delivered, for the attempt the flow claimed;
/// and the flow reports completion only after recording it.
pub proof fn lemma_completion_is_gated(s: FlowView, c: ContextView, e: EventView)
    requires
        accepts(s.stage, e),
    ensures
        flow_step(s, c, e).1 is SendCompletion ==> e is Provisioned && e->Provisioned_0 is Ok,
        (flow_step(s, c, e).1 matches ActionView::MarkCompleted { id, authentik_user_id, attempt }
            ==> e == EventView::CompletionSent(true) && id == s.request->0.id && attempt
            == s.request->0.provisioning_attempts && authentik_user_id == s.authentik_user_id),
        (flow_step(s, c, e).1 matches ActionView::Finish(OutcomeView::Completed(_)) ==> s.stage
            == Stage::AwaitFinalSync && !s.failed),
{
}


/// The flow claims a request only for a stored identity that still backs it
/// field by field: its preferred name was confirmed, its email is the
/// request's email and its preferred name is the request's preferred name.
/// Any other loaded identity, or none, ends the flow with `Ineligible`.
pub proof fn lemma_claim_needs_matching_identity(s: FlowView, c: ContextView, e: EventView)
    requires
        s.stage == Stage::AwaitIdentity,
        accepts(s.stage, e),
    ensures
        flow_step(s, c, e).1 is Claim <==> (e matches EventView::IdentityLoaded(Some(i))
            && i.display_name_confirmed && i.email == s.request->0.email && i.display_name
            == s.request->0.display_name),
        !(flow_step(s, c, e).1 is Claim) ==> flow_step(s, c, e).1 == ActionView::Finish(
            OutcomeView::Ineligible,
        ),
{
}

} // verus!
