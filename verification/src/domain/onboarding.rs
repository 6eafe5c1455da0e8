//! Onboarding requests: their identifiers, statuses and persisted shape.
use vstd::prelude::*;
use crate::decimal::{parse_i64, parse_i64_chars, signed_decimal, i64_to_string};
use crate::domain::verification::{DisplayName, EmailAddress};
use crate::text::{chars_of, char_is_control, is_control, same_chars, string_from};

verus! {

/// A positive onboarding request identifier.
#[derive(Debug, Clone, Copy, PartialEq, Eq, Hash, Structural)]
pub struct OnboardingRequestId(i64);

/// Where an onboarding request stands in its workflow.
#[derive(Debug, Clone, Copy, PartialEq, Eq, Structural)]
pub enum OnboardingStatus {
    Pending,
    Approved,
    Denied,
    Provisioning,
    Completed,
    Failed,
}

impl View for OnboardingRequestId {
    type V = i64;

    closed spec fn view(&self) -> i64 {
        self.0
    }
}

impl OnboardingRequestId {
    #[verifier::type_invariant]
    spec fn is_positive(self) -> bool {
        self.0 > 0
    }

    /// The identifier `value`, when it is positive.
    pub fn new(value: i64) -> (r: Option<Self>)
        ensures
            r is Some <==> value > 0,
            r matches Some(id) ==> id@ == value,
    {
        if value > 0 {
            Some(OnboardingRequestId(value))
        } else {
            None
        }
    }

    /// The identifier written in `value` as an `i64`, when it is positive.
    pub fn parse(value: &str) -> (r: Option<Self>)
        ensures
            r is Some <==> (parse_i64(value@) matches Some(v) && v > 0),
            r matches Some(id) ==> parse_i64(value@) == Some(id@ as int),
    {
        let chars = chars_of(value);
        match parse_i64_chars(&chars) {
            Some(v) => Self::new(v),
            None => None,
        }
    }

    pub fn get(self) -> (v: i64)
        ensures
            v == self@,
            v > 0,
    {
        proof {
            use_type_invariant(&self);
        }
        self.0
    }

    /// The identifier in decimal, as `Display` writes it.
    pub fn to_string(&self) -> (s: String)
        ensures
            s@ == signed_decimal(self@ as int),
    {
        i64_to_string(self.0)
    }
}

/// An identifier is its number: two identifiers with the same number are the
/// same identifier. So `new(id.get())` gives `id` back, and `id.to_string()`
/// is the decimal form of `id.get()`.
pub proof fn lemma_request_id_is_its_number(a: OnboardingRequestId, b: OnboardingRequestId)
    ensures
        a@ == b@ ==> a == b,
{
}

/// The lowercase name a status is stored and shown under.
pub open spec fn status_name(status: OnboardingStatus) -> Seq<char> {
    match status {
        OnboardingStatus::Pending => "pending"@,
        OnboardingStatus::Approved => "approved"@,
        OnboardingStatus::Denied => "denied"@,
        OnboardingStatus::Provisioning => "provisioning"@,
        OnboardingStatus::Completed => "completed"@,
        OnboardingStatus::Failed => "failed"@,
    }
}

/// The status a stored name stands for.
pub open spec fn status_named(name: Seq<char>) -> Option<OnboardingStatus> {
    if name == "pending"@ {
        Some(OnboardingStatus::Pending)
    } else if name == "approved"@ {
        Some(OnboardingStatus::Approved)
    } else if name == "denied"@ {
        Some(OnboardingStatus::Denied)
    } else if name == "provisioning"@ {
        Some(OnboardingStatus::Provisioning)
    } else if name == "completed"@ {
        Some(OnboardingStatus::Completed)
    } else if name == "failed"@ {
        Some(OnboardingStatus::Failed)
    } else {
        None
    }
}

fn is_literal(chars: &Vec<char>, literal: &str) -> (r: bool)
    ensures
        r == (chars@ == literal@),
{
    let lit = chars_of(literal);
    same_chars(chars, &lit)
}

impl OnboardingStatus {
    pub fn as_str(self) -> (s: &'static str)
        ensures
            s@ == status_name(self),
    {
        match self {
            OnboardingStatus::Pending => "pending",
            OnboardingStatus::Approved => "approved",
            OnboardingStatus::Denied => "denied",
            OnboardingStatus::Provisioning => "provisioning",
            OnboardingStatus::Completed => "completed",
            OnboardingStatus::Failed => "failed",
        }
    }

    pub fn parse(value: &str) -> (r: Option<Self>)
        ensures
            r == status_named(value@),
    {
        let chars = chars_of(value);
        if is_literal(&chars, "pending") {
            Some(OnboardingStatus::Pending)
        } else if is_literal(&chars, "approved") {
            Some(OnboardingStatus::Approved)
        } else if is_literal(&chars, "denied") {
            Some(OnboardingStatus::Denied)
        } else if is_literal(&chars, "provisioning") {
            Some(OnboardingStatus::Provisioning)
        } else if is_literal(&chars, "completed") {
            Some(OnboardingStatus::Completed)
        } else if is_literal(&chars, "failed") {
            Some(OnboardingStatus::Failed)
        } else {
            None
        }
    }

    /// The status name, as `Display` writes it.
    pub fn to_string(&self) -> (s: String)
        ensures
            s@ == status_name(*self),
    {
        String::from_str(self.as_str())
    }
}

/// A status survives being written under its name and read back, and no two
/// statuses share a name.
pub proof fn lemma_status_round_trip(status: OnboardingStatus)
    ensures
        status_named(status_name(status)) == Some(status),
{
    reveal_strlit("pending");
    reveal_strlit("approved");
    reveal_strlit("denied");
    reveal_strlit("provisioning");
    reveal_strlit("completed");
    reveal_strlit("failed");
    assert("pending"@.len() == 7);
    assert("approved"@.len() == 8);
    assert("denied"@.len() == 6);
    assert("provisioning"@.len() == 12);
    assert("completed"@.len() == 9);
    assert("failed"@.len() == 6);
    assert("denied"@[0] != "failed"@[0]);
}

/// The view of an onboarding request. Times are nanoseconds since the Unix
/// epoch.
pub struct RequestView {
    pub id: i64,
    pub user_id: u64,
    pub requested_by_user_id: u64,
    pub email: (Seq<char>, Seq<char>),
    pub display_name: Seq<char>,
    pub target_key: Seq<char>,
    pub target_label: Seq<char>,
    pub requested_at: i128,
    pub updated_at: i128,
    pub status: OnboardingStatus,
    pub decided_by_user_id: Option<u64>,
    pub decided_at: Option<i128>,
    pub review_channel_id: Option<u64>,
    pub review_message_id: Option<u64>,
    pub provisioning_attempts: u32,
    pub provisioning_started_at: Option<i128>,
    pub authentik_user_id: Option<u64>,
    pub last_error: Option<Seq<char>>,
    pub completed_at: Option<i128>,
}

pub open spec fn opt_text(s: Option<String>) -> Option<Seq<char>> {
    match s {
        Some(t) => Some(t@),
        None => None,
    }
}

/// A request to onboard a verified member into a target, with its workflow
/// state.
#[derive(Debug, Clone)]
pub struct OnboardingRequest {
    id: OnboardingRequestId,
    user_id: u64,
    requested_by_user_id: u64,
    email: EmailAddress,
    display_name: DisplayName,
    target_key: String,
    target_label: String,
    requested_at: i128,
    updated_at: i128,
    status: OnboardingStatus,
    decided_by_user_id: Option<u64>,
    decided_at: Option<i128>,
    review_channel_id: Option<u64>,
    review_message_id: Option<u64>,
    provisioning_attempts: u32,
    provisioning_started_at: Option<i128>,
    authentik_user_id: Option<u64>,
    last_error: Option<String>,
    completed_at: Option<i128>,
}

impl View for OnboardingRequest {
    type V = RequestView;

    closed spec fn view(&self) -> RequestView {
        RequestView {
            id: self.id@,
            user_id: self.user_id,
            requested_by_user_id: self.requested_by_user_id,
            email: self.email@,
            display_name: self.display_name@,
            target_key: self.target_key@,
            target_label: self.target_label@,
            requested_at: self.requested_at,
            updated_at: self.updated_at,
            status: self.status,
            decided_by_user_id: self.decided_by_user_id,
            decided_at: self.decided_at,
            review_channel_id: self.review_channel_id,
            review_message_id: self.review_message_id,
            provisioning_attempts: self.provisioning_attempts,
            provisioning_started_at: self.provisioning_started_at,
            authentik_user_id: self.authentik_user_id,
            last_error: opt_text(self.last_error),
            completed_at: self.completed_at,
        }
    }
}

impl OnboardingRequest {
    #[allow(clippy::too_many_arguments)]
    pub fn from_persisted(
        id: OnboardingRequestId,
        user_id: u64,
        requested_by_user_id: u64,
        email: EmailAddress,
        display_name: DisplayName,
        target_key: String,
        target_label: String,
        requested_at: i128,
        updated_at: i128,
        status: OnboardingStatus,
        decided_by_user_id: Option<u64>,
        decided_at: Option<i128>,
        review_channel_id: Option<u64>,
        review_message_id: Option<u64>,
        provisioning_attempts: u32,
        provisioning_started_at: Option<i128>,
        authentik_user_id: Option<u64>,
        last_error: Option<String>,
        completed_at: Option<i128>,
    ) -> (r: Self)
        ensures
            r@ == (RequestView {
                id: id@,
                user_id,
                requested_by_user_id,
                email: email@,
                display_name: display_name@,
                target_key: target_key@,
                target_label: target_label@,
                requested_at,
                updated_at,
                status,
                decided_by_user_id,
                decided_at,
                review_channel_id,
                review_message_id,
                provisioning_attempts,
                provisioning_started_at,
                authentik_user_id,
                last_error: opt_text(last_error),
                completed_at,
            }),
    {
        OnboardingRequest {
            id,
            user_id,
            requested_by_user_id,
            email,
            display_name,
            target_key,
            target_label,
            requested_at,
            updated_at,
            status,
            decided_by_user_id,
            decided_at,
            review_channel_id,
            review_message_id,
            provisioning_attempts,
            provisioning_started_at,
            authentik_user_id,
            last_error,
            completed_at,
        }
    }

    pub fn id(&self) -> (v: OnboardingRequestId)
        ensures
            v@ == self@.id,
    {
        self.id
    }

    pub fn user_id(&self) -> (v: u64)
        ensures
            v == self@.user_id,
    {
        self.user_id
    }

    pub fn requested_by_user_id(&self) -> (v: u64)
        ensures
            v == self@.requested_by_user_id,
    {
        self.requested_by_user_id
    }

    pub fn email(&self) -> (v: &EmailAddress)
        ensures
            v@ == self@.email,
    {
        &self.email
    }

    pub fn display_name(&self) -> (v: &DisplayName)
        ensures
            v@ == self@.display_name,
    {
        &self.display_name
    }

    pub fn target_key(&self) -> (v: &str)
        ensures
            v@ == self@.target_key,
    {
        self.target_key.as_str()
    }

    pub fn target_label(&self) -> (v: &str)
        ensures
            v@ == self@.target_label,
    {
        self.target_label.as_str()
    }

    pub fn requested_at(&self) -> (v: i128)
        ensures
            v == self@.requested_at,
    {
        self.requested_at
    }

    pub fn updated_at(&self) -> (v: i128)
        ensures
            v == self@.updated_at,
    {
        self.updated_at
    }

    pub fn status(&self) -> (v: OnboardingStatus)
        ensures
            v == self@.status,
    {
        self.status
    }

    pub fn decided_by_user_id(&self) -> (v: Option<u64>)
        ensures
            v == self@.decided_by_user_id,
    {
        self.decided_by_user_id
    }

    pub fn decided_at(&self) -> (v: Option<i128>)
        ensures
            v == self@.decided_at,
    {
        self.decided_at
    }

    /// The review message's channel and message, when both are known.
    pub fn review_location(&self) -> (v: Option<(u64, u64)>)
        ensures
            v == (match (self@.review_channel_id, self@.review_message_id) {
                (Some(c), Some(m)) => Some((c, m)),
                _ => None,
            }),
    {
        match (self.review_channel_id, self.review_message_id) {
            (Some(c), Some(m)) => Some((c, m)),
            _ => None,
        }
    }

    pub fn provisioning_attempts(&self) -> (v: u32)
        ensures
            v == self@.provisioning_attempts,
    {
        self.provisioning_attempts
    }

    pub fn provisioning_started_at(&self) -> (v: Option<i128>)
        ensures
            v == self@.provisioning_started_at,
    {
        self.provisioning_started_at
    }

    pub fn authentik_user_id(&self) -> (v: Option<u64>)
        ensures
            v == self@.authentik_user_id,
    {
        self.authentik_user_id
    }

    pub fn last_error(&self) -> (v: Option<&str>)
        ensures
            v is Some <==> self@.last_error is Some,
            v matches Some(t) ==> self@.last_error == Some(t@),
    {
        match &self.last_error {
            Some(e) => Some(e.as_str()),
            None => None,
        }
    }

    pub fn completed_at(&self) -> (v: Option<i128>)
        ensures
            v == self@.completed_at,
    {
        self.completed_at
    }
}

// ---------------------------------------------------------------------------
// The workflow: how a stored request may change
// ---------------------------------------------------------------------------

/// How long a provisioning attempt may run before another may take over, in
/// nanoseconds (15 minutes).
pub const STALE_PROVISIONING_NANOS: i128 = 900_000_000_000i128;

/// The result of approving or denying a request.
#[derive(Debug)]
pub enum DecisionResult {
    Updated(OnboardingRequest),
    Missing,
    AlreadyHandled(OnboardingRequest),
}

/// The result of claiming a request for provisioning.
#[derive(Debug)]
pub enum ClaimProvisioningResult {
    Claimed(OnboardingRequest),
    Missing,
    Unavailable(OnboardingRequest),
}

/// Why a provisioning attempt could not be recorded.
#[derive(Debug, Clone, Copy, PartialEq, Eq, Structural)]
pub enum WorkflowError {
    /// The request is not being provisioned by this attempt any more.
    NotProvisioning,
    /// The attempt counter cannot grow further.
    AttemptLimit,
    /// The Authentik user ID does not fit the stored column.
    AuthentikIdTooLarge,
}

/// The largest value the stored attempt counter holds.
pub const MAX_STORED_ATTEMPTS: u32 = 2147483647u32;

/// Whether a request in `status` may be claimed for provisioning at `now`:
/// once approved, after a failure, or when a running attempt began at least
/// 15 minutes ago.
pub open spec fn claimable(r: RequestView, now: i128) -> bool {
    ||| r.status == OnboardingStatus::Approved
    ||| r.status == OnboardingStatus::Failed
    ||| r.status == OnboardingStatus::Provisioning && stale_since(r.provisioning_started_at, now)
}

/// Whether an attempt that started at `started` is stale at `now`.
pub open spec fn stale_since(started: Option<i128>, now: i128) -> bool {
    match started {
        Some(t) => t <= now - STALE_PROVISIONING_NANOS,
        None => false,
    }
}

/// The request once approved or denied (`status`) by `actor` at `now`; only
/// a pending request can be decided.
pub open spec fn decision(r: RequestView, status: OnboardingStatus, actor: u64, now: i128) -> Option<RequestView> {
    if r.status == OnboardingStatus::Pending {
        Some(
            RequestView {
                status,
                decided_by_user_id: Some(actor),
                decided_at: Some(now),
                updated_at: now,
                last_error: None,
                ..r
            },
        )
    } else {
        None
    }
}

/// The request once claimed at `now` for another provisioning attempt.
pub open spec fn claim(r: RequestView, now: i128) -> Option<RequestView> {
    if claimable(r, now) && r.provisioning_attempts < MAX_STORED_ATTEMPTS {
        Some(
            RequestView {
                status: OnboardingStatus::Provisioning,
                provisioning_attempts: (r.provisioning_attempts + 1) as u32,
                provisioning_started_at: Some(now),
                updated_at: now,
                last_error: None,
                ..r
            },
        )
    } else {
        None
    }
}

/// The request once attempt `attempt` completed at `now` with the Authentik
/// user `authentik_user_id`; only the running attempt can complete.
pub open spec fn completion(r: RequestView, authentik_user_id: u64, attempt: u32, now: i128) -> Option<RequestView> {
    if authentik_user_id <= i64::MAX && attempt <= MAX_STORED_ATTEMPTS && r.status
        == OnboardingStatus::Provisioning && r.provisioning_attempts == attempt {
        Some(
            RequestView {
                status: OnboardingStatus::Completed,
                authentik_user_id: Some(authentik_user_id),
                last_error: None,
                completed_at: Some(now),
                updated_at: now,
                ..r
            },
        )
    } else {
        None
    }
}

/// The request once attempt `attempt` failed at `now` with `error`; only the
/// running attempt can fail.
pub open spec fn failure(r: RequestView, error: Seq<char>, attempt: u32, now: i128) -> Option<RequestView> {
    if attempt <= MAX_STORED_ATTEMPTS && r.status == OnboardingStatus::Provisioning
        && r.provisioning_attempts == attempt {
        Some(
            RequestView {
                status: OnboardingStatus::Failed,
                last_error: Some(sanitized_error(error)),
                updated_at: now,
                ..r
            },
        )
    } else {
        None
    }
}

/// `s` without its control characters (space is kept).
pub open spec fn without_controls(s: Seq<char>) -> Seq<char>
    decreases s.len(),
{
    if s.len() == 0 {
        Seq::empty()
    } else {
        let init = without_controls(s.drop_last());
        if is_control(s.last()) && s.last() != ' ' {
            init
        } else {
            init.push(s.last())
        }
    }
}

/// An error as it is stored: without control characters, cut to 500
/// characters.
pub open spec fn sanitized_error(s: Seq<char>) -> Seq<char> {
    let kept = without_controls(s);
    if kept.len() <= 500 {
        kept
    } else {
        kept.take(500)
    }
}

/// Prepares an error message for storage.
pub fn sanitize_error(error: &str) -> (s: String)
    ensures
        s@ == sanitized_error(error@),
{
    let chars = chars_of(error);
    let mut kept: Vec<char> = Vec::new();
    for i in 0..chars.len()
        invariant
            kept@ == without_controls(chars@.take(i as int)),
    {
        let c = chars[i];
        assert(chars@.take(i + 1).drop_last() == chars@.take(i as int));
        if !char_is_control(c) || c == ' ' {
            kept.push(c);
        }
    }
    assert(chars@.take(chars.len() as int) == chars@);
    let mut out: Vec<char> = Vec::new();
    let limit: usize = if kept.len() <= 500 {
        kept.len()
    } else {
        500
    };
    for i in 0..limit
        invariant
            limit <= kept.len(),
            out@ == kept@.take(i as int),
    {
        out.push(kept[i]);
        assert(kept@.take(i + 1) == kept@.take(i as int).push(kept@[i as int]));
    }
    assert(kept@.take(kept.len() as int) == kept@);
    string_from(&out)
}

impl OnboardingRequest {
    /// Approves or denies the request at `now` on behalf of `actor`: only a
    /// pending request can be decided; any other comes back unchanged.
    pub fn decide(self, status: OnboardingStatus, actor_user_id: u64, now: i128) -> (r: DecisionResult)
        requires
            status == OnboardingStatus::Approved || status == OnboardingStatus::Denied,
        ensures
            match r {
                DecisionResult::Updated(u) => decision(self@, status, actor_user_id, now) == Some(u@),
                DecisionResult::AlreadyHandled(u) => decision(self@, status, actor_user_id, now)
                    is None && u@ == self@,
                DecisionResult::Missing => false,
            },
    {
        if self.status != OnboardingStatus::Pending {
            return DecisionResult::AlreadyHandled(self);
        }
        DecisionResult::Updated(
            OnboardingRequest {
                status,
                decided_by_user_id: Some(actor_user_id),
                decided_at: Some(now),
                updated_at: now,
                last_error: None,
                ..self
            },
        )
    }

    /// Claims the request for a new provisioning attempt at `now`.
    pub fn claim_provisioning(self, now: i128) -> (r: Result<ClaimProvisioningResult, WorkflowError>)
        ensures
            match r {
                Ok(ClaimProvisioningResult::Claimed(u)) => claim(self@, now) == Some(u@),
                Ok(ClaimProvisioningResult::Unavailable(u)) => !claimable(self@, now) && u@ == self@,
                Ok(ClaimProvisioningResult::Missing) => false,
                Err(e) => claimable(self@, now) && self@.provisioning_attempts >= MAX_STORED_ATTEMPTS
                    && e == WorkflowError::AttemptLimit,
            },
    {
        let stale = match self.provisioning_started_at {
            Some(t) => match now.checked_sub(STALE_PROVISIONING_NANOS) {
                Some(limit) => t <= limit,
                None => false,
            },
            None => false,
        };
        let can_claim = self.status == OnboardingStatus::Approved || self.status
            == OnboardingStatus::Failed || (self.status == OnboardingStatus::Provisioning && stale);
        if !can_claim {
            return Ok(ClaimProvisioningResult::Unavailable(self));
        }
        if self.provisioning_attempts >= MAX_STORED_ATTEMPTS {
            return Err(WorkflowError::AttemptLimit);
        }
        let attempts = self.provisioning_attempts + 1;
        Ok(
            ClaimProvisioningResult::Claimed(
                OnboardingRequest {
                    status: OnboardingStatus::Provisioning,
                    provisioning_attempts: attempts,
                    provisioning_started_at: Some(now),
                    updated_at: now,
                    last_error: None,
                    ..self
                },
            ),
        )
    }

    /// Records at `now` that provisioning attempt `attempt` created or found
    /// the Authentik user `authentik_user_id`; a later attempt or another
    /// state refuses it.
    pub fn mark_completed(self, authentik_user_id: u64, attempt: u32, now: i128) -> (r: Result<OnboardingRequest, WorkflowError>)
        ensures
            match r {
                Ok(u) => completion(self@, authentik_user_id, attempt, now) == Some(u@),
                Err(e) => e == (if authentik_user_id > i64::MAX {
                    WorkflowError::AuthentikIdTooLarge
                } else if attempt > MAX_STORED_ATTEMPTS {
                    WorkflowError::AttemptLimit
                } else {
                    WorkflowError::NotProvisioning
                }) && completion(self@, authentik_user_id, attempt, now) is None,
            },
    {
        if authentik_user_id > 9223372036854775807u64 {
            return Err(WorkflowError::AuthentikIdTooLarge);
        }
        if attempt > MAX_STORED_ATTEMPTS {
            return Err(WorkflowError::AttemptLimit);
        }
        if self.status != OnboardingStatus::Provisioning || self.provisioning_attempts != attempt {
            return Err(WorkflowError::NotProvisioning);
        }
        Ok(
            OnboardingRequest {
                status: OnboardingStatus::Completed,
                authentik_user_id: Some(authentik_user_id),
                last_error: None,
                completed_at: Some(now),
                updated_at: now,
                ..self
            },
        )
    }

    /// Records at `now` that provisioning attempt `attempt` failed with
    /// `safe_error`, stored sanitized; a later attempt or another state
    /// refuses it.
    pub fn mark_failed(self, safe_error: &str, attempt: u32, now: i128) -> (r: Result<OnboardingRequest, WorkflowError>)
        ensures
            match r {
                Ok(u) => failure(self@, safe_error@, attempt, now) == Some(u@),
                Err(e) => e == (if attempt > MAX_STORED_ATTEMPTS {
                    WorkflowError::AttemptLimit
                } else {
                    WorkflowError::NotProvisioning
                }) && failure(self@, safe_error@, attempt, now) is None,
            },
    {
        let stored = sanitize_error(safe_error);
        if attempt > MAX_STORED_ATTEMPTS {
            return Err(WorkflowError::AttemptLimit);
        }
        if self.status != OnboardingStatus::Provisioning || self.provisioning_attempts != attempt {
            return Err(WorkflowError::NotProvisioning);
        }
        Ok(
            OnboardingRequest {
                status: OnboardingStatus::Failed,
                last_error: Some(stored),
                updated_at: now,
                ..self
            },
        )
    }

    /// Records at `now` where the request's review message was posted.
    pub fn with_review_message(self, channel_id: u64, message_id: u64, now: i128) -> (u: OnboardingRequest)
        ensures
            u@ == (RequestView {
                review_channel_id: Some(channel_id),
                review_message_id: Some(message_id),
                updated_at: now,
                ..self@
            }),
    {
        OnboardingRequest {
            review_channel_id: Some(channel_id),
            review_message_id: Some(message_id),
            updated_at: now,
            ..self
        }
    }

    /// Whether this request stops a new one for the same member and target:
    /// any request that was not denied does.
    pub fn blocks_new_request(&self, user_id: u64, target_key: &str) -> (b: bool)
        ensures
            b == (self@.status != OnboardingStatus::Denied && self@.user_id == user_id
                && self@.target_key == target_key@),
    {
        self.status != OnboardingStatus::Denied && self.user_id == user_id && same_chars(
            &chars_of(self.target_key.as_str()),
            &chars_of(target_key),
        )
    }
}

/// Of two decisions on one request, only the first takes effect: once a
/// pending request is approved or denied, no further decision applies.
pub proof fn lemma_only_one_decision_wins(
    r: RequestView,
    first: OnboardingStatus,
    second: OnboardingStatus,
    first_actor: u64,
    second_actor: u64,
    first_at: i128,
    second_at: i128,
)
    requires
        first == OnboardingStatus::Approved || first == OnboardingStatus::Denied,
        r.status == OnboardingStatus::Pending,
    ensures
        decision(r, first, first_actor, first_at) is Some,
        decision(decision(r, first, first_actor, first_at)->0, second, second_actor, second_at) is None,
{
}

/// A failed provisioning attempt can be retried.
pub proof fn lemma_failed_provisioning_can_be_retried(r: RequestView, error: Seq<char>, attempt: u32, failed_at: i128, retry_at: i128)
    requires
        failure(r, error, attempt, failed_at) is Some,
        attempt < MAX_STORED_ATTEMPTS,
    ensures
        claim(failure(r, error, attempt, failed_at)->0, retry_at) is Some,
        claim(failure(r, error, attempt, failed_at)->0, retry_at)->0.provisioning_attempts == attempt + 1,
{
}

/// A running attempt's failure is recorded only by that attempt: for a
/// request in provisioning whose attempt count fits the stored column, a
/// failure applies exactly when it names the current attempt, and then marks
/// the request failed with the cleaned error. Any other attempt leaves the
/// request as it was, so the current attempt can still complete it.
pub proof fn lemma_only_the_current_attempt_fails(
    r: RequestView,
    error: Seq<char>,
    attempt: u32,
    now: i128,
    authentik_user_id: u64,
    later: i128,
)
    requires
        r.status == OnboardingStatus::Provisioning,
        r.provisioning_attempts <= MAX_STORED_ATTEMPTS,
        authentik_user_id <= i64::MAX,
    ensures
        failure(r, error, attempt, now) is Some <==> attempt == r.provisioning_attempts,
        failure(r, error, attempt, now) matches Some(f) ==> f.status == OnboardingStatus::Failed
            && f.last_error == Some(sanitized_error(error)),
        attempt != r.provisioning_attempts ==> (completion(
            r,
            authentik_user_id,
            r.provisioning_attempts,
            later,
        ) matches Some(done) && done.status == OnboardingStatus::Completed),
{
}

/// Once a stale attempt is taken over by a retry, the stale attempt can
/// neither fail nor complete the request; the retry can complete it.
pub proof fn lemma_stale_attempt_cannot_overwrite_retry(
    r: RequestView,
    first_at: i128,
    retry_at: i128,
    late_at: i128,
    error: Seq<char>,
    authentik_user_id: u64,
)
    requires
        claim(r, first_at) is Some,
        claim(claim(r, first_at)->0, retry_at) is Some,
        authentik_user_id <= i64::MAX,
    ensures
        ({
            let first = claim(r, first_at)->0;
            let retry = claim(first, retry_at)->0;
            &&& failure(retry, error, first.provisioning_attempts, late_at) is None
            &&& completion(retry, authentik_user_id, first.provisioning_attempts, late_at) is None
            &&& completion(retry, authentik_user_id, retry.provisioning_attempts, late_at) matches Some(done)
                && done.status == OnboardingStatus::Completed
        }),
{
}

/// Denied and completed requests are final: no decision, claim, completion
/// or failure applies to them; and no transition makes a request pending.
pub proof fn lemma_final_states(r: RequestView, status: OnboardingStatus, actor: u64, now: i128, user: u64, attempt: u32, error: Seq<char>)
    ensures
        (r.status == OnboardingStatus::Denied || r.status == OnboardingStatus::Completed) ==> {
            &&& decision(r, status, actor, now) is None
            &&& claim(r, now) is None
            &&& completion(r, user, attempt, now) is None
            &&& failure(r, error, attempt, now) is None
        },
        claim(r, now) matches Some(c) ==> c.status == OnboardingStatus::Provisioning,
        completion(r, user, attempt, now) matches Some(c) ==> c.status == OnboardingStatus::Completed,
        failure(r, error, attempt, now) matches Some(c) ==> c.status == OnboardingStatus::Failed,
{
}

/// What the audit trail records of a request.
#[derive(Debug, Clone, Copy, PartialEq, Eq, Structural)]
pub enum AuditKind {
    RequestCreated,
    ReviewSynchronized,
    Approved,
    Denied,
    ProvisioningStarted,
    ProvisioningCompleted,
    ProvisioningFailed,
}

pub open spec fn audit_event_type(k: AuditKind) -> Seq<char> {
    match k {
        AuditKind::RequestCreated => "onboarding.request_created"@,
        AuditKind::ReviewSynchronized => "onboarding.review_synchronized"@,
        AuditKind::Approved => "onboarding.approved"@,
        AuditKind::Denied => "onboarding.denied"@,
        AuditKind::ProvisioningStarted => "onboarding.provisioning_started"@,
        AuditKind::ProvisioningCompleted => "onboarding.provisioning_completed"@,
        AuditKind::ProvisioningFailed => "onboarding.provisioning_failed"@,
    }
}

pub open spec fn audit_outcome(k: AuditKind) -> Seq<char> {
    match k {
        AuditKind::RequestCreated => "created"@,
        AuditKind::ReviewSynchronized => "posted"@,
        AuditKind::Approved => "approved"@,
        AuditKind::Denied => "denied"@,
        AuditKind::ProvisioningStarted => "started"@,
        AuditKind::ProvisioningCompleted => "completed"@,
        AuditKind::ProvisioningFailed => "failed"@,
    }
}

impl AuditKind {
    /// The audit record of a decision to `status`.
    pub fn of_decision(status: OnboardingStatus) -> (k: AuditKind)
        requires
            status == OnboardingStatus::Approved || status == OnboardingStatus::Denied,
        ensures
            k == (if status == OnboardingStatus::Approved {
                AuditKind::Approved
            } else {
                AuditKind::Denied
            }),
    {
        if status == OnboardingStatus::Approved {
            AuditKind::Approved
        } else {
            AuditKind::Denied
        }
    }

    pub fn event_type(&self) -> (s: &'static str)
        ensures
            s@ == audit_event_type(*self),
    {
        match self {
            AuditKind::RequestCreated => "onboarding.request_created",
            AuditKind::ReviewSynchronized => "onboarding.review_synchronized",
            AuditKind::Approved => "onboarding.approved",
            AuditKind::Denied => "onboarding.denied",
            AuditKind::ProvisioningStarted => "onboarding.provisioning_started",
            AuditKind::ProvisioningCompleted => "onboarding.provisioning_completed",
            AuditKind::ProvisioningFailed => "onboarding.provisioning_failed",
        }
    }

    pub fn outcome(&self) -> (s: &'static str)
        ensures
            s@ == audit_outcome(*self),
    {
        match self {
            AuditKind::RequestCreated => "created",
            AuditKind::ReviewSynchronized => "posted",
            AuditKind::Approved => "approved",
            AuditKind::Denied => "denied",
            AuditKind::ProvisioningStarted => "started",
            AuditKind::ProvisioningCompleted => "completed",
            AuditKind::ProvisioningFailed => "failed",
        }
    }
}

/// Provisioning never rewrites a decision: claiming, completing and failing
/// keep who decided the request and when, as well as its member, target and
/// identity.
pub proof fn lemma_decision_is_preserved(r: RequestView, now: i128, user: u64, attempt: u32, error: Seq<char>)
    ensures
        claim(r, now) matches Some(c) ==> c.decided_by_user_id == r.decided_by_user_id && c.decided_at
            == r.decided_at && c.user_id == r.user_id && c.target_key == r.target_key && c.email == r.email,
        completion(r, user, attempt, now) matches Some(c) ==> c.decided_by_user_id == r.decided_by_user_id
            && c.decided_at == r.decided_at && c.user_id == r.user_id && c.target_key == r.target_key,
        failure(r, error, attempt, now) matches Some(c) ==> c.decided_by_user_id == r.decided_by_user_id
            && c.decided_at == r.decided_at && c.user_id == r.user_id && c.target_key == r.target_key,
{
}

proof fn lemma_without_controls(s: Seq<char>)
    ensures
        without_controls(s).len() <= s.len(),
        forall|i: int| 0 <= i < without_controls(s).len() ==> !is_control(#[trigger] without_controls(s)[i])
            || without_controls(s)[i] == ' ',
    decreases s.len(),
{
    if s.len() > 0 {
        lemma_without_controls(s.drop_last());
    }
}

/// A stored error is at most 500 characters long and holds no control
/// character.
pub proof fn lemma_sanitized_error_is_safe(s: Seq<char>)
    ensures
        sanitized_error(s).len() <= 500,
        forall|i: int| 0 <= i < sanitized_error(s).len() ==> !is_control(#[trigger] sanitized_error(s)[i]),
{
    lemma_without_controls(s);
    let kept = without_controls(s);
    assert forall|i: int| 0 <= i < sanitized_error(s).len() implies !is_control(#[trigger] sanitized_error(s)[i]) by {
        assert(sanitized_error(s)[i] == kept[i]);
        assert(!is_control(' '));
    }
}


/// Which requests can be claimed: an approved one, a failed one, or one whose
/// running attempt began at least 15 minutes (900 000 000 000 ns) before
/// `now`. A pending, denied or completed request is never claimed, and a
/// claim makes the request provisioning with one more attempt.
pub proof fn lemma_claimable_requests(r: RequestView, now: i128)
    ensures
        claim(r, now) is Some ==> (r.status == OnboardingStatus::Approved || r.status
            == OnboardingStatus::Failed || (r.status == OnboardingStatus::Provisioning
            && r.provisioning_started_at is Some && r.provisioning_started_at->0 <= now - 900_000_000_000)),
        claimable(r, now) <==> (r.status == OnboardingStatus::Approved || r.status
            == OnboardingStatus::Failed || (r.status == OnboardingStatus::Provisioning
            && r.provisioning_started_at is Some && r.provisioning_started_at->0 <= now - 900_000_000_000)),
        r.status == OnboardingStatus::Pending || r.status == OnboardingStatus::Denied || r.status
            == OnboardingStatus::Completed ==> claim(r, now) is None,
        claim(r, now) matches Some(c) ==> c.status == OnboardingStatus::Provisioning
            && c.provisioning_attempts == r.provisioning_attempts + 1,
{
}

} // verus!
