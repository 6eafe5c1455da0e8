//! The texts and decisions of the onboarding commands: review buttons,
//! target lookup and permission, status reports and provisioning outcomes.
use vstd::prelude::*;
use crate::config::targets::{OnboardingTargetConfig, TargetView, target_views};
use crate::decimal::{decimal, decimal_chars, lemma_parse_signed_decimal, parse_i64, signed_decimal, signed_decimal_chars};
use crate::domain::onboarding::{OnboardingRequest, OnboardingRequestId, OnboardingStatus, RequestView, status_name};
use crate::domain::verification::{IdentityView, VerifiedIdentity, email_text};
use crate::text::{
    append_chars, append_str, chars_of, contains_seq, contains_substring, eq_ignore_ascii_case,
    eq_ignore_case, lowercase, lowercased, same_chars, string_from, trim, trim_str,
};

verus! {

// ---------------------------------------------------------------------------
// Review buttons
// ---------------------------------------------------------------------------

/// What a review button asks for.
#[derive(Debug, Clone, Copy, PartialEq, Eq, Structural)]
pub enum OnboardingAction {
    Approve,
    Deny,
}

pub open spec fn action_prefix(action: OnboardingAction) -> Seq<char> {
    match action {
        OnboardingAction::Approve => "onboard:approve:"@,
        OnboardingAction::Deny => "onboard:deny:"@,
    }
}

/// `s` without `prefix`, when it starts with it (`str::strip_prefix`).
pub open spec fn strip_prefix(s: Seq<char>, prefix: Seq<char>) -> Option<Seq<char>> {
    if prefix.len() <= s.len() && s.take(prefix.len() as int) == prefix {
        Some(s.skip(prefix.len() as int))
    } else {
        None
    }
}

/// A positive request ID written as an `i64`.
pub open spec fn request_id_in(text: Seq<char>) -> Option<i64> {
    match parse_i64(text) {
        Some(v) => if v > 0 {
            Some(v as i64)
        } else {
            None
        },
        None => None,
    }
}

/// What a button's custom ID asks for: the approve prefix is tried first.
pub open spec fn custom_id_result(custom_id: Seq<char>) -> Option<(OnboardingAction, i64)> {
    match strip_prefix(custom_id, "onboard:approve:"@) {
        Some(rest) => match request_id_in(rest) {
            Some(id) => Some((OnboardingAction::Approve, id)),
            None => None,
        },
        None => match strip_prefix(custom_id, "onboard:deny:"@) {
            Some(rest) => match request_id_in(rest) {
                Some(id) => Some((OnboardingAction::Deny, id)),
                None => None,
            },
            None => None,
        },
    }
}

fn strip_prefix_chars(s: &Vec<char>, prefix: &str) -> (r: Option<String>)
    ensures
        match r {
            Some(rest) => strip_prefix(s@, prefix@) == Some(rest@),
            None => strip_prefix(s@, prefix@) is None,
        },
{
    let p = chars_of(prefix);
    if p.len() > s.len() {
        return None;
    }
    for i in 0..p.len()
        invariant
            p@ == prefix@,
            p.len() <= s.len(),
            forall|k: int| 0 <= k < i ==> s@[k] == p@[k],
    {
        if s[i] != p[i] {
            assert(s@.take(p.len() as int)[i as int] != p@[i as int]);
            return None;
        }
    }
    assert(s@.take(p.len() as int) =~= p@);
    let mut rest: Vec<char> = Vec::new();
    let mut k = p.len();
    while k < s.len()
        invariant
            p.len() <= k <= s.len(),
            rest@ == s@.subrange(p.len() as int, k as int),
        decreases s.len() - k,
    {
        rest.push(s[k]);
        assert(s@.subrange(p.len() as int, k + 1) == s@.subrange(p.len() as int, k as int).push(
            s@[k as int],
        ));
        k = k + 1;
    }
    assert(s@.subrange(p.len() as int, s.len() as int) == s@.skip(p.len() as int));
    Some(string_from(&rest))
}

/// Reads the custom ID of a review button: `onboard:approve:` or
/// `onboard:deny:` followed by a positive request ID.
pub fn parse_onboarding_custom_id(custom_id: &str) -> (r: Option<(OnboardingAction, OnboardingRequestId)>)
    ensures
        match r {
            Some((action, id)) => custom_id_result(custom_id@) == Some((action, id@)),
            None => custom_id_result(custom_id@) is None,
        },
{
    let chars = chars_of(custom_id);
    if let Some(rest) = strip_prefix_chars(&chars, "onboard:approve:") {
        return match OnboardingRequestId::parse(rest.as_str()) {
            Some(id) => Some((OnboardingAction::Approve, id)),
            None => None,
        };
    }
    match strip_prefix_chars(&chars, "onboard:deny:") {
        Some(rest) => match OnboardingRequestId::parse(rest.as_str()) {
            Some(id) => Some((OnboardingAction::Deny, id)),
            None => None,
        },
        None => None,
    }
}

/// The custom ID of the button that asks for `action` on request `id`.
pub open spec fn custom_id_of(action: OnboardingAction, id: i64) -> Seq<char> {
    action_prefix(action) + signed_decimal(id as int)
}

pub fn custom_id(action: OnboardingAction, id: OnboardingRequestId) -> (s: String)
    ensures
        s@ == custom_id_of(action, id@),
{
    let mut out: Vec<char> = Vec::new();
    match action {
        OnboardingAction::Approve => append_str(&mut out, "onboard:approve:"),
        OnboardingAction::Deny => append_str(&mut out, "onboard:deny:"),
    }
    append_chars(&mut out, &signed_decimal_chars(id.get()));
    string_from(&out)
}

/// Reading back the custom ID of a review button gives back its action and
/// request ID.
pub proof fn lemma_custom_id_round_trip(action: OnboardingAction, id: i64)
    requires
        id > 0,
    ensures
        custom_id_result(custom_id_of(action, id)) == Some((action, id)),
{
    reveal_strlit("onboard:approve:");
    reveal_strlit("onboard:deny:");
    lemma_parse_signed_decimal(id);
    let text = custom_id_of(action, id);
    let digits = signed_decimal(id as int);
    let prefix = action_prefix(action);
    assert(text.take(prefix.len() as int) =~= prefix);
    assert(text.skip(prefix.len() as int) =~= digits);
    if action == OnboardingAction::Deny {
        let approve = "onboard:approve:"@;
        assert(text[8] == 'd');
        if approve.len() <= text.len() {
            assert(text.take(approve.len() as int)[8] == text[8]);
            assert(text.take(approve.len() as int) != approve);
        }
        assert(strip_prefix(text, approve) is None);
    }
}

/// The custom IDs of the approve and deny buttons of a review message; a
/// request that is no longer pending gets no buttons.
pub fn review_buttons(request: &OnboardingRequest) -> (r: Option<(String, String)>)
    ensures
        match r {
            Some((approve, deny)) => request@.status == OnboardingStatus::Pending
                && approve@ == custom_id_of(OnboardingAction::Approve, request@.id)
                && deny@ == custom_id_of(OnboardingAction::Deny, request@.id),
            None => request@.status != OnboardingStatus::Pending,
        },
{
    if request.status() != OnboardingStatus::Pending {
        return None;
    }
    Some((custom_id(OnboardingAction::Approve, request.id()), custom_id(OnboardingAction::Deny, request.id())))
}

// ---------------------------------------------------------------------------
// Targets and permissions
// ---------------------------------------------------------------------------

/// The position of the first target whose key equals `key` trimmed, ignoring
/// ASCII case.
pub open spec fn target_position(targets: Seq<TargetView>, key: Seq<char>) -> Option<int>
    decreases targets.len(),
{
    if targets.len() == 0 {
        None
    } else {
        match target_position(targets.drop_last(), key) {
            Some(i) => Some(i),
            None => if eq_ignore_case(targets.last().key, trim(key)) {
                Some(targets.len() - 1)
            } else {
                None
            },
        }
    }
}

proof fn lemma_target_position_found(targets: Seq<TargetView>, key: Seq<char>, n: int)
    requires
        0 <= n <= targets.len(),
        target_position(targets.take(n), key) is Some,
    ensures
        target_position(targets, key) == target_position(targets.take(n), key),
    decreases targets.len() - n,
{
    if n < targets.len() {
        assert(targets.drop_last().take(n) == targets.take(n));
        lemma_target_position_found(targets.drop_last(), key, n);
    } else {
        assert(targets.take(n) == targets);
    }
}

/// The position of the first configured target whose key is `key`
/// (trimmed), ignoring ASCII case.
pub fn find_target_index(targets: &Vec<OnboardingTargetConfig>, key: &str) -> (r: Option<usize>)
    ensures
        match target_position(target_views(targets@), key@) {
            Some(i) => r matches Some(j) && j as int == i && 0 <= i < targets@.len(),
            None => r is None,
        },
{
    let wanted = trim_str(key);
    let ghost views = target_views(targets@);
    let mut i: usize = 0;
    while i < targets.len()
        invariant
            i <= targets@.len(),
            views == target_views(targets@),
            wanted@ == trim(key@),
            target_position(views.take(i as int), key@) is None,
        decreases targets.len() - i,
    {
        let ghost after = views.take(i + 1);
        assert(after.drop_last() == views.take(i as int));
        assert(after.last() == targets@[i as int]@);
        let k = chars_of(targets[i].key.as_str());
        if eq_ignore_ascii_case(&k, &wanted) {
            assert(target_position(after, key@) == Some(i as int));
            proof {
                lemma_target_position_found(views, key@, i + 1);
            }
            return Some(i);
        }
        i = i + 1;
    }
    assert(views.take(targets.len() as int) == views);
    None
}

/// The first configured target whose key is `key` (trimmed), ignoring ASCII
/// case.
pub fn find_target<'a>(targets: &'a Vec<OnboardingTargetConfig>, key: &str) -> (r: Option<&'a OnboardingTargetConfig>)
    ensures
        match target_position(target_views(targets@), key@) {
            Some(i) => 0 <= i < targets@.len() && r == Some(&targets@[i]),
            None => r is None,
        },
{
    match find_target_index(targets, key) {
        Some(i) => Some(&targets[i]),
        None => None,
    }
}

/// Whether a member holding `roles` may manage a target approved by `approvers`.
pub open spec fn approves(roles: Seq<u64>, approvers: Seq<u64>) -> bool {
    exists|i: int| 0 <= i < approvers.len() && roles.contains(#[trigger] approvers[i])
}

fn holds_role(roles: &Vec<u64>, role: u64) -> (r: bool)
    ensures
        r == roles@.contains(role),
{
    for i in 0..roles.len()
        invariant
            forall|k: int| 0 <= k < i ==> roles@[k] != role,
    {
        if roles[i] == role {
            return true;
        }
    }
    false
}

/// Whether a member with the Discord roles `member_roles` holds one of the
/// target's approver roles.
pub fn can_approve_target(member_roles: &Vec<u64>, target: &OnboardingTargetConfig) -> (r: bool)
    ensures
        r == approves(member_roles@, target.approver_role_ids@),
{
    for i in 0..target.approver_role_ids.len()
        invariant
            forall|k: int| 0 <= k < i ==> !member_roles@.contains(#[trigger] target.approver_role_ids@[k]),
    {
        if holds_role(member_roles, target.approver_role_ids[i]) {
            return true;
        }
    }
    false
}

/// The keys of the targets a member may manage, in configuration order.
pub open spec fn approvable_keys(targets: Seq<TargetView>, roles: Seq<u64>) -> Seq<Seq<char>>
    decreases targets.len(),
{
    if targets.len() == 0 {
        Seq::empty()
    } else {
        let init = approvable_keys(targets.drop_last(), roles);
        if approves(roles, targets.last().approver_role_ids) {
            init.push(targets.last().key)
        } else {
            init
        }
    }
}

/// Each key in backticks, separated by `, `.
pub open spec fn quoted_list(keys: Seq<Seq<char>>) -> Seq<char>
    decreases keys.len(),
{
    if keys.len() == 0 {
        Seq::empty()
    } else if keys.len() == 1 {
        "`"@ + keys[0] + "`"@
    } else {
        quoted_list(keys.drop_last()) + ", `"@ + keys.last() + "`"@
    }
}

/// The targets a member may manage, for an error message: their keys in
/// backticks, or `none`.
pub open spec fn available_targets_text(targets: Seq<TargetView>, roles: Seq<u64>) -> Seq<char> {
    let keys = approvable_keys(targets, roles);
    if keys.len() == 0 {
        "none"@
    } else {
        quoted_list(keys)
    }
}

pub fn available_targets_for_member(targets: &Vec<OnboardingTargetConfig>, member_roles: &Vec<u64>) -> (s: String)
    ensures
        s@ == available_targets_text(target_views(targets@), member_roles@),
{
    let ghost views = target_views(targets@);
    let mut out: Vec<char> = Vec::new();
    let mut count: usize = 0;
    for i in 0..targets.len()
        invariant
            views == target_views(targets@),
            count == approvable_keys(views.take(i as int), member_roles@).len(),
            out@ == quoted_list(approvable_keys(views.take(i as int), member_roles@)),
            count <= i,
    {
        let ghost after = views.take(i + 1);
        assert(after.drop_last() == views.take(i as int));
        assert(after.last() == targets@[i as int]@);
        if can_approve_target(member_roles, &targets[i]) {
            if count > 0 {
                append_str(&mut out, ", `");
            } else {
                append_str(&mut out, "`");
            }
            append_str(&mut out, targets[i].key.as_str());
            append_str(&mut out, "`");
            proof {
                let keys = approvable_keys(after, member_roles@);
                assert(keys.drop_last() == approvable_keys(views.take(i as int), member_roles@));
                if count == 0 {
                    assert(keys.len() == 1);
                    assert(keys[0] == keys.last());
                }
            }
            count = count + 1;
        }
    }
    assert(views.take(targets.len() as int) == views);
    if count == 0 {
        String::from_str("none")
    } else {
        string_from(&out)
    }
}

// ---------------------------------------------------------------------------
// Completion message
// ---------------------------------------------------------------------------

/// The direct message a member gets when onboarding is complete.
pub open spec fn completion_text(
    target_label: Seq<char>,
    verified_email: Seq<char>,
    authentik_username: Seq<char>,
    authentik_login_url: Seq<char>,
    recovery_link: Seq<char>,
    headscale_login_url: Seq<char>,
    completion_url: Seq<char>,
) -> Seq<char> {
    "Your SSE onboarding for "@ + target_label + " is complete.\n\n**Authentik account**\nVerified email: `"@
        + verified_email + "`\nUsername: `"@ + authentik_username
        + "`\nCreate your password within 30 minutes: <"@ + recovery_link + ">\nSign in: "@
        + authentik_login_url
        + "\n\n**Connect with Tailscale**\n1. Download and install Tailscale: https://tailscale.com/download\n2. Run this command:\n```sh\ntailscale login --login-server "@
        + headscale_login_url
        + "\n```\n3. In the browser, sign in using the verified email above."@ + (if completion_url
        != headscale_login_url {
        "\n\nAdditional access: "@ + completion_url
    } else {
        Seq::empty()
    })
}

pub fn completion_message(
    target_label: &str,
    verified_email: &str,
    authentik_username: &str,
    authentik_login_url: &str,
    recovery_link: &str,
    headscale_login_url: &str,
    completion_url: &str,
) -> (s: String)
    ensures
        s@ == completion_text(
            target_label@,
            verified_email@,
            authentik_username@,
            authentik_login_url@,
            recovery_link@,
            headscale_login_url@,
            completion_url@,
        ),
{
    let mut out: Vec<char> = Vec::new();
    append_str(&mut out, "Your SSE onboarding for ");
    append_str(&mut out, target_label);
    append_str(&mut out, " is complete.\n\n**Authentik account**\nVerified email: `");
    append_str(&mut out, verified_email);
    append_str(&mut out, "`\nUsername: `");
    append_str(&mut out, authentik_username);
    append_str(&mut out, "`\nCreate your password within 30 minutes: <");
    append_str(&mut out, recovery_link);
    append_str(&mut out, ">\nSign in: ");
    append_str(&mut out, authentik_login_url);
    append_str(
        &mut out,
        "\n\n**Connect with Tailscale**\n1. Download and install Tailscale: https://tailscale.com/download\n2. Run this command:\n```sh\ntailscale login --login-server ",
    );
    append_str(&mut out, headscale_login_url);
    append_str(&mut out, "\n```\n3. In the browser, sign in using the verified email above.");
    let ghost body = out@;
    if !same_chars(&chars_of(completion_url), &chars_of(headscale_login_url)) {
        append_str(&mut out, "\n\nAdditional access: ");
        append_str(&mut out, completion_url);
        assert(out@ =~= body + ("\n\nAdditional access: "@ + completion_url@));
    } else {
        assert(out@ =~= body + Seq::<char>::empty());
    }
    string_from(&out)
}

// ---------------------------------------------------------------------------
// Status reports
// ---------------------------------------------------------------------------

/// A Discord mention of a user: `<@id>`.
pub open spec fn mention(id: u64) -> Seq<char> {
    "<@"@ + decimal(id as nat) + ">"@
}

/// What an officer sees of a request.
pub open spec fn status_content(r: RequestView) -> Seq<char> {
    "Status: `"@ + status_name(r.status) + "`\nTarget: "@ + r.target_label + "\nUser: "@ + mention(
        r.user_id,
    ) + "\nPreferred name: `"@ + r.display_name + "`\nRequested by: "@ + mention(
        r.requested_by_user_id,
    ) + "\nVerified email: `"@ + email_text(r.email) + "`\nRequest ID: `"@ + signed_decimal(
        r.id as int,
    ) + "`\nProvisioning attempts: "@ + decimal(r.provisioning_attempts as nat) + (
    match r.decided_by_user_id {
        Some(id) => "\nDecision by: "@ + mention(id),
        None => Seq::empty(),
    }) + (match r.last_error {
        Some(e) => "\nLast error: `"@ + e + "`"@,
        None => Seq::empty(),
    })
}

fn append_mention(out: &mut Vec<char>, id: u64)
    ensures
        final(out)@ == old(out)@ + mention(id),
{
    let ghost start = out@;
    append_str(out, "<@");
    append_chars(out, &decimal_chars(id));
    append_str(out, ">");
    assert(out@ =~= start + mention(id));
}

pub fn request_status_content(request: &OnboardingRequest) -> (s: String)
    ensures
        s@ == status_content(request@),
{
    let mut out: Vec<char> = Vec::new();
    append_str(&mut out, "Status: `");
    append_str(&mut out, request.status().as_str());
    append_str(&mut out, "`\nTarget: ");
    append_str(&mut out, request.target_label());
    append_str(&mut out, "\nUser: ");
    append_mention(&mut out, request.user_id());
    append_str(&mut out, "\nPreferred name: `");
    append_str(&mut out, request.display_name().as_str());
    append_str(&mut out, "`\nRequested by: ");
    append_mention(&mut out, request.requested_by_user_id());
    append_str(&mut out, "\nVerified email: `");
    append_str(&mut out, request.email().to_string().as_str());
    append_str(&mut out, "`\nRequest ID: `");
    append_chars(&mut out, &signed_decimal_chars(request.id().get()));
    append_str(&mut out, "`\nProvisioning attempts: ");
    append_chars(&mut out, &decimal_chars(request.provisioning_attempts() as u64));
    let ghost body = out@;
    match request.decided_by_user_id() {
        Some(id) => {
            append_str(&mut out, "\nDecision by: ");
            append_mention(&mut out, id);
            assert(out@ =~= body + ("\nDecision by: "@ + mention(id)));
        },
        None => {
            assert(out@ =~= body + Seq::<char>::empty());
        },
    }
    let ghost body2 = out@;
    match request.last_error() {
        Some(e) => {
            append_str(&mut out, "\nLast error: `");
            append_str(&mut out, e);
            append_str(&mut out, "`");
            assert(out@ =~= body2 + ("\nLast error: `"@ + e@ + "`"@));
        },
        None => {
            assert(out@ =~= body2 + Seq::<char>::empty());
        },
    }
    string_from(&out)
}

pub open spec fn review_content(r: RequestView) -> Seq<char> {
    "**Infrastructure onboarding request**\n"@ + status_content(r)
}

/// The text of a request's review message.
pub fn review_message_content(request: &OnboardingRequest) -> (s: String)
    ensures
        s@ == review_content(request@),
{
    let mut out: Vec<char> = Vec::new();
    append_str(&mut out, "**Infrastructure onboarding request**\n");
    append_str(&mut out, request_status_content(request).as_str());
    string_from(&out)
}

// ---------------------------------------------------------------------------
// Provisioning outcomes
// ---------------------------------------------------------------------------

/// How an attempt to provision a request ended.
#[derive(Debug, Clone, Copy, PartialEq, Eq, Structural)]
pub enum ProvisioningOutcome {
    Completed(OnboardingRequestId),
    Failed(OnboardingRequestId),
    Missing,
    Ineligible,
    Unauthorized,
    Unavailable(OnboardingStatus),
}

/// A provisioning outcome, with request IDs as numbers.
#[derive(Debug, Clone, Copy, PartialEq, Eq, Structural)]
pub enum OutcomeView {
    Completed(i64),
    Failed(i64),
    Missing,
    Ineligible,
    Unauthorized,
    Unavailable(OnboardingStatus),
}

impl View for ProvisioningOutcome {
    type V = OutcomeView;

    open spec fn view(&self) -> OutcomeView {
        match self {
            ProvisioningOutcome::Completed(id) => OutcomeView::Completed(id@),
            ProvisioningOutcome::Failed(id) => OutcomeView::Failed(id@),
            ProvisioningOutcome::Missing => OutcomeView::Missing,
            ProvisioningOutcome::Ineligible => OutcomeView::Ineligible,
            ProvisioningOutcome::Unauthorized => OutcomeView::Unauthorized,
            ProvisioningOutcome::Unavailable(s) => OutcomeView::Unavailable(*s),
        }
    }
}

/// What the officer is told of a provisioning outcome.
pub open spec fn outcome_text(outcome: ProvisioningOutcome) -> Seq<char> {
    match outcome {
        ProvisioningOutcome::Completed(id) => "Onboarding request `"@ + signed_decimal(id@ as int)
            + "` completed successfully."@,
        ProvisioningOutcome::Failed(id) => "Onboarding request `"@ + signed_decimal(id@ as int)
            + "` was approved, but provisioning failed. Inspect it with `/onboarding_status` and retry it with `/onboarding_retry`."@,
        ProvisioningOutcome::Missing => "That onboarding request does not exist."@,
        ProvisioningOutcome::Ineligible => "The target user is no longer eligible for this onboarding request. Confirm their Discord verification and persisted email before retrying."@,
        ProvisioningOutcome::Unauthorized => "You no longer have permission to provision that onboarding target."@,
        ProvisioningOutcome::Unavailable(status) => "That onboarding request cannot be provisioned while it is `"@
            + status_name(status) + "`."@,
    }
}

impl ProvisioningOutcome {
    pub fn message(&self) -> (s: String)
        ensures
            s@ == outcome_text(*self),
    {
        let mut out: Vec<char> = Vec::new();
        match self {
            ProvisioningOutcome::Completed(id) => {
                append_str(&mut out, "Onboarding request `");
                append_chars(&mut out, &signed_decimal_chars(id.get()));
                append_str(&mut out, "` completed successfully.");
            },
            ProvisioningOutcome::Failed(id) => {
                append_str(&mut out, "Onboarding request `");
                append_chars(&mut out, &signed_decimal_chars(id.get()));
                append_str(
                    &mut out,
                    "` was approved, but provisioning failed. Inspect it with `/onboarding_status` and retry it with `/onboarding_retry`.",
                );
            },
            ProvisioningOutcome::Missing => {
                append_str(&mut out, "That onboarding request does not exist.");
            },
            ProvisioningOutcome::Ineligible => {
                append_str(
                    &mut out,
                    "The target user is no longer eligible for this onboarding request. Confirm their Discord verification and persisted email before retrying.",
                );
            },
            ProvisioningOutcome::Unauthorized => {
                append_str(&mut out, "You no longer have permission to provision that onboarding target.");
            },
            ProvisioningOutcome::Unavailable(status) => {
                append_str(&mut out, "That onboarding request cannot be provisioned while it is `");
                append_str(&mut out, status.as_str());
                append_str(&mut out, "`.");
            },
        }
        string_from(&out)
    }
}

/// The messages of an error and of its causes, outermost first, joined by
/// `: `: what a failed provisioning records, free of any secret the causes
/// do not hold themselves.
pub open spec fn error_chain_text(chain: Seq<Seq<char>>) -> Seq<char>
    decreases chain.len(),
{
    if chain.len() == 0 {
        Seq::empty()
    } else if chain.len() == 1 {
        chain[0]
    } else {
        error_chain_text(chain.drop_last()) + ": "@ + chain.last()
    }
}

pub fn safe_provisioning_error(chain: &Vec<String>) -> (s: String)
    ensures
        s@ == error_chain_text(crate::text::texts(chain@)),
{
    let ghost views = crate::text::texts(chain@);
    let mut out: Vec<char> = Vec::new();
    for i in 0..chain.len()
        invariant
            views == crate::text::texts(chain@),
            out@ == error_chain_text(views.take(i as int)),
    {
        let ghost t = views.take(i + 1);
        assert(t.drop_last() == views.take(i as int));
        assert(t.last() == chain@[i as int]@);
        if i > 0 {
            append_str(&mut out, ": ");
        }
        append_str(&mut out, chain[i].as_str());
        proof {
            if i == 0 {
                assert(t.len() == 1);
                assert(t[0] == t.last());
                assert(out@ =~= t[0]);
            }
        }
    }
    assert(views.take(chain.len() as int) == views);
    string_from(&out)
}

// ---------------------------------------------------------------------------
// Replies of the onboarding command
// ---------------------------------------------------------------------------

/// What the requester is told once the request is stored and under review.
pub open spec fn request_ready_text(user_name: Seq<char>, target_label: Seq<char>, status: OnboardingStatus, id: i64) -> Seq<char> {
    let id_text = signed_decimal(id as int);
    match status {
        OnboardingStatus::Completed => user_name + " already has completed onboarding for "@
            + target_label + " (request `"@ + id_text + "`)."@,
        OnboardingStatus::Failed => user_name + "'s onboarding request `"@ + id_text
            + "` needs an officer retry."@,
        OnboardingStatus::Provisioning => user_name + "'s onboarding request `"@ + id_text
            + "` is currently provisioning."@,
        _ => user_name + "'s onboarding request `"@ + id_text + "` is waiting for approval."@,
    }
}

pub fn request_ready_message(user_name: &str, request: &OnboardingRequest) -> (s: String)
    ensures
        s@ == request_ready_text(user_name@, request@.target_label, request@.status, request@.id),
{
    let mut out: Vec<char> = Vec::new();
    append_str(&mut out, user_name);
    let id_text = signed_decimal_chars(request.id().get());
    match request.status() {
        OnboardingStatus::Completed => {
            append_str(&mut out, " already has completed onboarding for ");
            append_str(&mut out, request.target_label());
            append_str(&mut out, " (request `");
            append_chars(&mut out, &id_text);
            append_str(&mut out, "`).");
        },
        OnboardingStatus::Failed => {
            append_str(&mut out, "'s onboarding request `");
            append_chars(&mut out, &id_text);
            append_str(&mut out, "` needs an officer retry.");
        },
        OnboardingStatus::Provisioning => {
            append_str(&mut out, "'s onboarding request `");
            append_chars(&mut out, &id_text);
            append_str(&mut out, "` is currently provisioning.");
        },
        _ => {
            append_str(&mut out, "'s onboarding request `");
            append_chars(&mut out, &id_text);
            append_str(&mut out, "` is waiting for approval.");
        },
    }
    string_from(&out)
}

// ---------------------------------------------------------------------------
// The checks of the onboarding command, in the order it makes them
// ---------------------------------------------------------------------------

/// The reply when the command is used outside a server.
pub open spec fn outside_server_text() -> Seq<char> {
    "Onboarding only works inside a server."@
}

/// The requester's check: the target must be configured and the requester
/// must hold one of its approver roles. `Ok` holds the target's position.
pub open spec fn requester_check(targets: Seq<TargetView>, target_input: Seq<char>, roles: Seq<u64>) -> Result<int, Seq<char>> {
    match target_position(targets, target_input) {
        None => Err(
            "I do not recognize that onboarding target. Available targets: "@
                + available_targets_text(targets, roles),
        ),
        Some(i) => if approves(roles, targets[i].approver_role_ids) {
            Ok(i)
        } else {
            Err(
                "You do not have the Discord role needed to onboard users into "@ + targets[i].label
                    + "."@,
            )
        },
    }
}

pub fn check_requester(targets: &Vec<OnboardingTargetConfig>, target_input: &str, requester_roles: &Vec<u64>) -> (r: Result<usize, String>)
    ensures
        match requester_check(target_views(targets@), target_input@, requester_roles@) {
            Ok(i) => r matches Ok(j) && j as int == i,
            Err(m) => r matches Err(s) && s@ == m,
        },
{
    match find_target_index(targets, target_input) {
        None => {
            let mut out: Vec<char> = Vec::new();
            append_str(&mut out, "I do not recognize that onboarding target. Available targets: ");
            append_str(&mut out, available_targets_for_member(targets, requester_roles).as_str());
            Err(string_from(&out))
        },
        Some(i) => {
            if can_approve_target(requester_roles, &targets[i]) {
                Ok(i)
            } else {
                let mut out: Vec<char> = Vec::new();
                append_str(&mut out, "You do not have the Discord role needed to onboard users into ");
                append_str(&mut out, targets[i].label.as_str());
                append_str(&mut out, ".");
                Err(string_from(&out))
            }
        },
    }
}

/// The member's check: they must hold the verified role. `None` lets the
/// command go on; `Some` is the reply.
pub open spec fn member_check(user_name: Seq<char>, roles: Seq<u64>, verified_role_id: u64) -> Option<Seq<char>> {
    if roles.contains(verified_role_id) {
        None
    } else {
        Some(user_name + " must complete Discord email verification before onboarding."@)
    }
}

pub fn check_member(user_name: &str, member_roles: &Vec<u64>, verified_role_id: u64) -> (r: Option<String>)
    ensures
        match member_check(user_name@, member_roles@, verified_role_id) {
            None => r is None,
            Some(m) => r matches Some(s) && s@ == m,
        },
{
    for i in 0..member_roles.len()
        invariant
            forall|k: int| 0 <= k < i ==> member_roles@[k] != verified_role_id,
    {
        if member_roles[i] == verified_role_id {
            return None;
        }
    }
    let mut out: Vec<char> = Vec::new();
    append_str(&mut out, user_name);
    append_str(&mut out, " must complete Discord email verification before onboarding.");
    Some(string_from(&out))
}

/// The identity's check: the member must have a stored identity whose
/// preferred name was confirmed.
pub open spec fn identity_check(user_name: Seq<char>, identity: Option<IdentityView>) -> Option<Seq<char>> {
    match identity {
        None => Some(
            user_name
                + " has the verified role but no persisted identity. Ask them to verify again."@,
        ),
        Some(i) => if i.display_name_confirmed {
            None
        } else {
            Some(
                user_name
                    + " verified before preferred names were collected. Ask them to press the verification button once to confirm their preferred name before onboarding."@,
            )
        },
    }
}

pub fn check_identity(user_name: &str, identity: Option<&VerifiedIdentity>) -> (r: Option<String>)
    ensures
        match identity_check(
            user_name@,
            match identity {
                Some(i) => Some(i@),
                None => None,
            },
        ) {
            None => r is None,
            Some(m) => r matches Some(s) && s@ == m,
        },
{
    let mut out: Vec<char> = Vec::new();
    append_str(&mut out, user_name);
    match identity {
        None => {
            append_str(&mut out, " has the verified role but no persisted identity. Ask them to verify again.");
            Some(string_from(&out))
        },
        Some(i) => if i.is_display_name_confirmed() {
            None
        } else {
            append_str(
                &mut out,
                " verified before preferred names were collected. Ask them to press the verification button once to confirm their preferred name before onboarding.",
            );
            Some(string_from(&out))
        },
    }
}

// ---------------------------------------------------------------------------
// Review decisions
// ---------------------------------------------------------------------------

/// The reply to a decision on a request that was already decided.
pub open spec fn already_handled_text(status: OnboardingStatus) -> Seq<char> {
    "That request is already `"@ + status_name(status) + "`."@
}

pub fn already_handled_message(status: OnboardingStatus) -> (s: String)
    ensures
        s@ == already_handled_text(status),
{
    let mut out: Vec<char> = Vec::new();
    append_str(&mut out, "That request is already `");
    append_str(&mut out, status.as_str());
    append_str(&mut out, "`.");
    string_from(&out)
}

/// The direct message a member gets when their request is denied.
pub open spec fn denial_text(target_label: Seq<char>) -> Seq<char> {
    "Your SSE onboarding request for "@ + target_label
        + " was denied. Please contact an officer if you need clarification."@
}

pub fn denial_message(target_label: &str) -> (s: String)
    ensures
        s@ == denial_text(target_label@),
{
    let mut out: Vec<char> = Vec::new();
    append_str(&mut out, "Your SSE onboarding request for ");
    append_str(&mut out, target_label);
    append_str(&mut out, " was denied. Please contact an officer if you need clarification.");
    string_from(&out)
}

/// Who may press a review button: an officer holding an approver role of
/// the request's target, when that target is still configured.
pub open spec fn reviewer_check(targets: Seq<TargetView>, target_key: Seq<char>, roles: Seq<u64>) -> Result<int, Seq<char>> {
    match target_position(targets, target_key) {
        None => Err("That onboarding target is no longer configured."@),
        Some(i) => if approves(roles, targets[i].approver_role_ids) {
            Ok(i)
        } else {
            Err("You do not have permission to handle this onboarding target."@)
        },
    }
}

pub fn check_reviewer(targets: &Vec<OnboardingTargetConfig>, target_key: &str, reviewer_roles: &Vec<u64>) -> (r: Result<usize, String>)
    ensures
        match reviewer_check(target_views(targets@), target_key@, reviewer_roles@) {
            Ok(i) => r matches Ok(j) && j as int == i,
            Err(m) => r matches Err(s) && s@ == m,
        },
{
    match find_target_index(targets, target_key) {
        None => Err(String::from_str("That onboarding target is no longer configured.")),
        Some(i) => if can_approve_target(reviewer_roles, &targets[i]) {
            Ok(i)
        } else {
            Err(String::from_str("You do not have permission to handle this onboarding target."))
        },
    }
}

// ---------------------------------------------------------------------------
// Status listings
// ---------------------------------------------------------------------------

/// One audit event as an officer sees it: when (a Discord relative
/// timestamp), what, how it ended, and who did it.
pub open spec fn audit_line_text(created_at_seconds: i64, event_type: Seq<char>, outcome: Seq<char>, actor: Option<u64>) -> Seq<char> {
    "- <t:"@ + signed_decimal(created_at_seconds as int) + ":R> `"@ + event_type + "` \u{2192} `"@
        + outcome + "` by "@ + (match actor {
        Some(id) => mention(id),
        None => "system"@,
    })
}

pub fn audit_line(created_at_seconds: i64, event_type: &str, outcome: &str, actor: Option<u64>) -> (s: String)
    ensures
        s@ == audit_line_text(created_at_seconds, event_type@, outcome@, actor),
{
    let mut out: Vec<char> = Vec::new();
    append_str(&mut out, "- <t:");
    append_chars(&mut out, &signed_decimal_chars(created_at_seconds));
    append_str(&mut out, ":R> `");
    append_str(&mut out, event_type);
    append_str(&mut out, "` \u{2192} `");
    append_str(&mut out, outcome);
    append_str(&mut out, "` by ");
    let ghost body = out@;
    match actor {
        Some(id) => append_mention(&mut out, id),
        None => append_str(&mut out, "system"),
    }
    string_from(&out)
}

/// Lines joined by newlines.
pub open spec fn lines_text(lines: Seq<Seq<char>>) -> Seq<char>
    decreases lines.len(),
{
    if lines.len() == 0 {
        Seq::empty()
    } else if lines.len() == 1 {
        lines[0]
    } else {
        lines_text(lines.drop_last()) + "\n"@ + lines.last()
    }
}

pub fn join_lines(lines: &Vec<String>) -> (s: String)
    ensures
        s@ == lines_text(crate::text::texts(lines@)),
{
    let ghost views = crate::text::texts(lines@);
    let mut out: Vec<char> = Vec::new();
    for i in 0..lines.len()
        invariant
            views == crate::text::texts(lines@),
            out@ == lines_text(views.take(i as int)),
    {
        let ghost t = views.take(i + 1);
        assert(t.drop_last() == views.take(i as int));
        assert(t.last() == lines@[i as int]@);
        if i > 0 {
            append_str(&mut out, "\n");
        }
        append_str(&mut out, lines[i].as_str());
        proof {
            if i == 0 {
                assert(t.len() == 1);
                assert(t[0] == t.last());
                assert(out@ =~= t[0]);
            }
        }
    }
    assert(views.take(lines.len() as int) == views);
    string_from(&out)
}

/// What an officer sees when asking about one request: its status and its
/// latest audit events (or `None`).
pub open spec fn status_report_text(status: Seq<char>, audit_lines: Seq<Seq<char>>) -> Seq<char> {
    status + "\n\n**Recent audit events**\n"@ + (if audit_lines.len() == 0 {
        "None"@
    } else {
        lines_text(audit_lines)
    })
}

pub fn status_report(request: &OnboardingRequest, audit_lines: &Vec<String>) -> (s: String)
    ensures
        s@ == status_report_text(status_content(request@), crate::text::texts(audit_lines@)),
{
    let mut out: Vec<char> = Vec::new();
    append_str(&mut out, request_status_content(request).as_str());
    append_str(&mut out, "\n\n**Recent audit events**\n");
    if audit_lines.len() == 0 {
        append_str(&mut out, "None");
    } else {
        append_str(&mut out, join_lines(audit_lines).as_str());
    }
    string_from(&out)
}

/// One request in the list of recent requests.
pub open spec fn recent_line_text(r: RequestView) -> Seq<char> {
    "- `"@ + signed_decimal(r.id as int) + "` \u{2022} "@ + r.target_label + " \u{2022} "@ + mention(
        r.user_id,
    ) + " \u{2022} `"@ + status_name(r.status) + "`"@
}

pub fn recent_line(request: &OnboardingRequest) -> (s: String)
    ensures
        s@ == recent_line_text(request@),
{
    let mut out: Vec<char> = Vec::new();
    append_str(&mut out, "- `");
    append_chars(&mut out, &signed_decimal_chars(request.id().get()));
    append_str(&mut out, "` \u{2022} ");
    append_str(&mut out, request.target_label());
    append_str(&mut out, " \u{2022} ");
    append_mention(&mut out, request.user_id());
    append_str(&mut out, " \u{2022} `");
    append_str(&mut out, request.status().as_str());
    append_str(&mut out, "`");
    string_from(&out)
}

/// Whether an officer may see a request: its target is configured and they
/// hold one of its approver roles.
pub open spec fn visible_to(targets: Seq<TargetView>, roles: Seq<u64>, r: RequestView) -> bool {
    match target_position(targets, r.target_key) {
        Some(i) => approves(roles, targets[i].approver_role_ids),
        None => false,
    }
}

/// The first `limit` requests an officer may see, in the given order.
pub open spec fn visible_requests(targets: Seq<TargetView>, roles: Seq<u64>, requests: Seq<RequestView>, limit: nat) -> Seq<RequestView>
    decreases requests.len(),
{
    if requests.len() == 0 {
        Seq::empty()
    } else {
        let init = visible_requests(targets, roles, requests.drop_last(), limit);
        if init.len() < limit && visible_to(targets, roles, requests.last()) {
            init.push(requests.last())
        } else {
            init
        }
    }
}

pub open spec fn request_views(requests: Seq<OnboardingRequest>) -> Seq<RequestView> {
    requests.map_values(|r: OnboardingRequest| r@)
}

/// The list of recent requests an officer may see: at most ten lines, or a
/// note that none is visible.
pub open spec fn recent_requests_text(targets: Seq<TargetView>, roles: Seq<u64>, requests: Seq<RequestView>) -> Seq<char> {
    let visible = visible_requests(targets, roles, requests, 10);
    if visible.len() == 0 {
        "No onboarding requests are visible to your configured roles."@
    } else {
        "**Recent onboarding requests**\n"@ + lines_text(visible.map_values(|r: RequestView| recent_line_text(r)))
    }
}

pub fn recent_requests_report(targets: &Vec<OnboardingTargetConfig>, officer_roles: &Vec<u64>, requests: &Vec<OnboardingRequest>) -> (s: String)
    ensures
        s@ == recent_requests_text(target_views(targets@), officer_roles@, request_views(requests@)),
{
    let ghost tv = target_views(targets@);
    let ghost rv = request_views(requests@);
    let mut lines: Vec<String> = Vec::new();
    for i in 0..requests.len()
        invariant
            tv == target_views(targets@),
            rv == request_views(requests@),
            crate::text::texts(lines@) == visible_requests(tv, officer_roles@, rv.take(i as int), 10).map_values(
                |r: RequestView| recent_line_text(r),
            ),
            lines@.len() == visible_requests(tv, officer_roles@, rv.take(i as int), 10).len(),
    {
        let ghost before = visible_requests(tv, officer_roles@, rv.take(i as int), 10);
        assert(rv.take(i + 1).drop_last() == rv.take(i as int));
        assert(rv.take(i + 1).last() == requests@[i as int]@);
        if lines.len() < 10 {
            let visible = match find_target_index(targets, requests[i].target_key()) {
                Some(t) => can_approve_target(officer_roles, &targets[t]),
                None => false,
            };
            if visible {
                let line = recent_line(&requests[i]);
                let ghost old_lines = lines@;
                let ghost text = line@;
                lines.push(line);
                assert(crate::text::texts(lines@) =~= crate::text::texts(old_lines).push(text));
                assert(before.push(requests@[i as int]@).map_values(|r: RequestView| recent_line_text(r))
                    =~= before.map_values(|r: RequestView| recent_line_text(r)).push(text));
            }
        }
    }
    assert(rv.take(requests.len() as int) == rv);
    if lines.len() == 0 {
        String::from_str("No onboarding requests are visible to your configured roles.")
    } else {
        let mut out: Vec<char> = Vec::new();
        append_str(&mut out, "**Recent onboarding requests**\n");
        append_str(&mut out, join_lines(&lines).as_str());
        string_from(&out)
    }
}

// ---------------------------------------------------------------------------
// Target suggestions and the dependency check
// ---------------------------------------------------------------------------

/// Whether a target is suggested for what was typed so far (already trimmed
/// and lowercased): everything is suggested for nothing typed, else targets
/// whose key or label, lowercased, holds it.
pub open spec fn suggested(t: TargetView, partial: Seq<char>) -> bool {
    partial.len() == 0 || contains_seq(lowercase(t.key), partial) || contains_seq(lowercase(t.label), partial)
}

/// The suggestions for the target option: at most 25 targets the member may
/// manage that match what was typed, each shown as `label (key)` with the
/// key as its value.
pub open spec fn suggestions(targets: Seq<TargetView>, roles: Seq<u64>, partial: Seq<char>) -> Seq<(Seq<char>, Seq<char>)>
    decreases targets.len(),
{
    if targets.len() == 0 {
        Seq::empty()
    } else {
        let init = suggestions(targets.drop_last(), roles, partial);
        let t = targets.last();
        if init.len() < 25 && approves(roles, t.approver_role_ids) && suggested(t, partial) {
            init.push((t.label + " ("@ + t.key + ")"@, t.key))
        } else {
            init
        }
    }
}

pub fn autocomplete_targets(targets: &Vec<OnboardingTargetConfig>, member_roles: &Vec<u64>, partial: &str) -> (r: Vec<(String, String)>)
    ensures
        r@.map_values(|c: (String, String)| (c.0@, c.1@)) == suggestions(
            target_views(targets@),
            member_roles@,
            lowercase(trim(partial@)),
        ),
{
    let wanted = lowercased(&trim_str(partial));
    let ghost tv = target_views(targets@);
    let mut out: Vec<(String, String)> = Vec::new();
    for i in 0..targets.len()
        invariant
            tv == target_views(targets@),
            wanted@ == lowercase(trim(partial@)),
            out@.map_values(|c: (String, String)| (c.0@, c.1@)) == suggestions(tv.take(i as int), member_roles@, wanted@),
    {
        let ghost before = suggestions(tv.take(i as int), member_roles@, wanted@);
        assert(tv.take(i + 1).drop_last() == tv.take(i as int));
        assert(tv.take(i + 1).last() == targets@[i as int]@);
        let t = &targets[i];
        if out.len() < 25 && can_approve_target(member_roles, t) {
            let matches = wanted.len() == 0 || contains_substring(&lowercased(&chars_of(t.key.as_str())), &wanted)
                || contains_substring(&lowercased(&chars_of(t.label.as_str())), &wanted);
            if matches {
                let mut name: Vec<char> = Vec::new();
                append_str(&mut name, t.label.as_str());
                append_str(&mut name, " (");
                append_str(&mut name, t.key.as_str());
                append_str(&mut name, ")");
                let choice = (string_from(&name), t.key.clone());
                let ghost old_out = out@;
                let ghost cv = (choice.0@, choice.1@);
                out.push(choice);
                assert(out@.map_values(|c: (String, String)| (c.0@, c.1@)) =~= old_out.map_values(
                    |c: (String, String)| (c.0@, c.1@),
                ).push(cv));
            }
        }
    }
    assert(tv.take(targets.len() as int) == tv);
    out
}

/// How checking one Authentik group went: `None` when it is reachable, else
/// the error's message.
pub struct GroupCheck {
    pub label: String,
    pub error: Option<String>,
}

/// One line of the dependency check.
pub open spec fn check_line_text(subject: Seq<char>, error: Option<Seq<char>>) -> Seq<char> {
    "- "@ + subject + ": "@ + (match error {
        None => "ready"@,
        Some(e) => "failed (`"@ + e + "`)"@,
    })
}

/// The report of the dependency check: the service account first, then
/// each group the officer manages.
pub open spec fn dependency_report_text(api_error: Option<Seq<char>>, groups: Seq<(Seq<char>, Option<Seq<char>>)>) -> Seq<char> {
    "**Onboarding dependency check**\n"@ + lines_text(
        seq![check_line_text("Authentik service account"@, api_error)] + groups.map_values(
            |g: (Seq<char>, Option<Seq<char>>)| check_line_text(g.0 + " group"@, g.1),
        ),
    )
}

fn check_line(subject: &Vec<char>, error: &Option<String>) -> (s: String)
    ensures
        s@ == check_line_text(
            subject@,
            match error {
                Some(e) => Some(e@),
                None => None,
            },
        ),
{
    let mut out: Vec<char> = Vec::new();
    append_str(&mut out, "- ");
    append_chars(&mut out, subject);
    append_str(&mut out, ": ");
    match error {
        None => append_str(&mut out, "ready"),
        Some(e) => {
            append_str(&mut out, "failed (`");
            append_str(&mut out, e.as_str());
            append_str(&mut out, "`)");
        },
    }
    string_from(&out)
}

pub fn dependency_report(api_error: &Option<String>, groups: &Vec<GroupCheck>) -> (s: String)
    ensures
        s@ == dependency_report_text(
            match api_error {
                Some(e) => Some(e@),
                None => None,
            },
            groups@.map_values(
                |g: GroupCheck|
                    (
                        g.label@,
                        match g.error {
                            Some(e) => Some(e@),
                            None => None,
                        },
                    ),
            ),
        ),
{
    let ghost gv = groups@.map_values(
        |g: GroupCheck|
            (
                g.label@,
                match g.error {
                    Some(e) => Some(e@),
                    None => None,
                },
            ),
    );
    let ghost all = seq![check_line_text("Authentik service account"@, match api_error {
        Some(e) => Some(e@),
        None => None,
    })] + gv.map_values(|g: (Seq<char>, Option<Seq<char>>)| check_line_text(g.0 + " group"@, g.1));
    let mut lines: Vec<String> = Vec::new();
    lines.push(check_line(&chars_of("Authentik service account"), api_error));
    for i in 0..groups.len()
        invariant
            gv == groups@.map_values(
                |g: GroupCheck|
                    (
                        g.label@,
                        match g.error {
                            Some(e) => Some(e@),
                            None => None,
                        },
                    ),
            ),
            all == seq![check_line_text("Authentik service account"@, match api_error {
                Some(e) => Some(e@),
                None => None,
            })] + gv.map_values(|g: (Seq<char>, Option<Seq<char>>)| check_line_text(g.0 + " group"@, g.1)),
            crate::text::texts(lines@) == all.take(i + 1),
    {
        let mut subject = chars_of(groups[i].label.as_str());
        append_str(&mut subject, " group");
        let line = check_line(&subject, &groups[i].error);
        let ghost old_lines = lines@;
        let ghost text = line@;
        lines.push(line);
        assert(crate::text::texts(lines@) =~= crate::text::texts(old_lines).push(text));
        assert(all.take(i + 2) =~= all.take(i + 1).push(all[i + 1]));
    }
    assert(all.take(groups.len() + 1) =~= all);
    let mut out: Vec<char> = Vec::new();
    append_str(&mut out, "**Onboarding dependency check**\n");
    append_str(&mut out, join_lines(&lines).as_str());
    string_from(&out)
}

// ---------------------------------------------------------------------------
// Eligibility and access
// ---------------------------------------------------------------------------

/// Whether a request's member may still be onboarded: their membership was
/// confirmed with the verified role, and their stored identity still backs
/// the request (confirmed preferred name, same email, same name).
pub open spec fn still_eligible(roles: Option<Seq<u64>>, verified_role_id: u64, identity: Option<IdentityView>, r: RequestView) -> bool {
    &&& roles matches Some(rs) && rs.contains(verified_role_id)
    &&& identity matches Some(i) && i.display_name_confirmed && i.email == r.email && i.display_name == r.display_name
}

pub fn target_remains_eligible(
    member_roles: Option<&Vec<u64>>,
    verified_role_id: u64,
    identity: Option<&VerifiedIdentity>,
    request: &OnboardingRequest,
) -> (b: bool)
    ensures
        b == still_eligible(
            match member_roles {
                Some(r) => Some(r@),
                None => None,
            },
            verified_role_id,
            match identity {
                Some(i) => Some(i@),
                None => None,
            },
            request@,
        ),
{
    let verified = match member_roles {
        Some(roles) => holds_role(roles, verified_role_id),
        None => false,
    };
    if !verified {
        return false;
    }
    match identity {
        Some(i) => i.is_display_name_confirmed() && i.email().same_as(request.email())
            && i.display_name().same_as(request.display_name()),
        None => false,
    }
}

/// Whether an officer may look at or act on a stored request.
#[derive(Debug, Clone, Copy, PartialEq, Eq, Structural)]
pub enum RequestAccess {
    /// Allowed; the request's target is at this position.
    Allowed(usize),
    /// The request's target is no longer configured.
    TargetGone,
    /// The officer holds none of the target's approver roles.
    Denied,
}

pub fn request_access(targets: &Vec<OnboardingTargetConfig>, target_key: &str, officer_roles: &Vec<u64>) -> (r: RequestAccess)
    ensures
        match target_position(target_views(targets@), target_key@) {
            None => r == RequestAccess::TargetGone,
            Some(i) => if approves(officer_roles@, targets@[i].approver_role_ids@) {
                r matches RequestAccess::Allowed(j) && j as int == i
            } else {
                r == RequestAccess::Denied
            },
        },
{
    match find_target_index(targets, target_key) {
        None => RequestAccess::TargetGone,
        Some(i) => if can_approve_target(officer_roles, &targets[i]) {
            RequestAccess::Allowed(i)
        } else {
            RequestAccess::Denied
        },
    }
}

} // verus!
