//! The decisions and replies of the verification commands: which addresses
//! are accepted, which roles change, and what a member is told.
use vstd::prelude::*;
use crate::decimal::{decimal, decimal_chars};
use crate::domain::verification::{EmailAddress, IdentityError, email_result, identity_error_text};
use crate::pending::{CheckPendingVerificationResult, StartPendingVerificationResult};
use crate::text::{append_chars, append_str, chars_of, same_chars, string_from, texts};

verus! {

// ---------------------------------------------------------------------------
// Authorized addresses
// ---------------------------------------------------------------------------

/// The allowed domains, each after an `@`, separated by `, `.
pub open spec fn domain_list_text(domains: Seq<Seq<char>>) -> Seq<char>
    decreases domains.len(),
{
    if domains.len() == 0 {
        Seq::empty()
    } else if domains.len() == 1 {
        "@"@ + domains[0]
    } else {
        domain_list_text(domains.drop_last()) + ", @"@ + domains.last()
    }
}

/// What the verification commands make of a submitted address: a valid
/// address whose domain is allowed, or the reply that refuses it.
pub open spec fn authorized_email_result(allowed: Seq<Seq<char>>, input: Seq<char>) -> Result<(Seq<char>, Seq<char>), Seq<char>> {
    match email_result(input) {
        Err(e) => Err("That does not look like a valid email: "@ + identity_error_text(e)),
        Ok(email) => if allowed.contains(email.1) {
            Ok(email)
        } else {
            Err("Verification requires an email address from: "@ + domain_list_text(allowed))
        },
    }
}

pub fn parse_authorized_email(allowed_domains: &Vec<String>, input: &str) -> (r: Result<EmailAddress, String>)
    ensures
        match authorized_email_result(texts(allowed_domains@), input@) {
            Ok(e) => r matches Ok(email) && email@ == e,
            Err(m) => r matches Err(s) && s@ == m,
        },
{
    let email = match EmailAddress::parse(input) {
        Ok(email) => email,
        Err(e) => {
            let mut out: Vec<char> = Vec::new();
            append_str(&mut out, "That does not look like a valid email: ");
            append_str(&mut out, e.to_string().as_str());
            return Err(string_from(&out));
        },
    };
    let domain = chars_of(email.domain());
    let ghost views = texts(allowed_domains@);
    for i in 0..allowed_domains.len()
        invariant
            views == texts(allowed_domains@),
            domain@ == email@.1,
            email_result(input@) == Ok::<(Seq<char>, Seq<char>), IdentityError>(email@),
            forall|k: int| 0 <= k < i ==> views[k] != domain@,
    {
        if same_chars(&chars_of(allowed_domains[i].as_str()), &domain) {
            assert(views[i as int] == domain@);
            assert(views.contains(domain@));
            return Ok(email);
        }
    }
    let mut out: Vec<char> = Vec::new();
    append_str(&mut out, "Verification requires an email address from: ");
    let ghost head = out@;
    for i in 0..allowed_domains.len()
        invariant
            views == texts(allowed_domains@),
            out@ == head + domain_list_text(views.take(i as int)),
    {
        let ghost t = views.take(i + 1);
        assert(t.drop_last() == views.take(i as int));
        assert(t.last() == allowed_domains@[i as int]@);
        if i > 0 {
            append_str(&mut out, ", @");
        } else {
            append_str(&mut out, "@");
        }
        append_str(&mut out, allowed_domains[i].as_str());
        proof {
            if i == 0 {
                assert(t.len() == 1);
                assert(t[0] == t.last());
            }
        }
    }
    assert(views.take(allowed_domains.len() as int) == views);
    assert(!views.contains(email@.1));
    Err(string_from(&out))
}

// ---------------------------------------------------------------------------
// Roles
// ---------------------------------------------------------------------------

/// The role changes that bring a verified member in line: the verified role
/// is added when missing, the unverified role (if configured) removed when
/// held.
#[derive(Debug)]
pub struct RoleSync {
    pub add_verified: Option<u64>,
    pub remove_unverified: Option<u64>,
}

pub open spec fn role_sync_ok(roles: Seq<u64>, verified_role_id: u64, unverified_role_id: Option<u64>, r: RoleSync) -> bool {
    &&& r.add_verified == (if roles.contains(verified_role_id) {
        None
    } else {
        Some(verified_role_id)
    })
    &&& r.remove_unverified == (match unverified_role_id {
        Some(u) => if roles.contains(u) {
            Some(u)
        } else {
            None
        },
        None => None,
    })
}

fn holds(roles: &Vec<u64>, role: u64) -> (r: bool)
    ensures
        r == roles@.contains(role),
{
    for i in 0..roles.len()
        invariant
            forall|k: int| 0 <= k < i ==> roles@[k] != role,
    {
        if roles[i] == role {
            return true;
        }
    }
    false
}

pub fn sync_verified_roles(member_roles: &Vec<u64>, verified_role_id: u64, unverified_role_id: Option<u64>) -> (r: RoleSync)
    ensures
        role_sync_ok(member_roles@, verified_role_id, unverified_role_id, r),
{
    let add_verified = if holds(member_roles, verified_role_id) {
        None
    } else {
        Some(verified_role_id)
    };
    let remove_unverified = match unverified_role_id {
        Some(u) => if holds(member_roles, u) {
            Some(u)
        } else {
            None
        },
        None => None,
    };
    RoleSync { add_verified, remove_unverified }
}

/// What happens when someone joins the server.
#[derive(Debug)]
pub enum JoinAction {
    /// Bots are left alone.
    Ignore,
    /// A returning member with a stored identity gets their roles back.
    Restore(RoleSync),
    /// A new member is given the unverified role.
    AddUnverified(u64),
    /// Nothing to change.
    Nothing,
}

pub open spec fn join_ok(is_bot: bool, has_identity: bool, roles: Seq<u64>, verified_role_id: u64, unverified_role_id: Option<u64>, r: JoinAction) -> bool {
    if is_bot {
        r is Ignore
    } else if has_identity {
        r matches JoinAction::Restore(sync) && role_sync_ok(roles, verified_role_id, unverified_role_id, sync)
    } else {
        match unverified_role_id {
            Some(u) => if roles.contains(u) {
                r is Nothing
            } else {
                r == JoinAction::AddUnverified(u)
            },
            None => r is Nothing,
        }
    }
}

pub fn member_join_action(is_bot: bool, has_identity: bool, member_roles: &Vec<u64>, verified_role_id: u64, unverified_role_id: Option<u64>) -> (r: JoinAction)
    ensures
        join_ok(is_bot, has_identity, member_roles@, verified_role_id, unverified_role_id, r),
{
    if is_bot {
        return JoinAction::Ignore;
    }
    if has_identity {
        return JoinAction::Restore(sync_verified_roles(member_roles, verified_role_id, unverified_role_id));
    }
    match unverified_role_id {
        Some(u) => if holds(member_roles, u) {
            JoinAction::Nothing
        } else {
            JoinAction::AddUnverified(u)
        },
        None => JoinAction::Nothing,
    }
}

// ---------------------------------------------------------------------------
// Replies to a checked code
// ---------------------------------------------------------------------------

/// What the slash command does after a code was checked.
#[derive(Debug)]
pub enum SlashCodeStep {
    /// Give the member their roles, then tell them they are verified.
    Complete,
    /// Reply and stop.
    Reply(String),
    /// Offer another try: this many attempts are left.
    PromptRetry(u8),
}

pub open spec fn wrong_code_text(attempts_remaining: u8) -> Seq<char> {
    "That verification code is incorrect. You have "@ + decimal(attempts_remaining as nat)
        + " attempts remaining."@
}

pub fn wrong_code_message(attempts_remaining: u8) -> (s: String)
    ensures
        s@ == wrong_code_text(attempts_remaining),
{
    let mut out: Vec<char> = Vec::new();
    append_str(&mut out, "That verification code is incorrect. You have ");
    append_chars(&mut out, &decimal_chars(attempts_remaining as u64));
    append_str(&mut out, " attempts remaining.");
    string_from(&out)
}

pub fn slash_code_step(result: &CheckPendingVerificationResult) -> (r: SlashCodeStep)
    ensures
        match result {
            CheckPendingVerificationResult::Accepted { .. } => r is Complete,
            CheckPendingVerificationResult::Missing => r matches SlashCodeStep::Reply(s) && s@
                == "I could not find a pending verification attempt. Please run `/verify` again."@,
            CheckPendingVerificationResult::Expired => r matches SlashCodeStep::Reply(s) && s@
                == "That verification code expired. Please run `/verify` again."@,
            CheckPendingVerificationResult::Incorrect { attempts_remaining, has_attempts_remaining } =>
                if *has_attempts_remaining {
                r == SlashCodeStep::PromptRetry(*attempts_remaining)
            } else {
                r matches SlashCodeStep::Reply(s) && s@
                    == "That verification code is incorrect, and you have no attempts remaining. Please run `/verify` again to request a new code."@
            },
        },
{
    match result {
        CheckPendingVerificationResult::Accepted { .. } => SlashCodeStep::Complete,
        CheckPendingVerificationResult::Missing => SlashCodeStep::Reply(
            String::from_str("I could not find a pending verification attempt. Please run `/verify` again."),
        ),
        CheckPendingVerificationResult::Expired => SlashCodeStep::Reply(
            String::from_str("That verification code expired. Please run `/verify` again."),
        ),
        CheckPendingVerificationResult::Incorrect { attempts_remaining, has_attempts_remaining } => {
            if *has_attempts_remaining {
                SlashCodeStep::PromptRetry(*attempts_remaining)
            } else {
                SlashCodeStep::Reply(
                    String::from_str(
                        "That verification code is incorrect, and you have no attempts remaining. Please run `/verify` again to request a new code.",
                    ),
                )
            }
        },
    }
}

/// What the code form's answer is after a code was checked: complete the
/// verification, or reply with this text and, when `Some`, a button with
/// this label to enter a code again.
#[derive(Debug)]
pub enum ModalCodeStep {
    Complete,
    Reply { content: String, button: Option<&'static str> },
}

pub fn modal_code_step(result: &CheckPendingVerificationResult) -> (r: ModalCodeStep)
    ensures
        match result {
            CheckPendingVerificationResult::Accepted { .. } => r is Complete,
            CheckPendingVerificationResult::Missing => r matches ModalCodeStep::Reply { content, button }
                && content@
                == "I could not find a pending verification attempt. Press Verify with RIT Email to start again."@
                && button is None,
            CheckPendingVerificationResult::Expired => r matches ModalCodeStep::Reply { content, button }
                && content@
                == "That verification code expired. Press Verify with RIT Email to request a new one."@
                && button is None,
            CheckPendingVerificationResult::Incorrect { attempts_remaining, has_attempts_remaining } =>
                if *has_attempts_remaining {
                r matches ModalCodeStep::Reply { content, button } && content@ == wrong_code_text(
                    *attempts_remaining,
                ) && (button matches Some(label) && label@ == "Try again"@)
            } else {
                r matches ModalCodeStep::Reply { content, button } && content@
                    == "That code is incorrect, and you have no attempts remaining. Press Verify with RIT Email to request a new code."@
                    && button is None
            },
        },
{
    match result {
        CheckPendingVerificationResult::Accepted { .. } => ModalCodeStep::Complete,
        CheckPendingVerificationResult::Missing => ModalCodeStep::Reply {
            content: String::from_str(
                "I could not find a pending verification attempt. Press Verify with RIT Email to start again.",
            ),
            button: None,
        },
        CheckPendingVerificationResult::Expired => ModalCodeStep::Reply {
            content: String::from_str(
                "That verification code expired. Press Verify with RIT Email to request a new one.",
            ),
            button: None,
        },
        CheckPendingVerificationResult::Incorrect { attempts_remaining, has_attempts_remaining } => {
            if *has_attempts_remaining {
                ModalCodeStep::Reply { content: wrong_code_message(*attempts_remaining), button: Some("Try again") }
            } else {
                ModalCodeStep::Reply {
                    content: String::from_str(
                        "That code is incorrect, and you have no attempts remaining. Press Verify with RIT Email to request a new code.",
                    ),
                    button: None,
                }
            }
        },
    }
}

/// What the email form answers once a code is on its way.
pub fn code_sent_message(result: StartPendingVerificationResult) -> (s: &'static str)
    ensures
        s@ == (match result {
            StartPendingVerificationResult::Created =>
                "I sent your verification code. Check your email, then enter it below."@,
            StartPendingVerificationResult::Reused =>
                "You already have an active verification code. Check your email, then enter it below."@,
        }),
{
    match result {
        StartPendingVerificationResult::Created => "I sent your verification code. Check your email, then enter it below.",
        StartPendingVerificationResult::Reused => "You already have an active verification code. Check your email, then enter it below.",
    }
}

/// How a verified member is shown in the verification log: their name and
/// Discord ID.
pub open spec fn log_user_text(name: Seq<char>, id: u64) -> Seq<char> {
    name + " ("@ + decimal(id as nat) + ")"@
}

pub fn log_user_field(name: &str, id: u64) -> (s: String)
    ensures
        s@ == log_user_text(name@, id),
{
    let mut out: Vec<char> = Vec::new();
    append_str(&mut out, name);
    append_str(&mut out, " (");
    append_chars(&mut out, &decimal_chars(id));
    append_str(&mut out, ")");
    string_from(&out)
}

// ---------------------------------------------------------------------------
// Which button or form an interaction comes from
// ---------------------------------------------------------------------------

#[derive(Debug, Clone, Copy, PartialEq, Eq, Structural)]
pub enum VerifyComponent {
    /// The panel's button that starts verification.
    Start,
    /// A button that opens the code form.
    Code,
    Other,
}

#[derive(Debug, Clone, Copy, PartialEq, Eq, Structural)]
pub enum VerifyModal {
    Email,
    Code,
    Other,
}

pub fn verify_component(custom_id: &str) -> (r: VerifyComponent)
    ensures
        r == (if custom_id@ == "verify:start"@ {
            VerifyComponent::Start
        } else if custom_id@ == "verify:code"@ {
            VerifyComponent::Code
        } else {
            VerifyComponent::Other
        }),
{
    let id = chars_of(custom_id);
    if same_chars(&id, &chars_of("verify:start")) {
        VerifyComponent::Start
    } else if same_chars(&id, &chars_of("verify:code")) {
        VerifyComponent::Code
    } else {
        VerifyComponent::Other
    }
}

pub fn verify_modal(custom_id: &str) -> (r: VerifyModal)
    ensures
        r == (if custom_id@ == "verify:email"@ {
            VerifyModal::Email
        } else if custom_id@ == "verify:code:modal"@ {
            VerifyModal::Code
        } else {
            VerifyModal::Other
        }),
{
    let id = chars_of(custom_id);
    if same_chars(&id, &chars_of("verify:email")) {
        VerifyModal::Email
    } else if same_chars(&id, &chars_of("verify:code:modal")) {
        VerifyModal::Code
    } else {
        VerifyModal::Other
    }
}

/// What a verification button leads to.
#[derive(Debug)]
pub enum ComponentStep {
    /// Not a verification button: leave it to others.
    Ignore,
    /// Refuse with this reply.
    Refuse(String),
    /// Open the email form.
    OpenEmailForm,
    /// Open the code form.
    OpenCodeForm,
}

pub open spec fn disabled_text() -> Seq<char> {
    "Verification is currently disabled."@
}

/// A disabled verification module answers none of its buttons: each is
/// refused. An enabled one opens the form the button names.
pub fn verification_component_step(enabled: bool, component: VerifyComponent) -> (r: ComponentStep)
    ensures
        match component {
            VerifyComponent::Other => r is Ignore,
            VerifyComponent::Start => if enabled {
                r is OpenEmailForm
            } else {
                r matches ComponentStep::Refuse(s) && s@ == disabled_text()
            },
            VerifyComponent::Code => if enabled {
                r is OpenCodeForm
            } else {
                r matches ComponentStep::Refuse(s) && s@ == disabled_text()
            },
        },
{
    match component {
        VerifyComponent::Other => ComponentStep::Ignore,
        _ => if !enabled {
            ComponentStep::Refuse(String::from_str("Verification is currently disabled."))
        } else if component == VerifyComponent::Start {
            ComponentStep::OpenEmailForm
        } else {
            ComponentStep::OpenCodeForm
        },
    }
}

/// What a submitted verification form leads to.
#[derive(Debug)]
pub enum ModalStep {
    /// Not a verification form: leave it to others.
    Ignore,
    /// Refuse with this reply.
    Refuse(String),
    /// Check the submitted address.
    CheckEmail,
    /// Check the submitted code.
    CheckCode,
}

/// A disabled verification module processes none of its forms: each is
/// refused. An enabled one checks what the form carries.
pub fn verification_modal_step(enabled: bool, modal: VerifyModal) -> (r: ModalStep)
    ensures
        match modal {
            VerifyModal::Other => r is Ignore,
            VerifyModal::Email => if enabled {
                r is CheckEmail
            } else {
                r matches ModalStep::Refuse(s) && s@ == disabled_text()
            },
            VerifyModal::Code => if enabled {
                r is CheckCode
            } else {
                r matches ModalStep::Refuse(s) && s@ == disabled_text()
            },
        },
{
    match modal {
        VerifyModal::Other => ModalStep::Ignore,
        _ => if !enabled {
            ModalStep::Refuse(String::from_str("Verification is currently disabled."))
        } else if modal == VerifyModal::Email {
            ModalStep::CheckEmail
        } else {
            ModalStep::CheckCode
        },
    }
}


/// An address passes the domain check when its domain is any entry of the
/// allowed list, whatever the entry's position; it is refused for its domain
/// only when no entry is its domain.
pub proof fn lemma_any_allowed_domain_is_accepted(allowed: Seq<Seq<char>>, input: Seq<char>, k: int)
    ensures
        (email_result(input) matches Ok(e) && 0 <= k < allowed.len() && allowed[k] == e.1)
            ==> authorized_email_result(allowed, input) == Ok::<(Seq<char>, Seq<char>), Seq<char>>(
            email_result(input)->Ok_0,
        ),
        email_result(input) is Ok && authorized_email_result(allowed, input) is Err ==> (forall|j: int|
            0 <= j < allowed.len() ==> allowed[j] != email_result(input)->Ok_0.1),
        authorized_email_result(allowed, input) matches Ok(e) ==> email_result(input) == Ok::<
            (Seq<char>, Seq<char>),
            IdentityError,
        >(e) && exists|j: int| 0 <= j < allowed.len() && allowed[j] == e.1,
{
    if let Ok(e) = email_result(input) {
        if 0 <= k < allowed.len() && allowed[k] == e.1 {
            assert(allowed.contains(e.1));
        }
        if allowed.contains(e.1) {
            let j = choose|j: int| 0 <= j < allowed.len() && allowed[j] == e.1;
            assert(0 <= j < allowed.len() && allowed[j] == e.1);
        }
    }
}

/// The roles a member holds once a sync is applied: what they held, with
/// the added role and without the removed one.
pub open spec fn roles_after_sync(roles: Seq<u64>, sync: RoleSync) -> Set<u64> {
    let added = match sync.add_verified {
        Some(v) => roles.to_set().insert(v),
        None => roles.to_set(),
    };
    match sync.remove_unverified {
        Some(u) => added.remove(u),
        None => added,
    }
}

/// After a sync the member holds the verified role and no longer holds the
/// unverified one, whether or not they held the verified role before; it only
/// adds a role the member lacks and only removes one the member holds, and
/// keeps every other role.
pub proof fn lemma_sync_leaves_member_verified(
    roles: Seq<u64>,
    verified_role_id: u64,
    unverified_role_id: Option<u64>,
    sync: RoleSync,
    other: u64,
)
    requires
        role_sync_ok(roles, verified_role_id, unverified_role_id, sync),
        unverified_role_id != Some(verified_role_id),
    ensures
        roles_after_sync(roles, sync).contains(verified_role_id),
        unverified_role_id matches Some(u) ==> !roles_after_sync(roles, sync).contains(u),
        sync.add_verified matches Some(v) ==> v == verified_role_id && !roles.contains(v),
        sync.remove_unverified matches Some(u) ==> unverified_role_id == Some(u) && roles.contains(u),
        other != verified_role_id && unverified_role_id != Some(other) ==> (roles_after_sync(
            roles,
            sync,
        ).contains(other) <==> roles.contains(other)),
{
}

} // verus!
