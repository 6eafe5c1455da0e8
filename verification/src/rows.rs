//! Stored rows and the values they stand for: Discord IDs as signed
//! columns, and requests and identities read back from their rows.
use vstd::prelude::*;
use crate::domain::onboarding::{
    OnboardingRequest, OnboardingRequestId, OnboardingStatus, RequestView, opt_text, status_named,
};
use crate::domain::verification::{
    DisplayName, EmailAddress, IdentityError, IdentityView, VerifiedIdentity, display_name_result,
    email_result,
};
use crate::text::{is_control, trim_end, trim_start};

verus! {

/// Why a value could not be stored or read back.
#[derive(Debug, Clone, Copy, PartialEq, Eq, Structural)]
pub enum RowError {
    /// A Discord ID above the largest signed 64-bit value.
    DiscordIdTooLarge,
    /// A stored Discord ID below zero.
    StoredIdNegative,
    RequestIdNotPositive,
    StatusInvalid,
    EmailInvalid(IdentityError),
    DisplayNameInvalid(IdentityError),
    AttemptsInvalid,
}

pub open spec fn row_error_text(e: RowError) -> Seq<char> {
    match e {
        RowError::DiscordIdTooLarge => "Discord ID is too large for Postgres BIGINT"@,
        RowError::StoredIdNegative => "stored Discord ID cannot be represented as u64"@,
        RowError::RequestIdNotPositive => "stored onboarding request ID must be positive"@,
        RowError::StatusInvalid => "stored onboarding status is invalid"@,
        RowError::EmailInvalid(_) => "stored onboarding email is invalid"@,
        RowError::DisplayNameInvalid(_) => "stored onboarding display name is invalid"@,
        RowError::AttemptsInvalid => "stored provisioning attempt count is invalid"@,
    }
}

impl RowError {
    pub fn to_string(&self) -> (s: String)
        ensures
            s@ == row_error_text(*self),
    {
        String::from_str(
            match self {
                RowError::DiscordIdTooLarge => "Discord ID is too large for Postgres BIGINT",
                RowError::StoredIdNegative => "stored Discord ID cannot be represented as u64",
                RowError::RequestIdNotPositive => "stored onboarding request ID must be positive",
                RowError::StatusInvalid => "stored onboarding status is invalid",
                RowError::EmailInvalid(_) => "stored onboarding email is invalid",
                RowError::DisplayNameInvalid(_) => "stored onboarding display name is invalid",
                RowError::AttemptsInvalid => "stored provisioning attempt count is invalid",
            },
        )
    }
}

/// A Discord ID as the signed column stores it.
pub fn discord_id_to_db(user_id: u64) -> (r: Result<i64, RowError>)
    ensures
        match r {
            Ok(v) => user_id <= i64::MAX && v == user_id,
            Err(e) => user_id > i64::MAX && e == RowError::DiscordIdTooLarge,
        },
{
    if user_id <= 9223372036854775807u64 {
        Ok(user_id as i64)
    } else {
        Err(RowError::DiscordIdTooLarge)
    }
}

/// A stored Discord ID read back.
pub fn db_id_to_discord(user_id: i64) -> (r: Result<u64, RowError>)
    ensures
        match r {
            Ok(v) => user_id >= 0 && v == user_id,
            Err(e) => user_id < 0 && e == RowError::StoredIdNegative,
        },
{
    if user_id >= 0 {
        Ok(user_id as u64)
    } else {
        Err(RowError::StoredIdNegative)
    }
}

pub fn optional_db_id_to_discord(user_id: Option<i64>) -> (r: Result<Option<u64>, RowError>)
    ensures
        match user_id {
            None => r == Ok::<Option<u64>, RowError>(None),
            Some(v) => if v >= 0 {
                r == Ok::<Option<u64>, RowError>(Some(v as u64))
            } else {
                r == Err::<Option<u64>, RowError>(RowError::StoredIdNegative)
            },
        },
{
    match user_id {
        None => Ok(None),
        Some(v) => match db_id_to_discord(v) {
            Ok(u) => Ok(Some(u)),
            Err(e) => Err(e),
        },
    }
}

/// Storing a Discord ID and reading it back gives it back.
pub proof fn lemma_discord_id_round_trip(user_id: u64)
    requires
        user_id <= i64::MAX,
    ensures
        (user_id as i64) >= 0 && ((user_id as i64) as u64) == user_id,
{
}

/// A listing limit kept between 1 and `max`.
pub fn clamp_limit(limit: i64, max: i64) -> (r: i64)
    requires
        1 <= max,
    ensures
        r == (if limit < 1 {
            1
        } else if limit > max {
            max
        } else {
            limit
        }),
{
    if limit < 1 {
        1
    } else if limit > max {
        max
    } else {
        limit
    }
}

// ---------------------------------------------------------------------------
// Onboarding requests
// ---------------------------------------------------------------------------

/// A stored onboarding request; times are nanoseconds since the Unix epoch.
pub struct OnboardingRow {
    pub id: i64,
    pub discord_user_id: i64,
    pub requested_by_user_id: i64,
    pub verified_email: String,
    pub verified_display_name: String,
    pub target_key: String,
    pub target_label: String,
    pub status: String,
    pub decided_by_user_id: Option<i64>,
    pub decided_at: Option<i128>,
    pub review_channel_id: Option<i64>,
    pub review_message_id: Option<i64>,
    pub provisioning_attempts: i32,
    pub provisioning_started_at: Option<i128>,
    pub authentik_user_id: Option<i64>,
    pub last_error: Option<String>,
    pub requested_at: i128,
    pub updated_at: i128,
    pub completed_at: Option<i128>,
}

pub open spec fn opt_id(v: Option<i64>) -> Option<u64> {
    match v {
        Some(x) => Some(x as u64),
        None => None,
    }
}

pub open spec fn opt_id_ok(v: Option<i64>) -> bool {
    match v {
        Some(x) => x >= 0,
        None => true,
    }
}

/// What a stored row reads back as, checked in this order: the ID is
/// positive, the status is known, the member and requester IDs are not
/// negative, the email and preferred name parse, the optional IDs are not
/// negative, and the attempt count is not negative.
pub open spec fn onboarding_row_result(row: OnboardingRow) -> Result<RequestView, RowError> {
    if row.id <= 0 {
        Err(RowError::RequestIdNotPositive)
    } else if status_named(row.status@) is None {
        Err(RowError::StatusInvalid)
    } else if row.discord_user_id < 0 || row.requested_by_user_id < 0 {
        Err(RowError::StoredIdNegative)
    } else {
        match email_result(row.verified_email@) {
            Err(e) => Err(RowError::EmailInvalid(e)),
            Ok(email) => match display_name_result(row.verified_display_name@) {
                Err(e) => Err(RowError::DisplayNameInvalid(e)),
                Ok(name) => if !opt_id_ok(row.decided_by_user_id) || !opt_id_ok(row.review_channel_id)
                    || !opt_id_ok(row.review_message_id) {
                    Err(RowError::StoredIdNegative)
                } else if row.provisioning_attempts < 0 {
                    Err(RowError::AttemptsInvalid)
                } else if !opt_id_ok(row.authentik_user_id) {
                    Err(RowError::StoredIdNegative)
                } else {
                    Ok(
                        RequestView {
                            id: row.id,
                            user_id: row.discord_user_id as u64,
                            requested_by_user_id: row.requested_by_user_id as u64,
                            email,
                            display_name: name,
                            target_key: row.target_key@,
                            target_label: row.target_label@,
                            requested_at: row.requested_at,
                            updated_at: row.updated_at,
                            status: status_named(row.status@)->0,
                            decided_by_user_id: opt_id(row.decided_by_user_id),
                            decided_at: row.decided_at,
                            review_channel_id: opt_id(row.review_channel_id),
                            review_message_id: opt_id(row.review_message_id),
                            provisioning_attempts: row.provisioning_attempts as u32,
                            provisioning_started_at: row.provisioning_started_at,
                            authentik_user_id: opt_id(row.authentik_user_id),
                            last_error: opt_text(row.last_error),
                            completed_at: row.completed_at,
                        },
                    )
                },
            },
        }
    }
}

impl OnboardingRow {
    pub fn into_domain(self) -> (r: Result<OnboardingRequest, RowError>)
        ensures
            match r {
                Ok(q) => onboarding_row_result(self) == Ok::<RequestView, RowError>(q@),
                Err(e) => onboarding_row_result(self) == Err::<RequestView, RowError>(e),
            },
    {
        let id = match OnboardingRequestId::new(self.id) {
            Some(id) => id,
            None => return Err(RowError::RequestIdNotPositive),
        };
        let status = match OnboardingStatus::parse(self.status.as_str()) {
            Some(s) => s,
            None => return Err(RowError::StatusInvalid),
        };
        let user_id = db_id_to_discord(self.discord_user_id)?;
        let requested_by_user_id = db_id_to_discord(self.requested_by_user_id)?;
        let email = match EmailAddress::parse(self.verified_email.as_str()) {
            Ok(e) => e,
            Err(e) => return Err(RowError::EmailInvalid(e)),
        };
        let display_name = match DisplayName::parse(self.verified_display_name.as_str()) {
            Ok(n) => n,
            Err(e) => return Err(RowError::DisplayNameInvalid(e)),
        };
        let decided_by_user_id = optional_db_id_to_discord(self.decided_by_user_id)?;
        let review_channel_id = optional_db_id_to_discord(self.review_channel_id)?;
        let review_message_id = optional_db_id_to_discord(self.review_message_id)?;
        if self.provisioning_attempts < 0 {
            return Err(RowError::AttemptsInvalid);
        }
        let provisioning_attempts = self.provisioning_attempts as u32;
        let authentik_user_id = optional_db_id_to_discord(self.authentik_user_id)?;
        Ok(
            OnboardingRequest::from_persisted(
                id,
                user_id,
                requested_by_user_id,
                email,
                display_name,
                self.target_key,
                self.target_label,
                self.requested_at,
                self.updated_at,
                status,
                decided_by_user_id,
                self.decided_at,
                review_channel_id,
                review_message_id,
                provisioning_attempts,
                self.provisioning_started_at,
                authentik_user_id,
                self.last_error,
                self.completed_at,
            ),
        )
    }
}

// ---------------------------------------------------------------------------
// Verified identities
// ---------------------------------------------------------------------------

/// Why a stored identity could not be read back.
#[derive(Debug, Clone, Copy, PartialEq, Eq, Structural)]
pub enum IdentityRowError {
    UserIdNegative,
    EmailInvalid(IdentityError),
    DisplayNameInvalid(IdentityError),
}

pub open spec fn identity_row_error_text(e: IdentityRowError) -> Seq<char> {
    match e {
        IdentityRowError::UserIdNegative => "stored Discord user ID cannot be represented as u64"@,
        IdentityRowError::EmailInvalid(_) => "stored verified email is invalid"@,
        IdentityRowError::DisplayNameInvalid(_) => "stored verified display name is invalid"@,
    }
}

impl IdentityRowError {
    pub fn to_string(&self) -> (s: String)
        ensures
            s@ == identity_row_error_text(*self),
    {
        String::from_str(
            match self {
                IdentityRowError::UserIdNegative => "stored Discord user ID cannot be represented as u64",
                IdentityRowError::EmailInvalid(_) => "stored verified email is invalid",
                IdentityRowError::DisplayNameInvalid(_) => "stored verified display name is invalid",
            },
        )
    }
}

/// A stored verified identity. Identities stored before preferred names
/// were collected have none.
pub struct VerifiedIdentityRow {
    pub discord_user_id: i64,
    pub email: String,
    pub display_name: Option<String>,
    pub display_name_confirmed: bool,
    pub verified_at: i128,
}

/// The preferred name that stands in for an identity stored without one.
pub open spec fn unconfirmed_name() -> Seq<char> {
    "Unconfirmed member"@
}

/// What a stored identity reads back as: an identity without a preferred
/// name gets the placeholder name, unconfirmed.
pub open spec fn identity_row_result(row: VerifiedIdentityRow) -> Result<IdentityView, IdentityRowError> {
    if row.discord_user_id < 0 {
        Err(IdentityRowError::UserIdNegative)
    } else {
        match email_result(row.email@) {
            Err(e) => Err(IdentityRowError::EmailInvalid(e)),
            Ok(email) => match row.display_name {
                Some(name) => match display_name_result(name@) {
                    Err(e) => Err(IdentityRowError::DisplayNameInvalid(e)),
                    Ok(n) => Ok(
                        IdentityView {
                            user_id: row.discord_user_id as u64,
                            email,
                            display_name: n,
                            display_name_confirmed: row.display_name_confirmed,
                            verified_at: row.verified_at,
                        },
                    ),
                },
                None => Ok(
                    IdentityView {
                        user_id: row.discord_user_id as u64,
                        email,
                        display_name: unconfirmed_name(),
                        display_name_confirmed: false,
                        verified_at: row.verified_at,
                    },
                ),
            },
        }
    }
}

impl VerifiedIdentityRow {
    pub fn into_domain(self) -> (r: Result<VerifiedIdentity, IdentityRowError>)
        ensures
            match r {
                Ok(i) => identity_row_result(self) == Ok::<IdentityView, IdentityRowError>(i@),
                Err(e) => identity_row_result(self) == Err::<IdentityView, IdentityRowError>(e),
            },
    {
        if self.discord_user_id < 0 {
            return Err(IdentityRowError::UserIdNegative);
        }
        let user_id = self.discord_user_id as u64;
        let email = match EmailAddress::parse(self.email.as_str()) {
            Ok(e) => e,
            Err(e) => return Err(IdentityRowError::EmailInvalid(e)),
        };
        match &self.display_name {
            Some(name) => {
                let display_name = match DisplayName::parse(name.as_str()) {
                    Ok(n) => n,
                    Err(e) => return Err(IdentityRowError::DisplayNameInvalid(e)),
                };
                Ok(VerifiedIdentity::from_persisted(user_id, email, display_name, self.display_name_confirmed, self.verified_at))
            },
            None => {
                proof {
                    lemma_placeholder_name_is_valid();
                }
                let display_name = match DisplayName::parse("Unconfirmed member") {
                    Ok(n) => n,
                    Err(e) => return Err(IdentityRowError::DisplayNameInvalid(e)),
                };
                Ok(VerifiedIdentity::from_persisted(user_id, email, display_name, false, self.verified_at))
            },
        }
    }
}

/// The placeholder name is itself a valid preferred name.
pub proof fn lemma_placeholder_name_is_valid()
    ensures
        display_name_result(unconfirmed_name()) == Ok::<Seq<char>, IdentityError>(unconfirmed_name()),
{
    reveal_strlit("Unconfirmed member");
    let s = unconfirmed_name();
    let lit = seq!['U', 'n', 'c', 'o', 'n', 'f', 'i', 'r', 'm', 'e', 'd', ' ', 'm', 'e', 'm', 'b', 'e', 'r'];
    assert(s =~= lit);
    assert(trim_start(s) == s);
    assert(trim_end(s) == s);
    assert forall|i: int| 0 <= i < s.len() implies !is_control(#[trigger] s[i]) by {
        assert(0x20 <= lit[i] as u32 && lit[i] as u32 <= 0x7A);
    }
}

} // verus!
