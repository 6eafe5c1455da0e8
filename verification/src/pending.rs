//! Pending verification attempts: when a new code replaces the stored one,
//! and what checking a submitted code decides and changes.
use vstd::prelude::*;
use crate::domain::verification::{
    CodeCheck, CodeHashError, DisplayName, EmailAddress, IdentityError, VerificationCode,
    check_of, code_check, display_name_result, email_result,
};

verus! {

/// How many wrong codes an attempt survives.
pub const MAX_FAILED_ATTEMPTS: i16 = 5i16;

/// A stored attempt, as the check reads it: `expired` says whether its
/// expiry time has passed; attempts stored before preferred names were
/// collected have no display name.
#[derive(Debug)]
pub struct PendingAttempt {
    pub email: String,
    pub display_name: Option<String>,
    pub code_hash: String,
    pub failed_attempts: i16,
    pub expired: bool,
}

/// Whether starting verification stores a new attempt.
#[derive(Debug, Clone, Copy, PartialEq, Eq, Structural)]
pub enum StartPendingVerificationResult {
    Created,
    Reused,
}

/// A new code replaces the stored attempt unless that attempt is still
/// running and named: there is none, it expired, or it has no display name.
pub fn start_result(existing: Option<(bool, bool)>) -> (r: StartPendingVerificationResult)
    ensures
        (r == StartPendingVerificationResult::Created) <==> (match existing {
            None => true,
            Some((expired, has_display_name)) => expired || !has_display_name,
        }),
{
    match existing {
        None => StartPendingVerificationResult::Created,
        Some((expired, has_display_name)) => if expired || !has_display_name {
            StartPendingVerificationResult::Created
        } else {
            StartPendingVerificationResult::Reused
        },
    }
}

/// What checking a code answers.
#[derive(Debug)]
pub enum CheckPendingVerificationResult {
    Accepted { email: EmailAddress, display_name: DisplayName },
    Missing,
    Expired,
    Incorrect { attempts_remaining: u8, has_attempts_remaining: bool },
}

/// What checking a code changes in storage.
#[derive(Debug, Clone, Copy, PartialEq, Eq, Structural)]
pub enum PendingChange {
    /// Nothing.
    Keep,
    /// The attempt is removed.
    Delete,
    /// The attempt's count of wrong codes becomes this.
    RecordFailures(i16),
    /// The identity is stored as verified, with a confirmed display name,
    /// and the attempt is removed.
    Accept,
}

/// Why a code could not be checked.
#[derive(Debug)]
pub enum PendingCheckError {
    Code(CodeHashError),
    StoredEmail(IdentityError),
    StoredDisplayName(IdentityError),
}

/// The count of wrong codes after one more (saturating).
pub open spec fn failures_after(failed: i16) -> i16 {
    if failed == i16::MAX {
        failed
    } else {
        (failed + 1) as i16
    }
}

/// The attempts left after one more wrong code, as reported.
pub open spec fn remaining_after(failed: i16) -> u8 {
    let d = MAX_FAILED_ATTEMPTS - failures_after(failed);
    (if d > i16::MAX {
        i16::MAX
    } else {
        d as i16
    }) as u8
}

/// The decision for a stored attempt that is neither expired nor unnamed,
/// given how the submitted code checked.
pub open spec fn checked_outcome_ok(
    attempt: PendingAttempt,
    check: CodeCheck,
    r: Result<(CheckPendingVerificationResult, PendingChange), PendingCheckError>,
) -> bool {
    match check {
        CodeCheck::Matches => match email_result(attempt.email@) {
            Err(e) => r matches Err(PendingCheckError::StoredEmail(e2)) && e2 == e,
            Ok(email) => match display_name_result(attempt.display_name->0@) {
                Err(e) => r matches Err(PendingCheckError::StoredDisplayName(e2)) && e2 == e,
                Ok(name) => r matches Ok(
                    (CheckPendingVerificationResult::Accepted { email: em, display_name: n }, change),
                ) && em@ == email && n@ == name && change == PendingChange::Accept,
            },
        },
        CodeCheck::DoesNotMatch => {
            let failed = failures_after(attempt.failed_attempts);
            let has = failed < MAX_FAILED_ATTEMPTS;
            r matches Ok(
                (
                    CheckPendingVerificationResult::Incorrect {
                        attempts_remaining,
                        has_attempts_remaining,
                    },
                    change,
                ),
            ) && attempts_remaining == remaining_after(attempt.failed_attempts)
                && has_attempts_remaining == has && change == (if has {
                PendingChange::RecordFailures(failed)
            } else {
                PendingChange::Delete
            })
        },
        _ => r matches Err(PendingCheckError::Code(e)) && check_of(Err(e)) == check,
    }
}

/// The decision for a stored attempt given how the submitted code checked:
/// an expired attempt is consumed; an unnamed one is consumed as missing;
/// otherwise the check decides.
pub open spec fn outcome_ok(
    attempt: PendingAttempt,
    check: CodeCheck,
    r: Result<(CheckPendingVerificationResult, PendingChange), PendingCheckError>,
) -> bool {
    if attempt.expired {
        r matches Ok((CheckPendingVerificationResult::Expired, PendingChange::Delete))
    } else if attempt.display_name is None {
        r matches Ok((CheckPendingVerificationResult::Missing, PendingChange::Delete))
    } else {
        checked_outcome_ok(attempt, check, r)
    }
}

/// What a stored attempt answers for a code whose check gave `verdict`.
pub fn attempt_outcome(attempt: &PendingAttempt, verdict: Result<bool, CodeHashError>) -> (r: Result<(CheckPendingVerificationResult, PendingChange), PendingCheckError>)
    ensures
        outcome_ok(*attempt, check_of(verdict), r),
{
    if attempt.expired {
        return Ok((CheckPendingVerificationResult::Expired, PendingChange::Delete));
    }
    let stored_name = match &attempt.display_name {
        Some(name) => name,
        None => return Ok((CheckPendingVerificationResult::Missing, PendingChange::Delete)),
    };
    match verdict {
        Ok(true) => {
            let email = match EmailAddress::parse(attempt.email.as_str()) {
                Ok(email) => email,
                Err(e) => return Err(PendingCheckError::StoredEmail(e)),
            };
            let display_name = match DisplayName::parse(stored_name.as_str()) {
                Ok(name) => name,
                Err(e) => return Err(PendingCheckError::StoredDisplayName(e)),
            };
            Ok((CheckPendingVerificationResult::Accepted { email, display_name }, PendingChange::Accept))
        },
        Ok(false) => {
            let failed: i16 = if attempt.failed_attempts == i16::MAX {
                i16::MAX
            } else {
                attempt.failed_attempts + 1
            };
            let left: i16 = if failed < MAX_FAILED_ATTEMPTS - 32767 {
                i16::MAX
            } else {
                MAX_FAILED_ATTEMPTS - failed
            };
            let attempts_remaining = left as u8;
            let has_attempts_remaining = failed < MAX_FAILED_ATTEMPTS;
            let change = if has_attempts_remaining {
                PendingChange::RecordFailures(failed)
            } else {
                PendingChange::Delete
            };
            Ok(
                (
                    CheckPendingVerificationResult::Incorrect { attempts_remaining, has_attempts_remaining },
                    change,
                ),
            )
        },
        Err(e) => Err(PendingCheckError::Code(e)),
    }
}

/// Checks a submitted code against the stored attempt of a member, if any;
/// the code is checked only for an attempt that is running and named.
pub fn check_code(attempt: Option<PendingAttempt>, submitted_code: &str) -> (r: Result<(CheckPendingVerificationResult, PendingChange), PendingCheckError>)
    ensures
        match attempt {
            None => r matches Ok((CheckPendingVerificationResult::Missing, PendingChange::Keep)),
            Some(a) => outcome_ok(a, code_check(a.code_hash@, submitted_code@), r),
        },
{
    match attempt {
        None => Ok((CheckPendingVerificationResult::Missing, PendingChange::Keep)),
        Some(a) => {
            if a.expired || a.display_name.is_none() {
                return attempt_outcome(&a, Ok(false));
            }
            let verdict = VerificationCode::verify_hash(a.code_hash.as_str(), submitted_code);
            attempt_outcome(&a, verdict)
        },
    }
}

/// Wrong codes are counted across checks: a running, named attempt that
/// has seen `f` wrong codes (fewer than five) answers a wrong code with
/// `4 - f` attempts left; it records `f + 1` wrong codes while some are
/// left and is removed with the fifth.
pub proof fn lemma_failed_attempt_limit(
    attempt: PendingAttempt,
    r: Result<(CheckPendingVerificationResult, PendingChange), PendingCheckError>,
)
    requires
        !attempt.expired,
        attempt.display_name is Some,
        0 <= attempt.failed_attempts < MAX_FAILED_ATTEMPTS,
        outcome_ok(attempt, CodeCheck::DoesNotMatch, r),
    ensures
        r matches Ok(
            (
                CheckPendingVerificationResult::Incorrect { attempts_remaining, has_attempts_remaining },
                change,
            ),
        ) && attempts_remaining == 4 - attempt.failed_attempts && has_attempts_remaining == (
        attempt.failed_attempts < 4) && change == (if attempt.failed_attempts < 4 {
            PendingChange::RecordFailures((attempt.failed_attempts + 1) as i16)
        } else {
            PendingChange::Delete
        }),
{
    let x: i16 = (MAX_FAILED_ATTEMPTS - failures_after(attempt.failed_attempts)) as i16;
    assert(0 <= x <= 4);
    assert((x as u8) as i16 == x) by (bit_vector)
        requires
            0 <= x <= 5,
    ;
}

} // verus!
