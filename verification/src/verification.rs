//! In-process verification attempts: a code, its expiry and a failed-attempt
//! budget, kept for one member while they verify one address.
use vstd::prelude::*;
use crate::crypto::random_six_digit_number;
use crate::decimal::{all_digits, zero_padded, zero_padded_chars};
use crate::domain::verification::{is_six_digit_code, lemma_six_digit_code};
use crate::text::{chars_of, push_str, same_chars, split_once, split_once_chars, string_from,
    trim, trim_str};

verus! {

/// How long a verification code stays valid, in milliseconds.
pub const VERIFICATION_CODE_TTL_MILLIS: u64 = 3_600_000;

/// How many wrong codes an attempt tolerates.
pub const MAX_FAILED_ATTEMPTS: u8 = 5;

/// Why an address was refused.
#[derive(Debug, Clone, Copy, PartialEq, Eq, Structural)]
pub enum EmailError {
    MissingAt,
    MissingUserOrDomain,
}

impl EmailError {
    pub fn to_string(&self) -> (s: String)
        ensures
            s@ == match self {
                EmailError::MissingAt => "Invalid email: missing '@' symbol"@,
                EmailError::MissingUserOrDomain => "Invalid Email: missing user or domain"@,
            },
    {
        match self {
            EmailError::MissingAt => String::from_str("Invalid email: missing '@' symbol"),
            EmailError::MissingUserOrDomain => String::from_str(
                "Invalid Email: missing user or domain",
            ),
        }
    }
}

/// An address split at its first `@`, both parts non-empty, kept as written.
#[derive(Debug, Clone)]
pub struct EmailAddress {
    user: String,
    domain: String,
}

impl View for EmailAddress {
    type V = (Seq<char>, Seq<char>);

    closed spec fn view(&self) -> (Seq<char>, Seq<char>) {
        (self.user@, self.domain@)
    }
}

/// What `EmailAddress::parse` makes of `input`.
pub open spec fn email_result(input: Seq<char>) -> Result<(Seq<char>, Seq<char>), EmailError> {
    match split_once(input, '@') {
        None => Err(EmailError::MissingAt),
        Some((user, domain)) => if user.len() == 0 || domain.len() == 0 {
            Err(EmailError::MissingUserOrDomain)
        } else {
            Ok((user, domain))
        },
    }
}

impl EmailAddress {
    pub fn parse(email: &str) -> (r: Result<EmailAddress, EmailError>)
        ensures
            r matches Ok(e) ==> email_result(email@) == Ok::<(Seq<char>, Seq<char>), EmailError>(e@),
            r matches Err(err) ==> email_result(email@) == Err::<(Seq<char>, Seq<char>), EmailError>(err),
    {
        let chars = chars_of(email);
        let (user, domain) = match split_once_chars(&chars, '@') {
            Some(parts) => parts,
            None => return Err(EmailError::MissingAt),
        };
        if user.len() == 0 || domain.len() == 0 {
            return Err(EmailError::MissingUserOrDomain);
        }
        Ok(EmailAddress { user: string_from(&user), domain: string_from(&domain) })
    }

    /// The address as `Display` writes it: `user@domain`.
    pub fn to_string(&self) -> (s: String)
        ensures
            s@ == self@.0 + "@"@ + self@.1,
    {
        let mut out = self.user.clone();
        push_str(&mut out, "@");
        push_str(&mut out, self.domain.as_str());
        out
    }
}

/// A six-digit code sent to a member.
#[derive(Debug, Clone)]
pub struct VerificationCode {
    code: String,
}

impl View for VerificationCode {
    type V = Seq<char>;

    closed spec fn view(&self) -> Seq<char> {
        self.code@
    }
}

impl VerificationCode {
    /// A fresh random code: a number from `0..=999_999` in six digits;
    /// `None` when the system's random source fails.
    pub fn generate() -> (r: Option<VerificationCode>)
        ensures
            r matches Some(code) ==> is_six_digit_code(code@) && code@.len() == 6 && all_digits(code@),
    {
        let n = match random_six_digit_number() {
            Some(n) => n,
            None => return None,
        };
        let digits = zero_padded_chars(n as u64, 6);
        proof {
            lemma_six_digit_code(n as nat);
            assert(zero_padded(n as nat, 6) == digits@);
        }
        Some(VerificationCode { code: string_from(&digits) })
    }

    /// Whether a submitted code, trimmed, is this code.
    pub fn matches(&self, submitted_code: &str) -> (b: bool)
        ensures
            b == (self@ == trim(submitted_code@)),
    {
        let mine = chars_of(self.code.as_str());
        let theirs = trim_str(submitted_code);
        same_chars(&mine, &theirs)
    }

    /// The code, as `Display` writes it.
    pub fn to_string(&self) -> (s: String)
        ensures
            s@ == self@,
    {
        self.code.clone()
    }
}

/// The view of an attempt: `expires_at` in milliseconds since the Unix epoch.
pub struct AttemptView {
    pub user_id: u64,
    pub email: (Seq<char>, Seq<char>),
    pub code: Seq<char>,
    pub expires_at: u64,
    pub failed_attempts: u8,
}

/// A member's pending verification of one address.
#[derive(Debug, Clone)]
pub struct VerificationAttempt {
    user_id: u64,
    email: EmailAddress,
    code: VerificationCode,
    expires_at: u64,
    failed_attempts: u8,
}

impl View for VerificationAttempt {
    type V = AttemptView;

    closed spec fn view(&self) -> AttemptView {
        AttemptView {
            user_id: self.user_id,
            email: self.email@,
            code: self.code@,
            expires_at: self.expires_at,
            failed_attempts: self.failed_attempts,
        }
    }
}

/// The expiry of an attempt started at `now`, in milliseconds.
pub open spec fn expiry_after(now: u64) -> u64 {
    if now + VERIFICATION_CODE_TTL_MILLIS > u64::MAX {
        u64::MAX
    } else {
        (now + VERIFICATION_CODE_TTL_MILLIS) as u64
    }
}

/// The wall-clock time in milliseconds since the Unix epoch
/// (`SystemTime::now`, measured from `UNIX_EPOCH`; 0 before the epoch).
/// Nothing is claimed of the value: it is the time.
#[verifier::external_body]
fn now_millis() -> u64 {
    match std::time::SystemTime::now().duration_since(std::time::UNIX_EPOCH) {
        Ok(elapsed) => elapsed.as_millis() as u64,
        Err(_) => 0,
    }
}

/// Whether an attempt has expired at time `now` (milliseconds).
pub open spec fn expired_by(a: AttemptView, now: u64) -> bool {
    now >= a.expires_at
}

impl VerificationAttempt {
    /// An attempt started now, with a fresh code, expiring in one hour;
    /// `None` when no code could be drawn.
    pub fn new(user_id: u64, email: EmailAddress) -> (r: Option<Self>)
        ensures
            r matches Some(a) ==> {
                &&& a@.user_id == user_id
                &&& a@.email == email@
                &&& a@.failed_attempts == 0
                &&& exists|t: u64| a@.expires_at == #[trigger] expiry_after(t)
                &&& is_six_digit_code(a@.code)
            },
    {
        let now = now_millis();
        let r = Self::started_at(user_id, email, now);
        match r {
            Some(a) => {
                assert(a@.expires_at == expiry_after(now));
                Some(a)
            },
            None => None,
        }
    }

    /// An attempt started at `now`, with a fresh code, expiring one hour
    /// later; `None` when no code could be drawn.
    pub fn started_at(user_id: u64, email: EmailAddress, now: u64) -> (r: Option<Self>)
        ensures
            r matches Some(a) ==> {
                &&& a@.user_id == user_id
                &&& a@.email == email@
                &&& a@.failed_attempts == 0
                &&& a@.expires_at == expiry_after(now)
                &&& is_six_digit_code(a@.code)
            },
    {
        let code = match VerificationCode::generate() {
            Some(code) => code,
            None => return None,
        };
        Some(VerificationAttempt {
            user_id,
            email,
            code,
            expires_at: now.saturating_add(VERIFICATION_CODE_TTL_MILLIS),
            failed_attempts: 0,
        })
    }

    pub fn user_id(&self) -> (v: u64)
        ensures
            v == self@.user_id,
    {
        self.user_id
    }

    pub fn email(&self) -> (e: &EmailAddress)
        ensures
            e@ == self@.email,
    {
        &self.email
    }

    pub fn code(&self) -> (c: &VerificationCode)
        ensures
            c@ == self@.code,
    {
        &self.code
    }

    /// Whether the attempt has expired by now: by the clock's reading,
    /// whatever it was.
    pub fn is_expired(&self) -> (b: bool)
        ensures
            exists|now: u64| b == #[trigger] expired_by(self@, now),
    {
        let now = now_millis();
        let b = self.is_expired_at(now);
        assert(b == expired_by(self@, now));
        b
    }

    /// Whether the attempt has expired by `now`.
    pub fn is_expired_at(&self, now: u64) -> (b: bool)
        ensures
            b == (now >= self@.expires_at),
    {
        now >= self.expires_at
    }

    pub fn code_matches(&self, submitted_code: &str) -> (b: bool)
        ensures
            b == (self@.code == trim(submitted_code@)),
    {
        self.code.matches(submitted_code)
    }

    /// Counts one more wrong code, saturating at 255.
    pub fn register_failed_attempt(&mut self)
        ensures
            final(self)@ == (AttemptView {
                failed_attempts: one_more_failure(old(self)@.failed_attempts),
                ..old(self)@
            }),
            final(self)@ == after_wrong_codes(old(self)@, 1),
    {
        proof {
            lemma_one_more_failure(self.failed_attempts);
        }
        self.failed_attempts = self.failed_attempts.saturating_add(1);
    }

    /// How many wrong codes the attempt still tolerates.
    pub fn attempts_remaining(&self) -> (n: u8)
        ensures
            n == remaining_after(self@.failed_attempts),
    {
        MAX_FAILED_ATTEMPTS.saturating_sub(self.failed_attempts)
    }

    pub fn has_attempts_remaining(&self) -> (b: bool)
        ensures
            b == (self@.failed_attempts < MAX_FAILED_ATTEMPTS),
    {
        self.failed_attempts < MAX_FAILED_ATTEMPTS
    }
}

/// The failure count after one more wrong code: one more, saturating at 255.
pub open spec fn one_more_failure(failed: u8) -> u8 {
    if failed == 255 {
        255
    } else {
        (failed + 1) as u8
    }
}

/// The failure count after `k` more wrong codes.
pub open spec fn failures_after(failed: u8, k: nat) -> u8
    decreases k,
{
    if k == 0 {
        failed
    } else {
        one_more_failure(failures_after(failed, (k - 1) as nat))
    }
}

/// An attempt after `k` more wrong codes: only its failure count moves.
pub open spec fn after_wrong_codes(a: AttemptView, k: nat) -> AttemptView {
    AttemptView { failed_attempts: failures_after(a.failed_attempts, k), ..a }
}

/// One more wrong code is one step of `failures_after`.
proof fn lemma_one_more_failure(failed: u8)
    ensures
        failures_after(failed, 1) == one_more_failure(failed),
{
    reveal_with_fuel(failures_after, 2);
}

/// How many wrong codes an attempt with `failed` failures still tolerates.
pub open spec fn remaining_after(failed: u8) -> u8 {
    if failed >= MAX_FAILED_ATTEMPTS {
        0
    } else {
        (MAX_FAILED_ATTEMPTS - failed) as u8
    }
}

/// A fresh attempt that has seen `k` wrong codes tolerates `5 - min(k, 5)`
/// more, and has attempts remaining exactly while `k < 5`.
pub proof fn lemma_failed_attempts(k: nat)
    ensures
        failures_after(0, k) == (if k >= 255 { 255 } else { k }),
        remaining_after(failures_after(0, k)) == MAX_FAILED_ATTEMPTS - (if k >= 5 { 5 } else { k }),
        (failures_after(0, k) < MAX_FAILED_ATTEMPTS) <==> k < 5,
        (failures_after(0, k) < MAX_FAILED_ATTEMPTS) <==> remaining_after(failures_after(0, k)) > 0,
    decreases k,
{
    if k > 0 {
        lemma_failed_attempts((k - 1) as nat);
    }
}

/// Of an attempt made by `new` (no failures yet) and then sent `k` wrong
/// codes through `register_failed_attempt`: one more wrong code makes it the
/// attempt after `k + 1`; it then tolerates `5 - min(k, 5)` more wrong codes
/// (`attempts_remaining`), has attempts remaining (`has_attempts_remaining`)
/// exactly when `k < 5`, which is exactly when that count is above 0; and its
/// member, address, code and expiry stay as they were.
pub proof fn lemma_wrong_codes_on_attempt(a: AttemptView, k: nat)
    requires
        a.failed_attempts == 0,
    ensures
        after_wrong_codes(after_wrong_codes(a, k), 1) == after_wrong_codes(a, k + 1),
        remaining_after(after_wrong_codes(a, k).failed_attempts) == MAX_FAILED_ATTEMPTS - (if k >= 5 {
            5
        } else {
            k
        }),
        (after_wrong_codes(a, k).failed_attempts < MAX_FAILED_ATTEMPTS) <==> k < 5,
        (after_wrong_codes(a, k).failed_attempts < MAX_FAILED_ATTEMPTS) <==> remaining_after(
            after_wrong_codes(a, k).failed_attempts,
        ) > 0,
        after_wrong_codes(a, k).user_id == a.user_id && after_wrong_codes(a, k).email == a.email
            && after_wrong_codes(a, k).code == a.code && after_wrong_codes(a, k).expires_at == a.expires_at,
{
    lemma_failed_attempts(k);
    lemma_one_more_failure(failures_after(0, k));
    assert(failures_after(failures_after(0, k), 1) == failures_after(0, k + 1));
}

/// An attempt whose expiry was set from a clock reading `t` is expired at
/// `now` exactly when one hour has passed since `t` (or, where that would pass
/// the end of the clock, when the clock has reached its end); once expired it
/// stays expired at every later time, and wrong codes do not move its expiry.
pub proof fn lemma_expiry_after_reading(a: AttemptView, t: u64, now: u64, later: u64)
    requires
        a.expires_at == expiry_after(t),
    ensures
        t + VERIFICATION_CODE_TTL_MILLIS <= u64::MAX ==> (expired_by(a, now) <==> now >= t
            + VERIFICATION_CODE_TTL_MILLIS),
        t + VERIFICATION_CODE_TTL_MILLIS > u64::MAX ==> (expired_by(a, now) <==> now == u64::MAX),
        expired_by(a, now) && now <= later ==> expired_by(a, later),
        expired_by(AttemptView { failed_attempts: one_more_failure(a.failed_attempts), ..a }, now)
            == expired_by(a, now),
{
}

/// An attempt has attempts remaining exactly when the remaining count is not
/// zero, and each wrong code spends one of them until none is left.
pub proof fn lemma_attempt_budget(failed: u8)
    ensures
        (failed < MAX_FAILED_ATTEMPTS) <==> (if failed >= MAX_FAILED_ATTEMPTS {
            0
        } else {
            MAX_FAILED_ATTEMPTS - failed
        }) > 0,
        failed < MAX_FAILED_ATTEMPTS ==> (if failed + 1 >= MAX_FAILED_ATTEMPTS as int {
            0
        } else {
            MAX_FAILED_ATTEMPTS - (failed + 1)
        }) == (MAX_FAILED_ATTEMPTS - failed) - 1,
{
}

} // verus!
