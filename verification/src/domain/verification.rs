//! Verified identities: preferred names, email addresses and verification codes.
use vstd::prelude::*;
use crate::crypto::{argon2_hash, argon2_verdict, argon2_verify, parse_phc_hash,
    phc_hash_parses, random_six_digit_number};
use crate::decimal::{all_digits, zero_padded, zero_padded_chars};
use crate::text::{
    any_control, any_white, chars_of, contains_char, has_control, has_white, lowercase,
    lowercased, push_str, split_once, split_once_chars, string_from, trim, trim_str,
};

verus! {

/// What a preferred name or an email address can be refused for.
#[derive(Debug, Clone, Copy, PartialEq, Eq, Structural)]
pub enum IdentityError {
    NameEmpty,
    NameTooLong,
    NameHasControlCharacters,
    NameTooLongForNickname,
    EmailMissingAt,
    EmailMissingUserOrDomain,
    EmailTooManyAt,
    EmailHasWhitespace,
}

pub open spec fn identity_error_text(e: IdentityError) -> Seq<char> {
    match e {
        IdentityError::NameEmpty => "Preferred name cannot be empty"@,
        IdentityError::NameTooLong => "Preferred name cannot be longer than 100 characters"@,
        IdentityError::NameHasControlCharacters =>
            "Preferred name cannot contain control characters"@,
        IdentityError::NameTooLongForNickname =>
            "Preferred name cannot be longer than 32 characters because it is also used as your Discord nickname"@,
        IdentityError::EmailMissingAt => "Invalid email: missing '@' symbol"@,
        IdentityError::EmailMissingUserOrDomain => "Invalid email: missing user or domain"@,
        IdentityError::EmailTooManyAt => "Invalid email: too many '@' symbols"@,
        IdentityError::EmailHasWhitespace => "Invalid email: whitespace is not allowed"@,
    }
}

impl IdentityError {
    /// The error's message.
    pub fn to_string(&self) -> (s: String)
        ensures
            s@ == identity_error_text(*self),
    {
        let text = match self {
            IdentityError::NameEmpty => "Preferred name cannot be empty",
            IdentityError::NameTooLong => "Preferred name cannot be longer than 100 characters",
            IdentityError::NameHasControlCharacters =>
                "Preferred name cannot contain control characters",
            IdentityError::NameTooLongForNickname =>
                "Preferred name cannot be longer than 32 characters because it is also used as your Discord nickname",
            IdentityError::EmailMissingAt => "Invalid email: missing '@' symbol",
            IdentityError::EmailMissingUserOrDomain => "Invalid email: missing user or domain",
            IdentityError::EmailTooManyAt => "Invalid email: too many '@' symbols",
            IdentityError::EmailHasWhitespace => "Invalid email: whitespace is not allowed",
        };
        String::from_str(text)
    }
}

/// The longest preferred name that also fits as a Discord nickname.
pub const DISCORD_NICKNAME_MAX_LENGTH: usize = 32;

/// A member's preferred name: trimmed, not empty, at most 100 characters,
/// without control characters.
#[derive(Debug, Clone, PartialEq, Eq)]
pub struct DisplayName(String);

impl View for DisplayName {
    type V = Seq<char>;

    closed spec fn view(&self) -> Seq<char> {
        self.0@
    }
}

/// What `DisplayName::parse` makes of `input`.
pub open spec fn display_name_result(input: Seq<char>) -> Result<Seq<char>, IdentityError> {
    let name = trim(input);
    if name.len() == 0 {
        Err(IdentityError::NameEmpty)
    } else if name.len() > 100 {
        Err(IdentityError::NameTooLong)
    } else if has_control(name) {
        Err(IdentityError::NameHasControlCharacters)
    } else {
        Ok(name)
    }
}

/// What `DisplayName::parse_discord_nickname` makes of `input`.
pub open spec fn nickname_result(input: Seq<char>) -> Result<Seq<char>, IdentityError> {
    match display_name_result(input) {
        Ok(name) => if name.len() > 32 {
            Err(IdentityError::NameTooLongForNickname)
        } else {
            Ok(name)
        },
        Err(e) => Err(e),
    }
}

impl DisplayName {
    pub fn parse(display_name: &str) -> (r: Result<Self, IdentityError>)
        ensures
            r matches Ok(name) ==> display_name_result(display_name@) == Ok::<Seq<char>, IdentityError>(name@),
            r matches Err(e) ==> display_name_result(display_name@) == Err::<Seq<char>, IdentityError>(e),
    {
        let name = trim_str(display_name);
        if name.len() == 0 {
            return Err(IdentityError::NameEmpty);
        }
        if name.len() > 100 {
            return Err(IdentityError::NameTooLong);
        }
        if any_control(&name) {
            return Err(IdentityError::NameHasControlCharacters);
        }
        Ok(DisplayName(string_from(&name)))
    }

    pub fn parse_discord_nickname(display_name: &str) -> (r: Result<Self, IdentityError>)
        ensures
            r matches Ok(name) ==> nickname_result(display_name@) == Ok::<Seq<char>, IdentityError>(name@),
            r matches Err(e) ==> nickname_result(display_name@) == Err::<Seq<char>, IdentityError>(e),
    {
        let name = Self::parse(display_name)?;
        if name.char_count() > DISCORD_NICKNAME_MAX_LENGTH {
            return Err(IdentityError::NameTooLongForNickname);
        }
        Ok(name)
    }

    fn char_count(&self) -> (n: usize)
        ensures
            n == self@.len(),
    {
        chars_of(self.0.as_str()).len()
    }

    pub fn as_str(&self) -> (s: &str)
        ensures
            s@ == self@,
    {
        self.0.as_str()
    }

    /// The name, as `Display` writes it.
    pub fn to_string(&self) -> (s: String)
        ensures
            s@ == self@,
    {
        self.0.clone()
    }

    /// Whether two names are the same text.
    pub fn same_as(&self, other: &DisplayName) -> (b: bool)
        ensures
            b == (self@ == other@),
    {
        let a = chars_of(self.0.as_str());
        let o = chars_of(other.0.as_str());
        crate::text::same_chars(&a, &o)
    }
}

/// An email address: a user part and a lowercase domain, split at the only `@`,
/// neither empty nor holding white space.
#[derive(Debug, Clone, PartialEq, Eq)]
pub struct EmailAddress {
    user: String,
    domain: String,
}

impl View for EmailAddress {
    type V = (Seq<char>, Seq<char>);

    closed spec fn view(&self) -> (Seq<char>, Seq<char>) {
        (self.user@, self.domain@)
    }
}

/// What `EmailAddress::parse` makes of `input`: the user part and the
/// lowercased domain.
pub open spec fn email_result(input: Seq<char>) -> Result<(Seq<char>, Seq<char>), IdentityError> {
    match split_once(trim(input), '@') {
        None => Err(IdentityError::EmailMissingAt),
        Some((user, domain)) => if user.len() == 0 || domain.len() == 0 {
            Err(IdentityError::EmailMissingUserOrDomain)
        } else if domain.contains('@') {
            Err(IdentityError::EmailTooManyAt)
        } else if has_white(user) || has_white(domain) {
            Err(IdentityError::EmailHasWhitespace)
        } else {
            Ok((user, lowercase(domain)))
        },
    }
}

/// An email address as `Display` writes it: `user@domain`.
pub open spec fn email_text(email: (Seq<char>, Seq<char>)) -> Seq<char> {
    email.0 + seq!['@'] + email.1
}

impl EmailAddress {
    pub fn parse(email: &str) -> (r: Result<Self, IdentityError>)
        ensures
            r matches Ok(e) ==> email_result(email@) == Ok::<(Seq<char>, Seq<char>), IdentityError>(e@),
            r matches Err(err) ==> email_result(email@) == Err::<(Seq<char>, Seq<char>), IdentityError>(err),
    {
        let email = trim_str(email);
        let (user, domain) = match split_once_chars(&email, '@') {
            Some(parts) => parts,
            None => return Err(IdentityError::EmailMissingAt),
        };
        if user.len() == 0 || domain.len() == 0 {
            return Err(IdentityError::EmailMissingUserOrDomain);
        }
        if contains_char(&domain, '@') {
            return Err(IdentityError::EmailTooManyAt);
        }
        if any_white(&user) || any_white(&domain) {
            return Err(IdentityError::EmailHasWhitespace);
        }
        let domain = lowercased(&domain);
        Ok(EmailAddress { user: string_from(&user), domain: string_from(&domain) })
    }

    pub fn domain(&self) -> (s: &str)
        ensures
            s@ == self@.1,
    {
        self.domain.as_str()
    }

    /// The address as `Display` writes it: `user@domain`.
    pub fn to_string(&self) -> (s: String)
        ensures
            s@ == email_text(self@),
    {
        let mut out = self.user.clone();
        push_str(&mut out, "@");
        push_str(&mut out, self.domain.as_str());
        proof {
            reveal_strlit("@");
        }
        out
    }

    /// Whether two addresses are the same.
    pub fn same_as(&self, other: &EmailAddress) -> (b: bool)
        ensures
            b == (self@ == other@),
    {
        let u1 = chars_of(self.user.as_str());
        let u2 = chars_of(other.user.as_str());
        let d1 = chars_of(self.domain.as_str());
        let d2 = chars_of(other.domain.as_str());
        crate::text::same_chars(&u1, &u2) && crate::text::same_chars(&d1, &d2)
    }
}

/// A stored email address reads back as the same address.
pub proof fn lemma_email_text_round_trip(input: Seq<char>)
    requires
        email_result(input) is Ok,
    ensures
        email_result(email_text(email_result(input)->Ok_0)) == email_result(input),
{
    let (user, domain) = split_once(trim(input), '@')->0;
    crate::text::lemma_find(trim(input), '@');
    let i = crate::text::find(trim(input), '@')->0;
    let low = lowercase(domain);
    let text = user + seq!['@'] + low;
    assert(!user.contains('@')) by {
        if user.contains('@') {
            let k = choose|k: int| 0 <= k < user.len() && user[k] == '@';
            assert(trim(input).take(i)[k] == '@');
        }
    }
    assert(!low.contains('@')) by {
        if low.contains('@') {
            let k = choose|k: int| 0 <= k < low.len() && low[k] == '@';
            assert(domain[k] == '@');
        }
    }
    assert(!has_white(low)) by {
        if has_white(low) {
            let k = choose|k: int| 0 <= k < low.len() && crate::text::is_white(#[trigger] low[k]);
            assert(crate::text::is_white(domain[k]));
        }
    }
    // The text has no white space at its ends, so trimming keeps it.
    assert(!crate::text::is_white(text[0]));
    assert(text.last() == low.last());
    assert(!crate::text::is_white(text.last()));
    assert(trim(text) == text) by {
        assert(crate::text::trim_start(text) == text);
        assert(crate::text::trim_end(text) == text);
    }
    // Its first `@` is the one between the parts.
    crate::text::lemma_find(text, '@');
    let j = crate::text::find(text, '@')->0;
    assert(text[user.len() as int] == '@');
    if j < user.len() {
        assert(text[j] == user[j]);
    }
    if j > user.len() {
        assert(text.take(j)[user.len() as int] == '@');
    }
    assert(j == user.len());
    assert(text.take(j) =~= user);
    assert(text.skip(j + 1) =~= low);
    assert(lowercase(low) =~= low);
}

/// A stored preferred name reads back as the same name.
pub proof fn lemma_display_name_round_trip(input: Seq<char>)
    requires
        display_name_result(input) is Ok,
    ensures
        display_name_result(display_name_result(input)->Ok_0) == display_name_result(input),
{
    let name = trim(input);
    crate::text::lemma_trim_shape(input);
    crate::text::lemma_trim_shape(crate::text::trim_start(input));
    assert(name.len() > 0);
    assert(!crate::text::is_white(name[0])) by {
        // `name` starts where the trimmed start starts
        crate::text::lemma_trim_end_is_prefix(crate::text::trim_start(input));
    }
    assert(!crate::text::is_white(name.last()));
    assert(crate::text::trim_start(name) == name);
    assert(crate::text::trim_end(name) == name);
}

/// A six-digit verification code.
#[derive(Debug, Clone)]
pub struct VerificationCode {
    code: String,
}

impl View for VerificationCode {
    type V = Seq<char>;

    closed spec fn view(&self) -> Seq<char> {
        self.code@
    }
}

/// Whether `code` is a number from `0..=999_999` written with six digits.
pub open spec fn is_six_digit_code(code: Seq<char>) -> bool {
    exists|n: nat| n <= 999_999 && code == #[trigger] zero_padded(n, 6)
}

pub open spec fn pow10(k: nat) -> nat
    decreases k,
{
    if k == 0 {
        1
    } else {
        10 * pow10((k - 1) as nat)
    }
}

proof fn lemma_decimal_len(n: nat, k: nat)
    requires
        k >= 1,
        n < pow10(k),
    ensures
        crate::decimal::decimal(n).len() <= k,
    decreases k,
{
    if n >= 10 {
        assert(k >= 2) by {
            if k == 1 {
                assert(pow10(1) == 10 * pow10(0));
            }
        }
        assert(pow10(k) == 10 * pow10((k - 1) as nat));
        assert(n / 10 < pow10((k - 1) as nat)) by (nonlinear_arith)
            requires
                n < 10 * pow10((k - 1) as nat),
        ;
        lemma_decimal_len(n / 10, (k - 1) as nat);
    }
}

/// A six-digit code is six ASCII digits.
pub proof fn lemma_six_digit_code(n: nat)
    requires
        n <= 999_999,
    ensures
        zero_padded(n, 6).len() == 6,
        all_digits(zero_padded(n, 6)),
{
    reveal_with_fuel(pow10, 7);
    assert(pow10(6) == 1_000_000);
    lemma_decimal_len(n, 6);
    crate::decimal::lemma_decimal(n);
    let d = crate::decimal::decimal(n);
    let z = zero_padded(n, 6);
    if d.len() < 6 {
        let pad = Seq::new((6 - d.len()) as nat, |i: int| '0');
        assert forall|i: int| 0 <= i < z.len() implies crate::text::is_ascii_digit(#[trigger] z[i]) by {
            if i < pad.len() {
                assert(z[i] == '0');
            } else {
                assert(z[i] == d[i - pad.len()]);
            }
        }
    }
}

/// Why hashing or checking a verification code failed.
#[derive(Debug, Clone, PartialEq, Eq)]
pub enum CodeHashError {
    /// Hashing the code failed; the hasher's message.
    Hashing(String),
    /// The stored hash is not a PHC hash; the parser's message.
    MalformedHash(String),
    /// Checking the code failed for another reason than a mismatch.
    VerificationFailed(String),
}

/// How a submitted code checks against a stored hash, without the messages.
#[derive(Debug, Clone, Copy, PartialEq, Eq, Structural)]
pub enum CodeCheck {
    Matches,
    DoesNotMatch,
    MalformedHash,
    VerificationFailed,
}

/// What `VerificationCode::verify_hash` answers for a stored hash and a
/// submitted code: the submitted code is trimmed, then checked.
pub open spec fn code_check(code_hash: Seq<char>, submitted: Seq<char>) -> CodeCheck {
    if !phc_hash_parses(code_hash) {
        CodeCheck::MalformedHash
    } else {
        match argon2_verdict(code_hash, trim(submitted)) {
            Some(true) => CodeCheck::Matches,
            Some(false) => CodeCheck::DoesNotMatch,
            None => CodeCheck::VerificationFailed,
        }
    }
}

pub open spec fn check_of(r: Result<bool, CodeHashError>) -> CodeCheck {
    match r {
        Ok(true) => CodeCheck::Matches,
        Ok(false) => CodeCheck::DoesNotMatch,
        Err(CodeHashError::MalformedHash(_)) => CodeCheck::MalformedHash,
        Err(_) => CodeCheck::VerificationFailed,
    }
}

impl CodeHashError {
    pub fn to_string(&self) -> (s: String)
        ensures
            s@ == match self {
                CodeHashError::Hashing(m) => "failed to hash verification code: "@ + m@,
                CodeHashError::MalformedHash(m) => "invalid stored verification code hash: "@ + m@,
                CodeHashError::VerificationFailed(m) => "failed to verify verification code: "@ + m@,
            },
    {
        match self {
            CodeHashError::Hashing(m) => {
                let mut s = String::from_str("failed to hash verification code: ");
                push_str(&mut s, m.as_str());
                s
            },
            CodeHashError::MalformedHash(m) => {
                let mut s = String::from_str("invalid stored verification code hash: ");
                push_str(&mut s, m.as_str());
                s
            },
            CodeHashError::VerificationFailed(m) => {
                let mut s = String::from_str("failed to verify verification code: ");
                push_str(&mut s, m.as_str());
                s
            },
        }
    }
}

impl VerificationCode {
    /// A fresh random code: a number from `0..=999_999` in six digits;
    /// `None` when the system's random source fails.
    pub fn generate() -> (r: Option<Self>)
        ensures
            r matches Some(code) ==> is_six_digit_code(code@) && code@.len() == 6 && all_digits(code@),
    {
        let n = match random_six_digit_number() {
            Some(n) => n,
            None => return None,
        };
        let digits = zero_padded_chars(n as u64, 6);
        proof {
            lemma_six_digit_code(n as nat);
            assert(zero_padded(n as nat, 6) == digits@);
        }
        Some(VerificationCode { code: string_from(&digits) })
    }

    /// The code hashed with Argon2 and a fresh random salt, in the PHC string
    /// format. A hash that comes back accepts this code.
    pub fn hash(&self) -> (r: Result<String, CodeHashError>)
        ensures
            r matches Ok(h) ==> phc_hash_parses(h@) && argon2_verdict(h@, self@) == Some(true)
                && h@.len() > 0 && h@[0] == '$',
            r matches Err(e) ==> e is Hashing,
    {
        match argon2_hash(self.code.as_str()) {
            Ok(hash) => Ok(hash),
            Err(message) => Err(CodeHashError::Hashing(message)),
        }
    }

    /// Checks a submitted code, trimmed, against a stored hash.
    pub fn verify_hash(code_hash: &str, submitted_code: &str) -> (r: Result<bool, CodeHashError>)
        ensures
            check_of(r) == code_check(code_hash@, submitted_code@),
    {
        match parse_phc_hash(code_hash) {
            Ok(()) => {},
            Err(message) => return Err(CodeHashError::MalformedHash(message)),
        }
        let submitted = string_from(&trim_str(submitted_code));
        match argon2_verify(code_hash, submitted.as_str()) {
            Ok(matches) => Ok(matches),
            Err(message) => Err(CodeHashError::VerificationFailed(message)),
        }
    }

    pub fn as_str(&self) -> (s: &str)
        ensures
            s@ == self@,
    {
        self.code.as_str()
    }

    /// The code, as `Display` writes it.
    pub fn to_string(&self) -> (s: String)
        ensures
            s@ == self@,
    {
        self.code.clone()
    }
}

/// A code hashed by `VerificationCode::hash` is accepted when it is submitted
/// again, with or without surrounding white space; and the stored hash, which
/// begins with `$`, is never the code itself.
pub proof fn lemma_hashed_code_is_accepted(code: Seq<char>, hash: Seq<char>, submitted: Seq<char>)
    requires
        all_digits(code),
        phc_hash_parses(hash),
        argon2_verdict(hash, code) == Some(true),
        trim(submitted) == code,
    ensures
        code_check(hash, submitted) == CodeCheck::Matches,
        hash.len() > 0 && hash[0] == '$' ==> hash != code,
{
    if hash.len() > 0 && hash[0] == '$' && hash == code {
        assert(crate::text::is_ascii_digit(code[0]));
    }
}

/// The view of a verified identity.
pub struct IdentityView {
    pub user_id: u64,
    pub email: (Seq<char>, Seq<char>),
    pub display_name: Seq<char>,
    pub display_name_confirmed: bool,
    pub verified_at: i128,
}

/// A Discord member whose email address was verified. `verified_at` is the
/// verification time in nanoseconds since the Unix epoch.
#[derive(Debug, Clone)]
pub struct VerifiedIdentity {
    user_id: u64,
    email: EmailAddress,
    display_name: DisplayName,
    display_name_confirmed: bool,
    verified_at: i128,
}

impl View for VerifiedIdentity {
    type V = IdentityView;

    closed spec fn view(&self) -> IdentityView {
        IdentityView {
            user_id: self.user_id,
            email: self.email@,
            display_name: self.display_name@,
            display_name_confirmed: self.display_name_confirmed,
            verified_at: self.verified_at,
        }
    }
}

impl VerifiedIdentity {
    pub fn from_persisted(
        user_id: u64,
        email: EmailAddress,
        display_name: DisplayName,
        display_name_confirmed: bool,
        verified_at: i128,
    ) -> (r: Self)
        ensures
            r@ == (IdentityView {
                user_id,
                email: email@,
                display_name: display_name@,
                display_name_confirmed,
                verified_at,
            }),
    {
        VerifiedIdentity { user_id, email, display_name, display_name_confirmed, verified_at }
    }

    pub fn user_id(&self) -> (v: u64)
        ensures
            v == self@.user_id,
    {
        self.user_id
    }

    pub fn email(&self) -> (e: &EmailAddress)
        ensures
            e@ == self@.email,
    {
        &self.email
    }

    pub fn display_name(&self) -> (n: &DisplayName)
        ensures
            n@ == self@.display_name,
    {
        &self.display_name
    }

    pub fn is_display_name_confirmed(&self) -> (b: bool)
        ensures
            b == self@.display_name_confirmed,
    {
        self.display_name_confirmed
    }

    pub fn verified_at(&self) -> (t: i128)
        ensures
            t == self@.verified_at,
    {
        self.verified_at
    }
}

} // verus!
