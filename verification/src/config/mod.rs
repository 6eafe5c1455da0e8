//! Configuration of the bot, read from a snapshot of the process environment.
//!
//! Every reader here is a function of the snapshot: the same variables give
//! the same configuration or the same error.
use vstd::prelude::*;
use crate::decimal::{parse_unsigned, parse_unsigned_chars, parse_bool, parse_bool_chars, IntErrorKind, int_error_message};
use crate::text::{chars_of, push_str, trim, trimmed};

pub mod features;
pub mod domains;
pub mod targets;
pub mod settings;


verus! {

// ---------------------------------------------------------------------------
// Errors
// ---------------------------------------------------------------------------

/// Why the configuration was refused.
#[derive(Debug)]
pub enum ConfigError {
    /// A required variable is unset or not valid Unicode.
    Missing(String),
    /// A variable's value does not parse as what it configures.
    Invalid(String),
    /// An optional variable is set but not valid Unicode.
    Unreadable(String),
    /// A variable that must hold text holds only white space.
    Blank(String),
    UnknownFeature(String),
    NoFeatures,
    OnboardingWithoutVerification,
    InvalidEmailDomain(String),
    NoEmailDomains,
    NoOnboardingTargets,
    DuplicateTargetKey(String),
    TargetShape,
    TargetFieldsEmpty,
    TargetKey,
    TargetLabel,
    TargetGroup,
    TargetCompletionUrl,
    RoleId(IntErrorKind),
    NoManagerRoles,
}

/// `ConfigError` with its texts as character sequences.
pub enum ConfigFault {
    Missing(Seq<char>),
    Invalid(Seq<char>),
    Unreadable(Seq<char>),
    Blank(Seq<char>),
    UnknownFeature(Seq<char>),
    NoFeatures,
    OnboardingWithoutVerification,
    InvalidEmailDomain(Seq<char>),
    NoEmailDomains,
    NoOnboardingTargets,
    DuplicateTargetKey(Seq<char>),
    TargetShape,
    TargetFieldsEmpty,
    TargetKey,
    TargetLabel,
    TargetGroup,
    TargetCompletionUrl,
    RoleId(IntErrorKind),
    NoManagerRoles,
}

impl View for ConfigError {
    type V = ConfigFault;

    open spec fn view(&self) -> ConfigFault {
        match self {
            ConfigError::Missing(k) => ConfigFault::Missing(k@),
            ConfigError::Invalid(k) => ConfigFault::Invalid(k@),
            ConfigError::Unreadable(k) => ConfigFault::Unreadable(k@),
            ConfigError::Blank(k) => ConfigFault::Blank(k@),
            ConfigError::UnknownFeature(e) => ConfigFault::UnknownFeature(e@),
            ConfigError::NoFeatures => ConfigFault::NoFeatures,
            ConfigError::OnboardingWithoutVerification => ConfigFault::OnboardingWithoutVerification,
            ConfigError::InvalidEmailDomain(e) => ConfigFault::InvalidEmailDomain(e@),
            ConfigError::NoEmailDomains => ConfigFault::NoEmailDomains,
            ConfigError::NoOnboardingTargets => ConfigFault::NoOnboardingTargets,
            ConfigError::DuplicateTargetKey(k) => ConfigFault::DuplicateTargetKey(k@),
            ConfigError::TargetShape => ConfigFault::TargetShape,
            ConfigError::TargetFieldsEmpty => ConfigFault::TargetFieldsEmpty,
            ConfigError::TargetKey => ConfigFault::TargetKey,
            ConfigError::TargetLabel => ConfigFault::TargetLabel,
            ConfigError::TargetGroup => ConfigFault::TargetGroup,
            ConfigError::TargetCompletionUrl => ConfigFault::TargetCompletionUrl,
            ConfigError::RoleId(k) => ConfigFault::RoleId(*k),
            ConfigError::NoManagerRoles => ConfigFault::NoManagerRoles,
        }
    }
}

/// The message a configuration error is reported with.
pub open spec fn config_message(f: ConfigFault) -> Seq<char> {
    match f {
        ConfigFault::Missing(k) => "missing "@ + k,
        ConfigFault::Invalid(k) => "invalid "@ + k,
        ConfigFault::Unreadable(k) => "failed reading "@ + k,
        ConfigFault::Blank(k) => k + " cannot be empty"@,
        ConfigFault::UnknownFeature(e) => "unknown BOT_FEATURES entry `"@ + e
            + "`; expected age, verification, or onboarding"@,
        ConfigFault::NoFeatures => "BOT_FEATURES must enable at least one feature"@,
        ConfigFault::OnboardingWithoutVerification => "onboarding requires the verification feature"@,
        ConfigFault::InvalidEmailDomain(e) => "invalid VERIFICATION_ALLOWED_EMAIL_DOMAINS entry `"@ + e
            + "`; expected domain names such as rit.edu"@,
        ConfigFault::NoEmailDomains => "VERIFICATION_ALLOWED_EMAIL_DOMAINS cannot be empty"@,
        ConfigFault::NoOnboardingTargets => "ONBOARDING_TARGETS cannot be empty"@,
        ConfigFault::DuplicateTargetKey(k) => "ONBOARDING_TARGETS contains duplicate key `"@ + k + "`"@,
        ConfigFault::TargetShape => "invalid ONBOARDING_TARGETS entry; expected key|label|authentik_group_uuid|[completion_url|]manager_role_ids"@,
        ConfigFault::TargetFieldsEmpty => "ONBOARDING_TARGETS key, label, and authentik group UUID cannot be empty"@,
        ConfigFault::TargetKey => "ONBOARDING_TARGETS key must be at most 64 ASCII letters, numbers, hyphens, or underscores"@,
        ConfigFault::TargetLabel => "ONBOARDING_TARGETS label must be at most 100 characters without control characters"@,
        ConfigFault::TargetGroup => "ONBOARDING_TARGETS authentik group UUID must be at most 200 characters without whitespace"@,
        ConfigFault::TargetCompletionUrl => "invalid ONBOARDING_TARGETS completion URL"@,
        ConfigFault::RoleId(kind) => int_error_message(kind),
        ConfigFault::NoManagerRoles => "ONBOARDING_TARGETS manager_role_ids cannot be empty"@,
    }
}

fn prefixed(head: &str, middle: &String) -> (s: String)
    ensures
        s@ == head@ + middle@,
{
    let mut s = String::from_str(head);
    push_str(&mut s, middle.as_str());
    s
}

fn suffixed(middle: &String, tail: &str) -> (s: String)
    ensures
        s@ == middle@ + tail@,
{
    let mut s = middle.clone();
    push_str(&mut s, tail);
    s
}

fn framed(head: &str, middle: &String, tail: &str) -> (s: String)
    ensures
        s@ == head@ + middle@ + tail@,
{
    let mut s = String::from_str(head);
    push_str(&mut s, middle.as_str());
    push_str(&mut s, tail);
    s
}

impl ConfigError {
    /// The message the error is reported with.
    pub fn to_string(&self) -> (s: String)
        ensures
            s@ == config_message(self@),
    {
        match self {
            ConfigError::Missing(k) => prefixed("missing ", k),
            ConfigError::Invalid(k) => prefixed("invalid ", k),
            ConfigError::Unreadable(k) => prefixed("failed reading ", k),
            ConfigError::Blank(k) => suffixed(k, " cannot be empty"),
            ConfigError::UnknownFeature(e) => framed(
                "unknown BOT_FEATURES entry `",
                e,
                "`; expected age, verification, or onboarding",
            ),
            ConfigError::NoFeatures => String::from_str("BOT_FEATURES must enable at least one feature"),
            ConfigError::OnboardingWithoutVerification => String::from_str(
                "onboarding requires the verification feature",
            ),
            ConfigError::InvalidEmailDomain(e) => framed(
                "invalid VERIFICATION_ALLOWED_EMAIL_DOMAINS entry `",
                e,
                "`; expected domain names such as rit.edu",
            ),
            ConfigError::NoEmailDomains => String::from_str("VERIFICATION_ALLOWED_EMAIL_DOMAINS cannot be empty"),
            ConfigError::NoOnboardingTargets => String::from_str("ONBOARDING_TARGETS cannot be empty"),
            ConfigError::DuplicateTargetKey(k) => framed(
                "ONBOARDING_TARGETS contains duplicate key `",
                k,
                "`",
            ),
            ConfigError::TargetShape => String::from_str(
                "invalid ONBOARDING_TARGETS entry; expected key|label|authentik_group_uuid|[completion_url|]manager_role_ids",
            ),
            ConfigError::TargetFieldsEmpty => String::from_str(
                "ONBOARDING_TARGETS key, label, and authentik group UUID cannot be empty",
            ),
            ConfigError::TargetKey => String::from_str(
                "ONBOARDING_TARGETS key must be at most 64 ASCII letters, numbers, hyphens, or underscores",
            ),
            ConfigError::TargetLabel => String::from_str(
                "ONBOARDING_TARGETS label must be at most 100 characters without control characters",
            ),
            ConfigError::TargetGroup => String::from_str(
                "ONBOARDING_TARGETS authentik group UUID must be at most 200 characters without whitespace",
            ),
            ConfigError::TargetCompletionUrl => String::from_str(
                "invalid ONBOARDING_TARGETS completion URL",
            ),
            ConfigError::RoleId(kind) => String::from_str(kind.message()),
            ConfigError::NoManagerRoles => String::from_str(
                "ONBOARDING_TARGETS manager_role_ids cannot be empty",
            ),
        }
    }
}

// ---------------------------------------------------------------------------
// The environment
// ---------------------------------------------------------------------------

/// One variable of the process environment: its value, or `None` when the
/// value is not valid Unicode.
pub struct EnvVar {
    pub key: String,
    pub value: Option<String>,
}

/// A snapshot of the process environment, in the order it was listed.
pub struct Environment {
    pub vars: Vec<EnvVar>,
}

/// An environment as (name, value) pairs; `None` marks a value that is not
/// valid Unicode.
pub type EnvView = Seq<(Seq<char>, Option<Seq<char>>)>;

impl View for Environment {
    type V = EnvView;

    open spec fn view(&self) -> EnvView {
        self.vars@.map_values(
            |v: EnvVar|
                (
                    v.key@,
                    match v.value {
                        Some(s) => Some(s@),
                        None => None,
                    },
                ),
        )
    }
}

/// What reading one variable gives (`std::env::var`): `None` when it is
/// unset, `Some(None)` when its value is not valid Unicode.
pub open spec fn env_lookup(env: EnvView, key: Seq<char>) -> Option<Option<Seq<char>>>
    decreases env.len(),
{
    if env.len() == 0 {
        None
    } else if env[0].0 == key {
        Some(env[0].1)
    } else {
        env_lookup(env.drop_first(), key)
    }
}

/// The outcome of reading one variable.
pub enum EnvRead {
    Present(String),
    NotPresent,
    NotUnicode,
}

impl View for EnvRead {
    type V = Option<Option<Seq<char>>>;

    open spec fn view(&self) -> Option<Option<Seq<char>>> {
        match self {
            EnvRead::Present(s) => Some(Some(s@)),
            EnvRead::NotPresent => None,
            EnvRead::NotUnicode => Some(None),
        }
    }
}

impl Environment {
    /// Reads the variable `key`: its first entry in the snapshot decides.
    pub fn var(&self, key: &str) -> (r: EnvRead)
        ensures
            r@ == env_lookup(self@, key@),
    {
        let k = String::from_str(key);
        let mut i: usize = 0;
        assert(self@.skip(0) =~= self@);
        while i < self.vars.len()
            invariant
                i <= self.vars@.len(),
                self@.len() == self.vars@.len(),
                k@ == key@,
                env_lookup(self@, key@) == env_lookup(self@.skip(i as int), key@),
            decreases self.vars.len() - i,
        {
            let var = &self.vars[i];
            assert(self@.skip(i as int)[0] == self@[i as int]);
            assert(self@.skip(i as int).drop_first() == self@.skip(i + 1));
            if var.key == k {
                return match &var.value {
                    Some(v) => EnvRead::Present(v.clone()),
                    None => EnvRead::NotUnicode,
                };
            }
            i = i + 1;
        }
        assert(self@.skip(i as int).len() == 0);
        EnvRead::NotPresent
    }
}

// ---------------------------------------------------------------------------
// Reading single variables
// ---------------------------------------------------------------------------

/// A required variable's text; unset or non-Unicode values are missing.
pub open spec fn required_spec(env: EnvView, key: Seq<char>) -> Result<Seq<char>, ConfigFault> {
    match env_lookup(env, key) {
        Some(Some(v)) => Ok(v),
        _ => Err(ConfigFault::Missing(key)),
    }
}

/// An optional variable's text; a non-Unicode value cannot be read.
pub open spec fn optional_spec(env: EnvView, key: Seq<char>) -> Result<Option<Seq<char>>, ConfigFault> {
    match env_lookup(env, key) {
        None => Ok(None),
        Some(Some(v)) => Ok(Some(v)),
        Some(None) => Err(ConfigFault::Unreadable(key)),
    }
}

/// A required variable read as an unsigned number at most `max`.
pub open spec fn required_number_spec(env: EnvView, key: Seq<char>, max: nat) -> Result<nat, ConfigFault> {
    match required_spec(env, key) {
        Err(e) => Err(e),
        Ok(v) => match parse_unsigned(v, max) {
            Some(n) => Ok(n),
            None => Err(ConfigFault::Invalid(key)),
        },
    }
}

/// An optional variable read as an unsigned number at most `max`.
pub open spec fn optional_number_spec(env: EnvView, key: Seq<char>, max: nat) -> Result<Option<nat>, ConfigFault> {
    match optional_spec(env, key) {
        Err(e) => Err(e),
        Ok(None) => Ok(None),
        Ok(Some(v)) => match parse_unsigned(v, max) {
            Some(n) => Ok(Some(n)),
            None => Err(ConfigFault::Invalid(key)),
        },
    }
}

/// An optional number, or `default` when the variable is unset.
pub open spec fn defaulted_number_spec(env: EnvView, key: Seq<char>, max: nat, default: nat) -> Result<nat, ConfigFault> {
    match optional_number_spec(env, key, max) {
        Err(e) => Err(e),
        Ok(None) => Ok(default),
        Ok(Some(n)) => Ok(n),
    }
}

/// An optional flag (`true` or `false`), or `default` when the variable is unset.
pub open spec fn defaulted_bool_spec(env: EnvView, key: Seq<char>, default: bool) -> Result<bool, ConfigFault> {
    match optional_spec(env, key) {
        Err(e) => Err(e),
        Ok(None) => Ok(default),
        Ok(Some(v)) => match parse_bool(v) {
            Some(b) => Ok(b),
            None => Err(ConfigFault::Invalid(key)),
        },
    }
}

/// A required variable whose text is not blank.
pub open spec fn required_non_empty_spec(env: EnvView, key: Seq<char>) -> Result<Seq<char>, ConfigFault> {
    match required_spec(env, key) {
        Err(e) => Err(e),
        Ok(v) => if trim(v).len() == 0 {
            Err(ConfigFault::Blank(key))
        } else {
            Ok(v)
        },
    }
}

/// A required variable's text (`String` parses from any text).
pub fn required(env: &Environment, key: &str) -> (r: Result<String, ConfigError>)
    ensures
        match r {
            Ok(v) => required_spec(env@, key@) == Ok::<Seq<char>, ConfigFault>(v@),
            Err(e) => required_spec(env@, key@) == Err::<Seq<char>, ConfigFault>(e@),
        },
{
    match env.var(key) {
        EnvRead::Present(v) => Ok(v),
        _ => Err(ConfigError::Missing(String::from_str(key))),
    }
}

/// A required secret; it is read as any other text.
pub fn secret(env: &Environment, key: &str) -> (r: Result<String, ConfigError>)
    ensures
        match r {
            Ok(v) => required_spec(env@, key@) == Ok::<Seq<char>, ConfigFault>(v@),
            Err(e) => required_spec(env@, key@) == Err::<Seq<char>, ConfigFault>(e@),
        },
{
    required(env, key)
}

/// An optional variable's text.
pub fn optional(env: &Environment, key: &str) -> (r: Result<Option<String>, ConfigError>)
    ensures
        match r {
            Ok(Some(v)) => optional_spec(env@, key@) == Ok::<Option<Seq<char>>, ConfigFault>(Some(v@)),
            Ok(None) => optional_spec(env@, key@) == Ok::<Option<Seq<char>>, ConfigFault>(None),
            Err(e) => optional_spec(env@, key@) == Err::<Option<Seq<char>>, ConfigFault>(e@),
        },
{
    match env.var(key) {
        EnvRead::Present(v) => Ok(Some(v)),
        EnvRead::NotPresent => Ok(None),
        EnvRead::NotUnicode => Err(ConfigError::Unreadable(String::from_str(key))),
    }
}

/// A required variable read as an unsigned number at most `max`.
pub fn required_number(env: &Environment, key: &str, max: u64) -> (r: Result<u64, ConfigError>)
    ensures
        match r {
            Ok(n) => required_number_spec(env@, key@, max as nat) == Ok::<nat, ConfigFault>(n as nat),
            Err(e) => required_number_spec(env@, key@, max as nat) == Err::<nat, ConfigFault>(e@),
        },
{
    let v = required(env, key)?;
    match parse_unsigned_chars(&chars_of(v.as_str()), max) {
        Some(n) => Ok(n),
        None => Err(ConfigError::Invalid(String::from_str(key))),
    }
}

/// An optional variable read as an unsigned number at most `max`.
pub fn optional_number(env: &Environment, key: &str, max: u64) -> (r: Result<Option<u64>, ConfigError>)
    ensures
        match r {
            Ok(Some(n)) => optional_number_spec(env@, key@, max as nat) == Ok::<Option<nat>, ConfigFault>(Some(n as nat)),
            Ok(None) => optional_number_spec(env@, key@, max as nat) == Ok::<Option<nat>, ConfigFault>(None),
            Err(e) => optional_number_spec(env@, key@, max as nat) == Err::<Option<nat>, ConfigFault>(e@),
        },
{
    match optional(env, key)? {
        None => Ok(None),
        Some(v) => match parse_unsigned_chars(&chars_of(v.as_str()), max) {
            Some(n) => Ok(Some(n)),
            None => Err(ConfigError::Invalid(String::from_str(key))),
        },
    }
}

/// An optional number at most `max`, or `default` when the variable is unset.
pub fn defaulted(env: &Environment, key: &str, max: u64, default: u64) -> (r: Result<u64, ConfigError>)
    ensures
        match r {
            Ok(n) => defaulted_number_spec(env@, key@, max as nat, default as nat) == Ok::<nat, ConfigFault>(n as nat),
            Err(e) => defaulted_number_spec(env@, key@, max as nat, default as nat) == Err::<nat, ConfigFault>(e@),
        },
{
    match optional_number(env, key, max)? {
        None => Ok(default),
        Some(n) => Ok(n),
    }
}

/// An optional flag, or `default` when the variable is unset.
pub fn defaulted_flag(env: &Environment, key: &str, default: bool) -> (r: Result<bool, ConfigError>)
    ensures
        match r {
            Ok(b) => defaulted_bool_spec(env@, key@, default) == Ok::<bool, ConfigFault>(b),
            Err(e) => defaulted_bool_spec(env@, key@, default) == Err::<bool, ConfigFault>(e@),
        },
{
    match optional(env, key)? {
        None => Ok(default),
        Some(v) => match parse_bool_chars(&chars_of(v.as_str())) {
            Some(b) => Ok(b),
            None => Err(ConfigError::Invalid(String::from_str(key))),
        },
    }
}

/// A required variable whose text is not blank.
pub fn required_non_empty(env: &Environment, key: &str) -> (r: Result<String, ConfigError>)
    ensures
        match r {
            Ok(v) => required_non_empty_spec(env@, key@) == Ok::<Seq<char>, ConfigFault>(v@),
            Err(e) => required_non_empty_spec(env@, key@) == Err::<Seq<char>, ConfigFault>(e@),
        },
{
    let v = required(env, key)?;
    if trimmed(&chars_of(v.as_str())).len() == 0 {
        return Err(ConfigError::Blank(String::from_str(key)));
    }
    Ok(v)
}

/// A required secret whose text is not blank.
pub fn non_empty_secret(env: &Environment, key: &str) -> (r: Result<String, ConfigError>)
    ensures
        match r {
            Ok(v) => required_non_empty_spec(env@, key@) == Ok::<Seq<char>, ConfigFault>(v@),
            Err(e) => required_non_empty_spec(env@, key@) == Err::<Seq<char>, ConfigFault>(e@),
        },
{
    required_non_empty(env, key)
}

} // verus!
