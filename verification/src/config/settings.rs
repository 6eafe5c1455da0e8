//! The bot's settings, each group read from the environment in a fixed
//! order; the first variable that is refused decides the error.
use vstd::prelude::*;
use crate::config::{
    ConfigError, ConfigFault, Environment, EnvView, defaulted, defaulted_bool_spec,
    defaulted_flag, defaulted_number_spec, non_empty_secret, optional, optional_number,
    optional_number_spec, optional_spec, required, required_non_empty, required_non_empty_spec,
    required_number, required_number_spec, required_spec, secret,
};
use crate::config::domains::{email_domains_result, parse_email_domains};
use crate::config::features::{Feature, FeatureSet, feature_set_from_env};
use crate::config::targets::{
    OnboardingTargetConfig, TargetView, is_web_url, parse_onboarding_targets, target_views,
    targets_result, validate_web_url,
};
use crate::text::{chars_of, texts, trim, trimmed};

verus! {

pub open spec fn opt_nat(o: Option<u64>) -> Option<nat> {
    match o {
        Some(v) => Some(v as nat),
        None => None,
    }
}

// ---------------------------------------------------------------------------
// Web addresses in variables
// ---------------------------------------------------------------------------

/// A required variable holding an `http` or `https` URL.
pub open spec fn required_web_url_spec(env: EnvView, key: Seq<char>) -> Result<Seq<char>, ConfigFault> {
    match required_non_empty_spec(env, key) {
        Err(e) => Err(e),
        Ok(v) => if is_web_url(v) {
            Ok(v)
        } else {
            Err(ConfigFault::Invalid(key))
        },
    }
}

pub fn required_web_url(env: &Environment, key: &str) -> (r: Result<String, ConfigError>)
    ensures
        match r {
            Ok(v) => required_web_url_spec(env@, key@) == Ok::<Seq<char>, ConfigFault>(v@),
            Err(e) => required_web_url_spec(env@, key@) == Err::<Seq<char>, ConfigFault>(e@),
        },
{
    let value = required_non_empty(env, key)?;
    if validate_web_url(value.as_str()).is_err() {
        return Err(ConfigError::Invalid(String::from_str(key)));
    }
    Ok(value)
}

// ---------------------------------------------------------------------------
// Discord
// ---------------------------------------------------------------------------

pub struct DiscordConfig {
    pub bot_token: String,
    pub guild_id: Option<u64>,
}

pub struct DiscordView {
    pub bot_token: Seq<char>,
    pub guild_id: Option<nat>,
}

impl View for DiscordConfig {
    type V = DiscordView;

    open spec fn view(&self) -> DiscordView {
        DiscordView { bot_token: self.bot_token@, guild_id: opt_nat(self.guild_id) }
    }
}

/// `BOT_TOKEN`, then `GUILD_ID`.
pub open spec fn discord_config_spec(env: EnvView) -> Result<DiscordView, ConfigFault> {
    match required_spec(env, "BOT_TOKEN"@) {
        Err(e) => Err(e),
        Ok(bot_token) => match optional_number_spec(env, "GUILD_ID"@, u64::MAX as nat) {
            Err(e) => Err(e),
            Ok(guild_id) => Ok(DiscordView { bot_token, guild_id }),
        },
    }
}

impl DiscordConfig {
    pub fn from_env(env: &Environment) -> (r: Result<DiscordConfig, ConfigError>)
        ensures
            match r {
                Ok(c) => discord_config_spec(env@) == Ok::<DiscordView, ConfigFault>(c@),
                Err(e) => discord_config_spec(env@) == Err::<DiscordView, ConfigFault>(e@),
            },
    {
        let bot_token = secret(env, "BOT_TOKEN")?;
        let guild_id = optional_number(env, "GUILD_ID", u64::MAX)?;
        Ok(DiscordConfig { bot_token, guild_id })
    }
}

// ---------------------------------------------------------------------------
// E-mail
// ---------------------------------------------------------------------------

pub struct EmailConfig {
    pub smtp_host: String,
    pub smtp_port: u16,
    pub smtp_starttls: bool,
    pub smtp_username: String,
    pub smtp_password: String,
    pub from_address: String,
}

pub struct EmailView {
    pub smtp_host: Seq<char>,
    pub smtp_port: nat,
    pub smtp_starttls: bool,
    pub smtp_username: Seq<char>,
    pub smtp_password: Seq<char>,
    pub from_address: Seq<char>,
}

impl View for EmailConfig {
    type V = EmailView;

    open spec fn view(&self) -> EmailView {
        EmailView {
            smtp_host: self.smtp_host@,
            smtp_port: self.smtp_port as nat,
            smtp_starttls: self.smtp_starttls,
            smtp_username: self.smtp_username@,
            smtp_password: self.smtp_password@,
            from_address: self.from_address@,
        }
    }
}

/// `SMTP_HOST`, `SMTP_PORT` (587 when unset), `SMTP_STARTTLS` (`true` when
/// unset), `SMTP_USERNAME`, `SMTP_PASSWORD`, `EMAIL_FROM_ADDRESS`.
pub open spec fn email_config_spec(env: EnvView) -> Result<EmailView, ConfigFault> {
    match required_spec(env, "SMTP_HOST"@) {
        Err(e) => Err(e),
        Ok(smtp_host) => match defaulted_number_spec(env, "SMTP_PORT"@, u16::MAX as nat, 587) {
            Err(e) => Err(e),
            Ok(smtp_port) => match defaulted_bool_spec(env, "SMTP_STARTTLS"@, true) {
                Err(e) => Err(e),
                Ok(smtp_starttls) => match required_spec(env, "SMTP_USERNAME"@) {
                    Err(e) => Err(e),
                    Ok(smtp_username) => match required_spec(env, "SMTP_PASSWORD"@) {
                        Err(e) => Err(e),
                        Ok(smtp_password) => match required_spec(env, "EMAIL_FROM_ADDRESS"@) {
                            Err(e) => Err(e),
                            Ok(from_address) => Ok(
                                EmailView {
                                    smtp_host,
                                    smtp_port,
                                    smtp_starttls,
                                    smtp_username,
                                    smtp_password,
                                    from_address,
                                },
                            ),
                        },
                    },
                },
            },
        },
    }
}

impl EmailConfig {
    pub fn from_env(env: &Environment) -> (r: Result<EmailConfig, ConfigError>)
        ensures
            match r {
                Ok(c) => email_config_spec(env@) == Ok::<EmailView, ConfigFault>(c@),
                Err(e) => email_config_spec(env@) == Err::<EmailView, ConfigFault>(e@),
            },
    {
        let smtp_host = required(env, "SMTP_HOST")?;
        let smtp_port = defaulted(env, "SMTP_PORT", 65535, 587)?;
        let smtp_starttls = defaulted_flag(env, "SMTP_STARTTLS", true)?;
        let smtp_username = secret(env, "SMTP_USERNAME")?;
        let smtp_password = secret(env, "SMTP_PASSWORD")?;
        let from_address = required(env, "EMAIL_FROM_ADDRESS")?;
        Ok(
            EmailConfig {
                smtp_host,
                smtp_port: smtp_port as u16,
                smtp_starttls,
                smtp_username,
                smtp_password,
                from_address,
            },
        )
    }
}

// ---------------------------------------------------------------------------
// Verification
// ---------------------------------------------------------------------------

pub struct VerificationConfig {
    pub verified_role_id: u64,
    pub unverified_role_id: Option<u64>,
    pub log_channel_id: Option<u64>,
    pub allowed_email_domains: Vec<String>,
    pub email: EmailConfig,
}

pub struct VerificationView {
    pub verified_role_id: nat,
    pub unverified_role_id: Option<nat>,
    pub log_channel_id: Option<nat>,
    pub allowed_email_domains: Seq<Seq<char>>,
    pub email: EmailView,
}

impl View for VerificationConfig {
    type V = VerificationView;

    open spec fn view(&self) -> VerificationView {
        VerificationView {
            verified_role_id: self.verified_role_id as nat,
            unverified_role_id: opt_nat(self.unverified_role_id),
            log_channel_id: opt_nat(self.log_channel_id),
            allowed_email_domains: texts(self.allowed_email_domains@),
            email: self.email@,
        }
    }
}

/// The allow-list: `VERIFICATION_ALLOWED_EMAIL_DOMAINS`, `rit.edu` when unset.
pub open spec fn allowed_domains_spec(env: EnvView) -> Result<Seq<Seq<char>>, ConfigFault> {
    match optional_spec(env, "VERIFICATION_ALLOWED_EMAIL_DOMAINS"@) {
        Err(e) => Err(e),
        Ok(None) => email_domains_result("rit.edu"@),
        Ok(Some(v)) => email_domains_result(v),
    }
}

/// `VERIFIED_ROLE_ID`, `UNVERIFIED_ROLE_ID`, `VERIFICATION_LOG_CHANNEL_ID`,
/// the domain allow-list, then the e-mail settings.
pub open spec fn verification_config_spec(env: EnvView) -> Result<VerificationView, ConfigFault> {
    match required_number_spec(env, "VERIFIED_ROLE_ID"@, u64::MAX as nat) {
        Err(e) => Err(e),
        Ok(verified_role_id) => match optional_number_spec(env, "UNVERIFIED_ROLE_ID"@, u64::MAX as nat) {
            Err(e) => Err(e),
            Ok(unverified_role_id) => match optional_number_spec(
                env,
                "VERIFICATION_LOG_CHANNEL_ID"@,
                u64::MAX as nat,
            ) {
                Err(e) => Err(e),
                Ok(log_channel_id) => match allowed_domains_spec(env) {
                    Err(e) => Err(e),
                    Ok(allowed_email_domains) => match email_config_spec(env) {
                        Err(e) => Err(e),
                        Ok(email) => Ok(
                            VerificationView {
                                verified_role_id,
                                unverified_role_id,
                                log_channel_id,
                                allowed_email_domains,
                                email,
                            },
                        ),
                    },
                },
            },
        },
    }
}

impl VerificationConfig {
    pub fn from_env(env: &Environment) -> (r: Result<VerificationConfig, ConfigError>)
        ensures
            match r {
                Ok(c) => verification_config_spec(env@) == Ok::<VerificationView, ConfigFault>(c@),
                Err(e) => verification_config_spec(env@) == Err::<VerificationView, ConfigFault>(e@),
            },
    {
        let verified_role_id = required_number(env, "VERIFIED_ROLE_ID", u64::MAX)?;
        let unverified_role_id = optional_number(env, "UNVERIFIED_ROLE_ID", u64::MAX)?;
        let log_channel_id = optional_number(env, "VERIFICATION_LOG_CHANNEL_ID", u64::MAX)?;
        let domains_text = match optional(env, "VERIFICATION_ALLOWED_EMAIL_DOMAINS")? {
            Some(v) => v,
            None => String::from_str("rit.edu"),
        };
        let allowed_email_domains = parse_email_domains(domains_text.as_str())?;
        let email = EmailConfig::from_env(env)?;
        Ok(
            VerificationConfig {
                verified_role_id,
                unverified_role_id,
                log_channel_id,
                allowed_email_domains,
                email,
            },
        )
    }
}

// ---------------------------------------------------------------------------
// Authentik
// ---------------------------------------------------------------------------

pub struct AuthentikConfig {
    pub base_url: String,
    pub client_id: String,
    pub username: String,
    pub password: String,
    pub login_url: String,
}

pub struct AuthentikView {
    pub base_url: Seq<char>,
    pub client_id: Seq<char>,
    pub username: Seq<char>,
    pub password: Seq<char>,
    pub login_url: Seq<char>,
}

impl View for AuthentikConfig {
    type V = AuthentikView;

    open spec fn view(&self) -> AuthentikView {
        AuthentikView {
            base_url: self.base_url@,
            client_id: self.client_id@,
            username: self.username@,
            password: self.password@,
            login_url: self.login_url@,
        }
    }
}

/// `AUTHENTIK_BASE_URL`, `AUTHENTIK_CLIENT_ID`, `AUTHENTIK_USERNAME`,
/// `AUTHENTIK_PASSWORD`, `AUTHENTIK_LOGIN_URL`.
pub open spec fn authentik_config_spec(env: EnvView) -> Result<AuthentikView, ConfigFault> {
    match required_web_url_spec(env, "AUTHENTIK_BASE_URL"@) {
        Err(e) => Err(e),
        Ok(base_url) => match required_non_empty_spec(env, "AUTHENTIK_CLIENT_ID"@) {
            Err(e) => Err(e),
            Ok(client_id) => match required_non_empty_spec(env, "AUTHENTIK_USERNAME"@) {
                Err(e) => Err(e),
                Ok(username) => match required_non_empty_spec(env, "AUTHENTIK_PASSWORD"@) {
                    Err(e) => Err(e),
                    Ok(password) => match required_web_url_spec(env, "AUTHENTIK_LOGIN_URL"@) {
                        Err(e) => Err(e),
                        Ok(login_url) => Ok(
                            AuthentikView { base_url, client_id, username, password, login_url },
                        ),
                    },
                },
            },
        },
    }
}

impl AuthentikConfig {
    pub fn from_env(env: &Environment) -> (r: Result<AuthentikConfig, ConfigError>)
        ensures
            match r {
                Ok(c) => authentik_config_spec(env@) == Ok::<AuthentikView, ConfigFault>(c@),
                Err(e) => authentik_config_spec(env@) == Err::<AuthentikView, ConfigFault>(e@),
            },
    {
        let base_url = required_web_url(env, "AUTHENTIK_BASE_URL")?;
        let client_id = required_non_empty(env, "AUTHENTIK_CLIENT_ID")?;
        let username = required_non_empty(env, "AUTHENTIK_USERNAME")?;
        let password = non_empty_secret(env, "AUTHENTIK_PASSWORD")?;
        let login_url = required_web_url(env, "AUTHENTIK_LOGIN_URL")?;
        Ok(AuthentikConfig { base_url, client_id, username, password, login_url })
    }
}

// ---------------------------------------------------------------------------
// Onboarding
// ---------------------------------------------------------------------------

pub struct OnboardingConfig {
    pub authentik: AuthentikConfig,
    pub headscale_login_url: String,
    pub review_channel_id: u64,
    pub targets: Vec<OnboardingTargetConfig>,
}

pub struct OnboardingView {
    pub authentik: AuthentikView,
    pub headscale_login_url: Seq<char>,
    pub review_channel_id: nat,
    pub targets: Seq<TargetView>,
}

impl View for OnboardingConfig {
    type V = OnboardingView;

    open spec fn view(&self) -> OnboardingView {
        OnboardingView {
            authentik: self.authentik@,
            headscale_login_url: self.headscale_login_url@,
            review_channel_id: self.review_channel_id as nat,
            targets: target_views(self.targets@),
        }
    }
}

/// The single target configured the older way, when `ONBOARDING_TARGETS` is
/// unset or blank: `ONBOARDING_OFFICER_ROLE_ID` may approve it, and
/// `AUTHENTIK_HEADSCALE_GROUP_UUID` is its group.
pub open spec fn legacy_target_spec(env: EnvView) -> Result<Seq<TargetView>, ConfigFault> {
    match required_number_spec(env, "ONBOARDING_OFFICER_ROLE_ID"@, u64::MAX as nat) {
        Err(e) => Err(e),
        Ok(officer) => match required_non_empty_spec(env, "AUTHENTIK_HEADSCALE_GROUP_UUID"@) {
            Err(e) => Err(e),
            Ok(group) => Ok(
                seq![
                    TargetView {
                        key: "headscale"@,
                        label: "Headscale"@,
                        authentik_group_uuid: group,
                        completion_url: None,
                        approver_role_ids: seq![officer as u64],
                    },
                ],
            ),
        },
    }
}

/// The targets: `ONBOARDING_TARGETS` when it holds more than white space,
/// else the single older-style target.
pub open spec fn onboarding_targets_spec(env: EnvView) -> Result<Seq<TargetView>, ConfigFault> {
    match optional_spec(env, "ONBOARDING_TARGETS"@) {
        Err(e) => Err(e),
        Ok(Some(v)) => if trim(v).len() > 0 {
            targets_result(v)
        } else {
            legacy_target_spec(env)
        },
        Ok(None) => legacy_target_spec(env),
    }
}

/// `HEADSCALE_LOGIN_URL`, the targets, the Authentik settings, then
/// `ONBOARDING_REVIEW_CHANNEL_ID`.
pub open spec fn onboarding_config_spec(env: EnvView) -> Result<OnboardingView, ConfigFault> {
    match required_web_url_spec(env, "HEADSCALE_LOGIN_URL"@) {
        Err(e) => Err(e),
        Ok(headscale_login_url) => match onboarding_targets_spec(env) {
            Err(e) => Err(e),
            Ok(targets) => match authentik_config_spec(env) {
                Err(e) => Err(e),
                Ok(authentik) => match required_number_spec(
                    env,
                    "ONBOARDING_REVIEW_CHANNEL_ID"@,
                    u64::MAX as nat,
                ) {
                    Err(e) => Err(e),
                    Ok(review_channel_id) => Ok(
                        OnboardingView { authentik, headscale_login_url, review_channel_id, targets },
                    ),
                },
            },
        },
    }
}

fn legacy_targets(env: &Environment) -> (r: Result<Vec<OnboardingTargetConfig>, ConfigError>)
    ensures
        match r {
            Ok(ts) => legacy_target_spec(env@) == Ok::<Seq<TargetView>, ConfigFault>(target_views(ts@)),
            Err(e) => legacy_target_spec(env@) == Err::<Seq<TargetView>, ConfigFault>(e@),
        },
{
    let officer_role_id = required_number(env, "ONBOARDING_OFFICER_ROLE_ID", u64::MAX)?;
    let group = required_non_empty(env, "AUTHENTIK_HEADSCALE_GROUP_UUID")?;
    let mut approver_role_ids: Vec<u64> = Vec::new();
    approver_role_ids.push(officer_role_id);
    let target = OnboardingTargetConfig {
        key: String::from_str("headscale"),
        label: String::from_str("Headscale"),
        authentik_group_uuid: group,
        completion_url: None,
        approver_role_ids,
    };
    let mut targets: Vec<OnboardingTargetConfig> = Vec::new();
    targets.push(target);
    assert(target_views(targets@) =~= seq![targets@[0]@]);
    Ok(targets)
}

impl OnboardingConfig {
    pub fn from_env(env: &Environment) -> (r: Result<OnboardingConfig, ConfigError>)
        ensures
            match r {
                Ok(c) => onboarding_config_spec(env@) == Ok::<OnboardingView, ConfigFault>(c@),
                Err(e) => onboarding_config_spec(env@) == Err::<OnboardingView, ConfigFault>(e@),
            },
    {
        let headscale_login_url = required_web_url(env, "HEADSCALE_LOGIN_URL")?;
        let targets = match optional(env, "ONBOARDING_TARGETS")? {
            Some(v) => {
                if trimmed(&chars_of(v.as_str())).len() > 0 {
                    parse_onboarding_targets(v.as_str())?
                } else {
                    legacy_targets(env)?
                }
            },
            None => legacy_targets(env)?,
        };
        let authentik = AuthentikConfig::from_env(env)?;
        let review_channel_id = required_number(env, "ONBOARDING_REVIEW_CHANNEL_ID", u64::MAX)?;
        Ok(OnboardingConfig { authentik, headscale_login_url, review_channel_id, targets })
    }
}

// ---------------------------------------------------------------------------
// Database
// ---------------------------------------------------------------------------

pub struct DBConfig {
    pub url: String,
    pub max_connections: u32,
}

pub struct DBView {
    pub url: Seq<char>,
    pub max_connections: nat,
}

impl View for DBConfig {
    type V = DBView;

    open spec fn view(&self) -> DBView {
        DBView { url: self.url@, max_connections: self.max_connections as nat }
    }
}

/// `DATABASE_URL`, then `DATABASE_MAX_CONNECTIONS` (10 when unset).
pub open spec fn db_config_spec(env: EnvView) -> Result<DBView, ConfigFault> {
    match required_spec(env, "DATABASE_URL"@) {
        Err(e) => Err(e),
        Ok(url) => match defaulted_number_spec(
            env,
            "DATABASE_MAX_CONNECTIONS"@,
            u32::MAX as nat,
            10,
        ) {
            Err(e) => Err(e),
            Ok(max_connections) => Ok(DBView { url, max_connections }),
        },
    }
}

impl DBConfig {
    pub fn from_env(env: &Environment) -> (r: Result<DBConfig, ConfigError>)
        ensures
            match r {
                Ok(c) => db_config_spec(env@) == Ok::<DBView, ConfigFault>(c@),
                Err(e) => db_config_spec(env@) == Err::<DBView, ConfigFault>(e@),
            },
    {
        let url = secret(env, "DATABASE_URL")?;
        let max_connections = defaulted(env, "DATABASE_MAX_CONNECTIONS", 4294967295, 10)?;
        Ok(DBConfig { url, max_connections: max_connections as u32 })
    }
}

// ---------------------------------------------------------------------------
// Everything
// ---------------------------------------------------------------------------

pub struct AppConfig {
    pub features: FeatureSet,
    pub discord: DiscordConfig,
    pub verification: Option<VerificationConfig>,
    pub onboarding: Option<OnboardingConfig>,
    pub db: DBConfig,
}

pub struct AppView {
    pub features: Set<Feature>,
    pub discord: DiscordView,
    pub verification: Option<VerificationView>,
    pub onboarding: Option<OnboardingView>,
    pub db: DBView,
}

impl View for AppConfig {
    type V = AppView;

    open spec fn view(&self) -> AppView {
        AppView {
            features: self.features@,
            discord: self.discord@,
            verification: match self.verification {
                Some(v) => Some(v@),
                None => None,
            },
            onboarding: match self.onboarding {
                Some(o) => Some(o@),
                None => None,
            },
            db: self.db@,
        }
    }
}

/// The features; the verification settings when verification is enabled;
/// the onboarding settings when onboarding is; then Discord and the database.
pub open spec fn app_config_spec(env: EnvView) -> Result<AppView, ConfigFault> {
    match feature_set_from_env(env) {
        Err(e) => Err(e),
        Ok(features) => {
            let verification = if features.contains(Feature::Verification) {
                match verification_config_spec(env) {
                    Ok(v) => Ok(Some(v)),
                    Err(e) => Err(e),
                }
            } else {
                Ok(None)
            };
            match verification {
                Err(e) => Err(e),
                Ok(verification) => {
                    let onboarding = if features.contains(Feature::Onboarding) {
                        match onboarding_config_spec(env) {
                            Ok(o) => Ok(Some(o)),
                            Err(e) => Err(e),
                        }
                    } else {
                        Ok(None)
                    };
                    match onboarding {
                        Err(e) => Err(e),
                        Ok(onboarding) => match discord_config_spec(env) {
                            Err(e) => Err(e),
                            Ok(discord) => match db_config_spec(env) {
                                Err(e) => Err(e),
                                Ok(db) => Ok(
                                    AppView { features, discord, verification, onboarding, db },
                                ),
                            },
                        },
                    }
                },
            }
        },
    }
}

impl AppConfig {
    /// The whole configuration.
    pub fn from_env(env: &Environment) -> (r: Result<AppConfig, ConfigError>)
        ensures
            match r {
                Ok(c) => app_config_spec(env@) == Ok::<AppView, ConfigFault>(c@),
                Err(e) => app_config_spec(env@) == Err::<AppView, ConfigFault>(e@),
            },
    {
        let features = FeatureSet::from_env(env)?;
        let verification = if features.contains(Feature::Verification) {
            Some(VerificationConfig::from_env(env)?)
        } else {
            None
        };
        let onboarding = if features.contains(Feature::Onboarding) {
            Some(OnboardingConfig::from_env(env)?)
        } else {
            None
        };
        let discord = DiscordConfig::from_env(env)?;
        let db = DBConfig::from_env(env)?;
        Ok(AppConfig { features, discord, verification, onboarding, db })
    }
}

/// An accepted configuration has verification settings exactly when the
/// verification feature is enabled, onboarding settings exactly when the
/// onboarding feature is, and never onboarding without verification.
pub proof fn lemma_app_config_follows_features(env: EnvView)
    requires
        app_config_spec(env) is Ok,
    ensures
        ({
            let c = app_config_spec(env)->Ok_0;
            &&& (c.verification is Some <==> c.features.contains(Feature::Verification))
            &&& (c.onboarding is Some <==> c.features.contains(Feature::Onboarding))
            &&& (c.onboarding is Some ==> c.verification is Some)
        }),
{
}

} // verus!
