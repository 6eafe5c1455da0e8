use sse_discord_bot::config::domains::parse_email_domains;
use sse_discord_bot::config::features::{enabled_commands, Feature, FeatureSet};
use sse_discord_bot::config::settings::{AppConfig, DBConfig, EmailConfig, OnboardingConfig};
use sse_discord_bot::config::targets::{
    parse_onboarding_target, parse_onboarding_targets, parse_role_ids, validate_web_url,
    WebUrlError,
};
use sse_discord_bot::config::{EnvVar, Environment};

#[test]
fn parses_enabled_features() {
    let features = "age, verification, onboarding"
        .parse::<FeatureSet>()
        .expect("feature set should parse");

    assert_eq!(features.names(), vec!["age", "verification", "onboarding"]);
}

#[test]
fn rejects_unknown_feature() {
    let error = "verification,unknown"
        .parse::<FeatureSet>()
        .expect_err("unknown feature should be rejected");

    assert!(error.to_string().contains("unknown BOT_FEATURES entry"));
}

#[test]
fn rejects_onboarding_without_verification() {
    let error = "onboarding"
        .parse::<FeatureSet>()
        .expect_err("onboarding dependency should be enforced");

    assert_eq!(
        error.to_string(),
        "onboarding requires the verification feature"
    );
}

#[test]
fn rejects_empty_feature_set() {
    let error = "  ,  "
        .parse::<FeatureSet>()
        .expect_err("empty feature set should be rejected");

    assert_eq!(
        error.to_string(),
        "BOT_FEATURES must enable at least one feature"
    );
}

#[test]
fn parses_verification_email_domain_allowlist() {
    let domains = parse_email_domains(" RIT.EDU,alumni.rit.edu,rit.edu ")
        .expect("email domains should parse");

    assert_eq!(domains, vec!["rit.edu", "alumni.rit.edu"]);
}

#[test]
fn rejects_invalid_verification_email_domains() {
    assert!(parse_email_domains("").is_err());
    assert!(parse_email_domains("@rit.edu").is_err());
    assert!(parse_email_domains("rit.edu, ").is_err());
}

#[test]
fn parses_target_specific_completion_url_and_roles() {
    let targets = parse_onboarding_targets(
        "headscale|Headscale|group-uuid|https://headscale.example.com|10,20;platform|Platform|platform-group|30",
    )
    .expect("onboarding targets should parse");

    assert_eq!(targets.len(), 2);
    assert_eq!(
        targets[0].completion_url.as_deref(),
        Some("https://headscale.example.com")
    );
    assert_eq!(targets[0].approver_role_ids, vec![10, 20]);
    assert_eq!(targets[1].completion_url, None);
    assert_eq!(targets[1].approver_role_ids, vec![30]);
}

#[test]
fn rejects_duplicate_onboarding_target_keys() {
    let error = parse_onboarding_targets(
        "headscale|Headscale|group-one|10;HEADSCALE|Other|group-two|20",
    )
    .expect_err("duplicate target keys should be rejected");

    assert!(error.to_string().contains("duplicate key"));
}

#[test]
fn rejects_unsafe_target_keys_and_completion_urls() {
    assert!(parse_onboarding_targets("bad key|Bad|group|10").is_err());
    assert!(
        parse_onboarding_targets("headscale|Headscale|group|ftp://example.com|10").is_err()
    );
}

#[test]
fn verification_only_registers_only_verify() {
    let features = "verification"
        .parse::<FeatureSet>()
        .expect("feature set should parse");

    assert_eq!(enabled_commands(&features), vec!["verify"]);
}

#[test]
fn full_feature_set_registers_each_enabled_command() {
    let features = "age,verification,onboarding"
        .parse::<FeatureSet>()
        .expect("feature set should parse");

    assert_eq!(enabled_commands(&features), vec!["age", "verify", "onboard"]);
}

#[test]
fn feature_set_reports_what_it_contains() {
    let features = "verification , ,age".parse::<FeatureSet>().unwrap();
    assert!(features.contains(Feature::Age));
    assert!(features.contains(Feature::Verification));
    assert!(!features.contains(Feature::Onboarding));
    assert_eq!(features.names(), vec!["age", "verification"]);
    assert_eq!(Feature::Onboarding.name(), "onboarding");
}

#[test]
fn unknown_feature_error_names_the_trimmed_entry() {
    let error = "age,  Age ".parse::<FeatureSet>().unwrap_err();
    assert_eq!(
        error.to_string(),
        "unknown BOT_FEATURES entry `Age`; expected age, verification, or onboarding"
    );
}

#[test]
fn invalid_domain_error_quotes_the_entry_as_written() {
    let error = parse_email_domains("rit.edu, bad domain").unwrap_err();
    assert_eq!(
        error.to_string(),
        "invalid VERIFICATION_ALLOWED_EMAIL_DOMAINS entry ` bad domain`; expected domain names such as rit.edu"
    );
    assert!(parse_email_domains("RIT.edu").unwrap() == vec!["rit.edu"]);
}

#[test]
fn target_errors_follow_the_order_of_checks() {
    let shape = parse_onboarding_target("a|b|c").unwrap_err();
    assert_eq!(
        shape.to_string(),
        "invalid ONBOARDING_TARGETS entry; expected key|label|authentik_group_uuid|[completion_url|]manager_role_ids"
    );
    let empty = parse_onboarding_target(" |label|group|1").unwrap_err();
    assert_eq!(
        empty.to_string(),
        "ONBOARDING_TARGETS key, label, and authentik group UUID cannot be empty"
    );
    let key = parse_onboarding_target(&format!("{}|label|group|1", "k".repeat(65))).unwrap_err();
    assert_eq!(
        key.to_string(),
        "ONBOARDING_TARGETS key must be at most 64 ASCII letters, numbers, hyphens, or underscores"
    );
    assert!(parse_onboarding_target(&format!("{}|label|group|1", "k".repeat(64))).is_ok());
    let label = parse_onboarding_target("key|la\u{7}bel|group|1").unwrap_err();
    assert_eq!(
        label.to_string(),
        "ONBOARDING_TARGETS label must be at most 100 characters without control characters"
    );
    // 51 two-byte characters are 102 bytes: too long for a label.
    let long_label = parse_onboarding_target(&format!("key|{}|group|1", "é".repeat(51))).unwrap_err();
    assert_eq!(long_label.to_string(), label.to_string());
    let group = parse_onboarding_target("key|label|gr oup|1").unwrap_err();
    assert_eq!(
        group.to_string(),
        "ONBOARDING_TARGETS authentik group UUID must be at most 200 characters without whitespace"
    );
    let url = parse_onboarding_target("key|label|group|not a url|1").unwrap_err();
    assert_eq!(url.to_string(), "invalid ONBOARDING_TARGETS completion URL");
    let roles = parse_onboarding_target("key|label|group| , ").unwrap_err();
    assert_eq!(
        roles.to_string(),
        "ONBOARDING_TARGETS manager_role_ids cannot be empty"
    );
    let digit = parse_onboarding_target("key|label|group|1,x2").unwrap_err();
    assert_eq!(digit.to_string(), "invalid digit found in string");
    let big = parse_onboarding_target("key|label|group|18446744073709551616").unwrap_err();
    assert_eq!(big.to_string(), "number too large to fit in target type");
}

#[test]
fn blank_completion_url_means_none() {
    let target = parse_onboarding_target(" key | Label | group |  | 5, +6 ").unwrap();
    assert_eq!(target.key, "key");
    assert_eq!(target.label, "Label");
    assert_eq!(target.authentik_group_uuid, "group");
    assert_eq!(target.completion_url, None);
    assert_eq!(target.approver_role_ids, vec![5, 6]);
}

#[test]
fn target_lists_skip_blank_entries_and_need_one() {
    assert_eq!(
        parse_onboarding_targets("; a|A|g|1 ;;").unwrap().len(),
        1
    );
    assert_eq!(
        parse_onboarding_targets(" ; ").unwrap_err().to_string(),
        "ONBOARDING_TARGETS cannot be empty"
    );
    assert_eq!(
        parse_onboarding_targets("a|A|g|1;b|B|g|2;A|C|g|3")
            .unwrap_err()
            .to_string(),
        "ONBOARDING_TARGETS contains duplicate key `A`"
    );
}

#[test]
fn role_ids_skip_blank_entries() {
    assert_eq!(parse_role_ids(" 1, ,2,").unwrap(), vec![1, 2]);
    assert!(parse_role_ids("").unwrap().is_empty());
    assert_eq!(
        parse_role_ids("-1").unwrap_err().to_string(),
        "invalid digit found in string"
    );
}

#[test]
fn web_urls_must_be_http_or_https() {
    assert_eq!(validate_web_url("https://example.com/path"), Ok(()));
    assert_eq!(validate_web_url("HTTP://example.com"), Ok(()));
    assert_eq!(validate_web_url("ftp://example.com"), Err(WebUrlError::NotHttp));
    assert_eq!(validate_web_url("example.com"), Err(WebUrlError::Unparsable));
}

fn env(vars: &[(&str, &str)]) -> Environment {
    Environment {
        vars: vars
            .iter()
            .map(|(k, v)| EnvVar {
                key: k.to_string(),
                value: Some(v.to_string()),
            })
            .collect(),
    }
}

#[test]
fn database_settings_use_defaults_and_reject_bad_numbers() {
    let config = DBConfig::from_env(&env(&[("DATABASE_URL", "postgres://db")])).unwrap();
    assert_eq!(config.url, "postgres://db");
    assert_eq!(config.max_connections, 10);

    let error = DBConfig::from_env(&env(&[
        ("DATABASE_URL", "postgres://db"),
        ("DATABASE_MAX_CONNECTIONS", "4294967296"),
    ]))
    .err()
    .unwrap();
    assert_eq!(error.to_string(), "invalid DATABASE_MAX_CONNECTIONS");

    let missing = DBConfig::from_env(&env(&[])).err().unwrap();
    assert_eq!(missing.to_string(), "missing DATABASE_URL");
}

#[test]
fn non_unicode_optional_variables_cannot_be_read() {
    let environment = Environment {
        vars: vec![
            EnvVar {
                key: "DATABASE_URL".to_string(),
                value: Some("postgres://db".to_string()),
            },
            EnvVar {
                key: "DATABASE_MAX_CONNECTIONS".to_string(),
                value: None,
            },
        ],
    };
    let error = DBConfig::from_env(&environment).err().unwrap();
    assert_eq!(error.to_string(), "failed reading DATABASE_MAX_CONNECTIONS");
}

#[test]
fn email_settings_default_port_and_starttls() {
    let config = EmailConfig::from_env(&env(&[
        ("SMTP_HOST", "smtp.example.com"),
        ("SMTP_USERNAME", "user"),
        ("SMTP_PASSWORD", "secret"),
        ("EMAIL_FROM_ADDRESS", "bot@example.com"),
    ]))
    .unwrap();
    assert_eq!(config.smtp_port, 587);
    assert!(config.smtp_starttls);

    let error = EmailConfig::from_env(&env(&[
        ("SMTP_HOST", "smtp.example.com"),
        ("SMTP_STARTTLS", "yes"),
    ]))
    .err()
    .unwrap();
    assert_eq!(error.to_string(), "invalid SMTP_STARTTLS");
}

#[test]
fn onboarding_falls_back_to_the_single_headscale_target() {
    let config = OnboardingConfig::from_env(&env(&[
        ("HEADSCALE_LOGIN_URL", "https://headscale.example.com"),
        ("ONBOARDING_TARGETS", "   "),
        ("ONBOARDING_OFFICER_ROLE_ID", "77"),
        ("AUTHENTIK_HEADSCALE_GROUP_UUID", "group"),
        ("AUTHENTIK_BASE_URL", "https://authentik.example.com"),
        ("AUTHENTIK_CLIENT_ID", "client"),
        ("AUTHENTIK_USERNAME", "svc"),
        ("AUTHENTIK_PASSWORD", "pw"),
        ("AUTHENTIK_LOGIN_URL", "https://authentik.example.com"),
        ("ONBOARDING_REVIEW_CHANNEL_ID", "5"),
    ]))
    .unwrap();
    assert_eq!(config.targets.len(), 1);
    assert_eq!(config.targets[0].key, "headscale");
    assert_eq!(config.targets[0].label, "Headscale");
    assert_eq!(config.targets[0].approver_role_ids, vec![77]);
    assert_eq!(config.review_channel_id, 5);

    let blank = OnboardingConfig::from_env(&env(&[
        ("HEADSCALE_LOGIN_URL", "https://headscale.example.com"),
        ("ONBOARDING_OFFICER_ROLE_ID", "77"),
        ("AUTHENTIK_HEADSCALE_GROUP_UUID", "  "),
    ]))
    .err()
    .unwrap();
    assert_eq!(
        blank.to_string(),
        "AUTHENTIK_HEADSCALE_GROUP_UUID cannot be empty"
    );
}

#[test]
fn app_config_reads_only_enabled_features() {
    let config = AppConfig::from_env(&env(&[
        ("BOT_FEATURES", "age"),
        ("BOT_TOKEN", "token"),
        ("GUILD_ID", "12"),
        ("DATABASE_URL", "postgres://db"),
    ]))
    .unwrap();
    assert!(config.verification.is_none());
    assert!(config.onboarding.is_none());
    assert_eq!(config.discord.guild_id, Some(12));

    let error = AppConfig::from_env(&env(&[
        ("BOT_FEATURES", "verification"),
        ("BOT_TOKEN", "token"),
        ("DATABASE_URL", "postgres://db"),
    ]))
    .err()
    .unwrap();
    assert_eq!(error.to_string(), "missing VERIFIED_ROLE_ID");

    let url = AppConfig::from_env(&env(&[
        ("BOT_FEATURES", "verification,onboarding"),
        ("VERIFIED_ROLE_ID", "1"),
        ("SMTP_HOST", "h"),
        ("SMTP_USERNAME", "u"),
        ("SMTP_PASSWORD", "p"),
        ("EMAIL_FROM_ADDRESS", "f"),
        ("HEADSCALE_LOGIN_URL", "ftp://headscale"),
    ]))
    .err()
    .unwrap();
    assert_eq!(url.to_string(), "invalid HEADSCALE_LOGIN_URL");
}
