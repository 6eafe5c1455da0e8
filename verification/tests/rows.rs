use sse_discord_bot::config::settings::EmailConfig;
use sse_discord_bot::domain::onboarding::OnboardingStatus;
use sse_discord_bot::email::{check_email_config, verification_email_body};
use sse_discord_bot::rows::{
    clamp_limit, db_id_to_discord, discord_id_to_db, optional_db_id_to_discord, OnboardingRow,
    RowError, VerifiedIdentityRow,
};

fn row() -> OnboardingRow {
    OnboardingRow {
        id: 4,
        discord_user_id: 42,
        requested_by_user_id: 9,
        verified_email: "member@example.com".to_string(),
        verified_display_name: "Ada".to_string(),
        target_key: "headscale".to_string(),
        target_label: "Headscale".to_string(),
        status: "provisioning".to_string(),
        decided_by_user_id: Some(11),
        decided_at: Some(5),
        review_channel_id: None,
        review_message_id: None,
        provisioning_attempts: 2,
        provisioning_started_at: Some(6),
        authentik_user_id: None,
        last_error: None,
        requested_at: 1,
        updated_at: 6,
        completed_at: None,
    }
}

#[test]
fn discord_ids_round_trip_through_signed_columns() {
    assert_eq!(discord_id_to_db(42), Ok(42));
    assert_eq!(discord_id_to_db(u64::MAX), Err(RowError::DiscordIdTooLarge));
    assert_eq!(db_id_to_discord(42), Ok(42));
    assert_eq!(db_id_to_discord(-1), Err(RowError::StoredIdNegative));
    assert_eq!(optional_db_id_to_discord(None), Ok(None));
    assert_eq!(optional_db_id_to_discord(Some(-5)), Err(RowError::StoredIdNegative));
    assert_eq!(
        RowError::DiscordIdTooLarge.to_string(),
        "Discord ID is too large for Postgres BIGINT"
    );
}

#[test]
fn stored_rows_read_back_as_requests() {
    let request = row().into_domain().unwrap();
    assert_eq!(request.id().get(), 4);
    assert_eq!(request.status(), OnboardingStatus::Provisioning);
    assert_eq!(request.decided_by_user_id(), Some(11));
    assert_eq!(request.provisioning_attempts(), 2);
    assert_eq!(request.email().to_string(), "member@example.com");
}

#[test]
fn broken_rows_are_refused_in_order() {
    let mut bad = row();
    bad.id = 0;
    bad.status = "weird".to_string();
    assert_eq!(bad.into_domain().unwrap_err(), RowError::RequestIdNotPositive);
    let mut bad = row();
    bad.status = "weird".to_string();
    assert_eq!(bad.into_domain().unwrap_err(), RowError::StatusInvalid);
    let mut bad = row();
    bad.provisioning_attempts = -1;
    assert_eq!(bad.into_domain().unwrap_err(), RowError::AttemptsInvalid);
    let mut bad = row();
    bad.verified_email = "nope".to_string();
    assert!(matches!(bad.into_domain().unwrap_err(), RowError::EmailInvalid(_)));
}

#[test]
fn legacy_identity_can_confirm_its_display_name() {
    let legacy = VerifiedIdentityRow {
        discord_user_id: 1,
        email: "test@example.com".to_string(),
        display_name: None,
        display_name_confirmed: true,
        verified_at: 0,
    }
    .into_domain()
    .unwrap();
    assert_eq!(legacy.display_name().as_str(), "Unconfirmed member");
    assert!(!legacy.is_display_name_confirmed());

    let confirmed = VerifiedIdentityRow {
        discord_user_id: 1,
        email: "test@example.com".to_string(),
        display_name: Some("Test Member".to_string()),
        display_name_confirmed: true,
        verified_at: 0,
    }
    .into_domain()
    .unwrap();
    assert_eq!(confirmed.display_name().as_str(), "Test Member");
    assert!(confirmed.is_display_name_confirmed());
}

#[test]
fn listing_limits_are_clamped() {
    assert_eq!(clamp_limit(0, 50), 1);
    assert_eq!(clamp_limit(25, 50), 25);
    assert_eq!(clamp_limit(100, 20), 20);
}

#[test]
fn verification_email_states_the_code_and_its_lifetime() {
    let body = verification_email_body("123456");
    assert!(body.starts_with("Your SSE Discord verification code is: 123456\n\nThis code expires in 1 hour."));
    assert!(body.ends_with("If you did not request this code, you can ignore this email."));
    let config = EmailConfig {
        smtp_host: " ".to_string(),
        smtp_port: 587,
        smtp_starttls: true,
        smtp_username: "u".to_string(),
        smtp_password: "p".to_string(),
        from_address: "bot@example.com".to_string(),
    };
    assert_eq!(check_email_config(&config), Err("SMTP_HOST cannot be empty"));
}
