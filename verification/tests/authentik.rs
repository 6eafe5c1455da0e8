use sse_discord_bot::authentik::{
    api_url, check_base_url, find_user_by_email, token_is_valid, token_refresh_after,
    user_name_for, username_from_email, validate_recovery_link, AuthentikUser,
    RecoveryLinkError,
};

#[test]
fn username_from_email_is_safe_and_stable() {
    assert_eq!(
        username_from_email("test.user@example.com", 42),
        "test-user-42"
    );
}

#[test]
fn recovery_links_from_an_unexpected_origin_are_rejected() {
    let error = validate_recovery_link(
        "https://authentik.example.com",
        "https://attacker.example.com/if/flow/recovery/?flow_token=secret",
    )
    .expect_err("cross-origin recovery link should be rejected");

    assert!(error.to_string().contains("unexpected origin"));
}

#[test]
fn recovery_links_from_the_configured_origin_are_accepted() {
    assert_eq!(
        validate_recovery_link(
            "https://authentik.example.com/",
            "https://AUTHENTIK.example.com:443/if/flow/recovery/?flow_token=secret",
        ),
        Ok(())
    );
    assert_eq!(
        validate_recovery_link("https://authentik.example.com", "http://authentik.example.com/x"),
        Err(RecoveryLinkError::UnexpectedOrigin)
    );
    assert_eq!(
        validate_recovery_link("https://authentik.example.com", "not a link"),
        Err(RecoveryLinkError::InvalidLink)
    );
    assert_eq!(
        validate_recovery_link("data:text/plain,x", "data:text/plain,x"),
        Err(RecoveryLinkError::UnexpectedOrigin)
    );
}

#[test]
fn usernames_without_an_at_sign_use_the_whole_address() {
    assert_eq!(username_from_email("a+b_c", 7), "a-b_c-7");
    assert_eq!(username_from_email("ä@x", 1), "--1");
}

#[test]
fn api_urls_have_one_slash_between_base_and_path() {
    assert_eq!(
        api_url("https://auth.example.com//", "/api/v3/core/users/"),
        "https://auth.example.com/api/v3/core/users/"
    );
    assert_eq!(api_url("http://h", "x"), "http://h/x");
}

#[test]
fn users_match_addresses_ignoring_ascii_case() {
    let users = vec![
        AuthentikUser { pk: 1, username: "a".into(), email: "other@example.com".into(), name: "A".into() },
        AuthentikUser { pk: 2, username: "b".into(), email: "Test@Example.com".into(), name: "B".into() },
    ];
    assert_eq!(find_user_by_email(&users, "test@example.com"), Some(1));
    assert_eq!(find_user_by_email(&users, "nobody@example.com"), None);
}

#[test]
fn new_users_are_named_after_the_preferred_name() {
    assert_eq!(user_name_for("  Test User ", "test-42"), "Test User");
    assert_eq!(user_name_for("   ", "test-42"), "test-42");
}

#[test]
fn tokens_are_refreshed_before_they_expire() {
    assert_eq!(token_refresh_after(300), 270);
    assert_eq!(token_refresh_after(3600), 3570);
    assert_eq!(token_refresh_after(50), 45);
    assert!(!token_is_valid("", 300));
    assert!(!token_is_valid("t", 0));
    assert!(token_is_valid("t", 1));
    assert_eq!(check_base_url("  "), Err("AUTHENTIK_BASE_URL cannot be empty"));
    assert_eq!(check_base_url("https://a"), Ok(()));
}

#[test]
fn existing_authentik_user_is_found_by_exact_email() {
    let users = vec![AuthentikUser {
        pk: 1,
        username: "test".into(),
        email: "test@example.com".into(),
        name: "Test User".into(),
    }];

    let user = &users[find_user_by_email(&users, "test@example.com").expect("user should exist")];

    assert_eq!(user.pk, 1);
    assert_eq!(user.email, "test@example.com");
}

#[test]
fn missing_authentik_user_is_created() {
    let users: Vec<AuthentikUser> = vec![];
    assert_eq!(find_user_by_email(&users, "test@example.com"), None);

    let username = username_from_email("test@example.com", 42);
    assert_eq!(username, "test-42");
    assert_eq!(user_name_for("Test User", &username), "Test User");
}

#[test]
fn temporary_recovery_link_is_created_for_the_user() {
    let base = "http://127.0.0.1:8123";
    let recovery_link = format!("{}/if/flow/sse-recovery-flow/?flow_token=temporary-secret", base);

    assert_eq!(validate_recovery_link(base, &recovery_link), Ok(()));
    assert_eq!(
        api_url(base, "/api/v3/core/users/2/recovery/"),
        "http://127.0.0.1:8123/api/v3/core/users/2/recovery/"
    );
}
