use openbio::config::DeploymentMode;
use openbio::licensing::{
    generate_server_id, holds_offline, license_from_answer, requires_license, status_is_success,
    Instant, License, LicenseValidator, Platform, Reply, ValidationResponse, GRACE_DAYS,
    UNKNOWN_SERVER_ID, VALIDATION_ENDPOINT,
};

const DAY: i64 = 86_400;

fn license(tier: &str, expires_at: &str) -> License {
    License {
        key: "KEY-1".to_string(),
        tier: tier.to_string(),
        expires_at: expires_at.to_string(),
        organization_name: None,
    }
}

fn at(seconds: i64, nanos: u32) -> Instant {
    Instant { seconds, nanos }
}

fn answer(valid: bool) -> ValidationResponse {
    ValidationResponse {
        valid,
        tier: Some("hub".to_string()),
        expires_at: Some("2030-01-01T00:00:00Z".to_string()),
        organization_name: Some("Acme".to_string()),
        reason: None,
    }
}

#[test]
fn hub_and_enterprise_require_a_license() {
    assert!(requires_license(&DeploymentMode::Hub));
    assert!(requires_license(&DeploymentMode::Enterprise));
    assert!(!requires_license(&DeploymentMode::Local));
    assert!(!requires_license(&DeploymentMode::Spoke));
    assert!(!requires_license(&DeploymentMode::Unconfigured));
}

#[test]
fn endpoints() {
    let validator = LicenseValidator::new();
    assert_eq!(
        validator.validation_endpoint(),
        "https://your-vercel-app.vercel.app/api/license/validate"
    );
    assert_eq!(validator.validation_endpoint(), VALIDATION_ENDPOINT);
    assert_eq!(
        validator.purchase_endpoint(),
        "https://your-vercel-app.vercel.app/api/license/purchase"
    );
    assert_eq!(
        validator.purchase_endpoint(),
        VALIDATION_ENDPOINT.replace("/validate", "/purchase")
    );
}

#[test]
fn validation_request_carries_key_and_server() {
    let validator = LicenseValidator::new();
    let request = validator.validation_request("KEY-9", Some("machine".to_string()));
    assert_eq!(request.license_key, "KEY-9");
    assert_eq!(request.server_id.as_deref(), Some("machine"));
    assert_eq!(validator.validation_request("k", None).server_id, None);
}

#[test]
fn online_success_copies_the_answer() {
    let validator = LicenseValidator::new();
    let reply = Reply::Answered { status: 200, body: Ok(answer(true)) };
    let found = validator.validate_online("KEY-1", reply).expect("valid");
    assert_eq!(found.key, "KEY-1");
    assert_eq!(found.tier, "hub");
    assert_eq!(found.expires_at, "2030-01-01T00:00:00Z");
    assert_eq!(found.organization_name.as_deref(), Some("Acme"));
}

#[test]
fn online_success_without_tier_or_expiry_is_an_invalid_response() {
    let validator = LicenseValidator::new();
    let bare = ValidationResponse {
        valid: true,
        tier: None,
        expires_at: None,
        organization_name: None,
        reason: Some("ignored".to_string()),
    };
    let verdict = validator.validate_online("K", Reply::Answered { status: 299, body: Ok(bare) });
    assert_eq!(verdict.unwrap_err(), "Invalid response: missing or unknown tier");

    let with = |tier: Option<&str>, expires_at: Option<&str>| ValidationResponse {
        valid: true,
        tier: tier.map(|t| t.to_string()),
        expires_at: expires_at.map(|t| t.to_string()),
        organization_name: None,
        reason: None,
    };
    let ask = |response| {
        validator.validate_online("K", Reply::Answered { status: 200, body: Ok(response) })
    };
    for tier in [Some(""), Some("pro"), Some("Hub"), Some("hub "), None] {
        let verdict = ask(with(tier, Some("2030-01-01T00:00:00Z")));
        assert_eq!(verdict.unwrap_err(), "Invalid response: missing or unknown tier");
    }
    for expires_at in [None, Some(""), Some("2030-01-01"), Some("next year")] {
        let verdict = ask(with(Some("hub"), expires_at));
        assert_eq!(verdict.unwrap_err(), "Invalid response: missing or unreadable expiry");
    }
    for tier in ["hub", "enterprise"] {
        let found = ask(with(Some(tier), Some("2030-01-01T00:00:00+01:00"))).expect("granted");
        assert_eq!(found.tier, tier);
        assert_eq!(found.expires_at, "2030-01-01T00:00:00+01:00");
        assert!(found.expiry().is_some());
        assert_eq!(validator.validate_offline(&found), Ok(()));
    }
}

#[test]
fn license_from_answer_goes_by_what_was_read_of_the_expiry() {
    let granted = license_from_answer("K", answer(true), true).expect("granted");
    assert_eq!(granted.key, "K");
    assert_eq!(granted.tier, "hub");
    assert_eq!(granted.expires_at, "2030-01-01T00:00:00Z");
    assert_eq!(granted.organization_name.as_deref(), Some("Acme"));
    assert_eq!(
        license_from_answer("K", answer(true), false).unwrap_err(),
        "Invalid response: missing or unreadable expiry"
    );
    assert_eq!(license_from_answer("K", answer(false), true).unwrap_err(), "License invalid");
    let mut no_tier = answer(true);
    no_tier.tier = None;
    assert_eq!(
        license_from_answer("K", no_tier, true).unwrap_err(),
        "Invalid response: missing or unknown tier"
    );
    let mut no_expiry = answer(true);
    no_expiry.expires_at = None;
    assert_eq!(
        license_from_answer("K", no_expiry, true).unwrap_err(),
        "Invalid response: missing or unreadable expiry"
    );
}

#[test]
fn online_failures_have_distinct_reasons() {
    let validator = LicenseValidator::new();
    let unreachable = validator
        .validate_online("K", Reply::Unreachable("connection refused".to_string()))
        .unwrap_err();
    assert_eq!(unreachable, "Network error: connection refused");

    let refused = validator
        .validate_online("K", Reply::Answered { status: 500, body: Ok(answer(true)) })
        .unwrap_err();
    assert_eq!(refused, "Failed to validate license");
    let refused = validator
        .validate_online("K", Reply::Answered { status: 404, body: Err("x".to_string()) })
        .unwrap_err();
    assert_eq!(refused, "Failed to validate license");

    let unreadable = validator
        .validate_online("K", Reply::Answered { status: 200, body: Err("EOF at 1".to_string()) })
        .unwrap_err();
    assert_eq!(unreadable, "Invalid response: EOF at 1");

    let invalid = validator
        .validate_online("K", Reply::Answered { status: 200, body: Ok(answer(false)) })
        .unwrap_err();
    assert_eq!(invalid, "License invalid");

    let mut revoked = answer(false);
    revoked.reason = Some("License revoked".to_string());
    let invalid = validator
        .validate_online("K", Reply::Answered { status: 200, body: Ok(revoked) })
        .unwrap_err();
    assert_eq!(invalid, "License revoked");
}

#[test]
fn success_statuses() {
    assert!(!status_is_success(199));
    assert!(status_is_success(200));
    assert!(status_is_success(204));
    assert!(status_is_success(299));
    assert!(!status_is_success(300));
    assert!(!status_is_success(0));
}

#[test]
fn trial_request_and_answers() {
    let validator = LicenseValidator::new();
    let request = validator.trial_request("a@b.org", "hub");
    assert_eq!(request.action, "start-trial");
    assert_eq!(request.email, "a@b.org");
    assert_eq!(request.tier, "hub");

    let ok = validator.start_trial(Reply::Answered {
        status: 200,
        body: Ok(Some("TRIAL-123".to_string())),
    });
    assert_eq!(ok, Ok("TRIAL-123".to_string()));
    let missing = validator.start_trial(Reply::Answered { status: 200, body: Ok(None) });
    assert_eq!(missing, Err("No trial license generated".to_string()));
    let refused = validator.start_trial(Reply::Answered {
        status: 402,
        body: Ok(Some("TRIAL".to_string())),
    });
    assert_eq!(refused, Err("Failed to start trial".to_string()));
    let unreadable =
        validator.start_trial(Reply::Answered { status: 201, body: Err("bad json".to_string()) });
    assert_eq!(unreadable, Err("Invalid response: bad json".to_string()));
    let unreachable = validator.start_trial(Reply::Unreachable("timeout".to_string()));
    assert_eq!(unreachable, Err("Network error: timeout".to_string()));
}

#[test]
fn offline_one_day_past_expiry_holds() {
    let validator = LicenseValidator::new();
    let now = chrono::Utc::now();
    let expires = (now - chrono::Duration::days(1)).to_rfc3339();
    assert_eq!(validator.validate_offline(&license("hub", &expires)), Ok(()));
    let instant = at(now.timestamp(), now.timestamp_subsec_nanos());
    assert_eq!(validator.validate_offline_at(&license("hub", &expires), instant), Ok(()));
}

#[test]
fn offline_thirty_one_days_past_expiry_fails_as_expired() {
    let validator = LicenseValidator::new();
    let now = chrono::Utc::now();
    let expires = (now - chrono::Duration::days(31)).to_rfc3339();
    let reason = validator.validate_offline(&license("hub", &expires)).unwrap_err();
    assert_eq!(reason, "License expired and requires online validation");
    assert!(reason.contains("expired"));
}

#[test]
fn offline_future_expiry_holds() {
    let validator = LicenseValidator::new();
    let expires = (chrono::Utc::now() + chrono::Duration::days(365)).to_rfc3339();
    assert_eq!(validator.validate_offline(&license("enterprise", &expires)), Ok(()));
}

#[test]
fn offline_grace_ends_thirty_days_after_expiry() {
    let validator = LicenseValidator::new();
    assert_eq!(GRACE_DAYS, 30);
    // 2024-01-01T00:00:00Z is 1704067200 seconds after the epoch.
    let cached = license("hub", "2024-01-01T00:00:00Z");
    let end = 1_704_067_200 + 30 * DAY;
    assert_eq!(validator.validate_offline_at(&cached, at(0, 0)), Ok(()));
    assert_eq!(validator.validate_offline_at(&cached, at(end - 1, 999_999_999)), Ok(()));
    assert_eq!(validator.validate_offline_at(&cached, at(end, 0)), Ok(()));
    assert_eq!(
        validator.validate_offline_at(&cached, at(end, 1)),
        Err("License expired and requires online validation".to_string())
    );
    assert!(validator.validate_offline_at(&cached, at(end + 1, 0)).is_err());
    assert!(validator.validate_offline_at(&cached, at(i64::MAX, 0)).is_err());
    assert_eq!(validator.validate_offline_at(&cached, at(i64::MIN, 0)), Ok(()));
}

#[test]
fn offline_reads_fraction_and_offset_of_the_expiry() {
    let validator = LicenseValidator::new();
    let end = 1_704_067_200 + 30 * DAY;
    let cached = license("hub", "2024-01-01T00:00:00.5Z");
    assert_eq!(validator.validate_offline_at(&cached, at(end, 500_000_000)), Ok(()));
    assert!(validator.validate_offline_at(&cached, at(end, 500_000_001)).is_err());
    let cached = license("hub", "2024-01-01T02:00:00+02:00");
    assert_eq!(validator.validate_offline_at(&cached, at(end, 0)), Ok(()));
    assert!(validator.validate_offline_at(&cached, at(end, 1)).is_err());
}

#[test]
fn offline_agrees_with_the_calendar_on_a_leap_second() {
    let validator = LicenseValidator::new();
    let text = "2016-12-31T23:59:60.25Z";
    let cached = license("hub", text);
    let expires = chrono::DateTime::parse_from_rfc3339(text).expect("leap second is accepted");
    let deadline = expires.with_timezone(&chrono::Utc) + chrono::Duration::days(30);
    let end = at(deadline.timestamp(), deadline.timestamp_subsec_nanos());
    assert_eq!(end.nanos, 250_000_000);
    assert_eq!(validator.validate_offline_at(&cached, end), Ok(()));
    assert!(validator.validate_offline_at(&cached, at(end.seconds, end.nanos + 1)).is_err());
}

#[test]
fn offline_rejects_an_unreadable_expiry() {
    let validator = LicenseValidator::new();
    for text in ["", "tomorrow", "2024-01-01", "2024-13-01T00:00:00Z", "2024-01-01T00:00:00"] {
        assert_eq!(
            validator.validate_offline(&license("hub", text)),
            Err("Invalid expiration date format".to_string()),
            "{:?}",
            text
        );
        assert_eq!(
            validator.validate_offline_at(&license("hub", text), at(0, 0)),
            Err("Invalid expiration date format".to_string())
        );
    }
}

#[test]
fn license_tier_covers_modes() {
    let hub = license("hub", "");
    let enterprise = license("enterprise", "");
    let other = license("Hub", "");
    assert!(hub.covers(&DeploymentMode::Hub));
    assert!(!hub.covers(&DeploymentMode::Enterprise));
    assert!(enterprise.covers(&DeploymentMode::Hub));
    assert!(enterprise.covers(&DeploymentMode::Enterprise));
    assert!(!other.covers(&DeploymentMode::Hub));
    assert!(!other.covers(&DeploymentMode::Enterprise));
    for mode in [DeploymentMode::Local, DeploymentMode::Spoke, DeploymentMode::Unconfigured] {
        assert!(other.covers(&mode));
    }
}

#[test]
fn server_id_on_linux_is_the_trimmed_output() {
    let id = generate_server_id(Platform::Linux, Some(b"4c4c4544-0042\n".to_vec()));
    assert_eq!(id, "4c4c4544-0042");
    let id = generate_server_id(Platform::Linux, Some(b" \t abc def \r\n\n".to_vec()));
    assert_eq!(id, "abc def");
    let id = generate_server_id(Platform::Linux, Some("\u{a0}id\u{2003}".as_bytes().to_vec()));
    assert_eq!(id, "id");
}

#[test]
fn server_id_on_linux_is_unknown_for_blank_output() {
    assert_eq!(generate_server_id(Platform::Linux, Some(Vec::new())), "unknown");
    assert_eq!(generate_server_id(Platform::Linux, Some(b"  \n".to_vec())), "unknown");
    assert_eq!(generate_server_id(Platform::Linux, Some(b"abc123\n".to_vec())), "abc123");
}

#[test]
fn server_id_on_macos_is_the_quoted_value() {
    let output = "+-o Root  <class IORegistryEntry>\n    {\n      \"IOPlatformSerialNumber\" = \"C02XYZ\"\n      \"IOPlatformUUID\" = \"A1B2C3D4-0000-1111-2222-333344445555\"\n      \"other\" = \"IOPlatformUUID\"\n    }\n";
    let id = generate_server_id(Platform::MacOs, Some(output.as_bytes().to_vec()));
    assert_eq!(id, "A1B2C3D4-0000-1111-2222-333344445555");

    let windows_ends = "x\r\n\"IOPlatformUUID\" = \"ABC\r\n";
    assert_eq!(generate_server_id(Platform::MacOs, Some(windows_ends.as_bytes().to_vec())), "ABC");
    let last_line = "\"IOPlatformUUID\" = \"ABC\r";
    assert_eq!(generate_server_id(Platform::MacOs, Some(last_line.as_bytes().to_vec())), "ABC\r");
    let empty_value = "\"IOPlatformUUID\" = \"\"";
    assert_eq!(
        generate_server_id(Platform::MacOs, Some(empty_value.as_bytes().to_vec())),
        "unknown"
    );
}

#[test]
fn server_id_on_macos_is_unknown_without_the_value() {
    for output in ["", "no such line\n", "IOPlatformUUID = none", "\"IOPlatformUUID\" = 7\n"] {
        let id = generate_server_id(Platform::MacOs, Some(output.as_bytes().to_vec()));
        assert_eq!(id, "unknown", "{:?}", output);
    }
}

#[test]
fn server_id_on_windows_is_the_second_line() {
    let output = "UUID                                  \r\n4C4C4544-0042-3510-8054-B7C04F4E4733  \r\n\r\n";
    let id = generate_server_id(Platform::Windows, Some(output.as_bytes().to_vec()));
    assert_eq!(id, "4C4C4544-0042-3510-8054-B7C04F4E4733");
    assert_eq!(generate_server_id(Platform::Windows, Some(b"UUID".to_vec())), "unknown");
    assert_eq!(generate_server_id(Platform::Windows, Some(b"UUID\n".to_vec())), "unknown");
    assert_eq!(generate_server_id(Platform::Windows, Some(b"UUID\r\n  \r\n".to_vec())), "unknown");
    assert_eq!(generate_server_id(Platform::Windows, Some(Vec::new())), "unknown");
}

#[test]
fn server_id_is_unknown_without_a_lookup() {
    assert_eq!(UNKNOWN_SERVER_ID, "unknown");
    for platform in [Platform::MacOs, Platform::Linux, Platform::Windows, Platform::Other] {
        assert_eq!(generate_server_id(platform, None), "unknown");
        assert_eq!(generate_server_id(platform, Some(vec![0x66, 0xff, 0x6f])), "unknown");
    }
    assert_eq!(generate_server_id(Platform::Other, Some(b"abc".to_vec())), "unknown");
}

#[test]
fn expiry_is_read_as_an_instant() {
    let t = license("hub", "2024-01-01T00:00:00Z").expiry().expect("well-formed");
    assert_eq!((t.seconds, t.nanos), (1_704_067_200, 0));
    let t = license("hub", "1969-12-31T23:59:59.000000001Z").expiry().expect("well-formed");
    assert_eq!((t.seconds, t.nanos), (-1, 1));
    let t = license("hub", "2024-01-01t01:00:00.75+01:00").expiry().expect("well-formed");
    assert_eq!((t.seconds, t.nanos), (1_704_067_200, 750_000_000));
    assert_eq!(license("hub", "soon").expiry(), None);
}

#[test]
fn holds_offline_counts_thirty_days_from_the_expiry() {
    let expires = Some(at(1_000, 5));
    assert_eq!(holds_offline(expires, at(1_000 + 30 * DAY, 5)), Ok(()));
    assert_eq!(
        holds_offline(expires, at(1_000 + 30 * DAY, 6)),
        Err("License expired and requires online validation".to_string())
    );
    assert_eq!(holds_offline(expires, at(999, 0)), Ok(()));
    assert_eq!(holds_offline(None, at(0, 0)), Err("Invalid expiration date format".to_string()));
    let leap = Some(at(1_000, 1_999_999_999));
    assert_eq!(holds_offline(leap, at(1_000 + 30 * DAY, 999_999_999)), Ok(()));
    assert!(holds_offline(leap, at(1_000 + 30 * DAY, 1_000_000_000)).is_err());
    assert_eq!(holds_offline(Some(at(i64::MAX, 0)), at(i64::MAX, u32::MAX)), Ok(()));
    assert!(holds_offline(Some(at(i64::MIN, 0)), at(i64::MIN + 30 * DAY, 1)).is_err());
}
