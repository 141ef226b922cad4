use voicetypr::commands::remote::{
    app_allowed_in_listing, apply_server_update, begin_active_server_change, choose_sharing_model,
    classify_status_check, ensure_remote_selection_is_allowed, ensure_sharing_can_start,
    ensure_sharing_engine_supported, format_local_ips, is_self_connection, macos_firewall_status,
    new_server_details, record_reported_model, record_status_check, remote_reply_check,
    remote_transcript,
    resolve_shareable_model_config, server_name_or_default, update_saved_server,
    ActiveServerChange, FirewallStatus, DEFAULT_PORT,
};
use voicetypr::remote::settings::{ConnectionStatus, RemoteSettings};

#[test]
fn test_default_port() {
    assert_eq!(DEFAULT_PORT, 47842);
}

#[test]
fn test_apply_server_update_preserves_active_connection() {
    let mut settings = RemoteSettings::default();
    let conn = settings.add_connection(
        "192.168.1.10".to_string(),
        47842,
        None,
        Some("Primary".to_string()),
        Some("whisper-base".to_string()),
    );
    let conn_id = conn.id.clone();

    settings
        .set_active_connection(Some(conn_id.clone()))
        .unwrap();

    let updated = apply_server_update(
        &mut settings,
        &conn_id,
        "192.168.1.11".to_string(),
        47843,
        Some("pw".to_string()),
        Some("Updated".to_string()),
        Some("whisper-large".to_string()),
    )
    .unwrap();

    assert_eq!(updated.id, conn_id);
    assert_eq!(settings.active_connection_id, Some(updated.id.clone()));

    let stored = settings.get_connection(&updated.id).unwrap();
    assert_eq!(stored.host, "192.168.1.11");
    assert_eq!(stored.port, 47843);
    assert_eq!(stored.password, Some("pw".to_string()));
    assert_eq!(stored.model, Some("whisper-large".to_string()));
}

#[test]
fn test_apply_server_update_keeps_other_active_connection() {
    let mut settings = RemoteSettings::default();
    let conn_a = settings.add_connection(
        "192.168.1.20".to_string(),
        47842,
        None,
        Some("A".to_string()),
        None,
    );
    let conn_b = settings.add_connection(
        "192.168.1.21".to_string(),
        47842,
        None,
        Some("B".to_string()),
        None,
    );

    settings
        .set_active_connection(Some(conn_b.id.clone()))
        .unwrap();

    apply_server_update(
        &mut settings,
        &conn_a.id,
        "192.168.1.22".to_string(),
        47844,
        None,
        Some("A2".to_string()),
        None,
    )
    .unwrap();

    assert_eq!(settings.active_connection_id, Some(conn_b.id));
}

#[test]
fn test_start_sharing_is_blocked_when_remote_server_is_active() {
    let mut settings = RemoteSettings::default();
    let conn = settings.add_connection(
        "192.168.1.30".to_string(),
        47842,
        None,
        Some("Remote".to_string()),
        None,
    );

    settings
        .set_active_connection(Some(conn.id))
        .expect("active remote server should be set");

    let result = ensure_sharing_can_start(&settings);

    assert_eq!(
        result,
        Err(
            "Network sharing is unavailable while using a remote VoiceTypr instance as your model source."
                .to_string()
        )
    );
}

#[test]
fn test_start_sharing_is_allowed_without_active_remote_server() {
    let settings = RemoteSettings::default();
    assert!(ensure_sharing_can_start(&settings).is_ok());
}

#[test]
fn test_start_sharing_rejects_soniox() {
    let result = ensure_sharing_engine_supported("soniox");

    assert_eq!(
        result,
        Err(
            "Network sharing is not available for Soniox yet. Please select a Whisper or Parakeet model to share."
                .to_string()
        )
    );
}

#[test]
fn test_start_sharing_allows_whisper_and_parakeet() {
    assert!(ensure_sharing_engine_supported("whisper").is_ok());
    assert!(ensure_sharing_engine_supported("parakeet").is_ok());
}

#[test]
fn test_remote_selection_rejects_self_connection() {
    let mut settings = RemoteSettings::default();
    let conn = settings.add_connection(
        "192.168.1.30".to_string(),
        47842,
        None,
        Some("Self".to_string()),
        None,
    );
    settings.update_connection_status(&conn.id, ConnectionStatus::SelfConnection, None);

    let result = ensure_remote_selection_is_allowed(&settings, &conn.id);

    assert_eq!(
        result,
        Err("Cannot use this VoiceTypr instance as its own remote server".to_string())
    );
}

#[test]
fn test_remote_selection_allows_normal_remote_server() {
    let mut settings = RemoteSettings::default();
    let conn = settings.add_connection(
        "192.168.1.31".to_string(),
        47842,
        None,
        Some("Remote".to_string()),
        None,
    );
    settings.update_connection_status(&conn.id, ConnectionStatus::Online, None);

    assert!(ensure_remote_selection_is_allowed(&settings, &conn.id).is_ok());
}

#[test]
fn test_is_self_connection_matches_machine_ids() {
    assert!(is_self_connection(Some("machine-a"), "machine-a"));
    assert!(!is_self_connection(Some("machine-a"), "machine-b"));
    assert!(!is_self_connection(None, "machine-a"));
}

#[test]
fn added_connection_is_found_under_a_fresh_id() {
    let mut settings = RemoteSettings::default();
    let a = settings.add_connection("h".to_string(), 1, None, None, None);
    let b = settings.add_connection("h".to_string(), 1, None, None, None);
    assert_ne!(a.id, b.id);
    assert_eq!(settings.get_connection(&a.id).unwrap().id, a.id);
    assert_eq!(settings.get_connection(&b.id).unwrap().id, b.id);
    assert_eq!(settings.list_connections().len(), 2);
    assert_eq!(a.status, ConnectionStatus::Unknown);
    assert_eq!(a.display_name(), "h:1");
}

#[test]
fn fresh_ids_skip_ids_in_use() {
    let mut settings = RemoteSettings::default();
    let a = settings.add_connection("a".to_string(), 1, None, None, None);
    let b = settings.add_connection("b".to_string(), 2, None, None, None);
    settings.remove_connection(&a.id).unwrap();
    let c = settings.add_connection("c".to_string(), 3, None, None, None);
    assert_ne!(c.id, b.id);
    assert_eq!(settings.list_connections().len(), 2);
}

#[test]
fn removing_a_server_clears_it_and_its_selection() {
    let mut settings = RemoteSettings::default();
    let a = settings.add_connection("a".to_string(), 1, None, Some("A".to_string()), None);
    settings.set_active_connection(Some(a.id.clone())).unwrap();
    assert_eq!(settings.get_active_connection().unwrap().id, a.id);
    settings.remove_connection(&a.id).unwrap();
    assert!(settings.get_connection(&a.id).is_none());
    assert_eq!(settings.active_connection_id, None);
    assert_eq!(
        settings.remove_connection(&a.id),
        Err(format!("Server '{}' not found", a.id))
    );
    assert_eq!(
        settings.set_active_connection(Some("nope".to_string())),
        Err("Server 'nope' not found".to_string())
    );
}

#[test]
fn updating_an_unknown_server_fails() {
    let mut settings = RemoteSettings::default();
    let r = apply_server_update(&mut settings, "x", "h".to_string(), 1, None, None, None);
    assert_eq!(r.unwrap_err(), "Server 'x' not found");
    let mut settings = RemoteSettings::default();
    let a = settings.add_connection("a".to_string(), 1, None, None, Some("m1".to_string()));
    let c = update_saved_server(&mut settings, &a.id, "b".to_string(), 2, None, None, None).unwrap();
    assert_eq!(c.model, Some("m1".to_string()));
    assert_eq!(c.name, Some("b:2".to_string()));
    assert_eq!(c.id, a.id);
}

#[test]
fn status_checks_are_classified() {
    let ok = classify_status_check(Ok(("m1".to_string(), "base".to_string())), Some("m2"));
    assert_eq!(ok, (ConnectionStatus::Online, Some("base".to_string())));
    let me = classify_status_check(Ok(("m1".to_string(), "base".to_string())), Some("m1"));
    assert_eq!(me, (ConnectionStatus::SelfConnection, Some("base".to_string())));
    let auth = classify_status_check(Err("Authentication failed".to_string()), None);
    assert_eq!(auth, (ConnectionStatus::AuthFailed, None));
    let off = classify_status_check(Err("Failed to connect: refused".to_string()), None);
    assert_eq!(off, (ConnectionStatus::Offline, None));

    let mut settings = RemoteSettings::default();
    let a = settings.add_connection("a".to_string(), 1, None, None, Some("old".to_string()));
    let c = record_status_check(&mut settings, &a.id, ConnectionStatus::Offline, None).unwrap();
    assert_eq!(c.status, ConnectionStatus::Offline);
    assert_eq!(c.model, Some("old".to_string()));
    assert!(record_status_check(&mut settings, "zz", ConnectionStatus::Online, None).is_err());
    assert!(record_reported_model(&mut settings, &a.id, "new".to_string()));
    assert!(!record_reported_model(&mut settings, &a.id, "new".to_string()));
    assert_eq!(settings.get_connection(&a.id).unwrap().model, Some("new".to_string()));
}

#[test]
fn new_server_details_follow_the_probe() {
    assert_eq!(
        new_server_details("h", 5, None, None, None),
        Ok(("h:5".to_string(), None))
    );
    assert_eq!(
        new_server_details(
            "h",
            5,
            None,
            Some(("m".to_string(), "Desk".to_string(), "base".to_string())),
            Some("other")
        ),
        Ok(("Desk".to_string(), Some("base".to_string())))
    );
    assert_eq!(
        new_server_details(
            "h",
            5,
            Some("Mine".to_string()),
            Some(("m".to_string(), "Desk".to_string(), "base".to_string())),
            Some("m")
        ),
        Err("Cannot add your own machine as a remote server".to_string())
    );
}

#[test]
fn selecting_a_server_stops_and_clearing_restores_sharing() {
    let mut settings = RemoteSettings::default();
    let a = settings.add_connection("a".to_string(), 1, None, None, None);
    let plan = begin_active_server_change(&mut settings, Some(&a.id), true).unwrap();
    assert_eq!(plan, ActiveServerChange { stop_sharing: true, restore_sharing: false });
    assert!(settings.sharing_was_active);
    assert_eq!(settings.active_connection_id, Some(a.id.clone()));
    let plan = begin_active_server_change(&mut settings, None, false).unwrap();
    assert_eq!(plan, ActiveServerChange { stop_sharing: false, restore_sharing: true });
    assert_eq!(settings.active_connection_id, None);
    assert!(begin_active_server_change(&mut settings, Some("nope"), false).is_err());
}

#[test]
fn sharing_model_and_name_defaults() {
    assert_eq!(choose_sharing_model("".to_string(), Some("base".to_string())), Some("base".to_string()));
    assert_eq!(choose_sharing_model("tiny".to_string(), Some("base".to_string())), Some("tiny".to_string()));
    assert_eq!(choose_sharing_model("".to_string(), None), None);
    assert_eq!(server_name_or_default(None, None), "VoiceTypr Server");
    assert_eq!(server_name_or_default(None, Some("box".to_string())), "box");
    assert_eq!(server_name_or_default(Some("n".to_string()), Some("box".to_string())), "n");
}

#[test]
fn shareable_model_config_by_engine() {
    assert_eq!(
        resolve_shareable_model_config("base", "whisper", Some("/m/base.bin".to_string()), false),
        Ok(("/m/base.bin".to_string(), "whisper".to_string()))
    );
    assert_eq!(
        resolve_shareable_model_config("base", "whisper", None, false),
        Err("Model 'base' not found or not downloaded".to_string())
    );
    assert_eq!(
        resolve_shareable_model_config("p", "parakeet", None, true),
        Ok(("".to_string(), "parakeet".to_string()))
    );
    assert_eq!(
        resolve_shareable_model_config("p", "parakeet", None, false),
        Err("Parakeet model 'p' not found or not downloaded".to_string())
    );
    assert_eq!(
        resolve_shareable_model_config("p", "other", None, false),
        Err("Unsupported sharing engine 'other'".to_string())
    );
}

#[test]
fn local_ips_skip_loopback_link_local_and_ipv6() {
    let ifs = vec![
        ("lo".to_string(), "127.0.0.1".to_string(), true),
        ("en0".to_string(), "192.168.1.5".to_string(), true),
        ("en1".to_string(), "169.254.3.4".to_string(), true),
        ("en0".to_string(), "fe80::1".to_string(), false),
    ];
    assert_eq!(format_local_ips(&ifs), vec!["192.168.1.5 (en0)".to_string()]);
    assert_eq!(format_local_ips(&vec![]), vec!["No network connection".to_string()]);
}

#[test]
fn firewall_listing_is_read() {
    let listing = "ALF: total number of apps = 2\n\n60 : /Applications/Voicetypr.app\n \t (Allow incoming connections)\n";
    assert!(app_allowed_in_listing(listing));
    assert!(!app_allowed_in_listing("60 : /Applications/Voicetypr.app\n (Block incoming connections)\n"));
    assert_eq!(
        macos_firewall_status(Some("Firewall is enabled. (State = 1)"), Some(listing)),
        FirewallStatus { firewall_enabled: true, app_allowed: true, may_be_blocked: false }
    );
    assert_eq!(
        macos_firewall_status(Some("Firewall is enabled. (State = 1)"), None),
        FirewallStatus { firewall_enabled: true, app_allowed: false, may_be_blocked: true }
    );
    assert_eq!(
        macos_firewall_status(Some("Firewall is disabled. (State = 0)"), None),
        FirewallStatus { firewall_enabled: false, app_allowed: true, may_be_blocked: false }
    );
}

#[test]
fn remote_replies_are_checked() {
    assert_eq!(remote_reply_check(200, "200 OK"), Ok(()));
    assert_eq!(remote_reply_check(401, "401 Unauthorized"), Err("Authentication failed".to_string()));
    assert_eq!(
        remote_reply_check(500, "500 Internal Server Error"),
        Err("Server error: 500 Internal Server Error".to_string())
    );
    assert_eq!(remote_transcript(Some("hi".to_string())), Ok("hi".to_string()));
    assert_eq!(
        remote_transcript(None),
        Err("Invalid response: missing 'text' field".to_string())
    );
}
