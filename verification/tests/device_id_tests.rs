use voicetypr::device_id::{
    device_hash_of, linux_machine_id, mac_from_ip_link, normalize_uuid, uuid_from_ioreg, windows_uuid_from,
    words_of,
};

#[test]
fn device_hash_is_lower_hex_sha256() {
    let h = device_hash_of("abc");
    assert_eq!(h, "ba7816bf8f01cfea414140de5dae2223b00361a396177a9cb410ff61f20015ad");
    assert_eq!(h.len(), 64);
    assert!(h.chars().all(|c| c.is_ascii_hexdigit()));
    assert_eq!(device_hash_of("abc"), device_hash_of("abc"));
    assert_ne!(device_hash_of("abc"), device_hash_of("abd"));
}

#[test]
fn ioreg_uuid_is_read() {
    let out = "+-o Root\n    \"IOPlatformUUID\" = \"ABCD-1234\"\n";
    assert_eq!(uuid_from_ioreg(out), Ok("ABCD-1234".to_string()));
    assert_eq!(uuid_from_ioreg("nothing"), Err("Could not find hardware UUID".to_string()));
}

#[test]
fn windows_uuid_falls_back_when_wmic_unavailable() {
    let uuid = windows_uuid_from(None, Some("{550E8400-E29B-41D4-A716-446655440000}\r\n"), None)
        .expect("should fall back to PowerShell");
    assert_eq!(uuid, "550E8400-E29B-41D4-A716-446655440000");
}

#[test]
fn windows_uuid_falls_back_to_registry_when_powershell_fails() {
    let uuid = windows_uuid_from(
        None,
        None,
        Some("HKEY_LOCAL_MACHINE\\SOFTWARE\\Microsoft\\Cryptography\r\n    MachineGuid    REG_SZ    123e4567-e89b-12d3-a456-426614174000\r\n"),
    )
    .expect("should fall back to registry");
    assert_eq!(uuid, "123E4567-E89B-12D3-A456-426614174000");
}

#[test]
fn windows_uuid_sources_in_order() {
    assert_eq!(
        windows_uuid_from(Some("UUID\r\n4C4C4544-0042\r\n"), Some("{AAA}"), None),
        Ok("4C4C4544-0042".to_string())
    );
    assert_eq!(
        windows_uuid_from(Some("UUID\r\nTo be filled by O.E.M.\r\n"), None, None),
        Err("Could not determine machine UUID".to_string())
    );
    assert_eq!(normalize_uuid("  {'abc'} "), Some("ABC".to_string()));
    assert_eq!(normalize_uuid("UUID"), None);
    assert_eq!(normalize_uuid(" {} "), None);
}

#[test]
fn linux_mac_is_read() {
    let out = "1: lo: <LOOPBACK>\n    link/loopback 00:00:00:00:00:00 brd 00:00:00:00:00:00\n2: eth0: <UP>\n    link/ether 52:54:00:12:34:56 brd ff:ff:ff:ff:ff:ff\n";
    assert_eq!(mac_from_ip_link(out), Ok("52:54:00:12:34:56".to_string()));
    assert_eq!(
        mac_from_ip_link("    link/ether 00:00:00:00:00:00 brd x\n"),
        Err("Could not find a valid MAC address".to_string())
    );
    assert_eq!(words_of("  a  bc\td "), vec!["a".to_string(), "bc".to_string(), "d".to_string()]);
}

#[test]
fn linux_machine_id_prefers_systemd_file() {
    assert_eq!(linux_machine_id(Some(" abc\n"), Some("def")), Some("abc".to_string()));
    assert_eq!(linux_machine_id(None, Some("def\n")), Some("def".to_string()));
    assert_eq!(linux_machine_id(Some(""), Some("def")), Some(String::new()));
    assert_eq!(linux_machine_id(None, None), None);
}
