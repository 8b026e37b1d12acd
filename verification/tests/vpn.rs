use rawg::header::{ConnectionStatus, ServerConfig};
use rawg::vpn_manager::{PrivilegeManager, TunnelAction, VpnManager};

const GOOD: &str = "[Interface]\nPrivateKey = abc\nAddress = 10.0.0.2/32\n\n[Peer]\nPublicKey = def\nEndpoint = 1.2.3.4:51820\n";

#[test]
fn status_text() {
    assert_eq!(ConnectionStatus::Connected.to_string(), "Connected");
    assert_eq!(ConnectionStatus::Disconnected.to_string(), "Disconnected");
}

#[test]
fn server_config_new_keeps_fields() {
    let s = ServerConfig::new("wg0".to_string(), "/c/wg0.conf".to_string(), ConnectionStatus::Connected);
    assert_eq!(s.name, "wg0");
    assert_eq!(s.path, "/c/wg0.conf");
    assert_eq!(s.status, ConnectionStatus::Connected);
}

#[test]
fn validate_accepts_complete_config() {
    assert!(VpnManager::validate_config(Some(GOOD.to_string())));
}

#[test]
fn validate_rejects_each_missing_marker() {
    for marker in ["[Interface]", "[Peer]", "PrivateKey", "Address", "PublicKey", "Endpoint"] {
        let text = GOOD.replace(marker, "X");
        assert!(!VpnManager::validate_config(Some(text)), "missing {}", marker);
    }
}

#[test]
fn validate_rejects_unreadable_and_empty() {
    assert!(!VpnManager::validate_config(None));
    assert!(!VpnManager::validate_config(Some(String::new())));
}

#[test]
fn validate_is_case_sensitive() {
    let text = GOOD.replace("Endpoint", "endpoint");
    assert!(!VpnManager::validate_config(Some(text)));
}

#[test]
fn status_after_commands() {
    assert_eq!(VpnManager::status_after(TunnelAction::Up, true), ConnectionStatus::Connected);
    assert_eq!(VpnManager::status_after(TunnelAction::Up, false), ConnectionStatus::Disconnected);
    assert_eq!(VpnManager::status_after(TunnelAction::Down, true), ConnectionStatus::Disconnected);
    assert_eq!(VpnManager::status_after(TunnelAction::Down, false), ConnectionStatus::Connected);
}

#[test]
fn status_from_probe() {
    assert_eq!(VpnManager::status_from_probe(Some(true)), ConnectionStatus::Connected);
    assert_eq!(VpnManager::status_from_probe(Some(false)), ConnectionStatus::Disconnected);
    assert_eq!(VpnManager::status_from_probe(None), ConnectionStatus::Disconnected);
}

#[test]
fn awg_quick_command_line() {
    let up = VpnManager::awg_quick_command(PrivilegeManager::Sudo, TunnelAction::Up, "/c/wg0.conf");
    assert_eq!(up, vec!["sudo", "-S", "-p", "", "awg-quick", "up", "/c/wg0.conf"]);
    let down = VpnManager::awg_quick_command(PrivilegeManager::Sudo, TunnelAction::Down, "/c/wg0.conf");
    assert_eq!(down[5], "down");
    let doas = VpnManager::awg_quick_command(PrivilegeManager::Doas, TunnelAction::Down, "/c/wg0.conf");
    assert_eq!(doas, vec!["doas", "awg-quick", "down", "/c/wg0.conf"]);
}

#[test]
fn sudo_preferred_over_doas() {
    assert_eq!(PrivilegeManager::pick(true, true), PrivilegeManager::Sudo);
    assert_eq!(PrivilegeManager::pick(true, false), PrivilegeManager::Sudo);
    assert_eq!(PrivilegeManager::pick(false, true), PrivilegeManager::Doas);
    assert_eq!(PrivilegeManager::pick(false, false), PrivilegeManager::Sudo);
}

#[test]
fn password_needed_only_for_sudo() {
    assert!(PrivilegeManager::Sudo.needs_password());
    assert!(!PrivilegeManager::Doas.needs_password());
}

#[test]
fn link_probe_command_line() {
    assert_eq!(VpnManager::link_probe_command("wg0"), vec!["ip", "link", "show", "wg0"]);
}

#[test]
fn config_file_name_appends_extension() {
    assert_eq!(VpnManager::config_file_name("office"), "office.conf");
    assert_eq!(VpnManager::config_file_name(""), ".conf");
}

#[test]
fn config_files_picks_conf_and_names_by_stem() {
    let paths = vec![
        "/c/office.conf".to_string(),
        "/c/readme.txt".to_string(),
        "/c/home.vpn.conf".to_string(),
        "/c/.conf".to_string(),
        "/c/sub".to_string(),
    ];
    let files = VpnManager::config_files(&paths);
    let got: Vec<(String, String)> = files.into_iter().map(|f| (f.name, f.path)).collect();
    assert_eq!(
        got,
        vec![
            ("office".to_string(), "/c/office.conf".to_string()),
            ("home.vpn".to_string(), "/c/home.vpn.conf".to_string()),
        ]
    );
}
