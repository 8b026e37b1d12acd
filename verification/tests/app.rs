use rawg::app::{App, Key, Request};
use rawg::file_explorer::{FileExplorer, ListedEntry};
use rawg::header::{ConnectionStatus, ServerConfig};
use rawg::layout::Area;
use rawg::vpn_manager::{PrivilegeManager, TunnelAction};

const GOOD: &str = "[Interface]\nPrivateKey = a\nAddress = b\n[Peer]\nPublicKey = c\nEndpoint = d\n";

fn server(name: &str, status: ConnectionStatus) -> ServerConfig {
    ServerConfig::new(name.to_string(), format!("/c/{}.conf", name), status)
}

fn app_with(servers: Vec<ServerConfig>) -> App {
    App::new(servers, FileExplorer::new(Some("/home/u".to_string())), PrivilegeManager::Sudo)
}

fn doas_app() -> App {
    App::new(
        vec![server("office", ConnectionStatus::Disconnected), server("home", ConnectionStatus::Connected)],
        FileExplorer::new(Some("/home/u".to_string())),
        PrivilegeManager::Doas,
    )
}

const DOAS_ADVICE: &str = "doas failed. Add to /etc/doas.conf: permit nopass <user> as root cmd awg-quick";

#[test]
fn doas_toggles_without_password() {
    let mut app = doas_app();
    let o = app.handle_key_event(Key::Enter);
    assert!(!app.show_auth_popup);
    assert!(o.password.is_none());
    match o.request {
        Request::Tunnel { index, path, action } => {
            assert_eq!((index, path.as_str(), action), (0, "/c/office.conf", TunnelAction::Up));
        }
        _ => panic!("expected a tunnel request"),
    }
}

#[test]
fn doas_failure_shows_advice() {
    let mut app = doas_app();
    app.tunnel_finished(0, TunnelAction::Up, false);
    assert_eq!(app.servers[0].status, ConnectionStatus::Disconnected);
    assert_eq!(app.status_message.as_deref(), Some(DOAS_ADVICE));
    let mut app = doas_app();
    app.tunnel_finished(1, TunnelAction::Down, true);
    assert_eq!(app.servers[1].status, ConnectionStatus::Disconnected);
    assert!(app.status_message.is_none());
}

#[test]
fn sudo_failure_shows_no_advice() {
    let mut app = two_servers();
    app.tunnel_finished(0, TunnelAction::Up, false);
    assert!(app.status_message.is_none());
}

fn two_servers() -> App {
    app_with(vec![
        server("office", ConnectionStatus::Disconnected),
        server("home", ConnectionStatus::Connected),
    ])
}

#[test]
fn new_app_state() {
    let app = two_servers();
    assert_eq!(app.selected, Some(0));
    assert!(!app.has_password && !app.show_auth_popup && !app.show_explorer && !app.exit);
    assert!(app.status_message.is_none());
    assert!(app.input_buffer.is_empty());
}

#[test]
fn quit_key_sets_exit() {
    let mut app = two_servers();
    let o = app.handle_key_event(Key::Char('q'));
    assert!(app.exit);
    assert!(matches!(o.request, Request::Nothing));
    app.handle_key_event(Key::Char('j'));
    assert!(app.exit);
}

#[test]
fn navigation_uses_list_state_rules() {
    let mut app = two_servers();
    app.status_message = Some("old".to_string());
    app.handle_key_event(Key::Char('j'));
    assert_eq!(app.selected, Some(1));
    assert!(app.status_message.is_none());
    app.handle_key_event(Key::Char('k'));
    app.handle_key_event(Key::Char('k'));
    assert_eq!(app.selected, Some(0));
    app.selected = None;
    app.handle_key_event(Key::Char('k'));
    assert_eq!(app.selected, Some(usize::MAX));
    app.handle_key_event(Key::Char('j'));
    assert_eq!(app.selected, Some(usize::MAX));
    app.selected = None;
    app.handle_key_event(Key::Char('j'));
    assert_eq!(app.selected, Some(0));
}

#[test]
fn esc_clears_message() {
    let mut app = two_servers();
    app.status_message = Some("oops".to_string());
    app.handle_key_event(Key::Esc);
    assert!(app.status_message.is_none());
}

#[test]
fn enter_without_password_opens_prompt() {
    let mut app = two_servers();
    let o = app.handle_key_event(Key::Enter);
    assert!(app.show_auth_popup);
    assert!(matches!(o.request, Request::Nothing));
    assert!(o.password.is_none());
}

#[test]
fn password_prompt_typing() {
    let mut app = two_servers();
    app.handle_key_event(Key::Enter);
    for c in "pä$".chars() {
        app.handle_key_event(Key::Char(c));
    }
    assert_eq!(app.input_buffer, "pä$");
    assert_eq!(app.masked_input(), "****");
    app.handle_key_event(Key::Backspace);
    assert_eq!(app.input_buffer, "pä");
    app.handle_key_event(Key::Char('x'));
    app.handle_key_event(Key::Backspace);
    assert_eq!(app.input_buffer, "pä");
    app.handle_key_event(Key::Other);
    assert_eq!(app.input_buffer, "pä");
}

#[test]
fn backspace_on_empty_prompt_does_nothing() {
    let mut app = two_servers();
    app.handle_key_event(Key::Enter);
    app.handle_key_event(Key::Backspace);
    assert!(app.input_buffer.is_empty());
    assert!(app.show_auth_popup);
}

#[test]
fn cancelling_prompt_forgets_input() {
    let mut app = two_servers();
    app.handle_key_event(Key::Enter);
    app.handle_key_event(Key::Char('s'));
    let o = app.handle_key_event(Key::Esc);
    assert!(!app.show_auth_popup);
    assert!(app.input_buffer.is_empty());
    assert!(o.password.is_none());
    assert!(!app.has_password);
}

#[test]
fn confirming_prompt_connects_selected_server() {
    let mut app = two_servers();
    app.handle_key_event(Key::Enter);
    for c in "secret".chars() {
        app.handle_key_event(Key::Char(c));
    }
    let o = app.handle_key_event(Key::Enter);
    assert_eq!(o.password.as_deref(), Some("secret"));
    assert!(app.has_password);
    assert!(!app.show_auth_popup);
    assert!(app.input_buffer.is_empty());
    match o.request {
        Request::Tunnel { index, path, action } => {
            assert_eq!(index, 0);
            assert_eq!(path, "/c/office.conf");
            assert_eq!(action, TunnelAction::Up);
        }
        _ => panic!("expected a tunnel request"),
    }
}

#[test]
fn toggle_with_password_brings_connected_down() {
    let mut app = two_servers();
    app.has_password = true;
    app.handle_key_event(Key::Char('j'));
    let o = app.handle_key_event(Key::Enter);
    assert!(o.password.is_none());
    match o.request {
        Request::Tunnel { index, action, .. } => {
            assert_eq!((index, action), (1, TunnelAction::Down));
        }
        _ => panic!("expected a tunnel request"),
    }
}

#[test]
fn toggle_with_selection_out_of_list_does_nothing() {
    let mut app = two_servers();
    app.has_password = true;
    app.selected = Some(5);
    assert!(matches!(app.handle_key_event(Key::Enter).request, Request::Nothing));
    app.selected = None;
    assert!(matches!(app.handle_key_event(Key::Enter).request, Request::Nothing));
    let mut empty = app_with(vec![]);
    assert!(matches!(empty.handle_key_event(Key::Enter).request, Request::Nothing));
    assert!(!empty.show_auth_popup);
}

#[test]
fn tunnel_outcome_flips_only_on_success() {
    let mut app = two_servers();
    app.tunnel_finished(0, TunnelAction::Up, false);
    assert_eq!(app.servers[0].status, ConnectionStatus::Disconnected);
    app.tunnel_finished(0, TunnelAction::Up, true);
    assert_eq!(app.servers[0].status, ConnectionStatus::Connected);
    app.tunnel_finished(1, TunnelAction::Down, false);
    assert_eq!(app.servers[1].status, ConnectionStatus::Connected);
    app.tunnel_finished(1, TunnelAction::Down, true);
    assert_eq!(app.servers[1].status, ConnectionStatus::Disconnected);
    app.tunnel_finished(7, TunnelAction::Up, true);
    assert_eq!(app.servers.len(), 2);
    assert_eq!(app.servers[0].name, "office");
}

#[test]
fn delete_asks_to_remove_selected() {
    let mut app = two_servers();
    app.handle_key_event(Key::Char('j'));
    match app.handle_key_event(Key::Char('d')).request {
        Request::RemoveConfig { index, name } => assert_eq!((index, name.as_str()), (1, "home")),
        _ => panic!("expected a removal"),
    }
    app.selected = None;
    assert!(matches!(app.handle_key_event(Key::Char('d')).request, Request::Nothing));
}

#[test]
fn removal_moves_selection_into_new_list() {
    let mut app = two_servers();
    app.selected = Some(1);
    app.config_removed(1, Ok(vec![server("office", ConnectionStatus::Disconnected)]));
    assert_eq!(app.selected, Some(0));
    assert_eq!(app.servers.len(), 1);
    app.config_removed(0, Ok(vec![]));
    assert_eq!(app.selected, None);
    let mut app = app_with(vec![
        server("a", ConnectionStatus::Disconnected),
        server("b", ConnectionStatus::Disconnected),
        server("c", ConnectionStatus::Disconnected),
    ]);
    app.config_removed(0, Ok(vec![server("b", ConnectionStatus::Disconnected), server("c", ConnectionStatus::Disconnected)]));
    assert_eq!(app.selected, Some(0));
}

#[test]
fn removal_error_is_reported() {
    let mut app = two_servers();
    app.config_removed(0, Err("No such file or directory (os error 2)".to_string()));
    assert_eq!(app.status_message.as_deref(), Some("Error: No such file or directory (os error 2)"));
    assert_eq!(app.servers.len(), 2);
}

#[test]
fn explorer_mode_keys() {
    let mut app = two_servers();
    app.handle_key_event(Key::Char('a'));
    assert!(app.show_explorer);
    app.explorer.reload(vec![
        ListedEntry::new("docs".to_string(), "/home/u/docs".to_string(), true),
        ListedEntry::new("wg.conf".to_string(), "/home/u/wg.conf".to_string(), false),
    ]);
    app.handle_key_event(Key::Char('j'));
    assert_eq!(app.explorer.selected, 1);
    let o = app.handle_key_event(Key::Enter);
    assert!(matches!(o.request, Request::ListDirectory));
    assert_eq!(app.explorer.current_dir, "/home/u/docs");
    app.explorer.reload(vec![]);
    app.handle_key_event(Key::Char('k'));
    assert_eq!(app.explorer.selected, 0);
    app.handle_key_event(Key::Esc);
    assert!(!app.show_explorer);
}

#[test]
fn choosing_a_config_validates_then_saves() {
    let mut app = two_servers();
    app.handle_key_event(Key::Char('a'));
    app.explorer.reload(vec![ListedEntry::new(
        "wg.conf".to_string(),
        "/home/u/wg.conf".to_string(),
        false,
    )]);
    app.handle_key_event(Key::Char('j'));
    let o = app.handle_key_event(Key::Enter);
    let path = match o.request {
        Request::ValidateConfig { path } => path,
        _ => panic!("expected validation"),
    };
    assert_eq!(path, "/home/u/wg.conf");
    match app.config_checked(path, Some(GOOD.to_string())) {
        Request::SaveConfig { path, name } => {
            assert_eq!(path, "/home/u/wg.conf");
            assert_eq!(name, "wg");
        }
        _ => panic!("expected a save"),
    }
    assert!(app.show_explorer);
    app.config_saved(Ok(vec![server("wg", ConnectionStatus::Disconnected)]));
    assert!(!app.show_explorer);
    assert!(app.status_message.is_none());
    assert_eq!(app.servers[0].name, "wg");
}

#[test]
fn invalid_config_closes_browser_with_message() {
    let mut app = two_servers();
    app.show_explorer = true;
    let r = app.config_checked("/x/bad.conf".to_string(), Some("[Interface]".to_string()));
    assert!(matches!(r, Request::Nothing));
    assert!(!app.show_explorer);
    assert_eq!(app.status_message.as_deref(), Some("Invalid WireGuard config!"));
    app.show_explorer = true;
    app.config_checked("/x/gone.conf".to_string(), None);
    assert!(!app.show_explorer);
}

#[test]
fn save_error_keeps_browser_open() {
    let mut app = two_servers();
    app.show_explorer = true;
    app.config_saved(Err("permission denied".to_string()));
    assert!(app.show_explorer);
    assert_eq!(app.status_message.as_deref(), Some("Error: permission denied"));
    assert_eq!(app.servers.len(), 2);
}

#[test]
fn refresh_statuses_in_order() {
    let mut app = two_servers();
    app.refresh_statuses(vec![ConnectionStatus::Connected, ConnectionStatus::Disconnected]);
    assert_eq!(app.servers[0].status, ConnectionStatus::Connected);
    assert_eq!(app.servers[1].status, ConnectionStatus::Disconnected);
    app.refresh_statuses(vec![ConnectionStatus::Disconnected]);
    assert_eq!(app.servers[0].status, ConnectionStatus::Disconnected);
    assert_eq!(app.servers[1].status, ConnectionStatus::Disconnected);
    assert_eq!(app.servers[1].name, "home");
}

#[test]
fn help_line_shows_message_or_keys() {
    let mut app = two_servers();
    assert_eq!(
        app.help_line(),
        "<J>/<K>: Navigate  <Enter>: (Dis)Connect  <A>: Add  <D>: Delete  <Q>: Quit"
    );
    app.status_message = Some("boom".to_string());
    assert_eq!(app.help_line(), " \u{26a0}  boom  <Esc>: Dismiss");
}

#[test]
fn popup_is_centred() {
    let r = App::popup_rect(Area { x: 0, y: 0, width: 100, height: 30 });
    assert_eq!(r, Area { x: 30, y: 14, width: 40, height: 3 });
}

#[test]
fn popup_lies_within_area() {
    let r = App::popup_rect(Area { x: 0, y: 0, width: 100, height: 33 });
    assert_eq!(r, Area { x: 30, y: 15, width: 40, height: 3 });
    for (x, y, w, h) in [(5, 7, 80, 24), (0, 0, 1, 1), (0, 0, 0, 0), (65000, 65000, 1000, 1000), (3, 2, 200, 60)] {
        let area = Area { x, y, width: w, height: h };
        let r = App::popup_rect(area);
        assert!(area.x <= r.x && area.y <= r.y);
        assert!((r.x as u32 + r.width as u32) <= (area.x as u32 + area.width as u32).min(u16::MAX as u32));
        assert!((r.y as u32 + r.height as u32) <= (area.y as u32 + area.height as u32).min(u16::MAX as u32));
    }
}

fn far_end(start: u16, size: u16) -> i64 {
    (start as i64 + size as i64).min(u16::MAX as i64)
}

#[test]
fn popup_is_three_rows_forty_percent_and_centred() {
    let mut areas = Vec::new();
    for w in 0..=130u16 {
        for h in 0..=45u16 {
            areas.push(Area { x: (w * 7) % 13, y: (h * 5) % 11, width: w, height: h });
        }
    }
    for (x, y, w, h) in [(65500, 65500, 200, 200), (65530, 0, 100, 40), (0, 65534, 50, 9), (100, 200, 1000, 300)] {
        areas.push(Area { x, y, width: w, height: h });
    }
    for area in areas {
        let r = App::popup_rect(area);
        let (ex, ey) = (far_end(area.x, area.width), far_end(area.y, area.height));
        assert!(area.x <= r.x && r.x as i64 + r.width as i64 <= ex, "{:?} {:?}", area, r);
        assert!(area.y <= r.y && r.y as i64 + r.height as i64 <= ey, "{:?} {:?}", area, r);
        let len_x = ex - area.x as i64;
        let len_y = ey - area.y as i64;
        assert!((100 * r.width as i64 - 40 * len_x).abs() <= 100, "{:?} {:?}", area, r);
        let left = r.x as i64 - area.x as i64;
        let right = ex - (r.x as i64 + r.width as i64);
        assert!((left - right).abs() <= 1, "{:?} {:?}", area, r);
        if len_y >= 3 {
            assert_eq!(r.height, 3, "{:?}", area);
            let top = r.y as i64 - area.y as i64;
            let bottom = ey - (r.y as i64 + r.height as i64);
            assert!((top - bottom).abs() <= 1, "{:?} {:?}", area, r);
        }
    }
}

#[test]
fn middle_part_picks_second_of_three() {
    let parts = vec![
        Area { x: 0, y: 0, width: 1, height: 1 },
        Area { x: 5, y: 6, width: 7, height: 8 },
        Area { x: 9, y: 9, width: 9, height: 9 },
    ];
    assert_eq!(rawg::layout::middle_part(&parts), Area { x: 5, y: 6, width: 7, height: 8 });
}
