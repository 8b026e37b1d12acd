use vstd::prelude::*;
use crate::file_explorer::{
    explorer_down, explorer_enter, explorer_up, EnterResult, EnterView, ExplorerView, FileExplorer,
};
use crate::layout::{balanced, far_end, middle_part, split, within, Area, Axis, Span};
use crate::header::{ConnectionStatus, ServerConfig, ServerView};
use crate::list_state::{next_selection, previous_selection, select_next, select_previous};
use crate::paths::{opt_text, stem_of, stem_or_empty};
use crate::text::{string_pop, string_push};
use crate::vpn_manager::{is_valid_config, status_after_action, PrivilegeManager, TunnelAction, VpnManager};

verus! {

/// A key press, as far as the application tells keys apart.
#[derive(Debug, Clone, Copy, PartialEq, Eq, Structural)]
pub enum Key {
    Esc,
    Enter,
    Backspace,
    Char(char),
    Other,
}

/// Work that the application asks of its surroundings after an event.
pub enum Request {
    Nothing,
    /// Run `awg-quick` for the server at `index`, whose configuration is at
    /// `path`, then report back through `tunnel_finished`.
    Tunnel { index: usize, path: String, action: TunnelAction },
    /// List the browser's `current_dir` and hand the listing to
    /// `explorer.reload`.
    ListDirectory,
    /// Read the file at `path` and report back through `config_checked`.
    ValidateConfig { path: String },
    /// Store the configuration at `path` under `name`, reload the servers and
    /// report back through `config_saved`.
    SaveConfig { path: String, name: String },
    /// Delete the stored configuration `name`, reload the servers and report
    /// back through `config_removed`.
    RemoveConfig { index: usize, name: String },
}

/// The value of a [`Request`].
pub enum RequestView {
    Nothing,
    Tunnel { index: usize, path: Seq<char>, action: TunnelAction },
    ListDirectory,
    ValidateConfig { path: Seq<char> },
    SaveConfig { path: Seq<char>, name: Seq<char> },
    RemoveConfig { index: usize, name: Seq<char> },
}

impl View for Request {
    type V = RequestView;

    open spec fn view(&self) -> RequestView {
        match self {
            Request::Nothing => RequestView::Nothing,
            Request::Tunnel { index, path, action } => RequestView::Tunnel {
                index: *index,
                path: path@,
                action: *action,
            },
            Request::ListDirectory => RequestView::ListDirectory,
            Request::ValidateConfig { path } => RequestView::ValidateConfig { path: path@ },
            Request::SaveConfig { path, name } => RequestView::SaveConfig { path: path@, name: name@ },
            Request::RemoveConfig { index, name } => RequestView::RemoveConfig {
                index: *index,
                name: name@,
            },
        }
    }
}

/// What a key press yields: the password just entered, if any, and the
/// work asked for.
pub struct Outcome {
    pub password: Option<String>,
    pub request: Request,
}

/// The value of an [`Outcome`].
pub struct OutcomeView {
    pub password: Option<Seq<char>>,
    pub request: RequestView,
}

impl View for Outcome {
    type V = OutcomeView;

    open spec fn view(&self) -> OutcomeView {
        OutcomeView { password: opt_text(self.password), request: self.request@ }
    }
}

/// The state of the application.
pub struct App {
    pub servers: Vec<ServerConfig>,
    pub explorer: FileExplorer,
    /// The selected row of the server list.
    pub selected: Option<usize>,
    /// How `awg-quick` gets root rights.
    pub privilege_manager: PrivilegeManager,
    /// Whether the sudo password has been entered.
    pub has_password: bool,
    pub input_buffer: String,
    pub show_auth_popup: bool,
    pub show_explorer: bool,
    pub status_message: Option<String>,
    pub exit: bool,
}

/// The value of an [`App`].
pub struct AppView {
    pub servers: Seq<ServerView>,
    pub explorer: ExplorerView,
    pub selected: Option<usize>,
    pub privilege_manager: PrivilegeManager,
    pub has_password: bool,
    pub input: Seq<char>,
    pub show_auth_popup: bool,
    pub show_explorer: bool,
    pub status_message: Option<Seq<char>>,
    pub exit: bool,
}

pub open spec fn servers_view(v: Seq<ServerConfig>) -> Seq<ServerView> {
    v.map_values(|s: ServerConfig| s@)
}

impl View for App {
    type V = AppView;

    open spec fn view(&self) -> AppView {
        AppView {
            servers: servers_view(self.servers@),
            explorer: self.explorer@,
            selected: self.selected,
            privilege_manager: self.privilege_manager,
            has_password: self.has_password,
            input: self.input_buffer@,
            show_auth_popup: self.show_auth_popup,
            show_explorer: self.show_explorer,
            status_message: opt_text(self.status_message),
            exit: self.exit,
        }
    }
}

/// The index of the selected server, when the selection is on one.
pub open spec fn target(a: AppView) -> Option<int> {
    match a.selected {
        Some(i) => if i < a.servers.len() {
            Some(i as int)
        } else {
            None
        },
        None => None,
    }
}

/// A disconnected tunnel is brought up, a connected one down.
pub open spec fn action_for(status: ConnectionStatus) -> TunnelAction {
    match status {
        ConnectionStatus::Disconnected => TunnelAction::Up,
        ConnectionStatus::Connected => TunnelAction::Down,
    }
}

/// Switching the selected tunnel: when a password is needed and none is
/// known yet, the password prompt opens instead.
pub open spec fn toggle(a: AppView) -> (AppView, RequestView) {
    match target(a) {
        None => (a, RequestView::Nothing),
        Some(i) => if a.privilege_manager.spec_needs_password() && !a.has_password {
            (AppView { show_auth_popup: true, ..a }, RequestView::Nothing)
        } else {
            (
                a,
                RequestView::Tunnel {
                    index: i as usize,
                    path: a.servers[i].path,
                    action: action_for(a.servers[i].status),
                },
            )
        },
    }
}

/// Deleting the selected stored configuration.
pub open spec fn remove_request(a: AppView) -> RequestView {
    match target(a) {
        None => RequestView::Nothing,
        Some(i) => RequestView::RemoveConfig { index: i as usize, name: a.servers[i].name },
    }
}

/// A key in the server list.
pub open spec fn main_key(a: AppView, key: Key) -> (AppView, RequestView) {
    match key {
        Key::Esc => (AppView { status_message: None, ..a }, RequestView::Nothing),
        Key::Enter => toggle(a),
        Key::Char(c) => if c == 'q' {
            (AppView { exit: true, ..a }, RequestView::Nothing)
        } else if c == 'j' {
            (
                AppView { status_message: None, selected: next_selection(a.selected), ..a },
                RequestView::Nothing,
            )
        } else if c == 'k' {
            (
                AppView { status_message: None, selected: previous_selection(a.selected), ..a },
                RequestView::Nothing,
            )
        } else if c == 'a' {
            (AppView { show_explorer: true, ..a }, RequestView::Nothing)
        } else if c == 'd' {
            (a, remove_request(a))
        } else {
            (a, RequestView::Nothing)
        },
        _ => (a, RequestView::Nothing),
    }
}

/// A key in the password prompt.
pub open spec fn popup_key(a: AppView, key: Key) -> (AppView, OutcomeView) {
    match key {
        Key::Enter => {
            let b = AppView {
                has_password: true,
                input: Seq::empty(),
                show_auth_popup: false,
                ..a
            };
            let (c, req) = toggle(b);
            (c, OutcomeView { password: Some(a.input), request: req })
        },
        Key::Esc => (
            AppView { show_auth_popup: false, input: Seq::empty(), ..a },
            OutcomeView { password: None, request: RequestView::Nothing },
        ),
        Key::Char(c) => (
            AppView { input: a.input.push(c), ..a },
            OutcomeView { password: None, request: RequestView::Nothing },
        ),
        Key::Backspace => (
            AppView {
                input: if a.input.len() > 0 {
                    a.input.drop_last()
                } else {
                    a.input
                },
                ..a
            },
            OutcomeView { password: None, request: RequestView::Nothing },
        ),
        Key::Other => (a, OutcomeView { password: None, request: RequestView::Nothing }),
    }
}

/// How many rows the browser scrolls by.
pub open spec fn browser_height() -> int {
    20
}

/// A key in the file browser.
pub open spec fn explorer_key(a: AppView, key: Key) -> (AppView, RequestView) {
    match key {
        Key::Esc => (AppView { show_explorer: false, ..a }, RequestView::Nothing),
        Key::Enter => {
            let (e, r) = explorer_enter(a.explorer);
            (
                AppView { explorer: e, ..a },
                match r {
                    EnterView::Directory => RequestView::ListDirectory,
                    EnterView::Config(p) => RequestView::ValidateConfig { path: p },
                    EnterView::Ignored => RequestView::Nothing,
                },
            )
        },
        Key::Char(c) => if c == 'j' {
            (
                AppView { explorer: explorer_down(a.explorer, browser_height()), ..a },
                RequestView::Nothing,
            )
        } else if c == 'k' {
            (AppView { explorer: explorer_up(a.explorer), ..a }, RequestView::Nothing)
        } else {
            (a, RequestView::Nothing)
        },
        _ => (a, RequestView::Nothing),
    }
}

/// A key press: the password prompt takes it when open, else the file
/// browser when open, else the server list.
pub open spec fn key_step(a: AppView, key: Key) -> (AppView, OutcomeView) {
    if a.show_auth_popup {
        popup_key(a, key)
    } else if a.show_explorer {
        let (b, r) = explorer_key(a, key);
        (b, OutcomeView { password: None, request: r })
    } else {
        let (b, r) = main_key(a, key);
        (b, OutcomeView { password: None, request: r })
    }
}

/// The key presses that the application handles without failing: confirming
/// a row of the browser needs a row under the selection, and moving down in
/// it must not overflow.
pub open spec fn key_allowed(a: AppView, key: Key) -> bool {
    !a.show_auth_popup && a.show_explorer ==> {
        &&& key == Key::Enter ==> a.explorer.selected < a.explorer.entries.len()
        &&& key == Key::Char('j') ==> a.explorer.selected < usize::MAX && (a.explorer.selected + 1
            < a.explorer.entries.len() ==> a.explorer.scroll_offset + browser_height()
            <= usize::MAX)
    }
}

/// The message shown when a `doas` command left the status unchanged.
pub open spec fn doas_failure_message() -> Seq<char> {
    "doas failed. Add to /etc/doas.conf: permit nopass <user> as root cmd awg-quick"@
}

/// After `awg-quick` ran for the server at `index`: its status becomes the
/// outcome; under `doas`, an unchanged status also sets the advice on
/// configuring `doas`.
pub open spec fn after_tunnel(a: AppView, index: int, action: TunnelAction, succeeded: bool) -> AppView {
    if 0 <= index < a.servers.len() {
        let status = status_after_action(action, succeeded);
        AppView {
            servers: a.servers.update(index, ServerView { status, ..a.servers[index] }),
            status_message: if status == a.servers[index].status && a.privilege_manager
                == PrivilegeManager::Doas {
                Some(doas_failure_message())
            } else {
                a.status_message
            },
            ..a
        }
    } else {
        a
    }
}

/// After the file chosen in the browser was read (`None` when it could not
/// be): an invalid one closes the browser with a message; a valid one is to
/// be stored under its file stem.
pub open spec fn after_check(a: AppView, path: Seq<char>, content: Option<Seq<char>>) -> (
    AppView,
    RequestView,
) {
    let valid = match content {
        Some(c) => is_valid_config(c),
        None => false,
    };
    if !valid {
        (
            AppView {
                status_message: Some("Invalid WireGuard config!"@),
                show_explorer: false,
                ..a
            },
            RequestView::Nothing,
        )
    } else {
        (a, RequestView::SaveConfig { path, name: stem_or_empty(path) })
    }
}

/// The message shown for a failed file operation.
pub open spec fn error_message(err: Seq<char>) -> Seq<char> {
    "Error: "@ + err
}

/// After a configuration was stored: the new list of servers, or the error.
pub open spec fn after_save(a: AppView, result: Result<Seq<ServerView>, Seq<char>>) -> AppView {
    match result {
        Ok(servers) => AppView { servers, show_explorer: false, status_message: None, ..a },
        Err(e) => AppView { status_message: Some(error_message(e)), ..a },
    }
}

/// After the configuration of the server at `index` was deleted: the new
/// list, with the selection kept on the same row or moved to the last one,
/// or the error.
pub open spec fn after_remove(a: AppView, index: int, result: Result<Seq<ServerView>, Seq<char>>) -> AppView {
    match result {
        Ok(servers) => AppView {
            servers,
            selected: if servers.len() == 0 {
                None
            } else if index < servers.len() - 1 {
                Some(index as usize)
            } else {
                Some((servers.len() - 1) as usize)
            },
            ..a
        },
        Err(e) => AppView { status_message: Some(error_message(e)), ..a },
    }
}

pub open spec fn result_view(r: Result<Vec<ServerConfig>, String>) -> Result<Seq<ServerView>, Seq<char>> {
    match r {
        Ok(v) => Ok(servers_view(v@)),
        Err(e) => Err(e@),
    }
}

/// The line at the bottom of the server list: the status message when
/// there is one, else the key help.
pub open spec fn help_text(a: AppView) -> Seq<char> {
    match a.status_message {
        Some(m) => " \u{26a0}  "@ + m + "  <Esc>: Dismiss"@,
        None => "<J>/<K>: Navigate  <Enter>: (Dis)Connect  <A>: Add  <D>: Delete  <Q>: Quit"@,
    }
}

/// After the status of every server was probed: the i-th status goes to
/// the i-th server.
pub open spec fn after_refresh(a: AppView, statuses: Seq<ConnectionStatus>) -> AppView {
    AppView {
        servers: Seq::new(
            a.servers.len(),
            |i: int|
                if i < statuses.len() {
                    ServerView { status: statuses[i], ..a.servers[i] }
                } else {
                    a.servers[i]
                },
        ),
        ..a
    }
}

impl App {
    /// Centres the password prompt in `area`: the middle band, three rows
    /// high, of a vertical cut into filler, three rows and filler, then the
    /// middle column, 40% wide, of a 30/40/30 horizontal cut of that band.
    /// The box lies within `area`; it is three rows high and centred
    /// vertically to within a row when three rows fit, and it is within one
    /// cell of 40% of the width and centred horizontally to within a cell.
    pub fn popup_rect(area: Area) -> (r: Area)
        ensures
            within(r, area),
            far_end(area.y, area.height) - area.y >= 3 ==> r.height == 3 && balanced(
                r,
                area,
                Axis::Vertical,
            ),
            -100 <= 100 * r.width - 40 * (far_end(area.x, area.width) - area.x) <= 100,
            balanced(r, area, Axis::Horizontal),
    {
        let mut rows: Vec<Span> = Vec::new();
        rows.push(Span::Fill(1));
        rows.push(Span::Length(3));
        rows.push(Span::Fill(1));
        assert(rows@ =~= seq![Span::Fill(1), Span::Length(3), Span::Fill(1)]);
        let bands = split(area, Axis::Vertical, &rows);
        let band = middle_part(&bands);
        let mut columns: Vec<Span> = Vec::new();
        columns.push(Span::Percentage(30));
        columns.push(Span::Percentage(40));
        columns.push(Span::Percentage(30));
        assert(columns@ =~= seq![Span::Percentage(30), Span::Percentage(40), Span::Percentage(30)]);
        let cells = split(band, Axis::Horizontal, &columns);
        middle_part(&cells)
    }

    /// A fresh application over `servers`, with the first row selected, the
    /// server list shown and no password yet.
    pub fn new(
        servers: Vec<ServerConfig>,
        explorer: FileExplorer,
        privilege_manager: PrivilegeManager,
    ) -> (app: Self)
        ensures
            app.servers == servers,
            app.explorer == explorer,
            app.privilege_manager == privilege_manager,
            app.selected == Some(0usize),
            !app.has_password,
            app.input_buffer@.len() == 0,
            !app.show_auth_popup,
            !app.show_explorer,
            app.status_message is None,
            !app.exit,
    {
        App {
            servers,
            explorer,
            selected: Some(0),
            privilege_manager,
            has_password: false,
            input_buffer: String::new(),
            show_auth_popup: false,
            show_explorer: false,
            status_message: None,
            exit: false,
        }
    }

    /// Handles one key press.
    pub fn handle_key_event(&mut self, key: Key) -> (o: Outcome)
        requires
            key_allowed(old(self)@, key),
        ensures
            (final(self)@, o@) == key_step(old(self)@, key),
    {
        if self.show_auth_popup {
            self.handle_popup_key_event(key)
        } else if self.show_explorer {
            let request = self.handle_explorer_key_event(key);
            Outcome { password: None, request }
        } else {
            let request = self.handle_main_key_event(key);
            Outcome { password: None, request }
        }
    }

    fn handle_main_key_event(&mut self, key: Key) -> (r: Request)
        ensures
            (final(self)@, r@) == main_key(old(self)@, key),
    {
        match key {
            Key::Esc => {
                self.status_message = None;
                Request::Nothing
            },
            Key::Enter => self.toggle_connection(),
            Key::Char(c) => {
                if c == 'q' {
                    self.exit = true;
                    Request::Nothing
                } else if c == 'j' {
                    self.nav_down();
                    Request::Nothing
                } else if c == 'k' {
                    self.nav_up();
                    Request::Nothing
                } else if c == 'a' {
                    self.show_explorer = true;
                    Request::Nothing
                } else if c == 'd' {
                    self.remove_selected_config()
                } else {
                    Request::Nothing
                }
            },
            _ => Request::Nothing,
        }
    }

    fn handle_popup_key_event(&mut self, key: Key) -> (o: Outcome)
        ensures
            (final(self)@, o@) == popup_key(old(self)@, key),
    {
        match key {
            Key::Enter => {
                let password = self.input_buffer.clone();
                self.has_password = true;
                self.input_buffer = String::new();
                self.show_auth_popup = false;
                let request = self.toggle_connection();
                Outcome { password: Some(password), request }
            },
            Key::Esc => {
                self.show_auth_popup = false;
                self.input_buffer = String::new();
                Outcome { password: None, request: Request::Nothing }
            },
            Key::Char(c) => {
                string_push(&mut self.input_buffer, c);
                Outcome { password: None, request: Request::Nothing }
            },
            Key::Backspace => {
                let _ = string_pop(&mut self.input_buffer);
                Outcome { password: None, request: Request::Nothing }
            },
            Key::Other => Outcome { password: None, request: Request::Nothing },
        }
    }

    fn handle_explorer_key_event(&mut self, key: Key) -> (r: Request)
        requires
            key_allowed(old(self)@, key),
            old(self).show_explorer,
            !old(self).show_auth_popup,
        ensures
            (final(self)@, r@) == explorer_key(old(self)@, key),
    {
        match key {
            Key::Esc => {
                self.show_explorer = false;
                Request::Nothing
            },
            Key::Enter => self.explorer_select(),
            Key::Char(c) => {
                if c == 'j' {
                    self.explorer.move_down(20);
                } else if c == 'k' {
                    self.explorer.move_up();
                }
                Request::Nothing
            },
            _ => Request::Nothing,
        }
    }

    fn explorer_select(&mut self) -> (r: Request)
        requires
            old(self).explorer.selected < old(self).explorer.entries.len(),
        ensures
            (final(self)@, r@) == explorer_key(old(self)@, Key::Enter),
    {
        match self.explorer.enter() {
            EnterResult::Directory => Request::ListDirectory,
            EnterResult::Config(path) => Request::ValidateConfig { path },
            EnterResult::Ignored => Request::Nothing,
        }
    }

    fn nav_up(&mut self)
        ensures
            final(self)@ == (AppView {
                status_message: None,
                selected: previous_selection(old(self).selected),
                ..old(self)@
            }),
    {
        self.status_message = None;
        self.selected = select_previous(self.selected);
    }

    fn nav_down(&mut self)
        ensures
            final(self)@ == (AppView {
                status_message: None,
                selected: next_selection(old(self).selected),
                ..old(self)@
            }),
    {
        self.status_message = None;
        self.selected = select_next(self.selected);
    }

    fn toggle_connection(&mut self) -> (r: Request)
        ensures
            (final(self)@, r@) == toggle(old(self)@),
    {
        let index = match self.selected {
            Some(i) => i,
            None => {
                return Request::Nothing;
            },
        };
        if index >= self.servers.len() {
            return Request::Nothing;
        }
        if self.privilege_manager.needs_password() && !self.has_password {
            self.show_auth_popup = true;
            return Request::Nothing;
        }
        let server = &self.servers[index];
        let action = match server.status {
            ConnectionStatus::Disconnected => TunnelAction::Up,
            ConnectionStatus::Connected => TunnelAction::Down,
        };
        Request::Tunnel { index, path: server.path.clone(), action }
    }

    fn remove_selected_config(&self) -> (r: Request)
        ensures
            r@ == remove_request(self@),
    {
        match self.selected {
            Some(index) => if index < self.servers.len() {
                Request::RemoveConfig { index, name: self.servers[index].name.clone() }
            } else {
                Request::Nothing
            },
            None => Request::Nothing,
        }
    }

    /// Takes the probed statuses of the servers, in list order.
    pub fn refresh_statuses(&mut self, statuses: Vec<ConnectionStatus>)
        ensures
            final(self)@ == after_refresh(old(self)@, statuses@),
    {
        let ghost a = self@;
        let n = self.servers.len();
        let mut i: usize = 0;
        while i < n && i < statuses.len()
            invariant
                n == self.servers@.len(),
                i <= n,
                a.servers.len() == n,
                self@ == (AppView { servers: self@.servers, ..a }),
                forall|k: int|
                    0 <= k < n ==> #[trigger] servers_view(self.servers@)[k] == (if k < i && k
                        < statuses@.len() {
                        ServerView { status: statuses@[k], ..a.servers[k] }
                    } else {
                        a.servers[k]
                    }),
            decreases n - i,
        {
            assert(servers_view(self.servers@)[i as int] == a.servers[i as int]);
            let updated = ServerConfig::new(
                self.servers[i].name.clone(),
                self.servers[i].path.clone(),
                statuses[i],
            );
            let ghost before = servers_view(self.servers@);
            let ghost row = updated@;
            assert(row == (ServerView { status: statuses@[i as int], ..a.servers[i as int] }));
            self.servers.set(i, updated);
            assert(servers_view(self.servers@) =~= before.update(i as int, row));
            i = i + 1;
        }
        assert(servers_view(self.servers@) =~= after_refresh(a, statuses@).servers);
    }

    /// The line at the bottom of the server list.
    pub fn help_line(&self) -> (s: String)
        ensures
            s@ == help_text(self@),
    {
        match &self.status_message {
            Some(m) => String::from_str(" \u{26a0}  ").concat(m.as_str()).concat("  <Esc>: Dismiss"),
            None => String::from_str(
                "<J>/<K>: Navigate  <Enter>: (Dis)Connect  <A>: Add  <D>: Delete  <Q>: Quit",
            ),
        }
    }

    /// The password prompt's contents: one `*` per byte of the input (the
    /// length that `str::len` reports).
    pub fn masked_input(&self) -> (s: String)
        ensures
            s@ == Seq::new(
                (vstd::utf8::encode_utf8(self.input_buffer@).len() as usize) as nat,
                |i: int| '*',
            ),
    {
        let n = self.input_buffer.as_str().len();
        let mut s = String::new();
        let mut i: usize = 0;
        proof {
            reveal_strlit("*");
            assert("*"@ =~= seq!['*']);
        }
        while i < n
            invariant
                i <= n,
                s@ == Seq::new(i as nat, |k: int| '*'),
                "*"@ == seq!['*'],
            decreases n - i,
        {
            s.append("*");
            i = i + 1;
            assert(s@ =~= Seq::new(i as nat, |k: int| '*'));
        }
        s
    }

    /// Records the result of running `awg-quick` for the server at `index`.
    pub fn tunnel_finished(&mut self, index: usize, action: TunnelAction, succeeded: bool)
        ensures
            final(self)@ == after_tunnel(old(self)@, index as int, action, succeeded),
    {
        if index < self.servers.len() {
            let previous = self.servers[index].status;
            let status = VpnManager::status_after(action, succeeded);
            if status == previous && self.privilege_manager == PrivilegeManager::Doas {
                self.status_message = Some(
                    String::from_str(
                        "doas failed. Add to /etc/doas.conf: permit nopass <user> as root cmd awg-quick",
                    ),
                );
            }
            let updated = ServerConfig::new(
                self.servers[index].name.clone(),
                self.servers[index].path.clone(),
                status,
            );
            self.servers.set(index, updated);
            assert(servers_view(self.servers@) =~= after_tunnel(
                old(self)@,
                index as int,
                action,
                succeeded,
            ).servers);
        }
    }

    /// Decides on the file chosen in the browser, given its text (`None`
    /// when it could not be read).
    pub fn config_checked(&mut self, path: String, content: Option<String>) -> (r: Request)
        ensures
            (final(self)@, r@) == after_check(old(self)@, path@, opt_text(content)),
    {
        if !VpnManager::validate_config(content) {
            self.status_message = Some(String::from_str("Invalid WireGuard config!"));
            self.show_explorer = false;
            return Request::Nothing;
        }
        let name = stem_of(path.as_str());
        Request::SaveConfig { path, name }
    }

    /// Takes the outcome of storing a configuration: the reloaded servers,
    /// or the text of the error.
    pub fn config_saved(&mut self, result: Result<Vec<ServerConfig>, String>)
        ensures
            final(self)@ == after_save(old(self)@, result_view(result)),
    {
        match result {
            Ok(servers) => {
                self.servers = servers;
                self.show_explorer = false;
                self.status_message = None;
            },
            Err(e) => {
                self.status_message = Some(String::from_str("Error: ").concat(e.as_str()));
            },
        }
    }

    /// Takes the outcome of deleting the configuration of the server at
    /// `index`: the reloaded servers, or the text of the error.
    pub fn config_removed(&mut self, index: usize, result: Result<Vec<ServerConfig>, String>)
        ensures
            final(self)@ == after_remove(old(self)@, index as int, result_view(result)),
    {
        match result {
            Ok(servers) => {
                self.servers = servers;
                let len = self.servers.len();
                self.selected = if len == 0 {
                    None
                } else if index < len - 1 {
                    Some(index)
                } else {
                    Some(len - 1)
                };
            },
            Err(e) => {
                self.status_message = Some(String::from_str("Error: ").concat(e.as_str()));
            },
        }
    }
}

} // verus!
