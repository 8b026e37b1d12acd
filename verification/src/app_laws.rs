use vstd::prelude::*;
use crate::app::{
    after_check, after_refresh, after_remove, after_save, after_tunnel, doas_failure_message, key_allowed,
    key_step, AppView,
    Key, OutcomeView, RequestView,
};
use crate::explorer_laws::law_cursor_stays_valid;
use crate::file_explorer::ExplorerView;
use crate::header::ConnectionStatus;
use crate::vpn_manager::PrivilegeManager;

verus! {

/// The other status.
pub open spec fn flipped(s: ConnectionStatus) -> ConnectionStatus {
    match s {
        ConnectionStatus::Connected => ConnectionStatus::Disconnected,
        ConnectionStatus::Disconnected => ConnectionStatus::Connected,
    }
}

/// A tunnel command is only ever asked for once a password is known (or
/// none is needed), for a server of the list at its own path; when it
/// succeeds the server's status flips, and when it fails the status stays as
/// it was, with the advice on `doas` shown when `doas` is in use.
pub proof fn law_tunnel_outcome(a: AppView, key: Key, succeeded: bool)
    ensures
        ({
            let (b, o) = key_step(a, key);
            o.request matches RequestView::Tunnel { index, path, action } ==> {
                &&& b.has_password || !b.privilege_manager.spec_needs_password()
                &&& index < b.servers.len()
                &&& b.servers == a.servers
                &&& path == b.servers[index as int].path
                &&& after_tunnel(b, index as int, action, succeeded).servers[index as int].status == (
                if succeeded {
                    flipped(b.servers[index as int].status)
                } else {
                    b.servers[index as int].status
                })
                &&& after_tunnel(b, index as int, action, succeeded).status_message == (if !succeeded
                    && b.privilege_manager == PrivilegeManager::Doas {
                    Some(doas_failure_message())
                } else {
                    b.status_message
                })
            }
        }),
{
}

/// Once the application is told to quit it stays so, whatever happens next.
pub proof fn law_exit_is_final(
    a: AppView,
    key: Key,
    index: int,
    action: crate::vpn_manager::TunnelAction,
    succeeded: bool,
    path: Seq<char>,
    content: Option<Seq<char>>,
    result: Result<Seq<crate::header::ServerView>, Seq<char>>,
    statuses: Seq<ConnectionStatus>,
)
    requires
        a.exit,
    ensures
        key_step(a, key).0.exit,
        after_tunnel(a, index, action, succeeded).exit,
        after_check(a, path, content).0.exit,
        after_save(a, result).exit,
        after_remove(a, index, result).exit,
        after_refresh(a, statuses).exit,
{
}

/// In the password prompt, typing a character and erasing it again gives
/// back the state one started from.
pub proof fn law_type_then_erase(a: AppView, c: char)
    requires
        a.show_auth_popup,
    ensures
        key_step(key_step(a, Key::Char(c)).0, Key::Backspace).0 == a,
{
    assert(a.input.push(c).drop_last() =~= a.input);
}

/// In the password prompt, Backspace on an empty input leaves it empty, and
/// keys other than Enter, Esc, a character and Backspace change nothing;
/// neither yields a password or work.
pub proof fn law_prompt_quiet_keys(a: AppView)
    requires
        a.show_auth_popup,
    ensures
        a.input.len() == 0 ==> key_step(a, Key::Backspace) == (a, OutcomeView {
            password: None,
            request: RequestView::Nothing,
        }),
        key_step(a, Key::Other) == (a, OutcomeView { password: None, request: RequestView::Nothing }),
{
}

/// Cancelling the password prompt closes it, forgets what was typed and
/// yields no password and no work.
pub proof fn law_cancel_prompt(a: AppView)
    requires
        a.show_auth_popup,
    ensures
        ({
            let (b, o) = key_step(a, Key::Esc);
            &&& !b.show_auth_popup
            &&& b.input.len() == 0
            &&& b.has_password == a.has_password
            &&& o == (OutcomeView { password: None, request: RequestView::Nothing })
        }),
{
}

/// Confirming the password prompt hands out exactly what was typed.
pub proof fn law_password_is_input(a: AppView)
    requires
        a.show_auth_popup,
    ensures
        key_step(a, Key::Enter).1.password == Some(a.input),
        key_step(a, Key::Enter).0.has_password,
        key_step(a, Key::Enter).0.input.len() == 0,
{
}

/// After a configuration was deleted, the selection is on a row of the new
/// list, or there is none and the list is empty.
pub proof fn law_removal_keeps_selection(
    a: AppView,
    index: int,
    servers: Seq<crate::header::ServerView>,
)
    requires
        0 <= index,
    ensures
        ({
            let b = after_remove(a, index, Ok(servers));
            &&& b.selected is None <==> servers.len() == 0
            &&& b.selected matches Some(j) ==> j < servers.len()
        }),
{
}

/// The browser's selection is on a row (or at 0 in an empty list) and not
/// above the first row shown.
pub open spec fn explorer_wf(e: ExplorerView) -> bool {
    &&& e.scroll_offset <= e.selected
    &&& (e.selected < e.entries.len() || (e.entries.len() == 0 && e.selected == 0))
}

/// No key press breaks the browser's invariant.
pub proof fn law_keys_keep_browser_valid(a: AppView, key: Key)
    requires
        explorer_wf(a.explorer),
        key_allowed(a, key),
    ensures
        explorer_wf(key_step(a, key).0.explorer),
{
    let e = a.explorer;
    law_cursor_stays_valid(e.selected as int, e.scroll_offset as int, e.entries.len() as int, 20);
}

/// In the server list, Esc only dismisses the status message: everything
/// else stays as it was, the application keeps running, and no password or
/// work is handed out.
pub proof fn law_esc_dismisses_message(a: AppView)
    requires
        !a.show_auth_popup,
        !a.show_explorer,
    ensures
        key_step(a, Key::Esc) == (AppView { status_message: None, ..a }, OutcomeView {
            password: None,
            request: RequestView::Nothing,
        }),
        key_step(a, Key::Esc).0.exit == a.exit,
{
}

/// Only `q` in the server list makes the application quit: after any key
/// the application is told to quit exactly when it already was, or when the
/// key was `q` with neither the prompt nor the browser open.
pub proof fn law_only_q_quits(a: AppView, key: Key)
    ensures
        key_step(a, key).0.exit == (a.exit || (!a.show_auth_popup && !a.show_explorer && key
            == Key::Char('q'))),
{
}

} // verus!
