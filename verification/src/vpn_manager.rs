use vstd::prelude::*;
use crate::header::ConnectionStatus;
use crate::paths::{has_conf_extension, is_conf_path, stem_of, stem_or_empty};
use crate::text::{chars_of, contains_chars, contains_text};

verus! {

/// Which way a tunnel is switched.
#[derive(Debug, Clone, Copy, PartialEq, Eq, Structural)]
pub enum TunnelAction {
    Up,
    Down,
}

impl TunnelAction {
    /// The `awg-quick` subcommand for this action.
    pub open spec fn verb(self) -> Seq<char> {
        match self {
            TunnelAction::Up => "up"@,
            TunnelAction::Down => "down"@,
        }
    }
}

/// How `awg-quick` gets root rights.
#[derive(Debug, Clone, Copy, PartialEq, Eq, Structural)]
pub enum PrivilegeManager {
    /// `sudo`, which needs the user's password.
    Sudo,
    /// `doas`, configured with `permit nopass ... cmd awg-quick`.
    Doas,
}

impl PrivilegeManager {
    /// Whether the user's password must be supplied.
    pub open spec fn spec_needs_password(self) -> bool {
        self == PrivilegeManager::Sudo
    }

    /// The tool to use given which ones are installed: `sudo` whenever it
    /// is, `doas` when only `doas` is, `sudo` when neither is found.
    pub fn pick(has_sudo: bool, has_doas: bool) -> (p: PrivilegeManager)
        ensures
            p == (if !has_sudo && has_doas {
                PrivilegeManager::Doas
            } else {
                PrivilegeManager::Sudo
            }),
    {
        if !has_sudo && has_doas {
            PrivilegeManager::Doas
        } else {
            PrivilegeManager::Sudo
        }
    }

    /// Whether the user's password must be supplied.
    pub fn needs_password(&self) -> (r: bool)
        ensures
            r == self.spec_needs_password(),
    {
        match self {
            PrivilegeManager::Sudo => true,
            PrivilegeManager::Doas => false,
        }
    }
}

/// The command line for `action` on the configuration at `path`.
pub open spec fn awg_quick_line(privilege: PrivilegeManager, action: TunnelAction, path: Seq<char>) -> Seq<
    Seq<char>,
> {
    match privilege {
        PrivilegeManager::Sudo => seq!["sudo"@, "-S"@, "-p"@, ""@, "awg-quick"@, action.verb(), path],
        PrivilegeManager::Doas => seq!["doas"@, "awg-quick"@, action.verb(), path],
    }
}

/// A tunnel configuration file found in the configuration directory.
pub struct ConfigFile {
    pub name: String,
    pub path: String,
}

/// The rules for driving `awg-quick` and for the stored configurations.
pub struct VpnManager;

/// The sections and keys that a WireGuard/AmneziaWG configuration must hold.
pub open spec fn required_markers() -> Seq<Seq<char>> {
    seq!["[Interface]"@, "[Peer]"@, "PrivateKey"@, "Address"@, "PublicKey"@, "Endpoint"@]
}

/// A configuration is valid when every required marker occurs in it.
pub open spec fn is_valid_config(content: Seq<char>) -> bool {
    forall|i: int| 0 <= i < required_markers().len() ==> contains_text(content, #[trigger] required_markers()[i])
}

/// The status a tunnel has after `action` was attempted: the target state
/// when the command succeeded, the opposite otherwise.
pub open spec fn status_after_action(action: TunnelAction, succeeded: bool) -> ConnectionStatus {
    match (action, succeeded) {
        (TunnelAction::Up, true) => ConnectionStatus::Connected,
        (TunnelAction::Up, false) => ConnectionStatus::Disconnected,
        (TunnelAction::Down, true) => ConnectionStatus::Disconnected,
        (TunnelAction::Down, false) => ConnectionStatus::Connected,
    }
}

/// The configuration files among `paths`, in order: those whose extension
/// is `conf`, named by their file stem.
pub open spec fn config_files(paths: Seq<Seq<char>>) -> Seq<(Seq<char>, Seq<char>)>
    decreases paths.len(),
{
    if paths.len() == 0 {
        Seq::empty()
    } else {
        let rest = config_files(paths.drop_last());
        let p = paths.last();
        if has_conf_extension(p) {
            rest.push((stem_or_empty(p), p))
        } else {
            rest
        }
    }
}

pub open spec fn strings_view(v: Seq<String>) -> Seq<Seq<char>> {
    v.map_values(|s: String| s@)
}

pub open spec fn config_files_view(v: Seq<ConfigFile>) -> Seq<(Seq<char>, Seq<char>)> {
    v.map_values(|c: ConfigFile| (c.name@, c.path@))
}

impl VpnManager {
    /// Whether the text of a configuration file (`None` when it could not be
    /// read) holds every required section and key.
    pub fn validate_config(content: Option<String>) -> (r: bool)
        ensures
            r == match content {
                Some(c) => is_valid_config(c@),
                None => false,
            },
    {
        let text = match content {
            Some(c) => c,
            None => {
                return false;
            },
        };
        let hay = chars_of(text.as_str());
        let ok = Self::has_marker(&hay, "[Interface]") && Self::has_marker(&hay, "[Peer]")
            && Self::has_marker(&hay, "PrivateKey") && Self::has_marker(&hay, "Address")
            && Self::has_marker(&hay, "PublicKey") && Self::has_marker(&hay, "Endpoint");
        proof {
            let m = required_markers();
            assert(m[0] == "[Interface]"@ && m[1] == "[Peer]"@ && m[2] == "PrivateKey"@);
            assert(m[3] == "Address"@ && m[4] == "PublicKey"@ && m[5] == "Endpoint"@);
            if ok {
                assert forall|i: int| 0 <= i < m.len() implies contains_text(text@, #[trigger] m[i]) by {
                    if i == 0 {} else if i == 1 {} else if i == 2 {} else if i == 3 {} else if i == 4 {} else {}
                }
            } else {
                if !contains_text(text@, m[0]) {} else if !contains_text(text@, m[1]) {
                } else if !contains_text(text@, m[2]) {} else if !contains_text(text@, m[3]) {
                } else if !contains_text(text@, m[4]) {} else {
                    assert(!contains_text(text@, m[5]));
                }
            }
        }
        ok
    }

    /// Whether `marker` occurs in the text `hay`.
    fn has_marker(hay: &Vec<char>, marker: &str) -> (r: bool)
        ensures
            r == contains_text(hay@, marker@),
    {
        let needle = chars_of(marker);
        contains_chars(hay, &needle)
    }

    /// The status after `action` was attempted; `succeeded` tells whether
    /// the `awg-quick` command reported success.
    pub fn status_after(action: TunnelAction, succeeded: bool) -> (s: ConnectionStatus)
        ensures
            s == status_after_action(action, succeeded),
    {
        match action {
            TunnelAction::Up => if succeeded {
                ConnectionStatus::Connected
            } else {
                ConnectionStatus::Disconnected
            },
            TunnelAction::Down => if succeeded {
                ConnectionStatus::Disconnected
            } else {
                ConnectionStatus::Connected
            },
        }
    }

    /// The status of an interface from the outcome of `ip link show`:
    /// `None` when the command could not be run, else whether it succeeded.
    pub fn status_from_probe(probe: Option<bool>) -> (s: ConnectionStatus)
        ensures
            s == (if probe == Some(true) {
                ConnectionStatus::Connected
            } else {
                ConnectionStatus::Disconnected
            }),
    {
        match probe {
            Some(true) => ConnectionStatus::Connected,
            _ => ConnectionStatus::Disconnected,
        }
    }

    /// The command line that runs `awg-quick` with root rights: through
    /// `sudo`, reading the password from standard input without a prompt, or
    /// through `doas`, which is set up to ask for none.
    pub fn awg_quick_command(privilege: PrivilegeManager, action: TunnelAction, path: &str) -> (cmd:
        Vec<String>)
        ensures
            strings_view(cmd@) == awg_quick_line(privilege, action, path@),
    {
        let verb = match action {
            TunnelAction::Up => String::from_str("up"),
            TunnelAction::Down => String::from_str("down"),
        };
        assert(verb@ == action.verb());
        let mut cmd: Vec<String> = Vec::new();
        match privilege {
            PrivilegeManager::Sudo => {
                cmd.push(String::from_str("sudo"));
                cmd.push(String::from_str("-S"));
                cmd.push(String::from_str("-p"));
                cmd.push(String::new());
            },
            PrivilegeManager::Doas => {
                cmd.push(String::from_str("doas"));
            },
        }
        let ghost prefix = cmd@;
        cmd.push(String::from_str("awg-quick"));
        cmd.push(verb);
        cmd.push(String::from_str(path));
        proof {
            reveal_strlit("");
            if privilege == PrivilegeManager::Sudo {
                assert(cmd@[3]@ == ""@);
                assert(cmd@[5]@ == action.verb());
            } else {
                assert(cmd@[2]@ == action.verb());
            }
        }
        assert(strings_view(cmd@) =~= awg_quick_line(privilege, action, path@));
        cmd
    }

    /// The command line that asks whether the interface `name` exists.
    pub fn link_probe_command(name: &str) -> (cmd: Vec<String>)
        ensures
            strings_view(cmd@) == seq!["ip"@, "link"@, "show"@, name@],
    {
        let mut cmd: Vec<String> = Vec::new();
        cmd.push(String::from_str("ip"));
        cmd.push(String::from_str("link"));
        cmd.push(String::from_str("show"));
        cmd.push(String::from_str(name));
        assert(strings_view(cmd@) =~= seq!["ip"@, "link"@, "show"@, name@]);
        cmd
    }

    /// The file name under which a configuration called `name` is stored.
    pub fn config_file_name(name: &str) -> (f: String)
        ensures
            f@ == name@ + ".conf"@,
    {
        String::from_str(name).concat(".conf")
    }

    /// The stored configurations among the paths of the configuration
    /// directory.
    pub fn config_files(paths: &Vec<String>) -> (files: Vec<ConfigFile>)
        ensures
            config_files_view(files@) == config_files(strings_view(paths@)),
    {
        let ghost pv = strings_view(paths@);
        let mut files: Vec<ConfigFile> = Vec::new();
        let mut i: usize = 0;
        while i < paths.len()
            invariant
                i <= paths@.len(),
                pv == strings_view(paths@),
                config_files_view(files@) == config_files(pv.take(i as int)),
            decreases paths@.len() - i,
        {
            let p = &paths[i];
            assert(pv.take(i + 1).drop_last() =~= pv.take(i as int));
            assert(pv.take(i + 1).last() == p@);
            let ghost before = files@;
            if is_conf_path(p.as_str()) {
                let name = stem_of(p.as_str());
                files.push(ConfigFile { name, path: p.clone() });
                assert(config_files_view(files@) =~= config_files_view(before).push((
                    stem_or_empty(p@),
                    p@,
                )));
            }
            i = i + 1;
        }
        assert(pv.take(paths@.len() as int) =~= pv);
        files
    }
}

} // verus!
