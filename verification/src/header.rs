use vstd::prelude::*;

verus! {

/// Whether a tunnel interface is up.
#[derive(Debug, Clone, Copy, PartialEq, Eq, Structural)]
pub enum ConnectionStatus {
    Connected,
    Disconnected,
}

impl ConnectionStatus {
    /// The text shown for this status.
    pub open spec fn label(self) -> Seq<char> {
        match self {
            ConnectionStatus::Connected => "Connected"@,
            ConnectionStatus::Disconnected => "Disconnected"@,
        }
    }

    /// Renders the status as text ("Connected" or "Disconnected").
    pub fn to_string(&self) -> (s: String)
        ensures
            s@ == self.label(),
    {
        match self {
            ConnectionStatus::Connected => String::from_str("Connected"),
            ConnectionStatus::Disconnected => String::from_str("Disconnected"),
        }
    }
}

/// A saved tunnel configuration together with its last known status.
pub struct ServerConfig {
    pub name: String,
    pub path: String,
    pub status: ConnectionStatus,
}

/// The value of a [`ServerConfig`].
pub struct ServerView {
    pub name: Seq<char>,
    pub path: Seq<char>,
    pub status: ConnectionStatus,
}

impl View for ServerConfig {
    type V = ServerView;

    open spec fn view(&self) -> ServerView {
        ServerView { name: self.name@, path: self.path@, status: self.status }
    }
}

impl ServerConfig {
    pub fn new(name: String, path: String, status: ConnectionStatus) -> (s: Self)
        ensures
            s.name == name,
            s.path == path,
            s.status == status,
    {
        ServerConfig { name, path, status }
    }
}

} // verus!
