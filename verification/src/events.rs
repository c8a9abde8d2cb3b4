//! The shared data model of integration events and plugin metadata.
use vstd::prelude::*;

verus! {

/// A point in time in UTC: whole seconds since the Unix epoch and the
/// nanoseconds past that second.
#[derive(Debug, Clone, Copy, PartialEq, Eq)]
pub struct UtcTimestamp {
    pub secs: i64,
    pub nanos: u32,
}

/// One item fetched from an integration (an email, a message, a ticket, a meeting).
#[derive(Debug, Clone)]
pub struct UnifiedEvent {
    pub id: String,
    pub source: String,
    pub title: String,
    pub body: String,
    pub sender: Option<String>,
    pub url: Option<String>,
    pub received_at: UtcTimestamp,
    pub priority: Option<String>,
}

/// A copy of an optional text.
pub fn clone_opt_string(o: &Option<String>) -> (res: Option<String>)
    ensures
        res == *o,
{
    match o {
        Some(s) => Some(s.clone()),
        None => None,
    }
}

impl UnifiedEvent {
    /// A field-by-field copy of the event.
    pub fn copy(&self) -> (res: UnifiedEvent)
        ensures
            res == *self,
    {
        UnifiedEvent {
            id: self.id.clone(),
            source: self.source.clone(),
            title: self.title.clone(),
            body: self.body.clone(),
            sender: clone_opt_string(&self.sender),
            url: clone_opt_string(&self.url),
            received_at: self.received_at,
            priority: clone_opt_string(&self.priority),
        }
    }
}

/// Static description of an integration plugin.
#[derive(Debug, Clone, Copy)]
pub struct PluginMeta {
    pub id: &'static str,
    pub display_name: &'static str,
    pub icon: &'static str,
    pub description: &'static str,
}

/// Whether an integration is connected, and to which account.
#[derive(Debug, Clone, PartialEq, Eq)]
pub enum ConnectionStatus {
    Connected { account: String },
    Disconnected,
    Error { message: String },
}

impl ConnectionStatus {
    /// A copy of the state.
    pub fn copy(&self) -> (res: ConnectionStatus)
        ensures
            res == *self,
    {
        match self {
            ConnectionStatus::Connected { account } => ConnectionStatus::Connected {
                account: account.clone(),
            },
            ConnectionStatus::Disconnected => ConnectionStatus::Disconnected,
            ConnectionStatus::Error { message } => ConnectionStatus::Error { message: message.clone() },
        }
    }
}

} // verus!
