//! The integrations: their metadata, their errors, and the registry logic of
//! the integration manager.
use crate::events::{ConnectionStatus, PluginMeta};
use crate::text::{concat, concat3, decimal, decimal_spec, str_eq};
use vstd::prelude::*;

verus! {

/// Why an integration operation failed.
#[derive(Debug, Clone, PartialEq, Eq)]
pub enum IntegrationError {
    NotAuthenticated,
    AuthFailed(String),
    ApiError { status: u16, message: String },
    TokenExpired,
    Network(String),
    Storage(String),
    OAuth(String),
}

impl IntegrationError {
    /// The text shown for the error.
    pub open spec fn message_spec(&self) -> Seq<char> {
        match self {
            IntegrationError::NotAuthenticated => "Not authenticated — connect the integration first"@,
            IntegrationError::AuthFailed(m) => "Auth failed: "@ + m@,
            IntegrationError::ApiError { status, message } => "API error "@ + decimal_spec(
                *status as nat,
            ) + ": "@ + message@,
            IntegrationError::TokenExpired => "Token expired"@,
            IntegrationError::Network(m) => "Network error: "@ + m@,
            IntegrationError::Storage(m) => "Storage error: "@ + m@,
            IntegrationError::OAuth(m) => "OAuth error: "@ + m@,
        }
    }

    /// The text shown for the error.
    pub fn message(&self) -> (res: String)
        ensures
            res@ == self.message_spec(),
    {
        match self {
            IntegrationError::NotAuthenticated => String::from_str(
                "Not authenticated — connect the integration first",
            ),
            IntegrationError::AuthFailed(m) => concat("Auth failed: ", m.as_str()),
            IntegrationError::ApiError { status, message } => {
                let mut s = String::from_str("API error ");
                let code = decimal(*status as u64);
                s.append(code.as_str());
                s.append(": ");
                s.append(message.as_str());
                s
            },
            IntegrationError::TokenExpired => String::from_str("Token expired"),
            IntegrationError::Network(m) => concat("Network error: ", m.as_str()),
            IntegrationError::Storage(m) => concat("Storage error: ", m.as_str()),
            IntegrationError::OAuth(m) => concat("OAuth error: ", m.as_str()),
        }
    }
}

/// Gmail's metadata.
pub fn gmail_meta() -> (res: PluginMeta)
    ensures
        res.id@ == "gmail"@,
        res.display_name@ == "Gmail"@,
        res.icon@ == "mail"@,
        res.description@ == "Google Gmail — emails and threads"@,
{
    PluginMeta {
        id: "gmail",
        display_name: "Gmail",
        icon: "mail",
        description: "Google Gmail — emails and threads",
    }
}

/// Outlook's metadata.
pub fn outlook_meta() -> (res: PluginMeta)
    ensures
        res.id@ == "outlook"@,
        res.display_name@ == "Outlook"@,
        res.icon@ == "inbox"@,
        res.description@ == "Microsoft Outlook / Exchange email"@,
{
    PluginMeta {
        id: "outlook",
        display_name: "Outlook",
        icon: "inbox",
        description: "Microsoft Outlook / Exchange email",
    }
}

/// Slack's metadata.
pub fn slack_meta() -> (res: PluginMeta)
    ensures
        res.id@ == "slack"@,
        res.display_name@ == "Slack"@,
        res.icon@ == "message-square"@,
        res.description@ == "Slack — channels, DMs and mentions"@,
{
    PluginMeta {
        id: "slack",
        display_name: "Slack",
        icon: "message-square",
        description: "Slack — channels, DMs and mentions",
    }
}

/// Zoom's metadata.
pub fn zoom_meta() -> (res: PluginMeta)
    ensures
        res.id@ == "zoom"@,
        res.display_name@ == "Zoom"@,
        res.icon@ == "video"@,
        res.description@ == "Zoom — meetings and recordings"@,
{
    PluginMeta {
        id: "zoom",
        display_name: "Zoom",
        icon: "video",
        description: "Zoom — meetings and recordings",
    }
}

/// Google Chat's metadata.
pub fn gchat_meta() -> (res: PluginMeta)
    ensures
        res.id@ == "gchat"@,
        res.display_name@ == "Google Chat"@,
        res.icon@ == "message-circle"@,
        res.description@ == "Google Chat — spaces and direct messages"@,
{
    PluginMeta {
        id: "gchat",
        display_name: "Google Chat",
        icon: "message-circle",
        description: "Google Chat — spaces and direct messages",
    }
}

/// Jira's metadata.
pub fn jira_meta() -> (res: PluginMeta)
    ensures
        res.id@ == "jira"@,
        res.display_name@ == "Jira"@,
        res.icon@ == "ticket"@,
        res.description@ == "Jira — tickets, assignments and project updates"@,
{
    PluginMeta {
        id: "jira",
        display_name: "Jira",
        icon: "ticket",
        description: "Jira — tickets, assignments and project updates",
    }
}

/// The ids of the built-in integrations, in the order the manager keeps them.
pub open spec fn builtin_ids() -> Seq<Seq<char>> {
    seq!["gmail"@, "outlook"@, "slack"@, "zoom"@, "gchat"@, "jira"@]
}

/// The built-in integrations: Gmail, Outlook, Slack, Zoom, Google Chat, Jira.
pub fn builtin_plugins() -> (res: Vec<PluginMeta>)
    ensures
        res@.len() == 6,
        forall|i: int| 0 <= i < 6 ==> (#[trigger] res@[i]).id@ == builtin_ids()[i],
{
    let mut v: Vec<PluginMeta> = Vec::new();
    v.push(gmail_meta());
    v.push(outlook_meta());
    v.push(slack_meta());
    v.push(zoom_meta());
    v.push(gchat_meta());
    v.push(jira_meta());
    v
}

/// What the front end shows for an integration.
#[derive(Debug, Clone)]
pub struct IntegrationInfo {
    pub id: String,
    pub name: String,
    pub icon: String,
    pub status: ConnectionStatus,
}

/// The front-end description of an integration in the given state.
pub fn integration_info(meta: &PluginMeta, status: ConnectionStatus) -> (res: IntegrationInfo)
    ensures
        res.id@ == meta.id@,
        res.name@ == meta.display_name@,
        res.icon@ == meta.icon@,
        res.status == status,
{
    IntegrationInfo {
        id: String::from_str(meta.id),
        name: String::from_str(meta.display_name),
        icon: String::from_str(meta.icon),
        status,
    }
}

/// The front-end descriptions of all integrations, paired with their states.
pub fn list_integrations(metas: &[PluginMeta], statuses: Vec<ConnectionStatus>) -> (res: Vec<
    IntegrationInfo,
>)
    requires
        metas@.len() == statuses@.len(),
    ensures
        res@.len() == metas@.len(),
        forall|i: int|
            0 <= i < res@.len() ==> {
                &&& (#[trigger] res@[i]).id@ == metas@[i].id@
                &&& res@[i].name@ == metas@[i].display_name@
                &&& res@[i].icon@ == metas@[i].icon@
                &&& res@[i].status == statuses@[i]
            },
{
    let mut out: Vec<IntegrationInfo> = Vec::new();
    let mut i: usize = 0;
    while i < metas.len()
        invariant
            0 <= i <= metas@.len(),
            metas@.len() == statuses@.len(),
            out@.len() == i,
            forall|j: int|
                0 <= j < i ==> {
                    &&& (#[trigger] out@[j]).id@ == metas@[j].id@
                    &&& out@[j].name@ == metas@[j].display_name@
                    &&& out@[j].icon@ == metas@[j].icon@
                    &&& out@[j].status == statuses@[j]
                },
        decreases metas@.len() - i,
    {
        out.push(integration_info(&metas[i], statuses[i].copy()));
        i = i + 1;
    }
    out
}

/// Finds the integration with the given id; the error names the id.
pub fn find_plugin(metas: &[PluginMeta], id: &str) -> (res: Result<usize, String>)
    ensures
        match res {
            Ok(i) => i < metas@.len() && metas@[i as int].id@ == id@ && forall|j: int|
                0 <= j < i ==> (#[trigger] metas@[j]).id@ != id@,
            Err(msg) => (forall|j: int| 0 <= j < metas@.len() ==> (#[trigger] metas@[j]).id@ != id@)
                && msg@ == "Integration '"@ + id@ + "' not found"@,
        },
{
    let mut i: usize = 0;
    while i < metas.len()
        invariant
            0 <= i <= metas@.len(),
            forall|j: int| 0 <= j < i ==> (#[trigger] metas@[j]).id@ != id@,
        decreases metas@.len() - i,
    {
        if str_eq(metas[i].id, id) {
            return Ok(i);
        }
        i = i + 1;
    }
    Err(concat3("Integration '", id, "' not found"))
}

/// Whether an integration in this state takes part in a sync.
pub open spec fn is_connected(status: ConnectionStatus) -> bool {
    status is Connected
}

/// Whether an integration in this state takes part in a sync.
pub fn should_sync(status: &ConnectionStatus) -> (res: bool)
    ensures
        res == is_connected(*status),
{
    match status {
        ConnectionStatus::Connected { .. } => true,
        _ => false,
    }
}

/// The positions of the integrations a sync fetches from: the connected ones,
/// in order.
pub fn plugins_to_sync(statuses: &[ConnectionStatus]) -> (res: Vec<usize>)
    ensures
        forall|k: int| 0 <= k < res@.len() ==> res@[k] < statuses@.len() && is_connected(statuses@[#[trigger] res@[k] as int]),
        forall|i: int| 0 <= i < statuses@.len() && is_connected(#[trigger] statuses@[i]) ==> res@.contains(i as usize),
        forall|k: int, l: int| 0 <= k < l < res@.len() ==> res@[k] < res@[l],
{
    let mut out: Vec<usize> = Vec::new();
    let mut i: usize = 0;
    while i < statuses.len()
        invariant
            0 <= i <= statuses@.len(),
            forall|k: int| 0 <= k < out@.len() ==> (#[trigger] out@[k]) < i && is_connected(statuses@[out@[k] as int]),
            forall|j: int| 0 <= j < i && is_connected(#[trigger] statuses@[j]) ==> out@.contains(j as usize),
            forall|k: int, l: int| 0 <= k < l < out@.len() ==> out@[k] < out@[l],
        decreases statuses@.len() - i,
    {
        let ghost before = out@;
        if should_sync(&statuses[i]) {
            out.push(i);
            assert(out@[out@.len() - 1] == i);
        }
        assert forall|j: int| 0 <= j < i + 1 && is_connected(#[trigger] statuses@[j]) implies out@.contains(
            j as usize,
        ) by {
            if j < i {
                let k = choose|k: int| 0 <= k < before.len() && before[k] == j as usize;
                assert(out@[k] == j as usize);
            } else {
                assert(out@[out@.len() - 1] == i);
            }
        }
        i = i + 1;
    }
    out
}

} // verus!
