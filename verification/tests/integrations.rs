use meridian::events::ConnectionStatus;
use meridian::integrations::{builtin_plugins, find_plugin, list_integrations, plugins_to_sync, should_sync, IntegrationError};

#[test]
fn builtins_in_order() {
    let ids: Vec<&str> = builtin_plugins().iter().map(|m| m.id).collect();
    assert_eq!(ids, vec!["gmail", "outlook", "slack", "zoom", "gchat", "jira"]);
}

#[test]
fn find_by_id() {
    let metas = builtin_plugins();
    assert_eq!(find_plugin(&metas, "zoom").unwrap(), 3);
    assert_eq!(find_plugin(&metas, "teams").unwrap_err(), "Integration 'teams' not found");
}

#[test]
fn listing_and_sync_selection() {
    let metas = builtin_plugins();
    let mut statuses = vec![ConnectionStatus::Disconnected; 6];
    statuses[1] = ConnectionStatus::Connected { account: "me@x".to_string() };
    statuses[5] = ConnectionStatus::Connected { account: "acme".to_string() };
    statuses[2] = ConnectionStatus::Error { message: "boom".to_string() };
    let infos = list_integrations(&metas, statuses.clone());
    assert_eq!(infos.len(), 6);
    assert_eq!(infos[4].name, "Google Chat");
    assert_eq!(infos[4].icon, "message-circle");
    assert_eq!(infos[1].status, statuses[1]);
    assert_eq!(plugins_to_sync(&statuses), vec![1, 5]);
    assert!(!should_sync(&statuses[2]));
}

#[test]
fn integration_error_messages() {
    assert_eq!(IntegrationError::NotAuthenticated.message(), "Not authenticated — connect the integration first");
    assert_eq!(IntegrationError::ApiError { status: 404, message: "nope".to_string() }.message(), "API error 404: nope");
    assert_eq!(IntegrationError::OAuth("x".to_string()).message(), "OAuth error: x");
}
