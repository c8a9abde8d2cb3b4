use meridian::events::UtcTimestamp;
use meridian::integrations::IntegrationError;
use meridian::oauth::{
    access_token_from_json, check_slack_credentials, check_slack_oauth, gchat_filter,
    google_chat_token_json, google_consent_request, google_token_json, jira_auth_url, jira_cloud_id,
    jira_jql, localhost_redirect_uri, loopback_redirect_uri, oauth_code_from_path, outlook_auth_url,
    outlook_filter, pkce_pair, slack_auth_url, slack_token_json, slack_workspace_label,
    sync_window_start, zoom_auth_url, zoom_basic_credentials,
};

#[test]
fn redirect_uris() {
    assert_eq!(loopback_redirect_uri(8080), "http://127.0.0.1:8080/callback");
    assert_eq!(localhost_redirect_uri(0), "http://localhost:0/callback");
}

#[test]
fn auth_urls() {
    assert_eq!(
        slack_auth_url("cid", "r", "ch"),
        "https://slack.com/oauth/v2/authorize?client_id=cid&scope=channels:history,channels:read,groups:history,groups:read,im:history,im:read,users:read,search:read&redirect_uri=r&code_challenge=ch&code_challenge_method=S256"
    );
    assert_eq!(
        jira_auth_url("cid", "r", "ch"),
        "https://auth.atlassian.com/authorize?audience=api.atlassian.com&client_id=cid&scope=read%3Ajira-work%20read%3Ajira-user&redirect_uri=r&state=meridian&response_type=code&prompt=consent&code_challenge=ch&code_challenge_method=S256"
    );
    assert_eq!(
        outlook_auth_url("o", "r", "ch"),
        "https://login.microsoftonline.com/common/oauth2/v2.0/authorize?client_id=o&response_type=code&redirect_uri=r&response_mode=query&scope=Mail.Read User.Read offline_access&code_challenge=ch&code_challenge_method=S256"
    );
    assert_eq!(
        zoom_auth_url("z", "r", "ch"),
        "https://zoom.us/oauth/authorize?response_type=code&client_id=z&redirect_uri=r&code_challenge=ch&code_challenge_method=S256"
    );
}

fn is_base64url(s: &str) -> bool {
    s.chars().all(|c| c.is_ascii_alphanumeric() || c == '-' || c == '_')
}

#[test]
fn pkce_pairs_are_fresh_and_url_safe() {
    let (v1, c1) = pkce_pair();
    let (v2, c2) = pkce_pair();
    assert_eq!(v1.len(), 43);
    assert_eq!(c1.len(), 43);
    assert!(is_base64url(&v1) && is_base64url(&c1));
    assert_ne!(v1, c1);
    assert_ne!(v1, v2);
    assert_ne!(c1, c2);
}

#[test]
fn google_consent_request_query() {
    let (url, verifier) =
        google_consent_request("cid", "http://127.0.0.1:9/callback", "s1 s2").unwrap();
    assert!(url.starts_with("https://accounts.google.com/o/oauth2/v2/auth?"));
    assert_eq!(verifier.len(), 43);
    let parsed = url::Url::parse(&url).unwrap();
    let pairs: Vec<(String, String)> =
        parsed.query_pairs().map(|(k, v)| (k.to_string(), v.to_string())).collect();
    let keys: Vec<&str> = pairs.iter().map(|p| p.0.as_str()).collect();
    assert_eq!(
        keys,
        vec!["response_type", "client_id", "state", "code_challenge", "code_challenge_method", "redirect_uri", "scope"]
    );
    assert_eq!(pairs[0].1, "code");
    assert_eq!(pairs[1].1, "cid");
    assert_eq!(pairs[3].1.len(), 43);
    assert_ne!(pairs[3].1, verifier);
    assert_eq!(pairs[4].1, "S256");
    assert_eq!(pairs[5].1, "http://127.0.0.1:9/callback");
    assert_eq!(pairs[6].1, "s1 s2");
}

#[test]
fn google_consent_request_bad_redirect() {
    match google_consent_request("cid", "not a url", "s") {
        Err(IntegrationError::OAuth(m)) => assert_eq!(m, "relative URL without a base"),
        _ => panic!("expected an OAuth error"),
    }
}

#[test]
fn token_json_texts() {
    assert_eq!(
        google_token_json("a\"b", &None, &Some("2024-01-01T00:00:00+00:00".to_string())),
        "{\"access_token\":\"a\\\"b\",\"expires_at\":\"2024-01-01T00:00:00+00:00\",\"refresh_token\":null}"
    );
    assert_eq!(
        google_chat_token_json("t", &Some("r".to_string())),
        "{\"access_token\":\"t\",\"refresh_token\":\"r\"}"
    );
    assert_eq!(
        slack_token_json(&Some("xoxb".to_string()), &None),
        "{\"access_token\":\"xoxb\",\"team\":null}"
    );
    let v: serde_json::Value = serde_json::from_str(&google_token_json("tok", &Some("r".to_string()), &None)).unwrap();
    assert_eq!(v["access_token"], "tok");
    assert_eq!(access_token_from_json(&slack_token_json(&Some("x".to_string()), &Some("T".to_string()))).unwrap(), "x");
}

#[test]
fn zoom_credentials_are_base64() {
    assert_eq!(zoom_basic_credentials("user", "pass"), "Basic dXNlcjpwYXNz");
    assert_eq!(zoom_basic_credentials("a", ""), "Basic YTo=");
}

#[test]
fn oauth_code_in_callback() {
    assert_eq!(oauth_code_from_path("/callback?state=x&code=4%2F0Ab&code=other").unwrap(), "4/0Ab");
    assert_eq!(oauth_code_from_path("/callback?state=x").unwrap_err(), "No code in callback");
}

#[test]
fn access_tokens() {
    assert_eq!(access_token_from_json("{\"access_token\":\"tok\"}").unwrap(), "tok");
    assert_eq!(access_token_from_json("{\"team\":\"x\"}").unwrap_err(), IntegrationError::NotAuthenticated);
    assert!(matches!(access_token_from_json("not json"), Err(IntegrationError::AuthFailed(_))));
}

#[test]
fn slack_checks() {
    assert!(check_slack_credentials("id", "secret").is_ok());
    match check_slack_credentials("", "secret") {
        Err(IntegrationError::AuthFailed(m)) => assert!(m.starts_with("Slack Client ID or Secret is empty.")),
        _ => panic!("expected AuthFailed"),
    }
    assert!(check_slack_oauth(true, None).is_ok());
    assert_eq!(check_slack_oauth(false, None).unwrap_err(), IntegrationError::AuthFailed("Unknown error".to_string()));
    assert_eq!(check_slack_oauth(false, Some("bad_code".to_string())).unwrap_err(), IntegrationError::AuthFailed("bad_code".to_string()));
    assert_eq!(slack_workspace_label(None), "Slack");
    assert_eq!(slack_workspace_label(Some("Acme".to_string())), "Acme");
}

#[test]
fn jira_and_filters() {
    assert_eq!(jira_cloud_id(&["c1".to_string(), "c2".to_string()]).unwrap(), "c1");
    assert!(jira_cloud_id(&[]).is_err());
    assert_eq!(jira_jql("2024-01-01 10:00"), "assignee = currentUser() AND updated >= \"2024-01-01 10:00\" ORDER BY updated DESC");
    assert_eq!(outlook_filter("2024-01-01T00:00:00Z"), "receivedDateTime ge 2024-01-01T00:00:00Z");
    assert_eq!(gchat_filter("t"), "createTime > \"t\"");
    assert_eq!(sync_window_start(UtcTimestamp { secs: 100_000, nanos: 7 }), UtcTimestamp { secs: 13_600, nanos: 7 });
}
