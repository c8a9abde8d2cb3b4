//! The OAuth sign-in flows: redirect addresses, consent URLs, the code in the
//! redirect, stored tokens and the service-specific checks of the answers.
use crate::codec::{base64_encode, base64_encode_spec};
use crate::events::UtcTimestamp;
use crate::integrations::IntegrationError;
use crate::summarizer::opt_text;
use crate::text::{concat, concat3, decimal, decimal_spec, str_eq};
use oauth2::basic::BasicClient;
use oauth2::{AuthUrl, ClientId, CsrfToken, PkceCodeChallenge, PkceCodeVerifier, RedirectUrl, Scope};
use vstd::prelude::*;
use vstd::utf8::encode_utf8;

verus! {

/// The local address the browser is sent back to for Gmail:
/// `http://127.0.0.1:<port>/callback`.
pub fn loopback_redirect_uri(port: u16) -> (res: String)
    ensures
        res@ == "http://127.0.0.1:"@ + decimal_spec(port as nat) + "/callback"@,
{
    let p = decimal(port as u64);
    concat3("http://127.0.0.1:", p.as_str(), "/callback")
}

/// The local address the browser is sent back to for the other services:
/// `http://localhost:<port>/callback`.
pub fn localhost_redirect_uri(port: u16) -> (res: String)
    ensures
        res@ == "http://localhost:"@ + decimal_spec(port as nat) + "/callback"@,
{
    let p = decimal(port as u64);
    concat3("http://localhost:", p.as_str(), "/callback")
}

/// The query parameters that carry a PKCE S256 challenge:
/// `&code_challenge=<challenge>&code_challenge_method=S256`.
pub open spec fn pkce_params(code_challenge: Seq<char>) -> Seq<char> {
    "&code_challenge="@ + code_challenge + "&code_challenge_method=S256"@
}

/// Appends the PKCE S256 challenge parameters to a URL text.
fn append_pkce(s: &mut String, code_challenge: &str)
    ensures
        final(s)@ == old(s)@ + pkce_params(code_challenge@),
{
    s.append("&code_challenge=");
    s.append(code_challenge);
    s.append("&code_challenge_method=S256");
}

/// The Slack consent URL, with the PKCE S256 challenge of the sign-in.
pub fn slack_auth_url(client_id: &str, redirect_uri: &str, code_challenge: &str) -> (res: String)
    ensures
        res@ == "https://slack.com/oauth/v2/authorize?client_id="@ + client_id@
            + "&scope=channels:history,channels:read,groups:history,groups:read,im:history,im:read,users:read,search:read&redirect_uri="@
            + redirect_uri@ + pkce_params(code_challenge@),
{
    let mut s = String::from_str("https://slack.com/oauth/v2/authorize?client_id=");
    s.append(client_id);
    s.append(
        "&scope=channels:history,channels:read,groups:history,groups:read,im:history,im:read,users:read,search:read&redirect_uri=",
    );
    s.append(redirect_uri);
    append_pkce(&mut s, code_challenge);
    s
}

/// The Jira (Atlassian) consent URL, with the PKCE S256 challenge of the sign-in.
pub fn jira_auth_url(client_id: &str, redirect_uri: &str, code_challenge: &str) -> (res: String)
    ensures
        res@ == "https://auth.atlassian.com/authorize?audience=api.atlassian.com&client_id="@
            + client_id@ + "&scope=read%3Ajira-work%20read%3Ajira-user&redirect_uri="@
            + redirect_uri@ + "&state=meridian&response_type=code&prompt=consent"@
            + pkce_params(code_challenge@),
{
    let mut s = String::from_str(
        "https://auth.atlassian.com/authorize?audience=api.atlassian.com&client_id=",
    );
    s.append(client_id);
    s.append("&scope=read%3Ajira-work%20read%3Ajira-user&redirect_uri=");
    s.append(redirect_uri);
    s.append("&state=meridian&response_type=code&prompt=consent");
    append_pkce(&mut s, code_challenge);
    s
}

/// The Outlook (Microsoft identity platform, `common` tenant) consent URL,
/// with the PKCE S256 challenge of the sign-in.
pub fn outlook_auth_url(client_id: &str, redirect_uri: &str, code_challenge: &str) -> (res: String)
    ensures
        res@ == "https://login.microsoftonline.com/common/oauth2/v2.0/authorize?client_id="@
            + client_id@ + "&response_type=code&redirect_uri="@ + redirect_uri@
            + "&response_mode=query&scope=Mail.Read User.Read offline_access"@
            + pkce_params(code_challenge@),
{
    let mut s = String::from_str(
        "https://login.microsoftonline.com/common/oauth2/v2.0/authorize?client_id=",
    );
    s.append(client_id);
    s.append("&response_type=code&redirect_uri=");
    s.append(redirect_uri);
    s.append("&response_mode=query&scope=Mail.Read User.Read offline_access");
    append_pkce(&mut s, code_challenge);
    s
}

/// The Zoom consent URL, with the PKCE S256 challenge of the sign-in.
pub fn zoom_auth_url(client_id: &str, redirect_uri: &str, code_challenge: &str) -> (res: String)
    ensures
        res@ == "https://zoom.us/oauth/authorize?response_type=code&client_id="@ + client_id@
            + "&redirect_uri="@ + redirect_uri@ + pkce_params(code_challenge@),
{
    let mut s = String::from_str("https://zoom.us/oauth/authorize?response_type=code&client_id=");
    s.append(client_id);
    s.append("&redirect_uri=");
    s.append(redirect_uri);
    append_pkce(&mut s, code_challenge);
    s
}

/// The `Authorization` header value of the Zoom token request:
/// `Basic <base64 of client_id:client_secret>`.
pub fn zoom_basic_credentials(client_id: &str, client_secret: &str) -> (res: String)
    ensures
        res@ == "Basic "@ + base64_encode_spec(encode_utf8(client_id@ + ":"@ + client_secret@)),
{
    let pair = concat3(client_id, ":", client_secret);
    let encoded = base64_encode(pair.as_str().as_bytes());
    concat("Basic ", encoded.as_str())
}

/// What the `url` crate makes of a URL text: `Err` with the parser's message
/// when the text is not a URL, else the (percent-decoded) name-value pairs of
/// its query, in order.
pub uninterp spec fn url_query_pairs(text: Seq<char>) -> Result<Seq<(Seq<char>, Seq<char>)>, Seq<char>>;

/// The view of a list of pairs of texts.
pub open spec fn pairs_view(v: Seq<(String, String)>) -> Seq<(Seq<char>, Seq<char>)> {
    v.map_values(|p: (String, String)| (p.0@, p.1@))
}

/// `url::Url::parse` followed by `query_pairs`; its result is named.
#[verifier::external_body]
fn query_pairs(text: &str) -> (res: Result<Vec<(String, String)>, String>)
    ensures
        match res {
            Ok(v) => url_query_pairs(text@) == Ok::<Seq<(Seq<char>, Seq<char>)>, Seq<char>>(
                pairs_view(v@),
            ),
            Err(m) => url_query_pairs(text@) == Err::<Seq<(Seq<char>, Seq<char>)>, Seq<char>>(m@),
        },
{
    match url::Url::parse(text) {
        Ok(u) => Ok(u.query_pairs().map(|(k, v)| (k.to_string(), v.to_string())).collect()),
        Err(e) => Err(e.to_string()),
    }
}

/// The value of the first pair with the given name.
pub open spec fn first_value(pairs: Seq<(Seq<char>, Seq<char>)>, name: Seq<char>) -> Option<Seq<char>>
    decreases pairs.len(),
{
    if pairs.len() == 0 {
        None
    } else if pairs[0].0 == name {
        Some(pairs[0].1)
    } else {
        first_value(pairs.skip(1), name)
    }
}

/// The authorization code in the path of the redirect request (for example
/// `/callback?code=...`), read as a URL on `http://localhost`: the first
/// `code` query parameter.
pub open spec fn oauth_code_spec(path: Seq<char>) -> Result<Seq<char>, Seq<char>> {
    match url_query_pairs("http://localhost"@ + path) {
        Ok(pairs) => match first_value(pairs, "code"@) {
            Some(c) => Ok(c),
            None => Err("No code in callback"@),
        },
        Err(m) => Err(m),
    }
}

/// The authorization code in the path of the redirect request.
pub fn oauth_code_from_path(path: &str) -> (res: Result<String, String>)
    ensures
        match res {
            Ok(c) => oauth_code_spec(path@) == Ok::<Seq<char>, Seq<char>>(c@),
            Err(m) => oauth_code_spec(path@) == Err::<Seq<char>, Seq<char>>(m@),
        },
{
    let url = concat("http://localhost", path);
    let pairs = match query_pairs(url.as_str()) {
        Ok(p) => p,
        Err(m) => return Err(m),
    };
    let ghost pv = pairs_view(pairs@);
    assert(url_query_pairs("http://localhost"@ + path@) == Ok::<Seq<(Seq<char>, Seq<char>)>, Seq<char>>(pv));
    let mut i: usize = 0;
    assert(pv.skip(0) =~= pv);
    while i < pairs.len()
        invariant
            0 <= i <= pairs@.len(),
            pv == pairs_view(pairs@),
            url_query_pairs("http://localhost"@ + path@) == Ok::<Seq<(Seq<char>, Seq<char>)>, Seq<char>>(pv),
            first_value(pv, "code"@) == first_value(pv.skip(i as int), "code"@),
        decreases pairs@.len() - i,
    {
        let ghost rest = pv.skip(i as int);
        assert(rest[0] == (pairs@[i as int].0@, pairs@[i as int].1@));
        assert(rest.skip(1) =~= pv.skip(i + 1));
        if str_eq(pairs[i].0.as_str(), "code") {
            let c = pairs[i].1.clone();
            assert(rest.len() > 0);
            assert(rest[0].0 == "code"@);
            assert(first_value(rest, "code"@) == Some(c@));
            return Ok(c);
        }
        i = i + 1;
    }
    Err(String::from_str("No code in callback"))
}

/// The page shown in the browser once the code has been received.
pub fn oauth_done_page() -> (res: String)
    ensures
        res@ == "<html><body><h2>Meridian connected!</h2><p>You can close this tab.</p></body></html>"@,
{
    String::from_str(
        "<html><body><h2>Meridian connected!</h2><p>You can close this tab.</p></body></html>",
    )
}

/// The view of a result holding an optional text.
pub open spec fn opt_text_result(r: Result<Option<String>, String>) -> Result<Option<Seq<char>>, Seq<char>> {
    match r {
        Ok(Some(c)) => Ok(Some(c@)),
        Ok(None) => Ok(None),
        Err(m) => Err(m@),
    }
}

/// What `serde_json` makes of a stored token text when asked for its
/// `access_token` string: `Err` with the parser's message when the text is not
/// JSON, else the field if it is a string.
pub uninterp spec fn json_access_token(text: Seq<char>) -> Result<Option<Seq<char>>, Seq<char>>;

/// `serde_json::from_str::<Value>` and `v["access_token"].as_str()`; its result
/// is named.
#[verifier::external_body]
fn access_token_field(text: &str) -> (res: Result<Option<String>, String>)
    ensures
        opt_text_result(res) == json_access_token(text@),
{
    match serde_json::from_str::<serde_json::Value>(text) {
        Ok(v) => Ok(v["access_token"].as_str().map(|s| s.to_string())),
        Err(e) => Err(e.to_string()),
    }
}

/// The access token kept in a stored token text: a text that is not JSON
/// means the sign-in failed; a JSON text without the token means the user is
/// not signed in.
pub fn access_token_from_json(text: &str) -> (res: Result<String, IntegrationError>)
    ensures
        match json_access_token(text@) {
            Ok(Some(t)) => res matches Ok(r) && r@ == t,
            Ok(None) => res == Err::<String, IntegrationError>(IntegrationError::NotAuthenticated),
            Err(m) => res matches Err(IntegrationError::AuthFailed(r)) && r@ == m,
        },
{
    match access_token_field(text) {
        Ok(Some(t)) => Ok(t),
        Ok(None) => Err(IntegrationError::NotAuthenticated),
        Err(m) => Err(IntegrationError::AuthFailed(m)),
    }
}

/// The error when no Slack app credentials are stored.
pub fn slack_missing_credentials() -> (res: IntegrationError)
    ensures
        res matches IntegrationError::AuthFailed(m) && m@
            == "Slack OAuth credentials are not configured. Go to Settings → Integrations → Slack Setup and enter your Slack App Client ID and Client Secret."@,
{
    IntegrationError::AuthFailed(
        String::from_str(
            "Slack OAuth credentials are not configured. Go to Settings → Integrations → Slack Setup and enter your Slack App Client ID and Client Secret.",
        ),
    )
}

/// Checks the stored Slack app credentials: both must be non-empty.
pub fn check_slack_credentials(client_id: &str, client_secret: &str) -> (res: Result<(), IntegrationError>)
    ensures
        (client_id@.len() > 0 && client_secret@.len() > 0) ==> res is Ok,
        !(client_id@.len() > 0 && client_secret@.len() > 0) ==> (res matches Err(
            IntegrationError::AuthFailed(m),
        ) && m@
            == "Slack Client ID or Secret is empty. Go to Settings → Integrations → Slack Setup and enter your credentials from api.slack.com/apps."@),
{
    if client_id.is_empty() || client_secret.is_empty() {
        Err(
            IntegrationError::AuthFailed(
                String::from_str(
                    "Slack Client ID or Secret is empty. Go to Settings → Integrations → Slack Setup and enter your credentials from api.slack.com/apps.",
                ),
            ),
        )
    } else {
        Ok(())
    }
}

/// Checks Slack's answer to the code exchange: refused unless `ok`, with
/// Slack's error text or `Unknown error`.
pub fn check_slack_oauth(ok: bool, error: Option<String>) -> (res: Result<(), IntegrationError>)
    ensures
        ok ==> res is Ok,
        !ok ==> (res matches Err(IntegrationError::AuthFailed(m)) && m@ == match error {
            Some(e) => e@,
            None => "Unknown error"@,
        }),
{
    if ok {
        Ok(())
    } else {
        match error {
            Some(e) => Err(IntegrationError::AuthFailed(e)),
            None => Err(IntegrationError::AuthFailed(String::from_str("Unknown error"))),
        }
    }
}

/// The account label stored for a Slack workspace: its name, or `Slack`.
pub fn slack_workspace_label(team_name: Option<String>) -> (res: String)
    ensures
        match team_name {
            Some(n) => res == n,
            None => res@ == "Slack"@,
        },
{
    match team_name {
        Some(n) => n,
        None => String::from_str("Slack"),
    }
}

/// The Jira cloud id to search: that of the first accessible site.
pub fn jira_cloud_id(site_ids: &[String]) -> (res: Result<String, IntegrationError>)
    ensures
        site_ids@.len() > 0 ==> res == Ok::<String, IntegrationError>(site_ids@[0]),
        site_ids@.len() == 0 ==> (res matches Err(IntegrationError::AuthFailed(m)) && m@
            == "No Jira sites accessible"@),
{
    if site_ids.len() == 0 {
        Err(IntegrationError::AuthFailed(String::from_str("No Jira sites accessible")))
    } else {
        Ok(site_ids[0].clone())
    }
}

/// The Jira search for the user's issues updated since the given time
/// (written `YYYY-MM-DD HH:MM`), most recent first.
pub fn jira_jql(updated_since: &str) -> (res: String)
    ensures
        res@ == "assignee = currentUser() AND updated >= \""@ + updated_since@
            + "\" ORDER BY updated DESC"@,
{
    concat3("assignee = currentUser() AND updated >= \"", updated_since, "\" ORDER BY updated DESC")
}

/// The Outlook filter for messages received since the given time.
pub fn outlook_filter(received_since: &str) -> (res: String)
    ensures
        res@ == "receivedDateTime ge "@ + received_since@,
{
    concat("receivedDateTime ge ", received_since)
}

/// The Google Chat filter for messages created after the given time.
pub fn gchat_filter(created_after: &str) -> (res: String)
    ensures
        res@ == "createTime > \""@ + created_after@ + "\""@,
{
    concat3("createTime > \"", created_after, "\"")
}

/// The start of the window a sync fetches: 24 hours before `now`.
pub fn sync_window_start(now: UtcTimestamp) -> (res: UtcTimestamp)
    requires
        now.secs >= i64::MIN + 86400,
    ensures
        res.secs == now.secs - 86400,
        res.nanos == now.nanos,
{
    UtcTimestamp { secs: now.secs - 86400, nanos: now.nanos }
}


/// The PKCE S256 challenge of a code verifier: the SHA-256 digest of its UTF-8
/// bytes, in unpadded URL-safe base64 (what
/// `oauth2::PkceCodeChallenge::from_code_verifier_sha256` computes).
pub uninterp spec fn pkce_s256(verifier: Seq<char>) -> Seq<char>;

/// `oauth2::PkceCodeChallenge::new_random_sha256`: a random code verifier (32
/// random bytes in unpadded URL-safe base64, so 43 ASCII characters) and its
/// S256 challenge. Nothing else is promised of the verifier.
#[verifier::external_body]
fn random_pkce() -> (res: (String, String))
    ensures
        encode_utf8(res.0@).len() == 43,
        res.1@ == pkce_s256(res.0@),
{
    let (challenge, verifier) = PkceCodeChallenge::new_random_sha256();
    (verifier.secret().to_string(), challenge.as_str().to_string())
}

/// A fresh PKCE code verifier for a sign-in and its S256 challenge: the
/// challenge goes into the consent URL and the verifier into the code
/// exchange.
pub fn pkce_pair() -> (res: (String, String))
    ensures
        encode_utf8(res.0@).len() == 43,
        res.1@ == pkce_s256(res.0@),
{
    random_pkce()
}

/// The query of a Google consent request, in the order `oauth2` writes it:
/// response type, client id, CSRF state, the PKCE S256 challenge and its
/// method, the redirect address and, when there are scopes, the scopes.
pub open spec fn consent_pairs(
    client_id: Seq<char>,
    state: Seq<char>,
    code_challenge: Seq<char>,
    redirect_uri: Seq<char>,
    scopes: Seq<char>,
) -> Seq<(Seq<char>, Seq<char>)> {
    seq![
        ("response_type"@, "code"@),
        ("client_id"@, client_id),
        ("state"@, state),
        ("code_challenge"@, code_challenge),
        ("code_challenge_method"@, "S256"@),
        ("redirect_uri"@, redirect_uri),
    ] + if scopes.len() > 0 {
        seq![("scope"@, scopes)]
    } else {
        seq![]
    }
}

/// The authorization URL that `oauth2`'s `BasicClient` builds for the given
/// endpoint, client, redirect address, scopes and PKCE verifier, with a random
/// CSRF state (returned beside the URL). It fails with the `url` parser's
/// message when the endpoint or the redirect address is not a URL. When the
/// endpoint has no query, the query of the URL is exactly the request's
/// parameters.
#[verifier::external_body]
fn oauth2_authorize_url(endpoint: &str, client_id: &str, redirect_uri: &str, scopes: &str, verifier: &str)
    -> (res: Result<(String, String), String>)
    requires
        43 <= encode_utf8(verifier@).len() <= 128,
    ensures
        match res {
            Ok((url, state)) => {
                &&& url_query_pairs(endpoint@) is Ok
                &&& url_query_pairs(redirect_uri@) is Ok
                &&& !endpoint@.contains('?') ==> url_query_pairs(url@) == Ok::<
                    Seq<(Seq<char>, Seq<char>)>,
                    Seq<char>,
                >(consent_pairs(client_id@, state@, pkce_s256(verifier@), redirect_uri@, scopes@))
            },
            Err(m) => match url_query_pairs(endpoint@) {
                Err(e) => m@ == e,
                Ok(_) => url_query_pairs(redirect_uri@) == Err::<Seq<(Seq<char>, Seq<char>)>, Seq<char>>(m@),
            },
        },
{
    let auth = AuthUrl::new(endpoint.to_string()).map_err(|e| e.to_string())?;
    let redirect = RedirectUrl::new(redirect_uri.to_string()).map_err(|e| e.to_string())?;
    let verifier = PkceCodeVerifier::new(verifier.to_string());
    let client = BasicClient::new(ClientId::new(client_id.to_string()), None, auth, None);
    let (url, state) = client
        .set_redirect_uri(redirect)
        .authorize_url(CsrfToken::new_random)
        .add_scope(Scope::new(scopes.to_string()))
        .set_pkce_challenge(PkceCodeChallenge::from_code_verifier_sha256(&verifier))
        .url();
    Ok((url.to_string(), state.secret().to_string()))
}

/// Google's OAuth 2.0 consent endpoint.
pub open spec fn google_auth_endpoint() -> Seq<char> {
    "https://accounts.google.com/o/oauth2/v2/auth"@
}

/// The Google consent request of a sign-in (Gmail, Google Chat): the consent
/// URL, with a random CSRF state and the S256 challenge of a fresh PKCE code
/// verifier, and that verifier for the code exchange. It fails, with the
/// `url` parser's message as an OAuth error, exactly when the redirect address
/// is not a URL.
pub fn google_consent_request(client_id: &str, redirect_uri: &str, scopes: &str) -> (res: Result<
    (String, String),
    IntegrationError,
>)
    ensures
        res is Ok <==> (url_query_pairs(google_auth_endpoint()) is Ok && url_query_pairs(
            redirect_uri@,
        ) is Ok),
        res matches Ok((url, verifier)) ==> {
            &&& encode_utf8(verifier@).len() == 43
            &&& exists|state: Seq<char>|
                url_query_pairs(url@) == Ok::<Seq<(Seq<char>, Seq<char>)>, Seq<char>>(
                    #[trigger] consent_pairs(client_id@, state, pkce_s256(verifier@), redirect_uri@, scopes@),
                )
        },
        res matches Err(e) ==> (e matches IntegrationError::OAuth(m) && match url_query_pairs(
            google_auth_endpoint(),
        ) {
            Err(x) => m@ == x,
            Ok(_) => url_query_pairs(redirect_uri@) == Err::<Seq<(Seq<char>, Seq<char>)>, Seq<char>>(m@),
        }),
{
    let (verifier, _challenge) = random_pkce();
    let endpoint = "https://accounts.google.com/o/oauth2/v2/auth";
    proof {
        reveal_strlit("https://accounts.google.com/o/oauth2/v2/auth");
        assert(!endpoint@.contains('?'));
    }
    match oauth2_authorize_url(endpoint, client_id, redirect_uri, scopes, verifier.as_str()) {
        Ok((url, state)) => {
            assert(url_query_pairs(url@) == Ok::<Seq<(Seq<char>, Seq<char>)>, Seq<char>>(
                consent_pairs(client_id@, state@, pkce_s256(verifier@), redirect_uri@, scopes@),
            ));
            Ok((url, verifier))
        },
        Err(m) => Err(IntegrationError::OAuth(m)),
    }
}

/// What `serde_json` writes for a JSON string holding the given text (the
/// text quoted, with JSON escapes).
pub uninterp spec fn json_text(s: Seq<char>) -> Seq<char>;

/// `serde_json::Value::String(..).to_string()`; its result is named.
#[verifier::external_body]
fn json_string(s: &str) -> (res: String)
    ensures
        res@ == json_text(s@),
{
    serde_json::Value::String(s.to_string()).to_string()
}

/// A JSON value that is a string or `null`.
pub open spec fn json_opt_text(o: Option<Seq<char>>) -> Seq<char> {
    match o {
        Some(s) => json_text(s),
        None => "null"@,
    }
}

fn json_opt_string(o: &Option<String>) -> (res: String)
    ensures
        res@ == json_opt_text(opt_text(*o)),
{
    match o {
        Some(s) => json_string(s.as_str()),
        None => String::from_str("null"),
    }
}

/// The stored token of a Gmail sign-in: a compact JSON object with the access
/// token, its expiry time (or `null`) and the refresh token (or `null`), keys
/// in sorted order.
pub fn google_token_json(access_token: &str, refresh_token: &Option<String>, expires_at: &Option<String>) -> (res: String)
    ensures
        res@ == "{\"access_token\":"@ + json_text(access_token@) + ",\"expires_at\":"@ + json_opt_text(
            opt_text(*expires_at),
        ) + ",\"refresh_token\":"@ + json_opt_text(opt_text(*refresh_token)) + "}"@,
{
    let mut s = String::from_str("{\"access_token\":");
    let a = json_string(access_token);
    s.append(a.as_str());
    s.append(",\"expires_at\":");
    let e = json_opt_string(expires_at);
    s.append(e.as_str());
    s.append(",\"refresh_token\":");
    let r = json_opt_string(refresh_token);
    s.append(r.as_str());
    s.append("}");
    s
}

/// The stored token of a Google Chat sign-in: a compact JSON object with the
/// access token and the refresh token (or `null`).
pub fn google_chat_token_json(access_token: &str, refresh_token: &Option<String>) -> (res: String)
    ensures
        res@ == "{\"access_token\":"@ + json_text(access_token@) + ",\"refresh_token\":"@
            + json_opt_text(opt_text(*refresh_token)) + "}"@,
{
    let mut s = String::from_str("{\"access_token\":");
    let a = json_string(access_token);
    s.append(a.as_str());
    s.append(",\"refresh_token\":");
    let r = json_opt_string(refresh_token);
    s.append(r.as_str());
    s.append("}");
    s
}

/// The stored token of a Slack sign-in: a compact JSON object with the access
/// token and the workspace name (each `null` when Slack gave none).
pub fn slack_token_json(access_token: &Option<String>, team: &Option<String>) -> (res: String)
    ensures
        res@ == "{\"access_token\":"@ + json_opt_text(opt_text(*access_token)) + ",\"team\":"@
            + json_opt_text(opt_text(*team)) + "}"@,
{
    let mut s = String::from_str("{\"access_token\":");
    let a = json_opt_string(access_token);
    s.append(a.as_str());
    s.append(",\"team\":");
    let t = json_opt_string(team);
    s.append(t.as_str());
    s.append("}");
    s
}

} // verus!
