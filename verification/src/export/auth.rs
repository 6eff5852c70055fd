//! The OAuth2 credential lifecycle for the spreadsheet API: credential
//! freshness, the authorization URL, the decisions of the loopback
//! callback, and the token exchange bookkeeping. All file, browser and
//! network traffic stays with the caller; this module holds the rules.

use vstd::prelude::*;
use vstd::string::StringExecFns;
use crate::clock::unix_time_now;
use crate::text::{opt_str_view, pairs_get, pairs_lookup, str_eq};
use crate::urlenc::{percent_encode, percent_encoded};

verus! {

/// What can go wrong in the OAuth2 flow.
#[derive(Debug, Clone, PartialEq, Eq)]
pub enum AuthError {
    /// The credentials file could not be read.
    CredentialsReadError(String),
    /// The credentials file held malformed data.
    CredentialsParsError(String),
    /// The credentials data had the wrong shape.
    InvalidCredentialsFormat,
    /// The authorization flow failed; the payload says why.
    AuthenticationFailed(String),
    /// The stored token is expired and could not be refreshed.
    TokenRefreshFailed(String),
    /// No client credentials were available.
    MissingCredentials,
    /// The loopback listener failed.
    ServerError(String),
    /// The callback URL did not parse.
    UrlParseError(String),
    /// An HTTP request failed.
    HttpError(String),
    /// The user cancelled the authorization flow.
    AuthenticationCancelled,
}

/// The message text of an `AuthError` value.
pub open spec fn spec_auth_error_message(e: AuthError) -> Seq<char> {
    match e {
        AuthError::CredentialsReadError(s) => "Failed to read credentials file: "@ + s@,
        AuthError::CredentialsParsError(s) => "Failed to parse credentials: "@ + s@,
        AuthError::InvalidCredentialsFormat => "Invalid credentials format"@,
        AuthError::AuthenticationFailed(s) => "Authentication failed: "@ + s@,
        AuthError::TokenRefreshFailed(s) => "Token refresh failed: "@ + s@,
        AuthError::MissingCredentials => "Missing required OAuth credentials"@,
        AuthError::ServerError(s) => "OAuth server error: "@ + s@,
        AuthError::UrlParseError(s) => "URL parse error: "@ + s@,
        AuthError::HttpError(s) => "HTTP request error: "@ + s@,
        AuthError::AuthenticationCancelled => "User cancelled authentication"@,
    }
}

impl AuthError {
    /// Renders the error as a one-line message.
    pub fn message(&self) -> (r: String)
        ensures
            r@ == spec_auth_error_message(*self),
    {
        let mut m = String::new();
        match self {
            AuthError::CredentialsReadError(s) => {
                m.append("Failed to read credentials file: ");
                m.append(s.as_str());
            },
            AuthError::CredentialsParsError(s) => {
                m.append("Failed to parse credentials: ");
                m.append(s.as_str());
            },
            AuthError::InvalidCredentialsFormat => {
                m.append("Invalid credentials format");
            },
            AuthError::AuthenticationFailed(s) => {
                m.append("Authentication failed: ");
                m.append(s.as_str());
            },
            AuthError::TokenRefreshFailed(s) => {
                m.append("Token refresh failed: ");
                m.append(s.as_str());
            },
            AuthError::MissingCredentials => {
                m.append("Missing required OAuth credentials");
            },
            AuthError::ServerError(s) => {
                m.append("OAuth server error: ");
                m.append(s.as_str());
            },
            AuthError::UrlParseError(s) => {
                m.append("URL parse error: ");
                m.append(s.as_str());
            },
            AuthError::HttpError(s) => {
                m.append("HTTP request error: ");
                m.append(s.as_str());
            },
            AuthError::AuthenticationCancelled => {
                m.append("User cancelled authentication");
            },
        }
        proof {
            assert(m@ =~= spec_auth_error_message(*self));
        }
        m
    }
}

/// OAuth2 credentials: a bearer token with its absolute expiry time.
#[derive(Debug, Clone)]
pub struct OAuthCredentials {
    /// The access token.
    pub access_token: String,
    /// The token type, normally "Bearer".
    pub token_type: String,
    /// Absolute expiry time, as seconds since the UNIX epoch.
    pub expires_at: i64,
    /// The refresh token, when the provider issued one.
    pub refresh_token: Option<String>,
}

impl OAuthCredentials {
    /// Whether the credentials count as expired at time `now`: within 60
    /// seconds of the expiry timestamp.
    pub open spec fn spec_is_expired_at(self, now: int) -> bool {
        self.expires_at <= now + 60
    }

    /// Whether the credentials count as expired at time `now`.
    pub fn is_expired_at(&self, now: i64) -> (r: bool)
        ensures
            r == self.spec_is_expired_at(now as int),
    {
        if now > i64::MAX - 60 {
            true
        } else {
            self.expires_at <= now + 60
        }
    }

    /// Whether the credentials count as expired now. Reads the wall clock;
    /// the 60-second skew rule itself is stated on `is_expired_at`.
    pub fn is_expired(&self) -> (r: bool)
        ensures
            exists|now: int| 0 <= now && r == self.spec_is_expired_at(now),
    {
        let now = unix_time_now();
        let r = self.is_expired_at(now);
        proof {
            assert(0 <= now as int && r == self.spec_is_expired_at(now as int));
        }
        r
    }
}

/// A token-endpoint response: the fields the provider returns from the
/// authorization-code exchange.
#[derive(Debug, Clone)]
pub struct TokenResponse {
    /// The access token.
    pub access_token: String,
    /// The token type, normally "Bearer".
    pub token_type: String,
    /// Lifetime of the token, in seconds.
    pub expires_in: u64,
    /// The refresh token, when the provider issued one.
    pub refresh_token: Option<String>,
    /// The granted scope, when reported.
    pub scope: Option<String>,
}

/// The scope the pipeline asks for.
pub open spec fn spec_sheets_scope() -> Seq<char> {
    "https://www.googleapis.com/auth/spreadsheets"@
}

/// OAuth2 client settings.
#[derive(Debug, Clone)]
pub struct OAuthConfig {
    /// The client id issued by the provider.
    pub client_id: String,
    /// The client secret issued by the provider.
    pub client_secret: String,
    /// The redirect URI registered for the loopback listener.
    pub redirect_uri: String,
    /// The scopes to request.
    pub scopes: Option<Vec<String>>,
}

impl OAuthConfig {
    /// A configuration with the spreadsheet scope.
    pub fn new(client_id: String, client_secret: String, redirect_uri: String) -> (r:
        OAuthConfig)
        ensures
            r.client_id@ == client_id@,
            r.client_secret@ == client_secret@,
            r.redirect_uri@ == redirect_uri@,
            match r.scopes {
                Some(v) => v@.len() == 1 && v@[0]@ == spec_sheets_scope(),
                None => false,
            },
    {
        let mut scope = String::new();
        scope.append("https://www.googleapis.com/auth/spreadsheets");
        let mut scopes: Vec<String> = Vec::new();
        scopes.push(scope);
        OAuthConfig { client_id, client_secret, redirect_uri, scopes: Some(scopes) }
    }

    /// The provider's authorization URL for this configuration and the
    /// given state nonce.
    pub fn authorization_url(&self, state: &str) -> (r: String)
        ensures
            r@ == "https://accounts.google.com/o/oauth2/v2/auth?response_type=code&client_id="@
                + self.client_id@ + "&redirect_uri="@ + percent_encoded(self.redirect_uri@)
                + "&scope="@ + percent_encoded(spec_sheets_scope()) + "&state="@ + state@,
    {
        let mut r = String::new();
        r.append("https://accounts.google.com/o/oauth2/v2/auth?response_type=code&client_id=");
        r.append(self.client_id.as_str());
        r.append("&redirect_uri=");
        let enc_redirect = percent_encode(self.redirect_uri.as_str());
        r.append(enc_redirect.as_str());
        r.append("&scope=");
        let enc_scope = percent_encode("https://www.googleapis.com/auth/spreadsheets");
        r.append(enc_scope.as_str());
        r.append("&state=");
        r.append(state);
        proof {
            assert(r@ =~= "https://accounts.google.com/o/oauth2/v2/auth?response_type=code&client_id="@
                + self.client_id@ + "&redirect_uri="@ + percent_encoded(self.redirect_uri@)
                + "&scope="@ + percent_encoded(spec_sheets_scope()) + "&state="@ + state@);
        }
        r
    }
}

/// The form parameters of the authorization-code token exchange.
pub fn token_request_params(config: &OAuthConfig, code: &str) -> (r: Vec<(String, String)>)
    ensures
        r@.len() == 5,
        r@[0].0@ == "code"@ && r@[0].1@ == code@,
        r@[1].0@ == "client_id"@ && r@[1].1@ == config.client_id@,
        r@[2].0@ == "client_secret"@ && r@[2].1@ == config.client_secret@,
        r@[3].0@ == "redirect_uri"@ && r@[3].1@ == config.redirect_uri@,
        r@[4].0@ == "grant_type"@ && r@[4].1@ == "authorization_code"@,
{
    let mut r: Vec<(String, String)> = Vec::new();
    let mut k = String::new();
    k.append("code");
    let mut v = String::new();
    v.append(code);
    r.push((k, v));
    let mut k = String::new();
    k.append("client_id");
    r.push((k, config.client_id.clone()));
    let mut k = String::new();
    k.append("client_secret");
    r.push((k, config.client_secret.clone()));
    let mut k = String::new();
    k.append("redirect_uri");
    r.push((k, config.redirect_uri.clone()));
    let mut k = String::new();
    k.append("grant_type");
    let mut v = String::new();
    v.append("authorization_code");
    r.push((k, v));
    r
}

/// The credentials recorded after a successful token exchange at time
/// `now`: the token and type as returned, expiry at `now` plus the
/// returned lifetime.
pub fn credentials_from_token_response(tr: TokenResponse, now: i64) -> (r: OAuthCredentials)
    requires
        0 <= now,
        now + tr.expires_in <= i64::MAX,
    ensures
        r.access_token@ == tr.access_token@,
        r.token_type@ == tr.token_type@,
        r.expires_at == now + tr.expires_in,
        opt_str_view(r.refresh_token) == opt_str_view(tr.refresh_token),
{
    OAuthCredentials {
        access_token: tr.access_token,
        token_type: tr.token_type,
        expires_at: now + (tr.expires_in as i64),
        refresh_token: tr.refresh_token,
    }
}

/// Accepts loaded credentials only while they are fresh at time `now`;
/// expired credentials are rejected with `TokenRefreshFailed`.
pub fn check_credentials_fresh(credentials: OAuthCredentials, now: i64) -> (r: Result<
    OAuthCredentials,
    AuthError,
>)
    ensures
        match r {
            Ok(c) => !credentials.spec_is_expired_at(now as int) && c == credentials,
            Err(e) => credentials.spec_is_expired_at(now as int) && (e matches
                AuthError::TokenRefreshFailed(m) && m@
                == "Token has expired. Please re-authenticate."@),
        },
{
    if credentials.is_expired_at(now) {
        let mut m = String::new();
        m.append("Token has expired. Please re-authenticate.");
        Err(AuthError::TokenRefreshFailed(m))
    } else {
        Ok(credentials)
    }
}

/// What `url::Url::parse` followed by `query_pairs` yields for a URL
/// string: the decoded query key/value pairs in order, or nothing when the
/// string is no URL. A function of the characters alone.
pub uninterp spec fn url_query_pairs(s: Seq<char>) -> Option<Seq<(Seq<char>, Seq<char>)>>;

/// Relies on `url::Url::parse` and `Url::query_pairs`: parses an absolute
/// URL and hands out its decoded query parameters, in order.
#[verifier::external_body]
pub fn parse_callback_query(full_url: &str) -> (r: Option<Vec<(String, String)>>)
    ensures
        match r {
            Some(v) => url_query_pairs(full_url@) == Some(v.deep_view()),
            None => url_query_pairs(full_url@) is None,
        },
{
    match url::Url::parse(full_url) {
        Ok(u) => Some(u.query_pairs().into_owned().collect()),
        Err(_) => None,
    }
}

/// The view of one callback parameter list entry.
pub open spec fn lookup_pair_view(pairs: Seq<(Seq<char>, Seq<char>)>, key: Seq<char>) -> Option<
    Seq<char>,
>
    decreases pairs.len(),
{
    if pairs.len() == 0 {
        None
    } else if pairs[0].0 == key {
        Some(pairs[0].1)
    } else {
        lookup_pair_view(pairs.skip(1), key)
    }
}

/// The outcome the callback listener owes for a parameter list: the
/// authorization code on success, the message of the
/// `AuthenticationFailed` error otherwise.
pub open spec fn spec_callback_outcome(
    pairs: Seq<(Seq<char>, Seq<char>)>,
    expected_state: Seq<char>,
) -> Result<Seq<char>, Seq<char>> {
    match lookup_pair_view(pairs, "error"@) {
        Some(err) => Err(
            err + ": "@ + match lookup_pair_view(pairs, "error_description"@) {
                Some(d) => d,
                None => "Unknown error"@,
            },
        ),
        None => match lookup_pair_view(pairs, "state"@) {
            Some(st) => if st != expected_state {
                Err("State mismatch"@)
            } else {
                match lookup_pair_view(pairs, "code"@) {
                    Some(c) => Ok(c),
                    None => Err("Missing authorization code"@),
                }
            },
            None => Err("Missing state parameter"@),
        },
    }
}

/// Relates the executable lookup over `(String, String)` pairs to the
/// lookup over their views.
proof fn lemma_pairs_lookup_view(pairs: Seq<(String, String)>, key: Seq<char>)
    ensures
        opt_str_view(pairs_lookup(pairs, key)) == lookup_pair_view(
            pairs.map_values(|p: (String, String)| (p.0@, p.1@)),
            key,
        ),
    decreases pairs.len(),
{
    let mapped = pairs.map_values(|p: (String, String)| (p.0@, p.1@));
    if pairs.len() == 0 {
    } else {
        lemma_pairs_lookup_view(pairs.skip(1), key);
        assert(pairs.skip(1).map_values(|p: (String, String)| (p.0@, p.1@)) =~= mapped.skip(1));
    }
}

/// Decides what a callback request means: a provider-reported error, a
/// state mismatch, a missing state or code, or the authorization code.
pub fn evaluate_callback(params: &Vec<(String, String)>, expected_state: &str) -> (r: Result<
    String,
    AuthError,
>)
    ensures
        match r {
            Ok(code) => spec_callback_outcome(
                params@.map_values(|p: (String, String)| (p.0@, p.1@)),
                expected_state@,
            ) == Ok::<Seq<char>, Seq<char>>(code@),
            Err(e) => e matches AuthError::AuthenticationFailed(m) && spec_callback_outcome(
                params@.map_values(|p: (String, String)| (p.0@, p.1@)),
                expected_state@,
            ) == Err::<Seq<char>, Seq<char>>(m@),
        },
{
    proof {
        lemma_pairs_lookup_view(params@, "error"@);
        lemma_pairs_lookup_view(params@, "error_description"@);
        lemma_pairs_lookup_view(params@, "state"@);
        lemma_pairs_lookup_view(params@, "code"@);
    }
    match pairs_get(params, "error") {
        Some(err) => {
            let mut m = String::new();
            m.append(err.as_str());
            m.append(": ");
            match pairs_get(params, "error_description") {
                Some(d) => {
                    m.append(d.as_str());
                },
                None => {
                    m.append("Unknown error");
                },
            }
            Err(AuthError::AuthenticationFailed(m))
        },
        None => {
            match pairs_get(params, "state") {
                Some(st) => {
                    if !str_eq(st.as_str(), expected_state) {
                        let mut m = String::new();
                        m.append("State mismatch");
                        Err(AuthError::AuthenticationFailed(m))
                    } else {
                        match pairs_get(params, "code") {
                            Some(c) => {
                                let mut code = String::new();
                                code.append(c.as_str());
                                Ok(code)
                            },
                            None => {
                                let mut m = String::new();
                                m.append("Missing authorization code");
                                Err(AuthError::AuthenticationFailed(m))
                            },
                        }
                    }
                },
                None => {
                    let mut m = String::new();
                    m.append("Missing state parameter");
                    Err(AuthError::AuthenticationFailed(m))
                },
            }
        },
    }
}

/// The authentication manager: the per-user locations of the credentials
/// file and the OAuth client configuration file, derived from the
/// platform's configuration directory.
#[derive(Debug, Clone)]
pub struct GoogleSheetsAuth {
    /// Where the credentials are persisted.
    pub credentials_path: String,
    /// Where the OAuth client configuration is read from.
    pub config_path: String,
}

impl GoogleSheetsAuth {
    /// A manager whose files live under `config_dir/trpg-json/`.
    pub fn new(config_dir: &str) -> (r: GoogleSheetsAuth)
        ensures
            r.credentials_path@ == config_dir@ + "/trpg-json/credentials.json"@,
            r.config_path@ == config_dir@ + "/trpg-json/oauth_config.json"@,
    {
        let mut credentials_path = String::new();
        credentials_path.append(config_dir);
        credentials_path.append("/trpg-json/credentials.json");
        let mut config_path = String::new();
        config_path.append(config_dir);
        config_path.append("/trpg-json/oauth_config.json");
        proof {
            assert(Seq::<char>::empty() + config_dir@ + "/trpg-json/credentials.json"@
                =~= config_dir@ + "/trpg-json/credentials.json"@);
            assert(Seq::<char>::empty() + config_dir@ + "/trpg-json/oauth_config.json"@
                =~= config_dir@ + "/trpg-json/oauth_config.json"@);
        }
        GoogleSheetsAuth { credentials_path, config_path }
    }
}

} // verus!
