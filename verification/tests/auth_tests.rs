use trpg_json_core::export::auth::{
    check_credentials_fresh, credentials_from_token_response, evaluate_callback,
    parse_callback_query, token_request_params, AuthError, GoogleSheetsAuth, OAuthConfig,
    OAuthCredentials, TokenResponse,
};

fn now_secs() -> i64 {
    std::time::SystemTime::now()
        .duration_since(std::time::UNIX_EPOCH)
        .unwrap()
        .as_secs() as i64
}

#[test]
fn test_oauth_credentials_not_expired() {
    let future_timestamp = now_secs() + 3600;

    let creds = OAuthCredentials {
        access_token: "test_token".to_string(),
        token_type: "Bearer".to_string(),
        expires_at: future_timestamp,
        refresh_token: Some("refresh_token".to_string()),
    };

    assert!(!creds.is_expired());
}

#[test]
fn test_oauth_credentials_expired() {
    let past_timestamp = now_secs() - 3600;

    let creds = OAuthCredentials {
        access_token: "test_token".to_string(),
        token_type: "Bearer".to_string(),
        expires_at: past_timestamp,
        refresh_token: Some("refresh_token".to_string()),
    };

    assert!(creds.is_expired());
}

#[test]
fn test_oauth_credentials_without_refresh_token() {
    let future_timestamp = now_secs() + 7200;

    let creds = OAuthCredentials {
        access_token: "test_token".to_string(),
        token_type: "Bearer".to_string(),
        expires_at: future_timestamp,
        refresh_token: None,
    };

    assert_eq!(creds.refresh_token, None);
    assert!(!creds.is_expired());
}

#[test]
fn test_oauth_credentials_expires_at_boundary() {
    let now = now_secs();
    let boundary_time = now + 60;

    let creds = OAuthCredentials {
        access_token: "test_token".to_string(),
        token_type: "Bearer".to_string(),
        expires_at: boundary_time,
        refresh_token: Some("refresh_token".to_string()),
    };

    assert!(creds.is_expired());
}

#[test]
fn test_is_expired_at_exact_rule() {
    let creds = OAuthCredentials {
        access_token: "t".to_string(),
        token_type: "Bearer".to_string(),
        expires_at: 1_000_060,
        refresh_token: None,
    };
    assert!(creds.is_expired_at(1_000_000));
    assert!(!creds.is_expired_at(999_999));
}

#[test]
fn test_oauth_config_new() {
    let config = OAuthConfig::new(
        "test_client_id".to_string(),
        "test_client_secret".to_string(),
        "http://localhost:8080/callback".to_string(),
    );

    assert_eq!(config.client_id, "test_client_id");
    assert_eq!(config.client_secret, "test_client_secret");
    assert_eq!(config.redirect_uri, "http://localhost:8080/callback");
    assert!(config.scopes.is_some());
    assert_eq!(
        config.scopes.as_ref().unwrap()[0],
        "https://www.googleapis.com/auth/spreadsheets"
    );
}

#[test]
fn test_oauth_config_authorization_url() {
    let config = OAuthConfig::new(
        "test_client_id".to_string(),
        "test_client_secret".to_string(),
        "http://localhost:8080/callback".to_string(),
    );

    let auth_url = config.authorization_url("test_state");

    assert!(auth_url.contains("https://accounts.google.com/o/oauth2/v2/auth"));
    assert!(auth_url.contains("client_id=test_client_id"));
    assert!(auth_url.contains("response_type=code"));
    assert!(auth_url.contains("state=test_state"));
    assert!(auth_url.contains("scope="));
}

#[test]
fn test_authorization_url_percent_encodes() {
    let config = OAuthConfig::new(
        "id".to_string(),
        "secret".to_string(),
        "http://localhost:8080/callback".to_string(),
    );
    let auth_url = config.authorization_url("st");
    // the redirect URI and the scope are percent-encoded, not passed through
    assert!(auth_url.contains("redirect_uri=http%3A%2F%2Flocalhost%3A8080%2Fcallback"));
    assert!(auth_url.contains("scope=https%3A%2F%2Fwww.googleapis.com%2Fauth%2Fspreadsheets"));
    assert!(!auth_url.contains("redirect_uri=http://localhost"));
}

#[test]
fn test_google_sheets_auth_new() {
    let auth = GoogleSheetsAuth::new("/home/user/.config");
    assert_eq!(
        auth.credentials_path,
        "/home/user/.config/trpg-json/credentials.json"
    );
    assert_eq!(auth.config_path, "/home/user/.config/trpg-json/oauth_config.json");
}

#[test]
fn test_check_credentials_fresh_accepts_valid() {
    let creds = OAuthCredentials {
        access_token: "tok".to_string(),
        token_type: "Bearer".to_string(),
        expires_at: 2_000_000,
        refresh_token: None,
    };
    let r = check_credentials_fresh(creds, 1_000_000);
    assert!(r.is_ok());
    assert_eq!(r.unwrap().access_token, "tok");
}

#[test]
fn test_check_credentials_fresh_rejects_expired() {
    let creds = OAuthCredentials {
        access_token: "tok".to_string(),
        token_type: "Bearer".to_string(),
        expires_at: 1_000_000,
        refresh_token: None,
    };
    let r = check_credentials_fresh(creds, 1_000_000);
    match r {
        Err(AuthError::TokenRefreshFailed(m)) => {
            assert_eq!(m, "Token has expired. Please re-authenticate.")
        }
        other => panic!("unexpected: {:?}", other),
    }
}

#[test]
fn test_token_request_params_layout() {
    let config = OAuthConfig::new(
        "cid".to_string(),
        "cs".to_string(),
        "http://localhost:8080/callback".to_string(),
    );
    let params = token_request_params(&config, "authcode");
    assert_eq!(params.len(), 5);
    assert_eq!(params[0], ("code".to_string(), "authcode".to_string()));
    assert_eq!(params[1], ("client_id".to_string(), "cid".to_string()));
    assert_eq!(params[2], ("client_secret".to_string(), "cs".to_string()));
    assert_eq!(
        params[3],
        ("redirect_uri".to_string(), "http://localhost:8080/callback".to_string())
    );
    assert_eq!(
        params[4],
        ("grant_type".to_string(), "authorization_code".to_string())
    );
}

#[test]
fn test_credentials_from_token_response() {
    let tr = TokenResponse {
        access_token: "at".to_string(),
        token_type: "Bearer".to_string(),
        expires_in: 3600,
        refresh_token: Some("rt".to_string()),
        scope: None,
    };
    let creds = credentials_from_token_response(tr, 1_700_000_000);
    assert_eq!(creds.access_token, "at");
    assert_eq!(creds.token_type, "Bearer");
    assert_eq!(creds.expires_at, 1_700_003_600);
    assert_eq!(creds.refresh_token, Some("rt".to_string()));
}

#[test]
fn test_evaluate_callback_success() {
    let params = vec![
        ("state".to_string(), "xyz".to_string()),
        ("code".to_string(), "abc".to_string()),
    ];
    assert_eq!(evaluate_callback(&params, "xyz"), Ok("abc".to_string()));
}

#[test]
fn test_evaluate_callback_state_mismatch() {
    let params = vec![
        ("state".to_string(), "other".to_string()),
        ("code".to_string(), "abc".to_string()),
    ];
    match evaluate_callback(&params, "xyz") {
        Err(AuthError::AuthenticationFailed(m)) => assert_eq!(m, "State mismatch"),
        other => panic!("unexpected: {:?}", other),
    }
}

#[test]
fn test_evaluate_callback_missing_state() {
    let params = vec![("code".to_string(), "abc".to_string())];
    match evaluate_callback(&params, "xyz") {
        Err(AuthError::AuthenticationFailed(m)) => assert_eq!(m, "Missing state parameter"),
        other => panic!("unexpected: {:?}", other),
    }
}

#[test]
fn test_evaluate_callback_missing_code() {
    let params = vec![("state".to_string(), "xyz".to_string())];
    match evaluate_callback(&params, "xyz") {
        Err(AuthError::AuthenticationFailed(m)) => {
            assert_eq!(m, "Missing authorization code")
        }
        other => panic!("unexpected: {:?}", other),
    }
}

#[test]
fn test_evaluate_callback_provider_error() {
    let params = vec![
        ("error".to_string(), "access_denied".to_string()),
        ("error_description".to_string(), "user said no".to_string()),
    ];
    match evaluate_callback(&params, "xyz") {
        Err(AuthError::AuthenticationFailed(m)) => {
            assert_eq!(m, "access_denied: user said no")
        }
        other => panic!("unexpected: {:?}", other),
    }
}

#[test]
fn test_evaluate_callback_provider_error_without_description() {
    let params = vec![("error".to_string(), "access_denied".to_string())];
    match evaluate_callback(&params, "xyz") {
        Err(AuthError::AuthenticationFailed(m)) => {
            assert_eq!(m, "access_denied: Unknown error")
        }
        other => panic!("unexpected: {:?}", other),
    }
}

#[test]
fn test_parse_callback_query_pairs() {
    let pairs =
        parse_callback_query("http://127.0.0.1:8080/callback?code=abc&state=xyz").unwrap();
    assert_eq!(pairs.len(), 2);
    assert_eq!(pairs[0], ("code".to_string(), "abc".to_string()));
    assert_eq!(pairs[1], ("state".to_string(), "xyz".to_string()));
    assert_eq!(evaluate_callback(&pairs, "xyz"), Ok("abc".to_string()));
}

#[test]
fn test_parse_callback_query_decodes() {
    let pairs = parse_callback_query("http://127.0.0.1:8080/callback?code=a%2Fb").unwrap();
    assert_eq!(pairs[0], ("code".to_string(), "a/b".to_string()));
}

#[test]
fn test_parse_callback_query_rejects_garbage() {
    assert!(parse_callback_query("not a url at all").is_none());
}

#[test]
fn test_auth_error_messages() {
    assert_eq!(
        AuthError::MissingCredentials.message(),
        "Missing required OAuth credentials"
    );
    assert_eq!(
        AuthError::TokenRefreshFailed("x".to_string()).message(),
        "Token refresh failed: x"
    );
    assert_eq!(
        AuthError::AuthenticationCancelled.message(),
        "User cancelled authentication"
    );
}
