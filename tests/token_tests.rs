use gaise::token::{
    get_auth_header_value, GoogleAccessToken, GoogleClaims, ServiceAccount, TokenState, TokenStep,
};

fn fetched(token: &str, expires_in: usize) -> GoogleAccessToken {
    GoogleAccessToken { access_token: token.to_string(), token_type: "Bearer".to_string(), expires_in }
}

#[test]
fn unset_expiry_fetches_once() {
    let now = 1_700_000_000i64;
    let mut state = TokenState::new();
    let mut fetches = 0;
    for _ in 0..3 {
        match state.get_token(now) {
            TokenStep::Fetch => {
                fetches += 1;
                assert_eq!(state.complete_refresh(fetched("tok", 3600), now), "tok");
            }
            TokenStep::Ready(t) => assert_eq!(t, "tok"),
        }
    }
    assert_eq!(fetches, 1);
    assert_eq!(state.expires_at, Some(now + 3600));
}

#[test]
fn token_ten_minutes_from_expiry_is_kept() {
    let now = 1_700_000_000i64;
    let state = TokenState {
        access_token: "cached".to_string(),
        token_type: "Bearer".to_string(),
        expires_at: Some(now + 600),
    };
    match state.get_token(now) {
        TokenStep::Ready(t) => assert_eq!(t, "cached"),
        TokenStep::Fetch => panic!("no fetch expected"),
    }
}

#[test]
fn token_within_skew_is_refreshed() {
    let now = 1_700_000_000i64;
    let state = TokenState {
        access_token: "cached".to_string(),
        token_type: "Bearer".to_string(),
        expires_at: Some(now + 300),
    };
    assert!(matches!(state.get_token(now), TokenStep::Fetch));
    let later = TokenState { expires_at: Some(now + 301), ..state };
    assert!(matches!(later.get_token(now), TokenStep::Ready(_)));
}

#[test]
fn expiry_saturates() {
    let mut state = TokenState::new();
    state.complete_refresh(fetched("t", usize::MAX), i64::MAX - 5);
    assert_eq!(state.expires_at, Some(i64::MAX));
}

#[test]
fn claims_cover_one_hour() {
    let account = ServiceAccount { private_key: "pk".to_string(), client_email: "svc@example.com".to_string() };
    let claims = GoogleClaims::for_account(&account, 1000);
    assert_eq!(claims.iss, "svc@example.com");
    assert_eq!(claims.scope, "https://www.googleapis.com/auth/cloud-platform");
    assert_eq!(claims.aud, "https://oauth2.googleapis.com/token");
    assert_eq!(claims.iat, 1000);
    assert_eq!(claims.exp, 4600);
}

#[test]
fn auth_header_is_bearer() {
    assert_eq!(get_auth_header_value("abc"), "Bearer abc");
}
