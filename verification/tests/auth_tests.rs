use spotify_cli::auth::{
    authorize_url, exchange_form, expiry_after, expiry_time, generate_code_challenge, generate_code_verifier,
    generate_state, plan_at_time, plan_for, redirect_uri, refresh_form, scopes_text, token_endpoint,
    token_error_message, token_from_exchange, token_from_refresh, AuthPlan, TokenData,
    TokenResponse,
};
use spotify_cli::config::Config;

fn config() -> Config {
    Config { client_id: "cid".into(), client_secret: "sec".into(), redirect_port: 8888 }
}

fn token(expires_at: u64) -> TokenData {
    TokenData { access_token: "acc".into(), refresh_token: "ref".into(), expires_at }
}

fn pairs(v: &[(&str, &str)]) -> Vec<(String, String)> {
    v.iter().map(|(a, b)| (a.to_string(), b.to_string())).collect()
}

#[test]
fn expiry_has_a_minute_of_margin() {
    let t = token(1_000);
    assert!(!t.is_expired_at(939));
    assert!(t.is_expired_at(940));
    assert!(t.is_expired_at(5_000));
    assert!(token(30).is_expired_at(0));
}

#[test]
fn expired_stays_expired() {
    let t = token(1_000);
    for now in [940u64, 941, 2_000, u64::MAX] {
        assert!(t.is_expired_at(now));
    }
}

#[test]
fn clock_based_checks() {
    assert!(token(0).is_expired());
    assert!(!token(u64::MAX).is_expired());
    let e = expiry_time(3600).unwrap();
    assert!(e >= 3600);
    assert_eq!(expiry_time(u64::MAX), None);
}

#[test]
fn plan_follows_expiry() {
    assert_eq!(plan_for(None), AuthPlan::Authorize);
    assert_eq!(plan_for(Some(token(u64::MAX))), AuthPlan::UseStored(token(u64::MAX)));
    assert_eq!(plan_for(Some(token(10))), AuthPlan::Refresh(token(10)));
}

#[test]
fn tokens_from_responses() {
    let resp = TokenResponse { access_token: "new".into(), refresh_token: None, expires_in: 3600 };
    let t = token_from_exchange(resp.clone(), 7);
    assert_eq!(t, TokenData { access_token: "new".into(), refresh_token: "".into(), expires_at: 7 });
    let r = token_from_refresh(resp, &token(1), 9);
    assert_eq!(r, TokenData { access_token: "new".into(), refresh_token: "ref".into(), expires_at: 9 });
    let resp2 = TokenResponse { access_token: "n2".into(), refresh_token: Some("r2".into()), expires_in: 1 };
    assert_eq!(token_from_refresh(resp2.clone(), &token(1), 3).refresh_token, "r2");
    assert_eq!(token_from_exchange(resp2, 3).refresh_token, "r2");
}

#[test]
fn forms_and_endpoints() {
    assert_eq!(redirect_uri(8888), "http://localhost:8888/callback");
    assert_eq!(redirect_uri(0), "http://localhost:0/callback");
    assert_eq!(
        exchange_form("the-code", "ver", &config()),
        pairs(&[
            ("grant_type", "authorization_code"),
            ("code", "the-code"),
            ("redirect_uri", "http://localhost:8888/callback"),
            ("client_id", "cid"),
            ("code_verifier", "ver"),
        ])
    );
    assert_eq!(
        refresh_form(&token(1), &config()),
        pairs(&[("grant_type", "refresh_token"), ("refresh_token", "ref"), ("client_id", "cid"), ("client_secret", "sec")])
    );
    assert_eq!(token_endpoint(), "https://accounts.spotify.com/api/token");
    assert_eq!(token_error_message(false, "bad"), "Token exchange failed: bad");
    assert_eq!(token_error_message(true, "bad"), "Token refresh failed: bad");
}

#[test]
fn authorize_url_parameters() {
    let url = authorize_url(&config(), "st", "ch");
    assert_eq!(
        url,
        "https://accounts.spotify.com/authorize?client_id=cid&response_type=code&redirect_uri=http%3A%2F%2Flocalhost%3A8888%2Fcallback&scope=user-read-playback-state%20user-modify-playback-state%20user-read-currently-playing%20playlist-read-private%20playlist-read-collaborative%20user-library-read%20user-library-modify%20user-read-recently-played&state=st&code_challenge_method=S256&code_challenge=ch"
    );
    assert_eq!(scopes_text().split(' ').count(), 8);
}

#[test]
fn pkce_challenge_matches_rfc_7636() {
    assert_eq!(
        generate_code_challenge("dBjftJeZ4CVP-mB92K27uhbUJU1p1r_wW1gFWFOEjXk"),
        "E9Melhoa2OwvFrEMTJguCHaoeK1t8URWbuGJSstw-cM"
    );
}

#[test]
fn verifier_and_state_shapes() {
    let v = generate_code_verifier();
    assert_eq!(v.len(), 86);
    assert!(v.chars().all(|c| c.is_ascii_alphanumeric() || c == '-' || c == '_'));
    let s = generate_state();
    assert_eq!(s.len(), 22);
    assert_ne!(generate_state(), generate_state());
}

#[test]
fn expiry_for_clock_readings() {
    assert_eq!(expiry_after(Some(1_000), 3_600), Some(4_600));
    assert_eq!(expiry_after(Some(u64::MAX - 5), 5), Some(u64::MAX));
    assert_eq!(expiry_after(Some(u64::MAX - 5), 6), None);
    assert_eq!(expiry_after(None, 1), None);
}

#[test]
fn plan_at_given_time() {
    assert_eq!(plan_at_time(None, 5), AuthPlan::Authorize);
    assert_eq!(plan_at_time(Some(token(1_000)), 939), AuthPlan::UseStored(token(1_000)));
    assert_eq!(plan_at_time(Some(token(1_000)), 940), AuthPlan::Refresh(token(1_000)));
}

#[test]
fn challenge_shape() {
    let c = generate_code_challenge("");
    assert_eq!(c, "47DEQpj8HBSa-_TImW-5JCeuQeRkm5NMpJWZG3hSuFU");
    assert_eq!(generate_code_challenge(&generate_code_verifier()).len(), 43);
}
