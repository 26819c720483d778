use trade_metrics::oauth::{check_api_key, client_matches, route_of, KeyCheck, Route, Secrets};

#[test]
fn paths_route_to_endpoints() {
    assert_eq!(route_of("/oauth/ping"), Route::Ping);
    assert_eq!(route_of("/oauth/token"), Route::Token);
    assert_eq!(route_of("/oauth/tokens"), Route::NotFound);
    assert_eq!(route_of(""), Route::NotFound);
}

#[test]
fn api_key_checks() {
    assert_eq!(check_api_key(None, "k1"), KeyCheck::Missing);
    assert_eq!(check_api_key(Some("k2"), "k1"), KeyCheck::Unauthorized);
    assert_eq!(check_api_key(Some("k1"), "k1"), KeyCheck::Authorized);
}

#[test]
fn only_the_stored_client_matches() {
    assert!(client_matches("client-a", "client-a"));
    assert!(!client_matches("client-b", "client-a"));
}

#[test]
fn secrets_take_values_in_order() {
    let values = ["id".to_string(), "secret".to_string(), "token".to_string()];
    let s = Secrets::from_values(&values);
    assert_eq!(s.client_id, "id");
    assert_eq!(s.client_secret, "secret");
    assert_eq!(s.refresh_token, "token");
}
