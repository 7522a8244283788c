use bitable_bridge::errors::ApiError;
use bitable_bridge::errors::ConfigKind;
use bitable_bridge::errors::MissingPart;
use bitable_bridge::state::AccessTokenResponse;
use bitable_bridge::state::AppState;
use bitable_bridge::state::accept_token_response;
use bitable_bridge::state::build_token_request_body;
use bitable_bridge::state::cached_token_if_fresh;
use bitable_bridge::state::credentials_for_exchange;
use bitable_bridge::state::evaluate_token_response;
use bitable_bridge::state::set_feishu_credentials;
use bitable_bridge::state::store_token;
use bitable_bridge::state::token_exchange_url;

const NOW: i64 = 1_700_000_000;

#[test]
fn fresh_token_is_returned_without_refresh() {
    let mut state = AppState::new();
    store_token(&mut state, String::from("tok-1"), NOW, 61);
    let got = cached_token_if_fresh(&state, NOW);
    assert_eq!(got, Some(String::from("tok-1")));
}

#[test]
fn token_inside_refresh_margin_demands_refresh() {
    let mut state = AppState::new();
    store_token(&mut state, String::from("tok-1"), NOW, 59);
    let got = cached_token_if_fresh(&state, NOW);
    assert_eq!(got, None);
}

#[test]
fn token_exactly_at_margin_demands_refresh() {
    let mut state = AppState::new();
    store_token(&mut state, String::from("tok-1"), NOW, 60);
    assert_eq!(cached_token_if_fresh(&state, NOW), None);
}

#[test]
fn new_credentials_invalidate_cached_token() {
    let mut state = AppState::new();
    store_token(&mut state, String::from("tok-1"), NOW, 100_000);
    assert!(cached_token_if_fresh(&state, NOW).is_some());
    let msg = set_feishu_credentials(&mut state, String::from("id2"), String::from("sec2"));
    assert_eq!(msg, "凭证已保存");
    assert!(state.token.is_none());
    assert_eq!(cached_token_if_fresh(&state, NOW), None);
}

#[test]
fn credentials_missing_is_config_error() {
    let state = AppState::new();
    let err = credentials_for_exchange(&state).unwrap_err();
    assert_eq!(err, ApiError::ConfigMissing { which: ConfigKind::Feishu });
    assert_eq!(err.message(), "请先配置飞书凭证");
}

#[test]
fn credentials_are_copied_out_for_exchange() {
    let mut state = AppState::new();
    set_feishu_credentials(&mut state, String::from("app-id"), String::from("app-secret"));
    let (id, secret) = credentials_for_exchange(&state).unwrap();
    assert_eq!(id, "app-id");
    assert_eq!(secret, "app-secret");
}

#[test]
fn token_response_with_zero_code_yields_token_and_ttl() {
    let resp = AccessTokenResponse {
        code: 0,
        msg: String::from("ok"),
        tenant_access_token: Some(String::from("t-abc")),
        expire: Some(5000),
    };
    let (tok, ttl) = evaluate_token_response(resp).unwrap();
    assert_eq!(tok, "t-abc");
    assert_eq!(ttl, 5000);
}

#[test]
fn token_response_without_expire_defaults_to_7200() {
    let resp = AccessTokenResponse {
        code: 0,
        msg: String::from("ok"),
        tenant_access_token: Some(String::from("t")),
        expire: None,
    };
    let (_, ttl) = evaluate_token_response(resp).unwrap();
    assert_eq!(ttl, 7200);
}

#[test]
fn token_response_with_nonzero_code_is_upstream_error() {
    let resp = AccessTokenResponse {
        code: 99991663,
        msg: String::from("app not found"),
        tenant_access_token: None,
        expire: None,
    };
    let err = evaluate_token_response(resp).unwrap_err();
    assert_eq!(err, ApiError::Upstream { code: 99991663, msg: String::from("app not found") });
}

#[test]
fn token_response_without_token_field_is_protocol_error() {
    let resp = AccessTokenResponse {
        code: 0,
        msg: String::from("ok"),
        tenant_access_token: None,
        expire: Some(100),
    };
    let err = evaluate_token_response(resp).unwrap_err();
    assert_eq!(err, ApiError::Protocol { missing: MissingPart::TokenField });
    assert_eq!(err.message(), "响应中缺少 token");
}

#[test]
fn accepted_token_is_cached_with_computed_expiry() {
    let mut state = AppState::new();
    let resp = AccessTokenResponse {
        code: 0,
        msg: String::from("ok"),
        tenant_access_token: Some(String::from("t-new")),
        expire: Some(100),
    };
    let tok = accept_token_response(&mut state, resp, NOW).unwrap();
    assert_eq!(tok, "t-new");
    let cached = state.token.as_ref().unwrap();
    assert_eq!(cached.value, "t-new");
    assert_eq!(cached.expires_at, NOW + 100);
}

#[test]
fn rejected_token_response_leaves_state_unchanged() {
    let mut state = AppState::new();
    store_token(&mut state, String::from("old"), NOW, 30);
    let resp = AccessTokenResponse {
        code: 1,
        msg: String::from("nope"),
        tenant_access_token: None,
        expire: None,
    };
    let err = accept_token_response(&mut state, resp, NOW).unwrap_err();
    assert_eq!(err, ApiError::Upstream { code: 1, msg: String::from("nope") });
    assert_eq!(state.token.as_ref().unwrap().value, "old");
}

#[test]
fn token_exchange_url_is_fixed() {
    assert_eq!(
        token_exchange_url(),
        "https://open.feishu.cn/open-apis/auth/v3/tenant_access_token/internal"
    );
}

#[test]
fn token_request_body_escapes_credentials() {
    let body = build_token_request_body("id\"1", "se\\c");
    assert_eq!(body, "{\"app_id\":\"id\\\"1\",\"app_secret\":\"se\\\\c\"}");
}

#[test]
fn token_request_body_plain() {
    let body = build_token_request_body("cli_a1", "s3cr3t");
    assert_eq!(body, "{\"app_id\":\"cli_a1\",\"app_secret\":\"s3cr3t\"}");
}
