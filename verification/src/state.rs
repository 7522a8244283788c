//! The process-wide state: the credential store, the access-token cache and
//! the chat-completion configuration, held in one explicitly constructed
//! value that the composition root owns and passes to each operation.
//!
//! The cache policy: a stored token is used only while more than
//! [`crate::TOKEN_REFRESH_MARGIN_SECS`] seconds of validity remain, and
//! overwriting the credentials always drops the stored token, whatever its
//! remaining validity.

use crate::TOKEN_REFRESH_MARGIN_SECS;
use crate::errors::ApiError;
use crate::errors::ConfigKind;
use crate::errors::MissingPart;
use vstd::prelude::*;
use vstd::string::StringExecFns;

verus! {

/// The table-service credentials.
#[derive(Debug)]
pub struct FeishuCredentials {
    pub app_id: String,
    pub app_secret: String,
}

/// A cached bearer token and the epoch second at which it expires.
#[derive(Debug)]
pub struct CachedToken {
    pub value: String,
    pub expires_at: i64,
}

/// The chat-completion configuration.
#[derive(Debug)]
pub struct AiConfig {
    pub api_key: String,
    pub api_base: String,
    pub model: String,
}

/// The three process-wide slots. The credentials and the token share a
/// lifecycle; the chat configuration has its own.
#[derive(Debug)]
pub struct AppState {
    pub credentials: Option<FeishuCredentials>,
    pub token: Option<CachedToken>,
    pub ai_config: Option<AiConfig>,
}

impl AppState {
    /// A state with every slot empty.
    pub fn new() -> (r: AppState)
        ensures
            r.credentials is None,
            r.token is None,
            r.ai_config is None,
    {
        AppState { credentials: Option::None, token: Option::None, ai_config: Option::None }
    }
}

/// Whether the cached token may still be used at epoch second `now`: one is
/// stored and more than the refresh margin of its validity remains.
pub open spec fn spec_token_fresh(state: AppState, now: i64) -> bool {
    match state.token {
        Option::Some(t) => now + TOKEN_REFRESH_MARGIN_SECS < t.expires_at,
        Option::None => false,
    }
}

/// Stores new credentials. The cached token is dropped with them: afterwards
/// no instant considers a token fresh, whatever validity the old one had
/// left.
pub fn set_feishu_credentials(state: &mut AppState, app_id: String, app_secret: String) -> (r:
    String)
    ensures
        match final(state).credentials {
            Option::Some(c) => c.app_id == app_id && c.app_secret == app_secret,
            Option::None => false,
        },
        final(state).token is None,
        forall|now: i64| !spec_token_fresh(*final(state), now),
        final(state).ai_config == old(state).ai_config,
        r@ == "凭证已保存"@,
{
    state.credentials = Option::Some(FeishuCredentials { app_id, app_secret });
    state.token = Option::None;
    String::from_str("凭证已保存")
}

/// The cached token, if it is still fresh at `now`; `None` demands a
/// refresh. No slot is touched either way.
pub fn cached_token_if_fresh(state: &AppState, now: i64) -> (r: Option<String>)
    ensures
        match r {
            Option::Some(t) => spec_token_fresh(*state, now) && match state.token {
                Option::Some(c) => t == c.value,
                Option::None => false,
            },
            Option::None => !spec_token_fresh(*state, now),
        },
{
    match &state.token {
        Option::Some(c) => {
            if c.expires_at > i64::MIN + TOKEN_REFRESH_MARGIN_SECS && now < c.expires_at
                - TOKEN_REFRESH_MARGIN_SECS {
                Option::Some(c.value.clone())
            } else {
                Option::None
            }
        },
        Option::None => Option::None,
    }
}

/// The credentials to run a token exchange with, copied out so that no lock
/// need be held across the network call; `ConfigMissing` when none are set.
pub fn credentials_for_exchange(state: &AppState) -> (r: Result<(String, String), ApiError>)
    ensures
        match r {
            Result::Ok(c) => match state.credentials {
                Option::Some(cr) => c.0 == cr.app_id && c.1 == cr.app_secret,
                Option::None => false,
            },
            Result::Err(e) => state.credentials is None && match e {
                ApiError::ConfigMissing { which } => which == ConfigKind::Feishu,
                _ => false,
            },
        },
{
    match &state.credentials {
        Option::Some(cr) => Result::Ok((cr.app_id.clone(), cr.app_secret.clone())),
        Option::None => Result::Err(ApiError::ConfigMissing { which: ConfigKind::Feishu }),
    }
}

/// The token-exchange response envelope.
#[derive(Debug)]
pub struct AccessTokenResponse {
    pub code: i32,
    pub msg: String,
    pub tenant_access_token: Option<String>,
    pub expire: Option<i32>,
}

/// Validity assumed for a token whose response names none.
pub const DEFAULT_TOKEN_TTL_SECS: i64 = 7200;

/// The validity in seconds that a token-exchange response grants.
pub open spec fn spec_response_ttl(resp: AccessTokenResponse) -> int {
    match resp.expire {
        Option::Some(e) => e as int,
        Option::None => DEFAULT_TOKEN_TTL_SECS as int,
    }
}

/// Judges a token-exchange response: a non-zero envelope code is an upstream
/// failure, a zero code without a token field a protocol failure, and
/// otherwise the token is returned with its validity in seconds.
pub fn evaluate_token_response(resp: AccessTokenResponse) -> (r: Result<(String, i64), ApiError>)
    ensures
        match r {
            Result::Ok(p) => resp.code == 0 && resp.tenant_access_token == Option::Some(p.0)
                && p.1 as int == spec_response_ttl(resp),
            Result::Err(e) => match e {
                ApiError::Upstream { code, msg } => resp.code != 0 && code == resp.code && msg
                    == resp.msg,
                ApiError::Protocol { missing } => resp.code == 0 && resp.tenant_access_token
                    is None && missing == MissingPart::TokenField,
                _ => false,
            },
        },
{
    if resp.code != 0 {
        return Result::Err(ApiError::Upstream { code: resp.code, msg: resp.msg });
    }
    match resp.tenant_access_token {
        Option::Some(tok) => {
            let ttl: i64 = match resp.expire {
                Option::Some(e) => e as i64,
                Option::None => DEFAULT_TOKEN_TTL_SECS,
            };
            Result::Ok((tok, ttl))
        },
        Option::None => Result::Err(ApiError::Protocol { missing: MissingPart::TokenField }),
    }
}

/// Overwrites the cache wholesale with a token obtained at `now` that is
/// valid for `ttl` seconds. The other slots are untouched.
pub fn store_token(state: &mut AppState, value: String, now: i64, ttl: i64)
    requires
        i64::MIN <= now + ttl <= i64::MAX,
    ensures
        match final(state).token {
            Option::Some(t) => t.value == value && t.expires_at == now + ttl,
            Option::None => false,
        },
        final(state).credentials == old(state).credentials,
        final(state).ai_config == old(state).ai_config,
{
    state.token = Option::Some(CachedToken { value, expires_at: now + ttl });
}

/// Judges a token-exchange response at epoch second `now` and, on success,
/// overwrites the cache with the new token before handing it back. On
/// failure the state is left as it was. `now` must be non-negative and small
/// enough that the expiry second fits the machine integer.
pub fn accept_token_response(state: &mut AppState, resp: AccessTokenResponse, now: i64) -> (r:
    Result<String, ApiError>)
    requires
        0 <= now,
        now + 0x8000_0000 <= i64::MAX,
    ensures
        match r {
            Result::Ok(tok) => resp.code == 0 && resp.tenant_access_token == Option::Some(tok)
                && match final(state).token {
                Option::Some(t) => t.value == tok && t.expires_at == now + spec_response_ttl(resp),
                Option::None => false,
            } && final(state).credentials == old(state).credentials && final(state).ai_config
                == old(state).ai_config,
            Result::Err(e) => *final(state) == *old(state) && match e {
                ApiError::Upstream { code, msg } => resp.code != 0 && code == resp.code && msg
                    == resp.msg,
                ApiError::Protocol { missing } => resp.code == 0 && resp.tenant_access_token
                    is None && missing == MissingPart::TokenField,
                _ => false,
            },
        },
{
    match evaluate_token_response(resp) {
        Result::Ok(p) => {
            let (tok, ttl) = p;
            let stored = tok.clone();
            store_token(state, stored, now, ttl);
            Result::Ok(tok)
        },
        Result::Err(e) => Result::Err(e),
    }
}

/// Stores the chat-completion configuration. The credential and token slots
/// are untouched: the two lifecycles are independent.
pub fn set_ai_config(state: &mut AppState, config: AiConfig)
    ensures
        final(state).ai_config == Option::Some(config),
        final(state).credentials == old(state).credentials,
        final(state).token == old(state).token,
{
    state.ai_config = Option::Some(config);
}

/// The chat-completion configuration, copied out for a call; `ConfigMissing`
/// when none is set.
pub fn ai_config_for_call(state: &AppState) -> (r: Result<AiConfig, ApiError>)
    ensures
        match r {
            Result::Ok(c) => match state.ai_config {
                Option::Some(cfg) => c.api_key == cfg.api_key && c.api_base == cfg.api_base
                    && c.model == cfg.model,
                Option::None => false,
            },
            Result::Err(e) => state.ai_config is None && match e {
                ApiError::ConfigMissing { which } => which == ConfigKind::Ai,
                _ => false,
            },
        },
{
    match &state.ai_config {
        Option::Some(cfg) => Result::Ok(
            AiConfig {
                api_key: cfg.api_key.clone(),
                api_base: cfg.api_base.clone(),
                model: cfg.model.clone(),
            },
        ),
        Option::None => Result::Err(ApiError::ConfigMissing { which: ConfigKind::Ai }),
    }
}

/// The origin and versioned path of the token-exchange endpoint.
pub fn token_exchange_url() -> (r: String)
    ensures
        r@ == "https://open.feishu.cn/open-apis/auth/v3/tenant_access_token/internal"@,
{
    String::from_str("https://open.feishu.cn/open-apis/auth/v3/tenant_access_token/internal")
}

/// The JSON body of a token-exchange request for the given credentials.
pub open spec fn spec_token_request_body(app_id: Seq<char>, app_secret: Seq<char>) -> Seq<char> {
    "{\"app_id\":\""@ + crate::fields::spec_escape_string(app_id) + "\",\"app_secret\":\""@
        + crate::fields::spec_escape_string(app_secret) + "\"}"@
}

/// Frames the token-exchange request body.
pub fn build_token_request_body(app_id: &str, app_secret: &str) -> (r: String)
    ensures
        r@ == spec_token_request_body(app_id@, app_secret@),
{
    let mut out = String::from_str("{\"app_id\":\"");
    crate::fields::append_escaped(&mut out, app_id);
    out.append("\",\"app_secret\":\"");
    crate::fields::append_escaped(&mut out, app_secret);
    out.append("\"}");
    out
}

} // verus!
