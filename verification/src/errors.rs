//! The closed error taxonomy of the backend.
//!
//! Every operation reports failure through [`ApiError`]. The variants classify
//! the failure; [`ApiError::message`] renders the user-facing text, so that
//! classification and display stay separate.

use vstd::prelude::*;
use vstd::string::StringExecFns;

verus! {

/// Which process-wide configuration slot was found empty.
#[derive(Debug, Clone, PartialEq, Eq)]
pub enum ConfigKind {
    /// The table-service credentials (`app_id`, `app_secret`).
    Feishu,
    /// The chat-completion configuration (`api_key`, `api_base`, `model`).
    Ai,
}

/// How a transport-level failure is classified from its error text.
#[derive(Debug, Clone, PartialEq, Eq)]
pub enum NetworkErrorKind {
    /// The error text speaks of a timeout.
    Timeout,
    /// The error text speaks of name resolution.
    Dns,
    /// The error text speaks of a refused connection.
    ConnectionRefused,
    /// Any other transport failure.
    Other,
}

/// Which expected part of a response was absent or unreadable.
#[derive(Debug, Clone, PartialEq, Eq)]
pub enum MissingPart {
    /// The token exchange succeeded but carried no token field.
    TokenField,
    /// A response envelope carried no data payload.
    DataEnvelope,
    /// A single-record response carried no record payload.
    RecordPayload,
    /// A chat-completion response carried neither an error nor a usable
    /// first choice.
    ReplyChoice,
    /// The response body could not be read as the expected envelope at all.
    Unparsable,
}

/// A failure of one backend operation.
#[derive(Debug, Clone, PartialEq, Eq)]
pub enum ApiError {
    /// A required configuration slot has never been filled.
    ConfigMissing { which: ConfigKind },
    /// The remote service could not be reached; `detail` is the transport
    /// error text, `kind` its classification.
    Network { kind: NetworkErrorKind, detail: String },
    /// The remote service was reached and reported failure, through an HTTP
    /// status or a non-zero envelope code.
    Upstream { code: i32, msg: String },
    /// The remote service reported success but the response lacked an
    /// expected part.
    Protocol { missing: MissingPart },
    /// A locally checked post-condition failed: the optimized answer of
    /// `optimized_chars` characters exceeds the ceiling derived from an
    /// original of `original_chars` characters.
    Validation { original_chars: usize, optimized_chars: usize },
}

/// Upstream envelope code that reports an invalid `app_id`.
pub const UPSTREAM_CODE_BAD_APP_ID: i32 = 10003;

/// Upstream envelope code that reports an invalid `app_secret`.
pub const UPSTREAM_CODE_BAD_APP_SECRET: i32 = 10014;

/// The text that [`ApiError::message`] renders for an error.
pub open spec fn spec_message(e: ApiError) -> Seq<char> {
    match e {
        ApiError::ConfigMissing { which } => match which {
            ConfigKind::Feishu => "请先配置飞书凭证"@,
            ConfigKind::Ai => "请先配置 AI 服务"@,
        },
        ApiError::Network { kind, detail } => match kind {
            NetworkErrorKind::Timeout => "网络请求超时，请检查网络连接"@,
            NetworkErrorKind::Dns => "无法解析域名，请检查网络连接或 DNS 设置"@,
            NetworkErrorKind::ConnectionRefused => "连接被拒绝，请检查网络连接或防火墙设置"@,
            NetworkErrorKind::Other => "网络请求失败: "@ + detail@,
        },
        ApiError::Upstream { code, msg } => {
            if code == UPSTREAM_CODE_BAD_APP_ID {
                "app_id 无效，请检查应用凭证"@
            } else if code == UPSTREAM_CODE_BAD_APP_SECRET {
                "app_secret 无效，请检查应用凭证"@
            } else {
                "服务端返回错误: "@ + msg@
            }
        },
        ApiError::Protocol { missing } => match missing {
            MissingPart::TokenField => "响应中缺少 token"@,
            MissingPart::DataEnvelope => "响应中缺少数据"@,
            MissingPart::RecordPayload => "响应中缺少记录"@,
            MissingPart::ReplyChoice => "AI 响应中缺少回复内容"@,
            MissingPart::Unparsable => "解析响应失败"@,
        },
        ApiError::Validation { original_chars, optimized_chars } => "优化后的回答超出长度限制"@,
    }
}

impl ApiError {
    /// Renders the human-readable text for this error.
    pub fn message(&self) -> (r: String)
        ensures
            r@ == spec_message(*self),
    {
        match self {
            ApiError::ConfigMissing { which } => match which {
                ConfigKind::Feishu => String::from_str("请先配置飞书凭证"),
                ConfigKind::Ai => String::from_str("请先配置 AI 服务"),
            },
            ApiError::Network { kind, detail } => match kind {
                NetworkErrorKind::Timeout => String::from_str("网络请求超时，请检查网络连接"),
                NetworkErrorKind::Dns => String::from_str("无法解析域名，请检查网络连接或 DNS 设置"),
                NetworkErrorKind::ConnectionRefused => String::from_str(
                    "连接被拒绝，请检查网络连接或防火墙设置",
                ),
                NetworkErrorKind::Other => String::from_str("网络请求失败: ").concat(
                    detail.as_str(),
                ),
            },
            ApiError::Upstream { code, msg } => {
                if *code == UPSTREAM_CODE_BAD_APP_ID {
                    String::from_str("app_id 无效，请检查应用凭证")
                } else if *code == UPSTREAM_CODE_BAD_APP_SECRET {
                    String::from_str("app_secret 无效，请检查应用凭证")
                } else {
                    String::from_str("服务端返回错误: ").concat(msg.as_str())
                }
            },
            ApiError::Protocol { missing } => match missing {
                MissingPart::TokenField => String::from_str("响应中缺少 token"),
                MissingPart::DataEnvelope => String::from_str("响应中缺少数据"),
                MissingPart::RecordPayload => String::from_str("响应中缺少记录"),
                MissingPart::ReplyChoice => String::from_str("AI 响应中缺少回复内容"),
                MissingPart::Unparsable => String::from_str("解析响应失败"),
            },
            ApiError::Validation { .. } => String::from_str("优化后的回答超出长度限制"),
        }
    }
}

/// How a transport error text is classified: timeouts first, then name
/// resolution, then refused connections, everything else unclassified.
pub open spec fn spec_classify_network_error(msg: Seq<char>) -> NetworkErrorKind {
    if crate::strutil::spec_contains(msg, "timeout"@) || crate::strutil::spec_contains(
        msg,
        "timed out"@,
    ) {
        NetworkErrorKind::Timeout
    } else if crate::strutil::spec_contains(msg, "resolve"@) || crate::strutil::spec_contains(
        msg,
        "DNS"@,
    ) {
        NetworkErrorKind::Dns
    } else if crate::strutil::spec_contains(msg, "connection refused"@)
        || crate::strutil::spec_contains(msg, "Connection refused"@) {
        NetworkErrorKind::ConnectionRefused
    } else {
        NetworkErrorKind::Other
    }
}

/// Turns a transport error text into a classified [`ApiError::Network`],
/// keeping the raw text as the detail.
pub fn classify_network_error(msg: &str) -> (r: ApiError)
    ensures
        match r {
            ApiError::Network { kind, detail } => kind == spec_classify_network_error(msg@)
                && detail@ == msg@,
            _ => false,
        },
{
    let kind = if crate::strutil::str_contains(msg, "timeout") || crate::strutil::str_contains(
        msg,
        "timed out",
    ) {
        NetworkErrorKind::Timeout
    } else if crate::strutil::str_contains(msg, "resolve") || crate::strutil::str_contains(
        msg,
        "DNS",
    ) {
        NetworkErrorKind::Dns
    } else if crate::strutil::str_contains(msg, "connection refused")
        || crate::strutil::str_contains(msg, "Connection refused") {
        NetworkErrorKind::ConnectionRefused
    } else {
        NetworkErrorKind::Other
    };
    ApiError::Network { kind, detail: msg.to_owned() }
}

} // verus!
