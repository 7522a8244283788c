use bitable_bridge::errors::ApiError;
use bitable_bridge::errors::NetworkErrorKind;
use bitable_bridge::errors::classify_network_error;
use bitable_bridge::strutil::find_str;
use bitable_bridge::strutil::has_prefix;
use bitable_bridge::strutil::is_yes;
use bitable_bridge::strutil::split_lines;
use bitable_bridge::strutil::str_contains;
use bitable_bridge::strutil::trim_blanks;
use bitable_bridge::table::build_record_url;
use bitable_bridge::table::build_records_url;
use bitable_bridge::table::build_tables_url;

#[test]
fn network_timeout_is_classified() {
    let e = classify_network_error("operation timed out after 30s");
    match &e {
        ApiError::Network { kind, detail } => {
            assert_eq!(*kind, NetworkErrorKind::Timeout);
            assert_eq!(detail, "operation timed out after 30s");
        }
        _ => panic!("expected a network error"),
    }
    assert_eq!(e.message(), "网络请求超时，请检查网络连接");
}

#[test]
fn network_dns_is_classified() {
    let e = classify_network_error("failed to resolve host name");
    assert_eq!(e.message(), "无法解析域名，请检查网络连接或 DNS 设置");
    let e2 = classify_network_error("DNS lookup error");
    assert_eq!(e2.message(), "无法解析域名，请检查网络连接或 DNS 设置");
}

#[test]
fn network_refused_is_classified() {
    let e = classify_network_error("tcp Connection refused (os error 111)");
    assert_eq!(e.message(), "连接被拒绝，请检查网络连接或防火墙设置");
}

#[test]
fn network_other_keeps_detail_in_message() {
    let e = classify_network_error("tls handshake eof");
    match &e {
        ApiError::Network { kind, .. } => assert_eq!(*kind, NetworkErrorKind::Other),
        _ => panic!("expected a network error"),
    }
    assert_eq!(e.message(), "网络请求失败: tls handshake eof");
}

#[test]
fn timeout_takes_priority_over_dns() {
    let e = classify_network_error("timeout while trying to resolve");
    match e {
        ApiError::Network { kind, .. } => assert_eq!(kind, NetworkErrorKind::Timeout),
        _ => panic!("expected a network error"),
    }
}

#[test]
fn bespoke_credential_code_messages() {
    let bad_id = ApiError::Upstream { code: 10003, msg: String::from("param is invalid") };
    assert_eq!(bad_id.message(), "app_id 无效，请检查应用凭证");
    let bad_secret = ApiError::Upstream { code: 10014, msg: String::from("app_secret invalid") };
    assert_eq!(bad_secret.message(), "app_secret 无效，请检查应用凭证");
    let generic = ApiError::Upstream { code: 5, msg: String::from("boom") };
    assert_eq!(generic.message(), "服务端返回错误: boom");
}

#[test]
fn table_urls_are_built_from_parts() {
    assert_eq!(
        build_tables_url("bascn1"),
        "https://open.feishu.cn/open-apis/bitable/v1/apps/bascn1/tables"
    );
    assert_eq!(
        build_records_url("bascn1", "tblA"),
        "https://open.feishu.cn/open-apis/bitable/v1/apps/bascn1/tables/tblA/records"
    );
    assert_eq!(
        build_record_url("bascn1", "tblA", "recX"),
        "https://open.feishu.cn/open-apis/bitable/v1/apps/bascn1/tables/tblA/records/recX"
    );
}

#[test]
fn containment_and_prefix_helpers() {
    assert!(str_contains("connection timeout happened", "timeout"));
    assert!(!str_contains("time out", "timeout"));
    assert!(str_contains("", ""));
    assert!(has_prefix("RISK = YES", "RISK"));
    assert!(!has_prefix("REASON = x", "RISK"));
    assert_eq!(find_str("abcabc", "cab"), Some(2));
    assert_eq!(find_str("abc", "zz"), None);
}

#[test]
fn trim_and_lines_helpers() {
    assert_eq!(trim_blanks("  \tabc \r"), "abc");
    assert_eq!(trim_blanks(""), "");
    assert_eq!(split_lines("a\nb\n"), vec!["a", "b", ""]);
    assert_eq!(split_lines("one"), vec!["one"]);
    assert!(is_yes("yEs"));
    assert!(!is_yes("no"));
}
