use bitable_bridge::errors::ApiError;
use bitable_bridge::errors::MissingPart;
use bitable_bridge::table::AnswerRecord;
use bitable_bridge::table::BitableRecordResponse;
use bitable_bridge::table::BitableRecordsData;
use bitable_bridge::table::BitableRecordsResponse;
use bitable_bridge::table::BitableTable;
use bitable_bridge::table::BitableTablesData;
use bitable_bridge::table::BitableTablesResponse;
use bitable_bridge::table::Pagination;
use bitable_bridge::table::evaluate_record_response;
use bitable_bridge::table::evaluate_records_response;
use bitable_bridge::table::evaluate_tables_response;
use bitable_bridge::table::evaluate_update_response;

fn rec(id: &str) -> AnswerRecord {
    AnswerRecord { record_id: String::from(id), fields: Vec::new() }
}

fn page(ids: &[&str], has_more: bool, token: Option<&str>) -> BitableRecordsData {
    BitableRecordsData {
        items: ids.iter().map(|i| rec(i)).collect(),
        has_more,
        page_token: token.map(String::from),
    }
}

#[test]
fn three_pages_accumulate_in_page_order() {
    let mut p = Pagination::new();
    assert!(!p.finished);
    assert_eq!(p.next_page_token, None);

    p.apply_page(page(&["a", "b"], true, Some("p1")));
    assert!(!p.finished);
    assert_eq!(p.next_page_token.as_deref(), Some("p1"));

    p.apply_page(page(&["c", "d", "e"], true, Some("p2")));
    assert!(!p.finished);
    assert_eq!(p.next_page_token.as_deref(), Some("p2"));

    p.apply_page(page(&["f"], false, None));
    assert!(p.finished);

    let ids: Vec<&str> = p.records.iter().map(|r| r.record_id.as_str()).collect();
    assert_eq!(ids, ["a", "b", "c", "d", "e", "f"]);
}

#[test]
fn missing_page_token_stops_pagination_without_error() {
    let mut p = Pagination::new();
    p.apply_page(page(&["a"], true, None));
    assert!(p.finished);
    assert_eq!(p.next_page_token, None);
    assert_eq!(p.records.len(), 1);
}

#[test]
fn final_page_discards_stale_cursor() {
    let mut p = Pagination::new();
    p.apply_page(page(&["a"], false, Some("stale")));
    assert!(p.finished);
    assert_eq!(p.next_page_token, None);
}

#[test]
fn records_envelope_with_error_code_is_upstream() {
    let resp = BitableRecordsResponse {
        code: 1254001,
        msg: String::from("TableIdNotFound"),
        data: None,
    };
    let err = evaluate_records_response(resp).unwrap_err();
    assert_eq!(err, ApiError::Upstream { code: 1254001, msg: String::from("TableIdNotFound") });
}

#[test]
fn records_envelope_without_data_is_protocol_error() {
    let resp = BitableRecordsResponse { code: 0, msg: String::from("success"), data: None };
    let err = evaluate_records_response(resp).unwrap_err();
    assert_eq!(err, ApiError::Protocol { missing: MissingPart::DataEnvelope });
    assert_eq!(err.message(), "响应中缺少数据");
}

#[test]
fn records_envelope_success_hands_page_through() {
    let resp = BitableRecordsResponse {
        code: 0,
        msg: String::from("success"),
        data: Some(page(&["x"], true, Some("t"))),
    };
    let d = evaluate_records_response(resp).unwrap();
    assert_eq!(d.items.len(), 1);
    assert!(d.has_more);
    assert_eq!(d.page_token.as_deref(), Some("t"));
}

#[test]
fn tables_envelope_success_lists_tables() {
    let resp = BitableTablesResponse {
        code: 0,
        msg: String::from("success"),
        data: Some(BitableTablesData {
            items: vec![BitableTable {
                table_id: String::from("tbl1"),
                name: String::from("Answers"),
            }],
        }),
    };
    let items = evaluate_tables_response(resp).unwrap();
    assert_eq!(items.len(), 1);
    assert_eq!(items[0].table_id, "tbl1");
    assert_eq!(items[0].name, "Answers");
}

#[test]
fn tables_envelope_failures() {
    let upstream = BitableTablesResponse { code: 7, msg: String::from("bad"), data: None };
    assert_eq!(
        evaluate_tables_response(upstream).unwrap_err(),
        ApiError::Upstream { code: 7, msg: String::from("bad") }
    );
    let protocol = BitableTablesResponse { code: 0, msg: String::from("ok"), data: None };
    assert_eq!(
        evaluate_tables_response(protocol).unwrap_err(),
        ApiError::Protocol { missing: MissingPart::DataEnvelope }
    );
}

#[test]
fn single_record_envelope() {
    let ok = BitableRecordResponse {
        code: 0,
        msg: String::from("ok"),
        record: Some(rec("r1")),
    };
    assert_eq!(evaluate_record_response(ok).unwrap().record_id, "r1");

    let missing = BitableRecordResponse { code: 0, msg: String::from("ok"), record: None };
    assert_eq!(
        evaluate_record_response(missing).unwrap_err(),
        ApiError::Protocol { missing: MissingPart::RecordPayload }
    );

    let upstream = BitableRecordResponse { code: 3, msg: String::from("no"), record: None };
    assert_eq!(
        evaluate_record_response(upstream).unwrap_err(),
        ApiError::Upstream { code: 3, msg: String::from("no") }
    );
}

#[test]
fn update_outcome_needs_http_and_envelope_success() {
    assert!(evaluate_update_response(true, 200, 0, String::from("success")).is_ok());
    assert_eq!(
        evaluate_update_response(false, 500, 0, String::from("server error")).unwrap_err(),
        ApiError::Upstream { code: 500, msg: String::from("server error") }
    );
    assert_eq!(
        evaluate_update_response(true, 200, 91402, String::from("forbidden")).unwrap_err(),
        ApiError::Upstream { code: 91402, msg: String::from("forbidden") }
    );
}
