//! The table client's verified core: response-envelope evaluation, the
//! pagination state machine, and the mapping from raw records to the typed
//! answer view.
//!
//! The network transport lives outside the library. A driver performs each
//! request, decodes the envelope into the plain structs here, and feeds it to
//! these functions; on any error it aborts and discards partial results.

use crate::errors::ApiError;
use crate::errors::MissingPart;
use crate::fields::FieldValue;
use crate::fields::get_field_string;
use crate::fields::spec_extract;
use vstd::prelude::*;
use vstd::string::StringExecFns;

verus! {

/// One table of a base: its identifier and display name.
#[derive(Debug)]
pub struct BitableTable {
    pub table_id: String,
    pub name: String,
}

/// The data payload of a table-listing response.
#[derive(Debug)]
pub struct BitableTablesData {
    pub items: Vec<BitableTable>,
}

/// The envelope of a table-listing response.
#[derive(Debug)]
pub struct BitableTablesResponse {
    pub code: i32,
    pub msg: String,
    pub data: Option<BitableTablesData>,
}

/// Judges a table-listing envelope: a non-zero code is an upstream failure,
/// a missing data payload a protocol failure, and otherwise the listed
/// tables are handed back as they arrived.
pub fn evaluate_tables_response(resp: BitableTablesResponse) -> (r: Result<
    Vec<BitableTable>,
    ApiError,
>)
    ensures
        match r {
            Result::Ok(items) => resp.code == 0 && match resp.data {
                Option::Some(d) => items == d.items,
                Option::None => false,
            },
            Result::Err(e) => match e {
                ApiError::Upstream { code, msg } => resp.code != 0 && code == resp.code && msg
                    == resp.msg,
                ApiError::Protocol { missing } => resp.code == 0 && resp.data is None && missing
                    == MissingPart::DataEnvelope,
                _ => false,
            },
        },
{
    if resp.code != 0 {
        return Result::Err(ApiError::Upstream { code: resp.code, msg: resp.msg });
    }
    match resp.data {
        Option::Some(d) => Result::Ok(d.items),
        Option::None => Result::Err(ApiError::Protocol { missing: MissingPart::DataEnvelope }),
    }
}

/// One raw record: its identifier and its fields as they arrived.
#[derive(Debug)]
pub struct AnswerRecord {
    pub record_id: String,
    pub fields: Vec<(String, FieldValue)>,
}

/// The data payload of one record-listing page.
#[derive(Debug)]
pub struct BitableRecordsData {
    pub items: Vec<AnswerRecord>,
    pub has_more: bool,
    pub page_token: Option<String>,
}

/// The envelope of one record-listing page.
#[derive(Debug)]
pub struct BitableRecordsResponse {
    pub code: i32,
    pub msg: String,
    pub data: Option<BitableRecordsData>,
}

/// Judges a record-listing envelope, as [`evaluate_tables_response`] does
/// for table listings.
pub fn evaluate_records_response(resp: BitableRecordsResponse) -> (r: Result<
    BitableRecordsData,
    ApiError,
>)
    ensures
        match r {
            Result::Ok(d) => resp.code == 0 && resp.data == Option::Some(d),
            Result::Err(e) => match e {
                ApiError::Upstream { code, msg } => resp.code != 0 && code == resp.code && msg
                    == resp.msg,
                ApiError::Protocol { missing } => resp.code == 0 && resp.data is None && missing
                    == MissingPart::DataEnvelope,
                _ => false,
            },
        },
{
    if resp.code != 0 {
        return Result::Err(ApiError::Upstream { code: resp.code, msg: resp.msg });
    }
    match resp.data {
        Option::Some(d) => Result::Ok(d),
        Option::None => Result::Err(ApiError::Protocol { missing: MissingPart::DataEnvelope }),
    }
}

/// The envelope of a single-record response.
#[derive(Debug)]
pub struct BitableRecordResponse {
    pub code: i32,
    pub msg: String,
    pub record: Option<AnswerRecord>,
}

/// Judges a single-record envelope: a non-zero code is an upstream failure
/// and a missing record payload a protocol failure.
pub fn evaluate_record_response(resp: BitableRecordResponse) -> (r: Result<AnswerRecord, ApiError>)
    ensures
        match r {
            Result::Ok(rec) => resp.code == 0 && resp.record == Option::Some(rec),
            Result::Err(e) => match e {
                ApiError::Upstream { code, msg } => resp.code != 0 && code == resp.code && msg
                    == resp.msg,
                ApiError::Protocol { missing } => resp.code == 0 && resp.record is None && missing
                    == MissingPart::RecordPayload,
                _ => false,
            },
        },
{
    if resp.code != 0 {
        return Result::Err(ApiError::Upstream { code: resp.code, msg: resp.msg });
    }
    match resp.record {
        Option::Some(rec) => Result::Ok(rec),
        Option::None => Result::Err(ApiError::Protocol { missing: MissingPart::RecordPayload }),
    }
}

/// Judges the outcome of a record update: success needs both a successful
/// HTTP status and a zero envelope code; either failure is an upstream
/// error, carrying the HTTP status as its code when the status itself
/// failed.
pub fn evaluate_update_response(http_ok: bool, http_status: u16, code: i32, msg: String) -> (r:
    Result<(), ApiError>)
    ensures
        match r {
            Result::Ok(u) => http_ok && code == 0,
            Result::Err(e) => match e {
                ApiError::Upstream { code: c, msg: m } => m == msg && if http_ok {
                    code != 0 && c == code
                } else {
                    c == http_status as i32
                },
                _ => false,
            },
        },
{
    if !http_ok {
        return Result::Err(ApiError::Upstream { code: http_status as i32, msg });
    }
    if code != 0 {
        return Result::Err(ApiError::Upstream { code, msg });
    }
    Result::Ok(())
}

/// The local state of one record-listing traversal. Records accumulate in
/// arrival order; the traversal finishes when a page reports no more data or
/// omits the continuation cursor (a malformed page must not loop forever).
#[derive(Debug)]
pub struct Pagination {
    pub records: Vec<AnswerRecord>,
    pub next_page_token: Option<String>,
    pub finished: bool,
}

impl Pagination {
    /// A fresh traversal: nothing accumulated, first request without a
    /// cursor.
    pub fn new() -> (r: Pagination)
        ensures
            r.records@ =~= Seq::<AnswerRecord>::empty(),
            r.next_page_token is None,
            !r.finished,
    {
        Pagination { records: Vec::new(), next_page_token: Option::None, finished: false }
    }

    /// Folds one page in: its items are appended in page order, and the
    /// traversal continues exactly when the page both promises more data and
    /// names a continuation cursor.
    pub fn apply_page(&mut self, page: BitableRecordsData)
        requires
            !old(self).finished,
        ensures
            final(self).records@ == old(self).records@ + page.items@,
            final(self).finished == !(page.has_more && page.page_token is Some),
            final(self).next_page_token == if page.has_more {
                page.page_token
            } else {
                Option::None::<String>
            },
    {
        let has_more = page.has_more;
        let page_token = page.page_token;
        let mut items = page.items;
        self.records.append(&mut items);
        if has_more {
            match page_token {
                Option::Some(t) => {
                    self.next_page_token = Option::Some(t);
                    self.finished = false;
                },
                Option::None => {
                    self.next_page_token = Option::None;
                    self.finished = true;
                },
            }
        } else {
            self.next_page_token = Option::None;
            self.finished = true;
        }
    }
}

/// The typed view of one record, each attribute normalized to one string.
#[derive(Debug)]
pub struct Answer {
    pub record_id: String,
    pub question: String,
    pub standard_answer: String,
    pub enable_status: String,
    pub scene: String,
    pub tone: String,
    pub product_name: String,
    pub product_id: String,
    pub raw_fields: Option<Vec<(String, FieldValue)>>,
}

/// Normalization of one attribute under a single candidate key.
pub open spec fn spec_extract1(fields: Seq<(String, FieldValue)>, key: Seq<char>) -> Seq<char> {
    spec_extract(fields, seq![key])
}

fn extract_single(fields: &Vec<(String, FieldValue)>, key: &str) -> (r: String)
    ensures
        r@ == spec_extract1(fields@, key@),
{
    let mut keys: Vec<String> = Vec::new();
    keys.push(key.to_owned());
    let r = get_field_string(fields, &keys);
    proof {
        assert(keys.deep_view() =~= seq![key@]);
    }
    r
}

/// How an [`Answer`] relates to the record it was derived from: the
/// identifier is kept, each attribute is the normalization of its named
/// field, and the raw fields are retained for diagnostics.
pub open spec fn spec_answer_matches(a: Answer, rec: AnswerRecord) -> bool {
    &&& a.record_id == rec.record_id
    &&& a.question@ == spec_extract1(rec.fields@, "问题"@)
    &&& a.standard_answer@ == spec_extract1(rec.fields@, "标准回答"@)
    &&& a.enable_status@ == spec_extract1(rec.fields@, "状态"@)
    &&& a.scene@ == spec_extract1(rec.fields@, "使用场景"@)
    &&& a.tone@ == spec_extract1(rec.fields@, "语气"@)
    &&& a.product_name@ == spec_extract1(rec.fields@, "对应产品"@)
    &&& a.product_id@ == spec_extract1(rec.fields@, "product_id"@)
    &&& a.raw_fields == Option::Some(rec.fields)
}

/// Derives the typed view of one record.
pub fn record_to_answer(record: AnswerRecord) -> (a: Answer)
    ensures
        spec_answer_matches(a, record),
{
    let question = extract_single(&record.fields, "问题");
    let standard_answer = extract_single(&record.fields, "标准回答");
    let enable_status = extract_single(&record.fields, "状态");
    let scene = extract_single(&record.fields, "使用场景");
    let tone = extract_single(&record.fields, "语气");
    let product_name = extract_single(&record.fields, "对应产品");
    let product_id = extract_single(&record.fields, "product_id");
    Answer {
        record_id: record.record_id,
        question,
        standard_answer,
        enable_status,
        scene,
        tone,
        product_name,
        product_id,
        raw_fields: Option::Some(record.fields),
    }
}

/// Derives the typed view of every record, in order.
pub fn answers_from_records(records: Vec<AnswerRecord>) -> (r: Vec<Answer>)
    ensures
        r@.len() == records@.len(),
        forall|i: int| 0 <= i < records@.len() ==> spec_answer_matches(r@[i], records@[i]),
{
    let mut rem = records;
    let mut out: Vec<Answer> = Vec::new();
    proof {
        assert(rem@ =~= records@.skip(0));
    }
    while rem.len() > 0
        invariant
            out@.len() + rem@.len() == records@.len(),
            rem@ == records@.skip(out@.len() as int),
            forall|i: int| 0 <= i < out@.len() ==> spec_answer_matches(out@[i], records@[i]),
        decreases rem@.len(),
    {
        let ghost k = out@.len() as int;
        proof {
            assert(rem@[0] == records@[k]);
        }
        let rec = rem.remove(0);
        let a = record_to_answer(rec);
        out.push(a);
        proof {
            assert(rem@ =~= records@.skip(k + 1));
        }
    }
    out
}

/// The URL that lists the tables of a base.
pub fn build_tables_url(app_token: &str) -> (r: String)
    ensures
        r@ == "https://open.feishu.cn/open-apis/bitable/v1/apps/"@ + app_token@ + "/tables"@,
{
    let mut out = String::from_str("https://open.feishu.cn/open-apis/bitable/v1/apps/");
    out.append(app_token);
    out.append("/tables");
    out
}

/// The URL that lists the records of a table.
pub fn build_records_url(app_token: &str, table_id: &str) -> (r: String)
    ensures
        r@ == "https://open.feishu.cn/open-apis/bitable/v1/apps/"@ + app_token@ + "/tables/"@
            + table_id@ + "/records"@,
{
    let mut out = String::from_str("https://open.feishu.cn/open-apis/bitable/v1/apps/");
    out.append(app_token);
    out.append("/tables/");
    out.append(table_id);
    out.append("/records");
    out
}

/// The URL of one record, for retrieval and update.
pub fn build_record_url(app_token: &str, table_id: &str, record_id: &str) -> (r: String)
    ensures
        r@ == "https://open.feishu.cn/open-apis/bitable/v1/apps/"@ + app_token@ + "/tables/"@
            + table_id@ + "/records/"@ + record_id@,
{
    let mut out = String::from_str("https://open.feishu.cn/open-apis/bitable/v1/apps/");
    out.append(app_token);
    out.append("/tables/");
    out.append(table_id);
    out.append("/records/");
    out.append(record_id);
    out
}

} // verus!
