use bitable_bridge::fields::FieldValue;
use bitable_bridge::fields::get_field_string;
use bitable_bridge::fields::json_value;
use bitable_bridge::table::AnswerRecord;
use bitable_bridge::table::answers_from_records;
use bitable_bridge::table::record_to_answer;

fn extract(fields: Vec<(&str, FieldValue)>, keys: &[&str]) -> String {
    let fields: Vec<(String, FieldValue)> =
        fields.into_iter().map(|(k, v)| (String::from(k), v)).collect();
    let keys: Vec<String> = keys.iter().map(|k| String::from(*k)).collect();
    get_field_string(&fields, &keys)
}

fn text(s: &str) -> FieldValue {
    FieldValue::Text(String::from(s))
}

#[test]
fn option_field_array_of_label_objects() {
    let v = FieldValue::Array(vec![FieldValue::Object(vec![(String::from("text"), text("启用"))])]);
    assert_eq!(extract(vec![("状态", v)], &["状态"]), "启用");
}

#[test]
fn null_value_yields_sentinel() {
    assert_eq!(extract(vec![("x", FieldValue::Null)], &["x"]), "-");
}

#[test]
fn number_yields_decimal_text() {
    assert_eq!(extract(vec![("n", FieldValue::Number(String::from("3")))], &["n"]), "3");
}

#[test]
fn missing_key_yields_sentinel() {
    assert_eq!(extract(vec![], &["missing"]), "-");
}

#[test]
fn boolean_yields_textual_form() {
    assert_eq!(extract(vec![("b", FieldValue::Boolean(true))], &["b"]), "true");
    assert_eq!(extract(vec![("b", FieldValue::Boolean(false))], &["b"]), "false");
}

#[test]
fn empty_string_is_skipped_not_returned() {
    let fields = vec![("k", text("")), ("k2", text("v2"))];
    assert_eq!(extract(fields, &["k", "k2"]), "v2");
}

#[test]
fn first_candidate_key_wins() {
    let fields = vec![("a", text("first")), ("b", text("second"))];
    assert_eq!(extract(fields, &["a", "b"]), "first");
}

#[test]
fn candidate_order_decides_not_field_order() {
    let fields = vec![("a", text("first")), ("b", text("second"))];
    assert_eq!(extract(fields, &["b", "a"]), "second");
}

#[test]
fn array_item_name_and_label_properties() {
    let v = FieldValue::Array(vec![FieldValue::Object(vec![
        (String::from("id"), FieldValue::Number(String::from("7"))),
        (String::from("name"), text("产品甲")),
    ])]);
    assert_eq!(extract(vec![("对应产品", v)], &["对应产品"]), "产品甲");

    let w = FieldValue::Array(vec![FieldValue::Object(vec![(String::from("label"), text("L1"))])]);
    assert_eq!(extract(vec![("k", w)], &["k"]), "L1");
}

#[test]
fn array_of_plain_strings() {
    let v = FieldValue::Array(vec![text(""), text("hit")]);
    assert_eq!(extract(vec![("k", v)], &["k"]), "hit");
}

#[test]
fn array_fallback_serializes_first_object() {
    let v = FieldValue::Array(vec![FieldValue::Object(vec![(
        String::from("z"),
        FieldValue::Number(String::from("1")),
    )])]);
    assert_eq!(extract(vec![("k", v)], &["k"]), "{\"z\":1}");
}

#[test]
fn array_fallback_skips_empty_object_literal() {
    let v = FieldValue::Array(vec![FieldValue::Object(vec![])]);
    assert_eq!(extract(vec![("k", v)], &["k"]), "-");
}

#[test]
fn empty_array_yields_sentinel() {
    assert_eq!(extract(vec![("k", FieldValue::Array(vec![]))], &["k"]), "-");
}

#[test]
fn object_value_label_priority() {
    let v = FieldValue::Object(vec![
        (String::from("option_name"), text("later")),
        (String::from("text"), text("先")),
    ]);
    assert_eq!(extract(vec![("k", v)], &["k"]), "先");

    let w = FieldValue::Object(vec![(String::from("option_name"), text("选项"))]);
    assert_eq!(extract(vec![("k", w)], &["k"]), "选项");
}

#[test]
fn object_without_label_yields_sentinel() {
    let v = FieldValue::Object(vec![(String::from("other"), text("x"))]);
    assert_eq!(extract(vec![("k", v)], &["k"]), "-");
}

#[test]
fn json_text_escapes_quotes_and_controls() {
    let v = FieldValue::Text(String::from("a\"b\\c\nd\te\u{1}"));
    assert_eq!(json_value(&v), "\"a\\\"b\\\\c\\nd\\te\\u0001\"");
}

#[test]
fn json_nested_structure_is_compact() {
    let v = FieldValue::Array(vec![
        FieldValue::Null,
        FieldValue::Boolean(true),
        FieldValue::Number(String::from("2.5")),
        FieldValue::Object(vec![
            (String::from("k"), text("v")),
            (String::from("m"), FieldValue::Array(vec![])),
        ]),
    ]);
    assert_eq!(json_value(&v), "[null,true,2.5,{\"k\":\"v\",\"m\":[]}]");
}

#[test]
fn record_maps_to_typed_answer() {
    let fields = vec![
        (String::from("问题"), text("怎么退货？")),
        (String::from("标准回答"), text("七天无理由。")),
        (
            String::from("状态"),
            FieldValue::Array(vec![FieldValue::Object(vec![(String::from("text"), text("启用"))])]),
        ),
        (String::from("语气"), text("亲切")),
        (String::from("product_id"), FieldValue::Number(String::from("42"))),
    ];
    let answer = record_to_answer(AnswerRecord { record_id: String::from("r9"), fields });
    assert_eq!(answer.record_id, "r9");
    assert_eq!(answer.question, "怎么退货？");
    assert_eq!(answer.standard_answer, "七天无理由。");
    assert_eq!(answer.enable_status, "启用");
    assert_eq!(answer.scene, "-");
    assert_eq!(answer.tone, "亲切");
    assert_eq!(answer.product_name, "-");
    assert_eq!(answer.product_id, "42");
    let raw = answer.raw_fields.expect("raw fields kept");
    assert_eq!(raw.len(), 5);
}

#[test]
fn records_map_in_order() {
    let one = AnswerRecord {
        record_id: String::from("r1"),
        fields: vec![(String::from("问题"), text("q1"))],
    };
    let two = AnswerRecord {
        record_id: String::from("r2"),
        fields: vec![(String::from("问题"), text("q2"))],
    };
    let answers = answers_from_records(vec![one, two]);
    assert_eq!(answers.len(), 2);
    assert_eq!(answers[0].record_id, "r1");
    assert_eq!(answers[0].question, "q1");
    assert_eq!(answers[1].record_id, "r2");
    assert_eq!(answers[1].question, "q2");
}
