//! The field-value model and the field normalizer.
//!
//! A table record carries one JSON-like value per field. The upstream service
//! represents option-type fields sometimes as scalars, sometimes as arrays of
//! label objects and sometimes as nested label objects; [`get_field_string`]
//! absorbs that variability into one display string per logical attribute.
//!
//! [`FieldValue`] holds such a value as plain data: numbers are carried as
//! their decimal text, so the model stays exact. [`json_value`] renders a
//! value back into compact JSON text, which the normalizer uses as its last
//! resort and the gateway uses to frame request bodies.

use vstd::prelude::*;
use vstd::string::StrSliceExecFns;
use vstd::string::StringExecFns;

verus! {

/// A JSON-like value held as plain data. A number is kept as the decimal
/// text it was written with.
#[derive(Debug)]
pub enum FieldValue {
    Null,
    Boolean(bool),
    Number(String),
    Text(String),
    Array(Vec<FieldValue>),
    Object(Vec<(String, FieldValue)>),
}

/// The value stored under `key`, the first entry winning when a key repeats.
pub open spec fn spec_obj_get(entries: Seq<(String, FieldValue)>, key: Seq<char>) -> Option<
    FieldValue,
>
    decreases entries.len(),
{
    if entries.len() == 0 {
        Option::None
    } else if entries[0].0@ == key {
        Option::Some(entries[0].1)
    } else {
        spec_obj_get(entries.skip(1), key)
    }
}

/// Reference to the value stored under `key`, if any.
pub fn obj_get<'a>(entries: &'a Vec<(String, FieldValue)>, key: &str) -> (r: Option<
    &'a FieldValue,
>)
    ensures
        match r {
            Option::Some(v) => spec_obj_get(entries@, key@) == Option::Some(*v),
            Option::None => spec_obj_get(entries@, key@) is None,
        },
{
    let k = key.to_owned();
    let mut i: usize = 0;
    proof {
        assert(entries@.skip(0) =~= entries@);
    }
    while i < entries.len()
        invariant
            0 <= i <= entries@.len(),
            spec_obj_get(entries@.skip(i as int), key@) == spec_obj_get(entries@, key@),
            k@ == key@,
        decreases entries@.len() - i,
    {
        proof {
            assert(entries@.skip(i as int)[0] == entries@[i as int]);
            assert(entries@.skip(i as int).skip(1) =~= entries@.skip(i + 1));
        }
        if entries[i].0 == k {
            return Option::Some(&entries[i].1);
        }
        i = i + 1;
    }
    Option::None
}

/// One hexadecimal digit, lower case.
pub open spec fn spec_hex_digit(n: int) -> char {
    if n < 10 {
        ((n + 48) as u8) as char
    } else {
        ((n + 87) as u8) as char
    }
}

fn hex_digit(n: u32) -> (r: char)
    requires
        n < 16,
    ensures
        r == spec_hex_digit(n as int),
{
    if n < 10 {
        ((n + 48) as u8) as char
    } else {
        ((n + 87) as u8) as char
    }
}

/// How one character is written inside a JSON string literal: quote and
/// backslash get a backslash escape, the named control characters their short
/// escapes, every other control character a `\u00..` escape, and any other
/// character stands as itself.
pub open spec fn spec_escape_char(c: char) -> Seq<char> {
    if c == '"' {
        seq!['\\', '"']
    } else if c == '\\' {
        seq!['\\', '\\']
    } else if c == '\n' {
        seq!['\\', 'n']
    } else if c == '\r' {
        seq!['\\', 'r']
    } else if c == '\t' {
        seq!['\\', 't']
    } else if c == '\u{8}' {
        seq!['\\', 'b']
    } else if c == '\u{c}' {
        seq!['\\', 'f']
    } else if (c as u32) < 32 {
        seq!['\\', 'u', '0', '0', spec_hex_digit((c as u32 / 16) as int), spec_hex_digit(
            (c as u32 % 16) as int,
        )]
    } else {
        seq![c]
    }
}

/// A whole string with every character escaped.
pub open spec fn spec_escape_string(s: Seq<char>) -> Seq<char>
    decreases s.len(),
{
    if s.len() == 0 {
        Seq::empty()
    } else {
        spec_escape_string(s.drop_last()) + spec_escape_char(s.last())
    }
}

fn push_escaped_char(out: &mut String, c: char)
    ensures
        final(out)@ == old(out)@ + spec_escape_char(c),
{
    if c == '"' {
        out.push('\\');
        out.push('"');
    } else if c == '\\' {
        out.push('\\');
        out.push('\\');
    } else if c == '\n' {
        out.push('\\');
        out.push('n');
    } else if c == '\r' {
        out.push('\\');
        out.push('r');
    } else if c == '\t' {
        out.push('\\');
        out.push('t');
    } else if c == '\u{8}' {
        out.push('\\');
        out.push('b');
    } else if c == '\u{c}' {
        out.push('\\');
        out.push('f');
    } else if (c as u32) < 32 {
        out.push('\\');
        out.push('u');
        out.push('0');
        out.push('0');
        out.push(hex_digit(c as u32 / 16));
        out.push(hex_digit(c as u32 % 16));
    } else {
        out.push(c);
    }
    proof {
        assert(out@ =~= old(out)@ + spec_escape_char(c));
    }
}

/// Appends `s` to `out` with every character escaped for a JSON string
/// literal.
pub fn append_escaped(out: &mut String, s: &str)
    ensures
        final(out)@ == old(out)@ + spec_escape_string(s@),
{
    let n = s.unicode_len();
    proof {
        assert(s@.take(0) =~= Seq::<char>::empty());
        assert(out@ =~= old(out)@ + spec_escape_string(s@.take(0)));
    }
    let mut i: usize = 0;
    while i < n
        invariant
            n == s@.len(),
            0 <= i <= n,
            out@ == old(out)@ + spec_escape_string(s@.take(i as int)),
        decreases n - i,
    {
        let c = s.get_char(i);
        push_escaped_char(out, c);
        proof {
            assert(s@.take(i + 1).drop_last() =~= s@.take(i as int));
            assert(s@.take(i + 1).last() == s@[i as int]);
        }
        i = i + 1;
    }
    proof {
        assert(s@.take(n as int) =~= s@);
    }
}

/// The compact JSON text of a value.
pub open spec fn spec_json_of(v: FieldValue) -> Seq<char>
    decreases v, 1int,
{
    match v {
        FieldValue::Null => "null"@,
        FieldValue::Boolean(b) => if b {
            "true"@
        } else {
            "false"@
        },
        FieldValue::Number(n) => n@,
        FieldValue::Text(s) => seq!['"'] + spec_escape_string(s@) + seq!['"'],
        FieldValue::Array(items) => seq!['['] + spec_json_seq(items@) + seq![']'],
        FieldValue::Object(entries) => seq!['{'] + spec_json_entries(entries@) + seq!['}'],
    }
}

/// Array elements joined by commas.
pub open spec fn spec_json_seq(items: Seq<FieldValue>) -> Seq<char>
    decreases items, 0int,
{
    if items.len() == 0 {
        Seq::empty()
    } else if items.len() == 1 {
        spec_json_of(items[0])
    } else {
        spec_json_seq(items.drop_last()) + seq![','] + spec_json_of(items.last())
    }
}

/// One object entry: the escaped key in quotes, a colon, the value.
pub open spec fn spec_json_entry(e: (String, FieldValue)) -> Seq<char>
    decreases e, 1int,
{
    seq!['"'] + spec_escape_string(e.0@) + seq!['"', ':'] + spec_json_of(e.1)
}

/// Object entries joined by commas.
pub open spec fn spec_json_entries(entries: Seq<(String, FieldValue)>) -> Seq<char>
    decreases entries, 0int,
{
    if entries.len() == 0 {
        Seq::empty()
    } else if entries.len() == 1 {
        spec_json_entry(entries[0])
    } else {
        spec_json_entries(entries.drop_last()) + seq![','] + spec_json_entry(entries.last())
    }
}

/// Renders `v` as compact JSON text.
pub fn json_value(v: &FieldValue) -> (r: String)
    ensures
        r@ == spec_json_of(*v),
    decreases *v, 1int,
{
    match v {
        FieldValue::Null => String::from_str("null"),
        FieldValue::Boolean(b) => if *b {
            String::from_str("true")
        } else {
            String::from_str("false")
        },
        FieldValue::Number(n) => n.clone(),
        FieldValue::Text(s) => {
            let mut out = String::new();
            out.push('"');
            append_escaped(&mut out, s.as_str());
            out.push('"');
            proof {
                assert(out@ =~= spec_json_of(*v));
            }
            out
        },
        FieldValue::Array(items) => {
            let mut out = String::new();
            out.push('[');
            let body = json_array(items);
            out.append(body.as_str());
            out.push(']');
            proof {
                assert(out@ =~= spec_json_of(*v));
            }
            out
        },
        FieldValue::Object(entries) => {
            let mut out = String::new();
            out.push('{');
            let body = json_object(entries);
            out.append(body.as_str());
            out.push('}');
            proof {
                assert(out@ =~= spec_json_of(*v));
            }
            out
        },
    }
}

fn json_array(items: &Vec<FieldValue>) -> (r: String)
    ensures
        r@ == spec_json_seq(items@),
    decreases items@, 0int,
{
    let mut out = String::new();
    proof {
        assert(items@.take(0) =~= Seq::<FieldValue>::empty());
    }
    let mut i: usize = 0;
    while i < items.len()
        invariant
            0 <= i <= items@.len(),
            out@ == spec_json_seq(items@.take(i as int)),
        decreases items@.len() - i,
    {
        if i > 0 {
            out.push(',');
        }
        let piece = json_value(&items[i]);
        out.append(piece.as_str());
        proof {
            assert(items@.take(i + 1).drop_last() =~= items@.take(i as int));
            assert(items@.take(i + 1).last() == items@[i as int]);
            assert(out@ =~= spec_json_seq(items@.take(i + 1)));
        }
        i = i + 1;
    }
    proof {
        assert(items@.take(items@.len() as int) =~= items@);
    }
    out
}

fn json_object(entries: &Vec<(String, FieldValue)>) -> (r: String)
    ensures
        r@ == spec_json_entries(entries@),
    decreases entries@, 0int,
{
    let mut out = String::new();
    proof {
        assert(entries@.take(0) =~= Seq::<(String, FieldValue)>::empty());
    }
    let mut i: usize = 0;
    while i < entries.len()
        invariant
            0 <= i <= entries@.len(),
            out@ == spec_json_entries(entries@.take(i as int)),
        decreases entries@.len() - i,
    {
        let mut piece = String::new();
        piece.push('"');
        append_escaped(&mut piece, entries[i].0.as_str());
        piece.push('"');
        piece.push(':');
        let val = json_value(&entries[i].1);
        piece.append(val.as_str());
        proof {
            assert(piece@ =~= spec_json_entry(entries@[i as int]));
        }
        if i > 0 {
            out.push(',');
        }
        out.append(piece.as_str());
        proof {
            assert(entries@.take(i + 1).drop_last() =~= entries@.take(i as int));
            assert(entries@.take(i + 1).last() == entries@[i as int]);
            assert(out@ =~= spec_json_entries(entries@.take(i + 1)));
        }
        i = i + 1;
    }
    proof {
        assert(entries@.take(entries@.len() as int) =~= entries@);
    }
    out
}

/// The non-empty string stored under `prop`, if the stored value is a string.
pub open spec fn spec_prop_text(entries: Seq<(String, FieldValue)>, prop: Seq<char>) -> Option<
    Seq<char>,
> {
    match spec_obj_get(entries, prop) {
        Option::Some(FieldValue::Text(s)) => if s@.len() > 0 {
            Option::Some(s@)
        } else {
            Option::None
        },
        _ => Option::None,
    }
}

fn prop_text(entries: &Vec<(String, FieldValue)>, prop: &str) -> (r: Option<String>)
    ensures
        match r {
            Option::Some(s) => spec_prop_text(entries@, prop@) == Option::Some(s@),
            Option::None => spec_prop_text(entries@, prop@) is None,
        },
{
    match obj_get(entries, prop) {
        Option::Some(v) => match v {
            FieldValue::Text(s) => if !s.as_str().is_empty() {
                Option::Some(s.clone())
            } else {
                Option::None
            },
            _ => Option::None,
        },
        Option::None => Option::None,
    }
}

/// The label of an object standing as a field value: the first non-empty
/// string among its `text`, `name` and `option_name` properties.
pub open spec fn spec_object_label(entries: Seq<(String, FieldValue)>) -> Option<Seq<char>> {
    if spec_prop_text(entries, "text"@) is Some {
        spec_prop_text(entries, "text"@)
    } else if spec_prop_text(entries, "name"@) is Some {
        spec_prop_text(entries, "name"@)
    } else if spec_prop_text(entries, "option_name"@) is Some {
        spec_prop_text(entries, "option_name"@)
    } else {
        Option::None
    }
}

fn object_label(entries: &Vec<(String, FieldValue)>) -> (r: Option<String>)
    ensures
        match r {
            Option::Some(s) => spec_object_label(entries@) == Option::Some(s@),
            Option::None => spec_object_label(entries@) is None,
        },
{
    match prop_text(entries, "text") {
        Option::Some(s) => Option::Some(s),
        Option::None => match prop_text(entries, "name") {
            Option::Some(s) => Option::Some(s),
            Option::None => prop_text(entries, "option_name"),
        },
    }
}

/// The label of an object standing inside an array: as [`spec_object_label`],
/// with `label` as a fourth candidate property.
pub open spec fn spec_item_label(entries: Seq<(String, FieldValue)>) -> Option<Seq<char>> {
    if spec_object_label(entries) is Some {
        spec_object_label(entries)
    } else if spec_prop_text(entries, "label"@) is Some {
        spec_prop_text(entries, "label"@)
    } else {
        Option::None
    }
}

fn item_label(entries: &Vec<(String, FieldValue)>) -> (r: Option<String>)
    ensures
        match r {
            Option::Some(s) => spec_item_label(entries@) == Option::Some(s@),
            Option::None => spec_item_label(entries@) is None,
        },
{
    match object_label(entries) {
        Option::Some(s) => Option::Some(s),
        Option::None => prop_text(entries, "label"),
    }
}

/// What one array element yields: an object its label, a non-empty string
/// itself, anything else nothing.
pub open spec fn spec_item_text(v: FieldValue) -> Option<Seq<char>> {
    match v {
        FieldValue::Object(entries) => spec_item_label(entries@),
        FieldValue::Text(s) => if s@.len() > 0 {
            Option::Some(s@)
        } else {
            Option::None
        },
        _ => Option::None,
    }
}

fn item_text(v: &FieldValue) -> (r: Option<String>)
    ensures
        match r {
            Option::Some(s) => spec_item_text(*v) == Option::Some(s@),
            Option::None => spec_item_text(*v) is None,
        },
{
    match v {
        FieldValue::Object(entries) => item_label(entries),
        FieldValue::Text(s) => if !s.as_str().is_empty() {
            Option::Some(s.clone())
        } else {
            Option::None
        },
        _ => Option::None,
    }
}

/// The first element of `items` that yields a string, scanned in order.
pub open spec fn spec_scan_items(items: Seq<FieldValue>) -> Option<Seq<char>>
    decreases items.len(),
{
    if items.len() == 0 {
        Option::None
    } else if spec_item_text(items[0]) is Some {
        spec_item_text(items[0])
    } else {
        spec_scan_items(items.skip(1))
    }
}

fn scan_items(items: &Vec<FieldValue>) -> (r: Option<String>)
    ensures
        match r {
            Option::Some(s) => spec_scan_items(items@) == Option::Some(s@),
            Option::None => spec_scan_items(items@) is None,
        },
{
    let mut i: usize = 0;
    proof {
        assert(items@.skip(0) =~= items@);
    }
    while i < items.len()
        invariant
            0 <= i <= items@.len(),
            spec_scan_items(items@.skip(i as int)) == spec_scan_items(items@),
        decreases items@.len() - i,
    {
        proof {
            assert(items@.skip(i as int)[0] == items@[i as int]);
            assert(items@.skip(i as int).skip(1) =~= items@.skip(i + 1));
        }
        match item_text(&items[i]) {
            Option::Some(s) => {
                return Option::Some(s);
            },
            Option::None => {},
        }
        i = i + 1;
    }
    Option::None
}

/// What an array field value yields: the first element with a usable string;
/// failing that, the compact JSON text of the first element if that element
/// is an object and the text is neither empty nor the empty-object literal.
pub open spec fn spec_array_text(items: Seq<FieldValue>) -> Option<Seq<char>> {
    if items.len() == 0 {
        Option::None
    } else if spec_scan_items(items) is Some {
        spec_scan_items(items)
    } else {
        match items[0] {
            FieldValue::Object(entries) => {
                let j = spec_json_of(items[0]);
                if j.len() > 0 && j != "{}"@ {
                    Option::Some(j)
                } else {
                    Option::None
                }
            },
            _ => Option::None,
        }
    }
}

fn array_text(items: &Vec<FieldValue>) -> (r: Option<String>)
    ensures
        match r {
            Option::Some(s) => spec_array_text(items@) == Option::Some(s@),
            Option::None => spec_array_text(items@) is None,
        },
{
    if items.len() == 0 {
        return Option::None;
    }
    match scan_items(items) {
        Option::Some(s) => Option::Some(s),
        Option::None => {
            let is_object = match &items[0] {
                FieldValue::Object(_) => true,
                _ => false,
            };
            if is_object {
                let j = json_value(&items[0]);
                let empty_obj = String::from_str("{}");
                if !j.as_str().is_empty() && !(j == empty_obj) {
                    Option::Some(j)
                } else {
                    Option::None
                }
            } else {
                Option::None
            }
        },
    }
}

/// What one field value yields under normalization: a non-empty string
/// itself, a number its decimal text, a boolean its textual form, null
/// nothing, an array and an object as the helpers above say.
pub open spec fn spec_field_text(v: FieldValue) -> Option<Seq<char>> {
    match v {
        FieldValue::Text(s) => if s@.len() > 0 {
            Option::Some(s@)
        } else {
            Option::None
        },
        FieldValue::Number(n) => Option::Some(n@),
        FieldValue::Boolean(b) => Option::Some(
            if b {
                "true"@
            } else {
                "false"@
            },
        ),
        FieldValue::Null => Option::None,
        FieldValue::Array(items) => spec_array_text(items@),
        FieldValue::Object(entries) => spec_object_label(entries@),
    }
}

fn field_text(v: &FieldValue) -> (r: Option<String>)
    ensures
        match r {
            Option::Some(s) => spec_field_text(*v) == Option::Some(s@),
            Option::None => spec_field_text(*v) is None,
        },
{
    match v {
        FieldValue::Text(s) => if !s.as_str().is_empty() {
            Option::Some(s.clone())
        } else {
            Option::None
        },
        FieldValue::Number(n) => Option::Some(n.clone()),
        FieldValue::Boolean(b) => Option::Some(
            if *b {
                String::from_str("true")
            } else {
                String::from_str("false")
            },
        ),
        FieldValue::Null => Option::None,
        FieldValue::Array(items) => array_text(items),
        FieldValue::Object(entries) => object_label(entries),
    }
}

/// The normalized string of the first candidate key that yields one, or the
/// sentinel `-` when none does.
pub open spec fn spec_extract(fields: Seq<(String, FieldValue)>, keys: Seq<Seq<char>>) -> Seq<
    char,
>
    decreases keys.len(),
{
    if keys.len() == 0 {
        "-"@
    } else {
        match spec_obj_get(fields, keys[0]) {
            Option::Some(v) => match spec_field_text(v) {
                Option::Some(t) => t,
                Option::None => spec_extract(fields, keys.skip(1)),
            },
            Option::None => spec_extract(fields, keys.skip(1)),
        }
    }
}

/// Normalizes one logical attribute out of a record's fields: the candidate
/// keys are tried in order, the first usable value wins, and `-` stands for
/// a missing value.
pub fn get_field_string(fields: &Vec<(String, FieldValue)>, keys: &Vec<String>) -> (r: String)
    ensures
        r@ == spec_extract(fields@, keys.deep_view()),
{
    let mut i: usize = 0;
    proof {
        assert(keys.deep_view().skip(0) =~= keys.deep_view());
    }
    while i < keys.len()
        invariant
            0 <= i <= keys@.len(),
            keys.deep_view().len() == keys@.len(),
            spec_extract(fields@, keys.deep_view().skip(i as int)) == spec_extract(
                fields@,
                keys.deep_view(),
            ),
        decreases keys@.len() - i,
    {
        proof {
            assert(keys.deep_view()[i as int] == keys@[i as int]@);
            assert(keys.deep_view().skip(i as int)[0] == keys.deep_view()[i as int]);
            assert(keys.deep_view().skip(i as int).skip(1) =~= keys.deep_view().skip(i + 1));
        }
        match obj_get(fields, keys[i].as_str()) {
            Option::Some(v) => {
                match field_text(v) {
                    Option::Some(t) => {
                        return t;
                    },
                    Option::None => {},
                }
            },
            Option::None => {},
        }
        i = i + 1;
    }
    String::from_str("-")
}

} // verus!
