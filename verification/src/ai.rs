//! The chat-completion gateway's verified core: framing the request body,
//! judging the response envelope, the post-hoc length guard of the
//! answer-optimization call, and the two-line risk classifier.
//!
//! The prompt templates themselves are opaque text owned by the driver; this
//! module handles what surrounds them.

use crate::errors::ApiError;
use crate::errors::MissingPart;
use crate::fields::append_escaped;
use crate::fields::spec_escape_string;
use crate::strutil::find_char;
use crate::strutil::find_str;
use crate::strutil::has_prefix;
use crate::strutil::lemma_find_char;
use crate::strutil::spec_find_char;
use crate::strutil::spec_find_sub;
use crate::strutil::spec_has_prefix;
use crate::strutil::spec_is_yes_chars;
use crate::strutil::spec_lines;
use crate::strutil::spec_trim;
use crate::strutil::split_lines;
use crate::strutil::trim_blanks;
use vstd::prelude::*;
use vstd::string::StrSliceExecFns;
use vstd::string::StringExecFns;

verus! {

/// The chat-completion path under the configured origin.
pub fn chat_completions_url(api_base: &str) -> (r: String)
    ensures
        r@ == api_base@ + "/chat/completions"@,
{
    let mut out = String::new();
    out.append(api_base);
    out.append("/chat/completions");
    out
}

/// The fixed JSON body of a chat-completion request: one user-role message
/// holding the prompt, temperature 0.7, at most 2000 output tokens.
pub open spec fn spec_chat_request_body(model: Seq<char>, prompt: Seq<char>) -> Seq<char> {
    "{\"model\":\""@ + spec_escape_string(model) + "\",\"messages\":[{\"role\":\"user\",\"content\":\""@
        + spec_escape_string(prompt) + "\"}],\"temperature\":0.7,\"max_tokens\":2000}"@
}

/// Frames a chat-completion request body.
pub fn build_chat_request_body(model: &str, prompt: &str) -> (r: String)
    ensures
        r@ == spec_chat_request_body(model@, prompt@),
{
    let mut out = String::from_str("{\"model\":\"");
    append_escaped(&mut out, model);
    out.append("\",\"messages\":[{\"role\":\"user\",\"content\":\"");
    append_escaped(&mut out, prompt);
    out.append("\"}],\"temperature\":0.7,\"max_tokens\":2000}");
    out
}

/// Code under which a chat envelope that carries its own error field is
/// reported as an upstream failure.
pub const UPSTREAM_CODE_CHAT_ENVELOPE: i32 = -1;

/// Judges a decoded chat envelope: an error field is an upstream failure, a
/// non-empty first choice is the reply, and a reply that is neither is a
/// protocol failure.
pub fn extract_chat_reply(error_msg: Option<String>, first_content: Option<String>) -> (r: Result<
    String,
    ApiError,
>)
    ensures
        match r {
            Result::Ok(t) => error_msg is None && first_content == Option::Some(t) && t@.len()
                > 0,
            Result::Err(e) => match e {
                ApiError::Upstream { code, msg } => error_msg == Option::Some(msg) && code
                    == UPSTREAM_CODE_CHAT_ENVELOPE,
                ApiError::Protocol { missing } => error_msg is None && missing
                    == MissingPart::ReplyChoice && match first_content {
                    Option::Some(c) => c@.len() == 0,
                    Option::None => true,
                },
                _ => false,
            },
        },
{
    match error_msg {
        Option::Some(msg) => Result::Err(
            ApiError::Upstream { code: UPSTREAM_CODE_CHAT_ENVELOPE, msg },
        ),
        Option::None => match first_content {
            Option::Some(c) => {
                if !c.as_str().is_empty() {
                    Result::Ok(c)
                } else {
                    Result::Err(ApiError::Protocol { missing: MissingPart::ReplyChoice })
                }
            },
            Option::None => Result::Err(ApiError::Protocol { missing: MissingPart::ReplyChoice }),
        },
    }
}

/// The marker that the optimization prompt instructs the model to put in
/// front of its final answer.
pub fn final_answer_marker() -> (r: &'static str)
    ensures
        r@ == "【最终答案】"@,
{
    "【最终答案】"
}

/// The optimized section of a reply: what follows the first final-answer
/// marker, or the whole reply when the marker is absent, blank-trimmed
/// either way.
pub open spec fn spec_final_section(reply: Seq<char>) -> Seq<char> {
    let m = "【最终答案】"@;
    let i = spec_find_sub(reply, m);
    if i >= 0 {
        spec_trim(reply.skip(i + m.len()))
    } else {
        spec_trim(reply)
    }
}

/// Locates the optimized section of a reply.
pub fn final_answer_section(reply: &str) -> (r: String)
    ensures
        r@ == spec_final_section(reply@),
{
    let marker = final_answer_marker();
    let n = reply.unicode_len();
    match find_str(reply, marker) {
        Option::Some(i) => {
            let m = marker.unicode_len();
            let rest = reply.substring_char(i + m, n);
            trim_blanks(rest)
        },
        Option::None => trim_blanks(reply),
    }
}

/// The largest optimized length allowed for an original of
/// `original_chars` characters: one and a half times the original, rounded
/// down. A length is within the ceiling exactly when twice it is at most
/// three times the original.
pub fn length_ceiling(original_chars: usize) -> (r: usize)
    requires
        original_chars <= usize::MAX / 3,
    ensures
        r as int == 3 * original_chars / 2,
{
    original_chars * 3 / 2
}

/// Applies the length guard of the answer-optimization call: the optimized
/// section of the reply is accepted only while it stays within one and a
/// half times the original's character count; beyond that the result is a
/// validation failure, not a transport one.
pub fn validate_optimized_answer(original: &str, reply: &str) -> (r: Result<String, ApiError>)
    ensures
        match r {
            Result::Ok(s) => s@ == spec_final_section(reply@) && 2 * s@.len() <= 3
                * original@.len(),
            Result::Err(e) => match e {
                ApiError::Validation { original_chars, optimized_chars } => original_chars as int
                    == original@.len() && optimized_chars as int == spec_final_section(
                    reply@,
                ).len() && 2 * optimized_chars > 3 * original_chars,
                _ => false,
            },
        },
{
    let section = final_answer_section(reply);
    let original_chars = original.unicode_len();
    let optimized_chars = section.as_str().unicode_len();
    if (optimized_chars as u128) * 2 <= (original_chars as u128) * 3 {
        Result::Ok(section)
    } else {
        Result::Err(ApiError::Validation { original_chars, optimized_chars })
    }
}

/// The verdict of the risk classifier.
#[derive(Debug)]
pub struct RiskVerdict {
    pub has_risk: bool,
    pub reason: String,
}

/// The first of the lines that starts with `prefix`.
pub open spec fn spec_first_with_prefix(lines: Seq<Seq<char>>, prefix: Seq<char>) -> Option<
    Seq<char>,
>
    decreases lines.len(),
{
    if lines.len() == 0 {
        Option::None
    } else if spec_has_prefix(lines[0], prefix) {
        Option::Some(lines[0])
    } else {
        spec_first_with_prefix(lines.skip(1), prefix)
    }
}

fn first_line_with_prefix(lines: &Vec<String>, prefix: &str) -> (r: Option<String>)
    ensures
        match r {
            Option::Some(l) => spec_first_with_prefix(lines.deep_view(), prefix@)
                == Option::Some(l@),
            Option::None => spec_first_with_prefix(lines.deep_view(), prefix@) is None,
        },
{
    let mut i: usize = 0;
    proof {
        assert(lines.deep_view().skip(0) =~= lines.deep_view());
    }
    while i < lines.len()
        invariant
            0 <= i <= lines@.len(),
            lines.deep_view().len() == lines@.len(),
            spec_first_with_prefix(lines.deep_view().skip(i as int), prefix@)
                == spec_first_with_prefix(lines.deep_view(), prefix@),
        decreases lines@.len() - i,
    {
        proof {
            assert(lines.deep_view()[i as int] == lines@[i as int]@);
            assert(lines.deep_view().skip(i as int)[0] == lines.deep_view()[i as int]);
            assert(lines.deep_view().skip(i as int).skip(1) =~= lines.deep_view().skip(i + 1));
        }
        if has_prefix(lines[i].as_str(), prefix) {
            return Option::Some(lines[i].clone());
        }
        i = i + 1;
    }
    Option::None
}

/// The `=`-delimited value of a marker line: what follows the first `=`,
/// blank-trimmed, or nothing when the line has no `=`.
pub open spec fn spec_line_value(line: Seq<char>) -> Seq<char> {
    let e = spec_find_char(line, '=');
    if e < line.len() {
        spec_trim(line.skip(e + 1))
    } else {
        Seq::empty()
    }
}

fn line_value(line: &str) -> (r: String)
    ensures
        r@ == spec_line_value(line@),
{
    let n = line.unicode_len();
    let e = find_char(line, '=');
    proof {
        lemma_find_char(line@, '=');
    }
    if e < n {
        let rest = line.substring_char(e + 1, n);
        trim_blanks(rest)
    } else {
        String::new()
    }
}

/// Whether a reply reports a risk: its first `RISK`-prefixed line carries,
/// after the `=`, a case-insensitive `YES`.
pub open spec fn spec_risk_flag(reply: Seq<char>) -> bool {
    match spec_first_with_prefix(spec_lines(reply), "RISK"@) {
        Option::Some(l) => spec_is_yes_chars(spec_line_value(l)),
        Option::None => false,
    }
}

/// The reason a reply gives: the `=`-delimited value of its first
/// `REASON`-prefixed line, or nothing.
pub open spec fn spec_risk_reason(reply: Seq<char>) -> Seq<char> {
    match spec_first_with_prefix(spec_lines(reply), "REASON"@) {
        Option::Some(l) => spec_line_value(l),
        Option::None => Seq::empty(),
    }
}

/// Parses the two-line verdict out of a risk-scan reply. A reply without
/// the expected markers deliberately reads as no risk detected with an
/// empty reason, rather than failing.
pub fn parse_risk_reply(reply: &str) -> (r: RiskVerdict)
    ensures
        r.has_risk == spec_risk_flag(reply@),
        r.reason@ == spec_risk_reason(reply@),
{
    let lines = split_lines(reply);
    let has_risk = match first_line_with_prefix(&lines, "RISK") {
        Option::Some(l) => crate::strutil::is_yes(line_value(l.as_str()).as_str()),
        Option::None => false,
    };
    let reason = match first_line_with_prefix(&lines, "REASON") {
        Option::Some(l) => line_value(l.as_str()),
        Option::None => String::new(),
    };
    RiskVerdict { has_risk, reason }
}

} // verus!
