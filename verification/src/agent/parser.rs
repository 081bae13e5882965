//! Reading tool calls out of model output.
//!
//! The model is expected to answer with a JSON object
//! `{"tool": "<name>", "args": {...}}`, either bare or inside a fenced
//! ```` ```json ```` block.
use vstd::prelude::*;
use crate::text::{find, occurs_at, trim, trim_spec};

verus! {

/// What `serde_json::from_str` reads from a text: the JSON value it
/// holds, or nothing when it is not JSON.
pub uninterp spec fn json_parsed(text: Seq<char>) -> Option<serde_json::Value>;

/// What `serde_json::Value::get` gives for a key: the member of an object,
/// or nothing for another value or a missing member.
pub uninterp spec fn json_member(v: serde_json::Value, key: Seq<char>) -> Option<serde_json::Value>;

/// What `serde_json::Value::as_str` gives: the text of a JSON string, or
/// nothing for another value.
pub uninterp spec fn json_text(v: serde_json::Value) -> Option<Seq<char>>;

/// Parses JSON text (`serde_json::from_str`); `None` when the text is not
/// JSON.
#[verifier::external_body]
fn json_parse(text: &str) -> (r: Option<serde_json::Value>)
    ensures
        r == json_parsed(text@),
{
    serde_json::from_str::<serde_json::Value>(text).ok()
}

/// The member `key` of a JSON object (`serde_json::Value::get`, cloned);
/// `None` when the value is not an object or has no such member.
#[verifier::external_body]
fn json_get(v: &serde_json::Value, key: &str) -> (r: Option<serde_json::Value>)
    ensures
        r == json_member(*v, key@),
{
    v.get(key).cloned()
}

/// The text of a JSON string (`serde_json::Value::as_str`); `None` when the
/// value is not a string.
#[verifier::external_body]
fn json_as_str(v: &serde_json::Value) -> (r: Option<String>)
    ensures
        json_text(*v) == match r {
            Some(s) => Some(s@),
            None => None,
        },
{
    v.as_str().map(|s| s.to_string())
}

/// The tool call a JSON value stands for: an object with a string member
/// `tool`, the tool's name, and a member `args`, its arguments.
pub open spec fn tool_call_spec(v: serde_json::Value) -> Option<(Seq<char>, serde_json::Value)> {
    match json_member(v, "tool"@) {
        Some(name) => match json_member(v, "args"@) {
            Some(args) => match json_text(name) {
                Some(n) => Some((n, args)),
                None => None,
            },
            None => None,
        },
        None => None,
    }
}

/// A request to call a tool.
#[derive(Debug)]
pub struct ToolCall {
    pub name: String,
    pub args: serde_json::Value,
}

/// Reads a tool call out of model output; `None` for plain text.
pub trait OutputParser {
    fn parse(&self, content: &str) -> Option<ToolCall>;
}

/// The part of `content` that is read as JSON: the trimmed inside of the
/// first ```` ```json ```` block, when that block is closed by a later
/// ```` ``` ````; otherwise the whole content.
pub open spec fn json_candidate_spec(content: Seq<char>, start: Option<int>, end: Option<int>) -> Seq<char> {
    match start {
        Some(s) => match end {
            Some(e) => trim_spec(content.subrange(s + 7, s + 7 + e)),
            None => content,
        },
        None => content,
    }
}

/// The first position of `needle` in `s`, if any.
pub open spec fn is_first(s: Seq<char>, needle: Seq<char>, i: Option<int>) -> bool {
    match i {
        Some(i) => occurs_at(s, needle, i) && forall|j: int| 0 <= j < i ==> !occurs_at(s, needle, j),
        None => forall|j: int| !occurs_at(s, needle, j),
    }
}

/// A parser for the JSON tool-call format.
pub struct JsonParser;

impl JsonParser {
    /// The text that is read as JSON: the trimmed inside of the first
    /// closed ```` ```json ```` block, or the whole content.
    pub fn json_candidate(content: &str) -> (r: String)
        ensures
            exists|start: Option<int>, end: Option<int>| {
                &&& is_first(content@, "```json"@, start)
                &&& (start matches Some(s) ==> is_first(content@.subrange(s + 7, content@.len() as int), "```"@, end))
                &&& (start is None ==> end is None)
                &&& r@ == json_candidate_spec(content@, start, end)
            },
    {
        proof {
            reveal_strlit("```json");
        }
        match find(content, "```json") {
            Some(start) => {
                let n = content.unicode_len();
                let after = content.substring_char(start + 7, n);
                match find(after, "```") {
                    Some(end) => {
                        let inner = content.substring_char(start + 7, start + 7 + end);
                        let r = trim(inner);
                        assert(is_first(content@, "```json"@, Some(start as int)));
                        assert(is_first(content@.subrange(start + 7, content@.len() as int), "```"@, Some(end as int)));
                        assert(r@ == json_candidate_spec(content@, Some(start as int), Some(end as int)));
                        r
                    },
                    None => {
                        let r = String::from_str(content);
                        assert(is_first(content@.subrange(start + 7, content@.len() as int), "```"@, None));
                        assert(r@ == json_candidate_spec(content@, Some(start as int), None));
                        r
                    },
                }
            },
            None => {
                let r = String::from_str(content);
                assert(is_first(content@, "```json"@, None));
                assert(r@ == json_candidate_spec(content@, None, None));
                r
            },
        }
    }
}

impl JsonParser {
    /// The tool call a JSON value stands for, if it has that shape.
    pub fn tool_call(v: &serde_json::Value) -> (r: Option<ToolCall>)
        ensures
            match r {
                Some(c) => tool_call_spec(*v) == Some((c.name@, c.args)),
                None => tool_call_spec(*v) is None,
            },
    {
        proof {
            reveal_strlit("tool");
            reveal_strlit("args");
        }
        let name = json_get(v, "tool")?;
        let args = json_get(v, "args")?;
        let name_str = json_as_str(&name)?;
        Some(ToolCall { name: name_str, args })
    }
}

impl OutputParser for JsonParser {
    /// Reads `{"tool": <string>, "args": <value>}` from the JSON candidate
    /// of `content`; `None` when it is not JSON of that shape.
    fn parse(&self, content: &str) -> (r: Option<ToolCall>)
        ensures
            exists|start: Option<int>, end: Option<int>|
                #![trigger json_candidate_spec(content@, start, end)]
                {
                &&& is_first(content@, "```json"@, start)
                &&& (start matches Some(s) ==> is_first(content@.subrange(s + 7, content@.len() as int), "```"@, end))
                &&& (start is None ==> end is None)
                &&& match json_parsed(json_candidate_spec(content@, start, end)) {
                    Some(v) => match r {
                        Some(c) => tool_call_spec(v) == Some((c.name@, c.args)),
                        None => tool_call_spec(v) is None,
                    },
                    None => r is None,
                }
            },
    {
        let text = Self::json_candidate(content);
        let val = json_parse(text.as_str());
        match val {
            Some(v) => Self::tool_call(&v),
            None => None,
        }
    }
}

} // verus!
