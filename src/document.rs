use vstd::prelude::*;

use crate::pipeline::Reply;
use crate::summary::{ContentBlock, SummaryResponse};

verus! {

#[verifier::external_type_specification]
#[verifier::external_body]
pub struct ExValue(serde_json::Value);

#[verifier::external_type_specification]
#[verifier::external_body]
pub struct ExJsonError(serde_json::Error);

/// Relies on serde_json's `Value::pointer`: the value at a JSON pointer, if any.
pub assume_specification<'a>[ serde_json::Value::pointer ](
    v: &'a serde_json::Value,
    pointer: &str,
) -> Option<&'a serde_json::Value>;

/// Relies on serde_json's `Value::as_array`: the elements of an array value.
pub assume_specification[ serde_json::Value::as_array ](v: &serde_json::Value) -> Option<
    &Vec<serde_json::Value>,
>;

/// Relies on serde_json's `Value::as_str`: the text of a string value.
pub assume_specification[ serde_json::Value::as_str ](v: &serde_json::Value) -> Option<&str>;

/// Whether a text is a single well-formed JSON document.
pub uninterp spec fn is_json(s: Seq<char>) -> bool;

/// Relies on serde_json::from_str into a `Value`: it succeeds exactly on
/// well-formed JSON text, whatever the text's content.
#[verifier::external_body]
fn parse_json(s: &str) -> (r: Result<serde_json::Value, serde_json::Error>)
    ensures
        r is Ok <==> is_json(s@),
{
    serde_json::from_str(s)
}

/// The text under `text` in a content block, when it is a string.
fn block_text(block: &serde_json::Value) -> Option<String> {
    match block.pointer("/text") {
        Some(t) => match t.as_str() {
            Some(s) => Some(String::from_str(s)),
            None => None,
        },
        None => None,
    }
}

/// Reduces a response document to what the pipeline reads: the array under
/// its `content` field, and the string under `text` in each block of it.
pub fn response_of(doc: &serde_json::Value) -> (r: SummaryResponse) {
    let content = match doc.pointer("/content") {
        Some(c) => c.as_array(),
        None => None,
    };
    match content {
        Some(blocks) => {
            let mut out: Vec<ContentBlock> = Vec::new();
            let mut i: usize = 0;
            while i < blocks.len()
                invariant
                    i <= blocks@.len(),
                decreases blocks@.len() - i,
            {
                out.push(ContentBlock { text: block_text(&blocks[i]) });
                i = i + 1;
            }
            SummaryResponse { content: Some(out) }
        },
        None => SummaryResponse { content: None },
    }
}

/// Reads the body of a response: text that is not JSON is unparsable;
/// otherwise the reduced document.
pub fn parse_reply(body: &str) -> (r: Reply)
    ensures
        r is Unparsable <==> !is_json(body@),
        r is Parsed <==> is_json(body@),
{
    match parse_json(body) {
        Ok(doc) => Reply::Parsed { response: response_of(&doc) },
        Err(_) => Reply::Unparsable,
    }
}

} // verus!
