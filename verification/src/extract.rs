//! Extraction of embedded JSON from raw response text.
//!
//! The remote model often returns its JSON answer wrapped in a Markdown
//! code block (three backticks, an optional `json` tag, the content, three
//! backticks), sometimes additionally wrapped — once or more — in a JSON
//! object of the shape `{"raw_text": "..."}`. This module unwraps those
//! layers: the code-block grammar is the library's own logic, scanned and
//! verified over the text's UTF-8 bytes; only the JSON parsing itself is
//! the outside crate's work.

use vstd::prelude::*;
use vstd::string::StringSliceAdditionalSpecFns;
use crate::textscan::find_from;
use crate::textscan::find_sub;

verus! {

/// The opaque JSON document type of the outside crate.
#[verifier::external_type_specification]
#[verifier::external_body]
pub struct ExValue(serde_json::Value);

/// Whether a byte string parses as a JSON document.
pub uninterp spec fn json_ok(bytes: Seq<u8>) -> bool;

/// The text of the `raw_text` string member, when the bytes parse as a
/// JSON object carrying one.
pub uninterp spec fn raw_text_of(bytes: Seq<u8>) -> Option<Seq<char>>;

/// Relies on serde_json::from_slice::<Value>: whether bytes parse as JSON
/// is a function of the bytes alone. The parse error is handed on as its
/// rendered text.
#[verifier::external_body]
fn parse_json_bytes(bytes: &[u8]) -> (r: Result<serde_json::Value, String>)
    ensures
        r is Ok <==> json_ok(bytes@),
{
    match serde_json::from_slice::<serde_json::Value>(bytes) {
        Ok(v) => Ok(v),
        Err(e) => Err(e.to_string()),
    }
}

/// Relies on serde_json::from_slice, Value::get and Value::as_str: when
/// the bytes parse as a JSON object whose `raw_text` member is a string,
/// that string's text is returned. It is a function of the bytes alone,
/// and its UTF-8 encoding is strictly shorter than the document it was
/// quoted in (the quotes, key and braces around it are part of the
/// document, and JSON escaping never shrinks a character's encoding).
#[verifier::external_body]
fn raw_text_field(bytes: &[u8]) -> (r: Option<String>)
    ensures
        r is Some <==> raw_text_of(bytes@) is Some,
        r matches Some(s) ==> {
            &&& raw_text_of(bytes@) == Some(s@)
            &&& vstd::utf8::encode_utf8(s@).len() < bytes@.len()
        },
{
    match serde_json::from_slice::<serde_json::Value>(bytes) {
        Ok(v) => v.get("raw_text").and_then(|t| t.as_str()).map(|s| s.to_string()),
        Err(_) => None,
    }
}

/// Relies on serde_json's Map and Value constructors to build the
/// one-member object `{"raw_text": <text>}`. Nothing is claimed of the
/// value; it is only carried through to the caller.
#[verifier::external_body]
fn wrap_raw_text(text: &str) -> serde_json::Value {
    let mut map = serde_json::Map::new();
    map.insert(String::from("raw_text"), serde_json::Value::String(String::from(text)));
    serde_json::Value::Object(map)
}

/// Relies on serde_json's Value navigation (get, as_array, as_str): reads
/// the generated text out of a generate-content response, at
/// `candidates[0].content.parts[0].text`. Nothing further is claimed of
/// it; the verified logic takes the result as an argument.
#[verifier::external_body]
fn candidate_text(response: &serde_json::Value) -> Option<String> {
    response.get("candidates")
        .and_then(|c| c.as_array())
        .and_then(|a| a.first())
        .and_then(|c| c.get("content"))
        .and_then(|c| c.get("parts"))
        .and_then(|p| p.as_array())
        .and_then(|a| a.first())
        .and_then(|p| p.get("text"))
        .and_then(|t| t.as_str())
        .map(|s| String::from(s))
}

/// The code-block fence: three backticks.
pub open spec fn fence() -> Seq<u8> {
    seq![96u8, 96u8, 96u8]
}

/// The optional tag right after the opening fence.
pub open spec fn json_tag() -> Seq<u8> {
    seq!['j' as u8, 's' as u8, 'o' as u8, 'n' as u8]
}

/// The whitespace stripped around a code block's content.
pub open spec fn is_ws(b: u8) -> bool {
    b == 32 || b == 9 || b == 10 || b == 13 || b == 11 || b == 12
}

/// The first position at or after `i` holding a non-whitespace byte (or
/// the end).
pub open spec fn skip_ws(s: Seq<u8>, i: int) -> int
    decreases s.len() - i,
{
    if 0 <= i < s.len() && is_ws(s[i]) {
        skip_ws(s, i + 1)
    } else {
        i
    }
}

/// The position left of `i` after stripping trailing whitespace, not
/// going below `floor`.
pub open spec fn trim_back(s: Seq<u8>, i: int, floor: int) -> int
    decreases i,
{
    if 0 <= floor < i <= s.len() && is_ws(s[i - 1]) {
        trim_back(s, i - 1, floor)
    } else {
        i
    }
}

/// The content of the first Markdown code block in `s`, if a complete one
/// is there: after the first fence, an optional `json` tag and leading
/// whitespace are skipped; the block runs to the next fence, with trailing
/// whitespace stripped.
pub open spec fn extract_block(s: Seq<u8>) -> Option<Seq<u8>> {
    match find_from(s, fence(), 0) {
        None => None,
        Some(open) => {
            let tagged = if open + 7 <= s.len() && s.subrange(open + 3, open + 7) == json_tag() {
                open + 7
            } else {
                open + 3
            };
            let start = skip_ws(s, tagged);
            match find_from(s, fence(), start) {
                None => None,
                Some(close) => Some(s.subrange(start, trim_back(s, close, start))),
            }
        },
    }
}

/// How an extraction attempt on a resolved document fails, if it does: the
/// code block's content is not JSON, or there is no block and the text as
/// a whole is not JSON either.
pub open spec fn final_verdict(d: Seq<u8>) -> Option<ExtractError> {
    match extract_block(d) {
        Some(c) => if json_ok(c) {
            None
        } else {
            Some(ExtractError::BlockNotJson)
        },
        None => if json_ok(d) {
            None
        } else {
            Some(ExtractError::TextNotJson)
        },
    }
}

/// Whether `b` is whitespace.
fn is_ws_exec(b: u8) -> (r: bool)
    ensures
        r == is_ws(b),
{
    b == 32 || b == 9 || b == 10 || b == 13 || b == 11 || b == 12
}

/// Skips whitespace forward from `i`.
#[verifier::loop_isolation(false)]
fn skip_ws_exec(s: &[u8], i: usize) -> (r: usize)
    requires
        i <= s@.len(),
    ensures
        r == skip_ws(s@, i as int),
        i <= r <= s@.len(),
{
    let mut j: usize = i;
    while j < s.len() && is_ws_exec(s[j])
        invariant
            i <= j <= s@.len(),
            skip_ws(s@, i as int) == skip_ws(s@, j as int),
        decreases s@.len() - j,
    {
        j = j + 1;
    }
    j
}

/// Strips whitespace backward from `i`, not going below `floor`.
#[verifier::loop_isolation(false)]
fn trim_back_exec(s: &[u8], i: usize, floor: usize) -> (r: usize)
    requires
        floor <= i <= s@.len(),
    ensures
        r == trim_back(s@, i as int, floor as int),
        floor <= r <= i,
{
    let mut j: usize = i;
    while j > floor && is_ws_exec(s[j - 1])
        invariant
            floor <= j <= i,
            trim_back(s@, i as int, floor as int) == trim_back(s@, j as int, floor as int),
        decreases j,
    {
        j = j - 1;
    }
    j
}

/// Extracts the content of the first complete Markdown code block in
/// `text`, exactly as [`extract_block`] describes it.
pub fn extract_code_block(text: &[u8]) -> (r: Option<Vec<u8>>)
    ensures
        r is Some <==> extract_block(text@) is Some,
        r matches Some(c) ==> extract_block(text@) == Some(c@),
{
    let mut fence_bytes: Vec<u8> = Vec::new();
    fence_bytes.push(96);
    fence_bytes.push(96);
    fence_bytes.push(96);
    proof {
        assert(fence_bytes@ =~= fence());
    }
    let open = match find_sub(text, fence_bytes.as_slice(), 0) {
        Some(o) => o,
        None => {
            return None;
        },
    };
    proof {
        crate::textscan::lemma_find_from_is_first(text@, fence(), 0);
    }
    let tagged: usize = if text.len() >= 7 && open <= text.len() - 7 && text[open + 3] == 106
        && text[open + 4] == 115 && text[open + 5] == 111 && text[open + 6] == 110 {
        proof {
            assert(text@.subrange(open + 3, open + 7) =~= json_tag());
        }
        open + 7
    } else {
        proof {
            if open + 7 <= text@.len() {
                assert(text@.subrange(open + 3, open + 7)[0] == text@[open + 3]);
                assert(text@.subrange(open + 3, open + 7)[1] == text@[open + 4]);
                assert(text@.subrange(open + 3, open + 7)[2] == text@[open + 5]);
                assert(text@.subrange(open + 3, open + 7)[3] == text@[open + 6]);
            }
        }
        open + 3
    };
    let start = skip_ws_exec(text, tagged);
    let close = match find_sub(text, fence_bytes.as_slice(), start) {
        Some(c) => c,
        None => {
            return None;
        },
    };
    proof {
        crate::textscan::lemma_find_from_is_first(text@, fence(), start as int);
    }
    let end = trim_back_exec(text, close, start);
    let content = vstd::slice::slice_to_vec(&text[start..end]);
    proof {
        assert(content@ =~= text@.subrange(start as int, end as int));
    }
    Some(content)
}

/// A chain of nested `raw_text` wrappers: each document after the first is
/// the text quoted by its predecessor's `raw_text` member, and the last
/// carries none.
pub open spec fn raw_chain(chain: Seq<Seq<u8>>, first: Seq<u8>) -> bool {
    &&& chain.len() >= 1
    &&& chain[0] == first
    &&& forall|k: int|
        0 <= k < chain.len() - 1 ==> ((#[trigger] raw_text_of(chain[k])) matches Some(t)
            && chain[k + 1] == vstd::utf8::encode_utf8(t))
    &&& raw_text_of(chain.last()) is None
}

/// Extracts and parses JSON from raw text that may hold Markdown code
/// blocks.
///
/// Layers of `{"raw_text": "..."}` wrapping are unwrapped first. On the
/// resolved document, the first complete code block's content is parsed
/// when one is there; otherwise the whole text is parsed. Each error names
/// exactly which of the two failed.
pub fn extract_json_from_raw_text(raw_text: &str) -> (r: Result<
    serde_json::Value,
    ExtractError,
>)
    ensures
        exists|chain: Seq<Seq<u8>>|
            #[trigger] raw_chain(chain, raw_text.spec_bytes()) && (match r {
                Ok(_) => final_verdict(chain.last()) is None,
                Err(e) => final_verdict(chain.last()) == Some(e),
            }),
{
    let mut cur: String = raw_text.to_owned();
    let ghost first = raw_text.spec_bytes();
    let ghost mut chain: Seq<Seq<u8>> = seq![first];
    loop
        invariant
            first == raw_text.spec_bytes(),
            chain.len() >= 1,
            chain[0] == first,
            chain.last() == vstd::utf8::encode_utf8(cur@),
            forall|k: int|
                0 <= k < chain.len() - 1 ==> ((#[trigger] raw_text_of(chain[k])) matches Some(t)
                    && chain[k + 1] == vstd::utf8::encode_utf8(t)),
        ensures
            raw_chain(chain, first),
            chain.last() == vstd::utf8::encode_utf8(cur@),
        decreases vstd::utf8::encode_utf8(cur@).len(),
    {
        let inner = raw_text_field(cur.as_str().as_bytes());
        match inner {
            Some(s) => {
                proof {
                    chain = chain.push(vstd::utf8::encode_utf8(s@));
                }
                cur = s;
            },
            None => {
                break;
            },
        }
    }
    let content_opt = extract_code_block(cur.as_str().as_bytes());
    match content_opt {
        Some(content) => {
            match parse_json_bytes(content.as_slice()) {
                Ok(v) => {
                    proof {
                        assert(raw_chain(chain, first) && final_verdict(chain.last()) is None);
                    }
                    Ok(v)
                },
                Err(_) => {
                    proof {
                        assert(raw_chain(chain, first) && final_verdict(chain.last()) == Some(
                            ExtractError::BlockNotJson,
                        ));
                    }
                    Err(ExtractError::BlockNotJson)
                },
            }
        },
        None => {
            match parse_json_bytes(cur.as_str().as_bytes()) {
                Ok(v) => {
                    proof {
                        assert(raw_chain(chain, first) && final_verdict(chain.last()) is None);
                    }
                    Ok(v)
                },
                Err(_) => {
                    proof {
                        assert(raw_chain(chain, first) && final_verdict(chain.last()) == Some(
                            ExtractError::TextNotJson,
                        ));
                    }
                    Err(ExtractError::TextNotJson)
                },
            }
        },
    }
}

/// The generated text of a response, as data: parsed when it is JSON,
/// kept as text when it is not.
#[derive(Debug)]
pub enum ResponseData {
    /// The text parsed as a JSON document
    Json(serde_json::Value),
    /// The text, unchanged, which does not parse as JSON
    RawText(String),
}

/// Sorts a response's generated text: parsed JSON exactly when the text
/// parses as JSON, the unchanged text otherwise.
pub fn classify_response_text(content: &str) -> (r: ResponseData)
    ensures
        r is Json <==> json_ok(content.spec_bytes()),
        r matches ResponseData::RawText(s) ==> s@ == content@,
{
    match parse_json_bytes(content.as_bytes()) {
        Ok(v) => ResponseData::Json(v),
        Err(_) => ResponseData::RawText(content.to_owned()),
    }
}

/// A generate-content response carried no readable generated text.
#[derive(Debug, Clone, Copy, PartialEq, Eq, Structural)]
pub enum VertexError {
    /// No candidate text could be read out of the response
    NoCandidates,
}

impl VertexError {
    /// The error's message text.
    pub fn message(&self) -> (r: &'static str)
        ensures
            r@ == "Failed to extract data from the API response"@,
    {
        "Failed to extract data from the API response"
    }
}

/// Interprets a generate-content response: the generated text of its
/// first candidate, parsed as JSON when it is JSON, else wrapped as the
/// object `{"raw_text": ...}`; an error when no text can be read. The text
/// is read by a trusted navigation; what is done with each possible text
/// is the verified [`classify_response_text`].
pub fn extract_payload(response: &serde_json::Value) -> (r: Result<
    serde_json::Value,
    VertexError,
>)
    ensures
        r matches Err(e) ==> e == VertexError::NoCandidates,
{
    match candidate_text(response) {
        None => Err(VertexError::NoCandidates),
        Some(text) => match classify_response_text(text.as_str()) {
            ResponseData::Json(v) => Ok(v),
            ResponseData::RawText(s) => Ok(wrap_raw_text(s.as_str())),
        },
    }
}

/// Why `extract_json_from_raw_text` found no JSON.
#[derive(Debug, Clone, Copy, PartialEq, Eq, Structural)]
pub enum ExtractError {
    /// A code block was found but its content does not parse as JSON
    BlockNotJson,
    /// No code block was found and the text does not parse as JSON
    TextNotJson,
}

impl ExtractError {
    /// The error's message text.
    pub fn message(&self) -> (r: &'static str)
        ensures
            *self is BlockNotJson ==> r@ == "Failed to parse extracted JSON"@,
            *self is TextNotJson ==> r@
                == "Failed to parse text as JSON and no code blocks were found"@,
    {
        match self {
            ExtractError::BlockNotJson => "Failed to parse extracted JSON",
            ExtractError::TextNotJson => "Failed to parse text as JSON and no code blocks were found",
        }
    }
}

} // verus!
