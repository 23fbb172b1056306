use hvertex::extract::{
    classify_response_text, extract_code_block, extract_json_from_raw_text, extract_payload,
    ExtractError, ResponseData, VertexError,
};

#[test]
fn test_extract_json_from_tagged_block() {
    let raw = "Here you go:\n```json\n{\"document_type\": \"contract\"}\n```\nthanks";
    let v = extract_json_from_raw_text(raw).unwrap();
    assert_eq!(
        v,
        serde_json::from_str::<serde_json::Value>("{\"document_type\": \"contract\"}").unwrap()
    );
}

#[test]
fn test_extract_json_from_untagged_block() {
    let raw = "``` {\"x\": true} ```";
    let v = extract_json_from_raw_text(raw).unwrap();
    assert_eq!(v, serde_json::from_str::<serde_json::Value>("{\"x\": true}").unwrap());
}

#[test]
fn test_extract_json_whole_text() {
    let raw = "{\"k\": 2}";
    let v = extract_json_from_raw_text(raw).unwrap();
    assert_eq!(v, serde_json::from_str::<serde_json::Value>("{\"k\": 2}").unwrap());
}

#[test]
fn test_extract_json_no_block_not_json() {
    let raw = "just some prose";
    let e = extract_json_from_raw_text(raw).unwrap_err();
    assert_eq!(e, ExtractError::TextNotJson);
    assert_eq!(
        e.message(),
        "Failed to parse text as JSON and no code blocks were found"
    );
}

#[test]
fn test_extract_json_block_not_json() {
    let raw = "```json\nnot json at all\n```";
    let e = extract_json_from_raw_text(raw).unwrap_err();
    assert_eq!(e, ExtractError::BlockNotJson);
    assert_eq!(e.message(), "Failed to parse extracted JSON");
}

#[test]
fn test_extract_json_unwraps_raw_text_layer() {
    // The whole input is a JSON object whose raw_text member holds the
    // real answer in a code block.
    let mut m = serde_json::Map::new();
    m.insert(
        String::from("raw_text"),
        serde_json::Value::String(String::from("```json\n{\"z\": 9}\n```")),
    );
    let outer = serde_json::to_string(&serde_json::Value::Object(m)).unwrap();
    let v = extract_json_from_raw_text(&outer).unwrap();
    assert_eq!(v, serde_json::from_str::<serde_json::Value>("{\"z\": 9}").unwrap());
}

#[test]
fn test_extract_code_block_bytes() {
    let text = b"pre ```json\n {\"a\":1} \n``` post";
    let content = extract_code_block(text).unwrap();
    assert_eq!(content, b"{\"a\":1}".to_vec());
}

#[test]
fn test_extract_code_block_none_without_closing_fence() {
    assert!(extract_code_block(b"``` {\"a\":1}").is_none());
    assert!(extract_code_block(b"no fences at all").is_none());
}

#[test]
fn test_extract_code_block_empty_block() {
    let content = extract_code_block(b"``` \n ```").unwrap();
    assert_eq!(content, Vec::<u8>::new());
}

#[test]
fn test_classify_response_text() {
    match classify_response_text("{\"q\": 1}") {
        ResponseData::Json(v) => {
            assert_eq!(v, serde_json::from_str::<serde_json::Value>("{\"q\": 1}").unwrap())
        }
        ResponseData::RawText(_) => panic!("valid JSON was not parsed"),
    }
    match classify_response_text("hello there") {
        ResponseData::Json(_) => panic!("prose is not JSON"),
        ResponseData::RawText(s) => assert_eq!(s, "hello there"),
    }
}

#[test]
fn test_extract_payload_json_candidate() {
    let response = serde_json::from_str::<serde_json::Value>(
        "{\"candidates\":[{\"content\":{\"parts\":[{\"text\":\"{\\\"q\\\":1}\"}]}}]}",
    )
    .unwrap();
    let v = extract_payload(&response).unwrap();
    assert_eq!(v, serde_json::from_str::<serde_json::Value>("{\"q\":1}").unwrap());
}

#[test]
fn test_extract_payload_wraps_non_json_text() {
    let response = serde_json::from_str::<serde_json::Value>(
        "{\"candidates\":[{\"content\":{\"parts\":[{\"text\":\"plain answer\"}]}}]}",
    )
    .unwrap();
    let v = extract_payload(&response).unwrap();
    assert_eq!(
        v.get("raw_text").and_then(|t| t.as_str()),
        Some("plain answer")
    );
}

#[test]
fn test_extract_payload_no_candidates() {
    let response = serde_json::from_str::<serde_json::Value>("{\"candidates\":[]}").unwrap();
    let e = extract_payload(&response).unwrap_err();
    assert_eq!(e, VertexError::NoCandidates);
    assert_eq!(e.message(), "Failed to extract data from the API response");
}
