use link_gateway::{
    convert_invocation_result_to_response, deserialize_wrap_link_file as parse_file,
    deserialize_wrap_link_json as parse_json, deserialize_wrap_link_response as parse_response, encode_string, read_wrap_link_result, synthesize,
    WrapLinkHeader, WrapLinkResult,
};
use polywrap_wasm_rs::{Context, Write, WriteEncoder};

fn encoder() -> WriteEncoder {
    WriteEncoder::new(&[], Context::new())
}

fn json_record(tag: &str, content: &str) -> Vec<u8> {
    let mut w = encoder();
    w.write_map_length(&2).unwrap();
    w.write_string("_wrap_link_type").unwrap();
    w.write_string(tag).unwrap();
    w.write_string("content").unwrap();
    w.write_string(content).unwrap();
    w.get_buffer()
}

fn file_record(tag: &str, content: &[u8], content_type: &str) -> Vec<u8> {
    let mut w = encoder();
    w.write_map_length(&3).unwrap();
    w.write_string("_wrap_link_type").unwrap();
    w.write_string(tag).unwrap();
    w.write_string("content").unwrap();
    w.write_bytes(content).unwrap();
    w.write_string("content_type").unwrap();
    w.write_string(content_type).unwrap();
    w.get_buffer()
}

fn content_type(headers: &Option<Vec<WrapLinkHeader>>) -> String {
    let headers = headers.as_ref().unwrap();
    assert_eq!(headers.len(), 1);
    assert_eq!(headers[0].name, "Content-Type");
    headers[0].value.clone()
}

#[test]
fn deserialize_wrap_link_json() {
    let bytes = json_record("json", "hello");
    let response = convert_invocation_result_to_response(Some(bytes));
    assert_eq!(response.is_some(), true);
    let response = response.unwrap();
    let headers = response.headers.unwrap();
    let header = &headers[0];
    assert_eq!(header.name, "Content-Type");
    assert_eq!(header.value, "application/json");
}

#[test]
fn deserialize_wrap_link_file() {
    let bytes = file_record("json", b"hello", "text/plain");
    let response = convert_invocation_result_to_response(Some(bytes));
    assert_eq!(response.is_some(), true);
    let response = response.unwrap();
    let headers = response.headers.unwrap();
    let header = &headers[0];
    assert_eq!(header.name, "Content-Type");
    assert_eq!(header.value, "text/plain");
}

#[test]
fn deserialize_string() {
    let result = "test".to_string();
    let bytes = encode_string(result.clone()).unwrap();
    let response = convert_invocation_result_to_response(Some(bytes));
    assert_eq!(response.is_some(), true);
    let response = response.unwrap();
    let response = response.data.unwrap();
    let content = std::str::from_utf8(&response).unwrap().to_string();
    assert_eq!(content, result);
}

#[test]
fn encode_string_packs_header_and_bytes() {
    assert_eq!(encode_string("test".to_string()).unwrap(), vec![0xa4, b't', b'e', b's', b't']);
    assert_eq!(encode_string(String::new()).unwrap(), vec![0xa0]);
    let long = "x".repeat(40);
    let packed = encode_string(long).unwrap();
    assert_eq!(&packed[..2], &[0xd9, 40]);
    assert_eq!(packed.len(), 42);
}

#[test]
fn plain_text_is_served_as_html() {
    let bytes = encode_string("test".to_string()).unwrap();
    let decoded = read_wrap_link_result(bytes);
    assert_eq!(decoded, WrapLinkResult::String("test".to_string()));
    let r = synthesize(decoded);
    assert_eq!(r.data, Some(b"test".to_vec()));
    assert_eq!(content_type(&r.headers), "text/html");
}

#[test]
fn linked_json_is_served_as_json() {
    let decoded = read_wrap_link_result(json_record("json", "hello"));
    assert_eq!(
        decoded,
        WrapLinkResult::WrapLinkJson { _wrap_link_type: "json".to_string(), content: "hello".to_string() }
    );
    let r = synthesize(decoded);
    assert_eq!(r.data, Some(b"hello".to_vec()));
    assert_eq!(content_type(&r.headers), "application/json");
}

#[test]
fn linked_file_keeps_its_content_type() {
    let decoded = read_wrap_link_result(file_record("file", b"hello", "text/plain"));
    assert_eq!(
        decoded,
        WrapLinkResult::WrapLinkFile {
            _wrap_link_type: "file".to_string(),
            content: b"hello".to_vec(),
            content_type: "text/plain".to_string(),
        }
    );
    let r = synthesize(decoded);
    assert_eq!(r.data, Some(b"hello".to_vec()));
    assert_eq!(content_type(&r.headers), "text/plain");
}

#[test]
fn unmatched_bytes_come_back_intact() {
    for raw in [vec![0x01u8, 0x02, 0x03], vec![], vec![0xc3], vec![0x92, 0x01, 0x02]] {
        let decoded = read_wrap_link_result(raw.clone());
        assert_eq!(decoded, WrapLinkResult::Msgpack(raw.clone()));
        let r = synthesize(decoded);
        assert_eq!(r.data, Some(raw));
        assert_eq!(content_type(&r.headers), "msgpack");
    }
}

#[test]
fn decoding_twice_gives_the_same_result() {
    let inputs = vec![
        encode_string("again".to_string()).unwrap(),
        json_record("json", "{}"),
        file_record("file", b"x", "image/png"),
        vec![0x05, 0x06],
    ];
    for raw in inputs {
        assert_eq!(read_wrap_link_result(raw.clone()), read_wrap_link_result(raw));
    }
}

#[test]
fn linked_response_passes_headers_and_data_through() {
    let mut w = encoder();
    w.write_map_length(&2).unwrap();
    w.write_string("headers").unwrap();
    w.write_array_length(&2).unwrap();
    for (name, value) in [("Content-Type", "text/css"), ("Cache-Control", "no-store")] {
        w.write_map_length(&2).unwrap();
        w.write_string("name").unwrap();
        w.write_string(name).unwrap();
        w.write_string("value").unwrap();
        w.write_string(value).unwrap();
    }
    w.write_string("data").unwrap();
    w.write_bytes(b"body{}").unwrap();
    let r = convert_invocation_result_to_response(Some(w.get_buffer())).unwrap();
    assert_eq!(r.data, Some(b"body{}".to_vec()));
    let headers = r.headers.unwrap();
    assert_eq!(headers.len(), 2);
    assert_eq!(headers[0].name, "Content-Type");
    assert_eq!(headers[0].value, "text/css");
    assert_eq!(headers[1].name, "Cache-Control");
    assert_eq!(headers[1].value, "no-store");
}

#[test]
fn linked_response_fields_may_be_nil_or_missing() {
    let mut w = encoder();
    w.write_map_length(&1).unwrap();
    w.write_string("headers").unwrap();
    w.write_nil().unwrap();
    let r = convert_invocation_result_to_response(Some(w.get_buffer())).unwrap();
    assert_eq!(r.data, None);
    assert_eq!(r.headers, None);
    let r = convert_invocation_result_to_response(Some(vec![0x80])).unwrap();
    assert_eq!(r.data, None);
    assert_eq!(r.headers, None);
}

#[test]
fn records_with_unknown_or_missing_fields_do_not_match() {
    let mut w = encoder();
    w.write_map_length(&1).unwrap();
    w.write_string("other").unwrap();
    w.write_string("x").unwrap();
    let unknown = w.get_buffer();
    assert!(parse_json(&unknown).is_none());
    assert!(parse_file(&unknown).is_none());
    assert!(parse_response(&unknown).is_none());
    assert_eq!(read_wrap_link_result(unknown.clone()), WrapLinkResult::Msgpack(unknown));

    let mut w = encoder();
    w.write_map_length(&1).unwrap();
    w.write_string("content").unwrap();
    w.write_string("hello").unwrap();
    let only_content = w.get_buffer();
    assert!(parse_json(&only_content).is_none());
}

#[test]
fn file_record_is_not_taken_for_json() {
    let bytes = file_record("json", b"hello", "text/plain");
    assert!(parse_json(&bytes).is_none());
    let f = parse_file(&bytes).unwrap();
    assert_eq!(f.content, b"hello".to_vec());
    assert_eq!(f.content_type, "text/plain");
}

#[test]
fn json_record_wins_over_later_probes() {
    let bytes = json_record("json", "[1]");
    let j = parse_json(&bytes).unwrap();
    assert_eq!(j._wrap_link_type, "json");
    assert_eq!(j.content, "[1]");
    assert!(parse_file(&bytes).is_none());
}

#[test]
fn long_string_decodes_as_plain_text() {
    let text = "abc".repeat(100);
    let bytes = encode_string(text.clone()).unwrap();
    assert_eq!(bytes[0], 0xda);
    assert_eq!(read_wrap_link_result(bytes), WrapLinkResult::String(text));
}

#[test]
fn invalid_utf8_string_falls_through_to_binary() {
    let raw = vec![0xa1, 0xff];
    assert_eq!(read_wrap_link_result(raw.clone()), WrapLinkResult::Msgpack(raw));
}

#[test]
fn empty_file_content_is_nil_on_the_wire() {
    let bytes = file_record("file", b"", "text/plain");
    let r = convert_invocation_result_to_response(Some(bytes)).unwrap();
    assert_eq!(r.data, Some(vec![]));
    assert_eq!(content_type(&r.headers), "text/plain");
}
