//! Classifying the bytes that an invocation returned, and turning the result
//! into the canonical response.
use crate::msgpack::{
    is_string_marker, lemma_packed_string_reads_back, next_is_string, open_reader, packed_string,
    read_str, string_read,
};
use crate::records::{
    deserialize_wrap_link_file, deserialize_wrap_link_json, deserialize_wrap_link_response,
    file_record, json_record, response_record,
};
use crate::text::utf8_bytes;
use crate::wrap::{
    header_views, opt_bytes, opt_header_views, opt_text, HeaderView, ResponseView, WrapLinkHeader,
    WrapLinkResponse,
};
use vstd::prelude::*;
use vstd::utf8::encode_utf8;

verus! {

/// What the bytes of an invocation result turned out to be.
#[derive(Debug, Clone, PartialEq, Eq)]
#[allow(inconsistent_fields)]
pub enum WrapLinkResult {
    String(String),
    Msgpack(Vec<u8>),
    WrapLinkJson { _wrap_link_type: String, content: String },
    WrapLinkFile { _wrap_link_type: String, content: Vec<u8>, content_type: String },
    WrapLinkResponse { headers: Option<Vec<WrapLinkHeader>>, data: Option<Vec<u8>> },
}

/// The mathematical shape of a [`WrapLinkResult`].
pub enum Decoded {
    PlainText(Seq<char>),
    OpaqueBinary(Seq<u8>),
    LinkedJson(Seq<char>, Seq<char>),
    LinkedFile(Seq<char>, Seq<u8>, Seq<char>),
    LinkedResponse(Option<Seq<HeaderView>>, Option<Seq<u8>>),
}

impl View for WrapLinkResult {
    type V = Decoded;

    open spec fn view(&self) -> Decoded {
        match self {
            WrapLinkResult::String(s) => Decoded::PlainText(s@),
            WrapLinkResult::Msgpack(b) => Decoded::OpaqueBinary(b@),
            WrapLinkResult::WrapLinkJson { _wrap_link_type, content } => Decoded::LinkedJson(
                _wrap_link_type@,
                content@,
            ),
            WrapLinkResult::WrapLinkFile { _wrap_link_type, content, content_type } =>
                Decoded::LinkedFile(_wrap_link_type@, content@, content_type@),
            WrapLinkResult::WrapLinkResponse { headers, data } => Decoded::LinkedResponse(
                opt_header_views(*headers),
                opt_bytes(*data),
            ),
        }
    }
}

/// The plain-text probe: a buffer that starts with a string marker and
/// decodes as a string.
pub open spec fn text_value(b: Seq<u8>) -> Option<Seq<char>> {
    if b.len() > 0 && is_string_marker(b[0]) {
        match string_read(b) {
            Some((s, _)) => Some(s),
            None => None,
        }
    } else {
        None
    }
}

/// The classification of a buffer: the first probe that matches, in the
/// order plain text, linked JSON, linked file, linked response; opaque
/// binary when none does.
pub open spec fn decode(b: Seq<u8>) -> Decoded {
    match text_value(b) {
        Some(s) => Decoded::PlainText(s),
        None => match json_record(b) {
            Some((t, c)) => Decoded::LinkedJson(t, c),
            None => match file_record(b) {
                Some((t, c, ct)) => Decoded::LinkedFile(t, c, ct),
                None => match response_record(b) {
                    Some((h, d)) => Decoded::LinkedResponse(h, d),
                    None => Decoded::OpaqueBinary(b),
                },
            },
        },
    }
}

/// The header list that holds one `Content-Type` header.
pub open spec fn content_type_is(value: Seq<char>) -> Seq<HeaderView> {
    seq![("Content-Type"@, value)]
}

/// The canonical response for each kind of result.
pub open spec fn response_of(d: Decoded) -> ResponseView {
    match d {
        Decoded::PlainText(s) => (Some(encode_utf8(s)), Some(content_type_is("text/html"@))),
        Decoded::OpaqueBinary(b) => (Some(b), Some(content_type_is("msgpack"@))),
        Decoded::LinkedJson(_, c) => (Some(encode_utf8(c)), Some(content_type_is("application/json"@))),
        Decoded::LinkedFile(_, c, ct) => (Some(c), Some(content_type_is(ct))),
        Decoded::LinkedResponse(h, d) => (d, h),
    }
}

fn read_text_value(input: &[u8]) -> (res: Option<String>)
    ensures
        opt_text(res) == text_value(input@),
{
    let mut reader = open_reader(input);
    match next_is_string(&mut reader) {
        Some(true) => read_str(&mut reader),
        _ => None,
    }
}

/// Classifies the bytes of an invocation result; see [`decode`].
pub fn read_wrap_link_result(result: Vec<u8>) -> (r: WrapLinkResult)
    ensures
        r@ == decode(result@),
{
    if let Some(s) = read_text_value(result.as_slice()) {
        return WrapLinkResult::String(s);
    }
    if let Some(j) = deserialize_wrap_link_json(result.as_slice()) {
        return WrapLinkResult::WrapLinkJson { _wrap_link_type: j._wrap_link_type, content: j.content };
    }
    if let Some(f) = deserialize_wrap_link_file(result.as_slice()) {
        return WrapLinkResult::WrapLinkFile {
            _wrap_link_type: f._wrap_link_type,
            content: f.content,
            content_type: f.content_type,
        };
    }
    if let Some(r) = deserialize_wrap_link_response(result.as_slice()) {
        return WrapLinkResult::WrapLinkResponse { headers: r.headers, data: r.data };
    }
    WrapLinkResult::Msgpack(result)
}

fn content_type_header(value: String) -> (r: Vec<WrapLinkHeader>)
    ensures
        header_views(r@) == content_type_is(value@),
{
    let name = "Content-Type".to_owned();
    let r = vec![WrapLinkHeader { name, value }];
    proof {
        assert(header_views(r@) =~= content_type_is(value@));
    }
    r
}

/// The canonical response for a classified result.
pub fn synthesize(artifact: WrapLinkResult) -> (r: WrapLinkResponse)
    ensures
        r@ == response_of(artifact@),
{
    match artifact {
        WrapLinkResult::String(s) => WrapLinkResponse {
            data: Some(utf8_bytes(s)),
            headers: Some(content_type_header("text/html".to_owned())),
        },
        WrapLinkResult::Msgpack(b) => WrapLinkResponse {
            data: Some(b),
            headers: Some(content_type_header("msgpack".to_owned())),
        },
        WrapLinkResult::WrapLinkJson { _wrap_link_type, content } => WrapLinkResponse {
            data: Some(utf8_bytes(content)),
            headers: Some(content_type_header("application/json".to_owned())),
        },
        WrapLinkResult::WrapLinkFile { _wrap_link_type, content, content_type } => WrapLinkResponse {
            data: Some(content),
            headers: Some(content_type_header(content_type)),
        },
        WrapLinkResult::WrapLinkResponse { headers, data } => WrapLinkResponse { data, headers },
    }
}

/// The response for what an invocation returned: nothing when it returned no
/// bytes, else the synthesized response for the classified bytes.
pub fn convert_invocation_result_to_response(result: Option<Vec<u8>>) -> (r: Option<WrapLinkResponse>)
    ensures
        match result {
            None => r is None,
            Some(b) => r is Some && r->0@ == response_of(decode(b@)),
        },
{
    match result {
        None => None,
        Some(b) => Some(synthesize(read_wrap_link_result(b))),
    }
}

/// Classification depends on the bytes alone: decoding the same buffer twice
/// gives the same kind of result, with the same contents.
pub proof fn decode_is_deterministic(a: Seq<u8>, b: Seq<u8>)
    requires
        a == b,
    ensures
        decode(a) == decode(b),
        response_of(decode(a)) == response_of(decode(b)),
{
}

/// A buffer that matches none of the four probes comes back as opaque binary
/// with its bytes intact, served as `msgpack`.
pub proof fn opaque_fallback_keeps_bytes(b: Seq<u8>)
    requires
        text_value(b) is None,
        json_record(b) is None,
        file_record(b) is None,
        response_record(b) is None,
    ensures
        decode(b) == Decoded::OpaqueBinary(b),
        response_of(decode(b)) == (Some(b), Some(content_type_is("msgpack"@))),
{
}

/// What `encode_string` packs decodes as that plain text, and is served as
/// its UTF-8 bytes, as `text/html`.
pub proof fn packed_string_is_plain_text(s: Seq<char>)
    requires
        encode_utf8(s).len() <= u32::MAX,
    ensures
        decode(packed_string(s)) == Decoded::PlainText(s),
        response_of(decode(packed_string(s))) == (Some(encode_utf8(s)), Some(content_type_is("text/html"@))),
{
    lemma_packed_string_reads_back(s);
}

/// A string value is served as its UTF-8 bytes, as `text/html`.
pub proof fn plain_text_is_html(b: Seq<u8>, s: Seq<char>)
    requires
        text_value(b) == Some(s),
    ensures
        decode(b) == Decoded::PlainText(s),
        response_of(decode(b)) == (Some(encode_utf8(s)), Some(content_type_is("text/html"@))),
{
}

/// A linked-JSON record, when the buffer is no string, is served as the
/// UTF-8 bytes of its content, as `application/json`.
pub proof fn linked_json_is_json(b: Seq<u8>, tag: Seq<char>, content: Seq<char>)
    requires
        text_value(b) is None,
        json_record(b) == Some((tag, content)),
    ensures
        decode(b) == Decoded::LinkedJson(tag, content),
        response_of(decode(b)) == (Some(encode_utf8(content)), Some(content_type_is("application/json"@))),
{
}

/// A linked-file record, when no earlier probe matches, is served as its
/// content with its own content type.
pub proof fn linked_file_keeps_content_type(
    b: Seq<u8>,
    tag: Seq<char>,
    content: Seq<u8>,
    content_type: Seq<char>,
)
    requires
        text_value(b) is None,
        json_record(b) is None,
        file_record(b) == Some((tag, content, content_type)),
    ensures
        decode(b) == Decoded::LinkedFile(tag, content, content_type),
        response_of(decode(b)) == (Some(content), Some(content_type_is(content_type))),
{
}

} // verus!
