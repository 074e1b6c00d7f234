//! The record shapes of the wire format, each read field by field from a
//! MessagePack map. A record matches only when every key is one of its own
//! fields and every mandatory field is present with the right type.
use crate::msgpack::{
    array_length_read, binary_read, is_nil_marker, map_length_read, next_is_nil, open_reader,
    read_array_len, read_bin, read_map_len, read_str, string_read, unread_bytes,
};
use crate::wrap::{
    header_views, opt_bytes, opt_header_views, opt_text, HeaderView, WrapLinkFile, WrapLinkHeader,
    WrapLinkJson, WrapLinkResponse,
};
use polywrap_wasm_rs::ReadDecoder;
use vstd::prelude::*;

verus! {

/// Which fields of a record were read so far, and their values. A header
/// keeps its name in `tag` and its value in `text`; the optional fields of a
/// linked response are `Some(None)` when they were read as nil.
pub struct Fields {
    pub tag: Option<Seq<char>>,
    pub text: Option<Seq<char>>,
    pub bytes: Option<Seq<u8>>,
    pub content_type: Option<Seq<char>>,
    pub headers: Option<Option<Seq<HeaderView>>>,
    pub data: Option<Option<Seq<u8>>>,
}

/// No field read yet.
pub open spec fn no_fields() -> Fields {
    Fields { tag: None, text: None, bytes: None, content_type: None, headers: None, data: None }
}

// ---------------------------------------------------------------- headers

/// The fields of a header map: `name` and `value`, both strings.
pub open spec fn header_fields(rest: Seq<u8>, n: nat, acc: Fields) -> Option<(Fields, Seq<u8>)>
    decreases n,
{
    if n == 0 {
        Some((acc, rest))
    } else {
        match string_read(rest) {
            None => None,
            Some((key, r1)) => {
                if key == "name"@ {
                    match string_read(r1) {
                        None => None,
                        Some((v, r2)) => header_fields(r2, (n - 1) as nat, Fields { tag: Some(v), ..acc }),
                    }
                } else if key == "value"@ {
                    match string_read(r1) {
                        None => None,
                        Some((v, r2)) => header_fields(r2, (n - 1) as nat, Fields { text: Some(v), ..acc }),
                    }
                } else {
                    None
                }
            },
        }
    }
}

/// A header record at the start of `rest`, and the bytes after it.
pub open spec fn header_at(rest: Seq<u8>) -> Option<(HeaderView, Seq<u8>)> {
    match map_length_read(rest) {
        None => None,
        Some((n, r)) => match header_fields(r, n as nat, no_fields()) {
            Some((f, r2)) => if f.tag is Some && f.text is Some {
                Some(((f.tag->0, f.text->0), r2))
            } else {
                None
            },
            None => None,
        },
    }
}

/// `n` header records in a row, appended to `acc`.
pub open spec fn header_items(rest: Seq<u8>, n: nat, acc: Seq<HeaderView>) -> Option<(Seq<HeaderView>, Seq<u8>)>
    decreases n,
{
    if n == 0 {
        Some((acc, rest))
    } else {
        match header_at(rest) {
            None => None,
            Some((h, r1)) => header_items(r1, (n - 1) as nat, acc.push(h)),
        }
    }
}

/// An optional array of header records: nil, or an array of them.
pub open spec fn opt_header_list_at(rest: Seq<u8>) -> Option<(Option<Seq<HeaderView>>, Seq<u8>)> {
    if rest.len() == 0 {
        None
    } else if is_nil_marker(rest[0]) {
        Some((None, rest.drop_first()))
    } else {
        match array_length_read(rest) {
            None => None,
            Some((n, r)) => match header_items(r, n as nat, Seq::empty()) {
                None => None,
                Some((hs, r2)) => Some((Some(hs), r2)),
            },
        }
    }
}

/// An optional binary value: nil, or a binary.
pub open spec fn opt_binary_at(rest: Seq<u8>) -> Option<(Option<Seq<u8>>, Seq<u8>)> {
    if rest.len() == 0 {
        None
    } else if is_nil_marker(rest[0]) {
        Some((None, rest.drop_first()))
    } else {
        match binary_read(rest) {
            None => None,
            Some((b, r)) => Some((Some(b), r)),
        }
    }
}

/// An owned copy of a field name, to compare keys with.
fn text_of(s: &str) -> (r: String)
    ensures
        r@ == s@,
{
    s.to_owned()
}

/// Reads one header record.
fn read_header(reader: &mut ReadDecoder) -> (res: Option<WrapLinkHeader>)
    ensures
        match res {
            Some(h) => header_at(unread_bytes(*old(reader))) == Some((h@, unread_bytes(*final(reader)))),
            None => header_at(unread_bytes(*old(reader))) is None,
        },
{
    let n = match read_map_len(reader) {
        Some(n) => n,
        None => return None,
    };
    let ghost start = unread_bytes(*reader);
    let mut name: Option<String> = None;
    let mut value: Option<String> = None;
    let mut i: u32 = n;
    while i > 0
        invariant
            map_length_read(unread_bytes(*old(reader))) == Some((n as nat, start)),
            header_fields(start, n as nat, no_fields()) == header_fields(
                unread_bytes(*reader),
                i as nat,
                Fields { tag: opt_text(name), text: opt_text(value), ..no_fields() },
            ),
        decreases i,
    {
        let key = match read_str(reader) {
            Some(k) => k,
            None => return None,
        };
        if key == text_of("name") {
            match read_str(reader) {
                Some(v) => name = Some(v),
                None => return None,
            }
        } else if key == text_of("value") {
            match read_str(reader) {
                Some(v) => value = Some(v),
                None => return None,
            }
        } else {
            return None;
        }
        i = i - 1;
    }
    match (name, value) {
        (Some(name), Some(value)) => Some(WrapLinkHeader { name, value }),
        _ => None,
    }
}


/// Reads an optional array of header records.
fn read_opt_headers(reader: &mut ReadDecoder) -> (res: Option<Option<Vec<WrapLinkHeader>>>)
    ensures
        match res {
            Some(hs) => opt_header_list_at(unread_bytes(*old(reader))) == Some(
                (opt_header_views(hs), unread_bytes(*final(reader))),
            ),
            None => opt_header_list_at(unread_bytes(*old(reader))) is None,
        },
{
    match next_is_nil(reader) {
        None => return None,
        Some(true) => return Some(None),
        Some(false) => {},
    }
    let n = match read_array_len(reader) {
        Some(n) => n,
        None => return None,
    };
    let ghost start = unread_bytes(*reader);
    let mut items: Vec<WrapLinkHeader> = Vec::new();
    proof {
        assert(header_views(items@) =~= Seq::<HeaderView>::empty());
    }
    let mut i: u32 = n;
    while i > 0
        invariant
            unread_bytes(*old(reader)).len() > 0,
            !is_nil_marker(unread_bytes(*old(reader))[0]),
            array_length_read(unread_bytes(*old(reader))) == Some((n as nat, start)),
            header_items(start, n as nat, Seq::empty()) == header_items(
                unread_bytes(*reader),
                i as nat,
                header_views(items@),
            ),
        decreases i,
    {
        let h = match read_header(reader) {
            Some(h) => h,
            None => return None,
        };
        proof {
            assert(header_views(items@.push(h)) =~= header_views(items@).push(h@));
        }
        items.push(h);
        i = i - 1;
    }
    Some(Some(items))
}

/// Reads an optional binary value.
fn read_opt_bin(reader: &mut ReadDecoder) -> (res: Option<Option<Vec<u8>>>)
    ensures
        match res {
            Some(b) => opt_binary_at(unread_bytes(*old(reader))) == Some(
                (opt_bytes(b), unread_bytes(*final(reader))),
            ),
            None => opt_binary_at(unread_bytes(*old(reader))) is None,
        },
{
    match next_is_nil(reader) {
        None => None,
        Some(true) => Some(None),
        Some(false) => match read_bin(reader) {
            Some(b) => Some(Some(b)),
            None => None,
        },
    }
}

// ---------------------------------------------------------------- linked JSON

/// The fields of a linked-JSON map: `_wrap_link_type` and `content`, both strings.
pub open spec fn json_fields(rest: Seq<u8>, n: nat, acc: Fields) -> Option<Fields>
    decreases n,
{
    if n == 0 {
        Some(acc)
    } else {
        match string_read(rest) {
            None => None,
            Some((key, r1)) => {
                if key == "_wrap_link_type"@ {
                    match string_read(r1) {
                        None => None,
                        Some((v, r2)) => json_fields(r2, (n - 1) as nat, Fields { tag: Some(v), ..acc }),
                    }
                } else if key == "content"@ {
                    match string_read(r1) {
                        None => None,
                        Some((v, r2)) => json_fields(r2, (n - 1) as nat, Fields { text: Some(v), ..acc }),
                    }
                } else {
                    None
                }
            },
        }
    }
}

/// A linked-JSON record at the start of `b`: its tag and its content.
pub open spec fn json_record(b: Seq<u8>) -> Option<(Seq<char>, Seq<char>)> {
    match map_length_read(b) {
        None => None,
        Some((n, r)) => match json_fields(r, n as nat, no_fields()) {
            Some(f) => if f.tag is Some && f.text is Some {
                Some((f.tag->0, f.text->0))
            } else {
                None
            },
            None => None,
        },
    }
}

/// Reads `input` as a linked-JSON record.
pub fn deserialize_wrap_link_json(input: &[u8]) -> (res: Option<WrapLinkJson>)
    ensures
        match res {
            Some(j) => json_record(input@) == Some((j._wrap_link_type@, j.content@)),
            None => json_record(input@) is None,
        },
{
    let mut reader = open_reader(input);
    let n = match read_map_len(&mut reader) {
        Some(n) => n,
        None => return None,
    };
    let ghost start = unread_bytes(reader);
    let mut tag: Option<String> = None;
    let mut content: Option<String> = None;
    let mut i: u32 = n;
    while i > 0
        invariant
            map_length_read(input@) == Some((n as nat, start)),
            json_fields(start, n as nat, no_fields()) == json_fields(
                unread_bytes(reader),
                i as nat,
                Fields { tag: opt_text(tag), text: opt_text(content), ..no_fields() },
            ),
        decreases i,
    {
        let key = match read_str(&mut reader) {
            Some(k) => k,
            None => return None,
        };
        if key == text_of("_wrap_link_type") {
            match read_str(&mut reader) {
                Some(v) => tag = Some(v),
                None => return None,
            }
        } else if key == text_of("content") {
            match read_str(&mut reader) {
                Some(v) => content = Some(v),
                None => return None,
            }
        } else {
            return None;
        }
        i = i - 1;
    }
    match (tag, content) {
        (Some(t), Some(c)) => Some(WrapLinkJson { _wrap_link_type: t, content: c }),
        _ => None,
    }
}

// ---------------------------------------------------------------- linked file

/// The fields of a linked-file map: `_wrap_link_type` (string), `content`
/// (binary) and `content_type` (string).
pub open spec fn file_fields(rest: Seq<u8>, n: nat, acc: Fields) -> Option<Fields>
    decreases n,
{
    if n == 0 {
        Some(acc)
    } else {
        match string_read(rest) {
            None => None,
            Some((key, r1)) => {
                if key == "_wrap_link_type"@ {
                    match string_read(r1) {
                        None => None,
                        Some((v, r2)) => file_fields(r2, (n - 1) as nat, Fields { tag: Some(v), ..acc }),
                    }
                } else if key == "content"@ {
                    match binary_read(r1) {
                        None => None,
                        Some((v, r2)) => file_fields(r2, (n - 1) as nat, Fields { bytes: Some(v), ..acc }),
                    }
                } else if key == "content_type"@ {
                    match string_read(r1) {
                        None => None,
                        Some((v, r2)) => file_fields(
                            r2,
                            (n - 1) as nat,
                            Fields { content_type: Some(v), ..acc },
                        ),
                    }
                } else {
                    None
                }
            },
        }
    }
}

/// A linked-file record at the start of `b`: its tag, content and content type.
pub open spec fn file_record(b: Seq<u8>) -> Option<(Seq<char>, Seq<u8>, Seq<char>)> {
    match map_length_read(b) {
        None => None,
        Some((n, r)) => match file_fields(r, n as nat, no_fields()) {
            Some(f) => if f.tag is Some && f.bytes is Some && f.content_type is Some {
                Some((f.tag->0, f.bytes->0, f.content_type->0))
            } else {
                None
            },
            None => None,
        },
    }
}

/// Reads `input` as a linked-file record.
pub fn deserialize_wrap_link_file(input: &[u8]) -> (res: Option<WrapLinkFile>)
    ensures
        match res {
            Some(f) => file_record(input@) == Some((f._wrap_link_type@, f.content@, f.content_type@)),
            None => file_record(input@) is None,
        },
{
    let mut reader = open_reader(input);
    let n = match read_map_len(&mut reader) {
        Some(n) => n,
        None => return None,
    };
    let ghost start = unread_bytes(reader);
    let mut tag: Option<String> = None;
    let mut content: Option<Vec<u8>> = None;
    let mut content_type: Option<String> = None;
    let mut i: u32 = n;
    while i > 0
        invariant
            map_length_read(input@) == Some((n as nat, start)),
            file_fields(start, n as nat, no_fields()) == file_fields(
                unread_bytes(reader),
                i as nat,
                Fields {
                    tag: opt_text(tag),
                    bytes: opt_bytes(content),
                    content_type: opt_text(content_type),
                    ..no_fields()
                },
            ),
        decreases i,
    {
        let key = match read_str(&mut reader) {
            Some(k) => k,
            None => return None,
        };
        if key == text_of("_wrap_link_type") {
            match read_str(&mut reader) {
                Some(v) => tag = Some(v),
                None => return None,
            }
        } else if key == text_of("content") {
            match read_bin(&mut reader) {
                Some(v) => content = Some(v),
                None => return None,
            }
        } else if key == text_of("content_type") {
            match read_str(&mut reader) {
                Some(v) => content_type = Some(v),
                None => return None,
            }
        } else {
            return None;
        }
        i = i - 1;
    }
    match (tag, content, content_type) {
        (Some(t), Some(c), Some(ct)) => Some(
            WrapLinkFile { _wrap_link_type: t, content: c, content_type: ct },
        ),
        _ => None,
    }
}

// ---------------------------------------------------------------- linked response

/// The fields of a linked-response map: `headers` (nil or an array of header
/// records) and `data` (nil or binary), each of them optional.
pub open spec fn response_fields(rest: Seq<u8>, n: nat, acc: Fields) -> Option<Fields>
    decreases n,
{
    if n == 0 {
        Some(acc)
    } else {
        match string_read(rest) {
            None => None,
            Some((key, r1)) => {
                if key == "headers"@ {
                    match opt_header_list_at(r1) {
                        None => None,
                        Some((v, r2)) => response_fields(r2, (n - 1) as nat, Fields { headers: Some(v), ..acc }),
                    }
                } else if key == "data"@ {
                    match opt_binary_at(r1) {
                        None => None,
                        Some((v, r2)) => response_fields(r2, (n - 1) as nat, Fields { data: Some(v), ..acc }),
                    }
                } else {
                    None
                }
            },
        }
    }
}

/// Flattens a field that may be missing and, when present, may be nil.
pub open spec fn present<T>(f: Option<Option<T>>) -> Option<T> {
    match f {
        Some(Some(v)) => Some(v),
        _ => None,
    }
}

/// A linked-response record at the start of `b`: its headers and its data.
pub open spec fn response_record(b: Seq<u8>) -> Option<(Option<Seq<HeaderView>>, Option<Seq<u8>>)> {
    match map_length_read(b) {
        None => None,
        Some((n, r)) => match response_fields(r, n as nat, no_fields()) {
            Some(f) => Some((present(f.headers), present(f.data))),
            None => None,
        },
    }
}

/// Drops the difference between a missing field and a nil one.
fn flatten<T>(f: Option<Option<T>>) -> (r: Option<T>)
    ensures
        r == present(f),
{
    match f {
        Some(Some(v)) => Some(v),
        _ => None,
    }
}

/// Reads `input` as a linked-response record.
pub fn deserialize_wrap_link_response(input: &[u8]) -> (res: Option<WrapLinkResponse>)
    ensures
        match res {
            Some(r) => response_record(input@) == Some((opt_header_views(r.headers), opt_bytes(r.data))),
            None => response_record(input@) is None,
        },
{
    let mut reader = open_reader(input);
    let n = match read_map_len(&mut reader) {
        Some(n) => n,
        None => return None,
    };
    let ghost start = unread_bytes(reader);
    let mut headers: Option<Option<Vec<WrapLinkHeader>>> = None;
    let mut data: Option<Option<Vec<u8>>> = None;
    let mut i: u32 = n;
    while i > 0
        invariant
            map_length_read(input@) == Some((n as nat, start)),
            response_fields(start, n as nat, no_fields()) == response_fields(
                unread_bytes(reader),
                i as nat,
                Fields {
                    headers: match headers {
                        Some(h) => Some(opt_header_views(h)),
                        None => None,
                    },
                    data: match data {
                        Some(d) => Some(opt_bytes(d)),
                        None => None,
                    },
                    ..no_fields()
                },
            ),
        decreases i,
    {
        let key = match read_str(&mut reader) {
            Some(k) => k,
            None => return None,
        };
        if key == text_of("headers") {
            match read_opt_headers(&mut reader) {
                Some(v) => headers = Some(v),
                None => return None,
            }
        } else if key == text_of("data") {
            match read_opt_bin(&mut reader) {
                Some(v) => data = Some(v),
                None => return None,
            }
        } else {
            return None;
        }
        i = i - 1;
    }
    Some(WrapLinkResponse { headers: flatten(headers), data: flatten(data) })
}

} // verus!
