//! The records that a remote capability may return, and the response shape.
use vstd::prelude::*;

verus! {

/// One response header.
#[derive(Debug, Clone, PartialEq, Eq)]
pub struct WrapLinkHeader {
    pub name: String,
    pub value: String,
}

/// A JSON document to serve as is.
#[derive(Debug, Clone, PartialEq, Eq)]
pub struct WrapLinkJson {
    pub _wrap_link_type: String,
    pub content: String,
}

/// A file to serve with its own content type.
#[derive(Debug, Clone, PartialEq, Eq)]
pub struct WrapLinkFile {
    pub _wrap_link_type: String,
    pub content: Vec<u8>,
    pub content_type: String,
}

/// A response whose body and headers the remote side chose; also the
/// canonical response this gateway hands back.
#[derive(Debug, Clone, PartialEq, Eq)]
pub struct WrapLinkResponse {
    pub headers: Option<Vec<WrapLinkHeader>>,
    pub data: Option<Vec<u8>>,
}

/// A header as a (name, value) pair of texts.
pub type HeaderView = (Seq<char>, Seq<char>);

impl View for WrapLinkHeader {
    type V = HeaderView;

    open spec fn view(&self) -> HeaderView {
        (self.name@, self.value@)
    }
}

/// The views of a sequence of headers.
pub open spec fn header_views(hs: Seq<WrapLinkHeader>) -> Seq<HeaderView> {
    hs.map_values(|h: WrapLinkHeader| h@)
}

/// The view of an optional header list.
pub open spec fn opt_header_views(hs: Option<Vec<WrapLinkHeader>>) -> Option<Seq<HeaderView>> {
    match hs {
        Some(v) => Some(header_views(v@)),
        None => None,
    }
}

/// The view of an optional byte buffer.
pub open spec fn opt_bytes(b: Option<Vec<u8>>) -> Option<Seq<u8>> {
    match b {
        Some(v) => Some(v@),
        None => None,
    }
}

/// The view of an optional string.
pub open spec fn opt_text(s: Option<String>) -> Option<Seq<char>> {
    match s {
        Some(v) => Some(v@),
        None => None,
    }
}

/// A response as its optional body and optional header list.
pub type ResponseView = (Option<Seq<u8>>, Option<Seq<HeaderView>>);

impl View for WrapLinkResponse {
    type V = ResponseView;

    open spec fn view(&self) -> ResponseView {
        (opt_bytes(self.data), opt_header_views(self.headers))
    }
}

} // verus!
