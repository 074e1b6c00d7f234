//! Dispatch: which remote capability a routed request calls, with which
//! arguments, and what response comes of its answer.
use crate::invocation::{content_type_is, convert_invocation_result_to_response, decode, response_of};
use crate::route::{get_command_with_path_parts, ArgsGet};
use crate::text::{in_pre, join_on_slash, join_slash, split_slash, utf8_bytes, views};
use crate::wrap::{WrapLinkHeader, WrapLinkResponse, header_views};
use vstd::prelude::*;
use vstd::utf8::encode_utf8;

verus! {

/// The arguments of a remote invocation: target URI, method and payload.
#[derive(Debug, Clone, PartialEq, Eq)]
pub struct ArgsInvoke {
    pub uri: String,
    pub method: String,
    pub args: Option<Vec<u8>>,
}

/// The argument of a schema fetch.
#[derive(Debug, Clone, PartialEq, Eq)]
pub struct ArgsGetSchema {
    pub uri: String,
}

/// The argument of a manifest fetch.
#[derive(Debug, Clone, PartialEq, Eq)]
pub struct ArgsGetManifest {
    pub uri: String,
}

/// The one remote call that a request needs.
#[derive(Debug, Clone, PartialEq, Eq)]
pub enum Request {
    Invoke(ArgsInvoke),
    GetSchema(ArgsGetSchema),
    GetManifest(ArgsGetManifest),
}

/// Invocation arguments from the segments after the verb: the last segment
/// is the method, the ones before it, joined with `/`, the target.
pub fn execute_invoke(path_parts: Vec<String>, args: Option<Vec<u8>>) -> (r: ArgsInvoke)
    requires
        path_parts.len() >= 1,
    ensures
        r.uri@ == join_slash(views(path_parts@).drop_last()),
        r.method@ == path_parts@.last()@,
        r.args == args,
{
    let mut parts = path_parts;
    let ghost all = parts@;
    let method = parts.pop().unwrap();
    proof {
        assert(views(parts@) =~= views(all).drop_last());
    }
    let uri = join_on_slash(parts.as_slice());
    ArgsInvoke { uri, method, args }
}

/// Schema-fetch argument: the segments joined with `/`.
pub fn get_schema(path_parts: Vec<String>) -> (r: ArgsGetSchema)
    ensures
        r.uri@ == join_slash(views(path_parts@)),
{
    ArgsGetSchema { uri: join_on_slash(path_parts.as_slice()) }
}

/// Manifest-fetch argument: the segments joined with `/`.
pub fn get_manifest(path_parts: Vec<String>) -> (r: ArgsGetManifest)
    ensures
        r.uri@ == join_slash(views(path_parts@)),
{
    ArgsGetManifest { uri: join_on_slash(path_parts.as_slice()) }
}

/// The verb of a path with at least two pieces.
pub open spec fn verb_of(path: Seq<char>) -> Seq<char> {
    split_slash(path)[0]
}

/// The segments after the verb.
pub open spec fn segments_of(path: Seq<char>) -> Seq<Seq<char>> {
    split_slash(path).drop_first()
}

/// Decides which remote call a request needs: `invoke`, `schema` or
/// `manifest` followed by at least one segment; nothing for a path with
/// fewer than two pieces or any other verb.
pub fn get(args: ArgsGet) -> (r: Option<Request>)
    ensures
        split_slash(args.path@).len() <= 1 ==> r is None,
        split_slash(args.path@).len() > 1 ==> {
            let verb = verb_of(args.path@);
            let segs = segments_of(args.path@);
            &&& verb == "invoke"@ ==> (r matches Some(Request::Invoke(a)) && a.uri@ == join_slash(
                segs.drop_last(),
            ) && a.method@ == segs.last() && a.args == args.args)
            &&& verb == "schema"@ ==> (r matches Some(Request::GetSchema(a)) && a.uri@ == join_slash(
                segs,
            ))
            &&& verb == "manifest"@ ==> (r matches Some(Request::GetManifest(a)) && a.uri@
                == join_slash(segs))
            &&& (verb != "invoke"@ && verb != "schema"@ && verb != "manifest"@) ==> r is None
        },
{
    proof {
        reveal_strlit("invoke");
        reveal_strlit("schema");
        reveal_strlit("manifest");
        assert("invoke"@[0] != "schema"@[0] && "invoke"@[0] != "manifest"@[0]);
        assert("schema"@[0] != "manifest"@[0]);
    }
    let (command, path_parts) = match get_command_with_path_parts(&args) {
        Some(p) => p,
        None => return None,
    };
    if command == "invoke".to_owned() {
        proof {
            assert(views(path_parts@).last() == path_parts@.last()@);
        }
        Some(Request::Invoke(execute_invoke(path_parts, args.args)))
    } else if command == "schema".to_owned() {
        Some(Request::GetSchema(get_schema(path_parts)))
    } else if command == "manifest".to_owned() {
        Some(Request::GetManifest(get_manifest(path_parts)))
    } else {
        None
    }
}

/// The response to an invocation's outcome: nothing on failure or when it
/// returned no bytes, else the response for the classified bytes.
pub fn complete_invoke(outcome: Result<Option<Vec<u8>>, String>) -> (r: Option<WrapLinkResponse>)
    ensures
        match outcome {
            Ok(Some(b)) => r is Some && r->0@ == response_of(decode(b@)),
            _ => r is None,
        },
{
    match outcome {
        Ok(data) => convert_invocation_result_to_response(data),
        Err(_) => None,
    }
}

/// The body and the `text/html` header that show a text between `<pre>` markers.
pub open spec fn pre_page(text: Seq<char>) -> crate::wrap::ResponseView {
    (Some(encode_utf8("<pre>"@ + text + "<pre>"@)), Some(content_type_is("text/html"@)))
}

fn page_of(text: String) -> (r: WrapLinkResponse)
    ensures
        r@ == pre_page(text@),
{
    let value = "text/html".to_owned();
    let headers = vec![WrapLinkHeader { name: "Content-Type".to_owned(), value }];
    proof {
        assert(header_views(headers@) =~= content_type_is("text/html"@));
    }
    WrapLinkResponse { data: Some(utf8_bytes(in_pre(text.as_str()))), headers: Some(headers) }
}

/// The response to a schema fetch's outcome: the schema text shown between
/// `<pre>` markers, or nothing on failure or when there is no schema.
pub fn complete_schema(outcome: Result<Option<String>, String>) -> (r: Option<WrapLinkResponse>)
    ensures
        match outcome {
            Ok(Some(s)) => r is Some && r->0@ == pre_page(s@),
            _ => r is None,
        },
{
    match outcome {
        Ok(Some(s)) => Some(page_of(s)),
        _ => None,
    }
}

/// The response to a manifest fetch's outcome, given the manifest already
/// rendered as pretty-printed JSON text: that text between `<pre>` markers,
/// or nothing on failure or when there is no manifest.
pub fn complete_manifest(outcome: Result<Option<String>, String>) -> (r: Option<WrapLinkResponse>)
    ensures
        match outcome {
            Ok(Some(s)) => r is Some && r->0@ == pre_page(s@),
            _ => r is None,
        },
{
    match outcome {
        Ok(Some(s)) => Some(page_of(s)),
        _ => None,
    }
}

} // verus!
