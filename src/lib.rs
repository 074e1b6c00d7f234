//! A link-resolution gateway: routes a slash-delimited path to a remote
//! capability and turns the bytes it returns into a uniform response.
//!
//! The gateway itself never talks to the remote side. [`get`] decides which
//! call a request needs; whoever performs that call hands its outcome to
//! [`complete_invoke`], [`complete_schema`] or [`complete_manifest`].
pub mod commands;
pub mod invocation;
pub mod msgpack;
pub mod records;
pub mod route;
pub mod text;
pub mod wrap;

pub use commands::{
    complete_invoke, complete_manifest, complete_schema, execute_invoke, get, get_manifest,
    get_schema, ArgsGetManifest, ArgsGetSchema, ArgsInvoke, Request,
};
pub use invocation::{convert_invocation_result_to_response, read_wrap_link_result, synthesize, WrapLinkResult};
pub use msgpack::encode_string;
pub use records::{deserialize_wrap_link_file, deserialize_wrap_link_json, deserialize_wrap_link_response};
pub use route::{get_command_with_path_parts, ArgsGet};
pub use wrap::{WrapLinkFile, WrapLinkHeader, WrapLinkJson, WrapLinkResponse};
