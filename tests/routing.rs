use link_gateway::{
    complete_invoke, complete_manifest, complete_schema, execute_invoke, get,
    get_command_with_path_parts, get_manifest as manifest_args, get_schema as schema_args, ArgsGet,
    Request,
};

fn request(path: &str) -> ArgsGet {
    ArgsGet { path: path.to_string(), args: None }
}

#[test]
fn invoke() {
    let args = ArgsGet { path: "i/ens/test.eth".to_string(), args: None };
    let result = get_command_with_path_parts(&args);
    assert_eq!(result.is_none(), false);
    let (command, path_parts) = result.unwrap();
    assert_eq!(command, "i");
    assert_eq!(path_parts, vec!["ens", "test.eth"]);
}

#[test]
fn get_schema() {
    let args = ArgsGet { path: "schema/ens/ethereum.polywrap.eth".to_string(), args: None };
    let result = get_command_with_path_parts(&args);
    assert_eq!(result.is_none(), false);
    let (command, path_parts) = result.unwrap();
    assert_eq!(command, "schema");
    assert_eq!(path_parts, vec!["ens", "ethereum.polywrap.eth"]);
}

#[test]
fn get_manifest() {
    let args = ArgsGet { path: "manifest/ens/test.eth".to_string(), args: None };
    let result = get_command_with_path_parts(&args);
    assert_eq!(result.is_none(), false);
    let (command, path_parts) = result.unwrap();
    assert_eq!(command, "manifest");
    assert_eq!(path_parts, vec!["ens", "test.eth"]);
}

#[test]
fn route_rejects_paths_with_one_piece() {
    assert!(get_command_with_path_parts(&request("")).is_none());
    assert!(get_command_with_path_parts(&request("invoke")).is_none());
    assert!(get_command_with_path_parts(&request("schema")).is_none());
}

#[test]
fn route_keeps_empty_pieces() {
    let (verb, parts) = get_command_with_path_parts(&request("invoke/")).unwrap();
    assert_eq!(verb, "invoke");
    assert_eq!(parts, vec![""]);
    let (verb, parts) = get_command_with_path_parts(&request("/a//b")).unwrap();
    assert_eq!(verb, "");
    assert_eq!(parts, vec!["a", "", "b"]);
}

#[test]
fn route_invoke_path() {
    let (verb, parts) = get_command_with_path_parts(&request("invoke/ens/test.eth")).unwrap();
    assert_eq!(verb, "invoke");
    assert_eq!(parts, vec!["ens", "test.eth"]);
}

#[test]
fn route_schema_path() {
    let (verb, parts) = get_command_with_path_parts(&request("schema/ens/registry.eth")).unwrap();
    assert_eq!(verb, "schema");
    assert_eq!(parts, vec!["ens", "registry.eth"]);
}

#[test]
fn invoke_arguments_split_target_and_method() {
    let parts = vec!["ens".to_string(), "wraps".to_string(), "test.eth".to_string()];
    let a = execute_invoke(parts, Some(vec![1, 2]));
    assert_eq!(a.uri, "ens/wraps");
    assert_eq!(a.method, "test.eth");
    assert_eq!(a.args, Some(vec![1, 2]));
    let a = execute_invoke(vec!["only".to_string()], None);
    assert_eq!(a.uri, "");
    assert_eq!(a.method, "only");
}

#[test]
fn fetch_arguments_join_segments() {
    let parts = vec!["ens".to_string(), "registry.eth".to_string()];
    assert_eq!(schema_args(parts.clone()).uri, "ens/registry.eth");
    assert_eq!(manifest_args(parts).uri, "ens/registry.eth");
}

#[test]
fn dispatch_picks_the_call() {
    let mut args = request("invoke/ens/test.eth/method");
    args.args = Some(vec![7]);
    match get(args) {
        Some(Request::Invoke(a)) => {
            assert_eq!(a.uri, "ens/test.eth");
            assert_eq!(a.method, "method");
            assert_eq!(a.args, Some(vec![7]));
        }
        other => panic!("unexpected {:?}", other),
    }
    match get(request("schema/ens/registry.eth")) {
        Some(Request::GetSchema(a)) => assert_eq!(a.uri, "ens/registry.eth"),
        other => panic!("unexpected {:?}", other),
    }
    match get(request("manifest/ens/test.eth")) {
        Some(Request::GetManifest(a)) => assert_eq!(a.uri, "ens/test.eth"),
        other => panic!("unexpected {:?}", other),
    }
}

#[test]
fn dispatch_unknown_verb_gives_nothing() {
    assert!(get(request("i/ens/test.eth")).is_none());
    assert!(get(request("fetch/a")).is_none());
    assert!(get(request("Invoke/a/b")).is_none());
    assert!(get(request("invoke")).is_none());
}

#[test]
fn schema_outcome_is_shown_in_pre() {
    let r = complete_schema(Ok(Some("type Query".to_string()))).unwrap();
    assert_eq!(r.data, Some(b"<pre>type Query<pre>".to_vec()));
    let headers = r.headers.unwrap();
    assert_eq!(headers.len(), 1);
    assert_eq!(headers[0].name, "Content-Type");
    assert_eq!(headers[0].value, "text/html");
    assert!(complete_schema(Ok(None)).is_none());
    assert!(complete_schema(Err("down".to_string())).is_none());
}

#[test]
fn manifest_outcome_is_shown_in_pre() {
    let r = complete_manifest(Ok(Some("{\n  \"a\": 1\n}".to_string()))).unwrap();
    assert_eq!(r.data, Some(b"<pre>{\n  \"a\": 1\n}<pre>".to_vec()));
    assert!(complete_manifest(Ok(None)).is_none());
    assert!(complete_manifest(Err("down".to_string())).is_none());
}

#[test]
fn invoke_outcome_failures_give_nothing() {
    assert!(complete_invoke(Ok(None)).is_none());
    assert!(complete_invoke(Err("boom".to_string())).is_none());
    let r = complete_invoke(Ok(Some(vec![0x01]))).unwrap();
    assert_eq!(r.data, Some(vec![0x01]));
}
