use workopilot::errors::ErrorKind;
use workopilot::sidecar::{
    assemble_request, bundled_worker_in, complete_call, get_sidecar_path, malformed_reply,
    reply_closed, reply_outcome, source_script_in, CallStep, JsonRpcError, JsonRpcResponse, Probe,
    Sidecar, SidecarError, SidecarSearch, StartStep, WorkingDirProbes,
};

fn started() -> Sidecar {
    let mut sidecar = Sidecar::new();
    assert_eq!(sidecar.start(), StartStep::Spawn);
    sidecar.handshake("TRPC_URL=http://127.0.0.1:4000/trpc\n").unwrap();
    sidecar
}

fn sent(step: CallStep) -> (u64, String) {
    match step {
        CallStep::Send(request) => (request.id, request.line),
        CallStep::Start => panic!("expected a request, got the answer to start first"),
    }
}

fn probe(path: &str, exists: bool) -> Probe {
    Probe { path: path.to_string(), exists }
}

#[test]
fn second_start_is_a_no_op() {
    let mut sidecar = Sidecar::new();
    assert!(!sidecar.is_running());
    assert_eq!(sidecar.start(), StartStep::Spawn);
    assert!(sidecar.handshake("TRPC_URL=http://localhost:1\n").is_ok());
    assert!(sidecar.is_running());
    assert_eq!(sidecar.start(), StartStep::AlreadyRunning);
    assert_eq!(sidecar.start(), StartStep::AlreadyRunning);
    assert_eq!(sidecar.get_trpc_url(), Some("http://localhost:1"));
}

#[test]
fn start_fails_without_the_marker() {
    let mut sidecar = Sidecar::new();
    let error = sidecar.handshake("  listening on 4000 \n").unwrap_err();
    assert!(matches!(&error, SidecarError::Handshake(line) if line == "listening on 4000"));
    assert_eq!(error.message(), "Expected tRPC URL, got: listening on 4000");
    assert_eq!(error.kind(), ErrorKind::Transport);
    assert!(!sidecar.is_running());
    assert_eq!(sidecar.get_trpc_url(), None);
    assert_eq!(sidecar.start(), StartStep::Spawn);
}

#[test]
fn failed_handshake_unregisters_a_worker() {
    let mut sidecar = started();
    assert!(sidecar.handshake("").is_err());
    assert!(!sidecar.is_running());
    assert_eq!(sidecar.get_trpc_url(), None);
    assert!(sidecar.handshake(" TRPC_URL=x").is_err());
    assert!(sidecar.handshake("trpc_url=x").is_err());
}

#[test]
fn endpoint_is_what_follows_the_marker() {
    let mut sidecar = Sidecar::new();
    sidecar.handshake("TRPC_URL=  http://h:1/a b \r\n").unwrap();
    assert_eq!(sidecar.get_trpc_url(), Some("http://h:1/a b"));
    sidecar.handshake("TRPC_URL=").unwrap();
    assert_eq!(sidecar.get_trpc_url(), Some(""));
    sidecar.handshake("TRPC_URL=TRPC_URL=x").unwrap();
    assert_eq!(sidecar.get_trpc_url(), Some("TRPC_URL=x"));
}

#[test]
fn ids_count_up_from_one() {
    let mut sidecar = started();
    for expected in 1..=50u64 {
        let (id, line) = sent(sidecar.call("tasks.list", None));
        assert_eq!(id, expected);
        assert_eq!(
            line,
            format!("{{\"jsonrpc\":\"2.0\",\"id\":{},\"method\":\"tasks.list\"}}\n", expected)
        );
    }
}

#[test]
fn call_on_a_fresh_transport_asks_for_a_start() {
    let mut sidecar = Sidecar::new();
    assert!(matches!(sidecar.call("tasks.list", None), CallStep::Start));
    assert!(matches!(sidecar.call("tasks.list", None), CallStep::Start));
    assert_eq!(sidecar.start(), StartStep::Spawn);
    sidecar.handshake("TRPC_URL=u").unwrap();
    let (id, _) = sent(sidecar.call("tasks.list", None));
    assert_eq!(id, 1);
}

#[test]
fn ids_go_on_after_a_restart() {
    let mut sidecar = started();
    assert_eq!(sent(sidecar.call("a", None)).0, 1);
    assert!(sidecar.stop());
    assert!(!sidecar.is_running());
    assert_eq!(sidecar.get_trpc_url(), None);
    assert!(!sidecar.stop());
    assert!(matches!(sidecar.call("a", None), CallStep::Start));
    sidecar.handshake("TRPC_URL=v").unwrap();
    assert_eq!(sent(sidecar.call("a", None)).0, 2);
}

#[test]
fn request_carries_quoted_method_and_rendered_params() {
    let mut sidecar = started();
    let params: serde_json::Value =
        serde_json::from_str("{ \"id\": \"t-1\", \"tags\": [1, true, null], \"q\": \"a\\\"b\" }")
            .unwrap();
    let (id, line) = sent(sidecar.call("tasks.\"get\"\n", Some(&params)));
    assert_eq!(id, 1);
    assert_eq!(
        line,
        "{\"jsonrpc\":\"2.0\",\"id\":1,\"method\":\"tasks.\\\"get\\\"\\n\",\"params\":{\"id\":\"t-1\",\"q\":\"a\\\"b\",\"tags\":[1,true,null]}}\n"
    );
    let parsed: serde_json::Value = serde_json::from_str(&line).unwrap();
    assert_eq!(parsed["method"], "tasks.\"get\"\n");
    assert_eq!(parsed["params"], params);
    let (_, line) = sent(sidecar.call("m", Some(&serde_json::Value::Null)));
    assert_eq!(line, "{\"jsonrpc\":\"2.0\",\"id\":2,\"method\":\"m\",\"params\":null}\n");
}

#[test]
fn request_is_put_together_from_its_parts() {
    let request =
        assemble_request(18446744073709551615, Ok("\"m\"".to_string()), Some(Ok("[1]".to_string())))
            .unwrap();
    assert_eq!(request.id, u64::MAX);
    assert_eq!(
        request.line,
        "{\"jsonrpc\":\"2.0\",\"id\":18446744073709551615,\"method\":\"m\",\"params\":[1]}\n"
    );
    let request = assemble_request(0, Ok("\"m\"".to_string()), None).unwrap();
    assert_eq!(request.line, "{\"jsonrpc\":\"2.0\",\"id\":0,\"method\":\"m\"}\n");
    let error = assemble_request(1, Err("bad method".to_string()), Some(Err("bad params".to_string())))
        .unwrap_err();
    assert_eq!(error.message(), "Serialize error: bad method");
    assert_eq!(error.kind(), ErrorKind::Protocol);
    let error =
        assemble_request(1, Ok("\"m\"".to_string()), Some(Err("bad params".to_string()))).unwrap_err();
    assert_eq!(error.message(), "Serialize error: bad params");
}

#[test]
fn response_error_goes_before_its_result() {
    let response = JsonRpcResponse {
        id: Some(1),
        result: Some(serde_json::Value::Bool(true)),
        error: Some(JsonRpcError { code: -32601, message: "Method not found".to_string() }),
    };
    let error = complete_call(response).unwrap_err();
    assert!(matches!(&error, SidecarError::Remote { code: -32601, message } if message == "Method not found"));
    assert_eq!(error.message(), "[-32601] Method not found");
    assert_eq!(error.kind(), ErrorKind::Protocol);
}

#[test]
fn response_result_is_handed_on() {
    let value: serde_json::Value = serde_json::from_str("{\"ok\":[1,2]}").unwrap();
    let response = JsonRpcResponse { id: None, result: Some(value.clone()), error: None };
    assert_eq!(complete_call(response).unwrap(), value);
    let empty = JsonRpcResponse { id: Some(7), result: None, error: None };
    let error = complete_call(empty).unwrap_err();
    assert!(matches!(error, SidecarError::NoResult));
    assert_eq!(error.message(), "No result in response");
}

#[test]
fn error_codes_are_written_in_decimal() {
    for (code, text) in [(0, "[0] m"), (7, "[7] m"), (i32::MAX, "[2147483647] m"), (i32::MIN, "[-2147483648] m")] {
        let error = SidecarError::Remote { code, message: "m".to_string() };
        assert_eq!(error.message(), text);
    }
}

#[test]
fn empty_read_means_the_worker_closed() {
    assert!(reply_closed(""));
    assert!(!reply_closed("\n"));
    assert!(!reply_closed("{}"));
    assert_eq!(SidecarError::Closed.message(), "Sidecar closed connection");
    assert_eq!(SidecarError::Closed.kind(), ErrorKind::Transport);
}

#[test]
fn malformed_reply_reports_reason_and_line() {
    let error = malformed_reply("expected value at line 1 column 1", "  oops\n");
    assert_eq!(error.message(), "Parse error: expected value at line 1 column 1 - line: oops");
    assert_eq!(error.kind(), ErrorKind::Protocol);
}

#[test]
fn every_failure_has_its_message_and_kind() {
    let e = "boom".to_string();
    let cases = vec![
        (SidecarError::NotFound, "Sidecar not found", ErrorKind::Transport),
        (SidecarError::NoExeDir, "No exe dir", ErrorKind::Transport),
        (SidecarError::Environment(e.clone()), "boom", ErrorKind::Transport),
        (SidecarError::InterpreterNotFound(e.clone()), "Bun not found: boom", ErrorKind::Transport),
        (SidecarError::Spawn(e.clone()), "Failed to spawn sidecar: boom", ErrorKind::Transport),
        (SidecarError::NoStdin, "Failed to get stdin", ErrorKind::Transport),
        (SidecarError::NoStdout, "Failed to get stdout", ErrorKind::Transport),
        (
            SidecarError::HandshakeRead(e.clone()),
            "Read error waiting for tRPC URL: boom",
            ErrorKind::Transport,
        ),
        (SidecarError::Handshake(e.clone()), "Expected tRPC URL, got: boom", ErrorKind::Transport),
        (SidecarError::Serialize(e.clone()), "Serialize error: boom", ErrorKind::Protocol),
        (SidecarError::StdinUnavailable, "No stdin available", ErrorKind::Transport),
        (SidecarError::StdoutUnavailable, "No stdout reader available", ErrorKind::Transport),
        (SidecarError::Write(e.clone()), "Write error: boom", ErrorKind::Transport),
        (SidecarError::Flush(e.clone()), "Flush error: boom", ErrorKind::Transport),
        (SidecarError::Read(e.clone()), "Read error: boom", ErrorKind::Transport),
        (SidecarError::Closed, "Sidecar closed connection", ErrorKind::Transport),
        (
            SidecarError::Parse { detail: e.clone(), line: "x".to_string() },
            "Parse error: boom - line: x",
            ErrorKind::Protocol,
        ),
        (SidecarError::NoResult, "No result in response", ErrorKind::Protocol),
    ];
    for (error, message, kind) in cases {
        assert_eq!(error.message(), message);
        assert_eq!(error.kind(), kind);
    }
}

#[test]
fn worker_paths_lie_where_expected() {
    assert_eq!(source_script_in("/repo"), "/repo/packages/sidecar/src/index.ts");
    assert_eq!(source_script_in("/repo/"), "/repo/packages/sidecar/src/index.ts");
    assert_eq!(bundled_worker_in("/opt/app", false), "/opt/app/workopilot-sidecar");
    assert_eq!(bundled_worker_in("/opt/app", true), "/opt/app/workopilot-sidecar.exe");
}

fn search(
    dev_mode: bool,
    manifest: Option<bool>,
    cwd: Result<(bool, Option<bool>), &str>,
    bundled: Result<Option<bool>, &str>,
) -> SidecarSearch {
    SidecarSearch {
        dev_mode,
        manifest_script: manifest.map(|e| probe("/m/index.ts", e)),
        cwd: cwd
            .map(|(here, parent)| WorkingDirProbes {
                here: probe("/cwd/index.ts", here),
                parent: parent.map(|e| probe("/index.ts", e)),
            })
            .map_err(|e| e.to_string()),
        bundled: bundled.map(|b| b.map(|e| probe("/bin/worker", e))).map_err(|e| e.to_string()),
    }
}

fn found(s: &SidecarSearch) -> (String, bool) {
    let info = get_sidecar_path(s).unwrap();
    (info.path, info.is_compiled)
}

#[test]
fn search_prefers_source_scripts_in_development() {
    let all = search(true, Some(true), Ok((true, Some(true))), Ok(Some(true)));
    assert_eq!(found(&all), ("/m/index.ts".to_string(), false));
    let no_manifest = search(true, Some(false), Ok((true, Some(true))), Ok(Some(true)));
    assert_eq!(found(&no_manifest), ("/cwd/index.ts".to_string(), false));
    let unknown_manifest = search(true, None, Ok((false, Some(true))), Ok(Some(true)));
    assert_eq!(found(&unknown_manifest), ("/index.ts".to_string(), false));
    let only_bundled = search(true, Some(false), Ok((false, Some(false))), Ok(Some(true)));
    assert_eq!(found(&only_bundled), ("/bin/worker".to_string(), true));
    let no_parent = search(true, None, Ok((false, None)), Ok(Some(true)));
    assert_eq!(found(&no_parent), ("/bin/worker".to_string(), true));
    let manifest_hit = search(true, Some(true), Err("no cwd"), Err("no exe"));
    assert_eq!(found(&manifest_hit), ("/m/index.ts".to_string(), false));
}

#[test]
fn search_outside_development_looks_beside_the_program_only() {
    let s = search(false, Some(true), Ok((true, Some(true))), Ok(Some(true)));
    assert_eq!(found(&s), ("/bin/worker".to_string(), true));
    let s = search(false, Some(true), Ok((true, Some(true))), Ok(Some(false)));
    assert_eq!(get_sidecar_path(&s).unwrap_err().message(), "Sidecar not found");
}

#[test]
fn search_reports_what_it_could_not_find_out() {
    let s = search(true, Some(false), Err("cwd is gone"), Ok(Some(true)));
    assert_eq!(get_sidecar_path(&s).unwrap_err().message(), "cwd is gone");
    let s = search(true, None, Ok((false, None)), Err("exe is gone"));
    assert_eq!(get_sidecar_path(&s).unwrap_err().message(), "exe is gone");
    let s = search(false, None, Err("x"), Ok(None));
    assert!(matches!(get_sidecar_path(&s), Err(SidecarError::NoExeDir)));
    let s = search(true, None, Ok((false, Some(false))), Ok(Some(false)));
    assert!(matches!(get_sidecar_path(&s), Err(SidecarError::NotFound)));
}

fn response(result: Option<&str>, error: Option<(i32, &str)>) -> JsonRpcResponse {
    JsonRpcResponse {
        id: Some(1),
        result: result.map(|text| serde_json::from_str(text).unwrap()),
        error: error.map(|(code, message)| JsonRpcError { code, message: message.to_string() }),
    }
}

#[test]
fn closed_reply_goes_before_everything_else() {
    let error = reply_outcome("", Err("EOF while parsing a value".to_string())).unwrap_err();
    assert!(matches!(error, SidecarError::Closed));
    assert_eq!(error.message(), "Sidecar closed connection");
    assert_eq!(error.kind(), ErrorKind::Transport);
    let error = reply_outcome("", Ok(response(Some("1"), None))).unwrap_err();
    assert!(matches!(error, SidecarError::Closed));
    let error = reply_outcome("", Ok(response(None, Some((1, "m"))))).unwrap_err();
    assert!(matches!(error, SidecarError::Closed));
}

#[test]
fn reply_that_is_no_response_is_a_parse_failure() {
    let error = reply_outcome(" not json\n", Err("expected ident".to_string())).unwrap_err();
    assert!(matches!(&error, SidecarError::Parse { detail, line } if detail == "expected ident" && line == "not json"));
    assert_eq!(error.message(), "Parse error: expected ident - line: not json");
    let error = reply_outcome("\n", Err("EOF".to_string())).unwrap_err();
    assert_eq!(error.message(), "Parse error: EOF - line: ");
}

#[test]
fn reply_that_is_a_response_ends_the_call() {
    let value = reply_outcome("{...}\n", Ok(response(Some("{\"ok\":true}"), None))).unwrap();
    assert_eq!(value, serde_json::from_str::<serde_json::Value>("{\"ok\":true}").unwrap());
    let error = reply_outcome("{...}\n", Ok(response(Some("1"), Some((-5, "no"))))).unwrap_err();
    assert_eq!(error.message(), "[-5] no");
    let error = reply_outcome("{...}\n", Ok(response(None, None))).unwrap_err();
    assert!(matches!(error, SidecarError::NoResult));
}

#[test]
fn call_with_a_worker_always_has_a_request_to_send() {
    let mut sidecar = started();
    let odd: serde_json::Value = serde_json::from_str(
        "{\"\":[[],{},\"\\u0000\",1e300,-0.0,18446744073709551615,{\"a\":{\"b\":null}}]}",
    )
    .unwrap();
    for (method, params) in [("", None), ("\u{0}\u{1f}\u{7f}\u{2028}é\"\\", Some(&odd)), ("m", Some(&odd))] {
        let (_, line) = sent(sidecar.call(method, params));
        assert!(line.ends_with("}\n"));
        assert_eq!(line.matches('\n').count(), 1);
        let parsed: serde_json::Value = serde_json::from_str(&line).unwrap();
        assert_eq!(parsed["jsonrpc"], "2.0");
        assert_eq!(parsed["method"], method);
        assert_eq!(parsed.get("params"), params);
    }
}
