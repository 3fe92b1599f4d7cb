use bouvet::protocol::{
    content_result, entries_result, pong, read_bool, read_i32, read_listing, read_text, read_u64,
    request_line, success_result, ExecCodeParams, ExecParams, ExecResult, FileEntry,
    ListDirParams, ReadFileParams, Request, Response, RpcError, WriteFileParams,
};

fn value(text: &str) -> serde_json::Value {
    serde_json::from_str(text).unwrap()
}

#[test]
fn test_response_lines() {
    assert_eq!(
        Response::success(1, pong()).to_line().unwrap(),
        "{\"jsonrpc\":\"2.0\",\"id\":1,\"result\":{\"pong\":true}}"
    );
    assert_eq!(
        Response::error(0, -32700, "parse error: x".into()).to_line().unwrap(),
        "{\"jsonrpc\":\"2.0\",\"id\":0,\"error\":{\"code\":-32700,\"message\":\"parse error: x\"}}"
    );
    let with_data = Response {
        jsonrpc: "2.0".into(),
        id: u64::MAX,
        result: None,
        error: Some(RpcError {
            code: i32::MIN,
            message: "a \"quoted\"\nline".into(),
            data: Some(value("[1,{\"k\":null}]")),
        }),
    };
    assert_eq!(
        with_data.to_line().unwrap(),
        "{\"jsonrpc\":\"2.0\",\"id\":18446744073709551615,\"error\":{\"code\":-2147483648,\"message\":\"a \\\"quoted\\\"\\nline\",\"data\":[1,{\"k\":null}]}}"
    );
    let bare = Response {
        jsonrpc: "2.0".into(),
        id: 3,
        result: None,
        error: None,
    };
    assert_eq!(bare.to_line().unwrap(), "{\"jsonrpc\":\"2.0\",\"id\":3}");
    // Every line is JSON text that reads back as the response.
    let read_back: serde_json::Value =
        serde_json::from_str(&with_data.to_line().unwrap()).unwrap();
    assert_eq!(read_back["id"], u64::MAX);
    assert_eq!(read_back["error"]["message"], "a \"quoted\"\nline");
}

#[test]
fn test_response_constructors() {
    let ok = Response::success(7, value("{\"a\":1}"));
    assert_eq!(ok.jsonrpc, "2.0");
    assert_eq!(ok.id, 7);
    assert_eq!(ok.result, Some(value("{\"a\":1}")));
    assert!(ok.error.is_none());
    let failed = Response::error(8, -32603, "boom".into());
    assert_eq!(failed.jsonrpc, "2.0");
    assert_eq!(failed.id, 8);
    assert!(failed.result.is_none());
    let error = failed.error.unwrap();
    assert_eq!(error.code, -32603);
    assert_eq!(error.message, "boom");
    assert!(error.data.is_none());
}

#[test]
fn test_request_lines() {
    assert_eq!(
        request_line(1, "ping", &value("{}")).unwrap(),
        "{\"jsonrpc\":\"2.0\",\"id\":1,\"method\":\"ping\",\"params\":{}}"
    );
    assert_eq!(
        request_line(0, "a\"b", &value("null")).unwrap(),
        "{\"jsonrpc\":\"2.0\",\"id\":0,\"method\":\"a\\\"b\",\"params\":null}"
    );
}

#[test]
fn test_request_parsing() {
    let req =
        Request::parse("{\"jsonrpc\":\"2.0\",\"id\":1,\"method\":\"ping\",\"params\":{}}").unwrap();
    assert_eq!(req.jsonrpc, "2.0");
    assert_eq!(req.id, 1);
    assert_eq!(req.method, "ping");
    assert_eq!(req.params, value("{}"));
    let req = Request::parse(
        " {\"method\":\"m\",\"extra\":true,\"id\":18446744073709551615,\"jsonrpc\":\"1.0\"} ",
    )
    .unwrap();
    assert_eq!(req.jsonrpc, "1.0");
    assert_eq!(req.id, u64::MAX);
    assert_eq!(req.params, serde_json::Value::Null);
    assert_eq!(
        Request::parse("{\"jsonrpc\":\"2.0\",\"method\":\"m\"}").unwrap_err(),
        "missing field `id`"
    );
    assert_eq!(
        Request::parse("{\"jsonrpc\":\"2.0\",\"id\":1.5,\"method\":\"m\"}").unwrap_err(),
        "invalid type for field `id`, expected an unsigned 64-bit integer"
    );
    assert_eq!(
        Request::parse("{\"jsonrpc\":\"2.0\",\"id\":1,\"method\":7}").unwrap_err(),
        "invalid type for field `method`, expected a string"
    );
    assert!(Request::parse("{").is_err());
    assert!(Request::from_value(&value("7")).is_err());
    // What a client writes is what the agent reads.
    let line = request_line(12, "exec", &ExecParams { cmd: "ls -la".into() }.to_value()).unwrap();
    let req = Request::parse(&line).unwrap();
    assert_eq!((req.id, req.method.as_str()), (12, "exec"));
    assert_eq!(ExecParams::from_value(&req.params).unwrap().cmd, "ls -la");
}

#[test]
fn test_field_readers() {
    let v = value("{\"s\":\"x\",\"n\":5,\"neg\":-5,\"big\":4294967296,\"b\":false,\"f\":1.0}");
    assert_eq!(read_text(&v, "s").unwrap(), "x");
    assert_eq!(read_text(&v, "n").unwrap_err(), "invalid type for field `n`, expected a string");
    assert_eq!(read_text(&v, "nope").unwrap_err(), "missing field `nope`");
    assert_eq!(read_u64(&v, "n").unwrap(), 5);
    assert_eq!(read_u64(&v, "big").unwrap(), 4294967296);
    assert!(read_u64(&v, "neg").is_err());
    assert!(read_u64(&v, "f").is_err());
    assert_eq!(read_i32(&v, "neg").unwrap(), -5);
    assert!(read_i32(&v, "big").is_err());
    assert!(read_i32(&v, "s").is_err());
    assert!(!read_bool(&v, "b").unwrap());
    assert!(read_bool(&v, "n").is_err());
    assert!(read_bool(&value("[]"), "b").is_err());
    assert_eq!(read_i32(&value("{\"n\":2147483647}"), "n").unwrap(), i32::MAX);
    assert_eq!(read_i32(&value("{\"n\":-2147483648}"), "n").unwrap(), i32::MIN);
    assert!(read_i32(&value("{\"n\":-2147483649}"), "n").is_err());
}

#[test]
fn test_params_round_trip() {
    let exec = ExecParams { cmd: "echo hello".into() };
    assert_eq!(exec.to_value(), value("{\"cmd\":\"echo hello\"}"));
    assert_eq!(ExecParams::from_value(&exec.to_value()).unwrap().cmd, "echo hello");
    let code = ExecCodeParams {
        lang: "python".into(),
        code: "print(2+2)".into(),
    };
    let back = ExecCodeParams::from_value(&code.to_value()).unwrap();
    assert_eq!((back.lang.as_str(), back.code.as_str()), ("python", "print(2+2)"));
    assert_eq!(
        ExecCodeParams::from_value(&value("{\"code\":\"x\"}")).unwrap_err(),
        "missing field `lang`"
    );
    let read = ReadFileParams { path: "/p".into() };
    assert_eq!(ReadFileParams::from_value(&read.to_value()).unwrap().path, "/p");
    let write = WriteFileParams {
        path: "/p".into(),
        content: "xyz".into(),
    };
    let back = WriteFileParams::from_value(&write.to_value()).unwrap();
    assert_eq!((back.path.as_str(), back.content.as_str()), ("/p", "xyz"));
    assert_eq!(
        WriteFileParams::from_value(&value("{\"path\":\"/p\"}")).unwrap_err(),
        "missing field `content`"
    );
    let list = ListDirParams { path: "/d".into() };
    assert_eq!(ListDirParams::from_value(&list.to_value()).unwrap().path, "/d");
}

#[test]
fn test_results_round_trip() {
    let result = ExecResult {
        exit_code: -1,
        stdout: "out".into(),
        stderr: "err".into(),
    };
    assert_eq!(
        result.to_value(),
        value("{\"exit_code\":-1,\"stdout\":\"out\",\"stderr\":\"err\"}")
    );
    let back = ExecResult::from_value(&result.to_value()).unwrap();
    assert_eq!(
        (back.exit_code, back.stdout.as_str(), back.stderr.as_str()),
        (-1, "out", "err")
    );
    let failed = ExecResult::error("could not run");
    assert_eq!(
        (failed.exit_code, failed.stdout.as_str(), failed.stderr.as_str()),
        (-1, "", "could not run")
    );
    assert!(!failed.success());

    let entry = FileEntry {
        name: "file1".into(),
        is_dir: false,
        size: 7,
    };
    assert_eq!(
        entry.to_value(),
        value("{\"name\":\"file1\",\"is_dir\":false,\"size\":7}")
    );
    let back = FileEntry::from_value(&entry.to_value()).unwrap();
    assert_eq!((back.name.as_str(), back.is_dir, back.size), ("file1", false, 7));
    let listing = entries_result(&vec![entry.clone(), entry]);
    assert_eq!(read_listing(&listing).unwrap().len(), 2);
    assert_eq!(entries_result(&Vec::new()), value("{\"entries\":[]}"));
    assert_eq!(content_result("xyz".into()), value("{\"content\":\"xyz\"}"));
    assert_eq!(success_result(false), value("{\"success\":false}"));
    assert_eq!(pong(), value("{\"pong\":true}"));
}

#[test]
fn test_file_content_survives_the_wire() {
    let content = "line 1\nline \"2\"\t\u{1F600} \\ end".to_string();
    let response = Response::success(3, content_result(content.clone()));
    let line = format!("{}\n", response.to_line().unwrap());
    let result = bouvet::client::interpret_response(&line).unwrap();
    assert_eq!(bouvet::client::read_file_result(&result).unwrap(), content);
}
