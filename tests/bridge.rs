use python_bridge::bridge::PythonBridge;
use python_bridge::codec::{
    decode, encode, read_response_fields, request_line_with, response_from_fields, CountField, Field, ProtocolErrorKind, PythonRequest,
    ResponseFields, ShapeError, TextField, ValueField,
};
use python_bridge::supervisor::{
    dispatch, Diagnostic, Dispatch, Lifecycle, SendError, StartError, Supervisor, WorkerEvent,
};
use serde_json::Value;

fn request(id: &str, payload: Value) -> PythonRequest {
    PythonRequest {
        request_id: id.to_string(),
        module: "m".to_string(),
        action: "a".to_string(),
        payload,
    }
}

fn empty_object() -> Value {
    Value::Object(serde_json::Map::new())
}

fn newline_count(s: &str) -> usize {
    s.chars().filter(|c| *c == '\n').count()
}

#[test]
fn encode_gives_compact_line() {
    let line = encode(&request("r1", empty_object())).ok().unwrap();
    assert_eq!(
        line,
        "{\"request_id\":\"r1\",\"module\":\"m\",\"action\":\"a\",\"payload\":{}}\n"
    );
}

#[test]
fn encode_escapes_newlines_in_payload_and_fields() {
    let mut map = serde_json::Map::new();
    map.insert("text".to_string(), Value::String("one\ntwo".to_string()));
    let mut req = request("id\nwith break", Value::Object(map));
    req.action = "x\r\ny".to_string();
    let line = encode(&req).ok().unwrap();
    assert_eq!(newline_count(&line), 1);
    assert!(line.ends_with('\n'));
    assert!(line.contains("one\\ntwo"));
    assert!(line.contains("\"id\\nwith break\""));
    let parsed: Value = serde_json::from_str(line.trim_end()).unwrap();
    assert_eq!(parsed["payload"]["text"], Value::String("one\ntwo".to_string()));
    assert_eq!(parsed["action"], Value::String("x\r\ny".to_string()));
}

#[test]
fn send_before_start_is_not_running() {
    let s = Supervisor::new();
    assert_eq!(s.state(), Lifecycle::Unstarted);
    assert!(matches!(s.send(&request("r1", empty_object())), Err(SendError::NotRunning)));
    let b = PythonBridge::new();
    assert_eq!(
        b.send_command(request("r1", empty_object())).err().unwrap(),
        "Python backend not running"
    );
}

#[test]
fn second_start_is_refused() {
    let mut s = Supervisor::new();
    assert!(s.start().is_ok());
    assert_eq!(s.state(), Lifecycle::Running);
    assert_eq!(s.start(), Err(StartError::AlreadyStarted));
    assert_eq!(s.state(), Lifecycle::Running);
    let mut b = PythonBridge::new();
    assert!(b.start().is_ok());
    assert_eq!(b.start().err().unwrap(), "Python backend already started");
}

#[test]
fn blank_lines_are_ignored() {
    assert!(matches!(decode(""), Ok(None)));
    assert!(matches!(decode("   \r\n"), Ok(None)));
    assert!(matches!(decode("\t\n"), Ok(None)));
}

#[test]
fn truncated_json_is_a_syntax_error() {
    match decode("  {\"type\":\"result\",\"request_id\"  \n") {
        Err(e) => {
            assert_eq!(e.line, "{\"type\":\"result\",\"request_id\"");
            assert!(matches!(e.kind, ProtocolErrorKind::Syntax(_)));
        }
        Ok(_) => panic!("decoded a truncated line"),
    }
}

#[test]
fn non_object_is_refused() {
    match decode("[1,2]") {
        Err(e) => assert!(matches!(e.kind, ProtocolErrorKind::NotAnObject)),
        Ok(_) => panic!("decoded an array"),
    }
}

fn shape_error(line: &str) -> ShapeError {
    match decode(line) {
        Err(e) => match e.kind {
            ProtocolErrorKind::Shape(s) => s,
            _ => panic!("not a shape error"),
        },
        Ok(_) => panic!("decoded a bad response"),
    }
}

#[test]
fn shape_errors_name_the_field() {
    assert_eq!(shape_error("{\"type\":\"result\"}"), ShapeError::Missing(Field::RequestId));
    assert_eq!(shape_error("{\"request_id\":\"r1\"}"), ShapeError::Missing(Field::Type));
    assert_eq!(
        shape_error("{\"type\":3,\"request_id\":\"r1\"}"),
        ShapeError::Invalid(Field::Type)
    );
    assert_eq!(
        shape_error("{\"type\":\"result\",\"request_id\":null}"),
        ShapeError::Invalid(Field::RequestId)
    );
    assert_eq!(
        shape_error("{\"type\":\"progress\",\"request_id\":\"r1\",\"progress\":4294967296}"),
        ShapeError::Invalid(Field::Progress)
    );
    assert_eq!(
        shape_error("{\"type\":\"progress\",\"request_id\":\"r1\",\"progress\":-1}"),
        ShapeError::Invalid(Field::Progress)
    );
    assert_eq!(
        shape_error("{\"type\":\"progress\",\"request_id\":\"r1\",\"progress\":2.5}"),
        ShapeError::Invalid(Field::Progress)
    );
    assert_eq!(
        shape_error("{\"type\":\"result\",\"request_id\":\"r1\",\"status\":true}"),
        ShapeError::Invalid(Field::Status)
    );
    assert_eq!(
        shape_error("{\"type\":\"result\",\"request_id\":\"r1\",\"message\":[]}"),
        ShapeError::Invalid(Field::Message)
    );
}

#[test]
fn decode_reads_all_fields() {
    let line = "{\"type\":\"progress\",\"request_id\":\"r9\",\"status\":null,\"data\":{\"x\":1},\
                \"error\":null,\"progress\":4294967295,\"message\":\"half\",\"extra\":0}";
    let r = decode(line).ok().unwrap().unwrap();
    assert_eq!(r.msg_type, "progress");
    assert_eq!(r.request_id, "r9");
    assert_eq!(r.status, None);
    assert_eq!(r.data, Some(serde_json::from_str::<Value>("{\"x\":1}").unwrap()));
    assert_eq!(r.error, None);
    assert_eq!(r.progress, Some(u32::MAX));
    assert_eq!(r.message, Some("half".to_string()));
}

#[test]
fn fields_build_the_response() {
    let fields = ResponseFields {
        msg_type: TextField::Text("result".to_string()),
        request_id: TextField::Text("r2".to_string()),
        status: TextField::Text("ok".to_string()),
        data: ValueField::Present(Value::Bool(true)),
        error: ValueField::Null,
        progress: CountField::Absent,
        message: TextField::Null,
    };
    let r = response_from_fields(fields).ok().unwrap();
    assert_eq!(r.msg_type, "result");
    assert_eq!(r.request_id, "r2");
    assert_eq!(r.status, Some("ok".to_string()));
    assert_eq!(r.data, Some(Value::Bool(true)));
    assert_eq!(r.error, None);
    assert_eq!(r.progress, None);
    assert_eq!(r.message, None);

    let fields = ResponseFields {
        msg_type: TextField::Other,
        request_id: TextField::Absent,
        status: TextField::Other,
        data: ValueField::Absent,
        error: ValueField::Absent,
        progress: CountField::Count(7),
        message: TextField::Absent,
    };
    assert_eq!(response_from_fields(fields).err().unwrap(), ShapeError::Invalid(Field::Type));
}

#[test]
fn progress_then_result_are_delivered_in_order() {
    let mut b = PythonBridge::new();
    b.start().unwrap();
    let line = b.send_command(request("r1", empty_object())).unwrap();
    assert_eq!(
        line,
        "{\"request_id\":\"r1\",\"module\":\"m\",\"action\":\"a\",\"payload\":{}}\n"
    );
    let worker_lines = [
        "{\"type\":\"progress\",\"request_id\":\"r1\",\"progress\":50}\n",
        "{\"type\":\"result\",\"request_id\":\"r1\",\"status\":\"ok\",\"data\":{\"x\":1}}\n",
    ];
    let mut seen = Vec::new();
    for l in worker_lines.iter() {
        if let Dispatch::Deliver(r) = b.handle_output(WorkerEvent::Stdout(l.to_string())) {
            seen.push(r);
        }
    }
    assert_eq!(seen.len(), 2);
    assert_eq!(seen[0].msg_type, "progress");
    assert_eq!(seen[0].request_id, "r1");
    assert_eq!(seen[0].progress, Some(50));
    assert_eq!(seen[1].msg_type, "result");
    assert_eq!(seen[1].request_id, "r1");
    assert_eq!(seen[1].status, Some("ok".to_string()));
    assert_eq!(seen[1].data, Some(serde_json::from_str::<Value>("{\"x\":1}").unwrap()));
    assert_eq!(b.state(), Lifecycle::Running);
}

#[test]
fn malformed_line_does_not_stop_the_loop() {
    let mut s = Supervisor::new();
    s.start().unwrap();
    let d = s.on_output(WorkerEvent::Stdout("{\"type\":\"res".to_string()));
    match d {
        Dispatch::Report(Diagnostic::Protocol(e)) => assert_eq!(e.line, "{\"type\":\"res"),
        _ => panic!("no protocol error"),
    }
    assert_eq!(s.state(), Lifecycle::Running);
    let d = s.on_output(WorkerEvent::Stdout(
        "{\"type\":\"result\",\"request_id\":\"r2\"}".to_string(),
    ));
    match d {
        Dispatch::Deliver(r) => assert_eq!(r.request_id, "r2"),
        _ => panic!("well-formed line not delivered"),
    }
    assert!(matches!(s.on_output(WorkerEvent::Stdout("  ".to_string())), Dispatch::Nothing));
}

#[test]
fn worker_exit_terminates_and_refuses_sends() {
    let mut b = PythonBridge::new();
    b.start().unwrap();
    assert!(b.send_command(request("r1", empty_object())).is_ok());
    let d = b.handle_output(WorkerEvent::Terminated { code: Some(1), signal: None });
    assert!(matches!(
        d,
        Dispatch::Report(Diagnostic::Terminated { code: Some(1), signal: None })
    ));
    assert_eq!(b.state(), Lifecycle::Terminated);
    for i in 0..3 {
        let id = format!("later{}", i);
        assert_eq!(
            b.send_command(request(&id, empty_object())).err().unwrap(),
            "Python backend not running"
        );
    }
    assert!(matches!(
        b.handle_output(WorkerEvent::Stderr("bye".to_string())),
        Dispatch::Report(_)
    ));
    assert_eq!(b.state(), Lifecycle::Terminated);
    assert_eq!(b.start().err().unwrap(), "Python backend already started");
}

#[test]
fn stderr_and_errors_are_diagnostics() {
    let mut s = Supervisor::new();
    s.start().unwrap();
    match s.on_output(WorkerEvent::Stderr("{\"type\":\"result\"}".to_string())) {
        Dispatch::Report(Diagnostic::WorkerLog(t)) => assert_eq!(t, "{\"type\":\"result\"}"),
        _ => panic!("standard error parsed as protocol data"),
    }
    assert_eq!(s.state(), Lifecycle::Running);
    match s.on_output(WorkerEvent::Error("broken pipe".to_string())) {
        Dispatch::Report(Diagnostic::ProcessError(m)) => assert_eq!(m, "broken pipe"),
        _ => panic!("error not reported"),
    }
    assert_eq!(s.state(), Lifecycle::Terminated);
    assert!(matches!(s.send(&request("r3", empty_object())), Err(SendError::NotRunning)));
}

#[test]
fn stop_is_safe_in_any_state() {
    let mut b = PythonBridge::new();
    assert!(!b.stop());
    assert_eq!(b.state(), Lifecycle::Terminated);
    let mut b = PythonBridge::new();
    b.start().unwrap();
    assert!(b.stop());
    assert!(!b.stop());
    assert_eq!(b.state(), Lifecycle::Terminated);
}

#[test]
fn dispatch_maps_each_outcome() {
    assert!(matches!(dispatch(Ok(None)), Dispatch::Nothing));
    assert!(matches!(dispatch(decode("{")), Dispatch::Report(Diagnostic::Protocol(_))));
    assert!(matches!(
        dispatch(decode("{\"type\":\"result\",\"request_id\":\"r\"}")),
        Dispatch::Deliver(_)
    ));
}

#[test]
fn many_sends_give_separate_lines() {
    let mut b = PythonBridge::new();
    b.start().unwrap();
    let mut input = String::new();
    for i in 0..50 {
        let mut map = serde_json::Map::new();
        map.insert("n".to_string(), Value::from(i));
        map.insert("note".to_string(), Value::String("a\nb\n".to_string()));
        input.push_str(&b.send_command(request(&format!("r{}", i), Value::Object(map))).unwrap());
    }
    let lines: Vec<&str> = input.split_terminator('\n').collect();
    assert_eq!(lines.len(), 50);
    for (i, l) in lines.iter().enumerate() {
        let v: Value = serde_json::from_str(l).unwrap();
        assert_eq!(v["request_id"], Value::String(format!("r{}", i)));
        assert_eq!(v["payload"]["n"], Value::from(i));
    }
}

#[test]
fn encode_escapes_quotes_backslashes_and_controls() {
    let mut req = request("q\"b\\s\u{1}\u{1f}\u{8}\u{c}\t\u{7f}é", empty_object());
    req.module = String::new();
    let line = encode(&req).ok().unwrap();
    assert_eq!(
        line,
        "{\"request_id\":\"q\\\"b\\\\s\\u0001\\u001f\\b\\f\\t\u{7f}é\",\"module\":\"\",\
         \"action\":\"a\",\"payload\":{}}\n"
    );
}

#[test]
fn unicode_white_space_is_trimmed() {
    assert!(matches!(decode("\u{3000}\u{85}\u{a0} \u{2029}"), Ok(None)));
    let r = decode("\u{3000}{\"type\":\"result\",\"request_id\":\"r5\"}\u{85}\u{2028}")
        .ok()
        .unwrap()
        .unwrap();
    assert_eq!(r.request_id, "r5");
    match decode("\u{a0}nope\u{205f}") {
        Err(e) => {
            assert_eq!(e.line, "nope");
            match e.kind {
                ProtocolErrorKind::Syntax(m) => assert!(!m.is_empty()),
                _ => panic!("not a syntax error"),
            }
        }
        Ok(_) => panic!("decoded text that is not JSON"),
    }
}

#[test]
fn request_line_takes_the_payload_text() {
    let line = request_line_with("r7", "mod\n", "act", "[1,{\"k\":null}]");
    assert_eq!(
        line,
        "{\"request_id\":\"r7\",\"module\":\"mod\\n\",\"action\":\"act\",\"payload\":[1,{\"k\":null}]}\n"
    );
}

#[test]
fn response_fields_come_from_their_wire_keys() {
    let t = "{\"kind\":\"x\",\"type\":\"result\",\"request_id\":\"r8\",\"percent\":9,\
             \"progress\":3,\"status\":null,\"data\":[true],\"message\":7}";
    let f = read_response_fields(t).ok().unwrap().unwrap();
    assert!(matches!(f.msg_type, TextField::Text(ref s) if s == "result"));
    assert!(matches!(f.request_id, TextField::Text(ref s) if s == "r8"));
    assert!(matches!(f.status, TextField::Null));
    assert!(matches!(f.data, ValueField::Present(Value::Array(_))));
    assert!(matches!(f.error, ValueField::Absent));
    assert!(matches!(f.progress, CountField::Count(3)));
    assert!(matches!(f.message, TextField::Other));
    assert!(matches!(read_response_fields("\"text\""), Ok(None)));
    assert!(read_response_fields("{\"type\"").is_err());
}
