use duck_robot::call::CallKind;
use duck_robot::{code, Error, Id, Request, Response, JSONRPC_VERSION};

#[test]
fn a_call_request_carries_its_method_and_id() {
    let request = Request::call(Id::Number(1), CallKind::Apply, serde_json::Value::Null);
    assert_eq!(request.jsonrpc, JSONRPC_VERSION);
    assert_eq!(request.method, "update.apply");
    assert_eq!(request.id, Some(Id::Number(1)));
    assert!(!request.is_notification());
}

#[test]
fn notifications_carry_no_id() {
    let progress = Request::notification("update.progress", serde_json::Value::Null);
    assert!(progress.id.is_none());
    assert!(progress.is_notification());
    assert_eq!(progress.method, "update.progress");
    let request = Request::notify(CallKind::RobotMove, serde_json::Value::Null);
    assert!(request.id.is_none());
    assert!(request.is_notification());
    assert_eq!(request.method, "robot.move");
    let state = Request::notification("robot.state", serde_json::Value::Bool(true));
    assert!(state.is_notification());
    assert_eq!(state.params, Some(serde_json::Value::Bool(true)));
}

#[test]
fn responses_hold_exactly_one_half() {
    let ok = Response::ok(Some(Id::Text("a".into())), Ok(serde_json::Value::Bool(false)));
    assert_eq!(ok.result, Some(serde_json::Value::Bool(false)));
    assert!(ok.error.is_none());
    let unencodable = Response::ok(None, Err("key must be a string".to_owned()));
    assert!(unencodable.result.is_none());
    let error = unencodable.error.unwrap();
    assert_eq!(error.code, code::INTERNAL_ERROR);
    assert_eq!(error.message, "key must be a string");
    let busy = Response::err(Some(Id::Number(3)), Error::new(code::BUSY, "another update is in progress".to_owned()));
    assert_eq!(busy.error.unwrap().code, 1);
    assert!(busy.result.is_none());
}

#[test]
fn a_notification_is_recognised_by_its_method() {
    let state = Request::notification("robot.state", serde_json::Value::Null);
    assert!(state.carries("robot.state"));
    assert!(!state.carries("pad.report"));
    assert!(!state.carries("robot.stat"));
    assert!(!state.carries(""));
}
