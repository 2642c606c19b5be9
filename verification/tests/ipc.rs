use rizonet_core::ipc::{complete, Invoke, InvokeResponse, IpcHandler, BRIDGE_SCRIPT};
use rizonet_core::{CapabilitiesConfig, RizonetError};
use serde_json::Value;

type Handler = Box<dyn Fn(Value) -> Result<Value, RizonetError>>;

fn echo() -> Handler {
    Box::new(|payload| Ok(payload))
}

fn constant(text: &'static str) -> Handler {
    Box::new(move |_| Ok(Value::from(text)))
}

fn failing() -> Handler {
    Box::new(|_| Err(RizonetError::Config("broken".to_string())))
}

fn invoke(id: u64, cmd: &str, payload: Value) -> Invoke {
    Invoke { id, cmd: cmd.to_string(), payload }
}

#[test]
fn registered_command_gets_its_payload() {
    let ipc = IpcHandler::new().register("echo", echo());
    let r = ipc.dispatch(invoke(7, "echo", Value::from(42)));
    assert_eq!(r.id, 7);
    assert!(r.ok);
    assert_eq!(r.data, Some(Value::from(42)));
    assert_eq!(r.error, None);
}

#[test]
fn unknown_command_is_rejected() {
    let ipc: IpcHandler<Handler> = IpcHandler::new();
    let r = ipc.dispatch(invoke(1, "nope", Value::Null));
    assert!(!r.ok);
    assert_eq!(r.data, None);
    assert_eq!(r.error.as_deref(), Some("unknown command: nope"));
}

#[test]
fn denied_command_is_rejected_even_if_registered() {
    let cap = CapabilitiesConfig { allow: vec![], deny: vec!["echo".to_string()] };
    let ipc = IpcHandler::new().register("echo", echo()).with_capabilities(cap);
    let r = ipc.dispatch(invoke(3, "echo", Value::Null));
    assert_eq!(r.id, 3);
    assert!(!r.ok);
    assert_eq!(r.error.as_deref(), Some("command denied by capabilities: echo"));
}

#[test]
fn denied_command_is_denied_before_it_is_unknown() {
    let cap = CapabilitiesConfig { allow: vec!["a:*".to_string()], deny: vec![] };
    let ipc: IpcHandler<Handler> = IpcHandler::new().with_capabilities(cap);
    let r = ipc.dispatch(invoke(3, "b:c", Value::Null));
    assert_eq!(r.error.as_deref(), Some("command denied by capabilities: b:c"));
}

#[test]
fn handler_failure_is_worded() {
    let ipc = IpcHandler::new().register("bad", failing());
    let r = ipc.dispatch(invoke(9, "bad", Value::Null));
    assert!(!r.ok);
    assert_eq!(r.data, None);
    assert_eq!(r.error.as_deref(), Some("configuration error: broken"));
}

#[test]
fn last_registration_answers() {
    let ipc = IpcHandler::new()
        .register("a", constant("first"))
        .register("b", constant("other"))
        .register("a", constant("second"));
    assert_eq!(ipc.dispatch(invoke(1, "a", Value::Null)).data, Some(Value::from("second")));
    assert_eq!(ipc.dispatch(invoke(2, "b", Value::Null)).data, Some(Value::from("other")));
}

#[test]
fn merging_carries_handlers_over() {
    let own = IpcHandler::new().register("a", constant("own a")).register("b", constant("own b"));
    let mut all = IpcHandler::new().register("a", constant("base"));
    let listed = own.handlers_iter();
    assert_eq!(listed.len(), 2);
    for (cmd, f) in listed {
        all = all.register_raw(cmd, f);
    }
    assert_eq!(all.dispatch(invoke(1, "a", Value::Null)).data, Some(Value::from("own a")));
    assert_eq!(all.dispatch(invoke(1, "b", Value::Null)).data, Some(Value::from("own b")));
    assert_eq!(all.handlers_iter().len(), 2);
}

#[test]
fn reply_script_of_a_result() {
    let ipc = IpcHandler::new().register("echo", echo());
    let script = ipc.respond(invoke(12, "echo", Value::from("it's \"me\"")));
    assert_eq!(script, "window.__RIZONET_RESOLVE__(12, true, \"it's \\\"me\\\"\");");
}

#[test]
fn reply_script_of_a_failure() {
    let ipc: IpcHandler<Handler> = IpcHandler::new();
    let script = ipc.respond(invoke(0, "x\ny", Value::Null));
    assert_eq!(script, "window.__RIZONET_RESOLVE__(0, false, \"unknown command: x\\ny\");");
}

#[test]
fn reply_script_of_the_largest_number() {
    let r = complete(u64::MAX, Ok(Value::Null));
    assert_eq!(
        r.resolve_script(),
        "window.__RIZONET_RESOLVE__(18446744073709551615, true, null);"
    );
}

#[test]
fn reply_script_without_result_or_failure() {
    let r = InvokeResponse { id: 5, ok: false, data: None, error: None };
    assert_eq!(r.resolve_script(), "window.__RIZONET_RESOLVE__(5, false, \"\");");
}

#[test]
fn reply_script_of_an_object_is_compact() {
    let mut map = serde_json::Map::new();
    map.insert("pong".to_string(), Value::Bool(true));
    let r = complete(1, Ok(Value::Object(map)));
    assert_eq!(r.resolve_script(), "window.__RIZONET_RESOLVE__(1, true, {\"pong\":true});");
}

#[test]
fn bridge_defines_what_the_scripts_call() {
    assert!(BRIDGE_SCRIPT.contains("window.__RIZONET__ ="));
    assert!(BRIDGE_SCRIPT.contains("window.__RIZONET_RESOLVE__ = function (id, ok, value)"));
    assert!(BRIDGE_SCRIPT.contains("window.__RIZONET_EMIT__ = function (event, payload)"));
}

#[test]
fn cloned_handler_answers_alike() {
    let cap = CapabilitiesConfig { allow: vec![], deny: vec!["b".to_string()] };
    let ipc = IpcHandler::new()
        .register("a", constant("a"))
        .register("b", constant("b"))
        .with_capabilities(cap);
    let copy = ipc.clone();
    assert_eq!(copy.handlers_iter().len(), 2);
    assert_eq!(copy.dispatch(invoke(1, "a", Value::Null)).data, Some(Value::from("a")));
    assert!(!copy.dispatch(invoke(1, "b", Value::Null)).ok);
    let empty: IpcHandler<Handler> = IpcHandler::default();
    assert_eq!(empty.handlers_iter().len(), 0);
}

#[test]
fn cloned_messages_are_equal() {
    let request = invoke(4, "x", Value::from("payload")).clone();
    assert_eq!((request.id, request.cmd.as_str()), (4, "x"));
    assert_eq!(request.payload, Value::from("payload"));
    let reply = complete(4, Ok(Value::from(1))).clone();
    assert_eq!((reply.id, reply.ok, reply.data), (4, true, Some(Value::from(1))));
    let reply = complete(4, Err(RizonetError::Other("no".to_string()))).clone();
    assert_eq!(reply.error.as_deref(), Some("no"));
}
