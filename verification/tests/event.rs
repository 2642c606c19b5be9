use rizonet_core::api::event::{delivered, emit_script, AppHandle, UserEvent, WindowOp};
use rizonet_core::{RizonetError, StateMap};
use serde_json::Value;
use std::any::TypeId;
use std::cell::RefCell;
use std::rc::Rc;
use std::sync::Arc;

fn recorder() -> (Rc<RefCell<Vec<String>>>, impl Fn(UserEvent) -> bool) {
    let log = Rc::new(RefCell::new(Vec::new()));
    let sink = log.clone();
    (log, move |event: UserEvent| {
        sink.borrow_mut().push(format!("{:?}", event));
        true
    })
}

#[test]
fn handle_sends_what_it_is_asked() {
    let (log, sender) = recorder();
    let handle: AppHandle<_, u8> = AppHandle::new(sender, Arc::new(StateMap::new()));
    handle.show(true).unwrap();
    handle.minimize(false).unwrap();
    handle.maximize(true).unwrap();
    handle.focus().unwrap();
    handle.set_title("Hi".to_string()).unwrap();
    handle.close().unwrap();
    handle.devtools(true).unwrap();
    handle.eval_js("1 + 1").unwrap();
    handle.exit().unwrap();
    let expected: Vec<String> = vec![
        format!("{:?}", UserEvent::Window(WindowOp::Show(true))),
        format!("{:?}", UserEvent::Window(WindowOp::Minimize(false))),
        format!("{:?}", UserEvent::Window(WindowOp::Maximize(true))),
        format!("{:?}", UserEvent::Window(WindowOp::Focus)),
        format!("{:?}", UserEvent::Window(WindowOp::SetTitle("Hi".to_string()))),
        format!("{:?}", UserEvent::Window(WindowOp::Close)),
        format!("{:?}", UserEvent::Devtools(true)),
        format!("{:?}", UserEvent::EvalJs("1 + 1".to_string())),
        format!("{:?}", UserEvent::Exit),
    ];
    assert_eq!(*log.borrow(), expected);
}

#[test]
fn emit_quotes_event_and_payload() {
    assert_eq!(
        emit_script("notes:saved", &Value::from("foo \"bar\".md")),
        "window.__RIZONET_EMIT__(\"notes:saved\", \"foo \\\"bar\\\".md\");"
    );
    let (log, sender) = recorder();
    let handle: AppHandle<_, u8> = AppHandle::new(sender, Arc::new(StateMap::new()));
    handle.emit("e", &Value::Null).unwrap();
    let script = "window.__RIZONET_EMIT__(\"e\", null);".to_string();
    assert_eq!(*log.borrow(), vec![format!("{:?}", UserEvent::EvalJs(script))]);
}

#[test]
fn closed_loop_is_reported() {
    let handle: AppHandle<_, u8> = AppHandle::new(|_: UserEvent| false, Arc::new(StateMap::new()));
    match handle.exit() {
        Err(RizonetError::Other(m)) => assert_eq!(m, "event loop closed"),
        other => panic!("{:?}", other),
    }
    assert!(delivered(true).is_ok());
}

#[test]
fn handle_looks_up_state_by_type() {
    let mut state = StateMap::new();
    state.insert(TypeId::of::<u8>(), "a byte");
    let handle = AppHandle::new(|_: UserEvent| true, Arc::new(state));
    assert_eq!(handle.state(TypeId::of::<u8>()), Some(&"a byte"));
    assert_eq!(handle.state(TypeId::of::<u16>()), None);
}

#[test]
fn cloned_handles_look_into_the_same_state() {
    let mut state = StateMap::new();
    state.insert(TypeId::of::<u8>(), Arc::new(7));
    let handle = AppHandle::new(|_: UserEvent| true, Arc::new(state));
    let copy = handle.clone();
    let a = handle.state(TypeId::of::<u8>()).unwrap();
    let b = copy.state(TypeId::of::<u8>()).unwrap();
    assert!(Arc::ptr_eq(a, b));
}
