use rizonet_core::api::builtins::{
    all_builtins, answer, confirm, default_level, default_method, direct, emit, fetch,
    finish_ask, finish_fetch, finish_locate, finish_message, finish_notify, finish_open,
    finish_pick, finish_post, finish_read_clipboard, finish_write_clipboard, message,
    message_level, method_problem, notify, open_file, register_all, response_value, save_file, window_event, BaseFolders,
    Builtin, ClipboardWrite, DialogEnd, DialogFilter, DirectCommand, EmitArgs, FetchArgs,
    FetchOutcome, FetchResponse, HostAction, KnownFolders, MessageArgs, MessageLevel, NotifyArgs, OpenFileArgs,
    PathKind, Picker, Reply, Route, SaveFileArgs, UserFolders, WindowCommand,
};
use rizonet_core::api::event::{UserEvent, WindowOp};
use rizonet_core::ipc::{Invoke, IpcHandler};
use rizonet_core::name_map::NameMap;
use rizonet_core::RizonetError;
use serde_json::Value;

fn text(s: &str) -> String {
    s.to_string()
}

fn object(name: &str, value: Value) -> Value {
    let mut map = serde_json::Map::new();
    map.insert(name.to_string(), value);
    Value::Object(map)
}

fn json(reply: Reply) -> String {
    answer(reply).to_string()
}

fn failure(r: Result<Reply, RizonetError>) -> String {
    r.unwrap_err().message()
}

type Handler = Box<dyn Fn(Value) -> Result<Value, RizonetError>>;

fn name_handler(b: Builtin) -> Handler {
    Box::new(move |_| Ok(Value::from(b.command())))
}

#[test]
fn every_builtin_is_registered_under_its_name() {
    let ipc = register_all(IpcHandler::new(), name_handler);
    let all = all_builtins();
    assert_eq!(all.len(), 29);
    assert_eq!(ipc.handlers_iter().len(), 29);
    for b in all {
        let r = ipc.dispatch(Invoke { id: 1, cmd: text(b.command()), payload: Value::Null });
        assert_eq!(r.data, Some(Value::from(b.command())));
    }
}

#[test]
fn builtin_names_are_the_documented_ones() {
    let names: Vec<&str> = all_builtins().into_iter().map(|b| b.command()).collect();
    for expected in [
        "dialog:open_file",
        "dialog:save_file",
        "dialog:message",
        "dialog:confirm",
        "notification:send",
        "clipboard:read_text",
        "clipboard:write_text",
        "shell:open",
        "path:home",
        "path:config",
        "path:data",
        "path:cache",
        "path:documents",
        "path:desktop",
        "path:download",
        "path:temp",
        "http:fetch",
        "window:show",
        "window:hide",
        "window:minimize",
        "window:unminimize",
        "window:maximize",
        "window:unmaximize",
        "window:focus",
        "window:set_title",
        "window:close",
        "devtools:open",
        "devtools:close",
        "event:emit",
    ] {
        assert!(names.contains(&expected));
    }
}

#[test]
fn registering_builtins_replaces_and_keeps() {
    let before = IpcHandler::new()
        .register("path:home", Box::new(|_| Ok(Value::from("old"))) as Handler)
        .register("mine", Box::new(|_| Ok(Value::from("kept"))) as Handler);
    let ipc = register_all(before, name_handler);
    let home = Invoke { id: 1, cmd: text("path:home"), payload: Value::Null };
    assert_eq!(ipc.dispatch(home).data, Some(Value::from("path:home")));
    let mine = Invoke { id: 1, cmd: text("mine"), payload: Value::Null };
    assert_eq!(ipc.dispatch(mine).data, Some(Value::from("kept")));
}

#[test]
fn builtins_are_routed() {
    assert_eq!(Builtin::DialogOpenFile.route(), Route::OpenFile);
    assert_eq!(Builtin::EventEmit.route(), Route::Emit);
    assert_eq!(
        Builtin::PathTemp.route(),
        Route::Direct(DirectCommand::Locate(PathKind::Temp))
    );
    assert_eq!(
        Builtin::WindowHide.route(),
        Route::Direct(DirectCommand::Window(WindowCommand::Hide))
    );
}

fn open_args(directory: bool, multiple: bool) -> OpenFileArgs {
    OpenFileArgs {
        title: Some(text("Pick")),
        directory,
        multiple,
        filters: vec![DialogFilter { name: text("Text"), extensions: vec![text("txt")] }],
        default_path: Some(text("/tmp")),
    }
}

#[test]
fn open_file_chooses_its_picker() {
    for (directory, multiple, expected) in [
        (true, true, Picker::Folders),
        (true, false, Picker::Folder),
        (false, true, Picker::Files),
        (false, false, Picker::File),
    ] {
        match open_file(Some(open_args(directory, multiple))) {
            HostAction::Pick(picker, dialog) => {
                assert_eq!(picker, expected);
                assert_eq!(dialog.title.as_deref(), Some("Pick"));
                assert_eq!(dialog.directory.as_deref(), Some("/tmp"));
                assert_eq!(dialog.filters.len(), 1);
                assert_eq!(dialog.filters[0].extensions, vec!["txt"]);
                assert_eq!(dialog.file_name, None);
            }
            other => panic!("{:?}", other),
        }
    }
}

#[test]
fn dialogs_without_arguments_use_defaults() {
    match open_file(None) {
        HostAction::Pick(Picker::File, dialog) => {
            assert_eq!((dialog.title, dialog.directory, dialog.file_name), (None, None, None));
            assert!(dialog.filters.is_empty());
        }
        other => panic!("{:?}", other),
    }
    match save_file(None) {
        HostAction::Pick(Picker::Save, dialog) => {
            assert_eq!((dialog.title, dialog.directory, dialog.file_name), (None, None, None));
        }
        other => panic!("{:?}", other),
    }
}

#[test]
fn save_file_proposes_a_name() {
    let args = SaveFileArgs {
        title: None,
        filters: vec![],
        default_path: None,
        file_name: Some(text("a.md")),
    };
    match save_file(Some(args)) {
        HostAction::Pick(Picker::Save, dialog) => {
            assert_eq!(dialog.file_name.as_deref(), Some("a.md"));
        }
        other => panic!("{:?}", other),
    }
}

#[test]
fn levels_are_known_by_name() {
    assert_eq!(message_level("error"), MessageLevel::Error);
    assert_eq!(message_level("warn"), MessageLevel::Warning);
    assert_eq!(message_level("warning"), MessageLevel::Warning);
    assert_eq!(message_level("info"), MessageLevel::Info);
    assert_eq!(message_level("ERROR"), MessageLevel::Info);
    assert_eq!(default_level(), "info");
    assert_eq!(default_method(), "GET");
}

#[test]
fn message_and_confirm_carry_their_texts() {
    let args = || MessageArgs { title: text("T"), message: text("M"), level: text("warn") };
    match message(Ok(args())) {
        Ok(HostAction::ShowMessage { title, message, level }) => {
            assert_eq!((title.as_str(), message.as_str()), ("T", "M"));
            assert_eq!(level, MessageLevel::Warning);
        }
        other => panic!("{:?}", other),
    }
    match confirm(Ok(args())) {
        Ok(HostAction::Ask { title, message }) => {
            assert_eq!((title.as_str(), message.as_str()), ("T", "M"));
        }
        other => panic!("{:?}", other),
    }
}

#[test]
fn arguments_that_are_not_understood_fail() {
    assert_eq!(message(Err(text("e"))).unwrap_err().message(), "serde error: e");
    assert_eq!(confirm(Err(text("e"))).unwrap_err().message(), "serde error: e");
    assert_eq!(notify(Err(text("e"))).unwrap_err().message(), "serde error: e");
    assert_eq!(fetch(Err(text("e"))).unwrap_err().message(), "serde error: e");
    assert_eq!(emit(Err(text("e"))).unwrap_err().message(), "serde error: e");
}

#[test]
fn notify_fetch_and_emit_become_actions() {
    let n = NotifyArgs { title: text("T"), body: text("B"), subtitle: Some(text("S")) };
    match notify(Ok(n)) {
        Ok(HostAction::Notify { title, body, subtitle }) => {
            assert_eq!((title.as_str(), body.as_str()), ("T", "B"));
            assert_eq!(subtitle.as_deref(), Some("S"));
        }
        other => panic!("{:?}", other),
    }
    let f = FetchArgs {
        method: default_method(),
        url: text("http://x"),
        headers: NameMap::new(),
        body: None,
        timeout_ms: Some(5),
    };
    match fetch(Ok(f)) {
        Ok(HostAction::Fetch(args)) => {
            assert_eq!((args.method.as_str(), args.url.as_str()), ("GET", "http://x"));
            assert_eq!(args.timeout_ms, Some(5));
        }
        other => panic!("{:?}", other),
    }
    match emit(Ok(EmitArgs { event: text("e"), payload: Value::from(1) })) {
        Ok(HostAction::Post(UserEvent::EvalJs(script))) => {
            assert_eq!(script, "window.__RIZONET_EMIT__(\"e\", 1);");
        }
        other => panic!("{:?}", other),
    }
}

#[test]
fn direct_commands_read_their_payload() {
    match direct(DirectCommand::WriteClipboard, &object("text", Value::from("t"))) {
        Ok(HostAction::WriteClipboard(t)) => assert_eq!(t, "t"),
        other => panic!("{:?}", other),
    }
    match direct(DirectCommand::Open, &object("target", Value::from("https://x"))) {
        Ok(HostAction::Open(t)) => assert_eq!(t, "https://x"),
        other => panic!("{:?}", other),
    }
    match direct(DirectCommand::SetTitle, &object("title", Value::from("New"))) {
        Ok(HostAction::Post(UserEvent::Window(WindowOp::SetTitle(t)))) => assert_eq!(t, "New"),
        other => panic!("{:?}", other),
    }
    assert!(matches!(
        direct(DirectCommand::ReadClipboard, &Value::Null),
        Ok(HostAction::ReadClipboard)
    ));
    assert!(matches!(
        direct(DirectCommand::Locate(PathKind::Cache), &Value::Null),
        Ok(HostAction::Locate(PathKind::Cache))
    ));
    assert!(matches!(
        direct(DirectCommand::Devtools(false), &Value::Null),
        Ok(HostAction::Post(UserEvent::Devtools(false)))
    ));
}

#[test]
fn missing_members_are_reported() {
    let cases = [
        (DirectCommand::WriteClipboard, "missing `text`"),
        (DirectCommand::Open, "missing `target`"),
        (DirectCommand::SetTitle, "missing `title`"),
    ];
    for (cmd, wording) in cases {
        assert_eq!(direct(cmd, &Value::Null).unwrap_err().message(), wording);
        let wrong = object("text", Value::from(1));
        assert_eq!(direct(cmd, &wrong).unwrap_err().message(), wording);
    }
}

#[test]
fn window_commands_become_messages() {
    let cases = [
        (WindowCommand::Show, WindowOp::Show(true)),
        (WindowCommand::Hide, WindowOp::Show(false)),
        (WindowCommand::Minimize, WindowOp::Minimize(true)),
        (WindowCommand::Unminimize, WindowOp::Minimize(false)),
        (WindowCommand::Maximize, WindowOp::Maximize(true)),
        (WindowCommand::Unmaximize, WindowOp::Maximize(false)),
        (WindowCommand::Focus, WindowOp::Focus),
        (WindowCommand::Close, WindowOp::Close),
    ];
    for (cmd, op) in cases {
        assert_eq!(format!("{:?}", window_event(cmd)), format!("{:?}", UserEvent::Window(op)));
    }
}

#[test]
fn picked_paths_become_replies() {
    let paths = || DialogEnd::Closed(Some(vec![text("/a"), text("/b")]));
    assert_eq!(json(finish_pick(Picker::Files, paths()).unwrap()), "[\"/a\",\"/b\"]");
    assert_eq!(json(finish_pick(Picker::Folders, paths()).unwrap()), "[\"/a\",\"/b\"]");
    assert_eq!(json(finish_pick(Picker::Save, paths()).unwrap()), "\"/a\"");
    assert_eq!(json(finish_pick(Picker::Files, DialogEnd::Closed(None)).unwrap()), "[]");
    assert_eq!(json(finish_pick(Picker::File, DialogEnd::Closed(None)).unwrap()), "null");
    assert_eq!(failure(finish_pick(Picker::Folder, DialogEnd::Crashed)), "dialog thread panicked");
}

#[test]
fn message_dialogs_become_replies() {
    assert_eq!(json(finish_message(DialogEnd::Closed(())).unwrap()), "{\"ok\":true}");
    assert_eq!(failure(finish_message(DialogEnd::Crashed)), "dialog thread panicked");
    assert_eq!(json(finish_ask(DialogEnd::Closed(true)).unwrap()), "true");
    assert_eq!(json(finish_ask(DialogEnd::Closed(false)).unwrap()), "false");
    assert_eq!(failure(finish_ask(DialogEnd::Crashed)), "dialog thread panicked");
}

#[test]
fn host_failures_are_worded() {
    assert_eq!(json(finish_notify(Ok(())).unwrap()), "{\"ok\":true}");
    assert_eq!(failure(finish_notify(Err(text("x")))), "notification failed: x");
    assert_eq!(json(finish_open(Ok(())).unwrap()), "{\"ok\":true}");
    assert_eq!(failure(finish_open(Err(text("x")))), "shell open failed: x");
    assert_eq!(failure(finish_read_clipboard(Err(text("x")))), "clipboard unavailable: x");
    assert_eq!(
        failure(finish_write_clipboard(ClipboardWrite::Unavailable(text("x")))),
        "clipboard unavailable: x"
    );
    assert_eq!(
        failure(finish_write_clipboard(ClipboardWrite::Failed(text("x")))),
        "clipboard write failed: x"
    );
    assert_eq!(json(finish_write_clipboard(ClipboardWrite::Written).unwrap()), "{\"ok\":true}");
    assert_eq!(json(finish_post(true).unwrap()), "{\"ok\":true}");
    assert_eq!(failure(finish_post(false)), "event loop closed");
}

#[test]
fn clipboard_text_becomes_a_reply() {
    assert_eq!(json(finish_read_clipboard(Ok(Some(text("a\"b")))).unwrap()), "\"a\\\"b\"");
    assert_eq!(json(finish_read_clipboard(Ok(None)).unwrap()), "\"\"");
}

#[test]
fn known_folders_are_located() {
    let folders = KnownFolders {
        base: Some(BaseFolders {
            home: text("/h"),
            config: text("/h/.config"),
            data: text("/h/.local"),
            cache: text("/h/.cache"),
        }),
        user: Some(UserFolders {
            documents: Some(text("/h/Documents")),
            desktop: None,
            download: Some(text("/h/Downloads")),
        }),
        temp: text("/tmp"),
    };
    let at = |kind| json(finish_locate(kind, &folders));
    assert_eq!(at(PathKind::Home), "\"/h\"");
    assert_eq!(at(PathKind::Config), "\"/h/.config\"");
    assert_eq!(at(PathKind::Data), "\"/h/.local\"");
    assert_eq!(at(PathKind::Cache), "\"/h/.cache\"");
    assert_eq!(at(PathKind::Documents), "\"/h/Documents\"");
    assert_eq!(at(PathKind::Desktop), "null");
    assert_eq!(at(PathKind::Download), "\"/h/Downloads\"");
    assert_eq!(at(PathKind::Temp), "\"/tmp\"");
    let none = KnownFolders { base: None, user: None, temp: text("/tmp") };
    assert_eq!(json(finish_locate(PathKind::Home, &none)), "null");
    assert_eq!(json(finish_locate(PathKind::Download, &none)), "null");
}

#[test]
fn fetched_headers_are_merged() {
    let outcome = FetchOutcome::Answer {
        status: 200,
        headers: vec![
            (text("a"), Some(text("1"))),
            (text("b"), None),
            (text("a"), Some(text("2"))),
            (text("a"), None),
        ],
        body: text("hello"),
    };
    let reply = finish_fetch(outcome).unwrap();
    match &reply {
        Reply::Fetched(f) => {
            assert_eq!((f.status, f.body.as_str()), (200, "hello"));
            assert_eq!(f.headers.len(), 1);
            assert_eq!(f.headers.get("a").map(|s| s.as_str()), Some("2"));
        }
        other => panic!("{:?}", other),
    }
    let value = answer(reply);
    assert_eq!(value["status"], 200);
    assert_eq!(value["body"], "hello");
    assert_eq!(value["headers"]["a"], "2");
    assert_eq!(value["headers"].as_object().unwrap().len(), 1);
    assert_eq!(value.as_object().unwrap().len(), 3);
}

#[test]
fn responses_become_objects() {
    let mut headers = NameMap::new();
    headers.insert(text("x-b"), text("\"q\""));
    headers.insert(text("x-a"), text(""));
    let value = response_value(&FetchResponse { status: 404, headers, body: text("no\n") });
    assert_eq!(
        value.to_string(),
        "{\"body\":\"no\\n\",\"headers\":{\"x-a\":\"\",\"x-b\":\"\\\"q\\\"\"},\"status\":404}"
    );
    let none = FetchResponse { status: 200, headers: NameMap::new(), body: text("") };
    assert_eq!(response_value(&none).to_string(), "{\"body\":\"\",\"headers\":{},\"status\":200}");
}

#[test]
fn fetch_failures_are_worded() {
    assert_eq!(failure(finish_fetch(FetchOutcome::BadMethod(text("x")))), "bad HTTP method: x");
    assert_eq!(failure(finish_fetch(FetchOutcome::Io(text("x")))), "io error: x");
    assert_eq!(failure(finish_fetch(FetchOutcome::Network(text("x")))), "network error: x");
}

#[test]
fn methods_are_checked() {
    for good in ["GET", "get", "M-SEARCH", "x", "!#$%&'*+-.^_`|~09azAZ", "A-RATHER-LONG-METHOD-NAME"] {
        assert_eq!(method_problem(good), None);
    }
    for bad in ["", "GET ", "a b", "a/b", "\u{e4}", "(x)", "a\n"] {
        assert_eq!(method_problem(bad).as_deref(), Some("invalid HTTP method"));
    }
}
