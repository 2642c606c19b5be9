use rizonet_core::api::builtins::Builtin;
use rizonet_core::api::event::{UserEvent, WindowOp};
use rizonet_core::app::{handle_user_event, EventLoop, LoopEvent, UiAction};
use rizonet_core::config::{AppConfig, BuildConfig, RizonetConfig, RuntimeConfig, WindowConfig};
use rizonet_core::ipc::{Invoke, IpcHandler};
use rizonet_core::{AppBuilder, CapabilitiesConfig, Plugin, RizonetError};
use serde_json::Value;
use std::any::TypeId;
use std::cell::Cell;
use std::path::PathBuf;
use std::rc::Rc;

type Handler = Box<dyn Fn(Value) -> Result<Value, RizonetError>>;

fn says(text: &'static str) -> Handler {
    Box::new(move |_| Ok(Value::from(text)))
}

fn builtin(b: Builtin) -> Handler {
    Box::new(move |_| Ok(Value::from(b.command())))
}

struct Probe {
    name: &'static str,
    command: Option<&'static str>,
    fails: bool,
    started: Rc<Cell<u32>>,
    exited: Rc<Cell<u32>>,
}

fn probe(name: &'static str, command: Option<&'static str>, fails: bool) -> Probe {
    Probe {
        name,
        command,
        fails,
        started: Rc::new(Cell::new(0)),
        exited: Rc::new(Cell::new(0)),
    }
}

impl Plugin<Handler> for Probe {
    fn name(&self) -> &str {
        self.name
    }

    fn register(&self, ipc: IpcHandler<Handler>) -> IpcHandler<Handler> {
        match self.command {
            Some(command) => ipc.register(command, says(self.name)),
            None => ipc,
        }
    }

    fn on_start(&self) -> Result<(), RizonetError> {
        self.started.set(self.started.get() + 1);
        if self.fails {
            Err(RizonetError::Other("no".to_string()))
        } else {
            Ok(())
        }
    }

    fn on_exit(&self) {
        self.exited.set(self.exited.get() + 1);
    }
}

struct Plain;

impl Plugin<Handler> for Plain {
    fn name(&self) -> &str {
        "plain"
    }
}

fn config() -> RizonetConfig {
    RizonetConfig {
        app: AppConfig {
            name: "Demo".to_string(),
            identifier: "net.rizonet.demo".to_string(),
            dev_url: None,
            dist_dir: "web".to_string(),
        },
        window: WindowConfig::default(),
        runtime: RuntimeConfig::default(),
        build: BuildConfig::default(),
        capabilities: CapabilitiesConfig::default(),
    }
}

fn ask(ipc: &IpcHandler<Handler>, cmd: &str) -> Result<Value, String> {
    let r = ipc.dispatch(Invoke { id: 1, cmd: cmd.to_string(), payload: Value::Null });
    match r.data {
        Some(v) => Ok(v),
        None => Err(r.error.unwrap()),
    }
}

#[test]
fn own_handlers_override_builtins() {
    let own = IpcHandler::new().register("path:home", says("mine")).register("ping", says("pong"));
    let app = AppBuilder::<Handler, Probe, u8>::new(config()).ipc(own).build(builtin);
    assert_eq!(ask(app.ipc(), "path:home"), Ok(Value::from("mine")));
    assert_eq!(ask(app.ipc(), "path:temp"), Ok(Value::from("path:temp")));
    assert_eq!(ask(app.ipc(), "ping"), Ok(Value::from("pong")));
    assert_eq!(ask(app.ipc(), "nope"), Err("unknown command: nope".to_string()));
}

#[test]
fn configuration_gates_the_commands() {
    let mut cfg = config();
    cfg.capabilities =
        CapabilitiesConfig { allow: vec!["path:*".to_string()], deny: vec!["path:temp".to_string()] };
    let loose = IpcHandler::new().register("ping", says("pong"));
    let app = AppBuilder::<Handler, Probe, u8>::new(cfg).ipc(loose).build(builtin);
    assert_eq!(ask(app.ipc(), "path:home"), Ok(Value::from("path:home")));
    assert_eq!(
        ask(app.ipc(), "path:temp"),
        Err("command denied by capabilities: path:temp".to_string())
    );
    assert_eq!(ask(app.ipc(), "ping"), Err("command denied by capabilities: ping".to_string()));
}

#[test]
fn plugins_contribute_in_order() {
    let own = IpcHandler::new().register("x", says("own"));
    let app = AppBuilder::<Handler, Probe, u8>::new(config())
        .ipc(own)
        .plugin(probe("first", Some("x"), false))
        .plugin(probe("second", Some("x"), false))
        .plugin(probe("third", Some("y"), false))
        .build(builtin);
    assert_eq!(ask(app.ipc(), "x"), Ok(Value::from("second")));
    assert_eq!(ask(app.ipc(), "y"), Ok(Value::from("third")));
}

#[test]
fn with_ipc_extends_the_handler() {
    let app = AppBuilder::<Handler, Probe, u8>::new(config())
        .ipc(IpcHandler::new().register("a", says("a")))
        .with_ipc(|ipc| ipc.register("b", says("b")))
        .build(builtin);
    assert_eq!(ask(app.ipc(), "a"), Ok(Value::from("a")));
    assert_eq!(ask(app.ipc(), "b"), Ok(Value::from("b")));
}

#[test]
fn state_is_managed_by_type() {
    let app = AppBuilder::<Handler, Probe, &str>::new(config())
        .manage(TypeId::of::<u8>(), "byte")
        .manage(TypeId::of::<u16>(), "word")
        .manage(TypeId::of::<u8>(), "octet")
        .build(builtin);
    assert_eq!(app.state().get(TypeId::of::<u8>()), Some(&"octet"));
    assert_eq!(app.state().get(TypeId::of::<u16>()), Some(&"word"));
    assert_eq!(app.config().app.name, "Demo");
}

#[test]
fn every_start_hook_runs() {
    let a = probe("a", None, false);
    let b = probe("b", None, true);
    let c = probe("c", None, false);
    let d = probe("d", None, true);
    let counts: Vec<Rc<Cell<u32>>> =
        vec![a.started.clone(), b.started.clone(), c.started.clone(), d.started.clone()];
    let app = AppBuilder::<Handler, Probe, u8>::new(config())
        .plugin(a)
        .plugin(b)
        .plugin(c)
        .plugin(d)
        .build(builtin);
    let failed = app.start_plugins();
    let names: Vec<&str> = failed.iter().map(|f| f.0.as_str()).collect();
    assert_eq!(names, vec!["b", "d"]);
    assert_eq!(failed[0].1.message(), "no");
    assert!(counts.iter().all(|n| n.get() == 1));
}

#[test]
fn every_exit_hook_runs() {
    let a = probe("a", None, false);
    let b = probe("b", None, false);
    let counts = [a.exited.clone(), b.exited.clone()];
    let app =
        AppBuilder::<Handler, Probe, u8>::new(config()).plugin(a).plugin(b).build(builtin);
    app.exit_plugins();
    assert!(counts.iter().all(|n| n.get() == 1));
}

#[test]
fn plugin_methods_are_optional() {
    let app = AppBuilder::<Handler, Plain, u8>::new(config()).plugin(Plain).build(builtin);
    assert!(app.start_plugins().is_empty());
    app.exit_plugins();
    assert_eq!(app.ipc().handlers_iter().len(), 29);
}

#[test]
fn start_page_in_dev_mode() {
    let mut cfg = config();
    cfg.app.dev_url = Some("http://localhost:5173".to_string());
    let app = AppBuilder::<Handler, Probe, u8>::new(cfg).dev_mode(true).build(builtin);
    let page = app.resolve_start();
    assert_eq!(page.url, "http://localhost:5173");
    assert!(page.assets.is_none());
}

#[test]
fn start_page_from_assets() {
    let mut cfg = config();
    cfg.app.dev_url = Some("http://localhost:5173".to_string());
    let root = PathBuf::from("/srv/demo");
    let app =
        AppBuilder::<Handler, Probe, u8>::new(cfg).project_root(root.clone()).build(builtin);
    let page = app.resolve_start();
    assert_eq!(page.url, "rizonet-asset://localhost/index.html");
    let assets = page.assets.unwrap();
    assert_eq!(assets.project_root, Some(&root));
    assert_eq!(assets.dist_dir, "web");
    let bare = AppBuilder::<Handler, Probe, u8>::new(config()).dev_mode(true).build(builtin);
    let page = bare.resolve_start();
    assert_eq!(page.url, "rizonet-asset://localhost/index.html");
    assert_eq!(page.assets.unwrap().project_root, None);
}

#[test]
fn fullscreen_window_is_not_maximized() {
    for (fullscreen, maximized, expected) in
        [(false, false, false), (false, true, true), (true, true, false), (true, false, false)]
    {
        let mut cfg = config();
        cfg.window.fullscreen = fullscreen;
        cfg.window.maximized = maximized;
        let plan = AppBuilder::<Handler, Probe, u8>::new(cfg).build(builtin).window_plan();
        assert_eq!(plan.maximized, expected);
        assert_eq!(plan.fullscreen, fullscreen);
        assert_eq!(plan.title, "Rizonet App");
        assert_eq!(plan.width.bits, 1024.0f64.to_bits());
        assert_eq!(plan.height.bits, 768.0f64.to_bits());
        assert!(plan.resizable && plan.decorations && !plan.transparent);
    }
}

fn shown(event: UserEvent, ready: bool) -> String {
    format!("{:?}", handle_user_event(event, ready))
}

#[test]
fn messages_are_carried_out() {
    let script = || UserEvent::EvalJs("f()".to_string());
    assert_eq!(shown(script(), true), format!("{:?}", UiAction::EvalJs("f()".to_string())));
    assert_eq!(shown(script(), false), format!("{:?}", UiAction::Nothing));
    assert_eq!(
        shown(UserEvent::Window(WindowOp::Show(false)), false),
        format!("{:?}", UiAction::SetVisible(false))
    );
    assert_eq!(
        shown(UserEvent::Window(WindowOp::Minimize(true)), false),
        format!("{:?}", UiAction::SetMinimized(true))
    );
    assert_eq!(
        shown(UserEvent::Window(WindowOp::Maximize(true)), false),
        format!("{:?}", UiAction::SetMaximized(true))
    );
    assert_eq!(
        shown(UserEvent::Window(WindowOp::Focus), false),
        format!("{:?}", UiAction::SetFocus)
    );
    assert_eq!(
        shown(UserEvent::Window(WindowOp::SetTitle("t".to_string())), false),
        format!("{:?}", UiAction::SetTitle("t".to_string()))
    );
    assert_eq!(shown(UserEvent::Devtools(true), true), format!("{:?}", UiAction::OpenDevtools));
    assert_eq!(shown(UserEvent::Devtools(false), true), format!("{:?}", UiAction::CloseDevtools));
    assert_eq!(shown(UserEvent::Devtools(true), false), format!("{:?}", UiAction::Nothing));
    assert_eq!(shown(UserEvent::Exit, true), format!("{:?}", UiAction::Exit));
}

#[test]
fn exit_hooks_run_once_whatever_ends_the_app() {
    for first in 0..3 {
        let ending = |n: i32| match n {
            0 => LoopEvent::CloseRequested,
            1 => LoopEvent::User(UserEvent::Exit),
            _ => LoopEvent::User(UserEvent::Window(WindowOp::Close)),
        };
        let mut state = EventLoop::new();
        let idle = state.on_event(LoopEvent::Other, true);
        assert!(!idle.exit_hooks && !state.is_exiting());
        assert!(matches!(idle.action, UiAction::Nothing));
        let end = state.on_event(ending(first), true);
        assert!(end.exit_hooks && state.is_exiting());
        assert!(matches!(end.action, UiAction::Exit));
        for again in 0..3 {
            let step = state.on_event(ending(again), true);
            assert!(!step.exit_hooks && state.is_exiting());
        }
    }
}
