//! Application bootstrap.
//!
//! Collects what an app is made of, puts its commands together, and decides what
//! the window, the webview and the event loop have to do.

use crate::acl::CapabilitiesConfig;
use crate::api::builtins::{
    builtins, law_builtins_are_complete, law_builtins_are_registered, made_by, register_all,
    registered, Builtin,
};
use crate::api::event::{AppHandle, Message, UserEvent, WindowOp};
use crate::assets::{ASSET_HOST, ASSET_SCHEME};
use crate::assoc::filed;
use crate::config::{LogicalLength, RizonetConfig, WindowConfig};
use crate::error::RizonetError;
use crate::ipc::{share, Commands, HandlerFn, IpcHandler};
use crate::name_map::named;
use crate::plugin::Plugin;
use crate::state::StateMap;
use crate::text::{concat2, concat3};
use std::any::TypeId;
use std::path::PathBuf;
use std::sync::Arc;
use vstd::prelude::*;

verus! {

/// `std::path::PathBuf`, carried and never looked into.
#[verifier::external_type_specification]
#[verifier::external_body]
pub struct ExPathBuf(PathBuf);

/// What an app is made of. `F` is the type of its command handlers, `P` that of
/// its plugins, and `V` the form in which managed state is kept.
pub struct AppBuilder<F, P, V> {
    config: RizonetConfig,
    ipc: IpcHandler<F>,
    plugins: Vec<P>,
    state: StateMap<V>,
    dev: bool,
    project_root: Option<PathBuf>,
}

/// An app, ready to run.
pub struct App<F, P, V> {
    config: RizonetConfig,
    ipc: IpcHandler<F>,
    plugins: Vec<P>,
    state: Arc<StateMap<V>>,
    dev: bool,
    project_root: Option<PathBuf>,
}

/// The parts of an app.
pub struct Parts<F, P, V> {
    pub config: RizonetConfig,
    pub ipc: IpcHandler<F>,
    pub plugins: Seq<P>,
    pub state: Map<TypeId, V>,
    pub dev: bool,
    pub project_root: Option<PathBuf>,
}

impl<F, P, V> View for AppBuilder<F, P, V> {
    type V = Parts<F, P, V>;

    closed spec fn view(&self) -> Parts<F, P, V> {
        Parts {
            config: self.config,
            ipc: self.ipc,
            plugins: self.plugins@,
            state: self.state@,
            dev: self.dev,
            project_root: self.project_root,
        }
    }
}

impl<F, P, V> View for App<F, P, V> {
    type V = Parts<F, P, V>;

    closed spec fn view(&self) -> Parts<F, P, V> {
        Parts {
            config: self.config,
            ipc: self.ipc,
            plugins: self.plugins@,
            state: self.state@,
            dev: self.dev,
            project_root: self.project_root,
        }
    }
}

impl<F> Commands<F> {
    /// The commands with those of `more` on top.
    pub open spec fn overlaid(self, more: Map<Seq<char>, HandlerFn<F>>) -> Commands<F> {
        Commands { handlers: self.handlers.union_prefer_right(more), ..self }
    }

    /// The commands under another policy.
    pub open spec fn under(self, cap: CapabilitiesConfig) -> Commands<F> {
        Commands { policy: cap@, ..self }
    }
}

/// Whether `after` is what the plugins make of `before`, each one extending what
/// the one before it left.
pub open spec fn contributed<F, P: Plugin<F>>(
    plugins: Seq<P>,
    before: IpcHandler<F>,
    after: IpcHandler<F>,
) -> bool
    decreases plugins.len(),
{
    if plugins.len() == 0 {
        after == before
    } else {
        exists|between: IpcHandler<F>|
            contributed(plugins.drop_last(), before, between) && #[trigger] call_ensures(
                P::register,
                (&plugins.last(), between),
                after,
            )
    }
}

/// Whether `start` holds the commands that an app has before its plugins
/// contribute: the built-ins, with the handlers that the app registered on top,
/// under the policy of its configuration.
pub open spec fn prepared<F, M: Fn(Builtin) -> F, P, V>(
    parts: Parts<F, P, V>,
    make: M,
    start: IpcHandler<F>,
) -> bool {
    exists|handlers: Seq<F>| #[trigger]
        made_by(make, handlers) && start@ == registered(
            Commands::<F>::none(),
            handlers,
            builtins().len() as int,
        ).overlaid(parts.ipc@.handlers).under(parts.config.capabilities)
}

impl<F, P, V> AppBuilder<F, P, V> {
    /// An app with that configuration and nothing else.
    pub fn new(config: RizonetConfig) -> (r: Self)
        ensures
            r@.config == config,
            r@.ipc@ == Commands::<F>::none(),
            r@.plugins.len() == 0,
            r@.state == Map::<TypeId, V>::empty(),
            !r@.dev,
            r@.project_root is None,
    {
        AppBuilder {
            config,
            ipc: IpcHandler::new(),
            plugins: Vec::new(),
            state: StateMap::new(),
            dev: false,
            project_root: None,
        }
    }

    /// Handle commands with `handler`, in place of any set before.
    pub fn ipc(self, handler: IpcHandler<F>) -> (r: Self)
        ensures
            r@ == (Parts { ipc: handler, ..self@ }),
    {
        AppBuilder { ipc: handler, ..self }
    }

    /// Merge additional commands on top of the current handler. Convenient
    /// when registering built-ins and user commands separately.
    pub fn with_ipc<G: FnOnce(IpcHandler<F>) -> IpcHandler<F>>(self, f: G) -> (r: Self)
        requires
            call_requires(f, (self@.ipc,)),
        ensures
            call_ensures(f, (self@.ipc,), r@.ipc),
            r@ == (Parts { ipc: r@.ipc, ..self@ }),
    {
        let ipc: IpcHandler<F> = f(self.ipc);
        AppBuilder {
            config: self.config,
            ipc,
            plugins: self.plugins,
            state: self.state,
            dev: self.dev,
            project_root: self.project_root,
        }
    }

    /// Add a plugin, after those added before.
    pub fn plugin(self, plugin: P) -> (r: Self)
        ensures
            r@ == (Parts { plugins: self@.plugins.push(plugin), ..self@ }),
    {
        let mut plugins: Vec<P> = self.plugins;
        plugins.push(plugin);
        AppBuilder {
            config: self.config,
            ipc: self.ipc,
            plugins,
            state: self.state,
            dev: self.dev,
            project_root: self.project_root,
        }
    }

    /// Insert a value into the app's shared state.
    pub fn manage(self, key: TypeId, value: V) -> (r: Self)
        ensures
            r@ == (Parts { state: self@.state.insert(key, value), ..self@ }),
    {
        let mut state: StateMap<V> = self.state;
        state.insert(key, value);
        AppBuilder {
            config: self.config,
            ipc: self.ipc,
            plugins: self.plugins,
            state,
            dev: self.dev,
            project_root: self.project_root,
        }
    }

    /// Whether to run in development mode.
    pub fn dev_mode(self, dev: bool) -> (r: Self)
        ensures
            r@ == (Parts { dev, ..self@ }),
    {
        AppBuilder { dev, ..self }
    }

    /// The directory that the asset directory is relative to.
    pub fn project_root(self, root: PathBuf) -> (r: Self)
        ensures
            r@ == (Parts { project_root: Some(root), ..self@ }),
    {
        AppBuilder { project_root: Some(root), ..self }
    }
}

impl<F, P: Plugin<F>, V> AppBuilder<F, P, V> {
    /// Put the commands together: the built-ins (`make` makes the handler of
    /// each), the app's own on top, the policy of the configuration, and last
    /// what the plugins contribute, in order.
    pub fn build<M: Fn(Builtin) -> F>(self, make: M) -> (r: App<F, P, V>)
        requires
            forall|b: Builtin| #[trigger] call_requires(make, (b,)),
        ensures
            r@ == (Parts { ipc: r@.ipc, ..self@ }),
            exists|start: IpcHandler<F>| #[trigger]
                prepared(self@, make, start) && contributed(self@.plugins, start, r@.ipc),
    {
        // Start with the built-in commands so user overrides win.
        let mut ipc: IpcHandler<F> = register_all(IpcHandler::new(), make);
        let ghost base = ipc@;
        // Merge user handlers on top.
        let own: Vec<(String, HandlerFn<F>)> = self.ipc.handlers_iter();
        proof {
            assert(named(own@).take(0) =~= Seq::empty());
            assert(base.overlaid(Map::empty()).handlers =~= base.handlers);
        }
        let mut i: usize = 0;
        while i < own.len()
            invariant
                i <= own@.len(),
                ipc@ == base.overlaid(filed(named(own@).take(i as int))),
            decreases own@.len() - i,
        {
            let ghost before = named(own@).take(i as int);
            let ghost after = named(own@).take(i + 1);
            proof {
                assert(after.drop_last() =~= before);
                assert(base.overlaid(filed(after)).handlers =~= base.overlaid(
                    filed(before),
                ).handlers.insert(after.last().0, after.last().1));
            }
            ipc = ipc.register_raw(own[i].0.clone(), share(&own[i].1));
            i = i + 1;
        }
        proof {
            assert(named(own@).take(i as int) =~= named(own@));
        }
        // Apply capabilities from the config.
        ipc = ipc.with_capabilities(self.config.capabilities.clone());
        let ghost start = ipc;
        proof {
            assert(prepared(self@, make, start));
            assert(self.plugins@.take(0) =~= Seq::empty());
        }
        // Let plugins contribute in order.
        let mut i: usize = 0;
        while i < self.plugins.len()
            invariant
                i <= self.plugins@.len(),
                contributed(self.plugins@.take(i as int), start, ipc),
            decreases self.plugins@.len() - i,
        {
            let ghost between = ipc;
            ipc = self.plugins[i].register(ipc);
            proof {
                let now = self.plugins@.take(i + 1);
                assert(now.drop_last() =~= self.plugins@.take(i as int));
                assert(contributed(now.drop_last(), start, between));
                assert(call_ensures(P::register, (&now.last(), between), ipc));
            }
            i = i + 1;
        }
        assert(self.plugins@.take(i as int) =~= self.plugins@);
        App {
            config: self.config,
            ipc,
            plugins: self.plugins,
            state: Arc::new(self.state),
            dev: self.dev,
            project_root: self.project_root,
        }
    }
}

/// The page that the webview opens first. Where it is one of the app's own
/// assets: what the asset root is made of.
pub struct StartPage<'a> {
    pub url: String,
    pub assets: Option<AssetsRoot<'a>>,
}

/// The directory of the app's assets: `dist_dir` below the project root, or below
/// the current directory where no project root is set.
pub struct AssetsRoot<'a> {
    pub project_root: Option<&'a PathBuf>,
    pub dist_dir: &'a str,
}

/// How the window of an app looks at first.
#[derive(Debug)]
pub struct WindowPlan {
    pub title: String,
    pub width: LogicalLength,
    pub height: LogicalLength,
    pub resizable: bool,
    pub fullscreen: bool,
    pub maximized: bool,
    pub decorations: bool,
    pub transparent: bool,
}

/// Whether `failed` are the plugins whose start hook failed, with their names
/// and the failures, in order. Every hook ran, whether or not others failed.
pub open spec fn started<F, P: Plugin<F>>(
    plugins: Seq<P>,
    failed: Seq<(String, RizonetError)>,
) -> bool
    decreases plugins.len(),
{
    if plugins.len() == 0 {
        failed.len() == 0
    } else {
        exists|outcome: Result<(), RizonetError>| #[trigger]
            call_ensures(P::on_start, (&plugins.last(),), outcome) && match outcome {
                Ok(_) => started::<F, P>(plugins.drop_last(), failed),
                Err(e) => {
                    &&& failed.len() > 0
                    &&& failed.last().1 == e
                    &&& exists|name: &str| #[trigger]
                        call_ensures(P::name, (&plugins.last(),), name) && name@
                            == failed.last().0@
                    &&& started::<F, P>(plugins.drop_last(), failed.drop_last())
                },
            }
    }
}

impl<F, P, V> App<F, P, V> {
    /// The configuration.
    pub fn config(&self) -> (r: &RizonetConfig)
        ensures
            *r == self@.config,
    {
        &self.config
    }

    /// The commands.
    pub fn ipc(&self) -> (r: &IpcHandler<F>)
        ensures
            *r == self@.ipc,
    {
        &self.ipc
    }

    /// The managed state, shared with the app.
    pub fn state(&self) -> (r: Arc<StateMap<V>>)
        ensures
            r@ == self@.state,
    {
        share(&self.state)
    }

    /// Decide which URL the webview should open and, if local, where the asset
    /// protocol handler should serve files from.
    pub fn resolve_start(&self) -> (r: StartPage<'_>)
        ensures
            if self@.dev && self@.config.app.dev_url is Some {
                r.url@ == self@.config.app.dev_url->0@ && r.assets is None
            } else {
                &&& r.url@ == ASSET_SCHEME@ + "://"@ + ASSET_HOST@ + "/index.html"@
                &&& r.assets matches Some(root)
                &&& root.dist_dir@ == self@.config.app.dist_dir@
                &&& match self@.project_root {
                    Some(dir) => root.project_root == Some(&dir),
                    None => root.project_root is None,
                }
            },
    {
        if self.dev {
            match &self.config.app.dev_url {
                Some(url) => {
                    return StartPage { url: url.clone(), assets: None };
                },
                None => {},
            }
        }
        let origin: String = concat3(ASSET_SCHEME, "://", ASSET_HOST);
        let url: String = concat2(origin.as_str(), "/index.html");
        let project_root: Option<&PathBuf> = match &self.project_root {
            Some(dir) => Some(dir),
            None => None,
        };
        let dist_dir: &str = self.config.app.dist_dir.as_str();
        StartPage { url, assets: Some(AssetsRoot { project_root, dist_dir }) }
    }

    /// How the window looks at first. A fullscreen window is not maximized.
    pub fn window_plan(&self) -> (r: WindowPlan)
        ensures
            ({
                let w = self@.config.window;
                &&& r.title@ == w.title@
                &&& r.width == w.width
                &&& r.height == w.height
                &&& r.resizable == w.resizable
                &&& r.fullscreen == w.fullscreen
                &&& r.maximized == (w.maximized && !w.fullscreen)
                &&& r.decorations == w.decorations
                &&& r.transparent == w.transparent
            }),
    {
        let w: &WindowConfig = &self.config.window;
        WindowPlan {
            title: w.title.clone(),
            width: w.width,
            height: w.height,
            resizable: w.resizable,
            fullscreen: w.fullscreen,
            maximized: !w.fullscreen && w.maximized,
            decorations: w.decorations,
            transparent: w.transparent,
        }
    }
}

impl<F, P: Plugin<F>, V> App<F, P, V> {
    /// Run the start hook of every plugin. The failures are given back for the
    /// log; none keeps the app from starting.
    pub fn start_plugins(&self) -> (failed: Vec<(String, RizonetError)>)
        ensures
            started::<F, P>(self@.plugins, failed@),
    {
        let mut failed: Vec<(String, RizonetError)> = Vec::new();
        let mut i: usize = 0;
        while i < self.plugins.len()
            invariant
                i <= self.plugins@.len(),
                started::<F, P>(self.plugins@.take(i as int), failed@),
            decreases self.plugins@.len() - i,
        {
            let p: &P = &self.plugins[i];
            let ghost now = self.plugins@.take(i + 1);
            let ghost before = failed@;
            let outcome: Result<(), RizonetError> = p.on_start();
            proof {
                assert(now.drop_last() =~= self.plugins@.take(i as int));
                assert(call_ensures(P::on_start, (&now.last(),), outcome));
            }
            match outcome {
                Ok(_) => {},
                Err(e) => {
                    let name: &str = p.name();
                    assert(call_ensures(P::name, (&now.last(),), name));
                    failed.push((name.to_owned(), e));
                    assert(failed@.drop_last() =~= before);
                },
            }
            i = i + 1;
        }
        assert(self.plugins@.take(i as int) =~= self.plugins@);
        failed
    }

    /// Run the exit hook of every plugin.
    pub fn exit_plugins(&self)
        ensures
            forall|i: int|
                0 <= i < self@.plugins.len() ==> call_ensures(
                    P::on_exit,
                    (&#[trigger] self@.plugins[i],),
                    (),
                ),
    {
        let mut i: usize = 0;
        while i < self.plugins.len()
            invariant
                i <= self.plugins@.len(),
                forall|j: int|
                    0 <= j < i ==> call_ensures(P::on_exit, (&#[trigger] self.plugins@[j],), ()),
            decreases self.plugins@.len() - i,
        {
            self.plugins[i].on_exit();
            i = i + 1;
        }
    }
}

// ---------------------------------------------------------------- event loop

/// What reaches the event loop.
#[derive(Debug)]
pub enum LoopEvent {
    /// The user asked to close the window.
    CloseRequested,
    /// A message from an [`AppHandle`].
    User(UserEvent),
    /// Anything else.
    Other,
}

/// What the window or the webview has to do.
#[derive(Debug)]
pub enum UiAction {
    Nothing,
    EvalJs(String),
    SetVisible(bool),
    SetMinimized(bool),
    SetMaximized(bool),
    SetFocus,
    SetTitle(String),
    OpenDevtools,
    CloseDevtools,
    Exit,
}

/// Whether `r` is what a message comes to. Those for the webview come to nothing
/// while there is none.
pub open spec fn carries_out(message: Message, webview_ready: bool, r: UiAction) -> bool {
    match message {
        Message::EvalJs(script) => if webview_ready {
            r matches UiAction::EvalJs(s) && s@ == script
        } else {
            r == UiAction::Nothing
        },
        Message::Show(v) => r == UiAction::SetVisible(v),
        Message::Minimize(v) => r == UiAction::SetMinimized(v),
        Message::Maximize(v) => r == UiAction::SetMaximized(v),
        Message::Focus => r == UiAction::SetFocus,
        Message::SetTitle(title) => r matches UiAction::SetTitle(t) && t@ == title,
        Message::Close => r == UiAction::Exit,
        Message::Devtools(open) => if !webview_ready {
            r == UiAction::Nothing
        } else if open {
            r == UiAction::OpenDevtools
        } else {
            r == UiAction::CloseDevtools
        },
        Message::Exit => r == UiAction::Exit,
    }
}

/// What a message comes to.
pub fn handle_user_event(event: UserEvent, webview_ready: bool) -> (r: UiAction)
    ensures
        carries_out(event@, webview_ready, r),
{
    match event {
        UserEvent::EvalJs(script) => if webview_ready {
            UiAction::EvalJs(script)
        } else {
            UiAction::Nothing
        },
        UserEvent::Window(op) => match op {
            WindowOp::Show(v) => UiAction::SetVisible(v),
            WindowOp::Minimize(v) => UiAction::SetMinimized(v),
            WindowOp::Maximize(v) => UiAction::SetMaximized(v),
            WindowOp::Focus => UiAction::SetFocus,
            WindowOp::SetTitle(t) => UiAction::SetTitle(t),
            WindowOp::Close => UiAction::Exit,
        },
        UserEvent::Devtools(open) => if !webview_ready {
            UiAction::Nothing
        } else if open {
            UiAction::OpenDevtools
        } else {
            UiAction::CloseDevtools
        },
        UserEvent::Exit => UiAction::Exit,
    }
}

/// The event loop, as far as it has a memory: whether the app is exiting.
#[derive(Debug)]
pub struct EventLoop {
    exiting: bool,
}

/// What an event comes to.
#[derive(Debug)]
pub struct Step {
    pub action: UiAction,
    /// Whether the exit hooks of the plugins have to run now.
    pub exit_hooks: bool,
}

impl LoopEvent {
    /// Whether the event ends the app.
    pub open spec fn ends(self) -> bool {
        match self {
            LoopEvent::CloseRequested => true,
            LoopEvent::User(event) => event@ == Message::Close || event@ == Message::Exit,
            LoopEvent::Other => false,
        }
    }
}

impl EventLoop {
    /// Whether the app is exiting.
    pub closed spec fn exits(self) -> bool {
        self.exiting
    }

    /// A loop that has seen no event.
    pub fn new() -> (r: Self)
        ensures
            !r.exits(),
    {
        EventLoop { exiting: false }
    }

    /// Whether the app is exiting.
    pub fn is_exiting(&self) -> (r: bool)
        ensures
            r == self.exits(),
    {
        self.exiting
    }

    /// What an event comes to. The exit hooks run when the app is about to exit,
    /// whatever ends it, and once.
    pub fn on_event(&mut self, event: LoopEvent, webview_ready: bool) -> (r: Step)
        ensures
            final(self).exits() == (old(self).exits() || event.ends()),
            r.exit_hooks == (event.ends() && !old(self).exits()),
            match event {
                LoopEvent::CloseRequested => r.action == UiAction::Exit,
                LoopEvent::User(e) => carries_out(e@, webview_ready, r.action),
                LoopEvent::Other => r.action == UiAction::Nothing,
            },
    {
        let action: UiAction = match event {
            LoopEvent::CloseRequested => UiAction::Exit,
            LoopEvent::User(e) => handle_user_event(e, webview_ready),
            LoopEvent::Other => UiAction::Nothing,
        };
        let ends: bool = matches!(action, UiAction::Exit);
        let exit_hooks: bool = ends && !self.exiting;
        if ends {
            self.exiting = true;
        }
        Step { action, exit_hooks }
    }
}

/// Whether the app is exiting after these events.
pub open spec fn exits_after(events: Seq<LoopEvent>) -> bool
    decreases events.len(),
{
    events.len() > 0 && (exits_after(events.drop_last()) || events.last().ends())
}

/// How often the exit hooks have run after these events: each event adds what
/// [`EventLoop::on_event`] says of it.
pub open spec fn hook_runs(events: Seq<LoopEvent>) -> nat
    decreases events.len(),
{
    if events.len() == 0 {
        0
    } else {
        let before = events.drop_last();
        hook_runs(before) + if events.last().ends() && !exits_after(before) {
            1nat
        } else {
            0nat
        }
    }
}

// ----------------------------------------------------------------------- laws

/// The exit hooks run once when some event ended the app, and not before.
pub proof fn law_exit_hooks_run_once(events: Seq<LoopEvent>)
    ensures
        exits_after(events) <==> exists|i: int|
            0 <= i < events.len() && #[trigger] events[i].ends(),
        hook_runs(events) == if exits_after(events) {
            1nat
        } else {
            0nat
        },
    decreases events.len(),
{
    if events.len() > 0 {
        let before = events.drop_last();
        law_exit_hooks_run_once(before);
        assert(forall|i: int| 0 <= i < before.len() ==> before[i] == events[i]);
        if exits_after(before) {
            let i = choose|i: int| 0 <= i < before.len() && #[trigger] before[i].ends();
            assert(events[i].ends());
        }
        if events.last().ends() {
            assert(events[events.len() - 1].ends());
        }
    }
}

/// Before the plugins contribute, a command that the app registered itself is
/// handled by its own handler, a built-in command by the handler that was made
/// for it, no other command is handled, and the policy is that of the
/// configuration.
pub proof fn law_own_handlers_win<F, M: Fn(Builtin) -> F, P, V>(
    parts: Parts<F, P, V>,
    make: M,
    start: IpcHandler<F>,
    b: Builtin,
    cmd: Seq<char>,
)
    requires
        prepared(parts, make, start),
    ensures
        start@.policy == parts.config.capabilities@,
        parts.ipc@.handlers.contains_key(cmd) ==> start@.handlers.contains_key(cmd)
            && start@.handlers[cmd] == parts.ipc@.handlers[cmd],
        !parts.ipc@.handlers.contains_key(b.command_spec()) ==> start@.handlers.contains_key(
            b.command_spec(),
        ) && call_ensures(make, (b,), *start@.handlers[b.command_spec()]),
        !parts.ipc@.handlers.contains_key(cmd) && (forall|c: Builtin| #[trigger]
            c.command_spec() != cmd) ==> !start@.handlers.contains_key(cmd),
{
    let handlers = choose|handlers: Seq<F>| #[trigger]
        made_by(make, handlers) && start@ == registered(
            Commands::<F>::none(),
            handlers,
            builtins().len() as int,
        ).overlaid(parts.ipc@.handlers).under(parts.config.capabilities);
    law_builtins_are_registered(Commands::<F>::none(), handlers, b, cmd);
    law_builtins_are_complete(b);
    assert(call_ensures(make, (builtins()[b.place()],), handlers[b.place()]));
}

/// A value that was put into the app's state is found through a handle with that
/// state.
pub proof fn law_managed_state_is_found<F, P, V, S>(
    parts: Parts<F, P, V>,
    key: TypeId,
    value: V,
    handle: AppHandle<S, V>,
)
    requires
        handle.managed() == (Parts { state: parts.state.insert(key, value), ..parts }).state,
    ensures
        handle.managed().contains_key(key),
        handle.managed()[key] == value,
        forall|other: TypeId|
            other != key ==> (#[trigger] handle.managed().contains_key(other)
                == parts.state.contains_key(other)),
{
}

/// In an app without plugins, a built-in command that the app did not register
/// itself reaches the handler that was made for it exactly when the
/// configuration allows it.
pub proof fn law_builtins_are_gated<F, M: Fn(Builtin) -> F, P: Plugin<F>, V>(
    parts: Parts<F, P, V>,
    make: M,
    start: IpcHandler<F>,
    ipc: IpcHandler<F>,
    b: Builtin,
)
    requires
        parts.plugins.len() == 0,
        prepared(parts, make, start),
        contributed(parts.plugins, start, ipc),
        !parts.ipc@.handlers.contains_key(b.command_spec()),
    ensures
        ipc@.reaches(b.command_spec()) <==> parts.config.capabilities@.allows(b.command_spec()),
        call_ensures(make, (b,), *ipc@.handlers[b.command_spec()]),
{
    law_own_handlers_win(parts, make, start, b, b.command_spec());
}

/// Every message is carried out as what it asks for: with the same script, title or
/// switch. Those for the webview come to nothing while there is none.
pub proof fn law_messages_are_carried_out(event: UserEvent, webview_ready: bool, r: UiAction)
    requires
        call_ensures(handle_user_event, (event, webview_ready), r),
    ensures
        match event {
            UserEvent::EvalJs(script) => if webview_ready {
                r matches UiAction::EvalJs(s) && s@ == script@
            } else {
                r == UiAction::Nothing
            },
            UserEvent::Window(WindowOp::Show(v)) => r == UiAction::SetVisible(v),
            UserEvent::Window(WindowOp::Minimize(v)) => r == UiAction::SetMinimized(v),
            UserEvent::Window(WindowOp::Maximize(v)) => r == UiAction::SetMaximized(v),
            UserEvent::Window(WindowOp::Focus) => r == UiAction::SetFocus,
            UserEvent::Window(WindowOp::SetTitle(title)) => r matches UiAction::SetTitle(t) && t@
                == title@,
            UserEvent::Window(WindowOp::Close) => r == UiAction::Exit,
            UserEvent::Devtools(open) => r == if !webview_ready {
                UiAction::Nothing
            } else if open {
                UiAction::OpenDevtools
            } else {
                UiAction::CloseDevtools
            },
            UserEvent::Exit => r == UiAction::Exit,
        },
{
}

/// The app ends when the user closes the window, and by the messages that close it or
/// ask for the end; no other event ends it.
pub proof fn law_what_ends_the_app(event: LoopEvent)
    ensures
        event.ends() <==> (event is CloseRequested || event == LoopEvent::User(UserEvent::Exit)
            || event == LoopEvent::User(UserEvent::Window(WindowOp::Close))),
{
}

/// An event ends the app exactly when what it comes to is the end.
pub proof fn law_end_is_carried_out(event: UserEvent, webview_ready: bool, r: UiAction)
    requires
        call_ensures(handle_user_event, (event, webview_ready), r),
    ensures
        LoopEvent::User(event).ends() <==> r == UiAction::Exit,
{
}

/// The webview opens the development server in development mode, where one is
/// configured, and else the index page of the assets, which are found below the
/// project root.
pub proof fn law_page_that_is_opened_first<'a, F, P, V>(app: &'a App<F, P, V>, r: StartPage<'a>)
    requires
        call_ensures(App::<F, P, V>::resolve_start, (app,), r),
    ensures
        r.assets is None <==> app@.dev && app@.config.app.dev_url is Some,
        r.assets is None ==> r.url@ == app@.config.app.dev_url->0@,
        r.assets matches Some(root) ==> root.dist_dir@ == app@.config.app.dist_dir@ && (
        root.project_root is Some <==> app@.project_root is Some),
        r.assets matches Some(root) ==> (root.project_root matches Some(dir) ==> app@.project_root
            == Some(*dir)),
        r.assets is Some ==> r.url@ == "rizonet-asset"@ + "://"@ + "localhost"@ + "/index.html"@,
{
}

/// The window looks as configured, but that a fullscreen window is not maximized.
pub proof fn law_window_looks_as_configured<F, P, V>(app: &App<F, P, V>, r: WindowPlan)
    requires
        call_ensures(App::<F, P, V>::window_plan, (app,), r),
    ensures
        r.title@ == app@.config.window.title@,
        r.width == app@.config.window.width,
        r.height == app@.config.window.height,
        r.resizable == app@.config.window.resizable,
        r.fullscreen == app@.config.window.fullscreen,
        r.decorations == app@.config.window.decorations,
        r.transparent == app@.config.window.transparent,
        r.maximized <==> app@.config.window.maximized && !app@.config.window.fullscreen,
{
}

/// Plugins contribute in order: what some of them made is what the ones after them
/// start from.
pub proof fn law_plugins_contribute_in_order<F, P: Plugin<F>>(
    plugins: Seq<P>,
    k: int,
    before: IpcHandler<F>,
    after: IpcHandler<F>,
)
    requires
        0 <= k <= plugins.len(),
        contributed(plugins, before, after),
    ensures
        plugins.len() == 0 ==> after == before,
        exists|between: IpcHandler<F>|
            #![trigger contributed(plugins.take(k), before, between)]
            contributed(plugins.take(k), before, between) && contributed(
                plugins.skip(k),
                between,
                after,
            ),
        plugins.len() == 1 ==> call_ensures(P::register, (&plugins[0], before), after),
    decreases plugins.len(),
{
    if k == plugins.len() {
        assert(plugins.take(k) =~= plugins);
        assert(contributed(plugins.take(k), before, after));
        assert(plugins.skip(k).len() == 0);
    } else {
        let front = plugins.drop_last();
        let last = choose|last: IpcHandler<F>|
            contributed(front, before, last) && #[trigger] call_ensures(
                P::register,
                (&plugins.last(), last),
                after,
            );
        law_plugins_contribute_in_order(front, k, before, last);
        let between = choose|between: IpcHandler<F>|
            #![trigger contributed(front.take(k), before, between)]
            contributed(front.take(k), before, between) && contributed(
                front.skip(k),
                between,
                last,
            );
        assert(front.take(k) =~= plugins.take(k));
        assert(plugins.skip(k).drop_last() =~= front.skip(k));
        assert(plugins.skip(k).last() == plugins.last());
        assert(contributed(plugins.skip(k), between, after));
    }
    if plugins.len() == 1 {
        let between = choose|between: IpcHandler<F>|
            contributed(plugins.drop_last(), before, between) && #[trigger] call_ensures(
                P::register,
                (&plugins.last(), between),
                after,
            );
        assert(between == before);
        assert(plugins.last() == plugins[0]);
    }
}

/// Where each plugin's start hook either always fails or never does, every failure is
/// reported: with as many reports as hooks that fail, and none where none fails.
pub proof fn law_failing_start_hooks_are_reported<F, P: Plugin<F>>(
    plugins: Seq<P>,
    failed: Seq<(String, RizonetError)>,
    fails: spec_fn(P) -> bool,
)
    requires
        started::<F, P>(plugins, failed),
        forall|p: P, outcome: Result<(), RizonetError>| #[trigger]
            call_ensures(P::on_start, (&p,), outcome) ==> (outcome is Err <==> fails(p)),
    ensures
        failed.len() == plugins.filter(fails).len(),
        forall|i: int|
            0 <= i < failed.len() ==> reported::<F, P>(plugins.filter(fails)[i], #[trigger] failed[i]),
    decreases plugins.len(),
{
    reveal(Seq::filter);
    if plugins.len() > 0 {
        let front = plugins.drop_last();
        let outcome = choose|outcome: Result<(), RizonetError>| #[trigger]
            call_ensures(P::on_start, (&plugins.last(),), outcome) && match outcome {
                Ok(_) => started::<F, P>(front, failed),
                Err(e) => {
                    &&& failed.len() > 0
                    &&& failed.last().1 == e
                    &&& exists|name: &str| #[trigger]
                        call_ensures(P::name, (&plugins.last(),), name) && name@
                            == failed.last().0@
                    &&& started::<F, P>(front, failed.drop_last())
                },
            };
        if fails(plugins.last()) {
            let fewer = failed.drop_last();
            law_failing_start_hooks_are_reported::<F, P>(front, fewer, fails);
            assert(plugins.filter(fails) == front.filter(fails).push(plugins.last()));
            assert forall|i: int| 0 <= i < failed.len() implies reported::<F, P>(
                plugins.filter(fails)[i],
                #[trigger] failed[i],
            ) by {
                if i < fewer.len() {
                    assert(fewer[i] == failed[i]);
                } else {
                    assert(failed[i] == failed.last());
                    assert(plugins.filter(fails)[i] == plugins.last());
                    assert(call_ensures(P::on_start, (&plugins.last(),), Err(failed[i].1)));
                }
            }
        } else {
            law_failing_start_hooks_are_reported::<F, P>(front, failed, fails);
        }
    }
}

/// Whether a report is the failure of that plugin's start hook, under its name.
pub open spec fn reported<F, P: Plugin<F>>(plugin: P, report: (String, RizonetError)) -> bool {
    &&& call_ensures(P::on_start, (&plugin,), Err(report.1))
    &&& exists|name: &str| #[trigger]
        call_ensures(P::name, (&plugin,), name) && name@ == report.0@
}

/// A new app has its configuration and nothing else: no commands of its own, no
/// plugins, no state, no project root, and it does not run in development mode.
pub proof fn law_new_app_is_bare<F, P, V>(
    config: RizonetConfig,
    r: AppBuilder<F, P, V>,
    cmd: Seq<char>,
    key: TypeId,
)
    requires
        call_ensures(AppBuilder::<F, P, V>::new, (config,), r),
    ensures
        r@.config == config,
        !r@.ipc@.handlers.contains_key(cmd),
        r@.plugins.len() == 0,
        !r@.state.contains_key(key),
        !r@.dev,
        r@.project_root is None,
{
}

/// A command that the app registered is handled by its own handler in the app that is
/// built, and the policy is the configured one, where no plugin contributes.
pub proof fn law_built_app_handles_its_commands<F, M: Fn(Builtin) -> F, P: Plugin<F>, V>(
    builder: AppBuilder<F, P, V>,
    make: M,
    app: App<F, P, V>,
    cmd: Seq<char>,
    b: Builtin,
)
    requires
        call_ensures(AppBuilder::<F, P, V>::build::<M>, (builder, make), app),
        builder@.plugins.len() == 0,
    ensures
        app@.config == builder@.config,
        app@.state == builder@.state,
        app@.dev == builder@.dev,
        app@.project_root == builder@.project_root,
        app@.ipc@.policy == builder@.config.capabilities@,
        builder@.ipc@.handlers.contains_key(cmd) ==> app@.ipc@.handlers.contains_key(cmd)
            && app@.ipc@.handlers[cmd] == builder@.ipc@.handlers[cmd],
        !builder@.ipc@.handlers.contains_key(b.command_spec()) ==> app@.ipc@.handlers.contains_key(
            b.command_spec(),
        ) && call_ensures(make, (b,), *app@.ipc@.handlers[b.command_spec()]),
{
    let start = choose|start: IpcHandler<F>| #[trigger]
        prepared(builder@, make, start) && contributed(builder@.plugins, start, app@.ipc);
    law_own_handlers_win(builder@, make, start, b, cmd);
}

} // verus!
