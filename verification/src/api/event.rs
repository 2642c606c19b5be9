//! Application handle and the messages it sends to the UI thread.

use crate::error::RizonetError;
use crate::ipc::share;
use crate::json::{json_quoted, json_text, quoted, value_text};
use crate::state::StateMap;
use crate::text::concat2;
use serde_json::Value;
use std::any::TypeId;
use std::sync::Arc;
use vstd::prelude::*;
use vstd::string::StringExecFns;

verus! {

/// Messages dispatched through the event loop so that all webview/window
/// mutations happen on the UI thread regardless of where they were originated.
#[derive(Debug, Clone)]
pub enum UserEvent {
    /// Evaluate a JavaScript snippet in the main webview.
    EvalJs(String),
    /// Perform a window operation.
    Window(WindowOp),
    /// Open or close the devtools.
    Devtools(bool),
    /// Terminate the application.
    Exit,
}

#[derive(Debug, Clone)]
pub enum WindowOp {
    Show(bool),
    Minimize(bool),
    Maximize(bool),
    Focus,
    SetTitle(String),
    Close,
}

/// A message, with its texts as characters.
pub enum Message {
    EvalJs(Seq<char>),
    Show(bool),
    Minimize(bool),
    Maximize(bool),
    Focus,
    SetTitle(Seq<char>),
    Close,
    Devtools(bool),
    Exit,
}

impl View for UserEvent {
    type V = Message;

    open spec fn view(&self) -> Message {
        match self {
            UserEvent::EvalJs(script) => Message::EvalJs(script@),
            UserEvent::Window(op) => match op {
                WindowOp::Show(v) => Message::Show(*v),
                WindowOp::Minimize(v) => Message::Minimize(*v),
                WindowOp::Maximize(v) => Message::Maximize(*v),
                WindowOp::Focus => Message::Focus,
                WindowOp::SetTitle(t) => Message::SetTitle(t@),
                WindowOp::Close => Message::Close,
            },
            UserEvent::Devtools(open) => Message::Devtools(*open),
            UserEvent::Exit => Message::Exit,
        }
    }
}

/// Whether `r` is what a sender is told about a message that was taken by the
/// event loop (`sent`), or was not because the loop is gone.
pub open spec fn told(r: Result<(), RizonetError>, sent: bool) -> bool {
    if sent {
        r is Ok
    } else {
        r matches Err(RizonetError::Other(m)) && m@ == "event loop closed"@
    }
}

/// What a sender is told about a message, by whether the event loop took it.
pub fn delivered(sent: bool) -> (r: Result<(), RizonetError>)
    ensures
        told(r, sent),
{
    if sent {
        Ok(())
    } else {
        Err(RizonetError::Other("event loop closed".to_owned()))
    }
}

/// The script that hands an event to the listeners of the frontend.
pub open spec fn emit_script_spec(event: Seq<char>, payload: Value) -> Seq<char> {
    "window.__RIZONET_EMIT__("@ + json_quoted(event) + ", "@ + json_text(payload) + ");"@
}

/// The script that hands an event to the listeners of the frontend.
pub fn emit_script(event: &str, payload: &Value) -> (s: String)
    ensures
        s@ == emit_script_spec(event@, *payload),
        s@ == "window.__RIZONET_EMIT__("@ + json_quoted(event@) + ", "@ + json_text(*payload)
            + ");"@,
{
    let name: String = match quoted(event) {
        Ok(text) => text,
        Err(_) => "\"\"".to_owned(),
    };
    let value: String = match value_text(payload) {
        Ok(text) => text,
        Err(_) => "null".to_owned(),
    };
    let mut s: String = concat2("window.__RIZONET_EMIT__(", name.as_str());
    s.append(", ");
    s.append(value.as_str());
    s.append(");");
    s
}

/// A handle to the running app. `S` sends a message to the event loop and tells
/// whether the loop took it; `V` is the form in which managed state is kept.
pub struct AppHandle<S, V> {
    sender: S,
    state: Arc<StateMap<V>>,
}

impl<S: Clone, V> Clone for AppHandle<S, V> {
    /// Another handle to the same app, with the same managed state.
    fn clone(&self) -> (r: Self)
        ensures
            cloned::<S>(self.sender(), r.sender()),
            r.managed() == self.managed(),
    {
        AppHandle { sender: self.sender.clone(), state: share(&self.state) }
    }
}

impl<S, V> AppHandle<S, V> {
    /// What sends messages to the event loop.
    pub closed spec fn sender(self) -> S {
        self.sender
    }

    /// The managed state.
    pub closed spec fn managed(self) -> Map<TypeId, V> {
        self.state@
    }

    /// A handle that sends through `sender` and looks up `state`.
    pub fn new(sender: S, state: Arc<StateMap<V>>) -> (r: Self)
        ensures
            r.sender() == sender,
            r.managed() == state@,
    {
        AppHandle { sender, state }
    }

    /// Retrieve a previously-managed state value.
    pub fn state(&self, key: TypeId) -> (r: Option<&V>)
        ensures
            match r {
                Some(v) => self.managed().contains_key(key) && *v == self.managed()[key],
                None => !self.managed().contains_key(key),
            },
    {
        self.state.get(key)
    }
}

impl<S: Fn(UserEvent) -> bool, V> AppHandle<S, V> {
    /// Whether the sender takes every message.
    pub open spec fn ready(self) -> bool {
        forall|event: UserEvent| #[trigger] call_requires(self.sender(), (event,))
    }

    /// Whether `r` tells what became of sending `message`.
    pub open spec fn posts(self, message: Message, r: Result<(), RizonetError>) -> bool {
        exists|event: UserEvent, sent: bool| #[trigger]
            call_ensures(self.sender(), (event,), sent) && event@ == message && told(r, sent)
    }

    /// Send a message to the event loop.
    pub fn post(&self, event: UserEvent) -> (r: Result<(), RizonetError>)
        requires
            self.ready(),
        ensures
            self.posts(event@, r),
    {
        assert(call_requires(self.sender(), (event,)));
        let sender: &S = &self.sender;
        let sent: bool = sender(event);
        delivered(sent)
    }

    /// Emit an event to the frontend. JavaScript listeners registered via
    /// `window.__RIZONET__.on(event, cb)` will receive the payload.
    pub fn emit(&self, event: &str, payload: &Value) -> (r: Result<(), RizonetError>)
        requires
            self.ready(),
        ensures
            self.posts(Message::EvalJs(emit_script_spec(event@, *payload)), r),
            self.posts(
                Message::EvalJs(
                    "window.__RIZONET_EMIT__("@ + json_quoted(event@) + ", "@ + json_text(*payload)
                        + ");"@,
                ),
                r,
            ),
    {
        let js: String = emit_script(event, payload);
        self.eval_js(js.as_str())
    }

    /// Evaluate an arbitrary JavaScript snippet in the main webview.
    pub fn eval_js(&self, script: &str) -> (r: Result<(), RizonetError>)
        requires
            self.ready(),
        ensures
            self.posts(Message::EvalJs(script@), r),
    {
        self.post(UserEvent::EvalJs(script.to_owned()))
    }

    /// Toggle the window visibility.
    pub fn show(&self, visible: bool) -> (r: Result<(), RizonetError>)
        requires
            self.ready(),
        ensures
            self.posts(Message::Show(visible), r),
    {
        self.send_window(WindowOp::Show(visible))
    }

    /// Minimize or restore the window.
    pub fn minimize(&self, minimized: bool) -> (r: Result<(), RizonetError>)
        requires
            self.ready(),
        ensures
            self.posts(Message::Minimize(minimized), r),
    {
        self.send_window(WindowOp::Minimize(minimized))
    }

    /// Maximize or restore the window.
    pub fn maximize(&self, maximized: bool) -> (r: Result<(), RizonetError>)
        requires
            self.ready(),
        ensures
            self.posts(Message::Maximize(maximized), r),
    {
        self.send_window(WindowOp::Maximize(maximized))
    }

    /// Bring the window to the front.
    pub fn focus(&self) -> (r: Result<(), RizonetError>)
        requires
            self.ready(),
        ensures
            self.posts(Message::Focus, r),
    {
        self.send_window(WindowOp::Focus)
    }

    /// Change the title of the window.
    pub fn set_title(&self, title: String) -> (r: Result<(), RizonetError>)
        requires
            self.ready(),
        ensures
            self.posts(Message::SetTitle(title@), r),
    {
        self.send_window(WindowOp::SetTitle(title))
    }

    /// Close the window.
    pub fn close(&self) -> (r: Result<(), RizonetError>)
        requires
            self.ready(),
        ensures
            self.posts(Message::Close, r),
    {
        self.send_window(WindowOp::Close)
    }

    /// Open (true) or close (false) the webview devtools.
    pub fn devtools(&self, open: bool) -> (r: Result<(), RizonetError>)
        requires
            self.ready(),
        ensures
            self.posts(Message::Devtools(open), r),
    {
        self.post(UserEvent::Devtools(open))
    }

    /// Gracefully exit the application.
    pub fn exit(&self) -> (r: Result<(), RizonetError>)
        requires
            self.ready(),
        ensures
            self.posts(Message::Exit, r),
    {
        self.post(UserEvent::Exit)
    }

    fn send_window(&self, op: WindowOp) -> (r: Result<(), RizonetError>)
        requires
            self.ready(),
        ensures
            self.posts(UserEvent::Window(op)@, r),
    {
        self.post(UserEvent::Window(op))
    }
}

// ----------------------------------------------------------------------- laws

/// The script that emits an event calls the listeners of exactly that name: its first
/// argument is the string literal of the name as it was given, and its second the
/// payload.
pub proof fn law_event_goes_out_under_its_name(event: &str, payload: &Value, s: String)
    requires
        call_ensures(emit_script, (event, payload), s),
    ensures
        s@ == "window.__RIZONET_EMIT__("@ + json_quoted(event@) + ", "@ + json_text(*payload)
            + ");"@,
{
}

/// What stands between the same beginning and the same end differs when the whole
/// differs: the scripts of two events with the same payload are equal exactly when
/// the literals of their names are, and those of one event exactly when the texts of
/// the payloads are.
pub proof fn law_scripts_tell_events_apart(
    one: &str,
    other: &str,
    payload: &Value,
    another: &Value,
    a: String,
    b: String,
    c: String,
)
    requires
        call_ensures(emit_script, (one, payload), a),
        call_ensures(emit_script, (other, payload), b),
        call_ensures(emit_script, (one, another), c),
    ensures
        a@ == b@ <==> json_quoted(one@) == json_quoted(other@),
        a@ == c@ <==> json_text(*payload) == json_text(*another),
{
    let head = "window.__RIZONET_EMIT__("@;
    let tail = ", "@ + json_text(*payload) + ");"@;
    lemma_between(head, json_quoted(one@), json_quoted(other@), tail);
    assert(a@ =~= head + json_quoted(one@) + tail);
    assert(b@ =~= head + json_quoted(other@) + tail);
    let start = head + json_quoted(one@) + ", "@;
    lemma_between(start, json_text(*payload), json_text(*another), ");"@);
}

proof fn lemma_between(head: Seq<char>, a: Seq<char>, b: Seq<char>, tail: Seq<char>)
    ensures
        head + a + tail == head + b + tail <==> a == b,
{
    let (x, y) = (head + a + tail, head + b + tail);
    if x == y {
        assert(x.len() == head.len() + a.len() + tail.len());
        assert(y.len() == head.len() + b.len() + tail.len());
        let end = (head.len() + a.len()) as int;
        assert(x.subrange(head.len() as int, end) =~= a);
        assert(y.subrange(head.len() as int, end) =~= b);
    }
}

/// A message that the event loop took is a success, and one that it did not take fails
/// because the loop is gone.
pub proof fn law_sender_is_told_the_truth(sent: bool, r: Result<(), RizonetError>)
    requires
        call_ensures(delivered, (sent,), r),
    ensures
        r is Ok <==> sent,
        r matches Err(e) ==> (e matches RizonetError::Other(m) && m@ == "event loop closed"@),
{
}

/// Emitting an event sends the event loop the script with that name and payload, and
/// succeeds exactly when the loop took it.
pub proof fn law_emit_sends_the_script<S: Fn(UserEvent) -> bool, V>(
    handle: &AppHandle<S, V>,
    name: &str,
    payload: &Value,
    r: Result<(), RizonetError>,
)
    requires
        call_ensures(AppHandle::<S, V>::emit, (handle, name, payload), r),
    ensures
        exists|event: UserEvent, sent: bool| #[trigger]
            call_ensures(handle.sender(), (event,), sent) && (event matches UserEvent::EvalJs(
                s,
            ) && s@ == "window.__RIZONET_EMIT__("@ + json_quoted(name@) + ", "@ + json_text(
                *payload,
            ) + ");"@) && (sent <==> r is Ok),
{
}

/// A script is sent as it is.
pub proof fn law_scripts_are_sent_as_they_are<S: Fn(UserEvent) -> bool, V>(
    handle: &AppHandle<S, V>,
    script: &str,
    r: Result<(), RizonetError>,
)
    requires
        call_ensures(AppHandle::<S, V>::eval_js, (handle, script), r),
    ensures
        exists|event: UserEvent, sent: bool| #[trigger]
            call_ensures(handle.sender(), (event,), sent) && (event matches UserEvent::EvalJs(s) && s@ == script@) && (sent <==> r is Ok),
{
}

/// A title is sent as it is.
pub proof fn law_titles_are_sent_as_they_are<S: Fn(UserEvent) -> bool, V>(
    handle: &AppHandle<S, V>,
    title: String,
    r: Result<(), RizonetError>,
)
    requires
        call_ensures(AppHandle::<S, V>::set_title, (handle, title), r),
    ensures
        exists|event: UserEvent, sent: bool| #[trigger]
            call_ensures(handle.sender(), (event,), sent) && (event matches UserEvent::Window(
                WindowOp::SetTitle(t),
            ) && t@ == title@) && (sent <==> r is Ok),
{
}

/// Showing and hiding are told apart.
pub proof fn law_visibility_is_sent<S: Fn(UserEvent) -> bool, V>(
    handle: &AppHandle<S, V>,
    visible: bool,
    r: Result<(), RizonetError>,
)
    requires
        call_ensures(AppHandle::<S, V>::show, (handle, visible), r),
    ensures
        exists|event: UserEvent, sent: bool| #[trigger]
            call_ensures(handle.sender(), (event,), sent) && event == UserEvent::Window(WindowOp::Show(visible)) && (sent <==> r is Ok),
{
}

/// Minimizing and restoring are told apart.
pub proof fn law_minimizing_is_sent<S: Fn(UserEvent) -> bool, V>(
    handle: &AppHandle<S, V>,
    minimized: bool,
    r: Result<(), RizonetError>,
)
    requires
        call_ensures(AppHandle::<S, V>::minimize, (handle, minimized), r),
    ensures
        exists|event: UserEvent, sent: bool| #[trigger]
            call_ensures(handle.sender(), (event,), sent) && event == UserEvent::Window(
                WindowOp::Minimize(minimized),
            ) && (sent <==> r is Ok),
{
}

/// Maximizing and restoring are told apart.
pub proof fn law_maximizing_is_sent<S: Fn(UserEvent) -> bool, V>(
    handle: &AppHandle<S, V>,
    maximized: bool,
    r: Result<(), RizonetError>,
)
    requires
        call_ensures(AppHandle::<S, V>::maximize, (handle, maximized), r),
    ensures
        exists|event: UserEvent, sent: bool| #[trigger]
            call_ensures(handle.sender(), (event,), sent) && event == UserEvent::Window(
                WindowOp::Maximize(maximized),
            ) && (sent <==> r is Ok),
{
}

/// A request for the focus is sent as one.
pub proof fn law_focus_is_sent<S: Fn(UserEvent) -> bool, V>(
    handle: &AppHandle<S, V>,
    r: Result<(), RizonetError>,
)
    requires
        call_ensures(AppHandle::<S, V>::focus, (handle,), r),
    ensures
        exists|event: UserEvent, sent: bool| #[trigger]
            call_ensures(handle.sender(), (event,), sent) && event == UserEvent::Window(WindowOp::Focus) && (sent <==> r is Ok),
{
}

/// Closing the window is sent as such.
pub proof fn law_closing_is_sent<S: Fn(UserEvent) -> bool, V>(
    handle: &AppHandle<S, V>,
    r: Result<(), RizonetError>,
)
    requires
        call_ensures(AppHandle::<S, V>::close, (handle,), r),
    ensures
        exists|event: UserEvent, sent: bool| #[trigger]
            call_ensures(handle.sender(), (event,), sent) && event == UserEvent::Window(WindowOp::Close) && (sent <==> r is Ok),
{
}

/// Opening and closing the devtools are told apart.
pub proof fn law_devtools_are_sent<S: Fn(UserEvent) -> bool, V>(
    handle: &AppHandle<S, V>,
    open: bool,
    r: Result<(), RizonetError>,
)
    requires
        call_ensures(AppHandle::<S, V>::devtools, (handle, open), r),
    ensures
        exists|event: UserEvent, sent: bool| #[trigger]
            call_ensures(handle.sender(), (event,), sent) && event == UserEvent::Devtools(open) && (sent <==> r is Ok),
{
}

/// The end of the app is sent as such.
pub proof fn law_exit_is_sent<S: Fn(UserEvent) -> bool, V>(
    handle: &AppHandle<S, V>,
    r: Result<(), RizonetError>,
)
    requires
        call_ensures(AppHandle::<S, V>::exit, (handle,), r),
    ensures
        exists|event: UserEvent, sent: bool| #[trigger]
            call_ensures(handle.sender(), (event,), sent) && event == UserEvent::Exit && (sent <==> r is Ok),
{
}

} // verus!
