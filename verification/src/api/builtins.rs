//! Built-in IPC commands.
//!
//! Every app automatically gets these commands unless the `capabilities`
//! config denies them:
//!
//! - **Dialog**:       `dialog:open_file`, `dialog:save_file`, `dialog:message`,
//!                     `dialog:confirm`
//! - **Notification**: `notification:send`
//! - **Clipboard**:    `clipboard:read_text`, `clipboard:write_text`
//! - **Shell**:        `shell:open`
//! - **Path**:         `path:home`, `path:config`, `path:data`, `path:cache`,
//!                     `path:documents`, `path:desktop`, `path:download`,
//!                     `path:temp`
//! - **HTTP**:         `http:fetch` (CORS-free HTTP client driven by Rust)
//! - **Window**:       `window:show`, `window:hide`, `window:minimize`,
//!                     `window:unminimize`, `window:maximize`,
//!                     `window:unmaximize`, `window:focus`,
//!                     `window:set_title`, `window:close`
//! - **Devtools**:     `devtools:open`, `devtools:close`
//! - **Event**:        `event:emit` (bounce an event back to the frontend)
//!
//! A command runs in two halves. The first turns its arguments into a
//! [`HostAction`], what the host platform has to do. The second turns what came
//! of it into the [`Reply`].

use crate::api::event::{delivered, emit_script, emit_script_spec, Message, UserEvent, WindowOp};
use crate::assoc::filed;
use crate::error::RizonetError;
use crate::ipc::{Commands, IpcHandler};
use crate::json::{
    flag_value, json_members, json_quoted, json_strings, json_text, member_texts, null_value,
    number_value, object_value, quoted_list, string_member, text_value, texts_value,
};
use crate::name_map::{named, NameMap};
use crate::text::{concat2, concat3, copy_opt, decimal, same_text, texts, truth};
use serde_json::Value;
use std::sync::Arc;
use vstd::prelude::*;

verus! {

/// A built-in command.
#[derive(Debug, Clone, Copy, PartialEq, Eq, Structural)]
pub enum Builtin {
    DialogOpenFile,
    DialogSaveFile,
    DialogMessage,
    DialogConfirm,
    NotificationSend,
    ClipboardReadText,
    ClipboardWriteText,
    ShellOpen,
    PathHome,
    PathConfig,
    PathData,
    PathCache,
    PathDocuments,
    PathDesktop,
    PathDownload,
    PathTemp,
    HttpFetch,
    WindowShow,
    WindowHide,
    WindowMinimize,
    WindowUnminimize,
    WindowMaximize,
    WindowUnmaximize,
    WindowFocus,
    WindowClose,
    WindowSetTitle,
    DevtoolsOpen,
    DevtoolsClose,
    EventEmit,
}

/// A well-known directory.
#[derive(Debug, Clone, Copy, PartialEq, Eq, Structural)]
pub enum PathKind {
    Home,
    Config,
    Data,
    Cache,
    Documents,
    Desktop,
    Download,
    Temp,
}

/// A window command without arguments.
#[derive(Debug, Clone, Copy, PartialEq, Eq, Structural)]
pub enum WindowCommand {
    Show,
    Hide,
    Minimize,
    Unminimize,
    Maximize,
    Unmaximize,
    Focus,
    Close,
}

/// A command that reads at most one text from its payload.
#[derive(Debug, Clone, Copy, PartialEq, Eq, Structural)]
pub enum DirectCommand {
    ReadClipboard,
    WriteClipboard,
    Open,
    Locate(PathKind),
    Window(WindowCommand),
    SetTitle,
    Devtools(bool),
}

/// How a command takes its arguments: a direct command reads its payload itself,
/// each of the others has arguments of its own form.
#[derive(Debug, Clone, Copy, PartialEq, Eq, Structural)]
pub enum Route {
    OpenFile,
    SaveFile,
    Message,
    Confirm,
    Notify,
    Fetch,
    Emit,
    Direct(DirectCommand),
}

impl Builtin {
    /// The name under which the frontend invokes the command.
    pub open spec fn command_spec(self) -> Seq<char> {
        match self {
            Builtin::DialogOpenFile => "dialog:open_file"@,
            Builtin::DialogSaveFile => "dialog:save_file"@,
            Builtin::DialogMessage => "dialog:message"@,
            Builtin::DialogConfirm => "dialog:confirm"@,
            Builtin::NotificationSend => "notification:send"@,
            Builtin::ClipboardReadText => "clipboard:read_text"@,
            Builtin::ClipboardWriteText => "clipboard:write_text"@,
            Builtin::ShellOpen => "shell:open"@,
            Builtin::PathHome => "path:home"@,
            Builtin::PathConfig => "path:config"@,
            Builtin::PathData => "path:data"@,
            Builtin::PathCache => "path:cache"@,
            Builtin::PathDocuments => "path:documents"@,
            Builtin::PathDesktop => "path:desktop"@,
            Builtin::PathDownload => "path:download"@,
            Builtin::PathTemp => "path:temp"@,
            Builtin::HttpFetch => "http:fetch"@,
            Builtin::WindowShow => "window:show"@,
            Builtin::WindowHide => "window:hide"@,
            Builtin::WindowMinimize => "window:minimize"@,
            Builtin::WindowUnminimize => "window:unminimize"@,
            Builtin::WindowMaximize => "window:maximize"@,
            Builtin::WindowUnmaximize => "window:unmaximize"@,
            Builtin::WindowFocus => "window:focus"@,
            Builtin::WindowClose => "window:close"@,
            Builtin::WindowSetTitle => "window:set_title"@,
            Builtin::DevtoolsOpen => "devtools:open"@,
            Builtin::DevtoolsClose => "devtools:close"@,
            Builtin::EventEmit => "event:emit"@,
        }
    }

    /// The name under which the frontend invokes the command.
    pub fn command(self) -> (r: &'static str)
        ensures
            r@ == self.command_spec(),
    {
        match self {
            Builtin::DialogOpenFile => "dialog:open_file",
            Builtin::DialogSaveFile => "dialog:save_file",
            Builtin::DialogMessage => "dialog:message",
            Builtin::DialogConfirm => "dialog:confirm",
            Builtin::NotificationSend => "notification:send",
            Builtin::ClipboardReadText => "clipboard:read_text",
            Builtin::ClipboardWriteText => "clipboard:write_text",
            Builtin::ShellOpen => "shell:open",
            Builtin::PathHome => "path:home",
            Builtin::PathConfig => "path:config",
            Builtin::PathData => "path:data",
            Builtin::PathCache => "path:cache",
            Builtin::PathDocuments => "path:documents",
            Builtin::PathDesktop => "path:desktop",
            Builtin::PathDownload => "path:download",
            Builtin::PathTemp => "path:temp",
            Builtin::HttpFetch => "http:fetch",
            Builtin::WindowShow => "window:show",
            Builtin::WindowHide => "window:hide",
            Builtin::WindowMinimize => "window:minimize",
            Builtin::WindowUnminimize => "window:unminimize",
            Builtin::WindowMaximize => "window:maximize",
            Builtin::WindowUnmaximize => "window:unmaximize",
            Builtin::WindowFocus => "window:focus",
            Builtin::WindowClose => "window:close",
            Builtin::WindowSetTitle => "window:set_title",
            Builtin::DevtoolsOpen => "devtools:open",
            Builtin::DevtoolsClose => "devtools:close",
            Builtin::EventEmit => "event:emit",
        }
    }

    /// How the command takes its arguments.
    pub open spec fn route_spec(self) -> Route {
        match self {
            Builtin::DialogOpenFile => Route::OpenFile,
            Builtin::DialogSaveFile => Route::SaveFile,
            Builtin::DialogMessage => Route::Message,
            Builtin::DialogConfirm => Route::Confirm,
            Builtin::NotificationSend => Route::Notify,
            Builtin::ClipboardReadText => Route::Direct(DirectCommand::ReadClipboard),
            Builtin::ClipboardWriteText => Route::Direct(DirectCommand::WriteClipboard),
            Builtin::ShellOpen => Route::Direct(DirectCommand::Open),
            Builtin::PathHome => Route::Direct(DirectCommand::Locate(PathKind::Home)),
            Builtin::PathConfig => Route::Direct(DirectCommand::Locate(PathKind::Config)),
            Builtin::PathData => Route::Direct(DirectCommand::Locate(PathKind::Data)),
            Builtin::PathCache => Route::Direct(DirectCommand::Locate(PathKind::Cache)),
            Builtin::PathDocuments => Route::Direct(DirectCommand::Locate(PathKind::Documents)),
            Builtin::PathDesktop => Route::Direct(DirectCommand::Locate(PathKind::Desktop)),
            Builtin::PathDownload => Route::Direct(DirectCommand::Locate(PathKind::Download)),
            Builtin::PathTemp => Route::Direct(DirectCommand::Locate(PathKind::Temp)),
            Builtin::HttpFetch => Route::Fetch,
            Builtin::WindowShow => Route::Direct(DirectCommand::Window(WindowCommand::Show)),
            Builtin::WindowHide => Route::Direct(DirectCommand::Window(WindowCommand::Hide)),
            Builtin::WindowMinimize => Route::Direct(DirectCommand::Window(WindowCommand::Minimize)),
            Builtin::WindowUnminimize => Route::Direct(DirectCommand::Window(WindowCommand::Unminimize)),
            Builtin::WindowMaximize => Route::Direct(DirectCommand::Window(WindowCommand::Maximize)),
            Builtin::WindowUnmaximize => Route::Direct(DirectCommand::Window(WindowCommand::Unmaximize)),
            Builtin::WindowFocus => Route::Direct(DirectCommand::Window(WindowCommand::Focus)),
            Builtin::WindowClose => Route::Direct(DirectCommand::Window(WindowCommand::Close)),
            Builtin::WindowSetTitle => Route::Direct(DirectCommand::SetTitle),
            Builtin::DevtoolsOpen => Route::Direct(DirectCommand::Devtools(true)),
            Builtin::DevtoolsClose => Route::Direct(DirectCommand::Devtools(false)),
            Builtin::EventEmit => Route::Emit,
        }
    }

    /// How the command takes its arguments.
    pub fn route(self) -> (r: Route)
        ensures
            r == self.route_spec(),
    {
        match self {
            Builtin::DialogOpenFile => Route::OpenFile,
            Builtin::DialogSaveFile => Route::SaveFile,
            Builtin::DialogMessage => Route::Message,
            Builtin::DialogConfirm => Route::Confirm,
            Builtin::NotificationSend => Route::Notify,
            Builtin::ClipboardReadText => Route::Direct(DirectCommand::ReadClipboard),
            Builtin::ClipboardWriteText => Route::Direct(DirectCommand::WriteClipboard),
            Builtin::ShellOpen => Route::Direct(DirectCommand::Open),
            Builtin::PathHome => Route::Direct(DirectCommand::Locate(PathKind::Home)),
            Builtin::PathConfig => Route::Direct(DirectCommand::Locate(PathKind::Config)),
            Builtin::PathData => Route::Direct(DirectCommand::Locate(PathKind::Data)),
            Builtin::PathCache => Route::Direct(DirectCommand::Locate(PathKind::Cache)),
            Builtin::PathDocuments => Route::Direct(DirectCommand::Locate(PathKind::Documents)),
            Builtin::PathDesktop => Route::Direct(DirectCommand::Locate(PathKind::Desktop)),
            Builtin::PathDownload => Route::Direct(DirectCommand::Locate(PathKind::Download)),
            Builtin::PathTemp => Route::Direct(DirectCommand::Locate(PathKind::Temp)),
            Builtin::HttpFetch => Route::Fetch,
            Builtin::WindowShow => Route::Direct(DirectCommand::Window(WindowCommand::Show)),
            Builtin::WindowHide => Route::Direct(DirectCommand::Window(WindowCommand::Hide)),
            Builtin::WindowMinimize => Route::Direct(DirectCommand::Window(WindowCommand::Minimize)),
            Builtin::WindowUnminimize => Route::Direct(DirectCommand::Window(WindowCommand::Unminimize)),
            Builtin::WindowMaximize => Route::Direct(DirectCommand::Window(WindowCommand::Maximize)),
            Builtin::WindowUnmaximize => Route::Direct(DirectCommand::Window(WindowCommand::Unmaximize)),
            Builtin::WindowFocus => Route::Direct(DirectCommand::Window(WindowCommand::Focus)),
            Builtin::WindowClose => Route::Direct(DirectCommand::Window(WindowCommand::Close)),
            Builtin::WindowSetTitle => Route::Direct(DirectCommand::SetTitle),
            Builtin::DevtoolsOpen => Route::Direct(DirectCommand::Devtools(true)),
            Builtin::DevtoolsClose => Route::Direct(DirectCommand::Devtools(false)),
            Builtin::EventEmit => Route::Emit,
        }
    }

    /// The place of the command in the order of registration.
    pub open spec fn place(self) -> int {
        match self {
            Builtin::DialogOpenFile => 0,
            Builtin::DialogSaveFile => 1,
            Builtin::DialogMessage => 2,
            Builtin::DialogConfirm => 3,
            Builtin::NotificationSend => 4,
            Builtin::ClipboardReadText => 5,
            Builtin::ClipboardWriteText => 6,
            Builtin::ShellOpen => 7,
            Builtin::PathHome => 8,
            Builtin::PathConfig => 9,
            Builtin::PathData => 10,
            Builtin::PathCache => 11,
            Builtin::PathDocuments => 12,
            Builtin::PathDesktop => 13,
            Builtin::PathDownload => 14,
            Builtin::PathTemp => 15,
            Builtin::HttpFetch => 16,
            Builtin::WindowShow => 17,
            Builtin::WindowHide => 18,
            Builtin::WindowMinimize => 19,
            Builtin::WindowUnminimize => 20,
            Builtin::WindowMaximize => 21,
            Builtin::WindowUnmaximize => 22,
            Builtin::WindowFocus => 23,
            Builtin::WindowClose => 24,
            Builtin::WindowSetTitle => 25,
            Builtin::DevtoolsOpen => 26,
            Builtin::DevtoolsClose => 27,
            Builtin::EventEmit => 28,
        }
    }
}

/// The built-in commands, in the order of registration.
pub open spec fn builtins() -> Seq<Builtin> {
    seq![
        Builtin::DialogOpenFile,
        Builtin::DialogSaveFile,
        Builtin::DialogMessage,
        Builtin::DialogConfirm,
        Builtin::NotificationSend,
        Builtin::ClipboardReadText,
        Builtin::ClipboardWriteText,
        Builtin::ShellOpen,
        Builtin::PathHome,
        Builtin::PathConfig,
        Builtin::PathData,
        Builtin::PathCache,
        Builtin::PathDocuments,
        Builtin::PathDesktop,
        Builtin::PathDownload,
        Builtin::PathTemp,
        Builtin::HttpFetch,
        Builtin::WindowShow,
        Builtin::WindowHide,
        Builtin::WindowMinimize,
        Builtin::WindowUnminimize,
        Builtin::WindowMaximize,
        Builtin::WindowUnmaximize,
        Builtin::WindowFocus,
        Builtin::WindowClose,
        Builtin::WindowSetTitle,
        Builtin::DevtoolsOpen,
        Builtin::DevtoolsClose,
        Builtin::EventEmit,
    ]
}

/// The built-in commands, in the order of registration.
pub fn all_builtins() -> (r: Vec<Builtin>)
    ensures
        r@ == builtins(),
{
    vec![
        Builtin::DialogOpenFile,
        Builtin::DialogSaveFile,
        Builtin::DialogMessage,
        Builtin::DialogConfirm,
        Builtin::NotificationSend,
        Builtin::ClipboardReadText,
        Builtin::ClipboardWriteText,
        Builtin::ShellOpen,
        Builtin::PathHome,
        Builtin::PathConfig,
        Builtin::PathData,
        Builtin::PathCache,
        Builtin::PathDocuments,
        Builtin::PathDesktop,
        Builtin::PathDownload,
        Builtin::PathTemp,
        Builtin::HttpFetch,
        Builtin::WindowShow,
        Builtin::WindowHide,
        Builtin::WindowMinimize,
        Builtin::WindowUnminimize,
        Builtin::WindowMaximize,
        Builtin::WindowUnmaximize,
        Builtin::WindowFocus,
        Builtin::WindowClose,
        Builtin::WindowSetTitle,
        Builtin::DevtoolsOpen,
        Builtin::DevtoolsClose,
        Builtin::EventEmit,
    ]
}

/// The commands after the first `n` built-ins were registered on top of `before`,
/// each with its handler from `handlers`.
pub open spec fn registered<F>(before: Commands<F>, handlers: Seq<F>, n: int) -> Commands<F>
    decreases n,
{
    if n <= 0 {
        before
    } else {
        registered(before, handlers, n - 1).with(
            builtins()[n - 1].command_spec(),
            Arc::new(handlers[n - 1]),
        )
    }
}

/// Whether `handlers` are handlers that `make` made, one for each built-in.
pub open spec fn made_by<F, M: Fn(Builtin) -> F>(make: M, handlers: Seq<F>) -> bool {
    &&& handlers.len() == builtins().len()
    &&& forall|i: int|
        0 <= i < handlers.len() ==> #[trigger] call_ensures(make, (builtins()[i],), handlers[i])
}

/// Register every built-in command on the provided handler. `make` makes the
/// handler of a command.
pub fn register_all<F, M: Fn(Builtin) -> F>(ipc: IpcHandler<F>, make: M) -> (r: IpcHandler<F>)
    requires
        forall|b: Builtin| #[trigger] call_requires(make, (b,)),
    ensures
        exists|handlers: Seq<F>| #[trigger]
            made_by(make, handlers) && r@ == registered(
                ipc@,
                handlers,
                builtins().len() as int,
            ),
{
    let all: Vec<Builtin> = all_builtins();
    let ghost before = ipc@;
    let ghost mut handlers: Seq<F> = Seq::empty();
    let mut ipc: IpcHandler<F> = ipc;
    let mut i: usize = 0;
    while i < all.len()
        invariant
            i <= all@.len(),
            all@ == builtins(),
            i == handlers.len(),
            forall|b: Builtin| #[trigger] call_requires(make, (b,)),
            forall|j: int|
                0 <= j < i ==> #[trigger] call_ensures(make, (builtins()[j],), handlers[j]),
            ipc@ == registered(before, handlers, i as int),
        decreases all@.len() - i,
    {
        let b: Builtin = all[i];
        assert(call_requires(make, (b,)));
        let handler: F = make(b);
        let ghost earlier = handlers;
        proof {
            handlers = handlers.push(handler);
            lemma_registered_prefix(before, earlier, handlers, i as int);
            assert forall|j: int| 0 <= j < i + 1 implies #[trigger] call_ensures(
                make,
                (builtins()[j],),
                handlers[j],
            ) by {
                if j < i {
                    assert(call_ensures(make, (builtins()[j],), earlier[j]));
                }
            }
        }
        ipc = ipc.register(b.command(), handler);
        i = i + 1;
    }
    assert(made_by(make, handlers));
    ipc
}

/// Only the first `n` handlers matter for the first `n` registrations.
proof fn lemma_registered_prefix<F>(before: Commands<F>, a: Seq<F>, b: Seq<F>, n: int)
    requires
        n <= a.len(),
        n <= b.len(),
        forall|i: int| 0 <= i < n ==> a[i] == b[i],
    ensures
        registered(before, a, n) == registered(before, b, n),
    decreases n,
{
    if n > 0 {
        lemma_registered_prefix(before, a, b, n - 1);
    }
}

/// The length of a command's name, its last character and its sixth from the
/// end. They tell the names apart.
spec fn hallmark(b: Builtin) -> (int, char, char) {
    match b {
        Builtin::DialogOpenFile => (16, 'e', 'n'),
        Builtin::DialogSaveFile => (16, 'e', 'e'),
        Builtin::DialogMessage => (14, 'e', 'e'),
        Builtin::DialogConfirm => (14, 'm', 'o'),
        Builtin::NotificationSend => (17, 'd', 'n'),
        Builtin::ClipboardReadText => (19, 't', 'd'),
        Builtin::ClipboardWriteText => (20, 't', 'e'),
        Builtin::ShellOpen => (10, 'n', 'l'),
        Builtin::PathHome => (9, 'e', 'h'),
        Builtin::PathConfig => (11, 'g', 'c'),
        Builtin::PathData => (9, 'a', 'h'),
        Builtin::PathCache => (10, 'e', ':'),
        Builtin::PathDocuments => (14, 's', 'u'),
        Builtin::PathDesktop => (12, 'p', 'e'),
        Builtin::PathDownload => (13, 'd', 'w'),
        Builtin::PathTemp => (9, 'p', 'h'),
        Builtin::HttpFetch => (10, 'h', ':'),
        Builtin::WindowShow => (11, 'w', 'w'),
        Builtin::WindowHide => (11, 'e', 'w'),
        Builtin::WindowMinimize => (15, 'e', 'n'),
        Builtin::WindowUnminimize => (17, 'e', 'n'),
        Builtin::WindowMaximize => (15, 'e', 'x'),
        Builtin::WindowUnmaximize => (17, 'e', 'x'),
        Builtin::WindowFocus => (12, 's', ':'),
        Builtin::WindowClose => (12, 'e', ':'),
        Builtin::WindowSetTitle => (16, 'e', '_'),
        Builtin::DevtoolsOpen => (13, 'n', 's'),
        Builtin::DevtoolsClose => (14, 'e', ':'),
        Builtin::EventEmit => (10, 't', 't'),
    }
}

proof fn lemma_hallmark(b: Builtin)
    ensures
        ({
            let name = b.command_spec();
            hallmark(b) == (name.len() as int, name[name.len() - 1], name[name.len() - 6])
        }),
{
    match b {
        Builtin::DialogOpenFile => {
            reveal_strlit("dialog:open_file");
        },
        Builtin::DialogSaveFile => {
            reveal_strlit("dialog:save_file");
        },
        Builtin::DialogMessage => {
            reveal_strlit("dialog:message");
        },
        Builtin::DialogConfirm => {
            reveal_strlit("dialog:confirm");
        },
        Builtin::NotificationSend => {
            reveal_strlit("notification:send");
        },
        Builtin::ClipboardReadText => {
            reveal_strlit("clipboard:read_text");
        },
        Builtin::ClipboardWriteText => {
            reveal_strlit("clipboard:write_text");
        },
        Builtin::ShellOpen => {
            reveal_strlit("shell:open");
        },
        Builtin::PathHome => {
            reveal_strlit("path:home");
        },
        Builtin::PathConfig => {
            reveal_strlit("path:config");
        },
        Builtin::PathData => {
            reveal_strlit("path:data");
        },
        Builtin::PathCache => {
            reveal_strlit("path:cache");
        },
        Builtin::PathDocuments => {
            reveal_strlit("path:documents");
        },
        Builtin::PathDesktop => {
            reveal_strlit("path:desktop");
        },
        Builtin::PathDownload => {
            reveal_strlit("path:download");
        },
        Builtin::PathTemp => {
            reveal_strlit("path:temp");
        },
        Builtin::HttpFetch => {
            reveal_strlit("http:fetch");
        },
        Builtin::WindowShow => {
            reveal_strlit("window:show");
        },
        Builtin::WindowHide => {
            reveal_strlit("window:hide");
        },
        Builtin::WindowMinimize => {
            reveal_strlit("window:minimize");
        },
        Builtin::WindowUnminimize => {
            reveal_strlit("window:unminimize");
        },
        Builtin::WindowMaximize => {
            reveal_strlit("window:maximize");
        },
        Builtin::WindowUnmaximize => {
            reveal_strlit("window:unmaximize");
        },
        Builtin::WindowFocus => {
            reveal_strlit("window:focus");
        },
        Builtin::WindowClose => {
            reveal_strlit("window:close");
        },
        Builtin::WindowSetTitle => {
            reveal_strlit("window:set_title");
        },
        Builtin::DevtoolsOpen => {
            reveal_strlit("devtools:open");
        },
        Builtin::DevtoolsClose => {
            reveal_strlit("devtools:close");
        },
        Builtin::EventEmit => {
            reveal_strlit("event:emit");
        },
    }
}

/// No two built-in commands share a name.
pub proof fn law_names_are_distinct(a: Builtin, b: Builtin)
    requires
        a.command_spec() == b.command_spec(),
    ensures
        a == b,
{
    lemma_hallmark(a);
    lemma_hallmark(b);
}

/// Every built-in command is in the list of built-ins, once.
pub proof fn law_builtins_are_complete(b: Builtin)
    ensures
        0 <= b.place() < builtins().len(),
        builtins()[b.place()] == b,
        forall|i: int| 0 <= i < builtins().len() && #[trigger] builtins()[i] == b ==> i == b.place(),
{
    assert forall|i: int| 0 <= i < builtins().len() implies #[trigger] builtins()[i].place() == i by {
    }
}

/// What the first `n` registrations leave under a name.
proof fn lemma_registered<F>(before: Commands<F>, handlers: Seq<F>, n: int, name: Seq<char>)
    requires
        0 <= n <= builtins().len(),
    ensures
        registered(before, handlers, n).policy == before.policy,
        forall|i: int|
            0 <= i < n && #[trigger] builtins()[i].command_spec() == name ==> registered(
                before,
                handlers,
                n,
            ).handlers.contains_key(name) && registered(before, handlers, n).handlers[name]
                == Arc::new(handlers[i]),
        (forall|i: int| 0 <= i < n ==> #[trigger] builtins()[i].command_spec() != name) ==> {
            &&& registered(before, handlers, n).handlers.contains_key(name)
                == before.handlers.contains_key(name)
            &&& registered(before, handlers, n).handlers[name] == before.handlers[name]
        },
    decreases n,
{
    if n > 0 {
        lemma_registered(before, handlers, n - 1, name);
        let last = builtins()[n - 1];
        assert forall|i: int|
            0 <= i < n && #[trigger] builtins()[i].command_spec() == name implies registered(
            before,
            handlers,
            n,
        ).handlers.contains_key(name) && registered(before, handlers, n).handlers[name]
            == Arc::new(handlers[i]) by {
            if last.command_spec() == name {
                law_names_are_distinct(last, builtins()[i]);
                law_builtins_are_complete(last);
                assert(builtins()[n - 1] == last);
                assert(builtins()[i] == last);
                assert(i == n - 1);
            }
        }
    }
}

/// After registration every built-in command is handled by the handler that was
/// made for it, every other command as before, and the policy is as before.
pub proof fn law_builtins_are_registered<F>(
    before: Commands<F>,
    handlers: Seq<F>,
    b: Builtin,
    other: Seq<char>,
)
    ensures
        ({
            let after = registered(before, handlers, builtins().len() as int);
            &&& after.handlers.contains_key(b.command_spec())
            &&& after.handlers[b.command_spec()] == Arc::new(handlers[b.place()])
            &&& after.policy == before.policy
            &&& (forall|c: Builtin| #[trigger] c.command_spec() != other) ==> {
                &&& after.handlers.contains_key(other) == before.handlers.contains_key(other)
                &&& after.handlers[other] == before.handlers[other]
            }
        }),
{
    let n = builtins().len() as int;
    lemma_registered(before, handlers, n, b.command_spec());
    lemma_registered(before, handlers, n, other);
    law_builtins_are_complete(b);
    assert(builtins()[b.place()].command_spec() == b.command_spec());
}

// ------------------------------------------------------------------ arguments

/// A file type offered by a file dialog.
#[derive(Debug)]
pub struct DialogFilter {
    pub name: String,
    pub extensions: Vec<String>,
}

#[derive(Debug)]
pub struct OpenFileArgs {
    pub title: Option<String>,
    pub directory: bool,
    pub multiple: bool,
    pub filters: Vec<DialogFilter>,
    pub default_path: Option<String>,
}

#[derive(Debug)]
pub struct SaveFileArgs {
    pub title: Option<String>,
    pub filters: Vec<DialogFilter>,
    pub default_path: Option<String>,
    pub file_name: Option<String>,
}

#[derive(Debug)]
pub struct MessageArgs {
    pub title: String,
    pub message: String,
    /// "info" | "warn" | "error"
    pub level: String,
}

#[derive(Debug)]
pub struct NotifyArgs {
    pub title: String,
    pub body: String,
    pub subtitle: Option<String>,
}

#[derive(Debug)]
pub struct FetchArgs {
    pub method: String,
    pub url: String,
    pub headers: NameMap<String>,
    pub body: Option<String>,
    pub timeout_ms: Option<u64>,
}

#[derive(Debug)]
pub struct EmitArgs {
    pub event: String,
    pub payload: Value,
}

/// The level of a message that names none.
pub fn default_level() -> (r: String)
    ensures
        r@ == "info"@,
{
    "info".to_owned()
}

/// The method of an HTTP request that names none.
pub fn default_method() -> (r: String)
    ensures
        r@ == "GET"@,
{
    "GET".to_owned()
}

impl Default for OpenFileArgs {
    fn default() -> (r: Self)
        ensures
            r.title is None,
            !r.directory,
            !r.multiple,
            r.filters@.len() == 0,
            r.default_path is None,
    {
        OpenFileArgs {
            title: None,
            directory: false,
            multiple: false,
            filters: Vec::new(),
            default_path: None,
        }
    }
}

impl Default for SaveFileArgs {
    fn default() -> (r: Self)
        ensures
            r.title is None,
            r.filters@.len() == 0,
            r.default_path is None,
            r.file_name is None,
    {
        SaveFileArgs { title: None, filters: Vec::new(), default_path: None, file_name: None }
    }
}

// -------------------------------------------------------------------- actions

/// The settings of a file dialog.
#[derive(Debug)]
pub struct FileDialog {
    pub title: Option<String>,
    /// The directory in which the dialog opens.
    pub directory: Option<String>,
    pub filters: Vec<DialogFilter>,
    /// The file name that the dialog proposes.
    pub file_name: Option<String>,
}

/// What a file dialog lets the user choose.
#[derive(Debug, Clone, Copy, PartialEq, Eq, Structural)]
pub enum Picker {
    Folders,
    Folder,
    Files,
    File,
    Save,
}

#[derive(Debug, Clone, Copy, PartialEq, Eq, Structural)]
pub enum MessageLevel {
    Info,
    Warning,
    Error,
}

/// What the host platform has to do for a command.
#[derive(Debug)]
pub enum HostAction {
    Pick(Picker, FileDialog),
    ShowMessage { title: String, message: String, level: MessageLevel },
    Ask { title: String, message: String },
    Notify { title: String, body: String, subtitle: Option<String> },
    ReadClipboard,
    WriteClipboard(String),
    Open(String),
    Locate(PathKind),
    Fetch(FetchArgs),
    Post(UserEvent),
}

/// The settings of a file dialog with the given title, filters and start directory.
pub fn build_file_dialog(
    title: Option<String>,
    filters: Vec<DialogFilter>,
    default_path: Option<String>,
) -> (r: FileDialog)
    ensures
        r.title == title,
        r.directory == default_path,
        r.filters == filters,
        r.file_name is None,
{
    FileDialog { title, directory: default_path, filters, file_name: None }
}

/// What `dialog:open_file` lets the user choose.
pub open spec fn open_picker(directory: bool, multiple: bool) -> Picker {
    if directory {
        if multiple {
            Picker::Folders
        } else {
            Picker::Folder
        }
    } else if multiple {
        Picker::Files
    } else {
        Picker::File
    }
}

/// `dialog:open_file`, with its arguments as far as the payload could be
/// understood: arguments that could not be understood count as none given.
pub fn open_file(args: Option<OpenFileArgs>) -> (r: HostAction)
    ensures
        match args {
            Some(a) => r matches HostAction::Pick(picker, dialog) && picker == open_picker(
                a.directory,
                a.multiple,
            ) && dialog.title == a.title && dialog.directory == a.default_path && dialog.filters
                == a.filters && dialog.file_name is None,
            None => r matches HostAction::Pick(picker, dialog) && picker == Picker::File
                && dialog.title is None && dialog.directory is None && dialog.filters@.len() == 0
                && dialog.file_name is None,
        },
{
    let a: OpenFileArgs = match args {
        Some(a) => a,
        None => OpenFileArgs::default(),
    };
    let picker: Picker = if a.directory {
        if a.multiple {
            Picker::Folders
        } else {
            Picker::Folder
        }
    } else if a.multiple {
        Picker::Files
    } else {
        Picker::File
    };
    HostAction::Pick(picker, build_file_dialog(a.title, a.filters, a.default_path))
}

/// `dialog:save_file`, with its arguments as far as the payload could be
/// understood: arguments that could not be understood count as none given.
pub fn save_file(args: Option<SaveFileArgs>) -> (r: HostAction)
    ensures
        match args {
            Some(a) => r matches HostAction::Pick(picker, dialog) && picker == Picker::Save
                && dialog.title == a.title && dialog.directory == a.default_path && dialog.filters
                == a.filters && dialog.file_name == a.file_name,
            None => r matches HostAction::Pick(picker, dialog) && picker == Picker::Save
                && dialog.title is None && dialog.directory is None && dialog.filters@.len() == 0
                && dialog.file_name is None,
        },
{
    let a: SaveFileArgs = match args {
        Some(a) => a,
        None => SaveFileArgs::default(),
    };
    let dialog: FileDialog = build_file_dialog(a.title, a.filters, a.default_path);
    HostAction::Pick(Picker::Save, FileDialog { file_name: a.file_name, ..dialog })
}

/// The level of a message, by its name.
pub open spec fn level_of(name: Seq<char>) -> MessageLevel {
    if name == "error"@ {
        MessageLevel::Error
    } else if name == "warn"@ || name == "warning"@ {
        MessageLevel::Warning
    } else {
        MessageLevel::Info
    }
}

/// The level of a message, by its name.
pub fn message_level(name: &str) -> (r: MessageLevel)
    ensures
        r == level_of(name@),
{
    if same_text(name, "error") {
        MessageLevel::Error
    } else if same_text(name, "warn") || same_text(name, "warning") {
        MessageLevel::Warning
    } else {
        MessageLevel::Info
    }
}

/// Whether `r` is the failure to understand a payload, which is worded `cause`.
pub open spec fn not_understood<T>(r: Result<T, RizonetError>, cause: String) -> bool {
    r matches Err(RizonetError::Serde(e)) && e == cause
}

/// `dialog:message`, with its arguments or why they could not be understood.
pub fn message(args: Result<MessageArgs, String>) -> (r: Result<HostAction, RizonetError>)
    ensures
        match args {
            Ok(a) => r matches Ok(HostAction::ShowMessage { title, message, level }) && title
                == a.title && message == a.message && level == level_of(a.level@),
            Err(cause) => not_understood(r, cause),
        },
{
    match args {
        Ok(a) => {
            let level: MessageLevel = message_level(a.level.as_str());
            Ok(HostAction::ShowMessage { title: a.title, message: a.message, level })
        },
        Err(cause) => Err(RizonetError::Serde(cause)),
    }
}

/// `dialog:confirm`, with its arguments or why they could not be understood.
pub fn confirm(args: Result<MessageArgs, String>) -> (r: Result<HostAction, RizonetError>)
    ensures
        match args {
            Ok(a) => r matches Ok(HostAction::Ask { title, message }) && title == a.title
                && message == a.message,
            Err(cause) => not_understood(r, cause),
        },
{
    match args {
        Ok(a) => Ok(HostAction::Ask { title: a.title, message: a.message }),
        Err(cause) => Err(RizonetError::Serde(cause)),
    }
}

/// `notification:send`, with its arguments or why they could not be understood.
pub fn notify(args: Result<NotifyArgs, String>) -> (r: Result<HostAction, RizonetError>)
    ensures
        match args {
            Ok(a) => r matches Ok(HostAction::Notify { title, body, subtitle }) && title == a.title
                && body == a.body && subtitle == a.subtitle,
            Err(cause) => not_understood(r, cause),
        },
{
    match args {
        Ok(a) => Ok(
            HostAction::Notify { title: a.title, body: a.body, subtitle: a.subtitle },
        ),
        Err(cause) => Err(RizonetError::Serde(cause)),
    }
}

/// `http:fetch`, with its arguments or why they could not be understood.
pub fn fetch(args: Result<FetchArgs, String>) -> (r: Result<HostAction, RizonetError>)
    ensures
        match args {
            Ok(a) => r == Ok::<HostAction, RizonetError>(HostAction::Fetch(a)),
            Err(cause) => not_understood(r, cause),
        },
{
    match args {
        Ok(a) => Ok(HostAction::Fetch(a)),
        Err(cause) => Err(RizonetError::Serde(cause)),
    }
}

/// `event:emit`, with its arguments or why they could not be understood.
pub fn emit(args: Result<EmitArgs, String>) -> (r: Result<HostAction, RizonetError>)
    ensures
        match args {
            Ok(a) => r matches Ok(HostAction::Post(event)) && event@ == Message::EvalJs(
                emit_script_spec(a.event@, a.payload),
            ) && event@ == Message::EvalJs(
                "window.__RIZONET_EMIT__("@ + json_quoted(a.event@) + ", "@ + json_text(a.payload)
                    + ");"@,
            ),
            Err(cause) => not_understood(r, cause),
        },
{
    match args {
        Ok(a) => Ok(
            HostAction::Post(UserEvent::EvalJs(emit_script(a.event.as_str(), &a.payload))),
        ),
        Err(cause) => Err(RizonetError::Serde(cause)),
    }
}

/// Whether `r` is the text of member `key` of a payload, or the failure that
/// there is none.
pub open spec fn required_text(
    payload: Value,
    key: Seq<char>,
    r: Result<String, RizonetError>,
) -> bool {
    if json_strings(payload).contains_key(key) {
        r matches Ok(text) && text@ == json_strings(payload)[key]
    } else {
        r matches Err(RizonetError::Other(m)) && m@ == "missing `"@ + key + "`"@
    }
}

/// The text of member `key` of a payload.
fn require_text(payload: &Value, key: &str) -> (r: Result<String, RizonetError>)
    ensures
        required_text(*payload, key@, r),
{
    match string_member(payload, key) {
        Some(text) => Ok(text),
        None => Err(RizonetError::Other(concat3("missing `", key, "`"))),
    }
}

/// The message that a window command sends.
pub open spec fn window_message(cmd: WindowCommand) -> Message {
    match cmd {
        WindowCommand::Show => Message::Show(true),
        WindowCommand::Hide => Message::Show(false),
        WindowCommand::Minimize => Message::Minimize(true),
        WindowCommand::Unminimize => Message::Minimize(false),
        WindowCommand::Maximize => Message::Maximize(true),
        WindowCommand::Unmaximize => Message::Maximize(false),
        WindowCommand::Focus => Message::Focus,
        WindowCommand::Close => Message::Close,
    }
}

/// The message that a window command sends.
pub fn window_event(cmd: WindowCommand) -> (r: UserEvent)
    ensures
        r@ == window_message(cmd),
{
    UserEvent::Window(
        match cmd {
            WindowCommand::Show => WindowOp::Show(true),
            WindowCommand::Hide => WindowOp::Show(false),
            WindowCommand::Minimize => WindowOp::Minimize(true),
            WindowCommand::Unminimize => WindowOp::Minimize(false),
            WindowCommand::Maximize => WindowOp::Maximize(true),
            WindowCommand::Unmaximize => WindowOp::Maximize(false),
            WindowCommand::Focus => WindowOp::Focus,
            WindowCommand::Close => WindowOp::Close,
        },
    )
}

/// Whether `r` is what a direct command comes to on a payload.
pub open spec fn directs(
    cmd: DirectCommand,
    payload: Value,
    r: Result<HostAction, RizonetError>,
) -> bool {
    let fields = json_strings(payload);
    match cmd {
        DirectCommand::ReadClipboard => r == Ok::<HostAction, RizonetError>(
            HostAction::ReadClipboard,
        ),
        DirectCommand::WriteClipboard => if fields.contains_key("text"@) {
            r matches Ok(HostAction::WriteClipboard(text)) && text@ == fields["text"@]
        } else {
            r matches Err(RizonetError::Other(m)) && m@ == "missing `"@ + "text"@ + "`"@
        },
        DirectCommand::Open => if fields.contains_key("target"@) {
            r matches Ok(HostAction::Open(target)) && target@ == fields["target"@]
        } else {
            r matches Err(RizonetError::Other(m)) && m@ == "missing `"@ + "target"@ + "`"@
        },
        DirectCommand::Locate(kind) => r == Ok::<HostAction, RizonetError>(
            HostAction::Locate(kind),
        ),
        DirectCommand::Window(w) => r matches Ok(HostAction::Post(event)) && event@
            == window_message(w),
        DirectCommand::SetTitle => if fields.contains_key("title"@) {
            r matches Ok(HostAction::Post(event)) && event@ == Message::SetTitle(fields["title"@])
        } else {
            r matches Err(RizonetError::Other(m)) && m@ == "missing `"@ + "title"@ + "`"@
        },
        DirectCommand::Devtools(open) => r matches Ok(HostAction::Post(event)) && event@
            == Message::Devtools(open),
    }
}

/// A direct command on its payload.
pub fn direct(cmd: DirectCommand, payload: &Value) -> (r: Result<HostAction, RizonetError>)
    ensures
        directs(cmd, *payload, r),
{
    match cmd {
        DirectCommand::ReadClipboard => Ok(HostAction::ReadClipboard),
        DirectCommand::WriteClipboard => match require_text(payload, "text") {
            Ok(text) => Ok(HostAction::WriteClipboard(text)),
            Err(e) => Err(e),
        },
        DirectCommand::Open => match require_text(payload, "target") {
            Ok(target) => Ok(HostAction::Open(target)),
            Err(e) => Err(e),
        },
        DirectCommand::Locate(kind) => Ok(HostAction::Locate(kind)),
        DirectCommand::Window(w) => Ok(HostAction::Post(window_event(w))),
        DirectCommand::SetTitle => match require_text(payload, "title") {
            Ok(title) => Ok(HostAction::Post(UserEvent::Window(WindowOp::SetTitle(title)))),
            Err(e) => Err(e),
        },
        DirectCommand::Devtools(open) => Ok(HostAction::Post(UserEvent::Devtools(open))),
    }
}

// -------------------------------------------------------------------- replies

/// The reply to a command.
#[derive(Debug)]
pub enum Reply {
    /// The object `{ "ok": true }`.
    Done,
    Null,
    Text(String),
    Texts(Vec<String>),
    Flag(bool),
    Fetched(FetchResponse),
}

#[derive(Debug)]
pub struct FetchResponse {
    pub status: u16,
    pub headers: NameMap<String>,
    pub body: String,
}

/// How a dialog ended: the thread that showed it crashed, or it was closed.
#[derive(Debug)]
pub enum DialogEnd<T> {
    Crashed,
    Closed(T),
}

/// Whether `r` is the failure of the thread that showed a dialog.
pub open spec fn dialog_crash(r: Result<Reply, RizonetError>) -> bool {
    r matches Err(RizonetError::Other(m)) && m@ == "dialog thread panicked"@
}

fn crashed() -> (e: RizonetError)
    ensures
        e matches RizonetError::Other(m) && m@ == "dialog thread panicked"@,
{
    RizonetError::Other("dialog thread panicked".to_owned())
}

/// The reply to a file dialog: a list for a dialog that lets the user choose
/// several, else one path or nothing.
pub fn finish_pick(picker: Picker, end: DialogEnd<Option<Vec<String>>>) -> (r: Result<
    Reply,
    RizonetError,
>)
    ensures
        match end {
            DialogEnd::Crashed => dialog_crash(r),
            DialogEnd::Closed(chosen) => if picker == Picker::Folders || picker == Picker::Files {
                r matches Ok(Reply::Texts(paths)) && match chosen {
                    Some(all) => paths == all,
                    None => paths@.len() == 0,
                }
            } else {
                match chosen {
                    Some(all) => if all@.len() > 0 {
                        r matches Ok(Reply::Text(path)) && path@ == all@[0]@
                    } else {
                        r == Ok::<Reply, RizonetError>(Reply::Null)
                    },
                    None => r == Ok::<Reply, RizonetError>(Reply::Null),
                }
            },
        },
{
    match end {
        DialogEnd::Crashed => Err(crashed()),
        DialogEnd::Closed(chosen) => {
            let all: Vec<String> = match chosen {
                Some(all) => all,
                None => Vec::new(),
            };
            match picker {
                Picker::Folders | Picker::Files => Ok(Reply::Texts(all)),
                Picker::Folder | Picker::File | Picker::Save => if all.len() > 0 {
                    Ok(Reply::Text(all[0].clone()))
                } else {
                    Ok(Reply::Null)
                },
            }
        },
    }
}

/// The reply to a message dialog.
pub fn finish_message(end: DialogEnd<()>) -> (r: Result<Reply, RizonetError>)
    ensures
        match end {
            DialogEnd::Crashed => dialog_crash(r),
            DialogEnd::Closed(_) => r == Ok::<Reply, RizonetError>(Reply::Done),
        },
{
    match end {
        DialogEnd::Crashed => Err(crashed()),
        DialogEnd::Closed(_) => Ok(Reply::Done),
    }
}

/// The reply to a question: whether the user said yes.
pub fn finish_ask(end: DialogEnd<bool>) -> (r: Result<Reply, RizonetError>)
    ensures
        match end {
            DialogEnd::Crashed => dialog_crash(r),
            DialogEnd::Closed(yes) => r == Ok::<Reply, RizonetError>(Reply::Flag(yes)),
        },
{
    match end {
        DialogEnd::Crashed => Err(crashed()),
        DialogEnd::Closed(yes) => Ok(Reply::Flag(yes)),
    }
}

/// Whether `r` is `{ "ok": true }` where the host did what it was asked for, and
/// else the failure worded `what` and then as the host words it.
pub open spec fn done_or(
    r: Result<Reply, RizonetError>,
    outcome: Result<(), String>,
    what: Seq<char>,
) -> bool {
    match outcome {
        Ok(_) => r == Ok::<Reply, RizonetError>(Reply::Done),
        Err(cause) => r matches Err(RizonetError::Other(m)) && m@ == what + cause@,
    }
}

fn done(outcome: Result<(), String>, what: &str) -> (r: Result<Reply, RizonetError>)
    ensures
        done_or(r, outcome, what@),
{
    match outcome {
        Ok(_) => Ok(Reply::Done),
        Err(cause) => Err(RizonetError::Other(concat2(what, cause.as_str()))),
    }
}

/// The reply to a notification.
pub fn finish_notify(outcome: Result<(), String>) -> (r: Result<Reply, RizonetError>)
    ensures
        done_or(r, outcome, "notification failed: "@),
{
    done(outcome, "notification failed: ")
}

/// The reply to opening a URL or path.
pub fn finish_open(outcome: Result<(), String>) -> (r: Result<Reply, RizonetError>)
    ensures
        done_or(r, outcome, "shell open failed: "@),
{
    done(outcome, "shell open failed: ")
}

/// The reply to reading the clipboard: its text, empty where it holds none, or
/// the failure to reach it.
pub fn finish_read_clipboard(outcome: Result<Option<String>, String>) -> (r: Result<
    Reply,
    RizonetError,
>)
    ensures
        match outcome {
            Ok(Some(text)) => r == Ok::<Reply, RizonetError>(Reply::Text(text)),
            Ok(None) => r matches Ok(Reply::Text(text)) && text@.len() == 0,
            Err(cause) => r matches Err(RizonetError::Other(m)) && m@ == "clipboard unavailable: "@
                + cause@,
        },
{
    match outcome {
        Ok(Some(text)) => Ok(Reply::Text(text)),
        Ok(None) => Ok(Reply::Text(String::new())),
        Err(cause) => Err(
            RizonetError::Other(concat2("clipboard unavailable: ", cause.as_str())),
        ),
    }
}

/// What came of writing to the clipboard.
#[derive(Debug)]
pub enum ClipboardWrite {
    Unavailable(String),
    Failed(String),
    Written,
}

/// The reply to writing to the clipboard.
pub fn finish_write_clipboard(outcome: ClipboardWrite) -> (r: Result<Reply, RizonetError>)
    ensures
        match outcome {
            ClipboardWrite::Unavailable(cause) => r matches Err(RizonetError::Other(m)) && m@
                == "clipboard unavailable: "@ + cause@,
            ClipboardWrite::Failed(cause) => r matches Err(RizonetError::Other(m)) && m@
                == "clipboard write failed: "@ + cause@,
            ClipboardWrite::Written => r == Ok::<Reply, RizonetError>(Reply::Done),
        },
{
    match outcome {
        ClipboardWrite::Unavailable(cause) => Err(
            RizonetError::Other(concat2("clipboard unavailable: ", cause.as_str())),
        ),
        ClipboardWrite::Failed(cause) => Err(
            RizonetError::Other(concat2("clipboard write failed: ", cause.as_str())),
        ),
        ClipboardWrite::Written => Ok(Reply::Done),
    }
}

/// The directories of the user that every platform has.
#[derive(Debug)]
pub struct BaseFolders {
    pub home: String,
    pub config: String,
    pub data: String,
    pub cache: String,
}

/// The directories of the user that some platforms lack.
#[derive(Debug)]
pub struct UserFolders {
    pub documents: Option<String>,
    pub desktop: Option<String>,
    pub download: Option<String>,
}

/// The well-known directories, as far as the platform tells them.
#[derive(Debug)]
pub struct KnownFolders {
    pub base: Option<BaseFolders>,
    pub user: Option<UserFolders>,
    pub temp: String,
}

impl KnownFolders {
    /// The directory of a kind.
    pub open spec fn folder(self, kind: PathKind) -> Option<String> {
        match kind {
            PathKind::Home => match self.base {
                Some(b) => Some(b.home),
                None => None,
            },
            PathKind::Config => match self.base {
                Some(b) => Some(b.config),
                None => None,
            },
            PathKind::Data => match self.base {
                Some(b) => Some(b.data),
                None => None,
            },
            PathKind::Cache => match self.base {
                Some(b) => Some(b.cache),
                None => None,
            },
            PathKind::Documents => match self.user {
                Some(u) => u.documents,
                None => None,
            },
            PathKind::Desktop => match self.user {
                Some(u) => u.desktop,
                None => None,
            },
            PathKind::Download => match self.user {
                Some(u) => u.download,
                None => None,
            },
            PathKind::Temp => Some(self.temp),
        }
    }

    /// The directory of a kind.
    pub fn base_dir(&self, kind: PathKind) -> (r: Option<String>)
        ensures
            r == self.folder(kind),
    {
        match kind {
            PathKind::Home => match &self.base {
                Some(b) => Some(b.home.clone()),
                None => None,
            },
            PathKind::Config => match &self.base {
                Some(b) => Some(b.config.clone()),
                None => None,
            },
            PathKind::Data => match &self.base {
                Some(b) => Some(b.data.clone()),
                None => None,
            },
            PathKind::Cache => match &self.base {
                Some(b) => Some(b.cache.clone()),
                None => None,
            },
            PathKind::Documents => match &self.user {
                Some(u) => copy_opt(&u.documents),
                None => None,
            },
            PathKind::Desktop => match &self.user {
                Some(u) => copy_opt(&u.desktop),
                None => None,
            },
            PathKind::Download => match &self.user {
                Some(u) => copy_opt(&u.download),
                None => None,
            },
            PathKind::Temp => Some(self.temp.clone()),
        }
    }
}

/// The reply to the question for a directory: its path, or nothing where the
/// platform has none of the kind.
pub fn finish_locate(kind: PathKind, folders: &KnownFolders) -> (r: Reply)
    ensures
        match folders.folder(kind) {
            Some(path) => r == Reply::Text(path),
            None => r == Reply::Null,
        },
{
    match folders.base_dir(kind) {
        Some(path) => Reply::Text(path),
        None => Reply::Null,
    }
}

/// What came of an HTTP request. Each header has its value where it is text; a
/// name may occur more than once.
#[derive(Debug)]
pub enum FetchOutcome {
    BadMethod(String),
    Io(String),
    Network(String),
    Answer { status: u16, headers: Vec<(String, Option<String>)>, body: String },
}

/// Whether a character may stand in the name of an HTTP method.
pub open spec fn is_method_char(c: char) -> bool {
    ||| 'a' <= c <= 'z'
    ||| 'A' <= c <= 'Z'
    ||| '0' <= c <= '9'
    ||| "!#$%&'*+-.^_`|~"@.contains(c)
}

/// Whether a text names an HTTP method.
pub open spec fn is_method(text: Seq<char>) -> bool {
    text.len() > 0 && forall|i: int| 0 <= i < text.len() ==> is_method_char(#[trigger] text[i])
}

/// `reqwest::Method::from_bytes` accepts every text that names an HTTP method, and
/// no other.
#[verifier::external_body]
fn parse_method(text: &str) -> (r: Result<(), String>)
    ensures
        match r {
            Ok(_) => is_method(text@),
            Err(e) => !is_method(text@) && e@ == "invalid HTTP method"@,
        },
{
    match reqwest::Method::from_bytes(text.as_bytes()) {
        Ok(_) => Ok(()),
        Err(e) => Err(e.to_string()),
    }
}

/// What is wrong with the method of an HTTP request, if anything.
pub fn method_problem(method: &str) -> (r: Option<String>)
    ensures
        match r {
            None => is_method(method@),
            Some(e) => !is_method(method@) && e@ == "invalid HTTP method"@,
        },
{
    match parse_method(method) {
        Ok(_) => None,
        Err(e) => Some(e),
    }
}

/// The headers of an answer by name: those with a text, the last one of a name.
pub open spec fn header_map(headers: Seq<(String, Option<String>)>) -> Map<Seq<char>, String>
    decreases headers.len(),
{
    if headers.len() == 0 {
        Map::empty()
    } else {
        let front = header_map(headers.drop_last());
        match headers.last().1 {
            Some(value) => front.insert(headers.last().0@, value),
            None => front,
        }
    }
}

/// Whether a header has that name, and a text.
pub open spec fn tells(header: (String, Option<String>), name: Seq<char>) -> bool {
    header.0@ == name && header.1 is Some
}

/// Of several headers of a name, the last one that is text counts.
pub proof fn law_last_header_counts(
    headers: Seq<(String, Option<String>)>,
    name: Seq<char>,
    i: int,
)
    requires
        0 <= i < headers.len(),
        tells(headers[i], name),
        forall|j: int| i < j < headers.len() ==> !tells(#[trigger] headers[j], name),
    ensures
        header_map(headers).contains_key(name),
        header_map(headers)[name] == headers[i].1->0,
    decreases headers.len(),
{
    if i < headers.len() - 1 {
        let front = headers.drop_last();
        assert(forall|j: int| 0 <= j < front.len() ==> front[j] == headers[j]);
        law_last_header_counts(front, name, i);
        assert(!tells(headers[headers.len() - 1], name));
    }
}

/// A header without a text counts for nothing.
pub proof fn law_header_without_text(headers: Seq<(String, Option<String>)>, name: Seq<char>)
    requires
        forall|j: int| 0 <= j < headers.len() ==> !tells(#[trigger] headers[j], name),
    ensures
        !header_map(headers).contains_key(name),
    decreases headers.len(),
{
    if headers.len() > 0 {
        let front = headers.drop_last();
        assert(forall|j: int| 0 <= j < front.len() ==> front[j] == headers[j]);
        law_header_without_text(front, name);
        assert(!tells(headers[headers.len() - 1], name));
    }
}

/// The reply to an HTTP request.
pub fn finish_fetch(outcome: FetchOutcome) -> (r: Result<Reply, RizonetError>)
    ensures
        match outcome {
            FetchOutcome::BadMethod(cause) => r matches Err(RizonetError::Other(m)) && m@
                == "bad HTTP method: "@ + cause@,
            FetchOutcome::Io(cause) => r == Err::<Reply, RizonetError>(RizonetError::Io(cause)),
            FetchOutcome::Network(cause) => r == Err::<Reply, RizonetError>(
                RizonetError::Network(cause),
            ),
            FetchOutcome::Answer { status, headers, body } => r matches Ok(Reply::Fetched(f))
                && f.status == status && f.body == body && f.headers@ == header_map(headers@),
        },
{
    match outcome {
        FetchOutcome::BadMethod(cause) => Err(
            RizonetError::Other(concat2("bad HTTP method: ", cause.as_str())),
        ),
        FetchOutcome::Io(cause) => Err(RizonetError::Io(cause)),
        FetchOutcome::Network(cause) => Err(RizonetError::Network(cause)),
        FetchOutcome::Answer { status, headers, body } => {
            let mut map: NameMap<String> = NameMap::new();
            let mut i: usize = 0;
            while i < headers.len()
                invariant
                    i <= headers@.len(),
                    map@ == header_map(headers@.take(i as int)),
                decreases headers@.len() - i,
            {
                proof {
                    assert(headers@.take(i + 1).drop_last() =~= headers@.take(i as int));
                }
                match &headers[i].1 {
                    Some(value) => {
                        map.insert(headers[i].0.clone(), value.clone());
                    },
                    None => {},
                }
                i = i + 1;
            }
            assert(headers@.take(i as int) =~= headers@);
            Ok(Reply::Fetched(FetchResponse { status, headers: map, body }))
        },
    }
}

/// The reply to a message for the event loop, by whether the loop took it.
pub fn finish_post(sent: bool) -> (r: Result<Reply, RizonetError>)
    ensures
        if sent {
            r == Ok::<Reply, RizonetError>(Reply::Done)
        } else {
            r matches Err(RizonetError::Other(m)) && m@ == "event loop closed"@
        },
{
    match delivered(sent) {
        Ok(_) => Ok(Reply::Done),
        Err(e) => Err(e),
    }
}

/// The JSON texts of headers by name.
pub open spec fn header_members(headers: Map<Seq<char>, String>) -> Map<Seq<char>, Seq<char>> {
    headers.map_values(|value: String| json_quoted(value@))
}

/// Whether `value` is the response to an HTTP request: an object with its status, its
/// headers, which are an object too, and its body.
pub open spec fn is_response(response: FetchResponse, value: Value) -> bool {
    exists|headers: Value|
        {
            &&& #[trigger] json_members(headers) == header_members(response.headers@)
            &&& json_members(value) == map![
                "status"@ => decimal(response.status as nat),
                "headers"@ => json_text(headers),
                "body"@ => json_quoted(response.body@),
            ]
        }
}

/// The members that the first entries of a map become.
proof fn lemma_header_members(entries: Seq<(String, String)>, members: Seq<(String, Value)>)
    requires
        entries.len() == members.len(),
        forall|i: int|
            0 <= i < entries.len() ==> (#[trigger] members[i]).0@ == entries[i].0@ && json_text(
                members[i].1,
            ) == json_quoted(entries[i].1@),
    ensures
        member_texts(members) == header_members(filed(named(entries))),
    decreases entries.len(),
{
    if entries.len() > 0 {
        lemma_header_members(entries.drop_last(), members.drop_last());
        assert(named(entries).drop_last() =~= named(entries.drop_last()));
        assert(members[members.len() - 1].0@ == entries[entries.len() - 1].0@);
    }
    assert(member_texts(members) =~= header_members(filed(named(entries))));
}

/// The response to an HTTP request as a JSON value.
pub fn response_value(response: &FetchResponse) -> (r: Value)
    ensures
        is_response(*response, r),
{
    let count: usize = response.headers.len();
    let ghost entries = response.headers.listed();
    let mut members: Vec<(String, Value)> = Vec::new();
    let mut i: usize = 0;
    while i < count
        invariant
            i == members@.len(),
            i <= count == entries.len(),
            entries == response.headers.listed(),
            forall|j: int|
                0 <= j < i ==> (#[trigger] members@[j]).0@ == entries[j].0@ && json_text(
                    members@[j].1,
                ) == json_quoted(entries[j].1@),
        decreases count - i,
    {
        let entry: &(String, String) = response.headers.entry(i);
        members.push((entry.0.clone(), text_value(entry.1.clone())));
        i = i + 1;
    }
    proof {
        lemma_header_members(entries, members@);
        assert forall|a: int, b: int| 0 <= a < b < members@.len() implies members@[a].0@
            != members@[b].0@ by {
            assert(named(entries)[a].0 != named(entries)[b].0);
        }
    }
    let headers: Value = object_value(members);
    let ghost h = headers;
    let mut members: Vec<(String, Value)> = Vec::new();
    members.push(("status".to_owned(), number_value(response.status as u32)));
    members.push(("headers".to_owned(), headers));
    members.push(("body".to_owned(), text_value(response.body.clone())));
    proof {
        reveal_strlit("status");
        reveal_strlit("headers");
        reveal_strlit("body");
        assert("status"@.len() == 6 && "headers"@.len() == 7 && "body"@.len() == 4);
        reveal_with_fuel(member_texts, 4);
        assert(member_texts(members@) =~= map![
            "status"@ => decimal(response.status as nat),
            "headers"@ => json_text(h),
            "body"@ => json_quoted(response.body@),
        ]);
    }
    object_value(members)
}

/// Whether `value` is a reply as it goes to the frontend.
pub open spec fn is_reply(reply: Reply, value: Value) -> bool {
    match reply {
        Reply::Done => json_text(value) == "{"@ + json_quoted("ok"@) + ":"@ + truth(true) + "}"@,
        Reply::Null => json_text(value) == "null"@,
        Reply::Text(text) => json_text(value) == json_quoted(text@),
        Reply::Texts(list) => json_text(value) == "["@ + quoted_list(texts(list@)) + "]"@,
        Reply::Flag(flag) => json_text(value) == truth(flag),
        Reply::Fetched(response) => is_response(response, value),
    }
}

/// A reply as it goes to the frontend.
pub fn answer(reply: Reply) -> (r: Value)
    ensures
        is_reply(reply, r),
{
    match reply {
        Reply::Done => {
            let mut members: Vec<(String, Value)> = Vec::new();
            members.push(("ok".to_owned(), flag_value(true)));
            object_value(members)
        },
        Reply::Null => null_value(),
        Reply::Text(text) => text_value(text),
        Reply::Texts(list) => texts_value(list),
        Reply::Flag(flag) => flag_value(flag),
        Reply::Fetched(response) => response_value(&response),
    }
}

// ------------------------------------------------------------ laws of commands

/// The name of a command tells what it does: the command that the frontend invokes
/// under a name is the one of that name.
pub proof fn law_commands_do_what_they_are_named(b: Builtin, name: &'static str, route: Route)
    requires
        call_ensures(Builtin::command, (b,), name),
        call_ensures(Builtin::route, (b,), route),
    ensures
        name@ == "dialog:open_file"@ ==> route == Route::OpenFile,
        name@ == "dialog:save_file"@ ==> route == Route::SaveFile,
        name@ == "dialog:message"@ ==> route == Route::Message,
        name@ == "dialog:confirm"@ ==> route == Route::Confirm,
        name@ == "notification:send"@ ==> route == Route::Notify,
        name@ == "clipboard:read_text"@ ==> route == Route::Direct(DirectCommand::ReadClipboard),
        name@ == "clipboard:write_text"@ ==> route == Route::Direct(DirectCommand::WriteClipboard),
        name@ == "shell:open"@ ==> route == Route::Direct(DirectCommand::Open),
        name@ == "path:home"@ ==> route == Route::Direct(DirectCommand::Locate(PathKind::Home)),
        name@ == "path:config"@ ==> route == Route::Direct(DirectCommand::Locate(PathKind::Config)),
        name@ == "path:data"@ ==> route == Route::Direct(DirectCommand::Locate(PathKind::Data)),
        name@ == "path:cache"@ ==> route == Route::Direct(DirectCommand::Locate(PathKind::Cache)),
        name@ == "path:documents"@ ==> route == Route::Direct(DirectCommand::Locate(PathKind::Documents)),
        name@ == "path:desktop"@ ==> route == Route::Direct(DirectCommand::Locate(PathKind::Desktop)),
        name@ == "path:download"@ ==> route == Route::Direct(DirectCommand::Locate(PathKind::Download)),
        name@ == "path:temp"@ ==> route == Route::Direct(DirectCommand::Locate(PathKind::Temp)),
        name@ == "http:fetch"@ ==> route == Route::Fetch,
        name@ == "window:show"@ ==> route == Route::Direct(DirectCommand::Window(WindowCommand::Show)),
        name@ == "window:hide"@ ==> route == Route::Direct(DirectCommand::Window(WindowCommand::Hide)),
        name@ == "window:minimize"@ ==> route == Route::Direct(DirectCommand::Window(WindowCommand::Minimize)),
        name@ == "window:unminimize"@ ==> route == Route::Direct(DirectCommand::Window(WindowCommand::Unminimize)),
        name@ == "window:maximize"@ ==> route == Route::Direct(DirectCommand::Window(WindowCommand::Maximize)),
        name@ == "window:unmaximize"@ ==> route == Route::Direct(DirectCommand::Window(WindowCommand::Unmaximize)),
        name@ == "window:focus"@ ==> route == Route::Direct(DirectCommand::Window(WindowCommand::Focus)),
        name@ == "window:close"@ ==> route == Route::Direct(DirectCommand::Window(WindowCommand::Close)),
        name@ == "window:set_title"@ ==> route == Route::Direct(DirectCommand::SetTitle),
        name@ == "devtools:open"@ ==> route == Route::Direct(DirectCommand::Devtools(true)),
        name@ == "devtools:close"@ ==> route == Route::Direct(DirectCommand::Devtools(false)),
        name@ == "event:emit"@ ==> route == Route::Emit,
{
    if name@ == "dialog:open_file"@ {
        law_names_are_distinct(b, Builtin::DialogOpenFile);
    }
    if name@ == "dialog:save_file"@ {
        law_names_are_distinct(b, Builtin::DialogSaveFile);
    }
    if name@ == "dialog:message"@ {
        law_names_are_distinct(b, Builtin::DialogMessage);
    }
    if name@ == "dialog:confirm"@ {
        law_names_are_distinct(b, Builtin::DialogConfirm);
    }
    if name@ == "notification:send"@ {
        law_names_are_distinct(b, Builtin::NotificationSend);
    }
    if name@ == "clipboard:read_text"@ {
        law_names_are_distinct(b, Builtin::ClipboardReadText);
    }
    if name@ == "clipboard:write_text"@ {
        law_names_are_distinct(b, Builtin::ClipboardWriteText);
    }
    if name@ == "shell:open"@ {
        law_names_are_distinct(b, Builtin::ShellOpen);
    }
    if name@ == "path:home"@ {
        law_names_are_distinct(b, Builtin::PathHome);
    }
    if name@ == "path:config"@ {
        law_names_are_distinct(b, Builtin::PathConfig);
    }
    if name@ == "path:data"@ {
        law_names_are_distinct(b, Builtin::PathData);
    }
    if name@ == "path:cache"@ {
        law_names_are_distinct(b, Builtin::PathCache);
    }
    if name@ == "path:documents"@ {
        law_names_are_distinct(b, Builtin::PathDocuments);
    }
    if name@ == "path:desktop"@ {
        law_names_are_distinct(b, Builtin::PathDesktop);
    }
    if name@ == "path:download"@ {
        law_names_are_distinct(b, Builtin::PathDownload);
    }
    if name@ == "path:temp"@ {
        law_names_are_distinct(b, Builtin::PathTemp);
    }
    if name@ == "http:fetch"@ {
        law_names_are_distinct(b, Builtin::HttpFetch);
    }
    if name@ == "window:show"@ {
        law_names_are_distinct(b, Builtin::WindowShow);
    }
    if name@ == "window:hide"@ {
        law_names_are_distinct(b, Builtin::WindowHide);
    }
    if name@ == "window:minimize"@ {
        law_names_are_distinct(b, Builtin::WindowMinimize);
    }
    if name@ == "window:unminimize"@ {
        law_names_are_distinct(b, Builtin::WindowUnminimize);
    }
    if name@ == "window:maximize"@ {
        law_names_are_distinct(b, Builtin::WindowMaximize);
    }
    if name@ == "window:unmaximize"@ {
        law_names_are_distinct(b, Builtin::WindowUnmaximize);
    }
    if name@ == "window:focus"@ {
        law_names_are_distinct(b, Builtin::WindowFocus);
    }
    if name@ == "window:close"@ {
        law_names_are_distinct(b, Builtin::WindowClose);
    }
    if name@ == "window:set_title"@ {
        law_names_are_distinct(b, Builtin::WindowSetTitle);
    }
    if name@ == "devtools:open"@ {
        law_names_are_distinct(b, Builtin::DevtoolsOpen);
    }
    if name@ == "devtools:close"@ {
        law_names_are_distinct(b, Builtin::DevtoolsClose);
    }
    if name@ == "event:emit"@ {
        law_names_are_distinct(b, Builtin::EventEmit);
    }
}

/// What a window command sends to the event loop: those that undo each other send the
/// same message with the opposite switch.
pub proof fn law_window_commands_undo_each_other(cmd: WindowCommand, r: UserEvent)
    requires
        call_ensures(window_event, (cmd,), r),
    ensures
        cmd == WindowCommand::Show || cmd == WindowCommand::Hide <==> (r matches UserEvent::Window(
            WindowOp::Show(_),
        )),
        cmd == WindowCommand::Minimize || cmd == WindowCommand::Unminimize <==> (r
            matches UserEvent::Window(WindowOp::Minimize(_))),
        cmd == WindowCommand::Maximize || cmd == WindowCommand::Unmaximize <==> (r
            matches UserEvent::Window(WindowOp::Maximize(_))),
        r matches UserEvent::Window(WindowOp::Show(on)) ==> on == (cmd == WindowCommand::Show),
        r matches UserEvent::Window(WindowOp::Minimize(on)) ==> on == (cmd
            == WindowCommand::Minimize),
        r matches UserEvent::Window(WindowOp::Maximize(on)) ==> on == (cmd
            == WindowCommand::Maximize),
        cmd == WindowCommand::Focus <==> r == UserEvent::Window(WindowOp::Focus),
        cmd == WindowCommand::Close <==> r == UserEvent::Window(WindowOp::Close),
{
}

/// The text that a command needs is taken from its payload as it is; without it the
/// command fails and names what is missing.
pub proof fn law_direct_commands_take_their_text(
    cmd: DirectCommand,
    payload: &Value,
    r: Result<HostAction, RizonetError>,
)
    requires
        call_ensures(direct, (cmd, payload), r),
    ensures
        ({
            let members = json_strings(*payload);
            &&& cmd == DirectCommand::WriteClipboard ==> if members.contains_key("text"@) {
                r matches Ok(HostAction::WriteClipboard(t)) && t@ == members["text"@]
            } else {
                r matches Err(RizonetError::Other(m)) && m@ == "missing `"@ + "text"@ + "`"@
            }
            &&& cmd == DirectCommand::Open ==> if members.contains_key("target"@) {
                r matches Ok(HostAction::Open(t)) && t@ == members["target"@]
            } else {
                r matches Err(RizonetError::Other(m)) && m@ == "missing `"@ + "target"@ + "`"@
            }
            &&& cmd == DirectCommand::SetTitle ==> if members.contains_key("title"@) {
                r matches Ok(HostAction::Post(UserEvent::Window(WindowOp::SetTitle(t)))) && t@
                    == members["title"@]
            } else {
                r matches Err(RizonetError::Other(m)) && m@ == "missing `"@ + "title"@ + "`"@
            }
        }),
{
}

/// A command that needs no text does what it is for, whatever its payload.
pub proof fn law_direct_commands_without_text(
    cmd: DirectCommand,
    payload: &Value,
    r: Result<HostAction, RizonetError>,
)
    requires
        call_ensures(direct, (cmd, payload), r),
    ensures
        cmd == DirectCommand::ReadClipboard ==> r == Ok::<HostAction, RizonetError>(
            HostAction::ReadClipboard,
        ),
        cmd matches DirectCommand::Locate(kind) ==> r == Ok::<HostAction, RizonetError>(
            HostAction::Locate(kind),
        ),
        cmd matches DirectCommand::Devtools(open) ==> r == Ok::<HostAction, RizonetError>(
            HostAction::Post(UserEvent::Devtools(open)),
        ),
        cmd matches DirectCommand::Window(w) ==> (r matches Ok(HostAction::Post(event)) && match w {
            WindowCommand::Show => event == UserEvent::Window(WindowOp::Show(true)),
            WindowCommand::Hide => event == UserEvent::Window(WindowOp::Show(false)),
            WindowCommand::Minimize => event == UserEvent::Window(WindowOp::Minimize(true)),
            WindowCommand::Unminimize => event == UserEvent::Window(WindowOp::Minimize(false)),
            WindowCommand::Maximize => event == UserEvent::Window(WindowOp::Maximize(true)),
            WindowCommand::Unmaximize => event == UserEvent::Window(WindowOp::Maximize(false)),
            WindowCommand::Focus => event == UserEvent::Window(WindowOp::Focus),
            WindowCommand::Close => event == UserEvent::Window(WindowOp::Close),
        }),
{
}

/// An event that the frontend bounces back goes out under its name, with its payload.
pub proof fn law_bounced_events_keep_their_name(
    args: EmitArgs,
    r: Result<HostAction, RizonetError>,
)
    requires
        call_ensures(emit, (Ok(args),), r),
    ensures
        r matches Ok(HostAction::Post(UserEvent::EvalJs(s))) && s@ == "window.__RIZONET_EMIT__("@
            + json_quoted(args.event@) + ", "@ + json_text(args.payload) + ");"@,
{
}

/// A payload that is not understood is a failure of the command, in the parser's
/// words.
pub proof fn law_payloads_that_are_not_understood(
    why: String,
    shown: Result<HostAction, RizonetError>,
    asked: Result<HostAction, RizonetError>,
    notified: Result<HostAction, RizonetError>,
    fetched: Result<HostAction, RizonetError>,
    emitted: Result<HostAction, RizonetError>,
)
    requires
        call_ensures(message, (Err(why),), shown),
        call_ensures(confirm, (Err(why),), asked),
        call_ensures(notify, (Err(why),), notified),
        call_ensures(fetch, (Err(why),), fetched),
        call_ensures(emit, (Err(why),), emitted),
    ensures
        shown == Err::<HostAction, RizonetError>(RizonetError::Serde(why)),
        asked == Err::<HostAction, RizonetError>(RizonetError::Serde(why)),
        notified == Err::<HostAction, RizonetError>(RizonetError::Serde(why)),
        fetched == Err::<HostAction, RizonetError>(RizonetError::Serde(why)),
        emitted == Err::<HostAction, RizonetError>(RizonetError::Serde(why)),
{
}

/// A dialog for opening chooses folders exactly when folders are asked for, and
/// several exactly when several are; its settings are those given.
pub proof fn law_open_dialog_chooses_what_is_asked_for(args: OpenFileArgs, r: HostAction)
    requires
        call_ensures(open_file, (Some(args),), r),
    ensures
        r matches HostAction::Pick(picker, dialog) && {
            &&& picker != Picker::Save
            &&& picker == Picker::Folders || picker == Picker::Folder <==> args.directory
            &&& picker == Picker::Folders || picker == Picker::Files <==> args.multiple
            &&& dialog.title == args.title
            &&& dialog.directory == args.default_path
            &&& dialog.filters == args.filters
            &&& dialog.file_name is None
        },
{
}

/// A message without a known level is for information; `warn` and `warning` are the
/// same, and only `error` is an error.
pub proof fn law_levels_of_messages(name: &str, r: MessageLevel)
    requires
        call_ensures(message_level, (name,), r),
    ensures
        r == MessageLevel::Error <==> name@ == "error"@,
        r == MessageLevel::Warning <==> name@ == "warn"@ || name@ == "warning"@,
{
    reveal_strlit("error");
    reveal_strlit("warn");
    reveal_strlit("warning");
    assert("error"@.len() == 5 && "warn"@.len() == 4 && "warning"@.len() == 7);
}

/// The message box shows the texts as they are, with the level that is named.
pub proof fn law_message_box_shows_its_texts(
    args: MessageArgs,
    shown: Result<HostAction, RizonetError>,
    asked: Result<HostAction, RizonetError>,
    level: MessageLevel,
)
    requires
        call_ensures(message, (Ok(args),), shown),
        call_ensures(confirm, (Ok(args),), asked),
        args.level@ == "error"@ <==> level == MessageLevel::Error,
        args.level@ == "warn"@ || args.level@ == "warning"@ <==> level == MessageLevel::Warning,
    ensures
        shown == Ok::<HostAction, RizonetError>(
            HostAction::ShowMessage { title: args.title, message: args.message, level },
        ),
        asked == Ok::<HostAction, RizonetError>(
            HostAction::Ask { title: args.title, message: args.message },
        ),
{
}

/// A well-known directory is the one of its kind, as far as the platform tells it.
pub proof fn law_directories_are_told_apart(
    folders: &KnownFolders,
    kind: PathKind,
    r: Option<String>,
    reply: Reply,
)
    requires
        call_ensures(KnownFolders::base_dir, (folders, kind), r),
        call_ensures(finish_locate, (kind, folders), reply),
    ensures
        kind == PathKind::Temp ==> r == Some(folders.temp),
        folders.base matches Some(b) ==> {
            &&& kind == PathKind::Home ==> r == Some(b.home)
            &&& kind == PathKind::Config ==> r == Some(b.config)
            &&& kind == PathKind::Data ==> r == Some(b.data)
            &&& kind == PathKind::Cache ==> r == Some(b.cache)
        },
        folders.user matches Some(u) ==> {
            &&& kind == PathKind::Documents ==> r == u.documents
            &&& kind == PathKind::Desktop ==> r == u.desktop
            &&& kind == PathKind::Download ==> r == u.download
        },
        folders.base is None && (kind == PathKind::Home || kind == PathKind::Config || kind
            == PathKind::Data || kind == PathKind::Cache) ==> r is None,
        folders.user is None && (kind == PathKind::Documents || kind == PathKind::Desktop || kind
            == PathKind::Download) ==> r is None,
        r is None ==> reply == Reply::Null,
        r matches Some(path) ==> reply == Reply::Text(path),
{
}

/// A file dialog answers with what was chosen: all of it, in order, where several may
/// be chosen, else the first, and nothing where nothing was chosen.
pub proof fn law_choice_becomes_the_reply(
    picker: Picker,
    chosen: Option<Vec<String>>,
    r: Result<Reply, RizonetError>,
    crash: Result<Reply, RizonetError>,
)
    requires
        call_ensures(finish_pick, (picker, DialogEnd::Closed(chosen)), r),
        call_ensures(finish_pick, (picker, DialogEnd::Crashed), crash),
    ensures
        crash matches Err(RizonetError::Other(m)) && m@ == "dialog thread panicked"@,
        r is Ok,
        picker == Picker::Folders || picker == Picker::Files ==> (r matches Ok(Reply::Texts(all))
            && (chosen is None ==> all@.len() == 0) && (chosen matches Some(paths) ==> all@
            == paths@)),
        picker != Picker::Folders && picker != Picker::Files ==> (if chosen is Some
            && chosen->0@.len() > 0 {
            r matches Ok(Reply::Text(path)) && path@ == chosen->0@[0]@
        } else {
            r == Ok::<Reply, RizonetError>(Reply::Null)
        }),
{
}

/// What the host failed to do is worded with what was to be done and the host's words;
/// what it did is done.
pub proof fn law_host_outcomes_are_told(
    outcome: Result<(), String>,
    notified: Result<Reply, RizonetError>,
    opened: Result<Reply, RizonetError>,
)
    requires
        call_ensures(finish_notify, (outcome,), notified),
        call_ensures(finish_open, (outcome,), opened),
    ensures
        outcome is Ok ==> notified == Ok::<Reply, RizonetError>(Reply::Done) && opened == Ok::<
            Reply,
            RizonetError,
        >(Reply::Done),
        outcome matches Err(why) ==> (notified matches Err(RizonetError::Other(m)) && m@
            == "notification failed: "@ + why@),
        outcome matches Err(why) ==> (opened matches Err(RizonetError::Other(m)) && m@
            == "shell open failed: "@ + why@),
{
}

/// The thread of a dialog that crashed is a failure; else a message was shown and a
/// question has its answer.
pub proof fn law_dialogs_end_with_their_answer(
    yes: bool,
    shown: Result<Reply, RizonetError>,
    asked: Result<Reply, RizonetError>,
    lost: Result<Reply, RizonetError>,
    gone: Result<Reply, RizonetError>,
)
    requires
        call_ensures(finish_message, (DialogEnd::Closed(()),), shown),
        call_ensures(finish_ask, (DialogEnd::Closed(yes),), asked),
        call_ensures(finish_message, (DialogEnd::Crashed,), lost),
        call_ensures(finish_ask, (DialogEnd::Crashed,), gone),
    ensures
        shown == Ok::<Reply, RizonetError>(Reply::Done),
        asked == Ok::<Reply, RizonetError>(Reply::Flag(yes)),
        lost matches Err(RizonetError::Other(m)) && m@ == "dialog thread panicked"@,
        gone matches Err(RizonetError::Other(m)) && m@ == "dialog thread panicked"@,
{
}

/// The headers of an answer, by name, are those of the server that are text: of
/// several with a name the last, letter for letter, and no others. Status and body are
/// as they came.
pub proof fn law_answer_is_handed_over(
    status: u16,
    headers: Vec<(String, Option<String>)>,
    body: String,
    r: Result<Reply, RizonetError>,
    name: Seq<char>,
    i: int,
)
    requires
        call_ensures(finish_fetch, (FetchOutcome::Answer { status, headers, body },), r),
    ensures
        r matches Ok(Reply::Fetched(f)) && f.status == status && f.body@ == body@,
        0 <= i < headers@.len() && headers@[i].0@ == name && headers@[i].1 is Some && (forall|
            j: int,
        | i < j < headers@.len() ==> !tells(#[trigger] headers@[j], name)) ==> (r matches Ok(
            Reply::Fetched(f),
        ) && f.headers@.contains_key(name) && f.headers@[name] == headers@[i].1->0),
        (forall|j: int| 0 <= j < headers@.len() ==> !tells(#[trigger] headers@[j], name)) ==> (
        r matches Ok(Reply::Fetched(f)) && !f.headers@.contains_key(name)),
{
    if 0 <= i < headers@.len() && headers@[i].0@ == name && headers@[i].1 is Some && (forall|
        j: int,
    | i < j < headers@.len() ==> !tells(#[trigger] headers@[j], name)) {
        assert(tells(headers@[i], name));
        law_last_header_counts(headers@, name, i);
    }
    if forall|j: int| 0 <= j < headers@.len() ==> !tells(#[trigger] headers@[j], name) {
        law_header_without_text(headers@, name);
    }
}

/// A header tells something of a name exactly when it has that name and is text.
pub proof fn law_header_tells(header: (String, Option<String>), name: Seq<char>)
    ensures
        tells(header, name) <==> header.0@ == name && header.1 is Some,
{
}

/// The response to a request, as the frontend gets it, has three members: the status
/// in digits, the body as a string, and the headers, each under its name as a string.
pub proof fn law_response_tells_everything(response: &FetchResponse, r: Value, name: Seq<char>)
    requires
        call_ensures(response_value, (response,), r),
    ensures
        json_members(r).dom() == set!["status"@, "headers"@, "body"@],
        json_members(r)["status"@] == decimal(response.status as nat),
        json_members(r)["body"@] == json_quoted(response.body@),
        exists|headers: Value|
            {
                &&& json_members(r)["headers"@] == json_text(headers)
                &&& #[trigger] json_members(headers).contains_key(name)
                    <==> response.headers@.contains_key(name)
                &&& response.headers@.contains_key(name) ==> json_members(headers)[name]
                    == json_quoted(response.headers@[name]@)
            },
{
    reveal_strlit("status");
    reveal_strlit("headers");
    reveal_strlit("body");
    assert("status"@.len() == 6 && "headers"@.len() == 7 && "body"@.len() == 4);
    let headers = choose|headers: Value|
        {
            &&& #[trigger] json_members(headers) == header_members(response.headers@)
            &&& json_members(r) == map![
                "status"@ => decimal(response.status as nat),
                "headers"@ => json_text(headers),
                "body"@ => json_quoted(response.body@),
            ]
        };
    assert(json_members(r).dom() =~= set!["status"@, "headers"@, "body"@]);
    assert(json_members(headers).contains_key(name) <==> response.headers@.contains_key(name));
}

/// A reply goes to the frontend as what it holds: a text as a string, a list as an
/// array of strings in order, a switch as `true` or `false`, nothing as `null`, and
/// what was done as an object that says so.
pub proof fn law_replies_hold_what_they_are(reply: Reply, r: Value)
    requires
        call_ensures(answer, (reply,), r),
    ensures
        match reply {
            Reply::Done => json_text(r) == "{"@ + json_quoted("ok"@) + ":"@ + "true"@ + "}"@,
            Reply::Null => json_text(r) == "null"@,
            Reply::Text(text) => json_text(r) == json_quoted(text@),
            Reply::Texts(list) => json_text(r) == "["@ + quoted_list(
                list@.map_values(|s: String| s@),
            ) + "]"@,
            Reply::Flag(flag) => json_text(r) == if flag {
                "true"@
            } else {
                "false"@
            },
            Reply::Fetched(response) => json_members(r).contains_key("status"@) && json_members(
                r,
            )["body"@] == json_quoted(response.body@) && json_members(r)["status"@] == decimal(
                response.status as nat,
            ),
        },
{
    reveal_strlit("status");
    reveal_strlit("headers");
    reveal_strlit("body");
    assert("status"@.len() == 6 && "headers"@.len() == 7 && "body"@.len() == 4);
}

/// After registration on a handler every built-in command is handled by a handler
/// that was made for it; other commands and the policy stay as they are.
pub proof fn law_register_all_adds_the_builtins<F, M: Fn(Builtin) -> F>(
    ipc: IpcHandler<F>,
    make: M,
    r: IpcHandler<F>,
    b: Builtin,
    other: Seq<char>,
)
    requires
        call_ensures(register_all::<F, M>, (ipc, make), r),
    ensures
        r@.handlers.contains_key(b.command_spec()),
        call_ensures(make, (b,), *r@.handlers[b.command_spec()]),
        r@.policy == ipc@.policy,
        (forall|c: Builtin| #[trigger] c.command_spec() != other) ==> r@.handlers.contains_key(
            other,
        ) == ipc@.handlers.contains_key(other) && r@.handlers[other] == ipc@.handlers[other],
{
    let handlers = choose|handlers: Seq<F>| #[trigger]
        made_by(make, handlers) && r@ == registered(ipc@, handlers, builtins().len() as int);
    law_builtins_are_registered(ipc@, handlers, b, other);
    law_builtins_are_complete(b);
    assert(call_ensures(make, (builtins()[b.place()],), handlers[b.place()]));
}

/// A method is accepted exactly when it is not empty and made of ASCII letters, digits
/// and the signs that may stand in a token.
pub proof fn law_methods_are_tokens(method: &str, r: Option<String>)
    requires
        call_ensures(method_problem, (method,), r),
    ensures
        r is None <==> method@.len() > 0 && forall|i: int|
            0 <= i < method@.len() ==> {
                let c = #[trigger] method@[i];
                ('a' <= c <= 'z') || ('A' <= c <= 'Z') || ('0' <= c <= '9') || c == '!' || c == '#'
                    || c == '$' || c == '%' || c == '&' || c == '\'' || c == '*' || c == '+' || c
                    == '-' || c == '.' || c == '^' || c == '_' || c == '`' || c == '|' || c == '~'
            },
        r matches Some(e) ==> e@ == "invalid HTTP method"@,
{
    assert forall|c: char| #[trigger] "!#$%&'*+-.^_`|~"@.contains(c) <==> c == '!' || c == '#' || c
        == '$' || c == '%' || c == '&' || c == '\'' || c == '*' || c == '+' || c == '-' || c == '.'
        || c == '^' || c == '_' || c == '`' || c == '|' || c == '~' by {
        lemma_token_sign(c);
    }
}

proof fn lemma_token_sign(c: char)
    ensures
        "!#$%&'*+-.^_`|~"@.contains(c) <==> c == '!' || c == '#' || c == '$' || c == '%' || c == '&'
            || c == '\'' || c == '*' || c == '+' || c == '-' || c == '.' || c == '^' || c == '_' || c
            == '`' || c == '|' || c == '~',
{
    reveal_strlit("!#$%&'*+-.^_`|~");
    let signs = "!#$%&'*+-.^_`|~"@;
    assert(signs.len() == 15);
    assert(signs[0] == '!' && signs[1] == '#' && signs[2] == '$' && signs[3] == '%' && signs[4]
        == '&' && signs[5] == '\'' && signs[6] == '*' && signs[7] == '+');
    assert(signs[8] == '-' && signs[9] == '.' && signs[10] == '^' && signs[11] == '_' && signs[12]
        == '`' && signs[13] == '|' && signs[14] == '~');
    if signs.contains(c) {
        let i = choose|i: int| 0 <= i < signs.len() && signs[i] == c;
        assert(0 <= i < 15);
    }
}

} // verus!
