//! The JS ⇄ Rust IPC bridge.
//!
//! The frontend invokes Rust commands with `window.__RIZONET__.invoke(cmd, payload)`.
//! Each request is serialized as `{ id, cmd, payload }` and forwarded to Rust.
//! Rust dispatches the command and replies by evaluating
//! `window.__RIZONET_RESOLVE__(id, ok, value)` in the webview, which resolves
//! or rejects the JS promise returned by `invoke`.

use crate::acl::{
    glob_matches, law_listed_command_is_allowed, law_policy_is_what_is_configured,
    CapabilitiesConfig, Policy,
};
use crate::assoc::{distinct, filed, lemma_filed};
use crate::error::RizonetError;
use crate::json::{copy_opt_value, copy_value, json_quoted, json_text, quoted, value_text};
use crate::name_map::{named, NameMap};
use crate::text::{concat2, copy_opt, decimal, decimal_text, truth, truth_text};
use serde_json::Value;
use std::sync::Arc;
use vstd::prelude::*;
use vstd::string::StringExecFns;

verus! {

/// A request received over the IPC channel.
#[derive(Debug)]
pub struct Invoke {
    pub id: u64,
    pub cmd: String,
    pub payload: Value,
}

/// The reply to a request.
#[derive(Debug)]
pub struct InvokeResponse {
    pub id: u64,
    pub ok: bool,
    pub data: Option<Value>,
    pub error: Option<String>,
}

impl Clone for Invoke {
    fn clone(&self) -> (r: Self)
        ensures
            r == *self,
    {
        Invoke { id: self.id, cmd: self.cmd.clone(), payload: copy_value(&self.payload) }
    }
}

impl Clone for InvokeResponse {
    fn clone(&self) -> (r: Self)
        ensures
            r == *self,
    {
        InvokeResponse {
            id: self.id,
            ok: self.ok,
            data: copy_opt_value(&self.data),
            error: copy_opt(&self.error),
        }
    }
}

/// A shared command handler. Each one takes a payload and produces a JSON
/// result: it implements `Fn(Value) -> Result<Value, RizonetError>`.
pub type HandlerFn<F> = Arc<F>;

/// `Arc::clone` gives another pointer to the same value.
#[verifier::external_body]
pub(crate) fn share<F>(f: &Arc<F>) -> (r: Arc<F>)
    ensures
        r == *f,
{
    Arc::clone(f)
}

/// The registered commands and the policy that gates them.
pub struct IpcHandler<F> {
    handlers: NameMap<HandlerFn<F>>,
    capabilities: CapabilitiesConfig,
}

/// The commands by name, and the policy.
pub struct Commands<F> {
    pub handlers: Map<Seq<char>, HandlerFn<F>>,
    pub policy: Policy,
}

impl<F> View for IpcHandler<F> {
    type V = Commands<F>;

    closed spec fn view(&self) -> Commands<F> {
        Commands { handlers: self.handlers@, policy: self.capabilities@ }
    }
}

impl InvokeResponse {
    /// Whether this is the reply to request `id` that gives `message` as the failure.
    pub open spec fn rejects(self, id: u64, message: Seq<char>) -> bool {
        &&& self.id == id
        &&& !self.ok
        &&& self.data is None
        &&& self.error matches Some(e) && e@ == message
    }

    /// Whether this is the reply to request `id` that gives `value` as the result.
    pub open spec fn resolves(self, id: u64, value: Value) -> bool {
        &&& self.id == id
        &&& self.ok
        &&& self.data == Some(value)
        &&& self.error is None
    }

    /// Whether this is the reply to request `id` whose handler came to `outcome`.
    pub open spec fn reports(self, id: u64, outcome: Result<Value, RizonetError>) -> bool {
        match outcome {
            Ok(value) => self.resolves(id, value),
            Err(e) => self.rejects(id, e.text()),
        }
    }

    /// The JSON text that is handed to the promise of the request.
    pub open spec fn settlement(self) -> Seq<char> {
        match self.data {
            Some(value) => json_text(value),
            None => match self.error {
                Some(e) => json_quoted(e@),
                None => json_quoted(Seq::empty()),
            },
        }
    }

    /// The script that settles the promise of the request.
    pub open spec fn resolve_script_spec(self) -> Seq<char> {
        "window.__RIZONET_RESOLVE__("@ + decimal(self.id as nat) + ", "@ + truth(self.ok) + ", "@
            + self.settlement() + ");"@
    }

    /// The script that settles the promise of the request.
    pub fn resolve_script(&self) -> (s: String)
        ensures
            s@ == self.resolve_script_spec(),
            s@ == "window.__RIZONET_RESOLVE__("@ + decimal(self.id as nat) + ", "@ + (if self.ok {
                "true"@
            } else {
                "false"@
            }) + ", "@ + match (self.data, self.error) {
                (Some(value), _) => json_text(value),
                (None, Some(e)) => json_quoted(e@),
                (None, None) => json_quoted(Seq::empty()),
            } + ");"@,
    {
        let value: String = match &self.data {
            Some(v) => match value_text(v) {
                Ok(text) => text,
                Err(_) => "null".to_owned(),
            },
            None => {
                let error: String = match &self.error {
                    Some(e) => e.clone(),
                    None => String::new(),
                };
                match quoted(error.as_str()) {
                    Ok(text) => text,
                    Err(_) => "\"\"".to_owned(),
                }
            },
        };
        let mut s: String = concat2("window.__RIZONET_RESOLVE__(", decimal_text(self.id).as_str());
        s.append(", ");
        s.append(truth_text(self.ok));
        s.append(", ");
        s.append(value.as_str());
        s.append(");");
        s
    }
}

/// The reply that gives `message` as the failure of request `id`.
fn rejection(id: u64, message: String) -> (r: InvokeResponse)
    ensures
        r.rejects(id, message@),
{
    InvokeResponse { id, ok: false, data: None, error: Some(message) }
}

/// The reply to request `id` whose handler came to `outcome`.
pub fn complete(id: u64, outcome: Result<Value, RizonetError>) -> (r: InvokeResponse)
    ensures
        r.reports(id, outcome),
{
    match outcome {
        Ok(data) => InvokeResponse { id, ok: true, data: Some(data), error: None },
        Err(e) => rejection(id, e.message()),
    }
}

impl<F> Commands<F> {
    /// The commands of an app that registers none, all allowed.
    pub open spec fn none() -> Commands<F> {
        Commands { handlers: Map::empty(), policy: Policy::unrestricted() }
    }

    /// The commands with `cmd` handled by `f`.
    pub open spec fn with(self, cmd: Seq<char>, f: HandlerFn<F>) -> Commands<F> {
        Commands { handlers: self.handlers.insert(cmd, f), ..self }
    }

    /// Whether a request for `cmd` reaches a handler.
    pub open spec fn reaches(self, cmd: Seq<char>) -> bool {
        self.policy.allows(cmd) && self.handlers.contains_key(cmd)
    }
}

impl<F: Fn(Value) -> Result<Value, RizonetError>> Commands<F> {
    /// Whether `r` is a reply to `invoke`: a command that the policy rejects is
    /// denied, one that nobody registered is unknown, and any other gets what its
    /// handler makes of the payload.
    pub open spec fn answers(self, invoke: Invoke, r: InvokeResponse) -> bool {
        if !self.policy.allows(invoke.cmd@) {
            r.rejects(invoke.id, "command denied by capabilities: "@ + invoke.cmd@)
        } else if !self.handlers.contains_key(invoke.cmd@) {
            r.rejects(invoke.id, "unknown command: "@ + invoke.cmd@)
        } else {
            exists|outcome: Result<Value, RizonetError>| #[trigger]
                call_ensures(*self.handlers[invoke.cmd@], (invoke.payload,), outcome) && r.reports(
                    invoke.id,
                    outcome,
                )
        }
    }
}

impl<F> IpcHandler<F> {
    /// A handler without commands, which allows everything.
    pub fn new() -> (r: Self)
        ensures
            r@ == Commands::<F>::none(),
    {
        IpcHandler { handlers: NameMap::new(), capabilities: CapabilitiesConfig::default() }
    }

    /// Handle `cmd` with `f`, in place of any earlier handler of that command.
    pub fn register(self, cmd: &str, f: F) -> (r: Self)
        ensures
            r@ == self@.with(cmd@, Arc::new(f)),
    {
        self.register_raw(cmd.to_owned(), Arc::new(f))
    }

    /// Override the capability policy. Normally set from `rizonet.config.json`.
    pub fn with_capabilities(self, cap: CapabilitiesConfig) -> (r: Self)
        ensures
            r@.handlers == self@.handlers,
            r@.policy == cap@,
    {
        IpcHandler { handlers: self.handlers, capabilities: cap }
    }

    /// Register an already-shared handler. Used by the framework to merge
    /// handlers between multiple [`IpcHandler`] instances.
    pub fn register_raw(self, cmd: String, f: HandlerFn<F>) -> (r: Self)
        ensures
            r@ == self@.with(cmd@, f),
    {
        let mut handlers: NameMap<HandlerFn<F>> = self.handlers;
        handlers.insert(cmd, f);
        IpcHandler { handlers, capabilities: self.capabilities }
    }

    /// The registered handlers by (cmd, handler), each command once.
    pub fn handlers_iter(&self) -> (r: Vec<(String, HandlerFn<F>)>)
        ensures
            distinct(named(r@)),
            filed(named(r@)) == self@.handlers,
            r@.len() == self@.handlers.len(),
    {
        let n: usize = self.handlers.len();
        let mut r: Vec<(String, HandlerFn<F>)> = Vec::new();
        let mut i: usize = 0;
        while i < n
            invariant
                i == r@.len(),
                i <= n == self.handlers.listed().len(),
                named(r@) == named(self.handlers.listed()).take(i as int),
            decreases n - i,
        {
            let entry: &(String, HandlerFn<F>) = self.handlers.entry(i);
            let ghost before = r@;
            r.push((entry.0.clone(), share(&entry.1)));
            proof {
                assert(named(r@) =~= named(before).push(named(self.handlers.listed())[i as int]));
                assert(named(r@) =~= named(self.handlers.listed()).take(i + 1));
            }
            i = i + 1;
        }
        assert(named(r@) =~= named(self.handlers.listed()));
        r
    }
}

impl<F> Default for IpcHandler<F> {
    fn default() -> (r: Self)
        ensures
            r@ == Commands::<F>::none(),
    {
        IpcHandler::new()
    }
}

impl<F> Clone for IpcHandler<F> {
    /// The same commands, with shared handlers, under the same policy.
    fn clone(&self) -> (r: Self)
        ensures
            r@ == self@,
    {
        let own: Vec<(String, HandlerFn<F>)> = self.handlers_iter();
        let mut r: IpcHandler<F> = IpcHandler::new().with_capabilities(self.capabilities.clone());
        proof {
            assert(named(own@).take(0) =~= Seq::empty());
        }
        let mut i: usize = 0;
        while i < own.len()
            invariant
                i <= own@.len(),
                r@.handlers == filed(named(own@).take(i as int)),
                r@.policy == self@.policy,
            decreases own@.len() - i,
        {
            proof {
                assert(named(own@).take(i + 1).drop_last() =~= named(own@).take(i as int));
            }
            r = r.register_raw(own[i].0.clone(), share(&own[i].1));
            i = i + 1;
        }
        assert(named(own@).take(i as int) =~= named(own@));
        r
    }
}

impl<F: Fn(Value) -> Result<Value, RizonetError>> IpcHandler<F> {
    /// Answer a request: apply the policy, find the handler and run it.
    pub fn dispatch(&self, invoke: Invoke) -> (r: InvokeResponse)
        requires
            self@.reaches(invoke.cmd@) ==> call_requires(
                *self@.handlers[invoke.cmd@],
                (invoke.payload,),
            ),
        ensures
            self@.answers(invoke, r),
            r.id == invoke.id,
            !self@.policy.allows(invoke.cmd@) ==> !r.ok && r.data is None && (r.error matches Some(
                e,
            ) && e@ == "command denied by capabilities: "@ + invoke.cmd@),
            self@.policy.allows(invoke.cmd@) && !self@.handlers.contains_key(invoke.cmd@) ==> !r.ok
                && r.data is None && (r.error matches Some(e) && e@ == "unknown command: "@
                + invoke.cmd@),
    {
        if !self.capabilities.is_allowed(invoke.cmd.as_str()) {
            return rejection(
                invoke.id,
                concat2("command denied by capabilities: ", invoke.cmd.as_str()),
            );
        }
        match self.handlers.get(invoke.cmd.as_str()) {
            Some(h) => {
                let f: &F = &**h;
                let outcome: Result<Value, RizonetError> = f(invoke.payload);
                complete(invoke.id, outcome)
            },
            None => rejection(invoke.id, concat2("unknown command: ", invoke.cmd.as_str())),
        }
    }

    /// Answer a request with the script that settles its promise.
    pub fn respond(&self, invoke: Invoke) -> (s: String)
        requires
            self@.reaches(invoke.cmd@) ==> call_requires(
                *self@.handlers[invoke.cmd@],
                (invoke.payload,),
            ),
        ensures
            exists|r: InvokeResponse| #[trigger]
                self@.answers(invoke, r) && s@ == r.resolve_script_spec(),
    {
        let r: InvokeResponse = self.dispatch(invoke);
        r.resolve_script()
    }
}

// --------------------------------------------------------------------- laws

/// Every reply carries the number of its request, and has a result exactly when
/// it reports success and a failure exactly when it does not.
pub proof fn law_reply_settles_its_request<F: Fn(Value) -> Result<Value, RizonetError>>(
    commands: Commands<F>,
    invoke: Invoke,
    r: InvokeResponse,
)
    requires
        commands.answers(invoke, r),
    ensures
        r.id == invoke.id,
        r.ok <==> r.data is Some,
        r.ok <==> r.error is None,
{
}

/// A command that the policy rejects is never answered by a handler: its reply
/// is the same failure whatever is registered.
pub proof fn law_denied_whatever_is_registered<F: Fn(Value) -> Result<Value, RizonetError>>(
    one: Commands<F>,
    other: Commands<F>,
    invoke: Invoke,
    r: InvokeResponse,
)
    requires
        one.policy == other.policy,
        !one.policy.allows(invoke.cmd@),
        one.answers(invoke, r),
    ensures
        other.answers(invoke, r),
        r.rejects(invoke.id, "command denied by capabilities: "@ + invoke.cmd@),
{
}

/// The handler that was registered last for a command is the one that answers
/// it, and the other commands keep theirs.
pub proof fn law_last_registration_wins<F>(
    commands: Commands<F>,
    cmd: Seq<char>,
    first: HandlerFn<F>,
    second: HandlerFn<F>,
    other: Seq<char>,
)
    ensures
        commands.with(cmd, first).with(cmd, second) == commands.with(cmd, second),
        commands.with(cmd, second).handlers[cmd] == second,
        other != cmd ==> commands.with(cmd, second).handlers.contains_key(other)
            == commands.handlers.contains_key(other),
        other != cmd ==> commands.with(cmd, second).handlers[other] == commands.handlers[other],
        commands.with(cmd, second).policy == commands.policy,
{
    assert(commands.with(cmd, first).with(cmd, second).handlers =~= commands.with(
        cmd,
        second,
    ).handlers);
}

/// JavaScript shim injected into every webview. Sets up `window.__RIZONET__`
/// and the response dispatcher that Rust calls through evaluated scripts.
pub const BRIDGE_SCRIPT: &'static str = r#"
(function () {
  if (window.__RIZONET__) return;
  const pending = new Map();
  const listeners = new Map(); // event name -> Set<fn>
  let nextId = 1;

  function on(event, cb) {
    let set = listeners.get(event);
    if (!set) {
      set = new Set();
      listeners.set(event, set);
    }
    set.add(cb);
    return () => off(event, cb);
  }
  function off(event, cb) {
    const set = listeners.get(event);
    if (set) set.delete(cb);
  }
  function once(event, cb) {
    const unsub = on(event, (p) => {
      unsub();
      cb(p);
    });
    return unsub;
  }

  window.__RIZONET__ = {
    version: "0.3.0",
    invoke(cmd, payload) {
      return new Promise((resolve, reject) => {
        const id = nextId++;
        pending.set(id, { resolve, reject });
        const msg = JSON.stringify({ id, cmd, payload: payload ?? null });
        window.ipc.postMessage(msg);
      });
    },
    on,
    off,
    once,
    emit(event, payload) {
      return this.invoke("event:emit", { event, payload: payload ?? null });
    },
  };

  window.__RIZONET_RESOLVE__ = function (id, ok, value) {
    const p = pending.get(id);
    if (!p) return;
    pending.delete(id);
    if (ok) p.resolve(value);
    else p.reject(new Error(typeof value === "string" ? value : JSON.stringify(value)));
  };

  window.__RIZONET_EMIT__ = function (event, payload) {
    const set = listeners.get(event);
    if (!set) return;
    for (const cb of set) {
      try { cb(payload); } catch (e) { console.error("rizonet listener error:", e); }
    }
  };
})();
"#;

/// A command that the configured policy does not allow is denied, whether or not it
/// is registered, and by name.
pub proof fn law_denied_command<F: Fn(Value) -> Result<Value, RizonetError>>(
    ipc: &IpcHandler<F>,
    invoke: Invoke,
    r: InvokeResponse,
)
    requires
        call_ensures(IpcHandler::<F>::dispatch, (ipc, invoke), r),
        !ipc@.policy.allows(invoke.cmd@),
    ensures
        r.id == invoke.id,
        !r.ok,
        r.data is None,
        r.error matches Some(e) && e@ == "command denied by capabilities: "@ + invoke.cmd@,
{
}

/// A command that is allowed and not registered is unknown, by name.
pub proof fn law_unknown_command<F: Fn(Value) -> Result<Value, RizonetError>>(
    ipc: &IpcHandler<F>,
    invoke: Invoke,
    r: InvokeResponse,
)
    requires
        call_ensures(IpcHandler::<F>::dispatch, (ipc, invoke), r),
        ipc@.policy.allows(invoke.cmd@),
        !ipc@.handlers.contains_key(invoke.cmd@),
    ensures
        r.id == invoke.id,
        !r.ok,
        r.data is None,
        r.error matches Some(e) && e@ == "unknown command: "@ + invoke.cmd@,
{
}

/// A command that is allowed and registered is answered by its own handler, which gets
/// the payload: the reply carries the result, or the wording of the failure.
pub proof fn law_command_is_answered_by_its_handler<F: Fn(Value) -> Result<Value, RizonetError>>(
    ipc: &IpcHandler<F>,
    invoke: Invoke,
    r: InvokeResponse,
)
    requires
        call_ensures(IpcHandler::<F>::dispatch, (ipc, invoke), r),
        ipc@.policy.allows(invoke.cmd@),
        ipc@.handlers.contains_key(invoke.cmd@),
        call_requires(*ipc@.handlers[invoke.cmd@], (invoke.payload,)),
    ensures
        r.id == invoke.id,
        exists|outcome: Result<Value, RizonetError>| #[trigger]
            call_ensures(*ipc@.handlers[invoke.cmd@], (invoke.payload,), outcome) && match outcome {
                Ok(value) => r.ok && r.data == Some(value) && r.error is None,
                Err(e) => !r.ok && r.data is None && (r.error matches Some(m) && m@ == e.text()),
            },
{
}

/// The configured lists gate the requests: under a policy, a command that an allow
/// pattern matches and no deny pattern matches is not denied, and a command that a
/// deny pattern matches is.
pub proof fn law_configured_patterns_gate_requests<F: Fn(Value) -> Result<Value, RizonetError>>(
    before: IpcHandler<F>,
    cap: CapabilitiesConfig,
    ipc: IpcHandler<F>,
    invoke: Invoke,
    r: InvokeResponse,
    i: int,
)
    requires
        call_ensures(IpcHandler::<F>::with_capabilities, (before, cap), ipc),
        call_ensures(IpcHandler::<F>::dispatch, (&ipc, invoke), r),
        !before@.handlers.contains_key(invoke.cmd@),
    ensures
        0 <= i < cap.deny@.len() && glob_matches(cap.deny@[i]@, invoke.cmd@) ==> (r.error
            matches Some(e) && e@ == "command denied by capabilities: "@ + invoke.cmd@),
        0 <= i < cap.allow@.len() && glob_matches(cap.allow@[i]@, invoke.cmd@) && (forall|j: int|
            0 <= j < cap.deny@.len() ==> !glob_matches(#[trigger] cap.deny@[j]@, invoke.cmd@))
            ==> (r.error matches Some(e) && e@ == "unknown command: "@ + invoke.cmd@),
{
    law_policy_is_what_is_configured(cap, i);
    assert(ipc@.policy == cap@);
    let cmd = invoke.cmd@;
    if 0 <= i < cap.deny@.len() && glob_matches(cap.deny@[i]@, cmd) {
        assert(glob_matches(cap@.deny[i], cmd));
        assert(!cap@.allows(cmd));
    }
    if 0 <= i < cap.allow@.len() && glob_matches(cap.allow@[i]@, cmd) && (forall|j: int|
        0 <= j < cap.deny@.len() ==> !glob_matches(#[trigger] cap.deny@[j]@, cmd)) {
        assert forall|j: int| 0 <= j < cap@.deny.len() implies !glob_matches(
            #[trigger] cap@.deny[j],
            cmd,
        ) by {
            assert(!glob_matches(cap.deny@[j]@, cmd));
        }
        law_listed_command_is_allowed(cap@, cmd, i);
    }
}

/// A command is handled by what was registered for it last, under exactly its name;
/// the other commands and the policy stay as they are.
pub proof fn law_registering_adds_one_command<F>(
    before: IpcHandler<F>,
    cmd: &str,
    f: F,
    after: IpcHandler<F>,
    other: Seq<char>,
)
    requires
        call_ensures(IpcHandler::<F>::register, (before, cmd, f), after),
    ensures
        after@.handlers.contains_key(cmd@),
        *after@.handlers[cmd@] == f,
        other != cmd@ ==> after@.handlers.contains_key(other) == before@.handlers.contains_key(
            other,
        ),
        other != cmd@ ==> after@.handlers[other] == before@.handlers[other],
        after@.policy == before@.policy,
{
}

/// The same of a handler that is shared already.
pub proof fn law_registering_a_shared_handler<F>(
    before: IpcHandler<F>,
    cmd: String,
    f: HandlerFn<F>,
    after: IpcHandler<F>,
    other: Seq<char>,
)
    requires
        call_ensures(IpcHandler::<F>::register_raw, (before, cmd, f), after),
    ensures
        after@.handlers.contains_key(cmd@),
        after@.handlers[cmd@] == f,
        other != cmd@ ==> after@.handlers.contains_key(other) == before@.handlers.contains_key(
            other,
        ),
        other != cmd@ ==> after@.handlers[other] == before@.handlers[other],
        after@.policy == before@.policy,
{
}

/// A new handler knows no command and allows every one.
pub proof fn law_new_handler_allows_everything<F>(ipc: IpcHandler<F>, cmd: Seq<char>)
    requires
        call_ensures(IpcHandler::<F>::new, (), ipc),
    ensures
        !ipc@.handlers.contains_key(cmd),
        ipc@.policy.allows(cmd),
{
}

/// The script settles the promise with that number, says whether it is resolved, and
/// hands over the result where there is one, and else the failure as a string.
pub proof fn law_script_settles_the_promise(reply: &InvokeResponse, s: String)
    requires
        call_ensures(InvokeResponse::resolve_script, (reply,), s),
    ensures
        ({
            let number = decimal(reply.id as nat);
            let verdict = if reply.ok {
                "true"@
            } else {
                "false"@
            };
            let start = "window.__RIZONET_RESOLVE__("@ + number + ", "@ + verdict + ", "@;
            &&& reply.data matches Some(value) ==> s@ == start + json_text(value) + ");"@
            &&& reply.data is None ==> (reply.error matches Some(e) ==> s@ == start + json_quoted(e@)
                + ");"@)
            &&& reply.data is None && reply.error is None ==> s@ == start + json_quoted(
                Seq::empty(),
            ) + ");"@
        }),
{
}

/// A request is answered with the script of its reply.
pub proof fn law_requests_are_answered_by_script<F: Fn(Value) -> Result<Value, RizonetError>>(
    ipc: &IpcHandler<F>,
    invoke: Invoke,
    s: String,
)
    requires
        call_ensures(IpcHandler::<F>::respond, (ipc, invoke), s),
        !ipc@.reaches(invoke.cmd@),
    ensures
        ({
            let number = decimal(invoke.id as nat);
            let why = if ipc@.policy.allows(invoke.cmd@) {
                "unknown command: "@
            } else {
                "command denied by capabilities: "@
            };
            s@ == "window.__RIZONET_RESOLVE__("@ + number + ", "@ + "false"@ + ", "@ + json_quoted(
                why + invoke.cmd@,
            ) + ");"@
        }),
{
}

/// A request that reaches a handler is answered with what the handler made of the
/// payload.
pub proof fn law_handled_requests_are_answered_by_script<
    F: Fn(Value) -> Result<Value, RizonetError>,
>(ipc: &IpcHandler<F>, invoke: Invoke, s: String)
    requires
        call_ensures(IpcHandler::<F>::respond, (ipc, invoke), s),
        ipc@.policy.allows(invoke.cmd@),
        ipc@.handlers.contains_key(invoke.cmd@),
        call_requires(*ipc@.handlers[invoke.cmd@], (invoke.payload,)),
    ensures
        exists|outcome: Result<Value, RizonetError>| #[trigger]
            call_ensures(*ipc@.handlers[invoke.cmd@], (invoke.payload,), outcome) && s@
                == "window.__RIZONET_RESOLVE__("@ + decimal(invoke.id as nat) + ", "@
                + match outcome {
                Ok(_) => "true"@,
                Err(_) => "false"@,
            } + ", "@ + match outcome {
                Ok(value) => json_text(value),
                Err(e) => json_quoted(e.text()),
            } + ");"@,
{
    let r = choose|r: InvokeResponse| #[trigger]
        ipc@.answers(invoke, r) && s@ == r.resolve_script_spec();
    let outcome = choose|outcome: Result<Value, RizonetError>| #[trigger]
        call_ensures(*ipc@.handlers[invoke.cmd@], (invoke.payload,), outcome) && r.reports(
            invoke.id,
            outcome,
        );
    assert(call_ensures(*ipc@.handlers[invoke.cmd@], (invoke.payload,), outcome));
}

/// The list of handlers has each registered command once, with its handler, and no
/// other.
pub proof fn law_every_handler_is_listed<F>(
    ipc: &IpcHandler<F>,
    r: Vec<(String, HandlerFn<F>)>,
    cmd: Seq<char>,
    i: int,
    j: int,
)
    requires
        call_ensures(IpcHandler::<F>::handlers_iter, (ipc,), r),
    ensures
        0 <= i < r@.len() ==> ipc@.handlers.contains_key(r@[i].0@) && ipc@.handlers[r@[i].0@]
            == r@[i].1,
        0 <= i < j < r@.len() ==> r@[i].0@ != r@[j].0@,
        ipc@.handlers.contains_key(cmd) ==> exists|k: int|
            0 <= k < r@.len() && (#[trigger] r@[k]).0@ == cmd,
{
    let entries = named(r@);
    lemma_filed(entries);
    assert(forall|k: int| 0 <= k < r@.len() ==> entries[k].0 == (#[trigger] r@[k]).0@);
    if 0 <= i < r@.len() {
        assert(entries[i].0 == r@[i].0@);
        assert(filed(entries)[entries[i].0] == entries[i].1);
    }
    if 0 <= i < j < r@.len() {
        assert(entries[i].0 != entries[j].0);
    }
    if ipc@.handlers.contains_key(cmd) {
        let k = choose|k: int| 0 <= k < entries.len() && #[trigger] entries[k].0 == cmd;
        assert(r@[k].0@ == cmd);
    }
}

/// The failure of a handler is handed over in its wording, and its result as it is.
pub proof fn law_outcome_becomes_the_reply(
    id: u64,
    outcome: Result<Value, RizonetError>,
    r: InvokeResponse,
)
    requires
        call_ensures(complete, (id, outcome), r),
    ensures
        r.id == id,
        r.ok <==> outcome is Ok,
        outcome matches Ok(value) ==> r.data == Some(value) && r.error is None,
        outcome matches Err(e) ==> r.data is None && (r.error matches Some(m) && m@ == e.text()),
{
}

} // verus!
