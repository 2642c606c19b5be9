//! What can go wrong, and how each failure is worded.

use crate::text::{concat2, concat3};
use vstd::prelude::*;
use vstd::string::StringExecFns;

verus! {

/// A failure of the framework. A failure that comes from another library is
/// held as the text in which that library words it.
#[derive(Debug)]
pub enum RizonetError {
    Config(String),
    Runtime(String),
    WebView(String),
    Window(String),
    Io(String),
    Network(String),
    Serde(String),
    Checksum { expected: String, actual: String },
    Zip(String),
    SemVer(String),
    Updater(String),
    Plugin { plugin: String, message: String },
    Other(String),
}

impl RizonetError {
    /// The wording of the failure.
    pub open spec fn text(self) -> Seq<char> {
        match self {
            RizonetError::Config(e) => "configuration error: "@ + e@,
            RizonetError::Runtime(e) => "runtime bootstrap failed: "@ + e@,
            RizonetError::WebView(e) => "webview error: "@ + e@,
            RizonetError::Window(e) => "window error: "@ + e@,
            RizonetError::Io(e) => "io error: "@ + e@,
            RizonetError::Network(e) => "network error: "@ + e@,
            RizonetError::Serde(e) => "serde error: "@ + e@,
            RizonetError::Checksum { expected, actual } => "checksum mismatch: expected "@
                + expected@ + ", got "@ + actual@,
            RizonetError::Zip(e) => "zip error: "@ + e@,
            RizonetError::SemVer(e) => "semver parse error: "@ + e@,
            RizonetError::Updater(e) => "updater error: "@ + e@,
            RizonetError::Plugin { plugin, message } => "plugin error ("@ + plugin@ + "): "@
                + message@,
            RizonetError::Other(e) => e@,
        }
    }

    /// The wording of the failure, for users and logs.
    pub fn message(&self) -> (s: String)
        ensures
            s@ == self.text(),
            match *self {
                RizonetError::Config(e) => s@ == "configuration error: "@ + e@,
                RizonetError::Runtime(e) => s@ == "runtime bootstrap failed: "@ + e@,
                RizonetError::WebView(e) => s@ == "webview error: "@ + e@,
                RizonetError::Window(e) => s@ == "window error: "@ + e@,
                RizonetError::Io(e) => s@ == "io error: "@ + e@,
                RizonetError::Network(e) => s@ == "network error: "@ + e@,
                RizonetError::Serde(e) => s@ == "serde error: "@ + e@,
                RizonetError::Checksum { expected, actual } => s@ == "checksum mismatch: expected "@
                    + expected@ + ", got "@ + actual@,
                RizonetError::Zip(e) => s@ == "zip error: "@ + e@,
                RizonetError::SemVer(e) => s@ == "semver parse error: "@ + e@,
                RizonetError::Updater(e) => s@ == "updater error: "@ + e@,
                RizonetError::Plugin { plugin, message } => s@ == "plugin error ("@ + plugin@
                    + "): "@ + message@,
                RizonetError::Other(e) => s@ == e@,
            },
    {
        match self {
            RizonetError::Config(e) => concat2("configuration error: ", e.as_str()),
            RizonetError::Runtime(e) => concat2("runtime bootstrap failed: ", e.as_str()),
            RizonetError::WebView(e) => concat2("webview error: ", e.as_str()),
            RizonetError::Window(e) => concat2("window error: ", e.as_str()),
            RizonetError::Io(e) => concat2("io error: ", e.as_str()),
            RizonetError::Network(e) => concat2("network error: ", e.as_str()),
            RizonetError::Serde(e) => concat2("serde error: ", e.as_str()),
            RizonetError::Checksum { expected, actual } => {
                let mut s: String = concat3(
                    "checksum mismatch: expected ",
                    expected.as_str(),
                    ", got ",
                );
                s.append(actual.as_str());
                s
            },
            RizonetError::Zip(e) => concat2("zip error: ", e.as_str()),
            RizonetError::SemVer(e) => concat2("semver parse error: ", e.as_str()),
            RizonetError::Updater(e) => concat2("updater error: ", e.as_str()),
            RizonetError::Plugin { plugin, message } => {
                let mut s: String = concat3("plugin error (", plugin.as_str(), "): ");
                s.append(message.as_str());
                s
            },
            RizonetError::Other(e) => e.clone(),
        }
    }
}

// ----------------------------------------------------------------------- laws

/// The cause of a failure, where it has one alone.
pub open spec fn cause(e: RizonetError) -> Option<String> {
    match e {
        RizonetError::Config(c)
        | RizonetError::Runtime(c)
        | RizonetError::WebView(c)
        | RizonetError::Window(c)
        | RizonetError::Io(c)
        | RizonetError::Network(c)
        | RizonetError::Serde(c)
        | RizonetError::Zip(c)
        | RizonetError::SemVer(c)
        | RizonetError::Updater(c)
        | RizonetError::Other(c) => Some(c),
        RizonetError::Checksum { .. } | RizonetError::Plugin { .. } => None,
    }
}

/// The wording of a failure ends with its cause, letter for letter; of a failure
/// without a heading it is the cause alone.
pub proof fn law_wording_ends_with_the_cause(e: &RizonetError, s: String)
    requires
        call_ensures(RizonetError::message, (e,), s),
        cause(*e) is Some,
    ensures
        ({
            let c = cause(*e)->0@;
            s@.len() >= c.len() && s@.skip(s@.len() - c.len()) == c
        }),
        e is Other ==> s@ == cause(*e)->0@,
        s@ == e.text(),
{
    let c = cause(*e)->0@;
    assert(s@.skip(s@.len() - c.len()) =~= c);
}

/// The wording of a checksum failure tells the expected checksum and then the actual
/// one, and that of a plugin failure the plugin and then its message.
pub proof fn law_wording_of_two_causes(e: &RizonetError, s: String)
    requires
        call_ensures(RizonetError::message, (e,), s),
    ensures
        e matches RizonetError::Checksum { expected, actual } ==> s@
            == "checksum mismatch: expected "@ + expected@ + ", got "@ + actual@,
        e matches RizonetError::Plugin { plugin, message } ==> s@ == "plugin error ("@ + plugin@
            + "): "@ + message@,
        s@ == e.text(),
{
}

/// Whether two failures are of the same kind, each with a cause alone.
pub open spec fn same_kind(a: RizonetError, b: RizonetError) -> bool {
    match (a, b) {
        (RizonetError::Config(_), RizonetError::Config(_))
        | (RizonetError::Runtime(_), RizonetError::Runtime(_))
        | (RizonetError::WebView(_), RizonetError::WebView(_))
        | (RizonetError::Window(_), RizonetError::Window(_))
        | (RizonetError::Io(_), RizonetError::Io(_))
        | (RizonetError::Network(_), RizonetError::Network(_))
        | (RizonetError::Serde(_), RizonetError::Serde(_))
        | (RizonetError::Zip(_), RizonetError::Zip(_))
        | (RizonetError::SemVer(_), RizonetError::SemVer(_))
        | (RizonetError::Updater(_), RizonetError::Updater(_))
        | (RizonetError::Other(_), RizonetError::Other(_)) => true,
        _ => false,
    }
}

/// Failures of the same kind are worded alike up to their causes: what stands before
/// the cause is the same, so that the wordings differ exactly when the causes do.
pub proof fn law_heading_is_that_of_the_kind(
    one: &RizonetError,
    other: &RizonetError,
    a: String,
    b: String,
)
    requires
        call_ensures(RizonetError::message, (one,), a),
        call_ensures(RizonetError::message, (other,), b),
        same_kind(*one, *other),
    ensures
        ({
            let (c, d) = (cause(*one)->0@, cause(*other)->0@);
            &&& a@.len() - c.len() == b@.len() - d.len()
            &&& a@.take(a@.len() - c.len()) == b@.take(b@.len() - d.len())
            &&& a@ == b@ <==> c == d
        }),
{
    let (c, d) = (cause(*one)->0@, cause(*other)->0@);
    assert(a@.take(a@.len() - c.len()) =~= b@.take(b@.len() - d.len()));
    assert(a@.skip(a@.len() - c.len()) =~= c);
    assert(b@.skip(b@.len() - d.len()) =~= d);
}

} // verus!
