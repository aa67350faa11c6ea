//! Errors that are reported up to the system level.

use vstd::prelude::*;
use vstd::string::*;
use crate::text::{i32_to_decimal, int_decimal};

verus! {

/// Fatal error which may cause a critical problem and must be passed up to
/// the system level.
#[derive(Debug)]
pub enum FrError {
    /// The system has been used in an unsupported way.
    Unsupported(String),
    /// An unexpected bug has happened.
    ReportableBug(String),
    /// A read or write error has happened when interacting with the file
    /// system; the payload is the rendered I/O error.
    Io(String),
    /// An error raised by a plugin.
    Plugin(FatalPluginError),
}

/// Fatal error raised by the simulation core.
#[derive(Debug)]
pub enum FatalCoreError {
    /// No controller has been registered for the plane with this index.
    Controller(usize),
}

/// A plugin hook or symbol lookup failed.
#[derive(Debug)]
pub struct FatalPluginError {
    pub name: String,
    pub result: i32,
    pub reason: String,
}

/// The text of a plugin failure: `plugin <name> failed with code <result>: <reason>`.
pub open spec fn plugin_error_text(name: Seq<char>, result: i32, reason: Seq<char>) -> Seq<char> {
    "plugin "@ + name + " failed with code "@ + int_decimal(result as int) + ": "@ + reason
}

/// The text of a system-level error.
pub open spec fn fr_error_text(e: FrError) -> Seq<char> {
    match e {
        FrError::Unsupported(s) => "Unsupported: "@ + s@,
        FrError::ReportableBug(s) => "ReportableBug: "@ + s@,
        FrError::Io(s) => "Io: "@ + s@,
        FrError::Plugin(p) => "Plugin: "@ + plugin_error_text(p.name@, p.result, p.reason@),
    }
}

impl FatalPluginError {
    pub fn new(name: &str, result: i32, reason: &str) -> (e: Self)
        ensures
            e.name@ == name@,
            e.result == result,
            e.reason@ == reason@,
    {
        FatalPluginError { name: String::from_str(name), result, reason: String::from_str(reason) }
    }

    /// The displayed text of the error.
    pub fn to_string(&self) -> (s: String)
        ensures
            s@ == plugin_error_text(self.name@, self.result, self.reason@),
    {
        let mut s = String::from_str("plugin ");
        s.append(self.name.as_str());
        s.append(" failed with code ");
        let code = i32_to_decimal(self.result);
        s.append(code.as_str());
        s.append(": ");
        s.append(self.reason.as_str());
        s
    }
}

impl FrError {
    /// The displayed text of the error.
    pub fn to_string(&self) -> (s: String)
        ensures
            s@ == fr_error_text(*self),
    {
        match self {
            FrError::Unsupported(m) => String::from_str("Unsupported: ").concat(m.as_str()),
            FrError::ReportableBug(m) => String::from_str("ReportableBug: ").concat(m.as_str()),
            FrError::Io(m) => String::from_str("Io: ").concat(m.as_str()),
            FrError::Plugin(p) => {
                let inner = p.to_string();
                String::from_str("Plugin: ").concat(inner.as_str())
            },
        }
    }
}

} // verus!
