//! Values exchanged with native plugins: log levels, and the errors raised
//! while driving a native model library.

use vstd::prelude::*;
use vstd::string::*;
use crate::plugin::PluginInfo;
use crate::text::{i32_to_decimal, int_decimal};

verus! {

/// Log level passed by a plugin's logger callback.
#[derive(Debug, Clone, Copy, PartialEq, Eq, Structural)]
pub enum LogLevel {
    TRACE,
    DEBUG,
    INFO,
    WARN,
    ERROR,
}

/// Log level passed by the utility logger callback of a native model.
#[derive(Debug, Clone, Copy, PartialEq, Eq, Structural)]
pub enum InfoLevel {
    TRACE,
    DEBUG,
    INFO,
    WARN,
    ERROR,
    FATAL,
}

/// The name under which a level is printed.
pub open spec fn info_level_text(level: InfoLevel) -> Seq<char> {
    match level {
        InfoLevel::TRACE => "Trace"@,
        InfoLevel::DEBUG => "Debug"@,
        InfoLevel::INFO => "Info"@,
        InfoLevel::WARN => "Warn"@,
        InfoLevel::ERROR => "Error"@,
        InfoLevel::FATAL => "Fatal"@,
    }
}

/// The name under which a level is printed.
pub fn info_level_to_string(level: InfoLevel) -> (s: &'static str)
    ensures
        s@ == info_level_text(level),
{
    match level {
        InfoLevel::TRACE => "Trace",
        InfoLevel::DEBUG => "Debug",
        InfoLevel::INFO => "Info",
        InfoLevel::WARN => "Warn",
        InfoLevel::ERROR => "Error",
        InfoLevel::FATAL => "Fatal",
    }
}

/// An error of a plugin, which knows the plugin it came from.
pub trait PluginError {
    fn info(&self) -> &PluginInfo;
}

/// What went wrong with a native model.
#[derive(Debug, Clone)]
pub enum CModelErrorMessage {
    /// The library could not be loaded; the payload is its path.
    CModelLoadError(String),
    CModelInstallError(String),
    CModelUninstallError(String),
    CModelGetStateError(String),
}

/// An error of a native model, with the information of that model.
#[derive(Debug, Clone)]
pub struct CModelError {
    pub info: PluginInfo,
    pub message: CModelErrorMessage,
}

/// The displayed text of a native-model error of the model named `name`.
pub open spec fn cmodel_error_text(name: Seq<char>, message: CModelErrorMessage) -> Seq<char> {
    match message {
        CModelErrorMessage::CModelLoadError(path) => "ModelLoadError: failed to load model `"@ + name
            + "` at path of "@ + path@,
        CModelErrorMessage::CModelInstallError(m) => "ModelInstallError: fail to load model `"@ + name
            + "` due to "@ + m@,
        CModelErrorMessage::CModelUninstallError(m) => "ModelUninstallError: fail to load model `"@
            + name + "` due to "@ + m@,
        CModelErrorMessage::CModelGetStateError(m) => "ModelGetStateError: fail to load model `"@
            + name + "` due to "@ + m@,
    }
}

impl CModelError {
    /// The displayed text of the error.
    pub fn to_string(&self) -> (s: String)
        ensures
            s@ == cmodel_error_text(self.info.name@, self.message),
    {
        let (head, middle, tail) = match &self.message {
            CModelErrorMessage::CModelLoadError(path) => (
                "ModelLoadError: failed to load model `",
                "` at path of ",
                path,
            ),
            CModelErrorMessage::CModelInstallError(m) => (
                "ModelInstallError: fail to load model `",
                "` due to ",
                m,
            ),
            CModelErrorMessage::CModelUninstallError(m) => (
                "ModelUninstallError: fail to load model `",
                "` due to ",
                m,
            ),
            CModelErrorMessage::CModelGetStateError(m) => (
                "ModelGetStateError: fail to load model `",
                "` due to ",
                m,
            ),
        };
        let mut s = String::from_str(head);
        s.append(self.info.name.as_str());
        s.append(middle);
        s.append(tail.as_str());
        s
    }
}

impl PluginError for CModelError {
    fn info(&self) -> (r: &PluginInfo)
        ensures
            *r == self.info,
    {
        &self.info
    }
}

/// The operating systems a native model library can be built for.
#[derive(Debug, Clone, Copy, PartialEq, Eq, Structural)]
pub enum TargetOs {
    Linux,
    Windows,
    /// Any other system, for which no library name is known.
    Other,
}

/// The file name of the library of the native model named `name`: a shared
/// object `lib<name>.so` on Linux, a `<name>.dll` on Windows.
pub open spec fn library_file_text(name: Seq<char>, os: TargetOs) -> Option<Seq<char>> {
    match os {
        TargetOs::Linux => Some("lib"@ + name + ".so"@),
        TargetOs::Windows => Some(name + ".dll"@),
        TargetOs::Other => None,
    }
}

/// The file name of the library of the native model named `name`, on `os`.
pub fn library_file_name(name: &str, os: TargetOs) -> (r: Option<String>)
    ensures
        r is Some <==> library_file_text(name@, os) is Some,
        r matches Some(f) ==> f@ == library_file_text(name@, os).unwrap(),
{
    match os {
        TargetOs::Linux => {
            let mut f = String::from_str("lib");
            f.append(name);
            f.append(".so");
            Some(f)
        },
        TargetOs::Windows => Some(String::from_str(name).concat(".dll")),
        TargetOs::Other => None,
    }
}

/// The message of a hook of a native model that returned the negative code
/// `res`.
pub open spec fn hook_failure_text(res: i32) -> Seq<char> {
    "some error occurred when model install and return code is `"@ + int_decimal(res as int) + "`"@
}

/// The result of an install or uninstall hook of the native model described
/// by `info` that returned `res`: a negative code is an install error of that
/// model.
pub fn hook_return_result(info: &PluginInfo, res: i32) -> (r: Result<(), CModelError>)
    ensures
        r is Ok <==> res >= 0,
        r matches Err(e) ==> e.info@ == info@ && (e.message matches CModelErrorMessage::CModelInstallError(m)
            && m@ == hook_failure_text(res)),
{
    if res < 0 {
        let mut m = String::from_str("some error occurred when model install and return code is `");
        let code = i32_to_decimal(res);
        m.append(code.as_str());
        m.append("`");
        Err(CModelError { info: info.duplicate(), message: CModelErrorMessage::CModelInstallError(m) })
    } else {
        Ok(())
    }
}

/// The error of a native model described by `info` whose library lacks the
/// symbol of a hook.
pub fn missing_symbol_error(info: &PluginInfo) -> (e: CModelError)
    ensures
        e.info@ == info@,
        e.message matches CModelErrorMessage::CModelInstallError(m) && m@ == "failed find symbol"@,
{
    CModelError {
        info: info.duplicate(),
        message: CModelErrorMessage::CModelInstallError(String::from_str("failed find symbol")),
    }
}

} // verus!
