//! The error type and the exit code each error maps to.

use vstd::prelude::*;

pub mod exit;

verus! {

/// The standard library's I/O error, carried through unchanged.
#[verifier::external_type_specification]
#[verifier::external_body]
pub struct ExIoError(std::io::Error);

/// Everything that can go wrong, one variant per kind of failure.
#[derive(Debug)]
pub enum Error {
    /// Bad input that flag parsing could not catch, such as a backend name that
    /// names no backend the tool has.
    Usage(String),
    /// A Wayland session whose compositor has no backend.
    NoBackend,
    /// A graphical session the tool cannot work with at all, or none.
    NoSession(String),
    /// A backend that exists but does not do the work yet: its name and why.
    Unimplemented(&'static str, String),
    /// A program that must be on `PATH`, and how to install it.
    MissingDependency(&'static str, String),
    /// The phantom output the compositor should have offered is not there.
    NoPhantomOutput(String),
    /// Talking to the compositor failed.
    Ipc(String),
    /// Taking the picture failed.
    Capture(String),
    /// Putting the session back failed.
    Restore(String),
    /// Reading or writing a file failed.
    Io(std::io::Error),
}

/// The exit code that each kind of error is documented to produce.
pub open spec fn exit_code_of(e: &Error) -> i32 {
    match e {
        Error::Usage(_) => exit::USAGE,
        Error::NoBackend => exit::NO_BACKEND,
        Error::NoSession(_) => exit::NO_BACKEND,
        Error::Unimplemented(..) => exit::BACKEND_UNIMPLEMENTED,
        Error::MissingDependency(..) => exit::MISSING_DEPENDENCY,
        Error::Restore(_) => exit::RESTORE_FAILED,
        _ => exit::CAPTURE_FAILED,
    }
}

/// The message shown for an error. An I/O error's message comes from the
/// operating system, so it is the one variant this leaves open.
pub open spec fn message_of(e: &Error) -> Seq<char> {
    match e {
        Error::Usage(s) => s@,
        Error::NoBackend => "no supported compositor detected (checked niri, sway, hyprland)"@,
        Error::NoSession(s) => s@,
        Error::Unimplemented(b, m) => "backend '"@ + b@ + "' is not implemented yet: "@ + m@,
        Error::MissingDependency(p, h) => "required program '"@ + p@ + "' not found in PATH: "@
            + h@,
        Error::NoPhantomOutput(s) => "no phantom output configured: "@ + s@,
        Error::Ipc(s) => "compositor IPC failed: "@ + s@,
        Error::Capture(s) => "capture failed: "@ + s@,
        Error::Restore(s) => "failed to restore session: "@ + s@,
        Error::Io(_) => Seq::empty(),
    }
}

/// Renders an I/O error with `std::io::Error`'s `Display`. The text comes from
/// the operating system, so nothing is claimed of it.
#[verifier::external_body]
fn io_error_text(e: &std::io::Error) -> String {
    e.to_string()
}

/// `s` followed by `t`.
fn joined(s: &str, t: &str) -> (r: String)
    ensures
        r@ == s@ + t@,
{
    let mut r = String::from_str(s);
    r.append(t);
    r
}

impl Error {
    /// The process exit code for this error.
    pub fn exit_code(&self) -> (code: i32)
        ensures
            code == exit_code_of(self),
            exit::USAGE <= code <= exit::RESTORE_FAILED,
    {
        match self {
            Error::Usage(_) => exit::USAGE,
            Error::NoBackend | Error::NoSession(_) => exit::NO_BACKEND,
            Error::Unimplemented(..) => exit::BACKEND_UNIMPLEMENTED,
            Error::MissingDependency(..) => exit::MISSING_DEPENDENCY,
            Error::Restore(_) => exit::RESTORE_FAILED,
            _ => exit::CAPTURE_FAILED,
        }
    }

    /// The human-readable message for this error.
    pub fn message(&self) -> (text: String)
        ensures
            !(self is Io) ==> text@ == message_of(self),
    {
        match self {
            Error::Usage(s) => s.clone(),
            Error::NoBackend => String::from_str(
                "no supported compositor detected (checked niri, sway, hyprland)",
            ),
            Error::NoSession(s) => s.clone(),
            Error::Unimplemented(b, m) => {
                let mut r = joined("backend '", b);
                r.append("' is not implemented yet: ");
                r.append(m.as_str());
                r
            },
            Error::MissingDependency(p, h) => {
                let mut r = joined("required program '", p);
                r.append("' not found in PATH: ");
                r.append(h.as_str());
                r
            },
            Error::NoPhantomOutput(s) => joined("no phantom output configured: ", s.as_str()),
            Error::Ipc(s) => joined("compositor IPC failed: ", s.as_str()),
            Error::Capture(s) => joined("capture failed: ", s.as_str()),
            Error::Restore(s) => joined("failed to restore session: ", s.as_str()),
            Error::Io(e) => io_error_text(e),
        }
    }
}

} // verus!
