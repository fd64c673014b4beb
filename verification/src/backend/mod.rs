//! Compositor backends, the name of the output a capture targets, and the
//! bookkeeping that makes restoring the session happen exactly once.

use vstd::prelude::*;

pub mod hyprland;
pub mod niri;
pub mod sway;

verus! {

/// Identifies a phantom output for the lifetime of one capture.
///
/// `display` is set when the phantom lives on a different Wayland display than
/// the session the tool was started from, as with a nested compositor, where
/// every command has to be aimed at that display.
#[derive(Debug, Clone, PartialEq, Eq)]
pub struct OutputId {
    pub name: String,
    pub display: Option<String>,
}

impl OutputId {
    /// An output on the session's own display.
    pub fn new(name: &str) -> (o: OutputId)
        ensures
            o.name@ == name@,
            o.display is None,
    {
        OutputId { name: String::from_str(name), display: None }
    }

    /// An output on a nested compositor reachable at `display`.
    pub fn on_display(name: &str, display: &str) -> (o: OutputId)
        ensures
            o.name@ == name@,
            o.display matches Some(d) && d@ == display@,
    {
        OutputId { name: String::from_str(name), display: Some(String::from_str(display)) }
    }

    /// The name the capture tool addresses.
    pub fn as_str(&self) -> (s: &str)
        ensures
            s@ == self.name@,
    {
        self.name.as_str()
    }
}

/// Holds what a cleanup needs until the cleanup is run, and hands it out at
/// most once: whichever of an explicit restore or an unwinding drop asks first
/// gets it, and every later request gets nothing.
#[derive(Debug)]
pub struct CleanupOnce<T> {
    pending: Option<T>,
}

impl<T> CleanupOnce<T> {
    /// What a cleanup would still be handed, if any.
    pub closed spec fn pending(&self) -> Option<T> {
        self.pending
    }

    /// Armed with `value`.
    pub fn new(value: T) -> (c: CleanupOnce<T>)
        ensures
            c.pending() == Some(value),
    {
        CleanupOnce { pending: Some(value) }
    }

    /// Whether a cleanup is still owed.
    pub fn is_armed(&self) -> (b: bool)
        ensures
            b == self.pending() is Some,
    {
        self.pending.is_some()
    }

    /// A look at what a cleanup would be handed.
    pub fn peek(&self) -> (r: Option<&T>)
        ensures
            r matches Some(v) ==> self.pending() == Some(*v),
            r is None <==> self.pending() is None,
    {
        match &self.pending {
            Some(v) => Some(v),
            None => None,
        }
    }

    /// Takes what the cleanup needs, leaving nothing behind: a second call
    /// returns `None`, so the cleanup runs at most once.
    pub fn take(&mut self) -> (r: Option<T>)
        ensures
            r == old(self).pending(),
            final(self).pending() is None,
    {
        self.pending.take()
    }
}

} // verus!
