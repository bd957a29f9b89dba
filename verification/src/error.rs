//! Error type for capture operations.
//!
//! Failures carry a human-readable message and, optionally, the message of an
//! underlying cause. The distinguished conditions (`PermissionDenied`,
//! `NoMonitors`, `NoWindows`, `MonitorNotFound`, `WindowNotFound`,
//! `CaptureFailed`) are identified by their exact message text, stated here as
//! spec functions so contracts can say which failure a function returns.

use vstd::prelude::*;

use crate::text::spec_decimal;
use crate::text::u32_to_decimal;

verus! {

/// Error type for capture operations.
#[derive(Debug)]
pub struct XCapError {
    message: String,
    source: Option<String>,
}

/// Result type for capture operations.
pub type XCapResult<T> = Result<T, XCapError>;

/// Message reporting that enumeration found no windows.
pub open spec fn no_windows_message() -> Seq<char> {
    "No windows found"@
}

/// Message reporting that enumeration found no monitors.
pub open spec fn no_monitors_message() -> Seq<char> {
    "No monitors found"@
}

/// Message reporting that screen-recording permission is missing.
pub open spec fn permission_denied_message() -> Seq<char> {
    "Screen recording permission not granted. Grant access in System Settings > Privacy & Security > Screen Recording"@
}

/// Message reporting a capture failure, carrying the underlying details.
pub open spec fn capture_failed_message(details: Seq<char>) -> Seq<char> {
    "Capture failed: "@ + details
}

/// Message reporting that a window id was absent at capture time.
pub open spec fn window_not_found_message(window_id: u32) -> Seq<char> {
    "Window with id "@ + spec_decimal(window_id as nat) + " not found"@
}

/// Message reporting that a monitor id was absent at capture time.
pub open spec fn monitor_not_found_message(monitor_id: u32) -> Seq<char> {
    "Monitor with id "@ + spec_decimal(monitor_id as nat) + " not found"@
}

impl XCapError {
    /// The error's own message.
    pub closed spec fn spec_message(&self) -> Seq<char> {
        self.message@
    }

    /// The message of the underlying cause, when one was recorded.
    pub closed spec fn spec_source(&self) -> Option<Seq<char>> {
        match self.source {
            Some(s) => Some(s@),
            None => None,
        }
    }

    /// The error rendered as text: the message, then the cause when present.
    pub open spec fn spec_rendered(&self) -> Seq<char> {
        match self.spec_source() {
            Some(s) => self.spec_message() + ": "@ + s,
            None => self.spec_message(),
        }
    }

    /// Create a new error with a message.
    pub fn new(message: &str) -> (e: XCapError)
        ensures
            e.spec_message() == message@,
            e.spec_source() is None,
    {
        XCapError { message: String::from_str(message), source: None }
    }

    /// Create a new error with a message and the message of its cause.
    pub fn with_source(message: &str, source: &str) -> (e: XCapError)
        ensures
            e.spec_message() == message@,
            e.spec_source() == Some(source@),
    {
        XCapError { message: String::from_str(message), source: Some(String::from_str(source)) }
    }

    /// Create an error for when no windows are found.
    pub fn no_windows() -> (e: XCapError)
        ensures
            e.spec_message() == no_windows_message(),
            e.spec_source() is None,
    {
        Self::new("No windows found")
    }

    /// Create an error for when no monitors are found.
    pub fn no_monitors() -> (e: XCapError)
        ensures
            e.spec_message() == no_monitors_message(),
            e.spec_source() is None,
    {
        Self::new("No monitors found")
    }

    /// Create an error for missing screen-recording permission.
    pub fn permission_denied() -> (e: XCapError)
        ensures
            e.spec_message() == permission_denied_message(),
            e.spec_source() is None,
    {
        Self::new(
            "Screen recording permission not granted. Grant access in System Settings > Privacy & Security > Screen Recording",
        )
    }

    /// Create an error for a capture failure.
    pub fn capture_failed(details: &str) -> (e: XCapError)
        ensures
            e.spec_message() == capture_failed_message(details@),
            e.spec_source() is None,
    {
        let mut message = String::from_str("Capture failed: ");
        message.append(details);
        XCapError { message, source: None }
    }

    /// Create an error for a window id that is no longer present.
    pub fn window_not_found(window_id: u32) -> (e: XCapError)
        ensures
            e.spec_message() == window_not_found_message(window_id),
            e.spec_source() is None,
    {
        let mut message = String::from_str("Window with id ");
        let id_text = u32_to_decimal(window_id);
        message.append(id_text.as_str());
        message.append(" not found");
        XCapError { message, source: None }
    }

    /// Create an error for a monitor id that is no longer present.
    pub fn monitor_not_found(monitor_id: u32) -> (e: XCapError)
        ensures
            e.spec_message() == monitor_not_found_message(monitor_id),
            e.spec_source() is None,
    {
        let mut message = String::from_str("Monitor with id ");
        let id_text = u32_to_decimal(monitor_id);
        message.append(id_text.as_str());
        message.append(" not found");
        XCapError { message, source: None }
    }

    /// The error rendered as text.
    pub fn message(&self) -> (r: String)
        ensures
            r@ == self.spec_rendered(),
    {
        match &self.source {
            None => self.message.clone(),
            Some(s) => {
                let mut r = self.message.clone();
                r.append(": ");
                r.append(s.as_str());
                r
            },
        }
    }

    /// The message of the underlying cause, when one was recorded.
    pub fn source(&self) -> (r: Option<String>)
        ensures
            r is Some <==> self.spec_source() is Some,
            r is Some ==> r->0@ == self.spec_source()->0,
    {
        match &self.source {
            Some(s) => Some(s.clone()),
            None => None,
        }
    }
}

impl From<&str> for XCapError {
    /// Create a new error from a message.
    fn from(s: &str) -> (e: XCapError)
        ensures
            e.spec_message() == s@,
            e.spec_source() is None,
    {
        XCapError::new(s)
    }
}

impl vstd::std_specs::convert::FromSpecImpl<&str> for XCapError {
    open spec fn obeys_from_spec() -> bool {
        false
    }

    open spec fn from_spec(v: &str) -> XCapError {
        arbitrary()
    }
}

impl From<String> for XCapError {
    /// Create a new error from a message.
    fn from(s: String) -> (e: XCapError)
        ensures
            e.spec_message() == s@,
            e.spec_source() is None,
    {
        XCapError { message: s, source: None }
    }
}

impl vstd::std_specs::convert::FromSpecImpl<String> for XCapError {
    open spec fn obeys_from_spec() -> bool {
        false
    }

    open spec fn from_spec(v: String) -> XCapError {
        arbitrary()
    }
}

} // verus!
