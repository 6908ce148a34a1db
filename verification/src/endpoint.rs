//! Reporting a failed bind.
//!
//! Binding acquires a datagram socket on a local address and attaches the
//! listener's configuration to it. Either step can fail; nothing is retried.
//! This module says which error a failure becomes and how it reads.
use vstd::prelude::*;
use vstd::string::StringExecFns;

verus! {

/// Why the host did not hand out the socket.
#[derive(Clone, Copy, Debug, PartialEq, Eq, Structural)]
pub enum SocketFailure {
    /// Another socket holds the address.
    AddressInUse,
    /// The caller may not bind the address.
    PermissionDenied,
    /// Any other refusal of the host.
    Other,
}

/// A failed bind, with the attempted port and the text of the underlying
/// error where there is one.
#[derive(Debug, PartialEq, Eq)]
pub enum BindError {
    /// The address is held by another socket.
    AddressInUse { port: u16, detail: String },
    /// The caller lacks the privilege to bind the address.
    PermissionDenied { port: u16, detail: String },
    /// The host refused the socket for another reason.
    SocketUnavailable { port: u16, detail: String },
    /// The engine rejected the socket with the listener's configuration.
    EndpointSetupFailed { detail: String },
}

/// A failed bind with its texts as sequences of characters.
pub enum BindErrorView {
    AddressInUse { port: u16, detail: Seq<char> },
    PermissionDenied { port: u16, detail: Seq<char> },
    SocketUnavailable { port: u16, detail: Seq<char> },
    EndpointSetupFailed { detail: Seq<char> },
}

impl View for BindError {
    type V = BindErrorView;

    open spec fn view(&self) -> BindErrorView {
        match *self {
            BindError::AddressInUse { port, detail } => BindErrorView::AddressInUse {
                port,
                detail: detail@,
            },
            BindError::PermissionDenied { port, detail } => BindErrorView::PermissionDenied {
                port,
                detail: detail@,
            },
            BindError::SocketUnavailable { port, detail } => BindErrorView::SocketUnavailable {
                port,
                detail: detail@,
            },
            BindError::EndpointSetupFailed { detail } => BindErrorView::EndpointSetupFailed {
                detail: detail@,
            },
        }
    }
}

/// The character of a decimal digit.
pub open spec fn digit_char(d: nat) -> char {
    if d == 0 {
        '0'
    } else if d == 1 {
        '1'
    } else if d == 2 {
        '2'
    } else if d == 3 {
        '3'
    } else if d == 4 {
        '4'
    } else if d == 5 {
        '5'
    } else if d == 6 {
        '6'
    } else if d == 7 {
        '7'
    } else if d == 8 {
        '8'
    } else {
        '9'
    }
}

/// A number in decimal, without leading zeros.
pub open spec fn decimal(n: nat) -> Seq<char>
    decreases n,
{
    if n < 10 {
        seq![digit_char(n)]
    } else {
        decimal(n / 10).push(digit_char(n % 10))
    }
}

/// The text of a bind that failed at the socket.
pub open spec fn socket_failure_text(port: u16, detail: Seq<char>) -> Seq<char> {
    "Could not bind to the user supplied port: "@ + decimal(port as nat) + "! Error: "@ + detail
}

impl BindErrorView {
    /// The error that a refusal of the host becomes.
    pub open spec fn from_socket(failure: SocketFailure, port: u16, detail: Seq<char>) -> BindErrorView {
        match failure {
            SocketFailure::AddressInUse => BindErrorView::AddressInUse { port, detail },
            SocketFailure::PermissionDenied => BindErrorView::PermissionDenied { port, detail },
            SocketFailure::Other => BindErrorView::SocketUnavailable { port, detail },
        }
    }

    /// The port that was asked for, where the failure was the socket's.
    pub open spec fn port(self) -> Option<u16> {
        match self {
            BindErrorView::AddressInUse { port, .. } => Some(port),
            BindErrorView::PermissionDenied { port, .. } => Some(port),
            BindErrorView::SocketUnavailable { port, .. } => Some(port),
            BindErrorView::EndpointSetupFailed { .. } => None,
        }
    }

    /// How the error reads: a failure of the socket names the port and the
    /// host's error, a failure of the engine reads as the engine's error.
    pub open spec fn message(self) -> Seq<char> {
        match self {
            BindErrorView::AddressInUse { port, detail } => socket_failure_text(port, detail),
            BindErrorView::PermissionDenied { port, detail } => socket_failure_text(port, detail),
            BindErrorView::SocketUnavailable { port, detail } => socket_failure_text(port, detail),
            BindErrorView::EndpointSetupFailed { detail } => detail,
        }
    }
}

/// The text of a decimal digit.
fn digit_text(d: u16) -> (text: &'static str)
    requires
        d < 10,
    ensures
        text@ == seq![digit_char(d as nat)],
{
    proof {
        reveal_strlit("0");
        reveal_strlit("1");
        reveal_strlit("2");
        reveal_strlit("3");
        reveal_strlit("4");
        reveal_strlit("5");
        reveal_strlit("6");
        reveal_strlit("7");
        reveal_strlit("8");
        reveal_strlit("9");
    }
    match d {
        0 => "0",
        1 => "1",
        2 => "2",
        3 => "3",
        4 => "4",
        5 => "5",
        6 => "6",
        7 => "7",
        8 => "8",
        _ => "9",
    }
}

/// Appends a number in decimal to a text.
fn append_decimal(text: &mut String, n: u16)
    ensures
        final(text)@ == old(text)@ + decimal(n as nat),
    decreases n,
{
    if n >= 10 {
        append_decimal(text, n / 10);
    }
    text.append(digit_text(n % 10));
}

/// The error of a bind that failed at the socket, from what the host said.
pub fn socket_bind_error(failure: SocketFailure, port: u16, detail: String) -> (error: BindError)
    ensures
        error@ == BindErrorView::from_socket(failure, port, detail@),
{
    match failure {
        SocketFailure::AddressInUse => BindError::AddressInUse { port, detail },
        SocketFailure::PermissionDenied => BindError::PermissionDenied { port, detail },
        SocketFailure::Other => BindError::SocketUnavailable { port, detail },
    }
}

/// The error of a bind that failed at the engine, from what the engine said.
pub fn engine_bind_error(detail: String) -> (error: BindError)
    ensures
        error@ == (BindErrorView::EndpointSetupFailed { detail: detail@ }),
{
    BindError::EndpointSetupFailed { detail }
}

impl BindError {
    /// The port that was asked for, where the failure was the socket's.
    pub fn port(&self) -> (port: Option<u16>)
        ensures
            port == self@.port(),
    {
        match self {
            BindError::AddressInUse { port, .. } => Some(*port),
            BindError::PermissionDenied { port, .. } => Some(*port),
            BindError::SocketUnavailable { port, .. } => Some(*port),
            BindError::EndpointSetupFailed { .. } => None,
        }
    }

    /// How the error reads.
    pub fn message(&self) -> (text: String)
        ensures
            text@ == self@.message(),
    {
        match self {
            BindError::AddressInUse { port, detail } => socket_failure_message(*port, detail),
            BindError::PermissionDenied { port, detail } => socket_failure_message(*port, detail),
            BindError::SocketUnavailable { port, detail } => socket_failure_message(*port, detail),
            BindError::EndpointSetupFailed { detail } => detail.clone(),
        }
    }
}

/// How a bind that failed at the socket reads.
fn socket_failure_message(port: u16, detail: &String) -> (text: String)
    ensures
        text@ == socket_failure_text(port, detail@),
{
    let mut text = String::from_str("Could not bind to the user supplied port: ");
    append_decimal(&mut text, port);
    text.append("! Error: ");
    text.append(detail.as_str());
    text
}

} // verus!
