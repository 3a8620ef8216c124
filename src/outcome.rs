use vstd::prelude::*;

use crate::error::{
    failed, io_exc, io_exc_err, opt_view, provider_error, provider_text, result_view, BridgeError, ErrorKind,
};

verus! {

/// Why the next connection of a listener could not be had.
#[derive(Clone, Debug, PartialEq, Eq)]
pub enum AcceptFailure {
    /// The session was lost and is reconnecting; the provider may give a code.
    Reconnect { code: Option<String>, message: String },
    /// Any other failure, with its text.
    Other(String),
}

/// The kind of edge a labeled-tunnel connection arrived through.
#[derive(PartialEq, Eq, Structural, Clone, Copy, Debug)]
pub enum EdgeKind {
    Https,
    Tls,
    Tcp,
    Undefined,
}

/// What the host's heartbeat handler is told.
#[derive(PartialEq, Eq, Structural, Clone, Copy, Debug)]
pub enum HeartbeatCall {
    /// A round trip was measured, in milliseconds.
    Beat(i64),
    /// No answer came in time.
    Timeout,
}

/// The text of an accept failure.
pub open spec fn accept_failure_text(f: AcceptFailure) -> Seq<char> {
    match f {
        AcceptFailure::Reconnect { code, message } => provider_text(opt_view(code), message@),
        AcceptFailure::Other(text) => text@,
    }
}

/// The host-facing result of a read that returned `r`: a count of bytes, or
/// "closed" when nothing was read, since the host has no other end-of-stream
/// signal.
pub open spec fn read_result(r: Result<usize, String>) -> Result<i32, (ErrorKind, Seq<char>)> {
    match r {
        Ok(n) => if n == 0 {
            failed("closed"@)
        } else {
            Ok(n as i32)
        },
        Err(text) => failed(text@),
    }
}

pub fn read_outcome(r: Result<usize, String>) -> (out: Result<i32, BridgeError>)
    requires
        r matches Ok(n) ==> n <= i32::MAX,
    ensures
        result_view(out) == read_result(r),
{
    match r {
        Ok(0) => Err(io_exc(String::from_str("closed"))),
        Ok(n) => Ok(n as i32),
        Err(text) => io_exc_err(text),
    }
}

/// The host-facing result of a write that returned `r`.
pub open spec fn write_result(r: Result<usize, String>) -> Result<i32, (ErrorKind, Seq<char>)> {
    match r {
        Ok(n) => Ok(n as i32),
        Err(text) => failed(text@),
    }
}

pub fn write_outcome(r: Result<usize, String>) -> (out: Result<i32, BridgeError>)
    requires
        r matches Ok(n) ==> n <= i32::MAX,
    ensures
        result_view(out) == write_result(r),
{
    match r {
        Ok(n) => Ok(n as i32),
        Err(text) => io_exc_err(text),
    }
}

/// The host-facing result of waiting for a listener's next connection: the
/// connection, or an error; the end of the stream is an error too.
pub open spec fn accept_result<C>(r: Result<Option<C>, AcceptFailure>) -> Result<C, (ErrorKind, Seq<char>)> {
    match r {
        Ok(Some(c)) => Ok(c),
        Ok(None) => failed("could not get next connection"@),
        Err(f) => failed(accept_failure_text(f)),
    }
}

pub fn accept_outcome<C>(r: Result<Option<C>, AcceptFailure>) -> (out: Result<C, BridgeError>)
    ensures
        result_view(out) == accept_result(r),
{
    match r {
        Ok(Some(c)) => Ok(c),
        Ok(None) => io_exc_err(String::from_str("could not get next connection")),
        Err(AcceptFailure::Reconnect { code, message }) => Err(provider_error(code, message)),
        Err(AcceptFailure::Other(text)) => io_exc_err(text),
    }
}

/// The host-facing result of joining a forwarder: the task's own error, or
/// the failure to join it.
pub open spec fn join_result(r: Result<Result<(), String>, String>) -> Result<(), (ErrorKind, Seq<char>)> {
    match r {
        Ok(Ok(())) => Ok(()),
        Ok(Err(text)) => failed(text@),
        Err(text) => failed(text@),
    }
}

pub fn join_outcome(r: Result<Result<(), String>, String>) -> (out: Result<(), BridgeError>)
    ensures
        result_view(out) == join_result(r),
{
    match r {
        Ok(Ok(())) => Ok(()),
        Ok(Err(text)) => io_exc_err(text),
        Err(text) => io_exc_err(text),
    }
}

/// The host-facing result of an operation that ngrok failed with an optional
/// provider code and a message (close, listen, connect).
pub open spec fn provider_result<T>(r: Result<T, (Option<String>, String)>) -> Result<T, (ErrorKind, Seq<char>)> {
    match r {
        Ok(v) => Ok(v),
        Err((code, msg)) => failed(provider_text(opt_view(code), msg@)),
    }
}

pub fn provider_outcome<T>(r: Result<T, (Option<String>, String)>) -> (out: Result<T, BridgeError>)
    ensures
        result_view(out) == provider_result(r),
{
    match r {
        Ok(v) => Ok(v),
        Err((code, msg)) => Err(provider_error(code, msg)),
    }
}

/// The name the host gives an edge kind.
pub open spec fn edge_kind_text(k: EdgeKind) -> Seq<char> {
    match k {
        EdgeKind::Https => "HTTPS"@,
        EdgeKind::Tls => "TLS"@,
        EdgeKind::Tcp => "TCP"@,
        EdgeKind::Undefined => Seq::empty(),
    }
}

pub fn edge_kind_name(k: EdgeKind) -> (r: String)
    ensures
        r@ == edge_kind_text(k),
{
    match k {
        EdgeKind::Https => String::from_str("HTTPS"),
        EdgeKind::Tls => String::from_str("TLS"),
        EdgeKind::Tcp => String::from_str("TCP"),
        EdgeKind::Undefined => String::new(),
    }
}

/// What to tell the host's heartbeat handler for a measured latency, or for a
/// missed heartbeat (`None`); a latency whose milliseconds exceed `i64` is an
/// error.
pub open spec fn heartbeat_result(latency_ms: Option<u128>) -> Option<HeartbeatCall> {
    match latency_ms {
        None => Some(HeartbeatCall::Timeout),
        Some(ms) => if ms <= i64::MAX {
            Some(HeartbeatCall::Beat(ms as i64))
        } else {
            None
        },
    }
}

pub fn heartbeat_call(latency_ms: Option<u128>) -> (r: Result<HeartbeatCall, BridgeError>)
    ensures
        r is Ok <==> heartbeat_result(latency_ms) is Some,
        r matches Ok(call) ==> heartbeat_result(latency_ms) == Some(call),
{
    match latency_ms {
        None => Ok(HeartbeatCall::Timeout),
        Some(ms) => {
            if ms <= i64::MAX as u128 {
                Ok(HeartbeatCall::Beat(ms as i64))
            } else {
                io_exc_err(String::from_str("heartbeat latency out of range"))
            }
        },
    }
}

} // verus!
