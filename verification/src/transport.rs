//! The transport side of the bridge: a gate that rejects requests once
//! the transport is closed, the sorting of engine faults into timeout,
//! connect and other, and the protocol version seen by the host.

use vstd::prelude::*;

verus! {

#[verifier::external_type_specification]
#[verifier::external_body]
pub struct ExReqwestError(reqwest::Error);

/// The classes a transport fault is sorted into before surfacing.
pub enum TransportKind {
    /// The request or connection timed out.
    Timeout,
    /// Establishing the connection failed.
    Connect,
    /// Any other transport failure.
    Other,
}

/// A transport fault as surfaced to the caller.
pub struct TransportFault {
    pub kind: TransportKind,
    pub message: String,
}

/// Timeouts outrank connection errors; everything else is other.
pub open spec fn spec_classify(timeout: bool, connect: bool) -> TransportKind {
    if timeout {
        TransportKind::Timeout
    } else if connect {
        TransportKind::Connect
    } else {
        TransportKind::Other
    }
}

/// Sort a fault by what the engine reports of it.
pub fn classify_transport(timeout: bool, connect: bool) -> (k: TransportKind)
    ensures
        k == spec_classify(timeout, connect),
{
    if timeout {
        TransportKind::Timeout
    } else if connect {
        TransportKind::Connect
    } else {
        TransportKind::Other
    }
}

/// Whether the engine's own timeout test holds of an error value: what
/// `reqwest::Error::is_timeout` returns, a function of the value alone.
pub uninterp spec fn engine_timeout(e: reqwest::Error) -> bool;

/// Whether the engine's own connect test holds of an error value: what
/// `reqwest::Error::is_connect` returns, a function of the value alone.
pub uninterp spec fn engine_connect(e: reqwest::Error) -> bool;

/// The engine's human-readable account of an error value: what its
/// `Display` impl writes, a function of the value alone.
pub uninterp spec fn engine_display(e: reqwest::Error) -> Seq<char>;

/// Relies on `reqwest::Error::is_timeout`: whether a timeout stands
/// anywhere in the error's source chain.
#[verifier::external_body]
fn engine_error_is_timeout(e: &reqwest::Error) -> (r: bool)
    ensures
        r == engine_timeout(*e),
{
    e.is_timeout()
}

/// Relies on `reqwest::Error::is_connect`: whether the failure arose
/// while establishing the connection.
#[verifier::external_body]
fn engine_error_is_connect(e: &reqwest::Error) -> (r: bool)
    ensures
        r == engine_connect(*e),
{
    e.is_connect()
}

/// Relies on `reqwest::Error`'s `Display` impl: its account of the
/// failure, prefixed with the caller's context.
#[verifier::external_body]
fn engine_error_message(e: &reqwest::Error, context: &str) -> (r: String)
    ensures
        r@ == context@ + ": "@ + engine_display(*e),
{
    format!("{}: {}", context, e)
}

/// Surface an engine fault: its kind sorts the engine's own timeout and
/// connect tests exactly as `classify_transport` does, and its message is
/// the engine's account of the failure under the caller's context.
pub fn fault_from_engine(e: &reqwest::Error, context: &str) -> (f: TransportFault)
    ensures
        f.kind == spec_classify(engine_timeout(*e), engine_connect(*e)),
        f.message@ == context@ + ": "@ + engine_display(*e),
{
    let timeout = engine_error_is_timeout(e);
    let connect = engine_error_is_connect(e);
    TransportFault { kind: classify_transport(timeout, connect), message: engine_error_message(e, context) }
}

/// Whether a request may still be dispatched: the engine client is kept
/// until the transport is closed, and a shared default transport ignores
/// close.
pub struct TransportGate {
    /// True while the engine client is installed.
    pub engine_present: bool,
    /// False for the shared default transport, which outlives any close.
    pub owns_close: bool,
}

impl TransportGate {
    /// A fresh transport with its engine client installed.
    pub fn new(owns_close: bool) -> (g: TransportGate)
        ensures
            g.engine_present,
            g.owns_close == owns_close,
    {
        TransportGate { engine_present: true, owns_close }
    }

    /// Whether a request may be dispatched now; a closed transport
    /// refuses every request.
    pub fn ready(&self) -> (ok: bool)
        ensures
            ok == self.engine_present,
    {
        self.engine_present
    }

    /// Close the transport: the engine client is dropped, unless this
    /// transport does not own its close. Closing twice changes nothing.
    pub fn close(&mut self)
        ensures
            final(self).owns_close == old(self).owns_close,
            final(self).engine_present == (old(self).engine_present && !old(self).owns_close),
    {
        if self.owns_close {
            self.engine_present = false;
        }
    }
}

/// The wire-level protocol versions the engine reports.
pub enum WireVersion {
    V09,
    V10,
    V11,
    V2,
    V3,
    Unrecognized,
}

/// The protocol versions the host caller sees.
pub enum HttpVersion {
    Http1,
    Http2,
    Http3,
}

/// Every pre-2 version, and anything unrecognized, is reported as the
/// first version family.
pub open spec fn spec_version_bridge(w: WireVersion) -> HttpVersion {
    match w {
        WireVersion::V2 => HttpVersion::Http2,
        WireVersion::V3 => HttpVersion::Http3,
        _ => HttpVersion::Http1,
    }
}

/// Map the engine's wire version to the host-visible version.
pub fn version_bridge(w: WireVersion) -> (v: HttpVersion)
    ensures
        v == spec_version_bridge(w),
{
    match w {
        WireVersion::V2 => HttpVersion::Http2,
        WireVersion::V3 => HttpVersion::Http3,
        _ => HttpVersion::Http1,
    }
}

/// The display name of a host-visible version.
pub fn version_name(v: &HttpVersion) -> (s: &'static str)
    ensures
        v is Http1 ==> s@ == "HTTP/1.1"@,
        v is Http2 ==> s@ == "HTTP/2"@,
        v is Http3 ==> s@ == "HTTP/3"@,
{
    match v {
        HttpVersion::Http1 => "HTTP/1.1",
        HttpVersion::Http2 => "HTTP/2",
        HttpVersion::Http3 => "HTTP/3",
    }
}

} // verus!
