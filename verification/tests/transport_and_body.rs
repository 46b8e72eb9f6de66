//! Tests of the transport gate, fault classification, version mapping,
//! request-body classification and dispatch settling.

use bytes::Bytes;

use pyqwest::body::{
    classify_async_content, classify_host_body, classify_sync_content, fixed_body,
    plan_transmission, BodyClassError, BodyKind, BodyPlan, PushKind, RequestBody,
};
use pyqwest::executor::{gate_dispatch, settle_dispatch, DispatchError};
use pyqwest::transport::{
    classify_transport, fault_from_engine, version_bridge, version_name, HttpVersion,
    TransportFault, TransportGate, TransportKind, WireVersion,
};

#[test]
fn transport_faults_sort_timeout_first() {
    assert!(matches!(classify_transport(true, false), TransportKind::Timeout));
    assert!(matches!(classify_transport(true, true), TransportKind::Timeout));
    assert!(matches!(classify_transport(false, true), TransportKind::Connect));
    assert!(matches!(classify_transport(false, false), TransportKind::Other));
}

#[test]
fn engine_fault_carries_context_and_sorted_kind() {
    // A malformed URL makes the engine's request builder fail without any
    // network: neither a timeout nor a connect error, so the fault sorts
    // as other, and the message is the engine's account under the
    // caller's context.
    let err = reqwest::Client::new()
        .get("http://[")
        .build()
        .expect_err("a malformed URL must be refused");
    assert!(!err.is_timeout());
    assert!(!err.is_connect());
    let fault = fault_from_engine(&err, "Request failed");
    assert!(matches!(fault.kind, TransportKind::Other));
    assert_eq!(fault.message, format!("Request failed: {err}"));
}

#[test]
fn closed_transport_refuses_requests() {
    let mut gate = TransportGate::new(true);
    assert!(gate.ready());
    gate.close();
    assert!(!gate.ready());
    // Closing again changes nothing.
    gate.close();
    assert!(!gate.ready());
}

#[test]
fn shared_default_transport_ignores_close() {
    let mut gate = TransportGate::new(false);
    gate.close();
    assert!(gate.ready());
}

#[test]
fn version_bridge_collapses_early_versions() {
    assert!(matches!(version_bridge(WireVersion::V09), HttpVersion::Http1));
    assert!(matches!(version_bridge(WireVersion::V10), HttpVersion::Http1));
    assert!(matches!(version_bridge(WireVersion::V11), HttpVersion::Http1));
    assert!(matches!(version_bridge(WireVersion::V2), HttpVersion::Http2));
    assert!(matches!(version_bridge(WireVersion::V3), HttpVersion::Http3));
    assert!(matches!(version_bridge(WireVersion::Unrecognized), HttpVersion::Http1));
}

#[test]
fn version_names() {
    assert_eq!(version_name(&HttpVersion::Http1), "HTTP/1.1");
    assert_eq!(version_name(&HttpVersion::Http2), "HTTP/2");
    assert_eq!(version_name(&HttpVersion::Http3), "HTTP/3");
}

#[test]
fn host_body_classification() {
    assert!(matches!(
        classify_host_body(true, false, false, false, false),
        Ok(BodyKind::Buffered)
    ));
    assert!(matches!(
        classify_host_body(false, true, true, true, false),
        Ok(BodyKind::AsyncIterable)
    ));
    assert!(matches!(
        classify_host_body(false, false, false, false, true),
        Ok(BodyKind::SyncIterable)
    ));
    // An async iterator that cannot be pulled from.
    assert!(matches!(
        classify_host_body(false, true, false, true, false),
        Err(BodyClassError::MissingAnext)
    ));
    // An async iterator with no running host loop.
    assert!(matches!(
        classify_host_body(false, true, true, false, false),
        Err(BodyClassError::NoEventLoop)
    ));
    // Neither bytes nor any iterator.
    assert!(matches!(
        classify_host_body(false, false, false, false, false),
        Err(BodyClassError::NotIterable)
    ));
}

#[test]
fn async_caller_content_classification() {
    assert!(matches!(classify_async_content(true, false), Ok(BodyKind::Buffered)));
    assert!(matches!(classify_async_content(false, true), Ok(BodyKind::AsyncIterable)));
    assert!(matches!(
        classify_async_content(false, false),
        Err(BodyClassError::NotAsyncIterable)
    ));
}

#[test]
fn sync_caller_content_classification() {
    assert!(matches!(classify_sync_content(true, false), Ok(BodyKind::Buffered)));
    assert!(matches!(classify_sync_content(false, true), Ok(BodyKind::SyncIterable)));
    assert!(matches!(classify_sync_content(false, false), Err(BodyClassError::NotIterable)));
}

#[test]
fn fixed_body_holds_the_bytes_and_plans_as_buffer() {
    let body = fixed_body(b"payload".to_vec());
    match plan_transmission(body) {
        BodyPlan::Buffer(c) => assert_eq!(c, Bytes::from_static(b"payload")),
        _ => panic!("a fixed body is attached as a buffer"),
    }
}

#[test]
fn transmission_plans_per_body_variant() {
    assert!(matches!(plan_transmission(RequestBody::Empty), BodyPlan::NoBody));
    assert!(matches!(
        plan_transmission(RequestBody::Push(PushKind::Sync)),
        BodyPlan::Stream(PushKind::Sync)
    ));
    assert!(matches!(
        plan_transmission(RequestBody::Push(PushKind::Async)),
        BodyPlan::Stream(PushKind::Async)
    ));
}

#[test]
fn dispatch_settles_identically_for_both_modes() {
    let ok: Option<Result<u32, TransportFault>> = Some(Ok(7));
    assert!(matches!(settle_dispatch(ok), Ok(7)));

    let gone: Option<Result<u32, TransportFault>> = None;
    assert!(matches!(settle_dispatch(gone), Err(DispatchError::EngineGone)));

    let fault: Option<Result<u32, TransportFault>> = Some(Err(TransportFault {
        kind: TransportKind::Timeout,
        message: "request timed out".to_string(),
    }));
    match settle_dispatch(fault) {
        Err(DispatchError::Fault(f)) => {
            assert!(matches!(f.kind, TransportKind::Timeout));
            assert_eq!(f.message, "request timed out");
        },
        _ => panic!("an engine fault surfaces to the caller"),
    }
}

#[test]
fn dispatch_is_gated_on_an_open_transport() {
    assert!(matches!(gate_dispatch(true), Ok(())));
    assert!(matches!(gate_dispatch(false), Err(DispatchError::TransportClosed)));
}
