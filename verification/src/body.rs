//! The outgoing request body: how a host-provided source is classified at
//! request construction, and how the body is handed to the engine when
//! the request is transmitted.
//!
//! The host value itself is opaque; the unverified shell probes it and
//! hands the classification the capabilities it found as plain flags.

use vstd::prelude::*;

use crate::chunk::{chunk_bytes, chunk_from_vec};

verus! {

/// What kind of source the host handed over.
pub enum BodyKind {
    /// A materialized buffer of bytes.
    Buffered,
    /// A synchronous pull iterator; pulling may block.
    SyncIterable,
    /// An asynchronous pull iterator bound to the host's own loop.
    AsyncIterable,
}

/// Why a host value is not usable as a body.
pub enum BodyClassError {
    /// It advertises asynchronous iteration but cannot be pulled from.
    MissingAnext,
    /// An asynchronous source needs a running host loop and none is.
    NoEventLoop,
    /// It is neither bytes nor any kind of iterator.
    NotIterable,
    /// Bytes or an asynchronous iterator was required and it is neither.
    NotAsyncIterable,
}

/// How a general host body value is classified: a buffer wins, then an
/// asynchronous iterator (which must be pullable and have a running
/// loop), then a synchronous iterator; anything else is rejected.
pub open spec fn spec_classify_host_body(
    is_bytes: bool,
    has_aiter: bool,
    has_anext: bool,
    has_event_loop: bool,
    is_iterable: bool,
) -> Result<BodyKind, BodyClassError> {
    if is_bytes {
        Ok(BodyKind::Buffered)
    } else if has_aiter {
        if !has_anext {
            Err(BodyClassError::MissingAnext)
        } else if !has_event_loop {
            Err(BodyClassError::NoEventLoop)
        } else {
            Ok(BodyKind::AsyncIterable)
        }
    } else if is_iterable {
        Ok(BodyKind::SyncIterable)
    } else {
        Err(BodyClassError::NotIterable)
    }
}

/// Classify a general host body value from the capabilities the shell
/// probed on it.
pub fn classify_host_body(
    is_bytes: bool,
    has_aiter: bool,
    has_anext: bool,
    has_event_loop: bool,
    is_iterable: bool,
) -> (r: Result<BodyKind, BodyClassError>)
    ensures
        r == spec_classify_host_body(is_bytes, has_aiter, has_anext, has_event_loop, is_iterable),
{
    if is_bytes {
        Ok(BodyKind::Buffered)
    } else if has_aiter {
        if !has_anext {
            Err(BodyClassError::MissingAnext)
        } else if !has_event_loop {
            Err(BodyClassError::NoEventLoop)
        } else {
            Ok(BodyKind::AsyncIterable)
        }
    } else if is_iterable {
        Ok(BodyKind::SyncIterable)
    } else {
        Err(BodyClassError::NotIterable)
    }
}

/// Classify request content for the asynchronous caller, which accepts
/// only bytes or an asynchronous iterator.
pub fn classify_async_content(is_bytes: bool, has_aiter: bool) -> (r: Result<
    BodyKind,
    BodyClassError,
>)
    ensures
        is_bytes ==> r == Ok::<BodyKind, BodyClassError>(BodyKind::Buffered),
        !is_bytes && has_aiter ==> r == Ok::<BodyKind, BodyClassError>(BodyKind::AsyncIterable),
        !is_bytes && !has_aiter ==> r == Err::<BodyKind, BodyClassError>(
            BodyClassError::NotAsyncIterable,
        ),
{
    if is_bytes {
        Ok(BodyKind::Buffered)
    } else if has_aiter {
        Ok(BodyKind::AsyncIterable)
    } else {
        Err(BodyClassError::NotAsyncIterable)
    }
}

/// Classify request content for the synchronous caller, which accepts
/// only bytes or a synchronous iterator.
pub fn classify_sync_content(is_bytes: bool, is_iterable: bool) -> (r: Result<
    BodyKind,
    BodyClassError,
>)
    ensures
        is_bytes ==> r == Ok::<BodyKind, BodyClassError>(BodyKind::Buffered),
        !is_bytes && is_iterable ==> r == Ok::<BodyKind, BodyClassError>(BodyKind::SyncIterable),
        !is_bytes && !is_iterable ==> r == Err::<BodyKind, BodyClassError>(
            BodyClassError::NotIterable,
        ),
{
    if is_bytes {
        Ok(BodyKind::Buffered)
    } else if is_iterable {
        Ok(BodyKind::SyncIterable)
    } else {
        Err(BodyClassError::NotIterable)
    }
}

/// Which side pulls a push source.
pub enum PushKind {
    /// A blocking pull loop on a dedicated worker thread.
    Sync,
    /// A task scheduled on the host's own loop.
    Async,
}

/// The request body, created at request construction and consumed exactly
/// once when the engine transmits the request.
pub enum RequestBody {
    /// No body at all.
    Empty,
    /// A fixed buffer, wrapped without copying per chunk.
    Fixed(bytes::Bytes),
    /// A pull source the adapter will drain.
    Push(PushKind),
}

/// What the engine is handed for a request body.
pub enum BodyPlan {
    /// No body is attached to the request.
    NoBody,
    /// The whole buffer is attached directly.
    Buffer(bytes::Bytes),
    /// A stream fed by the source adapter is attached.
    Stream(PushKind),
}

/// A fixed body holding exactly these bytes.
pub fn fixed_body(data: Vec<u8>) -> (b: RequestBody)
    ensures
        (match b {
            RequestBody::Fixed(c) => chunk_bytes(c) == data@,
            _ => false,
        }),
{
    RequestBody::Fixed(chunk_from_vec(data))
}

pub open spec fn spec_plan(b: RequestBody) -> BodyPlan {
    match b {
        RequestBody::Empty => BodyPlan::NoBody,
        RequestBody::Fixed(c) => BodyPlan::Buffer(c),
        RequestBody::Push(k) => BodyPlan::Stream(k),
    }
}

/// Consume the body for transmission: ownership moves into the engine's
/// dispatch, so the body is transmitted exactly once.
pub fn plan_transmission(b: RequestBody) -> (p: BodyPlan)
    ensures
        p == spec_plan(b),
{
    match b {
        RequestBody::Empty => BodyPlan::NoBody,
        RequestBody::Fixed(c) => BodyPlan::Buffer(c),
        RequestBody::Push(k) => BodyPlan::Stream(k),
    }
}

} // verus!
