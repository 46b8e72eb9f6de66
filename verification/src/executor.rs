//! Settling engine work for the caller. One core async implementation
//! does the work on the engine; the asynchronous caller awaits it through
//! a bridged future, the synchronous caller blocks on a one-shot
//! completion signal. Failure propagation is the same in both modes, and
//! this module is that common settling step.

use vstd::prelude::*;

use crate::transport::TransportFault;

verus! {

/// Why a dispatch, or one chunk round trip, failed to settle.
pub enum DispatchError {
    /// The transport was already closed when the request was made.
    TransportClosed,
    /// The engine-side task vanished: its completion signal closed
    /// without ever carrying a value.
    EngineGone,
    /// The engine reported this transport fault.
    Fault(TransportFault),
}

/// Settle one engine round trip: `answer` is what arrived over the
/// one-shot completion signal, if anything did. Identical for the
/// asynchronous and the blocking caller.
pub fn settle_dispatch<R>(answer: Option<Result<R, TransportFault>>) -> (r: Result<
    R,
    DispatchError,
>)
    ensures
        (match answer {
            None => r == Err::<R, DispatchError>(DispatchError::EngineGone),
            Some(Ok(v)) => r == Ok::<R, DispatchError>(v),
            Some(Err(f)) => r == Err::<R, DispatchError>(DispatchError::Fault(f)),
        }),
{
    match answer {
        None => Err(DispatchError::EngineGone),
        Some(Ok(v)) => Ok(v),
        Some(Err(f)) => Err(DispatchError::Fault(f)),
    }
}

/// Refuse work on a closed transport before anything is dispatched.
pub fn gate_dispatch(engine_present: bool) -> (r: Result<(), DispatchError>)
    ensures
        engine_present ==> r == Ok::<(), DispatchError>(()),
        !engine_present ==> r == Err::<(), DispatchError>(DispatchError::TransportClosed),
{
    if engine_present {
        Ok(())
    } else {
        Err(DispatchError::TransportClosed)
    }
}

} // verus!
