//! The retune engine's scheduling and queue-interpretation rules.
//!
//! A retune request either names a device-clock timestamp at which the FPGA
//! should execute it, or the `NIOS_PKT_RETUNE_NOW` sentinel for immediate
//! execution. The response signals failure with a single cleared flag bit,
//! which stands for two very different conditions; the *request's* timestamp
//! is the only information that tells them apart, and the rule here
//! preserves that convention exactly.

use vstd::prelude::*;

use crate::error::Error;

verus! {

/// Timestamp sentinel asking the FPGA to retune immediately instead of
/// queueing for a scheduled time.
pub const NIOS_PKT_RETUNE_NOW: u64 = 0;

/// Bit 1 of a retune response's flags byte signals success.
pub const NIOS_PKT_RETUNE_FLAG_SUCCESS: u8 = 2;

/// What a retune or retune2 response means, given the request it answers.
///
/// With the success bit set the tune happened and took `duration` device
/// ticks. With it clear, a request for an immediate tune (the
/// `NIOS_PKT_RETUNE_NOW` timestamp) has failed in the tuning hardware, while
/// a deferred request has been rejected by a full retune queue and may be
/// retried later. No further state is available to tell the two apart.
pub open spec fn spec_retune_outcome(request_timestamp: u64, duration: u64, flags: u8) -> Result<
    u64,
    Error,
> {
    if flags & 2 != 0 {
        Ok(duration)
    } else if request_timestamp == NIOS_PKT_RETUNE_NOW {
        Err(Error::TuneFailure)
    } else {
        Err(Error::QueueFull)
    }
}

/// Turns an unpacked retune response into the operation's result, using the
/// original request's timestamp to disambiguate the failure cause.
///
/// Success bit set gives `Ok(duration)`; clear with an immediate-tune
/// request gives `Error::TuneFailure` (not retryable); clear with a deferred
/// request gives `Error::QueueFull` (retryable after a delay).
pub fn interpret_retune_response(request_timestamp: u64, duration: u64, flags: u8) -> (r: Result<
    u64,
    Error,
>)
    ensures
        r == spec_retune_outcome(request_timestamp, duration, flags),
        flags & 2 != 0 <==> r == Ok::<u64, Error>(duration),
{
    if flags & NIOS_PKT_RETUNE_FLAG_SUCCESS != 0 {
        Ok(duration)
    } else if request_timestamp == NIOS_PKT_RETUNE_NOW {
        Err(Error::TuneFailure)
    } else {
        Err(Error::QueueFull)
    }
}

/// Where one retune stands. A request is packed and dispatched at most once
/// (`Idle` to `Scheduled`), and its response moves it to exactly one of the
/// three terminal states; a later retune starts over with a fresh packet.
#[derive(Copy, Clone, Eq, PartialEq, Structural, Debug)]
pub enum RetuneState {
    Idle,
    Scheduled,
    CompletedSuccess,
    CompletedFailure,
    QueueFull,
}

/// Whether a retune in this state is finished: no response can move it
/// further.
pub open spec fn spec_retune_terminal(state: RetuneState) -> bool {
    match state {
        RetuneState::Idle => false,
        RetuneState::Scheduled => false,
        RetuneState::CompletedSuccess => true,
        RetuneState::CompletedFailure => true,
        RetuneState::QueueFull => true,
    }
}

/// Packing and dispatching the request moves an idle retune to `Scheduled`.
pub fn retune_submit(state: RetuneState) -> (r: RetuneState)
    requires
        state is Idle,
    ensures
        r is Scheduled,
{
    RetuneState::Scheduled
}

/// The response moves a scheduled retune to its terminal state, resolved by
/// the same rule as `interpret_retune_response`: the success bit decides
/// between success and failure, and the original request's timestamp decides
/// whether a failure was a hard tuning failure (immediate tune) or a full
/// queue (deferred tune).
pub fn retune_complete(state: RetuneState, request_timestamp: u64, flags: u8) -> (r: RetuneState)
    requires
        state is Scheduled,
    ensures
        flags & 2 != 0 ==> r is CompletedSuccess,
        flags & 2 == 0 && request_timestamp == NIOS_PKT_RETUNE_NOW ==> r is CompletedFailure,
        flags & 2 == 0 && request_timestamp != NIOS_PKT_RETUNE_NOW ==> r is QueueFull,
        spec_retune_terminal(r),
{
    if flags & NIOS_PKT_RETUNE_FLAG_SUCCESS != 0 {
        RetuneState::CompletedSuccess
    } else if request_timestamp == NIOS_PKT_RETUNE_NOW {
        RetuneState::CompletedFailure
    } else {
        RetuneState::QueueFull
    }
}

} // verus!
