//! Typed failures of the protocol layer.
//!
//! Every failure is surfaced as one of these variants so that callers can
//! branch on it (retry on `QueueFull`, abort on `Framing`, and so on). This
//! layer itself never retries.

use vstd::prelude::*;

verus! {

/// What went wrong during one protocol operation.
#[derive(Copy, Clone, Eq, PartialEq, Structural, Debug)]
pub enum Error {
    /// I/O failure below this layer; the transport reports it, this layer
    /// passes it through unchanged.
    Transport,
    /// The buffer's magic byte does not match the codec's tag: the stream is
    /// misframed or desynchronised.
    Framing,
    /// A well-framed response whose success bit is clear: the device carried
    /// the exchange but reported the operation unsuccessful.
    OperationFailed,
    /// A well-framed response carrying a semantically invalid field, such as
    /// an out-of-range VCTCXO tamer mode.
    UnexpectedValue,
    /// A deferred retune was rejected because the FPGA's retune queue is
    /// full; transient, the caller may retry after a delay.
    QueueFull,
    /// An immediate retune failed in the tuning hardware; not retryable.
    TuneFailure,
    /// A caller-supplied address, trigger or channel outside its enumerated
    /// domain, rejected before any wire traffic.
    InvalidArgument,
}

impl Error {
    /// A short human-readable description of the failure.
    pub fn describe(&self) -> &'static str {
        match self {
            Error::Transport => "transport failure",
            Error::Framing => "invalid packet magic",
            Error::OperationFailed => "device reported operation failure",
            Error::UnexpectedValue => "unexpected value in response",
            Error::QueueFull => "retune queue is full, try again later",
            Error::TuneFailure => "FPGA tuning reported failure",
            Error::InvalidArgument => "argument outside its valid domain",
        }
    }
}

} // verus!
