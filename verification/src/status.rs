//! Driver status reports and the typed errors they decode to.

use vstd::prelude::*;

verus! {

/// What the hardware driver reports when asked to render or to wait:
/// success, or one of the hardware-facing failure kinds.
#[derive(Clone, Copy, Debug, PartialEq, Eq, Structural)]
pub enum Status {
    /// The request was carried out.
    Success,
    /// Unspecified driver-level error.
    GenericFailure,
    /// Generic hardware/DMA transmission failure.
    HardwareFault,
    /// The driver failed to allocate required buffers.
    OutOfMemory,
    /// Hardware pin setup failed.
    GpioInitFailure,
    /// The configured pin cannot be used.
    GpioInvalidPin,
    /// The configured LED count is incompatible with hardware limits.
    InvalidStringLength,
    /// DMA subsystem initialization failed.
    DmaSetupFailure,
    /// PWM subsystem initialization failed.
    PwmSetupFailure,
    /// Interrupt subsystem initialization failed.
    InterruptSetupFailure,
}

/// A driver failure, surfaced verbatim to the caller: the controller never
/// reinterprets a failure and never retries on its own.
#[derive(Clone, Copy, Debug, PartialEq, Eq, Structural)]
pub enum WsError {
    /// Unspecified driver-level error.
    GenericFailure,
    /// Generic hardware/DMA transmission failure.
    HardwareFault,
    /// The driver failed to allocate required buffers.
    OutOfMemory,
    /// Hardware pin setup failed.
    GpioInitFailure,
    /// The configured pin cannot be used.
    GpioInvalidPin,
    /// The configured LED count is incompatible with hardware limits.
    InvalidStringLength,
    /// DMA subsystem initialization failed.
    DmaSetupFailure,
    /// PWM subsystem initialization failed.
    PwmSetupFailure,
    /// Interrupt subsystem initialization failed.
    InterruptSetupFailure,
}

/// The typed result a driver status stands for: `Ok` exactly on
/// [`Status::Success`], and otherwise the error kind matching the report.
pub open spec fn status_result(s: Status) -> Result<(), WsError> {
    match s {
        Status::Success => Ok(()),
        Status::GenericFailure => Err(WsError::GenericFailure),
        Status::HardwareFault => Err(WsError::HardwareFault),
        Status::OutOfMemory => Err(WsError::OutOfMemory),
        Status::GpioInitFailure => Err(WsError::GpioInitFailure),
        Status::GpioInvalidPin => Err(WsError::GpioInvalidPin),
        Status::InvalidStringLength => Err(WsError::InvalidStringLength),
        Status::DmaSetupFailure => Err(WsError::DmaSetupFailure),
        Status::PwmSetupFailure => Err(WsError::PwmSetupFailure),
        Status::InterruptSetupFailure => Err(WsError::InterruptSetupFailure),
    }
}

/// Decode a driver status into the typed result handed to callers.
pub fn decode_status(s: Status) -> (r: Result<(), WsError>)
    ensures
        r == status_result(s),
{
    match s {
        Status::Success => Ok(()),
        Status::GenericFailure => Err(WsError::GenericFailure),
        Status::HardwareFault => Err(WsError::HardwareFault),
        Status::OutOfMemory => Err(WsError::OutOfMemory),
        Status::GpioInitFailure => Err(WsError::GpioInitFailure),
        Status::GpioInvalidPin => Err(WsError::GpioInvalidPin),
        Status::InvalidStringLength => Err(WsError::InvalidStringLength),
        Status::DmaSetupFailure => Err(WsError::DmaSetupFailure),
        Status::PwmSetupFailure => Err(WsError::PwmSetupFailure),
        Status::InterruptSetupFailure => Err(WsError::InterruptSetupFailure),
    }
}

} // verus!
