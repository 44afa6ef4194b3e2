use vstd::prelude::*;

verus! {

/// The common error taxonomy of all NIC backends.
#[derive(Debug, Clone, Copy, PartialEq, Eq, Structural)]
pub enum DevError {
    /// No data or ring space right now: retry later.
    Again,
    /// An entity already exists.
    AlreadyExists,
    /// The caller passed an incompatible buffer, or the device is not ready.
    BadState,
    /// An invalid parameter.
    InvalidParam,
    /// An input/output error.
    Io,
    /// A buffer or DMA pool is exhausted.
    NoMemory,
    /// The device is busy.
    ResourceBusy,
    /// The operation is not supported.
    Unsupported,
    /// The hardware reported an error the adapter cannot classify; the
    /// device state may be corrupt and must not be used further.
    Fatal,
}

/// The result of a device operation.
pub type DevResult<T = ()> = Result<T, DevError>;

} // verus!
