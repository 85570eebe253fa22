use vstd::prelude::*;

verus! {

/// Why a connection attempt failed. Connect failures are surfaced to the
/// caller and never retried internally.
pub enum ConnectError {
    /// The OS refused to open the serial device; holds the reported error text.
    SerialOpen(String),
    /// The MAVLink session could not be established; holds the reported error text.
    MavlinkOpen(String),
}

/// The text that a connect failure carries to the command boundary.
pub open spec fn connect_error_text(e: ConnectError) -> Seq<char> {
    match e {
        ConnectError::SerialOpen(s) => s@,
        ConnectError::MavlinkOpen(s) => s@,
    }
}

impl ConnectError {
    /// The human-readable description of this failure.
    pub fn message(self) -> (r: String)
        ensures
            r@ == connect_error_text(self),
    {
        match self {
            ConnectError::SerialOpen(s) => s,
            ConnectError::MavlinkOpen(s) => s,
        }
    }
}

/// Why a dispatch was rejected or a write failed.
#[derive(Clone, Copy, Debug, PartialEq, Eq, Structural)]
pub enum DispatchError {
    /// The requested rate is above 100 percent; rejected before any write.
    CapacityExceeded,
    /// No transport handle is installed in the registry.
    NoActiveConnection,
    /// The serial handle is absent, mismatched, or the write to it failed.
    WriteError,
    /// The active configuration does not select the serial transport.
    NotSerialTransport,
}

/// The text that a dispatch failure carries to the command boundary.
pub open spec fn dispatch_error_text(e: DispatchError) -> Seq<char> {
    match e {
        DispatchError::CapacityExceeded => "Capacity is too large!"@,
        DispatchError::NoActiveConnection => "No active connection found!"@,
        DispatchError::WriteError => "Failed to write to port"@,
        DispatchError::NotSerialTransport => "Not implemented"@,
    }
}

impl DispatchError {
    /// The human-readable description of this failure.
    pub fn message(&self) -> (r: &'static str)
        ensures
            r@ == dispatch_error_text(*self),
    {
        match self {
            DispatchError::CapacityExceeded => "Capacity is too large!",
            DispatchError::NoActiveConnection => "No active connection found!",
            DispatchError::WriteError => "Failed to write to port",
            DispatchError::NotSerialTransport => "Not implemented",
        }
    }
}

} // verus!
