use vstd::prelude::*;

verus! {

/// Why an operation on a backend did not yield a value.
#[derive(Debug, Clone, Copy, PartialEq, Eq, Structural)]
pub enum SettingsError {
    /// The bus or the configuration store could not be reached.
    TransportUnavailable,
    /// The backend does not know the interface, property, schema or key.
    TargetNotFound,
    /// The backend answered with a value that is not of the expected shape.
    DecodeFailure,
    /// The backend understood the request and refused it.
    RemoteRejected,
}

} // verus!
