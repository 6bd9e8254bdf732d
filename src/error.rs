//! Error kinds reported by drivers, the loader, the registry and dispatch.
use vstd::prelude::*;

verus! {

/// A failure reported by a driver during device I/O.
#[derive(Clone, Debug, PartialEq, Eq)]
pub enum DriverError {
    Connection(String),
    AddressNotFound(String),
    TypeMismatch(String),
    Timeout,
    AccessMode(String),
}

/// The stable kind of every failure the gateway reports.
#[derive(Clone, Copy, Debug, PartialEq, Eq, Structural)]
pub enum ErrorKind {
    Validation,
    NotFound,
    Duplicate,
    Driver,
    AccessMode,
}

/// Why a plugin could not be validated, loaded or registered.
#[derive(Clone, Debug, PartialEq, Eq)]
pub enum LoadError {
    /// No regular file exists at the path.
    MissingFile(String),
    /// The file's extension is not the platform's native-module suffix.
    WrongExtension(String),
    /// The module was loaded but does not expose the driver entry points.
    MissingEntryPoints(String),
    /// A driver is already registered under the protocol name.
    DuplicateProtocol(String),
}

/// Why a point read or write was not carried out.
#[derive(Clone, Debug, PartialEq, Eq)]
pub enum DispatchError {
    /// No driver is registered under the point's protocol name.
    NoSuchProtocol(String),
    /// The persistence layer knows no such point.
    NoSuchPoint(i64),
    /// The persistence layer knows no such device.
    NoSuchDevice(i64),
    /// A value's tag does not match the point's declared data type.
    TypeMismatch { point_id: i64, expected: crate::model::DataType },
    /// The point's access mode forbids the operation.
    AccessMode { point_id: i64, mode: crate::model::AccessMode },
    /// The driver failed; its error is passed on with the point and protocol.
    DriverFailure { point_id: i64, protocol: String, error: DriverError },
}

impl LoadError {
    pub open spec fn spec_kind(&self) -> ErrorKind {
        match self {
            LoadError::MissingFile(_) => ErrorKind::Validation,
            LoadError::WrongExtension(_) => ErrorKind::Validation,
            LoadError::MissingEntryPoints(_) => ErrorKind::Validation,
            LoadError::DuplicateProtocol(_) => ErrorKind::Duplicate,
        }
    }

    /// The stable kind of this error.
    #[verifier::when_used_as_spec(spec_kind)]
    pub fn kind(&self) -> (r: ErrorKind)
        ensures
            r == self.spec_kind(),
    {
        match self {
            LoadError::MissingFile(_) => ErrorKind::Validation,
            LoadError::WrongExtension(_) => ErrorKind::Validation,
            LoadError::MissingEntryPoints(_) => ErrorKind::Validation,
            LoadError::DuplicateProtocol(_) => ErrorKind::Duplicate,
        }
    }
}

impl DispatchError {
    pub open spec fn spec_kind(&self) -> ErrorKind {
        match self {
            DispatchError::NoSuchProtocol(_) => ErrorKind::NotFound,
            DispatchError::NoSuchPoint(_) => ErrorKind::NotFound,
            DispatchError::NoSuchDevice(_) => ErrorKind::NotFound,
            DispatchError::TypeMismatch { .. } => ErrorKind::Validation,
            DispatchError::AccessMode { .. } => ErrorKind::AccessMode,
            DispatchError::DriverFailure { .. } => ErrorKind::Driver,
        }
    }

    /// The stable kind of this error.
    #[verifier::when_used_as_spec(spec_kind)]
    pub fn kind(&self) -> (r: ErrorKind)
        ensures
            r == self.spec_kind(),
    {
        match self {
            DispatchError::NoSuchProtocol(_) => ErrorKind::NotFound,
            DispatchError::NoSuchPoint(_) => ErrorKind::NotFound,
            DispatchError::NoSuchDevice(_) => ErrorKind::NotFound,
            DispatchError::TypeMismatch { .. } => ErrorKind::Validation,
            DispatchError::AccessMode { .. } => ErrorKind::AccessMode,
            DispatchError::DriverFailure { .. } => ErrorKind::Driver,
        }
    }
}

} // verus!
