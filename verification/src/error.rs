//! Typed errors for every fallible boundary of the protocol engine.

use vstd::prelude::*;

verus! {

/// Failure kinds for socket-level operations and frame handling.
#[derive(Clone, Copy, Debug, PartialEq, Eq, Structural)]
pub enum RobotErrorType {
    /// The connection attempt timed out or was refused.
    Connection,
    /// A socket write failed; the session is considered dead.
    Write,
    /// A socket read failed or came up short; the session is considered dead.
    Read,
    /// A frame header of fewer than three bytes was supplied.
    MalformedHeader,
    /// The operation is not offered by this engine.
    NotYetImplemented,
}

/// An error raised by the protocol engine.
#[derive(Clone, Copy, Debug, PartialEq, Eq, Structural)]
pub struct RobotError {
    pub err_type: RobotErrorType,
}

/// Constructor interface for robot errors.
pub trait RobotErrorHandler: Sized {
    /// What a freshly built error guarantees about its kind.
    spec fn new_ensures(error_type: RobotErrorType, r: Self) -> bool;

    fn new(error_type: RobotErrorType) -> (r: Self)
        ensures
            Self::new_ensures(error_type, r),
    ;
}

impl RobotErrorHandler for RobotError {
    open spec fn new_ensures(error_type: RobotErrorType, r: Self) -> bool {
        r.err_type == error_type
    }

    fn new(error_type: RobotErrorType) -> (r: Self) {
        RobotError { err_type: error_type }
    }
}

/// Failure kinds for configuration handling.
#[derive(Clone, Copy, Debug, PartialEq, Eq, Structural)]
pub enum ConfigErrorType {
    /// A stored value could not be read, or a point name is unknown.
    Read,
    /// The backing file could not be opened for writing.
    Open,
    /// The backing file does not exist.
    FileNotFound,
    /// The stored text does not describe a configuration.
    Deserialization,
    /// The configuration could not be turned into storable text.
    Serialization,
}

/// An error raised by configuration handling.
#[derive(Clone, Copy, Debug, PartialEq, Eq, Structural)]
pub struct ConfigError {
    pub err_type: ConfigErrorType,
}

/// Constructor interface for configuration errors.
pub trait ConfigErrorHandler: Sized {
    /// What a freshly built error guarantees about its kind.
    spec fn new_ensures(error_type: ConfigErrorType, r: Self) -> bool;

    fn new(error_type: ConfigErrorType) -> (r: Self)
        ensures
            Self::new_ensures(error_type, r),
    ;
}

impl ConfigErrorHandler for ConfigError {
    open spec fn new_ensures(error_type: ConfigErrorType, r: Self) -> bool {
        r.err_type == error_type
    }

    fn new(error_type: ConfigErrorType) -> (r: Self) {
        ConfigError { err_type: error_type }
    }
}

} // verus!
