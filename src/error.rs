//! Errors of the connectivity manager, the factory store and the agent.

use vstd::prelude::*;

verus! {

/// Errors of the cloud connectivity manager.
#[derive(Debug, Clone, Copy, PartialEq, Eq, Structural)]
pub enum RmakerMqttError {
    AlreadyInitialized,
    NodeCredentialsNotFound,
    NotInitialized,
    OtherError,
}

/// Errors of the agent as a whole.
#[derive(Debug, Clone, Copy, PartialEq, Eq, Structural)]
pub enum RmakerError {
    AlreadyInitialized,
    Mqtt(RmakerMqttError),
    Factory(RmakerFactoryError),
}

/// Errors of the factory credential store.
#[derive(Debug, Clone, Copy, PartialEq, Eq, Structural)]
pub enum RmakerFactoryError {
    AlreadyInitialized,
    NotInitialized,
    PartitionNotFound,
    ValueReadError,
}

impl RmakerMqttError {
    /// Human-readable description.
    pub fn message(&self) -> (r: &'static str)
        ensures
            r@ == match *self {
            RmakerMqttError::AlreadyInitialized => "already started"@,
            RmakerMqttError::NodeCredentialsNotFound => "node credentails not found"@,
            RmakerMqttError::NotInitialized => "not initialized"@,
            RmakerMqttError::OtherError => "unknown error"@,
            },
    {
        match self {
            RmakerMqttError::AlreadyInitialized => "already started",
            RmakerMqttError::NodeCredentialsNotFound => "node credentails not found",
            RmakerMqttError::NotInitialized => "not initialized",
            RmakerMqttError::OtherError => "unknown error",
        }
    }
}

impl RmakerFactoryError {
    /// Human-readable description.
    pub fn message(&self) -> (r: &'static str)
        ensures
            r@ == match *self {
            RmakerFactoryError::AlreadyInitialized => "already initialized"@,
            RmakerFactoryError::NotInitialized => "not initialized"@,
            RmakerFactoryError::PartitionNotFound => "partition not found"@,
            RmakerFactoryError::ValueReadError => "value read error"@,
            },
    {
        match self {
            RmakerFactoryError::AlreadyInitialized => "already initialized",
            RmakerFactoryError::NotInitialized => "not initialized",
            RmakerFactoryError::PartitionNotFound => "partition not found",
            RmakerFactoryError::ValueReadError => "value read error",
        }
    }
}

impl RmakerError {
    /// Human-readable description.
    pub fn message(&self) -> (r: &'static str)
        ensures
            r@ == match *self {
            RmakerError::AlreadyInitialized => "already initialized"@,
            RmakerError::Mqtt(_) => "MQTT wrapper error"@,
            RmakerError::Factory(_) => "factory partition error"@,
            },
    {
        match self {
            RmakerError::AlreadyInitialized => "already initialized",
            RmakerError::Mqtt(_) => "MQTT wrapper error",
            RmakerError::Factory(_) => "factory partition error",
        }
    }
}

impl From<RmakerMqttError> for RmakerError {
    fn from(e: RmakerMqttError) -> (r: RmakerError)
        ensures
            r == RmakerError::Mqtt(e),
    {
        RmakerError::Mqtt(e)
    }
}

impl vstd::std_specs::convert::FromSpecImpl<RmakerMqttError> for RmakerError {
    open spec fn obeys_from_spec() -> bool {
        true
    }

    open spec fn from_spec(e: RmakerMqttError) -> RmakerError {
        RmakerError::Mqtt(e)
    }
}

impl From<RmakerFactoryError> for RmakerError {
    fn from(e: RmakerFactoryError) -> (r: RmakerError)
        ensures
            r == RmakerError::Factory(e),
    {
        RmakerError::Factory(e)
    }
}

impl vstd::std_specs::convert::FromSpecImpl<RmakerFactoryError> for RmakerError {
    open spec fn obeys_from_spec() -> bool {
        true
    }

    open spec fn from_spec(e: RmakerFactoryError) -> RmakerError {
        RmakerError::Factory(e)
    }
}

} // verus!
