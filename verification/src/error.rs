//! The failures a session can surface to the embedding application.

use vstd::prelude::*;
use vstd::string::StringExecFns;

verus! {

/// Everything that can go wrong between building a session and the guest's
/// return.
#[derive(Clone, Copy, Debug, PartialEq, Eq, Structural)]
pub enum SessionError {
    /// A capability interface could not be registered while a session was
    /// being built.
    ConfigurationError,
    /// The guest module is missing or is not a component.
    ModuleNotFound,
    /// The component's imports do not match what the linker offers.
    InstantiationError,
    /// The guest trapped while its entry point ran.
    GuestTrap,
    /// The entry point returned an error.
    EntryPointFailure,
    /// The surface capability was exercised while the handoff slot was empty.
    HandoffViolation,
    /// A stop signal found no receiver: the paired thread had already exited.
    ChannelClosed,
}

impl SessionError {
    /// Raised before any thread runs guest code, so the caller may simply
    /// request the spawn again.
    pub open spec fn is_synchronous(self) -> bool {
        self == SessionError::ConfigurationError || self == SessionError::ModuleNotFound || self
            == SessionError::InstantiationError
    }

    /// Harmless: the condition is treated as if nothing had happened.
    pub open spec fn is_benign(self) -> bool {
        self == SessionError::ChannelClosed
    }

    /// The text shown for this error in the status line.
    pub open spec fn message(self) -> Seq<char> {
        match self {
            SessionError::ConfigurationError => "capability registration failed"@,
            SessionError::ModuleNotFound => "Component file not found"@,
            SessionError::InstantiationError => "failed to instantiate the component"@,
            SessionError::GuestTrap => "guest trapped"@,
            SessionError::EntryPointFailure => "failed to invoke `run` function"@,
            SessionError::HandoffViolation => "surface requested from an empty handoff slot"@,
            SessionError::ChannelClosed => "stop signal had no receiver"@,
        }
    }

    pub fn retryable(&self) -> (b: bool)
        ensures
            b == self.is_synchronous(),
    {
        match self {
            SessionError::ConfigurationError => true,
            SessionError::ModuleNotFound => true,
            SessionError::InstantiationError => true,
            _ => false,
        }
    }

    pub fn benign(&self) -> (b: bool)
        ensures
            b == self.is_benign(),
    {
        match self {
            SessionError::ChannelClosed => true,
            _ => false,
        }
    }

    pub fn describe(&self) -> (text: String)
        ensures
            text@ == self.message(),
    {
        match self {
            SessionError::ConfigurationError => String::from_str("capability registration failed"),
            SessionError::ModuleNotFound => String::from_str("Component file not found"),
            SessionError::InstantiationError => String::from_str(
                "failed to instantiate the component",
            ),
            SessionError::GuestTrap => String::from_str("guest trapped"),
            SessionError::EntryPointFailure => String::from_str("failed to invoke `run` function"),
            SessionError::HandoffViolation => String::from_str(
                "surface requested from an empty handoff slot",
            ),
            SessionError::ChannelClosed => String::from_str("stop signal had no receiver"),
        }
    }
}

} // verus!
