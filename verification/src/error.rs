//! The ways in which an operation can be refused.

use vstd::prelude::*;

verus! {

/// Why an operation was refused. A refused operation changes nothing.
#[derive(Clone, Copy, Debug, PartialEq, Eq, Structural, Hash)]
pub enum RecoveryError {
    /// The configuration has been set before.
    AlreadyConfigured,
    /// The identity already has a backup on record.
    AlreadyRegistered,
    /// The identity has no backup on record.
    NotRegistered,
    /// A recovery is already pending for the identity.
    AlreadyInitiated,
    /// No recovery is pending for the identity.
    NotInitiated,
    /// The pending recovery's timelock has not run out yet.
    TimelockNotExpired,
    /// Completing would take the attempt count past its ceiling.
    MaxAttemptsExceeded,
    /// The invocation is not authorized to act for the identity.
    Unauthorized,
}

impl RecoveryError {
    /// The text that describes the refusal to a caller.
    pub open spec fn text(self) -> Seq<char> {
        match self {
            RecoveryError::AlreadyConfigured => "Contract already initialized"@,
            RecoveryError::AlreadyRegistered => "User already has backup data registered"@,
            RecoveryError::NotRegistered => "No backup data found for user"@,
            RecoveryError::AlreadyInitiated => "Recovery already in progress"@,
            RecoveryError::NotInitiated => "Recovery not initiated"@,
            RecoveryError::TimelockNotExpired => "Timelock period has not expired yet"@,
            RecoveryError::MaxAttemptsExceeded => "Maximum recovery attempts exceeded"@,
            RecoveryError::Unauthorized => "Caller is not authorized to act for user"@,
        }
    }

    /// Describes the refusal in words.
    pub fn message(&self) -> (message: &'static str)
        ensures
            message@ == self.text(),
    {
        match self {
            RecoveryError::AlreadyConfigured => "Contract already initialized",
            RecoveryError::AlreadyRegistered => "User already has backup data registered",
            RecoveryError::NotRegistered => "No backup data found for user",
            RecoveryError::AlreadyInitiated => "Recovery already in progress",
            RecoveryError::NotInitiated => "Recovery not initiated",
            RecoveryError::TimelockNotExpired => "Timelock period has not expired yet",
            RecoveryError::MaxAttemptsExceeded => "Maximum recovery attempts exceeded",
            RecoveryError::Unauthorized => "Caller is not authorized to act for user",
        }
    }
}

} // verus!
