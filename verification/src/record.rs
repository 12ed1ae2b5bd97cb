//! The recovery record of one identity, and the event that a completed
//! recovery gives rise to.

use crate::identity::Identity;
use vstd::prelude::*;

verus! {

/// What is kept for one identity: its encrypted backup, and where its recovery
/// stands.
///
/// The backup and its nonce are opaque: they are stored and handed back, never
/// interpreted.
#[derive(Debug, PartialEq, Eq)]
pub struct RecoveryData {
    /// The principal that owns the record.
    pub user_address: Identity,
    /// The encrypted backup secret.
    pub encrypted_backup: [u8; 32],
    /// The nonce that the backup was encrypted with.
    pub recovery_nonce: [u8; 16],
    /// From when on a pending recovery can be completed; 0 while none is pending.
    pub timelock_expiry: u64,
    /// Whether a recovery is pending.
    pub recovery_initiated: bool,
    /// How many completions have been carried out.
    pub recovery_attempts: u32,
    /// The ceiling on completions, fixed at registration.
    pub max_attempts: u32,
}

/// A recovery record as a mathematical value.
pub ghost struct RecordView {
    pub user_address: Seq<u8>,
    pub encrypted_backup: Seq<u8>,
    pub recovery_nonce: Seq<u8>,
    pub timelock_expiry: nat,
    pub recovery_initiated: bool,
    pub recovery_attempts: nat,
    pub max_attempts: nat,
}

impl RecordView {
    /// The record that a registration creates: idle, with no completion counted.
    pub open spec fn registered(
        user: Seq<u8>,
        encrypted_backup: Seq<u8>,
        recovery_nonce: Seq<u8>,
        max_attempts: nat,
    ) -> RecordView {
        RecordView {
            user_address: user,
            encrypted_backup,
            recovery_nonce,
            timelock_expiry: 0,
            recovery_initiated: false,
            recovery_attempts: 0,
            max_attempts,
        }
    }

    /// The record with a recovery pending that can be completed from `expiry` on.
    pub open spec fn pending_until(self, expiry: nat) -> RecordView {
        RecordView { timelock_expiry: expiry, recovery_initiated: true, ..self }
    }

    /// The record after one more completion: back to idle, the completion counted.
    pub open spec fn completed(self) -> RecordView {
        RecordView {
            timelock_expiry: 0,
            recovery_initiated: false,
            recovery_attempts: self.recovery_attempts + 1,
            ..self
        }
    }

    /// Whether one more completion would take the count past the ceiling.
    pub open spec fn exhausted(self) -> bool {
        self.recovery_attempts + 1 > self.max_attempts
    }

    /// Whether the timelock of a pending recovery has run out at `now`.
    pub open spec fn unlocked_at(self, now: nat) -> bool {
        now >= self.timelock_expiry
    }

    /// The pending flag and the expiry go together: no recovery is pending
    /// exactly when the expiry is 0.
    pub open spec fn in_lockstep(self) -> bool {
        !self.recovery_initiated <==> self.timelock_expiry == 0
    }

    /// The completions counted so far are within the ceiling.
    pub open spec fn within_ceiling(self) -> bool {
        self.recovery_attempts <= self.max_attempts
    }

    /// What registration fixed for good: the owner, the backup, its nonce and
    /// the ceiling.
    pub open spec fn same_registration(self, other: RecordView) -> bool {
        &&& self.user_address == other.user_address
        &&& self.encrypted_backup == other.encrypted_backup
        &&& self.recovery_nonce == other.recovery_nonce
        &&& self.max_attempts == other.max_attempts
    }
}

impl View for RecoveryData {
    type V = RecordView;

    open spec fn view(&self) -> RecordView {
        RecordView {
            user_address: self.user_address@,
            encrypted_backup: self.encrypted_backup@,
            recovery_nonce: self.recovery_nonce@,
            timelock_expiry: self.timelock_expiry as nat,
            recovery_initiated: self.recovery_initiated,
            recovery_attempts: self.recovery_attempts as nat,
            max_attempts: self.max_attempts as nat,
        }
    }
}

impl Clone for RecoveryData {
    fn clone(&self) -> (copy: Self)
        ensures
            copy@ == self@,
    {
        RecoveryData {
            user_address: self.user_address.clone(),
            encrypted_backup: self.encrypted_backup,
            recovery_nonce: self.recovery_nonce,
            timelock_expiry: self.timelock_expiry,
            recovery_initiated: self.recovery_initiated,
            recovery_attempts: self.recovery_attempts,
            max_attempts: self.max_attempts,
        }
    }
}

impl RecoveryData {
    /// The record that registering `user` creates.
    pub fn new(
        user: Identity,
        encrypted_backup: [u8; 32],
        recovery_nonce: [u8; 16],
        max_attempts: u32,
    ) -> (record: RecoveryData)
        ensures
            record@ == RecordView::registered(
                user@,
                encrypted_backup@,
                recovery_nonce@,
                max_attempts as nat,
            ),
    {
        RecoveryData {
            user_address: user,
            encrypted_backup,
            recovery_nonce,
            timelock_expiry: 0,
            recovery_initiated: false,
            recovery_attempts: 0,
            max_attempts,
        }
    }
}

/// The notice that a recovery was completed, for the host to publish.
#[derive(Debug, PartialEq, Eq)]
pub struct RecoveryEvent {
    /// The principal whose backup was recovered.
    pub user_address: Identity,
    /// When the completion was served.
    pub timestamp: u64,
    /// Whether the completion went through.
    pub successful: bool,
}

/// A recovery event as a mathematical value.
pub ghost struct EventView {
    pub user_address: Seq<u8>,
    pub timestamp: nat,
    pub successful: bool,
}

impl View for RecoveryEvent {
    type V = EventView;

    open spec fn view(&self) -> EventView {
        EventView {
            user_address: self.user_address@,
            timestamp: self.timestamp as nat,
            successful: self.successful,
        }
    }
}

impl Clone for RecoveryEvent {
    fn clone(&self) -> (copy: Self)
        ensures
            copy@ == self@,
    {
        RecoveryEvent {
            user_address: self.user_address.clone(),
            timestamp: self.timestamp,
            successful: self.successful,
        }
    }
}

} // verus!
