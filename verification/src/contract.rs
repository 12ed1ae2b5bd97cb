//! The recovery state machine: what it keeps, and the operations on it.

use crate::error::RecoveryError;
use crate::identity::{Identity, Invocation};
use crate::model::{
    complete_next, complete_rejection, completion_event, initialize_next, initialize_rejection,
    initiate_next, initiate_rejection, register_next, register_rejection, ConfigView,
    ContractState,
};
use crate::record::{RecoveryData, RecoveryEvent};
use crate::store::{DataKey, RecordStore};
use vstd::prelude::*;

verus! {

/// The configuration: who administers the state machine, and how long a
/// timelock runs.
#[derive(Debug, PartialEq, Eq)]
pub struct Config {
    /// The administrator.
    pub admin: Identity,
    /// How long, in seconds, a recovery has to wait after it was initiated.
    pub default_timelock_period: u64,
}

impl View for Config {
    type V = ConfigView;

    open spec fn view(&self) -> ConfigView {
        ConfigView {
            admin: self.admin@,
            default_timelock_period: self.default_timelock_period as nat,
        }
    }
}

impl Clone for Config {
    fn clone(&self) -> (copy: Self)
        ensures
            copy@ == self@,
    {
        Config {
            admin: self.admin.clone(),
            default_timelock_period: self.default_timelock_period,
        }
    }
}

/// What a successful registration asks of the host: to keep what is stored
/// alive. Where less than `threshold` ledgers of life are left, the host
/// extends it to `extend_to` ledgers.
#[derive(Clone, Copy, Debug, PartialEq, Eq, Structural)]
pub struct TtlExtension {
    pub threshold: u32,
    pub extend_to: u32,
}

/// The life, in ledgers, below which a registration asks for an extension.
pub const TTL_THRESHOLD: u32 = 5000;

/// The life, in ledgers, that a registration asks for.
pub const TTL_EXTEND_TO: u32 = 5000;

impl TtlExtension {
    /// The extension that every successful registration asks for.
    pub open spec fn on_registration() -> TtlExtension {
        TtlExtension { threshold: TTL_THRESHOLD, extend_to: TTL_EXTEND_TO }
    }
}

/// What a completed recovery hands back: the record as it now stands, for the
/// caller to decrypt, and the notice for the host to publish.
#[derive(Debug, PartialEq, Eq)]
pub struct CompletedRecovery {
    /// The record after the completion, backup and nonce included.
    pub record: RecoveryData,
    /// The notice of the completion.
    pub event: RecoveryEvent,
}

/// The recovery state machine, with all that it keeps between invocations:
/// the configuration, and at most one record per identity.
///
/// Every operation works on a copy of the record and stores the copy only
/// once nothing stands in the way any more: an operation that is refused
/// leaves no trace.
pub struct TwoFactorBackupContract {
    config: Option<Config>,
    records: RecordStore,
}

impl View for TwoFactorBackupContract {
    type V = ContractState;

    closed spec fn view(&self) -> ContractState {
        ContractState {
            config: match self.config {
                Some(config) => Some(config@),
                None => None,
            },
            records: self.records@,
        }
    }
}

impl TwoFactorBackupContract {
    /// A state machine that is not configured and keeps no record.
    pub fn new() -> (contract: Self)
        ensures
            contract@ == ContractState::empty(),
    {
        TwoFactorBackupContract { config: None, records: RecordStore::new() }
    }

    /// The state machine as a host keeps it for one identity: the
    /// configuration, if it is set, and the record of that identity, if it has
    /// one. The record is kept under the identity that it names as its owner.
    ///
    /// A host that stores the configuration and the records itself rebuilds
    /// with this what an invocation reads, and stores what the invocation
    /// leaves behind.
    pub fn restore(config: Option<Config>, record: Option<RecoveryData>) -> (contract: Self)
        ensures
            contract@ == ContractState::holding(
                match config {
                    Some(config) => Some(config@),
                    None => None,
                },
                match record {
                    Some(record) => Some(record@),
                    None => None,
                },
            ),
    {
        let mut records = RecordStore::new();
        match record {
            Some(record) => {
                let key = DataKey::UserRecovery(record.user_address.clone());
                records.set(key, record);
            },
            None => {},
        }
        TwoFactorBackupContract { config, records }
    }

    /// The configuration, if it has been set.
    pub fn config(&self) -> (config: Option<Config>)
        ensures
            match config {
                Some(config) => self@.config == Some(config@),
                None => self@.config is None,
            },
    {
        match &self.config {
            Some(config) => Some(config.clone()),
            None => None,
        }
    }

    /// Whether a record is kept under `key`.
    pub fn has(&self, key: &DataKey) -> (present: bool)
        ensures
            present == self@.is_registered(key@),
    {
        self.records.has(key)
    }

    /// A copy of the record kept under `key`, if there is one.
    pub fn get(&self, key: &DataKey) -> (found: Option<RecoveryData>)
        ensures
            match found {
                Some(record) => self@.is_registered(key@) && record@ == self@.record(key@),
                None => !self@.is_registered(key@),
            },
    {
        self.records.get(key)
    }

    /// Whether a timelock that starts at `now` can be computed: the period is
    /// configured, and the expiry fits the clock.
    pub fn can_start_timelock(&self, now: u64) -> (possible: bool)
        ensures
            possible == self@.can_start_timelock(now as nat),
    {
        match &self.config {
            Some(config) => now.checked_add(config.default_timelock_period).is_some(),
            None => false,
        }
    }

    /// Why initiating the recovery of `user` would be refused, if it would.
    /// Nothing is changed by asking.
    pub fn initiate_refusal(&self, invocation: &Invocation, user: &Identity) -> (refusal:
        Option<RecoveryError>)
        ensures
            refusal == initiate_rejection(self@, invocation.caller@, user@),
    {
        if !invocation.is_authorized_for(user) {
            return Some(RecoveryError::Unauthorized);
        }
        let key = DataKey::UserRecovery(user.clone());
        match self.records.get(&key) {
            None => Some(RecoveryError::NotRegistered),
            Some(recovery_data) => {
                if recovery_data.recovery_initiated {
                    Some(RecoveryError::AlreadyInitiated)
                } else {
                    None
                }
            },
        }
    }

    /// Sets the configuration: the administrator and the timelock period.
    ///
    /// This can be done once. Later attempts are refused and change nothing.
    pub fn initialize(&mut self, admin: Identity, default_timelock_period: u64) -> (result:
        Result<(), RecoveryError>)
        ensures
            final(self)@ == initialize_next(
                old(self)@,
                admin@,
                default_timelock_period as nat,
            ),
            match result {
                Ok(_) => initialize_rejection(old(self)@) is None,
                Err(error) => initialize_rejection(old(self)@) == Some(error),
            },
    {
        if self.config.is_some() {
            return Err(RecoveryError::AlreadyConfigured);
        }
        self.config = Some(Config { admin, default_timelock_period });
        Ok(())
    }

    /// Registers the encrypted backup of `user`, with the ceiling on
    /// completions that `user` chose. Any ceiling is taken, 0 too, with which
    /// no recovery can ever be completed.
    ///
    /// An identity registers once: a record that exists is never overwritten.
    /// The configuration plays no part, and need not be set.
    pub fn register_backup(
        &mut self,
        invocation: &Invocation,
        user: Identity,
        encrypted_backup: [u8; 32],
        recovery_nonce: [u8; 16],
        max_attempts: u32,
    ) -> (result: Result<TtlExtension, RecoveryError>)
        ensures
            final(self)@ == register_next(
                old(self)@,
                invocation.caller@,
                user@,
                encrypted_backup@,
                recovery_nonce@,
                max_attempts as nat,
            ),
            match result {
                Ok(extension) => {
                    &&& register_rejection(old(self)@, invocation.caller@, user@) is None
                    &&& extension == TtlExtension::on_registration()
                },
                Err(error) => register_rejection(old(self)@, invocation.caller@, user@) == Some(
                    error,
                ),
            },
    {
        if !invocation.is_authorized_for(&user) {
            return Err(RecoveryError::Unauthorized);
        }
        let key = DataKey::UserRecovery(user.clone());
        if self.records.has(&key) {
            return Err(RecoveryError::AlreadyRegistered);
        }
        let recovery_data = RecoveryData::new(user, encrypted_backup, recovery_nonce, max_attempts);
        self.records.set(key, recovery_data);
        Ok(TtlExtension { threshold: TTL_THRESHOLD, extend_to: TTL_EXTEND_TO })
    }

    /// Initiates the recovery of `user`: from now on it is pending, and it can
    /// be completed once the timelock has run out. The timelock runs for the
    /// period that is configured now, whatever it was at registration.
    ///
    /// Where nothing refuses the call, the period must be configured and the
    /// expiry must fit the clock.
    pub fn initiate_recovery(&mut self, invocation: &Invocation, user: Identity) -> (result:
        Result<(), RecoveryError>)
        requires
            initiate_rejection(old(self)@, invocation.caller@, user@) is None
                ==> old(self)@.can_start_timelock(invocation.timestamp as nat),
        ensures
            final(self)@ == initiate_next(
                old(self)@,
                invocation.caller@,
                invocation.timestamp as nat,
                user@,
            ),
            match result {
                Ok(_) => initiate_rejection(old(self)@, invocation.caller@, user@) is None,
                Err(error) => initiate_rejection(old(self)@, invocation.caller@, user@) == Some(
                    error,
                ),
            },
    {
        if !invocation.is_authorized_for(&user) {
            return Err(RecoveryError::Unauthorized);
        }
        let key = DataKey::UserRecovery(user);
        let mut recovery_data = match self.records.get(&key) {
            Some(recovery_data) => recovery_data,
            None => {
                return Err(RecoveryError::NotRegistered);
            },
        };
        if recovery_data.recovery_initiated {
            return Err(RecoveryError::AlreadyInitiated);
        }
        let default_timelock = self.config.as_ref().unwrap().default_timelock_period;
        let current_time = invocation.timestamp;
        recovery_data.timelock_expiry = current_time + default_timelock;
        recovery_data.recovery_initiated = true;
        self.records.set(key, recovery_data);
        Ok(())
    }

    /// Completes the pending recovery of `user` and hands back its record.
    ///
    /// The completion is counted on a copy of the record, and the copy is kept
    /// only when the count stays within the ceiling. A refusal, whatever its
    /// reason, leaves the record as it was: once the ceiling is reached the
    /// recovery stays pending for good.
    pub fn complete_recovery(&mut self, invocation: &Invocation, user: Identity) -> (result:
        Result<CompletedRecovery, RecoveryError>)
        ensures
            final(self)@ == complete_next(
                old(self)@,
                invocation.caller@,
                invocation.timestamp as nat,
                user@,
            ),
            match result {
                Ok(done) => {
                    &&& complete_rejection(
                        old(self)@,
                        invocation.caller@,
                        invocation.timestamp as nat,
                        user@,
                    ) is None
                    &&& done.record@ == old(self)@.record(user@).completed()
                    &&& done.event@ == completion_event(invocation.timestamp as nat, user@)
                },
                Err(error) => complete_rejection(
                    old(self)@,
                    invocation.caller@,
                    invocation.timestamp as nat,
                    user@,
                ) == Some(error),
            },
    {
        if !invocation.is_authorized_for(&user) {
            return Err(RecoveryError::Unauthorized);
        }
        let key = DataKey::UserRecovery(user.clone());
        let mut recovery_data = match self.records.get(&key) {
            Some(recovery_data) => recovery_data,
            None => {
                return Err(RecoveryError::NotRegistered);
            },
        };
        if !recovery_data.recovery_initiated {
            return Err(RecoveryError::NotInitiated);
        }
        let current_time = invocation.timestamp;
        if current_time < recovery_data.timelock_expiry {
            return Err(RecoveryError::TimelockNotExpired);
        }
        let attempts = match recovery_data.recovery_attempts.checked_add(1) {
            Some(attempts) => attempts,
            None => {
                return Err(RecoveryError::MaxAttemptsExceeded);
            },
        };
        if attempts > recovery_data.max_attempts {
            return Err(RecoveryError::MaxAttemptsExceeded);
        }
        recovery_data.recovery_attempts = attempts;
        recovery_data.recovery_initiated = false;
        recovery_data.timelock_expiry = 0;
        self.records.set(key, recovery_data.clone());
        let recovery_event = RecoveryEvent {
            user_address: user,
            timestamp: current_time,
            successful: true,
        };
        Ok(CompletedRecovery { record: recovery_data, event: recovery_event })
    }
}

} // verus!
