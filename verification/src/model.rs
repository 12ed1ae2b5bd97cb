//! The rules of the recovery state machine, as mathematics.
//!
//! The state is the configuration and one record per registered identity. For
//! each operation a function says whether it is refused and why, and another
//! says what state it leaves behind. A refused operation leaves the state as
//! it found it.

use crate::error::RecoveryError;
use crate::record::{EventView, RecordView};
use vstd::prelude::*;

verus! {

/// The configuration as a mathematical value.
pub ghost struct ConfigView {
    pub admin: Seq<u8>,
    pub default_timelock_period: nat,
}

/// Everything that is kept between invocations.
#[verifier::ext_equal]
pub ghost struct ContractState {
    /// The configuration, once it has been set.
    pub config: Option<ConfigView>,
    /// The record of each registered identity.
    pub records: Map<Seq<u8>, RecordView>,
}

impl ContractState {
    /// The state before anything has happened.
    pub open spec fn empty() -> ContractState {
        ContractState { config: None, records: Map::empty() }
    }

    /// The state that holds `config` and at most one record, kept under the
    /// identity that it names as its owner.
    pub open spec fn holding(
        config: Option<ConfigView>,
        record: Option<RecordView>,
    ) -> ContractState {
        ContractState {
            config,
            records: match record {
                Some(record) => Map::<Seq<u8>, RecordView>::empty().insert(
                    record.user_address,
                    record,
                ),
                None => Map::<Seq<u8>, RecordView>::empty(),
            },
        }
    }

    /// The part of the state that a call about `user` has to do with: the
    /// configuration, and the record of `user` if there is one.
    pub open spec fn part_of(self, user: Seq<u8>) -> ContractState {
        ContractState::holding(
            self.config,
            if self.is_registered(user) {
                Some(self.record(user))
            } else {
                None
            },
        )
    }

    /// Whether `user` has a record.
    pub open spec fn is_registered(self, user: Seq<u8>) -> bool {
        self.records.dom().contains(user)
    }

    /// The record of `user`.
    pub open spec fn record(self, user: Seq<u8>) -> RecordView
        recommends
            self.is_registered(user),
    {
        self.records[user]
    }

    /// The state with `record` kept for `user`.
    pub open spec fn with_record(self, user: Seq<u8>, record: RecordView) -> ContractState {
        ContractState { records: self.records.insert(user, record), ..self }
    }

    /// Whether a timelock starting at `now` can be computed: the period is
    /// configured, and the expiry fits the clock's 64 bits.
    pub open spec fn can_start_timelock(self, now: nat) -> bool {
        match self.config {
            Some(config) => now + config.default_timelock_period <= u64::MAX,
            None => false,
        }
    }

    /// Every record is kept under the identity that owns it.
    pub open spec fn keyed_by_owner(self) -> bool {
        forall|user: Seq<u8>| #[trigger]
            self.is_registered(user) ==> self.record(user).user_address == user
    }
}

/// Why setting the configuration is refused, if it is.
pub open spec fn initialize_rejection(pre: ContractState) -> Option<RecoveryError> {
    if pre.config is Some {
        Some(RecoveryError::AlreadyConfigured)
    } else {
        None
    }
}

/// The state after an attempt to set the configuration.
pub open spec fn initialize_next(
    pre: ContractState,
    admin: Seq<u8>,
    default_timelock_period: nat,
) -> ContractState {
    if initialize_rejection(pre) is None {
        ContractState { config: Some(ConfigView { admin, default_timelock_period }), ..pre }
    } else {
        pre
    }
}

/// Why registering a backup for `user` is refused, if it is.
pub open spec fn register_rejection(pre: ContractState, caller: Seq<u8>, user: Seq<u8>) -> Option<
    RecoveryError,
> {
    if caller != user {
        Some(RecoveryError::Unauthorized)
    } else if pre.is_registered(user) {
        Some(RecoveryError::AlreadyRegistered)
    } else {
        None
    }
}

/// The state after an attempt to register a backup for `user`.
pub open spec fn register_next(
    pre: ContractState,
    caller: Seq<u8>,
    user: Seq<u8>,
    encrypted_backup: Seq<u8>,
    recovery_nonce: Seq<u8>,
    max_attempts: nat,
) -> ContractState {
    if register_rejection(pre, caller, user) is None {
        pre.with_record(
            user,
            RecordView::registered(user, encrypted_backup, recovery_nonce, max_attempts),
        )
    } else {
        pre
    }
}

/// Why initiating a recovery for `user` is refused, if it is. The clock plays
/// no part in it.
pub open spec fn initiate_rejection(pre: ContractState, caller: Seq<u8>, user: Seq<u8>) -> Option<
    RecoveryError,
> {
    if caller != user {
        Some(RecoveryError::Unauthorized)
    } else if !pre.is_registered(user) {
        Some(RecoveryError::NotRegistered)
    } else if pre.record(user).recovery_initiated {
        Some(RecoveryError::AlreadyInitiated)
    } else {
        None
    }
}

/// The state after an attempt, served at `now`, to initiate a recovery for
/// `user`. The timelock runs for the period that is configured at that moment.
pub open spec fn initiate_next(
    pre: ContractState,
    caller: Seq<u8>,
    now: nat,
    user: Seq<u8>,
) -> ContractState {
    match pre.config {
        Some(config) if initiate_rejection(pre, caller, user) is None => pre.with_record(
            user,
            pre.record(user).pending_until(now + config.default_timelock_period),
        ),
        _ => pre,
    }
}

/// Why completing the recovery of `user` at `now` is refused, if it is.
pub open spec fn complete_rejection(
    pre: ContractState,
    caller: Seq<u8>,
    now: nat,
    user: Seq<u8>,
) -> Option<RecoveryError> {
    if caller != user {
        Some(RecoveryError::Unauthorized)
    } else if !pre.is_registered(user) {
        Some(RecoveryError::NotRegistered)
    } else if !pre.record(user).recovery_initiated {
        Some(RecoveryError::NotInitiated)
    } else if !pre.record(user).unlocked_at(now) {
        Some(RecoveryError::TimelockNotExpired)
    } else if pre.record(user).exhausted() {
        Some(RecoveryError::MaxAttemptsExceeded)
    } else {
        None
    }
}

/// The state after an attempt, served at `now`, to complete the recovery of
/// `user`.
pub open spec fn complete_next(
    pre: ContractState,
    caller: Seq<u8>,
    now: nat,
    user: Seq<u8>,
) -> ContractState {
    if complete_rejection(pre, caller, now, user) is None {
        pre.with_record(user, pre.record(user).completed())
    } else {
        pre
    }
}

/// The notice of a completion for `user` that was served at `now`.
pub open spec fn completion_event(now: nat, user: Seq<u8>) -> EventView {
    EventView { user_address: user, timestamp: now, successful: true }
}

/// One invocation of the state machine.
pub ghost enum Call {
    Initialize { admin: Seq<u8>, default_timelock_period: nat },
    RegisterBackup {
        caller: Seq<u8>,
        user: Seq<u8>,
        encrypted_backup: Seq<u8>,
        recovery_nonce: Seq<u8>,
        max_attempts: nat,
    },
    InitiateRecovery { caller: Seq<u8>, now: nat, user: Seq<u8> },
    CompleteRecovery { caller: Seq<u8>, now: nat, user: Seq<u8> },
}

impl Call {
    /// Whether the invocation is authorized for what it asks. Setting the
    /// configuration asks for no authorization; the other calls act for `user`
    /// and must be authorized by `user`.
    pub open spec fn is_authorized(self) -> bool {
        match self {
            Call::Initialize { .. } => true,
            Call::RegisterBackup { caller, user, .. } => caller == user,
            Call::InitiateRecovery { caller, user, .. } => caller == user,
            Call::CompleteRecovery { caller, user, .. } => caller == user,
        }
    }

    /// Whether the call is about the record of `user`.
    pub open spec fn concerns(self, user: Seq<u8>) -> bool {
        match self {
            Call::Initialize { .. } => false,
            Call::RegisterBackup { user: target, .. } => target == user,
            Call::InitiateRecovery { user: target, .. } => target == user,
            Call::CompleteRecovery { user: target, .. } => target == user,
        }
    }
}

/// Why `call` is refused in `pre`, if it is.
pub open spec fn rejection(pre: ContractState, call: Call) -> Option<RecoveryError> {
    match call {
        Call::Initialize { .. } => initialize_rejection(pre),
        Call::RegisterBackup { caller, user, .. } => register_rejection(pre, caller, user),
        Call::InitiateRecovery { caller, user, .. } => initiate_rejection(pre, caller, user),
        Call::CompleteRecovery { caller, now, user } => complete_rejection(pre, caller, now, user),
    }
}

/// The state that `call` leaves behind when it is made in `pre`.
pub open spec fn step(pre: ContractState, call: Call) -> ContractState {
    match call {
        Call::Initialize { admin, default_timelock_period } => initialize_next(
            pre,
            admin,
            default_timelock_period,
        ),
        Call::RegisterBackup { caller, user, encrypted_backup, recovery_nonce, max_attempts } =>
            register_next(pre, caller, user, encrypted_backup, recovery_nonce, max_attempts),
        Call::InitiateRecovery { caller, now, user } => initiate_next(pre, caller, now, user),
        Call::CompleteRecovery { caller, now, user } => complete_next(pre, caller, now, user),
    }
}

/// The state after `calls` have been made one after the other, starting in
/// `pre`.
pub open spec fn run(pre: ContractState, calls: Seq<Call>) -> ContractState
    decreases calls.len(),
{
    if calls.len() == 0 {
        pre
    } else {
        step(run(pre, calls.drop_last()), calls.last())
    }
}

} // verus!
