//! What holds of the recovery state machine whatever the calls and their
//! order: each statement is proved from the rules.

use crate::error::RecoveryError;
use crate::model::{
    complete_next, complete_rejection, initiate_next, initiate_rejection, register_next,
    register_rejection, rejection, run, step, Call, ContractState,
};
use vstd::prelude::*;

verus! {

/// A call that is refused leaves the state exactly as it was.
pub proof fn refused_call_changes_nothing(pre: ContractState, call: Call)
    requires
        rejection(pre, call) is Some,
    ensures
        step(pre, call) == pre,
{
}

/// A call that is not authorized by the identity it acts for is refused as
/// unauthorized, whatever else is the matter with it, and changes nothing.
pub proof fn unauthorized_call_changes_nothing(pre: ContractState, call: Call)
    requires
        !call.is_authorized(),
    ensures
        rejection(pre, call) == Some(RecoveryError::Unauthorized),
        step(pre, call) == pre,
{
}

/// Registering twice: whatever the first registration met, the second one is
/// refused as already registered and changes nothing. Where the first one went
/// through, the backup, the nonce and the ceiling on record are its own, not
/// those of the second.
pub proof fn second_registration_is_refused(
    pre: ContractState,
    user: Seq<u8>,
    first_backup: Seq<u8>,
    first_nonce: Seq<u8>,
    first_max_attempts: nat,
    second_backup: Seq<u8>,
    second_nonce: Seq<u8>,
    second_max_attempts: nat,
)
    ensures
        ({
            let first = register_next(
                pre,
                user,
                user,
                first_backup,
                first_nonce,
                first_max_attempts,
            );
            let second = register_next(
                first,
                user,
                user,
                second_backup,
                second_nonce,
                second_max_attempts,
            );
            &&& register_rejection(first, user, user) == Some(RecoveryError::AlreadyRegistered)
            &&& second == first
            &&& register_rejection(pre, user, user) is None ==> {
                &&& second.record(user).encrypted_backup == first_backup
                &&& second.record(user).recovery_nonce == first_nonce
                &&& second.record(user).max_attempts == first_max_attempts
            }
        }),
{
}

/// What registration fixed stays fixed: a registered identity stays
/// registered through any sequence of calls, with the owner, the backup, the
/// nonce and the ceiling that it has now. The count of completions never goes
/// down.
pub proof fn registration_is_permanent(pre: ContractState, calls: Seq<Call>, user: Seq<u8>)
    requires
        pre.is_registered(user),
    ensures
        run(pre, calls).is_registered(user),
        run(pre, calls).record(user).same_registration(pre.record(user)),
        run(pre, calls).record(user).recovery_attempts >= pre.record(user).recovery_attempts,
    decreases calls.len(),
{
    if calls.len() > 0 {
        registration_is_permanent(pre, calls.drop_last(), user);
    }
}

/// The count of completions changes in one way only: a completion for that
/// identity that is not refused adds one to it.
pub proof fn attempts_count_completions(pre: ContractState, call: Call, user: Seq<u8>)
    requires
        pre.is_registered(user),
    ensures
        step(pre, call).record(user).recovery_attempts == pre.record(user).recovery_attempts + (
        if call is CompleteRecovery && call.concerns(user) && rejection(pre, call) is None {
            1nat
        } else {
            0nat
        }),
{
}

/// A call leaves the records of the identities that it is not about untouched,
/// and creates none for them.
pub proof fn other_records_are_untouched(pre: ContractState, call: Call, other: Seq<u8>)
    requires
        !call.concerns(other),
    ensures
        step(pre, call).is_registered(other) == pre.is_registered(other),
        pre.is_registered(other) ==> step(pre, call).record(other) == pre.record(other),
{
}

/// What a call does to the record of the identity that it is about depends on
/// the configuration and on that record alone: in two states that agree on
/// both, the call is refused for the same reason or not at all, and leaves the
/// same record behind.
pub proof fn calls_read_one_record(a: ContractState, b: ContractState, call: Call, user: Seq<u8>)
    requires
        call.concerns(user),
        a.config == b.config,
        a.is_registered(user) == b.is_registered(user),
        a.is_registered(user) ==> a.record(user) == b.record(user),
    ensures
        rejection(a, call) == rejection(b, call),
        step(a, call).is_registered(user) == step(b, call).is_registered(user),
        step(a, call).is_registered(user) ==> step(a, call).record(user) == step(b, call).record(
            user,
        ),
{
}

/// A call can be served from the part of the state that it is about. Made in
/// that part alone, it is refused for the same reason or not at all, it leaves
/// the same configuration behind, and the record that it leaves for its
/// identity is the one to put into the whole state; all else in the whole
/// state stays.
pub proof fn calls_work_on_a_part(whole: ContractState, call: Call, user: Seq<u8>)
    requires
        call.concerns(user) || call is Initialize,
        whole.is_registered(user) ==> whole.record(user).user_address == user,
    ensures
        ({
            let after = step(whole.part_of(user), call);
            &&& rejection(whole, call) == rejection(whole.part_of(user), call)
            &&& step(whole, call).config == after.config
            &&& step(whole, call).records == if after.is_registered(user) {
                whole.records.insert(user, after.record(user))
            } else {
                whole.records
            }
        }),
{
    let after = step(whole.part_of(user), call);
    let merged = if after.is_registered(user) {
        whole.records.insert(user, after.record(user))
    } else {
        whole.records
    };
    assert(step(whole, call).records =~= merged);
}

/// Every record stays under the identity that owns it.
pub proof fn records_stay_keyed_by_owner(pre: ContractState, call: Call)
    requires
        pre.keyed_by_owner(),
    ensures
        step(pre, call).keyed_by_owner(),
{
    let post = step(pre, call);
    assert forall|user: Seq<u8>| #[trigger] post.is_registered(user) implies post.record(
        user,
    ).user_address == user by {
        if pre.is_registered(user) {
            assert(pre.record(user).user_address == user);
        }
    }
}

/// The pending flag and the expiry stay in lockstep, and the count stays
/// within the ceiling.
///
/// One call is left out: an initiation served at time 0 under a period of 0.
/// It is not refused, and it sets a pending recovery whose expiry is 0.
pub proof fn records_stay_consistent(pre: ContractState, call: Call, user: Seq<u8>)
    requires
        pre.is_registered(user) ==> pre.record(user).in_lockstep() && pre.record(
            user,
        ).within_ceiling(),
        step(pre, call).is_registered(user),
        !(call matches Call::InitiateRecovery { now, .. } && pre.config matches Some(config) && now
            + config.default_timelock_period == 0),
    ensures
        step(pre, call).record(user).in_lockstep(),
        step(pre, call).record(user).within_ceiling(),
{
}

/// Before an identity has registered, initiating its recovery is refused as
/// not registered.
pub proof fn initiate_before_register_is_refused(pre: ContractState, now: nat, user: Seq<u8>)
    requires
        !pre.is_registered(user),
    ensures
        initiate_rejection(pre, user, user) == Some(RecoveryError::NotRegistered),
        initiate_next(pre, user, now, user) == pre,
{
}

/// After registration, with the period configured, initiating the recovery
/// goes through once: the recovery is then pending until the time of the call
/// plus the period, and initiating it again, at whatever time, is refused as
/// already initiated.
pub proof fn initiate_after_register_succeeds_once(
    pre: ContractState,
    user: Seq<u8>,
    encrypted_backup: Seq<u8>,
    recovery_nonce: Seq<u8>,
    max_attempts: nat,
    now: nat,
    later: nat,
)
    requires
        register_rejection(pre, user, user) is None,
        pre.config is Some,
    ensures
        ({
            let registered = register_next(
                pre,
                user,
                user,
                encrypted_backup,
                recovery_nonce,
                max_attempts,
            );
            let pending = initiate_next(registered, user, now, user);
            &&& initiate_rejection(registered, user, user) is None
            &&& pending.record(user).recovery_initiated
            &&& pending.record(user).timelock_expiry == now
                + pre.config->0.default_timelock_period
            &&& initiate_rejection(pending, user, user) == Some(RecoveryError::AlreadyInitiated)
            &&& initiate_next(pending, user, later, user) == pending
        }),
{
}

/// While a recovery is pending, initiating it is refused as already
/// initiated, however much time has gone by, and changes nothing.
pub proof fn initiate_while_pending_is_refused(pre: ContractState, now: nat, user: Seq<u8>)
    requires
        pre.is_registered(user),
        pre.record(user).recovery_initiated,
    ensures
        initiate_rejection(pre, user, user) == Some(RecoveryError::AlreadyInitiated),
        initiate_next(pre, user, now, user) == pre,
{
}

/// A pending recovery stays pending, with its expiry, until a completion for
/// that identity goes through.
pub proof fn pending_until_completed(pre: ContractState, call: Call, user: Seq<u8>)
    requires
        pre.is_registered(user),
        pre.record(user).recovery_initiated,
        !(call is CompleteRecovery && call.concerns(user) && rejection(pre, call) is None),
    ensures
        step(pre, call).record(user) == pre.record(user),
{
}

/// A completion that goes through returns the record to idle, with one more
/// completion counted, and the recovery can be initiated afresh.
pub proof fn completion_returns_to_idle(pre: ContractState, now: nat, user: Seq<u8>)
    requires
        complete_rejection(pre, user, now, user) is None,
    ensures
        ({
            let post = complete_next(pre, user, now, user);
            &&& !post.record(user).recovery_initiated
            &&& post.record(user).timelock_expiry == 0
            &&& post.record(user).recovery_attempts == pre.record(user).recovery_attempts + 1
            &&& post.record(user).recovery_attempts <= post.record(user).max_attempts
            &&& initiate_rejection(post, user, user) is None
        }),
{
}

/// Before the timelock has run out, completing the recovery is refused as
/// not expired, and the count of completions, with the rest of the state,
/// stays as it was.
pub proof fn complete_before_expiry_is_refused(pre: ContractState, now: nat, user: Seq<u8>)
    requires
        pre.is_registered(user),
        pre.record(user).recovery_initiated,
        now < pre.record(user).timelock_expiry,
    ensures
        complete_rejection(pre, user, now, user) == Some(RecoveryError::TimelockNotExpired),
        complete_next(pre, user, now, user) == pre,
{
}

/// Once the ceiling is reached with a recovery pending, the record is stuck:
/// through any sequence of calls it stays exactly as it is, and every
/// completion for it from the expiry on is refused as exceeding the ceiling.
pub proof fn exhausted_recovery_is_stuck(
    pre: ContractState,
    calls: Seq<Call>,
    now: nat,
    user: Seq<u8>,
)
    requires
        pre.is_registered(user),
        pre.record(user).recovery_initiated,
        pre.record(user).exhausted(),
        now >= pre.record(user).timelock_expiry,
    ensures
        run(pre, calls).is_registered(user),
        run(pre, calls).record(user) == pre.record(user),
        complete_rejection(run(pre, calls), user, now, user) == Some(
            RecoveryError::MaxAttemptsExceeded,
        ),
    decreases calls.len(),
{
    if calls.len() > 0 {
        exhausted_recovery_is_stuck(pre, calls.drop_last(), now, user);
    }
}

} // verus!
