use two_factor_backup::error::RecoveryError;
use two_factor_backup::identity::{Identity, Invocation};
use two_factor_backup::record::{RecoveryData, RecoveryEvent};
use two_factor_backup::store::{DataKey, RecordStore};

fn carol() -> Identity {
    Identity::new(b"carol".to_vec())
}

fn dave() -> Identity {
    Identity::new(b"dave".to_vec())
}

fn sample(user: Identity, max_attempts: u32) -> RecoveryData {
    RecoveryData::new(user, [3; 32], [4; 16], max_attempts)
}

#[test]
fn identities_compare_by_their_bytes() {
    assert!(carol().same_as(&carol()));
    assert!(!carol().same_as(&dave()));
    assert!(!Identity::new(vec![1, 2, 3]).same_as(&Identity::new(vec![1, 2])));
    assert!(!Identity::new(vec![1, 2]).same_as(&Identity::new(vec![1, 2, 3])));
    assert!(!Identity::new(vec![1, 2, 3]).same_as(&Identity::new(vec![1, 2, 4])));
    assert!(!Identity::new(vec![0, 2, 3]).same_as(&Identity::new(vec![1, 2, 3])));
    assert!(Identity::new(vec![]).same_as(&Identity::new(vec![])));
    assert!(!Identity::new(vec![]).same_as(&Identity::new(vec![0])));
}

#[test]
fn identity_keeps_its_bytes() {
    let identity = Identity::new(vec![5, 6, 7]);
    assert_eq!(identity.bytes, vec![5, 6, 7]);
    let copy = identity.clone();
    assert_eq!(copy, identity);
    assert!(copy.same_as(&identity));
}

#[test]
fn invocation_authorizes_its_caller_only() {
    let invocation = Invocation::new(carol(), 42);
    assert_eq!(invocation.caller, carol());
    assert_eq!(invocation.timestamp, 42);
    assert!(invocation.is_authorized_for(&carol()));
    assert!(!invocation.is_authorized_for(&dave()));
}

#[test]
fn new_record_is_idle() {
    let record = RecoveryData::new(carol(), [3; 32], [4; 16], 6);
    assert_eq!(record.user_address, carol());
    assert_eq!(record.encrypted_backup, [3; 32]);
    assert_eq!(record.recovery_nonce, [4; 16]);
    assert_eq!(record.timelock_expiry, 0);
    assert!(!record.recovery_initiated);
    assert_eq!(record.recovery_attempts, 0);
    assert_eq!(record.max_attempts, 6);
}

#[test]
fn record_and_event_clone_to_equal_values() {
    let record = RecoveryData {
        user_address: carol(),
        encrypted_backup: [1; 32],
        recovery_nonce: [2; 16],
        timelock_expiry: 77,
        recovery_initiated: true,
        recovery_attempts: 4,
        max_attempts: 9,
    };
    assert_eq!(record.clone(), record);
    let event = RecoveryEvent { user_address: dave(), timestamp: 5, successful: true };
    assert_eq!(event.clone(), event);
}

#[test]
fn keys_compare_by_their_identity() {
    let key = DataKey::UserRecovery(carol());
    assert!(key.same_as(&DataKey::UserRecovery(carol())));
    assert!(!key.same_as(&DataKey::UserRecovery(dave())));
    assert_eq!(key.clone(), key);
}

#[test]
fn empty_store_holds_nothing() {
    let store = RecordStore::new();
    assert!(!store.has(&DataKey::UserRecovery(carol())));
    assert_eq!(store.get(&DataKey::UserRecovery(carol())), None);
}

#[test]
fn store_hands_back_what_was_set() {
    let mut store = RecordStore::new();
    store.set(DataKey::UserRecovery(carol()), sample(carol(), 1));
    assert!(store.has(&DataKey::UserRecovery(carol())));
    assert!(!store.has(&DataKey::UserRecovery(dave())));
    assert_eq!(store.get(&DataKey::UserRecovery(carol())), Some(sample(carol(), 1)));
    assert_eq!(store.get(&DataKey::UserRecovery(dave())), None);
}

#[test]
fn store_replaces_under_the_same_key() {
    let mut store = RecordStore::new();
    store.set(DataKey::UserRecovery(carol()), sample(carol(), 1));
    store.set(DataKey::UserRecovery(dave()), sample(dave(), 2));
    store.set(DataKey::UserRecovery(carol()), sample(carol(), 3));
    assert_eq!(store.get(&DataKey::UserRecovery(carol())), Some(sample(carol(), 3)));
    assert_eq!(store.get(&DataKey::UserRecovery(dave())), Some(sample(dave(), 2)));
}

#[test]
fn store_keeps_many_keys_apart() {
    let mut store = RecordStore::new();
    for n in 0..50u8 {
        let user = Identity::new(vec![n, n.wrapping_mul(3)]);
        store.set(DataKey::UserRecovery(user.clone()), sample(user, n as u32));
    }
    for n in 0..50u8 {
        let user = Identity::new(vec![n, n.wrapping_mul(3)]);
        let found = store.get(&DataKey::UserRecovery(user.clone())).expect("it was set");
        assert_eq!(found.max_attempts, n as u32);
        assert_eq!(found.user_address, user);
    }
    assert!(!store.has(&DataKey::UserRecovery(Identity::new(vec![50, 150]))));
}

#[test]
fn every_refusal_has_its_own_message() {
    let all = [
        (RecoveryError::AlreadyConfigured, "Contract already initialized"),
        (RecoveryError::AlreadyRegistered, "User already has backup data registered"),
        (RecoveryError::NotRegistered, "No backup data found for user"),
        (RecoveryError::AlreadyInitiated, "Recovery already in progress"),
        (RecoveryError::NotInitiated, "Recovery not initiated"),
        (RecoveryError::TimelockNotExpired, "Timelock period has not expired yet"),
        (RecoveryError::MaxAttemptsExceeded, "Maximum recovery attempts exceeded"),
        (RecoveryError::Unauthorized, "Caller is not authorized to act for user"),
    ];
    for (error, message) in all {
        assert_eq!(error.message(), message);
    }
    for (i, (first, _)) in all.iter().enumerate() {
        for (j, (second, _)) in all.iter().enumerate() {
            assert_eq!(first == second, i == j);
        }
    }
}
