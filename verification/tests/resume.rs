use dkg_gadget::persistence::resume::{
    find_index, reconcile_keys, set_up_rounds, should_restart_dkg, try_resume_dkg,
    DKGPersistenceState, DKGWorker, KeyFile, KeyPath, ResumeData, Rounds, RoundsSetup,
};
use dkg_gadget::persistence::storage::{StorageError, StoredLocalKey};
use dkg_gadget::types::{AuthorityId, AuthoritySet, Public};

type Worker = DKGWorker<u64, &'static str>;
type Data = ResumeData<u64, ()>;

fn authority(n: u8) -> AuthorityId {
    Public { bytes: [n; 33] }
}

fn set(id: u64) -> AuthoritySet {
    AuthoritySet { id, authorities: vec![authority(1), authority(2)] }
}

fn key(round_id: u64, local_key: u64) -> StoredLocalKey<u64> {
    StoredLocalKey { round_id, local_key }
}

fn fresh_worker() -> Worker {
    DKGWorker {
        dkg_persistence: DKGPersistenceState::new(),
        rounds: None,
        next_rounds: None,
        has_local_keystore: true,
        base_path: Some("base"),
        current_validator_set: set(0),
        queued_validator_set: set(1),
    }
}

fn setup(best: &[u8], thresholds: (u16, u16)) -> RoundsSetup {
    RoundsSetup {
        best_authorities: best.iter().map(|n| authority(*n)).collect(),
        signature_threshold: thresholds.0,
        keygen_threshold: thresholds.1,
        jailed_signers: vec![authority(best[0])],
    }
}

fn missing() -> Result<StoredLocalKey<u64>, StorageError<()>> {
    Err(StorageError::Io(()))
}

fn data() -> Data {
    ResumeData {
        active: set(5),
        queued: set(6),
        public: authority(1),
        local_key: Ok(key(5, 50)),
        queued_local_key: Ok(key(6, 60)),
        active_setup: setup(&[2, 1, 3], (1, 3)),
        queued_setup: setup(&[1, 4], (2, 4)),
    }
}

fn resumed_with(data: Data) -> Worker {
    let mut worker = fresh_worker();
    try_resume_dkg(&mut worker, Some(data));
    worker
}

type Loaded = Result<StoredLocalKey<u64>, StorageError<()>>;

/// The shares with which the active and the next rounds go on.
fn resumed_with_keys(local_key: Loaded, queued_local_key: Loaded) -> (Option<u64>, Option<u64>) {
    let mut found = data();
    found.local_key = local_key;
    found.queued_local_key = queued_local_key;
    let worker = resumed_with(found);
    (
        worker.rounds.and_then(|rounds| rounds.local_key),
        worker.next_rounds.and_then(|rounds| rounds.local_key),
    )
}

fn running(stalled: bool) -> Rounds<u64, &'static str> {
    let mut rounds =
        set_up_rounds(&vec![authority(1)], 3, &authority(1), 1, 2, None, &Vec::new());
    rounds.stalled = stalled;
    rounds
}

#[test]
fn new_node_has_not_tried_to_resume() {
    assert!(!DKGPersistenceState::new().initial_check);
}

#[test]
fn node_resumes_both_rounds() {
    let worker = resumed_with(data());
    assert!(worker.dkg_persistence.initial_check);
    assert_eq!(worker.current_validator_set, set(5));
    assert_eq!(worker.queued_validator_set, set(6));
    let expected = Rounds {
        authorities: vec![authority(2), authority(1), authority(3)],
        round_id: 5,
        public: authority(1),
        signature_threshold: 1,
        keygen_threshold: 3,
        local_key_path: Some(KeyPath { base: "base", file: KeyFile::Local }),
        jailed_signers: vec![authority(2)],
        local_key: Some(50),
        signing_set_ready: true,
        stalled: false,
    };
    assert_eq!(worker.rounds, Some(expected));
    let expected_next = Rounds {
        authorities: vec![authority(1), authority(4)],
        round_id: 6,
        public: authority(1),
        signature_threshold: 2,
        keygen_threshold: 4,
        local_key_path: Some(KeyPath { base: "base", file: KeyFile::QueuedLocal }),
        jailed_signers: vec![authority(1)],
        local_key: Some(60),
        signing_set_ready: true,
        stalled: false,
    };
    assert_eq!(worker.next_rounds, Some(expected_next));
}

#[test]
fn node_resumes_only_once() {
    let mut worker = fresh_worker();
    try_resume_dkg::<u64, &str, ()>(&mut worker, None);
    assert!(worker.dkg_persistence.initial_check);
    try_resume_dkg(&mut worker, Some(data()));
    assert_eq!(worker.rounds, None);
    assert_eq!(worker.next_rounds, None);
    assert_eq!(worker.current_validator_set, set(0));
}

#[test]
fn running_rounds_are_kept() {
    let mut worker = fresh_worker();
    worker.next_rounds = Some(running(false));
    assert!(!worker.can_resume());
    try_resume_dkg(&mut worker, Some(data()));
    assert!(worker.dkg_persistence.initial_check);
    assert_eq!(worker.rounds, None);
    assert_eq!(worker.next_rounds, Some(running(false)));
    assert_eq!(worker.current_validator_set, set(0));
}

#[test]
fn node_without_keystore_or_base_path_resumes_nothing() {
    let mut without_keystore = fresh_worker();
    without_keystore.has_local_keystore = false;
    let mut without_path = fresh_worker();
    without_path.base_path = None;
    for mut worker in [without_keystore, without_path] {
        assert!(!worker.can_resume());
        try_resume_dkg(&mut worker, Some(data()));
        assert!(worker.dkg_persistence.initial_check);
        assert_eq!(worker.rounds, None);
        assert_eq!(worker.current_validator_set, set(0));
    }
}

#[test]
fn fresh_node_can_resume() {
    let mut worker = fresh_worker();
    assert!(worker.can_resume());
    try_resume_dkg(&mut worker, Some(data()));
    assert!(!worker.can_resume());
}

#[test]
fn node_that_was_not_selected_resumes_no_rounds() {
    let mut found = data();
    found.active_setup = setup(&[2, 3], (1, 3));
    let worker = resumed_with(found);
    assert_eq!(worker.rounds, None);
    assert!(worker.next_rounds.is_some());
    assert_eq!(worker.current_validator_set, set(5));
}

#[test]
fn node_without_a_share_resumes_no_rounds() {
    let mut found = data();
    found.local_key = missing();
    found.queued_local_key = missing();
    let worker = resumed_with(found);
    assert_eq!(worker.rounds, None);
    assert_eq!(worker.next_rounds, None);
    assert_eq!(worker.queued_validator_set, set(6));
}

#[test]
fn queued_share_of_the_active_round_becomes_the_active_share() {
    let mut found = data();
    found.local_key = Ok(key(4, 40));
    found.queued_local_key = Ok(key(5, 51));
    let worker = resumed_with(found);
    assert_eq!(worker.rounds.unwrap().local_key, Some(51));
    assert_eq!(worker.next_rounds, None);
}

#[test]
fn shares_are_reconciled_with_the_active_round() {
    // Both shares fit
    assert_eq!(
        reconcile_keys(5, Some(key(5, 1)), Some(key(6, 2))),
        (Some(key(5, 1)), Some(key(6, 2)))
    );
    // The active share is outdated
    assert_eq!(reconcile_keys(5, Some(key(4, 1)), Some(key(6, 2))), (None, Some(key(6, 2))));
    assert_eq!(reconcile_keys(5, Some(key(4, 1)), None), (None, None));
    // The queued share belongs to the active round
    assert_eq!(reconcile_keys(5, Some(key(5, 1)), Some(key(5, 2))), (Some(key(5, 2)), None));
    assert_eq!(reconcile_keys(5, None, Some(key(5, 2))), (Some(key(5, 2)), None));
    // An outdated queued share discards both
    assert_eq!(reconcile_keys(5, Some(key(5, 1)), Some(key(4, 2))), (None, None));
    assert_eq!(reconcile_keys::<u64>(5, None, None), (None, None));
    // A share of a later round is not outdated, but no round goes on with it
    assert_eq!(reconcile_keys(5, Some(key(7, 1)), None), (Some(key(7, 1)), None));
    assert_eq!(resumed_with_keys(Ok(key(7, 1)), missing()), (None, None));
}

#[test]
fn share_of_another_round_is_not_used() {
    // Active round 5, queued round 6
    assert_eq!(resumed_with_keys(Ok(key(7, 70)), missing()), (None, None));
    assert_eq!(resumed_with_keys(Ok(key(6, 61)), missing()), (None, None));
    assert_eq!(resumed_with_keys(missing(), Ok(key(7, 70))), (None, None));
    assert_eq!(resumed_with_keys(Ok(key(5, 50)), Ok(key(7, 70))), (Some(50), None));
    assert_eq!(resumed_with_keys(Ok(key(7, 70)), Ok(key(6, 60))), (None, Some(60)));
}

#[test]
fn signing_set_is_generated_once_the_share_is_there() {
    let mut rounds = running(false);
    assert!(!rounds.signing_set_ready);
    rounds.set_jailed_signers(vec![authority(2)]);
    assert!(!rounds.signing_set_ready);
    rounds.set_local_key(9);
    assert!(!rounds.signing_set_ready);
    rounds.set_jailed_signers(vec![authority(2)]);
    assert!(rounds.signing_set_ready);
    assert_eq!(rounds.jailed_signers, vec![authority(2)]);
    assert_eq!(rounds.local_key, Some(9));
}

#[test]
fn reconciled_shares_are_reconciled_as_they_are() {
    let (active, queued) = reconcile_keys(5, Some(key(4, 1)), Some(key(5, 2)));
    assert_eq!(reconcile_keys(5, active, queued), (Some(key(5, 2)), None));
}

#[test]
fn authority_is_found_at_its_first_position() {
    let authorities = [authority(1), authority(2), authority(2)];
    assert_eq!(find_index(&authorities, &authority(2)), Some(1));
    assert_eq!(find_index(&authorities, &authority(3)), None);
    let mut last_byte_differs = authority(2);
    last_byte_differs.bytes[32] = 0;
    assert_eq!(find_index(&authorities, &last_byte_differs), None);
}

#[test]
fn stuck_rounds_should_be_restarted() {
    let mut worker = fresh_worker();
    assert_eq!(should_restart_dkg(&mut worker), (false, false));
    worker.rounds = Some(running(true));
    worker.next_rounds = Some(running(false));
    assert_eq!(should_restart_dkg(&mut worker), (true, false));
    assert_eq!(worker.rounds, Some(running(true)));
    assert_eq!(worker.next_rounds, Some(running(false)));
    worker.next_rounds = Some(running(true));
    assert_eq!(should_restart_dkg(&mut worker), (true, true));
}

#[test]
fn resumed_rounds_need_no_restart() {
    let mut worker = resumed_with(data());
    assert_eq!(should_restart_dkg(&mut worker), (false, false));
}
