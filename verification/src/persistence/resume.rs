//! Resuming key generation after a restart, and telling whether it is stuck.
use super::storage::{StorageError, StoredLocalKey};
use crate::types::{AuthorityId, AuthoritySet, AuthoritySetView, RoundId};
use vstd::prelude::*;

verus! {

/// Whether the node has already tried to resume.
#[derive(Clone, Copy, Debug, PartialEq, Eq)]
pub struct DKGPersistenceState {
    pub initial_check: bool,
}

impl DKGPersistenceState {
    /// A node that has not tried to resume.
    pub fn new() -> (state: Self)
        ensures
            !state.initial_check,
    {
        Self { initial_check: false }
    }
}

/// The two files under a node's base path that hold key shares.
#[derive(Clone, Copy, Debug, PartialEq, Eq)]
pub enum KeyFile {
    /// The share of the active round.
    Local,
    /// The share of the queued round.
    QueuedLocal,
}

/// A key file under the base path `base`.
#[derive(Debug, PartialEq, Eq)]
pub struct KeyPath<P> {
    pub base: P,
    pub file: KeyFile,
}

/// One key generation: who takes part, with which thresholds, and with which share.
#[derive(Debug, PartialEq, Eq)]
pub struct Rounds<K, P> {
    pub authorities: Vec<AuthorityId>,
    pub round_id: RoundId,
    /// The authority that this node is.
    pub public: AuthorityId,
    pub signature_threshold: u16,
    pub keygen_threshold: u16,
    pub local_key_path: Option<KeyPath<P>>,
    pub jailed_signers: Vec<AuthorityId>,
    pub local_key: Option<K>,
    /// The next set of signers has been generated.
    pub signing_set_ready: bool,
    /// The protocol is stuck at the key generation stage.
    pub stalled: bool,
}

/// Mathematical view of [`Rounds`].
#[verifier::ext_equal]
pub struct RoundsView<K, P> {
    pub authorities: Seq<AuthorityId>,
    pub round_id: RoundId,
    pub public: AuthorityId,
    pub signature_threshold: u16,
    pub keygen_threshold: u16,
    pub local_key_path: Option<KeyPath<P>>,
    pub jailed_signers: Seq<AuthorityId>,
    pub local_key: Option<K>,
    pub signing_set_ready: bool,
    pub stalled: bool,
}

impl<K, P> View for Rounds<K, P> {
    type V = RoundsView<K, P>;

    open spec fn view(&self) -> RoundsView<K, P> {
        RoundsView {
            authorities: self.authorities@,
            round_id: self.round_id,
            public: self.public,
            signature_threshold: self.signature_threshold,
            keygen_threshold: self.keygen_threshold,
            local_key_path: self.local_key_path,
            jailed_signers: self.jailed_signers@,
            local_key: self.local_key,
            signing_set_ready: self.signing_set_ready,
            stalled: self.stalled,
        }
    }
}

impl<K, P> Rounds<K, P> {
    /// Whether the protocol is stuck at the key generation stage.
    pub fn has_stalled(&self) -> (stalled: bool)
        ensures
            stalled == self.stalled,
    {
        self.stalled
    }

    /// Installs the node's key share.
    pub fn set_local_key(&mut self, local_key: K)
        ensures
            final(self)@ == (RoundsView { local_key: Some(local_key), ..old(self)@ }),
    {
        self.local_key = Some(local_key);
    }

    /// Replaces the authorities that may not sign. Once the key share is there, this also
    /// generates the next set of signers.
    pub fn set_jailed_signers(&mut self, jailed_signers: Vec<AuthorityId>)
        ensures
            final(self)@ == (RoundsView {
                jailed_signers: jailed_signers@,
                signing_set_ready: old(self)@.local_key is Some,
                ..old(self)@
            }),
    {
        self.jailed_signers = jailed_signers;
        self.signing_set_ready = self.local_key.is_some();
    }
}

/// The part of a node that resuming reads and changes. `K` is the type of a key share,
/// `P` that of a base path.
#[derive(Debug, PartialEq, Eq)]
pub struct DKGWorker<K, P> {
    pub dkg_persistence: DKGPersistenceState,
    pub rounds: Option<Rounds<K, P>>,
    pub next_rounds: Option<Rounds<K, P>>,
    pub has_local_keystore: bool,
    pub base_path: Option<P>,
    pub current_validator_set: AuthoritySet,
    pub queued_validator_set: AuthoritySet,
}

/// Mathematical view of a [`DKGWorker`].
#[verifier::ext_equal]
pub struct WorkerView<K, P> {
    pub dkg_persistence: DKGPersistenceState,
    pub rounds: Option<RoundsView<K, P>>,
    pub next_rounds: Option<RoundsView<K, P>>,
    pub has_local_keystore: bool,
    pub base_path: Option<P>,
    pub current_validator_set: AuthoritySetView,
    pub queued_validator_set: AuthoritySetView,
}

/// The view of optional rounds.
pub open spec fn rounds_view<K, P>(rounds: Option<Rounds<K, P>>) -> Option<RoundsView<K, P>> {
    match rounds {
        Some(rounds) => Some(rounds@),
        None => None,
    }
}

impl<K, P> View for DKGWorker<K, P> {
    type V = WorkerView<K, P>;

    open spec fn view(&self) -> WorkerView<K, P> {
        WorkerView {
            dkg_persistence: self.dkg_persistence,
            rounds: rounds_view(self.rounds),
            next_rounds: rounds_view(self.next_rounds),
            has_local_keystore: self.has_local_keystore,
            base_path: self.base_path,
            current_validator_set: self.current_validator_set@,
            queued_validator_set: self.queued_validator_set@,
        }
    }
}

/// What the chain says about one of the two rounds.
pub struct RoundsSetup {
    /// The best authorities of the round's set.
    pub best_authorities: Vec<AuthorityId>,
    pub signature_threshold: u16,
    pub keygen_threshold: u16,
    /// The best authorities that may not sign.
    pub jailed_signers: Vec<AuthorityId>,
}

/// Mathematical view of a [`RoundsSetup`].
#[verifier::ext_equal]
pub struct RoundsSetupView {
    pub best_authorities: Seq<AuthorityId>,
    pub signature_threshold: u16,
    pub keygen_threshold: u16,
    pub jailed_signers: Seq<AuthorityId>,
}

impl View for RoundsSetup {
    type V = RoundsSetupView;

    open spec fn view(&self) -> RoundsSetupView {
        RoundsSetupView {
            best_authorities: self.best_authorities@,
            signature_threshold: self.signature_threshold,
            keygen_threshold: self.keygen_threshold,
            jailed_signers: self.jailed_signers@,
        }
    }
}

/// What a node learns from the chain, its keystore and its disk when it resumes.
pub struct ResumeData<K, E> {
    pub active: AuthoritySet,
    pub queued: AuthoritySet,
    /// The authority that this node is.
    pub public: AuthorityId,
    /// What loading [`KeyFile::Local`] gave.
    pub local_key: Result<StoredLocalKey<K>, StorageError<E>>,
    /// What loading [`KeyFile::QueuedLocal`] gave.
    pub queued_local_key: Result<StoredLocalKey<K>, StorageError<E>>,
    pub active_setup: RoundsSetup,
    pub queued_setup: RoundsSetup,
}

/// Mathematical view of a [`ResumeData`]. Why a key share was not loaded plays no role.
#[verifier::ext_equal]
pub struct ResumeDataView<K> {
    pub active: AuthoritySetView,
    pub queued: AuthoritySetView,
    pub public: AuthorityId,
    pub local_key: Option<StoredLocalKey<K>>,
    pub queued_local_key: Option<StoredLocalKey<K>>,
    pub active_setup: RoundsSetupView,
    pub queued_setup: RoundsSetupView,
}

/// The value of a result, if it has one.
pub open spec fn ok_value<T, X>(result: Result<T, X>) -> Option<T> {
    match result {
        Ok(value) => Some(value),
        Err(_) => None,
    }
}

impl<K, E> View for ResumeData<K, E> {
    type V = ResumeDataView<K>;

    open spec fn view(&self) -> ResumeDataView<K> {
        ResumeDataView {
            active: self.active@,
            queued: self.queued@,
            public: self.public,
            local_key: ok_value(self.local_key),
            queued_local_key: ok_value(self.queued_local_key),
            active_setup: self.active_setup@,
            queued_setup: self.queued_setup@,
        }
    }
}

/// The view of optional data.
pub open spec fn data_view<K, E>(data: Option<ResumeData<K, E>>) -> Option<ResumeDataView<K>> {
    match data {
        Some(data) => Some(data@),
        None => None,
    }
}

/// The shares that are left for the active and the queued round, while round `round_id`
/// is active. A queued share of the active round takes the active share's place; an
/// outdated queued share discards both; otherwise an outdated active share is discarded.
pub open spec fn reconciled<K>(
    round_id: RoundId,
    local_key: Option<StoredLocalKey<K>>,
    queued_local_key: Option<StoredLocalKey<K>>,
) -> (Option<StoredLocalKey<K>>, Option<StoredLocalKey<K>>) {
    let current = if local_key is Some && local_key->0.round_id < round_id {
        None
    } else {
        local_key
    };
    match queued_local_key {
        None => (current, None),
        Some(queued) => if queued.round_id < round_id {
            (None, None)
        } else if queued.round_id == round_id {
            (Some(queued), None)
        } else {
            (current, Some(queued))
        },
    }
}

/// The rounds with which a node goes on: it has to be one of the best authorities and
/// to hold a share of round `round_id` itself.
pub open spec fn restored<K, P>(
    round_id: RoundId,
    public: AuthorityId,
    path: KeyPath<P>,
    setup: RoundsSetupView,
    key: Option<StoredLocalKey<K>>,
) -> Option<RoundsView<K, P>> {
    match key {
        Some(key) if key.round_id == round_id && setup.best_authorities.contains(public) => Some(
            RoundsView {
                authorities: setup.best_authorities,
                round_id,
                public,
                signature_threshold: setup.signature_threshold,
                keygen_threshold: setup.keygen_threshold,
                local_key_path: Some(path),
                jailed_signers: setup.jailed_signers,
                local_key: Some(key.local_key),
                signing_set_ready: true,
                stalled: false,
            },
        ),
        _ => None,
    }
}

impl<K, P> WorkerView<K, P> {
    /// The node has not tried to resume yet, runs no rounds, and has a keystore and a
    /// base path.
    pub open spec fn can_resume(self) -> bool {
        &&& !self.dkg_persistence.initial_check
        &&& self.rounds is None
        &&& self.next_rounds is None
        &&& self.has_local_keystore
        &&& self.base_path is Some
    }

    /// The node once it has tried to resume with `data`.
    pub open spec fn resumed(self, data: Option<ResumeDataView<K>>) -> WorkerView<K, P> {
        let checked = WorkerView {
            dkg_persistence: DKGPersistenceState { initial_check: true },
            ..self
        };
        match data {
            Some(data) if self.can_resume() => {
                let base = self.base_path->0;
                let (local_key, queued_local_key) = reconciled(
                    data.active.id,
                    data.local_key,
                    data.queued_local_key,
                );
                WorkerView {
                    current_validator_set: data.active,
                    queued_validator_set: data.queued,
                    rounds: restored(
                        data.active.id,
                        data.public,
                        KeyPath { base, file: KeyFile::Local },
                        data.active_setup,
                        local_key,
                    ),
                    next_rounds: restored(
                        data.queued.id,
                        data.public,
                        KeyPath { base, file: KeyFile::QueuedLocal },
                        data.queued_setup,
                        queued_local_key,
                    ),
                    ..checked
                }
            },
            _ => checked,
        }
    }
}

/// Whether the two keys are the same.
fn same_authority(a: &AuthorityId, b: &AuthorityId) -> (same: bool)
    ensures
        same == (*a == *b),
{
    let mut i: usize = 0;
    while i < 33
        invariant
            i <= 33,
            forall|j: int| 0 <= j < i ==> a.bytes@[j] == b.bytes@[j],
        decreases 33 - i,
    {
        if a.bytes[i] != b.bytes[i] {
            return false;
        }
        i += 1;
    }
    assert(a.bytes =~= b.bytes);
    true
}

/// The first position of `authority` in `set`.
pub fn find_index(set: &[AuthorityId], authority: &AuthorityId) -> (index: Option<usize>)
    ensures
        match index {
            Some(i) => {
                &&& i < set@.len()
                &&& set@[i as int] == *authority
                &&& forall|j: int| 0 <= j < i ==> set@[j] != *authority
            },
            None => !set@.contains(*authority),
        },
{
    let mut i: usize = 0;
    while i < set.len()
        invariant
            i <= set@.len(),
            forall|j: int| 0 <= j < i ==> set@[j] != *authority,
        decreases set@.len() - i,
    {
        if same_authority(&set[i], authority) {
            return Some(i);
        }
        i += 1;
    }
    None
}

/// Decides which shares are left for the active and the queued round.
pub fn reconcile_keys<K>(
    round_id: RoundId,
    local_key: Option<StoredLocalKey<K>>,
    queued_local_key: Option<StoredLocalKey<K>>,
) -> (keys: (Option<StoredLocalKey<K>>, Option<StoredLocalKey<K>>))
    ensures
        keys == reconciled(round_id, local_key, queued_local_key),
{
    // Check if the active key is outdated
    let local_key = match local_key {
        Some(key) => if key.round_id < round_id {
            None
        } else {
            Some(key)
        },
        None => None,
    };
    // The queued key takes the active key's place if it matches the active round
    match queued_local_key {
        Some(queued) => if queued.round_id == round_id {
            (Some(queued), None)
        } else if queued.round_id < round_id {
            (None, None)
        } else {
            (local_key, Some(queued))
        },
        None => (local_key, None),
    }
}

/// Rounds among `best_authorities`, without a share yet.
pub fn set_up_rounds<K, P>(
    best_authorities: &Vec<AuthorityId>,
    round_id: RoundId,
    public: &AuthorityId,
    signature_threshold: u16,
    keygen_threshold: u16,
    local_key_path: Option<KeyPath<P>>,
    jailed_signers: &Vec<AuthorityId>,
) -> (rounds: Rounds<K, P>)
    ensures
        rounds@ == (RoundsView {
            authorities: best_authorities@,
            round_id,
            public: *public,
            signature_threshold,
            keygen_threshold,
            local_key_path,
            jailed_signers: jailed_signers@,
            local_key: None::<K>,
            signing_set_ready: false,
            stalled: false,
        }),
{
    Rounds {
        authorities: best_authorities.clone(),
        round_id,
        public: *public,
        signature_threshold,
        keygen_threshold,
        local_key_path,
        jailed_signers: jailed_signers.clone(),
        local_key: None,
        signing_set_ready: false,
        stalled: false,
    }
}

/// The rounds with which the node goes on, if it was selected and holds a share of the
/// round.
pub fn restore_rounds<K, P>(
    round_id: RoundId,
    public: &AuthorityId,
    path: KeyPath<P>,
    setup: RoundsSetup,
    key: Option<StoredLocalKey<K>>,
) -> (rounds: Option<Rounds<K, P>>)
    ensures
        rounds_view(rounds) == restored(round_id, *public, path, setup@, key),
{
    // Create the rounds only if the authority is selected in the best set
    match find_index(setup.best_authorities.as_slice(), public) {
        None => None,
        Some(_) => {
            assert(setup.best_authorities@.contains(*public));
            let mut rounds: Rounds<K, P> = set_up_rounds(
                &setup.best_authorities,
                round_id,
                public,
                setup.signature_threshold,
                setup.keygen_threshold,
                Some(path),
                &setup.jailed_signers,
            );
            match key {
                Some(key) => {
                    if key.round_id != round_id {
                        return None;
                    }
                    rounds.set_local_key(key.local_key);
                    // With the share in place, this also generates the next signing set
                    rounds.set_jailed_signers(setup.jailed_signers);
                    Some(rounds)
                },
                None => None,
            }
        },
    }
}

impl<K, P: Copy> DKGWorker<K, P> {
    /// Whether the node would resume now. A node that would not needs no data for it.
    pub fn can_resume(&self) -> (can: bool)
        ensures
            can == self@.can_resume(),
    {
        !self.dkg_persistence.initial_check && self.rounds.is_none() && self.next_rounds.is_none()
            && self.has_local_keystore && self.base_path.is_some()
    }
}

/// Tries to resume the key generation, once, with what is stored of the current round.
/// `data` is `None` if the chain knows no validator sets.
pub fn try_resume_dkg<K, P: Copy, E>(
    worker: &mut DKGWorker<K, P>,
    data: Option<ResumeData<K, E>>,
)
    ensures
        final(worker)@ == old(worker)@.resumed(data_view(data)),
        !old(worker)@.can_resume() || data is None ==> {
            &&& final(worker).rounds == old(worker).rounds
            &&& final(worker).next_rounds == old(worker).next_rounds
            &&& final(worker).current_validator_set == old(worker).current_validator_set
            &&& final(worker).queued_validator_set == old(worker).queued_validator_set
        },
{
    // We only try to resume once, even if there is no data to recover
    if worker.dkg_persistence.initial_check {
        return;
    }
    worker.dkg_persistence.initial_check = true;

    // If the rounds are already set, there is nothing to resume
    if worker.rounds.is_some() || worker.next_rounds.is_some() {
        return;
    }
    // Without a base path or a keystore there is nothing to resume from
    if !worker.has_local_keystore {
        return;
    }
    let base: P = match worker.base_path {
        Some(base) => base,
        None => return,
    };
    if let Some(data) = data {
        let round_id: RoundId = data.active.id;
        let queued_round_id: RoundId = data.queued.id;
        worker.current_validator_set = data.active;
        worker.queued_validator_set = data.queued;

        // The stored keys, and whether their rounds match the authority sets
        let local_key = match data.local_key {
            Ok(key) => Some(key),
            Err(_) => None,
        };
        let queued_local_key = match data.queued_local_key {
            Ok(key) => Some(key),
            Err(_) => None,
        };
        let (local_key, queued_local_key) = reconcile_keys(round_id, local_key, queued_local_key);

        worker.rounds =
        restore_rounds(
            round_id,
            &data.public,
            KeyPath { base, file: KeyFile::Local },
            data.active_setup,
            local_key,
        );
        worker.next_rounds =
        restore_rounds(
            queued_round_id,
            &data.public,
            KeyPath { base, file: KeyFile::QueuedLocal },
            data.queued_setup,
            queued_local_key,
        );
    }
}

/// The rounds are there and stuck.
pub open spec fn is_stalled<K, P>(rounds: Option<RoundsView<K, P>>) -> bool {
    rounds is Some && rounds->0.stalled
}

/// Tells whether the active and the next rounds should be restarted because they are
/// stuck at the key generation stage. The node keeps its rounds.
pub fn should_restart_dkg<K, P>(worker: &mut DKGWorker<K, P>) -> (restart: (bool, bool))
    ensures
        *final(worker) == *old(worker),
        restart == (is_stalled(old(worker)@.rounds), is_stalled(old(worker)@.next_rounds)),
        restart.0 <==> old(worker).rounds is Some && old(worker).rounds->0.stalled,
        restart.1 <==> old(worker).next_rounds is Some && old(worker).next_rounds->0.stalled,
{
    let rounds = worker.rounds.take();
    let next_rounds = worker.next_rounds.take();

    let should_restart_rounds = match rounds {
        Some(rounds) => {
            let stalled = rounds.has_stalled();
            worker.rounds = Some(rounds);
            stalled
        },
        None => false,
    };
    let should_restart_next_rounds = match next_rounds {
        Some(next_rounds) => {
            let stalled = next_rounds.has_stalled();
            worker.next_rounds = Some(next_rounds);
            stalled
        },
        None => false,
    };
    (should_restart_rounds, should_restart_next_rounds)
}

/// A node tries to resume at most once: a second attempt changes nothing, whatever has
/// been found in the meantime.
pub proof fn law_resumes_once<K, P>(
    worker: WorkerView<K, P>,
    first: Option<ResumeDataView<K>>,
    second: Option<ResumeDataView<K>>,
)
    ensures
        worker.resumed(first).dkg_persistence.initial_check,
        worker.resumed(first).resumed(second) == worker.resumed(first),
{
}

/// A node that cannot resume only remembers that it tried. In particular a node never
/// loses rounds that it runs.
pub proof fn law_attempt_leaves_the_rest<K, P>(
    worker: WorkerView<K, P>,
    data: Option<ResumeDataView<K>>,
)
    requires
        !worker.can_resume() || data is None,
    ensures
        worker.resumed(data) == (WorkerView {
            dkg_persistence: DKGPersistenceState { initial_check: true },
            ..worker
        }),
        worker.rounds is Some ==> worker.resumed(data).rounds == worker.rounds,
        worker.next_rounds is Some ==> worker.resumed(data).next_rounds == worker.next_rounds,
{
}

/// The keystore and the base path are never touched.
pub proof fn law_node_setup_is_kept<K, P>(
    worker: WorkerView<K, P>,
    data: Option<ResumeDataView<K>>,
)
    ensures
        worker.resumed(data).has_local_keystore == worker.has_local_keystore,
        worker.resumed(data).base_path == worker.base_path,
{
}

/// No outdated share is left: neither of a round before the active one, nor, for the
/// queued round, of the active one itself. What is left was stored.
pub proof fn law_no_outdated_share<K>(
    round_id: RoundId,
    local_key: Option<StoredLocalKey<K>>,
    queued_local_key: Option<StoredLocalKey<K>>,
)
    ensures
        ({
            let (active, queued) = reconciled(round_id, local_key, queued_local_key);
            &&& active is Some ==> active->0.round_id >= round_id
            &&& active is Some ==> active == local_key || active == queued_local_key
            &&& queued is Some ==> queued->0.round_id > round_id && queued == queued_local_key
        }),
{
}

/// Reconciling is stable: shares that were reconciled are reconciled as they are.
pub proof fn law_reconciling_is_stable<K>(
    round_id: RoundId,
    local_key: Option<StoredLocalKey<K>>,
    queued_local_key: Option<StoredLocalKey<K>>,
)
    ensures
        ({
            let (active, queued) = reconciled(round_id, local_key, queued_local_key);
            reconciled(round_id, active, queued) == (active, queued)
        }),
{
}

/// When the queued round has become the active one, its share goes on as the active
/// share, and nothing is left for the queued round.
pub proof fn law_queued_share_becomes_active<K>(
    queued: StoredLocalKey<K>,
    local_key: Option<StoredLocalKey<K>>,
)
    ensures
        reconciled(queued.round_id, local_key, Some(queued)) == (
            Some(queued),
            None::<StoredLocalKey<K>>,
        ),
{
}

/// Rounds are restored for a node that is one of their authorities, under the id of
/// their authority set, with a share and the next signing set, and not stalled: there is
/// no call to restart them.
pub proof fn law_restored_rounds_can_go_on<K, P>(
    worker: WorkerView<K, P>,
    data: ResumeDataView<K>,
)
    requires
        worker.can_resume(),
    ensures
        ({
            let resumed = worker.resumed(Some(data));
            &&& resumed.rounds is Some ==> {
                &&& resumed.rounds->0.authorities.contains(data.public)
                &&& resumed.rounds->0.public == data.public
                &&& resumed.rounds->0.round_id == resumed.current_validator_set.id
                &&& resumed.rounds->0.local_key is Some
                &&& resumed.rounds->0.signing_set_ready
            }
            &&& resumed.next_rounds is Some ==> {
                &&& resumed.next_rounds->0.authorities.contains(data.public)
                &&& resumed.next_rounds->0.public == data.public
                &&& resumed.next_rounds->0.round_id == resumed.queued_validator_set.id
                &&& resumed.next_rounds->0.local_key is Some
                &&& resumed.next_rounds->0.signing_set_ready
            }
            &&& !is_stalled(resumed.rounds)
            &&& !is_stalled(resumed.next_rounds)
        }),
{
}

/// `stored` is a share of round `round_id`, and `rounds` go on with it.
pub open spec fn goes_on_with<K, P>(
    rounds: RoundsView<K, P>,
    stored: Option<StoredLocalKey<K>>,
    round_id: RoundId,
) -> bool {
    &&& stored is Some
    &&& stored->0.round_id == round_id
    &&& rounds.local_key == Some(stored->0.local_key)
}

/// Each round goes on with a stored share of its own: the active rounds with one of the
/// current validator set's round, the next rounds with the queued one of the queued set's
/// round. Without such a share they are not restored.
pub proof fn law_shares_are_of_their_round<K, P>(
    worker: WorkerView<K, P>,
    data: ResumeDataView<K>,
)
    requires
        worker.can_resume(),
    ensures
        ({
            let resumed = worker.resumed(Some(data));
            let active_id = resumed.current_validator_set.id;
            let queued_id = resumed.queued_validator_set.id;
            &&& active_id == data.active.id && queued_id == data.queued.id
            &&& resumed.rounds is Some ==> {
                ||| goes_on_with(resumed.rounds->0, data.local_key, active_id)
                ||| goes_on_with(resumed.rounds->0, data.queued_local_key, active_id)
            }
            &&& resumed.next_rounds is Some ==> goes_on_with(
                resumed.next_rounds->0,
                data.queued_local_key,
                queued_id,
            )
        }),
{
}

} // verus!
