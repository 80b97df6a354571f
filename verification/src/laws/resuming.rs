//! Laws of resuming after a restart.
use crate::persistence::resume::{
    find_index, reconcile_keys, restore_rounds, set_up_rounds, should_restart_dkg, try_resume_dkg,
    DKGPersistenceState, DKGWorker, KeyFile, KeyPath, ResumeData, Rounds, RoundsSetup,
};
use crate::persistence::storage::StoredLocalKey;
use crate::types::{AuthorityId, RoundId};
use vstd::prelude::*;

verus! {

/// `rounds` are those of round `round_id` with all that `setup` says of them, for the node
/// `public`, with the key share `share` and its file `path`, and ready to go on.
pub open spec fn goes_on_as<K, P>(
    rounds: Rounds<K, P>,
    round_id: RoundId,
    public: AuthorityId,
    path: KeyPath<P>,
    setup: RoundsSetup,
    share: K,
) -> bool {
    &&& rounds.round_id == round_id
    &&& rounds.public == public
    &&& rounds.local_key_path == Some(path)
    &&& rounds.local_key == Some(share)
    &&& rounds.authorities@ == setup.best_authorities@
    &&& rounds.signature_threshold == setup.signature_threshold
    &&& rounds.keygen_threshold == setup.keygen_threshold
    &&& rounds.jailed_signers@ == setup.jailed_signers@
    &&& rounds.signing_set_ready
    &&& !rounds.stalled
}

/// The node is fresh: it has not tried to resume, runs no rounds, and has a keystore and a
/// base path.
pub open spec fn is_fresh<K, P>(worker: DKGWorker<K, P>) -> bool {
    &&& !worker.dkg_persistence.initial_check
    &&& worker.rounds is None
    &&& worker.next_rounds is None
    &&& worker.has_local_keystore
    &&& worker.base_path is Some
}

/// Every attempt is remembered, and none touches the keystore or the base path. An attempt
/// of a node that is not fresh, or without data, changes nothing else.
pub proof fn law_attempts_are_remembered<K, P: Copy, E>(
    worker: &mut DKGWorker<K, P>,
    data: Option<ResumeData<K, E>>,
)
    requires
        call_ensures(try_resume_dkg::<K, P, E>, (worker, data), ()),
    ensures
        final(worker).dkg_persistence.initial_check,
        final(worker).has_local_keystore == old(worker).has_local_keystore,
        final(worker).base_path == old(worker).base_path,
        !is_fresh(*old(worker)) || data is None ==> {
            &&& final(worker).rounds == old(worker).rounds
            &&& final(worker).next_rounds == old(worker).next_rounds
            &&& final(worker).current_validator_set == old(worker).current_validator_set
            &&& final(worker).queued_validator_set == old(worker).queued_validator_set
        },
        call_requires(try_resume_dkg::<K, P, E>, (worker, data)),
{
}

/// A fresh node takes over the validator sets, whatever its files held.
pub proof fn law_fresh_nodes_take_over_the_sets<K, P: Copy, E>(
    worker: &mut DKGWorker<K, P>,
    data: ResumeData<K, E>,
)
    requires
        call_ensures(try_resume_dkg::<K, P, E>, (worker, Some(data)), ()),
        is_fresh(*old(worker)),
    ensures
        final(worker).current_validator_set.id == data.active.id,
        final(worker).current_validator_set.authorities@ == data.active.authorities@,
        final(worker).queued_validator_set.id == data.queued.id,
        final(worker).queued_validator_set.authorities@ == data.queued.authorities@,
{
}

/// A fresh node that is one of the best active authorities goes on with the active round
/// if a share of that round was stored: the queued one, else the local one unless an
/// outdated queued share says that the files are old. Without such a share, or for another
/// node, there are no active rounds.
pub proof fn law_active_rounds_are_resumed<K, P: Copy, E>(
    worker: &mut DKGWorker<K, P>,
    data: ResumeData<K, E>,
)
    requires
        call_ensures(try_resume_dkg::<K, P, E>, (worker, Some(data)), ()),
        is_fresh(*old(worker)),
    ensures
        ({
            let (id, local, queued) = (data.active.id, data.local_key, data.queued_local_key);
            let path = KeyPath { base: old(worker).base_path->0, file: KeyFile::Local };
            let selected = data.active_setup.best_authorities@.contains(data.public);
            let by_queued = queued is Ok && queued->Ok_0.round_id == id;
            let by_local = local is Ok && local->Ok_0.round_id == id && (queued is Err
                || queued->Ok_0.round_id > id);
            let after = final(worker).rounds;
            &&& selected && by_queued ==> after is Some && goes_on_as(
                after->0,
                id,
                data.public,
                path,
                data.active_setup,
                queued->Ok_0.local_key,
            )
            &&& selected && by_local ==> after is Some && goes_on_as(
                after->0,
                id,
                data.public,
                path,
                data.active_setup,
                local->Ok_0.local_key,
            )
            &&& after is Some ==> selected && (by_queued || by_local)
        }),
{
}

/// A fresh node that is one of the best queued authorities goes on with the queued round
/// if the queued file held a share of that round and the round is after the active one,
/// whatever became of the local file. Without such a share, or for another node, there are
/// no next rounds.
pub proof fn law_next_rounds_are_resumed<K, P: Copy, E>(
    worker: &mut DKGWorker<K, P>,
    data: ResumeData<K, E>,
)
    requires
        call_ensures(try_resume_dkg::<K, P, E>, (worker, Some(data)), ()),
        is_fresh(*old(worker)),
    ensures
        ({
            let (id, queued) = (data.queued.id, data.queued_local_key);
            let path = KeyPath { base: old(worker).base_path->0, file: KeyFile::QueuedLocal };
            let selected = data.queued_setup.best_authorities@.contains(data.public);
            let stored = queued is Ok && queued->Ok_0.round_id == id && id > data.active.id;
            let after = final(worker).next_rounds;
            &&& selected && stored ==> after is Some && goes_on_as(
                after->0,
                id,
                data.public,
                path,
                data.queued_setup,
                queued->Ok_0.local_key,
            )
            &&& after is Some ==> selected && stored
        }),
{
}

/// A second attempt changes nothing, whatever has been found in the meantime.
pub proof fn law_second_attempt_changes_nothing<K, P: Copy, E>(
    worker: &mut DKGWorker<K, P>,
    first: Option<ResumeData<K, E>>,
    again: &mut DKGWorker<K, P>,
    second: Option<ResumeData<K, E>>,
)
    requires
        call_ensures(try_resume_dkg::<K, P, E>, (worker, first), ()),
        *old(again) == *final(worker),
        call_ensures(try_resume_dkg::<K, P, E>, (again, second), ()),
    ensures
        *final(again) == *final(worker),
{
}

/// What loading the local file gave plays no role for the next rounds: two nodes that
/// differ in it only have the same next rounds.
pub proof fn law_local_file_is_for_active_rounds<K, P: Copy, E>(
    worker: &mut DKGWorker<K, P>,
    data: ResumeData<K, E>,
    other: &mut DKGWorker<K, P>,
    other_data: ResumeData<K, E>,
)
    requires
        call_ensures(try_resume_dkg::<K, P, E>, (worker, Some(data)), ()),
        call_ensures(try_resume_dkg::<K, P, E>, (other, Some(other_data)), ()),
        is_fresh(*old(worker)),
        *old(other) == *old(worker),
        other_data == (ResumeData { local_key: other_data.local_key, ..data }),
    ensures
        ({
            let (next, other_next) = (final(worker).next_rounds, final(other).next_rounds);
            &&& next is Some <==> other_next is Some
            &&& next is Some ==> {
                &&& other_next->0.round_id == next->0.round_id
                &&& other_next->0.public == next->0.public
                &&& other_next->0.authorities@ == next->0.authorities@
                &&& other_next->0.local_key_path == next->0.local_key_path
                &&& other_next->0.local_key == next->0.local_key
            }
        }),
{
    law_next_rounds_are_resumed(worker, data);
    law_next_rounds_are_resumed(other, other_data);
}

/// A node would resume if and only if it is fresh. Its validator sets play no role.
pub proof fn law_fresh_nodes_can_resume<K, P: Copy>(worker: DKGWorker<K, P>, can: bool)
    requires
        call_ensures(DKGWorker::<K, P>::can_resume, (&worker,), can),
    ensures
        can <==> is_fresh(worker),
        call_requires(DKGWorker::<K, P>::can_resume, (&worker,)),
{
}

/// Rounds are to be restarted if and only if they are there and stalled. All else about
/// them and about the node plays no role, and the node keeps them.
pub proof fn law_stalled_rounds_are_restarted<K, P>(
    worker: &mut DKGWorker<K, P>,
    restart: (bool, bool),
)
    requires
        call_ensures(should_restart_dkg::<K, P>, (worker,), restart),
    ensures
        old(worker).rounds is Some ==> restart.0 == old(worker).rounds->0.stalled,
        old(worker).rounds is None ==> !restart.0,
        old(worker).next_rounds is Some ==> restart.1 == old(worker).next_rounds->0.stalled,
        old(worker).next_rounds is None ==> !restart.1,
        *final(worker) == *old(worker),
        call_requires(should_restart_dkg::<K, P>, (worker,)),
{
}

/// Rounds that were just resumed are not to be restarted.
pub proof fn law_resumed_rounds_are_not_restarted<K, P: Copy, E>(
    worker: &mut DKGWorker<K, P>,
    data: ResumeData<K, E>,
    resumed: &mut DKGWorker<K, P>,
    restart: (bool, bool),
)
    requires
        call_ensures(try_resume_dkg::<K, P, E>, (worker, Some(data)), ()),
        is_fresh(*old(worker)),
        *old(resumed) == *final(worker),
        call_ensures(should_restart_dkg::<K, P>, (resumed,), restart),
    ensures
        !restart.0,
        !restart.1,
{
}

/// The share that is left for the queued round is the queued one, if and only if its round
/// is after the active one.
pub proof fn law_later_queued_share_is_kept<K>(
    round_id: RoundId,
    local: Option<StoredLocalKey<K>>,
    queued: Option<StoredLocalKey<K>>,
    keys: (Option<StoredLocalKey<K>>, Option<StoredLocalKey<K>>),
)
    requires
        call_ensures(reconcile_keys::<K>, (round_id, local, queued), keys),
    ensures
        queued is Some && queued->0.round_id > round_id ==> keys.1 == queued,
        keys.1 is Some ==> keys.1 == queued && queued->0.round_id > round_id,
        call_requires(reconcile_keys::<K>, (round_id, local, queued)),
{
}

/// The share that is left for the active round is the queued one if it is of that round,
/// else the local one if it is not outdated and the queued one is not either. Nothing else
/// is left.
pub proof fn law_current_share_is_kept<K>(
    round_id: RoundId,
    local: Option<StoredLocalKey<K>>,
    queued: Option<StoredLocalKey<K>>,
    keys: (Option<StoredLocalKey<K>>, Option<StoredLocalKey<K>>),
)
    requires
        call_ensures(reconcile_keys::<K>, (round_id, local, queued), keys),
    ensures
        queued is Some && queued->0.round_id == round_id ==> keys.0 == queued,
        queued is Some && queued->0.round_id < round_id ==> keys.0 is None,
        (queued is None || queued->0.round_id > round_id) && local is Some && local->0.round_id
            >= round_id ==> keys.0 == local,
        (queued is None || queued->0.round_id > round_id) && (local is None || local->0.round_id
            < round_id) ==> keys.0 is None,
{
}

/// Rounds are restored if and only if the node is one of the best authorities and holds a
/// share of that very round, with all that is known of them.
pub proof fn law_selected_nodes_with_a_share_go_on<K, P>(
    round_id: RoundId,
    public: AuthorityId,
    path: KeyPath<P>,
    setup: RoundsSetup,
    key: Option<StoredLocalKey<K>>,
    rounds: Option<Rounds<K, P>>,
)
    requires
        call_ensures(restore_rounds::<K, P>, (round_id, &public, path, setup, key), rounds),
    ensures
        ({
            let owed = setup.best_authorities@.contains(public) && key is Some && key->0.round_id
                == round_id;
            &&& rounds is Some <==> owed
            &&& owed ==> goes_on_as(rounds->0, round_id, public, path, setup, key->0.local_key)
        }),
        call_requires(restore_rounds::<K, P>, (round_id, &public, path, setup, key)),
{
}

/// Rounds are set up with what was given, without a share, with no signing set yet and not
/// stalled.
pub proof fn law_rounds_are_set_up_as_given<K, P>(
    best_authorities: Vec<AuthorityId>,
    round_id: RoundId,
    public: AuthorityId,
    signature_threshold: u16,
    keygen_threshold: u16,
    local_key_path: Option<KeyPath<P>>,
    jailed_signers: Vec<AuthorityId>,
    rounds: Rounds<K, P>,
)
    requires
        call_ensures(
            set_up_rounds::<K, P>,
            (
                &best_authorities,
                round_id,
                &public,
                signature_threshold,
                keygen_threshold,
                local_key_path,
                &jailed_signers,
            ),
            rounds,
        ),
    ensures
        rounds.authorities@ == best_authorities@,
        rounds.round_id == round_id,
        rounds.public == public,
        rounds.signature_threshold == signature_threshold,
        rounds.keygen_threshold == keygen_threshold,
        rounds.local_key_path == local_key_path,
        rounds.jailed_signers@ == jailed_signers@,
        rounds.local_key is None,
        !rounds.signing_set_ready,
        !rounds.stalled,
        call_requires(
            set_up_rounds::<K, P>,
            (
                &best_authorities,
                round_id,
                &public,
                signature_threshold,
                keygen_threshold,
                local_key_path,
                &jailed_signers,
            ),
        ),
{
}

/// An authority of the set is found where it stands first, and no other one is found.
pub proof fn law_authorities_are_found(
    set: &[AuthorityId],
    authority: AuthorityId,
    index: Option<usize>,
)
    requires
        call_ensures(find_index, (set, &authority), index),
    ensures
        set@.contains(authority) ==> index is Some,
        index is Some ==> {
            &&& index->0 < set@.len()
            &&& set@[index->0 as int] == authority
            &&& forall|j: int| 0 <= j < index->0 ==> #[trigger] set@[j] != authority
        },
        call_requires(find_index, (set, &authority)),
{
}

/// The installed share is the one that was given, and the rest of the rounds stays as it
/// is, in whichever state they are.
pub proof fn law_given_share_is_installed<K, P>(rounds: &mut Rounds<K, P>, share: K)
    requires
        call_ensures(Rounds::<K, P>::set_local_key, (rounds, share), ()),
    ensures
        final(rounds).local_key == Some(share),
        final(rounds).authorities@ == old(rounds).authorities@,
        final(rounds).round_id == old(rounds).round_id,
        final(rounds).public == old(rounds).public,
        final(rounds).signature_threshold == old(rounds).signature_threshold,
        final(rounds).keygen_threshold == old(rounds).keygen_threshold,
        final(rounds).local_key_path == old(rounds).local_key_path,
        final(rounds).jailed_signers@ == old(rounds).jailed_signers@,
        final(rounds).signing_set_ready == old(rounds).signing_set_ready,
        final(rounds).stalled == old(rounds).stalled,
        call_requires(Rounds::<K, P>::set_local_key, (rounds, share)),
{
}

/// The jailed signers are those that were given. The next signing set is there if and only
/// if the share is. The rest of the rounds stays as it is, in whichever state they are.
pub proof fn law_given_signers_are_jailed<K, P>(
    rounds: &mut Rounds<K, P>,
    jailed_signers: Vec<AuthorityId>,
)
    requires
        call_ensures(Rounds::<K, P>::set_jailed_signers, (rounds, jailed_signers), ()),
    ensures
        final(rounds).jailed_signers@ == jailed_signers@,
        final(rounds).signing_set_ready <==> old(rounds).local_key is Some,
        final(rounds).local_key == old(rounds).local_key,
        final(rounds).authorities@ == old(rounds).authorities@,
        final(rounds).round_id == old(rounds).round_id,
        final(rounds).public == old(rounds).public,
        final(rounds).signature_threshold == old(rounds).signature_threshold,
        final(rounds).keygen_threshold == old(rounds).keygen_threshold,
        final(rounds).local_key_path == old(rounds).local_key_path,
        final(rounds).stalled == old(rounds).stalled,
        call_requires(Rounds::<K, P>::set_jailed_signers, (rounds, jailed_signers)),
{
}

/// Rounds are stuck if and only if they are stalled. All else about them plays no role.
pub proof fn law_stalled_rounds_are_stuck<K, P>(rounds: Rounds<K, P>, stalled: bool)
    requires
        call_ensures(Rounds::<K, P>::has_stalled, (&rounds,), stalled),
    ensures
        stalled == rounds.stalled,
        call_requires(Rounds::<K, P>::has_stalled, (&rounds,)),
{
}

/// A node starts out without having tried to resume.
pub proof fn law_nodes_start_untried(state: DKGPersistenceState)
    requires
        call_ensures(DKGPersistenceState::new, (), state),
    ensures
        !state.initial_check,
        call_requires(DKGPersistenceState::new, ()),
{
}

} // verus!
