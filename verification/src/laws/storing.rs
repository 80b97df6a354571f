//! Laws of storing and loading key shares.
use crate::persistence::storage::{
    carried_out, file_at, files_after, files_after_load, load_request, load_run, load_stored_key,
    store_localkey, store_run, DiskRequest, LoadDecrypt, LoadLookup, LoadParse, LoadRead,
    StorageError, StorageErrorView, StoreEncrypt, StoreLookup, StoreSerialize, StoreWrite,
    StoreWriteView, StoredLocalKey,
};
use crate::types::RoundId;
use vstd::prelude::*;

verus! {

/// The error is no I/O error and says `text`.
pub open spec fn says<E>(error: StorageError<E>, text: Seq<char>) -> bool {
    match error {
        StorageError::Other(reason) => reason@ == text,
        StorageError::Io(_) => false,
    }
}

/// Storing starts for every share and round if there is a path and a keystore, with just
/// these. The error says what is missing, the path first.
pub proof fn law_storing_starts<K, P, E>(
    key: K,
    round_id: RoundId,
    path: Option<P>,
    has_local_keystore: bool,
    next: Result<StoreLookup<K, P>, StorageError<E>>,
)
    requires
        call_ensures(store_localkey::<K, P, E>, (key, round_id, path, has_local_keystore), next),
    ensures
        path is None ==> next is Err && says(next->Err_0, "Path not defined"@),
        path is Some && !has_local_keystore ==> next is Err && says(
            next->Err_0,
            "Local keystore doesn't exist"@,
        ),
        path is Some && has_local_keystore ==> {
            &&& next is Ok
            &&& next->Ok_0.path == path->0
            &&& next->Ok_0.stored.round_id == round_id
            &&& next->Ok_0.stored.local_key == key
        },
        call_requires(store_localkey::<K, P, E>, (key, round_id, path, has_local_keystore)),
{
}

/// Storing goes on with every key pair that the keystore finds, and stops without one.
pub proof fn law_storing_takes_every_key_pair<K, P, L, E>(
    stage: StoreLookup<K, P>,
    found: Result<Option<Vec<u8>>, L>,
    next: Result<StoreSerialize<K, P>, StorageError<E>>,
)
    requires
        call_ensures(StoreLookup::<K, P>::key_pair::<L, E>, (stage, found), next),
    ensures
        match found {
            Ok(Some(secret_key)) => {
                &&& next is Ok
                &&& next->Ok_0.path == stage.path
                &&& next->Ok_0.stored == stage.stored
                &&& next->Ok_0.secret_key@ == secret_key@
            },
            _ => next is Err && says(
                next->Err_0,
                "Local key pair doesn't exist for sr25519 key"@,
            ),
        },
        call_requires(StoreLookup::<K, P>::key_pair::<L, E>, (stage, found)),
{
}

/// Storing goes on with every text that the serialiser gives, as its UTF-8 bytes.
pub proof fn law_storing_takes_every_text<K, P, S, E>(
    stage: StoreSerialize<K, P>,
    text: Result<String, S>,
    next: Result<StoreEncrypt<P>, StorageError<E>>,
)
    requires
        call_ensures(StoreSerialize::<K, P>::serialized::<S, E>, (stage, text), next),
    ensures
        match text {
            Ok(text) => {
                &&& next is Ok
                &&& next->Ok_0.path == stage.path
                &&& next->Ok_0.secret_key@ == stage.secret_key@
                &&& next->Ok_0.data@ == vstd::utf8::encode_utf8(text@)
            },
            Err(_) => next is Err && says(next->Err_0, "Serialization failed"@),
        },
        call_requires(StoreSerialize::<K, P>::serialized::<S, E>, (stage, text)),
{
}

/// What the cipher gives is what is written, at the path that storing began with.
pub proof fn law_ciphertext_is_written<P, E>(
    stage: StoreEncrypt<P>,
    answer: Result<Vec<u8>, String>,
    next: Result<StoreWrite<P>, StorageError<E>>,
)
    requires
        call_ensures(StoreEncrypt::<P>::encrypted::<E>, (stage, answer), next),
    ensures
        match answer {
            Ok(data) => {
                &&& next is Ok
                &&& next->Ok_0.path == stage.path
                &&& next->Ok_0.data@ == data@
            },
            Err(reason) => next is Err && says(next->Err_0, reason@),
        },
        call_requires(StoreEncrypt::<P>::encrypted::<E>, (stage, answer)),
{
}

/// Storing succeeds if and only if the disk says so, and hands on its error.
pub proof fn law_disk_ends_the_storing<P, E>(
    stage: StoreWrite<P>,
    answer: Result<(), E>,
    result: Result<(), StorageError<E>>,
)
    requires
        call_ensures(StoreWrite::<P>::written::<E>, (stage, answer), result),
    ensures
        match answer {
            Ok(()) => result is Ok,
            Err(error) => result == Err::<(), StorageError<E>>(StorageError::Io(error)),
        },
        call_requires(StoreWrite::<P>::written::<E>, (stage, answer)),
{
}

/// Storing that nothing stops reaches the disk: for every share, round, path, key pair,
/// text and ciphertext, the serialiser is given the share with its round, the cipher the
/// text's UTF-8 bytes and the key pair, and the disk the path and the ciphertext.
pub proof fn law_unhindered_storing_reaches_the_disk<K, P, L, S, E>(
    key: K,
    round_id: RoundId,
    path: P,
    secret_key: Vec<u8>,
    text: String,
    data: Vec<u8>,
    lookup: Result<StoreLookup<K, P>, StorageError<E>>,
    plain: Result<StoreSerialize<K, P>, StorageError<E>>,
    bytes: Result<StoreEncrypt<P>, StorageError<E>>,
    write: Result<StoreWrite<P>, StorageError<E>>,
)
    requires
        call_ensures(store_localkey::<K, P, E>, (key, round_id, Some(path), true), lookup),
        lookup is Ok ==> call_ensures(
            StoreLookup::<K, P>::key_pair::<L, E>,
            (lookup->Ok_0, Ok::<Option<Vec<u8>>, L>(Some(secret_key))),
            plain,
        ),
        plain is Ok ==> call_ensures(
            StoreSerialize::<K, P>::serialized::<S, E>,
            (plain->Ok_0, Ok::<String, S>(text)),
            bytes,
        ),
        bytes is Ok ==> call_ensures(
            StoreEncrypt::<P>::encrypted::<E>,
            (bytes->Ok_0, Ok::<Vec<u8>, String>(data)),
            write,
        ),
    ensures
        lookup is Ok,
        plain is Ok,
        plain->Ok_0.stored.round_id == round_id,
        plain->Ok_0.stored.local_key == key,
        bytes is Ok,
        bytes->Ok_0.data@ == vstd::utf8::encode_utf8(text@),
        bytes->Ok_0.secret_key@ == secret_key@,
        write is Ok,
        write->Ok_0.path == path,
        write->Ok_0.data@ == data@,
{
}

/// Loading starts from every path if there is a keystore.
pub proof fn law_loading_starts<P, E>(
    path: P,
    has_local_keystore: bool,
    next: Result<LoadLookup<P>, StorageError<E>>,
)
    requires
        call_ensures(load_stored_key::<P, E>, (path, has_local_keystore), next),
    ensures
        has_local_keystore ==> next is Ok && next->Ok_0.path == path,
        !has_local_keystore ==> next is Err && says(next->Err_0, "Local keystore doesn't exist"@),
        call_requires(load_stored_key::<P, E>, (path, has_local_keystore)),
{
}

/// Loading goes on with every key pair that the keystore finds, and stops without one.
pub proof fn law_loading_takes_every_key_pair<P, L, E>(
    stage: LoadLookup<P>,
    found: Result<Option<Vec<u8>>, L>,
    next: Result<LoadRead<P>, StorageError<E>>,
)
    requires
        call_ensures(LoadLookup::<P>::key_pair::<L, E>, (stage, found), next),
    ensures
        match found {
            Ok(Some(secret_key)) => {
                &&& next is Ok
                &&& next->Ok_0.path == stage.path
                &&& next->Ok_0.secret_key@ == secret_key@
            },
            _ => next is Err && says(
                next->Err_0,
                "Local key pair doesn't exist for sr25519 key"@,
            ),
        },
        call_requires(LoadLookup::<P>::key_pair::<L, E>, (stage, found)),
{
}

/// Loading goes on with every file that could be read, and hands on the disk's error.
pub proof fn law_loading_takes_every_file<P, E>(
    stage: LoadRead<P>,
    answer: Result<Vec<u8>, E>,
    next: Result<LoadDecrypt, StorageError<E>>,
)
    requires
        call_ensures(LoadRead::<P>::read::<E>, (stage, answer), next),
    ensures
        match answer {
            Ok(data) => {
                &&& next is Ok
                &&& next->Ok_0.data@ == data@
                &&& next->Ok_0.secret_key@ == stage.secret_key@
            },
            Err(error) => next is Err && next->Err_0 == StorageError::Io(error),
        },
        call_requires(LoadRead::<P>::read::<E>, (stage, answer)),
{
}

/// What the cipher gives is what is parsed.
pub proof fn law_plaintext_is_parsed<E>(
    stage: LoadDecrypt,
    answer: Result<Vec<u8>, String>,
    next: Result<LoadParse, StorageError<E>>,
)
    requires
        call_ensures(LoadDecrypt::decrypted::<E>, (stage, answer), next),
    ensures
        match answer {
            Ok(data) => next is Ok && next->Ok_0.data@ == data@,
            Err(reason) => next is Err && says(next->Err_0, reason@),
        },
        call_requires(LoadDecrypt::decrypted::<E>, (stage, answer)),
{
}

/// What the parser gives is what is loaded, in whichever round it was generated.
pub proof fn law_parser_ends_the_loading<K, S, E>(
    stage: LoadParse,
    parsed: Result<StoredLocalKey<K>, S>,
    result: Result<StoredLocalKey<K>, StorageError<E>>,
)
    requires
        call_ensures(LoadParse::parsed::<K, S, E>, (stage, parsed), result),
    ensures
        match parsed {
            Ok(stored) => result is Ok && result->Ok_0 == stored,
            Err(_) => result is Err && says(result->Err_0, "Deserialization failed"@),
        },
        call_requires(LoadParse::parsed::<K, S, E>, (stage, parsed)),
{
}

/// Loading that nothing stops succeeds: the disk is asked for the path, the cipher for the
/// file's bytes and the key pair, the parser for the plaintext, and what it gives is loaded.
pub proof fn law_unhindered_loading_succeeds<K, P, L, S, E>(
    path: P,
    secret_key: Vec<u8>,
    file: Vec<u8>,
    plaintext: Vec<u8>,
    stored: StoredLocalKey<K>,
    lookup: Result<LoadLookup<P>, StorageError<E>>,
    unlocked: Result<LoadRead<P>, StorageError<E>>,
    sealed: Result<LoadDecrypt, StorageError<E>>,
    plain: Result<LoadParse, StorageError<E>>,
    result: Result<StoredLocalKey<K>, StorageError<E>>,
)
    requires
        call_ensures(load_stored_key::<P, E>, (path, true), lookup),
        lookup is Ok ==> call_ensures(
            LoadLookup::<P>::key_pair::<L, E>,
            (lookup->Ok_0, Ok::<Option<Vec<u8>>, L>(Some(secret_key))),
            unlocked,
        ),
        unlocked is Ok ==> call_ensures(
            LoadRead::<P>::read::<E>,
            (unlocked->Ok_0, Ok::<Vec<u8>, E>(file)),
            sealed,
        ),
        sealed is Ok ==> call_ensures(
            LoadDecrypt::decrypted::<E>,
            (sealed->Ok_0, Ok::<Vec<u8>, String>(plaintext)),
            plain,
        ),
        plain is Ok ==> call_ensures(
            LoadParse::parsed::<K, S, E>,
            (plain->Ok_0, Ok::<StoredLocalKey<K>, S>(stored)),
            result,
        ),
    ensures
        unlocked is Ok,
        unlocked->Ok_0.path == path,
        sealed is Ok,
        sealed->Ok_0.data@ == file@,
        sealed->Ok_0.secret_key@ == secret_key@,
        plain is Ok,
        plain->Ok_0.data@ == plaintext@,
        result is Ok,
        result->Ok_0 == stored,
{
}

/// A store reaches the disk if and only if nothing fails on the way, for every secret key,
/// with its own path and what the cipher made of the share's UTF-8 text.
pub proof fn law_store_reaches_the_disk_unless_something_fails<K, P, E>(
    stored: StoredLocalKey<K>,
    path: Option<P>,
    has_local_keystore: bool,
    secret_key: Option<Seq<u8>>,
    serialize: spec_fn(StoredLocalKey<K>) -> Option<Seq<char>>,
    encrypt: spec_fn(Seq<u8>, Seq<u8>) -> Result<Seq<u8>, Seq<char>>,
)
    ensures
        ({
            let run = store_run::<K, P, E>(
                stored,
                path,
                has_local_keystore,
                secret_key,
                serialize,
                encrypt,
            );
            let ready = path is Some && has_local_keystore;
            let unlocked = ready && secret_key is Some;
            let text = serialize(stored);
            let plain = unlocked && text is Some;
            let sealed = encrypt(vstd::utf8::encode_utf8(text->0), secret_key->0);
            &&& path is None ==> run == Err::<StoreWriteView<P>, _>(
                StorageErrorView::<E>::Other("Path not defined"@),
            )
            &&& path is Some && !has_local_keystore ==> run == Err::<StoreWriteView<P>, _>(
                StorageErrorView::<E>::Other("Local keystore doesn't exist"@),
            )
            &&& ready && secret_key is None ==> run == Err::<StoreWriteView<P>, _>(
                StorageErrorView::<E>::Other("Local key pair doesn't exist for sr25519 key"@),
            )
            &&& unlocked && text is None ==> run == Err::<StoreWriteView<P>, _>(
                StorageErrorView::<E>::Other("Serialization failed"@),
            )
            &&& plain && sealed is Err ==> run == Err::<StoreWriteView<P>, _>(
                StorageErrorView::<E>::Other(sealed->Err_0),
            )
            &&& plain && sealed is Ok ==> {
                &&& run is Ok
                &&& run->Ok_0.path == path->0
                &&& run->Ok_0.data == sealed->Ok_0
            }
        }),
{
}

/// A load succeeds if and only if nothing fails on the way, for every secret key and every
/// file, with what the parser made of the deciphered file.
pub proof fn law_load_succeeds_unless_something_fails<K, P, E>(
    path: P,
    has_local_keystore: bool,
    secret_key: Option<Seq<u8>>,
    file: Result<Seq<u8>, E>,
    decrypt: spec_fn(Seq<u8>, Seq<u8>) -> Result<Seq<u8>, Seq<char>>,
    parse: spec_fn(Seq<u8>) -> Option<StoredLocalKey<K>>,
)
    ensures
        ({
            let run = load_run::<K, P, E>(
                path,
                has_local_keystore,
                secret_key,
                file,
                decrypt,
                parse,
            );
            let unlocked = has_local_keystore && secret_key is Some;
            let read = unlocked && file is Ok;
            let plain = decrypt(file->Ok_0, secret_key->0);
            let parsed = parse(plain->Ok_0);
            &&& !has_local_keystore ==> run == Err::<StoredLocalKey<K>, _>(
                StorageErrorView::<E>::Other("Local keystore doesn't exist"@),
            )
            &&& has_local_keystore && secret_key is None ==> run == Err::<StoredLocalKey<K>, _>(
                StorageErrorView::<E>::Other("Local key pair doesn't exist for sr25519 key"@),
            )
            &&& unlocked && file is Err ==> run == Err::<StoredLocalKey<K>, _>(
                StorageErrorView::<E>::Io(file->Err_0),
            )
            &&& read && plain is Err ==> run == Err::<StoredLocalKey<K>, _>(
                StorageErrorView::<E>::Other(plain->Err_0),
            )
            &&& read && plain is Ok && parsed is None ==> run == Err::<StoredLocalKey<K>, _>(
                StorageErrorView::<E>::Other("Deserialization failed"@),
            )
            &&& read && plain is Ok && parsed is Some ==> run is Ok && run->Ok_0 == parsed->0
        }),
{
}

/// A store replaces the file at its path with its data and keeps all others; without a
/// store that reached the disk, and after every load, all files are as they were.
pub proof fn law_only_stores_change_files<P, E>(
    files: Map<P, Seq<u8>>,
    write: StoreWriteView<P>,
    error: StorageErrorView<E>,
    path: P,
    has_local_keystore: bool,
    secret_key: Option<Seq<u8>>,
    missing: E,
)
    ensures
        ({
            let after = files_after(files, Ok::<_, StorageErrorView<E>>(write));
            &&& after.dom() == files.dom().insert(write.path)
            &&& after[write.path] == write.data
            &&& forall|other: P|
                other != write.path ==> #[trigger] after[other] == files[other]
        }),
        files_after(files, Err::<StoreWriteView<P>, StorageErrorView<E>>(error)) == files,
        files_after_load::<P, E>(files, path, has_local_keystore, secret_key) == files,
        carried_out(files, DiskRequest::Read { path }) == files,
        load_request::<P, E>(path, has_local_keystore, secret_key) is Some <==> has_local_keystore
            && secret_key is Some,
        load_request::<P, E>(path, has_local_keystore, secret_key) matches Some(request)
            ==> request == (DiskRequest::Read { path }),
        files.dom().contains(path) ==> file_at(files, path, missing) == Ok::<Seq<u8>, E>(
            files[path],
        ),
        !files.dom().contains(path) ==> file_at(files, path, missing) == Err::<Seq<u8>, E>(missing),
{
}

} // verus!
