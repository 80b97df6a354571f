//! Storing and loading the local key share.
//!
//! The keystore, the cipher, the serialiser and the disk belong to the node. Storing
//! and loading alternate with them, so each is a chain of stages: a stage says what
//! the node has to do next and with which values, and turns the node's answer into
//! the next stage, the result or the error.
use crate::types::RoundId;
use vstd::prelude::*;
use vstd::string::StrSliceExecFns;

verus! {

/// A key share and the round that generated it. `K` is the type of the share.
#[derive(Debug, PartialEq, Eq)]
pub struct StoredLocalKey<K> {
    pub round_id: RoundId,
    pub local_key: K,
}

/// Why a key share was not stored or loaded. `E` is the node's own I/O error.
#[derive(Debug, PartialEq, Eq)]
pub enum StorageError<E> {
    /// The file could not be read or written.
    Io(E),
    /// Any other reason, in words.
    Other(String),
}

/// Mathematical view of a [`StorageError`].
#[verifier::ext_equal]
pub enum StorageErrorView<E> {
    Io(E),
    Other(Seq<char>),
}

impl<E> View for StorageError<E> {
    type V = StorageErrorView<E>;

    open spec fn view(&self) -> StorageErrorView<E> {
        match self {
            StorageError::Io(error) => StorageErrorView::Io(*error),
            StorageError::Other(reason) => StorageErrorView::Other(reason@),
        }
    }
}

/// The view of a stage's outcome.
pub open spec fn outcome<S: View, E>(result: Result<S, StorageError<E>>) -> Result<
    S::V,
    StorageErrorView<E>,
> {
    match result {
        Ok(stage) => Ok(stage@),
        Err(error) => Err(error@),
    }
}

/// The view of an answer that carries bytes.
pub open spec fn byte_answer<X>(answer: Result<Vec<u8>, X>) -> Result<Seq<u8>, X> {
    match answer {
        Ok(bytes) => Ok(bytes@),
        Err(error) => Err(error),
    }
}

/// The view of an answer of the cipher.
pub open spec fn cipher_answer(answer: Result<Vec<u8>, String>) -> Result<Seq<u8>, Seq<char>> {
    match answer {
        Ok(bytes) => Ok(bytes@),
        Err(reason) => Err(reason@),
    }
}

/// The raw key pair that the keystore found, if it found one.
pub open spec fn found_secret<L>(found: Result<Option<Vec<u8>>, L>) -> Option<Seq<u8>> {
    match found {
        Ok(Some(secret)) => Some(secret@),
        _ => None,
    }
}

// ---------------------------------------------------------------------------
// Storing
// ---------------------------------------------------------------------------

/// A key share on its way to `path`. The node has to look up its sr25519 key pair.
pub struct StoreLookup<K, P> {
    pub path: P,
    pub stored: StoredLocalKey<K>,
}

/// The node has to serialise `stored` as JSON.
pub struct StoreSerialize<K, P> {
    pub path: P,
    pub stored: StoredLocalKey<K>,
    pub secret_key: Vec<u8>,
}

/// The node has to encrypt `data` under `secret_key`.
pub struct StoreEncrypt<P> {
    pub path: P,
    pub data: Vec<u8>,
    pub secret_key: Vec<u8>,
}

/// The node has to write `data` to `path`.
pub struct StoreWrite<P> {
    pub path: P,
    pub data: Vec<u8>,
}

/// Mathematical view of a [`StoreSerialize`].
#[verifier::ext_equal]
pub struct StoreSerializeView<K, P> {
    pub path: P,
    pub stored: StoredLocalKey<K>,
    pub secret_key: Seq<u8>,
}

/// Mathematical view of a [`StoreEncrypt`].
#[verifier::ext_equal]
pub struct StoreEncryptView<P> {
    pub path: P,
    pub data: Seq<u8>,
    pub secret_key: Seq<u8>,
}

/// Mathematical view of a [`StoreWrite`].
#[verifier::ext_equal]
pub struct StoreWriteView<P> {
    pub path: P,
    pub data: Seq<u8>,
}

impl<K, P> View for StoreLookup<K, P> {
    type V = StoreLookup<K, P>;

    open spec fn view(&self) -> StoreLookup<K, P> {
        *self
    }
}

impl<K, P> View for StoreSerialize<K, P> {
    type V = StoreSerializeView<K, P>;

    open spec fn view(&self) -> StoreSerializeView<K, P> {
        StoreSerializeView {
            path: self.path,
            stored: self.stored,
            secret_key: self.secret_key@,
        }
    }
}

impl<P> View for StoreEncrypt<P> {
    type V = StoreEncryptView<P>;

    open spec fn view(&self) -> StoreEncryptView<P> {
        StoreEncryptView { path: self.path, data: self.data@, secret_key: self.secret_key@ }
    }
}

impl<P> View for StoreWrite<P> {
    type V = StoreWriteView<P>;

    open spec fn view(&self) -> StoreWriteView<P> {
        StoreWriteView { path: self.path, data: self.data@ }
    }
}

/// Storing starts if there is a path and a keystore. The path is asked for first.
pub open spec fn store_started<K, P, E>(
    stored: StoredLocalKey<K>,
    path: Option<P>,
    has_local_keystore: bool,
) -> Result<StoreLookup<K, P>, StorageErrorView<E>> {
    match path {
        None => Err(StorageErrorView::Other("Path not defined"@)),
        Some(path) => if has_local_keystore {
            Ok(StoreLookup { path, stored })
        } else {
            Err(StorageErrorView::Other("Local keystore doesn't exist"@))
        },
    }
}

/// Storing goes on with the key pair that the keystore found.
pub open spec fn store_unlocked<K, P, E>(
    stage: StoreLookup<K, P>,
    secret_key: Option<Seq<u8>>,
) -> Result<StoreSerializeView<K, P>, StorageErrorView<E>> {
    match secret_key {
        Some(secret_key) => Ok(
            StoreSerializeView { path: stage.path, stored: stage.stored, secret_key },
        ),
        None => Err(StorageErrorView::Other("Local key pair doesn't exist for sr25519 key"@)),
    }
}

/// What is encrypted is the UTF-8 text of the serialised key share.
pub open spec fn store_serialized<K, P, E>(
    stage: StoreSerializeView<K, P>,
    text: Option<Seq<char>>,
) -> Result<StoreEncryptView<P>, StorageErrorView<E>> {
    match text {
        Some(text) => Ok(
            StoreEncryptView {
                path: stage.path,
                data: vstd::utf8::encode_utf8(text),
                secret_key: stage.secret_key,
            },
        ),
        None => Err(StorageErrorView::Other("Serialization failed"@)),
    }
}

/// What is written is what the cipher answered.
pub open spec fn store_encrypted<P, E>(
    stage: StoreEncryptView<P>,
    answer: Result<Seq<u8>, Seq<char>>,
) -> Result<StoreWriteView<P>, StorageErrorView<E>> {
    match answer {
        Ok(data) => Ok(StoreWriteView { path: stage.path, data }),
        Err(reason) => Err(StorageErrorView::Other(reason)),
    }
}

/// Starts storing `key`, the share of round `round_id`, at `path`.
pub fn store_localkey<K, P, E>(
    key: K,
    round_id: RoundId,
    path: Option<P>,
    has_local_keystore: bool,
) -> (next: Result<StoreLookup<K, P>, StorageError<E>>)
    ensures
        outcome(next) == store_started::<K, P, E>(
            StoredLocalKey { round_id, local_key: key },
            path,
            has_local_keystore,
        ),
{
    match path {
        Some(path) => {
            if has_local_keystore {
                Ok(StoreLookup { path, stored: StoredLocalKey { round_id, local_key: key } })
            } else {
                Err(StorageError::Other("Local keystore doesn't exist".to_string()))
            }
        },
        None => Err(StorageError::Other("Path not defined".to_string())),
    }
}

impl<K, P> StoreLookup<K, P> {
    /// The keystore's answer: the raw key pair, none, or its error.
    pub fn key_pair<L, E>(self, found: Result<Option<Vec<u8>>, L>) -> (next: Result<
        StoreSerialize<K, P>,
        StorageError<E>,
    >)
        ensures
            outcome(next) == store_unlocked::<K, P, E>(self, found_secret(found)),
    {
        match found {
            Ok(Some(secret_key)) => Ok(
                StoreSerialize { path: self.path, stored: self.stored, secret_key },
            ),
            _ => Err(
                StorageError::Other("Local key pair doesn't exist for sr25519 key".to_string()),
            ),
        }
    }
}

impl<K, P> StoreSerialize<K, P> {
    /// The serialiser's answer: the JSON text of `stored`, or its error.
    pub fn serialized<S, E>(self, text: Result<String, S>) -> (next: Result<
        StoreEncrypt<P>,
        StorageError<E>,
    >)
        ensures
            outcome(next) == store_serialized::<K, P, E>(
                self@,
                match text {
                    Ok(text) => Some(text@),
                    Err(_) => None,
                },
            ),
    {
        match text {
            Ok(text) => Ok(
                StoreEncrypt {
                    path: self.path,
                    data: text.as_str().as_bytes_vec(),
                    secret_key: self.secret_key,
                },
            ),
            Err(_) => Err(StorageError::Other("Serialization failed".to_string())),
        }
    }
}

impl<P> StoreEncrypt<P> {
    /// The cipher's answer: `data` encrypted under `secret_key`, or why it failed.
    pub fn encrypted<E>(self, answer: Result<Vec<u8>, String>) -> (next: Result<
        StoreWrite<P>,
        StorageError<E>,
    >)
        ensures
            outcome(next) == store_encrypted::<P, E>(self@, cipher_answer(answer)),
    {
        match answer {
            Ok(data) => Ok(StoreWrite { path: self.path, data }),
            Err(reason) => Err(StorageError::Other(reason)),
        }
    }
}

impl<P> StoreWrite<P> {
    /// The disk's answer ends the storing.
    pub fn written<E>(self, answer: Result<(), E>) -> (result: Result<(), StorageError<E>>)
        ensures
            match answer {
                Ok(()) => result is Ok,
                Err(error) => result == Err::<(), StorageError<E>>(StorageError::Io(error)),
            },
    {
        match answer {
            Ok(()) => Ok(()),
            Err(error) => Err(StorageError::Io(error)),
        }
    }
}

// ---------------------------------------------------------------------------
// Loading
// ---------------------------------------------------------------------------

/// A key share is wanted from `path`. The node has to look up its sr25519 key pair.
pub struct LoadLookup<P> {
    pub path: P,
}

/// The node has to read the file at `path`.
pub struct LoadRead<P> {
    pub path: P,
    pub secret_key: Vec<u8>,
}

/// The node has to decrypt `data` under `secret_key`.
pub struct LoadDecrypt {
    pub data: Vec<u8>,
    pub secret_key: Vec<u8>,
}

/// The node has to parse `data` as the JSON text of a key share.
pub struct LoadParse {
    pub data: Vec<u8>,
}

/// Mathematical view of a [`LoadRead`].
#[verifier::ext_equal]
pub struct LoadReadView<P> {
    pub path: P,
    pub secret_key: Seq<u8>,
}

/// Mathematical view of a [`LoadDecrypt`].
#[verifier::ext_equal]
pub struct LoadDecryptView {
    pub data: Seq<u8>,
    pub secret_key: Seq<u8>,
}

/// Mathematical view of a [`LoadParse`].
#[verifier::ext_equal]
pub struct LoadParseView {
    pub data: Seq<u8>,
}

impl<P> View for LoadLookup<P> {
    type V = LoadLookup<P>;

    open spec fn view(&self) -> LoadLookup<P> {
        *self
    }
}

impl<P> View for LoadRead<P> {
    type V = LoadReadView<P>;

    open spec fn view(&self) -> LoadReadView<P> {
        LoadReadView { path: self.path, secret_key: self.secret_key@ }
    }
}

impl View for LoadDecrypt {
    type V = LoadDecryptView;

    open spec fn view(&self) -> LoadDecryptView {
        LoadDecryptView { data: self.data@, secret_key: self.secret_key@ }
    }
}

impl View for LoadParse {
    type V = LoadParseView;

    open spec fn view(&self) -> LoadParseView {
        LoadParseView { data: self.data@ }
    }
}

impl<K> View for StoredLocalKey<K> {
    type V = StoredLocalKey<K>;

    open spec fn view(&self) -> StoredLocalKey<K> {
        *self
    }
}

/// Loading starts if there is a keystore.
pub open spec fn load_started<P, E>(path: P, has_local_keystore: bool) -> Result<
    LoadLookup<P>,
    StorageErrorView<E>,
> {
    if has_local_keystore {
        Ok(LoadLookup { path })
    } else {
        Err(StorageErrorView::Other("Local keystore doesn't exist"@))
    }
}

/// Loading goes on with the key pair that the keystore found.
pub open spec fn load_unlocked<P, E>(stage: LoadLookup<P>, secret_key: Option<Seq<u8>>) -> Result<
    LoadReadView<P>,
    StorageErrorView<E>,
> {
    match secret_key {
        Some(secret_key) => Ok(LoadReadView { path: stage.path, secret_key }),
        None => Err(StorageErrorView::Other("Local key pair doesn't exist for sr25519 key"@)),
    }
}

/// What is decrypted is what was read.
pub open spec fn load_read<P, E>(stage: LoadReadView<P>, answer: Result<Seq<u8>, E>) -> Result<
    LoadDecryptView,
    StorageErrorView<E>,
> {
    match answer {
        Ok(data) => Ok(LoadDecryptView { data, secret_key: stage.secret_key }),
        Err(error) => Err(StorageErrorView::Io(error)),
    }
}

/// What is parsed is what the cipher answered.
pub open spec fn load_decrypted<E>(answer: Result<Seq<u8>, Seq<char>>) -> Result<
    LoadParseView,
    StorageErrorView<E>,
> {
    match answer {
        Ok(data) => Ok(LoadParseView { data }),
        Err(reason) => Err(StorageErrorView::Other(reason)),
    }
}

/// What is loaded is what was parsed.
pub open spec fn load_parsed<K, E>(parsed: Option<StoredLocalKey<K>>) -> Result<
    StoredLocalKey<K>,
    StorageErrorView<E>,
> {
    match parsed {
        Some(stored) => Ok(stored),
        None => Err(StorageErrorView::Other("Deserialization failed"@)),
    }
}

/// Starts loading the key share at `path`. It was encrypted under the node's raw
/// sr25519 key pair, so the keystore has to exist.
pub fn load_stored_key<P, E>(path: P, has_local_keystore: bool) -> (next: Result<
    LoadLookup<P>,
    StorageError<E>,
>)
    ensures
        outcome(next) == load_started::<P, E>(path, has_local_keystore),
{
    if has_local_keystore {
        Ok(LoadLookup { path })
    } else {
        Err(StorageError::Other("Local keystore doesn't exist".to_string()))
    }
}

impl<P> LoadLookup<P> {
    /// The keystore's answer: the raw key pair, none, or its error.
    pub fn key_pair<L, E>(self, found: Result<Option<Vec<u8>>, L>) -> (next: Result<
        LoadRead<P>,
        StorageError<E>,
    >)
        ensures
            outcome(next) == load_unlocked::<P, E>(self, found_secret(found)),
    {
        match found {
            Ok(Some(secret_key)) => Ok(LoadRead { path: self.path, secret_key }),
            _ => Err(
                StorageError::Other("Local key pair doesn't exist for sr25519 key".to_string()),
            ),
        }
    }
}

impl<P> LoadRead<P> {
    /// The disk's answer: the file's bytes, or its error.
    pub fn read<E>(self, answer: Result<Vec<u8>, E>) -> (next: Result<LoadDecrypt, StorageError<E>>)
        ensures
            outcome(next) == load_read::<P, E>(self@, byte_answer(answer)),
    {
        match answer {
            Ok(data) => Ok(LoadDecrypt { data, secret_key: self.secret_key }),
            Err(error) => Err(StorageError::Io(error)),
        }
    }
}

impl LoadDecrypt {
    /// The cipher's answer: `data` decrypted under `secret_key`, or why it failed.
    pub fn decrypted<E>(self, answer: Result<Vec<u8>, String>) -> (next: Result<
        LoadParse,
        StorageError<E>,
    >)
        ensures
            outcome(next) == load_decrypted::<E>(cipher_answer(answer)),
    {
        match answer {
            Ok(data) => Ok(LoadParse { data }),
            Err(reason) => Err(StorageError::Other(reason)),
        }
    }
}

impl LoadParse {
    /// The parser's answer: the key share that `data` holds, or its error.
    pub fn parsed<K, S, E>(self, parsed: Result<StoredLocalKey<K>, S>) -> (result: Result<
        StoredLocalKey<K>,
        StorageError<E>,
    >)
        ensures
            outcome(result) == load_parsed::<K, E>(
                match parsed {
                    Ok(stored) => Some(stored),
                    Err(_) => None,
                },
            ),
    {
        match parsed {
            Ok(stored) => Ok(stored),
            Err(_) => Err(StorageError::Other("Deserialization failed".to_string())),
        }
    }
}

// ---------------------------------------------------------------------------
// Storing, then loading
// ---------------------------------------------------------------------------

/// What storing hands to the disk, for a node with the given key pair, serialiser
/// and cipher.
pub open spec fn store_run<K, P, E>(
    stored: StoredLocalKey<K>,
    path: Option<P>,
    has_local_keystore: bool,
    secret_key: Option<Seq<u8>>,
    serialize: spec_fn(StoredLocalKey<K>) -> Option<Seq<char>>,
    encrypt: spec_fn(Seq<u8>, Seq<u8>) -> Result<Seq<u8>, Seq<char>>,
) -> Result<StoreWriteView<P>, StorageErrorView<E>> {
    match store_started::<K, P, E>(stored, path, has_local_keystore) {
        Err(error) => Err(error),
        Ok(lookup) => match store_unlocked::<K, P, E>(lookup, secret_key) {
            Err(error) => Err(error),
            Ok(plain) => match store_serialized::<K, P, E>(plain, serialize(plain.stored)) {
                Err(error) => Err(error),
                Ok(bytes) => store_encrypted::<P, E>(bytes, encrypt(bytes.data, bytes.secret_key)),
            },
        },
    }
}

/// What loading gives, for a node with the given key pair, file, cipher and parser.
pub open spec fn load_run<K, P, E>(
    path: P,
    has_local_keystore: bool,
    secret_key: Option<Seq<u8>>,
    file: Result<Seq<u8>, E>,
    decrypt: spec_fn(Seq<u8>, Seq<u8>) -> Result<Seq<u8>, Seq<char>>,
    parse: spec_fn(Seq<u8>) -> Option<StoredLocalKey<K>>,
) -> Result<StoredLocalKey<K>, StorageErrorView<E>> {
    match load_started::<P, E>(path, has_local_keystore) {
        Err(error) => Err(error),
        Ok(lookup) => match load_unlocked::<P, E>(lookup, secret_key) {
            Err(error) => Err(error),
            Ok(unlocked) => match load_read::<P, E>(unlocked, file) {
                Err(error) => Err(error),
                Ok(sealed) => match load_decrypted::<E>(decrypt(sealed.data, sealed.secret_key)) {
                    Err(error) => Err(error),
                    Ok(plain) => load_parsed::<K, E>(parse(plain.data)),
                },
            },
        },
    }
}

/// The cipher decrypts what it encrypted under the same key.
pub open spec fn undoes_encryption(
    encrypt: spec_fn(Seq<u8>, Seq<u8>) -> Result<Seq<u8>, Seq<char>>,
    decrypt: spec_fn(Seq<u8>, Seq<u8>) -> Result<Seq<u8>, Seq<char>>,
) -> bool {
    forall|data: Seq<u8>, key: Seq<u8>| #[trigger]
        encrypt(data, key) is Ok ==> decrypt(encrypt(data, key)->Ok_0, key) == Ok::<
            Seq<u8>,
            Seq<char>,
        >(data)
}

/// The parser reads what the serialiser wrote.
pub open spec fn undoes_serialization<K>(
    serialize: spec_fn(StoredLocalKey<K>) -> Option<Seq<char>>,
    parse: spec_fn(Seq<u8>) -> Option<StoredLocalKey<K>>,
) -> bool {
    forall|key: StoredLocalKey<K>| #[trigger]
        serialize(key) is Some ==> parse(vstd::utf8::encode_utf8(serialize(key)->0)) == Some(key)
}

/// What was stored is what is loaded: with a cipher that decrypts what it encrypted
/// under the same key, and a parser that reads what the serialiser wrote, loading the
/// written file with the same key pair gives back the key share and its round.
pub proof fn law_loads_what_was_stored<K, P, E>(
    stored: StoredLocalKey<K>,
    path: Option<P>,
    has_local_keystore: bool,
    secret_key: Option<Seq<u8>>,
    serialize: spec_fn(StoredLocalKey<K>) -> Option<Seq<char>>,
    encrypt: spec_fn(Seq<u8>, Seq<u8>) -> Result<Seq<u8>, Seq<char>>,
    decrypt: spec_fn(Seq<u8>, Seq<u8>) -> Result<Seq<u8>, Seq<char>>,
    parse: spec_fn(Seq<u8>) -> Option<StoredLocalKey<K>>,
)
    requires
        undoes_encryption(encrypt, decrypt),
        undoes_serialization(serialize, parse),
    ensures
        store_run::<K, P, E>(
            stored,
            path,
            has_local_keystore,
            secret_key,
            serialize,
            encrypt,
        ) matches Ok(write) ==> {
            &&& path == Some(write.path)
            &&& load_run::<K, P, E>(
                write.path,
                has_local_keystore,
                secret_key,
                Ok(write.data),
                decrypt,
                parse,
            ) == Ok::<StoredLocalKey<K>, StorageErrorView<E>>(stored)
        },
{
}

/// Nothing is written unless there is a path, a keystore and a key pair, and nothing
/// is loaded without a keystore and a key pair.
pub proof fn law_no_key_pair_no_storage<K, P, E>(
    stored: StoredLocalKey<K>,
    path: Option<P>,
    from: P,
    has_local_keystore: bool,
    secret_key: Option<Seq<u8>>,
    file: Result<Seq<u8>, E>,
    serialize: spec_fn(StoredLocalKey<K>) -> Option<Seq<char>>,
    encrypt: spec_fn(Seq<u8>, Seq<u8>) -> Result<Seq<u8>, Seq<char>>,
    decrypt: spec_fn(Seq<u8>, Seq<u8>) -> Result<Seq<u8>, Seq<char>>,
    parse: spec_fn(Seq<u8>) -> Option<StoredLocalKey<K>>,
)
    ensures
        store_run::<K, P, E>(
            stored,
            path,
            has_local_keystore,
            secret_key,
            serialize,
            encrypt,
        ) is Ok ==> path is Some && has_local_keystore && secret_key is Some,
        load_run::<K, P, E>(
            from,
            has_local_keystore,
            secret_key,
            file,
            decrypt,
            parse,
        ) is Ok ==> has_local_keystore && secret_key is Some && file is Ok,
{
}

/// What storing and loading ask of the disk.
pub enum DiskRequest<P> {
    Read { path: P },
    Write { path: P, data: Seq<u8> },
}

/// The node's files once `request` was carried out.
pub open spec fn carried_out<P>(files: Map<P, Seq<u8>>, request: DiskRequest<P>) -> Map<
    P,
    Seq<u8>,
> {
    match request {
        DiskRequest::Read { path } => files,
        DiskRequest::Write { path, data } => files.insert(path, data),
    }
}

/// The node's files once `run` was carried out: a run that reached the disk replaces the
/// file at its path, any other run leaves the files alone.
pub open spec fn files_after<P, E>(
    files: Map<P, Seq<u8>>,
    run: Result<StoreWriteView<P>, StorageErrorView<E>>,
) -> Map<P, Seq<u8>> {
    match run {
        Ok(write) => carried_out(files, DiskRequest::Write { path: write.path, data: write.data }),
        Err(_) => files,
    }
}

/// What loading asks of the disk: the file at the path of the stage that reads, if loading
/// gets that far.
pub open spec fn load_request<P, E>(
    path: P,
    has_local_keystore: bool,
    secret_key: Option<Seq<u8>>,
) -> Option<DiskRequest<P>> {
    match load_started::<P, E>(path, has_local_keystore) {
        Err(_) => None,
        Ok(lookup) => match load_unlocked::<P, E>(lookup, secret_key) {
            Err(_) => None,
            Ok(unlocked) => Some(DiskRequest::Read { path: unlocked.path }),
        },
    }
}

/// The node's files once a key share was loaded, or not, from `path`.
pub open spec fn files_after_load<P, E>(
    files: Map<P, Seq<u8>>,
    path: P,
    has_local_keystore: bool,
    secret_key: Option<Seq<u8>>,
) -> Map<P, Seq<u8>> {
    match load_request::<P, E>(path, has_local_keystore, secret_key) {
        None => files,
        Some(request) => carried_out(files, request),
    }
}

/// What reading the file at `path` gives, where `missing` is the error if there is none.
pub open spec fn file_at<P, E>(files: Map<P, Seq<u8>>, path: P, missing: E) -> Result<
    Seq<u8>,
    E,
> {
    if files.dom().contains(path) {
        Ok(files[path])
    } else {
        Err(missing)
    }
}

/// Storing touches the file at its own path only, and a store that fails before it reaches
/// the disk touches none.
pub proof fn law_store_leaves_other_files<K, P, E>(
    files: Map<P, Seq<u8>>,
    stored: StoredLocalKey<K>,
    path: Option<P>,
    other: P,
    has_local_keystore: bool,
    secret_key: Option<Seq<u8>>,
    serialize: spec_fn(StoredLocalKey<K>) -> Option<Seq<char>>,
    encrypt: spec_fn(Seq<u8>, Seq<u8>) -> Result<Seq<u8>, Seq<char>>,
    missing: E,
)
    requires
        path != Some(other),
    ensures
        ({
            let run = store_run::<K, P, E>(
                stored,
                path,
                has_local_keystore,
                secret_key,
                serialize,
                encrypt,
            );
            &&& file_at(files_after(files, run), other, missing) == file_at(files, other, missing)
            &&& run is Err ==> files_after(files, run) == files
        }),
{
}

/// Loading changes nothing: it reads the file at its path or nothing at all, so a stored
/// share is neither consumed nor deleted, and loading again with the same key pair, cipher
/// and parser gives the same result, share or error.
pub proof fn law_loading_can_be_repeated<K, P, E>(
    files: Map<P, Seq<u8>>,
    path: P,
    has_local_keystore: bool,
    secret_key: Option<Seq<u8>>,
    decrypt: spec_fn(Seq<u8>, Seq<u8>) -> Result<Seq<u8>, Seq<char>>,
    parse: spec_fn(Seq<u8>) -> Option<StoredLocalKey<K>>,
    missing: E,
)
    ensures
        ({
            let request = load_request::<P, E>(path, has_local_keystore, secret_key);
            let after = files_after_load::<P, E>(files, path, has_local_keystore, secret_key);
            let load = |from: Map<P, Seq<u8>>|
                load_run::<K, P, E>(
                    path,
                    has_local_keystore,
                    secret_key,
                    file_at(from, path, missing),
                    decrypt,
                    parse,
                );
            &&& request is None || request == Some(DiskRequest::Read { path })
            &&& after == files
            &&& load(after) == load(files)
        }),
{
}

/// The last store to a path wins: after a store to `path`, another store to `path` and a
/// store to any other path, loading from `path` gives back the second share and its
/// round, whatever the rounds of the three are. As in [`law_loads_what_was_stored`], the
/// cipher and the parser undo their counterparts; each store may encrypt in its own way,
/// and only the second has to be undone.
pub proof fn law_last_store_wins<K, P, E>(
    files: Map<P, Seq<u8>>,
    first: StoredLocalKey<K>,
    second: StoredLocalKey<K>,
    third: StoredLocalKey<K>,
    path: P,
    other: P,
    has_local_keystore: bool,
    secret_key: Option<Seq<u8>>,
    serialize: spec_fn(StoredLocalKey<K>) -> Option<Seq<char>>,
    encrypt_first: spec_fn(Seq<u8>, Seq<u8>) -> Result<Seq<u8>, Seq<char>>,
    encrypt_second: spec_fn(Seq<u8>, Seq<u8>) -> Result<Seq<u8>, Seq<char>>,
    encrypt_third: spec_fn(Seq<u8>, Seq<u8>) -> Result<Seq<u8>, Seq<char>>,
    decrypt: spec_fn(Seq<u8>, Seq<u8>) -> Result<Seq<u8>, Seq<char>>,
    parse: spec_fn(Seq<u8>) -> Option<StoredLocalKey<K>>,
    missing: E,
)
    requires
        path != other,
        undoes_encryption(encrypt_second, decrypt),
        undoes_serialization(serialize, parse),
    ensures
        ({
            let run = |
                stored: StoredLocalKey<K>,
                to: P,
                encrypt: spec_fn(Seq<u8>, Seq<u8>) -> Result<Seq<u8>, Seq<char>>,
            |
                store_run::<K, P, E>(
                    stored,
                    Some(to),
                    has_local_keystore,
                    secret_key,
                    serialize,
                    encrypt,
                );
            let after_first = files_after(files, run(first, path, encrypt_first));
            let after_second = files_after(after_first, run(second, path, encrypt_second));
            let after_third = files_after(after_second, run(third, other, encrypt_third));
            run(second, path, encrypt_second) is Ok ==> load_run::<K, P, E>(
                path,
                has_local_keystore,
                secret_key,
                file_at(after_third, path, missing),
                decrypt,
                parse,
            ) == Ok::<StoredLocalKey<K>, StorageErrorView<E>>(second)
        }),
{
    law_loads_what_was_stored::<K, P, E>(
        second,
        Some(path),
        has_local_keystore,
        secret_key,
        serialize,
        encrypt_second,
        decrypt,
        parse,
    );
}

} // verus!
