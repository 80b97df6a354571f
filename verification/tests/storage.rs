use dkg_gadget::persistence::storage::{
    load_stored_key, store_localkey, StorageError, StoredLocalKey,
};
use std::collections::BTreeMap;

type Failure<T> = Result<T, StorageError<u8>>;

fn other<T>(reason: &str) -> Failure<T> {
    Err(StorageError::Other(reason.to_string()))
}

fn error_of<T>(result: Failure<T>) -> Failure<()> {
    result.map(|_| ())
}

fn found(secret: &[u8]) -> Result<Option<Vec<u8>>, u8> {
    Ok(Some(secret.to_vec()))
}

fn xor(data: &[u8], secret: &[u8]) -> Result<Vec<u8>, String> {
    Ok(data.iter().map(|byte| byte ^ secret[0]).collect())
}

#[test]
fn storing_needs_a_path() {
    let stage: Failure<_> = store_localkey(5u64, 1, None::<&str>, true);
    assert_eq!(error_of(stage), other("Path not defined"));
    let stage: Failure<_> = store_localkey(5u64, 1, None::<&str>, false);
    assert_eq!(error_of(stage), other("Path not defined"));
}

#[test]
fn storing_needs_a_keystore() {
    let stage: Failure<_> = store_localkey(5u64, 1, Some("file"), false);
    assert_eq!(error_of(stage), other("Local keystore doesn't exist"));
}

#[test]
fn storing_needs_a_key_pair() {
    for answer in [Ok(None), Err(3u8)] {
        let stage: Failure<_> = store_localkey(5u64, 1, Some("file"), true);
        let next: Failure<_> = stage.unwrap().key_pair(answer);
        assert_eq!(error_of(next), other("Local key pair doesn't exist for sr25519 key"));
    }
}

#[test]
fn storing_needs_a_serialised_key() {
    let stage: Failure<_> = store_localkey(5u64, 1, Some("file"), true);
    let stage: Failure<_> = stage.unwrap().key_pair(found(&[9]));
    let next: Failure<_> = stage.unwrap().serialized(Err(()));
    assert_eq!(error_of(next), other("Serialization failed"));
}

#[test]
fn storing_passes_on_what_the_cipher_and_the_disk_say() {
    let begin = || {
        let stage: Failure<_> = store_localkey(5u64, 1, Some("file"), true);
        let stage: Failure<_> = stage.unwrap().key_pair(found(&[9]));
        let stage: Failure<_> = stage.unwrap().serialized(Ok::<String, ()>("x".to_string()));
        stage.unwrap()
    };
    let next: Failure<_> = begin().encrypted(Err("no cipher".to_string()));
    assert_eq!(error_of(next), other("no cipher"));
    let next: Failure<_> = begin().encrypted(Ok(vec![1]));
    assert_eq!(next.unwrap().written(Err(7u8)), Err(StorageError::Io(7)));
}

#[test]
fn storing_hands_each_stage_its_values() {
    let stage: Failure<_> = store_localkey(5u64, 1, Some("file"), true);
    let stage = stage.unwrap();
    assert_eq!(stage.stored, StoredLocalKey { round_id: 1, local_key: 5 });
    let stage: Failure<_> = stage.key_pair(found(&[9, 8]));
    let stage = stage.unwrap();
    assert_eq!(stage.secret_key, vec![9, 8]);
    let stage: Failure<_> = stage.serialized(Ok::<String, ()>("k\u{e9}y".to_string()));
    let stage = stage.unwrap();
    assert_eq!(stage.data, vec![b'k', 0xc3, 0xa9, b'y']);
    assert_eq!(stage.secret_key, vec![9, 8]);
    let stage: Failure<_> = stage.encrypted(Ok(vec![4, 4]));
    let stage = stage.unwrap();
    assert_eq!((stage.path, stage.data.clone()), ("file", vec![4, 4]));
    assert_eq!(stage.written(Ok::<(), u8>(())), Ok(()));
}

#[test]
fn loading_needs_a_keystore_and_a_key_pair() {
    let stage: Failure<_> = load_stored_key("file", false);
    assert_eq!(error_of(stage), other("Local keystore doesn't exist"));
    for answer in [Ok(None), Err(3u8)] {
        let stage: Failure<_> = load_stored_key("file", true);
        let next: Failure<_> = stage.unwrap().key_pair(answer);
        assert_eq!(error_of(next), other("Local key pair doesn't exist for sr25519 key"));
    }
}

#[test]
fn loading_passes_on_what_went_wrong() {
    let begin = || {
        let stage: Failure<_> = load_stored_key("file", true);
        let stage: Failure<_> = stage.unwrap().key_pair(found(&[9]));
        stage.unwrap()
    };
    let next: Failure<_> = begin().read(Err(2u8));
    assert_eq!(error_of(next), Err(StorageError::Io(2)));
    let stage: Failure<_> = begin().read(Ok(vec![1]));
    let next: Failure<_> = stage.unwrap().decrypted(Err("wrong key".to_string()));
    assert_eq!(error_of(next), other("wrong key"));
    let stage: Failure<_> = begin().read(Ok(vec![1]));
    let stage: Failure<_> = stage.unwrap().decrypted(Ok(vec![1]));
    let key: Failure<StoredLocalKey<u64>> = stage.unwrap().parsed(Err(()));
    assert_eq!(key, other("Deserialization failed"));
}

#[test]
fn stored_key_is_loaded_again() {
    let secret = [0x5au8];
    let stage: Failure<_> = store_localkey(77u64, 12, Some("file"), true);
    let stage: Failure<_> = stage.unwrap().key_pair(found(&secret));
    let stage = stage.unwrap();
    let text = format!("{}:{}", stage.stored.round_id, stage.stored.local_key);
    let stage: Failure<_> = stage.serialized(Ok::<String, ()>(text));
    let stage = stage.unwrap();
    let sealed = xor(&stage.data, &stage.secret_key);
    let stage: Failure<_> = stage.encrypted(sealed);
    let file = stage.unwrap().data;
    assert_ne!(file, b"12:77".to_vec());

    let stage: Failure<_> = load_stored_key("file", true);
    let stage: Failure<_> = stage.unwrap().key_pair(found(&secret));
    let stage: Failure<_> = stage.unwrap().read(Ok(file));
    let stage = stage.unwrap();
    let plain = xor(&stage.data, &stage.secret_key);
    let stage: Failure<_> = stage.decrypted(plain);
    let stage = stage.unwrap();
    assert_eq!(stage.data, b"12:77".to_vec());
    let parsed: Result<_, ()> = Ok(StoredLocalKey { round_id: 12, local_key: 77u64 });
    let key: Failure<_> = stage.parsed(parsed);
    assert_eq!(key, Ok(StoredLocalKey { round_id: 12, local_key: 77 }));
}

type Files = BTreeMap<&'static str, Vec<u8>>;

fn store(files: &mut Files, key: u64, round_id: u64, path: &'static str) -> Failure<()> {
    let stage: Failure<_> = store_localkey(key, round_id, Some(path), true);
    let stage: Failure<_> = stage?.key_pair(found(&[0x33]));
    let stage = stage?;
    let text = format!("{}:{}", stage.stored.round_id, stage.stored.local_key);
    let stage: Failure<_> = stage.serialized(Ok::<String, ()>(text));
    let stage = stage?;
    let sealed = xor(&stage.data, &stage.secret_key);
    let stage: Failure<_> = stage.encrypted(sealed);
    let stage = stage?;
    files.insert(stage.path, stage.data.clone());
    stage.written(Ok(()))
}

fn load(files: &Files, path: &'static str) -> Failure<StoredLocalKey<u64>> {
    let stage: Failure<_> = load_stored_key(path, true);
    let stage: Failure<_> = stage?.key_pair(found(&[0x33]));
    let stage = stage?;
    let file = files.get(stage.path).cloned().ok_or(2u8);
    let stage = stage.read(file)?;
    let plain = xor(&stage.data, &stage.secret_key);
    let stage: Failure<_> = stage.decrypted(plain);
    let stage = stage?;
    let text = String::from_utf8(stage.data.clone()).unwrap();
    let parts: Vec<u64> = text.split(':').map(|part| part.parse().unwrap()).collect();
    let parsed: Result<_, ()> = Ok(StoredLocalKey { round_id: parts[0], local_key: parts[1] });
    stage.parsed(parsed)
}

#[test]
fn loading_can_be_repeated() {
    let mut files = Files::new();
    assert_eq!(load(&files, "file"), Err(StorageError::Io(2)));
    assert_eq!(load(&files, "file"), Err(StorageError::Io(2)));
    assert_eq!(store(&mut files, 10, 8, "file"), Ok(()));
    let stored = files.clone();
    for _ in 0..2 {
        assert_eq!(load(&files, "file"), Ok(StoredLocalKey { round_id: 8, local_key: 10 }));
        assert_eq!(files, stored);
    }
}

#[test]
fn last_store_to_a_path_wins() {
    let mut files = Files::new();
    assert_eq!(load(&files, "file"), Err(StorageError::Io(2)));
    assert_eq!(store(&mut files, 10, 8, "file"), Ok(()));
    assert_eq!(store(&mut files, 20, 7, "file"), Ok(()));
    assert_eq!(store(&mut files, 30, 9, "other"), Ok(()));
    assert_eq!(load(&files, "file"), Ok(StoredLocalKey { round_id: 7, local_key: 20 }));
    assert_eq!(load(&files, "other"), Ok(StoredLocalKey { round_id: 9, local_key: 30 }));
}
