use file_storage::error::StorageError;
use file_storage::memory::MemoryStorage;

fn content(storage: &MemoryStorage, location: &str) -> Option<Vec<u8>> {
    storage.open(location).ok().map(|mut reader| reader.read_to_end())
}

#[test]
fn stored_object_is_opened_again() {
    let mut storage = MemoryStorage::new(1024);
    assert_eq!(storage.store_at("memory/a".to_string(), b"alpha"), Ok(5));
    assert_eq!(storage.store_at("memory/b".to_string(), b""), Ok(0));
    assert_eq!(content(&storage, "memory/a"), Some(b"alpha".to_vec()));
    assert_eq!(content(&storage, "memory/b"), Some(Vec::new()));
    assert!(storage.describe("memory/a"));
}

#[test]
fn open_of_an_absent_address_is_not_found() {
    let storage = MemoryStorage::new(1024);
    assert_eq!(storage.open("memory/none").err(), Some(StorageError::NotFound));
    assert!(!storage.describe("memory/none"));
}

#[test]
fn delete_of_an_absent_address_is_no_error() {
    let mut storage = MemoryStorage::new(1024);
    assert_eq!(storage.delete("memory/none"), Ok(()));
    storage.store_at("memory/a".to_string(), b"alpha").unwrap();
    assert_eq!(storage.delete("memory/a"), Ok(()));
    assert_eq!(storage.delete("memory/a"), Ok(()));
    assert_eq!(storage.open("memory/a").err(), Some(StorageError::NotFound));
}

#[test]
fn delete_leaves_the_other_objects() {
    let mut storage = MemoryStorage::new(1024);
    storage.store_at("memory/a".to_string(), b"alpha").unwrap();
    storage.store_at("memory/b".to_string(), b"beta").unwrap();
    storage.store_at("memory/c".to_string(), b"gamma").unwrap();
    storage.delete("memory/b").unwrap();
    assert_eq!(content(&storage, "memory/a"), Some(b"alpha".to_vec()));
    assert_eq!(content(&storage, "memory/c"), Some(b"gamma".to_vec()));
    assert!(!storage.describe("memory/b"));
}

#[test]
fn taken_address_is_not_written_over() {
    let mut storage = MemoryStorage::new(1024);
    storage.store_at("memory/a".to_string(), b"alpha").unwrap();
    assert_eq!(storage.store_at("memory/a".to_string(), b"other"), Err(StorageError::Transfer));
    assert_eq!(content(&storage, "memory/a"), Some(b"alpha".to_vec()));
}

#[test]
fn payload_over_the_limit_is_refused() {
    let mut storage = MemoryStorage::new(4);
    assert_eq!(storage.store_at("memory/a".to_string(), b"12345"), Err(StorageError::Transfer));
    assert!(!storage.describe("memory/a"));
    assert_eq!(storage.store_at("memory/a".to_string(), b"1234"), Ok(4));
    assert_eq!(storage.store(b"12345", Some("big.bin")).err(), Some(StorageError::Transfer));
}

#[test]
fn store_generates_the_address() {
    let mut storage = MemoryStorage::new(1024);
    let (first, written) = storage.store(b"payload", Some("../secret/Report.pdf")).unwrap();
    assert_eq!(written, 7);
    assert!(first.starts_with("memory/"));
    assert!(first.ends_with(".pdf"));
    assert_eq!(first.len(), "memory/".len() + 36 + ".pdf".len());
    assert!(!first["memory/".len()..].contains('/'));
    let (second, _) = storage.store(b"payload", Some("../secret/Report.pdf")).unwrap();
    assert_ne!(first, second);
    assert_eq!(content(&storage, &first), Some(b"payload".to_vec()));
    assert_eq!(content(&storage, &second), Some(b"payload".to_vec()));
}

#[test]
fn store_into_an_empty_backend_succeeds_within_the_limit() {
    let mut storage = MemoryStorage::new(8);
    let (location, written) = storage.store(b"12345678", None).unwrap();
    assert_eq!(written, 8);
    assert_eq!(content(&storage, &location), Some(b"12345678".to_vec()));
    let mut storage = MemoryStorage::new(0);
    let (location, written) = storage.store(b"", Some("empty.txt")).unwrap();
    assert_eq!(written, 0);
    assert!(location.ends_with(".txt"));
    assert!(storage.describe(&location));
}
