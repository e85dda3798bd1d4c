use notes_storage::errors::{Error, IoFailure, ReadError, WriteError};
use notes_storage::filesystem::{Filesystem, FilesystemMeta, FilesystemStorage};
use notes_storage::models::{ItemKind, Note, StorageBackend};
use notes_storage::path::CollectionPath;
use notes_storage::storage::{DirEntry, EntryKind, NoteContent, TypedItemStorage};

fn storage() -> FilesystemStorage {
    FilesystemStorage::from_uri("file:///notes", Ok(100)).unwrap()
}

fn root_path(storage: &FilesystemStorage) -> CollectionPath {
    CollectionPath::new(vec![Filesystem::erase_collection(storage.root())])
}

fn note_for(storage: &FilesystemStorage, name: &str) -> Note<Filesystem> {
    let mut location = String::from("file:///notes/");
    location.push_str(name);
    Note::new(FilesystemMeta {}, String::from(name), 1, location)
}

fn entry(name: &str, kind: EntryKind, updated_at: i64) -> DirEntry {
    DirEntry {
        name: String::from(name),
        kind,
        updated_at,
    }
}

#[test]
fn from_uri_resolves_the_root() {
    let s = storage();
    assert_eq!(s.root.item.name, "notes");
    assert_eq!(s.root.item.location, "file:///notes");
    assert_eq!(s.root.item.updated_at, 100);
}

#[test]
fn from_uri_reports_a_missing_root() {
    let r = FilesystemStorage::from_uri("file:///gone", Err(IoFailure::NotFound(String::from("no such directory"))));
    match r {
        Err(Error::DoesNotExist { uri }) => assert_eq!(uri, "file:///gone"),
        _ => panic!("expected DoesNotExist"),
    }
}

#[test]
fn from_uri_reports_an_unreadable_root() {
    let r = FilesystemStorage::from_uri("file:///notes", Err(IoFailure::Other(String::from("permission denied"))));
    match r {
        Err(Error::IoError(m)) => assert_eq!(m, "permission denied"),
        _ => panic!("expected IoError"),
    }
}

#[test]
fn list_items_classifies_each_entry() {
    let s = storage();
    let path = root_path(&s);
    let listing = vec![
        entry("a.md", EntryKind::File, 11),
        entry("b", EntryKind::Directory, 12),
        entry("c", EntryKind::Special, 13),
    ];

    let items = s.list_items(&path, Ok(listing)).unwrap();

    assert_eq!(items.len(), 3);
    assert_eq!(items[0].kind(), ItemKind::Note);
    assert_eq!(items[0].name(), "a.md");
    assert_eq!(items[0].location(), "file:///notes/a.md");
    assert_eq!(items[0].updated_at(), 11);
    assert_eq!(items[1].kind(), ItemKind::Collection);
    assert_eq!(items[1].name(), "b");
    assert_eq!(items[1].location(), "file:///notes/b");
    assert_eq!(items[2].kind(), ItemKind::Attachment);
    assert_eq!(items[2].name(), "c");
    assert_eq!(items[2].location(), "file:///notes/c");
}

#[test]
fn list_items_propagates_an_enumeration_failure() {
    let s = storage();
    let path = root_path(&s);
    let r = s.list_items(&path, Err(IoFailure::Other(String::from("disk on fire"))));
    match r {
        Err(ReadError::IoError(m)) => assert_eq!(m, "disk on fire"),
        _ => panic!("expected IoError"),
    }
}

#[test]
fn rename_note_moves_to_a_sibling_location() {
    let s = storage();
    let note = note_for(&s, "a.md");

    let target = s.rename_target(&note, "z.md").unwrap();
    assert_eq!(target, "file:///notes/z.md");

    let renamed = s.rename_note(&note, "z.md", Ok(42)).unwrap();
    assert_eq!(renamed.item.name, "z.md");
    assert_eq!(renamed.item.location, "file:///notes/z.md");
    assert_eq!(renamed.item.updated_at, 42);

    // After the move the backend no longer reports the old entry; the next
    // listing carries only the new name.
    let path = root_path(&s);
    let items = s
        .list_items(&path, Ok(vec![entry("z.md", EntryKind::File, 42)]))
        .unwrap();
    assert!(items.iter().all(|i| i.name() != "a.md"));
    assert!(items.iter().any(|i| i.name() == "z.md"));
}

#[test]
fn rename_note_propagates_a_move_failure() {
    let s = storage();
    let note = note_for(&s, "a.md");
    let r = s.rename_note(&note, "z.md", Err(IoFailure::Other(String::from("target exists"))));
    match r {
        Err(WriteError::IoError(m)) => assert_eq!(m, "target exists"),
        _ => panic!("expected IoError"),
    }
}

#[test]
fn rename_note_rejects_a_location_without_a_parent() {
    let s = storage();
    let note = Note::new(FilesystemMeta {}, String::from("odd"), 1, String::from("no-slash-here"));
    assert!(matches!(s.rename_target(&note, "z.md"), Err(WriteError::IoError(_))));
    assert!(matches!(s.rename_note(&note, "z.md", Ok(1)), Err(WriteError::IoError(_))));
}

#[test]
fn load_content_decodes_text_and_captures_the_etag() {
    let s = storage();
    let note = note_for(&s, "a.md");
    let bytes = String::from("hello note").into_bytes();

    let content = s
        .load_content(&note, Ok((bytes, Some(String::from("etag-1")))))
        .unwrap();
    assert_eq!(content.content, "hello note");
    assert_eq!(content.etag.as_deref(), Some("etag-1"));
}

#[test]
fn load_content_rejects_invalid_text() {
    let s = storage();
    let note = note_for(&s, "a.md");
    let r = s.load_content(&note, Ok((vec![0xff, 0xfe, 0x00], None)));
    assert!(matches!(r, Err(ReadError::DecodeError)));
}

#[test]
fn load_content_fails_on_a_deleted_resource() {
    let s = storage();
    let note = note_for(&s, "a.md");
    let r = s.load_content(&note, Err(IoFailure::NotFound(String::from("no such file"))));
    assert!(matches!(r, Err(ReadError::IoError(_))));
}

#[test]
fn save_round_trip_carries_the_token_and_yields_a_fresh_one() {
    let s = storage();
    let note = note_for(&s, "a.md");

    // Load, then save the same bytes guarded by the token the load captured.
    let loaded = s
        .load_content(&note, Ok((String::from("body").into_bytes(), Some(String::from("etag-1")))))
        .unwrap();
    let request = s.save_request(&note, &loaded);
    assert_eq!(request.uri, "file:///notes/a.md");
    assert_eq!(request.content, "body");
    assert_eq!(request.etag.as_deref(), Some("etag-1"));

    let new_etag = s
        .save_content(&note, &loaded, Ok(String::from("etag-2")))
        .unwrap();
    assert_eq!(new_etag, "etag-2");

    // Reusing the stale token: the backend rejects the guarded write and the
    // rejection surfaces as a conflict-class I/O error.
    let stale = s.save_content(
        &note,
        &loaded,
        Err(IoFailure::Conflict(String::from("etag does not match"))),
    );
    match stale {
        Err(WriteError::IoError(m)) => assert_eq!(m, "etag does not match"),
        _ => panic!("expected a conflict-class IoError"),
    }
}

#[test]
fn save_request_without_a_token_is_unconditional() {
    let s = storage();
    let note = note_for(&s, "a.md");
    let content = NoteContent {
        content: String::from("body"),
        etag: None,
    };
    let request = s.save_request(&note, &content);
    assert!(request.etag.is_none());
}
