use notes_storage::build_storage_from_url;
use notes_storage::errors::{Error, IoFailure};
use notes_storage::filesystem::{Filesystem, FilesystemMeta};
use notes_storage::models::{Attachment, Collection, ItemKind, Note, StorageBackend};
use notes_storage::path::CollectionPath;
use notes_storage::storage::{DirEntry, EntryKind, ItemStorage, NoteContent};

fn erased_collection(name: &str, location: &str) -> notes_storage::models::AnyCollection {
    Filesystem::erase_collection(Collection::new(
        FilesystemMeta {},
        String::from(name),
        7,
        String::from(location),
    ))
}

#[test]
fn narrowing_checks_the_kind_and_never_cross_casts() {
    let item = erased_collection("b", "file:///notes/b").as_item();

    assert!(item.as_note().is_none());
    assert!(item.as_attachment().is_none());

    let collection = item.as_collection().unwrap();
    assert_eq!(collection.name(), "b");
    assert_eq!(collection.location(), item.location());
}

#[test]
fn narrowing_a_note_keeps_its_attributes() {
    let note = Filesystem::erase_note(Note::new(
        FilesystemMeta {},
        String::from("a.md"),
        3,
        String::from("file:///notes/a.md"),
    ));
    let item = note.as_item();

    assert_eq!(item.kind(), ItemKind::Note);
    assert!(item.as_collection().is_none());
    let back = item.as_note().unwrap();
    assert_eq!(back.name(), "a.md");
    assert_eq!(back.updated_at(), 3);
    assert_eq!(back.location(), "file:///notes/a.md");
}

#[test]
fn item_equality_is_location_only() {
    let one = Filesystem::erase_note(Note::new(
        FilesystemMeta {},
        String::from("old name"),
        1,
        String::from("file:///notes/same"),
    ))
    .as_item();
    let other = Filesystem::erase_attachment(Attachment::new(
        FilesystemMeta {},
        String::from("new name"),
        2,
        String::from("file:///notes/same"),
    ))
    .as_item();
    let elsewhere = erased_collection("old name", "file:///notes/other").as_item();

    assert!(one == other);
    assert!(one != elsewhere);
}

#[test]
fn factory_rejects_an_unknown_scheme() {
    let r = build_storage_from_url("sftp://host/notes", Ok(1));
    match r {
        Err(Error::UnknownStorageBackend(uri)) => assert_eq!(uri, "sftp://host/notes"),
        _ => panic!("expected UnknownStorageBackend"),
    }
}

#[test]
fn factory_reports_a_missing_root() {
    let r = build_storage_from_url(
        "file:///gone",
        Err(IoFailure::NotFound(String::from("no such directory"))),
    );
    assert!(matches!(r, Err(Error::DoesNotExist { .. })));
}

#[test]
fn erased_storage_serves_the_full_operation_set() {
    let storage = build_storage_from_url("file:///notes", Ok(100)).unwrap();

    let root = storage.root();
    assert_eq!(root.name(), "notes");
    assert_eq!(root.location(), "file:///notes");

    let path = CollectionPath::new(vec![root]);
    let items = storage
        .list_items(
            &path,
            Ok(vec![DirEntry {
                name: String::from("a.md"),
                kind: EntryKind::File,
                updated_at: 11,
            }]),
        )
        .unwrap();
    assert_eq!(items.len(), 1);
    assert_eq!(items[0].kind(), ItemKind::Note);

    let note = items[0].as_note().unwrap();

    let loaded = storage
        .load_content(
            &note,
            Ok((String::from("text").into_bytes(), Some(String::from("e1")))),
        )
        .unwrap();
    assert_eq!(loaded.content, "text");
    assert_eq!(loaded.etag.as_deref(), Some("e1"));

    let request = storage.save_request(&note, &loaded).unwrap();
    assert_eq!(request.uri, "file:///notes/a.md");
    assert_eq!(request.etag.as_deref(), Some("e1"));

    let new_etag = storage
        .save_content(&note, &loaded, Ok(String::from("e2")))
        .unwrap();
    assert_eq!(new_etag, "e2");

    let renamed = storage.rename_note(&note, "z.md", Ok(12)).unwrap();
    assert_eq!(renamed.name(), "z.md");
    assert_eq!(renamed.location(), "file:///notes/z.md");

    let content = NoteContent {
        content: String::from("fresh"),
        etag: None,
    };
    let unconditional = storage.save_request(&renamed, &content).unwrap();
    assert!(unconditional.etag.is_none());
}

#[test]
fn error_messages_render_their_cause() {
    let e = Error::DoesNotExist {
        uri: String::from("file:///gone"),
    };
    assert_eq!(e.message(), "could not find file:///gone");

    let u = Error::UnknownStorageBackend(String::from("sftp://host"));
    assert_eq!(u.message(), "unknown storage backend sftp://host");
}
