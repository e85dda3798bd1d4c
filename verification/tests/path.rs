use notes_storage::filesystem::{Filesystem, FilesystemMeta};
use notes_storage::models::{AnyCollection, Collection, StorageBackend};
use notes_storage::path::CollectionPath;

fn test_collection(name: &str) -> AnyCollection {
    Filesystem::erase_collection(Collection::new(
        FilesystemMeta {},
        String::from(name),
        1750073400,
        String::from("/somewhere/over/the/filesystem"),
    ))
}

fn collection_at(name: &str, location: &str) -> AnyCollection {
    Filesystem::erase_collection(Collection::new(
        FilesystemMeta {},
        String::from(name),
        1750073400,
        String::from(location),
    ))
}

#[test]
fn collection_new_works() {
    let _ = CollectionPath::new(vec![test_collection("a")]);
}

#[test]
fn collection_path_parent_returns_parent_path() {
    let path = CollectionPath::new(vec![test_collection("a"), test_collection("b")]);

    assert!(path.parent().is_some());
    assert!(path.parent().unwrap() == CollectionPath::new(vec![test_collection("a")]));
}

#[test]
fn collection_path_parent_returns_none_for_root() {
    let path = CollectionPath::new(vec![test_collection("a")]);

    assert!(path.parent().is_none());
}

#[test]
fn parent_drops_exactly_one_level() {
    let path = CollectionPath::new(vec![
        collection_at("a", "/a"),
        collection_at("b", "/a/b"),
        collection_at("c", "/a/b/c"),
    ]);

    let parent = path.parent().unwrap();
    assert_eq!(parent.iter().len(), 2);
    assert_eq!(parent.last().name(), "b");

    let grandparent = parent.parent().unwrap();
    assert_eq!(grandparent.iter().len(), 1);
    assert!(grandparent.parent().is_none());
}

#[test]
fn push_descends_one_level() {
    let mut path = CollectionPath::new(vec![collection_at("a", "/a")]);
    path.push(collection_at("b", "/a/b"));

    assert_eq!(path.iter().len(), 2);
    assert_eq!(path.last().name(), "b");
    assert_eq!(path.last().location(), "/a/b");

    let names: Vec<String> = path.iter().iter().map(|c| c.name()).collect();
    assert_eq!(names, vec![String::from("a"), String::from("b")]);
}

#[test]
fn path_equality_is_by_location_sequence() {
    let p1 = CollectionPath::new(vec![collection_at("a", "/a"), collection_at("b", "/a/b")]);
    let p2 = CollectionPath::new(vec![collection_at("x", "/a"), collection_at("y", "/a/b")]);
    let p3 = CollectionPath::new(vec![collection_at("a", "/a"), collection_at("b", "/a/c")]);
    let p4 = CollectionPath::new(vec![collection_at("a", "/a")]);

    assert!(p1 == p2);
    assert!(p1 != p3);
    assert!(p1 != p4);
}
