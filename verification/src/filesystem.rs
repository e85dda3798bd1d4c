//! The filesystem backend: items map one-to-one onto entries of a
//! hierarchical file store under a configured root, located by `file://`
//! URIs. No sidecar metadata is written, so the per-item metadata types are
//! empty: the location in the shared attributes is all the backend needs to
//! perform I/O.

use vstd::prelude::*;
use vstd::string::{StrSliceExecFns, StringExecFns};

use crate::errors::{Error, IoFailure, ReadError, WriteError};
use crate::models::{
    AnyAttachment, AnyCollection, AnyItem, AnyNote, Attachment, Collection, ItemModel, Meta, Note,
    StorageBackend,
};
use crate::path::CollectionPath;
use crate::storage::{
    DirEntry, EntryKind, NoteContent, SaveRequest, TypedItemStorage, item_for_entry,
};

verus! {

/// The index of the last `/` in `s`, when there is one.
pub open spec fn last_slash(s: Seq<char>) -> Option<int>
    decreases s.len(),
{
    if s.len() == 0 {
        None
    } else if s.last() == '/' {
        Some(s.len() - 1)
    } else {
        last_slash(s.drop_last())
    }
}

/// Everything before the last `/` of a locator: the parent's locator.
pub open spec fn parent_location(s: Seq<char>) -> Option<Seq<char>> {
    match last_slash(s) {
        Some(i) => Some(s.take(i)),
        None => None,
    }
}

/// Everything after the last `/` of a locator: the resource's own name.
pub open spec fn base_name(s: Seq<char>) -> Seq<char> {
    match last_slash(s) {
        Some(i) => s.skip(i + 1),
        None => s,
    }
}

/// The locator of a child named `name` under the collection at `dir`.
pub open spec fn child_location_of(dir: Seq<char>, name: Seq<char>) -> Seq<char> {
    dir + "/"@ + name
}

/// The locator a note at `loc` moves to when renamed to `new_name`: the same
/// parent, the new name.
pub open spec fn sibling_location(loc: Seq<char>, new_name: Seq<char>) -> Option<Seq<char>> {
    match parent_location(loc) {
        Some(p) => Some(child_location_of(p, new_name)),
        None => None,
    }
}

/// Whether the location string selects the filesystem backend.
pub open spec fn has_file_scheme(s: Seq<char>) -> bool {
    s.len() >= 7 && s.take(7) == "file://"@
}

/// The index of the last `/` in `s`, scanning from the end.
fn rfind_slash(s: &str) -> (r: Option<usize>)
    ensures
        r matches Some(i) ==> i < s@.len() && last_slash(s@) == Some(i as int),
        r is None ==> last_slash(s@) is None,
{
    let n = s.unicode_len();
    let mut i: usize = n;
    proof {
        assert(s@.take(n as int) =~= s@);
    }
    while i > 0
        invariant
            i <= n == s@.len(),
            last_slash(s@) == last_slash(s@.take(i as int)),
        decreases i,
    {
        let c = s.get_char(i - 1);
        if c == '/' {
            proof {
                assert(s@.take(i as int).last() == s@[i - 1]);
                assert(last_slash(s@.take(i as int)) == Some(i - 1));
            }
            return Some(i - 1);
        }
        proof {
            assert(s@.take(i as int).drop_last() =~= s@.take(i - 1));
        }
        i -= 1;
    }
    proof {
        assert(s@.take(0).len() == 0);
    }
    None
}

/// The parent part of a locator, or nothing for a locator without `/`.
fn parent_uri(s: &str) -> (r: Option<String>)
    ensures
        r is Some <==> parent_location(s@) is Some,
        r matches Some(p) ==> parent_location(s@) == Some(p@),
{
    match rfind_slash(s) {
        Some(i) => Some(s.substring_char(0, i).to_owned()),
        None => None,
    }
}

/// The name part of a locator: everything after its last `/`.
fn uri_base_name(s: &str) -> (r: String)
    ensures
        r@ == base_name(s@),
{
    let n = s.unicode_len();
    match rfind_slash(s) {
        Some(i) => s.substring_char(i + 1, n).to_owned(),
        None => s.to_owned(),
    }
}

/// The locator of a child named `name` under the collection at `dir`.
fn child_uri(dir: &str, name: &str) -> (r: String)
    ensures
        r@ == child_location_of(dir@, name@),
{
    dir.to_owned().concat("/").concat(name)
}

/// Whether the location string starts with the `file://` scheme prefix.
pub fn uri_has_file_scheme(s: &str) -> (r: bool)
    ensures
        r == has_file_scheme(s@),
{
    proof {
        reveal_strlit("file://");
    }
    let n = s.unicode_len();
    if n < 7 {
        return false;
    }
    let r = s.get_char(0) == 'f' && s.get_char(1) == 'i' && s.get_char(2) == 'l' && s.get_char(3)
        == 'e' && s.get_char(4) == ':' && s.get_char(5) == '/' && s.get_char(6) == '/';
    proof {
        if r {
            assert(s@.take(7) =~= "file://"@);
        } else {
            assert(s@.take(7) != "file://"@) by {
                if s@.take(7) == "file://"@ {
                    assert(s@[0] == "file://"@[0]);
                    assert(s@[1] == "file://"@[1]);
                    assert(s@[2] == "file://"@[2]);
                    assert(s@[3] == "file://"@[3]);
                    assert(s@[4] == "file://"@[4]);
                    assert(s@[5] == "file://"@[5]);
                    assert(s@[6] == "file://"@[6]);
                }
            }
        }
    }
    r
}

/// Relies on `String::from_utf8`: it succeeds exactly on valid UTF-8 input,
/// and the returned string holds the characters those bytes encode.
#[verifier::external_body]
fn string_from_utf8(bytes: Vec<u8>) -> (r: Option<String>)
    ensures
        r is Some <==> vstd::utf8::valid_utf8(bytes@),
        r matches Some(s) ==> s@ == vstd::utf8::decode_utf8(bytes@),
{
    String::from_utf8(bytes).ok()
}

/// Metadata the filesystem backend attaches to each of its items: nothing,
/// the resource locator in the item's shared attributes suffices.
#[derive(Debug, Clone, Copy)]
pub struct FilesystemMeta {}

impl Meta for FilesystemMeta {}

/// The filesystem backend descriptor.
#[derive(Clone, Copy)]
pub struct Filesystem;

impl StorageBackend for Filesystem {
    type NoteMeta = FilesystemMeta;

    type CollectionMeta = FilesystemMeta;

    type AttachmentMeta = FilesystemMeta;

    open spec fn owns_note(a: AnyNote) -> bool {
        a matches AnyNote::Filesystem(_)
    }

    open spec fn owns_collection(a: AnyCollection) -> bool {
        a matches AnyCollection::Filesystem(_)
    }

    open spec fn owns_attachment(a: AnyAttachment) -> bool {
        a matches AnyAttachment::Filesystem(_)
    }

    fn erase_note(n: Note<Filesystem>) -> AnyNote {
        AnyNote::Filesystem(n)
    }

    fn erase_collection(c: Collection<Filesystem>) -> AnyCollection {
        AnyCollection::Filesystem(c)
    }

    fn erase_attachment(a: Attachment<Filesystem>) -> AnyAttachment {
        AnyAttachment::Filesystem(a)
    }

    fn recover_note(a: &AnyNote) -> Option<Note<Filesystem>> {
        match a {
            AnyNote::Filesystem(n) => Some(
                Note { item: n.item.duplicate(), meta: FilesystemMeta {  } },
            ),
        }
    }

    fn recover_collection(a: &AnyCollection) -> Option<Collection<Filesystem>> {
        match a {
            AnyCollection::Filesystem(c) => Some(
                Collection { item: c.item.duplicate(), meta: FilesystemMeta {  } },
            ),
        }
    }

    fn recover_attachment(a: &AnyAttachment) -> Option<Attachment<Filesystem>> {
        match a {
            AnyAttachment::Filesystem(t) => Some(
                Attachment { item: t.item.duplicate(), meta: FilesystemMeta {  } },
            ),
        }
    }
}

/// The typed storage over a hierarchical file store, rooted at a configured
/// `file://` location.
pub struct FilesystemStorage {
    pub root: Collection<Filesystem>,
}

impl FilesystemStorage {
    /// Resolves the configured root.
    ///
    /// `probe` is the application's stat of the root resource: its
    /// modification time when it exists, the failure otherwise. An absent
    /// root is `DoesNotExist`; any other failed probe is an I/O error.
    pub fn from_uri(root_uri: &str, probe: Result<i64, IoFailure>) -> (r: Result<
        FilesystemStorage,
        Error,
    >)
        ensures
            ({
                match probe {
                    Ok(mtime) => r matches Ok(s) && s.root.item@ == (ItemModel {
                        name: base_name(root_uri@),
                        updated_at: mtime as int,
                        location: root_uri@,
                    }),
                    Err(f) => match f {
                        IoFailure::NotFound(_) => r matches Err(e)
                            && e matches Error::DoesNotExist { uri } && uri@ == root_uri@,
                        _ => r matches Err(e) && e matches Error::IoError(m) && m@
                            == f.spec_message(),
                    },
                }
            }),
    {
        match probe {
            Ok(mtime) => {
                let name = uri_base_name(root_uri);
                let root = Collection::new(FilesystemMeta {  }, name, mtime, root_uri.to_owned());
                Ok(FilesystemStorage { root })
            },
            Err(f) => match f {
                IoFailure::NotFound(_) => Err(Error::DoesNotExist { uri: root_uri.to_owned() }),
                IoFailure::Conflict(m) => Err(Error::IoError(m)),
                IoFailure::Other(m) => Err(Error::IoError(m)),
            },
        }
    }
}

impl TypedItemStorage<Filesystem> for FilesystemStorage {
    open spec fn root_model(&self) -> ItemModel {
        self.root.item@
    }

    open spec fn child_location(&self, dir: Seq<char>, name: Seq<char>) -> Seq<char> {
        child_location_of(dir, name)
    }

    open spec fn rename_location(&self, loc: Seq<char>, new_name: Seq<char>) -> Option<Seq<char>> {
        sibling_location(loc, new_name)
    }

    fn root(&self) -> Collection<Filesystem> {
        Collection { item: self.root.item.duplicate(), meta: self.root.meta }
    }

    fn list_items(&self, path: &CollectionPath, listing: Result<Vec<DirEntry>, IoFailure>) -> Result<
        Vec<AnyItem>,
        ReadError,
    > {
        let dir = path.last().location();
        match listing {
            Err(f) => Err(ReadError::from_failure(f)),
            Ok(entries) => {
                let mut items: Vec<AnyItem> = Vec::new();
                let mut idx: usize = 0;
                while idx < entries.len()
                    invariant
                        idx <= entries@.len(),
                        items@.len() == idx,
                        dir@ == path@.last().location,
                        forall|j: int|
                            0 <= j < idx ==> item_for_entry(
                                child_location_of(path@.last().location, entries@[j]@.name),
                                entries@[j]@,
                                #[trigger] items@[j],
                            ),
                    decreases entries@.len() - idx,
                {
                    let e = &entries[idx];
                    let loc = child_uri(dir.as_str(), e.name.as_str());
                    let item = match e.kind {
                        EntryKind::File => AnyItem::Note(
                            Filesystem::erase_note(
                                Note::new(FilesystemMeta {  }, e.name.clone(), e.updated_at, loc),
                            ),
                        ),
                        EntryKind::Directory => AnyItem::Collection(
                            Filesystem::erase_collection(
                                Collection::new(
                                    FilesystemMeta {  },
                                    e.name.clone(),
                                    e.updated_at,
                                    loc,
                                ),
                            ),
                        ),
                        EntryKind::Special => AnyItem::Attachment(
                            Filesystem::erase_attachment(
                                Attachment::new(
                                    FilesystemMeta {  },
                                    e.name.clone(),
                                    e.updated_at,
                                    loc,
                                ),
                            ),
                        ),
                    };
                    items.push(item);
                    idx += 1;
                }
                Ok(items)
            },
        }
    }

    fn rename_target(&self, note: &Note<Filesystem>, new_name: &str) -> Result<String, WriteError> {
        match parent_uri(note.item.location.as_str()) {
            Some(p) => Ok(p.concat("/").concat(new_name)),
            None => Err(WriteError::IoError("error moving file".to_owned())),
        }
    }

    fn rename_note(
        &self,
        note: &Note<Filesystem>,
        new_name: &str,
        outcome: Result<i64, IoFailure>,
    ) -> Result<Note<Filesystem>, WriteError> {
        match parent_uri(note.item.location.as_str()) {
            None => Err(WriteError::IoError("error moving file".to_owned())),
            Some(p) => match outcome {
                Err(f) => Err(WriteError::from_failure(f)),
                Ok(mtime) => {
                    let loc = p.concat("/").concat(new_name);
                    Ok(Note::new(FilesystemMeta {  }, new_name.to_owned(), mtime, loc))
                },
            },
        }
    }

    fn load_content(
        &self,
        note: &Note<Filesystem>,
        data: Result<(Vec<u8>, Option<String>), IoFailure>,
    ) -> Result<NoteContent, ReadError> {
        match data {
            Err(f) => Err(ReadError::from_failure(f)),
            Ok((bytes, etag)) => match string_from_utf8(bytes) {
                Some(content) => Ok(NoteContent { content, etag }),
                None => Err(ReadError::DecodeError),
            },
        }
    }

    fn save_request(&self, note: &Note<Filesystem>, content: &NoteContent) -> SaveRequest {
        let etag = match &content.etag {
            Some(t) => Some(t.clone()),
            None => None,
        };
        SaveRequest { uri: note.item.location.clone(), content: content.content.clone(), etag }
    }

    fn save_content(
        &self,
        note: &Note<Filesystem>,
        content: &NoteContent,
        outcome: Result<String, IoFailure>,
    ) -> Result<String, WriteError> {
        match outcome {
            Ok(new_etag) => Ok(new_etag),
            Err(f) => Err(WriteError::from_failure(f)),
        }
    }
}

} // verus!
