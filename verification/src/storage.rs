//! The storage interfaces and the type-erasure adapter between them.
//!
//! [`TypedItemStorage`] is the strongly-typed interface a backend author
//! implements once per backend: every item parameter and result uses the
//! backend's concrete item types. [`ItemStorage`] is the structurally
//! identical consumer-facing interface in which every item is erased. The
//! adapter [`DynItemStorage`] bridges the two: outputs are boxed into their
//! erased form (always safe), and inputs that arrive erased are narrowed back
//! with a single checked recovery keyed on the backend descriptor — an item
//! from another backend is reported as `MismatchedStorageBackend`, never
//! reinterpreted.
//!
//! The storage operations are split at the I/O edge: the application performs
//! the backend round trip and hands the outcome in as a plain value (a
//! listing, loaded bytes with a version token, a write acknowledgement), and
//! the operations here decide everything else — targets, classification,
//! decoding, error propagation and the optimistic-concurrency protocol.

use vstd::prelude::*;

use crate::errors::{IoFailure, ReadError, WriteError};
use crate::models::{
    AnyCollection, AnyItem, AnyNote, Collection, ItemKind, ItemModel, Note, StorageBackend,
};
use crate::path::CollectionPath;

verus! {

/// The text of a note plus the version token captured when it was read.
///
/// A `None` etag means "no known prior version": a save built from it is
/// unconditional. A present etag asks the backend to reject the write if the
/// resource changed since the token was issued.
pub struct NoteContent {
    pub content: String,
    pub etag: Option<String>,
}

/// The mathematical content of a [`NoteContent`].
pub ghost struct NoteContentModel {
    pub content: Seq<char>,
    pub etag: Option<Seq<char>>,
}

/// The view of an optional version token.
pub open spec fn etag_view(etag: Option<String>) -> Option<Seq<char>> {
    match etag {
        Some(t) => Some(t@),
        None => None,
    }
}

impl View for NoteContent {
    type V = NoteContentModel;

    open spec fn view(&self) -> NoteContentModel {
        NoteContentModel { content: self.content@, etag: etag_view(self.etag) }
    }
}

/// The backend-native type of one enumerated child: a text-bearing leaf, a
/// container, or anything else.
#[derive(Debug, Clone, Copy, PartialEq, Eq, Structural)]
pub enum EntryKind {
    File,
    Directory,
    Special,
}

/// One child of a collection, as the application's enumeration reports it.
pub struct DirEntry {
    pub name: String,
    pub kind: EntryKind,
    pub updated_at: i64,
}

/// The mathematical content of a [`DirEntry`].
pub ghost struct DirEntryModel {
    pub name: Seq<char>,
    pub kind: EntryKind,
    pub updated_at: int,
}

impl View for DirEntry {
    type V = DirEntryModel;

    open spec fn view(&self) -> DirEntryModel {
        DirEntryModel { name: self.name@, kind: self.kind, updated_at: self.updated_at as int }
    }
}

/// The item kind a listing assigns to a backend-native entry type:
/// container to Collection, text-bearing leaf to Note, everything else to
/// Attachment.
pub open spec fn kind_for_entry(kind: EntryKind) -> ItemKind {
    match kind {
        EntryKind::File => ItemKind::Note,
        EntryKind::Directory => ItemKind::Collection,
        EntryKind::Special => ItemKind::Attachment,
    }
}

/// Holds when `item` is the listing result for entry `entry`, located at
/// `child_loc`: the kind follows the entry's backend-native type, and name,
/// modification time and locator are the entry's own.
pub open spec fn item_for_entry(child_loc: Seq<char>, entry: DirEntryModel, item: AnyItem) -> bool {
    &&& item.spec_kind() == kind_for_entry(entry.kind)
    &&& item@ == (ItemModel { name: entry.name, updated_at: entry.updated_at, location: child_loc })
}

/// The write a save operation asks the application to perform: replace the
/// resource at `uri` with `content`, guarded by `etag` when one is present.
pub struct SaveRequest {
    pub uri: String,
    pub content: String,
    pub etag: Option<String>,
}

/// The typed storage interface, implemented once per backend.
///
/// The three spec functions are the backend's locator discipline: where its
/// root lives, where a collection's children live, and where a renamed note
/// moves. Every operation's contract is stated over them, so the erasure
/// adapter can relay exact behaviour without knowing the backend.
pub trait TypedItemStorage<B: StorageBackend>: Sized {
    /// The shared attributes of the root collection this storage resolves.
    spec fn root_model(&self) -> ItemModel;

    /// The locator the backend assigns to a child named `name` of the
    /// collection located at `dir`.
    spec fn child_location(&self, dir: Seq<char>, name: Seq<char>) -> Seq<char>;

    /// The locator a note at `loc` moves to when renamed to `new_name`: a
    /// sibling location, when `loc` has a parent to be a sibling in.
    spec fn rename_location(&self, loc: Seq<char>, new_name: Seq<char>) -> Option<Seq<char>>;

    /// The configured root collection.
    fn root(&self) -> (r: Collection<B>)
        ensures
            r.item@ == self.root_model(),
    ;

    /// Classifies the children the application enumerated under the path's
    /// last collection, or propagates the failure that kept it from
    /// enumerating them.
    fn list_items(&self, path: &CollectionPath, listing: Result<Vec<DirEntry>, IoFailure>) -> (r:
        Result<Vec<AnyItem>, ReadError>)
        requires
            path.wf(),
        ensures
            ({
                let dir = path@.last().location;
                match listing {
                    Ok(entries) => r matches Ok(items) && items@.len() == entries@.len()
                        && forall|i: int|
                        0 <= i < entries@.len() ==> item_for_entry(
                            self.child_location(dir, entries@[i]@.name),
                            entries@[i]@,
                            #[trigger] items@[i],
                        ),
                    Err(f) => r matches Err(e) && e.reports(f),
                }
            }),
    ;

    /// The locator the note must move to, handed to the application before
    /// the move. Fails when the note's location has no parent to rename
    /// within.
    fn rename_target(&self, note: &Note<B>, new_name: &str) -> (r: Result<String, WriteError>)
        ensures
            ({
                match self.rename_location(note.item@.location, new_name@) {
                    Some(l) => r matches Ok(u) && u@ == l,
                    None => r matches Err(e) && e matches WriteError::IoError(_),
                }
            }),
    ;

    /// The freshly re-stat'd note after a rename: new name, new location, the
    /// modification time the application observed after the move. Propagates
    /// the failure of the move itself.
    fn rename_note(&self, note: &Note<B>, new_name: &str, outcome: Result<i64, IoFailure>) -> (r:
        Result<Note<B>, WriteError>)
        ensures
            ({
                match (self.rename_location(note.item@.location, new_name@), outcome) {
                    (Some(l), Ok(mtime)) => r matches Ok(n) && n.item@ == (ItemModel {
                        name: new_name@,
                        updated_at: mtime as int,
                        location: l,
                    }),
                    (Some(l), Err(f)) => r matches Err(e) && e.reports(f),
                    (None, _) => r matches Err(e) && e matches WriteError::IoError(_),
                }
            }),
    ;

    /// Decodes the bytes the application read from the note's resource and
    /// pairs them with the version token captured by that read. Invalid text
    /// is a decode error — never a lossy conversion — and a failed read is
    /// propagated.
    fn load_content(
        &self,
        note: &Note<B>,
        data: Result<(Vec<u8>, Option<String>), IoFailure>,
    ) -> (r: Result<NoteContent, ReadError>)
        ensures
            ({
                match data {
                    Ok(payload) => {
                        if vstd::utf8::valid_utf8(payload.0@) {
                            r matches Ok(c) && c.content@ == vstd::utf8::decode_utf8(payload.0@)
                                && c.etag == payload.1
                        } else {
                            r == Err::<NoteContent, ReadError>(ReadError::DecodeError)
                        }
                    },
                    Err(f) => r matches Err(e) && e.reports(f),
                }
            }),
    ;

    /// The write that saves `content` to `note`: the note's own locator, the
    /// full text, and exactly the caller's version token — a present token
    /// requests the guarded write of the optimistic-concurrency protocol, an
    /// absent one an unconditional write.
    fn save_request(&self, note: &Note<B>, content: &NoteContent) -> (r: SaveRequest)
        ensures
            r.uri@ == note.item@.location,
            r.content@ == content.content@,
            r.etag == content.etag,
    ;

    /// The post-write version token, or the failure — a rejected guarded
    /// write among them — that the application reported for the requested
    /// write.
    fn save_content(&self, note: &Note<B>, content: &NoteContent, outcome: Result<
        String,
        IoFailure,
    >) -> (r: Result<String, WriteError>)
        ensures
            ({
                match outcome {
                    Ok(new_etag) => r == Ok::<String, WriteError>(new_etag),
                    Err(f) => r matches Err(e) && e.reports(f),
                }
            }),
    ;
}

/// The consumer-facing storage interface: the same operation set as
/// [`TypedItemStorage`], with every item parameter and result in its erased
/// form. This is the entire contract the rest of the application depends on.
pub trait ItemStorage: Sized {
    /// The shared attributes of the root collection this storage resolves.
    spec fn root_model(&self) -> ItemModel;

    /// The locator this storage's backend assigns to a child of a collection.
    spec fn child_location(&self, dir: Seq<char>, name: Seq<char>) -> Seq<char>;

    /// The locator a note moves to when renamed, when its location has a
    /// parent.
    spec fn rename_location(&self, loc: Seq<char>, new_name: Seq<char>) -> Option<Seq<char>>;

    /// Which erased notes this storage recognizes as its own. Handing in any
    /// other note is a caller defect, reported as
    /// `MismatchedStorageBackend`.
    spec fn accepts_note(&self, note: AnyNote) -> bool;

    /// The configured root collection, erased.
    fn root(&self) -> (r: AnyCollection)
        ensures
            r@ == self.root_model(),
    ;

    /// Classifies the children the application enumerated under the path's
    /// last collection, or propagates the failure that kept it from
    /// enumerating them.
    fn list_items(&self, path: &CollectionPath, listing: Result<Vec<DirEntry>, IoFailure>) -> (r:
        Result<Vec<AnyItem>, ReadError>)
        requires
            path.wf(),
        ensures
            ({
                let dir = path@.last().location;
                match listing {
                    Ok(entries) => r matches Ok(items) && items@.len() == entries@.len()
                        && forall|i: int|
                        0 <= i < entries@.len() ==> item_for_entry(
                            self.child_location(dir, entries@[i]@.name),
                            entries@[i]@,
                            #[trigger] items@[i],
                        ),
                    Err(f) => r matches Err(e) && e.reports(f),
                }
            }),
    ;

    /// The locator the note must move to, handed to the application before
    /// the move.
    fn rename_target(&self, note: &AnyNote, new_name: &str) -> (r: Result<String, WriteError>)
        ensures
            ({
                if !self.accepts_note(*note) {
                    r == Err::<String, WriteError>(WriteError::MismatchedStorageBackend)
                } else {
                    match self.rename_location(note@.location, new_name@) {
                        Some(l) => r matches Ok(u) && u@ == l,
                        None => r matches Err(e) && e matches WriteError::IoError(_),
                    }
                }
            }),
    ;

    /// The freshly re-stat'd note after a rename, erased.
    fn rename_note(&self, note: &AnyNote, new_name: &str, outcome: Result<i64, IoFailure>) -> (r:
        Result<AnyNote, WriteError>)
        ensures
            ({
                if !self.accepts_note(*note) {
                    r == Err::<AnyNote, WriteError>(WriteError::MismatchedStorageBackend)
                } else {
                    match (self.rename_location(note@.location, new_name@), outcome) {
                        (Some(l), Ok(mtime)) => r matches Ok(n) && n@ == (ItemModel {
                            name: new_name@,
                            updated_at: mtime as int,
                            location: l,
                        }),
                        (Some(l), Err(f)) => r matches Err(e) && e.reports(f),
                        (None, _) => r matches Err(e) && e matches WriteError::IoError(_),
                    }
                }
            }),
    ;

    /// Decodes the bytes the application read from the note's resource and
    /// pairs them with the version token captured by that read.
    fn load_content(
        &self,
        note: &AnyNote,
        data: Result<(Vec<u8>, Option<String>), IoFailure>,
    ) -> (r: Result<NoteContent, ReadError>)
        ensures
            ({
                if !self.accepts_note(*note) {
                    r == Err::<NoteContent, ReadError>(ReadError::MismatchedStorageBackend)
                } else {
                    match data {
                        Ok(payload) => {
                            if vstd::utf8::valid_utf8(payload.0@) {
                                r matches Ok(c) && c.content@ == vstd::utf8::decode_utf8(
                                    payload.0@,
                                ) && c.etag == payload.1
                            } else {
                                r == Err::<NoteContent, ReadError>(ReadError::DecodeError)
                            }
                        },
                        Err(f) => r matches Err(e) && e.reports(f),
                    }
                }
            }),
    ;

    /// The write that saves `content` to `note`, carrying exactly the
    /// caller's version token.
    fn save_request(&self, note: &AnyNote, content: &NoteContent) -> (r: Result<
        SaveRequest,
        WriteError,
    >)
        ensures
            ({
                if !self.accepts_note(*note) {
                    r == Err::<SaveRequest, WriteError>(WriteError::MismatchedStorageBackend)
                } else {
                    r matches Ok(q) && q.uri@ == note@.location && q.content@ == content.content@
                        && q.etag == content.etag
                }
            }),
    ;

    /// The post-write version token, or the failure the application reported
    /// for the requested write.
    fn save_content(&self, note: &AnyNote, content: &NoteContent, outcome: Result<
        String,
        IoFailure,
    >) -> (r: Result<String, WriteError>)
        ensures
            ({
                if !self.accepts_note(*note) {
                    r == Err::<String, WriteError>(WriteError::MismatchedStorageBackend)
                } else {
                    match outcome {
                        Ok(new_etag) => r == Ok::<String, WriteError>(new_etag),
                        Err(f) => r matches Err(e) && e.reports(f),
                    }
                }
            }),
    ;
}

/// The erasure adapter: wraps one typed storage for a single backend and
/// exposes it through the consumer-facing interface.
///
/// Outputs are erased by boxing — producing the erased form from a known
/// concrete type is always safe. Erased inputs are narrowed back with the
/// backend descriptor's single checked recovery; every item that reaches a
/// correct consumer originated here, so a failed recovery means the item came
/// from another backend and is reported as `MismatchedStorageBackend`.
pub struct DynItemStorage<B: StorageBackend, T: TypedItemStorage<B>> {
    pub inner: T,
    pub marker: core::marker::PhantomData<B>,
}

impl<B: StorageBackend, T: TypedItemStorage<B>> DynItemStorage<B, T> {
    pub fn new(inner: T) -> (r: DynItemStorage<B, T>)
        ensures
            r.inner == inner,
    {
        DynItemStorage { inner, marker: core::marker::PhantomData }
    }
}

impl<B: StorageBackend, T: TypedItemStorage<B>> ItemStorage for DynItemStorage<B, T> {
    open spec fn root_model(&self) -> ItemModel {
        self.inner.root_model()
    }

    open spec fn child_location(&self, dir: Seq<char>, name: Seq<char>) -> Seq<char> {
        self.inner.child_location(dir, name)
    }

    open spec fn rename_location(&self, loc: Seq<char>, new_name: Seq<char>) -> Option<Seq<char>> {
        self.inner.rename_location(loc, new_name)
    }

    open spec fn accepts_note(&self, note: AnyNote) -> bool {
        B::owns_note(note)
    }

    fn root(&self) -> AnyCollection {
        B::erase_collection(self.inner.root())
    }

    fn list_items(&self, path: &CollectionPath, listing: Result<Vec<DirEntry>, IoFailure>) -> Result<
        Vec<AnyItem>,
        ReadError,
    > {
        self.inner.list_items(path, listing)
    }

    fn rename_target(&self, note: &AnyNote, new_name: &str) -> Result<String, WriteError> {
        match B::recover_note(note) {
            Some(n) => self.inner.rename_target(&n, new_name),
            None => Err(WriteError::MismatchedStorageBackend),
        }
    }

    fn rename_note(&self, note: &AnyNote, new_name: &str, outcome: Result<i64, IoFailure>) -> Result<
        AnyNote,
        WriteError,
    > {
        match B::recover_note(note) {
            Some(n) => match self.inner.rename_note(&n, new_name, outcome) {
                Ok(renamed) => Ok(B::erase_note(renamed)),
                Err(e) => Err(e),
            },
            None => Err(WriteError::MismatchedStorageBackend),
        }
    }

    fn load_content(
        &self,
        note: &AnyNote,
        data: Result<(Vec<u8>, Option<String>), IoFailure>,
    ) -> Result<NoteContent, ReadError> {
        match B::recover_note(note) {
            Some(n) => self.inner.load_content(&n, data),
            None => Err(ReadError::MismatchedStorageBackend),
        }
    }

    fn save_request(&self, note: &AnyNote, content: &NoteContent) -> Result<
        SaveRequest,
        WriteError,
    > {
        match B::recover_note(note) {
            Some(n) => Ok(self.inner.save_request(&n, content)),
            None => Err(WriteError::MismatchedStorageBackend),
        }
    }

    fn save_content(&self, note: &AnyNote, content: &NoteContent, outcome: Result<
        String,
        IoFailure,
    >) -> Result<String, WriteError> {
        match B::recover_note(note) {
            Some(n) => self.inner.save_content(&n, content, outcome),
            None => Err(WriteError::MismatchedStorageBackend),
        }
    }
}

} // verus!
