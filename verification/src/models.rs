//! The Note/Collection/Attachment entity family and its erasure boundary.
//!
//! Every item is an immutable value snapshot: shared attributes (a display
//! name, a modification timestamp and a backend-opaque location that serves as
//! the item's identity) plus backend-specific metadata. The typed models
//! [`Note`], [`Collection`] and [`Attachment`] are generic over a
//! [`StorageBackend`] descriptor; the erased forms [`AnyNote`],
//! [`AnyCollection`], [`AnyAttachment`] and [`AnyItem`] are closed tag-checked
//! unions over the backends this crate knows, so consumers can hold and
//! dispatch over heterogeneous items without naming a backend type. Narrowing
//! an erased item back to its backend-specific form is a single checked
//! operation keyed on the backend descriptor ([`StorageBackend::recover_note`]
//! and friends), never an unchecked reinterpretation.

use vstd::prelude::*;

use crate::filesystem::Filesystem;

verus! {

/// Marker for the per-backend metadata types of a [`StorageBackend`].
pub trait Meta {}

/// The dynamic kind tag of an erased item.
#[derive(Debug, Clone, Copy, PartialEq, Eq, Structural)]
pub enum ItemKind {
    Note,
    Collection,
    Attachment,
}

/// The mathematical content of an item's shared attributes.
pub ghost struct ItemModel {
    pub name: Seq<char>,
    pub updated_at: int,
    pub location: Seq<char>,
}

/// The attributes every item carries, independent of its backend.
///
/// `location` is the backend-opaque locator of the underlying resource and is
/// the item's stable identity: two items are the same item exactly when their
/// locations are equal. `updated_at` is the resource's modification time in
/// seconds since the Unix epoch.
#[derive(Debug)]
pub struct Item {
    pub name: String,
    pub updated_at: i64,
    pub location: String,
}

impl View for Item {
    type V = ItemModel;

    open spec fn view(&self) -> ItemModel {
        ItemModel {
            name: self.name@,
            updated_at: self.updated_at as int,
            location: self.location@,
        }
    }
}

impl Item {
    pub fn new(name: String, updated_at: i64, location: String) -> (r: Item)
        ensures
            r@ == (ItemModel { name: name@, updated_at: updated_at as int, location: location@ }),
    {
        Item { name, updated_at, location }
    }

    /// An independent copy of the same snapshot.
    pub fn duplicate(&self) -> (r: Item)
        ensures
            r == *self,
    {
        Item {
            name: self.name.clone(),
            updated_at: self.updated_at,
            location: self.location.clone(),
        }
    }
}

/// A compile-time descriptor of a concrete storage backend.
///
/// The descriptor carries no data; it associates the three metadata types a
/// backend attaches to its items, and it is the key of the erasure boundary:
/// `erase_*` boxes a backend-specific item into its erased form, `recover_*`
/// is the single checked narrowing back. `owns_*` says which erased values
/// carry this backend's metadata, so the contracts can state exactly when
/// recovery succeeds and that it returns the very item that was erased.
pub trait StorageBackend: Sized {
    type NoteMeta: Meta;

    type CollectionMeta: Meta;

    type AttachmentMeta: Meta;

    /// Whether the erased note carries this backend's metadata.
    spec fn owns_note(a: AnyNote) -> bool;

    /// Whether the erased collection carries this backend's metadata.
    spec fn owns_collection(a: AnyCollection) -> bool;

    /// Whether the erased attachment carries this backend's metadata.
    spec fn owns_attachment(a: AnyAttachment) -> bool;

    fn erase_note(n: Note<Self>) -> (r: AnyNote)
        ensures
            r@ == n.item@,
            Self::owns_note(r),
    ;

    fn erase_collection(c: Collection<Self>) -> (r: AnyCollection)
        ensures
            r@ == c.item@,
            Self::owns_collection(r),
    ;

    fn erase_attachment(a: Attachment<Self>) -> (r: AnyAttachment)
        ensures
            r@ == a.item@,
            Self::owns_attachment(r),
    ;

    fn recover_note(a: &AnyNote) -> (r: Option<Note<Self>>)
        ensures
            r is Some <==> Self::owns_note(*a),
            r matches Some(n) ==> n.item@ == a@,
    ;

    fn recover_collection(a: &AnyCollection) -> (r: Option<Collection<Self>>)
        ensures
            r is Some <==> Self::owns_collection(*a),
            r matches Some(c) ==> c.item@ == a@,
    ;

    fn recover_attachment(a: &AnyAttachment) -> (r: Option<Attachment<Self>>)
        ensures
            r is Some <==> Self::owns_attachment(*a),
            r matches Some(t) ==> t.item@ == a@,
    ;
}

/// A text-bearing leaf item of backend `B`.
pub struct Note<B: StorageBackend> {
    pub item: Item,
    pub meta: B::NoteMeta,
}

/// A container item of backend `B`, addressable by a listing.
pub struct Collection<B: StorageBackend> {
    pub item: Item,
    pub meta: B::CollectionMeta,
}

/// A leaf item of backend `B` that is neither a container nor text.
pub struct Attachment<B: StorageBackend> {
    pub item: Item,
    pub meta: B::AttachmentMeta,
}

impl<B: StorageBackend> Note<B> {
    pub fn new(meta: B::NoteMeta, name: String, updated_at: i64, location: String) -> (r: Note<B>)
        ensures
            r.item@ == (ItemModel {
                name: name@,
                updated_at: updated_at as int,
                location: location@,
            }),
            r.meta == meta,
    {
        Note { item: Item::new(name, updated_at, location), meta }
    }

    /// The checked narrowing of an erased note to this backend's note.
    pub fn from_any(note: &AnyNote) -> (r: Option<Note<B>>)
        ensures
            r is Some <==> B::owns_note(*note),
            r matches Some(n) ==> n.item@ == note@,
    {
        B::recover_note(note)
    }
}

impl<B: StorageBackend> Collection<B> {
    pub fn new(
        meta: B::CollectionMeta,
        name: String,
        updated_at: i64,
        location: String,
    ) -> (r: Collection<B>)
        ensures
            r.item@ == (ItemModel {
                name: name@,
                updated_at: updated_at as int,
                location: location@,
            }),
            r.meta == meta,
    {
        Collection { item: Item::new(name, updated_at, location), meta }
    }

    /// The checked narrowing of an erased collection to this backend's collection.
    pub fn from_any(collection: &AnyCollection) -> (r: Option<Collection<B>>)
        ensures
            r is Some <==> B::owns_collection(*collection),
            r matches Some(c) ==> c.item@ == collection@,
    {
        B::recover_collection(collection)
    }
}

impl<B: StorageBackend> Attachment<B> {
    pub fn new(
        meta: B::AttachmentMeta,
        name: String,
        updated_at: i64,
        location: String,
    ) -> (r: Attachment<B>)
        ensures
            r.item@ == (ItemModel {
                name: name@,
                updated_at: updated_at as int,
                location: location@,
            }),
            r.meta == meta,
    {
        Attachment { item: Item::new(name, updated_at, location), meta }
    }

    /// The checked narrowing of an erased attachment to this backend's attachment.
    pub fn from_any(attachment: &AnyAttachment) -> (r: Option<Attachment<B>>)
        ensures
            r is Some <==> B::owns_attachment(*attachment),
            r matches Some(t) ==> t.item@ == attachment@,
    {
        B::recover_attachment(attachment)
    }
}

/// An erased note: the closed union of every backend's note type.
pub enum AnyNote {
    Filesystem(Note<Filesystem>),
}

/// An erased collection: the closed union of every backend's collection type.
pub enum AnyCollection {
    Filesystem(Collection<Filesystem>),
}

/// An erased attachment: the closed union of every backend's attachment type.
pub enum AnyAttachment {
    Filesystem(Attachment<Filesystem>),
}

impl View for AnyNote {
    type V = ItemModel;

    open spec fn view(&self) -> ItemModel {
        match self {
            AnyNote::Filesystem(n) => n.item@,
        }
    }
}

impl View for AnyCollection {
    type V = ItemModel;

    open spec fn view(&self) -> ItemModel {
        match self {
            AnyCollection::Filesystem(c) => c.item@,
        }
    }
}

impl View for AnyAttachment {
    type V = ItemModel;

    open spec fn view(&self) -> ItemModel {
        match self {
            AnyAttachment::Filesystem(a) => a.item@,
        }
    }
}

impl AnyNote {
    pub fn name(&self) -> (r: String)
        ensures
            r@ == self@.name,
    {
        match self {
            AnyNote::Filesystem(n) => n.item.name.clone(),
        }
    }

    pub fn updated_at(&self) -> (r: i64)
        ensures
            r == self@.updated_at,
    {
        match self {
            AnyNote::Filesystem(n) => n.item.updated_at,
        }
    }

    pub fn location(&self) -> (r: String)
        ensures
            r@ == self@.location,
    {
        match self {
            AnyNote::Filesystem(n) => n.item.location.clone(),
        }
    }

    /// An independent copy of the same snapshot.
    pub fn clone_box(&self) -> (r: AnyNote)
        ensures
            r == *self,
    {
        match self {
            AnyNote::Filesystem(n) => {
                AnyNote::Filesystem(Note { item: n.item.duplicate(), meta: n.meta })
            },
        }
    }

    /// The note as an "any item" handle.
    pub fn as_item(&self) -> (r: AnyItem)
        ensures
            r == AnyItem::Note(*self),
    {
        AnyItem::Note(self.clone_box())
    }
}

impl AnyCollection {
    pub fn name(&self) -> (r: String)
        ensures
            r@ == self@.name,
    {
        match self {
            AnyCollection::Filesystem(c) => c.item.name.clone(),
        }
    }

    pub fn updated_at(&self) -> (r: i64)
        ensures
            r == self@.updated_at,
    {
        match self {
            AnyCollection::Filesystem(c) => c.item.updated_at,
        }
    }

    pub fn location(&self) -> (r: String)
        ensures
            r@ == self@.location,
    {
        match self {
            AnyCollection::Filesystem(c) => c.item.location.clone(),
        }
    }

    /// An independent copy of the same snapshot.
    pub fn clone_box(&self) -> (r: AnyCollection)
        ensures
            r == *self,
    {
        match self {
            AnyCollection::Filesystem(c) => {
                AnyCollection::Filesystem(Collection { item: c.item.duplicate(), meta: c.meta })
            },
        }
    }

    /// The collection as an "any item" handle.
    pub fn as_item(&self) -> (r: AnyItem)
        ensures
            r == AnyItem::Collection(*self),
    {
        AnyItem::Collection(self.clone_box())
    }
}

impl AnyAttachment {
    pub fn name(&self) -> (r: String)
        ensures
            r@ == self@.name,
    {
        match self {
            AnyAttachment::Filesystem(a) => a.item.name.clone(),
        }
    }

    pub fn updated_at(&self) -> (r: i64)
        ensures
            r == self@.updated_at,
    {
        match self {
            AnyAttachment::Filesystem(a) => a.item.updated_at,
        }
    }

    pub fn location(&self) -> (r: String)
        ensures
            r@ == self@.location,
    {
        match self {
            AnyAttachment::Filesystem(a) => a.item.location.clone(),
        }
    }

    /// An independent copy of the same snapshot.
    pub fn clone_box(&self) -> (r: AnyAttachment)
        ensures
            r == *self,
    {
        match self {
            AnyAttachment::Filesystem(a) => {
                AnyAttachment::Filesystem(Attachment { item: a.item.duplicate(), meta: a.meta })
            },
        }
    }

    /// The attachment as an "any item" handle.
    pub fn as_item(&self) -> (r: AnyItem)
        ensures
            r == AnyItem::Attachment(*self),
    {
        AnyItem::Attachment(self.clone_box())
    }
}

/// An erased item of any kind: the form a listing yields and a consumer holds.
pub enum AnyItem {
    Note(AnyNote),
    Collection(AnyCollection),
    Attachment(AnyAttachment),
}

impl View for AnyItem {
    type V = ItemModel;

    open spec fn view(&self) -> ItemModel {
        match self {
            AnyItem::Note(n) => n@,
            AnyItem::Collection(c) => c@,
            AnyItem::Attachment(a) => a@,
        }
    }
}

impl AnyItem {
    /// The dynamic kind the tag records.
    pub open spec fn spec_kind(&self) -> ItemKind {
        match self {
            AnyItem::Note(_) => ItemKind::Note,
            AnyItem::Collection(_) => ItemKind::Collection,
            AnyItem::Attachment(_) => ItemKind::Attachment,
        }
    }

    pub fn kind(&self) -> (k: ItemKind)
        ensures
            k == self.spec_kind(),
    {
        match self {
            AnyItem::Note(_) => ItemKind::Note,
            AnyItem::Collection(_) => ItemKind::Collection,
            AnyItem::Attachment(_) => ItemKind::Attachment,
        }
    }

    pub fn name(&self) -> (r: String)
        ensures
            r@ == self@.name,
    {
        match self {
            AnyItem::Note(n) => n.name(),
            AnyItem::Collection(c) => c.name(),
            AnyItem::Attachment(a) => a.name(),
        }
    }

    pub fn updated_at(&self) -> (r: i64)
        ensures
            r == self@.updated_at,
    {
        match self {
            AnyItem::Note(n) => n.updated_at(),
            AnyItem::Collection(c) => c.updated_at(),
            AnyItem::Attachment(a) => a.updated_at(),
        }
    }

    pub fn location(&self) -> (r: String)
        ensures
            r@ == self@.location,
    {
        match self {
            AnyItem::Note(n) => n.location(),
            AnyItem::Collection(c) => c.location(),
            AnyItem::Attachment(a) => a.location(),
        }
    }

    /// An independent copy of the same snapshot.
    pub fn clone_box(&self) -> (r: AnyItem)
        ensures
            r == *self,
    {
        match self {
            AnyItem::Note(n) => AnyItem::Note(n.clone_box()),
            AnyItem::Collection(c) => AnyItem::Collection(c.clone_box()),
            AnyItem::Attachment(a) => AnyItem::Attachment(a.clone_box()),
        }
    }

    /// Narrows to the note capability: a copy when the kind matches, nothing
    /// otherwise. Narrowing never cross-casts.
    pub fn as_note(&self) -> (r: Option<AnyNote>)
        ensures
            r is Some <==> self.spec_kind() == ItemKind::Note,
            r matches Some(n) ==> *self == AnyItem::Note(n),
    {
        match self {
            AnyItem::Note(n) => Some(n.clone_box()),
            AnyItem::Collection(_) => None,
            AnyItem::Attachment(_) => None,
        }
    }

    /// Narrows to the collection capability: a copy when the kind matches,
    /// nothing otherwise. Narrowing never cross-casts.
    pub fn as_collection(&self) -> (r: Option<AnyCollection>)
        ensures
            r is Some <==> self.spec_kind() == ItemKind::Collection,
            r matches Some(c) ==> *self == AnyItem::Collection(c),
    {
        match self {
            AnyItem::Note(_) => None,
            AnyItem::Collection(c) => Some(c.clone_box()),
            AnyItem::Attachment(_) => None,
        }
    }

    /// Narrows to the attachment capability: a copy when the kind matches,
    /// nothing otherwise. Narrowing never cross-casts.
    pub fn as_attachment(&self) -> (r: Option<AnyAttachment>)
        ensures
            r is Some <==> self.spec_kind() == ItemKind::Attachment,
            r matches Some(a) ==> *self == AnyItem::Attachment(a),
    {
        match self {
            AnyItem::Note(_) => None,
            AnyItem::Collection(_) => None,
            AnyItem::Attachment(a) => Some(a.clone_box()),
        }
    }
}

impl PartialEq for AnyItem {
    /// Equality of two "any item" handles is location equality only: the
    /// location is the item's stable identity.
    fn eq(&self, other: &AnyItem) -> (r: bool) {
        let this = self.location();
        let that = other.location();
        this == that
    }
}

impl vstd::std_specs::cmp::PartialEqSpecImpl for AnyItem {
    open spec fn obeys_eq_spec() -> bool {
        true
    }

    open spec fn eq_spec(&self, other: &AnyItem) -> bool {
        self@.location == other@.location
    }
}

} // verus!
