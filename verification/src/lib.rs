//! Storage abstraction layer for a hierarchically organized set of text notes.
//!
//! The crate provides a typed, backend-generic storage interface, a
//! type-erased facade over it for consumers that must not know the backend
//! type, a hierarchical navigation path over collections, and an
//! optimistic-concurrency content protocol built on opaque version tokens.
//!
//! Backend I/O itself (reading, writing, enumerating, moving resources) is
//! performed by the surrounding application; the functions here compute the
//! requests an operation needs and interpret the outcomes the application
//! hands back, so every decision the layer makes is verified.

pub mod errors;
pub mod filesystem;
pub mod models;
pub mod path;
pub mod storage;

use vstd::prelude::*;

use crate::errors::{Error, IoFailure};
use crate::filesystem::{Filesystem, FilesystemStorage, base_name, has_file_scheme,
    uri_has_file_scheme};
use crate::models::ItemModel;
use crate::storage::{DynItemStorage, ItemStorage};

verus! {

/// Resolves a configured location string to a storage handle.
///
/// Only the `file://` scheme is implemented: a location carrying it is
/// resolved by the filesystem backend and wrapped in the erasure adapter; any
/// other scheme fails with `UnknownStorageBackend`. `probe` is the
/// application's stat of the location (see
/// [`FilesystemStorage::from_uri`]).
pub fn build_storage_from_url(uri: &str, probe: Result<i64, IoFailure>) -> (r: Result<
    DynItemStorage<Filesystem, FilesystemStorage>,
    Error,
>)
    ensures
        ({
            if !has_file_scheme(uri@) {
                r matches Err(e) && e matches Error::UnknownStorageBackend(u) && u@ == uri@
            } else {
                match probe {
                    Ok(mtime) => r matches Ok(st) && st.root_model() == (ItemModel {
                        name: base_name(uri@),
                        updated_at: mtime as int,
                        location: uri@,
                    }),
                    Err(f) => match f {
                        IoFailure::NotFound(_) => r matches Err(e)
                            && e matches Error::DoesNotExist { uri: u } && u@ == uri@,
                        _ => r matches Err(e) && e matches Error::IoError(m) && m@
                            == f.spec_message(),
                    },
                }
            }
        }),
{
    if uri_has_file_scheme(uri) {
        match FilesystemStorage::from_uri(uri, probe) {
            Ok(fs_storage) => Ok(DynItemStorage::new(fs_storage)),
            Err(e) => Err(e),
        }
    } else {
        Err(Error::UnknownStorageBackend(uri.to_owned()))
    }
}

} // verus!
