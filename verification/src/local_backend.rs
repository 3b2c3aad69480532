//! The local filesystem as a backend: its name, its path conventions and its
//! (trivial) connection state. Reaching the disk itself is done by the
//! program around the library, through `FilesystemBackend`.
use vstd::prelude::*;

use crate::backend::{
    native_file_name, native_join, native_join_path, native_parent_path, std_path_file_name,
    std_path_parent, BackendRef, ConnectionParams,
};
use crate::text::owned;

verus! {

/// The local filesystem.
pub struct LocalBackend {}

impl LocalBackend {
    pub fn new() -> (r: Self) {
        LocalBackend {  }
    }

    /// Always "Local".
    pub fn display_name(&self) -> (r: String)
        ensures
            r@ == "Local"@,
    {
        owned("Local")
    }

    pub fn is_local(&self) -> (r: bool)
        ensures
            r,
    {
        true
    }

    /// The panel-side description of this backend under the identity `id`.
    pub fn backend_ref(&self, id: u64) -> (r: BackendRef)
        ensures
            r.id == id,
            r.kind == crate::backend::BackendKind::Local,
            r.display@ == "Local"@,
            r.params is None,
    {
        BackendRef::local(id)
    }

    /// Joins paths as `PathBuf::join` does.
    pub fn join_path(&self, base: &str, child: &str) -> (r: String)
        ensures
            r@ == native_join(base@, child@),
    {
        native_join_path(base, child)
    }

    /// The parent as std's `Path::parent` gives it.
    pub fn parent_path(&self, path: &str) -> (r: Option<String>)
        ensures
            r matches Some(s) ==> std_path_parent(path@) == Some(s@),
            r is None ==> std_path_parent(path@) is None,
    {
        native_parent_path(path)
    }

    /// The last component as std's `Path::file_name` gives it.
    pub fn file_name(&self, path: &str) -> (r: Option<String>)
        ensures
            r matches Some(s) ==> std_path_file_name(path@) == Some(s@),
            r is None ==> std_path_file_name(path@) is None,
    {
        native_file_name(path)
    }

    /// Nothing to close.
    pub fn disconnect(&self) {
    }

    /// The local filesystem is always reachable.
    pub fn is_connected(&self) -> (r: bool)
        ensures
            r,
    {
        true
    }

    /// Nothing to reconnect with.
    pub fn connection_params(&self) -> (r: Option<ConnectionParams>)
        ensures
            r is None,
    {
        None
    }
}

} // verus!
