//! What each key press does in each screen of the file manager. Handlers
//! change the state directly; what they cannot do themselves (start a
//! worker thread, open a network connection, write the settings file) they
//! hand back as an `Effect` for the program around the library to perform.
use std::sync::Arc;
use vstd::prelude::*;

use crate::backend::{BackendRef, ConnectionParams, FilesystemBackend};
use crate::background_op::TransferProgress;

pub mod actions;
pub mod clipboard;
pub mod popups;
pub mod connect;
pub mod settings;
pub mod main_handler;
pub mod command_palette;
pub mod session;

verus! {

/// Gives the filesystem behind each backend of the panels.
pub trait Backends {
    type Fs: FilesystemBackend;

    /// `fs` is a filesystem this pool gives for `backend`. It promises
    /// nothing of a pool (it holds of every filesystem unless an
    /// implementation says more); it names where a filesystem came from, so
    /// that contracts can say through which backend a call was made.
    open spec fn gives(&self, backend: BackendRef, fs: Self::Fs) -> bool {
        true
    }

    /// The filesystem that `backend` describes.
    fn get(&self, backend: &BackendRef) -> (r: &Self::Fs)
        ensures
            self.gives(*backend, *r),
    ;
}

/// A background operation to start.
pub enum JobKind {
    /// Copy one path, from the source backend to the destination backend.
    Copy { src: BackendRef, dst: BackendRef, from: String, to: String },
    /// Move one path, from the source backend to the destination backend.
    Move { src: BackendRef, dst: BackendRef, from: String, to: String },
    /// Delete one path.
    Delete { backend: BackendRef, path: String },
    /// Delete several paths.
    DeleteBatch { backend: BackendRef, paths: Vec<String> },
    /// Copy (or move, when `is_cut`) several (from, to) pairs.
    CopyBatch { src: BackendRef, dst: BackendRef, items: Vec<(String, String)>, is_cut: bool },
}

/// A background operation with the text shown while it runs and, for
/// transfers, the counters it reports progress on.
pub struct Job {
    pub kind: JobKind,
    pub description: String,
    pub progress: Option<Arc<TransferProgress>>,
}

/// Work a handler leaves to the program around the library.
pub enum Effect {
    Nothing,
    /// Write the settings file.
    SaveConfig,
    /// Open a connection with these parameters, then call
    /// `Context::finish_connection` with the outcome.
    Connect(ConnectionParams),
    /// Run the job on a worker and record it with `Context::start_operation`.
    Start(Job),
}

/// Another handle on the same shared value (`Arc::clone`).
#[verifier::external_body]
pub fn share<T>(a: &Arc<T>) -> (r: Arc<T>)
    ensures
        r == *a,
{
    Arc::clone(a)
}

} // verus!
