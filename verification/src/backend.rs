//! What the file manager knows about files and about the filesystems it
//! browses: entry metadata, connection parameters, the path conventions of
//! each kind of backend, and the interface through which it reaches them.
use vstd::prelude::*;

use crate::text::{
    chars_of, concat, ends_with_char, starts_with_char, str_ends_with_char, str_starts_with_char,
    string_of, trim_end, trim_end_len,
};

verus! {

/// Metadata for a single file or directory entry, whatever the filesystem.
#[derive(Debug)]
pub struct FileInfo {
    pub name: String,
    pub is_dir: bool,
    pub is_file: bool,
    pub is_symlink: bool,
    pub size: u64,
    /// Last modification, in seconds since the Unix epoch (`None` when unknown).
    pub modified: Option<u64>,
    pub readonly: bool,
    /// Raw unix permission mode (e.g. 0o755), `None` if unavailable.
    pub mode: Option<u32>,
}

/// The mathematical content of a `FileInfo`.
pub struct FileInfoView {
    pub name: Seq<char>,
    pub is_dir: bool,
    pub is_file: bool,
    pub is_symlink: bool,
    pub size: u64,
    pub modified: Option<u64>,
    pub readonly: bool,
    pub mode: Option<u32>,
}

impl View for FileInfo {
    type V = FileInfoView;

    open spec fn view(&self) -> FileInfoView {
        FileInfoView {
            name: self.name@,
            is_dir: self.is_dir,
            is_file: self.is_file,
            is_symlink: self.is_symlink,
            size: self.size,
            modified: self.modified,
            readonly: self.readonly,
            mode: self.mode,
        }
    }
}

impl FileInfo {
    /// A copy of this record.
    pub fn duplicate(&self) -> (r: FileInfo)
        ensures
            r@ == self@,
    {
        FileInfo {
            name: self.name.clone(),
            is_dir: self.is_dir,
            is_file: self.is_file,
            is_symlink: self.is_symlink,
            size: self.size,
            modified: self.modified,
            readonly: self.readonly,
            mode: self.mode,
        }
    }
}

impl Clone for FileInfo {
    fn clone(&self) -> (r: FileInfo)
        ensures
            r@ == self@,
    {
        self.duplicate()
    }
}

/// A single directory entry with its metadata.
#[derive(Debug)]
pub struct DirEntry {
    pub name: String,
    pub info: FileInfo,
}

pub struct DirEntryView {
    pub name: Seq<char>,
    pub info: FileInfoView,
}

impl View for DirEntry {
    type V = DirEntryView;

    open spec fn view(&self) -> DirEntryView {
        DirEntryView { name: self.name@, info: self.info@ }
    }
}

impl Clone for DirEntry {
    fn clone(&self) -> (r: DirEntry)
        ensures
            r@ == self@,
    {
        DirEntry { name: self.name.clone(), info: self.info.duplicate() }
    }
}

/// The entries of a listing, as views.
pub open spec fn entry_views(v: Seq<DirEntry>) -> Seq<DirEntryView> {
    Seq::new(v.len(), |i: int| v[i]@)
}

/// Connection protocol for remote backends.
#[derive(Debug, Clone, Copy, PartialEq, Eq, Structural)]
pub enum ConnectionProtocol {
    Sftp,
    Ftp,
}

/// Stored connection parameters for reconnection.
#[derive(Debug)]
pub struct ConnectionParams {
    pub protocol: ConnectionProtocol,
    pub host: String,
    pub port: u16,
    pub username: String,
    pub password: String,
    pub key_path: Option<String>,
}

impl Clone for ConnectionParams {
    fn clone(&self) -> (r: ConnectionParams)
        ensures
            r == *self,
    {
        ConnectionParams {
            protocol: self.protocol,
            host: self.host.clone(),
            port: self.port,
            username: self.username.clone(),
            password: self.password.clone(),
            key_path: match &self.key_path {
                Some(k) => Some(k.clone()),
                None => None,
            },
        }
    }
}

/// Which kind of filesystem a backend reaches.
#[derive(Debug, Clone, Copy, PartialEq, Eq, Structural)]
pub enum BackendKind {
    Local,
    Sftp,
    Ftp,
    Scp,
}

/// The filesystem a panel shows, as plain values: an identity (two panels
/// show the same backend exactly when their ids are equal), its kind, the
/// name shown to the user and, for remote backends, what reconnecting takes.
/// The I/O itself goes through `FilesystemBackend`.
#[derive(Debug)]
pub struct BackendRef {
    pub id: u64,
    pub kind: BackendKind,
    pub display: String,
    pub params: Option<ConnectionParams>,
}

impl Clone for BackendRef {
    fn clone(&self) -> (r: BackendRef)
        ensures
            r == *self,
    {
        BackendRef {
            id: self.id,
            kind: self.kind,
            display: self.display.clone(),
            params: match &self.params {
                Some(p) => Some(p.clone()),
                None => None,
            },
        }
    }
}

// ---------------------------------------------------------------------------
// Path conventions of remote backends ('/' separated, no normalisation)
// ---------------------------------------------------------------------------

/// `base` and `child` joined by exactly one '/' unless `base` already ends with one.
pub open spec fn slash_join(base: Seq<char>, child: Seq<char>) -> Seq<char> {
    if ends_with_char(base, '/') {
        base + child
    } else {
        base + seq!['/'] + child
    }
}

/// Position of the last '/' in `s`, if any.
pub open spec fn last_slash(s: Seq<char>) -> Option<int>
    decreases s.len(),
{
    if s.len() == 0 {
        None
    } else if s.last() == '/' {
        Some(s.len() - 1)
    } else {
        last_slash(s.drop_last())
    }
}

pub proof fn lemma_last_slash(s: Seq<char>)
    ensures
        last_slash(s) matches Some(p) ==> 0 <= p < s.len() && s[p] == '/' && forall|j: int|
            p < j < s.len() ==> s[j] != '/',
        last_slash(s) is None ==> forall|j: int| 0 <= j < s.len() ==> s[j] != '/',
    decreases s.len(),
{
    if s.len() > 0 && s.last() != '/' {
        lemma_last_slash(s.drop_last());
        assert forall|j: int| 0 <= j < s.len() - 1 implies s.drop_last()[j] == s[j] by {}
    }
}

/// The parent of a remote path: everything before the last '/' of the path
/// stripped of trailing '/', "/" for a top-level or relative name, none for
/// the root or the empty path.
pub open spec fn slash_parent(path: Seq<char>) -> Option<Seq<char>> {
    let p = trim_end(path, '/');
    if p.len() == 0 {
        None
    } else {
        match last_slash(p) {
            Some(pos) => if pos == 0 {
                Some(seq!['/'])
            } else {
                Some(p.take(pos))
            },
            None => Some(seq!['/']),
        }
    }
}

/// The last '/'-separated part of a remote path stripped of trailing '/'.
pub open spec fn slash_file_name(path: Seq<char>) -> Seq<char> {
    let p = trim_end(path, '/');
    match last_slash(p) {
        Some(pos) => p.skip(pos + 1),
        None => p,
    }
}

/// Position of the last '/' in `v`, if any.
pub fn find_last_slash(v: &Vec<char>, len: usize) -> (r: Option<usize>)
    requires
        len <= v.len(),
    ensures
        r matches Some(p) ==> last_slash(v@.take(len as int)) == Some(p as int),
        r is None ==> last_slash(v@.take(len as int)) is None,
{
    let mut i = len;
    while i > 0
        invariant
            i <= len <= v.len(),
            last_slash(v@.take(len as int)) == last_slash(v@.take(i as int)),
        decreases i,
    {
        if v[i - 1] == '/' {
            return Some(i - 1);
        }
        assert(v@.take(i as int).drop_last() == v@.take(i - 1));
        i = i - 1;
    }
    None
}

/// The characters `v[from..to]` as a `String`.
pub fn substring(v: &Vec<char>, from: usize, to: usize) -> (r: String)
    requires
        from <= to <= v.len(),
    ensures
        r@ == v@.subrange(from as int, to as int),
{
    let mut w: Vec<char> = Vec::new();
    let mut i = from;
    while i < to
        invariant
            from <= i <= to <= v.len(),
            w@ == v@.subrange(from as int, i as int),
        decreases to - i,
    {
        w.push(v[i]);
        i = i + 1;
        assert(w@ == v@.subrange(from as int, i as int));
    }
    string_of(&w)
}

/// Joins two remote paths.
pub fn remote_join_path(base: &str, child: &str) -> (r: String)
    ensures
        r@ == slash_join(base@, child@),
{
    if str_ends_with_char(base, '/') {
        concat(base, child)
    } else {
        let b = concat(base, "/");
        proof {
            reveal_strlit("/");
        }
        concat(b.as_str(), child)
    }
}

/// Parent of a remote path.
pub fn remote_parent_path(path: &str) -> (r: Option<String>)
    ensures
        r matches Some(s) ==> slash_parent(path@) == Some(s@),
        r is None ==> slash_parent(path@) is None,
{
    let v = chars_of(path);
    let n = trim_end_len(&v, '/');
    if n == 0 {
        return None;
    }
    match find_last_slash(&v, n) {
        Some(pos) => {
            if pos == 0 {
                proof {
                    reveal_strlit("/");
                }
                Some(crate::text::owned("/"))
            } else {
                proof {
                    lemma_last_slash(v@.take(n as int));
                }
                let r = substring(&v, 0, pos);
                assert(v@.take(n as int).take(pos as int) == v@.subrange(0, pos as int));
                Some(r)
            }
        },
        None => {
            proof {
                reveal_strlit("/");
            }
            Some(crate::text::owned("/"))
        },
    }
}

/// Last component of a remote path.
pub fn remote_file_name(path: &str) -> (r: String)
    ensures
        r@ == slash_file_name(path@),
{
    let v = chars_of(path);
    let n = trim_end_len(&v, '/');
    match find_last_slash(&v, n) {
        Some(pos) => {
            proof {
                lemma_last_slash(v@.take(n as int));
            }
            let r = substring(&v, pos + 1, n);
            assert(v@.take(n as int).skip(pos + 1) == v@.subrange(pos + 1, n as int));
            r
        },
        None => {
            let r = substring(&v, 0, n);
            assert(v@.take(n as int) == v@.subrange(0, n as int));
            r
        },
    }
}

// ---------------------------------------------------------------------------
// Path conventions of the local filesystem (std's `Path` on Unix)
// ---------------------------------------------------------------------------

/// std's `PathBuf::push`: an absolute `child` replaces `base`; otherwise a
/// '/' is put between them when `base` is not empty and does not already end
/// with one.
pub open spec fn native_join(base: Seq<char>, child: Seq<char>) -> Seq<char> {
    if starts_with_char(child, '/') {
        child
    } else if base.len() > 0 && !ends_with_char(base, '/') {
        base + seq!['/'] + child
    } else {
        base + child
    }
}

/// What std's `Path::parent` gives for a path (component-wise, Unix rules).
pub uninterp spec fn std_path_parent(path: Seq<char>) -> Option<Seq<char>>;

/// What std's `Path::file_name` gives for a path (component-wise, Unix rules).
pub uninterp spec fn std_path_file_name(path: Seq<char>) -> Option<Seq<char>>;

/// Joins two local paths as `PathBuf::join` does.
pub fn native_join_path(base: &str, child: &str) -> (r: String)
    ensures
        r@ == native_join(base@, child@),
{
    if str_starts_with_char(child, '/') {
        crate::text::owned(child)
    } else if !base.is_empty() && !str_ends_with_char(base, '/') {
        let b = concat(base, "/");
        proof {
            reveal_strlit("/");
        }
        concat(b.as_str(), child)
    } else {
        concat(base, child)
    }
}

/// std's `Path::parent`, as a `String`; the contract names the result, a
/// function of the path alone.
#[verifier::external_body]
pub fn native_parent_path(path: &str) -> (r: Option<String>)
    ensures
        r matches Some(s) ==> std_path_parent(path@) == Some(s@),
        r is None ==> std_path_parent(path@) is None,
{
    std::path::Path::new(path).parent().map(|p| p.to_string_lossy().to_string())
}

/// std's `Path::file_name`, as a `String`; the contract names the result, a
/// function of the path alone.
#[verifier::external_body]
pub fn native_file_name(path: &str) -> (r: Option<String>)
    ensures
        r matches Some(s) ==> std_path_file_name(path@) == Some(s@),
        r is None ==> std_path_file_name(path@) is None,
{
    std::path::Path::new(path).file_name().map(|n| n.to_string_lossy().to_string())
}

impl BackendRef {
    /// The local filesystem, under the given identity.
    pub fn local(id: u64) -> (r: BackendRef)
        ensures
            r.id == id,
            r.kind == BackendKind::Local,
            r.display@ == "Local"@,
            r.params is None,
    {
        proof {
            reveal_strlit("Local");
        }
        BackendRef { id, kind: BackendKind::Local, display: crate::text::owned("Local"), params: None }
    }

    /// Display name for the user ("Local", "SFTP: user@host:port", ...).
    pub fn display_name(&self) -> (r: String)
        ensures
            r@ == self.display@,
    {
        self.display.clone()
    }

    /// Whether this is the local filesystem (affects how files are opened and how paths are joined).
    pub fn is_local(&self) -> (r: bool)
        ensures
            r == (self.kind == BackendKind::Local),
    {
        self.kind == BackendKind::Local
    }

    /// Connection parameters for reconnection (none for the local filesystem).
    pub fn connection_params(&self) -> (r: Option<ConnectionParams>)
        ensures
            r == self.params,
    {
        match &self.params {
            Some(p) => Some(p.clone()),
            None => None,
        }
    }

    /// How this backend joins a base path and a child name.
    pub open spec fn spec_join(&self, base: Seq<char>, child: Seq<char>) -> Seq<char> {
        if self.kind == BackendKind::Local {
            native_join(base, child)
        } else {
            slash_join(base, child)
        }
    }

    /// How this backend finds the parent of a path.
    pub open spec fn spec_parent(&self, path: Seq<char>) -> Option<Seq<char>> {
        if self.kind == BackendKind::Local {
            std_path_parent(path)
        } else {
            slash_parent(path)
        }
    }

    /// How this backend finds the last component of a path.
    pub open spec fn spec_file_name(&self, path: Seq<char>) -> Option<Seq<char>> {
        if self.kind == BackendKind::Local {
            std_path_file_name(path)
        } else {
            Some(slash_file_name(path))
        }
    }

    /// Joins a base path and a child into a full path.
    pub fn join_path(&self, base: &str, child: &str) -> (r: String)
        ensures
            r@ == self.spec_join(base@, child@),
    {
        if self.is_local() {
            native_join_path(base, child)
        } else {
            remote_join_path(base, child)
        }
    }

    /// The parent directory of a path.
    pub fn parent_path(&self, path: &str) -> (r: Option<String>)
        ensures
            r matches Some(s) ==> self.spec_parent(path@) == Some(s@),
            r is None ==> self.spec_parent(path@) is None,
    {
        if self.is_local() {
            native_parent_path(path)
        } else {
            remote_parent_path(path)
        }
    }

    /// The file or directory name at the end of a path.
    pub fn file_name(&self, path: &str) -> (r: Option<String>)
        ensures
            r matches Some(s) ==> self.spec_file_name(path@) == Some(s@),
            r is None ==> self.spec_file_name(path@) is None,
    {
        if self.is_local() {
            native_file_name(path)
        } else {
            Some(remote_file_name(path))
        }
    }
}

/// The operations the file manager performs on one filesystem. Every result
/// comes from outside (a disk, a server), so nothing is promised of its
/// value: the library's logic is verified for whatever these return. Errors
/// are the messages of the underlying I/O errors.
///
/// Each operation has a companion predicate, `..._answer`, that holds of
/// the answers the operation gives for its arguments. It promises nothing
/// of a backend (it holds of every answer unless an implementation says
/// more); it names the call an answer came from, so that the library's
/// contracts can say which operation, on which paths, produced each result
/// they report.
pub trait FilesystemBackend {
    /// `r` is an answer of `list_dir(path)`.
    open spec fn list_dir_answer(&self, path: Seq<char>, r: Result<Seq<DirEntryView>, Seq<char>>) -> bool {
        true
    }

    /// `r` is an answer of `metadata(path)`.
    open spec fn metadata_answer(&self, path: Seq<char>, r: Result<FileInfoView, Seq<char>>) -> bool {
        true
    }

    /// `r` is an answer of `path_exists(path)`.
    open spec fn exists_answer(&self, path: Seq<char>, r: Result<bool, Seq<char>>) -> bool {
        true
    }

    /// `r` is an answer of `canonicalize(path)`.
    open spec fn canonical_answer(&self, path: Seq<char>, r: Result<Seq<char>, Seq<char>>) -> bool {
        true
    }

    /// `r` is an answer of `read_file(path, max_bytes)`.
    open spec fn read_answer(&self, path: Seq<char>, max_bytes: usize, r: Result<Seq<u8>, Seq<char>>) -> bool {
        true
    }

    /// `r` is an answer of `write_file(path, data)`.
    open spec fn write_answer(&self, path: Seq<char>, data: Seq<u8>, r: Result<(), Seq<char>>) -> bool {
        true
    }

    /// `r` is an answer of `create_dir(path)`.
    open spec fn create_dir_answer(&self, path: Seq<char>, r: Result<(), Seq<char>>) -> bool {
        true
    }

    /// `r` is an answer of `create_file(path)`.
    open spec fn create_file_answer(&self, path: Seq<char>, r: Result<(), Seq<char>>) -> bool {
        true
    }

    /// `r` is an answer of `remove_file(path)`.
    open spec fn remove_file_answer(&self, path: Seq<char>, r: Result<(), Seq<char>>) -> bool {
        true
    }

    /// `r` is an answer of `remove_dir_all(path)`.
    open spec fn remove_dir_all_answer(&self, path: Seq<char>, r: Result<(), Seq<char>>) -> bool {
        true
    }

    /// `r` is an answer of `rename(from, to)`.
    open spec fn rename_answer(&self, from: Seq<char>, to: Seq<char>, r: Result<(), Seq<char>>) -> bool {
        true
    }

    /// `r` is an answer of `copy_file(from, to)`.
    open spec fn copy_file_answer(&self, from: Seq<char>, to: Seq<char>, r: Result<(), Seq<char>>) -> bool {
        true
    }

    /// `r` is an answer of `copy_dir(from, to)`.
    open spec fn copy_dir_answer(&self, from: Seq<char>, to: Seq<char>, r: Result<(), Seq<char>>) -> bool {
        true
    }

    /// `r` is an answer of `chmod(path, mode)`.
    open spec fn chmod_answer(&self, path: Seq<char>, mode: u32, r: Result<(), Seq<char>>) -> bool {
        true
    }

    /// `r` is an answer of `open_file(path)`.
    open spec fn open_answer(&self, path: Seq<char>, r: Result<(), Seq<char>>) -> bool {
        true
    }

    /// `disconnect()` was asked of this backend.
    open spec fn disconnect_done(&self) -> bool {
        true
    }

    /// `r` is an answer of `is_connected()`.
    open spec fn connected_answer(&self, r: bool) -> bool {
        true
    }

    /// List directory contents.
    fn list_dir(&self, path: &str) -> (r: Result<Vec<DirEntry>, String>)
        ensures
            self.list_dir_answer(path@, crate::file_operation::listing_result(r)),
    ;

    /// Metadata of a single path.
    fn metadata(&self, path: &str) -> (r: Result<FileInfo, String>)
        ensures
            self.metadata_answer(path@, crate::file_operation::info_result(r)),
    ;

    /// Whether a path exists.
    fn path_exists(&self, path: &str) -> (r: Result<bool, String>)
        ensures
            self.exists_answer(path@, crate::file_operation::bool_result(r)),
    ;

    /// Resolve "..", "." and symlinks.
    fn canonicalize(&self, path: &str) -> (r: Result<String, String>)
        ensures
            self.canonical_answer(path@, crate::context::text_result(r)),
    ;

    /// File contents, up to `max_bytes`.
    fn read_file(&self, path: &str, max_bytes: usize) -> (r: Result<Vec<u8>, String>)
        ensures
            self.read_answer(path@, max_bytes, crate::file_operation::bytes_result(r)),
    ;

    /// Create or overwrite a file.
    fn write_file(&self, path: &str, data: &[u8]) -> (r: Result<(), String>)
        ensures
            self.write_answer(path@, data@, crate::context::unit_result(r)),
    ;

    /// Create a directory (with its parents where the backend does so).
    fn create_dir(&self, path: &str) -> (r: Result<(), String>)
        ensures
            self.create_dir_answer(path@, crate::context::unit_result(r)),
    ;

    /// Create an empty file.
    fn create_file(&self, path: &str) -> (r: Result<(), String>)
        ensures
            self.create_file_answer(path@, crate::context::unit_result(r)),
    ;

    /// Remove a single file.
    fn remove_file(&self, path: &str) -> (r: Result<(), String>)
        ensures
            self.remove_file_answer(path@, crate::context::unit_result(r)),
    ;

    /// Remove a directory recursively.
    fn remove_dir_all(&self, path: &str) -> (r: Result<(), String>)
        ensures
            self.remove_dir_all_answer(path@, crate::context::unit_result(r)),
    ;

    /// Rename or move within this backend.
    fn rename(&self, from: &str, to: &str) -> (r: Result<(), String>)
        ensures
            self.rename_answer(from@, to@, crate::context::unit_result(r)),
    ;

    /// Copy a file within this backend.
    fn copy_file(&self, from: &str, to: &str) -> (r: Result<(), String>)
        ensures
            self.copy_file_answer(from@, to@, crate::context::unit_result(r)),
    ;

    /// Copy a directory recursively within this backend.
    fn copy_dir(&self, from: &str, to: &str) -> (r: Result<(), String>)
        ensures
            self.copy_dir_answer(from@, to@, crate::context::unit_result(r)),
    ;

    /// Change permissions (octal mode such as 0o755).
    fn chmod(&self, path: &str, mode: u32) -> (r: Result<(), String>)
        ensures
            self.chmod_answer(path@, mode, crate::context::unit_result(r)),
    ;

    /// Open a file in the user's editor (remote files are edited through a local copy).
    fn open_file(&self, path: &str) -> (r: Result<(), String>)
        ensures
            self.open_answer(path@, crate::context::unit_result(r)),
    ;

    /// Close the connection (nothing to do for the local filesystem).
    fn disconnect(&self)
        ensures
            self.disconnect_done(),
    ;

    /// Whether the connection is still alive.
    fn is_connected(&self) -> (r: bool)
        ensures
            self.connected_answer(r),
    ;
}

} // verus!
