use vocofo::event_handler::Effect;
use vocofo::event_handler::clipboard::paste_after_check;
use vocofo::event_handler::clipboard::pending_paste_after;
use vocofo::event_handler::popups::chmod_outcome;
use vocofo::file_operation::create_file_after_check;
use std::cell::RefCell;
use std::collections::BTreeMap;
use vocofo::backend::{BackendRef, DirEntry, FileInfo, FilesystemBackend};
use vocofo::event_handler::Backends;
use vocofo::file_operation::list_children;
use vocofo::keys::{KeyCode, KeyEvent};
use vocofo::backend::{BackendKind, ConnectionParams, ConnectionProtocol};
use vocofo::background_op::{
    batch_result, clear_tree, copy_batch, copy_file_by_reading, copy_tree, cross_backend_copy_with_progress,
    delete_batch, FileOpResult, TransferProgress,
};
use vocofo::context::Context;
use vocofo::event_handler::connect::Connected;
use std::sync::atomic::Ordering;

// ---------------------------------------------------------------------------
// An in-memory filesystem for exercising the library.
// ---------------------------------------------------------------------------

#[derive(Clone)]
struct Node {
    dir: bool,
    data: Vec<u8>,
    mode: Option<u32>,
}

struct MemFs {
    nodes: RefCell<BTreeMap<String, Node>>,
    cwd: String,
}

impl MemFs {
    fn new() -> Self {
        let fs = MemFs { nodes: RefCell::new(BTreeMap::new()), cwd: "/home/user".to_string() };
        fs.add_dir("/home/user");
        fs
    }

    fn normalize(&self, p: &str) -> String {
        let full = if p.starts_with('/') { p.to_string() } else { format!("{}/{}", self.cwd, p) };
        let mut parts: Vec<&str> = Vec::new();
        for c in full.split('/') {
            match c {
                "" | "." => {}
                ".." => {
                    parts.pop();
                }
                other => parts.push(other),
            }
        }
        format!("/{}", parts.join("/"))
    }

    fn parent_of(p: &str) -> String {
        match p.rfind('/') {
            Some(0) | None => "/".to_string(),
            Some(i) => p[..i].to_string(),
        }
    }

    fn add_dir(&self, p: &str) {
        let n = self.normalize(p);
        let mut cur = String::new();
        self.nodes.borrow_mut().insert("/".to_string(), Node { dir: true, data: vec![], mode: Some(0o755) });
        for c in n.split('/').filter(|c| !c.is_empty()) {
            cur = format!("{}/{}", cur, c);
            self.nodes
                .borrow_mut()
                .entry(cur.clone())
                .or_insert(Node { dir: true, data: vec![], mode: Some(0o755) });
        }
    }

    fn add_file(&self, p: &str, data: &str) {
        let n = self.normalize(p);
        self.add_dir(&Self::parent_of(&n));
        self.nodes
            .borrow_mut()
            .insert(n, Node { dir: false, data: data.as_bytes().to_vec(), mode: Some(0o644) });
    }

    fn has(&self, p: &str) -> bool {
        self.nodes.borrow().contains_key(&self.normalize(p))
    }

    fn mode_of(&self, p: &str) -> Option<u32> {
        self.nodes.borrow().get(&self.normalize(p)).and_then(|n| n.mode)
    }

    fn info(name: &str, n: &Node) -> FileInfo {
        FileInfo {
            name: name.to_string(),
            is_dir: n.dir,
            is_file: !n.dir,
            is_symlink: false,
            size: n.data.len() as u64,
            modified: Some(1_700_000_000),
            readonly: false,
            mode: n.mode,
        }
    }

    fn last(p: &str) -> String {
        p.rsplit('/').next().unwrap_or("").to_string()
    }
}

impl FilesystemBackend for MemFs {
    fn list_dir(&self, path: &str) -> Result<Vec<DirEntry>, String> {
        let n = self.normalize(path);
        let nodes = self.nodes.borrow();
        match nodes.get(&n) {
            Some(node) if node.dir => {}
            _ => return Err("No such file or directory".to_string()),
        }
        let mut out = Vec::new();
        for (k, v) in nodes.iter() {
            if k != "/" && Self::parent_of(k) == n {
                let name = Self::last(k);
                out.push(DirEntry { name: name.clone(), info: Self::info(&name, v) });
            }
        }
        Ok(out)
    }

    fn metadata(&self, path: &str) -> Result<FileInfo, String> {
        let n = self.normalize(path);
        match self.nodes.borrow().get(&n) {
            Some(node) => Ok(Self::info(&Self::last(&n), node)),
            None => Err("No such file or directory".to_string()),
        }
    }

    fn path_exists(&self, path: &str) -> Result<bool, String> {
        Ok(self.has(path))
    }

    fn canonicalize(&self, path: &str) -> Result<String, String> {
        let n = self.normalize(path);
        if self.nodes.borrow().contains_key(&n) {
            Ok(n)
        } else {
            Err("No such file or directory".to_string())
        }
    }

    fn read_file(&self, path: &str, max_bytes: usize) -> Result<Vec<u8>, String> {
        match self.nodes.borrow().get(&self.normalize(path)) {
            Some(node) if !node.dir => Ok(node.data.iter().take(max_bytes).cloned().collect()),
            _ => Err("No such file".to_string()),
        }
    }

    fn write_file(&self, path: &str, data: &[u8]) -> Result<(), String> {
        let n = self.normalize(path);
        if !self.has(&Self::parent_of(&n)) {
            return Err("No such directory".to_string());
        }
        self.nodes.borrow_mut().insert(n, Node { dir: false, data: data.to_vec(), mode: Some(0o644) });
        Ok(())
    }

    fn create_dir(&self, path: &str) -> Result<(), String> {
        self.add_dir(path);
        Ok(())
    }

    fn create_file(&self, path: &str) -> Result<(), String> {
        self.write_file(path, &[])
    }

    fn remove_file(&self, path: &str) -> Result<(), String> {
        let n = self.normalize(path);
        let is_file = matches!(self.nodes.borrow().get(&n), Some(node) if !node.dir);
        if !is_file {
            return Err("No such file".to_string());
        }
        self.nodes.borrow_mut().remove(&n);
        Ok(())
    }

    fn remove_dir_all(&self, path: &str) -> Result<(), String> {
        let n = self.normalize(path);
        if !self.has(&n) {
            return Err("No such directory".to_string());
        }
        let prefix = format!("{}/", n);
        self.nodes.borrow_mut().retain(|k, _| k != &n && !k.starts_with(&prefix));
        Ok(())
    }

    fn rename(&self, from: &str, to: &str) -> Result<(), String> {
        let f = self.normalize(from);
        let t = self.normalize(to);
        if !self.has(&f) {
            return Err("No such file or directory".to_string());
        }
        let prefix = format!("{}/", f);
        let moved: Vec<(String, Node)> = self
            .nodes
            .borrow()
            .iter()
            .filter(|(k, _)| **k == f || k.starts_with(&prefix))
            .map(|(k, v)| (format!("{}{}", t, &k[f.len()..]), v.clone()))
            .collect();
        self.nodes.borrow_mut().retain(|k, _| k != &f && !k.starts_with(&prefix));
        for (k, v) in moved {
            self.nodes.borrow_mut().insert(k, v);
        }
        Ok(())
    }

    fn copy_file(&self, from: &str, to: &str) -> Result<(), String> {
        let data = self.read_file(from, usize::MAX)?;
        self.write_file(to, &data)
    }

    fn copy_dir(&self, from: &str, to: &str) -> Result<(), String> {
        let f = self.normalize(from);
        let t = self.normalize(to);
        let prefix = format!("{}/", f);
        let copied: Vec<(String, Node)> = self
            .nodes
            .borrow()
            .iter()
            .filter(|(k, _)| **k == f || k.starts_with(&prefix))
            .map(|(k, v)| (format!("{}{}", t, &k[f.len()..]), v.clone()))
            .collect();
        for (k, v) in copied {
            self.nodes.borrow_mut().insert(k, v);
        }
        Ok(())
    }

    fn chmod(&self, path: &str, mode: u32) -> Result<(), String> {
        let n = self.normalize(path);
        match self.nodes.borrow_mut().get_mut(&n) {
            Some(node) => {
                node.mode = Some(mode);
                Ok(())
            }
            None => Err("No such file or directory".to_string()),
        }
    }

    fn open_file(&self, _path: &str) -> Result<(), String> {
        Ok(())
    }

    fn disconnect(&self) {}

    fn is_connected(&self) -> bool {
        true
    }
}

struct Pool {
    fs: MemFs,
}

impl Backends for Pool {
    type Fs = MemFs;

    fn get(&self, _backend: &BackendRef) -> &MemFs {
        &self.fs
    }
}

const NOW: u64 = 1_700_000_100;

fn key(code: KeyCode) -> KeyEvent {
    KeyEvent::plain(code)
}

fn key_ctrl(c: char) -> KeyEvent {
    KeyEvent::ctrl(KeyCode::Char(c))
}

/// A pool whose filesystem holds file1.txt, file2.txt and subdir/ in the
/// working directory, and a context whose first panel lists it.
fn create_test_context() -> (Context, Pool) {
    let fs = MemFs::new();
    fs.add_file("/home/user/file1.txt", "hello");
    fs.add_file("/home/user/file2.txt", "world");
    fs.add_dir("/home/user/subdir");
    let pool = Pool { fs };
    let mut context = Context::new(&pool.fs).unwrap();
    list_children(&mut context.panels[0], &pool.fs).unwrap();
    (context, pool)
}

fn remote_ref(id: u64) -> BackendRef {
    BackendRef {
        id,
        kind: BackendKind::Sftp,
        display: "SFTP: u@h:22".to_string(),
        params: Some(ConnectionParams {
            protocol: ConnectionProtocol::Sftp,
            host: "h".to_string(),
            port: 22,
            username: "u".to_string(),
            password: String::new(),
            key_path: None,
        }),
    }
}

#[test]
fn test_operation_success_relists_and_reports() {
    let (mut ctx, pool) = create_test_context();
    ctx.panels[0].state = 3;
    pool.fs.remove_file("/home/user/file2.txt").unwrap();
    ctx.copy_path = "/home/user/file2.txt".to_string();
    ctx.transfer_progress = Some(std::sync::Arc::new(TransferProgress::new()));
    let result = FileOpResult { description: "Moving file2.txt...".to_string(), result: Ok(()), clear_clipboard: true };
    ctx.apply_operation_result(result, &pool);
    assert!(ctx.transfer_progress.is_none());
    assert_eq!(ctx.panels[0].items, vec!["../", "subdir/", "file1.txt"]);
    assert_eq!(ctx.panels[0].state, 0);
    assert!(!ctx.panels[0].items_dirty);
    assert_eq!(ctx.get_status_message(), Some(&"Moving file2.txt done".to_string()));
    assert!(ctx.copy_path.is_empty());
}

#[test]
fn test_operation_failure_reports_error() {
    let (mut ctx, pool) = create_test_context();
    ctx.copy_path = "/keep".to_string();
    let result = FileOpResult {
        description: "Copying x...".to_string(),
        result: Err("disk full".to_string()),
        clear_clipboard: false,
    };
    ctx.apply_operation_result(result, &pool);
    assert_eq!(ctx.get_status_message(), Some(&"Failed: disk full".to_string()));
    assert_eq!(ctx.copy_path, "/keep");
}

#[test]
fn test_check_operation_receives_result() {
    let (mut ctx, _pool) = create_test_context();
    assert!(ctx.check_operation().is_none());
    let (tx, rx) = std::sync::mpsc::channel();
    ctx.start_operation(rx, "Copying a...".to_string());
    assert!(ctx.check_operation().is_none());
    assert!(ctx.is_operation_running());
    tx.send(FileOpResult { description: "Copying a...".to_string(), result: Ok(()), clear_clipboard: false }).unwrap();
    let got = ctx.check_operation().unwrap();
    assert_eq!(got.description, "Copying a...");
    assert!(!ctx.is_operation_running());
    assert!(ctx.operation_description.is_none());
}

#[test]
fn test_check_operation_worker_gone() {
    let (mut ctx, _pool) = create_test_context();
    let (tx, rx) = std::sync::mpsc::channel::<FileOpResult>();
    ctx.start_operation(rx, "Deleting x...".to_string());
    drop(tx);
    let got = ctx.check_operation().unwrap();
    assert_eq!(got.description, "Deleting x...");
    assert_eq!(got.result, Err("Operation thread crashed".to_string()));
    assert!(!ctx.is_operation_running());
}

#[test]
fn test_reconnect_decisions() {
    let (mut ctx, pool) = create_test_context();
    assert!(ctx.needs_reconnect(0, &pool).is_none());
    ctx.panels[1].backend = remote_ref(4);
    // The in-memory filesystem reports itself connected.
    assert!(ctx.needs_reconnect(1, &pool).is_none());
    let params = ctx.panels[1].backend.params.clone().unwrap();
    let outcome = Ok(Connected { kind: BackendKind::Sftp, display: "SFTP: u@h:22".to_string(), params });
    let b = ctx.finish_reconnect(1, outcome).unwrap();
    assert_eq!(b.id, 1);
    assert_eq!(ctx.panels[1].backend.id, 1);
    assert!(ctx.panels[1].items_dirty);
    assert_eq!(ctx.get_status_message(), Some(&"Reconnected".to_string()));
    assert!(ctx.finish_reconnect(1, Err("timed out".to_string())).is_none());
    assert_eq!(ctx.get_status_message(), Some(&"Connection lost: timed out".to_string()));
}

#[test]
fn test_batch_result_text() {
    assert_eq!(batch_result(3, &vec![]), Ok(()));
    assert_eq!(
        batch_result(3, &vec!["a: no".to_string(), "b: gone".to_string()]),
        Err("2 of 3 failed: a: no; b: gone".to_string())
    );
}

#[test]
fn test_batch_delete_error_format() {
    let fs = MemFs::new();
    fs.add_file("/d/exists.txt", "data");
    let paths = vec!["/d/exists.txt".to_string(), "/d/nonexistent.txt".to_string()];
    let result = delete_batch(&fs, &paths);
    let msg = result.unwrap_err();
    assert!(msg.contains("1 of 2 failed"), "{}", msg);
    assert!(msg.contains("/d/nonexistent.txt: "));
    assert!(!fs.has("/d/exists.txt"));
}

#[test]
fn test_copy_batch_moves_items() {
    let fs = MemFs::new();
    fs.add_file("/a/x.txt", "x");
    fs.add_file("/a/y/z.txt", "z");
    fs.add_dir("/b");
    let r = BackendRef::local(0);
    let items = vec![
        ("/a/x.txt".to_string(), "/b/x.txt".to_string()),
        ("/a/y".to_string(), "/b/y".to_string()),
    ];
    let progress = TransferProgress::new();
    assert!(copy_batch(&fs, &r, &fs, &r, &items, true, Some(&progress)).is_ok());
    assert!(fs.has("/b/x.txt") && fs.has("/b/y/z.txt"));
    assert!(!fs.has("/a/x.txt") && !fs.has("/a/y"));
    assert_eq!(progress.total_bytes.load(Ordering::Relaxed), 1);
}

#[test]
fn test_cross_backend_copy_reads_and_writes() {
    let src = MemFs::new();
    src.add_file("/s/dir/a.txt", "alpha");
    src.add_file("/s/dir/sub/b.txt", "beta");
    let dst = MemFs::new();
    dst.add_dir("/t");
    let sr = remote_ref(2);
    let dr = BackendRef::local(0);
    let progress = TransferProgress::new();
    assert!(cross_backend_copy_with_progress(&src, &sr, &dst, &dr, "/s/dir", "/t/dir", Some(&progress), 10).is_ok());
    assert_eq!(dst.read_file("/t/dir/sub/b.txt", 100).unwrap(), b"beta".to_vec());
    assert_eq!(progress.bytes_transferred.load(Ordering::Relaxed), 9);
    assert_eq!(
        cross_backend_copy_with_progress(&src, &sr, &dst, &dr, "/s/dir", "/t/dir2", None, 0),
        Err("Directory nesting too deep".to_string())
    );
}

#[test]
fn test_tree_walks_within_one_backend() {
    let fs = MemFs::new();
    fs.add_file("/w/a.txt", "a");
    fs.add_file("/w/d/b.txt", "b");
    let r = remote_ref(3);
    assert!(copy_tree(&fs, &r, "/w", "/v").is_ok());
    assert!(fs.has("/v/a.txt") && fs.has("/v/d/b.txt"));
    assert!(copy_file_by_reading(&fs, "/w/a.txt", "/w/c.txt").is_ok());
    assert_eq!(fs.read_file("/w/c.txt", 10).unwrap(), b"a".to_vec());
    assert!(clear_tree(&fs, &r, "/w").is_ok());
    assert!(fs.has("/w"));
    assert!(!fs.has("/w/a.txt") && !fs.has("/w/d"));
}

#[test]
fn test_delete_batch_refuses_parent_paths() {
    let fs = MemFs::new();
    fs.add_file("/a/x.txt", "x");
    let paths = vec!["/a/x.txt".to_string(), "/a/../b".to_string()];
    let r = delete_batch(&fs, &paths);
    assert_eq!(r, Err("1 of 2 failed: /a/../b: Cannot delete parent directory".to_string()));
    assert!(!fs.has("/a/x.txt"));
    assert_eq!(delete_batch(&fs, &Vec::new()), Ok(()));
}

#[test]
fn test_move_batch_with_parent_source_fails() {
    let fs = MemFs::new();
    fs.add_file("/a/x.txt", "x");
    fs.add_dir("/b");
    let r = BackendRef::local(0);
    let items = vec![("/a/../a/x.txt".to_string(), "/b/x.txt".to_string())];
    assert!(copy_batch(&fs, &r, &fs, &r, &items, true, None).is_err());
    assert_eq!(copy_batch(&fs, &r, &fs, &r, &Vec::new(), true, None), Ok(()));
}

#[test]
fn test_cross_backend_move_with_parent_source_fails() {
    let src = MemFs::new();
    src.add_file("/a/x.txt", "x");
    let dst = MemFs::new();
    dst.add_dir("/b");
    let r = vocofo::background_op::move_with_backend_inner(
        &src,
        &BackendRef::local(0),
        &dst,
        &BackendRef::local(1),
        "/a/../a/x.txt",
        "/b/x.txt",
        None,
    );
    assert!(r.is_err());
}

#[test]
fn test_paste_after_check_follows_the_answer() {
    let (mut ctx, _pool) = create_test_context();
    let r = paste_after_check(&mut ctx, "/a/x".to_string(), "/home/user/x".to_string(), false, Ok(true));
    assert!(matches!(r, Effect::Nothing));
    assert_eq!(ctx.ui_state, vocofo::context::UiState::ConfirmOverwrite);
    assert_eq!(ctx.pending_paste, Some(("/a/x".to_string(), "/home/user/x".to_string(), false)));
    let (mut ctx2, _pool2) = create_test_context();
    let r = paste_after_check(&mut ctx2, "/a/x".to_string(), "/home/user/x".to_string(), true, Err("?".to_string()));
    assert!(matches!(r, Effect::Start(_)));
    assert!(ctx2.pending_paste.is_none());
}

#[test]
fn test_pending_paste_after_reports_failed_removal() {
    let (mut ctx, _pool) = create_test_context();
    ctx.pending_paste = Some(("/a/x".to_string(), "/home/user/x".to_string(), false));
    let r = pending_paste_after(
        &mut ctx,
        "/a/x".to_string(),
        "/home/user/x".to_string(),
        false,
        Ok(true),
        Err("busy".to_string()),
    );
    assert!(matches!(r, Effect::Nothing));
    assert_eq!(ctx.get_status_message(), Some(&"Cannot remove existing file: busy".to_string()));
    assert!(ctx.pending_paste.is_none());
    let r = pending_paste_after(&mut ctx, "/a/x".to_string(), "/home/user/x".to_string(), false, Ok(false), Err("unused".to_string()));
    assert!(matches!(r, Effect::Start(_)));
}

#[test]
fn test_chmod_start_and_outcome() {
    let (mut ctx, _pool) = create_test_context();
    let mut info = ctx.panels[0].get_metadata_selected_item(&_pool.fs).unwrap();
    info.mode = Some(0o100755);
    ctx.chmod_start(Ok(info));
    assert_eq!(ctx.input, "755");
    assert_eq!(ctx.ui_state, vocofo::context::UiState::ChmodPopup);
    ctx.chmod_start(Err("denied".to_string()));
    assert_eq!(ctx.get_status_message(), Some(&"Cannot read permissions: denied".to_string()));
    ctx.panels[0].items_dirty = false;
    chmod_outcome(&mut ctx, 0o644, Ok(()));
    assert_eq!(ctx.get_status_message(), Some(&"Permissions changed to 644".to_string()));
    assert!(ctx.panels[0].items_dirty);
    chmod_outcome(&mut ctx, 0o644, Err("no".to_string()));
    assert_eq!(ctx.get_status_message(), Some(&"chmod failed: no".to_string()));
}

#[test]
fn test_create_file_after_check_refuses_existing() {
    let (mut ctx, pool) = create_test_context();
    ctx.ui_state = vocofo::context::UiState::CreateFilePopup;
    ctx.input = "new.txt".to_string();
    assert_eq!(
        create_file_after_check(&mut ctx, &pool.fs, Ok(true)),
        Err("Already exists: /home/user/new.txt".to_string())
    );
    assert_eq!(ctx.ui_state, vocofo::context::UiState::CreateFilePopup);
    assert!(!pool.fs.has("/home/user/new.txt"));
    assert!(create_file_after_check(&mut ctx, &pool.fs, Ok(false)).is_ok());
    assert!(pool.fs.has("/home/user/new.txt"));
    assert_eq!(ctx.input, "");
}

#[test]
fn test_open_with_info_without_metadata_changes_nothing() {
    let (mut ctx, pool) = create_test_context();
    let before_path = ctx.panels[0].path.clone();
    assert_eq!(ctx.panels[0].open_with_info(&pool.fs, None), None);
    assert_eq!(ctx.panels[0].path, before_path);
}
