use std::cell::RefCell;
use std::collections::BTreeMap;
use vocofo::backend::{BackendRef, DirEntry, FileInfo, FilesystemBackend};
use vocofo::event_handler::Backends;
use vocofo::file_operation::list_children;
use vocofo::keys::{KeyCode, KeyEvent};
use vocofo::context::{ClipboardMode, Context, UiState};
use vocofo::event_handler::clipboard::{handle_copy_or_cut, handle_paste};
use vocofo::event_handler::{Effect, JobKind};
use vocofo::file_operation::resolve_paste_paths;

// ---------------------------------------------------------------------------
// An in-memory filesystem for exercising the library.
// ---------------------------------------------------------------------------

#[derive(Clone)]
struct Node {
    dir: bool,
    data: Vec<u8>,
    mode: Option<u32>,
}

struct MemFs {
    nodes: RefCell<BTreeMap<String, Node>>,
    cwd: String,
}

impl MemFs {
    fn new() -> Self {
        let fs = MemFs { nodes: RefCell::new(BTreeMap::new()), cwd: "/home/user".to_string() };
        fs.add_dir("/home/user");
        fs
    }

    fn normalize(&self, p: &str) -> String {
        let full = if p.starts_with('/') { p.to_string() } else { format!("{}/{}", self.cwd, p) };
        let mut parts: Vec<&str> = Vec::new();
        for c in full.split('/') {
            match c {
                "" | "." => {}
                ".." => {
                    parts.pop();
                }
                other => parts.push(other),
            }
        }
        format!("/{}", parts.join("/"))
    }

    fn parent_of(p: &str) -> String {
        match p.rfind('/') {
            Some(0) | None => "/".to_string(),
            Some(i) => p[..i].to_string(),
        }
    }

    fn add_dir(&self, p: &str) {
        let n = self.normalize(p);
        let mut cur = String::new();
        self.nodes.borrow_mut().insert("/".to_string(), Node { dir: true, data: vec![], mode: Some(0o755) });
        for c in n.split('/').filter(|c| !c.is_empty()) {
            cur = format!("{}/{}", cur, c);
            self.nodes
                .borrow_mut()
                .entry(cur.clone())
                .or_insert(Node { dir: true, data: vec![], mode: Some(0o755) });
        }
    }

    fn add_file(&self, p: &str, data: &str) {
        let n = self.normalize(p);
        self.add_dir(&Self::parent_of(&n));
        self.nodes
            .borrow_mut()
            .insert(n, Node { dir: false, data: data.as_bytes().to_vec(), mode: Some(0o644) });
    }

    fn has(&self, p: &str) -> bool {
        self.nodes.borrow().contains_key(&self.normalize(p))
    }

    fn mode_of(&self, p: &str) -> Option<u32> {
        self.nodes.borrow().get(&self.normalize(p)).and_then(|n| n.mode)
    }

    fn info(name: &str, n: &Node) -> FileInfo {
        FileInfo {
            name: name.to_string(),
            is_dir: n.dir,
            is_file: !n.dir,
            is_symlink: false,
            size: n.data.len() as u64,
            modified: Some(1_700_000_000),
            readonly: false,
            mode: n.mode,
        }
    }

    fn last(p: &str) -> String {
        p.rsplit('/').next().unwrap_or("").to_string()
    }
}

impl FilesystemBackend for MemFs {
    fn list_dir(&self, path: &str) -> Result<Vec<DirEntry>, String> {
        let n = self.normalize(path);
        let nodes = self.nodes.borrow();
        match nodes.get(&n) {
            Some(node) if node.dir => {}
            _ => return Err("No such file or directory".to_string()),
        }
        let mut out = Vec::new();
        for (k, v) in nodes.iter() {
            if k != "/" && Self::parent_of(k) == n {
                let name = Self::last(k);
                out.push(DirEntry { name: name.clone(), info: Self::info(&name, v) });
            }
        }
        Ok(out)
    }

    fn metadata(&self, path: &str) -> Result<FileInfo, String> {
        let n = self.normalize(path);
        match self.nodes.borrow().get(&n) {
            Some(node) => Ok(Self::info(&Self::last(&n), node)),
            None => Err("No such file or directory".to_string()),
        }
    }

    fn path_exists(&self, path: &str) -> Result<bool, String> {
        Ok(self.has(path))
    }

    fn canonicalize(&self, path: &str) -> Result<String, String> {
        let n = self.normalize(path);
        if self.nodes.borrow().contains_key(&n) {
            Ok(n)
        } else {
            Err("No such file or directory".to_string())
        }
    }

    fn read_file(&self, path: &str, max_bytes: usize) -> Result<Vec<u8>, String> {
        match self.nodes.borrow().get(&self.normalize(path)) {
            Some(node) if !node.dir => Ok(node.data.iter().take(max_bytes).cloned().collect()),
            _ => Err("No such file".to_string()),
        }
    }

    fn write_file(&self, path: &str, data: &[u8]) -> Result<(), String> {
        let n = self.normalize(path);
        if !self.has(&Self::parent_of(&n)) {
            return Err("No such directory".to_string());
        }
        self.nodes.borrow_mut().insert(n, Node { dir: false, data: data.to_vec(), mode: Some(0o644) });
        Ok(())
    }

    fn create_dir(&self, path: &str) -> Result<(), String> {
        self.add_dir(path);
        Ok(())
    }

    fn create_file(&self, path: &str) -> Result<(), String> {
        self.write_file(path, &[])
    }

    fn remove_file(&self, path: &str) -> Result<(), String> {
        let n = self.normalize(path);
        let is_file = matches!(self.nodes.borrow().get(&n), Some(node) if !node.dir);
        if !is_file {
            return Err("No such file".to_string());
        }
        self.nodes.borrow_mut().remove(&n);
        Ok(())
    }

    fn remove_dir_all(&self, path: &str) -> Result<(), String> {
        let n = self.normalize(path);
        if !self.has(&n) {
            return Err("No such directory".to_string());
        }
        let prefix = format!("{}/", n);
        self.nodes.borrow_mut().retain(|k, _| k != &n && !k.starts_with(&prefix));
        Ok(())
    }

    fn rename(&self, from: &str, to: &str) -> Result<(), String> {
        let f = self.normalize(from);
        let t = self.normalize(to);
        if !self.has(&f) {
            return Err("No such file or directory".to_string());
        }
        let prefix = format!("{}/", f);
        let moved: Vec<(String, Node)> = self
            .nodes
            .borrow()
            .iter()
            .filter(|(k, _)| **k == f || k.starts_with(&prefix))
            .map(|(k, v)| (format!("{}{}", t, &k[f.len()..]), v.clone()))
            .collect();
        self.nodes.borrow_mut().retain(|k, _| k != &f && !k.starts_with(&prefix));
        for (k, v) in moved {
            self.nodes.borrow_mut().insert(k, v);
        }
        Ok(())
    }

    fn copy_file(&self, from: &str, to: &str) -> Result<(), String> {
        let data = self.read_file(from, usize::MAX)?;
        self.write_file(to, &data)
    }

    fn copy_dir(&self, from: &str, to: &str) -> Result<(), String> {
        let f = self.normalize(from);
        let t = self.normalize(to);
        let prefix = format!("{}/", f);
        let copied: Vec<(String, Node)> = self
            .nodes
            .borrow()
            .iter()
            .filter(|(k, _)| **k == f || k.starts_with(&prefix))
            .map(|(k, v)| (format!("{}{}", t, &k[f.len()..]), v.clone()))
            .collect();
        for (k, v) in copied {
            self.nodes.borrow_mut().insert(k, v);
        }
        Ok(())
    }

    fn chmod(&self, path: &str, mode: u32) -> Result<(), String> {
        let n = self.normalize(path);
        match self.nodes.borrow_mut().get_mut(&n) {
            Some(node) => {
                node.mode = Some(mode);
                Ok(())
            }
            None => Err("No such file or directory".to_string()),
        }
    }

    fn open_file(&self, _path: &str) -> Result<(), String> {
        Ok(())
    }

    fn disconnect(&self) {}

    fn is_connected(&self) -> bool {
        true
    }
}

struct Pool {
    fs: MemFs,
}

impl Backends for Pool {
    type Fs = MemFs;

    fn get(&self, _backend: &BackendRef) -> &MemFs {
        &self.fs
    }
}

const NOW: u64 = 1_700_000_100;

fn key(code: KeyCode) -> KeyEvent {
    KeyEvent::plain(code)
}

fn key_ctrl(c: char) -> KeyEvent {
    KeyEvent::ctrl(KeyCode::Char(c))
}

/// A pool whose filesystem holds file1.txt, file2.txt and subdir/ in the
/// working directory, and a context whose first panel lists it.
fn create_test_context() -> (Context, Pool) {
    let fs = MemFs::new();
    fs.add_file("/home/user/file1.txt", "hello");
    fs.add_file("/home/user/file2.txt", "world");
    fs.add_dir("/home/user/subdir");
    let pool = Pool { fs };
    let mut context = Context::new(&pool.fs).unwrap();
    list_children(&mut context.panels[0], &pool.fs).unwrap();
    (context, pool)
}

#[test]
fn test_copy_without_selection() {
    let fs = MemFs::new();
    let mut context = Context::new(&fs).unwrap();
    context.set_copy_path();
    assert!(context.copy_path.is_empty());
}

#[test]
fn test_paste_with_empty_clipboard() {
    let fs = MemFs::new();
    fs.add_dir("/tmp/empty");
    let mut context = Context::new(&fs).unwrap();
    context.panels[0].path = "/tmp/empty".to_string();
    assert!(context.copy_path.is_empty());
    let result = resolve_paste_paths(&mut context, &fs);
    assert!(result.is_err());
}

#[test]
fn test_copy_parent_directory_does_nothing() {
    let (mut context, _pool) = create_test_context();
    context.panels[0].state = 0;
    assert_eq!(context.panels[0].get_selected_item(), Some(&"../".to_string()));
    context.set_copy_path();
    assert!(context.copy_path.is_empty());
}

#[test]
fn test_resolve_paste_into_same_directory_gives_same_path() {
    let (mut context, pool) = create_test_context();
    let idx = context.panels[0].items.iter().position(|i| i == "file1.txt").unwrap();
    context.panels[0].state = idx;
    context.set_copy_path();
    context.panels[0].state = 0;
    let (from, to) = resolve_paste_paths(&mut context, &pool.fs).unwrap();
    assert_eq!(from, to);
}

#[test]
fn test_resolve_paste_into_directory_under_cursor() {
    let (mut context, pool) = create_test_context();
    let idx = context.panels[0].items.iter().position(|i| i == "file1.txt").unwrap();
    context.panels[0].state = idx;
    context.set_copy_path();
    let dir_idx = context.panels[0].items.iter().position(|i| i == "subdir/").unwrap();
    context.panels[0].state = dir_idx;
    let (from, to) = resolve_paste_paths(&mut context, &pool.fs).unwrap();
    assert_eq!(from, "/home/user/file1.txt");
    assert_eq!(to, "/home/user/subdir/file1.txt");
}

#[test]
fn test_copy_then_paste_starts_copy_job() {
    let (mut context, pool) = create_test_context();
    pool.fs.add_dir("/dest");
    let idx = context.panels[0].items.iter().position(|i| i == "file1.txt").unwrap();
    context.panels[0].state = idx;
    handle_copy_or_cut(&mut context, ClipboardMode::Copy);
    assert_eq!(context.get_status_message(), Some(&"Copied to clipboard".to_string()));
    context.panels[0].path = "/dest".to_string();
    list_children(&mut context.panels[0], &pool.fs).unwrap();
    match handle_paste(&mut context, &pool) {
        Effect::Start(job) => {
            assert_eq!(job.description, "Copying file1.txt...");
            assert!(job.progress.is_some());
            assert!(context.transfer_progress.is_some());
            match job.kind {
                JobKind::Copy { from, to, .. } => {
                    assert_eq!(from, "/home/user/file1.txt");
                    assert_eq!(to, "/dest/file1.txt");
                }
                _ => panic!("expected a copy job"),
            }
        }
        _ => panic!("expected a job"),
    }
}

#[test]
fn test_cut_then_paste_onto_existing_asks_first() {
    let (mut context, pool) = create_test_context();
    pool.fs.add_file("/dest/file1.txt", "old");
    let idx = context.panels[0].items.iter().position(|i| i == "file1.txt").unwrap();
    context.panels[0].state = idx;
    handle_copy_or_cut(&mut context, ClipboardMode::Cut);
    assert_eq!(context.get_status_message(), Some(&"Cut to clipboard".to_string()));
    context.panels[0].path = "/dest".to_string();
    list_children(&mut context.panels[0], &pool.fs).unwrap();
    assert!(matches!(handle_paste(&mut context, &pool), Effect::Nothing));
    assert_eq!(context.ui_state, UiState::ConfirmOverwrite);
    assert!(context.confirm_popup_size);
    assert_eq!(
        context.pending_paste,
        Some(("/home/user/file1.txt".to_string(), "/dest/file1.txt".to_string(), true))
    );
}

#[test]
fn test_paste_nothing_copied_reports() {
    let (mut context, pool) = create_test_context();
    assert!(matches!(handle_paste(&mut context, &pool), Effect::Nothing));
    assert_eq!(
        context.get_status_message(),
        Some(&"Nothing to paste \u{2014} copy a file first".to_string())
    );
}

#[test]
fn test_copy_selection_then_paste_starts_batch() {
    let (mut context, pool) = create_test_context();
    pool.fs.add_dir("/dest");
    context.panels[0].select_all();
    handle_copy_or_cut(&mut context, ClipboardMode::Copy);
    assert_eq!(context.copy_paths.len(), 3);
    assert_eq!(context.get_status_message(), Some(&"Copied 3 items to clipboard".to_string()));
    context.panels[0].path = "/dest".to_string();
    list_children(&mut context.panels[0], &pool.fs).unwrap();
    match handle_paste(&mut context, &pool) {
        Effect::Start(job) => {
            assert_eq!(job.description, "Copying 3 items...");
            match job.kind {
                JobKind::CopyBatch { items, is_cut, .. } => {
                    assert!(!is_cut);
                    assert_eq!(items.len(), 3);
                    assert!(items.contains(&("/home/user/file1.txt".to_string(), "/dest/file1.txt".to_string())));
                    assert!(items.contains(&("/home/user/subdir".to_string(), "/dest/subdir".to_string())));
                }
                _ => panic!("expected a batch job"),
            }
        }
        _ => panic!("expected a job"),
    }
}
