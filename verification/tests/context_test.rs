use std::cell::RefCell;
use std::collections::BTreeMap;
use vocofo::backend::{BackendRef, DirEntry, FileInfo, FilesystemBackend};
use vocofo::event_handler::Backends;
use vocofo::file_operation::list_children;
use vocofo::keys::{KeyCode, KeyEvent};
use vocofo::context::{Context, UiState};

// ---------------------------------------------------------------------------
// An in-memory filesystem for exercising the library.
// ---------------------------------------------------------------------------

#[derive(Clone)]
struct Node {
    dir: bool,
    data: Vec<u8>,
    mode: Option<u32>,
}

struct MemFs {
    nodes: RefCell<BTreeMap<String, Node>>,
    cwd: String,
}

impl MemFs {
    fn new() -> Self {
        let fs = MemFs { nodes: RefCell::new(BTreeMap::new()), cwd: "/home/user".to_string() };
        fs.add_dir("/home/user");
        fs
    }

    fn normalize(&self, p: &str) -> String {
        let full = if p.starts_with('/') { p.to_string() } else { format!("{}/{}", self.cwd, p) };
        let mut parts: Vec<&str> = Vec::new();
        for c in full.split('/') {
            match c {
                "" | "." => {}
                ".." => {
                    parts.pop();
                }
                other => parts.push(other),
            }
        }
        format!("/{}", parts.join("/"))
    }

    fn parent_of(p: &str) -> String {
        match p.rfind('/') {
            Some(0) | None => "/".to_string(),
            Some(i) => p[..i].to_string(),
        }
    }

    fn add_dir(&self, p: &str) {
        let n = self.normalize(p);
        let mut cur = String::new();
        self.nodes.borrow_mut().insert("/".to_string(), Node { dir: true, data: vec![], mode: Some(0o755) });
        for c in n.split('/').filter(|c| !c.is_empty()) {
            cur = format!("{}/{}", cur, c);
            self.nodes
                .borrow_mut()
                .entry(cur.clone())
                .or_insert(Node { dir: true, data: vec![], mode: Some(0o755) });
        }
    }

    fn add_file(&self, p: &str, data: &str) {
        let n = self.normalize(p);
        self.add_dir(&Self::parent_of(&n));
        self.nodes
            .borrow_mut()
            .insert(n, Node { dir: false, data: data.as_bytes().to_vec(), mode: Some(0o644) });
    }

    fn has(&self, p: &str) -> bool {
        self.nodes.borrow().contains_key(&self.normalize(p))
    }

    fn mode_of(&self, p: &str) -> Option<u32> {
        self.nodes.borrow().get(&self.normalize(p)).and_then(|n| n.mode)
    }

    fn info(name: &str, n: &Node) -> FileInfo {
        FileInfo {
            name: name.to_string(),
            is_dir: n.dir,
            is_file: !n.dir,
            is_symlink: false,
            size: n.data.len() as u64,
            modified: Some(1_700_000_000),
            readonly: false,
            mode: n.mode,
        }
    }

    fn last(p: &str) -> String {
        p.rsplit('/').next().unwrap_or("").to_string()
    }
}

impl FilesystemBackend for MemFs {
    fn list_dir(&self, path: &str) -> Result<Vec<DirEntry>, String> {
        let n = self.normalize(path);
        let nodes = self.nodes.borrow();
        match nodes.get(&n) {
            Some(node) if node.dir => {}
            _ => return Err("No such file or directory".to_string()),
        }
        let mut out = Vec::new();
        for (k, v) in nodes.iter() {
            if k != "/" && Self::parent_of(k) == n {
                let name = Self::last(k);
                out.push(DirEntry { name: name.clone(), info: Self::info(&name, v) });
            }
        }
        Ok(out)
    }

    fn metadata(&self, path: &str) -> Result<FileInfo, String> {
        let n = self.normalize(path);
        match self.nodes.borrow().get(&n) {
            Some(node) => Ok(Self::info(&Self::last(&n), node)),
            None => Err("No such file or directory".to_string()),
        }
    }

    fn path_exists(&self, path: &str) -> Result<bool, String> {
        Ok(self.has(path))
    }

    fn canonicalize(&self, path: &str) -> Result<String, String> {
        let n = self.normalize(path);
        if self.nodes.borrow().contains_key(&n) {
            Ok(n)
        } else {
            Err("No such file or directory".to_string())
        }
    }

    fn read_file(&self, path: &str, max_bytes: usize) -> Result<Vec<u8>, String> {
        match self.nodes.borrow().get(&self.normalize(path)) {
            Some(node) if !node.dir => Ok(node.data.iter().take(max_bytes).cloned().collect()),
            _ => Err("No such file".to_string()),
        }
    }

    fn write_file(&self, path: &str, data: &[u8]) -> Result<(), String> {
        let n = self.normalize(path);
        if !self.has(&Self::parent_of(&n)) {
            return Err("No such directory".to_string());
        }
        self.nodes.borrow_mut().insert(n, Node { dir: false, data: data.to_vec(), mode: Some(0o644) });
        Ok(())
    }

    fn create_dir(&self, path: &str) -> Result<(), String> {
        self.add_dir(path);
        Ok(())
    }

    fn create_file(&self, path: &str) -> Result<(), String> {
        self.write_file(path, &[])
    }

    fn remove_file(&self, path: &str) -> Result<(), String> {
        let n = self.normalize(path);
        let is_file = matches!(self.nodes.borrow().get(&n), Some(node) if !node.dir);
        if !is_file {
            return Err("No such file".to_string());
        }
        self.nodes.borrow_mut().remove(&n);
        Ok(())
    }

    fn remove_dir_all(&self, path: &str) -> Result<(), String> {
        let n = self.normalize(path);
        if !self.has(&n) {
            return Err("No such directory".to_string());
        }
        let prefix = format!("{}/", n);
        self.nodes.borrow_mut().retain(|k, _| k != &n && !k.starts_with(&prefix));
        Ok(())
    }

    fn rename(&self, from: &str, to: &str) -> Result<(), String> {
        let f = self.normalize(from);
        let t = self.normalize(to);
        if !self.has(&f) {
            return Err("No such file or directory".to_string());
        }
        let prefix = format!("{}/", f);
        let moved: Vec<(String, Node)> = self
            .nodes
            .borrow()
            .iter()
            .filter(|(k, _)| **k == f || k.starts_with(&prefix))
            .map(|(k, v)| (format!("{}{}", t, &k[f.len()..]), v.clone()))
            .collect();
        self.nodes.borrow_mut().retain(|k, _| k != &f && !k.starts_with(&prefix));
        for (k, v) in moved {
            self.nodes.borrow_mut().insert(k, v);
        }
        Ok(())
    }

    fn copy_file(&self, from: &str, to: &str) -> Result<(), String> {
        let data = self.read_file(from, usize::MAX)?;
        self.write_file(to, &data)
    }

    fn copy_dir(&self, from: &str, to: &str) -> Result<(), String> {
        let f = self.normalize(from);
        let t = self.normalize(to);
        let prefix = format!("{}/", f);
        let copied: Vec<(String, Node)> = self
            .nodes
            .borrow()
            .iter()
            .filter(|(k, _)| **k == f || k.starts_with(&prefix))
            .map(|(k, v)| (format!("{}{}", t, &k[f.len()..]), v.clone()))
            .collect();
        for (k, v) in copied {
            self.nodes.borrow_mut().insert(k, v);
        }
        Ok(())
    }

    fn chmod(&self, path: &str, mode: u32) -> Result<(), String> {
        let n = self.normalize(path);
        match self.nodes.borrow_mut().get_mut(&n) {
            Some(node) => {
                node.mode = Some(mode);
                Ok(())
            }
            None => Err("No such file or directory".to_string()),
        }
    }

    fn open_file(&self, _path: &str) -> Result<(), String> {
        Ok(())
    }

    fn disconnect(&self) {}

    fn is_connected(&self) -> bool {
        true
    }
}

struct Pool {
    fs: MemFs,
}

impl Backends for Pool {
    type Fs = MemFs;

    fn get(&self, _backend: &BackendRef) -> &MemFs {
        &self.fs
    }
}

const NOW: u64 = 1_700_000_100;

fn key(code: KeyCode) -> KeyEvent {
    KeyEvent::plain(code)
}

fn key_ctrl(c: char) -> KeyEvent {
    KeyEvent::ctrl(KeyCode::Char(c))
}

/// A pool whose filesystem holds file1.txt, file2.txt and subdir/ in the
/// working directory, and a context whose first panel lists it.
fn create_test_context() -> (Context, Pool) {
    let fs = MemFs::new();
    fs.add_file("/home/user/file1.txt", "hello");
    fs.add_file("/home/user/file2.txt", "world");
    fs.add_dir("/home/user/subdir");
    let pool = Pool { fs };
    let mut context = Context::new(&pool.fs).unwrap();
    list_children(&mut context.panels[0], &pool.fs).unwrap();
    (context, pool)
}

#[test]
fn test_context_new() {
    let fs = MemFs::new();
    let context = Context::new(&fs);
    assert!(context.is_ok());

    let context = context.unwrap();
    assert_eq!(context.exit, false);
    assert!(!context.active().path.is_empty());
    assert_eq!(context.active().items.len(), 0);
    assert_eq!(context.active().state, 0);
    assert_eq!(context.ui_state, UiState::Normal);
    assert!(context.copy_path.is_empty());
}

#[test]
fn test_context_new_fails_when_default_path_cannot_be_resolved() {
    let fs = MemFs { nodes: RefCell::new(BTreeMap::new()), cwd: "/missing".to_string() };
    assert!(Context::new(&fs).is_err());
}

#[test]
fn test_get_exit() {
    let fs = MemFs::new();
    let context = Context::new(&fs).unwrap();
    assert_eq!(context.get_exit(), Some(false));
}

#[test]
fn test_set_exit() {
    let fs = MemFs::new();
    let mut context = Context::new(&fs).unwrap();
    assert_eq!(context.exit, false);

    context.set_exit();
    assert_eq!(context.exit, true);
    assert_eq!(context.get_exit(), Some(true));
}

#[test]
fn test_increment_state() {
    let fs = MemFs::new();
    let mut context = Context::new(&fs).unwrap();
    assert_eq!(context.active().state, 0);

    context.active_mut().increment_state();
    assert_eq!(context.active().state, 1);

    context.active_mut().increment_state();
    assert_eq!(context.active().state, 2);
}

#[test]
fn test_decrease_state() {
    let fs = MemFs::new();
    let mut context = Context::new(&fs).unwrap();
    context.active_mut().state = 5;

    context.active_mut().decrease_state();
    assert_eq!(context.active().state, 4);

    context.active_mut().decrease_state();
    assert_eq!(context.active().state, 3);
}

#[test]
fn test_get_selected_item_empty_list() {
    let fs = MemFs::new();
    let context = Context::new(&fs).unwrap();
    assert!(context.active().get_selected_item().is_none());
}

#[test]
fn test_get_selected_item_valid() {
    let (mut context, _pool) = create_test_context();
    assert_eq!(context.active().get_selected_item(), Some(&"../".to_string()));
    context.active_mut().increment_state();
    assert!(context.active().get_selected_item().is_some());
}

#[test]
fn test_get_selected_item_out_of_bounds() {
    let (mut context, _pool) = create_test_context();
    context.active_mut().state = 999;
    assert!(context.active().get_selected_item().is_none());
}

#[test]
fn test_ui_state_transitions() {
    let fs = MemFs::new();
    let mut context = Context::new(&fs).unwrap();

    assert_eq!(context.ui_state, UiState::Normal);

    context.set_ui_state(UiState::CreatePopup);
    assert_eq!(context.get_ui_state(), Some(UiState::CreatePopup));

    context.set_ui_state(UiState::ConfirmDelete);
    assert_eq!(context.get_ui_state(), Some(UiState::ConfirmDelete));

    context.set_ui_state(UiState::Normal);
    assert_eq!(context.get_ui_state(), Some(UiState::Normal));
}

#[test]
fn test_input_handling() {
    let fs = MemFs::new();
    let mut context = Context::new(&fs).unwrap();

    assert_eq!(context.get_input(), Some(&String::default()));

    context.set_input("test_input".to_string());
    assert_eq!(context.get_input(), Some(&"test_input".to_string()));

    context.set_input(String::default());
    assert_eq!(context.get_input(), Some(&String::default()));
}

#[test]
fn test_set_copy_path_valid_item() {
    let (mut context, _pool) = create_test_context();
    let file_idx = context.active().items.iter().position(|i| i == "file1.txt").unwrap();
    context.active_mut().state = file_idx;

    context.set_copy_path();
    assert_eq!(context.copy_path, "/home/user/file1.txt");
}

#[test]
fn test_set_copy_path_with_folder() {
    let (mut context, _pool) = create_test_context();
    let folder_idx = context.active().items.iter().position(|i| i == "subdir/").unwrap();
    context.active_mut().state = folder_idx;

    context.set_copy_path();
    assert_eq!(context.copy_path, "/home/user/subdir");
}

#[test]
fn test_set_copy_path_parent_directory() {
    let (mut context, _pool) = create_test_context();
    context.active_mut().state = 0;
    assert_eq!(context.active().get_selected_item(), Some(&"../".to_string()));

    let before = context.copy_path.clone();
    context.set_copy_path();
    assert_eq!(before, context.copy_path);
    assert!(context.copy_path.is_empty());
}

#[test]
fn test_set_copy_path_no_selection() {
    let fs = MemFs::new();
    let mut context = Context::new(&fs).unwrap();
    context.set_copy_path();
    assert!(context.copy_path.is_empty());
}

#[test]
fn test_get_copy_path() {
    let fs = MemFs::new();
    let mut context = Context::new(&fs).unwrap();
    context.copy_path = "/test/path".to_string();
    assert_eq!(context.get_copy_path(), "/test/path");
}

#[test]
fn test_get_state() {
    let fs = MemFs::new();
    let mut context = Context::new(&fs).unwrap();
    context.active_mut().state = 42;
    assert_eq!(context.active().get_state(), 42);
}

#[test]
fn test_set_confirm_button_selected() {
    let fs = MemFs::new();
    let mut context = Context::new(&fs).unwrap();

    let initial = context.get_confirm_button_selected().unwrap();
    context.set_confirm_button_selected();
    let after = context.get_confirm_button_selected().unwrap();
    assert_ne!(initial, after);

    context.set_confirm_button_selected();
    assert_eq!(context.get_confirm_button_selected().unwrap(), initial);
}

#[test]
fn test_get_metadata_selected_item_file() {
    let (mut context, pool) = create_test_context();
    let file_idx = context.active().items.iter().position(|i| i == "file1.txt").unwrap();
    context.active_mut().state = file_idx;

    let meta = context.active().get_metadata_selected_item(&pool.fs).unwrap();
    assert!(meta.is_file);
    assert!(!meta.is_dir);
}

#[test]
fn test_get_metadata_selected_item_folder() {
    let (mut context, pool) = create_test_context();
    let folder_idx = context.active().items.iter().position(|i| i == "subdir/").unwrap();
    context.active_mut().state = folder_idx;

    let meta = context.active().get_metadata_selected_item(&pool.fs).unwrap();
    assert!(meta.is_dir);
    assert!(!meta.is_file);
}

#[test]
fn test_get_metadata_selected_item_no_selection() {
    let fs = MemFs::new();
    let context = Context::new(&fs).unwrap();
    let metadata = context.active().get_metadata_selected_item(&fs);
    assert!(metadata.is_none());
}

#[test]
fn test_multiple_ui_state_changes() {
    let fs = MemFs::new();
    let mut context = Context::new(&fs).unwrap();

    let states = vec![UiState::Normal, UiState::CreatePopup, UiState::ConfirmDelete, UiState::Normal];
    for state in states {
        context.set_ui_state(state);
        assert_eq!(context.get_ui_state(), Some(state));
    }
}

#[test]
fn test_status_message_round_trip() {
    let fs = MemFs::new();
    let mut context = Context::new(&fs).unwrap();
    assert!(context.get_status_message().is_none());
    context.set_status_message("hello");
    assert_eq!(context.get_status_message(), Some(&"hello".to_string()));
    context.clear_status_message();
    assert!(context.get_status_message().is_none());
}

#[test]
fn test_allocate_backend_id_counts_up() {
    let fs = MemFs::new();
    let mut context = Context::new(&fs).unwrap();
    assert_eq!(context.allocate_backend_id(), 1);
    assert_eq!(context.allocate_backend_id(), 2);
    assert_eq!(context.next_backend_id, 3);
}
