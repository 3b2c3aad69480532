use std::cell::RefCell;
use std::collections::BTreeMap;
use vocofo::backend::{BackendRef, DirEntry, FileInfo, FilesystemBackend};
use vocofo::event_handler::Backends;
use vocofo::file_operation::list_children;
use vocofo::keys::{KeyCode, KeyEvent};
use vocofo::context::{Context, UiState};
use vocofo::file_operation::{
    delete_with_backend, directory_preview, file_preview, format_file_metadata_from_info,
    format_item_details_from_info, format_size, generate_preview_with_backend, handle_create_directory,
    handle_create_file, handle_rename,
};

// ---------------------------------------------------------------------------
// An in-memory filesystem for exercising the library.
// ---------------------------------------------------------------------------

#[derive(Clone)]
struct Node {
    dir: bool,
    data: Vec<u8>,
    mode: Option<u32>,
}

struct MemFs {
    nodes: RefCell<BTreeMap<String, Node>>,
    cwd: String,
}

impl MemFs {
    fn new() -> Self {
        let fs = MemFs { nodes: RefCell::new(BTreeMap::new()), cwd: "/home/user".to_string() };
        fs.add_dir("/home/user");
        fs
    }

    fn normalize(&self, p: &str) -> String {
        let full = if p.starts_with('/') { p.to_string() } else { format!("{}/{}", self.cwd, p) };
        let mut parts: Vec<&str> = Vec::new();
        for c in full.split('/') {
            match c {
                "" | "." => {}
                ".." => {
                    parts.pop();
                }
                other => parts.push(other),
            }
        }
        format!("/{}", parts.join("/"))
    }

    fn parent_of(p: &str) -> String {
        match p.rfind('/') {
            Some(0) | None => "/".to_string(),
            Some(i) => p[..i].to_string(),
        }
    }

    fn add_dir(&self, p: &str) {
        let n = self.normalize(p);
        let mut cur = String::new();
        self.nodes.borrow_mut().insert("/".to_string(), Node { dir: true, data: vec![], mode: Some(0o755) });
        for c in n.split('/').filter(|c| !c.is_empty()) {
            cur = format!("{}/{}", cur, c);
            self.nodes
                .borrow_mut()
                .entry(cur.clone())
                .or_insert(Node { dir: true, data: vec![], mode: Some(0o755) });
        }
    }

    fn add_file(&self, p: &str, data: &str) {
        let n = self.normalize(p);
        self.add_dir(&Self::parent_of(&n));
        self.nodes
            .borrow_mut()
            .insert(n, Node { dir: false, data: data.as_bytes().to_vec(), mode: Some(0o644) });
    }

    fn has(&self, p: &str) -> bool {
        self.nodes.borrow().contains_key(&self.normalize(p))
    }

    fn mode_of(&self, p: &str) -> Option<u32> {
        self.nodes.borrow().get(&self.normalize(p)).and_then(|n| n.mode)
    }

    fn info(name: &str, n: &Node) -> FileInfo {
        FileInfo {
            name: name.to_string(),
            is_dir: n.dir,
            is_file: !n.dir,
            is_symlink: false,
            size: n.data.len() as u64,
            modified: Some(1_700_000_000),
            readonly: false,
            mode: n.mode,
        }
    }

    fn last(p: &str) -> String {
        p.rsplit('/').next().unwrap_or("").to_string()
    }
}

impl FilesystemBackend for MemFs {
    fn list_dir(&self, path: &str) -> Result<Vec<DirEntry>, String> {
        let n = self.normalize(path);
        let nodes = self.nodes.borrow();
        match nodes.get(&n) {
            Some(node) if node.dir => {}
            _ => return Err("No such file or directory".to_string()),
        }
        let mut out = Vec::new();
        for (k, v) in nodes.iter() {
            if k != "/" && Self::parent_of(k) == n {
                let name = Self::last(k);
                out.push(DirEntry { name: name.clone(), info: Self::info(&name, v) });
            }
        }
        Ok(out)
    }

    fn metadata(&self, path: &str) -> Result<FileInfo, String> {
        let n = self.normalize(path);
        match self.nodes.borrow().get(&n) {
            Some(node) => Ok(Self::info(&Self::last(&n), node)),
            None => Err("No such file or directory".to_string()),
        }
    }

    fn path_exists(&self, path: &str) -> Result<bool, String> {
        Ok(self.has(path))
    }

    fn canonicalize(&self, path: &str) -> Result<String, String> {
        let n = self.normalize(path);
        if self.nodes.borrow().contains_key(&n) {
            Ok(n)
        } else {
            Err("No such file or directory".to_string())
        }
    }

    fn read_file(&self, path: &str, max_bytes: usize) -> Result<Vec<u8>, String> {
        match self.nodes.borrow().get(&self.normalize(path)) {
            Some(node) if !node.dir => Ok(node.data.iter().take(max_bytes).cloned().collect()),
            _ => Err("No such file".to_string()),
        }
    }

    fn write_file(&self, path: &str, data: &[u8]) -> Result<(), String> {
        let n = self.normalize(path);
        if !self.has(&Self::parent_of(&n)) {
            return Err("No such directory".to_string());
        }
        self.nodes.borrow_mut().insert(n, Node { dir: false, data: data.to_vec(), mode: Some(0o644) });
        Ok(())
    }

    fn create_dir(&self, path: &str) -> Result<(), String> {
        self.add_dir(path);
        Ok(())
    }

    fn create_file(&self, path: &str) -> Result<(), String> {
        self.write_file(path, &[])
    }

    fn remove_file(&self, path: &str) -> Result<(), String> {
        let n = self.normalize(path);
        let is_file = matches!(self.nodes.borrow().get(&n), Some(node) if !node.dir);
        if !is_file {
            return Err("No such file".to_string());
        }
        self.nodes.borrow_mut().remove(&n);
        Ok(())
    }

    fn remove_dir_all(&self, path: &str) -> Result<(), String> {
        let n = self.normalize(path);
        if !self.has(&n) {
            return Err("No such directory".to_string());
        }
        let prefix = format!("{}/", n);
        self.nodes.borrow_mut().retain(|k, _| k != &n && !k.starts_with(&prefix));
        Ok(())
    }

    fn rename(&self, from: &str, to: &str) -> Result<(), String> {
        let f = self.normalize(from);
        let t = self.normalize(to);
        if !self.has(&f) {
            return Err("No such file or directory".to_string());
        }
        let prefix = format!("{}/", f);
        let moved: Vec<(String, Node)> = self
            .nodes
            .borrow()
            .iter()
            .filter(|(k, _)| **k == f || k.starts_with(&prefix))
            .map(|(k, v)| (format!("{}{}", t, &k[f.len()..]), v.clone()))
            .collect();
        self.nodes.borrow_mut().retain(|k, _| k != &f && !k.starts_with(&prefix));
        for (k, v) in moved {
            self.nodes.borrow_mut().insert(k, v);
        }
        Ok(())
    }

    fn copy_file(&self, from: &str, to: &str) -> Result<(), String> {
        let data = self.read_file(from, usize::MAX)?;
        self.write_file(to, &data)
    }

    fn copy_dir(&self, from: &str, to: &str) -> Result<(), String> {
        let f = self.normalize(from);
        let t = self.normalize(to);
        let prefix = format!("{}/", f);
        let copied: Vec<(String, Node)> = self
            .nodes
            .borrow()
            .iter()
            .filter(|(k, _)| **k == f || k.starts_with(&prefix))
            .map(|(k, v)| (format!("{}{}", t, &k[f.len()..]), v.clone()))
            .collect();
        for (k, v) in copied {
            self.nodes.borrow_mut().insert(k, v);
        }
        Ok(())
    }

    fn chmod(&self, path: &str, mode: u32) -> Result<(), String> {
        let n = self.normalize(path);
        match self.nodes.borrow_mut().get_mut(&n) {
            Some(node) => {
                node.mode = Some(mode);
                Ok(())
            }
            None => Err("No such file or directory".to_string()),
        }
    }

    fn open_file(&self, _path: &str) -> Result<(), String> {
        Ok(())
    }

    fn disconnect(&self) {}

    fn is_connected(&self) -> bool {
        true
    }
}

struct Pool {
    fs: MemFs,
}

impl Backends for Pool {
    type Fs = MemFs;

    fn get(&self, _backend: &BackendRef) -> &MemFs {
        &self.fs
    }
}

const NOW: u64 = 1_700_000_100;

fn key(code: KeyCode) -> KeyEvent {
    KeyEvent::plain(code)
}

fn key_ctrl(c: char) -> KeyEvent {
    KeyEvent::ctrl(KeyCode::Char(c))
}

/// A pool whose filesystem holds file1.txt, file2.txt and subdir/ in the
/// working directory, and a context whose first panel lists it.
fn create_test_context() -> (Context, Pool) {
    let fs = MemFs::new();
    fs.add_file("/home/user/file1.txt", "hello");
    fs.add_file("/home/user/file2.txt", "world");
    fs.add_dir("/home/user/subdir");
    let pool = Pool { fs };
    let mut context = Context::new(&pool.fs).unwrap();
    list_children(&mut context.panels[0], &pool.fs).unwrap();
    (context, pool)
}

fn setup_test_fs() -> MemFs {
    let fs = MemFs::new();
    fs.add_file("/t/file1.txt", "content1");
    fs.add_file("/t/file2.txt", "content2");
    fs.add_file("/t/folder1/nested_file.txt", "nested");
    fs.add_dir("/t/folder1/subfolder");
    fs.add_dir("/t/folder2");
    fs
}

fn info(is_dir: bool, size: u64, modified: Option<u64>, readonly: bool) -> FileInfo {
    FileInfo {
        name: "x".to_string(),
        is_dir,
        is_file: !is_dir,
        is_symlink: false,
        size,
        modified,
        readonly,
        mode: None,
    }
}

#[test]
fn test_delete_prevents_parent_directory() {
    let fs = setup_test_fs();
    let result = delete_with_backend(&fs, "/t/../should_not_delete");
    assert_eq!(result, Err("Cannot delete parent directory".to_string()));
}

#[test]
fn test_delete_nonexistent_file() {
    let fs = setup_test_fs();
    assert!(delete_with_backend(&fs, "/t/does_not_exist.txt").is_err());
}

#[test]
fn test_delete_file_and_directory() {
    let fs = setup_test_fs();
    assert!(delete_with_backend(&fs, "/t/file1.txt").is_ok());
    assert!(!fs.has("/t/file1.txt"));
    assert!(delete_with_backend(&fs, "/t/folder1").is_ok());
    assert!(!fs.has("/t/folder1/nested_file.txt"));
    assert!(!fs.has("/t/folder1"));
}

#[test]
fn test_list_children_empty_directory() {
    let fs = MemFs::new();
    fs.add_dir("/empty");
    let mut context = Context::new(&fs).unwrap();
    context.panels[0].path = "/empty".to_string();
    assert!(list_children(&mut context.panels[0], &fs).is_ok());
    assert_eq!(context.panels[0].items.len(), 1);
    assert_eq!(context.panels[0].items[0], "../");
}

#[test]
fn test_list_children_with_files_and_folders() {
    let fs = setup_test_fs();
    let mut context = Context::new(&fs).unwrap();
    context.panels[0].path = "/t".to_string();
    assert!(list_children(&mut context.panels[0], &fs).is_ok());
    assert_eq!(context.panels[0].items.len(), 5);
    assert!(context.panels[0].items[0] == "../");
    assert!(context.panels[0].items[1].ends_with('/'));
    assert!(context.panels[0].items[2].ends_with('/'));
    assert!(!context.panels[0].items[3].ends_with('/'));
    assert!(!context.panels[0].items[4].ends_with('/'));
    assert!(!context.panels[0].items_dirty);
}

#[test]
fn test_list_children_sorted() {
    let fs = MemFs::new();
    fs.add_file("/s/zebra.txt", "");
    fs.add_file("/s/apple.txt", "");
    fs.add_dir("/s/zoo");
    fs.add_dir("/s/archive");
    let mut context = Context::new(&fs).unwrap();
    context.panels[0].path = "/s".to_string();
    assert!(list_children(&mut context.panels[0], &fs).is_ok());
    assert_eq!(context.panels[0].items, vec!["../", "archive/", "zoo/", "apple.txt", "zebra.txt"]);
}

#[test]
fn test_list_children_sorts_parent_entry_with_directories() {
    let fs = MemFs::new();
    fs.add_dir("/s/-dash");
    fs.add_dir("/s/beta");
    let mut context = Context::new(&fs).unwrap();
    context.panels[0].path = "/s".to_string();
    list_children(&mut context.panels[0], &fs).unwrap();
    assert_eq!(context.panels[0].items, vec!["-dash/", "../", "beta/"]);
}

#[test]
fn test_list_children_invalid_path() {
    let fs = MemFs::new();
    let mut context = Context::new(&fs).unwrap();
    context.panels[0].path = "/nonexistent/path/that/does/not/exist".to_string();
    assert!(list_children(&mut context.panels[0], &fs).is_err());
    assert!(context.panels[0].items.is_empty());
}

#[test]
fn test_list_children_applies_filter() {
    let fs = setup_test_fs();
    let mut context = Context::new(&fs).unwrap();
    context.panels[0].path = "/t".to_string();
    context.panels[0].filter = "FILE1".to_string();
    list_children(&mut context.panels[0], &fs).unwrap();
    assert_eq!(context.panels[0].filtered_items, vec!["../", "file1.txt"]);
}

#[test]
fn test_format_size_bytes() {
    assert_eq!(format_size(0), "0 B");
    assert_eq!(format_size(100), "100 B");
    assert_eq!(format_size(1023), "1023 B");
}

#[test]
fn test_format_size_kilobytes() {
    assert_eq!(format_size(1024), "1.00 KB");
    assert_eq!(format_size(2048), "2.00 KB");
    assert_eq!(format_size(1536), "1.50 KB");
}

#[test]
fn test_format_size_megabytes() {
    assert_eq!(format_size(1024 * 1024), "1.00 MB");
    assert_eq!(format_size(5 * 1024 * 1024), "5.00 MB");
    assert_eq!(format_size(1536 * 1024), "1.50 MB");
}

#[test]
fn test_format_size_gigabytes() {
    assert_eq!(format_size(1024 * 1024 * 1024), "1.00 GB");
    assert_eq!(format_size(3 * 1024 * 1024 * 1024), "3.00 GB");
}

#[test]
fn test_format_size_matches_float_formatting() {
    let samples: [u64; 16] = [
        1025, 1535, 1537, 10_240_000, 1_048_575, 123_456_789, 1_073_741_823, 5_000_000_000,
        9_007_199_254_740_993, 18_446_744_073_709_551_615, 1_610_612_736, 2_147_483_647, 1152, 3456,
        1_179_648, 1_207_959_552,
    ];
    for s in samples {
        let expected = if s >= 1 << 30 {
            format!("{:.2} GB", s as f64 / (1u64 << 30) as f64)
        } else if s >= 1 << 20 {
            format!("{:.2} MB", s as f64 / (1u64 << 20) as f64)
        } else if s >= 1 << 10 {
            format!("{:.2} KB", s as f64 / (1u64 << 10) as f64)
        } else {
            format!("{} B", s)
        };
        assert_eq!(format_size(s), expected, "size {}", s);
    }
}

#[test]
fn test_format_size_exact_ties() {
    assert_eq!(format_size(1152), format!("{:.2} KB", 1.125f64));
    assert_eq!(format_size(1280), "1.25 KB");
}

#[test]
fn test_format_item_details() {
    assert_eq!(format_item_details_from_info(&info(true, 4096, None, false)), "");
    assert_eq!(format_item_details_from_info(&info(false, 2048, None, false)), "2.00 KB");
}

#[test]
fn test_format_file_metadata() {
    let text = format_file_metadata_from_info(&info(false, 100, Some(1000), true), 1030);
    assert_eq!(text, "Type: File\nSize: 100 B\nModified: 30 seconds ago\nPermissions: Read-only");
    let text = format_file_metadata_from_info(&info(true, 0, None, false), 1030);
    assert_eq!(text, "Type: Directory\nSize: \u{2014}\nModified: Unknown\nPermissions: Read/Write");
    let text = format_file_metadata_from_info(&info(false, 0, Some(2000), false), 1000);
    assert!(text.contains("Modified: Unknown"));
    let hours = format_file_metadata_from_info(&info(false, 0, Some(0), false), 7300);
    assert!(hours.contains("Modified: 2 hours ago"));
    let minutes = format_file_metadata_from_info(&info(false, 0, Some(0), false), 125);
    assert!(minutes.contains("Modified: 2 minutes ago"));
    let days = format_file_metadata_from_info(&info(false, 0, Some(0), false), 3 * 86400 + 5);
    assert!(days.contains("Modified: 3 days ago"));
}

#[test]
fn test_generate_preview_text_file() {
    let fs = setup_test_fs();
    let preview = generate_preview_with_backend(&fs, "/t/file1.txt", NOW);
    assert!(preview.contains("Type: File"));
    assert!(preview.contains("=== Preview ==="));
    assert!(preview.ends_with("content1"));
}

#[test]
fn test_generate_preview_directory() {
    let fs = setup_test_fs();
    let preview = generate_preview_with_backend(&fs, "/t", NOW);
    assert!(preview.contains("Type: Directory"));
    assert!(preview.contains("Contents"));
    assert!(preview.contains("  file1.txt\n"));
    assert!(preview.contains("  folder1/\n"));
}

#[test]
fn test_generate_preview_empty_directory() {
    let fs = MemFs::new();
    fs.add_dir("/empty");
    let preview = generate_preview_with_backend(&fs, "/empty", NOW);
    assert!(preview.contains("Type: Directory"));
    assert!(preview.contains("Contents"));
}

#[test]
fn test_generate_preview_nonexistent_file() {
    let fs = MemFs::new();
    let preview = generate_preview_with_backend(&fs, "/nowhere/nonexistent.txt", NOW);
    assert!(preview.contains("Error"));
    assert_eq!(preview, "Error: No such file or directory");
}

#[test]
fn test_directory_preview_lists_twenty_then_counts() {
    let mut entries = Vec::new();
    for i in 0..25 {
        let name = format!("f{:02}", 24 - i);
        entries.push(DirEntry { name: name.clone(), info: FileInfo { name, ..info(false, 1, None, false) } });
    }
    let text = directory_preview("META", &entries);
    assert!(text.starts_with("META\n\n=== Contents ===\n  f00\n  f01\n"));
    assert!(text.contains("  f19\n"));
    assert!(!text.contains("  f20\n"));
    assert!(text.ends_with("  ... and 5 more items\n"));
}

#[test]
fn test_file_preview_binary() {
    assert_eq!(file_preview("M", vec![0xff, 0xfe, 0x00]), "M\n\n[Binary file - cannot preview]");
    assert_eq!(file_preview("M", "h\u{e9}llo".as_bytes().to_vec()), "M\n\n=== Preview ===\nh\u{e9}llo");
}

#[test]
fn test_create_directory_from_input() {
    let (mut context, pool) = create_test_context();
    context.set_ui_state(UiState::CreatePopup);
    context.set_input("newdir".to_string());
    context.panels[0].state = 2;
    assert!(handle_create_directory(&mut context, &pool.fs).is_ok());
    assert!(pool.fs.has("/home/user/newdir"));
    assert_eq!(context.ui_state, UiState::Normal);
    assert_eq!(context.input, "");
    assert_eq!(context.panels[0].state, 0);
}

#[test]
fn test_create_file_refuses_empty_and_existing() {
    let (mut context, pool) = create_test_context();
    context.set_ui_state(UiState::CreateFilePopup);
    assert_eq!(handle_create_file(&mut context, &pool.fs), Err("Filename cannot be empty".to_string()));
    assert_eq!(context.ui_state, UiState::CreateFilePopup);
    context.set_input("file1.txt".to_string());
    assert_eq!(
        handle_create_file(&mut context, &pool.fs),
        Err("Already exists: /home/user/file1.txt".to_string())
    );
    assert_eq!(context.ui_state, UiState::CreateFilePopup);
    context.set_input("new.txt".to_string());
    assert!(handle_create_file(&mut context, &pool.fs).is_ok());
    assert!(pool.fs.has("/home/user/new.txt"));
    assert_eq!(context.input, "");
}

#[test]
fn test_rename_selected_item() {
    let (mut context, pool) = create_test_context();
    assert_eq!(handle_rename(&mut context, &pool.fs), Err("Name cannot be empty".to_string()));
    let idx = context.panels[0].items.iter().position(|i| i == "subdir/").unwrap();
    context.panels[0].state = idx;
    context.set_input("renamed".to_string());
    assert!(handle_rename(&mut context, &pool.fs).is_ok());
    assert!(pool.fs.has("/home/user/renamed"));
    assert!(!pool.fs.has("/home/user/subdir"));
    context.panels[0].state = 99;
    context.set_input("x".to_string());
    assert_eq!(handle_rename(&mut context, &pool.fs), Err("No item selected".to_string()));
}
