use std::cell::RefCell;
use std::collections::BTreeMap;
use vocofo::backend::{BackendRef, DirEntry, FileInfo, FilesystemBackend};
use vocofo::event_handler::Backends;
use vocofo::file_operation::list_children;
use vocofo::keys::{KeyCode, KeyEvent};
use vocofo::context::{ClipboardMode, Context, UiState};
use vocofo::event_handler::command_palette::{
    handle_command_palette_event, palette_actions, refilter_palette,
};
use vocofo::event_handler::main_handler::{handle_main_event, main_action_of, Action};
use vocofo::event_handler::popups::{
    handle_confirm_popup_event, handle_file_popup_event, handle_popup_event, handle_rename_popup_event,
    handle_search_event,
};
use vocofo::event_handler::session::handle_key;
use vocofo::event_handler::settings::handle_settings_event;
use vocofo::event_handler::{Effect, JobKind};
use vocofo::config::PanelLayout;
use vocofo::keys::KeyModifiers;

// ---------------------------------------------------------------------------
// An in-memory filesystem for exercising the library.
// ---------------------------------------------------------------------------

#[derive(Clone)]
struct Node {
    dir: bool,
    data: Vec<u8>,
    mode: Option<u32>,
}

struct MemFs {
    nodes: RefCell<BTreeMap<String, Node>>,
    cwd: String,
}

impl MemFs {
    fn new() -> Self {
        let fs = MemFs { nodes: RefCell::new(BTreeMap::new()), cwd: "/home/user".to_string() };
        fs.add_dir("/home/user");
        fs
    }

    fn normalize(&self, p: &str) -> String {
        let full = if p.starts_with('/') { p.to_string() } else { format!("{}/{}", self.cwd, p) };
        let mut parts: Vec<&str> = Vec::new();
        for c in full.split('/') {
            match c {
                "" | "." => {}
                ".." => {
                    parts.pop();
                }
                other => parts.push(other),
            }
        }
        format!("/{}", parts.join("/"))
    }

    fn parent_of(p: &str) -> String {
        match p.rfind('/') {
            Some(0) | None => "/".to_string(),
            Some(i) => p[..i].to_string(),
        }
    }

    fn add_dir(&self, p: &str) {
        let n = self.normalize(p);
        let mut cur = String::new();
        self.nodes.borrow_mut().insert("/".to_string(), Node { dir: true, data: vec![], mode: Some(0o755) });
        for c in n.split('/').filter(|c| !c.is_empty()) {
            cur = format!("{}/{}", cur, c);
            self.nodes
                .borrow_mut()
                .entry(cur.clone())
                .or_insert(Node { dir: true, data: vec![], mode: Some(0o755) });
        }
    }

    fn add_file(&self, p: &str, data: &str) {
        let n = self.normalize(p);
        self.add_dir(&Self::parent_of(&n));
        self.nodes
            .borrow_mut()
            .insert(n, Node { dir: false, data: data.as_bytes().to_vec(), mode: Some(0o644) });
    }

    fn has(&self, p: &str) -> bool {
        self.nodes.borrow().contains_key(&self.normalize(p))
    }

    fn mode_of(&self, p: &str) -> Option<u32> {
        self.nodes.borrow().get(&self.normalize(p)).and_then(|n| n.mode)
    }

    fn info(name: &str, n: &Node) -> FileInfo {
        FileInfo {
            name: name.to_string(),
            is_dir: n.dir,
            is_file: !n.dir,
            is_symlink: false,
            size: n.data.len() as u64,
            modified: Some(1_700_000_000),
            readonly: false,
            mode: n.mode,
        }
    }

    fn last(p: &str) -> String {
        p.rsplit('/').next().unwrap_or("").to_string()
    }
}

impl FilesystemBackend for MemFs {
    fn list_dir(&self, path: &str) -> Result<Vec<DirEntry>, String> {
        let n = self.normalize(path);
        let nodes = self.nodes.borrow();
        match nodes.get(&n) {
            Some(node) if node.dir => {}
            _ => return Err("No such file or directory".to_string()),
        }
        let mut out = Vec::new();
        for (k, v) in nodes.iter() {
            if k != "/" && Self::parent_of(k) == n {
                let name = Self::last(k);
                out.push(DirEntry { name: name.clone(), info: Self::info(&name, v) });
            }
        }
        Ok(out)
    }

    fn metadata(&self, path: &str) -> Result<FileInfo, String> {
        let n = self.normalize(path);
        match self.nodes.borrow().get(&n) {
            Some(node) => Ok(Self::info(&Self::last(&n), node)),
            None => Err("No such file or directory".to_string()),
        }
    }

    fn path_exists(&self, path: &str) -> Result<bool, String> {
        Ok(self.has(path))
    }

    fn canonicalize(&self, path: &str) -> Result<String, String> {
        let n = self.normalize(path);
        if self.nodes.borrow().contains_key(&n) {
            Ok(n)
        } else {
            Err("No such file or directory".to_string())
        }
    }

    fn read_file(&self, path: &str, max_bytes: usize) -> Result<Vec<u8>, String> {
        match self.nodes.borrow().get(&self.normalize(path)) {
            Some(node) if !node.dir => Ok(node.data.iter().take(max_bytes).cloned().collect()),
            _ => Err("No such file".to_string()),
        }
    }

    fn write_file(&self, path: &str, data: &[u8]) -> Result<(), String> {
        let n = self.normalize(path);
        if !self.has(&Self::parent_of(&n)) {
            return Err("No such directory".to_string());
        }
        self.nodes.borrow_mut().insert(n, Node { dir: false, data: data.to_vec(), mode: Some(0o644) });
        Ok(())
    }

    fn create_dir(&self, path: &str) -> Result<(), String> {
        self.add_dir(path);
        Ok(())
    }

    fn create_file(&self, path: &str) -> Result<(), String> {
        self.write_file(path, &[])
    }

    fn remove_file(&self, path: &str) -> Result<(), String> {
        let n = self.normalize(path);
        let is_file = matches!(self.nodes.borrow().get(&n), Some(node) if !node.dir);
        if !is_file {
            return Err("No such file".to_string());
        }
        self.nodes.borrow_mut().remove(&n);
        Ok(())
    }

    fn remove_dir_all(&self, path: &str) -> Result<(), String> {
        let n = self.normalize(path);
        if !self.has(&n) {
            return Err("No such directory".to_string());
        }
        let prefix = format!("{}/", n);
        self.nodes.borrow_mut().retain(|k, _| k != &n && !k.starts_with(&prefix));
        Ok(())
    }

    fn rename(&self, from: &str, to: &str) -> Result<(), String> {
        let f = self.normalize(from);
        let t = self.normalize(to);
        if !self.has(&f) {
            return Err("No such file or directory".to_string());
        }
        let prefix = format!("{}/", f);
        let moved: Vec<(String, Node)> = self
            .nodes
            .borrow()
            .iter()
            .filter(|(k, _)| **k == f || k.starts_with(&prefix))
            .map(|(k, v)| (format!("{}{}", t, &k[f.len()..]), v.clone()))
            .collect();
        self.nodes.borrow_mut().retain(|k, _| k != &f && !k.starts_with(&prefix));
        for (k, v) in moved {
            self.nodes.borrow_mut().insert(k, v);
        }
        Ok(())
    }

    fn copy_file(&self, from: &str, to: &str) -> Result<(), String> {
        let data = self.read_file(from, usize::MAX)?;
        self.write_file(to, &data)
    }

    fn copy_dir(&self, from: &str, to: &str) -> Result<(), String> {
        let f = self.normalize(from);
        let t = self.normalize(to);
        let prefix = format!("{}/", f);
        let copied: Vec<(String, Node)> = self
            .nodes
            .borrow()
            .iter()
            .filter(|(k, _)| **k == f || k.starts_with(&prefix))
            .map(|(k, v)| (format!("{}{}", t, &k[f.len()..]), v.clone()))
            .collect();
        for (k, v) in copied {
            self.nodes.borrow_mut().insert(k, v);
        }
        Ok(())
    }

    fn chmod(&self, path: &str, mode: u32) -> Result<(), String> {
        let n = self.normalize(path);
        match self.nodes.borrow_mut().get_mut(&n) {
            Some(node) => {
                node.mode = Some(mode);
                Ok(())
            }
            None => Err("No such file or directory".to_string()),
        }
    }

    fn open_file(&self, _path: &str) -> Result<(), String> {
        Ok(())
    }

    fn disconnect(&self) {}

    fn is_connected(&self) -> bool {
        true
    }
}

struct Pool {
    fs: MemFs,
}

impl Backends for Pool {
    type Fs = MemFs;

    fn get(&self, _backend: &BackendRef) -> &MemFs {
        &self.fs
    }
}

const NOW: u64 = 1_700_000_100;

fn key(code: KeyCode) -> KeyEvent {
    KeyEvent::plain(code)
}

fn key_ctrl(c: char) -> KeyEvent {
    KeyEvent::ctrl(KeyCode::Char(c))
}

/// A pool whose filesystem holds file1.txt, file2.txt and subdir/ in the
/// working directory, and a context whose first panel lists it.
fn create_test_context() -> (Context, Pool) {
    let fs = MemFs::new();
    fs.add_file("/home/user/file1.txt", "hello");
    fs.add_file("/home/user/file2.txt", "world");
    fs.add_dir("/home/user/subdir");
    let pool = Pool { fs };
    let mut context = Context::new(&pool.fs).unwrap();
    list_children(&mut context.panels[0], &pool.fs).unwrap();
    (context, pool)
}

#[test]
fn test_key_actions() {
    assert_eq!(main_action_of(key(KeyCode::Char('q'))), Action::Quit);
    assert_eq!(main_action_of(key_ctrl('q')), Action::Quit);
    assert_eq!(main_action_of(key(KeyCode::Char('p'))), Action::Nothing);
    assert_eq!(main_action_of(key_ctrl('p')), Action::NewFolder);
    assert_eq!(main_action_of(key_ctrl('n')), Action::NewFile);
    assert_eq!(
        main_action_of(KeyEvent::new(KeyCode::Char('c'), KeyModifiers { bits: 2 | 1 })),
        Action::Nothing
    );
    assert_eq!(main_action_of(key(KeyCode::F(4))), Action::Nothing);
    assert_eq!(main_action_of(key(KeyCode::Char('j'))), Action::Down);
    assert_eq!(main_action_of(key(KeyCode::Char('G'))), Action::Last);
}

#[test]
fn test_main_navigation_keys() {
    let (mut ctx, pool) = create_test_context();
    assert_eq!(ctx.active().filtered_items.len(), 4);
    handle_main_event(&mut ctx, key(KeyCode::Down), &pool, NOW);
    handle_main_event(&mut ctx, key(KeyCode::Char('j')), &pool, NOW);
    assert_eq!(ctx.active().state, 2);
    handle_main_event(&mut ctx, key(KeyCode::End), &pool, NOW);
    assert_eq!(ctx.active().state, 3);
    handle_main_event(&mut ctx, key(KeyCode::Down), &pool, NOW);
    assert_eq!(ctx.active().state, 3);
    handle_main_event(&mut ctx, key(KeyCode::Char('k')), &pool, NOW);
    assert_eq!(ctx.active().state, 2);
    handle_main_event(&mut ctx, key(KeyCode::Home), &pool, NOW);
    assert_eq!(ctx.active().state, 0);
    handle_main_event(&mut ctx, key(KeyCode::Up), &pool, NOW);
    assert_eq!(ctx.active().state, 0);
    handle_main_event(&mut ctx, key(KeyCode::PageDown), &pool, NOW);
    assert_eq!(ctx.active().state, 3);
    handle_main_event(&mut ctx, key(KeyCode::PageUp), &pool, NOW);
    assert_eq!(ctx.active().state, 0);
}

#[test]
fn test_gg_goes_to_top() {
    let (mut ctx, pool) = create_test_context();
    ctx.panels[0].state = 3;
    handle_main_event(&mut ctx, key(KeyCode::Char('g')), &pool, NOW);
    assert!(ctx.pending_g);
    assert_eq!(ctx.active().state, 3);
    handle_main_event(&mut ctx, key(KeyCode::Char('g')), &pool, NOW);
    assert!(!ctx.pending_g);
    assert_eq!(ctx.active().state, 0);
}

#[test]
fn test_g_then_other_key_acts_normally() {
    let (mut ctx, pool) = create_test_context();
    handle_main_event(&mut ctx, key(KeyCode::Char('g')), &pool, NOW);
    handle_main_event(&mut ctx, key(KeyCode::Char('j')), &pool, NOW);
    assert!(!ctx.pending_g);
    assert_eq!(ctx.active().state, 1);
}

#[test]
fn test_quit_clears_filter_first() {
    let (mut ctx, pool) = create_test_context();
    ctx.panels[0].filter = "file".to_string();
    ctx.panels[0].apply_filter();
    handle_main_event(&mut ctx, key(KeyCode::Char('q')), &pool, NOW);
    assert!(!ctx.exit);
    assert!(ctx.panels[0].filter.is_empty());
    assert_eq!(ctx.panels[0].filtered_items.len(), 4);
    handle_main_event(&mut ctx, key(KeyCode::Esc), &pool, NOW);
    assert!(ctx.exit);
    assert_eq!(ctx.get_exit(), Some(true));
}

#[test]
fn test_enter_opens_directory() {
    let (mut ctx, pool) = create_test_context();
    let idx = ctx.active().items.iter().position(|i| i == "subdir/").unwrap();
    ctx.panels[0].state = idx;
    handle_main_event(&mut ctx, key(KeyCode::Enter), &pool, NOW);
    assert_eq!(ctx.active().path, "/home/user/subdir");
    assert_eq!(ctx.active().state, 0);
    assert!(ctx.active().items_dirty);
    handle_main_event(&mut ctx, key(KeyCode::Backspace), &pool, NOW);
    assert_eq!(ctx.active().path, "/home/user");
}

#[test]
fn test_tab_switches_panel_and_status_clears() {
    let (mut ctx, pool) = create_test_context();
    ctx.set_status_message("old");
    handle_main_event(&mut ctx, key(KeyCode::Tab), &pool, NOW);
    assert_eq!(ctx.active_panel, 1);
    assert!(ctx.get_status_message().is_none());
}

#[test]
fn test_selection_keys() {
    let (mut ctx, pool) = create_test_context();
    handle_main_event(&mut ctx, key_ctrl('a'), &pool, NOW);
    assert_eq!(ctx.active().selected.len(), 3);
    assert_eq!(ctx.get_status_message(), Some(&"3 items selected".to_string()));
    handle_main_event(&mut ctx, key_ctrl('d'), &pool, NOW);
    assert!(ctx.active().selected.is_empty());
    assert_eq!(ctx.get_status_message(), Some(&"Selection cleared".to_string()));
    ctx.panels[0].state = 1;
    handle_main_event(&mut ctx, key(KeyCode::Char(' ')), &pool, NOW);
    assert_eq!(ctx.active().selected, vec!["subdir/".to_string()]);
    handle_main_event(&mut ctx, key(KeyCode::Char(' ')), &pool, NOW);
    assert!(ctx.active().selected.is_empty());
    ctx.panels[0].state = 0;
    handle_main_event(&mut ctx, key(KeyCode::Char(' ')), &pool, NOW);
    assert!(ctx.active().selected.is_empty());
}

#[test]
fn test_toggle_hidden_key() {
    let (mut ctx, pool) = create_test_context();
    handle_main_event(&mut ctx, key(KeyCode::Char('.')), &pool, NOW);
    assert!(ctx.active().show_hidden);
    assert_eq!(ctx.get_status_message(), Some(&"Hidden files shown".to_string()));
    handle_main_event(&mut ctx, key(KeyCode::Char('.')), &pool, NOW);
    assert!(!ctx.active().show_hidden);
    assert_eq!(ctx.get_status_message(), Some(&"Hidden files hidden".to_string()));
}

#[test]
fn test_popup_keys_open_popups() {
    let (mut ctx, pool) = create_test_context();
    handle_main_event(&mut ctx, key(KeyCode::Delete), &pool, NOW);
    assert_eq!(ctx.ui_state, UiState::ConfirmDelete);
    ctx.set_ui_state(UiState::Normal);
    handle_main_event(&mut ctx, key(KeyCode::Char('/')), &pool, NOW);
    assert_eq!(ctx.ui_state, UiState::SearchMode);
    ctx.set_ui_state(UiState::Normal);
    handle_main_event(&mut ctx, key(KeyCode::F(1)), &pool, NOW);
    assert_eq!(ctx.ui_state, UiState::CommandPalette);
    assert_eq!(ctx.command_palette.as_ref().unwrap().filtered_indices.len(), 19);
    ctx.set_ui_state(UiState::Normal);
    handle_main_event(&mut ctx, key(KeyCode::F(2)), &pool, NOW);
    assert_eq!(ctx.ui_state, UiState::SettingsPopup);
    assert_eq!(ctx.settings_state.as_ref().unwrap().path_input, ".");
    ctx.set_ui_state(UiState::Normal);
    handle_main_event(&mut ctx, key(KeyCode::F(3)), &pool, NOW);
    assert!(ctx.show_preview);
}

#[test]
fn test_rename_key_prefills_name() {
    let (mut ctx, pool) = create_test_context();
    ctx.panels[0].state = 1;
    handle_main_event(&mut ctx, key_ctrl('r'), &pool, NOW);
    assert_eq!(ctx.ui_state, UiState::RenamePopup);
    assert_eq!(ctx.input, "subdir");
}

#[test]
fn test_preview_follows_cursor() {
    let (mut ctx, pool) = create_test_context();
    ctx.show_preview = true;
    let idx = ctx.active().items.iter().position(|i| i == "file1.txt").unwrap();
    ctx.panels[0].state = idx - 1;
    handle_main_event(&mut ctx, key(KeyCode::Down), &pool, NOW);
    assert_eq!(ctx.active().preview_last_item, Some("file1.txt".to_string()));
    let preview = ctx.active().get_preview_content().unwrap().clone();
    assert!(preview.starts_with("Type: File\nSize: 5 B\n"));
    assert!(preview.ends_with("=== Preview ===\nhello"));
}

#[test]
fn test_search_mode_filters_and_keeps_cursor() {
    let (mut ctx, _pool) = create_test_context();
    ctx.set_ui_state(UiState::SearchMode);
    handle_search_event(&mut ctx, key(KeyCode::Char('E')));
    handle_search_event(&mut ctx, key(KeyCode::Char('2')));
    assert_eq!(ctx.active().filter, "E2");
    assert_eq!(ctx.active().filtered_items, vec!["../".to_string(), "file2.txt".to_string()]);
    handle_search_event(&mut ctx, key(KeyCode::Down));
    assert_eq!(ctx.active().state, 1);
    handle_search_event(&mut ctx, key(KeyCode::Enter));
    assert_eq!(ctx.ui_state, UiState::Normal);
    assert!(ctx.active().filter.is_empty());
    assert_eq!(ctx.active().filtered_items.len(), 4);
    assert_eq!(ctx.active().get_selected_item(), Some(&"file2.txt".to_string()));
}

#[test]
fn test_search_mode_backspace_and_escape() {
    let (mut ctx, _pool) = create_test_context();
    ctx.set_ui_state(UiState::SearchMode);
    handle_search_event(&mut ctx, key(KeyCode::Char('q')));
    assert_eq!(ctx.active().filtered_items, vec!["../".to_string()]);
    handle_search_event(&mut ctx, key(KeyCode::Backspace));
    assert_eq!(ctx.active().filtered_items.len(), 4);
    handle_search_event(&mut ctx, key(KeyCode::Backspace));
    assert!(ctx.active().filter.is_empty());
    handle_search_event(&mut ctx, key(KeyCode::Char('s')));
    handle_search_event(&mut ctx, key(KeyCode::Esc));
    assert_eq!(ctx.ui_state, UiState::Normal);
    assert_eq!(ctx.active().filtered_items.len(), 4);
}

#[test]
fn test_new_folder_popup_flow() {
    let (mut ctx, pool) = create_test_context();
    ctx.set_ui_state(UiState::CreatePopup);
    handle_popup_event(&mut ctx, key(KeyCode::Char('n')), &pool);
    handle_popup_event(&mut ctx, key(KeyCode::Char('x')), &pool);
    handle_popup_event(&mut ctx, key(KeyCode::Backspace), &pool);
    handle_popup_event(&mut ctx, key(KeyCode::Char('d')), &pool);
    assert_eq!(ctx.input, "nd");
    handle_popup_event(&mut ctx, key(KeyCode::Enter), &pool);
    assert!(pool.fs.has("/home/user/nd"));
    assert_eq!(ctx.ui_state, UiState::Normal);
    assert_eq!(ctx.input, "");
    assert!(ctx.active().items_dirty);
    assert_eq!(ctx.get_status_message(), Some(&"Folder created".to_string()));
}

#[test]
fn test_new_file_popup_error_closes() {
    let (mut ctx, pool) = create_test_context();
    ctx.set_ui_state(UiState::CreateFilePopup);
    ctx.set_input("file1.txt".to_string());
    handle_file_popup_event(&mut ctx, key(KeyCode::Enter), &pool);
    assert_eq!(ctx.ui_state, UiState::Normal);
    assert_eq!(ctx.input, "");
    assert_eq!(
        ctx.get_status_message(),
        Some(&"Create failed: Already exists: /home/user/file1.txt".to_string())
    );
}

#[test]
fn test_rename_popup_flow() {
    let (mut ctx, pool) = create_test_context();
    let idx = ctx.active().items.iter().position(|i| i == "file2.txt").unwrap();
    ctx.panels[0].state = idx;
    ctx.set_ui_state(UiState::RenamePopup);
    ctx.set_input("b.txt".to_string());
    handle_rename_popup_event(&mut ctx, key(KeyCode::Enter), &pool);
    assert!(pool.fs.has("/home/user/b.txt"));
    assert_eq!(ctx.get_status_message(), Some(&"Renamed successfully".to_string()));
    ctx.set_ui_state(UiState::RenamePopup);
    handle_rename_popup_event(&mut ctx, key(KeyCode::Esc), &pool);
    assert_eq!(ctx.ui_state, UiState::Normal);
}

#[test]
fn test_delete_confirmation_starts_job() {
    let (mut ctx, _pool) = create_test_context();
    let idx = ctx.active().items.iter().position(|i| i == "file1.txt").unwrap();
    ctx.panels[0].state = idx;
    ctx.set_ui_state(UiState::ConfirmDelete);
    assert!(!ctx.confirm_popup_size);
    assert!(matches!(handle_confirm_popup_event(&mut ctx, key(KeyCode::Enter)), Effect::Nothing));
    assert_eq!(ctx.ui_state, UiState::Normal);
    ctx.set_ui_state(UiState::ConfirmDelete);
    handle_confirm_popup_event(&mut ctx, key(KeyCode::Left));
    assert!(ctx.confirm_popup_size);
    match handle_confirm_popup_event(&mut ctx, key(KeyCode::Enter)) {
        Effect::Start(job) => {
            assert_eq!(job.description, "Deleting file1.txt...");
            assert!(job.progress.is_none());
            match job.kind {
                JobKind::Delete { path, .. } => assert_eq!(path, "/home/user/file1.txt"),
                _ => panic!("expected a delete job"),
            }
        }
        _ => panic!("expected a job"),
    }
    assert!(!ctx.confirm_popup_size);
}

#[test]
fn test_delete_selection_with_y() {
    let (mut ctx, _pool) = create_test_context();
    ctx.panels[0].select_all();
    ctx.set_ui_state(UiState::ConfirmDelete);
    match handle_confirm_popup_event(&mut ctx, key(KeyCode::Char('y'))) {
        Effect::Start(job) => {
            assert_eq!(job.description, "Deleting 3 items...");
            match job.kind {
                JobKind::DeleteBatch { paths, .. } => assert_eq!(paths.len(), 3),
                _ => panic!("expected a batch delete"),
            }
        }
        _ => panic!("expected a job"),
    }
    assert!(ctx.active().selected.is_empty());
}

#[test]
fn test_delete_refused_while_operation_runs() {
    let (mut ctx, pool) = create_test_context();
    let (_tx, rx) = std::sync::mpsc::channel();
    ctx.start_operation(rx, "Copying x...".to_string());
    assert!(ctx.is_operation_running());
    ctx.set_ui_state(UiState::ConfirmDelete);
    assert!(matches!(handle_key(&mut ctx, key(KeyCode::Char('y')), &pool, NOW), Effect::Nothing));
    assert_eq!(ctx.get_status_message(), Some(&"Operation already in progress".to_string()));
}

#[test]
fn test_command_palette_filters_and_runs() {
    let (mut ctx, pool) = create_test_context();
    handle_main_event(&mut ctx, key(KeyCode::F(1)), &pool, NOW);
    for c in "HIDDEN".chars() {
        handle_command_palette_event(&mut ctx, key(KeyCode::Char(c)), &pool);
    }
    let state = ctx.command_palette.as_ref().unwrap();
    assert_eq!(state.filtered_indices, vec![11]);
    handle_command_palette_event(&mut ctx, key(KeyCode::Enter), &pool);
    assert!(ctx.command_palette.is_none());
    assert_eq!(ctx.ui_state, UiState::Normal);
    assert!(ctx.active().show_hidden);
}

#[test]
fn test_command_palette_navigation_and_escape() {
    let (mut ctx, pool) = create_test_context();
    handle_main_event(&mut ctx, key(KeyCode::F(1)), &pool, NOW);
    handle_command_palette_event(&mut ctx, key(KeyCode::Up), &pool);
    assert_eq!(ctx.command_palette.as_ref().unwrap().selected, 0);
    handle_command_palette_event(&mut ctx, key(KeyCode::Down), &pool);
    handle_command_palette_event(&mut ctx, key(KeyCode::Down), &pool);
    assert_eq!(ctx.command_palette.as_ref().unwrap().selected, 2);
    handle_command_palette_event(&mut ctx, key(KeyCode::Esc), &pool);
    assert!(ctx.command_palette.is_none());
    assert_eq!(ctx.ui_state, UiState::Normal);
}

#[test]
fn test_command_palette_quit_exits_even_with_filter() {
    let (mut ctx, pool) = create_test_context();
    ctx.panels[0].filter = "f".to_string();
    handle_main_event(&mut ctx, key(KeyCode::F(1)), &pool, NOW);
    for c in "quit".chars() {
        handle_command_palette_event(&mut ctx, key(KeyCode::Char(c)), &pool);
    }
    handle_command_palette_event(&mut ctx, key(KeyCode::Enter), &pool);
    assert!(ctx.exit);
}

#[test]
fn test_refilter_palette_keeps_highlight_in_list() {
    let mut state = vocofo::context::CommandPaletteState::new(19);
    state.selected = 10;
    state.filter = "co".to_string();
    refilter_palette(&mut state);
    assert_eq!(state.filtered_indices, vec![2, 8, 9]);
    assert_eq!(state.selected, 2);
    state.filter = String::new();
    refilter_palette(&mut state);
    assert_eq!(state.filtered_indices.len(), 19);
}

#[test]
fn test_palette_table() {
    let actions = palette_actions();
    assert_eq!(actions.len(), 19);
    assert_eq!(actions[0].id, "delete");
    assert_eq!(actions[5].label, "Change Permissions");
    assert_eq!(actions[8].shortcut, "F5");
    assert_eq!(actions[18].section, "App");
}

#[test]
fn test_settings_popup_keys() {
    let (mut ctx, pool) = create_test_context();
    handle_main_event(&mut ctx, key(KeyCode::F(2)), &pool, NOW);
    handle_settings_event(&mut ctx, key(KeyCode::Right));
    assert_eq!(ctx.config.general.panel_layout, PanelLayout::Horizontal);
    handle_settings_event(&mut ctx, key(KeyCode::Left));
    assert_eq!(ctx.config.general.panel_layout, PanelLayout::Auto);
    handle_settings_event(&mut ctx, key(KeyCode::Down));
    handle_settings_event(&mut ctx, key(KeyCode::Char(' ')));
    assert!(ctx.config.general.show_hidden);
    assert!(ctx.panels[0].show_hidden && ctx.panels[1].show_hidden);
    assert!(ctx.panels[0].items_dirty && ctx.panels[1].items_dirty);
    handle_settings_event(&mut ctx, key(KeyCode::Char('j')));
    handle_settings_event(&mut ctx, key(KeyCode::Enter));
    assert!(ctx.config.general.show_preview_on_start);
    handle_settings_event(&mut ctx, key(KeyCode::Down));
    handle_settings_event(&mut ctx, key(KeyCode::Down));
    assert_eq!(ctx.settings_state.as_ref().unwrap().focused_field, 3);
    handle_settings_event(&mut ctx, key(KeyCode::Char(' ')));
    assert!(!ctx.settings_state.as_ref().unwrap().editing_path);
    handle_settings_event(&mut ctx, key(KeyCode::Enter));
    assert!(ctx.settings_state.as_ref().unwrap().editing_path);
    handle_settings_event(&mut ctx, key(KeyCode::Backspace));
    handle_settings_event(&mut ctx, key(KeyCode::Char('/')));
    handle_settings_event(&mut ctx, key(KeyCode::Char('x')));
    handle_settings_event(&mut ctx, key(KeyCode::Enter));
    assert_eq!(ctx.config.general.default_path, "/x");
    assert!(matches!(handle_settings_event(&mut ctx, key(KeyCode::Esc)), Effect::SaveConfig));
    assert!(ctx.settings_state.is_none());
    assert_eq!(ctx.ui_state, UiState::Normal);
    assert_eq!(ctx.get_status_message(), Some(&"Settings saved".to_string()));
}

#[test]
fn test_settings_escape_while_editing_restores_path() {
    let (mut ctx, pool) = create_test_context();
    handle_main_event(&mut ctx, key(KeyCode::F(2)), &pool, NOW);
    ctx.settings_state.as_mut().unwrap().focused_field = 3;
    handle_settings_event(&mut ctx, key(KeyCode::Enter));
    handle_settings_event(&mut ctx, key(KeyCode::Char('z')));
    assert_eq!(ctx.settings_state.as_ref().unwrap().path_input, ".z");
    handle_settings_event(&mut ctx, key(KeyCode::Esc));
    assert_eq!(ctx.settings_state.as_ref().unwrap().path_input, ".");
    assert_eq!(ctx.config.general.default_path, ".");
}

#[test]
fn test_handle_key_dispatches_by_screen() {
    let (mut ctx, pool) = create_test_context();
    ctx.set_ui_state(UiState::SearchMode);
    handle_key(&mut ctx, key(KeyCode::Char('s')), &pool, NOW);
    assert_eq!(ctx.active().filter, "s");
    ctx.set_ui_state(UiState::Normal);
    handle_key(&mut ctx, key_ctrl('c'), &pool, NOW);
    assert_eq!(ctx.clipboard_mode, ClipboardMode::Copy);
    handle_key(&mut ctx, key_ctrl('x'), &pool, NOW);
    assert_eq!(ctx.clipboard_mode, ClipboardMode::Cut);
}
