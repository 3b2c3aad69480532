//! The actions a key press or a command of the palette triggers, each with
//! what it does to the state.
use vstd::prelude::*;

use crate::backend::{BackendKind, BackendRef, FileInfo, FilesystemBackend};
use crate::context::{
    parent_entry, ClipboardMode, CommandPaletteState, ConnectDialogState, Context, PanelState,
    SettingsState, UiState,
};
use crate::text::{concat, decimal, decimal_string, octal, octal_string, owned, trim_end, trim_end_char};
use crate::event_handler::Backends;

verus! {

/// Index of the panel that is not active.
pub open spec fn other_index(c: Context) -> int {
    1 - c.active_panel
}

/// The state differs from `c` at most in the active panel, which is `p`.
pub open spec fn active_panel_is(c: Context, n: Context, p: PanelState) -> bool {
    &&& n.active_panel == c.active_panel
    &&& n.panels[other_index(c)] == c.panels[other_index(c)]
    &&& n.spec_active() == p
}

/// The status line shows `m`.
pub open spec fn status_is(n: Context, m: Seq<char>) -> bool {
    n.status_message matches Some(s) && s@ == m
}

pub open spec fn post_move_down(c: Context, n: Context) -> bool {
    let p = c.spec_active();
    &&& active_panel_is(
        c,
        n,
        if p.filtered_items.len() > p.state + 1 {
            PanelState { state: (p.state + 1) as usize, ..p }
        } else {
            p
        },
    )
    &&& n == Context { panels: n.panels, ..c }
}

pub open spec fn post_move_up(c: Context, n: Context) -> bool {
    let p = c.spec_active();
    &&& active_panel_is(
        c,
        n,
        if p.state > 0 {
            PanelState { state: (p.state - 1) as usize, ..p }
        } else {
            p
        },
    )
    &&& n == Context { panels: n.panels, ..c }
}

pub open spec fn post_toggle_hidden(c: Context, n: Context) -> bool {
    let p = c.spec_active();
    let shown = !p.show_hidden;
    &&& active_panel_is(c, n, PanelState { show_hidden: shown, items_dirty: true, ..p })
    &&& status_is(n, "Hidden files "@ + if shown { "shown"@ } else { "hidden"@ })
    &&& n == Context { panels: n.panels, status_message: n.status_message, ..c }
}

pub open spec fn post_sync_panels(c: Context, n: Context) -> bool {
    let p = c.spec_active();
    let o = c.panels[other_index(c)];
    &&& n.active_panel == c.active_panel
    &&& n.spec_active() == p
    &&& n.panels[other_index(c)].filter@.len() == 0
    &&& n.panels[other_index(c)].filtered_items@ == o.items@
    &&& n.panels[other_index(c)] == PanelState {
        path: p.path,
        backend: p.backend,
        items_dirty: true,
        filter: n.panels[other_index(c)].filter,
        filtered_items: n.panels[other_index(c)].filtered_items,
        state: 0,
        ..o
    }
    &&& status_is(n, "Panels synced"@)
    &&& n == Context { panels: n.panels, status_message: n.status_message, ..c }
}

pub open spec fn post_select_all(c: Context, n: Context) -> bool {
    let p = c.spec_active();
    let q = n.spec_active();
    &&& active_panel_is(c, n, PanelState { selected: q.selected, ..p })
    &&& q.wf()
    &&& q.selection() == p.selection().union(p.filtered_items.deep_view().to_set().remove(parent_entry()))
    &&& status_is(n, decimal(q.selected.len() as nat) + " items selected"@)
    &&& n == Context { panels: n.panels, status_message: n.status_message, ..c }
}

pub open spec fn post_deselect(c: Context, n: Context) -> bool {
    let p = c.spec_active();
    let q = n.spec_active();
    &&& active_panel_is(c, n, PanelState { selected: q.selected, ..p })
    &&& q.selected@.len() == 0
    &&& status_is(n, "Selection cleared"@)
    &&& n == Context { panels: n.panels, status_message: n.status_message, ..c }
}

pub open spec fn post_toggle_selection(c: Context, n: Context) -> bool {
    &&& active_panel_is(c, n, n.spec_active())
    &&& PanelState::post_toggle(c.spec_active(), n.spec_active())
    &&& n == Context { panels: n.panels, ..c }
}

/// Rename starts on the item under the cursor, other than the parent entry,
/// with its name (trailing '/' removed) as the input.
pub open spec fn post_begin_rename(c: Context, n: Context) -> bool {
    match c.spec_active().spec_selected_item() {
        Some(item) => if item == parent_entry() {
            n == c
        } else {
            n.input@ == trim_end(item, '/') && n == Context {
                input: n.input,
                ui_state: UiState::RenamePopup,
                ..c
            }
        },
        None => n == c,
    }
}

/// The mode text the permissions popup starts with: the permission bits in
/// octal, or "644" when the backend gives no mode.
pub open spec fn mode_text(mode: Option<u32>) -> Seq<char> {
    match mode {
        Some(m) => octal((m & 0o7777u32) as nat),
        None => "644"@,
    }
}

/// Changing permissions starts on the item under the cursor, other than the
/// parent entry, with its current mode as the input; when the backend
/// cannot give its metadata the error is shown instead.
pub open spec fn post_begin_chmod(c: Context, n: Context) -> bool {
    match c.spec_active().spec_selected_item() {
        Some(item) => if item == parent_entry() {
            n == c
        } else {
            exists|meta: Result<Option<u32>, Seq<char>>| #[trigger] post_chmod_start(c, n, meta)
        },
        None => n == c,
    }
}

/// What starting a permission change does with the backend's metadata
/// answer (the item's mode, where it has one): the popup opens with the
/// current mode as input (`mode_text`); an error is reported as "Cannot read
/// permissions: <error>".
pub open spec fn post_chmod_start(c: Context, n: Context, meta: Result<Option<u32>, Seq<char>>) -> bool {
    match meta {
        Ok(mode) => n.input@ == mode_text(mode) && n == Context {
            input: n.input,
            ui_state: UiState::ChmodPopup,
            ..c
        },
        Err(e) => status_is(n, "Cannot read permissions: "@ + e) && n == Context {
            status_message: n.status_message,
            ..c
        },
    }
}

/// A metadata answer reduced to the mode it reports.
pub open spec fn mode_answer(o: Result<FileInfo, String>) -> Result<Option<u32>, Seq<char>> {
    match o {
        Ok(i) => Ok(i.mode),
        Err(e) => Err(e@),
    }
}

pub open spec fn post_open_command_palette(c: Context, n: Context, count: usize) -> bool {
    &&& n.command_palette matches Some(s) && s.filter@.len() == 0 && s.filtered_indices@ == Seq::new(
        count as nat,
        |i: int| i as usize,
    ) && s.selected == 0
    &&& n == Context {
        command_palette: n.command_palette,
        ui_state: UiState::CommandPalette,
        ..c
    }
}

pub open spec fn post_open_settings(c: Context, n: Context) -> bool {
    &&& n.settings_state matches Some(s) && s.focused_field == 0 && !s.editing_path && s.path_input@
        == c.config.general.default_path@
    &&& n == Context { settings_state: n.settings_state, ui_state: UiState::SettingsPopup, ..c }
}

pub open spec fn post_open_connect_dialog(c: Context, n: Context) -> bool {
    &&& n.connect_dialog matches Some(d) && d.protocol == crate::backend::ConnectionProtocol::Sftp
        && d.host@.len() == 0 && d.port@ == "22"@ && d.username@.len() == 0 && d.password@.len() == 0
        && d.key_path@.len() == 0 && d.focused_field == 1 && d.error_message is None
    &&& n == Context { connect_dialog: n.connect_dialog, ui_state: UiState::ConnectDialog, ..c }
}

pub open spec fn post_open_bookmarks(c: Context, n: Context) -> bool {
    if c.config.connections@.len() == 0 {
        status_is(n, "No saved bookmarks"@) && n == Context { status_message: n.status_message, ..c }
    } else {
        n == Context { bookmark_selected: 0, ui_state: UiState::BookmarkList, ..c }
    }
}

/// Disconnecting a remote active panel closes its connection and puts the
/// panel back on the local filesystem (identity 0), in the directory that
/// "." resolves to there ("." itself when that fails).
pub open spec fn post_disconnect(c: Context, n: Context) -> bool {
    let p = c.spec_active();
    if p.backend.kind == BackendKind::Local {
        n == c
    } else {
        let q = n.spec_active();
        &&& q.backend.id == c.next_backend_id && q.backend.kind == BackendKind::Local && q.backend.display@
            == "Local"@ && q.backend.params is None
        &&& active_panel_is(c, n, PanelState { backend: q.backend, path: q.path, items_dirty: true, ..p })
        &&& exists|home: Result<Seq<char>, Seq<char>>| q.path@ == #[trigger] home_or_dot(home)
        &&& status_is(n, "Disconnected"@)
        &&& n == Context {
            panels: n.panels,
            status_message: n.status_message,
            next_backend_id: if c.next_backend_id < u64::MAX {
                (c.next_backend_id + 1) as u64
            } else {
                c.next_backend_id
            },
            ..c
        }
    }
}

/// The directory a disconnected panel shows: the local filesystem's
/// canonical form of ".", or "." where that fails.
pub open spec fn home_or_dot(home: Result<Seq<char>, Seq<char>>) -> Seq<char> {
    match home {
        Ok(h) => h,
        Err(_) => "."@,
    }
}

/// The directory a disconnected panel shows, from the local filesystem's
/// answer for "." (`home_or_dot`).
pub fn home_dir(answer: Result<String, String>) -> (r: String)
    ensures
        r@ == home_or_dot(crate::context::text_result(answer)),
{
    match answer {
        Ok(h) => h,
        Err(_) => {
            let r = owned(".");
            proof {
                reveal_strlit(".");
            }
            r
        },
    }
}

/// Opening the item under the cursor (entering a directory or editing a
/// file) clears the filter and marks the listing stale; a failure shows its
/// message.
pub open spec fn post_open_selected(c: Context, n: Context) -> bool {
    let p = c.spec_active();
    let q = n.spec_active();
    &&& active_panel_is(
        c,
        n,
        PanelState {
            path: q.path,
            filter: q.filter,
            filtered_items: q.filtered_items,
            state: 0,
            items_dirty: true,
            ..p
        },
    )
    &&& q.filter@.len() == 0
    &&& q.filtered_items@ == p.items@
    &&& n == Context { panels: n.panels, status_message: n.status_message, ..c }
    &&& (p.spec_selected_item() is None ==> q.path == p.path && n.status_message == c.status_message)
    &&& exists|mid: PanelState, info: Option<FileInfo>, dir: Result<Seq<char>, Seq<char>>, file: Result<(), Seq<char>>, r: Option<String>|
        #[trigger] PanelState::post_open(p, mid, info, dir, file, r) && q.path == mid.path && reported(c, n, r)
}

/// The status after an action that may fail with message `r`: the message
/// when there is one, the status as it was otherwise.
pub open spec fn reported(c: Context, n: Context, r: Option<String>) -> bool {
    match r {
        Some(m) => status_is(n, m@),
        None => n.status_message == c.status_message,
    }
}

/// Going to the parent directory clears the filter; a failure shows its message.
pub open spec fn post_go_to_parent(c: Context, n: Context) -> bool {
    let p = c.spec_active();
    let q = n.spec_active();
    &&& active_panel_is(
        c,
        n,
        PanelState {
            path: q.path,
            filter: q.filter,
            filtered_items: q.filtered_items,
            state: 0,
            items_dirty: q.items_dirty,
            ..p
        },
    )
    &&& q.filter@.len() == 0
    &&& q.filtered_items@ == p.items@
    &&& (q.items_dirty == p.items_dirty || q.items_dirty)
    &&& n == Context { panels: n.panels, status_message: n.status_message, ..c }
    &&& exists|mid: PanelState, o: Result<Seq<char>, Seq<char>>, r: Option<String>|
        #[trigger] PanelState::post_parent(p, mid, o, r) && q.path == mid.path && q.items_dirty == mid.items_dirty
            && reported(c, n, r)
}

/// "q" or Esc in the panels: a filter is cleared first; without one the application exits.
pub open spec fn post_quit(c: Context, n: Context) -> bool {
    let p = c.spec_active();
    if p.filter@.len() > 0 {
        let q = n.spec_active();
        &&& active_panel_is(c, n, PanelState { filter: q.filter, filtered_items: q.filtered_items, state: 0, ..p })
        &&& q.filter@.len() == 0
        &&& q.filtered_items@ == p.items@
        &&& n == Context { panels: n.panels, ..c }
    } else {
        n == Context { exit: true, ..c }
    }
}

impl Context {
    pub fn move_down(&mut self)
        requires
            old(self).active_panel < 2,
        ensures
            post_move_down(*old(self), *final(self)),
    {
        let a = self.active_panel;
        let len = self.panels[a].filtered_items.len();
        if len > 0 && self.panels[a].state < len - 1 {
            self.panels[a].increment_state();
        }
    }

    pub fn move_up(&mut self)
        requires
            old(self).active_panel < 2,
        ensures
            post_move_up(*old(self), *final(self)),
    {
        let a = self.active_panel;
        if self.panels[a].state > 0 {
            self.panels[a].decrease_state();
        }
    }

    /// Shows or hides dot files in the active panel.
    pub fn toggle_hidden(&mut self)
        requires
            old(self).active_panel < 2,
        ensures
            post_toggle_hidden(*old(self), *final(self)),
    {
        let a = self.active_panel;
        self.panels[a].show_hidden = !self.panels[a].show_hidden;
        self.panels[a].invalidate_directory_cache();
        let state = if self.panels[a].show_hidden {
            "shown"
        } else {
            "hidden"
        };
        let m = concat("Hidden files ", state);
        self.set_status_message(m.as_str());
    }

    /// The other panel shows the active panel's directory on the same backend.
    pub fn sync_panels(&mut self)
        requires
            old(self).active_panel < 2,
        ensures
            post_sync_panels(*old(self), *final(self)),
    {
        let a = self.active_panel;
        let other = 1 - a;
        let path = self.panels[a].path.clone();
        let backend = self.panels[a].backend.clone();
        self.panels[other].path = path;
        self.panels[other].backend = backend;
        self.panels[other].invalidate_directory_cache();
        self.panels[other].clear_filter();
        self.set_status_message("Panels synced");
    }

    /// Selects every visible item of the active panel and reports the count.
    pub fn select_all_items(&mut self)
        requires
            old(self).active_panel < 2,
            old(self).spec_active().wf(),
        ensures
            post_select_all(*old(self), *final(self)),
    {
        let a = self.active_panel;
        self.panels[a].select_all();
        let count = self.panels[a].selected.len();
        let m = concat(decimal_string(count as u64).as_str(), " items selected");
        self.set_status_message(m.as_str());
    }

    /// Empties the active panel's selection.
    pub fn deselect_all(&mut self)
        requires
            old(self).active_panel < 2,
        ensures
            post_deselect(*old(self), *final(self)),
    {
        let a = self.active_panel;
        self.panels[a].clear_selection();
        self.set_status_message("Selection cleared");
    }

    /// Selects or deselects the item under the active panel's cursor.
    pub fn toggle_active_selection(&mut self)
        requires
            old(self).active_panel < 2,
            old(self).spec_active().wf(),
        ensures
            post_toggle_selection(*old(self), *final(self)),
    {
        let a = self.active_panel;
        self.panels[a].toggle_selection();
    }

    /// Opens the rename popup for the item under the cursor.
    pub fn begin_rename(&mut self)
        requires
            old(self).active_panel < 2,
        ensures
            post_begin_rename(*old(self), *final(self)),
    {
        let item = match self.active().get_selected_item() {
            Some(item) => item.clone(),
            None => return,
        };
        if crate::context::is_parent_entry(item.as_str()) {
            return;
        }
        let name = trim_end_char(item.as_str(), '/');
        self.set_input(name);
        self.set_ui_state(UiState::RenamePopup);
    }

    /// Opens the permissions popup for the item under the cursor.
    pub fn begin_chmod<B: FilesystemBackend>(&mut self, fs: &B)
        requires
            old(self).active_panel < 2,
        ensures
            post_begin_chmod(*old(self), *final(self)),
            old(self).spec_active().spec_selected_item() is Some && old(self).spec_active().spec_selected_item()->0
                != parent_entry() ==> exists|o: Result<FileInfo, String>|
                #[trigger] fs.metadata_answer(
                    old(self).spec_active().item_path(old(self).spec_active().spec_selected_item()->0),
                    crate::file_operation::info_result(o),
                ) && post_chmod_start(*old(self), *final(self), mode_answer(o)),
    {
        let path = match self.active().get_selected_item() {
            Some(item) => {
                if crate::context::is_parent_entry(item.as_str()) {
                    return;
                }
                match self.active().selected_item_path() {
                    Some(p) => p,
                    None => return,
                }
            },
            None => return,
        };
        let meta = fs.metadata(path.as_str());
        let ghost mv = mode_answer(meta);
        let ghost mo = meta;
        assert(fs.metadata_answer(path@, crate::file_operation::info_result(mo)));
        self.chmod_start(meta);
        assert(post_chmod_start(*old(self), *self, mv));
    }

    /// Takes the backend's metadata answer for the item whose permissions
    /// are to change (`post_chmod_start`).
    pub fn chmod_start(&mut self, meta: Result<FileInfo, String>)
        ensures
            post_chmod_start(*old(self), *final(self), mode_answer(meta)),
    {
        match meta {
            Ok(info) => {
                let current_mode = match info.mode {
                    Some(m) => octal_string((m & 0o7777u32) as u64),
                    None => owned("644"),
                };
                assert(current_mode@ == mode_text(info.mode));
                self.set_input(current_mode);
                self.set_ui_state(UiState::ChmodPopup);
            },
            Err(e) => {
                let m = concat("Cannot read permissions: ", e.as_str());
                self.set_status_message(m.as_str());
            },
        }
    }

    /// Opens the command palette with all `count` actions listed.
    pub fn open_command_palette(&mut self, count: usize)
        ensures
            post_open_command_palette(*old(self), *final(self), count),
    {
        self.command_palette = Some(CommandPaletteState::new(count));
        self.set_ui_state(UiState::CommandPalette);
    }

    /// Opens the settings popup.
    pub fn open_settings(&mut self)
        ensures
            post_open_settings(*old(self), *final(self)),
    {
        let s = SettingsState::new(self.config.general.default_path.as_str());
        self.settings_state = Some(s);
        self.set_ui_state(UiState::SettingsPopup);
    }

    /// Opens an empty connection dialog.
    pub fn open_connect_dialog(&mut self)
        ensures
            post_open_connect_dialog(*old(self), *final(self)),
    {
        self.connect_dialog = Some(ConnectDialogState::new());
        self.set_ui_state(UiState::ConnectDialog);
    }

    /// Opens the bookmark list, or says that there is none.
    pub fn open_bookmarks(&mut self)
        ensures
            post_open_bookmarks(*old(self), *final(self)),
    {
        if self.config.connections.len() == 0 {
            self.set_status_message("No saved bookmarks");
        } else {
            self.bookmark_selected = 0;
            self.set_ui_state(UiState::BookmarkList);
        }
    }

    pub fn toggle_preview(&mut self)
        ensures
            *final(self) == (Context { show_preview: !old(self).show_preview, ..*old(self) }),
    {
        self.show_preview = !self.show_preview;
    }

    /// Disconnects a remote active panel and puts it back on the local filesystem.
    pub fn disconnect_active<P: Backends>(&mut self, pool: &P)
        requires
            old(self).active_panel < 2,
        ensures
            post_disconnect(*old(self), *final(self)),
            old(self).spec_active().backend.kind != BackendKind::Local ==> exists|
                fs: P::Fs,
                home: Result<Seq<char>, Seq<char>>,
            |
                #![trigger pool.gives(final(self).spec_active().backend, fs), fs.canonical_answer("."@, home)]
                pool.gives(final(self).spec_active().backend, fs) && fs.canonical_answer("."@, home)
                    && final(self).spec_active().path@ == home_or_dot(home),
            old(self).spec_active().backend.kind != BackendKind::Local ==> exists|fs: P::Fs|
                #[trigger] pool.gives(old(self).spec_active().backend, fs) && fs.disconnect_done(),
    {
        let a = self.active_panel;
        if self.panels[a].backend.is_local() {
            return;
        }
        let remote = pool.get(&self.panels[a].backend);
        remote.disconnect();
        assert(pool.gives(old(self).spec_active().backend, *remote));
        let id = self.allocate_backend_id();
        let local_backend = BackendRef::local(id);
        let local = pool.get(&local_backend);
        let answer = local.canonicalize(".");
        let ghost hv = crate::context::text_result(answer);
        assert(local.canonical_answer("."@, hv));
        assert(pool.gives(local_backend, *local));
        let home = home_dir(answer);
        assert(home@ == home_or_dot(hv));
        self.panels[a].backend = local_backend;
        self.panels[a].path = home;
        self.panels[a].invalidate_directory_cache();
        self.set_status_message("Disconnected");
    }

    /// Opens the item under the active panel's cursor (Enter).
    pub fn open_selected<B: FilesystemBackend>(&mut self, fs: &B)
        requires
            old(self).active_panel < 2,
        ensures
            post_open_selected(*old(self), *final(self)),
            old(self).spec_active().spec_selected_item() is Some ==> exists|
                o: Result<FileInfo, String>,
                mid: PanelState,
                r: Option<String>,
            |
                #![trigger PanelState::opened_with(*fs, old(self).spec_active(), mid, crate::context::metadata_of(o), r)]
                fs.metadata_answer(
                    old(self).spec_active().item_path(old(self).spec_active().spec_selected_item()->0),
                    crate::file_operation::info_result(o),
                ) && PanelState::opened_with(*fs, old(self).spec_active(), mid, crate::context::metadata_of(o), r)
                    && final(self).spec_active().path == mid.path && reported(*old(self), *final(self), r),
    {
        let a = self.active_panel;
        let r = self.panels[a].open_item(fs);
        let ghost mid = self.panels[a as int];
        match &r {
            Some(err) => self.set_status_message(err.as_str()),
            None => {},
        }
        self.panels[a].clear_filter();
        self.panels[a].invalidate_directory_cache();
        proof {
            let (info, dir, file) = choose|info: Option<FileInfo>, dir: Result<Seq<char>, Seq<char>>, file: Result<(), Seq<char>>|
                #[trigger] PanelState::post_open(old(self).spec_active(), mid, info, dir, file, r);
            assert(PanelState::post_open(old(self).spec_active(), mid, info, dir, file, r) && self.spec_active().path == mid.path
                && reported(*old(self), *self, r));
            if old(self).spec_active().spec_selected_item() is Some {
                let p = old(self).spec_active();
                let o = choose|o: Result<FileInfo, String>|
                    #[trigger] fs.metadata_answer(p.item_path(p.spec_selected_item()->0), crate::file_operation::info_result(o))
                        && PanelState::opened_with(*fs, p, mid, crate::context::metadata_of(o), r);
                assert(PanelState::opened_with(*fs, p, mid, crate::context::metadata_of(o), r));
            }
        }
    }

    /// Goes to the parent of the active panel's directory (Backspace).
    pub fn go_to_parent<B: FilesystemBackend>(&mut self, fs: &B)
        requires
            old(self).active_panel < 2,
        ensures
            post_go_to_parent(*old(self), *final(self)),
            exists|mid: PanelState, o: Result<Seq<char>, Seq<char>>, r: Option<String>|
                #![trigger PanelState::post_parent(old(self).spec_active(), mid, o, r)]
                fs.canonical_answer(old(self).spec_active().backend.spec_join(old(self).spec_active().path@, "../"@), o)
                    && PanelState::post_parent(old(self).spec_active(), mid, o, r) && final(self).spec_active().path
                    == mid.path && final(self).spec_active().items_dirty == mid.items_dirty && reported(
                    *old(self),
                    *final(self),
                    r,
                ),
    {
        let a = self.active_panel;
        let r = self.panels[a].navigate_to_parent(fs);
        let ghost mid = self.panels[a as int];
        match &r {
            Some(err) => self.set_status_message(err.as_str()),
            None => {},
        }
        self.panels[a].clear_filter();
        proof {
            let p = old(self).spec_active();
            let o = choose|o: Result<Seq<char>, Seq<char>>|
                #[trigger] fs.canonical_answer(p.backend.spec_join(p.path@, "../"@), o) && PanelState::post_parent(p, mid, o, r);
            assert(PanelState::post_parent(old(self).spec_active(), mid, o, r) && self.spec_active().path == mid.path
                && self.spec_active().items_dirty == mid.items_dirty && reported(*old(self), *self, r));
        }
    }

    /// "q" or Esc: clears the active filter, or exits when there is none.
    pub fn quit_or_clear_filter(&mut self)
        requires
            old(self).active_panel < 2,
        ensures
            post_quit(*old(self), *final(self)),
    {
        let a = self.active_panel;
        if !self.panels[a].filter.as_str().is_empty() {
            self.panels[a].clear_filter();
            return;
        }
        self.set_exit();
    }
}

} // verus!
