//! The running application around the screens: which handler a key goes
//! to, what a finished background operation changes, and what happens to a
//! connection that was lost.
use vstd::prelude::*;

use crate::backend::{BackendRef, ConnectionParams, DirEntryView, FilesystemBackend};
use crate::background_op::FileOpResult;
use crate::context::{visible_items, Context, PanelState, UiState};
use crate::event_handler::actions::status_is;
use crate::event_handler::command_palette::{handle_command_palette_event, palette_ready, post_palette_event};
use crate::event_handler::connect::{
    handle_bookmark_list_event, handle_bookmark_name_event, handle_connect_dialog_event,
    post_bookmark_list, post_bookmark_name, post_connect_dialog, Connected,
};
use crate::event_handler::main_handler::{
    action_fits, action_ready, handle_main_event, main_action, main_action_of, main_event_answered, palette_count,
    post_main_event, Action,
};
use crate::event_handler::popups::{
    handle_chmod_popup_event, handle_confirm_popup_event, handle_file_popup_event,
    handle_overwrite_popup_event, handle_popup_event, handle_rename_popup_event,
    handle_search_event, post_cancel_paste, post_chmod_popup, post_confirm, post_input_popup,
    post_keep, post_search, InputPopup, chmod_answered, pool_popup_answered,
};
use crate::event_handler::clipboard::{pending_paste_answered, post_delete, post_pending_paste};
use crate::event_handler::settings::{handle_settings_event, post_settings};
use crate::event_handler::{Backends, Effect};
use crate::file_operation::{list_children, listing_items};
use crate::keys::{KeyCode, KeyEvent};
use crate::text::{concat, owned, trim_end_matches_str, trim_end_pat};

verus! {

/// What every screen's handler needs of the state.
pub open spec fn ready(c: Context) -> bool {
    &&& action_ready(c)
    &&& palette_ready(c)
}

/// What the handler of the shown screen needs for this key: room for a
/// page-down move on the panels, room to move the focus on with Tab in the
/// connection dialog.
pub open spec fn key_ready(c: Context, key: KeyEvent) -> bool {
    &&& c.ui_state == UiState::Normal ==> action_fits(c, main_action(key))
    &&& c.ui_state == UiState::ConnectDialog && key.code == KeyCode::Tab && c.connect_dialog is Some
        ==> c.connect_dialog->0.focused_field < usize::MAX
}

/// Whether no name occurs twice in `v`.
fn no_repeats(v: &Vec<String>) -> (r: bool)
    ensures
        r == v.deep_view().no_duplicates(),
{
    let ghost dv = v.deep_view();
    let mut i: usize = 0;
    while i < v.len()
        invariant
            i <= v.len(),
            dv == v.deep_view(),
            forall|a: int, b: int| 0 <= a < i && a < b < v.len() ==> dv[a] != dv[b],
        decreases v.len() - i,
    {
        let mut j: usize = i + 1;
        while j < v.len()
            invariant
                i < v.len(),
                i < j <= v.len(),
                dv == v.deep_view(),
                forall|a: int, b: int| 0 <= a < i && a < b < v.len() ==> dv[a] != dv[b],
                forall|b: int| i < b < j ==> dv[i as int] != dv[b],
            decreases v.len() - j,
        {
            if v[i] == v[j] {
                assert(dv[i as int] == dv[j as int]);
                return false;
            }
            j = j + 1;
        }
        i = i + 1;
    }
    assert forall|a: int, b: int| 0 <= a < dv.len() && 0 <= b < dv.len() && a != b implies dv[a] != dv[b] by {
        if a > b {
            assert(dv[b] != dv[a]);
        }
    }
    true
}

/// Whether the state meets what every screen's handler needs (`ready`):
/// the check to make before `handle_key`.
pub fn is_ready(c: &Context) -> (r: bool)
    ensures
        r == ready(*c),
{
    if c.active_panel >= 2 {
        return false;
    }
    let p = &c.panels[c.active_panel];
    if !no_repeats(&p.selected) {
        return false;
    }
    match &c.command_palette {
        Some(s) => {
            let mut i: usize = 0;
            while i < s.filtered_indices.len()
                invariant
                    c.command_palette == Some(*s),
                    i <= s.filtered_indices.len(),
                    forall|j: int| 0 <= j < i ==> #[trigger] s.filtered_indices@[j] < palette_count(),
                decreases s.filtered_indices.len() - i,
            {
                if s.filtered_indices[i] >= 19 {
                    assert(!(c.command_palette->0.filtered_indices@[i as int] < palette_count()));
                    return false;
                }
                i = i + 1;
            }
        },
        None => {},
    }
    true
}

/// Whether the state meets what the shown screen's handler needs for this
/// key (`key_ready`): the other check to make before `handle_key`.
pub fn is_key_ready(c: &Context, key: KeyEvent) -> (r: bool)
    requires
        c.active_panel < 2,
    ensures
        r == key_ready(*c, key),
{
    if c.ui_state == UiState::Normal && main_action_of(key) == Action::PageDown {
        let p = &c.panels[c.active_panel];
        if p.visible_rows > usize::MAX - p.state {
            return false;
        }
    }
    if c.ui_state == UiState::ConnectDialog && key.code == KeyCode::Tab {
        match &c.connect_dialog {
            Some(d) => {
                return d.focused_field < usize::MAX;
            },
            None => {},
        }
    }
    true
}

/// What a key press does: it goes to the handler of the screen that is shown.
pub open spec fn post_key(c: Context, n: Context, key: KeyEvent, r: Effect, now: u64) -> bool {
    match c.ui_state {
        UiState::Normal => post_main_event(c, n, key, r, now),
        UiState::CreatePopup => post_input_popup(c, n, key, InputPopup::CreateDirectory) && r is Nothing,
        UiState::CreateFilePopup => post_input_popup(c, n, key, InputPopup::CreateFile) && r is Nothing,
        UiState::RenamePopup => post_input_popup(c, n, key, InputPopup::Rename) && r is Nothing,
        UiState::ConfirmDelete => post_confirm(
            c,
            n,
            r,
            key,
            |c: Context, n: Context, r: Effect| post_delete(c, n, r),
            |c: Context, n: Context, r: Effect| post_keep(c, n, r),
        ),
        UiState::ChmodPopup => post_chmod_popup(c, n, key) && r is Nothing,
        UiState::SearchMode => post_search(c, n, key) && r is Nothing,
        UiState::ConfirmOverwrite => post_confirm(
            c,
            n,
            r,
            key,
            |c: Context, n: Context, r: Effect| post_pending_paste(c, n, r),
            |c: Context, n: Context, r: Effect| post_cancel_paste(c, n, r),
        ),
        UiState::ConnectDialog => post_connect_dialog(c, n, key, r),
        UiState::BookmarkList => post_bookmark_list(c, n, key, r),
        UiState::BookmarkNameInput => post_bookmark_name(c, n, key, r),
        UiState::SettingsPopup => post_settings(c, n, key, r),
        UiState::CommandPalette => post_palette_event(c, n, key, r),
    }
}

/// What a key press asks of the backends goes through the filesystems the
/// pool gives for the active panel's backend, and what it changes follows
/// their answers: on the panels (`main_event_answered`), in the name popups
/// (`pool_popup_answered`), in the permissions popup (`chmod_answered`) and
/// in the overwrite confirmation (`pending_paste_answered`).
pub open spec fn key_answered<P: Backends>(pool: P, c: Context, n: Context, key: KeyEvent, r: Effect, now: u64) -> bool {
    match c.ui_state {
        UiState::Normal => main_event_answered(pool, c, n, key, r, now),
        UiState::CreatePopup => pool_popup_answered(pool, c, n, key, InputPopup::CreateDirectory),
        UiState::CreateFilePopup => pool_popup_answered(pool, c, n, key, InputPopup::CreateFile),
        UiState::RenamePopup => pool_popup_answered(pool, c, n, key, InputPopup::Rename),
        UiState::ChmodPopup => chmod_answered(pool, c, n, key),
        UiState::ConfirmOverwrite => post_confirm(
            c,
            n,
            r,
            key,
            |c: Context, n: Context, r: Effect| pending_paste_answered(pool, c, n, r),
            |c: Context, n: Context, r: Effect| post_cancel_paste(c, n, r),
        ),
        _ => true,
    }
}

/// Handles a key press on whatever screen is shown (ages in a refreshed
/// preview are relative to `now`).
pub fn handle_key<P: Backends>(context: &mut Context, key: KeyEvent, pool: &P, now: u64) -> (r: Effect)
    requires
        ready(*old(context)),
        key_ready(*old(context), key),
    ensures
        post_key(*old(context), *final(context), key, r, now),
        key_answered(*pool, *old(context), *final(context), key, r, now),
{
    match context.ui_state {
        UiState::Normal => handle_main_event(context, key, pool, now),
        UiState::CreatePopup => {
            handle_popup_event(context, key, pool);
            Effect::Nothing
        },
        UiState::CreateFilePopup => {
            handle_file_popup_event(context, key, pool);
            Effect::Nothing
        },
        UiState::RenamePopup => {
            handle_rename_popup_event(context, key, pool);
            Effect::Nothing
        },
        UiState::ConfirmDelete => handle_confirm_popup_event(context, key),
        UiState::ChmodPopup => {
            handle_chmod_popup_event(context, key, pool);
            Effect::Nothing
        },
        UiState::SearchMode => {
            handle_search_event(context, key);
            Effect::Nothing
        },
        UiState::ConfirmOverwrite => handle_overwrite_popup_event(context, key, pool),
        UiState::ConnectDialog => handle_connect_dialog_event(context, key),
        UiState::BookmarkList => handle_bookmark_list_event(context, key),
        UiState::BookmarkNameInput => handle_bookmark_name_event(context, key),
        UiState::SettingsPopup => handle_settings_event(context, key),
        UiState::CommandPalette => handle_command_palette_event(context, key, pool),
    }
}

/// A panel after its directory was listed again (following a finished
/// operation): either listed afresh (filter applied again) or, when listing
/// failed, left without items; the cursor is on the top either way.
pub open spec fn relisted(p: PanelState, q: PanelState) -> bool {
    ||| (exists|es: Seq<DirEntryView>| q.items.deep_view() == #[trigger] listing_items(es, p.show_hidden))
        && q.filtered_items.deep_view() == visible_items(q.items.deep_view(), p.filter@) && q
        == PanelState {
        items: q.items,
        filtered_items: q.filtered_items,
        items_dirty: false,
        state: 0,
        ..p
    }
    ||| q.items@.len() == 0 && q == PanelState { items: q.items, items_dirty: true, state: 0, ..p }
}

/// What a finished background operation changes: the progress counters go
/// away; on success both panels are listed again and the status says
/// "<description without trailing dots> done" (a finished move also empties
/// the single-path clipboard); on failure the status shows the error.
pub open spec fn post_operation_result(c: Context, n: Context, result: FileOpResult) -> bool {
    match result.result {
        Ok(()) => {
            &&& relisted(c.panels[0], n.panels[0])
            &&& relisted(c.panels[1], n.panels[1])
            &&& status_is(n, trim_end_pat(result.description@, "..."@) + " done"@)
            &&& if result.clear_clipboard {
                n.copy_path@.len() == 0
            } else {
                n.copy_path == c.copy_path
            }
            &&& n == Context {
                panels: n.panels,
                status_message: n.status_message,
                copy_path: n.copy_path,
                transfer_progress: None,
                ..c
            }
        },
        Err(e) => status_is(n, "Failed: "@ + e@) && n == Context {
            status_message: n.status_message,
            transfer_progress: None,
            ..c
        },
    }
}

/// The items of panel `p`, listed again as `q`, are those of the backend's
/// answer to listing `p`'s directory (none when that failed).
pub open spec fn relisted_answer<B: FilesystemBackend>(fs: B, p: PanelState, q: PanelState) -> bool {
    exists|o: Result<Seq<DirEntryView>, Seq<char>>|
        #[trigger] fs.list_dir_answer(p.path@, o) && match o {
            Ok(es) => q.items.deep_view() == listing_items(es, p.show_hidden),
            Err(_) => q.items@.len() == 0,
        }
}

/// `relisted_answer` for a filesystem the pool gives for `p`'s backend.
pub open spec fn relisted_from<P: Backends>(pool: P, p: PanelState, q: PanelState) -> bool {
    exists|fs: P::Fs| #[trigger] pool.gives(p.backend, fs) && relisted_answer(fs, p, q)
}

/// Lists a panel again after an operation.
fn relist<B: FilesystemBackend>(panel: &mut PanelState, fs: &B)
    ensures
        relisted(PanelState { items_dirty: true, ..*old(panel) }, *final(panel)),
        relisted_answer(*fs, *old(panel), *final(panel)),
{
    panel.invalidate_directory_cache();
    let _ = list_children(panel, fs);
    if panel.state > 0 && panel.state >= panel.items.len() {
        panel.state = panel.items.len().saturating_sub(1);
    }
}

impl Context {
    /// Takes the report of a finished background operation.
    pub fn apply_operation_result<P: Backends>(&mut self, result: FileOpResult, pool: &P)
        ensures
            post_operation_result(*old(self), *final(self), result),
            result.result is Ok ==> relisted_from(*pool, old(self).panels[0], final(self).panels[0])
                && relisted_from(*pool, old(self).panels[1], final(self).panels[1]),
    {
        self.transfer_progress = None;
        match result.result {
            Ok(()) => {
                let fs0 = pool.get(&self.panels[0].backend);
                relist(&mut self.panels[0], fs0);
                assert(pool.gives(old(self).panels[0].backend, *fs0));
                let fs1 = pool.get(&self.panels[1].backend);
                relist(&mut self.panels[1], fs1);
                assert(pool.gives(old(self).panels[1].backend, *fs1));
                let d = trim_end_matches_str(result.description.as_str(), "...");
                let m = concat(d.as_str(), " done");
                self.set_status_message(m.as_str());
                if result.clear_clipboard {
                    self.copy_path = String::new();
                }
            },
            Err(e) => {
                let m = concat("Failed: ", e.as_str());
                self.set_status_message(m.as_str());
            },
        }
    }

    /// The parameters to reconnect panel `i` with: only a remote panel whose
    /// connection is no longer alive and that knows how it was opened.
    pub fn needs_reconnect<P: Backends>(&self, i: usize, pool: &P) -> (r: Option<ConnectionParams>)
        requires
            i < 2,
        ensures
            r is Some ==> r == self.panels[i as int].backend.params,
            self.panels[i as int].backend.kind == crate::backend::BackendKind::Local ==> r is None,
            self.panels[i as int].backend.params is None ==> r is None,
            self.panels[i as int].backend.kind != crate::backend::BackendKind::Local
                && self.panels[i as int].backend.params is Some ==> exists|fs: P::Fs, alive: bool|
                #![trigger pool.gives(self.panels[i as int].backend, fs), fs.connected_answer(alive)]
                pool.gives(self.panels[i as int].backend, fs) && fs.connected_answer(alive) && (r is Some <==> !alive),
    {
        if self.panels[i].backend.is_local() {
            return None;
        }
        let fs = pool.get(&self.panels[i].backend);
        let alive = fs.is_connected();
        if alive {
            return None;
        }
        self.panels[i].backend.connection_params()
    }

    /// Takes the outcome of reconnecting panel `i`: on success the panel
    /// moves to the new backend (a fresh identity), stays in its directory
    /// and is listed again; either way the status says what happened.
    pub fn finish_reconnect(&mut self, i: usize, outcome: Result<Connected, String>) -> (r: Option<BackendRef>)
        requires
            i < 2,
        ensures
            match outcome {
                Ok(conn) => {
                    &&& r == Some(final(self).panels[i as int].backend)
                    &&& final(self).panels[i as int].backend == BackendRef {
                        id: old(self).next_backend_id,
                        kind: conn.kind,
                        display: conn.display,
                        params: Some(conn.params),
                    }
                    &&& final(self).panels[i as int] == PanelState {
                        backend: final(self).panels[i as int].backend,
                        items_dirty: true,
                        ..old(self).panels[i as int]
                    }
                    &&& final(self).panels[1 - i] == old(self).panels[1 - i]
                    &&& status_is(*final(self), "Reconnected"@)
                    &&& *final(self) == (Context {
                        panels: final(self).panels,
                        status_message: final(self).status_message,
                        next_backend_id: final(self).next_backend_id,
                        ..*old(self)
                    })
                },
                Err(e) => r is None && status_is(*final(self), "Connection lost: "@ + e@) && *final(self)
                    == (Context { status_message: final(self).status_message, ..*old(self) }),
            },
    {
        match outcome {
            Ok(conn) => {
                let id = self.allocate_backend_id();
                let backend = BackendRef { id, kind: conn.kind, display: conn.display, params: Some(conn.params) };
                self.panels[i].backend = backend.clone();
                self.panels[i].invalidate_directory_cache();
                self.set_status_message("Reconnected");
                Some(backend)
            },
            Err(e) => {
                let m = concat("Connection lost: ", e.as_str());
                self.set_status_message(m.as_str());
                None
            },
        }
    }
}

} // verus!
