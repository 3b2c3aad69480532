//! Keys on the panels, and the actions they (and the command palette) trigger.
use vstd::prelude::*;

use crate::context::{ClipboardMode, Context, PanelState, UiState};
use crate::event_handler::actions::{
    active_panel_is, post_begin_chmod, post_begin_rename, post_deselect, post_disconnect, post_go_to_parent,
    post_move_down, post_move_up, post_open_bookmarks, post_open_command_palette, post_open_connect_dialog,
    post_open_selected, post_open_settings, post_quit, post_select_all, post_sync_panels,
    post_toggle_hidden, post_toggle_selection,
};
use crate::event_handler::clipboard::{
    batch_paste_answered, handle_copy_or_cut, handle_paste, post_copy_or_cut, post_paste, single_paste_answered,
};
use crate::event_handler::actions::{home_or_dot, mode_answer, post_chmod_start, reported};
use crate::backend::{BackendKind, FileInfo, FilesystemBackend};
use crate::context::{metadata_of, parent_entry};
use crate::file_operation::{info_result, paste_source, preview_answered};
use crate::event_handler::{Backends, Effect};
use crate::keys::{KeyCode, KeyEvent};

verus! {

/// Everything a key on the panels or a command of the palette can do.
#[derive(Debug, PartialEq, Eq, Structural, Clone, Copy)]
pub enum Action {
    /// Clear the filter, or exit when there is none.
    Quit,
    /// Exit.
    Exit,
    Open,
    TogglePanel,
    Parent,
    Down,
    Up,
    NewFolder,
    NewFile,
    ToggleSelection,
    SelectAll,
    Deselect,
    Copy,
    Cut,
    Paste,
    Delete,
    Rename,
    Chmod,
    SyncPanels,
    Search,
    ToggleHidden,
    CommandPalette,
    Settings,
    TogglePreview,
    Connect,
    Disconnect,
    Bookmarks,
    PageDown,
    PageUp,
    First,
    Last,
    /// The first "g" of "gg".
    PendingG,
    Nothing,
}

/// The action of a key on the panels. Plain keys act whatever modifiers are
/// held; the Ctrl shortcuts need Ctrl and nothing else.
pub open spec fn main_action(key: KeyEvent) -> Action {
    let ctrl = key.modifiers.is_control_only();
    match key.code {
        KeyCode::Esc => Action::Quit,
        KeyCode::Enter => Action::Open,
        KeyCode::Tab => Action::TogglePanel,
        KeyCode::Backspace => Action::Parent,
        KeyCode::Down => Action::Down,
        KeyCode::Up => Action::Up,
        KeyCode::Delete => Action::Delete,
        KeyCode::PageDown => Action::PageDown,
        KeyCode::PageUp => Action::PageUp,
        KeyCode::Home => Action::First,
        KeyCode::End => Action::Last,
        KeyCode::F(n) => if n == 1 {
            Action::CommandPalette
        } else if n == 2 {
            Action::Settings
        } else if n == 3 {
            Action::TogglePreview
        } else if n == 5 {
            Action::Connect
        } else if n == 6 {
            Action::Disconnect
        } else if n == 7 {
            Action::Bookmarks
        } else {
            Action::Nothing
        },
        KeyCode::Char(ch) => if ch == 'q' {
            Action::Quit
        } else if ch == 'p' && ctrl {
            Action::NewFolder
        } else if ch == ' ' {
            Action::ToggleSelection
        } else if ch == 'a' && ctrl {
            Action::SelectAll
        } else if ch == 'd' && ctrl {
            Action::Deselect
        } else if ch == 'c' && ctrl {
            Action::Copy
        } else if ch == 'v' && ctrl {
            Action::Paste
        } else if ch == 'x' && ctrl {
            Action::Cut
        } else if ch == 'r' && ctrl {
            Action::Rename
        } else if ch == 'm' && ctrl {
            Action::Chmod
        } else if ch == '=' {
            Action::SyncPanels
        } else if ch == '/' {
            Action::Search
        } else if ch == '.' {
            Action::ToggleHidden
        } else if ch == 'j' {
            Action::Down
        } else if ch == 'k' {
            Action::Up
        } else if ch == 'l' {
            Action::Open
        } else if ch == 'h' {
            Action::Parent
        } else if ch == 'G' {
            Action::Last
        } else if ch == 'g' {
            Action::PendingG
        } else if ch == 'n' && ctrl {
            Action::NewFile
        } else {
            Action::Nothing
        },
        _ => Action::Nothing,
    }
}

/// The action of a key on the panels.
pub fn main_action_of(key: KeyEvent) -> (r: Action)
    ensures
        r == main_action(key),
{
    let ctrl = key.modifiers.bits == 2;
    match key.code {
        KeyCode::Esc => Action::Quit,
        KeyCode::Enter => Action::Open,
        KeyCode::Tab => Action::TogglePanel,
        KeyCode::Backspace => Action::Parent,
        KeyCode::Down => Action::Down,
        KeyCode::Up => Action::Up,
        KeyCode::Delete => Action::Delete,
        KeyCode::PageDown => Action::PageDown,
        KeyCode::PageUp => Action::PageUp,
        KeyCode::Home => Action::First,
        KeyCode::End => Action::Last,
        KeyCode::F(n) => {
            if n == 1 {
                Action::CommandPalette
            } else if n == 2 {
                Action::Settings
            } else if n == 3 {
                Action::TogglePreview
            } else if n == 5 {
                Action::Connect
            } else if n == 6 {
                Action::Disconnect
            } else if n == 7 {
                Action::Bookmarks
            } else {
                Action::Nothing
            }
        },
        KeyCode::Char(ch) => {
            if ch == 'q' {
                Action::Quit
            } else if ch == 'p' && ctrl {
                Action::NewFolder
            } else if ch == ' ' {
                Action::ToggleSelection
            } else if ch == 'a' && ctrl {
                Action::SelectAll
            } else if ch == 'd' && ctrl {
                Action::Deselect
            } else if ch == 'c' && ctrl {
                Action::Copy
            } else if ch == 'v' && ctrl {
                Action::Paste
            } else if ch == 'x' && ctrl {
                Action::Cut
            } else if ch == 'r' && ctrl {
                Action::Rename
            } else if ch == 'm' && ctrl {
                Action::Chmod
            } else if ch == '=' {
                Action::SyncPanels
            } else if ch == '/' {
                Action::Search
            } else if ch == '.' {
                Action::ToggleHidden
            } else if ch == 'j' {
                Action::Down
            } else if ch == 'k' {
                Action::Up
            } else if ch == 'l' {
                Action::Open
            } else if ch == 'h' {
                Action::Parent
            } else if ch == 'G' {
                Action::Last
            } else if ch == 'g' {
                Action::PendingG
            } else if ch == 'n' && ctrl {
                Action::NewFile
            } else {
                Action::Nothing
            }
        },
        _ => Action::Nothing,
    }
}

/// Number of commands in the command palette.
pub open spec fn palette_count() -> usize {
    19
}

/// The active panel with its cursor moved to `state`, nothing else changed.
pub open spec fn cursor_now(c: Context, n: Context, state: usize) -> bool {
    active_panel_is(c, n, PanelState { state, ..c.spec_active() }) && n == Context {
        panels: n.panels,
        ..c
    }
}

/// The index of the last visible item (0 when there is none).
pub open spec fn last_index(p: PanelState) -> usize {
    if p.filtered_items.len() > 0 {
        (p.filtered_items.len() - 1) as usize
    } else {
        0
    }
}

/// What an action does to the state, and what it hands back.
pub open spec fn post_action(c: Context, n: Context, a: Action, r: Effect) -> bool {
    let p = c.spec_active();
    &&& (a != Action::Paste ==> r is Nothing)
    &&& match a {
        Action::Quit => post_quit(c, n),
        Action::Exit => n == Context { exit: true, ..c },
        Action::Open => post_open_selected(c, n),
        Action::TogglePanel => n == Context { active_panel: (1 - c.active_panel) as usize, ..c },
        Action::Parent => post_go_to_parent(c, n),
        Action::Down => post_move_down(c, n),
        Action::Up => post_move_up(c, n),
        Action::NewFolder => n == Context { ui_state: UiState::CreatePopup, ..c },
        Action::NewFile => n == Context { ui_state: UiState::CreateFilePopup, ..c },
        Action::ToggleSelection => post_toggle_selection(c, n),
        Action::SelectAll => post_select_all(c, n),
        Action::Deselect => post_deselect(c, n),
        Action::Copy => post_copy_or_cut(c, n, ClipboardMode::Copy),
        Action::Cut => post_copy_or_cut(c, n, ClipboardMode::Cut),
        Action::Paste => post_paste(c, n, r),
        Action::Delete => n == Context { ui_state: UiState::ConfirmDelete, ..c },
        Action::Rename => post_begin_rename(c, n),
        Action::Chmod => post_begin_chmod(c, n),
        Action::SyncPanels => post_sync_panels(c, n),
        Action::Search => n == Context { ui_state: UiState::SearchMode, ..c },
        Action::ToggleHidden => post_toggle_hidden(c, n),
        Action::CommandPalette => post_open_command_palette(c, n, palette_count()),
        Action::Settings => post_open_settings(c, n),
        Action::TogglePreview => n == Context { show_preview: !c.show_preview, ..c },
        Action::Connect => post_open_connect_dialog(c, n),
        Action::Disconnect => post_disconnect(c, n),
        Action::Bookmarks => post_open_bookmarks(c, n),
        Action::PageDown => cursor_now(
            c,
            n,
            vstd::math::min(p.state + p.visible_rows, last_index(p) as int) as usize,
        ),
        Action::PageUp => cursor_now(
            c,
            n,
            if p.state >= p.visible_rows {
                (p.state - p.visible_rows) as usize
            } else {
                0
            },
        ),
        Action::First => cursor_now(c, n, 0),
        Action::Last => cursor_now(c, n, last_index(p)),
        Action::PendingG => n == Context { pending_g: true, ..c },
        Action::Nothing => n == c,
    }
}

/// What every action needs of the state: a valid active panel whose
/// selection holds no name twice.
pub open spec fn action_ready(c: Context) -> bool {
    &&& c.active_panel < 2
    &&& c.spec_active().wf()
}

/// What action `a` needs besides: a page-down move needs the cursor plus a
/// page to fit in a `usize`.
pub open spec fn action_fits(c: Context, a: Action) -> bool {
    a == Action::PageDown ==> c.spec_active().state + c.spec_active().visible_rows <= usize::MAX
}

/// The actions that ask the active panel's backend something do so through
/// the filesystem the pool gives for that backend, and their outcome follows
/// its answers: opening (metadata of the item, then entering or opening it;
/// `PanelState::opened_with`), going to the parent (canonical form of
/// "<path>/../"), starting a permission change (metadata of the item),
/// pasting (`batch_paste_answered`, `single_paste_answered`) and
/// disconnecting (the local canonical form of ".").
pub open spec fn action_answered<P: Backends>(pool: P, c: Context, n: Context, a: Action, r: Effect) -> bool {
    let p = c.spec_active();
    let item = p.spec_selected_item()->0;
    match a {
        Action::Open => p.spec_selected_item() is Some ==> exists|
            fs: P::Fs,
            o: Result<FileInfo, String>,
            mid: PanelState,
            res: Option<String>,
        |
            #![trigger PanelState::opened_with(fs, p, mid, metadata_of(o), res)]
            pool.gives(p.backend, fs) && fs.metadata_answer(p.item_path(item), info_result(o))
                && PanelState::opened_with(fs, p, mid, metadata_of(o), res) && n.spec_active().path == mid.path
                && reported(c, n, res),
        Action::Parent => exists|fs: P::Fs, mid: PanelState, o: Result<Seq<char>, Seq<char>>, res: Option<String>|
            #![trigger fs.canonical_answer(p.backend.spec_join(p.path@, "../"@), o), PanelState::post_parent(p, mid, o, res)]
            pool.gives(p.backend, fs) && fs.canonical_answer(p.backend.spec_join(p.path@, "../"@), o)
                && PanelState::post_parent(p, mid, o, res) && n.spec_active().path == mid.path
                && n.spec_active().items_dirty == mid.items_dirty && reported(c, n, res),
        Action::Chmod => p.spec_selected_item() is Some && item != parent_entry() ==> exists|
            fs: P::Fs,
            o: Result<FileInfo, String>,
        |
            #![trigger fs.metadata_answer(p.item_path(item), info_result(o))]
            pool.gives(p.backend, fs) && fs.metadata_answer(p.item_path(item), info_result(o)) && post_chmod_start(
                c,
                n,
                mode_answer(o),
            ),
        Action::Paste => {
            &&& c.active_operation is None && c.copy_paths.len() > 0 ==> batch_paste_answered(pool, c, r)
            &&& c.active_operation is None && c.copy_paths.len() == 0 && c.copy_path@.len() > 0 && paste_source(
                c,
            ).spec_file_name(c.copy_path@) is Some ==> single_paste_answered(pool, c, n, r)
        },
        Action::Disconnect => p.backend.kind != BackendKind::Local ==> exists|
            fs: P::Fs,
            home: Result<Seq<char>, Seq<char>>,
        |
            #![trigger pool.gives(n.spec_active().backend, fs), fs.canonical_answer("."@, home)]
            pool.gives(n.spec_active().backend, fs) && fs.canonical_answer("."@, home) && n.spec_active().path@
                == home_or_dot(home),
        _ => true,
    }
}

/// Performs an action.
pub fn perform_action<P: Backends>(context: &mut Context, action: Action, pool: &P) -> (r: Effect)
    requires
        action_ready(*old(context)),
        action_fits(*old(context), action),
    ensures
        post_action(*old(context), *final(context), action, r),
        action_answered(*pool, *old(context), *final(context), action, r),
{
    let a = context.active_panel;
    match action {
        Action::Quit => context.quit_or_clear_filter(),
        Action::Exit => context.set_exit(),
        Action::Open => {
            let fs = pool.get(&context.panels[a].backend);
            context.open_selected(fs);
            proof {
                let p = old(context).spec_active();
                if p.spec_selected_item() is Some {
                    let (o, mid, res) = choose|o: Result<FileInfo, String>, mid: PanelState, res: Option<String>|
                        #![trigger PanelState::opened_with(*fs, p, mid, metadata_of(o), res)]
                        fs.metadata_answer(p.item_path(p.spec_selected_item()->0), info_result(o))
                            && PanelState::opened_with(*fs, p, mid, metadata_of(o), res)
                            && context.spec_active().path == mid.path && reported(*old(context), *context, res);
                    assert(pool.gives(p.backend, *fs));
                }
            }
        },
        Action::TogglePanel => context.toggle_active_panel(),
        Action::Parent => {
            let fs = pool.get(&context.panels[a].backend);
            context.go_to_parent(fs);
            proof {
                let p = old(context).spec_active();
                let (mid, o, res) = choose|mid: PanelState, o: Result<Seq<char>, Seq<char>>, res: Option<String>|
                    #![trigger PanelState::post_parent(p, mid, o, res)]
                    fs.canonical_answer(p.backend.spec_join(p.path@, "../"@), o) && PanelState::post_parent(
                        p,
                        mid,
                        o,
                        res,
                    ) && context.spec_active().path == mid.path && context.spec_active().items_dirty
                        == mid.items_dirty && reported(*old(context), *context, res);
                assert(pool.gives(p.backend, *fs));
            }
        },
        Action::Down => context.move_down(),
        Action::Up => context.move_up(),
        Action::NewFolder => context.set_ui_state(UiState::CreatePopup),
        Action::NewFile => context.set_ui_state(UiState::CreateFilePopup),
        Action::ToggleSelection => context.toggle_active_selection(),
        Action::SelectAll => context.select_all_items(),
        Action::Deselect => context.deselect_all(),
        Action::Copy => handle_copy_or_cut(context, ClipboardMode::Copy),
        Action::Cut => handle_copy_or_cut(context, ClipboardMode::Cut),
        Action::Paste => {
            return handle_paste(context, pool);
        },
        Action::Delete => context.set_ui_state(UiState::ConfirmDelete),
        Action::Rename => context.begin_rename(),
        Action::Chmod => {
            let fs = pool.get(&context.panels[a].backend);
            context.begin_chmod(fs);
            proof {
                let p = old(context).spec_active();
                if p.spec_selected_item() is Some && p.spec_selected_item()->0 != parent_entry() {
                    let o = choose|o: Result<FileInfo, String>|
                        #[trigger] fs.metadata_answer(p.item_path(p.spec_selected_item()->0), info_result(o))
                            && post_chmod_start(*old(context), *context, mode_answer(o));
                    assert(pool.gives(p.backend, *fs));
                }
            }
        },
        Action::SyncPanels => context.sync_panels(),
        Action::Search => context.set_ui_state(UiState::SearchMode),
        Action::ToggleHidden => context.toggle_hidden(),
        Action::CommandPalette => context.open_command_palette(19),
        Action::Settings => context.open_settings(),
        Action::TogglePreview => context.toggle_preview(),
        Action::Connect => context.open_connect_dialog(),
        Action::Disconnect => context.disconnect_active(pool),
        Action::Bookmarks => context.open_bookmarks(),
        Action::PageDown => context.panels[a].page_down(),
        Action::PageUp => context.panels[a].page_up(),
        Action::First => context.panels[a].go_to_first(),
        Action::Last => context.panels[a].go_to_last(),
        Action::PendingG => {
            context.pending_g = true;
        },
        Action::Nothing => {},
    }
    Effect::Nothing
}

/// What a key on the panels does. The status line is cleared first. A
/// pending "g" is consumed: a second "g" moves the cursor to the top and
/// does nothing more. Otherwise the key's action is performed; then, when
/// the preview is shown, the active panel's preview is refreshed (ages
/// relative to `now`) — except when "q" or Esc only cleared a filter.
pub open spec fn post_main_event(c: Context, n: Context, key: KeyEvent, r: Effect, now: u64) -> bool {
    let c1 = Context { status_message: None, pending_g: false, ..c };
    let a = main_action(key);
    if c.pending_g && key.code == KeyCode::Char('g') {
        cursor_now(c1, n, 0) && r is Nothing
    } else if a == Action::Quit && c.spec_active().filter@.len() > 0 {
        post_quit(c1, n) && r is Nothing
    } else {
        exists|m: Context|
            #[trigger] post_action(c1, m, a, r) && if m.show_preview {
                &&& m.active_panel < 2
                &&& active_panel_is(m, n, n.spec_active())
                &&& PanelState::post_update_preview(m.spec_active(), n.spec_active(), now)
                &&& n == Context { panels: n.panels, ..m }
            } else {
                n == m
            }
    }
}

/// A refreshed preview of panel `p` (now `q`) was built from the answers of
/// a filesystem the pool gives for the panel's backend (`preview_answered`
/// for the item's preview target).
pub open spec fn preview_refreshed<P: Backends>(pool: P, p: PanelState, q: PanelState, now: u64) -> bool {
    let item = p.spec_selected_item()->0;
    p.spec_selected_item() is Some && !(p.preview_last_item matches Some(last) && last@ == item
        && p.preview_content is Some) ==> exists|fs: P::Fs|
        #[trigger] pool.gives(p.backend, fs) && (q.preview_content matches Some(t) && preview_answered(
            fs,
            p.spec_preview_target(item),
            now,
            t@,
        ))
}

/// A key on the panels that performs an action does so on the backends'
/// answers (`action_answered`), and a preview refreshed afterwards comes
/// from the active panel's backend (`preview_refreshed`).
pub open spec fn main_event_answered<P: Backends>(pool: P, c: Context, n: Context, key: KeyEvent, r: Effect, now: u64) -> bool {
    let c1 = Context { status_message: None, pending_g: false, ..c };
    let a = main_action(key);
    !(c.pending_g && key.code == KeyCode::Char('g')) && !(a == Action::Quit && c.spec_active().filter@.len() > 0)
        ==> exists|m: Context|
        #[trigger] action_answered(pool, c1, m, a, r) && post_action(c1, m, a, r) && if m.show_preview {
            &&& m.active_panel < 2
            &&& n == Context { panels: n.panels, ..m }
            &&& preview_refreshed(pool, m.spec_active(), n.spec_active(), now)
        } else {
            n == m
        }
}

/// Handles a key on the panels.
pub fn handle_main_event<P: Backends>(context: &mut Context, key_event: KeyEvent, pool: &P, now: u64) -> (r: Effect)
    requires
        action_ready(*old(context)),
        action_fits(*old(context), main_action(key_event)),
    ensures
        post_main_event(*old(context), *final(context), key_event, r, now),
        main_event_answered(*pool, *old(context), *final(context), key_event, r, now),
{
    context.clear_status_message();
    if context.pending_g {
        context.pending_g = false;
        if key_event.code == KeyCode::Char('g') {
            let a = context.active_panel;
            context.panels[a].go_to_first();
            return Effect::Nothing;
        }
    }
    let action = main_action_of(key_event);
    let a = context.active_panel;
    if action == Action::Quit && !context.panels[a].filter.as_str().is_empty() {
        context.quit_or_clear_filter();
        return Effect::Nothing;
    }
    let r = perform_action(context, action, pool);
    let ghost m = *context;
    if context.show_preview {
        let b = context.active_panel;
        let fs = pool.get(&context.panels[b].backend);
        context.panels[b].update_preview(fs, now);
        assert(pool.gives(m.spec_active().backend, *fs));
    }
    assert(post_action(Context { status_message: None, pending_g: false, ..*old(context) }, m, action, r));
    assert(action_answered(*pool, Context { status_message: None, pending_g: false, ..*old(context) }, m, action, r));
    r
}

} // verus!
