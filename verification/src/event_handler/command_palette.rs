//! The command palette: every action by name, filtered as the user types.
use vstd::prelude::*;

use crate::context::{CommandPaletteState, Context, UiState};
use crate::event_handler::main_handler::{action_answered, action_ready, palette_count, perform_action, post_action, Action};
use crate::event_handler::{Backends, Effect};
use crate::keys::{KeyCode, KeyEvent};
use crate::text::{contains_seq, lowercase, pop_char, push_char, same_text, str_contains, str_lowercase};

verus! {

/// A command of the palette: what it is called, its key, its identifier and
/// the section it is listed under.
pub struct PaletteAction {
    pub label: &'static str,
    pub shortcut: &'static str,
    pub id: &'static str,
    pub section: &'static str,
}

/// The identifier of the `i`-th command.
pub open spec fn palette_id(i: int) -> Seq<char> {
    if i == 0 {
        "delete"@
    } else if i == 1 {
        "rename"@
    } else if i == 2 {
        "copy"@
    } else if i == 3 {
        "paste"@
    } else if i == 4 {
        "cut"@
    } else if i == 5 {
        "chmod"@
    } else if i == 6 {
        "new_file"@
    } else if i == 7 {
        "new_folder"@
    } else if i == 8 {
        "connect"@
    } else if i == 9 {
        "disconnect"@
    } else if i == 10 {
        "bookmarks"@
    } else if i == 11 {
        "toggle_hidden"@
    } else if i == 12 {
        "toggle_preview"@
    } else if i == 13 {
        "sync_panels"@
    } else if i == 14 {
        "search"@
    } else if i == 15 {
        "select_all"@
    } else if i == 16 {
        "deselect"@
    } else if i == 17 {
        "settings"@
    } else {
        "quit"@
    }
}

/// The label of the `i`-th command.
pub open spec fn palette_label(i: int) -> Seq<char> {
    if i == 0 {
        "Delete"@
    } else if i == 1 {
        "Rename"@
    } else if i == 2 {
        "Copy"@
    } else if i == 3 {
        "Paste"@
    } else if i == 4 {
        "Cut"@
    } else if i == 5 {
        "Change Permissions"@
    } else if i == 6 {
        "New File"@
    } else if i == 7 {
        "New Folder"@
    } else if i == 8 {
        "Connect (SFTP/FTP)"@
    } else if i == 9 {
        "Disconnect"@
    } else if i == 10 {
        "Bookmarks"@
    } else if i == 11 {
        "Toggle Hidden Files"@
    } else if i == 12 {
        "Toggle Preview"@
    } else if i == 13 {
        "Sync Panels"@
    } else if i == 14 {
        "Search / Filter"@
    } else if i == 15 {
        "Select All"@
    } else if i == 16 {
        "Deselect All"@
    } else if i == 17 {
        "Settings"@
    } else {
        "Quit"@
    }
}

/// The key of the `i`-th command.
pub open spec fn palette_shortcut(i: int) -> Seq<char> {
    if i == 0 {
        "Del"@
    } else if i == 1 {
        "^R"@
    } else if i == 2 {
        "^C"@
    } else if i == 3 {
        "^V"@
    } else if i == 4 {
        "^X"@
    } else if i == 5 {
        "^M"@
    } else if i == 6 {
        "^N"@
    } else if i == 7 {
        "^P"@
    } else if i == 8 {
        "F5"@
    } else if i == 9 {
        "F6"@
    } else if i == 10 {
        "F7"@
    } else if i == 11 {
        "."@
    } else if i == 12 {
        "F3"@
    } else if i == 13 {
        "="@
    } else if i == 14 {
        "/"@
    } else if i == 15 {
        "^A"@
    } else if i == 16 {
        "^D"@
    } else if i == 17 {
        "F2"@
    } else {
        "Q"@
    }
}

/// The section of the `i`-th command.
pub open spec fn palette_section(i: int) -> Seq<char> {
    if i == 0 {
        "File Operations"@
    } else if i == 1 {
        "File Operations"@
    } else if i == 2 {
        "File Operations"@
    } else if i == 3 {
        "File Operations"@
    } else if i == 4 {
        "File Operations"@
    } else if i == 5 {
        "File Operations"@
    } else if i == 6 {
        "Create"@
    } else if i == 7 {
        "Create"@
    } else if i == 8 {
        "Remote"@
    } else if i == 9 {
        "Remote"@
    } else if i == 10 {
        "Remote"@
    } else if i == 11 {
        "View"@
    } else if i == 12 {
        "View"@
    } else if i == 13 {
        "View"@
    } else if i == 14 {
        "View"@
    } else if i == 15 {
        "Selection"@
    } else if i == 16 {
        "Selection"@
    } else if i == 17 {
        "App"@
    } else {
        "App"@
    }
}

/// The action a command identifier stands for.
pub open spec fn palette_action_for(id: Seq<char>) -> Action {
    if id == "delete"@ {
        Action::Delete
    } else if id == "rename"@ {
        Action::Rename
    } else if id == "copy"@ {
        Action::Copy
    } else if id == "paste"@ {
        Action::Paste
    } else if id == "cut"@ {
        Action::Cut
    } else if id == "chmod"@ {
        Action::Chmod
    } else if id == "new_file"@ {
        Action::NewFile
    } else if id == "new_folder"@ {
        Action::NewFolder
    } else if id == "connect"@ {
        Action::Connect
    } else if id == "disconnect"@ {
        Action::Disconnect
    } else if id == "bookmarks"@ {
        Action::Bookmarks
    } else if id == "toggle_hidden"@ {
        Action::ToggleHidden
    } else if id == "toggle_preview"@ {
        Action::TogglePreview
    } else if id == "sync_panels"@ {
        Action::SyncPanels
    } else if id == "search"@ {
        Action::Search
    } else if id == "select_all"@ {
        Action::SelectAll
    } else if id == "deselect"@ {
        Action::Deselect
    } else if id == "settings"@ {
        Action::Settings
    } else if id == "quit"@ {
        Action::Exit
    } else {
        Action::Nothing
    }
}

/// All commands of the palette, in the order they are listed.
pub fn palette_actions() -> (r: Vec<PaletteAction>)
    ensures
        r.len() == palette_count(),
        forall|i: int|
            0 <= i < r.len() ==> (#[trigger] r@[i]).id@ == palette_id(i) && r@[i].label@ == palette_label(i)
                && r@[i].shortcut@ == palette_shortcut(i) && r@[i].section@ == palette_section(i),
{
    let mut v: Vec<PaletteAction> = Vec::new();
    v.push(PaletteAction { id: "delete", label: "Delete", shortcut: "Del", section: "File Operations" });
    v.push(PaletteAction { id: "rename", label: "Rename", shortcut: "^R", section: "File Operations" });
    v.push(PaletteAction { id: "copy", label: "Copy", shortcut: "^C", section: "File Operations" });
    v.push(PaletteAction { id: "paste", label: "Paste", shortcut: "^V", section: "File Operations" });
    v.push(PaletteAction { id: "cut", label: "Cut", shortcut: "^X", section: "File Operations" });
    v.push(PaletteAction { id: "chmod", label: "Change Permissions", shortcut: "^M", section: "File Operations" });
    v.push(PaletteAction { id: "new_file", label: "New File", shortcut: "^N", section: "Create" });
    v.push(PaletteAction { id: "new_folder", label: "New Folder", shortcut: "^P", section: "Create" });
    v.push(PaletteAction { id: "connect", label: "Connect (SFTP/FTP)", shortcut: "F5", section: "Remote" });
    v.push(PaletteAction { id: "disconnect", label: "Disconnect", shortcut: "F6", section: "Remote" });
    v.push(PaletteAction { id: "bookmarks", label: "Bookmarks", shortcut: "F7", section: "Remote" });
    v.push(PaletteAction { id: "toggle_hidden", label: "Toggle Hidden Files", shortcut: ".", section: "View" });
    v.push(PaletteAction { id: "toggle_preview", label: "Toggle Preview", shortcut: "F3", section: "View" });
    v.push(PaletteAction { id: "sync_panels", label: "Sync Panels", shortcut: "=", section: "View" });
    v.push(PaletteAction { id: "search", label: "Search / Filter", shortcut: "/", section: "View" });
    v.push(PaletteAction { id: "select_all", label: "Select All", shortcut: "^A", section: "Selection" });
    v.push(PaletteAction { id: "deselect", label: "Deselect All", shortcut: "^D", section: "Selection" });
    v.push(PaletteAction { id: "settings", label: "Settings", shortcut: "F2", section: "App" });
    v.push(PaletteAction { id: "quit", label: "Quit", shortcut: "Q", section: "App" });
    v
}

/// The identifier of the `i`-th command.
pub fn palette_id_of(i: usize) -> (r: &'static str)
    requires
        i < palette_count(),
    ensures
        r@ == palette_id(i as int),
{
    if i == 0 {
        "delete"
    } else if i == 1 {
        "rename"
    } else if i == 2 {
        "copy"
    } else if i == 3 {
        "paste"
    } else if i == 4 {
        "cut"
    } else if i == 5 {
        "chmod"
    } else if i == 6 {
        "new_file"
    } else if i == 7 {
        "new_folder"
    } else if i == 8 {
        "connect"
    } else if i == 9 {
        "disconnect"
    } else if i == 10 {
        "bookmarks"
    } else if i == 11 {
        "toggle_hidden"
    } else if i == 12 {
        "toggle_preview"
    } else if i == 13 {
        "sync_panels"
    } else if i == 14 {
        "search"
    } else if i == 15 {
        "select_all"
    } else if i == 16 {
        "deselect"
    } else if i == 17 {
        "settings"
    } else {
        "quit"
    }
}

/// The label of the `i`-th command.
pub fn palette_label_of(i: usize) -> (r: &'static str)
    requires
        i < palette_count(),
    ensures
        r@ == palette_label(i as int),
{
    if i == 0 {
        "Delete"
    } else if i == 1 {
        "Rename"
    } else if i == 2 {
        "Copy"
    } else if i == 3 {
        "Paste"
    } else if i == 4 {
        "Cut"
    } else if i == 5 {
        "Change Permissions"
    } else if i == 6 {
        "New File"
    } else if i == 7 {
        "New Folder"
    } else if i == 8 {
        "Connect (SFTP/FTP)"
    } else if i == 9 {
        "Disconnect"
    } else if i == 10 {
        "Bookmarks"
    } else if i == 11 {
        "Toggle Hidden Files"
    } else if i == 12 {
        "Toggle Preview"
    } else if i == 13 {
        "Sync Panels"
    } else if i == 14 {
        "Search / Filter"
    } else if i == 15 {
        "Select All"
    } else if i == 16 {
        "Deselect All"
    } else if i == 17 {
        "Settings"
    } else {
        "Quit"
    }
}

/// The action a command identifier stands for.
pub fn palette_action_of(id: &str) -> (r: Action)
    ensures
        r == palette_action_for(id@),
{
    if same_text(id, "delete") {
        Action::Delete
    } else if same_text(id, "rename") {
        Action::Rename
    } else if same_text(id, "copy") {
        Action::Copy
    } else if same_text(id, "paste") {
        Action::Paste
    } else if same_text(id, "cut") {
        Action::Cut
    } else if same_text(id, "chmod") {
        Action::Chmod
    } else if same_text(id, "new_file") {
        Action::NewFile
    } else if same_text(id, "new_folder") {
        Action::NewFolder
    } else if same_text(id, "connect") {
        Action::Connect
    } else if same_text(id, "disconnect") {
        Action::Disconnect
    } else if same_text(id, "bookmarks") {
        Action::Bookmarks
    } else if same_text(id, "toggle_hidden") {
        Action::ToggleHidden
    } else if same_text(id, "toggle_preview") {
        Action::TogglePreview
    } else if same_text(id, "sync_panels") {
        Action::SyncPanels
    } else if same_text(id, "search") {
        Action::Search
    } else if same_text(id, "select_all") {
        Action::SelectAll
    } else if same_text(id, "deselect") {
        Action::Deselect
    } else if same_text(id, "settings") {
        Action::Settings
    } else if same_text(id, "quit") {
        Action::Exit
    } else {
        Action::Nothing
    }
}

/// Whether the `i`-th command matches a lower-case query: every command
/// matches the empty query; otherwise its lower-case label or identifier
/// must contain the query.
pub open spec fn palette_matches(i: int, q: Seq<char>) -> bool {
    q.len() == 0 || contains_seq(str_lowercase(palette_label(i)), q) || contains_seq(
        str_lowercase(palette_id(i)),
        q,
    )
}

/// The indices, below `k`, of the commands that match the query, ascending.
pub open spec fn matching_indices(k: nat, q: Seq<char>) -> Seq<usize>
    decreases k,
{
    if k == 0 {
        seq![]
    } else {
        let rest = matching_indices((k - 1) as nat, q);
        if palette_matches(k - 1, q) {
            rest.push((k - 1) as usize)
        } else {
            rest
        }
    }
}

/// Lists the commands that match the palette's filter (compared in lower
/// case) and keeps the highlight within the list.
pub fn refilter_palette(state: &mut CommandPaletteState)
    ensures
        final(state).filter == old(state).filter,
        final(state).filtered_indices@ == matching_indices(
            palette_count() as nat,
            str_lowercase(old(state).filter@),
        ),
        final(state).selected == if old(state).selected >= final(state).filtered_indices.len() {
            if final(state).filtered_indices.len() > 0 {
                (final(state).filtered_indices.len() - 1) as usize
            } else {
                0
            }
        } else {
            old(state).selected
        },
{
    let query = lowercase(state.filter.as_str());
    let mut out: Vec<usize> = Vec::new();
    let mut i: usize = 0;
    while i < 19
        invariant
            i <= 19,
            query@ == str_lowercase(state.filter@),
            out@ == matching_indices(i as nat, query@),
        decreases 19 - i,
    {
        let keep = if query.as_str().is_empty() {
            true
        } else {
            let label = lowercase(palette_label_of(i));
            let id = lowercase(palette_id_of(i));
            str_contains(label.as_str(), query.as_str()) || str_contains(id.as_str(), query.as_str())
        };
        if keep {
            out.push(i);
        }
        i = i + 1;
    }
    state.filtered_indices = out;
    if state.selected >= state.filtered_indices.len() {
        state.selected = state.filtered_indices.len().saturating_sub(1);
    }
}

/// What running the command `id` does.
pub fn execute_palette_action<P: Backends>(context: &mut Context, action_id: &str, pool: &P) -> (r: Effect)
    requires
        action_ready(*old(context)),
    ensures
        post_action(*old(context), *final(context), palette_action_for(action_id@), r),
        action_answered(*pool, *old(context), *final(context), palette_action_for(action_id@), r),
{
    let action = palette_action_of(action_id);
    perform_action(context, action, pool)
}

/// The palette of `c` now has filter `f` and has been listed again for it.
pub open spec fn palette_refiltered(c: Context, n: Context, s: CommandPaletteState, f: Seq<char>) -> bool {
    &&& n.command_palette matches Some(t) && t.filter@ == f && t.filtered_indices@ == matching_indices(
        palette_count() as nat,
        str_lowercase(f),
    ) && t.selected == if s.selected >= t.filtered_indices.len() {
        if t.filtered_indices.len() > 0 {
            (t.filtered_indices.len() - 1) as usize
        } else {
            0
        }
    } else {
        s.selected
    }
    &&& n == Context { command_palette: n.command_palette, ..c }
}

/// Every listed index names a command.
pub open spec fn palette_ready(c: Context) -> bool {
    c.command_palette matches Some(s) ==> forall|i: int|
        0 <= i < s.filtered_indices.len() ==> #[trigger] s.filtered_indices@[i] < palette_count()
}

/// What a key does in the command palette: Esc closes it, Up and Down move
/// the highlight within the list, typing and Backspace edit the filter (the
/// list follows), Enter closes the palette and runs the highlighted command.
/// Without a palette the screen goes back to the panels.
pub open spec fn post_palette_event(c: Context, n: Context, key: KeyEvent, r: Effect) -> bool {
    match c.command_palette {
        None => n == Context { ui_state: UiState::Normal, ..c } && r is Nothing,
        Some(s) => match key.code {
            KeyCode::Esc => n == Context { command_palette: None, ui_state: UiState::Normal, ..c }
                && r is Nothing,
            KeyCode::Up => r is Nothing && n == Context {
                command_palette: Some(
                    CommandPaletteState {
                        selected: if s.selected > 0 {
                            (s.selected - 1) as usize
                        } else {
                            s.selected
                        },
                        ..s
                    },
                ),
                ..c
            },
            KeyCode::Down => r is Nothing && n == Context {
                command_palette: Some(
                    CommandPaletteState {
                        selected: if s.filtered_indices.len() > 0 && s.selected + 1
                            < s.filtered_indices.len() {
                            (s.selected + 1) as usize
                        } else {
                            s.selected
                        },
                        ..s
                    },
                ),
                ..c
            },
            KeyCode::Enter => if s.selected < s.filtered_indices.len() {
                post_action(
                    Context { command_palette: None, ui_state: UiState::Normal, ..c },
                    n,
                    palette_action_for(palette_id(s.filtered_indices@[s.selected as int] as int)),
                    r,
                )
            } else {
                n == c && r is Nothing
            },
            KeyCode::Backspace => r is Nothing && if s.filter@.len() > 0 {
                palette_refiltered(c, n, s, s.filter@.drop_last())
            } else {
                n == c
            },
            KeyCode::Char(ch) => r is Nothing && palette_refiltered(c, n, s, s.filter@.push(ch)),
            _ => n == c && r is Nothing,
        },
    }
}

/// Handles a key in the command palette.
pub fn handle_command_palette_event<P: Backends>(context: &mut Context, key_event: KeyEvent, pool: &P) -> (r: Effect)
    requires
        action_ready(*old(context)),
        palette_ready(*old(context)),
    ensures
        post_palette_event(*old(context), *final(context), key_event, r),
{
    let mut state = match context.command_palette.take() {
        Some(s) => s,
        None => {
            context.set_ui_state(UiState::Normal);
            return Effect::Nothing;
        },
    };
    match key_event.code {
        KeyCode::Esc => {
            context.set_ui_state(UiState::Normal);
            Effect::Nothing
        },
        KeyCode::Up => {
            if state.selected > 0 {
                state.selected = state.selected - 1;
            }
            context.command_palette = Some(state);
            Effect::Nothing
        },
        KeyCode::Down => {
            if state.filtered_indices.len() > 0 && state.selected < state.filtered_indices.len() - 1 {
                state.selected = state.selected + 1;
            }
            context.command_palette = Some(state);
            Effect::Nothing
        },
        KeyCode::Enter => {
            if state.selected < state.filtered_indices.len() {
                let action_idx = state.filtered_indices[state.selected];
                let action_id = palette_id_of(action_idx);
                context.set_ui_state(UiState::Normal);
                execute_palette_action(context, action_id, pool)
            } else {
                context.command_palette = Some(state);
                Effect::Nothing
            }
        },
        KeyCode::Backspace => {
            if !state.filter.as_str().is_empty() {
                pop_char(&mut state.filter);
                refilter_palette(&mut state);
            }
            context.command_palette = Some(state);
            Effect::Nothing
        },
        KeyCode::Char(ch) => {
            push_char(&mut state.filter, ch);
            refilter_palette(&mut state);
            context.command_palette = Some(state);
            Effect::Nothing
        },
        _ => {
            context.command_palette = Some(state);
            Effect::Nothing
        },
    }
}

} // verus!
