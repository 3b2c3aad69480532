//! Keys in the search mode and in the popups over the panels.
use vstd::prelude::*;

use crate::backend::FilesystemBackend;
use crate::context::{unit_result, visible_items, Context, PanelState, UiState};
use crate::event_handler::actions::{active_panel_is, post_move_down, post_move_up, status_is};
use crate::event_handler::clipboard::{
    execute_pending_paste, pending_paste_answered, post_delete, post_pending_paste, spawn_delete_operation,
};
use crate::event_handler::{Backends, Effect};
use crate::file_operation::{
    file_created, handle_create_directory, handle_create_file, handle_rename, post_create_file, post_created,
    post_renamed,
};
use crate::keys::{KeyCode, KeyEvent};
use crate::text::{
    char_code, concat, concat3, octal, octal_string, parse_unsigned, parse_unsigned_str, pop_char,
    push_char,
};

verus! {

/// Position of the first occurrence of `x` in `s`.
pub open spec fn first_index(s: Seq<Seq<char>>, x: Seq<char>) -> Option<int>
    decreases s.len(),
{
    if s.len() == 0 {
        None
    } else {
        match first_index(s.drop_last(), x) {
            Some(i) => Some(i),
            None => if s.last() == x {
                Some(s.len() - 1)
            } else {
                None
            },
        }
    }
}

/// What a key does in the search mode: typing edits the filter of the
/// active panel (the visible items follow it), Enter leaves the mode with
/// the filter cleared and the cursor kept on the item it was on, Esc leaves
/// it with the filter cleared, the arrows move the cursor.
pub open spec fn post_search(c: Context, n: Context, key: KeyEvent) -> bool {
    let p = c.spec_active();
    let q = n.spec_active();
    match key.code {
        KeyCode::Backspace => if p.filter@.len() > 0 {
            &&& q.filter@ == p.filter@.drop_last()
            &&& q.filtered_items.deep_view() == visible_items(p.items.deep_view(), q.filter@)
            &&& active_panel_is(
                c,
                n,
                PanelState { filter: q.filter, filtered_items: q.filtered_items, state: 0, ..p },
            )
            &&& n == Context { panels: n.panels, ..c }
        } else {
            n == c
        },
        KeyCode::Char(ch) => {
            &&& q.filter@ == p.filter@.push(ch)
            &&& q.filtered_items.deep_view() == visible_items(p.items.deep_view(), q.filter@)
            &&& active_panel_is(
                c,
                n,
                PanelState { filter: q.filter, filtered_items: q.filtered_items, state: 0, ..p },
            )
            &&& n == Context { panels: n.panels, ..c }
        },
        KeyCode::Enter => {
            &&& q.filter@.len() == 0
            &&& q.filtered_items@ == p.items@
            &&& q.state == match p.spec_selected_item() {
                Some(name) => match first_index(p.items.deep_view(), name) {
                    Some(i) => i,
                    None => 0,
                },
                None => 0,
            }
            &&& active_panel_is(
                c,
                n,
                PanelState { filter: q.filter, filtered_items: q.filtered_items, state: q.state, ..p },
            )
            &&& n == Context { panels: n.panels, ui_state: UiState::Normal, ..c }
        },
        KeyCode::Esc => {
            &&& q.filter@.len() == 0
            &&& q.filtered_items@ == p.items@
            &&& active_panel_is(
                c,
                n,
                PanelState { filter: q.filter, filtered_items: q.filtered_items, state: 0, ..p },
            )
            &&& n == Context { panels: n.panels, ui_state: UiState::Normal, ..c }
        },
        KeyCode::Down => post_move_down(c, n),
        KeyCode::Up => post_move_up(c, n),
        _ => n == c,
    }
}

/// Position of the first item equal to `name`.
fn position_of(items: &Vec<String>, name: &String) -> (r: Option<usize>)
    ensures
        r matches Some(i) ==> first_index(items.deep_view(), name@) == Some(i as int),
        r is None ==> first_index(items.deep_view(), name@) is None,
{
    let mut i: usize = 0;
    while i < items.len()
        invariant
            i <= items.len(),
            first_index(items.deep_view().take(i as int), name@) is None,
        decreases items.len() - i,
    {
        let ghost t = items.deep_view().take(i + 1);
        assert(t.drop_last() == items.deep_view().take(i as int));
        if items[i] == *name {
            proof {
                lemma_first_index_prefix(items.deep_view(), name@, i + 1);
            }
            return Some(i);
        }
        i = i + 1;
    }
    assert(items.deep_view().take(i as int) == items.deep_view());
    None
}

/// The first occurrence found in a prefix is the first occurrence in the whole.
proof fn lemma_first_index_prefix(s: Seq<Seq<char>>, x: Seq<char>, k: int)
    requires
        0 <= k <= s.len(),
        first_index(s.take(k), x) is Some,
    ensures
        first_index(s, x) == first_index(s.take(k), x),
    decreases s.len() - k,
{
    if k < s.len() {
        assert(s.take(k + 1).drop_last() == s.take(k));
        lemma_first_index_prefix(s, x, k + 1);
    } else {
        assert(s.take(k) == s);
    }
}

/// Handles a key in the search mode.
pub fn handle_search_event(context: &mut Context, key_event: KeyEvent)
    requires
        old(context).active_panel < 2,
    ensures
        post_search(*old(context), *final(context), key_event),
{
    let a = context.active_panel;
    match key_event.code {
        KeyCode::Backspace => {
            if !context.panels[a].filter.as_str().is_empty() {
                pop_char(&mut context.panels[a].filter);
                context.panels[a].apply_filter();
            }
        },
        KeyCode::Enter => {
            let selected_name = match context.panels[a].get_selected_item() {
                Some(item) => Some(item.clone()),
                None => None,
            };
            context.panels[a].clear_filter();
            match selected_name {
                Some(name) => {
                    match position_of(&context.panels[a].items, &name) {
                        Some(pos) => {
                            context.panels[a].state = pos;
                        },
                        None => {},
                    }
                },
                None => {},
            }
            context.set_ui_state(UiState::Normal);
        },
        KeyCode::Esc => {
            context.panels[a].clear_filter();
            context.set_ui_state(UiState::Normal);
        },
        KeyCode::Down => {
            context.move_down();
        },
        KeyCode::Up => {
            context.move_up();
        },
        KeyCode::Char(c) => {
            push_char(&mut context.panels[a].filter, c);
            context.panels[a].apply_filter();
        },
        _ => {},
    }
}

/// The three popups that take a name.
#[derive(Debug, PartialEq, Eq, Structural, Clone, Copy)]
pub enum InputPopup {
    CreateDirectory,
    CreateFile,
    Rename,
}

/// The message shown when the popup's action succeeds.
pub open spec fn success_text(kind: InputPopup) -> Seq<char> {
    match kind {
        InputPopup::CreateDirectory => "Folder created"@,
        InputPopup::CreateFile => "File created"@,
        InputPopup::Rename => "Renamed successfully"@,
    }
}

/// The prefix of the message shown when the popup's action fails.
pub open spec fn failure_prefix(kind: InputPopup) -> Seq<char> {
    match kind {
        InputPopup::CreateDirectory => "Create failed"@,
        InputPopup::CreateFile => "Create failed"@,
        InputPopup::Rename => "Rename failed"@,
    }
}

/// What a key does in a name popup: typing edits the input, Esc closes the
/// popup and clears the input, Enter performs the action. On success the
/// popup is closed, the input cleared, the active listing marked stale (and
/// after creating, the cursor put on the top) with a message; on failure
/// the popup is closed, the input cleared and the error shown.
pub open spec fn post_input_popup(c: Context, n: Context, key: KeyEvent, kind: InputPopup) -> bool {
    let p = c.spec_active();
    match key.code {
        KeyCode::Backspace => n.input@ == (if c.input@.len() > 0 {
            c.input@.drop_last()
        } else {
            c.input@
        }) && n == Context { input: n.input, ..c },
        KeyCode::Char(ch) => n.input@ == c.input@.push(ch) && n == Context { input: n.input, ..c },
        KeyCode::Esc => n.input@.len() == 0 && n == Context {
            ui_state: UiState::Normal,
            input: n.input,
            ..c
        },
        KeyCode::Enter => {
            &&& n.input@.len() == 0
            &&& {
                ||| status_is(n, success_text(kind)) && active_panel_is(
                    c,
                    n,
                    PanelState {
                        items_dirty: true,
                        state: if kind == InputPopup::Rename {
                            p.state
                        } else {
                            0
                        },
                        ..p
                    },
                ) && n == Context {
                    ui_state: UiState::Normal,
                    input: n.input,
                    panels: n.panels,
                    status_message: n.status_message,
                    ..c
                }
                ||| (exists|e: Seq<char>| #[trigger] status_is(n, failure_prefix(kind) + ": "@ + e))
                    && n == Context {
                    ui_state: UiState::Normal,
                    input: n.input,
                    status_message: n.status_message,
                    ..c
                }
            }
        },
        _ => n == c,
    }
}

/// What a name popup's action answers on the backend's answers: creating a
/// folder is the backend's `create_dir` of the input joined to the active
/// panel's path; creating a file refuses an empty name, then an existing
/// target (as the backend's `path_exists` answers), then is its
/// `create_file`; renaming refuses an empty name and a missing item, then
/// is its `rename` of the item under the cursor to the joined name.
pub open spec fn popup_action_answered<B: FilesystemBackend>(fs: B, c: Context, kind: InputPopup, o: Result<(), Seq<char>>) -> bool {
    let p = c.spec_active();
    let target = p.backend.spec_join(p.path@, c.input@);
    match kind {
        InputPopup::CreateDirectory => fs.create_dir_answer(target, o),
        InputPopup::CreateFile => if c.input@.len() == 0 {
            o == Err::<(), Seq<char>>("Filename cannot be empty"@)
        } else {
            exists|ex: Result<bool, Seq<char>>|
                #[trigger] fs.exists_answer(target, ex) && if ex == Ok::<bool, Seq<char>>(true) {
                    o == Err::<(), Seq<char>>("Already exists: "@ + target)
                } else {
                    fs.create_file_answer(target, o)
                }
        },
        InputPopup::Rename => if c.input@.len() == 0 {
            o == Err::<(), Seq<char>>("Name cannot be empty"@)
        } else if p.spec_selected_item() is None {
            o == Err::<(), Seq<char>>("No item selected"@)
        } else {
            fs.rename_answer(p.item_path(p.spec_selected_item()->0), target, o)
        },
    }
}

/// Enter in a name popup reports what its action answered
/// (`popup_action_answered`): the success text, or the failure prefix and
/// the error.
pub open spec fn input_popup_answered<B: FilesystemBackend>(fs: B, c: Context, n: Context, key: KeyEvent, kind: InputPopup) -> bool {
    key.code == KeyCode::Enter ==> exists|o: Result<(), Seq<char>>|
        #[trigger] popup_action_answered(fs, c, kind, o) && (o is Ok ==> status_is(n, success_text(kind))) && (
        o matches Err(e) ==> status_is(n, failure_prefix(kind) + ": "@ + e))
}

/// Handles a key in one of the name popups.
pub fn handle_input_popup<B: FilesystemBackend>(
    context: &mut Context,
    key_event: KeyEvent,
    kind: InputPopup,
    fs: &B,
)
    requires
        old(context).active_panel < 2,
    ensures
        post_input_popup(*old(context), *final(context), key_event, kind),
        input_popup_answered(*fs, *old(context), *final(context), key_event, kind),
{
    match key_event.code {
        KeyCode::Backspace => {
            pop_char(&mut context.input);
        },
        KeyCode::Enter => {
            let ghost c = *old(context);
            let ghost p = c.spec_active();
            let ghost target = p.backend.spec_join(p.path@, c.input@);
            let ghost mut o: Result<(), Seq<char>> = Ok(());
            let result = match kind {
                InputPopup::CreateDirectory => {
                    let r = handle_create_directory(context, fs);
                    proof {
                        o = choose|w: Result<(), Seq<char>>|
                            #[trigger] fs.create_dir_answer(target, w) && post_created(c, *context, w, r);
                    }
                    r
                },
                InputPopup::CreateFile => {
                    let r = handle_create_file(context, fs);
                    proof {
                        if c.input@.len() == 0 {
                            o = Err::<(), Seq<char>>("Filename cannot be empty"@);
                        } else {
                            let ex = choose|ex: Result<bool, Seq<char>>|
                                #[trigger] fs.exists_answer(target, ex) && file_created(*fs, c, *context, ex, r);
                            if ex == Ok::<bool, Seq<char>>(true) {
                                o = Err::<(), Seq<char>>("Already exists: "@ + target);
                            } else {
                                o = choose|w: Result<(), Seq<char>>|
                                    #[trigger] post_create_file(c, *context, ex, w, r) && (ex != Ok::<
                                        bool,
                                        Seq<char>,
                                    >(true) ==> fs.create_file_answer(target, w));
                            }
                            assert(popup_action_answered(*fs, c, kind, o));
                        }
                    }
                    r
                },
                InputPopup::Rename => {
                    let r = handle_rename(context, fs);
                    proof {
                        if c.input@.len() == 0 {
                            o = Err::<(), Seq<char>>("Name cannot be empty"@);
                        } else if p.spec_selected_item() is None {
                            o = Err::<(), Seq<char>>("No item selected"@);
                        } else {
                            o = choose|w: Result<(), Seq<char>>|
                                #[trigger] fs.rename_answer(p.item_path(p.spec_selected_item()->0), target, w)
                                    && post_renamed(c, *context, w, r);
                        }
                    }
                    r
                },
            };
            assert(popup_action_answered(*fs, c, kind, o));
            assert(o is Ok ==> result is Ok);
            assert(o matches Err(e) ==> (result matches Err(m) && m@ == e));
            match result {
                Ok(()) => {
                    let a = context.active_panel;
                    context.panels[a].invalidate_directory_cache();
                    let m = match kind {
                        InputPopup::CreateDirectory => "Folder created",
                        InputPopup::CreateFile => "File created",
                        InputPopup::Rename => "Renamed successfully",
                    };
                    context.set_status_message(m);
                },
                Err(e) => {
                    context.set_ui_state(UiState::Normal);
                    context.set_input(String::new());
                    let prefix = match kind {
                        InputPopup::CreateDirectory => "Create failed",
                        InputPopup::CreateFile => "Create failed",
                        InputPopup::Rename => "Rename failed",
                    };
                    let m = concat3(prefix, ": ", e.as_str());
                    context.set_status_message(m.as_str());
                    assert(status_is(*context, failure_prefix(kind) + ": "@ + e@));
                },
            }
        },
        KeyCode::Esc => {
            context.set_ui_state(UiState::Normal);
            context.set_input(String::new());
        },
        KeyCode::Char(c) => {
            push_char(&mut context.input, c);
        },
        _ => {},
    }
}

/// `input_popup_answered` of a filesystem that the pool gives for the
/// active panel's backend.
pub open spec fn pool_popup_answered<P: Backends>(pool: P, c: Context, n: Context, key: KeyEvent, kind: InputPopup) -> bool {
    exists|fs: P::Fs|
        #[trigger] pool.gives(c.spec_active().backend, fs) && input_popup_answered(fs, c, n, key, kind)
}

/// Handles a key in the new-folder popup.
pub fn handle_popup_event<P: Backends>(context: &mut Context, key_event: KeyEvent, pool: &P)
    requires
        old(context).active_panel < 2,
    ensures
        post_input_popup(*old(context), *final(context), key_event, InputPopup::CreateDirectory),
        pool_popup_answered(*pool, *old(context), *final(context), key_event, InputPopup::CreateDirectory),
{
    let fs = pool.get(&context.active().backend);
    handle_input_popup(context, key_event, InputPopup::CreateDirectory, fs);
    assert(pool.gives(old(context).spec_active().backend, *fs));
}

/// Handles a key in the new-file popup.
pub fn handle_file_popup_event<P: Backends>(context: &mut Context, key_event: KeyEvent, pool: &P)
    requires
        old(context).active_panel < 2,
    ensures
        post_input_popup(*old(context), *final(context), key_event, InputPopup::CreateFile),
        pool_popup_answered(*pool, *old(context), *final(context), key_event, InputPopup::CreateFile),
{
    let fs = pool.get(&context.active().backend);
    handle_input_popup(context, key_event, InputPopup::CreateFile, fs);
    assert(pool.gives(old(context).spec_active().backend, *fs));
}

/// Handles a key in the rename popup.
pub fn handle_rename_popup_event<P: Backends>(context: &mut Context, key_event: KeyEvent, pool: &P)
    requires
        old(context).active_panel < 2,
    ensures
        post_input_popup(*old(context), *final(context), key_event, InputPopup::Rename),
        pool_popup_answered(*pool, *old(context), *final(context), key_event, InputPopup::Rename),
{
    let fs = pool.get(&context.active().backend);
    handle_input_popup(context, key_event, InputPopup::Rename, fs);
    assert(pool.gives(old(context).spec_active().backend, *fs));
}

/// What a key does in the permissions popup: octal digits are typed (at
/// most 4 bytes of input), Backspace deletes, Esc closes; Enter applies a
/// mode of at most 0o7777 to the item under the cursor and reports the
/// outcome, or reports an invalid mode; either way the popup closes and the
/// input is cleared.
/// What the backend's answer to a permission change to mode `m` does: a
/// success is reported ("Permissions changed to <octal m>") and the active
/// panel's listing marked stale; an error is reported as "chmod failed: <error>".
pub open spec fn post_chmod_done(c: Context, n: Context, m: nat, o: Result<(), Seq<char>>) -> bool {
    match o {
        Ok(()) => {
            &&& status_is(n, "Permissions changed to "@ + octal(m))
            &&& active_panel_is(c, n, PanelState { items_dirty: true, ..c.spec_active() })
            &&& n == Context { panels: n.panels, status_message: n.status_message, ..c }
        },
        Err(e) => status_is(n, "chmod failed: "@ + e) && n == Context { status_message: n.status_message, ..c },
    }
}

/// Takes the backend's answer to a permission change to mode `m` (`post_chmod_done`).
pub fn chmod_outcome(context: &mut Context, m: u64, o: Result<(), String>)
    requires
        old(context).active_panel < 2,
    ensures
        post_chmod_done(*old(context), *final(context), m as nat, unit_result(o)),
{
    match o {
        Ok(()) => {
            let a = context.active_panel;
            context.panels[a].invalidate_directory_cache();
            let msg = concat("Permissions changed to ", octal_string(m).as_str());
            context.set_status_message(msg.as_str());
        },
        Err(e) => {
            let msg = concat("chmod failed: ", e.as_str());
            context.set_status_message(msg.as_str());
        },
    }
}

pub open spec fn post_chmod_popup(c: Context, n: Context, key: KeyEvent) -> bool {
    let p = c.spec_active();
    match key.code {
        KeyCode::Backspace => n.input@ == (if c.input@.len() > 0 {
            c.input@.drop_last()
        } else {
            c.input@
        }) && n == Context { input: n.input, ..c },
        KeyCode::Char(ch) => if 48 <= (ch as int) <= 55 && (vstd::utf8::encode_utf8(c.input@).len() as usize) < 4 {
            n.input@ == c.input@.push(ch) && n == Context { input: n.input, ..c }
        } else {
            n == c
        },
        KeyCode::Esc => n.input@.len() == 0 && n == Context {
            ui_state: UiState::Normal,
            input: n.input,
            ..c
        },
        KeyCode::Enter => {
            &&& n.input@.len() == 0
            &&& n.ui_state == UiState::Normal
            &&& match parse_unsigned(c.input@, 8, 0xFFFF_FFFF) {
                Some(m) => if m <= 0o7777 {
                    match p.spec_selected_item() {
                        Some(item) => exists|o: Result<(), Seq<char>>, mid: Context|
                            #[trigger] post_chmod_done(c, mid, m, o) && n == Context {
                                ui_state: UiState::Normal,
                                input: n.input,
                                ..mid
                            },
                        None => n == Context { ui_state: UiState::Normal, input: n.input, ..c },
                    }
                } else {
                    status_is(n, "Invalid octal mode (use e.g. 755)"@) && n == Context {
                        ui_state: UiState::Normal,
                        input: n.input,
                        status_message: n.status_message,
                        ..c
                    }
                },
                None => status_is(n, "Invalid octal mode (use e.g. 755)"@) && n == Context {
                    ui_state: UiState::Normal,
                    input: n.input,
                    status_message: n.status_message,
                    ..c
                },
            }
        },
        _ => n == c,
    }
}

/// Enter in the permissions popup with a valid mode `m` (at most 0o7777)
/// and an item under the cursor asks the active panel's backend to change
/// that item's permissions to exactly `m`, and its answer to that request
/// is what `post_chmod_done` reports.
pub open spec fn chmod_answered<P: Backends>(pool: P, c: Context, n: Context, key: KeyEvent) -> bool {
    let p = c.spec_active();
    key.code == KeyCode::Enter ==> match parse_unsigned(c.input@, 8, 0xFFFF_FFFF) {
        Some(m) => m <= 0o7777 ==> match p.spec_selected_item() {
            Some(item) => exists|fs: P::Fs, o: Result<(), Seq<char>>, mid: Context|
                #![trigger fs.chmod_answer(p.item_path(item), m as u32, o), post_chmod_done(c, mid, m, o)]
                pool.gives(p.backend, fs) && fs.chmod_answer(p.item_path(item), m as u32, o) && post_chmod_done(
                    c,
                    mid,
                    m,
                    o,
                ) && n == Context { ui_state: UiState::Normal, input: n.input, ..mid },
            None => true,
        },
        None => true,
    }
}

/// Handles a key in the permissions popup.
pub fn handle_chmod_popup_event<P: Backends>(context: &mut Context, key_event: KeyEvent, pool: &P)
    requires
        old(context).active_panel < 2,
    ensures
        post_chmod_popup(*old(context), *final(context), key_event),
        chmod_answered(*pool, *old(context), *final(context), key_event),
{
    match key_event.code {
        KeyCode::Backspace => {
            pop_char(&mut context.input);
        },
        KeyCode::Enter => {
            let mode = parse_unsigned_str(context.input.as_str(), 8, 0xFFFF_FFFF);
            match mode {
                Some(m) => {
                    if m <= 0o7777 {
                        let m32 = m as u32;
                        match context.active().selected_item_path() {
                            Some(path) => {
                                let fs = pool.get(&context.active().backend);
                                let o = fs.chmod(path.as_str(), m32);
                                let ghost ov = unit_result(o);
                                chmod_outcome(context, m, o);
                                let ghost mid = *context;
                                context.set_ui_state(UiState::Normal);
                                context.set_input(String::new());
                                assert(post_chmod_done(*old(context), mid, m as nat, ov));
                                assert(fs.chmod_answer(path@, m32, ov));
                                assert(pool.gives(old(context).spec_active().backend, *fs));
                            },
                            None => {
                                context.set_ui_state(UiState::Normal);
                                context.set_input(String::new());
                            },
                        }
                    } else {
                        context.set_status_message("Invalid octal mode (use e.g. 755)");
                        context.set_ui_state(UiState::Normal);
                        context.set_input(String::new());
                    }
                },
                None => {
                    context.set_status_message("Invalid octal mode (use e.g. 755)");
                    context.set_ui_state(UiState::Normal);
                    context.set_input(String::new());
                },
            }
        },
        KeyCode::Esc => {
            context.set_ui_state(UiState::Normal);
            context.set_input(String::new());
        },
        KeyCode::Char(c) => {
            let code = char_code(c);
            if 48 <= code && code <= 55 {
                if context.input.as_str().len() < 4 {
                    push_char(&mut context.input, c);
                }
            }
        },
        _ => {},
    }
}

/// What a key does in a yes/no confirmation, given what confirming and
/// cancelling do (`on_yes` and `on_no` relate the state before and after
/// them, with the effect they hand back): "y" confirms, "n" and Esc cancel,
/// Left and Right move the highlight to the confirming or the cancelling
/// button, Enter does what the highlighted button says. The dialog closes
/// on every choice.
pub open spec fn post_confirm(
    c: Context,
    n: Context,
    r: Effect,
    key: KeyEvent,
    on_yes: spec_fn(Context, Context, Effect) -> bool,
    on_no: spec_fn(Context, Context, Effect) -> bool,
) -> bool {
    match key.code {
        KeyCode::Char(ch) => if ch == 'y' {
            on_yes(
                Context {
                    ui_state: UiState::Normal,
                    confirm_popup_size: !c.confirm_popup_size,
                    ..c
                },
                n,
                r,
            )
        } else if ch == 'n' {
            on_no(Context { ui_state: UiState::Normal, ..c }, n, r)
        } else {
            n == c && r is Nothing
        },
        KeyCode::Esc => on_no(Context { ui_state: UiState::Normal, ..c }, n, r),
        KeyCode::Left => n == Context { confirm_popup_size: true, ..c } && r is Nothing,
        KeyCode::Right => n == Context { confirm_popup_size: false, ..c } && r is Nothing,
        KeyCode::Enter => if c.confirm_popup_size {
            exists|m: Context|
                on_yes(Context { ui_state: UiState::Normal, ..c }, m, r) && n == (Context {
                    confirm_popup_size: !m.confirm_popup_size,
                    ..m
                })
        } else {
            on_no(Context { ui_state: UiState::Normal, ..c }, n, r)
        },
        _ => n == c && r is Nothing,
    }
}

/// Cancelling a delete changes nothing.
pub open spec fn post_keep(c: Context, n: Context, r: Effect) -> bool {
    n == c && r is Nothing
}

/// Cancelling an overwrite drops the waiting paste.
pub open spec fn post_cancel_paste(c: Context, n: Context, r: Effect) -> bool {
    status_is(n, "Paste cancelled"@) && n == Context {
        pending_paste: None,
        status_message: n.status_message,
        ..c
    } && r is Nothing
}

/// Handles a key in the delete confirmation.
pub fn handle_confirm_popup_event(context: &mut Context, key_event: KeyEvent) -> (r: Effect)
    requires
        old(context).active_panel < 2,
    ensures
        post_confirm(
            *old(context),
            *final(context),
            r,
            key_event,
            |c: Context, n: Context, r: Effect| post_delete(c, n, r),
            |c: Context, n: Context, r: Effect| post_keep(c, n, r),
        ),
{
    match key_event.code {
        KeyCode::Char(ch) => {
            if ch == 'y' {
                context.set_ui_state(UiState::Normal);
                context.set_confirm_button_selected();
                spawn_delete_operation(context)
            } else if ch == 'n' {
                context.set_ui_state(UiState::Normal);
                Effect::Nothing
            } else {
                Effect::Nothing
            }
        },
        KeyCode::Esc => {
            context.set_ui_state(UiState::Normal);
            Effect::Nothing
        },
        KeyCode::Left => {
            if !context.confirm_popup_size {
                context.set_confirm_button_selected();
            }
            Effect::Nothing
        },
        KeyCode::Right => {
            if context.confirm_popup_size {
                context.set_confirm_button_selected();
            }
            Effect::Nothing
        },
        KeyCode::Enter => {
            context.set_ui_state(UiState::Normal);
            if context.confirm_popup_size {
                let r = spawn_delete_operation(context);
                let ghost m = *context;
                context.set_confirm_button_selected();
                assert(post_delete(Context { ui_state: UiState::Normal, ..*old(context) }, m, r));
                r
            } else {
                Effect::Nothing
            }
        },
        _ => Effect::Nothing,
    }
}

/// Handles a key in the overwrite confirmation of a paste.
pub fn handle_overwrite_popup_event<P: Backends>(context: &mut Context, key_event: KeyEvent, pool: &P) -> (r: Effect)
    requires
        old(context).active_panel < 2,
    ensures
        post_confirm(
            *old(context),
            *final(context),
            r,
            key_event,
            |c: Context, n: Context, r: Effect| post_pending_paste(c, n, r),
            |c: Context, n: Context, r: Effect| post_cancel_paste(c, n, r),
        ),
        post_confirm(
            *old(context),
            *final(context),
            r,
            key_event,
            |c: Context, n: Context, r: Effect| pending_paste_answered(*pool, c, n, r),
            |c: Context, n: Context, r: Effect| post_cancel_paste(c, n, r),
        ),
{
    match key_event.code {
        KeyCode::Char(ch) => {
            if ch == 'y' {
                context.set_ui_state(UiState::Normal);
                context.set_confirm_button_selected();
                execute_pending_paste(context, pool)
            } else if ch == 'n' {
                context.set_ui_state(UiState::Normal);
                context.pending_paste = None;
                context.set_status_message("Paste cancelled");
                Effect::Nothing
            } else {
                Effect::Nothing
            }
        },
        KeyCode::Esc => {
            context.set_ui_state(UiState::Normal);
            context.pending_paste = None;
            context.set_status_message("Paste cancelled");
            Effect::Nothing
        },
        KeyCode::Left => {
            if !context.confirm_popup_size {
                context.set_confirm_button_selected();
            }
            Effect::Nothing
        },
        KeyCode::Right => {
            if context.confirm_popup_size {
                context.set_confirm_button_selected();
            }
            Effect::Nothing
        },
        KeyCode::Enter => {
            context.set_ui_state(UiState::Normal);
            if context.confirm_popup_size {
                let r = execute_pending_paste(context, pool);
                let ghost m = *context;
                context.set_confirm_button_selected();
                assert(post_pending_paste(Context { ui_state: UiState::Normal, ..*old(context) }, m, r));
                assert(pending_paste_answered(*pool, Context { ui_state: UiState::Normal, ..*old(context) }, m, r));
                r
            } else {
                context.pending_paste = None;
                context.set_status_message("Paste cancelled");
                Effect::Nothing
            }
        },
        _ => Effect::Nothing,
    }
}

} // verus!
