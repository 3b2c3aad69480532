//! Properties of the file manager that span several operations.
use vstd::prelude::*;

use crate::backend::{last_slash, lemma_last_slash, slash_file_name, slash_join, slash_parent};
use crate::config::ConnectionProfile;
use crate::context::{parent_entry, ClipboardMode, ConnectDialogState, Context, PanelState, UiState};
use crate::event_handler::actions::post_quit;
use crate::event_handler::clipboard::{post_copy_or_cut, post_paste};
use crate::event_handler::connect::{
    default_port_text, dialog_from_profile, post_connect_dialog, profile_from_dialog,
};
use crate::event_handler::main_handler::{main_action, post_action, post_main_event, Action};
use crate::event_handler::popups::post_search;
use crate::event_handler::{Effect, JobKind};
use crate::backend::DirEntryView;
use crate::file_operation::{dest_dir_choice, file_items, folder_items, listing_items, paste_source};
use crate::keys::{KeyCode, KeyEvent};
use crate::backend::{BackendRef, FileInfoView, FilesystemBackend};
use crate::background_op::{copied_across, copied_within, moved_across};
use crate::event_handler::Backends;
use crate::event_handler::actions::status_is;
use crate::event_handler::popups::{chmod_answered, post_chmod_done};
use crate::file_operation::{delete_outcome, paste_dir_answer};
use crate::text::{contains_seq, octal, parse_unsigned};
use crate::text::{ends_with_char, lex_le, lemma_lex_le_total_ordering, sorted_strs, starts_with_char, trim_end};

verus! {

/// Toggling the selection twice on the same item gives back the selection
/// the panel had, and changes nothing else.
pub proof fn law_toggle_selection_twice(p: PanelState, q: PanelState, r: PanelState)
    requires
        p.wf(),
        PanelState::post_toggle(p, q),
        PanelState::post_toggle(q, r),
    ensures
        r.selection() == p.selection(),
        r == (PanelState { selected: r.selected, ..p }),
{
    match p.spec_selected_item() {
        Some(item) => {
            assert(q.spec_selected_item() == Some(item));
            if item != parent_entry() {
                if p.selection().contains(item) {
                    assert(r.selection() =~= p.selection());
                } else {
                    assert(r.selection() =~= p.selection());
                }
            }
        },
        None => {},
    }
}

/// A name without '/' joined under a remote directory is the file name of
/// the joined path.
pub proof fn law_remote_join_then_file_name(base: Seq<char>, child: Seq<char>)
    requires
        child.len() > 0,
        forall|i: int| 0 <= i < child.len() ==> child[i] != '/',
    ensures
        slash_file_name(slash_join(base, child)) == child,
{
    let j = slash_join(base, child);
    assert(trim_end(j, '/') == j) by {
        assert(j.last() == child.last());
    }
    let pos = if ends_with_char(base, '/') { base.len() - 1 } else { base.len() as int };
    assert(j[pos] == '/');
    lemma_last_slash(j);
    assert(forall|k: int| pos < k < j.len() ==> j[k] != '/') by {
        assert forall|k: int| pos < k < j.len() implies j[k] != '/' by {
            assert(j[k] == child[k - pos - 1]);
        }
    }
    assert(last_slash(j) == Some(pos)) by {
        match last_slash(j) {
            Some(p) => {
                if p < pos {
                    assert(j[pos] == '/');
                }
            },
            None => {},
        }
    }
    assert(j.skip(pos + 1) =~= child);
}

/// The parent of a name joined under a remote directory (one that does not
/// end with '/') is that directory.
pub proof fn law_remote_join_then_parent(base: Seq<char>, child: Seq<char>)
    requires
        base.len() > 0,
        !ends_with_char(base, '/'),
        child.len() > 0,
        forall|i: int| 0 <= i < child.len() ==> child[i] != '/',
    ensures
        slash_parent(slash_join(base, child)) == Some(base),
{
    let j = slash_join(base, child);
    assert(trim_end(j, '/') == j) by {
        assert(j.last() == child.last());
    }
    let pos = base.len() as int;
    assert(j[pos] == '/');
    lemma_last_slash(j);
    assert(last_slash(j) == Some(pos)) by {
        match last_slash(j) {
            Some(p) => {
                if p > pos {
                    assert(j[p] == child[p - pos - 1]);
                }
            },
            None => {},
        }
    }
    assert(j.take(pos) =~= base);
}

/// Copy, then paste: the path of the item under the cursor is what the
/// paste works on. With nothing running, no selection and the cursor on an
/// item other than the parent entry whose path has a file name, pasting
/// either starts copying that path or waits for confirmation to overwrite
/// with that path as the source.
pub proof fn law_copy_then_paste(c: Context, n1: Context, n2: Context, r: Effect)
    requires
        c.active_panel < 2,
        c.active_operation is None,
        c.spec_active().selected@.len() == 0,
        c.spec_active().spec_selected_item() matches Some(item) && item != parent_entry()
            && c.spec_active().item_path(item).len() > 0
            && c.spec_active().backend.spec_file_name(c.spec_active().item_path(item)) is Some,
        post_copy_or_cut(c, n1, ClipboardMode::Copy),
        post_paste(n1, n2, r),
    ensures
        ({
            let item = c.spec_active().spec_selected_item()->0;
            let from = c.spec_active().item_path(item);
            ||| r matches Effect::Start(job) && (job.kind matches JobKind::Copy { from: f, .. } && f@ == from)
            ||| r is Nothing && (n2.pending_paste matches Some((f, _t, cut)) && f@ == from && !cut)
        }),
{
    let item = c.spec_active().spec_selected_item()->0;
    assert(n1.copy_path@ == c.spec_active().item_path(item));
    assert(paste_source(n1) == c.spec_active().backend);
    assert(n1.spec_active() == c.spec_active());
}

/// Switching panels twice comes back to the panel one started on.
pub proof fn law_toggle_panel_twice(c: Context, n: Context, m: Context, r1: Effect, r2: Effect)
    requires
        c.active_panel < 2,
        post_action(c, n, Action::TogglePanel, r1),
        post_action(n, m, Action::TogglePanel, r2),
    ensures
        m == c,
{
}

/// "q" or Esc on the panels, with no filter typed and no "g" pending, exits.
pub proof fn law_quit_exits(c: Context, n: Context, key: KeyEvent, r: Effect, now: u64)
    requires
        c.active_panel < 2,
        !c.pending_g,
        c.spec_active().filter@.len() == 0,
        key.code == KeyCode::Esc || key.code == KeyCode::Char('q'),
        post_main_event(c, n, key, r, now),
    ensures
        n.exit,
        r is Nothing,
{
    assert(main_action(key) == Action::Quit);
    let c1 = Context { status_message: None, pending_g: false, ..c };
    let m = choose|m: Context| #[trigger] post_action(c1, m, Action::Quit, r) && if m.show_preview {
        &&& m.active_panel < 2
        &&& crate::event_handler::actions::active_panel_is(m, n, n.spec_active())
        &&& PanelState::post_update_preview(m.spec_active(), n.spec_active(), now)
        &&& n == Context { panels: n.panels, ..m }
    } else {
        n == m
    };
    assert(post_quit(c1, m));
}

/// In the connection dialog, Shift+Tab undoes Tab.
pub proof fn law_backtab_undoes_tab(c: Context, n: Context, m: Context, k1: KeyEvent, k2: KeyEvent, r1: Effect, r2: Effect)
    requires
        c.connect_dialog matches Some(d) && d.focused_field < 6,
        k1.code == KeyCode::Tab,
        k2.code == KeyCode::BackTab,
        post_connect_dialog(c, n, k1, r1),
        post_connect_dialog(n, m, k2, r2),
    ensures
        m == c,
{
}

/// In the connection dialog, Tab undoes Shift+Tab.
pub proof fn law_tab_undoes_backtab(c: Context, n: Context, m: Context, k1: KeyEvent, k2: KeyEvent, r1: Effect, r2: Effect)
    requires
        c.connect_dialog matches Some(d) && d.focused_field < 6,
        k1.code == KeyCode::BackTab,
        k2.code == KeyCode::Tab,
        post_connect_dialog(c, n, k1, r1),
        post_connect_dialog(n, m, k2, r2),
    ensures
        m == c,
{
}

/// Switching the protocol twice gives back the protocol, with its usual port.
pub proof fn law_protocol_toggle_twice(c: Context, n: Context, m: Context, k1: KeyEvent, k2: KeyEvent, r1: Effect, r2: Effect)
    requires
        c.connect_dialog matches Some(d) && d.focused_field == 0,
        k1.code == KeyCode::Up || k1.code == KeyCode::Down,
        k2.code == KeyCode::Up || k2.code == KeyCode::Down,
        post_connect_dialog(c, n, k1, r1),
        post_connect_dialog(n, m, k2, r2),
    ensures
        m.connect_dialog matches Some(e) && e.protocol == c.connect_dialog->0.protocol && e.port@
            == default_port_text(e.protocol),
{
}

/// A dialog saved as a bookmark and loaded back shows the same protocol,
/// host, user and key path.
pub proof fn law_bookmark_round_trip(d: ConnectDialogState, name: Seq<char>, p: ConnectionProfile, e: ConnectDialogState)
    requires
        profile_from_dialog(p, name, d),
        dialog_from_profile(e, p),
    ensures
        e.protocol == d.protocol,
        e.host@ == d.host@,
        e.username@ == d.username@,
        e.key_path@ == d.key_path@,
{
    reveal_strlit("ftp");
    reveal_strlit("sftp");
    assert("sftp"@.len() == 4 && "ftp"@.len() == 3);
}

/// Leaving the search with Esc, after typing into it, shows every item again.
pub proof fn law_search_escape_restores(c: Context, n: Context, m: Context, k1: KeyEvent, k2: KeyEvent)
    requires
        c.active_panel < 2,
        k1.code is Char,
        k2.code == KeyCode::Esc,
        post_search(c, n, k1),
        post_search(n, m, k2),
    ensures
        m.spec_active().filter@.len() == 0,
        m.spec_active().filtered_items@ == c.spec_active().items@,
        m.ui_state == UiState::Normal,
{
}

/// Moving the cursor down and then up comes back to where it was.
pub proof fn law_down_then_up(c: Context, n: Context, m: Context, r1: Effect, r2: Effect)
    requires
        c.active_panel < 2,
        c.spec_active().state + 1 < c.spec_active().filtered_items.len(),
        post_action(c, n, Action::Down, r1),
        post_action(n, m, Action::Up, r2),
    ensures
        m == c,
{
    let a = c.active_panel as int;
    assert(m.panels[a] == c.panels[a]);
    assert(m.panels[1 - a] == c.panels[1 - a]);
    broadcast use vstd::array::axiom_array_ext_equal;
    assert(m.panels =~= c.panels);
}

/// Sorting strings keeps exactly the strings there were.
proof fn lemma_sorted_strs_members(s: Seq<Seq<char>>, x: Seq<char>)
    ensures
        sorted_strs(s).contains(x) <==> s.contains(x),
{
    broadcast use vstd::seq_lib::group_to_multiset_ensures;

    lemma_lex_le_total_ordering();
    s.lemma_sort_by_ensures(|a: Seq<char>, b: Seq<char>| lex_le(a, b));
    if s.contains(x) {
        assert(s.to_multiset().count(x) > 0);
        assert(sorted_strs(s).to_multiset().count(x) > 0);
    }
}

/// Every directory item of a listing is a shown entry's name with a '/'.
proof fn lemma_folder_items_shown(es: Seq<DirEntryView>, h: bool, x: Seq<char>)
    requires
        folder_items(es, h).contains(x),
    ensures
        exists|i: int| 0 <= i < es.len() && crate::file_operation::shown(es[i], h) && x == es[i].name + seq!['/'],
    decreases es.len(),
{
    let rest = folder_items(es.drop_last(), h);
    if rest.contains(x) {
        lemma_folder_items_shown(es.drop_last(), h, x);
        let i = choose|i: int| 0 <= i < es.drop_last().len() && crate::file_operation::shown(es.drop_last()[i], h)
            && x == es.drop_last()[i].name + seq!['/'];
        assert(es[i] == es.drop_last()[i]);
    } else {
        assert(x == es.last().name + seq!['/']);
        assert(es[es.len() - 1] == es.last());
    }
}

/// Every file item of a listing is a shown entry's name.
proof fn lemma_file_items_shown(es: Seq<DirEntryView>, h: bool, x: Seq<char>)
    requires
        file_items(es, h).contains(x),
    ensures
        exists|i: int| 0 <= i < es.len() && crate::file_operation::shown(es[i], h) && x == es[i].name,
    decreases es.len(),
{
    let rest = file_items(es.drop_last(), h);
    if rest.contains(x) {
        lemma_file_items_shown(es.drop_last(), h, x);
        let i = choose|i: int| 0 <= i < es.drop_last().len() && crate::file_operation::shown(es.drop_last()[i], h)
            && x == es.drop_last()[i].name;
        assert(es[i] == es.drop_last()[i]);
    } else {
        assert(x == es.last().name);
        assert(es[es.len() - 1] == es.last());
    }
}

/// A listing always offers the parent entry.
pub proof fn law_listing_has_parent_entry(es: Seq<DirEntryView>, show_hidden: bool)
    ensures
        listing_items(es, show_hidden).contains(parent_entry()),
{
    let dirs = seq![parent_entry()] + folder_items(es, show_hidden);
    assert(dirs[0] == parent_entry());
    lemma_sorted_strs_members(dirs, parent_entry());
    let sd = sorted_strs(dirs);
    let k = choose|k: int| 0 <= k < sd.len() && sd[k] == parent_entry();
    let all = listing_items(es, show_hidden);
    assert(all[k] == sd[k]);
}

/// With hidden files off, no item of a listing but the parent entry starts with '.'.
pub proof fn law_listing_hides_dot_entries(es: Seq<DirEntryView>, x: Seq<char>)
    requires
        listing_items(es, false).contains(x),
        x != parent_entry(),
    ensures
        !starts_with_char(x, '.'),
{
    let dirs = seq![parent_entry()] + folder_items(es, false);
    let files = file_items(es, false);
    let sd = sorted_strs(dirs);
    let sf = sorted_strs(files);
    let all = listing_items(es, false);
    let k = choose|k: int| 0 <= k < all.len() && all[k] == x;
    if k < sd.len() {
        assert(sd[k] == x);
        assert(sd.contains(x));
        lemma_sorted_strs_members(dirs, x);
        let j = choose|j: int| 0 <= j < dirs.len() && dirs[j] == x;
        assert(j > 0);
        assert(folder_items(es, false)[j - 1] == x);
        assert(folder_items(es, false).contains(x));
        lemma_folder_items_shown(es, false, x);
        let i = choose|i: int| 0 <= i < es.len() && crate::file_operation::shown(es[i], false) && x == es[i].name + seq!['/'];
        if es[i].name.len() == 0 {
            assert(x[0] == '/');
        } else {
            assert(x[0] == es[i].name[0]);
        }
    } else {
        assert(sf[k - sd.len()] == x);
        assert(sf.contains(x));
        lemma_sorted_strs_members(files, x);
        lemma_file_items_shown(es, false, x);
    }
}


/// A copy within one backend is the backend's own directory copy when the
/// backend reports the source as a directory, its own file copy when it
/// reports anything else, and the backend's metadata error when it cannot
/// report on the source: the result is then that answer of `copy_dir(from,
/// to)`, of `copy_file(from, to)`, or that error.
pub proof fn law_copy_within_follows_metadata<B: FilesystemBackend>(
    fs: B,
    from: Seq<char>,
    to: Seq<char>,
    r: Result<(), Seq<char>>,
)
    requires
        copied_within(fs, from, to, r),
    ensures
        (forall|m: Result<FileInfoView, Seq<char>>| #[trigger] fs.metadata_answer(from, m) ==> (m matches Ok(i)
            && i.is_dir)) ==> fs.copy_dir_answer(from, to, r),
        (forall|m: Result<FileInfoView, Seq<char>>| #[trigger] fs.metadata_answer(from, m) ==> (m matches Ok(i)
            && !i.is_dir)) ==> fs.copy_file_answer(from, to, r),
        (forall|m: Result<FileInfoView, Seq<char>>| #[trigger] fs.metadata_answer(from, m) ==> m is Err)
            ==> exists|m: Result<FileInfoView, Seq<char>>| #[trigger] fs.metadata_answer(from, m) && r == Err::<
            (),
            Seq<char>,
        >(m->Err_0),
{
}

/// A move across backends removes nothing while its copy fails: when every
/// answer the copy can give is a failure, the move's result is such a
/// failure of the copy (not the answer of a deletion); and a move that
/// succeeded did so only after its copy succeeded. A source path holding
/// "../" never moves successfully.
pub proof fn law_move_across_deletes_after_copy<S: FilesystemBackend, D: FilesystemBackend>(
    src: S,
    src_ref: BackendRef,
    dst: D,
    dst_ref: BackendRef,
    from: Seq<char>,
    to: Seq<char>,
    r: Result<(), Seq<char>>,
)
    requires
        moved_across(src, src_ref, dst, dst_ref, from, to, r),
    ensures
        (forall|c: Result<(), Seq<char>>|
            #[trigger] copied_across(src, src_ref, dst, dst_ref, from, to, 0xFFFF_FFFF_FFFF_FFFF, c) ==> c is Err)
            ==> r is Err && copied_across(src, src_ref, dst, dst_ref, from, to, 0xFFFF_FFFF_FFFF_FFFF, r),
        r is Ok ==> exists|c: Result<(), Seq<char>>|
            c is Ok && #[trigger] copied_across(src, src_ref, dst, dst_ref, from, to, 0xFFFF_FFFF_FFFF_FFFF, c)
                && delete_outcome(src, from, r),
        contains_seq(from, "../"@) ==> r is Err,
{
    let c = choose|c: Result<(), Seq<char>>|
        #[trigger] copied_across(src, src_ref, dst, dst_ref, from, to, 0xFFFF_FFFF_FFFF_FFFF, c) && match c {
            Err(e) => r == Err::<(), Seq<char>>(e),
            Ok(()) => delete_outcome(src, from, r),
        };
    assert(copied_across(src, src_ref, dst, dst_ref, from, to, 0xFFFF_FFFF_FFFF_FFFF, c));
}

/// Deleting a path removes a directory with the backend's recursive
/// removal and anything else with its file removal: when the backend
/// reports `path` as a directory the result is an answer of
/// `remove_dir_all(path)`, when it reports something else an answer of
/// `remove_file(path)`; a path holding "../" is refused without a call.
pub proof fn law_delete_follows_metadata<B: FilesystemBackend>(fs: B, path: Seq<char>, r: Result<(), Seq<char>>)
    requires
        delete_outcome(fs, path, r),
    ensures
        contains_seq(path, "../"@) ==> r == Err::<(), Seq<char>>("Cannot delete parent directory"@),
        !contains_seq(path, "../"@) && (forall|m: Result<FileInfoView, Seq<char>>|
            #[trigger] fs.metadata_answer(path, m) ==> (m matches Ok(i) && i.is_dir)) ==> fs.remove_dir_all_answer(
            path,
            r,
        ),
        !contains_seq(path, "../"@) && (forall|m: Result<FileInfoView, Seq<char>>|
            #[trigger] fs.metadata_answer(path, m) ==> (m matches Ok(i) && !i.is_dir)) ==> fs.remove_file_answer(
            path,
            r,
        ),
{
}

/// Enter in the permissions popup with a valid octal mode `m` asks the
/// active panel's backend to change the item under the cursor to exactly
/// `m`, and the status reports that same mode when the backend agrees, or
/// the backend's error.
pub proof fn law_chmod_applies_typed_mode<P: Backends>(pool: P, c: Context, n: Context, key: KeyEvent, m: nat)
    requires
        chmod_answered(pool, c, n, key),
        key.code == KeyCode::Enter,
        parse_unsigned(c.input@, 8, 0xFFFF_FFFF) == Some(m),
        m <= 0o7777,
        c.spec_active().spec_selected_item() is Some,
    ensures
        exists|fs: P::Fs, o: Result<(), Seq<char>>|
            #![trigger fs.chmod_answer(c.spec_active().item_path(c.spec_active().spec_selected_item()->0), m as u32, o)]
            pool.gives(c.spec_active().backend, fs) && fs.chmod_answer(
                c.spec_active().item_path(c.spec_active().spec_selected_item()->0),
                m as u32,
                o,
            ) && (o is Ok ==> status_is(n, "Permissions changed to "@ + octal(m))) && (o matches Err(e)
                ==> status_is(n, "chmod failed: "@ + e)),
{
    let p = c.spec_active();
    let item = p.spec_selected_item()->0;
    let (fs, o, mid) = choose|fs: P::Fs, o: Result<(), Seq<char>>, mid: Context|
        #![trigger fs.chmod_answer(p.item_path(item), m as u32, o), post_chmod_done(c, mid, m, o)]
        pool.gives(p.backend, fs) && fs.chmod_answer(p.item_path(item), m as u32, o) && post_chmod_done(c, mid, m, o)
            && n == Context { ui_state: UiState::Normal, input: n.input, ..mid };
    assert(n.status_message == mid.status_message);
}

/// A paste goes under the item at the cursor (not on the first row) only
/// when the backend reports that item as a directory: when every answer
/// says directory, the paste directory is the item's path; when none does,
/// it is the panel's own directory.
pub proof fn law_paste_dir_follows_metadata<B: FilesystemBackend>(fs: B, p: PanelState, d: Seq<char>)
    requires
        paste_dir_answer(fs, p, d),
        p.state != 0,
        p.spec_selected_item() is Some,
    ensures
        (forall|m: Result<FileInfoView, Seq<char>>|
            #[trigger] fs.metadata_answer(p.item_path(p.spec_selected_item()->0), m) ==> (m matches Ok(i) && i.is_dir))
            ==> d == p.item_path(p.spec_selected_item()->0),
        (forall|m: Result<FileInfoView, Seq<char>>|
            #[trigger] fs.metadata_answer(p.item_path(p.spec_selected_item()->0), m) ==> !(m matches Ok(i)
                && i.is_dir)) ==> d == p.path@,
{
}

} // verus!
