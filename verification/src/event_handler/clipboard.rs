//! Copy, cut, paste and delete from the panels.
use std::sync::Arc;
use vstd::prelude::*;

use crate::backend::{BackendRef, FilesystemBackend};
use crate::background_op::TransferProgress;
use crate::context::{parent_entry, unit_result, ClipboardMode, Context, PanelState, UiState};
use crate::event_handler::actions::{active_panel_is, status_is};
use crate::event_handler::{share, Backends, Effect, Job, JobKind};
use crate::file_operation::{
    bool_result,
    delete_outcome, delete_with_backend, dest_dir_choice, paste_dir_answer, paste_source, resolve_dest_dir, resolve_paste_paths,
};
use crate::text::{concat, concat3, decimal, decimal_string, owned, trim_end};

verus! {

/// The word a clipboard message starts with.
pub open spec fn clipboard_label(mode: ClipboardMode) -> Seq<char> {
    if mode == ClipboardMode::Cut {
        "Cut"@
    } else {
        "Copied"@
    }
}

/// Copy or cut: the clipboard takes the active panel's selected paths, or,
/// without a selection, the path of the item under the cursor (the parent
/// entry or no item leaves the single path as it was); it remembers the
/// backend they belong to and the mode, and the status line says what was taken.
pub open spec fn post_copy_or_cut(c: Context, n: Context, mode: ClipboardMode) -> bool {
    let p = c.spec_active();
    &&& n.copy_source_backend == Some(p.backend)
    &&& n.clipboard_mode == mode
    &&& if p.selected@.len() > 0 {
        &&& n.copy_paths.len() == p.selected.len()
        &&& forall|i: int| 0 <= i < n.copy_paths.len() ==> n.copy_paths@[i]@ == p.item_path(
            #[trigger] p.selected@[i]@,
        )
        &&& n.copy_path@.len() == 0
        &&& status_is(
            n,
            clipboard_label(mode) + " "@ + decimal(n.copy_paths.len() as nat) + " items to clipboard"@,
        )
    } else {
        &&& n.copy_paths@.len() == 0
        &&& match p.spec_selected_item() {
            Some(item) => if item == parent_entry() {
                n.copy_path == c.copy_path
            } else {
                n.copy_path@ == p.item_path(item)
            },
            None => n.copy_path == c.copy_path,
        }
        &&& status_is(n, clipboard_label(mode) + " to clipboard"@)
    }
    &&& n == Context {
        copy_source_backend: n.copy_source_backend,
        copy_paths: n.copy_paths,
        copy_path: n.copy_path,
        clipboard_mode: n.clipboard_mode,
        status_message: n.status_message,
        ..c
    }
}

/// Puts the active panel's selection, or the item under its cursor, on the clipboard.
pub fn handle_copy_or_cut(context: &mut Context, mode: ClipboardMode)
    requires
        old(context).active_panel < 2,
    ensures
        post_copy_or_cut(*old(context), *final(context), mode),
{
    let label = if mode == ClipboardMode::Cut {
        "Cut"
    } else {
        "Copied"
    };
    context.copy_source_backend = Some(context.active().backend.clone());
    if context.active().has_selection() {
        context.copy_paths = context.active().get_selected_paths();
        context.copy_path = String::new();
        context.clipboard_mode = mode;
        let a = concat3(label, " ", decimal_string(context.copy_paths.len() as u64).as_str());
        let m = concat(a.as_str(), " items to clipboard");
        context.set_status_message(m.as_str());
    } else {
        context.set_copy_path();
        context.copy_paths = Vec::new();
        context.clipboard_mode = mode;
        let m = concat(label, " to clipboard");
        context.set_status_message(m.as_str());
    }
}

/// The name a paste or batch entry uses for a source path: its file name
/// on the source backend, or `fallback` when it has none.
pub open spec fn name_or(n: Option<Seq<char>>, fallback: Seq<char>) -> Seq<char> {
    match n {
        Some(x) => x,
        None => fallback,
    }
}

/// `job` copies (or, for a cut, moves) `from` on the paste source to `to` on
/// the active panel's backend, with progress counters shared with the state.
pub open spec fn is_paste_job(c: Context, n: Context, job: Job, from: Seq<char>, to: Seq<char>, is_cut: bool) -> bool {
    let src = paste_source(c);
    let dst = c.spec_active().backend;
    let name = name_or(src.spec_file_name(from), "item"@);
    &&& job.description@ == (if is_cut { "Moving "@ } else { "Copying "@ }) + name + "..."@
    &&& job.progress is Some
    &&& n.transfer_progress == job.progress
    &&& if is_cut {
        job.kind matches JobKind::Move { src: s, dst: d, from: f, to: t } && s == src && d == dst
            && f@ == from && t@ == to
    } else {
        job.kind matches JobKind::Copy { src: s, dst: d, from: f, to: t } && s == src && d == dst
            && f@ == from && t@ == to
    }
}

/// Starts copying or moving one path into the active panel.
fn spawn_paste_operation(context: &mut Context, from: String, to: String, is_cut: bool) -> (r: Effect)
    requires
        old(context).active_panel < 2,
    ensures
        r matches Effect::Start(job) && is_paste_job(*old(context), *final(context), job, from@, to@, is_cut),
        *final(context) == (Context { transfer_progress: final(context).transfer_progress, ..*old(context) }),
{
    let src_backend = match &context.copy_source_backend {
        Some(b) => b.clone(),
        None => context.active().backend.clone(),
    };
    let dst_backend = context.active().backend.clone();
    let name = match src_backend.file_name(from.as_str()) {
        Some(n) => n,
        None => owned("item"),
    };
    let progress = Arc::new(TransferProgress::new());
    context.transfer_progress = Some(share(&progress));
    if is_cut {
        let desc = concat3("Moving ", name.as_str(), "...");
        Effect::Start(
            Job {
                kind: JobKind::Move { src: src_backend, dst: dst_backend, from, to },
                description: desc,
                progress: Some(progress),
            },
        )
    } else {
        let desc = concat3("Copying ", name.as_str(), "...");
        Effect::Start(
            Job {
                kind: JobKind::Copy { src: src_backend, dst: dst_backend, from, to },
                description: desc,
                progress: Some(progress),
            },
        )
    }
}

/// `job` copies (or, for a cut, moves) every path on the clipboard into the
/// paste directory of the active panel, under its file name on the source
/// backend, with progress counters shared with the state.
pub open spec fn is_batch_job(c: Context, n: Context, job: Job) -> bool {
    let src = paste_source(c);
    let dst = c.spec_active().backend;
    let is_cut = c.clipboard_mode == ClipboardMode::Cut;
    let count = c.copy_paths.len();
    &&& job.description@ == (if is_cut { "Moving "@ } else { "Copying "@ }) + decimal(count as nat)
        + " items..."@
    &&& job.progress is Some
    &&& n.transfer_progress == job.progress
    &&& job.kind matches JobKind::CopyBatch { src: s, dst: d, items, is_cut: k } && s == src && d == dst
        && k == is_cut && items.len() == count && exists|dir: Seq<char>|
        dest_dir_choice(c.spec_active(), dir) && forall|i: int|
        0 <= i < count ==> (#[trigger] items@[i]).0@ == c.copy_paths@[i]@ && items@[i].1@
            == dst.spec_join(dir, name_or(src.spec_file_name(c.copy_paths@[i]@), seq![]))
}

/// What pasting does: nothing but a message while an operation runs; with
/// several paths on the clipboard a batch job into the paste directory;
/// with one, a job for it, or first a confirmation when the target exists
/// (the paste then waits in `pending_paste`); messages for an empty
/// clipboard and a source without a file name.
pub open spec fn post_paste(c: Context, n: Context, r: Effect) -> bool {
    let is_cut = c.clipboard_mode == ClipboardMode::Cut;
    if c.active_operation is Some {
        &&& status_is(n, "Operation already in progress"@)
        &&& n == Context { status_message: n.status_message, ..c }
        &&& r is Nothing
    } else if c.copy_paths.len() > 0 {
        &&& r matches Effect::Start(job) && is_batch_job(c, n, job)
        &&& n == Context { transfer_progress: n.transfer_progress, ..c }
    } else if c.copy_path@.len() == 0 {
        &&& status_is(n, "Nothing to paste \u{2014} copy a file first"@)
        &&& n == Context { status_message: n.status_message, ..c }
        &&& r is Nothing
    } else if paste_source(c).spec_file_name(c.copy_path@) is None {
        &&& status_is(n, "Paste failed: "@ + "Invalid source path"@)
        &&& n == Context { status_message: n.status_message, ..c }
        &&& r is Nothing
    } else {
        exists|dir: Seq<char>, ex: Result<bool, Seq<char>>|
            dest_dir_choice(c.spec_active(), dir) && #[trigger] post_paste_after(
                c,
                n,
                r,
                c.copy_path@,
                c.spec_active().backend.spec_join(dir, paste_source(c).spec_file_name(c.copy_path@)->0),
                is_cut,
                ex,
            )
    }
}

/// What a single paste does once the backend has answered whether the
/// target exists: an existing target (`Ok(true)`) waits for confirmation
/// (the paste kept in `pending_paste`); otherwise, an error included, the
/// copy or move starts.
pub open spec fn post_paste_after(
    c: Context,
    n: Context,
    r: Effect,
    from: Seq<char>,
    to: Seq<char>,
    is_cut: bool,
    ex: Result<bool, Seq<char>>,
) -> bool {
    if ex == Ok::<bool, Seq<char>>(true) {
        &&& r is Nothing
        &&& n.pending_paste matches Some((f, t, k)) && f@ == from && t@ == to && k == is_cut
        &&& n == Context {
            pending_paste: n.pending_paste,
            confirm_popup_size: true,
            ui_state: UiState::ConfirmOverwrite,
            ..c
        }
    } else {
        &&& r matches Effect::Start(job) && is_paste_job(c, n, job, from, to, is_cut)
        &&& n == Context { transfer_progress: n.transfer_progress, ..c }
    }
}

/// Takes the backend's answer whether a paste's target exists (`post_paste_after`).
pub fn paste_after_check(context: &mut Context, from: String, to: String, is_cut: bool, exists: Result<bool, String>) -> (r: Effect)
    requires
        old(context).active_panel < 2,
    ensures
        post_paste_after(*old(context), *final(context), r, from@, to@, is_cut, bool_result(exists)),
{
    let found = match exists {
        Ok(b) => b,
        Err(_) => false,
    };
    if found {
        context.pending_paste = Some((from, to, is_cut));
        context.confirm_popup_size = true;
        context.set_ui_state(UiState::ConfirmOverwrite);
        Effect::Nothing
    } else {
        spawn_paste_operation(context, from, to, is_cut)
    }
}

/// A batch paste went into the paste directory that the active panel's
/// backend answered (`paste_dir_answer`): each item's target is that
/// directory joined with the item's file name on the source backend.
pub open spec fn batch_paste_answered<P: Backends>(pool: P, c: Context, r: Effect) -> bool {
    let src = paste_source(c);
    let dst = c.spec_active().backend;
    r matches Effect::Start(job) && job.kind matches JobKind::CopyBatch { items, .. } && exists|
        fs: P::Fs,
        dir: Seq<char>,
    |
        #![trigger pool.gives(dst, fs), paste_dir_answer(fs, c.spec_active(), dir)]
        pool.gives(dst, fs) && paste_dir_answer(fs, c.spec_active(), dir) && forall|i: int|
            0 <= i < items.len() ==> (#[trigger] items@[i]).1@ == dst.spec_join(
                dir,
                name_or(src.spec_file_name(c.copy_paths@[i]@), seq![]),
            )
}

/// A single paste went to the target in the paste directory that the active
/// panel's backend answered (`paste_dir_answer`), and what happened next
/// followed the backend's answer whether that target exists (`post_paste_after`).
pub open spec fn single_paste_answered<P: Backends>(pool: P, c: Context, n: Context, r: Effect) -> bool {
    let dst = c.spec_active().backend;
    let name = paste_source(c).spec_file_name(c.copy_path@)->0;
    exists|fs: P::Fs, dir: Seq<char>, fs2: P::Fs, ex: Result<bool, Seq<char>>|
        #![trigger paste_dir_answer(fs, c.spec_active(), dir), fs2.exists_answer(dst.spec_join(dir, name), ex)]
        pool.gives(dst, fs) && paste_dir_answer(fs, c.spec_active(), dir) && pool.gives(dst, fs2)
            && fs2.exists_answer(dst.spec_join(dir, name), ex) && post_paste_after(
            c,
            n,
            r,
            c.copy_path@,
            dst.spec_join(dir, name),
            c.clipboard_mode == ClipboardMode::Cut,
            ex,
        )
}

/// Pastes the clipboard into the active panel.
pub fn handle_paste<P: Backends>(context: &mut Context, pool: &P) -> (r: Effect)
    requires
        old(context).active_panel < 2,
    ensures
        post_paste(*old(context), *final(context), r),
        old(context).active_operation is None && old(context).copy_paths.len() > 0 ==> batch_paste_answered(
            *pool,
            *old(context),
            r,
        ),
        old(context).active_operation is None && old(context).copy_paths.len() == 0 && old(context).copy_path@.len()
            > 0 && paste_source(*old(context)).spec_file_name(old(context).copy_path@) is Some
            ==> single_paste_answered(*pool, *old(context), *final(context), r),
{
    if context.is_operation_running() {
        context.set_status_message("Operation already in progress");
        return Effect::Nothing;
    }
    let is_cut = context.clipboard_mode == ClipboardMode::Cut;
    let src_backend = match &context.copy_source_backend {
        Some(b) => b.clone(),
        None => context.active().backend.clone(),
    };
    let dst_backend = context.active().backend.clone();
    if context.copy_paths.len() > 0 {
        let fs = pool.get(&context.active().backend);
        let dest_dir = resolve_dest_dir(context, fs);
        let mut items: Vec<(String, String)> = Vec::new();
        let mut i: usize = 0;
        while i < context.copy_paths.len()
            invariant
                i <= context.copy_paths.len(),
                items.len() == i,
                src_backend == paste_source(*context),
                dst_backend == context.spec_active().backend,
                context.active_panel < 2,
                forall|j: int|
                    0 <= j < i ==> (#[trigger] items@[j]).0@ == context.copy_paths@[j]@ && items@[j].1@
                        == dst_backend.spec_join(
                        dest_dir@,
                        name_or(src_backend.spec_file_name(context.copy_paths@[j]@), seq![]),
                    ),
            decreases context.copy_paths.len() - i,
        {
            let from = context.copy_paths[i].clone();
            let name = match src_backend.file_name(from.as_str()) {
                Some(n) => n,
                None => String::new(),
            };
            let to = dst_backend.join_path(dest_dir.as_str(), name.as_str());
            items.push((from, to));
            i = i + 1;
        }
        let count = items.len();
        let action = if is_cut {
            "Moving "
        } else {
            "Copying "
        };
        let desc = concat3(action, decimal_string(count as u64).as_str(), " items...");
        let progress = Arc::new(TransferProgress::new());
        context.transfer_progress = Some(share(&progress));
        let job = Job {
            kind: JobKind::CopyBatch { src: src_backend, dst: dst_backend, items, is_cut },
            description: desc,
            progress: Some(progress),
        };
        assert(dest_dir_choice(old(context).spec_active(), dest_dir@));
        assert(is_batch_job(*old(context), *context, job));
        assert(pool.gives(old(context).spec_active().backend, *fs));
        assert(paste_dir_answer(*fs, old(context).spec_active(), dest_dir@));
        return Effect::Start(job);
    }
    if context.get_copy_path().as_str().is_empty() {
        context.set_status_message("Nothing to paste \u{2014} copy a file first");
        return Effect::Nothing;
    }
    let fs1 = pool.get(&context.active().backend);
    let resolved = resolve_paste_paths(context, fs1);
    match resolved {
        Ok((from, to)) => {
            let ghost dir1 = choose|d: Seq<char>|
                #[trigger] paste_dir_answer(*fs1, old(context).spec_active(), d) && to@ == old(
                    context,
                ).spec_active().backend.spec_join(
                    d,
                    paste_source(*old(context)).spec_file_name(old(context).copy_path@)->0,
                );
            let ghost dir = choose|d: Seq<char>|
                dest_dir_choice(old(context).spec_active(), d) && to@ == old(
                    context,
                ).spec_active().backend.spec_join(
                    d,
                    paste_source(*old(context)).spec_file_name(old(context).copy_path@)->0,
                );
            assert(dest_dir_choice(old(context).spec_active(), dir));
            let fs2 = pool.get(&context.active().backend);
            let exists = fs2.path_exists(to.as_str());
            let ghost ex = bool_result(exists);
            let ghost (fv, tv) = (from@, to@);
            let r = paste_after_check(context, from, to, is_cut, exists);
            assert(post_paste_after(*old(context), *context, r, fv, tv, is_cut, ex));
            assert(pool.gives(old(context).spec_active().backend, *fs1));
            assert(pool.gives(old(context).spec_active().backend, *fs2));
            assert(paste_dir_answer(*fs1, old(context).spec_active(), dir1));
            assert(fs2.exists_answer(tv, ex));
            r
        },
        Err(e) => {
            let m = concat("Paste failed: ", e.as_str());
            context.set_status_message(m.as_str());
            Effect::Nothing
        },
    }
}

/// Carrying out a paste that waited for confirmation: an existing target is
/// deleted first (a failure is reported and the paste dropped), then the
/// copy or move starts. Nothing happens when no paste waits.
pub open spec fn post_pending_paste(c: Context, n: Context, r: Effect) -> bool {
    match c.pending_paste {
        None => n == c && r is Nothing,
        Some((f, t, k)) => exists|ex: Result<bool, Seq<char>>, rm: Result<(), Seq<char>>|
            #[trigger] post_pending_after(c, n, r, f@, t@, k, ex, rm),
    }
}

/// What carrying out a waiting paste does with the backend's answers
/// whether the target exists and, when it does, to deleting it: a failed
/// deletion is reported ("Cannot remove existing file: <error>") and the
/// paste dropped; otherwise the copy or move starts. The paste no longer waits.
pub open spec fn post_pending_after(
    c: Context,
    n: Context,
    r: Effect,
    from: Seq<char>,
    to: Seq<char>,
    is_cut: bool,
    ex: Result<bool, Seq<char>>,
    rm: Result<(), Seq<char>>,
) -> bool {
    if ex == Ok::<bool, Seq<char>>(true) && rm is Err {
        &&& status_is(n, "Cannot remove existing file: "@ + rm->Err_0)
        &&& n == Context { pending_paste: None, status_message: n.status_message, ..c }
        &&& r is Nothing
    } else {
        &&& r matches Effect::Start(job) && is_paste_job(c, n, job, from, to, is_cut)
        &&& n == Context { pending_paste: None, transfer_progress: n.transfer_progress, ..c }
    }
}

/// Takes the backend's answers for a waiting paste (`post_pending_after`):
/// whether the target exists and, only when it does, to deleting it.
pub fn pending_paste_after(
    context: &mut Context,
    from: String,
    to: String,
    is_cut: bool,
    exists: Result<bool, String>,
    removed: Result<(), String>,
) -> (r: Effect)
    requires
        old(context).active_panel < 2,
    ensures
        post_pending_after(*old(context), *final(context), r, from@, to@, is_cut, bool_result(exists), unit_result(removed)),
{
    context.pending_paste = None;
    let found = match exists {
        Ok(b) => b,
        Err(_) => false,
    };
    if found {
        match removed {
            Ok(()) => {},
            Err(e) => {
                let m = concat("Cannot remove existing file: ", e.as_str());
                context.set_status_message(m.as_str());
                return Effect::Nothing;
            },
        }
    }
    spawn_paste_operation(context, from, to, is_cut)
}

/// A waiting paste was carried out on the active panel's backend's answers:
/// whether the target exists and, only when it does, to deleting it as
/// `delete_with_backend` does (`delete_outcome`), as `post_pending_after` says.
pub open spec fn pending_paste_answered<P: Backends>(pool: P, c: Context, n: Context, r: Effect) -> bool {
    match c.pending_paste {
        None => true,
        Some((f, t, k)) => exists|fs: P::Fs, ex: Result<bool, Seq<char>>, rm: Result<(), Seq<char>>|
            #![trigger fs.exists_answer(t@, ex), post_pending_after(c, n, r, f@, t@, k, ex, rm)]
            pool.gives(c.spec_active().backend, fs) && fs.exists_answer(t@, ex) && (ex == Ok::<bool, Seq<char>>(
                true,
            ) ==> delete_outcome(fs, t@, rm)) && post_pending_after(c, n, r, f@, t@, k, ex, rm),
    }
}

/// Carries out the paste that waited for the overwrite confirmation.
pub fn execute_pending_paste<P: Backends>(context: &mut Context, pool: &P) -> (r: Effect)
    requires
        old(context).active_panel < 2,
    ensures
        post_pending_paste(*old(context), *final(context), r),
        pending_paste_answered(*pool, *old(context), *final(context), r),
{
    let (from, to, is_cut) = match &context.pending_paste {
        Some((f, t, k)) => (f.clone(), t.clone(), *k),
        None => return Effect::Nothing,
    };
    let fs = pool.get(&context.active().backend);
    let exists = fs.path_exists(to.as_str());
    let found = match &exists {
        Ok(b) => *b,
        Err(_) => false,
    };
    let removed = if found {
        delete_with_backend(fs, to.as_str())
    } else {
        Ok(())
    };
    let ghost (ex, rm, fv, tv) = (bool_result(exists), unit_result(removed), from@, to@);
    let r = pending_paste_after(context, from, to, is_cut, exists, removed);
    assert(post_pending_after(*old(context), *context, r, fv, tv, is_cut, ex, rm));
    assert(fs.exists_answer(tv, ex));
    assert(pool.gives(old(context).spec_active().backend, *fs));
    r
}

/// What deleting from the active panel does: nothing but a message while an
/// operation runs; with a selection, a batch job for the selected paths (the
/// selection is then cleared); otherwise a job for the item under the cursor,
/// joined to the panel's directory as listed.
pub open spec fn post_delete(c: Context, n: Context, r: Effect) -> bool {
    let p = c.spec_active();
    if c.active_operation is Some {
        &&& status_is(n, "Operation already in progress"@)
        &&& n == Context { status_message: n.status_message, ..c }
        &&& r is Nothing
    } else if p.selected@.len() > 0 {
        let q = n.spec_active();
        &&& r matches Effect::Start(job) && job.progress is None && job.description@ == "Deleting "@
            + decimal(p.selected.len() as nat) + " items..."@ && (job.kind matches JobKind::DeleteBatch {
            backend,
            paths,
        } && backend == p.backend && paths.len() == p.selected.len() && forall|i: int|
            0 <= i < paths.len() ==> (#[trigger] paths@[i])@ == p.item_path(p.selected@[i]@))
        &&& active_panel_is(c, n, PanelState { selected: q.selected, ..p })
        &&& q.selected@.len() == 0
        &&& n == Context { panels: n.panels, ..c }
    } else {
        match p.spec_selected_item() {
            None => n == c && r is Nothing,
            Some(item) => n == c && (r matches Effect::Start(job) && job.progress is None
                && job.description@ == "Deleting "@ + item + "..."@ && (job.kind matches JobKind::Delete {
                backend,
                path,
            } && backend == p.backend && path@ == p.backend.spec_join(p.path@, item))),
        }
    }
}

/// Starts deleting the selection, or the item under the cursor, of the active panel.
pub fn spawn_delete_operation(context: &mut Context) -> (r: Effect)
    requires
        old(context).active_panel < 2,
    ensures
        post_delete(*old(context), *final(context), r),
{
    if context.is_operation_running() {
        context.set_status_message("Operation already in progress");
        return Effect::Nothing;
    }
    let a = context.active_panel;
    let backend = context.panels[a].backend.clone();
    if context.panels[a].has_selection() {
        let paths = context.panels[a].get_selected_paths();
        let count = paths.len();
        let desc = concat3("Deleting ", decimal_string(count as u64).as_str(), " items...");
        context.panels[a].clear_selection();
        return Effect::Start(
            Job { kind: JobKind::DeleteBatch { backend, paths }, description: desc, progress: None },
        );
    }
    let selected = match context.panels[a].get_selected_item() {
        Some(item) => item.clone(),
        None => return Effect::Nothing,
    };
    let path = context.panels[a].backend.join_path(context.panels[a].path.as_str(), selected.as_str());
    let desc = concat3("Deleting ", selected.as_str(), "...");
    Effect::Start(Job { kind: JobKind::Delete { backend, path }, description: desc, progress: None })
}

} // verus!
