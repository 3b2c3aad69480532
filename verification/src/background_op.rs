//! The work of background copy, move and delete operations: what runs on a
//! worker (the application spawns the thread), how errors of batch operations
//! are reported, and how a finished operation is handed back.
use std::sync::atomic::{AtomicU64, Ordering};
use std::sync::mpsc::Receiver;
use vstd::prelude::*;

use crate::backend::{entry_views, BackendRef, DirEntryView, FileInfo, FileInfoView, FilesystemBackend};
use crate::context::unit_result;
use crate::file_operation::{bytes_result, delete_outcome, info_result, listing_result};
use crate::text::{concat, concat3, contains_seq, decimal, decimal_string, join, owned, string_of};

verus! {

/// Shared progress of a file transfer.
pub struct TransferProgress {
    pub bytes_transferred: AtomicU64,
    pub total_bytes: AtomicU64,
}

impl TransferProgress {
    /// Both counters start at zero.
    pub fn new() -> (r: TransferProgress) {
        TransferProgress { bytes_transferred: AtomicU64::new(0), total_bytes: AtomicU64::new(0) }
    }
}

/// What a finished background operation reports.
pub struct FileOpResult {
    pub description: String,
    pub result: Result<(), String>,
    pub clear_clipboard: bool,
}

#[verifier::external_type_specification]
#[verifier::external_body]
#[verifier::reject_recursive_types(T)]
pub struct ExReceiver<T>(Receiver<T>);

/// What a non-blocking look at a channel finds.
pub enum Received<T> {
    Value(T),
    Empty,
    Disconnected,
}

/// std's `Receiver::try_recv`. What it returns depends on the other thread,
/// so nothing is promised of it.
#[verifier::external_body]
pub fn try_receive<T>(r: &Receiver<T>) -> (out: Received<T>) {
    match r.try_recv() {
        Ok(v) => Received::Value(v),
        Err(std::sync::mpsc::TryRecvError::Empty) => Received::Empty,
        Err(std::sync::mpsc::TryRecvError::Disconnected) => Received::Disconnected,
    }
}

// ---------------------------------------------------------------------------
// Batch error reports
// ---------------------------------------------------------------------------

/// "<failed> of <total> failed: <error>; <error>; ..."
pub open spec fn batch_failure_text(total: nat, errors: Seq<Seq<char>>) -> Seq<char> {
    decimal(errors.len()) + " of "@ + decimal(total) + " failed: "@ + join(errors, "; "@)
}

/// The outcome of a batch: success when nothing failed, otherwise the count
/// of failures out of the total and every error message.
pub open spec fn batch_outcome(total: nat, errors: Seq<Seq<char>>) -> Result<(), Seq<char>> {
    if errors.len() == 0 {
        Ok(())
    } else {
        Err(batch_failure_text(total, errors))
    }
}

/// The messages held by a vector of strings.
pub open spec fn string_views(v: Seq<String>) -> Seq<Seq<char>> {
    Seq::new(v.len(), |i: int| v[i]@)
}

/// Reports a batch whose item errors are `errors`, out of `total` items.
pub fn batch_result(total: usize, errors: &Vec<String>) -> (r: Result<(), String>)
    ensures
        r is Ok <==> errors.len() == 0,
        r matches Err(m) ==> batch_outcome(total as nat, string_views(errors@)) == Err::<(), Seq<char>>(m@),
{
    if errors.len() == 0 {
        return Ok(());
    }
    let mut joined: Vec<char> = Vec::new();
    let mut sep: Vec<char> = crate::text::chars_of("; ");
    let mut parts: Vec<Vec<char>> = Vec::new();
    let mut i: usize = 0;
    while i < errors.len()
        invariant
            i <= errors.len(),
            crate::text::views(parts@) == string_views(errors@).take(i as int),
        decreases errors.len() - i,
    {
        let ghost prev = crate::text::views(parts@);
        let c = crate::text::chars_of(errors[i].as_str());
        assert(c@ == errors@[i as int]@);
        parts.push(c);
        assert(crate::text::views(parts@) =~= prev.push(errors@[i as int]@));
        assert(string_views(errors@).take(i + 1) =~= string_views(errors@).take(i as int).push(
            errors@[i as int]@,
        ));
        i = i + 1;
    }
    assert(string_views(errors@).take(i as int) == string_views(errors@));
    joined = crate::text::join_from(&parts, 0, &sep);
    assert(crate::text::views(parts@).skip(0) == crate::text::views(parts@));
    let failed = decimal_string(errors.len() as u64);
    let all = decimal_string(total as u64);
    let head = concat3(failed.as_str(), " of ", all.as_str());
    let head2 = concat(head.as_str(), " failed: ");
    let tail = string_of(&joined);
    Err(concat(head2.as_str(), tail.as_str()))
}

/// "<path>: <error>" for one failed item.
pub fn item_error(path: &str, e: &str) -> (r: String)
    ensures
        r@ == path@ + ": "@ + e@,
{
    concat3(path, ": ", e)
}

/// "delete <path>: <error>" when removing a moved item's source fails.
pub fn delete_error(path: &str, e: &str) -> (r: String)
    ensures
        r@ == "delete "@ + path@ + ": "@ + e@,
{
    let a = concat3("delete ", path, ": ");
    concat(a.as_str(), e)
}

/// The reports of the failed items of a batch, in order: one for each
/// item that has one.
pub open spec fn reports(msgs: Seq<Option<Seq<char>>>) -> Seq<Seq<char>>
    decreases msgs.len(),
{
    if msgs.len() == 0 {
        seq![]
    } else {
        let rest = reports(msgs.drop_last());
        match msgs.last() {
            Some(m) => rest.push(m),
            None => rest,
        }
    }
}

/// There are no more reports than items, and every item's report is among them.
pub proof fn lemma_reports(msgs: Seq<Option<Seq<char>>>)
    ensures
        reports(msgs).len() <= msgs.len(),
        forall|i: int| 0 <= i < msgs.len() && (#[trigger] msgs[i]) is Some ==> reports(msgs).contains(msgs[i]->0),
    decreases msgs.len(),
{
    if msgs.len() > 0 {
        let rest = reports(msgs.drop_last());
        lemma_reports(msgs.drop_last());
        assert forall|i: int| 0 <= i < msgs.len() && (#[trigger] msgs[i]) is Some implies reports(msgs).contains(
            msgs[i]->0,
        ) by {
            if i < msgs.len() - 1 {
                assert(msgs.drop_last()[i] == msgs[i]);
                let k = choose|k: int| 0 <= k < rest.len() && rest[k] == msgs[i]->0;
                assert(reports(msgs)[k] == rest[k]);
            } else {
                let rs = reports(msgs);
                assert(rs[rs.len() - 1] == msgs[i]->0);
            }
        }
    }
}

/// Per-item reports, as plain values.
pub open spec fn message_views(v: Seq<Option<String>>) -> Seq<Option<Seq<char>>> {
    Seq::new(
        v.len(),
        |i: int|
            match v[i] {
                Some(s) => Some(s@),
                None => None,
            },
    )
}

/// Reports a batch of `total` items from each item's report (none for an
/// item that succeeded): `batch_outcome` of the reports, in order.
pub fn batch_report(total: usize, msgs: &Vec<Option<String>>) -> (r: Result<(), String>)
    ensures
        unit_result(r) == batch_outcome(total as nat, reports(message_views(msgs@))),
{
    let ghost mv = message_views(msgs@);
    let mut errors: Vec<String> = Vec::new();
    let mut i: usize = 0;
    assert(mv.take(0) =~= Seq::<Option<Seq<char>>>::empty());
    assert(string_views(errors@) =~= Seq::<Seq<char>>::empty());
    while i < msgs.len()
        invariant
            i <= msgs.len(),
            mv == message_views(msgs@),
            string_views(errors@) == reports(mv.take(i as int)),
        decreases msgs.len() - i,
    {
        let ghost t = mv.take(i + 1);
        assert(t.drop_last() =~= mv.take(i as int));
        match &msgs[i] {
            Some(m) => {
                let ghost before = string_views(errors@);
                errors.push(m.clone());
                assert(string_views(errors@) =~= before.push(m@));
            },
            None => {},
        }
        i = i + 1;
    }
    assert(mv.take(i as int) =~= mv);
    batch_result(total, &errors)
}

/// The report of one deletion of a batch: "<path>: <error>" for a failure.
pub open spec fn delete_message(path: Seq<char>, o: Result<(), Seq<char>>) -> Option<Seq<char>> {
    match o {
        Ok(()) => None,
        Err(e) => Some(path + ": "@ + e),
    }
}

/// The outcome of a batch delete from the answer for each path.
pub open spec fn delete_batch_outcome(paths: Seq<Seq<char>>, outs: Seq<Result<(), Seq<char>>>) -> Result<(), Seq<char>> {
    batch_outcome(paths.len(), reports(Seq::new(paths.len(), |i: int| delete_message(paths[i], outs[i]))))
}

/// The report of one item of a batch copy or move: "<from>: <error>" when
/// the copy failed; for a move whose copy succeeded, "delete <from>:
/// <error>" when removing the source failed.
pub open spec fn copy_message(from: Seq<char>, copy: Result<(), Seq<char>>, delete: Option<Result<(), Seq<char>>>) -> Option<Seq<char>> {
    match copy {
        Err(e) => Some(from + ": "@ + e),
        Ok(()) => match delete {
            Some(Err(e)) => Some("delete "@ + from + ": "@ + e),
            _ => None,
        },
    }
}

/// The outcome of a batch copy or move from each item's copy answer and,
/// for a move, the answer to removing its source.
pub open spec fn copy_batch_outcome(
    froms: Seq<Seq<char>>,
    copies: Seq<Result<(), Seq<char>>>,
    deletes: Seq<Option<Result<(), Seq<char>>>>,
) -> Result<(), Seq<char>> {
    batch_outcome(
        froms.len(),
        reports(Seq::new(froms.len(), |i: int| copy_message(froms[i], copies[i], deletes[i]))),
    )
}

/// The paths of a batch, as plain values.
pub open spec fn path_views(v: Seq<String>) -> Seq<Seq<char>> {
    Seq::new(v.len(), |i: int| v[i]@)
}

/// The sources of a batch of (from, to) pairs, as plain values.
pub open spec fn source_views(v: Seq<(String, String)>) -> Seq<Seq<char>> {
    Seq::new(v.len(), |i: int| v[i].0@)
}

// ---------------------------------------------------------------------------
// Transfers
// ---------------------------------------------------------------------------

/// Adds to the transferred-bytes counter.
fn add_progress(progress: Option<&TransferProgress>, n: u64) {
    match progress {
        Some(p) => {
            p.bytes_transferred.fetch_add(n, Ordering::Relaxed);
        },
        None => {},
    }
}

/// Sets the total-bytes counter.
fn set_total(progress: Option<&TransferProgress>, n: u64) {
    match progress {
        Some(p) => {
            p.total_bytes.store(n, Ordering::Relaxed);
        },
        None => {},
    }
}

/// What a transfer does with an item, by its metadata.
#[derive(Debug, Clone, Copy, PartialEq, Eq, Structural)]
pub enum Transfer {
    /// Create the directory, then transfer each entry.
    Directory,
    /// Read the file (this many bytes) and write it.
    File(u64),
}

/// The transfer the metadata answer calls for: its error stops the
/// transfer, and so does a directory nested deeper than `depth` allows
/// ("Directory nesting too deep").
pub open spec fn transfer_plan(meta: Result<FileInfoView, Seq<char>>, depth: u64) -> Result<Transfer, Seq<char>> {
    match meta {
        Err(e) => Err(e),
        Ok(i) => if i.is_dir {
            if depth == 0 {
                Err("Directory nesting too deep"@)
            } else {
                Ok(Transfer::Directory)
            }
        } else {
            Ok(Transfer::File(i.size))
        },
    }
}

/// Chooses the transfer from the backend's metadata answer (`transfer_plan`).
pub fn plan_transfer(meta: Result<FileInfo, String>, depth: u64) -> (r: Result<Transfer, String>)
    ensures
        match (r, transfer_plan(info_result(meta), depth)) {
            (Ok(a), Ok(b)) => a == b,
            (Err(a), Err(b)) => a@ == b,
            _ => false,
        },
{
    match meta {
        Err(e) => Err(e),
        Ok(info) => if info.is_dir {
            if depth == 0 {
                Err(owned("Directory nesting too deep"))
            } else {
                Ok(Transfer::Directory)
            }
        } else {
            Ok(Transfer::File(info.size))
        },
    }
}

/// A walk over a directory's entries that stops at the first failure:
/// `steps` are the answers for the entries tried, all successes but
/// perhaps the last; fewer than `n` entries were tried only after a failure.
pub open spec fn stops_at_failure(steps: Seq<Result<(), Seq<char>>>, n: nat) -> bool {
    &&& steps.len() <= n
    &&& forall|i: int| 0 <= i < steps.len() - 1 ==> (#[trigger] steps[i]) is Ok
    &&& steps.len() < n ==> steps.len() > 0 && steps.last() is Err
}

/// The result of such a walk: its failure, if it stopped at one.
pub open spec fn walk_result(steps: Seq<Result<(), Seq<char>>>) -> Result<(), Seq<char>> {
    if steps.len() > 0 && steps.last() is Err {
        steps.last()
    } else {
        Ok(())
    }
}

/// What a walk within one backend does with the backend's answers: a
/// failure to prepare (`first`) or to list is returned as it came;
/// otherwise each of the `n` entries is handled in turn, stopping at the
/// first failure, which is returned.
pub open spec fn post_walk(
    first: Result<(), Seq<char>>,
    listing: Result<nat, Seq<char>>,
    steps: Seq<Result<(), Seq<char>>>,
    r: Result<(), String>,
) -> bool {
    match first {
        Err(e) => unit_result(r) == Err::<(), Seq<char>>(e),
        Ok(()) => match listing {
            Err(e) => unit_result(r) == Err::<(), Seq<char>>(e),
            Ok(n) => stops_at_failure(steps, n) && unit_result(r) == walk_result(steps),
        },
    }
}

/// What copying `from` on `src` to `to` on `dst` answers, directories
/// nested at most `depth` deep: for the source's metadata answer on `from`,
/// its error, or the refusal of a directory nested too deep
/// (`transfer_plan`); for a file, the answer of reading `from` (up to its
/// size) on `src`, then, when that succeeded, the answer of writing those
/// bytes to `to` on `dst`; for a directory, the answer of creating `to` on
/// `dst`, then of listing `from` on `src`, then each entry copied in the
/// same way to the same name under `to`, in listing order, stopping at the
/// first failure, which is the answer.
pub open spec fn copied_across<S: FilesystemBackend, D: FilesystemBackend>(
    src: S,
    src_ref: BackendRef,
    dst: D,
    dst_ref: BackendRef,
    from: Seq<char>,
    to: Seq<char>,
    depth: u64,
    r: Result<(), Seq<char>>,
) -> bool
    decreases depth,
{
    exists|meta: Result<FileInfoView, Seq<char>>|
        #[trigger] src.metadata_answer(from, meta) && match transfer_plan(meta, depth) {
            Err(e) => r == Err::<(), Seq<char>>(e),
            Ok(Transfer::File(n)) => exists|data: Result<Seq<u8>, Seq<char>>|
                #[trigger] src.read_answer(from, n as usize, data) && match data {
                    Err(e) => r == Err::<(), Seq<char>>(e),
                    Ok(bytes) => dst.write_answer(to, bytes, r),
                },
            Ok(Transfer::Directory) => depth > 0 && exists|made: Result<(), Seq<char>>|
                #[trigger] dst.create_dir_answer(to, made) && match made {
                    Err(e) => r == Err::<(), Seq<char>>(e),
                    Ok(()) => exists|listing: Result<Seq<DirEntryView>, Seq<char>>|
                        #[trigger] src.list_dir_answer(from, listing) && match listing {
                            Err(e) => r == Err::<(), Seq<char>>(e),
                            Ok(entries) => exists|steps: Seq<Result<(), Seq<char>>>|
                                #[trigger] stops_at_failure(steps, entries.len()) && r == walk_result(steps)
                                    && forall|i: int|
                                    0 <= i < steps.len() ==> copied_across(
                                        src,
                                        src_ref,
                                        dst,
                                        dst_ref,
                                        src_ref.spec_join(from, entries[i].name),
                                        dst_ref.spec_join(to, entries[i].name),
                                        (depth - 1) as u64,
                                        #[trigger] steps[i],
                                    ),
                        },
                },
        }
}

/// Copies `from` on one backend to `to` on another: a directory is created
/// and its entries copied one by one, a file is read (up to its size) and
/// written. Directories nested deeper than `depth` levels are refused
/// (`copied_across`).
pub fn cross_backend_copy_with_progress<S: FilesystemBackend, D: FilesystemBackend>(
    src: &S,
    src_ref: &BackendRef,
    dst: &D,
    dst_ref: &BackendRef,
    from: &str,
    to: &str,
    progress: Option<&TransferProgress>,
    depth: u64,
) -> (r: Result<(), String>)
    ensures
        copied_across(*src, *src_ref, *dst, *dst_ref, from@, to@, depth, unit_result(r)),
    decreases depth,
{
    let meta = src.metadata(from);
    let ghost mv = info_result(meta);
    let size = match plan_transfer(meta, depth) {
        Err(e) => return Err(e),
        Ok(Transfer::Directory) => None,
        Ok(Transfer::File(n)) => Some(n),
    };
    if size.is_none() {
        assert(transfer_plan(mv, depth) == Ok::<Transfer, Seq<char>>(Transfer::Directory));
        let made = dst.create_dir(to);
        let ghost md = unit_result(made);
        match made {
            Ok(()) => {},
            Err(e) => return Err(e),
        }
        let listed = src.list_dir(from);
        let ghost lv = listing_result(listed);
        let entries = match listed {
            Ok(v) => v,
            Err(e) => return Err(e),
        };
        let ghost ev = entry_views(entries@);
        let ghost mut steps: Seq<Result<(), Seq<char>>> = seq![];
        let mut i: usize = 0;
        while i < entries.len()
            invariant
                i <= entries.len(),
                depth > 0,
                ev == entry_views(entries@),
                lv == Ok::<Seq<DirEntryView>, Seq<char>>(ev),
                md == Ok::<(), Seq<char>>(()),
                transfer_plan(mv, depth) == Ok::<Transfer, Seq<char>>(Transfer::Directory),
                src.metadata_answer(from@, mv),
                dst.create_dir_answer(to@, md),
                src.list_dir_answer(from@, lv),
                steps.len() == i,
                forall|j: int| 0 <= j < i ==> (#[trigger] steps[j]) is Ok,
                forall|j: int|
                    0 <= j < i ==> copied_across(
                        *src,
                        *src_ref,
                        *dst,
                        *dst_ref,
                        src_ref.spec_join(from@, ev[j].name),
                        dst_ref.spec_join(to@, ev[j].name),
                        (depth - 1) as u64,
                        #[trigger] steps[j],
                    ),
            decreases entries.len() - i,
        {
            let src_child = src_ref.join_path(from, entries[i].name.as_str());
            let dst_child = dst_ref.join_path(to, entries[i].name.as_str());
            assert(ev[i as int].name == entries@[i as int].name@);
            let copied = cross_backend_copy_with_progress(
                src,
                src_ref,
                dst,
                dst_ref,
                src_child.as_str(),
                dst_child.as_str(),
                progress,
                depth - 1,
            );
            let ghost prev = steps;
            proof {
                steps = steps.push(unit_result(copied));
                assert forall|j: int|
                    0 <= j < steps.len() implies copied_across(
                    *src,
                    *src_ref,
                    *dst,
                    *dst_ref,
                    src_ref.spec_join(from@, ev[j].name),
                    dst_ref.spec_join(to@, ev[j].name),
                    (depth - 1) as u64,
                    #[trigger] steps[j],
                ) by {
                    if j < i {
                        assert(steps[j] == prev[j]);
                    }
                }
            }
            match copied {
                Ok(()) => {},
                Err(e) => {
                    assert(stops_at_failure(steps, ev.len()));
                    assert(walk_result(steps) == Err::<(), Seq<char>>(e@));
                    let ghost entries_of = lv->Ok_0;
                    assert(entries_of == ev);
                    assert(src.metadata_answer(from@, mv));
                    assert(dst.create_dir_answer(to@, md));
                    assert(src.list_dir_answer(from@, lv));
                    return Err(e);
                },
            }
            i = i + 1;
        }
        assert(stops_at_failure(steps, ev.len()));
        assert(steps.len() > 0 ==> steps[steps.len() - 1] is Ok);
        assert(walk_result(steps) == Ok::<(), Seq<char>>(()));
        let ghost entries_of = lv->Ok_0;
        assert(entries_of == ev);
        assert(forall|j: int|
            0 <= j < steps.len() ==> copied_across(
                *src,
                *src_ref,
                *dst,
                *dst_ref,
                src_ref.spec_join(from@, entries_of[j].name),
                dst_ref.spec_join(to@, entries_of[j].name),
                (depth - 1) as u64,
                #[trigger] steps[j],
            ));
        assert(src.metadata_answer(from@, mv));
        assert(dst.create_dir_answer(to@, md));
        assert(src.list_dir_answer(from@, lv));
        Ok(())
    } else {
        let n = match size {
            Some(n) => n,
            None => 0,
        };
        let read = src.read_file(from, n as usize);
        let ghost rv = bytes_result(read);
        let data = match read {
            Ok(d) => d,
            Err(e) => {
                assert(src.read_answer(from@, n as usize, rv));
                return Err(e);
            },
        };
        let len = data.len() as u64;
        let written = dst.write_file(to, data.as_slice());
        assert(src.read_answer(from@, n as usize, rv));
        match written {
            Ok(()) => {},
            Err(e) => return Err(e),
        }
        add_progress(progress, len);
        Ok(())
    }
}

/// What copying `from` to `to` within one backend answers: for the
/// backend's metadata answer on `from`, its error, or else the answer of
/// the backend's own `copy_dir(from, to)` for a directory and of
/// `copy_file(from, to)` for anything else.
pub open spec fn copied_within<B: FilesystemBackend>(fs: B, from: Seq<char>, to: Seq<char>, r: Result<(), Seq<char>>) -> bool {
    exists|meta: Result<FileInfoView, Seq<char>>|
        #[trigger] fs.metadata_answer(from, meta) && match meta {
            Err(e) => r == Err::<(), Seq<char>>(e),
            Ok(info) => if info.is_dir {
                fs.copy_dir_answer(from, to, r)
            } else {
                fs.copy_file_answer(from, to, r)
            },
        }
}

/// The work of a background copy: within one backend its own copy of a
/// directory or a file, as the metadata says (a metadata error is returned
/// as it came; `copied_within`); across backends a read-and-write copy
/// (`copied_across`); the total size is recorded first.
pub fn copy_with_backend<S: FilesystemBackend, D: FilesystemBackend>(
    src: &S,
    src_ref: &BackendRef,
    dst: &D,
    dst_ref: &BackendRef,
    from: &str,
    to: &str,
    progress: Option<&TransferProgress>,
) -> (r: Result<(), String>)
    ensures
        src_ref.id == dst_ref.id ==> copied_within(*src, from@, to@, unit_result(r)),
        src_ref.id != dst_ref.id ==> copied_across(
            *src,
            *src_ref,
            *dst,
            *dst_ref,
            from@,
            to@,
            0xFFFF_FFFF_FFFF_FFFF,
            unit_result(r),
        ),
{
    if progress.is_some() {
        match src.metadata(from) {
            Ok(info) => set_total(progress, info.size),
            Err(_) => {},
        }
    }
    if src_ref.id == dst_ref.id {
        let meta = src.metadata(from);
        let ghost mv = info_result(meta);
        let r = match plan_transfer(meta, 0xFFFF_FFFF_FFFF_FFFF) {
            Ok(Transfer::Directory) => src.copy_dir(from, to),
            Ok(Transfer::File(_)) => src.copy_file(from, to),
            Err(e) => Err(e),
        };
        assert(src.metadata_answer(from@, mv));
        r
    } else {
        cross_backend_copy_with_progress(src, src_ref, dst, dst_ref, from, to, progress, 0xFFFF_FFFF_FFFF_FFFF)
    }
}

/// What moving `from` to `to` within one backend answers: a successful
/// `rename(from, to)` is a success; otherwise, for the metadata answer on
/// `from`, its error, or else the answer of copying it (`copy_dir` for a
/// directory, `copy_file` otherwise) when that failed, and when the copy
/// succeeded the answer of removing `from` (`remove_dir_all` for a
/// directory, `remove_file` otherwise).
pub open spec fn moved_within<B: FilesystemBackend>(fs: B, from: Seq<char>, to: Seq<char>, r: Result<(), Seq<char>>) -> bool {
    exists|renamed: Result<(), Seq<char>>|
        #[trigger] fs.rename_answer(from, to, renamed) && match renamed {
            Ok(()) => r == Ok::<(), Seq<char>>(()),
            Err(_) => exists|meta: Result<FileInfoView, Seq<char>>|
                #[trigger] fs.metadata_answer(from, meta) && match meta {
                    Err(e) => r == Err::<(), Seq<char>>(e),
                    Ok(info) => exists|copied: Result<(), Seq<char>>|
                        #![trigger fs.copy_dir_answer(from, to, copied)]
                        #![trigger fs.copy_file_answer(from, to, copied)]
                        (if info.is_dir {
                            fs.copy_dir_answer(from, to, copied)
                        } else {
                            fs.copy_file_answer(from, to, copied)
                        }) && match copied {
                            Err(e) => r == Err::<(), Seq<char>>(e),
                            Ok(()) => if info.is_dir {
                                fs.remove_dir_all_answer(from, r)
                            } else {
                                fs.remove_file_answer(from, r)
                            },
                        },
                },
        }
}

/// What moving `from` on `src` to `to` on `dst` answers: the copy across
/// backends (`copied_across`) comes first; its failure is the answer, and
/// only after it succeeded is the source deleted, the deletion's answer
/// (`delete_outcome`) being the move's.
pub open spec fn moved_across<S: FilesystemBackend, D: FilesystemBackend>(
    src: S,
    src_ref: BackendRef,
    dst: D,
    dst_ref: BackendRef,
    from: Seq<char>,
    to: Seq<char>,
    r: Result<(), Seq<char>>,
) -> bool {
    exists|copied: Result<(), Seq<char>>|
        #[trigger] copied_across(src, src_ref, dst, dst_ref, from, to, 0xFFFF_FFFF_FFFF_FFFF, copied) && match copied {
            Err(e) => r == Err::<(), Seq<char>>(e),
            Ok(()) => delete_outcome(src, from, r),
        }
}

/// The work of a background move: within one backend a rename, falling back
/// to copy and delete (`moved_within`); across backends a copy, then the
/// source is deleted as `delete_with_backend` does, only once the copy
/// succeeded (`moved_across`), so a source path holding "../" never ends in
/// success across backends.
pub fn move_with_backend_inner<S: FilesystemBackend, D: FilesystemBackend>(
    src: &S,
    src_ref: &BackendRef,
    dst: &D,
    dst_ref: &BackendRef,
    from: &str,
    to: &str,
    progress: Option<&TransferProgress>,
) -> (r: Result<(), String>)
    ensures
        src_ref.id != dst_ref.id && contains_seq(from@, "../"@) ==> r is Err,
        src_ref.id == dst_ref.id ==> moved_within(*src, from@, to@, unit_result(r)),
        src_ref.id != dst_ref.id ==> moved_across(*src, *src_ref, *dst, *dst_ref, from@, to@, unit_result(r)),
{
    if src_ref.id == dst_ref.id {
        let renamed = src.rename(from, to);
        let ghost rn = unit_result(renamed);
        if renamed.is_ok() {
            return Ok(());
        }
        let meta = src.metadata(from);
        let ghost mv = info_result(meta);
        let info = match meta {
            Ok(i) => i,
            Err(e) => return Err(e),
        };
        if info.is_dir {
            let copied = src.copy_dir(from, to);
            let ghost cv = unit_result(copied);
            match copied {
                Ok(()) => {},
                Err(e) => return Err(e),
            }
            src.remove_dir_all(from)
        } else {
            let copied = src.copy_file(from, to);
            let ghost cv = unit_result(copied);
            match copied {
                Ok(()) => {},
                Err(e) => return Err(e),
            }
            src.remove_file(from)
        }
    } else {
        let copied = cross_backend_copy_with_progress(
            src,
            src_ref,
            dst,
            dst_ref,
            from,
            to,
            progress,
            0xFFFF_FFFF_FFFF_FFFF,
        );
        let ghost cv = unit_result(copied);
        match copied {
            Ok(()) => {},
            Err(e) => return Err(e),
        }
        crate::file_operation::delete_with_backend(src, from)
    }
}

/// The work of a batch delete: every path is tried; failures are reported
/// together ("k of n failed: ...", k the number of paths that failed), each
/// as "<path>: <error>" (`delete_batch_outcome` of the answer for each path).
/// Nothing to delete is a success; a path holding "../" is always refused,
/// so such a path makes the batch fail.
pub fn delete_batch<B: FilesystemBackend>(backend: &B, paths: &Vec<String>) -> (r: Result<(), String>)
    ensures
        paths.len() == 0 ==> r is Ok,
        (exists|i: int| 0 <= i < paths.len() && contains_seq(#[trigger] paths@[i]@, "../"@)) ==> r is Err,
        exists|outs: Seq<Result<(), Seq<char>>>|
            outs.len() == paths.len() && (forall|i: int|
                0 <= i < paths.len() && contains_seq(#[trigger] paths@[i]@, "../"@) ==> outs[i] == Err::<(), Seq<char>>(
                    "Cannot delete parent directory"@,
                )) && (forall|i: int| 0 <= i < paths.len() ==> delete_outcome(*backend, paths@[i]@, #[trigger] outs[i]))
                && unit_result(r) == #[trigger] delete_batch_outcome(path_views(paths@), outs),
{
    let ghost pv = path_views(paths@);
    let mut msgs: Vec<Option<String>> = Vec::new();
    let ghost mut outs: Seq<Result<(), Seq<char>>> = seq![];
    let mut i: usize = 0;
    while i < paths.len()
        invariant
            i <= paths.len(),
            pv == path_views(paths@),
            msgs.len() == i,
            outs.len() == i,
            forall|j: int| 0 <= j < i ==> #[trigger] message_views(msgs@)[j] == delete_message(pv[j], outs[j]),
            forall|j: int|
                0 <= j < i && contains_seq(#[trigger] paths@[j]@, "../"@) ==> outs[j] == Err::<(), Seq<char>>(
                    "Cannot delete parent directory"@,
                ),
            forall|j: int| 0 <= j < i ==> delete_outcome(*backend, paths@[j]@, #[trigger] outs[j]),
        decreases paths.len() - i,
    {
        let o = crate::file_operation::delete_with_backend(backend, paths[i].as_str());
        proof {
            outs = outs.push(unit_result(o));
        }
        let m = match o {
            Ok(()) => None,
            Err(e) => Some(item_error(paths[i].as_str(), e.as_str())),
        };
        let ghost before = msgs@;
        msgs.push(m);
        proof {
            assert forall|j: int| 0 <= j < i + 1 implies #[trigger] message_views(msgs@)[j] == delete_message(pv[j], outs[j]) by {
                if j < i {
                    assert(msgs@[j] == before[j]);
                    assert(message_views(before)[j] == delete_message(pv[j], outs[j]));
                }
            }
        }
        i = i + 1;
    }
    let r = batch_report(paths.len(), &msgs);
    proof {
        let dm = Seq::new(pv.len(), |j: int| delete_message(pv[j], outs[j]));
        assert(message_views(msgs@) =~= dm);
        lemma_reports(dm);
        if exists|j: int| 0 <= j < paths.len() && contains_seq(#[trigger] paths@[j]@, "../"@) {
            let j = choose|j: int| 0 <= j < paths.len() && contains_seq(#[trigger] paths@[j]@, "../"@);
            assert(dm[j] is Some);
            assert(reports(dm).contains(dm[j]->0));
        }
        assert(unit_result(r) == delete_batch_outcome(pv, outs));
    }
    r
}

/// What copying one item of a batch answers: `copied_within` when both
/// panels show the same backend, `copied_across` otherwise.
pub open spec fn item_copied<S: FilesystemBackend, D: FilesystemBackend>(
    src: S,
    src_ref: BackendRef,
    dst: D,
    dst_ref: BackendRef,
    from: Seq<char>,
    to: Seq<char>,
    r: Result<(), Seq<char>>,
) -> bool {
    if src_ref.id == dst_ref.id {
        copied_within(src, from, to, r)
    } else {
        copied_across(src, src_ref, dst, dst_ref, from, to, 0xFFFF_FFFF_FFFF_FFFF, r)
    }
}

/// The work of a batch copy or move: every item is copied (within one
/// backend natively, across backends by reading and writing), then, for a
/// move, its source deleted as `delete_with_backend` does; failures are
/// reported together ("k of n failed: ...", k the number of items that
/// failed; `copy_batch_outcome` of the answers); a source is removed only
/// after its own copy succeeded. Nothing to copy is a success; a move whose items
/// include a source path holding "../" fails, since that source is either
/// not copied or refused deletion.
pub fn copy_batch<S: FilesystemBackend, D: FilesystemBackend>(
    src: &S,
    src_ref: &BackendRef,
    dst: &D,
    dst_ref: &BackendRef,
    items: &Vec<(String, String)>,
    is_move: bool,
    progress: Option<&TransferProgress>,
) -> (r: Result<(), String>)
    ensures
        items.len() == 0 ==> r is Ok,
        exists|copies: Seq<Result<(), Seq<char>>>, deletes: Seq<Option<Result<(), Seq<char>>>>|
            copies.len() == items.len() && deletes.len() == items.len() && (forall|i: int|
                0 <= i < items.len() ==> ((#[trigger] deletes[i]) is Some <==> is_move && copies[i] is Ok) && (
                deletes[i] is Some && contains_seq(items@[i].0@, "../"@) ==> deletes[i] == Some(
                    Err::<(), Seq<char>>("Cannot delete parent directory"@),
                ))) && (forall|i: int|
                0 <= i < items.len() ==> item_copied(
                    *src,
                    *src_ref,
                    *dst,
                    *dst_ref,
                    items@[i].0@,
                    items@[i].1@,
                    #[trigger] copies[i],
                )) && (forall|i: int|
                0 <= i < items.len() && (#[trigger] deletes[i]) is Some ==> delete_outcome(
                    *src,
                    items@[i].0@,
                    deletes[i]->0,
                )) && unit_result(r) == #[trigger] copy_batch_outcome(source_views(items@), copies, deletes),
        is_move && (exists|i: int| 0 <= i < items.len() && contains_seq(#[trigger] items@[i].0@, "../"@))
            ==> r is Err,
        r matches Err(m) ==> exists|errs: Seq<Seq<char>>|
            0 < errs.len() <= items.len() && m@ == #[trigger] batch_failure_text(items.len() as nat, errs),
{
    if progress.is_some() {
        let mut total: u64 = 0;
        let mut k: usize = 0;
        while k < items.len()
            invariant
                k <= items.len(),
            decreases items.len() - k,
        {
            match src.metadata(items[k].0.as_str()) {
                Ok(info) => {
                    total = total.saturating_add(info.size);
                },
                Err(_) => {},
            }
            k = k + 1;
        }
        set_total(progress, total);
    }
    let ghost fv = source_views(items@);
    let mut msgs: Vec<Option<String>> = Vec::new();
    let ghost mut copies: Seq<Result<(), Seq<char>>> = seq![];
    let ghost mut deletes: Seq<Option<Result<(), Seq<char>>>> = seq![];
    let mut i: usize = 0;
    while i < items.len()
        invariant
            i <= items.len(),
            fv == source_views(items@),
            msgs.len() == i,
            copies.len() == i,
            deletes.len() == i,
            forall|j: int| 0 <= j < i ==> #[trigger] message_views(msgs@)[j] == copy_message(fv[j], copies[j], deletes[j]),
            forall|j: int|
                0 <= j < i ==> ((#[trigger] deletes[j]) is Some <==> is_move && copies[j] is Ok) && (deletes[j] is Some
                    && contains_seq(items@[j].0@, "../"@) ==> deletes[j] == Some(
                    Err::<(), Seq<char>>("Cannot delete parent directory"@),
                )),
            forall|j: int|
                0 <= j < i ==> item_copied(
                    *src,
                    *src_ref,
                    *dst,
                    *dst_ref,
                    items@[j].0@,
                    items@[j].1@,
                    #[trigger] copies[j],
                ),
            forall|j: int|
                0 <= j < i && (#[trigger] deletes[j]) is Some ==> delete_outcome(*src, items@[j].0@, deletes[j]->0),
        decreases items.len() - i,
    {
        let from = items[i].0.as_str();
        let to = items[i].1.as_str();
        let copied: Result<(), String> = if src_ref.id == dst_ref.id {
            let meta = src.metadata(from);
            let ghost mv = info_result(meta);
            let c = match meta {
                Ok(info) => if info.is_dir {
                    src.copy_dir(from, to)
                } else {
                    src.copy_file(from, to)
                },
                Err(e) => Err(e),
            };
            assert(src.metadata_answer(from@, mv));
            c
        } else {
            cross_backend_copy_with_progress(src, src_ref, dst, dst_ref, from, to, progress, 0xFFFF_FFFF_FFFF_FFFF)
        };
        let ghost c = unit_result(copied);
        let ghost mut d: Option<Result<(), Seq<char>>> = None;
        let m = match copied {
            Err(e) => Some(item_error(from, e.as_str())),
            Ok(()) => {
                if is_move {
                    let removed = crate::file_operation::delete_with_backend(src, from);
                    proof {
                        d = Some(unit_result(removed));
                    }
                    match removed {
                        Ok(()) => None,
                        Err(e) => Some(delete_error(from, e.as_str())),
                    }
                } else {
                    None
                }
            },
        };
        let ghost cprev = copies;
        let ghost dprev = deletes;
        proof {
            copies = copies.push(c);
            deletes = deletes.push(d);
            assert(items@[i as int].0@ == from@ && items@[i as int].1@ == to@);
            assert forall|j: int|
                0 <= j < i + 1 implies item_copied(
                *src,
                *src_ref,
                *dst,
                *dst_ref,
                items@[j].0@,
                items@[j].1@,
                #[trigger] copies[j],
            ) by {
                if j < i {
                    assert(copies[j] == cprev[j]);
                }
            }
            assert forall|j: int|
                0 <= j < i + 1 && (#[trigger] deletes[j]) is Some implies delete_outcome(
                *src,
                items@[j].0@,
                deletes[j]->0,
            ) by {
                if j < i {
                    assert(deletes[j] == dprev[j]);
                }
            }
        }
        let ghost before = msgs@;
        msgs.push(m);
        proof {
            assert(fv[i as int] == from@);
            assert forall|j: int| 0 <= j < i + 1 implies #[trigger] message_views(msgs@)[j] == copy_message(fv[j], copies[j], deletes[j]) by {
                if j < i {
                    assert(msgs@[j] == before[j]);
                    assert(message_views(before)[j] == copy_message(fv[j], copies[j], deletes[j]));
                }
            }
        }
        i = i + 1;
    }
    let r = batch_report(items.len(), &msgs);
    proof {
        let cm = Seq::new(fv.len(), |j: int| copy_message(fv[j], copies[j], deletes[j]));
        assert(message_views(msgs@) =~= cm);
        lemma_reports(cm);
        if is_move && exists|j: int| 0 <= j < items.len() && contains_seq(#[trigger] items@[j].0@, "../"@) {
            let j = choose|j: int| 0 <= j < items.len() && contains_seq(#[trigger] items@[j].0@, "../"@);
            assert(deletes[j] is Some <==> is_move && copies[j] is Ok);
            assert(cm[j] is Some);
            assert(reports(cm).contains(cm[j]->0));
        }
        assert(unit_result(r) == copy_batch_outcome(fv, copies, deletes));
        if r is Err {
            assert(batch_failure_text(items.len() as nat, reports(cm)) == r->Err_0@);
        }
    }
    r
}

// ---------------------------------------------------------------------------
// Walks within one backend
// ---------------------------------------------------------------------------

/// Copies a file within one backend by reading it whole and writing it
/// again: a read failure is returned as it came, else the write's answer.
pub fn copy_file_by_reading<B: FilesystemBackend>(fs: &B, from: &str, to: &str) -> (r: Result<(), String>)
    ensures
        exists|read: Result<(), Seq<char>>, write: Result<(), Seq<char>>| #[trigger] post_read_write(read, write, r),
        exists|data: Result<Seq<u8>, Seq<char>>|
            #[trigger] fs.read_answer(from@, usize::MAX, data) && match data {
                Err(e) => unit_result(r) == Err::<(), Seq<char>>(e),
                Ok(bytes) => fs.write_answer(to@, bytes, unit_result(r)),
            },
{
    let read = fs.read_file(from, usize::MAX);
    let ghost rv = bytes_result(read);
    let data = match read {
        Ok(d) => d,
        Err(e) => {
            assert(post_read_write(Err(e@), Ok(()), Err::<(), String>(e)));
            assert(fs.read_answer(from@, usize::MAX, rv));
            return Err(e);
        },
    };
    let r = fs.write_file(to, data.as_slice());
    assert(post_read_write(Ok(()), unit_result(r), r));
    assert(fs.read_answer(from@, usize::MAX, rv));
    r
}

/// A read followed by a write: a failed read is returned as it came,
/// otherwise the write's answer.
pub open spec fn post_read_write(read: Result<(), Seq<char>>, write: Result<(), Seq<char>>, r: Result<(), String>) -> bool {
    match read {
        Err(e) => unit_result(r) == Err::<(), Seq<char>>(e),
        Ok(()) => unit_result(r) == write,
    }
}

/// What copying one listed entry of `from` to the same name under `to`
/// answers: the backend's own `copy_dir` for a directory, `copy_file` for
/// anything else.
pub open spec fn entry_copied<B: FilesystemBackend>(
    fs: B,
    backend: BackendRef,
    from: Seq<char>,
    to: Seq<char>,
    e: DirEntryView,
    r: Result<(), Seq<char>>,
) -> bool {
    let s = backend.spec_join(from, e.name);
    let d = backend.spec_join(to, e.name);
    if e.info.is_dir {
        fs.copy_dir_answer(s, d, r)
    } else {
        fs.copy_file_answer(s, d, r)
    }
}

/// What copying the directory `from` to `to` within one backend answers:
/// the answer of creating `to`, then of listing `from`, then each entry
/// copied (`entry_copied`) in listing order, stopping at the first
/// failure, which is the answer.
pub open spec fn tree_copied<B: FilesystemBackend>(
    fs: B,
    backend: BackendRef,
    from: Seq<char>,
    to: Seq<char>,
    r: Result<(), Seq<char>>,
) -> bool {
    exists|made: Result<(), Seq<char>>|
        #[trigger] fs.create_dir_answer(to, made) && match made {
            Err(e) => r == Err::<(), Seq<char>>(e),
            Ok(()) => exists|listing: Result<Seq<DirEntryView>, Seq<char>>|
                #[trigger] fs.list_dir_answer(from, listing) && match listing {
                    Err(e) => r == Err::<(), Seq<char>>(e),
                    Ok(entries) => exists|steps: Seq<Result<(), Seq<char>>>|
                        #[trigger] stops_at_failure(steps, entries.len()) && r == walk_result(steps) && forall|i: int|
                            0 <= i < steps.len() ==> entry_copied(fs, backend, from, to, entries[i], #[trigger] steps[i]),
                },
        }
}

/// What removing one listed entry of `path` answers: the backend's
/// `remove_dir_all` for a directory, `remove_file` for anything else.
pub open spec fn entry_removed<B: FilesystemBackend>(
    fs: B,
    backend: BackendRef,
    path: Seq<char>,
    e: DirEntryView,
    r: Result<(), Seq<char>>,
) -> bool {
    let child = backend.spec_join(path, e.name);
    if e.info.is_dir {
        fs.remove_dir_all_answer(child, r)
    } else {
        fs.remove_file_answer(child, r)
    }
}

/// What emptying the directory `path` within one backend answers: the
/// answer of listing it, then each entry removed (`entry_removed`) in
/// listing order, stopping at the first failure, which is the answer.
pub open spec fn tree_cleared<B: FilesystemBackend>(fs: B, backend: BackendRef, path: Seq<char>, r: Result<(), Seq<char>>) -> bool {
    exists|listing: Result<Seq<DirEntryView>, Seq<char>>|
        #[trigger] fs.list_dir_answer(path, listing) && match listing {
            Err(e) => r == Err::<(), Seq<char>>(e),
            Ok(entries) => exists|steps: Seq<Result<(), Seq<char>>>|
                #[trigger] stops_at_failure(steps, entries.len()) && r == walk_result(steps) && forall|i: int|
                    0 <= i < steps.len() ==> entry_removed(fs, backend, path, entries[i], #[trigger] steps[i]),
        }
}

/// Copies a directory within one backend: creates `to`, then copies each
/// entry of `from` under the same name (subdirectories through the
/// backend's own directory copy), stopping at the first error (`post_walk`
/// of the answers).
pub fn copy_tree<B: FilesystemBackend>(fs: &B, backend: &BackendRef, from: &str, to: &str) -> (r: Result<(), String>)
    ensures
        exists|first: Result<(), Seq<char>>, listing: Result<nat, Seq<char>>, steps: Seq<Result<(), Seq<char>>>|
            #[trigger] post_walk(first, listing, steps, r),
        tree_copied(*fs, *backend, from@, to@, unit_result(r)),
{
    let made = fs.create_dir(to);
    let ghost md = unit_result(made);
    match made {
        Ok(()) => {},
        Err(e) => {
            assert(post_walk(Err(e@), Ok(0), seq![], Err::<(), String>(e)));
            assert(fs.create_dir_answer(to@, md));
            return Err(e);
        },
    }
    let listed = fs.list_dir(from);
    let ghost lv = listing_result(listed);
    let entries = match listed {
        Ok(v) => v,
        Err(e) => {
            assert(post_walk(Ok(()), Err(e@), seq![], Err::<(), String>(e)));
            assert(fs.create_dir_answer(to@, md));
            assert(fs.list_dir_answer(from@, lv));
            return Err(e);
        },
    };
    let ghost ev = entry_views(entries@);
    let ghost mut steps: Seq<Result<(), Seq<char>>> = seq![];
    let mut i: usize = 0;
    while i < entries.len()
        invariant
            i <= entries.len(),
            steps.len() == i,
            forall|j: int| 0 <= j < i ==> (#[trigger] steps[j]) is Ok,
            ev == entry_views(entries@),
            lv == Ok::<Seq<DirEntryView>, Seq<char>>(ev),
            md == Ok::<(), Seq<char>>(()),
            fs.create_dir_answer(to@, md),
            fs.list_dir_answer(from@, lv),
            forall|j: int| 0 <= j < i ==> entry_copied(*fs, *backend, from@, to@, ev[j], #[trigger] steps[j]),
        decreases entries.len() - i,
    {
        let src = backend.join_path(from, entries[i].name.as_str());
        let dst = backend.join_path(to, entries[i].name.as_str());
        assert(ev[i as int] == entries@[i as int]@);
        let copied = if entries[i].info.is_dir {
            fs.copy_dir(src.as_str(), dst.as_str())
        } else {
            fs.copy_file(src.as_str(), dst.as_str())
        };
        let ghost prev = steps;
        proof {
            steps = steps.push(unit_result(copied));
            assert forall|j: int| 0 <= j < steps.len() implies entry_copied(*fs, *backend, from@, to@, ev[j], #[trigger] steps[j]) by {
                if j < i {
                    assert(steps[j] == prev[j]);
                }
            }
        }
        match copied {
            Ok(()) => {},
            Err(e) => {
                assert(post_walk(Ok(()), Ok(entries.len() as nat), steps, Err::<(), String>(e)));
                assert(fs.create_dir_answer(to@, md));
                assert(fs.list_dir_answer(from@, lv));
                assert(stops_at_failure(steps, ev.len()));
                assert(lv->Ok_0 == ev);
                return Err(e);
            },
        }
        i = i + 1;
    }
    assert(post_walk(Ok(()), Ok(entries.len() as nat), steps, Ok::<(), String>(())));
    assert(fs.create_dir_answer(to@, md));
    assert(fs.list_dir_answer(from@, lv));
    assert(stops_at_failure(steps, ev.len()));
    assert(steps.len() > 0 ==> steps[steps.len() - 1] is Ok);
    assert(lv->Ok_0 == ev);
    Ok(())
}

/// Empties a directory within one backend: each entry is removed
/// (subdirectories through the backend's own recursive removal), stopping
/// at the first error; the directory itself stays (`post_walk` of the
/// answers, with nothing to prepare).
pub fn clear_tree<B: FilesystemBackend>(fs: &B, backend: &BackendRef, path: &str) -> (r: Result<(), String>)
    ensures
        exists|listing: Result<nat, Seq<char>>, steps: Seq<Result<(), Seq<char>>>|
            #[trigger] post_walk(Ok(()), listing, steps, r),
        tree_cleared(*fs, *backend, path@, unit_result(r)),
{
    let listed = fs.list_dir(path);
    let ghost lv = listing_result(listed);
    let entries = match listed {
        Ok(v) => v,
        Err(e) => {
            assert(post_walk(Ok(()), Err(e@), seq![], Err::<(), String>(e)));
            assert(fs.list_dir_answer(path@, lv));
            return Err(e);
        },
    };
    let ghost ev = entry_views(entries@);
    let ghost mut steps: Seq<Result<(), Seq<char>>> = seq![];
    let mut i: usize = 0;
    while i < entries.len()
        invariant
            i <= entries.len(),
            steps.len() == i,
            forall|j: int| 0 <= j < i ==> (#[trigger] steps[j]) is Ok,
            ev == entry_views(entries@),
            lv == Ok::<Seq<DirEntryView>, Seq<char>>(ev),
            fs.list_dir_answer(path@, lv),
            forall|j: int| 0 <= j < i ==> entry_removed(*fs, *backend, path@, ev[j], #[trigger] steps[j]),
        decreases entries.len() - i,
    {
        let child = backend.join_path(path, entries[i].name.as_str());
        assert(ev[i as int] == entries@[i as int]@);
        let removed = if entries[i].info.is_dir {
            fs.remove_dir_all(child.as_str())
        } else {
            fs.remove_file(child.as_str())
        };
        let ghost prev = steps;
        proof {
            steps = steps.push(unit_result(removed));
            assert forall|j: int| 0 <= j < steps.len() implies entry_removed(*fs, *backend, path@, ev[j], #[trigger] steps[j]) by {
                if j < i {
                    assert(steps[j] == prev[j]);
                }
            }
        }
        match removed {
            Ok(()) => {},
            Err(e) => {
                assert(post_walk(Ok(()), Ok(entries.len() as nat), steps, Err::<(), String>(e)));
                assert(fs.list_dir_answer(path@, lv));
                assert(stops_at_failure(steps, ev.len()));
                assert(lv->Ok_0 == ev);
                return Err(e);
            },
        }
        i = i + 1;
    }
    assert(post_walk(Ok(()), Ok(entries.len() as nat), steps, Ok::<(), String>(())));
    assert(fs.list_dir_answer(path@, lv));
    assert(stops_at_failure(steps, ev.len()));
    assert(steps.len() > 0 ==> steps[steps.len() - 1] is Ok);
    assert(lv->Ok_0 == ev);
    Ok(())
}

} // verus!
