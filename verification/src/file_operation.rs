//! File operations of the panels: listing, creating, renaming, deleting,
//! resolving paste targets, and the text shown for sizes, metadata and previews.
use vstd::prelude::*;

use crate::backend::{entry_views, BackendRef, DirEntry, DirEntryView, FileInfo, FileInfoView, FilesystemBackend};
use crate::context::{parent_entry, unit_result, visible_items, Context, PanelState, UiState};
use crate::text::{
    chars_of, concat, concat3, contains_seq, decimal, decimal_string, digit_char, lex_le, owned,
    sort_strings, sorted_strs, starts_with_char, str_contains, str_starts_with_char, string_of,
};

verus! {

// ---------------------------------------------------------------------------
// Human-readable sizes
// ---------------------------------------------------------------------------

/// 2 to the power `e`.
pub open spec fn pow2n(e: nat) -> nat
    decreases e,
{
    if e == 0 {
        1
    } else {
        2 * pow2n((e - 1) as nat)
    }
}

/// Number of binary digits of `n` (0 for 0).
pub open spec fn bit_len(n: nat) -> nat
    decreases n,
{
    if n == 0 {
        0
    } else {
        1 + bit_len(n / 2)
    }
}

/// `n / d` rounded to the nearest integer, ties to the even one.
pub open spec fn div_round_even(n: nat, d: nat) -> nat {
    let q = n / d;
    let r = n % d;
    if 2 * r > d || (2 * r == d && q % 2 == 1) {
        q + 1
    } else {
        q
    }
}

/// The value of `n as f64`: `n` itself below 2^53, otherwise `n` rounded to
/// the nearest multiple of 2^(bits - 53), ties to even (IEEE 754 binary64).
pub open spec fn f64_value(n: nat) -> nat {
    if n < pow2n(53) {
        n
    } else {
        let p = pow2n((bit_len(n) - 53) as nat);
        div_round_even(n, p) * p
    }
}

/// A count of hundredths written with two decimals ("1.50").
pub open spec fn two_decimals(h: nat) -> Seq<char> {
    decimal(h / 100) + seq!['.', digit_char((h % 100) / 10), digit_char(h % 10)]
}

/// The size text: bytes below 1024, otherwise the value in KB, MB or GB
/// (powers of 1024) as the `f64` quotient printed with two decimals, the last
/// one rounded half to even as std's `{:.2}` does.
pub open spec fn size_text(size: nat) -> Seq<char> {
    if size >= pow2n(30) {
        two_decimals(div_round_even(f64_value(size) * 100, pow2n(30))) + " GB"@
    } else if size >= pow2n(20) {
        two_decimals(div_round_even(size * 100, pow2n(20))) + " MB"@
    } else if size >= pow2n(10) {
        two_decimals(div_round_even(size * 100, pow2n(10))) + " KB"@
    } else {
        decimal(size) + " B"@
    }
}

proof fn lemma_pow2n_values()
    ensures
        pow2n(10) == 1024,
        pow2n(20) == 1048576,
        pow2n(30) == 1073741824,
        pow2n(53) == 9007199254740992,
{
    reveal_with_fuel(pow2n, 54);
}

/// `n / d` rounded half to even.
fn div_round_even_exec(n: u128, d: u128) -> (r: u128)
    requires
        0 < d <= 0x1_0000_0000_0000_0000,
        n <= 0x1_0000_0000_0000_0000_0000,
    ensures
        r as nat == div_round_even(n as nat, d as nat),
        r as nat <= n as nat / d as nat + 1,
{
    let q = n / d;
    let r = n % d;
    if 2 * r > d || (2 * r == d && q % 2 == 1) {
        q + 1
    } else {
        q
    }
}

/// Number of binary digits of `n`.
fn bit_length(n: u64) -> (r: u64)
    requires
        bit_len(n as nat) <= 64,
    ensures
        r as nat == bit_len(n as nat),
{
    let mut m = n;
    let mut c: u64 = 0;
    while m > 0
        invariant
            bit_len(n as nat) == c + bit_len(m as nat),
            c + bit_len(m as nat) <= 64,
        decreases m,
    {
        m = m / 2;
        c = c + 1;
    }
    c
}

proof fn lemma_bit_len_bound(n: nat, k: nat)
    requires
        n < pow2n(k),
    ensures
        bit_len(n) <= k,
    decreases k,
{
    if k > 0 && n > 0 {
        lemma_bit_len_bound(n / 2, (k - 1) as nat);
    }
}

proof fn lemma_bit_len_low(n: nat, k: nat)
    requires
        n >= pow2n(k),
    ensures
        bit_len(n) >= k + 1,
    decreases k,
{
    if k > 0 {
        lemma_bit_len_low(n / 2, (k - 1) as nat);
    }
}

/// The value of `n as f64`, exactly.
fn f64_value_exec(n: u64) -> (r: u128)
    ensures
        r as nat == f64_value(n as nat),
        r <= 0x1_0000_0000_0000_0800,
{
    proof {
        lemma_pow2n_values();
    }
    if n < 9007199254740992 {
        return n as u128;
    }
    proof {
        lemma_bit_len_low(n as nat, 53);
        reveal_with_fuel(pow2n, 65);
        lemma_bit_len_bound(n as nat, 64);
    }
    let bl = bit_length(n);
    let e = bl - 53;
    let mut p: u128 = 1;
    let mut i: u64 = 0;
    while i < e
        invariant
            i <= e <= 11,
            p as nat == pow2n(i as nat),
            p <= 2048,
        decreases e - i,
    {
        proof {
            reveal_with_fuel(pow2n, 12);
        }
        p = p * 2;
        i = i + 1;
    }
    let q = div_round_even_exec(n as u128, p);
    let ghost qq = (n as nat) / (p as nat);
    proof {
        vstd::arithmetic::div_mod::lemma_fundamental_div_mod(n as int, p as int);
    }
    assert(q * p <= 0x1_0000_0000_0000_0800) by (nonlinear_arith)
        requires
            q <= qq + 1,
            qq * (p as nat) <= n as nat,
            p > 0,
            n < 0x1_0000_0000_0000_0000,
            p <= 2048,
    ;
    q * p
}

/// Hundredths written "<units>.<tenths><hundredths>".
fn two_decimals_exec(h: u64) -> (r: Vec<char>)
    ensures
        r@ == two_decimals(h as nat),
{
    let mut v = crate::text::decimal_chars(h / 100);
    v.push('.');
    let frac = h % 100;
    let d1: u8 = ((frac / 10) as u8) + 48;
    let d2: u8 = ((frac % 10) as u8) + 48;
    v.push(d1 as char);
    v.push(d2 as char);
    v
}

/// Formats a file size in human-readable form ("512 B", "1.50 KB", "3.00 GB").
pub fn format_size(size: u64) -> (r: String)
    ensures
        r@ == size_text(size as nat),
{
    proof {
        lemma_pow2n_values();
    }
    if size >= 1073741824 {
        let f = f64_value_exec(size);
        let h = div_round_even_exec(f * 100, 1073741824);
        assert(h <= 0xFFFF_FFFF_FFFF_FFFF) by (nonlinear_arith)
            requires
                h as nat <= (f as nat * 100) / 1073741824 + 1,
                f <= 0x1_0000_0000_0000_0800,
        ;
        let mut v = two_decimals_exec(h as u64);
        let unit = chars_of(" GB");
        crate::text::append_chars(&mut v, &unit);
        string_of(&v)
    } else if size >= 1048576 {
        let h = div_round_even_exec((size as u128) * 100, 1048576);
        let mut v = two_decimals_exec(h as u64);
        let unit = chars_of(" MB");
        crate::text::append_chars(&mut v, &unit);
        string_of(&v)
    } else if size >= 1024 {
        let h = div_round_even_exec((size as u128) * 100, 1024);
        let mut v = two_decimals_exec(h as u64);
        let unit = chars_of(" KB");
        crate::text::append_chars(&mut v, &unit);
        string_of(&v)
    } else {
        let d = decimal_string(size);
        concat(d.as_str(), " B")
    }
}

// ---------------------------------------------------------------------------
// Deleting
// ---------------------------------------------------------------------------

/// How a path is removed: recursively as a directory, or as a file.
#[derive(Debug, Clone, Copy, PartialEq, Eq, Structural)]
pub enum Removal {
    Directory,
    File,
}

/// The removal the metadata answer calls for; its error stops the deletion.
pub open spec fn removal_for(meta: Result<FileInfoView, Seq<char>>) -> Result<Removal, Seq<char>> {
    match meta {
        Ok(i) => Ok(if i.is_dir { Removal::Directory } else { Removal::File }),
        Err(e) => Err(e),
    }
}

/// Chooses the removal from the backend's metadata answer.
pub fn choose_removal(meta: Result<FileInfo, String>) -> (r: Result<Removal, String>)
    ensures
        match (r, removal_for(info_result(meta))) {
            (Ok(a), Ok(b)) => a == b,
            (Err(a), Err(b)) => a@ == b,
            _ => false,
        },
{
    match meta {
        Ok(info) => Ok(if info.is_dir { Removal::Directory } else { Removal::File }),
        Err(e) => Err(e),
    }
}

/// What deleting `path` through `fs` answers: a path holding "../" is
/// refused ("Cannot delete parent directory"); otherwise, for the backend's
/// metadata answer on `path`, its error, or else the answer of the removal
/// it calls for (`removal_for`): `remove_dir_all(path)` for a directory,
/// `remove_file(path)` for anything else.
pub open spec fn delete_outcome<B: FilesystemBackend>(fs: B, path: Seq<char>, r: Result<(), Seq<char>>) -> bool {
    if contains_seq(path, "../"@) {
        r == Err::<(), Seq<char>>("Cannot delete parent directory"@)
    } else {
        exists|meta: Result<FileInfoView, Seq<char>>|
            #[trigger] fs.metadata_answer(path, meta) && match removal_for(meta) {
                Err(e) => r == Err::<(), Seq<char>>(e),
                Ok(Removal::Directory) => fs.remove_dir_all_answer(path, r),
                Ok(Removal::File) => fs.remove_file_answer(path, r),
            }
    }
}

/// Deletes `path` through a backend: a path that contains "../" is refused;
/// otherwise the metadata decides (`removal_for`): a directory is removed
/// recursively and anything else as a file, and that removal's result is
/// returned; a metadata error is returned as it came (`delete_outcome`).
pub fn delete_with_backend<B: FilesystemBackend>(backend: &B, path: &str) -> (r: Result<(), String>)
    ensures
        contains_seq(path@, "../"@) ==> (r matches Err(m) && m@ == "Cannot delete parent directory"@),
        delete_outcome(*backend, path@, unit_result(r)),
{
    if str_contains(path, "../") {
        return Err(owned("Cannot delete parent directory"));
    }
    let meta = backend.metadata(path);
    let ghost mv = info_result(meta);
    match choose_removal(meta) {
        Ok(Removal::Directory) => backend.remove_dir_all(path),
        Ok(Removal::File) => backend.remove_file(path),
        Err(e) => Err(e),
    }
}

// ---------------------------------------------------------------------------
// Listing a directory into a panel
// ---------------------------------------------------------------------------

/// Whether a listing shows an entry: hidden (dot) entries only when asked to.
pub open spec fn shown(e: DirEntryView, show_hidden: bool) -> bool {
    show_hidden || !starts_with_char(e.name, '.')
}

/// The shown directories of a listing, each written with a trailing '/', in listing order.
pub open spec fn folder_items(entries: Seq<DirEntryView>, show_hidden: bool) -> Seq<Seq<char>>
    decreases entries.len(),
{
    if entries.len() == 0 {
        seq![]
    } else {
        let rest = folder_items(entries.drop_last(), show_hidden);
        let e = entries.last();
        if shown(e, show_hidden) && e.info.is_dir {
            rest.push(e.name + seq!['/'])
        } else {
            rest
        }
    }
}

/// The shown non-directories of a listing, in listing order.
pub open spec fn file_items(entries: Seq<DirEntryView>, show_hidden: bool) -> Seq<Seq<char>>
    decreases entries.len(),
{
    if entries.len() == 0 {
        seq![]
    } else {
        let rest = file_items(entries.drop_last(), show_hidden);
        let e = entries.last();
        if shown(e, show_hidden) && !e.info.is_dir {
            rest.push(e.name)
        } else {
            rest
        }
    }
}

/// What a panel shows for a listing: first the parent entry and the shown
/// directories, sorted together, then the shown files, sorted.
pub open spec fn listing_items(entries: Seq<DirEntryView>, show_hidden: bool) -> Seq<Seq<char>> {
    sorted_strs(seq![parent_entry()] + folder_items(entries, show_hidden)) + sorted_strs(
        file_items(entries, show_hidden),
    )
}

/// Fills a panel from a listing: its items become the listing's entries as
/// `listing_items` orders them, the listing is fresh, and the filter is
/// applied again (cursor on the first visible item).
pub fn populate_items(panel: &mut PanelState, entries: &Vec<DirEntry>)
    ensures
        final(panel).items.deep_view() == listing_items(entry_views(entries@), old(panel).show_hidden),
        final(panel).filtered_items.deep_view() == visible_items(
            final(panel).items.deep_view(),
            old(panel).filter@,
        ),
        *final(panel) == (PanelState {
            items: final(panel).items,
            filtered_items: final(panel).filtered_items,
            items_dirty: false,
            state: 0,
            ..*old(panel)
        }),
{
    let ghost ev = entry_views(entries@);
    proof {
        reveal_strlit("../");
        reveal_strlit("/");
    }
    let mut folders: Vec<String> = Vec::new();
    folders.push(owned("../"));
    let mut files: Vec<String> = Vec::new();
    proof {
        assert(ev.take(0).len() == 0);
        assert(folders.deep_view()[0] == folders@[0]@);
        assert(folders@[0]@ == "../"@);
        assert("../"@ =~= parent_entry());
        assert(folder_items(ev.take(0), panel.show_hidden) =~= Seq::<Seq<char>>::empty());
        assert(folders.deep_view() =~= seq![parent_entry()] + folder_items(ev.take(0), panel.show_hidden));
        assert(files.deep_view() =~= file_items(ev.take(0), panel.show_hidden));
    }
    let mut i: usize = 0;
    while i < entries.len()
        invariant
            i <= entries.len(),
            ev == entry_views(entries@),
            folders.deep_view() == seq![parent_entry()] + folder_items(ev.take(i as int), panel.show_hidden),
            files.deep_view() == file_items(ev.take(i as int), panel.show_hidden),
        decreases entries.len() - i,
    {
        let entry = &entries[i];
        let ghost pre = ev.take(i + 1);
        assert(pre.drop_last() == ev.take(i as int));
        assert(pre.last() == entry@);
        let show = panel.show_hidden || !str_starts_with_char(entry.name.as_str(), '.');
        if show {
            if entry.info.is_dir {
                let ghost before = folders.deep_view();
                let named = concat(entry.name.as_str(), "/");
                proof {
                    reveal_strlit("/");
                    assert("/"@ =~= seq!['/']);
                }
                assert(named@ == entry.name@ + seq!['/']);
                folders.push(named);
                assert(folders.deep_view() =~= before.push(entry.name@ + seq!['/']));
            } else {
                let ghost before = files.deep_view();
                files.push(entry.name.clone());
                assert(files.deep_view() =~= before.push(entry.name@));
            }
        }
        i = i + 1;
    }
    assert(ev.take(i as int) == ev);
    let folders = sort_strings(folders);
    let files = sort_strings(files);
    let ghost fdv = folders.deep_view();
    let ghost nd = folders.len();
    let mut items = folders;
    let mut k: usize = 0;
    assert(files.deep_view().take(0) =~= Seq::<Seq<char>>::empty());
    assert(items.deep_view() =~= fdv + files.deep_view().take(0));
    while k < files.len()
        invariant
            k <= files.len(),
            items.deep_view() == fdv + files.deep_view().take(k as int),
        decreases files.len() - k,
    {
        let ghost before = items.deep_view();
        items.push(files[k].clone());
        assert(items.deep_view() =~= before.push(files.deep_view()[k as int]));
        assert(files.deep_view().take(k + 1) =~= files.deep_view().take(k as int).push(files.deep_view()[k as int]));
        k = k + 1;
    }
    assert(files.deep_view().take(k as int) == files.deep_view());
    panel.items = items;
    panel.items_dirty = false;
    panel.apply_filter();
}

/// Reads the panel's directory through its backend and fills the panel as
/// `populate_items` does. When the listing fails the panel's items are left
/// empty (the rest of the panel unchanged) and the error is returned.
pub fn list_children<B: FilesystemBackend>(panel: &mut PanelState, fs: &B) -> (r: Result<(), String>)
    ensures
        exists|o: Result<Seq<DirEntryView>, Seq<char>>| #[trigger] post_listing(*old(panel), *final(panel), o, r),
        exists|o: Result<Seq<DirEntryView>, Seq<char>>|
            #[trigger] fs.list_dir_answer(old(panel).path@, o) && post_listing(*old(panel), *final(panel), o, r),
        r is Err ==> final(panel).items@.len() == 0 && *final(panel) == (PanelState {
            items: final(panel).items,
            ..*old(panel)
        }),
        r is Ok ==> (exists|es: Seq<DirEntryView>|
            final(panel).items.deep_view() == #[trigger] listing_items(es, old(panel).show_hidden)),
        r is Ok ==> final(panel).filtered_items.deep_view() == visible_items(
            final(panel).items.deep_view(),
            old(panel).filter@,
        ),
        r is Ok ==> *final(panel) == (PanelState {
            items: final(panel).items,
            filtered_items: final(panel).filtered_items,
            items_dirty: false,
            state: 0,
            ..*old(panel)
        }),
{
    let outcome = fs.list_dir(panel.path.as_str());
    let ghost o = listing_result(outcome);
    assert(fs.list_dir_answer(old(panel).path@, o));
    let r = fill_from_listing(panel, outcome);
    assert(post_listing(*old(panel), *panel, o, r));
    r
}

/// What a listing answer does to a panel: the entries fill it as
/// `populate_items` does; an error empties its items (the rest unchanged)
/// and is returned as it came.
pub open spec fn post_listing(p: PanelState, q: PanelState, outcome: Result<Seq<DirEntryView>, Seq<char>>, r: Result<(), String>) -> bool {
    match outcome {
        Ok(es) => {
            &&& r is Ok
            &&& q.items.deep_view() == listing_items(es, p.show_hidden)
            &&& q.filtered_items.deep_view() == visible_items(q.items.deep_view(), p.filter@)
            &&& q == PanelState {
                items: q.items,
                filtered_items: q.filtered_items,
                items_dirty: false,
                state: 0,
                ..p
            }
        },
        Err(e) => r matches Err(m) && m@ == e && q.items@.len() == 0 && q == PanelState { items: q.items, ..p },
    }
}

/// Fills a panel from the backend's answer to a listing request.
pub fn fill_from_listing(panel: &mut PanelState, outcome: Result<Vec<DirEntry>, String>) -> (r: Result<(), String>)
    ensures
        post_listing(*old(panel), *final(panel), listing_result(outcome), r),
{
    match outcome {
        Ok(entries) => {
            populate_items(panel, &entries);
            Ok(())
        },
        Err(e) => {
            panel.items = Vec::new();
            Err(e)
        },
    }
}

// ---------------------------------------------------------------------------
// Metadata text
// ---------------------------------------------------------------------------

/// The kind of an entry as shown to the user.
pub open spec fn file_type_text(info: FileInfoView) -> Seq<char> {
    if info.is_dir {
        "Directory"@
    } else if info.is_file {
        "File"@
    } else {
        "Other"@
    }
}

/// How long ago something happened, `secs` seconds back, in its largest whole unit.
pub open spec fn age_text(secs: nat) -> Seq<char> {
    if secs < 60 {
        decimal(secs) + " seconds ago"@
    } else if secs < 3600 {
        decimal(secs / 60) + " minutes ago"@
    } else if secs < 86400 {
        decimal(secs / 3600) + " hours ago"@
    } else {
        decimal(secs / 86400) + " days ago"@
    }
}

/// The modification time relative to `now` (seconds since the epoch);
/// "Unknown" when it is not known or lies in the future.
pub open spec fn modified_text(modified: Option<u64>, now: u64) -> Seq<char> {
    match modified {
        Some(m) => if m <= now {
            age_text((now - m) as nat)
        } else {
            "Unknown"@
        },
        None => "Unknown"@,
    }
}

/// The metadata block shown in the preview.
pub open spec fn metadata_text(info: FileInfoView, now: u64) -> Seq<char> {
    "Type: "@ + file_type_text(info) + "\nSize: "@ + (if info.is_dir {
        "\u{2014}"@
    } else {
        size_text(info.size as nat)
    }) + "\nModified: "@ + modified_text(info.modified, now) + "\nPermissions: "@ + (
    if info.readonly {
        "Read-only"@
    } else {
        "Read/Write"@
    })
}

fn age_string(secs: u64) -> (r: String)
    ensures
        r@ == age_text(secs as nat),
{
    if secs < 60 {
        concat(decimal_string(secs).as_str(), " seconds ago")
    } else if secs < 3600 {
        concat(decimal_string(secs / 60).as_str(), " minutes ago")
    } else if secs < 86400 {
        concat(decimal_string(secs / 3600).as_str(), " hours ago")
    } else {
        concat(decimal_string(secs / 86400).as_str(), " days ago")
    }
}

/// Formats the metadata of an entry: type, size, age of the last
/// modification relative to `now` (seconds since the epoch) and permissions.
pub fn format_file_metadata_from_info(info: &FileInfo, now: u64) -> (r: String)
    ensures
        r@ == metadata_text(info@, now),
{
    let file_type = if info.is_dir {
        "Directory"
    } else if info.is_file {
        "File"
    } else {
        "Other"
    };
    let size = if info.is_dir {
        owned("\u{2014}")
    } else {
        format_size(info.size)
    };
    let modified = match info.modified {
        Some(m) => if m <= now {
            age_string(now - m)
        } else {
            owned("Unknown")
        },
        None => owned("Unknown"),
    };
    let permissions = if info.readonly {
        "Read-only"
    } else {
        "Read/Write"
    };
    let a = concat3("Type: ", file_type, "\nSize: ");
    let b = concat3(a.as_str(), size.as_str(), "\nModified: ");
    let c = concat3(b.as_str(), modified.as_str(), "\nPermissions: ");
    concat(c.as_str(), permissions)
}

/// The short size text of a panel row: nothing for a directory, the size otherwise.
pub fn format_item_details_from_info(info: &FileInfo) -> (r: String)
    ensures
        info.is_dir ==> r@.len() == 0,
        !info.is_dir ==> r@ == size_text(info.size as nat),
{
    if info.is_dir {
        String::new()
    } else {
        format_size(info.size)
    }
}

// ---------------------------------------------------------------------------
// Previews
// ---------------------------------------------------------------------------

/// How a directory's contents list an entry: directories with a trailing '/'.
pub open spec fn entry_label(e: DirEntryView) -> Seq<char> {
    if e.info.is_dir {
        e.name + seq!['/']
    } else {
        e.name
    }
}

/// The labels of a listing, in listing order.
pub open spec fn entry_labels(entries: Seq<DirEntryView>) -> Seq<Seq<char>>
    decreases entries.len(),
{
    if entries.len() == 0 {
        seq![]
    } else {
        entry_labels(entries.drop_last()).push(entry_label(entries.last()))
    }
}

/// Each name on a line of its own, indented by two spaces.
pub open spec fn indented_lines(names: Seq<Seq<char>>) -> Seq<char>
    decreases names.len(),
{
    if names.len() == 0 {
        seq![]
    } else {
        indented_lines(names.drop_last()) + "  "@ + names.last() + "\n"@
    }
}

/// The contents part of a directory preview: the first 20 names, then how
/// many more there are.
pub open spec fn contents_text(names: Seq<Seq<char>>) -> Seq<char> {
    if names.len() > 20 {
        indented_lines(names.take(20)) + "  ... and "@ + decimal((names.len() - 20) as nat)
            + " more items\n"@
    } else {
        indented_lines(names)
    }
}

/// The preview of a directory: its metadata, then its sorted entries.
pub open spec fn directory_preview_text(metadata: Seq<char>, entries: Seq<DirEntryView>) -> Seq<char> {
    metadata + "\n\n=== Contents ===\n"@ + contents_text(sorted_strs(entry_labels(entries)))
}

/// The preview of a file: its metadata, then its text, or a note that it is binary.
pub open spec fn file_preview_text(metadata: Seq<char>, data: Seq<u8>) -> Seq<char> {
    if vstd::utf8::valid_utf8(data) {
        metadata + "\n\n=== Preview ===\n"@ + vstd::utf8::decode_utf8(data)
    } else {
        metadata + "\n\n[Binary file - cannot preview]"@
    }
}

/// Builds the preview of a directory from its metadata text and its listing.
pub fn directory_preview(metadata: &str, entries: &Vec<DirEntry>) -> (r: String)
    ensures
        r@ == directory_preview_text(metadata@, entry_views(entries@)),
{
    let ghost ev = entry_views(entries@);
    let mut names: Vec<String> = Vec::new();
    let mut i: usize = 0;
    while i < entries.len()
        invariant
            i <= entries.len(),
            ev == entry_views(entries@),
            names.deep_view() == entry_labels(ev.take(i as int)),
        decreases entries.len() - i,
    {
        let e = &entries[i];
        let ghost pre = ev.take(i + 1);
        assert(pre.drop_last() == ev.take(i as int));
        assert(pre.last() == e@);
        let label = if e.info.is_dir {
            let l = concat(e.name.as_str(), "/");
            proof {
                reveal_strlit("/");
                assert("/"@ =~= seq!['/']);
            }
            l
        } else {
            e.name.clone()
        };
        let ghost before = names.deep_view();
        names.push(label);
        assert(names.deep_view() =~= before.push(entry_label(e@)));
        i = i + 1;
    }
    assert(ev.take(i as int) == ev);
    let names = sort_strings(names);
    let total = names.len();
    let shown = if total > 20 {
        20
    } else {
        total
    };
    let mut out: Vec<char> = chars_of(metadata);
    let head = chars_of("\n\n=== Contents ===\n");
    crate::text::append_chars(&mut out, &head);
    let ghost start = out@;
    let mut k: usize = 0;
    assert(names.deep_view().take(0) =~= Seq::<Seq<char>>::empty());
    while k < shown
        invariant
            k <= shown <= names.len(),
            out@ == start + indented_lines(names.deep_view().take(k as int)),
        decreases shown - k,
    {
        let indent = chars_of("  ");
        let name = chars_of(names[k].as_str());
        let nl = chars_of("\n");
        crate::text::append_chars(&mut out, &indent);
        crate::text::append_chars(&mut out, &name);
        crate::text::append_chars(&mut out, &nl);
        let ghost t = names.deep_view().take(k + 1);
        assert(t.drop_last() =~= names.deep_view().take(k as int));
        assert(t.last() == names@[k as int]@);
        k = k + 1;
    }
    if total > 20 {
        let more = concat3("  ... and ", decimal_string((total - 20) as u64).as_str(), " more items\n");
        let mv = chars_of(more.as_str());
        crate::text::append_chars(&mut out, &mv);
    } else {
        assert(names.deep_view().take(k as int) =~= names.deep_view());
    }
    string_of(&out)
}

/// Builds the preview of a file from its metadata text and its first bytes.
pub fn file_preview(metadata: &str, data: Vec<u8>) -> (r: String)
    ensures
        r@ == file_preview_text(metadata@, data@),
{
    match crate::text::utf8_text(data) {
        Some(text) => concat3(metadata, "\n\n=== Preview ===\n", text.as_str()),
        None => concat(metadata, "\n\n[Binary file - cannot preview]"),
    }
}

/// A backend's answer to a listing request, as plain values.
pub open spec fn listing_result(o: Result<Vec<DirEntry>, String>) -> Result<Seq<DirEntryView>, Seq<char>> {
    match o {
        Ok(v) => Ok(entry_views(v@)),
        Err(e) => Err(e@),
    }
}

/// A backend's answer to a read request, as plain values.
pub open spec fn bytes_result(o: Result<Vec<u8>, String>) -> Result<Seq<u8>, Seq<char>> {
    match o {
        Ok(v) => Ok(v@),
        Err(e) => Err(e@),
    }
}

/// A backend's answer to a metadata request, as plain values.
pub open spec fn info_result(o: Result<FileInfo, String>) -> Result<FileInfoView, Seq<char>> {
    match o {
        Ok(i) => Ok(i@),
        Err(e) => Err(e@),
    }
}

/// The preview of a path from what the backend answered: its metadata
/// (ages relative to `now`), then, for a directory, the listing's contents,
/// for a file, its first bytes as text; each failure is reported in the text.
/// The listing only matters for a directory, the bytes only for a file.
pub open spec fn preview_text(
    meta: Result<FileInfoView, Seq<char>>,
    listing: Result<Seq<DirEntryView>, Seq<char>>,
    data: Result<Seq<u8>, Seq<char>>,
    now: u64,
) -> Seq<char> {
    match meta {
        Err(e) => "Error: "@ + e,
        Ok(info) => {
            let m = metadata_text(info, now);
            if info.is_dir {
                match listing {
                    Ok(es) => directory_preview_text(m, es),
                    Err(e) => m + "\n\n[Error reading directory: "@ + e + "]"@,
                }
            } else if info.is_file {
                match data {
                    Ok(d) => file_preview_text(m, d),
                    Err(e) => m + "\n\n["@ + e + "]"@,
                }
            } else {
                m + "\n\n[Special file type]"@
            }
        },
    }
}

/// The texts a preview can be: the preview for some answers of the backend.
pub open spec fn is_preview_text(r: Seq<char>, now: u64) -> bool {
    exists|
        meta: Result<FileInfoView, Seq<char>>,
        listing: Result<Seq<DirEntryView>, Seq<char>>,
        data: Result<Seq<u8>, Seq<char>>,
    | r == #[trigger] preview_text(meta, listing, data, now)
}

/// Builds the preview from the backend's answers (`preview_text`).
pub fn preview_of_outcomes(
    meta: Result<FileInfo, String>,
    listing: Result<Vec<DirEntry>, String>,
    data: Result<Vec<u8>, String>,
    now: u64,
) -> (r: String)
    ensures
        r@ == preview_text(info_result(meta), listing_result(listing), bytes_result(data), now),
{
    let info = match meta {
        Ok(info) => info,
        Err(e) => return concat("Error: ", e.as_str()),
    };
    let metadata_str = format_file_metadata_from_info(&info, now);
    if info.is_dir {
        match listing {
            Ok(entries) => directory_preview(metadata_str.as_str(), &entries),
            Err(e) => {
                let a = concat3(metadata_str.as_str(), "\n\n[Error reading directory: ", e.as_str());
                concat(a.as_str(), "]")
            },
        }
    } else if info.is_file {
        match data {
            Ok(d) => file_preview(metadata_str.as_str(), d),
            Err(e) => concat(concat3(metadata_str.as_str(), "\n\n[", e.as_str()).as_str(), "]"),
        }
    } else {
        concat(metadata_str.as_str(), "\n\n[Special file type]")
    }
}

/// Largest number of bytes of a file that a preview reads.
pub const PREVIEW_BYTES: usize = 65536;

/// The preview of `path` from what `fs` answers: `preview_text` of its
/// metadata answer on `path`, of its listing of `path` when that is a
/// directory, and of its reading of `path` (at most `PREVIEW_BYTES`) when
/// that is a file.
pub open spec fn preview_answered<B: FilesystemBackend>(fs: B, path: Seq<char>, now: u64, r: Seq<char>) -> bool {
    exists|
        meta: Result<FileInfoView, Seq<char>>,
        listing: Result<Seq<DirEntryView>, Seq<char>>,
        data: Result<Seq<u8>, Seq<char>>,
    |
        #![trigger fs.metadata_answer(path, meta), preview_text(meta, listing, data, now)]
        fs.metadata_answer(path, meta) && (meta matches Ok(i) && i.is_dir ==> fs.list_dir_answer(path, listing)) && (
        meta matches Ok(i) && !i.is_dir && i.is_file ==> fs.read_answer(path, PREVIEW_BYTES, data)) && r
            == preview_text(meta, listing, data, now)
}

/// The preview of `path` through a backend: its metadata (ages relative to
/// `now`), then a directory's first 20 sorted entries or the first 64 KiB of
/// a file as text, as `preview_text` gives it for the backend's answers
/// (`preview_answered`).
pub fn generate_preview_with_backend<B: FilesystemBackend>(fs: &B, path: &str, now: u64) -> (r: String)
    ensures
        is_preview_text(r@, now),
        preview_answered(*fs, path@, now, r@),
{
    let meta = fs.metadata(path);
    let (listing, data) = match &meta {
        Ok(info) => if info.is_dir {
            (fs.list_dir(path), Ok(Vec::new()))
        } else if info.is_file {
            (Ok(Vec::new()), fs.read_file(path, PREVIEW_BYTES))
        } else {
            (Ok(Vec::new()), Ok(Vec::new()))
        },
        Err(_) => (Ok(Vec::new()), Ok(Vec::new())),
    };
    let ghost (m, l, d) = (info_result(meta), listing_result(listing), bytes_result(data));
    assert(fs.metadata_answer(path@, m));
    let r = preview_of_outcomes(meta, listing, data, now);
    assert(r@ == preview_text(m, l, d, now));
    r
}

// ---------------------------------------------------------------------------
// Creating, renaming and paste targets in the active panel
// ---------------------------------------------------------------------------

/// What the backend's answer to a creation does: the popup closes; on
/// success the input is cleared and the active panel's cursor goes to the
/// top; an error is returned as it came.
pub open spec fn post_created(c: Context, n: Context, o: Result<(), Seq<char>>, r: Result<(), String>) -> bool {
    match o {
        Ok(()) => {
            &&& r is Ok
            &&& n.input@.len() == 0
            &&& n.panels@ == c.panels@.update(c.active_panel as int, PanelState { state: 0, ..c.spec_active() })
            &&& n == Context { ui_state: UiState::Normal, input: n.input, panels: n.panels, ..c }
        },
        Err(e) => r matches Err(m) && m@ == e && n == Context { ui_state: UiState::Normal, ..c },
    }
}

/// Takes the backend's answer to a creation (`post_created`).
pub fn finish_create(context: &mut Context, o: Result<(), String>) -> (r: Result<(), String>)
    requires
        old(context).active_panel < 2,
    ensures
        post_created(*old(context), *final(context), unit_result(o), r),
{
    context.set_ui_state(UiState::Normal);
    match o {
        Ok(()) => {
            context.set_input(String::new());
            context.active_mut().state = 0;
            Ok(())
        },
        Err(e) => Err(e),
    }
}

/// What the backend's answer to a rename does: the popup closes; on
/// success the input is cleared; an error is returned as it came.
pub open spec fn post_renamed(c: Context, n: Context, o: Result<(), Seq<char>>, r: Result<(), String>) -> bool {
    match o {
        Ok(()) => r is Ok && n.input@.len() == 0 && n == Context {
            ui_state: UiState::Normal,
            input: n.input,
            ..c
        },
        Err(e) => r matches Err(m) && m@ == e && n == Context { ui_state: UiState::Normal, ..c },
    }
}

/// Takes the backend's answer to a rename (`post_renamed`).
pub fn finish_rename(context: &mut Context, o: Result<(), String>) -> (r: Result<(), String>)
    ensures
        post_renamed(*old(context), *final(context), unit_result(o), r),
{
    context.set_ui_state(UiState::Normal);
    match o {
        Ok(()) => {
            context.set_input(String::new());
            Ok(())
        },
        Err(e) => Err(e),
    }
}

/// A backend's yes-or-no answer, as plain values.
pub open spec fn bool_result(o: Result<bool, String>) -> Result<bool, Seq<char>> {
    match o {
        Ok(b) => Ok(b),
        Err(e) => Err(e@),
    }
}

/// What creating a file does with the backend's answers to "does the path
/// exist" and to the creation: an existing path is refused ("Already
/// exists: <path>") with nothing changed; otherwise as `post_created` (an
/// error from the existence check counts as "does not exist").
pub open spec fn post_create_file(c: Context, n: Context, exists: Result<bool, Seq<char>>, o: Result<(), Seq<char>>, r: Result<(), String>) -> bool {
    if exists == Ok::<bool, Seq<char>>(true) {
        r matches Err(m) && m@ == "Already exists: "@ + c.spec_active().backend.spec_join(
            c.spec_active().path@,
            c.input@,
        ) && n == c
    } else {
        post_created(c, n, o, r)
    }
}

/// Creates the directory named by the input in the active panel's
/// directory. The popup closes first; on success the input is cleared and
/// the cursor goes to the top; a backend error is returned as it came.
pub fn handle_create_directory<B: FilesystemBackend>(context: &mut Context, fs: &B) -> (r: Result<(), String>)
    requires
        old(context).active_panel < 2,
    ensures
        r is Err ==> *final(context) == (Context { ui_state: UiState::Normal, ..*old(context) }),
        r is Ok ==> final(context).input@.len() == 0 && final(context).panels@
            == old(context).panels@.update(
            old(context).active_panel as int,
            PanelState { state: 0, ..old(context).spec_active() },
        ) && *final(context) == (Context {
            ui_state: UiState::Normal,
            input: final(context).input,
            panels: final(context).panels,
            ..*old(context)
        }),
        exists|o: Result<(), Seq<char>>| #[trigger] post_created(*old(context), *final(context), o, r),
        exists|o: Result<(), Seq<char>>|
            #[trigger] fs.create_dir_answer(
                old(context).spec_active().backend.spec_join(old(context).spec_active().path@, old(context).input@),
                o,
            ) && post_created(*old(context), *final(context), o, r),
{
    let path = context.active().backend.join_path(context.active().path.as_str(), context.input.as_str());
    let o = fs.create_dir(path.as_str());
    let ghost ov = unit_result(o);
    assert(fs.create_dir_answer(path@, ov));
    let r = finish_create(context, o);
    assert(post_created(*old(context), *context, ov, r));
    r
}

/// Creates the empty file named by the input in the active panel's
/// directory. An empty name, or a name that already exists there, is
/// refused with nothing changed; otherwise as `handle_create_directory`.
pub fn handle_create_file<B: FilesystemBackend>(context: &mut Context, fs: &B) -> (r: Result<(), String>)
    requires
        old(context).active_panel < 2,
    ensures
        old(context).input@.len() == 0 ==> (r matches Err(m) && m@ == "Filename cannot be empty"@)
            && *final(context) == *old(context),
        r is Err ==> {
            ||| *final(context) == *old(context) && (r matches Err(m) && (m@ == "Filename cannot be empty"@
                || m@ == "Already exists: "@ + old(context).spec_active().backend.spec_join(
                old(context).spec_active().path@,
                old(context).input@,
            )))
            ||| *final(context) == (Context { ui_state: UiState::Normal, ..*old(context) })
        },
        r is Ok ==> old(context).input@.len() > 0 && final(context).input@.len() == 0
            && final(context).panels@ == old(context).panels@.update(
            old(context).active_panel as int,
            PanelState { state: 0, ..old(context).spec_active() },
        ) && *final(context) == (Context {
            ui_state: UiState::Normal,
            input: final(context).input,
            panels: final(context).panels,
            ..*old(context)
        }),
        old(context).input@.len() > 0 ==> exists|ex: Result<bool, Seq<char>>, o: Result<(), Seq<char>>|
            #[trigger] post_create_file(*old(context), *final(context), ex, o, r),
        old(context).input@.len() > 0 ==> exists|ex: Result<bool, Seq<char>>|
            #[trigger] fs.exists_answer(
                old(context).spec_active().backend.spec_join(old(context).spec_active().path@, old(context).input@),
                ex,
            ) && file_created(*fs, *old(context), *final(context), ex, r),
{
    if context.input.as_str().is_empty() {
        return Err(owned("Filename cannot be empty"));
    }
    let path = context.active().backend.join_path(context.active().path.as_str(), context.input.as_str());
    let answer = fs.path_exists(path.as_str());
    let ghost ex = bool_result(answer);
    assert(fs.exists_answer(path@, ex));
    let r = create_file_after_check(context, fs, answer);
    proof {
        let o = choose|o: Result<(), Seq<char>>| #[trigger] post_create_file(*old(context), *context, ex, o, r);
    }
    r
}

/// `post_create_file` for the backend's answer `ex` whether the target
/// exists, the creation's answer coming from its `create_file` of the
/// input joined to the active panel's path.
pub open spec fn file_created<B: FilesystemBackend>(fs: B, c: Context, n: Context, ex: Result<bool, Seq<char>>, r: Result<(), String>) -> bool {
    exists|o: Result<(), Seq<char>>|
        #[trigger] post_create_file(c, n, ex, o, r) && (ex != Ok::<bool, Seq<char>>(true) ==> fs.create_file_answer(
            c.spec_active().backend.spec_join(c.spec_active().path@, c.input@),
            o,
        ))
}

/// Creates the file named by the input in the active panel's directory,
/// given the backend's answer whether that path exists (`post_create_file`):
/// an existing path is refused with nothing changed; otherwise the creation
/// is asked for and its answer taken by `finish_create`.
pub fn create_file_after_check<B: FilesystemBackend>(context: &mut Context, fs: &B, exists: Result<bool, String>) -> (r: Result<(), String>)
    requires
        old(context).active_panel < 2,
    ensures
        exists|o: Result<(), Seq<char>>| #[trigger] post_create_file(*old(context), *final(context), bool_result(exists), o, r),
        file_created(*fs, *old(context), *final(context), bool_result(exists), r),
{
    let path = context.active().backend.join_path(context.active().path.as_str(), context.input.as_str());
    let ghost ex = bool_result(exists);
    let found = match exists {
        Ok(b) => b,
        Err(_) => false,
    };
    if found {
        let r = Err(concat("Already exists: ", path.as_str()));
        assert(post_create_file(*old(context), *context, ex, Ok(()), r));
        return r;
    }
    let o = fs.create_file(path.as_str());
    let ghost ov = unit_result(o);
    assert(fs.create_file_answer(path@, ov));
    let r = finish_create(context, o);
    assert(post_create_file(*old(context), *context, ex, ov, r));
    r
}

/// Renames the item under the active panel's cursor (its trailing '/'
/// removed) to the name in the input, within the same directory. An empty
/// name or no item under the cursor is refused with nothing changed;
/// otherwise the popup closes first and, on success, the input is cleared.
pub fn handle_rename<B: FilesystemBackend>(context: &mut Context, fs: &B) -> (r: Result<(), String>)
    requires
        old(context).active_panel < 2,
    ensures
        old(context).input@.len() == 0 ==> (r matches Err(m) && m@ == "Name cannot be empty"@)
            && *final(context) == *old(context),
        old(context).input@.len() > 0 && old(context).spec_active().spec_selected_item() is None ==> (
        r matches Err(m) && m@ == "No item selected"@) && *final(context) == *old(context),
        old(context).input@.len() > 0 && old(context).spec_active().spec_selected_item() is Some ==> {
            &&& r is Err ==> *final(context) == (Context { ui_state: UiState::Normal, ..*old(context) })
            &&& r is Ok ==> final(context).input@.len() == 0 && *final(context) == (Context {
                ui_state: UiState::Normal,
                input: final(context).input,
                ..*old(context)
            })
            &&& exists|o: Result<(), Seq<char>>| #[trigger] post_renamed(*old(context), *final(context), o, r)
        },
        old(context).input@.len() > 0 && old(context).spec_active().spec_selected_item() is Some
            ==> exists|o: Result<(), Seq<char>>|
            #[trigger] fs.rename_answer(
                old(context).spec_active().item_path(old(context).spec_active().spec_selected_item()->0),
                old(context).spec_active().backend.spec_join(old(context).spec_active().path@, old(context).input@),
                o,
            ) && post_renamed(*old(context), *final(context), o, r),
{
    if context.input.as_str().is_empty() {
        return Err(owned("Name cannot be empty"));
    }
    let old_path = match context.active().selected_item_path() {
        Some(p) => p,
        None => return Err(owned("No item selected")),
    };
    let new_path = context.active().backend.join_path(context.active().path.as_str(), context.input.as_str());
    let o = fs.rename(old_path.as_str(), new_path.as_str());
    let ghost ov = unit_result(o);
    assert(fs.rename_answer(old_path@, new_path@, ov));
    let r = finish_rename(context, o);
    assert(post_renamed(*old(context), *context, ov, r));
    r
}

/// Where a paste into a panel may go: the panel's directory, or, when the
/// cursor is on an item other than the first, that item's path (it is used
/// when the backend reports a directory there).
pub open spec fn dest_dir_choice(panel: PanelState, d: Seq<char>) -> bool {
    ||| d == panel.path@
    ||| panel.state != 0 && (panel.spec_selected_item() matches Some(item) && d == panel.item_path(item))
}

/// The directory a paste goes to, given the backend's metadata answer for
/// the item under the cursor: that item's path when the cursor is not on
/// the first row and the backend reports a directory there; else the
/// panel's directory.
pub open spec fn dest_dir_for(p: PanelState, meta: Result<FileInfoView, Seq<char>>) -> Seq<char> {
    if p.state != 0 && p.spec_selected_item() is Some && meta is Ok && meta->Ok_0.is_dir {
        p.item_path(p.spec_selected_item()->0)
    } else {
        p.path@
    }
}

/// The paste directory from the backend's metadata answer (`dest_dir_for`).
pub fn dest_dir_from(panel: &PanelState, meta: Result<FileInfo, String>) -> (r: String)
    ensures
        r@ == dest_dir_for(*panel, info_result(meta)),
{
    if panel.get_state() != 0 {
        match panel.selected_item_path() {
            Some(full) => match meta {
                Ok(info) => if info.is_dir {
                    return full;
                },
                Err(_) => {},
            },
            None => {},
        }
    }
    panel.path.clone()
}

/// The paste directory `d` of panel `p` as `fs` answers it: when the
/// cursor is on an item other than the first, `dest_dir_for` of the
/// backend's metadata answer on that item's path (the item's path for a
/// directory, else the panel's directory); otherwise the panel's directory,
/// nothing being asked.
pub open spec fn paste_dir_answer<B: FilesystemBackend>(fs: B, p: PanelState, d: Seq<char>) -> bool {
    if p.state != 0 && p.spec_selected_item() is Some {
        exists|meta: Result<FileInfoView, Seq<char>>|
            #[trigger] fs.metadata_answer(p.item_path(p.spec_selected_item()->0), meta) && d == dest_dir_for(
                p,
                meta,
            )
    } else {
        d == p.path@
    }
}

/// The directory a paste goes to: the directory under the active panel's
/// cursor when the cursor is not on the first row, else the panel's
/// directory (`dest_dir_for` of the backend's metadata answer; `paste_dir_answer`).
pub fn resolve_dest_dir<B: FilesystemBackend>(context: &Context, fs: &B) -> (r: String)
    requires
        context.active_panel < 2,
    ensures
        dest_dir_choice(context.spec_active(), r@),
        context.spec_active().state == 0 || context.spec_active().spec_selected_item() is None ==> r@
            == context.spec_active().path@,
        exists|meta: Result<FileInfoView, Seq<char>>| r@ == #[trigger] dest_dir_for(context.spec_active(), meta),
        paste_dir_answer(*fs, context.spec_active(), r@),
{
    let panel = context.active();
    if panel.get_state() != 0 {
        match panel.selected_item_path() {
            Some(full) => {
                let meta = fs.metadata(full.as_str());
                let ghost mv = info_result(meta);
                let r = dest_dir_from(panel, meta);
                assert(r@ == dest_dir_for(*panel, mv));
                assert(fs.metadata_answer(full@, mv));
                return r;
            },
            None => {},
        }
    }
    let r = panel.path.clone();
    assert(r@ == dest_dir_for(*panel, Err(seq![])));
    r
}

/// The backend the clipboard's paths belong to: the one they were copied
/// from, or the active panel's when none was recorded.
pub open spec fn paste_source(context: Context) -> BackendRef {
    match context.copy_source_backend {
        Some(b) => b,
        None => context.spec_active().backend,
    }
}

/// Source and destination of pasting the clipboard's single path: the
/// destination is the paste directory joined with the source's file name;
/// a source without a file name is refused. Nothing in the state changes.
pub fn resolve_paste_paths<B: FilesystemBackend>(context: &mut Context, fs: &B) -> (r: Result<(String, String), String>)
    requires
        old(context).active_panel < 2,
    ensures
        *final(context) == *old(context),
        paste_source(*old(context)).spec_file_name(old(context).copy_path@) is None ==> (r matches Err(m)
            && m@ == "Invalid source path"@),
        paste_source(*old(context)).spec_file_name(old(context).copy_path@) matches Some(name) ==> (
        r matches Ok((from, to)) && from@ == old(context).copy_path@ && exists|d: Seq<char>|
            dest_dir_choice(old(context).spec_active(), d) && to@ == old(
            context,
        ).spec_active().backend.spec_join(d, name) && exists|meta: Result<FileInfoView, Seq<char>>|
            d == #[trigger] dest_dir_for(old(context).spec_active(), meta)),
        paste_source(*old(context)).spec_file_name(old(context).copy_path@) matches Some(name) ==> (
        r matches Ok((from, to)) && exists|d: Seq<char>|
            #[trigger] paste_dir_answer(*fs, old(context).spec_active(), d) && to@ == old(
            context,
        ).spec_active().backend.spec_join(d, name)),
{
    let from = context.get_copy_path().clone();
    let dest_dir = resolve_dest_dir(context, fs);
    let item_name = match &context.copy_source_backend {
        Some(b) => b.file_name(from.as_str()),
        None => context.active().backend.file_name(from.as_str()),
    };
    let item_name = match item_name {
        Some(n) => n,
        None => return Err(owned("Invalid source path")),
    };
    let to = context.active().backend.join_path(dest_dir.as_str(), item_name.as_str());
    assert(dest_dir_choice(context.spec_active(), dest_dir@));
    Ok((from, to))
}

} // verus!
