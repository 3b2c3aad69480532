//! The state of the file manager: two directory panels, the popups and
//! dialogs, the clipboard, the running background operation and the settings.
use std::sync::mpsc::Receiver;
use std::sync::Arc;
use vstd::prelude::*;

pub use crate::backend::ConnectionProtocol;
use crate::background_op::{try_receive, FileOpResult, Received, TransferProgress};
use crate::backend::{BackendRef, FileInfo, FilesystemBackend};
use crate::config::Config;
use crate::file_operation::{generate_preview_with_backend, info_result, is_preview_text, preview_answered};
use crate::text::{
    chars_of, concat, contains_seq, lowercase, owned, str_contains, str_lowercase, trim_end,
    trim_end_char,
};

verus! {

/// The entry that leads to the parent directory.
pub open spec fn parent_entry() -> Seq<char> {
    seq!['.', '.', '/']
}

/// Whether a listing item is the parent entry "../".
pub fn is_parent_entry(s: &str) -> (b: bool)
    ensures
        b == (s@ == parent_entry()),
{
    let v = chars_of(s);
    let b = v.len() == 3 && v[0] == '.' && v[1] == '.' && v[2] == '/';
    assert(b == (v@ == parent_entry())) by {
        if b {
            assert(v@ =~= parent_entry());
        }
    }
    b
}

/// Whether the filter keeps an item: the parent entry always, any other item
/// when its lower-case form contains the lower-case filter.
pub open spec fn keeps(item: Seq<char>, filter_lower: Seq<char>) -> bool {
    item == parent_entry() || contains_seq(str_lowercase(item), filter_lower)
}

/// The items a filter keeps, in their order.
pub open spec fn filter_items(items: Seq<Seq<char>>, filter_lower: Seq<char>) -> Seq<Seq<char>>
    decreases items.len(),
{
    if items.len() == 0 {
        seq![]
    } else {
        let rest = filter_items(items.drop_last(), filter_lower);
        if keeps(items.last(), filter_lower) {
            rest.push(items.last())
        } else {
            rest
        }
    }
}

/// The visible items for a filter: all of them when the filter is empty.
pub open spec fn visible_items(items: Seq<Seq<char>>, filter: Seq<char>) -> Seq<Seq<char>> {
    if filter.len() == 0 {
        items
    } else {
        filter_items(items, str_lowercase(filter))
    }
}

/// A backend's text answer, as plain values.
pub open spec fn text_result(o: Result<String, String>) -> Result<Seq<char>, Seq<char>> {
    match o {
        Ok(s) => Ok(s@),
        Err(e) => Err(e@),
    }
}

/// A backend's answer without a value, as plain values.
pub open spec fn unit_result(o: Result<(), String>) -> Result<(), Seq<char>> {
    match o {
        Ok(()) => Ok(()),
        Err(e) => Err(e@),
    }
}

/// The metadata a backend's answer gives: none for an error.
pub open spec fn metadata_of(o: Result<FileInfo, String>) -> Option<FileInfo> {
    match o {
        Ok(i) => Some(i),
        Err(_) => None,
    }
}

/// Takes a backend's answer to a metadata request.
pub fn metadata_outcome(o: Result<FileInfo, String>) -> (r: Option<FileInfo>)
    ensures
        r == metadata_of(o),
{
    match o {
        Ok(i) => Some(i),
        Err(_) => None,
    }
}

/// State for a single directory panel.
pub struct PanelState {
    pub path: String,
    pub backend: BackendRef,
    pub items: Vec<String>,
    pub filtered_items: Vec<String>,
    pub filter: String,
    pub state: usize,
    pub items_dirty: bool,
    pub show_hidden: bool,
    /// Selected item names, each at most once.
    pub selected: Vec<String>,
    pub preview_content: Option<String>,
    pub preview_last_item: Option<String>,
    pub visible_rows: usize,
}

impl PanelState {
    /// The selected names as a set.
    pub open spec fn selection(&self) -> Set<Seq<char>> {
        self.selected.deep_view().to_set()
    }

    /// No name is selected twice.
    pub open spec fn wf(&self) -> bool {
        self.selected.deep_view().no_duplicates()
    }

    /// The item under the cursor.
    pub open spec fn spec_selected_item(&self) -> Option<Seq<char>> {
        if self.state < self.filtered_items.len() {
            Some(self.filtered_items@[self.state as int]@)
        } else {
            None
        }
    }

    /// The full path of an item of this panel (trailing '/' of directories removed).
    pub open spec fn item_path(&self, item: Seq<char>) -> Seq<char> {
        self.backend.spec_join(self.path@, trim_end(item, '/'))
    }

    pub fn new(path: String, backend: BackendRef) -> (r: Self)
        ensures
            r.path == path,
            r.backend == backend,
            r.items@.len() == 0,
            r.filtered_items@.len() == 0,
            r.filter@.len() == 0,
            r.state == 0,
            r.items_dirty,
            !r.show_hidden,
            r.selected@.len() == 0,
            r.preview_content is None,
            r.preview_last_item is None,
            r.visible_rows == 20,
            r.wf(),
    {
        let r = Self {
            path,
            backend,
            items: Vec::new(),
            filtered_items: Vec::new(),
            filter: String::new(),
            state: 0,
            items_dirty: true,
            show_hidden: false,
            selected: Vec::new(),
            preview_content: None,
            preview_last_item: None,
            visible_rows: 20,
        };
        assert(r.selected.deep_view() =~= Seq::<Seq<char>>::empty());
        r
    }

    pub fn increment_state(&mut self)
        ensures
            final(self).state == if old(self).state == usize::MAX {
                usize::MAX
            } else {
                (old(self).state + 1) as usize
            },
            *final(self) == (PanelState { state: final(self).state, ..*old(self) }),
    {
        self.state = self.state.saturating_add(1);
    }

    pub fn decrease_state(&mut self)
        ensures
            final(self).state == if old(self).state > 0 {
                (old(self).state - 1) as usize
            } else {
                0
            },
            *final(self) == (PanelState { state: final(self).state, ..*old(self) }),
    {
        if self.state > 0 {
            self.state -= 1;
        }
    }

    /// Moves the cursor down by the number of visible rows, stopping at the last item.
    pub fn page_down(&mut self)
        requires
            old(self).state + old(self).visible_rows <= usize::MAX,
        ensures
            final(self).state == vstd::math::min(
                old(self).state + old(self).visible_rows,
                if old(self).filtered_items.len() > 0 {
                    old(self).filtered_items.len() - 1
                } else {
                    0
                },
            ),
            *final(self) == (PanelState { state: final(self).state, ..*old(self) }),
    {
        let max = self.filtered_items.len().saturating_sub(1);
        let target = self.state + self.visible_rows;
        self.state = if target < max {
            target
        } else {
            max
        };
    }

    /// Moves the cursor up by the number of visible rows, stopping at the first item.
    pub fn page_up(&mut self)
        ensures
            final(self).state == if old(self).state >= old(self).visible_rows {
                (old(self).state - old(self).visible_rows) as usize
            } else {
                0
            },
            *final(self) == (PanelState { state: final(self).state, ..*old(self) }),
    {
        self.state = self.state.saturating_sub(self.visible_rows);
    }

    pub fn go_to_first(&mut self)
        ensures
            *final(self) == (PanelState { state: 0, ..*old(self) }),
    {
        self.state = 0;
    }

    pub fn go_to_last(&mut self)
        ensures
            final(self).state == if old(self).filtered_items.len() > 0 {
                old(self).filtered_items.len() - 1
            } else {
                0
            },
            *final(self) == (PanelState { state: final(self).state, ..*old(self) }),
    {
        self.state = self.filtered_items.len().saturating_sub(1);
    }

    /// The item under the cursor, if the cursor is on an item.
    pub fn get_selected_item(&self) -> (r: Option<&String>)
        ensures
            r matches Some(s) ==> self.state < self.filtered_items.len() && *s
                == self.filtered_items@[self.state as int],
            r is None <==> self.state >= self.filtered_items.len(),
    {
        if self.state < self.filtered_items.len() {
            Some(&self.filtered_items[self.state])
        } else {
            None
        }
    }

    /// The full path of the item under the cursor.
    pub fn selected_item_path(&self) -> (r: Option<String>)
        ensures
            r matches Some(p) ==> self.spec_selected_item() matches Some(item) && p@ == self.item_path(item),
            r is None <==> self.spec_selected_item() is None,
    {
        match self.get_selected_item() {
            Some(item) => {
                let clean = trim_end_char(item.as_str(), '/');
                Some(self.backend.join_path(self.path.as_str(), clean.as_str()))
            },
            None => None,
        }
    }

    /// Metadata of the item under the cursor (its trailing '/' removed), as
    /// the panel's backend reports it (`metadata_of` of the answer); none
    /// when the cursor is on no item or the backend fails.
    pub fn get_metadata_selected_item<B: FilesystemBackend>(&self, fs: &B) -> (r: Option<FileInfo>)
        ensures
            self.spec_selected_item() is None ==> r is None,
            self.spec_selected_item() is Some ==> exists|o: Result<FileInfo, String>| #[trigger] metadata_of(o) == r,
            self.spec_selected_item() matches Some(item) ==> exists|o: Result<FileInfo, String>|
                #[trigger] fs.metadata_answer(self.item_path(item), info_result(o)) && metadata_of(o) == r,
    {
        let full_path = self.selected_item_path()?;
        let outcome = fs.metadata(full_path.as_str());
        let ghost o = outcome;
        assert(fs.metadata_answer(full_path@, info_result(o)));
        let r = metadata_outcome(outcome);
        assert(metadata_of(o) == r);
        r
    }

    /// Recomputes the visible items from the filter and puts the cursor on the first one.
    pub fn apply_filter(&mut self)
        ensures
            final(self).filtered_items.deep_view() == visible_items(
                old(self).items.deep_view(),
                old(self).filter@,
            ),
            final(self).state == 0,
            *final(self) == (PanelState {
                filtered_items: final(self).filtered_items,
                state: 0,
                ..*old(self)
            }),
    {
        if self.filter.as_str().is_empty() {
            self.filtered_items = self.items.clone();
        } else {
            let fl = lowercase(self.filter.as_str());
            let mut out: Vec<String> = Vec::new();
            let mut i: usize = 0;
            while i < self.items.len()
                invariant
                    i <= self.items.len(),
                    out.deep_view() == filter_items(self.items.deep_view().take(i as int), fl@),
                decreases self.items.len() - i,
            {
                let ghost prefix = self.items.deep_view().take(i + 1);
                assert(prefix.drop_last() == self.items.deep_view().take(i as int));
                assert(prefix.last() == self.items@[i as int]@);
                let item = &self.items[i];
                let keep = is_parent_entry(item.as_str()) || str_contains(
                    lowercase(item.as_str()).as_str(),
                    fl.as_str(),
                );
                if keep {
                    let ghost before = out.deep_view();
                    out.push(item.clone());
                    assert(out.deep_view() =~= before.push(self.items@[i as int]@));
                }
                i = i + 1;
            }
            assert(self.items.deep_view().take(i as int) == self.items.deep_view());
            self.filtered_items = out;
        }
        self.state = 0;
    }

    /// Clears the filter: every item visible again, cursor on the first one.
    pub fn clear_filter(&mut self)
        ensures
            final(self).filter@.len() == 0,
            final(self).filtered_items@ == old(self).items@,
            *final(self) == (PanelState {
                filter: final(self).filter,
                filtered_items: final(self).filtered_items,
                state: 0,
                ..*old(self)
            }),
    {
        self.filter = String::new();
        self.filtered_items = self.items.clone();
        self.state = 0;
    }

    /// What moving into a directory does with the backend's canonical form
    /// of its path: the panel goes there; an error leaves the panel as it
    /// was and is reported as "Cannot open directory: <error>".
    pub open spec fn post_enter(p: PanelState, q: PanelState, outcome: Result<Seq<char>, Seq<char>>, r: Option<String>) -> bool {
        match outcome {
            Ok(path) => r is None && q.path@ == path && q == PanelState { path: q.path, ..p },
            Err(e) => r matches Some(m) && m@ == "Cannot open directory: "@ + e && q == p,
        }
    }

    /// Takes the backend's canonical form of a directory to move into.
    pub fn enter_outcome(&mut self, outcome: Result<String, String>) -> (r: Option<String>)
        ensures
            Self::post_enter(*old(self), *final(self), text_result(outcome), r),
    {
        match outcome {
            Ok(path) => {
                self.path = path;
                None
            },
            Err(err) => Some(concat("Cannot open directory: ", err.as_str())),
        }
    }

    /// Moves into the item under the cursor: the path becomes the backend's
    /// canonical form of the joined path; an error message when it fails.
    pub fn set_full_path<B: FilesystemBackend>(&mut self, fs: &B) -> (r: Option<String>)
        ensures
            old(self).spec_selected_item() is None ==> r is None && *final(self) == *old(self),
            old(self).spec_selected_item() is Some ==> exists|o: Result<Seq<char>, Seq<char>>|
                #[trigger] Self::post_enter(*old(self), *final(self), o, r),
            old(self).spec_selected_item() matches Some(item) ==> exists|o: Result<Seq<char>, Seq<char>>|
                #[trigger] fs.canonical_answer(old(self).backend.spec_join(old(self).path@, item), o)
                    && Self::post_enter(*old(self), *final(self), o, r),
    {
        let item = match self.get_selected_item() {
            Some(item) => item.clone(),
            None => return None,
        };
        assert(item@ == old(self).spec_selected_item()->0);
        let new_directory = self.backend.join_path(self.path.as_str(), item.as_str());
        let outcome = fs.canonicalize(new_directory.as_str());
        let ghost o = text_result(outcome);
        assert(fs.canonical_answer(new_directory@, o));
        let r = self.enter_outcome(outcome);
        assert(Self::post_enter(*old(self), *self, o, r));
        r
    }

    /// What moving to the parent directory does with the backend's canonical
    /// form of "<path>/../": the panel goes there with the cursor at the top
    /// and its listing stale; an error leaves the panel as it was and is
    /// reported as "Cannot open parent directory: <error>".
    pub open spec fn post_parent(p: PanelState, q: PanelState, outcome: Result<Seq<char>, Seq<char>>, r: Option<String>) -> bool {
        match outcome {
            Ok(path) => r is None && q.path@ == path && q == PanelState {
                path: q.path,
                state: 0,
                items_dirty: true,
                ..p
            },
            Err(e) => r matches Some(m) && m@ == "Cannot open parent directory: "@ + e && q == p,
        }
    }

    /// Takes the backend's canonical form of the parent directory.
    pub fn parent_outcome(&mut self, outcome: Result<String, String>) -> (r: Option<String>)
        ensures
            Self::post_parent(*old(self), *final(self), text_result(outcome), r),
    {
        match outcome {
            Ok(path) => {
                self.path = path;
                self.state = 0;
                self.invalidate_directory_cache();
                None
            },
            Err(err) => Some(concat("Cannot open parent directory: ", err.as_str())),
        }
    }

    /// Moves to the parent directory (the backend's canonical form of
    /// "<path>/../"), resetting the cursor and marking the listing stale; an
    /// error message when it fails.
    pub fn navigate_to_parent<B: FilesystemBackend>(&mut self, fs: &B) -> (r: Option<String>)
        ensures
            exists|o: Result<Seq<char>, Seq<char>>| #[trigger] Self::post_parent(*old(self), *final(self), o, r),
            exists|o: Result<Seq<char>, Seq<char>>|
                #[trigger] fs.canonical_answer(old(self).backend.spec_join(old(self).path@, "../"@), o)
                    && Self::post_parent(*old(self), *final(self), o, r),
    {
        let parent = self.backend.join_path(self.path.as_str(), "../");
        let outcome = fs.canonicalize(parent.as_str());
        let ghost o = text_result(outcome);
        assert(fs.canonical_answer(parent@, o));
        let r = self.parent_outcome(outcome);
        assert(Self::post_parent(*old(self), *self, o, r));
        r
    }

    /// What opening the item under the cursor does, given the metadata the
    /// backend reported for it, its answer when asked for the canonical
    /// directory path, and its answer when asked to open the file: a
    /// directory is entered (`post_enter`) with the cursor at the top, a file
    /// is opened ("Cannot open file: <error>" when that fails), anything else
    /// or no metadata changes nothing.
    pub open spec fn post_open(
        p: PanelState,
        q: PanelState,
        info: Option<FileInfo>,
        dir: Result<Seq<char>, Seq<char>>,
        file: Result<(), Seq<char>>,
        r: Option<String>,
    ) -> bool {
        match info {
            None => r is None && q == p,
            Some(i) => if i.is_dir {
                q.state == 0 && Self::post_enter(p, PanelState { state: p.state, ..q }, dir, r)
            } else if i.is_file {
                q == p && match file {
                    Ok(()) => r is None,
                    Err(e) => r matches Some(m) && m@ == "Cannot open file: "@ + e,
                }
            } else {
                r is None && q == p
            },
        }
    }

    /// `post_open`, with the directory answer coming from the backend's
    /// `canonicalize` of the item joined to the panel's path when a
    /// directory is entered, and the file answer from its `open_file` of
    /// that path when a file is opened.
    pub open spec fn opened_with<B: FilesystemBackend>(
        fs: B,
        p: PanelState,
        q: PanelState,
        info: Option<FileInfo>,
        r: Option<String>,
    ) -> bool {
        let target = p.backend.spec_join(p.path@, p.spec_selected_item()->0);
        exists|dir: Result<Seq<char>, Seq<char>>, file: Result<(), Seq<char>>|
            #[trigger] Self::post_open(p, q, info, dir, file, r) && (info matches Some(i) && i.is_dir
                ==> fs.canonical_answer(target, dir)) && (info matches Some(i) && !i.is_dir && i.is_file
                ==> fs.open_answer(target, file))
    }

    /// Opens the item under the cursor: a directory is entered (cursor reset
    /// to the top), a file is opened in the editor; an error message when that
    /// fails. The metadata answer is taken by `open_with_info`.
    pub fn open_item<B: FilesystemBackend>(&mut self, fs: &B) -> (r: Option<String>)
        ensures
            old(self).spec_selected_item() is None ==> r is None && *final(self) == *old(self),
            exists|info: Option<FileInfo>, dir: Result<Seq<char>, Seq<char>>, file: Result<(), Seq<char>>|
                #[trigger] Self::post_open(*old(self), *final(self), info, dir, file, r),
            old(self).spec_selected_item() matches Some(item) ==> exists|o: Result<FileInfo, String>|
                #[trigger] fs.metadata_answer(old(self).item_path(item), info_result(o)) && Self::opened_with(
                    *fs,
                    *old(self),
                    *final(self),
                    metadata_of(o),
                    r,
                ),
    {
        let info = self.get_metadata_selected_item(fs);
        let ghost iv = info;
        let ghost o = choose|o: Result<FileInfo, String>|
            #[trigger] fs.metadata_answer(old(self).item_path(old(self).spec_selected_item()->0), info_result(o))
                && metadata_of(o) == iv;
        let r = self.open_with_info(fs, info);
        proof {
            let (dir, file) = choose|dir: Result<Seq<char>, Seq<char>>, file: Result<(), Seq<char>>|
                #[trigger] Self::post_open(*old(self), *self, iv, dir, file, r);
        }
        r
    }

    /// Opens the item under the cursor given the backend's metadata for it
    /// (none when there is no item or the backend failed), as `post_open`
    /// says: a directory is entered through `set_full_path` with the cursor
    /// at the top, a file opened in the editor, anything else left alone.
    pub fn open_with_info<B: FilesystemBackend>(&mut self, fs: &B, info: Option<FileInfo>) -> (r: Option<String>)
        requires
            info is Some ==> old(self).spec_selected_item() is Some,
        ensures
            exists|dir: Result<Seq<char>, Seq<char>>, file: Result<(), Seq<char>>|
                #[trigger] Self::post_open(*old(self), *final(self), info, dir, file, r),
            Self::opened_with(*fs, *old(self), *final(self), info, r),
    {
        let info = match info {
            Some(info) => info,
            None => {
                assert(Self::post_open(*old(self), *self, None, Ok(seq![]), Ok(()), None));
                return None;
            },
        };
        let ghost mi = Some(info);
        if info.is_dir {
            let err = self.set_full_path(fs);
            let ghost mid = *self;
            self.state = 0;
            proof {
                let item = old(self).spec_selected_item()->0;
                let o = choose|o: Result<Seq<char>, Seq<char>>|
                    #[trigger] fs.canonical_answer(old(self).backend.spec_join(old(self).path@, item), o)
                        && Self::post_enter(*old(self), mid, o, err);
                assert(PanelState { state: old(self).state, ..*self } == mid);
                assert(Self::post_open(*old(self), *self, mi, o, Ok(()), err));
            }
            err
        } else if info.is_file {
            let selected_item = match self.get_selected_item() {
                Some(item) => item.clone(),
                None => return None,
            };
            let file_to_open = self.backend.join_path(self.path.as_str(), selected_item.as_str());
            let outcome = fs.open_file(file_to_open.as_str());
            let ghost fo = unit_result(outcome);
            assert(fs.open_answer(file_to_open@, fo));
            let r = match outcome {
                Ok(()) => None,
                Err(err) => Some(concat("Cannot open file: ", err.as_str())),
            };
            assert(Self::post_open(*old(self), *self, mi, Ok(seq![]), fo, r));
            r
        } else {
            assert(Self::post_open(*old(self), *self, mi, Ok(seq![]), Ok(()), None));
            None
        }
    }

    /// The path previewed for an item: the panel's own directory for the
    /// parent entry, else the item joined under it.
    pub open spec fn spec_preview_target(&self, item: Seq<char>) -> Seq<char> {
        if item == parent_entry() {
            self.path@
        } else {
            self.backend.spec_join(self.path@, item)
        }
    }

    /// The path previewed for `item` (`spec_preview_target`).
    pub fn preview_target(&self, item: &str) -> (r: String)
        ensures
            r@ == self.spec_preview_target(item@),
    {
        if is_parent_entry(item) {
            self.path.clone()
        } else {
            self.backend.join_path(self.path.as_str(), item)
        }
    }

    /// What refreshing the preview does to a panel (ages relative to
    /// `now`): cleared when the cursor is on no item, kept when it already
    /// shows that item, otherwise built anew for the item's path
    /// (`preview_target`: the panel's own path for the parent entry).
    pub open spec fn post_update_preview(p: PanelState, q: PanelState, now: u64) -> bool {
        match p.spec_selected_item() {
            None => q == PanelState { preview_content: None, preview_last_item: None, ..p },
            Some(item) => if p.preview_last_item matches Some(last) && last@ == item
                && p.preview_content is Some {
                q == p
            } else {
                &&& q.preview_last_item matches Some(l) && l@ == item
                &&& q.preview_content matches Some(c) && is_preview_text(c@, now)
                &&& q == PanelState {
                    preview_content: q.preview_content,
                    preview_last_item: q.preview_last_item,
                    ..p
                }
            },
        }
    }

    /// Refreshes the preview of the item under the cursor.
    pub fn update_preview<B: FilesystemBackend>(&mut self, fs: &B, now: u64)
        ensures
            Self::post_update_preview(*old(self), *final(self), now),
            old(self).spec_selected_item() is Some && !(old(self).preview_last_item matches Some(last) && last@
                == old(self).spec_selected_item()->0 && old(self).preview_content is Some) ==> (final(self).preview_content matches Some(c) && preview_answered(
                *fs,
                old(self).spec_preview_target(old(self).spec_selected_item()->0),
                now,
                c@,
            )),
    {
        let selected_item = match self.get_selected_item() {
            Some(item) => item.clone(),
            None => {
                self.preview_content = None;
                self.preview_last_item = None;
                return;
            },
        };
        match &self.preview_last_item {
            Some(last_item) => {
                if *last_item == selected_item && self.preview_content.is_some() {
                    return;
                }
            },
            None => {},
        }
        let full_path = self.preview_target(selected_item.as_str());
        let preview = generate_preview_with_backend(fs, full_path.as_str(), now);
        self.preview_content = Some(preview);
        self.preview_last_item = Some(selected_item);
    }

    pub fn get_preview_content(&self) -> (r: Option<&String>)
        ensures
            r matches Some(s) ==> self.preview_content == Some(*s),
            r is None <==> self.preview_content is None,
    {
        match &self.preview_content {
            Some(s) => Some(s),
            None => None,
        }
    }

    pub fn invalidate_directory_cache(&mut self)
        ensures
            *final(self) == (PanelState { items_dirty: true, ..*old(self) }),
    {
        self.items_dirty = true;
    }

    pub fn get_state(&self) -> (r: usize)
        ensures
            r == self.state,
    {
        self.state
    }

    /// Position of `name` among the selected names.
    pub(crate) fn selected_position(&self, name: &String) -> (r: Option<usize>)
        ensures
            r matches Some(k) ==> k < self.selected.len() && self.selected.deep_view()[k as int]
                == name@,
            r is None ==> !self.selected.deep_view().contains(name@),
    {
        let mut k: usize = 0;
        while k < self.selected.len()
            invariant
                k <= self.selected.len(),
                forall|j: int| 0 <= j < k ==> self.selected.deep_view()[j] != name@,
            decreases self.selected.len() - k,
        {
            if self.selected[k] == *name {
                return Some(k);
            }
            k = k + 1;
        }
        None
    }

    /// What toggling the selection does to a panel: the item under the
    /// cursor leaves the selection when it was in it and joins it otherwise;
    /// the parent entry is never selected.
    pub open spec fn post_toggle(p: PanelState, q: PanelState) -> bool {
        &&& q.wf()
        &&& match p.spec_selected_item() {
            Some(item) => if item == parent_entry() {
                q.selection() == p.selection()
            } else if p.selection().contains(item) {
                q.selection() == p.selection().remove(item)
            } else {
                q.selection() == p.selection().insert(item)
            },
            None => q.selection() == p.selection(),
        }
        &&& q == PanelState { selected: q.selected, ..p }
    }

    /// Selects the item under the cursor, or deselects it when it was
    /// selected; the parent entry is never selected.
    pub fn toggle_selection(&mut self)
        requires
            old(self).wf(),
        ensures
            Self::post_toggle(*old(self), *final(self)),
    {
        let item = match self.get_selected_item() {
            Some(item) => item.clone(),
            None => return,
        };
        if is_parent_entry(item.as_str()) {
            return;
        }
        let ghost old_sel = self.selected.deep_view();
        match self.selected_position(&item) {
            Some(k) => {
                self.selected.remove(k);
                proof {
                    let ns = self.selected.deep_view();
                    assert(ns =~= old_sel.remove(k as int));
                    assert forall|x: Seq<char>| ns.contains(x) <==> (old_sel.contains(x) && x != item@) by {
                        if ns.contains(x) {
                            let j = choose|j: int| 0 <= j < ns.len() && ns[j] == x;
                            if j < k {
                                assert(old_sel[j] == x);
                                assert(j != k);
                            } else {
                                assert(old_sel[j + 1] == x);
                            }
                        }
                        if old_sel.contains(x) && x != item@ {
                            let j = choose|j: int| 0 <= j < old_sel.len() && old_sel[j] == x;
                            assert(j != k);
                            if j < k {
                                assert(ns[j] == x);
                            } else {
                                assert(ns[j - 1] == x);
                            }
                        }
                    }
                    assert(ns.to_set() =~= old_sel.to_set().remove(item@));
                }
            },
            None => {
                self.selected.push(item);
                proof {
                    let ns = self.selected.deep_view();
                    assert(ns =~= old_sel.push(item@));
                    assert forall|x: Seq<char>| ns.contains(x) <==> (old_sel.contains(x) || x == item@) by {
                        if old_sel.contains(x) {
                            let j = choose|j: int| 0 <= j < old_sel.len() && old_sel[j] == x;
                            assert(ns[j] == x);
                        }
                        if x == item@ {
                            assert(ns[old_sel.len() as int] == x);
                        }
                    }
                    assert(ns.to_set() =~= old_sel.to_set().insert(item@));
                }
            },
        }
    }

    /// Selects every visible item except the parent entry.
    pub fn select_all(&mut self)
        requires
            old(self).wf(),
        ensures
            final(self).wf(),
            final(self).selection() == old(self).selection().union(
                old(self).filtered_items.deep_view().to_set().remove(parent_entry()),
            ),
            *final(self) == (PanelState { selected: final(self).selected, ..*old(self) }),
    {
        let ghost old_sel = self.selected.deep_view();
        let ghost fv = self.filtered_items.deep_view();
        let mut i: usize = 0;
        while i < self.filtered_items.len()
            invariant
                i <= self.filtered_items.len(),
                fv == self.filtered_items.deep_view(),
                fv == old(self).filtered_items.deep_view(),
                *self == (PanelState { selected: self.selected, ..*old(self) }),
                self.wf(),
                self.selection() == old_sel.to_set().union(fv.take(i as int).to_set().remove(
                    parent_entry(),
                )),
            decreases self.filtered_items.len() - i,
        {
            let item = self.filtered_items[i].clone();
            let ghost before = self.selected.deep_view();
            assert(fv.take(i + 1) =~= fv.take(i as int).push(item@));
            if !is_parent_entry(item.as_str()) {
                match self.selected_position(&item) {
                    Some(_) => {
                        assert(self.selection().contains(item@));
                    },
                    None => {
                        self.selected.push(item);
                        proof {
                            let ns = self.selected.deep_view();
                            assert(ns =~= before.push(item@));
                            assert forall|a: int, b: int| 0 <= a < b < ns.len() implies ns[a] != ns[b] by {
                                if b == ns.len() - 1 {
                                    assert(ns[a] == before[a]);
                                }
                            }
                            assert forall|x: Seq<char>| ns.contains(x) <==> (before.contains(x) || x == item@) by {
                                if before.contains(x) {
                                    let j = choose|j: int| 0 <= j < before.len() && before[j] == x;
                                    assert(ns[j] == x);
                                }
                                if x == item@ {
                                    assert(ns[before.len() as int] == x);
                                }
                            }
                            assert(ns.to_set() =~= before.to_set().insert(item@));
                        }
                    },
                }
            }
            proof {
                assert(self.selection() =~= old_sel.to_set().union(fv.take(i + 1).to_set().remove(
                    parent_entry(),
                ))) by {
                    assert forall|x: Seq<char>| fv.take(i + 1).to_set().contains(x) <==> (fv.take(
                        i as int,
                    ).to_set().contains(x) || x == item@) by {
                        let t = fv.take(i + 1);
                        if t.contains(x) {
                            let j = choose|j: int| 0 <= j < t.len() && t[j] == x;
                            if j < i {
                                assert(fv.take(i as int)[j] == x);
                            }
                        }
                        if fv.take(i as int).contains(x) {
                            let j = choose|j: int| 0 <= j < i && fv.take(i as int)[j] == x;
                            assert(t[j] == x);
                        }
                        if x == item@ {
                            assert(t[i as int] == x);
                        }
                    }
                }
            }
            i = i + 1;
        }
        assert(fv.take(i as int) == fv);
    }

    pub fn clear_selection(&mut self)
        ensures
            final(self).selected@.len() == 0,
            final(self).wf(),
            *final(self) == (PanelState { selected: final(self).selected, ..*old(self) }),
    {
        self.selected = Vec::new();
        assert(self.selected.deep_view() =~= Seq::<Seq<char>>::empty());
    }

    pub fn has_selection(&self) -> (r: bool)
        ensures
            r == (self.selected@.len() > 0),
    {
        self.selected.len() > 0
    }

    /// The full paths of the selected items, in selection order.
    pub fn get_selected_paths(&self) -> (r: Vec<String>)
        ensures
            r.len() == self.selected.len(),
            forall|i: int| 0 <= i < r.len() ==> r@[i]@ == self.item_path(#[trigger] self.selected@[i]@),
    {
        let mut out: Vec<String> = Vec::new();
        let mut i: usize = 0;
        while i < self.selected.len()
            invariant
                i <= self.selected.len(),
                out.len() == i,
                forall|j: int| 0 <= j < i ==> out@[j]@ == self.item_path(#[trigger] self.selected@[j]@),
            decreases self.selected.len() - i,
        {
            let clean = trim_end_char(self.selected[i].as_str(), '/');
            out.push(self.backend.join_path(self.path.as_str(), clean.as_str()));
            i = i + 1;
        }
        out
    }
}

/// Clipboard mode for copy/cut operations.
#[derive(Debug, PartialEq, Eq, Structural, Clone, Copy)]
pub enum ClipboardMode {
    Copy,
    Cut,
}

/// The screen the user is on: the panels, or a popup or dialog over them.
#[derive(Debug, PartialEq, Eq, Structural, Clone, Copy)]
pub enum UiState {
    Normal,
    CreatePopup,
    CreateFilePopup,
    ConfirmDelete,
    RenamePopup,
    ChmodPopup,
    SearchMode,
    ConfirmOverwrite,
    ConnectDialog,
    BookmarkList,
    BookmarkNameInput,
    SettingsPopup,
    CommandPalette,
}

/// State for the connection dialog. Field 0 is the protocol, then host,
/// port, username, password and key path.
#[derive(Debug)]
pub struct ConnectDialogState {
    pub protocol: ConnectionProtocol,
    pub host: String,
    pub port: String,
    pub username: String,
    pub password: String,
    pub key_path: String,
    pub focused_field: usize,
    pub error_message: Option<String>,
}

impl Clone for ConnectDialogState {
    fn clone(&self) -> (r: ConnectDialogState)
        ensures
            r == *self,
    {
        ConnectDialogState {
            protocol: self.protocol,
            host: self.host.clone(),
            port: self.port.clone(),
            username: self.username.clone(),
            password: self.password.clone(),
            key_path: self.key_path.clone(),
            focused_field: self.focused_field,
            error_message: match &self.error_message {
                Some(m) => Some(m.clone()),
                None => None,
            },
        }
    }
}

impl ConnectDialogState {
    pub fn new() -> (r: Self)
        ensures
            r.protocol == ConnectionProtocol::Sftp,
            r.host@.len() == 0,
            r.port@ == "22"@,
            r.username@.len() == 0,
            r.password@.len() == 0,
            r.key_path@.len() == 0,
            r.focused_field == 1,
            r.error_message is None,
    {
        Self {
            protocol: ConnectionProtocol::Sftp,
            host: String::new(),
            port: owned("22"),
            username: String::new(),
            password: String::new(),
            key_path: String::new(),
            focused_field: 1,
            error_message: None,
        }
    }

    /// Number of fields: protocol, host, port, username, password, key path.
    pub open spec fn spec_field_count() -> usize {
        6
    }

    pub fn field_count(&self) -> (r: usize)
        ensures
            r == Self::spec_field_count(),
    {
        6
    }

    /// The text field that typing edits: host, port, username, password or
    /// key path for fields 1 to 5; the host for any other field.
    pub open spec fn active_field(&self) -> String {
        if self.focused_field == 2 {
            self.port
        } else if self.focused_field == 3 {
            self.username
        } else if self.focused_field == 4 {
            self.password
        } else if self.focused_field == 5 {
            self.key_path
        } else {
            self.host
        }
    }

    /// This dialog with the active text field replaced by `v`.
    pub open spec fn with_active_field(self, v: String) -> ConnectDialogState {
        if self.focused_field == 2 {
            ConnectDialogState { port: v, ..self }
        } else if self.focused_field == 3 {
            ConnectDialogState { username: v, ..self }
        } else if self.focused_field == 4 {
            ConnectDialogState { password: v, ..self }
        } else if self.focused_field == 5 {
            ConnectDialogState { key_path: v, ..self }
        } else {
            ConnectDialogState { host: v, ..self }
        }
    }

    pub fn active_field_mut(&mut self) -> (r: &mut String)
        ensures
            *r == old(self).active_field(),
            *final(self) == old(self).with_active_field(*final(r)),
    {
        match self.focused_field {
            2 => &mut self.port,
            3 => &mut self.username,
            4 => &mut self.password,
            5 => &mut self.key_path,
            _ => &mut self.host,
        }
    }
}

/// State of the command palette: the typed filter, the indices of the
/// matching actions and the highlighted one among them.
pub struct CommandPaletteState {
    pub filter: String,
    pub filtered_indices: Vec<usize>,
    pub selected: usize,
}

impl CommandPaletteState {
    /// Every one of `count` actions listed, the first highlighted.
    pub fn new(count: usize) -> (r: Self)
        ensures
            r.filter@.len() == 0,
            r.filtered_indices@ == Seq::new(count as nat, |i: int| i as usize),
            r.selected == 0,
    {
        let mut v: Vec<usize> = Vec::new();
        let mut i: usize = 0;
        while i < count
            invariant
                i <= count,
                v@ == Seq::new(i as nat, |k: int| k as usize),
            decreases count - i,
        {
            v.push(i);
            i = i + 1;
            assert(v@ =~= Seq::new(i as nat, |k: int| k as usize));
        }
        CommandPaletteState { filter: String::new(), filtered_indices: v, selected: 0 }
    }
}

/// State of the settings popup: the focused row (layout, hidden files,
/// preview on start, default path) and the default path being edited.
pub struct SettingsState {
    pub focused_field: usize,
    pub editing_path: bool,
    pub path_input: String,
}

impl SettingsState {
    pub fn new(path: &str) -> (r: Self)
        ensures
            r.focused_field == 0,
            !r.editing_path,
            r.path_input@ == path@,
    {
        SettingsState { focused_field: 0, editing_path: false, path_input: owned(path) }
    }

    pub open spec fn spec_field_count() -> usize {
        4
    }

    pub fn field_count(&self) -> (r: usize)
        ensures
            r == Self::spec_field_count(),
    {
        4
    }
}

/// Central application state.
pub struct Context {
    pub exit: bool,
    pub panels: [PanelState; 2],
    pub active_panel: usize,
    pub show_preview: bool,
    pub ui_state: UiState,
    pub confirm_popup_size: bool,
    pub input: String,
    pub copy_path: String,
    pub copy_paths: Vec<String>,
    pub clipboard_mode: ClipboardMode,
    pub copy_source_backend: Option<BackendRef>,
    pub pending_paste: Option<(String, String, bool)>,
    pub status_message: Option<String>,
    pub active_operation: Option<Receiver<FileOpResult>>,
    pub operation_description: Option<String>,
    pub spinner_tick: u8,
    pub pending_g: bool,
    pub connect_dialog: Option<ConnectDialogState>,
    pub config: Config,
    pub bookmark_selected: usize,
    pub settings_state: Option<SettingsState>,
    pub command_palette: Option<CommandPaletteState>,
    pub transfer_progress: Option<Arc<TransferProgress>>,
    /// The identity the next backend that is opened gets.
    pub next_backend_id: u64,
}

impl Context {
    /// The active panel index is 0 or 1 and no panel selects a name twice.
    pub open spec fn wf(&self) -> bool {
        &&& self.active_panel < 2
        &&& self.panels[0].wf()
        &&& self.panels[1].wf()
    }

    /// The active panel.
    pub open spec fn spec_active(&self) -> PanelState {
        self.panels[self.active_panel as int]
    }

    /// A new state with default settings: both panels show the canonical
    /// form of the default path (".") on the local filesystem `local`; the
    /// error of canonicalizing it otherwise.
    pub fn new<B: FilesystemBackend>(local: &B) -> (r: Result<Self, String>)
        ensures
            r matches Ok(c) ==> c.wf() && Self::initial_state(c, c.config, c.panels[0].path)
                && c.config.general.default_path@ == "."@ && !c.config.general.show_hidden
                && !c.config.general.show_preview_on_start && c.config.general.panel_layout
                == crate::config::PanelLayout::Auto && c.config.connections@.len() == 0,
    {
        Self::with_config(Config::default(), local)
    }

    /// A new state from the settings: both panels show the canonical form of
    /// the configured default path on the local filesystem `local`, as
    /// `with_config_at` describes; the error of canonicalizing it otherwise.
    pub fn with_config<B: FilesystemBackend>(config: Config, local: &B) -> (r: Result<Self, String>)
        ensures
            r matches Ok(c) ==> Self::initial_state(c, config, c.panels[0].path),
            local.canonical_answer(
                config.general.default_path@,
                (match r {
                    Ok(c) => Ok(c.panels[0].path@),
                    Err(e) => Err(e@),
                }),
            ),
    {
        let answer = local.canonicalize(config.general.default_path.as_str());
        match answer {
            Ok(initial_path) => Ok(Self::with_config_at(config, initial_path)),
            Err(e) => Err(e),
        }
    }

    /// The state a session starts in, from the settings, with both panels at `path`.
    pub open spec fn initial_state(r: Self, config: Config, path: String) -> bool {
        &&& r.wf()
        &&& r.panels[0].path == path
        &&& r.panels[1].path == path
        &&& r.panels[0].backend.id == 0 && r.panels[0].backend.kind == crate::backend::BackendKind::Local
        &&& r.panels[1].backend.id == 0 && r.panels[1].backend.kind == crate::backend::BackendKind::Local
        &&& r.panels[0].backend.display@ == "Local"@ && r.panels[0].backend.params is None
        &&& r.panels[1].backend.display@ == "Local"@ && r.panels[1].backend.params is None
        &&& r.panels[0].show_hidden == config.general.show_hidden
        &&& r.panels[1].show_hidden == config.general.show_hidden
        &&& r.panels[0].items@.len() == 0 && r.panels[1].items@.len() == 0
        &&& r.panels[0].filtered_items@.len() == 0 && r.panels[1].filtered_items@.len() == 0
        &&& r.panels[0].filter@.len() == 0 && r.panels[1].filter@.len() == 0
        &&& r.panels[0].selected@.len() == 0 && r.panels[1].selected@.len() == 0
        &&& r.panels[0].preview_content is None && r.panels[1].preview_content is None
        &&& r.panels[0].preview_last_item is None && r.panels[1].preview_last_item is None
        &&& r.panels[0].state == 0 && r.panels[1].state == 0
        &&& r.panels[0].visible_rows == 20 && r.panels[1].visible_rows == 20
        &&& r.panels[0].items_dirty && r.panels[1].items_dirty
        &&& r.show_preview == config.general.show_preview_on_start
        &&& r.config == config
        &&& r.active_panel == 0
        &&& !r.exit
        &&& r.ui_state == UiState::Normal
        &&& !r.confirm_popup_size
        &&& r.input@.len() == 0
        &&& r.copy_path@.len() == 0
        &&& r.copy_paths@.len() == 0
        &&& r.clipboard_mode == ClipboardMode::Copy
        &&& r.copy_source_backend is None
        &&& r.pending_paste is None
        &&& r.status_message is None
        &&& r.active_operation is None
        &&& r.operation_description is None
        &&& r.spinner_tick == 0
        &&& !r.pending_g
        &&& r.connect_dialog is None
        &&& r.bookmark_selected == 0
        &&& r.settings_state is None
        &&& r.command_palette is None
        &&& r.transfer_progress is None
        &&& r.next_backend_id == 1
    }

    /// A new state from the settings with both panels at `initial_path` (the
    /// canonical form of the configured default path) on the local
    /// filesystem (identity 0), following the hidden-files setting; the
    /// preview follows the preview setting; nothing else is open or running.
    pub fn with_config_at(config: Config, initial_path: String) -> (r: Self)
        ensures
            Self::initial_state(r, config, initial_path),
    {
        let show_hidden = config.general.show_hidden;
        let show_preview = config.general.show_preview_on_start;
        let mut panel0 = PanelState::new(initial_path.clone(), BackendRef::local(0));
        let mut panel1 = PanelState::new(initial_path, BackendRef::local(0));
        panel0.show_hidden = show_hidden;
        panel1.show_hidden = show_hidden;
        Self {
            exit: false,
            panels: [panel0, panel1],
            active_panel: 0,
            show_preview,
            ui_state: UiState::Normal,
            confirm_popup_size: false,
            input: String::new(),
            copy_path: String::new(),
            copy_paths: Vec::new(),
            clipboard_mode: ClipboardMode::Copy,
            copy_source_backend: None,
            pending_paste: None,
            status_message: None,
            active_operation: None,
            operation_description: None,
            spinner_tick: 0,
            pending_g: false,
            connect_dialog: None,
            config,
            bookmark_selected: 0,
            settings_state: None,
            command_palette: None,
            transfer_progress: None,
            next_backend_id: 1,
        }
    }

    pub fn active(&self) -> (r: &PanelState)
        requires
            self.active_panel < 2,
        ensures
            *r == self.spec_active(),
    {
        &self.panels[self.active_panel]
    }

    pub fn active_mut(&mut self) -> (r: &mut PanelState)
        requires
            old(self).active_panel < 2,
        ensures
            *r == old(self).spec_active(),
            final(self).panels@ == old(self).panels@.update(old(self).active_panel as int, *final(r)),
            *final(self) == (Context { panels: final(self).panels, ..*old(self) }),
    {
        &mut self.panels[self.active_panel]
    }

    pub fn invalidate_all_caches(&mut self)
        ensures
            final(self).panels[0] == (PanelState { items_dirty: true, ..old(self).panels[0] }),
            final(self).panels[1] == (PanelState { items_dirty: true, ..old(self).panels[1] }),
            *final(self) == (Context { panels: final(self).panels, ..*old(self) }),
    {
        self.panels[0].invalidate_directory_cache();
        self.panels[1].invalidate_directory_cache();
    }

    /// Switches to the other panel.
    pub fn toggle_active_panel(&mut self)
        requires
            old(self).active_panel < 2,
        ensures
            *final(self) == (Context { active_panel: (1 - old(self).active_panel) as usize, ..*old(self) }),
    {
        self.active_panel = 1 - self.active_panel;
    }

    pub fn get_exit(&self) -> (r: Option<bool>)
        ensures
            r == Some(self.exit),
    {
        Some(self.exit)
    }

    pub fn set_exit(&mut self)
        ensures
            *final(self) == (Context { exit: true, ..*old(self) }),
    {
        self.exit = true;
    }

    pub fn set_ui_state(&mut self, ui_state: UiState)
        ensures
            *final(self) == (Context { ui_state, ..*old(self) }),
    {
        self.ui_state = ui_state;
    }

    pub fn get_ui_state(&self) -> (r: Option<UiState>)
        ensures
            r == Some(self.ui_state),
    {
        Some(self.ui_state)
    }

    /// Whether the confirming button of a confirmation popup is highlighted.
    pub fn get_confirm_button_selected(&self) -> (r: Option<bool>)
        ensures
            r == Some(self.confirm_popup_size),
    {
        Some(self.confirm_popup_size)
    }

    /// Moves the highlight to the other button of a confirmation popup.
    pub fn set_confirm_button_selected(&mut self)
        ensures
            *final(self) == (Context { confirm_popup_size: !old(self).confirm_popup_size, ..*old(self) }),
    {
        let get_item = match self.get_confirm_button_selected() {
            Some(item) => item,
            None => return,
        };
        self.confirm_popup_size = !get_item;
    }

    pub fn get_input(&self) -> (r: Option<&String>)
        ensures
            r == Some(&self.input),
    {
        Some(&self.input)
    }

    pub fn set_input(&mut self, input: String)
        ensures
            *final(self) == (Context { input, ..*old(self) }),
    {
        self.input = input;
    }

    pub fn get_copy_path(&self) -> (r: &String)
        ensures
            *r == self.copy_path,
    {
        &self.copy_path
    }

    /// Puts the full path of the item under the active panel's cursor (its
    /// trailing '/' removed) on the clipboard; nothing happens for no item or
    /// the parent entry.
    pub fn set_copy_path(&mut self)
        requires
            old(self).active_panel < 2,
        ensures
            match old(self).spec_active().spec_selected_item() {
                Some(item) => if item == parent_entry() {
                    *final(self) == *old(self)
                } else {
                    final(self).copy_path@ == old(self).spec_active().item_path(item) && *final(self)
                        == (Context { copy_path: final(self).copy_path, ..*old(self) })
                },
                None => *final(self) == *old(self),
            },
    {
        let item = match self.active().get_selected_item() {
            Some(item) => item.clone(),
            None => return,
        };
        if is_parent_entry(item.as_str()) {
            return;
        }
        let clean_item = trim_end_char(item.as_str(), '/');
        let p = self.active().backend.join_path(self.active().path.as_str(), clean_item.as_str());
        self.copy_path = p;
    }

    pub fn set_status_message(&mut self, message: &str)
        ensures
            final(self).status_message matches Some(m) && m@ == message@,
            *final(self) == (Context { status_message: final(self).status_message, ..*old(self) }),
    {
        self.status_message = Some(owned(message));
    }

    pub fn get_status_message(&self) -> (r: Option<&String>)
        ensures
            r matches Some(m) ==> self.status_message == Some(*m),
            r is None <==> self.status_message is None,
    {
        match &self.status_message {
            Some(m) => Some(m),
            None => None,
        }
    }

    pub fn clear_status_message(&mut self)
        ensures
            *final(self) == (Context { status_message: None, ..*old(self) }),
    {
        self.status_message = None;
    }

    pub fn is_operation_running(&self) -> (r: bool)
        ensures
            r == self.active_operation is Some,
    {
        self.active_operation.is_some()
    }

    /// Records a background operation that reports through `receiver`.
    pub fn start_operation(&mut self, receiver: Receiver<FileOpResult>, description: String)
        ensures
            *final(self) == (Context {
                active_operation: Some(receiver),
                operation_description: Some(description),
                ..*old(self)
            }),
    {
        self.active_operation = Some(receiver);
        self.operation_description = Some(description);
    }

    /// What a look at the background operation's channel does: a result
    /// ends the operation and is handed back; nothing yet changes nothing; a
    /// worker that went away without a result ends the operation with
    /// "Operation thread crashed" under its description ("" without one).
    pub open spec fn post_received(c: Context, n: Context, received: Received<FileOpResult>, r: Option<FileOpResult>) -> bool {
        match received {
            Received::Value(v) => r == Some(v) && n == Context {
                active_operation: None,
                operation_description: None,
                ..c
            },
            Received::Empty => r is None && n == c,
            Received::Disconnected => {
                &&& r is Some
                &&& r->0.description@ == (match c.operation_description {
                    Some(d) => d@,
                    None => seq![],
                })
                &&& r->0.result matches Err(e) && e@ == "Operation thread crashed"@
                &&& !r->0.clear_clipboard
                &&& n == Context { active_operation: None, operation_description: None, ..c }
            },
        }
    }

    /// Takes what a look at the background operation's channel found.
    pub fn take_received(&mut self, received: Received<FileOpResult>) -> (r: Option<FileOpResult>)
        ensures
            Self::post_received(*old(self), *final(self), received, r),
    {
        match received {
            Received::Value(result) => {
                self.active_operation = None;
                self.operation_description = None;
                Some(result)
            },
            Received::Empty => None,
            Received::Disconnected => {
                let desc = match self.operation_description.take() {
                    Some(d) => d,
                    None => String::new(),
                };
                self.active_operation = None;
                Some(
                    FileOpResult {
                        description: desc,
                        result: Err(owned("Operation thread crashed")),
                        clear_clipboard: false,
                    },
                )
            },
        }
    }

    /// Looks whether the background operation has finished, as
    /// `post_received` describes for what the channel holds; without a
    /// running operation nothing happens.
    pub fn check_operation(&mut self) -> (r: Option<FileOpResult>)
        ensures
            old(self).active_operation is None ==> r is None && *final(self) == *old(self),
            old(self).active_operation is Some ==> exists|received: Received<FileOpResult>|
                #[trigger] Self::post_received(*old(self), *final(self), received, r),
    {
        let received = match &self.active_operation {
            Some(receiver) => try_receive(receiver),
            None => return None,
        };
        let ghost rv = received;
        let r = self.take_received(received);
        assert(Self::post_received(*old(self), *self, rv, r));
        r
    }

    /// A new identity for a backend that is being opened.
    pub fn allocate_backend_id(&mut self) -> (r: u64)
        ensures
            r == old(self).next_backend_id,
            old(self).next_backend_id < u64::MAX ==> *final(self) == (Context {
                next_backend_id: (old(self).next_backend_id + 1) as u64,
                ..*old(self)
            }),
            old(self).next_backend_id == u64::MAX ==> *final(self) == *old(self),
    {
        let id = self.next_backend_id;
        self.next_backend_id = self.next_backend_id.saturating_add(1);
        id
    }
}

} // verus!
