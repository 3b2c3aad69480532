//! What the screen shows, worked out as text and geometry: the hint line,
//! the status line, panel titles and rows, the preview texts and where a
//! dialog is placed. Drawing them is left to the terminal front end.
use vstd::prelude::*;
use crate::backend::{native_file_name, std_path_file_name, ConnectionProtocol};
use crate::config::{ConnectionProfile, PanelLayout};
use crate::context::{
    is_parent_entry, parent_entry, ClipboardMode, CommandPaletteState, ConnectDialogState, Context,
    PanelState,
};
use crate::event_handler::command_palette::{palette_actions, palette_label, palette_section, palette_shortcut};
use crate::event_handler::main_handler::palette_count;
use crate::file_operation::{format_size, size_text};
use crate::text::{
    append_chars, chars_of, concat, concat3, decimal, decimal_chars, ends_with_char, join, join_from, owned,
    same_text, str_ends_with_char, string_of, views,
};

verus! {

// ---------------------------------------------------------------------------
// The hint line
// ---------------------------------------------------------------------------

/// The number of key hints.
pub open spec fn hint_count() -> int {
    20
}

/// The `i`-th key hint: the key and what it does.
pub open spec fn hint_pair(i: int) -> (Seq<char>, Seq<char>) {
    if i == 0 {
        ("Q"@, "Quit"@)
    } else if i == 1 {
        ("Enter"@, "Open"@)
    } else if i == 2 {
        ("D"@, "Delete"@)
    } else if i == 3 {
        ("C"@, "Copy"@)
    } else if i == 4 {
        ("V"@, "Paste"@)
    } else if i == 5 {
        ("X"@, "Cut"@)
    } else if i == 6 {
        ("R"@, "Rename"@)
    } else if i == 7 {
        ("P"@, "New Folder"@)
    } else if i == 8 {
        ("N"@, "New File"@)
    } else if i == 9 {
        ("/"@, "Search"@)
    } else if i == 10 {
        ("="@, "Sync Dir"@)
    } else if i == 11 {
        ("Tab"@, "Switch Panel"@)
    } else if i == 12 {
        ("Bksp"@, "Parent Dir"@)
    } else if i == 13 {
        ("."@, "Hidden"@)
    } else if i == 14 {
        ("F3"@, "Preview"@)
    } else if i == 15 {
        ("F2"@, "Settings"@)
    } else if i == 16 {
        ("^M"@, "chmod"@)
    } else if i == 17 {
        ("F5"@, "Connect"@)
    } else if i == 18 {
        ("F6"@, "Disconnect"@)
    } else {
        ("F7"@, "Bookmarks"@)
    }
}

/// One hint as shown: "[key] action".
pub open spec fn hint_text(i: int) -> Seq<char> {
    "["@ + hint_pair(i).0 + "] "@ + hint_pair(i).1
}

/// The hint line: every hint, in order, separated by " | ".
pub open spec fn hints_text() -> Seq<char> {
    join(Seq::new(hint_count() as nat, |i: int| hint_text(i)), " | "@)
}

fn hint_pair_exec(i: usize) -> (r: (&'static str, &'static str))
    requires
        i < hint_count(),
    ensures
        r.0@ == hint_pair(i as int).0,
        r.1@ == hint_pair(i as int).1,
{
    if i == 0 {
        ("Q", "Quit")
    } else if i == 1 {
        ("Enter", "Open")
    } else if i == 2 {
        ("D", "Delete")
    } else if i == 3 {
        ("C", "Copy")
    } else if i == 4 {
        ("V", "Paste")
    } else if i == 5 {
        ("X", "Cut")
    } else if i == 6 {
        ("R", "Rename")
    } else if i == 7 {
        ("P", "New Folder")
    } else if i == 8 {
        ("N", "New File")
    } else if i == 9 {
        ("/", "Search")
    } else if i == 10 {
        ("=", "Sync Dir")
    } else if i == 11 {
        ("Tab", "Switch Panel")
    } else if i == 12 {
        ("Bksp", "Parent Dir")
    } else if i == 13 {
        (".", "Hidden")
    } else if i == 14 {
        ("F3", "Preview")
    } else if i == 15 {
        ("F2", "Settings")
    } else if i == 16 {
        ("^M", "chmod")
    } else if i == 17 {
        ("F5", "Connect")
    } else if i == 18 {
        ("F6", "Disconnect")
    } else {
        ("F7", "Bookmarks")
    }
}

/// The key hints shown when nothing else occupies the status line.
pub fn create_keyboard_shortcuts() -> (r: String)
    ensures
        r@ == hints_text(),
{
    let mut parts: Vec<Vec<char>> = Vec::new();
    let mut i: usize = 0;
    while i < 20
        invariant
            i <= 20,
            parts.len() == i,
            forall|j: int| 0 <= j < i ==> (#[trigger] parts@[j])@ == hint_text(j),
        decreases 20 - i,
    {
        let (key, action) = hint_pair_exec(i);
        let mut v = chars_of("[");
        append_chars(&mut v, &chars_of(key));
        append_chars(&mut v, &chars_of("] "));
        append_chars(&mut v, &chars_of(action));
        parts.push(v);
        i = i + 1;
    }
    let sep = chars_of(" | ");
    let out = join_from(&parts, 0, &sep);
    assert(views(parts@).skip(0) =~= Seq::new(hint_count() as nat, |j: int| hint_text(j)));
    string_of(&out)
}

// ---------------------------------------------------------------------------
// The status line
// ---------------------------------------------------------------------------

/// How the clipboard mode is named on the status line.
pub open spec fn clipboard_mode_label(mode: ClipboardMode) -> Seq<char> {
    match mode {
        ClipboardMode::Copy => "COPY"@,
        ClipboardMode::Cut => "CUT"@,
    }
}

/// The last component of a path, or the whole path where it has none.
pub open spec fn name_or_path(path: Seq<char>) -> Seq<char> {
    match std_path_file_name(path) {
        Some(n) => n,
        None => path,
    }
}

/// What the clipboard holds, as the status line shows it: the number of
/// items, or the name of the single item, or nothing when it is empty.
pub open spec fn clipboard_indicator(c: Context) -> Seq<char> {
    let label = clipboard_mode_label(c.clipboard_mode);
    if c.copy_paths.len() > 0 {
        "["@ + label + ": "@ + decimal(c.copy_paths.len() as nat) + " items]"@
    } else if c.copy_path@.len() > 0 {
        "["@ + label + ": "@ + name_or_path(c.copy_path@) + "]"@
    } else {
        seq![]
    }
}

/// The clipboard part of the status line.
pub fn format_clipboard_indicator(c: &Context) -> (r: String)
    ensures
        r@ == clipboard_indicator(*c),
{
    let label = match c.clipboard_mode {
        ClipboardMode::Copy => "COPY",
        ClipboardMode::Cut => "CUT",
    };
    if c.copy_paths.len() > 0 {
        let mut v = chars_of("[");
        append_chars(&mut v, &chars_of(label));
        append_chars(&mut v, &chars_of(": "));
        append_chars(&mut v, &decimal_chars(c.copy_paths.len() as u64));
        append_chars(&mut v, &chars_of(" items]"));
        string_of(&v)
    } else if !c.copy_path.as_str().is_empty() {
        let name = match native_file_name(c.copy_path.as_str()) {
            Some(n) => n,
            None => c.copy_path.clone(),
        };
        let mut v = chars_of("[");
        append_chars(&mut v, &chars_of(label));
        append_chars(&mut v, &chars_of(": "));
        append_chars(&mut v, &chars_of(name.as_str()));
        append_chars(&mut v, &chars_of("]"));
        string_of(&v)
    } else {
        String::new()
    }
}

/// What the status line is showing, which decides how it is styled.
#[derive(Debug, Clone, Copy, PartialEq, Eq, Structural)]
pub enum StatusTone {
    /// A background operation is running.
    Working,
    /// A message from the last action.
    Message,
    /// The clipboard and the key hints.
    Hints,
}

/// The frame of the busy indicator for a tick.
pub open spec fn spinner_frame(tick: u8) -> char {
    let k = tick % 4;
    if k == 0 {
        '|'
    } else if k == 1 {
        '/'
    } else if k == 2 {
        '-'
    } else {
        '\\'
    }
}

/// The transfer counters as shown after the operation's description: bytes
/// done and in all, and the whole percent done; nothing while the total is
/// unknown (zero) or there are no counters.
pub open spec fn progress_text(progress: Option<(u64, u64)>) -> Seq<char> {
    match progress {
        Some((done, total)) => if total > 0 {
            " ["@ + size_text(done as nat) + " / "@ + size_text(total as nat) + " ("@ + decimal(
                ((done * 100) / (total as int)) as nat,
            ) + "%)]"@
        } else {
            seq![]
        },
        None => seq![],
    }
}

/// The status line: the busy indicator, the operation and its progress
/// while one runs; else the last message; else the clipboard and the hints.
pub open spec fn status_line(c: Context, progress: Option<(u64, u64)>) -> (Seq<char>, StatusTone) {
    if c.active_operation is Some {
        let desc = match c.operation_description {
            Some(d) => d@,
            None => "Working..."@,
        };
        (
            seq![spinner_frame(c.spinner_tick)] + " "@ + desc + progress_text(progress),
            StatusTone::Working,
        )
    } else if c.status_message is Some {
        (c.status_message->0@, StatusTone::Message)
    } else {
        let clip = clipboard_indicator(c);
        (
            if clip.len() == 0 {
                hints_text()
            } else {
                clip + " | "@ + hints_text()
            },
            StatusTone::Hints,
        )
    }
}

fn spinner_char(tick: u8) -> (r: char)
    ensures
        r == spinner_frame(tick),
{
    let k = tick % 4;
    if k == 0 {
        '|'
    } else if k == 1 {
        '/'
    } else if k == 2 {
        '-'
    } else {
        '\\'
    }
}

/// The status line's text and tone. `progress` holds what the running
/// transfer's counters read (bytes done, bytes in all), where there are any.
pub fn status_bar(c: &Context, progress: Option<(u64, u64)>) -> (r: (String, StatusTone))
    requires
        progress matches Some((done, _)) ==> done * 100 <= u64::MAX,
    ensures
        r.0@ == status_line(*c, progress).0,
        r.1 == status_line(*c, progress).1,
{
    if c.is_operation_running() {
        let mut v: Vec<char> = Vec::new();
        v.push(spinner_char(c.spinner_tick));
        append_chars(&mut v, &chars_of(" "));
        match &c.operation_description {
            Some(d) => append_chars(&mut v, &chars_of(d.as_str())),
            None => append_chars(&mut v, &chars_of("Working...")),
        }
        match progress {
            Some((done, total)) => if total > 0 {
                let pct = (done * 100) / total;
                append_chars(&mut v, &chars_of(" ["));
                append_chars(&mut v, &chars_of(format_size(done).as_str()));
                append_chars(&mut v, &chars_of(" / "));
                append_chars(&mut v, &chars_of(format_size(total).as_str()));
                append_chars(&mut v, &chars_of(" ("));
                append_chars(&mut v, &decimal_chars(pct));
                append_chars(&mut v, &chars_of("%)]"));
            },
            None => {},
        }
        (string_of(&v), StatusTone::Working)
    } else if let Some(m) = c.get_status_message() {
        (m.clone(), StatusTone::Message)
    } else {
        let clip = format_clipboard_indicator(c);
        let hints = create_keyboard_shortcuts();
        if clip.as_str().is_empty() {
            (hints, StatusTone::Hints)
        } else {
            let mut v = chars_of(clip.as_str());
            append_chars(&mut v, &chars_of(" | "));
            append_chars(&mut v, &chars_of(hints.as_str()));
            (string_of(&v), StatusTone::Hints)
        }
    }
}

// ---------------------------------------------------------------------------
// Panels
// ---------------------------------------------------------------------------

/// Where the cursor stands among the visible items: " [k/n]", or " [0/0]"
/// for an empty list.
pub open spec fn position_text(p: PanelState) -> Seq<char> {
    if p.filtered_items.len() == 0 {
        " [0/0]"@
    } else {
        " ["@ + decimal(p.state as nat + 1) + "/"@ + decimal(p.filtered_items.len() as nat) + "]"@
    }
}

/// A panel's title: its path, the search or filter text where there is one,
/// and the cursor position.
pub open spec fn panel_title_text(p: PanelState, searching: bool) -> Seq<char> {
    if searching {
        p.path@ + " [/: "@ + p.filter@ + "]"@ + position_text(p)
    } else if p.filter@.len() > 0 {
        p.path@ + " [filter: "@ + p.filter@ + "]"@ + position_text(p)
    } else {
        p.path@ + position_text(p)
    }
}

/// The title of a panel's frame.
pub fn panel_title(p: &PanelState, is_searching: bool) -> (r: String)
    requires
        p.filtered_items.len() > 0 ==> p.state < u64::MAX,
    ensures
        r@ == panel_title_text(*p, is_searching),
{
    let mut pos = chars_of(" [");
    if p.filtered_items.len() == 0 {
        pos = chars_of(" [0/0]");
    } else {
        append_chars(&mut pos, &decimal_chars(p.state as u64 + 1));
        append_chars(&mut pos, &chars_of("/"));
        append_chars(&mut pos, &decimal_chars(p.filtered_items.len() as u64));
        append_chars(&mut pos, &chars_of("]"));
    }
    let mut v = chars_of(p.path.as_str());
    if is_searching {
        append_chars(&mut v, &chars_of(" [/: "));
        append_chars(&mut v, &chars_of(p.filter.as_str()));
        append_chars(&mut v, &chars_of("]"));
    } else if !p.filter.as_str().is_empty() {
        append_chars(&mut v, &chars_of(" [filter: "));
        append_chars(&mut v, &chars_of(p.filter.as_str()));
        append_chars(&mut v, &chars_of("]"));
    }
    append_chars(&mut v, &pos);
    string_of(&v)
}

/// How a row of a panel is styled.
#[derive(Debug, Clone, Copy, PartialEq, Eq, Structural)]
pub enum RowTone {
    /// The parent entry.
    Parent,
    /// A selected item.
    Selected,
    /// A directory.
    Directory,
    /// Anything else.
    File,
}

/// A row of a panel: the item's name, its style, and, where the item's
/// details fit beside it, the number of spaces between name and details.
#[derive(Debug)]
pub struct PanelRow {
    pub name: String,
    pub tone: RowTone,
    pub padding: Option<usize>,
}

/// The style of an item's row.
pub open spec fn row_tone(p: PanelState, name: Seq<char>) -> RowTone {
    if name == parent_entry() {
        RowTone::Parent
    } else if p.selected.deep_view().contains(name) {
        RowTone::Selected
    } else if ends_with_char(name, '/') {
        RowTone::Directory
    } else {
        RowTone::File
    }
}

/// The width inside a panel's frame and margins for a panel `area_width` wide.
pub open spec fn inner_width(area_width: u16) -> nat {
    if area_width >= 4 {
        (area_width - 4) as nat
    } else {
        0
    }
}

/// The spaces between an item's name and its details, measured in bytes as
/// the terminal columns of plain text: none for the parent entry, for no
/// details, or where name, details and two spaces do not fit.
pub open spec fn detail_padding(name: Seq<char>, details: Seq<char>, area_width: u16) -> Option<nat> {
    let n = vstd::utf8::encode_utf8(name).len() as usize;
    let d = vstd::utf8::encode_utf8(details).len() as usize;
    let w = inner_width(area_width);
    if name == parent_entry() || d == 0 || w < n + d + 2 {
        None
    } else {
        Some((w - (n + d)) as nat)
    }
}

/// The row of item `name` in a panel `area_width` wide, given the details
/// shown for it (empty where there are none).
pub fn panel_row(p: &PanelState, name: &String, details: &str, area_width: u16) -> (r: PanelRow)
    ensures
        r.name@ == name@,
        r.tone == row_tone(*p, name@),
        r.padding matches Some(k) ==> detail_padding(name@, details@, area_width) == Some(k as nat),
        r.padding is None ==> detail_padding(name@, details@, area_width) is None,
{
    if is_parent_entry(name.as_str()) {
        return PanelRow { name: name.clone(), tone: RowTone::Parent, padding: None };
    }
    let tone = match p.selected_position(name) {
        Some(_) => RowTone::Selected,
        None => if str_ends_with_char(name.as_str(), '/') {
            RowTone::Directory
        } else {
            RowTone::File
        },
    };
    let width: usize = if area_width >= 4 {
        (area_width - 4) as usize
    } else {
        0
    };
    let n = name.as_str().len();
    let d = details.len();
    let padding = if d == 0 || width < 2 || n > width - 2 || d > width - 2 - n {
        None
    } else {
        Some(width - (n + d))
    };
    PanelRow { name: name.clone(), tone, padding }
}

/// The title of the preview frame, naming the item under the cursor.
pub open spec fn preview_title_text(p: PanelState) -> Seq<char> {
    let item = match p.spec_selected_item() {
        Some(s) => s,
        None => "[Nothing selected]"@,
    };
    " Preview: "@ + item + " "@
}

/// The text of the preview frame.
pub open spec fn preview_body_text(p: PanelState) -> Seq<char> {
    match p.preview_content {
        Some(s) => s@,
        None => "No preview available"@,
    }
}

/// The preview frame's title and text for a panel.
pub fn preview_texts(p: &PanelState) -> (r: (String, String))
    ensures
        r.0@ == preview_title_text(*p),
        r.1@ == preview_body_text(*p),
{
    let mut t = chars_of(" Preview: ");
    match p.get_selected_item() {
        Some(s) => append_chars(&mut t, &chars_of(s.as_str())),
        None => append_chars(&mut t, &chars_of("[Nothing selected]")),
    }
    append_chars(&mut t, &chars_of(" "));
    let body = match p.get_preview_content() {
        Some(s) => s.clone(),
        None => owned("No preview available"),
    };
    (string_of(&t), body)
}

/// Fits a panel to a frame `area_height` rows tall: two rows go to the frame.
pub fn fit_panel_rows(p: &mut PanelState, area_height: u16)
    ensures
        final(p).visible_rows == (if area_height >= 2 { area_height - 2 } else { 0 }),
        *final(p) == (PanelState { visible_rows: final(p).visible_rows, ..*old(p) }),
{
    p.visible_rows = if area_height >= 2 {
        (area_height - 2) as usize
    } else {
        0
    };
}

// ---------------------------------------------------------------------------
// Geometry
// ---------------------------------------------------------------------------

/// A rectangle of terminal cells.
#[derive(Debug, Clone, Copy, PartialEq, Eq, Structural)]
pub struct Area {
    pub x: u16,
    pub y: u16,
    pub width: u16,
    pub height: u16,
}

/// The rectangle at (`x`, `y`) of the given size, cut where it would reach
/// past the last coordinate (ratatui's `Rect::new`).
pub open spec fn fitted_area(x: u16, y: u16, width: u16, height: u16) -> Area {
    Area {
        x,
        y,
        width: if x + width > u16::MAX { (u16::MAX - x) as u16 } else { width },
        height: if y + height > u16::MAX { (u16::MAX - y) as u16 } else { height },
    }
}

impl Area {
    /// The rectangle at (`x`, `y`) of the given size, cut where it would
    /// reach past the last coordinate.
    pub fn new(x: u16, y: u16, width: u16, height: u16) -> (r: Area)
        ensures
            r == fitted_area(x, y, width, height),
    {
        let w = if width > u16::MAX - x { u16::MAX - x } else { width };
        let h = if height > u16::MAX - y { u16::MAX - y } else { height };
        Area { x, y, width: w, height: h }
    }
}

/// `v` held between `lo` and `hi`.
pub open spec fn clamp_int(v: int, lo: int, hi: int) -> int {
    if v < lo {
        lo
    } else if v > hi {
        hi
    } else {
        v
    }
}

/// A dialog's width: `percent_width` percent of the screen, at most 60.
pub open spec fn dialog_width(r: Area, percent_width: u16) -> int {
    let w = (r.width * percent_width) / 100;
    if w < 60 {
        w
    } else {
        60
    }
}

/// A dialog's height: `percent_height` percent of the screen (the percentage
/// held between 10 and 90), held between 10 and 16 rows.
pub open spec fn dialog_height(r: Area, percent_height: u16) -> int {
    clamp_int((r.height * clamp_int(percent_height as int, 10, 90)) / 100, 10, 16)
}

/// The screen is large enough for the dialog, and no step of the
/// computation leaves the range of a coordinate.
pub open spec fn dialog_fits(r: Area, percent_width: u16, percent_height: u16) -> bool {
    &&& r.width * percent_width <= u16::MAX
    &&& r.height * clamp_int(percent_height as int, 10, 90) <= u16::MAX
    &&& dialog_width(r, percent_width) <= r.width
    &&& dialog_height(r, percent_height) <= r.height
    &&& r.x + (r.width - dialog_width(r, percent_width)) / 2 <= u16::MAX
    &&& r.y + (r.height - dialog_height(r, percent_height)) / 2 <= u16::MAX
}

/// A dialog centered on `r`.
pub fn centered_rect_dialog(r: Area, percent_width: u16, percent_height: u16) -> (d: Area)
    requires
        dialog_fits(r, percent_width, percent_height),
    ensures
        d == fitted_area(
            (r.x + (r.width - dialog_width(r, percent_width)) / 2) as u16,
            (r.y + (r.height - dialog_height(r, percent_height)) / 2) as u16,
            dialog_width(r, percent_width) as u16,
            dialog_height(r, percent_height) as u16,
        ),
{
    let height_percent: u16 = if percent_height < 10 {
        10
    } else if percent_height > 90 {
        90
    } else {
        percent_height
    };
    let full_width: u16 = r.width * percent_width / 100;
    let width: u16 = if full_width < 60 {
        full_width
    } else {
        60
    };
    let calculated_height: u16 = r.height * height_percent / 100;
    let height: u16 = if calculated_height < 10 {
        10
    } else if calculated_height > 16 {
        16
    } else {
        calculated_height
    };
    let x = (r.width - width) / 2;
    let y = (r.height - height) / 2;
    Area::new(r.x + x, r.y + y, width, height)
}

/// The inside of a frame drawn around `r`.
pub fn inner_area(r: Area) -> (d: Area)
    requires
        r.x < u16::MAX,
        r.y < u16::MAX,
    ensures
        d == (Area {
            x: (r.x + 1) as u16,
            y: (r.y + 1) as u16,
            width: if r.width >= 2 { (r.width - 2) as u16 } else { 0 },
            height: if r.height >= 2 { (r.height - 2) as u16 } else { 0 },
        }),
{
    Area {
        x: r.x + 1,
        y: r.y + 1,
        width: if r.width >= 2 { r.width - 2 } else { 0 },
        height: if r.height >= 2 { r.height - 2 } else { 0 },
    }
}

// ---------------------------------------------------------------------------
// The command palette's list
// ---------------------------------------------------------------------------

/// A line of the command palette's list.
pub enum PaletteLine {
    /// A section heading; headings are shown while the filter is empty.
    Section { name: String },
    /// A command: its label, its key, and whether it is highlighted.
    Command { label: String, shortcut: String, highlighted: bool },
}

/// A line of the command palette's list, as plain values.
pub enum PaletteLineView {
    Section(Seq<char>),
    Command(Seq<char>, Seq<char>, bool),
}

impl View for PaletteLine {
    type V = PaletteLineView;

    open spec fn view(&self) -> PaletteLineView {
        match self {
            PaletteLine::Section { name } => PaletteLineView::Section(name@),
            PaletteLine::Command { label, shortcut, highlighted } => PaletteLineView::Command(
                label@,
                shortcut@,
                *highlighted,
            ),
        }
    }
}

/// The lines, as plain values.
pub open spec fn line_views(v: Seq<PaletteLine>) -> Seq<PaletteLineView> {
    Seq::new(v.len(), |i: int| v[i]@)
}

/// Every line of the list for the commands `idx` (in order): each command
/// on a line of its own, the one at position `selected` highlighted, and,
/// with `headings`, a heading before the first command and wherever the
/// section changes.
pub open spec fn palette_lines(idx: Seq<usize>, headings: bool, selected: int) -> Seq<PaletteLineView>
    decreases idx.len(),
{
    if idx.len() == 0 {
        seq![]
    } else {
        let k = idx.len() - 1;
        let a = idx[k] as int;
        let rest = palette_lines(idx.drop_last(), headings, selected);
        let cmd = PaletteLineView::Command(palette_label(a), palette_shortcut(a), k == selected);
        if headings && (k == 0 || palette_section(idx[k - 1] as int) != palette_section(a)) {
            rest.push(PaletteLineView::Section(palette_section(a))).push(cmd)
        } else {
            rest.push(cmd)
        }
    }
}

/// The line of the highlighted command (the first line where none is).
pub open spec fn highlighted_line(idx: Seq<usize>, headings: bool, selected: int) -> int {
    if 0 <= selected < idx.len() {
        palette_lines(idx.take(selected + 1), headings, selected).len() - 1
    } else {
        0
    }
}

/// The first line shown when `rows` lines fit: the list scrolls just far
/// enough to show the highlighted line.
pub open spec fn palette_scroll(line: int, rows: int) -> int {
    if line >= rows {
        line - rows + 1
    } else {
        0
    }
}

/// The lines of the palette's list that fit in `rows` rows.
pub open spec fn palette_window(s: CommandPaletteState, rows: nat) -> Seq<PaletteLineView> {
    let headings = s.filter@.len() == 0;
    let all = palette_lines(s.filtered_indices@, headings, s.selected as int);
    let first = palette_scroll(highlighted_line(s.filtered_indices@, headings, s.selected as int), rows as int);
    let end = if first + rows > all.len() {
        all.len() as int
    } else {
        first + rows
    };
    if first >= all.len() {
        seq![]
    } else {
        all.subrange(first, end)
    }
}

fn copy_line(l: &PaletteLine) -> (r: PaletteLine)
    ensures
        r@ == l@,
{
    match l {
        PaletteLine::Section { name } => PaletteLine::Section { name: name.clone() },
        PaletteLine::Command { label, shortcut, highlighted } => PaletteLine::Command {
            label: label.clone(),
            shortcut: shortcut.clone(),
            highlighted: *highlighted,
        },
    }
}

/// The lines of the command palette's list that fit in `rows` rows.
pub fn palette_view(s: &CommandPaletteState, rows: usize) -> (r: Vec<PaletteLine>)
    requires
        forall|i: int| 0 <= i < s.filtered_indices.len() ==> #[trigger] s.filtered_indices@[i] < palette_count(),
    ensures
        line_views(r@) == palette_window(*s, rows as nat),
{
    let actions = palette_actions();
    let headings = s.filter.as_str().is_empty();
    let ghost idx = s.filtered_indices@;
    let ghost sel = s.selected as int;
    let n = s.filtered_indices.len();
    let mut all: Vec<PaletteLine> = Vec::new();
    let mut sel_line: usize = 0;
    let mut k: usize = 0;
    assert(idx.take(0) =~= Seq::<usize>::empty());
    assert(line_views(all@) =~= Seq::<PaletteLineView>::empty());
    while k < n
        invariant
            k <= n,
            n == idx.len(),
            idx == s.filtered_indices@,
            sel == s.selected as int,
            headings == (s.filter@.len() == 0),
            forall|i: int| 0 <= i < idx.len() ==> #[trigger] idx[i] < palette_count(),
            actions.len() == palette_count(),
            forall|i: int|
                0 <= i < actions.len() ==> (#[trigger] actions@[i]).label@ == palette_label(i)
                    && actions@[i].shortcut@ == palette_shortcut(i) && actions@[i].section@
                    == palette_section(i),
            line_views(all@) == palette_lines(idx.take(k as int), headings, sel),
            sel < k ==> sel_line < all.len() && sel_line == highlighted_line(idx, headings, sel),
            !(sel < k) ==> sel_line == 0,
        decreases n - k,
    {
        let a = s.filtered_indices[k];
        let ghost before = all@;
        let ghost t = idx.take(k as int + 1);
        assert(t.drop_last() =~= idx.take(k as int));
        assert(t[k as int] == idx[k as int]);
        if k > 0 {
            assert(t[k as int - 1] == idx[k as int - 1]);
        }
        let head = headings && (k == 0 || !same_text(
            actions[s.filtered_indices[k - 1]].section,
            actions[a].section,
        ));
        if head {
            all.push(PaletteLine::Section { name: owned(actions[a].section) });
        }
        if k == s.selected {
            sel_line = all.len();
        }
        all.push(
            PaletteLine::Command {
                label: owned(actions[a].label),
                shortcut: owned(actions[a].shortcut),
                highlighted: k == s.selected,
            },
        );
        proof {
            if head {
                assert(line_views(all@) =~= line_views(before).push(
                    PaletteLineView::Section(palette_section(a as int)),
                ).push(PaletteLineView::Command(palette_label(a as int), palette_shortcut(a as int), k == sel)));
            } else {
                assert(line_views(all@) =~= line_views(before).push(
                    PaletteLineView::Command(palette_label(a as int), palette_shortcut(a as int), k == sel),
                ));
            }
            assert(line_views(all@) == palette_lines(t, headings, sel));
        }
        k = k + 1;
    }
    assert(idx.take(n as int) =~= idx);
    let first: usize = if sel_line >= rows {
        sel_line - rows + 1
    } else {
        0
    };
    if first >= all.len() {
        return Vec::new();
    }
    let end: usize = if rows > all.len() - first {
        all.len()
    } else {
        first + rows
    };
    let mut out: Vec<PaletteLine> = Vec::new();
    let mut j: usize = first;
    while j < end
        invariant
            first <= j <= end <= all.len(),
            line_views(out@) == line_views(all@).subrange(first as int, j as int),
        decreases end - j,
    {
        let ghost before = out@;
        out.push(copy_line(&all[j]));
        assert(line_views(out@) =~= line_views(before).push(all@[j as int]@));
        assert(line_views(all@).subrange(first as int, j + 1) =~= line_views(all@).subrange(
            first as int,
            j as int,
        ).push(all@[j as int]@));
        j = j + 1;
    }
    out
}

// ---------------------------------------------------------------------------
// Dialog texts
// ---------------------------------------------------------------------------

/// `n` spaces.
pub open spec fn spaces(n: nat) -> Seq<char> {
    Seq::new(n, |i: int| ' ')
}

/// `s` centered in `width` columns (std's `{:^width}`: the odd space goes
/// to the right); left alone when it is already as wide.
pub open spec fn centered(s: Seq<char>, width: nat) -> Seq<char> {
    if s.len() >= width {
        s
    } else {
        let pad = (width - s.len()) as nat;
        spaces(pad / 2) + s + spaces((pad - pad / 2) as nat)
    }
}

fn push_spaces(v: &mut Vec<char>, n: usize)
    ensures
        final(v)@ == old(v)@ + spaces(n as nat),
{
    let ghost start = v@;
    let mut i: usize = 0;
    while i < n
        invariant
            i <= n,
            v@ == start + spaces(i as nat),
        decreases n - i,
    {
        v.push(' ');
        i = i + 1;
        assert(v@ =~= start + spaces(i as nat));
    }
}

fn center_chars(s: &str, width: usize) -> (r: Vec<char>)
    ensures
        r@ == centered(s@, width as nat),
{
    let c = chars_of(s);
    if c.len() >= width {
        return c;
    }
    let pad = width - c.len();
    let mut v: Vec<char> = Vec::new();
    push_spaces(&mut v, pad / 2);
    append_chars(&mut v, &c);
    push_spaces(&mut v, pad - pad / 2);
    assert(v@ =~= centered(s@, width as nat));
    v
}

/// How a switch is shown in the settings.
pub open spec fn on_off(b: bool) -> Seq<char> {
    if b {
        " On "@
    } else {
        " Off"@
    }
}

/// The settings popup's rows as shown: the value of each setting, the
/// focused row, and the line of key hints.
pub struct SettingsView {
    pub layout: String,
    pub hidden: String,
    pub preview: String,
    pub path: String,
    pub focused: usize,
    pub hint: String,
}

/// Whether the default path is being edited.
pub open spec fn settings_editing(c: Context) -> bool {
    match c.settings_state {
        Some(s) => s.editing_path,
        None => false,
    }
}

/// The focused row of the settings.
pub open spec fn settings_focus(c: Context) -> usize {
    match c.settings_state {
        Some(s) => s.focused_field,
        None => 0,
    }
}

/// The default path as shown: the text being typed while it is edited, with
/// a cursor while its row is focused.
pub open spec fn settings_path_text(c: Context) -> Seq<char> {
    let value = if settings_editing(c) {
        match c.settings_state {
            Some(s) => s.path_input@,
            None => seq![],
        }
    } else {
        c.config.general.default_path@
    };
    let cursor = if settings_editing(c) && settings_focus(c) == 3 {
        "\u{258e}"@
    } else {
        seq![]
    };
    " "@ + value + cursor + " "@
}

/// The hints at the foot of the settings.
pub open spec fn settings_hint(c: Context) -> Seq<char> {
    if settings_editing(c) {
        "Enter: confirm  Esc: cancel"@
    } else {
        "\u{2191}\u{2193}: navigate  \u{25c2}\u{25b8}/Space: change  Enter: edit path  Esc: save & close"@
    }
}

/// The texts of the settings popup.
pub fn settings_view(c: &Context) -> (r: SettingsView)
    ensures
        r.layout@ == "\u{25c2} "@ + centered(c.config.general.panel_layout.spec_name(), 12) + " \u{25b8}"@,
        r.hidden@ == "  "@ + centered(on_off(c.config.general.show_hidden), 12) + "  "@,
        r.preview@ == "  "@ + centered(on_off(c.config.general.show_preview_on_start), 12) + "  "@,
        r.path@ == settings_path_text(*c),
        r.focused == settings_focus(*c),
        r.hint@ == settings_hint(*c),
{
    let (focused, editing) = match &c.settings_state {
        Some(s) => (s.focused_field, s.editing_path),
        None => (0, false),
    };
    let mut layout = chars_of("\u{25c2} ");
    append_chars(&mut layout, &center_chars(c.config.general.panel_layout.as_str(), 12));
    append_chars(&mut layout, &chars_of(" \u{25b8}"));
    let mut hidden = chars_of("  ");
    append_chars(&mut hidden, &center_chars(if c.config.general.show_hidden { " On " } else { " Off" }, 12));
    append_chars(&mut hidden, &chars_of("  "));
    let mut preview = chars_of("  ");
    append_chars(
        &mut preview,
        &center_chars(if c.config.general.show_preview_on_start { " On " } else { " Off" }, 12),
    );
    append_chars(&mut preview, &chars_of("  "));
    let mut path = chars_of(" ");
    if editing {
        match &c.settings_state {
            Some(s) => append_chars(&mut path, &chars_of(s.path_input.as_str())),
            None => {},
        }
    } else {
        append_chars(&mut path, &chars_of(c.config.general.default_path.as_str()));
    }
    if editing && focused == 3 {
        append_chars(&mut path, &chars_of("\u{258e}"));
    }
    append_chars(&mut path, &chars_of(" "));
    let hint = if editing {
        owned("Enter: confirm  Esc: cancel")
    } else {
        owned("\u{2191}\u{2193}: navigate  \u{25c2}\u{25b8}/Space: change  Enter: edit path  Esc: save & close")
    };
    SettingsView {
        layout: string_of(&layout),
        hidden: string_of(&hidden),
        preview: string_of(&preview),
        path: string_of(&path),
        focused,
        hint,
    }
}

/// A field of the connection dialog as shown: its title, its text (a
/// password as stars, one per byte; a cursor after the focused field) and
/// whether it is focused.
pub struct DialogField {
    pub title: String,
    pub text: String,
    pub focused: bool,
}

/// The connection dialog as shown: the protocol line, the text fields in
/// order, and the foot line (the error where there is one, else key hints).
pub struct ConnectView {
    pub protocol: String,
    pub protocol_focused: bool,
    pub fields: Vec<DialogField>,
    pub footer: String,
    pub is_error: bool,
}

/// `n` stars.
pub open spec fn stars(n: nat) -> Seq<char> {
    Seq::new(n, |i: int| '*')
}

/// The title of text field `i` (1 to 5).
pub open spec fn dialog_field_title(i: int) -> Seq<char> {
    if i == 1 {
        " Host "@
    } else if i == 2 {
        " Port "@
    } else if i == 3 {
        " Username "@
    } else if i == 4 {
        " Password "@
    } else {
        " SSH Key "@
    }
}

/// The value of text field `i` (1 to 5).
pub open spec fn dialog_field_value(d: ConnectDialogState, i: int) -> Seq<char> {
    if i == 1 {
        d.host@
    } else if i == 2 {
        d.port@
    } else if i == 3 {
        d.username@
    } else if i == 4 {
        d.password@
    } else {
        d.key_path@
    }
}

/// How text field `i` (1 to 5) reads.
pub open spec fn dialog_field_text(d: ConnectDialogState, i: int) -> Seq<char> {
    let v = dialog_field_value(d, i);
    let shown = if i == 4 && v.len() > 0 {
        stars(vstd::utf8::encode_utf8(v).len() as usize as nat)
    } else {
        v
    };
    shown + if d.focused_field == i {
        "\u{258e}"@
    } else {
        seq![]
    }
}

/// The protocol line of the connection dialog.
pub open spec fn protocol_line(p: ConnectionProtocol) -> Seq<char> {
    match p {
        ConnectionProtocol::Sftp => "  Protocol: < SFTP >"@,
        ConnectionProtocol::Ftp => "  Protocol: < FTP  >"@,
    }
}

fn field_exec(d: &ConnectDialogState, i: usize) -> (r: DialogField)
    requires
        1 <= i <= 5,
    ensures
        r.title@ == dialog_field_title(i as int),
        r.text@ == dialog_field_text(*d, i as int),
        r.focused == (d.focused_field == i),
{
    let (title, value) = if i == 1 {
        (" Host ", &d.host)
    } else if i == 2 {
        (" Port ", &d.port)
    } else if i == 3 {
        (" Username ", &d.username)
    } else if i == 4 {
        (" Password ", &d.password)
    } else {
        (" SSH Key ", &d.key_path)
    };
    let mut text: Vec<char> = Vec::new();
    if i == 4 && !value.as_str().is_empty() {
        let n = value.as_str().len();
        let mut k: usize = 0;
        while k < n
            invariant
                k <= n,
                text@ == stars(k as nat),
            decreases n - k,
        {
            text.push('*');
            k = k + 1;
            assert(text@ =~= stars(k as nat));
        }
    } else {
        text = chars_of(value.as_str());
    }
    if d.focused_field == i {
        append_chars(&mut text, &chars_of("\u{258e}"));
    } else {
        assert(text@ + Seq::<char>::empty() =~= text@);
    }
    DialogField { title: owned(title), text: string_of(&text), focused: d.focused_field == i }
}

/// The texts of the connection dialog.
pub fn connect_view(d: &ConnectDialogState) -> (r: ConnectView)
    ensures
        r.protocol@ == protocol_line(d.protocol),
        r.protocol_focused == (d.focused_field == 0),
        r.fields.len() == 5,
        forall|k: int|
            0 <= k < 5 ==> (#[trigger] r.fields@[k]).title@ == dialog_field_title(k + 1)
                && r.fields@[k].text@ == dialog_field_text(*d, k + 1) && r.fields@[k].focused == (
            d.focused_field == k + 1),
        r.is_error == d.error_message is Some,
        r.footer@ == match d.error_message {
            Some(e) => "  "@ + e@,
            None => "  [Tab] Next  [\u{2191}\u{2193}] Protocol  [Enter] Connect  [Esc] Cancel"@,
        },
{
    let protocol = match d.protocol {
        ConnectionProtocol::Sftp => owned("  Protocol: < SFTP >"),
        ConnectionProtocol::Ftp => owned("  Protocol: < FTP  >"),
    };
    let mut fields: Vec<DialogField> = Vec::new();
    let mut i: usize = 1;
    while i <= 5
        invariant
            1 <= i <= 6,
            fields.len() == i - 1,
            forall|k: int|
                0 <= k < i - 1 ==> (#[trigger] fields@[k]).title@ == dialog_field_title(k + 1)
                    && fields@[k].text@ == dialog_field_text(*d, k + 1) && fields@[k].focused == (
                d.focused_field == k + 1),
        decreases 6 - i,
    {
        fields.push(field_exec(d, i));
        i = i + 1;
    }
    let (footer, is_error) = match &d.error_message {
        Some(e) => (concat("  ", e.as_str()), true),
        None => (owned("  [Tab] Next  [\u{2191}\u{2193}] Protocol  [Enter] Connect  [Esc] Cancel"), false),
    };
    ConnectView { protocol, protocol_focused: d.focused_field == 0, fields, footer, is_error }
}

/// Where the connection dialog stands: 70% of the screen's width held
/// between 40 and 70 columns, 22 rows (fewer on a short screen), centered.
pub open spec fn connect_dialog_geometry(r: Area) -> (int, int, int, int) {
    let w = clamp_int((r.width * 70) / 100, 40, 70);
    let h = if r.height >= 2 {
        if 22 < r.height - 2 {
            22
        } else {
            r.height - 2
        }
    } else {
        0
    };
    let x = if r.width >= w {
        (r.width - w) / 2
    } else {
        0
    };
    let y = if r.height >= h {
        (r.height - h) / 2
    } else {
        0
    };
    (r.x + x, r.y + y, w, h)
}

/// The area of the connection dialog on screen `r`.
pub fn connect_dialog_area(r: Area) -> (d: Area)
    requires
        r.width * 70 <= u16::MAX,
        connect_dialog_geometry(r).0 <= u16::MAX,
        connect_dialog_geometry(r).1 <= u16::MAX,
    ensures
        d == fitted_area(
            connect_dialog_geometry(r).0 as u16,
            connect_dialog_geometry(r).1 as u16,
            connect_dialog_geometry(r).2 as u16,
            connect_dialog_geometry(r).3 as u16,
        ),
{
    let full: u16 = r.width * 70 / 100;
    let width: u16 = if full < 40 {
        40
    } else if full > 70 {
        70
    } else {
        full
    };
    let room: u16 = if r.height >= 2 { r.height - 2 } else { 0 };
    let height: u16 = if 22 < room { 22 } else { room };
    let x: u16 = if r.width >= width { (r.width - width) / 2 } else { 0 };
    let y: u16 = if r.height >= height { (r.height - height) / 2 } else { 0 };
    Area::new(r.x + x, r.y + y, width, height)
}

/// The question of the delete confirmation, naming the item under the
/// cursor; none without such an item.
pub fn delete_prompt(p: &PanelState) -> (r: Option<String>)
    ensures
        r matches Some(m) ==> p.spec_selected_item() matches Some(item) && m@
            == "Are you sure you want to delete \""@ + item + "\"?"@,
        r is None <==> p.spec_selected_item() is None,
{
    match p.get_selected_item() {
        Some(item) => Some(concat3("Are you sure you want to delete \"", item.as_str(), "\"?")),
        None => None,
    }
}

/// The name the overwrite question uses: the last component of the
/// destination of the pending paste, "file" where there is none.
pub open spec fn overwrite_name(c: Context) -> Seq<char> {
    match c.pending_paste {
        Some((_, to, _)) => match std_path_file_name(to@) {
            Some(n) => n,
            None => "file"@,
        },
        None => "file"@,
    }
}

/// The question of the overwrite confirmation.
pub fn overwrite_prompt(c: &Context) -> (r: String)
    ensures
        r@ == "Overwrite \""@ + overwrite_name(*c) + "\"?"@,
{
    let name = match &c.pending_paste {
        Some((_, to, _)) => match native_file_name(to.as_str()) {
            Some(n) => n,
            None => owned("file"),
        },
        None => owned("file"),
    };
    concat3("Overwrite \"", name.as_str(), "\"?")
}

/// A saved connection as the bookmark list shows it:
/// " name (protocol://user@host:port) ".
pub fn bookmark_line(p: &ConnectionProfile) -> (r: String)
    ensures
        r@ == " "@ + p.name@ + " ("@ + p.protocol@ + "://"@ + p.username@ + "@"@ + p.host@ + ":"@
            + decimal(p.port as nat) + ") "@,
{
    let mut v = chars_of(" ");
    append_chars(&mut v, &chars_of(p.name.as_str()));
    append_chars(&mut v, &chars_of(" ("));
    append_chars(&mut v, &chars_of(p.protocol.as_str()));
    append_chars(&mut v, &chars_of("://"));
    append_chars(&mut v, &chars_of(p.username.as_str()));
    append_chars(&mut v, &chars_of("@"));
    append_chars(&mut v, &chars_of(p.host.as_str()));
    append_chars(&mut v, &chars_of(":"));
    append_chars(&mut v, &decimal_chars(p.port as u64));
    append_chars(&mut v, &chars_of(") "));
    string_of(&v)
}

/// Whether the two panels are stacked (rather than side by side): as the
/// layout setting says, or, for the automatic layout, when the area is
/// taller than wide.
pub open spec fn stacked(layout: PanelLayout, width: u16, height: u16) -> bool {
    match layout {
        PanelLayout::Horizontal => false,
        PanelLayout::Vertical => true,
        PanelLayout::Auto => height > width,
    }
}

/// Whether the panels are stacked in an area of the given size.
pub fn panels_stacked(layout: PanelLayout, width: u16, height: u16) -> (r: bool)
    ensures
        r == stacked(layout, width, height),
{
    match layout {
        PanelLayout::Horizontal => false,
        PanelLayout::Vertical => true,
        PanelLayout::Auto => height > width,
    }
}

/// Whether `centered_rect_dialog` can place a dialog on `r`.
pub fn dialog_fits_check(r: Area, percent_width: u16, percent_height: u16) -> (b: bool)
    ensures
        b == dialog_fits(r, percent_width, percent_height),
{
    let height_percent: u16 = if percent_height < 10 {
        10
    } else if percent_height > 90 {
        90
    } else {
        percent_height
    };
    assert((r.width as u32) * (percent_width as u32) <= 65535 * 65535) by (nonlinear_arith)
        requires
            r.width <= 65535,
            percent_width <= 65535,
    ;
    assert((r.height as u32) * (height_percent as u32) <= 65535 * 65535) by (nonlinear_arith)
        requires
            r.height <= 65535,
            height_percent <= 65535,
    ;
    let wide: u32 = (r.width as u32) * (percent_width as u32);
    let tall: u32 = (r.height as u32) * (height_percent as u32);
    if wide > 65535 || tall > 65535 {
        return false;
    }
    let full_width: u32 = wide / 100;
    let width: u32 = if full_width < 60 {
        full_width
    } else {
        60
    };
    let calculated_height: u32 = tall / 100;
    let height: u32 = if calculated_height < 10 {
        10
    } else if calculated_height > 16 {
        16
    } else {
        calculated_height
    };
    if width > r.width as u32 || height > r.height as u32 {
        return false;
    }
    (r.x as u32) + (r.width as u32 - width) / 2 <= 65535 && (r.y as u32) + (r.height as u32 - height) / 2
        <= 65535
}

/// Whether `connect_dialog_area` can place the dialog on `r`.
pub fn connect_dialog_fits(r: Area) -> (b: bool)
    ensures
        b == (r.width * 70 <= u16::MAX && connect_dialog_geometry(r).0 <= u16::MAX
            && connect_dialog_geometry(r).1 <= u16::MAX),
{
    let wide: u32 = (r.width as u32) * 70;
    if wide > 65535 {
        return false;
    }
    let full: u32 = wide / 100;
    let width: u32 = if full < 40 {
        40
    } else if full > 70 {
        70
    } else {
        full
    };
    let room: u32 = if r.height >= 2 { r.height as u32 - 2 } else { 0 };
    let height: u32 = if 22 < room { 22 } else { room };
    let x: u32 = if r.width as u32 >= width { (r.width as u32 - width) / 2 } else { 0 };
    let y: u32 = if r.height as u32 >= height { (r.height as u32 - height) / 2 } else { 0 };
    (r.x as u32) + x <= 65535 && (r.y as u32) + y <= 65535
}

} // verus!
