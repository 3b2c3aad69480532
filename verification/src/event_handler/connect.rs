//! The connection dialog, the bookmark list and the bookmark-name popup.
use vstd::prelude::*;

use crate::backend::{BackendKind, BackendRef, ConnectionParams, ConnectionProtocol, FilesystemBackend};
use crate::config::ConnectionProfile;
use crate::context::{ConnectDialogState, Context, PanelState, UiState};
use crate::event_handler::actions::{active_panel_is, status_is};
use crate::event_handler::Effect;
use crate::keys::{KeyCode, KeyEvent, KeyModifiers};
use crate::text::{
    concat, concat3, decimal, decimal_string, owned, parse_unsigned, parse_unsigned_str, pop_char,
    push_char, str_starts_with_char, starts_with_char,
};

verus! {

/// The other protocol.
pub open spec fn toggled(p: ConnectionProtocol) -> ConnectionProtocol {
    match p {
        ConnectionProtocol::Sftp => ConnectionProtocol::Ftp,
        ConnectionProtocol::Ftp => ConnectionProtocol::Sftp,
    }
}

/// The usual port of a protocol, as text.
pub open spec fn default_port_text(p: ConnectionProtocol) -> Seq<char> {
    match p {
        ConnectionProtocol::Sftp => "22"@,
        ConnectionProtocol::Ftp => "21"@,
    }
}

/// The state is `c` with the dialog replaced by `d`.
pub open spec fn dialog_now(c: Context, n: Context, d: ConnectDialogState) -> bool {
    n == Context { connect_dialog: Some(d), ..c }
}

/// The dialog of `c` now shows the error `m`, nothing else changed.
pub open spec fn dialog_error(c: Context, n: Context, m: Seq<char>) -> bool {
    match c.connect_dialog {
        Some(d) => n.connect_dialog matches Some(e) && (e.error_message matches Some(x) && x@ == m)
            && e == ConnectDialogState { error_message: e.error_message, ..d } && n == Context {
            connect_dialog: n.connect_dialog,
            ..c
        },
        None => n == c,
    }
}

/// The connection a dialog asks for, when its host is set and its port is a
/// number from 1 to 65535.
pub open spec fn requested_port(d: ConnectDialogState) -> Option<nat> {
    match parse_unsigned(d.port@, 10, 65535) {
        Some(p) => if p == 0 {
            None
        } else {
            Some(p)
        },
        None => None,
    }
}

/// Enter in the dialog: without a host, or with a port that is not a
/// number from 1 to 65535, the dialog shows why; otherwise the connection
/// is requested with the dialog's fields (an empty key path meaning none).
pub open spec fn post_attempt(c: Context, n: Context, r: Effect) -> bool {
    match c.connect_dialog {
        None => n == c && r is Nothing,
        Some(d) => if d.host@.len() == 0 {
            dialog_error(c, n, "Host is required"@) && r is Nothing
        } else if requested_port(d) is None {
            dialog_error(c, n, "Invalid port number"@) && r is Nothing
        } else {
            &&& n == c
            &&& r matches Effect::Connect(params) && params.protocol == d.protocol && params.host
                == d.host && params.port as nat == requested_port(d)->0 && params.username == d.username
                && params.password == d.password && if d.key_path@.len() == 0 {
                params.key_path is None
            } else {
                params.key_path == Some(d.key_path)
            }
        },
    }
}

fn attempt_connection(context: &mut Context) -> (r: Effect)
    ensures
        post_attempt(*old(context), *final(context), r),
{
    let dialog = match &context.connect_dialog {
        Some(d) => d.clone(),
        None => return Effect::Nothing,
    };
    if dialog.host.as_str().is_empty() {
        set_dialog_error(context, "Host is required");
        return Effect::Nothing;
    }
    let port = match parse_unsigned_str(dialog.port.as_str(), 10, 65535) {
        Some(p) => {
            if p == 0 {
                set_dialog_error(context, "Invalid port number");
                return Effect::Nothing;
            }
            p as u16
        },
        None => {
            set_dialog_error(context, "Invalid port number");
            return Effect::Nothing;
        },
    };
    let key_path = if dialog.key_path.as_str().is_empty() {
        None
    } else {
        Some(dialog.key_path.clone())
    };
    Effect::Connect(
        ConnectionParams {
            protocol: dialog.protocol,
            host: dialog.host,
            port,
            username: dialog.username,
            password: dialog.password,
            key_path,
        },
    )
}

fn set_dialog_error(context: &mut Context, m: &str)
    ensures
        dialog_error(*old(context), *final(context), m@),
{
    match &mut context.connect_dialog {
        Some(d) => {
            d.error_message = Some(owned(m));
        },
        None => {},
    }
}

/// What a key does in the connection dialog. Without a dialog the screen
/// goes back to the panels. Esc closes it; Tab and Shift+Tab move between
/// the six fields, wrapping around; Up and Down on the protocol field switch
/// the protocol and reset the port to its usual value; typing and Backspace
/// edit the focused text field; Ctrl+S asks for a bookmark name (preset to
/// "user@host"), which needs a host; Enter requests the connection.
pub open spec fn post_connect_dialog(c: Context, n: Context, key: KeyEvent, r: Effect) -> bool {
    match c.connect_dialog {
        None => n == Context { ui_state: UiState::Normal, ..c } && r is Nothing,
        Some(d) => match key.code {
            KeyCode::Esc => n == Context { connect_dialog: None, ui_state: UiState::Normal, ..c }
                && r is Nothing,
            KeyCode::Tab => dialog_now(
                c,
                n,
                ConnectDialogState { focused_field: ((d.focused_field + 1) % 6) as usize, ..d },
            ) && r is Nothing,
            KeyCode::BackTab => dialog_now(
                c,
                n,
                ConnectDialogState {
                    focused_field: if d.focused_field == 0 {
                        5
                    } else {
                        (d.focused_field - 1) as usize
                    },
                    ..d
                },
            ) && r is Nothing,
            KeyCode::Up | KeyCode::Down => r is Nothing && if d.focused_field == 0 {
                n.connect_dialog matches Some(e) && e.protocol == toggled(d.protocol) && e.port@
                    == default_port_text(e.protocol) && e == ConnectDialogState {
                    protocol: e.protocol,
                    port: e.port,
                    ..d
                } && n == Context { connect_dialog: n.connect_dialog, ..c }
            } else {
                n == c
            },
            KeyCode::Backspace => r is Nothing && if d.focused_field > 0 {
                n.connect_dialog matches Some(e) && e == d.with_active_field(e.active_field())
                    && e.active_field()@ == (if d.active_field()@.len() > 0 {
                    d.active_field()@.drop_last()
                } else {
                    d.active_field()@
                }) && n == Context { connect_dialog: n.connect_dialog, ..c }
            } else {
                n == c
            },
            KeyCode::Char(ch) => r is Nothing && if ch == 's' && key.modifiers.has_control() {
                if d.host@.len() == 0 {
                    dialog_error(c, n, "Host is required to save bookmark"@)
                } else {
                    n.input@ == d.username@ + "@"@ + d.host@ && n == Context {
                        input: n.input,
                        ui_state: UiState::BookmarkNameInput,
                        ..c
                    }
                }
            } else if d.focused_field > 0 {
                n.connect_dialog matches Some(e) && e == d.with_active_field(e.active_field())
                    && e.active_field()@ == d.active_field()@.push(ch) && n == Context {
                    connect_dialog: n.connect_dialog,
                    ..c
                }
            } else {
                n == c
            },
            KeyCode::Enter => post_attempt(c, n, r),
            _ => n == c && r is Nothing,
        },
    }
}

/// Handles a key in the connection dialog.
pub fn handle_connect_dialog_event(context: &mut Context, key_event: KeyEvent) -> (r: Effect)
    requires
        key_event.code == KeyCode::Tab && old(context).connect_dialog is Some ==> old(
            context,
        ).connect_dialog->0.focused_field < usize::MAX,
    ensures
        post_connect_dialog(*old(context), *final(context), key_event, r),
{
    if context.connect_dialog.is_none() {
        context.set_ui_state(UiState::Normal);
        return Effect::Nothing;
    }
    match key_event.code {
        KeyCode::Esc => {
            context.connect_dialog = None;
            context.set_ui_state(UiState::Normal);
            Effect::Nothing
        },
        KeyCode::Enter => attempt_connection(context),
        KeyCode::Char(ch) => {
            if ch == 's' && key_event.modifiers.contains(KeyModifiers::control()) {
                let (empty, default_name) = match &context.connect_dialog {
                    Some(d) => (
                        d.host.as_str().is_empty(),
                        concat3(d.username.as_str(), "@", d.host.as_str()),
                    ),
                    None => (true, String::new()),
                };
                if empty {
                    set_dialog_error(context, "Host is required to save bookmark");
                } else {
                    context.input = default_name;
                    context.set_ui_state(UiState::BookmarkNameInput);
                }
            } else {
                match &mut context.connect_dialog {
                    Some(d) => {
                        if d.focused_field > 0 {
                            push_char(d.active_field_mut(), ch);
                        }
                    },
                    None => {},
                }
            }
            Effect::Nothing
        },
        _ => {
            match &mut context.connect_dialog {
                Some(dialog) => {
                    match key_event.code {
                        KeyCode::Tab => {
                            dialog.focused_field = (dialog.focused_field + 1) % dialog.field_count();
                        },
                        KeyCode::BackTab => {
                            if dialog.focused_field == 0 {
                                dialog.focused_field = dialog.field_count() - 1;
                            } else {
                                dialog.focused_field = dialog.focused_field - 1;
                            }
                        },
                        KeyCode::Up | KeyCode::Down => {
                            if dialog.focused_field == 0 {
                                dialog.protocol = match dialog.protocol {
                                    ConnectionProtocol::Sftp => ConnectionProtocol::Ftp,
                                    ConnectionProtocol::Ftp => ConnectionProtocol::Sftp,
                                };
                                dialog.port = match dialog.protocol {
                                    ConnectionProtocol::Sftp => owned("22"),
                                    ConnectionProtocol::Ftp => owned("21"),
                                };
                            }
                        },
                        KeyCode::Backspace => {
                            if dialog.focused_field > 0 {
                                pop_char(dialog.active_field_mut());
                            }
                        },
                        _ => {},
                    }
                },
                None => {},
            }
            Effect::Nothing
        },
    }
}

/// The protocol a bookmark names: FTP for "ftp", SFTP for anything else.
pub open spec fn profile_protocol(p: ConnectionProfile) -> ConnectionProtocol {
    if p.protocol@ == "ftp"@ {
        ConnectionProtocol::Ftp
    } else {
        ConnectionProtocol::Sftp
    }
}

/// The dialog a bookmark fills in: its protocol, host, port, user and key
/// path, with no password, the host field focused and no error.
pub open spec fn dialog_from_profile(d: ConnectDialogState, p: ConnectionProfile) -> bool {
    &&& d.protocol == profile_protocol(p)
    &&& d.host@ == p.host@
    &&& d.port@ == decimal(p.port as nat)
    &&& d.username@ == p.username@
    &&& d.password@.len() == 0
    &&& d.key_path@ == match p.key_path {
        Some(k) => k@,
        None => Seq::<char>::empty(),
    }
    &&& d.focused_field == 1
    &&& d.error_message is None
}

/// What a key does in the bookmark list: Esc closes it, Up/"k" and
/// Down/"j" move the highlight within the list, "d" deletes the highlighted
/// bookmark (the highlight stays in the list; the list closes when it
/// becomes empty) and asks for the settings to be saved, Enter fills the
/// connection dialog from it.
pub open spec fn post_bookmark_list(c: Context, n: Context, key: KeyEvent, r: Effect) -> bool {
    let count = c.config.connections.len();
    let s = c.bookmark_selected;
    match key.code {
        KeyCode::Esc => n == Context { ui_state: UiState::Normal, ..c } && r is Nothing,
        KeyCode::Up => n == Context {
            bookmark_selected: if s > 0 {
                (s - 1) as usize
            } else {
                s
            },
            ..c
        } && r is Nothing,
        KeyCode::Down => n == Context {
            bookmark_selected: if s + 1 < count {
                (s + 1) as usize
            } else {
                s
            },
            ..c
        } && r is Nothing,
        KeyCode::Char(ch) => if ch == 'k' {
            n == Context {
                bookmark_selected: if s > 0 {
                    (s - 1) as usize
                } else {
                    s
                },
                ..c
            } && r is Nothing
        } else if ch == 'j' {
            n == Context {
                bookmark_selected: if s + 1 < count {
                    (s + 1) as usize
                } else {
                    s
                },
                ..c
            } && r is Nothing
        } else if ch == 'd' {
            if s < count {
                let rest = c.config.connections@.remove(s as int);
                &&& n.config.connections@ == rest
                &&& n.config.general == c.config.general
                &&& n.bookmark_selected == if s >= rest.len() && s > 0 {
                    (s - 1) as usize
                } else {
                    s
                }
                &&& r is SaveConfig
                &&& if rest.len() == 0 {
                    status_is(n, "Bookmark deleted"@) && n == Context {
                        config: n.config,
                        bookmark_selected: n.bookmark_selected,
                        ui_state: UiState::Normal,
                        status_message: n.status_message,
                        ..c
                    }
                } else {
                    n == Context { config: n.config, bookmark_selected: n.bookmark_selected, ..c }
                }
            } else {
                n == c && r is Nothing
            }
        } else {
            n == c && r is Nothing
        },
        KeyCode::Enter => r is Nothing && if s < count {
            n.connect_dialog matches Some(d) && dialog_from_profile(d, c.config.connections@[s as int])
                && n == Context {
                connect_dialog: n.connect_dialog,
                ui_state: UiState::ConnectDialog,
                ..c
            }
        } else {
            n == c
        },
        _ => n == c && r is Nothing,
    }
}

/// Handles a key in the bookmark list.
pub fn handle_bookmark_list_event(context: &mut Context, key_event: KeyEvent) -> (r: Effect)
    ensures
        post_bookmark_list(*old(context), *final(context), key_event, r),
{
    let count = context.config.connections.len();
    let up = match key_event.code {
        KeyCode::Up => true,
        KeyCode::Char(ch) => ch == 'k',
        _ => false,
    };
    let down = match key_event.code {
        KeyCode::Down => true,
        KeyCode::Char(ch) => ch == 'j',
        _ => false,
    };
    let delete = match key_event.code {
        KeyCode::Char(ch) => ch == 'd',
        _ => false,
    };
    if up {
        if context.bookmark_selected > 0 {
            context.bookmark_selected = context.bookmark_selected - 1;
        }
        return Effect::Nothing;
    }
    if down {
        if context.bookmark_selected < count && context.bookmark_selected + 1 < count {
            context.bookmark_selected = context.bookmark_selected + 1;
        }
        return Effect::Nothing;
    }
    if delete {
        if context.bookmark_selected < count {
            context.config.connections.remove(context.bookmark_selected);
            if context.bookmark_selected >= context.config.connections.len()
                && context.bookmark_selected > 0 {
                context.bookmark_selected = context.bookmark_selected - 1;
            }
            if context.config.connections.len() == 0 {
                context.set_ui_state(UiState::Normal);
                context.set_status_message("Bookmark deleted");
            }
            return Effect::SaveConfig;
        }
        return Effect::Nothing;
    }
    match key_event.code {
        KeyCode::Esc => {
            context.set_ui_state(UiState::Normal);
        },
        KeyCode::Enter => {
            if context.bookmark_selected < count {
                let profile = context.config.connections[context.bookmark_selected].clone();
                let mut dialog = ConnectDialogState::new();
                dialog.protocol = if crate::text::same_text(profile.protocol.as_str(), "ftp") {
                    ConnectionProtocol::Ftp
                } else {
                    ConnectionProtocol::Sftp
                };
                dialog.host = profile.host;
                dialog.port = decimal_string(profile.port as u64);
                dialog.username = profile.username;
                dialog.key_path = match profile.key_path {
                    Some(k) => k,
                    None => String::new(),
                };
                context.connect_dialog = Some(dialog);
                context.set_ui_state(UiState::ConnectDialog);
            }
        },
        _ => {},
    }
    Effect::Nothing
}

/// The bookmark a dialog is saved as under `name`.
pub open spec fn profile_from_dialog(p: ConnectionProfile, name: Seq<char>, d: ConnectDialogState) -> bool {
    &&& p.name@ == name
    &&& p.protocol@ == match d.protocol {
        ConnectionProtocol::Sftp => "sftp"@,
        ConnectionProtocol::Ftp => "ftp"@,
    }
    &&& p.host@ == d.host@
    &&& p.port as nat == match parse_unsigned(d.port@, 10, 65535) {
        Some(x) => x,
        None => match d.protocol {
            ConnectionProtocol::Sftp => 22,
            ConnectionProtocol::Ftp => 21,
        },
    }
    &&& p.username@ == d.username@
    &&& if d.key_path@.len() == 0 {
        p.key_path is None
    } else {
        p.key_path matches Some(k) && k@ == d.key_path@
    }
}

/// What a key does in the bookmark-name popup: typing and Backspace edit
/// the name, Esc goes back to the dialog with the name cleared, Enter saves
/// the dialog as a bookmark under the name (asking for the settings to be
/// saved) and goes back to the dialog; an empty name saves nothing.
pub open spec fn post_bookmark_name(c: Context, n: Context, key: KeyEvent, r: Effect) -> bool {
    match key.code {
        KeyCode::Esc => n.input@.len() == 0 && n == Context {
            input: n.input,
            ui_state: UiState::ConnectDialog,
            ..c
        } && r is Nothing,
        KeyCode::Backspace => n.input@ == (if c.input@.len() > 0 {
            c.input@.drop_last()
        } else {
            c.input@
        }) && n == Context { input: n.input, ..c } && r is Nothing,
        KeyCode::Char(ch) => n.input@ == c.input@.push(ch) && n == Context { input: n.input, ..c }
            && r is Nothing,
        KeyCode::Enter => if c.input@.len() == 0 {
            n == Context { ui_state: UiState::ConnectDialog, ..c } && r is Nothing
        } else {
            match c.connect_dialog {
                Some(d) => {
                    &&& n.config.general == c.config.general
                    &&& n.config.connections.len() == c.config.connections.len() + 1
                    &&& n.config.connections@.drop_last() == c.config.connections@
                    &&& profile_from_dialog(n.config.connections@.last(), c.input@, d)
                    &&& status_is(n, "Bookmark '"@ + c.input@ + "' saved"@)
                    &&& n.input@.len() == 0
                    &&& n == Context {
                        config: n.config,
                        status_message: n.status_message,
                        input: n.input,
                        ui_state: UiState::ConnectDialog,
                        ..c
                    }
                    &&& r is SaveConfig
                },
                None => n.input@.len() == 0 && n == Context {
                    input: n.input,
                    ui_state: UiState::ConnectDialog,
                    ..c
                } && r is Nothing,
            }
        },
        _ => n == c && r is Nothing,
    }
}

/// Handles a key in the bookmark-name popup.
pub fn handle_bookmark_name_event(context: &mut Context, key_event: KeyEvent) -> (r: Effect)
    ensures
        post_bookmark_name(*old(context), *final(context), key_event, r),
{
    match key_event.code {
        KeyCode::Esc => {
            context.set_input(String::new());
            context.set_ui_state(UiState::ConnectDialog);
            Effect::Nothing
        },
        KeyCode::Backspace => {
            pop_char(&mut context.input);
            Effect::Nothing
        },
        KeyCode::Enter => {
            let name = context.input.clone();
            if name.as_str().is_empty() {
                context.set_ui_state(UiState::ConnectDialog);
                return Effect::Nothing;
            }
            let profile = match &context.connect_dialog {
                Some(dialog) => {
                    let protocol = match dialog.protocol {
                        ConnectionProtocol::Sftp => "sftp",
                        ConnectionProtocol::Ftp => "ftp",
                    };
                    let port: u16 = match parse_unsigned_str(dialog.port.as_str(), 10, 65535) {
                        Some(p) => p as u16,
                        None => match dialog.protocol {
                            ConnectionProtocol::Sftp => 22,
                            ConnectionProtocol::Ftp => 21,
                        },
                    };
                    let key_path = if dialog.key_path.as_str().is_empty() {
                        None
                    } else {
                        Some(dialog.key_path.clone())
                    };
                    Some(
                        ConnectionProfile {
                            name: name.clone(),
                            protocol: owned(protocol),
                            host: dialog.host.clone(),
                            port,
                            username: dialog.username.clone(),
                            key_path,
                        },
                    )
                },
                None => None,
            };
            let effect = match profile {
                Some(p) => {
                    let ghost before = context.config.connections@;
                    context.config.connections.push(p);
                    assert(context.config.connections@.drop_last() =~= before);
                    let m = concat3("Bookmark '", name.as_str(), "' saved");
                    context.set_status_message(m.as_str());
                    Effect::SaveConfig
                },
                None => Effect::Nothing,
            };
            context.set_input(String::new());
            context.set_ui_state(UiState::ConnectDialog);
            effect
        },
        KeyCode::Char(ch) => {
            push_char(&mut context.input, ch);
            Effect::Nothing
        },
        _ => Effect::Nothing,
    }
}

/// A connection that was opened: the kind of backend, its display name and
/// the parameters it was opened with.
pub struct Connected {
    pub kind: BackendKind,
    pub display: String,
    pub params: ConnectionParams,
}

/// What the outcome of a requested connection does: on success the active
/// panel moves to the new backend (a fresh identity) in the directory that
/// "." resolves to there ("/" when that fails), the dialog closes and the
/// status says so (noting SCP mode); on failure the dialog shows the error.
pub open spec fn post_finish_connection(c: Context, n: Context, outcome: Result<Connected, String>, r: Option<BackendRef>) -> bool {
    match outcome {
        Err(e) => r is None && dialog_error(c, n, e@),
        Ok(conn) => {
            let p = c.spec_active();
            let q = n.spec_active();
            &&& r == Some(q.backend)
            &&& q.backend == BackendRef {
                id: c.next_backend_id,
                kind: conn.kind,
                display: conn.display,
                params: Some(conn.params),
            }
            &&& active_panel_is(c, n, PanelState { backend: q.backend, path: q.path, items_dirty: true, ..p })
            &&& exists|answer: Result<Seq<char>, Seq<char>>| q.path@ == #[trigger] start_dir_of(answer)
            &&& status_is(
                n,
                if conn.display@.len() >= 3 && conn.display@.take(3) == "SCP"@ {
                    "Connected (SCP mode)"@
                } else {
                    "Connected"@
                },
            )
            &&& n == Context {
                panels: n.panels,
                connect_dialog: None,
                ui_state: UiState::Normal,
                status_message: n.status_message,
                next_backend_id: if c.next_backend_id < u64::MAX {
                    (c.next_backend_id + 1) as u64
                } else {
                    c.next_backend_id
                },
                ..c
            }
        },
    }
}

/// The directory a new connection starts in, from the backend's canonical
/// form of ".": that path, or "/" when it fails.
pub open spec fn start_dir_of(answer: Result<Seq<char>, Seq<char>>) -> Seq<char> {
    match answer {
        Ok(p) => p,
        Err(_) => "/"@,
    }
}

/// The starting directory from the backend's answer (`start_dir_of`).
pub fn start_dir(answer: Result<String, String>) -> (r: String)
    ensures
        r@ == start_dir_of(crate::context::text_result(answer)),
{
    match answer {
        Ok(p) => p,
        Err(_) => {
            let r = owned("/");
            proof {
                reveal_strlit("/");
            }
            r
        },
    }
}

/// Whether `s` starts with "SCP".
fn starts_with_scp(s: &str) -> (r: bool)
    ensures
        r == (s@.len() >= 3 && s@.take(3) == "SCP"@),
{
    let v = crate::text::chars_of(s);
    proof {
        reveal_strlit("SCP");
    }
    let r = v.len() >= 3 && v[0] == 'S' && v[1] == 'C' && v[2] == 'P';
    proof {
        if v.len() >= 3 {
            if r {
                assert(v@.take(3) =~= "SCP"@);
            } else if v@.take(3) == "SCP"@ {
                assert(v@.take(3)[0] == 'S' && v@.take(3)[1] == 'C' && v@.take(3)[2] == 'P');
            }
        }
    }
    r
}

impl Context {
    /// Takes the outcome of a requested connection; `fs` is the new backend
    /// on success. Returns the panel-side description of the new backend.
    pub fn finish_connection<F: FilesystemBackend>(&mut self, outcome: Result<Connected, String>, fs: &F) -> (r: Option<BackendRef>)
        requires
            old(self).active_panel < 2,
        ensures
            post_finish_connection(*old(self), *final(self), outcome, r),
            outcome is Ok ==> exists|answer: Result<Seq<char>, Seq<char>>|
                #[trigger] fs.canonical_answer("."@, answer) && final(self).spec_active().path@ == start_dir_of(answer),
    {
        match outcome {
            Ok(conn) => {
                let answer = fs.canonicalize(".");
                let ghost av = crate::context::text_result(answer);
                assert(fs.canonical_answer("."@, av));
                let initial_path = start_dir(answer);
                assert(initial_path@ == start_dir_of(av));
                let is_scp = starts_with_scp(conn.display.as_str());
                let id = self.allocate_backend_id();
                let backend = BackendRef { id, kind: conn.kind, display: conn.display, params: Some(conn.params) };
                let a = self.active_panel;
                self.panels[a].backend = backend.clone();
                self.panels[a].path = initial_path;
                self.panels[a].invalidate_directory_cache();
                self.connect_dialog = None;
                self.set_ui_state(UiState::Normal);
                if is_scp {
                    self.set_status_message("Connected (SCP mode)");
                } else {
                    self.set_status_message("Connected");
                }
                Some(backend)
            },
            Err(e) => {
                set_dialog_error(self, e.as_str());
                None
            },
        }
    }
}

} // verus!
