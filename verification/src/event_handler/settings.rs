//! The settings popup.
use vstd::prelude::*;

use crate::config::{Config, GeneralConfig};
use crate::context::{Context, PanelState, SettingsState, UiState};
use crate::event_handler::actions::status_is;
use crate::event_handler::Effect;
use crate::keys::{KeyCode, KeyEvent};
use crate::text::{pop_char, push_char};

verus! {

/// The state is `c` with the settings popup's state replaced by `s`.
pub open spec fn settings_now(c: Context, n: Context, s: SettingsState) -> bool {
    n == Context { settings_state: Some(s), ..c }
}

/// The state is `c` with the general settings replaced by `g`.
pub open spec fn general_now(c: Context, n: Context, g: GeneralConfig) -> bool {
    n == Context { config: Config { general: g, ..c.config }, ..c }
}

/// What a key does in the settings popup. While the default path is edited,
/// typing and Backspace edit it, Enter keeps it and Esc restores it.
/// Otherwise Esc closes the popup (asking for the settings to be saved),
/// Up/"k" and Down/"j" move between the four rows, Left and Right change the
/// layout on its row, and Space or Enter act on the focused row: next
/// layout, hidden files shown or not (both panels follow and are listed
/// again), preview on start or not, and (Enter only) editing the path.
pub open spec fn post_settings(c: Context, n: Context, key: KeyEvent, r: Effect) -> bool {
    match c.settings_state {
        None => n == Context { ui_state: UiState::Normal, ..c } && r is Nothing,
        Some(s) => if s.editing_path {
            r is Nothing && match key.code {
                KeyCode::Enter => n == Context {
                    config: Config {
                        general: GeneralConfig { default_path: s.path_input, ..c.config.general },
                        ..c.config
                    },
                    settings_state: Some(SettingsState { editing_path: false, ..s }),
                    ..c
                },
                KeyCode::Esc => settings_now(
                    c,
                    n,
                    SettingsState { path_input: c.config.general.default_path, editing_path: false, ..s },
                ),
                KeyCode::Backspace => n.settings_state matches Some(t) && t == SettingsState {
                    path_input: t.path_input,
                    ..s
                } && t.path_input@ == (if s.path_input@.len() > 0 {
                    s.path_input@.drop_last()
                } else {
                    s.path_input@
                }) && n == Context { settings_state: n.settings_state, ..c },
                KeyCode::Char(ch) => n.settings_state matches Some(t) && t == SettingsState {
                    path_input: t.path_input,
                    ..s
                } && t.path_input@ == s.path_input@.push(ch) && n == Context {
                    settings_state: n.settings_state,
                    ..c
                },
                _ => n == c,
            }
        } else {
            let g = c.config.general;
            let up = key.code == KeyCode::Up || key.code == KeyCode::Char('k');
            let down = key.code == KeyCode::Down || key.code == KeyCode::Char('j');
            let act = key.code == KeyCode::Char(' ') || key.code == KeyCode::Enter;
            if key.code == KeyCode::Esc {
                &&& r is SaveConfig
                &&& status_is(n, "Settings saved"@)
                &&& n == Context {
                    settings_state: None,
                    ui_state: UiState::Normal,
                    status_message: n.status_message,
                    ..c
                }
            } else {
                r is Nothing && if up {
                    settings_now(
                        c,
                        n,
                        SettingsState {
                            focused_field: if s.focused_field > 0 {
                                (s.focused_field - 1) as usize
                            } else {
                                s.focused_field
                            },
                            ..s
                        },
                    )
                } else if down {
                    settings_now(
                        c,
                        n,
                        SettingsState {
                            focused_field: if s.focused_field + 1 < 4 {
                                (s.focused_field + 1) as usize
                            } else {
                                s.focused_field
                            },
                            ..s
                        },
                    )
                } else if key.code == KeyCode::Left || key.code == KeyCode::Right {
                    if s.focused_field == 0 {
                        general_now(
                            c,
                            n,
                            GeneralConfig {
                                panel_layout: if key.code == KeyCode::Right {
                                    g.panel_layout.spec_next()
                                } else {
                                    g.panel_layout.spec_prev()
                                },
                                ..g
                            },
                        )
                    } else {
                        n == c
                    }
                } else if act {
                    if s.focused_field == 0 {
                        general_now(c, n, GeneralConfig { panel_layout: g.panel_layout.spec_next(), ..g })
                    } else if s.focused_field == 1 {
                        let h = !g.show_hidden;
                        &&& n.panels[0] == PanelState {
                            show_hidden: h,
                            items_dirty: true,
                            ..c.panels[0]
                        }
                        &&& n.panels[1] == PanelState {
                            show_hidden: h,
                            items_dirty: true,
                            ..c.panels[1]
                        }
                        &&& n == Context {
                            panels: n.panels,
                            config: Config { general: GeneralConfig { show_hidden: h, ..g }, ..c.config },
                            ..c
                        }
                    } else if s.focused_field == 2 {
                        general_now(
                            c,
                            n,
                            GeneralConfig { show_preview_on_start: !g.show_preview_on_start, ..g },
                        )
                    } else if s.focused_field == 3 && key.code == KeyCode::Enter {
                        settings_now(c, n, SettingsState { editing_path: true, ..s })
                    } else {
                        n == c
                    }
                } else {
                    n == c
                }
            }
        },
    }
}

/// Handles a key in the settings popup.
pub fn handle_settings_event(context: &mut Context, key_event: KeyEvent) -> (r: Effect)
    ensures
        post_settings(*old(context), *final(context), key_event, r),
{
    let (editing, focused) = match &context.settings_state {
        Some(s) => (s.editing_path, s.focused_field),
        None => {
            context.set_ui_state(UiState::Normal);
            return Effect::Nothing;
        },
    };
    if editing {
        match key_event.code {
            KeyCode::Enter => {
                let path = match &context.settings_state {
                    Some(s) => s.path_input.clone(),
                    None => String::new(),
                };
                context.config.general.default_path = path;
                match &mut context.settings_state {
                    Some(s) => {
                        s.editing_path = false;
                    },
                    None => {},
                }
            },
            KeyCode::Esc => {
                let path = context.config.general.default_path.clone();
                match &mut context.settings_state {
                    Some(s) => {
                        s.path_input = path;
                        s.editing_path = false;
                    },
                    None => {},
                }
            },
            KeyCode::Backspace => {
                match &mut context.settings_state {
                    Some(s) => {
                        pop_char(&mut s.path_input);
                    },
                    None => {},
                }
            },
            KeyCode::Char(ch) => {
                match &mut context.settings_state {
                    Some(s) => {
                        push_char(&mut s.path_input, ch);
                    },
                    None => {},
                }
            },
            _ => {},
        }
        return Effect::Nothing;
    }
    let code = key_event.code;
    if code == KeyCode::Esc {
        context.settings_state = None;
        context.set_ui_state(UiState::Normal);
        context.set_status_message("Settings saved");
        return Effect::SaveConfig;
    }
    if code == KeyCode::Up || code == KeyCode::Char('k') {
        if focused > 0 {
            match &mut context.settings_state {
                Some(s) => {
                    s.focused_field = focused - 1;
                },
                None => {},
            }
        }
    } else if code == KeyCode::Down || code == KeyCode::Char('j') {
        if focused < 3 {
            match &mut context.settings_state {
                Some(s) => {
                    s.focused_field = focused + 1;
                },
                None => {},
            }
        }
    } else if code == KeyCode::Left || code == KeyCode::Right {
        if focused == 0 {
            context.config.general.panel_layout = if code == KeyCode::Right {
                context.config.general.panel_layout.next()
            } else {
                context.config.general.panel_layout.prev()
            };
        }
    } else if code == KeyCode::Char(' ') || code == KeyCode::Enter {
        if focused == 0 {
            context.config.general.panel_layout = context.config.general.panel_layout.next();
        } else if focused == 1 {
            let new_val = !context.config.general.show_hidden;
            context.config.general.show_hidden = new_val;
            context.panels[0].show_hidden = new_val;
            context.panels[1].show_hidden = new_val;
            context.panels[0].invalidate_directory_cache();
            context.panels[1].invalidate_directory_cache();
        } else if focused == 2 {
            context.config.general.show_preview_on_start = !context.config.general.show_preview_on_start;
        } else if focused == 3 {
            if code == KeyCode::Enter {
                match &mut context.settings_state {
                    Some(s) => {
                        s.editing_path = true;
                    },
                    None => {},
                }
            }
        }
    }
    Effect::Nothing
}

} // verus!
