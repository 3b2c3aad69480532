use vocofo::backend::{remote_file_name, remote_join_path, remote_parent_path, BackendRef};
use vocofo::config::PanelLayout;
use vocofo::context::{PanelState, UiState};
use vocofo::event_handler::connect::{handle_bookmark_list_event, handle_bookmark_name_event, handle_connect_dialog_event};
use vocofo::keys::{KeyCode, KeyEvent, KeyModifiers};

fn panel_with(items: &[&str]) -> PanelState {
    let mut p = PanelState::new("/p".to_string(), BackendRef::local(0));
    p.items = items.iter().map(|s| s.to_string()).collect();
    p.clear_filter();
    p
}

#[test]
fn test_toggle_selection_twice_restores() {
    let mut p = panel_with(&["../", "a/", "b"]);
    p.state = 2;
    p.toggle_selection();
    assert_eq!(p.selected, vec!["b".to_string()]);
    p.toggle_selection();
    assert!(p.selected.is_empty());
}

#[test]
fn test_layout_next_then_prev_restores() {
    for l in [PanelLayout::Auto, PanelLayout::Horizontal, PanelLayout::Vertical] {
        assert_eq!(l.next().prev(), l);
    }
}

#[test]
fn test_remote_join_undone_by_parent_and_file_name() {
    for (base, child) in [("/a", "b"), ("/a/b/c", "d.txt"), ("rel", "x")] {
        let j = remote_join_path(base, child);
        assert_eq!(remote_file_name(&j), child);
        assert_eq!(remote_parent_path(&j), Some(base.to_string()));
    }
}

#[test]
fn test_backtab_undoes_tab_in_dialog() {
    let fs_dialog = vocofo::context::ConnectDialogState::new();
    let mut ctx = vocofo::context::Context::with_config_at(vocofo::config::Config::default(), "/".to_string());
    ctx.connect_dialog = Some(fs_dialog);
    ctx.set_ui_state(UiState::ConnectDialog);
    for start in 0..6 {
        ctx.connect_dialog.as_mut().unwrap().focused_field = start;
        handle_connect_dialog_event(&mut ctx, KeyEvent::plain(KeyCode::Tab));
        handle_connect_dialog_event(&mut ctx, KeyEvent::new(KeyCode::BackTab, KeyModifiers::shift()));
        assert_eq!(ctx.connect_dialog.as_ref().unwrap().focused_field, start);
    }
}

#[test]
fn test_bookmark_saved_then_loaded_round_trip() {
    let mut ctx = vocofo::context::Context::with_config_at(vocofo::config::Config::default(), "/".to_string());
    let mut dialog = vocofo::context::ConnectDialogState::new();
    dialog.protocol = vocofo::backend::ConnectionProtocol::Ftp;
    dialog.host = "ftp.example.org".to_string();
    dialog.port = "2121".to_string();
    dialog.username = "anon".to_string();
    dialog.key_path = "/k".to_string();
    dialog.password = "pw".to_string();
    ctx.connect_dialog = Some(dialog);
    ctx.set_ui_state(UiState::BookmarkNameInput);
    ctx.input = "ftp".to_string();
    handle_bookmark_name_event(&mut ctx, KeyEvent::plain(KeyCode::Enter));
    ctx.connect_dialog = None;
    ctx.bookmark_selected = 0;
    ctx.set_ui_state(UiState::BookmarkList);
    handle_bookmark_list_event(&mut ctx, KeyEvent::plain(KeyCode::Enter));
    let d = ctx.connect_dialog.as_ref().unwrap();
    assert_eq!(d.protocol, vocofo::backend::ConnectionProtocol::Ftp);
    assert_eq!(d.host, "ftp.example.org");
    assert_eq!(d.port, "2121");
    assert_eq!(d.username, "anon");
    assert_eq!(d.key_path, "/k");
    assert_eq!(d.password, "");
}
