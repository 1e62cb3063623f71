use notepad::app::{
    shortcut_priority, DialogResult, DialogStep, FileCommand, NotepadApp, PendingAction, SavePlan,
    Shortcut,
};
use notepad::search::TextRange;

fn app_with_text(text: &str) -> NotepadApp {
    let mut app = NotepadApp::new();
    app.active_content_mut().push_str(text);
    app
}

fn select(app: &mut NotepadApp, a: usize, b: usize) {
    let id = app.workspace().active_document().id();
    app.set_editor_selection(Some((id, TextRange::new(a, b))));
}

#[test]
fn new_app_defaults() {
    let app = NotepadApp::new();
    assert_eq!(app.workspace().len(), 1);
    assert_eq!(app.zoom_percentage(), 100);
    assert!(app.word_wrap());
    assert!(app.status_bar_visible());
    assert_eq!(app.cursor_position(), (1, 1));
    assert_eq!(app.pending_action(), None);
    assert!(!app.exit_allowed());
    assert!(!app.find_bar_visible());
    assert!(app.wrap_around());
    assert_eq!(app.not_found_message(), None);
}

#[test]
fn find_bar_open_and_close() {
    let mut app = NotepadApp::new();
    app.open_find();
    assert!(app.find_bar_visible());
    assert!(app.take_focus_request());
    assert!(!app.take_focus_request());
    app.close_find();
    assert!(!app.find_bar_visible());
}

#[test]
fn find_next_selects_following_match() {
    let mut app = app_with_text("abc abc abc");
    app.search_query_mut().push_str("abc");
    assert!(app.find_next());
    let id = app.workspace().active_document().id();
    assert_eq!(app.take_pending_selection(), Some((id, TextRange { start: 0, end: 3 })));
    select(&mut app, 0, 3);
    assert!(app.find_next());
    assert_eq!(app.take_pending_selection(), Some((id, TextRange { start: 4, end: 7 })));
    assert_eq!(app.take_pending_selection(), None);
}

#[test]
fn find_next_wraps_around_or_reports() {
    let mut app = app_with_text("abc abc");
    app.search_query_mut().push_str("abc");
    select(&mut app, 4, 7);
    assert!(app.find_next());
    let id = app.workspace().active_document().id();
    assert_eq!(app.take_pending_selection(), Some((id, TextRange { start: 0, end: 3 })));
    app.set_wrap_around(false);
    assert!(!app.find_next());
    assert_eq!(app.not_found_message(), Some("No more results"));
    app.set_wrap_around(true);
    assert_eq!(app.not_found_message(), None);
}

#[test]
fn find_with_no_match_says_no_results() {
    let mut app = app_with_text("hello");
    app.search_query_mut().push_str("zzz");
    assert!(!app.find_next());
    assert_eq!(app.not_found_message(), Some("No results found"));
    app.query_edited();
    assert_eq!(app.not_found_message(), None);
}

#[test]
fn find_with_empty_query_does_nothing() {
    let mut app = app_with_text("hello");
    assert!(!app.find_next());
    assert!(!app.find_previous());
    assert_eq!(app.take_pending_selection(), None);
    assert_eq!(app.not_found_message(), None);
}

#[test]
fn find_previous_selects_preceding_match() {
    let mut app = app_with_text("ab ab ab");
    app.search_query_mut().push_str("ab");
    let id = app.workspace().active_document().id();
    assert!(app.find_previous());
    assert_eq!(app.take_pending_selection(), Some((id, TextRange { start: 6, end: 8 })));
    select(&mut app, 3, 5);
    assert!(app.find_previous());
    assert_eq!(app.take_pending_selection(), Some((id, TextRange { start: 0, end: 2 })));
    select(&mut app, 0, 2);
    assert!(app.find_previous());
    assert_eq!(app.take_pending_selection(), Some((id, TextRange { start: 6, end: 8 })));
}

#[test]
fn find_bar_buttons_priority() {
    let mut app = app_with_text("x");
    app.open_find();
    app.search_query_mut().push_str("x");
    assert!(app.handle_find_bar(false, false, true));
    assert!(!app.handle_find_bar(true, true, true));
    assert!(!app.find_bar_visible());
    assert_eq!(app.take_pending_selection(), None);
}

#[test]
fn pending_selection_of_another_document_is_dropped() {
    let mut app = app_with_text("needle");
    app.search_query_mut().push_str("needle");
    assert!(app.find_next());
    app.request_new_document();
    assert_eq!(app.take_pending_selection(), None);
}

#[test]
fn deferred_selection_waits_again() {
    let mut app = NotepadApp::new();
    let id = app.workspace().active_document().id();
    app.defer_pending_selection(id, TextRange::new(0, 0));
    assert_eq!(app.take_pending_selection(), Some((id, TextRange { start: 0, end: 0 })));
}

#[test]
fn editor_output_updates_cursor_and_selection() {
    let mut app = app_with_text("ab\ncd");
    app.record_editor_output(true, Some((1, 4)));
    assert_eq!(app.cursor_position(), (2, 2));
    assert!(app.workspace().active_document().is_modified());
    assert!(app.active_editor_has_selection());
    app.record_editor_output(false, Some((2, 2)));
    assert_eq!(app.cursor_position(), (1, 3));
    assert!(!app.active_editor_has_selection());
    app.record_editor_output(false, None);
    assert_eq!(app.cursor_position(), (1, 3));
}

#[test]
fn copy_selection_reads_selected_text() {
    let mut app = app_with_text("héllo world");
    assert_eq!(app.copy_selection(), None);
    select(&mut app, 5, 1);
    assert_eq!(app.copy_selection(), Some("éllo".to_string()));
}

#[test]
fn delete_selection_removes_text() {
    let mut app = app_with_text("hello world");
    select(&mut app, 5, 11);
    assert_eq!(app.delete_selection(), Some(5));
    assert_eq!(app.workspace().active_document().content(), "hello");
    assert!(app.workspace().active_document().is_modified());
    assert!(!app.active_editor_has_selection());
    assert_eq!(app.delete_selection(), None);
}

#[test]
fn cut_selection_copies_and_removes() {
    let mut app = app_with_text("one two three");
    select(&mut app, 4, 8);
    assert_eq!(app.cut_selection(), Some(("two ".to_string(), 4)));
    assert_eq!(app.workspace().active_document().content(), "one three");
    assert_eq!(app.cut_selection(), None);
}

#[test]
fn empty_or_foreign_selection_is_ignored() {
    let mut app = app_with_text("abc");
    select(&mut app, 1, 1);
    assert!(!app.active_editor_has_selection());
    assert_eq!(app.delete_selection(), None);
    select(&mut app, 0, 2);
    app.request_new_document();
    assert!(!app.active_editor_has_selection());
    assert_eq!(app.copy_selection(), None);
}

#[test]
fn paste_request_is_spent_once() {
    let mut app = NotepadApp::new();
    assert_eq!(app.process_pending_editor_actions(), None);
    app.request_paste();
    assert_eq!(app.process_pending_editor_actions(), Some(1));
    assert_eq!(app.process_pending_editor_actions(), None);
}

#[test]
fn undo_state_restores_content() {
    let mut app = app_with_text("new text");
    app.restore_active_content("old".to_string());
    assert_eq!(app.workspace().active_document().content(), "old");
    assert!(app.workspace().active_document().is_modified());
}

#[test]
fn closing_unmodified_tab_closes_it() {
    let mut app = NotepadApp::new();
    app.request_new_document();
    app.request_close_tab(1);
    assert_eq!(app.workspace().len(), 1);
    assert_eq!(app.pending_action(), None);
}

#[test]
fn closing_modified_tab_waits_for_dialog() {
    let mut app = NotepadApp::new();
    app.record_editor_output(true, None);
    app.request_close_tab(0);
    assert_eq!(app.pending_action(), Some(PendingAction::CloseTab(0)));
    assert_eq!(app.workspace().len(), 1);
    assert_eq!(app.workspace().active_document().id(), 1);
    assert_eq!(app.unsaved_changes_message(), Some("Do you want to save your changes?"));
}

#[test]
fn dialog_dont_save_closes_tab() {
    let mut app = NotepadApp::new();
    app.request_new_document();
    app.record_editor_output(true, None);
    app.request_close_tab(1);
    assert_eq!(app.resolve_unsaved_changes_dialog(None), DialogStep::Wait);
    assert_eq!(
        app.resolve_unsaved_changes_dialog(Some(DialogResult::Secondary)),
        DialogStep::Done { close_window: false }
    );
    assert_eq!(app.workspace().len(), 1);
    assert_eq!(app.pending_action(), None);
}

#[test]
fn dialog_cancel_keeps_everything() {
    let mut app = NotepadApp::new();
    app.record_editor_output(true, None);
    app.request_close_tab(0);
    assert_eq!(
        app.resolve_unsaved_changes_dialog(Some(DialogResult::Cancel)),
        DialogStep::Done { close_window: false }
    );
    assert_eq!(app.pending_action(), None);
    assert!(app.workspace().active_document().is_modified());
}

#[test]
fn dialog_save_then_close() {
    let mut app = NotepadApp::new();
    app.request_new_document();
    app.record_editor_output(true, None);
    app.request_close_tab(1);
    assert_eq!(
        app.resolve_unsaved_changes_dialog(Some(DialogResult::Primary)),
        DialogStep::SaveDocument(1)
    );
    assert!(app.document_saved(1, "/tmp/u2.txt".to_string()));
    assert!(!app.finish_dialog_save(true));
    assert_eq!(app.workspace().len(), 1);
}

#[test]
fn dialog_failed_save_keeps_tab() {
    let mut app = NotepadApp::new();
    app.record_editor_output(true, None);
    app.request_close_tab(0);
    assert!(!app.finish_dialog_save(false));
    assert_eq!(app.pending_action(), None);
    assert_eq!(app.workspace().active_document().id(), 1);
}

#[test]
fn exit_with_unsaved_changes_asks_first() {
    let mut app = NotepadApp::new();
    assert!(app.request_exit());
    app.record_editor_output(true, None);
    assert!(!app.request_exit());
    assert_eq!(app.pending_action(), Some(PendingAction::Exit));
    assert_eq!(
        app.unsaved_changes_message(),
        Some("Do you want to save all unsaved changes before exiting?")
    );
    assert_eq!(app.resolve_unsaved_changes_dialog(Some(DialogResult::Primary)), DialogStep::SaveAll);
    assert_eq!(
        app.resolve_unsaved_changes_dialog(Some(DialogResult::Secondary)),
        DialogStep::Done { close_window: true }
    );
    assert!(app.exit_allowed());
    assert!(!app.handle_close_request(true));
}

#[test]
fn window_close_request_is_cancelled_when_unsaved() {
    let mut app = NotepadApp::new();
    assert!(!app.handle_close_request(true));
    app.record_editor_output(true, None);
    assert!(!app.handle_close_request(false));
    assert!(app.handle_close_request(true));
    assert_eq!(app.pending_action(), Some(PendingAction::Exit));
    assert!(app.execute_pending_action());
    assert!(app.exit_allowed());
    assert!(!app.execute_pending_action());
}

#[test]
fn zoom_stays_between_bounds() {
    let mut app = NotepadApp::new();
    app.zoom_in();
    assert_eq!(app.zoom_percentage(), 110);
    app.zoom_out();
    assert_eq!(app.zoom_percentage(), 100);
    for _ in 0..100 {
        app.zoom_in();
    }
    assert_eq!(app.zoom_percentage(), 500);
    for _ in 0..100 {
        app.zoom_out();
    }
    assert_eq!(app.zoom_percentage(), 10);
    app.reset_zoom();
    assert_eq!(app.zoom_percentage(), 100);
}

#[test]
fn view_switches() {
    let mut app = NotepadApp::new();
    app.set_word_wrap(false);
    assert!(!app.word_wrap());
    app.set_status_bar_visible(false);
    assert!(!app.status_bar_visible());
}

#[test]
fn titles_mark_unsaved_documents() {
    let mut app = NotepadApp::new();
    assert_eq!(app.window_title(), "Untitled 1 - Notepad");
    assert_eq!(app.tab_title(0), Some("Untitled 1".to_string()));
    app.record_editor_output(true, None);
    assert_eq!(app.window_title(), "Untitled 1* - Notepad");
    assert_eq!(app.tab_title(0), Some("Untitled 1 *".to_string()));
    assert_eq!(app.tab_title(1), None);
}

#[test]
fn opening_a_file_twice_reuses_its_tab() {
    let mut app = NotepadApp::new();
    assert!(!app.focus_open_document("/n/a.txt"));
    app.open_document_from_file("/n/a.txt".to_string(), "alpha".to_string());
    app.request_new_document();
    assert_eq!(app.workspace().active_tab(), 2);
    assert!(app.focus_open_document("/n/a.txt"));
    assert_eq!(app.workspace().active_tab(), 1);
    assert_eq!(app.window_title(), "a.txt - Notepad");
}

#[test]
fn save_plans() {
    let mut app = NotepadApp::new();
    app.open_document_from_file("/n/a.txt".to_string(), String::new());
    assert!(matches!(app.save_plan(0), SavePlan::AskPath(ref n) if n == "Untitled 1"));
    assert!(matches!(app.save_plan(1), SavePlan::WriteTo(ref p) if p == "/n/a.txt"));
    assert!(matches!(app.save_plan(2), SavePlan::NoDocument));
    assert_eq!(app.save_as_name(1), Some("a.txt".to_string()));
    assert_eq!(app.save_as_name(0), Some("Untitled 1".to_string()));
    assert_eq!(app.save_as_name(5), None);
}

#[test]
fn saving_records_path_and_clears_modified() {
    let mut app = NotepadApp::new();
    app.record_editor_output(true, None);
    assert!(app.document_is_modified(0));
    assert!(app.document_saved(0, "/n/b.txt".to_string()));
    assert!(!app.document_is_modified(0));
    assert_eq!(app.workspace().active_document().path(), Some("/n/b.txt"));
    assert_eq!(app.window_title(), "b.txt - Notepad");
    assert!(!app.document_saved(3, "/n/c.txt".to_string()));
    assert!(!app.document_is_modified(3));
}

#[test]
fn tab_bar_clicks() {
    let mut app = NotepadApp::new();
    app.apply_tab_requests(None, None, true);
    assert_eq!(app.workspace().len(), 2);
    app.apply_tab_requests(None, Some(0), false);
    assert_eq!(app.workspace().active_tab(), 0);
    app.apply_tab_requests(Some(1), Some(1), false);
    assert_eq!(app.workspace().len(), 1);
    assert_eq!(app.workspace().active_tab(), 0);
}

#[test]
fn shortcuts_act_in_priority_order() {
    assert_eq!(
        shortcut_priority(),
        vec![
            Shortcut::SaveAs,
            Shortcut::Find,
            Shortcut::Save,
            Shortcut::NewDocument,
            Shortcut::Open,
            Shortcut::CloseTab
        ]
    );
    let mut app = NotepadApp::new();
    assert_eq!(app.apply_shortcut(Shortcut::NewDocument), FileCommand::Nothing);
    assert_eq!(app.workspace().len(), 2);
    assert_eq!(app.apply_shortcut(Shortcut::Save), FileCommand::Save(1));
    assert_eq!(app.apply_shortcut(Shortcut::SaveAs), FileCommand::SaveAs(1));
    assert_eq!(app.apply_shortcut(Shortcut::Open), FileCommand::Open);
    assert_eq!(app.apply_shortcut(Shortcut::Find), FileCommand::Nothing);
    assert!(app.find_bar_visible());
    assert_eq!(app.apply_shortcut(Shortcut::CloseTab), FileCommand::Nothing);
    assert_eq!(app.workspace().len(), 1);
}

#[test]
fn find_bar_previous_and_next_buttons() {
    let mut app = app_with_text("ab ab ab");
    app.open_find();
    app.search_query_mut().push_str("ab");
    let id = app.workspace().active_document().id();
    select(&mut app, 3, 5);
    assert!(app.handle_find_bar(false, true, true));
    assert_eq!(app.take_pending_selection(), Some((id, TextRange { start: 0, end: 2 })));
    assert!(app.handle_find_bar(false, false, true));
    assert_eq!(app.take_pending_selection(), Some((id, TextRange { start: 6, end: 8 })));
    assert!(!app.handle_find_bar(false, false, false));
    assert_eq!(app.take_pending_selection(), None);
}

#[test]
fn save_all_visits_modified_documents_in_order() {
    let mut app = NotepadApp::new();
    app.request_new_document();
    app.request_new_document();
    assert_eq!(app.next_document_to_save(0), None);
    app.record_editor_output(true, None);
    app.apply_tab_requests(None, Some(0), false);
    app.record_editor_output(true, None);
    assert_eq!(app.next_document_to_save(0), Some(0));
    assert_eq!(app.next_document_to_save(1), Some(2));
    assert_eq!(app.next_document_to_save(3), None);
    assert_eq!(app.next_document_to_save(99), None);
}
