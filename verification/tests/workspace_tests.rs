use notepad::workspace::Workspace;

fn ids(w: &Workspace) -> Vec<usize> {
    (0..w.len()).map(|i| w.document(i).unwrap().id()).collect()
}

#[test]
fn new_workspace_has_one_untitled_document() {
    let w = Workspace::new();
    assert_eq!(w.len(), 1);
    assert_eq!(w.active_tab(), 0);
    assert_eq!(w.active_document().display_name(), "Untitled 1");
    assert_eq!(w.active_document().id(), 1);
}

#[test]
fn new_tab_appends_and_activates() {
    let mut w = Workspace::new();
    w.new_tab();
    assert_eq!(w.len(), 2);
    assert_eq!(w.active_tab(), 1);
    assert_eq!(w.active_document().display_name(), "Untitled 2");
    assert_eq!(w.active_document().id(), 2);
}

#[test]
fn create_untitled_document_moves_counters() {
    let mut w = Workspace::new();
    let d = w.create_untitled_document();
    assert_eq!(d.display_name(), "Untitled 2");
    assert_eq!(d.id(), 2);
    w.new_tab();
    assert_eq!(w.active_document().display_name(), "Untitled 3");
    assert_eq!(w.active_document().id(), 3);
}

#[test]
fn closing_another_tab_keeps_active_document() {
    let mut w = Workspace::new();
    w.new_tab();
    w.new_tab();
    w.set_active_tab(2);
    w.close_tab(0);
    assert_eq!(w.len(), 2);
    assert_eq!(w.active_tab(), 1);
    assert_eq!(w.active_document().id(), 3);
    w.close_tab(1);
    assert_eq!(w.active_document().id(), 2);
}

#[test]
fn closing_active_tab_moves_to_neighbour() {
    let mut w = Workspace::new();
    w.new_tab();
    w.new_tab();
    w.set_active_tab(1);
    w.close_tab(1);
    assert_eq!(ids(&w), vec![1, 3]);
    assert_eq!(w.active_document().id(), 3);
    w.close_tab(1);
    assert_eq!(ids(&w), vec![1]);
    assert_eq!(w.active_document().id(), 1);
}

#[test]
fn closing_only_tab_leaves_fresh_untitled() {
    let mut w = Workspace::new();
    w.close_tab(0);
    assert_eq!(w.len(), 1);
    assert_eq!(w.active_tab(), 0);
    assert_eq!(w.active_document().display_name(), "Untitled 2");
    assert_eq!(w.active_document().id(), 2);
}

#[test]
fn closing_past_last_tab_changes_nothing() {
    let mut w = Workspace::new();
    w.new_tab();
    w.close_tab(5);
    assert_eq!(ids(&w), vec![1, 2]);
    assert_eq!(w.active_tab(), 1);
}

#[test]
fn closing_new_tab_restores_documents() {
    let mut w = Workspace::new();
    w.new_tab();
    let before = ids(&w);
    w.new_tab();
    w.close_tab(2);
    assert_eq!(ids(&w), before);
}

#[test]
fn set_active_tab_ignores_missing_tabs() {
    let mut w = Workspace::new();
    w.new_tab();
    w.set_active_tab(0);
    assert_eq!(w.active_tab(), 0);
    w.set_active_tab(9);
    assert_eq!(w.active_tab(), 0);
}

#[test]
fn opened_document_is_active_and_found() {
    let mut w = Workspace::new();
    w.open_document("/notes/a.txt".to_string(), "alpha".to_string());
    assert_eq!(w.len(), 2);
    assert_eq!(w.active_tab(), 1);
    assert_eq!(w.active_document().content(), "alpha");
    assert_eq!(w.active_document().display_name(), "a.txt");
    assert_eq!(w.active_document().id(), 2);
    assert_eq!(w.find_document_by_path("/notes/a.txt"), Some(1));
    assert_eq!(w.find_document_by_path("/notes//a.txt"), Some(1));
    assert_eq!(w.find_document_by_path("/notes/b.txt"), None);
}

#[test]
fn document_lookup_by_index() {
    let mut w = Workspace::new();
    assert!(w.document(0).is_some());
    assert!(w.document(1).is_none());
    w.document_mut(0).unwrap().mark_as_modified();
    assert!(w.document(0).unwrap().is_modified());
    assert!(w.document_mut(3).is_none());
}

#[test]
fn modified_documents_are_noticed() {
    let mut w = Workspace::new();
    w.new_tab();
    assert!(!w.has_modified_documents());
    w.active_document_mut().content_mut().push_str("x");
    w.active_document_mut().mark_as_modified();
    assert!(w.has_modified_documents());
    assert_eq!(w.active_document().content(), "x");
}

#[test]
fn absolute_paths_match_only_themselves() {
    let mut w = Workspace::new();
    w.open_document("/tmp/a.txt".to_string(), "x".to_string());
    assert_eq!(w.find_document_by_path("/tmp/a.txt"), Some(1));
    assert_eq!(w.find_document_by_path("/tmp/b.txt"), None);
    assert_eq!(w.find_document_by_path("tmp/a.txt"), None);
}
