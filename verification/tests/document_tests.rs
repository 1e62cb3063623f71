use notepad::document::{display_name_from, Document};

#[test]
fn new_document_is_untitled_note() {
    let d = Document::new();
    assert_eq!(d.id(), 1);
    assert_eq!(d.display_name(), "Untitlted Note");
    assert_eq!(d.content(), "");
    assert!(!d.is_modified());
    assert_eq!(d.path(), None);
}

#[test]
fn default_document_equals_new_document() {
    let d = Document::default();
    assert_eq!(d.id(), 1);
    assert_eq!(d.display_name(), "Untitlted Note");
}

#[test]
fn untitled_document_is_numbered() {
    let d = Document::new_untitled(3, 7);
    assert_eq!(d.id(), 7);
    assert_eq!(d.display_name(), "Untitled 3");
    assert_eq!(d.content(), "");
    assert_eq!(d.path(), None);
    assert!(!d.is_modified());
    let big = Document::new_untitled(1204, 1);
    assert_eq!(big.display_name(), "Untitled 1204");
    let zero = Document::new_untitled(0, 1);
    assert_eq!(zero.display_name(), "Untitled 0");
}

#[test]
fn file_document_shows_file_name() {
    let d = Document::from_file("notes.txt".to_string(), "hello".to_string(), 5);
    assert_eq!(d.id(), 5);
    assert_eq!(d.display_name(), "notes.txt");
    assert_eq!(d.path(), Some("notes.txt"));
    assert_eq!(d.content(), "hello");
    assert!(!d.is_modified());
}

#[test]
fn nested_path_shows_last_component() {
    let d = Document::from_file("/home/user/todo.txt".to_string(), String::new(), 2);
    assert_eq!(d.display_name(), "todo.txt");
}

#[test]
fn path_without_file_name_shows_title() {
    let d = Document::from_file("/tmp/..".to_string(), String::new(), 2);
    assert_eq!(d.display_name(), "");
}

#[test]
fn modified_and_saved_marks() {
    let mut d = Document::new_untitled(1, 1);
    d.mark_as_modified();
    assert!(d.is_modified());
    d.mark_as_saved();
    assert!(!d.is_modified());
}

#[test]
fn set_path_changes_display_name() {
    let mut d = Document::new_untitled(1, 1);
    d.set_path("/notes/a.txt".to_string());
    assert_eq!(d.path(), Some("/notes/a.txt"));
    assert_eq!(d.display_name(), "a.txt");
}

#[test]
fn content_mut_edits_in_place() {
    let mut d = Document::new_untitled(1, 1);
    d.content_mut().push_str("abc");
    assert_eq!(d.content(), "abc");
    assert_eq!(d.id(), 1);
}

#[test]
fn display_name_prefers_file_name() {
    assert_eq!(display_name_from(Some("x.txt"), "Untitled 1"), "x.txt");
    assert_eq!(display_name_from(None, "Untitled 1"), "Untitled 1");
}

#[test]
fn file_dialog_path_shows_its_last_name() {
    let mut d = Document::new_untitled(1, 1);
    d.set_path("/home/u/notes.txt".to_string());
    assert_eq!(d.display_name(), "notes.txt");
    let r = Document::from_file("tmp/foo.txt".to_string(), String::new(), 3);
    assert_eq!(r.display_name(), "foo.txt");
}
