use refactor_view::aggregate::FileMatches;
use refactor_view::view::{RefactorView, GUTTER_WIDTH};

fn view() -> RefactorView {
    RefactorView::new(vec![
        FileMatches {
            path: "src/a.rs".to_string(),
            entries: vec![(0, "foo".to_string()), (120, "bar".to_string())],
        },
        FileMatches { path: "b.txt".to_string(), entries: vec![(7, "baz".to_string())] },
    ])
}

#[test]
fn row_labels_name_path_and_line() {
    let v = view();
    assert_eq!(v.row_label(0), "src/a.rs:0");
    assert_eq!(v.row_label(1), "src/a.rs:120");
    assert_eq!(v.row_label(2), "b.txt:7");
}

#[test]
fn gutter_labels_follow_scroll_offset() {
    let v = view();
    assert_eq!(v.gutter_labels(0, 10), vec!["src/a.rs:0", "src/a.rs:120", "b.txt:7"]);
    assert_eq!(v.gutter_labels(1, 1), vec!["src/a.rs:120"]);
    assert_eq!(v.gutter_labels(2, 5), vec!["b.txt:7"]);
    assert!(v.gutter_labels(3, 5).is_empty());
    assert!(v.gutter_labels(0, 0).is_empty());
    assert_eq!(GUTTER_WIDTH, 15);
}
