use refactor_view::aggregate::{collect_rows, find_row, join_rows, FileMatches, RowKey};
use refactor_view::reconcile::{build_changes, stage_edits, strip_line, FilePlan, PendingEdit};
use refactor_view::view::RefactorView;

fn file(path: &str, entries: &[(usize, &str)]) -> FileMatches {
    FileMatches {
        path: path.to_string(),
        entries: entries.iter().map(|(l, t)| (*l, t.to_string())).collect(),
    }
}

fn sample() -> Vec<FileMatches> {
    vec![
        file("a.txt", &[(0, "foo"), (2, "bar")]),
        file("b.txt", &[(1, "baz")]),
    ]
}

fn lines(rows: &[&str]) -> Vec<String> {
    rows.iter().map(|s| s.to_string()).collect()
}

fn line_starts(text: &str) -> Vec<usize> {
    let mut starts = vec![0];
    for (i, c) in text.chars().enumerate() {
        if c == '\n' {
            starts.push(i + 1);
        }
    }
    starts
}

fn apply(text: &str, start: usize, end: usize, new: &str) -> String {
    let chars: Vec<char> = text.chars().collect();
    let mut out: String = chars[..start].iter().collect();
    out.push_str(new);
    out.extend(chars[end..].iter());
    out
}

#[test]
fn scenario_two_files_one_edit() {
    let view = RefactorView::new(sample());
    assert_eq!(view.text, "foo\nbar\nbaz");
    assert_eq!(
        view.line_map,
        vec![
            RowKey { file: 0, line: 0 },
            RowKey { file: 0, line: 2 },
            RowKey { file: 1, line: 1 },
        ]
    );
    let edited = lines(&["foo\n", "qux\n", "baz"]);
    let plans = view.plan(&edited);
    assert_eq!(plans.len(), 1);
    assert_eq!(plans[0].file, 0);
    assert_eq!(plans[0].edits.len(), 1);
    assert_eq!(plans[0].edits[0].line, 2);
    assert_eq!(plans[0].edits[0].delete_len, 3);
    assert_eq!(plans[0].edits[0].new_text, "qux");

    let a_txt = "foo\nmiddle\nbar\nend\n";
    let (changes, documents, count) = view.apply_refactor(&edited, &vec![Some(line_starts(a_txt))]);
    assert_eq!((documents, count), (1, 1));
    assert_eq!(changes.len(), 1);
    assert_eq!(changes[0].file, 0);
    let r = &changes[0].ranges;
    assert_eq!(r.len(), 1);
    assert_eq!((r[0].start, r[0].end, r[0].text.as_str()), (11, 14, "qux"));
    let after = apply(a_txt, r[0].start, r[0].end, &r[0].text);
    assert_eq!(after, "foo\nmiddle\nqux\nend\n");
}

#[test]
fn empty_match_set_gives_empty_buffer() {
    let view = RefactorView::new(vec![]);
    assert_eq!(view.text, "");
    assert!(view.line_map.is_empty());
    let (changes, documents, count) = view.apply_refactor(&vec![], &vec![]);
    assert!(changes.is_empty());
    assert_eq!((documents, count), (0, 0));
}

#[test]
fn line_map_covers_every_row_once() {
    let files = vec![
        file("x.rs", &[(4, "a"), (9, "b"), (1, "c")]),
        file("y.rs", &[(0, "d")]),
        file("z.rs", &[]),
        file("w.rs", &[(7, "e"), (8, "f")]),
    ];
    let view = RefactorView::new(files);
    assert_eq!(view.line_map.len(), 6);
    for r in 0..view.line_map.len() {
        assert_eq!(find_row(&view.line_map, view.line_map[r]), Some(r));
    }
    assert_eq!(find_row(&view.line_map, RowKey { file: 2, line: 0 }), None);
}

#[test]
fn rows_read_back_original_text() {
    let (keys, rows) = collect_rows(&sample());
    assert_eq!(rows, lines(&["foo", "bar", "baz"]));
    let text = join_rows(&rows);
    let back: Vec<&str> = text.split('\n').collect();
    assert_eq!(back.len(), keys.len());
    for (r, k) in keys.iter().enumerate() {
        assert_eq!(find_row(&keys, *k), Some(r));
        assert_eq!(back[r], rows[r]);
    }
}

#[test]
fn unedited_commit_touches_nothing() {
    let view = RefactorView::new(sample());
    let unedited = lines(&["foo\n", "bar\n", "baz"]);
    assert!(view.plan(&unedited).is_empty());
    let (changes, documents, count) = view.apply_refactor(&unedited, &vec![]);
    assert!(changes.is_empty());
    assert_eq!((documents, count), (0, 0));
}

#[test]
fn edit_past_end_of_file_is_dropped() {
    let view = RefactorView::new(sample());
    let edited = lines(&["foo\n", "qux\n", "baz"]);
    // a.txt now has only two lines, so its line 2 is gone.
    let (changes, documents, count) = view.apply_refactor(&edited, &vec![Some(vec![0, 4])]);
    assert_eq!((documents, count), (1, 0));
    assert_eq!(changes.len(), 1);
    assert!(changes[0].ranges.is_empty());
}

#[test]
fn file_that_cannot_be_opened_is_skipped() {
    let view = RefactorView::new(sample());
    let edited = lines(&["FOO\n", "bar\n", "BAZ"]);
    let plans = view.plan(&edited);
    assert_eq!(plans.len(), 2);
    let (changes, documents, count) =
        view.apply_refactor(&edited, &vec![None, Some(vec![0, 4, 8])]);
    assert_eq!((documents, count), (1, 1));
    assert_eq!(changes[0].file, 1);
    assert_eq!(
        (changes[0].ranges[0].start, changes[0].ranges[0].end),
        (4, 7)
    );
    assert_eq!(changes[0].ranges[0].text, "BAZ");
}

#[test]
fn deleted_row_reads_as_empty() {
    let view = RefactorView::new(sample());
    let edited = lines(&["foo\n", "bar"]);
    let plans = view.plan(&edited);
    assert_eq!(plans.len(), 1);
    assert_eq!(plans[0].file, 1);
    assert_eq!(plans[0].edits[0].new_text, "");
    assert_eq!(plans[0].edits[0].delete_len, 3);
}

#[test]
fn several_edits_in_one_file_form_one_change() {
    let view = RefactorView::new(sample());
    let edited = lines(&["fo\n", "barre\n", "baz"]);
    let (changes, documents, count) =
        view.apply_refactor(&edited, &vec![Some(vec![0, 4, 8])]);
    assert_eq!((documents, count), (1, 2));
    let r = &changes[0].ranges;
    assert_eq!((r[0].start, r[0].end, r[0].text.as_str()), (0, 3, "fo"));
    assert_eq!((r[1].start, r[1].end, r[1].text.as_str()), (8, 11, "barre"));
}

#[test]
fn delete_length_counts_characters() {
    let files = vec![file("u.txt", &[(0, "héllo")])];
    let view = RefactorView::new(files);
    let plans = view.plan(&lines(&["hello"]));
    assert_eq!(plans[0].edits[0].delete_len, 5);
}

#[test]
fn strip_line_removes_one_terminator() {
    assert_eq!(strip_line(&"abc\n".to_string()), "abc");
    assert_eq!(strip_line(&"abc\n\n".to_string()), "abc\n");
    assert_eq!(strip_line(&"abc".to_string()), "abc");
    assert_eq!(strip_line(&"".to_string()), "");
}

#[test]
fn stage_edits_drops_lines_past_end_and_holds_end_offset() {
    let edits = vec![
        PendingEdit { line: 1, delete_len: 2, new_text: "x".to_string() },
        PendingEdit { line: 5, delete_len: 2, new_text: "y".to_string() },
        PendingEdit { line: 0, delete_len: 3, new_text: "z".to_string() },
    ];
    let ranges = stage_edits(&edits, &vec![usize::MAX - 1, usize::MAX - 1]);
    assert_eq!(ranges.len(), 2);
    assert_eq!((ranges[0].start, ranges[0].end), (usize::MAX - 1, usize::MAX));
    assert_eq!(ranges[1].text, "z");
}

#[test]
fn build_changes_counts_files_and_lines() {
    let plans = vec![
        FilePlan {
            file: 0,
            edits: vec![PendingEdit { line: 0, delete_len: 1, new_text: "a".to_string() }],
        },
        FilePlan {
            file: 3,
            edits: vec![
                PendingEdit { line: 0, delete_len: 1, new_text: "b".to_string() },
                PendingEdit { line: 1, delete_len: 1, new_text: "c".to_string() },
            ],
        },
    ];
    let (changes, documents, count) = build_changes(&plans, &vec![None, Some(vec![0, 2])]);
    assert_eq!((documents, count), (1, 2));
    assert_eq!(changes[0].file, 3);
    assert_eq!((changes[0].ranges[1].start, changes[0].ranges[1].end), (2, 3));
}
