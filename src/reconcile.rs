//! Detecting which buffer rows were edited and turning them into range
//! replacements on the real files, one atomic change per file.
use vstd::prelude::*;
use vstd::string::*;
use crate::aggregate::{
    FileMatches, RowKey, all_keys, all_texts, entry_key, find_row, law_line_map_bijective,
    law_rows_read_back, match_set_wf, row_of, line_at, line_count, line_start, replace_range,
    single_line, lemma_replace_line,
};

verus! {

/// An edit of one line of a real file: replace the first `delete_len`
/// characters of line `line` with `new_text`.
pub struct PendingEdit {
    pub line: usize,
    pub delete_len: usize,
    pub new_text: String,
}

/// The pending edits of one file, which is given by its index in the match set.
pub struct FilePlan {
    pub file: usize,
    pub edits: Vec<PendingEdit>,
}

/// A replacement of the characters `[start, end)` of a file by `text`.
pub struct RangeEdit {
    pub start: usize,
    pub end: usize,
    pub text: String,
}

/// The ranges to replace in one opened file, to be applied together.
pub struct FileChange {
    pub file: usize,
    pub ranges: Vec<RangeEdit>,
}

pub open spec fn edit_view(e: PendingEdit) -> (int, int, Seq<char>) {
    (e.line as int, e.delete_len as int, e.new_text@)
}

pub open spec fn edit_views(s: Seq<PendingEdit>) -> Seq<(int, int, Seq<char>)> {
    s.map_values(|e: PendingEdit| edit_view(e))
}

pub open spec fn plan_view(p: FilePlan) -> (int, Seq<(int, int, Seq<char>)>) {
    (p.file as int, edit_views(p.edits@))
}

pub open spec fn plan_views(s: Seq<FilePlan>) -> Seq<(int, Seq<(int, int, Seq<char>)>)> {
    s.map_values(|p: FilePlan| plan_view(p))
}

pub open spec fn range_view(e: RangeEdit) -> (int, int, Seq<char>) {
    (e.start as int, e.end as int, e.text@)
}

pub open spec fn range_views(s: Seq<RangeEdit>) -> Seq<(int, int, Seq<char>)> {
    s.map_values(|e: RangeEdit| range_view(e))
}

/// A line as the buffer reports it, without its trailing terminator.
pub open spec fn strip_terminator(s: Seq<char>) -> Seq<char> {
    if s.len() > 0 && s.last() == '\n' {
        s.drop_last()
    } else {
        s
    }
}

/// The current content of row `r` of the edited buffer, given as its lines:
/// empty when the row no longer exists.
pub open spec fn current_row(lines: Seq<Seq<char>>, r: int) -> Seq<char> {
    if 0 <= r < lines.len() {
        strip_terminator(lines[r])
    } else {
        seq![]
    }
}

/// The pending edits of file `i` from its first `j` entries: one for each
/// entry whose row now differs from the entry's original text.
pub open spec fn pending_upto(
    keys: Seq<RowKey>,
    lines: Seq<Seq<char>>,
    i: int,
    entries: Seq<(usize, String)>,
    j: int,
) -> Seq<(int, int, Seq<char>)>
    decreases j,
{
    if j <= 0 {
        seq![]
    } else {
        let prev = pending_upto(keys, lines, i, entries, j - 1);
        let e = entries[j - 1];
        match row_of(keys, RowKey { file: i as usize, line: e.0 }) {
            Some(r) => {
                let cur = current_row(lines, r);
                if cur != e.1@ {
                    prev.push((e.0 as int, e.1@.len() as int, cur))
                } else {
                    prev
                }
            },
            None => prev,
        }
    }
}

/// The pending edits of file `i`.
pub open spec fn pending_of_file(
    files: Seq<FileMatches>,
    keys: Seq<RowKey>,
    lines: Seq<Seq<char>>,
    i: int,
) -> Seq<(int, int, Seq<char>)> {
    pending_upto(keys, lines, i, files[i].entries@, files[i].entries@.len() as int)
}

/// The plans of the first `n` files: files with no pending edit are left out.
pub open spec fn plans_upto(
    files: Seq<FileMatches>,
    keys: Seq<RowKey>,
    lines: Seq<Seq<char>>,
    n: int,
) -> Seq<(int, Seq<(int, int, Seq<char>)>)>
    decreases n,
{
    if n <= 0 {
        seq![]
    } else {
        let p = pending_of_file(files, keys, lines, n - 1);
        if p.len() > 0 {
            plans_upto(files, keys, lines, n - 1).push((n - 1, p))
        } else {
            plans_upto(files, keys, lines, n - 1)
        }
    }
}

/// The plans of every file of the match set.
pub open spec fn all_plans(
    files: Seq<FileMatches>,
    keys: Seq<RowKey>,
    lines: Seq<Seq<char>>,
) -> Seq<(int, Seq<(int, int, Seq<char>)>)> {
    plans_upto(files, keys, lines, files.len() as int)
}

/// The ranges staged from the first `n` edits, given where each line of the
/// real file starts: edits of lines the file no longer has are dropped.
pub open spec fn staged_upto(edits: Seq<(int, int, Seq<char>)>, starts: Seq<usize>, n: int) -> Seq<
    (int, int, Seq<char>),
>
    decreases n,
{
    if n <= 0 {
        seq![]
    } else {
        let prev = staged_upto(edits, starts, n - 1);
        let e = edits[n - 1];
        if 0 <= e.0 < starts.len() {
            prev.push((starts[e.0] as int, range_end(starts[e.0] as int, e.1), e.2))
        } else {
            prev
        }
    }
}

pub open spec fn staged(edits: Seq<(int, int, Seq<char>)>, starts: Seq<usize>) -> Seq<
    (int, int, Seq<char>),
> {
    staged_upto(edits, starts, edits.len() as int)
}

/// The end of a range of `len` characters from `start`; an offset past the
/// largest `usize` cannot occur in a real file and is held at that value.
pub open spec fn range_end(start: int, len: int) -> int {
    if start + len > usize::MAX {
        usize::MAX as int
    } else {
        start + len
    }
}

/// The number of pending edits over all plans.
pub open spec fn edit_total(plans: Seq<(int, Seq<(int, int, Seq<char>)>)>) -> int
    decreases plans.len(),
{
    if plans.len() == 0 {
        0
    } else {
        edit_total(plans.drop_last()) + plans.last().1.len()
    }
}

/// The changes for the first `n` plans: one per plan whose file was opened
/// (`opened[k]` holds where each of its lines starts).
pub open spec fn changes_upto(
    plans: Seq<(int, Seq<(int, int, Seq<char>)>)>,
    opened: Seq<Option<Vec<usize>>>,
    n: int,
) -> Seq<(int, Seq<(int, int, Seq<char>)>)>
    decreases n,
{
    if n <= 0 {
        seq![]
    } else {
        match opened[n - 1] {
            Some(starts) => changes_upto(plans, opened, n - 1).push(
                (plans[n - 1].0, staged(plans[n - 1].1, starts@)),
            ),
            None => changes_upto(plans, opened, n - 1),
        }
    }
}

/// The number of ranges over all changes.
pub open spec fn range_total(changes: Seq<(int, Seq<(int, int, Seq<char>)>)>) -> int {
    edit_total(changes)
}

pub open spec fn change_views(s: Seq<FileChange>) -> Seq<(int, Seq<(int, int, Seq<char>)>)> {
    s.map_values(|c: FileChange| (c.file as int, range_views(c.ranges@)))
}

/// Strips one trailing line terminator from a line of the buffer.
pub fn strip_line(s: &String) -> (r: String)
    ensures
        r@ == strip_terminator(s@),
{
    let n = s.as_str().unicode_len();
    if n > 0 && s.as_str().get_char(n - 1) == '\n' {
        s.as_str().substring_char(0, n - 1).to_owned()
    } else {
        s.clone()
    }
}

/// The pending edits of one file, from the line map and the lines of the
/// edited buffer.
pub fn file_pending(
    keys: &Vec<RowKey>,
    lines: &Vec<String>,
    i: usize,
    entries: &Vec<(usize, String)>,
) -> (res: Vec<PendingEdit>)
    ensures
        edit_views(res@) == pending_upto(
            keys@,
            crate::aggregate::views(lines@),
            i as int,
            entries@,
            entries@.len() as int,
        ),
{
    let ghost lv = crate::aggregate::views(lines@);
    let mut res: Vec<PendingEdit> = Vec::new();
    let mut j: usize = 0;
    while j < entries.len()
        invariant
            j <= entries.len(),
            lv == crate::aggregate::views(lines@),
            edit_views(res@) == pending_upto(keys@, lv, i as int, entries@, j as int),
        decreases entries.len() - j,
    {
        let line = entries[j].0;
        let text = &entries[j].1;
        match find_row(keys, RowKey { file: i, line }) {
            Some(r) => {
                let cur = if r < lines.len() {
                    strip_line(&lines[r])
                } else {
                    String::new()
                };
                if !(cur == *text) {
                    let len = text.as_str().unicode_len();
                    let ghost before = res@;
                    res.push(PendingEdit { line, delete_len: len, new_text: cur });
                    proof {
                        assert(edit_views(res@) == edit_views(before).push(
                            edit_view(res@.last()),
                        ));
                    }
                }
            },
            None => {},
        }
        j = j + 1;
    }
    res
}

/// The plans of every file that has pending edits, in match-set order.
pub fn plan_edits(files: &Vec<FileMatches>, keys: &Vec<RowKey>, lines: &Vec<String>) -> (res: Vec<
    FilePlan,
>)
    ensures
        plan_views(res@) == all_plans(files@, keys@, crate::aggregate::views(lines@)),
{
    let ghost lv = crate::aggregate::views(lines@);
    let mut res: Vec<FilePlan> = Vec::new();
    let mut i: usize = 0;
    while i < files.len()
        invariant
            i <= files.len(),
            lv == crate::aggregate::views(lines@),
            plan_views(res@) == plans_upto(files@, keys@, lv, i as int),
        decreases files.len() - i,
    {
        let edits = file_pending(keys, lines, i, &files[i].entries);
        if edits.len() > 0 {
            let ghost before = res@;
            res.push(FilePlan { file: i, edits });
            proof {
                assert(plan_views(res@) == plan_views(before).push(plan_view(res@.last())));
            }
        }
        i = i + 1;
    }
    res
}

/// Stages the edits of one opened file as range replacements, given where
/// each of its current lines starts; edits of lines past its end are dropped.
pub fn stage_edits(edits: &Vec<PendingEdit>, line_starts: &Vec<usize>) -> (res: Vec<RangeEdit>)
    ensures
        range_views(res@) == staged(edit_views(edits@), line_starts@),
{
    let ghost ev = edit_views(edits@);
    let mut res: Vec<RangeEdit> = Vec::new();
    let mut k: usize = 0;
    while k < edits.len()
        invariant
            k <= edits.len(),
            ev == edit_views(edits@),
            range_views(res@) == staged_upto(ev, line_starts@, k as int),
        decreases edits.len() - k,
    {
        let e = &edits[k];
        if e.line < line_starts.len() {
            assert(ev[k as int].0 == e.line);
            let start = line_starts[e.line];
            let ghost before = res@;
            res.push(RangeEdit { start, end: start.saturating_add(e.delete_len), text: e.new_text.clone() });
            proof {
                assert(range_views(res@) == range_views(before).push(range_view(res@.last())));
            }
        }
        k = k + 1;
    }
    res
}

proof fn lemma_staged_len(edits: Seq<(int, int, Seq<char>)>, starts: Seq<usize>, n: int)
    requires
        0 <= n,
    ensures
        staged_upto(edits, starts, n).len() <= n,
    decreases n,
{
    if n > 0 {
        lemma_staged_len(edits, starts, n - 1);
    }
}

proof fn lemma_edit_total_mono(plans: Seq<(int, Seq<(int, int, Seq<char>)>)>, k: int, n: int)
    requires
        0 <= k <= n <= plans.len(),
    ensures
        0 <= edit_total(plans.take(k)) <= edit_total(plans.take(n)),
    decreases n,
{
    if n > 0 {
        assert(plans.take(n).drop_last() == plans.take(n - 1));
    }
    if k < n {
        lemma_edit_total_mono(plans, k, n - 1);
    } else if n > 0 {
        lemma_edit_total_mono(plans, n - 1, n - 1);
    }
}

proof fn lemma_changes_total(
    plans: Seq<(int, Seq<(int, int, Seq<char>)>)>,
    opened: Seq<Option<Vec<usize>>>,
    n: int,
)
    requires
        0 <= n <= plans.len(),
        n <= opened.len(),
    ensures
        range_total(changes_upto(plans, opened, n)) <= edit_total(plans.take(n)),
    decreases n,
{
    if n > 0 {
        lemma_changes_total(plans, opened, n - 1);
        assert(plans.take(n).drop_last() == plans.take(n - 1));
        match opened[n - 1] {
            Some(starts) => {
                let c = changes_upto(plans, opened, n);
                assert(c.drop_last() == changes_upto(plans, opened, n - 1));
                lemma_staged_len(plans[n - 1].1, starts@, plans[n - 1].1.len() as int);
            },
            None => {},
        }
    }
}

/// Stages the plans of every file that could be opened (`opened[k]` holds
/// where each line of the file of `plans[k]` starts, or nothing when that file
/// could not be opened). Returns the changes with the number of files touched
/// and of lines changed.
pub fn build_changes(plans: &Vec<FilePlan>, opened: &Vec<Option<Vec<usize>>>) -> (res: (
    Vec<FileChange>,
    usize,
    usize,
))
    requires
        opened.len() == plans.len(),
        edit_total(plan_views(plans@)) <= usize::MAX,
    ensures
        change_views(res.0@) == changes_upto(plan_views(plans@), opened@, plans.len() as int),
        res.1 == res.0.len(),
        res.2 == range_total(change_views(res.0@)),
{
    let ghost pv = plan_views(plans@);
    let mut changes: Vec<FileChange> = Vec::new();
    let mut documents: usize = 0;
    let mut count: usize = 0;
    let mut k: usize = 0;
    while k < plans.len()
        invariant
            k <= plans.len(),
            opened.len() == plans.len(),
            pv == plan_views(plans@),
            pv.len() == plans.len(),
            edit_total(pv) <= usize::MAX,
            change_views(changes@) == changes_upto(pv, opened@, k as int),
            documents == changes.len(),
            changes.len() <= k,
            count == range_total(change_views(changes@)),
        decreases plans.len() - k,
    {
        match &opened[k] {
            Some(starts) => {
                assert(opened@[k as int] is Some);
                let ranges = stage_edits(&plans[k].edits, starts);
                proof {
                    lemma_changes_total(pv, opened@, k + 1);
                    lemma_edit_total_mono(pv, k + 1, pv.len() as int);
                    assert(pv.take(pv.len() as int) == pv);
                    let c = changes_upto(pv, opened@, k + 1);
                    assert(c.drop_last() == changes_upto(pv, opened@, k as int));
                }
                let ghost before = changes@;
                changes.push(FileChange { file: plans[k].file, ranges });
                proof {
                    assert(change_views(changes@) == change_views(before).push(
                        (plans[k as int].file as int, range_views(changes@.last().ranges@)),
                    ));
                    assert(change_views(changes@).drop_last() == change_views(before));
                }
                documents = documents + 1;
                count = count + changes[changes.len() - 1].ranges.len();
            },
            None => {},
        }
        k = k + 1;
    }
    (changes, documents, count)
}

/// The rows of the edited buffer, given as its lines, hold exactly the
/// original texts, except row `skip` when `skip` is `Some`.
pub open spec fn rows_unedited_except(
    files: Seq<FileMatches>,
    lines: Seq<Seq<char>>,
    skip: Option<int>,
) -> bool {
    forall|r: int|
        0 <= r < all_texts(files).len() && skip != Some(r) ==> #[trigger] current_row(lines, r)
            == all_texts(files)[r]
}

/// The pending edit made by editing row `r0` of the buffer.
pub open spec fn edit_of_row(files: Seq<FileMatches>, lines: Seq<Seq<char>>, r0: int) -> (
    int,
    int,
    Seq<char>,
) {
    (all_keys(files)[r0].line as int, all_texts(files)[r0].len() as int, current_row(lines, r0))
}

proof fn lemma_file_pending(
    files: Seq<FileMatches>,
    lines: Seq<Seq<char>>,
    skip: Option<int>,
    i: int,
    j: int,
)
    requires
        files.len() <= usize::MAX,
        match_set_wf(files),
        rows_unedited_except(files, lines, skip),
        skip matches Some(r0) ==> 0 <= r0 < all_texts(files).len() && current_row(lines, r0)
            != all_texts(files)[r0],
        0 <= i < files.len(),
        0 <= j <= files[i].entries@.len(),
    ensures
        pending_upto(all_keys(files), lines, i, files[i].entries@, j) == (match skip {
            Some(r0) => if all_keys(files)[r0].file == i && exists|q: int|
                0 <= q < j && entry_key(files, i, q) == all_keys(files)[r0] {
                seq![edit_of_row(files, lines, r0)]
            } else {
                seq![]
            },
            None => seq![],
        }),
    decreases j,
{
    let keys = all_keys(files);
    let e = files[i].entries@;
    law_line_map_bijective(files);
    law_rows_read_back(files);
    lemma_upto_texts_len(files);
    if j > 0 {
        lemma_file_pending(files, lines, skip, i, j - 1);
        let k = entry_key(files, i, j - 1);
        assert(row_of(keys, k) is Some);
        let r = row_of(keys, k)->Some_0;
        assert(keys[r] == k);
        assert(all_texts(files)[r] == e[j - 1].1@);
        match skip {
            Some(r0) => {
                if r == r0 {
                    assert(keys[r0].file == i);
                    assert(row_of(keys, keys[r0]) == Some(r0));
                } else {
                    assert(current_row(lines, r) == all_texts(files)[r]);
                    if keys[r0].file == i as usize {
                        assert(k != keys[r0]);
                        if exists|q: int| 0 <= q < j && entry_key(files, i, q) == keys[r0] {
                            let q = choose|q: int| 0 <= q < j && entry_key(files, i, q) == keys[r0];
                            assert(q != j - 1);
                            assert(0 <= q < j - 1 && entry_key(files, i, q) == keys[r0]);
                        }
                    }
                }
            },
            None => {
                assert(current_row(lines, r) == all_texts(files)[r]);
            },
        }
    }
}

proof fn lemma_upto_texts_len(files: Seq<FileMatches>)
    ensures
        all_texts(files).len() == all_keys(files).len(),
{
    lemma_texts_len(files, files.len() as int);
}

proof fn lemma_texts_len(files: Seq<FileMatches>, n: int)
    ensures
        crate::aggregate::texts_upto(files, n).len() == crate::aggregate::keys_upto(files, n).len(),
    decreases n,
{
    if n > 0 {
        lemma_texts_len(files, n - 1);
    }
}

proof fn lemma_plans(files: Seq<FileMatches>, lines: Seq<Seq<char>>, skip: Option<int>, n: int)
    requires
        files.len() <= usize::MAX,
        match_set_wf(files),
        rows_unedited_except(files, lines, skip),
        skip matches Some(r0) ==> 0 <= r0 < all_texts(files).len() && current_row(lines, r0)
            != all_texts(files)[r0],
        0 <= n <= files.len(),
    ensures
        plans_upto(files, all_keys(files), lines, n) == (match skip {
            Some(r0) => if all_keys(files)[r0].file < n {
                seq![(all_keys(files)[r0].file as int, seq![edit_of_row(files, lines, r0)])]
            } else {
                seq![]
            },
            None => seq![],
        }),
    decreases n,
{
    if n > 0 {
        lemma_plans(files, lines, skip, n - 1);
        let i = n - 1;
        let e = files[i].entries@;
        lemma_file_pending(files, lines, skip, i, e.len() as int);
        match skip {
            Some(r0) => {
                law_line_map_bijective(files);
                lemma_upto_texts_len(files);
                let k = all_keys(files)[r0];
                let (fi, fj) = choose|fi: int, fj: int|
                    0 <= fi < files.len() && 0 <= fj < files[fi].entries@.len() && k
                        == entry_key(files, fi, fj);
                if k.file == i {
                    assert(fi == i);
                    assert(0 <= fj < e.len() && entry_key(files, i, fj) == k);
                }
            },
            None => {},
        }
    }
}

/// When no row of the buffer was edited, no file has a pending edit, so a
/// commit makes no change and reports no file and no line.
pub proof fn law_unedited_commit_is_empty(files: Seq<FileMatches>, lines: Seq<Seq<char>>)
    requires
        files.len() <= usize::MAX,
        match_set_wf(files),
        rows_unedited_except(files, lines, None),
    ensures
        all_plans(files, all_keys(files), lines) == Seq::<(int, Seq<(int, int, Seq<char>)>)>::empty(),
        changes_upto(all_plans(files, all_keys(files), lines), seq![], 0).len() == 0,
        range_total(changes_upto(all_plans(files, all_keys(files), lines), seq![], 0)) == 0,
{
    lemma_plans(files, lines, None, files.len() as int);
}

/// When exactly one row of the buffer was edited, the commit plans one edit
/// in one file: the file and line of that row's match, deleting the length of
/// its original text and inserting the row's new content. If that line still
/// exists in the file, the change replaces the original span at the start of
/// that line with the new text, and one file and one line are reported.
pub proof fn law_single_edit_commit(
    files: Seq<FileMatches>,
    lines: Seq<Seq<char>>,
    r0: int,
    starts: Vec<usize>,
)
    requires
        files.len() <= usize::MAX,
        match_set_wf(files),
        0 <= r0 < all_texts(files).len(),
        current_row(lines, r0) != all_texts(files)[r0],
        rows_unedited_except(files, lines, Some(r0)),
        all_keys(files)[r0].line < starts@.len(),
    ensures
        all_plans(files, all_keys(files), lines) == seq![
            (all_keys(files)[r0].file as int, seq![edit_of_row(files, lines, r0)]),
        ],
        ({
            let line = all_keys(files)[r0].line as int;
            let changes = changes_upto(all_plans(files, all_keys(files), lines), seq![Some(starts)], 1);
            &&& changes == seq![
                (
                    all_keys(files)[r0].file as int,
                    seq![
                        (
                            starts@[line] as int,
                            range_end(starts@[line] as int, all_texts(files)[r0].len() as int),
                            current_row(lines, r0),
                        ),
                    ],
                ),
            ]
            &&& changes.len() == 1
            &&& range_total(changes) == 1
        }),
{
    lemma_single_plan(files, lines, r0);
    let plans = all_plans(files, all_keys(files), lines);
    let op: Seq<Option<Vec<usize>>> = seq![Some(starts)];
    let f = all_keys(files)[r0].file as int;
    let line = all_keys(files)[r0].line as int;
    assert(op[0] == Some(starts));
    assert(changes_upto(plans, op, 0) =~= seq![]);
    assert(staged_upto(plans[0].1, starts@, 0) =~= seq![]);
    assert(plans[0].1.len() == 1);
    let st = staged(plans[0].1, starts@);
    assert(st =~= seq![
        (
            starts@[line] as int,
            range_end(starts@[line] as int, all_texts(files)[r0].len() as int),
            current_row(lines, r0),
        ),
    ]);
    let changes = changes_upto(plans, op, 1);
    assert(changes =~= seq![(f, st)]);
    assert(changes.drop_last() =~= seq![]);
    assert(edit_total(changes.drop_last()) == 0);
}

/// When exactly one row of the buffer was edited but its file no longer has
/// the match's line, the edit is dropped: the file is still opened, no range
/// is staged and no line is counted.
pub proof fn law_edit_past_end_dropped(
    files: Seq<FileMatches>,
    lines: Seq<Seq<char>>,
    r0: int,
    starts: Vec<usize>,
)
    requires
        files.len() <= usize::MAX,
        match_set_wf(files),
        0 <= r0 < all_texts(files).len(),
        current_row(lines, r0) != all_texts(files)[r0],
        rows_unedited_except(files, lines, Some(r0)),
        all_keys(files)[r0].line >= starts@.len(),
    ensures
        ({
            let changes = changes_upto(all_plans(files, all_keys(files), lines), seq![Some(starts)], 1);
            &&& changes == seq![(all_keys(files)[r0].file as int, Seq::<(int, int, Seq<char>)>::empty())]
            &&& range_total(changes) == 0
        }),
{
    lemma_single_plan(files, lines, r0);
    let plans = all_plans(files, all_keys(files), lines);
    let op: Seq<Option<Vec<usize>>> = seq![Some(starts)];
    let f = all_keys(files)[r0].file as int;
    assert(op[0] == Some(starts));
    assert(changes_upto(plans, op, 0) =~= seq![]);
    assert(staged_upto(plans[0].1, starts@, 0) =~= seq![]);
    assert(plans[0].1.len() == 1);
    let st = staged(plans[0].1, starts@);
    assert(st =~= seq![]);
    let changes = changes_upto(plans, op, 1);
    assert(changes =~= seq![(f, st)]);
    assert(changes.drop_last() =~= seq![]);
    assert(edit_total(changes.drop_last()) == 0);
}

proof fn lemma_single_plan(files: Seq<FileMatches>, lines: Seq<Seq<char>>, r0: int)
    requires
        files.len() <= usize::MAX,
        match_set_wf(files),
        0 <= r0 < all_texts(files).len(),
        current_row(lines, r0) != all_texts(files)[r0],
        rows_unedited_except(files, lines, Some(r0)),
    ensures
        all_plans(files, all_keys(files), lines) == seq![
            (all_keys(files)[r0].file as int, seq![edit_of_row(files, lines, r0)]),
        ],
{
    lemma_plans(files, lines, Some(r0), files.len() as int);
    law_line_map_bijective(files);
    lemma_upto_texts_len(files);
    let k = all_keys(files)[r0];
    let (fi, fj) = choose|fi: int, fj: int|
        0 <= fi < files.len() && 0 <= fj < files[fi].entries@.len() && k == entry_key(files, fi, fj);
    assert(k.file < files.len());
}

/// When exactly one row of the buffer was edited, to a single line, and the
/// real file still holds that row's original text on the match's line,
/// applying the staged change to the file makes that line read the new text
/// and leaves every other line `m` of the file as it was.
pub proof fn law_single_edit_rewrites_line(
    files: Seq<FileMatches>,
    lines: Seq<Seq<char>>,
    r0: int,
    starts: Vec<usize>,
    file_text: Seq<char>,
    m: nat,
)
    requires
        files.len() <= usize::MAX,
        match_set_wf(files),
        0 <= r0 < all_texts(files).len(),
        current_row(lines, r0) != all_texts(files)[r0],
        rows_unedited_except(files, lines, Some(r0)),
        single_line(current_row(lines, r0)),
        file_text.len() <= usize::MAX,
        all_keys(files)[r0].line < starts@.len(),
        all_keys(files)[r0].line < line_count(file_text),
        starts@[all_keys(files)[r0].line as int] == line_start(file_text, all_keys(files)[r0].line as nat),
        line_at(file_text, all_keys(files)[r0].line as nat) == all_texts(files)[r0],
    ensures
        ({
            let line = all_keys(files)[r0].line as nat;
            let c = changes_upto(all_plans(files, all_keys(files), lines), seq![Some(starts)], 1)[0].1[0];
            let after = replace_range(file_text, c.0, c.1, c.2);
            &&& line_at(after, line) == current_row(lines, r0)
            &&& m != line ==> line_at(after, m) == line_at(file_text, m)
        }),
{
    law_single_edit_commit(files, lines, r0, starts);
    let line = all_keys(files)[r0].line as nat;
    lemma_replace_line(file_text, line, all_texts(files)[r0], current_row(lines, r0), m);
}

} // verus!
