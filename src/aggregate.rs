//! Gathering scattered per-file line matches into one editable buffer,
//! together with the map from each buffer row back to its origin.
use vstd::prelude::*;
use vstd::string::*;

verus! {

/// The matches of one file: its path and the `(line, text)` pairs, in order.
pub struct FileMatches {
    pub path: String,
    pub entries: Vec<(usize, String)>,
}

/// The origin of a buffer row: the index of its file in the match set and
/// the line number within that file.
#[derive(Clone, Copy, PartialEq, Eq, Structural, Debug)]
pub struct RowKey {
    pub file: usize,
    pub line: usize,
}

/// The texts of a sequence of strings.
pub open spec fn views(v: Seq<String>) -> Seq<Seq<char>> {
    v.map_values(|s: String| s@)
}

/// The row keys contributed by file `i`, one per entry.
pub open spec fn file_keys(i: int, entries: Seq<(usize, String)>) -> Seq<RowKey> {
    entries.map_values(|e: (usize, String)| RowKey { file: i as usize, line: e.0 })
}

/// The row texts contributed by one file, one per entry.
pub open spec fn file_texts(entries: Seq<(usize, String)>) -> Seq<Seq<char>> {
    entries.map_values(|e: (usize, String)| e.1@)
}

/// Row keys of the first `n` files, in buffer order.
pub open spec fn keys_upto(files: Seq<FileMatches>, n: int) -> Seq<RowKey>
    decreases n,
{
    if n <= 0 {
        seq![]
    } else {
        keys_upto(files, n - 1) + file_keys(n - 1, files[n - 1].entries@)
    }
}

/// Row texts of the first `n` files, in buffer order.
pub open spec fn texts_upto(files: Seq<FileMatches>, n: int) -> Seq<Seq<char>>
    decreases n,
{
    if n <= 0 {
        seq![]
    } else {
        texts_upto(files, n - 1) + file_texts(files[n - 1].entries@)
    }
}

/// The key of every buffer row: row `r` comes from `all_keys(files)[r]`.
pub open spec fn all_keys(files: Seq<FileMatches>) -> Seq<RowKey> {
    keys_upto(files, files.len() as int)
}

/// The original text of every buffer row.
pub open spec fn all_texts(files: Seq<FileMatches>) -> Seq<Seq<char>> {
    texts_upto(files, files.len() as int)
}

/// The rows joined by line terminators, with no terminator after the last.
pub open spec fn join_lines(rows: Seq<Seq<char>>) -> Seq<char>
    decreases rows.len(),
{
    if rows.len() == 0 {
        seq![]
    } else if rows.len() == 1 {
        rows[0]
    } else {
        join_lines(rows.drop_last()) + seq!['\n'] + rows.last()
    }
}

/// The row that `k` maps to among the first `n` rows: the last one
/// carrying that key, as a later assignment replaces an earlier one.
pub open spec fn row_in(keys: Seq<RowKey>, k: RowKey, n: int) -> Option<int>
    decreases n,
{
    if n <= 0 {
        None
    } else if keys[n - 1] == k {
        Some(n - 1)
    } else {
        row_in(keys, k, n - 1)
    }
}

/// The row of the buffer that key `k` maps to.
pub open spec fn row_of(keys: Seq<RowKey>, k: RowKey) -> Option<int> {
    row_in(keys, k, keys.len() as int)
}

/// Lists, in buffer order, the key and the text of every match.
pub fn collect_rows(files: &Vec<FileMatches>) -> (res: (Vec<RowKey>, Vec<String>))
    ensures
        res.0@ == all_keys(files@),
        views(res.1@) == all_texts(files@),
{
    let mut keys: Vec<RowKey> = Vec::new();
    let mut texts: Vec<String> = Vec::new();
    let mut i: usize = 0;
    while i < files.len()
        invariant
            i <= files.len(),
            keys@ == keys_upto(files@, i as int),
            views(texts@) == texts_upto(files@, i as int),
        decreases files.len() - i,
    {
        let entries = &files[i].entries;
        let mut j: usize = 0;
        while j < entries.len()
            invariant
                i < files.len(),
                entries == files@[i as int].entries,
                j <= entries.len(),
                keys@ == keys_upto(files@, i as int) + file_keys(i as int, entries@.take(j as int)),
                views(texts@) == texts_upto(files@, i as int) + file_texts(entries@.take(j as int)),
            decreases entries.len() - j,
        {
            let line = entries[j].0;
            keys.push(RowKey { file: i, line });
            let ghost before = texts@;
            let t = entries[j].1.clone();
            texts.push(t);
            proof {
                assert(views(texts@) == views(before).push(entries@[j as int].1@));
            }
            proof {
                assert(entries@.take(j + 1) == entries@.take(j as int).push(entries@[j as int]));
                assert(file_keys(i as int, entries@.take(j + 1)) == file_keys(
                    i as int,
                    entries@.take(j as int),
                ).push(RowKey { file: i, line }));
                assert(file_texts(entries@.take(j + 1)) == file_texts(entries@.take(j as int)).push(
                    entries@[j as int].1@,
                ));
                assert(keys@ == keys_upto(files@, i as int) + file_keys(
                    i as int,
                    entries@.take(j + 1),
                ));
                assert(views(texts@) == texts_upto(files@, i as int) + file_texts(
                    entries@.take(j + 1),
                ));
            }
            j = j + 1;
        }
        proof {
            assert(entries@.take(j as int) == entries@);
        }
        i = i + 1;
    }
    (keys, texts)
}

/// Joins the rows with line terminators into the text of one buffer.
pub fn join_rows(rows: &Vec<String>) -> (text: String)
    ensures
        text@ == join_lines(views(rows@)),
{
    let mut text = String::new();
    let mut r: usize = 0;
    while r < rows.len()
        invariant
            r <= rows.len(),
            text@ == join_lines(views(rows@).take(r as int)),
        decreases rows.len() - r,
    {
        proof {
            reveal_strlit("\n");
        }
        if r > 0 {
            text.append("\n");
        }
        text.append(rows[r].as_str());
        proof {
            let t = views(rows@).take(r + 1);
            assert(t.drop_last() == views(rows@).take(r as int));
            assert(t.last() == rows@[r as int]@);
        }
        r = r + 1;
    }
    proof {
        assert(views(rows@).take(r as int) == views(rows@));
    }
    text
}

/// The row that holds the match `k`, if any: the last row carrying that key.
pub fn find_row(keys: &Vec<RowKey>, k: RowKey) -> (r: Option<usize>)
    ensures
        r matches Some(x) ==> row_of(keys@, k) == Some(x as int),
        r is None ==> row_of(keys@, k) is None,
{
    let mut n: usize = keys.len();
    while n > 0
        invariant
            n <= keys.len(),
            row_of(keys@, k) == row_in(keys@, k, n as int),
        decreases n,
    {
        if keys[n - 1] == k {
            return Some(n - 1);
        }
        n = n - 1;
    }
    None
}

/// A well-formed match set, as a map from path to matches is: no path occurs
/// twice, and no line occurs twice among the matches of one file.
pub open spec fn match_set_wf(files: Seq<FileMatches>) -> bool {
    &&& forall|a: int, b: int|
        0 <= a < b < files.len() ==> #[trigger] files[a].path@ != #[trigger] files[b].path@
    &&& forall|i: int, a: int, b: int|
        0 <= i < files.len() && 0 <= a < b < files[i].entries@.len() ==> #[trigger] files[i].entries@[a].0
            != #[trigger] files[i].entries@[b].0
}

/// The key of entry `j` of file `i`.
pub open spec fn entry_key(files: Seq<FileMatches>, i: int, j: int) -> RowKey {
    RowKey { file: i as usize, line: files[i].entries@[j].0 }
}

proof fn lemma_upto_len(files: Seq<FileMatches>, i: int, n: int)
    requires
        0 <= i <= n <= files.len(),
    ensures
        keys_upto(files, n).len() == texts_upto(files, n).len(),
        i < n ==> keys_upto(files, i).len() + files[i].entries@.len() <= keys_upto(files, n).len(),
        keys_upto(files, i).len() <= keys_upto(files, n).len(),
    decreases n,
{
    if n > 0 {
        if i < n {
            lemma_upto_len(files, i, n - 1);
        } else {
            lemma_upto_len(files, n - 1, n - 1);
        }
    }
}

proof fn lemma_upto_index(files: Seq<FileMatches>, n: int, i: int, j: int)
    requires
        0 <= i < n <= files.len(),
        0 <= j < files[i].entries@.len(),
    ensures
        keys_upto(files, i).len() + j < keys_upto(files, n).len(),
        keys_upto(files, n)[keys_upto(files, i).len() + j] == entry_key(files, i, j),
        texts_upto(files, n)[keys_upto(files, i).len() + j] == files[i].entries@[j].1@,
    decreases n,
{
    lemma_upto_len(files, i, n);
    lemma_upto_len(files, i, i);
    if i < n - 1 {
        lemma_upto_index(files, n - 1, i, j);
        lemma_upto_len(files, n - 1, n - 1);
    }
}

proof fn lemma_upto_decompose(files: Seq<FileMatches>, n: int, p: int)
    requires
        0 <= n <= files.len(),
        0 <= p < keys_upto(files, n).len(),
    ensures
        exists|i: int, j: int|
            0 <= i < n && 0 <= j < files[i].entries@.len() && keys_upto(files, n)[p] == entry_key(
                files,
                i,
                j,
            ) && texts_upto(files, n)[p] == files[i].entries@[j].1@,
    decreases n,
{
    lemma_upto_len(files, n - 1, n - 1);
    let prev = keys_upto(files, n - 1).len();
    if p < prev {
        lemma_upto_decompose(files, n - 1, p);
        let (i, j) = choose|i: int, j: int|
            0 <= i < n - 1 && 0 <= j < files[i].entries@.len() && keys_upto(files, n - 1)[p]
                == entry_key(files, i, j) && texts_upto(files, n - 1)[p]
                == files[i].entries@[j].1@;
        assert(keys_upto(files, n)[p] == entry_key(files, i, j));
        assert(texts_upto(files, n)[p] == files[i].entries@[j].1@);
    } else {
        let j = p - prev;
        assert(keys_upto(files, n)[p] == entry_key(files, n - 1, j));
        assert(texts_upto(files, n)[p] == files[n - 1].entries@[j].1@);
    }
}

proof fn lemma_upto_unique(files: Seq<FileMatches>, n: int)
    requires
        0 <= n <= files.len() <= usize::MAX,
        match_set_wf(files),
    ensures
        forall|a: int, b: int|
            0 <= a < b < keys_upto(files, n).len() ==> keys_upto(files, n)[a] != keys_upto(
                files,
                n,
            )[b],
        forall|a: int| 0 <= a < keys_upto(files, n).len() ==> keys_upto(files, n)[a].file < n,
    decreases n,
{
    if n > 0 {
        lemma_upto_unique(files, n - 1);
        let ks = keys_upto(files, n);
        let prev = keys_upto(files, n - 1);
        let e = files[n - 1].entries@;
        assert forall|a: int| 0 <= a < ks.len() implies ks[a].file < n by {
            if a >= prev.len() {
                assert(ks[a] == file_keys(n - 1, e)[a - prev.len()]);
            }
        }
        assert forall|a: int, b: int| 0 <= a < b < ks.len() implies ks[a] != ks[b] by {
            if b >= prev.len() {
                assert(ks[b] == file_keys(n - 1, e)[b - prev.len()]);
                if a >= prev.len() {
                    assert(ks[a] == file_keys(n - 1, e)[a - prev.len()]);
                    assert(e[a - prev.len()].0 != e[b - prev.len()].0);
                }
            }
        }
    }
}

proof fn lemma_row_in_unique(keys: Seq<RowKey>, k: RowKey, p: int, n: int)
    requires
        0 <= p < n <= keys.len(),
        keys[p] == k,
        forall|a: int, b: int| 0 <= a < b < keys.len() ==> keys[a] != keys[b],
    ensures
        row_in(keys, k, n) == Some(p),
    decreases n,
{
    if n - 1 != p {
        lemma_row_in_unique(keys, k, p, n - 1);
    }
}

proof fn lemma_row_in_sound(keys: Seq<RowKey>, k: RowKey, n: int)
    requires
        n <= keys.len(),
    ensures
        row_in(keys, k, n) matches Some(r) ==> 0 <= r < n && keys[r] == k,
    decreases n,
{
    if n > 0 {
        lemma_row_in_sound(keys, k, n - 1);
    }
}

/// Over a well-formed match set, the line map is a bijection between the
/// keys of the matches and the rows `0 .. n` of the buffer: each row is
/// reached from its own key and from no other, each row's key is the key of a
/// match, and the key of every match reaches a row.
pub proof fn law_line_map_bijective(files: Seq<FileMatches>)
    requires
        files.len() <= usize::MAX,
        match_set_wf(files),
    ensures
        forall|r: int|
            0 <= r < all_keys(files).len() ==> row_of(all_keys(files), #[trigger] all_keys(files)[r])
                == Some(r),
        forall|k: RowKey|
            (#[trigger] row_of(all_keys(files), k)) is Some ==> {
                let r = row_of(all_keys(files), k)->Some_0;
                0 <= r < all_keys(files).len() && all_keys(files)[r] == k
            },
        forall|r: int|
            0 <= r < all_keys(files).len() ==> exists|i: int, j: int|
                0 <= i < files.len() && 0 <= j < files[i].entries@.len() && #[trigger] all_keys(
                    files,
                )[r] == entry_key(files, i, j),
        forall|i: int, j: int|
            0 <= i < files.len() && 0 <= j < files[i].entries@.len() ==> (#[trigger] row_of(
                all_keys(files),
                entry_key(files, i, j),
            )) is Some,
{
    let n = files.len() as int;
    let keys = all_keys(files);
    lemma_upto_unique(files, n);
    assert forall|r: int| 0 <= r < keys.len() implies row_of(keys, #[trigger] keys[r]) == Some(r) by {
        lemma_row_in_unique(keys, keys[r], r, keys.len() as int);
    }
    assert forall|k: RowKey| (#[trigger] row_of(keys, k)) is Some implies {
        let r = row_of(keys, k)->Some_0;
        0 <= r < keys.len() && keys[r] == k
    } by {
        lemma_row_in_sound(keys, k, keys.len() as int);
    }
    assert forall|r: int| 0 <= r < keys.len() implies exists|i: int, j: int|
        0 <= i < files.len() && 0 <= j < files[i].entries@.len() && #[trigger] keys[r] == entry_key(
            files,
            i,
            j,
        ) by {
        lemma_upto_decompose(files, n, r);
    }
    assert forall|i: int, j: int| 0 <= i < files.len() && 0 <= j < files[i].entries@.len() implies (
    #[trigger] row_of(keys, entry_key(files, i, j))) is Some by {
        lemma_upto_index(files, n, i, j);
        lemma_row_in_unique(keys, entry_key(files, i, j), keys_upto(files, i).len() + j, keys.len() as int);
    }
}

/// Over a well-formed match set, the row that the line map gives for a match
/// holds exactly that match's text in the unedited buffer.
pub proof fn law_rows_read_back(files: Seq<FileMatches>)
    requires
        files.len() <= usize::MAX,
        match_set_wf(files),
    ensures
        forall|i: int, j: int|
            0 <= i < files.len() && 0 <= j < files[i].entries@.len() ==> {
                let r = #[trigger] row_of(all_keys(files), entry_key(files, i, j));
                r is Some && 0 <= r->Some_0 < all_texts(files).len() && all_texts(files)[r->Some_0]
                    == files[i].entries@[j].1@
            },
{
    let n = files.len() as int;
    let keys = all_keys(files);
    lemma_upto_unique(files, n);
    lemma_upto_len(files, n, n);
    assert forall|i: int, j: int| 0 <= i < files.len() && 0 <= j < files[i].entries@.len() implies {
        let r = #[trigger] row_of(keys, entry_key(files, i, j));
        r is Some && 0 <= r->Some_0 < all_texts(files).len() && all_texts(files)[r->Some_0]
            == files[i].entries@[j].1@
    } by {
        lemma_upto_index(files, n, i, j);
        lemma_row_in_unique(keys, entry_key(files, i, j), keys_upto(files, i).len() + j, keys.len() as int);
    }
}

/// The index of the first line terminator of `s`, or its length if none.
pub open spec fn first_break(s: Seq<char>) -> int
    decreases s.len(),
{
    if s.len() == 0 {
        0
    } else if s[0] == '\n' {
        0
    } else {
        1 + first_break(s.drop_first())
    }
}

/// Line `r` of the text `s`: the characters after its `r`-th line
/// terminator and before the next one; empty past the last line.
pub open spec fn line_at(s: Seq<char>, r: nat) -> Seq<char>
    decreases r,
{
    if r == 0 {
        s.take(first_break(s))
    } else if first_break(s) < s.len() {
        line_at(s.skip(first_break(s) + 1), (r - 1) as nat)
    } else {
        seq![]
    }
}

/// No line terminator occurs in `s`.
pub open spec fn single_line(s: Seq<char>) -> bool {
    forall|k: int| 0 <= k < s.len() ==> s[k] != '\n'
}

proof fn lemma_first_break(a: Seq<char>, b: Seq<char>)
    requires
        single_line(a),
    ensures
        first_break(a + seq!['\n'] + b) == a.len(),
        first_break(a) == a.len(),
    decreases a.len(),
{
    if a.len() > 0 {
        lemma_first_break(a.drop_first(), b);
        assert((a + seq!['\n'] + b).drop_first() == a.drop_first() + seq!['\n'] + b);
    } else {
        assert((a + seq!['\n'] + b)[0] == '\n');
    }
}

proof fn lemma_join_front(rows: Seq<Seq<char>>)
    requires
        rows.len() >= 2,
    ensures
        join_lines(rows) == rows[0] + seq!['\n'] + join_lines(rows.drop_first()),
    decreases rows.len(),
{
    let dl = rows.drop_last();
    let df = rows.drop_first();
    if rows.len() > 2 {
        lemma_join_front(dl);
        assert(dl.drop_first() == df.drop_last());
        assert(df.last() == rows.last());
        assert(join_lines(df) == join_lines(df.drop_last()) + seq!['\n'] + df.last());
        assert(join_lines(rows) =~= rows[0] + seq!['\n'] + join_lines(df));
    } else {
        assert(df.len() == 1 && dl.len() == 1);
        assert(join_lines(dl) == dl[0]);
        assert(join_lines(df) == df[0]);
        assert(join_lines(rows) =~= rows[0] + seq!['\n'] + join_lines(df));
    }
}

proof fn lemma_line_at_join(rows: Seq<Seq<char>>, r: int)
    requires
        0 <= r < rows.len(),
        forall|q: int| 0 <= q < rows.len() ==> single_line(#[trigger] rows[q]),
    ensures
        line_at(join_lines(rows), r as nat) == rows[r],
    decreases rows.len(),
{
    let a = rows[0];
    assert(single_line(rows[0]));
    if rows.len() == 1 {
        lemma_first_break(a, seq![]);
        assert(a.take(a.len() as int) == a);
    } else {
        lemma_join_front(rows);
        let rest = join_lines(rows.drop_first());
        let s = join_lines(rows);
        lemma_first_break(a, rest);
        if r == 0 {
            assert(s.take(a.len() as int) == a);
        } else {
            assert(s.skip(a.len() + 1 as int) == rest);
            assert forall|q: int| 0 <= q < rows.drop_first().len() implies single_line(
                #[trigger] rows.drop_first()[q],
            ) by {
                assert(rows.drop_first()[q] == rows[q + 1]);
            }
            lemma_line_at_join(rows.drop_first(), r - 1);
        }
    }
}

/// Over a well-formed match set whose texts are single lines, line `r` of
/// the buffer's text, for the row `r` that the line map gives a match, is
/// exactly that match's text.
pub proof fn law_text_lines_read_back(files: Seq<FileMatches>)
    requires
        files.len() <= usize::MAX,
        match_set_wf(files),
        forall|i: int, j: int|
            0 <= i < files.len() && 0 <= j < files[i].entries@.len() ==> single_line(
                #[trigger] files[i].entries@[j].1@,
            ),
    ensures
        forall|i: int, j: int|
            0 <= i < files.len() && 0 <= j < files[i].entries@.len() ==> {
                let r = #[trigger] row_of(all_keys(files), entry_key(files, i, j));
                r is Some && line_at(join_lines(all_texts(files)), r->Some_0 as nat)
                    == files[i].entries@[j].1@
            },
{
    let n = files.len() as int;
    let texts = all_texts(files);
    law_rows_read_back(files);
    assert forall|q: int| 0 <= q < texts.len() implies single_line(#[trigger] texts[q]) by {
        lemma_upto_len(files, n, n);
        lemma_upto_decompose(files, n, q);
    }
    assert forall|i: int, j: int| 0 <= i < files.len() && 0 <= j < files[i].entries@.len() implies {
        let r = #[trigger] row_of(all_keys(files), entry_key(files, i, j));
        r is Some && line_at(join_lines(texts), r->Some_0 as nat) == files[i].entries@[j].1@
    } by {
        let r = row_of(all_keys(files), entry_key(files, i, j))->Some_0;
        lemma_line_at_join(texts, r);
    }
}

/// Every row key names a file of the match set.
pub proof fn lemma_keys_name_files(files: Seq<FileMatches>)
    requires
        files.len() <= usize::MAX,
    ensures
        forall|r: int| 0 <= r < all_keys(files).len() ==> (#[trigger] all_keys(files)[r]).file < files.len(),
{
    let n = files.len() as int;
    assert forall|r: int| 0 <= r < all_keys(files).len() implies (#[trigger] all_keys(files)[r]).file
        < files.len() by {
        lemma_upto_decompose(files, n, r);
    }
}

/// The number of lines of the text `s`: one more than its terminators.
pub open spec fn line_count(s: Seq<char>) -> nat
    decreases s.len(),
{
    if 0 <= first_break(s) < s.len() {
        1 + line_count(s.skip(first_break(s) + 1))
    } else {
        1
    }
}

/// The offset of the first character of line `l` of the text `s`.
pub open spec fn line_start(s: Seq<char>, l: nat) -> int
    decreases l,
{
    if l == 0 {
        0
    } else if first_break(s) < s.len() {
        first_break(s) + 1 + line_start(s.skip(first_break(s) + 1), (l - 1) as nat)
    } else {
        s.len() as int
    }
}

/// The text `s` with the characters `[start, end)` replaced by `new`.
pub open spec fn replace_range(s: Seq<char>, start: int, end: int, new: Seq<char>) -> Seq<char> {
    s.take(start) + new + s.skip(end)
}

proof fn lemma_first_break_bound(s: Seq<char>)
    ensures
        0 <= first_break(s) <= s.len(),
        first_break(s) < s.len() ==> s[first_break(s)] == '\n',
        single_line(s.take(first_break(s))),
    decreases s.len(),
{
    if s.len() > 0 && s[0] != '\n' {
        lemma_first_break_bound(s.drop_first());
        assert forall|k: int| 0 <= k < first_break(s) implies s.take(first_break(s))[k] != '\n' by {
            if k > 0 {
                assert(s.take(first_break(s))[k] == s.drop_first().take(first_break(s.drop_first()))[k - 1]);
            }
        }
    }
}

proof fn lemma_first_break_concat(a: Seq<char>, b: Seq<char>)
    requires
        single_line(a),
    ensures
        first_break(a + b) == a.len() + first_break(b),
    decreases a.len(),
{
    if a.len() > 0 {
        lemma_first_break_concat(a.drop_first(), b);
        assert((a + b).drop_first() == a.drop_first() + b);
    } else {
        assert(a + b == b);
    }
}

/// Replacing line `l` of `s`, which reads `old_line`, by the single line
/// `new` at its start makes line `l` read `new` and leaves every other line
/// as it was.
pub proof fn lemma_replace_line(s: Seq<char>, l: nat, old_line: Seq<char>, new: Seq<char>, m: nat)
    requires
        l < line_count(s),
        line_at(s, l) == old_line,
        single_line(new),
    ensures
        0 <= line_start(s, l) <= line_start(s, l) + old_line.len() <= s.len(),
        line_at(replace_range(s, line_start(s, l), line_start(s, l) + old_line.len(), new), l) == new,
        m != l ==> line_at(
            replace_range(s, line_start(s, l), line_start(s, l) + old_line.len(), new),
            m,
        ) == line_at(s, m),
    decreases l,
{
    let fb = first_break(s);
    lemma_first_break_bound(s);
    if l == 0 {
        assert(old_line == s.take(fb));
        let t = replace_range(s, 0, old_line.len() as int, new);
        let rest = s.skip(fb);
        assert(t =~= new + rest);
        lemma_first_break_concat(new, rest);
        if fb < s.len() {
            assert(rest[0] == '\n');
            assert(first_break(rest) == 0);
        } else {
            assert(rest.len() == 0);
        }
        assert(first_break(t) == new.len());
        assert(t.take(new.len() as int) == new);
        if m > 0 {
            if fb < s.len() {
                assert(t.skip(new.len() + 1 as int) =~= s.skip(fb + 1));
            }
        }
    } else {
        assert(fb < s.len());
        let r = s.skip(fb + 1);
        lemma_replace_line(r, (l - 1) as nat, old_line, new, (m - 1) as nat);
        let p = line_start(r, (l - 1) as nat);
        let t = replace_range(s, line_start(s, l), line_start(s, l) + old_line.len(), new);
        let tr = replace_range(r, p, p + old_line.len(), new);
        assert(t =~= s.take(fb + 1) + tr);
        assert(s.take(fb + 1) =~= s.take(fb) + seq!['\n']);
        lemma_first_break_concat(s.take(fb), seq!['\n'] + tr);
        assert(first_break(seq!['\n'] + tr) == 0);
        assert(s.take(fb + 1) + tr =~= s.take(fb) + (seq!['\n'] + tr));
        assert(first_break(t) == fb);
        assert(t.skip(fb + 1) =~= tr);
        assert(t.take(fb) =~= s.take(fb));
    }
}

} // verus!
