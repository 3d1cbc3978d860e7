//! A session over a set of matches: the synthetic buffer, its line map, the
//! input mode, and the commit of the edited rows.
use vstd::prelude::*;
use crate::aggregate::{
    FileMatches, RowKey, all_keys, all_texts, collect_rows, file_keys, join_lines, join_rows,
    keys_upto, lemma_keys_name_files, views,
};
use crate::reconcile::{
    FileChange, FilePlan, all_plans, build_changes, change_views, changes_upto, edit_total,
    pending_of_file, pending_upto, plan_edits, plan_views, plans_upto, range_total,
};
use crate::session::{Key, Reaction, Resolution, SessionState, decimal, decimal_string, react, step};
use vstd::string::*;

verus! {

/// The width of the gutter that shows where each row comes from.
pub const GUTTER_WIDTH: usize = 15;

/// An edit session over matches gathered from many files.
pub struct RefactorView {
    /// The matches, by file, as captured when the session began.
    pub matches: Vec<FileMatches>,
    /// The origin of every row of the buffer: row `r` holds the match
    /// `line_map[r]`.
    pub line_map: Vec<RowKey>,
    /// The text of the synthetic buffer, before any edit.
    pub text: String,
    /// The input mode.
    pub state: SessionState,
}

impl RefactorView {
    /// The line map and the buffer text agree with the matches.
    pub open spec fn wf(&self) -> bool {
        &&& self.line_map@ == all_keys(self.matches@)
        &&& self.text@ == join_lines(all_texts(self.matches@))
        &&& self.matches@.len() <= usize::MAX
    }

    /// The gutter label of row `r`: the path and line of its match.
    pub open spec fn label_spec(&self, r: int) -> Seq<char> {
        let k = self.line_map@[r];
        self.matches@[k.file as int].path@ + ":"@ + decimal(k.line as nat)
    }

    /// The gutter label of row `r`: `path:line` of the match it holds.
    pub fn row_label(&self, r: usize) -> (s: String)
        requires
            self.wf(),
            r < self.line_map.len(),
        ensures
            s@ == self.label_spec(r as int),
    {
        proof {
            lemma_keys_name_files(self.matches@);
        }
        let k = self.line_map[r];
        let s = self.matches[k.file].path.clone();
        let s = s.concat(":");
        s.concat(decimal_string(k.line).as_str())
    }

    /// The labels of the rows shown in a window of `height` rows whose
    /// first row is `offset`: one per row that exists, top to bottom. They
    /// are drawn in a gutter of `GUTTER_WIDTH` columns, truncated to it.
    pub fn gutter_labels(&self, offset: usize, height: usize) -> (v: Vec<String>)
        requires
            self.wf(),
        ensures
            v.len() == if offset >= self.line_map.len() {
                0
            } else if height < self.line_map.len() - offset {
                height as int
            } else {
                self.line_map.len() - offset
            },
            forall|q: int| 0 <= q < v.len() ==> #[trigger] v@[q]@ == self.label_spec(offset + q),
    {
        let mut v: Vec<String> = Vec::new();
        let mut r: usize = offset;
        while r < self.line_map.len() && r - offset < height
            invariant
                self.wf(),
                offset <= r,
                r <= offset || r <= self.line_map.len(),
                v.len() == r - offset,
                r - offset <= height,
                forall|q: int| 0 <= q < v.len() ==> #[trigger] v@[q]@ == self.label_spec(offset + q),
            decreases self.line_map.len() - r,
        {
            let s = self.row_label(r);
            v.push(s);
            r = r + 1;
        }
        v
    }

    /// Starts a session: builds the synthetic buffer, one row per match in
    /// match-set order, and the map from each row to its match.
    pub fn new(matches: Vec<FileMatches>) -> (v: RefactorView)
        ensures
            v.wf(),
            v.matches@ == matches@,
            v.state == SessionState::Browsing,
    {
        let (line_map, rows) = collect_rows(&matches);
        let text = join_rows(&rows);
        let n = matches.len();
        assert(n == matches@.len());
        RefactorView { matches, line_map, text, state: SessionState::Browsing }
    }

    /// The node of the key-binding trie that the next key is resolved in
    /// first, during a multi-key sequence.
    pub fn sticky_node(&self) -> (r: Option<usize>)
        ensures
            r == (match self.state {
                SessionState::StickyNavigation(n) => Some(n),
                _ => None,
            }),
    {
        match self.state {
            SessionState::StickyNavigation(n) => Some(n),
            _ => None,
        }
    }

    /// Handles one key: `from_node` is what it resolves to in the sticky
    /// node, `from_mode` what it resolves to in the bindings of the mode.
    pub fn handle_key(
        &mut self,
        key: Key,
        from_node: Option<Resolution>,
        from_mode: Option<Resolution>,
    ) -> (r: Reaction)
        ensures
            r == react(old(self).state, key, from_node, from_mode),
            final(self).state == r.state,
            final(self).matches == old(self).matches,
            final(self).line_map == old(self).line_map,
            final(self).text == old(self).text,
    {
        let r = step(self.state, key, from_node, from_mode);
        self.state = r.state;
        r
    }

    /// The pending edits, by file, given the lines of the edited buffer as
    /// it reports them.
    pub fn plan(&self, lines: &Vec<String>) -> (res: Vec<FilePlan>)
        ensures
            plan_views(res@) == all_plans(self.matches@, self.line_map@, views(lines@)),
    {
        plan_edits(&self.matches, &self.line_map, lines)
    }

    /// Reconciles the edited buffer with the files. `opened[k]` holds where
    /// each line of the file of the `k`-th plan starts, or nothing when that
    /// file could not be opened. Returns one change per opened file, the
    /// number of files touched and the number of lines changed.
    pub fn apply_refactor(&self, lines: &Vec<String>, opened: &Vec<Option<Vec<usize>>>) -> (res: (
        Vec<FileChange>,
        usize,
        usize,
    ))
        requires
            self.wf(),
            opened.len() == all_plans(self.matches@, self.line_map@, views(lines@)).len(),
        ensures
            change_views(res.0@) == changes_upto(
                all_plans(self.matches@, self.line_map@, views(lines@)),
                opened@,
                opened.len() as int,
            ),
            res.1 == res.0.len(),
            res.2 == range_total(change_views(res.0@)),
    {
        let plans = self.plan(lines);
        let rows = self.line_map.len();
        proof {
            assert(rows == all_keys(self.matches@).len());
            lemma_plans_total(self.matches@, self.line_map@, views(lines@), self.matches@.len() as int);
        }
        build_changes(&plans, opened)
    }
}

proof fn lemma_pending_len(
    keys: Seq<RowKey>,
    lines: Seq<Seq<char>>,
    i: int,
    entries: Seq<(usize, String)>,
    j: int,
)
    requires
        0 <= j,
    ensures
        pending_upto(keys, lines, i, entries, j).len() <= j,
    decreases j,
{
    if j > 0 {
        lemma_pending_len(keys, lines, i, entries, j - 1);
    }
}

proof fn lemma_plans_total(
    files: Seq<FileMatches>,
    keys: Seq<RowKey>,
    lines: Seq<Seq<char>>,
    n: int,
)
    requires
        0 <= n <= files.len(),
    ensures
        0 <= edit_total(plans_upto(files, keys, lines, n)) <= keys_upto(files, n).len(),
    decreases n,
{
    if n > 0 {
        lemma_plans_total(files, keys, lines, n - 1);
        let p = pending_of_file(files, keys, lines, n - 1);
        let e = files[n - 1].entries@;
        lemma_pending_len(keys, lines, n - 1, e, e.len() as int);
        assert(file_keys(n - 1, e).len() == e.len());
        if p.len() > 0 {
            let s = plans_upto(files, keys, lines, n);
            assert(s.drop_last() == plans_upto(files, keys, lines, n - 1));
        }
    }
}

} // verus!
