//! The search dialog: the query being typed, and the items whose titles
//! match it, best matches first.
//!
//! Matching ignores case. A title that starts with the query ranks first, one
//! that contains it next, and one that contains the query's chars in order,
//! not necessarily adjacent, last; among equals the vault order is kept. At
//! most ten results are listed.
use vstd::prelude::*;

use crate::cursor::{
    backspace_at_cursor, backspaced, cursor_left, cursor_right, insert_at_cursor, inserted, is_boundary,
    left_of, lemma_end_is_boundary, right_of, utf8_len,
};
use crate::domain::item::{Item, kind_icon_of};
use crate::input::mouse::ClickRegion;
use crate::text::{contains_str, lowercase_of, occurs_in, to_lowercase};

verus! {

/// Most results listed.
pub const MAX_RESULTS: usize = 10;

/// Score of a title that starts with the query.
pub const PREFIX_SCORE: u16 = 300;

/// Score of a title that contains the query.
pub const SUBSTRING_SCORE: u16 = 200;

/// Score of a title that contains the query's chars in order.
pub const SCATTERED_SCORE: u16 = 100;

/// Whether the chars of `q` occur in `t` in order.
pub open spec fn scattered_in(q: Seq<char>, t: Seq<char>) -> bool
    decreases t.len(),
{
    if q.len() == 0 {
        true
    } else if t.len() == 0 {
        false
    } else if q[0] == t[0] {
        scattered_in(q.drop_first(), t.drop_first())
    } else {
        scattered_in(q, t.drop_first())
    }
}

/// The score of a title for a query, both lowercase: `None` when it does
/// not match.
pub open spec fn title_score(q: Seq<char>, t: Seq<char>) -> Option<u16> {
    if q.len() <= t.len() && t.take(q.len() as int) == q {
        Some(PREFIX_SCORE)
    } else if occurs_in(q, t) {
        Some(SUBSTRING_SCORE)
    } else if scattered_in(q, t) {
        Some(SCATTERED_SCORE)
    } else {
        None
    }
}

/// The score of an item for a query.
pub open spec fn item_score(item: Item, query: Seq<char>) -> Option<u16> {
    title_score(lowercase_of(query), lowercase_of(item.title@))
}

/// The identifiers of the items that score `score`, in order.
pub open spec fn scoring(items: Seq<Item>, query: Seq<char>, score: u16) -> Seq<u128>
    decreases items.len(),
{
    if items.len() == 0 {
        Seq::empty()
    } else {
        let rest = scoring(items.drop_last(), query, score);
        if item_score(items.last(), query) == Some(score) {
            rest.push(items.last().id)
        } else {
            rest
        }
    }
}

/// The identifiers of the matching items, best first, in vault order among
/// equals.
pub open spec fn ranked(items: Seq<Item>, query: Seq<char>) -> Seq<u128> {
    scoring(items, query, PREFIX_SCORE) + scoring(items, query, SUBSTRING_SCORE) + scoring(
        items,
        query,
        SCATTERED_SCORE,
    )
}

/// A title that holds the query as one run of chars somewhere, but does not
/// start with it, scores `SUBSTRING_SCORE`: below a title that starts with
/// the query and above one that only holds the query's chars apart.
pub proof fn lemma_contiguous_match_score(q: Seq<char>, t: Seq<char>, i: int)
    requires
        0 <= i,
        i + q.len() <= t.len(),
        forall|k: int| 0 <= k < q.len() ==> t[i + k] == q[k],
        !(q.len() <= t.len() && forall|k: int| 0 <= k < q.len() ==> t[k] == q[k]),
    ensures
        title_score(q, t) == Some(SUBSTRING_SCORE),
        PREFIX_SCORE > SUBSTRING_SCORE > SCATTERED_SCORE,
{
    assert(t.subrange(i, i + q.len()) =~= q);
    assert(occurs_in(q, t));
    if q.len() <= t.len() && t.take(q.len() as int) == q {
        assert forall|k: int| 0 <= k < q.len() implies t[k] == q[k] by {
            assert(t.take(q.len() as int)[k] == t[k]);
        }
    }
}

/// The items scoring `score` are all named among those of that score.
proof fn lemma_scoring_names(items: Seq<Item>, query: Seq<char>, score: u16, j: int)
    requires
        0 <= j < items.len(),
        item_score(items[j], query) == Some(score),
    ensures
        exists|p: int| 0 <= p < scoring(items, query, score).len() && scoring(items, query, score)[p] == items[j].id,
    decreases items.len(),
{
    let all = scoring(items, query, score);
    let rest = scoring(items.drop_last(), query, score);
    if j == items.len() - 1 {
        assert(items.last() == items[j]);
        assert(all == rest.push(items[j].id));
        assert(0 <= rest.len() < all.len() && all[rest.len() as int] == items[j].id);
    } else {
        assert(items.drop_last()[j] == items[j]);
        lemma_scoring_names(items.drop_last(), query, score, j);
        let p = choose|p: int| 0 <= p < rest.len() && rest[p] == items[j].id;
        if item_score(items.last(), query) == Some(score) {
            assert(all == rest.push(items.last().id));
        } else {
            assert(all == rest);
        }
        assert(0 <= p < all.len() && all[p] == items[j].id);
    }
}

/// In the results, an item whose title holds the query (case ignored) as one
/// run of chars comes before every item whose title only holds the query's
/// chars apart.
pub proof fn lemma_ranked_by_tier(items: Seq<Item>, query: Seq<char>, a: int, b: int, i: int)
    requires
        0 <= a < items.len(),
        0 <= b < items.len(),
        0 <= i,
        i + lowercase_of(query).len() <= lowercase_of(items[a].title@).len(),
        forall|k: int|
            0 <= k < lowercase_of(query).len() ==> lowercase_of(items[a].title@)[i + k] == lowercase_of(query)[k],
        item_score(items[b], query) == Some(SCATTERED_SCORE),
    ensures
        exists|pa: int, pb: int|
            0 <= pa < pb < ranked(items, query).len() && ranked(items, query)[pa] == items[a].id && ranked(
                items,
                query,
            )[pb] == items[b].id,
{
    let q = lowercase_of(query);
    let t = lowercase_of(items[a].title@);
    let p = scoring(items, query, PREFIX_SCORE);
    let sub = scoring(items, query, SUBSTRING_SCORE);
    let sc = scoring(items, query, SCATTERED_SCORE);
    let r = ranked(items, query);
    assert(r == p + sub + sc);
    if q.len() <= t.len() && forall|k: int| 0 <= k < q.len() ==> t[k] == q[k] {
        assert(t.take(q.len() as int) =~= q);
        assert(item_score(items[a], query) == Some(PREFIX_SCORE));
        lemma_scoring_names(items, query, PREFIX_SCORE, a);
        lemma_scoring_names(items, query, SCATTERED_SCORE, b);
        let x = choose|x: int| 0 <= x < p.len() && p[x] == items[a].id;
        let y = choose|y: int| 0 <= y < sc.len() && sc[y] == items[b].id;
        assert(r[x] == items[a].id);
        assert(r[p.len() + sub.len() + y] == items[b].id);
    } else {
        lemma_contiguous_match_score(q, t, i);
        assert(item_score(items[a], query) == Some(SUBSTRING_SCORE));
        lemma_scoring_names(items, query, SUBSTRING_SCORE, a);
        lemma_scoring_names(items, query, SCATTERED_SCORE, b);
        let x = choose|x: int| 0 <= x < sub.len() && sub[x] == items[a].id;
        let y = choose|y: int| 0 <= y < sc.len() && sc[y] == items[b].id;
        assert(r[p.len() + x] == items[a].id);
        assert(r[p.len() + sub.len() + y] == items[b].id);
    }
}

/// A search result.
#[derive(Debug, Clone)]
pub struct SearchResultEntry {
    pub item_id: u128,
    pub title: String,
    pub kind_icon: &'static str,
    pub score: u16,
}

/// The identifiers of results.
pub open spec fn result_ids(r: Seq<SearchResultEntry>) -> Seq<u128> {
    r.map_values(|e: SearchResultEntry| e.item_id)
}

/// Whether a result describes one of `items` with its score for `query`.
pub open spec fn describes(e: SearchResultEntry, items: Seq<Item>, query: Seq<char>) -> bool {
    exists|j: int|
        0 <= j < items.len() && items[j].id == e.item_id && e.title@ == items[j].title@ && e.kind_icon@
            == kind_icon_of(items[j].kind) && item_score(items[j], query) == Some(e.score)
}

/// State of the search dialog.
#[derive(Debug, Clone)]
pub struct SearchState {
    /// The query typed so far.
    pub query: String,
    /// Cursor in the query, in bytes.
    pub cursor: usize,
    /// The results, best first.
    pub results: Vec<SearchResultEntry>,
    /// Index of the highlighted result.
    pub selected: usize,
}

/// Whether the chars of `q` occur in `t` in order.
fn is_scattered_in(q: &str, t: &str) -> (r: bool)
    ensures
        r == scattered_in(q@, t@),
{
    let qn = q.unicode_len();
    let tn = t.unicode_len();
    let mut i: usize = 0;
    let mut j: usize = 0;
    assert(q@.skip(0) =~= q@);
    assert(t@.skip(0) =~= t@);
    while j < qn && i < tn
        invariant
            qn == q@.len(),
            tn == t@.len(),
            i <= tn,
            j <= qn,
            scattered_in(q@, t@) == scattered_in(q@.skip(j as int), t@.skip(i as int)),
        decreases tn - i,
    {
        let a = q.get_char(j);
        let b = t.get_char(i);
        proof {
            assert(q@.skip(j as int)[0] == a);
            assert(t@.skip(i as int)[0] == b);
            assert(q@.skip(j as int).drop_first() =~= q@.skip(j + 1));
            assert(t@.skip(i as int).drop_first() =~= t@.skip(i + 1));
        }
        if a == b {
            j = j + 1;
        }
        i = i + 1;
    }
    if j < qn {
        assert(t@.skip(i as int).len() == 0);
        assert(q@.skip(j as int).len() > 0);
    } else {
        assert(q@.skip(j as int).len() == 0);
    }
    j == qn
}

/// Whether `t` starts with `q`.
fn starts_with(q: &str, t: &str) -> (r: bool)
    ensures
        r == (q@.len() <= t@.len() && t@.take(q@.len() as int) == q@),
{
    let qn = q.unicode_len();
    let tn = t.unicode_len();
    if qn > tn {
        return false;
    }
    let mut i: usize = 0;
    while i < qn
        invariant
            qn == q@.len(),
            tn == t@.len(),
            qn <= tn,
            i <= qn,
            forall|k: int| 0 <= k < i ==> t@[k] == q@[k],
        decreases qn - i,
    {
        if q.get_char(i) != t.get_char(i) {
            assert(t@.take(qn as int)[i as int] != q@[i as int]);
            return false;
        }
        i = i + 1;
    }
    assert(t@.take(qn as int) =~= q@);
    true
}

/// The score of a title for a query, both lowercase.
fn score_title(q: &str, t: &str) -> (r: Option<u16>)
    ensures
        r == title_score(q@, t@),
{
    if starts_with(q, t) {
        Some(PREFIX_SCORE)
    } else if contains_str(t, q) {
        Some(SUBSTRING_SCORE)
    } else if is_scattered_in(q, t) {
        Some(SCATTERED_SCORE)
    } else {
        None
    }
}

/// Appends, while fewer than ten results are listed, the items scoring
/// `score`, in order.
fn collect_scoring(items: &[Item], q_lower: &str, query: Ghost<Seq<char>>, score: u16, out: &mut Vec<SearchResultEntry>)
    requires
        q_lower@ == lowercase_of(query@),
        old(out)@.len() <= MAX_RESULTS,
        forall|k: int| 0 <= k < old(out)@.len() ==> describes(#[trigger] old(out)@[k], items@, query@),
    ensures
        forall|k: int| 0 <= k < final(out)@.len() ==> describes(#[trigger] final(out)@[k], items@, query@),
        result_ids(final(out)@) == (result_ids(old(out)@) + scoring(items@, query@, score)).take(
            if old(out)@.len() + scoring(items@, query@, score).len() <= MAX_RESULTS {
                (old(out)@.len() + scoring(items@, query@, score).len()) as int
            } else {
                MAX_RESULTS as int
            },
        ),
        forall|k: int| 0 <= k < old(out)@.len() ==> final(out)@[k] == old(out)@[k],
        final(out)@.len() <= MAX_RESULTS,
{
    let ghost start = result_ids(out@);
    let mut i: usize = 0;
    assert(items@.take(0) =~= Seq::<Item>::empty());
    while i < items.len() && out.len() < MAX_RESULTS
        invariant
            q_lower@ == lowercase_of(query@),
            i <= items@.len(),
            start.len() <= out@.len() <= MAX_RESULTS,
            forall|k: int| 0 <= k < old(out)@.len() ==> out@[k] == old(out)@[k],
            start == result_ids(old(out)@),
            forall|k: int| 0 <= k < out@.len() ==> describes(#[trigger] out@[k], items@, query@),
            result_ids(out@) == start + scoring(items@.take(i as int), query@, score),
        decreases items@.len() - i,
    {
        let item = &items[i];
        assert(items@.take(i + 1).drop_last() =~= items@.take(i as int));
        assert(items@.take(i + 1).last() == items@[i as int]);
        let t = to_lowercase(item.title.as_str());
        let s = score_title(q_lower, t.as_str());
        if s == Some(score) {
            let ghost before = out@;
            out.push(SearchResultEntry {
                item_id: item.id,
                title: item.title.clone(),
                kind_icon: item.kind.icon(),
                score,
            });
            assert(result_ids(out@) =~= result_ids(before).push(item.id));
            assert(describes(out@[out@.len() - 1], items@, query@));
        }
        i = i + 1;
    }
    proof {
        lemma_scoring_prefix(items@, query@, score, i as int);
        if out@.len() < MAX_RESULTS {
            assert(items@.take(i as int) =~= items@);
            assert((start + scoring(items@, query@, score)).take(
                (start.len() + scoring(items@, query@, score).len()) as int,
            ) =~= start + scoring(items@, query@, score));
        } else {
            assert((start + scoring(items@, query@, score)).take(MAX_RESULTS as int) =~= result_ids(out@));
        }
    }
}

/// The items of a prefix that score `score` are a prefix of those of the
/// whole.
proof fn lemma_scoring_prefix(items: Seq<Item>, query: Seq<char>, score: u16, i: int)
    requires
        0 <= i <= items.len(),
    ensures
        scoring(items.take(i), query, score).len() <= scoring(items, query, score).len(),
        scoring(items.take(i), query, score) == scoring(items, query, score).take(
            scoring(items.take(i), query, score).len() as int,
        ),
    decreases items.len() - i,
{
    if i == items.len() {
        assert(items.take(i) =~= items);
        assert(scoring(items, query, score).take(scoring(items, query, score).len() as int) =~= scoring(
            items,
            query,
            score,
        ));
    } else {
        lemma_scoring_prefix(items, query, score, i + 1);
        let a = scoring(items.take(i), query, score);
        let b = scoring(items.take(i + 1), query, score);
        assert(items.take(i + 1).drop_last() =~= items.take(i));
        assert(b == a || b == a.push(items[i].id));
        assert(b.take(a.len() as int) =~= a);
        let whole = scoring(items, query, score);
        assert(whole.take(b.len() as int).take(a.len() as int) =~= whole.take(a.len() as int));
    }
}

impl Default for SearchState {
    fn default() -> (r: SearchState)
        ensures
            r.query@ == Seq::<char>::empty(),
            r.cursor == 0,
            r.results@.len() == 0,
            r.selected == 0,
            r.wf(),
    {
        let r = SearchState { query: String::new(), cursor: 0, results: Vec::new(), selected: 0 };
        proof {
            lemma_end_is_boundary(r.query@);
        }
        r
    }
}

impl SearchState {
    /// The cursor falls between two chars of the query, whose length fits
    /// in a `usize`.
    pub open spec fn wf(&self) -> bool {
        is_boundary(self.query@, self.cursor as int) && utf8_len(self.query@) <= usize::MAX
    }

    /// An empty query with no results.
    pub fn new() -> (r: SearchState)
        ensures
            r.query@ == Seq::<char>::empty(),
            r.cursor == 0,
            r.results@.len() == 0,
            r.selected == 0,
            r.wf(),
    {
        SearchState::default()
    }

    /// Types `c` at the cursor.
    pub fn insert(&mut self, c: char)
        requires
            old(self).wf(),
            utf8_len(old(self).query@) + 4 <= usize::MAX,
        ensures
            final(self).wf(),
            (final(self).query@, final(self).cursor as int) == inserted(old(self).query@, old(self).cursor as int, c),
            final(self).results == old(self).results,
            final(self).selected == old(self).selected,
    {
        let nb = insert_at_cursor(&mut self.query, self.cursor, c);
        self.cursor = nb;
    }

    /// Deletes the char before the cursor, if any.
    pub fn backspace(&mut self)
        requires
            old(self).wf(),
        ensures
            final(self).wf(),
            (final(self).query@, final(self).cursor as int) == backspaced(old(self).query@, old(self).cursor as int),
            final(self).results == old(self).results,
            final(self).selected == old(self).selected,
    {
        let nb = backspace_at_cursor(&mut self.query, self.cursor);
        self.cursor = nb;
    }

    /// Moves the cursor one char to the left, if it can.
    pub fn move_left(&mut self)
        requires
            old(self).wf(),
        ensures
            final(self).wf(),
            final(self).query == old(self).query,
            final(self).cursor == cursor_left(old(self).query@, old(self).cursor as int),
            final(self).results == old(self).results,
            final(self).selected == old(self).selected,
    {
        self.cursor = left_of(self.query.as_str(), self.cursor);
    }

    /// Moves the cursor one char to the right, if it can.
    pub fn move_right(&mut self)
        requires
            old(self).wf(),
        ensures
            final(self).wf(),
            final(self).query == old(self).query,
            final(self).cursor == cursor_right(old(self).query@, old(self).cursor as int),
            final(self).results == old(self).results,
            final(self).selected == old(self).selected,
    {
        self.cursor = right_of(self.query.as_str(), self.cursor);
    }

    /// Highlights the next result, stopping at the last.
    pub fn next_result(&mut self)
        ensures
            final(self).results == old(self).results,
            final(self).query == old(self).query,
            final(self).cursor == old(self).cursor,
            final(self).selected == (if old(self).selected + 1 < old(self).results@.len() {
                old(self).selected + 1
            } else {
                old(self).selected as int
            }),
    {
        if self.results.len() > 0 && self.selected < self.results.len() - 1 {
            self.selected = self.selected + 1;
        }
    }

    /// Highlights the previous result, stopping at the first.
    pub fn prev_result(&mut self)
        ensures
            final(self).results == old(self).results,
            final(self).query == old(self).query,
            final(self).cursor == old(self).cursor,
            final(self).selected == (if old(self).selected > 0 { old(self).selected - 1 } else { 0 }),
    {
        if self.selected > 0 {
            self.selected = self.selected - 1;
        }
    }

    /// The identifier of the highlighted result, if any.
    pub fn selected_item_id(&self) -> (r: Option<u128>)
        ensures
            r == (if self.selected < self.results@.len() {
                Some(self.results@[self.selected as int].item_id)
            } else {
                None
            }),
    {
        if self.selected < self.results.len() {
            Some(self.results[self.selected].item_id)
        } else {
            None
        }
    }

    /// Recomputes the results for the query over `items` and highlights the
    /// first; an empty query has none.
    pub fn update_results(&mut self, items: &[Item])
        ensures
            final(self).query == old(self).query,
            final(self).cursor == old(self).cursor,
            final(self).selected == 0,
            old(self).query@.len() == 0 ==> final(self).results@.len() == 0,
            old(self).query@.len() > 0 ==> result_ids(final(self).results@) == ranked(items@, old(self).query@).take(
                if ranked(items@, old(self).query@).len() <= MAX_RESULTS {
                    ranked(items@, old(self).query@).len() as int
                } else {
                    MAX_RESULTS as int
                },
            ),
            forall|k: int|
                0 <= k < final(self).results@.len() ==> describes(#[trigger] final(self).results@[k], items@, old(self).query@),
    {
        self.selected = 0;
        let mut results: Vec<SearchResultEntry> = Vec::new();
        if self.query.as_str().unicode_len() == 0 {
            self.results = results;
            return;
        }
        let q = to_lowercase(self.query.as_str());
        let ghost query = self.query@;
        collect_scoring(items, q.as_str(), Ghost(query), PREFIX_SCORE, &mut results);
        collect_scoring(items, q.as_str(), Ghost(query), SUBSTRING_SCORE, &mut results);
        collect_scoring(items, q.as_str(), Ghost(query), SCATTERED_SCORE, &mut results);
        self.results = results;
    }

    /// Empties the query and the results.
    pub fn clear(&mut self)
        ensures
            final(self).wf(),
            final(self).query@ == Seq::<char>::empty(),
            final(self).cursor == 0,
            final(self).results@.len() == 0,
            final(self).selected == 0,
    {
        self.query = String::new();
        self.cursor = 0;
        self.results = Vec::new();
        self.selected = 0;
        proof {
            lemma_end_is_boundary(self.query@);
        }
    }
}

/// Where the results (by index) and the dialog were drawn.
#[derive(Debug, Clone)]
pub struct SearchClickRegions {
    pub result_regions: Vec<(usize, ClickRegion)>,
    pub dialog_area: ClickRegion,
}

} // verus!
