use crate::activity::{
    count_sessions, lemma_count_bound, lemma_count_step, text_equals, text_or_empty_str,
    wait_label_of, PgStatActivity, Scope, SessionFilter, SessionScope, WaitLabelKind,
};
use crate::ash::{
    collect_labels, count_in_samples, find_label, lemma_count_in_samples_bound,
    lemma_count_in_samples_step, lemma_increasing_distinct, lemma_rows_in_prefix,
    occurs_in_rows, occurs_in_samples, rows_in_samples, texts_of_strings,
};
use crate::series::{
    lemma_seq_sum_push, lemma_seq_sum_remove, lemma_seq_sum_update, seq_sum, stack_levels, suffix_sum,
};
use crate::text::{lemma_increasing_same_members, strictly_increasing, texts_equal};
use vstd::prelude::*;

verus! {

/// What the sessions of a query breakdown are grouped by.
#[derive(Debug, Clone, Copy, PartialEq, Eq)]
pub enum QueryGrouping {
    QueryId,
    QueryText,
}

/// The sessions of one group within `filter`: those whose query id (or query
/// text) is the group's key.
pub open spec fn group_scope(grouping: QueryGrouping, id: i64, text: Seq<char>, filter: Scope) -> Scope {
    match grouping {
        QueryGrouping::QueryId => Scope { query_id: Some(id), query: filter.query },
        QueryGrouping::QueryText => Scope { query_id: filter.query_id, query: Some(text) },
    }
}

/// Whether a key agrees with the filter, so that its group scope lies within
/// the filter.
pub open spec fn key_in_filter(grouping: QueryGrouping, id: i64, text: Seq<char>, filter: Scope) -> bool {
    match grouping {
        QueryGrouping::QueryId => filter.query_id matches Some(f) ==> f == id,
        QueryGrouping::QueryText => filter.query matches Some(q) ==> q == text,
    }
}

/// Whether two keys name the same group.
pub open spec fn same_key(grouping: QueryGrouping, id1: i64, text1: Seq<char>, id2: i64, text2: Seq<char>) -> bool {
    match grouping {
        QueryGrouping::QueryId => id1 == id2,
        QueryGrouping::QueryText => text1 == text2,
    }
}

/// The first session of `rows` that the filter takes in.
pub open spec fn first_in_rows(rows: Seq<PgStatActivity>, f: SessionFilter) -> Option<PgStatActivity>
    decreases rows.len(),
{
    if rows.len() == 0 {
        None
    } else {
        match first_in_rows(rows.drop_last(), f) {
            Some(r) => Some(r),
            None => if rows.last().matches(f) {
                Some(rows.last())
            } else {
                None
            },
        }
    }
}

proof fn lemma_first_in_rows_none(rows: Seq<PgStatActivity>, f: SessionFilter)
    ensures
        (first_in_rows(rows, f) is None) == (count_sessions(rows, f) == 0),
        first_in_rows(rows, f) matches Some(r) ==> r.matches(f),
    decreases rows.len(),
{
    if rows.len() > 0 {
        lemma_first_in_rows_none(rows.drop_last(), f);
    }
}

/// All sessions of all samples, in sample order.
pub open spec fn all_rows(samples: Seq<(i64, Vec<PgStatActivity>)>) -> Seq<PgStatActivity>
    decreases samples.len(),
{
    if samples.len() == 0 {
        Seq::empty()
    } else {
        all_rows(samples.drop_last()) + samples.last().1@
    }
}

/// A group's scope lies within the filter when its key agrees with it.
proof fn lemma_group_within_filter(
    grouping: QueryGrouping,
    id: i64,
    text: Seq<char>,
    filter: Scope,
    r: PgStatActivity,
)
    requires
        key_in_filter(grouping, id, text, filter),
    ensures
        r.matches(SessionFilter::Active(group_scope(grouping, id, text, filter))) ==> r.matches(
            SessionFilter::Active(filter),
        ),
        r.matches(SessionFilter::Active(group_scope(grouping, id, text, filter))) ==> same_key(
            grouping,
            id,
            text,
            r.query_id_or_zero(),
            r.query_text(),
        ),
        r.matches(SessionFilter::Active(filter)) && same_key(
            grouping,
            id,
            text,
            r.query_id_or_zero(),
            r.query_text(),
        ) ==> r.matches(SessionFilter::Active(group_scope(grouping, id, text, filter))),
{
}

proof fn lemma_count_push(seen: Seq<PgStatActivity>, r: PgStatActivity, f: SessionFilter)
    ensures
        count_sessions(seen.push(r), f) == count_sessions(seen, f) + if r.matches(f) {
            1nat
        } else {
            0nat
        },
        first_in_rows(seen.push(r), f) == match first_in_rows(seen, f) {
            Some(x) => Some(x),
            None => if r.matches(f) {
                Some(r)
            } else {
                None
            },
        },
{
    assert(seen.push(r).drop_last() =~= seen);
}

/// Sessions grouped by query while they are counted.
struct GroupTally {
    ids: Vec<i64>,
    texts: Vec<String>,
    counts: Vec<Vec<usize>>,
    totals: Vec<usize>,
}

/// The scope of group `g` of a tally.
spec fn scope_of(tally: GroupTally, g: int, grouping: QueryGrouping, filter: Scope) -> Scope {
    group_scope(grouping, tally.ids@[g], tally.texts@[g]@, filter)
}

spec fn tally_inv(
    tally: GroupTally,
    seen: Seq<PgStatActivity>,
    grouping: QueryGrouping,
    kind: WaitLabelKind,
    t: Seq<Seq<char>>,
    filter: Scope,
) -> bool {
    let n = tally.ids.len();
    &&& tally.texts.len() == n
    &&& tally.counts.len() == n
    &&& tally.totals.len() == n
    &&& seq_sum(tally.totals@) == count_sessions(seen, SessionFilter::Active(filter))
    &&& forall|g: int| 0 <= g < n ==> key_in_filter(grouping, #[trigger] tally.ids@[g], tally.texts@[g]@, filter)
    &&& forall|g: int|
        0 <= g < n ==> #[trigger] tally.totals@[g] == count_sessions(seen, SessionFilter::Active(scope_of(tally, g, grouping, filter)))
    &&& forall|g: int| 0 <= g < n ==> (#[trigger] tally.counts@[g]).len() == t.len()
    &&& forall|g: int, k: int|
        0 <= g < n && 0 <= k < t.len() ==> #[trigger] tally.counts@[g]@[k] == count_sessions(
            seen,
            SessionFilter::Labelled(kind, t[k], scope_of(tally, g, grouping, filter)),
        )
    &&& forall|g: int|
        0 <= g < n ==> ((#[trigger] first_in_rows(seen, SessionFilter::Active(scope_of(tally, g, grouping, filter)))) matches Some(r)
            && r.query_id_or_zero() == tally.ids@[g] && r.query_text() == tally.texts@[g]@)
    &&& forall|g1: int, g2: int|
        0 <= g1 < n && 0 <= g2 < n && g1 != g2 ==> !same_key(
            grouping,
            #[trigger] tally.ids@[g1],
            tally.texts@[g1]@,
            #[trigger] tally.ids@[g2],
            tally.texts@[g2]@,
        )
    &&& forall|id: i64, text: Seq<char>|
        key_in_filter(grouping, id, text, filter) && (forall|g: int|
            0 <= g < n ==> !same_key(grouping, id, text, tally.ids@[g], tally.texts@[g]@))
            ==> #[trigger] count_sessions(
            seen,
            SessionFilter::Active(group_scope(grouping, id, text, filter)),
        ) == 0
}

/// A copy of a vector of counts.
fn copy_counts(v: &Vec<usize>) -> (r: Vec<usize>)
    ensures
        r@ == v@,
{
    let mut r: Vec<usize> = Vec::new();
    let mut i: usize = 0;
    while i < v.len()
        invariant
            i <= v.len(),
            r@ == v@.take(i as int),
        decreases v.len() - i,
    {
        r.push(v[i]);
        assert(v@.take(i + 1) =~= v@.take(i as int).push(v@[i as int]));
        i = i + 1;
    }
    assert(v@.take(v.len() as int) =~= v@);
    r
}


/// The query id of a session, 0 where it is NULL.
fn query_id_of(row: &PgStatActivity) -> (r: i64)
    ensures
        r == row.query_id_or_zero(),
{
    match row.query_id {
        Some(v) => v,
        None => 0,
    }
}

/// Counts one more session into the tally.
fn absorb(
    tally: &mut GroupTally,
    row: &PgStatActivity,
    labels: &Vec<String>,
    grouping: QueryGrouping,
    kind: WaitLabelKind,
    filter: &SessionScope,
    Ghost(seen): Ghost<Seq<PgStatActivity>>,
)
    requires
        tally_inv(*old(tally), seen, grouping, kind, texts_of_strings(labels@), filter@),
        strictly_increasing(texts_of_strings(labels@)),
        row.matches(SessionFilter::Active(filter@)) ==> texts_of_strings(labels@).contains(
            wait_label_of(*row, kind),
        ),
        seen.len() < usize::MAX,
    ensures
        tally_inv(*final(tally), seen.push(*row), grouping, kind, texts_of_strings(labels@), filter@),
{
    let ghost t = texts_of_strings(labels@);
    let ghost fl = filter@;
    let ghost seen2 = seen.push(*row);
    let ghost n0 = tally.ids.len();
    proof {
        assert forall|g: int| 0 <= g < n0 implies #[trigger] tally.totals@[g] <= seen.len() by {
            lemma_count_bound(
                seen,
                SessionFilter::Active(group_scope(grouping, tally.ids@[g], tally.texts@[g]@, fl)),
            );
        }
    }
    if !(row.is_active() && row.within(filter)) {
        proof {
            lemma_count_push(seen, *row, SessionFilter::Active(fl));
            assert forall|id: i64, text: Seq<char>|
                key_in_filter(grouping, id, text, fl) implies #[trigger] count_sessions(
                seen2,
                SessionFilter::Active(group_scope(grouping, id, text, fl)),
            ) == count_sessions(seen, SessionFilter::Active(group_scope(grouping, id, text, fl))) by {
                lemma_group_within_filter(grouping, id, text, fl, *row);
                lemma_count_push(seen, *row, SessionFilter::Active(group_scope(grouping, id, text, fl)));
            }
            assert forall|g: int, k: int|
                0 <= g < n0 && 0 <= k < t.len() implies count_sessions(
                seen2,
                SessionFilter::Labelled(
                    kind,
                    t[k],
                    group_scope(grouping, tally.ids@[g], tally.texts@[g]@, fl),
                ),
            ) == count_sessions(
                seen,
                SessionFilter::Labelled(
                    kind,
                    t[k],
                    group_scope(grouping, tally.ids@[g], tally.texts@[g]@, fl),
                ),
            ) by {
                let gsc = group_scope(grouping, tally.ids@[g], tally.texts@[g]@, fl);
                lemma_group_within_filter(grouping, tally.ids@[g], tally.texts@[g]@, fl, *row);
                lemma_count_push(seen, *row, SessionFilter::Labelled(kind, t[k], gsc));
            }
            assert forall|g: int| 0 <= g < n0 implies first_in_rows(
                seen2,
                SessionFilter::Active(group_scope(grouping, tally.ids@[g], tally.texts@[g]@, fl)),
            ) == first_in_rows(
                seen,
                SessionFilter::Active(group_scope(grouping, tally.ids@[g], tally.texts@[g]@, fl)),
            ) by {
                let gsc = group_scope(grouping, tally.ids@[g], tally.texts@[g]@, fl);
                lemma_group_within_filter(grouping, tally.ids@[g], tally.texts@[g]@, fl, *row);
                lemma_count_push(seen, *row, SessionFilter::Active(gsc));
            }
        }
        return ;
    }
    let id = query_id_of(row);
    let text = text_or_empty_str(&row.query);
    let n = tally.ids.len();
    let mut g: usize = 0;
    let mut found = false;
    while g < n && !found
        invariant
            n == tally.ids.len(),
            n == tally.texts.len(),
            g <= n,
            found ==> g < n && same_key(grouping, id, text@, tally.ids@[g as int], tally.texts@[g as int]@),
            !found ==> forall|j: int|
                0 <= j < g ==> !same_key(grouping, id, text@, tally.ids@[j], tally.texts@[j]@),
        decreases n - g, (if found { 0int } else { 1int }),
    {
        let same = match grouping {
            QueryGrouping::QueryId => tally.ids[g] == id,
            QueryGrouping::QueryText => texts_equal(tally.texts[g].as_str(), text),
        };
        if same {
            found = true;
        } else {
            g = g + 1;
        }
    }
    let ghost old_tally = *tally;
    assert(old_tally == *old(tally));
    assert(tally_inv(old_tally, seen, grouping, kind, t, fl));
    if !found {
        proof {
            assert(key_in_filter(grouping, id, text@, fl));
            assert(count_sessions(seen, SessionFilter::Active(group_scope(grouping, id, text@, fl))) == 0);
            lemma_first_in_rows_none(seen, SessionFilter::Active(group_scope(grouping, id, text@, fl)));
            assert(first_in_rows(seen, SessionFilter::Active(group_scope(grouping, id, text@, fl))) is None);
            assert forall|k: int| 0 <= k < t.len() implies count_sessions(
                seen,
                SessionFilter::Labelled(kind, t[k], group_scope(grouping, id, text@, fl)),
            ) == 0 by {
                lemma_labelled_le_active(seen, kind, t[k], group_scope(grouping, id, text@, fl));
            }
        }
        let mut zeros: Vec<usize> = Vec::new();
        let mut z: usize = 0;
        while z < labels.len()
            invariant
                z <= labels.len(),
                zeros.len() == z,
                forall|k: int| 0 <= k < z ==> #[trigger] zeros@[k] == 0,
            decreases labels.len() - z,
        {
            zeros.push(0);
            z = z + 1;
        }
        tally.ids.push(id);
        tally.texts.push(text.to_owned());
        tally.counts.push(zeros);
        proof {
            lemma_seq_sum_push(tally.totals@, 0);
        }
        tally.totals.push(0);
    }
    let ghost mid = *tally;
    let ghost gsc = group_scope(grouping, id, text@, fl);
    proof {
        assert(mid.ids@[g as int] == id || !same_key(grouping, id, text@, id, text@) || true);
        assert(same_key(grouping, id, text@, mid.ids@[g as int], mid.texts@[g as int]@));
        assert(group_scope(grouping, mid.ids@[g as int], mid.texts@[g as int]@, fl) == gsc);
    }
    let l = row.wait_label(kind);
    let k = match find_label(labels, l.as_str()) {
        Some(k) => k,
        None => {
            proof {
                assert(false);
            }
            0
        },
    };
    proof {
        lemma_count_bound(seen, SessionFilter::Active(gsc));
        lemma_labelled_le_active(seen, kind, t[k as int], gsc);
    }
    let v = tally.totals[g] + 1;
    proof {
        lemma_seq_sum_update(tally.totals@, g as int, v);
        lemma_count_push(seen, *row, SessionFilter::Active(fl));
    }
    tally.totals.set(g, v);
    let mut c = copy_counts(&tally.counts[g]);
    let w = c[k] + 1;
    c.set(k, w);
    tally.counts.set(g, c);
    proof {
        let n2 = tally.ids.len() as int;
        assert forall|j: int| 0 <= j < n2 implies (#[trigger] row.matches(SessionFilter::Active(scope_of(*tally, j, grouping, fl))))
            == (j == g) by {
            lemma_group_within_filter(grouping, tally.ids@[j], tally.texts@[j]@, fl, *row);
            if j != g && row.matches(SessionFilter::Active(scope_of(*tally, j, grouping, fl))) {
                assert(same_key(grouping, tally.ids@[j], tally.texts@[j]@, id, text@));
            }
        }
        assert forall|j: int| 0 <= j < n2 implies #[trigger] tally.totals@[j] == count_sessions(
            seen2,
            SessionFilter::Active(scope_of(*tally, j, grouping, fl)),
        ) by {
            lemma_count_push(seen, *row, SessionFilter::Active(scope_of(*tally, j, grouping, fl)));
            assert(row.matches(SessionFilter::Active(scope_of(*tally, j, grouping, fl))) == (j == g));
        }
        assert forall|j: int, kk: int|
            0 <= j < n2 && 0 <= kk < t.len() implies #[trigger] tally.counts@[j]@[kk] == count_sessions(
            seen2,
            SessionFilter::Labelled(kind, t[kk], scope_of(*tally, j, grouping, fl)),
        ) by {
            lemma_count_push(seen, *row, SessionFilter::Labelled(kind, t[kk], scope_of(*tally, j, grouping, fl)));
            assert(row.matches(SessionFilter::Active(scope_of(*tally, j, grouping, fl))) == (j == g));
            if j == g && kk != k {
                assert(t[k as int] == labels@[k as int]@);
                lemma_increasing_distinct(t, kk, k as int);
            }
        }
        assert forall|j: int| 0 <= j < n2 implies ((#[trigger] first_in_rows(
            seen2,
            SessionFilter::Active(scope_of(*tally, j, grouping, fl)),
        )) matches Some(r) && r.query_id_or_zero() == tally.ids@[j] && r.query_text()
            == tally.texts@[j]@) by {
            lemma_count_push(seen, *row, SessionFilter::Active(scope_of(*tally, j, grouping, fl)));
            assert(row.matches(SessionFilter::Active(scope_of(*tally, j, grouping, fl))) == (j == g));
            if j < n0 {
                assert(tally.ids@[j] == old_tally.ids@[j]);
                assert(tally.texts@[j] == old_tally.texts@[j]);
                assert(scope_of(*tally, j, grouping, fl) == group_scope(grouping, old_tally.ids@[j], old_tally.texts@[j]@, fl));
                let fo = first_in_rows(
                    seen,
                    SessionFilter::Active(scope_of(old_tally, j, grouping, fl)),
                );
                assert(fo matches Some(r) && r.query_id_or_zero() == old_tally.ids@[j] && r.query_text()
                    == old_tally.texts@[j]@);
            } else {
                assert(j == g);
                assert(!found);
                assert(scope_of(*tally, j, grouping, fl) == gsc);
                assert(first_in_rows(seen, SessionFilter::Active(gsc)) is None);
                assert(row.query_id_or_zero() == id);
                assert(row.query_text() == text@);
            }
        }
        assert forall|id2: i64, text2: Seq<char>|
            key_in_filter(grouping, id2, text2, fl) && (forall|j: int|
                0 <= j < n2 ==> !same_key(grouping, id2, text2, tally.ids@[j], tally.texts@[j]@))
                implies #[trigger] count_sessions(
                seen2,
                SessionFilter::Active(group_scope(grouping, id2, text2, fl)),
            ) == 0 by {
            lemma_group_within_filter(grouping, id2, text2, fl, *row);
            lemma_count_push(seen, *row, SessionFilter::Active(group_scope(grouping, id2, text2, fl)));
            assert(!same_key(grouping, id2, text2, tally.ids@[g as int], tally.texts@[g as int]@));
            assert forall|j: int| 0 <= j < n0 implies !same_key(
                grouping,
                id2,
                text2,
                old_tally.ids@[j],
                old_tally.texts@[j]@,
            ) by {
                assert(tally.ids@[j] == old_tally.ids@[j]);
                assert(tally.texts@[j] == old_tally.texts@[j]);
            }
        }
    }
}

/// Within one scope, the sessions under one name are at most the sessions.
proof fn lemma_labelled_le_active(rows: Seq<PgStatActivity>, kind: WaitLabelKind, l: Seq<char>, sc: Scope)
    ensures
        count_sessions(rows, SessionFilter::Labelled(kind, l, sc)) <= count_sessions(
            rows,
            SessionFilter::Active(sc),
        ),
    decreases rows.len(),
{
    if rows.len() > 0 {
        lemma_labelled_le_active(rows.drop_last(), kind, l, sc);
    }
}


/// The sessions of one query, counted under each wait name.
///
/// `counts[k]` is the number of active sessions of the group under the `k`-th
/// name of the breakdown, `stacked[k]` the sum of `counts` from `k` on, and
/// `total` the number of active sessions of the group. For a grouping by query
/// id, `query` is the query text of the group's first session; for a grouping
/// by query text, `query_id` is the query id of the group's first session.
pub struct QueryGroup {
    pub query_id: i64,
    pub query: String,
    pub counts: Vec<usize>,
    pub stacked: Vec<usize>,
    pub total: usize,
}

/// What a group of a breakdown of `rows` holds.
pub open spec fn group_ok(
    q: QueryGroup,
    rows: Seq<PgStatActivity>,
    grouping: QueryGrouping,
    kind: WaitLabelKind,
    t: Seq<Seq<char>>,
    filter: Scope,
) -> bool {
    let sc = group_scope(grouping, q.query_id, q.query@, filter);
    &&& key_in_filter(grouping, q.query_id, q.query@, filter)
    &&& q.total == count_sessions(rows, SessionFilter::Active(sc))
    &&& q.counts.len() == t.len()
    &&& q.stacked.len() == t.len()
    &&& forall|k: int|
        0 <= k < t.len() ==> #[trigger] q.counts@[k] == count_sessions(
            rows,
            SessionFilter::Labelled(kind, t[k], sc),
        )
    &&& forall|k: int| 0 <= k < t.len() ==> #[trigger] q.stacked@[k] == suffix_sum(q.counts@, k)
    &&& suffix_sum(q.counts@, 0) == q.total
    &&& (first_in_rows(rows, SessionFilter::Active(sc)) matches Some(r) && r.query_id_or_zero()
        == q.query_id && r.query_text() == q.query@)
}

/// Whether the groups have pairwise different keys.
pub open spec fn keys_distinct(groups: Seq<QueryGroup>, grouping: QueryGrouping) -> bool {
    forall|a: int, b: int|
        0 <= a < groups.len() && 0 <= b < groups.len() && a != b ==> !same_key(
            grouping,
            #[trigger] groups[a].query_id,
            groups[a].query@,
            #[trigger] groups[b].query_id,
            groups[b].query@,
        )
}

/// Whether every key with sessions in `rows` has its group.
pub open spec fn keys_complete(
    groups: Seq<QueryGroup>,
    rows: Seq<PgStatActivity>,
    grouping: QueryGrouping,
    filter: Scope,
) -> bool {
    forall|id: i64, text: Seq<char>|
        key_in_filter(grouping, id, text, filter) && #[trigger] count_sessions(
            rows,
            SessionFilter::Active(group_scope(grouping, id, text, filter)),
        ) > 0 ==> exists|g: int|
            0 <= g < groups.len() && same_key(grouping, id, text, groups[g].query_id, groups[g].query@)
}

/// The totals of the groups.
pub open spec fn group_totals(groups: Seq<QueryGroup>) -> Seq<usize> {
    groups.map_values(|q: QueryGroup| q.total)
}

/// The groups ordered by total, largest first.
fn sort_by_total(groups: Vec<QueryGroup>) -> (r: Vec<QueryGroup>)
    ensures
        r@.to_multiset() == groups@.to_multiset(),
        forall|a: int, b: int| 0 <= a < b < r.len() ==> (#[trigger] r@[a]).total >= (#[trigger] r@[b]).total,
        seq_sum(group_totals(r@)) == seq_sum(group_totals(groups@)),
{
    broadcast use vstd::seq_lib::group_to_multiset_ensures;

    let ghost orig = groups@;
    let mut rest = groups;
    let mut out: Vec<QueryGroup> = Vec::new();
    while rest.len() > 0
        invariant
            out@.to_multiset().add(rest@.to_multiset()) == orig.to_multiset(),
            seq_sum(group_totals(out@)) + seq_sum(group_totals(rest@)) == seq_sum(group_totals(orig)),
            forall|a: int, b: int|
                0 <= a < b < out.len() ==> (#[trigger] out@[a]).total >= (#[trigger] out@[b]).total,
            forall|a: int, b: int|
                0 <= a < out.len() && 0 <= b < rest.len() ==> (#[trigger] out@[a]).total >= (
                #[trigger] rest@[b]).total,
        decreases rest.len(),
    {
        let mut m: usize = 0;
        let mut j: usize = 1;
        while j < rest.len()
            invariant
                rest.len() > 0,
                m < rest.len(),
                1 <= j <= rest.len(),
                forall|b: int| 0 <= b < j ==> rest@[m as int].total >= (#[trigger] rest@[b]).total,
            decreases rest.len() - j,
        {
            if rest[j].total > rest[m].total {
                m = j;
            }
            j = j + 1;
        }
        let ghost before = rest@;
        let x = rest.remove(m);
        proof {
            assert(group_totals(before.remove(m as int)) =~= group_totals(before).remove(m as int));
            lemma_seq_sum_remove(group_totals(before), m as int);
            assert(rest@ == before.remove(m as int));
            before.to_multiset_ensures();
            assert(before.contains(before[m as int]));
            assert(before.remove(m as int).to_multiset() =~= before.to_multiset().remove(before[m as int]));
            assert(before.to_multiset().contains(before[m as int]));
            assert forall|b: int| 0 <= b < rest.len() implies x.total >= (#[trigger] rest@[b]).total by {
                if b < m {
                    assert(rest@[b] == before[b]);
                } else {
                    assert(rest@[b] == before[b + 1]);
                }
            }
        }
        let ghost out_before = out@;
        out.push(x);
        proof {
            out_before.to_multiset_ensures();
            assert(out@ == out_before.push(x));
            assert(group_totals(out@) =~= group_totals(out_before).push(x.total));
            lemma_seq_sum_push(group_totals(out_before), x.total);
            assert(out@.to_multiset() =~= out_before.to_multiset().insert(x));
            assert(out@.to_multiset().add(rest@.to_multiset()) =~= out_before.to_multiset().add(
                before.to_multiset(),
            ));
            assert forall|a: int, b: int|
                0 <= a < out.len() && 0 <= b < rest.len() implies (#[trigger] out@[a]).total >= (
                #[trigger] rest@[b]).total by {
                if a < out.len() - 1 {
                    if b < m {
                        assert(rest@[b] == before[b]);
                    } else {
                        assert(rest@[b] == before[b + 1]);
                    }
                }
            }
        }
    }
    assert(rest@.to_multiset() =~= vstd::multiset::Multiset::empty());
    assert(group_totals(rest@) =~= Seq::<usize>::empty());
    assert(out@.to_multiset() =~= out@.to_multiset().add(rest@.to_multiset()));
    out
}


proof fn lemma_all_rows_step(samples: Seq<(i64, Vec<PgStatActivity>)>, s: int)
    requires
        0 <= s < samples.len(),
    ensures
        all_rows(samples.take(s + 1)) == all_rows(samples.take(s)) + samples[s].1@,
{
    assert(samples.take(s + 1).drop_last() =~= samples.take(s));
}

proof fn lemma_all_rows_len(samples: Seq<(i64, Vec<PgStatActivity>)>)
    ensures
        all_rows(samples).len() == rows_in_samples(samples),
    decreases samples.len(),
{
    if samples.len() > 0 {
        lemma_all_rows_len(samples.drop_last());
    }
}

/// Every session of `all_rows` comes from some sample.
proof fn lemma_all_rows_member(samples: Seq<(i64, Vec<PgStatActivity>)>, j: int)
    requires
        0 <= j < all_rows(samples).len(),
    ensures
        exists|s: int, i: int|
            0 <= s < samples.len() && 0 <= i < samples[s].1@.len() && #[trigger] samples[s].1@[i]
                == all_rows(samples)[j],
    decreases samples.len(),
{
    let prev = all_rows(samples.drop_last());
    if j < prev.len() {
        lemma_all_rows_member(samples.drop_last(), j);
        let (s, i) = choose|s: int, i: int|
            0 <= s < samples.drop_last().len() && 0 <= i < samples.drop_last()[s].1@.len()
                && #[trigger] samples.drop_last()[s].1@[i] == prev[j];
        assert(samples[s] == samples.drop_last()[s]);
        assert(samples[s].1@[i] == all_rows(samples)[j]);
    } else {
        let s = samples.len() - 1;
        let i = j - prev.len();
        assert(samples[s].1@[i] == all_rows(samples)[j]);
    }
}

/// A breakdown of the active sessions of all samples by query and wait name.
///
/// `labels` holds the wait names in increasing order; `groups` holds one group
/// per query, largest total first; `samples_max` is the largest total, zero
/// without groups.
pub struct QueryBreakdown {
    pub labels: Vec<String>,
    pub groups: Vec<QueryGroup>,
    pub samples_max: usize,
}

impl QueryBreakdown {
    pub open spec fn label_texts(self) -> Seq<Seq<char>> {
        texts_of_strings(self.labels@)
    }

    /// Breaks down the active sessions of `samples` within `filter` by query,
    /// grouping as `grouping` says and naming sessions as `kind` says.
    pub fn from_samples(
        samples: &Vec<(i64, Vec<PgStatActivity>)>,
        grouping: QueryGrouping,
        kind: WaitLabelKind,
        filter: &SessionScope,
    ) -> (b: Self)
        requires
            rows_in_samples(samples@) <= usize::MAX,
        ensures
            strictly_increasing(b.label_texts()),
            forall|x: Seq<char>|
                #![trigger b.label_texts().contains(x)]
                b.label_texts().contains(x) == occurs_in_samples(samples@, kind, x, filter@),
            forall|g: int|
                0 <= g < b.groups.len() ==> group_ok(
                    #[trigger] b.groups@[g],
                    all_rows(samples@),
                    grouping,
                    kind,
                    b.label_texts(),
                    filter@,
                ),
            keys_distinct(b.groups@, grouping),
            keys_complete(b.groups@, all_rows(samples@), grouping, filter@),
            seq_sum(group_totals(b.groups@)) == count_sessions(
                all_rows(samples@),
                SessionFilter::Active(filter@),
            ),
            forall|a: int, c: int|
                0 <= a < c < b.groups.len() ==> (#[trigger] b.groups@[a]).total >= (
                #[trigger] b.groups@[c]).total,
            forall|g: int| 0 <= g < b.groups.len() ==> b.samples_max >= (#[trigger] b.groups@[g]).total,
            b.groups.len() == 0 ==> b.samples_max == 0,
            b.groups.len() > 0 ==> exists|g: int|
                0 <= g < b.groups.len() && b.samples_max == (#[trigger] b.groups@[g]).total,
    {
        let ghost fl = filter@;
        let labels = collect_labels(samples, kind, filter);
        let ghost t = texts_of_strings(labels@);
        let mut tally = GroupTally {
            ids: Vec::new(),
            texts: Vec::new(),
            counts: Vec::new(),
            totals: Vec::new(),
        };
        let ghost mut seen: Seq<PgStatActivity> = Seq::empty();
        let mut s: usize = 0;
        assert(samples@.take(0) =~= Seq::<(i64, Vec<PgStatActivity>)>::empty());
        while s < samples.len()
            invariant
                s <= samples.len(),
                fl == filter@,
                t == texts_of_strings(labels@),
                strictly_increasing(t),
                forall|x: Seq<char>|
                    #![trigger t.contains(x)]
                    t.contains(x) == occurs_in_samples(samples@, kind, x, fl),
                rows_in_samples(samples@) <= usize::MAX,
                seen == all_rows(samples@.take(s as int)),
                tally_inv(tally, seen, grouping, kind, t, fl),
            decreases samples.len() - s,
        {
            let rows = &samples[s].1;
            proof {
                lemma_all_rows_step(samples@, s as int);
                lemma_all_rows_len(samples@.take(s + 1));
                lemma_rows_in_prefix(samples@, s + 1, fl);
                assert(samples@.take(s + 1).drop_last() =~= samples@.take(s as int));
            }
            let mut i: usize = 0;
            assert(rows@.take(0) =~= Seq::<PgStatActivity>::empty());
            while i < rows.len()
                invariant
                    s < samples.len(),
                    i <= rows.len(),
                    rows@ == samples@[s as int].1@,
                    fl == filter@,
                    t == texts_of_strings(labels@),
                    strictly_increasing(t),
                    forall|x: Seq<char>|
                        #![trigger t.contains(x)]
                        t.contains(x) == occurs_in_samples(samples@, kind, x, fl),
                    all_rows(samples@.take(s as int)).len() + rows@.len() <= usize::MAX,
                    seen == all_rows(samples@.take(s as int)) + rows@.take(i as int),
                    tally_inv(tally, seen, grouping, kind, t, fl),
                decreases rows.len() - i,
            {
                proof {
                    let r = rows@[i as int];
                    if r.matches(SessionFilter::Active(fl)) {
                        let x = wait_label_of(r, kind);
                        assert(r.matches(SessionFilter::Labelled(kind, x, fl)));
                        assert(occurs_in_rows(samples@[s as int].1@, kind, x, fl));
                        assert(t.contains(x));
                    }
                }
                absorb(&mut tally, &rows[i], &labels, grouping, kind, filter, Ghost(seen));
                proof {
                    seen = seen.push(rows@[i as int]);
                    assert(rows@.take(i + 1) =~= rows@.take(i as int).push(rows@[i as int]));
                    assert(seen =~= all_rows(samples@.take(s as int)) + rows@.take(i + 1));
                }
                i = i + 1;
            }
            proof {
                assert(rows@.take(rows.len() as int) =~= rows@);
            }
            s = s + 1;
        }
        assert(samples@.take(samples.len() as int) =~= samples@);
        let ghost rows_all = all_rows(samples@);
        proof {
            assert forall|j: int|
                0 <= j < rows_all.len() && rows_all[j].matches(SessionFilter::Active(fl)) implies t.contains(
                #[trigger] wait_label_of(rows_all[j], kind),
            ) by {
                lemma_all_rows_member(samples@, j);
                let (s, i) = choose|s: int, i: int|
                    0 <= s < samples@.len() && 0 <= i < samples@[s].1@.len()
                        && #[trigger] samples@[s].1@[i] == rows_all[j];
                let x = wait_label_of(rows_all[j], kind);
                assert(samples@[s].1@[i].matches(SessionFilter::Labelled(kind, x, fl)));
                assert(occurs_in_rows(samples@[s].1@, kind, x, fl));
            }
        }
        let n = tally.ids.len();
        let mut groups: Vec<QueryGroup> = Vec::new();
        let mut g: usize = 0;
        while g < n
            invariant
                g <= n,
                n == tally.ids.len(),
                fl == filter@,
                t == texts_of_strings(labels@),
                strictly_increasing(t),
                tally_inv(tally, rows_all, grouping, kind, t, fl),
                forall|j: int|
                    0 <= j < rows_all.len() && rows_all[j].matches(SessionFilter::Active(fl))
                        ==> t.contains(#[trigger] wait_label_of(rows_all[j], kind)),
                groups.len() == g,
                forall|j: int|
                    0 <= j < g ==> #[trigger] groups@[j].query_id == tally.ids@[j]
                        && groups@[j].query@ == tally.texts@[j]@,
                forall|j: int|
                    0 <= j < g ==> group_ok(#[trigger] groups@[j], rows_all, grouping, kind, t, fl),
                forall|j: int| 0 <= j < g ==> #[trigger] groups@[j].total == tally.totals@[j],
                seq_sum(group_totals(groups@)) == seq_sum(tally.totals@.take(g as int)),
            decreases n - g,
        {
            let ghost sc = scope_of(tally, g as int, grouping, fl);
            let c = copy_counts(&tally.counts[g]);
            proof {
                assert forall|k: int| 0 <= k < c@.len() implies #[trigger] c@[k] == count_sessions(
                    rows_all,
                    SessionFilter::Labelled(kind, t[k], sc),
                ) by {
                    assert(c@[k] == tally.counts@[g as int]@[k]);
                }
                assert forall|j: int|
                    0 <= j < rows_all.len() && rows_all[j].matches(SessionFilter::Active(sc)) implies t.contains(
                    #[trigger] wait_label_of(rows_all[j], kind),
                ) by {
                    lemma_group_within_filter(
                        grouping,
                        tally.ids@[g as int],
                        tally.texts@[g as int]@,
                        fl,
                        rows_all[j],
                    );
                }
                crate::ash::lemma_label_partition(rows_all, kind, t, sc);
                crate::ash::lemma_suffix_sum_is_label_sum(c@, rows_all, kind, t, 0, sc);
                assert(tally.totals@[g as int] == count_sessions(rows_all, SessionFilter::Active(sc)));
                assert(suffix_sum(c@, 0) == tally.totals@[g as int]);
            }
            let st = stack_levels(&c);
            let q = QueryGroup {
                query_id: tally.ids[g],
                query: tally.texts[g].clone(),
                counts: c,
                stacked: st,
                total: tally.totals[g],
            };
            let ghost gb = groups@;
            groups.push(q);
            proof {
                assert(group_totals(groups@) =~= group_totals(gb).push(tally.totals@[g as int]));
                lemma_seq_sum_push(group_totals(gb), tally.totals@[g as int]);
                assert(tally.totals@.take(g + 1).drop_last() =~= tally.totals@.take(g as int));
            }
            g = g + 1;
        }
        proof {
            assert forall|a: int, b: int|
                0 <= a < groups.len() && 0 <= b < groups.len() && a != b implies !same_key(
                grouping,
                #[trigger] groups@[a].query_id,
                groups@[a].query@,
                #[trigger] groups@[b].query_id,
                groups@[b].query@,
            ) by {
                assert(!same_key(
                    grouping,
                    tally.ids@[a],
                    tally.texts@[a]@,
                    tally.ids@[b],
                    tally.texts@[b]@,
                ));
            }
            assert forall|id: i64, text: Seq<char>|
                key_in_filter(grouping, id, text, fl) && #[trigger] count_sessions(
                    rows_all,
                    SessionFilter::Active(group_scope(grouping, id, text, fl)),
                ) > 0 implies exists|j: int|
                0 <= j < groups.len() && same_key(
                    grouping,
                    id,
                    text,
                    groups@[j].query_id,
                    groups@[j].query@,
                ) by {
                if forall|j: int|
                    0 <= j < n ==> !same_key(grouping, id, text, tally.ids@[j], tally.texts@[j]@) {
                    assert(false);
                } else {
                    let j = choose|j: int|
                        0 <= j < n && same_key(grouping, id, text, tally.ids@[j], tally.texts@[j]@);
                    assert(groups@[j].query_id == tally.ids@[j]);
                }
            }
        }
        assert(tally.totals@.take(n as int) =~= tally.totals@);
        let ghost unsorted = groups@;
        let sorted = sort_by_total(groups);
        proof {
            unsorted.to_multiset_ensures();
            sorted@.to_multiset_ensures();
            assert forall|g: int| 0 <= g < sorted.len() implies exists|p: int|
                0 <= p < unsorted.len() && #[trigger] unsorted[p] == #[trigger] sorted@[g] by {
                assert(sorted@.contains(sorted@[g]));
                assert(sorted@.to_multiset().count(sorted@[g]) > 0);
                assert(unsorted.to_multiset().count(sorted@[g]) > 0);
                assert(unsorted.contains(sorted@[g]));
            }
            assert forall|g: int|
                0 <= g < sorted.len() implies group_ok(
                #[trigger] sorted@[g],
                rows_all,
                grouping,
                kind,
                t,
                fl,
            ) by {
                let p = choose|p: int| 0 <= p < unsorted.len() && #[trigger] unsorted[p] == sorted@[g];
            }
            // no repeats survive the reordering
            assert(unsorted.no_duplicates()) by {
                assert forall|a: int, b: int|
                    0 <= a < unsorted.len() && 0 <= b < unsorted.len() && a != b implies unsorted[a]
                    != unsorted[b] by {
                    assert(!same_key(
                        grouping,
                        unsorted[a].query_id,
                        unsorted[a].query@,
                        unsorted[b].query_id,
                        unsorted[b].query@,
                    ));
                }
            }
            unsorted.lemma_multiset_has_no_duplicates();
            sorted@.lemma_multiset_has_no_duplicates_conv();
            assert forall|a: int, b: int|
                0 <= a < sorted.len() && 0 <= b < sorted.len() && a != b implies !same_key(
                grouping,
                #[trigger] sorted@[a].query_id,
                sorted@[a].query@,
                #[trigger] sorted@[b].query_id,
                sorted@[b].query@,
            ) by {
                let pa = choose|p: int| 0 <= p < unsorted.len() && #[trigger] unsorted[p] == sorted@[a];
                let pb = choose|p: int| 0 <= p < unsorted.len() && #[trigger] unsorted[p] == sorted@[b];
                if pa == pb {
                    assert(sorted@[a] == sorted@[b]);
                } else {
                    assert(!same_key(
                        grouping,
                        unsorted[pa].query_id,
                        unsorted[pa].query@,
                        unsorted[pb].query_id,
                        unsorted[pb].query@,
                    ));
                }
            }
            assert forall|id: i64, text: Seq<char>|
                key_in_filter(grouping, id, text, fl) && #[trigger] count_sessions(
                    rows_all,
                    SessionFilter::Active(group_scope(grouping, id, text, fl)),
                ) > 0 implies exists|j: int|
                0 <= j < sorted.len() && same_key(
                    grouping,
                    id,
                    text,
                    sorted@[j].query_id,
                    sorted@[j].query@,
                ) by {
                let j = choose|j: int|
                    0 <= j < unsorted.len() && same_key(
                        grouping,
                        id,
                        text,
                        unsorted[j].query_id,
                        unsorted[j].query@,
                    );
                assert(unsorted.contains(unsorted[j]));
                assert(unsorted.to_multiset().count(unsorted[j]) > 0);
                assert(sorted@.to_multiset().count(unsorted[j]) > 0);
                assert(sorted@.contains(unsorted[j]));
                let k = choose|k: int| 0 <= k < sorted.len() && sorted@[k] == unsorted[j];
                assert(same_key(grouping, id, text, sorted@[k].query_id, sorted@[k].query@));
            }
        }
        let mut samples_max: usize = 0;
        let mut g: usize = 0;
        while g < sorted.len()
            invariant
                g <= sorted.len(),
                forall|j: int| 0 <= j < g ==> samples_max >= (#[trigger] sorted@[j]).total,
                g == 0 ==> samples_max == 0,
                g > 0 ==> exists|j: int| 0 <= j < g && samples_max == (#[trigger] sorted@[j]).total,
            decreases sorted.len() - g,
        {
            if g == 0 || sorted[g].total > samples_max {
                samples_max = sorted[g].total;
            }
            g = g + 1;
        }
        QueryBreakdown { labels, groups: sorted, samples_max }
    }
}


impl QueryBreakdown {
    /// Keeps the `max` largest groups, the first ones, and gives the number of
    /// groups left out, which the graph shows as one line of others.
    pub fn keep_largest(&mut self, max: usize) -> (dropped: usize)
        ensures
            final(self).labels@ == old(self).labels@,
            final(self).samples_max == old(self).samples_max,
            old(self).groups.len() > max ==> final(self).groups@ == old(self).groups@.take(max as int)
                && dropped == old(self).groups.len() - max,
            old(self).groups.len() <= max ==> final(self).groups@ == old(self).groups@ && dropped == 0,
    {
        let n = self.groups.len();
        if n > max {
            self.groups.truncate(max);
            n - max
        } else {
            0
        }
    }
}


impl QueryBreakdown {
    /// The sum of the totals of the groups from position `from` on, the
    /// sessions of the queries that the table sums up as others; `None` where
    /// the sum does not fit a `usize`.
    pub fn total_from(&self, from: usize) -> (r: Option<usize>)
        ensures
            suffix_sum(group_totals(self.groups@), from as int) <= usize::MAX ==> r == Some(
                suffix_sum(group_totals(self.groups@), from as int) as usize,
            ),
            suffix_sum(group_totals(self.groups@), from as int) > usize::MAX ==> r is None,
    {
        let ghost t = group_totals(self.groups@);
        let n = self.groups.len();
        if from >= n {
            return Some(0);
        }
        let mut sum: usize = 0;
        let mut k: usize = n;
        while k > from
            invariant
                from < n,
                from <= k <= n,
                n == self.groups.len(),
                t == group_totals(self.groups@),
                sum == suffix_sum(t, k as int),
            decreases k,
        {
            k = k - 1;
            proof {
                assert(suffix_sum(t, k as int) == t[k as int] + suffix_sum(t, k + 1));
                lemma_suffix_sum_tail(t, from as int, k as int);
            }
            let v = self.groups[k].total;
            if sum > usize::MAX - v {
                return None;
            }
            sum = sum + v;
        }
        Some(sum)
    }
}

/// A suffix sum is at least any later suffix sum.
proof fn lemma_suffix_sum_tail(t: Seq<usize>, from: int, k: int)
    requires
        0 <= from <= k,
    ensures
        suffix_sum(t, from) >= suffix_sum(t, k),
    decreases k - from,
{
    if from < k {
        lemma_suffix_sum_tail(t, from + 1, k);
    }
}

/// The query breakdown and the session history of the same samples, naming
/// sessions the same way within the same scope, list the same wait names in
/// the same order, so that the legend of one fits the bars of the other.
pub proof fn lemma_breakdown_labels_match_history(
    samples: Seq<(i64, Vec<PgStatActivity>)>,
    kind: WaitLabelKind,
    scope: Scope,
    history_labels: Seq<Seq<char>>,
    breakdown_labels: Seq<Seq<char>>,
)
    requires
        strictly_increasing(history_labels),
        forall|x: Seq<char>|
            #![trigger history_labels.contains(x)]
            history_labels.contains(x) == occurs_in_samples(samples, kind, x, scope),
        strictly_increasing(breakdown_labels),
        forall|x: Seq<char>|
            #![trigger breakdown_labels.contains(x)]
            breakdown_labels.contains(x) == occurs_in_samples(samples, kind, x, scope),
    ensures
        history_labels == breakdown_labels,
{
    assert forall|x: Seq<char>| history_labels.contains(x) == breakdown_labels.contains(x) by {
        assert(history_labels.contains(x) == occurs_in_samples(samples, kind, x, scope));
        assert(breakdown_labels.contains(x) == occurs_in_samples(samples, kind, x, scope));
    }
    lemma_increasing_same_members(history_labels, breakdown_labels);
}

/// The counts of the groups under the `k`-th wait name.
pub open spec fn label_column(groups: Seq<QueryGroup>, k: int) -> Seq<usize> {
    groups.map_values(|q: QueryGroup| q.counts@[k])
}

/// The sessions of `rows` under name `l` within the scopes of the groups from
/// position `from` on.
pub open spec fn groups_label_sum(
    groups: Seq<QueryGroup>,
    rows: Seq<PgStatActivity>,
    grouping: QueryGrouping,
    kind: WaitLabelKind,
    l: Seq<char>,
    filter: Scope,
    from: int,
) -> nat
    decreases groups.len() - from,
{
    if from < 0 || from >= groups.len() {
        0
    } else {
        count_sessions(
            rows,
            SessionFilter::Labelled(kind, l, group_scope(grouping, groups[from].query_id, groups[from].query@, filter)),
        ) + groups_label_sum(groups, rows, grouping, kind, l, filter, from + 1)
    }
}

/// How many of the groups from position `from` on have the key of session `r`.
spec fn key_hits(groups: Seq<QueryGroup>, grouping: QueryGrouping, r: PgStatActivity, from: int) -> nat
    decreases groups.len() - from,
{
    if from < 0 || from >= groups.len() {
        0
    } else {
        (if same_key(grouping, groups[from].query_id, groups[from].query@, r.query_id_or_zero(), r.query_text()) {
            1nat
        } else {
            0nat
        }) + key_hits(groups, grouping, r, from + 1)
    }
}

proof fn lemma_key_hits(groups: Seq<QueryGroup>, grouping: QueryGrouping, r: PgStatActivity, from: int)
    requires
        keys_distinct(groups, grouping),
        0 <= from,
    ensures
        key_hits(groups, grouping, r, from) == if exists|g: int|
            from <= g < groups.len() && same_key(
                grouping,
                groups[g].query_id,
                groups[g].query@,
                r.query_id_or_zero(),
                r.query_text(),
            ) {
            1nat
        } else {
            0nat
        },
    decreases groups.len() - from,
{
    if from < groups.len() {
        lemma_key_hits(groups, grouping, r, from + 1);
        if same_key(grouping, groups[from].query_id, groups[from].query@, r.query_id_or_zero(), r.query_text()) {
            assert forall|g: int| from + 1 <= g < groups.len() implies !same_key(
                grouping,
                groups[g].query_id,
                groups[g].query@,
                r.query_id_or_zero(),
                r.query_text(),
            ) by {
                assert(!same_key(
                    grouping,
                    groups[from].query_id,
                    groups[from].query@,
                    groups[g].query_id,
                    groups[g].query@,
                ));
            }
        }
    }
}

proof fn lemma_groups_label_sum_step(
    groups: Seq<QueryGroup>,
    rows: Seq<PgStatActivity>,
    i: int,
    grouping: QueryGrouping,
    kind: WaitLabelKind,
    l: Seq<char>,
    filter: Scope,
    from: int,
)
    requires
        0 <= i < rows.len(),
        0 <= from,
        forall|g: int| 0 <= g < groups.len() ==> key_in_filter(grouping, #[trigger] groups[g].query_id, groups[g].query@, filter),
    ensures
        groups_label_sum(groups, rows.take(i + 1), grouping, kind, l, filter, from) == groups_label_sum(
            groups,
            rows.take(i),
            grouping,
            kind,
            l,
            filter,
            from,
        ) + if rows[i].matches(SessionFilter::Labelled(kind, l, filter)) {
            key_hits(groups, grouping, rows[i], from)
        } else {
            0nat
        },
    decreases groups.len() - from,
{
    if from < groups.len() {
        let g = groups[from];
        let sc = group_scope(grouping, g.query_id, g.query@, filter);
        lemma_groups_label_sum_step(groups, rows, i, grouping, kind, l, filter, from + 1);
        lemma_count_step(rows, i, SessionFilter::Labelled(kind, l, sc));
        lemma_group_within_filter(grouping, g.query_id, g.query@, filter, rows[i]);
    }
}

/// A session that a filter takes in is counted.
proof fn lemma_count_positive(rows: Seq<PgStatActivity>, i: int, f: SessionFilter)
    requires
        0 <= i < rows.len(),
        rows[i].matches(f),
    ensures
        count_sessions(rows, f) > 0,
    decreases rows.len(),
{
    if i < rows.len() - 1 {
        lemma_count_positive(rows.drop_last(), i, f);
    }
}

proof fn lemma_groups_label_sum_prefix(
    groups: Seq<QueryGroup>,
    rows: Seq<PgStatActivity>,
    grouping: QueryGrouping,
    kind: WaitLabelKind,
    l: Seq<char>,
    filter: Scope,
    n: int,
)
    requires
        0 <= n <= rows.len(),
        forall|g: int| 0 <= g < groups.len() ==> key_in_filter(grouping, #[trigger] groups[g].query_id, groups[g].query@, filter),
        keys_distinct(groups, grouping),
        keys_complete(groups, rows, grouping, filter),
    ensures
        groups_label_sum(groups, rows.take(n), grouping, kind, l, filter, 0) == count_sessions(
            rows.take(n),
            SessionFilter::Labelled(kind, l, filter),
        ),
    decreases n,
{
    if n == 0 {
        assert(rows.take(0) =~= Seq::<PgStatActivity>::empty());
        lemma_groups_label_sum_empty(groups, grouping, kind, l, filter, 0);
    } else {
        let r = rows[n - 1];
        lemma_groups_label_sum_prefix(groups, rows, grouping, kind, l, filter, n - 1);
        lemma_groups_label_sum_step(groups, rows, n - 1, grouping, kind, l, filter, 0);
        lemma_count_step(rows, n - 1, SessionFilter::Labelled(kind, l, filter));
        lemma_key_hits(groups, grouping, r, 0);
        if r.matches(SessionFilter::Labelled(kind, l, filter)) {
            let id = r.query_id_or_zero();
            let text = r.query_text();
            let sc = group_scope(grouping, id, text, filter);
            assert(key_in_filter(grouping, id, text, filter));
            lemma_group_within_filter(grouping, id, text, filter, r);
            assert(r.matches(SessionFilter::Active(sc)));
            lemma_count_positive(rows, n - 1, SessionFilter::Active(sc));
            let g = choose|g: int|
                0 <= g < groups.len() && same_key(grouping, id, text, groups[g].query_id, groups[g].query@);
            assert(same_key(grouping, groups[g].query_id, groups[g].query@, id, text));
        }
    }
}

proof fn lemma_groups_label_sum_empty(
    groups: Seq<QueryGroup>,
    grouping: QueryGrouping,
    kind: WaitLabelKind,
    l: Seq<char>,
    filter: Scope,
    from: int,
)
    requires
        0 <= from,
    ensures
        groups_label_sum(groups, Seq::empty(), grouping, kind, l, filter, from) == 0,
    decreases groups.len() - from,
{
    if from < groups.len() {
        lemma_groups_label_sum_empty(groups, grouping, kind, l, filter, from + 1);
    }
}

proof fn lemma_label_column_prefix(
    groups: Seq<QueryGroup>,
    rows: Seq<PgStatActivity>,
    grouping: QueryGrouping,
    kind: WaitLabelKind,
    t: Seq<Seq<char>>,
    filter: Scope,
    k: int,
    m: int,
)
    requires
        forall|g: int| 0 <= g < groups.len() ==> group_ok(#[trigger] groups[g], rows, grouping, kind, t, filter),
        0 <= k < t.len(),
        0 <= m <= groups.len(),
    ensures
        seq_sum(label_column(groups, k).take(m)) + groups_label_sum(groups, rows, grouping, kind, t[k], filter, m)
            == groups_label_sum(groups, rows, grouping, kind, t[k], filter, 0),
    decreases m,
{
    let c = label_column(groups, k);
    if m == 0 {
        assert(c.take(0) =~= Seq::<usize>::empty());
    } else {
        lemma_label_column_prefix(groups, rows, grouping, kind, t, filter, k, m - 1);
        assert(c.take(m).drop_last() =~= c.take(m - 1));
        assert(c.take(m).last() == c[m - 1]);
        assert(group_ok(groups[m - 1], rows, grouping, kind, t, filter));
        assert(c[m - 1] == groups[m - 1].counts@[k]);
    }
}

/// Added up over the groups of a breakdown of `rows`, the sessions under each
/// wait name are all the sessions of `rows` under that name within the
/// filter: every active session falls in exactly one group.
pub proof fn lemma_groups_partition_labels(
    groups: Seq<QueryGroup>,
    rows: Seq<PgStatActivity>,
    grouping: QueryGrouping,
    kind: WaitLabelKind,
    t: Seq<Seq<char>>,
    filter: Scope,
    k: int,
)
    requires
        forall|g: int| 0 <= g < groups.len() ==> group_ok(#[trigger] groups[g], rows, grouping, kind, t, filter),
        keys_distinct(groups, grouping),
        keys_complete(groups, rows, grouping, filter),
        0 <= k < t.len(),
    ensures
        seq_sum(label_column(groups, k)) == count_sessions(rows, SessionFilter::Labelled(kind, t[k], filter)),
{
    let n = groups.len() as int;
    assert forall|g: int| 0 <= g < groups.len() implies key_in_filter(
        grouping,
        #[trigger] groups[g].query_id,
        groups[g].query@,
        filter,
    ) by {
        assert(group_ok(groups[g], rows, grouping, kind, t, filter));
    }
    lemma_label_column_prefix(groups, rows, grouping, kind, t, filter, k, n);
    assert(label_column(groups, k).take(n) =~= label_column(groups, k));
    lemma_groups_label_sum_prefix(groups, rows, grouping, kind, t[k], filter, rows.len() as int);
    assert(rows.take(rows.len() as int) =~= rows);
}

/// Counting over two lists of rows counts over each.
proof fn lemma_count_concat(a: Seq<PgStatActivity>, b: Seq<PgStatActivity>, f: SessionFilter)
    ensures
        count_sessions(a + b, f) == count_sessions(a, f) + count_sessions(b, f),
    decreases b.len(),
{
    if b.len() == 0 {
        assert(a + b =~= a);
    } else {
        lemma_count_concat(a, b.drop_last(), f);
        assert((a + b).drop_last() =~= a + b.drop_last());
        assert((a + b).last() == b.last());
    }
}

/// Counting sample by sample counts over all sessions of the samples.
proof fn lemma_count_all_rows(samples: Seq<(i64, Vec<PgStatActivity>)>, f: SessionFilter)
    ensures
        count_in_samples(samples, f) == count_sessions(all_rows(samples), f),
    decreases samples.len(),
{
    if samples.len() > 0 {
        lemma_count_all_rows(samples.drop_last(), f);
        lemma_count_concat(all_rows(samples.drop_last()), samples.last().1@, f);
    }
}

/// The bars of a query breakdown, added up under each wait name, give the
/// total that the session history of the same samples shows for that name
/// (within the same filter, naming sessions the same way).
pub proof fn lemma_group_columns_match_history(
    samples: Seq<(i64, Vec<PgStatActivity>)>,
    groups: Seq<QueryGroup>,
    grouping: QueryGrouping,
    kind: WaitLabelKind,
    t: Seq<Seq<char>>,
    filter: Scope,
    k: int,
)
    requires
        forall|g: int|
            0 <= g < groups.len() ==> group_ok(#[trigger] groups[g], all_rows(samples), grouping, kind, t, filter),
        keys_distinct(groups, grouping),
        keys_complete(groups, all_rows(samples), grouping, filter),
        0 <= k < t.len(),
    ensures
        seq_sum(label_column(groups, k)) == count_in_samples(samples, SessionFilter::Labelled(kind, t[k], filter)),
{
    lemma_groups_partition_labels(groups, all_rows(samples), grouping, kind, t, filter, k);
    lemma_count_all_rows(samples, SessionFilter::Labelled(kind, t[k], filter));
}

} // verus!
