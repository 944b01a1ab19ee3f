use crate::activity::{
    count_sessions, lemma_count_bound, lemma_count_step, wait_label_of, PgStatActivity, Scope,
    SessionFilter, SessionScope, WaitLabelKind,
};
use crate::text::{
    lemma_text_less_asymmetric, lemma_text_less_irreflexive, lemma_text_less_total,
    lemma_text_less_transitive, strictly_increasing, text_less, text_less_than, texts_equal,
};
use crate::series::{stack_levels, suffix_sum};
use vstd::prelude::*;

verus! {

/// The texts of a sequence of strings.
pub open spec fn texts_of_strings(v: Seq<String>) -> Seq<Seq<char>> {
    v.map_values(|s: String| s@)
}

/// How many of `labels`, from position `from` on, are the text `x`.
pub open spec fn hits(labels: Seq<Seq<char>>, x: Seq<char>, from: int) -> nat
    decreases labels.len() - from,
{
    if from < 0 || from >= labels.len() {
        0
    } else {
        (if labels[from] == x {
            1nat
        } else {
            0nat
        }) + hits(labels, x, from + 1)
    }
}

/// The number of active sessions of `rows` counted under the names of
/// `labels` from position `from` on.
pub open spec fn label_sum(
    rows: Seq<PgStatActivity>,
    kind: WaitLabelKind,
    labels: Seq<Seq<char>>,
    from: int,
    sc: Scope,
) -> nat
    decreases labels.len() - from,
{
    if from < 0 || from >= labels.len() {
        0
    } else {
        count_sessions(rows, SessionFilter::Labelled(kind, labels[from], sc)) + label_sum(
            rows,
            kind,
            labels,
            from + 1,
            sc,
        )
    }
}

/// Whether some active session of `rows` is counted under `l`.
pub open spec fn occurs_in_rows(
    rows: Seq<PgStatActivity>,
    kind: WaitLabelKind,
    l: Seq<char>,
    sc: Scope,
) -> bool {
    exists|i: int| 0 <= i < rows.len() && #[trigger] rows[i].matches(SessionFilter::Labelled(kind, l, sc))
}

/// Whether some active session of some sample is counted under `l`.
pub open spec fn occurs_in_samples(
    samples: Seq<(i64, Vec<PgStatActivity>)>,
    kind: WaitLabelKind,
    l: Seq<char>,
    sc: Scope,
) -> bool {
    exists|s: int| 0 <= s < samples.len() && occurs_in_rows(#[trigger] samples[s].1@, kind, l, sc)
}

/// The number of sessions, over all samples, that the filter takes in.
pub open spec fn count_in_samples(samples: Seq<(i64, Vec<PgStatActivity>)>, f: SessionFilter) -> nat
    decreases samples.len(),
{
    if samples.len() == 0 {
        0
    } else {
        count_in_samples(samples.drop_last(), f) + count_sessions(samples.last().1@, f)
    }
}

/// The number of sessions in all samples together.
pub open spec fn rows_in_samples(samples: Seq<(i64, Vec<PgStatActivity>)>) -> nat
    decreases samples.len(),
{
    if samples.len() == 0 {
        0
    } else {
        rows_in_samples(samples.drop_last()) + samples.last().1@.len()
    }
}

/// The largest number of active sessions in one sample; zero without samples.
pub open spec fn max_active_sessions(samples: Seq<(i64, Vec<PgStatActivity>)>, sc: Scope) -> nat
    decreases samples.len(),
{
    if samples.len() == 0 {
        0
    } else {
        let m = max_active_sessions(samples.drop_last(), sc);
        let a = count_sessions(samples.last().1@, SessionFilter::Active(sc));
        if a > m {
            a
        } else {
            m
        }
    }
}

proof fn lemma_hits_absent(labels: Seq<Seq<char>>, x: Seq<char>, from: int)
    requires
        forall|j: int| from <= j < labels.len() ==> labels[j] != x,
    ensures
        hits(labels, x, from) == 0,
    decreases labels.len() - from,
{
    if from >= 0 && from < labels.len() {
        lemma_hits_absent(labels, x, from + 1);
    }
}

/// In strictly increasing labels a text is found at most once.
pub proof fn lemma_hits_unique(labels: Seq<Seq<char>>, x: Seq<char>, from: int)
    requires
        strictly_increasing(labels),
        0 <= from,
    ensures
        hits(labels, x, from) == if exists|j: int| from <= j < labels.len() && labels[j] == x {
            1nat
        } else {
            0nat
        },
    decreases labels.len() - from,
{
    if from < labels.len() {
        lemma_hits_unique(labels, x, from + 1);
        if labels[from] == x {
            assert forall|j: int| from + 1 <= j < labels.len() implies labels[j] != x by {
                assert(text_less(labels[from], labels[j]));
                lemma_text_less_irreflexive(x);
            }
            lemma_hits_absent(labels, x, from + 1);
        }
    }
}

/// One more row adds to the label sum the number of labels it is counted under.
proof fn lemma_label_sum_step(
    rows: Seq<PgStatActivity>,
    i: int,
    kind: WaitLabelKind,
    labels: Seq<Seq<char>>,
    from: int,
    sc: Scope,
)
    requires
        0 <= i < rows.len(),
        0 <= from,
    ensures
        label_sum(rows.take(i + 1), kind, labels, from, sc) == label_sum(rows.take(i), kind, labels, from, sc)
            + if rows[i].matches(SessionFilter::Active(sc)) {
            hits(labels, wait_label_of(rows[i], kind), from)
        } else {
            0nat
        },
    decreases labels.len() - from,
{
    if from < labels.len() {
        lemma_count_step(rows, i, SessionFilter::Labelled(kind, labels[from], sc));
        lemma_label_sum_step(rows, i, kind, labels, from + 1, sc);
    }
}

/// Over strictly increasing labels, the sessions counted under some label are
/// at most the active sessions, and exactly those when every active session's
/// label is among them.
pub proof fn lemma_label_partition(
    rows: Seq<PgStatActivity>,
    kind: WaitLabelKind,
    labels: Seq<Seq<char>>,
    sc: Scope,
)
    requires
        strictly_increasing(labels),
    ensures
        label_sum(rows, kind, labels, 0, sc) <= count_sessions(rows, SessionFilter::Active(sc)),
        (forall|i: int|
            0 <= i < rows.len() && rows[i].matches(SessionFilter::Active(sc)) ==> labels.contains(
                #[trigger] wait_label_of(rows[i], kind),
            )) ==> label_sum(rows, kind, labels, 0, sc) == count_sessions(rows, SessionFilter::Active(sc)),
{
    lemma_label_partition_prefix(rows, kind, labels, rows.len() as int, sc);
    assert(rows.take(rows.len() as int) =~= rows);
}

proof fn lemma_label_sum_empty(kind: WaitLabelKind, labels: Seq<Seq<char>>, from: int, sc: Scope)
    requires
        0 <= from,
    ensures
        label_sum(Seq::empty(), kind, labels, from, sc) == 0,
    decreases labels.len() - from,
{
    if from < labels.len() {
        lemma_label_sum_empty(kind, labels, from + 1, sc);
    }
}

proof fn lemma_label_partition_prefix(
    rows: Seq<PgStatActivity>,
    kind: WaitLabelKind,
    labels: Seq<Seq<char>>,
    n: int,
    sc: Scope,
)
    requires
        strictly_increasing(labels),
        0 <= n <= rows.len(),
    ensures
        label_sum(rows.take(n), kind, labels, 0, sc) <= count_sessions(rows.take(n), SessionFilter::Active(sc)),
        (forall|i: int|
            0 <= i < rows.len() && rows[i].matches(SessionFilter::Active(sc)) ==> labels.contains(
                #[trigger] wait_label_of(rows[i], kind),
            )) ==> label_sum(rows.take(n), kind, labels, 0, sc) == count_sessions(
            rows.take(n),
            SessionFilter::Active(sc),
        ),
    decreases n,
{
    if n == 0 {
        assert(rows.take(0) =~= Seq::<PgStatActivity>::empty());
        lemma_label_sum_empty(kind, labels, 0, sc);
    } else {
        lemma_label_partition_prefix(rows, kind, labels, n - 1, sc);
        lemma_label_sum_step(rows, n - 1, kind, labels, 0, sc);
        lemma_count_step(rows, n - 1, SessionFilter::Active(sc));
        lemma_hits_unique(labels, wait_label_of(rows[n - 1], kind), 0);
        if rows[n - 1].matches(SessionFilter::Active(sc)) && labels.contains(wait_label_of(rows[n - 1], kind)) {
            let j = choose|j: int| 0 <= j < labels.len() && labels[j] == wait_label_of(rows[n - 1], kind);
            assert(labels[j] == wait_label_of(rows[n - 1], kind));
        }
    }
}

/// A suffix sum of per-label counts is the label sum from the same position.
pub(crate) proof fn lemma_suffix_sum_is_label_sum(
    c: Seq<usize>,
    rows: Seq<PgStatActivity>,
    kind: WaitLabelKind,
    labels: Seq<Seq<char>>,
    from: int,
    sc: Scope,
)
    requires
        c.len() == labels.len(),
        0 <= from,
        forall|k: int|
            0 <= k < c.len() ==> #[trigger] c[k] == count_sessions(
                rows,
                SessionFilter::Labelled(kind, labels[k], sc),
            ),
    ensures
        suffix_sum(c, from) == label_sum(rows, kind, labels, from, sc),
    decreases c.len() - from,
{
    if from < c.len() {
        lemma_suffix_sum_is_label_sum(c, rows, kind, labels, from + 1, sc);
    }
}


proof fn lemma_occurs_rows_step(
    rows: Seq<PgStatActivity>,
    i: int,
    kind: WaitLabelKind,
    x: Seq<char>,
    sc: Scope,
)
    requires
        0 <= i < rows.len(),
    ensures
        occurs_in_rows(rows.take(i + 1), kind, x, sc) == (occurs_in_rows(rows.take(i), kind, x, sc)
            || rows[i].matches(SessionFilter::Labelled(kind, x, sc))),
{
    let f = SessionFilter::Labelled(kind, x, sc);
    if occurs_in_rows(rows.take(i + 1), kind, x, sc) {
        let w = choose|w: int| 0 <= w < rows.take(i + 1).len() && #[trigger] rows.take(i + 1)[w].matches(f);
        if w < i {
            assert(rows.take(i)[w] == rows.take(i + 1)[w]);
        }
    }
    if occurs_in_rows(rows.take(i), kind, x, sc) {
        let w = choose|w: int| 0 <= w < rows.take(i).len() && #[trigger] rows.take(i)[w].matches(f);
        assert(rows.take(i + 1)[w] == rows.take(i)[w]);
    }
    if rows[i].matches(f) {
        assert(rows.take(i + 1)[i] == rows[i]);
    }
}

proof fn lemma_occurs_samples_step(
    samples: Seq<(i64, Vec<PgStatActivity>)>,
    s: int,
    kind: WaitLabelKind,
    x: Seq<char>,
    sc: Scope,
)
    requires
        0 <= s < samples.len(),
    ensures
        occurs_in_samples(samples.take(s + 1), kind, x, sc) == (occurs_in_samples(samples.take(s), kind, x, sc)
            || occurs_in_rows(samples[s].1@, kind, x, sc)),
{
    if occurs_in_samples(samples.take(s + 1), kind, x, sc) {
        let w = choose|w: int|
            0 <= w < samples.take(s + 1).len() && occurs_in_rows(#[trigger] samples.take(s + 1)[w].1@, kind, x, sc);
        if w < s {
            assert(samples.take(s)[w] == samples.take(s + 1)[w]);
        }
    }
    if occurs_in_samples(samples.take(s), kind, x, sc) {
        let w = choose|w: int|
            0 <= w < samples.take(s).len() && occurs_in_rows(#[trigger] samples.take(s)[w].1@, kind, x, sc);
        assert(samples.take(s + 1)[w] == samples.take(s)[w]);
    }
    if occurs_in_rows(samples[s].1@, kind, x, sc) {
        assert(samples.take(s + 1)[s] == samples[s]);
    }
}

pub(crate) proof fn lemma_count_in_samples_step(
    samples: Seq<(i64, Vec<PgStatActivity>)>,
    s: int,
    f: SessionFilter,
    sc: Scope,
)
    requires
        0 <= s < samples.len(),
    ensures
        count_in_samples(samples.take(s + 1), f) == count_in_samples(samples.take(s), f)
            + count_sessions(samples[s].1@, f),
        rows_in_samples(samples.take(s + 1)) == rows_in_samples(samples.take(s)) + samples[s].1@.len(),
        max_active_sessions(samples.take(s + 1), sc) == if count_sessions(samples[s].1@, SessionFilter::Active(sc))
            > max_active_sessions(samples.take(s), sc) {
            count_sessions(samples[s].1@, SessionFilter::Active(sc))
        } else {
            max_active_sessions(samples.take(s), sc)
        },
{
    assert(samples.take(s + 1).drop_last() =~= samples.take(s));
}

pub(crate) proof fn lemma_count_in_samples_bound(samples: Seq<(i64, Vec<PgStatActivity>)>, f: SessionFilter)
    ensures
        count_in_samples(samples, f) <= rows_in_samples(samples),
    decreases samples.len(),
{
    if samples.len() > 0 {
        lemma_count_in_samples_bound(samples.drop_last(), f);
        lemma_count_bound(samples.last().1@, f);
    }
}

pub(crate) proof fn lemma_rows_in_prefix(samples: Seq<(i64, Vec<PgStatActivity>)>, s: int, sc: Scope)
    requires
        0 <= s <= samples.len(),
    ensures
        rows_in_samples(samples.take(s)) <= rows_in_samples(samples),
    decreases samples.len() - s,
{
    if s < samples.len() {
        lemma_rows_in_prefix(samples, s + 1, sc);
        lemma_count_in_samples_step(samples, s, SessionFilter::Active(sc), sc);
    } else {
        assert(samples.take(s) =~= samples);
    }
}

/// Strictly increasing texts are pairwise different.
pub(crate) proof fn lemma_increasing_distinct(t: Seq<Seq<char>>, a: int, b: int)
    requires
        strictly_increasing(t),
        0 <= a < t.len(),
        0 <= b < t.len(),
        a != b,
    ensures
        t[a] != t[b],
{
    if a < b {
        assert(text_less(t[a], t[b]));
        lemma_text_less_irreflexive(t[a]);
    } else {
        assert(text_less(t[b], t[a]));
        lemma_text_less_irreflexive(t[a]);
    }
}

/// Adds `l` to strictly increasing `labels` unless it is already there.
pub(crate) fn insert_label(labels: &mut Vec<String>, l: String)
    requires
        strictly_increasing(texts_of_strings(old(labels)@)),
    ensures
        strictly_increasing(texts_of_strings(final(labels)@)),
        forall|x: Seq<char>|
            #![trigger texts_of_strings(final(labels)@).contains(x)]
            texts_of_strings(final(labels)@).contains(x) == (texts_of_strings(
                old(labels)@,
            ).contains(x) || x == l@),
{
    let ghost t0 = texts_of_strings(labels@);
    let n = labels.len();
    let mut j: usize = 0;
    let mut go = true;
    while go && j < n
        invariant
            j <= n,
            n == labels.len(),
            labels@ == old(labels)@,
            t0 == texts_of_strings(labels@),
            forall|k: int| 0 <= k < j ==> text_less(#[trigger] t0[k], l@),
            !go ==> j < n && !text_less(t0[j as int], l@),
        decreases n - j, (if go { 1int } else { 0int }),
    {
        if text_less_than(labels[j].as_str(), l.as_str()) {
            j = j + 1;
        } else {
            go = false;
        }
    }
    if j < n && texts_equal(labels[j].as_str(), l.as_str()) {
        assert forall|x: Seq<char>|
            #![trigger texts_of_strings(labels@).contains(x)]
            texts_of_strings(labels@).contains(x) == (t0.contains(x) || x == l@) by {
            if x == l@ {
                assert(t0[j as int] == x);
            }
        }
        return ;
    }
    let ghost lv = l@;
    labels.insert(j, l);
    let ghost t1 = texts_of_strings(labels@);
    proof {
        assert(t1 =~= t0.insert(j as int, lv));
        if j < n {
            lemma_text_less_total(t0[j as int], lv);
        }
        assert forall|a: int, b: int| 0 <= a < b < t1.len() implies text_less(
            #[trigger] t1[a],
            #[trigger] t1[b],
        ) by {
            if b < j {
                assert(text_less(t0[a], t0[b]));
            } else if a > j {
                assert(text_less(t0[a - 1], t0[b - 1]));
            } else if b == j {
                assert(text_less(t0[a], lv));
            } else if a < j {
                assert(text_less(t0[a], lv));
                if b - 1 > j {
                    assert(text_less(t0[j as int], t0[b - 1]));
                    lemma_text_less_transitive(lv, t0[j as int], t0[b - 1]);
                }
                lemma_text_less_transitive(t0[a], lv, t0[b - 1]);
            } else {
                if b - 1 > j {
                    assert(text_less(t0[j as int], t0[b - 1]));
                    lemma_text_less_transitive(lv, t0[j as int], t0[b - 1]);
                }
            }
        }
        assert forall|x: Seq<char>|
            #![trigger texts_of_strings(labels@).contains(x)]
            texts_of_strings(labels@).contains(x) == (t0.contains(x) || x == lv) by {
            if t1.contains(x) {
                let w = choose|w: int| 0 <= w < t1.len() && t1[w] == x;
                if w < j {
                    assert(t0[w] == x);
                } else if w > j {
                    assert(t0[w - 1] == x);
                }
            }
            if t0.contains(x) {
                let w = choose|w: int| 0 <= w < t0.len() && t0[w] == x;
                if w < j {
                    assert(t1[w] == x);
                } else {
                    assert(t1[w + 1] == x);
                }
            }
            if x == lv {
                assert(t1[j as int] == x);
            }
        }
    }
}

/// The position of `l` among `labels`, if it is there.
pub(crate) fn find_label(labels: &Vec<String>, l: &str) -> (r: Option<usize>)
    ensures
        match r {
            Some(k) => k < labels.len() && labels@[k as int]@ == l@,
            None => !texts_of_strings(labels@).contains(l@),
        },
{
    let mut k: usize = 0;
    while k < labels.len()
        invariant
            k <= labels.len(),
            forall|j: int| 0 <= j < k ==> labels@[j]@ != l@,
        decreases labels.len() - k,
    {
        if texts_equal(labels[k].as_str(), l) {
            return Some(k);
        }
        k = k + 1;
    }
    proof {
        if texts_of_strings(labels@).contains(l@) {
            let w = choose|w: int| 0 <= w < labels@.len() && texts_of_strings(labels@)[w] == l@;
            assert(labels@[w]@ == l@);
        }
    }
    None
}

/// The names under which the active sessions of all samples are counted,
/// each once, in increasing order.
pub(crate) fn collect_labels(
    samples: &Vec<(i64, Vec<PgStatActivity>)>,
    kind: WaitLabelKind,
    scope: &SessionScope,
) -> (labels: Vec<
    String,
>)
    ensures
        strictly_increasing(texts_of_strings(labels@)),
        forall|x: Seq<char>|
            #![trigger texts_of_strings(labels@).contains(x)]
            texts_of_strings(labels@).contains(x) == occurs_in_samples(samples@, kind, x, scope@),
{
    let ghost sc = scope@;
    let mut labels: Vec<String> = Vec::new();
    let mut s: usize = 0;
    assert(samples@.take(0) =~= Seq::<(i64, Vec<PgStatActivity>)>::empty());
    while s < samples.len()
        invariant
            sc == scope@,
            s <= samples.len(),
            strictly_increasing(texts_of_strings(labels@)),
            forall|x: Seq<char>|
                #![trigger texts_of_strings(labels@).contains(x)]
                texts_of_strings(labels@).contains(x) == occurs_in_samples(
                    samples@.take(s as int),
                    kind,
                    x, sc,
                ),
        decreases samples.len() - s,
    {
        let rows = &samples[s].1;
        let mut i: usize = 0;
        assert(rows@.take(0) =~= Seq::<PgStatActivity>::empty());
        while i < rows.len()
            invariant
                sc == scope@,
                s < samples.len(),
                rows@ == samples@[s as int].1@,
                i <= rows.len(),
                strictly_increasing(texts_of_strings(labels@)),
                forall|x: Seq<char>|
                    #![trigger texts_of_strings(labels@).contains(x)]
                    texts_of_strings(labels@).contains(x) == (occurs_in_samples(
                        samples@.take(s as int),
                        kind,
                        x, sc,
                    ) || occurs_in_rows(rows@.take(i as int), kind, x, sc)),
            decreases rows.len() - i,
        {
            let ghost before = texts_of_strings(labels@);
            if rows[i].is_active() && rows[i].within(scope) {
                let l = rows[i].wait_label(kind);
                insert_label(&mut labels, l);
            }
            proof {
                assert forall|x: Seq<char>|
                    #![trigger texts_of_strings(labels@).contains(x)]
                    texts_of_strings(labels@).contains(x) == (occurs_in_samples(
                        samples@.take(s as int),
                        kind,
                        x, sc,
                    ) || occurs_in_rows(rows@.take(i + 1), kind, x, sc)) by {
                    lemma_occurs_rows_step(rows@, i as int, kind, x, sc);
                    assert(before.contains(x) == (occurs_in_samples(samples@.take(s as int), kind, x, sc)
                        || occurs_in_rows(rows@.take(i as int), kind, x, sc)));
                }
            }
            i = i + 1;
        }
        proof {
            assert(rows@.take(rows.len() as int) =~= rows@);
            assert forall|x: Seq<char>|
                #![trigger texts_of_strings(labels@).contains(x)]
                texts_of_strings(labels@).contains(x) == occurs_in_samples(
                    samples@.take(s + 1),
                    kind,
                    x, sc,
                ) by {
                lemma_occurs_samples_step(samples@, s as int, kind, x, sc);
            }
        }
        s = s + 1;
    }
    assert(samples@.take(samples.len() as int) =~= samples@);
    labels
}


/// The counts of one sample under strictly increasing `labels` that cover the
/// labels of its active sessions, with the stacked levels and the number of
/// active sessions.
fn count_sample(
    rows: &Vec<PgStatActivity>,
    kind: WaitLabelKind,
    labels: &Vec<String>,
    scope: &SessionScope,
) -> (r: (
    Vec<usize>,
    Vec<usize>,
    usize,
))
    requires
        strictly_increasing(texts_of_strings(labels@)),
        forall|i: int|
            0 <= i < rows@.len() && rows@[i].matches(SessionFilter::Active(scope@)) ==> texts_of_strings(
                labels@,
            ).contains(#[trigger] wait_label_of(rows@[i], kind)),
    ensures
        r.0.len() == labels.len(),
        r.1.len() == labels.len(),
        forall|k: int|
            0 <= k < labels.len() ==> #[trigger] r.0@[k] == count_sessions(
                rows@,
                SessionFilter::Labelled(kind, labels@[k]@, scope@),
            ),
        forall|k: int| 0 <= k < labels.len() ==> #[trigger] r.1@[k] == suffix_sum(r.0@, k),
        r.2 == count_sessions(rows@, SessionFilter::Active(scope@)),
        suffix_sum(r.0@, 0) == r.2,
{
    let ghost sc = scope@;
    let ghost t = texts_of_strings(labels@);
    let n = labels.len();
    let mut c: Vec<usize> = Vec::new();
    let mut z: usize = 0;
    while z < n
        invariant
            sc == scope@,
            z <= n,
            n == labels.len(),
            c.len() == z,
            forall|k: int| 0 <= k < z ==> #[trigger] c@[k] == 0,
        decreases n - z,
    {
        c.push(0);
        z = z + 1;
    }
    let mut active: usize = 0;
    let mut i: usize = 0;
    assert(rows@.take(0) =~= Seq::<PgStatActivity>::empty());
    while i < rows.len()
        invariant
            sc == scope@,
            i <= rows.len(),
            n == labels.len(),
            c.len() == n,
            t == texts_of_strings(labels@),
            strictly_increasing(t),
            forall|i: int|
                0 <= i < rows@.len() && rows@[i].matches(SessionFilter::Active(sc)) ==> t.contains(
                    #[trigger] wait_label_of(rows@[i], kind),
                ),
            forall|k: int|
                0 <= k < n ==> #[trigger] c@[k] == count_sessions(
                    rows@.take(i as int),
                    SessionFilter::Labelled(kind, labels@[k]@, sc),
                ),
            active == count_sessions(rows@.take(i as int), SessionFilter::Active(sc)),
        decreases rows.len() - i,
    {
        proof {
            lemma_count_step(rows@, i as int, SessionFilter::Active(sc));
            lemma_count_bound(rows@.take(i as int), SessionFilter::Active(sc));
        }
        let ghost before = c@;
        if rows[i].is_active() && rows[i].within(scope) {
            let l = rows[i].wait_label(kind);
            let found = find_label(labels, l.as_str());
            assert(t.contains(wait_label_of(rows@[i as int], kind)));
            match found {
                Some(k) => {
                    proof {
                        lemma_count_bound(
                            rows@.take(i as int),
                            SessionFilter::Labelled(kind, labels@[k as int]@, sc),
                        );
                    }
                    let v = c[k] + 1;
                    c.set(k, v);
                    proof {
                        assert forall|j: int| 0 <= j < n implies #[trigger] c@[j] == count_sessions(
                            rows@.take(i + 1),
                            SessionFilter::Labelled(kind, labels@[j]@, sc),
                        ) by {
                            lemma_count_step(
                                rows@,
                                i as int,
                                SessionFilter::Labelled(kind, labels@[j]@, sc),
                            );
                            if j != k {
                                assert(t[j] == labels@[j]@);
                                assert(t[k as int] == labels@[k as int]@);
                                lemma_increasing_distinct(t, j, k as int);
                            }
                        }
                    }
                },
                None => {
                    assert(false);
                },
            }
            active = active + 1;
        } else {
            proof {
                assert forall|j: int| 0 <= j < n implies #[trigger] c@[j] == count_sessions(
                    rows@.take(i + 1),
                    SessionFilter::Labelled(kind, labels@[j]@, sc),
                ) by {
                    lemma_count_step(rows@, i as int, SessionFilter::Labelled(kind, labels@[j]@, sc));
                }
            }
        }
        i = i + 1;
    }
    assert(rows@.take(rows.len() as int) =~= rows@);
    proof {
        assert forall|k: int| 0 <= k < c@.len() implies #[trigger] c@[k] == count_sessions(
            rows@,
            SessionFilter::Labelled(kind, t[k], sc),
        ) by {
            assert(t[k] == labels@[k]@);
        }
        lemma_label_partition(rows@, kind, t, sc);
        lemma_suffix_sum_is_label_sum(c@, rows@, kind, t, 0, sc);
        lemma_count_bound(rows@, SessionFilter::Active(sc));
    }
    proof {
        assert(rows@.len() == rows.len());
    }
    let st = stack_levels(&c);
    (c, st, active)
}

/// The active session history of a series of samples: for each sample and
/// each name that some active session is counted under, how many active
/// sessions of the sample are counted under it.
///
/// `labels` holds the names in increasing order; `counts[s][k]` is the number
/// of active sessions of sample `s` under `labels[k]`, zero where there is
/// none; `stacked[s][k]` is the sum of `counts[s][j]` over `j >= k`, the upper
/// edge of the area drawn for `labels[k]`; `totals[k]` sums `counts[s][k]` over
/// the samples; `max_active` is the largest number of active sessions in one
/// sample.
pub struct ActiveSessionHistory {
    pub labels: Vec<String>,
    pub totals: Vec<usize>,
    pub timestamps: Vec<i64>,
    pub counts: Vec<Vec<usize>>,
    pub stacked: Vec<Vec<usize>>,
    pub max_active: usize,
}

impl ActiveSessionHistory {
    pub open spec fn label_texts(self) -> Seq<Seq<char>> {
        texts_of_strings(self.labels@)
    }

    /// Builds the history of `samples`, each a timestamp and the sessions
    /// sampled then, naming sessions as `kind` says.
    pub fn from_samples(
        samples: &Vec<(i64, Vec<PgStatActivity>)>,
        kind: WaitLabelKind,
        scope: &SessionScope,
    ) -> (h: Self)
        requires
            rows_in_samples(samples@) <= usize::MAX,
        ensures
            strictly_increasing(h.label_texts()),
            forall|x: Seq<char>|
                #![trigger h.label_texts().contains(x)]
                h.label_texts().contains(x) == occurs_in_samples(samples@, kind, x, scope@),
            h.totals.len() == h.labels.len(),
            forall|k: int|
                0 <= k < h.labels.len() ==> #[trigger] h.totals@[k] == count_in_samples(
                    samples@,
                    SessionFilter::Labelled(kind, h.label_texts()[k], scope@),
                ),
            h.timestamps.len() == samples.len(),
            forall|s: int| 0 <= s < samples.len() ==> #[trigger] h.timestamps@[s] == samples@[s].0,
            h.counts.len() == samples.len(),
            h.stacked.len() == samples.len(),
            forall|s: int| 0 <= s < samples.len() ==> (#[trigger] h.counts@[s]).len() == h.labels.len(),
            forall|s: int| 0 <= s < samples.len() ==> (#[trigger] h.stacked@[s]).len() == h.labels.len(),
            forall|s: int, k: int|
                0 <= s < samples.len() && 0 <= k < h.labels.len() ==> #[trigger] h.counts@[s]@[k]
                    == count_sessions(
                    samples@[s].1@,
                    SessionFilter::Labelled(kind, h.label_texts()[k], scope@),
                ),
            forall|s: int, k: int|
                0 <= s < samples.len() && 0 <= k < h.labels.len() ==> #[trigger] h.stacked@[s]@[k]
                    == suffix_sum(h.counts@[s]@, k),
            forall|s: int|
                0 <= s < samples.len() ==> suffix_sum(#[trigger] h.counts@[s]@, 0) == count_sessions(
                    samples@[s].1@,
                    SessionFilter::Active(scope@),
                ),
            h.max_active == max_active_sessions(samples@, scope@),
    {
        let ghost sc = scope@;
        let labels = collect_labels(samples, kind, scope);
        let ghost t = texts_of_strings(labels@);
        let n = labels.len();
        let mut totals: Vec<usize> = Vec::new();
        let mut z: usize = 0;
        while z < n
            invariant
                sc == scope@,
                z <= n,
                n == labels.len(),
                totals.len() == z,
                forall|k: int| 0 <= k < z ==> #[trigger] totals@[k] == 0,
            decreases n - z,
        {
            totals.push(0);
            z = z + 1;
        }
        let mut timestamps: Vec<i64> = Vec::new();
        let mut counts: Vec<Vec<usize>> = Vec::new();
        let mut stacked: Vec<Vec<usize>> = Vec::new();
        let mut max_active: usize = 0;
        let mut s: usize = 0;
        assert(samples@.take(0) =~= Seq::<(i64, Vec<PgStatActivity>)>::empty());
        while s < samples.len()
            invariant
                sc == scope@,
                s <= samples.len(),
                n == labels.len(),
                t == texts_of_strings(labels@),
                strictly_increasing(t),
                forall|x: Seq<char>|
                    #![trigger t.contains(x)]
                    t.contains(x) == occurs_in_samples(samples@, kind, x, sc),
                rows_in_samples(samples@) <= usize::MAX,
                totals.len() == n,
                forall|k: int|
                    0 <= k < n ==> #[trigger] totals@[k] == count_in_samples(
                        samples@.take(s as int),
                        SessionFilter::Labelled(kind, t[k], sc),
                    ),
                timestamps.len() == s,
                counts.len() == s,
                stacked.len() == s,
                forall|j: int| 0 <= j < s ==> #[trigger] timestamps@[j] == samples@[j].0,
                forall|j: int| 0 <= j < s ==> (#[trigger] counts@[j]).len() == n,
                forall|j: int| 0 <= j < s ==> (#[trigger] stacked@[j]).len() == n,
                forall|j: int, k: int|
                    0 <= j < s && 0 <= k < n ==> #[trigger] counts@[j]@[k] == count_sessions(
                        samples@[j].1@,
                        SessionFilter::Labelled(kind, t[k], sc),
                    ),
                forall|j: int, k: int|
                    0 <= j < s && 0 <= k < n ==> #[trigger] stacked@[j]@[k] == suffix_sum(
                        counts@[j]@,
                        k,
                    ),
                forall|j: int|
                    0 <= j < s ==> suffix_sum(#[trigger] counts@[j]@, 0) == count_sessions(
                        samples@[j].1@,
                        SessionFilter::Active(sc),
                    ),
                max_active == max_active_sessions(samples@.take(s as int), sc),
            decreases samples.len() - s,
        {
            let rows = &samples[s].1;
            proof {
                assert forall|i: int|
                    0 <= i < rows@.len() && rows@[i].matches(SessionFilter::Active(sc)) implies t.contains(
                    #[trigger] wait_label_of(rows@[i], kind),
                ) by {
                    let x = wait_label_of(rows@[i], kind);
                    assert(rows@[i].matches(SessionFilter::Labelled(kind, x, sc)));
                    assert(occurs_in_rows(samples@[s as int].1@, kind, x, sc));
                }
            }
            let (c, st, active) = count_sample(rows, kind, &labels, scope);
            proof {
                lemma_count_in_samples_step(samples@, s as int, SessionFilter::Active(sc), sc);
                lemma_rows_in_prefix(samples@, s + 1, sc);
            }
            let mut k: usize = 0;
            while k < n
                invariant
                    sc == scope@,
                    k <= n,
                    n == labels.len(),
                    t == texts_of_strings(labels@),
                    s < samples.len(),
                    rows@ == samples@[s as int].1@,
                    c.len() == n,
                    totals.len() == n,
                    rows_in_samples(samples@.take(s + 1)) <= usize::MAX,
                    forall|j: int|
                        0 <= j < n ==> #[trigger] c@[j] == count_sessions(
                            rows@,
                            SessionFilter::Labelled(kind, labels@[j]@, sc),
                        ),
                    forall|j: int|
                        k <= j < n ==> #[trigger] totals@[j] == count_in_samples(
                            samples@.take(s as int),
                            SessionFilter::Labelled(kind, t[j], sc),
                        ),
                    forall|j: int|
                        0 <= j < k ==> #[trigger] totals@[j] == count_in_samples(
                            samples@.take(s + 1),
                            SessionFilter::Labelled(kind, t[j], sc),
                        ),
                decreases n - k,
            {
                proof {
                    let f = SessionFilter::Labelled(kind, t[k as int], sc);
                    assert(t[k as int] == labels@[k as int]@);
                    lemma_count_in_samples_step(samples@, s as int, f, sc);
                    lemma_count_in_samples_bound(samples@.take(s + 1), f);
                }
                let v = totals[k] + c[k];
                totals.set(k, v);
                k = k + 1;
            }
            proof {
                assert forall|k: int| 0 <= k < n implies #[trigger] c@[k] == count_sessions(
                    samples@[s as int].1@,
                    SessionFilter::Labelled(kind, t[k], sc),
                ) by {
                    assert(t[k] == labels@[k]@);
                }
            }
            let ghost counts_before = counts@;
            let ghost stacked_before = stacked@;
            timestamps.push(samples[s].0);
            counts.push(c);
            stacked.push(st);
            proof {
                assert(counts@ == counts_before.push(c));
                assert(stacked@ == stacked_before.push(st));
                assert forall|j: int| 0 <= j < s + 1 implies (#[trigger] counts@[j]).len() == n by {
                    if j < s {
                        assert(counts@[j] == counts_before[j]);
                    }
                }
                assert forall|j: int| 0 <= j < s + 1 implies (#[trigger] stacked@[j]).len() == n by {
                    if j < s {
                        assert(stacked@[j] == stacked_before[j]);
                    }
                }
            }
            if active > max_active {
                max_active = active;
            }
            s = s + 1;
        }
        assert(samples@.take(samples.len() as int) =~= samples@);
        ActiveSessionHistory { labels, totals, timestamps, counts, stacked, max_active }
    }
}

} // verus!
