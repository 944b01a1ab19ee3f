use vstd::prelude::*;

verus! {

/// The sum of `c` from position `from` on.
pub open spec fn suffix_sum(c: Seq<usize>, from: int) -> nat
    decreases c.len() - from,
{
    if from < 0 || from >= c.len() {
        0
    } else {
        c[from] as nat + suffix_sum(c, from + 1)
    }
}

/// The values of field `k` across the samples.
pub open spec fn column(samples: Seq<Vec<usize>>, k: int) -> Seq<usize> {
    Seq::new(samples.len(), |s: int| samples[s]@[k])
}

/// The sum of a sequence.
pub open spec fn seq_sum(c: Seq<usize>) -> nat
    decreases c.len(),
{
    if c.len() == 0 {
        0
    } else {
        seq_sum(c.drop_last()) + c.last() as nat
    }
}

/// A suffix sum is at most the sum of the whole sequence.
pub proof fn lemma_suffix_sum_bound(c: Seq<usize>, from: int)
    requires
        0 <= from,
    ensures
        suffix_sum(c, from) <= suffix_sum(c, 0),
    decreases from,
{
    if from > 0 {
        lemma_suffix_sum_bound(c, from - 1);
    }
}

/// The smallest, largest, last and summed value of one field over the samples.
#[derive(Debug, Clone, Copy, PartialEq, Eq)]
pub struct SeriesStats {
    pub min: usize,
    pub max: usize,
    pub last: usize,
    pub sum: usize,
}

/// The upper edges of stacked areas: position `k` holds the sum of `values`
/// from `k` on, so that the area of field `k` covers every later field.
pub fn stack_levels(values: &Vec<usize>) -> (st: Vec<usize>)
    requires
        suffix_sum(values@, 0) <= usize::MAX,
    ensures
        st.len() == values.len(),
        forall|k: int| 0 <= k < values.len() ==> #[trigger] st@[k] == suffix_sum(values@, k),
{
    let n = values.len();
    let mut st: Vec<usize> = Vec::new();
    let mut z: usize = 0;
    while z < n
        invariant
            z <= n,
            st.len() == z,
        decreases n - z,
    {
        st.push(0);
        z = z + 1;
    }
    let mut k: usize = n;
    while k > 0
        invariant
            k <= n,
            n == values.len(),
            st.len() == n,
            suffix_sum(values@, 0) <= usize::MAX,
            forall|j: int| k <= j < n ==> #[trigger] st@[j] == suffix_sum(values@, j),
        decreases k,
    {
        k = k - 1;
        let next = if k + 1 < n {
            st[k + 1]
        } else {
            0
        };
        proof {
            lemma_suffix_sum_bound(values@, k as int);
            assert(suffix_sum(values@, k as int) == values@[k as int] + suffix_sum(values@, k + 1));
        }
        let v = values[k] + next;
        st.set(k, v);
    }
    st
}

/// Statistics of field `k` over non-empty `samples`, each holding the field.
pub fn field_stats(samples: &Vec<Vec<usize>>, k: usize) -> (r: SeriesStats)
    requires
        samples.len() > 0,
        forall|s: int| 0 <= s < samples.len() ==> k < (#[trigger] samples@[s]).len(),
        seq_sum(column(samples@, k as int)) <= usize::MAX,
    ensures
        forall|s: int| 0 <= s < samples.len() ==> r.min <= #[trigger] samples@[s]@[k as int],
        exists|s: int| 0 <= s < samples.len() && r.min == #[trigger] samples@[s]@[k as int],
        forall|s: int| 0 <= s < samples.len() ==> r.max >= #[trigger] samples@[s]@[k as int],
        exists|s: int| 0 <= s < samples.len() && r.max == #[trigger] samples@[s]@[k as int],
        r.last == samples@[samples.len() - 1]@[k as int],
        r.sum == seq_sum(column(samples@, k as int)),
{
    let ghost col = column(samples@, k as int);
    let first = samples[0][k];
    let mut min = first;
    let mut max = first;
    let mut sum: usize = 0;
    let mut s: usize = 0;
    assert(col.take(0) =~= Seq::<usize>::empty());
    while s < samples.len()
        invariant
            s <= samples.len(),
            samples.len() > 0,
            col == column(samples@, k as int),
            forall|j: int| 0 <= j < samples.len() ==> k < (#[trigger] samples@[j]).len(),
            seq_sum(col) <= usize::MAX,
            forall|j: int| 0 <= j < s ==> min <= #[trigger] samples@[j]@[k as int],
            exists|j: int| 0 <= j < samples.len() && min == #[trigger] samples@[j]@[k as int],
            forall|j: int| 0 <= j < s ==> max >= #[trigger] samples@[j]@[k as int],
            exists|j: int| 0 <= j < samples.len() && max == #[trigger] samples@[j]@[k as int],
            sum == seq_sum(col.take(s as int)),
        decreases samples.len() - s,
    {
        let v = samples[s][k];
        proof {
            assert(col.take(s + 1).drop_last() =~= col.take(s as int));
            assert(col[s as int] == v);
            lemma_seq_sum_prefix(col, s + 1);
        }
        if v < min {
            min = v;
        }
        if v > max {
            max = v;
        }
        sum = sum + v;
        s = s + 1;
    }
    assert(col.take(samples.len() as int) =~= col);
    SeriesStats { min, max, last: samples[samples.len() - 1][k], sum }
}

/// A prefix sums to at most the whole.
pub proof fn lemma_seq_sum_prefix(c: Seq<usize>, n: int)
    requires
        0 <= n <= c.len(),
    ensures
        seq_sum(c.take(n)) <= seq_sum(c),
    decreases c.len() - n,
{
    if n < c.len() {
        lemma_seq_sum_prefix(c, n + 1);
        assert(c.take(n + 1).drop_last() =~= c.take(n));
    } else {
        assert(c.take(n) =~= c);
    }
}

/// The series a stacked area graph draws: per field its statistics, per
/// sample the stacked levels, and the highest level over the samples.
pub struct StackedSeries {
    pub stats: Vec<SeriesStats>,
    pub stacked: Vec<Vec<usize>>,
    pub high_value: usize,
}

impl StackedSeries {
    /// Builds the series of non-empty `samples`, each holding `width` fields.
    pub fn from_samples(samples: &Vec<Vec<usize>>, width: usize) -> (r: Self)
        requires
            samples.len() > 0,
            forall|s: int| 0 <= s < samples.len() ==> (#[trigger] samples@[s]).len() == width,
            forall|s: int| 0 <= s < samples.len() ==> suffix_sum(#[trigger] samples@[s]@, 0) <= usize::MAX,
            forall|k: int| 0 <= k < width ==> seq_sum(#[trigger] column(samples@, k)) <= usize::MAX,
        ensures
            r.stats.len() == width,
            forall|k: int|
                0 <= k < width ==> {
                    let st = #[trigger] r.stats@[k];
                    &&& forall|s: int| 0 <= s < samples.len() ==> st.min <= samples@[s]@[k]
                    &&& exists|s: int| 0 <= s < samples.len() && st.min == samples@[s]@[k]
                    &&& forall|s: int| 0 <= s < samples.len() ==> st.max >= samples@[s]@[k]
                    &&& exists|s: int| 0 <= s < samples.len() && st.max == samples@[s]@[k]
                    &&& st.last == samples@[samples.len() - 1]@[k]
                    &&& st.sum == seq_sum(column(samples@, k))
                },
            r.stacked.len() == samples.len(),
            forall|s: int|
                0 <= s < samples.len() ==> (#[trigger] r.stacked@[s]).len() == width,
            forall|s: int, k: int|
                0 <= s < samples.len() && 0 <= k < width ==> #[trigger] r.stacked@[s]@[k]
                    == suffix_sum(samples@[s]@, k),
            forall|s: int| 0 <= s < samples.len() ==> r.high_value >= suffix_sum(#[trigger] samples@[s]@, 0),
            exists|s: int| 0 <= s < samples.len() && r.high_value == suffix_sum(#[trigger] samples@[s]@, 0),
    {
        let mut stats: Vec<SeriesStats> = Vec::new();
        let mut k: usize = 0;
        while k < width
            invariant
                k <= width,
                samples.len() > 0,
                forall|s: int| 0 <= s < samples.len() ==> (#[trigger] samples@[s]).len() == width,
                forall|k: int| 0 <= k < width ==> seq_sum(#[trigger] column(samples@, k)) <= usize::MAX,
                stats.len() == k,
                forall|j: int|
                    0 <= j < k ==> {
                        let st = #[trigger] stats@[j];
                        &&& forall|s: int| 0 <= s < samples.len() ==> st.min <= samples@[s]@[j]
                        &&& exists|s: int| 0 <= s < samples.len() && st.min == samples@[s]@[j]
                        &&& forall|s: int| 0 <= s < samples.len() ==> st.max >= samples@[s]@[j]
                        &&& exists|s: int| 0 <= s < samples.len() && st.max == samples@[s]@[j]
                        &&& st.last == samples@[samples.len() - 1]@[j]
                        &&& st.sum == seq_sum(column(samples@, j))
                    },
            decreases width - k,
        {
            let st = field_stats(samples, k);
            stats.push(st);
            k = k + 1;
        }
        let mut stacked: Vec<Vec<usize>> = Vec::new();
        let mut high_value: usize = 0;
        let mut s: usize = 0;
        while s < samples.len()
            invariant
                s <= samples.len(),
                samples.len() > 0,
                forall|s: int| 0 <= s < samples.len() ==> (#[trigger] samples@[s]).len() == width,
                forall|s: int| 0 <= s < samples.len() ==> suffix_sum(#[trigger] samples@[s]@, 0) <= usize::MAX,
                stacked.len() == s,
                forall|j: int| 0 <= j < s ==> (#[trigger] stacked@[j]).len() == width,
                forall|j: int, k: int|
                    0 <= j < s && 0 <= k < width ==> #[trigger] stacked@[j]@[k] == suffix_sum(
                        samples@[j]@,
                        k,
                    ),
                forall|j: int| 0 <= j < s ==> high_value >= suffix_sum(#[trigger] samples@[j]@, 0),
                s == 0 ==> high_value == 0,
                s > 0 ==> exists|j: int| 0 <= j < s && high_value == suffix_sum(#[trigger] samples@[j]@, 0),
            decreases samples.len() - s,
        {
            let levels = stack_levels(&samples[s]);
            let top = if width > 0 {
                levels[0]
            } else {
                0
            };
            assert(top == suffix_sum(samples@[s as int]@, 0));
            if s == 0 || top > high_value {
                high_value = top;
            }
            stacked.push(levels);
            s = s + 1;
        }
        StackedSeries { stats, stacked, high_value }
    }
}


/// The earliest and the latest of the sample timestamps, which span the time
/// axis of a graph; `None` without samples.
pub fn time_range(timestamps: &Vec<i64>) -> (r: Option<(i64, i64)>)
    ensures
        timestamps.len() == 0 <==> r is None,
        r matches Some((lo, hi)) ==> (forall|i: int| 0 <= i < timestamps.len() ==> lo <= #[trigger] timestamps@[i] <= hi)
            && (exists|i: int| 0 <= i < timestamps.len() && timestamps@[i] == lo)
            && (exists|i: int| 0 <= i < timestamps.len() && timestamps@[i] == hi),
{
    if timestamps.len() == 0 {
        return None;
    }
    let mut lo = timestamps[0];
    let mut hi = timestamps[0];
    let mut i: usize = 1;
    while i < timestamps.len()
        invariant
            1 <= i <= timestamps.len(),
            forall|j: int| 0 <= j < i ==> lo <= #[trigger] timestamps@[j] <= hi,
            exists|j: int| 0 <= j < timestamps.len() && timestamps@[j] == lo,
            exists|j: int| 0 <= j < timestamps.len() && timestamps@[j] == hi,
        decreases timestamps.len() - i,
    {
        let t = timestamps[i];
        if t < lo {
            lo = t;
        }
        if t > hi {
            hi = t;
        }
        i = i + 1;
    }
    Some((lo, hi))
}


/// Changing one value changes the sum by the difference.
pub proof fn lemma_seq_sum_update(c: Seq<usize>, i: int, v: usize)
    requires
        0 <= i < c.len(),
    ensures
        seq_sum(c.update(i, v)) + c[i] == seq_sum(c) + v,
    decreases c.len(),
{
    if i < c.len() - 1 {
        assert(c.update(i, v).drop_last() =~= c.drop_last().update(i, v));
        lemma_seq_sum_update(c.drop_last(), i, v);
    } else {
        assert(c.update(i, v).drop_last() =~= c.drop_last());
    }
}

/// Appending a value adds it to the sum.
pub proof fn lemma_seq_sum_push(c: Seq<usize>, v: usize)
    ensures
        seq_sum(c.push(v)) == seq_sum(c) + v,
{
    assert(c.push(v).drop_last() =~= c);
}


/// Removing a value takes it off the sum.
pub proof fn lemma_seq_sum_remove(c: Seq<usize>, i: int)
    requires
        0 <= i < c.len(),
    ensures
        seq_sum(c.remove(i)) + c[i] == seq_sum(c),
    decreases c.len(),
{
    if i < c.len() - 1 {
        assert(c.remove(i).drop_last() =~= c.drop_last().remove(i));
        lemma_seq_sum_remove(c.drop_last(), i);
    } else {
        assert(c.remove(i) =~= c.drop_last());
    }
}

} // verus!
