use vstd::prelude::*;
use vstd::string::StrSliceExecFns;

verus! {

/// Milliseconds in one minute.
pub const MILLIS_PER_MINUTE: i64 = 60000;

/// When the archiver writes: every `interval_ms` milliseconds it saves the
/// samples of the window that ends at `high_time`, then moves the window on.
#[derive(Debug, Clone, Copy, PartialEq, Eq)]
pub struct ArchiveSchedule {
    pub high_time: i64,
    pub interval_ms: i64,
}

/// The samples one archive file holds: those later than `low` and not later
/// than `high`.
#[derive(Debug, Clone, Copy, PartialEq, Eq)]
pub struct ArchiveWindow {
    pub low: i64,
    pub high: i64,
}

impl ArchiveSchedule {
    /// A schedule whose first window ends at `first_high_time`, with windows of
    /// `interval_minutes` minutes.
    pub fn new(first_high_time: i64, interval_minutes: i64) -> (r: Self)
        requires
            i64::MIN <= interval_minutes * MILLIS_PER_MINUTE <= i64::MAX,
        ensures
            r.high_time == first_high_time,
            r.interval_ms == interval_minutes * MILLIS_PER_MINUTE,
    {
        ArchiveSchedule { high_time: first_high_time, interval_ms: interval_minutes * MILLIS_PER_MINUTE }
    }

    /// The window that ends at `high_time`.
    pub open spec fn window_ending(self, high_time: int) -> ArchiveWindow {
        ArchiveWindow { low: (high_time - self.interval_ms) as i64, high: high_time as i64 }
    }

    /// The window of an archive written at `high_time` (milliseconds), the
    /// interval before it.
    pub fn window_at(&self, high_time: i64) -> (w: ArchiveWindow)
        requires
            i64::MIN <= high_time - self.interval_ms <= i64::MAX,
        ensures
            w == self.window_ending(high_time as int),
            w.low == high_time - self.interval_ms,
            w.high == high_time,
    {
        ArchiveWindow { low: high_time - self.interval_ms, high: high_time }
    }

    /// At time `now` (milliseconds): when `now` is past the end of the current
    /// window, gives that window to be saved and moves on to the next one;
    /// otherwise gives nothing and keeps the schedule.
    pub fn tick(&mut self, now: i64) -> (w: Option<ArchiveWindow>)
        requires
            i64::MIN <= old(self).high_time - old(self).interval_ms <= i64::MAX,
            i64::MIN <= old(self).high_time + old(self).interval_ms <= i64::MAX,
        ensures
            final(self).interval_ms == old(self).interval_ms,
            now > old(self).high_time ==> w == Some(old(self).window_ending(old(self).high_time as int))
                && final(self).high_time == old(self).high_time + old(self).interval_ms,
            now <= old(self).high_time ==> w is None && *final(self) == *old(self),
    {
        if now > self.high_time {
            let w = self.window_at(self.high_time);
            self.high_time = self.high_time + self.interval_ms;
            Some(w)
        } else {
            None
        }
    }
}

/// Consecutive archives adjoin: the window after a tick starts where the
/// window the tick saved ends, so that no sample falls in two archives and none
/// between two of them.
pub proof fn lemma_windows_adjoin(s: ArchiveSchedule, ts: i64)
    requires
        0 < s.interval_ms,
        i64::MIN <= s.high_time - s.interval_ms,
        s.high_time + s.interval_ms <= i64::MAX,
    ensures
        s.window_ending(s.high_time + s.interval_ms).low == s.window_ending(s.high_time as int).high,
        !(in_window(ts, s.window_ending(s.high_time as int)) && in_window(
            ts,
            s.window_ending(s.high_time + s.interval_ms),
        )),
        s.window_ending(s.high_time as int).low < ts <= s.window_ending(
            s.high_time + s.interval_ms,
        ).high ==> in_window(ts, s.window_ending(s.high_time as int)) || in_window(
            ts,
            s.window_ending(s.high_time + s.interval_ms),
        ),
{
}

/// Whether a timestamp falls in the window.
pub open spec fn in_window(ts: i64, w: ArchiveWindow) -> bool {
    w.low < ts && ts <= w.high
}

/// The positions, in order, of the timestamps that fall in the window.
pub open spec fn window_positions(timestamps: Seq<i64>, w: ArchiveWindow) -> Seq<usize>
    decreases timestamps.len(),
{
    if timestamps.len() == 0 {
        Seq::empty()
    } else {
        let prev = window_positions(timestamps.drop_last(), w);
        if in_window(timestamps.last(), w) {
            prev.push((timestamps.len() - 1) as usize)
        } else {
            prev
        }
    }
}

/// The positions, in order, of the samples whose timestamps fall in the
/// window: the samples that the archive of that window holds.
pub fn select_window(timestamps: &Vec<i64>, w: ArchiveWindow) -> (r: Vec<usize>)
    ensures
        r@ == window_positions(timestamps@, w),
{
    let mut r: Vec<usize> = Vec::new();
    let mut i: usize = 0;
    assert(timestamps@.take(0) =~= Seq::<i64>::empty());
    while i < timestamps.len()
        invariant
            i <= timestamps.len(),
            r@ == window_positions(timestamps@.take(i as int), w),
        decreases timestamps.len() - i,
    {
        assert(timestamps@.take(i + 1).drop_last() =~= timestamps@.take(i as int));
        if w.low < timestamps[i] && timestamps[i] <= w.high {
            r.push(i);
        }
        i = i + 1;
    }
    assert(timestamps@.take(timestamps.len() as int) =~= timestamps@);
    r
}


/// The pieces joined back together with a comma between each two.
pub open spec fn join_with_commas(parts: Seq<Seq<char>>) -> Seq<char>
    decreases parts.len(),
{
    if parts.len() <= 1 {
        if parts.len() == 0 {
            Seq::empty()
        } else {
            parts[0]
        }
    } else {
        join_with_commas(parts.drop_last()) + seq![','] + parts.last()
    }
}

/// Splits a comma separated list of file names at each comma. The pieces hold
/// no comma and join back into the list; an empty list gives one empty piece.
pub fn split_file_names(list: &str) -> (r: Vec<String>)
    ensures
        r.len() >= 1,
        join_with_commas(r@.map_values(|p: String| p@)) == list@,
        forall|k: int| 0 <= k < r.len() ==> !(#[trigger] r@[k]@).contains(','),
{
    let n = list.unicode_len();
    let mut parts: Vec<String> = Vec::new();
    let mut start: usize = 0;
    let mut i: usize = 0;
    while i < n
        invariant
            n == list@.len(),
            start <= i <= n,
            join_with_commas(parts@.map_values(|p: String| p@).push(list@.subrange(start as int, i as int)))
                == list@.subrange(0, i as int),
            forall|k: int| 0 <= k < parts.len() ==> !(#[trigger] parts@[k]@).contains(','),
            !list@.subrange(start as int, i as int).contains(','),
        decreases n - i,
    {
        let c = list.get_char(i);
        let ghost before = parts@.map_values(|p: String| p@);
        if c == ',' {
            let piece = list.substring_char(start, i).to_owned();
            parts.push(piece);
            proof {
                assert(parts@.map_values(|p: String| p@) =~= before.push(list@.subrange(start as int, i as int)));
                assert(list@.subrange(i + 1, i + 1) =~= Seq::<char>::empty());
                let joined = parts@.map_values(|p: String| p@).push(list@.subrange(i + 1, i + 1));
                assert(joined.drop_last() =~= parts@.map_values(|p: String| p@));
                assert(list@.subrange(0, i + 1) =~= list@.subrange(0, i as int) + seq![',']);
                assert(join_with_commas(joined) =~= join_with_commas(joined.drop_last()) + seq![','] + Seq::<char>::empty());
                assert(!list@.subrange(i + 1, i + 1).contains(','));
            }
            start = i + 1;
        } else {
            proof {
                let old_j = before.push(list@.subrange(start as int, i as int));
                let new_j = before.push(list@.subrange(start as int, i + 1));
                assert(list@.subrange(start as int, i + 1) =~= list@.subrange(start as int, i as int).push(c));
                assert(list@.subrange(0, i + 1) =~= list@.subrange(0, i as int).push(c));
                if before.len() == 0 {
                    assert(join_with_commas(new_j) == new_j[0]);
                    assert(join_with_commas(old_j) == old_j[0]);
                } else {
                    assert(new_j.drop_last() =~= before);
                    assert(old_j.drop_last() =~= before);
                    assert(join_with_commas(new_j) =~= join_with_commas(old_j).push(c));
                }
                assert(!list@.subrange(start as int, i + 1).contains(',')) by {
                    if list@.subrange(start as int, i + 1).contains(',') {
                        let sub = list@.subrange(start as int, i + 1);
                        let w = choose|w: int| 0 <= w < sub.len() && #[trigger] sub[w] == ',';
                        if w < i - start {
                            assert(list@.subrange(start as int, i as int)[w] == ',');
                        }
                    }
                }
            }
        }
        i = i + 1;
    }
    let last = list.substring_char(start, n).to_owned();
    let ghost before = parts@.map_values(|p: String| p@);
    parts.push(last);
    proof {
        assert(parts@.map_values(|p: String| p@) =~= before.push(list@.subrange(start as int, n as int)));
        assert(list@.subrange(0, n as int) =~= list@);
    }
    parts
}

} // verus!
