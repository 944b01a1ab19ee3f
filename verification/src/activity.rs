use crate::series::seq_sum;
use vstd::prelude::*;
use vstd::string::StringExecFns;

verus! {

/// One row of `pg_stat_activity`, as sampled from the cluster.
///
/// `timestamp` is the sampling moment in milliseconds since the Unix epoch;
/// the `*_time` fields are ages in seconds.
#[derive(Debug, Clone)]
pub struct PgStatActivity {
    pub timestamp: i64,
    pub datid: Option<i32>,
    pub datname: Option<String>,
    pub pid: i32,
    pub leader_pid: Option<i32>,
    pub usesysid: Option<i32>,
    pub usename: Option<String>,
    pub application_name: Option<String>,
    pub client_addr: Option<String>,
    pub client_hostname: Option<String>,
    pub client_port: Option<i32>,
    pub backend_time: Option<i64>,
    pub xact_time: Option<i64>,
    pub query_time: Option<i64>,
    pub state_time: Option<i64>,
    pub wait_event_type: Option<String>,
    pub wait_event: Option<String>,
    pub state: Option<String>,
    pub backend_xid: Option<i32>,
    pub backend_xmin: Option<i32>,
    pub query_id: Option<i64>,
    pub query: Option<String>,
    pub backend_type: Option<String>,
}

/// The text of an optional column, the empty text where the column is NULL.
pub open spec fn text_or_empty(o: Option<String>) -> Seq<char> {
    match o {
        Some(s) => s@,
        None => Seq::empty(),
    }
}

/// How the session history names what an active session is doing: by wait
/// event type alone, or by wait event type and wait event.
#[derive(Debug, Clone, Copy, PartialEq, Eq)]
pub enum WaitLabelKind {
    WaitType,
    WaitEvent,
}

/// The name under which an active session is counted. By type, a session with
/// no wait event type (or an empty one) reads `~on_cpu`; by event, the name is
/// `type:event`, and a session with neither reads `on_cpu`.
pub open spec fn wait_label_of(r: PgStatActivity, kind: WaitLabelKind) -> Seq<char> {
    let t = r.wait_type_text();
    let e = r.wait_event_text();
    match kind {
        WaitLabelKind::WaitType => if t.len() == 0 {
            "~on_cpu"@
        } else {
            t
        },
        WaitLabelKind::WaitEvent => if t.len() == 0 && e.len() == 0 {
            "on_cpu"@
        } else {
            t + ":"@ + e
        },
    }
}

/// A restriction to the sessions of one query: by query id (a NULL query id
/// reads 0), by query text (a NULL query reads as empty), or both.
pub struct Scope {
    pub query_id: Option<i64>,
    pub query: Option<Seq<char>>,
}

/// The scope that takes in every session.
pub open spec fn everything() -> Scope {
    Scope { query_id: None, query: None }
}

/// A restriction to the sessions of one query, as values: see [`Scope`].
#[derive(Debug, Clone)]
pub struct SessionScope {
    pub query_id: Option<i64>,
    pub query: Option<String>,
}

impl View for SessionScope {
    type V = Scope;

    open spec fn view(&self) -> Scope {
        Scope {
            query_id: self.query_id,
            query: match self.query {
                Some(q) => Some(q@),
                None => None,
            },
        }
    }
}

impl SessionScope {
    /// The scope that takes in every session.
    pub fn all() -> (r: Self)
        ensures
            r@ == everything(),
    {
        SessionScope { query_id: None, query: None }
    }
}

/// Which sessions a count takes in. Every filter takes active sessions only.
pub enum SessionFilter {
    /// Active sessions within the scope.
    Active(Scope),
    /// Active sessions within the scope counted under the given name.
    Labelled(WaitLabelKind, Seq<char>, Scope),
    /// Active and not waiting: no wait event type at all.
    OnCpu,
    /// Active and waiting on the given wait event type.
    WaitType(Seq<char>),
    /// Active, waiting on the given type, with the given wait event.
    WaitEvent(Seq<char>, Seq<char>),
    /// Active, waiting on the given type, with a wait event outside the list.
    UnlistedEvent(Seq<char>, Seq<Seq<char>>),
}

impl PgStatActivity {
    pub open spec fn state_text(self) -> Seq<char> {
        text_or_empty(self.state)
    }

    pub open spec fn wait_type_text(self) -> Seq<char> {
        text_or_empty(self.wait_event_type)
    }

    pub open spec fn wait_event_text(self) -> Seq<char> {
        text_or_empty(self.wait_event)
    }

    /// The query id, 0 where it is NULL.
    pub open spec fn query_id_or_zero(self) -> i64 {
        match self.query_id {
            Some(v) => v,
            None => 0,
        }
    }

    pub open spec fn query_text(self) -> Seq<char> {
        text_or_empty(self.query)
    }

    /// Whether the session belongs to the query the scope names.
    pub open spec fn in_scope(self, sc: Scope) -> bool {
        &&& (sc.query_id matches Some(id) ==> self.query_id_or_zero() == id)
        &&& (sc.query matches Some(q) ==> self.query_text() == q)
    }

    /// A session is active when its state reads `active`.
    pub open spec fn is_active_session(self) -> bool {
        self.state_text() == "active"@
    }

    pub open spec fn matches(self, f: SessionFilter) -> bool {
        self.is_active_session() && match f {
            SessionFilter::Active(sc) => self.in_scope(sc),
            SessionFilter::Labelled(kind, l, sc) => self.in_scope(sc) && wait_label_of(self, kind)
                == l,
            SessionFilter::OnCpu => self.wait_event_type is None,
            SessionFilter::WaitType(t) => self.wait_type_text() == t,
            SessionFilter::WaitEvent(t, e) => self.wait_type_text() == t && self.wait_event_text()
                == e,
            SessionFilter::UnlistedEvent(t, known) => self.wait_type_text() == t
                && !known.contains(self.wait_event_text()),
        }
    }

    /// Whether the session is active.
    pub fn is_active(&self) -> (r: bool)
        ensures
            r == self.is_active_session(),
            r == (self.state matches Some(s) && s@ == "active"@),
    {
        let r = text_equals(&self.state, "active");
        proof {
            reveal_strlit("active");
            assert("active"@.len() == 6);
        }
        r
    }

    /// Whether the session belongs to the query the scope names.
    pub fn within(&self, scope: &SessionScope) -> (r: bool)
        ensures
            r == self.in_scope(scope@),
    {
        let id_ok = match scope.query_id {
            Some(id) => {
                let mine = match self.query_id {
                    Some(v) => v,
                    None => 0,
                };
                mine == id
            },
            None => true,
        };
        let text_ok = match &scope.query {
            Some(q) => text_equals(&self.query, q.as_str()),
            None => true,
        };
        id_ok && text_ok
    }

    /// The name under which the session is counted, as [`wait_label_of`] gives it.
    pub fn wait_label(&self, kind: WaitLabelKind) -> (r: String)
        ensures
            r@ == wait_label_of(*self, kind),
    {
        let t = text_or_empty_str(&self.wait_event_type);
        let e = text_or_empty_str(&self.wait_event);
        match kind {
            WaitLabelKind::WaitType => {
                if t.is_empty() {
                    "~on_cpu".to_owned()
                } else {
                    t.to_owned()
                }
            },
            WaitLabelKind::WaitEvent => {
                if t.is_empty() && e.is_empty() {
                    "on_cpu".to_owned()
                } else {
                    let mut l = t.to_owned();
                    l.append(":");
                    l.append(e);
                    l
                }
            },
        }
    }
}

/// The number of sessions in `rows` that the filter takes in.
pub open spec fn count_sessions(rows: Seq<PgStatActivity>, f: SessionFilter) -> nat
    decreases rows.len(),
{
    if rows.len() == 0 {
        0
    } else {
        count_sessions(rows.drop_last(), f) + if rows.last().matches(f) {
            1nat
        } else {
            0nat
        }
    }
}

/// The texts of a list of string slices.
pub open spec fn texts_of(names: Seq<&str>) -> Seq<Seq<char>> {
    names.map_values(|n: &str| n@)
}

/// Counting over one more row adds one exactly when that row is taken in.
pub proof fn lemma_count_step(rows: Seq<PgStatActivity>, i: int, f: SessionFilter)
    requires
        0 <= i < rows.len(),
    ensures
        count_sessions(rows.take(i + 1), f) == count_sessions(rows.take(i), f) + if rows[i].matches(
            f,
        ) {
            1nat
        } else {
            0nat
        },
{
    assert(rows.take(i + 1).drop_last() =~= rows.take(i));
}

/// No count exceeds the number of rows.
pub proof fn lemma_count_bound(rows: Seq<PgStatActivity>, f: SessionFilter)
    ensures
        count_sessions(rows, f) <= rows.len(),
    decreases rows.len(),
{
    if rows.len() > 0 {
        lemma_count_bound(rows.drop_last(), f);
    }
}

/// The text of an optional column, empty where it is NULL.
pub fn text_or_empty_str(o: &Option<String>) -> (r: &str)
    ensures
        r@ == text_or_empty(*o),
{
    match o {
        Some(s) => s.as_str(),
        None => {
            proof {
                reveal_strlit("");
            }
            ""
        },
    }
}

/// Whether an optional column holds exactly the given text (NULL reads as empty).
pub fn text_equals(o: &Option<String>, lit: &str) -> (r: bool)
    ensures
        r == (text_or_empty(*o) == lit@),
{
    match o {
        Some(s) => {
            let t = lit.to_owned();
            let r = s.eq(&t);
            r
        },
        None => {
            let r = lit.is_empty();
            assert(r ==> lit@ =~= Seq::<char>::empty());
            r
        },
    }
}

/// The number of sessions of `rows` that are active and wait on `wait_type`.
pub fn count_wait_type(rows: &Vec<PgStatActivity>, wait_type: &str) -> (n: usize)
    ensures
        n == count_sessions(rows@, SessionFilter::WaitType(wait_type@)),
{
    let ghost f = SessionFilter::WaitType(wait_type@);
    let mut n: usize = 0;
    let mut i: usize = 0;
    while i < rows.len()
        invariant
            i <= rows.len(),
            n == count_sessions(rows@.take(i as int), f),
            f == SessionFilter::WaitType(wait_type@),
        decreases rows.len() - i,
    {
        proof {
            lemma_count_step(rows@, i as int, f);
            lemma_count_bound(rows@.take(i as int), f);
        }
        let row = &rows[i];
        if row.is_active() && text_equals(&row.wait_event_type, wait_type) {
            n = n + 1;
        }
        i = i + 1;
    }
    assert(rows@.take(rows.len() as int) =~= rows@);
    n
}

/// The number of sessions of `rows` that are active and do not wait.
pub fn count_on_cpu(rows: &Vec<PgStatActivity>) -> (n: usize)
    ensures
        n == count_sessions(rows@, SessionFilter::OnCpu),
{
    let ghost f = SessionFilter::OnCpu;
    let mut n: usize = 0;
    let mut i: usize = 0;
    while i < rows.len()
        invariant
            i <= rows.len(),
            n == count_sessions(rows@.take(i as int), f),
            f == SessionFilter::OnCpu,
        decreases rows.len() - i,
    {
        proof {
            lemma_count_step(rows@, i as int, f);
            lemma_count_bound(rows@.take(i as int), f);
        }
        let row = &rows[i];
        if row.is_active() && row.wait_event_type.is_none() {
            n = n + 1;
        }
        i = i + 1;
    }
    assert(rows@.take(rows.len() as int) =~= rows@);
    n
}


/// For each wait event of `events`, the number of sessions of `rows` that are
/// active, wait on `wait_type` and have that wait event; then, last, the number
/// of those whose wait event is none of `events` (a NULL wait event included).
pub fn count_wait_events(rows: &Vec<PgStatActivity>, wait_type: &str, events: &Vec<&str>) -> (counts:
    Vec<usize>)
    ensures
        counts.len() == events.len() + 1,
        forall|k: int|
            0 <= k < events.len() ==> #[trigger] counts@[k] == count_sessions(
                rows@,
                SessionFilter::WaitEvent(wait_type@, events@[k]@),
            ),
        counts@[events.len() as int] == count_sessions(
            rows@,
            SessionFilter::UnlistedEvent(wait_type@, texts_of(events@)),
        ),
{
    let ghost known = texts_of(events@);
    let ghost other = SessionFilter::UnlistedEvent(wait_type@, known);
    let m = events.len();
    let mut counts: Vec<usize> = Vec::new();
    let mut z: usize = 0;
    while z < m
        invariant
            z <= m,
            m == events.len(),
            counts.len() == z,
            forall|k: int| 0 <= k < z ==> #[trigger] counts@[k] == 0,
        decreases m - z,
    {
        counts.push(0);
        z = z + 1;
    }
    counts.push(0);
    let mut i: usize = 0;
    while i < rows.len()
        invariant
            i <= rows.len(),
            m == events.len(),
            counts.len() == m + 1,
            known == texts_of(events@),
            other == SessionFilter::UnlistedEvent(wait_type@, known),
            forall|k: int|
                0 <= k < m ==> #[trigger] counts@[k] == count_sessions(
                    rows@.take(i as int),
                    SessionFilter::WaitEvent(wait_type@, events@[k]@),
                ),
            counts@[m as int] == count_sessions(rows@.take(i as int), other),
        decreases rows.len() - i,
    {
        let row = &rows[i];
        let in_type = row.is_active() && text_equals(&row.wait_event_type, wait_type);
        let ghost before = counts@;
        let ghost ev = row.wait_event_text();
        proof {
            assert forall|k: int| 0 <= k < m implies #[trigger] counts@[k] <= i by {
                lemma_count_bound(
                    rows@.take(i as int),
                    SessionFilter::WaitEvent(wait_type@, events@[k]@),
                );
            }
            lemma_count_bound(rows@.take(i as int), other);
            lemma_count_step(rows@, i as int, other);
        }
        let mut found = false;
        let mut j: usize = 0;
        while j < m
            invariant
                j <= m,
                m == events.len(),
                counts.len() == m + 1,
                i < rows.len(),
                row == rows@[i as int],
                ev == row.wait_event_text(),
                in_type == (row.is_active_session() && row.wait_type_text() == wait_type@),
                forall|k: int| 0 <= k < m ==> #[trigger] before[k] <= i,
                forall|k: int|
                    0 <= k < j ==> #[trigger] counts@[k] == before[k] + if in_type && ev
                        == events@[k]@ {
                        1nat
                    } else {
                        0nat
                    },
                forall|k: int| j <= k <= m ==> #[trigger] counts@[k] == before[k],
                found == exists|k: int| 0 <= k < j && #[trigger] events@[k]@ == ev,
            decreases m - j,
        {
            let hit = text_equals(&row.wait_event, events[j]);
            if in_type && hit {
                let c = counts[j] + 1;
                counts.set(j, c);
            }
            if hit {
                found = true;
            }
            j = j + 1;
        }
        proof {
            assert(found == known.contains(ev)) by {
                if found {
                    let k = choose|k: int| 0 <= k < m && #[trigger] events@[k]@ == ev;
                    assert(known[k] == ev);
                }
                if known.contains(ev) {
                    let k = choose|k: int| 0 <= k < known.len() && known[k] == ev;
                    assert(events@[k]@ == ev);
                }
            }
        }
        if in_type && !found {
            let c = counts[m] + 1;
            counts.set(m, c);
        }
        proof {
            assert forall|k: int| 0 <= k < m implies #[trigger] counts@[k] == count_sessions(
                rows@.take(i + 1),
                SessionFilter::WaitEvent(wait_type@, events@[k]@),
            ) by {
                lemma_count_step(rows@, i as int, SessionFilter::WaitEvent(wait_type@, events@[k]@));
            }
        }
        i = i + 1;
    }
    assert(rows@.take(rows.len() as int) =~= rows@);
    counts
}


/// The key sessions are ordered by: the age of the current query, 0 where
/// there is none.
pub open spec fn query_time_key(r: PgStatActivity) -> i64 {
    match r.query_time {
        Some(v) => v,
        None => 0,
    }
}

/// Whether `out` holds the sessions of `rows`, longest running query first,
/// with sessions of equal query age in the reverse of their order in `rows`;
/// `p` tells for each position of `out` the position in `rows` it came from.
pub open spec fn ordered_by_query_time(
    out: Seq<PgStatActivity>,
    rows: Seq<PgStatActivity>,
    p: Seq<int>,
    n: int,
) -> bool {
    &&& out.len() == n
    &&& p.len() == n
    &&& p.no_duplicates()
    &&& forall|a: int| 0 <= a < n ==> 0 <= #[trigger] p[a] < rows.len() && out[a] == rows[p[a]]
    &&& forall|a: int, b: int|
        0 <= a < b < n ==> query_time_key(#[trigger] out[a]) > query_time_key(#[trigger] out[b])
            || (query_time_key(out[a]) == query_time_key(out[b]) && p[a] > p[b])
}

impl PgStatActivity {
    /// Orders a sample of sessions by the age of their current query, longest
    /// first; sessions of equal age come in the reverse of their given order,
    /// as a stable ascending sort followed by a reversal leaves them.
    pub fn order_by_query_time(rows: Vec<PgStatActivity>) -> (r: Vec<PgStatActivity>)
        ensures
            exists|p: Seq<int>| ordered_by_query_time(r@, rows@, p, rows@.len() as int),
    {
        let ghost orig = rows@;
        let mut rest = rows;
        let mut out: Vec<PgStatActivity> = Vec::new();
        let ghost mut p: Seq<int> = Seq::empty();
        while rest.len() > 0
            invariant
                rest@ == orig.take(rest.len() as int),
                rest.len() <= orig.len(),
                ordered_by_query_time(out@, orig, p, orig.len() - rest.len()),
                forall|a: int| 0 <= a < p.len() ==> #[trigger] p[a] >= rest.len(),
            decreases rest.len(),
        {
            let row = rest.pop().unwrap();
            let ghost pos = rest.len() as int;
            let key = match row.query_time {
                Some(v) => v,
                None => 0,
            };
            let mut j: usize = 0;
            let mut go = true;
            while go && j < out.len()
                invariant
                    j <= out.len(),
                    forall|a: int| 0 <= a < j ==> query_time_key(#[trigger] out@[a]) >= key,
                    !go ==> j < out.len() && query_time_key(out@[j as int]) < key,
                decreases out.len() - j, (if go { 1int } else { 0int }),
            {
                let k = match out[j].query_time {
                    Some(v) => v,
                    None => 0,
                };
                if k >= key {
                    j = j + 1;
                } else {
                    go = false;
                }
            }
            let ghost out_before = out@;
            let ghost p_before = p;
            out.insert(j, row);
            proof {
                p = p_before.insert(j as int, pos);
                assert(orig.take(pos + 1) =~= orig.take(pos).push(orig[pos]));
                assert(rest@ =~= orig.take(pos));
                assert(row == orig[pos]);
                let n1 = orig.len() - rest.len();
                assert forall|a: int| 0 <= a < n1 implies 0 <= #[trigger] p[a] < orig.len() && out@[a]
                    == orig[p[a]] by {
                    if a < j {
                        assert(p[a] == p_before[a]);
                    } else if a > j {
                        assert(p[a] == p_before[a - 1]);
                    }
                }
                assert forall|a: int, b: int|
                    0 <= a < b < n1 implies query_time_key(#[trigger] out@[a]) > query_time_key(
                    #[trigger] out@[b],
                ) || (query_time_key(out@[a]) == query_time_key(out@[b]) && p[a] > p[b]) by {
                    if b < j {
                        assert(out@[a] == out_before[a] && out@[b] == out_before[b]);
                    } else if a > j {
                        assert(out@[a] == out_before[a - 1] && out@[b] == out_before[b - 1]);
                    } else if a == j {
                        assert(out@[b] == out_before[b - 1]);
                        if b - 1 > j {
                            assert(query_time_key(out_before[j as int]) < key);
                        }
                    } else if b == j {
                        assert(out@[a] == out_before[a]);
                    } else {
                        assert(out@[a] == out_before[a] && out@[b] == out_before[b - 1]);
                    }
                }
                assert(p.no_duplicates()) by {
                    assert forall|a: int, b: int| 0 <= a < b < p.len() implies p[a] != p[b] by {
                        if a < j && b < j {
                        } else if a > j && b > j {
                        } else if a == j {
                            assert(p[b] == p_before[b - 1]);
                        } else if b == j {
                            assert(p[a] == p_before[a]);
                        } else {
                        }
                    }
                }
            }
        }
        assert(orig.take(0) =~= Seq::<PgStatActivity>::empty());
        out
    }
}


/// Whether the session waits for the client to send a request: wait event
/// type `client`, wait event `clientread` (the sampler reads both in lower
/// case).
pub open spec fn is_client_read(r: PgStatActivity) -> bool {
    r.wait_type_text() == "client"@ && r.wait_event_text() == "clientread"@
}

/// The sessions that do not wait for their client.
pub open spec fn without_client_reads(rows: Seq<PgStatActivity>) -> Seq<PgStatActivity> {
    rows.filter(|r: PgStatActivity| !is_client_read(r))
}

impl PgStatActivity {
    /// Leaves out of a sample the sessions that wait for their client, as the
    /// graphs without client reads show it; the others keep their order.
    pub fn drop_client_reads(rows: &mut Vec<PgStatActivity>)
        ensures
            final(rows)@ == without_client_reads(old(rows)@),
    {
        let ghost orig = rows@;
        let ghost pred = |r: PgStatActivity| !is_client_read(r);
        let mut i: usize = 0;
        let ghost mut j: int = 0;
        proof {
            reveal(Seq::filter);
            assert(orig.take(0) =~= Seq::<PgStatActivity>::empty());
            assert(rows@.take(0) =~= Seq::<PgStatActivity>::empty());
            assert(orig.skip(0) =~= orig);
            assert(rows@.skip(0) =~= rows@);
        }
        while i < rows.len()
            invariant
                0 <= i <= j <= orig.len(),
                pred == (|r: PgStatActivity| !is_client_read(r)),
                rows.len() == i + (orig.len() - j),
                rows@.take(i as int) == orig.take(j).filter(pred),
                rows@.skip(i as int) == orig.skip(j),
            decreases orig.len() - j,
        {
            let client = text_equals(&rows[i].wait_event_type, "client");
            let read = text_equals(&rows[i].wait_event, "clientread");
            proof {
                reveal(Seq::filter);
                assert(rows@[i as int] == rows@.skip(i as int)[0]);
                assert(orig[j] == orig.skip(j)[0]);
                assert(orig.take(j + 1).drop_last() =~= orig.take(j));
                assert(orig.take(j + 1).last() == orig[j]);
                assert(rows@[i as int] == orig[j]);
                assert(is_client_read(orig[j]) == (client && read));
                assert(pred(orig[j]) == !(client && read));
                if pred(orig[j]) {
                    assert(orig.take(j + 1).filter(pred) == orig.take(j).filter(pred).push(orig[j]));
                } else {
                    assert(orig.take(j + 1).filter(pred) == orig.take(j).filter(pred));
                }
            }
            let ghost before = rows@;
            if client && read {
                rows.remove(i);
                proof {
                    assert(rows@.take(i as int) =~= before.take(i as int));
                    assert(rows@.skip(i as int) =~= before.skip(i as int).skip(1));
                    assert(orig.skip(j + 1) =~= orig.skip(j).skip(1));
                }
            } else {
                i = i + 1;
                proof {
                    assert(rows@.take(i as int) =~= before.take(i - 1).push(before[i - 1]));
                    assert(rows@.skip(i as int) =~= before.skip(i - 1).skip(1));
                    assert(orig.skip(j + 1) =~= orig.skip(j).skip(1));
                }
            }
            proof {
                j = j + 1;
            }
        }
        proof {
            assert(rows@.take(i as int) =~= rows@);
            assert(orig.skip(j).len() == 0);
            assert(orig.take(j) =~= orig);
        }
    }
}


/// The sessions of `rows` counted under the wait events of `names` from
/// position `from` on, for wait event type `t`.
pub open spec fn event_sum(rows: Seq<PgStatActivity>, t: Seq<char>, names: Seq<Seq<char>>, from: int) -> nat
    decreases names.len() - from,
{
    if from < 0 || from >= names.len() {
        0
    } else {
        count_sessions(rows, SessionFilter::WaitEvent(t, names[from])) + event_sum(rows, t, names, from + 1)
    }
}

/// How many of `names`, from position `from` on, are `x`.
pub open spec fn name_hits(names: Seq<Seq<char>>, x: Seq<char>, from: int) -> nat
    decreases names.len() - from,
{
    if from < 0 || from >= names.len() {
        0
    } else {
        (if names[from] == x {
            1nat
        } else {
            0nat
        }) + name_hits(names, x, from + 1)
    }
}

proof fn lemma_name_hits(names: Seq<Seq<char>>, x: Seq<char>, from: int)
    requires
        names.no_duplicates(),
        0 <= from,
    ensures
        name_hits(names, x, from) == if exists|j: int| from <= j < names.len() && names[j] == x {
            1nat
        } else {
            0nat
        },
    decreases names.len() - from,
{
    if from < names.len() {
        lemma_name_hits(names, x, from + 1);
        if names[from] == x {
            assert(!exists|j: int| from + 1 <= j < names.len() && names[j] == x);
        }
    }
}

proof fn lemma_event_sum_step(rows: Seq<PgStatActivity>, i: int, t: Seq<char>, names: Seq<Seq<char>>, from: int)
    requires
        0 <= i < rows.len(),
        0 <= from,
    ensures
        event_sum(rows.take(i + 1), t, names, from) == event_sum(rows.take(i), t, names, from) + if rows[i].matches(
            SessionFilter::WaitType(t),
        ) {
            name_hits(names, rows[i].wait_event_text(), from)
        } else {
            0nat
        },
    decreases names.len() - from,
{
    if from < names.len() {
        lemma_count_step(rows, i, SessionFilter::WaitEvent(t, names[from]));
        lemma_event_sum_step(rows, i, t, names, from + 1);
    }
}

proof fn lemma_event_sum_empty(t: Seq<char>, names: Seq<Seq<char>>, from: int)
    requires
        0 <= from,
    ensures
        event_sum(Seq::empty(), t, names, from) == 0,
    decreases names.len() - from,
{
    if from < names.len() {
        lemma_event_sum_empty(t, names, from + 1);
    }
}

/// A breakdown by wait event counts every active session waiting on `t`
/// exactly once, under its wait event or as other, when the listed wait events
/// have no repeats.
pub proof fn lemma_breakdown_partition(rows: Seq<PgStatActivity>, t: Seq<char>, names: Seq<Seq<char>>)
    requires
        names.no_duplicates(),
    ensures
        event_sum(rows, t, names, 0) + count_sessions(rows, SessionFilter::UnlistedEvent(t, names))
            == count_sessions(rows, SessionFilter::WaitType(t)),
    decreases rows.len(),
{
    lemma_breakdown_partition_prefix(rows, t, names, rows.len() as int);
    assert(rows.take(rows.len() as int) =~= rows);
}

proof fn lemma_breakdown_partition_prefix(rows: Seq<PgStatActivity>, t: Seq<char>, names: Seq<Seq<char>>, n: int)
    requires
        names.no_duplicates(),
        0 <= n <= rows.len(),
    ensures
        event_sum(rows.take(n), t, names, 0) + count_sessions(
            rows.take(n),
            SessionFilter::UnlistedEvent(t, names),
        ) == count_sessions(rows.take(n), SessionFilter::WaitType(t)),
    decreases n,
{
    if n == 0 {
        assert(rows.take(0) =~= Seq::<PgStatActivity>::empty());
        lemma_event_sum_empty(t, names, 0);
    } else {
        lemma_breakdown_partition_prefix(rows, t, names, n - 1);
        lemma_event_sum_step(rows, n - 1, t, names, 0);
        lemma_count_step(rows, n - 1, SessionFilter::UnlistedEvent(t, names));
        lemma_count_step(rows, n - 1, SessionFilter::WaitType(t));
        lemma_name_hits(names, rows[n - 1].wait_event_text(), 0);
        if names.contains(rows[n - 1].wait_event_text()) {
            let j = choose|j: int| 0 <= j < names.len() && names[j] == rows[n - 1].wait_event_text();
            assert(names[j] == rows[n - 1].wait_event_text());
        }
    }
}

/// A breakdown of the sessions waiting on `t` (one value per listed wait
/// event, then the value of the others) sums to the number of those sessions,
/// when the listed wait events have no repeats.
pub proof fn lemma_breakdown_sum(rows: Seq<PgStatActivity>, t: Seq<char>, names: Seq<Seq<char>>, vals: Seq<usize>)
    requires
        rows.len() <= usize::MAX,
        names.no_duplicates(),
        vals.len() == names.len() + 1,
        forall|k: int|
            0 <= k < names.len() ==> #[trigger] vals[k] == count_sessions(
                rows,
                SessionFilter::WaitEvent(t, names[k]),
            ) as usize,
        vals[names.len() as int] == count_sessions(rows, SessionFilter::UnlistedEvent(t, names)) as usize,
    ensures
        seq_sum(vals) == count_sessions(rows, SessionFilter::WaitType(t)),
{
    let n = names.len() as int;
    lemma_breakdown_partition(rows, t, names);
    lemma_breakdown_prefix(rows, t, names, vals, n);
    lemma_count_bound(rows, SessionFilter::UnlistedEvent(t, names));
    assert(vals.drop_last() =~= vals.take(n));
    assert(event_sum(rows, t, names, n) == 0);
}

proof fn lemma_breakdown_prefix(
    rows: Seq<PgStatActivity>,
    t: Seq<char>,
    names: Seq<Seq<char>>,
    vals: Seq<usize>,
    m: int,
)
    requires
        rows.len() <= usize::MAX,
        vals.len() == names.len() + 1,
        forall|k: int|
            0 <= k < names.len() ==> #[trigger] vals[k] == count_sessions(
                rows,
                SessionFilter::WaitEvent(t, names[k]),
            ) as usize,
        0 <= m <= names.len(),
    ensures
        seq_sum(vals.take(m)) + event_sum(rows, t, names, m) == event_sum(rows, t, names, 0),
    decreases m,
{
    if m == 0 {
        assert(vals.take(0) =~= Seq::<usize>::empty());
    } else {
        lemma_breakdown_prefix(rows, t, names, vals, m - 1);
        assert(vals.take(m).drop_last() =~= vals.take(m - 1));
        assert(vals.take(m).last() == vals[m - 1]);
        lemma_count_bound(rows, SessionFilter::WaitEvent(t, names[m - 1]));
        assert(vals[m - 1] == count_sessions(rows, SessionFilter::WaitEvent(t, names[m - 1])));
    }
}

} // verus!
