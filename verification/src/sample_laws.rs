//! What the breakdowns of a sample count, stated on the columns of the
//! sampled sessions: how counting one more session changes each count.

use crate::activity::{
    count_sessions, everything, lemma_count_bound, wait_label_of, PgStatActivity, SessionFilter,
    WaitLabelKind,
};
use crate::wait_types::{
    activity_wait_events, bufferpin_wait_events, client_wait_events, extension_wait_events,
    io_wait_events, ipc_wait_events, lock_wait_events, lwlock_wait_events, timeout_wait_events,
    PgCurrentWaitTypes, PgWaitTypeActivity, PgWaitTypeBufferPin, PgWaitTypeClient,
    PgWaitTypeExtension, PgWaitTypeIO, PgWaitTypeIPC, PgWaitTypeLWLock, PgWaitTypeLock,
    PgWaitTypeTimeout, PgWaitTypes,
};
use vstd::prelude::*;

verus! {

/// Whether an optional column holds exactly the given text.
pub open spec fn column_is(o: Option<String>, text: Seq<char>) -> bool {
    o matches Some(s) && s@ == text
}

/// Counting over one more session adds one exactly when the filter takes it in.
pub proof fn lemma_count_after_push(rows: Seq<PgStatActivity>, r: PgStatActivity, f: SessionFilter)
    ensures
        count_sessions(rows.push(r), f) == count_sessions(rows, f) + if r.matches(f) {
            1nat
        } else {
            0nat
        },
{
    assert(rows.push(r).drop_last() =~= rows);
}

/// Only a session whose state is exactly `active` is ever counted: one in
/// state `idle`, `idle in transaction`, `idle in transaction (aborted)`,
/// `fastpath function call` or `disabled`, or with no state, is taken in by no
/// filter, so it adds to no count of any breakdown, history or query group.
pub proof fn lemma_only_active_sessions_count(rows: Seq<PgStatActivity>, r: PgStatActivity, f: SessionFilter)
    requires
        !column_is(r.state, "active"@),
    ensures
        !r.matches(f),
        count_sessions(rows.push(r), f) == count_sessions(rows, f),
{
    reveal_strlit("active");
    assert("active"@.len() == 6);
    lemma_count_after_push(rows, r, f);
}

/// A session whose state is `active` is an active session of every scope,
/// counted under its own name.
pub proof fn lemma_active_state_is_active(r: PgStatActivity, kind: WaitLabelKind)
    requires
        column_is(r.state, "active"@),
    ensures
        r.matches(SessionFilter::Active(everything())),
        r.matches(SessionFilter::Labelled(kind, wait_label_of(r, kind), everything())),
{
}

/// The name a session is counted under, on its columns: by wait event type,
/// its wait event type, or `~on_cpu` when it has none; by wait event, its
/// wait event type and wait event joined by a colon, or `on_cpu` when it has
/// neither.
pub proof fn lemma_wait_names(r: PgStatActivity)
    ensures
        r.wait_event_type is Some && r.wait_event_type.unwrap()@.len() > 0 ==> wait_label_of(
            r,
            WaitLabelKind::WaitType,
        ) == r.wait_event_type.unwrap()@,
        r.wait_event_type is None ==> wait_label_of(r, WaitLabelKind::WaitType) == "~on_cpu"@,
        r.wait_event_type is Some && r.wait_event is Some && r.wait_event_type.unwrap()@.len() > 0
            ==> wait_label_of(r, WaitLabelKind::WaitEvent) == r.wait_event_type.unwrap()@ + ":"@
            + r.wait_event.unwrap()@,
        (r.wait_event_type is None && r.wait_event is None) ==> wait_label_of(r, WaitLabelKind::WaitEvent)
            == "on_cpu"@,
{
}


/// Counting one more session into the breakdown by wait event type adds one
/// to `on_cpu` when it is active (state `active`) with no wait event type, and
/// to the field of its wait event type when it is active and waits on one of
/// `activity`, `buffer_pin` (for `buffer_pin`), `client`, `extension`, `io`, `ipc`,
/// `lock`, `lwlock`, `timeout`; every other count stays, so the counts add up
/// to the active sessions of those types or of none. Without sessions every
/// count is zero.
pub proof fn lemma_pgwaittypes_push(rows: Seq<PgStatActivity>, r: PgStatActivity)
    requires
        rows.len() < usize::MAX,
    ensures
        PgWaitTypes::from_sessions(rows.push(r)).on_cpu == PgWaitTypes::from_sessions(rows).on_cpu + (if column_is(r.state, "active"@) && r.wait_event_type is None { 1int } else { 0int }),
        PgWaitTypes::from_sessions(rows.push(r)).activity == PgWaitTypes::from_sessions(rows).activity + (if column_is(r.state, "active"@) && column_is(r.wait_event_type, "activity"@) { 1int } else { 0int }),
        PgWaitTypes::from_sessions(rows.push(r)).buffer_pin == PgWaitTypes::from_sessions(rows).buffer_pin + (if column_is(r.state, "active"@) && column_is(r.wait_event_type, "buffer_pin"@) { 1int } else { 0int }),
        PgWaitTypes::from_sessions(rows.push(r)).client == PgWaitTypes::from_sessions(rows).client + (if column_is(r.state, "active"@) && column_is(r.wait_event_type, "client"@) { 1int } else { 0int }),
        PgWaitTypes::from_sessions(rows.push(r)).extension == PgWaitTypes::from_sessions(rows).extension + (if column_is(r.state, "active"@) && column_is(r.wait_event_type, "extension"@) { 1int } else { 0int }),
        PgWaitTypes::from_sessions(rows.push(r)).io == PgWaitTypes::from_sessions(rows).io + (if column_is(r.state, "active"@) && column_is(r.wait_event_type, "io"@) { 1int } else { 0int }),
        PgWaitTypes::from_sessions(rows.push(r)).ipc == PgWaitTypes::from_sessions(rows).ipc + (if column_is(r.state, "active"@) && column_is(r.wait_event_type, "ipc"@) { 1int } else { 0int }),
        PgWaitTypes::from_sessions(rows.push(r)).lock == PgWaitTypes::from_sessions(rows).lock + (if column_is(r.state, "active"@) && column_is(r.wait_event_type, "lock"@) { 1int } else { 0int }),
        PgWaitTypes::from_sessions(rows.push(r)).lwlock == PgWaitTypes::from_sessions(rows).lwlock + (if column_is(r.state, "active"@) && column_is(r.wait_event_type, "lwlock"@) { 1int } else { 0int }),
        PgWaitTypes::from_sessions(rows.push(r)).timeout == PgWaitTypes::from_sessions(rows).timeout + (if column_is(r.state, "active"@) && column_is(r.wait_event_type, "timeout"@) { 1int } else { 0int }),
        PgWaitTypes::from_sessions(rows.push(r)).on_cpu + PgWaitTypes::from_sessions(rows.push(r)).activity + PgWaitTypes::from_sessions(rows.push(r)).buffer_pin + PgWaitTypes::from_sessions(rows.push(r)).client + PgWaitTypes::from_sessions(rows.push(r)).extension + PgWaitTypes::from_sessions(rows.push(r)).io + PgWaitTypes::from_sessions(rows.push(r)).ipc + PgWaitTypes::from_sessions(rows.push(r)).lock + PgWaitTypes::from_sessions(rows.push(r)).lwlock + PgWaitTypes::from_sessions(rows.push(r)).timeout == PgWaitTypes::from_sessions(rows).on_cpu + PgWaitTypes::from_sessions(rows).activity + PgWaitTypes::from_sessions(rows).buffer_pin + PgWaitTypes::from_sessions(rows).client + PgWaitTypes::from_sessions(rows).extension + PgWaitTypes::from_sessions(rows).io + PgWaitTypes::from_sessions(rows).ipc + PgWaitTypes::from_sessions(rows).lock + PgWaitTypes::from_sessions(rows).lwlock + PgWaitTypes::from_sessions(rows).timeout
            + (if column_is(r.state, "active"@) && (r.wait_event_type is None || column_is(r.wait_event_type, "activity"@) || column_is(r.wait_event_type, "buffer_pin"@) || column_is(r.wait_event_type, "client"@) || column_is(r.wait_event_type, "extension"@) || column_is(r.wait_event_type, "io"@) || column_is(r.wait_event_type, "ipc"@) || column_is(r.wait_event_type, "lock"@) || column_is(r.wait_event_type, "lwlock"@) || column_is(r.wait_event_type, "timeout"@)) { 1int } else { 0int }),
        PgWaitTypes::from_sessions(Seq::empty()).on_cpu == 0,
        PgWaitTypes::from_sessions(Seq::empty()).activity == 0,
        PgWaitTypes::from_sessions(Seq::empty()).buffer_pin == 0,
        PgWaitTypes::from_sessions(Seq::empty()).client == 0,
        PgWaitTypes::from_sessions(Seq::empty()).extension == 0,
        PgWaitTypes::from_sessions(Seq::empty()).io == 0,
        PgWaitTypes::from_sessions(Seq::empty()).ipc == 0,
        PgWaitTypes::from_sessions(Seq::empty()).lock == 0,
        PgWaitTypes::from_sessions(Seq::empty()).lwlock == 0,
        PgWaitTypes::from_sessions(Seq::empty()).timeout == 0,
{
    reveal_strlit("active");
    assert("active"@.len() == 6);
    reveal_strlit("activity");
    assert("activity"@.len() == 8);
    reveal_strlit("buffer_pin");
    assert("buffer_pin"@.len() == 10);
    reveal_strlit("client");
    assert("client"@.len() == 6);
    reveal_strlit("extension");
    assert("extension"@.len() == 9);
    reveal_strlit("io");
    assert("io"@.len() == 2);
    reveal_strlit("ipc");
    assert("ipc"@.len() == 3);
    reveal_strlit("lock");
    assert("lock"@.len() == 4);
    reveal_strlit("lwlock");
    assert("lwlock"@.len() == 6);
    reveal_strlit("timeout");
    assert("timeout"@.len() == 7);
    assert("client"@[0] != "lwlock"@[0]);
    lemma_count_after_push(rows, r, SessionFilter::OnCpu);
    lemma_count_bound(rows.push(r), SessionFilter::OnCpu);
    lemma_count_after_push(rows, r, SessionFilter::WaitType("activity"@));
    lemma_count_bound(rows.push(r), SessionFilter::WaitType("activity"@));
    lemma_count_after_push(rows, r, SessionFilter::WaitType("buffer_pin"@));
    lemma_count_bound(rows.push(r), SessionFilter::WaitType("buffer_pin"@));
    lemma_count_after_push(rows, r, SessionFilter::WaitType("client"@));
    lemma_count_bound(rows.push(r), SessionFilter::WaitType("client"@));
    lemma_count_after_push(rows, r, SessionFilter::WaitType("extension"@));
    lemma_count_bound(rows.push(r), SessionFilter::WaitType("extension"@));
    lemma_count_after_push(rows, r, SessionFilter::WaitType("io"@));
    lemma_count_bound(rows.push(r), SessionFilter::WaitType("io"@));
    lemma_count_after_push(rows, r, SessionFilter::WaitType("ipc"@));
    lemma_count_bound(rows.push(r), SessionFilter::WaitType("ipc"@));
    lemma_count_after_push(rows, r, SessionFilter::WaitType("lock"@));
    lemma_count_bound(rows.push(r), SessionFilter::WaitType("lock"@));
    lemma_count_after_push(rows, r, SessionFilter::WaitType("lwlock"@));
    lemma_count_bound(rows.push(r), SessionFilter::WaitType("lwlock"@));
    lemma_count_after_push(rows, r, SessionFilter::WaitType("timeout"@));
    lemma_count_bound(rows.push(r), SessionFilter::WaitType("timeout"@));
    lemma_count_bound(rows, SessionFilter::OnCpu);
    lemma_count_bound(rows, SessionFilter::WaitType("activity"@));
    lemma_count_bound(rows, SessionFilter::WaitType("buffer_pin"@));
    lemma_count_bound(rows, SessionFilter::WaitType("client"@));
    lemma_count_bound(rows, SessionFilter::WaitType("extension"@));
    lemma_count_bound(rows, SessionFilter::WaitType("io"@));
    lemma_count_bound(rows, SessionFilter::WaitType("ipc"@));
    lemma_count_bound(rows, SessionFilter::WaitType("lock"@));
    lemma_count_bound(rows, SessionFilter::WaitType("lwlock"@));
    lemma_count_bound(rows, SessionFilter::WaitType("timeout"@));
}

/// Counting one more session into the breakdown by wait event type adds one
/// to `on_cpu` when it is active (state `active`) with no wait event type, and
/// to the field of its wait event type when it is active and waits on one of
/// `activity`, `bufferpin` (for `buffer_pin`), `client`, `extension`, `io`, `ipc`,
/// `lock`, `lwlock`, `timeout`; every other count stays, so the counts add up
/// to the active sessions of those types or of none. Without sessions every
/// count is zero.
pub proof fn lemma_pgcurrentwaittypes_push(rows: Seq<PgStatActivity>, r: PgStatActivity)
    requires
        rows.len() < usize::MAX,
    ensures
        PgCurrentWaitTypes::from_sessions(rows.push(r)).on_cpu == PgCurrentWaitTypes::from_sessions(rows).on_cpu + (if column_is(r.state, "active"@) && r.wait_event_type is None { 1int } else { 0int }),
        PgCurrentWaitTypes::from_sessions(rows.push(r)).activity == PgCurrentWaitTypes::from_sessions(rows).activity + (if column_is(r.state, "active"@) && column_is(r.wait_event_type, "activity"@) { 1int } else { 0int }),
        PgCurrentWaitTypes::from_sessions(rows.push(r)).buffer_pin == PgCurrentWaitTypes::from_sessions(rows).buffer_pin + (if column_is(r.state, "active"@) && column_is(r.wait_event_type, "bufferpin"@) { 1int } else { 0int }),
        PgCurrentWaitTypes::from_sessions(rows.push(r)).client == PgCurrentWaitTypes::from_sessions(rows).client + (if column_is(r.state, "active"@) && column_is(r.wait_event_type, "client"@) { 1int } else { 0int }),
        PgCurrentWaitTypes::from_sessions(rows.push(r)).extension == PgCurrentWaitTypes::from_sessions(rows).extension + (if column_is(r.state, "active"@) && column_is(r.wait_event_type, "extension"@) { 1int } else { 0int }),
        PgCurrentWaitTypes::from_sessions(rows.push(r)).io == PgCurrentWaitTypes::from_sessions(rows).io + (if column_is(r.state, "active"@) && column_is(r.wait_event_type, "io"@) { 1int } else { 0int }),
        PgCurrentWaitTypes::from_sessions(rows.push(r)).ipc == PgCurrentWaitTypes::from_sessions(rows).ipc + (if column_is(r.state, "active"@) && column_is(r.wait_event_type, "ipc"@) { 1int } else { 0int }),
        PgCurrentWaitTypes::from_sessions(rows.push(r)).lock == PgCurrentWaitTypes::from_sessions(rows).lock + (if column_is(r.state, "active"@) && column_is(r.wait_event_type, "lock"@) { 1int } else { 0int }),
        PgCurrentWaitTypes::from_sessions(rows.push(r)).lwlock == PgCurrentWaitTypes::from_sessions(rows).lwlock + (if column_is(r.state, "active"@) && column_is(r.wait_event_type, "lwlock"@) { 1int } else { 0int }),
        PgCurrentWaitTypes::from_sessions(rows.push(r)).timeout == PgCurrentWaitTypes::from_sessions(rows).timeout + (if column_is(r.state, "active"@) && column_is(r.wait_event_type, "timeout"@) { 1int } else { 0int }),
        PgCurrentWaitTypes::from_sessions(rows.push(r)).on_cpu + PgCurrentWaitTypes::from_sessions(rows.push(r)).activity + PgCurrentWaitTypes::from_sessions(rows.push(r)).buffer_pin + PgCurrentWaitTypes::from_sessions(rows.push(r)).client + PgCurrentWaitTypes::from_sessions(rows.push(r)).extension + PgCurrentWaitTypes::from_sessions(rows.push(r)).io + PgCurrentWaitTypes::from_sessions(rows.push(r)).ipc + PgCurrentWaitTypes::from_sessions(rows.push(r)).lock + PgCurrentWaitTypes::from_sessions(rows.push(r)).lwlock + PgCurrentWaitTypes::from_sessions(rows.push(r)).timeout == PgCurrentWaitTypes::from_sessions(rows).on_cpu + PgCurrentWaitTypes::from_sessions(rows).activity + PgCurrentWaitTypes::from_sessions(rows).buffer_pin + PgCurrentWaitTypes::from_sessions(rows).client + PgCurrentWaitTypes::from_sessions(rows).extension + PgCurrentWaitTypes::from_sessions(rows).io + PgCurrentWaitTypes::from_sessions(rows).ipc + PgCurrentWaitTypes::from_sessions(rows).lock + PgCurrentWaitTypes::from_sessions(rows).lwlock + PgCurrentWaitTypes::from_sessions(rows).timeout
            + (if column_is(r.state, "active"@) && (r.wait_event_type is None || column_is(r.wait_event_type, "activity"@) || column_is(r.wait_event_type, "bufferpin"@) || column_is(r.wait_event_type, "client"@) || column_is(r.wait_event_type, "extension"@) || column_is(r.wait_event_type, "io"@) || column_is(r.wait_event_type, "ipc"@) || column_is(r.wait_event_type, "lock"@) || column_is(r.wait_event_type, "lwlock"@) || column_is(r.wait_event_type, "timeout"@)) { 1int } else { 0int }),
        PgCurrentWaitTypes::from_sessions(Seq::empty()).on_cpu == 0,
        PgCurrentWaitTypes::from_sessions(Seq::empty()).activity == 0,
        PgCurrentWaitTypes::from_sessions(Seq::empty()).buffer_pin == 0,
        PgCurrentWaitTypes::from_sessions(Seq::empty()).client == 0,
        PgCurrentWaitTypes::from_sessions(Seq::empty()).extension == 0,
        PgCurrentWaitTypes::from_sessions(Seq::empty()).io == 0,
        PgCurrentWaitTypes::from_sessions(Seq::empty()).ipc == 0,
        PgCurrentWaitTypes::from_sessions(Seq::empty()).lock == 0,
        PgCurrentWaitTypes::from_sessions(Seq::empty()).lwlock == 0,
        PgCurrentWaitTypes::from_sessions(Seq::empty()).timeout == 0,
{
    reveal_strlit("active");
    assert("active"@.len() == 6);
    reveal_strlit("activity");
    assert("activity"@.len() == 8);
    reveal_strlit("bufferpin");
    assert("bufferpin"@.len() == 9);
    reveal_strlit("client");
    assert("client"@.len() == 6);
    reveal_strlit("extension");
    assert("extension"@.len() == 9);
    reveal_strlit("io");
    assert("io"@.len() == 2);
    reveal_strlit("ipc");
    assert("ipc"@.len() == 3);
    reveal_strlit("lock");
    assert("lock"@.len() == 4);
    reveal_strlit("lwlock");
    assert("lwlock"@.len() == 6);
    reveal_strlit("timeout");
    assert("timeout"@.len() == 7);
    assert("bufferpin"@[0] != "extension"@[0]);
    assert("client"@[0] != "lwlock"@[0]);
    lemma_count_after_push(rows, r, SessionFilter::OnCpu);
    lemma_count_bound(rows.push(r), SessionFilter::OnCpu);
    lemma_count_after_push(rows, r, SessionFilter::WaitType("activity"@));
    lemma_count_bound(rows.push(r), SessionFilter::WaitType("activity"@));
    lemma_count_after_push(rows, r, SessionFilter::WaitType("bufferpin"@));
    lemma_count_bound(rows.push(r), SessionFilter::WaitType("bufferpin"@));
    lemma_count_after_push(rows, r, SessionFilter::WaitType("client"@));
    lemma_count_bound(rows.push(r), SessionFilter::WaitType("client"@));
    lemma_count_after_push(rows, r, SessionFilter::WaitType("extension"@));
    lemma_count_bound(rows.push(r), SessionFilter::WaitType("extension"@));
    lemma_count_after_push(rows, r, SessionFilter::WaitType("io"@));
    lemma_count_bound(rows.push(r), SessionFilter::WaitType("io"@));
    lemma_count_after_push(rows, r, SessionFilter::WaitType("ipc"@));
    lemma_count_bound(rows.push(r), SessionFilter::WaitType("ipc"@));
    lemma_count_after_push(rows, r, SessionFilter::WaitType("lock"@));
    lemma_count_bound(rows.push(r), SessionFilter::WaitType("lock"@));
    lemma_count_after_push(rows, r, SessionFilter::WaitType("lwlock"@));
    lemma_count_bound(rows.push(r), SessionFilter::WaitType("lwlock"@));
    lemma_count_after_push(rows, r, SessionFilter::WaitType("timeout"@));
    lemma_count_bound(rows.push(r), SessionFilter::WaitType("timeout"@));
    lemma_count_bound(rows, SessionFilter::OnCpu);
    lemma_count_bound(rows, SessionFilter::WaitType("activity"@));
    lemma_count_bound(rows, SessionFilter::WaitType("bufferpin"@));
    lemma_count_bound(rows, SessionFilter::WaitType("client"@));
    lemma_count_bound(rows, SessionFilter::WaitType("extension"@));
    lemma_count_bound(rows, SessionFilter::WaitType("io"@));
    lemma_count_bound(rows, SessionFilter::WaitType("ipc"@));
    lemma_count_bound(rows, SessionFilter::WaitType("lock"@));
    lemma_count_bound(rows, SessionFilter::WaitType("lwlock"@));
    lemma_count_bound(rows, SessionFilter::WaitType("timeout"@));
}

/// Counting one more session into the breakdown of `activity` by wait event adds
/// one to the field of its wait event when it is active (state `active`),
/// waits on `activity` and its wait event is that field's name, and to `other` when
/// it is active and waits on `activity` with a wait event of none of those names;
/// every other count stays. Without sessions every count is zero.
pub proof fn lemma_activity_events_push(rows: Seq<PgStatActivity>, r: PgStatActivity)
    requires
        rows.len() < usize::MAX,
    ensures
        PgWaitTypeActivity::from_sessions(rows.push(r)).archivermain == PgWaitTypeActivity::from_sessions(rows).archivermain + (if column_is(r.state, "active"@) && column_is(r.wait_event_type, "activity"@) && column_is(r.wait_event, "archivermain"@) { 1int } else { 0int }),
        PgWaitTypeActivity::from_sessions(rows.push(r)).autovacuummain == PgWaitTypeActivity::from_sessions(rows).autovacuummain + (if column_is(r.state, "active"@) && column_is(r.wait_event_type, "activity"@) && column_is(r.wait_event, "autovacuummain"@) { 1int } else { 0int }),
        PgWaitTypeActivity::from_sessions(rows.push(r)).bgwriterhibernate == PgWaitTypeActivity::from_sessions(rows).bgwriterhibernate + (if column_is(r.state, "active"@) && column_is(r.wait_event_type, "activity"@) && column_is(r.wait_event, "bgwriterhibernate"@) { 1int } else { 0int }),
        PgWaitTypeActivity::from_sessions(rows.push(r)).bgwritermain == PgWaitTypeActivity::from_sessions(rows).bgwritermain + (if column_is(r.state, "active"@) && column_is(r.wait_event_type, "activity"@) && column_is(r.wait_event, "bgwritermain"@) { 1int } else { 0int }),
        PgWaitTypeActivity::from_sessions(rows.push(r)).checkpointermain == PgWaitTypeActivity::from_sessions(rows).checkpointermain + (if column_is(r.state, "active"@) && column_is(r.wait_event_type, "activity"@) && column_is(r.wait_event, "checkpointermain"@) { 1int } else { 0int }),
        PgWaitTypeActivity::from_sessions(rows.push(r)).logicalapplymain == PgWaitTypeActivity::from_sessions(rows).logicalapplymain + (if column_is(r.state, "active"@) && column_is(r.wait_event_type, "activity"@) && column_is(r.wait_event, "logicalapplymain"@) { 1int } else { 0int }),
        PgWaitTypeActivity::from_sessions(rows.push(r)).logicallaunchermain == PgWaitTypeActivity::from_sessions(rows).logicallaunchermain + (if column_is(r.state, "active"@) && column_is(r.wait_event_type, "activity"@) && column_is(r.wait_event, "logicallaunchermain"@) { 1int } else { 0int }),
        PgWaitTypeActivity::from_sessions(rows.push(r)).logicalparallelapplymain == PgWaitTypeActivity::from_sessions(rows).logicalparallelapplymain + (if column_is(r.state, "active"@) && column_is(r.wait_event_type, "activity"@) && column_is(r.wait_event, "logicalparallelapplymain"@) { 1int } else { 0int }),
        PgWaitTypeActivity::from_sessions(rows.push(r)).recoverywalstream == PgWaitTypeActivity::from_sessions(rows).recoverywalstream + (if column_is(r.state, "active"@) && column_is(r.wait_event_type, "activity"@) && column_is(r.wait_event, "recoverywalstream"@) { 1int } else { 0int }),
        PgWaitTypeActivity::from_sessions(rows.push(r)).sysloggermain == PgWaitTypeActivity::from_sessions(rows).sysloggermain + (if column_is(r.state, "active"@) && column_is(r.wait_event_type, "activity"@) && column_is(r.wait_event, "sysloggermain"@) { 1int } else { 0int }),
        PgWaitTypeActivity::from_sessions(rows.push(r)).walreceivermain == PgWaitTypeActivity::from_sessions(rows).walreceivermain + (if column_is(r.state, "active"@) && column_is(r.wait_event_type, "activity"@) && column_is(r.wait_event, "walreceivermain"@) { 1int } else { 0int }),
        PgWaitTypeActivity::from_sessions(rows.push(r)).walsendermain == PgWaitTypeActivity::from_sessions(rows).walsendermain + (if column_is(r.state, "active"@) && column_is(r.wait_event_type, "activity"@) && column_is(r.wait_event, "walsendermain"@) { 1int } else { 0int }),
        PgWaitTypeActivity::from_sessions(rows.push(r)).walwritermain == PgWaitTypeActivity::from_sessions(rows).walwritermain + (if column_is(r.state, "active"@) && column_is(r.wait_event_type, "activity"@) && column_is(r.wait_event, "walwritermain"@) { 1int } else { 0int }),
        PgWaitTypeActivity::from_sessions(rows.push(r)).other == PgWaitTypeActivity::from_sessions(rows).other + (if column_is(r.state, "active"@) && column_is(r.wait_event_type, "activity"@) && !(column_is(r.wait_event, "archivermain"@) || column_is(r.wait_event, "autovacuummain"@) || column_is(r.wait_event, "bgwriterhibernate"@) || column_is(r.wait_event, "bgwritermain"@) || column_is(r.wait_event, "checkpointermain"@) || column_is(r.wait_event, "logicalapplymain"@) || column_is(r.wait_event, "logicallaunchermain"@) || column_is(r.wait_event, "logicalparallelapplymain"@) || column_is(r.wait_event, "recoverywalstream"@) || column_is(r.wait_event, "sysloggermain"@) || column_is(r.wait_event, "walreceivermain"@) || column_is(r.wait_event, "walsendermain"@) || column_is(r.wait_event, "walwritermain"@)) { 1int } else { 0int }),
        PgWaitTypeActivity::from_sessions(Seq::empty()).archivermain == 0,
        PgWaitTypeActivity::from_sessions(Seq::empty()).autovacuummain == 0,
        PgWaitTypeActivity::from_sessions(Seq::empty()).bgwriterhibernate == 0,
        PgWaitTypeActivity::from_sessions(Seq::empty()).bgwritermain == 0,
        PgWaitTypeActivity::from_sessions(Seq::empty()).checkpointermain == 0,
        PgWaitTypeActivity::from_sessions(Seq::empty()).logicalapplymain == 0,
        PgWaitTypeActivity::from_sessions(Seq::empty()).logicallaunchermain == 0,
        PgWaitTypeActivity::from_sessions(Seq::empty()).logicalparallelapplymain == 0,
        PgWaitTypeActivity::from_sessions(Seq::empty()).recoverywalstream == 0,
        PgWaitTypeActivity::from_sessions(Seq::empty()).sysloggermain == 0,
        PgWaitTypeActivity::from_sessions(Seq::empty()).walreceivermain == 0,
        PgWaitTypeActivity::from_sessions(Seq::empty()).walsendermain == 0,
        PgWaitTypeActivity::from_sessions(Seq::empty()).walwritermain == 0,
        PgWaitTypeActivity::from_sessions(Seq::empty()).other == 0,
{
    reveal_strlit("active");
    assert("active"@.len() == 6);
    reveal_strlit("activity");
    assert("activity"@.len() == 8);
    reveal_strlit("archivermain");
    assert("archivermain"@.len() == 12);
    reveal_strlit("autovacuummain");
    assert("autovacuummain"@.len() == 14);
    reveal_strlit("bgwriterhibernate");
    assert("bgwriterhibernate"@.len() == 17);
    reveal_strlit("bgwritermain");
    assert("bgwritermain"@.len() == 12);
    reveal_strlit("checkpointermain");
    assert("checkpointermain"@.len() == 16);
    reveal_strlit("logicalapplymain");
    assert("logicalapplymain"@.len() == 16);
    reveal_strlit("logicallaunchermain");
    assert("logicallaunchermain"@.len() == 19);
    reveal_strlit("logicalparallelapplymain");
    assert("logicalparallelapplymain"@.len() == 24);
    reveal_strlit("recoverywalstream");
    assert("recoverywalstream"@.len() == 17);
    reveal_strlit("sysloggermain");
    assert("sysloggermain"@.len() == 13);
    reveal_strlit("walreceivermain");
    assert("walreceivermain"@.len() == 15);
    reveal_strlit("walsendermain");
    assert("walsendermain"@.len() == 13);
    reveal_strlit("walwritermain");
    assert("walwritermain"@.len() == 13);
    lemma_count_after_push(rows, r, SessionFilter::WaitEvent("activity"@, "archivermain"@));
    lemma_count_bound(rows.push(r), SessionFilter::WaitEvent("activity"@, "archivermain"@));
    lemma_count_bound(rows, SessionFilter::WaitEvent("activity"@, "archivermain"@));
    lemma_count_after_push(rows, r, SessionFilter::WaitEvent("activity"@, "autovacuummain"@));
    lemma_count_bound(rows.push(r), SessionFilter::WaitEvent("activity"@, "autovacuummain"@));
    lemma_count_bound(rows, SessionFilter::WaitEvent("activity"@, "autovacuummain"@));
    lemma_count_after_push(rows, r, SessionFilter::WaitEvent("activity"@, "bgwriterhibernate"@));
    lemma_count_bound(rows.push(r), SessionFilter::WaitEvent("activity"@, "bgwriterhibernate"@));
    lemma_count_bound(rows, SessionFilter::WaitEvent("activity"@, "bgwriterhibernate"@));
    lemma_count_after_push(rows, r, SessionFilter::WaitEvent("activity"@, "bgwritermain"@));
    lemma_count_bound(rows.push(r), SessionFilter::WaitEvent("activity"@, "bgwritermain"@));
    lemma_count_bound(rows, SessionFilter::WaitEvent("activity"@, "bgwritermain"@));
    lemma_count_after_push(rows, r, SessionFilter::WaitEvent("activity"@, "checkpointermain"@));
    lemma_count_bound(rows.push(r), SessionFilter::WaitEvent("activity"@, "checkpointermain"@));
    lemma_count_bound(rows, SessionFilter::WaitEvent("activity"@, "checkpointermain"@));
    lemma_count_after_push(rows, r, SessionFilter::WaitEvent("activity"@, "logicalapplymain"@));
    lemma_count_bound(rows.push(r), SessionFilter::WaitEvent("activity"@, "logicalapplymain"@));
    lemma_count_bound(rows, SessionFilter::WaitEvent("activity"@, "logicalapplymain"@));
    lemma_count_after_push(rows, r, SessionFilter::WaitEvent("activity"@, "logicallaunchermain"@));
    lemma_count_bound(rows.push(r), SessionFilter::WaitEvent("activity"@, "logicallaunchermain"@));
    lemma_count_bound(rows, SessionFilter::WaitEvent("activity"@, "logicallaunchermain"@));
    lemma_count_after_push(rows, r, SessionFilter::WaitEvent("activity"@, "logicalparallelapplymain"@));
    lemma_count_bound(rows.push(r), SessionFilter::WaitEvent("activity"@, "logicalparallelapplymain"@));
    lemma_count_bound(rows, SessionFilter::WaitEvent("activity"@, "logicalparallelapplymain"@));
    lemma_count_after_push(rows, r, SessionFilter::WaitEvent("activity"@, "recoverywalstream"@));
    lemma_count_bound(rows.push(r), SessionFilter::WaitEvent("activity"@, "recoverywalstream"@));
    lemma_count_bound(rows, SessionFilter::WaitEvent("activity"@, "recoverywalstream"@));
    lemma_count_after_push(rows, r, SessionFilter::WaitEvent("activity"@, "sysloggermain"@));
    lemma_count_bound(rows.push(r), SessionFilter::WaitEvent("activity"@, "sysloggermain"@));
    lemma_count_bound(rows, SessionFilter::WaitEvent("activity"@, "sysloggermain"@));
    lemma_count_after_push(rows, r, SessionFilter::WaitEvent("activity"@, "walreceivermain"@));
    lemma_count_bound(rows.push(r), SessionFilter::WaitEvent("activity"@, "walreceivermain"@));
    lemma_count_bound(rows, SessionFilter::WaitEvent("activity"@, "walreceivermain"@));
    lemma_count_after_push(rows, r, SessionFilter::WaitEvent("activity"@, "walsendermain"@));
    lemma_count_bound(rows.push(r), SessionFilter::WaitEvent("activity"@, "walsendermain"@));
    lemma_count_bound(rows, SessionFilter::WaitEvent("activity"@, "walsendermain"@));
    lemma_count_after_push(rows, r, SessionFilter::WaitEvent("activity"@, "walwritermain"@));
    lemma_count_bound(rows.push(r), SessionFilter::WaitEvent("activity"@, "walwritermain"@));
    lemma_count_bound(rows, SessionFilter::WaitEvent("activity"@, "walwritermain"@));
    let known = activity_wait_events();
    assert(known[0] == "archivermain"@);
    assert(known[1] == "autovacuummain"@);
    assert(known[2] == "bgwriterhibernate"@);
    assert(known[3] == "bgwritermain"@);
    assert(known[4] == "checkpointermain"@);
    assert(known[5] == "logicalapplymain"@);
    assert(known[6] == "logicallaunchermain"@);
    assert(known[7] == "logicalparallelapplymain"@);
    assert(known[8] == "recoverywalstream"@);
    assert(known[9] == "sysloggermain"@);
    assert(known[10] == "walreceivermain"@);
    assert(known[11] == "walsendermain"@);
    assert(known[12] == "walwritermain"@);
    lemma_count_after_push(rows, r, SessionFilter::UnlistedEvent("activity"@, known));
    lemma_count_bound(rows.push(r), SessionFilter::UnlistedEvent("activity"@, known));
    lemma_count_bound(rows, SessionFilter::UnlistedEvent("activity"@, known));
}

/// Counting one more session into the breakdown of `bufferpin` by wait event adds
/// one to the field of its wait event when it is active (state `active`),
/// waits on `bufferpin` and its wait event is that field's name, and to `other` when
/// it is active and waits on `bufferpin` with a wait event of none of those names;
/// every other count stays. Without sessions every count is zero.
pub proof fn lemma_bufferpin_events_push(rows: Seq<PgStatActivity>, r: PgStatActivity)
    requires
        rows.len() < usize::MAX,
    ensures
        PgWaitTypeBufferPin::from_sessions(rows.push(r)).bufferpin == PgWaitTypeBufferPin::from_sessions(rows).bufferpin + (if column_is(r.state, "active"@) && column_is(r.wait_event_type, "bufferpin"@) && column_is(r.wait_event, "bufferpin"@) { 1int } else { 0int }),
        PgWaitTypeBufferPin::from_sessions(rows.push(r)).other == PgWaitTypeBufferPin::from_sessions(rows).other + (if column_is(r.state, "active"@) && column_is(r.wait_event_type, "bufferpin"@) && !(column_is(r.wait_event, "bufferpin"@)) { 1int } else { 0int }),
        PgWaitTypeBufferPin::from_sessions(Seq::empty()).bufferpin == 0,
        PgWaitTypeBufferPin::from_sessions(Seq::empty()).other == 0,
{
    reveal_strlit("active");
    assert("active"@.len() == 6);
    reveal_strlit("bufferpin");
    assert("bufferpin"@.len() == 9);
    lemma_count_after_push(rows, r, SessionFilter::WaitEvent("bufferpin"@, "bufferpin"@));
    lemma_count_bound(rows.push(r), SessionFilter::WaitEvent("bufferpin"@, "bufferpin"@));
    lemma_count_bound(rows, SessionFilter::WaitEvent("bufferpin"@, "bufferpin"@));
    let known = bufferpin_wait_events();
    assert(known[0] == "bufferpin"@);
    lemma_count_after_push(rows, r, SessionFilter::UnlistedEvent("bufferpin"@, known));
    lemma_count_bound(rows.push(r), SessionFilter::UnlistedEvent("bufferpin"@, known));
    lemma_count_bound(rows, SessionFilter::UnlistedEvent("bufferpin"@, known));
}

/// Counting one more session into the breakdown of `client` by wait event adds
/// one to the field of its wait event when it is active (state `active`),
/// waits on `client` and its wait event is that field's name, and to `other` when
/// it is active and waits on `client` with a wait event of none of those names;
/// every other count stays. Without sessions every count is zero.
pub proof fn lemma_client_events_push(rows: Seq<PgStatActivity>, r: PgStatActivity)
    requires
        rows.len() < usize::MAX,
    ensures
        PgWaitTypeClient::from_sessions(rows.push(r)).clientread == PgWaitTypeClient::from_sessions(rows).clientread + (if column_is(r.state, "active"@) && column_is(r.wait_event_type, "client"@) && column_is(r.wait_event, "clientread"@) { 1int } else { 0int }),
        PgWaitTypeClient::from_sessions(rows.push(r)).clientwrite == PgWaitTypeClient::from_sessions(rows).clientwrite + (if column_is(r.state, "active"@) && column_is(r.wait_event_type, "client"@) && column_is(r.wait_event, "clientwrite"@) { 1int } else { 0int }),
        PgWaitTypeClient::from_sessions(rows.push(r)).gssopenserver == PgWaitTypeClient::from_sessions(rows).gssopenserver + (if column_is(r.state, "active"@) && column_is(r.wait_event_type, "client"@) && column_is(r.wait_event, "gssopenserver"@) { 1int } else { 0int }),
        PgWaitTypeClient::from_sessions(rows.push(r)).libpqwalreceiverconnect == PgWaitTypeClient::from_sessions(rows).libpqwalreceiverconnect + (if column_is(r.state, "active"@) && column_is(r.wait_event_type, "client"@) && column_is(r.wait_event, "libpqwalreceiverconnect"@) { 1int } else { 0int }),
        PgWaitTypeClient::from_sessions(rows.push(r)).libpqwalreceiverreceive == PgWaitTypeClient::from_sessions(rows).libpqwalreceiverreceive + (if column_is(r.state, "active"@) && column_is(r.wait_event_type, "client"@) && column_is(r.wait_event, "Libpqwalreceiverreceive"@) { 1int } else { 0int }),
        PgWaitTypeClient::from_sessions(rows.push(r)).sslopenserver == PgWaitTypeClient::from_sessions(rows).sslopenserver + (if column_is(r.state, "active"@) && column_is(r.wait_event_type, "client"@) && column_is(r.wait_event, "sslopenserver"@) { 1int } else { 0int }),
        PgWaitTypeClient::from_sessions(rows.push(r)).walsenderwaitforwal == PgWaitTypeClient::from_sessions(rows).walsenderwaitforwal + (if column_is(r.state, "active"@) && column_is(r.wait_event_type, "client"@) && column_is(r.wait_event, "walsenderwaitforwal"@) { 1int } else { 0int }),
        PgWaitTypeClient::from_sessions(rows.push(r)).walsenderwritedata == PgWaitTypeClient::from_sessions(rows).walsenderwritedata + (if column_is(r.state, "active"@) && column_is(r.wait_event_type, "client"@) && column_is(r.wait_event, "walsenderwritedata"@) { 1int } else { 0int }),
        PgWaitTypeClient::from_sessions(rows.push(r)).other == PgWaitTypeClient::from_sessions(rows).other + (if column_is(r.state, "active"@) && column_is(r.wait_event_type, "client"@) && !(column_is(r.wait_event, "clientread"@) || column_is(r.wait_event, "clientwrite"@) || column_is(r.wait_event, "gssopenserver"@) || column_is(r.wait_event, "libpqwalreceiverconnect"@) || column_is(r.wait_event, "Libpqwalreceiverreceive"@) || column_is(r.wait_event, "sslopenserver"@) || column_is(r.wait_event, "walsenderwaitforwal"@) || column_is(r.wait_event, "walsenderwritedata"@)) { 1int } else { 0int }),
        PgWaitTypeClient::from_sessions(Seq::empty()).clientread == 0,
        PgWaitTypeClient::from_sessions(Seq::empty()).clientwrite == 0,
        PgWaitTypeClient::from_sessions(Seq::empty()).gssopenserver == 0,
        PgWaitTypeClient::from_sessions(Seq::empty()).libpqwalreceiverconnect == 0,
        PgWaitTypeClient::from_sessions(Seq::empty()).libpqwalreceiverreceive == 0,
        PgWaitTypeClient::from_sessions(Seq::empty()).sslopenserver == 0,
        PgWaitTypeClient::from_sessions(Seq::empty()).walsenderwaitforwal == 0,
        PgWaitTypeClient::from_sessions(Seq::empty()).walsenderwritedata == 0,
        PgWaitTypeClient::from_sessions(Seq::empty()).other == 0,
{
    reveal_strlit("Libpqwalreceiverreceive");
    assert("Libpqwalreceiverreceive"@.len() == 23);
    reveal_strlit("active");
    assert("active"@.len() == 6);
    reveal_strlit("client");
    assert("client"@.len() == 6);
    reveal_strlit("clientread");
    assert("clientread"@.len() == 10);
    reveal_strlit("clientwrite");
    assert("clientwrite"@.len() == 11);
    reveal_strlit("gssopenserver");
    assert("gssopenserver"@.len() == 13);
    reveal_strlit("libpqwalreceiverconnect");
    assert("libpqwalreceiverconnect"@.len() == 23);
    reveal_strlit("sslopenserver");
    assert("sslopenserver"@.len() == 13);
    reveal_strlit("walsenderwaitforwal");
    assert("walsenderwaitforwal"@.len() == 19);
    reveal_strlit("walsenderwritedata");
    assert("walsenderwritedata"@.len() == 18);
    lemma_count_after_push(rows, r, SessionFilter::WaitEvent("client"@, "clientread"@));
    lemma_count_bound(rows.push(r), SessionFilter::WaitEvent("client"@, "clientread"@));
    lemma_count_bound(rows, SessionFilter::WaitEvent("client"@, "clientread"@));
    lemma_count_after_push(rows, r, SessionFilter::WaitEvent("client"@, "clientwrite"@));
    lemma_count_bound(rows.push(r), SessionFilter::WaitEvent("client"@, "clientwrite"@));
    lemma_count_bound(rows, SessionFilter::WaitEvent("client"@, "clientwrite"@));
    lemma_count_after_push(rows, r, SessionFilter::WaitEvent("client"@, "gssopenserver"@));
    lemma_count_bound(rows.push(r), SessionFilter::WaitEvent("client"@, "gssopenserver"@));
    lemma_count_bound(rows, SessionFilter::WaitEvent("client"@, "gssopenserver"@));
    lemma_count_after_push(rows, r, SessionFilter::WaitEvent("client"@, "libpqwalreceiverconnect"@));
    lemma_count_bound(rows.push(r), SessionFilter::WaitEvent("client"@, "libpqwalreceiverconnect"@));
    lemma_count_bound(rows, SessionFilter::WaitEvent("client"@, "libpqwalreceiverconnect"@));
    lemma_count_after_push(rows, r, SessionFilter::WaitEvent("client"@, "Libpqwalreceiverreceive"@));
    lemma_count_bound(rows.push(r), SessionFilter::WaitEvent("client"@, "Libpqwalreceiverreceive"@));
    lemma_count_bound(rows, SessionFilter::WaitEvent("client"@, "Libpqwalreceiverreceive"@));
    lemma_count_after_push(rows, r, SessionFilter::WaitEvent("client"@, "sslopenserver"@));
    lemma_count_bound(rows.push(r), SessionFilter::WaitEvent("client"@, "sslopenserver"@));
    lemma_count_bound(rows, SessionFilter::WaitEvent("client"@, "sslopenserver"@));
    lemma_count_after_push(rows, r, SessionFilter::WaitEvent("client"@, "walsenderwaitforwal"@));
    lemma_count_bound(rows.push(r), SessionFilter::WaitEvent("client"@, "walsenderwaitforwal"@));
    lemma_count_bound(rows, SessionFilter::WaitEvent("client"@, "walsenderwaitforwal"@));
    lemma_count_after_push(rows, r, SessionFilter::WaitEvent("client"@, "walsenderwritedata"@));
    lemma_count_bound(rows.push(r), SessionFilter::WaitEvent("client"@, "walsenderwritedata"@));
    lemma_count_bound(rows, SessionFilter::WaitEvent("client"@, "walsenderwritedata"@));
    let known = client_wait_events();
    assert(known[0] == "clientread"@);
    assert(known[1] == "clientwrite"@);
    assert(known[2] == "gssopenserver"@);
    assert(known[3] == "libpqwalreceiverconnect"@);
    assert(known[4] == "Libpqwalreceiverreceive"@);
    assert(known[5] == "sslopenserver"@);
    assert(known[6] == "walsenderwaitforwal"@);
    assert(known[7] == "walsenderwritedata"@);
    lemma_count_after_push(rows, r, SessionFilter::UnlistedEvent("client"@, known));
    lemma_count_bound(rows.push(r), SessionFilter::UnlistedEvent("client"@, known));
    lemma_count_bound(rows, SessionFilter::UnlistedEvent("client"@, known));
}

/// Counting one more session into the breakdown of `extension` by wait event adds
/// one to the field of its wait event when it is active (state `active`),
/// waits on `extension` and its wait event is that field's name, and to `other` when
/// it is active and waits on `extension` with a wait event of none of those names;
/// every other count stays. Without sessions every count is zero.
pub proof fn lemma_extension_events_push(rows: Seq<PgStatActivity>, r: PgStatActivity)
    requires
        rows.len() < usize::MAX,
    ensures
        PgWaitTypeExtension::from_sessions(rows.push(r)).extension == PgWaitTypeExtension::from_sessions(rows).extension + (if column_is(r.state, "active"@) && column_is(r.wait_event_type, "extension"@) && column_is(r.wait_event, "extension"@) { 1int } else { 0int }),
        PgWaitTypeExtension::from_sessions(rows.push(r)).other == PgWaitTypeExtension::from_sessions(rows).other + (if column_is(r.state, "active"@) && column_is(r.wait_event_type, "extension"@) && !(column_is(r.wait_event, "extension"@)) { 1int } else { 0int }),
        PgWaitTypeExtension::from_sessions(Seq::empty()).extension == 0,
        PgWaitTypeExtension::from_sessions(Seq::empty()).other == 0,
{
    reveal_strlit("active");
    assert("active"@.len() == 6);
    reveal_strlit("extension");
    assert("extension"@.len() == 9);
    lemma_count_after_push(rows, r, SessionFilter::WaitEvent("extension"@, "extension"@));
    lemma_count_bound(rows.push(r), SessionFilter::WaitEvent("extension"@, "extension"@));
    lemma_count_bound(rows, SessionFilter::WaitEvent("extension"@, "extension"@));
    let known = extension_wait_events();
    assert(known[0] == "extension"@);
    lemma_count_after_push(rows, r, SessionFilter::UnlistedEvent("extension"@, known));
    lemma_count_bound(rows.push(r), SessionFilter::UnlistedEvent("extension"@, known));
    lemma_count_bound(rows, SessionFilter::UnlistedEvent("extension"@, known));
}

/// Counting one more session into the breakdown of `io` by wait event adds
/// one to the field of its wait event when it is active (state `active`),
/// waits on `io` and its wait event is that field's name, and to `other` when
/// it is active and waits on `io` with a wait event of none of those names;
/// every other count stays. Without sessions every count is zero.
pub proof fn lemma_io_events_push(rows: Seq<PgStatActivity>, r: PgStatActivity)
    requires
        rows.len() < usize::MAX,
    ensures
        PgWaitTypeIO::from_sessions(rows.push(r)).basebackupread == PgWaitTypeIO::from_sessions(rows).basebackupread + (if column_is(r.state, "active"@) && column_is(r.wait_event_type, "io"@) && column_is(r.wait_event, "basebackupread"@) { 1int } else { 0int }),
        PgWaitTypeIO::from_sessions(rows.push(r)).basebackupsync == PgWaitTypeIO::from_sessions(rows).basebackupsync + (if column_is(r.state, "active"@) && column_is(r.wait_event_type, "io"@) && column_is(r.wait_event, "basebackupsync"@) { 1int } else { 0int }),
        PgWaitTypeIO::from_sessions(rows.push(r)).basebackupwrite == PgWaitTypeIO::from_sessions(rows).basebackupwrite + (if column_is(r.state, "active"@) && column_is(r.wait_event_type, "io"@) && column_is(r.wait_event, "basebackupwrite"@) { 1int } else { 0int }),
        PgWaitTypeIO::from_sessions(rows.push(r)).buffileread == PgWaitTypeIO::from_sessions(rows).buffileread + (if column_is(r.state, "active"@) && column_is(r.wait_event_type, "io"@) && column_is(r.wait_event, "buffileread"@) { 1int } else { 0int }),
        PgWaitTypeIO::from_sessions(rows.push(r)).buffiletruncate == PgWaitTypeIO::from_sessions(rows).buffiletruncate + (if column_is(r.state, "active"@) && column_is(r.wait_event_type, "io"@) && column_is(r.wait_event, "buffiletruncate"@) { 1int } else { 0int }),
        PgWaitTypeIO::from_sessions(rows.push(r)).buffilewrite == PgWaitTypeIO::from_sessions(rows).buffilewrite + (if column_is(r.state, "active"@) && column_is(r.wait_event_type, "io"@) && column_is(r.wait_event, "buffilewrite"@) { 1int } else { 0int }),
        PgWaitTypeIO::from_sessions(rows.push(r)).controlfileread == PgWaitTypeIO::from_sessions(rows).controlfileread + (if column_is(r.state, "active"@) && column_is(r.wait_event_type, "io"@) && column_is(r.wait_event, "controlfileread"@) { 1int } else { 0int }),
        PgWaitTypeIO::from_sessions(rows.push(r)).controlfilesync == PgWaitTypeIO::from_sessions(rows).controlfilesync + (if column_is(r.state, "active"@) && column_is(r.wait_event_type, "io"@) && column_is(r.wait_event, "controlfilesync"@) { 1int } else { 0int }),
        PgWaitTypeIO::from_sessions(rows.push(r)).controlfilesyncupdate == PgWaitTypeIO::from_sessions(rows).controlfilesyncupdate + (if column_is(r.state, "active"@) && column_is(r.wait_event_type, "io"@) && column_is(r.wait_event, "controlfilesyncupdate"@) { 1int } else { 0int }),
        PgWaitTypeIO::from_sessions(rows.push(r)).controlfilewrite == PgWaitTypeIO::from_sessions(rows).controlfilewrite + (if column_is(r.state, "active"@) && column_is(r.wait_event_type, "io"@) && column_is(r.wait_event, "controlfilewrite"@) { 1int } else { 0int }),
        PgWaitTypeIO::from_sessions(rows.push(r)).controlfilewriteupdate == PgWaitTypeIO::from_sessions(rows).controlfilewriteupdate + (if column_is(r.state, "active"@) && column_is(r.wait_event_type, "io"@) && column_is(r.wait_event, "controlfilewriteupdate"@) { 1int } else { 0int }),
        PgWaitTypeIO::from_sessions(rows.push(r)).copyfileread == PgWaitTypeIO::from_sessions(rows).copyfileread + (if column_is(r.state, "active"@) && column_is(r.wait_event_type, "io"@) && column_is(r.wait_event, "copyfileread"@) { 1int } else { 0int }),
        PgWaitTypeIO::from_sessions(rows.push(r)).copyfilewrite == PgWaitTypeIO::from_sessions(rows).copyfilewrite + (if column_is(r.state, "active"@) && column_is(r.wait_event_type, "io"@) && column_is(r.wait_event, "copyfilewrite"@) { 1int } else { 0int }),
        PgWaitTypeIO::from_sessions(rows.push(r)).dsmallocate == PgWaitTypeIO::from_sessions(rows).dsmallocate + (if column_is(r.state, "active"@) && column_is(r.wait_event_type, "io"@) && column_is(r.wait_event, "dsmallocate"@) { 1int } else { 0int }),
        PgWaitTypeIO::from_sessions(rows.push(r)).dsmfillzerowrite == PgWaitTypeIO::from_sessions(rows).dsmfillzerowrite + (if column_is(r.state, "active"@) && column_is(r.wait_event_type, "io"@) && column_is(r.wait_event, "dsmfillzerowrite"@) { 1int } else { 0int }),
        PgWaitTypeIO::from_sessions(rows.push(r)).datafileextend == PgWaitTypeIO::from_sessions(rows).datafileextend + (if column_is(r.state, "active"@) && column_is(r.wait_event_type, "io"@) && column_is(r.wait_event, "datafileextend"@) { 1int } else { 0int }),
        PgWaitTypeIO::from_sessions(rows.push(r)).datafileflush == PgWaitTypeIO::from_sessions(rows).datafileflush + (if column_is(r.state, "active"@) && column_is(r.wait_event_type, "io"@) && column_is(r.wait_event, "datafileflush"@) { 1int } else { 0int }),
        PgWaitTypeIO::from_sessions(rows.push(r)).datafileimmediatesync == PgWaitTypeIO::from_sessions(rows).datafileimmediatesync + (if column_is(r.state, "active"@) && column_is(r.wait_event_type, "io"@) && column_is(r.wait_event, "datafileimmediatesync"@) { 1int } else { 0int }),
        PgWaitTypeIO::from_sessions(rows.push(r)).datafileprefetch == PgWaitTypeIO::from_sessions(rows).datafileprefetch + (if column_is(r.state, "active"@) && column_is(r.wait_event_type, "io"@) && column_is(r.wait_event, "datafileprefetch"@) { 1int } else { 0int }),
        PgWaitTypeIO::from_sessions(rows.push(r)).datafileread == PgWaitTypeIO::from_sessions(rows).datafileread + (if column_is(r.state, "active"@) && column_is(r.wait_event_type, "io"@) && column_is(r.wait_event, "datafileread"@) { 1int } else { 0int }),
        PgWaitTypeIO::from_sessions(rows.push(r)).datafilesync == PgWaitTypeIO::from_sessions(rows).datafilesync + (if column_is(r.state, "active"@) && column_is(r.wait_event_type, "io"@) && column_is(r.wait_event, "datafilesync"@) { 1int } else { 0int }),
        PgWaitTypeIO::from_sessions(rows.push(r)).datafiletruncate == PgWaitTypeIO::from_sessions(rows).datafiletruncate + (if column_is(r.state, "active"@) && column_is(r.wait_event_type, "io"@) && column_is(r.wait_event, "datafiletruncate"@) { 1int } else { 0int }),
        PgWaitTypeIO::from_sessions(rows.push(r)).datafilewrite == PgWaitTypeIO::from_sessions(rows).datafilewrite + (if column_is(r.state, "active"@) && column_is(r.wait_event_type, "io"@) && column_is(r.wait_event, "datafilewrite"@) { 1int } else { 0int }),
        PgWaitTypeIO::from_sessions(rows.push(r)).lockfileaddtodatadirread == PgWaitTypeIO::from_sessions(rows).lockfileaddtodatadirread + (if column_is(r.state, "active"@) && column_is(r.wait_event_type, "io"@) && column_is(r.wait_event, "lockfileaddtodatadirread"@) { 1int } else { 0int }),
        PgWaitTypeIO::from_sessions(rows.push(r)).lockfileaddtodatadirsync == PgWaitTypeIO::from_sessions(rows).lockfileaddtodatadirsync + (if column_is(r.state, "active"@) && column_is(r.wait_event_type, "io"@) && column_is(r.wait_event, "lockfileaddtodatadirsync"@) { 1int } else { 0int }),
        PgWaitTypeIO::from_sessions(rows.push(r)).lockfileaddtodatadirwrite == PgWaitTypeIO::from_sessions(rows).lockfileaddtodatadirwrite + (if column_is(r.state, "active"@) && column_is(r.wait_event_type, "io"@) && column_is(r.wait_event, "lockfileaddtodatadirwrite"@) { 1int } else { 0int }),
        PgWaitTypeIO::from_sessions(rows.push(r)).lockfilecreateread == PgWaitTypeIO::from_sessions(rows).lockfilecreateread + (if column_is(r.state, "active"@) && column_is(r.wait_event_type, "io"@) && column_is(r.wait_event, "lockfilecreateread"@) { 1int } else { 0int }),
        PgWaitTypeIO::from_sessions(rows.push(r)).lockfilecreatesync == PgWaitTypeIO::from_sessions(rows).lockfilecreatesync + (if column_is(r.state, "active"@) && column_is(r.wait_event_type, "io"@) && column_is(r.wait_event, "lockfilecreatesync"@) { 1int } else { 0int }),
        PgWaitTypeIO::from_sessions(rows.push(r)).lockfilecreatewrite == PgWaitTypeIO::from_sessions(rows).lockfilecreatewrite + (if column_is(r.state, "active"@) && column_is(r.wait_event_type, "io"@) && column_is(r.wait_event, "lockfilecreatewrite"@) { 1int } else { 0int }),
        PgWaitTypeIO::from_sessions(rows.push(r)).lockfilerecheckdatadirread == PgWaitTypeIO::from_sessions(rows).lockfilerecheckdatadirread + (if column_is(r.state, "active"@) && column_is(r.wait_event_type, "io"@) && column_is(r.wait_event, "lockfilerecheckdatadirread"@) { 1int } else { 0int }),
        PgWaitTypeIO::from_sessions(rows.push(r)).logicalrewritecheckpointsync == PgWaitTypeIO::from_sessions(rows).logicalrewritecheckpointsync + (if column_is(r.state, "active"@) && column_is(r.wait_event_type, "io"@) && column_is(r.wait_event, "logicalrewritecheckpointsync"@) { 1int } else { 0int }),
        PgWaitTypeIO::from_sessions(rows.push(r)).logicalrewritemappingsync == PgWaitTypeIO::from_sessions(rows).logicalrewritemappingsync + (if column_is(r.state, "active"@) && column_is(r.wait_event_type, "io"@) && column_is(r.wait_event, "logicalrewritemappingsync"@) { 1int } else { 0int }),
        PgWaitTypeIO::from_sessions(rows.push(r)).logicalrewritemappingwrite == PgWaitTypeIO::from_sessions(rows).logicalrewritemappingwrite + (if column_is(r.state, "active"@) && column_is(r.wait_event_type, "io"@) && column_is(r.wait_event, "logicalrewritemappingwrite"@) { 1int } else { 0int }),
        PgWaitTypeIO::from_sessions(rows.push(r)).logicalrewritesync == PgWaitTypeIO::from_sessions(rows).logicalrewritesync + (if column_is(r.state, "active"@) && column_is(r.wait_event_type, "io"@) && column_is(r.wait_event, "logicalrewritesync"@) { 1int } else { 0int }),
        PgWaitTypeIO::from_sessions(rows.push(r)).logicalrewritetruncate == PgWaitTypeIO::from_sessions(rows).logicalrewritetruncate + (if column_is(r.state, "active"@) && column_is(r.wait_event_type, "io"@) && column_is(r.wait_event, "logicalrewritetruncate"@) { 1int } else { 0int }),
        PgWaitTypeIO::from_sessions(rows.push(r)).logicalrewritewrite == PgWaitTypeIO::from_sessions(rows).logicalrewritewrite + (if column_is(r.state, "active"@) && column_is(r.wait_event_type, "io"@) && column_is(r.wait_event, "logicalrewritewrite"@) { 1int } else { 0int }),
        PgWaitTypeIO::from_sessions(rows.push(r)).relationmapread == PgWaitTypeIO::from_sessions(rows).relationmapread + (if column_is(r.state, "active"@) && column_is(r.wait_event_type, "io"@) && column_is(r.wait_event, "relationmapread"@) { 1int } else { 0int }),
        PgWaitTypeIO::from_sessions(rows.push(r)).relationmapreplace == PgWaitTypeIO::from_sessions(rows).relationmapreplace + (if column_is(r.state, "active"@) && column_is(r.wait_event_type, "io"@) && column_is(r.wait_event, "relationmapreplace"@) { 1int } else { 0int }),
        PgWaitTypeIO::from_sessions(rows.push(r)).relationmapwrite == PgWaitTypeIO::from_sessions(rows).relationmapwrite + (if column_is(r.state, "active"@) && column_is(r.wait_event_type, "io"@) && column_is(r.wait_event, "relationmapwrite"@) { 1int } else { 0int }),
        PgWaitTypeIO::from_sessions(rows.push(r)).reorderbufferread == PgWaitTypeIO::from_sessions(rows).reorderbufferread + (if column_is(r.state, "active"@) && column_is(r.wait_event_type, "io"@) && column_is(r.wait_event, "reorderbufferread"@) { 1int } else { 0int }),
        PgWaitTypeIO::from_sessions(rows.push(r)).reorderbufferwrite == PgWaitTypeIO::from_sessions(rows).reorderbufferwrite + (if column_is(r.state, "active"@) && column_is(r.wait_event_type, "io"@) && column_is(r.wait_event, "reorderbufferwrite"@) { 1int } else { 0int }),
        PgWaitTypeIO::from_sessions(rows.push(r)).reorderlogicalmappingread == PgWaitTypeIO::from_sessions(rows).reorderlogicalmappingread + (if column_is(r.state, "active"@) && column_is(r.wait_event_type, "io"@) && column_is(r.wait_event, "reorderlogicalmappingread"@) { 1int } else { 0int }),
        PgWaitTypeIO::from_sessions(rows.push(r)).replicationslotread == PgWaitTypeIO::from_sessions(rows).replicationslotread + (if column_is(r.state, "active"@) && column_is(r.wait_event_type, "io"@) && column_is(r.wait_event, "replicationslotread"@) { 1int } else { 0int }),
        PgWaitTypeIO::from_sessions(rows.push(r)).replicationslotrestoresync == PgWaitTypeIO::from_sessions(rows).replicationslotrestoresync + (if column_is(r.state, "active"@) && column_is(r.wait_event_type, "io"@) && column_is(r.wait_event, "replicationslotrestoresync"@) { 1int } else { 0int }),
        PgWaitTypeIO::from_sessions(rows.push(r)).replicationslotsync == PgWaitTypeIO::from_sessions(rows).replicationslotsync + (if column_is(r.state, "active"@) && column_is(r.wait_event_type, "io"@) && column_is(r.wait_event, "replicationslotsync"@) { 1int } else { 0int }),
        PgWaitTypeIO::from_sessions(rows.push(r)).replicationslotwrite == PgWaitTypeIO::from_sessions(rows).replicationslotwrite + (if column_is(r.state, "active"@) && column_is(r.wait_event_type, "io"@) && column_is(r.wait_event, "replicationslotwrite"@) { 1int } else { 0int }),
        PgWaitTypeIO::from_sessions(rows.push(r)).slruflushsync == PgWaitTypeIO::from_sessions(rows).slruflushsync + (if column_is(r.state, "active"@) && column_is(r.wait_event_type, "io"@) && column_is(r.wait_event, "slruflushsync"@) { 1int } else { 0int }),
        PgWaitTypeIO::from_sessions(rows.push(r)).slruread == PgWaitTypeIO::from_sessions(rows).slruread + (if column_is(r.state, "active"@) && column_is(r.wait_event_type, "io"@) && column_is(r.wait_event, "slruread"@) { 1int } else { 0int }),
        PgWaitTypeIO::from_sessions(rows.push(r)).slrusync == PgWaitTypeIO::from_sessions(rows).slrusync + (if column_is(r.state, "active"@) && column_is(r.wait_event_type, "io"@) && column_is(r.wait_event, "slrusync"@) { 1int } else { 0int }),
        PgWaitTypeIO::from_sessions(rows.push(r)).slruwrite == PgWaitTypeIO::from_sessions(rows).slruwrite + (if column_is(r.state, "active"@) && column_is(r.wait_event_type, "io"@) && column_is(r.wait_event, "slruwrite"@) { 1int } else { 0int }),
        PgWaitTypeIO::from_sessions(rows.push(r)).snapbuildread == PgWaitTypeIO::from_sessions(rows).snapbuildread + (if column_is(r.state, "active"@) && column_is(r.wait_event_type, "io"@) && column_is(r.wait_event, "snapbuildread"@) { 1int } else { 0int }),
        PgWaitTypeIO::from_sessions(rows.push(r)).snapbuildsync == PgWaitTypeIO::from_sessions(rows).snapbuildsync + (if column_is(r.state, "active"@) && column_is(r.wait_event_type, "io"@) && column_is(r.wait_event, "snapbuildsync"@) { 1int } else { 0int }),
        PgWaitTypeIO::from_sessions(rows.push(r)).snapbuildwrite == PgWaitTypeIO::from_sessions(rows).snapbuildwrite + (if column_is(r.state, "active"@) && column_is(r.wait_event_type, "io"@) && column_is(r.wait_event, "snapbuildwrite"@) { 1int } else { 0int }),
        PgWaitTypeIO::from_sessions(rows.push(r)).timelinehistoryfilesync == PgWaitTypeIO::from_sessions(rows).timelinehistoryfilesync + (if column_is(r.state, "active"@) && column_is(r.wait_event_type, "io"@) && column_is(r.wait_event, "timelinehistoryfilesync"@) { 1int } else { 0int }),
        PgWaitTypeIO::from_sessions(rows.push(r)).timelinehistoryfilewrite == PgWaitTypeIO::from_sessions(rows).timelinehistoryfilewrite + (if column_is(r.state, "active"@) && column_is(r.wait_event_type, "io"@) && column_is(r.wait_event, "timelinehistoryfilewrite"@) { 1int } else { 0int }),
        PgWaitTypeIO::from_sessions(rows.push(r)).timelinehistoryread == PgWaitTypeIO::from_sessions(rows).timelinehistoryread + (if column_is(r.state, "active"@) && column_is(r.wait_event_type, "io"@) && column_is(r.wait_event, "timelinehistoryread"@) { 1int } else { 0int }),
        PgWaitTypeIO::from_sessions(rows.push(r)).timelinehistorysync == PgWaitTypeIO::from_sessions(rows).timelinehistorysync + (if column_is(r.state, "active"@) && column_is(r.wait_event_type, "io"@) && column_is(r.wait_event, "timelinehistorysync"@) { 1int } else { 0int }),
        PgWaitTypeIO::from_sessions(rows.push(r)).timelinehistorywrite == PgWaitTypeIO::from_sessions(rows).timelinehistorywrite + (if column_is(r.state, "active"@) && column_is(r.wait_event_type, "io"@) && column_is(r.wait_event, "timelinehistorywrite"@) { 1int } else { 0int }),
        PgWaitTypeIO::from_sessions(rows.push(r)).twophasefileread == PgWaitTypeIO::from_sessions(rows).twophasefileread + (if column_is(r.state, "active"@) && column_is(r.wait_event_type, "io"@) && column_is(r.wait_event, "twophasefileread"@) { 1int } else { 0int }),
        PgWaitTypeIO::from_sessions(rows.push(r)).twophasefilesync == PgWaitTypeIO::from_sessions(rows).twophasefilesync + (if column_is(r.state, "active"@) && column_is(r.wait_event_type, "io"@) && column_is(r.wait_event, "twophasefilesync"@) { 1int } else { 0int }),
        PgWaitTypeIO::from_sessions(rows.push(r)).twophasefilewrite == PgWaitTypeIO::from_sessions(rows).twophasefilewrite + (if column_is(r.state, "active"@) && column_is(r.wait_event_type, "io"@) && column_is(r.wait_event, "twophasefilewrite"@) { 1int } else { 0int }),
        PgWaitTypeIO::from_sessions(rows.push(r)).versionfilesync == PgWaitTypeIO::from_sessions(rows).versionfilesync + (if column_is(r.state, "active"@) && column_is(r.wait_event_type, "io"@) && column_is(r.wait_event, "versionfilesync"@) { 1int } else { 0int }),
        PgWaitTypeIO::from_sessions(rows.push(r)).versionfilewrite == PgWaitTypeIO::from_sessions(rows).versionfilewrite + (if column_is(r.state, "active"@) && column_is(r.wait_event_type, "io"@) && column_is(r.wait_event, "versionfilewrite"@) { 1int } else { 0int }),
        PgWaitTypeIO::from_sessions(rows.push(r)).walbootstrapsync == PgWaitTypeIO::from_sessions(rows).walbootstrapsync + (if column_is(r.state, "active"@) && column_is(r.wait_event_type, "io"@) && column_is(r.wait_event, "walbootstrapsync"@) { 1int } else { 0int }),
        PgWaitTypeIO::from_sessions(rows.push(r)).walbootstrapwrite == PgWaitTypeIO::from_sessions(rows).walbootstrapwrite + (if column_is(r.state, "active"@) && column_is(r.wait_event_type, "io"@) && column_is(r.wait_event, "walbootstrapwrite"@) { 1int } else { 0int }),
        PgWaitTypeIO::from_sessions(rows.push(r)).walcopyread == PgWaitTypeIO::from_sessions(rows).walcopyread + (if column_is(r.state, "active"@) && column_is(r.wait_event_type, "io"@) && column_is(r.wait_event, "walcopyread"@) { 1int } else { 0int }),
        PgWaitTypeIO::from_sessions(rows.push(r)).walcopysync == PgWaitTypeIO::from_sessions(rows).walcopysync + (if column_is(r.state, "active"@) && column_is(r.wait_event_type, "io"@) && column_is(r.wait_event, "walcopysync"@) { 1int } else { 0int }),
        PgWaitTypeIO::from_sessions(rows.push(r)).walcopywrite == PgWaitTypeIO::from_sessions(rows).walcopywrite + (if column_is(r.state, "active"@) && column_is(r.wait_event_type, "io"@) && column_is(r.wait_event, "walcopywrite"@) { 1int } else { 0int }),
        PgWaitTypeIO::from_sessions(rows.push(r)).walinitsync == PgWaitTypeIO::from_sessions(rows).walinitsync + (if column_is(r.state, "active"@) && column_is(r.wait_event_type, "io"@) && column_is(r.wait_event, "walinitsync"@) { 1int } else { 0int }),
        PgWaitTypeIO::from_sessions(rows.push(r)).walinitwrite == PgWaitTypeIO::from_sessions(rows).walinitwrite + (if column_is(r.state, "active"@) && column_is(r.wait_event_type, "io"@) && column_is(r.wait_event, "walinitwrite"@) { 1int } else { 0int }),
        PgWaitTypeIO::from_sessions(rows.push(r)).walread == PgWaitTypeIO::from_sessions(rows).walread + (if column_is(r.state, "active"@) && column_is(r.wait_event_type, "io"@) && column_is(r.wait_event, "walread"@) { 1int } else { 0int }),
        PgWaitTypeIO::from_sessions(rows.push(r)).walsendertimelinehistoryread == PgWaitTypeIO::from_sessions(rows).walsendertimelinehistoryread + (if column_is(r.state, "active"@) && column_is(r.wait_event_type, "io"@) && column_is(r.wait_event, "walsendertimelinehistoryread"@) { 1int } else { 0int }),
        PgWaitTypeIO::from_sessions(rows.push(r)).walsync == PgWaitTypeIO::from_sessions(rows).walsync + (if column_is(r.state, "active"@) && column_is(r.wait_event_type, "io"@) && column_is(r.wait_event, "walsync"@) { 1int } else { 0int }),
        PgWaitTypeIO::from_sessions(rows.push(r)).walsyncmethodassign == PgWaitTypeIO::from_sessions(rows).walsyncmethodassign + (if column_is(r.state, "active"@) && column_is(r.wait_event_type, "io"@) && column_is(r.wait_event, "walsyncmethodassign"@) { 1int } else { 0int }),
        PgWaitTypeIO::from_sessions(rows.push(r)).walwrite == PgWaitTypeIO::from_sessions(rows).walwrite + (if column_is(r.state, "active"@) && column_is(r.wait_event_type, "io"@) && column_is(r.wait_event, "walwrite"@) { 1int } else { 0int }),
        PgWaitTypeIO::from_sessions(rows.push(r)).other == PgWaitTypeIO::from_sessions(rows).other + (if column_is(r.state, "active"@) && column_is(r.wait_event_type, "io"@) && !(column_is(r.wait_event, "basebackupread"@) || column_is(r.wait_event, "basebackupsync"@) || column_is(r.wait_event, "basebackupwrite"@) || column_is(r.wait_event, "buffileread"@) || column_is(r.wait_event, "buffiletruncate"@) || column_is(r.wait_event, "buffilewrite"@) || column_is(r.wait_event, "controlfileread"@) || column_is(r.wait_event, "controlfilesync"@) || column_is(r.wait_event, "controlfilesyncupdate"@) || column_is(r.wait_event, "controlfilewrite"@) || column_is(r.wait_event, "controlfilewriteupdate"@) || column_is(r.wait_event, "copyfileread"@) || column_is(r.wait_event, "copyfilewrite"@) || column_is(r.wait_event, "dsmallocate"@) || column_is(r.wait_event, "dsmfillzerowrite"@) || column_is(r.wait_event, "datafileextend"@) || column_is(r.wait_event, "datafileflush"@) || column_is(r.wait_event, "datafileimmediatesync"@) || column_is(r.wait_event, "datafileprefetch"@) || column_is(r.wait_event, "datafileread"@) || column_is(r.wait_event, "datafilesync"@) || column_is(r.wait_event, "datafiletruncate"@) || column_is(r.wait_event, "datafilewrite"@) || column_is(r.wait_event, "lockfileaddtodatadirread"@) || column_is(r.wait_event, "lockfileaddtodatadirsync"@) || column_is(r.wait_event, "lockfileaddtodatadirwrite"@) || column_is(r.wait_event, "lockfilecreateread"@) || column_is(r.wait_event, "lockfilecreatesync"@) || column_is(r.wait_event, "lockfilecreatewrite"@) || column_is(r.wait_event, "lockfilerecheckdatadirread"@) || column_is(r.wait_event, "logicalrewritecheckpointsync"@) || column_is(r.wait_event, "logicalrewritemappingsync"@) || column_is(r.wait_event, "logicalrewritemappingwrite"@) || column_is(r.wait_event, "logicalrewritesync"@) || column_is(r.wait_event, "logicalrewritetruncate"@) || column_is(r.wait_event, "logicalrewritewrite"@) || column_is(r.wait_event, "relationmapread"@) || column_is(r.wait_event, "relationmapreplace"@) || column_is(r.wait_event, "relationmapwrite"@) || column_is(r.wait_event, "reorderbufferread"@) || column_is(r.wait_event, "reorderbufferwrite"@) || column_is(r.wait_event, "reorderlogicalmappingread"@) || column_is(r.wait_event, "replicationslotread"@) || column_is(r.wait_event, "replicationslotrestoresync"@) || column_is(r.wait_event, "replicationslotsync"@) || column_is(r.wait_event, "replicationslotwrite"@) || column_is(r.wait_event, "slruflushsync"@) || column_is(r.wait_event, "slruread"@) || column_is(r.wait_event, "slrusync"@) || column_is(r.wait_event, "slruwrite"@) || column_is(r.wait_event, "snapbuildread"@) || column_is(r.wait_event, "snapbuildsync"@) || column_is(r.wait_event, "snapbuildwrite"@) || column_is(r.wait_event, "timelinehistoryfilesync"@) || column_is(r.wait_event, "timelinehistoryfilewrite"@) || column_is(r.wait_event, "timelinehistoryread"@) || column_is(r.wait_event, "timelinehistorysync"@) || column_is(r.wait_event, "timelinehistorywrite"@) || column_is(r.wait_event, "twophasefileread"@) || column_is(r.wait_event, "twophasefilesync"@) || column_is(r.wait_event, "twophasefilewrite"@) || column_is(r.wait_event, "versionfilesync"@) || column_is(r.wait_event, "versionfilewrite"@) || column_is(r.wait_event, "walbootstrapsync"@) || column_is(r.wait_event, "walbootstrapwrite"@) || column_is(r.wait_event, "walcopyread"@) || column_is(r.wait_event, "walcopysync"@) || column_is(r.wait_event, "walcopywrite"@) || column_is(r.wait_event, "walinitsync"@) || column_is(r.wait_event, "walinitwrite"@) || column_is(r.wait_event, "walread"@) || column_is(r.wait_event, "walsendertimelinehistoryread"@) || column_is(r.wait_event, "walsync"@) || column_is(r.wait_event, "walsyncmethodassign"@) || column_is(r.wait_event, "walwrite"@)) { 1int } else { 0int }),
        PgWaitTypeIO::from_sessions(Seq::empty()).basebackupread == 0,
        PgWaitTypeIO::from_sessions(Seq::empty()).basebackupsync == 0,
        PgWaitTypeIO::from_sessions(Seq::empty()).basebackupwrite == 0,
        PgWaitTypeIO::from_sessions(Seq::empty()).buffileread == 0,
        PgWaitTypeIO::from_sessions(Seq::empty()).buffiletruncate == 0,
        PgWaitTypeIO::from_sessions(Seq::empty()).buffilewrite == 0,
        PgWaitTypeIO::from_sessions(Seq::empty()).controlfileread == 0,
        PgWaitTypeIO::from_sessions(Seq::empty()).controlfilesync == 0,
        PgWaitTypeIO::from_sessions(Seq::empty()).controlfilesyncupdate == 0,
        PgWaitTypeIO::from_sessions(Seq::empty()).controlfilewrite == 0,
        PgWaitTypeIO::from_sessions(Seq::empty()).controlfilewriteupdate == 0,
        PgWaitTypeIO::from_sessions(Seq::empty()).copyfileread == 0,
        PgWaitTypeIO::from_sessions(Seq::empty()).copyfilewrite == 0,
        PgWaitTypeIO::from_sessions(Seq::empty()).dsmallocate == 0,
        PgWaitTypeIO::from_sessions(Seq::empty()).dsmfillzerowrite == 0,
        PgWaitTypeIO::from_sessions(Seq::empty()).datafileextend == 0,
        PgWaitTypeIO::from_sessions(Seq::empty()).datafileflush == 0,
        PgWaitTypeIO::from_sessions(Seq::empty()).datafileimmediatesync == 0,
        PgWaitTypeIO::from_sessions(Seq::empty()).datafileprefetch == 0,
        PgWaitTypeIO::from_sessions(Seq::empty()).datafileread == 0,
        PgWaitTypeIO::from_sessions(Seq::empty()).datafilesync == 0,
        PgWaitTypeIO::from_sessions(Seq::empty()).datafiletruncate == 0,
        PgWaitTypeIO::from_sessions(Seq::empty()).datafilewrite == 0,
        PgWaitTypeIO::from_sessions(Seq::empty()).lockfileaddtodatadirread == 0,
        PgWaitTypeIO::from_sessions(Seq::empty()).lockfileaddtodatadirsync == 0,
        PgWaitTypeIO::from_sessions(Seq::empty()).lockfileaddtodatadirwrite == 0,
        PgWaitTypeIO::from_sessions(Seq::empty()).lockfilecreateread == 0,
        PgWaitTypeIO::from_sessions(Seq::empty()).lockfilecreatesync == 0,
        PgWaitTypeIO::from_sessions(Seq::empty()).lockfilecreatewrite == 0,
        PgWaitTypeIO::from_sessions(Seq::empty()).lockfilerecheckdatadirread == 0,
        PgWaitTypeIO::from_sessions(Seq::empty()).logicalrewritecheckpointsync == 0,
        PgWaitTypeIO::from_sessions(Seq::empty()).logicalrewritemappingsync == 0,
        PgWaitTypeIO::from_sessions(Seq::empty()).logicalrewritemappingwrite == 0,
        PgWaitTypeIO::from_sessions(Seq::empty()).logicalrewritesync == 0,
        PgWaitTypeIO::from_sessions(Seq::empty()).logicalrewritetruncate == 0,
        PgWaitTypeIO::from_sessions(Seq::empty()).logicalrewritewrite == 0,
        PgWaitTypeIO::from_sessions(Seq::empty()).relationmapread == 0,
        PgWaitTypeIO::from_sessions(Seq::empty()).relationmapreplace == 0,
        PgWaitTypeIO::from_sessions(Seq::empty()).relationmapwrite == 0,
        PgWaitTypeIO::from_sessions(Seq::empty()).reorderbufferread == 0,
        PgWaitTypeIO::from_sessions(Seq::empty()).reorderbufferwrite == 0,
        PgWaitTypeIO::from_sessions(Seq::empty()).reorderlogicalmappingread == 0,
        PgWaitTypeIO::from_sessions(Seq::empty()).replicationslotread == 0,
        PgWaitTypeIO::from_sessions(Seq::empty()).replicationslotrestoresync == 0,
        PgWaitTypeIO::from_sessions(Seq::empty()).replicationslotsync == 0,
        PgWaitTypeIO::from_sessions(Seq::empty()).replicationslotwrite == 0,
        PgWaitTypeIO::from_sessions(Seq::empty()).slruflushsync == 0,
        PgWaitTypeIO::from_sessions(Seq::empty()).slruread == 0,
        PgWaitTypeIO::from_sessions(Seq::empty()).slrusync == 0,
        PgWaitTypeIO::from_sessions(Seq::empty()).slruwrite == 0,
        PgWaitTypeIO::from_sessions(Seq::empty()).snapbuildread == 0,
        PgWaitTypeIO::from_sessions(Seq::empty()).snapbuildsync == 0,
        PgWaitTypeIO::from_sessions(Seq::empty()).snapbuildwrite == 0,
        PgWaitTypeIO::from_sessions(Seq::empty()).timelinehistoryfilesync == 0,
        PgWaitTypeIO::from_sessions(Seq::empty()).timelinehistoryfilewrite == 0,
        PgWaitTypeIO::from_sessions(Seq::empty()).timelinehistoryread == 0,
        PgWaitTypeIO::from_sessions(Seq::empty()).timelinehistorysync == 0,
        PgWaitTypeIO::from_sessions(Seq::empty()).timelinehistorywrite == 0,
        PgWaitTypeIO::from_sessions(Seq::empty()).twophasefileread == 0,
        PgWaitTypeIO::from_sessions(Seq::empty()).twophasefilesync == 0,
        PgWaitTypeIO::from_sessions(Seq::empty()).twophasefilewrite == 0,
        PgWaitTypeIO::from_sessions(Seq::empty()).versionfilesync == 0,
        PgWaitTypeIO::from_sessions(Seq::empty()).versionfilewrite == 0,
        PgWaitTypeIO::from_sessions(Seq::empty()).walbootstrapsync == 0,
        PgWaitTypeIO::from_sessions(Seq::empty()).walbootstrapwrite == 0,
        PgWaitTypeIO::from_sessions(Seq::empty()).walcopyread == 0,
        PgWaitTypeIO::from_sessions(Seq::empty()).walcopysync == 0,
        PgWaitTypeIO::from_sessions(Seq::empty()).walcopywrite == 0,
        PgWaitTypeIO::from_sessions(Seq::empty()).walinitsync == 0,
        PgWaitTypeIO::from_sessions(Seq::empty()).walinitwrite == 0,
        PgWaitTypeIO::from_sessions(Seq::empty()).walread == 0,
        PgWaitTypeIO::from_sessions(Seq::empty()).walsendertimelinehistoryread == 0,
        PgWaitTypeIO::from_sessions(Seq::empty()).walsync == 0,
        PgWaitTypeIO::from_sessions(Seq::empty()).walsyncmethodassign == 0,
        PgWaitTypeIO::from_sessions(Seq::empty()).walwrite == 0,
        PgWaitTypeIO::from_sessions(Seq::empty()).other == 0,
{
    lemma_io_events_push_0(rows, r);
    lemma_io_events_push_1(rows, r);
    lemma_io_events_push_2(rows, r);
    lemma_io_events_push_3(rows, r);
    lemma_io_events_push_4(rows, r);
    lemma_io_other_push(rows, r);
}

proof fn lemma_io_events_push_0(rows: Seq<PgStatActivity>, r: PgStatActivity)
    requires
        rows.len() < usize::MAX,
    ensures
        PgWaitTypeIO::from_sessions(rows.push(r)).basebackupread == PgWaitTypeIO::from_sessions(rows).basebackupread + (if column_is(r.state, "active"@) && column_is(r.wait_event_type, "io"@) && column_is(r.wait_event, "basebackupread"@) { 1int } else { 0int }),
        PgWaitTypeIO::from_sessions(rows.push(r)).basebackupsync == PgWaitTypeIO::from_sessions(rows).basebackupsync + (if column_is(r.state, "active"@) && column_is(r.wait_event_type, "io"@) && column_is(r.wait_event, "basebackupsync"@) { 1int } else { 0int }),
        PgWaitTypeIO::from_sessions(rows.push(r)).basebackupwrite == PgWaitTypeIO::from_sessions(rows).basebackupwrite + (if column_is(r.state, "active"@) && column_is(r.wait_event_type, "io"@) && column_is(r.wait_event, "basebackupwrite"@) { 1int } else { 0int }),
        PgWaitTypeIO::from_sessions(rows.push(r)).buffileread == PgWaitTypeIO::from_sessions(rows).buffileread + (if column_is(r.state, "active"@) && column_is(r.wait_event_type, "io"@) && column_is(r.wait_event, "buffileread"@) { 1int } else { 0int }),
        PgWaitTypeIO::from_sessions(rows.push(r)).buffiletruncate == PgWaitTypeIO::from_sessions(rows).buffiletruncate + (if column_is(r.state, "active"@) && column_is(r.wait_event_type, "io"@) && column_is(r.wait_event, "buffiletruncate"@) { 1int } else { 0int }),
        PgWaitTypeIO::from_sessions(rows.push(r)).buffilewrite == PgWaitTypeIO::from_sessions(rows).buffilewrite + (if column_is(r.state, "active"@) && column_is(r.wait_event_type, "io"@) && column_is(r.wait_event, "buffilewrite"@) { 1int } else { 0int }),
        PgWaitTypeIO::from_sessions(rows.push(r)).controlfileread == PgWaitTypeIO::from_sessions(rows).controlfileread + (if column_is(r.state, "active"@) && column_is(r.wait_event_type, "io"@) && column_is(r.wait_event, "controlfileread"@) { 1int } else { 0int }),
        PgWaitTypeIO::from_sessions(rows.push(r)).controlfilesync == PgWaitTypeIO::from_sessions(rows).controlfilesync + (if column_is(r.state, "active"@) && column_is(r.wait_event_type, "io"@) && column_is(r.wait_event, "controlfilesync"@) { 1int } else { 0int }),
        PgWaitTypeIO::from_sessions(rows.push(r)).controlfilesyncupdate == PgWaitTypeIO::from_sessions(rows).controlfilesyncupdate + (if column_is(r.state, "active"@) && column_is(r.wait_event_type, "io"@) && column_is(r.wait_event, "controlfilesyncupdate"@) { 1int } else { 0int }),
        PgWaitTypeIO::from_sessions(rows.push(r)).controlfilewrite == PgWaitTypeIO::from_sessions(rows).controlfilewrite + (if column_is(r.state, "active"@) && column_is(r.wait_event_type, "io"@) && column_is(r.wait_event, "controlfilewrite"@) { 1int } else { 0int }),
        PgWaitTypeIO::from_sessions(rows.push(r)).controlfilewriteupdate == PgWaitTypeIO::from_sessions(rows).controlfilewriteupdate + (if column_is(r.state, "active"@) && column_is(r.wait_event_type, "io"@) && column_is(r.wait_event, "controlfilewriteupdate"@) { 1int } else { 0int }),
        PgWaitTypeIO::from_sessions(rows.push(r)).copyfileread == PgWaitTypeIO::from_sessions(rows).copyfileread + (if column_is(r.state, "active"@) && column_is(r.wait_event_type, "io"@) && column_is(r.wait_event, "copyfileread"@) { 1int } else { 0int }),
        PgWaitTypeIO::from_sessions(rows.push(r)).copyfilewrite == PgWaitTypeIO::from_sessions(rows).copyfilewrite + (if column_is(r.state, "active"@) && column_is(r.wait_event_type, "io"@) && column_is(r.wait_event, "copyfilewrite"@) { 1int } else { 0int }),
        PgWaitTypeIO::from_sessions(rows.push(r)).dsmallocate == PgWaitTypeIO::from_sessions(rows).dsmallocate + (if column_is(r.state, "active"@) && column_is(r.wait_event_type, "io"@) && column_is(r.wait_event, "dsmallocate"@) { 1int } else { 0int }),
        PgWaitTypeIO::from_sessions(rows.push(r)).dsmfillzerowrite == PgWaitTypeIO::from_sessions(rows).dsmfillzerowrite + (if column_is(r.state, "active"@) && column_is(r.wait_event_type, "io"@) && column_is(r.wait_event, "dsmfillzerowrite"@) { 1int } else { 0int }),
{
    reveal_strlit("active");
    assert("active"@.len() == 6);
    reveal_strlit("basebackupread");
    assert("basebackupread"@.len() == 14);
    reveal_strlit("basebackupsync");
    assert("basebackupsync"@.len() == 14);
    reveal_strlit("basebackupwrite");
    assert("basebackupwrite"@.len() == 15);
    reveal_strlit("buffileread");
    assert("buffileread"@.len() == 11);
    reveal_strlit("buffiletruncate");
    assert("buffiletruncate"@.len() == 15);
    reveal_strlit("buffilewrite");
    assert("buffilewrite"@.len() == 12);
    reveal_strlit("controlfileread");
    assert("controlfileread"@.len() == 15);
    reveal_strlit("controlfilesync");
    assert("controlfilesync"@.len() == 15);
    reveal_strlit("controlfilesyncupdate");
    assert("controlfilesyncupdate"@.len() == 21);
    reveal_strlit("controlfilewrite");
    assert("controlfilewrite"@.len() == 16);
    reveal_strlit("controlfilewriteupdate");
    assert("controlfilewriteupdate"@.len() == 22);
    reveal_strlit("copyfileread");
    assert("copyfileread"@.len() == 12);
    reveal_strlit("copyfilewrite");
    assert("copyfilewrite"@.len() == 13);
    reveal_strlit("dsmallocate");
    assert("dsmallocate"@.len() == 11);
    reveal_strlit("dsmfillzerowrite");
    assert("dsmfillzerowrite"@.len() == 16);
    reveal_strlit("io");
    assert("io"@.len() == 2);
    lemma_count_after_push(rows, r, SessionFilter::WaitEvent("io"@, "basebackupread"@));
    lemma_count_bound(rows.push(r), SessionFilter::WaitEvent("io"@, "basebackupread"@));
    lemma_count_bound(rows, SessionFilter::WaitEvent("io"@, "basebackupread"@));
    lemma_count_after_push(rows, r, SessionFilter::WaitEvent("io"@, "basebackupsync"@));
    lemma_count_bound(rows.push(r), SessionFilter::WaitEvent("io"@, "basebackupsync"@));
    lemma_count_bound(rows, SessionFilter::WaitEvent("io"@, "basebackupsync"@));
    lemma_count_after_push(rows, r, SessionFilter::WaitEvent("io"@, "basebackupwrite"@));
    lemma_count_bound(rows.push(r), SessionFilter::WaitEvent("io"@, "basebackupwrite"@));
    lemma_count_bound(rows, SessionFilter::WaitEvent("io"@, "basebackupwrite"@));
    lemma_count_after_push(rows, r, SessionFilter::WaitEvent("io"@, "buffileread"@));
    lemma_count_bound(rows.push(r), SessionFilter::WaitEvent("io"@, "buffileread"@));
    lemma_count_bound(rows, SessionFilter::WaitEvent("io"@, "buffileread"@));
    lemma_count_after_push(rows, r, SessionFilter::WaitEvent("io"@, "buffiletruncate"@));
    lemma_count_bound(rows.push(r), SessionFilter::WaitEvent("io"@, "buffiletruncate"@));
    lemma_count_bound(rows, SessionFilter::WaitEvent("io"@, "buffiletruncate"@));
    lemma_count_after_push(rows, r, SessionFilter::WaitEvent("io"@, "buffilewrite"@));
    lemma_count_bound(rows.push(r), SessionFilter::WaitEvent("io"@, "buffilewrite"@));
    lemma_count_bound(rows, SessionFilter::WaitEvent("io"@, "buffilewrite"@));
    lemma_count_after_push(rows, r, SessionFilter::WaitEvent("io"@, "controlfileread"@));
    lemma_count_bound(rows.push(r), SessionFilter::WaitEvent("io"@, "controlfileread"@));
    lemma_count_bound(rows, SessionFilter::WaitEvent("io"@, "controlfileread"@));
    lemma_count_after_push(rows, r, SessionFilter::WaitEvent("io"@, "controlfilesync"@));
    lemma_count_bound(rows.push(r), SessionFilter::WaitEvent("io"@, "controlfilesync"@));
    lemma_count_bound(rows, SessionFilter::WaitEvent("io"@, "controlfilesync"@));
    lemma_count_after_push(rows, r, SessionFilter::WaitEvent("io"@, "controlfilesyncupdate"@));
    lemma_count_bound(rows.push(r), SessionFilter::WaitEvent("io"@, "controlfilesyncupdate"@));
    lemma_count_bound(rows, SessionFilter::WaitEvent("io"@, "controlfilesyncupdate"@));
    lemma_count_after_push(rows, r, SessionFilter::WaitEvent("io"@, "controlfilewrite"@));
    lemma_count_bound(rows.push(r), SessionFilter::WaitEvent("io"@, "controlfilewrite"@));
    lemma_count_bound(rows, SessionFilter::WaitEvent("io"@, "controlfilewrite"@));
    lemma_count_after_push(rows, r, SessionFilter::WaitEvent("io"@, "controlfilewriteupdate"@));
    lemma_count_bound(rows.push(r), SessionFilter::WaitEvent("io"@, "controlfilewriteupdate"@));
    lemma_count_bound(rows, SessionFilter::WaitEvent("io"@, "controlfilewriteupdate"@));
    lemma_count_after_push(rows, r, SessionFilter::WaitEvent("io"@, "copyfileread"@));
    lemma_count_bound(rows.push(r), SessionFilter::WaitEvent("io"@, "copyfileread"@));
    lemma_count_bound(rows, SessionFilter::WaitEvent("io"@, "copyfileread"@));
    lemma_count_after_push(rows, r, SessionFilter::WaitEvent("io"@, "copyfilewrite"@));
    lemma_count_bound(rows.push(r), SessionFilter::WaitEvent("io"@, "copyfilewrite"@));
    lemma_count_bound(rows, SessionFilter::WaitEvent("io"@, "copyfilewrite"@));
    lemma_count_after_push(rows, r, SessionFilter::WaitEvent("io"@, "dsmallocate"@));
    lemma_count_bound(rows.push(r), SessionFilter::WaitEvent("io"@, "dsmallocate"@));
    lemma_count_bound(rows, SessionFilter::WaitEvent("io"@, "dsmallocate"@));
    lemma_count_after_push(rows, r, SessionFilter::WaitEvent("io"@, "dsmfillzerowrite"@));
    lemma_count_bound(rows.push(r), SessionFilter::WaitEvent("io"@, "dsmfillzerowrite"@));
    lemma_count_bound(rows, SessionFilter::WaitEvent("io"@, "dsmfillzerowrite"@));
}

proof fn lemma_io_events_push_1(rows: Seq<PgStatActivity>, r: PgStatActivity)
    requires
        rows.len() < usize::MAX,
    ensures
        PgWaitTypeIO::from_sessions(rows.push(r)).datafileextend == PgWaitTypeIO::from_sessions(rows).datafileextend + (if column_is(r.state, "active"@) && column_is(r.wait_event_type, "io"@) && column_is(r.wait_event, "datafileextend"@) { 1int } else { 0int }),
        PgWaitTypeIO::from_sessions(rows.push(r)).datafileflush == PgWaitTypeIO::from_sessions(rows).datafileflush + (if column_is(r.state, "active"@) && column_is(r.wait_event_type, "io"@) && column_is(r.wait_event, "datafileflush"@) { 1int } else { 0int }),
        PgWaitTypeIO::from_sessions(rows.push(r)).datafileimmediatesync == PgWaitTypeIO::from_sessions(rows).datafileimmediatesync + (if column_is(r.state, "active"@) && column_is(r.wait_event_type, "io"@) && column_is(r.wait_event, "datafileimmediatesync"@) { 1int } else { 0int }),
        PgWaitTypeIO::from_sessions(rows.push(r)).datafileprefetch == PgWaitTypeIO::from_sessions(rows).datafileprefetch + (if column_is(r.state, "active"@) && column_is(r.wait_event_type, "io"@) && column_is(r.wait_event, "datafileprefetch"@) { 1int } else { 0int }),
        PgWaitTypeIO::from_sessions(rows.push(r)).datafileread == PgWaitTypeIO::from_sessions(rows).datafileread + (if column_is(r.state, "active"@) && column_is(r.wait_event_type, "io"@) && column_is(r.wait_event, "datafileread"@) { 1int } else { 0int }),
        PgWaitTypeIO::from_sessions(rows.push(r)).datafilesync == PgWaitTypeIO::from_sessions(rows).datafilesync + (if column_is(r.state, "active"@) && column_is(r.wait_event_type, "io"@) && column_is(r.wait_event, "datafilesync"@) { 1int } else { 0int }),
        PgWaitTypeIO::from_sessions(rows.push(r)).datafiletruncate == PgWaitTypeIO::from_sessions(rows).datafiletruncate + (if column_is(r.state, "active"@) && column_is(r.wait_event_type, "io"@) && column_is(r.wait_event, "datafiletruncate"@) { 1int } else { 0int }),
        PgWaitTypeIO::from_sessions(rows.push(r)).datafilewrite == PgWaitTypeIO::from_sessions(rows).datafilewrite + (if column_is(r.state, "active"@) && column_is(r.wait_event_type, "io"@) && column_is(r.wait_event, "datafilewrite"@) { 1int } else { 0int }),
        PgWaitTypeIO::from_sessions(rows.push(r)).lockfileaddtodatadirread == PgWaitTypeIO::from_sessions(rows).lockfileaddtodatadirread + (if column_is(r.state, "active"@) && column_is(r.wait_event_type, "io"@) && column_is(r.wait_event, "lockfileaddtodatadirread"@) { 1int } else { 0int }),
        PgWaitTypeIO::from_sessions(rows.push(r)).lockfileaddtodatadirsync == PgWaitTypeIO::from_sessions(rows).lockfileaddtodatadirsync + (if column_is(r.state, "active"@) && column_is(r.wait_event_type, "io"@) && column_is(r.wait_event, "lockfileaddtodatadirsync"@) { 1int } else { 0int }),
        PgWaitTypeIO::from_sessions(rows.push(r)).lockfileaddtodatadirwrite == PgWaitTypeIO::from_sessions(rows).lockfileaddtodatadirwrite + (if column_is(r.state, "active"@) && column_is(r.wait_event_type, "io"@) && column_is(r.wait_event, "lockfileaddtodatadirwrite"@) { 1int } else { 0int }),
        PgWaitTypeIO::from_sessions(rows.push(r)).lockfilecreateread == PgWaitTypeIO::from_sessions(rows).lockfilecreateread + (if column_is(r.state, "active"@) && column_is(r.wait_event_type, "io"@) && column_is(r.wait_event, "lockfilecreateread"@) { 1int } else { 0int }),
        PgWaitTypeIO::from_sessions(rows.push(r)).lockfilecreatesync == PgWaitTypeIO::from_sessions(rows).lockfilecreatesync + (if column_is(r.state, "active"@) && column_is(r.wait_event_type, "io"@) && column_is(r.wait_event, "lockfilecreatesync"@) { 1int } else { 0int }),
        PgWaitTypeIO::from_sessions(rows.push(r)).lockfilecreatewrite == PgWaitTypeIO::from_sessions(rows).lockfilecreatewrite + (if column_is(r.state, "active"@) && column_is(r.wait_event_type, "io"@) && column_is(r.wait_event, "lockfilecreatewrite"@) { 1int } else { 0int }),
        PgWaitTypeIO::from_sessions(rows.push(r)).lockfilerecheckdatadirread == PgWaitTypeIO::from_sessions(rows).lockfilerecheckdatadirread + (if column_is(r.state, "active"@) && column_is(r.wait_event_type, "io"@) && column_is(r.wait_event, "lockfilerecheckdatadirread"@) { 1int } else { 0int }),
{
    reveal_strlit("active");
    assert("active"@.len() == 6);
    reveal_strlit("datafileextend");
    assert("datafileextend"@.len() == 14);
    reveal_strlit("datafileflush");
    assert("datafileflush"@.len() == 13);
    reveal_strlit("datafileimmediatesync");
    assert("datafileimmediatesync"@.len() == 21);
    reveal_strlit("datafileprefetch");
    assert("datafileprefetch"@.len() == 16);
    reveal_strlit("datafileread");
    assert("datafileread"@.len() == 12);
    reveal_strlit("datafilesync");
    assert("datafilesync"@.len() == 12);
    reveal_strlit("datafiletruncate");
    assert("datafiletruncate"@.len() == 16);
    reveal_strlit("datafilewrite");
    assert("datafilewrite"@.len() == 13);
    reveal_strlit("io");
    assert("io"@.len() == 2);
    reveal_strlit("lockfileaddtodatadirread");
    assert("lockfileaddtodatadirread"@.len() == 24);
    reveal_strlit("lockfileaddtodatadirsync");
    assert("lockfileaddtodatadirsync"@.len() == 24);
    reveal_strlit("lockfileaddtodatadirwrite");
    assert("lockfileaddtodatadirwrite"@.len() == 25);
    reveal_strlit("lockfilecreateread");
    assert("lockfilecreateread"@.len() == 18);
    reveal_strlit("lockfilecreatesync");
    assert("lockfilecreatesync"@.len() == 18);
    reveal_strlit("lockfilecreatewrite");
    assert("lockfilecreatewrite"@.len() == 19);
    reveal_strlit("lockfilerecheckdatadirread");
    assert("lockfilerecheckdatadirread"@.len() == 26);
    lemma_count_after_push(rows, r, SessionFilter::WaitEvent("io"@, "datafileextend"@));
    lemma_count_bound(rows.push(r), SessionFilter::WaitEvent("io"@, "datafileextend"@));
    lemma_count_bound(rows, SessionFilter::WaitEvent("io"@, "datafileextend"@));
    lemma_count_after_push(rows, r, SessionFilter::WaitEvent("io"@, "datafileflush"@));
    lemma_count_bound(rows.push(r), SessionFilter::WaitEvent("io"@, "datafileflush"@));
    lemma_count_bound(rows, SessionFilter::WaitEvent("io"@, "datafileflush"@));
    lemma_count_after_push(rows, r, SessionFilter::WaitEvent("io"@, "datafileimmediatesync"@));
    lemma_count_bound(rows.push(r), SessionFilter::WaitEvent("io"@, "datafileimmediatesync"@));
    lemma_count_bound(rows, SessionFilter::WaitEvent("io"@, "datafileimmediatesync"@));
    lemma_count_after_push(rows, r, SessionFilter::WaitEvent("io"@, "datafileprefetch"@));
    lemma_count_bound(rows.push(r), SessionFilter::WaitEvent("io"@, "datafileprefetch"@));
    lemma_count_bound(rows, SessionFilter::WaitEvent("io"@, "datafileprefetch"@));
    lemma_count_after_push(rows, r, SessionFilter::WaitEvent("io"@, "datafileread"@));
    lemma_count_bound(rows.push(r), SessionFilter::WaitEvent("io"@, "datafileread"@));
    lemma_count_bound(rows, SessionFilter::WaitEvent("io"@, "datafileread"@));
    lemma_count_after_push(rows, r, SessionFilter::WaitEvent("io"@, "datafilesync"@));
    lemma_count_bound(rows.push(r), SessionFilter::WaitEvent("io"@, "datafilesync"@));
    lemma_count_bound(rows, SessionFilter::WaitEvent("io"@, "datafilesync"@));
    lemma_count_after_push(rows, r, SessionFilter::WaitEvent("io"@, "datafiletruncate"@));
    lemma_count_bound(rows.push(r), SessionFilter::WaitEvent("io"@, "datafiletruncate"@));
    lemma_count_bound(rows, SessionFilter::WaitEvent("io"@, "datafiletruncate"@));
    lemma_count_after_push(rows, r, SessionFilter::WaitEvent("io"@, "datafilewrite"@));
    lemma_count_bound(rows.push(r), SessionFilter::WaitEvent("io"@, "datafilewrite"@));
    lemma_count_bound(rows, SessionFilter::WaitEvent("io"@, "datafilewrite"@));
    lemma_count_after_push(rows, r, SessionFilter::WaitEvent("io"@, "lockfileaddtodatadirread"@));
    lemma_count_bound(rows.push(r), SessionFilter::WaitEvent("io"@, "lockfileaddtodatadirread"@));
    lemma_count_bound(rows, SessionFilter::WaitEvent("io"@, "lockfileaddtodatadirread"@));
    lemma_count_after_push(rows, r, SessionFilter::WaitEvent("io"@, "lockfileaddtodatadirsync"@));
    lemma_count_bound(rows.push(r), SessionFilter::WaitEvent("io"@, "lockfileaddtodatadirsync"@));
    lemma_count_bound(rows, SessionFilter::WaitEvent("io"@, "lockfileaddtodatadirsync"@));
    lemma_count_after_push(rows, r, SessionFilter::WaitEvent("io"@, "lockfileaddtodatadirwrite"@));
    lemma_count_bound(rows.push(r), SessionFilter::WaitEvent("io"@, "lockfileaddtodatadirwrite"@));
    lemma_count_bound(rows, SessionFilter::WaitEvent("io"@, "lockfileaddtodatadirwrite"@));
    lemma_count_after_push(rows, r, SessionFilter::WaitEvent("io"@, "lockfilecreateread"@));
    lemma_count_bound(rows.push(r), SessionFilter::WaitEvent("io"@, "lockfilecreateread"@));
    lemma_count_bound(rows, SessionFilter::WaitEvent("io"@, "lockfilecreateread"@));
    lemma_count_after_push(rows, r, SessionFilter::WaitEvent("io"@, "lockfilecreatesync"@));
    lemma_count_bound(rows.push(r), SessionFilter::WaitEvent("io"@, "lockfilecreatesync"@));
    lemma_count_bound(rows, SessionFilter::WaitEvent("io"@, "lockfilecreatesync"@));
    lemma_count_after_push(rows, r, SessionFilter::WaitEvent("io"@, "lockfilecreatewrite"@));
    lemma_count_bound(rows.push(r), SessionFilter::WaitEvent("io"@, "lockfilecreatewrite"@));
    lemma_count_bound(rows, SessionFilter::WaitEvent("io"@, "lockfilecreatewrite"@));
    lemma_count_after_push(rows, r, SessionFilter::WaitEvent("io"@, "lockfilerecheckdatadirread"@));
    lemma_count_bound(rows.push(r), SessionFilter::WaitEvent("io"@, "lockfilerecheckdatadirread"@));
    lemma_count_bound(rows, SessionFilter::WaitEvent("io"@, "lockfilerecheckdatadirread"@));
}

proof fn lemma_io_events_push_2(rows: Seq<PgStatActivity>, r: PgStatActivity)
    requires
        rows.len() < usize::MAX,
    ensures
        PgWaitTypeIO::from_sessions(rows.push(r)).logicalrewritecheckpointsync == PgWaitTypeIO::from_sessions(rows).logicalrewritecheckpointsync + (if column_is(r.state, "active"@) && column_is(r.wait_event_type, "io"@) && column_is(r.wait_event, "logicalrewritecheckpointsync"@) { 1int } else { 0int }),
        PgWaitTypeIO::from_sessions(rows.push(r)).logicalrewritemappingsync == PgWaitTypeIO::from_sessions(rows).logicalrewritemappingsync + (if column_is(r.state, "active"@) && column_is(r.wait_event_type, "io"@) && column_is(r.wait_event, "logicalrewritemappingsync"@) { 1int } else { 0int }),
        PgWaitTypeIO::from_sessions(rows.push(r)).logicalrewritemappingwrite == PgWaitTypeIO::from_sessions(rows).logicalrewritemappingwrite + (if column_is(r.state, "active"@) && column_is(r.wait_event_type, "io"@) && column_is(r.wait_event, "logicalrewritemappingwrite"@) { 1int } else { 0int }),
        PgWaitTypeIO::from_sessions(rows.push(r)).logicalrewritesync == PgWaitTypeIO::from_sessions(rows).logicalrewritesync + (if column_is(r.state, "active"@) && column_is(r.wait_event_type, "io"@) && column_is(r.wait_event, "logicalrewritesync"@) { 1int } else { 0int }),
        PgWaitTypeIO::from_sessions(rows.push(r)).logicalrewritetruncate == PgWaitTypeIO::from_sessions(rows).logicalrewritetruncate + (if column_is(r.state, "active"@) && column_is(r.wait_event_type, "io"@) && column_is(r.wait_event, "logicalrewritetruncate"@) { 1int } else { 0int }),
        PgWaitTypeIO::from_sessions(rows.push(r)).logicalrewritewrite == PgWaitTypeIO::from_sessions(rows).logicalrewritewrite + (if column_is(r.state, "active"@) && column_is(r.wait_event_type, "io"@) && column_is(r.wait_event, "logicalrewritewrite"@) { 1int } else { 0int }),
        PgWaitTypeIO::from_sessions(rows.push(r)).relationmapread == PgWaitTypeIO::from_sessions(rows).relationmapread + (if column_is(r.state, "active"@) && column_is(r.wait_event_type, "io"@) && column_is(r.wait_event, "relationmapread"@) { 1int } else { 0int }),
        PgWaitTypeIO::from_sessions(rows.push(r)).relationmapreplace == PgWaitTypeIO::from_sessions(rows).relationmapreplace + (if column_is(r.state, "active"@) && column_is(r.wait_event_type, "io"@) && column_is(r.wait_event, "relationmapreplace"@) { 1int } else { 0int }),
        PgWaitTypeIO::from_sessions(rows.push(r)).relationmapwrite == PgWaitTypeIO::from_sessions(rows).relationmapwrite + (if column_is(r.state, "active"@) && column_is(r.wait_event_type, "io"@) && column_is(r.wait_event, "relationmapwrite"@) { 1int } else { 0int }),
        PgWaitTypeIO::from_sessions(rows.push(r)).reorderbufferread == PgWaitTypeIO::from_sessions(rows).reorderbufferread + (if column_is(r.state, "active"@) && column_is(r.wait_event_type, "io"@) && column_is(r.wait_event, "reorderbufferread"@) { 1int } else { 0int }),
        PgWaitTypeIO::from_sessions(rows.push(r)).reorderbufferwrite == PgWaitTypeIO::from_sessions(rows).reorderbufferwrite + (if column_is(r.state, "active"@) && column_is(r.wait_event_type, "io"@) && column_is(r.wait_event, "reorderbufferwrite"@) { 1int } else { 0int }),
        PgWaitTypeIO::from_sessions(rows.push(r)).reorderlogicalmappingread == PgWaitTypeIO::from_sessions(rows).reorderlogicalmappingread + (if column_is(r.state, "active"@) && column_is(r.wait_event_type, "io"@) && column_is(r.wait_event, "reorderlogicalmappingread"@) { 1int } else { 0int }),
        PgWaitTypeIO::from_sessions(rows.push(r)).replicationslotread == PgWaitTypeIO::from_sessions(rows).replicationslotread + (if column_is(r.state, "active"@) && column_is(r.wait_event_type, "io"@) && column_is(r.wait_event, "replicationslotread"@) { 1int } else { 0int }),
        PgWaitTypeIO::from_sessions(rows.push(r)).replicationslotrestoresync == PgWaitTypeIO::from_sessions(rows).replicationslotrestoresync + (if column_is(r.state, "active"@) && column_is(r.wait_event_type, "io"@) && column_is(r.wait_event, "replicationslotrestoresync"@) { 1int } else { 0int }),
        PgWaitTypeIO::from_sessions(rows.push(r)).replicationslotsync == PgWaitTypeIO::from_sessions(rows).replicationslotsync + (if column_is(r.state, "active"@) && column_is(r.wait_event_type, "io"@) && column_is(r.wait_event, "replicationslotsync"@) { 1int } else { 0int }),
{
    reveal_strlit("active");
    assert("active"@.len() == 6);
    reveal_strlit("io");
    assert("io"@.len() == 2);
    reveal_strlit("logicalrewritecheckpointsync");
    assert("logicalrewritecheckpointsync"@.len() == 28);
    reveal_strlit("logicalrewritemappingsync");
    assert("logicalrewritemappingsync"@.len() == 25);
    reveal_strlit("logicalrewritemappingwrite");
    assert("logicalrewritemappingwrite"@.len() == 26);
    reveal_strlit("logicalrewritesync");
    assert("logicalrewritesync"@.len() == 18);
    reveal_strlit("logicalrewritetruncate");
    assert("logicalrewritetruncate"@.len() == 22);
    reveal_strlit("logicalrewritewrite");
    assert("logicalrewritewrite"@.len() == 19);
    reveal_strlit("relationmapread");
    assert("relationmapread"@.len() == 15);
    reveal_strlit("relationmapreplace");
    assert("relationmapreplace"@.len() == 18);
    reveal_strlit("relationmapwrite");
    assert("relationmapwrite"@.len() == 16);
    reveal_strlit("reorderbufferread");
    assert("reorderbufferread"@.len() == 17);
    reveal_strlit("reorderbufferwrite");
    assert("reorderbufferwrite"@.len() == 18);
    reveal_strlit("reorderlogicalmappingread");
    assert("reorderlogicalmappingread"@.len() == 25);
    reveal_strlit("replicationslotread");
    assert("replicationslotread"@.len() == 19);
    reveal_strlit("replicationslotrestoresync");
    assert("replicationslotrestoresync"@.len() == 26);
    reveal_strlit("replicationslotsync");
    assert("replicationslotsync"@.len() == 19);
    lemma_count_after_push(rows, r, SessionFilter::WaitEvent("io"@, "logicalrewritecheckpointsync"@));
    lemma_count_bound(rows.push(r), SessionFilter::WaitEvent("io"@, "logicalrewritecheckpointsync"@));
    lemma_count_bound(rows, SessionFilter::WaitEvent("io"@, "logicalrewritecheckpointsync"@));
    lemma_count_after_push(rows, r, SessionFilter::WaitEvent("io"@, "logicalrewritemappingsync"@));
    lemma_count_bound(rows.push(r), SessionFilter::WaitEvent("io"@, "logicalrewritemappingsync"@));
    lemma_count_bound(rows, SessionFilter::WaitEvent("io"@, "logicalrewritemappingsync"@));
    lemma_count_after_push(rows, r, SessionFilter::WaitEvent("io"@, "logicalrewritemappingwrite"@));
    lemma_count_bound(rows.push(r), SessionFilter::WaitEvent("io"@, "logicalrewritemappingwrite"@));
    lemma_count_bound(rows, SessionFilter::WaitEvent("io"@, "logicalrewritemappingwrite"@));
    lemma_count_after_push(rows, r, SessionFilter::WaitEvent("io"@, "logicalrewritesync"@));
    lemma_count_bound(rows.push(r), SessionFilter::WaitEvent("io"@, "logicalrewritesync"@));
    lemma_count_bound(rows, SessionFilter::WaitEvent("io"@, "logicalrewritesync"@));
    lemma_count_after_push(rows, r, SessionFilter::WaitEvent("io"@, "logicalrewritetruncate"@));
    lemma_count_bound(rows.push(r), SessionFilter::WaitEvent("io"@, "logicalrewritetruncate"@));
    lemma_count_bound(rows, SessionFilter::WaitEvent("io"@, "logicalrewritetruncate"@));
    lemma_count_after_push(rows, r, SessionFilter::WaitEvent("io"@, "logicalrewritewrite"@));
    lemma_count_bound(rows.push(r), SessionFilter::WaitEvent("io"@, "logicalrewritewrite"@));
    lemma_count_bound(rows, SessionFilter::WaitEvent("io"@, "logicalrewritewrite"@));
    lemma_count_after_push(rows, r, SessionFilter::WaitEvent("io"@, "relationmapread"@));
    lemma_count_bound(rows.push(r), SessionFilter::WaitEvent("io"@, "relationmapread"@));
    lemma_count_bound(rows, SessionFilter::WaitEvent("io"@, "relationmapread"@));
    lemma_count_after_push(rows, r, SessionFilter::WaitEvent("io"@, "relationmapreplace"@));
    lemma_count_bound(rows.push(r), SessionFilter::WaitEvent("io"@, "relationmapreplace"@));
    lemma_count_bound(rows, SessionFilter::WaitEvent("io"@, "relationmapreplace"@));
    lemma_count_after_push(rows, r, SessionFilter::WaitEvent("io"@, "relationmapwrite"@));
    lemma_count_bound(rows.push(r), SessionFilter::WaitEvent("io"@, "relationmapwrite"@));
    lemma_count_bound(rows, SessionFilter::WaitEvent("io"@, "relationmapwrite"@));
    lemma_count_after_push(rows, r, SessionFilter::WaitEvent("io"@, "reorderbufferread"@));
    lemma_count_bound(rows.push(r), SessionFilter::WaitEvent("io"@, "reorderbufferread"@));
    lemma_count_bound(rows, SessionFilter::WaitEvent("io"@, "reorderbufferread"@));
    lemma_count_after_push(rows, r, SessionFilter::WaitEvent("io"@, "reorderbufferwrite"@));
    lemma_count_bound(rows.push(r), SessionFilter::WaitEvent("io"@, "reorderbufferwrite"@));
    lemma_count_bound(rows, SessionFilter::WaitEvent("io"@, "reorderbufferwrite"@));
    lemma_count_after_push(rows, r, SessionFilter::WaitEvent("io"@, "reorderlogicalmappingread"@));
    lemma_count_bound(rows.push(r), SessionFilter::WaitEvent("io"@, "reorderlogicalmappingread"@));
    lemma_count_bound(rows, SessionFilter::WaitEvent("io"@, "reorderlogicalmappingread"@));
    lemma_count_after_push(rows, r, SessionFilter::WaitEvent("io"@, "replicationslotread"@));
    lemma_count_bound(rows.push(r), SessionFilter::WaitEvent("io"@, "replicationslotread"@));
    lemma_count_bound(rows, SessionFilter::WaitEvent("io"@, "replicationslotread"@));
    lemma_count_after_push(rows, r, SessionFilter::WaitEvent("io"@, "replicationslotrestoresync"@));
    lemma_count_bound(rows.push(r), SessionFilter::WaitEvent("io"@, "replicationslotrestoresync"@));
    lemma_count_bound(rows, SessionFilter::WaitEvent("io"@, "replicationslotrestoresync"@));
    lemma_count_after_push(rows, r, SessionFilter::WaitEvent("io"@, "replicationslotsync"@));
    lemma_count_bound(rows.push(r), SessionFilter::WaitEvent("io"@, "replicationslotsync"@));
    lemma_count_bound(rows, SessionFilter::WaitEvent("io"@, "replicationslotsync"@));
}

proof fn lemma_io_events_push_3(rows: Seq<PgStatActivity>, r: PgStatActivity)
    requires
        rows.len() < usize::MAX,
    ensures
        PgWaitTypeIO::from_sessions(rows.push(r)).replicationslotwrite == PgWaitTypeIO::from_sessions(rows).replicationslotwrite + (if column_is(r.state, "active"@) && column_is(r.wait_event_type, "io"@) && column_is(r.wait_event, "replicationslotwrite"@) { 1int } else { 0int }),
        PgWaitTypeIO::from_sessions(rows.push(r)).slruflushsync == PgWaitTypeIO::from_sessions(rows).slruflushsync + (if column_is(r.state, "active"@) && column_is(r.wait_event_type, "io"@) && column_is(r.wait_event, "slruflushsync"@) { 1int } else { 0int }),
        PgWaitTypeIO::from_sessions(rows.push(r)).slruread == PgWaitTypeIO::from_sessions(rows).slruread + (if column_is(r.state, "active"@) && column_is(r.wait_event_type, "io"@) && column_is(r.wait_event, "slruread"@) { 1int } else { 0int }),
        PgWaitTypeIO::from_sessions(rows.push(r)).slrusync == PgWaitTypeIO::from_sessions(rows).slrusync + (if column_is(r.state, "active"@) && column_is(r.wait_event_type, "io"@) && column_is(r.wait_event, "slrusync"@) { 1int } else { 0int }),
        PgWaitTypeIO::from_sessions(rows.push(r)).slruwrite == PgWaitTypeIO::from_sessions(rows).slruwrite + (if column_is(r.state, "active"@) && column_is(r.wait_event_type, "io"@) && column_is(r.wait_event, "slruwrite"@) { 1int } else { 0int }),
        PgWaitTypeIO::from_sessions(rows.push(r)).snapbuildread == PgWaitTypeIO::from_sessions(rows).snapbuildread + (if column_is(r.state, "active"@) && column_is(r.wait_event_type, "io"@) && column_is(r.wait_event, "snapbuildread"@) { 1int } else { 0int }),
        PgWaitTypeIO::from_sessions(rows.push(r)).snapbuildsync == PgWaitTypeIO::from_sessions(rows).snapbuildsync + (if column_is(r.state, "active"@) && column_is(r.wait_event_type, "io"@) && column_is(r.wait_event, "snapbuildsync"@) { 1int } else { 0int }),
        PgWaitTypeIO::from_sessions(rows.push(r)).snapbuildwrite == PgWaitTypeIO::from_sessions(rows).snapbuildwrite + (if column_is(r.state, "active"@) && column_is(r.wait_event_type, "io"@) && column_is(r.wait_event, "snapbuildwrite"@) { 1int } else { 0int }),
        PgWaitTypeIO::from_sessions(rows.push(r)).timelinehistoryfilesync == PgWaitTypeIO::from_sessions(rows).timelinehistoryfilesync + (if column_is(r.state, "active"@) && column_is(r.wait_event_type, "io"@) && column_is(r.wait_event, "timelinehistoryfilesync"@) { 1int } else { 0int }),
        PgWaitTypeIO::from_sessions(rows.push(r)).timelinehistoryfilewrite == PgWaitTypeIO::from_sessions(rows).timelinehistoryfilewrite + (if column_is(r.state, "active"@) && column_is(r.wait_event_type, "io"@) && column_is(r.wait_event, "timelinehistoryfilewrite"@) { 1int } else { 0int }),
        PgWaitTypeIO::from_sessions(rows.push(r)).timelinehistoryread == PgWaitTypeIO::from_sessions(rows).timelinehistoryread + (if column_is(r.state, "active"@) && column_is(r.wait_event_type, "io"@) && column_is(r.wait_event, "timelinehistoryread"@) { 1int } else { 0int }),
        PgWaitTypeIO::from_sessions(rows.push(r)).timelinehistorysync == PgWaitTypeIO::from_sessions(rows).timelinehistorysync + (if column_is(r.state, "active"@) && column_is(r.wait_event_type, "io"@) && column_is(r.wait_event, "timelinehistorysync"@) { 1int } else { 0int }),
        PgWaitTypeIO::from_sessions(rows.push(r)).timelinehistorywrite == PgWaitTypeIO::from_sessions(rows).timelinehistorywrite + (if column_is(r.state, "active"@) && column_is(r.wait_event_type, "io"@) && column_is(r.wait_event, "timelinehistorywrite"@) { 1int } else { 0int }),
        PgWaitTypeIO::from_sessions(rows.push(r)).twophasefileread == PgWaitTypeIO::from_sessions(rows).twophasefileread + (if column_is(r.state, "active"@) && column_is(r.wait_event_type, "io"@) && column_is(r.wait_event, "twophasefileread"@) { 1int } else { 0int }),
        PgWaitTypeIO::from_sessions(rows.push(r)).twophasefilesync == PgWaitTypeIO::from_sessions(rows).twophasefilesync + (if column_is(r.state, "active"@) && column_is(r.wait_event_type, "io"@) && column_is(r.wait_event, "twophasefilesync"@) { 1int } else { 0int }),
{
    reveal_strlit("active");
    assert("active"@.len() == 6);
    reveal_strlit("io");
    assert("io"@.len() == 2);
    reveal_strlit("replicationslotwrite");
    assert("replicationslotwrite"@.len() == 20);
    reveal_strlit("slruflushsync");
    assert("slruflushsync"@.len() == 13);
    reveal_strlit("slruread");
    assert("slruread"@.len() == 8);
    reveal_strlit("slrusync");
    assert("slrusync"@.len() == 8);
    reveal_strlit("slruwrite");
    assert("slruwrite"@.len() == 9);
    reveal_strlit("snapbuildread");
    assert("snapbuildread"@.len() == 13);
    reveal_strlit("snapbuildsync");
    assert("snapbuildsync"@.len() == 13);
    reveal_strlit("snapbuildwrite");
    assert("snapbuildwrite"@.len() == 14);
    reveal_strlit("timelinehistoryfilesync");
    assert("timelinehistoryfilesync"@.len() == 23);
    reveal_strlit("timelinehistoryfilewrite");
    assert("timelinehistoryfilewrite"@.len() == 24);
    reveal_strlit("timelinehistoryread");
    assert("timelinehistoryread"@.len() == 19);
    reveal_strlit("timelinehistorysync");
    assert("timelinehistorysync"@.len() == 19);
    reveal_strlit("timelinehistorywrite");
    assert("timelinehistorywrite"@.len() == 20);
    reveal_strlit("twophasefileread");
    assert("twophasefileread"@.len() == 16);
    reveal_strlit("twophasefilesync");
    assert("twophasefilesync"@.len() == 16);
    lemma_count_after_push(rows, r, SessionFilter::WaitEvent("io"@, "replicationslotwrite"@));
    lemma_count_bound(rows.push(r), SessionFilter::WaitEvent("io"@, "replicationslotwrite"@));
    lemma_count_bound(rows, SessionFilter::WaitEvent("io"@, "replicationslotwrite"@));
    lemma_count_after_push(rows, r, SessionFilter::WaitEvent("io"@, "slruflushsync"@));
    lemma_count_bound(rows.push(r), SessionFilter::WaitEvent("io"@, "slruflushsync"@));
    lemma_count_bound(rows, SessionFilter::WaitEvent("io"@, "slruflushsync"@));
    lemma_count_after_push(rows, r, SessionFilter::WaitEvent("io"@, "slruread"@));
    lemma_count_bound(rows.push(r), SessionFilter::WaitEvent("io"@, "slruread"@));
    lemma_count_bound(rows, SessionFilter::WaitEvent("io"@, "slruread"@));
    lemma_count_after_push(rows, r, SessionFilter::WaitEvent("io"@, "slrusync"@));
    lemma_count_bound(rows.push(r), SessionFilter::WaitEvent("io"@, "slrusync"@));
    lemma_count_bound(rows, SessionFilter::WaitEvent("io"@, "slrusync"@));
    lemma_count_after_push(rows, r, SessionFilter::WaitEvent("io"@, "slruwrite"@));
    lemma_count_bound(rows.push(r), SessionFilter::WaitEvent("io"@, "slruwrite"@));
    lemma_count_bound(rows, SessionFilter::WaitEvent("io"@, "slruwrite"@));
    lemma_count_after_push(rows, r, SessionFilter::WaitEvent("io"@, "snapbuildread"@));
    lemma_count_bound(rows.push(r), SessionFilter::WaitEvent("io"@, "snapbuildread"@));
    lemma_count_bound(rows, SessionFilter::WaitEvent("io"@, "snapbuildread"@));
    lemma_count_after_push(rows, r, SessionFilter::WaitEvent("io"@, "snapbuildsync"@));
    lemma_count_bound(rows.push(r), SessionFilter::WaitEvent("io"@, "snapbuildsync"@));
    lemma_count_bound(rows, SessionFilter::WaitEvent("io"@, "snapbuildsync"@));
    lemma_count_after_push(rows, r, SessionFilter::WaitEvent("io"@, "snapbuildwrite"@));
    lemma_count_bound(rows.push(r), SessionFilter::WaitEvent("io"@, "snapbuildwrite"@));
    lemma_count_bound(rows, SessionFilter::WaitEvent("io"@, "snapbuildwrite"@));
    lemma_count_after_push(rows, r, SessionFilter::WaitEvent("io"@, "timelinehistoryfilesync"@));
    lemma_count_bound(rows.push(r), SessionFilter::WaitEvent("io"@, "timelinehistoryfilesync"@));
    lemma_count_bound(rows, SessionFilter::WaitEvent("io"@, "timelinehistoryfilesync"@));
    lemma_count_after_push(rows, r, SessionFilter::WaitEvent("io"@, "timelinehistoryfilewrite"@));
    lemma_count_bound(rows.push(r), SessionFilter::WaitEvent("io"@, "timelinehistoryfilewrite"@));
    lemma_count_bound(rows, SessionFilter::WaitEvent("io"@, "timelinehistoryfilewrite"@));
    lemma_count_after_push(rows, r, SessionFilter::WaitEvent("io"@, "timelinehistoryread"@));
    lemma_count_bound(rows.push(r), SessionFilter::WaitEvent("io"@, "timelinehistoryread"@));
    lemma_count_bound(rows, SessionFilter::WaitEvent("io"@, "timelinehistoryread"@));
    lemma_count_after_push(rows, r, SessionFilter::WaitEvent("io"@, "timelinehistorysync"@));
    lemma_count_bound(rows.push(r), SessionFilter::WaitEvent("io"@, "timelinehistorysync"@));
    lemma_count_bound(rows, SessionFilter::WaitEvent("io"@, "timelinehistorysync"@));
    lemma_count_after_push(rows, r, SessionFilter::WaitEvent("io"@, "timelinehistorywrite"@));
    lemma_count_bound(rows.push(r), SessionFilter::WaitEvent("io"@, "timelinehistorywrite"@));
    lemma_count_bound(rows, SessionFilter::WaitEvent("io"@, "timelinehistorywrite"@));
    lemma_count_after_push(rows, r, SessionFilter::WaitEvent("io"@, "twophasefileread"@));
    lemma_count_bound(rows.push(r), SessionFilter::WaitEvent("io"@, "twophasefileread"@));
    lemma_count_bound(rows, SessionFilter::WaitEvent("io"@, "twophasefileread"@));
    lemma_count_after_push(rows, r, SessionFilter::WaitEvent("io"@, "twophasefilesync"@));
    lemma_count_bound(rows.push(r), SessionFilter::WaitEvent("io"@, "twophasefilesync"@));
    lemma_count_bound(rows, SessionFilter::WaitEvent("io"@, "twophasefilesync"@));
}

proof fn lemma_io_events_push_4(rows: Seq<PgStatActivity>, r: PgStatActivity)
    requires
        rows.len() < usize::MAX,
    ensures
        PgWaitTypeIO::from_sessions(rows.push(r)).twophasefilewrite == PgWaitTypeIO::from_sessions(rows).twophasefilewrite + (if column_is(r.state, "active"@) && column_is(r.wait_event_type, "io"@) && column_is(r.wait_event, "twophasefilewrite"@) { 1int } else { 0int }),
        PgWaitTypeIO::from_sessions(rows.push(r)).versionfilesync == PgWaitTypeIO::from_sessions(rows).versionfilesync + (if column_is(r.state, "active"@) && column_is(r.wait_event_type, "io"@) && column_is(r.wait_event, "versionfilesync"@) { 1int } else { 0int }),
        PgWaitTypeIO::from_sessions(rows.push(r)).versionfilewrite == PgWaitTypeIO::from_sessions(rows).versionfilewrite + (if column_is(r.state, "active"@) && column_is(r.wait_event_type, "io"@) && column_is(r.wait_event, "versionfilewrite"@) { 1int } else { 0int }),
        PgWaitTypeIO::from_sessions(rows.push(r)).walbootstrapsync == PgWaitTypeIO::from_sessions(rows).walbootstrapsync + (if column_is(r.state, "active"@) && column_is(r.wait_event_type, "io"@) && column_is(r.wait_event, "walbootstrapsync"@) { 1int } else { 0int }),
        PgWaitTypeIO::from_sessions(rows.push(r)).walbootstrapwrite == PgWaitTypeIO::from_sessions(rows).walbootstrapwrite + (if column_is(r.state, "active"@) && column_is(r.wait_event_type, "io"@) && column_is(r.wait_event, "walbootstrapwrite"@) { 1int } else { 0int }),
        PgWaitTypeIO::from_sessions(rows.push(r)).walcopyread == PgWaitTypeIO::from_sessions(rows).walcopyread + (if column_is(r.state, "active"@) && column_is(r.wait_event_type, "io"@) && column_is(r.wait_event, "walcopyread"@) { 1int } else { 0int }),
        PgWaitTypeIO::from_sessions(rows.push(r)).walcopysync == PgWaitTypeIO::from_sessions(rows).walcopysync + (if column_is(r.state, "active"@) && column_is(r.wait_event_type, "io"@) && column_is(r.wait_event, "walcopysync"@) { 1int } else { 0int }),
        PgWaitTypeIO::from_sessions(rows.push(r)).walcopywrite == PgWaitTypeIO::from_sessions(rows).walcopywrite + (if column_is(r.state, "active"@) && column_is(r.wait_event_type, "io"@) && column_is(r.wait_event, "walcopywrite"@) { 1int } else { 0int }),
        PgWaitTypeIO::from_sessions(rows.push(r)).walinitsync == PgWaitTypeIO::from_sessions(rows).walinitsync + (if column_is(r.state, "active"@) && column_is(r.wait_event_type, "io"@) && column_is(r.wait_event, "walinitsync"@) { 1int } else { 0int }),
        PgWaitTypeIO::from_sessions(rows.push(r)).walinitwrite == PgWaitTypeIO::from_sessions(rows).walinitwrite + (if column_is(r.state, "active"@) && column_is(r.wait_event_type, "io"@) && column_is(r.wait_event, "walinitwrite"@) { 1int } else { 0int }),
        PgWaitTypeIO::from_sessions(rows.push(r)).walread == PgWaitTypeIO::from_sessions(rows).walread + (if column_is(r.state, "active"@) && column_is(r.wait_event_type, "io"@) && column_is(r.wait_event, "walread"@) { 1int } else { 0int }),
        PgWaitTypeIO::from_sessions(rows.push(r)).walsendertimelinehistoryread == PgWaitTypeIO::from_sessions(rows).walsendertimelinehistoryread + (if column_is(r.state, "active"@) && column_is(r.wait_event_type, "io"@) && column_is(r.wait_event, "walsendertimelinehistoryread"@) { 1int } else { 0int }),
        PgWaitTypeIO::from_sessions(rows.push(r)).walsync == PgWaitTypeIO::from_sessions(rows).walsync + (if column_is(r.state, "active"@) && column_is(r.wait_event_type, "io"@) && column_is(r.wait_event, "walsync"@) { 1int } else { 0int }),
        PgWaitTypeIO::from_sessions(rows.push(r)).walsyncmethodassign == PgWaitTypeIO::from_sessions(rows).walsyncmethodassign + (if column_is(r.state, "active"@) && column_is(r.wait_event_type, "io"@) && column_is(r.wait_event, "walsyncmethodassign"@) { 1int } else { 0int }),
        PgWaitTypeIO::from_sessions(rows.push(r)).walwrite == PgWaitTypeIO::from_sessions(rows).walwrite + (if column_is(r.state, "active"@) && column_is(r.wait_event_type, "io"@) && column_is(r.wait_event, "walwrite"@) { 1int } else { 0int }),
{
    reveal_strlit("active");
    assert("active"@.len() == 6);
    reveal_strlit("io");
    assert("io"@.len() == 2);
    reveal_strlit("twophasefilewrite");
    assert("twophasefilewrite"@.len() == 17);
    reveal_strlit("versionfilesync");
    assert("versionfilesync"@.len() == 15);
    reveal_strlit("versionfilewrite");
    assert("versionfilewrite"@.len() == 16);
    reveal_strlit("walbootstrapsync");
    assert("walbootstrapsync"@.len() == 16);
    reveal_strlit("walbootstrapwrite");
    assert("walbootstrapwrite"@.len() == 17);
    reveal_strlit("walcopyread");
    assert("walcopyread"@.len() == 11);
    reveal_strlit("walcopysync");
    assert("walcopysync"@.len() == 11);
    reveal_strlit("walcopywrite");
    assert("walcopywrite"@.len() == 12);
    reveal_strlit("walinitsync");
    assert("walinitsync"@.len() == 11);
    reveal_strlit("walinitwrite");
    assert("walinitwrite"@.len() == 12);
    reveal_strlit("walread");
    assert("walread"@.len() == 7);
    reveal_strlit("walsendertimelinehistoryread");
    assert("walsendertimelinehistoryread"@.len() == 28);
    reveal_strlit("walsync");
    assert("walsync"@.len() == 7);
    reveal_strlit("walsyncmethodassign");
    assert("walsyncmethodassign"@.len() == 19);
    reveal_strlit("walwrite");
    assert("walwrite"@.len() == 8);
    lemma_count_after_push(rows, r, SessionFilter::WaitEvent("io"@, "twophasefilewrite"@));
    lemma_count_bound(rows.push(r), SessionFilter::WaitEvent("io"@, "twophasefilewrite"@));
    lemma_count_bound(rows, SessionFilter::WaitEvent("io"@, "twophasefilewrite"@));
    lemma_count_after_push(rows, r, SessionFilter::WaitEvent("io"@, "versionfilesync"@));
    lemma_count_bound(rows.push(r), SessionFilter::WaitEvent("io"@, "versionfilesync"@));
    lemma_count_bound(rows, SessionFilter::WaitEvent("io"@, "versionfilesync"@));
    lemma_count_after_push(rows, r, SessionFilter::WaitEvent("io"@, "versionfilewrite"@));
    lemma_count_bound(rows.push(r), SessionFilter::WaitEvent("io"@, "versionfilewrite"@));
    lemma_count_bound(rows, SessionFilter::WaitEvent("io"@, "versionfilewrite"@));
    lemma_count_after_push(rows, r, SessionFilter::WaitEvent("io"@, "walbootstrapsync"@));
    lemma_count_bound(rows.push(r), SessionFilter::WaitEvent("io"@, "walbootstrapsync"@));
    lemma_count_bound(rows, SessionFilter::WaitEvent("io"@, "walbootstrapsync"@));
    lemma_count_after_push(rows, r, SessionFilter::WaitEvent("io"@, "walbootstrapwrite"@));
    lemma_count_bound(rows.push(r), SessionFilter::WaitEvent("io"@, "walbootstrapwrite"@));
    lemma_count_bound(rows, SessionFilter::WaitEvent("io"@, "walbootstrapwrite"@));
    lemma_count_after_push(rows, r, SessionFilter::WaitEvent("io"@, "walcopyread"@));
    lemma_count_bound(rows.push(r), SessionFilter::WaitEvent("io"@, "walcopyread"@));
    lemma_count_bound(rows, SessionFilter::WaitEvent("io"@, "walcopyread"@));
    lemma_count_after_push(rows, r, SessionFilter::WaitEvent("io"@, "walcopysync"@));
    lemma_count_bound(rows.push(r), SessionFilter::WaitEvent("io"@, "walcopysync"@));
    lemma_count_bound(rows, SessionFilter::WaitEvent("io"@, "walcopysync"@));
    lemma_count_after_push(rows, r, SessionFilter::WaitEvent("io"@, "walcopywrite"@));
    lemma_count_bound(rows.push(r), SessionFilter::WaitEvent("io"@, "walcopywrite"@));
    lemma_count_bound(rows, SessionFilter::WaitEvent("io"@, "walcopywrite"@));
    lemma_count_after_push(rows, r, SessionFilter::WaitEvent("io"@, "walinitsync"@));
    lemma_count_bound(rows.push(r), SessionFilter::WaitEvent("io"@, "walinitsync"@));
    lemma_count_bound(rows, SessionFilter::WaitEvent("io"@, "walinitsync"@));
    lemma_count_after_push(rows, r, SessionFilter::WaitEvent("io"@, "walinitwrite"@));
    lemma_count_bound(rows.push(r), SessionFilter::WaitEvent("io"@, "walinitwrite"@));
    lemma_count_bound(rows, SessionFilter::WaitEvent("io"@, "walinitwrite"@));
    lemma_count_after_push(rows, r, SessionFilter::WaitEvent("io"@, "walread"@));
    lemma_count_bound(rows.push(r), SessionFilter::WaitEvent("io"@, "walread"@));
    lemma_count_bound(rows, SessionFilter::WaitEvent("io"@, "walread"@));
    lemma_count_after_push(rows, r, SessionFilter::WaitEvent("io"@, "walsendertimelinehistoryread"@));
    lemma_count_bound(rows.push(r), SessionFilter::WaitEvent("io"@, "walsendertimelinehistoryread"@));
    lemma_count_bound(rows, SessionFilter::WaitEvent("io"@, "walsendertimelinehistoryread"@));
    lemma_count_after_push(rows, r, SessionFilter::WaitEvent("io"@, "walsync"@));
    lemma_count_bound(rows.push(r), SessionFilter::WaitEvent("io"@, "walsync"@));
    lemma_count_bound(rows, SessionFilter::WaitEvent("io"@, "walsync"@));
    lemma_count_after_push(rows, r, SessionFilter::WaitEvent("io"@, "walsyncmethodassign"@));
    lemma_count_bound(rows.push(r), SessionFilter::WaitEvent("io"@, "walsyncmethodassign"@));
    lemma_count_bound(rows, SessionFilter::WaitEvent("io"@, "walsyncmethodassign"@));
    lemma_count_after_push(rows, r, SessionFilter::WaitEvent("io"@, "walwrite"@));
    lemma_count_bound(rows.push(r), SessionFilter::WaitEvent("io"@, "walwrite"@));
    lemma_count_bound(rows, SessionFilter::WaitEvent("io"@, "walwrite"@));
}

proof fn lemma_io_other_push(rows: Seq<PgStatActivity>, r: PgStatActivity)
    requires
        rows.len() < usize::MAX,
    ensures
        PgWaitTypeIO::from_sessions(rows.push(r)).other == PgWaitTypeIO::from_sessions(rows).other + (if column_is(r.state, "active"@) && column_is(r.wait_event_type, "io"@) && !(column_is(r.wait_event, "basebackupread"@) || column_is(r.wait_event, "basebackupsync"@) || column_is(r.wait_event, "basebackupwrite"@) || column_is(r.wait_event, "buffileread"@) || column_is(r.wait_event, "buffiletruncate"@) || column_is(r.wait_event, "buffilewrite"@) || column_is(r.wait_event, "controlfileread"@) || column_is(r.wait_event, "controlfilesync"@) || column_is(r.wait_event, "controlfilesyncupdate"@) || column_is(r.wait_event, "controlfilewrite"@) || column_is(r.wait_event, "controlfilewriteupdate"@) || column_is(r.wait_event, "copyfileread"@) || column_is(r.wait_event, "copyfilewrite"@) || column_is(r.wait_event, "dsmallocate"@) || column_is(r.wait_event, "dsmfillzerowrite"@) || column_is(r.wait_event, "datafileextend"@) || column_is(r.wait_event, "datafileflush"@) || column_is(r.wait_event, "datafileimmediatesync"@) || column_is(r.wait_event, "datafileprefetch"@) || column_is(r.wait_event, "datafileread"@) || column_is(r.wait_event, "datafilesync"@) || column_is(r.wait_event, "datafiletruncate"@) || column_is(r.wait_event, "datafilewrite"@) || column_is(r.wait_event, "lockfileaddtodatadirread"@) || column_is(r.wait_event, "lockfileaddtodatadirsync"@) || column_is(r.wait_event, "lockfileaddtodatadirwrite"@) || column_is(r.wait_event, "lockfilecreateread"@) || column_is(r.wait_event, "lockfilecreatesync"@) || column_is(r.wait_event, "lockfilecreatewrite"@) || column_is(r.wait_event, "lockfilerecheckdatadirread"@) || column_is(r.wait_event, "logicalrewritecheckpointsync"@) || column_is(r.wait_event, "logicalrewritemappingsync"@) || column_is(r.wait_event, "logicalrewritemappingwrite"@) || column_is(r.wait_event, "logicalrewritesync"@) || column_is(r.wait_event, "logicalrewritetruncate"@) || column_is(r.wait_event, "logicalrewritewrite"@) || column_is(r.wait_event, "relationmapread"@) || column_is(r.wait_event, "relationmapreplace"@) || column_is(r.wait_event, "relationmapwrite"@) || column_is(r.wait_event, "reorderbufferread"@) || column_is(r.wait_event, "reorderbufferwrite"@) || column_is(r.wait_event, "reorderlogicalmappingread"@) || column_is(r.wait_event, "replicationslotread"@) || column_is(r.wait_event, "replicationslotrestoresync"@) || column_is(r.wait_event, "replicationslotsync"@) || column_is(r.wait_event, "replicationslotwrite"@) || column_is(r.wait_event, "slruflushsync"@) || column_is(r.wait_event, "slruread"@) || column_is(r.wait_event, "slrusync"@) || column_is(r.wait_event, "slruwrite"@) || column_is(r.wait_event, "snapbuildread"@) || column_is(r.wait_event, "snapbuildsync"@) || column_is(r.wait_event, "snapbuildwrite"@) || column_is(r.wait_event, "timelinehistoryfilesync"@) || column_is(r.wait_event, "timelinehistoryfilewrite"@) || column_is(r.wait_event, "timelinehistoryread"@) || column_is(r.wait_event, "timelinehistorysync"@) || column_is(r.wait_event, "timelinehistorywrite"@) || column_is(r.wait_event, "twophasefileread"@) || column_is(r.wait_event, "twophasefilesync"@) || column_is(r.wait_event, "twophasefilewrite"@) || column_is(r.wait_event, "versionfilesync"@) || column_is(r.wait_event, "versionfilewrite"@) || column_is(r.wait_event, "walbootstrapsync"@) || column_is(r.wait_event, "walbootstrapwrite"@) || column_is(r.wait_event, "walcopyread"@) || column_is(r.wait_event, "walcopysync"@) || column_is(r.wait_event, "walcopywrite"@) || column_is(r.wait_event, "walinitsync"@) || column_is(r.wait_event, "walinitwrite"@) || column_is(r.wait_event, "walread"@) || column_is(r.wait_event, "walsendertimelinehistoryread"@) || column_is(r.wait_event, "walsync"@) || column_is(r.wait_event, "walsyncmethodassign"@) || column_is(r.wait_event, "walwrite"@)) { 1int } else { 0int }),
{
    reveal_strlit("active");
    assert("active"@.len() == 6);
    reveal_strlit("basebackupread");
    assert("basebackupread"@.len() == 14);
    reveal_strlit("basebackupsync");
    assert("basebackupsync"@.len() == 14);
    reveal_strlit("basebackupwrite");
    assert("basebackupwrite"@.len() == 15);
    reveal_strlit("buffileread");
    assert("buffileread"@.len() == 11);
    reveal_strlit("buffiletruncate");
    assert("buffiletruncate"@.len() == 15);
    reveal_strlit("buffilewrite");
    assert("buffilewrite"@.len() == 12);
    reveal_strlit("controlfileread");
    assert("controlfileread"@.len() == 15);
    reveal_strlit("controlfilesync");
    assert("controlfilesync"@.len() == 15);
    reveal_strlit("controlfilesyncupdate");
    assert("controlfilesyncupdate"@.len() == 21);
    reveal_strlit("controlfilewrite");
    assert("controlfilewrite"@.len() == 16);
    reveal_strlit("controlfilewriteupdate");
    assert("controlfilewriteupdate"@.len() == 22);
    reveal_strlit("copyfileread");
    assert("copyfileread"@.len() == 12);
    reveal_strlit("copyfilewrite");
    assert("copyfilewrite"@.len() == 13);
    reveal_strlit("datafileextend");
    assert("datafileextend"@.len() == 14);
    reveal_strlit("datafileflush");
    assert("datafileflush"@.len() == 13);
    reveal_strlit("datafileimmediatesync");
    assert("datafileimmediatesync"@.len() == 21);
    reveal_strlit("datafileprefetch");
    assert("datafileprefetch"@.len() == 16);
    reveal_strlit("datafileread");
    assert("datafileread"@.len() == 12);
    reveal_strlit("datafilesync");
    assert("datafilesync"@.len() == 12);
    reveal_strlit("datafiletruncate");
    assert("datafiletruncate"@.len() == 16);
    reveal_strlit("datafilewrite");
    assert("datafilewrite"@.len() == 13);
    reveal_strlit("dsmallocate");
    assert("dsmallocate"@.len() == 11);
    reveal_strlit("dsmfillzerowrite");
    assert("dsmfillzerowrite"@.len() == 16);
    reveal_strlit("io");
    assert("io"@.len() == 2);
    reveal_strlit("lockfileaddtodatadirread");
    assert("lockfileaddtodatadirread"@.len() == 24);
    reveal_strlit("lockfileaddtodatadirsync");
    assert("lockfileaddtodatadirsync"@.len() == 24);
    reveal_strlit("lockfileaddtodatadirwrite");
    assert("lockfileaddtodatadirwrite"@.len() == 25);
    reveal_strlit("lockfilecreateread");
    assert("lockfilecreateread"@.len() == 18);
    reveal_strlit("lockfilecreatesync");
    assert("lockfilecreatesync"@.len() == 18);
    reveal_strlit("lockfilecreatewrite");
    assert("lockfilecreatewrite"@.len() == 19);
    reveal_strlit("lockfilerecheckdatadirread");
    assert("lockfilerecheckdatadirread"@.len() == 26);
    reveal_strlit("logicalrewritecheckpointsync");
    assert("logicalrewritecheckpointsync"@.len() == 28);
    reveal_strlit("logicalrewritemappingsync");
    assert("logicalrewritemappingsync"@.len() == 25);
    reveal_strlit("logicalrewritemappingwrite");
    assert("logicalrewritemappingwrite"@.len() == 26);
    reveal_strlit("logicalrewritesync");
    assert("logicalrewritesync"@.len() == 18);
    reveal_strlit("logicalrewritetruncate");
    assert("logicalrewritetruncate"@.len() == 22);
    reveal_strlit("logicalrewritewrite");
    assert("logicalrewritewrite"@.len() == 19);
    reveal_strlit("relationmapread");
    assert("relationmapread"@.len() == 15);
    reveal_strlit("relationmapreplace");
    assert("relationmapreplace"@.len() == 18);
    reveal_strlit("relationmapwrite");
    assert("relationmapwrite"@.len() == 16);
    reveal_strlit("reorderbufferread");
    assert("reorderbufferread"@.len() == 17);
    reveal_strlit("reorderbufferwrite");
    assert("reorderbufferwrite"@.len() == 18);
    reveal_strlit("reorderlogicalmappingread");
    assert("reorderlogicalmappingread"@.len() == 25);
    reveal_strlit("replicationslotread");
    assert("replicationslotread"@.len() == 19);
    reveal_strlit("replicationslotrestoresync");
    assert("replicationslotrestoresync"@.len() == 26);
    reveal_strlit("replicationslotsync");
    assert("replicationslotsync"@.len() == 19);
    reveal_strlit("replicationslotwrite");
    assert("replicationslotwrite"@.len() == 20);
    reveal_strlit("slruflushsync");
    assert("slruflushsync"@.len() == 13);
    reveal_strlit("slruread");
    assert("slruread"@.len() == 8);
    reveal_strlit("slrusync");
    assert("slrusync"@.len() == 8);
    reveal_strlit("slruwrite");
    assert("slruwrite"@.len() == 9);
    reveal_strlit("snapbuildread");
    assert("snapbuildread"@.len() == 13);
    reveal_strlit("snapbuildsync");
    assert("snapbuildsync"@.len() == 13);
    reveal_strlit("snapbuildwrite");
    assert("snapbuildwrite"@.len() == 14);
    reveal_strlit("timelinehistoryfilesync");
    assert("timelinehistoryfilesync"@.len() == 23);
    reveal_strlit("timelinehistoryfilewrite");
    assert("timelinehistoryfilewrite"@.len() == 24);
    reveal_strlit("timelinehistoryread");
    assert("timelinehistoryread"@.len() == 19);
    reveal_strlit("timelinehistorysync");
    assert("timelinehistorysync"@.len() == 19);
    reveal_strlit("timelinehistorywrite");
    assert("timelinehistorywrite"@.len() == 20);
    reveal_strlit("twophasefileread");
    assert("twophasefileread"@.len() == 16);
    reveal_strlit("twophasefilesync");
    assert("twophasefilesync"@.len() == 16);
    reveal_strlit("twophasefilewrite");
    assert("twophasefilewrite"@.len() == 17);
    reveal_strlit("versionfilesync");
    assert("versionfilesync"@.len() == 15);
    reveal_strlit("versionfilewrite");
    assert("versionfilewrite"@.len() == 16);
    reveal_strlit("walbootstrapsync");
    assert("walbootstrapsync"@.len() == 16);
    reveal_strlit("walbootstrapwrite");
    assert("walbootstrapwrite"@.len() == 17);
    reveal_strlit("walcopyread");
    assert("walcopyread"@.len() == 11);
    reveal_strlit("walcopysync");
    assert("walcopysync"@.len() == 11);
    reveal_strlit("walcopywrite");
    assert("walcopywrite"@.len() == 12);
    reveal_strlit("walinitsync");
    assert("walinitsync"@.len() == 11);
    reveal_strlit("walinitwrite");
    assert("walinitwrite"@.len() == 12);
    reveal_strlit("walread");
    assert("walread"@.len() == 7);
    reveal_strlit("walsendertimelinehistoryread");
    assert("walsendertimelinehistoryread"@.len() == 28);
    reveal_strlit("walsync");
    assert("walsync"@.len() == 7);
    reveal_strlit("walsyncmethodassign");
    assert("walsyncmethodassign"@.len() == 19);
    reveal_strlit("walwrite");
    assert("walwrite"@.len() == 8);
    let known = io_wait_events();
    assert(known[0] == "basebackupread"@);
    assert(known[1] == "basebackupsync"@);
    assert(known[2] == "basebackupwrite"@);
    assert(known[3] == "buffileread"@);
    assert(known[4] == "buffiletruncate"@);
    assert(known[5] == "buffilewrite"@);
    assert(known[6] == "controlfileread"@);
    assert(known[7] == "controlfilesync"@);
    assert(known[8] == "controlfilesyncupdate"@);
    assert(known[9] == "controlfilewrite"@);
    assert(known[10] == "controlfilewriteupdate"@);
    assert(known[11] == "copyfileread"@);
    assert(known[12] == "copyfilewrite"@);
    assert(known[13] == "dsmallocate"@);
    assert(known[14] == "dsmfillzerowrite"@);
    assert(known[15] == "datafileextend"@);
    assert(known[16] == "datafileflush"@);
    assert(known[17] == "datafileimmediatesync"@);
    assert(known[18] == "datafileprefetch"@);
    assert(known[19] == "datafileread"@);
    assert(known[20] == "datafilesync"@);
    assert(known[21] == "datafiletruncate"@);
    assert(known[22] == "datafilewrite"@);
    assert(known[23] == "lockfileaddtodatadirread"@);
    assert(known[24] == "lockfileaddtodatadirsync"@);
    assert(known[25] == "lockfileaddtodatadirwrite"@);
    assert(known[26] == "lockfilecreateread"@);
    assert(known[27] == "lockfilecreatesync"@);
    assert(known[28] == "lockfilecreatewrite"@);
    assert(known[29] == "lockfilerecheckdatadirread"@);
    assert(known[30] == "logicalrewritecheckpointsync"@);
    assert(known[31] == "logicalrewritemappingsync"@);
    assert(known[32] == "logicalrewritemappingwrite"@);
    assert(known[33] == "logicalrewritesync"@);
    assert(known[34] == "logicalrewritetruncate"@);
    assert(known[35] == "logicalrewritewrite"@);
    assert(known[36] == "relationmapread"@);
    assert(known[37] == "relationmapreplace"@);
    assert(known[38] == "relationmapwrite"@);
    assert(known[39] == "reorderbufferread"@);
    assert(known[40] == "reorderbufferwrite"@);
    assert(known[41] == "reorderlogicalmappingread"@);
    assert(known[42] == "replicationslotread"@);
    assert(known[43] == "replicationslotrestoresync"@);
    assert(known[44] == "replicationslotsync"@);
    assert(known[45] == "replicationslotwrite"@);
    assert(known[46] == "slruflushsync"@);
    assert(known[47] == "slruread"@);
    assert(known[48] == "slrusync"@);
    assert(known[49] == "slruwrite"@);
    assert(known[50] == "snapbuildread"@);
    assert(known[51] == "snapbuildsync"@);
    assert(known[52] == "snapbuildwrite"@);
    assert(known[53] == "timelinehistoryfilesync"@);
    assert(known[54] == "timelinehistoryfilewrite"@);
    assert(known[55] == "timelinehistoryread"@);
    assert(known[56] == "timelinehistorysync"@);
    assert(known[57] == "timelinehistorywrite"@);
    assert(known[58] == "twophasefileread"@);
    assert(known[59] == "twophasefilesync"@);
    assert(known[60] == "twophasefilewrite"@);
    assert(known[61] == "versionfilesync"@);
    assert(known[62] == "versionfilewrite"@);
    assert(known[63] == "walbootstrapsync"@);
    assert(known[64] == "walbootstrapwrite"@);
    assert(known[65] == "walcopyread"@);
    assert(known[66] == "walcopysync"@);
    assert(known[67] == "walcopywrite"@);
    assert(known[68] == "walinitsync"@);
    assert(known[69] == "walinitwrite"@);
    assert(known[70] == "walread"@);
    assert(known[71] == "walsendertimelinehistoryread"@);
    assert(known[72] == "walsync"@);
    assert(known[73] == "walsyncmethodassign"@);
    assert(known[74] == "walwrite"@);
    lemma_count_after_push(rows, r, SessionFilter::UnlistedEvent("io"@, known));
    lemma_count_bound(rows.push(r), SessionFilter::UnlistedEvent("io"@, known));
    lemma_count_bound(rows, SessionFilter::UnlistedEvent("io"@, known));
}

/// Counting one more session into the breakdown of `ipc` by wait event adds
/// one to the field of its wait event when it is active (state `active`),
/// waits on `ipc` and its wait event is that field's name, and to `other` when
/// it is active and waits on `ipc` with a wait event of none of those names;
/// every other count stays. Without sessions every count is zero.
pub proof fn lemma_ipc_events_push(rows: Seq<PgStatActivity>, r: PgStatActivity)
    requires
        rows.len() < usize::MAX,
    ensures
        PgWaitTypeIPC::from_sessions(rows.push(r)).appendready == PgWaitTypeIPC::from_sessions(rows).appendready + (if column_is(r.state, "active"@) && column_is(r.wait_event_type, "ipc"@) && column_is(r.wait_event, "appendready"@) { 1int } else { 0int }),
        PgWaitTypeIPC::from_sessions(rows.push(r)).archivecleanupcommand == PgWaitTypeIPC::from_sessions(rows).archivecleanupcommand + (if column_is(r.state, "active"@) && column_is(r.wait_event_type, "ipc"@) && column_is(r.wait_event, "archivecleanupcommand"@) { 1int } else { 0int }),
        PgWaitTypeIPC::from_sessions(rows.push(r)).archivecommand == PgWaitTypeIPC::from_sessions(rows).archivecommand + (if column_is(r.state, "active"@) && column_is(r.wait_event_type, "ipc"@) && column_is(r.wait_event, "archivecommand"@) { 1int } else { 0int }),
        PgWaitTypeIPC::from_sessions(rows.push(r)).backendtermination == PgWaitTypeIPC::from_sessions(rows).backendtermination + (if column_is(r.state, "active"@) && column_is(r.wait_event_type, "ipc"@) && column_is(r.wait_event, "backendtermination"@) { 1int } else { 0int }),
        PgWaitTypeIPC::from_sessions(rows.push(r)).backupwaitwalarchive == PgWaitTypeIPC::from_sessions(rows).backupwaitwalarchive + (if column_is(r.state, "active"@) && column_is(r.wait_event_type, "ipc"@) && column_is(r.wait_event, "backupwaitwalarchive"@) { 1int } else { 0int }),
        PgWaitTypeIPC::from_sessions(rows.push(r)).bgworkershutdown == PgWaitTypeIPC::from_sessions(rows).bgworkershutdown + (if column_is(r.state, "active"@) && column_is(r.wait_event_type, "ipc"@) && column_is(r.wait_event, "bgworkershutdown"@) { 1int } else { 0int }),
        PgWaitTypeIPC::from_sessions(rows.push(r)).bgworkerstartup == PgWaitTypeIPC::from_sessions(rows).bgworkerstartup + (if column_is(r.state, "active"@) && column_is(r.wait_event_type, "ipc"@) && column_is(r.wait_event, "bgworkerstartup"@) { 1int } else { 0int }),
        PgWaitTypeIPC::from_sessions(rows.push(r)).btreepage == PgWaitTypeIPC::from_sessions(rows).btreepage + (if column_is(r.state, "active"@) && column_is(r.wait_event_type, "ipc"@) && column_is(r.wait_event, "btreepage"@) { 1int } else { 0int }),
        PgWaitTypeIPC::from_sessions(rows.push(r)).bufferio == PgWaitTypeIPC::from_sessions(rows).bufferio + (if column_is(r.state, "active"@) && column_is(r.wait_event_type, "ipc"@) && column_is(r.wait_event, "bufferio"@) { 1int } else { 0int }),
        PgWaitTypeIPC::from_sessions(rows.push(r)).checkpointdone == PgWaitTypeIPC::from_sessions(rows).checkpointdone + (if column_is(r.state, "active"@) && column_is(r.wait_event_type, "ipc"@) && column_is(r.wait_event, "checkpointdone"@) { 1int } else { 0int }),
        PgWaitTypeIPC::from_sessions(rows.push(r)).checkpointstart == PgWaitTypeIPC::from_sessions(rows).checkpointstart + (if column_is(r.state, "active"@) && column_is(r.wait_event_type, "ipc"@) && column_is(r.wait_event, "checkpointstart"@) { 1int } else { 0int }),
        PgWaitTypeIPC::from_sessions(rows.push(r)).executegather == PgWaitTypeIPC::from_sessions(rows).executegather + (if column_is(r.state, "active"@) && column_is(r.wait_event_type, "ipc"@) && column_is(r.wait_event, "executegather"@) { 1int } else { 0int }),
        PgWaitTypeIPC::from_sessions(rows.push(r)).hashbatchallocate == PgWaitTypeIPC::from_sessions(rows).hashbatchallocate + (if column_is(r.state, "active"@) && column_is(r.wait_event_type, "ipc"@) && column_is(r.wait_event, "hashbatchallocate"@) { 1int } else { 0int }),
        PgWaitTypeIPC::from_sessions(rows.push(r)).hashbatchelect == PgWaitTypeIPC::from_sessions(rows).hashbatchelect + (if column_is(r.state, "active"@) && column_is(r.wait_event_type, "ipc"@) && column_is(r.wait_event, "hashbatchelect"@) { 1int } else { 0int }),
        PgWaitTypeIPC::from_sessions(rows.push(r)).hashbatchload == PgWaitTypeIPC::from_sessions(rows).hashbatchload + (if column_is(r.state, "active"@) && column_is(r.wait_event_type, "ipc"@) && column_is(r.wait_event, "hashbatchload"@) { 1int } else { 0int }),
        PgWaitTypeIPC::from_sessions(rows.push(r)).hashbuildallocate == PgWaitTypeIPC::from_sessions(rows).hashbuildallocate + (if column_is(r.state, "active"@) && column_is(r.wait_event_type, "ipc"@) && column_is(r.wait_event, "hashbuildallocate"@) { 1int } else { 0int }),
        PgWaitTypeIPC::from_sessions(rows.push(r)).hashbuildelect == PgWaitTypeIPC::from_sessions(rows).hashbuildelect + (if column_is(r.state, "active"@) && column_is(r.wait_event_type, "ipc"@) && column_is(r.wait_event, "hashbuildelect"@) { 1int } else { 0int }),
        PgWaitTypeIPC::from_sessions(rows.push(r)).hashbuildhashinner == PgWaitTypeIPC::from_sessions(rows).hashbuildhashinner + (if column_is(r.state, "active"@) && column_is(r.wait_event_type, "ipc"@) && column_is(r.wait_event, "hashbuildhashinner"@) { 1int } else { 0int }),
        PgWaitTypeIPC::from_sessions(rows.push(r)).hashbuildhashouter == PgWaitTypeIPC::from_sessions(rows).hashbuildhashouter + (if column_is(r.state, "active"@) && column_is(r.wait_event_type, "ipc"@) && column_is(r.wait_event, "hashbuildhashouter"@) { 1int } else { 0int }),
        PgWaitTypeIPC::from_sessions(rows.push(r)).hashgrowbatchesdecide == PgWaitTypeIPC::from_sessions(rows).hashgrowbatchesdecide + (if column_is(r.state, "active"@) && column_is(r.wait_event_type, "ipc"@) && column_is(r.wait_event, "hashgrowbatchesdecide"@) { 1int } else { 0int }),
        PgWaitTypeIPC::from_sessions(rows.push(r)).hashgrowbatcheselect == PgWaitTypeIPC::from_sessions(rows).hashgrowbatcheselect + (if column_is(r.state, "active"@) && column_is(r.wait_event_type, "ipc"@) && column_is(r.wait_event, "hashgrowbatcheselect"@) { 1int } else { 0int }),
        PgWaitTypeIPC::from_sessions(rows.push(r)).hashgrowbatchesfinish == PgWaitTypeIPC::from_sessions(rows).hashgrowbatchesfinish + (if column_is(r.state, "active"@) && column_is(r.wait_event_type, "ipc"@) && column_is(r.wait_event, "hashgrowbatchesfinish"@) { 1int } else { 0int }),
        PgWaitTypeIPC::from_sessions(rows.push(r)).hashgrowbatchesreallocate == PgWaitTypeIPC::from_sessions(rows).hashgrowbatchesreallocate + (if column_is(r.state, "active"@) && column_is(r.wait_event_type, "ipc"@) && column_is(r.wait_event, "hashgrowbatchesreallocate"@) { 1int } else { 0int }),
        PgWaitTypeIPC::from_sessions(rows.push(r)).hashgrowbatchesrepartition == PgWaitTypeIPC::from_sessions(rows).hashgrowbatchesrepartition + (if column_is(r.state, "active"@) && column_is(r.wait_event_type, "ipc"@) && column_is(r.wait_event, "hashgrowbatchesrepartition"@) { 1int } else { 0int }),
        PgWaitTypeIPC::from_sessions(rows.push(r)).hashgrowbucketselect == PgWaitTypeIPC::from_sessions(rows).hashgrowbucketselect + (if column_is(r.state, "active"@) && column_is(r.wait_event_type, "ipc"@) && column_is(r.wait_event, "hashgrowbucketselect"@) { 1int } else { 0int }),
        PgWaitTypeIPC::from_sessions(rows.push(r)).hashgrowbucketsreallocate == PgWaitTypeIPC::from_sessions(rows).hashgrowbucketsreallocate + (if column_is(r.state, "active"@) && column_is(r.wait_event_type, "ipc"@) && column_is(r.wait_event, "hashgrowbucketsreallocate"@) { 1int } else { 0int }),
        PgWaitTypeIPC::from_sessions(rows.push(r)).hashgrowbucketsreinsert == PgWaitTypeIPC::from_sessions(rows).hashgrowbucketsreinsert + (if column_is(r.state, "active"@) && column_is(r.wait_event_type, "ipc"@) && column_is(r.wait_event, "hashgrowbucketsreinsert"@) { 1int } else { 0int }),
        PgWaitTypeIPC::from_sessions(rows.push(r)).logicalapplysenddata == PgWaitTypeIPC::from_sessions(rows).logicalapplysenddata + (if column_is(r.state, "active"@) && column_is(r.wait_event_type, "ipc"@) && column_is(r.wait_event, "logicalapplysenddata"@) { 1int } else { 0int }),
        PgWaitTypeIPC::from_sessions(rows.push(r)).logicalparallelapplystatechange == PgWaitTypeIPC::from_sessions(rows).logicalparallelapplystatechange + (if column_is(r.state, "active"@) && column_is(r.wait_event_type, "ipc"@) && column_is(r.wait_event, "logicalparallelapplystatechange"@) { 1int } else { 0int }),
        PgWaitTypeIPC::from_sessions(rows.push(r)).logicalsyncdata == PgWaitTypeIPC::from_sessions(rows).logicalsyncdata + (if column_is(r.state, "active"@) && column_is(r.wait_event_type, "ipc"@) && column_is(r.wait_event, "logicalsyncdata"@) { 1int } else { 0int }),
        PgWaitTypeIPC::from_sessions(rows.push(r)).logicalsyncstatechange == PgWaitTypeIPC::from_sessions(rows).logicalsyncstatechange + (if column_is(r.state, "active"@) && column_is(r.wait_event_type, "ipc"@) && column_is(r.wait_event, "logicalsyncstatechange"@) { 1int } else { 0int }),
        PgWaitTypeIPC::from_sessions(rows.push(r)).messagequeueinternal == PgWaitTypeIPC::from_sessions(rows).messagequeueinternal + (if column_is(r.state, "active"@) && column_is(r.wait_event_type, "ipc"@) && column_is(r.wait_event, "messagequeueinternal"@) { 1int } else { 0int }),
        PgWaitTypeIPC::from_sessions(rows.push(r)).messagequeueputmessage == PgWaitTypeIPC::from_sessions(rows).messagequeueputmessage + (if column_is(r.state, "active"@) && column_is(r.wait_event_type, "ipc"@) && column_is(r.wait_event, "messagequeueputmessage"@) { 1int } else { 0int }),
        PgWaitTypeIPC::from_sessions(rows.push(r)).messagequeuereceive == PgWaitTypeIPC::from_sessions(rows).messagequeuereceive + (if column_is(r.state, "active"@) && column_is(r.wait_event_type, "ipc"@) && column_is(r.wait_event, "messagequeuereceive"@) { 1int } else { 0int }),
        PgWaitTypeIPC::from_sessions(rows.push(r)).messagequeuesend == PgWaitTypeIPC::from_sessions(rows).messagequeuesend + (if column_is(r.state, "active"@) && column_is(r.wait_event_type, "ipc"@) && column_is(r.wait_event, "messagequeuesend"@) { 1int } else { 0int }),
        PgWaitTypeIPC::from_sessions(rows.push(r)).parallelbitmapscan == PgWaitTypeIPC::from_sessions(rows).parallelbitmapscan + (if column_is(r.state, "active"@) && column_is(r.wait_event_type, "ipc"@) && column_is(r.wait_event, "parallelbitmapscan"@) { 1int } else { 0int }),
        PgWaitTypeIPC::from_sessions(rows.push(r)).parallelcreateindexscan == PgWaitTypeIPC::from_sessions(rows).parallelcreateindexscan + (if column_is(r.state, "active"@) && column_is(r.wait_event_type, "ipc"@) && column_is(r.wait_event, "parallelcreateindexscan"@) { 1int } else { 0int }),
        PgWaitTypeIPC::from_sessions(rows.push(r)).parallelfinish == PgWaitTypeIPC::from_sessions(rows).parallelfinish + (if column_is(r.state, "active"@) && column_is(r.wait_event_type, "ipc"@) && column_is(r.wait_event, "parallelfinish"@) { 1int } else { 0int }),
        PgWaitTypeIPC::from_sessions(rows.push(r)).procarraygroupupdate == PgWaitTypeIPC::from_sessions(rows).procarraygroupupdate + (if column_is(r.state, "active"@) && column_is(r.wait_event_type, "ipc"@) && column_is(r.wait_event, "procarraygroupupdate"@) { 1int } else { 0int }),
        PgWaitTypeIPC::from_sessions(rows.push(r)).procsignalbarrier == PgWaitTypeIPC::from_sessions(rows).procsignalbarrier + (if column_is(r.state, "active"@) && column_is(r.wait_event_type, "ipc"@) && column_is(r.wait_event, "procsignalbarrier"@) { 1int } else { 0int }),
        PgWaitTypeIPC::from_sessions(rows.push(r)).promote == PgWaitTypeIPC::from_sessions(rows).promote + (if column_is(r.state, "active"@) && column_is(r.wait_event_type, "ipc"@) && column_is(r.wait_event, "promote"@) { 1int } else { 0int }),
        PgWaitTypeIPC::from_sessions(rows.push(r)).recoveryconflictsnapshot == PgWaitTypeIPC::from_sessions(rows).recoveryconflictsnapshot + (if column_is(r.state, "active"@) && column_is(r.wait_event_type, "ipc"@) && column_is(r.wait_event, "recoveryconflictsnapshot"@) { 1int } else { 0int }),
        PgWaitTypeIPC::from_sessions(rows.push(r)).recoveryconflicttablespace == PgWaitTypeIPC::from_sessions(rows).recoveryconflicttablespace + (if column_is(r.state, "active"@) && column_is(r.wait_event_type, "ipc"@) && column_is(r.wait_event, "recoveryconflicttablespace"@) { 1int } else { 0int }),
        PgWaitTypeIPC::from_sessions(rows.push(r)).recoveryendcommand == PgWaitTypeIPC::from_sessions(rows).recoveryendcommand + (if column_is(r.state, "active"@) && column_is(r.wait_event_type, "ipc"@) && column_is(r.wait_event, "recoveryendcommand"@) { 1int } else { 0int }),
        PgWaitTypeIPC::from_sessions(rows.push(r)).recoverypause == PgWaitTypeIPC::from_sessions(rows).recoverypause + (if column_is(r.state, "active"@) && column_is(r.wait_event_type, "ipc"@) && column_is(r.wait_event, "recoverypause"@) { 1int } else { 0int }),
        PgWaitTypeIPC::from_sessions(rows.push(r)).replicationorigindrop == PgWaitTypeIPC::from_sessions(rows).replicationorigindrop + (if column_is(r.state, "active"@) && column_is(r.wait_event_type, "ipc"@) && column_is(r.wait_event, "replicationorigindrop"@) { 1int } else { 0int }),
        PgWaitTypeIPC::from_sessions(rows.push(r)).replicationslotdrop == PgWaitTypeIPC::from_sessions(rows).replicationslotdrop + (if column_is(r.state, "active"@) && column_is(r.wait_event_type, "ipc"@) && column_is(r.wait_event, "replicationslotdrop"@) { 1int } else { 0int }),
        PgWaitTypeIPC::from_sessions(rows.push(r)).restorecommand == PgWaitTypeIPC::from_sessions(rows).restorecommand + (if column_is(r.state, "active"@) && column_is(r.wait_event_type, "ipc"@) && column_is(r.wait_event, "restorecommand"@) { 1int } else { 0int }),
        PgWaitTypeIPC::from_sessions(rows.push(r)).safesnapshot == PgWaitTypeIPC::from_sessions(rows).safesnapshot + (if column_is(r.state, "active"@) && column_is(r.wait_event_type, "ipc"@) && column_is(r.wait_event, "safesnapshot"@) { 1int } else { 0int }),
        PgWaitTypeIPC::from_sessions(rows.push(r)).syncrep == PgWaitTypeIPC::from_sessions(rows).syncrep + (if column_is(r.state, "active"@) && column_is(r.wait_event_type, "ipc"@) && column_is(r.wait_event, "syncrep"@) { 1int } else { 0int }),
        PgWaitTypeIPC::from_sessions(rows.push(r)).walreceiverexit == PgWaitTypeIPC::from_sessions(rows).walreceiverexit + (if column_is(r.state, "active"@) && column_is(r.wait_event_type, "ipc"@) && column_is(r.wait_event, "walreceiverexit"@) { 1int } else { 0int }),
        PgWaitTypeIPC::from_sessions(rows.push(r)).walreceiverwaitstart == PgWaitTypeIPC::from_sessions(rows).walreceiverwaitstart + (if column_is(r.state, "active"@) && column_is(r.wait_event_type, "ipc"@) && column_is(r.wait_event, "walreceiverwaitstart"@) { 1int } else { 0int }),
        PgWaitTypeIPC::from_sessions(rows.push(r)).xactgroupupdate == PgWaitTypeIPC::from_sessions(rows).xactgroupupdate + (if column_is(r.state, "active"@) && column_is(r.wait_event_type, "ipc"@) && column_is(r.wait_event, "xactgroupupdate"@) { 1int } else { 0int }),
        PgWaitTypeIPC::from_sessions(rows.push(r)).other == PgWaitTypeIPC::from_sessions(rows).other + (if column_is(r.state, "active"@) && column_is(r.wait_event_type, "ipc"@) && !(column_is(r.wait_event, "appendready"@) || column_is(r.wait_event, "archivecleanupcommand"@) || column_is(r.wait_event, "archivecommand"@) || column_is(r.wait_event, "backendtermination"@) || column_is(r.wait_event, "backupwaitwalarchive"@) || column_is(r.wait_event, "bgworkershutdown"@) || column_is(r.wait_event, "bgworkerstartup"@) || column_is(r.wait_event, "btreepage"@) || column_is(r.wait_event, "bufferio"@) || column_is(r.wait_event, "checkpointdone"@) || column_is(r.wait_event, "checkpointstart"@) || column_is(r.wait_event, "executegather"@) || column_is(r.wait_event, "hashbatchallocate"@) || column_is(r.wait_event, "hashbatchelect"@) || column_is(r.wait_event, "hashbatchload"@) || column_is(r.wait_event, "hashbuildallocate"@) || column_is(r.wait_event, "hashbuildelect"@) || column_is(r.wait_event, "hashbuildhashinner"@) || column_is(r.wait_event, "hashbuildhashouter"@) || column_is(r.wait_event, "hashgrowbatchesdecide"@) || column_is(r.wait_event, "hashgrowbatcheselect"@) || column_is(r.wait_event, "hashgrowbatchesfinish"@) || column_is(r.wait_event, "hashgrowbatchesreallocate"@) || column_is(r.wait_event, "hashgrowbatchesrepartition"@) || column_is(r.wait_event, "hashgrowbucketselect"@) || column_is(r.wait_event, "hashgrowbucketsreallocate"@) || column_is(r.wait_event, "hashgrowbucketsreinsert"@) || column_is(r.wait_event, "logicalapplysenddata"@) || column_is(r.wait_event, "logicalparallelapplystatechange"@) || column_is(r.wait_event, "logicalsyncdata"@) || column_is(r.wait_event, "logicalsyncstatechange"@) || column_is(r.wait_event, "messagequeueinternal"@) || column_is(r.wait_event, "messagequeueputmessage"@) || column_is(r.wait_event, "messagequeuereceive"@) || column_is(r.wait_event, "messagequeuesend"@) || column_is(r.wait_event, "parallelbitmapscan"@) || column_is(r.wait_event, "parallelcreateindexscan"@) || column_is(r.wait_event, "parallelfinish"@) || column_is(r.wait_event, "procarraygroupupdate"@) || column_is(r.wait_event, "procsignalbarrier"@) || column_is(r.wait_event, "promote"@) || column_is(r.wait_event, "recoveryconflictsnapshot"@) || column_is(r.wait_event, "recoveryconflicttablespace"@) || column_is(r.wait_event, "recoveryendcommand"@) || column_is(r.wait_event, "recoverypause"@) || column_is(r.wait_event, "replicationorigindrop"@) || column_is(r.wait_event, "replicationslotdrop"@) || column_is(r.wait_event, "restorecommand"@) || column_is(r.wait_event, "safesnapshot"@) || column_is(r.wait_event, "syncrep"@) || column_is(r.wait_event, "walreceiverexit"@) || column_is(r.wait_event, "walreceiverwaitstart"@) || column_is(r.wait_event, "xactgroupupdate"@)) { 1int } else { 0int }),
        PgWaitTypeIPC::from_sessions(Seq::empty()).appendready == 0,
        PgWaitTypeIPC::from_sessions(Seq::empty()).archivecleanupcommand == 0,
        PgWaitTypeIPC::from_sessions(Seq::empty()).archivecommand == 0,
        PgWaitTypeIPC::from_sessions(Seq::empty()).backendtermination == 0,
        PgWaitTypeIPC::from_sessions(Seq::empty()).backupwaitwalarchive == 0,
        PgWaitTypeIPC::from_sessions(Seq::empty()).bgworkershutdown == 0,
        PgWaitTypeIPC::from_sessions(Seq::empty()).bgworkerstartup == 0,
        PgWaitTypeIPC::from_sessions(Seq::empty()).btreepage == 0,
        PgWaitTypeIPC::from_sessions(Seq::empty()).bufferio == 0,
        PgWaitTypeIPC::from_sessions(Seq::empty()).checkpointdone == 0,
        PgWaitTypeIPC::from_sessions(Seq::empty()).checkpointstart == 0,
        PgWaitTypeIPC::from_sessions(Seq::empty()).executegather == 0,
        PgWaitTypeIPC::from_sessions(Seq::empty()).hashbatchallocate == 0,
        PgWaitTypeIPC::from_sessions(Seq::empty()).hashbatchelect == 0,
        PgWaitTypeIPC::from_sessions(Seq::empty()).hashbatchload == 0,
        PgWaitTypeIPC::from_sessions(Seq::empty()).hashbuildallocate == 0,
        PgWaitTypeIPC::from_sessions(Seq::empty()).hashbuildelect == 0,
        PgWaitTypeIPC::from_sessions(Seq::empty()).hashbuildhashinner == 0,
        PgWaitTypeIPC::from_sessions(Seq::empty()).hashbuildhashouter == 0,
        PgWaitTypeIPC::from_sessions(Seq::empty()).hashgrowbatchesdecide == 0,
        PgWaitTypeIPC::from_sessions(Seq::empty()).hashgrowbatcheselect == 0,
        PgWaitTypeIPC::from_sessions(Seq::empty()).hashgrowbatchesfinish == 0,
        PgWaitTypeIPC::from_sessions(Seq::empty()).hashgrowbatchesreallocate == 0,
        PgWaitTypeIPC::from_sessions(Seq::empty()).hashgrowbatchesrepartition == 0,
        PgWaitTypeIPC::from_sessions(Seq::empty()).hashgrowbucketselect == 0,
        PgWaitTypeIPC::from_sessions(Seq::empty()).hashgrowbucketsreallocate == 0,
        PgWaitTypeIPC::from_sessions(Seq::empty()).hashgrowbucketsreinsert == 0,
        PgWaitTypeIPC::from_sessions(Seq::empty()).logicalapplysenddata == 0,
        PgWaitTypeIPC::from_sessions(Seq::empty()).logicalparallelapplystatechange == 0,
        PgWaitTypeIPC::from_sessions(Seq::empty()).logicalsyncdata == 0,
        PgWaitTypeIPC::from_sessions(Seq::empty()).logicalsyncstatechange == 0,
        PgWaitTypeIPC::from_sessions(Seq::empty()).messagequeueinternal == 0,
        PgWaitTypeIPC::from_sessions(Seq::empty()).messagequeueputmessage == 0,
        PgWaitTypeIPC::from_sessions(Seq::empty()).messagequeuereceive == 0,
        PgWaitTypeIPC::from_sessions(Seq::empty()).messagequeuesend == 0,
        PgWaitTypeIPC::from_sessions(Seq::empty()).parallelbitmapscan == 0,
        PgWaitTypeIPC::from_sessions(Seq::empty()).parallelcreateindexscan == 0,
        PgWaitTypeIPC::from_sessions(Seq::empty()).parallelfinish == 0,
        PgWaitTypeIPC::from_sessions(Seq::empty()).procarraygroupupdate == 0,
        PgWaitTypeIPC::from_sessions(Seq::empty()).procsignalbarrier == 0,
        PgWaitTypeIPC::from_sessions(Seq::empty()).promote == 0,
        PgWaitTypeIPC::from_sessions(Seq::empty()).recoveryconflictsnapshot == 0,
        PgWaitTypeIPC::from_sessions(Seq::empty()).recoveryconflicttablespace == 0,
        PgWaitTypeIPC::from_sessions(Seq::empty()).recoveryendcommand == 0,
        PgWaitTypeIPC::from_sessions(Seq::empty()).recoverypause == 0,
        PgWaitTypeIPC::from_sessions(Seq::empty()).replicationorigindrop == 0,
        PgWaitTypeIPC::from_sessions(Seq::empty()).replicationslotdrop == 0,
        PgWaitTypeIPC::from_sessions(Seq::empty()).restorecommand == 0,
        PgWaitTypeIPC::from_sessions(Seq::empty()).safesnapshot == 0,
        PgWaitTypeIPC::from_sessions(Seq::empty()).syncrep == 0,
        PgWaitTypeIPC::from_sessions(Seq::empty()).walreceiverexit == 0,
        PgWaitTypeIPC::from_sessions(Seq::empty()).walreceiverwaitstart == 0,
        PgWaitTypeIPC::from_sessions(Seq::empty()).xactgroupupdate == 0,
        PgWaitTypeIPC::from_sessions(Seq::empty()).other == 0,
{
    lemma_ipc_events_push_0(rows, r);
    lemma_ipc_events_push_1(rows, r);
    lemma_ipc_events_push_2(rows, r);
    lemma_ipc_events_push_3(rows, r);
    lemma_ipc_other_push(rows, r);
}

proof fn lemma_ipc_events_push_0(rows: Seq<PgStatActivity>, r: PgStatActivity)
    requires
        rows.len() < usize::MAX,
    ensures
        PgWaitTypeIPC::from_sessions(rows.push(r)).appendready == PgWaitTypeIPC::from_sessions(rows).appendready + (if column_is(r.state, "active"@) && column_is(r.wait_event_type, "ipc"@) && column_is(r.wait_event, "appendready"@) { 1int } else { 0int }),
        PgWaitTypeIPC::from_sessions(rows.push(r)).archivecleanupcommand == PgWaitTypeIPC::from_sessions(rows).archivecleanupcommand + (if column_is(r.state, "active"@) && column_is(r.wait_event_type, "ipc"@) && column_is(r.wait_event, "archivecleanupcommand"@) { 1int } else { 0int }),
        PgWaitTypeIPC::from_sessions(rows.push(r)).archivecommand == PgWaitTypeIPC::from_sessions(rows).archivecommand + (if column_is(r.state, "active"@) && column_is(r.wait_event_type, "ipc"@) && column_is(r.wait_event, "archivecommand"@) { 1int } else { 0int }),
        PgWaitTypeIPC::from_sessions(rows.push(r)).backendtermination == PgWaitTypeIPC::from_sessions(rows).backendtermination + (if column_is(r.state, "active"@) && column_is(r.wait_event_type, "ipc"@) && column_is(r.wait_event, "backendtermination"@) { 1int } else { 0int }),
        PgWaitTypeIPC::from_sessions(rows.push(r)).backupwaitwalarchive == PgWaitTypeIPC::from_sessions(rows).backupwaitwalarchive + (if column_is(r.state, "active"@) && column_is(r.wait_event_type, "ipc"@) && column_is(r.wait_event, "backupwaitwalarchive"@) { 1int } else { 0int }),
        PgWaitTypeIPC::from_sessions(rows.push(r)).bgworkershutdown == PgWaitTypeIPC::from_sessions(rows).bgworkershutdown + (if column_is(r.state, "active"@) && column_is(r.wait_event_type, "ipc"@) && column_is(r.wait_event, "bgworkershutdown"@) { 1int } else { 0int }),
        PgWaitTypeIPC::from_sessions(rows.push(r)).bgworkerstartup == PgWaitTypeIPC::from_sessions(rows).bgworkerstartup + (if column_is(r.state, "active"@) && column_is(r.wait_event_type, "ipc"@) && column_is(r.wait_event, "bgworkerstartup"@) { 1int } else { 0int }),
        PgWaitTypeIPC::from_sessions(rows.push(r)).btreepage == PgWaitTypeIPC::from_sessions(rows).btreepage + (if column_is(r.state, "active"@) && column_is(r.wait_event_type, "ipc"@) && column_is(r.wait_event, "btreepage"@) { 1int } else { 0int }),
        PgWaitTypeIPC::from_sessions(rows.push(r)).bufferio == PgWaitTypeIPC::from_sessions(rows).bufferio + (if column_is(r.state, "active"@) && column_is(r.wait_event_type, "ipc"@) && column_is(r.wait_event, "bufferio"@) { 1int } else { 0int }),
        PgWaitTypeIPC::from_sessions(rows.push(r)).checkpointdone == PgWaitTypeIPC::from_sessions(rows).checkpointdone + (if column_is(r.state, "active"@) && column_is(r.wait_event_type, "ipc"@) && column_is(r.wait_event, "checkpointdone"@) { 1int } else { 0int }),
        PgWaitTypeIPC::from_sessions(rows.push(r)).checkpointstart == PgWaitTypeIPC::from_sessions(rows).checkpointstart + (if column_is(r.state, "active"@) && column_is(r.wait_event_type, "ipc"@) && column_is(r.wait_event, "checkpointstart"@) { 1int } else { 0int }),
        PgWaitTypeIPC::from_sessions(rows.push(r)).executegather == PgWaitTypeIPC::from_sessions(rows).executegather + (if column_is(r.state, "active"@) && column_is(r.wait_event_type, "ipc"@) && column_is(r.wait_event, "executegather"@) { 1int } else { 0int }),
        PgWaitTypeIPC::from_sessions(rows.push(r)).hashbatchallocate == PgWaitTypeIPC::from_sessions(rows).hashbatchallocate + (if column_is(r.state, "active"@) && column_is(r.wait_event_type, "ipc"@) && column_is(r.wait_event, "hashbatchallocate"@) { 1int } else { 0int }),
        PgWaitTypeIPC::from_sessions(rows.push(r)).hashbatchelect == PgWaitTypeIPC::from_sessions(rows).hashbatchelect + (if column_is(r.state, "active"@) && column_is(r.wait_event_type, "ipc"@) && column_is(r.wait_event, "hashbatchelect"@) { 1int } else { 0int }),
        PgWaitTypeIPC::from_sessions(rows.push(r)).hashbatchload == PgWaitTypeIPC::from_sessions(rows).hashbatchload + (if column_is(r.state, "active"@) && column_is(r.wait_event_type, "ipc"@) && column_is(r.wait_event, "hashbatchload"@) { 1int } else { 0int }),
{
    reveal_strlit("active");
    assert("active"@.len() == 6);
    reveal_strlit("appendready");
    assert("appendready"@.len() == 11);
    reveal_strlit("archivecleanupcommand");
    assert("archivecleanupcommand"@.len() == 21);
    reveal_strlit("archivecommand");
    assert("archivecommand"@.len() == 14);
    reveal_strlit("backendtermination");
    assert("backendtermination"@.len() == 18);
    reveal_strlit("backupwaitwalarchive");
    assert("backupwaitwalarchive"@.len() == 20);
    reveal_strlit("bgworkershutdown");
    assert("bgworkershutdown"@.len() == 16);
    reveal_strlit("bgworkerstartup");
    assert("bgworkerstartup"@.len() == 15);
    reveal_strlit("btreepage");
    assert("btreepage"@.len() == 9);
    reveal_strlit("bufferio");
    assert("bufferio"@.len() == 8);
    reveal_strlit("checkpointdone");
    assert("checkpointdone"@.len() == 14);
    reveal_strlit("checkpointstart");
    assert("checkpointstart"@.len() == 15);
    reveal_strlit("executegather");
    assert("executegather"@.len() == 13);
    reveal_strlit("hashbatchallocate");
    assert("hashbatchallocate"@.len() == 17);
    reveal_strlit("hashbatchelect");
    assert("hashbatchelect"@.len() == 14);
    reveal_strlit("hashbatchload");
    assert("hashbatchload"@.len() == 13);
    reveal_strlit("ipc");
    assert("ipc"@.len() == 3);
    lemma_count_after_push(rows, r, SessionFilter::WaitEvent("ipc"@, "appendready"@));
    lemma_count_bound(rows.push(r), SessionFilter::WaitEvent("ipc"@, "appendready"@));
    lemma_count_bound(rows, SessionFilter::WaitEvent("ipc"@, "appendready"@));
    lemma_count_after_push(rows, r, SessionFilter::WaitEvent("ipc"@, "archivecleanupcommand"@));
    lemma_count_bound(rows.push(r), SessionFilter::WaitEvent("ipc"@, "archivecleanupcommand"@));
    lemma_count_bound(rows, SessionFilter::WaitEvent("ipc"@, "archivecleanupcommand"@));
    lemma_count_after_push(rows, r, SessionFilter::WaitEvent("ipc"@, "archivecommand"@));
    lemma_count_bound(rows.push(r), SessionFilter::WaitEvent("ipc"@, "archivecommand"@));
    lemma_count_bound(rows, SessionFilter::WaitEvent("ipc"@, "archivecommand"@));
    lemma_count_after_push(rows, r, SessionFilter::WaitEvent("ipc"@, "backendtermination"@));
    lemma_count_bound(rows.push(r), SessionFilter::WaitEvent("ipc"@, "backendtermination"@));
    lemma_count_bound(rows, SessionFilter::WaitEvent("ipc"@, "backendtermination"@));
    lemma_count_after_push(rows, r, SessionFilter::WaitEvent("ipc"@, "backupwaitwalarchive"@));
    lemma_count_bound(rows.push(r), SessionFilter::WaitEvent("ipc"@, "backupwaitwalarchive"@));
    lemma_count_bound(rows, SessionFilter::WaitEvent("ipc"@, "backupwaitwalarchive"@));
    lemma_count_after_push(rows, r, SessionFilter::WaitEvent("ipc"@, "bgworkershutdown"@));
    lemma_count_bound(rows.push(r), SessionFilter::WaitEvent("ipc"@, "bgworkershutdown"@));
    lemma_count_bound(rows, SessionFilter::WaitEvent("ipc"@, "bgworkershutdown"@));
    lemma_count_after_push(rows, r, SessionFilter::WaitEvent("ipc"@, "bgworkerstartup"@));
    lemma_count_bound(rows.push(r), SessionFilter::WaitEvent("ipc"@, "bgworkerstartup"@));
    lemma_count_bound(rows, SessionFilter::WaitEvent("ipc"@, "bgworkerstartup"@));
    lemma_count_after_push(rows, r, SessionFilter::WaitEvent("ipc"@, "btreepage"@));
    lemma_count_bound(rows.push(r), SessionFilter::WaitEvent("ipc"@, "btreepage"@));
    lemma_count_bound(rows, SessionFilter::WaitEvent("ipc"@, "btreepage"@));
    lemma_count_after_push(rows, r, SessionFilter::WaitEvent("ipc"@, "bufferio"@));
    lemma_count_bound(rows.push(r), SessionFilter::WaitEvent("ipc"@, "bufferio"@));
    lemma_count_bound(rows, SessionFilter::WaitEvent("ipc"@, "bufferio"@));
    lemma_count_after_push(rows, r, SessionFilter::WaitEvent("ipc"@, "checkpointdone"@));
    lemma_count_bound(rows.push(r), SessionFilter::WaitEvent("ipc"@, "checkpointdone"@));
    lemma_count_bound(rows, SessionFilter::WaitEvent("ipc"@, "checkpointdone"@));
    lemma_count_after_push(rows, r, SessionFilter::WaitEvent("ipc"@, "checkpointstart"@));
    lemma_count_bound(rows.push(r), SessionFilter::WaitEvent("ipc"@, "checkpointstart"@));
    lemma_count_bound(rows, SessionFilter::WaitEvent("ipc"@, "checkpointstart"@));
    lemma_count_after_push(rows, r, SessionFilter::WaitEvent("ipc"@, "executegather"@));
    lemma_count_bound(rows.push(r), SessionFilter::WaitEvent("ipc"@, "executegather"@));
    lemma_count_bound(rows, SessionFilter::WaitEvent("ipc"@, "executegather"@));
    lemma_count_after_push(rows, r, SessionFilter::WaitEvent("ipc"@, "hashbatchallocate"@));
    lemma_count_bound(rows.push(r), SessionFilter::WaitEvent("ipc"@, "hashbatchallocate"@));
    lemma_count_bound(rows, SessionFilter::WaitEvent("ipc"@, "hashbatchallocate"@));
    lemma_count_after_push(rows, r, SessionFilter::WaitEvent("ipc"@, "hashbatchelect"@));
    lemma_count_bound(rows.push(r), SessionFilter::WaitEvent("ipc"@, "hashbatchelect"@));
    lemma_count_bound(rows, SessionFilter::WaitEvent("ipc"@, "hashbatchelect"@));
    lemma_count_after_push(rows, r, SessionFilter::WaitEvent("ipc"@, "hashbatchload"@));
    lemma_count_bound(rows.push(r), SessionFilter::WaitEvent("ipc"@, "hashbatchload"@));
    lemma_count_bound(rows, SessionFilter::WaitEvent("ipc"@, "hashbatchload"@));
}

proof fn lemma_ipc_events_push_1(rows: Seq<PgStatActivity>, r: PgStatActivity)
    requires
        rows.len() < usize::MAX,
    ensures
        PgWaitTypeIPC::from_sessions(rows.push(r)).hashbuildallocate == PgWaitTypeIPC::from_sessions(rows).hashbuildallocate + (if column_is(r.state, "active"@) && column_is(r.wait_event_type, "ipc"@) && column_is(r.wait_event, "hashbuildallocate"@) { 1int } else { 0int }),
        PgWaitTypeIPC::from_sessions(rows.push(r)).hashbuildelect == PgWaitTypeIPC::from_sessions(rows).hashbuildelect + (if column_is(r.state, "active"@) && column_is(r.wait_event_type, "ipc"@) && column_is(r.wait_event, "hashbuildelect"@) { 1int } else { 0int }),
        PgWaitTypeIPC::from_sessions(rows.push(r)).hashbuildhashinner == PgWaitTypeIPC::from_sessions(rows).hashbuildhashinner + (if column_is(r.state, "active"@) && column_is(r.wait_event_type, "ipc"@) && column_is(r.wait_event, "hashbuildhashinner"@) { 1int } else { 0int }),
        PgWaitTypeIPC::from_sessions(rows.push(r)).hashbuildhashouter == PgWaitTypeIPC::from_sessions(rows).hashbuildhashouter + (if column_is(r.state, "active"@) && column_is(r.wait_event_type, "ipc"@) && column_is(r.wait_event, "hashbuildhashouter"@) { 1int } else { 0int }),
        PgWaitTypeIPC::from_sessions(rows.push(r)).hashgrowbatchesdecide == PgWaitTypeIPC::from_sessions(rows).hashgrowbatchesdecide + (if column_is(r.state, "active"@) && column_is(r.wait_event_type, "ipc"@) && column_is(r.wait_event, "hashgrowbatchesdecide"@) { 1int } else { 0int }),
        PgWaitTypeIPC::from_sessions(rows.push(r)).hashgrowbatcheselect == PgWaitTypeIPC::from_sessions(rows).hashgrowbatcheselect + (if column_is(r.state, "active"@) && column_is(r.wait_event_type, "ipc"@) && column_is(r.wait_event, "hashgrowbatcheselect"@) { 1int } else { 0int }),
        PgWaitTypeIPC::from_sessions(rows.push(r)).hashgrowbatchesfinish == PgWaitTypeIPC::from_sessions(rows).hashgrowbatchesfinish + (if column_is(r.state, "active"@) && column_is(r.wait_event_type, "ipc"@) && column_is(r.wait_event, "hashgrowbatchesfinish"@) { 1int } else { 0int }),
        PgWaitTypeIPC::from_sessions(rows.push(r)).hashgrowbatchesreallocate == PgWaitTypeIPC::from_sessions(rows).hashgrowbatchesreallocate + (if column_is(r.state, "active"@) && column_is(r.wait_event_type, "ipc"@) && column_is(r.wait_event, "hashgrowbatchesreallocate"@) { 1int } else { 0int }),
        PgWaitTypeIPC::from_sessions(rows.push(r)).hashgrowbatchesrepartition == PgWaitTypeIPC::from_sessions(rows).hashgrowbatchesrepartition + (if column_is(r.state, "active"@) && column_is(r.wait_event_type, "ipc"@) && column_is(r.wait_event, "hashgrowbatchesrepartition"@) { 1int } else { 0int }),
        PgWaitTypeIPC::from_sessions(rows.push(r)).hashgrowbucketselect == PgWaitTypeIPC::from_sessions(rows).hashgrowbucketselect + (if column_is(r.state, "active"@) && column_is(r.wait_event_type, "ipc"@) && column_is(r.wait_event, "hashgrowbucketselect"@) { 1int } else { 0int }),
        PgWaitTypeIPC::from_sessions(rows.push(r)).hashgrowbucketsreallocate == PgWaitTypeIPC::from_sessions(rows).hashgrowbucketsreallocate + (if column_is(r.state, "active"@) && column_is(r.wait_event_type, "ipc"@) && column_is(r.wait_event, "hashgrowbucketsreallocate"@) { 1int } else { 0int }),
        PgWaitTypeIPC::from_sessions(rows.push(r)).hashgrowbucketsreinsert == PgWaitTypeIPC::from_sessions(rows).hashgrowbucketsreinsert + (if column_is(r.state, "active"@) && column_is(r.wait_event_type, "ipc"@) && column_is(r.wait_event, "hashgrowbucketsreinsert"@) { 1int } else { 0int }),
        PgWaitTypeIPC::from_sessions(rows.push(r)).logicalapplysenddata == PgWaitTypeIPC::from_sessions(rows).logicalapplysenddata + (if column_is(r.state, "active"@) && column_is(r.wait_event_type, "ipc"@) && column_is(r.wait_event, "logicalapplysenddata"@) { 1int } else { 0int }),
        PgWaitTypeIPC::from_sessions(rows.push(r)).logicalparallelapplystatechange == PgWaitTypeIPC::from_sessions(rows).logicalparallelapplystatechange + (if column_is(r.state, "active"@) && column_is(r.wait_event_type, "ipc"@) && column_is(r.wait_event, "logicalparallelapplystatechange"@) { 1int } else { 0int }),
        PgWaitTypeIPC::from_sessions(rows.push(r)).logicalsyncdata == PgWaitTypeIPC::from_sessions(rows).logicalsyncdata + (if column_is(r.state, "active"@) && column_is(r.wait_event_type, "ipc"@) && column_is(r.wait_event, "logicalsyncdata"@) { 1int } else { 0int }),
{
    reveal_strlit("active");
    assert("active"@.len() == 6);
    reveal_strlit("hashbuildallocate");
    assert("hashbuildallocate"@.len() == 17);
    reveal_strlit("hashbuildelect");
    assert("hashbuildelect"@.len() == 14);
    reveal_strlit("hashbuildhashinner");
    assert("hashbuildhashinner"@.len() == 18);
    reveal_strlit("hashbuildhashouter");
    assert("hashbuildhashouter"@.len() == 18);
    reveal_strlit("hashgrowbatchesdecide");
    assert("hashgrowbatchesdecide"@.len() == 21);
    reveal_strlit("hashgrowbatcheselect");
    assert("hashgrowbatcheselect"@.len() == 20);
    reveal_strlit("hashgrowbatchesfinish");
    assert("hashgrowbatchesfinish"@.len() == 21);
    reveal_strlit("hashgrowbatchesreallocate");
    assert("hashgrowbatchesreallocate"@.len() == 25);
    reveal_strlit("hashgrowbatchesrepartition");
    assert("hashgrowbatchesrepartition"@.len() == 26);
    reveal_strlit("hashgrowbucketselect");
    assert("hashgrowbucketselect"@.len() == 20);
    reveal_strlit("hashgrowbucketsreallocate");
    assert("hashgrowbucketsreallocate"@.len() == 25);
    reveal_strlit("hashgrowbucketsreinsert");
    assert("hashgrowbucketsreinsert"@.len() == 23);
    reveal_strlit("ipc");
    assert("ipc"@.len() == 3);
    reveal_strlit("logicalapplysenddata");
    assert("logicalapplysenddata"@.len() == 20);
    reveal_strlit("logicalparallelapplystatechange");
    assert("logicalparallelapplystatechange"@.len() == 31);
    reveal_strlit("logicalsyncdata");
    assert("logicalsyncdata"@.len() == 15);
    lemma_count_after_push(rows, r, SessionFilter::WaitEvent("ipc"@, "hashbuildallocate"@));
    lemma_count_bound(rows.push(r), SessionFilter::WaitEvent("ipc"@, "hashbuildallocate"@));
    lemma_count_bound(rows, SessionFilter::WaitEvent("ipc"@, "hashbuildallocate"@));
    lemma_count_after_push(rows, r, SessionFilter::WaitEvent("ipc"@, "hashbuildelect"@));
    lemma_count_bound(rows.push(r), SessionFilter::WaitEvent("ipc"@, "hashbuildelect"@));
    lemma_count_bound(rows, SessionFilter::WaitEvent("ipc"@, "hashbuildelect"@));
    lemma_count_after_push(rows, r, SessionFilter::WaitEvent("ipc"@, "hashbuildhashinner"@));
    lemma_count_bound(rows.push(r), SessionFilter::WaitEvent("ipc"@, "hashbuildhashinner"@));
    lemma_count_bound(rows, SessionFilter::WaitEvent("ipc"@, "hashbuildhashinner"@));
    lemma_count_after_push(rows, r, SessionFilter::WaitEvent("ipc"@, "hashbuildhashouter"@));
    lemma_count_bound(rows.push(r), SessionFilter::WaitEvent("ipc"@, "hashbuildhashouter"@));
    lemma_count_bound(rows, SessionFilter::WaitEvent("ipc"@, "hashbuildhashouter"@));
    lemma_count_after_push(rows, r, SessionFilter::WaitEvent("ipc"@, "hashgrowbatchesdecide"@));
    lemma_count_bound(rows.push(r), SessionFilter::WaitEvent("ipc"@, "hashgrowbatchesdecide"@));
    lemma_count_bound(rows, SessionFilter::WaitEvent("ipc"@, "hashgrowbatchesdecide"@));
    lemma_count_after_push(rows, r, SessionFilter::WaitEvent("ipc"@, "hashgrowbatcheselect"@));
    lemma_count_bound(rows.push(r), SessionFilter::WaitEvent("ipc"@, "hashgrowbatcheselect"@));
    lemma_count_bound(rows, SessionFilter::WaitEvent("ipc"@, "hashgrowbatcheselect"@));
    lemma_count_after_push(rows, r, SessionFilter::WaitEvent("ipc"@, "hashgrowbatchesfinish"@));
    lemma_count_bound(rows.push(r), SessionFilter::WaitEvent("ipc"@, "hashgrowbatchesfinish"@));
    lemma_count_bound(rows, SessionFilter::WaitEvent("ipc"@, "hashgrowbatchesfinish"@));
    lemma_count_after_push(rows, r, SessionFilter::WaitEvent("ipc"@, "hashgrowbatchesreallocate"@));
    lemma_count_bound(rows.push(r), SessionFilter::WaitEvent("ipc"@, "hashgrowbatchesreallocate"@));
    lemma_count_bound(rows, SessionFilter::WaitEvent("ipc"@, "hashgrowbatchesreallocate"@));
    lemma_count_after_push(rows, r, SessionFilter::WaitEvent("ipc"@, "hashgrowbatchesrepartition"@));
    lemma_count_bound(rows.push(r), SessionFilter::WaitEvent("ipc"@, "hashgrowbatchesrepartition"@));
    lemma_count_bound(rows, SessionFilter::WaitEvent("ipc"@, "hashgrowbatchesrepartition"@));
    lemma_count_after_push(rows, r, SessionFilter::WaitEvent("ipc"@, "hashgrowbucketselect"@));
    lemma_count_bound(rows.push(r), SessionFilter::WaitEvent("ipc"@, "hashgrowbucketselect"@));
    lemma_count_bound(rows, SessionFilter::WaitEvent("ipc"@, "hashgrowbucketselect"@));
    lemma_count_after_push(rows, r, SessionFilter::WaitEvent("ipc"@, "hashgrowbucketsreallocate"@));
    lemma_count_bound(rows.push(r), SessionFilter::WaitEvent("ipc"@, "hashgrowbucketsreallocate"@));
    lemma_count_bound(rows, SessionFilter::WaitEvent("ipc"@, "hashgrowbucketsreallocate"@));
    lemma_count_after_push(rows, r, SessionFilter::WaitEvent("ipc"@, "hashgrowbucketsreinsert"@));
    lemma_count_bound(rows.push(r), SessionFilter::WaitEvent("ipc"@, "hashgrowbucketsreinsert"@));
    lemma_count_bound(rows, SessionFilter::WaitEvent("ipc"@, "hashgrowbucketsreinsert"@));
    lemma_count_after_push(rows, r, SessionFilter::WaitEvent("ipc"@, "logicalapplysenddata"@));
    lemma_count_bound(rows.push(r), SessionFilter::WaitEvent("ipc"@, "logicalapplysenddata"@));
    lemma_count_bound(rows, SessionFilter::WaitEvent("ipc"@, "logicalapplysenddata"@));
    lemma_count_after_push(rows, r, SessionFilter::WaitEvent("ipc"@, "logicalparallelapplystatechange"@));
    lemma_count_bound(rows.push(r), SessionFilter::WaitEvent("ipc"@, "logicalparallelapplystatechange"@));
    lemma_count_bound(rows, SessionFilter::WaitEvent("ipc"@, "logicalparallelapplystatechange"@));
    lemma_count_after_push(rows, r, SessionFilter::WaitEvent("ipc"@, "logicalsyncdata"@));
    lemma_count_bound(rows.push(r), SessionFilter::WaitEvent("ipc"@, "logicalsyncdata"@));
    lemma_count_bound(rows, SessionFilter::WaitEvent("ipc"@, "logicalsyncdata"@));
}

proof fn lemma_ipc_events_push_2(rows: Seq<PgStatActivity>, r: PgStatActivity)
    requires
        rows.len() < usize::MAX,
    ensures
        PgWaitTypeIPC::from_sessions(rows.push(r)).logicalsyncstatechange == PgWaitTypeIPC::from_sessions(rows).logicalsyncstatechange + (if column_is(r.state, "active"@) && column_is(r.wait_event_type, "ipc"@) && column_is(r.wait_event, "logicalsyncstatechange"@) { 1int } else { 0int }),
        PgWaitTypeIPC::from_sessions(rows.push(r)).messagequeueinternal == PgWaitTypeIPC::from_sessions(rows).messagequeueinternal + (if column_is(r.state, "active"@) && column_is(r.wait_event_type, "ipc"@) && column_is(r.wait_event, "messagequeueinternal"@) { 1int } else { 0int }),
        PgWaitTypeIPC::from_sessions(rows.push(r)).messagequeueputmessage == PgWaitTypeIPC::from_sessions(rows).messagequeueputmessage + (if column_is(r.state, "active"@) && column_is(r.wait_event_type, "ipc"@) && column_is(r.wait_event, "messagequeueputmessage"@) { 1int } else { 0int }),
        PgWaitTypeIPC::from_sessions(rows.push(r)).messagequeuereceive == PgWaitTypeIPC::from_sessions(rows).messagequeuereceive + (if column_is(r.state, "active"@) && column_is(r.wait_event_type, "ipc"@) && column_is(r.wait_event, "messagequeuereceive"@) { 1int } else { 0int }),
        PgWaitTypeIPC::from_sessions(rows.push(r)).messagequeuesend == PgWaitTypeIPC::from_sessions(rows).messagequeuesend + (if column_is(r.state, "active"@) && column_is(r.wait_event_type, "ipc"@) && column_is(r.wait_event, "messagequeuesend"@) { 1int } else { 0int }),
        PgWaitTypeIPC::from_sessions(rows.push(r)).parallelbitmapscan == PgWaitTypeIPC::from_sessions(rows).parallelbitmapscan + (if column_is(r.state, "active"@) && column_is(r.wait_event_type, "ipc"@) && column_is(r.wait_event, "parallelbitmapscan"@) { 1int } else { 0int }),
        PgWaitTypeIPC::from_sessions(rows.push(r)).parallelcreateindexscan == PgWaitTypeIPC::from_sessions(rows).parallelcreateindexscan + (if column_is(r.state, "active"@) && column_is(r.wait_event_type, "ipc"@) && column_is(r.wait_event, "parallelcreateindexscan"@) { 1int } else { 0int }),
        PgWaitTypeIPC::from_sessions(rows.push(r)).parallelfinish == PgWaitTypeIPC::from_sessions(rows).parallelfinish + (if column_is(r.state, "active"@) && column_is(r.wait_event_type, "ipc"@) && column_is(r.wait_event, "parallelfinish"@) { 1int } else { 0int }),
        PgWaitTypeIPC::from_sessions(rows.push(r)).procarraygroupupdate == PgWaitTypeIPC::from_sessions(rows).procarraygroupupdate + (if column_is(r.state, "active"@) && column_is(r.wait_event_type, "ipc"@) && column_is(r.wait_event, "procarraygroupupdate"@) { 1int } else { 0int }),
        PgWaitTypeIPC::from_sessions(rows.push(r)).procsignalbarrier == PgWaitTypeIPC::from_sessions(rows).procsignalbarrier + (if column_is(r.state, "active"@) && column_is(r.wait_event_type, "ipc"@) && column_is(r.wait_event, "procsignalbarrier"@) { 1int } else { 0int }),
        PgWaitTypeIPC::from_sessions(rows.push(r)).promote == PgWaitTypeIPC::from_sessions(rows).promote + (if column_is(r.state, "active"@) && column_is(r.wait_event_type, "ipc"@) && column_is(r.wait_event, "promote"@) { 1int } else { 0int }),
        PgWaitTypeIPC::from_sessions(rows.push(r)).recoveryconflictsnapshot == PgWaitTypeIPC::from_sessions(rows).recoveryconflictsnapshot + (if column_is(r.state, "active"@) && column_is(r.wait_event_type, "ipc"@) && column_is(r.wait_event, "recoveryconflictsnapshot"@) { 1int } else { 0int }),
        PgWaitTypeIPC::from_sessions(rows.push(r)).recoveryconflicttablespace == PgWaitTypeIPC::from_sessions(rows).recoveryconflicttablespace + (if column_is(r.state, "active"@) && column_is(r.wait_event_type, "ipc"@) && column_is(r.wait_event, "recoveryconflicttablespace"@) { 1int } else { 0int }),
        PgWaitTypeIPC::from_sessions(rows.push(r)).recoveryendcommand == PgWaitTypeIPC::from_sessions(rows).recoveryendcommand + (if column_is(r.state, "active"@) && column_is(r.wait_event_type, "ipc"@) && column_is(r.wait_event, "recoveryendcommand"@) { 1int } else { 0int }),
        PgWaitTypeIPC::from_sessions(rows.push(r)).recoverypause == PgWaitTypeIPC::from_sessions(rows).recoverypause + (if column_is(r.state, "active"@) && column_is(r.wait_event_type, "ipc"@) && column_is(r.wait_event, "recoverypause"@) { 1int } else { 0int }),
{
    reveal_strlit("active");
    assert("active"@.len() == 6);
    reveal_strlit("ipc");
    assert("ipc"@.len() == 3);
    reveal_strlit("logicalsyncstatechange");
    assert("logicalsyncstatechange"@.len() == 22);
    reveal_strlit("messagequeueinternal");
    assert("messagequeueinternal"@.len() == 20);
    reveal_strlit("messagequeueputmessage");
    assert("messagequeueputmessage"@.len() == 22);
    reveal_strlit("messagequeuereceive");
    assert("messagequeuereceive"@.len() == 19);
    reveal_strlit("messagequeuesend");
    assert("messagequeuesend"@.len() == 16);
    reveal_strlit("parallelbitmapscan");
    assert("parallelbitmapscan"@.len() == 18);
    reveal_strlit("parallelcreateindexscan");
    assert("parallelcreateindexscan"@.len() == 23);
    reveal_strlit("parallelfinish");
    assert("parallelfinish"@.len() == 14);
    reveal_strlit("procarraygroupupdate");
    assert("procarraygroupupdate"@.len() == 20);
    reveal_strlit("procsignalbarrier");
    assert("procsignalbarrier"@.len() == 17);
    reveal_strlit("promote");
    assert("promote"@.len() == 7);
    reveal_strlit("recoveryconflictsnapshot");
    assert("recoveryconflictsnapshot"@.len() == 24);
    reveal_strlit("recoveryconflicttablespace");
    assert("recoveryconflicttablespace"@.len() == 26);
    reveal_strlit("recoveryendcommand");
    assert("recoveryendcommand"@.len() == 18);
    reveal_strlit("recoverypause");
    assert("recoverypause"@.len() == 13);
    lemma_count_after_push(rows, r, SessionFilter::WaitEvent("ipc"@, "logicalsyncstatechange"@));
    lemma_count_bound(rows.push(r), SessionFilter::WaitEvent("ipc"@, "logicalsyncstatechange"@));
    lemma_count_bound(rows, SessionFilter::WaitEvent("ipc"@, "logicalsyncstatechange"@));
    lemma_count_after_push(rows, r, SessionFilter::WaitEvent("ipc"@, "messagequeueinternal"@));
    lemma_count_bound(rows.push(r), SessionFilter::WaitEvent("ipc"@, "messagequeueinternal"@));
    lemma_count_bound(rows, SessionFilter::WaitEvent("ipc"@, "messagequeueinternal"@));
    lemma_count_after_push(rows, r, SessionFilter::WaitEvent("ipc"@, "messagequeueputmessage"@));
    lemma_count_bound(rows.push(r), SessionFilter::WaitEvent("ipc"@, "messagequeueputmessage"@));
    lemma_count_bound(rows, SessionFilter::WaitEvent("ipc"@, "messagequeueputmessage"@));
    lemma_count_after_push(rows, r, SessionFilter::WaitEvent("ipc"@, "messagequeuereceive"@));
    lemma_count_bound(rows.push(r), SessionFilter::WaitEvent("ipc"@, "messagequeuereceive"@));
    lemma_count_bound(rows, SessionFilter::WaitEvent("ipc"@, "messagequeuereceive"@));
    lemma_count_after_push(rows, r, SessionFilter::WaitEvent("ipc"@, "messagequeuesend"@));
    lemma_count_bound(rows.push(r), SessionFilter::WaitEvent("ipc"@, "messagequeuesend"@));
    lemma_count_bound(rows, SessionFilter::WaitEvent("ipc"@, "messagequeuesend"@));
    lemma_count_after_push(rows, r, SessionFilter::WaitEvent("ipc"@, "parallelbitmapscan"@));
    lemma_count_bound(rows.push(r), SessionFilter::WaitEvent("ipc"@, "parallelbitmapscan"@));
    lemma_count_bound(rows, SessionFilter::WaitEvent("ipc"@, "parallelbitmapscan"@));
    lemma_count_after_push(rows, r, SessionFilter::WaitEvent("ipc"@, "parallelcreateindexscan"@));
    lemma_count_bound(rows.push(r), SessionFilter::WaitEvent("ipc"@, "parallelcreateindexscan"@));
    lemma_count_bound(rows, SessionFilter::WaitEvent("ipc"@, "parallelcreateindexscan"@));
    lemma_count_after_push(rows, r, SessionFilter::WaitEvent("ipc"@, "parallelfinish"@));
    lemma_count_bound(rows.push(r), SessionFilter::WaitEvent("ipc"@, "parallelfinish"@));
    lemma_count_bound(rows, SessionFilter::WaitEvent("ipc"@, "parallelfinish"@));
    lemma_count_after_push(rows, r, SessionFilter::WaitEvent("ipc"@, "procarraygroupupdate"@));
    lemma_count_bound(rows.push(r), SessionFilter::WaitEvent("ipc"@, "procarraygroupupdate"@));
    lemma_count_bound(rows, SessionFilter::WaitEvent("ipc"@, "procarraygroupupdate"@));
    lemma_count_after_push(rows, r, SessionFilter::WaitEvent("ipc"@, "procsignalbarrier"@));
    lemma_count_bound(rows.push(r), SessionFilter::WaitEvent("ipc"@, "procsignalbarrier"@));
    lemma_count_bound(rows, SessionFilter::WaitEvent("ipc"@, "procsignalbarrier"@));
    lemma_count_after_push(rows, r, SessionFilter::WaitEvent("ipc"@, "promote"@));
    lemma_count_bound(rows.push(r), SessionFilter::WaitEvent("ipc"@, "promote"@));
    lemma_count_bound(rows, SessionFilter::WaitEvent("ipc"@, "promote"@));
    lemma_count_after_push(rows, r, SessionFilter::WaitEvent("ipc"@, "recoveryconflictsnapshot"@));
    lemma_count_bound(rows.push(r), SessionFilter::WaitEvent("ipc"@, "recoveryconflictsnapshot"@));
    lemma_count_bound(rows, SessionFilter::WaitEvent("ipc"@, "recoveryconflictsnapshot"@));
    lemma_count_after_push(rows, r, SessionFilter::WaitEvent("ipc"@, "recoveryconflicttablespace"@));
    lemma_count_bound(rows.push(r), SessionFilter::WaitEvent("ipc"@, "recoveryconflicttablespace"@));
    lemma_count_bound(rows, SessionFilter::WaitEvent("ipc"@, "recoveryconflicttablespace"@));
    lemma_count_after_push(rows, r, SessionFilter::WaitEvent("ipc"@, "recoveryendcommand"@));
    lemma_count_bound(rows.push(r), SessionFilter::WaitEvent("ipc"@, "recoveryendcommand"@));
    lemma_count_bound(rows, SessionFilter::WaitEvent("ipc"@, "recoveryendcommand"@));
    lemma_count_after_push(rows, r, SessionFilter::WaitEvent("ipc"@, "recoverypause"@));
    lemma_count_bound(rows.push(r), SessionFilter::WaitEvent("ipc"@, "recoverypause"@));
    lemma_count_bound(rows, SessionFilter::WaitEvent("ipc"@, "recoverypause"@));
}

proof fn lemma_ipc_events_push_3(rows: Seq<PgStatActivity>, r: PgStatActivity)
    requires
        rows.len() < usize::MAX,
    ensures
        PgWaitTypeIPC::from_sessions(rows.push(r)).replicationorigindrop == PgWaitTypeIPC::from_sessions(rows).replicationorigindrop + (if column_is(r.state, "active"@) && column_is(r.wait_event_type, "ipc"@) && column_is(r.wait_event, "replicationorigindrop"@) { 1int } else { 0int }),
        PgWaitTypeIPC::from_sessions(rows.push(r)).replicationslotdrop == PgWaitTypeIPC::from_sessions(rows).replicationslotdrop + (if column_is(r.state, "active"@) && column_is(r.wait_event_type, "ipc"@) && column_is(r.wait_event, "replicationslotdrop"@) { 1int } else { 0int }),
        PgWaitTypeIPC::from_sessions(rows.push(r)).restorecommand == PgWaitTypeIPC::from_sessions(rows).restorecommand + (if column_is(r.state, "active"@) && column_is(r.wait_event_type, "ipc"@) && column_is(r.wait_event, "restorecommand"@) { 1int } else { 0int }),
        PgWaitTypeIPC::from_sessions(rows.push(r)).safesnapshot == PgWaitTypeIPC::from_sessions(rows).safesnapshot + (if column_is(r.state, "active"@) && column_is(r.wait_event_type, "ipc"@) && column_is(r.wait_event, "safesnapshot"@) { 1int } else { 0int }),
        PgWaitTypeIPC::from_sessions(rows.push(r)).syncrep == PgWaitTypeIPC::from_sessions(rows).syncrep + (if column_is(r.state, "active"@) && column_is(r.wait_event_type, "ipc"@) && column_is(r.wait_event, "syncrep"@) { 1int } else { 0int }),
        PgWaitTypeIPC::from_sessions(rows.push(r)).walreceiverexit == PgWaitTypeIPC::from_sessions(rows).walreceiverexit + (if column_is(r.state, "active"@) && column_is(r.wait_event_type, "ipc"@) && column_is(r.wait_event, "walreceiverexit"@) { 1int } else { 0int }),
        PgWaitTypeIPC::from_sessions(rows.push(r)).walreceiverwaitstart == PgWaitTypeIPC::from_sessions(rows).walreceiverwaitstart + (if column_is(r.state, "active"@) && column_is(r.wait_event_type, "ipc"@) && column_is(r.wait_event, "walreceiverwaitstart"@) { 1int } else { 0int }),
        PgWaitTypeIPC::from_sessions(rows.push(r)).xactgroupupdate == PgWaitTypeIPC::from_sessions(rows).xactgroupupdate + (if column_is(r.state, "active"@) && column_is(r.wait_event_type, "ipc"@) && column_is(r.wait_event, "xactgroupupdate"@) { 1int } else { 0int }),
{
    reveal_strlit("active");
    assert("active"@.len() == 6);
    reveal_strlit("ipc");
    assert("ipc"@.len() == 3);
    reveal_strlit("replicationorigindrop");
    assert("replicationorigindrop"@.len() == 21);
    reveal_strlit("replicationslotdrop");
    assert("replicationslotdrop"@.len() == 19);
    reveal_strlit("restorecommand");
    assert("restorecommand"@.len() == 14);
    reveal_strlit("safesnapshot");
    assert("safesnapshot"@.len() == 12);
    reveal_strlit("syncrep");
    assert("syncrep"@.len() == 7);
    reveal_strlit("walreceiverexit");
    assert("walreceiverexit"@.len() == 15);
    reveal_strlit("walreceiverwaitstart");
    assert("walreceiverwaitstart"@.len() == 20);
    reveal_strlit("xactgroupupdate");
    assert("xactgroupupdate"@.len() == 15);
    lemma_count_after_push(rows, r, SessionFilter::WaitEvent("ipc"@, "replicationorigindrop"@));
    lemma_count_bound(rows.push(r), SessionFilter::WaitEvent("ipc"@, "replicationorigindrop"@));
    lemma_count_bound(rows, SessionFilter::WaitEvent("ipc"@, "replicationorigindrop"@));
    lemma_count_after_push(rows, r, SessionFilter::WaitEvent("ipc"@, "replicationslotdrop"@));
    lemma_count_bound(rows.push(r), SessionFilter::WaitEvent("ipc"@, "replicationslotdrop"@));
    lemma_count_bound(rows, SessionFilter::WaitEvent("ipc"@, "replicationslotdrop"@));
    lemma_count_after_push(rows, r, SessionFilter::WaitEvent("ipc"@, "restorecommand"@));
    lemma_count_bound(rows.push(r), SessionFilter::WaitEvent("ipc"@, "restorecommand"@));
    lemma_count_bound(rows, SessionFilter::WaitEvent("ipc"@, "restorecommand"@));
    lemma_count_after_push(rows, r, SessionFilter::WaitEvent("ipc"@, "safesnapshot"@));
    lemma_count_bound(rows.push(r), SessionFilter::WaitEvent("ipc"@, "safesnapshot"@));
    lemma_count_bound(rows, SessionFilter::WaitEvent("ipc"@, "safesnapshot"@));
    lemma_count_after_push(rows, r, SessionFilter::WaitEvent("ipc"@, "syncrep"@));
    lemma_count_bound(rows.push(r), SessionFilter::WaitEvent("ipc"@, "syncrep"@));
    lemma_count_bound(rows, SessionFilter::WaitEvent("ipc"@, "syncrep"@));
    lemma_count_after_push(rows, r, SessionFilter::WaitEvent("ipc"@, "walreceiverexit"@));
    lemma_count_bound(rows.push(r), SessionFilter::WaitEvent("ipc"@, "walreceiverexit"@));
    lemma_count_bound(rows, SessionFilter::WaitEvent("ipc"@, "walreceiverexit"@));
    lemma_count_after_push(rows, r, SessionFilter::WaitEvent("ipc"@, "walreceiverwaitstart"@));
    lemma_count_bound(rows.push(r), SessionFilter::WaitEvent("ipc"@, "walreceiverwaitstart"@));
    lemma_count_bound(rows, SessionFilter::WaitEvent("ipc"@, "walreceiverwaitstart"@));
    lemma_count_after_push(rows, r, SessionFilter::WaitEvent("ipc"@, "xactgroupupdate"@));
    lemma_count_bound(rows.push(r), SessionFilter::WaitEvent("ipc"@, "xactgroupupdate"@));
    lemma_count_bound(rows, SessionFilter::WaitEvent("ipc"@, "xactgroupupdate"@));
}

proof fn lemma_ipc_other_push(rows: Seq<PgStatActivity>, r: PgStatActivity)
    requires
        rows.len() < usize::MAX,
    ensures
        PgWaitTypeIPC::from_sessions(rows.push(r)).other == PgWaitTypeIPC::from_sessions(rows).other + (if column_is(r.state, "active"@) && column_is(r.wait_event_type, "ipc"@) && !(column_is(r.wait_event, "appendready"@) || column_is(r.wait_event, "archivecleanupcommand"@) || column_is(r.wait_event, "archivecommand"@) || column_is(r.wait_event, "backendtermination"@) || column_is(r.wait_event, "backupwaitwalarchive"@) || column_is(r.wait_event, "bgworkershutdown"@) || column_is(r.wait_event, "bgworkerstartup"@) || column_is(r.wait_event, "btreepage"@) || column_is(r.wait_event, "bufferio"@) || column_is(r.wait_event, "checkpointdone"@) || column_is(r.wait_event, "checkpointstart"@) || column_is(r.wait_event, "executegather"@) || column_is(r.wait_event, "hashbatchallocate"@) || column_is(r.wait_event, "hashbatchelect"@) || column_is(r.wait_event, "hashbatchload"@) || column_is(r.wait_event, "hashbuildallocate"@) || column_is(r.wait_event, "hashbuildelect"@) || column_is(r.wait_event, "hashbuildhashinner"@) || column_is(r.wait_event, "hashbuildhashouter"@) || column_is(r.wait_event, "hashgrowbatchesdecide"@) || column_is(r.wait_event, "hashgrowbatcheselect"@) || column_is(r.wait_event, "hashgrowbatchesfinish"@) || column_is(r.wait_event, "hashgrowbatchesreallocate"@) || column_is(r.wait_event, "hashgrowbatchesrepartition"@) || column_is(r.wait_event, "hashgrowbucketselect"@) || column_is(r.wait_event, "hashgrowbucketsreallocate"@) || column_is(r.wait_event, "hashgrowbucketsreinsert"@) || column_is(r.wait_event, "logicalapplysenddata"@) || column_is(r.wait_event, "logicalparallelapplystatechange"@) || column_is(r.wait_event, "logicalsyncdata"@) || column_is(r.wait_event, "logicalsyncstatechange"@) || column_is(r.wait_event, "messagequeueinternal"@) || column_is(r.wait_event, "messagequeueputmessage"@) || column_is(r.wait_event, "messagequeuereceive"@) || column_is(r.wait_event, "messagequeuesend"@) || column_is(r.wait_event, "parallelbitmapscan"@) || column_is(r.wait_event, "parallelcreateindexscan"@) || column_is(r.wait_event, "parallelfinish"@) || column_is(r.wait_event, "procarraygroupupdate"@) || column_is(r.wait_event, "procsignalbarrier"@) || column_is(r.wait_event, "promote"@) || column_is(r.wait_event, "recoveryconflictsnapshot"@) || column_is(r.wait_event, "recoveryconflicttablespace"@) || column_is(r.wait_event, "recoveryendcommand"@) || column_is(r.wait_event, "recoverypause"@) || column_is(r.wait_event, "replicationorigindrop"@) || column_is(r.wait_event, "replicationslotdrop"@) || column_is(r.wait_event, "restorecommand"@) || column_is(r.wait_event, "safesnapshot"@) || column_is(r.wait_event, "syncrep"@) || column_is(r.wait_event, "walreceiverexit"@) || column_is(r.wait_event, "walreceiverwaitstart"@) || column_is(r.wait_event, "xactgroupupdate"@)) { 1int } else { 0int }),
{
    reveal_strlit("active");
    assert("active"@.len() == 6);
    reveal_strlit("appendready");
    assert("appendready"@.len() == 11);
    reveal_strlit("archivecleanupcommand");
    assert("archivecleanupcommand"@.len() == 21);
    reveal_strlit("archivecommand");
    assert("archivecommand"@.len() == 14);
    reveal_strlit("backendtermination");
    assert("backendtermination"@.len() == 18);
    reveal_strlit("backupwaitwalarchive");
    assert("backupwaitwalarchive"@.len() == 20);
    reveal_strlit("bgworkershutdown");
    assert("bgworkershutdown"@.len() == 16);
    reveal_strlit("bgworkerstartup");
    assert("bgworkerstartup"@.len() == 15);
    reveal_strlit("btreepage");
    assert("btreepage"@.len() == 9);
    reveal_strlit("bufferio");
    assert("bufferio"@.len() == 8);
    reveal_strlit("checkpointdone");
    assert("checkpointdone"@.len() == 14);
    reveal_strlit("checkpointstart");
    assert("checkpointstart"@.len() == 15);
    reveal_strlit("executegather");
    assert("executegather"@.len() == 13);
    reveal_strlit("hashbatchallocate");
    assert("hashbatchallocate"@.len() == 17);
    reveal_strlit("hashbatchelect");
    assert("hashbatchelect"@.len() == 14);
    reveal_strlit("hashbatchload");
    assert("hashbatchload"@.len() == 13);
    reveal_strlit("hashbuildallocate");
    assert("hashbuildallocate"@.len() == 17);
    reveal_strlit("hashbuildelect");
    assert("hashbuildelect"@.len() == 14);
    reveal_strlit("hashbuildhashinner");
    assert("hashbuildhashinner"@.len() == 18);
    reveal_strlit("hashbuildhashouter");
    assert("hashbuildhashouter"@.len() == 18);
    reveal_strlit("hashgrowbatchesdecide");
    assert("hashgrowbatchesdecide"@.len() == 21);
    reveal_strlit("hashgrowbatcheselect");
    assert("hashgrowbatcheselect"@.len() == 20);
    reveal_strlit("hashgrowbatchesfinish");
    assert("hashgrowbatchesfinish"@.len() == 21);
    reveal_strlit("hashgrowbatchesreallocate");
    assert("hashgrowbatchesreallocate"@.len() == 25);
    reveal_strlit("hashgrowbatchesrepartition");
    assert("hashgrowbatchesrepartition"@.len() == 26);
    reveal_strlit("hashgrowbucketselect");
    assert("hashgrowbucketselect"@.len() == 20);
    reveal_strlit("hashgrowbucketsreallocate");
    assert("hashgrowbucketsreallocate"@.len() == 25);
    reveal_strlit("hashgrowbucketsreinsert");
    assert("hashgrowbucketsreinsert"@.len() == 23);
    reveal_strlit("ipc");
    assert("ipc"@.len() == 3);
    reveal_strlit("logicalapplysenddata");
    assert("logicalapplysenddata"@.len() == 20);
    reveal_strlit("logicalparallelapplystatechange");
    assert("logicalparallelapplystatechange"@.len() == 31);
    reveal_strlit("logicalsyncdata");
    assert("logicalsyncdata"@.len() == 15);
    reveal_strlit("logicalsyncstatechange");
    assert("logicalsyncstatechange"@.len() == 22);
    reveal_strlit("messagequeueinternal");
    assert("messagequeueinternal"@.len() == 20);
    reveal_strlit("messagequeueputmessage");
    assert("messagequeueputmessage"@.len() == 22);
    reveal_strlit("messagequeuereceive");
    assert("messagequeuereceive"@.len() == 19);
    reveal_strlit("messagequeuesend");
    assert("messagequeuesend"@.len() == 16);
    reveal_strlit("parallelbitmapscan");
    assert("parallelbitmapscan"@.len() == 18);
    reveal_strlit("parallelcreateindexscan");
    assert("parallelcreateindexscan"@.len() == 23);
    reveal_strlit("parallelfinish");
    assert("parallelfinish"@.len() == 14);
    reveal_strlit("procarraygroupupdate");
    assert("procarraygroupupdate"@.len() == 20);
    reveal_strlit("procsignalbarrier");
    assert("procsignalbarrier"@.len() == 17);
    reveal_strlit("promote");
    assert("promote"@.len() == 7);
    reveal_strlit("recoveryconflictsnapshot");
    assert("recoveryconflictsnapshot"@.len() == 24);
    reveal_strlit("recoveryconflicttablespace");
    assert("recoveryconflicttablespace"@.len() == 26);
    reveal_strlit("recoveryendcommand");
    assert("recoveryendcommand"@.len() == 18);
    reveal_strlit("recoverypause");
    assert("recoverypause"@.len() == 13);
    reveal_strlit("replicationorigindrop");
    assert("replicationorigindrop"@.len() == 21);
    reveal_strlit("replicationslotdrop");
    assert("replicationslotdrop"@.len() == 19);
    reveal_strlit("restorecommand");
    assert("restorecommand"@.len() == 14);
    reveal_strlit("safesnapshot");
    assert("safesnapshot"@.len() == 12);
    reveal_strlit("syncrep");
    assert("syncrep"@.len() == 7);
    reveal_strlit("walreceiverexit");
    assert("walreceiverexit"@.len() == 15);
    reveal_strlit("walreceiverwaitstart");
    assert("walreceiverwaitstart"@.len() == 20);
    reveal_strlit("xactgroupupdate");
    assert("xactgroupupdate"@.len() == 15);
    let known = ipc_wait_events();
    assert(known[0] == "appendready"@);
    assert(known[1] == "archivecleanupcommand"@);
    assert(known[2] == "archivecommand"@);
    assert(known[3] == "backendtermination"@);
    assert(known[4] == "backupwaitwalarchive"@);
    assert(known[5] == "bgworkershutdown"@);
    assert(known[6] == "bgworkerstartup"@);
    assert(known[7] == "btreepage"@);
    assert(known[8] == "bufferio"@);
    assert(known[9] == "checkpointdone"@);
    assert(known[10] == "checkpointstart"@);
    assert(known[11] == "executegather"@);
    assert(known[12] == "hashbatchallocate"@);
    assert(known[13] == "hashbatchelect"@);
    assert(known[14] == "hashbatchload"@);
    assert(known[15] == "hashbuildallocate"@);
    assert(known[16] == "hashbuildelect"@);
    assert(known[17] == "hashbuildhashinner"@);
    assert(known[18] == "hashbuildhashouter"@);
    assert(known[19] == "hashgrowbatchesdecide"@);
    assert(known[20] == "hashgrowbatcheselect"@);
    assert(known[21] == "hashgrowbatchesfinish"@);
    assert(known[22] == "hashgrowbatchesreallocate"@);
    assert(known[23] == "hashgrowbatchesrepartition"@);
    assert(known[24] == "hashgrowbucketselect"@);
    assert(known[25] == "hashgrowbucketsreallocate"@);
    assert(known[26] == "hashgrowbucketsreinsert"@);
    assert(known[27] == "logicalapplysenddata"@);
    assert(known[28] == "logicalparallelapplystatechange"@);
    assert(known[29] == "logicalsyncdata"@);
    assert(known[30] == "logicalsyncstatechange"@);
    assert(known[31] == "messagequeueinternal"@);
    assert(known[32] == "messagequeueputmessage"@);
    assert(known[33] == "messagequeuereceive"@);
    assert(known[34] == "messagequeuesend"@);
    assert(known[35] == "parallelbitmapscan"@);
    assert(known[36] == "parallelcreateindexscan"@);
    assert(known[37] == "parallelfinish"@);
    assert(known[38] == "procarraygroupupdate"@);
    assert(known[39] == "procsignalbarrier"@);
    assert(known[40] == "promote"@);
    assert(known[41] == "recoveryconflictsnapshot"@);
    assert(known[42] == "recoveryconflicttablespace"@);
    assert(known[43] == "recoveryendcommand"@);
    assert(known[44] == "recoverypause"@);
    assert(known[45] == "replicationorigindrop"@);
    assert(known[46] == "replicationslotdrop"@);
    assert(known[47] == "restorecommand"@);
    assert(known[48] == "safesnapshot"@);
    assert(known[49] == "syncrep"@);
    assert(known[50] == "walreceiverexit"@);
    assert(known[51] == "walreceiverwaitstart"@);
    assert(known[52] == "xactgroupupdate"@);
    lemma_count_after_push(rows, r, SessionFilter::UnlistedEvent("ipc"@, known));
    lemma_count_bound(rows.push(r), SessionFilter::UnlistedEvent("ipc"@, known));
    lemma_count_bound(rows, SessionFilter::UnlistedEvent("ipc"@, known));
}

/// Counting one more session into the breakdown of `lock` by wait event adds
/// one to the field of its wait event when it is active (state `active`),
/// waits on `lock` and its wait event is that field's name, and to `other` when
/// it is active and waits on `lock` with a wait event of none of those names;
/// every other count stays. Without sessions every count is zero.
pub proof fn lemma_lock_events_push(rows: Seq<PgStatActivity>, r: PgStatActivity)
    requires
        rows.len() < usize::MAX,
    ensures
        PgWaitTypeLock::from_sessions(rows.push(r)).advisory == PgWaitTypeLock::from_sessions(rows).advisory + (if column_is(r.state, "active"@) && column_is(r.wait_event_type, "lock"@) && column_is(r.wait_event, "advisory"@) { 1int } else { 0int }),
        PgWaitTypeLock::from_sessions(rows.push(r)).applytransaction == PgWaitTypeLock::from_sessions(rows).applytransaction + (if column_is(r.state, "active"@) && column_is(r.wait_event_type, "lock"@) && column_is(r.wait_event, "applytransaction"@) { 1int } else { 0int }),
        PgWaitTypeLock::from_sessions(rows.push(r)).extend == PgWaitTypeLock::from_sessions(rows).extend + (if column_is(r.state, "active"@) && column_is(r.wait_event_type, "lock"@) && column_is(r.wait_event, "extend"@) { 1int } else { 0int }),
        PgWaitTypeLock::from_sessions(rows.push(r)).frozenid == PgWaitTypeLock::from_sessions(rows).frozenid + (if column_is(r.state, "active"@) && column_is(r.wait_event_type, "lock"@) && column_is(r.wait_event, "frozenid"@) { 1int } else { 0int }),
        PgWaitTypeLock::from_sessions(rows.push(r)).object == PgWaitTypeLock::from_sessions(rows).object + (if column_is(r.state, "active"@) && column_is(r.wait_event_type, "lock"@) && column_is(r.wait_event, "object"@) { 1int } else { 0int }),
        PgWaitTypeLock::from_sessions(rows.push(r)).page == PgWaitTypeLock::from_sessions(rows).page + (if column_is(r.state, "active"@) && column_is(r.wait_event_type, "lock"@) && column_is(r.wait_event, "page"@) { 1int } else { 0int }),
        PgWaitTypeLock::from_sessions(rows.push(r)).relation == PgWaitTypeLock::from_sessions(rows).relation + (if column_is(r.state, "active"@) && column_is(r.wait_event_type, "lock"@) && column_is(r.wait_event, "relation"@) { 1int } else { 0int }),
        PgWaitTypeLock::from_sessions(rows.push(r)).spectoken == PgWaitTypeLock::from_sessions(rows).spectoken + (if column_is(r.state, "active"@) && column_is(r.wait_event_type, "lock"@) && column_is(r.wait_event, "spectoken"@) { 1int } else { 0int }),
        PgWaitTypeLock::from_sessions(rows.push(r)).transactionid == PgWaitTypeLock::from_sessions(rows).transactionid + (if column_is(r.state, "active"@) && column_is(r.wait_event_type, "lock"@) && column_is(r.wait_event, "transactionid"@) { 1int } else { 0int }),
        PgWaitTypeLock::from_sessions(rows.push(r)).tuple == PgWaitTypeLock::from_sessions(rows).tuple + (if column_is(r.state, "active"@) && column_is(r.wait_event_type, "lock"@) && column_is(r.wait_event, "tuple"@) { 1int } else { 0int }),
        PgWaitTypeLock::from_sessions(rows.push(r)).userlock == PgWaitTypeLock::from_sessions(rows).userlock + (if column_is(r.state, "active"@) && column_is(r.wait_event_type, "lock"@) && column_is(r.wait_event, "userlock"@) { 1int } else { 0int }),
        PgWaitTypeLock::from_sessions(rows.push(r)).virtualxid == PgWaitTypeLock::from_sessions(rows).virtualxid + (if column_is(r.state, "active"@) && column_is(r.wait_event_type, "lock"@) && column_is(r.wait_event, "virtualxid"@) { 1int } else { 0int }),
        PgWaitTypeLock::from_sessions(rows.push(r)).other == PgWaitTypeLock::from_sessions(rows).other + (if column_is(r.state, "active"@) && column_is(r.wait_event_type, "lock"@) && !(column_is(r.wait_event, "advisory"@) || column_is(r.wait_event, "applytransaction"@) || column_is(r.wait_event, "extend"@) || column_is(r.wait_event, "frozenid"@) || column_is(r.wait_event, "object"@) || column_is(r.wait_event, "page"@) || column_is(r.wait_event, "relation"@) || column_is(r.wait_event, "spectoken"@) || column_is(r.wait_event, "transactionid"@) || column_is(r.wait_event, "tuple"@) || column_is(r.wait_event, "userlock"@) || column_is(r.wait_event, "virtualxid"@)) { 1int } else { 0int }),
        PgWaitTypeLock::from_sessions(Seq::empty()).advisory == 0,
        PgWaitTypeLock::from_sessions(Seq::empty()).applytransaction == 0,
        PgWaitTypeLock::from_sessions(Seq::empty()).extend == 0,
        PgWaitTypeLock::from_sessions(Seq::empty()).frozenid == 0,
        PgWaitTypeLock::from_sessions(Seq::empty()).object == 0,
        PgWaitTypeLock::from_sessions(Seq::empty()).page == 0,
        PgWaitTypeLock::from_sessions(Seq::empty()).relation == 0,
        PgWaitTypeLock::from_sessions(Seq::empty()).spectoken == 0,
        PgWaitTypeLock::from_sessions(Seq::empty()).transactionid == 0,
        PgWaitTypeLock::from_sessions(Seq::empty()).tuple == 0,
        PgWaitTypeLock::from_sessions(Seq::empty()).userlock == 0,
        PgWaitTypeLock::from_sessions(Seq::empty()).virtualxid == 0,
        PgWaitTypeLock::from_sessions(Seq::empty()).other == 0,
{
    reveal_strlit("active");
    assert("active"@.len() == 6);
    reveal_strlit("advisory");
    assert("advisory"@.len() == 8);
    reveal_strlit("applytransaction");
    assert("applytransaction"@.len() == 16);
    reveal_strlit("extend");
    assert("extend"@.len() == 6);
    reveal_strlit("frozenid");
    assert("frozenid"@.len() == 8);
    reveal_strlit("lock");
    assert("lock"@.len() == 4);
    reveal_strlit("object");
    assert("object"@.len() == 6);
    reveal_strlit("page");
    assert("page"@.len() == 4);
    reveal_strlit("relation");
    assert("relation"@.len() == 8);
    reveal_strlit("spectoken");
    assert("spectoken"@.len() == 9);
    reveal_strlit("transactionid");
    assert("transactionid"@.len() == 13);
    reveal_strlit("tuple");
    assert("tuple"@.len() == 5);
    reveal_strlit("userlock");
    assert("userlock"@.len() == 8);
    reveal_strlit("virtualxid");
    assert("virtualxid"@.len() == 10);
    lemma_count_after_push(rows, r, SessionFilter::WaitEvent("lock"@, "advisory"@));
    lemma_count_bound(rows.push(r), SessionFilter::WaitEvent("lock"@, "advisory"@));
    lemma_count_bound(rows, SessionFilter::WaitEvent("lock"@, "advisory"@));
    lemma_count_after_push(rows, r, SessionFilter::WaitEvent("lock"@, "applytransaction"@));
    lemma_count_bound(rows.push(r), SessionFilter::WaitEvent("lock"@, "applytransaction"@));
    lemma_count_bound(rows, SessionFilter::WaitEvent("lock"@, "applytransaction"@));
    lemma_count_after_push(rows, r, SessionFilter::WaitEvent("lock"@, "extend"@));
    lemma_count_bound(rows.push(r), SessionFilter::WaitEvent("lock"@, "extend"@));
    lemma_count_bound(rows, SessionFilter::WaitEvent("lock"@, "extend"@));
    lemma_count_after_push(rows, r, SessionFilter::WaitEvent("lock"@, "frozenid"@));
    lemma_count_bound(rows.push(r), SessionFilter::WaitEvent("lock"@, "frozenid"@));
    lemma_count_bound(rows, SessionFilter::WaitEvent("lock"@, "frozenid"@));
    lemma_count_after_push(rows, r, SessionFilter::WaitEvent("lock"@, "object"@));
    lemma_count_bound(rows.push(r), SessionFilter::WaitEvent("lock"@, "object"@));
    lemma_count_bound(rows, SessionFilter::WaitEvent("lock"@, "object"@));
    lemma_count_after_push(rows, r, SessionFilter::WaitEvent("lock"@, "page"@));
    lemma_count_bound(rows.push(r), SessionFilter::WaitEvent("lock"@, "page"@));
    lemma_count_bound(rows, SessionFilter::WaitEvent("lock"@, "page"@));
    lemma_count_after_push(rows, r, SessionFilter::WaitEvent("lock"@, "relation"@));
    lemma_count_bound(rows.push(r), SessionFilter::WaitEvent("lock"@, "relation"@));
    lemma_count_bound(rows, SessionFilter::WaitEvent("lock"@, "relation"@));
    lemma_count_after_push(rows, r, SessionFilter::WaitEvent("lock"@, "spectoken"@));
    lemma_count_bound(rows.push(r), SessionFilter::WaitEvent("lock"@, "spectoken"@));
    lemma_count_bound(rows, SessionFilter::WaitEvent("lock"@, "spectoken"@));
    lemma_count_after_push(rows, r, SessionFilter::WaitEvent("lock"@, "transactionid"@));
    lemma_count_bound(rows.push(r), SessionFilter::WaitEvent("lock"@, "transactionid"@));
    lemma_count_bound(rows, SessionFilter::WaitEvent("lock"@, "transactionid"@));
    lemma_count_after_push(rows, r, SessionFilter::WaitEvent("lock"@, "tuple"@));
    lemma_count_bound(rows.push(r), SessionFilter::WaitEvent("lock"@, "tuple"@));
    lemma_count_bound(rows, SessionFilter::WaitEvent("lock"@, "tuple"@));
    lemma_count_after_push(rows, r, SessionFilter::WaitEvent("lock"@, "userlock"@));
    lemma_count_bound(rows.push(r), SessionFilter::WaitEvent("lock"@, "userlock"@));
    lemma_count_bound(rows, SessionFilter::WaitEvent("lock"@, "userlock"@));
    lemma_count_after_push(rows, r, SessionFilter::WaitEvent("lock"@, "virtualxid"@));
    lemma_count_bound(rows.push(r), SessionFilter::WaitEvent("lock"@, "virtualxid"@));
    lemma_count_bound(rows, SessionFilter::WaitEvent("lock"@, "virtualxid"@));
    let known = lock_wait_events();
    assert(known[0] == "advisory"@);
    assert(known[1] == "applytransaction"@);
    assert(known[2] == "extend"@);
    assert(known[3] == "frozenid"@);
    assert(known[4] == "object"@);
    assert(known[5] == "page"@);
    assert(known[6] == "relation"@);
    assert(known[7] == "spectoken"@);
    assert(known[8] == "transactionid"@);
    assert(known[9] == "tuple"@);
    assert(known[10] == "userlock"@);
    assert(known[11] == "virtualxid"@);
    lemma_count_after_push(rows, r, SessionFilter::UnlistedEvent("lock"@, known));
    lemma_count_bound(rows.push(r), SessionFilter::UnlistedEvent("lock"@, known));
    lemma_count_bound(rows, SessionFilter::UnlistedEvent("lock"@, known));
}

/// Counting one more session into the breakdown of `lwlock` by wait event adds
/// one to the field of its wait event when it is active (state `active`),
/// waits on `lwlock` and its wait event is that field's name, and to `other` when
/// it is active and waits on `lwlock` with a wait event of none of those names;
/// every other count stays. Without sessions every count is zero.
pub proof fn lemma_lwlock_events_push(rows: Seq<PgStatActivity>, r: PgStatActivity)
    requires
        rows.len() < usize::MAX,
    ensures
        PgWaitTypeLWLock::from_sessions(rows.push(r)).addinsheminit == PgWaitTypeLWLock::from_sessions(rows).addinsheminit + (if column_is(r.state, "active"@) && column_is(r.wait_event_type, "lwlock"@) && column_is(r.wait_event, "addinshmeminit"@) { 1int } else { 0int }),
        PgWaitTypeLWLock::from_sessions(rows.push(r)).autofile == PgWaitTypeLWLock::from_sessions(rows).autofile + (if column_is(r.state, "active"@) && column_is(r.wait_event_type, "lwlock"@) && column_is(r.wait_event, "autofile"@) { 1int } else { 0int }),
        PgWaitTypeLWLock::from_sessions(rows.push(r)).autovacuum == PgWaitTypeLWLock::from_sessions(rows).autovacuum + (if column_is(r.state, "active"@) && column_is(r.wait_event_type, "lwlock"@) && column_is(r.wait_event, "autovacuum"@) { 1int } else { 0int }),
        PgWaitTypeLWLock::from_sessions(rows.push(r)).autovacuumschedule == PgWaitTypeLWLock::from_sessions(rows).autovacuumschedule + (if column_is(r.state, "active"@) && column_is(r.wait_event_type, "lwlock"@) && column_is(r.wait_event, "autovacuumschedule"@) { 1int } else { 0int }),
        PgWaitTypeLWLock::from_sessions(rows.push(r)).backgroundworker == PgWaitTypeLWLock::from_sessions(rows).backgroundworker + (if column_is(r.state, "active"@) && column_is(r.wait_event_type, "lwlock"@) && column_is(r.wait_event, "backgroundworker"@) { 1int } else { 0int }),
        PgWaitTypeLWLock::from_sessions(rows.push(r)).btreevacuum == PgWaitTypeLWLock::from_sessions(rows).btreevacuum + (if column_is(r.state, "active"@) && column_is(r.wait_event_type, "lwlock"@) && column_is(r.wait_event, "btreevacuum"@) { 1int } else { 0int }),
        PgWaitTypeLWLock::from_sessions(rows.push(r)).buffercontent == PgWaitTypeLWLock::from_sessions(rows).buffercontent + (if column_is(r.state, "active"@) && column_is(r.wait_event_type, "lwlock"@) && column_is(r.wait_event, "buffercontent"@) { 1int } else { 0int }),
        PgWaitTypeLWLock::from_sessions(rows.push(r)).buffermapping == PgWaitTypeLWLock::from_sessions(rows).buffermapping + (if column_is(r.state, "active"@) && column_is(r.wait_event_type, "lwlock"@) && column_is(r.wait_event, "buffermapping"@) { 1int } else { 0int }),
        PgWaitTypeLWLock::from_sessions(rows.push(r)).checkpointercomm == PgWaitTypeLWLock::from_sessions(rows).checkpointercomm + (if column_is(r.state, "active"@) && column_is(r.wait_event_type, "lwlock"@) && column_is(r.wait_event, "checkpointercomm"@) { 1int } else { 0int }),
        PgWaitTypeLWLock::from_sessions(rows.push(r)).committs == PgWaitTypeLWLock::from_sessions(rows).committs + (if column_is(r.state, "active"@) && column_is(r.wait_event_type, "lwlock"@) && column_is(r.wait_event, "committs"@) { 1int } else { 0int }),
        PgWaitTypeLWLock::from_sessions(rows.push(r)).committsbuffer == PgWaitTypeLWLock::from_sessions(rows).committsbuffer + (if column_is(r.state, "active"@) && column_is(r.wait_event_type, "lwlock"@) && column_is(r.wait_event, "committsbuffer"@) { 1int } else { 0int }),
        PgWaitTypeLWLock::from_sessions(rows.push(r)).committsslru == PgWaitTypeLWLock::from_sessions(rows).committsslru + (if column_is(r.state, "active"@) && column_is(r.wait_event_type, "lwlock"@) && column_is(r.wait_event, "committsslru"@) { 1int } else { 0int }),
        PgWaitTypeLWLock::from_sessions(rows.push(r)).controlfile == PgWaitTypeLWLock::from_sessions(rows).controlfile + (if column_is(r.state, "active"@) && column_is(r.wait_event_type, "lwlock"@) && column_is(r.wait_event, "controlfile"@) { 1int } else { 0int }),
        PgWaitTypeLWLock::from_sessions(rows.push(r)).dynamicsharedmemorycontrol == PgWaitTypeLWLock::from_sessions(rows).dynamicsharedmemorycontrol + (if column_is(r.state, "active"@) && column_is(r.wait_event_type, "lwlock"@) && column_is(r.wait_event, "dynamicsharedmemorycontrol"@) { 1int } else { 0int }),
        PgWaitTypeLWLock::from_sessions(rows.push(r)).lockfastpath == PgWaitTypeLWLock::from_sessions(rows).lockfastpath + (if column_is(r.state, "active"@) && column_is(r.wait_event_type, "lwlock"@) && column_is(r.wait_event, "lockfastpath"@) { 1int } else { 0int }),
        PgWaitTypeLWLock::from_sessions(rows.push(r)).lockmanager == PgWaitTypeLWLock::from_sessions(rows).lockmanager + (if column_is(r.state, "active"@) && column_is(r.wait_event_type, "lwlock"@) && column_is(r.wait_event, "lockmanager"@) { 1int } else { 0int }),
        PgWaitTypeLWLock::from_sessions(rows.push(r)).logicalreplauncherdsa == PgWaitTypeLWLock::from_sessions(rows).logicalreplauncherdsa + (if column_is(r.state, "active"@) && column_is(r.wait_event_type, "lwlock"@) && column_is(r.wait_event, "logicalreplauncerdsa"@) { 1int } else { 0int }),
        PgWaitTypeLWLock::from_sessions(rows.push(r)).logicalreplauncherhash == PgWaitTypeLWLock::from_sessions(rows).logicalreplauncherhash + (if column_is(r.state, "active"@) && column_is(r.wait_event_type, "lwlock"@) && column_is(r.wait_event, "logicalreplauncerhash"@) { 1int } else { 0int }),
        PgWaitTypeLWLock::from_sessions(rows.push(r)).logicalrepworker == PgWaitTypeLWLock::from_sessions(rows).logicalrepworker + (if column_is(r.state, "active"@) && column_is(r.wait_event_type, "lwlock"@) && column_is(r.wait_event, "logicalrepworker"@) { 1int } else { 0int }),
        PgWaitTypeLWLock::from_sessions(rows.push(r)).multixactgen == PgWaitTypeLWLock::from_sessions(rows).multixactgen + (if column_is(r.state, "active"@) && column_is(r.wait_event_type, "lwlock"@) && column_is(r.wait_event, "multixactgen"@) { 1int } else { 0int }),
        PgWaitTypeLWLock::from_sessions(rows.push(r)).multixactmemberbuffer == PgWaitTypeLWLock::from_sessions(rows).multixactmemberbuffer + (if column_is(r.state, "active"@) && column_is(r.wait_event_type, "lwlock"@) && column_is(r.wait_event, "multixactmemberbuffer"@) { 1int } else { 0int }),
        PgWaitTypeLWLock::from_sessions(rows.push(r)).multixactmemberslru == PgWaitTypeLWLock::from_sessions(rows).multixactmemberslru + (if column_is(r.state, "active"@) && column_is(r.wait_event_type, "lwlock"@) && column_is(r.wait_event, "multixactmemberslru"@) { 1int } else { 0int }),
        PgWaitTypeLWLock::from_sessions(rows.push(r)).multixactoffsetbuffer == PgWaitTypeLWLock::from_sessions(rows).multixactoffsetbuffer + (if column_is(r.state, "active"@) && column_is(r.wait_event_type, "lwlock"@) && column_is(r.wait_event, "multixactoffsetbuffer"@) { 1int } else { 0int }),
        PgWaitTypeLWLock::from_sessions(rows.push(r)).multixactoffsetslru == PgWaitTypeLWLock::from_sessions(rows).multixactoffsetslru + (if column_is(r.state, "active"@) && column_is(r.wait_event_type, "lwlock"@) && column_is(r.wait_event, "multixactoffsetslru"@) { 1int } else { 0int }),
        PgWaitTypeLWLock::from_sessions(rows.push(r)).multixacttruncation == PgWaitTypeLWLock::from_sessions(rows).multixacttruncation + (if column_is(r.state, "active"@) && column_is(r.wait_event_type, "lwlock"@) && column_is(r.wait_event, "multixacttruncation"@) { 1int } else { 0int }),
        PgWaitTypeLWLock::from_sessions(rows.push(r)).notifybuffer == PgWaitTypeLWLock::from_sessions(rows).notifybuffer + (if column_is(r.state, "active"@) && column_is(r.wait_event_type, "lwlock"@) && column_is(r.wait_event, "notifybuffer"@) { 1int } else { 0int }),
        PgWaitTypeLWLock::from_sessions(rows.push(r)).notifyqueue == PgWaitTypeLWLock::from_sessions(rows).notifyqueue + (if column_is(r.state, "active"@) && column_is(r.wait_event_type, "lwlock"@) && column_is(r.wait_event, "notifyqueue"@) { 1int } else { 0int }),
        PgWaitTypeLWLock::from_sessions(rows.push(r)).notifyqueuetail == PgWaitTypeLWLock::from_sessions(rows).notifyqueuetail + (if column_is(r.state, "active"@) && column_is(r.wait_event_type, "lwlock"@) && column_is(r.wait_event, "notifyqueuetail"@) { 1int } else { 0int }),
        PgWaitTypeLWLock::from_sessions(rows.push(r)).notifyslru == PgWaitTypeLWLock::from_sessions(rows).notifyslru + (if column_is(r.state, "active"@) && column_is(r.wait_event_type, "lwlock"@) && column_is(r.wait_event, "notifyslru"@) { 1int } else { 0int }),
        PgWaitTypeLWLock::from_sessions(rows.push(r)).oidgen == PgWaitTypeLWLock::from_sessions(rows).oidgen + (if column_is(r.state, "active"@) && column_is(r.wait_event_type, "lwlock"@) && column_is(r.wait_event, "oidgen"@) { 1int } else { 0int }),
        PgWaitTypeLWLock::from_sessions(rows.push(r)).oldsnapshottimemap == PgWaitTypeLWLock::from_sessions(rows).oldsnapshottimemap + (if column_is(r.state, "active"@) && column_is(r.wait_event_type, "lwlock"@) && column_is(r.wait_event, "oldsnapshottimemap"@) { 1int } else { 0int }),
        PgWaitTypeLWLock::from_sessions(rows.push(r)).parallelappend == PgWaitTypeLWLock::from_sessions(rows).parallelappend + (if column_is(r.state, "active"@) && column_is(r.wait_event_type, "lwlock"@) && column_is(r.wait_event, "parallelappend"@) { 1int } else { 0int }),
        PgWaitTypeLWLock::from_sessions(rows.push(r)).parallelhashjoin == PgWaitTypeLWLock::from_sessions(rows).parallelhashjoin + (if column_is(r.state, "active"@) && column_is(r.wait_event_type, "lwlock"@) && column_is(r.wait_event, "parallelhashjoin"@) { 1int } else { 0int }),
        PgWaitTypeLWLock::from_sessions(rows.push(r)).parallelquerydsa == PgWaitTypeLWLock::from_sessions(rows).parallelquerydsa + (if column_is(r.state, "active"@) && column_is(r.wait_event_type, "lwlock"@) && column_is(r.wait_event, "parallelquerydsa"@) { 1int } else { 0int }),
        PgWaitTypeLWLock::from_sessions(rows.push(r)).persessiondsa == PgWaitTypeLWLock::from_sessions(rows).persessiondsa + (if column_is(r.state, "active"@) && column_is(r.wait_event_type, "lwlock"@) && column_is(r.wait_event, "persessiondsa"@) { 1int } else { 0int }),
        PgWaitTypeLWLock::from_sessions(rows.push(r)).persessionrecordtype == PgWaitTypeLWLock::from_sessions(rows).persessionrecordtype + (if column_is(r.state, "active"@) && column_is(r.wait_event_type, "lwlock"@) && column_is(r.wait_event, "persessionrecordtype"@) { 1int } else { 0int }),
        PgWaitTypeLWLock::from_sessions(rows.push(r)).persessionrecordtypmod == PgWaitTypeLWLock::from_sessions(rows).persessionrecordtypmod + (if column_is(r.state, "active"@) && column_is(r.wait_event_type, "lwlock"@) && column_is(r.wait_event, "persessionrecordtypmod"@) { 1int } else { 0int }),
        PgWaitTypeLWLock::from_sessions(rows.push(r)).perxactpredicatelist == PgWaitTypeLWLock::from_sessions(rows).perxactpredicatelist + (if column_is(r.state, "active"@) && column_is(r.wait_event_type, "lwlock"@) && column_is(r.wait_event, "perxactpredicatelist"@) { 1int } else { 0int }),
        PgWaitTypeLWLock::from_sessions(rows.push(r)).pgstatsdata == PgWaitTypeLWLock::from_sessions(rows).pgstatsdata + (if column_is(r.state, "active"@) && column_is(r.wait_event_type, "lwlock"@) && column_is(r.wait_event, "pgstatsdata"@) { 1int } else { 0int }),
        PgWaitTypeLWLock::from_sessions(rows.push(r)).pgstatsdsa == PgWaitTypeLWLock::from_sessions(rows).pgstatsdsa + (if column_is(r.state, "active"@) && column_is(r.wait_event_type, "lwlock"@) && column_is(r.wait_event, "pgstatsdsa"@) { 1int } else { 0int }),
        PgWaitTypeLWLock::from_sessions(rows.push(r)).pgstatshash == PgWaitTypeLWLock::from_sessions(rows).pgstatshash + (if column_is(r.state, "active"@) && column_is(r.wait_event_type, "lwlock"@) && column_is(r.wait_event, "pgstatshash"@) { 1int } else { 0int }),
        PgWaitTypeLWLock::from_sessions(rows.push(r)).predicatelockmanager == PgWaitTypeLWLock::from_sessions(rows).predicatelockmanager + (if column_is(r.state, "active"@) && column_is(r.wait_event_type, "lwlock"@) && column_is(r.wait_event, "predicatelockmanager"@) { 1int } else { 0int }),
        PgWaitTypeLWLock::from_sessions(rows.push(r)).procarray == PgWaitTypeLWLock::from_sessions(rows).procarray + (if column_is(r.state, "active"@) && column_is(r.wait_event_type, "lwlock"@) && column_is(r.wait_event, "procarray"@) { 1int } else { 0int }),
        PgWaitTypeLWLock::from_sessions(rows.push(r)).relationmapping == PgWaitTypeLWLock::from_sessions(rows).relationmapping + (if column_is(r.state, "active"@) && column_is(r.wait_event_type, "lwlock"@) && column_is(r.wait_event, "relationmapping"@) { 1int } else { 0int }),
        PgWaitTypeLWLock::from_sessions(rows.push(r)).relcacheinit == PgWaitTypeLWLock::from_sessions(rows).relcacheinit + (if column_is(r.state, "active"@) && column_is(r.wait_event_type, "lwlock"@) && column_is(r.wait_event, "relcacheinit"@) { 1int } else { 0int }),
        PgWaitTypeLWLock::from_sessions(rows.push(r)).replicationorigin == PgWaitTypeLWLock::from_sessions(rows).replicationorigin + (if column_is(r.state, "active"@) && column_is(r.wait_event_type, "lwlock"@) && column_is(r.wait_event, "replicationorigin"@) { 1int } else { 0int }),
        PgWaitTypeLWLock::from_sessions(rows.push(r)).replicationoriginstate == PgWaitTypeLWLock::from_sessions(rows).replicationoriginstate + (if column_is(r.state, "active"@) && column_is(r.wait_event_type, "lwlock"@) && column_is(r.wait_event, "replicationoriginstate"@) { 1int } else { 0int }),
        PgWaitTypeLWLock::from_sessions(rows.push(r)).replicationslotallocation == PgWaitTypeLWLock::from_sessions(rows).replicationslotallocation + (if column_is(r.state, "active"@) && column_is(r.wait_event_type, "lwlock"@) && column_is(r.wait_event, "replicationslotallocation"@) { 1int } else { 0int }),
        PgWaitTypeLWLock::from_sessions(rows.push(r)).replicationslotcontrol == PgWaitTypeLWLock::from_sessions(rows).replicationslotcontrol + (if column_is(r.state, "active"@) && column_is(r.wait_event_type, "lwlock"@) && column_is(r.wait_event, "replicationslotcontrol"@) { 1int } else { 0int }),
        PgWaitTypeLWLock::from_sessions(rows.push(r)).replicationslotio == PgWaitTypeLWLock::from_sessions(rows).replicationslotio + (if column_is(r.state, "active"@) && column_is(r.wait_event_type, "lwlock"@) && column_is(r.wait_event, "replicationslotio"@) { 1int } else { 0int }),
        PgWaitTypeLWLock::from_sessions(rows.push(r)).serialbuffer == PgWaitTypeLWLock::from_sessions(rows).serialbuffer + (if column_is(r.state, "active"@) && column_is(r.wait_event_type, "lwlock"@) && column_is(r.wait_event, "serialbuffer"@) { 1int } else { 0int }),
        PgWaitTypeLWLock::from_sessions(rows.push(r)).serializablefinishedlist == PgWaitTypeLWLock::from_sessions(rows).serializablefinishedlist + (if column_is(r.state, "active"@) && column_is(r.wait_event_type, "lwlock"@) && column_is(r.wait_event, "serializablefinishedlist"@) { 1int } else { 0int }),
        PgWaitTypeLWLock::from_sessions(rows.push(r)).serializablepredicatelist == PgWaitTypeLWLock::from_sessions(rows).serializablepredicatelist + (if column_is(r.state, "active"@) && column_is(r.wait_event_type, "lwlock"@) && column_is(r.wait_event, "serializablepredicatelist"@) { 1int } else { 0int }),
        PgWaitTypeLWLock::from_sessions(rows.push(r)).serializablexacthash == PgWaitTypeLWLock::from_sessions(rows).serializablexacthash + (if column_is(r.state, "active"@) && column_is(r.wait_event_type, "lwlock"@) && column_is(r.wait_event, "serializablexacthash"@) { 1int } else { 0int }),
        PgWaitTypeLWLock::from_sessions(rows.push(r)).serialslru == PgWaitTypeLWLock::from_sessions(rows).serialslru + (if column_is(r.state, "active"@) && column_is(r.wait_event_type, "lwlock"@) && column_is(r.wait_event, "serialslru"@) { 1int } else { 0int }),
        PgWaitTypeLWLock::from_sessions(rows.push(r)).sharedtidbitmap == PgWaitTypeLWLock::from_sessions(rows).sharedtidbitmap + (if column_is(r.state, "active"@) && column_is(r.wait_event_type, "lwlock"@) && column_is(r.wait_event, "sharedtidbitmap"@) { 1int } else { 0int }),
        PgWaitTypeLWLock::from_sessions(rows.push(r)).sharedtuplestore == PgWaitTypeLWLock::from_sessions(rows).sharedtuplestore + (if column_is(r.state, "active"@) && column_is(r.wait_event_type, "lwlock"@) && column_is(r.wait_event, "sharedtuplestore"@) { 1int } else { 0int }),
        PgWaitTypeLWLock::from_sessions(rows.push(r)).shmemindex == PgWaitTypeLWLock::from_sessions(rows).shmemindex + (if column_is(r.state, "active"@) && column_is(r.wait_event_type, "lwlock"@) && column_is(r.wait_event, "shmemindex"@) { 1int } else { 0int }),
        PgWaitTypeLWLock::from_sessions(rows.push(r)).sinvalread == PgWaitTypeLWLock::from_sessions(rows).sinvalread + (if column_is(r.state, "active"@) && column_is(r.wait_event_type, "lwlock"@) && column_is(r.wait_event, "sinvalread"@) { 1int } else { 0int }),
        PgWaitTypeLWLock::from_sessions(rows.push(r)).sinvalwrite == PgWaitTypeLWLock::from_sessions(rows).sinvalwrite + (if column_is(r.state, "active"@) && column_is(r.wait_event_type, "lwlock"@) && column_is(r.wait_event, "sinvalwrite"@) { 1int } else { 0int }),
        PgWaitTypeLWLock::from_sessions(rows.push(r)).subtransbuffer == PgWaitTypeLWLock::from_sessions(rows).subtransbuffer + (if column_is(r.state, "active"@) && column_is(r.wait_event_type, "lwlock"@) && column_is(r.wait_event, "subtransbuffer"@) { 1int } else { 0int }),
        PgWaitTypeLWLock::from_sessions(rows.push(r)).subtransslru == PgWaitTypeLWLock::from_sessions(rows).subtransslru + (if column_is(r.state, "active"@) && column_is(r.wait_event_type, "lwlock"@) && column_is(r.wait_event, "subtransslru"@) { 1int } else { 0int }),
        PgWaitTypeLWLock::from_sessions(rows.push(r)).syncrep == PgWaitTypeLWLock::from_sessions(rows).syncrep + (if column_is(r.state, "active"@) && column_is(r.wait_event_type, "lwlock"@) && column_is(r.wait_event, "syncrep"@) { 1int } else { 0int }),
        PgWaitTypeLWLock::from_sessions(rows.push(r)).syncscan == PgWaitTypeLWLock::from_sessions(rows).syncscan + (if column_is(r.state, "active"@) && column_is(r.wait_event_type, "lwlock"@) && column_is(r.wait_event, "syncscan"@) { 1int } else { 0int }),
        PgWaitTypeLWLock::from_sessions(rows.push(r)).tablespacecreate == PgWaitTypeLWLock::from_sessions(rows).tablespacecreate + (if column_is(r.state, "active"@) && column_is(r.wait_event_type, "lwlock"@) && column_is(r.wait_event, "tablespacecreate"@) { 1int } else { 0int }),
        PgWaitTypeLWLock::from_sessions(rows.push(r)).twophasestate == PgWaitTypeLWLock::from_sessions(rows).twophasestate + (if column_is(r.state, "active"@) && column_is(r.wait_event_type, "lwlock"@) && column_is(r.wait_event, "twophasestate"@) { 1int } else { 0int }),
        PgWaitTypeLWLock::from_sessions(rows.push(r)).walbufmapping == PgWaitTypeLWLock::from_sessions(rows).walbufmapping + (if column_is(r.state, "active"@) && column_is(r.wait_event_type, "lwlock"@) && column_is(r.wait_event, "walbufmapping"@) { 1int } else { 0int }),
        PgWaitTypeLWLock::from_sessions(rows.push(r)).walinsert == PgWaitTypeLWLock::from_sessions(rows).walinsert + (if column_is(r.state, "active"@) && column_is(r.wait_event_type, "lwlock"@) && column_is(r.wait_event, "walinsert"@) { 1int } else { 0int }),
        PgWaitTypeLWLock::from_sessions(rows.push(r)).walwrite == PgWaitTypeLWLock::from_sessions(rows).walwrite + (if column_is(r.state, "active"@) && column_is(r.wait_event_type, "lwlock"@) && column_is(r.wait_event, "walwrite"@) { 1int } else { 0int }),
        PgWaitTypeLWLock::from_sessions(rows.push(r)).wraplimitsvacuum == PgWaitTypeLWLock::from_sessions(rows).wraplimitsvacuum + (if column_is(r.state, "active"@) && column_is(r.wait_event_type, "lwlock"@) && column_is(r.wait_event, "wraplimitsvacuum"@) { 1int } else { 0int }),
        PgWaitTypeLWLock::from_sessions(rows.push(r)).xactbuffer == PgWaitTypeLWLock::from_sessions(rows).xactbuffer + (if column_is(r.state, "active"@) && column_is(r.wait_event_type, "lwlock"@) && column_is(r.wait_event, "xactbuffer"@) { 1int } else { 0int }),
        PgWaitTypeLWLock::from_sessions(rows.push(r)).xactslru == PgWaitTypeLWLock::from_sessions(rows).xactslru + (if column_is(r.state, "active"@) && column_is(r.wait_event_type, "lwlock"@) && column_is(r.wait_event, "xactslru"@) { 1int } else { 0int }),
        PgWaitTypeLWLock::from_sessions(rows.push(r)).xacttruncation == PgWaitTypeLWLock::from_sessions(rows).xacttruncation + (if column_is(r.state, "active"@) && column_is(r.wait_event_type, "lwlock"@) && column_is(r.wait_event, "xacttruncation"@) { 1int } else { 0int }),
        PgWaitTypeLWLock::from_sessions(rows.push(r)).xidgen == PgWaitTypeLWLock::from_sessions(rows).xidgen + (if column_is(r.state, "active"@) && column_is(r.wait_event_type, "lwlock"@) && column_is(r.wait_event, "xidgen"@) { 1int } else { 0int }),
        PgWaitTypeLWLock::from_sessions(rows.push(r)).other == PgWaitTypeLWLock::from_sessions(rows).other + (if column_is(r.state, "active"@) && column_is(r.wait_event_type, "lwlock"@) && !(column_is(r.wait_event, "addinshmeminit"@) || column_is(r.wait_event, "autofile"@) || column_is(r.wait_event, "autovacuum"@) || column_is(r.wait_event, "autovacuumschedule"@) || column_is(r.wait_event, "backgroundworker"@) || column_is(r.wait_event, "btreevacuum"@) || column_is(r.wait_event, "buffercontent"@) || column_is(r.wait_event, "buffermapping"@) || column_is(r.wait_event, "checkpointercomm"@) || column_is(r.wait_event, "committs"@) || column_is(r.wait_event, "committsbuffer"@) || column_is(r.wait_event, "committsslru"@) || column_is(r.wait_event, "controlfile"@) || column_is(r.wait_event, "dynamicsharedmemorycontrol"@) || column_is(r.wait_event, "lockfastpath"@) || column_is(r.wait_event, "lockmanager"@) || column_is(r.wait_event, "logicalreplauncerdsa"@) || column_is(r.wait_event, "logicalreplauncerhash"@) || column_is(r.wait_event, "logicalrepworker"@) || column_is(r.wait_event, "multixactgen"@) || column_is(r.wait_event, "multixactmemberbuffer"@) || column_is(r.wait_event, "multixactmemberslru"@) || column_is(r.wait_event, "multixactoffsetbuffer"@) || column_is(r.wait_event, "multixactoffsetslru"@) || column_is(r.wait_event, "multixacttruncation"@) || column_is(r.wait_event, "notifybuffer"@) || column_is(r.wait_event, "notifyqueue"@) || column_is(r.wait_event, "notifyqueuetail"@) || column_is(r.wait_event, "notifyslru"@) || column_is(r.wait_event, "oidgen"@) || column_is(r.wait_event, "oldsnapshottimemap"@) || column_is(r.wait_event, "parallelappend"@) || column_is(r.wait_event, "parallelhashjoin"@) || column_is(r.wait_event, "parallelquerydsa"@) || column_is(r.wait_event, "persessiondsa"@) || column_is(r.wait_event, "persessionrecordtype"@) || column_is(r.wait_event, "persessionrecordtypmod"@) || column_is(r.wait_event, "perxactpredicatelist"@) || column_is(r.wait_event, "pgstatsdata"@) || column_is(r.wait_event, "pgstatsdsa"@) || column_is(r.wait_event, "pgstatshash"@) || column_is(r.wait_event, "predicatelockmanager"@) || column_is(r.wait_event, "procarray"@) || column_is(r.wait_event, "relationmapping"@) || column_is(r.wait_event, "relcacheinit"@) || column_is(r.wait_event, "replicationorigin"@) || column_is(r.wait_event, "replicationoriginstate"@) || column_is(r.wait_event, "replicationslotallocation"@) || column_is(r.wait_event, "replicationslotcontrol"@) || column_is(r.wait_event, "replicationslotio"@) || column_is(r.wait_event, "serialbuffer"@) || column_is(r.wait_event, "serializablefinishedlist"@) || column_is(r.wait_event, "serializablepredicatelist"@) || column_is(r.wait_event, "serializablexacthash"@) || column_is(r.wait_event, "serialslru"@) || column_is(r.wait_event, "sharedtidbitmap"@) || column_is(r.wait_event, "sharedtuplestore"@) || column_is(r.wait_event, "shmemindex"@) || column_is(r.wait_event, "sinvalread"@) || column_is(r.wait_event, "sinvalwrite"@) || column_is(r.wait_event, "subtransbuffer"@) || column_is(r.wait_event, "subtransslru"@) || column_is(r.wait_event, "syncrep"@) || column_is(r.wait_event, "syncscan"@) || column_is(r.wait_event, "tablespacecreate"@) || column_is(r.wait_event, "twophasestate"@) || column_is(r.wait_event, "walbufmapping"@) || column_is(r.wait_event, "walinsert"@) || column_is(r.wait_event, "walwrite"@) || column_is(r.wait_event, "wraplimitsvacuum"@) || column_is(r.wait_event, "xactbuffer"@) || column_is(r.wait_event, "xactslru"@) || column_is(r.wait_event, "xacttruncation"@) || column_is(r.wait_event, "xidgen"@)) { 1int } else { 0int }),
        PgWaitTypeLWLock::from_sessions(Seq::empty()).addinsheminit == 0,
        PgWaitTypeLWLock::from_sessions(Seq::empty()).autofile == 0,
        PgWaitTypeLWLock::from_sessions(Seq::empty()).autovacuum == 0,
        PgWaitTypeLWLock::from_sessions(Seq::empty()).autovacuumschedule == 0,
        PgWaitTypeLWLock::from_sessions(Seq::empty()).backgroundworker == 0,
        PgWaitTypeLWLock::from_sessions(Seq::empty()).btreevacuum == 0,
        PgWaitTypeLWLock::from_sessions(Seq::empty()).buffercontent == 0,
        PgWaitTypeLWLock::from_sessions(Seq::empty()).buffermapping == 0,
        PgWaitTypeLWLock::from_sessions(Seq::empty()).checkpointercomm == 0,
        PgWaitTypeLWLock::from_sessions(Seq::empty()).committs == 0,
        PgWaitTypeLWLock::from_sessions(Seq::empty()).committsbuffer == 0,
        PgWaitTypeLWLock::from_sessions(Seq::empty()).committsslru == 0,
        PgWaitTypeLWLock::from_sessions(Seq::empty()).controlfile == 0,
        PgWaitTypeLWLock::from_sessions(Seq::empty()).dynamicsharedmemorycontrol == 0,
        PgWaitTypeLWLock::from_sessions(Seq::empty()).lockfastpath == 0,
        PgWaitTypeLWLock::from_sessions(Seq::empty()).lockmanager == 0,
        PgWaitTypeLWLock::from_sessions(Seq::empty()).logicalreplauncherdsa == 0,
        PgWaitTypeLWLock::from_sessions(Seq::empty()).logicalreplauncherhash == 0,
        PgWaitTypeLWLock::from_sessions(Seq::empty()).logicalrepworker == 0,
        PgWaitTypeLWLock::from_sessions(Seq::empty()).multixactgen == 0,
        PgWaitTypeLWLock::from_sessions(Seq::empty()).multixactmemberbuffer == 0,
        PgWaitTypeLWLock::from_sessions(Seq::empty()).multixactmemberslru == 0,
        PgWaitTypeLWLock::from_sessions(Seq::empty()).multixactoffsetbuffer == 0,
        PgWaitTypeLWLock::from_sessions(Seq::empty()).multixactoffsetslru == 0,
        PgWaitTypeLWLock::from_sessions(Seq::empty()).multixacttruncation == 0,
        PgWaitTypeLWLock::from_sessions(Seq::empty()).notifybuffer == 0,
        PgWaitTypeLWLock::from_sessions(Seq::empty()).notifyqueue == 0,
        PgWaitTypeLWLock::from_sessions(Seq::empty()).notifyqueuetail == 0,
        PgWaitTypeLWLock::from_sessions(Seq::empty()).notifyslru == 0,
        PgWaitTypeLWLock::from_sessions(Seq::empty()).oidgen == 0,
        PgWaitTypeLWLock::from_sessions(Seq::empty()).oldsnapshottimemap == 0,
        PgWaitTypeLWLock::from_sessions(Seq::empty()).parallelappend == 0,
        PgWaitTypeLWLock::from_sessions(Seq::empty()).parallelhashjoin == 0,
        PgWaitTypeLWLock::from_sessions(Seq::empty()).parallelquerydsa == 0,
        PgWaitTypeLWLock::from_sessions(Seq::empty()).persessiondsa == 0,
        PgWaitTypeLWLock::from_sessions(Seq::empty()).persessionrecordtype == 0,
        PgWaitTypeLWLock::from_sessions(Seq::empty()).persessionrecordtypmod == 0,
        PgWaitTypeLWLock::from_sessions(Seq::empty()).perxactpredicatelist == 0,
        PgWaitTypeLWLock::from_sessions(Seq::empty()).pgstatsdata == 0,
        PgWaitTypeLWLock::from_sessions(Seq::empty()).pgstatsdsa == 0,
        PgWaitTypeLWLock::from_sessions(Seq::empty()).pgstatshash == 0,
        PgWaitTypeLWLock::from_sessions(Seq::empty()).predicatelockmanager == 0,
        PgWaitTypeLWLock::from_sessions(Seq::empty()).procarray == 0,
        PgWaitTypeLWLock::from_sessions(Seq::empty()).relationmapping == 0,
        PgWaitTypeLWLock::from_sessions(Seq::empty()).relcacheinit == 0,
        PgWaitTypeLWLock::from_sessions(Seq::empty()).replicationorigin == 0,
        PgWaitTypeLWLock::from_sessions(Seq::empty()).replicationoriginstate == 0,
        PgWaitTypeLWLock::from_sessions(Seq::empty()).replicationslotallocation == 0,
        PgWaitTypeLWLock::from_sessions(Seq::empty()).replicationslotcontrol == 0,
        PgWaitTypeLWLock::from_sessions(Seq::empty()).replicationslotio == 0,
        PgWaitTypeLWLock::from_sessions(Seq::empty()).serialbuffer == 0,
        PgWaitTypeLWLock::from_sessions(Seq::empty()).serializablefinishedlist == 0,
        PgWaitTypeLWLock::from_sessions(Seq::empty()).serializablepredicatelist == 0,
        PgWaitTypeLWLock::from_sessions(Seq::empty()).serializablexacthash == 0,
        PgWaitTypeLWLock::from_sessions(Seq::empty()).serialslru == 0,
        PgWaitTypeLWLock::from_sessions(Seq::empty()).sharedtidbitmap == 0,
        PgWaitTypeLWLock::from_sessions(Seq::empty()).sharedtuplestore == 0,
        PgWaitTypeLWLock::from_sessions(Seq::empty()).shmemindex == 0,
        PgWaitTypeLWLock::from_sessions(Seq::empty()).sinvalread == 0,
        PgWaitTypeLWLock::from_sessions(Seq::empty()).sinvalwrite == 0,
        PgWaitTypeLWLock::from_sessions(Seq::empty()).subtransbuffer == 0,
        PgWaitTypeLWLock::from_sessions(Seq::empty()).subtransslru == 0,
        PgWaitTypeLWLock::from_sessions(Seq::empty()).syncrep == 0,
        PgWaitTypeLWLock::from_sessions(Seq::empty()).syncscan == 0,
        PgWaitTypeLWLock::from_sessions(Seq::empty()).tablespacecreate == 0,
        PgWaitTypeLWLock::from_sessions(Seq::empty()).twophasestate == 0,
        PgWaitTypeLWLock::from_sessions(Seq::empty()).walbufmapping == 0,
        PgWaitTypeLWLock::from_sessions(Seq::empty()).walinsert == 0,
        PgWaitTypeLWLock::from_sessions(Seq::empty()).walwrite == 0,
        PgWaitTypeLWLock::from_sessions(Seq::empty()).wraplimitsvacuum == 0,
        PgWaitTypeLWLock::from_sessions(Seq::empty()).xactbuffer == 0,
        PgWaitTypeLWLock::from_sessions(Seq::empty()).xactslru == 0,
        PgWaitTypeLWLock::from_sessions(Seq::empty()).xacttruncation == 0,
        PgWaitTypeLWLock::from_sessions(Seq::empty()).xidgen == 0,
        PgWaitTypeLWLock::from_sessions(Seq::empty()).other == 0,
{
    lemma_lwlock_events_push_0(rows, r);
    lemma_lwlock_events_push_1(rows, r);
    lemma_lwlock_events_push_2(rows, r);
    lemma_lwlock_events_push_3(rows, r);
    lemma_lwlock_events_push_4(rows, r);
    lemma_lwlock_other_push(rows, r);
}

proof fn lemma_lwlock_events_push_0(rows: Seq<PgStatActivity>, r: PgStatActivity)
    requires
        rows.len() < usize::MAX,
    ensures
        PgWaitTypeLWLock::from_sessions(rows.push(r)).addinsheminit == PgWaitTypeLWLock::from_sessions(rows).addinsheminit + (if column_is(r.state, "active"@) && column_is(r.wait_event_type, "lwlock"@) && column_is(r.wait_event, "addinshmeminit"@) { 1int } else { 0int }),
        PgWaitTypeLWLock::from_sessions(rows.push(r)).autofile == PgWaitTypeLWLock::from_sessions(rows).autofile + (if column_is(r.state, "active"@) && column_is(r.wait_event_type, "lwlock"@) && column_is(r.wait_event, "autofile"@) { 1int } else { 0int }),
        PgWaitTypeLWLock::from_sessions(rows.push(r)).autovacuum == PgWaitTypeLWLock::from_sessions(rows).autovacuum + (if column_is(r.state, "active"@) && column_is(r.wait_event_type, "lwlock"@) && column_is(r.wait_event, "autovacuum"@) { 1int } else { 0int }),
        PgWaitTypeLWLock::from_sessions(rows.push(r)).autovacuumschedule == PgWaitTypeLWLock::from_sessions(rows).autovacuumschedule + (if column_is(r.state, "active"@) && column_is(r.wait_event_type, "lwlock"@) && column_is(r.wait_event, "autovacuumschedule"@) { 1int } else { 0int }),
        PgWaitTypeLWLock::from_sessions(rows.push(r)).backgroundworker == PgWaitTypeLWLock::from_sessions(rows).backgroundworker + (if column_is(r.state, "active"@) && column_is(r.wait_event_type, "lwlock"@) && column_is(r.wait_event, "backgroundworker"@) { 1int } else { 0int }),
        PgWaitTypeLWLock::from_sessions(rows.push(r)).btreevacuum == PgWaitTypeLWLock::from_sessions(rows).btreevacuum + (if column_is(r.state, "active"@) && column_is(r.wait_event_type, "lwlock"@) && column_is(r.wait_event, "btreevacuum"@) { 1int } else { 0int }),
        PgWaitTypeLWLock::from_sessions(rows.push(r)).buffercontent == PgWaitTypeLWLock::from_sessions(rows).buffercontent + (if column_is(r.state, "active"@) && column_is(r.wait_event_type, "lwlock"@) && column_is(r.wait_event, "buffercontent"@) { 1int } else { 0int }),
        PgWaitTypeLWLock::from_sessions(rows.push(r)).buffermapping == PgWaitTypeLWLock::from_sessions(rows).buffermapping + (if column_is(r.state, "active"@) && column_is(r.wait_event_type, "lwlock"@) && column_is(r.wait_event, "buffermapping"@) { 1int } else { 0int }),
        PgWaitTypeLWLock::from_sessions(rows.push(r)).checkpointercomm == PgWaitTypeLWLock::from_sessions(rows).checkpointercomm + (if column_is(r.state, "active"@) && column_is(r.wait_event_type, "lwlock"@) && column_is(r.wait_event, "checkpointercomm"@) { 1int } else { 0int }),
        PgWaitTypeLWLock::from_sessions(rows.push(r)).committs == PgWaitTypeLWLock::from_sessions(rows).committs + (if column_is(r.state, "active"@) && column_is(r.wait_event_type, "lwlock"@) && column_is(r.wait_event, "committs"@) { 1int } else { 0int }),
        PgWaitTypeLWLock::from_sessions(rows.push(r)).committsbuffer == PgWaitTypeLWLock::from_sessions(rows).committsbuffer + (if column_is(r.state, "active"@) && column_is(r.wait_event_type, "lwlock"@) && column_is(r.wait_event, "committsbuffer"@) { 1int } else { 0int }),
        PgWaitTypeLWLock::from_sessions(rows.push(r)).committsslru == PgWaitTypeLWLock::from_sessions(rows).committsslru + (if column_is(r.state, "active"@) && column_is(r.wait_event_type, "lwlock"@) && column_is(r.wait_event, "committsslru"@) { 1int } else { 0int }),
        PgWaitTypeLWLock::from_sessions(rows.push(r)).controlfile == PgWaitTypeLWLock::from_sessions(rows).controlfile + (if column_is(r.state, "active"@) && column_is(r.wait_event_type, "lwlock"@) && column_is(r.wait_event, "controlfile"@) { 1int } else { 0int }),
        PgWaitTypeLWLock::from_sessions(rows.push(r)).dynamicsharedmemorycontrol == PgWaitTypeLWLock::from_sessions(rows).dynamicsharedmemorycontrol + (if column_is(r.state, "active"@) && column_is(r.wait_event_type, "lwlock"@) && column_is(r.wait_event, "dynamicsharedmemorycontrol"@) { 1int } else { 0int }),
        PgWaitTypeLWLock::from_sessions(rows.push(r)).lockfastpath == PgWaitTypeLWLock::from_sessions(rows).lockfastpath + (if column_is(r.state, "active"@) && column_is(r.wait_event_type, "lwlock"@) && column_is(r.wait_event, "lockfastpath"@) { 1int } else { 0int }),
{
    reveal_strlit("active");
    assert("active"@.len() == 6);
    reveal_strlit("addinshmeminit");
    assert("addinshmeminit"@.len() == 14);
    reveal_strlit("autofile");
    assert("autofile"@.len() == 8);
    reveal_strlit("autovacuum");
    assert("autovacuum"@.len() == 10);
    reveal_strlit("autovacuumschedule");
    assert("autovacuumschedule"@.len() == 18);
    reveal_strlit("backgroundworker");
    assert("backgroundworker"@.len() == 16);
    reveal_strlit("btreevacuum");
    assert("btreevacuum"@.len() == 11);
    reveal_strlit("buffercontent");
    assert("buffercontent"@.len() == 13);
    reveal_strlit("buffermapping");
    assert("buffermapping"@.len() == 13);
    reveal_strlit("checkpointercomm");
    assert("checkpointercomm"@.len() == 16);
    reveal_strlit("committs");
    assert("committs"@.len() == 8);
    reveal_strlit("committsbuffer");
    assert("committsbuffer"@.len() == 14);
    reveal_strlit("committsslru");
    assert("committsslru"@.len() == 12);
    reveal_strlit("controlfile");
    assert("controlfile"@.len() == 11);
    reveal_strlit("dynamicsharedmemorycontrol");
    assert("dynamicsharedmemorycontrol"@.len() == 26);
    reveal_strlit("lockfastpath");
    assert("lockfastpath"@.len() == 12);
    reveal_strlit("lwlock");
    assert("lwlock"@.len() == 6);
    lemma_count_after_push(rows, r, SessionFilter::WaitEvent("lwlock"@, "addinshmeminit"@));
    lemma_count_bound(rows.push(r), SessionFilter::WaitEvent("lwlock"@, "addinshmeminit"@));
    lemma_count_bound(rows, SessionFilter::WaitEvent("lwlock"@, "addinshmeminit"@));
    lemma_count_after_push(rows, r, SessionFilter::WaitEvent("lwlock"@, "autofile"@));
    lemma_count_bound(rows.push(r), SessionFilter::WaitEvent("lwlock"@, "autofile"@));
    lemma_count_bound(rows, SessionFilter::WaitEvent("lwlock"@, "autofile"@));
    lemma_count_after_push(rows, r, SessionFilter::WaitEvent("lwlock"@, "autovacuum"@));
    lemma_count_bound(rows.push(r), SessionFilter::WaitEvent("lwlock"@, "autovacuum"@));
    lemma_count_bound(rows, SessionFilter::WaitEvent("lwlock"@, "autovacuum"@));
    lemma_count_after_push(rows, r, SessionFilter::WaitEvent("lwlock"@, "autovacuumschedule"@));
    lemma_count_bound(rows.push(r), SessionFilter::WaitEvent("lwlock"@, "autovacuumschedule"@));
    lemma_count_bound(rows, SessionFilter::WaitEvent("lwlock"@, "autovacuumschedule"@));
    lemma_count_after_push(rows, r, SessionFilter::WaitEvent("lwlock"@, "backgroundworker"@));
    lemma_count_bound(rows.push(r), SessionFilter::WaitEvent("lwlock"@, "backgroundworker"@));
    lemma_count_bound(rows, SessionFilter::WaitEvent("lwlock"@, "backgroundworker"@));
    lemma_count_after_push(rows, r, SessionFilter::WaitEvent("lwlock"@, "btreevacuum"@));
    lemma_count_bound(rows.push(r), SessionFilter::WaitEvent("lwlock"@, "btreevacuum"@));
    lemma_count_bound(rows, SessionFilter::WaitEvent("lwlock"@, "btreevacuum"@));
    lemma_count_after_push(rows, r, SessionFilter::WaitEvent("lwlock"@, "buffercontent"@));
    lemma_count_bound(rows.push(r), SessionFilter::WaitEvent("lwlock"@, "buffercontent"@));
    lemma_count_bound(rows, SessionFilter::WaitEvent("lwlock"@, "buffercontent"@));
    lemma_count_after_push(rows, r, SessionFilter::WaitEvent("lwlock"@, "buffermapping"@));
    lemma_count_bound(rows.push(r), SessionFilter::WaitEvent("lwlock"@, "buffermapping"@));
    lemma_count_bound(rows, SessionFilter::WaitEvent("lwlock"@, "buffermapping"@));
    lemma_count_after_push(rows, r, SessionFilter::WaitEvent("lwlock"@, "checkpointercomm"@));
    lemma_count_bound(rows.push(r), SessionFilter::WaitEvent("lwlock"@, "checkpointercomm"@));
    lemma_count_bound(rows, SessionFilter::WaitEvent("lwlock"@, "checkpointercomm"@));
    lemma_count_after_push(rows, r, SessionFilter::WaitEvent("lwlock"@, "committs"@));
    lemma_count_bound(rows.push(r), SessionFilter::WaitEvent("lwlock"@, "committs"@));
    lemma_count_bound(rows, SessionFilter::WaitEvent("lwlock"@, "committs"@));
    lemma_count_after_push(rows, r, SessionFilter::WaitEvent("lwlock"@, "committsbuffer"@));
    lemma_count_bound(rows.push(r), SessionFilter::WaitEvent("lwlock"@, "committsbuffer"@));
    lemma_count_bound(rows, SessionFilter::WaitEvent("lwlock"@, "committsbuffer"@));
    lemma_count_after_push(rows, r, SessionFilter::WaitEvent("lwlock"@, "committsslru"@));
    lemma_count_bound(rows.push(r), SessionFilter::WaitEvent("lwlock"@, "committsslru"@));
    lemma_count_bound(rows, SessionFilter::WaitEvent("lwlock"@, "committsslru"@));
    lemma_count_after_push(rows, r, SessionFilter::WaitEvent("lwlock"@, "controlfile"@));
    lemma_count_bound(rows.push(r), SessionFilter::WaitEvent("lwlock"@, "controlfile"@));
    lemma_count_bound(rows, SessionFilter::WaitEvent("lwlock"@, "controlfile"@));
    lemma_count_after_push(rows, r, SessionFilter::WaitEvent("lwlock"@, "dynamicsharedmemorycontrol"@));
    lemma_count_bound(rows.push(r), SessionFilter::WaitEvent("lwlock"@, "dynamicsharedmemorycontrol"@));
    lemma_count_bound(rows, SessionFilter::WaitEvent("lwlock"@, "dynamicsharedmemorycontrol"@));
    lemma_count_after_push(rows, r, SessionFilter::WaitEvent("lwlock"@, "lockfastpath"@));
    lemma_count_bound(rows.push(r), SessionFilter::WaitEvent("lwlock"@, "lockfastpath"@));
    lemma_count_bound(rows, SessionFilter::WaitEvent("lwlock"@, "lockfastpath"@));
}

proof fn lemma_lwlock_events_push_1(rows: Seq<PgStatActivity>, r: PgStatActivity)
    requires
        rows.len() < usize::MAX,
    ensures
        PgWaitTypeLWLock::from_sessions(rows.push(r)).lockmanager == PgWaitTypeLWLock::from_sessions(rows).lockmanager + (if column_is(r.state, "active"@) && column_is(r.wait_event_type, "lwlock"@) && column_is(r.wait_event, "lockmanager"@) { 1int } else { 0int }),
        PgWaitTypeLWLock::from_sessions(rows.push(r)).logicalreplauncherdsa == PgWaitTypeLWLock::from_sessions(rows).logicalreplauncherdsa + (if column_is(r.state, "active"@) && column_is(r.wait_event_type, "lwlock"@) && column_is(r.wait_event, "logicalreplauncerdsa"@) { 1int } else { 0int }),
        PgWaitTypeLWLock::from_sessions(rows.push(r)).logicalreplauncherhash == PgWaitTypeLWLock::from_sessions(rows).logicalreplauncherhash + (if column_is(r.state, "active"@) && column_is(r.wait_event_type, "lwlock"@) && column_is(r.wait_event, "logicalreplauncerhash"@) { 1int } else { 0int }),
        PgWaitTypeLWLock::from_sessions(rows.push(r)).logicalrepworker == PgWaitTypeLWLock::from_sessions(rows).logicalrepworker + (if column_is(r.state, "active"@) && column_is(r.wait_event_type, "lwlock"@) && column_is(r.wait_event, "logicalrepworker"@) { 1int } else { 0int }),
        PgWaitTypeLWLock::from_sessions(rows.push(r)).multixactgen == PgWaitTypeLWLock::from_sessions(rows).multixactgen + (if column_is(r.state, "active"@) && column_is(r.wait_event_type, "lwlock"@) && column_is(r.wait_event, "multixactgen"@) { 1int } else { 0int }),
        PgWaitTypeLWLock::from_sessions(rows.push(r)).multixactmemberbuffer == PgWaitTypeLWLock::from_sessions(rows).multixactmemberbuffer + (if column_is(r.state, "active"@) && column_is(r.wait_event_type, "lwlock"@) && column_is(r.wait_event, "multixactmemberbuffer"@) { 1int } else { 0int }),
        PgWaitTypeLWLock::from_sessions(rows.push(r)).multixactmemberslru == PgWaitTypeLWLock::from_sessions(rows).multixactmemberslru + (if column_is(r.state, "active"@) && column_is(r.wait_event_type, "lwlock"@) && column_is(r.wait_event, "multixactmemberslru"@) { 1int } else { 0int }),
        PgWaitTypeLWLock::from_sessions(rows.push(r)).multixactoffsetbuffer == PgWaitTypeLWLock::from_sessions(rows).multixactoffsetbuffer + (if column_is(r.state, "active"@) && column_is(r.wait_event_type, "lwlock"@) && column_is(r.wait_event, "multixactoffsetbuffer"@) { 1int } else { 0int }),
        PgWaitTypeLWLock::from_sessions(rows.push(r)).multixactoffsetslru == PgWaitTypeLWLock::from_sessions(rows).multixactoffsetslru + (if column_is(r.state, "active"@) && column_is(r.wait_event_type, "lwlock"@) && column_is(r.wait_event, "multixactoffsetslru"@) { 1int } else { 0int }),
        PgWaitTypeLWLock::from_sessions(rows.push(r)).multixacttruncation == PgWaitTypeLWLock::from_sessions(rows).multixacttruncation + (if column_is(r.state, "active"@) && column_is(r.wait_event_type, "lwlock"@) && column_is(r.wait_event, "multixacttruncation"@) { 1int } else { 0int }),
        PgWaitTypeLWLock::from_sessions(rows.push(r)).notifybuffer == PgWaitTypeLWLock::from_sessions(rows).notifybuffer + (if column_is(r.state, "active"@) && column_is(r.wait_event_type, "lwlock"@) && column_is(r.wait_event, "notifybuffer"@) { 1int } else { 0int }),
        PgWaitTypeLWLock::from_sessions(rows.push(r)).notifyqueue == PgWaitTypeLWLock::from_sessions(rows).notifyqueue + (if column_is(r.state, "active"@) && column_is(r.wait_event_type, "lwlock"@) && column_is(r.wait_event, "notifyqueue"@) { 1int } else { 0int }),
        PgWaitTypeLWLock::from_sessions(rows.push(r)).notifyqueuetail == PgWaitTypeLWLock::from_sessions(rows).notifyqueuetail + (if column_is(r.state, "active"@) && column_is(r.wait_event_type, "lwlock"@) && column_is(r.wait_event, "notifyqueuetail"@) { 1int } else { 0int }),
        PgWaitTypeLWLock::from_sessions(rows.push(r)).notifyslru == PgWaitTypeLWLock::from_sessions(rows).notifyslru + (if column_is(r.state, "active"@) && column_is(r.wait_event_type, "lwlock"@) && column_is(r.wait_event, "notifyslru"@) { 1int } else { 0int }),
        PgWaitTypeLWLock::from_sessions(rows.push(r)).oidgen == PgWaitTypeLWLock::from_sessions(rows).oidgen + (if column_is(r.state, "active"@) && column_is(r.wait_event_type, "lwlock"@) && column_is(r.wait_event, "oidgen"@) { 1int } else { 0int }),
{
    reveal_strlit("active");
    assert("active"@.len() == 6);
    reveal_strlit("lockmanager");
    assert("lockmanager"@.len() == 11);
    reveal_strlit("logicalreplauncerdsa");
    assert("logicalreplauncerdsa"@.len() == 20);
    reveal_strlit("logicalreplauncerhash");
    assert("logicalreplauncerhash"@.len() == 21);
    reveal_strlit("logicalrepworker");
    assert("logicalrepworker"@.len() == 16);
    reveal_strlit("lwlock");
    assert("lwlock"@.len() == 6);
    reveal_strlit("multixactgen");
    assert("multixactgen"@.len() == 12);
    reveal_strlit("multixactmemberbuffer");
    assert("multixactmemberbuffer"@.len() == 21);
    reveal_strlit("multixactmemberslru");
    assert("multixactmemberslru"@.len() == 19);
    reveal_strlit("multixactoffsetbuffer");
    assert("multixactoffsetbuffer"@.len() == 21);
    reveal_strlit("multixactoffsetslru");
    assert("multixactoffsetslru"@.len() == 19);
    reveal_strlit("multixacttruncation");
    assert("multixacttruncation"@.len() == 19);
    reveal_strlit("notifybuffer");
    assert("notifybuffer"@.len() == 12);
    reveal_strlit("notifyqueue");
    assert("notifyqueue"@.len() == 11);
    reveal_strlit("notifyqueuetail");
    assert("notifyqueuetail"@.len() == 15);
    reveal_strlit("notifyslru");
    assert("notifyslru"@.len() == 10);
    reveal_strlit("oidgen");
    assert("oidgen"@.len() == 6);
    lemma_count_after_push(rows, r, SessionFilter::WaitEvent("lwlock"@, "lockmanager"@));
    lemma_count_bound(rows.push(r), SessionFilter::WaitEvent("lwlock"@, "lockmanager"@));
    lemma_count_bound(rows, SessionFilter::WaitEvent("lwlock"@, "lockmanager"@));
    lemma_count_after_push(rows, r, SessionFilter::WaitEvent("lwlock"@, "logicalreplauncerdsa"@));
    lemma_count_bound(rows.push(r), SessionFilter::WaitEvent("lwlock"@, "logicalreplauncerdsa"@));
    lemma_count_bound(rows, SessionFilter::WaitEvent("lwlock"@, "logicalreplauncerdsa"@));
    lemma_count_after_push(rows, r, SessionFilter::WaitEvent("lwlock"@, "logicalreplauncerhash"@));
    lemma_count_bound(rows.push(r), SessionFilter::WaitEvent("lwlock"@, "logicalreplauncerhash"@));
    lemma_count_bound(rows, SessionFilter::WaitEvent("lwlock"@, "logicalreplauncerhash"@));
    lemma_count_after_push(rows, r, SessionFilter::WaitEvent("lwlock"@, "logicalrepworker"@));
    lemma_count_bound(rows.push(r), SessionFilter::WaitEvent("lwlock"@, "logicalrepworker"@));
    lemma_count_bound(rows, SessionFilter::WaitEvent("lwlock"@, "logicalrepworker"@));
    lemma_count_after_push(rows, r, SessionFilter::WaitEvent("lwlock"@, "multixactgen"@));
    lemma_count_bound(rows.push(r), SessionFilter::WaitEvent("lwlock"@, "multixactgen"@));
    lemma_count_bound(rows, SessionFilter::WaitEvent("lwlock"@, "multixactgen"@));
    lemma_count_after_push(rows, r, SessionFilter::WaitEvent("lwlock"@, "multixactmemberbuffer"@));
    lemma_count_bound(rows.push(r), SessionFilter::WaitEvent("lwlock"@, "multixactmemberbuffer"@));
    lemma_count_bound(rows, SessionFilter::WaitEvent("lwlock"@, "multixactmemberbuffer"@));
    lemma_count_after_push(rows, r, SessionFilter::WaitEvent("lwlock"@, "multixactmemberslru"@));
    lemma_count_bound(rows.push(r), SessionFilter::WaitEvent("lwlock"@, "multixactmemberslru"@));
    lemma_count_bound(rows, SessionFilter::WaitEvent("lwlock"@, "multixactmemberslru"@));
    lemma_count_after_push(rows, r, SessionFilter::WaitEvent("lwlock"@, "multixactoffsetbuffer"@));
    lemma_count_bound(rows.push(r), SessionFilter::WaitEvent("lwlock"@, "multixactoffsetbuffer"@));
    lemma_count_bound(rows, SessionFilter::WaitEvent("lwlock"@, "multixactoffsetbuffer"@));
    lemma_count_after_push(rows, r, SessionFilter::WaitEvent("lwlock"@, "multixactoffsetslru"@));
    lemma_count_bound(rows.push(r), SessionFilter::WaitEvent("lwlock"@, "multixactoffsetslru"@));
    lemma_count_bound(rows, SessionFilter::WaitEvent("lwlock"@, "multixactoffsetslru"@));
    lemma_count_after_push(rows, r, SessionFilter::WaitEvent("lwlock"@, "multixacttruncation"@));
    lemma_count_bound(rows.push(r), SessionFilter::WaitEvent("lwlock"@, "multixacttruncation"@));
    lemma_count_bound(rows, SessionFilter::WaitEvent("lwlock"@, "multixacttruncation"@));
    lemma_count_after_push(rows, r, SessionFilter::WaitEvent("lwlock"@, "notifybuffer"@));
    lemma_count_bound(rows.push(r), SessionFilter::WaitEvent("lwlock"@, "notifybuffer"@));
    lemma_count_bound(rows, SessionFilter::WaitEvent("lwlock"@, "notifybuffer"@));
    lemma_count_after_push(rows, r, SessionFilter::WaitEvent("lwlock"@, "notifyqueue"@));
    lemma_count_bound(rows.push(r), SessionFilter::WaitEvent("lwlock"@, "notifyqueue"@));
    lemma_count_bound(rows, SessionFilter::WaitEvent("lwlock"@, "notifyqueue"@));
    lemma_count_after_push(rows, r, SessionFilter::WaitEvent("lwlock"@, "notifyqueuetail"@));
    lemma_count_bound(rows.push(r), SessionFilter::WaitEvent("lwlock"@, "notifyqueuetail"@));
    lemma_count_bound(rows, SessionFilter::WaitEvent("lwlock"@, "notifyqueuetail"@));
    lemma_count_after_push(rows, r, SessionFilter::WaitEvent("lwlock"@, "notifyslru"@));
    lemma_count_bound(rows.push(r), SessionFilter::WaitEvent("lwlock"@, "notifyslru"@));
    lemma_count_bound(rows, SessionFilter::WaitEvent("lwlock"@, "notifyslru"@));
    lemma_count_after_push(rows, r, SessionFilter::WaitEvent("lwlock"@, "oidgen"@));
    lemma_count_bound(rows.push(r), SessionFilter::WaitEvent("lwlock"@, "oidgen"@));
    lemma_count_bound(rows, SessionFilter::WaitEvent("lwlock"@, "oidgen"@));
}

proof fn lemma_lwlock_events_push_2(rows: Seq<PgStatActivity>, r: PgStatActivity)
    requires
        rows.len() < usize::MAX,
    ensures
        PgWaitTypeLWLock::from_sessions(rows.push(r)).oldsnapshottimemap == PgWaitTypeLWLock::from_sessions(rows).oldsnapshottimemap + (if column_is(r.state, "active"@) && column_is(r.wait_event_type, "lwlock"@) && column_is(r.wait_event, "oldsnapshottimemap"@) { 1int } else { 0int }),
        PgWaitTypeLWLock::from_sessions(rows.push(r)).parallelappend == PgWaitTypeLWLock::from_sessions(rows).parallelappend + (if column_is(r.state, "active"@) && column_is(r.wait_event_type, "lwlock"@) && column_is(r.wait_event, "parallelappend"@) { 1int } else { 0int }),
        PgWaitTypeLWLock::from_sessions(rows.push(r)).parallelhashjoin == PgWaitTypeLWLock::from_sessions(rows).parallelhashjoin + (if column_is(r.state, "active"@) && column_is(r.wait_event_type, "lwlock"@) && column_is(r.wait_event, "parallelhashjoin"@) { 1int } else { 0int }),
        PgWaitTypeLWLock::from_sessions(rows.push(r)).parallelquerydsa == PgWaitTypeLWLock::from_sessions(rows).parallelquerydsa + (if column_is(r.state, "active"@) && column_is(r.wait_event_type, "lwlock"@) && column_is(r.wait_event, "parallelquerydsa"@) { 1int } else { 0int }),
        PgWaitTypeLWLock::from_sessions(rows.push(r)).persessiondsa == PgWaitTypeLWLock::from_sessions(rows).persessiondsa + (if column_is(r.state, "active"@) && column_is(r.wait_event_type, "lwlock"@) && column_is(r.wait_event, "persessiondsa"@) { 1int } else { 0int }),
        PgWaitTypeLWLock::from_sessions(rows.push(r)).persessionrecordtype == PgWaitTypeLWLock::from_sessions(rows).persessionrecordtype + (if column_is(r.state, "active"@) && column_is(r.wait_event_type, "lwlock"@) && column_is(r.wait_event, "persessionrecordtype"@) { 1int } else { 0int }),
        PgWaitTypeLWLock::from_sessions(rows.push(r)).persessionrecordtypmod == PgWaitTypeLWLock::from_sessions(rows).persessionrecordtypmod + (if column_is(r.state, "active"@) && column_is(r.wait_event_type, "lwlock"@) && column_is(r.wait_event, "persessionrecordtypmod"@) { 1int } else { 0int }),
        PgWaitTypeLWLock::from_sessions(rows.push(r)).perxactpredicatelist == PgWaitTypeLWLock::from_sessions(rows).perxactpredicatelist + (if column_is(r.state, "active"@) && column_is(r.wait_event_type, "lwlock"@) && column_is(r.wait_event, "perxactpredicatelist"@) { 1int } else { 0int }),
        PgWaitTypeLWLock::from_sessions(rows.push(r)).pgstatsdata == PgWaitTypeLWLock::from_sessions(rows).pgstatsdata + (if column_is(r.state, "active"@) && column_is(r.wait_event_type, "lwlock"@) && column_is(r.wait_event, "pgstatsdata"@) { 1int } else { 0int }),
        PgWaitTypeLWLock::from_sessions(rows.push(r)).pgstatsdsa == PgWaitTypeLWLock::from_sessions(rows).pgstatsdsa + (if column_is(r.state, "active"@) && column_is(r.wait_event_type, "lwlock"@) && column_is(r.wait_event, "pgstatsdsa"@) { 1int } else { 0int }),
        PgWaitTypeLWLock::from_sessions(rows.push(r)).pgstatshash == PgWaitTypeLWLock::from_sessions(rows).pgstatshash + (if column_is(r.state, "active"@) && column_is(r.wait_event_type, "lwlock"@) && column_is(r.wait_event, "pgstatshash"@) { 1int } else { 0int }),
        PgWaitTypeLWLock::from_sessions(rows.push(r)).predicatelockmanager == PgWaitTypeLWLock::from_sessions(rows).predicatelockmanager + (if column_is(r.state, "active"@) && column_is(r.wait_event_type, "lwlock"@) && column_is(r.wait_event, "predicatelockmanager"@) { 1int } else { 0int }),
        PgWaitTypeLWLock::from_sessions(rows.push(r)).procarray == PgWaitTypeLWLock::from_sessions(rows).procarray + (if column_is(r.state, "active"@) && column_is(r.wait_event_type, "lwlock"@) && column_is(r.wait_event, "procarray"@) { 1int } else { 0int }),
        PgWaitTypeLWLock::from_sessions(rows.push(r)).relationmapping == PgWaitTypeLWLock::from_sessions(rows).relationmapping + (if column_is(r.state, "active"@) && column_is(r.wait_event_type, "lwlock"@) && column_is(r.wait_event, "relationmapping"@) { 1int } else { 0int }),
        PgWaitTypeLWLock::from_sessions(rows.push(r)).relcacheinit == PgWaitTypeLWLock::from_sessions(rows).relcacheinit + (if column_is(r.state, "active"@) && column_is(r.wait_event_type, "lwlock"@) && column_is(r.wait_event, "relcacheinit"@) { 1int } else { 0int }),
{
    reveal_strlit("active");
    assert("active"@.len() == 6);
    reveal_strlit("lwlock");
    assert("lwlock"@.len() == 6);
    reveal_strlit("oldsnapshottimemap");
    assert("oldsnapshottimemap"@.len() == 18);
    reveal_strlit("parallelappend");
    assert("parallelappend"@.len() == 14);
    reveal_strlit("parallelhashjoin");
    assert("parallelhashjoin"@.len() == 16);
    reveal_strlit("parallelquerydsa");
    assert("parallelquerydsa"@.len() == 16);
    reveal_strlit("persessiondsa");
    assert("persessiondsa"@.len() == 13);
    reveal_strlit("persessionrecordtype");
    assert("persessionrecordtype"@.len() == 20);
    reveal_strlit("persessionrecordtypmod");
    assert("persessionrecordtypmod"@.len() == 22);
    reveal_strlit("perxactpredicatelist");
    assert("perxactpredicatelist"@.len() == 20);
    reveal_strlit("pgstatsdata");
    assert("pgstatsdata"@.len() == 11);
    reveal_strlit("pgstatsdsa");
    assert("pgstatsdsa"@.len() == 10);
    reveal_strlit("pgstatshash");
    assert("pgstatshash"@.len() == 11);
    reveal_strlit("predicatelockmanager");
    assert("predicatelockmanager"@.len() == 20);
    reveal_strlit("procarray");
    assert("procarray"@.len() == 9);
    reveal_strlit("relationmapping");
    assert("relationmapping"@.len() == 15);
    reveal_strlit("relcacheinit");
    assert("relcacheinit"@.len() == 12);
    lemma_count_after_push(rows, r, SessionFilter::WaitEvent("lwlock"@, "oldsnapshottimemap"@));
    lemma_count_bound(rows.push(r), SessionFilter::WaitEvent("lwlock"@, "oldsnapshottimemap"@));
    lemma_count_bound(rows, SessionFilter::WaitEvent("lwlock"@, "oldsnapshottimemap"@));
    lemma_count_after_push(rows, r, SessionFilter::WaitEvent("lwlock"@, "parallelappend"@));
    lemma_count_bound(rows.push(r), SessionFilter::WaitEvent("lwlock"@, "parallelappend"@));
    lemma_count_bound(rows, SessionFilter::WaitEvent("lwlock"@, "parallelappend"@));
    lemma_count_after_push(rows, r, SessionFilter::WaitEvent("lwlock"@, "parallelhashjoin"@));
    lemma_count_bound(rows.push(r), SessionFilter::WaitEvent("lwlock"@, "parallelhashjoin"@));
    lemma_count_bound(rows, SessionFilter::WaitEvent("lwlock"@, "parallelhashjoin"@));
    lemma_count_after_push(rows, r, SessionFilter::WaitEvent("lwlock"@, "parallelquerydsa"@));
    lemma_count_bound(rows.push(r), SessionFilter::WaitEvent("lwlock"@, "parallelquerydsa"@));
    lemma_count_bound(rows, SessionFilter::WaitEvent("lwlock"@, "parallelquerydsa"@));
    lemma_count_after_push(rows, r, SessionFilter::WaitEvent("lwlock"@, "persessiondsa"@));
    lemma_count_bound(rows.push(r), SessionFilter::WaitEvent("lwlock"@, "persessiondsa"@));
    lemma_count_bound(rows, SessionFilter::WaitEvent("lwlock"@, "persessiondsa"@));
    lemma_count_after_push(rows, r, SessionFilter::WaitEvent("lwlock"@, "persessionrecordtype"@));
    lemma_count_bound(rows.push(r), SessionFilter::WaitEvent("lwlock"@, "persessionrecordtype"@));
    lemma_count_bound(rows, SessionFilter::WaitEvent("lwlock"@, "persessionrecordtype"@));
    lemma_count_after_push(rows, r, SessionFilter::WaitEvent("lwlock"@, "persessionrecordtypmod"@));
    lemma_count_bound(rows.push(r), SessionFilter::WaitEvent("lwlock"@, "persessionrecordtypmod"@));
    lemma_count_bound(rows, SessionFilter::WaitEvent("lwlock"@, "persessionrecordtypmod"@));
    lemma_count_after_push(rows, r, SessionFilter::WaitEvent("lwlock"@, "perxactpredicatelist"@));
    lemma_count_bound(rows.push(r), SessionFilter::WaitEvent("lwlock"@, "perxactpredicatelist"@));
    lemma_count_bound(rows, SessionFilter::WaitEvent("lwlock"@, "perxactpredicatelist"@));
    lemma_count_after_push(rows, r, SessionFilter::WaitEvent("lwlock"@, "pgstatsdata"@));
    lemma_count_bound(rows.push(r), SessionFilter::WaitEvent("lwlock"@, "pgstatsdata"@));
    lemma_count_bound(rows, SessionFilter::WaitEvent("lwlock"@, "pgstatsdata"@));
    lemma_count_after_push(rows, r, SessionFilter::WaitEvent("lwlock"@, "pgstatsdsa"@));
    lemma_count_bound(rows.push(r), SessionFilter::WaitEvent("lwlock"@, "pgstatsdsa"@));
    lemma_count_bound(rows, SessionFilter::WaitEvent("lwlock"@, "pgstatsdsa"@));
    lemma_count_after_push(rows, r, SessionFilter::WaitEvent("lwlock"@, "pgstatshash"@));
    lemma_count_bound(rows.push(r), SessionFilter::WaitEvent("lwlock"@, "pgstatshash"@));
    lemma_count_bound(rows, SessionFilter::WaitEvent("lwlock"@, "pgstatshash"@));
    lemma_count_after_push(rows, r, SessionFilter::WaitEvent("lwlock"@, "predicatelockmanager"@));
    lemma_count_bound(rows.push(r), SessionFilter::WaitEvent("lwlock"@, "predicatelockmanager"@));
    lemma_count_bound(rows, SessionFilter::WaitEvent("lwlock"@, "predicatelockmanager"@));
    lemma_count_after_push(rows, r, SessionFilter::WaitEvent("lwlock"@, "procarray"@));
    lemma_count_bound(rows.push(r), SessionFilter::WaitEvent("lwlock"@, "procarray"@));
    lemma_count_bound(rows, SessionFilter::WaitEvent("lwlock"@, "procarray"@));
    lemma_count_after_push(rows, r, SessionFilter::WaitEvent("lwlock"@, "relationmapping"@));
    lemma_count_bound(rows.push(r), SessionFilter::WaitEvent("lwlock"@, "relationmapping"@));
    lemma_count_bound(rows, SessionFilter::WaitEvent("lwlock"@, "relationmapping"@));
    lemma_count_after_push(rows, r, SessionFilter::WaitEvent("lwlock"@, "relcacheinit"@));
    lemma_count_bound(rows.push(r), SessionFilter::WaitEvent("lwlock"@, "relcacheinit"@));
    lemma_count_bound(rows, SessionFilter::WaitEvent("lwlock"@, "relcacheinit"@));
}

proof fn lemma_lwlock_events_push_3(rows: Seq<PgStatActivity>, r: PgStatActivity)
    requires
        rows.len() < usize::MAX,
    ensures
        PgWaitTypeLWLock::from_sessions(rows.push(r)).replicationorigin == PgWaitTypeLWLock::from_sessions(rows).replicationorigin + (if column_is(r.state, "active"@) && column_is(r.wait_event_type, "lwlock"@) && column_is(r.wait_event, "replicationorigin"@) { 1int } else { 0int }),
        PgWaitTypeLWLock::from_sessions(rows.push(r)).replicationoriginstate == PgWaitTypeLWLock::from_sessions(rows).replicationoriginstate + (if column_is(r.state, "active"@) && column_is(r.wait_event_type, "lwlock"@) && column_is(r.wait_event, "replicationoriginstate"@) { 1int } else { 0int }),
        PgWaitTypeLWLock::from_sessions(rows.push(r)).replicationslotallocation == PgWaitTypeLWLock::from_sessions(rows).replicationslotallocation + (if column_is(r.state, "active"@) && column_is(r.wait_event_type, "lwlock"@) && column_is(r.wait_event, "replicationslotallocation"@) { 1int } else { 0int }),
        PgWaitTypeLWLock::from_sessions(rows.push(r)).replicationslotcontrol == PgWaitTypeLWLock::from_sessions(rows).replicationslotcontrol + (if column_is(r.state, "active"@) && column_is(r.wait_event_type, "lwlock"@) && column_is(r.wait_event, "replicationslotcontrol"@) { 1int } else { 0int }),
        PgWaitTypeLWLock::from_sessions(rows.push(r)).replicationslotio == PgWaitTypeLWLock::from_sessions(rows).replicationslotio + (if column_is(r.state, "active"@) && column_is(r.wait_event_type, "lwlock"@) && column_is(r.wait_event, "replicationslotio"@) { 1int } else { 0int }),
        PgWaitTypeLWLock::from_sessions(rows.push(r)).serialbuffer == PgWaitTypeLWLock::from_sessions(rows).serialbuffer + (if column_is(r.state, "active"@) && column_is(r.wait_event_type, "lwlock"@) && column_is(r.wait_event, "serialbuffer"@) { 1int } else { 0int }),
        PgWaitTypeLWLock::from_sessions(rows.push(r)).serializablefinishedlist == PgWaitTypeLWLock::from_sessions(rows).serializablefinishedlist + (if column_is(r.state, "active"@) && column_is(r.wait_event_type, "lwlock"@) && column_is(r.wait_event, "serializablefinishedlist"@) { 1int } else { 0int }),
        PgWaitTypeLWLock::from_sessions(rows.push(r)).serializablepredicatelist == PgWaitTypeLWLock::from_sessions(rows).serializablepredicatelist + (if column_is(r.state, "active"@) && column_is(r.wait_event_type, "lwlock"@) && column_is(r.wait_event, "serializablepredicatelist"@) { 1int } else { 0int }),
        PgWaitTypeLWLock::from_sessions(rows.push(r)).serializablexacthash == PgWaitTypeLWLock::from_sessions(rows).serializablexacthash + (if column_is(r.state, "active"@) && column_is(r.wait_event_type, "lwlock"@) && column_is(r.wait_event, "serializablexacthash"@) { 1int } else { 0int }),
        PgWaitTypeLWLock::from_sessions(rows.push(r)).serialslru == PgWaitTypeLWLock::from_sessions(rows).serialslru + (if column_is(r.state, "active"@) && column_is(r.wait_event_type, "lwlock"@) && column_is(r.wait_event, "serialslru"@) { 1int } else { 0int }),
        PgWaitTypeLWLock::from_sessions(rows.push(r)).sharedtidbitmap == PgWaitTypeLWLock::from_sessions(rows).sharedtidbitmap + (if column_is(r.state, "active"@) && column_is(r.wait_event_type, "lwlock"@) && column_is(r.wait_event, "sharedtidbitmap"@) { 1int } else { 0int }),
        PgWaitTypeLWLock::from_sessions(rows.push(r)).sharedtuplestore == PgWaitTypeLWLock::from_sessions(rows).sharedtuplestore + (if column_is(r.state, "active"@) && column_is(r.wait_event_type, "lwlock"@) && column_is(r.wait_event, "sharedtuplestore"@) { 1int } else { 0int }),
        PgWaitTypeLWLock::from_sessions(rows.push(r)).shmemindex == PgWaitTypeLWLock::from_sessions(rows).shmemindex + (if column_is(r.state, "active"@) && column_is(r.wait_event_type, "lwlock"@) && column_is(r.wait_event, "shmemindex"@) { 1int } else { 0int }),
        PgWaitTypeLWLock::from_sessions(rows.push(r)).sinvalread == PgWaitTypeLWLock::from_sessions(rows).sinvalread + (if column_is(r.state, "active"@) && column_is(r.wait_event_type, "lwlock"@) && column_is(r.wait_event, "sinvalread"@) { 1int } else { 0int }),
        PgWaitTypeLWLock::from_sessions(rows.push(r)).sinvalwrite == PgWaitTypeLWLock::from_sessions(rows).sinvalwrite + (if column_is(r.state, "active"@) && column_is(r.wait_event_type, "lwlock"@) && column_is(r.wait_event, "sinvalwrite"@) { 1int } else { 0int }),
{
    reveal_strlit("active");
    assert("active"@.len() == 6);
    reveal_strlit("lwlock");
    assert("lwlock"@.len() == 6);
    reveal_strlit("replicationorigin");
    assert("replicationorigin"@.len() == 17);
    reveal_strlit("replicationoriginstate");
    assert("replicationoriginstate"@.len() == 22);
    reveal_strlit("replicationslotallocation");
    assert("replicationslotallocation"@.len() == 25);
    reveal_strlit("replicationslotcontrol");
    assert("replicationslotcontrol"@.len() == 22);
    reveal_strlit("replicationslotio");
    assert("replicationslotio"@.len() == 17);
    reveal_strlit("serialbuffer");
    assert("serialbuffer"@.len() == 12);
    reveal_strlit("serializablefinishedlist");
    assert("serializablefinishedlist"@.len() == 24);
    reveal_strlit("serializablepredicatelist");
    assert("serializablepredicatelist"@.len() == 25);
    reveal_strlit("serializablexacthash");
    assert("serializablexacthash"@.len() == 20);
    reveal_strlit("serialslru");
    assert("serialslru"@.len() == 10);
    reveal_strlit("sharedtidbitmap");
    assert("sharedtidbitmap"@.len() == 15);
    reveal_strlit("sharedtuplestore");
    assert("sharedtuplestore"@.len() == 16);
    reveal_strlit("shmemindex");
    assert("shmemindex"@.len() == 10);
    reveal_strlit("sinvalread");
    assert("sinvalread"@.len() == 10);
    reveal_strlit("sinvalwrite");
    assert("sinvalwrite"@.len() == 11);
    lemma_count_after_push(rows, r, SessionFilter::WaitEvent("lwlock"@, "replicationorigin"@));
    lemma_count_bound(rows.push(r), SessionFilter::WaitEvent("lwlock"@, "replicationorigin"@));
    lemma_count_bound(rows, SessionFilter::WaitEvent("lwlock"@, "replicationorigin"@));
    lemma_count_after_push(rows, r, SessionFilter::WaitEvent("lwlock"@, "replicationoriginstate"@));
    lemma_count_bound(rows.push(r), SessionFilter::WaitEvent("lwlock"@, "replicationoriginstate"@));
    lemma_count_bound(rows, SessionFilter::WaitEvent("lwlock"@, "replicationoriginstate"@));
    lemma_count_after_push(rows, r, SessionFilter::WaitEvent("lwlock"@, "replicationslotallocation"@));
    lemma_count_bound(rows.push(r), SessionFilter::WaitEvent("lwlock"@, "replicationslotallocation"@));
    lemma_count_bound(rows, SessionFilter::WaitEvent("lwlock"@, "replicationslotallocation"@));
    lemma_count_after_push(rows, r, SessionFilter::WaitEvent("lwlock"@, "replicationslotcontrol"@));
    lemma_count_bound(rows.push(r), SessionFilter::WaitEvent("lwlock"@, "replicationslotcontrol"@));
    lemma_count_bound(rows, SessionFilter::WaitEvent("lwlock"@, "replicationslotcontrol"@));
    lemma_count_after_push(rows, r, SessionFilter::WaitEvent("lwlock"@, "replicationslotio"@));
    lemma_count_bound(rows.push(r), SessionFilter::WaitEvent("lwlock"@, "replicationslotio"@));
    lemma_count_bound(rows, SessionFilter::WaitEvent("lwlock"@, "replicationslotio"@));
    lemma_count_after_push(rows, r, SessionFilter::WaitEvent("lwlock"@, "serialbuffer"@));
    lemma_count_bound(rows.push(r), SessionFilter::WaitEvent("lwlock"@, "serialbuffer"@));
    lemma_count_bound(rows, SessionFilter::WaitEvent("lwlock"@, "serialbuffer"@));
    lemma_count_after_push(rows, r, SessionFilter::WaitEvent("lwlock"@, "serializablefinishedlist"@));
    lemma_count_bound(rows.push(r), SessionFilter::WaitEvent("lwlock"@, "serializablefinishedlist"@));
    lemma_count_bound(rows, SessionFilter::WaitEvent("lwlock"@, "serializablefinishedlist"@));
    lemma_count_after_push(rows, r, SessionFilter::WaitEvent("lwlock"@, "serializablepredicatelist"@));
    lemma_count_bound(rows.push(r), SessionFilter::WaitEvent("lwlock"@, "serializablepredicatelist"@));
    lemma_count_bound(rows, SessionFilter::WaitEvent("lwlock"@, "serializablepredicatelist"@));
    lemma_count_after_push(rows, r, SessionFilter::WaitEvent("lwlock"@, "serializablexacthash"@));
    lemma_count_bound(rows.push(r), SessionFilter::WaitEvent("lwlock"@, "serializablexacthash"@));
    lemma_count_bound(rows, SessionFilter::WaitEvent("lwlock"@, "serializablexacthash"@));
    lemma_count_after_push(rows, r, SessionFilter::WaitEvent("lwlock"@, "serialslru"@));
    lemma_count_bound(rows.push(r), SessionFilter::WaitEvent("lwlock"@, "serialslru"@));
    lemma_count_bound(rows, SessionFilter::WaitEvent("lwlock"@, "serialslru"@));
    lemma_count_after_push(rows, r, SessionFilter::WaitEvent("lwlock"@, "sharedtidbitmap"@));
    lemma_count_bound(rows.push(r), SessionFilter::WaitEvent("lwlock"@, "sharedtidbitmap"@));
    lemma_count_bound(rows, SessionFilter::WaitEvent("lwlock"@, "sharedtidbitmap"@));
    lemma_count_after_push(rows, r, SessionFilter::WaitEvent("lwlock"@, "sharedtuplestore"@));
    lemma_count_bound(rows.push(r), SessionFilter::WaitEvent("lwlock"@, "sharedtuplestore"@));
    lemma_count_bound(rows, SessionFilter::WaitEvent("lwlock"@, "sharedtuplestore"@));
    lemma_count_after_push(rows, r, SessionFilter::WaitEvent("lwlock"@, "shmemindex"@));
    lemma_count_bound(rows.push(r), SessionFilter::WaitEvent("lwlock"@, "shmemindex"@));
    lemma_count_bound(rows, SessionFilter::WaitEvent("lwlock"@, "shmemindex"@));
    lemma_count_after_push(rows, r, SessionFilter::WaitEvent("lwlock"@, "sinvalread"@));
    lemma_count_bound(rows.push(r), SessionFilter::WaitEvent("lwlock"@, "sinvalread"@));
    lemma_count_bound(rows, SessionFilter::WaitEvent("lwlock"@, "sinvalread"@));
    lemma_count_after_push(rows, r, SessionFilter::WaitEvent("lwlock"@, "sinvalwrite"@));
    lemma_count_bound(rows.push(r), SessionFilter::WaitEvent("lwlock"@, "sinvalwrite"@));
    lemma_count_bound(rows, SessionFilter::WaitEvent("lwlock"@, "sinvalwrite"@));
}

proof fn lemma_lwlock_events_push_4(rows: Seq<PgStatActivity>, r: PgStatActivity)
    requires
        rows.len() < usize::MAX,
    ensures
        PgWaitTypeLWLock::from_sessions(rows.push(r)).subtransbuffer == PgWaitTypeLWLock::from_sessions(rows).subtransbuffer + (if column_is(r.state, "active"@) && column_is(r.wait_event_type, "lwlock"@) && column_is(r.wait_event, "subtransbuffer"@) { 1int } else { 0int }),
        PgWaitTypeLWLock::from_sessions(rows.push(r)).subtransslru == PgWaitTypeLWLock::from_sessions(rows).subtransslru + (if column_is(r.state, "active"@) && column_is(r.wait_event_type, "lwlock"@) && column_is(r.wait_event, "subtransslru"@) { 1int } else { 0int }),
        PgWaitTypeLWLock::from_sessions(rows.push(r)).syncrep == PgWaitTypeLWLock::from_sessions(rows).syncrep + (if column_is(r.state, "active"@) && column_is(r.wait_event_type, "lwlock"@) && column_is(r.wait_event, "syncrep"@) { 1int } else { 0int }),
        PgWaitTypeLWLock::from_sessions(rows.push(r)).syncscan == PgWaitTypeLWLock::from_sessions(rows).syncscan + (if column_is(r.state, "active"@) && column_is(r.wait_event_type, "lwlock"@) && column_is(r.wait_event, "syncscan"@) { 1int } else { 0int }),
        PgWaitTypeLWLock::from_sessions(rows.push(r)).tablespacecreate == PgWaitTypeLWLock::from_sessions(rows).tablespacecreate + (if column_is(r.state, "active"@) && column_is(r.wait_event_type, "lwlock"@) && column_is(r.wait_event, "tablespacecreate"@) { 1int } else { 0int }),
        PgWaitTypeLWLock::from_sessions(rows.push(r)).twophasestate == PgWaitTypeLWLock::from_sessions(rows).twophasestate + (if column_is(r.state, "active"@) && column_is(r.wait_event_type, "lwlock"@) && column_is(r.wait_event, "twophasestate"@) { 1int } else { 0int }),
        PgWaitTypeLWLock::from_sessions(rows.push(r)).walbufmapping == PgWaitTypeLWLock::from_sessions(rows).walbufmapping + (if column_is(r.state, "active"@) && column_is(r.wait_event_type, "lwlock"@) && column_is(r.wait_event, "walbufmapping"@) { 1int } else { 0int }),
        PgWaitTypeLWLock::from_sessions(rows.push(r)).walinsert == PgWaitTypeLWLock::from_sessions(rows).walinsert + (if column_is(r.state, "active"@) && column_is(r.wait_event_type, "lwlock"@) && column_is(r.wait_event, "walinsert"@) { 1int } else { 0int }),
        PgWaitTypeLWLock::from_sessions(rows.push(r)).walwrite == PgWaitTypeLWLock::from_sessions(rows).walwrite + (if column_is(r.state, "active"@) && column_is(r.wait_event_type, "lwlock"@) && column_is(r.wait_event, "walwrite"@) { 1int } else { 0int }),
        PgWaitTypeLWLock::from_sessions(rows.push(r)).wraplimitsvacuum == PgWaitTypeLWLock::from_sessions(rows).wraplimitsvacuum + (if column_is(r.state, "active"@) && column_is(r.wait_event_type, "lwlock"@) && column_is(r.wait_event, "wraplimitsvacuum"@) { 1int } else { 0int }),
        PgWaitTypeLWLock::from_sessions(rows.push(r)).xactbuffer == PgWaitTypeLWLock::from_sessions(rows).xactbuffer + (if column_is(r.state, "active"@) && column_is(r.wait_event_type, "lwlock"@) && column_is(r.wait_event, "xactbuffer"@) { 1int } else { 0int }),
        PgWaitTypeLWLock::from_sessions(rows.push(r)).xactslru == PgWaitTypeLWLock::from_sessions(rows).xactslru + (if column_is(r.state, "active"@) && column_is(r.wait_event_type, "lwlock"@) && column_is(r.wait_event, "xactslru"@) { 1int } else { 0int }),
        PgWaitTypeLWLock::from_sessions(rows.push(r)).xacttruncation == PgWaitTypeLWLock::from_sessions(rows).xacttruncation + (if column_is(r.state, "active"@) && column_is(r.wait_event_type, "lwlock"@) && column_is(r.wait_event, "xacttruncation"@) { 1int } else { 0int }),
        PgWaitTypeLWLock::from_sessions(rows.push(r)).xidgen == PgWaitTypeLWLock::from_sessions(rows).xidgen + (if column_is(r.state, "active"@) && column_is(r.wait_event_type, "lwlock"@) && column_is(r.wait_event, "xidgen"@) { 1int } else { 0int }),
{
    reveal_strlit("active");
    assert("active"@.len() == 6);
    reveal_strlit("lwlock");
    assert("lwlock"@.len() == 6);
    reveal_strlit("subtransbuffer");
    assert("subtransbuffer"@.len() == 14);
    reveal_strlit("subtransslru");
    assert("subtransslru"@.len() == 12);
    reveal_strlit("syncrep");
    assert("syncrep"@.len() == 7);
    reveal_strlit("syncscan");
    assert("syncscan"@.len() == 8);
    reveal_strlit("tablespacecreate");
    assert("tablespacecreate"@.len() == 16);
    reveal_strlit("twophasestate");
    assert("twophasestate"@.len() == 13);
    reveal_strlit("walbufmapping");
    assert("walbufmapping"@.len() == 13);
    reveal_strlit("walinsert");
    assert("walinsert"@.len() == 9);
    reveal_strlit("walwrite");
    assert("walwrite"@.len() == 8);
    reveal_strlit("wraplimitsvacuum");
    assert("wraplimitsvacuum"@.len() == 16);
    reveal_strlit("xactbuffer");
    assert("xactbuffer"@.len() == 10);
    reveal_strlit("xactslru");
    assert("xactslru"@.len() == 8);
    reveal_strlit("xacttruncation");
    assert("xacttruncation"@.len() == 14);
    reveal_strlit("xidgen");
    assert("xidgen"@.len() == 6);
    lemma_count_after_push(rows, r, SessionFilter::WaitEvent("lwlock"@, "subtransbuffer"@));
    lemma_count_bound(rows.push(r), SessionFilter::WaitEvent("lwlock"@, "subtransbuffer"@));
    lemma_count_bound(rows, SessionFilter::WaitEvent("lwlock"@, "subtransbuffer"@));
    lemma_count_after_push(rows, r, SessionFilter::WaitEvent("lwlock"@, "subtransslru"@));
    lemma_count_bound(rows.push(r), SessionFilter::WaitEvent("lwlock"@, "subtransslru"@));
    lemma_count_bound(rows, SessionFilter::WaitEvent("lwlock"@, "subtransslru"@));
    lemma_count_after_push(rows, r, SessionFilter::WaitEvent("lwlock"@, "syncrep"@));
    lemma_count_bound(rows.push(r), SessionFilter::WaitEvent("lwlock"@, "syncrep"@));
    lemma_count_bound(rows, SessionFilter::WaitEvent("lwlock"@, "syncrep"@));
    lemma_count_after_push(rows, r, SessionFilter::WaitEvent("lwlock"@, "syncscan"@));
    lemma_count_bound(rows.push(r), SessionFilter::WaitEvent("lwlock"@, "syncscan"@));
    lemma_count_bound(rows, SessionFilter::WaitEvent("lwlock"@, "syncscan"@));
    lemma_count_after_push(rows, r, SessionFilter::WaitEvent("lwlock"@, "tablespacecreate"@));
    lemma_count_bound(rows.push(r), SessionFilter::WaitEvent("lwlock"@, "tablespacecreate"@));
    lemma_count_bound(rows, SessionFilter::WaitEvent("lwlock"@, "tablespacecreate"@));
    lemma_count_after_push(rows, r, SessionFilter::WaitEvent("lwlock"@, "twophasestate"@));
    lemma_count_bound(rows.push(r), SessionFilter::WaitEvent("lwlock"@, "twophasestate"@));
    lemma_count_bound(rows, SessionFilter::WaitEvent("lwlock"@, "twophasestate"@));
    lemma_count_after_push(rows, r, SessionFilter::WaitEvent("lwlock"@, "walbufmapping"@));
    lemma_count_bound(rows.push(r), SessionFilter::WaitEvent("lwlock"@, "walbufmapping"@));
    lemma_count_bound(rows, SessionFilter::WaitEvent("lwlock"@, "walbufmapping"@));
    lemma_count_after_push(rows, r, SessionFilter::WaitEvent("lwlock"@, "walinsert"@));
    lemma_count_bound(rows.push(r), SessionFilter::WaitEvent("lwlock"@, "walinsert"@));
    lemma_count_bound(rows, SessionFilter::WaitEvent("lwlock"@, "walinsert"@));
    lemma_count_after_push(rows, r, SessionFilter::WaitEvent("lwlock"@, "walwrite"@));
    lemma_count_bound(rows.push(r), SessionFilter::WaitEvent("lwlock"@, "walwrite"@));
    lemma_count_bound(rows, SessionFilter::WaitEvent("lwlock"@, "walwrite"@));
    lemma_count_after_push(rows, r, SessionFilter::WaitEvent("lwlock"@, "wraplimitsvacuum"@));
    lemma_count_bound(rows.push(r), SessionFilter::WaitEvent("lwlock"@, "wraplimitsvacuum"@));
    lemma_count_bound(rows, SessionFilter::WaitEvent("lwlock"@, "wraplimitsvacuum"@));
    lemma_count_after_push(rows, r, SessionFilter::WaitEvent("lwlock"@, "xactbuffer"@));
    lemma_count_bound(rows.push(r), SessionFilter::WaitEvent("lwlock"@, "xactbuffer"@));
    lemma_count_bound(rows, SessionFilter::WaitEvent("lwlock"@, "xactbuffer"@));
    lemma_count_after_push(rows, r, SessionFilter::WaitEvent("lwlock"@, "xactslru"@));
    lemma_count_bound(rows.push(r), SessionFilter::WaitEvent("lwlock"@, "xactslru"@));
    lemma_count_bound(rows, SessionFilter::WaitEvent("lwlock"@, "xactslru"@));
    lemma_count_after_push(rows, r, SessionFilter::WaitEvent("lwlock"@, "xacttruncation"@));
    lemma_count_bound(rows.push(r), SessionFilter::WaitEvent("lwlock"@, "xacttruncation"@));
    lemma_count_bound(rows, SessionFilter::WaitEvent("lwlock"@, "xacttruncation"@));
    lemma_count_after_push(rows, r, SessionFilter::WaitEvent("lwlock"@, "xidgen"@));
    lemma_count_bound(rows.push(r), SessionFilter::WaitEvent("lwlock"@, "xidgen"@));
    lemma_count_bound(rows, SessionFilter::WaitEvent("lwlock"@, "xidgen"@));
}

proof fn lemma_lwlock_other_push(rows: Seq<PgStatActivity>, r: PgStatActivity)
    requires
        rows.len() < usize::MAX,
    ensures
        PgWaitTypeLWLock::from_sessions(rows.push(r)).other == PgWaitTypeLWLock::from_sessions(rows).other + (if column_is(r.state, "active"@) && column_is(r.wait_event_type, "lwlock"@) && !(column_is(r.wait_event, "addinshmeminit"@) || column_is(r.wait_event, "autofile"@) || column_is(r.wait_event, "autovacuum"@) || column_is(r.wait_event, "autovacuumschedule"@) || column_is(r.wait_event, "backgroundworker"@) || column_is(r.wait_event, "btreevacuum"@) || column_is(r.wait_event, "buffercontent"@) || column_is(r.wait_event, "buffermapping"@) || column_is(r.wait_event, "checkpointercomm"@) || column_is(r.wait_event, "committs"@) || column_is(r.wait_event, "committsbuffer"@) || column_is(r.wait_event, "committsslru"@) || column_is(r.wait_event, "controlfile"@) || column_is(r.wait_event, "dynamicsharedmemorycontrol"@) || column_is(r.wait_event, "lockfastpath"@) || column_is(r.wait_event, "lockmanager"@) || column_is(r.wait_event, "logicalreplauncerdsa"@) || column_is(r.wait_event, "logicalreplauncerhash"@) || column_is(r.wait_event, "logicalrepworker"@) || column_is(r.wait_event, "multixactgen"@) || column_is(r.wait_event, "multixactmemberbuffer"@) || column_is(r.wait_event, "multixactmemberslru"@) || column_is(r.wait_event, "multixactoffsetbuffer"@) || column_is(r.wait_event, "multixactoffsetslru"@) || column_is(r.wait_event, "multixacttruncation"@) || column_is(r.wait_event, "notifybuffer"@) || column_is(r.wait_event, "notifyqueue"@) || column_is(r.wait_event, "notifyqueuetail"@) || column_is(r.wait_event, "notifyslru"@) || column_is(r.wait_event, "oidgen"@) || column_is(r.wait_event, "oldsnapshottimemap"@) || column_is(r.wait_event, "parallelappend"@) || column_is(r.wait_event, "parallelhashjoin"@) || column_is(r.wait_event, "parallelquerydsa"@) || column_is(r.wait_event, "persessiondsa"@) || column_is(r.wait_event, "persessionrecordtype"@) || column_is(r.wait_event, "persessionrecordtypmod"@) || column_is(r.wait_event, "perxactpredicatelist"@) || column_is(r.wait_event, "pgstatsdata"@) || column_is(r.wait_event, "pgstatsdsa"@) || column_is(r.wait_event, "pgstatshash"@) || column_is(r.wait_event, "predicatelockmanager"@) || column_is(r.wait_event, "procarray"@) || column_is(r.wait_event, "relationmapping"@) || column_is(r.wait_event, "relcacheinit"@) || column_is(r.wait_event, "replicationorigin"@) || column_is(r.wait_event, "replicationoriginstate"@) || column_is(r.wait_event, "replicationslotallocation"@) || column_is(r.wait_event, "replicationslotcontrol"@) || column_is(r.wait_event, "replicationslotio"@) || column_is(r.wait_event, "serialbuffer"@) || column_is(r.wait_event, "serializablefinishedlist"@) || column_is(r.wait_event, "serializablepredicatelist"@) || column_is(r.wait_event, "serializablexacthash"@) || column_is(r.wait_event, "serialslru"@) || column_is(r.wait_event, "sharedtidbitmap"@) || column_is(r.wait_event, "sharedtuplestore"@) || column_is(r.wait_event, "shmemindex"@) || column_is(r.wait_event, "sinvalread"@) || column_is(r.wait_event, "sinvalwrite"@) || column_is(r.wait_event, "subtransbuffer"@) || column_is(r.wait_event, "subtransslru"@) || column_is(r.wait_event, "syncrep"@) || column_is(r.wait_event, "syncscan"@) || column_is(r.wait_event, "tablespacecreate"@) || column_is(r.wait_event, "twophasestate"@) || column_is(r.wait_event, "walbufmapping"@) || column_is(r.wait_event, "walinsert"@) || column_is(r.wait_event, "walwrite"@) || column_is(r.wait_event, "wraplimitsvacuum"@) || column_is(r.wait_event, "xactbuffer"@) || column_is(r.wait_event, "xactslru"@) || column_is(r.wait_event, "xacttruncation"@) || column_is(r.wait_event, "xidgen"@)) { 1int } else { 0int }),
{
    reveal_strlit("active");
    assert("active"@.len() == 6);
    reveal_strlit("addinshmeminit");
    assert("addinshmeminit"@.len() == 14);
    reveal_strlit("autofile");
    assert("autofile"@.len() == 8);
    reveal_strlit("autovacuum");
    assert("autovacuum"@.len() == 10);
    reveal_strlit("autovacuumschedule");
    assert("autovacuumschedule"@.len() == 18);
    reveal_strlit("backgroundworker");
    assert("backgroundworker"@.len() == 16);
    reveal_strlit("btreevacuum");
    assert("btreevacuum"@.len() == 11);
    reveal_strlit("buffercontent");
    assert("buffercontent"@.len() == 13);
    reveal_strlit("buffermapping");
    assert("buffermapping"@.len() == 13);
    reveal_strlit("checkpointercomm");
    assert("checkpointercomm"@.len() == 16);
    reveal_strlit("committs");
    assert("committs"@.len() == 8);
    reveal_strlit("committsbuffer");
    assert("committsbuffer"@.len() == 14);
    reveal_strlit("committsslru");
    assert("committsslru"@.len() == 12);
    reveal_strlit("controlfile");
    assert("controlfile"@.len() == 11);
    reveal_strlit("dynamicsharedmemorycontrol");
    assert("dynamicsharedmemorycontrol"@.len() == 26);
    reveal_strlit("lockfastpath");
    assert("lockfastpath"@.len() == 12);
    reveal_strlit("lockmanager");
    assert("lockmanager"@.len() == 11);
    reveal_strlit("logicalreplauncerdsa");
    assert("logicalreplauncerdsa"@.len() == 20);
    reveal_strlit("logicalreplauncerhash");
    assert("logicalreplauncerhash"@.len() == 21);
    reveal_strlit("logicalrepworker");
    assert("logicalrepworker"@.len() == 16);
    reveal_strlit("lwlock");
    assert("lwlock"@.len() == 6);
    reveal_strlit("multixactgen");
    assert("multixactgen"@.len() == 12);
    reveal_strlit("multixactmemberbuffer");
    assert("multixactmemberbuffer"@.len() == 21);
    reveal_strlit("multixactmemberslru");
    assert("multixactmemberslru"@.len() == 19);
    reveal_strlit("multixactoffsetbuffer");
    assert("multixactoffsetbuffer"@.len() == 21);
    reveal_strlit("multixactoffsetslru");
    assert("multixactoffsetslru"@.len() == 19);
    reveal_strlit("multixacttruncation");
    assert("multixacttruncation"@.len() == 19);
    reveal_strlit("notifybuffer");
    assert("notifybuffer"@.len() == 12);
    reveal_strlit("notifyqueue");
    assert("notifyqueue"@.len() == 11);
    reveal_strlit("notifyqueuetail");
    assert("notifyqueuetail"@.len() == 15);
    reveal_strlit("notifyslru");
    assert("notifyslru"@.len() == 10);
    reveal_strlit("oidgen");
    assert("oidgen"@.len() == 6);
    reveal_strlit("oldsnapshottimemap");
    assert("oldsnapshottimemap"@.len() == 18);
    reveal_strlit("parallelappend");
    assert("parallelappend"@.len() == 14);
    reveal_strlit("parallelhashjoin");
    assert("parallelhashjoin"@.len() == 16);
    reveal_strlit("parallelquerydsa");
    assert("parallelquerydsa"@.len() == 16);
    reveal_strlit("persessiondsa");
    assert("persessiondsa"@.len() == 13);
    reveal_strlit("persessionrecordtype");
    assert("persessionrecordtype"@.len() == 20);
    reveal_strlit("persessionrecordtypmod");
    assert("persessionrecordtypmod"@.len() == 22);
    reveal_strlit("perxactpredicatelist");
    assert("perxactpredicatelist"@.len() == 20);
    reveal_strlit("pgstatsdata");
    assert("pgstatsdata"@.len() == 11);
    reveal_strlit("pgstatsdsa");
    assert("pgstatsdsa"@.len() == 10);
    reveal_strlit("pgstatshash");
    assert("pgstatshash"@.len() == 11);
    reveal_strlit("predicatelockmanager");
    assert("predicatelockmanager"@.len() == 20);
    reveal_strlit("procarray");
    assert("procarray"@.len() == 9);
    reveal_strlit("relationmapping");
    assert("relationmapping"@.len() == 15);
    reveal_strlit("relcacheinit");
    assert("relcacheinit"@.len() == 12);
    reveal_strlit("replicationorigin");
    assert("replicationorigin"@.len() == 17);
    reveal_strlit("replicationoriginstate");
    assert("replicationoriginstate"@.len() == 22);
    reveal_strlit("replicationslotallocation");
    assert("replicationslotallocation"@.len() == 25);
    reveal_strlit("replicationslotcontrol");
    assert("replicationslotcontrol"@.len() == 22);
    reveal_strlit("replicationslotio");
    assert("replicationslotio"@.len() == 17);
    reveal_strlit("serialbuffer");
    assert("serialbuffer"@.len() == 12);
    reveal_strlit("serializablefinishedlist");
    assert("serializablefinishedlist"@.len() == 24);
    reveal_strlit("serializablepredicatelist");
    assert("serializablepredicatelist"@.len() == 25);
    reveal_strlit("serializablexacthash");
    assert("serializablexacthash"@.len() == 20);
    reveal_strlit("serialslru");
    assert("serialslru"@.len() == 10);
    reveal_strlit("sharedtidbitmap");
    assert("sharedtidbitmap"@.len() == 15);
    reveal_strlit("sharedtuplestore");
    assert("sharedtuplestore"@.len() == 16);
    reveal_strlit("shmemindex");
    assert("shmemindex"@.len() == 10);
    reveal_strlit("sinvalread");
    assert("sinvalread"@.len() == 10);
    reveal_strlit("sinvalwrite");
    assert("sinvalwrite"@.len() == 11);
    reveal_strlit("subtransbuffer");
    assert("subtransbuffer"@.len() == 14);
    reveal_strlit("subtransslru");
    assert("subtransslru"@.len() == 12);
    reveal_strlit("syncrep");
    assert("syncrep"@.len() == 7);
    reveal_strlit("syncscan");
    assert("syncscan"@.len() == 8);
    reveal_strlit("tablespacecreate");
    assert("tablespacecreate"@.len() == 16);
    reveal_strlit("twophasestate");
    assert("twophasestate"@.len() == 13);
    reveal_strlit("walbufmapping");
    assert("walbufmapping"@.len() == 13);
    reveal_strlit("walinsert");
    assert("walinsert"@.len() == 9);
    reveal_strlit("walwrite");
    assert("walwrite"@.len() == 8);
    reveal_strlit("wraplimitsvacuum");
    assert("wraplimitsvacuum"@.len() == 16);
    reveal_strlit("xactbuffer");
    assert("xactbuffer"@.len() == 10);
    reveal_strlit("xactslru");
    assert("xactslru"@.len() == 8);
    reveal_strlit("xacttruncation");
    assert("xacttruncation"@.len() == 14);
    reveal_strlit("xidgen");
    assert("xidgen"@.len() == 6);
    let known = lwlock_wait_events();
    assert(known[0] == "addinshmeminit"@);
    assert(known[1] == "autofile"@);
    assert(known[2] == "autovacuum"@);
    assert(known[3] == "autovacuumschedule"@);
    assert(known[4] == "backgroundworker"@);
    assert(known[5] == "btreevacuum"@);
    assert(known[6] == "buffercontent"@);
    assert(known[7] == "buffermapping"@);
    assert(known[8] == "checkpointercomm"@);
    assert(known[9] == "committs"@);
    assert(known[10] == "committsbuffer"@);
    assert(known[11] == "committsslru"@);
    assert(known[12] == "controlfile"@);
    assert(known[13] == "dynamicsharedmemorycontrol"@);
    assert(known[14] == "lockfastpath"@);
    assert(known[15] == "lockmanager"@);
    assert(known[16] == "logicalreplauncerdsa"@);
    assert(known[17] == "logicalreplauncerhash"@);
    assert(known[18] == "logicalrepworker"@);
    assert(known[19] == "multixactgen"@);
    assert(known[20] == "multixactmemberbuffer"@);
    assert(known[21] == "multixactmemberslru"@);
    assert(known[22] == "multixactoffsetbuffer"@);
    assert(known[23] == "multixactoffsetslru"@);
    assert(known[24] == "multixacttruncation"@);
    assert(known[25] == "notifybuffer"@);
    assert(known[26] == "notifyqueue"@);
    assert(known[27] == "notifyqueuetail"@);
    assert(known[28] == "notifyslru"@);
    assert(known[29] == "oidgen"@);
    assert(known[30] == "oldsnapshottimemap"@);
    assert(known[31] == "parallelappend"@);
    assert(known[32] == "parallelhashjoin"@);
    assert(known[33] == "parallelquerydsa"@);
    assert(known[34] == "persessiondsa"@);
    assert(known[35] == "persessionrecordtype"@);
    assert(known[36] == "persessionrecordtypmod"@);
    assert(known[37] == "perxactpredicatelist"@);
    assert(known[38] == "pgstatsdata"@);
    assert(known[39] == "pgstatsdsa"@);
    assert(known[40] == "pgstatshash"@);
    assert(known[41] == "predicatelockmanager"@);
    assert(known[42] == "procarray"@);
    assert(known[43] == "relationmapping"@);
    assert(known[44] == "relcacheinit"@);
    assert(known[45] == "replicationorigin"@);
    assert(known[46] == "replicationoriginstate"@);
    assert(known[47] == "replicationslotallocation"@);
    assert(known[48] == "replicationslotcontrol"@);
    assert(known[49] == "replicationslotio"@);
    assert(known[50] == "serialbuffer"@);
    assert(known[51] == "serializablefinishedlist"@);
    assert(known[52] == "serializablepredicatelist"@);
    assert(known[53] == "serializablexacthash"@);
    assert(known[54] == "serialslru"@);
    assert(known[55] == "sharedtidbitmap"@);
    assert(known[56] == "sharedtuplestore"@);
    assert(known[57] == "shmemindex"@);
    assert(known[58] == "sinvalread"@);
    assert(known[59] == "sinvalwrite"@);
    assert(known[60] == "subtransbuffer"@);
    assert(known[61] == "subtransslru"@);
    assert(known[62] == "syncrep"@);
    assert(known[63] == "syncscan"@);
    assert(known[64] == "tablespacecreate"@);
    assert(known[65] == "twophasestate"@);
    assert(known[66] == "walbufmapping"@);
    assert(known[67] == "walinsert"@);
    assert(known[68] == "walwrite"@);
    assert(known[69] == "wraplimitsvacuum"@);
    assert(known[70] == "xactbuffer"@);
    assert(known[71] == "xactslru"@);
    assert(known[72] == "xacttruncation"@);
    assert(known[73] == "xidgen"@);
    lemma_count_after_push(rows, r, SessionFilter::UnlistedEvent("lwlock"@, known));
    lemma_count_bound(rows.push(r), SessionFilter::UnlistedEvent("lwlock"@, known));
    lemma_count_bound(rows, SessionFilter::UnlistedEvent("lwlock"@, known));
}

/// Counting one more session into the breakdown of `timeout` by wait event adds
/// one to the field of its wait event when it is active (state `active`),
/// waits on `timeout` and its wait event is that field's name, and to `other` when
/// it is active and waits on `timeout` with a wait event of none of those names;
/// every other count stays. Without sessions every count is zero.
pub proof fn lemma_timeout_events_push(rows: Seq<PgStatActivity>, r: PgStatActivity)
    requires
        rows.len() < usize::MAX,
    ensures
        PgWaitTypeTimeout::from_sessions(rows.push(r)).basebackupthrottle == PgWaitTypeTimeout::from_sessions(rows).basebackupthrottle + (if column_is(r.state, "active"@) && column_is(r.wait_event_type, "timeout"@) && column_is(r.wait_event, "basebackupthrottle"@) { 1int } else { 0int }),
        PgWaitTypeTimeout::from_sessions(rows.push(r)).checkpointerwritedelay == PgWaitTypeTimeout::from_sessions(rows).checkpointerwritedelay + (if column_is(r.state, "active"@) && column_is(r.wait_event_type, "timeout"@) && column_is(r.wait_event, "checkpoinwritedelay"@) { 1int } else { 0int }),
        PgWaitTypeTimeout::from_sessions(rows.push(r)).pgsleep == PgWaitTypeTimeout::from_sessions(rows).pgsleep + (if column_is(r.state, "active"@) && column_is(r.wait_event_type, "timeout"@) && column_is(r.wait_event, "pgsleep"@) { 1int } else { 0int }),
        PgWaitTypeTimeout::from_sessions(rows.push(r)).recoveryapplydelay == PgWaitTypeTimeout::from_sessions(rows).recoveryapplydelay + (if column_is(r.state, "active"@) && column_is(r.wait_event_type, "timeout"@) && column_is(r.wait_event, "recoveryapplydelay"@) { 1int } else { 0int }),
        PgWaitTypeTimeout::from_sessions(rows.push(r)).recoveryretrieveretryinterval == PgWaitTypeTimeout::from_sessions(rows).recoveryretrieveretryinterval + (if column_is(r.state, "active"@) && column_is(r.wait_event_type, "timeout"@) && column_is(r.wait_event, "recoveryretrieveretryinterval"@) { 1int } else { 0int }),
        PgWaitTypeTimeout::from_sessions(rows.push(r)).registersyncrequest == PgWaitTypeTimeout::from_sessions(rows).registersyncrequest + (if column_is(r.state, "active"@) && column_is(r.wait_event_type, "timeout"@) && column_is(r.wait_event, "registersyncrequest"@) { 1int } else { 0int }),
        PgWaitTypeTimeout::from_sessions(rows.push(r)).spindelay == PgWaitTypeTimeout::from_sessions(rows).spindelay + (if column_is(r.state, "active"@) && column_is(r.wait_event_type, "timeout"@) && column_is(r.wait_event, "spindelay"@) { 1int } else { 0int }),
        PgWaitTypeTimeout::from_sessions(rows.push(r)).vacuumdelay == PgWaitTypeTimeout::from_sessions(rows).vacuumdelay + (if column_is(r.state, "active"@) && column_is(r.wait_event_type, "timeout"@) && column_is(r.wait_event, "vacuumdelay"@) { 1int } else { 0int }),
        PgWaitTypeTimeout::from_sessions(rows.push(r)).vacuumtruncate == PgWaitTypeTimeout::from_sessions(rows).vacuumtruncate + (if column_is(r.state, "active"@) && column_is(r.wait_event_type, "timeout"@) && column_is(r.wait_event, "vacuumtruncate"@) { 1int } else { 0int }),
        PgWaitTypeTimeout::from_sessions(rows.push(r)).other == PgWaitTypeTimeout::from_sessions(rows).other + (if column_is(r.state, "active"@) && column_is(r.wait_event_type, "timeout"@) && !(column_is(r.wait_event, "basebackupthrottle"@) || column_is(r.wait_event, "checkpoinwritedelay"@) || column_is(r.wait_event, "pgsleep"@) || column_is(r.wait_event, "recoveryapplydelay"@) || column_is(r.wait_event, "recoveryretrieveretryinterval"@) || column_is(r.wait_event, "registersyncrequest"@) || column_is(r.wait_event, "spindelay"@) || column_is(r.wait_event, "vacuumdelay"@) || column_is(r.wait_event, "vacuumtruncate"@)) { 1int } else { 0int }),
        PgWaitTypeTimeout::from_sessions(Seq::empty()).basebackupthrottle == 0,
        PgWaitTypeTimeout::from_sessions(Seq::empty()).checkpointerwritedelay == 0,
        PgWaitTypeTimeout::from_sessions(Seq::empty()).pgsleep == 0,
        PgWaitTypeTimeout::from_sessions(Seq::empty()).recoveryapplydelay == 0,
        PgWaitTypeTimeout::from_sessions(Seq::empty()).recoveryretrieveretryinterval == 0,
        PgWaitTypeTimeout::from_sessions(Seq::empty()).registersyncrequest == 0,
        PgWaitTypeTimeout::from_sessions(Seq::empty()).spindelay == 0,
        PgWaitTypeTimeout::from_sessions(Seq::empty()).vacuumdelay == 0,
        PgWaitTypeTimeout::from_sessions(Seq::empty()).vacuumtruncate == 0,
        PgWaitTypeTimeout::from_sessions(Seq::empty()).other == 0,
{
    reveal_strlit("active");
    assert("active"@.len() == 6);
    reveal_strlit("basebackupthrottle");
    assert("basebackupthrottle"@.len() == 18);
    reveal_strlit("checkpoinwritedelay");
    assert("checkpoinwritedelay"@.len() == 19);
    reveal_strlit("pgsleep");
    assert("pgsleep"@.len() == 7);
    reveal_strlit("recoveryapplydelay");
    assert("recoveryapplydelay"@.len() == 18);
    reveal_strlit("recoveryretrieveretryinterval");
    assert("recoveryretrieveretryinterval"@.len() == 29);
    reveal_strlit("registersyncrequest");
    assert("registersyncrequest"@.len() == 19);
    reveal_strlit("spindelay");
    assert("spindelay"@.len() == 9);
    reveal_strlit("timeout");
    assert("timeout"@.len() == 7);
    reveal_strlit("vacuumdelay");
    assert("vacuumdelay"@.len() == 11);
    reveal_strlit("vacuumtruncate");
    assert("vacuumtruncate"@.len() == 14);
    lemma_count_after_push(rows, r, SessionFilter::WaitEvent("timeout"@, "basebackupthrottle"@));
    lemma_count_bound(rows.push(r), SessionFilter::WaitEvent("timeout"@, "basebackupthrottle"@));
    lemma_count_bound(rows, SessionFilter::WaitEvent("timeout"@, "basebackupthrottle"@));
    lemma_count_after_push(rows, r, SessionFilter::WaitEvent("timeout"@, "checkpoinwritedelay"@));
    lemma_count_bound(rows.push(r), SessionFilter::WaitEvent("timeout"@, "checkpoinwritedelay"@));
    lemma_count_bound(rows, SessionFilter::WaitEvent("timeout"@, "checkpoinwritedelay"@));
    lemma_count_after_push(rows, r, SessionFilter::WaitEvent("timeout"@, "pgsleep"@));
    lemma_count_bound(rows.push(r), SessionFilter::WaitEvent("timeout"@, "pgsleep"@));
    lemma_count_bound(rows, SessionFilter::WaitEvent("timeout"@, "pgsleep"@));
    lemma_count_after_push(rows, r, SessionFilter::WaitEvent("timeout"@, "recoveryapplydelay"@));
    lemma_count_bound(rows.push(r), SessionFilter::WaitEvent("timeout"@, "recoveryapplydelay"@));
    lemma_count_bound(rows, SessionFilter::WaitEvent("timeout"@, "recoveryapplydelay"@));
    lemma_count_after_push(rows, r, SessionFilter::WaitEvent("timeout"@, "recoveryretrieveretryinterval"@));
    lemma_count_bound(rows.push(r), SessionFilter::WaitEvent("timeout"@, "recoveryretrieveretryinterval"@));
    lemma_count_bound(rows, SessionFilter::WaitEvent("timeout"@, "recoveryretrieveretryinterval"@));
    lemma_count_after_push(rows, r, SessionFilter::WaitEvent("timeout"@, "registersyncrequest"@));
    lemma_count_bound(rows.push(r), SessionFilter::WaitEvent("timeout"@, "registersyncrequest"@));
    lemma_count_bound(rows, SessionFilter::WaitEvent("timeout"@, "registersyncrequest"@));
    lemma_count_after_push(rows, r, SessionFilter::WaitEvent("timeout"@, "spindelay"@));
    lemma_count_bound(rows.push(r), SessionFilter::WaitEvent("timeout"@, "spindelay"@));
    lemma_count_bound(rows, SessionFilter::WaitEvent("timeout"@, "spindelay"@));
    lemma_count_after_push(rows, r, SessionFilter::WaitEvent("timeout"@, "vacuumdelay"@));
    lemma_count_bound(rows.push(r), SessionFilter::WaitEvent("timeout"@, "vacuumdelay"@));
    lemma_count_bound(rows, SessionFilter::WaitEvent("timeout"@, "vacuumdelay"@));
    lemma_count_after_push(rows, r, SessionFilter::WaitEvent("timeout"@, "vacuumtruncate"@));
    lemma_count_bound(rows.push(r), SessionFilter::WaitEvent("timeout"@, "vacuumtruncate"@));
    lemma_count_bound(rows, SessionFilter::WaitEvent("timeout"@, "vacuumtruncate"@));
    let known = timeout_wait_events();
    assert(known[0] == "basebackupthrottle"@);
    assert(known[1] == "checkpoinwritedelay"@);
    assert(known[2] == "pgsleep"@);
    assert(known[3] == "recoveryapplydelay"@);
    assert(known[4] == "recoveryretrieveretryinterval"@);
    assert(known[5] == "registersyncrequest"@);
    assert(known[6] == "spindelay"@);
    assert(known[7] == "vacuumdelay"@);
    assert(known[8] == "vacuumtruncate"@);
    lemma_count_after_push(rows, r, SessionFilter::UnlistedEvent("timeout"@, known));
    lemma_count_bound(rows.push(r), SessionFilter::UnlistedEvent("timeout"@, known));
    lemma_count_bound(rows, SessionFilter::UnlistedEvent("timeout"@, known));
}

} // verus!
