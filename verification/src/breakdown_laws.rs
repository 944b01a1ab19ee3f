//! The breakdowns by wait event count every waiting session once.

use crate::activity::{
    count_sessions, lemma_breakdown_sum, lemma_count_bound, PgStatActivity, SessionFilter,
};
use crate::series::seq_sum;
use crate::text::{
    lemma_increasing_no_duplicates, lemma_join_no_duplicates, lemma_not_in_increasing,
    lemma_push_increasing, strictly_increasing, text_less,
};
use crate::wait_types::{
    activity_wait_events, bufferpin_wait_events, client_wait_events, extension_wait_events,
    io_wait_events, ipc_wait_events, lock_wait_events, lwlock_wait_events, timeout_wait_events,
    PgCurrentWaitTypes, PgWaitTypeActivity, PgWaitTypeBufferPin, PgWaitTypeClient,
    PgWaitTypeExtension, PgWaitTypeIO, PgWaitTypeIPC, PgWaitTypeLWLock, PgWaitTypeLock,
    PgWaitTypeTimeout,
};
use vstd::prelude::*;

verus! {

/// The wait events of `activity`, other included, add up to the number of
/// active sessions waiting on `activity`, as the breakdown by wait event type
/// counts them: every such session is counted once.
pub proof fn lemma_activity_breakdown_sum(rows: Seq<PgStatActivity>)
    requires
        rows.len() <= usize::MAX,
    ensures
        seq_sum(PgWaitTypeActivity::from_sessions(rows).value_seq()) == count_sessions(
            rows,
            SessionFilter::WaitType("activity"@),
        ),
        seq_sum(PgWaitTypeActivity::from_sessions(rows).value_seq()) == PgCurrentWaitTypes::from_sessions(
            rows,
        ).activity,
{
    lemma_activity_events_distinct();
    lemma_count_bound(rows, SessionFilter::WaitType("activity"@));
    lemma_breakdown_sum(rows, "activity"@, activity_wait_events(), PgWaitTypeActivity::from_sessions(rows).value_seq());
}

/// The wait events that [`PgWaitTypeActivity`] counts one by one are pairwise different.
proof fn lemma_activity_events_distinct()
    ensures
        activity_wait_events().no_duplicates(),
{
    let s0 = Seq::<Seq<char>>::empty();
    lemma_activity_run_0(s0);
    let s1 = s0.push("archivermain"@).push("autovacuummain"@).push("bgwriterhibernate"@).push("bgwritermain"@).push("checkpointermain"@).push("logicalapplymain"@).push("logicallaunchermain"@).push("logicalparallelapplymain"@).push("recoverywalstream"@).push("sysloggermain"@);
    reveal_strlit("sysloggermain");
    reveal_strlit("walreceivermain");
    assert(text_less("sysloggermain"@, "walreceivermain"@)) by {
        reveal_with_fuel(text_less, 2);
    }
    lemma_activity_run_1(s1);
    let s2 = s1.push("walreceivermain"@).push("walsendermain"@).push("walwritermain"@);
    lemma_increasing_no_duplicates(s2);
    assert(s2 =~= activity_wait_events());
}

/// Pushing these listed wait events of `activity` keeps a sequence increasing.
proof fn lemma_activity_run_0(s: Seq<Seq<char>>)
    requires
        strictly_increasing(s),
        s.len() > 0 ==> text_less(s.last(), "archivermain"@),
    ensures
        strictly_increasing(s.push("archivermain"@).push("autovacuummain"@).push("bgwriterhibernate"@).push("bgwritermain"@).push("checkpointermain"@).push("logicalapplymain"@).push("logicallaunchermain"@).push("logicalparallelapplymain"@).push("recoverywalstream"@).push("sysloggermain"@)),
{
    reveal_strlit("archivermain");
    reveal_strlit("autovacuummain");
    reveal_strlit("bgwriterhibernate");
    reveal_strlit("bgwritermain");
    reveal_strlit("checkpointermain");
    reveal_strlit("logicalapplymain");
    reveal_strlit("logicallaunchermain");
    reveal_strlit("logicalparallelapplymain");
    reveal_strlit("recoverywalstream");
    reveal_strlit("sysloggermain");
    let s0 = s;
    lemma_push_increasing(s0, "archivermain"@);
    let s1 = s0.push("archivermain"@);
    assert(text_less("archivermain"@, "autovacuummain"@)) by {
        reveal_with_fuel(text_less, 3);
    }
    lemma_push_increasing(s1, "autovacuummain"@);
    let s2 = s1.push("autovacuummain"@);
    assert(text_less("autovacuummain"@, "bgwriterhibernate"@)) by {
        reveal_with_fuel(text_less, 2);
    }
    lemma_push_increasing(s2, "bgwriterhibernate"@);
    let s3 = s2.push("bgwriterhibernate"@);
    assert(text_less("bgwriterhibernate"@, "bgwritermain"@)) by {
        reveal_with_fuel(text_less, 10);
    }
    lemma_push_increasing(s3, "bgwritermain"@);
    let s4 = s3.push("bgwritermain"@);
    assert(text_less("bgwritermain"@, "checkpointermain"@)) by {
        reveal_with_fuel(text_less, 2);
    }
    lemma_push_increasing(s4, "checkpointermain"@);
    let s5 = s4.push("checkpointermain"@);
    assert(text_less("checkpointermain"@, "logicalapplymain"@)) by {
        reveal_with_fuel(text_less, 2);
    }
    lemma_push_increasing(s5, "logicalapplymain"@);
    let s6 = s5.push("logicalapplymain"@);
    assert(text_less("logicalapplymain"@, "logicallaunchermain"@)) by {
        reveal_with_fuel(text_less, 9);
    }
    lemma_push_increasing(s6, "logicallaunchermain"@);
    let s7 = s6.push("logicallaunchermain"@);
    assert(text_less("logicallaunchermain"@, "logicalparallelapplymain"@)) by {
        reveal_with_fuel(text_less, 9);
    }
    lemma_push_increasing(s7, "logicalparallelapplymain"@);
    let s8 = s7.push("logicalparallelapplymain"@);
    assert(text_less("logicalparallelapplymain"@, "recoverywalstream"@)) by {
        reveal_with_fuel(text_less, 2);
    }
    lemma_push_increasing(s8, "recoverywalstream"@);
    let s9 = s8.push("recoverywalstream"@);
    assert(text_less("recoverywalstream"@, "sysloggermain"@)) by {
        reveal_with_fuel(text_less, 2);
    }
    lemma_push_increasing(s9, "sysloggermain"@);
    let s10 = s9.push("sysloggermain"@);
}

/// Pushing these listed wait events of `activity` keeps a sequence increasing.
proof fn lemma_activity_run_1(s: Seq<Seq<char>>)
    requires
        strictly_increasing(s),
        s.len() > 0 ==> text_less(s.last(), "walreceivermain"@),
    ensures
        strictly_increasing(s.push("walreceivermain"@).push("walsendermain"@).push("walwritermain"@)),
{
    reveal_strlit("walreceivermain");
    reveal_strlit("walsendermain");
    reveal_strlit("walwritermain");
    let s0 = s;
    lemma_push_increasing(s0, "walreceivermain"@);
    let s1 = s0.push("walreceivermain"@);
    assert(text_less("walreceivermain"@, "walsendermain"@)) by {
        reveal_with_fuel(text_less, 5);
    }
    lemma_push_increasing(s1, "walsendermain"@);
    let s2 = s1.push("walsendermain"@);
    assert(text_less("walsendermain"@, "walwritermain"@)) by {
        reveal_with_fuel(text_less, 5);
    }
    lemma_push_increasing(s2, "walwritermain"@);
    let s3 = s2.push("walwritermain"@);
}

/// The wait events of `bufferpin`, other included, add up to the number of
/// active sessions waiting on `bufferpin`, as the breakdown by wait event type
/// counts them: every such session is counted once.
pub proof fn lemma_bufferpin_breakdown_sum(rows: Seq<PgStatActivity>)
    requires
        rows.len() <= usize::MAX,
    ensures
        seq_sum(PgWaitTypeBufferPin::from_sessions(rows).value_seq()) == count_sessions(
            rows,
            SessionFilter::WaitType("bufferpin"@),
        ),
        seq_sum(PgWaitTypeBufferPin::from_sessions(rows).value_seq()) == PgCurrentWaitTypes::from_sessions(
            rows,
        ).buffer_pin,
{
    lemma_bufferpin_events_distinct();
    lemma_count_bound(rows, SessionFilter::WaitType("bufferpin"@));
    lemma_breakdown_sum(rows, "bufferpin"@, bufferpin_wait_events(), PgWaitTypeBufferPin::from_sessions(rows).value_seq());
}

/// The wait events that [`PgWaitTypeBufferPin`] counts one by one are pairwise different.
proof fn lemma_bufferpin_events_distinct()
    ensures
        bufferpin_wait_events().no_duplicates(),
{
    let s0 = Seq::<Seq<char>>::empty();
    lemma_bufferpin_run_0(s0);
    let s1 = s0.push("bufferpin"@);
    lemma_increasing_no_duplicates(s1);
    assert(s1 =~= bufferpin_wait_events());
}

/// Pushing these listed wait events of `bufferpin` keeps a sequence increasing.
proof fn lemma_bufferpin_run_0(s: Seq<Seq<char>>)
    requires
        strictly_increasing(s),
        s.len() > 0 ==> text_less(s.last(), "bufferpin"@),
    ensures
        strictly_increasing(s.push("bufferpin"@)),
{
    reveal_strlit("bufferpin");
    let s0 = s;
    lemma_push_increasing(s0, "bufferpin"@);
    let s1 = s0.push("bufferpin"@);
}

/// The wait events of `client`, other included, add up to the number of
/// active sessions waiting on `client`, as the breakdown by wait event type
/// counts them: every such session is counted once.
pub proof fn lemma_client_breakdown_sum(rows: Seq<PgStatActivity>)
    requires
        rows.len() <= usize::MAX,
    ensures
        seq_sum(PgWaitTypeClient::from_sessions(rows).value_seq()) == count_sessions(
            rows,
            SessionFilter::WaitType("client"@),
        ),
        seq_sum(PgWaitTypeClient::from_sessions(rows).value_seq()) == PgCurrentWaitTypes::from_sessions(
            rows,
        ).client,
{
    lemma_client_events_distinct();
    lemma_count_bound(rows, SessionFilter::WaitType("client"@));
    lemma_breakdown_sum(rows, "client"@, client_wait_events(), PgWaitTypeClient::from_sessions(rows).value_seq());
}

/// The wait events that [`PgWaitTypeClient`] counts one by one are pairwise different.
proof fn lemma_client_events_distinct()
    ensures
        client_wait_events().no_duplicates(),
{
    let a0 = Seq::<Seq<char>>::empty();
    lemma_client_head_0(a0);
    let a1 = a0.push("clientread"@).push("clientwrite"@).push("gssopenserver"@).push("libpqwalreceiverconnect"@);
    let b0 = Seq::<Seq<char>>::empty();
    lemma_client_tail_0(b0);
    let b1 = b0.push("Libpqwalreceiverreceive"@).push("sslopenserver"@).push("walsenderwaitforwal"@).push("walsenderwritedata"@);
    lemma_client_apart_0(a1);
    lemma_increasing_no_duplicates(a1);
    lemma_increasing_no_duplicates(b1);
    lemma_join_no_duplicates(a1, b1);
    assert(a1 + b1 =~= client_wait_events());
}

/// Pushing these first listed wait events of `client` keeps a sequence increasing.
proof fn lemma_client_head_0(s: Seq<Seq<char>>)
    requires
        strictly_increasing(s),
        s.len() > 0 ==> text_less(s.last(), "clientread"@),
    ensures
        strictly_increasing(s.push("clientread"@).push("clientwrite"@).push("gssopenserver"@).push("libpqwalreceiverconnect"@)),
{
    reveal_strlit("clientread");
    reveal_strlit("clientwrite");
    reveal_strlit("gssopenserver");
    reveal_strlit("libpqwalreceiverconnect");
    let s0 = s;
    lemma_push_increasing(s0, "clientread"@);
    let s1 = s0.push("clientread"@);
    assert(text_less("clientread"@, "clientwrite"@)) by {
        reveal_with_fuel(text_less, 8);
    }
    lemma_push_increasing(s1, "clientwrite"@);
    let s2 = s1.push("clientwrite"@);
    assert(text_less("clientwrite"@, "gssopenserver"@)) by {
        reveal_with_fuel(text_less, 2);
    }
    lemma_push_increasing(s2, "gssopenserver"@);
    let s3 = s2.push("gssopenserver"@);
    assert(text_less("gssopenserver"@, "libpqwalreceiverconnect"@)) by {
        reveal_with_fuel(text_less, 2);
    }
    lemma_push_increasing(s3, "libpqwalreceiverconnect"@);
    let s4 = s3.push("libpqwalreceiverconnect"@);
}

/// Pushing these last listed wait events of `client` keeps a sequence increasing.
proof fn lemma_client_tail_0(s: Seq<Seq<char>>)
    requires
        strictly_increasing(s),
        s.len() > 0 ==> text_less(s.last(), "Libpqwalreceiverreceive"@),
    ensures
        strictly_increasing(s.push("Libpqwalreceiverreceive"@).push("sslopenserver"@).push("walsenderwaitforwal"@).push("walsenderwritedata"@)),
{
    reveal_strlit("Libpqwalreceiverreceive");
    reveal_strlit("sslopenserver");
    reveal_strlit("walsenderwaitforwal");
    reveal_strlit("walsenderwritedata");
    let s0 = s;
    lemma_push_increasing(s0, "Libpqwalreceiverreceive"@);
    let s1 = s0.push("Libpqwalreceiverreceive"@);
    assert(text_less("Libpqwalreceiverreceive"@, "sslopenserver"@)) by {
        reveal_with_fuel(text_less, 2);
    }
    lemma_push_increasing(s1, "sslopenserver"@);
    let s2 = s1.push("sslopenserver"@);
    assert(text_less("sslopenserver"@, "walsenderwaitforwal"@)) by {
        reveal_with_fuel(text_less, 2);
    }
    lemma_push_increasing(s2, "walsenderwaitforwal"@);
    let s3 = s2.push("walsenderwaitforwal"@);
    assert(text_less("walsenderwaitforwal"@, "walsenderwritedata"@)) by {
        reveal_with_fuel(text_less, 12);
    }
    lemma_push_increasing(s3, "walsenderwritedata"@);
    let s4 = s3.push("walsenderwritedata"@);
}

/// These wait events of `client` are not among its first listed ones, `a`.
proof fn lemma_client_apart_0(a: Seq<Seq<char>>)
    requires
        strictly_increasing(a),
        a.len() == 4,
        a[0] == "clientread"@,
        a[3] == "libpqwalreceiverconnect"@,
    ensures
        !a.contains("Libpqwalreceiverreceive"@),
        !a.contains("sslopenserver"@),
        !a.contains("walsenderwaitforwal"@),
        !a.contains("walsenderwritedata"@),
{
    reveal_strlit("Libpqwalreceiverreceive");
    reveal_strlit("clientread");
    reveal_strlit("libpqwalreceiverconnect");
    reveal_strlit("sslopenserver");
    reveal_strlit("walsenderwaitforwal");
    reveal_strlit("walsenderwritedata");
    assert(text_less("Libpqwalreceiverreceive"@, "clientread"@)) by {
        reveal_with_fuel(text_less, 2);
    }
    lemma_not_in_increasing(a, "Libpqwalreceiverreceive"@, 0);
    assert(text_less("libpqwalreceiverconnect"@, "sslopenserver"@)) by {
        reveal_with_fuel(text_less, 2);
    }
    lemma_not_in_increasing(a, "sslopenserver"@, 4);
    assert(text_less("libpqwalreceiverconnect"@, "walsenderwaitforwal"@)) by {
        reveal_with_fuel(text_less, 2);
    }
    lemma_not_in_increasing(a, "walsenderwaitforwal"@, 4);
    assert(text_less("libpqwalreceiverconnect"@, "walsenderwritedata"@)) by {
        reveal_with_fuel(text_less, 2);
    }
    lemma_not_in_increasing(a, "walsenderwritedata"@, 4);
}

/// The wait events of `extension`, other included, add up to the number of
/// active sessions waiting on `extension`, as the breakdown by wait event type
/// counts them: every such session is counted once.
pub proof fn lemma_extension_breakdown_sum(rows: Seq<PgStatActivity>)
    requires
        rows.len() <= usize::MAX,
    ensures
        seq_sum(PgWaitTypeExtension::from_sessions(rows).value_seq()) == count_sessions(
            rows,
            SessionFilter::WaitType("extension"@),
        ),
        seq_sum(PgWaitTypeExtension::from_sessions(rows).value_seq()) == PgCurrentWaitTypes::from_sessions(
            rows,
        ).extension,
{
    lemma_extension_events_distinct();
    lemma_count_bound(rows, SessionFilter::WaitType("extension"@));
    lemma_breakdown_sum(rows, "extension"@, extension_wait_events(), PgWaitTypeExtension::from_sessions(rows).value_seq());
}

/// The wait events that [`PgWaitTypeExtension`] counts one by one are pairwise different.
proof fn lemma_extension_events_distinct()
    ensures
        extension_wait_events().no_duplicates(),
{
    let s0 = Seq::<Seq<char>>::empty();
    lemma_extension_run_0(s0);
    let s1 = s0.push("extension"@);
    lemma_increasing_no_duplicates(s1);
    assert(s1 =~= extension_wait_events());
}

/// Pushing these listed wait events of `extension` keeps a sequence increasing.
proof fn lemma_extension_run_0(s: Seq<Seq<char>>)
    requires
        strictly_increasing(s),
        s.len() > 0 ==> text_less(s.last(), "extension"@),
    ensures
        strictly_increasing(s.push("extension"@)),
{
    reveal_strlit("extension");
    let s0 = s;
    lemma_push_increasing(s0, "extension"@);
    let s1 = s0.push("extension"@);
}

/// The wait events of `io`, other included, add up to the number of
/// active sessions waiting on `io`, as the breakdown by wait event type
/// counts them: every such session is counted once.
pub proof fn lemma_io_breakdown_sum(rows: Seq<PgStatActivity>)
    requires
        rows.len() <= usize::MAX,
    ensures
        seq_sum(PgWaitTypeIO::from_sessions(rows).value_seq()) == count_sessions(
            rows,
            SessionFilter::WaitType("io"@),
        ),
        seq_sum(PgWaitTypeIO::from_sessions(rows).value_seq()) == PgCurrentWaitTypes::from_sessions(
            rows,
        ).io,
{
    lemma_io_events_distinct();
    lemma_count_bound(rows, SessionFilter::WaitType("io"@));
    lemma_breakdown_sum(rows, "io"@, io_wait_events(), PgWaitTypeIO::from_sessions(rows).value_seq());
}

/// The wait events that [`PgWaitTypeIO`] counts one by one are pairwise different.
proof fn lemma_io_events_distinct()
    ensures
        io_wait_events().no_duplicates(),
{
    let a0 = Seq::<Seq<char>>::empty();
    lemma_io_head_0(a0);
    let a1 = a0.push("basebackupread"@).push("basebackupsync"@).push("basebackupwrite"@).push("buffileread"@).push("buffiletruncate"@).push("buffilewrite"@).push("controlfileread"@).push("controlfilesync"@).push("controlfilesyncupdate"@).push("controlfilewrite"@);
    reveal_strlit("controlfilewrite");
    reveal_strlit("controlfilewriteupdate");
    assert(text_less("controlfilewrite"@, "controlfilewriteupdate"@)) by {
        reveal_with_fuel(text_less, 18);
    }
    lemma_io_head_1(a1);
    let a2 = a1.push("controlfilewriteupdate"@).push("copyfileread"@).push("copyfilewrite"@).push("dsmallocate"@).push("dsmfillzerowrite"@);
    let b0 = Seq::<Seq<char>>::empty();
    lemma_io_tail_0(b0);
    let b1 = b0.push("datafileextend"@).push("datafileflush"@).push("datafileimmediatesync"@).push("datafileprefetch"@).push("datafileread"@).push("datafilesync"@).push("datafiletruncate"@).push("datafilewrite"@).push("lockfileaddtodatadirread"@).push("lockfileaddtodatadirsync"@);
    reveal_strlit("lockfileaddtodatadirsync");
    reveal_strlit("lockfileaddtodatadirwrite");
    assert(text_less("lockfileaddtodatadirsync"@, "lockfileaddtodatadirwrite"@)) by {
        reveal_with_fuel(text_less, 22);
    }
    lemma_io_tail_1(b1);
    let b2 = b1.push("lockfileaddtodatadirwrite"@).push("lockfilecreateread"@).push("lockfilecreatesync"@).push("lockfilecreatewrite"@).push("lockfilerecheckdatadirread"@).push("logicalrewritecheckpointsync"@).push("logicalrewritemappingsync"@).push("logicalrewritemappingwrite"@).push("logicalrewritesync"@).push("logicalrewritetruncate"@);
    reveal_strlit("logicalrewritetruncate");
    reveal_strlit("logicalrewritewrite");
    assert(text_less("logicalrewritetruncate"@, "logicalrewritewrite"@)) by {
        reveal_with_fuel(text_less, 16);
    }
    lemma_io_tail_2(b2);
    let b3 = b2.push("logicalrewritewrite"@).push("relationmapread"@).push("relationmapreplace"@).push("relationmapwrite"@).push("reorderbufferread"@).push("reorderbufferwrite"@).push("reorderlogicalmappingread"@).push("replicationslotread"@).push("replicationslotrestoresync"@).push("replicationslotsync"@);
    reveal_strlit("replicationslotsync");
    reveal_strlit("replicationslotwrite");
    assert(text_less("replicationslotsync"@, "replicationslotwrite"@)) by {
        reveal_with_fuel(text_less, 17);
    }
    lemma_io_tail_3(b3);
    let b4 = b3.push("replicationslotwrite"@).push("slruflushsync"@).push("slruread"@).push("slrusync"@).push("slruwrite"@).push("snapbuildread"@).push("snapbuildsync"@).push("snapbuildwrite"@).push("timelinehistoryfilesync"@).push("timelinehistoryfilewrite"@);
    reveal_strlit("timelinehistoryfilewrite");
    reveal_strlit("timelinehistoryread");
    assert(text_less("timelinehistoryfilewrite"@, "timelinehistoryread"@)) by {
        reveal_with_fuel(text_less, 17);
    }
    lemma_io_tail_4(b4);
    let b5 = b4.push("timelinehistoryread"@).push("timelinehistorysync"@).push("timelinehistorywrite"@).push("twophasefileread"@).push("twophasefilesync"@).push("twophasefilewrite"@).push("versionfilesync"@).push("versionfilewrite"@).push("walbootstrapsync"@).push("walbootstrapwrite"@);
    reveal_strlit("walbootstrapwrite");
    reveal_strlit("walcopyread");
    assert(text_less("walbootstrapwrite"@, "walcopyread"@)) by {
        reveal_with_fuel(text_less, 5);
    }
    lemma_io_tail_5(b5);
    let b6 = b5.push("walcopyread"@).push("walcopysync"@).push("walcopywrite"@).push("walinitsync"@).push("walinitwrite"@).push("walread"@).push("walsendertimelinehistoryread"@).push("walsync"@).push("walsyncmethodassign"@).push("walwrite"@);
    lemma_io_apart_0(a2);
    lemma_io_apart_1(a2);
    lemma_io_apart_2(a2);
    lemma_io_apart_3(a2);
    lemma_io_apart_4(a2);
    lemma_io_apart_5(a2);
    lemma_increasing_no_duplicates(a2);
    lemma_increasing_no_duplicates(b6);
    lemma_join_no_duplicates(a2, b6);
    assert(a2 + b6 =~= io_wait_events());
}

/// Pushing these first listed wait events of `io` keeps a sequence increasing.
proof fn lemma_io_head_0(s: Seq<Seq<char>>)
    requires
        strictly_increasing(s),
        s.len() > 0 ==> text_less(s.last(), "basebackupread"@),
    ensures
        strictly_increasing(s.push("basebackupread"@).push("basebackupsync"@).push("basebackupwrite"@).push("buffileread"@).push("buffiletruncate"@).push("buffilewrite"@).push("controlfileread"@).push("controlfilesync"@).push("controlfilesyncupdate"@).push("controlfilewrite"@)),
{
    reveal_strlit("basebackupread");
    reveal_strlit("basebackupsync");
    reveal_strlit("basebackupwrite");
    reveal_strlit("buffileread");
    reveal_strlit("buffiletruncate");
    reveal_strlit("buffilewrite");
    reveal_strlit("controlfileread");
    reveal_strlit("controlfilesync");
    reveal_strlit("controlfilesyncupdate");
    reveal_strlit("controlfilewrite");
    let s0 = s;
    lemma_push_increasing(s0, "basebackupread"@);
    let s1 = s0.push("basebackupread"@);
    assert(text_less("basebackupread"@, "basebackupsync"@)) by {
        reveal_with_fuel(text_less, 12);
    }
    lemma_push_increasing(s1, "basebackupsync"@);
    let s2 = s1.push("basebackupsync"@);
    assert(text_less("basebackupsync"@, "basebackupwrite"@)) by {
        reveal_with_fuel(text_less, 12);
    }
    lemma_push_increasing(s2, "basebackupwrite"@);
    let s3 = s2.push("basebackupwrite"@);
    assert(text_less("basebackupwrite"@, "buffileread"@)) by {
        reveal_with_fuel(text_less, 3);
    }
    lemma_push_increasing(s3, "buffileread"@);
    let s4 = s3.push("buffileread"@);
    assert(text_less("buffileread"@, "buffiletruncate"@)) by {
        reveal_with_fuel(text_less, 9);
    }
    lemma_push_increasing(s4, "buffiletruncate"@);
    let s5 = s4.push("buffiletruncate"@);
    assert(text_less("buffiletruncate"@, "buffilewrite"@)) by {
        reveal_with_fuel(text_less, 9);
    }
    lemma_push_increasing(s5, "buffilewrite"@);
    let s6 = s5.push("buffilewrite"@);
    assert(text_less("buffilewrite"@, "controlfileread"@)) by {
        reveal_with_fuel(text_less, 2);
    }
    lemma_push_increasing(s6, "controlfileread"@);
    let s7 = s6.push("controlfileread"@);
    assert(text_less("controlfileread"@, "controlfilesync"@)) by {
        reveal_with_fuel(text_less, 13);
    }
    lemma_push_increasing(s7, "controlfilesync"@);
    let s8 = s7.push("controlfilesync"@);
    assert(text_less("controlfilesync"@, "controlfilesyncupdate"@)) by {
        reveal_with_fuel(text_less, 17);
    }
    lemma_push_increasing(s8, "controlfilesyncupdate"@);
    let s9 = s8.push("controlfilesyncupdate"@);
    assert(text_less("controlfilesyncupdate"@, "controlfilewrite"@)) by {
        reveal_with_fuel(text_less, 13);
    }
    lemma_push_increasing(s9, "controlfilewrite"@);
    let s10 = s9.push("controlfilewrite"@);
}

/// Pushing these first listed wait events of `io` keeps a sequence increasing.
proof fn lemma_io_head_1(s: Seq<Seq<char>>)
    requires
        strictly_increasing(s),
        s.len() > 0 ==> text_less(s.last(), "controlfilewriteupdate"@),
    ensures
        strictly_increasing(s.push("controlfilewriteupdate"@).push("copyfileread"@).push("copyfilewrite"@).push("dsmallocate"@).push("dsmfillzerowrite"@)),
{
    reveal_strlit("controlfilewriteupdate");
    reveal_strlit("copyfileread");
    reveal_strlit("copyfilewrite");
    reveal_strlit("dsmallocate");
    reveal_strlit("dsmfillzerowrite");
    let s0 = s;
    lemma_push_increasing(s0, "controlfilewriteupdate"@);
    let s1 = s0.push("controlfilewriteupdate"@);
    assert(text_less("controlfilewriteupdate"@, "copyfileread"@)) by {
        reveal_with_fuel(text_less, 4);
    }
    lemma_push_increasing(s1, "copyfileread"@);
    let s2 = s1.push("copyfileread"@);
    assert(text_less("copyfileread"@, "copyfilewrite"@)) by {
        reveal_with_fuel(text_less, 10);
    }
    lemma_push_increasing(s2, "copyfilewrite"@);
    let s3 = s2.push("copyfilewrite"@);
    assert(text_less("copyfilewrite"@, "dsmallocate"@)) by {
        reveal_with_fuel(text_less, 2);
    }
    lemma_push_increasing(s3, "dsmallocate"@);
    let s4 = s3.push("dsmallocate"@);
    assert(text_less("dsmallocate"@, "dsmfillzerowrite"@)) by {
        reveal_with_fuel(text_less, 5);
    }
    lemma_push_increasing(s4, "dsmfillzerowrite"@);
    let s5 = s4.push("dsmfillzerowrite"@);
}

/// Pushing these last listed wait events of `io` keeps a sequence increasing.
proof fn lemma_io_tail_0(s: Seq<Seq<char>>)
    requires
        strictly_increasing(s),
        s.len() > 0 ==> text_less(s.last(), "datafileextend"@),
    ensures
        strictly_increasing(s.push("datafileextend"@).push("datafileflush"@).push("datafileimmediatesync"@).push("datafileprefetch"@).push("datafileread"@).push("datafilesync"@).push("datafiletruncate"@).push("datafilewrite"@).push("lockfileaddtodatadirread"@).push("lockfileaddtodatadirsync"@)),
{
    reveal_strlit("datafileextend");
    reveal_strlit("datafileflush");
    reveal_strlit("datafileimmediatesync");
    reveal_strlit("datafileprefetch");
    reveal_strlit("datafileread");
    reveal_strlit("datafilesync");
    reveal_strlit("datafiletruncate");
    reveal_strlit("datafilewrite");
    reveal_strlit("lockfileaddtodatadirread");
    reveal_strlit("lockfileaddtodatadirsync");
    let s0 = s;
    lemma_push_increasing(s0, "datafileextend"@);
    let s1 = s0.push("datafileextend"@);
    assert(text_less("datafileextend"@, "datafileflush"@)) by {
        reveal_with_fuel(text_less, 10);
    }
    lemma_push_increasing(s1, "datafileflush"@);
    let s2 = s1.push("datafileflush"@);
    assert(text_less("datafileflush"@, "datafileimmediatesync"@)) by {
        reveal_with_fuel(text_less, 10);
    }
    lemma_push_increasing(s2, "datafileimmediatesync"@);
    let s3 = s2.push("datafileimmediatesync"@);
    assert(text_less("datafileimmediatesync"@, "datafileprefetch"@)) by {
        reveal_with_fuel(text_less, 10);
    }
    lemma_push_increasing(s3, "datafileprefetch"@);
    let s4 = s3.push("datafileprefetch"@);
    assert(text_less("datafileprefetch"@, "datafileread"@)) by {
        reveal_with_fuel(text_less, 10);
    }
    lemma_push_increasing(s4, "datafileread"@);
    let s5 = s4.push("datafileread"@);
    assert(text_less("datafileread"@, "datafilesync"@)) by {
        reveal_with_fuel(text_less, 10);
    }
    lemma_push_increasing(s5, "datafilesync"@);
    let s6 = s5.push("datafilesync"@);
    assert(text_less("datafilesync"@, "datafiletruncate"@)) by {
        reveal_with_fuel(text_less, 10);
    }
    lemma_push_increasing(s6, "datafiletruncate"@);
    let s7 = s6.push("datafiletruncate"@);
    assert(text_less("datafiletruncate"@, "datafilewrite"@)) by {
        reveal_with_fuel(text_less, 10);
    }
    lemma_push_increasing(s7, "datafilewrite"@);
    let s8 = s7.push("datafilewrite"@);
    assert(text_less("datafilewrite"@, "lockfileaddtodatadirread"@)) by {
        reveal_with_fuel(text_less, 2);
    }
    lemma_push_increasing(s8, "lockfileaddtodatadirread"@);
    let s9 = s8.push("lockfileaddtodatadirread"@);
    assert(text_less("lockfileaddtodatadirread"@, "lockfileaddtodatadirsync"@)) by {
        reveal_with_fuel(text_less, 22);
    }
    lemma_push_increasing(s9, "lockfileaddtodatadirsync"@);
    let s10 = s9.push("lockfileaddtodatadirsync"@);
}

/// Pushing these last listed wait events of `io` keeps a sequence increasing.
proof fn lemma_io_tail_1(s: Seq<Seq<char>>)
    requires
        strictly_increasing(s),
        s.len() > 0 ==> text_less(s.last(), "lockfileaddtodatadirwrite"@),
    ensures
        strictly_increasing(s.push("lockfileaddtodatadirwrite"@).push("lockfilecreateread"@).push("lockfilecreatesync"@).push("lockfilecreatewrite"@).push("lockfilerecheckdatadirread"@).push("logicalrewritecheckpointsync"@).push("logicalrewritemappingsync"@).push("logicalrewritemappingwrite"@).push("logicalrewritesync"@).push("logicalrewritetruncate"@)),
{
    reveal_strlit("lockfileaddtodatadirwrite");
    reveal_strlit("lockfilecreateread");
    reveal_strlit("lockfilecreatesync");
    reveal_strlit("lockfilecreatewrite");
    reveal_strlit("lockfilerecheckdatadirread");
    reveal_strlit("logicalrewritecheckpointsync");
    reveal_strlit("logicalrewritemappingsync");
    reveal_strlit("logicalrewritemappingwrite");
    reveal_strlit("logicalrewritesync");
    reveal_strlit("logicalrewritetruncate");
    let s0 = s;
    lemma_push_increasing(s0, "lockfileaddtodatadirwrite"@);
    let s1 = s0.push("lockfileaddtodatadirwrite"@);
    assert(text_less("lockfileaddtodatadirwrite"@, "lockfilecreateread"@)) by {
        reveal_with_fuel(text_less, 10);
    }
    lemma_push_increasing(s1, "lockfilecreateread"@);
    let s2 = s1.push("lockfilecreateread"@);
    assert(text_less("lockfilecreateread"@, "lockfilecreatesync"@)) by {
        reveal_with_fuel(text_less, 16);
    }
    lemma_push_increasing(s2, "lockfilecreatesync"@);
    let s3 = s2.push("lockfilecreatesync"@);
    assert(text_less("lockfilecreatesync"@, "lockfilecreatewrite"@)) by {
        reveal_with_fuel(text_less, 16);
    }
    lemma_push_increasing(s3, "lockfilecreatewrite"@);
    let s4 = s3.push("lockfilecreatewrite"@);
    assert(text_less("lockfilecreatewrite"@, "lockfilerecheckdatadirread"@)) by {
        reveal_with_fuel(text_less, 10);
    }
    lemma_push_increasing(s4, "lockfilerecheckdatadirread"@);
    let s5 = s4.push("lockfilerecheckdatadirread"@);
    assert(text_less("lockfilerecheckdatadirread"@, "logicalrewritecheckpointsync"@)) by {
        reveal_with_fuel(text_less, 4);
    }
    lemma_push_increasing(s5, "logicalrewritecheckpointsync"@);
    let s6 = s5.push("logicalrewritecheckpointsync"@);
    assert(text_less("logicalrewritecheckpointsync"@, "logicalrewritemappingsync"@)) by {
        reveal_with_fuel(text_less, 16);
    }
    lemma_push_increasing(s6, "logicalrewritemappingsync"@);
    let s7 = s6.push("logicalrewritemappingsync"@);
    assert(text_less("logicalrewritemappingsync"@, "logicalrewritemappingwrite"@)) by {
        reveal_with_fuel(text_less, 23);
    }
    lemma_push_increasing(s7, "logicalrewritemappingwrite"@);
    let s8 = s7.push("logicalrewritemappingwrite"@);
    assert(text_less("logicalrewritemappingwrite"@, "logicalrewritesync"@)) by {
        reveal_with_fuel(text_less, 16);
    }
    lemma_push_increasing(s8, "logicalrewritesync"@);
    let s9 = s8.push("logicalrewritesync"@);
    assert(text_less("logicalrewritesync"@, "logicalrewritetruncate"@)) by {
        reveal_with_fuel(text_less, 16);
    }
    lemma_push_increasing(s9, "logicalrewritetruncate"@);
    let s10 = s9.push("logicalrewritetruncate"@);
}

/// Pushing these last listed wait events of `io` keeps a sequence increasing.
proof fn lemma_io_tail_2(s: Seq<Seq<char>>)
    requires
        strictly_increasing(s),
        s.len() > 0 ==> text_less(s.last(), "logicalrewritewrite"@),
    ensures
        strictly_increasing(s.push("logicalrewritewrite"@).push("relationmapread"@).push("relationmapreplace"@).push("relationmapwrite"@).push("reorderbufferread"@).push("reorderbufferwrite"@).push("reorderlogicalmappingread"@).push("replicationslotread"@).push("replicationslotrestoresync"@).push("replicationslotsync"@)),
{
    reveal_strlit("logicalrewritewrite");
    reveal_strlit("relationmapread");
    reveal_strlit("relationmapreplace");
    reveal_strlit("relationmapwrite");
    reveal_strlit("reorderbufferread");
    reveal_strlit("reorderbufferwrite");
    reveal_strlit("reorderlogicalmappingread");
    reveal_strlit("replicationslotread");
    reveal_strlit("replicationslotrestoresync");
    reveal_strlit("replicationslotsync");
    let s0 = s;
    lemma_push_increasing(s0, "logicalrewritewrite"@);
    let s1 = s0.push("logicalrewritewrite"@);
    assert(text_less("logicalrewritewrite"@, "relationmapread"@)) by {
        reveal_with_fuel(text_less, 2);
    }
    lemma_push_increasing(s1, "relationmapread"@);
    let s2 = s1.push("relationmapread"@);
    assert(text_less("relationmapread"@, "relationmapreplace"@)) by {
        reveal_with_fuel(text_less, 15);
    }
    lemma_push_increasing(s2, "relationmapreplace"@);
    let s3 = s2.push("relationmapreplace"@);
    assert(text_less("relationmapreplace"@, "relationmapwrite"@)) by {
        reveal_with_fuel(text_less, 13);
    }
    lemma_push_increasing(s3, "relationmapwrite"@);
    let s4 = s3.push("relationmapwrite"@);
    assert(text_less("relationmapwrite"@, "reorderbufferread"@)) by {
        reveal_with_fuel(text_less, 4);
    }
    lemma_push_increasing(s4, "reorderbufferread"@);
    let s5 = s4.push("reorderbufferread"@);
    assert(text_less("reorderbufferread"@, "reorderbufferwrite"@)) by {
        reveal_with_fuel(text_less, 15);
    }
    lemma_push_increasing(s5, "reorderbufferwrite"@);
    let s6 = s5.push("reorderbufferwrite"@);
    assert(text_less("reorderbufferwrite"@, "reorderlogicalmappingread"@)) by {
        reveal_with_fuel(text_less, 9);
    }
    lemma_push_increasing(s6, "reorderlogicalmappingread"@);
    let s7 = s6.push("reorderlogicalmappingread"@);
    assert(text_less("reorderlogicalmappingread"@, "replicationslotread"@)) by {
        reveal_with_fuel(text_less, 4);
    }
    lemma_push_increasing(s7, "replicationslotread"@);
    let s8 = s7.push("replicationslotread"@);
    assert(text_less("replicationslotread"@, "replicationslotrestoresync"@)) by {
        reveal_with_fuel(text_less, 19);
    }
    lemma_push_increasing(s8, "replicationslotrestoresync"@);
    let s9 = s8.push("replicationslotrestoresync"@);
    assert(text_less("replicationslotrestoresync"@, "replicationslotsync"@)) by {
        reveal_with_fuel(text_less, 17);
    }
    lemma_push_increasing(s9, "replicationslotsync"@);
    let s10 = s9.push("replicationslotsync"@);
}

/// Pushing these last listed wait events of `io` keeps a sequence increasing.
proof fn lemma_io_tail_3(s: Seq<Seq<char>>)
    requires
        strictly_increasing(s),
        s.len() > 0 ==> text_less(s.last(), "replicationslotwrite"@),
    ensures
        strictly_increasing(s.push("replicationslotwrite"@).push("slruflushsync"@).push("slruread"@).push("slrusync"@).push("slruwrite"@).push("snapbuildread"@).push("snapbuildsync"@).push("snapbuildwrite"@).push("timelinehistoryfilesync"@).push("timelinehistoryfilewrite"@)),
{
    reveal_strlit("replicationslotwrite");
    reveal_strlit("slruflushsync");
    reveal_strlit("slruread");
    reveal_strlit("slrusync");
    reveal_strlit("slruwrite");
    reveal_strlit("snapbuildread");
    reveal_strlit("snapbuildsync");
    reveal_strlit("snapbuildwrite");
    reveal_strlit("timelinehistoryfilesync");
    reveal_strlit("timelinehistoryfilewrite");
    let s0 = s;
    lemma_push_increasing(s0, "replicationslotwrite"@);
    let s1 = s0.push("replicationslotwrite"@);
    assert(text_less("replicationslotwrite"@, "slruflushsync"@)) by {
        reveal_with_fuel(text_less, 2);
    }
    lemma_push_increasing(s1, "slruflushsync"@);
    let s2 = s1.push("slruflushsync"@);
    assert(text_less("slruflushsync"@, "slruread"@)) by {
        reveal_with_fuel(text_less, 6);
    }
    lemma_push_increasing(s2, "slruread"@);
    let s3 = s2.push("slruread"@);
    assert(text_less("slruread"@, "slrusync"@)) by {
        reveal_with_fuel(text_less, 6);
    }
    lemma_push_increasing(s3, "slrusync"@);
    let s4 = s3.push("slrusync"@);
    assert(text_less("slrusync"@, "slruwrite"@)) by {
        reveal_with_fuel(text_less, 6);
    }
    lemma_push_increasing(s4, "slruwrite"@);
    let s5 = s4.push("slruwrite"@);
    assert(text_less("slruwrite"@, "snapbuildread"@)) by {
        reveal_with_fuel(text_less, 3);
    }
    lemma_push_increasing(s5, "snapbuildread"@);
    let s6 = s5.push("snapbuildread"@);
    assert(text_less("snapbuildread"@, "snapbuildsync"@)) by {
        reveal_with_fuel(text_less, 11);
    }
    lemma_push_increasing(s6, "snapbuildsync"@);
    let s7 = s6.push("snapbuildsync"@);
    assert(text_less("snapbuildsync"@, "snapbuildwrite"@)) by {
        reveal_with_fuel(text_less, 11);
    }
    lemma_push_increasing(s7, "snapbuildwrite"@);
    let s8 = s7.push("snapbuildwrite"@);
    assert(text_less("snapbuildwrite"@, "timelinehistoryfilesync"@)) by {
        reveal_with_fuel(text_less, 2);
    }
    lemma_push_increasing(s8, "timelinehistoryfilesync"@);
    let s9 = s8.push("timelinehistoryfilesync"@);
    assert(text_less("timelinehistoryfilesync"@, "timelinehistoryfilewrite"@)) by {
        reveal_with_fuel(text_less, 21);
    }
    lemma_push_increasing(s9, "timelinehistoryfilewrite"@);
    let s10 = s9.push("timelinehistoryfilewrite"@);
}

/// Pushing these last listed wait events of `io` keeps a sequence increasing.
proof fn lemma_io_tail_4(s: Seq<Seq<char>>)
    requires
        strictly_increasing(s),
        s.len() > 0 ==> text_less(s.last(), "timelinehistoryread"@),
    ensures
        strictly_increasing(s.push("timelinehistoryread"@).push("timelinehistorysync"@).push("timelinehistorywrite"@).push("twophasefileread"@).push("twophasefilesync"@).push("twophasefilewrite"@).push("versionfilesync"@).push("versionfilewrite"@).push("walbootstrapsync"@).push("walbootstrapwrite"@)),
{
    reveal_strlit("timelinehistoryread");
    reveal_strlit("timelinehistorysync");
    reveal_strlit("timelinehistorywrite");
    reveal_strlit("twophasefileread");
    reveal_strlit("twophasefilesync");
    reveal_strlit("twophasefilewrite");
    reveal_strlit("versionfilesync");
    reveal_strlit("versionfilewrite");
    reveal_strlit("walbootstrapsync");
    reveal_strlit("walbootstrapwrite");
    let s0 = s;
    lemma_push_increasing(s0, "timelinehistoryread"@);
    let s1 = s0.push("timelinehistoryread"@);
    assert(text_less("timelinehistoryread"@, "timelinehistorysync"@)) by {
        reveal_with_fuel(text_less, 17);
    }
    lemma_push_increasing(s1, "timelinehistorysync"@);
    let s2 = s1.push("timelinehistorysync"@);
    assert(text_less("timelinehistorysync"@, "timelinehistorywrite"@)) by {
        reveal_with_fuel(text_less, 17);
    }
    lemma_push_increasing(s2, "timelinehistorywrite"@);
    let s3 = s2.push("timelinehistorywrite"@);
    assert(text_less("timelinehistorywrite"@, "twophasefileread"@)) by {
        reveal_with_fuel(text_less, 3);
    }
    lemma_push_increasing(s3, "twophasefileread"@);
    let s4 = s3.push("twophasefileread"@);
    assert(text_less("twophasefileread"@, "twophasefilesync"@)) by {
        reveal_with_fuel(text_less, 14);
    }
    lemma_push_increasing(s4, "twophasefilesync"@);
    let s5 = s4.push("twophasefilesync"@);
    assert(text_less("twophasefilesync"@, "twophasefilewrite"@)) by {
        reveal_with_fuel(text_less, 14);
    }
    lemma_push_increasing(s5, "twophasefilewrite"@);
    let s6 = s5.push("twophasefilewrite"@);
    assert(text_less("twophasefilewrite"@, "versionfilesync"@)) by {
        reveal_with_fuel(text_less, 2);
    }
    lemma_push_increasing(s6, "versionfilesync"@);
    let s7 = s6.push("versionfilesync"@);
    assert(text_less("versionfilesync"@, "versionfilewrite"@)) by {
        reveal_with_fuel(text_less, 13);
    }
    lemma_push_increasing(s7, "versionfilewrite"@);
    let s8 = s7.push("versionfilewrite"@);
    assert(text_less("versionfilewrite"@, "walbootstrapsync"@)) by {
        reveal_with_fuel(text_less, 2);
    }
    lemma_push_increasing(s8, "walbootstrapsync"@);
    let s9 = s8.push("walbootstrapsync"@);
    assert(text_less("walbootstrapsync"@, "walbootstrapwrite"@)) by {
        reveal_with_fuel(text_less, 14);
    }
    lemma_push_increasing(s9, "walbootstrapwrite"@);
    let s10 = s9.push("walbootstrapwrite"@);
}

/// Pushing these last listed wait events of `io` keeps a sequence increasing.
proof fn lemma_io_tail_5(s: Seq<Seq<char>>)
    requires
        strictly_increasing(s),
        s.len() > 0 ==> text_less(s.last(), "walcopyread"@),
    ensures
        strictly_increasing(s.push("walcopyread"@).push("walcopysync"@).push("walcopywrite"@).push("walinitsync"@).push("walinitwrite"@).push("walread"@).push("walsendertimelinehistoryread"@).push("walsync"@).push("walsyncmethodassign"@).push("walwrite"@)),
{
    reveal_strlit("walcopyread");
    reveal_strlit("walcopysync");
    reveal_strlit("walcopywrite");
    reveal_strlit("walinitsync");
    reveal_strlit("walinitwrite");
    reveal_strlit("walread");
    reveal_strlit("walsendertimelinehistoryread");
    reveal_strlit("walsync");
    reveal_strlit("walsyncmethodassign");
    reveal_strlit("walwrite");
    let s0 = s;
    lemma_push_increasing(s0, "walcopyread"@);
    let s1 = s0.push("walcopyread"@);
    assert(text_less("walcopyread"@, "walcopysync"@)) by {
        reveal_with_fuel(text_less, 9);
    }
    lemma_push_increasing(s1, "walcopysync"@);
    let s2 = s1.push("walcopysync"@);
    assert(text_less("walcopysync"@, "walcopywrite"@)) by {
        reveal_with_fuel(text_less, 9);
    }
    lemma_push_increasing(s2, "walcopywrite"@);
    let s3 = s2.push("walcopywrite"@);
    assert(text_less("walcopywrite"@, "walinitsync"@)) by {
        reveal_with_fuel(text_less, 5);
    }
    lemma_push_increasing(s3, "walinitsync"@);
    let s4 = s3.push("walinitsync"@);
    assert(text_less("walinitsync"@, "walinitwrite"@)) by {
        reveal_with_fuel(text_less, 9);
    }
    lemma_push_increasing(s4, "walinitwrite"@);
    let s5 = s4.push("walinitwrite"@);
    assert(text_less("walinitwrite"@, "walread"@)) by {
        reveal_with_fuel(text_less, 5);
    }
    lemma_push_increasing(s5, "walread"@);
    let s6 = s5.push("walread"@);
    assert(text_less("walread"@, "walsendertimelinehistoryread"@)) by {
        reveal_with_fuel(text_less, 5);
    }
    lemma_push_increasing(s6, "walsendertimelinehistoryread"@);
    let s7 = s6.push("walsendertimelinehistoryread"@);
    assert(text_less("walsendertimelinehistoryread"@, "walsync"@)) by {
        reveal_with_fuel(text_less, 6);
    }
    lemma_push_increasing(s7, "walsync"@);
    let s8 = s7.push("walsync"@);
    assert(text_less("walsync"@, "walsyncmethodassign"@)) by {
        reveal_with_fuel(text_less, 9);
    }
    lemma_push_increasing(s8, "walsyncmethodassign"@);
    let s9 = s8.push("walsyncmethodassign"@);
    assert(text_less("walsyncmethodassign"@, "walwrite"@)) by {
        reveal_with_fuel(text_less, 5);
    }
    lemma_push_increasing(s9, "walwrite"@);
    let s10 = s9.push("walwrite"@);
}

/// These wait events of `io` are not among its first listed ones, `a`.
proof fn lemma_io_apart_0(a: Seq<Seq<char>>)
    requires
        strictly_increasing(a),
        a.len() == 15,
        a[12] == "copyfilewrite"@,
        a[13] == "dsmallocate"@,
        a[14] == "dsmfillzerowrite"@,
    ensures
        !a.contains("datafileextend"@),
        !a.contains("datafileflush"@),
        !a.contains("datafileimmediatesync"@),
        !a.contains("datafileprefetch"@),
        !a.contains("datafileread"@),
        !a.contains("datafilesync"@),
        !a.contains("datafiletruncate"@),
        !a.contains("datafilewrite"@),
        !a.contains("lockfileaddtodatadirread"@),
        !a.contains("lockfileaddtodatadirsync"@),
{
    reveal_strlit("copyfilewrite");
    reveal_strlit("datafileextend");
    reveal_strlit("datafileflush");
    reveal_strlit("datafileimmediatesync");
    reveal_strlit("datafileprefetch");
    reveal_strlit("datafileread");
    reveal_strlit("datafilesync");
    reveal_strlit("datafiletruncate");
    reveal_strlit("datafilewrite");
    reveal_strlit("dsmallocate");
    reveal_strlit("dsmfillzerowrite");
    reveal_strlit("lockfileaddtodatadirread");
    reveal_strlit("lockfileaddtodatadirsync");
    assert(text_less("copyfilewrite"@, "datafileextend"@)) by {
        reveal_with_fuel(text_less, 2);
    }
    assert(text_less("datafileextend"@, "dsmallocate"@)) by {
        reveal_with_fuel(text_less, 3);
    }
    lemma_not_in_increasing(a, "datafileextend"@, 13);
    assert(text_less("copyfilewrite"@, "datafileflush"@)) by {
        reveal_with_fuel(text_less, 2);
    }
    assert(text_less("datafileflush"@, "dsmallocate"@)) by {
        reveal_with_fuel(text_less, 3);
    }
    lemma_not_in_increasing(a, "datafileflush"@, 13);
    assert(text_less("copyfilewrite"@, "datafileimmediatesync"@)) by {
        reveal_with_fuel(text_less, 2);
    }
    assert(text_less("datafileimmediatesync"@, "dsmallocate"@)) by {
        reveal_with_fuel(text_less, 3);
    }
    lemma_not_in_increasing(a, "datafileimmediatesync"@, 13);
    assert(text_less("copyfilewrite"@, "datafileprefetch"@)) by {
        reveal_with_fuel(text_less, 2);
    }
    assert(text_less("datafileprefetch"@, "dsmallocate"@)) by {
        reveal_with_fuel(text_less, 3);
    }
    lemma_not_in_increasing(a, "datafileprefetch"@, 13);
    assert(text_less("copyfilewrite"@, "datafileread"@)) by {
        reveal_with_fuel(text_less, 2);
    }
    assert(text_less("datafileread"@, "dsmallocate"@)) by {
        reveal_with_fuel(text_less, 3);
    }
    lemma_not_in_increasing(a, "datafileread"@, 13);
    assert(text_less("copyfilewrite"@, "datafilesync"@)) by {
        reveal_with_fuel(text_less, 2);
    }
    assert(text_less("datafilesync"@, "dsmallocate"@)) by {
        reveal_with_fuel(text_less, 3);
    }
    lemma_not_in_increasing(a, "datafilesync"@, 13);
    assert(text_less("copyfilewrite"@, "datafiletruncate"@)) by {
        reveal_with_fuel(text_less, 2);
    }
    assert(text_less("datafiletruncate"@, "dsmallocate"@)) by {
        reveal_with_fuel(text_less, 3);
    }
    lemma_not_in_increasing(a, "datafiletruncate"@, 13);
    assert(text_less("copyfilewrite"@, "datafilewrite"@)) by {
        reveal_with_fuel(text_less, 2);
    }
    assert(text_less("datafilewrite"@, "dsmallocate"@)) by {
        reveal_with_fuel(text_less, 3);
    }
    lemma_not_in_increasing(a, "datafilewrite"@, 13);
    assert(text_less("dsmfillzerowrite"@, "lockfileaddtodatadirread"@)) by {
        reveal_with_fuel(text_less, 2);
    }
    lemma_not_in_increasing(a, "lockfileaddtodatadirread"@, 15);
    assert(text_less("dsmfillzerowrite"@, "lockfileaddtodatadirsync"@)) by {
        reveal_with_fuel(text_less, 2);
    }
    lemma_not_in_increasing(a, "lockfileaddtodatadirsync"@, 15);
}

/// These wait events of `io` are not among its first listed ones, `a`.
proof fn lemma_io_apart_1(a: Seq<Seq<char>>)
    requires
        strictly_increasing(a),
        a.len() == 15,
        a[14] == "dsmfillzerowrite"@,
    ensures
        !a.contains("lockfileaddtodatadirwrite"@),
        !a.contains("lockfilecreateread"@),
        !a.contains("lockfilecreatesync"@),
        !a.contains("lockfilecreatewrite"@),
        !a.contains("lockfilerecheckdatadirread"@),
        !a.contains("logicalrewritecheckpointsync"@),
        !a.contains("logicalrewritemappingsync"@),
        !a.contains("logicalrewritemappingwrite"@),
        !a.contains("logicalrewritesync"@),
        !a.contains("logicalrewritetruncate"@),
{
    reveal_strlit("dsmfillzerowrite");
    reveal_strlit("lockfileaddtodatadirwrite");
    reveal_strlit("lockfilecreateread");
    reveal_strlit("lockfilecreatesync");
    reveal_strlit("lockfilecreatewrite");
    reveal_strlit("lockfilerecheckdatadirread");
    reveal_strlit("logicalrewritecheckpointsync");
    reveal_strlit("logicalrewritemappingsync");
    reveal_strlit("logicalrewritemappingwrite");
    reveal_strlit("logicalrewritesync");
    reveal_strlit("logicalrewritetruncate");
    assert(text_less("dsmfillzerowrite"@, "lockfileaddtodatadirwrite"@)) by {
        reveal_with_fuel(text_less, 2);
    }
    lemma_not_in_increasing(a, "lockfileaddtodatadirwrite"@, 15);
    assert(text_less("dsmfillzerowrite"@, "lockfilecreateread"@)) by {
        reveal_with_fuel(text_less, 2);
    }
    lemma_not_in_increasing(a, "lockfilecreateread"@, 15);
    assert(text_less("dsmfillzerowrite"@, "lockfilecreatesync"@)) by {
        reveal_with_fuel(text_less, 2);
    }
    lemma_not_in_increasing(a, "lockfilecreatesync"@, 15);
    assert(text_less("dsmfillzerowrite"@, "lockfilecreatewrite"@)) by {
        reveal_with_fuel(text_less, 2);
    }
    lemma_not_in_increasing(a, "lockfilecreatewrite"@, 15);
    assert(text_less("dsmfillzerowrite"@, "lockfilerecheckdatadirread"@)) by {
        reveal_with_fuel(text_less, 2);
    }
    lemma_not_in_increasing(a, "lockfilerecheckdatadirread"@, 15);
    assert(text_less("dsmfillzerowrite"@, "logicalrewritecheckpointsync"@)) by {
        reveal_with_fuel(text_less, 2);
    }
    lemma_not_in_increasing(a, "logicalrewritecheckpointsync"@, 15);
    assert(text_less("dsmfillzerowrite"@, "logicalrewritemappingsync"@)) by {
        reveal_with_fuel(text_less, 2);
    }
    lemma_not_in_increasing(a, "logicalrewritemappingsync"@, 15);
    assert(text_less("dsmfillzerowrite"@, "logicalrewritemappingwrite"@)) by {
        reveal_with_fuel(text_less, 2);
    }
    lemma_not_in_increasing(a, "logicalrewritemappingwrite"@, 15);
    assert(text_less("dsmfillzerowrite"@, "logicalrewritesync"@)) by {
        reveal_with_fuel(text_less, 2);
    }
    lemma_not_in_increasing(a, "logicalrewritesync"@, 15);
    assert(text_less("dsmfillzerowrite"@, "logicalrewritetruncate"@)) by {
        reveal_with_fuel(text_less, 2);
    }
    lemma_not_in_increasing(a, "logicalrewritetruncate"@, 15);
}

/// These wait events of `io` are not among its first listed ones, `a`.
proof fn lemma_io_apart_2(a: Seq<Seq<char>>)
    requires
        strictly_increasing(a),
        a.len() == 15,
        a[14] == "dsmfillzerowrite"@,
    ensures
        !a.contains("logicalrewritewrite"@),
        !a.contains("relationmapread"@),
        !a.contains("relationmapreplace"@),
        !a.contains("relationmapwrite"@),
        !a.contains("reorderbufferread"@),
        !a.contains("reorderbufferwrite"@),
        !a.contains("reorderlogicalmappingread"@),
        !a.contains("replicationslotread"@),
        !a.contains("replicationslotrestoresync"@),
        !a.contains("replicationslotsync"@),
{
    reveal_strlit("dsmfillzerowrite");
    reveal_strlit("logicalrewritewrite");
    reveal_strlit("relationmapread");
    reveal_strlit("relationmapreplace");
    reveal_strlit("relationmapwrite");
    reveal_strlit("reorderbufferread");
    reveal_strlit("reorderbufferwrite");
    reveal_strlit("reorderlogicalmappingread");
    reveal_strlit("replicationslotread");
    reveal_strlit("replicationslotrestoresync");
    reveal_strlit("replicationslotsync");
    assert(text_less("dsmfillzerowrite"@, "logicalrewritewrite"@)) by {
        reveal_with_fuel(text_less, 2);
    }
    lemma_not_in_increasing(a, "logicalrewritewrite"@, 15);
    assert(text_less("dsmfillzerowrite"@, "relationmapread"@)) by {
        reveal_with_fuel(text_less, 2);
    }
    lemma_not_in_increasing(a, "relationmapread"@, 15);
    assert(text_less("dsmfillzerowrite"@, "relationmapreplace"@)) by {
        reveal_with_fuel(text_less, 2);
    }
    lemma_not_in_increasing(a, "relationmapreplace"@, 15);
    assert(text_less("dsmfillzerowrite"@, "relationmapwrite"@)) by {
        reveal_with_fuel(text_less, 2);
    }
    lemma_not_in_increasing(a, "relationmapwrite"@, 15);
    assert(text_less("dsmfillzerowrite"@, "reorderbufferread"@)) by {
        reveal_with_fuel(text_less, 2);
    }
    lemma_not_in_increasing(a, "reorderbufferread"@, 15);
    assert(text_less("dsmfillzerowrite"@, "reorderbufferwrite"@)) by {
        reveal_with_fuel(text_less, 2);
    }
    lemma_not_in_increasing(a, "reorderbufferwrite"@, 15);
    assert(text_less("dsmfillzerowrite"@, "reorderlogicalmappingread"@)) by {
        reveal_with_fuel(text_less, 2);
    }
    lemma_not_in_increasing(a, "reorderlogicalmappingread"@, 15);
    assert(text_less("dsmfillzerowrite"@, "replicationslotread"@)) by {
        reveal_with_fuel(text_less, 2);
    }
    lemma_not_in_increasing(a, "replicationslotread"@, 15);
    assert(text_less("dsmfillzerowrite"@, "replicationslotrestoresync"@)) by {
        reveal_with_fuel(text_less, 2);
    }
    lemma_not_in_increasing(a, "replicationslotrestoresync"@, 15);
    assert(text_less("dsmfillzerowrite"@, "replicationslotsync"@)) by {
        reveal_with_fuel(text_less, 2);
    }
    lemma_not_in_increasing(a, "replicationslotsync"@, 15);
}

/// These wait events of `io` are not among its first listed ones, `a`.
proof fn lemma_io_apart_3(a: Seq<Seq<char>>)
    requires
        strictly_increasing(a),
        a.len() == 15,
        a[14] == "dsmfillzerowrite"@,
    ensures
        !a.contains("replicationslotwrite"@),
        !a.contains("slruflushsync"@),
        !a.contains("slruread"@),
        !a.contains("slrusync"@),
        !a.contains("slruwrite"@),
        !a.contains("snapbuildread"@),
        !a.contains("snapbuildsync"@),
        !a.contains("snapbuildwrite"@),
        !a.contains("timelinehistoryfilesync"@),
        !a.contains("timelinehistoryfilewrite"@),
{
    reveal_strlit("dsmfillzerowrite");
    reveal_strlit("replicationslotwrite");
    reveal_strlit("slruflushsync");
    reveal_strlit("slruread");
    reveal_strlit("slrusync");
    reveal_strlit("slruwrite");
    reveal_strlit("snapbuildread");
    reveal_strlit("snapbuildsync");
    reveal_strlit("snapbuildwrite");
    reveal_strlit("timelinehistoryfilesync");
    reveal_strlit("timelinehistoryfilewrite");
    assert(text_less("dsmfillzerowrite"@, "replicationslotwrite"@)) by {
        reveal_with_fuel(text_less, 2);
    }
    lemma_not_in_increasing(a, "replicationslotwrite"@, 15);
    assert(text_less("dsmfillzerowrite"@, "slruflushsync"@)) by {
        reveal_with_fuel(text_less, 2);
    }
    lemma_not_in_increasing(a, "slruflushsync"@, 15);
    assert(text_less("dsmfillzerowrite"@, "slruread"@)) by {
        reveal_with_fuel(text_less, 2);
    }
    lemma_not_in_increasing(a, "slruread"@, 15);
    assert(text_less("dsmfillzerowrite"@, "slrusync"@)) by {
        reveal_with_fuel(text_less, 2);
    }
    lemma_not_in_increasing(a, "slrusync"@, 15);
    assert(text_less("dsmfillzerowrite"@, "slruwrite"@)) by {
        reveal_with_fuel(text_less, 2);
    }
    lemma_not_in_increasing(a, "slruwrite"@, 15);
    assert(text_less("dsmfillzerowrite"@, "snapbuildread"@)) by {
        reveal_with_fuel(text_less, 2);
    }
    lemma_not_in_increasing(a, "snapbuildread"@, 15);
    assert(text_less("dsmfillzerowrite"@, "snapbuildsync"@)) by {
        reveal_with_fuel(text_less, 2);
    }
    lemma_not_in_increasing(a, "snapbuildsync"@, 15);
    assert(text_less("dsmfillzerowrite"@, "snapbuildwrite"@)) by {
        reveal_with_fuel(text_less, 2);
    }
    lemma_not_in_increasing(a, "snapbuildwrite"@, 15);
    assert(text_less("dsmfillzerowrite"@, "timelinehistoryfilesync"@)) by {
        reveal_with_fuel(text_less, 2);
    }
    lemma_not_in_increasing(a, "timelinehistoryfilesync"@, 15);
    assert(text_less("dsmfillzerowrite"@, "timelinehistoryfilewrite"@)) by {
        reveal_with_fuel(text_less, 2);
    }
    lemma_not_in_increasing(a, "timelinehistoryfilewrite"@, 15);
}

/// These wait events of `io` are not among its first listed ones, `a`.
proof fn lemma_io_apart_4(a: Seq<Seq<char>>)
    requires
        strictly_increasing(a),
        a.len() == 15,
        a[14] == "dsmfillzerowrite"@,
    ensures
        !a.contains("timelinehistoryread"@),
        !a.contains("timelinehistorysync"@),
        !a.contains("timelinehistorywrite"@),
        !a.contains("twophasefileread"@),
        !a.contains("twophasefilesync"@),
        !a.contains("twophasefilewrite"@),
        !a.contains("versionfilesync"@),
        !a.contains("versionfilewrite"@),
        !a.contains("walbootstrapsync"@),
        !a.contains("walbootstrapwrite"@),
{
    reveal_strlit("dsmfillzerowrite");
    reveal_strlit("timelinehistoryread");
    reveal_strlit("timelinehistorysync");
    reveal_strlit("timelinehistorywrite");
    reveal_strlit("twophasefileread");
    reveal_strlit("twophasefilesync");
    reveal_strlit("twophasefilewrite");
    reveal_strlit("versionfilesync");
    reveal_strlit("versionfilewrite");
    reveal_strlit("walbootstrapsync");
    reveal_strlit("walbootstrapwrite");
    assert(text_less("dsmfillzerowrite"@, "timelinehistoryread"@)) by {
        reveal_with_fuel(text_less, 2);
    }
    lemma_not_in_increasing(a, "timelinehistoryread"@, 15);
    assert(text_less("dsmfillzerowrite"@, "timelinehistorysync"@)) by {
        reveal_with_fuel(text_less, 2);
    }
    lemma_not_in_increasing(a, "timelinehistorysync"@, 15);
    assert(text_less("dsmfillzerowrite"@, "timelinehistorywrite"@)) by {
        reveal_with_fuel(text_less, 2);
    }
    lemma_not_in_increasing(a, "timelinehistorywrite"@, 15);
    assert(text_less("dsmfillzerowrite"@, "twophasefileread"@)) by {
        reveal_with_fuel(text_less, 2);
    }
    lemma_not_in_increasing(a, "twophasefileread"@, 15);
    assert(text_less("dsmfillzerowrite"@, "twophasefilesync"@)) by {
        reveal_with_fuel(text_less, 2);
    }
    lemma_not_in_increasing(a, "twophasefilesync"@, 15);
    assert(text_less("dsmfillzerowrite"@, "twophasefilewrite"@)) by {
        reveal_with_fuel(text_less, 2);
    }
    lemma_not_in_increasing(a, "twophasefilewrite"@, 15);
    assert(text_less("dsmfillzerowrite"@, "versionfilesync"@)) by {
        reveal_with_fuel(text_less, 2);
    }
    lemma_not_in_increasing(a, "versionfilesync"@, 15);
    assert(text_less("dsmfillzerowrite"@, "versionfilewrite"@)) by {
        reveal_with_fuel(text_less, 2);
    }
    lemma_not_in_increasing(a, "versionfilewrite"@, 15);
    assert(text_less("dsmfillzerowrite"@, "walbootstrapsync"@)) by {
        reveal_with_fuel(text_less, 2);
    }
    lemma_not_in_increasing(a, "walbootstrapsync"@, 15);
    assert(text_less("dsmfillzerowrite"@, "walbootstrapwrite"@)) by {
        reveal_with_fuel(text_less, 2);
    }
    lemma_not_in_increasing(a, "walbootstrapwrite"@, 15);
}

/// These wait events of `io` are not among its first listed ones, `a`.
proof fn lemma_io_apart_5(a: Seq<Seq<char>>)
    requires
        strictly_increasing(a),
        a.len() == 15,
        a[14] == "dsmfillzerowrite"@,
    ensures
        !a.contains("walcopyread"@),
        !a.contains("walcopysync"@),
        !a.contains("walcopywrite"@),
        !a.contains("walinitsync"@),
        !a.contains("walinitwrite"@),
        !a.contains("walread"@),
        !a.contains("walsendertimelinehistoryread"@),
        !a.contains("walsync"@),
        !a.contains("walsyncmethodassign"@),
        !a.contains("walwrite"@),
{
    reveal_strlit("dsmfillzerowrite");
    reveal_strlit("walcopyread");
    reveal_strlit("walcopysync");
    reveal_strlit("walcopywrite");
    reveal_strlit("walinitsync");
    reveal_strlit("walinitwrite");
    reveal_strlit("walread");
    reveal_strlit("walsendertimelinehistoryread");
    reveal_strlit("walsync");
    reveal_strlit("walsyncmethodassign");
    reveal_strlit("walwrite");
    assert(text_less("dsmfillzerowrite"@, "walcopyread"@)) by {
        reveal_with_fuel(text_less, 2);
    }
    lemma_not_in_increasing(a, "walcopyread"@, 15);
    assert(text_less("dsmfillzerowrite"@, "walcopysync"@)) by {
        reveal_with_fuel(text_less, 2);
    }
    lemma_not_in_increasing(a, "walcopysync"@, 15);
    assert(text_less("dsmfillzerowrite"@, "walcopywrite"@)) by {
        reveal_with_fuel(text_less, 2);
    }
    lemma_not_in_increasing(a, "walcopywrite"@, 15);
    assert(text_less("dsmfillzerowrite"@, "walinitsync"@)) by {
        reveal_with_fuel(text_less, 2);
    }
    lemma_not_in_increasing(a, "walinitsync"@, 15);
    assert(text_less("dsmfillzerowrite"@, "walinitwrite"@)) by {
        reveal_with_fuel(text_less, 2);
    }
    lemma_not_in_increasing(a, "walinitwrite"@, 15);
    assert(text_less("dsmfillzerowrite"@, "walread"@)) by {
        reveal_with_fuel(text_less, 2);
    }
    lemma_not_in_increasing(a, "walread"@, 15);
    assert(text_less("dsmfillzerowrite"@, "walsendertimelinehistoryread"@)) by {
        reveal_with_fuel(text_less, 2);
    }
    lemma_not_in_increasing(a, "walsendertimelinehistoryread"@, 15);
    assert(text_less("dsmfillzerowrite"@, "walsync"@)) by {
        reveal_with_fuel(text_less, 2);
    }
    lemma_not_in_increasing(a, "walsync"@, 15);
    assert(text_less("dsmfillzerowrite"@, "walsyncmethodassign"@)) by {
        reveal_with_fuel(text_less, 2);
    }
    lemma_not_in_increasing(a, "walsyncmethodassign"@, 15);
    assert(text_less("dsmfillzerowrite"@, "walwrite"@)) by {
        reveal_with_fuel(text_less, 2);
    }
    lemma_not_in_increasing(a, "walwrite"@, 15);
}

/// The wait events of `ipc`, other included, add up to the number of
/// active sessions waiting on `ipc`, as the breakdown by wait event type
/// counts them: every such session is counted once.
pub proof fn lemma_ipc_breakdown_sum(rows: Seq<PgStatActivity>)
    requires
        rows.len() <= usize::MAX,
    ensures
        seq_sum(PgWaitTypeIPC::from_sessions(rows).value_seq()) == count_sessions(
            rows,
            SessionFilter::WaitType("ipc"@),
        ),
        seq_sum(PgWaitTypeIPC::from_sessions(rows).value_seq()) == PgCurrentWaitTypes::from_sessions(
            rows,
        ).ipc,
{
    lemma_ipc_events_distinct();
    lemma_count_bound(rows, SessionFilter::WaitType("ipc"@));
    lemma_breakdown_sum(rows, "ipc"@, ipc_wait_events(), PgWaitTypeIPC::from_sessions(rows).value_seq());
}

/// The wait events that [`PgWaitTypeIPC`] counts one by one are pairwise different.
proof fn lemma_ipc_events_distinct()
    ensures
        ipc_wait_events().no_duplicates(),
{
    let s0 = Seq::<Seq<char>>::empty();
    lemma_ipc_run_0(s0);
    let s1 = s0.push("appendready"@).push("archivecleanupcommand"@).push("archivecommand"@).push("backendtermination"@).push("backupwaitwalarchive"@).push("bgworkershutdown"@).push("bgworkerstartup"@).push("btreepage"@).push("bufferio"@).push("checkpointdone"@);
    reveal_strlit("checkpointdone");
    reveal_strlit("checkpointstart");
    assert(text_less("checkpointdone"@, "checkpointstart"@)) by {
        reveal_with_fuel(text_less, 12);
    }
    lemma_ipc_run_1(s1);
    let s2 = s1.push("checkpointstart"@).push("executegather"@).push("hashbatchallocate"@).push("hashbatchelect"@).push("hashbatchload"@).push("hashbuildallocate"@).push("hashbuildelect"@).push("hashbuildhashinner"@).push("hashbuildhashouter"@).push("hashgrowbatchesdecide"@);
    reveal_strlit("hashgrowbatchesdecide");
    reveal_strlit("hashgrowbatcheselect");
    assert(text_less("hashgrowbatchesdecide"@, "hashgrowbatcheselect"@)) by {
        reveal_with_fuel(text_less, 17);
    }
    lemma_ipc_run_2(s2);
    let s3 = s2.push("hashgrowbatcheselect"@).push("hashgrowbatchesfinish"@).push("hashgrowbatchesreallocate"@).push("hashgrowbatchesrepartition"@).push("hashgrowbucketselect"@).push("hashgrowbucketsreallocate"@).push("hashgrowbucketsreinsert"@).push("logicalapplysenddata"@).push("logicalparallelapplystatechange"@).push("logicalsyncdata"@);
    reveal_strlit("logicalsyncdata");
    reveal_strlit("logicalsyncstatechange");
    assert(text_less("logicalsyncdata"@, "logicalsyncstatechange"@)) by {
        reveal_with_fuel(text_less, 13);
    }
    lemma_ipc_run_3(s3);
    let s4 = s3.push("logicalsyncstatechange"@).push("messagequeueinternal"@).push("messagequeueputmessage"@).push("messagequeuereceive"@).push("messagequeuesend"@).push("parallelbitmapscan"@).push("parallelcreateindexscan"@).push("parallelfinish"@).push("procarraygroupupdate"@).push("procsignalbarrier"@);
    reveal_strlit("procsignalbarrier");
    reveal_strlit("promote");
    assert(text_less("procsignalbarrier"@, "promote"@)) by {
        reveal_with_fuel(text_less, 5);
    }
    lemma_ipc_run_4(s4);
    let s5 = s4.push("promote"@).push("recoveryconflictsnapshot"@).push("recoveryconflicttablespace"@).push("recoveryendcommand"@).push("recoverypause"@).push("replicationorigindrop"@).push("replicationslotdrop"@).push("restorecommand"@).push("safesnapshot"@).push("syncrep"@);
    reveal_strlit("syncrep");
    reveal_strlit("walreceiverexit");
    assert(text_less("syncrep"@, "walreceiverexit"@)) by {
        reveal_with_fuel(text_less, 2);
    }
    lemma_ipc_run_5(s5);
    let s6 = s5.push("walreceiverexit"@).push("walreceiverwaitstart"@).push("xactgroupupdate"@);
    lemma_increasing_no_duplicates(s6);
    assert(s6 =~= ipc_wait_events());
}

/// Pushing these listed wait events of `ipc` keeps a sequence increasing.
proof fn lemma_ipc_run_0(s: Seq<Seq<char>>)
    requires
        strictly_increasing(s),
        s.len() > 0 ==> text_less(s.last(), "appendready"@),
    ensures
        strictly_increasing(s.push("appendready"@).push("archivecleanupcommand"@).push("archivecommand"@).push("backendtermination"@).push("backupwaitwalarchive"@).push("bgworkershutdown"@).push("bgworkerstartup"@).push("btreepage"@).push("bufferio"@).push("checkpointdone"@)),
{
    reveal_strlit("appendready");
    reveal_strlit("archivecleanupcommand");
    reveal_strlit("archivecommand");
    reveal_strlit("backendtermination");
    reveal_strlit("backupwaitwalarchive");
    reveal_strlit("bgworkershutdown");
    reveal_strlit("bgworkerstartup");
    reveal_strlit("btreepage");
    reveal_strlit("bufferio");
    reveal_strlit("checkpointdone");
    let s0 = s;
    lemma_push_increasing(s0, "appendready"@);
    let s1 = s0.push("appendready"@);
    assert(text_less("appendready"@, "archivecleanupcommand"@)) by {
        reveal_with_fuel(text_less, 3);
    }
    lemma_push_increasing(s1, "archivecleanupcommand"@);
    let s2 = s1.push("archivecleanupcommand"@);
    assert(text_less("archivecleanupcommand"@, "archivecommand"@)) by {
        reveal_with_fuel(text_less, 10);
    }
    lemma_push_increasing(s2, "archivecommand"@);
    let s3 = s2.push("archivecommand"@);
    assert(text_less("archivecommand"@, "backendtermination"@)) by {
        reveal_with_fuel(text_less, 2);
    }
    lemma_push_increasing(s3, "backendtermination"@);
    let s4 = s3.push("backendtermination"@);
    assert(text_less("backendtermination"@, "backupwaitwalarchive"@)) by {
        reveal_with_fuel(text_less, 6);
    }
    lemma_push_increasing(s4, "backupwaitwalarchive"@);
    let s5 = s4.push("backupwaitwalarchive"@);
    assert(text_less("backupwaitwalarchive"@, "bgworkershutdown"@)) by {
        reveal_with_fuel(text_less, 3);
    }
    lemma_push_increasing(s5, "bgworkershutdown"@);
    let s6 = s5.push("bgworkershutdown"@);
    assert(text_less("bgworkershutdown"@, "bgworkerstartup"@)) by {
        reveal_with_fuel(text_less, 11);
    }
    lemma_push_increasing(s6, "bgworkerstartup"@);
    let s7 = s6.push("bgworkerstartup"@);
    assert(text_less("bgworkerstartup"@, "btreepage"@)) by {
        reveal_with_fuel(text_less, 3);
    }
    lemma_push_increasing(s7, "btreepage"@);
    let s8 = s7.push("btreepage"@);
    assert(text_less("btreepage"@, "bufferio"@)) by {
        reveal_with_fuel(text_less, 3);
    }
    lemma_push_increasing(s8, "bufferio"@);
    let s9 = s8.push("bufferio"@);
    assert(text_less("bufferio"@, "checkpointdone"@)) by {
        reveal_with_fuel(text_less, 2);
    }
    lemma_push_increasing(s9, "checkpointdone"@);
    let s10 = s9.push("checkpointdone"@);
}

/// Pushing these listed wait events of `ipc` keeps a sequence increasing.
proof fn lemma_ipc_run_1(s: Seq<Seq<char>>)
    requires
        strictly_increasing(s),
        s.len() > 0 ==> text_less(s.last(), "checkpointstart"@),
    ensures
        strictly_increasing(s.push("checkpointstart"@).push("executegather"@).push("hashbatchallocate"@).push("hashbatchelect"@).push("hashbatchload"@).push("hashbuildallocate"@).push("hashbuildelect"@).push("hashbuildhashinner"@).push("hashbuildhashouter"@).push("hashgrowbatchesdecide"@)),
{
    reveal_strlit("checkpointstart");
    reveal_strlit("executegather");
    reveal_strlit("hashbatchallocate");
    reveal_strlit("hashbatchelect");
    reveal_strlit("hashbatchload");
    reveal_strlit("hashbuildallocate");
    reveal_strlit("hashbuildelect");
    reveal_strlit("hashbuildhashinner");
    reveal_strlit("hashbuildhashouter");
    reveal_strlit("hashgrowbatchesdecide");
    let s0 = s;
    lemma_push_increasing(s0, "checkpointstart"@);
    let s1 = s0.push("checkpointstart"@);
    assert(text_less("checkpointstart"@, "executegather"@)) by {
        reveal_with_fuel(text_less, 2);
    }
    lemma_push_increasing(s1, "executegather"@);
    let s2 = s1.push("executegather"@);
    assert(text_less("executegather"@, "hashbatchallocate"@)) by {
        reveal_with_fuel(text_less, 2);
    }
    lemma_push_increasing(s2, "hashbatchallocate"@);
    let s3 = s2.push("hashbatchallocate"@);
    assert(text_less("hashbatchallocate"@, "hashbatchelect"@)) by {
        reveal_with_fuel(text_less, 11);
    }
    lemma_push_increasing(s3, "hashbatchelect"@);
    let s4 = s3.push("hashbatchelect"@);
    assert(text_less("hashbatchelect"@, "hashbatchload"@)) by {
        reveal_with_fuel(text_less, 11);
    }
    lemma_push_increasing(s4, "hashbatchload"@);
    let s5 = s4.push("hashbatchload"@);
    assert(text_less("hashbatchload"@, "hashbuildallocate"@)) by {
        reveal_with_fuel(text_less, 7);
    }
    lemma_push_increasing(s5, "hashbuildallocate"@);
    let s6 = s5.push("hashbuildallocate"@);
    assert(text_less("hashbuildallocate"@, "hashbuildelect"@)) by {
        reveal_with_fuel(text_less, 11);
    }
    lemma_push_increasing(s6, "hashbuildelect"@);
    let s7 = s6.push("hashbuildelect"@);
    assert(text_less("hashbuildelect"@, "hashbuildhashinner"@)) by {
        reveal_with_fuel(text_less, 11);
    }
    lemma_push_increasing(s7, "hashbuildhashinner"@);
    let s8 = s7.push("hashbuildhashinner"@);
    assert(text_less("hashbuildhashinner"@, "hashbuildhashouter"@)) by {
        reveal_with_fuel(text_less, 15);
    }
    lemma_push_increasing(s8, "hashbuildhashouter"@);
    let s9 = s8.push("hashbuildhashouter"@);
    assert(text_less("hashbuildhashouter"@, "hashgrowbatchesdecide"@)) by {
        reveal_with_fuel(text_less, 6);
    }
    lemma_push_increasing(s9, "hashgrowbatchesdecide"@);
    let s10 = s9.push("hashgrowbatchesdecide"@);
}

/// Pushing these listed wait events of `ipc` keeps a sequence increasing.
proof fn lemma_ipc_run_2(s: Seq<Seq<char>>)
    requires
        strictly_increasing(s),
        s.len() > 0 ==> text_less(s.last(), "hashgrowbatcheselect"@),
    ensures
        strictly_increasing(s.push("hashgrowbatcheselect"@).push("hashgrowbatchesfinish"@).push("hashgrowbatchesreallocate"@).push("hashgrowbatchesrepartition"@).push("hashgrowbucketselect"@).push("hashgrowbucketsreallocate"@).push("hashgrowbucketsreinsert"@).push("logicalapplysenddata"@).push("logicalparallelapplystatechange"@).push("logicalsyncdata"@)),
{
    reveal_strlit("hashgrowbatcheselect");
    reveal_strlit("hashgrowbatchesfinish");
    reveal_strlit("hashgrowbatchesreallocate");
    reveal_strlit("hashgrowbatchesrepartition");
    reveal_strlit("hashgrowbucketselect");
    reveal_strlit("hashgrowbucketsreallocate");
    reveal_strlit("hashgrowbucketsreinsert");
    reveal_strlit("logicalapplysenddata");
    reveal_strlit("logicalparallelapplystatechange");
    reveal_strlit("logicalsyncdata");
    let s0 = s;
    lemma_push_increasing(s0, "hashgrowbatcheselect"@);
    let s1 = s0.push("hashgrowbatcheselect"@);
    assert(text_less("hashgrowbatcheselect"@, "hashgrowbatchesfinish"@)) by {
        reveal_with_fuel(text_less, 17);
    }
    lemma_push_increasing(s1, "hashgrowbatchesfinish"@);
    let s2 = s1.push("hashgrowbatchesfinish"@);
    assert(text_less("hashgrowbatchesfinish"@, "hashgrowbatchesreallocate"@)) by {
        reveal_with_fuel(text_less, 17);
    }
    lemma_push_increasing(s2, "hashgrowbatchesreallocate"@);
    let s3 = s2.push("hashgrowbatchesreallocate"@);
    assert(text_less("hashgrowbatchesreallocate"@, "hashgrowbatchesrepartition"@)) by {
        reveal_with_fuel(text_less, 19);
    }
    lemma_push_increasing(s3, "hashgrowbatchesrepartition"@);
    let s4 = s3.push("hashgrowbatchesrepartition"@);
    assert(text_less("hashgrowbatchesrepartition"@, "hashgrowbucketselect"@)) by {
        reveal_with_fuel(text_less, 11);
    }
    lemma_push_increasing(s4, "hashgrowbucketselect"@);
    let s5 = s4.push("hashgrowbucketselect"@);
    assert(text_less("hashgrowbucketselect"@, "hashgrowbucketsreallocate"@)) by {
        reveal_with_fuel(text_less, 17);
    }
    lemma_push_increasing(s5, "hashgrowbucketsreallocate"@);
    let s6 = s5.push("hashgrowbucketsreallocate"@);
    assert(text_less("hashgrowbucketsreallocate"@, "hashgrowbucketsreinsert"@)) by {
        reveal_with_fuel(text_less, 19);
    }
    lemma_push_increasing(s6, "hashgrowbucketsreinsert"@);
    let s7 = s6.push("hashgrowbucketsreinsert"@);
    assert(text_less("hashgrowbucketsreinsert"@, "logicalapplysenddata"@)) by {
        reveal_with_fuel(text_less, 2);
    }
    lemma_push_increasing(s7, "logicalapplysenddata"@);
    let s8 = s7.push("logicalapplysenddata"@);
    assert(text_less("logicalapplysenddata"@, "logicalparallelapplystatechange"@)) by {
        reveal_with_fuel(text_less, 9);
    }
    lemma_push_increasing(s8, "logicalparallelapplystatechange"@);
    let s9 = s8.push("logicalparallelapplystatechange"@);
    assert(text_less("logicalparallelapplystatechange"@, "logicalsyncdata"@)) by {
        reveal_with_fuel(text_less, 9);
    }
    lemma_push_increasing(s9, "logicalsyncdata"@);
    let s10 = s9.push("logicalsyncdata"@);
}

/// Pushing these listed wait events of `ipc` keeps a sequence increasing.
proof fn lemma_ipc_run_3(s: Seq<Seq<char>>)
    requires
        strictly_increasing(s),
        s.len() > 0 ==> text_less(s.last(), "logicalsyncstatechange"@),
    ensures
        strictly_increasing(s.push("logicalsyncstatechange"@).push("messagequeueinternal"@).push("messagequeueputmessage"@).push("messagequeuereceive"@).push("messagequeuesend"@).push("parallelbitmapscan"@).push("parallelcreateindexscan"@).push("parallelfinish"@).push("procarraygroupupdate"@).push("procsignalbarrier"@)),
{
    reveal_strlit("logicalsyncstatechange");
    reveal_strlit("messagequeueinternal");
    reveal_strlit("messagequeueputmessage");
    reveal_strlit("messagequeuereceive");
    reveal_strlit("messagequeuesend");
    reveal_strlit("parallelbitmapscan");
    reveal_strlit("parallelcreateindexscan");
    reveal_strlit("parallelfinish");
    reveal_strlit("procarraygroupupdate");
    reveal_strlit("procsignalbarrier");
    let s0 = s;
    lemma_push_increasing(s0, "logicalsyncstatechange"@);
    let s1 = s0.push("logicalsyncstatechange"@);
    assert(text_less("logicalsyncstatechange"@, "messagequeueinternal"@)) by {
        reveal_with_fuel(text_less, 2);
    }
    lemma_push_increasing(s1, "messagequeueinternal"@);
    let s2 = s1.push("messagequeueinternal"@);
    assert(text_less("messagequeueinternal"@, "messagequeueputmessage"@)) by {
        reveal_with_fuel(text_less, 14);
    }
    lemma_push_increasing(s2, "messagequeueputmessage"@);
    let s3 = s2.push("messagequeueputmessage"@);
    assert(text_less("messagequeueputmessage"@, "messagequeuereceive"@)) by {
        reveal_with_fuel(text_less, 14);
    }
    lemma_push_increasing(s3, "messagequeuereceive"@);
    let s4 = s3.push("messagequeuereceive"@);
    assert(text_less("messagequeuereceive"@, "messagequeuesend"@)) by {
        reveal_with_fuel(text_less, 14);
    }
    lemma_push_increasing(s4, "messagequeuesend"@);
    let s5 = s4.push("messagequeuesend"@);
    assert(text_less("messagequeuesend"@, "parallelbitmapscan"@)) by {
        reveal_with_fuel(text_less, 2);
    }
    lemma_push_increasing(s5, "parallelbitmapscan"@);
    let s6 = s5.push("parallelbitmapscan"@);
    assert(text_less("parallelbitmapscan"@, "parallelcreateindexscan"@)) by {
        reveal_with_fuel(text_less, 10);
    }
    lemma_push_increasing(s6, "parallelcreateindexscan"@);
    let s7 = s6.push("parallelcreateindexscan"@);
    assert(text_less("parallelcreateindexscan"@, "parallelfinish"@)) by {
        reveal_with_fuel(text_less, 10);
    }
    lemma_push_increasing(s7, "parallelfinish"@);
    let s8 = s7.push("parallelfinish"@);
    assert(text_less("parallelfinish"@, "procarraygroupupdate"@)) by {
        reveal_with_fuel(text_less, 3);
    }
    lemma_push_increasing(s8, "procarraygroupupdate"@);
    let s9 = s8.push("procarraygroupupdate"@);
    assert(text_less("procarraygroupupdate"@, "procsignalbarrier"@)) by {
        reveal_with_fuel(text_less, 6);
    }
    lemma_push_increasing(s9, "procsignalbarrier"@);
    let s10 = s9.push("procsignalbarrier"@);
}

/// Pushing these listed wait events of `ipc` keeps a sequence increasing.
proof fn lemma_ipc_run_4(s: Seq<Seq<char>>)
    requires
        strictly_increasing(s),
        s.len() > 0 ==> text_less(s.last(), "promote"@),
    ensures
        strictly_increasing(s.push("promote"@).push("recoveryconflictsnapshot"@).push("recoveryconflicttablespace"@).push("recoveryendcommand"@).push("recoverypause"@).push("replicationorigindrop"@).push("replicationslotdrop"@).push("restorecommand"@).push("safesnapshot"@).push("syncrep"@)),
{
    reveal_strlit("promote");
    reveal_strlit("recoveryconflictsnapshot");
    reveal_strlit("recoveryconflicttablespace");
    reveal_strlit("recoveryendcommand");
    reveal_strlit("recoverypause");
    reveal_strlit("replicationorigindrop");
    reveal_strlit("replicationslotdrop");
    reveal_strlit("restorecommand");
    reveal_strlit("safesnapshot");
    reveal_strlit("syncrep");
    let s0 = s;
    lemma_push_increasing(s0, "promote"@);
    let s1 = s0.push("promote"@);
    assert(text_less("promote"@, "recoveryconflictsnapshot"@)) by {
        reveal_with_fuel(text_less, 2);
    }
    lemma_push_increasing(s1, "recoveryconflictsnapshot"@);
    let s2 = s1.push("recoveryconflictsnapshot"@);
    assert(text_less("recoveryconflictsnapshot"@, "recoveryconflicttablespace"@)) by {
        reveal_with_fuel(text_less, 18);
    }
    lemma_push_increasing(s2, "recoveryconflicttablespace"@);
    let s3 = s2.push("recoveryconflicttablespace"@);
    assert(text_less("recoveryconflicttablespace"@, "recoveryendcommand"@)) by {
        reveal_with_fuel(text_less, 10);
    }
    lemma_push_increasing(s3, "recoveryendcommand"@);
    let s4 = s3.push("recoveryendcommand"@);
    assert(text_less("recoveryendcommand"@, "recoverypause"@)) by {
        reveal_with_fuel(text_less, 10);
    }
    lemma_push_increasing(s4, "recoverypause"@);
    let s5 = s4.push("recoverypause"@);
    assert(text_less("recoverypause"@, "replicationorigindrop"@)) by {
        reveal_with_fuel(text_less, 4);
    }
    lemma_push_increasing(s5, "replicationorigindrop"@);
    let s6 = s5.push("replicationorigindrop"@);
    assert(text_less("replicationorigindrop"@, "replicationslotdrop"@)) by {
        reveal_with_fuel(text_less, 13);
    }
    lemma_push_increasing(s6, "replicationslotdrop"@);
    let s7 = s6.push("replicationslotdrop"@);
    assert(text_less("replicationslotdrop"@, "restorecommand"@)) by {
        reveal_with_fuel(text_less, 4);
    }
    lemma_push_increasing(s7, "restorecommand"@);
    let s8 = s7.push("restorecommand"@);
    assert(text_less("restorecommand"@, "safesnapshot"@)) by {
        reveal_with_fuel(text_less, 2);
    }
    lemma_push_increasing(s8, "safesnapshot"@);
    let s9 = s8.push("safesnapshot"@);
    assert(text_less("safesnapshot"@, "syncrep"@)) by {
        reveal_with_fuel(text_less, 3);
    }
    lemma_push_increasing(s9, "syncrep"@);
    let s10 = s9.push("syncrep"@);
}

/// Pushing these listed wait events of `ipc` keeps a sequence increasing.
proof fn lemma_ipc_run_5(s: Seq<Seq<char>>)
    requires
        strictly_increasing(s),
        s.len() > 0 ==> text_less(s.last(), "walreceiverexit"@),
    ensures
        strictly_increasing(s.push("walreceiverexit"@).push("walreceiverwaitstart"@).push("xactgroupupdate"@)),
{
    reveal_strlit("walreceiverexit");
    reveal_strlit("walreceiverwaitstart");
    reveal_strlit("xactgroupupdate");
    let s0 = s;
    lemma_push_increasing(s0, "walreceiverexit"@);
    let s1 = s0.push("walreceiverexit"@);
    assert(text_less("walreceiverexit"@, "walreceiverwaitstart"@)) by {
        reveal_with_fuel(text_less, 13);
    }
    lemma_push_increasing(s1, "walreceiverwaitstart"@);
    let s2 = s1.push("walreceiverwaitstart"@);
    assert(text_less("walreceiverwaitstart"@, "xactgroupupdate"@)) by {
        reveal_with_fuel(text_less, 2);
    }
    lemma_push_increasing(s2, "xactgroupupdate"@);
    let s3 = s2.push("xactgroupupdate"@);
}

/// The wait events of `lock`, other included, add up to the number of
/// active sessions waiting on `lock`, as the breakdown by wait event type
/// counts them: every such session is counted once.
pub proof fn lemma_lock_breakdown_sum(rows: Seq<PgStatActivity>)
    requires
        rows.len() <= usize::MAX,
    ensures
        seq_sum(PgWaitTypeLock::from_sessions(rows).value_seq()) == count_sessions(
            rows,
            SessionFilter::WaitType("lock"@),
        ),
        seq_sum(PgWaitTypeLock::from_sessions(rows).value_seq()) == PgCurrentWaitTypes::from_sessions(
            rows,
        ).lock,
{
    lemma_lock_events_distinct();
    lemma_count_bound(rows, SessionFilter::WaitType("lock"@));
    lemma_breakdown_sum(rows, "lock"@, lock_wait_events(), PgWaitTypeLock::from_sessions(rows).value_seq());
}

/// The wait events that [`PgWaitTypeLock`] counts one by one are pairwise different.
proof fn lemma_lock_events_distinct()
    ensures
        lock_wait_events().no_duplicates(),
{
    let s0 = Seq::<Seq<char>>::empty();
    lemma_lock_run_0(s0);
    let s1 = s0.push("advisory"@).push("applytransaction"@).push("extend"@).push("frozenid"@).push("object"@).push("page"@).push("relation"@).push("spectoken"@).push("transactionid"@).push("tuple"@);
    reveal_strlit("tuple");
    reveal_strlit("userlock");
    assert(text_less("tuple"@, "userlock"@)) by {
        reveal_with_fuel(text_less, 2);
    }
    lemma_lock_run_1(s1);
    let s2 = s1.push("userlock"@).push("virtualxid"@);
    lemma_increasing_no_duplicates(s2);
    assert(s2 =~= lock_wait_events());
}

/// Pushing these listed wait events of `lock` keeps a sequence increasing.
proof fn lemma_lock_run_0(s: Seq<Seq<char>>)
    requires
        strictly_increasing(s),
        s.len() > 0 ==> text_less(s.last(), "advisory"@),
    ensures
        strictly_increasing(s.push("advisory"@).push("applytransaction"@).push("extend"@).push("frozenid"@).push("object"@).push("page"@).push("relation"@).push("spectoken"@).push("transactionid"@).push("tuple"@)),
{
    reveal_strlit("advisory");
    reveal_strlit("applytransaction");
    reveal_strlit("extend");
    reveal_strlit("frozenid");
    reveal_strlit("object");
    reveal_strlit("page");
    reveal_strlit("relation");
    reveal_strlit("spectoken");
    reveal_strlit("transactionid");
    reveal_strlit("tuple");
    let s0 = s;
    lemma_push_increasing(s0, "advisory"@);
    let s1 = s0.push("advisory"@);
    assert(text_less("advisory"@, "applytransaction"@)) by {
        reveal_with_fuel(text_less, 3);
    }
    lemma_push_increasing(s1, "applytransaction"@);
    let s2 = s1.push("applytransaction"@);
    assert(text_less("applytransaction"@, "extend"@)) by {
        reveal_with_fuel(text_less, 2);
    }
    lemma_push_increasing(s2, "extend"@);
    let s3 = s2.push("extend"@);
    assert(text_less("extend"@, "frozenid"@)) by {
        reveal_with_fuel(text_less, 2);
    }
    lemma_push_increasing(s3, "frozenid"@);
    let s4 = s3.push("frozenid"@);
    assert(text_less("frozenid"@, "object"@)) by {
        reveal_with_fuel(text_less, 2);
    }
    lemma_push_increasing(s4, "object"@);
    let s5 = s4.push("object"@);
    assert(text_less("object"@, "page"@)) by {
        reveal_with_fuel(text_less, 2);
    }
    lemma_push_increasing(s5, "page"@);
    let s6 = s5.push("page"@);
    assert(text_less("page"@, "relation"@)) by {
        reveal_with_fuel(text_less, 2);
    }
    lemma_push_increasing(s6, "relation"@);
    let s7 = s6.push("relation"@);
    assert(text_less("relation"@, "spectoken"@)) by {
        reveal_with_fuel(text_less, 2);
    }
    lemma_push_increasing(s7, "spectoken"@);
    let s8 = s7.push("spectoken"@);
    assert(text_less("spectoken"@, "transactionid"@)) by {
        reveal_with_fuel(text_less, 2);
    }
    lemma_push_increasing(s8, "transactionid"@);
    let s9 = s8.push("transactionid"@);
    assert(text_less("transactionid"@, "tuple"@)) by {
        reveal_with_fuel(text_less, 3);
    }
    lemma_push_increasing(s9, "tuple"@);
    let s10 = s9.push("tuple"@);
}

/// Pushing these listed wait events of `lock` keeps a sequence increasing.
proof fn lemma_lock_run_1(s: Seq<Seq<char>>)
    requires
        strictly_increasing(s),
        s.len() > 0 ==> text_less(s.last(), "userlock"@),
    ensures
        strictly_increasing(s.push("userlock"@).push("virtualxid"@)),
{
    reveal_strlit("userlock");
    reveal_strlit("virtualxid");
    let s0 = s;
    lemma_push_increasing(s0, "userlock"@);
    let s1 = s0.push("userlock"@);
    assert(text_less("userlock"@, "virtualxid"@)) by {
        reveal_with_fuel(text_less, 2);
    }
    lemma_push_increasing(s1, "virtualxid"@);
    let s2 = s1.push("virtualxid"@);
}

/// The wait events of `lwlock`, other included, add up to the number of
/// active sessions waiting on `lwlock`, as the breakdown by wait event type
/// counts them: every such session is counted once.
pub proof fn lemma_lwlock_breakdown_sum(rows: Seq<PgStatActivity>)
    requires
        rows.len() <= usize::MAX,
    ensures
        seq_sum(PgWaitTypeLWLock::from_sessions(rows).value_seq()) == count_sessions(
            rows,
            SessionFilter::WaitType("lwlock"@),
        ),
        seq_sum(PgWaitTypeLWLock::from_sessions(rows).value_seq()) == PgCurrentWaitTypes::from_sessions(
            rows,
        ).lwlock,
{
    lemma_lwlock_events_distinct();
    lemma_count_bound(rows, SessionFilter::WaitType("lwlock"@));
    lemma_breakdown_sum(rows, "lwlock"@, lwlock_wait_events(), PgWaitTypeLWLock::from_sessions(rows).value_seq());
}

/// The wait events that [`PgWaitTypeLWLock`] counts one by one are pairwise different.
proof fn lemma_lwlock_events_distinct()
    ensures
        lwlock_wait_events().no_duplicates(),
{
    let s0 = Seq::<Seq<char>>::empty();
    lemma_lwlock_run_0(s0);
    let s1 = s0.push("addinshmeminit"@).push("autofile"@).push("autovacuum"@).push("autovacuumschedule"@).push("backgroundworker"@).push("btreevacuum"@).push("buffercontent"@).push("buffermapping"@).push("checkpointercomm"@).push("committs"@);
    reveal_strlit("committs");
    reveal_strlit("committsbuffer");
    assert(text_less("committs"@, "committsbuffer"@)) by {
        reveal_with_fuel(text_less, 10);
    }
    lemma_lwlock_run_1(s1);
    let s2 = s1.push("committsbuffer"@).push("committsslru"@).push("controlfile"@).push("dynamicsharedmemorycontrol"@).push("lockfastpath"@).push("lockmanager"@).push("logicalreplauncerdsa"@).push("logicalreplauncerhash"@).push("logicalrepworker"@).push("multixactgen"@);
    reveal_strlit("multixactgen");
    reveal_strlit("multixactmemberbuffer");
    assert(text_less("multixactgen"@, "multixactmemberbuffer"@)) by {
        reveal_with_fuel(text_less, 11);
    }
    lemma_lwlock_run_2(s2);
    let s3 = s2.push("multixactmemberbuffer"@).push("multixactmemberslru"@).push("multixactoffsetbuffer"@).push("multixactoffsetslru"@).push("multixacttruncation"@).push("notifybuffer"@).push("notifyqueue"@).push("notifyqueuetail"@).push("notifyslru"@).push("oidgen"@);
    reveal_strlit("oidgen");
    reveal_strlit("oldsnapshottimemap");
    assert(text_less("oidgen"@, "oldsnapshottimemap"@)) by {
        reveal_with_fuel(text_less, 3);
    }
    lemma_lwlock_run_3(s3);
    let s4 = s3.push("oldsnapshottimemap"@).push("parallelappend"@).push("parallelhashjoin"@).push("parallelquerydsa"@).push("persessiondsa"@).push("persessionrecordtype"@).push("persessionrecordtypmod"@).push("perxactpredicatelist"@).push("pgstatsdata"@).push("pgstatsdsa"@);
    reveal_strlit("pgstatsdsa");
    reveal_strlit("pgstatshash");
    assert(text_less("pgstatsdsa"@, "pgstatshash"@)) by {
        reveal_with_fuel(text_less, 9);
    }
    lemma_lwlock_run_4(s4);
    let s5 = s4.push("pgstatshash"@).push("predicatelockmanager"@).push("procarray"@).push("relationmapping"@).push("relcacheinit"@).push("replicationorigin"@).push("replicationoriginstate"@).push("replicationslotallocation"@).push("replicationslotcontrol"@).push("replicationslotio"@);
    reveal_strlit("replicationslotio");
    reveal_strlit("serialbuffer");
    assert(text_less("replicationslotio"@, "serialbuffer"@)) by {
        reveal_with_fuel(text_less, 2);
    }
    lemma_lwlock_run_5(s5);
    let s6 = s5.push("serialbuffer"@).push("serializablefinishedlist"@).push("serializablepredicatelist"@).push("serializablexacthash"@).push("serialslru"@).push("sharedtidbitmap"@).push("sharedtuplestore"@).push("shmemindex"@).push("sinvalread"@).push("sinvalwrite"@);
    reveal_strlit("sinvalwrite");
    reveal_strlit("subtransbuffer");
    assert(text_less("sinvalwrite"@, "subtransbuffer"@)) by {
        reveal_with_fuel(text_less, 3);
    }
    lemma_lwlock_run_6(s6);
    let s7 = s6.push("subtransbuffer"@).push("subtransslru"@).push("syncrep"@).push("syncscan"@).push("tablespacecreate"@).push("twophasestate"@).push("walbufmapping"@).push("walinsert"@).push("walwrite"@).push("wraplimitsvacuum"@);
    reveal_strlit("wraplimitsvacuum");
    reveal_strlit("xactbuffer");
    assert(text_less("wraplimitsvacuum"@, "xactbuffer"@)) by {
        reveal_with_fuel(text_less, 2);
    }
    lemma_lwlock_run_7(s7);
    let s8 = s7.push("xactbuffer"@).push("xactslru"@).push("xacttruncation"@).push("xidgen"@);
    lemma_increasing_no_duplicates(s8);
    assert(s8 =~= lwlock_wait_events());
}

/// Pushing these listed wait events of `lwlock` keeps a sequence increasing.
proof fn lemma_lwlock_run_0(s: Seq<Seq<char>>)
    requires
        strictly_increasing(s),
        s.len() > 0 ==> text_less(s.last(), "addinshmeminit"@),
    ensures
        strictly_increasing(s.push("addinshmeminit"@).push("autofile"@).push("autovacuum"@).push("autovacuumschedule"@).push("backgroundworker"@).push("btreevacuum"@).push("buffercontent"@).push("buffermapping"@).push("checkpointercomm"@).push("committs"@)),
{
    reveal_strlit("addinshmeminit");
    reveal_strlit("autofile");
    reveal_strlit("autovacuum");
    reveal_strlit("autovacuumschedule");
    reveal_strlit("backgroundworker");
    reveal_strlit("btreevacuum");
    reveal_strlit("buffercontent");
    reveal_strlit("buffermapping");
    reveal_strlit("checkpointercomm");
    reveal_strlit("committs");
    let s0 = s;
    lemma_push_increasing(s0, "addinshmeminit"@);
    let s1 = s0.push("addinshmeminit"@);
    assert(text_less("addinshmeminit"@, "autofile"@)) by {
        reveal_with_fuel(text_less, 3);
    }
    lemma_push_increasing(s1, "autofile"@);
    let s2 = s1.push("autofile"@);
    assert(text_less("autofile"@, "autovacuum"@)) by {
        reveal_with_fuel(text_less, 6);
    }
    lemma_push_increasing(s2, "autovacuum"@);
    let s3 = s2.push("autovacuum"@);
    assert(text_less("autovacuum"@, "autovacuumschedule"@)) by {
        reveal_with_fuel(text_less, 12);
    }
    lemma_push_increasing(s3, "autovacuumschedule"@);
    let s4 = s3.push("autovacuumschedule"@);
    assert(text_less("autovacuumschedule"@, "backgroundworker"@)) by {
        reveal_with_fuel(text_less, 2);
    }
    lemma_push_increasing(s4, "backgroundworker"@);
    let s5 = s4.push("backgroundworker"@);
    assert(text_less("backgroundworker"@, "btreevacuum"@)) by {
        reveal_with_fuel(text_less, 3);
    }
    lemma_push_increasing(s5, "btreevacuum"@);
    let s6 = s5.push("btreevacuum"@);
    assert(text_less("btreevacuum"@, "buffercontent"@)) by {
        reveal_with_fuel(text_less, 3);
    }
    lemma_push_increasing(s6, "buffercontent"@);
    let s7 = s6.push("buffercontent"@);
    assert(text_less("buffercontent"@, "buffermapping"@)) by {
        reveal_with_fuel(text_less, 8);
    }
    lemma_push_increasing(s7, "buffermapping"@);
    let s8 = s7.push("buffermapping"@);
    assert(text_less("buffermapping"@, "checkpointercomm"@)) by {
        reveal_with_fuel(text_less, 2);
    }
    lemma_push_increasing(s8, "checkpointercomm"@);
    let s9 = s8.push("checkpointercomm"@);
    assert(text_less("checkpointercomm"@, "committs"@)) by {
        reveal_with_fuel(text_less, 3);
    }
    lemma_push_increasing(s9, "committs"@);
    let s10 = s9.push("committs"@);
}

/// Pushing these listed wait events of `lwlock` keeps a sequence increasing.
proof fn lemma_lwlock_run_1(s: Seq<Seq<char>>)
    requires
        strictly_increasing(s),
        s.len() > 0 ==> text_less(s.last(), "committsbuffer"@),
    ensures
        strictly_increasing(s.push("committsbuffer"@).push("committsslru"@).push("controlfile"@).push("dynamicsharedmemorycontrol"@).push("lockfastpath"@).push("lockmanager"@).push("logicalreplauncerdsa"@).push("logicalreplauncerhash"@).push("logicalrepworker"@).push("multixactgen"@)),
{
    reveal_strlit("committsbuffer");
    reveal_strlit("committsslru");
    reveal_strlit("controlfile");
    reveal_strlit("dynamicsharedmemorycontrol");
    reveal_strlit("lockfastpath");
    reveal_strlit("lockmanager");
    reveal_strlit("logicalreplauncerdsa");
    reveal_strlit("logicalreplauncerhash");
    reveal_strlit("logicalrepworker");
    reveal_strlit("multixactgen");
    let s0 = s;
    lemma_push_increasing(s0, "committsbuffer"@);
    let s1 = s0.push("committsbuffer"@);
    assert(text_less("committsbuffer"@, "committsslru"@)) by {
        reveal_with_fuel(text_less, 10);
    }
    lemma_push_increasing(s1, "committsslru"@);
    let s2 = s1.push("committsslru"@);
    assert(text_less("committsslru"@, "controlfile"@)) by {
        reveal_with_fuel(text_less, 4);
    }
    lemma_push_increasing(s2, "controlfile"@);
    let s3 = s2.push("controlfile"@);
    assert(text_less("controlfile"@, "dynamicsharedmemorycontrol"@)) by {
        reveal_with_fuel(text_less, 2);
    }
    lemma_push_increasing(s3, "dynamicsharedmemorycontrol"@);
    let s4 = s3.push("dynamicsharedmemorycontrol"@);
    assert(text_less("dynamicsharedmemorycontrol"@, "lockfastpath"@)) by {
        reveal_with_fuel(text_less, 2);
    }
    lemma_push_increasing(s4, "lockfastpath"@);
    let s5 = s4.push("lockfastpath"@);
    assert(text_less("lockfastpath"@, "lockmanager"@)) by {
        reveal_with_fuel(text_less, 6);
    }
    lemma_push_increasing(s5, "lockmanager"@);
    let s6 = s5.push("lockmanager"@);
    assert(text_less("lockmanager"@, "logicalreplauncerdsa"@)) by {
        reveal_with_fuel(text_less, 4);
    }
    lemma_push_increasing(s6, "logicalreplauncerdsa"@);
    let s7 = s6.push("logicalreplauncerdsa"@);
    assert(text_less("logicalreplauncerdsa"@, "logicalreplauncerhash"@)) by {
        reveal_with_fuel(text_less, 19);
    }
    lemma_push_increasing(s7, "logicalreplauncerhash"@);
    let s8 = s7.push("logicalreplauncerhash"@);
    assert(text_less("logicalreplauncerhash"@, "logicalrepworker"@)) by {
        reveal_with_fuel(text_less, 12);
    }
    lemma_push_increasing(s8, "logicalrepworker"@);
    let s9 = s8.push("logicalrepworker"@);
    assert(text_less("logicalrepworker"@, "multixactgen"@)) by {
        reveal_with_fuel(text_less, 2);
    }
    lemma_push_increasing(s9, "multixactgen"@);
    let s10 = s9.push("multixactgen"@);
}

/// Pushing these listed wait events of `lwlock` keeps a sequence increasing.
proof fn lemma_lwlock_run_2(s: Seq<Seq<char>>)
    requires
        strictly_increasing(s),
        s.len() > 0 ==> text_less(s.last(), "multixactmemberbuffer"@),
    ensures
        strictly_increasing(s.push("multixactmemberbuffer"@).push("multixactmemberslru"@).push("multixactoffsetbuffer"@).push("multixactoffsetslru"@).push("multixacttruncation"@).push("notifybuffer"@).push("notifyqueue"@).push("notifyqueuetail"@).push("notifyslru"@).push("oidgen"@)),
{
    reveal_strlit("multixactmemberbuffer");
    reveal_strlit("multixactmemberslru");
    reveal_strlit("multixactoffsetbuffer");
    reveal_strlit("multixactoffsetslru");
    reveal_strlit("multixacttruncation");
    reveal_strlit("notifybuffer");
    reveal_strlit("notifyqueue");
    reveal_strlit("notifyqueuetail");
    reveal_strlit("notifyslru");
    reveal_strlit("oidgen");
    let s0 = s;
    lemma_push_increasing(s0, "multixactmemberbuffer"@);
    let s1 = s0.push("multixactmemberbuffer"@);
    assert(text_less("multixactmemberbuffer"@, "multixactmemberslru"@)) by {
        reveal_with_fuel(text_less, 17);
    }
    lemma_push_increasing(s1, "multixactmemberslru"@);
    let s2 = s1.push("multixactmemberslru"@);
    assert(text_less("multixactmemberslru"@, "multixactoffsetbuffer"@)) by {
        reveal_with_fuel(text_less, 11);
    }
    lemma_push_increasing(s2, "multixactoffsetbuffer"@);
    let s3 = s2.push("multixactoffsetbuffer"@);
    assert(text_less("multixactoffsetbuffer"@, "multixactoffsetslru"@)) by {
        reveal_with_fuel(text_less, 17);
    }
    lemma_push_increasing(s3, "multixactoffsetslru"@);
    let s4 = s3.push("multixactoffsetslru"@);
    assert(text_less("multixactoffsetslru"@, "multixacttruncation"@)) by {
        reveal_with_fuel(text_less, 11);
    }
    lemma_push_increasing(s4, "multixacttruncation"@);
    let s5 = s4.push("multixacttruncation"@);
    assert(text_less("multixacttruncation"@, "notifybuffer"@)) by {
        reveal_with_fuel(text_less, 2);
    }
    lemma_push_increasing(s5, "notifybuffer"@);
    let s6 = s5.push("notifybuffer"@);
    assert(text_less("notifybuffer"@, "notifyqueue"@)) by {
        reveal_with_fuel(text_less, 8);
    }
    lemma_push_increasing(s6, "notifyqueue"@);
    let s7 = s6.push("notifyqueue"@);
    assert(text_less("notifyqueue"@, "notifyqueuetail"@)) by {
        reveal_with_fuel(text_less, 13);
    }
    lemma_push_increasing(s7, "notifyqueuetail"@);
    let s8 = s7.push("notifyqueuetail"@);
    assert(text_less("notifyqueuetail"@, "notifyslru"@)) by {
        reveal_with_fuel(text_less, 8);
    }
    lemma_push_increasing(s8, "notifyslru"@);
    let s9 = s8.push("notifyslru"@);
    assert(text_less("notifyslru"@, "oidgen"@)) by {
        reveal_with_fuel(text_less, 2);
    }
    lemma_push_increasing(s9, "oidgen"@);
    let s10 = s9.push("oidgen"@);
}

/// Pushing these listed wait events of `lwlock` keeps a sequence increasing.
proof fn lemma_lwlock_run_3(s: Seq<Seq<char>>)
    requires
        strictly_increasing(s),
        s.len() > 0 ==> text_less(s.last(), "oldsnapshottimemap"@),
    ensures
        strictly_increasing(s.push("oldsnapshottimemap"@).push("parallelappend"@).push("parallelhashjoin"@).push("parallelquerydsa"@).push("persessiondsa"@).push("persessionrecordtype"@).push("persessionrecordtypmod"@).push("perxactpredicatelist"@).push("pgstatsdata"@).push("pgstatsdsa"@)),
{
    reveal_strlit("oldsnapshottimemap");
    reveal_strlit("parallelappend");
    reveal_strlit("parallelhashjoin");
    reveal_strlit("parallelquerydsa");
    reveal_strlit("persessiondsa");
    reveal_strlit("persessionrecordtype");
    reveal_strlit("persessionrecordtypmod");
    reveal_strlit("perxactpredicatelist");
    reveal_strlit("pgstatsdata");
    reveal_strlit("pgstatsdsa");
    let s0 = s;
    lemma_push_increasing(s0, "oldsnapshottimemap"@);
    let s1 = s0.push("oldsnapshottimemap"@);
    assert(text_less("oldsnapshottimemap"@, "parallelappend"@)) by {
        reveal_with_fuel(text_less, 2);
    }
    lemma_push_increasing(s1, "parallelappend"@);
    let s2 = s1.push("parallelappend"@);
    assert(text_less("parallelappend"@, "parallelhashjoin"@)) by {
        reveal_with_fuel(text_less, 10);
    }
    lemma_push_increasing(s2, "parallelhashjoin"@);
    let s3 = s2.push("parallelhashjoin"@);
    assert(text_less("parallelhashjoin"@, "parallelquerydsa"@)) by {
        reveal_with_fuel(text_less, 10);
    }
    lemma_push_increasing(s3, "parallelquerydsa"@);
    let s4 = s3.push("parallelquerydsa"@);
    assert(text_less("parallelquerydsa"@, "persessiondsa"@)) by {
        reveal_with_fuel(text_less, 3);
    }
    lemma_push_increasing(s4, "persessiondsa"@);
    let s5 = s4.push("persessiondsa"@);
    assert(text_less("persessiondsa"@, "persessionrecordtype"@)) by {
        reveal_with_fuel(text_less, 12);
    }
    lemma_push_increasing(s5, "persessionrecordtype"@);
    let s6 = s5.push("persessionrecordtype"@);
    assert(text_less("persessionrecordtype"@, "persessionrecordtypmod"@)) by {
        reveal_with_fuel(text_less, 21);
    }
    lemma_push_increasing(s6, "persessionrecordtypmod"@);
    let s7 = s6.push("persessionrecordtypmod"@);
    assert(text_less("persessionrecordtypmod"@, "perxactpredicatelist"@)) by {
        reveal_with_fuel(text_less, 5);
    }
    lemma_push_increasing(s7, "perxactpredicatelist"@);
    let s8 = s7.push("perxactpredicatelist"@);
    assert(text_less("perxactpredicatelist"@, "pgstatsdata"@)) by {
        reveal_with_fuel(text_less, 3);
    }
    lemma_push_increasing(s8, "pgstatsdata"@);
    let s9 = s8.push("pgstatsdata"@);
    assert(text_less("pgstatsdata"@, "pgstatsdsa"@)) by {
        reveal_with_fuel(text_less, 10);
    }
    lemma_push_increasing(s9, "pgstatsdsa"@);
    let s10 = s9.push("pgstatsdsa"@);
}

/// Pushing these listed wait events of `lwlock` keeps a sequence increasing.
proof fn lemma_lwlock_run_4(s: Seq<Seq<char>>)
    requires
        strictly_increasing(s),
        s.len() > 0 ==> text_less(s.last(), "pgstatshash"@),
    ensures
        strictly_increasing(s.push("pgstatshash"@).push("predicatelockmanager"@).push("procarray"@).push("relationmapping"@).push("relcacheinit"@).push("replicationorigin"@).push("replicationoriginstate"@).push("replicationslotallocation"@).push("replicationslotcontrol"@).push("replicationslotio"@)),
{
    reveal_strlit("pgstatshash");
    reveal_strlit("predicatelockmanager");
    reveal_strlit("procarray");
    reveal_strlit("relationmapping");
    reveal_strlit("relcacheinit");
    reveal_strlit("replicationorigin");
    reveal_strlit("replicationoriginstate");
    reveal_strlit("replicationslotallocation");
    reveal_strlit("replicationslotcontrol");
    reveal_strlit("replicationslotio");
    let s0 = s;
    lemma_push_increasing(s0, "pgstatshash"@);
    let s1 = s0.push("pgstatshash"@);
    assert(text_less("pgstatshash"@, "predicatelockmanager"@)) by {
        reveal_with_fuel(text_less, 3);
    }
    lemma_push_increasing(s1, "predicatelockmanager"@);
    let s2 = s1.push("predicatelockmanager"@);
    assert(text_less("predicatelockmanager"@, "procarray"@)) by {
        reveal_with_fuel(text_less, 4);
    }
    lemma_push_increasing(s2, "procarray"@);
    let s3 = s2.push("procarray"@);
    assert(text_less("procarray"@, "relationmapping"@)) by {
        reveal_with_fuel(text_less, 2);
    }
    lemma_push_increasing(s3, "relationmapping"@);
    let s4 = s3.push("relationmapping"@);
    assert(text_less("relationmapping"@, "relcacheinit"@)) by {
        reveal_with_fuel(text_less, 5);
    }
    lemma_push_increasing(s4, "relcacheinit"@);
    let s5 = s4.push("relcacheinit"@);
    assert(text_less("relcacheinit"@, "replicationorigin"@)) by {
        reveal_with_fuel(text_less, 4);
    }
    lemma_push_increasing(s5, "replicationorigin"@);
    let s6 = s5.push("replicationorigin"@);
    assert(text_less("replicationorigin"@, "replicationoriginstate"@)) by {
        reveal_with_fuel(text_less, 19);
    }
    lemma_push_increasing(s6, "replicationoriginstate"@);
    let s7 = s6.push("replicationoriginstate"@);
    assert(text_less("replicationoriginstate"@, "replicationslotallocation"@)) by {
        reveal_with_fuel(text_less, 13);
    }
    lemma_push_increasing(s7, "replicationslotallocation"@);
    let s8 = s7.push("replicationslotallocation"@);
    assert(text_less("replicationslotallocation"@, "replicationslotcontrol"@)) by {
        reveal_with_fuel(text_less, 17);
    }
    lemma_push_increasing(s8, "replicationslotcontrol"@);
    let s9 = s8.push("replicationslotcontrol"@);
    assert(text_less("replicationslotcontrol"@, "replicationslotio"@)) by {
        reveal_with_fuel(text_less, 17);
    }
    lemma_push_increasing(s9, "replicationslotio"@);
    let s10 = s9.push("replicationslotio"@);
}

/// Pushing these listed wait events of `lwlock` keeps a sequence increasing.
proof fn lemma_lwlock_run_5(s: Seq<Seq<char>>)
    requires
        strictly_increasing(s),
        s.len() > 0 ==> text_less(s.last(), "serialbuffer"@),
    ensures
        strictly_increasing(s.push("serialbuffer"@).push("serializablefinishedlist"@).push("serializablepredicatelist"@).push("serializablexacthash"@).push("serialslru"@).push("sharedtidbitmap"@).push("sharedtuplestore"@).push("shmemindex"@).push("sinvalread"@).push("sinvalwrite"@)),
{
    reveal_strlit("serialbuffer");
    reveal_strlit("serializablefinishedlist");
    reveal_strlit("serializablepredicatelist");
    reveal_strlit("serializablexacthash");
    reveal_strlit("serialslru");
    reveal_strlit("sharedtidbitmap");
    reveal_strlit("sharedtuplestore");
    reveal_strlit("shmemindex");
    reveal_strlit("sinvalread");
    reveal_strlit("sinvalwrite");
    let s0 = s;
    lemma_push_increasing(s0, "serialbuffer"@);
    let s1 = s0.push("serialbuffer"@);
    assert(text_less("serialbuffer"@, "serializablefinishedlist"@)) by {
        reveal_with_fuel(text_less, 8);
    }
    lemma_push_increasing(s1, "serializablefinishedlist"@);
    let s2 = s1.push("serializablefinishedlist"@);
    assert(text_less("serializablefinishedlist"@, "serializablepredicatelist"@)) by {
        reveal_with_fuel(text_less, 14);
    }
    lemma_push_increasing(s2, "serializablepredicatelist"@);
    let s3 = s2.push("serializablepredicatelist"@);
    assert(text_less("serializablepredicatelist"@, "serializablexacthash"@)) by {
        reveal_with_fuel(text_less, 14);
    }
    lemma_push_increasing(s3, "serializablexacthash"@);
    let s4 = s3.push("serializablexacthash"@);
    assert(text_less("serializablexacthash"@, "serialslru"@)) by {
        reveal_with_fuel(text_less, 8);
    }
    lemma_push_increasing(s4, "serialslru"@);
    let s5 = s4.push("serialslru"@);
    assert(text_less("serialslru"@, "sharedtidbitmap"@)) by {
        reveal_with_fuel(text_less, 3);
    }
    lemma_push_increasing(s5, "sharedtidbitmap"@);
    let s6 = s5.push("sharedtidbitmap"@);
    assert(text_less("sharedtidbitmap"@, "sharedtuplestore"@)) by {
        reveal_with_fuel(text_less, 9);
    }
    lemma_push_increasing(s6, "sharedtuplestore"@);
    let s7 = s6.push("sharedtuplestore"@);
    assert(text_less("sharedtuplestore"@, "shmemindex"@)) by {
        reveal_with_fuel(text_less, 4);
    }
    lemma_push_increasing(s7, "shmemindex"@);
    let s8 = s7.push("shmemindex"@);
    assert(text_less("shmemindex"@, "sinvalread"@)) by {
        reveal_with_fuel(text_less, 3);
    }
    lemma_push_increasing(s8, "sinvalread"@);
    let s9 = s8.push("sinvalread"@);
    assert(text_less("sinvalread"@, "sinvalwrite"@)) by {
        reveal_with_fuel(text_less, 8);
    }
    lemma_push_increasing(s9, "sinvalwrite"@);
    let s10 = s9.push("sinvalwrite"@);
}

/// Pushing these listed wait events of `lwlock` keeps a sequence increasing.
proof fn lemma_lwlock_run_6(s: Seq<Seq<char>>)
    requires
        strictly_increasing(s),
        s.len() > 0 ==> text_less(s.last(), "subtransbuffer"@),
    ensures
        strictly_increasing(s.push("subtransbuffer"@).push("subtransslru"@).push("syncrep"@).push("syncscan"@).push("tablespacecreate"@).push("twophasestate"@).push("walbufmapping"@).push("walinsert"@).push("walwrite"@).push("wraplimitsvacuum"@)),
{
    reveal_strlit("subtransbuffer");
    reveal_strlit("subtransslru");
    reveal_strlit("syncrep");
    reveal_strlit("syncscan");
    reveal_strlit("tablespacecreate");
    reveal_strlit("twophasestate");
    reveal_strlit("walbufmapping");
    reveal_strlit("walinsert");
    reveal_strlit("walwrite");
    reveal_strlit("wraplimitsvacuum");
    let s0 = s;
    lemma_push_increasing(s0, "subtransbuffer"@);
    let s1 = s0.push("subtransbuffer"@);
    assert(text_less("subtransbuffer"@, "subtransslru"@)) by {
        reveal_with_fuel(text_less, 10);
    }
    lemma_push_increasing(s1, "subtransslru"@);
    let s2 = s1.push("subtransslru"@);
    assert(text_less("subtransslru"@, "syncrep"@)) by {
        reveal_with_fuel(text_less, 3);
    }
    lemma_push_increasing(s2, "syncrep"@);
    let s3 = s2.push("syncrep"@);
    assert(text_less("syncrep"@, "syncscan"@)) by {
        reveal_with_fuel(text_less, 6);
    }
    lemma_push_increasing(s3, "syncscan"@);
    let s4 = s3.push("syncscan"@);
    assert(text_less("syncscan"@, "tablespacecreate"@)) by {
        reveal_with_fuel(text_less, 2);
    }
    lemma_push_increasing(s4, "tablespacecreate"@);
    let s5 = s4.push("tablespacecreate"@);
    assert(text_less("tablespacecreate"@, "twophasestate"@)) by {
        reveal_with_fuel(text_less, 3);
    }
    lemma_push_increasing(s5, "twophasestate"@);
    let s6 = s5.push("twophasestate"@);
    assert(text_less("twophasestate"@, "walbufmapping"@)) by {
        reveal_with_fuel(text_less, 2);
    }
    lemma_push_increasing(s6, "walbufmapping"@);
    let s7 = s6.push("walbufmapping"@);
    assert(text_less("walbufmapping"@, "walinsert"@)) by {
        reveal_with_fuel(text_less, 5);
    }
    lemma_push_increasing(s7, "walinsert"@);
    let s8 = s7.push("walinsert"@);
    assert(text_less("walinsert"@, "walwrite"@)) by {
        reveal_with_fuel(text_less, 5);
    }
    lemma_push_increasing(s8, "walwrite"@);
    let s9 = s8.push("walwrite"@);
    assert(text_less("walwrite"@, "wraplimitsvacuum"@)) by {
        reveal_with_fuel(text_less, 3);
    }
    lemma_push_increasing(s9, "wraplimitsvacuum"@);
    let s10 = s9.push("wraplimitsvacuum"@);
}

/// Pushing these listed wait events of `lwlock` keeps a sequence increasing.
proof fn lemma_lwlock_run_7(s: Seq<Seq<char>>)
    requires
        strictly_increasing(s),
        s.len() > 0 ==> text_less(s.last(), "xactbuffer"@),
    ensures
        strictly_increasing(s.push("xactbuffer"@).push("xactslru"@).push("xacttruncation"@).push("xidgen"@)),
{
    reveal_strlit("xactbuffer");
    reveal_strlit("xactslru");
    reveal_strlit("xacttruncation");
    reveal_strlit("xidgen");
    let s0 = s;
    lemma_push_increasing(s0, "xactbuffer"@);
    let s1 = s0.push("xactbuffer"@);
    assert(text_less("xactbuffer"@, "xactslru"@)) by {
        reveal_with_fuel(text_less, 6);
    }
    lemma_push_increasing(s1, "xactslru"@);
    let s2 = s1.push("xactslru"@);
    assert(text_less("xactslru"@, "xacttruncation"@)) by {
        reveal_with_fuel(text_less, 6);
    }
    lemma_push_increasing(s2, "xacttruncation"@);
    let s3 = s2.push("xacttruncation"@);
    assert(text_less("xacttruncation"@, "xidgen"@)) by {
        reveal_with_fuel(text_less, 3);
    }
    lemma_push_increasing(s3, "xidgen"@);
    let s4 = s3.push("xidgen"@);
}

/// The wait events of `timeout`, other included, add up to the number of
/// active sessions waiting on `timeout`, as the breakdown by wait event type
/// counts them: every such session is counted once.
pub proof fn lemma_timeout_breakdown_sum(rows: Seq<PgStatActivity>)
    requires
        rows.len() <= usize::MAX,
    ensures
        seq_sum(PgWaitTypeTimeout::from_sessions(rows).value_seq()) == count_sessions(
            rows,
            SessionFilter::WaitType("timeout"@),
        ),
        seq_sum(PgWaitTypeTimeout::from_sessions(rows).value_seq()) == PgCurrentWaitTypes::from_sessions(
            rows,
        ).timeout,
{
    lemma_timeout_events_distinct();
    lemma_count_bound(rows, SessionFilter::WaitType("timeout"@));
    lemma_breakdown_sum(rows, "timeout"@, timeout_wait_events(), PgWaitTypeTimeout::from_sessions(rows).value_seq());
}

/// The wait events that [`PgWaitTypeTimeout`] counts one by one are pairwise different.
proof fn lemma_timeout_events_distinct()
    ensures
        timeout_wait_events().no_duplicates(),
{
    let s0 = Seq::<Seq<char>>::empty();
    lemma_timeout_run_0(s0);
    let s1 = s0.push("basebackupthrottle"@).push("checkpoinwritedelay"@).push("pgsleep"@).push("recoveryapplydelay"@).push("recoveryretrieveretryinterval"@).push("registersyncrequest"@).push("spindelay"@).push("vacuumdelay"@).push("vacuumtruncate"@);
    lemma_increasing_no_duplicates(s1);
    assert(s1 =~= timeout_wait_events());
}

/// Pushing these listed wait events of `timeout` keeps a sequence increasing.
proof fn lemma_timeout_run_0(s: Seq<Seq<char>>)
    requires
        strictly_increasing(s),
        s.len() > 0 ==> text_less(s.last(), "basebackupthrottle"@),
    ensures
        strictly_increasing(s.push("basebackupthrottle"@).push("checkpoinwritedelay"@).push("pgsleep"@).push("recoveryapplydelay"@).push("recoveryretrieveretryinterval"@).push("registersyncrequest"@).push("spindelay"@).push("vacuumdelay"@).push("vacuumtruncate"@)),
{
    reveal_strlit("basebackupthrottle");
    reveal_strlit("checkpoinwritedelay");
    reveal_strlit("pgsleep");
    reveal_strlit("recoveryapplydelay");
    reveal_strlit("recoveryretrieveretryinterval");
    reveal_strlit("registersyncrequest");
    reveal_strlit("spindelay");
    reveal_strlit("vacuumdelay");
    reveal_strlit("vacuumtruncate");
    let s0 = s;
    lemma_push_increasing(s0, "basebackupthrottle"@);
    let s1 = s0.push("basebackupthrottle"@);
    assert(text_less("basebackupthrottle"@, "checkpoinwritedelay"@)) by {
        reveal_with_fuel(text_less, 2);
    }
    lemma_push_increasing(s1, "checkpoinwritedelay"@);
    let s2 = s1.push("checkpoinwritedelay"@);
    assert(text_less("checkpoinwritedelay"@, "pgsleep"@)) by {
        reveal_with_fuel(text_less, 2);
    }
    lemma_push_increasing(s2, "pgsleep"@);
    let s3 = s2.push("pgsleep"@);
    assert(text_less("pgsleep"@, "recoveryapplydelay"@)) by {
        reveal_with_fuel(text_less, 2);
    }
    lemma_push_increasing(s3, "recoveryapplydelay"@);
    let s4 = s3.push("recoveryapplydelay"@);
    assert(text_less("recoveryapplydelay"@, "recoveryretrieveretryinterval"@)) by {
        reveal_with_fuel(text_less, 10);
    }
    lemma_push_increasing(s4, "recoveryretrieveretryinterval"@);
    let s5 = s4.push("recoveryretrieveretryinterval"@);
    assert(text_less("recoveryretrieveretryinterval"@, "registersyncrequest"@)) by {
        reveal_with_fuel(text_less, 4);
    }
    lemma_push_increasing(s5, "registersyncrequest"@);
    let s6 = s5.push("registersyncrequest"@);
    assert(text_less("registersyncrequest"@, "spindelay"@)) by {
        reveal_with_fuel(text_less, 2);
    }
    lemma_push_increasing(s6, "spindelay"@);
    let s7 = s6.push("spindelay"@);
    assert(text_less("spindelay"@, "vacuumdelay"@)) by {
        reveal_with_fuel(text_less, 2);
    }
    lemma_push_increasing(s7, "vacuumdelay"@);
    let s8 = s7.push("vacuumdelay"@);
    assert(text_less("vacuumdelay"@, "vacuumtruncate"@)) by {
        reveal_with_fuel(text_less, 8);
    }
    lemma_push_increasing(s8, "vacuumtruncate"@);
    let s9 = s8.push("vacuumtruncate"@);
}

} // verus!
