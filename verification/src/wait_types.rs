use crate::activity::{
    count_on_cpu, count_sessions, count_wait_events, count_wait_type, lemma_count_bound,
    PgStatActivity, SessionFilter,
};
use vstd::prelude::*;

verus! {

/// Active sessions by wait event type; a session with no wait event type runs on CPU.
#[derive(Debug, Clone, Copy, PartialEq, Eq)]
pub struct PgWaitTypes {
    pub on_cpu: usize,
    pub activity: usize,
    pub buffer_pin: usize,
    pub client: usize,
    pub extension: usize,
    pub io: usize,
    pub ipc: usize,
    pub lock: usize,
    pub lwlock: usize,
    pub timeout: usize,
}

impl PgWaitTypes {
    /// The breakdown of the active sessions of `rows` by wait event type.
    pub open spec fn from_sessions(rows: Seq<PgStatActivity>) -> PgWaitTypes {
        PgWaitTypes {
            on_cpu: count_sessions(rows, SessionFilter::OnCpu) as usize,
            activity: count_sessions(rows, SessionFilter::WaitType("activity"@)) as usize,
            buffer_pin: count_sessions(rows, SessionFilter::WaitType("buffer_pin"@)) as usize,
            client: count_sessions(rows, SessionFilter::WaitType("client"@)) as usize,
            extension: count_sessions(rows, SessionFilter::WaitType("extension"@)) as usize,
            io: count_sessions(rows, SessionFilter::WaitType("io"@)) as usize,
            ipc: count_sessions(rows, SessionFilter::WaitType("ipc"@)) as usize,
            lock: count_sessions(rows, SessionFilter::WaitType("lock"@)) as usize,
            lwlock: count_sessions(rows, SessionFilter::WaitType("lwlock"@)) as usize,
            timeout: count_sessions(rows, SessionFilter::WaitType("timeout"@)) as usize,
        }
    }

    /// All counts zero: the breakdown of no sessions.
    pub fn new() -> (r: Self)
        ensures
            r == Self::from_sessions(Seq::empty()),
    {
        PgWaitTypes {
            on_cpu: 0,
            activity: 0,
            buffer_pin: 0,
            client: 0,
            extension: 0,
            io: 0,
            ipc: 0,
            lock: 0,
            lwlock: 0,
            timeout: 0,
        }
    }

    /// The counts in the order the wait event type graph stacks them, from
    /// the top area down to `on_cpu`.
    pub open spec fn value_seq(self) -> Seq<usize> {
        seq![
            self.activity,
            self.buffer_pin,
            self.client,
            self.extension,
            self.timeout,
            self.ipc,
            self.lwlock,
            self.lock,
            self.io,
            self.on_cpu,
        ]
    }

    /// The counts as [`Self::value_seq`] orders them.
    pub fn values(&self) -> (r: Vec<usize>)
        ensures
            r@ == self.value_seq(),
    {
        vec![
            self.activity,
            self.buffer_pin,
            self.client,
            self.extension,
            self.timeout,
            self.ipc,
            self.lwlock,
            self.lock,
            self.io,
            self.on_cpu,
        ]
    }

    /// Counts the active sessions of a sample by wait event type.
    pub fn process_pg_stat_activity(pg_stat_activity: &Vec<PgStatActivity>) -> (r: Self)
        ensures
            r == Self::from_sessions(pg_stat_activity@),
    {
        PgWaitTypes {
            on_cpu: count_on_cpu(pg_stat_activity),
            activity: count_wait_type(pg_stat_activity, "activity"),
            buffer_pin: count_wait_type(pg_stat_activity, "buffer_pin"),
            client: count_wait_type(pg_stat_activity, "client"),
            extension: count_wait_type(pg_stat_activity, "extension"),
            io: count_wait_type(pg_stat_activity, "io"),
            ipc: count_wait_type(pg_stat_activity, "ipc"),
            lock: count_wait_type(pg_stat_activity, "lock"),
            lwlock: count_wait_type(pg_stat_activity, "lwlock"),
            timeout: count_wait_type(pg_stat_activity, "timeout"),
        }
    }
}

/// Active sessions by wait event type, with the buffer pin type spelt `bufferpin`.
#[derive(Debug, Clone, Copy, PartialEq, Eq)]
pub struct PgCurrentWaitTypes {
    pub on_cpu: usize,
    pub activity: usize,
    pub buffer_pin: usize,
    pub client: usize,
    pub extension: usize,
    pub io: usize,
    pub ipc: usize,
    pub lock: usize,
    pub lwlock: usize,
    pub timeout: usize,
}

impl PgCurrentWaitTypes {
    /// The breakdown of the active sessions of `rows` by wait event type.
    pub open spec fn from_sessions(rows: Seq<PgStatActivity>) -> PgCurrentWaitTypes {
        PgCurrentWaitTypes {
            on_cpu: count_sessions(rows, SessionFilter::OnCpu) as usize,
            activity: count_sessions(rows, SessionFilter::WaitType("activity"@)) as usize,
            buffer_pin: count_sessions(rows, SessionFilter::WaitType("bufferpin"@)) as usize,
            client: count_sessions(rows, SessionFilter::WaitType("client"@)) as usize,
            extension: count_sessions(rows, SessionFilter::WaitType("extension"@)) as usize,
            io: count_sessions(rows, SessionFilter::WaitType("io"@)) as usize,
            ipc: count_sessions(rows, SessionFilter::WaitType("ipc"@)) as usize,
            lock: count_sessions(rows, SessionFilter::WaitType("lock"@)) as usize,
            lwlock: count_sessions(rows, SessionFilter::WaitType("lwlock"@)) as usize,
            timeout: count_sessions(rows, SessionFilter::WaitType("timeout"@)) as usize,
        }
    }

    /// All counts zero: the breakdown of no sessions.
    pub fn new() -> (r: Self)
        ensures
            r == Self::from_sessions(Seq::empty()),
    {
        PgCurrentWaitTypes {
            on_cpu: 0,
            activity: 0,
            buffer_pin: 0,
            client: 0,
            extension: 0,
            io: 0,
            ipc: 0,
            lock: 0,
            lwlock: 0,
            timeout: 0,
        }
    }

    /// Counts the active sessions of a sample by wait event type.
    pub fn process_pg_stat_activity(pg_stat_activity: &Vec<PgStatActivity>) -> (r: Self)
        ensures
            r == Self::from_sessions(pg_stat_activity@),
    {
        PgCurrentWaitTypes {
            on_cpu: count_on_cpu(pg_stat_activity),
            activity: count_wait_type(pg_stat_activity, "activity"),
            buffer_pin: count_wait_type(pg_stat_activity, "bufferpin"),
            client: count_wait_type(pg_stat_activity, "client"),
            extension: count_wait_type(pg_stat_activity, "extension"),
            io: count_wait_type(pg_stat_activity, "io"),
            ipc: count_wait_type(pg_stat_activity, "ipc"),
            lock: count_wait_type(pg_stat_activity, "lock"),
            lwlock: count_wait_type(pg_stat_activity, "lwlock"),
            timeout: count_wait_type(pg_stat_activity, "timeout"),
        }
    }
}

/// The wait events of type `activity` that [`PgWaitTypeActivity`] counts one by one.
pub open spec fn activity_wait_events() -> Seq<Seq<char>> {
    seq![
        "archivermain"@,
        "autovacuummain"@,
        "bgwriterhibernate"@,
        "bgwritermain"@,
        "checkpointermain"@,
        "logicalapplymain"@,
        "logicallaunchermain"@,
        "logicalparallelapplymain"@,
        "recoverywalstream"@,
        "sysloggermain"@,
        "walreceivermain"@,
        "walsendermain"@,
        "walwritermain"@,
    ]
}

/// Active sessions waiting on wait event type `activity`, by wait event; `other`
/// takes the wait events that have no field of their own.
#[derive(Debug, Clone, Copy, PartialEq, Eq)]
pub struct PgWaitTypeActivity {
    pub archivermain: usize,
    pub autovacuummain: usize,
    pub bgwriterhibernate: usize,
    pub bgwritermain: usize,
    pub checkpointermain: usize,
    pub logicalapplymain: usize,
    pub logicallaunchermain: usize,
    pub logicalparallelapplymain: usize,
    pub recoverywalstream: usize,
    pub sysloggermain: usize,
    pub walreceivermain: usize,
    pub walsendermain: usize,
    pub walwritermain: usize,
    pub other: usize,
}

impl PgWaitTypeActivity {
    /// The breakdown by wait event of the sessions of `rows` that are active and
    /// wait on `activity`.
    pub open spec fn from_sessions(rows: Seq<PgStatActivity>) -> PgWaitTypeActivity {
        PgWaitTypeActivity {
            archivermain: count_sessions(rows, SessionFilter::WaitEvent("activity"@, "archivermain"@)) as usize,
            autovacuummain: count_sessions(rows, SessionFilter::WaitEvent("activity"@, "autovacuummain"@)) as usize,
            bgwriterhibernate: count_sessions(rows, SessionFilter::WaitEvent("activity"@, "bgwriterhibernate"@)) as usize,
            bgwritermain: count_sessions(rows, SessionFilter::WaitEvent("activity"@, "bgwritermain"@)) as usize,
            checkpointermain: count_sessions(rows, SessionFilter::WaitEvent("activity"@, "checkpointermain"@)) as usize,
            logicalapplymain: count_sessions(rows, SessionFilter::WaitEvent("activity"@, "logicalapplymain"@)) as usize,
            logicallaunchermain: count_sessions(rows, SessionFilter::WaitEvent("activity"@, "logicallaunchermain"@)) as usize,
            logicalparallelapplymain: count_sessions(rows, SessionFilter::WaitEvent("activity"@, "logicalparallelapplymain"@)) as usize,
            recoverywalstream: count_sessions(rows, SessionFilter::WaitEvent("activity"@, "recoverywalstream"@)) as usize,
            sysloggermain: count_sessions(rows, SessionFilter::WaitEvent("activity"@, "sysloggermain"@)) as usize,
            walreceivermain: count_sessions(rows, SessionFilter::WaitEvent("activity"@, "walreceivermain"@)) as usize,
            walsendermain: count_sessions(rows, SessionFilter::WaitEvent("activity"@, "walsendermain"@)) as usize,
            walwritermain: count_sessions(rows, SessionFilter::WaitEvent("activity"@, "walwritermain"@)) as usize,
            other: count_sessions(rows, SessionFilter::UnlistedEvent("activity"@, activity_wait_events())) as usize,
        }
    }

    /// All counts zero: the breakdown of no sessions.
    pub fn new() -> (r: Self)
        ensures
            r == Self::from_sessions(Seq::empty()),
    {
        PgWaitTypeActivity {
            archivermain: 0,
            autovacuummain: 0,
            bgwriterhibernate: 0,
            bgwritermain: 0,
            checkpointermain: 0,
            logicalapplymain: 0,
            logicallaunchermain: 0,
            logicalparallelapplymain: 0,
            recoverywalstream: 0,
            sysloggermain: 0,
            walreceivermain: 0,
            walsendermain: 0,
            walwritermain: 0,
            other: 0,
        }
    }

    /// The counts in field order, `other` last.
    pub open spec fn value_seq(self) -> Seq<usize> {
        seq![
            self.archivermain,
            self.autovacuummain,
            self.bgwriterhibernate,
            self.bgwritermain,
            self.checkpointermain,
            self.logicalapplymain,
            self.logicallaunchermain,
            self.logicalparallelapplymain,
            self.recoverywalstream,
            self.sysloggermain,
            self.walreceivermain,
            self.walsendermain,
            self.walwritermain,
            self.other,
        ]
    }

    /// The counts as [`Self::value_seq`] orders them.
    pub fn values(&self) -> (r: Vec<usize>)
        ensures
            r@ == self.value_seq(),
    {
        vec![
            self.archivermain,
            self.autovacuummain,
            self.bgwriterhibernate,
            self.bgwritermain,
            self.checkpointermain,
            self.logicalapplymain,
            self.logicallaunchermain,
            self.logicalparallelapplymain,
            self.recoverywalstream,
            self.sysloggermain,
            self.walreceivermain,
            self.walsendermain,
            self.walwritermain,
            self.other,
        ]
    }

    /// Counts the active sessions of a sample that wait on `activity`, by wait event.
    pub fn process_pg_stat_activity(pg_stat_activity: &Vec<PgStatActivity>) -> (r: Self)
        ensures
            r == Self::from_sessions(pg_stat_activity@),
    {
        let events: Vec<&str> = vec![
            "archivermain",
            "autovacuummain",
            "bgwriterhibernate",
            "bgwritermain",
            "checkpointermain",
            "logicalapplymain",
            "logicallaunchermain",
            "logicalparallelapplymain",
            "recoverywalstream",
            "sysloggermain",
            "walreceivermain",
            "walsendermain",
            "walwritermain",
        ];
        let counts = count_wait_events(pg_stat_activity, "activity", &events);
        proof {
            assert(crate::activity::texts_of(events@) =~= activity_wait_events());
        }
        PgWaitTypeActivity {
            archivermain: counts[0],
            autovacuummain: counts[1],
            bgwriterhibernate: counts[2],
            bgwritermain: counts[3],
            checkpointermain: counts[4],
            logicalapplymain: counts[5],
            logicallaunchermain: counts[6],
            logicalparallelapplymain: counts[7],
            recoverywalstream: counts[8],
            sysloggermain: counts[9],
            walreceivermain: counts[10],
            walsendermain: counts[11],
            walwritermain: counts[12],
            other: counts[13],
        }
    }
}

/// The wait events of type `bufferpin` that [`PgWaitTypeBufferPin`] counts one by one.
pub open spec fn bufferpin_wait_events() -> Seq<Seq<char>> {
    seq![
        "bufferpin"@,
    ]
}

/// Active sessions waiting on wait event type `bufferpin`, by wait event; `other`
/// takes the wait events that have no field of their own.
#[derive(Debug, Clone, Copy, PartialEq, Eq)]
pub struct PgWaitTypeBufferPin {
    pub bufferpin: usize,
    pub other: usize,
}

impl PgWaitTypeBufferPin {
    /// The breakdown by wait event of the sessions of `rows` that are active and
    /// wait on `bufferpin`.
    pub open spec fn from_sessions(rows: Seq<PgStatActivity>) -> PgWaitTypeBufferPin {
        PgWaitTypeBufferPin {
            bufferpin: count_sessions(rows, SessionFilter::WaitEvent("bufferpin"@, "bufferpin"@)) as usize,
            other: count_sessions(rows, SessionFilter::UnlistedEvent("bufferpin"@, bufferpin_wait_events())) as usize,
        }
    }

    /// All counts zero: the breakdown of no sessions.
    pub fn new() -> (r: Self)
        ensures
            r == Self::from_sessions(Seq::empty()),
    {
        PgWaitTypeBufferPin {
            bufferpin: 0,
            other: 0,
        }
    }

    /// The counts in field order, `other` last.
    pub open spec fn value_seq(self) -> Seq<usize> {
        seq![
            self.bufferpin,
            self.other,
        ]
    }

    /// The counts as [`Self::value_seq`] orders them.
    pub fn values(&self) -> (r: Vec<usize>)
        ensures
            r@ == self.value_seq(),
    {
        vec![
            self.bufferpin,
            self.other,
        ]
    }

    /// Counts the active sessions of a sample that wait on `bufferpin`, by wait event.
    pub fn process_pg_stat_activity(pg_stat_activity: &Vec<PgStatActivity>) -> (r: Self)
        ensures
            r == Self::from_sessions(pg_stat_activity@),
    {
        let events: Vec<&str> = vec![
            "bufferpin",
        ];
        let counts = count_wait_events(pg_stat_activity, "bufferpin", &events);
        proof {
            assert(crate::activity::texts_of(events@) =~= bufferpin_wait_events());
        }
        PgWaitTypeBufferPin {
            bufferpin: counts[0],
            other: counts[1],
        }
    }
}

/// The wait events of type `client` that [`PgWaitTypeClient`] counts one by one.
pub open spec fn client_wait_events() -> Seq<Seq<char>> {
    seq![
        "clientread"@,
        "clientwrite"@,
        "gssopenserver"@,
        "libpqwalreceiverconnect"@,
        "Libpqwalreceiverreceive"@,
        "sslopenserver"@,
        "walsenderwaitforwal"@,
        "walsenderwritedata"@,
    ]
}

/// Active sessions waiting on wait event type `client`, by wait event; `other`
/// takes the wait events that have no field of their own.
#[derive(Debug, Clone, Copy, PartialEq, Eq)]
pub struct PgWaitTypeClient {
    pub clientread: usize,
    pub clientwrite: usize,
    pub gssopenserver: usize,
    pub libpqwalreceiverconnect: usize,
    pub libpqwalreceiverreceive: usize,
    pub sslopenserver: usize,
    pub walsenderwaitforwal: usize,
    pub walsenderwritedata: usize,
    pub other: usize,
}

impl PgWaitTypeClient {
    /// The breakdown by wait event of the sessions of `rows` that are active and
    /// wait on `client`.
    pub open spec fn from_sessions(rows: Seq<PgStatActivity>) -> PgWaitTypeClient {
        PgWaitTypeClient {
            clientread: count_sessions(rows, SessionFilter::WaitEvent("client"@, "clientread"@)) as usize,
            clientwrite: count_sessions(rows, SessionFilter::WaitEvent("client"@, "clientwrite"@)) as usize,
            gssopenserver: count_sessions(rows, SessionFilter::WaitEvent("client"@, "gssopenserver"@)) as usize,
            libpqwalreceiverconnect: count_sessions(rows, SessionFilter::WaitEvent("client"@, "libpqwalreceiverconnect"@)) as usize,
            libpqwalreceiverreceive: count_sessions(rows, SessionFilter::WaitEvent("client"@, "Libpqwalreceiverreceive"@)) as usize,
            sslopenserver: count_sessions(rows, SessionFilter::WaitEvent("client"@, "sslopenserver"@)) as usize,
            walsenderwaitforwal: count_sessions(rows, SessionFilter::WaitEvent("client"@, "walsenderwaitforwal"@)) as usize,
            walsenderwritedata: count_sessions(rows, SessionFilter::WaitEvent("client"@, "walsenderwritedata"@)) as usize,
            other: count_sessions(rows, SessionFilter::UnlistedEvent("client"@, client_wait_events())) as usize,
        }
    }

    /// All counts zero: the breakdown of no sessions.
    pub fn new() -> (r: Self)
        ensures
            r == Self::from_sessions(Seq::empty()),
    {
        PgWaitTypeClient {
            clientread: 0,
            clientwrite: 0,
            gssopenserver: 0,
            libpqwalreceiverconnect: 0,
            libpqwalreceiverreceive: 0,
            sslopenserver: 0,
            walsenderwaitforwal: 0,
            walsenderwritedata: 0,
            other: 0,
        }
    }

    /// The counts in field order, `other` last.
    pub open spec fn value_seq(self) -> Seq<usize> {
        seq![
            self.clientread,
            self.clientwrite,
            self.gssopenserver,
            self.libpqwalreceiverconnect,
            self.libpqwalreceiverreceive,
            self.sslopenserver,
            self.walsenderwaitforwal,
            self.walsenderwritedata,
            self.other,
        ]
    }

    /// The counts as [`Self::value_seq`] orders them.
    pub fn values(&self) -> (r: Vec<usize>)
        ensures
            r@ == self.value_seq(),
    {
        vec![
            self.clientread,
            self.clientwrite,
            self.gssopenserver,
            self.libpqwalreceiverconnect,
            self.libpqwalreceiverreceive,
            self.sslopenserver,
            self.walsenderwaitforwal,
            self.walsenderwritedata,
            self.other,
        ]
    }

    /// Counts the active sessions of a sample that wait on `client`, by wait event.
    pub fn process_pg_stat_activity(pg_stat_activity: &Vec<PgStatActivity>) -> (r: Self)
        ensures
            r == Self::from_sessions(pg_stat_activity@),
    {
        let events: Vec<&str> = vec![
            "clientread",
            "clientwrite",
            "gssopenserver",
            "libpqwalreceiverconnect",
            "Libpqwalreceiverreceive",
            "sslopenserver",
            "walsenderwaitforwal",
            "walsenderwritedata",
        ];
        let counts = count_wait_events(pg_stat_activity, "client", &events);
        proof {
            assert(crate::activity::texts_of(events@) =~= client_wait_events());
        }
        PgWaitTypeClient {
            clientread: counts[0],
            clientwrite: counts[1],
            gssopenserver: counts[2],
            libpqwalreceiverconnect: counts[3],
            libpqwalreceiverreceive: counts[4],
            sslopenserver: counts[5],
            walsenderwaitforwal: counts[6],
            walsenderwritedata: counts[7],
            other: counts[8],
        }
    }
}

/// The wait events of type `extension` that [`PgWaitTypeExtension`] counts one by one.
pub open spec fn extension_wait_events() -> Seq<Seq<char>> {
    seq![
        "extension"@,
    ]
}

/// Active sessions waiting on wait event type `extension`, by wait event; `other`
/// takes the wait events that have no field of their own.
#[derive(Debug, Clone, Copy, PartialEq, Eq)]
pub struct PgWaitTypeExtension {
    pub extension: usize,
    pub other: usize,
}

impl PgWaitTypeExtension {
    /// The breakdown by wait event of the sessions of `rows` that are active and
    /// wait on `extension`.
    pub open spec fn from_sessions(rows: Seq<PgStatActivity>) -> PgWaitTypeExtension {
        PgWaitTypeExtension {
            extension: count_sessions(rows, SessionFilter::WaitEvent("extension"@, "extension"@)) as usize,
            other: count_sessions(rows, SessionFilter::UnlistedEvent("extension"@, extension_wait_events())) as usize,
        }
    }

    /// All counts zero: the breakdown of no sessions.
    pub fn new() -> (r: Self)
        ensures
            r == Self::from_sessions(Seq::empty()),
    {
        PgWaitTypeExtension {
            extension: 0,
            other: 0,
        }
    }

    /// The counts in field order, `other` last.
    pub open spec fn value_seq(self) -> Seq<usize> {
        seq![
            self.extension,
            self.other,
        ]
    }

    /// The counts as [`Self::value_seq`] orders them.
    pub fn values(&self) -> (r: Vec<usize>)
        ensures
            r@ == self.value_seq(),
    {
        vec![
            self.extension,
            self.other,
        ]
    }

    /// Counts the active sessions of a sample that wait on `extension`, by wait event.
    pub fn process_pg_stat_activity(pg_stat_activity: &Vec<PgStatActivity>) -> (r: Self)
        ensures
            r == Self::from_sessions(pg_stat_activity@),
    {
        let events: Vec<&str> = vec![
            "extension",
        ];
        let counts = count_wait_events(pg_stat_activity, "extension", &events);
        proof {
            assert(crate::activity::texts_of(events@) =~= extension_wait_events());
        }
        PgWaitTypeExtension {
            extension: counts[0],
            other: counts[1],
        }
    }
}

/// The wait events of type `io` that [`PgWaitTypeIO`] counts one by one.
pub open spec fn io_wait_events() -> Seq<Seq<char>> {
    seq![
        "basebackupread"@,
        "basebackupsync"@,
        "basebackupwrite"@,
        "buffileread"@,
        "buffiletruncate"@,
        "buffilewrite"@,
        "controlfileread"@,
        "controlfilesync"@,
        "controlfilesyncupdate"@,
        "controlfilewrite"@,
        "controlfilewriteupdate"@,
        "copyfileread"@,
        "copyfilewrite"@,
        "dsmallocate"@,
        "dsmfillzerowrite"@,
        "datafileextend"@,
        "datafileflush"@,
        "datafileimmediatesync"@,
        "datafileprefetch"@,
        "datafileread"@,
        "datafilesync"@,
        "datafiletruncate"@,
        "datafilewrite"@,
        "lockfileaddtodatadirread"@,
        "lockfileaddtodatadirsync"@,
        "lockfileaddtodatadirwrite"@,
        "lockfilecreateread"@,
        "lockfilecreatesync"@,
        "lockfilecreatewrite"@,
        "lockfilerecheckdatadirread"@,
        "logicalrewritecheckpointsync"@,
        "logicalrewritemappingsync"@,
        "logicalrewritemappingwrite"@,
        "logicalrewritesync"@,
        "logicalrewritetruncate"@,
        "logicalrewritewrite"@,
        "relationmapread"@,
        "relationmapreplace"@,
        "relationmapwrite"@,
        "reorderbufferread"@,
        "reorderbufferwrite"@,
        "reorderlogicalmappingread"@,
        "replicationslotread"@,
        "replicationslotrestoresync"@,
        "replicationslotsync"@,
        "replicationslotwrite"@,
        "slruflushsync"@,
        "slruread"@,
        "slrusync"@,
        "slruwrite"@,
        "snapbuildread"@,
        "snapbuildsync"@,
        "snapbuildwrite"@,
        "timelinehistoryfilesync"@,
        "timelinehistoryfilewrite"@,
        "timelinehistoryread"@,
        "timelinehistorysync"@,
        "timelinehistorywrite"@,
        "twophasefileread"@,
        "twophasefilesync"@,
        "twophasefilewrite"@,
        "versionfilesync"@,
        "versionfilewrite"@,
        "walbootstrapsync"@,
        "walbootstrapwrite"@,
        "walcopyread"@,
        "walcopysync"@,
        "walcopywrite"@,
        "walinitsync"@,
        "walinitwrite"@,
        "walread"@,
        "walsendertimelinehistoryread"@,
        "walsync"@,
        "walsyncmethodassign"@,
        "walwrite"@,
    ]
}

/// Active sessions waiting on wait event type `io`, by wait event; `other`
/// takes the wait events that have no field of their own.
#[derive(Debug, Clone, Copy, PartialEq, Eq)]
pub struct PgWaitTypeIO {
    pub basebackupread: usize,
    pub basebackupsync: usize,
    pub basebackupwrite: usize,
    pub buffileread: usize,
    pub buffiletruncate: usize,
    pub buffilewrite: usize,
    pub controlfileread: usize,
    pub controlfilesync: usize,
    pub controlfilesyncupdate: usize,
    pub controlfilewrite: usize,
    pub controlfilewriteupdate: usize,
    pub copyfileread: usize,
    pub copyfilewrite: usize,
    pub dsmallocate: usize,
    pub dsmfillzerowrite: usize,
    pub datafileextend: usize,
    pub datafileflush: usize,
    pub datafileimmediatesync: usize,
    pub datafileprefetch: usize,
    pub datafileread: usize,
    pub datafilesync: usize,
    pub datafiletruncate: usize,
    pub datafilewrite: usize,
    pub lockfileaddtodatadirread: usize,
    pub lockfileaddtodatadirsync: usize,
    pub lockfileaddtodatadirwrite: usize,
    pub lockfilecreateread: usize,
    pub lockfilecreatesync: usize,
    pub lockfilecreatewrite: usize,
    pub lockfilerecheckdatadirread: usize,
    pub logicalrewritecheckpointsync: usize,
    pub logicalrewritemappingsync: usize,
    pub logicalrewritemappingwrite: usize,
    pub logicalrewritesync: usize,
    pub logicalrewritetruncate: usize,
    pub logicalrewritewrite: usize,
    pub relationmapread: usize,
    pub relationmapreplace: usize,
    pub relationmapwrite: usize,
    pub reorderbufferread: usize,
    pub reorderbufferwrite: usize,
    pub reorderlogicalmappingread: usize,
    pub replicationslotread: usize,
    pub replicationslotrestoresync: usize,
    pub replicationslotsync: usize,
    pub replicationslotwrite: usize,
    pub slruflushsync: usize,
    pub slruread: usize,
    pub slrusync: usize,
    pub slruwrite: usize,
    pub snapbuildread: usize,
    pub snapbuildsync: usize,
    pub snapbuildwrite: usize,
    pub timelinehistoryfilesync: usize,
    pub timelinehistoryfilewrite: usize,
    pub timelinehistoryread: usize,
    pub timelinehistorysync: usize,
    pub timelinehistorywrite: usize,
    pub twophasefileread: usize,
    pub twophasefilesync: usize,
    pub twophasefilewrite: usize,
    pub versionfilesync: usize,
    pub versionfilewrite: usize,
    pub walbootstrapsync: usize,
    pub walbootstrapwrite: usize,
    pub walcopyread: usize,
    pub walcopysync: usize,
    pub walcopywrite: usize,
    pub walinitsync: usize,
    pub walinitwrite: usize,
    pub walread: usize,
    pub walsendertimelinehistoryread: usize,
    pub walsync: usize,
    pub walsyncmethodassign: usize,
    pub walwrite: usize,
    pub other: usize,
}

impl PgWaitTypeIO {
    /// The breakdown by wait event of the sessions of `rows` that are active and
    /// wait on `io`.
    pub open spec fn from_sessions(rows: Seq<PgStatActivity>) -> PgWaitTypeIO {
        PgWaitTypeIO {
            basebackupread: count_sessions(rows, SessionFilter::WaitEvent("io"@, "basebackupread"@)) as usize,
            basebackupsync: count_sessions(rows, SessionFilter::WaitEvent("io"@, "basebackupsync"@)) as usize,
            basebackupwrite: count_sessions(rows, SessionFilter::WaitEvent("io"@, "basebackupwrite"@)) as usize,
            buffileread: count_sessions(rows, SessionFilter::WaitEvent("io"@, "buffileread"@)) as usize,
            buffiletruncate: count_sessions(rows, SessionFilter::WaitEvent("io"@, "buffiletruncate"@)) as usize,
            buffilewrite: count_sessions(rows, SessionFilter::WaitEvent("io"@, "buffilewrite"@)) as usize,
            controlfileread: count_sessions(rows, SessionFilter::WaitEvent("io"@, "controlfileread"@)) as usize,
            controlfilesync: count_sessions(rows, SessionFilter::WaitEvent("io"@, "controlfilesync"@)) as usize,
            controlfilesyncupdate: count_sessions(rows, SessionFilter::WaitEvent("io"@, "controlfilesyncupdate"@)) as usize,
            controlfilewrite: count_sessions(rows, SessionFilter::WaitEvent("io"@, "controlfilewrite"@)) as usize,
            controlfilewriteupdate: count_sessions(rows, SessionFilter::WaitEvent("io"@, "controlfilewriteupdate"@)) as usize,
            copyfileread: count_sessions(rows, SessionFilter::WaitEvent("io"@, "copyfileread"@)) as usize,
            copyfilewrite: count_sessions(rows, SessionFilter::WaitEvent("io"@, "copyfilewrite"@)) as usize,
            dsmallocate: count_sessions(rows, SessionFilter::WaitEvent("io"@, "dsmallocate"@)) as usize,
            dsmfillzerowrite: count_sessions(rows, SessionFilter::WaitEvent("io"@, "dsmfillzerowrite"@)) as usize,
            datafileextend: count_sessions(rows, SessionFilter::WaitEvent("io"@, "datafileextend"@)) as usize,
            datafileflush: count_sessions(rows, SessionFilter::WaitEvent("io"@, "datafileflush"@)) as usize,
            datafileimmediatesync: count_sessions(rows, SessionFilter::WaitEvent("io"@, "datafileimmediatesync"@)) as usize,
            datafileprefetch: count_sessions(rows, SessionFilter::WaitEvent("io"@, "datafileprefetch"@)) as usize,
            datafileread: count_sessions(rows, SessionFilter::WaitEvent("io"@, "datafileread"@)) as usize,
            datafilesync: count_sessions(rows, SessionFilter::WaitEvent("io"@, "datafilesync"@)) as usize,
            datafiletruncate: count_sessions(rows, SessionFilter::WaitEvent("io"@, "datafiletruncate"@)) as usize,
            datafilewrite: count_sessions(rows, SessionFilter::WaitEvent("io"@, "datafilewrite"@)) as usize,
            lockfileaddtodatadirread: count_sessions(rows, SessionFilter::WaitEvent("io"@, "lockfileaddtodatadirread"@)) as usize,
            lockfileaddtodatadirsync: count_sessions(rows, SessionFilter::WaitEvent("io"@, "lockfileaddtodatadirsync"@)) as usize,
            lockfileaddtodatadirwrite: count_sessions(rows, SessionFilter::WaitEvent("io"@, "lockfileaddtodatadirwrite"@)) as usize,
            lockfilecreateread: count_sessions(rows, SessionFilter::WaitEvent("io"@, "lockfilecreateread"@)) as usize,
            lockfilecreatesync: count_sessions(rows, SessionFilter::WaitEvent("io"@, "lockfilecreatesync"@)) as usize,
            lockfilecreatewrite: count_sessions(rows, SessionFilter::WaitEvent("io"@, "lockfilecreatewrite"@)) as usize,
            lockfilerecheckdatadirread: count_sessions(rows, SessionFilter::WaitEvent("io"@, "lockfilerecheckdatadirread"@)) as usize,
            logicalrewritecheckpointsync: count_sessions(rows, SessionFilter::WaitEvent("io"@, "logicalrewritecheckpointsync"@)) as usize,
            logicalrewritemappingsync: count_sessions(rows, SessionFilter::WaitEvent("io"@, "logicalrewritemappingsync"@)) as usize,
            logicalrewritemappingwrite: count_sessions(rows, SessionFilter::WaitEvent("io"@, "logicalrewritemappingwrite"@)) as usize,
            logicalrewritesync: count_sessions(rows, SessionFilter::WaitEvent("io"@, "logicalrewritesync"@)) as usize,
            logicalrewritetruncate: count_sessions(rows, SessionFilter::WaitEvent("io"@, "logicalrewritetruncate"@)) as usize,
            logicalrewritewrite: count_sessions(rows, SessionFilter::WaitEvent("io"@, "logicalrewritewrite"@)) as usize,
            relationmapread: count_sessions(rows, SessionFilter::WaitEvent("io"@, "relationmapread"@)) as usize,
            relationmapreplace: count_sessions(rows, SessionFilter::WaitEvent("io"@, "relationmapreplace"@)) as usize,
            relationmapwrite: count_sessions(rows, SessionFilter::WaitEvent("io"@, "relationmapwrite"@)) as usize,
            reorderbufferread: count_sessions(rows, SessionFilter::WaitEvent("io"@, "reorderbufferread"@)) as usize,
            reorderbufferwrite: count_sessions(rows, SessionFilter::WaitEvent("io"@, "reorderbufferwrite"@)) as usize,
            reorderlogicalmappingread: count_sessions(rows, SessionFilter::WaitEvent("io"@, "reorderlogicalmappingread"@)) as usize,
            replicationslotread: count_sessions(rows, SessionFilter::WaitEvent("io"@, "replicationslotread"@)) as usize,
            replicationslotrestoresync: count_sessions(rows, SessionFilter::WaitEvent("io"@, "replicationslotrestoresync"@)) as usize,
            replicationslotsync: count_sessions(rows, SessionFilter::WaitEvent("io"@, "replicationslotsync"@)) as usize,
            replicationslotwrite: count_sessions(rows, SessionFilter::WaitEvent("io"@, "replicationslotwrite"@)) as usize,
            slruflushsync: count_sessions(rows, SessionFilter::WaitEvent("io"@, "slruflushsync"@)) as usize,
            slruread: count_sessions(rows, SessionFilter::WaitEvent("io"@, "slruread"@)) as usize,
            slrusync: count_sessions(rows, SessionFilter::WaitEvent("io"@, "slrusync"@)) as usize,
            slruwrite: count_sessions(rows, SessionFilter::WaitEvent("io"@, "slruwrite"@)) as usize,
            snapbuildread: count_sessions(rows, SessionFilter::WaitEvent("io"@, "snapbuildread"@)) as usize,
            snapbuildsync: count_sessions(rows, SessionFilter::WaitEvent("io"@, "snapbuildsync"@)) as usize,
            snapbuildwrite: count_sessions(rows, SessionFilter::WaitEvent("io"@, "snapbuildwrite"@)) as usize,
            timelinehistoryfilesync: count_sessions(rows, SessionFilter::WaitEvent("io"@, "timelinehistoryfilesync"@)) as usize,
            timelinehistoryfilewrite: count_sessions(rows, SessionFilter::WaitEvent("io"@, "timelinehistoryfilewrite"@)) as usize,
            timelinehistoryread: count_sessions(rows, SessionFilter::WaitEvent("io"@, "timelinehistoryread"@)) as usize,
            timelinehistorysync: count_sessions(rows, SessionFilter::WaitEvent("io"@, "timelinehistorysync"@)) as usize,
            timelinehistorywrite: count_sessions(rows, SessionFilter::WaitEvent("io"@, "timelinehistorywrite"@)) as usize,
            twophasefileread: count_sessions(rows, SessionFilter::WaitEvent("io"@, "twophasefileread"@)) as usize,
            twophasefilesync: count_sessions(rows, SessionFilter::WaitEvent("io"@, "twophasefilesync"@)) as usize,
            twophasefilewrite: count_sessions(rows, SessionFilter::WaitEvent("io"@, "twophasefilewrite"@)) as usize,
            versionfilesync: count_sessions(rows, SessionFilter::WaitEvent("io"@, "versionfilesync"@)) as usize,
            versionfilewrite: count_sessions(rows, SessionFilter::WaitEvent("io"@, "versionfilewrite"@)) as usize,
            walbootstrapsync: count_sessions(rows, SessionFilter::WaitEvent("io"@, "walbootstrapsync"@)) as usize,
            walbootstrapwrite: count_sessions(rows, SessionFilter::WaitEvent("io"@, "walbootstrapwrite"@)) as usize,
            walcopyread: count_sessions(rows, SessionFilter::WaitEvent("io"@, "walcopyread"@)) as usize,
            walcopysync: count_sessions(rows, SessionFilter::WaitEvent("io"@, "walcopysync"@)) as usize,
            walcopywrite: count_sessions(rows, SessionFilter::WaitEvent("io"@, "walcopywrite"@)) as usize,
            walinitsync: count_sessions(rows, SessionFilter::WaitEvent("io"@, "walinitsync"@)) as usize,
            walinitwrite: count_sessions(rows, SessionFilter::WaitEvent("io"@, "walinitwrite"@)) as usize,
            walread: count_sessions(rows, SessionFilter::WaitEvent("io"@, "walread"@)) as usize,
            walsendertimelinehistoryread: count_sessions(rows, SessionFilter::WaitEvent("io"@, "walsendertimelinehistoryread"@)) as usize,
            walsync: count_sessions(rows, SessionFilter::WaitEvent("io"@, "walsync"@)) as usize,
            walsyncmethodassign: count_sessions(rows, SessionFilter::WaitEvent("io"@, "walsyncmethodassign"@)) as usize,
            walwrite: count_sessions(rows, SessionFilter::WaitEvent("io"@, "walwrite"@)) as usize,
            other: count_sessions(rows, SessionFilter::UnlistedEvent("io"@, io_wait_events())) as usize,
        }
    }

    /// All counts zero: the breakdown of no sessions.
    pub fn new() -> (r: Self)
        ensures
            r == Self::from_sessions(Seq::empty()),
    {
        PgWaitTypeIO {
            basebackupread: 0,
            basebackupsync: 0,
            basebackupwrite: 0,
            buffileread: 0,
            buffiletruncate: 0,
            buffilewrite: 0,
            controlfileread: 0,
            controlfilesync: 0,
            controlfilesyncupdate: 0,
            controlfilewrite: 0,
            controlfilewriteupdate: 0,
            copyfileread: 0,
            copyfilewrite: 0,
            dsmallocate: 0,
            dsmfillzerowrite: 0,
            datafileextend: 0,
            datafileflush: 0,
            datafileimmediatesync: 0,
            datafileprefetch: 0,
            datafileread: 0,
            datafilesync: 0,
            datafiletruncate: 0,
            datafilewrite: 0,
            lockfileaddtodatadirread: 0,
            lockfileaddtodatadirsync: 0,
            lockfileaddtodatadirwrite: 0,
            lockfilecreateread: 0,
            lockfilecreatesync: 0,
            lockfilecreatewrite: 0,
            lockfilerecheckdatadirread: 0,
            logicalrewritecheckpointsync: 0,
            logicalrewritemappingsync: 0,
            logicalrewritemappingwrite: 0,
            logicalrewritesync: 0,
            logicalrewritetruncate: 0,
            logicalrewritewrite: 0,
            relationmapread: 0,
            relationmapreplace: 0,
            relationmapwrite: 0,
            reorderbufferread: 0,
            reorderbufferwrite: 0,
            reorderlogicalmappingread: 0,
            replicationslotread: 0,
            replicationslotrestoresync: 0,
            replicationslotsync: 0,
            replicationslotwrite: 0,
            slruflushsync: 0,
            slruread: 0,
            slrusync: 0,
            slruwrite: 0,
            snapbuildread: 0,
            snapbuildsync: 0,
            snapbuildwrite: 0,
            timelinehistoryfilesync: 0,
            timelinehistoryfilewrite: 0,
            timelinehistoryread: 0,
            timelinehistorysync: 0,
            timelinehistorywrite: 0,
            twophasefileread: 0,
            twophasefilesync: 0,
            twophasefilewrite: 0,
            versionfilesync: 0,
            versionfilewrite: 0,
            walbootstrapsync: 0,
            walbootstrapwrite: 0,
            walcopyread: 0,
            walcopysync: 0,
            walcopywrite: 0,
            walinitsync: 0,
            walinitwrite: 0,
            walread: 0,
            walsendertimelinehistoryread: 0,
            walsync: 0,
            walsyncmethodassign: 0,
            walwrite: 0,
            other: 0,
        }
    }

    /// The counts in field order, `other` last.
    pub open spec fn value_seq(self) -> Seq<usize> {
        seq![
            self.basebackupread,
            self.basebackupsync,
            self.basebackupwrite,
            self.buffileread,
            self.buffiletruncate,
            self.buffilewrite,
            self.controlfileread,
            self.controlfilesync,
            self.controlfilesyncupdate,
            self.controlfilewrite,
            self.controlfilewriteupdate,
            self.copyfileread,
            self.copyfilewrite,
            self.dsmallocate,
            self.dsmfillzerowrite,
            self.datafileextend,
            self.datafileflush,
            self.datafileimmediatesync,
            self.datafileprefetch,
            self.datafileread,
            self.datafilesync,
            self.datafiletruncate,
            self.datafilewrite,
            self.lockfileaddtodatadirread,
            self.lockfileaddtodatadirsync,
            self.lockfileaddtodatadirwrite,
            self.lockfilecreateread,
            self.lockfilecreatesync,
            self.lockfilecreatewrite,
            self.lockfilerecheckdatadirread,
            self.logicalrewritecheckpointsync,
            self.logicalrewritemappingsync,
            self.logicalrewritemappingwrite,
            self.logicalrewritesync,
            self.logicalrewritetruncate,
            self.logicalrewritewrite,
            self.relationmapread,
            self.relationmapreplace,
            self.relationmapwrite,
            self.reorderbufferread,
            self.reorderbufferwrite,
            self.reorderlogicalmappingread,
            self.replicationslotread,
            self.replicationslotrestoresync,
            self.replicationslotsync,
            self.replicationslotwrite,
            self.slruflushsync,
            self.slruread,
            self.slrusync,
            self.slruwrite,
            self.snapbuildread,
            self.snapbuildsync,
            self.snapbuildwrite,
            self.timelinehistoryfilesync,
            self.timelinehistoryfilewrite,
            self.timelinehistoryread,
            self.timelinehistorysync,
            self.timelinehistorywrite,
            self.twophasefileread,
            self.twophasefilesync,
            self.twophasefilewrite,
            self.versionfilesync,
            self.versionfilewrite,
            self.walbootstrapsync,
            self.walbootstrapwrite,
            self.walcopyread,
            self.walcopysync,
            self.walcopywrite,
            self.walinitsync,
            self.walinitwrite,
            self.walread,
            self.walsendertimelinehistoryread,
            self.walsync,
            self.walsyncmethodassign,
            self.walwrite,
            self.other,
        ]
    }

    /// The counts as [`Self::value_seq`] orders them.
    pub fn values(&self) -> (r: Vec<usize>)
        ensures
            r@ == self.value_seq(),
    {
        vec![
            self.basebackupread,
            self.basebackupsync,
            self.basebackupwrite,
            self.buffileread,
            self.buffiletruncate,
            self.buffilewrite,
            self.controlfileread,
            self.controlfilesync,
            self.controlfilesyncupdate,
            self.controlfilewrite,
            self.controlfilewriteupdate,
            self.copyfileread,
            self.copyfilewrite,
            self.dsmallocate,
            self.dsmfillzerowrite,
            self.datafileextend,
            self.datafileflush,
            self.datafileimmediatesync,
            self.datafileprefetch,
            self.datafileread,
            self.datafilesync,
            self.datafiletruncate,
            self.datafilewrite,
            self.lockfileaddtodatadirread,
            self.lockfileaddtodatadirsync,
            self.lockfileaddtodatadirwrite,
            self.lockfilecreateread,
            self.lockfilecreatesync,
            self.lockfilecreatewrite,
            self.lockfilerecheckdatadirread,
            self.logicalrewritecheckpointsync,
            self.logicalrewritemappingsync,
            self.logicalrewritemappingwrite,
            self.logicalrewritesync,
            self.logicalrewritetruncate,
            self.logicalrewritewrite,
            self.relationmapread,
            self.relationmapreplace,
            self.relationmapwrite,
            self.reorderbufferread,
            self.reorderbufferwrite,
            self.reorderlogicalmappingread,
            self.replicationslotread,
            self.replicationslotrestoresync,
            self.replicationslotsync,
            self.replicationslotwrite,
            self.slruflushsync,
            self.slruread,
            self.slrusync,
            self.slruwrite,
            self.snapbuildread,
            self.snapbuildsync,
            self.snapbuildwrite,
            self.timelinehistoryfilesync,
            self.timelinehistoryfilewrite,
            self.timelinehistoryread,
            self.timelinehistorysync,
            self.timelinehistorywrite,
            self.twophasefileread,
            self.twophasefilesync,
            self.twophasefilewrite,
            self.versionfilesync,
            self.versionfilewrite,
            self.walbootstrapsync,
            self.walbootstrapwrite,
            self.walcopyread,
            self.walcopysync,
            self.walcopywrite,
            self.walinitsync,
            self.walinitwrite,
            self.walread,
            self.walsendertimelinehistoryread,
            self.walsync,
            self.walsyncmethodassign,
            self.walwrite,
            self.other,
        ]
    }

    /// Counts the active sessions of a sample that wait on `io`, by wait event.
    pub fn process_pg_stat_activity(pg_stat_activity: &Vec<PgStatActivity>) -> (r: Self)
        ensures
            r == Self::from_sessions(pg_stat_activity@),
    {
        let events: Vec<&str> = vec![
            "basebackupread",
            "basebackupsync",
            "basebackupwrite",
            "buffileread",
            "buffiletruncate",
            "buffilewrite",
            "controlfileread",
            "controlfilesync",
            "controlfilesyncupdate",
            "controlfilewrite",
            "controlfilewriteupdate",
            "copyfileread",
            "copyfilewrite",
            "dsmallocate",
            "dsmfillzerowrite",
            "datafileextend",
            "datafileflush",
            "datafileimmediatesync",
            "datafileprefetch",
            "datafileread",
            "datafilesync",
            "datafiletruncate",
            "datafilewrite",
            "lockfileaddtodatadirread",
            "lockfileaddtodatadirsync",
            "lockfileaddtodatadirwrite",
            "lockfilecreateread",
            "lockfilecreatesync",
            "lockfilecreatewrite",
            "lockfilerecheckdatadirread",
            "logicalrewritecheckpointsync",
            "logicalrewritemappingsync",
            "logicalrewritemappingwrite",
            "logicalrewritesync",
            "logicalrewritetruncate",
            "logicalrewritewrite",
            "relationmapread",
            "relationmapreplace",
            "relationmapwrite",
            "reorderbufferread",
            "reorderbufferwrite",
            "reorderlogicalmappingread",
            "replicationslotread",
            "replicationslotrestoresync",
            "replicationslotsync",
            "replicationslotwrite",
            "slruflushsync",
            "slruread",
            "slrusync",
            "slruwrite",
            "snapbuildread",
            "snapbuildsync",
            "snapbuildwrite",
            "timelinehistoryfilesync",
            "timelinehistoryfilewrite",
            "timelinehistoryread",
            "timelinehistorysync",
            "timelinehistorywrite",
            "twophasefileread",
            "twophasefilesync",
            "twophasefilewrite",
            "versionfilesync",
            "versionfilewrite",
            "walbootstrapsync",
            "walbootstrapwrite",
            "walcopyread",
            "walcopysync",
            "walcopywrite",
            "walinitsync",
            "walinitwrite",
            "walread",
            "walsendertimelinehistoryread",
            "walsync",
            "walsyncmethodassign",
            "walwrite",
        ];
        let counts = count_wait_events(pg_stat_activity, "io", &events);
        proof {
            assert(crate::activity::texts_of(events@) =~= io_wait_events());
        }
        PgWaitTypeIO {
            basebackupread: counts[0],
            basebackupsync: counts[1],
            basebackupwrite: counts[2],
            buffileread: counts[3],
            buffiletruncate: counts[4],
            buffilewrite: counts[5],
            controlfileread: counts[6],
            controlfilesync: counts[7],
            controlfilesyncupdate: counts[8],
            controlfilewrite: counts[9],
            controlfilewriteupdate: counts[10],
            copyfileread: counts[11],
            copyfilewrite: counts[12],
            dsmallocate: counts[13],
            dsmfillzerowrite: counts[14],
            datafileextend: counts[15],
            datafileflush: counts[16],
            datafileimmediatesync: counts[17],
            datafileprefetch: counts[18],
            datafileread: counts[19],
            datafilesync: counts[20],
            datafiletruncate: counts[21],
            datafilewrite: counts[22],
            lockfileaddtodatadirread: counts[23],
            lockfileaddtodatadirsync: counts[24],
            lockfileaddtodatadirwrite: counts[25],
            lockfilecreateread: counts[26],
            lockfilecreatesync: counts[27],
            lockfilecreatewrite: counts[28],
            lockfilerecheckdatadirread: counts[29],
            logicalrewritecheckpointsync: counts[30],
            logicalrewritemappingsync: counts[31],
            logicalrewritemappingwrite: counts[32],
            logicalrewritesync: counts[33],
            logicalrewritetruncate: counts[34],
            logicalrewritewrite: counts[35],
            relationmapread: counts[36],
            relationmapreplace: counts[37],
            relationmapwrite: counts[38],
            reorderbufferread: counts[39],
            reorderbufferwrite: counts[40],
            reorderlogicalmappingread: counts[41],
            replicationslotread: counts[42],
            replicationslotrestoresync: counts[43],
            replicationslotsync: counts[44],
            replicationslotwrite: counts[45],
            slruflushsync: counts[46],
            slruread: counts[47],
            slrusync: counts[48],
            slruwrite: counts[49],
            snapbuildread: counts[50],
            snapbuildsync: counts[51],
            snapbuildwrite: counts[52],
            timelinehistoryfilesync: counts[53],
            timelinehistoryfilewrite: counts[54],
            timelinehistoryread: counts[55],
            timelinehistorysync: counts[56],
            timelinehistorywrite: counts[57],
            twophasefileread: counts[58],
            twophasefilesync: counts[59],
            twophasefilewrite: counts[60],
            versionfilesync: counts[61],
            versionfilewrite: counts[62],
            walbootstrapsync: counts[63],
            walbootstrapwrite: counts[64],
            walcopyread: counts[65],
            walcopysync: counts[66],
            walcopywrite: counts[67],
            walinitsync: counts[68],
            walinitwrite: counts[69],
            walread: counts[70],
            walsendertimelinehistoryread: counts[71],
            walsync: counts[72],
            walsyncmethodassign: counts[73],
            walwrite: counts[74],
            other: counts[75],
        }
    }
}

/// The wait events of type `ipc` that [`PgWaitTypeIPC`] counts one by one.
pub open spec fn ipc_wait_events() -> Seq<Seq<char>> {
    seq![
        "appendready"@,
        "archivecleanupcommand"@,
        "archivecommand"@,
        "backendtermination"@,
        "backupwaitwalarchive"@,
        "bgworkershutdown"@,
        "bgworkerstartup"@,
        "btreepage"@,
        "bufferio"@,
        "checkpointdone"@,
        "checkpointstart"@,
        "executegather"@,
        "hashbatchallocate"@,
        "hashbatchelect"@,
        "hashbatchload"@,
        "hashbuildallocate"@,
        "hashbuildelect"@,
        "hashbuildhashinner"@,
        "hashbuildhashouter"@,
        "hashgrowbatchesdecide"@,
        "hashgrowbatcheselect"@,
        "hashgrowbatchesfinish"@,
        "hashgrowbatchesreallocate"@,
        "hashgrowbatchesrepartition"@,
        "hashgrowbucketselect"@,
        "hashgrowbucketsreallocate"@,
        "hashgrowbucketsreinsert"@,
        "logicalapplysenddata"@,
        "logicalparallelapplystatechange"@,
        "logicalsyncdata"@,
        "logicalsyncstatechange"@,
        "messagequeueinternal"@,
        "messagequeueputmessage"@,
        "messagequeuereceive"@,
        "messagequeuesend"@,
        "parallelbitmapscan"@,
        "parallelcreateindexscan"@,
        "parallelfinish"@,
        "procarraygroupupdate"@,
        "procsignalbarrier"@,
        "promote"@,
        "recoveryconflictsnapshot"@,
        "recoveryconflicttablespace"@,
        "recoveryendcommand"@,
        "recoverypause"@,
        "replicationorigindrop"@,
        "replicationslotdrop"@,
        "restorecommand"@,
        "safesnapshot"@,
        "syncrep"@,
        "walreceiverexit"@,
        "walreceiverwaitstart"@,
        "xactgroupupdate"@,
    ]
}

/// Active sessions waiting on wait event type `ipc`, by wait event; `other`
/// takes the wait events that have no field of their own.
#[derive(Debug, Clone, Copy, PartialEq, Eq)]
pub struct PgWaitTypeIPC {
    pub appendready: usize,
    pub archivecleanupcommand: usize,
    pub archivecommand: usize,
    pub backendtermination: usize,
    pub backupwaitwalarchive: usize,
    pub bgworkershutdown: usize,
    pub bgworkerstartup: usize,
    pub btreepage: usize,
    pub bufferio: usize,
    pub checkpointdone: usize,
    pub checkpointstart: usize,
    pub executegather: usize,
    pub hashbatchallocate: usize,
    pub hashbatchelect: usize,
    pub hashbatchload: usize,
    pub hashbuildallocate: usize,
    pub hashbuildelect: usize,
    pub hashbuildhashinner: usize,
    pub hashbuildhashouter: usize,
    pub hashgrowbatchesdecide: usize,
    pub hashgrowbatcheselect: usize,
    pub hashgrowbatchesfinish: usize,
    pub hashgrowbatchesreallocate: usize,
    pub hashgrowbatchesrepartition: usize,
    pub hashgrowbucketselect: usize,
    pub hashgrowbucketsreallocate: usize,
    pub hashgrowbucketsreinsert: usize,
    pub logicalapplysenddata: usize,
    pub logicalparallelapplystatechange: usize,
    pub logicalsyncdata: usize,
    pub logicalsyncstatechange: usize,
    pub messagequeueinternal: usize,
    pub messagequeueputmessage: usize,
    pub messagequeuereceive: usize,
    pub messagequeuesend: usize,
    pub parallelbitmapscan: usize,
    pub parallelcreateindexscan: usize,
    pub parallelfinish: usize,
    pub procarraygroupupdate: usize,
    pub procsignalbarrier: usize,
    pub promote: usize,
    pub recoveryconflictsnapshot: usize,
    pub recoveryconflicttablespace: usize,
    pub recoveryendcommand: usize,
    pub recoverypause: usize,
    pub replicationorigindrop: usize,
    pub replicationslotdrop: usize,
    pub restorecommand: usize,
    pub safesnapshot: usize,
    pub syncrep: usize,
    pub walreceiverexit: usize,
    pub walreceiverwaitstart: usize,
    pub xactgroupupdate: usize,
    pub other: usize,
}

impl PgWaitTypeIPC {
    /// The breakdown by wait event of the sessions of `rows` that are active and
    /// wait on `ipc`.
    pub open spec fn from_sessions(rows: Seq<PgStatActivity>) -> PgWaitTypeIPC {
        PgWaitTypeIPC {
            appendready: count_sessions(rows, SessionFilter::WaitEvent("ipc"@, "appendready"@)) as usize,
            archivecleanupcommand: count_sessions(rows, SessionFilter::WaitEvent("ipc"@, "archivecleanupcommand"@)) as usize,
            archivecommand: count_sessions(rows, SessionFilter::WaitEvent("ipc"@, "archivecommand"@)) as usize,
            backendtermination: count_sessions(rows, SessionFilter::WaitEvent("ipc"@, "backendtermination"@)) as usize,
            backupwaitwalarchive: count_sessions(rows, SessionFilter::WaitEvent("ipc"@, "backupwaitwalarchive"@)) as usize,
            bgworkershutdown: count_sessions(rows, SessionFilter::WaitEvent("ipc"@, "bgworkershutdown"@)) as usize,
            bgworkerstartup: count_sessions(rows, SessionFilter::WaitEvent("ipc"@, "bgworkerstartup"@)) as usize,
            btreepage: count_sessions(rows, SessionFilter::WaitEvent("ipc"@, "btreepage"@)) as usize,
            bufferio: count_sessions(rows, SessionFilter::WaitEvent("ipc"@, "bufferio"@)) as usize,
            checkpointdone: count_sessions(rows, SessionFilter::WaitEvent("ipc"@, "checkpointdone"@)) as usize,
            checkpointstart: count_sessions(rows, SessionFilter::WaitEvent("ipc"@, "checkpointstart"@)) as usize,
            executegather: count_sessions(rows, SessionFilter::WaitEvent("ipc"@, "executegather"@)) as usize,
            hashbatchallocate: count_sessions(rows, SessionFilter::WaitEvent("ipc"@, "hashbatchallocate"@)) as usize,
            hashbatchelect: count_sessions(rows, SessionFilter::WaitEvent("ipc"@, "hashbatchelect"@)) as usize,
            hashbatchload: count_sessions(rows, SessionFilter::WaitEvent("ipc"@, "hashbatchload"@)) as usize,
            hashbuildallocate: count_sessions(rows, SessionFilter::WaitEvent("ipc"@, "hashbuildallocate"@)) as usize,
            hashbuildelect: count_sessions(rows, SessionFilter::WaitEvent("ipc"@, "hashbuildelect"@)) as usize,
            hashbuildhashinner: count_sessions(rows, SessionFilter::WaitEvent("ipc"@, "hashbuildhashinner"@)) as usize,
            hashbuildhashouter: count_sessions(rows, SessionFilter::WaitEvent("ipc"@, "hashbuildhashouter"@)) as usize,
            hashgrowbatchesdecide: count_sessions(rows, SessionFilter::WaitEvent("ipc"@, "hashgrowbatchesdecide"@)) as usize,
            hashgrowbatcheselect: count_sessions(rows, SessionFilter::WaitEvent("ipc"@, "hashgrowbatcheselect"@)) as usize,
            hashgrowbatchesfinish: count_sessions(rows, SessionFilter::WaitEvent("ipc"@, "hashgrowbatchesfinish"@)) as usize,
            hashgrowbatchesreallocate: count_sessions(rows, SessionFilter::WaitEvent("ipc"@, "hashgrowbatchesreallocate"@)) as usize,
            hashgrowbatchesrepartition: count_sessions(rows, SessionFilter::WaitEvent("ipc"@, "hashgrowbatchesrepartition"@)) as usize,
            hashgrowbucketselect: count_sessions(rows, SessionFilter::WaitEvent("ipc"@, "hashgrowbucketselect"@)) as usize,
            hashgrowbucketsreallocate: count_sessions(rows, SessionFilter::WaitEvent("ipc"@, "hashgrowbucketsreallocate"@)) as usize,
            hashgrowbucketsreinsert: count_sessions(rows, SessionFilter::WaitEvent("ipc"@, "hashgrowbucketsreinsert"@)) as usize,
            logicalapplysenddata: count_sessions(rows, SessionFilter::WaitEvent("ipc"@, "logicalapplysenddata"@)) as usize,
            logicalparallelapplystatechange: count_sessions(rows, SessionFilter::WaitEvent("ipc"@, "logicalparallelapplystatechange"@)) as usize,
            logicalsyncdata: count_sessions(rows, SessionFilter::WaitEvent("ipc"@, "logicalsyncdata"@)) as usize,
            logicalsyncstatechange: count_sessions(rows, SessionFilter::WaitEvent("ipc"@, "logicalsyncstatechange"@)) as usize,
            messagequeueinternal: count_sessions(rows, SessionFilter::WaitEvent("ipc"@, "messagequeueinternal"@)) as usize,
            messagequeueputmessage: count_sessions(rows, SessionFilter::WaitEvent("ipc"@, "messagequeueputmessage"@)) as usize,
            messagequeuereceive: count_sessions(rows, SessionFilter::WaitEvent("ipc"@, "messagequeuereceive"@)) as usize,
            messagequeuesend: count_sessions(rows, SessionFilter::WaitEvent("ipc"@, "messagequeuesend"@)) as usize,
            parallelbitmapscan: count_sessions(rows, SessionFilter::WaitEvent("ipc"@, "parallelbitmapscan"@)) as usize,
            parallelcreateindexscan: count_sessions(rows, SessionFilter::WaitEvent("ipc"@, "parallelcreateindexscan"@)) as usize,
            parallelfinish: count_sessions(rows, SessionFilter::WaitEvent("ipc"@, "parallelfinish"@)) as usize,
            procarraygroupupdate: count_sessions(rows, SessionFilter::WaitEvent("ipc"@, "procarraygroupupdate"@)) as usize,
            procsignalbarrier: count_sessions(rows, SessionFilter::WaitEvent("ipc"@, "procsignalbarrier"@)) as usize,
            promote: count_sessions(rows, SessionFilter::WaitEvent("ipc"@, "promote"@)) as usize,
            recoveryconflictsnapshot: count_sessions(rows, SessionFilter::WaitEvent("ipc"@, "recoveryconflictsnapshot"@)) as usize,
            recoveryconflicttablespace: count_sessions(rows, SessionFilter::WaitEvent("ipc"@, "recoveryconflicttablespace"@)) as usize,
            recoveryendcommand: count_sessions(rows, SessionFilter::WaitEvent("ipc"@, "recoveryendcommand"@)) as usize,
            recoverypause: count_sessions(rows, SessionFilter::WaitEvent("ipc"@, "recoverypause"@)) as usize,
            replicationorigindrop: count_sessions(rows, SessionFilter::WaitEvent("ipc"@, "replicationorigindrop"@)) as usize,
            replicationslotdrop: count_sessions(rows, SessionFilter::WaitEvent("ipc"@, "replicationslotdrop"@)) as usize,
            restorecommand: count_sessions(rows, SessionFilter::WaitEvent("ipc"@, "restorecommand"@)) as usize,
            safesnapshot: count_sessions(rows, SessionFilter::WaitEvent("ipc"@, "safesnapshot"@)) as usize,
            syncrep: count_sessions(rows, SessionFilter::WaitEvent("ipc"@, "syncrep"@)) as usize,
            walreceiverexit: count_sessions(rows, SessionFilter::WaitEvent("ipc"@, "walreceiverexit"@)) as usize,
            walreceiverwaitstart: count_sessions(rows, SessionFilter::WaitEvent("ipc"@, "walreceiverwaitstart"@)) as usize,
            xactgroupupdate: count_sessions(rows, SessionFilter::WaitEvent("ipc"@, "xactgroupupdate"@)) as usize,
            other: count_sessions(rows, SessionFilter::UnlistedEvent("ipc"@, ipc_wait_events())) as usize,
        }
    }

    /// All counts zero: the breakdown of no sessions.
    pub fn new() -> (r: Self)
        ensures
            r == Self::from_sessions(Seq::empty()),
    {
        PgWaitTypeIPC {
            appendready: 0,
            archivecleanupcommand: 0,
            archivecommand: 0,
            backendtermination: 0,
            backupwaitwalarchive: 0,
            bgworkershutdown: 0,
            bgworkerstartup: 0,
            btreepage: 0,
            bufferio: 0,
            checkpointdone: 0,
            checkpointstart: 0,
            executegather: 0,
            hashbatchallocate: 0,
            hashbatchelect: 0,
            hashbatchload: 0,
            hashbuildallocate: 0,
            hashbuildelect: 0,
            hashbuildhashinner: 0,
            hashbuildhashouter: 0,
            hashgrowbatchesdecide: 0,
            hashgrowbatcheselect: 0,
            hashgrowbatchesfinish: 0,
            hashgrowbatchesreallocate: 0,
            hashgrowbatchesrepartition: 0,
            hashgrowbucketselect: 0,
            hashgrowbucketsreallocate: 0,
            hashgrowbucketsreinsert: 0,
            logicalapplysenddata: 0,
            logicalparallelapplystatechange: 0,
            logicalsyncdata: 0,
            logicalsyncstatechange: 0,
            messagequeueinternal: 0,
            messagequeueputmessage: 0,
            messagequeuereceive: 0,
            messagequeuesend: 0,
            parallelbitmapscan: 0,
            parallelcreateindexscan: 0,
            parallelfinish: 0,
            procarraygroupupdate: 0,
            procsignalbarrier: 0,
            promote: 0,
            recoveryconflictsnapshot: 0,
            recoveryconflicttablespace: 0,
            recoveryendcommand: 0,
            recoverypause: 0,
            replicationorigindrop: 0,
            replicationslotdrop: 0,
            restorecommand: 0,
            safesnapshot: 0,
            syncrep: 0,
            walreceiverexit: 0,
            walreceiverwaitstart: 0,
            xactgroupupdate: 0,
            other: 0,
        }
    }

    /// The counts in field order, `other` last.
    pub open spec fn value_seq(self) -> Seq<usize> {
        seq![
            self.appendready,
            self.archivecleanupcommand,
            self.archivecommand,
            self.backendtermination,
            self.backupwaitwalarchive,
            self.bgworkershutdown,
            self.bgworkerstartup,
            self.btreepage,
            self.bufferio,
            self.checkpointdone,
            self.checkpointstart,
            self.executegather,
            self.hashbatchallocate,
            self.hashbatchelect,
            self.hashbatchload,
            self.hashbuildallocate,
            self.hashbuildelect,
            self.hashbuildhashinner,
            self.hashbuildhashouter,
            self.hashgrowbatchesdecide,
            self.hashgrowbatcheselect,
            self.hashgrowbatchesfinish,
            self.hashgrowbatchesreallocate,
            self.hashgrowbatchesrepartition,
            self.hashgrowbucketselect,
            self.hashgrowbucketsreallocate,
            self.hashgrowbucketsreinsert,
            self.logicalapplysenddata,
            self.logicalparallelapplystatechange,
            self.logicalsyncdata,
            self.logicalsyncstatechange,
            self.messagequeueinternal,
            self.messagequeueputmessage,
            self.messagequeuereceive,
            self.messagequeuesend,
            self.parallelbitmapscan,
            self.parallelcreateindexscan,
            self.parallelfinish,
            self.procarraygroupupdate,
            self.procsignalbarrier,
            self.promote,
            self.recoveryconflictsnapshot,
            self.recoveryconflicttablespace,
            self.recoveryendcommand,
            self.recoverypause,
            self.replicationorigindrop,
            self.replicationslotdrop,
            self.restorecommand,
            self.safesnapshot,
            self.syncrep,
            self.walreceiverexit,
            self.walreceiverwaitstart,
            self.xactgroupupdate,
            self.other,
        ]
    }

    /// The counts as [`Self::value_seq`] orders them.
    pub fn values(&self) -> (r: Vec<usize>)
        ensures
            r@ == self.value_seq(),
    {
        vec![
            self.appendready,
            self.archivecleanupcommand,
            self.archivecommand,
            self.backendtermination,
            self.backupwaitwalarchive,
            self.bgworkershutdown,
            self.bgworkerstartup,
            self.btreepage,
            self.bufferio,
            self.checkpointdone,
            self.checkpointstart,
            self.executegather,
            self.hashbatchallocate,
            self.hashbatchelect,
            self.hashbatchload,
            self.hashbuildallocate,
            self.hashbuildelect,
            self.hashbuildhashinner,
            self.hashbuildhashouter,
            self.hashgrowbatchesdecide,
            self.hashgrowbatcheselect,
            self.hashgrowbatchesfinish,
            self.hashgrowbatchesreallocate,
            self.hashgrowbatchesrepartition,
            self.hashgrowbucketselect,
            self.hashgrowbucketsreallocate,
            self.hashgrowbucketsreinsert,
            self.logicalapplysenddata,
            self.logicalparallelapplystatechange,
            self.logicalsyncdata,
            self.logicalsyncstatechange,
            self.messagequeueinternal,
            self.messagequeueputmessage,
            self.messagequeuereceive,
            self.messagequeuesend,
            self.parallelbitmapscan,
            self.parallelcreateindexscan,
            self.parallelfinish,
            self.procarraygroupupdate,
            self.procsignalbarrier,
            self.promote,
            self.recoveryconflictsnapshot,
            self.recoveryconflicttablespace,
            self.recoveryendcommand,
            self.recoverypause,
            self.replicationorigindrop,
            self.replicationslotdrop,
            self.restorecommand,
            self.safesnapshot,
            self.syncrep,
            self.walreceiverexit,
            self.walreceiverwaitstart,
            self.xactgroupupdate,
            self.other,
        ]
    }

    /// Counts the active sessions of a sample that wait on `ipc`, by wait event.
    pub fn process_pg_stat_activity(pg_stat_activity: &Vec<PgStatActivity>) -> (r: Self)
        ensures
            r == Self::from_sessions(pg_stat_activity@),
    {
        let events: Vec<&str> = vec![
            "appendready",
            "archivecleanupcommand",
            "archivecommand",
            "backendtermination",
            "backupwaitwalarchive",
            "bgworkershutdown",
            "bgworkerstartup",
            "btreepage",
            "bufferio",
            "checkpointdone",
            "checkpointstart",
            "executegather",
            "hashbatchallocate",
            "hashbatchelect",
            "hashbatchload",
            "hashbuildallocate",
            "hashbuildelect",
            "hashbuildhashinner",
            "hashbuildhashouter",
            "hashgrowbatchesdecide",
            "hashgrowbatcheselect",
            "hashgrowbatchesfinish",
            "hashgrowbatchesreallocate",
            "hashgrowbatchesrepartition",
            "hashgrowbucketselect",
            "hashgrowbucketsreallocate",
            "hashgrowbucketsreinsert",
            "logicalapplysenddata",
            "logicalparallelapplystatechange",
            "logicalsyncdata",
            "logicalsyncstatechange",
            "messagequeueinternal",
            "messagequeueputmessage",
            "messagequeuereceive",
            "messagequeuesend",
            "parallelbitmapscan",
            "parallelcreateindexscan",
            "parallelfinish",
            "procarraygroupupdate",
            "procsignalbarrier",
            "promote",
            "recoveryconflictsnapshot",
            "recoveryconflicttablespace",
            "recoveryendcommand",
            "recoverypause",
            "replicationorigindrop",
            "replicationslotdrop",
            "restorecommand",
            "safesnapshot",
            "syncrep",
            "walreceiverexit",
            "walreceiverwaitstart",
            "xactgroupupdate",
        ];
        let counts = count_wait_events(pg_stat_activity, "ipc", &events);
        proof {
            assert(crate::activity::texts_of(events@) =~= ipc_wait_events());
        }
        PgWaitTypeIPC {
            appendready: counts[0],
            archivecleanupcommand: counts[1],
            archivecommand: counts[2],
            backendtermination: counts[3],
            backupwaitwalarchive: counts[4],
            bgworkershutdown: counts[5],
            bgworkerstartup: counts[6],
            btreepage: counts[7],
            bufferio: counts[8],
            checkpointdone: counts[9],
            checkpointstart: counts[10],
            executegather: counts[11],
            hashbatchallocate: counts[12],
            hashbatchelect: counts[13],
            hashbatchload: counts[14],
            hashbuildallocate: counts[15],
            hashbuildelect: counts[16],
            hashbuildhashinner: counts[17],
            hashbuildhashouter: counts[18],
            hashgrowbatchesdecide: counts[19],
            hashgrowbatcheselect: counts[20],
            hashgrowbatchesfinish: counts[21],
            hashgrowbatchesreallocate: counts[22],
            hashgrowbatchesrepartition: counts[23],
            hashgrowbucketselect: counts[24],
            hashgrowbucketsreallocate: counts[25],
            hashgrowbucketsreinsert: counts[26],
            logicalapplysenddata: counts[27],
            logicalparallelapplystatechange: counts[28],
            logicalsyncdata: counts[29],
            logicalsyncstatechange: counts[30],
            messagequeueinternal: counts[31],
            messagequeueputmessage: counts[32],
            messagequeuereceive: counts[33],
            messagequeuesend: counts[34],
            parallelbitmapscan: counts[35],
            parallelcreateindexscan: counts[36],
            parallelfinish: counts[37],
            procarraygroupupdate: counts[38],
            procsignalbarrier: counts[39],
            promote: counts[40],
            recoveryconflictsnapshot: counts[41],
            recoveryconflicttablespace: counts[42],
            recoveryendcommand: counts[43],
            recoverypause: counts[44],
            replicationorigindrop: counts[45],
            replicationslotdrop: counts[46],
            restorecommand: counts[47],
            safesnapshot: counts[48],
            syncrep: counts[49],
            walreceiverexit: counts[50],
            walreceiverwaitstart: counts[51],
            xactgroupupdate: counts[52],
            other: counts[53],
        }
    }
}

/// The wait events of type `lock` that [`PgWaitTypeLock`] counts one by one.
pub open spec fn lock_wait_events() -> Seq<Seq<char>> {
    seq![
        "advisory"@,
        "applytransaction"@,
        "extend"@,
        "frozenid"@,
        "object"@,
        "page"@,
        "relation"@,
        "spectoken"@,
        "transactionid"@,
        "tuple"@,
        "userlock"@,
        "virtualxid"@,
    ]
}

/// Active sessions waiting on wait event type `lock`, by wait event; `other`
/// takes the wait events that have no field of their own.
#[derive(Debug, Clone, Copy, PartialEq, Eq)]
pub struct PgWaitTypeLock {
    pub advisory: usize,
    pub applytransaction: usize,
    pub extend: usize,
    pub frozenid: usize,
    pub object: usize,
    pub page: usize,
    pub relation: usize,
    pub spectoken: usize,
    pub transactionid: usize,
    pub tuple: usize,
    pub userlock: usize,
    pub virtualxid: usize,
    pub other: usize,
}

impl PgWaitTypeLock {
    /// The breakdown by wait event of the sessions of `rows` that are active and
    /// wait on `lock`.
    pub open spec fn from_sessions(rows: Seq<PgStatActivity>) -> PgWaitTypeLock {
        PgWaitTypeLock {
            advisory: count_sessions(rows, SessionFilter::WaitEvent("lock"@, "advisory"@)) as usize,
            applytransaction: count_sessions(rows, SessionFilter::WaitEvent("lock"@, "applytransaction"@)) as usize,
            extend: count_sessions(rows, SessionFilter::WaitEvent("lock"@, "extend"@)) as usize,
            frozenid: count_sessions(rows, SessionFilter::WaitEvent("lock"@, "frozenid"@)) as usize,
            object: count_sessions(rows, SessionFilter::WaitEvent("lock"@, "object"@)) as usize,
            page: count_sessions(rows, SessionFilter::WaitEvent("lock"@, "page"@)) as usize,
            relation: count_sessions(rows, SessionFilter::WaitEvent("lock"@, "relation"@)) as usize,
            spectoken: count_sessions(rows, SessionFilter::WaitEvent("lock"@, "spectoken"@)) as usize,
            transactionid: count_sessions(rows, SessionFilter::WaitEvent("lock"@, "transactionid"@)) as usize,
            tuple: count_sessions(rows, SessionFilter::WaitEvent("lock"@, "tuple"@)) as usize,
            userlock: count_sessions(rows, SessionFilter::WaitEvent("lock"@, "userlock"@)) as usize,
            virtualxid: count_sessions(rows, SessionFilter::WaitEvent("lock"@, "virtualxid"@)) as usize,
            other: count_sessions(rows, SessionFilter::UnlistedEvent("lock"@, lock_wait_events())) as usize,
        }
    }

    /// All counts zero: the breakdown of no sessions.
    pub fn new() -> (r: Self)
        ensures
            r == Self::from_sessions(Seq::empty()),
    {
        PgWaitTypeLock {
            advisory: 0,
            applytransaction: 0,
            extend: 0,
            frozenid: 0,
            object: 0,
            page: 0,
            relation: 0,
            spectoken: 0,
            transactionid: 0,
            tuple: 0,
            userlock: 0,
            virtualxid: 0,
            other: 0,
        }
    }

    /// The counts in field order, `other` last.
    pub open spec fn value_seq(self) -> Seq<usize> {
        seq![
            self.advisory,
            self.applytransaction,
            self.extend,
            self.frozenid,
            self.object,
            self.page,
            self.relation,
            self.spectoken,
            self.transactionid,
            self.tuple,
            self.userlock,
            self.virtualxid,
            self.other,
        ]
    }

    /// The counts as [`Self::value_seq`] orders them.
    pub fn values(&self) -> (r: Vec<usize>)
        ensures
            r@ == self.value_seq(),
    {
        vec![
            self.advisory,
            self.applytransaction,
            self.extend,
            self.frozenid,
            self.object,
            self.page,
            self.relation,
            self.spectoken,
            self.transactionid,
            self.tuple,
            self.userlock,
            self.virtualxid,
            self.other,
        ]
    }

    /// Counts the active sessions of a sample that wait on `lock`, by wait event.
    pub fn process_pg_stat_activity(pg_stat_activity: &Vec<PgStatActivity>) -> (r: Self)
        ensures
            r == Self::from_sessions(pg_stat_activity@),
    {
        let events: Vec<&str> = vec![
            "advisory",
            "applytransaction",
            "extend",
            "frozenid",
            "object",
            "page",
            "relation",
            "spectoken",
            "transactionid",
            "tuple",
            "userlock",
            "virtualxid",
        ];
        let counts = count_wait_events(pg_stat_activity, "lock", &events);
        proof {
            assert(crate::activity::texts_of(events@) =~= lock_wait_events());
        }
        PgWaitTypeLock {
            advisory: counts[0],
            applytransaction: counts[1],
            extend: counts[2],
            frozenid: counts[3],
            object: counts[4],
            page: counts[5],
            relation: counts[6],
            spectoken: counts[7],
            transactionid: counts[8],
            tuple: counts[9],
            userlock: counts[10],
            virtualxid: counts[11],
            other: counts[12],
        }
    }
}

/// The wait events of type `lwlock` that [`PgWaitTypeLWLock`] counts one by one.
pub open spec fn lwlock_wait_events() -> Seq<Seq<char>> {
    seq![
        "addinshmeminit"@,
        "autofile"@,
        "autovacuum"@,
        "autovacuumschedule"@,
        "backgroundworker"@,
        "btreevacuum"@,
        "buffercontent"@,
        "buffermapping"@,
        "checkpointercomm"@,
        "committs"@,
        "committsbuffer"@,
        "committsslru"@,
        "controlfile"@,
        "dynamicsharedmemorycontrol"@,
        "lockfastpath"@,
        "lockmanager"@,
        "logicalreplauncerdsa"@,
        "logicalreplauncerhash"@,
        "logicalrepworker"@,
        "multixactgen"@,
        "multixactmemberbuffer"@,
        "multixactmemberslru"@,
        "multixactoffsetbuffer"@,
        "multixactoffsetslru"@,
        "multixacttruncation"@,
        "notifybuffer"@,
        "notifyqueue"@,
        "notifyqueuetail"@,
        "notifyslru"@,
        "oidgen"@,
        "oldsnapshottimemap"@,
        "parallelappend"@,
        "parallelhashjoin"@,
        "parallelquerydsa"@,
        "persessiondsa"@,
        "persessionrecordtype"@,
        "persessionrecordtypmod"@,
        "perxactpredicatelist"@,
        "pgstatsdata"@,
        "pgstatsdsa"@,
        "pgstatshash"@,
        "predicatelockmanager"@,
        "procarray"@,
        "relationmapping"@,
        "relcacheinit"@,
        "replicationorigin"@,
        "replicationoriginstate"@,
        "replicationslotallocation"@,
        "replicationslotcontrol"@,
        "replicationslotio"@,
        "serialbuffer"@,
        "serializablefinishedlist"@,
        "serializablepredicatelist"@,
        "serializablexacthash"@,
        "serialslru"@,
        "sharedtidbitmap"@,
        "sharedtuplestore"@,
        "shmemindex"@,
        "sinvalread"@,
        "sinvalwrite"@,
        "subtransbuffer"@,
        "subtransslru"@,
        "syncrep"@,
        "syncscan"@,
        "tablespacecreate"@,
        "twophasestate"@,
        "walbufmapping"@,
        "walinsert"@,
        "walwrite"@,
        "wraplimitsvacuum"@,
        "xactbuffer"@,
        "xactslru"@,
        "xacttruncation"@,
        "xidgen"@,
    ]
}

/// Active sessions waiting on wait event type `lwlock`, by wait event; `other`
/// takes the wait events that have no field of their own.
#[derive(Debug, Clone, Copy, PartialEq, Eq)]
pub struct PgWaitTypeLWLock {
    pub addinsheminit: usize,
    pub autofile: usize,
    pub autovacuum: usize,
    pub autovacuumschedule: usize,
    pub backgroundworker: usize,
    pub btreevacuum: usize,
    pub buffercontent: usize,
    pub buffermapping: usize,
    pub checkpointercomm: usize,
    pub committs: usize,
    pub committsbuffer: usize,
    pub committsslru: usize,
    pub controlfile: usize,
    pub dynamicsharedmemorycontrol: usize,
    pub lockfastpath: usize,
    pub lockmanager: usize,
    pub logicalreplauncherdsa: usize,
    pub logicalreplauncherhash: usize,
    pub logicalrepworker: usize,
    pub multixactgen: usize,
    pub multixactmemberbuffer: usize,
    pub multixactmemberslru: usize,
    pub multixactoffsetbuffer: usize,
    pub multixactoffsetslru: usize,
    pub multixacttruncation: usize,
    pub notifybuffer: usize,
    pub notifyqueue: usize,
    pub notifyqueuetail: usize,
    pub notifyslru: usize,
    pub oidgen: usize,
    pub oldsnapshottimemap: usize,
    pub parallelappend: usize,
    pub parallelhashjoin: usize,
    pub parallelquerydsa: usize,
    pub persessiondsa: usize,
    pub persessionrecordtype: usize,
    pub persessionrecordtypmod: usize,
    pub perxactpredicatelist: usize,
    pub pgstatsdata: usize,
    pub pgstatsdsa: usize,
    pub pgstatshash: usize,
    pub predicatelockmanager: usize,
    pub procarray: usize,
    pub relationmapping: usize,
    pub relcacheinit: usize,
    pub replicationorigin: usize,
    pub replicationoriginstate: usize,
    pub replicationslotallocation: usize,
    pub replicationslotcontrol: usize,
    pub replicationslotio: usize,
    pub serialbuffer: usize,
    pub serializablefinishedlist: usize,
    pub serializablepredicatelist: usize,
    pub serializablexacthash: usize,
    pub serialslru: usize,
    pub sharedtidbitmap: usize,
    pub sharedtuplestore: usize,
    pub shmemindex: usize,
    pub sinvalread: usize,
    pub sinvalwrite: usize,
    pub subtransbuffer: usize,
    pub subtransslru: usize,
    pub syncrep: usize,
    pub syncscan: usize,
    pub tablespacecreate: usize,
    pub twophasestate: usize,
    pub walbufmapping: usize,
    pub walinsert: usize,
    pub walwrite: usize,
    pub wraplimitsvacuum: usize,
    pub xactbuffer: usize,
    pub xactslru: usize,
    pub xacttruncation: usize,
    pub xidgen: usize,
    pub other: usize,
}

impl PgWaitTypeLWLock {
    /// The breakdown by wait event of the sessions of `rows` that are active and
    /// wait on `lwlock`.
    pub open spec fn from_sessions(rows: Seq<PgStatActivity>) -> PgWaitTypeLWLock {
        PgWaitTypeLWLock {
            addinsheminit: count_sessions(rows, SessionFilter::WaitEvent("lwlock"@, "addinshmeminit"@)) as usize,
            autofile: count_sessions(rows, SessionFilter::WaitEvent("lwlock"@, "autofile"@)) as usize,
            autovacuum: count_sessions(rows, SessionFilter::WaitEvent("lwlock"@, "autovacuum"@)) as usize,
            autovacuumschedule: count_sessions(rows, SessionFilter::WaitEvent("lwlock"@, "autovacuumschedule"@)) as usize,
            backgroundworker: count_sessions(rows, SessionFilter::WaitEvent("lwlock"@, "backgroundworker"@)) as usize,
            btreevacuum: count_sessions(rows, SessionFilter::WaitEvent("lwlock"@, "btreevacuum"@)) as usize,
            buffercontent: count_sessions(rows, SessionFilter::WaitEvent("lwlock"@, "buffercontent"@)) as usize,
            buffermapping: count_sessions(rows, SessionFilter::WaitEvent("lwlock"@, "buffermapping"@)) as usize,
            checkpointercomm: count_sessions(rows, SessionFilter::WaitEvent("lwlock"@, "checkpointercomm"@)) as usize,
            committs: count_sessions(rows, SessionFilter::WaitEvent("lwlock"@, "committs"@)) as usize,
            committsbuffer: count_sessions(rows, SessionFilter::WaitEvent("lwlock"@, "committsbuffer"@)) as usize,
            committsslru: count_sessions(rows, SessionFilter::WaitEvent("lwlock"@, "committsslru"@)) as usize,
            controlfile: count_sessions(rows, SessionFilter::WaitEvent("lwlock"@, "controlfile"@)) as usize,
            dynamicsharedmemorycontrol: count_sessions(rows, SessionFilter::WaitEvent("lwlock"@, "dynamicsharedmemorycontrol"@)) as usize,
            lockfastpath: count_sessions(rows, SessionFilter::WaitEvent("lwlock"@, "lockfastpath"@)) as usize,
            lockmanager: count_sessions(rows, SessionFilter::WaitEvent("lwlock"@, "lockmanager"@)) as usize,
            logicalreplauncherdsa: count_sessions(rows, SessionFilter::WaitEvent("lwlock"@, "logicalreplauncerdsa"@)) as usize,
            logicalreplauncherhash: count_sessions(rows, SessionFilter::WaitEvent("lwlock"@, "logicalreplauncerhash"@)) as usize,
            logicalrepworker: count_sessions(rows, SessionFilter::WaitEvent("lwlock"@, "logicalrepworker"@)) as usize,
            multixactgen: count_sessions(rows, SessionFilter::WaitEvent("lwlock"@, "multixactgen"@)) as usize,
            multixactmemberbuffer: count_sessions(rows, SessionFilter::WaitEvent("lwlock"@, "multixactmemberbuffer"@)) as usize,
            multixactmemberslru: count_sessions(rows, SessionFilter::WaitEvent("lwlock"@, "multixactmemberslru"@)) as usize,
            multixactoffsetbuffer: count_sessions(rows, SessionFilter::WaitEvent("lwlock"@, "multixactoffsetbuffer"@)) as usize,
            multixactoffsetslru: count_sessions(rows, SessionFilter::WaitEvent("lwlock"@, "multixactoffsetslru"@)) as usize,
            multixacttruncation: count_sessions(rows, SessionFilter::WaitEvent("lwlock"@, "multixacttruncation"@)) as usize,
            notifybuffer: count_sessions(rows, SessionFilter::WaitEvent("lwlock"@, "notifybuffer"@)) as usize,
            notifyqueue: count_sessions(rows, SessionFilter::WaitEvent("lwlock"@, "notifyqueue"@)) as usize,
            notifyqueuetail: count_sessions(rows, SessionFilter::WaitEvent("lwlock"@, "notifyqueuetail"@)) as usize,
            notifyslru: count_sessions(rows, SessionFilter::WaitEvent("lwlock"@, "notifyslru"@)) as usize,
            oidgen: count_sessions(rows, SessionFilter::WaitEvent("lwlock"@, "oidgen"@)) as usize,
            oldsnapshottimemap: count_sessions(rows, SessionFilter::WaitEvent("lwlock"@, "oldsnapshottimemap"@)) as usize,
            parallelappend: count_sessions(rows, SessionFilter::WaitEvent("lwlock"@, "parallelappend"@)) as usize,
            parallelhashjoin: count_sessions(rows, SessionFilter::WaitEvent("lwlock"@, "parallelhashjoin"@)) as usize,
            parallelquerydsa: count_sessions(rows, SessionFilter::WaitEvent("lwlock"@, "parallelquerydsa"@)) as usize,
            persessiondsa: count_sessions(rows, SessionFilter::WaitEvent("lwlock"@, "persessiondsa"@)) as usize,
            persessionrecordtype: count_sessions(rows, SessionFilter::WaitEvent("lwlock"@, "persessionrecordtype"@)) as usize,
            persessionrecordtypmod: count_sessions(rows, SessionFilter::WaitEvent("lwlock"@, "persessionrecordtypmod"@)) as usize,
            perxactpredicatelist: count_sessions(rows, SessionFilter::WaitEvent("lwlock"@, "perxactpredicatelist"@)) as usize,
            pgstatsdata: count_sessions(rows, SessionFilter::WaitEvent("lwlock"@, "pgstatsdata"@)) as usize,
            pgstatsdsa: count_sessions(rows, SessionFilter::WaitEvent("lwlock"@, "pgstatsdsa"@)) as usize,
            pgstatshash: count_sessions(rows, SessionFilter::WaitEvent("lwlock"@, "pgstatshash"@)) as usize,
            predicatelockmanager: count_sessions(rows, SessionFilter::WaitEvent("lwlock"@, "predicatelockmanager"@)) as usize,
            procarray: count_sessions(rows, SessionFilter::WaitEvent("lwlock"@, "procarray"@)) as usize,
            relationmapping: count_sessions(rows, SessionFilter::WaitEvent("lwlock"@, "relationmapping"@)) as usize,
            relcacheinit: count_sessions(rows, SessionFilter::WaitEvent("lwlock"@, "relcacheinit"@)) as usize,
            replicationorigin: count_sessions(rows, SessionFilter::WaitEvent("lwlock"@, "replicationorigin"@)) as usize,
            replicationoriginstate: count_sessions(rows, SessionFilter::WaitEvent("lwlock"@, "replicationoriginstate"@)) as usize,
            replicationslotallocation: count_sessions(rows, SessionFilter::WaitEvent("lwlock"@, "replicationslotallocation"@)) as usize,
            replicationslotcontrol: count_sessions(rows, SessionFilter::WaitEvent("lwlock"@, "replicationslotcontrol"@)) as usize,
            replicationslotio: count_sessions(rows, SessionFilter::WaitEvent("lwlock"@, "replicationslotio"@)) as usize,
            serialbuffer: count_sessions(rows, SessionFilter::WaitEvent("lwlock"@, "serialbuffer"@)) as usize,
            serializablefinishedlist: count_sessions(rows, SessionFilter::WaitEvent("lwlock"@, "serializablefinishedlist"@)) as usize,
            serializablepredicatelist: count_sessions(rows, SessionFilter::WaitEvent("lwlock"@, "serializablepredicatelist"@)) as usize,
            serializablexacthash: count_sessions(rows, SessionFilter::WaitEvent("lwlock"@, "serializablexacthash"@)) as usize,
            serialslru: count_sessions(rows, SessionFilter::WaitEvent("lwlock"@, "serialslru"@)) as usize,
            sharedtidbitmap: count_sessions(rows, SessionFilter::WaitEvent("lwlock"@, "sharedtidbitmap"@)) as usize,
            sharedtuplestore: count_sessions(rows, SessionFilter::WaitEvent("lwlock"@, "sharedtuplestore"@)) as usize,
            shmemindex: count_sessions(rows, SessionFilter::WaitEvent("lwlock"@, "shmemindex"@)) as usize,
            sinvalread: count_sessions(rows, SessionFilter::WaitEvent("lwlock"@, "sinvalread"@)) as usize,
            sinvalwrite: count_sessions(rows, SessionFilter::WaitEvent("lwlock"@, "sinvalwrite"@)) as usize,
            subtransbuffer: count_sessions(rows, SessionFilter::WaitEvent("lwlock"@, "subtransbuffer"@)) as usize,
            subtransslru: count_sessions(rows, SessionFilter::WaitEvent("lwlock"@, "subtransslru"@)) as usize,
            syncrep: count_sessions(rows, SessionFilter::WaitEvent("lwlock"@, "syncrep"@)) as usize,
            syncscan: count_sessions(rows, SessionFilter::WaitEvent("lwlock"@, "syncscan"@)) as usize,
            tablespacecreate: count_sessions(rows, SessionFilter::WaitEvent("lwlock"@, "tablespacecreate"@)) as usize,
            twophasestate: count_sessions(rows, SessionFilter::WaitEvent("lwlock"@, "twophasestate"@)) as usize,
            walbufmapping: count_sessions(rows, SessionFilter::WaitEvent("lwlock"@, "walbufmapping"@)) as usize,
            walinsert: count_sessions(rows, SessionFilter::WaitEvent("lwlock"@, "walinsert"@)) as usize,
            walwrite: count_sessions(rows, SessionFilter::WaitEvent("lwlock"@, "walwrite"@)) as usize,
            wraplimitsvacuum: count_sessions(rows, SessionFilter::WaitEvent("lwlock"@, "wraplimitsvacuum"@)) as usize,
            xactbuffer: count_sessions(rows, SessionFilter::WaitEvent("lwlock"@, "xactbuffer"@)) as usize,
            xactslru: count_sessions(rows, SessionFilter::WaitEvent("lwlock"@, "xactslru"@)) as usize,
            xacttruncation: count_sessions(rows, SessionFilter::WaitEvent("lwlock"@, "xacttruncation"@)) as usize,
            xidgen: count_sessions(rows, SessionFilter::WaitEvent("lwlock"@, "xidgen"@)) as usize,
            other: count_sessions(rows, SessionFilter::UnlistedEvent("lwlock"@, lwlock_wait_events())) as usize,
        }
    }

    /// All counts zero: the breakdown of no sessions.
    pub fn new() -> (r: Self)
        ensures
            r == Self::from_sessions(Seq::empty()),
    {
        PgWaitTypeLWLock {
            addinsheminit: 0,
            autofile: 0,
            autovacuum: 0,
            autovacuumschedule: 0,
            backgroundworker: 0,
            btreevacuum: 0,
            buffercontent: 0,
            buffermapping: 0,
            checkpointercomm: 0,
            committs: 0,
            committsbuffer: 0,
            committsslru: 0,
            controlfile: 0,
            dynamicsharedmemorycontrol: 0,
            lockfastpath: 0,
            lockmanager: 0,
            logicalreplauncherdsa: 0,
            logicalreplauncherhash: 0,
            logicalrepworker: 0,
            multixactgen: 0,
            multixactmemberbuffer: 0,
            multixactmemberslru: 0,
            multixactoffsetbuffer: 0,
            multixactoffsetslru: 0,
            multixacttruncation: 0,
            notifybuffer: 0,
            notifyqueue: 0,
            notifyqueuetail: 0,
            notifyslru: 0,
            oidgen: 0,
            oldsnapshottimemap: 0,
            parallelappend: 0,
            parallelhashjoin: 0,
            parallelquerydsa: 0,
            persessiondsa: 0,
            persessionrecordtype: 0,
            persessionrecordtypmod: 0,
            perxactpredicatelist: 0,
            pgstatsdata: 0,
            pgstatsdsa: 0,
            pgstatshash: 0,
            predicatelockmanager: 0,
            procarray: 0,
            relationmapping: 0,
            relcacheinit: 0,
            replicationorigin: 0,
            replicationoriginstate: 0,
            replicationslotallocation: 0,
            replicationslotcontrol: 0,
            replicationslotio: 0,
            serialbuffer: 0,
            serializablefinishedlist: 0,
            serializablepredicatelist: 0,
            serializablexacthash: 0,
            serialslru: 0,
            sharedtidbitmap: 0,
            sharedtuplestore: 0,
            shmemindex: 0,
            sinvalread: 0,
            sinvalwrite: 0,
            subtransbuffer: 0,
            subtransslru: 0,
            syncrep: 0,
            syncscan: 0,
            tablespacecreate: 0,
            twophasestate: 0,
            walbufmapping: 0,
            walinsert: 0,
            walwrite: 0,
            wraplimitsvacuum: 0,
            xactbuffer: 0,
            xactslru: 0,
            xacttruncation: 0,
            xidgen: 0,
            other: 0,
        }
    }

    /// The counts in field order, `other` last.
    pub open spec fn value_seq(self) -> Seq<usize> {
        seq![
            self.addinsheminit,
            self.autofile,
            self.autovacuum,
            self.autovacuumschedule,
            self.backgroundworker,
            self.btreevacuum,
            self.buffercontent,
            self.buffermapping,
            self.checkpointercomm,
            self.committs,
            self.committsbuffer,
            self.committsslru,
            self.controlfile,
            self.dynamicsharedmemorycontrol,
            self.lockfastpath,
            self.lockmanager,
            self.logicalreplauncherdsa,
            self.logicalreplauncherhash,
            self.logicalrepworker,
            self.multixactgen,
            self.multixactmemberbuffer,
            self.multixactmemberslru,
            self.multixactoffsetbuffer,
            self.multixactoffsetslru,
            self.multixacttruncation,
            self.notifybuffer,
            self.notifyqueue,
            self.notifyqueuetail,
            self.notifyslru,
            self.oidgen,
            self.oldsnapshottimemap,
            self.parallelappend,
            self.parallelhashjoin,
            self.parallelquerydsa,
            self.persessiondsa,
            self.persessionrecordtype,
            self.persessionrecordtypmod,
            self.perxactpredicatelist,
            self.pgstatsdata,
            self.pgstatsdsa,
            self.pgstatshash,
            self.predicatelockmanager,
            self.procarray,
            self.relationmapping,
            self.relcacheinit,
            self.replicationorigin,
            self.replicationoriginstate,
            self.replicationslotallocation,
            self.replicationslotcontrol,
            self.replicationslotio,
            self.serialbuffer,
            self.serializablefinishedlist,
            self.serializablepredicatelist,
            self.serializablexacthash,
            self.serialslru,
            self.sharedtidbitmap,
            self.sharedtuplestore,
            self.shmemindex,
            self.sinvalread,
            self.sinvalwrite,
            self.subtransbuffer,
            self.subtransslru,
            self.syncrep,
            self.syncscan,
            self.tablespacecreate,
            self.twophasestate,
            self.walbufmapping,
            self.walinsert,
            self.walwrite,
            self.wraplimitsvacuum,
            self.xactbuffer,
            self.xactslru,
            self.xacttruncation,
            self.xidgen,
            self.other,
        ]
    }

    /// The counts as [`Self::value_seq`] orders them.
    pub fn values(&self) -> (r: Vec<usize>)
        ensures
            r@ == self.value_seq(),
    {
        vec![
            self.addinsheminit,
            self.autofile,
            self.autovacuum,
            self.autovacuumschedule,
            self.backgroundworker,
            self.btreevacuum,
            self.buffercontent,
            self.buffermapping,
            self.checkpointercomm,
            self.committs,
            self.committsbuffer,
            self.committsslru,
            self.controlfile,
            self.dynamicsharedmemorycontrol,
            self.lockfastpath,
            self.lockmanager,
            self.logicalreplauncherdsa,
            self.logicalreplauncherhash,
            self.logicalrepworker,
            self.multixactgen,
            self.multixactmemberbuffer,
            self.multixactmemberslru,
            self.multixactoffsetbuffer,
            self.multixactoffsetslru,
            self.multixacttruncation,
            self.notifybuffer,
            self.notifyqueue,
            self.notifyqueuetail,
            self.notifyslru,
            self.oidgen,
            self.oldsnapshottimemap,
            self.parallelappend,
            self.parallelhashjoin,
            self.parallelquerydsa,
            self.persessiondsa,
            self.persessionrecordtype,
            self.persessionrecordtypmod,
            self.perxactpredicatelist,
            self.pgstatsdata,
            self.pgstatsdsa,
            self.pgstatshash,
            self.predicatelockmanager,
            self.procarray,
            self.relationmapping,
            self.relcacheinit,
            self.replicationorigin,
            self.replicationoriginstate,
            self.replicationslotallocation,
            self.replicationslotcontrol,
            self.replicationslotio,
            self.serialbuffer,
            self.serializablefinishedlist,
            self.serializablepredicatelist,
            self.serializablexacthash,
            self.serialslru,
            self.sharedtidbitmap,
            self.sharedtuplestore,
            self.shmemindex,
            self.sinvalread,
            self.sinvalwrite,
            self.subtransbuffer,
            self.subtransslru,
            self.syncrep,
            self.syncscan,
            self.tablespacecreate,
            self.twophasestate,
            self.walbufmapping,
            self.walinsert,
            self.walwrite,
            self.wraplimitsvacuum,
            self.xactbuffer,
            self.xactslru,
            self.xacttruncation,
            self.xidgen,
            self.other,
        ]
    }

    /// Counts the active sessions of a sample that wait on `lwlock`, by wait event.
    pub fn process_pg_stat_activity(pg_stat_activity: &Vec<PgStatActivity>) -> (r: Self)
        ensures
            r == Self::from_sessions(pg_stat_activity@),
    {
        let events: Vec<&str> = vec![
            "addinshmeminit",
            "autofile",
            "autovacuum",
            "autovacuumschedule",
            "backgroundworker",
            "btreevacuum",
            "buffercontent",
            "buffermapping",
            "checkpointercomm",
            "committs",
            "committsbuffer",
            "committsslru",
            "controlfile",
            "dynamicsharedmemorycontrol",
            "lockfastpath",
            "lockmanager",
            "logicalreplauncerdsa",
            "logicalreplauncerhash",
            "logicalrepworker",
            "multixactgen",
            "multixactmemberbuffer",
            "multixactmemberslru",
            "multixactoffsetbuffer",
            "multixactoffsetslru",
            "multixacttruncation",
            "notifybuffer",
            "notifyqueue",
            "notifyqueuetail",
            "notifyslru",
            "oidgen",
            "oldsnapshottimemap",
            "parallelappend",
            "parallelhashjoin",
            "parallelquerydsa",
            "persessiondsa",
            "persessionrecordtype",
            "persessionrecordtypmod",
            "perxactpredicatelist",
            "pgstatsdata",
            "pgstatsdsa",
            "pgstatshash",
            "predicatelockmanager",
            "procarray",
            "relationmapping",
            "relcacheinit",
            "replicationorigin",
            "replicationoriginstate",
            "replicationslotallocation",
            "replicationslotcontrol",
            "replicationslotio",
            "serialbuffer",
            "serializablefinishedlist",
            "serializablepredicatelist",
            "serializablexacthash",
            "serialslru",
            "sharedtidbitmap",
            "sharedtuplestore",
            "shmemindex",
            "sinvalread",
            "sinvalwrite",
            "subtransbuffer",
            "subtransslru",
            "syncrep",
            "syncscan",
            "tablespacecreate",
            "twophasestate",
            "walbufmapping",
            "walinsert",
            "walwrite",
            "wraplimitsvacuum",
            "xactbuffer",
            "xactslru",
            "xacttruncation",
            "xidgen",
        ];
        let counts = count_wait_events(pg_stat_activity, "lwlock", &events);
        proof {
            assert(crate::activity::texts_of(events@) =~= lwlock_wait_events());
        }
        PgWaitTypeLWLock {
            addinsheminit: counts[0],
            autofile: counts[1],
            autovacuum: counts[2],
            autovacuumschedule: counts[3],
            backgroundworker: counts[4],
            btreevacuum: counts[5],
            buffercontent: counts[6],
            buffermapping: counts[7],
            checkpointercomm: counts[8],
            committs: counts[9],
            committsbuffer: counts[10],
            committsslru: counts[11],
            controlfile: counts[12],
            dynamicsharedmemorycontrol: counts[13],
            lockfastpath: counts[14],
            lockmanager: counts[15],
            logicalreplauncherdsa: counts[16],
            logicalreplauncherhash: counts[17],
            logicalrepworker: counts[18],
            multixactgen: counts[19],
            multixactmemberbuffer: counts[20],
            multixactmemberslru: counts[21],
            multixactoffsetbuffer: counts[22],
            multixactoffsetslru: counts[23],
            multixacttruncation: counts[24],
            notifybuffer: counts[25],
            notifyqueue: counts[26],
            notifyqueuetail: counts[27],
            notifyslru: counts[28],
            oidgen: counts[29],
            oldsnapshottimemap: counts[30],
            parallelappend: counts[31],
            parallelhashjoin: counts[32],
            parallelquerydsa: counts[33],
            persessiondsa: counts[34],
            persessionrecordtype: counts[35],
            persessionrecordtypmod: counts[36],
            perxactpredicatelist: counts[37],
            pgstatsdata: counts[38],
            pgstatsdsa: counts[39],
            pgstatshash: counts[40],
            predicatelockmanager: counts[41],
            procarray: counts[42],
            relationmapping: counts[43],
            relcacheinit: counts[44],
            replicationorigin: counts[45],
            replicationoriginstate: counts[46],
            replicationslotallocation: counts[47],
            replicationslotcontrol: counts[48],
            replicationslotio: counts[49],
            serialbuffer: counts[50],
            serializablefinishedlist: counts[51],
            serializablepredicatelist: counts[52],
            serializablexacthash: counts[53],
            serialslru: counts[54],
            sharedtidbitmap: counts[55],
            sharedtuplestore: counts[56],
            shmemindex: counts[57],
            sinvalread: counts[58],
            sinvalwrite: counts[59],
            subtransbuffer: counts[60],
            subtransslru: counts[61],
            syncrep: counts[62],
            syncscan: counts[63],
            tablespacecreate: counts[64],
            twophasestate: counts[65],
            walbufmapping: counts[66],
            walinsert: counts[67],
            walwrite: counts[68],
            wraplimitsvacuum: counts[69],
            xactbuffer: counts[70],
            xactslru: counts[71],
            xacttruncation: counts[72],
            xidgen: counts[73],
            other: counts[74],
        }
    }
}

/// The wait events of type `timeout` that [`PgWaitTypeTimeout`] counts one by one.
pub open spec fn timeout_wait_events() -> Seq<Seq<char>> {
    seq![
        "basebackupthrottle"@,
        "checkpoinwritedelay"@,
        "pgsleep"@,
        "recoveryapplydelay"@,
        "recoveryretrieveretryinterval"@,
        "registersyncrequest"@,
        "spindelay"@,
        "vacuumdelay"@,
        "vacuumtruncate"@,
    ]
}

/// Active sessions waiting on wait event type `timeout`, by wait event; `other`
/// takes the wait events that have no field of their own.
#[derive(Debug, Clone, Copy, PartialEq, Eq)]
pub struct PgWaitTypeTimeout {
    pub basebackupthrottle: usize,
    pub checkpointerwritedelay: usize,
    pub pgsleep: usize,
    pub recoveryapplydelay: usize,
    pub recoveryretrieveretryinterval: usize,
    pub registersyncrequest: usize,
    pub spindelay: usize,
    pub vacuumdelay: usize,
    pub vacuumtruncate: usize,
    pub other: usize,
}

impl PgWaitTypeTimeout {
    /// The breakdown by wait event of the sessions of `rows` that are active and
    /// wait on `timeout`.
    pub open spec fn from_sessions(rows: Seq<PgStatActivity>) -> PgWaitTypeTimeout {
        PgWaitTypeTimeout {
            basebackupthrottle: count_sessions(rows, SessionFilter::WaitEvent("timeout"@, "basebackupthrottle"@)) as usize,
            checkpointerwritedelay: count_sessions(rows, SessionFilter::WaitEvent("timeout"@, "checkpoinwritedelay"@)) as usize,
            pgsleep: count_sessions(rows, SessionFilter::WaitEvent("timeout"@, "pgsleep"@)) as usize,
            recoveryapplydelay: count_sessions(rows, SessionFilter::WaitEvent("timeout"@, "recoveryapplydelay"@)) as usize,
            recoveryretrieveretryinterval: count_sessions(rows, SessionFilter::WaitEvent("timeout"@, "recoveryretrieveretryinterval"@)) as usize,
            registersyncrequest: count_sessions(rows, SessionFilter::WaitEvent("timeout"@, "registersyncrequest"@)) as usize,
            spindelay: count_sessions(rows, SessionFilter::WaitEvent("timeout"@, "spindelay"@)) as usize,
            vacuumdelay: count_sessions(rows, SessionFilter::WaitEvent("timeout"@, "vacuumdelay"@)) as usize,
            vacuumtruncate: count_sessions(rows, SessionFilter::WaitEvent("timeout"@, "vacuumtruncate"@)) as usize,
            other: count_sessions(rows, SessionFilter::UnlistedEvent("timeout"@, timeout_wait_events())) as usize,
        }
    }

    /// All counts zero: the breakdown of no sessions.
    pub fn new() -> (r: Self)
        ensures
            r == Self::from_sessions(Seq::empty()),
    {
        PgWaitTypeTimeout {
            basebackupthrottle: 0,
            checkpointerwritedelay: 0,
            pgsleep: 0,
            recoveryapplydelay: 0,
            recoveryretrieveretryinterval: 0,
            registersyncrequest: 0,
            spindelay: 0,
            vacuumdelay: 0,
            vacuumtruncate: 0,
            other: 0,
        }
    }

    /// The counts in field order, `other` last.
    pub open spec fn value_seq(self) -> Seq<usize> {
        seq![
            self.basebackupthrottle,
            self.checkpointerwritedelay,
            self.pgsleep,
            self.recoveryapplydelay,
            self.recoveryretrieveretryinterval,
            self.registersyncrequest,
            self.spindelay,
            self.vacuumdelay,
            self.vacuumtruncate,
            self.other,
        ]
    }

    /// The counts as [`Self::value_seq`] orders them.
    pub fn values(&self) -> (r: Vec<usize>)
        ensures
            r@ == self.value_seq(),
    {
        vec![
            self.basebackupthrottle,
            self.checkpointerwritedelay,
            self.pgsleep,
            self.recoveryapplydelay,
            self.recoveryretrieveretryinterval,
            self.registersyncrequest,
            self.spindelay,
            self.vacuumdelay,
            self.vacuumtruncate,
            self.other,
        ]
    }

    /// Counts the active sessions of a sample that wait on `timeout`, by wait event.
    pub fn process_pg_stat_activity(pg_stat_activity: &Vec<PgStatActivity>) -> (r: Self)
        ensures
            r == Self::from_sessions(pg_stat_activity@),
    {
        let events: Vec<&str> = vec![
            "basebackupthrottle",
            "checkpoinwritedelay",
            "pgsleep",
            "recoveryapplydelay",
            "recoveryretrieveretryinterval",
            "registersyncrequest",
            "spindelay",
            "vacuumdelay",
            "vacuumtruncate",
        ];
        let counts = count_wait_events(pg_stat_activity, "timeout", &events);
        proof {
            assert(crate::activity::texts_of(events@) =~= timeout_wait_events());
        }
        PgWaitTypeTimeout {
            basebackupthrottle: counts[0],
            checkpointerwritedelay: counts[1],
            pgsleep: counts[2],
            recoveryapplydelay: counts[3],
            recoveryretrieveretryinterval: counts[4],
            registersyncrequest: counts[5],
            spindelay: counts[6],
            vacuumdelay: counts[7],
            vacuumtruncate: counts[8],
            other: counts[9],
        }
    }
}

/// The ten breakdowns that one sample of sessions yields.
#[derive(Debug, Clone, Copy, PartialEq, Eq)]
pub struct WaitEvents {
    pub wait_event_types: PgWaitTypes,
    pub wait_event_activity: PgWaitTypeActivity,
    pub wait_event_bufferpin: PgWaitTypeBufferPin,
    pub wait_event_client: PgWaitTypeClient,
    pub wait_event_extension: PgWaitTypeExtension,
    pub wait_event_io: PgWaitTypeIO,
    pub wait_event_ipc: PgWaitTypeIPC,
    pub wait_event_lock: PgWaitTypeLock,
    pub wait_event_lwlock: PgWaitTypeLWLock,
    pub wait_event_timeout: PgWaitTypeTimeout,
}

impl WaitEvents {
    /// Computes every breakdown of one sample of sessions.
    pub fn process_waits(pg_stat_activity: &Vec<PgStatActivity>) -> (r: Self)
        ensures
            r.wait_event_types == PgWaitTypes::from_sessions(pg_stat_activity@),
            r.wait_event_activity == PgWaitTypeActivity::from_sessions(pg_stat_activity@),
            r.wait_event_bufferpin == PgWaitTypeBufferPin::from_sessions(pg_stat_activity@),
            r.wait_event_client == PgWaitTypeClient::from_sessions(pg_stat_activity@),
            r.wait_event_extension == PgWaitTypeExtension::from_sessions(pg_stat_activity@),
            r.wait_event_io == PgWaitTypeIO::from_sessions(pg_stat_activity@),
            r.wait_event_ipc == PgWaitTypeIPC::from_sessions(pg_stat_activity@),
            r.wait_event_lock == PgWaitTypeLock::from_sessions(pg_stat_activity@),
            r.wait_event_lwlock == PgWaitTypeLWLock::from_sessions(pg_stat_activity@),
            r.wait_event_timeout == PgWaitTypeTimeout::from_sessions(pg_stat_activity@),
    {
        WaitEvents {
            wait_event_types: PgWaitTypes::process_pg_stat_activity(pg_stat_activity),
            wait_event_activity: PgWaitTypeActivity::process_pg_stat_activity(pg_stat_activity),
            wait_event_bufferpin: PgWaitTypeBufferPin::process_pg_stat_activity(pg_stat_activity),
            wait_event_client: PgWaitTypeClient::process_pg_stat_activity(pg_stat_activity),
            wait_event_extension: PgWaitTypeExtension::process_pg_stat_activity(pg_stat_activity),
            wait_event_io: PgWaitTypeIO::process_pg_stat_activity(pg_stat_activity),
            wait_event_ipc: PgWaitTypeIPC::process_pg_stat_activity(pg_stat_activity),
            wait_event_lock: PgWaitTypeLock::process_pg_stat_activity(pg_stat_activity),
            wait_event_lwlock: PgWaitTypeLWLock::process_pg_stat_activity(pg_stat_activity),
            wait_event_timeout: PgWaitTypeTimeout::process_pg_stat_activity(pg_stat_activity),
        }
    }
}

} // verus!
