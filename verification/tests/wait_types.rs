use pas::activity::PgStatActivity;
use pas::wait_types::{
    PgCurrentWaitTypes, PgWaitTypeBufferPin, PgWaitTypeClient, PgWaitTypeIO, PgWaitTypeLWLock,
    PgWaitTypeTimeout, PgWaitTypes, WaitEvents,
};

fn session(state: Option<&str>, wait_type: Option<&str>, wait_event: Option<&str>) -> PgStatActivity {
    PgStatActivity {
        timestamp: 0,
        datid: None,
        datname: None,
        pid: 1,
        leader_pid: None,
        usesysid: None,
        usename: None,
        application_name: None,
        client_addr: None,
        client_hostname: None,
        client_port: None,
        backend_time: None,
        xact_time: None,
        query_time: None,
        state_time: None,
        wait_event_type: wait_type.map(|s| s.to_string()),
        wait_event: wait_event.map(|s| s.to_string()),
        state: state.map(|s| s.to_string()),
        backend_xid: None,
        backend_xmin: None,
        query_id: None,
        query: None,
        backend_type: None,
    }
}

fn sample() -> Vec<PgStatActivity> {
    vec![
        session(Some("active"), None, None),
        session(Some("active"), None, None),
        session(Some("active"), Some("io"), Some("datafileread")),
        session(Some("active"), Some("io"), Some("datafileread")),
        session(Some("active"), Some("io"), Some("walwrite")),
        session(Some("active"), Some("io"), Some("somethingnew")),
        session(Some("active"), Some("io"), None),
        session(Some("idle"), Some("client"), Some("clientread")),
        session(Some("active"), Some("client"), Some("clientread")),
        session(Some("active"), Some("bufferpin"), Some("bufferpin")),
        session(Some("active"), Some("lwlock"), Some("addinshmeminit")),
        session(Some("active"), Some("timeout"), Some("checkpoinwritedelay")),
        session(None, Some("lock"), Some("relation")),
        session(Some("active"), Some(""), None),
    ]
}

#[test]
fn wait_types_count_active_sessions_by_type() {
    let w = PgWaitTypes::process_pg_stat_activity(&sample());
    assert_eq!(w.on_cpu, 2);
    assert_eq!(w.io, 5);
    assert_eq!(w.client, 1);
    assert_eq!(w.lwlock, 1);
    assert_eq!(w.timeout, 1);
    assert_eq!(w.lock, 0);
    // the type is spelt buffer_pin here, which the sampled rows never use
    assert_eq!(w.buffer_pin, 0);
    assert_eq!(w.activity, 0);
}

#[test]
fn current_wait_types_spell_bufferpin() {
    let w = PgCurrentWaitTypes::process_pg_stat_activity(&sample());
    assert_eq!(w.buffer_pin, 1);
    assert_eq!(w.on_cpu, 2);
    assert_eq!(w.io, 5);
}

#[test]
fn io_breakdown_counts_events_and_other() {
    let w = PgWaitTypeIO::process_pg_stat_activity(&sample());
    assert_eq!(w.datafileread, 2);
    assert_eq!(w.walwrite, 1);
    assert_eq!(w.other, 2);
    assert_eq!(w.values().iter().sum::<usize>(), 5);
}

#[test]
fn misspelt_events_land_in_their_fields() {
    let w = PgWaitTypeLWLock::process_pg_stat_activity(&sample());
    assert_eq!(w.addinsheminit, 1);
    let t = PgWaitTypeTimeout::process_pg_stat_activity(&sample());
    assert_eq!(t.checkpointerwritedelay, 1);
    assert_eq!(t.other, 0);
    let c = PgWaitTypeClient::process_pg_stat_activity(&vec![session(
        Some("active"),
        Some("client"),
        Some("libpqwalreceiverreceive"),
    )]);
    // the field counts the capitalised name only
    assert_eq!(c.libpqwalreceiverreceive, 0);
    assert_eq!(c.other, 1);
}

#[test]
fn new_breakdowns_are_zero() {
    assert_eq!(PgWaitTypeBufferPin::new(), PgWaitTypeBufferPin { bufferpin: 0, other: 0 });
    assert!(PgWaitTypeIO::new().values().iter().all(|v| *v == 0));
}

#[test]
fn wait_events_gathers_every_breakdown() {
    let rows = sample();
    let w = WaitEvents::process_waits(&rows);
    assert_eq!(w.wait_event_types, PgWaitTypes::process_pg_stat_activity(&rows));
    assert_eq!(w.wait_event_bufferpin.bufferpin, 1);
    assert_eq!(w.wait_event_io.other, 2);
}

#[test]
fn breakdowns_add_up_to_their_wait_type() {
    let rows = sample();
    let types = PgCurrentWaitTypes::process_pg_stat_activity(&rows);
    let io: usize = PgWaitTypeIO::process_pg_stat_activity(&rows).values().iter().sum();
    assert_eq!(io, types.io);
    assert_eq!(io, 5);
    let client: usize = PgWaitTypeClient::process_pg_stat_activity(&rows).values().iter().sum();
    assert_eq!(client, types.client);
    let bufferpin: usize = PgWaitTypeBufferPin::process_pg_stat_activity(&rows).values().iter().sum();
    assert_eq!(bufferpin, types.buffer_pin);
    assert_eq!(bufferpin, 1);
    let lwlock: usize = PgWaitTypeLWLock::process_pg_stat_activity(&rows).values().iter().sum();
    assert_eq!(lwlock, types.lwlock);
    let timeout: usize = PgWaitTypeTimeout::process_pg_stat_activity(&rows).values().iter().sum();
    assert_eq!(timeout, types.timeout);
    assert_eq!(timeout, 1);
}
