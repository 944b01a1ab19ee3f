use pas::activity::{PgStatActivity, SessionScope, WaitLabelKind};
use pas::ash::ActiveSessionHistory;

fn session(state: &str, wait_type: Option<&str>, wait_event: Option<&str>, query_id: Option<i64>) -> PgStatActivity {
    PgStatActivity {
        timestamp: 0,
        datid: None,
        datname: None,
        pid: 7,
        leader_pid: None,
        usesysid: None,
        usename: None,
        application_name: None,
        client_addr: None,
        client_hostname: None,
        client_port: None,
        backend_time: None,
        xact_time: None,
        query_time: None,
        state_time: None,
        wait_event_type: wait_type.map(|s| s.to_string()),
        wait_event: wait_event.map(|s| s.to_string()),
        state: Some(state.to_string()),
        backend_xid: None,
        backend_xmin: None,
        query_id,
        query: query_id.map(|q| format!("select {}", q)),
        backend_type: None,
    }
}

fn samples() -> Vec<(i64, Vec<PgStatActivity>)> {
    vec![
        (
            1000,
            vec![
                session("active", None, None, Some(1)),
                session("active", Some("io"), Some("datafileread"), Some(1)),
                session("idle", Some("client"), Some("clientread"), Some(2)),
            ],
        ),
        (
            2000,
            vec![
                session("active", Some("lock"), Some("relation"), Some(2)),
                session("active", Some("io"), Some("datafileread"), Some(2)),
                session("active", Some("io"), Some("walwrite"), None),
                session("active", Some(""), None, None),
            ],
        ),
        (3000, vec![]),
    ]
}

fn labels(h: &ActiveSessionHistory) -> Vec<&str> {
    h.labels.iter().map(|l| l.as_str()).collect()
}

#[test]
fn history_by_type_names_and_counts_each_sample() {
    let h = ActiveSessionHistory::from_samples(&samples(), WaitLabelKind::WaitType, &SessionScope::all());
    assert_eq!(labels(&h), vec!["io", "lock", "~on_cpu"]);
    assert_eq!(h.timestamps, vec![1000, 2000, 3000]);
    assert_eq!(h.counts, vec![vec![1, 0, 1], vec![2, 1, 1], vec![0, 0, 0]]);
    assert_eq!(h.stacked, vec![vec![2, 1, 1], vec![4, 2, 1], vec![0, 0, 0]]);
    assert_eq!(h.totals, vec![3, 1, 2]);
    assert_eq!(h.max_active, 4);
}

#[test]
fn history_by_event_joins_type_and_event() {
    let h = ActiveSessionHistory::from_samples(&samples(), WaitLabelKind::WaitEvent, &SessionScope::all());
    assert_eq!(
        labels(&h),
        vec!["io:datafileread", "io:walwrite", "lock:relation", "on_cpu"]
    );
    // an empty wait event type without a wait event reads as on_cpu too
    assert_eq!(h.totals, vec![2, 1, 1, 2]);
    // the top of the stack is the number of active sessions of the sample
    assert_eq!(h.stacked[1][0], 4);
}

#[test]
fn history_within_a_query() {
    let scope = SessionScope { query_id: Some(2), query: None };
    let h = ActiveSessionHistory::from_samples(&samples(), WaitLabelKind::WaitEvent, &scope);
    assert_eq!(labels(&h), vec!["io:datafileread", "lock:relation"]);
    assert_eq!(h.counts, vec![vec![0, 0], vec![1, 1], vec![0, 0]]);
    assert_eq!(h.max_active, 2);
}

#[test]
fn history_of_nothing_is_empty() {
    let h = ActiveSessionHistory::from_samples(&vec![], WaitLabelKind::WaitType, &SessionScope::all());
    assert!(h.labels.is_empty());
    assert!(h.counts.is_empty());
    assert_eq!(h.max_active, 0);
}
