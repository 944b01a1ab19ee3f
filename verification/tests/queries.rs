use pas::activity::{PgStatActivity, SessionScope, WaitLabelKind};
use pas::ash::ActiveSessionHistory;
use pas::queries::{QueryBreakdown, QueryGrouping};

fn session(state: &str, wait: Option<(&str, &str)>, query_id: Option<i64>, query: Option<&str>) -> PgStatActivity {
    PgStatActivity {
        timestamp: 0,
        datid: None,
        datname: None,
        pid: 7,
        leader_pid: None,
        usesysid: None,
        usename: None,
        application_name: None,
        client_addr: None,
        client_hostname: None,
        client_port: None,
        backend_time: None,
        xact_time: None,
        query_time: None,
        state_time: None,
        wait_event_type: wait.map(|w| w.0.to_string()),
        wait_event: wait.map(|w| w.1.to_string()),
        state: Some(state.to_string()),
        backend_xid: None,
        backend_xmin: None,
        query_id,
        query: query.map(|q| q.to_string()),
        backend_type: None,
    }
}

fn samples() -> Vec<(i64, Vec<PgStatActivity>)> {
    vec![
        (
            1,
            vec![
                session("active", None, Some(11), Some("select a")),
                session("active", Some(("io", "datafileread")), Some(22), Some("update b")),
                session("idle", None, Some(33), Some("select c")),
            ],
        ),
        (
            2,
            vec![
                session("active", Some(("io", "datafileread")), Some(22), Some("update b2")),
                session("active", Some(("lock", "tuple")), Some(22), Some("update b")),
                session("active", None, None, Some("vacuum")),
            ],
        ),
    ]
}

#[test]
fn breakdown_by_query_id_orders_by_total() {
    let b = QueryBreakdown::from_samples(
        &samples(),
        QueryGrouping::QueryId,
        WaitLabelKind::WaitEvent,
        &SessionScope::all(),
    );
    let labels: Vec<&str> = b.labels.iter().map(|l| l.as_str()).collect();
    assert_eq!(labels, vec!["io:datafileread", "lock:tuple", "on_cpu"]);
    assert_eq!(b.groups.len(), 3);
    assert_eq!(b.groups[0].query_id, 22);
    // the query text of a query id is that of its first session
    assert_eq!(b.groups[0].query, "update b");
    assert_eq!(b.groups[0].counts, vec![2, 1, 0]);
    assert_eq!(b.groups[0].stacked, vec![3, 1, 0]);
    assert_eq!(b.groups[0].total, 3);
    assert_eq!(b.samples_max, 3);
    let mut rest: Vec<(i64, usize)> = b.groups[1..].iter().map(|g| (g.query_id, g.total)).collect();
    rest.sort();
    // a NULL query id counts as 0
    assert_eq!(rest, vec![(0, 1), (11, 1)]);
}

#[test]
fn breakdown_by_text_within_one_query_id() {
    let scope = SessionScope { query_id: Some(22), query: None };
    let b = QueryBreakdown::from_samples(
        &samples(),
        QueryGrouping::QueryText,
        WaitLabelKind::WaitEvent,
        &scope,
    );
    assert_eq!(b.groups.len(), 2);
    assert_eq!(b.groups[0].query, "update b");
    assert_eq!(b.groups[0].total, 2);
    assert_eq!(b.groups[0].query_id, 22);
    assert_eq!(b.groups[1].query, "update b2");
    assert_eq!(b.groups[1].total, 1);
}

#[test]
fn breakdown_of_one_query_text() {
    let scope = SessionScope { query_id: None, query: Some("select a".to_string()) };
    let b = QueryBreakdown::from_samples(
        &samples(),
        QueryGrouping::QueryText,
        WaitLabelKind::WaitEvent,
        &scope,
    );
    assert_eq!(b.groups.len(), 1);
    assert_eq!(b.groups[0].query_id, 11);
    assert_eq!(b.groups[0].total, 1);
    assert_eq!(b.labels, vec!["on_cpu".to_string()]);
}

#[test]
fn keep_largest_drops_the_rest() {
    let mut b = QueryBreakdown::from_samples(
        &samples(),
        QueryGrouping::QueryId,
        WaitLabelKind::WaitEvent,
        &SessionScope::all(),
    );
    assert_eq!(b.keep_largest(5), 0);
    assert_eq!(b.groups.len(), 3);
    assert_eq!(b.keep_largest(1), 2);
    assert_eq!(b.groups.len(), 1);
    assert_eq!(b.groups[0].query_id, 22);
}

#[test]
fn total_from_sums_the_tail() {
    let b = QueryBreakdown::from_samples(
        &samples(),
        QueryGrouping::QueryId,
        WaitLabelKind::WaitEvent,
        &SessionScope::all(),
    );
    assert_eq!(b.total_from(0), Some(5));
    assert_eq!(b.total_from(1), Some(2));
    assert_eq!(b.total_from(3), Some(0));
    assert_eq!(b.total_from(9), Some(0));
}

#[test]
fn breakdown_and_history_name_the_same_waits() {
    let scope = SessionScope { query_id: Some(22), query: None };
    for kind in [WaitLabelKind::WaitEvent, WaitLabelKind::WaitType] {
        let b = QueryBreakdown::from_samples(&samples(), QueryGrouping::QueryText, kind, &scope);
        let h = ActiveSessionHistory::from_samples(&samples(), kind, &scope);
        assert_eq!(b.labels, h.labels);
    }
    let b = QueryBreakdown::from_samples(&samples(), QueryGrouping::QueryId, WaitLabelKind::WaitType, &SessionScope::all());
    let h = ActiveSessionHistory::from_samples(&samples(), WaitLabelKind::WaitType, &SessionScope::all());
    assert_eq!(b.labels, h.labels);
    assert_eq!(h.labels, vec!["io".to_string(), "lock".to_string(), "~on_cpu".to_string()]);
}

#[test]
fn group_bars_add_up_to_the_history_totals() {
    for grouping in [QueryGrouping::QueryId, QueryGrouping::QueryText] {
        for scope in [SessionScope::all(), SessionScope { query_id: Some(22), query: None }] {
            let b = QueryBreakdown::from_samples(&samples(), grouping, WaitLabelKind::WaitEvent, &scope);
            let h = ActiveSessionHistory::from_samples(&samples(), WaitLabelKind::WaitEvent, &scope);
            for k in 0..b.labels.len() {
                let column: usize = b.groups.iter().map(|g| g.counts[k]).sum();
                assert_eq!(column, h.totals[k]);
            }
        }
    }
}
