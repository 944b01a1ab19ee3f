use pas::links::{query_from_link_argument, query_link_argument};
use pas::activity::PgStatActivity;
use pas::archive::{select_window, split_file_names, ArchiveSchedule, ArchiveWindow};
use pas::delta::{DeltaStep, DeltaTable};
use pas::text::{text_less_than, texts_equal};
use pas::web::{handler_1_html, handler_2_html, handler_html, plot_kind, query_table, QueryTable, remove_clientread, wait_type_color, PlotKind, WaitTypeColor};
use pas::xid::highest_age;

#[test]
fn delta_steps_follow_the_readings() {
    assert_eq!(DeltaTable::next_step(None, 5000, false), DeltaStep::Start);
    assert_eq!(DeltaTable::next_step(Some(5000), 5000, false), DeltaStep::Repeat);
    assert_eq!(DeltaTable::next_step(Some(5000), 5000, true), DeltaStep::Repeat);
    assert_eq!(DeltaTable::next_step(Some(5000), 6000, true), DeltaStep::Reset);
    assert_eq!(DeltaTable::next_step(Some(5000), 6500, false), DeltaStep::Advance { elapsed_ms: 1500 });
}

#[test]
fn archive_schedule_moves_window_by_window() {
    let mut s = ArchiveSchedule::new(600_000, 10);
    assert_eq!(s.interval_ms, 600_000);
    assert_eq!(s.tick(600_000), None);
    assert_eq!(s.tick(600_001), Some(ArchiveWindow { low: 0, high: 600_000 }));
    assert_eq!(s.high_time, 1_200_000);
    assert_eq!(s.tick(1_300_000), Some(ArchiveWindow { low: 600_000, high: 1_200_000 }));
}

#[test]
fn select_window_keeps_later_than_low_up_to_high() {
    let w = ArchiveWindow { low: 10, high: 20 };
    assert_eq!(select_window(&vec![5, 10, 11, 20, 21, 15], w), vec![2, 3, 5]);
}

#[test]
fn file_names_split_at_commas() {
    assert_eq!(split_file_names("a.json,b.json"), vec!["a.json", "b.json"]);
    assert_eq!(split_file_names("single"), vec!["single"]);
    assert_eq!(split_file_names(""), vec![""]);
    assert_eq!(split_file_names("x,,y,"), vec!["x", "", "y", ""]);
}

#[test]
fn plot_requests_and_colors() {
    assert_eq!(plot_kind("ash_wait_type"), Some(PlotKind::AshWaitType));
    assert_eq!(plot_kind("we_qid_q"), Some(PlotKind::WaitEventsQueryIdQuery));
    assert_eq!(plot_kind("nonsense"), None);
    assert_eq!(plot_kind("sh"), Some(PlotKind::Sh));
    assert_eq!(plot_kind("sh_lwlock"), Some(PlotKind::ShLwLock));
    assert_eq!(plot_kind("io_latency"), Some(PlotKind::IoLatency));
    assert_eq!(handler_html("sh_io"), r#"<img src="/plotter/sh_io">"#);
    assert_eq!(query_table("all_queries"), Some(QueryTable::AllQueries));
    assert_eq!(query_table("selected_queries"), Some(QueryTable::SelectedQueries));
    assert_eq!(query_table("some_queries"), None);
    assert!(!remove_clientread("Y"));
    assert!(remove_clientread("N"));
    assert_eq!(wait_type_color("io"), Some(WaitTypeColor::Blue600));
    assert_eq!(wait_type_color("~on_cpu"), Some(WaitTypeColor::Green));
    assert_eq!(wait_type_color("bufferpin"), None);
    assert_eq!(handler_1_html("iops", "Y"), r#"<img src="/plotter/iops/x/Y">"#);
    assert_eq!(handler_2_html("ash_wait_query_by_queryid", "42", "N"), r#"<img src="/plotter/ash_wait_query_by_queryid/42/N">"#);
}

#[test]
fn highest_age_over_databases() {
    assert_eq!(highest_age(&vec![]), None);
    assert_eq!(highest_age(&vec![5, 900, 17]), Some(900));
}

#[test]
fn text_order_is_by_code_point() {
    assert!(text_less_than("io", "lock"));
    assert!(text_less_than("io", "io:x"));
    assert!(!text_less_than("lock", "io"));
    assert!(!text_less_than("a", "a"));
    assert!(text_less_than("Z", "a"));
    assert!(text_less_than("lwlock", "~on_cpu"));
    assert!(texts_equal("abc", "abc"));
    assert!(!texts_equal("abc", "abd"));
}

fn timed(pid: i32, query_time: Option<i64>) -> PgStatActivity {
    PgStatActivity {
        timestamp: 0,
        datid: None,
        datname: None,
        pid,
        leader_pid: None,
        usesysid: None,
        usename: None,
        application_name: None,
        client_addr: None,
        client_hostname: None,
        client_port: None,
        backend_time: None,
        xact_time: None,
        query_time,
        state_time: None,
        wait_event_type: None,
        wait_event: None,
        state: None,
        backend_xid: None,
        backend_xmin: None,
        query_id: None,
        query: None,
        backend_type: None,
    }
}

#[test]
fn sessions_ordered_longest_query_first() {
    let rows = vec![timed(1, Some(3)), timed(2, None), timed(3, Some(10)), timed(4, Some(3)), timed(5, Some(0))];
    let mut expected = rows.clone();
    expected.sort_by_key(|a| *a.query_time.as_ref().unwrap_or(&0_i64));
    expected.reverse();
    let ordered = PgStatActivity::order_by_query_time(rows);
    let pids: Vec<i32> = ordered.iter().map(|r| r.pid).collect();
    assert_eq!(pids, vec![3, 4, 1, 5, 2]);
    assert_eq!(pids, expected.iter().map(|r| r.pid).collect::<Vec<i32>>());
}

#[test]
fn query_links_round_trip() {
    assert_eq!(query_link_argument("select 1"), "c2VsZWN0IDE=");
    assert_eq!(query_link_argument("a?b>"), "YT9iPg==");
    let q = "select * from t where x = 'ä'";
    assert_eq!(query_from_link_argument(&query_link_argument(q)), Some(q.to_string()));
    assert_eq!(query_from_link_argument("c2VsZWN0IDE="), Some("select 1".to_string()));
    assert_eq!(query_from_link_argument("%%%"), None);
    // the bytes are no UTF-8
    assert_eq!(query_from_link_argument("_w=="), None);
}

fn waiting(pid: i32, wait_type: &str, wait_event: &str) -> PgStatActivity {
    let mut r = timed(pid, None);
    r.wait_event_type = Some(wait_type.to_string());
    r.wait_event = Some(wait_event.to_string());
    r.state = Some("active".to_string());
    r
}

#[test]
fn client_reads_are_dropped_in_order() {
    let mut rows = vec![
        waiting(1, "client", "clientread"),
        waiting(2, "io", "datafileread"),
        waiting(3, "client", "clientwrite"),
        waiting(4, "client", "clientread"),
        timed(5, Some(3)),
        waiting(6, "lock", "clientread"),
    ];
    PgStatActivity::drop_client_reads(&mut rows);
    let pids: Vec<i32> = rows.iter().map(|r| r.pid).collect();
    assert_eq!(pids, vec![2, 3, 5, 6]);
    let mut none: Vec<PgStatActivity> = Vec::new();
    PgStatActivity::drop_client_reads(&mut none);
    assert!(none.is_empty());
}
