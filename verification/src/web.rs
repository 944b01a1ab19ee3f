use crate::text::texts_equal;
use vstd::prelude::*;
use vstd::string::StringExecFns;

verus! {

/// The graphs the plotter draws, by the name a request gives.
#[derive(Debug, Clone, Copy, PartialEq, Eq)]
pub enum PlotKind {
    AshWaitType,
    AshWaitEvent,
    AshWaitQuery,
    WalIoTimes,
    WalSize,
    IoLatency,
    IoBandwidth,
    Iops,
    XidAge,
    Transactions,
    Tuples,
    WaitEventsQueryIdQuery,
    AshWaitQueryByQueryId,
    AshWaitQueryByQuery,
    /// The stored counts by wait event type, with their statistics.
    Sh,
    /// The stored counts of the wait events of one wait event type.
    ShActivity,
    ShBufferPin,
    ShClient,
    ShExtension,
    ShIo,
    ShIpc,
    ShLock,
    ShLwLock,
    ShTimeout,
}

/// The graph a request names, if it names one.
pub open spec fn plot_kind_of(name: Seq<char>) -> Option<PlotKind> {
    if name == "ash_wait_type"@ {
        Some(PlotKind::AshWaitType)
    } else if name == "ash_wait_event"@ {
        Some(PlotKind::AshWaitEvent)
    } else if name == "ash_wait_query"@ {
        Some(PlotKind::AshWaitQuery)
    } else if name == "wal_io_times"@ {
        Some(PlotKind::WalIoTimes)
    } else if name == "wal_size"@ {
        Some(PlotKind::WalSize)
    } else if name == "io_latency"@ {
        Some(PlotKind::IoLatency)
    } else if name == "io_bandwidth"@ {
        Some(PlotKind::IoBandwidth)
    } else if name == "iops"@ {
        Some(PlotKind::Iops)
    } else if name == "xid_age"@ {
        Some(PlotKind::XidAge)
    } else if name == "transactions"@ {
        Some(PlotKind::Transactions)
    } else if name == "tuples"@ {
        Some(PlotKind::Tuples)
    } else if name == "we_qid_q"@ {
        Some(PlotKind::WaitEventsQueryIdQuery)
    } else if name == "ash_wait_query_by_queryid"@ {
        Some(PlotKind::AshWaitQueryByQueryId)
    } else if name == "ash_wait_query_by_query"@ {
        Some(PlotKind::AshWaitQueryByQuery)
    } else if name == "sh"@ {
        Some(PlotKind::Sh)
    } else if name == "sh_activity"@ {
        Some(PlotKind::ShActivity)
    } else if name == "sh_bufferpin"@ {
        Some(PlotKind::ShBufferPin)
    } else if name == "sh_client"@ {
        Some(PlotKind::ShClient)
    } else if name == "sh_extension"@ {
        Some(PlotKind::ShExtension)
    } else if name == "sh_io"@ {
        Some(PlotKind::ShIo)
    } else if name == "sh_ipc"@ {
        Some(PlotKind::ShIpc)
    } else if name == "sh_lock"@ {
        Some(PlotKind::ShLock)
    } else if name == "sh_lwlock"@ {
        Some(PlotKind::ShLwLock)
    } else if name == "sh_timeout"@ {
        Some(PlotKind::ShTimeout)
    } else {
        None
    }
}

/// The graph a plotter request names; `None` for a name the plotter does not know.
pub fn plot_kind(name: &str) -> (r: Option<PlotKind>)
    ensures
        r == plot_kind_of(name@),
{
    if texts_equal(name, "ash_wait_type") {
        Some(PlotKind::AshWaitType)
    } else if texts_equal(name, "ash_wait_event") {
        Some(PlotKind::AshWaitEvent)
    } else if texts_equal(name, "ash_wait_query") {
        Some(PlotKind::AshWaitQuery)
    } else if texts_equal(name, "wal_io_times") {
        Some(PlotKind::WalIoTimes)
    } else if texts_equal(name, "wal_size") {
        Some(PlotKind::WalSize)
    } else if texts_equal(name, "io_latency") {
        Some(PlotKind::IoLatency)
    } else if texts_equal(name, "io_bandwidth") {
        Some(PlotKind::IoBandwidth)
    } else if texts_equal(name, "iops") {
        Some(PlotKind::Iops)
    } else if texts_equal(name, "xid_age") {
        Some(PlotKind::XidAge)
    } else if texts_equal(name, "transactions") {
        Some(PlotKind::Transactions)
    } else if texts_equal(name, "tuples") {
        Some(PlotKind::Tuples)
    } else if texts_equal(name, "we_qid_q") {
        Some(PlotKind::WaitEventsQueryIdQuery)
    } else if texts_equal(name, "ash_wait_query_by_queryid") {
        Some(PlotKind::AshWaitQueryByQueryId)
    } else if texts_equal(name, "ash_wait_query_by_query") {
        Some(PlotKind::AshWaitQueryByQuery)
    } else if texts_equal(name, "sh") {
        Some(PlotKind::Sh)
    } else if texts_equal(name, "sh_activity") {
        Some(PlotKind::ShActivity)
    } else if texts_equal(name, "sh_bufferpin") {
        Some(PlotKind::ShBufferPin)
    } else if texts_equal(name, "sh_client") {
        Some(PlotKind::ShClient)
    } else if texts_equal(name, "sh_extension") {
        Some(PlotKind::ShExtension)
    } else if texts_equal(name, "sh_io") {
        Some(PlotKind::ShIo)
    } else if texts_equal(name, "sh_ipc") {
        Some(PlotKind::ShIpc)
    } else if texts_equal(name, "sh_lock") {
        Some(PlotKind::ShLock)
    } else if texts_equal(name, "sh_lwlock") {
        Some(PlotKind::ShLwLock)
    } else if texts_equal(name, "sh_timeout") {
        Some(PlotKind::ShTimeout)
    } else {
        None
    }
}

/// The tables of queries that a page can show beside its graph.
#[derive(Debug, Clone, Copy, PartialEq, Eq)]
pub enum QueryTable {
    /// Every query id, or every query text of one query id.
    AllQueries,
    /// One query text.
    SelectedQueries,
}

/// The table a request names, if it names one.
pub open spec fn query_table_of(name: Seq<char>) -> Option<QueryTable> {
    if name == "all_queries"@ {
        Some(QueryTable::AllQueries)
    } else if name == "selected_queries"@ {
        Some(QueryTable::SelectedQueries)
    } else {
        None
    }
}

/// The table of queries a page request names; `None` for a name the pages do
/// not know.
pub fn query_table(name: &str) -> (r: Option<QueryTable>)
    ensures
        r == query_table_of(name@),
{
    if texts_equal(name, "all_queries") {
        Some(QueryTable::AllQueries)
    } else if texts_equal(name, "selected_queries") {
        Some(QueryTable::SelectedQueries)
    } else {
        None
    }
}

/// Client reads are left out of a graph unless the request says `Y`.
pub fn remove_clientread(show_clientread: &str) -> (r: bool)
    ensures
        r == (show_clientread@ != "Y"@),
{
    !texts_equal(show_clientread, "Y")
}

/// The colour of each wait event type in the graphs, named after the palette.
#[derive(Debug, Clone, Copy, PartialEq, Eq)]
pub enum WaitTypeColor {
    Purple,
    LightBlue300,
    Grey,
    Green800,
    Brown,
    PinkA100,
    Red900,
    Red,
    Blue600,
    Green,
}

/// The colour of a wait event type, if it has one.
pub open spec fn wait_type_color_of(t: Seq<char>) -> Option<WaitTypeColor> {
    if t == "activity"@ {
        Some(WaitTypeColor::Purple)
    } else if t == "buffer_pin"@ {
        Some(WaitTypeColor::LightBlue300)
    } else if t == "client"@ {
        Some(WaitTypeColor::Grey)
    } else if t == "extension"@ {
        Some(WaitTypeColor::Green800)
    } else if t == "timeout"@ {
        Some(WaitTypeColor::Brown)
    } else if t == "ipc"@ {
        Some(WaitTypeColor::PinkA100)
    } else if t == "lwlock"@ {
        Some(WaitTypeColor::Red900)
    } else if t == "lock"@ {
        Some(WaitTypeColor::Red)
    } else if t == "io"@ {
        Some(WaitTypeColor::Blue600)
    } else if t == "on_cpu"@ || t == "~on_cpu"@ {
        Some(WaitTypeColor::Green)
    } else {
        None
    }
}

/// The colour that draws a wait event type; `None` for a type without one.
pub fn wait_type_color(wait_event_type: &str) -> (r: Option<WaitTypeColor>)
    ensures
        r == wait_type_color_of(wait_event_type@),
{
    if texts_equal(wait_event_type, "activity") {
        Some(WaitTypeColor::Purple)
    } else if texts_equal(wait_event_type, "buffer_pin") {
        Some(WaitTypeColor::LightBlue300)
    } else if texts_equal(wait_event_type, "client") {
        Some(WaitTypeColor::Grey)
    } else if texts_equal(wait_event_type, "extension") {
        Some(WaitTypeColor::Green800)
    } else if texts_equal(wait_event_type, "timeout") {
        Some(WaitTypeColor::Brown)
    } else if texts_equal(wait_event_type, "ipc") {
        Some(WaitTypeColor::PinkA100)
    } else if texts_equal(wait_event_type, "lwlock") {
        Some(WaitTypeColor::Red900)
    } else if texts_equal(wait_event_type, "lock") {
        Some(WaitTypeColor::Red)
    } else if texts_equal(wait_event_type, "io") {
        Some(WaitTypeColor::Blue600)
    } else if texts_equal(wait_event_type, "on_cpu") || texts_equal(wait_event_type, "~on_cpu") {
        Some(WaitTypeColor::Green)
    } else {
        None
    }
}

/// The image tag that asks the plotter for graph `plot` with argument `arg`.
pub fn plotter_image_tag(plot: &str, arg: &str, show_clientread: &str) -> (r: String)
    ensures
        r@ == "<img src=\"/plotter/"@ + plot@ + "/"@ + arg@ + "/"@ + show_clientread@ + "\">"@,
{
    let mut r = "<img src=\"/plotter/".to_owned();
    r.append(plot);
    r.append("/");
    r.append(arg);
    r.append("/");
    r.append(show_clientread);
    r.append("\">");
    r
}

/// The page of a graph that the plotter draws from its name alone.
pub fn handler_html(plot_1: &str) -> (r: String)
    ensures
        r@ == "<img src=\"/plotter/"@ + plot_1@ + "\">"@,
{
    let mut r = "<img src=\"/plotter/".to_owned();
    r.append(plot_1);
    r.append("\">");
    r
}

/// The page of one graph: its image, with `x` for the argument.
pub fn handler_1_html(plot_1: &str, show_clientread: &str) -> (r: String)
    ensures
        r@ == "<img src=\"/plotter/"@ + plot_1@ + "/"@ + "x"@ + "/"@ + show_clientread@ + "\">"@,
{
    plotter_image_tag(plot_1, "x", show_clientread)
}

/// The page of one graph with an argument.
pub fn handler_2_html(plot_1: &str, arg_1: &str, show_clientread: &str) -> (r: String)
    ensures
        r@ == "<img src=\"/plotter/"@ + plot_1@ + "/"@ + arg_1@ + "/"@ + show_clientread@ + "\">"@,
{
    plotter_image_tag(plot_1, arg_1, show_clientread)
}

/// Different request names give different graphs: no two names the plotter
/// knows draw the same graph.
pub proof fn lemma_plot_kind_injective(a: Seq<char>, b: Seq<char>)
    requires
        plot_kind_of(a) is Some,
        plot_kind_of(a) == plot_kind_of(b),
    ensures
        a == b,
{
}

/// Each name the plotter knows gives its own graph; `sh_<type>` gives the
/// graph of that wait event type.
pub proof fn lemma_plot_kind_names()
    ensures
        plot_kind_of("ash_wait_type"@) == Some(PlotKind::AshWaitType),
        plot_kind_of("ash_wait_event"@) == Some(PlotKind::AshWaitEvent),
        plot_kind_of("ash_wait_query"@) == Some(PlotKind::AshWaitQuery),
        plot_kind_of("wal_io_times"@) == Some(PlotKind::WalIoTimes),
        plot_kind_of("wal_size"@) == Some(PlotKind::WalSize),
        plot_kind_of("io_latency"@) == Some(PlotKind::IoLatency),
        plot_kind_of("io_bandwidth"@) == Some(PlotKind::IoBandwidth),
        plot_kind_of("iops"@) == Some(PlotKind::Iops),
        plot_kind_of("xid_age"@) == Some(PlotKind::XidAge),
        plot_kind_of("transactions"@) == Some(PlotKind::Transactions),
        plot_kind_of("tuples"@) == Some(PlotKind::Tuples),
        plot_kind_of("we_qid_q"@) == Some(PlotKind::WaitEventsQueryIdQuery),
        plot_kind_of("ash_wait_query_by_queryid"@) == Some(PlotKind::AshWaitQueryByQueryId),
        plot_kind_of("ash_wait_query_by_query"@) == Some(PlotKind::AshWaitQueryByQuery),
        plot_kind_of("sh"@) == Some(PlotKind::Sh),
        plot_kind_of("sh_activity"@) == Some(PlotKind::ShActivity),
        plot_kind_of("sh_bufferpin"@) == Some(PlotKind::ShBufferPin),
        plot_kind_of("sh_client"@) == Some(PlotKind::ShClient),
        plot_kind_of("sh_extension"@) == Some(PlotKind::ShExtension),
        plot_kind_of("sh_io"@) == Some(PlotKind::ShIo),
        plot_kind_of("sh_ipc"@) == Some(PlotKind::ShIpc),
        plot_kind_of("sh_lock"@) == Some(PlotKind::ShLock),
        plot_kind_of("sh_lwlock"@) == Some(PlotKind::ShLwLock),
        plot_kind_of("sh_timeout"@) == Some(PlotKind::ShTimeout),
{
    reveal_strlit("ash_wait_event");
    assert("ash_wait_event"@.len() == 14);
    reveal_strlit("ash_wait_query");
    assert("ash_wait_query"@.len() == 14);
    reveal_strlit("ash_wait_query_by_query");
    assert("ash_wait_query_by_query"@.len() == 23);
    reveal_strlit("ash_wait_query_by_queryid");
    assert("ash_wait_query_by_queryid"@.len() == 25);
    reveal_strlit("ash_wait_type");
    assert("ash_wait_type"@.len() == 13);
    reveal_strlit("io_bandwidth");
    assert("io_bandwidth"@.len() == 12);
    reveal_strlit("io_latency");
    assert("io_latency"@.len() == 10);
    reveal_strlit("iops");
    assert("iops"@.len() == 4);
    reveal_strlit("sh");
    assert("sh"@.len() == 2);
    reveal_strlit("sh_activity");
    assert("sh_activity"@.len() == 11);
    reveal_strlit("sh_bufferpin");
    assert("sh_bufferpin"@.len() == 12);
    reveal_strlit("sh_client");
    assert("sh_client"@.len() == 9);
    reveal_strlit("sh_extension");
    assert("sh_extension"@.len() == 12);
    reveal_strlit("sh_io");
    assert("sh_io"@.len() == 5);
    reveal_strlit("sh_ipc");
    assert("sh_ipc"@.len() == 6);
    reveal_strlit("sh_lock");
    assert("sh_lock"@.len() == 7);
    reveal_strlit("sh_lwlock");
    assert("sh_lwlock"@.len() == 9);
    reveal_strlit("sh_timeout");
    assert("sh_timeout"@.len() == 10);
    reveal_strlit("transactions");
    assert("transactions"@.len() == 12);
    reveal_strlit("tuples");
    assert("tuples"@.len() == 6);
    reveal_strlit("wal_io_times");
    assert("wal_io_times"@.len() == 12);
    reveal_strlit("wal_size");
    assert("wal_size"@.len() == 8);
    reveal_strlit("we_qid_q");
    assert("we_qid_q"@.len() == 8);
    reveal_strlit("xid_age");
    assert("xid_age"@.len() == 7);
    assert("ash_wait_event"@[9] != "ash_wait_query"@[9]);
    assert("io_bandwidth"@[0] != "sh_bufferpin"@[0]);
    assert("io_bandwidth"@[0] != "sh_extension"@[0]);
    assert("io_bandwidth"@[0] != "transactions"@[0]);
    assert("io_bandwidth"@[0] != "wal_io_times"@[0]);
    assert("io_latency"@[0] != "sh_timeout"@[0]);
    assert("sh_bufferpin"@[3] != "sh_extension"@[3]);
    assert("sh_bufferpin"@[0] != "transactions"@[0]);
    assert("sh_bufferpin"@[0] != "wal_io_times"@[0]);
    assert("sh_client"@[3] != "sh_lwlock"@[3]);
    assert("sh_extension"@[0] != "transactions"@[0]);
    assert("sh_extension"@[0] != "wal_io_times"@[0]);
    assert("sh_ipc"@[0] != "tuples"@[0]);
    assert("sh_lock"@[0] != "xid_age"@[0]);
    assert("transactions"@[0] != "wal_io_times"@[0]);
    assert("wal_size"@[1] != "we_qid_q"@[1]);
}

/// Different wait event types are drawn in different colours; only `on_cpu`
/// and `~on_cpu`, the same state under two names, share one.
pub proof fn lemma_wait_type_color_injective(a: Seq<char>, b: Seq<char>)
    requires
        wait_type_color_of(a) is Some,
        wait_type_color_of(a) == wait_type_color_of(b),
        a != b,
    ensures
        (a == "on_cpu"@ && b == "~on_cpu"@) || (a == "~on_cpu"@ && b == "on_cpu"@),
{
}

/// The colour of each wait event type.
pub proof fn lemma_wait_type_colors()
    ensures
        wait_type_color_of("activity"@) == Some(WaitTypeColor::Purple),
        wait_type_color_of("buffer_pin"@) == Some(WaitTypeColor::LightBlue300),
        wait_type_color_of("client"@) == Some(WaitTypeColor::Grey),
        wait_type_color_of("extension"@) == Some(WaitTypeColor::Green800),
        wait_type_color_of("timeout"@) == Some(WaitTypeColor::Brown),
        wait_type_color_of("ipc"@) == Some(WaitTypeColor::PinkA100),
        wait_type_color_of("lwlock"@) == Some(WaitTypeColor::Red900),
        wait_type_color_of("lock"@) == Some(WaitTypeColor::Red),
        wait_type_color_of("io"@) == Some(WaitTypeColor::Blue600),
        wait_type_color_of("on_cpu"@) == Some(WaitTypeColor::Green),
        wait_type_color_of("~on_cpu"@) == Some(WaitTypeColor::Green),
{
    reveal_strlit("activity");
    assert("activity"@.len() == 8);
    reveal_strlit("buffer_pin");
    assert("buffer_pin"@.len() == 10);
    reveal_strlit("client");
    assert("client"@.len() == 6);
    reveal_strlit("extension");
    assert("extension"@.len() == 9);
    reveal_strlit("io");
    assert("io"@.len() == 2);
    reveal_strlit("ipc");
    assert("ipc"@.len() == 3);
    reveal_strlit("lock");
    assert("lock"@.len() == 4);
    reveal_strlit("lwlock");
    assert("lwlock"@.len() == 6);
    reveal_strlit("on_cpu");
    assert("on_cpu"@.len() == 6);
    reveal_strlit("timeout");
    assert("timeout"@.len() == 7);
    reveal_strlit("~on_cpu");
    assert("~on_cpu"@.len() == 7);
    assert("client"@[0] != "lwlock"@[0]);
    assert("client"@[0] != "on_cpu"@[0]);
    assert("lwlock"@[0] != "on_cpu"@[0]);
    assert("timeout"@[0] != "~on_cpu"@[0]);
}

} // verus!
