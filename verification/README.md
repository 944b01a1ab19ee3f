# PAS: PostgreSQL Activity Statistics

PAS samples the activity of a (local) PostgreSQL cluster at a high rate,
keeps a history of the samples in memory, archives it to JSON files and shows
it as graphs on a small web page: the active session history by wait event
type, by wait event and by query, IO latency and bandwidth, WAL, transaction
rates and transaction id ages.

## Layout

- `src/` is the library, written in Verus and verified. It holds what PAS
  decides and computes from the samples:
  - `activity`: the sampled sessions, which of them are active, the name
    each is counted under, counting with filters, ordering by query age,
    leaving out sessions that wait for their client;
  - `wait_types`: the breakdowns of a sample by wait event type and, per
    type, by wait event; `breakdown_laws` proves that each breakdown counts
    every waiting session exactly once;
  - `ash`: the active session history behind the stacked area graphs;
  - `queries`: the breakdown of the active sessions by query id or query text;
  - `series`: statistics and stacked levels of graphed series;
  - `delta`: the steps of the table of cumulative counters;
  - `archive`: the archive schedule, the samples of a window, the list of
    files to read;
  - `web`, `links`: the requests the web page understands and the links it
    writes; `text`, `xid`, `config`: text order, transaction id ages, options.
- `app/` is the program around the library: the command line, the database
  queries, the floating point rates, the archive files, the web server and the
  drawing of the graphs.
- `tests/` runs the library on concrete samples.
