# knock_come

The knock-come handshake between a master and a slave task, verified with
Verus.  The slave knocks when its local timer fires; the master answers with
`Come`; the slave sends its data.  The master also sends spontaneous data at
any time.  Both data streams are checked to advance by one per message.

- `src/` is the verified library: the state of each task and its step on
  every event (`master.rs`, `slave.rs`), the handshake states and their
  allowed transitions (`protocol.rs`), the periodic counters and reports
  (`counters.rs`), the timeout draws (`draw.rs`), the configuration
  (`config.rs`), the laws that tie master and slave together (`laws.rs`), and
  the counting of the redraw and first-design variants (`redraw.rs`,
  `legacy.rs`).  Whole-run laws are stated over runs of step events
  (`runs.rs`): the slave's knock, `Come` and data alternate and its k-th data
  is k (`slave_runs.rs`); the master answers each knock with one `Come` and
  the data, and its k-th spontaneous value is k (`master_runs.rs`); the
  redraw tasks send their event counts and draw timeouts fixed by their seed
  (`redraw_runs.rs`); and along every joint run of master and slave the two
  data streams stay in step, so no sequence check fires (`joint_runs.rs`).
- `app/` runs the tasks on Tokio with flume channels, owns the timers and the
  printing, and stops a task on a fault as the program's checks do.  The
  argument `redraw` or `legacy` runs the other two variants.
- `tests/` exercises the library on concrete values.
