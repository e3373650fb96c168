//! The knock-come handshake between a master and a slave task.
//!
//! The slave knocks when its local timer fires; the master answers with
//! `Come`; the slave then sends its data.  Between handshakes the master may
//! send spontaneous data at any time.  This crate holds the decisions of both
//! tasks as step functions over plain state, the counters they keep, the
//! timeout draws, and the laws that tie the two sides together.
pub mod config;
pub mod counters;
pub mod draw;
pub mod joint_runs;
pub mod laws;
pub mod legacy;
pub mod master;
pub mod master_runs;
pub mod protocol;
pub mod redraw;
pub mod redraw_runs;
pub mod runs;
pub mod slave;
pub mod slave_runs;
