//! A fixed-size worker pool, modelled as a verified state machine.
//!
//! `queue` is the shared, closeable FIFO channel of tasks; `pool` tracks the
//! workers' lifecycle on top of it, each operation following a transition of
//! an abstract model; `guarantees` proves over that model what the pool
//! promises; `response` holds the per-connection rules of the small server
//! that feeds the pool. Threads, locks and sockets stay with the caller,
//! which drives these state machines.
pub mod queue;
pub mod pool;
pub mod guarantees;
pub mod response;

pub use queue::{QueueClosed, Received, WorkQueue};
pub use pool::{join_report, PoolError, PoolModel, StepKind, WorkerPool, WorkerState, WorkerStep};

