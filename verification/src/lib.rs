//! A minimal background job queue.
//!
//! Producers serialize typed jobs and append them to a [`JobStore`]; worker
//! loops poll the shared store, reconstruct concrete jobs through a
//! [`JobRegistry`], and run their handlers. The store hands every pending item
//! out exactly once, in arrival order.

mod client;
mod errors;
mod job;
mod store;
mod store_memory;
mod store_sqlite;
mod worker;

pub use crate::client::{Client, ClientBuilder};
pub use crate::errors::{JobquError, JobquResult};
pub use crate::job::{Job, JobRegistry};
pub use crate::store::{
    lemma_fifo_order, lemma_single_delivery, ItemModel, JobStore, QueueItem,
};
pub use crate::store_memory::{MemoryStore, MemoryStoreBuilder};
pub use crate::store_sqlite::{dequeue_plan, item_from_row, SqliteStoreBuilder};
pub use crate::worker::{
    lemma_shutdown_stops_polling, step_spec, worker_step, LoopAction, LoopEvent, LoopState,
    Worker, WorkerBuilder,
};
