use std::collections::VecDeque;
use vstd::prelude::*;

use crate::errors::JobquResult;
use crate::store::{ItemModel, JobStore, QueueItem};

verus! {

/// The models of a sequence of queue items, in the same order.
pub open spec fn models_of(items: Seq<QueueItem>) -> Seq<ItemModel> {
    items.map_values(|item: QueueItem| item@)
}

/// Relies on chrono's `From<SystemTime>` conversion into `DateTime<Utc>` and
/// on `DateTime::timestamp` for the store's arrival clock. This route
/// returns on every clock reading — before the Unix epoch it yields a
/// negative count instead of panicking. Nothing is promised of the value;
/// callers hold for every reading.
#[verifier::external_body]
fn now_unix_seconds() -> i64 {
    chrono::DateTime::<chrono::Utc>::from(std::time::SystemTime::now()).timestamp()
}

/// The in-process, non-durable store: an ordered double-ended sequence.
/// Enqueue appends at the back, dequeue pops the front; items live only as
/// long as the process. Shared use requires one exclusive lock around the
/// whole store, taken by the caller, so that every call sees and leaves a
/// single pending sequence.
#[derive(Debug)]
pub struct MemoryStore {
    queue: VecDeque<QueueItem>,
    next_id: u64,
}

impl MemoryStore {
    pub fn builder() -> (r: MemoryStoreBuilder) {
        MemoryStoreBuilder::new()
    }

    /// The id the store will assign to the next enqueued item. Ids start at
    /// 1 — an item carrying 0 was never persisted — and count up, staying
    /// put only at the very top of `u64`.
    pub closed spec fn spec_next_id(&self) -> u64 {
        self.next_id
    }
}

impl JobStore for MemoryStore {
    closed spec fn contents(&self) -> Seq<ItemModel> {
        models_of(self.queue@)
    }

    /// This backend never refuses an enqueue, and it assigns the new item's
    /// id from its own counter.
    fn enqueue(&mut self, job_type: &str, payload: &str) -> (r: JobquResult<()>)
        ensures
            r is Ok,
            final(self).contents().last().id == old(self).spec_next_id(),
            old(self).spec_next_id() < u64::MAX ==> final(self).spec_next_id()
                == old(self).spec_next_id() + 1,
    {
        let reading = now_unix_seconds();
        let created_at: u64 = if reading < 0 {
            0
        } else {
            reading as u64
        };
        let id = self.next_id;
        if self.next_id < u64::MAX {
            self.next_id = self.next_id + 1;
        }
        let item = QueueItem {
            id,
            job_type: job_type.to_owned(),
            payload: payload.to_owned(),
            created_at,
        };
        let ghost model = item@;
        self.queue.push_back(item);
        proof {
            assert(self.contents() =~= models_of(old(self).queue@).push(model));
            assert(self.contents().take(old(self).contents().len() as int)
                =~= old(self).contents());
        }
        Ok(())
    }

    /// This backend never refuses a dequeue: together with the trait's
    /// clauses, a non-empty store always yields its earliest item and an
    /// empty one always yields nothing.
    fn dequeue(&mut self) -> (r: JobquResult<Option<QueueItem>>)
        ensures
            r is Ok,
    {
        let front = self.queue.pop_front();
        proof {
            if old(self).queue@.len() > 0 {
                assert(self.contents() =~= old(self).contents().drop_first());
            }
        }
        Ok(front)
    }
}

/// Builds [`MemoryStore`] values.
pub struct MemoryStoreBuilder {}

impl MemoryStoreBuilder {
    pub fn new() -> (r: Self) {
        MemoryStoreBuilder {}
    }

    /// Builds an empty in-process store; the first item it takes gets id 1.
    pub fn build(self) -> (r: MemoryStore)
        ensures
            r.contents() == Seq::<ItemModel>::empty(),
            r.spec_next_id() == 1,
    {
        let store = MemoryStore { queue: VecDeque::new(), next_id: 1 };
        proof {
            assert(store.contents() =~= Seq::<ItemModel>::empty());
        }
        store
    }
}

} // verus!
