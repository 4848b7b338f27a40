use vstd::prelude::*;

use crate::store::QueueItem;

verus! {

/// Configuration for the durable, single-file store: where the backing file
/// lives and how large the backend's connection pool may grow. Connecting —
/// parsing the URL, creating the file if missing, bootstrapping the schema —
/// is the backend crate's work and runs outside this crate; the pool it
/// yields is then held behind one exclusive lock, so every store call is a
/// single serialized access, which is what makes dequeue unique. The pool's
/// own concurrency is deliberately given up for that guarantee.
#[derive(Debug)]
pub struct SqliteStoreBuilder {
    pub url: String,
    pub min_connections: u32,
    pub max_connections: u32,
}

impl SqliteStoreBuilder {
    pub fn new() -> (r: Self)
        ensures
            r.url@ == Seq::<char>::empty(),
            r.min_connections == 0,
            r.max_connections == 10,
    {
        SqliteStoreBuilder { url: String::new(), min_connections: 0, max_connections: 10 }
    }

    /// The connection URL naming the backing file.
    pub fn url(self, url: &str) -> (r: Self)
        ensures
            r.url@ == url@,
            r.min_connections == self.min_connections,
            r.max_connections == self.max_connections,
    {
        SqliteStoreBuilder {
            url: url.to_owned(),
            min_connections: self.min_connections,
            max_connections: self.max_connections,
        }
    }

    pub fn min_connections(self, min_connections: u32) -> (r: Self)
        ensures
            r.min_connections == min_connections,
            r.url == self.url,
            r.max_connections == self.max_connections,
    {
        SqliteStoreBuilder {
            url: self.url,
            min_connections,
            max_connections: self.max_connections,
        }
    }

    pub fn max_connections(self, max_connections: u32) -> (r: Self)
        ensures
            r.max_connections == max_connections,
            r.url == self.url,
            r.min_connections == self.min_connections,
    {
        SqliteStoreBuilder {
            url: self.url,
            min_connections: self.min_connections,
            max_connections,
        }
    }
}

/// Builds a queue item from the plain column values of one fetched row of
/// the jobs table. The table stores signed integers; a well-formed row
/// carries non-negative ones, and those convert exactly. A negative id or
/// time (never written by this crate) is truncated bit-for-bit.
pub fn item_from_row(id: i64, job_type: String, payload: String, created_at: i64) -> (r:
    QueueItem)
    ensures
        r.job_type@ == job_type@,
        r.payload@ == payload@,
        0 <= id ==> r.id == id,
        0 <= created_at ==> r.created_at == created_at,
{
    QueueItem {
        id: #[verifier::truncate] (id as u64),
        job_type,
        payload,
        created_at: #[verifier::truncate] (created_at as u64),
    }
}

/// The durable backend's dequeue decision. Its runner fetched the oldest
/// pending row, or none; this says which row to delete and what to hand
/// back: exactly the fetched row, deleted by its id. Fetch and delete run
/// under the store's one exclusive lock, so together they remove the item
/// from the pending set within the same dequeue call.
pub fn dequeue_plan(fetched: Option<QueueItem>) -> (r: (Option<u64>, Option<QueueItem>))
    ensures
        fetched matches Some(item) ==> r.0 == Some(item.id) && r.1 == Some(item),
        fetched is None ==> r.0 is None && r.1 is None,
{
    match fetched {
        Some(item) => {
            let id = item.id;
            (Some(id), Some(item))
        },
        None => (None, None),
    }
}

} // verus!
