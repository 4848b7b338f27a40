use vstd::prelude::*;

use crate::errors::JobquResult;
use crate::job::Job;
use crate::store::{ItemModel, JobStore};

verus! {

/// A producer's handle: serializes jobs and appends them to one store.
#[derive(Debug)]
pub struct Client<S: JobStore> {
    store: S,
}

impl<S: JobStore> Client<S> {
    /// The pending items of the connected store, earliest first.
    pub closed spec fn contents(&self) -> Seq<ItemModel> {
        self.store.contents()
    }

    fn new(store: S) -> (r: Self)
        ensures
            r.contents() == store.contents(),
    {
        Client { store }
    }

    pub fn builder() -> (r: ClientBuilder) {
        ClientBuilder::new()
    }

    /// Gives the connected store back, with everything enqueued so far.
    pub fn into_store(self) -> (r: S)
        ensures
            r.contents() == self.contents(),
    {
        self.store
    }

    /// Resolves the job's tag, encodes its payload, and appends both to the
    /// store, which assigns the new item's id and arrival time. Returns the
    /// store's result unchanged: durability is whatever the connected store
    /// gives (in-process items die with the process, durable ones survive
    /// it).
    pub fn enqueue<J: Job>(&mut self, job: &J) -> (r: JobquResult<()>)
        ensures
            r is Ok ==> final(self).contents().len() == old(self).contents().len() + 1
                && final(self).contents().take(old(self).contents().len() as int)
                    == old(self).contents()
                && final(self).contents().last().job_type == J::tag()
                && final(self).contents().last().payload == job.encoded(),
            r matches Err(e) ==> e.is_backend() && final(self).contents() == old(
                self,
            ).contents(),
    {
        let job_type = J::job_type();
        let payload = job.serialize();
        self.store.enqueue(job_type.as_str(), payload.as_str())
    }
}

/// Builds [`Client`] values.
pub struct ClientBuilder {}

impl ClientBuilder {
    pub fn new() -> (r: Self) {
        ClientBuilder {}
    }

    /// Connects a client to the store it will enqueue into.
    pub fn connect<S: JobStore>(&self, store: S) -> (r: Client<S>)
        ensures
            r.contents() == store.contents(),
    {
        Client::new(store)
    }
}

} // verus!
