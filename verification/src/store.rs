use vstd::prelude::*;

use crate::errors::JobquResult;

verus! {

/// One persisted unit of work: a job's type tag and serialized payload,
/// together with the id and arrival time the store assigned. Immutable once
/// created.
#[derive(Debug, Clone)]
pub struct QueueItem {
    pub id: u64,
    pub job_type: String,
    pub payload: String,
    pub created_at: u64,
}

/// The mathematical value of a [`QueueItem`]: the same fields, with the
/// strings taken as character sequences.
pub struct ItemModel {
    pub id: u64,
    pub job_type: Seq<char>,
    pub payload: Seq<char>,
    pub created_at: u64,
}

impl View for QueueItem {
    type V = ItemModel;

    open spec fn view(&self) -> ItemModel {
        ItemModel {
            id: self.id,
            job_type: self.job_type@,
            payload: self.payload@,
            created_at: self.created_at,
        }
    }
}

/// An ordered holder of pending queue items, offering enqueue and dequeue
/// only. `contents` is the pending sequence, earliest arrival first. All
/// calls against one store instance are serialized (each backend holds one
/// exclusive lock around every call), so the contract below speaks of the
/// store as a single evolving sequence; that serialization is the only
/// mechanism preventing duplicate delivery.
pub trait JobStore: Sized {
    /// The pending items, earliest first.
    spec fn contents(&self) -> Seq<ItemModel>;

    /// Persists a new item carrying `job_type` and `payload` at the back of
    /// the pending sequence; the store assigns the item's id and arrival
    /// time.
    fn enqueue(&mut self, job_type: &str, payload: &str) -> (r: JobquResult<()>)
        ensures
            r is Ok ==> final(self).contents().len() == old(self).contents().len() + 1
                && final(self).contents().take(old(self).contents().len() as int)
                    == old(self).contents()
                && final(self).contents().last().job_type == job_type@
                && final(self).contents().last().payload == payload@,
            r matches Err(e) ==> e.is_backend() && final(self).contents() == old(
                self,
            ).contents(),
    ;

    /// Removes and returns the earliest pending item, or returns nothing if
    /// the store is empty. The returned item leaves the store in the same
    /// call, before any caller runs it: delivery is at most once.
    fn dequeue(&mut self) -> (r: JobquResult<Option<QueueItem>>)
        ensures
            old(self).contents().len() == 0 ==> r is Ok,
            r matches Ok(Some(item)) ==> old(self).contents().len() > 0
                && item@ == old(self).contents().first()
                && final(self).contents() == old(self).contents().drop_first(),
            r matches Ok(None) ==> old(self).contents().len() == 0
                && final(self).contents() == old(self).contents(),
            r matches Err(e) ==> e.is_backend() && final(self).contents() == old(
                self,
            ).contents(),
    ;
}

/// First in, first out: enqueuing `a` and then `b` onto an empty store
/// produces the pending sequence from which the first dequeue yields `a`,
/// the next yields `b`, and the store is then empty.
pub proof fn lemma_fifo_order(a: ItemModel, b: ItemModel)
    ensures
        Seq::<ItemModel>::empty().push(a).push(b).first() == a,
        Seq::<ItemModel>::empty().push(a).push(b).drop_first().first() == b,
        Seq::<ItemModel>::empty().push(a).push(b).drop_first().drop_first().len() == 0,
{
    let q = Seq::<ItemModel>::empty().push(a).push(b);
    assert(q.first() == a);
    assert(q.drop_first() =~= seq![b]);
    assert(q.drop_first().drop_first() =~= Seq::<ItemModel>::empty());
}

/// Single delivery: because every dequeue against one store is serialized
/// into a single total order, the call that finds `k` items already taken
/// from a pending sequence `s` returns exactly `s[k]` and leaves exactly the
/// items after it. Across a whole run, each pending item is therefore
/// returned by exactly one dequeue call: none twice, none never.
pub proof fn lemma_single_delivery(s: Seq<ItemModel>, k: int)
    requires
        0 <= k < s.len(),
    ensures
        s.skip(k).first() == s[k],
        s.skip(k).drop_first() == s.skip(k + 1),
{
    assert(s.skip(k).drop_first() =~= s.skip(k + 1));
}

} // verus!
