use vstd::prelude::*;

use crate::errors::{JobquError, JobquResult};
use crate::store::QueueItem;

verus! {

/// A unit of deferred work. Each implementing variant supplies an explicit,
/// stable string tag that identifies it across processes, and an
/// encode/decode pair for its wire payload. The payload format itself is the
/// implementer's collaborator (typically a serializer crate); this crate only
/// carries the payload and hands it back to the right variant.
///
/// Implementations outside this crate are not checked against the contracts
/// below: an implementer is obliged to meet them, and everything proved
/// through this trait holds only of implementations that do.
pub trait Job: Sized {
    /// The variant's stable tag. Tags are unique per variant: an item is
    /// only ever executed by the variant whose tag it carries. Left at the
    /// default, the tag is simply an unspecified sequence; a verified
    /// implementation overrides it with the literal its `job_type` returns.
    open spec fn tag() -> Seq<char> {
        vstd::pervasive::arbitrary()
    }

    /// The wire form of this job value. Left at the default, an unspecified
    /// function of the value; a verified implementation overrides it with
    /// its encoder's actual output.
    open spec fn encoded(&self) -> Seq<char> {
        vstd::pervasive::arbitrary()
    }

    /// The variant's stable tag, as stored in every queue item carrying it.
    fn job_type() -> (r: String)
        ensures
            r@ == Self::tag(),
    ;

    /// Encodes this job into its wire payload. Encoding is total: every
    /// value of a variant has a wire form, which is what lets a registered
    /// variant's round trip be promised unconditionally. Serialization
    /// failures therefore arise only on the decode side; an encoder that
    /// could fail must not be wrapped by an implementation of this method.
    fn serialize(&self) -> (r: String)
        ensures
            r@ == self.encoded(),
    ;

    /// Decodes a wire payload back into a job value. A payload that is the
    /// wire form of some job decodes to exactly that job; any other payload
    /// is rejected with the decoder's error.
    fn deserialize(payload: &str) -> (r: JobquResult<Self>)
        ensures
            r matches Ok(job) ==> payload@ == job.encoded(),
            forall|job: Self| payload@ == job.encoded()
                ==> r == JobquResult::<Self>::Ok(job),
            r matches Err(e) ==> e matches JobquError::SerdeError(_),
    ;
}

/// The table of job tags with an installed factory. Keys are unique; the
/// table is built once, before any worker starts, and read-only afterwards.
#[derive(Debug, Clone)]
pub struct JobRegistry {
    tags: Vec<String>,
}

impl JobRegistry {
    /// The registered tags, in registration order.
    pub closed spec fn tags_seq(&self) -> Seq<Seq<char>> {
        self.tags.deep_view()
    }

    /// Whether a factory is installed for `tag`.
    pub open spec fn spec_contains(&self, tag: Seq<char>) -> bool {
        self.tags_seq().contains(tag)
    }

    /// Each tag is registered at most once.
    pub open spec fn wf(&self) -> bool {
        forall|i: int, j: int|
            0 <= i < j < self.tags_seq().len()
                ==> self.tags_seq()[i] != self.tags_seq()[j]
    }

    pub fn new() -> (r: Self)
        ensures
            r.tags_seq() == Seq::<Seq<char>>::empty(),
            r.wf(),
    {
        let r = JobRegistry { tags: Vec::new() };
        proof {
            assert(r.tags_seq() =~= Seq::<Seq<char>>::empty());
        }
        r
    }

    fn contains_tag(&self, tag: &String) -> (r: bool)
        ensures
            r == self.spec_contains(tag@),
    {
        let mut i: usize = 0;
        while i < self.tags.len()
            invariant
                i <= self.tags.len(),
                self.tags_seq().len() == self.tags.len(),
                forall|j: int| 0 <= j < i ==> self.tags_seq()[j] != tag@,
            decreases self.tags.len() - i,
        {
            if self.tags[i] == *tag {
                proof {
                    assert(self.tags_seq()[i as int] == tag@);
                }
                return true;
            }
            i = i + 1;
        }
        false
    }

    /// Whether a factory is installed for `tag`.
    pub fn contains(&self, tag: &str) -> (r: bool)
        ensures
            r == self.spec_contains(tag@),
    {
        let owned = tag.to_owned();
        self.contains_tag(&owned)
    }

    /// Installs a factory under `tag`, and says whether the tag was new.
    /// Registering a tag again leaves the table unchanged: the embedder
    /// replaces that variant's factory (last writer wins), it is never
    /// installed twice.
    pub fn register(&mut self, tag: &str) -> (fresh: bool)
        requires
            old(self).wf(),
        ensures
            final(self).wf(),
            fresh == !old(self).spec_contains(tag@),
            fresh ==> final(self).tags_seq() == old(self).tags_seq().push(tag@),
            !fresh ==> *final(self) == *old(self),
            final(self).spec_contains(tag@),
    {
        let owned = tag.to_owned();
        if self.contains_tag(&owned) {
            return false;
        }
        self.tags.push(owned);
        proof {
            assert(self.tags_seq() =~= old(self).tags_seq().push(tag@));
            assert(self.tags_seq()[old(self).tags_seq().len() as int] == tag@);
        }
        true
    }

    /// Reconstructs a concrete job from a dequeued item: looks the item's
    /// tag up in the table, then hands the payload to the variant's decoder.
    /// Two distinct cases are refused as not registered, and the contract
    /// below keeps them apart:
    ///
    /// - the item's tag has no installed factory at all (the queue carries a
    ///   type nobody registered); or
    /// - the tag is installed, but this call dispatched to a different
    ///   variant than the one the tag names — a caller's mistake that the
    ///   pool's own dispatch never makes, since it picks the variant by the
    ///   item's tag.
    ///
    /// When the variant is the tag's own, a refusal means exactly that no
    /// factory is installed; otherwise the decoder decides, and a payload it
    /// rejects fails with the decoder's error. Either way the item is
    /// already out of the store and will not be offered again.
    pub fn create<J: Job>(&self, item: &QueueItem) -> (r: JobquResult<J>)
        ensures
            !self.spec_contains(item.job_type@)
                ==> (r matches Err(JobquError::JobNotRegistered { job_type })
                    && job_type@ == item.job_type@),
            self.spec_contains(item.job_type@) && item.job_type@ != J::tag()
                ==> (r matches Err(JobquError::JobNotRegistered { job_type })
                    && job_type@ == item.job_type@),
            item.job_type@ == J::tag()
                ==> ((r matches Err(JobquError::JobNotRegistered { .. }))
                    <==> !self.spec_contains(item.job_type@)),
            self.spec_contains(item.job_type@) && item.job_type@ == J::tag() ==> {
                &&& (r matches Ok(job) ==> item.payload@ == job.encoded())
                &&& (forall|job: J| item.payload@ == job.encoded()
                    ==> r == JobquResult::<J>::Ok(job))
                &&& (r matches Err(e) ==> e matches JobquError::SerdeError(_))
            },
    {
        if !self.contains_tag(&item.job_type) {
            return Err(JobquError::JobNotRegistered { job_type: item.job_type.clone() });
        }
        let expected = J::job_type();
        if !(item.job_type == expected) {
            return Err(JobquError::JobNotRegistered { job_type: item.job_type.clone() });
        }
        J::deserialize(item.payload.as_str())
    }

    /// Round-trip: for every registered variant, creating a job from the
    /// variant's tag and the job's serialized payload reconstructs a value
    /// equal to the job itself.
    pub fn create_serialized<J: Job>(&self, job: &J) -> (r: JobquResult<J>)
        requires
            self.spec_contains(J::tag()),
        ensures
            r == JobquResult::<J>::Ok(*job),
    {
        let item = QueueItem {
            id: 0,
            job_type: J::job_type(),
            payload: job.serialize(),
            created_at: 0,
        };
        self.create::<J>(&item)
    }
}

} // verus!
