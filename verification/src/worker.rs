use vstd::prelude::*;

use crate::errors::{JobquError, JobquResult};
use crate::job::{Job, JobRegistry};
use crate::store::JobStore;

verus! {

/// The state of one polling loop. A loop rests in `Sleeping`, wakes to
/// `Polling`, and from there either finds nothing (`Idle`, then back to
/// sleep) or runs the dequeued item's handler (`Dispatching`). `Stopped` is
/// terminal. `Idle` stands between an empty poll and the next wake, so on a
/// wake it behaves exactly as `Sleeping` does.
#[derive(Clone, Copy, Debug, PartialEq, Eq, Structural)]
pub enum LoopState {
    Sleeping,
    Polling,
    Idle,
    Dispatching,
    Stopped,
}

/// What a polling loop observes while it runs.
#[derive(Clone, Copy, Debug, PartialEq, Eq, Structural)]
pub enum LoopEvent {
    /// The interval sleep ended or the shutdown signal arrived; `shutdown`
    /// says whether the shared shutdown flag was up by then.
    Wake { shutdown: bool },
    /// The dequeue call returned no item.
    PollEmpty,
    /// The dequeue call returned an item.
    PollItem,
    /// The dequeue call failed.
    PollFailed,
    /// The dispatched item's job was reconstructed and its handler finished.
    HandleOk,
    /// The dispatched item's reconstruction or handler failed. The item is
    /// already out of the store and is lost either way.
    HandleFailed,
}

/// What a loop's runner must do next.
#[derive(Clone, Copy, Debug, PartialEq, Eq, Structural)]
pub enum LoopAction {
    /// Call dequeue on the shared store.
    Dequeue,
    /// Reconstruct and run the job of the item just dequeued.
    Dispatch,
    /// Wait one polling interval, or until shutdown, whichever comes first.
    Rest,
    /// Leave the loop and report it finished.
    Exit,
}

/// One transition of a polling loop. Shutdown is tested once per wake and
/// nowhere else, so a loop that is mid-dispatch always finishes its handler
/// first. `abort_on_error` is the opt-in crash policy: when it is off (the
/// default), a failed poll or dispatch is logged by the runner and the loop
/// sleeps again; when it is on, the failure stops the loop. An event that
/// cannot arise in a state leaves the state alone.
pub open spec fn step_spec(
    state: LoopState,
    event: LoopEvent,
    abort_on_error: bool,
) -> (LoopState, LoopAction) {
    match (state, event) {
        (LoopState::Sleeping, LoopEvent::Wake { shutdown }) => if shutdown {
            (LoopState::Stopped, LoopAction::Exit)
        } else {
            (LoopState::Polling, LoopAction::Dequeue)
        },
        (LoopState::Idle, LoopEvent::Wake { shutdown }) => if shutdown {
            (LoopState::Stopped, LoopAction::Exit)
        } else {
            (LoopState::Polling, LoopAction::Dequeue)
        },
        (LoopState::Polling, LoopEvent::PollEmpty) => (LoopState::Idle, LoopAction::Rest),
        (LoopState::Polling, LoopEvent::PollItem) => (LoopState::Dispatching, LoopAction::Dispatch),
        (LoopState::Polling, LoopEvent::PollFailed) => if abort_on_error {
            (LoopState::Stopped, LoopAction::Exit)
        } else {
            (LoopState::Idle, LoopAction::Rest)
        },
        (LoopState::Dispatching, LoopEvent::HandleOk) => (LoopState::Sleeping, LoopAction::Rest),
        (LoopState::Dispatching, LoopEvent::HandleFailed) => if abort_on_error {
            (LoopState::Stopped, LoopAction::Exit)
        } else {
            (LoopState::Sleeping, LoopAction::Rest)
        },
        (LoopState::Stopped, _) => (LoopState::Stopped, LoopAction::Exit),
        (s, _) => (s, LoopAction::Rest),
    }
}

/// Advances one polling loop by one observed event. The runner performs the
/// returned action and feeds its outcome back as the next event.
pub fn worker_step(state: LoopState, event: LoopEvent, abort_on_error: bool) -> (r: (
    LoopState,
    LoopAction,
))
    ensures
        r == step_spec(state, event, abort_on_error),
{
    match (state, event) {
        (LoopState::Sleeping, LoopEvent::Wake { shutdown }) => if shutdown {
            (LoopState::Stopped, LoopAction::Exit)
        } else {
            (LoopState::Polling, LoopAction::Dequeue)
        },
        (LoopState::Idle, LoopEvent::Wake { shutdown }) => if shutdown {
            (LoopState::Stopped, LoopAction::Exit)
        } else {
            (LoopState::Polling, LoopAction::Dequeue)
        },
        (LoopState::Polling, LoopEvent::PollEmpty) => (LoopState::Idle, LoopAction::Rest),
        (LoopState::Polling, LoopEvent::PollItem) => (LoopState::Dispatching, LoopAction::Dispatch),
        (LoopState::Polling, LoopEvent::PollFailed) => if abort_on_error {
            (LoopState::Stopped, LoopAction::Exit)
        } else {
            (LoopState::Idle, LoopAction::Rest)
        },
        (LoopState::Dispatching, LoopEvent::HandleOk) => (LoopState::Sleeping, LoopAction::Rest),
        (LoopState::Dispatching, LoopEvent::HandleFailed) => if abort_on_error {
            (LoopState::Stopped, LoopAction::Exit)
        } else {
            (LoopState::Sleeping, LoopAction::Rest)
        },
        (LoopState::Stopped, _) => (LoopState::Stopped, LoopAction::Exit),
        (s, _) => (s, LoopAction::Rest),
    }
}

/// Graceful shutdown: a loop that wakes with the shutdown flag up stops at
/// once, and no transition made on such a wake starts a dequeue. A stopped
/// loop stays stopped and only ever exits, so the pool's runner, which waits
/// for every loop to exit, returns only after each loop has finished the
/// cycle it was in.
pub proof fn lemma_shutdown_stops_polling(state: LoopState, event: LoopEvent, abort_on_error: bool)
    ensures
        event == (LoopEvent::Wake { shutdown: true })
            ==> step_spec(state, event, abort_on_error).1 != LoopAction::Dequeue,
        event == (LoopEvent::Wake { shutdown: true }) && (state == LoopState::Sleeping
            || state == LoopState::Idle)
            ==> step_spec(state, event, abort_on_error).0 == LoopState::Stopped,
        state == LoopState::Stopped ==> step_spec(state, event, abort_on_error)
            == (LoopState::Stopped, LoopAction::Exit),
{
}

/// One worker: a handle on the shared store and the shared, frozen registry.
#[derive(Debug)]
pub struct Worker<S: JobStore> {
    pub store: S,
    pub registry: JobRegistry,
}

impl<S: JobStore> Worker<S> {
    pub fn builder() -> (r: WorkerBuilder) {
        WorkerBuilder::new()
    }

    /// One poll of the shared store, dispatching to the variant `J`: removes
    /// the earliest pending item, if any, and reconstructs its job through
    /// the registry. The item leaves the store before its job ever runs, so
    /// a failure after the dequeue (an unregistered tag, a payload that does
    /// not decode) has already lost the item: delivery is at most once.
    pub fn process<J: Job>(&mut self) -> (r: JobquResult<Option<J>>)
        ensures
            final(self).registry == old(self).registry,
            r matches Ok(None) ==> old(self).store.contents().len() == 0
                && final(self).store.contents() == old(self).store.contents(),
            r matches Ok(Some(job)) ==> old(self).store.contents().len() > 0
                && final(self).store.contents() == old(self).store.contents().drop_first()
                && old(self).store.contents().first().payload == job.encoded()
                && old(self).store.contents().first().job_type == J::tag()
                && old(self).registry.spec_contains(J::tag()),
            r matches Err(e) && e.is_backend() ==> final(self).store.contents() == old(
                self,
            ).store.contents(),
            r matches Err(e) && !e.is_backend() ==> old(self).store.contents().len() > 0
                && final(self).store.contents() == old(self).store.contents().drop_first(),
            r matches Err(JobquError::JobNotRegistered { job_type })
                ==> job_type@ == old(self).store.contents().first().job_type
                && (!old(self).registry.spec_contains(job_type@) || job_type@ != J::tag()),
            r matches Err(JobquError::SerdeError(_))
                ==> old(self).store.contents().first().job_type == J::tag()
                && old(self).registry.spec_contains(J::tag())
                && (forall|job: J| old(self).store.contents().first().payload != job.encoded()),
    {
        let item = match self.store.dequeue() {
            Ok(Some(item)) => item,
            Ok(None) => {
                return Ok(None);
            },
            Err(e) => {
                return Err(e);
            },
        };
        match self.registry.create::<J>(&item) {
            Ok(job) => Ok(Some(job)),
            Err(e) => Err(e),
        }
    }
}

/// Configuration for a pool of polling loops: how many loops, how long each
/// rests between polls, which job variants are registered, and whether a
/// failure stops the affected loop. Built before the pool starts; the
/// registry is frozen from then on.
#[derive(Debug)]
pub struct WorkerBuilder {
    pub worker_count: u64,
    pub polling_interval: u64,
    pub registry: JobRegistry,
    pub abort_on_error: bool,
}

impl WorkerBuilder {
    /// One loop, polling once a second, no variants registered, failures
    /// logged rather than fatal.
    pub fn new() -> (r: Self)
        ensures
            r.worker_count == 1,
            r.polling_interval == 1000,
            r.registry.tags_seq() == Seq::<Seq<char>>::empty(),
            r.registry.wf(),
            r.abort_on_error == false,
    {
        WorkerBuilder {
            worker_count: 1,
            polling_interval: 1000,
            registry: JobRegistry::new(),
            abort_on_error: false,
        }
    }

    /// The number of independent polling loops the pool runs.
    pub fn worker_count(self, worker_count: u64) -> (r: Self)
        ensures
            r.worker_count == worker_count,
            r.polling_interval == self.polling_interval,
            r.registry == self.registry,
            r.abort_on_error == self.abort_on_error,
    {
        WorkerBuilder {
            worker_count,
            polling_interval: self.polling_interval,
            registry: self.registry,
            abort_on_error: self.abort_on_error,
        }
    }

    /// The fixed delay, in milliseconds, between poll attempts of one loop.
    pub fn polling_interval(self, polling_interval: u64) -> (r: Self)
        ensures
            r.polling_interval == polling_interval,
            r.worker_count == self.worker_count,
            r.registry == self.registry,
            r.abort_on_error == self.abort_on_error,
    {
        WorkerBuilder {
            worker_count: self.worker_count,
            polling_interval,
            registry: self.registry,
            abort_on_error: self.abort_on_error,
        }
    }

    /// Opts into crash-on-failure: a loop whose poll or dispatch fails then
    /// stops instead of sleeping. Off by default: the failed item is already
    /// gone from the store, and stopping the loop would not bring it back.
    pub fn abort_on_error(self, abort_on_error: bool) -> (r: Self)
        ensures
            r.abort_on_error == abort_on_error,
            r.worker_count == self.worker_count,
            r.polling_interval == self.polling_interval,
            r.registry == self.registry,
    {
        WorkerBuilder {
            worker_count: self.worker_count,
            polling_interval: self.polling_interval,
            registry: self.registry,
            abort_on_error,
        }
    }

    /// Registers the job variant `J` under its stable tag.
    pub fn register<J: Job>(self) -> (r: Self)
        requires
            self.registry.wf(),
        ensures
            r.registry.wf(),
            r.registry.spec_contains(J::tag()),
            !self.registry.spec_contains(J::tag()) ==> r.registry.tags_seq()
                == self.registry.tags_seq().push(J::tag()),
            self.registry.spec_contains(J::tag()) ==> r.registry == self.registry,
            r.worker_count == self.worker_count,
            r.polling_interval == self.polling_interval,
            r.abort_on_error == self.abort_on_error,
    {
        let mut with_tag = self;
        let tag = J::job_type();
        let _fresh = with_tag.registry.register(tag.as_str());
        with_tag
    }
}

} // verus!
