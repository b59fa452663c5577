//! The decisions behind the asynchronous API: the registry that hands out
//! flow identifiers and matches delivered completions to waiting tasks,
//! the states of an operation's future, and what a completion resolves
//! the future to, and the step that drives an operation's future on each
//! poll. Parking and waking tasks is left to the async runtime that the
//! embedding program uses: a task registered here is one whose waker the
//! program keeps.
use crate::backend::Backend;
use crate::context::{single_submit_result, Torus};
use crate::error::Error;
use crate::flow::Flow;
use crate::operation::Operation;
use crate::result::{wrapping_neg_i64, TorusResult};
use std::collections::HashMap;
use std::collections::HashSet;
use vstd::prelude::*;

verus! {

broadcast use vstd::std_specs::hash::group_hash_axioms;

/// Maps flow identifiers to the tasks waiting for them and to the
/// completions delivered for them. Identifiers are handed out in
/// increasing order from 1.
pub struct WakerRegistry {
    waiting: HashSet<u64>,
    results: HashMap<u64, TorusResult>,
    next_id: u64,
}

impl WakerRegistry {
    /// The identifiers with a registered task.
    pub closed spec fn waiters(&self) -> Set<u64> {
        self.waiting@
    }

    /// The delivered completions not yet taken.
    pub closed spec fn delivered(&self) -> Map<u64, TorusResult> {
        self.results@
    }

    /// The next identifier to hand out.
    pub closed spec fn upcoming(&self) -> u64 {
        self.next_id
    }

    /// An empty registry whose first identifier is 1.
    pub fn new() -> (r: Self)
        ensures
            r.waiters() == Set::<u64>::empty(),
            r.delivered() == Map::<u64, TorusResult>::empty(),
            r.upcoming() == 1,
    {
        WakerRegistry { waiting: HashSet::new(), results: HashMap::new(), next_id: 1 }
    }

    /// Allocate a unique identifier for a new flow.
    pub fn alloc_id(&mut self) -> (id: u64)
        ensures
            id == old(self).upcoming(),
            final(self).upcoming() == old(self).upcoming().wrapping_add(1),
            final(self).waiters() == old(self).waiters(),
            final(self).delivered() == old(self).delivered(),
    {
        let id = self.next_id;
        self.next_id = self.next_id.wrapping_add(1);
        id
    }

    /// Register a task waiting for `user_data`.
    pub fn register(&mut self, user_data: u64)
        ensures
            final(self).waiters() == old(self).waiters().insert(user_data),
            final(self).delivered() == old(self).delivered(),
            final(self).upcoming() == old(self).upcoming(),
    {
        self.waiting.insert(user_data);
    }

    /// Store a delivered completion; returns whether a task was waiting for
    /// it (that task is to be woken, and no longer waits).
    pub fn complete(&mut self, result: TorusResult) -> (woke: bool)
        ensures
            woke == old(self).waiters().contains(result.user_data),
            final(self).delivered() == old(self).delivered().insert(result.user_data, result),
            final(self).waiters() == old(self).waiters().remove(result.user_data),
            final(self).upcoming() == old(self).upcoming(),
    {
        let user_data = result.user_data;
        self.results.insert(user_data, result);
        self.waiting.remove(&user_data)
    }

    /// Take the delivered completion for `user_data`, if it has arrived.
    pub fn take_result(&mut self, user_data: u64) -> (r: Option<TorusResult>)
        ensures
            old(self).delivered().contains_key(user_data) ==> r == Some(
                old(self).delivered()[user_data],
            ),
            !old(self).delivered().contains_key(user_data) ==> r is None,
            final(self).delivered() == old(self).delivered().remove(user_data),
            final(self).waiters() == old(self).waiters(),
            final(self).upcoming() == old(self).upcoming(),
    {
        self.results.remove(&user_data)
    }

    /// Forget `user_data`: its waiting task and any delivered completion.
    pub fn unregister(&mut self, user_data: u64)
        ensures
            final(self).waiters() == old(self).waiters().remove(user_data),
            final(self).delivered() == old(self).delivered().remove(user_data),
            final(self).upcoming() == old(self).upcoming(),
    {
        self.waiting.remove(&user_data);
        self.results.remove(&user_data);
    }
}

/// A completion delivered for an identifier is what taking that
/// identifier's result gives back, whether or not a task was waiting.
pub proof fn law_take_returns_delivered(delivered: Map<u64, TorusResult>, result: TorusResult)
    ensures
        delivered.insert(result.user_data, result).contains_key(result.user_data),
        delivered.insert(result.user_data, result)[result.user_data] == result,
        delivered.insert(result.user_data, result).remove(result.user_data) == delivered.remove(
            result.user_data,
        ),
{
    assert(delivered.insert(result.user_data, result).remove(result.user_data) =~= delivered.remove(
        result.user_data,
    ));
}

/// The state of an operation's future.
#[derive(Clone, Copy, PartialEq, Eq, Structural, Debug)]
pub enum FutureState {
    /// Not yet submitted.
    Init,
    /// Submitted, waiting for completion.
    Waiting,
    /// Completion received (terminal).
    Done,
}

/// What a completion resolves an operation's future to: the byte count on
/// success, else the OS error of its errno.
pub open spec fn completion_outcome(r: TorusResult) -> Result<usize, Error> {
    if r.result >= 0 {
        Ok(r.result as usize)
    } else {
        Err(Error::Os(wrapping_neg_i64(r.result) as i32))
    }
}

/// What a completion resolves an operation's future to.
pub fn completion_output(r: &TorusResult) -> (o: Result<usize, Error>)
    ensures
        o == completion_outcome(*r),
{
    if r.is_ok() {
        match r.bytes() {
            Some(n) => Ok(n),
            None => Ok(0),
        }
    } else {
        match r.error() {
            Some(e) => Err(Error::Os(e)),
            None => Err(Error::Os(5)),
        }
    }
}

/// What an accept's completion resolves its future to: the new socket's
/// descriptor on success, else the OS error of its errno.
pub open spec fn accept_outcome(r: TorusResult) -> Result<i32, Error> {
    if r.result >= 0 {
        Ok(r.result as i32)
    } else {
        Err(Error::Os(wrapping_neg_i64(r.result) as i32))
    }
}

/// What an accept's completion resolves its future to.
pub fn accept_output(r: &TorusResult) -> (o: Result<i32, Error>)
    ensures
        o == accept_outcome(*r),
{
    if r.is_ok() {
        Ok(r.raw() as i32)
    } else {
        match r.error() {
            Some(e) => Err(Error::Os(e)),
            None => Err(Error::Os(5)),
        }
    }
}

/// What a connect's or close's completion resolves its future to:
/// nothing on success, else the OS error of its errno.
pub open spec fn unit_outcome(r: TorusResult) -> Result<(), Error> {
    if r.result >= 0 {
        Ok(())
    } else {
        Err(Error::Os(wrapping_neg_i64(r.result) as i32))
    }
}

/// What a connect's or close's completion resolves its future to.
pub fn unit_output(r: &TorusResult) -> (o: Result<(), Error>)
    ensures
        o == unit_outcome(*r),
{
    if r.is_ok() {
        Ok(())
    } else {
        match r.error() {
            Some(e) => Err(Error::Os(e)),
            None => Err(Error::Os(5)),
        }
    }
}

/// What one poll of an operation's future gives.
pub enum PollStep {
    /// Not ready yet: the task waits to be woken for its completion.
    Pending,
    /// The operation could not be submitted (terminal).
    Failed(Error),
    /// The operation's completion arrived (terminal).
    Completed(TorusResult),
}

/// An operation on its way through the Torus, driven by polling: the
/// state machine behind the read, write, recv, send, accept, connect and
/// close futures. The first poll submits it under a fresh identifier;
/// later polls look for its completion among those delivered.
pub struct OperationFuture {
    flow: Flow,
    state: FutureState,
    user_data: u64,
}

impl OperationFuture {
    /// The operation.
    pub closed spec fn operation(&self) -> Operation {
        self.flow.op_of()
    }

    /// The state of the future.
    pub closed spec fn phase(&self) -> FutureState {
        self.state
    }

    /// The identifier the operation was submitted under (0 before that).
    pub closed spec fn id(&self) -> u64 {
        self.user_data
    }

    /// A future for `op`, not yet submitted.
    pub fn new(op: Operation) -> (f: Self)
        ensures
            f.operation() == op,
            f.phase() == FutureState::Init,
            f.id() == 0,
    {
        OperationFuture { flow: Flow::new(op), state: FutureState::Init, user_data: 0 }
    }

    /// The state of the future.
    pub fn state(&self) -> (s: FutureState)
        ensures
            s == self.phase(),
    {
        self.state
    }

    /// The identifier the operation was submitted under.
    pub fn user_data(&self) -> (d: u64)
        ensures
            d == self.id(),
    {
        self.user_data
    }

    /// One poll. Not yet submitted: the operation is submitted under the
    /// registry's next identifier (the backend is handed exactly one flow,
    /// carrying the operation and that identifier); once accepted the task waits for it,
    /// else the future fails with the submission's error. Waiting: the
    /// task is registered again, and if the completion was delivered it is
    /// taken, the identifier forgotten and the future done. A future that
    /// is done is not polled again.
    pub fn poll_step<B: Backend>(
        &mut self,
        torus: &mut Torus<B>,
        registry: &mut WakerRegistry,
    ) -> (r: PollStep)
        requires
            old(self).phase() != FutureState::Done,
        ensures
            final(self).operation() == old(self).operation(),
            final(torus).sq_ring() == old(torus).sq_ring(),
            final(torus).cq_ring() == old(torus).cq_ring(),
            old(self).phase() == FutureState::Init ==> {
                let id = old(registry).upcoming();
                &&& final(self).id() == id
                &&& final(registry).upcoming() == id.wrapping_add(1)
                &&& final(registry).delivered() == old(registry).delivered()
                &&& exists|f: Flow, n: Result<usize, Error>|
                    {
                        &&& f.op_of() == old(self).operation()
                        &&& f.user_data_of() == id
                        &&& #[trigger] B::submits(old(torus).backend_of(), seq![f], final(torus).backend_of(), n)
                        &&& single_submit_result(n) matches Err(e) ==> (r == PollStep::Failed(e)
                            && final(self).phase() == FutureState::Done && final(registry).waiters()
                            == old(registry).waiters())
                        &&& single_submit_result(n) is Ok ==> (r is Pending && final(self).phase()
                            == FutureState::Waiting && final(registry).waiters() == old(
                            registry,
                        ).waiters().insert(id))
                    }
            },
            old(self).phase() == FutureState::Waiting ==> {
                let id = old(self).id();
                &&& final(self).id() == id
                &&& final(registry).upcoming() == old(registry).upcoming()
                &&& *final(torus) == *old(torus)
                &&& if old(registry).delivered().contains_key(id) {
                    &&& r == PollStep::Completed(old(registry).delivered()[id])
                    &&& final(self).phase() == FutureState::Done
                    &&& final(registry).waiters() == old(registry).waiters().remove(id)
                    &&& final(registry).delivered() == old(registry).delivered().remove(id)
                } else {
                    &&& r is Pending
                    &&& final(self).phase() == FutureState::Waiting
                    &&& final(registry).waiters() == old(registry).waiters().insert(id)
                    &&& final(registry).delivered() == old(registry).delivered()
                }
            },
    {
        if self.state == FutureState::Init {
            let id = registry.alloc_id();
            self.user_data = id;
            self.flow.set_user_data(id);
            match torus.submit(&self.flow) {
                Ok(()) => {
                    self.state = FutureState::Waiting;
                    registry.register(id);
                    PollStep::Pending
                },
                Err(e) => {
                    self.state = FutureState::Done;
                    PollStep::Failed(e)
                },
            }
        } else {
            let id = self.user_data;
            registry.register(id);
            match registry.take_result(id) {
                Some(result) => {
                    self.state = FutureState::Done;
                    registry.unregister(id);
                    PollStep::Completed(result)
                },
                None => PollStep::Pending,
            }
        }
    }

    /// Dropping a future that still waits forgets its identifier, so a
    /// completion that arrives later is not kept.
    pub fn cancel(&self, registry: &mut WakerRegistry)
        ensures
            self.phase() == FutureState::Waiting ==> final(registry).waiters() == old(
                registry,
            ).waiters().remove(self.id()) && final(registry).delivered() == old(registry).delivered().remove(
                self.id(),
            ),
            self.phase() != FutureState::Waiting ==> *final(registry) == *old(registry),
            final(registry).upcoming() == old(registry).upcoming(),
    {
        if self.state == FutureState::Waiting {
            registry.unregister(self.user_data);
        }
    }
}


/// A completion resolves a future by the sign of its result: a result that
/// is not negative succeeds (a byte count, an accepted socket, or nothing),
/// and a negative one fails with the operating-system error whose number
/// is the negated result.
pub proof fn law_outcome_follows_result(r: TorusResult)
    ensures
        r.result >= 0 ==> completion_outcome(r) == Ok::<usize, Error>(r.result as usize)
            && accept_outcome(r) == Ok::<i32, Error>(r.result as i32) && unit_outcome(r) == Ok::<
            (),
            Error,
        >(()),
        i32::MIN < r.result < 0 ==> completion_outcome(r) == Err::<usize, Error>(
            Error::Os((-r.result) as i32),
        ) && accept_outcome(r) == Err::<i32, Error>(Error::Os((-r.result) as i32)) && unit_outcome(r)
            == Err::<(), Error>(Error::Os((-r.result) as i32)),
        r.result < 0 ==> completion_outcome(r) is Err && accept_outcome(r) is Err && unit_outcome(
            r,
        ) is Err,
{
}

} // verus!
