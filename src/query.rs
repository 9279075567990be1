use std::sync::mpsc::{Receiver, Sender, TryRecvError};
use vstd::prelude::*;

verus! {

/// Where the one outstanding job of an [`AsyncQuery`] stands.
#[derive(Debug)]
pub enum QueryState<T, E> {
    /// No job was ever started.
    Idle,
    /// A job was started and its outcome has not been observed yet.
    Loading,
    /// The job finished with this value.
    Success(T),
    /// The job finished with this error.
    Error(E),
}

impl<T, E> Default for QueryState<T, E> {
    fn default() -> (s: Self)
        ensures
            s is Idle,
    {
        QueryState::Idle
    }
}

/// What one non-blocking look at the delivery channel found.
#[derive(Debug)]
pub enum Delivery<T, E> {
    /// Nothing has been sent yet.
    Empty,
    /// The job sent its outcome.
    Delivered(Result<T, E>),
    /// The sending end is gone and nothing was sent.
    Disconnected,
}

/// The job's sending end vanished without handing over an outcome.
#[derive(Debug)]
pub struct TaskAborted;

#[verifier::external_type_specification]
#[verifier::external_body]
#[verifier::reject_recursive_types(T)]
pub struct ExReceiver<T>(Receiver<T>);

#[verifier::external_type_specification]
#[verifier::external_body]
#[verifier::reject_recursive_types(T)]
pub struct ExSender<T>(Sender<T>);

/// Relies on std::sync::mpsc::channel: a fresh, connected pair of ends.
pub assume_specification<T>[ std::sync::mpsc::channel::<T> ]() -> (Sender<T>, Receiver<T>);

/// Relies on std::sync::mpsc::Receiver::try_recv: one attempt that never blocks.
/// What it finds depends on the timing of the sending thread, so nothing is promised.
#[verifier::external_body]
fn try_receive<T, E>(rx: &Receiver<Result<T, E>>) -> (d: Delivery<T, E>) {
    match rx.try_recv() {
        Ok(outcome) => Delivery::Delivered(outcome),
        Err(TryRecvError::Empty) => Delivery::Empty,
        Err(TryRecvError::Disconnected) => Delivery::Disconnected,
    }
}

/// Whether a new job may be started without superseding one in flight.
pub open spec fn ready<T, E>(s: QueryState<T, E>) -> bool {
    !(s is Loading)
}

/// The state after one observation `d` of the channel, starting from `s`.
/// Only a job in flight can complete; a finished or idle state is kept.
pub open spec fn step<T, E>(s: QueryState<T, E>, d: Delivery<T, E>) -> QueryState<T, E> {
    match s {
        QueryState::Loading => match d {
            Delivery::Delivered(Ok(v)) => QueryState::Success(v),
            Delivery::Delivered(Err(e)) => QueryState::Error(e),
            _ => s,
        },
        _ => s,
    }
}

/// Whether observing `d` in state `s` reveals a job that can never report.
pub open spec fn aborts<T, E>(s: QueryState<T, E>, d: Delivery<T, E>) -> bool {
    s is Loading && d is Disconnected
}

/// Bridges one background job to a caller that polls and never blocks.
#[derive(Debug)]
#[verifier::reject_recursive_types(T)]
#[verifier::reject_recursive_types(E)]
pub struct AsyncQuery<T, E> {
    state: QueryState<T, E>,
    receiver: Option<Receiver<Result<T, E>>>,
}

impl<T, E> View for AsyncQuery<T, E> {
    type V = QueryState<T, E>;

    closed spec fn view(&self) -> QueryState<T, E> {
        self.state
    }
}

impl<T, E> Default for AsyncQuery<T, E> {
    fn default() -> (q: Self)
        ensures
            q@ == QueryState::<T, E>::Idle,
            q.channel() is None,
    {
        AsyncQuery::new()
    }
}

impl<T, E> AsyncQuery<T, E> {
    /// A receiving end is held exactly while a job is in flight.
    #[verifier::type_invariant]
    spec fn channel_matches_state(self) -> bool {
        self.receiver is Some <==> self.state is Loading
    }

    /// The receiving end held for the job in flight, if any.
    pub closed spec fn channel(&self) -> Option<Receiver<Result<T, E>>> {
        self.receiver
    }

    /// A bridge with no job.
    pub fn new() -> (q: Self)
        ensures
            q@ == QueryState::<T, E>::Idle,
            q.channel() is None,
    {
        AsyncQuery { state: QueryState::Idle, receiver: None }
    }

    /// The current state, for the caller to present or branch on.
    pub fn state(&self) -> (r: &QueryState<T, E>)
        ensures
            *r == self@,
    {
        &self.state
    }

    /// True unless a job is in flight.
    pub fn is_ready(&self) -> (r: bool)
        ensures
            r == ready(self@),
    {
        match self.state {
            QueryState::Loading => false,
            _ => true,
        }
    }

    /// Opens a fresh delivery channel for a new job, keeps its receiving end and
    /// hands back the sending end, which the job uses once to report its outcome.
    /// Whatever was in flight before is superseded: its receiving end is dropped.
    pub fn start(&mut self) -> (tx: Sender<Result<T, E>>)
        ensures
            final(self)@ == QueryState::<T, E>::Loading,
            final(self).channel() is Some,
    {
        let (tx, rx) = std::sync::mpsc::channel();
        *self = AsyncQuery { state: QueryState::Loading, receiver: Some(rx) };
        tx
    }

    /// Applies one observation of the channel: a delivered outcome completes the
    /// job in flight and releases the channel; anything else leaves the state.
    /// Returns `Err` when the job in flight can no longer report.
    pub fn settle(&mut self, d: Delivery<T, E>) -> (r: Result<(), TaskAborted>)
        ensures
            final(self)@ == step(old(self)@, d),
            final(self).channel() is Some <==> final(self)@ is Loading,
            final(self)@ is Loading ==> old(self)@ is Loading,
            final(self)@ is Loading ==> final(self).channel() == old(self).channel(),
            r is Err <==> aborts(old(self)@, d),
    {
        proof {
            use_type_invariant(&*self);
        }
        match self.state {
            QueryState::Loading => match d {
                Delivery::Delivered(Ok(v)) => {
                    *self = AsyncQuery { state: QueryState::Success(v), receiver: None };
                    Ok(())
                },
                Delivery::Delivered(Err(e)) => {
                    *self = AsyncQuery { state: QueryState::Error(e), receiver: None };
                    Ok(())
                },
                Delivery::Empty => Ok(()),
                Delivery::Disconnected => Err(TaskAborted),
            },
            _ => Ok(()),
        }
    }

    /// Looks once, without blocking, for the outcome of the job in flight and
    /// records it. With no job in flight nothing changes.
    /// Returns `Err` when the job's sending end vanished without reporting.
    pub fn poll(&mut self) -> (r: Result<(), TaskAborted>)
        ensures
            exists|d: Delivery<T, E>|
                #[trigger] step(old(self)@, d) == final(self)@ && (r is Err <==> aborts(
                    old(self)@,
                    d,
                )),
            !(old(self)@ is Loading) ==> final(self)@ == old(self)@ && r is Ok,
            final(self).channel() is Some <==> final(self)@ is Loading,
            final(self)@ is Loading ==> old(self)@ is Loading,
            final(self)@ is Loading ==> final(self).channel() == old(self).channel(),
    {
        let d = match &self.receiver {
            Some(rx) => try_receive(rx),
            None => Delivery::Empty,
        };
        self.settle(d)
    }
}

} // verus!
