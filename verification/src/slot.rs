//! The slot that follows one request from its start to its outcome.

use crate::response::FetchError;
use reqwest_cross::oneshot::{Canceled, Receiver};
use vstd::prelude::*;

verus! {

/// The receiving end of the one-shot channel of `futures`, as
/// `reqwest_cross` hands it on. Nothing inside it is visible here: a handle
/// is only kept, and looked at through `try_receive`.
#[verifier::external_type_specification]
#[verifier::external_body]
#[verifier::reject_recursive_types(T)]
pub struct ExReceiver<T>(Receiver<T>);

/// The error with which the channel reports that its producer is gone. It
/// carries nothing, and no code here names it: it is declared because the
/// receiver is a future whose output mentions it, and the verifier reads
/// that with the receiver's type.
#[verifier::external_type_specification]
#[verifier::external_body]
pub struct ExCanceled(Canceled);

/// What one look at a completion channel found.
#[derive(Debug)]
pub enum Polled<T> {
    /// The value that the producer pushed.
    Ready(T),
    /// Nothing yet: the producer is still at work.
    Pending,
    /// The producer is gone and left nothing.
    Disconnected,
}

/// Calls `Receiver::try_recv` of the one-shot channel, which looks for the
/// value without waiting and without registering for a wake-up. The three
/// answers are told apart and nothing else is done. Which answer comes
/// depends on how far the producer has got, so nothing is claimed of it.
#[verifier::external_body]
fn try_receive<T>(handle: &mut Receiver<T>) -> (polled: Polled<T>) {
    match handle.try_recv() {
        Ok(Some(value)) => Polled::Ready(value),
        Ok(None) => Polled::Pending,
        Err(_) => Polled::Disconnected,
    }
}

/// The lifecycle of one request: not started, in flight, or finished with
/// its outcome.
#[derive(Debug)]
#[verifier::reject_recursive_types(T)]
pub enum DataState<T> {
    /// No request pending.
    Idle,
    /// A request is in flight; the handle is the receiving end of the
    /// channel that its outcome will arrive on.
    Awaiting(Receiver<Result<T, FetchError>>),
    /// The request finished with this outcome.
    Present(Result<T, FetchError>),
}

impl<T> Default for DataState<T> {
    fn default() -> (state: Self)
        ensures
            state == DataState::<T>::Idle,
    {
        DataState::Idle
    }
}

impl<T> DataState<T> {
    /// Whether a request is in flight.
    pub open spec fn is_awaiting(self) -> bool {
        self is Awaiting
    }

    /// The outcome held, if the request has finished.
    pub open spec fn outcome(self) -> Option<Result<T, FetchError>> {
        match self {
            DataState::Present(outcome) => Some(outcome),
            _ => None,
        }
    }

    /// The state after a trigger for which `fresh` is the channel of the
    /// request that would be started: a request in flight stays as it is,
    /// and from any other state the new request is in flight.
    pub open spec fn triggered(self, fresh: Receiver<Result<T, FetchError>>) -> Self {
        if self.is_awaiting() {
            self
        } else {
            DataState::Awaiting(fresh)
        }
    }

    /// The state after one trigger for each of the channels in `fresh`, in
    /// order.
    pub open spec fn triggered_each(self, fresh: Seq<Receiver<Result<T, FetchError>>>) -> Self
        decreases fresh.len(),
    {
        if fresh.len() == 0 {
            self
        } else {
            self.triggered(fresh.first()).triggered_each(fresh.drop_first())
        }
    }

    /// The state after a look at the channel gave `polled`: a value finishes
    /// the request with that value, a producer that is gone finishes it with
    /// an error, and nothing in the channel changes nothing. A state without
    /// a request in flight never changes.
    pub open spec fn answered(self, polled: Polled<Result<T, FetchError>>) -> Self {
        if self.is_awaiting() {
            match polled {
                Polled::Ready(outcome) => DataState::Present(outcome),
                Polled::Pending => self,
                Polled::Disconnected => DataState::Present(Err(FetchError::ChannelDisconnected)),
            }
        } else {
            self
        }
    }

    /// The state after the looks in `polled`, in order.
    pub open spec fn answered_each(self, polled: Seq<Polled<Result<T, FetchError>>>) -> Self
        decreases polled.len(),
    {
        if polled.len() == 0 {
            self
        } else {
            self.answered(polled.first()).answered_each(polled.drop_first())
        }
    }

    /// A slot with no request pending.
    pub fn new() -> (state: Self)
        ensures
            state == DataState::<T>::Idle,
    {
        DataState::Idle
    }

    /// Starts a request unless one is in flight. `factory` starts it and
    /// hands back the receiving end of a channel made for it; it is called
    /// only where no request is in flight, so it has to be callable only
    /// then. An outcome held so far is discarded.
    pub fn trigger<F: FnOnce() -> Receiver<Result<T, FetchError>>>(&mut self, factory: F)
        requires
            !old(self).is_awaiting() ==> factory.requires(()),
        ensures
            old(self).is_awaiting() ==> *final(self) == *old(self),
            !old(self).is_awaiting() ==> exists|fresh: Receiver<Result<T, FetchError>>|
                factory.ensures((), fresh) && *final(self) == old(self).triggered(fresh),
    {
        let in_flight = match self {
            DataState::Awaiting(_) => true,
            _ => false,
        };
        if !in_flight {
            let fresh = factory();
            *self = DataState::Awaiting(fresh);
            assert(factory.ensures((), fresh) && *self == old(self).triggered(fresh));
        }
    }

    /// Takes in what a look at the channel found.
    pub fn absorb(&mut self, polled: Polled<Result<T, FetchError>>)
        ensures
            *final(self) == old(self).answered(polled),
    {
        if let DataState::Awaiting(_) = self {
            match polled {
                Polled::Ready(outcome) => {
                    *self = DataState::Present(outcome);
                },
                Polled::Pending => {},
                Polled::Disconnected => {
                    *self = DataState::Present(Err(FetchError::ChannelDisconnected));
                },
            }
        }
    }

    /// Looks once, without waiting, whether the request in flight has
    /// finished, and hands out the outcome held after that look. Without a
    /// request in flight nothing changes: a finished request gives the same
    /// outcome at every call. With one in flight the request is afterwards
    /// still in flight or finished, as the channel had it.
    pub fn poll(&mut self) -> (outcome: Option<&Result<T, FetchError>>)
        ensures
            !old(self).is_awaiting() ==> *final(self) == *old(self),
            old(self).is_awaiting() ==> final(self).is_awaiting() || final(self).outcome().is_some(),
            outcome == match *final(self) {
                DataState::Present(held) => Some(&held),
                _ => None,
            },
    {
        let polled = match self {
            DataState::Awaiting(handle) => try_receive(handle),
            _ => Polled::Pending,
        };
        self.absorb(polled);
        self.current()
    }

    /// A read-only look at the outcome; nothing where there is none yet.
    pub fn current(&self) -> (outcome: Option<&Result<T, FetchError>>)
        ensures
            outcome == match *self {
                DataState::Present(held) => Some(&held),
                _ => None,
            },
    {
        match self {
            DataState::Present(held) => Some(held),
            _ => None,
        }
    }

    /// Triggers issued while a request is in flight start nothing: however
    /// many follow, the slot keeps the channel it had.
    pub proof fn retrigger_keeps_channel(self, fresh: Seq<Receiver<Result<T, FetchError>>>)
        requires
            self.is_awaiting(),
        ensures
            self.triggered_each(fresh) == self,
        decreases fresh.len(),
    {
        if fresh.len() > 0 {
            self.retrigger_keeps_channel(fresh.drop_first());
        }
    }

    /// Of a run of triggers from a slot without a request in flight, the
    /// first one starts the request, and its channel is the one kept.
    pub proof fn first_trigger_wins(self, fresh: Seq<Receiver<Result<T, FetchError>>>)
        requires
            !self.is_awaiting(),
            fresh.len() > 0,
        ensures
            self.triggered_each(fresh) == DataState::<T>::Awaiting(fresh.first()),
    {
        self.triggered(fresh.first()).retrigger_keeps_channel(fresh.drop_first());
    }

    /// Once the outcome is held, no look at any channel changes it.
    pub proof fn outcome_is_stable(self, polled: Seq<Polled<Result<T, FetchError>>>)
        requires
            self is Present,
        ensures
            self.answered_each(polled) == self,
            self.answered_each(polled).outcome() == self.outcome(),
        decreases polled.len(),
    {
        if polled.len() > 0 {
            self.outcome_is_stable(polled.drop_first());
        }
    }
}

} // verus!
