//! Correlation of asynchronous responses with the waiters of the calls that caused them.
//!
//! A waiter is the producer half of a one-shot handoff cell; these tables are generic over its
//! type, and hand a waiter back to the caller at the moment it is due to be resolved.

use std::collections::HashMap;
use std::collections::VecDeque;

use vstd::prelude::*;

use crate::request_id::{parse_request_id, parse_request_id_spec};
use crate::responses::{Identified, RequestResponse, Status};

verus! {

broadcast use vstd::std_specs::hash::group_hash_axioms;

/// An error raised while routing a response to its waiter.
#[derive(Debug)]
pub enum NotifyError {
    /// The response's request id is not the decimal text of an unsigned 64-bit integer.
    InvalidRequestId(String),
}

/// A response that has found its waiter: the waiter, and the status and payload to hand it.
pub struct Delivery<W> {
    /// The waiter that issued the request.
    pub waiter: W,
    /// The status of the request.
    pub status: Status,
    /// The response payload.
    pub data: serde_json::Value,
}

/// The waiters of ongoing requests, keyed by request id.
pub struct ReceiverList<W> {
    waiters: HashMap<u64, W>,
}

impl<W> View for ReceiverList<W> {
    type V = Map<u64, W>;

    closed spec fn view(&self) -> Map<u64, W> {
        self.waiters@
    }
}

impl<W> ReceiverList<W> {
    /// An empty list.
    pub fn new() -> (r: Self)
        ensures
            r@ == Map::<u64, W>::empty(),
    {
        ReceiverList { waiters: HashMap::new() }
    }

    /// Whether a waiter for `id` is registered.
    pub fn contains(&self, id: u64) -> (r: bool)
        ensures
            r == self@.contains_key(id),
    {
        self.waiters.contains_key(&id)
    }

    /// The number of registered waiters.
    pub fn len(&self) -> (r: usize)
        ensures
            r == self@.len(),
    {
        self.waiters.len()
    }

    /// Registers the waiter of request `id`, replacing any earlier waiter for that id.
    pub fn add(&mut self, id: u64, waiter: W)
        ensures
            final(self)@ == old(self)@.insert(id, waiter),
    {
        self.waiters.insert(id, waiter);
    }

    /// Removes the waiter of request `id` without resolving it, when the request could not be
    /// sent. Nothing happens if there is none.
    pub fn remove(&mut self, id: u64)
        ensures
            final(self)@ == old(self)@.remove(id),
    {
        self.waiters.remove(&id);
    }

    /// Routes a response to the waiter of its request: the waiter leaves the list and is handed
    /// back with the response's status and payload. `Ok(None)` if no waiter is registered for the
    /// id; an error if the id is not a valid unsigned integer.
    pub fn notify(&mut self, response: RequestResponse) -> (r: Result<
        Option<Delivery<W>>,
        NotifyError,
    >)
        ensures
            match parse_request_id_spec(response.request_id@) {
                None => {
                    &&& final(self)@ == old(self)@
                    &&& r matches Err(NotifyError::InvalidRequestId(text))
                    &&& text@ == response.request_id@
                },
                Some(id) => {
                    &&& final(self)@ == old(self)@.remove(id)
                    &&& r matches Ok(delivered)
                    &&& if old(self)@.contains_key(id) {
                        &&& delivered matches Some(d)
                        &&& d.waiter == old(self)@[id]
                        &&& d.status == response.request_status
                        &&& d.data == response.response_data
                    } else {
                        delivered is None
                    }
                },
            },
    {
        let RequestResponse { request_type: _, request_id, request_status, response_data } =
            response;
        match parse_request_id(request_id.as_str()) {
            None => Err(NotifyError::InvalidRequestId(request_id)),
            Some(id) => match self.waiters.remove(&id) {
                Some(waiter) => Ok(Some(Delivery { waiter, status: request_status, data: response_data })),
                None => Ok(None),
            },
        }
    }

    /// Removes every waiter. Dropping a waiter unresolved cancels it.
    pub fn reset(&mut self)
        ensures
            final(self)@ == Map::<u64, W>::empty(),
    {
        self.waiters.clear();
    }
}

/// The waiters for the next re-identification, oldest first.
pub struct ReidentifyReceiverList<W> {
    waiters: VecDeque<W>,
}

impl<W> View for ReidentifyReceiverList<W> {
    type V = Seq<W>;

    closed spec fn view(&self) -> Seq<W> {
        self.waiters@
    }
}

impl<W> ReidentifyReceiverList<W> {
    /// An empty queue.
    pub fn new() -> (r: Self)
        ensures
            r@ == Seq::<W>::empty(),
    {
        ReidentifyReceiverList { waiters: VecDeque::new() }
    }

    /// The number of waiting receivers.
    pub fn len(&self) -> (r: usize)
        ensures
            r == self@.len(),
    {
        self.waiters.len()
    }

    /// Appends a waiter at the back of the queue.
    pub fn add(&mut self, waiter: W)
        ensures
            final(self)@ == old(self)@.push(waiter),
    {
        self.waiters.push_back(waiter);
    }

    /// Hands the confirmation to the oldest waiter, which leaves the queue; `None` (the event is
    /// dropped) when nobody waits.
    pub fn notify(&mut self, identified: Identified) -> (r: Option<(W, Identified)>)
        ensures
            old(self)@.len() == 0 ==> r is None && final(self)@ == old(self)@,
            old(self)@.len() > 0 ==> {
                &&& r matches Some(d)
                &&& d.0 == old(self)@[0]
                &&& d.1 == identified
                &&& final(self)@ == old(self)@.drop_first()
            },
    {
        match self.waiters.pop_front() {
            Some(waiter) => Some((waiter, identified)),
            None => None,
        }
    }

    /// Removes every waiter. Dropping a waiter unresolved cancels it.
    pub fn reset(&mut self)
        ensures
            final(self)@ == Seq::<W>::empty(),
    {
        self.waiters.clear();
    }
}

} // verus!
