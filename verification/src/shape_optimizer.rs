use vstd::prelude::*;
use std::collections::HashMap;
use crate::models::{MessageKind, WorkerStep, worker_step_for};

verus! {

broadcast use vstd::std_specs::hash::group_hash_axioms;

/// Calls `uuid::Uuid::new_v4` and returns the identifier as a `u128`.
/// The value is random; the crate sets the version nibble to 4 and the
/// variant bits to `10`, which is all that is stated of it.
#[verifier::external_body]
fn fresh_request_id() -> (id: u128)
    ensures
        id & 0xF000_C000_0000_0000_0000 == 0x4000_8000_0000_0000_0000,
{
    uuid::Uuid::new_v4().as_u128()
}

/// Optimisation requests that still wait for their result, each with the
/// handle through which the result is sent back.
pub struct PendingOptimizations<T> {
    waiting: HashMap<u128, T>,
}

impl<T> View for PendingOptimizations<T> {
    type V = Map<u128, T>;

    closed spec fn view(&self) -> Map<u128, T> {
        self.waiting@
    }
}

impl<T> PendingOptimizations<T> {
    pub fn new() -> (r: Self)
        ensures
            r@ == Map::<u128, T>::empty(),
    {
        PendingOptimizations { waiting: HashMap::new() }
    }

    /// Files a new request under a fresh random identifier and returns it.
    /// The identifier is a version-4 UUID: its version nibble is 4 and its
    /// variant bits are `10`.
    pub fn register(&mut self, responder: T) -> (id: u128)
        ensures
            final(self)@ == old(self)@.insert(id, responder),
            id & 0xF000_C000_0000_0000_0000 == 0x4000_8000_0000_0000_0000,
    {
        let id: u128 = fresh_request_id();
        self.waiting.insert(id, responder);
        id
    }

    /// Withdraws the request `id`: hands back its responder if it was still
    /// waiting, and forgets it in every case.
    pub fn take(&mut self, id: u128) -> (r: Option<T>)
        ensures
            final(self)@ == old(self)@.remove(id),
            old(self)@.contains_key(id) ==> r == Some(old(self)@[id]),
            !old(self)@.contains_key(id) ==> r is None,
    {
        self.waiting.remove(&id)
    }
}

/// A result is delivered at most once: right after a request is filed,
/// withdrawing it yields its responder, and withdrawing it again yields
/// nothing; requests filed under other identifiers are left untouched.
pub proof fn lemma_result_delivered_once<T>(pending: Map<u128, T>, id: u128, responder: T, other: u128)
    requires
        other != id,
    ensures
        pending.insert(id, responder).contains_key(id),
        pending.insert(id, responder)[id] == responder,
        !pending.insert(id, responder).remove(id).contains_key(id),
        pending.insert(id, responder).remove(id).contains_key(other) == pending.contains_key(other),
        pending.contains_key(other) ==> pending.insert(id, responder).remove(id)[other] == pending[other],
{
}

/// What the optimisation worker does with a message.
pub fn optimizer_step(kind: MessageKind) -> (s: WorkerStep)
    ensures
        s == worker_step_for(kind, MessageKind::OptimizationRequest),
{
    match kind {
        MessageKind::OptimizationRequest => WorkerStep::Handle,
        MessageKind::Shutdown => WorkerStep::Stop,
        _ => WorkerStep::Ignore,
    }
}

} // verus!
