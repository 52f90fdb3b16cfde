use vstd::prelude::*;
use crate::handlers::{lookup_bridge, bridge_position};
use crate::models::{BRIDGE_COUNT, MessageKind, WorkerStep, worker_step_for};

verus! {

/// Aerodynamic models kept per bridge, so that the filter and smoothing
/// state of a model survives from one request to the next. Slot `i` belongs
/// to the bridge at position `i` of the catalogue.
pub struct ModelCache<M> {
    slots: Vec<Option<M>>,
}

impl<M> View for ModelCache<M> {
    type V = Seq<Option<M>>;

    closed spec fn view(&self) -> Seq<Option<M>> {
        self.slots@
    }
}

impl<M: Clone> ModelCache<M> {
    /// Every cache has one slot per catalogued bridge.
    pub open spec fn wf(&self) -> bool {
        self@.len() == BRIDGE_COUNT
    }

    pub fn new() -> (c: Self)
        ensures
            c.wf(),
            forall|i: int| 0 <= i < BRIDGE_COUNT ==> (#[trigger] c@[i]) is None,
    {
        let mut slots: Vec<Option<M>> = Vec::new();
        let mut k: usize = 0;
        while k < BRIDGE_COUNT
            invariant
                k <= BRIDGE_COUNT,
                slots@.len() == k,
                forall|i: int| 0 <= i < k ==> (#[trigger] slots@[i]) is None,
            decreases BRIDGE_COUNT - k,
        {
            slots.push(None);
            k = k + 1;
        }
        ModelCache { slots }
    }

    /// Returns a copy of the model of `bridge_id`, building it with `create`
    /// (from the bridge's catalogue position) the first time it is asked for
    /// and keeping it for later requests. An unknown bridge yields `None`
    /// and leaves the cache as it was.
    pub fn get_or_create<F: Fn(usize) -> M>(&mut self, bridge_id: &str, create: F) -> (r: Option<M>)
        requires
            old(self).wf(),
            forall|i: usize| i < BRIDGE_COUNT ==> create.requires((i,)),
        ensures
            final(self).wf(),
            bridge_position(bridge_id@) is None ==> r is None && final(self)@ == old(self)@,
            bridge_position(bridge_id@) matches Some(i) ==> {
                &&& r is Some
                &&& final(self)@[i as int] is Some
                &&& cloned(final(self)@[i as int]->0, r->0)
                &&& (old(self)@[i as int] is Some ==> final(self)@ == old(self)@)
                &&& (old(self)@[i as int] is None ==> {
                    &&& create.ensures((i,), final(self)@[i as int]->0)
                    &&& final(self)@ == old(self)@.update(i as int, final(self)@[i as int])
                })
            },
    {
        match lookup_bridge(bridge_id) {
            None => None,
            Some(i) => {
                match &self.slots[i] {
                    Some(model) => {
                        let copy = model.clone();
                        Some(copy)
                    },
                    None => {
                        let model = create(i);
                        let copy = model.clone();
                        self.slots.set(i, Some(model));
                        Some(copy)
                    },
                }
            },
        }
    }
}

/// Error reported when a request names a bridge that is not catalogued.
pub fn unknown_bridge_error(bridge_id: &str) -> (e: String)
    ensures
        e@ == "Bridge not found: "@ + bridge_id@,
{
    let mut e = String::new();
    e.append("Bridge not found: ");
    e.append(bridge_id);
    e
}

/// What the flutter analysis worker does with a message.
pub fn analyzer_step(kind: MessageKind) -> (s: WorkerStep)
    ensures
        s == worker_step_for(kind, MessageKind::DtuPayloadReceived),
{
    match kind {
        MessageKind::DtuPayloadReceived => WorkerStep::Handle,
        MessageKind::Shutdown => WorkerStep::Stop,
        _ => WorkerStep::Ignore,
    }
}

} // verus!
