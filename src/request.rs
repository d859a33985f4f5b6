use vstd::prelude::*;

verus! {

/// A request: the event key that routes it and an opaque payload for the
/// handler. Consumed by exactly one dispatch.
#[derive(Clone, Debug)]
pub struct AFPluginRequest {
    pub event: u64,
    pub payload: Vec<u8>,
}

impl AFPluginRequest {
    pub fn new(event: u64, payload: Vec<u8>) -> (r: AFPluginRequest)
        ensures
            r.event == event,
            r.payload@ == payload@,
    {
        AFPluginRequest { event, payload }
    }
}

} // verus!
