//! An in-process dispatcher that routes requests, identified by an event key,
//! to the plugin that registered that key, and turns every outcome into a
//! response. The library holds the registry, the response model and the
//! decisions of one dispatch; running handlers and callbacks is left to the
//! host's runtime.
mod laws;
mod registry;
mod request;
mod response;
mod router;

pub use response::{AFPluginEventResponse, DispatchError, ErrorKind, ResponseView};
pub use request::AFPluginRequest;
pub use registry::{lemma_owner_of_lists_key, owner_of, plugin_keys, AFPlugin, AFPluginRegistry};
pub use router::{
    handler_response, settle_join, spec_finish, spec_start, spec_step, ActionView, DispatchAction, DispatchEvent, DispatchPhase, DispatchSession, PhaseView,
};
pub use laws::{dispatch_actions, lemma_callback_once_with_returned_response, lemma_dispatch_runs_registering_plugin, lemma_each_request_routed_on_its_own, lemma_unregistered_key_not_found, run_actions};
