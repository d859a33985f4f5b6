use vstd::prelude::*;
use crate::registry::{lemma_owner_of_lists_key, AFPluginRegistry};
use crate::response::{DispatchError, ResponseView};
use crate::router::{handler_response, spec_start, spec_step, ActionView, DispatchEvent, PhaseView};

verus! {

/// The actions of one whole dispatch of `key`: the first step, then the
/// handler's `outcome` where a handler was asked to run, then the end of the
/// callback where one was asked to run.
pub open spec fn run_actions(owner: Option<nat>, key: u64, has_callback: bool, outcome: DispatchEvent) -> Seq<ActionView> {
    let s0 = spec_start(owner, key, has_callback);
    let s1 = if s0.1 is RunHandler {
        spec_step(has_callback, s0.0, outcome)
    } else {
        s0
    };
    let s2 = if s1.1 is RunCallback {
        spec_step(has_callback, s1.0, DispatchEvent::CallbackFinished)
    } else {
        s1
    };
    seq![s0.1] + (if s0.1 is RunHandler {
        seq![s1.1]
    } else {
        Seq::empty()
    }) + (if s1.1 is RunCallback {
        seq![s2.1]
    } else {
        Seq::empty()
    })
}

/// The actions of one whole dispatch of `key` on `registry`.
pub open spec fn dispatch_actions(
    registry: AFPluginRegistry,
    key: u64,
    has_callback: bool,
    outcome: DispatchEvent,
) -> Seq<ActionView> {
    run_actions(registry.spec_lookup(key), key, has_callback, outcome)
}

/// A dispatch of a key asks for the handler of the plugin that registered
/// it, the last one in registration order, and of no other plugin.
pub proof fn lemma_dispatch_runs_registering_plugin(
    registry: AFPluginRegistry,
    key: u64,
    plugin: nat,
    has_callback: bool,
    outcome: DispatchEvent,
)
    requires
        plugin < registry.keys().len(),
        registry.keys()[plugin as int].contains(key),
        forall|j: int| plugin < j < registry.keys().len() ==> !#[trigger] registry.keys()[j].contains(key),
    ensures
        dispatch_actions(registry, key, has_callback, outcome)[0] == ActionView::RunHandler(plugin),
        forall|n: int|
            0 <= n < dispatch_actions(registry, key, has_callback, outcome).len() && (#[trigger] dispatch_actions(
                registry,
                key,
                has_callback,
                outcome,
            )[n] is RunHandler) ==> dispatch_actions(registry, key, has_callback, outcome)[n]
                == ActionView::RunHandler(plugin),
{
    lemma_owner_of_lists_key(registry.keys(), key);
    let owner = registry.spec_lookup(key);
    assert(owner == Some(plugin)) by {
        if owner is None {
            assert(registry.keys()[plugin as int].contains(key));
        } else {
            let o = owner.unwrap();
            if o < plugin {
                assert(!registry.keys()[plugin as int].contains(key));
            }
        }
    }
}

/// A dispatch of a key that no plugin registers runs no handler and ends in
/// a `HandleNotFound` error that carries the key.
pub proof fn lemma_unregistered_key_not_found(
    registry: AFPluginRegistry,
    key: u64,
    has_callback: bool,
    outcome: DispatchEvent,
)
    requires
        forall|j: int| 0 <= j < registry.keys().len() ==> !#[trigger] registry.keys()[j].contains(key),
    ensures
        dispatch_actions(registry, key, has_callback, outcome).last() == ActionView::Complete(
            ResponseView::Failure(DispatchError::HandleNotFound(key)),
        ),
        forall|n: int|
            0 <= n < dispatch_actions(registry, key, has_callback, outcome).len() ==> !(
            #[trigger] dispatch_actions(registry, key, has_callback, outcome)[n] is RunHandler),
{
    lemma_owner_of_lists_key(registry.keys(), key);
    let acts = dispatch_actions(registry, key, has_callback, outcome);
    if has_callback {
        assert(acts.len() == 2);
    } else {
        assert(acts.len() == 1);
    }
}

/// With a callback, a dispatch runs the callback exactly once, just before
/// it ends, with the very response that it returns; without one, it runs no
/// callback.
pub proof fn lemma_callback_once_with_returned_response(
    registry: AFPluginRegistry,
    key: u64,
    outcome: DispatchEvent,
)
    requires
        handler_response(outcome) is Some,
    ensures
        ({
            let acts = dispatch_actions(registry, key, true, outcome);
            &&& acts.len() >= 2
            &&& acts.last() is Complete
            &&& acts[acts.len() - 2] == ActionView::RunCallback(acts.last()->Complete_0)
            &&& forall|n: int| 0 <= n < acts.len() - 2 ==> !(#[trigger] acts[n] is RunCallback)
        }),
        forall|n: int|
            0 <= n < dispatch_actions(registry, key, false, outcome).len() ==> !(
            #[trigger] dispatch_actions(registry, key, false, outcome)[n] is RunCallback),
{
    let acts = dispatch_actions(registry, key, true, outcome);
    let plain = dispatch_actions(registry, key, false, outcome);
    if registry.spec_lookup(key) is Some {
        assert(acts.len() == 3);
        assert(plain.len() == 2);
    } else {
        assert(acts.len() == 2);
        assert(plain.len() == 1);
    }
}

/// Dispatches of many requests are independent: each one, whatever the
/// others do, asks for the handler of the plugin that owns its own key, or
/// ends in a `HandleNotFound` error for that key, and each one completes.
pub proof fn lemma_each_request_routed_on_its_own(
    registry: AFPluginRegistry,
    keys: Seq<u64>,
    outcomes: Seq<DispatchEvent>,
    has_callback: bool,
)
    requires
        outcomes.len() == keys.len(),
        forall|i: int| 0 <= i < outcomes.len() ==> handler_response(#[trigger] outcomes[i]) is Some,
    ensures
        forall|i: int|
            0 <= i < keys.len() ==> {
                let acts = #[trigger] dispatch_actions(registry, keys[i], has_callback, outcomes[i]);
                &&& acts.last() is Complete
                &&& match registry.spec_lookup(keys[i]) {
                    Some(p) => acts[0] == ActionView::RunHandler(p),
                    None => acts.last() == ActionView::Complete(
                        ResponseView::Failure(DispatchError::HandleNotFound(keys[i])),
                    ),
                }
            },
{
    assert forall|i: int| 0 <= i < keys.len() implies ({
        let acts = #[trigger] dispatch_actions(registry, keys[i], has_callback, outcomes[i]);
        &&& acts.last() is Complete
        &&& match registry.spec_lookup(keys[i]) {
            Some(p) => acts[0] == ActionView::RunHandler(p),
            None => acts.last() == ActionView::Complete(
                ResponseView::Failure(DispatchError::HandleNotFound(keys[i])),
            ),
        }
    }) by {
        let acts = dispatch_actions(registry, keys[i], has_callback, outcomes[i]);
        assert(handler_response(outcomes[i]) is Some);
        if registry.spec_lookup(keys[i]) is Some {
            if has_callback {
                assert(acts.len() == 3);
            } else {
                assert(acts.len() == 2);
            }
        } else {
            if has_callback {
                assert(acts.len() == 2);
            } else {
                assert(acts.len() == 1);
            }
        }
    }
}

} // verus!
