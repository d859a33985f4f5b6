use vstd::prelude::*;
use crate::registry::AFPluginRegistry;
use crate::response::{AFPluginEventResponse, DispatchError, ResponseView};

verus! {

/// Where one dispatch stands between two awaits.
pub enum DispatchPhase {
    /// The handler of the plugin at this index is being built and called.
    AwaitingHandler { plugin: usize },
    /// The callback is running with this response.
    AwaitingCallback { response: AFPluginEventResponse },
    /// The response has been handed back.
    Done,
}

/// What the runtime reports back to a dispatch.
pub enum DispatchEvent {
    /// The handler finished, with its payload or its own domain error.
    HandlerReturned(Result<Vec<u8>, String>),
    /// The plugin's factory could not build a handler.
    FactoryFailed(String),
    /// The completion callback has finished.
    CallbackFinished,
}

/// What the runtime is asked to do next for a dispatch.
pub enum DispatchAction {
    /// Build the handler of the plugin at this index and call it with the request.
    RunHandler { plugin: usize },
    /// Run the completion callback with this response.
    RunCallback(AFPluginEventResponse),
    /// The dispatch is over: return this response to the caller.
    Complete(AFPluginEventResponse),
    /// The event does not belong to the current phase: nothing to do.
    Ignore,
}

pub ghost enum PhaseView {
    AwaitingHandler(nat),
    AwaitingCallback(ResponseView),
    Done,
}

pub ghost enum ActionView {
    RunHandler(nat),
    RunCallback(ResponseView),
    Complete(ResponseView),
    Ignore,
}

impl View for DispatchPhase {
    type V = PhaseView;

    open spec fn view(&self) -> PhaseView {
        match self {
            DispatchPhase::AwaitingHandler { plugin } => PhaseView::AwaitingHandler(*plugin as nat),
            DispatchPhase::AwaitingCallback { response } => PhaseView::AwaitingCallback(response@),
            DispatchPhase::Done => PhaseView::Done,
        }
    }
}

impl View for DispatchAction {
    type V = ActionView;

    open spec fn view(&self) -> ActionView {
        match self {
            DispatchAction::RunHandler { plugin } => ActionView::RunHandler(*plugin as nat),
            DispatchAction::RunCallback(r) => ActionView::RunCallback(r@),
            DispatchAction::Complete(r) => ActionView::Complete(r@),
            DispatchAction::Ignore => ActionView::Ignore,
        }
    }
}

/// The response that a handler's outcome turns into: its payload, its domain
/// error unchanged, or an internal error when no handler could be built.
/// An event that is no handler's outcome gives none.
pub open spec fn handler_response(ev: DispatchEvent) -> Option<ResponseView> {
    match ev {
        DispatchEvent::HandlerReturned(Ok(p)) => Some(ResponseView::Success(p@)),
        DispatchEvent::HandlerReturned(Err(m)) => Some(ResponseView::Failure(DispatchError::HandlerError(m))),
        DispatchEvent::FactoryFailed(m) => Some(ResponseView::Failure(DispatchError::Internal(m))),
        DispatchEvent::CallbackFinished => None,
    }
}

/// Once the response is known: hand it to the callback first, if there is one.
pub open spec fn spec_finish(has_callback: bool, r: ResponseView) -> (PhaseView, ActionView) {
    if has_callback {
        (PhaseView::AwaitingCallback(r), ActionView::RunCallback(r))
    } else {
        (PhaseView::Done, ActionView::Complete(r))
    }
}

/// The first step of a dispatch of `key`, given the plugin that owns it.
pub open spec fn spec_start(owner: Option<nat>, key: u64, has_callback: bool) -> (PhaseView, ActionView) {
    match owner {
        Some(i) => (PhaseView::AwaitingHandler(i), ActionView::RunHandler(i)),
        None => spec_finish(has_callback, ResponseView::Failure(DispatchError::HandleNotFound(key))),
    }
}

/// One later step of a dispatch: the phase and the event give the next phase
/// and action. An event that does not fit the phase changes nothing.
pub open spec fn spec_step(has_callback: bool, phase: PhaseView, ev: DispatchEvent) -> (PhaseView, ActionView) {
    match phase {
        PhaseView::AwaitingHandler(_) => match handler_response(ev) {
            Some(r) => spec_finish(has_callback, r),
            None => (phase, ActionView::Ignore),
        },
        PhaseView::AwaitingCallback(r) => if ev is CallbackFinished {
            (PhaseView::Done, ActionView::Complete(r))
        } else {
            (phase, ActionView::Ignore)
        },
        PhaseView::Done => (phase, ActionView::Ignore),
    }
}

/// The decisions of one dispatch of a request: look the key up, run the
/// handler, run the callback, return the response, in that order.
pub struct DispatchSession {
    key: u64,
    has_callback: bool,
    phase: DispatchPhase,
}

impl DispatchSession {
    pub closed spec fn spec_key(&self) -> u64 {
        self.key
    }

    pub closed spec fn spec_has_callback(&self) -> bool {
        self.has_callback
    }

    pub closed spec fn spec_phase(&self) -> PhaseView {
        self.phase@
    }

    fn finish(has_callback: bool, r: AFPluginEventResponse) -> (out: (DispatchPhase, DispatchAction))
        ensures
            (out.0@, out.1@) == spec_finish(has_callback, r@),
    {
        if has_callback {
            let kept = r.duplicate();
            (DispatchPhase::AwaitingCallback { response: kept }, DispatchAction::RunCallback(r))
        } else {
            (DispatchPhase::Done, DispatchAction::Complete(r))
        }
    }

    /// Starts the dispatch of a request with event key `key`: the plugin that
    /// owns the key is asked to handle it, or, where none does, the response
    /// is a `HandleNotFound` error that carries the key.
    pub fn start(registry: &AFPluginRegistry, key: u64, has_callback: bool) -> (out: (DispatchSession, DispatchAction))
        requires
            registry.wf(),
        ensures
            out.0.spec_key() == key,
            out.0.spec_has_callback() == has_callback,
            (out.0.spec_phase(), out.1@) == spec_start(registry.spec_lookup(key), key, has_callback),
    {
        match registry.lookup(key) {
            Some(i) => (
                DispatchSession { key, has_callback, phase: DispatchPhase::AwaitingHandler { plugin: i } },
                DispatchAction::RunHandler { plugin: i },
            ),
            None => {
                let (phase, action) = Self::finish(
                    has_callback,
                    AFPluginEventResponse::Failure(DispatchError::HandleNotFound(key)),
                );
                (DispatchSession { key, has_callback, phase }, action)
            },
        }
    }

    /// Takes what the runtime reports and says what to do next.
    pub fn on_event(&mut self, ev: DispatchEvent) -> (r: DispatchAction)
        ensures
            final(self).spec_key() == old(self).spec_key(),
            final(self).spec_has_callback() == old(self).spec_has_callback(),
            (final(self).spec_phase(), r@) == spec_step(old(self).spec_has_callback(), old(self).spec_phase(), ev),
    {
        let ghost ev0 = ev;
        match ev {
            DispatchEvent::CallbackFinished => {
                let mut phase = DispatchPhase::Done;
                std::mem::swap(&mut phase, &mut self.phase);
                match phase {
                    DispatchPhase::AwaitingCallback { response } => DispatchAction::Complete(response),
                    other => {
                        self.phase = other;
                        DispatchAction::Ignore
                    },
                }
            },
            DispatchEvent::HandlerReturned(res) => {
                if matches!(self.phase, DispatchPhase::AwaitingHandler { .. }) {
                    let r = match res {
                        Ok(p) => AFPluginEventResponse::Success(p),
                        Err(m) => AFPluginEventResponse::Failure(DispatchError::HandlerError(m)),
                    };
                    let (phase, action) = Self::finish(self.has_callback, r);
                    self.phase = phase;
                    action
                } else {
                    DispatchAction::Ignore
                }
            },
            DispatchEvent::FactoryFailed(m) => {
                if matches!(self.phase, DispatchPhase::AwaitingHandler { .. }) {
                    let r = AFPluginEventResponse::Failure(DispatchError::Internal(m));
                    let (phase, action) = Self::finish(self.has_callback, r);
                    self.phase = phase;
                    action
                } else {
                    DispatchAction::Ignore
                }
            },
        }
    }

    pub fn key(&self) -> (r: u64)
        ensures
            r == self.spec_key(),
    {
        self.key
    }

    pub fn is_done(&self) -> (r: bool)
        ensures
            r == (self.spec_phase() is Done),
    {
        matches!(self.phase, DispatchPhase::Done)
    }
}

/// The response a caller receives from the joined unit of work that ran the
/// dispatch: its response, or a join error where the backend failed.
pub fn settle_join(joined: Result<AFPluginEventResponse, String>) -> (r: AFPluginEventResponse)
    ensures
        match joined {
            Ok(resp) => r@ == resp@,
            Err(m) => r@ == ResponseView::Failure(DispatchError::JoinError(m)),
        },
{
    match joined {
        Ok(resp) => resp,
        Err(m) => AFPluginEventResponse::join_error(m),
    }
}

} // verus!
