use vstd::prelude::*;

verus! {

/// The machine-readable kind of an error response.
#[derive(Clone, Copy, Debug, PartialEq, Eq, Structural)]
pub enum ErrorKind {
    HandleNotFound,
    HandlerError,
    JoinError,
    Internal,
}

/// Every failure a dispatch can end in. None of them is raised to the caller:
/// each is carried in an error response.
#[derive(Clone, Debug, PartialEq, Eq)]
pub enum DispatchError {
    /// No plugin registers the request's event key; carries that key.
    HandleNotFound(u64),
    /// The matched handler reported a failure of its own domain.
    HandlerError(String),
    /// The spawned unit of work could not be joined.
    JoinError(String),
    /// Any other failure, such as one while building the handler.
    Internal(String),
}

/// The result of one dispatch: a success payload or an error.
#[derive(Clone, Debug, PartialEq, Eq)]
pub enum AFPluginEventResponse {
    Success(Vec<u8>),
    Failure(DispatchError),
}

/// What a response holds, with the payload as a sequence of bytes.
pub ghost enum ResponseView {
    Success(Seq<u8>),
    Failure(DispatchError),
}

impl View for AFPluginEventResponse {
    type V = ResponseView;

    open spec fn view(&self) -> ResponseView {
        match self {
            AFPluginEventResponse::Success(p) => ResponseView::Success(p@),
            AFPluginEventResponse::Failure(e) => ResponseView::Failure(*e),
        }
    }
}

impl DispatchError {
    pub open spec fn spec_kind(self) -> ErrorKind {
        match self {
            DispatchError::HandleNotFound(_) => ErrorKind::HandleNotFound,
            DispatchError::HandlerError(_) => ErrorKind::HandlerError,
            DispatchError::JoinError(_) => ErrorKind::JoinError,
            DispatchError::Internal(_) => ErrorKind::Internal,
        }
    }

    pub fn kind(&self) -> (r: ErrorKind)
        ensures
            r == self.spec_kind(),
    {
        match self {
            DispatchError::HandleNotFound(_) => ErrorKind::HandleNotFound,
            DispatchError::HandlerError(_) => ErrorKind::HandlerError,
            DispatchError::JoinError(_) => ErrorKind::JoinError,
            DispatchError::Internal(_) => ErrorKind::Internal,
        }
    }

    /// A copy of this error that is equal to it.
    pub fn duplicate(&self) -> (r: DispatchError)
        ensures
            r == *self,
    {
        match self {
            DispatchError::HandleNotFound(k) => DispatchError::HandleNotFound(*k),
            DispatchError::HandlerError(m) => DispatchError::HandlerError(m.clone()),
            DispatchError::JoinError(m) => DispatchError::JoinError(m.clone()),
            DispatchError::Internal(m) => DispatchError::Internal(m.clone()),
        }
    }
}

impl AFPluginEventResponse {
    pub fn is_success(&self) -> (r: bool)
        ensures
            r == (*self is Success),
    {
        match self {
            AFPluginEventResponse::Success(_) => true,
            AFPluginEventResponse::Failure(_) => false,
        }
    }

    /// A copy of this response that holds the same value, so that the
    /// callback and the caller can each have one.
    pub fn duplicate(&self) -> (r: AFPluginEventResponse)
        ensures
            r@ == self@,
    {
        match self {
            AFPluginEventResponse::Success(p) => {
                let mut q: Vec<u8> = Vec::new();
                let mut i: usize = 0;
                while i < p.len()
                    invariant
                        i <= p@.len(),
                        q@ == p@.subrange(0, i as int),
                    decreases p@.len() - i,
                {
                    q.push(p[i]);
                    i = i + 1;
                    proof {
                        assert(q@ =~= p@.subrange(0, i as int));
                    }
                }
                proof {
                    assert(q@ =~= p@);
                }
                AFPluginEventResponse::Success(q)
            },
            AFPluginEventResponse::Failure(e) => AFPluginEventResponse::Failure(e.duplicate()),
        }
    }

    /// The response that a failed join of the spawned dispatch turns into.
    pub fn join_error(message: String) -> (r: AFPluginEventResponse)
        ensures
            r@ == ResponseView::Failure(DispatchError::JoinError(message)),
    {
        AFPluginEventResponse::Failure(DispatchError::JoinError(message))
    }
}

} // verus!
