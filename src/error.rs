use vstd::prelude::*;

verus! {

/// What an engine reports when it cannot render a template.
#[derive(Clone, Debug, PartialEq, Eq)]
pub enum EngineError {
    /// A syntax, missing-binding or runtime fault while executing the template.
    Render(String),
    /// The payload could not be interpreted by the engine.
    Payload(String),
}

/// The error of a render call, as the caller sees it.
#[derive(Clone, Debug, PartialEq, Eq)]
pub enum RenderError {
    /// The worker has stopped (the queue is closed) or cannot accept new work.
    EngineUnavailable,
    /// The descriptor could not be resolved to a template before the engine.
    TemplateNotFound,
    /// The engine reported a syntax, binding or runtime fault; holds its message.
    RenderFailure(String),
    /// The engine could not interpret the payload; holds its message.
    PayloadError(String),
}

/// The caller-side error for an engine error.
pub open spec fn engine_error_spec(e: EngineError) -> RenderError {
    match e {
        EngineError::Render(m) => RenderError::RenderFailure(m),
        EngineError::Payload(m) => RenderError::PayloadError(m),
    }
}

/// The caller-side view of an engine outcome.
pub open spec fn engine_outcome_spec(r: Result<String, EngineError>) -> Result<String, RenderError> {
    match r {
        Ok(s) => Ok(s),
        Err(e) => Err(engine_error_spec(e)),
    }
}

impl RenderError {
    /// Maps an engine error to the error that reaches the caller, keeping its message.
    pub fn from_engine(e: EngineError) -> (r: RenderError)
        ensures
            r == engine_error_spec(e),
    {
        match e {
            EngineError::Render(m) => RenderError::RenderFailure(m),
            EngineError::Payload(m) => RenderError::PayloadError(m),
        }
    }

    /// Whether this error means the worker cannot take work.
    pub fn is_unavailable(&self) -> (r: bool)
        ensures
            r == (*self == RenderError::EngineUnavailable),
    {
        match self {
            RenderError::EngineUnavailable => true,
            _ => false,
        }
    }
}

/// Maps an engine outcome to the outcome that reaches the caller.
pub fn engine_outcome(r: Result<String, EngineError>) -> (out: Result<String, RenderError>)
    ensures
        out == engine_outcome_spec(r),
{
    match r {
        Ok(s) => Ok(s),
        Err(e) => Err(RenderError::from_engine(e)),
    }
}

} // verus!
