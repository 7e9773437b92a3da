//! Evaluation of JavaScript in a document: the evaluator interface that
//! platforms implement, the handle that callers hold, and the evaluator of a
//! document that cannot run scripts.
use vstd::prelude::*;

verus! {

/// A JSON value exchanged with a running script (`serde_json::Value`).
#[verifier::external_type_specification]
#[verifier::external_body]
pub struct ExJsonValue(serde_json::Value);

/// Why an evaluation could not give a result.
#[derive(Debug, PartialEq, Eq)]
pub enum EvalError {
    /// The platform cannot evaluate JavaScript.
    Unsupported,
    /// The evaluation has already finished.
    Finished,
    /// The script was not valid JavaScript.
    InvalidJs(String),
    /// Messages could not be passed to or from the script.
    Communication(String),
}

/// The state of an evaluation when it is polled.
#[derive(Debug, PartialEq, Eq)]
pub enum EvalPoll<T> {
    /// The evaluation has produced this.
    Ready(T),
    /// Nothing is available yet.
    Pending,
}

/// A running evaluation of JavaScript, as a platform implements it.
pub trait Evaluator {
    /// Sends a value to the script.
    fn send(&self, data: serde_json::Value) -> Result<(), EvalError>;

    /// Polls for the next value that the script sends.
    fn poll_recv(&mut self) -> EvalPoll<Result<serde_json::Value, EvalError>>;

    /// Polls for the value the script finishes with.
    fn poll_join(&mut self) -> EvalPoll<Result<serde_json::Value, EvalError>>;
}

/// The evaluator behind a handle: the one of a document that cannot run
/// scripts, or a platform's.
enum EvalBackend {
    Unsupported(NoOpEvaluator),
    Platform(Box<dyn Evaluator>),
}

/// A handle to a running evaluation, through which a caller sends values to
/// the script and awaits what it sends back and what it finishes with.
pub struct Eval {
    backend: EvalBackend,
}

impl Eval {
    /// A handle to the evaluation that a platform's evaluator runs.
    pub fn new(evaluator: Box<dyn Evaluator>) -> (eval: Self)
        ensures
            !eval.is_unsupported(),
    {
        Eval { backend: EvalBackend::Platform(evaluator) }
    }

    /// A handle to an evaluation that cannot run: every request is answered
    /// with [`EvalError::Unsupported`].
    pub fn unsupported() -> (eval: Self)
        ensures
            eval.is_unsupported(),
    {
        Eval { backend: EvalBackend::Unsupported(NoOpEvaluator) }
    }

    /// Whether the handle is that of an evaluation that cannot run, made by
    /// [`Eval::unsupported`], whose every request is answered with
    /// [`EvalError::Unsupported`].
    pub closed spec fn is_unsupported(&self) -> bool {
        self.backend is Unsupported
    }

    /// Sends a value to the script.
    pub fn send(&self, data: serde_json::Value) -> (r: Result<(), EvalError>)
        ensures
            self.is_unsupported() ==> r == Err::<(), EvalError>(EvalError::Unsupported),
    {
        match &self.backend {
            EvalBackend::Unsupported(evaluator) => evaluator.send(data),
            EvalBackend::Platform(evaluator) => evaluator.send(data),
        }
    }

    /// Polls for the next value that the script sends.
    pub fn poll_recv(&mut self) -> (r: EvalPoll<Result<serde_json::Value, EvalError>>)
        ensures
            final(self).is_unsupported() == old(self).is_unsupported(),
            old(self).is_unsupported() ==> r == EvalPoll::Ready(
                Err::<serde_json::Value, EvalError>(EvalError::Unsupported),
            ),
    {
        match &mut self.backend {
            EvalBackend::Unsupported(evaluator) => evaluator.poll_recv(),
            EvalBackend::Platform(evaluator) => evaluator.poll_recv(),
        }
    }

    /// Polls for the value the script finishes with.
    pub fn poll_join(&mut self) -> (r: EvalPoll<Result<serde_json::Value, EvalError>>)
        ensures
            final(self).is_unsupported() == old(self).is_unsupported(),
            old(self).is_unsupported() ==> r == EvalPoll::Ready(
                Err::<serde_json::Value, EvalError>(EvalError::Unsupported),
            ),
    {
        match &mut self.backend {
            EvalBackend::Unsupported(evaluator) => evaluator.poll_join(),
            EvalBackend::Platform(evaluator) => evaluator.poll_join(),
        }
    }
}

/// The evaluator of a document that cannot run scripts: every request is
/// answered with [`EvalError::Unsupported`].
pub struct NoOpEvaluator;

impl Evaluator for NoOpEvaluator {
    fn send(&self, _data: serde_json::Value) -> (r: Result<(), EvalError>)
        ensures
            r == Err::<(), EvalError>(EvalError::Unsupported),
    {
        Err(EvalError::Unsupported)
    }

    fn poll_recv(&mut self) -> (r: EvalPoll<Result<serde_json::Value, EvalError>>)
        ensures
            r == EvalPoll::Ready(Err::<serde_json::Value, EvalError>(EvalError::Unsupported)),
    {
        EvalPoll::Ready(Err(EvalError::Unsupported))
    }

    fn poll_join(&mut self) -> (r: EvalPoll<Result<serde_json::Value, EvalError>>)
        ensures
            r == EvalPoll::Ready(Err::<serde_json::Value, EvalError>(EvalError::Unsupported)),
    {
        EvalPoll::Ready(Err(EvalError::Unsupported))
    }
}

} // verus!
