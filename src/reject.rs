//! Recovering a policy rejection from a nested error value.
use vstd::prelude::*;

verus! {

/// A policy decision to refuse a command, with the reply to send.
#[derive(Debug, PartialEq, Eq)]
pub struct RejectError {
    /// Three-digit reply code.
    pub code: u16,
    /// Text of the reply.
    pub message: String,
}

impl View for RejectError {
    type V = (u16, Seq<char>);

    open spec fn view(&self) -> (u16, Seq<char>) {
        (self.code, self.message@)
    }
}

impl Clone for RejectError {
    fn clone(&self) -> (r: Self)
        ensures
            r@ == self@,
    {
        RejectError { code: self.code, message: self.message.clone() }
    }
}

/// An error raised while running a policy hook, layer by layer.
///
/// Host errors either carry a cause (`Wrapped`), are a rejection, or end the
/// chain (`Other`). Errors of the policy engine are `EngineCallback`, which
/// wraps the engine error that a callback raised, `EngineExternal`, which wraps
/// a host error, and `EngineOther`.
#[derive(Debug)]
pub enum PolicyError {
    Reject(RejectError),
    Wrapped(String, Box<PolicyError>),
    Other(String),
    EngineCallback(Box<PolicyError>),
    EngineExternal(Box<PolicyError>),
    EngineOther(String),
}

pub open spec fn opt_view(r: Option<RejectError>) -> Option<(u16, Seq<char>)> {
    match r {
        Some(x) => Some(x@),
        None => None,
    }
}

/// The rejection found by walking a host error and its causes.
pub open spec fn host_reject(e: PolicyError) -> Option<(u16, Seq<char>)>
    decreases e,
{
    match e {
        PolicyError::Wrapped(_, cause) => host_reject(*cause),
        PolicyError::Reject(r) => Some(r@),
        PolicyError::Other(_) => None,
        PolicyError::EngineCallback(_) => engine_reject(e),
        PolicyError::EngineExternal(_) => engine_reject(e),
        PolicyError::EngineOther(_) => None,
    }
}

/// The rejection found by unwrapping an engine error.
pub open spec fn engine_reject(e: PolicyError) -> Option<(u16, Seq<char>)>
    decreases e, 0int,
{
    match e {
        PolicyError::EngineCallback(cause) => engine_reject(*cause),
        PolicyError::EngineExternal(inner) => host_reject(*inner),
        _ => None,
    }
}

/// The last error of the cause chain.
pub open spec fn root_cause_spec(e: PolicyError) -> PolicyError
    decreases e,
{
    match e {
        PolicyError::Wrapped(_, cause) => root_cause_spec(*cause),
        _ => e,
    }
}

impl PolicyError {
    /// The last error of the cause chain.
    pub fn root_cause(&self) -> (r: &PolicyError)
        ensures
            *r == root_cause_spec(*self),
        decreases self,
    {
        match self {
            PolicyError::Wrapped(_, cause) => cause.root_cause(),
            _ => self,
        }
    }
}

impl RejectError {
    /// Unwraps an engine error: through callback layers, and into the host
    /// error that an external layer holds.
    pub fn from_lua(err: &PolicyError) -> (r: Option<RejectError>)
        ensures
            opt_view(r) == engine_reject(*err),
        decreases err, 0int,
    {
        match err {
            PolicyError::EngineCallback(cause) => RejectError::from_lua(cause),
            PolicyError::EngineExternal(inner) => RejectError::from_std_error(inner),
            _ => None,
        }
    }

    /// Walks a host error's causes to a rejection.
    pub fn from_std_error(err: &PolicyError) -> (r: Option<RejectError>)
        ensures
            opt_view(r) == host_reject(*err),
        decreases err,
    {
        match err {
            PolicyError::Wrapped(_, cause) => RejectError::from_std_error(cause),
            PolicyError::Reject(rej) => Some(rej.clone()),
            PolicyError::Other(_) => None,
            PolicyError::EngineOther(_) => None,
            _ => RejectError::from_lua(err),
        }
    }

    /// The rejection that an error raised by a policy hook carries, if any.
    pub fn from_anyhow(err: &PolicyError) -> (r: Option<RejectError>)
        ensures
            opt_view(r) == host_reject(root_cause_spec(*err)),
            opt_view(r) == host_reject(*err),
    {
        proof {
            lemma_root_cause_keeps_reject(*err);
        }
        RejectError::from_std_error(err.root_cause())
    }
}

pub open spec fn verdict_spec(outcome: Result<(), PolicyError>) -> Option<
    Result<Option<(u16, Seq<char>)>, PolicyError>,
> {
    match outcome {
        Ok(_) => Some(Ok(None)),
        Err(e) => match host_reject(e) {
            Some(r) => Some(Ok(Some(r))),
            None => Some(Err(e)),
        },
    }
}

pub open spec fn verdict_view(v: Result<Result<(), RejectError>, PolicyError>) -> Option<
    Result<Option<(u16, Seq<char>)>, PolicyError>,
> {
    match v {
        Ok(Ok(_)) => Some(Ok(None)),
        Ok(Err(r)) => Some(Ok(Some(r@))),
        Err(e) => Some(Err(e)),
    }
}

/// Turns what running a policy hook gave into a decision: `Ok(Ok(()))` to
/// proceed (a hook that is not defined proceeds too), `Ok(Err(r))` when the
/// error carries a rejection `r`, and the error itself, which ends the
/// connection, otherwise.
pub fn policy_verdict(outcome: Result<(), PolicyError>) -> (r: Result<
    Result<(), RejectError>,
    PolicyError,
>)
    ensures
        verdict_view(r) == verdict_spec(outcome),
{
    match outcome {
        Ok(()) => Ok(Ok(())),
        Err(e) => match RejectError::from_anyhow(&e) {
            Some(rej) => Ok(Err(rej)),
            None => Err(e),
        },
    }
}

/// Going to the root of the cause chain first finds the same rejection.
pub proof fn lemma_root_cause_keeps_reject(e: PolicyError)
    ensures
        host_reject(root_cause_spec(e)) == host_reject(e),
    decreases e,
{
    if let PolicyError::Wrapped(_, cause) = e {
        lemma_root_cause_keeps_reject(*cause);
    }
}

/// A rejection under an engine wrapper around a host wrapper is recovered as
/// that same rejection.
pub proof fn lemma_nested_reject_recovered(r: RejectError, host_text: String)
    ensures
        host_reject(
            PolicyError::EngineCallback(
                Box::new(
                    PolicyError::EngineExternal(
                        Box::new(
                            PolicyError::Wrapped(host_text, Box::new(PolicyError::Reject(r))),
                        ),
                    ),
                ),
            ),
        ) == Some(r@),
{
    let leaf = PolicyError::Reject(r);
    assert(host_reject(leaf) == Some(r@));
    let inner = PolicyError::Wrapped(host_text, Box::new(leaf));
    assert(host_reject(inner) == Some(r@));
    let ext = PolicyError::EngineExternal(Box::new(inner));
    assert(engine_reject(ext) == Some(r@));
    let cb = PolicyError::EngineCallback(Box::new(ext));
    assert(engine_reject(cb) == Some(r@));
}

} // verus!
