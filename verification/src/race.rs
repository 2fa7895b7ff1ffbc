//! The race between a request and its timeout: what the first branch to
//! settle means for the caller.

use crate::errors::FixerioError;
use vstd::prelude::*;
use vstd::std_specs::convert::FromSpec;

verus! {

/// How the first branch of the race settled.
#[derive(Debug)]
pub enum Settled<T> {
    /// The timer ran out.
    TimerFired,
    /// The timer could not be scheduled, or failed while it ran.
    TimerFailed(std::io::Error),
    /// The request came back with a value.
    Fetched(T),
    /// The request failed.
    FetchFailed(FixerioError),
}

impl<T> Settled<T> {
    /// How the timer branch settled: it ran out, or it failed.
    pub fn timer(fired: Result<(), std::io::Error>) -> (first: Self)
        ensures
            first == (match fired {
                Ok(_) => Settled::<T>::TimerFired,
                Err(e) => Settled::<T>::TimerFailed(e),
            }),
    {
        match fired {
            Ok(_) => Settled::TimerFired,
            Err(e) => Settled::TimerFailed(e),
        }
    }

    /// How the request branch settled: with a value, or with a failure.
    pub fn fetch(fetched: Result<T, FixerioError>) -> (first: Self)
        ensures
            first == (match fetched {
                Ok(value) => Settled::Fetched(value),
                Err(e) => Settled::FetchFailed(e),
            }),
    {
        match fetched {
            Ok(value) => Settled::Fetched(value),
            Err(e) => Settled::FetchFailed(e),
        }
    }
}

/// What the caller gets when `first` is the branch that settled first: the
/// value if the request won, nothing if the timer won, and the failure of
/// whichever branch failed.
pub open spec fn outcome_of<T>(first: Settled<T>) -> Result<Option<T>, FixerioError> {
    match first {
        Settled::TimerFired => Ok(None),
        Settled::TimerFailed(e) => Err(FixerioError::Timer(e)),
        Settled::Fetched(value) => Ok(Some(value)),
        Settled::FetchFailed(e) => Err(e),
    }
}

/// Decides the race from the branch that settled first. The other branch is
/// dropped by the caller and plays no part.
pub fn race_outcome<T>(first: Settled<T>) -> (out: Result<Option<T>, FixerioError>)
    ensures
        out == outcome_of(first),
{
    match first {
        Settled::TimerFired => Ok(None),
        Settled::TimerFailed(e) => Err(FixerioError::Timer(e)),
        Settled::Fetched(value) => Ok(Some(value)),
        Settled::FetchFailed(e) => Err(e),
    }
}

/// A transport failure of the request comes out as a transport error, holding
/// the failure itself, whether or not the request runs against a timer.
pub proof fn law_transport_failure_surfaces<T>(failure: hyper::Error)
    ensures
        FixerioError::from_spec(failure) == FixerioError::Transport(failure),
        outcome_of::<T>(Settled::FetchFailed(FixerioError::from_spec(failure))) == Err::<
            Option<T>,
            FixerioError,
        >(FixerioError::Transport(failure)),
{
}

/// A body that does not decode comes out as a parse error, holding the
/// decoder's own error, whether or not the request runs against a timer.
pub proof fn law_decode_failure_surfaces<T>(failure: serde_json::Error)
    ensures
        FixerioError::from_spec(failure) == FixerioError::Parse(failure),
        outcome_of::<T>(Settled::FetchFailed(FixerioError::from_spec(failure))) == Err::<
            Option<T>,
            FixerioError,
        >(FixerioError::Parse(failure)),
{
}

/// The timer running out is no error, and the only way to an absent result:
/// the race gives `Ok(None)` exactly when the timer fired first.
pub proof fn law_timeout_is_not_an_error<T>(first: Settled<T>)
    ensures
        outcome_of(first) == Ok::<Option<T>, FixerioError>(None) <==> first is TimerFired,
        outcome_of(first) is Err <==> first is TimerFailed || first is FetchFailed,
{
}

} // verus!
