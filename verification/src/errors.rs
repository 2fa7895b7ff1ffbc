//! The one error type of the library: which layer failed, with that layer's
//! own error inside.

use vstd::prelude::*;
use vstd::std_specs::convert::FromSpecImpl;

verus! {

/// hyper's error: what the HTTP layer reports. Opaque here, carried through.
#[verifier::external_type_specification]
#[verifier::external_body]
pub struct ExHyperError(hyper::Error);

/// serde_json's error: what the decoder reports. Opaque here, carried through.
#[verifier::external_type_specification]
#[verifier::external_body]
pub struct ExJsonError(serde_json::Error);

/// std's I/O error: what the event loop and its timers report. Opaque here,
/// carried through.
#[verifier::external_type_specification]
#[verifier::external_body]
pub struct ExIoError(std::io::Error);

/// Why a request gave no result.
#[derive(Debug)]
pub enum FixerioError {
    /// The HTTP layer failed: no connection, a broken exchange, an early close.
    Transport(hyper::Error),
    /// The body arrived but is not the JSON that was expected.
    Parse(serde_json::Error),
    /// The execution context could not be created.
    Setup(std::io::Error),
    /// The timer of a timeout could not be scheduled, or failed while it ran.
    Timer(std::io::Error),
}

impl From<hyper::Error> for FixerioError {
    fn from(e: hyper::Error) -> (err: FixerioError) {
        FixerioError::Transport(e)
    }
}

impl FromSpecImpl<hyper::Error> for FixerioError {
    open spec fn obeys_from_spec() -> bool {
        true
    }

    open spec fn from_spec(e: hyper::Error) -> FixerioError {
        FixerioError::Transport(e)
    }
}

impl From<serde_json::Error> for FixerioError {
    fn from(e: serde_json::Error) -> (err: FixerioError) {
        FixerioError::Parse(e)
    }
}

impl FromSpecImpl<serde_json::Error> for FixerioError {
    open spec fn obeys_from_spec() -> bool {
        true
    }

    open spec fn from_spec(e: serde_json::Error) -> FixerioError {
        FixerioError::Parse(e)
    }
}

} // verus!
