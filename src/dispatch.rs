//! Submitting a transaction under one of three consistency modes, and the one tagged
//! result that the three kinds of response are normalised into.
use vstd::prelude::*;

verus! {

/// How long a submission waits for the consensus engine.
#[derive(Debug, Copy, Clone, PartialEq, Eq, PartialOrd, Ord, Structural)]
pub enum BroadcastMode {
    /// Do no wait for the results.
    Async,
    /// Wait for the result of `check_tx`.
    Sync,
    /// Wait for the result of `deliver_tx`.
    Commit,
}

/// The response to a submission. `R` is the engine's acknowledgment; only a committed
/// transaction has run to completion, so only `Commit` can carry a decoded payload `T`.
#[derive(Debug, Clone, PartialEq, Eq)]
pub enum BroadcastResponse<R, T> {
    Async(R),
    Sync(R),
    Commit(R, Option<T>),
}

impl<R, T> BroadcastResponse<R, T> {
    /// The mode that the response answers.
    pub open spec fn spec_mode(&self) -> BroadcastMode {
        match self {
            BroadcastResponse::Async(_) => BroadcastMode::Async,
            BroadcastResponse::Sync(_) => BroadcastMode::Sync,
            BroadcastResponse::Commit(_, _) => BroadcastMode::Commit,
        }
    }

    /// The engine's acknowledgment.
    pub open spec fn spec_response(&self) -> R {
        match self {
            BroadcastResponse::Async(r) => *r,
            BroadcastResponse::Sync(r) => *r,
            BroadcastResponse::Commit(r, _) => *r,
        }
    }

    /// The decoded business payload, if any.
    pub open spec fn spec_return_data(&self) -> Option<T> {
        match self {
            BroadcastResponse::Commit(_, d) => *d,
            _ => None,
        }
    }

    #[verifier::when_used_as_spec(spec_mode)]
    pub fn mode(&self) -> (r: BroadcastMode)
        ensures
            r == self.spec_mode(),
    {
        match self {
            BroadcastResponse::Async(_) => BroadcastMode::Async,
            BroadcastResponse::Sync(_) => BroadcastMode::Sync,
            BroadcastResponse::Commit(_, _) => BroadcastMode::Commit,
        }
    }

    pub fn response(&self) -> (r: &R)
        ensures
            *r == self.spec_response(),
    {
        match self {
            BroadcastResponse::Async(r) => r,
            BroadcastResponse::Sync(r) => r,
            BroadcastResponse::Commit(r, _) => r,
        }
    }

    pub fn return_data(&self) -> (r: Option<&T>)
        ensures
            r is Some <==> self.spec_return_data() is Some,
            r is Some ==> *r->Some_0 == self.spec_return_data()->Some_0,
    {
        match self {
            BroadcastResponse::Commit(_, Some(d)) => Some(d),
            _ => None,
        }
    }
}

/// Builds the response to a submission made under `mode`, from the engine's acknowledgment
/// and the raw output of the execution, if the engine returned one. The decoder runs only
/// under `Commit`, and only where both a raw output and a decoder are present; a missing
/// output gives no payload, not an error.
pub fn respond<R, B, T, G>(mode: BroadcastMode, ack: R, raw: Option<B>, decoder: Option<G>) -> (r:
    BroadcastResponse<R, T>) where G: FnOnce(B) -> T
    requires
        mode == BroadcastMode::Commit && raw is Some && decoder is Some ==> decoder->Some_0.requires(
            (raw->Some_0,),
        ),
    ensures
        r.spec_mode() == mode,
        r.spec_response() == ack,
        r.spec_return_data() is Some <==> (mode == BroadcastMode::Commit && raw is Some
            && decoder is Some),
        r.spec_return_data() is Some ==> decoder->Some_0.ensures(
            (raw->Some_0,),
            r.spec_return_data()->Some_0,
        ),
{
    match mode {
        BroadcastMode::Async => BroadcastResponse::Async(ack),
        BroadcastMode::Sync => BroadcastResponse::Sync(ack),
        BroadcastMode::Commit => match (raw, decoder) {
            (Some(b), Some(g)) => BroadcastResponse::Commit(ack, Some(g(b))),
            _ => BroadcastResponse::Commit(ack, None),
        },
    }
}

} // verus!
