//! Message interpretation and transaction dispatch for a blockchain application driven by a
//! consensus engine: decoding of the byte payloads of each phase (check, deliver, query,
//! genesis) with malformed input kept as data, query routing, genesis bootstrapping, and on
//! the submission side the broadcast modes and gap-free sequence numbers of one signer.
use vstd::prelude::*;

pub mod dispatch;
pub mod chain;
pub mod codec;
pub mod decoders;
pub mod genesis;
pub mod interpreter;
pub mod nonce;
pub mod proxy;
pub mod query;
pub mod reply;

verus! {

} // verus!
