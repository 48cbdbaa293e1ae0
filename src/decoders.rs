//! Checks of CBOR payloads, made by the IPLD encoding crate.
use vstd::prelude::*;

verus! {

/// Whether the bytes hold exactly one well-formed CBOR item. Any CBOR is accepted here, not
/// only its DAG-CBOR subset: floats, `undefined`, indefinite lengths and any tag pass too.
pub uninterp spec fn is_cbor_item(b: Seq<u8>) -> bool;

/// Whether the bytes hold exactly the DAG-CBOR encoding of a content identifier.
pub uninterp spec fn is_cid_encoding(b: Seq<u8>) -> bool;

/// Whether the bytes hold exactly the DAG-CBOR encoding of an actor address.
pub uninterp spec fn is_address_encoding(b: Seq<u8>) -> bool;

/// Whether the bytes hold exactly the DAG-CBOR encoding of an unsigned execution message.
pub uninterp spec fn is_message_encoding(b: Seq<u8>) -> bool;

/// Relies on `fvm_ipld_encoding::from_slice` into `serde::de::IgnoredAny`: it succeeds
/// exactly when one CBOR item, of any kind, can be skipped and no bytes follow it.
#[verifier::external_body]
pub(crate) fn check_cbor_item(b: &[u8]) -> (r: bool)
    ensures
        r == is_cbor_item(b@),
{
    fvm_ipld_encoding::from_slice::<fvm_ipld_encoding::de::IgnoredAny>(b).is_ok()
}

/// Relies on `fvm_ipld_encoding::from_slice` into `cid::Cid`: it succeeds exactly when
/// the bytes are one content identifier and nothing after it.
#[verifier::external_body]
pub(crate) fn check_cid(b: &[u8]) -> (r: bool)
    ensures
        r == is_cid_encoding(b@),
{
    fvm_ipld_encoding::from_slice::<cid::Cid>(b).is_ok()
}

/// Relies on `fvm_ipld_encoding::from_slice` into `fvm_shared::address::Address`: it
/// succeeds exactly when the bytes are one address and nothing after it.
#[verifier::external_body]
pub(crate) fn check_address(b: &[u8]) -> (r: bool)
    ensures
        r == is_address_encoding(b@),
{
    fvm_ipld_encoding::from_slice::<fvm_shared::address::Address>(b).is_ok()
}

/// Relies on `fvm_ipld_encoding::from_slice` into `fvm_shared::message::Message`: it
/// succeeds exactly when the bytes are one message and nothing after it.
#[verifier::external_body]
pub(crate) fn check_message(b: &[u8]) -> (r: bool)
    ensures
        r == is_message_encoding(b@),
{
    fvm_ipld_encoding::from_slice::<fvm_shared::message::Message>(b).is_ok()
}

} // verus!
