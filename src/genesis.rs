//! Reading the initial configuration of the chain, as text first and as binary second.
use vstd::prelude::*;
use vstd::string::StringExecFns;

verus! {

/// Both readings of a genesis failed; each keeps its own diagnostic.
#[derive(Debug, Clone, PartialEq, Eq)]
pub struct GenesisError {
    /// Why the textual (JSON) reading failed.
    pub json: String,
    /// Why the binary (CBOR) reading failed.
    pub cbor: String,
}

/// The one diagnostic that names both failures.
pub open spec fn genesis_message(json: Seq<char>, cbor: Seq<char>) -> Seq<char> {
    "failed to deserialize genesis as JSON or CBOR: "@ + json + "; "@ + cbor
}

impl GenesisError {
    /// The diagnostic, with the textual failure first and the binary one second.
    pub fn message(&self) -> (r: String)
        ensures
            r@ == genesis_message(self.json@, self.cbor@),
    {
        let mut m = String::from_str("failed to deserialize genesis as JSON or CBOR: ");
        m.append(self.json.as_str());
        m.append("; ");
        m.append(self.cbor.as_str());
        m
    }
}

/// Reads a genesis with `json`, and only if that fails with `cbor`. The first reading that
/// succeeds gives the result; where both fail, the error keeps both diagnostics.
pub fn parse_genesis<G, J, C>(bytes: &[u8], json: J, cbor: C) -> (r: Result<G, GenesisError>)
    where
        J: FnOnce(&[u8]) -> Result<G, String>,
        C: FnOnce(&[u8]) -> Result<G, String>,
    requires
        json.requires((bytes,)),
        cbor.requires((bytes,)),
    ensures
        r is Ok ==> json.ensures((bytes,), Ok::<G, String>(r->Ok_0)) || (exists|e: String|
            json.ensures((bytes,), Err::<G, String>(e))) && cbor.ensures(
            (bytes,),
            Ok::<G, String>(r->Ok_0),
        ),
        r is Err ==> json.ensures((bytes,), Err::<G, String>(r->Err_0.json)) && cbor.ensures(
            (bytes,),
            Err::<G, String>(r->Err_0.cbor),
        ),
        (forall|o: Result<G, String>| json.ensures((bytes,), o) ==> o is Ok) ==> r is Ok
            && json.ensures((bytes,), Ok::<G, String>(r->Ok_0)),
        (forall|o: Result<G, String>| json.ensures((bytes,), o) ==> o is Err) && (forall|
            o: Result<G, String>,
        | cbor.ensures((bytes,), o) ==> o is Ok) ==> r is Ok && cbor.ensures(
            (bytes,),
            Ok::<G, String>(r->Ok_0),
        ),
{
    match json(bytes) {
        Ok(g) => Ok(g),
        Err(e1) => match cbor(bytes) {
            Ok(g) => Ok(g),
            Err(e2) => Err(GenesisError { json: e1, cbor: e2 }),
        },
    }
}

} // verus!
