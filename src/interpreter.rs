//! The phase adapter: an interpreter that takes raw bytes from the consensus engine, decodes
//! them, and hands typed messages and queries to an inner interpreter.
use vstd::prelude::*;
use core::marker::PhantomData;
use crate::chain::{chain_decoding, ChainMessage, ChainTag};
use crate::codec::DecodeError;
use crate::genesis::{parse_genesis, GenesisError};
use crate::query::{query_routing, route_query, FvmQuery, QueryTag};

verus! {

/// A failure of the inner interpreter itself, as opposed to a malformed input.
#[derive(Debug, Clone, PartialEq, Eq)]
pub struct InterpreterError {
    pub message: String,
}

/// Why initialising from a genesis failed.
#[derive(Debug, Clone, PartialEq, Eq)]
pub enum InitError {
    /// The genesis could be read neither as text nor as binary.
    Genesis(GenesisError),
    /// The inner interpreter failed.
    Inner(InterpreterError),
}

/// An interpreter over typed envelopes and queries, with the four capabilities that the
/// consensus engine drives: check, deliver (between begin and end), query and genesis.
///
/// Each capability comes with a relation that an implementation may define: which results
/// it gives on which arguments. By default a relation admits every result; an implementation
/// that narrows it proves its methods against it. The byte-level adapter is specified through
/// these relations, so what it promises is as precise as the inner interpreter's own.
pub trait ChainInterpreter {
    type State;
    type Genesis;
    type GenesisOutput;
    type BeginOutput;
    type DeliverOutput;
    type EndOutput;
    type CheckOutput;
    type QueryOutput;

    /// The results that starting a block may give.
    open spec fn begins(
        &self,
        state: Self::State,
        r: Result<(Self::State, Self::BeginOutput), InterpreterError>,
    ) -> bool {
        true
    }

    /// The results that delivering an envelope may give.
    open spec fn delivers(
        &self,
        state: Self::State,
        msg: (ChainTag, Seq<u8>),
        r: Result<(Self::State, Self::DeliverOutput), InterpreterError>,
    ) -> bool {
        true
    }

    /// The results that ending a block may give.
    open spec fn ends(
        &self,
        state: Self::State,
        r: Result<(Self::State, Self::EndOutput), InterpreterError>,
    ) -> bool {
        true
    }

    /// The results that checking an envelope may give.
    open spec fn checks(
        &self,
        state: Self::State,
        msg: (ChainTag, Seq<u8>),
        is_recheck: bool,
        r: Result<(Self::State, Self::CheckOutput), InterpreterError>,
    ) -> bool {
        true
    }

    /// The results that answering a query may give.
    open spec fn answers(
        &self,
        state: Self::State,
        qry: (QueryTag, Seq<u8>),
        r: Result<(Self::State, Self::QueryOutput), InterpreterError>,
    ) -> bool {
        true
    }

    /// The results that initialising from a genesis may give.
    open spec fn inits(
        &self,
        state: Self::State,
        genesis: Self::Genesis,
        r: Result<(Self::State, Self::GenesisOutput), InterpreterError>,
    ) -> bool {
        true
    }

    fn begin(&self, state: Self::State) -> (r: Result<(Self::State, Self::BeginOutput), InterpreterError>)
        ensures
            self.begins(state, r),
    ;

    fn deliver(&self, state: Self::State, msg: ChainMessage) -> (r: Result<
        (Self::State, Self::DeliverOutput),
        InterpreterError,
    >)
        ensures
            self.delivers(state, msg@, r),
    ;

    fn end(&self, state: Self::State) -> (r: Result<(Self::State, Self::EndOutput), InterpreterError>)
        ensures
            self.ends(state, r),
    ;

    fn check(&self, state: Self::State, msg: ChainMessage, is_recheck: bool) -> (r: Result<
        (Self::State, Self::CheckOutput),
        InterpreterError,
    >)
        ensures
            self.checks(state, msg@, is_recheck, r),
    ;

    fn query(&self, state: Self::State, qry: FvmQuery) -> (r: Result<
        (Self::State, Self::QueryOutput),
        InterpreterError,
    >)
        ensures
            self.answers(state, qry@, r),
    ;

    fn init(&self, state: Self::State, genesis: Self::Genesis) -> (r: Result<
        (Self::State, Self::GenesisOutput),
        InterpreterError,
    >)
        ensures
            self.inits(state, genesis, r),
    ;
}

/// The adapter's answer to a payload that decoded: the inner result with its output wrapped
/// as `Ok`, or the inner failure unchanged.
pub open spec fn forwarded<S, O>(
    inner: Result<(S, O), InterpreterError>,
    r: Result<(S, Result<O, DecodeError>), InterpreterError>,
) -> bool {
    match inner {
        Ok((s, o)) => r == Ok::<(S, Result<O, DecodeError>), InterpreterError>((s, Ok(o))),
        Err(e) => r == Err::<(S, Result<O, DecodeError>), InterpreterError>(e),
    }
}

/// The adapter's answer to a payload that did not decode: the state unchanged and the
/// decoding error as data.
pub open spec fn rejected<S, O>(
    state: S,
    e: DecodeError,
    r: Result<(S, Result<O, DecodeError>), InterpreterError>,
) -> bool {
    r == Ok::<(S, Result<O, DecodeError>), InterpreterError>((state, Err(e)))
}

/// Whether `g` is what the genesis readers give: the textual reading, or where that failed,
/// the binary one.
pub open spec fn genesis_read<G, J: FnOnce(&[u8]) -> Result<G, String>, C: FnOnce(&[u8]) -> Result<G, String>>(
    genesis: &[u8],
    json: J,
    cbor: C,
    g: G,
) -> bool {
    json.ensures((genesis,), Ok::<G, String>(g)) || (exists|e: String|
        json.ensures((genesis,), Err::<G, String>(e))) && cbor.ensures((genesis,), Ok::<G, String>(g))
}

/// Interpreter working on raw bytes. A payload that does not decode is answered with the
/// decoding error as data, never with a failure; only an unreadable genesis is fatal.
#[derive(Clone)]
pub struct BytesMessageInterpreter<I> {
    pub inner: I,
}

impl<I> BytesMessageInterpreter<I> {
    pub fn new(inner: I) -> (r: Self)
        ensures
            r.inner == inner,
    {
        BytesMessageInterpreter { inner }
    }
}

impl<I: ChainInterpreter> BytesMessageInterpreter<I> {
    /// Starts a block on the inner interpreter and returns its result.
    pub fn begin(&self, state: I::State) -> (r: Result<(I::State, I::BeginOutput), InterpreterError>)
        ensures
            self.inner.begins(state, r),
    {
        self.inner.begin(state)
    }

    /// Ends a block on the inner interpreter and returns its result.
    pub fn end(&self, state: I::State) -> (r: Result<(I::State, I::EndOutput), InterpreterError>)
        ensures
            self.inner.ends(state, r),
    {
        self.inner.end(state)
    }

    /// Delivers the bytes of an envelope that a block includes. Bytes that decode are handed
    /// to the inner interpreter as the decoded envelope.
    pub fn deliver(&self, state: I::State, msg: Vec<u8>) -> (r: Result<
        (I::State, Result<I::DeliverOutput, DecodeError>),
        InterpreterError,
    >)
        ensures
            chain_decoding(msg@) is Err ==> rejected(state, chain_decoding(msg@)->Err_0, r),
            chain_decoding(msg@) is Ok ==> exists|r0|
                #![trigger self.inner.delivers(state, chain_decoding(msg@)->Ok_0, r0)]
                self.inner.delivers(state, chain_decoding(msg@)->Ok_0, r0) && forwarded(r0, r),
    {
        match ChainMessage::decode(msg.as_slice()) {
            Err(e) => Ok((state, Err(e))),
            Ok(m) => {
                let ghost st = state;
                let res = self.inner.deliver(state, m);
                let r = match res {
                    Ok((state, ret)) => Ok((state, Ok(ret))),
                    Err(e) => Err(e),
                };
                assert(self.inner.delivers(st, chain_decoding(msg@)->Ok_0, res) && forwarded(res, r));
                r
            },
        }
    }

    /// Checks the bytes of an envelope before it enters the mempool. Bytes that decode are
    /// handed to the inner interpreter as the decoded envelope, with `is_recheck` unchanged.
    pub fn check(&self, state: I::State, msg: Vec<u8>, is_recheck: bool) -> (r: Result<
        (I::State, Result<I::CheckOutput, DecodeError>),
        InterpreterError,
    >)
        ensures
            chain_decoding(msg@) is Err ==> rejected(state, chain_decoding(msg@)->Err_0, r),
            chain_decoding(msg@) is Ok ==> exists|r0|
                #![trigger self.inner.checks(state, chain_decoding(msg@)->Ok_0, is_recheck, r0)]
                self.inner.checks(state, chain_decoding(msg@)->Ok_0, is_recheck, r0) && forwarded(
                    r0,
                    r,
                ),
    {
        match ChainMessage::decode(msg.as_slice()) {
            Err(e) => Ok((state, Err(e))),
            Ok(m) => {
                let ghost st = state;
                let res = self.inner.check(state, m, is_recheck);
                let r = match res {
                    Ok((state, ret)) => Ok((state, Ok(ret))),
                    Err(e) => Err(e),
                };
                assert(self.inner.checks(st, chain_decoding(msg@)->Ok_0, is_recheck, res)
                    && forwarded(res, r));
                r
            },
        }
    }

    /// Answers a query given as a path and bytes, routed as `route_query` does: the inner
    /// interpreter receives the routed query, which outside the store path does not depend
    /// on the path.
    pub fn query(&self, state: I::State, qry: (String, Vec<u8>)) -> (r: Result<
        (I::State, Result<I::QueryOutput, DecodeError>),
        InterpreterError,
    >)
        ensures
            query_routing(qry.0@, qry.1@) is Err ==> rejected(
                state,
                query_routing(qry.0@, qry.1@)->Err_0,
                r,
            ),
            query_routing(qry.0@, qry.1@) is Ok ==> exists|r0|
                #![trigger self.inner.answers(state, query_routing(qry.0@, qry.1@)->Ok_0, r0)]
                self.inner.answers(state, query_routing(qry.0@, qry.1@)->Ok_0, r0) && forwarded(
                    r0,
                    r,
                ),
    {
        let ghost routed = query_routing(qry.0@, qry.1@);
        let (path, bz) = qry;
        match route_query(path.as_str(), bz.as_slice()) {
            Err(e) => Ok((state, Err(e))),
            Ok(q) => {
                let ghost st = state;
                let res = self.inner.query(state, q);
                let r = match res {
                    Ok((state, ret)) => Ok((state, Ok(ret))),
                    Err(e) => Err(e),
                };
                assert(self.inner.answers(st, routed->Ok_0, res) && forwarded(res, r));
                r
            },
        }
    }

    /// Initialises the inner interpreter from the bytes of a genesis, read with `json` and,
    /// only if that fails, with `cbor`. A genesis that neither reads is a fatal error; one
    /// that reads is handed to the inner interpreter, whose result comes back unchanged but
    /// for its failure being marked as the inner one.
    pub fn init<J, C>(&self, state: I::State, genesis: &[u8], json: J, cbor: C) -> (r: Result<
        (I::State, I::GenesisOutput),
        InitError,
    >) where
        J: FnOnce(&[u8]) -> Result<I::Genesis, String>,
        C: FnOnce(&[u8]) -> Result<I::Genesis, String>,

        requires
            json.requires((genesis,)),
            cbor.requires((genesis,)),
        ensures
            r matches Err(InitError::Genesis(e)) ==> json.ensures(
                (genesis,),
                Err::<I::Genesis, String>(e.json),
            ) && cbor.ensures((genesis,), Err::<I::Genesis, String>(e.cbor)),
            (forall|o: Result<I::Genesis, String>| json.ensures((genesis,), o) ==> o is Err) && (
            forall|o: Result<I::Genesis, String>| cbor.ensures((genesis,), o) ==> o is Err)
                ==> r matches Err(InitError::Genesis(_)),
            (forall|o: Result<I::Genesis, String>| json.ensures((genesis,), o) ==> o is Ok) ==> !(
            r matches Err(InitError::Genesis(_))),
            (forall|o: Result<I::Genesis, String>| cbor.ensures((genesis,), o) ==> o is Ok) ==> !(
            r matches Err(InitError::Genesis(_))),
            !(r matches Err(InitError::Genesis(_))) ==> exists|g: I::Genesis, r0|
                #![trigger self.inner.inits(state, g, r0)]
                genesis_read(genesis, json, cbor, g) && self.inner.inits(state, g, r0) && match r0 {
                    Ok(v) => r == Ok::<(I::State, I::GenesisOutput), InitError>(v),
                    Err(e) => r == Err::<(I::State, I::GenesisOutput), InitError>(
                        InitError::Inner(e),
                    ),
                },
    {
        match parse_genesis(genesis, json, cbor) {
            Err(e) => Err(InitError::Genesis(e)),
            Ok(g) => {
                let ghost st = state;
                let ghost gg = g;
                let res = self.inner.init(state, g);
                let r = match res {
                    Ok(v) => Ok(v),
                    Err(e) => Err(InitError::Inner(e)),
                };
                assert(genesis_read(genesis, json, cbor, gg) && self.inner.inits(st, gg, res));
                r
            },
        }
    }
}

/// Interpreter working on already verified unsigned messages, over a store of type `DB`.
/// It holds no data: any two values are the same.
pub struct FvmMessageInterpreter<DB> {
    pub _phantom_db: PhantomData<DB>,
}

impl<DB> FvmMessageInterpreter<DB> {
    pub fn new() -> (r: Self)
        ensures
            r == (FvmMessageInterpreter::<DB> { _phantom_db: PhantomData }),
    {
        FvmMessageInterpreter { _phantom_db: PhantomData }
    }
}

impl<DB> Clone for FvmMessageInterpreter<DB> {
    fn clone(&self) -> (r: Self)
        ensures
            r == (FvmMessageInterpreter::<DB> { _phantom_db: PhantomData }),
    {
        FvmMessageInterpreter { _phantom_db: PhantomData }
    }
}

} // verus!
