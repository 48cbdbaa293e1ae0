//! Query requests, and how a query from the consensus engine is routed to one.
use vstd::prelude::*;
use vstd::utf8::{encode_utf8, encode_utf8_decode_utf8, is_ascii_chars, is_ascii_chars_encode_utf8};
use crate::codec::{
    bytes_equal, encode_frame, encode_unit, lemma_frame_parsed, lemma_frame_round_trip,
    parse_frame, split_frame, tail_from, text_item, variant_frame, DecodeError,
};
use crate::decoders::{
    check_address, check_cid, check_message, is_address_encoding, is_cid_encoding,
    is_message_encoding,
};

verus! {

/// The variants of a query request.
#[derive(Debug, Clone, Copy, PartialEq, Eq, Structural)]
pub enum QueryTag {
    /// A raw blob of the content-addressed store.
    Ipld,
    /// The record of an actor.
    ActorState,
    /// A message executed without committing it.
    Call,
    /// A message executed only to measure its gas.
    EstimateGas,
    /// The slowly changing parameters of the chain.
    StateParams,
}

/// The name under which a variant of a query is encoded.
pub open spec fn query_tag_name(t: QueryTag) -> Seq<u8> {
    match t {
        QueryTag::Ipld => seq![73u8, 112, 108, 100],
        QueryTag::ActorState => seq![65u8, 99, 116, 111, 114, 83, 116, 97, 116, 101],
        QueryTag::Call => seq![67u8, 97, 108, 108],
        QueryTag::EstimateGas => seq![69u8, 115, 116, 105, 109, 97, 116, 101, 71, 97, 115],
        QueryTag::StateParams => seq![83u8, 116, 97, 116, 101, 80, 97, 114, 97, 109, 115],
    }
}

/// The variant of a query that carries a value and goes by a name, if any.
pub open spec fn query_tag_of(name: Seq<u8>) -> Option<QueryTag> {
    if name == query_tag_name(QueryTag::Ipld) {
        Some(QueryTag::Ipld)
    } else if name == query_tag_name(QueryTag::ActorState) {
        Some(QueryTag::ActorState)
    } else if name == query_tag_name(QueryTag::Call) {
        Some(QueryTag::Call)
    } else if name == query_tag_name(QueryTag::EstimateGas) {
        Some(QueryTag::EstimateGas)
    } else {
        None
    }
}

/// Whether a payload is what a variant of a query carries.
pub open spec fn query_payload_valid(t: QueryTag, p: Seq<u8>) -> bool {
    match t {
        QueryTag::Ipld => is_cid_encoding(p),
        QueryTag::ActorState => is_address_encoding(p),
        QueryTag::Call => is_message_encoding(p),
        QueryTag::EstimateGas => is_message_encoding(p),
        QueryTag::StateParams => p.len() == 0,
    }
}

/// A query request: exactly one variant. Each value is kept as its DAG-CBOR encoding:
/// a content identifier, an actor address, or an unsigned execution message.
#[derive(Debug, Clone, PartialEq, Eq)]
pub enum FvmQuery {
    Ipld(Vec<u8>),
    ActorState(Vec<u8>),
    Call(Vec<u8>),
    EstimateGas(Vec<u8>),
    StateParams,
}

impl View for FvmQuery {
    type V = (QueryTag, Seq<u8>);

    open spec fn view(&self) -> (QueryTag, Seq<u8>) {
        match self {
            FvmQuery::Ipld(p) => (QueryTag::Ipld, p@),
            FvmQuery::ActorState(p) => (QueryTag::ActorState, p@),
            FvmQuery::Call(p) => (QueryTag::Call, p@),
            FvmQuery::EstimateGas(p) => (QueryTag::EstimateGas, p@),
            FvmQuery::StateParams => (QueryTag::StateParams, Seq::empty()),
        }
    }
}

/// The canonical encoding of a query.
pub open spec fn query_encoding(q: (QueryTag, Seq<u8>)) -> Seq<u8> {
    if q.0 == QueryTag::StateParams {
        text_item(query_tag_name(QueryTag::StateParams))
    } else {
        variant_frame(query_tag_name(q.0), q.1)
    }
}

/// What decoding bytes as a query gives.
pub open spec fn query_decoding(bz: Seq<u8>) -> Result<(QueryTag, Seq<u8>), DecodeError> {
    if bz == text_item(query_tag_name(QueryTag::StateParams)) {
        Ok((QueryTag::StateParams, Seq::empty()))
    } else {
        match parse_frame(bz) {
            None => Err(DecodeError::NotAVariant),
            Some((name, payload)) => match query_tag_of(name) {
                None => Err(DecodeError::UnknownVariant),
                Some(t) => if query_payload_valid(t, payload) {
                    Ok((t, payload))
                } else {
                    Err(DecodeError::InvalidPayload)
                },
            },
        }
    }
}

/// The path under which a query asks the content-addressed store for a blob.
pub open spec fn store_path() -> Seq<char> {
    seq!['/', 's', 't', 'o', 'r', 'e']
}

/// The store path as UTF-8 bytes.
proof fn lemma_store_path_bytes()
    ensures
        encode_utf8(store_path()) == seq![47u8, 115, 116, 111, 114, 101],
{
    let p = store_path();
    assert(is_ascii_chars(p));
    is_ascii_chars_encode_utf8(p);
    assert(encode_utf8(p) =~= seq![47u8, 115, 116, 111, 114, 101]);
}

/// Where a query given as a path and bytes is routed. Under the store path the bytes must
/// be a content identifier; under any other path they must be a whole query.
pub open spec fn query_routing(path: Seq<char>, bz: Seq<u8>) -> Result<
    (QueryTag, Seq<u8>),
    DecodeError,
> {
    if path == store_path() {
        if is_cid_encoding(bz) {
            Ok((QueryTag::Ipld, bz))
        } else {
            Err(DecodeError::InvalidPayload)
        }
    } else {
        query_decoding(bz)
    }
}

proof fn lemma_query_tag_names()
    ensures
        forall|t: QueryTag| #[trigger] query_tag_name(t).len() < 24,
        forall|t: QueryTag|
            t != QueryTag::StateParams ==> query_tag_of(#[trigger] query_tag_name(t)) == Some(t),
        query_tag_of(query_tag_name(QueryTag::StateParams)) is None,
{
    let i = query_tag_name(QueryTag::Ipld);
    let a = query_tag_name(QueryTag::ActorState);
    let c = query_tag_name(QueryTag::Call);
    let e = query_tag_name(QueryTag::EstimateGas);
    let s = query_tag_name(QueryTag::StateParams);
    assert(i[0] != c[0] && e[0] != s[0]);
    assert(i != a && i != c && i != e && i != s);
    assert(a != c && a != e && a != s);
    assert(c != e && c != s);
    assert(e != s);
}

/// A framed variant is never the encoding of the variant without a value.
proof fn lemma_frame_not_unit(name: Seq<u8>, payload: Seq<u8>)
    ensures
        variant_frame(name, payload) != text_item(query_tag_name(QueryTag::StateParams)),
{
    let f = variant_frame(name, payload);
    let u = text_item(query_tag_name(QueryTag::StateParams));
    assert(f[0] == 0xa1u8);
    assert(u[0] != 0xa1u8);
}

/// Decoding the encoding of a query whose value is well formed gives it back.
pub proof fn lemma_query_round_trip(q: FvmQuery)
    requires
        query_payload_valid(q@.0, q@.1),
    ensures
        query_decoding(query_encoding(q@)) == Ok::<(QueryTag, Seq<u8>), DecodeError>(q@),
{
    lemma_query_tag_names();
    if q@.0 != QueryTag::StateParams {
        lemma_frame_not_unit(query_tag_name(q@.0), q@.1);
        lemma_frame_round_trip(query_tag_name(q@.0), q@.1);
    }
}

/// Bytes decode as a query exactly when they are the encoding of what they decode to.
pub proof fn lemma_query_decoding_exact(bz: Seq<u8>)
    ensures
        query_decoding(bz) is Ok ==> query_encoding(query_decoding(bz)->Ok_0) == bz,
{
    lemma_query_tag_names();
    if query_decoding(bz) is Ok && bz != text_item(query_tag_name(QueryTag::StateParams)) {
        lemma_frame_parsed(bz);
    }
}

/// Under the store path, the encoding of a content identifier routes to that identifier;
/// under any other path, the encoding of the parameters query routes to that query.
pub proof fn lemma_query_routes(path: Seq<char>, cid: Seq<u8>)
    requires
        is_cid_encoding(cid),
    ensures
        query_routing(store_path(), cid) == Ok::<(QueryTag, Seq<u8>), DecodeError>(
            (QueryTag::Ipld, cid),
        ),
        path != store_path() ==> query_routing(path, query_encoding(FvmQuery::StateParams@))
            == Ok::<(QueryTag, Seq<u8>), DecodeError>((QueryTag::StateParams, Seq::empty())),
{
}

/// Outside the store path the path plays no part: two such paths route the same bytes to
/// the same query, or to the same error.
pub proof fn lemma_path_ignored_outside_store(p1: Seq<char>, p2: Seq<char>, bz: Seq<u8>)
    requires
        p1 != store_path(),
        p2 != store_path(),
    ensures
        query_routing(p1, bz) == query_routing(p2, bz),
{
}

fn query_tag_from(name: &[u8]) -> (r: Option<QueryTag>)
    ensures
        r == query_tag_of(name@),
{
    let ipld: Vec<u8> = vec![73u8, 112, 108, 100];
    let actor_state: Vec<u8> = vec![65u8, 99, 116, 111, 114, 83, 116, 97, 116, 101];
    let call: Vec<u8> = vec![67u8, 97, 108, 108];
    let estimate_gas: Vec<u8> = vec![69u8, 115, 116, 105, 109, 97, 116, 101, 71, 97, 115];
    assert(ipld@ =~= query_tag_name(QueryTag::Ipld));
    assert(actor_state@ =~= query_tag_name(QueryTag::ActorState));
    assert(call@ =~= query_tag_name(QueryTag::Call));
    assert(estimate_gas@ =~= query_tag_name(QueryTag::EstimateGas));
    if bytes_equal(name, ipld.as_slice()) {
        Some(QueryTag::Ipld)
    } else if bytes_equal(name, actor_state.as_slice()) {
        Some(QueryTag::ActorState)
    } else if bytes_equal(name, call.as_slice()) {
        Some(QueryTag::Call)
    } else if bytes_equal(name, estimate_gas.as_slice()) {
        Some(QueryTag::EstimateGas)
    } else {
        None
    }
}

fn query_tag_bytes(t: QueryTag) -> (r: Vec<u8>)
    ensures
        r@ == query_tag_name(t),
{
    let r: Vec<u8> = match t {
        QueryTag::Ipld => vec![73u8, 112, 108, 100],
        QueryTag::ActorState => vec![65u8, 99, 116, 111, 114, 83, 116, 97, 116, 101],
        QueryTag::Call => vec![67u8, 97, 108, 108],
        QueryTag::EstimateGas => vec![69u8, 115, 116, 105, 109, 97, 116, 101, 71, 97, 115],
        QueryTag::StateParams => vec![83u8, 116, 97, 116, 101, 80, 97, 114, 97, 109, 115],
    };
    assert(r@ =~= query_tag_name(t));
    r
}

fn payload_valid(t: QueryTag, p: &[u8]) -> (r: bool)
    ensures
        r == query_payload_valid(t, p@),
{
    match t {
        QueryTag::Ipld => check_cid(p),
        QueryTag::ActorState => check_address(p),
        QueryTag::Call => check_message(p),
        QueryTag::EstimateGas => check_message(p),
        QueryTag::StateParams => p.len() == 0,
    }
}

impl FvmQuery {
    /// Builds the query of a variant from its encoded value; the parameters query carries none.
    pub fn from_parts(tag: QueryTag, payload: Vec<u8>) -> (r: FvmQuery)
        requires
            tag == QueryTag::StateParams ==> payload@.len() == 0,
        ensures
            r@ == (tag, payload@),
    {
        match tag {
            QueryTag::Ipld => FvmQuery::Ipld(payload),
            QueryTag::ActorState => FvmQuery::ActorState(payload),
            QueryTag::Call => FvmQuery::Call(payload),
            QueryTag::EstimateGas => FvmQuery::EstimateGas(payload),
            QueryTag::StateParams => {
                assert(payload@ =~= Seq::<u8>::empty());
                FvmQuery::StateParams
            },
        }
    }

    /// The variant of the query.
    pub fn tag(&self) -> (r: QueryTag)
        ensures
            r == self@.0,
    {
        match self {
            FvmQuery::Ipld(_) => QueryTag::Ipld,
            FvmQuery::ActorState(_) => QueryTag::ActorState,
            FvmQuery::Call(_) => QueryTag::Call,
            FvmQuery::EstimateGas(_) => QueryTag::EstimateGas,
            FvmQuery::StateParams => QueryTag::StateParams,
        }
    }

    /// The canonical encoding of the query.
    pub fn encode(&self) -> (r: Vec<u8>)
        ensures
            r@ == query_encoding(self@),
    {
        proof {
            lemma_query_tag_names();
        }
        let name = query_tag_bytes(self.tag());
        match self {
            FvmQuery::Ipld(p) => encode_frame(name.as_slice(), p.as_slice()),
            FvmQuery::ActorState(p) => encode_frame(name.as_slice(), p.as_slice()),
            FvmQuery::Call(p) => encode_frame(name.as_slice(), p.as_slice()),
            FvmQuery::EstimateGas(p) => encode_frame(name.as_slice(), p.as_slice()),
            FvmQuery::StateParams => encode_unit(name.as_slice()),
        }
    }

    /// Decodes a query from its canonical encoding.
    pub fn decode(bz: &[u8]) -> (r: Result<FvmQuery, DecodeError>)
        ensures
            match query_decoding(bz@) {
                Ok(v) => r is Ok && r->Ok_0@ == v,
                Err(e) => r == Err::<FvmQuery, DecodeError>(e),
            },
    {
        let unit = encode_unit(query_tag_bytes(QueryTag::StateParams).as_slice());
        if bytes_equal(bz, unit.as_slice()) {
            return Ok(FvmQuery::StateParams);
        }
        match split_frame(bz) {
            None => Err(DecodeError::NotAVariant),
            Some((name, start)) => match query_tag_from(name.as_slice()) {
                None => Err(DecodeError::UnknownVariant),
                Some(tag) => {
                    let payload = tail_from(bz, start);
                    if payload_valid(tag, payload.as_slice()) {
                        Ok(FvmQuery::from_parts(tag, payload))
                    } else {
                        Err(DecodeError::InvalidPayload)
                    }
                },
            },
        }
    }
}

/// Routes a query given as a path and bytes. Under the store path the bytes are read as a
/// content identifier alone; under any other path, the empty one included, they are read as
/// a whole query and the path plays no part.
pub fn route_query(path: &str, bz: &[u8]) -> (r: Result<FvmQuery, DecodeError>)
    ensures
        match query_routing(path@, bz@) {
            Ok(v) => r is Ok && r->Ok_0@ == v,
            Err(e) => r == Err::<FvmQuery, DecodeError>(e),
        },
{
    let store: Vec<u8> = vec![47u8, 115, 116, 111, 114, 101];
    proof {
        lemma_store_path_bytes();
        encode_utf8_decode_utf8(path@);
        encode_utf8_decode_utf8(store_path());
    }
    assert(store@ =~= encode_utf8(store_path()));
    let is_store = bytes_equal(path.as_bytes(), store.as_slice());
    assert(is_store == (path@ == store_path()));
    if is_store {
        if check_cid(bz) {
            let mut cid: Vec<u8> = Vec::new();
            crate::codec::append_bytes(&mut cid, bz);
            assert(cid@ =~= bz@);
            Ok(FvmQuery::Ipld(cid))
        } else {
            Err(DecodeError::InvalidPayload)
        }
    } else {
        FvmQuery::decode(bz)
    }
}

} // verus!
