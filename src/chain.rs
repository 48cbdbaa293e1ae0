//! The transaction envelope that blocks and the mempool carry.
use vstd::prelude::*;
use crate::codec::{
    bytes_equal, encode_frame, lemma_frame_parsed, lemma_frame_round_trip, parse_frame,
    split_frame, tail_from, variant_frame, DecodeError,
};
use crate::decoders::{check_cbor_item, is_cbor_item};

verus! {

/// The variants of the envelope.
#[derive(Debug, Clone, Copy, PartialEq, Eq, Structural)]
pub enum ChainTag {
    /// A transaction submitted and signed by a user.
    Signed,
    /// A transaction synthesized by the node, already verified.
    ForExecution,
    /// A reference from another subnet, awaiting resolution.
    ForResolution,
}

/// The name under which a variant of the envelope is encoded.
pub open spec fn chain_tag_name(t: ChainTag) -> Seq<u8> {
    match t {
        ChainTag::Signed => seq![83u8, 105, 103, 110, 101, 100],
        ChainTag::ForExecution => seq![70u8, 111, 114, 69, 120, 101, 99, 117, 116, 105, 111, 110],
        ChainTag::ForResolution => seq![
            70u8,
            111,
            114,
            82,
            101,
            115,
            111,
            108,
            117,
            116,
            105,
            111,
            110,
        ],
    }
}

/// The variant of the envelope that a name stands for, if any.
pub open spec fn chain_tag_of(name: Seq<u8>) -> Option<ChainTag> {
    if name == chain_tag_name(ChainTag::Signed) {
        Some(ChainTag::Signed)
    } else if name == chain_tag_name(ChainTag::ForExecution) {
        Some(ChainTag::ForExecution)
    } else if name == chain_tag_name(ChainTag::ForResolution) {
        Some(ChainTag::ForResolution)
    } else {
        None
    }
}

/// A transaction envelope: exactly one variant, carrying the encoded value of that variant.
///
/// The value is only checked to be one well-formed CBOR item, not to be the value that the
/// variant carries: an envelope such as `ForExecution` holding a bare integer decodes here, and
/// it is the inner interpreter that must turn it into a typed transaction and reject it.
#[derive(Debug, Clone, PartialEq, Eq)]
pub enum ChainMessage {
    Signed(Vec<u8>),
    ForExecution(Vec<u8>),
    ForResolution(Vec<u8>),
}

impl View for ChainMessage {
    type V = (ChainTag, Seq<u8>);

    open spec fn view(&self) -> (ChainTag, Seq<u8>) {
        match self {
            ChainMessage::Signed(p) => (ChainTag::Signed, p@),
            ChainMessage::ForExecution(p) => (ChainTag::ForExecution, p@),
            ChainMessage::ForResolution(p) => (ChainTag::ForResolution, p@),
        }
    }
}

/// The canonical encoding of an envelope.
pub open spec fn chain_encoding(m: (ChainTag, Seq<u8>)) -> Seq<u8> {
    variant_frame(chain_tag_name(m.0), m.1)
}

/// What decoding bytes as an envelope gives.
pub open spec fn chain_decoding(bz: Seq<u8>) -> Result<(ChainTag, Seq<u8>), DecodeError> {
    match parse_frame(bz) {
        None => Err(DecodeError::NotAVariant),
        Some((name, payload)) => match chain_tag_of(name) {
            None => Err(DecodeError::UnknownVariant),
            Some(t) => if is_cbor_item(payload) {
                Ok((t, payload))
            } else {
                Err(DecodeError::InvalidPayload)
            },
        },
    }
}

proof fn lemma_chain_tag_name_read(t: ChainTag)
    ensures
        chain_tag_of(chain_tag_name(t)) == Some(t),
        chain_tag_name(t).len() < 24,
{
    let s = chain_tag_name(ChainTag::Signed);
    let e = chain_tag_name(ChainTag::ForExecution);
    let r = chain_tag_name(ChainTag::ForResolution);
    assert(s.len() == 6 && e.len() == 12 && r.len() == 13);
    assert(s != e && s != r && e != r);
}

/// Decoding the encoding of an envelope whose payload is one well-formed item gives it back.
pub proof fn lemma_chain_round_trip(m: ChainMessage)
    requires
        is_cbor_item(m@.1),
    ensures
        chain_decoding(chain_encoding(m@)) == Ok::<(ChainTag, Seq<u8>), DecodeError>(m@),
{
    lemma_chain_tag_name_read(m@.0);
    lemma_frame_round_trip(chain_tag_name(m@.0), m@.1);
}

/// Bytes decode as an envelope exactly when they are the encoding of what they decode to.
pub proof fn lemma_chain_decoding_exact(bz: Seq<u8>)
    ensures
        chain_decoding(bz) is Ok ==> chain_encoding(chain_decoding(bz)->Ok_0) == bz,
{
    if chain_decoding(bz) is Ok {
        lemma_frame_parsed(bz);
    }
}

fn chain_tag_from(name: &[u8]) -> (r: Option<ChainTag>)
    ensures
        r == chain_tag_of(name@),
{
    let signed: Vec<u8> = vec![83u8, 105, 103, 110, 101, 100];
    let for_execution: Vec<u8> = vec![70u8, 111, 114, 69, 120, 101, 99, 117, 116, 105, 111, 110];
    let for_resolution: Vec<u8> = vec![70u8, 111, 114, 82, 101, 115, 111, 108, 117, 116, 105, 111, 110];
    assert(signed@ =~= chain_tag_name(ChainTag::Signed));
    assert(for_execution@ =~= chain_tag_name(ChainTag::ForExecution));
    assert(for_resolution@ =~= chain_tag_name(ChainTag::ForResolution));
    if bytes_equal(name, signed.as_slice()) {
        Some(ChainTag::Signed)
    } else if bytes_equal(name, for_execution.as_slice()) {
        Some(ChainTag::ForExecution)
    } else if bytes_equal(name, for_resolution.as_slice()) {
        Some(ChainTag::ForResolution)
    } else {
        None
    }
}

fn chain_tag_bytes(t: ChainTag) -> (r: Vec<u8>)
    ensures
        r@ == chain_tag_name(t),
{
    let r: Vec<u8> = match t {
        ChainTag::Signed => vec![83u8, 105, 103, 110, 101, 100],
        ChainTag::ForExecution => vec![70u8, 111, 114, 69, 120, 101, 99, 117, 116, 105, 111, 110],
        ChainTag::ForResolution => vec![70u8, 111, 114, 82, 101, 115, 111, 108, 117, 116, 105, 111, 110],
    };
    assert(r@ =~= chain_tag_name(t));
    r
}

impl ChainMessage {
    /// Builds the envelope of a variant from its encoded value.
    pub fn from_parts(tag: ChainTag, payload: Vec<u8>) -> (r: ChainMessage)
        ensures
            r@ == (tag, payload@),
    {
        match tag {
            ChainTag::Signed => ChainMessage::Signed(payload),
            ChainTag::ForExecution => ChainMessage::ForExecution(payload),
            ChainTag::ForResolution => ChainMessage::ForResolution(payload),
        }
    }

    /// The variant of the envelope.
    pub fn tag(&self) -> (r: ChainTag)
        ensures
            r == self@.0,
    {
        match self {
            ChainMessage::Signed(_) => ChainTag::Signed,
            ChainMessage::ForExecution(_) => ChainTag::ForExecution,
            ChainMessage::ForResolution(_) => ChainTag::ForResolution,
        }
    }

    /// The encoded value that the variant carries.
    pub fn payload(&self) -> (r: &Vec<u8>)
        ensures
            r@ == self@.1,
    {
        match self {
            ChainMessage::Signed(p) => p,
            ChainMessage::ForExecution(p) => p,
            ChainMessage::ForResolution(p) => p,
        }
    }

    /// The canonical encoding of the envelope.
    pub fn encode(&self) -> (r: Vec<u8>)
        ensures
            r@ == chain_encoding(self@),
    {
        let name = chain_tag_bytes(self.tag());
        proof {
            lemma_chain_tag_name_read(self@.0);
        }
        encode_frame(name.as_slice(), self.payload().as_slice())
    }

    /// Decodes an envelope from its canonical encoding. The payload is accepted as any single
    /// well-formed CBOR item, whatever the variant.
    pub fn decode(bz: &[u8]) -> (r: Result<ChainMessage, DecodeError>)
        ensures
            match chain_decoding(bz@) {
                Ok(v) => r is Ok && r->Ok_0@ == v,
                Err(e) => r == Err::<ChainMessage, DecodeError>(e),
            },
    {
        match split_frame(bz) {
            None => Err(DecodeError::NotAVariant),
            Some((name, start)) => match chain_tag_from(name.as_slice()) {
                None => Err(DecodeError::UnknownVariant),
                Some(tag) => {
                    let payload = tail_from(bz, start);
                    if check_cbor_item(payload.as_slice()) {
                        Ok(ChainMessage::from_parts(tag, payload))
                    } else {
                        Err(DecodeError::InvalidPayload)
                    }
                },
            },
        }
    }
}

} // verus!
