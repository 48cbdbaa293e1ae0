use fendermint_bytes::chain::ChainMessage;
use fendermint_bytes::codec::DecodeError;
use fendermint_bytes::genesis::{parse_genesis, GenesisError};
use fendermint_bytes::interpreter::{
    BytesMessageInterpreter, ChainInterpreter, FvmMessageInterpreter, InitError, InterpreterError,
};
use fendermint_bytes::query::FvmQuery;

/// Counts calls in its state and echoes what it was given.
struct Echo;

impl ChainInterpreter for Echo {
    type State = u32;
    type Genesis = String;
    type GenesisOutput = String;
    type BeginOutput = ();
    type DeliverOutput = ChainMessage;
    type EndOutput = ();
    type CheckOutput = (ChainMessage, bool);
    type QueryOutput = FvmQuery;

    fn begin(&self, state: u32) -> Result<(u32, ()), InterpreterError> {
        Ok((state + 1, ()))
    }

    fn deliver(&self, state: u32, msg: ChainMessage) -> Result<(u32, ChainMessage), InterpreterError> {
        Ok((state + 1, msg))
    }

    fn end(&self, state: u32) -> Result<(u32, ()), InterpreterError> {
        Ok((state + 1, ()))
    }

    fn check(
        &self,
        state: u32,
        msg: ChainMessage,
        is_recheck: bool,
    ) -> Result<(u32, (ChainMessage, bool)), InterpreterError> {
        Ok((state + 1, (msg, is_recheck)))
    }

    fn query(&self, state: u32, qry: FvmQuery) -> Result<(u32, FvmQuery), InterpreterError> {
        Ok((state + 1, qry))
    }

    fn init(&self, state: u32, genesis: String) -> Result<(u32, String), InterpreterError> {
        Ok((state + 1, genesis))
    }
}

fn adapter() -> BytesMessageInterpreter<Echo> {
    BytesMessageInterpreter::new(Echo)
}

fn json_ok(b: &[u8]) -> Result<String, String> {
    if b.first() == Some(&b'{') {
        Ok(format!("json:{}", b.len()))
    } else {
        Err("expected value at line 1".to_string())
    }
}

fn cbor_ok(b: &[u8]) -> Result<String, String> {
    if b.first() == Some(&0xa1) {
        Ok(format!("cbor:{}", b.len()))
    } else {
        Err("unexpected type".to_string())
    }
}

#[test]
fn deliver_embeds_decode_error() {
    let (s, out) = adapter().deliver(7, vec![0xde, 0xad]).unwrap();
    assert_eq!(s, 7);
    assert_eq!(out, Err(DecodeError::NotAVariant));
}

#[test]
fn check_embeds_decode_error() {
    let (s, out) = adapter().check(3, vec![], false).unwrap();
    assert_eq!(s, 3);
    assert_eq!(out, Err(DecodeError::NotAVariant));
}

#[test]
fn deliver_forwards_decoded_message() {
    let m = ChainMessage::ForExecution(vec![0x05]);
    let (s, out) = adapter().deliver(1, m.encode()).unwrap();
    assert_eq!(s, 2);
    assert_eq!(out, Ok(m));
}

#[test]
fn check_forwards_recheck_flag() {
    let m = ChainMessage::Signed(vec![0x80]);
    let (s, out) = adapter().check(0, m.encode(), true).unwrap();
    assert_eq!(s, 1);
    assert_eq!(out, Ok((m, true)));
}

#[test]
fn query_embeds_routing_error() {
    let (s, out) = adapter().query(4, ("/store".to_string(), vec![0x01])).unwrap();
    assert_eq!(s, 4);
    assert_eq!(out, Err(DecodeError::InvalidPayload));
}

#[test]
fn query_forwards_routed_query() {
    let (s, out) = adapter()
        .query(4, (String::new(), FvmQuery::StateParams.encode()))
        .unwrap();
    assert_eq!(s, 5);
    assert_eq!(out, Ok(FvmQuery::StateParams));
}

#[test]
fn begin_and_end_reach_inner() {
    let a = adapter();
    let (s, ()) = a.begin(0).unwrap();
    let (s, ()) = a.end(s).unwrap();
    assert_eq!(s, 2);
}

#[test]
fn genesis_text_first() {
    let (s, g) = adapter().init(0, b"{\"a\":1}", json_ok, cbor_ok).unwrap();
    assert_eq!(s, 1);
    assert_eq!(g, "json:7");
}

#[test]
fn genesis_binary_fallback() {
    let (_, g) = adapter().init(0, &[0xa1, 0x00], json_ok, cbor_ok).unwrap();
    assert_eq!(g, "cbor:2");
}

#[test]
fn genesis_both_fail_is_fatal() {
    match adapter().init(0, b"nope", json_ok, cbor_ok) {
        Err(InitError::Genesis(e)) => {
            assert_eq!(e.json, "expected value at line 1");
            assert_eq!(e.cbor, "unexpected type");
        }
        _ => panic!("expected a genesis error"),
    }
}

#[test]
fn genesis_binary_not_tried_after_text_success() {
    let r = parse_genesis(b"{}", json_ok, |_b: &[u8]| -> Result<String, String> {
        panic!("binary reading must not run")
    });
    assert_eq!(r, Ok("json:2".to_string()));
}

#[test]
fn genesis_diagnostic_names_both() {
    let e = GenesisError { json: "bad json".to_string(), cbor: "bad cbor".to_string() };
    let m = e.message();
    assert_eq!(m, "failed to deserialize genesis as JSON or CBOR: bad json; bad cbor");
    assert!(m.contains("bad json") && m.contains("bad cbor"));
}

#[test]
fn fvm_interpreter_builds() {
    let i: FvmMessageInterpreter<u8> = FvmMessageInterpreter::new();
    let _j = i.clone();
}

/// Fails every capability with a fixed error.
struct Broken;

fn broken_error() -> InterpreterError {
    InterpreterError { message: "state store unavailable".to_string() }
}

impl ChainInterpreter for Broken {
    type State = u32;
    type Genesis = String;
    type GenesisOutput = ();
    type BeginOutput = ();
    type DeliverOutput = ();
    type EndOutput = ();
    type CheckOutput = ();
    type QueryOutput = ();

    fn begin(&self, _state: u32) -> Result<(u32, ()), InterpreterError> {
        Err(broken_error())
    }

    fn deliver(&self, _state: u32, _msg: ChainMessage) -> Result<(u32, ()), InterpreterError> {
        Err(broken_error())
    }

    fn end(&self, _state: u32) -> Result<(u32, ()), InterpreterError> {
        Err(broken_error())
    }

    fn check(&self, _state: u32, _msg: ChainMessage, _r: bool) -> Result<(u32, ()), InterpreterError> {
        Err(broken_error())
    }

    fn query(&self, _state: u32, _qry: FvmQuery) -> Result<(u32, ()), InterpreterError> {
        Err(broken_error())
    }

    fn init(&self, _state: u32, _genesis: String) -> Result<(u32, ()), InterpreterError> {
        Err(broken_error())
    }
}

#[test]
fn inner_failures_pass_through_unchanged() {
    let a = BytesMessageInterpreter::new(Broken);
    let m = ChainMessage::Signed(vec![0x01]);
    assert_eq!(a.deliver(0, m.encode()), Err(broken_error()));
    assert_eq!(a.check(0, m.encode(), false), Err(broken_error()));
    assert_eq!(a.query(0, ("/x".to_string(), FvmQuery::StateParams.encode())), Err(broken_error()));
    assert_eq!(a.begin(0), Err(broken_error()));
    assert_eq!(a.end(0), Err(broken_error()));
    match a.init(0, b"{}", json_ok, cbor_ok) {
        Err(InitError::Inner(e)) => assert_eq!(e, broken_error()),
        _ => panic!("expected the inner failure"),
    }
    // Undecodable input never reaches the broken inner interpreter.
    assert_eq!(a.deliver(9, vec![0x00]), Ok((9, Err(DecodeError::NotAVariant))));
}
