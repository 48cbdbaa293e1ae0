use fendermint_bytes::dispatch::{respond, BroadcastMode, BroadcastResponse};
use fendermint_bytes::nonce::NonceCounter;
use fendermint_bytes::proxy::{finish_execute, finish_query, prepare_execute};
use fendermint_bytes::reply::{handle_rejection, split_statements, ErrorMessage, Rejection};

fn decode_len(raw: Vec<u8>) -> usize {
    raw.len()
}

#[test]
fn sequential_successes_are_gap_free() {
    let mut n = NonceCounter::new(10);
    let mut used = Vec::new();
    for _ in 0..4 {
        used.push(n.current());
        n.settle(true);
    }
    assert_eq!(used, vec![10, 11, 12, 13]);
    assert_eq!(n.current(), 14);
}

#[test]
fn failure_keeps_number() {
    let mut n = NonceCounter::new(3);
    assert_eq!(n.current(), 3);
    n.settle(false);
    assert_eq!(n.current(), 3);
    n.settle(true);
    assert_eq!(n.current(), 4);
}

#[test]
fn async_and_sync_carry_no_payload() {
    let a: BroadcastResponse<&str, usize> =
        respond(BroadcastMode::Async, "ack", Some(vec![1u8, 2]), Some(decode_len));
    assert_eq!(a, BroadcastResponse::Async("ack"));
    assert_eq!(a.return_data(), None);
    let s: BroadcastResponse<&str, usize> =
        respond(BroadcastMode::Sync, "ack", Some(vec![1u8, 2]), Some(decode_len));
    assert_eq!(s, BroadcastResponse::Sync("ack"));
    assert_eq!(s.mode(), BroadcastMode::Sync);
}

#[test]
fn commit_payload_needs_output_and_decoder() {
    let full: BroadcastResponse<&str, usize> =
        respond(BroadcastMode::Commit, "ack", Some(vec![1u8, 2, 3]), Some(decode_len));
    assert_eq!(full.return_data(), Some(&3));
    assert_eq!(*full.response(), "ack");
    let no_output: BroadcastResponse<&str, usize> =
        respond(BroadcastMode::Commit, "ack", None::<Vec<u8>>, Some(decode_len));
    assert_eq!(no_output, BroadcastResponse::Commit("ack", None));
    let no_decoder: BroadcastResponse<&str, usize> =
        respond(BroadcastMode::Commit, "ack", Some(vec![1u8]), None::<fn(Vec<u8>) -> usize>);
    assert_eq!(no_decoder, BroadcastResponse::Commit("ack", None));
}

#[test]
fn end_to_end_commit_then_failed_retry() {
    let mut n = NonceCounter::new(5);
    // A committed submission with raw output.
    let seq = n.current();
    assert_eq!(seq, 5);
    let r: BroadcastResponse<u64, usize> =
        respond(BroadcastMode::Commit, seq, Some(vec![9u8, 9]), Some(decode_len));
    n.settle(true);
    assert_eq!(n.current(), 6);
    assert_eq!(r, BroadcastResponse::Commit(5, Some(2)));

    // A failed attempt leaves the number for the next one.
    let mut m = NonceCounter::new(5);
    let first = m.current();
    m.settle(false);
    let second = m.current();
    assert_eq!((first, second), (5, 5));
}

#[test]
fn statements_split_and_trailing_separators_dropped() {
    let s = split_statements(b"insert into t values (1);select * from t;;");
    assert_eq!(s, vec![b"insert into t values (1)".to_vec(), b"select * from t".to_vec()]);
    assert_eq!(split_statements(b""), vec![Vec::<u8>::new()]);
    assert_eq!(split_statements(b";;;"), vec![Vec::<u8>::new()]);
    assert_eq!(split_statements(b"a;;b"), vec![b"a".to_vec(), vec![], b"b".to_vec()]);
}

#[test]
fn rejection_replies() {
    assert_eq!(
        handle_rejection(Rejection::NotFound),
        ErrorMessage::new(404, "Not Found".to_string())
    );
    assert_eq!(
        handle_rejection(Rejection::PayloadTooLarge),
        ErrorMessage::new(413, "Payload too large".to_string())
    );
    // A failed execution travels as a custom rejection and is answered as any other one.
    assert_eq!(
        handle_rejection(Rejection::Other("execute error: boom".to_string())),
        ErrorMessage::new(500, "execute error: boom".to_string())
    );
    assert_eq!(handle_rejection(Rejection::Other("x".to_string())).code, 500);
}

#[test]
fn broadcast_mode_order() {
    assert!(BroadcastMode::Async < BroadcastMode::Sync);
    assert!(BroadcastMode::Sync < BroadcastMode::Commit);
}

#[test]
fn execute_success_advances_counter() {
    let mut n = NonceCounter::new(5);
    let (seq, stmts) = prepare_execute(&n, b"a;b;");
    assert_eq!(seq, 5);
    assert_eq!(stmts, vec![b"a".to_vec(), b"b".to_vec()]);
    let r = finish_execute(&mut n, Ok::<u32, String>(7));
    assert_eq!(r, Ok(7));
    assert_eq!(n.current(), 6);
}

#[test]
fn execute_failure_reuses_number() {
    let mut n = NonceCounter::new(5);
    let r = finish_execute(&mut n, Err::<u32, String>("unreachable node".to_string()));
    assert_eq!(r, Err(ErrorMessage::new(400, "execute error: unreachable node".to_string())));
    let (seq, _) = prepare_execute(&n, b"");
    assert_eq!(seq, 5);
}

#[test]
fn query_failure_is_bad_request() {
    assert_eq!(finish_query(Ok::<u8, String>(1)), Ok(1));
    assert_eq!(
        finish_query(Err::<u8, String>("no table".to_string())),
        Err(ErrorMessage::new(400, "query error: no table".to_string()))
    );
}
