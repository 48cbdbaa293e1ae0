//! The decisions of the submission endpoint around one request. The caller holds the
//! signer's counter exclusively from `prepare_execute` until `finish_execute` returns, and
//! performs the submission in between.
use vstd::prelude::*;
use crate::nonce::{next_after, NonceCounter};
use crate::reply::{split_statements, statements_of, ErrorMessage, BAD_REQUEST};
use vstd::string::StringExecFns;

verus! {

/// The error that a failed execution is rejected with.
pub open spec fn execute_failure(e: Seq<char>) -> (u16, Seq<char>) {
    (BAD_REQUEST, "execute error: "@ + e)
}

/// The error that a failed query is rejected with.
pub open spec fn query_failure(e: Seq<char>) -> (u16, Seq<char>) {
    (BAD_REQUEST, "query error: "@ + e)
}

/// The sequence number and the statements of an execution request.
pub fn prepare_execute(counter: &NonceCounter, body: &[u8]) -> (r: (u64, Vec<Vec<u8>>))
    ensures
        r.0 == counter.spec_next(),
        r.1@.len() == statements_of(body@).len(),
        forall|i: int| 0 <= i < r.1@.len() ==> #[trigger] r.1@[i]@ == statements_of(body@)[i],
{
    (counter.current(), split_statements(body))
}

/// Settles the counter with the outcome of a submission and builds the answer: a success
/// moves the counter on and passes the result through; a failure leaves the counter, so the
/// next request reuses the number, and becomes an error reply.
pub fn finish_execute<V>(counter: &mut NonceCounter, outcome: Result<V, String>) -> (r: Result<
    V,
    ErrorMessage,
>)
    requires
        outcome is Ok ==> old(counter).spec_next() < u64::MAX,
    ensures
        final(counter).spec_next() == next_after(old(counter).spec_next(), outcome is Ok),
        outcome is Ok ==> r == Ok::<V, ErrorMessage>(outcome->Ok_0),
        outcome is Err ==> r is Err && (r->Err_0.code, r->Err_0.message@) == execute_failure(
            outcome->Err_0@,
        ),
{
    match outcome {
        Ok(v) => {
            counter.settle(true);
            Ok(v)
        },
        Err(e) => {
            counter.settle(false);
            let mut m = String::from_str("execute error: ");
            m.append(e.as_str());
            Err(ErrorMessage::new(BAD_REQUEST, m))
        },
    }
}

/// The answer to a read-only query: the result, or an error reply.
pub fn finish_query<V>(outcome: Result<V, String>) -> (r: Result<V, ErrorMessage>)
    ensures
        outcome is Ok ==> r == Ok::<V, ErrorMessage>(outcome->Ok_0),
        outcome is Err ==> r is Err && (r->Err_0.code, r->Err_0.message@) == query_failure(
            outcome->Err_0@,
        ),
{
    match outcome {
        Ok(v) => Ok(v),
        Err(e) => {
            let mut m = String::from_str("query error: ");
            m.append(e.as_str());
            Err(ErrorMessage::new(BAD_REQUEST, m))
        },
    }
}

} // verus!
