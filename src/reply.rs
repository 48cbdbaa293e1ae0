//! What the submission endpoint reads from a request body and answers on failure.
use vstd::prelude::*;
use vstd::string::StringExecFns;

verus! {

/// The separator between the statements of an execution request.
pub const STATEMENT_SEPARATOR: u8 = 0x3b;

/// HTTP status of a request that could not be carried out.
pub const BAD_REQUEST: u16 = 400;

/// HTTP status of a route that does not exist.
pub const NOT_FOUND: u16 = 404;

/// HTTP status of a body over the size limit.
pub const PAYLOAD_TOO_LARGE: u16 = 413;

/// HTTP status of any other failure.
pub const INTERNAL_SERVER_ERROR: u16 = 500;

/// The body of an error reply.
#[derive(Debug, Clone, PartialEq, Eq)]
pub struct ErrorMessage {
    pub code: u16,
    pub message: String,
}

impl ErrorMessage {
    pub fn new(code: u16, message: String) -> (r: Self)
        ensures
            r.code == code,
            r.message == message,
    {
        ErrorMessage { code, message }
    }
}

/// Why the web layer turned a request away.
#[derive(Debug, Clone, PartialEq, Eq)]
pub enum Rejection {
    /// No route matched.
    NotFound,
    /// The body was over the size limit.
    PayloadTooLarge,
    /// Anything else, with its description; this includes a failed execution or query,
    /// whose error reply travels inside the rejection.
    Other(String),
}

/// The code and message that answer a rejection.
pub open spec fn rejection_reply(r: Rejection) -> (u16, Seq<char>) {
    match r {
        Rejection::NotFound => (NOT_FOUND, "Not Found"@),
        Rejection::PayloadTooLarge => (PAYLOAD_TOO_LARGE, "Payload too large"@),
        Rejection::Other(d) => (INTERNAL_SERVER_ERROR, d@),
    }
}

/// The error reply to a rejection.
pub fn handle_rejection(r: Rejection) -> (m: ErrorMessage)
    ensures
        (m.code, m.message@) == rejection_reply(r),
{
    match r {
        Rejection::NotFound => ErrorMessage::new(NOT_FOUND, String::from_str("Not Found")),
        Rejection::PayloadTooLarge => ErrorMessage::new(
            PAYLOAD_TOO_LARGE,
            String::from_str("Payload too large"),
        ),
        Rejection::Other(d) => ErrorMessage::new(INTERNAL_SERVER_ERROR, d),
    }
}

/// The bytes without any run of separators at their end.
pub open spec fn trim_trailing_separators(s: Seq<u8>) -> Seq<u8>
    decreases s.len(),
{
    if s.len() > 0 && s.last() == STATEMENT_SEPARATOR {
        trim_trailing_separators(s.drop_last())
    } else {
        s
    }
}

/// The pieces between separators, in order; `n` separators give `n + 1` pieces, some of
/// which may be empty.
pub open spec fn split_on_separator(s: Seq<u8>) -> Seq<Seq<u8>>
    decreases s.len(),
{
    if s.len() == 0 {
        seq![Seq::empty()]
    } else {
        let rest = split_on_separator(s.drop_last());
        if s.last() == STATEMENT_SEPARATOR {
            rest.push(Seq::empty())
        } else {
            rest.update(rest.len() - 1, rest.last().push(s.last()))
        }
    }
}

/// The statements of an execution request: the body without its trailing separators, split
/// at each remaining separator.
pub open spec fn statements_of(body: Seq<u8>) -> Seq<Seq<u8>> {
    split_on_separator(trim_trailing_separators(body))
}

/// Splits the body of an execution request into its statements.
pub fn split_statements(body: &[u8]) -> (r: Vec<Vec<u8>>)
    ensures
        r@.len() == statements_of(body@).len(),
        forall|i: int| 0 <= i < r@.len() ==> #[trigger] r@[i]@ == statements_of(body@)[i],
{
    let mut end: usize = body.len();
    assert(body@.subrange(0, end as int) =~= body@);
    while end > 0 && body[end - 1] == STATEMENT_SEPARATOR
        invariant
            end <= body.len(),
            trim_trailing_separators(body@.subrange(0, end as int)) == trim_trailing_separators(
                body@,
            ),
        decreases end,
    {
        assert(body@.subrange(0, end as int).drop_last() =~= body@.subrange(0, end - 1));
        end = end - 1;
    }
    let ghost trimmed = body@.subrange(0, end as int);
    assert(trim_trailing_separators(trimmed) == trimmed);
    let mut pieces: Vec<Vec<u8>> = Vec::new();
    pieces.push(Vec::new());
    assert(body@.subrange(0, 0) =~= Seq::<u8>::empty());
    let mut i: usize = 0;
    while i < end
        invariant
            i <= end <= body.len(),
            trimmed == body@.subrange(0, end as int),
            pieces@.len() == split_on_separator(body@.subrange(0, i as int)).len(),
            pieces@.len() >= 1,
            forall|k: int|
                0 <= k < pieces@.len() ==> #[trigger] pieces@[k]@ == split_on_separator(
                    body@.subrange(0, i as int),
                )[k],
        decreases end - i,
    {
        let ghost prev = split_on_separator(body@.subrange(0, i as int));
        assert(body@.subrange(0, i + 1).drop_last() =~= body@.subrange(0, i as int));
        assert(body@.subrange(0, i + 1).last() == body@[i as int]);
        if body[i] == STATEMENT_SEPARATOR {
            pieces.push(Vec::new());
            assert(forall|k: int|
                0 <= k < pieces@.len() ==> #[trigger] pieces@[k]@ == prev.push(Seq::empty())[k]);
        } else {
            let last = pieces.len() - 1;
            let mut piece = pieces.pop().unwrap();
            piece.push(body[i]);
            pieces.push(piece);
            assert(forall|k: int|
                0 <= k < pieces@.len() ==> #[trigger] pieces@[k]@ == prev.update(
                    last as int,
                    prev.last().push(body@[i as int]),
                )[k]);
        }
        i = i + 1;
    }
    pieces
}

} // verus!
