use vstd::prelude::*;

verus! {

/// A request from the shell loop to the query worker. Ordering on the
/// request channel is the only correlation mechanism: a message carries
/// no identifier, so at most one request may ever be outstanding.
#[derive(Debug, PartialEq)]
pub enum DbMessage {
    Query(String),
    Quit,
}

/// A response from the query worker back to the shell loop: either the
/// rendered result set of a query, or the textual description of the
/// error the query failed with. The worker sends exactly one of these
/// per `DbMessage::Query` it dequeues, and none for `DbMessage::Quit`.
#[derive(Debug, PartialEq)]
pub enum TuiMessage {
    QueryResponse(String),
    Failure(String),
}

/// The text a response puts on screen, whether the query succeeded or
/// failed: the shell loop displays both the same way.
pub open spec fn response_text(m: TuiMessage) -> Seq<char> {
    match m {
        TuiMessage::QueryResponse(s) => s@,
        TuiMessage::Failure(s) => s@,
    }
}

} // verus!
