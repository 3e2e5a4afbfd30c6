use vstd::prelude::*;

use crate::communication::DbMessage;
use crate::communication::TuiMessage;

verus! {

/// What the worker asks its surroundings to do with the request it
/// just dequeued: run the query text against the open connection, or
/// nothing (the worker has stopped).
#[derive(Debug, PartialEq)]
pub enum WorkerAction {
    RunQuery(String),
    Idle,
}

/// The query worker's state. It owns the database connection
/// exclusively: `connected` records that the one startup connection
/// attempt succeeded (the connection handle itself lives with whatever
/// performs the database calls), and `exit` that the worker stops
/// serving. A failed connection attempt is fatal and never reaches the
/// serve loop, so every served request finds `connected` set.
pub struct Db {
    pub connection_url: String,
    pub connected: bool,
    pub exit: bool,
}

/// How the rendered outcome of a query execution (the result set's
/// stable textual form, or the error's textual description) maps to
/// the one response the worker sends for it.
pub open spec fn response_matches(outcome: Result<String, String>, r: TuiMessage) -> bool {
    match outcome {
        Ok(rendered) => r matches TuiMessage::QueryResponse(s) && s@ == rendered@,
        Err(message) => r matches TuiMessage::Failure(s) && s@ == message@,
    }
}

/// The text a query outcome puts on screen, success or failure.
pub open spec fn outcome_text(outcome: Result<String, String>) -> Seq<char> {
    match outcome {
        Ok(rendered) => rendered@,
        Err(message) => message@,
    }
}

/// The one response the worker emits for a query that ended in
/// `outcome`: a success carries the rendered result set, a failure the
/// error's description. A query error is reported, not fatal — the
/// caller goes on serving afterwards.
pub fn response_for(outcome: &Result<String, String>) -> (r: TuiMessage)
    ensures
        response_matches(*outcome, r),
        crate::communication::response_text(r) == outcome_text(*outcome),
{
    match outcome {
        Ok(rendered) => TuiMessage::QueryResponse(rendered.clone()),
        Err(message) => TuiMessage::Failure(message.clone()),
    }
}

impl Db {
    /// A fresh worker for the given connection URL: not yet connected,
    /// not yet stopped.
    pub fn new(url: String) -> (r: Db)
        ensures
            r.connection_url == url,
            !r.connected,
            !r.exit,
    {
        Db { connection_url: url, connected: false, exit: false }
    }

    /// Record that the one startup connection attempt succeeded. The
    /// connection state transitions exactly once, from "not yet
    /// established" to "established"; on failure the worker never
    /// serves, so this is never called twice.
    pub fn set_connected(&mut self)
        requires
            !old(self).connected,
            !old(self).exit,
        ensures
            final(self).connected,
            !final(self).exit,
            final(self).connection_url == old(self).connection_url,
    {
        self.connected = true;
    }

    /// One turn of the serve loop, on the next message from the request
    /// channel (`None` stands for a channel closed with nothing
    /// pending, treated exactly like an explicit quit): a query is
    /// handed back to be executed, and exactly one response is owed for
    /// it; a quit or a closed channel stops the worker, and no response
    /// is owed.
    pub fn handle_message(&mut self, message: Option<DbMessage>) -> (r: WorkerAction)
        requires
            old(self).connected,
            !old(self).exit,
        ensures
            final(self).connected,
            final(self).connection_url == old(self).connection_url,
            message matches Some(DbMessage::Query(q)) ==> !final(self).exit && (r matches
                WorkerAction::RunQuery(p) && p@ == q@),
            !(message matches Some(DbMessage::Query(q))) ==> final(self).exit && r is Idle,
    {
        match message {
            Some(DbMessage::Query(query_string)) => WorkerAction::RunQuery(query_string),
            _ => {
                self.exit = true;
                WorkerAction::Idle
            },
        }
    }
}

} // verus!
