use vstd::prelude::*;

use crate::communication::DbMessage;
use crate::communication::TuiMessage;
use crate::communication::response_text;
use crate::db::Db;
use crate::db::WorkerAction;
use crate::db::outcome_text;
use crate::db::response_matches;
use crate::db::response_for;
use crate::tui::App;
use crate::tui::KeyInput;
use crate::tui::ShellAction;
use crate::tui::edit_transition;
use crate::tui::seq_views;

verus! {

/// The whole coordination core in one place: the shell loop's state,
/// the worker's state, and the two ordered, bounded channels between
/// them. The channel vectors are queues — a send pushes at the back, a
/// receive takes the front — and `wf` shows they never hold more than
/// one message between them, so a capacity of one suffices and channel
/// order alone correlates each response with its request.
///
/// The only thing the real database contributes to a step is the
/// rendered outcome of one query; every step that executes a query
/// takes that outcome as an argument, so the coordination logic is
/// verified for every value the database could return.
pub struct Session {
    pub shell: App,
    pub worker: Db,
    pub req_chan: Vec<DbMessage>,
    pub resp_chan: Vec<TuiMessage>,
}

impl Session {
    /// The states the session can reach. In particular: the channels
    /// together never carry more than one message (the single
    /// outstanding request); the shell awaits exactly while that one
    /// message — its query on the way out, or the answer on the way
    /// back — is in flight; a quit request is in flight only once the
    /// shell has stopped; and the worker stops only after the shell
    /// did, with both channels drained.
    pub open spec fn wf(&self) -> bool {
        &&& self.req_chan@.len() + self.resp_chan@.len() <= 1
        &&& (self.shell.awaiting <==> ((self.req_chan@.len() == 1 && self.req_chan@[0] is Query)
            || self.resp_chan@.len() == 1))
        &&& (self.req_chan@.len() == 1 && self.req_chan@[0] is Quit ==> self.shell.exit)
        &&& (self.shell.awaiting ==> !self.shell.exit)
        &&& self.worker.connected
        &&& (self.worker.exit ==> self.shell.exit && self.req_chan@.len() == 0
            && self.resp_chan@.len() == 0)
    }

    /// A fresh session around a connected worker: empty shell state,
    /// empty channels, both loops running.
    pub fn new(worker: Db) -> (r: Session)
        requires
            worker.connected,
            !worker.exit,
        ensures
            r.wf(),
            r.shell.input@ == Seq::<char>::empty(),
            r.shell.output@ == Seq::<char>::empty(),
            seq_views(r.shell.history@) == Seq::<Seq<char>>::empty(),
            !r.shell.exit,
            !r.shell.awaiting,
            r.worker == worker,
            r.req_chan@ == Seq::<DbMessage>::empty(),
            r.resp_chan@ == Seq::<TuiMessage>::empty(),
    {
        let r = Session { shell: App::new(), worker, req_chan: Vec::new(), resp_chan: Vec::new() };
        proof {
            assert(r.req_chan@ =~= Seq::<DbMessage>::empty());
            assert(r.resp_chan@ =~= Seq::<TuiMessage>::empty());
        }
        r
    }

    /// One non-enter key event reaches the shell: it only edits the
    /// input buffer, nothing is sent and nothing else moves.
    pub fn type_key(&mut self, key: KeyInput)
        requires
            old(self).wf(),
            !old(self).shell.exit,
            !old(self).shell.awaiting,
            !(key is Enter),
        ensures
            final(self).wf(),
            edit_transition(old(self).shell, final(self).shell, key),
            final(self).req_chan@ == old(self).req_chan@,
            final(self).resp_chan@ == old(self).resp_chan@,
            final(self).worker == old(self).worker,
    {
        let _ = self.shell.handle_key_event(key);
    }

    /// A whole line of characters reaches the shell, one key event at
    /// a time.
    pub fn type_line(&mut self, text: &String)
        requires
            old(self).wf(),
            !old(self).shell.exit,
            !old(self).shell.awaiting,
        ensures
            final(self).wf(),
            !final(self).shell.exit,
            !final(self).shell.awaiting,
            final(self).shell.input@ == old(self).shell.input@ + text@,
            final(self).shell.history == old(self).shell.history,
            final(self).shell.output@ == old(self).shell.output@,
            final(self).worker == old(self).worker,
            final(self).req_chan@ == old(self).req_chan@,
            final(self).resp_chan@ == old(self).resp_chan@,
    {
        let n = text.as_str().unicode_len();
        proof {
            assert(old(self).shell.input@ + text@.subrange(0, 0) =~= old(self).shell.input@);
        }
        let mut i: usize = 0;
        while i < n
            invariant
                i <= n,
                n == text@.len(),
                self.wf(),
                !self.shell.exit,
                !self.shell.awaiting,
                self.shell.input@ == old(self).shell.input@ + text@.subrange(0, i as int),
                self.shell.history == old(self).shell.history,
                self.shell.output@ == old(self).shell.output@,
                self.worker == old(self).worker,
                self.req_chan@ == old(self).req_chan@,
                self.resp_chan@ == old(self).resp_chan@,
            decreases n - i,
        {
            let c = text.as_str().get_char(i);
            self.type_key(KeyInput::Character(c));
            i += 1;
            proof {
                assert(self.shell.input@ =~= old(self).shell.input@ + text@.subrange(
                    0,
                    i as int,
                ));
            }
        }
        proof {
            assert(text@.subrange(0, text@.len() as int) =~= text@);
        }
    }

    /// Enter reaches the shell: the input buffer is submitted, and the
    /// request it calls for — a quit, a query, or none for an empty
    /// line — is placed on the request channel. The submitted text is
    /// appended to the history in every branch, and the last output
    /// stands untouched.
    pub fn press_enter(&mut self)
        requires
            old(self).wf(),
            !old(self).shell.exit,
            !old(self).shell.awaiting,
        ensures
            final(self).wf(),
            final(self).worker == old(self).worker,
            final(self).resp_chan@ == old(self).resp_chan@,
            final(self).shell.input@ == Seq::<char>::empty(),
            seq_views(final(self).shell.history@) == seq_views(old(self).shell.history@).push(
                old(self).shell.input@,
            ),
            final(self).shell.output@ == old(self).shell.output@,
            old(self).shell.input@ == "quit"@ ==> final(self).shell.exit
                && !final(self).shell.awaiting && final(self).req_chan@.len() == 1
                && final(self).req_chan@[0] is Quit,
            old(self).shell.input@ != "quit"@ && old(self).shell.input@.len() == 0
                ==> !final(self).shell.exit && !final(self).shell.awaiting
                && final(self).req_chan@ == old(self).req_chan@
                && final(self).req_chan@.len() == 0,
            old(self).shell.input@ != "quit"@ && old(self).shell.input@.len() > 0
                ==> !final(self).shell.exit && final(self).shell.awaiting
                && final(self).req_chan@.len() == 1
                && (final(self).req_chan@[0] matches DbMessage::Query(q)
                    && q@ == old(self).shell.input@),
    {
        proof {
            assert(old(self).req_chan@.len() == 0);
            assert(old(self).resp_chan@.len() == 0);
        }
        let action = self.shell.handle_enter();
        match action {
            ShellAction::NoRequest => {},
            ShellAction::SendQuit => {
                self.req_chan.push(DbMessage::Quit);
            },
            ShellAction::SendQuery(q) => {
                self.req_chan.push(DbMessage::Query(q));
            },
        }
    }

    /// The worker's turn on a pending query request: it dequeues the
    /// one message in flight, the query is executed outside (its
    /// rendered outcome is `outcome`), and the one response owed for it
    /// — carrying exactly that outcome's text — goes on the response
    /// channel. A failed query is reported, not fatal: the worker keeps
    /// serving.
    pub fn worker_run(&mut self, outcome: &Result<String, String>)
        requires
            old(self).wf(),
            old(self).req_chan@.len() == 1,
            old(self).req_chan@[0] is Query,
        ensures
            final(self).wf(),
            final(self).shell == old(self).shell,
            final(self).req_chan@.len() == 0,
            final(self).resp_chan@.len() == 1,
            response_matches(*outcome, final(self).resp_chan@[0]),
            response_text(final(self).resp_chan@[0]) == outcome_text(*outcome),
            !final(self).worker.exit,
            final(self).worker.connected,
            final(self).worker.connection_url == old(self).worker.connection_url,
    {
        proof {
            assert(!old(self).worker.exit);
            assert(old(self).resp_chan@.len() == 0);
        }
        let msg = self.req_chan.remove(0);
        let act = self.worker.handle_message(Some(msg));
        match act {
            WorkerAction::RunQuery(_query_string) => {
                let resp = response_for(outcome);
                self.resp_chan.push(resp);
            },
            WorkerAction::Idle => {
                proof {
                    assert(false);
                }
            },
        }
    }

    /// The worker's turn on a pending quit request: it dequeues it and
    /// stops, sending no response — nothing is in flight afterwards.
    pub fn worker_accept_quit(&mut self)
        requires
            old(self).wf(),
            old(self).req_chan@.len() == 1,
            old(self).req_chan@[0] is Quit,
        ensures
            final(self).wf(),
            final(self).shell == old(self).shell,
            final(self).shell.exit,
            final(self).worker.exit,
            final(self).req_chan@.len() == 0,
            final(self).resp_chan@ == old(self).resp_chan@,
            final(self).resp_chan@.len() == 0,
    {
        proof {
            assert(!old(self).worker.exit);
        }
        let msg = self.req_chan.remove(0);
        let act = self.worker.handle_message(Some(msg));
        match act {
            WorkerAction::Idle => {},
            WorkerAction::RunQuery(_query_string) => {
                proof {
                    assert(false);
                }
            },
        }
    }

    /// The worker finds its request channel closed with nothing
    /// pending — the shell is gone — and treats that exactly like an
    /// explicit quit: it stops, and sends nothing.
    pub fn worker_channel_closed(&mut self)
        requires
            old(self).wf(),
            old(self).req_chan@.len() == 0,
            old(self).resp_chan@.len() == 0,
            old(self).shell.exit,
            !old(self).worker.exit,
        ensures
            final(self).wf(),
            final(self).shell == old(self).shell,
            final(self).worker.exit,
            final(self).req_chan@ == old(self).req_chan@,
            final(self).resp_chan@ == old(self).resp_chan@,
    {
        let act = self.worker.handle_message(None);
        match act {
            WorkerAction::Idle => {},
            WorkerAction::RunQuery(_query_string) => {
                proof {
                    assert(false);
                }
            },
        }
    }

    /// The shell consumes the one pending response: its text becomes
    /// the last output, the shell goes back to editing, and both
    /// channels are empty again. Because `wf` allows only one message
    /// in flight, the response consumed here can only be the answer to
    /// the request the shell sent last.
    pub fn deliver_response(&mut self)
        requires
            old(self).wf(),
            old(self).resp_chan@.len() == 1,
        ensures
            final(self).wf(),
            final(self).req_chan@ == old(self).req_chan@,
            final(self).req_chan@.len() == 0,
            final(self).resp_chan@.len() == 0,
            final(self).worker == old(self).worker,
            !final(self).shell.awaiting,
            !final(self).shell.exit,
            final(self).shell.output@ == response_text(old(self).resp_chan@[0]),
            final(self).shell.input == old(self).shell.input,
            final(self).shell.history == old(self).shell.history,
    {
        let msg = self.resp_chan.remove(0);
        self.shell.handle_response(msg);
    }

    /// One whole non-quit submission, end to end: enter, then — unless
    /// the line was empty and nothing was sent — the worker's turn on
    /// the query with rendered outcome `outcome`, and the delivery of
    /// its response. Afterwards the session is editing again with
    /// nothing in flight; the history gained exactly the submitted
    /// text; and the last output is the outcome's text, or untouched
    /// for an empty line.
    pub fn submit_command(&mut self, outcome: &Result<String, String>)
        requires
            old(self).wf(),
            !old(self).shell.exit,
            !old(self).shell.awaiting,
            old(self).shell.input@ != "quit"@,
        ensures
            final(self).wf(),
            !final(self).shell.exit,
            !final(self).shell.awaiting,
            !final(self).worker.exit,
            final(self).req_chan@.len() == 0,
            final(self).resp_chan@.len() == 0,
            final(self).shell.input@ == Seq::<char>::empty(),
            seq_views(final(self).shell.history@) == seq_views(old(self).shell.history@).push(
                old(self).shell.input@,
            ),
            old(self).shell.input@.len() > 0 ==> final(self).shell.output@ == outcome_text(
                *outcome,
            ),
            old(self).shell.input@.len() == 0
                ==> final(self).shell.output@ == old(self).shell.output@,
    {
        let submitted_empty = self.shell.input.as_str().is_empty();
        self.press_enter();
        if !submitted_empty {
            self.worker_run(outcome);
            self.deliver_response();
        }
    }

    /// The user quits: the quit request is submitted and the worker
    /// consumes it. Both loops have stopped, no response was ever sent
    /// for it, nothing is left in flight, and the shell's last output
    /// stands as it was.
    pub fn submit_quit(&mut self)
        requires
            old(self).wf(),
            !old(self).shell.exit,
            !old(self).shell.awaiting,
            old(self).shell.input@ == "quit"@,
        ensures
            final(self).wf(),
            final(self).shell.exit,
            final(self).worker.exit,
            !final(self).shell.awaiting,
            final(self).req_chan@.len() == 0,
            final(self).resp_chan@ == old(self).resp_chan@,
            final(self).resp_chan@.len() == 0,
            final(self).shell.output@ == old(self).shell.output@,
            final(self).shell.input@ == Seq::<char>::empty(),
            seq_views(final(self).shell.history@) == seq_views(old(self).shell.history@).push(
                old(self).shell.input@,
            ),
    {
        self.press_enter();
        self.worker_accept_quit();
    }
}

/// At most one request is ever outstanding: every session operation
/// requires and preserves `wf`, and in every such state the two
/// channels together carry at most one message — a second query is
/// never sent before the response to the previous one was consumed,
/// which is what lets channel order stand in for request identifiers.
pub proof fn lemma_single_outstanding_request(s: Session)
    requires
        s.wf(),
    ensures
        s.req_chan@.len() <= 1,
        s.req_chan@.len() + s.resp_chan@.len() <= 1,
{
}

/// A whole scripted run: each command in `cmds` is typed and
/// submitted in turn, the k-th query executing with rendered outcome
/// `outcomes[k]`; the output observed after each submission is
/// collected. Ensures, for every such script: the history is exactly
/// the submitted commands in order, whatever each outcome was; the
/// output observed after the k-th submission is exactly the text of
/// the k-th outcome; and an empty submission leaves the previously
/// observed output standing.
pub fn run_commands(cmds: &Vec<String>, outcomes: &Vec<Result<String, String>>, worker: Db) -> (r:
    (Session, Vec<String>))
    requires
        worker.connected,
        !worker.exit,
        cmds@.len() == outcomes@.len(),
        forall|i: int| 0 <= i < cmds@.len() ==> (#[trigger] cmds@[i])@ != "quit"@,
    ensures
        r.0.wf(),
        !r.0.shell.exit,
        !r.0.worker.exit,
        !r.0.shell.awaiting,
        r.0.req_chan@.len() == 0,
        r.0.resp_chan@.len() == 0,
        seq_views(r.0.shell.history@) == seq_views(cmds@),
        r.1@.len() == cmds@.len(),
        forall|k: int|
            0 <= k < cmds@.len() && (#[trigger] cmds@[k])@.len() > 0 ==> r.1@[k]@ == outcome_text(
                outcomes@[k],
            ),
        forall|k: int|
            0 <= k < cmds@.len() && (#[trigger] cmds@[k])@.len() == 0 ==> r.1@[k]@ == if k == 0 {
                Seq::<char>::empty()
            } else {
                r.1@[k - 1]@
            },
{
    let mut s = Session::new(worker);
    let mut outs: Vec<String> = Vec::new();
    let mut k: usize = 0;
    while k < cmds.len()
        invariant
            k <= cmds@.len(),
            cmds@.len() == outcomes@.len(),
            forall|i: int| 0 <= i < cmds@.len() ==> (#[trigger] cmds@[i])@ != "quit"@,
            s.wf(),
            !s.shell.exit,
            !s.shell.awaiting,
            !s.worker.exit,
            s.req_chan@.len() == 0,
            s.resp_chan@.len() == 0,
            s.shell.input@ == Seq::<char>::empty(),
            seq_views(s.shell.history@) == seq_views(cmds@.subrange(0, k as int)),
            outs@.len() == k,
            forall|j: int|
                0 <= j < k && (#[trigger] cmds@[j])@.len() > 0 ==> outs@[j]@ == outcome_text(
                    outcomes@[j],
                ),
            forall|j: int|
                0 <= j < k && (#[trigger] cmds@[j])@.len() == 0 ==> outs@[j]@ == if j == 0 {
                    Seq::<char>::empty()
                } else {
                    outs@[j - 1]@
                },
            s.shell.output@ == if k == 0 {
                Seq::<char>::empty()
            } else {
                outs@[k - 1]@
            },
        decreases cmds@.len() - k,
    {
        s.type_line(&cmds[k]);
        proof {
            assert(s.shell.input@ =~= cmds@[k as int]@);
        }
        s.submit_command(&outcomes[k]);
        outs.push(s.shell.output.clone());
        k += 1;
        proof {
            assert(seq_views(s.shell.history@) =~= seq_views(cmds@.subrange(0, k as int)));
        }
    }
    proof {
        assert(cmds@.subrange(0, cmds@.len() as int) =~= cmds@);
    }
    (s, outs)
}

} // verus!
