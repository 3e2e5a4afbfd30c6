use vstd::prelude::*;

use crate::communication::TuiMessage;
use crate::communication::response_text;

verus! {

/// One terminal input event, as the shell loop understands it: a
/// printable character, backspace, enter, or anything else (ignored).
/// The terminal device itself is an external collaborator; whatever
/// reads it reduces each event to one of these before handing it over.
#[derive(Debug, Clone, Copy, PartialEq)]
pub enum KeyInput {
    Character(char),
    Backspace,
    Enter,
    Other,
}

/// What the shell loop asks its surroundings to do after a key event:
/// nothing, send a quit request, or send a query request and then wait
/// for exactly one response before handling further input.
#[derive(Debug, PartialEq)]
pub enum ShellAction {
    NoRequest,
    SendQuit,
    SendQuery(String),
}

/// The views of a sequence of strings.
pub open spec fn seq_views(v: Seq<String>) -> Seq<Seq<char>> {
    v.map_values(|s: String| s@)
}

/// The line a history entry, the live input line, or the last output is
/// shown as: the text behind the prompt marker.
pub open spec fn prompt_line(s: Seq<char>) -> Seq<char> {
    "> "@ + s
}

/// What one frame shows, as a function of the shell state alone: one
/// line per history entry, then the live input line, then the last
/// output if there is any.
pub open spec fn render_spec(hist: Seq<Seq<char>>, input: Seq<char>, output: Seq<char>) -> Seq<
    Seq<char>,
> {
    let base = hist.map_values(|s: Seq<char>| prompt_line(s)).push(prompt_line(input));
    if output.len() == 0 {
        base
    } else {
        base.push(prompt_line(output))
    }
}

/// The shell loop's state. It owns the input buffer, the command
/// history and the last output exclusively; the worker never touches
/// them. `awaiting` records that a query request has been sent and its
/// response not yet consumed; `exit` that the user has quit and no
/// further input is read.
pub struct App {
    pub input: String,
    pub output: String,
    pub history: Vec<String>,
    pub exit: bool,
    pub awaiting: bool,
}

/// How a submission (enter on the current input buffer) changes the
/// shell state, and which request it emits:
/// - `quit` sends a quit request and makes the loop exit, awaiting no
///   response;
/// - an empty buffer sends nothing at all;
/// - any other text is sent as a query and the loop starts awaiting
///   the one response to it.
/// In every branch the submitted text is appended to the history and
/// the input buffer is cleared; the last output is untouched.
pub open spec fn submit_transition(pre: App, post: App, r: ShellAction) -> bool {
    &&& post.input@ == Seq::<char>::empty()
    &&& seq_views(post.history@) == seq_views(pre.history@).push(pre.input@)
    &&& post.output@ == pre.output@
    &&& if pre.input@ == "quit"@ {
        &&& post.exit
        &&& !post.awaiting
        &&& r is SendQuit
    } else if pre.input@.len() == 0 {
        &&& !post.exit
        &&& !post.awaiting
        &&& r is NoRequest
    } else {
        &&& !post.exit
        &&& post.awaiting
        &&& r matches ShellAction::SendQuery(q) && q@ == pre.input@
    }
}

/// How a non-enter key event changes the shell state: it only edits
/// the input buffer.
pub open spec fn edit_transition(pre: App, post: App, key: KeyInput) -> bool {
    &&& post.output == pre.output
    &&& post.history == pre.history
    &&& post.exit == pre.exit
    &&& post.awaiting == pre.awaiting
    &&& match key {
        KeyInput::Character(c) => post.input@ == pre.input@.push(c),
        KeyInput::Backspace => post.input@ == if pre.input@.len() == 0 {
            pre.input@
        } else {
            pre.input@.drop_last()
        },
        _ => post.input@ == pre.input@,
    }
}

/// Relies on String::push: appends the character at the end of the string.
#[verifier::external_body]
fn push_char(s: &mut String, c: char)
    ensures
        final(s)@ == old(s)@.push(c),
{
    s.push(c)
}

/// Relies on String::pop: removes and returns the last character, or
/// returns None and leaves the string as it is when it is empty.
#[verifier::external_body]
fn pop_char(s: &mut String) -> (r: Option<char>)
    ensures
        old(s)@.len() == 0 ==> final(s)@ == old(s)@ && r is None,
        old(s)@.len() > 0 ==> final(s)@ == old(s)@.drop_last() && r == Some(old(s)@.last()),
{
    s.pop()
}

impl App {
    /// A fresh shell: empty input buffer, empty history, no output yet,
    /// editing (neither exiting nor awaiting a response).
    pub fn new() -> (r: App)
        ensures
            r.input@ == Seq::<char>::empty(),
            r.output@ == Seq::<char>::empty(),
            seq_views(r.history@) == Seq::<Seq<char>>::empty(),
            !r.exit,
            !r.awaiting,
    {
        let r = App {
            input: String::new(),
            output: String::new(),
            history: Vec::new(),
            exit: false,
            awaiting: false,
        };
        proof {
            assert(seq_views(r.history@) =~= Seq::<Seq<char>>::empty());
        }
        r
    }

    /// Submit the input buffer: classify it, update the state, and say
    /// which request has to go on the request channel.
    pub fn handle_enter(&mut self) -> (r: ShellAction)
        requires
            !old(self).exit,
            !old(self).awaiting,
        ensures
            submit_transition(*old(self), *final(self), r),
    {
        let input = self.input.clone();
        self.input = String::new();
        let quit: String = String::from_str("quit");
        let r = if input == quit {
            self.exit = true;
            self.history.push(input);
            ShellAction::SendQuit
        } else if input.as_str().is_empty() {
            self.history.push(input);
            ShellAction::NoRequest
        } else {
            self.awaiting = true;
            let action = ShellAction::SendQuery(input.clone());
            self.history.push(input);
            action
        };
        proof {
            assert(seq_views(self.history@) =~= seq_views(old(self).history@).push(
                old(self).input@,
            ));
        }
        r
    }

    /// Handle one key event while editing: characters grow the input
    /// buffer, backspace shrinks it, enter submits it, and anything
    /// else is ignored.
    pub fn handle_key_event(&mut self, key: KeyInput) -> (r: ShellAction)
        requires
            !old(self).exit,
            !old(self).awaiting,
        ensures
            key is Enter ==> submit_transition(*old(self), *final(self), r),
            !(key is Enter) ==> edit_transition(*old(self), *final(self), key) && r
                is NoRequest,
    {
        match key {
            KeyInput::Character(c) => {
                push_char(&mut self.input, c);
                ShellAction::NoRequest
            },
            KeyInput::Backspace => {
                let _ = pop_char(&mut self.input);
                ShellAction::NoRequest
            },
            KeyInput::Enter => self.handle_enter(),
            KeyInput::Other => ShellAction::NoRequest,
        }
    }

    /// Consume the one response to the query last sent: its text, be it
    /// a result set or an error message, becomes the last output, and
    /// the shell goes back to editing. History, input buffer and the
    /// exit flag are untouched.
    pub fn handle_response(&mut self, msg: TuiMessage)
        requires
            old(self).awaiting,
        ensures
            final(self).output@ == response_text(msg),
            !final(self).awaiting,
            final(self).input == old(self).input,
            final(self).history == old(self).history,
            final(self).exit == old(self).exit,
    {
        match msg {
            TuiMessage::QueryResponse(value) => self.output = value,
            TuiMessage::Failure(value) => self.output = value,
        }
        self.awaiting = false;
    }

    /// One frame, as lines of text: a pure function of (history, input
    /// buffer, last output) that mutates none of them. The surrounding
    /// terminal code draws these lines as they are; only decoration
    /// (border, title, colors) is added outside.
    pub fn render(&self) -> (r: Vec<String>)
        ensures
            seq_views(r@) == render_spec(seq_views(self.history@), self.input@, self.output@),
    {
        let mut lines: Vec<String> = Vec::new();
        let mut i: usize = 0;
        while i < self.history.len()
            invariant
                i <= self.history@.len(),
                lines@.len() == i,
                forall|j: int|
                    0 <= j < i ==> (#[trigger] lines@[j])@ == prompt_line(self.history@[j]@),
            decreases self.history@.len() - i,
        {
            let mut line = String::from_str("> ");
            line.append(self.history[i].as_str());
            lines.push(line);
            i += 1;
        }
        let mut line = String::from_str("> ");
        line.append(self.input.as_str());
        lines.push(line);
        if !self.output.as_str().is_empty() {
            let mut out_line = String::from_str("> ");
            out_line.append(self.output.as_str());
            lines.push(out_line);
        }
        proof {
            let target = render_spec(seq_views(self.history@), self.input@, self.output@);
            assert forall|j: int| 0 <= j < target.len() implies seq_views(lines@)[j]
                == target[j] by {
                assert(seq_views(lines@)[j] == lines@[j]@);
            }
            assert(seq_views(lines@) =~= target);
        }
        lines
    }
}

/// Rendering is idempotent: it is a function of the shell state alone,
/// so two frames drawn from equal (history, input, output) are equal,
/// line for line. The executable `render` ensures its result equals
/// `render_spec` of its state, which this pins down to one value.
pub proof fn lemma_render_idempotent(
    r1: Seq<Seq<char>>,
    r2: Seq<Seq<char>>,
    hist: Seq<Seq<char>>,
    input: Seq<char>,
    output: Seq<char>,
)
    requires
        r1 == render_spec(hist, input, output),
        r2 == render_spec(hist, input, output),
    ensures
        r1 == r2,
{
}

} // verus!
