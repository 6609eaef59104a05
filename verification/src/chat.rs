//! The in-game chat: a bounded history of formatted lines and a line editor
//! that opens, takes key presses and closes.
use vstd::prelude::*;
use std::collections::VecDeque;

verus! {

/// The number of lines the chat history keeps.
pub const MAX_MESSAGES: usize = 20;

/// Enter: send the line.
pub const KEY_ENTER: char = '\r';

/// Backspace: delete the last character.
pub const KEY_BACKSPACE: char = '\x08';

/// Escape: drop the line and close.
pub const KEY_ESCAPE: char = '\x1B';

/// The chat of the client: its history and its line editor.
pub struct Chat {
    messages: VecDeque<String>,
    input_buffer: String,
    is_open: bool,
}

/// What a chat holds: its history, oldest line first, the line being typed,
/// and whether the editor is open.
pub struct ChatView {
    pub messages: Seq<Seq<char>>,
    pub input: Seq<char>,
    pub open: bool,
}

impl View for Chat {
    type V = ChatView;

    closed spec fn view(&self) -> ChatView {
        ChatView {
            messages: self.messages@.map_values(|m: String| m@),
            input: self.input_buffer@,
            open: self.is_open,
        }
    }
}

/// The line recorded for a message: `[time] sender: text`.
pub open spec fn chat_line(time: Seq<char>, sender: Seq<char>, text: Seq<char>) -> Seq<char> {
    seq!['['] + time + seq![']', ' '] + sender + seq![':', ' '] + text
}

/// The history after recording `line`: the line goes last, and when that
/// makes the history longer than `MAX_MESSAGES` the oldest line goes.
pub open spec fn record_line(history: Seq<Seq<char>>, line: Seq<char>) -> Seq<Seq<char>> {
    let grown = history.push(line);
    if grown.len() > MAX_MESSAGES {
        grown.drop_first()
    } else {
        grown
    }
}

/// Characters the editor accepts into the line: the printable ASCII
/// characters other than space (`'!'` to `'~'`), and space.
pub open spec fn is_typeable(c: char) -> bool {
    ('!' <= c && c <= '~') || c == ' '
}

/// One key press given to the editor: the chat afterwards, and whether the
/// typed line is to be sent.
pub open spec fn input_step(v: ChatView, c: char) -> (ChatView, bool) {
    if !v.open {
        (v, false)
    } else if c == KEY_ENTER {
        if v.input.len() > 0 {
            (ChatView { messages: v.messages, input: Seq::empty(), open: false }, true)
        } else {
            (ChatView { messages: v.messages, input: v.input, open: false }, false)
        }
    } else if c == KEY_BACKSPACE {
        let input = if v.input.len() > 0 { v.input.drop_last() } else { v.input };
        (ChatView { messages: v.messages, input: input, open: true }, false)
    } else if c == KEY_ESCAPE {
        (ChatView { messages: v.messages, input: Seq::empty(), open: false }, false)
    } else if is_typeable(c) {
        (ChatView { messages: v.messages, input: v.input.push(c), open: true }, false)
    } else {
        (v, false)
    }
}

/// The chat after `toggle`: the editor flips, and a line left over is
/// dropped when it opens.
pub open spec fn toggled(v: ChatView) -> ChatView {
    ChatView {
        messages: v.messages,
        input: if !v.open { Seq::empty() } else { v.input },
        open: !v.open,
    }
}

/// The history never holds more than `MAX_MESSAGES` lines: recording a
/// line into a history within the bound keeps it within the bound, and the
/// recorded line is the newest one, right after the lines that stay.
pub proof fn lemma_history_bounded(history: Seq<Seq<char>>, line: Seq<char>)
    requires
        history.len() <= MAX_MESSAGES,
    ensures
        record_line(history, line).len() <= MAX_MESSAGES,
        record_line(history, line).last() == line,
        history.len() < MAX_MESSAGES ==> record_line(history, line) == history.push(line),
        history.len() == MAX_MESSAGES ==> record_line(history, line) == history.drop_first().push(line),
{
    if history.len() == MAX_MESSAGES {
        assert(history.push(line).drop_first() =~= history.drop_first().push(line));
    }
}

/// Typing a character the editor accepts and then pressing backspace
/// leaves the chat as it was.
pub proof fn lemma_backspace_undoes_typing(v: ChatView, c: char)
    requires
        v.open,
        is_typeable(c),
    ensures
        input_step(input_step(v, c).0, KEY_BACKSPACE) == (v, false),
{
    let typed = input_step(v, c).0;
    assert(typed.input.drop_last() =~= v.input);
}

/// With the editor open, every ASCII graphic character (`'!'` to `'~'`)
/// and the space is appended to the typed line as it is, and any other
/// character that is not Enter, Backspace or Escape changes nothing.
pub proof fn lemma_typing_appends(v: ChatView, c: char)
    requires
        v.open,
    ensures
        ('!' <= c && c <= '~') || c == ' ' ==> input_step(v, c) == (
        ChatView { messages: v.messages, input: v.input.push(c), open: true },
        false,
        ),
        !(('!' <= c && c <= '~') || c == ' ') && c != '\r' && c != '\x08' && c != '\x1B' ==> input_step(v, c)
            == (v, false),
{
}

/// Key presses never touch the history, and a closed editor ignores them.
pub proof fn lemma_keys_keep_history(v: ChatView, c: char)
    ensures
        input_step(v, c).0.messages == v.messages,
        !v.open ==> input_step(v, c) == (v, false),
{
}

/// A line is reported for sending only when the editor was open with a
/// non-empty line, and afterwards the editor is closed and empty.
pub proof fn lemma_send_closes(v: ChatView, c: char)
    ensures
        input_step(v, c).1 <==> (v.open && c == KEY_ENTER && v.input.len() > 0),
        input_step(v, c).1 ==> !input_step(v, c).0.open && input_step(v, c).0.input.len() == 0,
{
}

/// Toggling twice brings the editor back to the state it had, with the
/// same history; the line typed so far is gone either way.
pub proof fn lemma_toggle_twice(v: ChatView)
    ensures
        toggled(toggled(v)).open == v.open,
        toggled(toggled(v)).messages == v.messages,
        toggled(toggled(v)).input.len() == 0,
{
}

/// One change made to a chat, as its view sees it: a toggle, a recorded
/// line, or a key press.
pub enum ChatOp {
    Toggle,
    Record(Seq<char>),
    Key(char),
}

/// The view of a new chat.
pub open spec fn new_chat_view() -> ChatView {
    ChatView { messages: Seq::empty(), input: Seq::empty(), open: false }
}

/// The chat after one operation: `toggle`, `add_message` recording the
/// line, or `handle_input` with the key.
pub open spec fn apply_op(v: ChatView, op: ChatOp) -> ChatView {
    match op {
        ChatOp::Toggle => toggled(v),
        ChatOp::Record(line) => ChatView {
            messages: record_line(v.messages, line),
            input: v.input,
            open: v.open,
        },
        ChatOp::Key(c) => input_step(v, c).0,
    }
}

/// The chat after a sequence of operations, first to last.
pub open spec fn run_ops(v: ChatView, ops: Seq<ChatOp>) -> ChatView
    decreases ops.len(),
{
    if ops.len() == 0 {
        v
    } else {
        apply_op(run_ops(v, ops.drop_last()), ops.last())
    }
}

/// The lines recorded by a sequence of operations, in order.
pub open spec fn recorded_lines(ops: Seq<ChatOp>) -> Seq<Seq<char>>
    decreases ops.len(),
{
    if ops.len() == 0 {
        Seq::empty()
    } else {
        let before = recorded_lines(ops.drop_last());
        match ops.last() {
            ChatOp::Record(line) => before.push(line),
            _ => before,
        }
    }
}

/// The last `n` elements of `s`, or all of them when there are fewer.
pub open spec fn newest<T>(s: Seq<T>, n: nat) -> Seq<T> {
    if s.len() <= n {
        s
    } else {
        s.subrange(s.len() - n, s.len() as int)
    }
}

/// Every character of the typed line is one the editor accepts.
pub open spec fn input_typeable(v: ChatView) -> bool {
    forall|i: int| 0 <= i < v.input.len() ==> is_typeable(#[trigger] v.input[i])
}

/// Whatever a chat goes through from new, its history is the last
/// `MAX_MESSAGES` lines recorded (all of them while there are fewer),
/// oldest first, and its typed line holds only characters the editor
/// accepts: printable ASCII and space.
pub proof fn lemma_chat_runs(ops: Seq<ChatOp>)
    ensures
        run_ops(new_chat_view(), ops).messages == newest(recorded_lines(ops), MAX_MESSAGES as nat),
        run_ops(new_chat_view(), ops).messages.len() <= MAX_MESSAGES,
        input_typeable(run_ops(new_chat_view(), ops)),
    decreases ops.len(),
{
    if ops.len() > 0 {
        let prev_ops = ops.drop_last();
        lemma_chat_runs(prev_ops);
        let v = run_ops(new_chat_view(), prev_ops);
        let a = recorded_lines(prev_ops);
        match ops.last() {
            ChatOp::Record(line) => {
                let n = MAX_MESSAGES as nat;
                if a.len() >= n {
                    assert(newest(a, n).push(line).drop_first() =~= newest(a.push(line), n));
                } else {
                    assert(newest(a, n).push(line) =~= newest(a.push(line), n));
                }
            },
            ChatOp::Toggle => {
                assert(input_typeable(toggled(v)));
            },
            ChatOp::Key(c) => {
                let w = input_step(v, c).0;
                assert forall|i: int| 0 <= i < w.input.len() implies is_typeable(#[trigger] w.input[i]) by {
                    if v.open && c != KEY_ENTER && c != KEY_BACKSPACE && c != KEY_ESCAPE && is_typeable(c) {
                        if i < v.input.len() {
                            assert(w.input[i] == v.input[i]);
                        }
                    } else if v.open && c == KEY_BACKSPACE && v.input.len() > 0 {
                        assert(w.input[i] == v.input[i]);
                    }
                }
            },
        }
    }
}

impl Chat {
    /// An empty history, an empty line and a closed editor.
    pub fn new() -> (r: Self)
        ensures
            r@.messages == Seq::<Seq<char>>::empty(),
            r@.input == Seq::<char>::empty(),
            !r@.open,
            r@ == new_chat_view(),
    {
        let r = Chat { messages: VecDeque::new(), input_buffer: String::new(), is_open: false };
        assert(r@.messages =~= Seq::<Seq<char>>::empty());
        r
    }

    /// Records `[time] sender: text`, `time` being the time of day the
    /// caller read from the clock.
    pub fn add_message(&mut self, time: &str, sender: &str, text: &str)
        ensures
            final(self)@.messages == record_line(old(self)@.messages, chat_line(time@, sender@, text@)),
            final(self)@.input == old(self)@.input,
            final(self)@.open == old(self)@.open,
            final(self)@ == apply_op(old(self)@, ChatOp::Record(chat_line(time@, sender@, text@))),
    {
        let mut line = String::new();
        line.push('[');
        line.push_str(time);
        line.push(']');
        line.push(' ');
        line.push_str(sender);
        line.push(':');
        line.push(' ');
        line.push_str(text);
        assert(line@ =~= chat_line(time@, sender@, text@));
        let ghost before = self.messages@;
        self.messages.push_back(line);
        assert(self.messages@.map_values(|m: String| m@) =~= before.map_values(|m: String| m@).push(
            chat_line(time@, sender@, text@),
        ));
        if self.messages.len() > MAX_MESSAGES {
            let ghost grown = self.messages@;
            let _ = self.messages.pop_front();
            assert(self.messages@.map_values(|m: String| m@) =~= grown.map_values(
                |m: String| m@,
            ).drop_first());
        }
    }

    /// The newest line of the history, if there is one.
    pub fn last_message(&self) -> (r: Option<String>)
        ensures
            self@.messages.len() == 0 ==> r is None,
            self@.messages.len() > 0 ==> (r matches Some(m) && m@ == self@.messages.last()),
    {
        let n = self.messages.len();
        if n == 0 {
            None
        } else {
            Some(self.messages[n - 1].clone())
        }
    }

    /// Opens a closed editor with an empty line, or closes an open one.
    pub fn toggle(&mut self)
        ensures
            final(self)@ == toggled(old(self)@),
            final(self)@ == apply_op(old(self)@, ChatOp::Toggle),
    {
        self.is_open = !self.is_open;
        if self.is_open {
            self.input_buffer.clear();
        }
    }

    pub fn is_open(&self) -> (r: bool)
        ensures
            r == self@.open,
    {
        self.is_open
    }

    /// Feeds one key press to the editor; returns whether the typed line
    /// is to be sent.
    pub fn handle_input(&mut self, input: char) -> (sent: bool)
        ensures
            (final(self)@, sent) == input_step(old(self)@, input),
            final(self)@ == apply_op(old(self)@, ChatOp::Key(input)),
            old(self)@.open && (('!' <= input && input <= '~') || input == ' ') ==> {
                &&& !sent
                &&& final(self)@.open
                &&& final(self)@.input == old(self)@.input.push(input)
                &&& final(self)@.messages == old(self)@.messages
            },
            old(self)@.open && !(('!' <= input && input <= '~') || input == ' ') && input != KEY_ENTER
                && input != KEY_BACKSPACE && input != KEY_ESCAPE ==> !sent && final(self)@ == old(self)@,
    {
        if !self.is_open {
            return false;
        }
        if input == KEY_ENTER {
            if !self.input_buffer.as_str().is_empty() {
                self.input_buffer.clear();
                self.is_open = false;
                return true;
            }
            self.is_open = false;
        } else if input == KEY_BACKSPACE {
            let _ = self.input_buffer.pop();
        } else if input == KEY_ESCAPE {
            self.input_buffer.clear();
            self.is_open = false;
        } else if ('!' <= input && input <= '~') || input == ' ' {
            self.input_buffer.push(input);
        }
        false
    }

    /// The line being typed.
    pub fn get_current_input(&self) -> (r: String)
        ensures
            r@ == self@.input,
    {
        self.input_buffer.clone()
    }
}

} // verus!
