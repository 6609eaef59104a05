//! The developer console shown over the game (toggled with F8): a list of
//! messages and a visibility switch.
use vstd::prelude::*;

verus! {

/// The console: a visibility switch, a typed line and a message list.
pub struct Console {
    pub visible: bool,
    input_buffer: String,
    messages: Vec<String>,
    scroll_to_bottom: bool,
}

/// What a console holds: whether it is shown, the line being typed, its
/// messages, oldest first, and whether the next frame scrolls to the newest
/// one.
pub struct ConsoleView {
    pub visible: bool,
    pub input: Seq<char>,
    pub messages: Seq<Seq<char>>,
    pub scroll_to_bottom: bool,
}

impl View for Console {
    type V = ConsoleView;

    closed spec fn view(&self) -> ConsoleView {
        ConsoleView {
            visible: self.visible,
            input: self.input_buffer@,
            messages: self.messages@.map_values(|m: String| m@),
            scroll_to_bottom: self.scroll_to_bottom,
        }
    }
}

/// The message a new console starts with.
pub open spec fn greeting() -> Seq<char> {
    "[RebornMP] Console ready. Press F8 to toggle."@
}

/// The console after `toggle`: shown when it was hidden and hidden when it
/// was shown, all else unchanged.
pub open spec fn console_toggled(v: ConsoleView) -> ConsoleView {
    ConsoleView { visible: !v.visible, ..v }
}

impl Console {
    /// A hidden console holding only the greeting.
    pub fn new() -> (r: Self)
        ensures
            !r@.visible,
            r@.input == Seq::<char>::empty(),
            r@.messages == seq![greeting()],
            !r@.scroll_to_bottom,
    {
        let mut messages: Vec<String> = Vec::new();
        messages.push("[RebornMP] Console ready. Press F8 to toggle.".to_owned());
        let r = Console {
            visible: false,
            input_buffer: String::new(),
            messages,
            scroll_to_bottom: false,
        };
        assert(r@.messages =~= seq![greeting()]);
        r
    }

    /// Shows a hidden console, hides a shown one.
    pub fn toggle(&mut self)
        ensures
            final(self)@ == console_toggled(old(self)@),
    {
        self.visible = !self.visible;
    }

    /// Appends a message and asks the next frame to scroll to it.
    pub fn add_message(&mut self, msg: &str)
        ensures
            final(self)@ == (ConsoleView {
                messages: old(self)@.messages.push(msg@),
                scroll_to_bottom: true,
                ..old(self)@
            }),
    {
        let ghost before = self.messages@;
        self.messages.push(msg.to_owned());
        assert(self.messages@.map_values(|m: String| m@) =~= before.map_values(|m: String| m@).push(
            msg@,
        ));
        self.scroll_to_bottom = true;
    }

    /// Draws the console when it is shown; drawing changes nothing in it.
    pub fn render(&mut self)
        ensures
            final(self)@ == old(self)@,
    {
        if !self.visible {
            return;
        }
    }

    /// The messages, oldest first.
    pub fn messages(&self) -> (r: Vec<String>)
        ensures
            r@.map_values(|m: String| m@) == self@.messages,
    {
        self.messages.clone()
    }
}

/// Toggling twice gives back the console as it was.
pub proof fn lemma_console_toggle_twice(v: ConsoleView)
    ensures
        console_toggled(console_toggled(v)) == v,
{
}

} // verus!
