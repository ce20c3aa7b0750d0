//! The command-input model: the characters being typed, the command
//! pending submission, and the decisions taken on key events.  The
//! widget toolkit delivers raw key presses; what they mean for the
//! application is decided here, over plain values.

use vstd::prelude::*;

use crate::strings::{clear_chars, ends_with_char, push_char};
use crate::text::Text;

verus! {

/// The key value of the enter key as the toolkit reports it.
pub const KEY_ENTER: u32 = 65293;

/// An application-level event produced from the raw input stream.
#[derive(Debug)]
pub enum Event {
    /// A command was submitted for execution.
    Submit(String),
    /// The application was asked to close.
    Exit,
}

/// The mathematical state of the command input: the characters typed
/// so far and the command pending submission, if any.
pub struct CommandInputState {
    pub input: Seq<char>,
    pub command: Option<Seq<char>>,
}

/// The command being typed, and the last command submitted while the
/// application has not yet consumed it.
pub struct CommandInputBuffer {
    input: String,
    pub command: Option<String>,
}

impl View for CommandInputBuffer {
    type V = CommandInputState;

    closed spec fn view(&self) -> CommandInputState {
        CommandInputState {
            input: self.input@,
            command: match self.command {
                Some(ref c) => Some(c@),
                None => None,
            },
        }
    }
}

impl Default for CommandInputBuffer {
    /// An empty input with no command pending.
    fn default() -> (buffer: Self)
        ensures
            buffer@.input == Seq::<char>::empty(),
            buffer@.command is None,
    {
        CommandInputBuffer { input: String::new(), command: None }
    }
}

impl CommandInputBuffer {
    /// Records the current input as the pending command; the typed
    /// characters themselves stay in place.
    pub fn submit_command(&mut self)
        ensures
            final(self)@.command == Some(old(self)@.input),
            final(self)@.input == old(self)@.input,
    {
        self.command = Some(self.input.clone());
    }

    /// Clears the typed input; a pending command is untouched.
    pub fn clear(&mut self)
        ensures
            final(self)@.input == Seq::<char>::empty(),
            final(self)@.command == old(self)@.command,
    {
        clear_chars(&mut self.input);
    }

    /// The characters typed so far.
    pub fn input(&self) -> (input: &String)
        ensures
            input@ == self@.input,
    {
        &self.input
    }

    /// Appends one typed character to the input.
    pub fn push_input(&mut self, c: char)
        ensures
            final(self)@.input == old(self)@.input.push(c),
            final(self)@.command == old(self)@.command,
    {
        push_char(&mut self.input, c);
    }
}

/// Decides the application event for one key press over the input
/// view: shift+enter submits the shown text with a newline appended;
/// every other combination is left to the widget itself.
pub fn process_key_event(shift: bool, keyval: u32, text: String) -> (event: Option<Event>)
    ensures
        shift && keyval == KEY_ENTER ==> (event matches Some(e) && e matches Event::Submit(s)
            && s@ == text@.push('\n')),
        !(shift && keyval == KEY_ENTER) ==> event is None,
{
    if shift && keyval == KEY_ENTER {
        let mut submitted = text;
        push_char(&mut submitted, '\n');
        Some(Event::Submit(submitted))
    } else {
        None
    }
}

/// Decides the application event for one window event, together with
/// whether the input was captured: a close request or the escape key
/// asks for exit; shift+enter takes the input view's text and
/// submits it; anything else is left to the toolkit.  A close
/// request wins over everything, escape over shift+enter.
pub fn process_event(close_requested: bool, escape: bool, shift_enter: bool, input_view: &mut Text)
    -> (decision: Option<(Event, bool)>)
    ensures
        close_requested || escape ==> (decision matches Some(d) && d.0 is Exit && d.1 == false)
            && final(input_view)@ == old(input_view)@,
        !(close_requested || escape) && shift_enter ==> (decision matches Some(d)
            && d.0 matches Event::Submit(s) && s@ == old(input_view)@.text && d.1 == true)
            && final(input_view)@.text == Seq::<char>::empty()
            && final(input_view)@.id == old(input_view)@.id
            && final(input_view)@.parent == old(input_view)@.parent
            && final(input_view)@.editable == old(input_view)@.editable,
        !(close_requested || escape) && !shift_enter ==> decision is None && final(input_view)@
            == old(input_view)@,
{
    if close_requested || escape {
        Some((Event::Exit, false))
    } else if shift_enter {
        Some((Event::Submit(input_view.submit()), true))
    } else {
        None
    }
}

/// Normalises a submitted command for the shell: ensures a trailing
/// newline without touching anything else, so that the shell sees
/// exactly one complete line.
pub fn prepare_command(command: String) -> (prepared: String)
    ensures
        command@.len() > 0 && command@.last() == '\n' ==> prepared@ == command@,
        !(command@.len() > 0 && command@.last() == '\n') ==> prepared@ == command@.push('\n'),
{
    if ends_with_char(&command, '\n') {
        command
    } else {
        let mut prepared = command;
        push_char(&mut prepared, '\n');
        prepared
    }
}

} // verus!
