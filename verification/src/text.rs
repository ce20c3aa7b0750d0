//! The text views of the terminal window, as plain data: the
//! characters a widget shows, with the widget and parent identities
//! kept as plain numbers.  The toolkit that draws them stays outside;
//! everything it needs to read or replace goes through the verified
//! operations here.

use vstd::prelude::*;

use crate::strings::{append_str, clear_chars};

verus! {

/// Read and replace the text a view shows.
pub trait TextView {
    /// The characters the view currently shows.
    spec fn text_view(&self) -> Seq<char>;

    /// The current text.
    fn get_text(&self) -> (text: &String)
        ensures
            text@ == self.text_view(),
    ;

    /// Replaces the text wholesale.
    fn set_text(&mut self, string: &str)
        ensures
            final(self).text_view() == string@,
    ;
}

/// The mathematical state of one text widget.
pub struct TextState {
    pub editable: bool,
    pub id: usize,
    pub parent: usize,
    pub text: Seq<char>,
}

/// One text widget of the window: an editable command input or the
/// read-only output view, holding its widget id, its parent canvas
/// id, and the characters shown.
pub struct Text {
    editable: bool,
    id: usize,
    parent: usize,
    text: String,
}

impl View for Text {
    type V = TextState;

    closed spec fn view(&self) -> TextState {
        TextState { editable: self.editable, id: self.id, parent: self.parent, text: self.text@ }
    }
}

impl Text {
    /// A fresh, empty text view for the given widget and parent ids.
    pub fn new(widget_id: usize, parent_id: usize, editable: bool) -> (text: Text)
        ensures
            text@.editable == editable,
            text@.id == widget_id,
            text@.parent == parent_id,
            text@.text == Seq::<char>::empty(),
    {
        Text { editable, id: widget_id, parent: parent_id, text: String::new() }
    }

    /// Takes the current text for submission and leaves the view
    /// empty; everything else about the widget stays as it was.
    pub fn submit(&mut self) -> (submitted: String)
        ensures
            submitted@ == old(self)@.text,
            final(self)@.text == Seq::<char>::empty(),
            final(self)@.editable == old(self)@.editable,
            final(self)@.id == old(self)@.id,
            final(self)@.parent == old(self)@.parent,
    {
        let submitted = self.text.clone();
        clear_chars(&mut self.text);
        submitted
    }
}

impl TextView for Text {
    open spec fn text_view(&self) -> Seq<char> {
        self@.text
    }

    fn get_text(&self) -> (text: &String) {
        &self.text
    }

    fn set_text(&mut self, string: &str) {
        clear_chars(&mut self.text);
        append_str(&mut self.text, string);
        proof {
            assert(Seq::<char>::empty() + string@ =~= string@);
        }
    }
}

} // verus!
