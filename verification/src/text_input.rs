//! Single-line text fields, backed by the `tui-textarea` editing buffer.

use vstd::prelude::*;
use crate::key::Key;

verus! {

broadcast use vstd::seq_lib::group_seq_properties;

/// A single-line text field over a `tui_textarea::TextArea`. The buffer is
/// kept out of sight: what the field holds is known through [`input_lines`]
/// and [`input_column`] alone, and the buffer is reached through the
/// functions below alone. None of them selects text, so nothing is ever
/// selected in a field's buffer.
#[verifier::external_body]
#[derive(Debug)]
pub struct TextInput {
    buffer: tui_textarea::TextArea<'static>,
}

/// The lines of text that a field's buffer holds, first line first.
pub uninterp spec fn input_lines(input: TextInput) -> Seq<Seq<char>>;

/// The column of the cursor in a field's buffer, counted in characters.
pub uninterp spec fn input_column(input: TextInput) -> nat;

/// A text field as plain values: its text, and the place of the cursor in
/// it, counted in characters from the start.
pub struct TextInputView {
    pub text: Seq<char>,
    pub cursor: nat,
}

impl TextInputView {
    /// The cursor stands inside the text or at its end.
    pub open spec fn wf(self) -> bool {
        self.cursor <= self.text.len()
    }

    /// The field that holds `text` with the cursor behind it.
    pub open spec fn at_end(text: Seq<char>) -> TextInputView {
        TextInputView { text, cursor: text.len() }
    }

    /// The field after a key. A character is inserted at the cursor, which
    /// moves behind it. Backspace deletes the character before the cursor,
    /// delete the one at the cursor. The arrows move the cursor by one
    /// character, home and end to the start and the end of the text. At the
    /// ends of the text, what cannot be done leaves the field as it is, and
    /// so does every other key.
    pub open spec fn edit(self, key: Key) -> TextInputView {
        let len = self.text.len();
        match key {
            Key::Char(c) => if key.is_insertion() {
                TextInputView {
                    text: self.text.insert(self.cursor as int, c),
                    cursor: self.cursor + 1,
                }
            } else {
                self
            },
            Key::Backspace => if self.cursor > 0 {
                TextInputView {
                    text: self.text.remove(self.cursor - 1),
                    cursor: (self.cursor - 1) as nat,
                }
            } else {
                self
            },
            Key::Delete => if self.cursor < len {
                TextInputView { text: self.text.remove(self.cursor as int), ..self }
            } else {
                self
            },
            Key::Left => if self.cursor > 0 {
                TextInputView { cursor: (self.cursor - 1) as nat, ..self }
            } else {
                self
            },
            Key::Right => if self.cursor < len {
                TextInputView { cursor: self.cursor + 1, ..self }
            } else {
                self
            },
            Key::Home => TextInputView { cursor: 0, ..self },
            Key::End => TextInputView { cursor: len, ..self },
            _ => self,
        }
    }

    /// Whether the field reacts to a key: its text or its cursor changes.
    pub open spec fn reacts(self, key: Key) -> bool {
        self.edit(key) != self
    }
}

/// `TextArea::default`: a fresh buffer holds one empty line, with the cursor
/// at its start.
#[verifier::external_body]
fn buffer_empty() -> (input: TextInput)
    ensures
        input_lines(input) == seq![Seq::<char>::empty()],
        input_column(input) == 0,
{
    TextInput { buffer: tui_textarea::TextArea::default() }
}

/// `TextArea::new`: a buffer made from one line holds exactly that line, with
/// the cursor at its start.
#[verifier::external_body]
fn buffer_with_line(line: &str) -> (input: TextInput)
    ensures
        input_lines(input) == seq![line@],
        input_column(input) == 0,
{
    TextInput { buffer: tui_textarea::TextArea::new(vec![line.to_string()]) }
}

/// The derived `Clone` of `TextArea`: the copy holds the same lines and the
/// same cursor.
#[verifier::external_body]
fn buffer_clone(input: &TextInput) -> (copy: TextInput)
    ensures
        input_lines(copy) == input_lines(*input),
        input_column(copy) == input_column(*input),
{
    TextInput { buffer: input.buffer.clone() }
}

/// `TextArea::lines`: the buffer's lines, copied out.
#[verifier::external_body]
fn buffer_read(input: &TextInput) -> (lines: Vec<String>)
    ensures
        lines@.len() == input_lines(*input).len(),
        forall|i: int|
            0 <= i < lines@.len() ==> (#[trigger] lines@[i])@ == input_lines(*input)[i],
{
    input.buffer.lines().to_vec()
}

/// `TextArea::cursor`: the column of the cursor.
#[verifier::external_body]
fn buffer_column(input: &TextInput) -> (column: usize)
    ensures
        column == input_column(*input),
{
    input.buffer.cursor().1
}

/// `TextArea::input` with a key that no modifier accompanies, on a buffer of
/// one line in which nothing is selected: the line and the cursor afterwards
/// are those that `TextInputView::edit` gives, and the result tells whether
/// the text was modified.
#[verifier::external_body]
fn buffer_input(input: &mut TextInput, key: Key) -> (modified: bool)
    requires
        key.is_line_edit(),
        old(input).wf(),
    ensures
        input_lines(*final(input)) == seq![old(input)@.edit(key).text],
        input_column(*final(input)) == old(input)@.edit(key).cursor,
        modified == (old(input)@.edit(key).text != old(input)@.text),
{
    let key = match key {
        Key::Char(c) => tui_textarea::Key::Char(c),
        Key::Backspace => tui_textarea::Key::Backspace,
        Key::Delete => tui_textarea::Key::Delete,
        Key::Left => tui_textarea::Key::Left,
        Key::Right => tui_textarea::Key::Right,
        Key::Home => tui_textarea::Key::Home,
        Key::End => tui_textarea::Key::End,
        _ => tui_textarea::Key::Null,
    };
    input.buffer.input(tui_textarea::Input { key, ctrl: false, alt: false, shift: false })
}

/// The first of `lines`, or the empty text where there is none.
pub open spec fn first_line(lines: Seq<Seq<char>>) -> Seq<char> {
    if lines.len() > 0 {
        lines[0]
    } else {
        Seq::empty()
    }
}

impl View for TextInput {
    type V = TextInputView;

    /// The field's text is the first line of its buffer.
    open spec fn view(&self) -> TextInputView {
        TextInputView { text: first_line(input_lines(*self)), cursor: input_column(*self) }
    }
}

impl Clone for TextInput {
    fn clone(&self) -> (copy: Self)
        ensures
            copy@ == self@,
            self.wf() ==> copy.wf(),
    {
        buffer_clone(self)
    }
}

impl TextInput {
    /// The buffer holds one line, and the cursor stands inside it or at its
    /// end.
    pub open spec fn wf(&self) -> bool {
        input_lines(*self).len() == 1 && self@.wf()
    }

    /// An empty field.
    pub fn new() -> (input: Self)
        ensures
            input.wf(),
            input@ == TextInputView::at_end(Seq::empty()),
    {
        buffer_empty()
    }

    /// A field that holds `text`, with the cursor behind it.
    pub fn from_text(text: &str) -> (input: Self)
        ensures
            input.wf(),
            input@ == TextInputView::at_end(text@),
    {
        let mut input = buffer_with_line(text);
        let _ = buffer_input(&mut input, Key::End);
        input
    }

    /// Whether the field is well-formed.
    pub fn is_well_formed(&self) -> (ok: bool)
        ensures
            ok == self.wf(),
    {
        let lines = buffer_read(self);
        lines.len() == 1 && buffer_column(self) <= lines[0].as_str().unicode_len()
    }

    /// The field's text.
    pub fn value(&self) -> (text: String)
        ensures
            text@ == self@.text,
    {
        let mut lines = buffer_read(self);
        if lines.len() > 0 {
            lines.swap_remove(0)
        } else {
            String::new()
        }
    }

    /// The place of the cursor in the text, counted in characters.
    pub fn cursor(&self) -> (column: usize)
        ensures
            column == self@.cursor,
    {
        buffer_column(self)
    }

    /// Whether the field holds no text.
    pub fn is_empty(&self) -> (empty: bool)
        ensures
            empty == (self@.text.len() == 0),
    {
        let text = self.value();
        text.as_str().unicode_len() == 0
    }

    /// Hands a key to the field. Keys that do not edit a line are ignored;
    /// the others go to the buffer. The result tells whether the field
    /// reacted: whether its text or its cursor changed.
    pub fn handle_key(&mut self, key: Key) -> (reacted: bool)
        requires
            old(self).wf(),
        ensures
            final(self).wf(),
            final(self)@ == old(self)@.edit(key),
            reacted == old(self)@.reacts(key),
    {
        if key.edits_line() {
            let before = buffer_column(self);
            let modified = buffer_input(self, key);
            let after = buffer_column(self);
            modified || before != after
        } else {
            false
        }
    }
}

} // verus!
