//! The form for a new launch agent: its fields and their cycle, what it
//! holds, and what its values make.

use vstd::prelude::*;
use crate::number::{decimal_digits, decimal_text, parse_decimal, parse_u32};
use crate::text_input::{TextInput, TextInputView};

verus! {

broadcast use vstd::seq_lib::group_seq_properties;

/// The fields of the form, in the order of their cycle.
#[derive(Debug, Clone, Copy, PartialEq, Eq, Structural)]
pub enum NewAgentFormField {
    Domain,
    Program,
    Arguments,
    KeepAlive,
    StdoutPath,
    StderrPath,
    UseInterval,
    Interval,
    CreateButton,
    CancelButton,
}

impl NewAgentFormField {
    /// The two buttons, which take no text.
    pub open spec fn is_button(self) -> bool {
        self == NewAgentFormField::CreateButton || self == NewAgentFormField::CancelButton
    }

    /// The fields that hold a path and offer completions.
    pub open spec fn is_path_field(self) -> bool {
        self == NewAgentFormField::Program || self == NewAgentFormField::StdoutPath || self
            == NewAgentFormField::StderrPath
    }

    /// Whether the field is one of the two buttons.
    pub fn button(self) -> (b: bool)
        ensures
            b == self.is_button(),
    {
        match self {
            NewAgentFormField::CreateButton | NewAgentFormField::CancelButton => true,
            _ => false,
        }
    }

    /// Whether the field holds a path.
    pub fn path_field(self) -> (b: bool)
        ensures
            b == self.is_path_field(),
    {
        match self {
            NewAgentFormField::Program
            | NewAgentFormField::StdoutPath
            | NewAgentFormField::StderrPath => true,
            _ => false,
        }
    }

    /// The field after this one in the cycle. The interval is visited only
    /// while it is in use.
    pub open spec fn next(self, use_interval: bool) -> NewAgentFormField {
        match self {
            NewAgentFormField::Domain => NewAgentFormField::Program,
            NewAgentFormField::Program => NewAgentFormField::Arguments,
            NewAgentFormField::Arguments => NewAgentFormField::KeepAlive,
            NewAgentFormField::KeepAlive => NewAgentFormField::StdoutPath,
            NewAgentFormField::StdoutPath => NewAgentFormField::StderrPath,
            NewAgentFormField::StderrPath => NewAgentFormField::UseInterval,
            NewAgentFormField::UseInterval => if use_interval {
                NewAgentFormField::Interval
            } else {
                NewAgentFormField::CreateButton
            },
            NewAgentFormField::Interval => NewAgentFormField::CreateButton,
            NewAgentFormField::CreateButton => NewAgentFormField::CancelButton,
            NewAgentFormField::CancelButton => NewAgentFormField::Domain,
        }
    }

    /// The field before this one in the cycle. The interval is visited only
    /// while it is in use.
    pub open spec fn previous(self, use_interval: bool) -> NewAgentFormField {
        match self {
            NewAgentFormField::Domain => NewAgentFormField::CancelButton,
            NewAgentFormField::Program => NewAgentFormField::Domain,
            NewAgentFormField::Arguments => NewAgentFormField::Program,
            NewAgentFormField::KeepAlive => NewAgentFormField::Arguments,
            NewAgentFormField::StdoutPath => NewAgentFormField::KeepAlive,
            NewAgentFormField::StderrPath => NewAgentFormField::StdoutPath,
            NewAgentFormField::UseInterval => NewAgentFormField::StderrPath,
            NewAgentFormField::Interval => NewAgentFormField::UseInterval,
            NewAgentFormField::CreateButton => if use_interval {
                NewAgentFormField::Interval
            } else {
                NewAgentFormField::UseInterval
            },
            NewAgentFormField::CancelButton => NewAgentFormField::CreateButton,
        }
    }

    /// The field after this one in the cycle.
    pub fn next_field(self, use_interval: bool) -> (field: NewAgentFormField)
        ensures
            field == self.next(use_interval),
    {
        match self {
            NewAgentFormField::Domain => NewAgentFormField::Program,
            NewAgentFormField::Program => NewAgentFormField::Arguments,
            NewAgentFormField::Arguments => NewAgentFormField::KeepAlive,
            NewAgentFormField::KeepAlive => NewAgentFormField::StdoutPath,
            NewAgentFormField::StdoutPath => NewAgentFormField::StderrPath,
            NewAgentFormField::StderrPath => NewAgentFormField::UseInterval,
            NewAgentFormField::UseInterval => {
                if use_interval {
                    NewAgentFormField::Interval
                } else {
                    NewAgentFormField::CreateButton
                }
            },
            NewAgentFormField::Interval => NewAgentFormField::CreateButton,
            NewAgentFormField::CreateButton => NewAgentFormField::CancelButton,
            NewAgentFormField::CancelButton => NewAgentFormField::Domain,
        }
    }

    /// The field before this one in the cycle.
    pub fn previous_field(self, use_interval: bool) -> (field: NewAgentFormField)
        ensures
            field == self.previous(use_interval),
    {
        match self {
            NewAgentFormField::Domain => NewAgentFormField::CancelButton,
            NewAgentFormField::Program => NewAgentFormField::Domain,
            NewAgentFormField::Arguments => NewAgentFormField::Program,
            NewAgentFormField::KeepAlive => NewAgentFormField::Arguments,
            NewAgentFormField::StdoutPath => NewAgentFormField::KeepAlive,
            NewAgentFormField::StderrPath => NewAgentFormField::StdoutPath,
            NewAgentFormField::UseInterval => NewAgentFormField::StderrPath,
            NewAgentFormField::Interval => NewAgentFormField::UseInterval,
            NewAgentFormField::CreateButton => {
                if use_interval {
                    NewAgentFormField::Interval
                } else {
                    NewAgentFormField::UseInterval
                }
            },
            NewAgentFormField::CancelButton => NewAgentFormField::CreateButton,
        }
    }
}

/// Going forward and then back comes home to the field one started from,
/// from every field but one: the interval while it is not in use, which the
/// way back passes over.
pub proof fn lemma_next_then_previous(field: NewAgentFormField, use_interval: bool)
    requires
        field != NewAgentFormField::Interval || use_interval,
    ensures
        field.next(use_interval).previous(use_interval) == field,
{
}

/// Going back and then forward comes home to the field one started from,
/// from every field but the interval while it is not in use.
pub proof fn lemma_previous_then_next(field: NewAgentFormField, use_interval: bool)
    requires
        field != NewAgentFormField::Interval || use_interval,
    ensures
        field.previous(use_interval).next(use_interval) == field,
{
}

/// While the interval is not in use, both directions pass over it: the
/// interval switch and the create button are neighbours, and no step arrives
/// at the interval.
pub proof fn lemma_unused_interval_is_skipped(field: NewAgentFormField)
    ensures
        NewAgentFormField::UseInterval.next(false) == NewAgentFormField::CreateButton,
        NewAgentFormField::CreateButton.previous(false) == NewAgentFormField::UseInterval,
        NewAgentFormField::Interval.next(false) == NewAgentFormField::CreateButton,
        field.next(false) != NewAgentFormField::Interval,
        field.previous(false) != NewAgentFormField::Interval,
{
}

/// What the form holds while a new agent is described.
#[derive(Debug, Clone)]
pub struct NewAgentForm {
    pub domain_input: TextInput,
    pub program_input: TextInput,
    /// The arguments entered so far.
    pub arguments: Vec<String>,
    pub keep_alive: bool,
    pub stdout_path_input: TextInput,
    pub stderr_path_input: TextInput,
    pub use_interval: bool,
    /// The number that `interval_input` was last read as.
    pub interval: u32,
    pub interval_input: TextInput,
    /// The argument that is being typed.
    pub argument_input: TextInput,
    /// The completions offered for the path field in focus.
    pub path_suggestions: Vec<String>,
    pub show_suggestions: bool,
    pub selected_suggestion: usize,
    /// Whether the field in focus takes keys.
    pub input_mode: bool,
}

/// What the form holds, as plain values.
pub struct NewAgentFormView {
    pub domain: TextInputView,
    pub program: TextInputView,
    pub arguments: Seq<Seq<char>>,
    pub keep_alive: bool,
    pub stdout_path: TextInputView,
    pub stderr_path: TextInputView,
    pub use_interval: bool,
    pub interval: u32,
    pub interval_text: TextInputView,
    pub pending_argument: TextInputView,
    pub path_suggestions: Seq<Seq<char>>,
    pub show_suggestions: bool,
    pub selected_suggestion: usize,
    pub input_mode: bool,
}

impl View for NewAgentForm {
    type V = NewAgentFormView;

    open spec fn view(&self) -> NewAgentFormView {
        NewAgentFormView {
            domain: self.domain_input@,
            program: self.program_input@,
            arguments: self.arguments.deep_view(),
            keep_alive: self.keep_alive,
            stdout_path: self.stdout_path_input@,
            stderr_path: self.stderr_path_input@,
            use_interval: self.use_interval,
            interval: self.interval,
            interval_text: self.interval_input@,
            pending_argument: self.argument_input@,
            path_suggestions: self.path_suggestions.deep_view(),
            show_suggestions: self.show_suggestions,
            selected_suggestion: self.selected_suggestion,
            input_mode: self.input_mode,
        }
    }
}

/// The path that a new agent's output goes to unless another is typed.
pub open spec fn default_output_path() -> Seq<char> {
    seq!['/', 'd', 'e', 'v', '/', 'n', 'u', 'l', 'l']
}

/// The interval that a fresh form starts with: one hour, in seconds.
pub open spec fn default_interval() -> u32 {
    3600
}

impl NewAgentFormView {
    /// A fresh form: nothing typed, output to the null device, kept alive,
    /// an interval of one hour that is not in use.
    pub open spec fn fresh() -> NewAgentFormView {
        NewAgentFormView {
            domain: TextInputView::at_end(Seq::empty()),
            program: TextInputView::at_end(Seq::empty()),
            arguments: Seq::empty(),
            keep_alive: true,
            stdout_path: TextInputView::at_end(default_output_path()),
            stderr_path: TextInputView::at_end(default_output_path()),
            use_interval: false,
            interval: default_interval(),
            interval_text: TextInputView::at_end(decimal_digits(default_interval() as nat)),
            pending_argument: TextInputView::at_end(Seq::empty()),
            path_suggestions: Seq::empty(),
            show_suggestions: false,
            selected_suggestion: 0,
            input_mode: false,
        }
    }

    /// The interval's text reads as its number, or the text is empty and
    /// the number is zero.
    pub open spec fn interval_consistent(self) -> bool {
        (self.interval_text.text.len() == 0 && self.interval == 0) || parse_decimal(
            self.interval_text.text,
        ) == Some(self.interval)
    }

    /// While completions are shown and there are any, one of them is
    /// selected. The interval's text and number agree. In every text field
    /// the cursor stands inside the text or at its end.
    pub open spec fn wf(self) -> bool {
        &&& self.show_suggestions && self.path_suggestions.len() > 0 ==> self.selected_suggestion
            < self.path_suggestions.len()
        &&& self.interval_consistent()
        &&& self.domain.wf()
        &&& self.program.wf()
        &&& self.stdout_path.wf()
        &&& self.stderr_path.wf()
        &&& self.interval_text.wf()
        &&& self.pending_argument.wf()
    }

    /// The text of a path field; the empty text for any other field.
    pub open spec fn path_text(self, field: NewAgentFormField) -> Seq<char> {
        match field {
            NewAgentFormField::Program => self.program.text,
            NewAgentFormField::StdoutPath => self.stdout_path.text,
            NewAgentFormField::StderrPath => self.stderr_path.text,
            _ => Seq::empty(),
        }
    }

    /// The form once the argument being typed is taken in: where there is
    /// one, it joins the arguments at their end and its field is emptied.
    pub open spec fn commit_argument(self) -> NewAgentFormView {
        if self.pending_argument.text.len() > 0 {
            NewAgentFormView {
                arguments: self.arguments.push(self.pending_argument.text),
                pending_argument: TextInputView::at_end(Seq::empty()),
                ..self
            }
        } else {
            self
        }
    }

    /// The form once the interval's number is brought up to its text after
    /// an edit. Where a deletion emptied the field, the number is zero.
    /// Where the text reads as a number, that is the number. Where it does
    /// not, the number stays and the field is set back to the text that
    /// writes it, with the cursor behind.
    pub open spec fn reread_interval(self, deletion: bool) -> NewAgentFormView {
        if deletion && self.interval_text.text.len() == 0 {
            NewAgentFormView { interval: 0, ..self }
        } else {
            match parse_decimal(self.interval_text.text) {
                Some(number) => NewAgentFormView { interval: number, ..self },
                None => NewAgentFormView {
                    interval_text: TextInputView::at_end(decimal_digits(self.interval as nat)),
                    ..self
                },
            }
        }
    }
}

/// After the interval was reread, its text and its number agree.
pub proof fn lemma_reread_interval_consistent(form: NewAgentFormView, deletion: bool)
    ensures
        form.reread_interval(deletion).interval_consistent(),
        form.reread_interval(deletion).interval_text.wf() <== form.interval_text.wf(),
{
    crate::number::lemma_parse_decimal_digits(form.interval);
}

impl NewAgentForm {
    /// Each text field of the form is well-formed.
    pub open spec fn inputs_wf(&self) -> bool {
        &&& self.domain_input.wf()
        &&& self.program_input.wf()
        &&& self.stdout_path_input.wf()
        &&& self.stderr_path_input.wf()
        &&& self.interval_input.wf()
        &&& self.argument_input.wf()
    }

    /// The form holds well-formed values in well-formed text fields.
    pub open spec fn wf(&self) -> bool {
        self@.wf() && self.inputs_wf()
    }

    /// A fresh form.
    pub fn new() -> (form: Self)
        ensures
            form@ == NewAgentFormView::fresh(),
            form.wf(),
    {
        proof {
            reveal_strlit("/dev/null");
        }
        assert("/dev/null"@ =~= default_output_path());
        let interval: u32 = 3600;
        let form = NewAgentForm {
            domain_input: TextInput::new(),
            program_input: TextInput::new(),
            arguments: Vec::new(),
            keep_alive: true,
            stdout_path_input: TextInput::from_text("/dev/null"),
            stderr_path_input: TextInput::from_text("/dev/null"),
            use_interval: false,
            interval,
            interval_input: TextInput::from_text(decimal_text(interval).as_str()),
            argument_input: TextInput::new(),
            path_suggestions: Vec::new(),
            show_suggestions: false,
            selected_suggestion: 0,
            input_mode: false,
        };
        assert(form@.arguments =~= Seq::<Seq<char>>::empty());
        assert(form@.path_suggestions =~= Seq::<Seq<char>>::empty());
        form
    }

    /// Whether the form is well-formed.
    pub fn is_well_formed(&self) -> (ok: bool)
        ensures
            ok == self.wf(),
    {
        let offered = self.path_suggestions.len();
        assert(offered == self@.path_suggestions.len());
        let text = self.interval_input.value();
        let consistent = (text.as_str().unicode_len() == 0 && self.interval == 0) || parse_u32(
            text.as_str(),
        ) == Some(self.interval);
        (!self.show_suggestions || offered == 0 || self.selected_suggestion < offered)
            && consistent && self.domain_input.is_well_formed()
            && self.program_input.is_well_formed() && self.stdout_path_input.is_well_formed()
            && self.stderr_path_input.is_well_formed() && self.interval_input.is_well_formed()
            && self.argument_input.is_well_formed()
    }

    /// Takes in the argument that is being typed: where there is one, it
    /// joins the arguments and its field is emptied.
    pub fn commit_argument(&mut self)
        ensures
            final(self)@ == old(self)@.commit_argument(),
            old(self).inputs_wf() ==> final(self).inputs_wf(),
    {
        let pending = self.argument_input.value();
        if pending.as_str().unicode_len() > 0 {
            self.arguments.push(pending);
            self.argument_input = TextInput::new();
            assert(self@.arguments =~= old(self)@.arguments.push(old(self)@.pending_argument.text));
        }
    }

    /// Brings the interval's number up to its text after an edit, or sets
    /// the text back where it reads as no number. Afterwards the text reads
    /// as the number, or the field is empty and the number is zero.
    pub fn reread_interval(&mut self, deletion: bool)
        ensures
            final(self)@ == old(self)@.reread_interval(deletion),
            final(self)@.interval_consistent(),
            old(self).inputs_wf() ==> final(self).inputs_wf(),
    {
        proof {
            lemma_reread_interval_consistent(old(self)@, deletion);
        }
        let text = self.interval_input.value();
        if deletion && text.as_str().unicode_len() == 0 {
            self.interval = 0;
        } else {
            match parse_u32(text.as_str()) {
                Some(number) => {
                    self.interval = number;
                },
                None => {
                    self.interval_input = TextInput::from_text(
                        decimal_text(self.interval).as_str(),
                    );
                },
            }
        }
    }

    /// The text of a path field; the empty text for any other field.
    pub fn path_text(&self, field: NewAgentFormField) -> (text: String)
        ensures
            text@ == self@.path_text(field),
    {
        match field {
            NewAgentFormField::Program => self.program_input.value(),
            NewAgentFormField::StdoutPath => self.stdout_path_input.value(),
            NewAgentFormField::StderrPath => self.stderr_path_input.value(),
            _ => String::new(),
        }
    }
}

impl Default for NewAgentForm {
    fn default() -> (form: Self)
        ensures
            form@ == NewAgentFormView::fresh(),
            form.wf(),
    {
        NewAgentForm::new()
    }
}

} // verus!
