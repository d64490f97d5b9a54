//! The application state: which screen is shown, the list of agents and the
//! selection in it, the actions on one agent, and the form for a new agent.
//!
//! Every transition is a method that changes the state and answers with the
//! [`Effect`] that the caller has to carry out: listing the agents, running a
//! command of the service manager, listing a directory. What came of it is
//! handed back through the method named at each effect.

use vstd::prelude::*;
use crate::form::{NewAgentForm, NewAgentFormField, NewAgentFormView};
use crate::key::Key;
use crate::launchctl::{LaunchAgent, LaunchAgentView, PlistDict, PlistDictView};
use crate::path_utils::{
    all_paths, directory_of, find_path_suggestions, is_plain, is_root_query, listed_suggestions,
    partial_name, prefixed_paths, root_paths, search_directory, DirectoryEntry,
};
use crate::text_input::{TextInput, TextInputView};

verus! {

broadcast use vstd::seq_lib::group_seq_properties;

/// The screens of the program. It starts on the list of agents.
#[derive(Debug, Clone, Copy, PartialEq, Eq, Structural)]
pub enum Screen {
    /// The list of agents.
    Main,
    /// One agent and the actions on it.
    Detail,
    /// The form for a new agent.
    NewAgent,
}

/// What the detail screen offers to do with its agent.
#[derive(Debug, Clone, Copy, PartialEq, Eq, Structural)]
pub enum DetailAction {
    Load,
    Enable,
    Disable,
    Unload,
    Back,
}

/// The actions on one agent, in the order in which they are shown.
pub open spec fn all_actions() -> Seq<DetailAction> {
    seq![
        DetailAction::Load,
        DetailAction::Enable,
        DetailAction::Disable,
        DetailAction::Unload,
        DetailAction::Back,
    ]
}

/// What the caller has to do after a transition.
#[derive(Debug, Clone, PartialEq, Eq)]
pub enum Effect {
    Nothing,
    /// Leave the program.
    Quit,
    /// List the agents and hand them to `refresh_agents`.
    Refresh,
    /// List `directory`, where there is one, and hand its entries to
    /// `update_path_suggestions`; hand it no entries where there is none or
    /// it cannot be read.
    Suggest { directory: Option<String> },
    /// Load the definition at `path`, and hand the outcome to
    /// `action_finished`. So for the next three.
    Load { path: String },
    Enable { label: String },
    Disable { label: String },
    Unload { label: String },
    /// Store `definition` and load it, and hand the outcome to
    /// `creation_finished`.
    Persist { definition: PlistDict },
}

/// An effect as plain values.
pub enum EffectView {
    Nothing,
    Quit,
    Refresh,
    Suggest { directory: Option<Seq<char>> },
    Load { path: Seq<char> },
    Enable { label: Seq<char> },
    Disable { label: Seq<char> },
    Unload { label: Seq<char> },
    Persist { definition: PlistDictView },
}

impl View for Effect {
    type V = EffectView;

    open spec fn view(&self) -> EffectView {
        match self {
            Effect::Nothing => EffectView::Nothing,
            Effect::Quit => EffectView::Quit,
            Effect::Refresh => EffectView::Refresh,
            Effect::Suggest { directory } => EffectView::Suggest {
                directory: directory.deep_view(),
            },
            Effect::Load { path } => EffectView::Load { path: path@ },
            Effect::Enable { label } => EffectView::Enable { label: label@ },
            Effect::Disable { label } => EffectView::Disable { label: label@ },
            Effect::Unload { label } => EffectView::Unload { label: label@ },
            Effect::Persist { definition } => EffectView::Persist { definition: definition@ },
        }
    }
}

/// The state of the program.
pub struct AppState {
    pub current_screen: Screen,
    /// The agents as they were last listed.
    pub agents: Vec<LaunchAgent>,
    pub selected: Option<usize>,
    /// The agent that the detail screen shows.
    pub agent_detail_index: usize,
    pub detail_actions: Vec<DetailAction>,
    pub selected_action: usize,
    pub new_agent_form: NewAgentForm,
    /// The field of the form that has the focus.
    pub new_agent_form_field: NewAgentFormField,
    /// Whether arguments are being typed into the arguments field.
    pub edit_mode: bool,
}

/// The state of the program as plain values.
pub struct AppStateView {
    pub current_screen: Screen,
    pub agents: Seq<LaunchAgentView>,
    pub selected: Option<usize>,
    pub agent_detail_index: usize,
    pub detail_actions: Seq<DetailAction>,
    pub selected_action: usize,
    pub form: NewAgentFormView,
    pub field: NewAgentFormField,
    pub edit_mode: bool,
}

impl View for AppState {
    type V = AppStateView;

    open spec fn view(&self) -> AppStateView {
        AppStateView {
            current_screen: self.current_screen,
            agents: self.agents.deep_view(),
            selected: self.selected,
            agent_detail_index: self.agent_detail_index,
            detail_actions: self.detail_actions@,
            selected_action: self.selected_action,
            form: self.new_agent_form@,
            field: self.new_agent_form_field,
            edit_mode: self.edit_mode,
        }
    }
}

/// The selection after a step forward in a list of `len` items: none in an
/// empty list, the first item where nothing was selected or the end was
/// reached, else the next item.
pub open spec fn next_selected(selected: Option<usize>, len: nat) -> Option<usize> {
    if len == 0 {
        None
    } else {
        match selected {
            Some(i) => if i >= len - 1 {
                Some(0)
            } else {
                Some((i + 1) as usize)
            },
            None => Some(0),
        }
    }
}

/// The selection after a step back in a list of `len` items: none in an
/// empty list, the first item where nothing was selected, the last item from
/// the first, else the item before.
pub open spec fn previous_selected(selected: Option<usize>, len: nat) -> Option<usize> {
    if len == 0 {
        None
    } else {
        match selected {
            Some(i) => if i == 0 {
                Some((len - 1) as usize)
            } else {
                Some((i - 1) as usize)
            },
            None => Some(0),
        }
    }
}

/// The selection under a new listing of `len` agents: none in an empty
/// list, the selection as it was where it still points into the list, else
/// the first agent.
pub open spec fn refreshed_selection(selected: Option<usize>, len: nat) -> Option<usize> {
    if len == 0 {
        None
    } else {
        match selected {
            Some(i) => if i < len {
                Some(i)
            } else {
                Some(0)
            },
            None => Some(0),
        }
    }
}

/// The selection after `steps` steps forward.
pub open spec fn next_selected_times(selected: Option<usize>, len: nat, steps: nat) -> Option<
    usize,
>
    decreases steps,
{
    if steps == 0 {
        selected
    } else {
        next_selected(next_selected_times(selected, len, (steps - 1) as nat), len)
    }
}

/// The selected completion after a step up in a list of `len`: the one
/// before, or the last from the first.
pub open spec fn suggestion_above(selected: usize, len: nat) -> usize {
    if selected > 0 {
        (selected - 1) as usize
    } else if len > 0 {
        (len - 1) as usize
    } else {
        selected
    }
}

/// The selected completion after a step down in a list of `len`: the next
/// one, or the first from the last.
pub open spec fn suggestion_below(selected: usize, len: nat) -> usize {
    if len == 0 {
        selected
    } else if selected + 1 < len {
        (selected + 1) as usize
    } else {
        0
    }
}

/// The field of the form that takes a key as an edit of its text.
#[derive(Debug, Clone, Copy, PartialEq, Eq, Structural)]
pub enum TextField {
    Domain,
    Program,
    StdoutPath,
    StderrPath,
    Argument,
    Interval,
}

impl AppStateView {
    /// The list of actions is the fixed one with one of them selected, the
    /// selection fits the list of agents, and the form is well-formed.
    pub open spec fn wf(self) -> bool {
        &&& self.detail_actions == all_actions()
        &&& self.selected_action < self.detail_actions.len()
        &&& self.selection_valid()
        &&& self.form.wf()
    }

    /// The state after a new listing of the agents took the place of the
    /// one before. The selection stays where it still points into the list;
    /// else it goes to the first agent, and to none in an empty list.
    pub open spec fn refresh(self, agents: Seq<LaunchAgentView>) -> AppStateView {
        AppStateView { agents, selected: refreshed_selection(self.selected, agents.len()), ..self }
    }

    /// No agent is selected in an empty list, and one of the list in any
    /// other.
    pub open spec fn selection_valid(self) -> bool {
        match self.selected {
            Some(i) => i < self.agents.len(),
            None => self.agents.len() == 0,
        }
    }

    /// The state with `form` in place of its form.
    pub open spec fn with_form(self, form: NewAgentFormView) -> AppStateView {
        AppStateView { form, ..self }
    }

    /// The state with `screen` shown.
    pub open spec fn on_screen(self, screen: Screen) -> AppStateView {
        AppStateView { current_screen: screen, ..self }
    }

    /// A step forward in the list of agents. The list does not move while
    /// the form takes keys.
    pub open spec fn next_item(self) -> AppStateView {
        if self.form.input_mode {
            self
        } else {
            AppStateView { selected: next_selected(self.selected, self.agents.len()), ..self }
        }
    }

    /// A step back in the list of agents. The list does not move while the
    /// form takes keys.
    pub open spec fn previous_item(self) -> AppStateView {
        if self.form.input_mode {
            self
        } else {
            AppStateView { selected: previous_selected(self.selected, self.agents.len()), ..self }
        }
    }

    /// A step forward through the five actions, from the last to the first.
    pub open spec fn next_action(self) -> AppStateView {
        AppStateView { selected_action: ((self.selected_action + 1) % 5) as usize, ..self }
    }

    /// A step back through the five actions, from the first to the last.
    pub open spec fn previous_action(self) -> AppStateView {
        AppStateView { selected_action: ((self.selected_action + 4) % 5) as usize, ..self }
    }

    /// Whether the detail screen still has its agent.
    pub open spec fn detail_valid(self) -> bool {
        self.agent_detail_index < self.agents.len()
    }

    /// The action on the detail screen is carried out: back to the list
    /// where the agent is gone or the action says so, else no change.
    pub open spec fn execute_action(self) -> AppStateView {
        if !self.detail_valid() || self.detail_actions[self.selected_action as int]
            == DetailAction::Back {
            self.on_screen(Screen::Main)
        } else {
            self
        }
    }

    /// The command that the action on the detail screen asks for: loading
    /// goes by the path of the agent's definition, the others by its label.
    pub open spec fn action_effect(self) -> EffectView {
        if !self.detail_valid() {
            EffectView::Nothing
        } else {
            let agent = self.agents[self.agent_detail_index as int];
            match self.detail_actions[self.selected_action as int] {
                DetailAction::Load => EffectView::Load { path: agent.path },
                DetailAction::Enable => EffectView::Enable { label: agent.label },
                DetailAction::Disable => EffectView::Disable { label: agent.label },
                DetailAction::Unload => EffectView::Unload { label: agent.label },
                DetailAction::Back => EffectView::Nothing,
            }
        }
    }

    /// The form is opened afresh, with the focus on the domain.
    pub open spec fn new_agent(self) -> AppStateView {
        AppStateView {
            current_screen: Screen::NewAgent,
            form: NewAgentFormView { input_mode: true, ..NewAgentFormView::fresh() },
            field: NewAgentFormField::Domain,
            edit_mode: false,
            ..self
        }
    }

    /// The form is given up: back to the list, and what was entered is
    /// gone.
    pub open spec fn close_form(self) -> AppStateView {
        AppStateView {
            current_screen: Screen::Main,
            form: NewAgentFormView::fresh(),
            ..self
        }
    }

    /// The form as it is left behind when the focus moves on: an argument
    /// that was being typed is taken in.
    pub open spec fn form_on_leaving(self) -> NewAgentFormView {
        if self.field == NewAgentFormField::Arguments {
            self.form.commit_argument()
        } else {
            self.form
        }
    }

    /// The focus moves to `destination`. The completions are put away. An
    /// argument that was being typed is taken in. Arguments are no longer
    /// typed unless the focus is on them, and keys are taken unless it is on
    /// a button.
    pub open spec fn focus(self, destination: NewAgentFormField) -> AppStateView {
        AppStateView {
            field: destination,
            edit_mode: destination == NewAgentFormField::Arguments && self.edit_mode,
            form: NewAgentFormView {
                input_mode: !destination.is_button(),
                show_suggestions: false,
                path_suggestions: Seq::empty(),
                ..self.form_on_leaving()
            },
            ..self
        }
    }

    /// What a move of the focus to `destination` asks for: the completions
    /// for a path field, at once.
    pub open spec fn focus_effect(self, destination: NewAgentFormField) -> EffectView {
        if destination.is_path_field() {
            EffectView::Suggest { directory: directory_of(self.form.path_text(destination)) }
        } else {
            EffectView::Nothing
        }
    }

    /// The focus moves to the next field of the cycle.
    pub open spec fn next_form_field(self) -> AppStateView {
        self.focus(self.field.next(self.form.use_interval))
    }

    /// The focus moves to the field before in the cycle.
    pub open spec fn previous_form_field(self) -> AppStateView {
        self.focus(self.field.previous(self.form.use_interval))
    }

    /// The definition that the form makes: none while the domain or the
    /// program is missing. An argument that is still being typed is not
    /// part of it.
    pub open spec fn definition(self) -> Option<PlistDictView> {
        if self.form.domain.text.len() == 0 || self.form.program.text.len() == 0 {
            None
        } else {
            Some(
                crate::launchctl::definition_of(
                    crate::launchctl::qualified_label(self.form.domain.text),
                    self.form.program.text,
                    self.form.arguments,
                    self.form.keep_alive,
                    self.form.stdout_path.text,
                    self.form.stderr_path.text,
                    self.form.use_interval,
                    self.form.interval,
                ),
            )
        }
    }

    /// What pressing the create button asks for: storing the definition,
    /// where the form makes one.
    pub open spec fn submit_effect(self) -> EffectView {
        match self.definition() {
            Some(definition) => EffectView::Persist { definition },
            None => EffectView::Nothing,
        }
    }

    /// Whether a key goes to the completions that are shown for a path
    /// field, before anything else.
    pub open spec fn is_suggestion_key(self, key: Key) -> bool {
        let moves = key == Key::Up || key == Key::Down || key == Key::Esc;
        let accepts = (key == Key::Enter || key == Key::Tab) && self.form.path_suggestions.len()
            > 0;
        self.form.show_suggestions && (moves || accepts)
    }

    /// The text field that takes `key` as an edit, if any does.
    pub open spec fn edited_field(self, key: Key) -> Option<TextField> {
        if !self.form.input_mode || !key.is_line_edit() {
            None
        } else {
            match self.field {
                NewAgentFormField::Domain => Some(TextField::Domain),
                NewAgentFormField::Program => Some(TextField::Program),
                NewAgentFormField::StdoutPath => Some(TextField::StdoutPath),
                NewAgentFormField::StderrPath => Some(TextField::StderrPath),
                NewAgentFormField::Arguments => if self.edit_mode && key != Key::Char(' ') {
                    Some(TextField::Argument)
                } else {
                    None
                },
                NewAgentFormField::Interval => match key {
                    Key::Char(c) => if crate::number::is_digit(c) {
                        Some(TextField::Interval)
                    } else {
                        None
                    },
                    Key::Backspace => Some(TextField::Interval),
                    _ => None,
                },
                _ => None,
            }
        }
    }

    /// A text field of the form.
    pub open spec fn input(self, field: TextField) -> TextInputView {
        match field {
            TextField::Domain => self.form.domain,
            TextField::Program => self.form.program,
            TextField::StdoutPath => self.form.stdout_path,
            TextField::StderrPath => self.form.stderr_path,
            TextField::Argument => self.form.pending_argument,
            TextField::Interval => self.form.interval_text,
        }
    }

    /// The state after `key` edited `field`: that field is edited and
    /// nothing else changes, but for the interval, whose number is brought
    /// up to its text.
    pub open spec fn after_edit(self, field: TextField, key: Key) -> AppStateView {
        let edited = self.input(field).edit(key);
        match field {
            TextField::Domain => self.with_form(NewAgentFormView { domain: edited, ..self.form }),
            TextField::Program => self.with_form(
                NewAgentFormView { program: edited, ..self.form },
            ),
            TextField::StdoutPath => self.with_form(
                NewAgentFormView { stdout_path: edited, ..self.form },
            ),
            TextField::StderrPath => self.with_form(
                NewAgentFormView { stderr_path: edited, ..self.form },
            ),
            TextField::Argument => self.with_form(
                NewAgentFormView { pending_argument: edited, ..self.form },
            ),
            TextField::Interval => self.with_form(
                (NewAgentFormView { interval_text: edited, ..self.form }).reread_interval(
                    key == Key::Backspace,
                ),
            ),
        }
    }

    /// Whether a key that edits `field` is taken: in the interval always,
    /// elsewhere where the field reacts, by a change of its text or of its
    /// cursor.
    pub open spec fn edit_consumed(self, field: TextField, key: Key) -> bool {
        field == TextField::Interval || self.input(field).reacts(key)
    }

    /// The form after the selected completion is taken into the path field
    /// in focus, with the cursor behind it.
    pub open spec fn accept_suggestion(self) -> AppStateView {
        let chosen = self.form.path_suggestions[self.form.selected_suggestion as int];
        let form = NewAgentFormView { show_suggestions: false, ..self.form };
        match self.field {
            NewAgentFormField::Program => self.with_form(
                NewAgentFormView { program: TextInputView::at_end(chosen), ..form },
            ),
            NewAgentFormField::StdoutPath => self.with_form(
                NewAgentFormView { stdout_path: TextInputView::at_end(chosen), ..form },
            ),
            NewAgentFormField::StderrPath => self.with_form(
                NewAgentFormView { stderr_path: TextInputView::at_end(chosen), ..form },
            ),
            _ => self,
        }
    }

    /// The state after a key that goes to the completions of a path field.
    pub open spec fn suggestion_key(self, key: Key) -> AppStateView {
        let count = self.form.path_suggestions.len();
        match key {
            Key::Up => self.with_form(
                NewAgentFormView {
                    selected_suggestion: suggestion_above(self.form.selected_suggestion, count),
                    ..self.form
                },
            ),
            Key::Down => self.with_form(
                NewAgentFormView {
                    selected_suggestion: suggestion_below(self.form.selected_suggestion, count),
                    ..self.form
                },
            ),
            Key::Esc => self.with_form(NewAgentFormView { show_suggestions: false, ..self.form }),
            _ => self.accept_suggestion(),
        }
    }

    /// The state after a key that edits no text, while the form is shown.
    pub open spec fn plain_key(self, key: Key) -> AppStateView {
        let toggle = key == Key::Enter || key == Key::Char(' ');
        if !self.form.input_mode {
            if !self.field.is_button() && key == Key::Enter {
                self.with_form(NewAgentFormView { input_mode: true, ..self.form })
            } else {
                self
            }
        } else if self.field.is_path_field() {
            if self.is_suggestion_key(key) {
                self.suggestion_key(key)
            } else if key == Key::Tab {
                self.with_form(
                    NewAgentFormView {
                        show_suggestions: true,
                        selected_suggestion: 0,
                        ..self.form
                    },
                )
            } else {
                self
            }
        } else if self.field == NewAgentFormField::Arguments {
            if key == Key::Enter {
                AppStateView { edit_mode: !self.edit_mode, ..self }
            } else if self.edit_mode && key == Key::Char(' ') {
                self.with_form(self.form.commit_argument())
            } else {
                self
            }
        } else if self.field == NewAgentFormField::KeepAlive && toggle {
            self.with_form(NewAgentFormView { keep_alive: !self.form.keep_alive, ..self.form })
        } else if self.field == NewAgentFormField::UseInterval && toggle {
            self.with_form(NewAgentFormView { use_interval: !self.form.use_interval, ..self.form })
        } else {
            self
        }
    }

    /// Whether a key that edits no text is taken, while the form is shown.
    pub open spec fn plain_key_consumed(self, key: Key) -> bool {
        let toggle = key == Key::Enter || key == Key::Char(' ');
        if !self.form.input_mode {
            key == Key::Enter
        } else if self.field.is_path_field() {
            self.is_suggestion_key(key) || key == Key::Tab
        } else if self.field == NewAgentFormField::Arguments {
            key == Key::Enter || (self.edit_mode && key == Key::Char(' '))
        } else if self.field == NewAgentFormField::KeepAlive || self.field
            == NewAgentFormField::UseInterval {
            toggle
        } else {
            false
        }
    }

    /// What a key that edits no text asks for: the completions, where the
    /// tabulator calls for them in a path field.
    pub open spec fn plain_key_effect(self, key: Key) -> EffectView {
        if self.form.input_mode && self.field.is_path_field() && !self.is_suggestion_key(key)
            && key == Key::Tab {
            EffectView::Suggest { directory: directory_of(self.form.path_text(self.field)) }
        } else {
            EffectView::Nothing
        }
    }

    /// The state after the form was handed `key`. A key that edits the text
    /// of a field has the outcome that `after_edit` gives, any other key
    /// that of `plain_key`.
    pub open spec fn input_event(self, key: Key) -> AppStateView {
        match self.edited_field(key) {
            Some(field) => self.after_edit(field, key),
            None => self.plain_key(key),
        }
    }

    /// Whether the form takes `key`.
    pub open spec fn input_consumed(self, key: Key) -> bool {
        match self.edited_field(key) {
            Some(field) => self.edit_consumed(field, key),
            None => self.plain_key_consumed(key),
        }
    }

    /// What `key` asks for when the form is handed it.
    pub open spec fn input_effect(self, key: Key) -> EffectView {
        match self.edited_field(key) {
            Some(field) => EffectView::Nothing,
            None => self.plain_key_effect(key),
        }
    }
}

impl AppState {
    /// The list of actions is the fixed one with one of them selected, the
    /// selection fits the list of agents, and the form is well-formed.
    pub open spec fn wf(&self) -> bool {
        self@.wf() && self.new_agent_form.wf()
    }

    /// The state at the start: the list of agents on screen, the first of
    /// them selected where there is one.
    pub fn new(agents: Vec<LaunchAgent>) -> (state: Self)
        ensures
            state.wf(),
            state@.selection_valid(),
            state@ == (AppStateView {
                current_screen: Screen::Main,
                agents: agents.deep_view(),
                selected: if agents.len() == 0 {
                    None
                } else {
                    Some(0usize)
                },
                agent_detail_index: 0,
                detail_actions: all_actions(),
                selected_action: 0,
                form: NewAgentFormView::fresh(),
                field: NewAgentFormField::Domain,
                edit_mode: false,
            }),
    {
        let selected = if agents.len() == 0 {
            None
        } else {
            Some(0)
        };
        let detail_actions = vec![
            DetailAction::Load,
            DetailAction::Enable,
            DetailAction::Disable,
            DetailAction::Unload,
            DetailAction::Back,
        ];
        AppState {
            current_screen: Screen::Main,
            agents,
            selected,
            agent_detail_index: 0,
            detail_actions,
            selected_action: 0,
            new_agent_form: NewAgentForm::new(),
            new_agent_form_field: NewAgentFormField::Domain,
            edit_mode: false,
        }
    }

    /// Whether the state is well-formed.
    pub fn is_well_formed(&self) -> (ok: bool)
        ensures
            ok == self.wf(),
    {
        let actions = &self.detail_actions;
        let fixed = actions.len() == 5 && actions[0] == DetailAction::Load && actions[1]
            == DetailAction::Enable && actions[2] == DetailAction::Disable && actions[3]
            == DetailAction::Unload && actions[4] == DetailAction::Back;
        proof {
            if fixed {
                assert(actions@ =~= all_actions());
            }
        }
        let count = self.agents.len();
        assert(count == self@.agents.len());
        let selection = match self.selected {
            Some(i) => i < count,
            None => count == 0,
        };
        fixed && self.selected_action < actions.len() && selection
            && self.new_agent_form.is_well_formed()
    }

    /// Takes a new listing of the agents in place of the one before. The
    /// selection stays where it still points into the list; else it goes to
    /// the first agent, and to none in an empty list. Nothing else changes.
    pub fn refresh_agents(&mut self, agents: Vec<LaunchAgent>)
        ensures
            final(self)@ == old(self)@.refresh(agents.deep_view()),
            final(self)@.selection_valid(),
            old(self).wf() ==> final(self).wf(),
    {
        let count = agents.len();
        assert(count == agents.deep_view().len());
        self.selected = if count == 0 {
            None
        } else {
            match self.selected {
                Some(i) => {
                    if i < count {
                        Some(i)
                    } else {
                        Some(0)
                    }
                },
                None => Some(0),
            }
        };
        self.agents = agents;
    }

    /// Selects the next agent, the first after the last.
    pub fn next_item(&mut self)
        ensures
            final(self)@ == old(self)@.next_item(),
            old(self).wf() ==> final(self).wf(),
    {
        if !self.new_agent_form.input_mode {
            let len = self.agents.len();
            if len == 0 {
                self.selected = None;
                return ;
            }
            match self.selected {
                Some(selected) => {
                    if selected >= len - 1 {
                        self.selected = Some(0);
                    } else {
                        self.selected = Some(selected + 1);
                    }
                },
                None => {
                    self.selected = Some(0);
                },
            }
        }
    }

    /// Selects the agent before, the last before the first.
    pub fn previous_item(&mut self)
        ensures
            final(self)@ == old(self)@.previous_item(),
            old(self).wf() ==> final(self).wf(),
    {
        if !self.new_agent_form.input_mode {
            let len = self.agents.len();
            if len == 0 {
                self.selected = None;
                return ;
            }
            match self.selected {
                Some(selected) => {
                    if selected == 0 {
                        self.selected = Some(len - 1);
                    } else {
                        self.selected = Some(selected - 1);
                    }
                },
                None => {
                    self.selected = Some(0);
                },
            }
        }
    }

    /// Highlights the next action, the first after the last.
    pub fn next_action(&mut self)
        requires
            old(self).wf(),
        ensures
            final(self).wf(),
            final(self)@ == old(self)@.next_action(),
    {
        let len = self.detail_actions.len();
        self.selected_action = (self.selected_action + 1) % len;
    }

    /// Highlights the action before, the last before the first.
    pub fn previous_action(&mut self)
        requires
            old(self).wf(),
        ensures
            final(self).wf(),
            final(self)@ == old(self)@.previous_action(),
    {
        let len = self.detail_actions.len();
        self.selected_action = (self.selected_action + len - 1) % len;
    }

    /// Carries out the highlighted action on the agent of the detail screen.
    /// Where that agent is no longer listed, or the action leads back, the
    /// list is shown and nothing is asked for. Any other action asks for its
    /// command and leaves the state as it is.
    pub fn execute_action(&mut self) -> (effect: Effect)
        requires
            old(self).wf(),
        ensures
            final(self).wf(),
            final(self)@ == old(self)@.execute_action(),
            effect@ == old(self)@.action_effect(),
    {
        if self.agent_detail_index >= self.agents.len() {
            self.current_screen = Screen::Main;
            return Effect::Nothing;
        }
        let agent = &self.agents[self.agent_detail_index];
        match self.detail_actions[self.selected_action] {
            DetailAction::Load => Effect::Load { path: agent.path.clone() },
            DetailAction::Enable => Effect::Enable { label: agent.label.clone() },
            DetailAction::Disable => Effect::Disable { label: agent.label.clone() },
            DetailAction::Unload => Effect::Unload { label: agent.label.clone() },
            DetailAction::Back => {
                self.current_screen = Screen::Main;
                Effect::Nothing
            },
        }
    }

    /// What follows a command on an agent: a new listing where it failed,
    /// nothing where it succeeded.
    pub fn action_finished(&self, succeeded: bool) -> (effect: Effect)
        ensures
            succeeded ==> effect@ == EffectView::Nothing,
            !succeeded ==> effect@ == EffectView::Refresh,
    {
        if succeeded {
            Effect::Nothing
        } else {
            Effect::Refresh
        }
    }

    /// What a tick of the clock asks for: a new listing, on every screen.
    pub fn on_tick(&self) -> (effect: Effect)
        ensures
            effect@ == EffectView::Refresh,
    {
        Effect::Refresh
    }

    /// Opens the form afresh.
    pub fn new_agent(&mut self)
        ensures
            old(self).wf() ==> final(self).wf(),
            final(self)@ == old(self)@.new_agent(),
    {
        self.current_screen = Screen::NewAgent;
        self.new_agent_form = NewAgentForm::new();
        self.new_agent_form_field = NewAgentFormField::Domain;
        self.new_agent_form.input_mode = true;
        self.edit_mode = false;
    }

    /// Gives the form up and shows the list.
    pub fn close_form(&mut self)
        ensures
            old(self).wf() ==> final(self).wf(),
            final(self)@ == old(self)@.close_form(),
    {
        self.current_screen = Screen::Main;
        self.new_agent_form = NewAgentForm::new();
    }

    /// Moves the focus of the form to `destination`.
    fn focus(&mut self, destination: NewAgentFormField) -> (effect: Effect)
        ensures
            old(self).wf() ==> final(self).wf(),
            final(self)@ == old(self)@.focus(destination),
            effect@ == old(self)@.focus_effect(destination),
    {
        if self.new_agent_form_field == NewAgentFormField::Arguments {
            self.new_agent_form.commit_argument();
        }
        self.new_agent_form.show_suggestions = false;
        self.new_agent_form.path_suggestions = Vec::new();
        self.new_agent_form.input_mode = !destination.button();
        if destination != NewAgentFormField::Arguments {
            self.edit_mode = false;
        }
        self.new_agent_form_field = destination;
        assert(self@.form.path_suggestions =~= Seq::<Seq<char>>::empty());
        if destination.path_field() {
            let text = self.new_agent_form.path_text(destination);
            Effect::Suggest { directory: search_directory(text.as_str()) }
        } else {
            Effect::Nothing
        }
    }

    /// Moves the focus of the form to the next field.
    pub fn next_form_field(&mut self) -> (effect: Effect)
        ensures
            old(self).wf() ==> final(self).wf(),
            final(self)@ == old(self)@.next_form_field(),
            effect@ == old(self)@.focus_effect(final(self)@.field),
    {
        let destination = self.new_agent_form_field.next_field(self.new_agent_form.use_interval);
        self.focus(destination)
    }

    /// Moves the focus of the form to the field before.
    pub fn previous_form_field(&mut self) -> (effect: Effect)
        ensures
            old(self).wf() ==> final(self).wf(),
            final(self)@ == old(self)@.previous_form_field(),
            effect@ == old(self)@.focus_effect(final(self)@.field),
    {
        let destination = self.new_agent_form_field.previous_field(
            self.new_agent_form.use_interval,
        );
        self.focus(destination)
    }

    /// Hands a key to the completions that are shown for the path field in
    /// focus.
    fn handle_suggestion_key(&mut self, key: Key)
        requires
            old(self).wf(),
            old(self)@.field.is_path_field(),
            old(self)@.is_suggestion_key(key),
        ensures
            final(self).wf(),
            final(self)@ == old(self)@.suggestion_key(key),
    {
        let count = self.new_agent_form.path_suggestions.len();
        match key {
            Key::Up => {
                if self.new_agent_form.selected_suggestion > 0 {
                    self.new_agent_form.selected_suggestion =
                        self.new_agent_form.selected_suggestion - 1;
                } else if count > 0 {
                    self.new_agent_form.selected_suggestion = count - 1;
                }
            },
            Key::Down => {
                if count > 0 {
                    let selected = self.new_agent_form.selected_suggestion;
                    assert((selected + 1) % (count as int) == (if selected + 1 < count {
                        selected + 1
                    } else {
                        0
                    })) by (nonlinear_arith)
                        requires
                            0 <= selected < count,
                    ;
                    self.new_agent_form.selected_suggestion = (selected + 1) % count;
                }
            },
            Key::Esc => {
                self.new_agent_form.show_suggestions = false;
            },
            _ => {
                let chosen = TextInput::from_text(
                    self.new_agent_form.path_suggestions[self.new_agent_form.selected_suggestion].as_str(),
                );
                match self.new_agent_form_field {
                    NewAgentFormField::Program => {
                        self.new_agent_form.program_input = chosen;
                    },
                    NewAgentFormField::StdoutPath => {
                        self.new_agent_form.stdout_path_input = chosen;
                    },
                    _ => {
                        self.new_agent_form.stderr_path_input = chosen;
                    },
                }
                self.new_agent_form.show_suggestions = false;
            },
        }
    }

    /// Hands a key to the text field that takes it as an edit.
    fn edit_text(&mut self, field: TextField, key: Key) -> (consumed: bool)
        requires
            old(self).wf(),
            old(self)@.edited_field(key) == Some(field),
        ensures
            final(self).wf(),
            final(self)@ == old(self)@.after_edit(field, key),
            consumed == old(self)@.edit_consumed(field, key),
    {
        match field {
            TextField::Domain => self.new_agent_form.domain_input.handle_key(key),
            TextField::Program => self.new_agent_form.program_input.handle_key(key),
            TextField::StdoutPath => self.new_agent_form.stdout_path_input.handle_key(key),
            TextField::StderrPath => self.new_agent_form.stderr_path_input.handle_key(key),
            TextField::Argument => self.new_agent_form.argument_input.handle_key(key),
            TextField::Interval => {
                self.edit_interval(key);
                true
            },
        }
    }

    /// Hands a key to the interval, and brings its number up to its text.
    fn edit_interval(&mut self, key: Key)
        requires
            old(self).wf(),
        ensures
            final(self).wf(),
            final(self)@ == old(self)@.after_edit(TextField::Interval, key),
    {
        let _ = self.new_agent_form.interval_input.handle_key(key);
        let deletion = match key {
            Key::Backspace => true,
            _ => false,
        };
        self.new_agent_form.reread_interval(deletion);
    }

    /// The text field that takes `key` as an edit, if any does.
    fn field_edited_by(&self, key: Key) -> (field: Option<TextField>)
        ensures
            field == self@.edited_field(key),
    {
        if !self.new_agent_form.input_mode || !key.edits_line() {
            return None;
        }
        match self.new_agent_form_field {
            NewAgentFormField::Domain => Some(TextField::Domain),
            NewAgentFormField::Program => Some(TextField::Program),
            NewAgentFormField::StdoutPath => Some(TextField::StdoutPath),
            NewAgentFormField::StderrPath => Some(TextField::StderrPath),
            NewAgentFormField::Arguments => {
                if self.edit_mode && key != Key::Char(' ') {
                    Some(TextField::Argument)
                } else {
                    None
                }
            },
            NewAgentFormField::Interval => {
                match key {
                    Key::Char(c) => {
                        if '0' <= c && c <= '9' {
                            Some(TextField::Interval)
                        } else {
                            None
                        }
                    },
                    Key::Backspace => Some(TextField::Interval),
                    _ => None,
                }
            },
            _ => None,
        }
    }

    /// Whether a key goes to the completions that are shown.
    fn suggestion_key_pressed(&self, key: Key) -> (pressed: bool)
        ensures
            pressed == self@.is_suggestion_key(key),
    {
        if !self.new_agent_form.show_suggestions {
            return false;
        }
        match key {
            Key::Up | Key::Down | Key::Esc => true,
            Key::Enter | Key::Tab => self.new_agent_form.path_suggestions.len() > 0,
            _ => false,
        }
    }

    /// Hands a key to the form that edits no text.
    fn handle_plain_key(&mut self, key: Key) -> (outcome: (bool, Effect))
        requires
            old(self).wf(),
            old(self)@.edited_field(key).is_none(),
        ensures
            final(self).wf(),
            final(self)@ == old(self)@.plain_key(key),
            outcome.0 == old(self)@.plain_key_consumed(key),
            outcome.1@ == old(self)@.plain_key_effect(key),
    {
        let enter = match key {
            Key::Enter => true,
            _ => false,
        };
        let toggle = enter || key == Key::Char(' ');
        let field = self.new_agent_form_field;
        if !self.new_agent_form.input_mode {
            if !field.button() && enter {
                self.new_agent_form.input_mode = true;
            }
            return (enter, Effect::Nothing);
        }
        if field.path_field() {
            if self.suggestion_key_pressed(key) {
                self.handle_suggestion_key(key);
                return (true, Effect::Nothing);
            }
            match key {
                Key::Tab => {
                    let text = self.new_agent_form.path_text(field);
                    self.new_agent_form.show_suggestions = true;
                    self.new_agent_form.selected_suggestion = 0;
                    return (true, Effect::Suggest { directory: search_directory(text.as_str()) });
                },
                _ => {
                    return (false, Effect::Nothing);
                },
            }
        }
        match field {
            NewAgentFormField::Arguments => {
                if enter {
                    self.edit_mode = !self.edit_mode;
                    (true, Effect::Nothing)
                } else if self.edit_mode && key == Key::Char(' ') {
                    self.new_agent_form.commit_argument();
                    (true, Effect::Nothing)
                } else {
                    (false, Effect::Nothing)
                }
            },
            NewAgentFormField::KeepAlive => {
                if toggle {
                    self.new_agent_form.keep_alive = !self.new_agent_form.keep_alive;
                }
                (toggle, Effect::Nothing)
            },
            NewAgentFormField::UseInterval => {
                if toggle {
                    self.new_agent_form.use_interval = !self.new_agent_form.use_interval;
                }
                (toggle, Effect::Nothing)
            },
            _ => (false, Effect::Nothing),
        }
    }

    /// Hands a key to the field of the form that has the focus. The first
    /// part of the answer tells whether the key was taken.
    ///
    /// While the field takes keys: a text field hands editing keys to its
    /// buffer, and takes those to which the buffer reacts; a path field
    /// first serves the completions that are shown, and
    /// calls for them on the tabulator; the arguments field switches its
    /// typing on and off on enter and takes in an argument on space; the
    /// interval takes digits and the backspace, and its number follows its
    /// text; a switch is turned by enter and space. While it does not, enter
    /// makes a field take keys again.
    pub fn handle_input_event(&mut self, key: Key) -> (outcome: (bool, Effect))
        requires
            old(self).wf(),
        ensures
            final(self).wf(),
            final(self)@ == old(self)@.input_event(key),
            outcome.0 == old(self)@.input_consumed(key),
            outcome.1@ == old(self)@.input_effect(key),
    {
        match self.field_edited_by(key) {
            Some(field) => {
                let consumed = self.edit_text(field, key);
                (consumed, Effect::Nothing)
            },
            None => self.handle_plain_key(key),
        }
    }

    /// Takes the listing that a `Suggest` effect asked for, and offers the
    /// completions for the path field in focus, the first of them selected.
    /// Outside a path field nothing changes.
    ///
    /// A root query is answered with the root and then the home directory,
    /// where the environment tells it. Any other path is answered from the
    /// listing; one that ends in a separator with all of the listing.
    pub fn update_path_suggestions(&mut self, entries: &Vec<DirectoryEntry>)
        ensures
            old(self).wf() ==> final(self).wf(),
            !old(self)@.field.is_path_field() ==> final(self)@ == old(self)@,
            old(self)@.field.is_path_field() ==> {
                let text = old(self)@.form.path_text(old(self)@.field);
                let offered = final(self)@.form.path_suggestions;
                &&& final(self)@ == old(self)@.with_form(
                    NewAgentFormView {
                        path_suggestions: offered,
                        selected_suggestion: 0,
                        ..old(self)@.form
                    },
                )
                &&& is_root_query(text) ==> exists|home: Option<Seq<char>>|
                    offered == root_paths(home)
                &&& !is_root_query(text) ==> offered == listed_suggestions(
                    text,
                    entries.deep_view(),
                )
                &&& !is_root_query(text) && is_plain(partial_name(text)) ==> offered
                    == prefixed_paths(partial_name(text), entries.deep_view())
                &&& text.len() > 1 && text.last() == '/' ==> offered == all_paths(
                    entries.deep_view(),
                )
            },
    {
        let field = self.new_agent_form_field;
        if field.path_field() {
            let text = self.new_agent_form.path_text(field);
            self.new_agent_form.path_suggestions = find_path_suggestions(text.as_str(), entries);
            self.new_agent_form.selected_suggestion = 0;
        }
    }

    /// The definition that the form makes: none while the domain or the
    /// program is missing.
    pub fn create_new_agent(&self) -> (definition: Option<PlistDict>)
        ensures
            definition.deep_view() == self@.definition(),
    {
        let domain = self.new_agent_form.domain_input.value();
        let program = self.new_agent_form.program_input.value();
        if domain.as_str().unicode_len() == 0 {
            return None;
        }
        if program.as_str().unicode_len() == 0 {
            return None;
        }
        let label = crate::launchctl::qualify_domain(domain.as_str());
        let stdout_path = self.new_agent_form.stdout_path_input.value();
        let stderr_path = self.new_agent_form.stderr_path_input.value();
        Some(
            crate::launchctl::agent_definition(
                label.as_str(),
                program.as_str(),
                &self.new_agent_form.arguments,
                self.new_agent_form.keep_alive,
                stdout_path.as_str(),
                stderr_path.as_str(),
                self.new_agent_form.use_interval,
                self.new_agent_form.interval,
            ),
        )
    }

    /// The create button is pressed: where the form makes a definition, it
    /// is to be stored. The state stays as it is until the outcome is known.
    pub fn submit_form(&self) -> (effect: Effect)
        ensures
            effect@ == self@.submit_effect(),
    {
        match self.create_new_agent() {
            Some(definition) => Effect::Persist { definition },
            None => Effect::Nothing,
        }
    }

    /// What follows the storing of a new agent: where it was created, the
    /// form is closed and a new listing asked for; where it was not, the
    /// form stays open as it is.
    pub fn creation_finished(&mut self, created: bool) -> (effect: Effect)
        ensures
            old(self).wf() ==> final(self).wf(),
            created ==> final(self)@ == old(self)@.close_form() && effect@ == EffectView::Refresh,
            !created ==> final(self)@ == old(self)@ && effect@ == EffectView::Nothing,
    {
        if created {
            self.close_form();
            Effect::Refresh
        } else {
            Effect::Nothing
        }
    }
}

} // verus!
