//! The screen state machine: what a key press does on each screen.

use vstd::prelude::*;
use crate::form::{NewAgentFormField, NewAgentFormView};
use crate::key::Key;
use crate::state::{AppState, AppStateView, Effect, EffectView, Screen};

verus! {

impl AppStateView {
    /// The state as the next key finds it: a detail screen whose agent is no
    /// longer listed has given way to the list.
    pub open spec fn settled(self) -> AppStateView {
        if self.current_screen == Screen::Detail && !self.detail_valid() {
            self.on_screen(Screen::Main)
        } else {
            self
        }
    }

    /// The detail screen is opened for the selected agent, where one of the
    /// list is selected.
    pub open spec fn open_detail(self) -> AppStateView {
        match self.selected {
            Some(index) => if index < self.agents.len() {
                AppStateView {
                    agent_detail_index: index,
                    current_screen: Screen::Detail,
                    ..self
                }
            } else {
                self
            },
            None => self,
        }
    }

    /// The state after a key on the list of agents.
    pub open spec fn main_key(self, key: Key) -> AppStateView {
        match key {
            Key::Char('j') | Key::Down => self.next_item(),
            Key::Char('k') | Key::Up => self.previous_item(),
            Key::Char('n') | Key::Char('c') => self.new_agent(),
            Key::Char('l') | Key::Enter => self.open_detail(),
            _ => self,
        }
    }

    /// What a key on the list of agents asks for.
    pub open spec fn main_key_effect(self, key: Key) -> EffectView {
        match key {
            Key::Char('q') => EffectView::Quit,
            Key::Char('r') => EffectView::Refresh,
            _ => EffectView::Nothing,
        }
    }

    /// The state after a key on the detail screen.
    pub open spec fn detail_key(self, key: Key) -> AppStateView {
        match key {
            Key::Esc | Key::Char('q') => self.on_screen(Screen::Main),
            Key::Char('j') | Key::Down => self.next_action(),
            Key::Char('k') | Key::Up => self.previous_action(),
            Key::Enter => self.execute_action(),
            _ => self,
        }
    }

    /// What a key on the detail screen asks for.
    pub open spec fn detail_key_effect(self, key: Key) -> EffectView {
        match key {
            Key::Enter => self.action_effect(),
            _ => EffectView::Nothing,
        }
    }

    /// The keys that the form screen serves itself, before any field sees
    /// them: leaving, moving the focus, and enter.
    pub open spec fn is_form_command(key: Key) -> bool {
        key == Key::Esc || key == Key::Down || key == Key::Tab || key == Key::Up || key
            == Key::BackTab || key == Key::Enter
    }

    /// The state after enter on the form screen. On a text field it moves
    /// on; on a switch it turns the switch and moves on; on the arguments it
    /// switches their typing on or off; on the cancel button it gives the
    /// form up. On the create button the state waits for the outcome.
    pub open spec fn form_enter(self) -> AppStateView {
        match self.field {
            NewAgentFormField::Arguments => AppStateView { edit_mode: !self.edit_mode, ..self },
            NewAgentFormField::KeepAlive => self.with_form(
                NewAgentFormView { keep_alive: !self.form.keep_alive, ..self.form },
            ).next_form_field(),
            NewAgentFormField::UseInterval => self.with_form(
                NewAgentFormView { use_interval: !self.form.use_interval, ..self.form },
            ).next_form_field(),
            NewAgentFormField::CreateButton => self,
            NewAgentFormField::CancelButton => self.close_form(),
            _ => self.next_form_field(),
        }
    }

    /// The state after a key that the form screen serves itself.
    pub open spec fn form_command(self, key: Key) -> AppStateView {
        match key {
            Key::Esc => self.close_form(),
            Key::Down | Key::Tab => self.next_form_field(),
            Key::Up | Key::BackTab => self.previous_form_field(),
            Key::Enter => self.form_enter(),
            _ => self,
        }
    }

    /// What a key that the form screen serves itself asks for: the
    /// completions where the focus arrives at a path field, the storing of
    /// the definition where the create button is pressed.
    pub open spec fn form_command_effect(self, key: Key) -> EffectView {
        let after = self.form_command(key);
        match key {
            Key::Esc => EffectView::Nothing,
            Key::Enter => match self.field {
                NewAgentFormField::Arguments | NewAgentFormField::CancelButton => EffectView::Nothing,
                NewAgentFormField::CreateButton => self.submit_effect(),
                _ => self.focus_effect(after.field),
            },
            _ => self.focus_effect(after.field),
        }
    }

    /// What holds after the key `key`: `after` is the state, `effect` is
    /// what the key asks for.
    pub open spec fn key_outcome(self, key: Key, after: AppStateView, effect: EffectView) -> bool {
        let start = self.settled();
        match start.current_screen {
            Screen::Main => after == start.main_key(key) && effect == start.main_key_effect(key),
            Screen::Detail => after == start.detail_key(key) && effect == start.detail_key_effect(
                key,
            ),
            Screen::NewAgent => if Self::is_form_command(key) {
                after == start.form_command(key) && effect == start.form_command_effect(key)
            } else {
                after == start.input_event(key) && effect == start.input_effect(key)
            },
        }
    }
}

impl AppState {
    /// Serves a key on the list of agents.
    pub fn handle_main_key(&mut self, key: Key) -> (effect: Effect)
        requires
            old(self).wf(),
        ensures
            final(self).wf(),
            final(self)@ == old(self)@.main_key(key),
            effect@ == old(self)@.main_key_effect(key),
    {
        match key {
            Key::Char('q') => Effect::Quit,
            Key::Char('j') | Key::Down => {
                self.next_item();
                Effect::Nothing
            },
            Key::Char('k') | Key::Up => {
                self.previous_item();
                Effect::Nothing
            },
            Key::Char('n') | Key::Char('c') => {
                self.new_agent();
                Effect::Nothing
            },
            Key::Char('l') | Key::Enter => {
                match self.selected {
                    Some(index) => {
                        if index < self.agents.len() {
                            self.agent_detail_index = index;
                            self.current_screen = Screen::Detail;
                        }
                    },
                    None => {},
                }
                Effect::Nothing
            },
            Key::Char('r') => Effect::Refresh,
            _ => Effect::Nothing,
        }
    }

    /// Serves a key on the detail screen.
    pub fn handle_detail_key(&mut self, key: Key) -> (effect: Effect)
        requires
            old(self).wf(),
        ensures
            final(self).wf(),
            final(self)@ == old(self)@.detail_key(key),
            effect@ == old(self)@.detail_key_effect(key),
    {
        match key {
            Key::Esc | Key::Char('q') => {
                self.current_screen = Screen::Main;
                Effect::Nothing
            },
            Key::Char('j') | Key::Down => {
                self.next_action();
                Effect::Nothing
            },
            Key::Char('k') | Key::Up => {
                self.previous_action();
                Effect::Nothing
            },
            Key::Enter => self.execute_action(),
            _ => Effect::Nothing,
        }
    }

    /// Serves enter on the form screen.
    fn handle_form_enter(&mut self) -> (effect: Effect)
        requires
            old(self).wf(),
        ensures
            final(self).wf(),
            final(self)@ == old(self)@.form_command(Key::Enter),
            effect@ == old(self)@.form_command_effect(Key::Enter),
    {
        match self.new_agent_form_field {
            NewAgentFormField::Arguments => {
                self.edit_mode = !self.edit_mode;
                Effect::Nothing
            },
            NewAgentFormField::KeepAlive => {
                self.new_agent_form.keep_alive = !self.new_agent_form.keep_alive;
                self.next_form_field()
            },
            NewAgentFormField::UseInterval => {
                self.new_agent_form.use_interval = !self.new_agent_form.use_interval;
                self.next_form_field()
            },
            NewAgentFormField::CreateButton => self.submit_form(),
            NewAgentFormField::CancelButton => {
                self.close_form();
                Effect::Nothing
            },
            _ => self.next_form_field(),
        }
    }

    /// Serves a key on the form screen: the screen's own keys first, any
    /// other goes to the field in focus.
    pub fn handle_form_key(&mut self, key: Key) -> (effect: Effect)
        requires
            old(self).wf(),
        ensures
            final(self).wf(),
            AppStateView::is_form_command(key) ==> final(self)@ == old(self)@.form_command(key)
                && effect@ == old(self)@.form_command_effect(key),
            !AppStateView::is_form_command(key) ==> final(self)@ == old(self)@.input_event(key)
                && effect@ == old(self)@.input_effect(key),
    {
        match key {
            Key::Esc => {
                self.close_form();
                Effect::Nothing
            },
            Key::Down | Key::Tab => self.next_form_field(),
            Key::Up | Key::BackTab => self.previous_form_field(),
            Key::Enter => self.handle_form_enter(),
            _ => {
                let outcome = self.handle_input_event(key);
                outcome.1
            },
        }
    }

    /// Serves a key press. A detail screen whose agent is no longer listed
    /// gives way to the list before the key is looked at.
    pub fn handle_key(&mut self, key: Key) -> (effect: Effect)
        requires
            old(self).wf(),
        ensures
            final(self).wf(),
            old(self)@.key_outcome(key, final(self)@, effect@),
    {
        if self.current_screen == Screen::Detail && self.agent_detail_index >= self.agents.len() {
            self.current_screen = Screen::Main;
        }
        match self.current_screen {
            Screen::Main => self.handle_main_key(key),
            Screen::Detail => self.handle_detail_key(key),
            Screen::NewAgent => self.handle_form_key(key),
        }
    }
}

} // verus!
