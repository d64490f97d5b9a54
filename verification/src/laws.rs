//! Laws of the state machine: properties that several transitions hold
//! together.

use vstd::prelude::*;
use crate::form::NewAgentFormField;
use crate::key::Key;
use crate::launchctl::{default_namespace, qualified_label};
use crate::launchctl::LaunchAgentView;
use crate::state::{
    next_selected, next_selected_times, AppStateView, EffectView, Screen, TextField,
};
use crate::text_input::TextInputView;

verus! {

impl AppStateView {
    /// The state after `steps` steps forward in the list of agents.
    pub open spec fn next_item_times(self, steps: nat) -> AppStateView
        decreases steps,
    {
        if steps == 0 {
            self
        } else {
            self.next_item_times((steps - 1) as nat).next_item()
        }
    }
}

/// From the item `start` of a list of `len`, `steps` steps forward lead to
/// the item `(start + steps) mod len`.
pub proof fn lemma_next_selected_times(start: usize, len: nat, steps: nat)
    requires
        start < len,
        len <= usize::MAX,
    ensures
        next_selected_times(Some(start), len, steps) == Some(
            ((start + steps) % (len as int)) as usize,
        ),
    decreases steps,
{
    if steps == 0 {
        assert((start + 0) % (len as int) == start) by (nonlinear_arith)
            requires
                0 <= start < len,
        ;
    } else {
        lemma_next_selected_times(start, len, (steps - 1) as nat);
        let before = (start + steps - 1) % (len as int);
        let after = (start + steps) % (len as int);
        assert(0 <= before < len && 0 <= after < len && (if before == len - 1 {
            after == 0
        } else {
            after == before + 1
        })) by (nonlinear_arith)
            requires
                len > 0,
                start + steps >= 1,
                before == (start + steps - 1) % (len as int),
                after == (start + steps) % (len as int),
        ;
    }
}

/// In a list that is not empty, as many steps forward as the list has items
/// lead back to the item one started from.
pub proof fn lemma_next_selected_cycle(start: usize, len: nat)
    requires
        start < len,
        len <= usize::MAX,
    ensures
        next_selected_times(Some(start), len, len) == Some(start),
{
    lemma_next_selected_times(start, len, len);
    assert((start + len) % (len as int) == start) by (nonlinear_arith)
        requires
            0 <= start < len,
    ;
}

/// The selection after some steps of the state is the selection after as
/// many steps in the list; nothing else changes.
pub proof fn lemma_next_item_times(state: AppStateView, steps: nat)
    ensures
        state.next_item_times(steps) == (if state.form.input_mode {
            state
        } else {
            AppStateView {
                selected: next_selected_times(state.selected, state.agents.len(), steps),
                ..state
            }
        }),
    decreases steps,
{
    if steps > 0 {
        lemma_next_item_times(state, (steps - 1) as nat);
    }
}

/// While agents are listed and one of them is selected, as many steps
/// forward as there are agents lead back to the state one started from.
pub proof fn lemma_next_item_cycle(state: AppStateView)
    requires
        state.agents.len() > 0,
        state.agents.len() <= usize::MAX,
        state.selection_valid(),
    ensures
        state.next_item_times(state.agents.len()) == state,
{
    lemma_next_item_times(state, state.agents.len());
    lemma_next_selected_cycle(state.selected.unwrap(), state.agents.len());
}

/// A step of the focus forward and one back lead home to the field one
/// started from, whatever the form holds. Excepted is the interval while it
/// is not in use: the way back from the create button passes over it.
pub proof fn lemma_focus_forward_and_back(state: AppStateView)
    requires
        state.field != NewAgentFormField::Interval || state.form.use_interval,
    ensures
        state.next_form_field().previous_form_field().field == state.field,
        state.next_form_field().form.use_interval == state.form.use_interval,
{
}

/// From the interval, a step forward leads to the create button, also
/// after the interval was switched off.
pub proof fn lemma_forward_from_interval(state: AppStateView)
    requires
        state.field == NewAgentFormField::Interval,
    ensures
        state.next_form_field().field == NewAgentFormField::CreateButton,
{
}

/// While the interval is not in use, no step of the focus arrives at it.
pub proof fn lemma_unused_interval_out_of_reach(state: AppStateView)
    requires
        !state.form.use_interval,
    ensures
        state.next_form_field().field != NewAgentFormField::Interval,
        state.previous_form_field().field != NewAgentFormField::Interval,
{
}

/// Pressing the create button while the domain or the program is missing
/// asks for nothing and leaves the form open as it is.
pub proof fn lemma_incomplete_form_stays_open(state: AppStateView)
    requires
        state.current_screen == Screen::NewAgent,
        state.field == NewAgentFormField::CreateButton,
        state.form.domain.text.len() == 0 || state.form.program.text.len() == 0,
    ensures
        state.key_outcome(Key::Enter, state, EffectView::Nothing),
        forall|after: AppStateView, effect: EffectView|
            state.key_outcome(Key::Enter, after, effect) ==> after == state && effect
                == EffectView::Nothing,
{
}

/// Pressing the create button on a form with a domain and a program asks
/// for the storing of a definition under the qualified label.
pub proof fn lemma_complete_form_is_submitted(state: AppStateView)
    requires
        state.current_screen == Screen::NewAgent,
        state.field == NewAgentFormField::CreateButton,
        state.form.domain.text.len() > 0,
        state.form.program.text.len() > 0,
    ensures
        forall|after: AppStateView, effect: EffectView|
            state.key_outcome(Key::Enter, after, effect) ==> after == state && (
            effect matches EffectView::Persist { definition } && definition.label
                == qualified_label(state.form.domain.text) && definition.program_arguments
                == seq![state.form.program.text] + state.form.arguments),
{
}

/// A domain with a dot is its own label. A domain without one is put into
/// the default namespace, so its label is never the domain as typed.
pub proof fn lemma_qualified_label(domain: Seq<char>)
    ensures
        domain.contains('.') ==> qualified_label(domain) == domain,
        !domain.contains('.') ==> qualified_label(domain) == default_namespace() + domain
            && qualified_label(domain) != domain,
{
}

/// After every new listing the selection fits the list: none in an empty
/// list, else one of the listed agents.
pub proof fn lemma_refresh_selection_valid(state: AppStateView, agents: Seq<LaunchAgentView>)
    requires
        agents.len() <= usize::MAX,
    ensures
        state.refresh(agents).selection_valid(),
        state.refresh(agents).agents == agents,
{
}

/// Whatever key edits the interval, its text afterwards reads as its
/// number, or the text is empty and the number is zero.
pub proof fn lemma_interval_stays_consistent(state: AppStateView, key: Key)
    ensures
        state.after_edit(TextField::Interval, key).form.interval_consistent(),
{
    crate::number::lemma_parse_decimal_digits(state.form.interval);
}

/// A character typed behind a text stands at its end afterwards, with the
/// cursor behind it.
pub proof fn lemma_typing_appends(text: Seq<char>, c: char)
    requires
        c != '\n',
        c != '\r',
    ensures
        TextInputView::at_end(text).edit(Key::Char(c)) == TextInputView::at_end(text.push(c)),
{
    assert(text.insert(text.len() as int, c) =~= text.push(c));
}

/// A backspace behind a text takes its last character away.
pub proof fn lemma_backspace_shortens(text: Seq<char>)
    requires
        text.len() > 0,
    ensures
        TextInputView::at_end(text).edit(Key::Backspace) == TextInputView::at_end(text.drop_last()),
{
    assert(text.remove(text.len() - 1) =~= text.drop_last());
}

} // verus!
