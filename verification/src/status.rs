//! The live status of agents, as the service manager's listing prints it: a
//! header line, then one line for each agent with its process id, its last
//! exit status and its label, a dash where a number is unknown.

use vstd::prelude::*;
use vstd::string::StringExecFns;
use crate::launchctl::{agent_of, launch_agent, LaunchAgent, LaunchAgentView, PlistDict, PlistDictView};
use crate::number::{parse_i32, parse_signed};

verus! {

broadcast use vstd::seq_lib::group_seq_properties;

/// The status of one agent in a listing.
#[derive(Debug, Clone, PartialEq, Eq)]
pub struct AgentStatus {
    pub label: String,
    pub pid: Option<i32>,
    pub last_exit_status: Option<i32>,
}

/// A status as plain values.
pub struct AgentStatusView {
    pub label: Seq<char>,
    pub pid: Option<i32>,
    pub last_exit_status: Option<i32>,
}

impl View for AgentStatus {
    type V = AgentStatusView;

    open spec fn view(&self) -> AgentStatusView {
        AgentStatusView {
            label: self.label@,
            pid: self.pid,
            last_exit_status: self.last_exit_status,
        }
    }
}

impl DeepView for AgentStatus {
    type V = AgentStatusView;

    open spec fn deep_view(&self) -> AgentStatusView {
        self@
    }
}

/// A definition as it was read from storage, with the place it was read
/// from.
#[derive(Debug, Clone, PartialEq, Eq)]
pub struct StoredDefinition {
    pub path: String,
    pub definition: PlistDict,
}

/// A stored definition as plain values.
pub struct StoredDefinitionView {
    pub path: Seq<char>,
    pub definition: PlistDictView,
}

impl View for StoredDefinition {
    type V = StoredDefinitionView;

    open spec fn view(&self) -> StoredDefinitionView {
        StoredDefinitionView { path: self.path@, definition: self.definition@ }
    }
}

impl DeepView for StoredDefinition {
    type V = StoredDefinitionView;

    open spec fn deep_view(&self) -> StoredDefinitionView {
        self@
    }
}

/// The characters with the Unicode property `White_Space`.
pub open spec fn is_space(c: char) -> bool {
    let code = c as u32;
    ||| 0x09 <= code <= 0x0d
    ||| code == 0x20
    ||| code == 0x85
    ||| code == 0xa0
    ||| code == 0x1680
    ||| 0x2000 <= code <= 0x200a
    ||| code == 0x2028
    ||| code == 0x2029
    ||| code == 0x202f
    ||| code == 0x205f
    ||| code == 0x3000
}

/// Where the last line of `text` begins: behind its last line break, or at
/// its start.
pub open spec fn last_line_start(text: Seq<char>) -> int
    decreases text.len(),
{
    if text.len() == 0 {
        0
    } else if text.last() == '\n' {
        text.len() as int
    } else {
        last_line_start(text.drop_last())
    }
}

/// The lines of `text` that a line break ends, without their line breaks.
pub open spec fn ended_lines(text: Seq<char>) -> Seq<Seq<char>>
    decreases text.len(),
{
    if text.len() == 0 {
        Seq::empty()
    } else {
        let before = text.drop_last();
        if text.last() == '\n' {
            ended_lines(before).push(before.subrange(last_line_start(before), before.len() as int))
        } else {
            ended_lines(before)
        }
    }
}

/// The lines of `text`: those that a line break ends, and what follows the
/// last line break, where anything does.
pub open spec fn lines_of(text: Seq<char>) -> Seq<Seq<char>> {
    if last_line_start(text) < text.len() {
        ended_lines(text).push(text.subrange(last_line_start(text), text.len() as int))
    } else {
        ended_lines(text)
    }
}

/// The words of `text`: its longest runs of characters that are no white
/// space, in their order.
pub open spec fn words_of(text: Seq<char>) -> Seq<Seq<char>>
    decreases text.len(),
{
    if text.len() == 0 {
        Seq::empty()
    } else {
        let before = text.drop_last();
        let words = words_of(before);
        if is_space(text.last()) {
            words
        } else if before.len() > 0 && !is_space(before.last()) && words.len() > 0 {
            words.drop_last().push(words.last().push(text.last()))
        } else {
            words.push(seq![text.last()])
        }
    }
}

/// The words joined by single blanks.
pub open spec fn joined(words: Seq<Seq<char>>) -> Seq<char>
    decreases words.len(),
{
    if words.len() == 0 {
        Seq::empty()
    } else if words.len() == 1 {
        words[0]
    } else {
        joined(words.drop_last()) + seq![' '] + words.last()
    }
}

/// The number in a column of the listing: none for a dash and for what is
/// no number.
pub open spec fn column_number(word: Seq<char>) -> Option<i32> {
    if word == seq!['-'] {
        None
    } else {
        parse_signed(word)
    }
}

/// The status that a line of the listing gives: its first word is the
/// process id, its second the last exit status, the others are the label.
/// A line of fewer than three words gives none.
pub open spec fn status_of_line(line: Seq<char>) -> Option<AgentStatusView> {
    let words = words_of(line);
    if words.len() >= 3 {
        Some(
            AgentStatusView {
                label: joined(words.subrange(2, words.len() as int)),
                pid: column_number(words[0]),
                last_exit_status: column_number(words[1]),
            },
        )
    } else {
        None
    }
}

/// The statuses that the lines of a listing give, the header line left out.
pub open spec fn statuses_of_lines(lines: Seq<Seq<char>>) -> Seq<AgentStatusView>
    decreases lines.len(),
{
    if lines.len() <= 1 {
        Seq::empty()
    } else {
        let before = statuses_of_lines(lines.drop_last());
        match status_of_line(lines.last()) {
            Some(status) => before.push(status),
            None => before,
        }
    }
}

/// The statuses that a listing gives.
pub open spec fn statuses_of(listing: Seq<char>) -> Seq<AgentStatusView> {
    statuses_of_lines(lines_of(listing))
}

/// The process id and the last exit status of the agent `label`: those of
/// the last line that names it, and unknown where none does.
pub open spec fn status_for(statuses: Seq<AgentStatusView>, label: Seq<char>) -> (
    Option<i32>,
    Option<i32>,
)
    decreases statuses.len(),
{
    if statuses.len() == 0 {
        (None, None)
    } else if statuses.last().label == label {
        (statuses.last().pid, statuses.last().last_exit_status)
    } else {
        status_for(statuses.drop_last(), label)
    }
}

/// The agent that a stored definition makes under the statuses of a listing.
pub open spec fn listed_agent(
    statuses: Seq<AgentStatusView>,
    stored: StoredDefinitionView,
) -> LaunchAgentView {
    let status = status_for(statuses, stored.definition.label);
    agent_of(stored.definition, stored.path, status.0, status.1)
}

/// Whether one of `agents` has the label `label`.
pub open spec fn has_label(agents: Seq<LaunchAgentView>, label: Seq<char>) -> bool {
    exists|i: int| 0 <= i < agents.len() && (#[trigger] agents[i]).label == label
}

/// No two of `agents` have the same label.
pub open spec fn labels_distinct(agents: Seq<LaunchAgentView>) -> bool {
    forall|i: int, j: int|
        0 <= i < j < agents.len() ==> (#[trigger] agents[i]).label != (#[trigger] agents[j]).label
}

/// The agents that the stored definitions make under the statuses of a
/// listing, in the order of the definitions. A label names one agent: of
/// several definitions with the same label the first makes the agent, and
/// the others are passed over.
pub open spec fn agents_of(
    listing: Seq<char>,
    definitions: Seq<StoredDefinitionView>,
) -> Seq<LaunchAgentView>
    decreases definitions.len(),
{
    if definitions.len() == 0 {
        Seq::empty()
    } else {
        let before = agents_of(listing, definitions.drop_last());
        let agent = listed_agent(statuses_of(listing), definitions.last());
        if has_label(before, agent.label) {
            before
        } else {
            before.push(agent)
        }
    }
}

/// No two of the agents of a listing have the same label.
pub proof fn lemma_agents_of_distinct(listing: Seq<char>, definitions: Seq<StoredDefinitionView>)
    ensures
        labels_distinct(agents_of(listing, definitions)),
    decreases definitions.len(),
{
    if definitions.len() > 0 {
        lemma_agents_of_distinct(listing, definitions.drop_last());
    }
}

/// A file holds a definition where its name has the extension `plist`: it
/// ends in `.plist`, and something stands before that.
pub open spec fn names_definition(file_name: Seq<char>) -> bool {
    let suffix = seq!['.', 'p', 'l', 'i', 's', 't'];
    file_name.len() > suffix.len() && file_name.subrange(
        file_name.len() - suffix.len(),
        file_name.len() as int,
    ) == suffix
}

/// Whether `c` is white space.
pub fn is_whitespace(c: char) -> (space: bool)
    ensures
        space == is_space(c),
{
    let code = c as u32;
    (0x09 <= code && code <= 0x0d) || code == 0x20 || code == 0x85 || code == 0xa0 || code
        == 0x1680 || (0x2000 <= code && code <= 0x200a) || code == 0x2028 || code == 0x2029
        || code == 0x202f || code == 0x205f || code == 0x3000
}

/// Whether a file of this name holds a definition.
pub fn is_definition_file(file_name: &str) -> (holds: bool)
    ensures
        holds == names_definition(file_name@),
{
    proof {
        reveal_strlit(".plist");
    }
    let suffix = ".plist";
    assert(suffix@ =~= seq!['.', 'p', 'l', 'i', 's', 't']);
    let len = file_name.unicode_len();
    if len <= 6 {
        return false;
    }
    let ghost tail = file_name@.subrange(len - 6, len as int);
    let mut i: usize = 0;
    while i < 6
        invariant
            i <= 6,
            len == file_name@.len(),
            len > 6,
            suffix@ == seq!['.', 'p', 'l', 'i', 's', 't'],
            tail == file_name@.subrange(len - 6, len as int),
            forall|j: int| 0 <= j < i ==> #[trigger] tail[j] == suffix@[j],
        decreases 6 - i,
    {
        if file_name.get_char(len - 6 + i) != suffix.get_char(i) {
            return false;
        }
        i = i + 1;
    }
    assert(tail =~= suffix@);
    true
}

/// The words of a line.
pub fn split_words(line: &str) -> (words: Vec<String>)
    ensures
        words.deep_view() == words_of(line@),
{
    let len = line.unicode_len();
    let mut words: Vec<String> = Vec::new();
    let mut word_start: usize = 0;
    let mut in_word = false;
    let mut i: usize = 0;
    for c in it: line.chars()
        invariant
            it.seq() == line@,
            i == it.index(),
            len == line@.len(),
            in_word ==> word_start < i,
            in_word == (i > 0 && !is_space(line@[i - 1])),
            words_of(line@.take(i as int)) == (if in_word {
                words.deep_view().push(line@.subrange(word_start as int, i as int))
            } else {
                words.deep_view()
            }),
    {
        let ghost before = line@.take(i as int);
        let ghost longer = line@.take(i + 1);
        let ghost done = words.deep_view();
        assert(longer.drop_last() =~= before);
        if is_whitespace(c) {
            if in_word {
                words.push(String::from_str(line.substring_char(word_start, i)));
                in_word = false;
            }
        } else if in_word {
            let ghost found = done.push(line@.subrange(word_start as int, i as int));
            assert(found.drop_last() =~= done);
            assert(found.last().push(c) =~= line@.subrange(word_start as int, i + 1));
        } else {
            word_start = i;
            in_word = true;
            assert(seq![c] =~= line@.subrange(i as int, i + 1));
        }
        i = i + 1;
    }
    if in_word {
        words.push(String::from_str(line.substring_char(word_start, len)));
    }
    words
}

/// The number in a column of the listing.
pub fn parse_column(word: &str) -> (number: Option<i32>)
    ensures
        number == column_number(word@),
{
    if word.unicode_len() == 1 && word.get_char(0) == '-' {
        None
    } else {
        parse_i32(word)
    }
}

/// Joins the words from the third on by single blanks.
fn join_label(words: &Vec<String>) -> (label: String)
    requires
        words.len() >= 3,
    ensures
        label@ == joined(words.deep_view().subrange(2, words.len() as int)),
{
    let ghost all = words.deep_view();
    let mut label = words[2].clone();
    let mut k: usize = 3;
    proof {
        reveal_strlit(" ");
    }
    assert(all.subrange(2, 3) =~= seq![all[2]]);
    while k < words.len()
        invariant
            3 <= k <= words.len(),
            all == words.deep_view(),
            " "@ == seq![' '],
            label@ == joined(all.subrange(2, k as int)),
        decreases words.len() - k,
    {
        let ghost longer = all.subrange(2, k + 1);
        assert(longer.drop_last() =~= all.subrange(2, k as int));
        label.append(" ");
        label.append(words[k].as_str());
        k = k + 1;
    }
    label
}

/// The status that a line of the listing gives.
pub fn parse_status_line(line: &str) -> (status: Option<AgentStatus>)
    ensures
        status.deep_view() == status_of_line(line@),
{
    let words = split_words(line);
    if words.len() >= 3 {
        let pid = parse_column(words[0].as_str());
        let last_exit_status = parse_column(words[1].as_str());
        let label = join_label(&words);
        Some(AgentStatus { label, pid, last_exit_status })
    } else {
        None
    }
}

/// The statuses that a listing gives.
pub fn parse_statuses(listing: &str) -> (statuses: Vec<AgentStatus>)
    ensures
        statuses.deep_view() == statuses_of(listing@),
{
    let len = listing.unicode_len();
    let mut statuses: Vec<AgentStatus> = Vec::new();
    let mut line_start: usize = 0;
    let mut header_seen = false;
    let mut i: usize = 0;
    for c in it: listing.chars()
        invariant
            it.seq() == listing@,
            i == it.index(),
            len == listing@.len(),
            line_start <= i,
            line_start == last_line_start(listing@.take(i as int)),
            header_seen == (ended_lines(listing@.take(i as int)).len() > 0),
            statuses.deep_view() == statuses_of_lines(ended_lines(listing@.take(i as int))),
    {
        let ghost before = listing@.take(i as int);
        let ghost longer = listing@.take(i + 1);
        assert(longer.drop_last() =~= before);
        if c == '\n' {
            let ghost line = before.subrange(line_start as int, i as int);
            assert(line =~= listing@.subrange(line_start as int, i as int));
            assert(ended_lines(longer).drop_last() =~= ended_lines(before));
            if header_seen {
                match parse_status_line(listing.substring_char(line_start, i)) {
                    Some(status) => {
                        statuses.push(status);
                    },
                    None => {},
                }
            }
            header_seen = true;
            line_start = i + 1;
        }
        i = i + 1;
    }
    if line_start < len {
        assert(lines_of(listing@).drop_last() =~= ended_lines(listing@));
        if header_seen {
            match parse_status_line(listing.substring_char(line_start, len)) {
                Some(status) => {
                    statuses.push(status);
                },
                None => {},
            }
        }
    }
    statuses
}

/// The process id and the last exit status of the agent `label`.
pub fn find_status(statuses: &Vec<AgentStatus>, label: &String) -> (status: (
    Option<i32>,
    Option<i32>,
))
    ensures
        status == status_for(statuses.deep_view(), label@),
{
    let ghost all = statuses.deep_view();
    let mut i: usize = statuses.len();
    while i > 0
        invariant
            i <= statuses.len(),
            all == statuses.deep_view(),
            status_for(all, label@) == status_for(all.take(i as int), label@),
        decreases i,
    {
        let ghost shown = all.take(i as int);
        assert(shown.drop_last() =~= all.take(i - 1));
        i = i - 1;
        if statuses[i].label == *label {
            return (statuses[i].pid, statuses[i].last_exit_status);
        }
    }
    (None, None)
}

/// Whether one of `agents` has the label `label`.
pub fn label_listed(agents: &Vec<LaunchAgent>, label: &String) -> (listed: bool)
    ensures
        listed == has_label(agents.deep_view(), label@),
{
    let mut i: usize = 0;
    while i < agents.len()
        invariant
            i <= agents.len(),
            forall|j: int| 0 <= j < i ==> (#[trigger] agents.deep_view()[j]).label != label@,
        decreases agents.len() - i,
    {
        if agents[i].label == *label {
            assert(agents.deep_view()[i as int].label == label@);
            return true;
        }
        i = i + 1;
    }
    false
}

/// The agents that the stored definitions make under the statuses of a
/// listing, in the order of the definitions, each with the process id and
/// the last exit status that the listing gives for its label. No two of
/// them have the same label: of several definitions with the same label the
/// first makes the agent.
pub fn get_user_agents(listing: &str, definitions: &Vec<StoredDefinition>) -> (agents: Vec<
    LaunchAgent,
>)
    ensures
        agents.deep_view() == agents_of(listing@, definitions.deep_view()),
        labels_distinct(agents.deep_view()),
{
    let statuses = parse_statuses(listing);
    let ghost stored_all = definitions.deep_view();
    let mut agents: Vec<LaunchAgent> = Vec::new();
    let mut i: usize = 0;
    assert(stored_all.take(0) =~= Seq::<StoredDefinitionView>::empty());
    assert(agents.deep_view() =~= agents_of(listing@, stored_all.take(0)));
    while i < definitions.len()
        invariant
            i <= definitions.len(),
            stored_all == definitions.deep_view(),
            statuses.deep_view() == statuses_of(listing@),
            agents.deep_view() == agents_of(listing@, stored_all.take(i as int)),
        decreases definitions.len() - i,
    {
        let stored = &definitions[i];
        let ghost before = agents.deep_view();
        assert(stored_all.take(i + 1).drop_last() =~= stored_all.take(i as int));
        assert(stored_all.take(i + 1).last() == stored@);
        if !label_listed(&agents, &stored.definition.label) {
            let status = find_status(&statuses, &stored.definition.label);
            let agent = launch_agent(&stored.definition, stored.path.as_str(), status.0, status.1);
            agents.push(agent);
            assert(agents.deep_view() =~= before.push(
                listed_agent(statuses_of(listing@), stored@),
            ));
        }
        i = i + 1;
    }
    assert(stored_all.take(i as int) =~= stored_all);
    proof {
        lemma_agents_of_distinct(listing@, stored_all);
    }
    agents
}

} // verus!
