//! Launch agents as the service manager knows them, and the definitions from
//! which new ones are registered.

use vstd::prelude::*;
use vstd::string::StringExecFns;

verus! {

broadcast use vstd::seq_lib::group_seq_properties;

/// The definition of a launch agent, as it is stored in a property list.
#[derive(Debug, Clone, PartialEq, Eq)]
pub struct PlistDict {
    pub label: String,
    /// The executable, then its arguments.
    pub program_arguments: Vec<String>,
    pub run_at_load: Option<bool>,
    pub stdout_path: Option<String>,
    pub stderr_path: Option<String>,
    pub keep_alive: Option<bool>,
    pub start_interval: Option<u32>,
}

/// A definition as plain values.
pub struct PlistDictView {
    pub label: Seq<char>,
    pub program_arguments: Seq<Seq<char>>,
    pub run_at_load: Option<bool>,
    pub stdout_path: Option<Seq<char>>,
    pub stderr_path: Option<Seq<char>>,
    pub keep_alive: Option<bool>,
    pub start_interval: Option<u32>,
}

impl View for PlistDict {
    type V = PlistDictView;

    open spec fn view(&self) -> PlistDictView {
        PlistDictView {
            label: self.label@,
            program_arguments: self.program_arguments.deep_view(),
            run_at_load: self.run_at_load,
            stdout_path: self.stdout_path.deep_view(),
            stderr_path: self.stderr_path.deep_view(),
            keep_alive: self.keep_alive,
            start_interval: self.start_interval,
        }
    }
}

impl DeepView for PlistDict {
    type V = PlistDictView;

    open spec fn deep_view(&self) -> PlistDictView {
        self@
    }
}

/// One registered launch agent with its live status.
#[derive(Debug, Clone, PartialEq, Eq)]
pub struct LaunchAgent {
    pub label: String,
    /// Where its definition is stored.
    pub path: String,
    /// The process id, present while the agent runs.
    pub pid: Option<i32>,
    pub last_exit_status: Option<i32>,
    pub program: String,
    pub arguments: Vec<String>,
}

/// A registered agent as plain values.
pub struct LaunchAgentView {
    pub label: Seq<char>,
    pub path: Seq<char>,
    pub pid: Option<i32>,
    pub last_exit_status: Option<i32>,
    pub program: Seq<char>,
    pub arguments: Seq<Seq<char>>,
}

impl View for LaunchAgent {
    type V = LaunchAgentView;

    open spec fn view(&self) -> LaunchAgentView {
        LaunchAgentView {
            label: self.label@,
            path: self.path@,
            pid: self.pid,
            last_exit_status: self.last_exit_status,
            program: self.program@,
            arguments: self.arguments.deep_view(),
        }
    }
}

impl DeepView for LaunchAgent {
    type V = LaunchAgentView;

    open spec fn deep_view(&self) -> LaunchAgentView {
        self@
    }
}

/// The namespace that a domain without a dot is put into.
pub open spec fn default_namespace() -> Seq<char> {
    seq!['c', 'o', 'm', '.', 'u', 's', 'e', 'r', '.']
}

/// The label for a typed domain: the domain itself where it holds a dot,
/// else the domain inside the default namespace.
pub open spec fn qualified_label(domain: Seq<char>) -> Seq<char> {
    if domain.contains('.') {
        domain
    } else {
        default_namespace() + domain
    }
}

/// The file that holds the definition of the agent `label`.
pub open spec fn definition_file_name(label: Seq<char>) -> Seq<char> {
    label + seq!['.', 'p', 'l', 'i', 's', 't']
}

/// The definition that the form's values make.
pub open spec fn definition_of(
    label: Seq<char>,
    program: Seq<char>,
    arguments: Seq<Seq<char>>,
    keep_alive: bool,
    stdout_path: Seq<char>,
    stderr_path: Seq<char>,
    use_interval: bool,
    interval: u32,
) -> PlistDictView {
    PlistDictView {
        label,
        program_arguments: seq![program] + arguments,
        run_at_load: Some(true),
        stdout_path: Some(stdout_path),
        stderr_path: Some(stderr_path),
        keep_alive: Some(keep_alive),
        start_interval: if use_interval {
            Some(interval)
        } else {
            None
        },
    }
}

/// The agent that a stored definition and the live status make: the first
/// program argument is the executable, the others are its arguments.
pub open spec fn agent_of(
    definition: PlistDictView,
    path: Seq<char>,
    pid: Option<i32>,
    last_exit_status: Option<i32>,
) -> LaunchAgentView {
    LaunchAgentView {
        label: definition.label,
        path,
        pid,
        last_exit_status,
        program: if definition.program_arguments.len() > 0 {
            definition.program_arguments[0]
        } else {
            Seq::empty()
        },
        arguments: if definition.program_arguments.len() > 1 {
            definition.program_arguments.subrange(1, definition.program_arguments.len() as int)
        } else {
            Seq::empty()
        },
    }
}

/// Whether `text` holds the character `c`.
pub fn contains_char(text: &str, c: char) -> (found: bool)
    ensures
        found == text@.contains(c),
{
    let len = text.unicode_len();
    let mut i: usize = 0;
    while i < len
        invariant
            i <= len,
            len == text@.len(),
            forall|j: int| 0 <= j < i ==> #[trigger] text@[j] != c,
        decreases len - i,
    {
        if text.get_char(i) == c {
            return true;
        }
        i = i + 1;
    }
    false
}

/// The label for a typed domain.
pub fn qualify_domain(domain: &str) -> (label: String)
    ensures
        label@ == qualified_label(domain@),
{
    if contains_char(domain, '.') {
        String::from_str(domain)
    } else {
        proof {
            reveal_strlit("com.user.");
        }
        let mut label = String::from_str("com.user.");
        label.append(domain);
        label
    }
}

/// The name of the file that holds the definition of the agent `label`.
pub fn plist_file_name(label: &str) -> (name: String)
    ensures
        name@ == definition_file_name(label@),
{
    proof {
        reveal_strlit(".plist");
    }
    let mut name = String::from_str(label);
    name.append(".plist");
    name
}

/// Builds the definition of a new agent. The agent runs at load; the interval
/// is part of the definition only where `use_interval` is set.
pub fn agent_definition(
    label: &str,
    program: &str,
    arguments: &Vec<String>,
    keep_alive: bool,
    stdout_path: &str,
    stderr_path: &str,
    use_interval: bool,
    interval: u32,
) -> (definition: PlistDict)
    ensures
        definition@ == definition_of(
            label@,
            program@,
            arguments.deep_view(),
            keep_alive,
            stdout_path@,
            stderr_path@,
            use_interval,
            interval,
        ),
{
    let mut program_arguments: Vec<String> = Vec::new();
    program_arguments.push(String::from_str(program));
    let mut i: usize = 0;
    while i < arguments.len()
        invariant
            i <= arguments.len(),
            program_arguments.len() == i + 1,
            program_arguments@[0]@ == program@,
            forall|k: int| 1 <= k <= i ==> (#[trigger] program_arguments@[k])@ == arguments@[k - 1]@,
        decreases arguments.len() - i,
    {
        program_arguments.push(arguments[i].clone());
        i = i + 1;
    }
    assert(program_arguments.deep_view() =~= seq![program@] + arguments.deep_view()) by {
        let joined = seq![program@] + arguments.deep_view();
        assert forall|k: int| 0 <= k < joined.len() implies program_arguments.deep_view()[k]
            == joined[k] by {}
    }
    let definition = PlistDict {
        label: String::from_str(label),
        program_arguments,
        run_at_load: Some(true),
        stdout_path: Some(String::from_str(stdout_path)),
        stderr_path: Some(String::from_str(stderr_path)),
        keep_alive: Some(keep_alive),
        start_interval: if use_interval {
            Some(interval)
        } else {
            None
        },
    };
    definition
}

/// Builds the record of a registered agent from its stored definition, the
/// place of that definition and the live status.
pub fn launch_agent(
    definition: &PlistDict,
    path: &str,
    pid: Option<i32>,
    last_exit_status: Option<i32>,
) -> (agent: LaunchAgent)
    ensures
        agent@ == agent_of(definition@, path@, pid, last_exit_status),
{
    let count = definition.program_arguments.len();
    let program = if count > 0 {
        definition.program_arguments[0].clone()
    } else {
        String::new()
    };
    let mut arguments: Vec<String> = Vec::new();
    let mut i: usize = 1;
    while i < count
        invariant
            1 <= i,
            count == definition.program_arguments.len(),
            i <= count || (count == 0 && i == 1),
            arguments.len() == i - 1,
            forall|j: int|
                0 <= j < i - 1 ==> (#[trigger] arguments@[j])@
                    == definition.program_arguments@[j + 1]@,
        decreases count - i,
    {
        arguments.push(definition.program_arguments[i].clone());
        i = i + 1;
    }
    let agent = LaunchAgent {
        label: definition.label.clone(),
        path: String::from_str(path),
        pid,
        last_exit_status,
        program,
        arguments,
    };
    assert(agent@.arguments =~= agent_of(definition@, path@, pid, last_exit_status).arguments) by {
        let stored = definition@.program_arguments;
        assert forall|j: int| 0 <= j < agent.arguments.len() implies agent@.arguments[j]
            == stored[j + 1] by {
        }
    }
    agent
}

} // verus!
