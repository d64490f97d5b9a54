//! The commands of the service manager that the effects ask for.

use vstd::prelude::*;
use vstd::string::StringExecFns;
use crate::number::{decimal_digits, decimal_text};
use crate::state::{Effect, EffectView};

verus! {

broadcast use vstd::seq_lib::group_seq_properties;

/// The place among a user's files where the definitions of the user's agents
/// are stored.
pub const LAUNCH_AGENTS_DIRECTORY: &'static str = "Library/LaunchAgents";

/// The domain of the user with the number `user`.
pub open spec fn user_domain(user: u32) -> Seq<char> {
    "gui/"@ + decimal_digits(user as nat)
}

/// The name of the agent `label` in the domain of the user `user`.
pub open spec fn service_target(user: u32, label: Seq<char>) -> Seq<char> {
    user_domain(user) + "/"@ + label
}

/// The arguments with which the service manager is called for an effect:
/// the command and what it is applied to. A definition is loaded into the
/// user's domain by its path; an agent is enabled, disabled and unloaded by
/// its name in that domain; the listing takes nothing. The other effects
/// call for no command.
pub open spec fn command_of(effect: EffectView, user: u32) -> Option<Seq<Seq<char>>> {
    match effect {
        EffectView::Refresh => Some(seq!["list"@]),
        EffectView::Load { path } => Some(seq!["bootstrap"@, user_domain(user), path]),
        EffectView::Enable { label } => Some(seq!["enable"@, service_target(user, label)]),
        EffectView::Disable { label } => Some(seq!["disable"@, service_target(user, label)]),
        EffectView::Unload { label } => Some(seq!["bootout"@, service_target(user, label)]),
        _ => None,
    }
}

/// The arguments with which a stored definition is loaded.
pub open spec fn load_command(user: u32, path: Seq<char>) -> Seq<Seq<char>> {
    seq!["bootstrap"@, user_domain(user), path]
}

/// Writes the domain of a user.
pub fn domain_of_user(user: u32) -> (domain: String)
    ensures
        domain@ == user_domain(user),
{
    let mut domain = String::from_str("gui/");
    domain.append(decimal_text(user).as_str());
    domain
}

/// Writes the name of an agent in the domain of a user.
pub fn target_in_domain(user: u32, label: &str) -> (target: String)
    ensures
        target@ == service_target(user, label@),
{
    let mut target = domain_of_user(user);
    target.append("/");
    target.append(label);
    target
}

/// The arguments with which a stored definition is loaded.
pub fn load_arguments(user: u32, path: &str) -> (arguments: Vec<String>)
    ensures
        arguments.deep_view() == load_command(user, path@),
{
    let mut arguments: Vec<String> = Vec::new();
    arguments.push(String::from_str("bootstrap"));
    arguments.push(domain_of_user(user));
    arguments.push(String::from_str(path));
    assert(arguments.deep_view() =~= load_command(user, path@));
    arguments
}

/// The command and its one argument.
fn command_on(command: &str, target: String) -> (arguments: Vec<String>)
    ensures
        arguments.deep_view() == seq![command@, target@],
{
    let mut arguments: Vec<String> = Vec::new();
    arguments.push(String::from_str(command));
    arguments.push(target);
    assert(arguments.deep_view() =~= seq![command@, target@]);
    arguments
}

/// The arguments with which the service manager is called for an effect,
/// where it calls for a command.
pub fn command_arguments(effect: &Effect, user: u32) -> (arguments: Option<Vec<String>>)
    ensures
        arguments.deep_view() == command_of(effect@, user),
{
    match effect {
        Effect::Refresh => {
            let mut arguments: Vec<String> = Vec::new();
            arguments.push(String::from_str("list"));
            assert(arguments.deep_view() =~= seq!["list"@]);
            Some(arguments)
        },
        Effect::Load { path } => Some(load_arguments(user, path.as_str())),
        Effect::Enable { label } => Some(
            command_on("enable", target_in_domain(user, label.as_str())),
        ),
        Effect::Disable { label } => Some(
            command_on("disable", target_in_domain(user, label.as_str())),
        ),
        Effect::Unload { label } => Some(
            command_on("bootout", target_in_domain(user, label.as_str())),
        ),
        _ => None,
    }
}

} // verus!
