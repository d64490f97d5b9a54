use launchit::launchctl::{
    agent_definition, contains_char, launch_agent, plist_file_name, qualify_domain, LaunchAgent,
    PlistDict,
};

fn strings(items: &[&str]) -> Vec<String> {
    items.iter().map(|item| item.to_string()).collect()
}

#[test]
fn domain_without_dot_is_qualified() {
    assert_eq!(qualify_domain("foo"), "com.user.foo");
}

#[test]
fn domain_with_dot_is_kept() {
    assert_eq!(qualify_domain("com.example.foo"), "com.example.foo");
    assert_eq!(qualify_domain("a.b"), "a.b");
    assert_eq!(qualify_domain("."), ".");
}

#[test]
fn contains_char_finds_a_character() {
    assert!(contains_char("a.b", '.'));
    assert!(contains_char(".", '.'));
    assert!(!contains_char("ab", '.'));
    assert!(!contains_char("", '.'));
}

#[test]
fn definition_file_is_named_by_the_label() {
    assert_eq!(plist_file_name("com.user.foo"), "com.user.foo.plist");
}

#[test]
fn definition_holds_the_program_first() {
    let definition = agent_definition(
        "com.user.foo",
        "/bin/echo",
        &strings(&["hello", "world"]),
        true,
        "/tmp/out",
        "/tmp/err",
        true,
        60,
    );
    assert_eq!(
        definition,
        PlistDict {
            label: "com.user.foo".to_string(),
            program_arguments: strings(&["/bin/echo", "hello", "world"]),
            run_at_load: Some(true),
            stdout_path: Some("/tmp/out".to_string()),
            stderr_path: Some("/tmp/err".to_string()),
            keep_alive: Some(true),
            start_interval: Some(60),
        }
    );
}

#[test]
fn definition_leaves_an_unused_interval_out() {
    let definition =
        agent_definition("a.b", "/bin/true", &Vec::new(), false, "/dev/null", "/dev/null", false, 60);
    assert_eq!(definition.start_interval, None);
    assert_eq!(definition.keep_alive, Some(false));
    assert_eq!(definition.run_at_load, Some(true));
    assert_eq!(definition.program_arguments, strings(&["/bin/true"]));
}

#[test]
fn agent_is_made_from_definition_and_status() {
    let definition = agent_definition(
        "com.user.foo",
        "/bin/echo",
        &strings(&["hello", "world"]),
        true,
        "/dev/null",
        "/dev/null",
        false,
        0,
    );
    let agent = launch_agent(&definition, "/home/a/Library/LaunchAgents/com.user.foo.plist", Some(42), Some(0));
    assert_eq!(
        agent,
        LaunchAgent {
            label: "com.user.foo".to_string(),
            path: "/home/a/Library/LaunchAgents/com.user.foo.plist".to_string(),
            pid: Some(42),
            last_exit_status: Some(0),
            program: "/bin/echo".to_string(),
            arguments: strings(&["hello", "world"]),
        }
    );
}

#[test]
fn agent_without_program_arguments_has_an_empty_program() {
    let definition = PlistDict {
        label: "x.y".to_string(),
        program_arguments: Vec::new(),
        run_at_load: None,
        stdout_path: None,
        stderr_path: None,
        keep_alive: None,
        start_interval: None,
    };
    let agent = launch_agent(&definition, "/p", None, None);
    assert_eq!(agent.program, "");
    assert!(agent.arguments.is_empty());
    assert_eq!(agent.pid, None);
    assert_eq!(agent.last_exit_status, None);
}

#[test]
fn agent_with_only_a_program_has_no_arguments() {
    let definition =
        agent_definition("x.y", "/bin/true", &Vec::new(), true, "/dev/null", "/dev/null", false, 0);
    let agent = launch_agent(&definition, "/p", None, Some(78));
    assert_eq!(agent.program, "/bin/true");
    assert!(agent.arguments.is_empty());
    assert_eq!(agent.last_exit_status, Some(78));
}
