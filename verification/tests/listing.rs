use launchit::launchctl::{LaunchAgent, PlistDict};
use launchit::number::{decimal_text, parse_i32};
use launchit::status::{
    find_status, get_user_agents, is_definition_file, is_whitespace, label_listed, parse_column,
    parse_status_line, parse_statuses, split_words, AgentStatus, StoredDefinition,
};

fn status(label: &str, pid: Option<i32>, last_exit_status: Option<i32>) -> AgentStatus {
    AgentStatus { label: label.to_string(), pid, last_exit_status }
}

fn stored(label: &str, program_arguments: &[&str]) -> StoredDefinition {
    StoredDefinition {
        path: format!("/home/a/Library/LaunchAgents/{}.plist", label),
        definition: PlistDict {
            label: label.to_string(),
            program_arguments: program_arguments.iter().map(|text| text.to_string()).collect(),
            run_at_load: Some(true),
            stdout_path: None,
            stderr_path: None,
            keep_alive: None,
            start_interval: None,
        },
    }
}

const LISTING: &str = "PID\tStatus\tLabel\n\
                       312\t0\tcom.apple.Finder\n\
                       -\t78\tcom.user.failed\n\
                       -\t0\tcom.user.idle\n\
                       99\t-9\tcom.user.killed\n";

#[test]
fn white_space_is_what_the_standard_library_calls_so() {
    for code in 0..=0x10ffffu32 {
        if let Some(c) = char::from_u32(code) {
            assert_eq!(is_whitespace(c), c.is_whitespace(), "U+{:04X}", code);
        }
    }
}

#[test]
fn signed_numbers_are_read() {
    assert_eq!(parse_i32("0"), Some(0));
    assert_eq!(parse_i32("-0"), Some(0));
    assert_eq!(parse_i32("+7"), Some(7));
    assert_eq!(parse_i32("-9"), Some(-9));
    assert_eq!(parse_i32("2147483647"), Some(2147483647));
    assert_eq!(parse_i32("-2147483648"), Some(-2147483648));
    assert_eq!(parse_i32("2147483648"), None);
    assert_eq!(parse_i32("-2147483649"), None);
    assert_eq!(parse_i32(""), None);
    assert_eq!(parse_i32("-"), None);
    assert_eq!(parse_i32("+"), None);
    assert_eq!(parse_i32("--1"), None);
    assert_eq!(parse_i32("1-"), None);
    assert_eq!(parse_i32("12x"), None);
}

#[test]
fn signed_parse_agrees_with_the_standard_library() {
    for text in ["", "-", "+", "0", "-0", "+0", "17", "-17", "2147483647", "2147483648",
        "-2147483648", "-2147483649", "99999999999", "a", "1a", "+-1", " 1"]
    {
        assert_eq!(parse_i32(text), text.parse::<i32>().ok(), "{:?}", text);
    }
}

#[test]
fn numbers_are_written_in_base_ten() {
    assert_eq!(decimal_text(0), "0");
    assert_eq!(decimal_text(7), "7");
    assert_eq!(decimal_text(10), "10");
    assert_eq!(decimal_text(3600), "3600");
    assert_eq!(decimal_text(4294967295), "4294967295");
}

#[test]
fn words_are_split_at_white_space() {
    assert_eq!(split_words("312\t0\tcom.apple.Finder"), vec!["312", "0", "com.apple.Finder"]);
    assert_eq!(split_words("  a  b \t c\r"), vec!["a", "b", "c"]);
    assert_eq!(split_words("one"), vec!["one"]);
    assert!(split_words("").is_empty());
    assert!(split_words(" \t ").is_empty());
}

#[test]
fn words_agree_with_the_standard_library() {
    for text in ["", " ", "a", " a", "a ", "a b", "a\u{a0}b", "\ta \n b\u{3000}c  ", "-\t0\tx y z"] {
        let expected: Vec<&str> = text.split_whitespace().collect();
        assert_eq!(split_words(text), expected, "{:?}", text);
    }
}

#[test]
fn column_reads_a_number_or_nothing() {
    assert_eq!(parse_column("-"), None);
    assert_eq!(parse_column("312"), Some(312));
    assert_eq!(parse_column("-9"), Some(-9));
    assert_eq!(parse_column("PID"), None);
    assert_eq!(parse_column(""), None);
}

#[test]
fn line_gives_pid_status_and_label() {
    assert_eq!(
        parse_status_line("312\t0\tcom.apple.Finder"),
        Some(status("com.apple.Finder", Some(312), Some(0)))
    );
    assert_eq!(
        parse_status_line("-\t78\tcom.user.failed"),
        Some(status("com.user.failed", None, Some(78)))
    );
    assert_eq!(parse_status_line("-\t-\tx"), Some(status("x", None, None)));
}

#[test]
fn label_of_several_words_is_joined_by_blanks() {
    assert_eq!(
        parse_status_line("1\t2\tmy   agent\tname "),
        Some(status("my agent name", Some(1), Some(2)))
    );
}

#[test]
fn line_of_fewer_than_three_words_gives_nothing() {
    assert_eq!(parse_status_line(""), None);
    assert_eq!(parse_status_line("1"), None);
    assert_eq!(parse_status_line("1\t0"), None);
}

#[test]
fn listing_is_read_without_its_header() {
    assert_eq!(
        parse_statuses(LISTING),
        vec![
            status("com.apple.Finder", Some(312), Some(0)),
            status("com.user.failed", None, Some(78)),
            status("com.user.idle", None, Some(0)),
            status("com.user.killed", Some(99), Some(-9)),
        ]
    );
}

#[test]
fn header_is_left_out_whatever_it_holds() {
    assert_eq!(parse_statuses("1\t0\tfirst.line\n2\t0\tsecond.line"), vec![status(
        "second.line",
        Some(2),
        Some(0)
    )]);
    assert!(parse_statuses("1\t0\tonly.line").is_empty());
    assert!(parse_statuses("1\t0\tonly.line\n").is_empty());
    assert!(parse_statuses("").is_empty());
    assert!(parse_statuses("\n").is_empty());
}

#[test]
fn last_line_needs_no_line_break() {
    assert_eq!(parse_statuses("h\n1\t0\ta\n2\t0\tb"), vec![
        status("a", Some(1), Some(0)),
        status("b", Some(2), Some(0))
    ]);
}

#[test]
fn short_and_empty_lines_are_passed_over() {
    assert_eq!(parse_statuses("h\n\n1\t0\ta\r\nbroken line\n\n2\t0\tb\n"), vec![
        status("a", Some(1), Some(0)),
        status("b", Some(2), Some(0))
    ]);
}

#[test]
fn last_line_for_a_label_decides() {
    let statuses = parse_statuses("h\n1\t0\ta\n2\t0\tb\n3\t5\ta\n");
    assert_eq!(find_status(&statuses, &"a".to_string()), (Some(3), Some(5)));
    assert_eq!(find_status(&statuses, &"b".to_string()), (Some(2), Some(0)));
    assert_eq!(find_status(&statuses, &"c".to_string()), (None, None));
    assert_eq!(find_status(&Vec::new(), &"a".to_string()), (None, None));
}

#[test]
fn agents_are_made_from_definitions_and_listing() {
    let definitions = vec![
        stored("com.user.idle", &["/bin/sleep", "60"]),
        stored("com.user.unlisted", &["/bin/true"]),
        stored("com.apple.Finder", &[]),
    ];
    let agents = get_user_agents(LISTING, &definitions);
    assert_eq!(
        agents,
        vec![
            LaunchAgent {
                label: "com.user.idle".to_string(),
                path: "/home/a/Library/LaunchAgents/com.user.idle.plist".to_string(),
                pid: None,
                last_exit_status: Some(0),
                program: "/bin/sleep".to_string(),
                arguments: vec!["60".to_string()],
            },
            LaunchAgent {
                label: "com.user.unlisted".to_string(),
                path: "/home/a/Library/LaunchAgents/com.user.unlisted.plist".to_string(),
                pid: None,
                last_exit_status: None,
                program: "/bin/true".to_string(),
                arguments: Vec::new(),
            },
            LaunchAgent {
                label: "com.apple.Finder".to_string(),
                path: "/home/a/Library/LaunchAgents/com.apple.Finder.plist".to_string(),
                pid: Some(312),
                last_exit_status: Some(0),
                program: String::new(),
                arguments: Vec::new(),
            },
        ]
    );
    assert!(get_user_agents(LISTING, &Vec::new()).is_empty());
}

#[test]
fn label_names_one_agent() {
    let mut second = stored("com.user.idle", &["/bin/second"]);
    second.path = "/elsewhere/copy.plist".to_string();
    let definitions = vec![
        stored("com.user.idle", &["/bin/first"]),
        stored("com.user.other", &["/bin/true"]),
        second,
        stored("com.user.other", &["/bin/false"]),
        stored("com.user.last", &[]),
    ];
    let agents = get_user_agents(LISTING, &definitions);
    let labels: Vec<&str> = agents.iter().map(|agent| agent.label.as_str()).collect();
    assert_eq!(labels, vec!["com.user.idle", "com.user.other", "com.user.last"]);
    assert_eq!(agents[0].program, "/bin/first");
    assert_eq!(agents[0].path, "/home/a/Library/LaunchAgents/com.user.idle.plist");
    assert_eq!(agents[1].program, "/bin/true");
}

#[test]
fn listed_label_is_found() {
    let agents = get_user_agents(LISTING, &vec![stored("a.b", &[]), stored("c.d", &[])]);
    assert!(label_listed(&agents, &"a.b".to_string()));
    assert!(label_listed(&agents, &"c.d".to_string()));
    assert!(!label_listed(&agents, &"e.f".to_string()));
    assert!(!label_listed(&Vec::new(), &"a.b".to_string()));
}

#[test]
fn definition_files_have_the_plist_extension() {
    assert!(is_definition_file("com.user.foo.plist"));
    assert!(is_definition_file("a.plist"));
    assert!(is_definition_file("..plist"));
    assert!(!is_definition_file(".plist"));
    assert!(!is_definition_file("plist"));
    assert!(!is_definition_file("a.plist.bak"));
    assert!(!is_definition_file("a.PLIST"));
    assert!(!is_definition_file("aplist"));
    assert!(!is_definition_file(""));
}

#[test]
fn definition_files_agree_with_the_standard_library() {
    for name in ["a.plist", ".plist", "..plist", "a.b.plist", "plist", "a.plist.x", "a.", "é.plist"] {
        let expected = std::path::Path::new(name).extension().and_then(|e| e.to_str())
            == Some("plist");
        assert_eq!(is_definition_file(name), expected, "{:?}", name);
    }
}
