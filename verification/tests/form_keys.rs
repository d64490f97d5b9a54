use launchit::form::{NewAgentForm, NewAgentFormField};
use launchit::key::Key;
use launchit::path_utils::DirectoryEntry;
use launchit::state::{AppState, Effect};
use launchit::text_input::TextInput;

fn form_on(field: NewAgentFormField) -> AppState {
    let mut state = AppState::new(Vec::new());
    state.new_agent();
    state.new_agent_form_field = field;
    state
}

fn type_text(state: &mut AppState, text: &str) {
    for c in text.chars() {
        state.handle_input_event(Key::Char(c));
    }
}

fn with_suggestions(field: NewAgentFormField) -> AppState {
    let mut state = form_on(field);
    state.new_agent_form.path_suggestions =
        vec!["/bin/".to_string(), "/boot/".to_string(), "/bash".to_string()];
    state.new_agent_form.show_suggestions = true;
    state.new_agent_form.selected_suggestion = 0;
    state
}

#[test]
fn fresh_form_has_its_defaults() {
    let form = NewAgentForm::new();
    assert_eq!(form.domain_input.value(), "");
    assert_eq!(form.program_input.value(), "");
    assert!(form.arguments.is_empty());
    assert!(form.keep_alive);
    assert_eq!(form.stdout_path_input.value(), "/dev/null");
    assert_eq!(form.stderr_path_input.value(), "/dev/null");
    assert!(!form.use_interval);
    assert_eq!(form.interval, 3600);
    assert_eq!(form.interval_input.value(), "3600");
    assert_eq!(form.argument_input.value(), "");
    assert!(form.path_suggestions.is_empty());
    assert!(!form.show_suggestions);
    assert_eq!(form.selected_suggestion, 0);
    assert!(!form.input_mode);
    let form = NewAgentForm::default();
    assert_eq!(form.interval, 3600);
    assert_eq!(form.stdout_path_input.value(), "/dev/null");
}

#[test]
fn domain_takes_typed_text() {
    let mut state = form_on(NewAgentFormField::Domain);
    assert_eq!(state.handle_input_event(Key::Char('f')), (true, Effect::Nothing));
    type_text(&mut state, "oo");
    assert_eq!(state.new_agent_form.domain_input.value(), "foo");
    assert_eq!(state.handle_input_event(Key::Backspace), (true, Effect::Nothing));
    assert_eq!(state.new_agent_form.domain_input.value(), "fo");
    assert_eq!(state.handle_input_event(Key::Left), (true, Effect::Nothing));
    assert_eq!(state.new_agent_form.domain_input.cursor(), 1);
    assert_eq!(state.handle_input_event(Key::Home), (true, Effect::Nothing));
    assert_eq!(state.handle_input_event(Key::Home), (false, Effect::Nothing));
    assert_eq!(state.handle_input_event(Key::Backspace), (false, Effect::Nothing));
    assert_eq!(state.handle_input_event(Key::Enter), (false, Effect::Nothing));
    assert_eq!(state.new_agent_form.domain_input.value(), "fo");
}

#[test]
fn every_letter_can_be_typed_into_a_text_field() {
    let mut state = form_on(NewAgentFormField::Domain);
    type_text(&mut state, "jkqnclr");
    assert_eq!(state.new_agent_form.domain_input.value(), "jkqnclr");
}

#[test]
fn path_fields_take_typed_text() {
    for field in [
        NewAgentFormField::Program,
        NewAgentFormField::StdoutPath,
        NewAgentFormField::StderrPath,
    ] {
        let mut state = form_on(field);
        type_text(&mut state, "x");
        let form = &state.new_agent_form;
        let texts =
            [form.program_input.value(), form.stdout_path_input.value(), form.stderr_path_input.value()];
        let expected = match field {
            NewAgentFormField::Program => ["x", "/dev/null", "/dev/null"],
            NewAgentFormField::StdoutPath => ["", "/dev/nullx", "/dev/null"],
            _ => ["", "/dev/null", "/dev/nullx"],
        };
        assert_eq!(texts, expected);
    }
}

#[test]
fn tab_calls_for_completions() {
    let mut state = form_on(NewAgentFormField::Program);
    type_text(&mut state, "/usr/b");
    state.new_agent_form.selected_suggestion = 7;
    assert_eq!(
        state.handle_input_event(Key::Tab),
        (true, Effect::Suggest { directory: Some("/usr".to_string()) })
    );
    assert!(state.new_agent_form.show_suggestions);
    assert_eq!(state.new_agent_form.selected_suggestion, 0);
    assert_eq!(state.new_agent_form.program_input.value(), "/usr/b");
}

#[test]
fn tab_on_an_empty_path_asks_for_the_roots() {
    let mut state = form_on(NewAgentFormField::Program);
    assert_eq!(state.handle_input_event(Key::Tab), (true, Effect::Suggest { directory: None }));
    state.update_path_suggestions(&Vec::new());
    assert_eq!(state.new_agent_form.path_suggestions[0], "/");
    assert!(state.new_agent_form.path_suggestions.len() <= 2);
}

#[test]
fn listing_becomes_the_completions() {
    let mut state = form_on(NewAgentFormField::Program);
    type_text(&mut state, "/usr/b");
    state.handle_input_event(Key::Tab);
    state.new_agent_form.selected_suggestion = 2;
    let listing = vec![
        DirectoryEntry { name: "bin".to_string(), path: "/usr/bin".to_string(), is_dir: true },
        DirectoryEntry { name: "lib".to_string(), path: "/usr/lib".to_string(), is_dir: true },
        DirectoryEntry { name: "b.txt".to_string(), path: "/usr/b.txt".to_string(), is_dir: false },
    ];
    state.update_path_suggestions(&listing);
    assert_eq!(state.new_agent_form.path_suggestions, vec!["/usr/bin/", "/usr/b.txt"]);
    assert_eq!(state.new_agent_form.selected_suggestion, 0);
    assert!(state.new_agent_form.show_suggestions);
}

#[test]
fn listing_is_ignored_outside_path_fields() {
    let mut state = form_on(NewAgentFormField::Domain);
    state.new_agent_form.selected_suggestion = 3;
    let listing =
        vec![DirectoryEntry { name: "a".to_string(), path: "/a".to_string(), is_dir: false }];
    state.update_path_suggestions(&listing);
    assert!(state.new_agent_form.path_suggestions.is_empty());
    assert_eq!(state.new_agent_form.selected_suggestion, 3);
}

#[test]
fn down_moves_through_completions_and_wraps() {
    let mut state = with_suggestions(NewAgentFormField::Program);
    for expected in [1, 2, 0] {
        assert_eq!(state.handle_input_event(Key::Down), (true, Effect::Nothing));
        assert_eq!(state.new_agent_form.selected_suggestion, expected);
    }
}

#[test]
fn up_moves_through_completions_and_wraps() {
    let mut state = with_suggestions(NewAgentFormField::StdoutPath);
    for expected in [2, 1, 0, 2] {
        assert_eq!(state.handle_input_event(Key::Up), (true, Effect::Nothing));
        assert_eq!(state.new_agent_form.selected_suggestion, expected);
    }
}

#[test]
fn arrows_on_an_empty_list_are_taken_and_change_nothing() {
    let mut state = form_on(NewAgentFormField::Program);
    state.new_agent_form.show_suggestions = true;
    assert_eq!(state.handle_input_event(Key::Up), (true, Effect::Nothing));
    assert_eq!(state.handle_input_event(Key::Down), (true, Effect::Nothing));
    assert_eq!(state.new_agent_form.selected_suggestion, 0);
}

#[test]
fn enter_and_tab_accept_the_selected_completion() {
    for key in [Key::Enter, Key::Tab] {
        for field in [
            NewAgentFormField::Program,
            NewAgentFormField::StdoutPath,
            NewAgentFormField::StderrPath,
        ] {
            let mut state = with_suggestions(field);
            state.new_agent_form.selected_suggestion = 1;
            assert_eq!(state.handle_input_event(key), (true, Effect::Nothing));
            assert!(!state.new_agent_form.show_suggestions);
            let form = &state.new_agent_form;
            let text = match field {
                NewAgentFormField::Program => form.program_input.value(),
                NewAgentFormField::StdoutPath => form.stdout_path_input.value(),
                _ => form.stderr_path_input.value(),
            };
            assert_eq!(text, "/boot/");
        }
    }
}

#[test]
fn typing_goes_on_behind_an_accepted_completion() {
    let mut state = with_suggestions(NewAgentFormField::Program);
    state.handle_input_event(Key::Enter);
    type_text(&mut state, "ls");
    assert_eq!(state.new_agent_form.program_input.value(), "/bin/ls");
}

#[test]
fn backspace_shortens_the_default_interval() {
    let mut state = form_on(NewAgentFormField::Interval);
    assert_eq!(state.handle_input_event(Key::Backspace), (true, Effect::Nothing));
    assert_eq!(state.new_agent_form.interval_input.value(), "360");
    assert_eq!(state.new_agent_form.interval, 360);
}

#[test]
fn escape_hides_completions_and_keeps_the_text() {
    let mut state = with_suggestions(NewAgentFormField::Program);
    type_text(&mut state, "/b");
    assert_eq!(state.handle_input_event(Key::Esc), (true, Effect::Nothing));
    assert!(!state.new_agent_form.show_suggestions);
    assert_eq!(state.new_agent_form.program_input.value(), "/b");
    assert_eq!(state.handle_input_event(Key::Esc), (false, Effect::Nothing));
}

#[test]
fn enter_on_shown_but_empty_completions_is_not_taken() {
    let mut state = form_on(NewAgentFormField::Program);
    state.new_agent_form.show_suggestions = true;
    assert_eq!(state.handle_input_event(Key::Enter), (false, Effect::Nothing));
    assert!(state.new_agent_form.show_suggestions);
}

#[test]
fn arguments_are_typed_in_edit_mode() {
    let mut state = form_on(NewAgentFormField::Arguments);
    assert_eq!(state.handle_input_event(Key::Char('a')), (false, Effect::Nothing));
    assert_eq!(state.handle_input_event(Key::Char(' ')), (false, Effect::Nothing));
    assert!(state.new_agent_form.argument_input.is_empty());
    assert_eq!(state.handle_input_event(Key::Enter), (true, Effect::Nothing));
    assert!(state.edit_mode);
    type_text(&mut state, "-n");
    assert_eq!(state.new_agent_form.argument_input.value(), "-n");
    assert_eq!(state.handle_input_event(Key::Char(' ')), (true, Effect::Nothing));
    assert_eq!(state.new_agent_form.arguments, vec!["-n"]);
    assert!(state.new_agent_form.argument_input.is_empty());
    assert_eq!(state.handle_input_event(Key::Char(' ')), (true, Effect::Nothing));
    assert_eq!(state.new_agent_form.arguments, vec!["-n"]);
    type_text(&mut state, "hello");
    state.handle_input_event(Key::Char(' '));
    assert_eq!(state.new_agent_form.arguments, vec!["-n", "hello"]);
    type_text(&mut state, "rest");
    assert_eq!(state.handle_input_event(Key::Enter), (true, Effect::Nothing));
    assert!(!state.edit_mode);
    assert_eq!(state.new_agent_form.arguments, vec!["-n", "hello"]);
    assert_eq!(state.new_agent_form.argument_input.value(), "rest");
}

#[test]
fn interval_takes_digits_and_follows_its_text() {
    let mut state = form_on(NewAgentFormField::Interval);
    assert_eq!(state.handle_input_event(Key::Char('5')), (true, Effect::Nothing));
    assert_eq!(state.new_agent_form.interval_input.value(), "36005");
    assert_eq!(state.new_agent_form.interval, 36005);
    assert_eq!(state.handle_input_event(Key::End), (false, Effect::Nothing));
    assert_eq!(state.handle_input_event(Key::Char('x')), (false, Effect::Nothing));
    assert_eq!(state.handle_input_event(Key::Char(' ')), (false, Effect::Nothing));
    assert_eq!(state.handle_input_event(Key::Delete), (false, Effect::Nothing));
    assert_eq!(state.new_agent_form.interval_input.value(), "36005");
    assert_eq!(state.new_agent_form.interval, 36005);
}

#[test]
fn interval_is_zero_once_emptied() {
    let mut state = form_on(NewAgentFormField::Interval);
    state.new_agent_form.interval_input = TextInput::new();
    state.new_agent_form.interval = 0;
    type_text(&mut state, "12");
    assert_eq!(state.new_agent_form.interval, 12);
    assert_eq!(state.handle_input_event(Key::Backspace), (true, Effect::Nothing));
    assert_eq!(state.new_agent_form.interval, 1);
    assert_eq!(state.handle_input_event(Key::Backspace), (true, Effect::Nothing));
    assert_eq!(state.new_agent_form.interval_input.value(), "");
    assert_eq!(state.new_agent_form.interval, 0);
    assert_eq!(state.handle_input_event(Key::Backspace), (true, Effect::Nothing));
    assert_eq!(state.new_agent_form.interval, 0);
}

#[test]
fn interval_text_always_reads_as_the_number() {
    let mut state = form_on(NewAgentFormField::Interval);
    let keys = "98765432109876543210";
    for (i, c) in keys.chars().enumerate() {
        state.handle_input_event(Key::Char(c));
        if i % 3 == 2 {
            state.handle_input_event(Key::Backspace);
        }
        let form = &state.new_agent_form;
        let text = form.interval_input.value();
        assert!(
            (text.is_empty() && form.interval == 0) || text.parse::<u32>() == Ok(form.interval),
            "{:?} beside {}",
            text,
            form.interval
        );
        assert!(state.is_well_formed());
    }
    for _ in 0..12 {
        state.handle_input_event(Key::Backspace);
        let form = &state.new_agent_form;
        let text = form.interval_input.value();
        assert!((text.is_empty() && form.interval == 0) || text.parse::<u32>() == Ok(form.interval));
    }
    assert_eq!(state.new_agent_form.interval, 0);
    assert_eq!(state.new_agent_form.interval_input.value(), "");
}

#[test]
fn interval_keeps_its_number_where_the_text_no_longer_fits() {
    let mut state = form_on(NewAgentFormField::Interval);
    state.new_agent_form.interval_input = TextInput::new();
    state.new_agent_form.interval = 0;
    type_text(&mut state, "4294967295");
    assert_eq!(state.new_agent_form.interval, 4294967295);
    assert_eq!(state.handle_input_event(Key::Char('9')), (true, Effect::Nothing));
    assert_eq!(state.new_agent_form.interval_input.value(), "4294967295");
    assert_eq!(state.new_agent_form.interval_input.cursor(), 10);
    assert_eq!(state.new_agent_form.interval, 4294967295);
    state.handle_input_event(Key::Backspace);
    state.handle_input_event(Key::Backspace);
    assert_eq!(state.new_agent_form.interval_input.value(), "42949672");
    assert_eq!(state.new_agent_form.interval, 42949672);
}

#[test]
fn switches_are_turned_by_enter_and_space() {
    let mut state = form_on(NewAgentFormField::KeepAlive);
    assert!(state.new_agent_form.keep_alive);
    assert_eq!(state.handle_input_event(Key::Enter), (true, Effect::Nothing));
    assert!(!state.new_agent_form.keep_alive);
    assert_eq!(state.handle_input_event(Key::Char(' ')), (true, Effect::Nothing));
    assert!(state.new_agent_form.keep_alive);
    assert_eq!(state.handle_input_event(Key::Char('x')), (false, Effect::Nothing));
    assert!(state.new_agent_form.keep_alive);

    let mut state = form_on(NewAgentFormField::UseInterval);
    assert_eq!(state.handle_input_event(Key::Char(' ')), (true, Effect::Nothing));
    assert!(state.new_agent_form.use_interval);
    assert_eq!(state.handle_input_event(Key::Enter), (true, Effect::Nothing));
    assert!(!state.new_agent_form.use_interval);
    assert_eq!(state.handle_input_event(Key::Tab), (false, Effect::Nothing));
}

#[test]
fn buttons_take_enter_only() {
    for field in [NewAgentFormField::CreateButton, NewAgentFormField::CancelButton] {
        let mut state = form_on(field);
        state.new_agent_form.input_mode = false;
        assert_eq!(state.handle_input_event(Key::Enter), (true, Effect::Nothing));
        assert!(!state.new_agent_form.input_mode);
        assert_eq!(state.handle_input_event(Key::Char('a')), (false, Effect::Nothing));
        state.new_agent_form.input_mode = true;
        assert_eq!(state.handle_input_event(Key::Enter), (false, Effect::Nothing));
    }
}

#[test]
fn enter_makes_a_field_take_keys_again() {
    let mut state = form_on(NewAgentFormField::Domain);
    state.new_agent_form.input_mode = false;
    assert_eq!(state.handle_input_event(Key::Char('a')), (false, Effect::Nothing));
    assert!(state.new_agent_form.domain_input.is_empty());
    assert_eq!(state.handle_input_event(Key::Enter), (true, Effect::Nothing));
    assert!(state.new_agent_form.input_mode);
    assert_eq!(state.handle_input_event(Key::Char('a')), (true, Effect::Nothing));
    assert_eq!(state.new_agent_form.domain_input.value(), "a");
}

#[test]
fn commit_argument_takes_in_a_pending_argument() {
    let mut form = NewAgentForm::new();
    form.commit_argument();
    assert!(form.arguments.is_empty());
    form.argument_input = TextInput::from_text("one");
    form.commit_argument();
    form.argument_input = TextInput::from_text("two");
    form.commit_argument();
    assert_eq!(form.arguments, vec!["one", "two"]);
    assert!(form.argument_input.is_empty());
}

#[test]
fn path_text_reads_the_path_fields() {
    let mut form = NewAgentForm::new();
    form.program_input = TextInput::from_text("/bin/echo");
    form.stderr_path_input = TextInput::from_text("/tmp/err");
    assert_eq!(form.path_text(NewAgentFormField::Program), "/bin/echo");
    assert_eq!(form.path_text(NewAgentFormField::StdoutPath), "/dev/null");
    assert_eq!(form.path_text(NewAgentFormField::StderrPath), "/tmp/err");
    assert_eq!(form.path_text(NewAgentFormField::Domain), "");
}

#[test]
fn reread_interval_follows_the_text() {
    let mut form = NewAgentForm::new();
    form.interval_input = TextInput::from_text("75");
    form.reread_interval(false);
    assert_eq!(form.interval, 75);
    assert_eq!(form.interval_input.value(), "75");
    form.interval_input = TextInput::from_text("");
    form.reread_interval(true);
    assert_eq!(form.interval, 0);
    assert_eq!(form.interval_input.value(), "");
}

#[test]
fn reread_interval_sets_back_a_text_that_is_no_number() {
    let mut form = NewAgentForm::new();
    form.interval_input = TextInput::from_text("75");
    form.reread_interval(false);
    form.interval_input = TextInput::from_text("");
    form.reread_interval(false);
    assert_eq!((form.interval, form.interval_input.value().as_str()), (75, "75"));
    form.interval_input = TextInput::from_text("12x");
    form.reread_interval(true);
    assert_eq!((form.interval, form.interval_input.value().as_str()), (75, "75"));
    form.interval_input = TextInput::from_text("4294967296");
    form.reread_interval(false);
    assert_eq!((form.interval, form.interval_input.value().as_str()), (75, "75"));
    assert_eq!(form.interval_input.cursor(), 2);
    assert!(form.is_well_formed());
}
