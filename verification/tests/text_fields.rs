use launchit::key::Key;
use launchit::number::parse_u32;
use launchit::text_input::TextInput;

fn type_text(input: &mut TextInput, text: &str) {
    for c in text.chars() {
        input.handle_key(Key::Char(c));
    }
}

#[test]
fn fresh_field_is_empty() {
    let input = TextInput::new();
    assert!(input.is_empty());
    assert_eq!(input.value(), "");
    assert_eq!(input.cursor(), 0);
}

#[test]
fn field_made_from_text_holds_it() {
    let input = TextInput::from_text("/dev/null");
    assert!(!input.is_empty());
    assert_eq!(input.value(), "/dev/null");
    assert_eq!(input.cursor(), 9);
}

#[test]
fn typing_goes_on_behind_the_given_text() {
    let mut input = TextInput::from_text("/dev/null");
    assert!(input.handle_key(Key::Char('2')));
    assert_eq!(input.value(), "/dev/null2");
    assert!(input.handle_key(Key::Backspace));
    assert!(input.handle_key(Key::Backspace));
    assert_eq!(input.value(), "/dev/nul");
}

#[test]
fn typed_characters_reach_the_buffer() {
    let mut input = TextInput::new();
    assert!(input.handle_key(Key::Char('a')));
    assert!(input.handle_key(Key::Char('b')));
    assert_eq!(input.value(), "ab");
    assert!(!input.is_empty());
}

#[test]
fn backspace_deletes_before_the_cursor() {
    let mut input = TextInput::new();
    type_text(&mut input, "abc");
    assert!(input.handle_key(Key::Backspace));
    assert_eq!(input.value(), "ab");
}

#[test]
fn backspace_on_empty_field_changes_nothing() {
    let mut input = TextInput::new();
    assert!(!input.handle_key(Key::Backspace));
    assert_eq!(input.value(), "");
}

#[test]
fn cursor_motion_leaves_the_text() {
    let mut input = TextInput::new();
    type_text(&mut input, "abc");
    assert_eq!(input.cursor(), 3);
    assert!(input.handle_key(Key::Left));
    assert_eq!(input.cursor(), 2);
    assert!(input.handle_key(Key::Home));
    assert_eq!(input.cursor(), 0);
    assert_eq!(input.value(), "abc");
    assert!(input.handle_key(Key::Right));
    assert_eq!(input.cursor(), 1);
    assert!(input.handle_key(Key::End));
    assert_eq!(input.cursor(), 3);
    assert_eq!(input.value(), "abc");
}

#[test]
fn cursor_stops_at_the_ends_of_the_text() {
    let mut input = TextInput::from_text("ab");
    assert!(!input.handle_key(Key::Right));
    assert!(!input.handle_key(Key::End));
    assert!(!input.handle_key(Key::Delete));
    assert_eq!(input.cursor(), 2);
    assert!(input.handle_key(Key::Home));
    assert!(!input.handle_key(Key::Home));
    assert!(!input.handle_key(Key::Left));
    assert!(!input.handle_key(Key::Backspace));
    assert_eq!(input.cursor(), 0);
    assert_eq!(input.value(), "ab");
}

#[test]
fn edits_take_place_at_the_cursor() {
    let mut input = TextInput::from_text("abc");
    input.handle_key(Key::Home);
    assert!(input.handle_key(Key::Char('x')));
    assert_eq!((input.value().as_str(), input.cursor()), ("xabc", 1));
    input.handle_key(Key::End);
    assert!(input.handle_key(Key::Char('y')));
    assert_eq!((input.value().as_str(), input.cursor()), ("xabcy", 5));
    input.handle_key(Key::Home);
    assert!(input.handle_key(Key::Delete));
    assert_eq!((input.value().as_str(), input.cursor()), ("abcy", 0));
    input.handle_key(Key::Right);
    input.handle_key(Key::Right);
    assert!(input.handle_key(Key::Backspace));
    assert_eq!((input.value().as_str(), input.cursor()), ("acy", 1));
    assert!(input.handle_key(Key::Delete));
    assert_eq!((input.value().as_str(), input.cursor()), ("ay", 1));
    assert!(input.handle_key(Key::Char('é')));
    assert!(input.handle_key(Key::Char('ü')));
    assert_eq!((input.value().as_str(), input.cursor()), ("aéüy", 3));
    assert!(input.handle_key(Key::Backspace));
    assert_eq!((input.value().as_str(), input.cursor()), ("aéy", 2));
}

#[test]
fn fields_are_well_formed() {
    assert!(TextInput::new().is_well_formed());
    assert!(TextInput::from_text("abc").is_well_formed());
    let mut input = TextInput::from_text("abc");
    for key in [Key::Left, Key::Char('x'), Key::Delete, Key::Home, Key::Backspace, Key::End] {
        input.handle_key(key);
        assert!(input.is_well_formed());
    }
}

#[test]
fn keys_that_edit_no_line_are_ignored() {
    let mut input = TextInput::from_text("abc");
    for key in [Key::Enter, Key::Tab, Key::BackTab, Key::Esc, Key::Up, Key::Down, Key::Other] {
        assert!(!input.handle_key(key));
        assert_eq!(input.value(), "abc");
    }
    assert!(!input.handle_key(Key::Char('\n')));
    assert!(!input.handle_key(Key::Char('\r')));
    assert_eq!(input.value(), "abc");
}

#[test]
fn copy_of_a_field_holds_the_same_text() {
    let mut input = TextInput::new();
    type_text(&mut input, "label");
    input.handle_key(Key::Left);
    let copy = input.clone();
    assert_eq!(copy.cursor(), 4);
    input.handle_key(Key::End);
    input.handle_key(Key::Char('!'));
    assert_eq!(copy.value(), "label");
    assert_eq!(input.value(), "label!");
}

#[test]
fn edits_line_tells_editing_keys() {
    assert!(Key::Char('a').edits_line());
    assert!(Key::Char(' ').edits_line());
    assert!(Key::Backspace.edits_line());
    assert!(Key::Delete.edits_line());
    assert!(Key::Left.edits_line());
    assert!(Key::Right.edits_line());
    assert!(Key::Home.edits_line());
    assert!(Key::End.edits_line());
    assert!(!Key::Char('\n').edits_line());
    assert!(!Key::Enter.edits_line());
    assert!(!Key::Tab.edits_line());
    assert!(!Key::Other.edits_line());
}

#[test]
fn parse_reads_decimal_numbers() {
    assert_eq!(parse_u32("0"), Some(0));
    assert_eq!(parse_u32("3600"), Some(3600));
    assert_eq!(parse_u32("007"), Some(7));
    assert_eq!(parse_u32("+15"), Some(15));
    assert_eq!(parse_u32("4294967295"), Some(4294967295));
}

#[test]
fn parse_refuses_what_is_no_number() {
    assert_eq!(parse_u32(""), None);
    assert_eq!(parse_u32("+"), None);
    assert_eq!(parse_u32("-1"), None);
    assert_eq!(parse_u32("12a"), None);
    assert_eq!(parse_u32(" 12"), None);
    assert_eq!(parse_u32("1 2"), None);
    assert_eq!(parse_u32("4294967296"), None);
    assert_eq!(parse_u32("99999999999999999999"), None);
}

#[test]
fn parse_agrees_with_the_standard_library() {
    for text in ["", "+", "0", "+0", "42", "4294967295", "4294967296", "x", "1x", "++1", "٣"] {
        assert_eq!(parse_u32(text), text.parse::<u32>().ok(), "{:?}", text);
    }
}
