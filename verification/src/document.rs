//! The property list document in which a definition is stored.

use vstd::prelude::*;
use vstd::string::StringExecFns;
use crate::launchctl::{agent_definition, definition_of, PlistDict, PlistDictView};
use crate::number::{decimal_digits, decimal_text};

verus! {

broadcast use vstd::seq_lib::group_seq_properties;

/// What opens every document, up to the opening of its dictionary.
pub open spec fn document_opening() -> Seq<char> {
    "<?xml version=\"1.0\" encoding=\"UTF-8\"?>\n"@
        + "<!DOCTYPE plist PUBLIC \"-//Apple//DTD PLIST 1.0//EN\" \"http://www.apple.com/DTDs/PropertyList-1.0.dtd\">\n"@
        + "<plist version=\"1.0\">\n<dict>\n"@
}

/// What closes every document.
pub open spec fn document_closing() -> Seq<char> {
    "</dict>\n</plist>"@
}

/// What is written for a character of a value: the character itself, or
/// the entity that stands for it where it would be read as markup.
pub open spec fn escaped_char(c: char) -> Seq<char> {
    if c == '&' {
        "&amp;"@
    } else if c == '<' {
        "&lt;"@
    } else if c == '>' {
        "&gt;"@
    } else {
        seq![c]
    }
}

/// What is written for a value: each of its characters in its turn.
pub open spec fn escaped(text: Seq<char>) -> Seq<char>
    decreases text.len(),
{
    if text.len() == 0 {
        Seq::empty()
    } else {
        escaped(text.drop_last()) + escaped_char(text.last())
    }
}

/// An entry of the dictionary whose value is a text.
pub open spec fn text_entry(key: Seq<char>, value: Seq<char>) -> Seq<char> {
    "\t<key>"@ + key + "</key>\n\t<string>"@ + escaped(value) + "</string>\n"@
}

/// One item of the array of program arguments.
pub open spec fn array_item(value: Seq<char>) -> Seq<char> {
    "\t\t<string>"@ + escaped(value) + "</string>\n"@
}

/// The items of the array of program arguments.
pub open spec fn array_items(values: Seq<Seq<char>>) -> Seq<char>
    decreases values.len(),
{
    if values.len() == 0 {
        Seq::empty()
    } else {
        array_items(values.drop_last()) + array_item(values.last())
    }
}

/// The entry that keeps an agent alive, as it stands among the entries.
pub open spec fn keep_alive_entry() -> Seq<char> {
    "\t<key>KeepAlive</key>\n\t<true/>\n"@
}

/// The entry of the start interval, as it stands among the entries.
pub open spec fn interval_entry(interval: u32) -> Seq<char> {
    "\t<key>StartInterval</key>\n\t<integer>"@ + decimal_digits(interval as nat)
        + "</integer>\n"@
}

/// The entry of an output path, where there is one.
pub open spec fn path_entry(key: Seq<char>, path: Option<Seq<char>>) -> Seq<char> {
    match path {
        Some(path) => text_entry(key, path),
        None => Seq::empty(),
    }
}

/// The entries of a definition's document, in their order: the label, the
/// program arguments, the mark to run at load, the two output paths, and
/// where they are set the mark to keep alive and the start interval.
pub open spec fn document_entries(definition: PlistDictView) -> Seq<char> {
    text_entry("Label"@, definition.label) + "\t<key>ProgramArguments</key>\n\t<array>\n"@
        + array_items(definition.program_arguments) + "\t</array>\n"@
        + "\t<key>RunAtLoad</key>\n\t<true/>\n"@ + path_entry(
        "StandardOutPath"@,
        definition.stdout_path,
    ) + path_entry("StandardErrorPath"@, definition.stderr_path) + (if definition.keep_alive
        == Some(true) {
        keep_alive_entry()
    } else {
        Seq::empty()
    }) + (match definition.start_interval {
        Some(interval) => interval_entry(interval),
        None => Seq::empty(),
    })
}

/// The document of a definition: the opening, the entries, the closing.
/// Each entry stands in it once.
pub open spec fn document_of(definition: PlistDictView) -> Seq<char> {
    document_opening() + document_entries(definition) + document_closing()
}

/// Writes a value: each of its characters, or the entity that stands for it
/// where it would be read as markup.
pub fn escape_text(text: &str) -> (written: String)
    ensures
        written@ == escaped(text@),
{
    let len = text.unicode_len();
    let mut written = String::new();
    let mut copied: usize = 0;
    let mut i: usize = 0;
    assert(text@.take(0) =~= Seq::<char>::empty());
    assert(written@ + text@.subrange(0, 0) =~= escaped(text@.take(0)));
    for c in it: text.chars()
        invariant
            it.seq() == text@,
            i == it.index(),
            len == text@.len(),
            copied <= i,
            written@ + text@.subrange(copied as int, i as int) == escaped(text@.take(i as int)),
    {
        let ghost before = written@;
        let ghost run = text@.subrange(copied as int, i as int);
        assert(text@.take(i + 1).drop_last() =~= text@.take(i as int));
        assert(text@.take(i + 1).last() == c);
        if c == '&' || c == '<' || c == '>' {
            written.append(text.substring_char(copied, i));
            if c == '&' {
                written.append("&amp;");
            } else if c == '<' {
                written.append("&lt;");
            } else {
                written.append("&gt;");
            }
            copied = i + 1;
            assert(written@ + text@.subrange(copied as int, i + 1) =~= before + run
                + escaped_char(c));
        } else {
            assert(before + text@.subrange(copied as int, i + 1) =~= before + run + seq![c]);
        }
        i = i + 1;
    }
    assert(text@.take(len as int) =~= text@);
    written.append(text.substring_char(copied, len));
    written
}

/// Writes an entry of the dictionary whose value is a text.
fn write_text_entry(key: &str, value: &str) -> (entry: String)
    ensures
        entry@ == text_entry(key@, value@),
{
    let mut entry = String::from_str("\t<key>");
    entry.append(key);
    entry.append("</key>\n\t<string>");
    entry.append(escape_text(value).as_str());
    entry.append("</string>\n");
    entry
}

/// Writes the entry of an output path, where there is one.
fn write_path_entry(key: &str, path: &Option<String>) -> (entry: String)
    ensures
        entry@ == path_entry(key@, path.deep_view()),
{
    match path {
        Some(path) => write_text_entry(key, path.as_str()),
        None => String::new(),
    }
}

/// Writes the items of the array of program arguments.
fn write_array_items(values: &Vec<String>) -> (items: String)
    ensures
        items@ == array_items(values.deep_view()),
{
    let ghost all = values.deep_view();
    let mut items = String::new();
    let mut i: usize = 0;
    while i < values.len()
        invariant
            i <= values.len(),
            all == values.deep_view(),
            items@ == array_items(all.take(i as int)),
        decreases values.len() - i,
    {
        let ghost longer = all.take(i + 1);
        assert(longer.drop_last() =~= all.take(i as int));
        items.append("\t\t<string>");
        items.append(escape_text(values[i].as_str()).as_str());
        items.append("</string>\n");
        i = i + 1;
    }
    items
}

/// Writes the entries of a definition's document.
fn write_entries(definition: &PlistDict) -> (entries: String)
    ensures
        entries@ == document_entries(definition@),
{
    let mut entries = write_text_entry("Label", definition.label.as_str());
    entries.append("\t<key>ProgramArguments</key>\n\t<array>\n");
    let items = write_array_items(&definition.program_arguments);
    entries.append(items.as_str());
    entries.append("\t</array>\n");
    entries.append("\t<key>RunAtLoad</key>\n\t<true/>\n");
    let stdout_entry = write_path_entry("StandardOutPath", &definition.stdout_path);
    entries.append(stdout_entry.as_str());
    let stderr_entry = write_path_entry("StandardErrorPath", &definition.stderr_path);
    entries.append(stderr_entry.as_str());
    let keep_alive = match definition.keep_alive {
        Some(keep_alive) => keep_alive,
        None => false,
    };
    if keep_alive {
        entries.append("\t<key>KeepAlive</key>\n\t<true/>\n");
    }
    match definition.start_interval {
        Some(interval) => {
            let number = decimal_text(interval);
            let mut entry = String::from_str("\t<key>StartInterval</key>\n\t<integer>");
            entry.append(number.as_str());
            entry.append("</integer>\n");
            entries.append(entry.as_str());
        },
        None => {},
    }
    entries
}

/// Writes the document of a definition: its entries between a fixed opening
/// and closing, each entry once. The agent always runs at load.
pub fn plist_document(definition: &PlistDict) -> (document: String)
    ensures
        document@ == document_of(definition@),
{
    let mut document = String::from_str("<?xml version=\"1.0\" encoding=\"UTF-8\"?>\n");
    document.append(
        "<!DOCTYPE plist PUBLIC \"-//Apple//DTD PLIST 1.0//EN\" \"http://www.apple.com/DTDs/PropertyList-1.0.dtd\">\n",
    );
    document.append("<plist version=\"1.0\">\n<dict>\n");
    let entries = write_entries(definition);
    document.append(entries.as_str());
    document.append("</dict>\n</plist>");
    document
}

/// Writes the document of a new agent from the form's values.
pub fn create_launch_agent(
    domain: &str,
    program: &str,
    arguments: &Vec<String>,
    keep_alive: bool,
    stdout_path: &str,
    stderr_path: &str,
    use_interval: bool,
    interval: u32,
) -> (document: String)
    ensures
        document@ == document_of(
            definition_of(
                domain@,
                program@,
                arguments.deep_view(),
                keep_alive,
                stdout_path@,
                stderr_path@,
                use_interval,
                interval,
            ),
        ),
{
    let definition = agent_definition(
        domain,
        program,
        arguments,
        keep_alive,
        stdout_path,
        stderr_path,
        use_interval,
        interval,
    );
    plist_document(&definition)
}

} // verus!
