//! Path completion for the form's path fields: which directory a typed path
//! asks to list, and which of that directory's entries are offered.

use vstd::prelude::*;
use vstd::string::StringExecFns;

verus! {

broadcast use vstd::seq_lib::group_seq_properties;

/// `glob::Pattern`, a compiled glob pattern. Nothing is known of what is
/// inside one but the text it was compiled from.
#[verifier::external_type_specification]
#[verifier::external_body]
pub struct ExPattern(glob::Pattern);

/// Whether `pattern` is well-formed glob syntax.
pub uninterp spec fn glob_pattern_valid(pattern: Seq<char>) -> bool;

/// The text that a compiled glob pattern was compiled from.
pub uninterp spec fn glob_pattern_source(pattern: glob::Pattern) -> Seq<char>;

/// Whether `name` matches the well-formed glob `pattern` under the default
/// match options.
pub uninterp spec fn glob_matches(pattern: Seq<char>, name: Seq<char>) -> bool;

/// A character that a glob pattern reads as itself, on every platform: no
/// wildcard, no opening bracket, no path separator.
pub open spec fn is_literal(c: char) -> bool {
    c != '*' && c != '?' && c != '[' && c != '/' && c != '\\'
}

/// A text that a glob pattern reads letter by letter.
pub open spec fn is_plain(text: Seq<char>) -> bool {
    forall|i: int| 0 <= i < text.len() ==> is_literal(#[trigger] text[i])
}

/// A pattern made of a plain text and one wildcard behind it.
pub open spec fn is_prefix_pattern(pattern: Seq<char>) -> bool {
    pattern.len() > 0 && pattern.last() == '*' && is_plain(pattern.drop_last())
}

/// `glob::Pattern::new`: compiles exactly the well-formed patterns, and keeps
/// the text it was given. A plain text with a wildcard behind it is
/// well-formed.
#[verifier::external_body]
fn compile_pattern(pattern: &str) -> (compiled: Option<glob::Pattern>)
    ensures
        compiled.is_some() == glob_pattern_valid(pattern@),
        compiled matches Some(p) ==> glob_pattern_source(p) == pattern@,
        is_prefix_pattern(pattern@) ==> compiled.is_some(),
{
    glob::Pattern::new(pattern).ok()
}

/// `glob::Pattern::matches`: the match of `name` against the pattern, which
/// depends on the two texts alone. A plain text with a wildcard behind it
/// matches exactly the names that begin with that text.
#[verifier::external_body]
fn pattern_matches(pattern: &glob::Pattern, name: &str) -> (matched: bool)
    ensures
        matched == glob_matches(glob_pattern_source(*pattern), name@),
        is_prefix_pattern(glob_pattern_source(*pattern)) ==> matched == glob_pattern_source(
            *pattern,
        ).drop_last().is_prefix_of(name@),
{
    pattern.matches(name)
}

/// `dirs::home_dir`: the user's home directory, where there is one and its
/// path is valid Unicode. It depends on the environment, so nothing is known
/// of it.
#[verifier::external_body]
fn home_directory() -> (home: Option<String>) {
    dirs::home_dir().and_then(|path| path.to_str().map(|text| text.to_string()))
}

/// One entry of a listed directory.
#[derive(Debug, Clone, PartialEq, Eq)]
pub struct DirectoryEntry {
    /// The entry's file name.
    pub name: String,
    /// The entry's path: the listed directory joined with the name.
    pub path: String,
    /// Whether the path leads to a directory.
    pub is_dir: bool,
}

/// An entry of a listed directory as plain values.
pub struct DirectoryEntryView {
    pub name: Seq<char>,
    pub path: Seq<char>,
    pub is_dir: bool,
}

impl View for DirectoryEntry {
    type V = DirectoryEntryView;

    open spec fn view(&self) -> DirectoryEntryView {
        DirectoryEntryView { name: self.name@, path: self.path@, is_dir: self.is_dir }
    }
}

impl DeepView for DirectoryEntry {
    type V = DirectoryEntryView;

    open spec fn deep_view(&self) -> DirectoryEntryView {
        self@
    }
}

/// The typed path asks for the two fixed starting points: it is empty or the
/// root itself.
pub open spec fn is_root_query(text: Seq<char>) -> bool {
    text.len() == 0 || text == seq!['/']
}

/// The index of the last separator in `text`, or -1 where it has none.
pub open spec fn last_separator(text: Seq<char>) -> int
    decreases text.len(),
{
    if text.len() == 0 {
        -1
    } else if text.last() == '/' {
        text.len() - 1
    } else {
        last_separator(text.drop_last())
    }
}

/// The directory that the typed path asks to list; none for a root query.
/// A path that ends in a separator names the directory itself. Otherwise the
/// directory is what stands before the last separator: the root where that
/// separator opens the path, and the empty path where there is none.
pub open spec fn directory_of(text: Seq<char>) -> Option<Seq<char>> {
    let k = last_separator(text);
    if is_root_query(text) {
        None
    } else if k == text.len() - 1 {
        Some(text)
    } else if k == 0 {
        Some(seq!['/'])
    } else if k < 0 {
        Some(Seq::empty())
    } else {
        Some(text.subrange(0, k))
    }
}

/// The part of the typed path after its last separator: the beginning of
/// the name that is looked for.
pub open spec fn partial_name(text: Seq<char>) -> Seq<char> {
    text.subrange(last_separator(text) + 1, text.len() as int)
}

/// The glob pattern for the typed path: the partial name and a wildcard.
pub open spec fn pattern_of(text: Seq<char>) -> Seq<char> {
    partial_name(text).push('*')
}

/// What is offered for an entry: its path, with a separator behind a
/// directory.
pub open spec fn display_path(entry: DirectoryEntryView) -> Seq<char> {
    if entry.is_dir {
        entry.path.push('/')
    } else {
        entry.path
    }
}

/// The offers for the entries that are marked, in the order of the listing;
/// none where the marks are not one for each entry.
pub open spec fn marked_paths(entries: Seq<DirectoryEntryView>, marks: Seq<bool>) -> Seq<
    Seq<char>,
>
    decreases entries.len(),
{
    if entries.len() == 0 || marks.len() != entries.len() {
        Seq::empty()
    } else {
        let before = marked_paths(entries.drop_last(), marks.drop_last());
        if marks.last() {
            before.push(display_path(entries.last()))
        } else {
            before
        }
    }
}

/// For each entry, whether its name matches `pattern`.
pub open spec fn glob_marks(pattern: Seq<char>, entries: Seq<DirectoryEntryView>) -> Seq<bool> {
    entries.map_values(|entry: DirectoryEntryView| glob_matches(pattern, entry.name))
}

/// The offers for the entries whose names match `pattern`, in the order of
/// the listing.
pub open spec fn matching_paths(pattern: Seq<char>, entries: Seq<DirectoryEntryView>) -> Seq<
    Seq<char>,
> {
    marked_paths(entries, glob_marks(pattern, entries))
}

/// For each entry, whether its name begins with `prefix`.
pub open spec fn prefix_marks(prefix: Seq<char>, entries: Seq<DirectoryEntryView>) -> Seq<bool> {
    entries.map_values(|entry: DirectoryEntryView| prefix.is_prefix_of(entry.name))
}

/// The offers for the entries whose names begin with `prefix`, in the order
/// of the listing.
pub open spec fn prefixed_paths(prefix: Seq<char>, entries: Seq<DirectoryEntryView>) -> Seq<
    Seq<char>,
> {
    marked_paths(entries, prefix_marks(prefix, entries))
}

/// The offers for a path that is no root query, given the listing of its
/// directory: none where the pattern is not well-formed.
pub open spec fn listed_suggestions(text: Seq<char>, entries: Seq<DirectoryEntryView>) -> Seq<
    Seq<char>,
> {
    if glob_pattern_valid(pattern_of(text)) {
        matching_paths(pattern_of(text), entries)
    } else {
        Seq::empty()
    }
}

/// The offers for a root query: the root, then the home directory where it
/// is known.
pub open spec fn root_paths(home: Option<Seq<char>>) -> Seq<Seq<char>> {
    match home {
        Some(path) => seq![seq!['/'], path],
        None => seq![seq!['/']],
    }
}

/// The separator found by `last_separator` is the last one.
pub proof fn lemma_last_separator(text: Seq<char>)
    ensures
        -1 <= last_separator(text) < text.len(),
        last_separator(text) >= 0 ==> text[last_separator(text)] == '/',
        forall|j: int| last_separator(text) < j < text.len() ==> #[trigger] text[j] != '/',
    decreases text.len(),
{
    if text.len() > 0 && text.last() != '/' {
        let shorter = text.drop_last();
        lemma_last_separator(shorter);
        assert forall|j: int| last_separator(text) < j < text.len() implies #[trigger] text[j]
            != '/' by {
            if j < shorter.len() {
                assert(shorter[j] == text[j]);
            }
        }
    }
}

/// Where `text[k]` is a separator and none follows it, `k` is the last
/// separator.
pub proof fn lemma_last_separator_unique(text: Seq<char>, k: int)
    requires
        -1 <= k < text.len(),
        k >= 0 ==> text[k] == '/',
        forall|j: int| k < j < text.len() ==> #[trigger] text[j] != '/',
    ensures
        last_separator(text) == k,
{
    lemma_last_separator(text);
}

/// A path that ends in a separator looks for every name: its pattern is a
/// lone wildcard.
pub proof fn lemma_directory_pattern(text: Seq<char>)
    requires
        text.len() > 0,
        text.last() == '/',
    ensures
        pattern_of(text) == seq!['*'],
{
}

/// The plain offers for a whole listing, nothing left out.
pub open spec fn all_paths(entries: Seq<DirectoryEntryView>) -> Seq<Seq<char>> {
    entries.map_values(|entry: DirectoryEntryView| display_path(entry))
}

/// Where every entry is marked, every entry is offered.
pub proof fn lemma_all_marked(entries: Seq<DirectoryEntryView>, marks: Seq<bool>)
    requires
        marks.len() == entries.len(),
        forall|i: int| 0 <= i < marks.len() ==> #[trigger] marks[i],
    ensures
        marked_paths(entries, marks) == all_paths(entries),
    decreases entries.len(),
{
    if entries.len() > 0 {
        lemma_all_marked(entries.drop_last(), marks.drop_last());
    }
}

/// Whether the typed path is a root query.
pub fn root_query(text: &str) -> (root: bool)
    ensures
        root == is_root_query(text@),
{
    let len = text.unicode_len();
    if len == 0 {
        true
    } else if len == 1 {
        let c = text.get_char(0);
        assert(text@ =~= seq![c]);
        c == '/'
    } else {
        false
    }
}

/// Finds the last separator of `text`: its index, or the length of `text`
/// where there is none.
fn find_last_separator(text: &str) -> (found: usize)
    ensures
        -1 <= last_separator(text@) < text@.len(),
        last_separator(text@) >= 0 ==> found == last_separator(text@),
        last_separator(text@) < 0 ==> found == text@.len(),
{
    proof {
        lemma_last_separator(text@);
    }
    let len = text.unicode_len();
    let mut i: usize = len;
    while i > 0
        invariant
            i <= len,
            len == text@.len(),
            forall|j: int| i <= j < len ==> #[trigger] text@[j] != '/',
        decreases i,
    {
        i = i - 1;
        if text.get_char(i) == '/' {
            proof {
                lemma_last_separator_unique(text@, i as int);
            }
            return i;
        }
    }
    proof {
        lemma_last_separator_unique(text@, -1);
    }
    len
}

/// The directory that the typed path asks to list.
pub fn search_directory(text: &str) -> (directory: Option<String>)
    ensures
        directory.deep_view() == directory_of(text@),
{
    if root_query(text) {
        return None;
    }
    let len = text.unicode_len();
    let k = find_last_separator(text);
    if k == len {
        Some(String::new())
    } else if k == len - 1 {
        Some(String::from_str(text))
    } else if k == 0 {
        proof {
            reveal_strlit("/");
        }
        Some(String::from_str("/"))
    } else {
        Some(String::from_str(text.substring_char(0, k)))
    }
}

/// The glob pattern for the typed path.
pub fn search_pattern(text: &str) -> (pattern: String)
    ensures
        pattern@ == pattern_of(text@),
{
    let len = text.unicode_len();
    let k = find_last_separator(text);
    let start: usize = if k == len {
        0
    } else {
        k + 1
    };
    let mut pattern = String::from_str(text.substring_char(start, len));
    proof {
        reveal_strlit("*");
    }
    pattern.append("*");
    pattern
}

/// What is offered for an entry.
pub fn entry_display_path(entry: &DirectoryEntry) -> (path: String)
    ensures
        path@ == display_path(entry@),
{
    let mut path = entry.path.clone();
    if entry.is_dir {
        proof {
            reveal_strlit("/");
        }
        path.append("/");
    }
    path
}

/// The offers for a root query.
pub fn root_suggestions(home: Option<String>) -> (suggestions: Vec<String>)
    ensures
        suggestions.deep_view() == root_paths(home.deep_view()),
{
    let mut suggestions: Vec<String> = Vec::new();
    proof {
        reveal_strlit("/");
    }
    assert("/"@ =~= seq!['/']);
    suggestions.push(String::from_str("/"));
    match home {
        Some(path) => {
            suggestions.push(path);
        },
        None => {},
    }
    suggestions
}

/// The offers for the entries that are marked, in the order of the listing.
pub fn marked_suggestions(entries: &Vec<DirectoryEntry>, marks: &Vec<bool>) -> (suggestions: Vec<
    String,
>)
    ensures
        suggestions.deep_view() == marked_paths(entries.deep_view(), marks@),
{
    let ghost listing = entries.deep_view();
    let mut suggestions: Vec<String> = Vec::new();
    if marks.len() != entries.len() {
        return suggestions;
    }
    let mut i: usize = 0;
    while i < entries.len()
        invariant
            i <= entries.len(),
            marks.len() == entries.len(),
            listing == entries.deep_view(),
            suggestions.deep_view() == marked_paths(listing.take(i as int), marks@.take(i as int)),
        decreases entries.len() - i,
    {
        assert(listing.take(i + 1).drop_last() =~= listing.take(i as int));
        assert(marks@.take(i + 1).drop_last() =~= marks@.take(i as int));
        if marks[i] {
            suggestions.push(entry_display_path(&entries[i]));
        }
        i = i + 1;
    }
    suggestions
}

/// Marks the listed entries whose names match a compiled pattern.
fn mark_matches(pattern: &glob::Pattern, entries: &Vec<DirectoryEntry>) -> (marks: Vec<bool>)
    ensures
        marks@ == glob_marks(glob_pattern_source(*pattern), entries.deep_view()),
        is_prefix_pattern(glob_pattern_source(*pattern)) ==> marks@ == prefix_marks(
            glob_pattern_source(*pattern).drop_last(),
            entries.deep_view(),
        ),
{
    let mut marks: Vec<bool> = Vec::new();
    let mut i: usize = 0;
    while i < entries.len()
        invariant
            i <= entries.len(),
            marks.len() == i,
            forall|j: int|
                0 <= j < i ==> #[trigger] marks[j] == glob_matches(
                    glob_pattern_source(*pattern),
                    entries@[j]@.name,
                ),
            is_prefix_pattern(glob_pattern_source(*pattern)) ==> forall|j: int|
                0 <= j < i ==> #[trigger] marks[j] == glob_pattern_source(
                    *pattern,
                ).drop_last().is_prefix_of(entries@[j]@.name),
        decreases entries.len() - i,
    {
        marks.push(pattern_matches(pattern, entries[i].name.as_str()));
        i = i + 1;
    }
    assert(marks@ =~= glob_marks(glob_pattern_source(*pattern), entries.deep_view()));
    proof {
        if is_prefix_pattern(glob_pattern_source(*pattern)) {
            assert(marks@ =~= prefix_marks(
                glob_pattern_source(*pattern).drop_last(),
                entries.deep_view(),
            ));
        }
    }
    marks
}

/// The offers for a typed path that is no root query, given the listing of
/// the directory that it asks for.
pub fn listed_path_suggestions(text: &str, entries: &Vec<DirectoryEntry>) -> (suggestions: Vec<
    String,
>)
    ensures
        suggestions.deep_view() == listed_suggestions(text@, entries.deep_view()),
        is_plain(partial_name(text@)) ==> suggestions.deep_view() == prefixed_paths(
            partial_name(text@),
            entries.deep_view(),
        ),
        text@.len() > 0 && text@.last() == '/' ==> suggestions.deep_view() == all_paths(
            entries.deep_view(),
        ),
{
    let pattern = search_pattern(text);
    assert(pattern@.drop_last() =~= partial_name(text@));
    proof {
        if text@.len() > 0 && text@.last() == '/' {
            lemma_directory_pattern(text@);
            assert(partial_name(text@) =~= Seq::<char>::empty());
            lemma_all_marked(
                entries.deep_view(),
                prefix_marks(partial_name(text@), entries.deep_view()),
            );
        }
    }
    match compile_pattern(pattern.as_str()) {
        Some(compiled) => {
            let marks = mark_matches(&compiled, entries);
            marked_suggestions(entries, &marks)
        },
        None => {
            let suggestions: Vec<String> = Vec::new();
            suggestions
        },
    }
}

/// The offers for a typed path. `entries` is the listing of the directory
/// that the path asks for, empty where there is none or it cannot be read.
///
/// A root query is answered with the root and then the home directory,
/// whatever the listing holds. The home directory comes from the
/// environment: where it is unknown, the root is the only offer. Any other
/// path is answered with the entries whose names match its partial name
/// read as a glob with a wildcard behind it: for a plain partial name, those
/// whose names begin with it. A path that ends in a separator is answered
/// with the whole listing.
pub fn find_path_suggestions(current_path: &str, entries: &Vec<DirectoryEntry>) -> (suggestions:
    Vec<String>)
    ensures
        is_root_query(current_path@) ==> exists|home: Option<Seq<char>>|
            suggestions.deep_view() == root_paths(home),
        !is_root_query(current_path@) ==> suggestions.deep_view() == listed_suggestions(
            current_path@,
            entries.deep_view(),
        ),
        !is_root_query(current_path@) && is_plain(partial_name(current_path@))
            ==> suggestions.deep_view() == prefixed_paths(
            partial_name(current_path@),
            entries.deep_view(),
        ),
        current_path@.len() > 1 && current_path@.last() == '/' ==> suggestions.deep_view()
            == all_paths(entries.deep_view()),
{
    if root_query(current_path) {
        let home = home_directory();
        let suggestions = root_suggestions(home);
        suggestions
    } else {
        listed_path_suggestions(current_path, entries)
    }
}

} // verus!
