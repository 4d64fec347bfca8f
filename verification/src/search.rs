//! The free-text search: what it means for a person to match a term, and the
//! filter that asks the store for the persons that do.

use vstd::prelude::*;
use crate::structs::person::PersonView;
use crate::text::push_char;

verus! {

/// An ASCII letter or digit.
pub open spec fn is_ascii_alphanumeric(c: char) -> bool {
    ('0' <= c <= '9') || ('A' <= c <= 'Z') || ('a' <= c <= 'z')
}

/// The characters that may mean something else than themselves in a
/// pattern: those of ASCII that are neither a letter nor a digit.
pub open spec fn is_pattern_special(c: char) -> bool {
    (c as u32) < 128 && !is_ascii_alphanumeric(c)
}

/// One character as a pattern that matches that character and nothing
/// else: a special character gets a backslash before it.
pub open spec fn escaped_char(c: char) -> Seq<char> {
    if is_pattern_special(c) {
        seq!['\\', c]
    } else {
        seq![c]
    }
}

/// A term as a pattern that matches the term, character for character.
pub open spec fn escaped(term: Seq<char>) -> Seq<char>
    decreases term.len(),
{
    if term.len() == 0 {
        Seq::empty()
    } else {
        escaped(term.drop_last()) + escaped_char(term.last())
    }
}

/// Writes a term as a pattern that matches the term, character for character.
pub fn escape_pattern(term: &str) -> (pattern: String)
    ensures
        pattern@ == escaped(term@),
{
    let mut pattern = String::new();
    for c in it: term.chars()
        invariant
            it.seq() == term@,
            pattern@ == escaped(term@.take(it.index() as int)),
    {
        let ghost before = term@.take(it.index() as int);
        let ghost after = term@.take(it.index() + 1);
        proof {
            assert(after.drop_last() =~= before);
            assert(after.last() == c);
        }
        let special = (c as u32) < 128 && !(('0' <= c && c <= '9') || ('A' <= c && c <= 'Z') || ('a'
            <= c && c <= 'z'));
        if special {
            push_char(&mut pattern, '\\');
        }
        push_char(&mut pattern, c);
        proof {
            assert(pattern@ =~= escaped(before) + escaped_char(c));
        }
    }
    proof {
        assert(term@.take(term@.len() as int) =~= term@);
    }
    pattern
}

/// A character without its case: a capital letter of ASCII becomes the
/// small one, every other character stays.
pub open spec fn folded(c: char) -> char {
    if 'A' <= c <= 'Z' {
        ((c as u32 + 32) as u8) as char
    } else {
        c
    }
}

/// `term` stands in `text` at `at`, case apart.
pub open spec fn occurs_at(text: Seq<char>, term: Seq<char>, at: int) -> bool {
    &&& 0 <= at
    &&& at + term.len() <= text.len()
    &&& forall|j: int| 0 <= j < term.len() ==> folded(#[trigger] text[at + j]) == folded(term[j])
}

/// `term` stands somewhere in `text`, case apart.
pub open spec fn contains_term(text: Seq<char>, term: Seq<char>) -> bool {
    exists|at: int| occurs_at(text, term, at)
}

/// A person matches a term where the term stands in the name, in the
/// nickname, or in one of the stacks.
pub open spec fn person_matches(person: PersonView, term: Seq<char>) -> bool {
    ||| contains_term(person.name, term)
    ||| contains_term(person.nickname, term)
    ||| (person.stacks matches Some(stacks) && exists|k: int|
        0 <= k < stacks.len() && contains_term(#[trigger] stacks[k], term))
}

/// The parts of a person that a search looks into.
#[derive(Clone, Copy, Debug, PartialEq, Eq, Structural)]
pub enum SearchField {
    Name,
    Stacks,
    Nickname,
}

/// What the store is asked for: the persons of which one of the fields, or
/// for a list one of its items, matches the pattern under the options.
#[derive(Clone, Debug, PartialEq, Eq)]
pub struct SearchFilter {
    pub any_of: Vec<SearchField>,
    pub pattern: String,
    pub options: String,
}

pub ghost struct SearchFilterView {
    pub any_of: Seq<SearchField>,
    pub pattern: Seq<char>,
    pub options: Seq<char>,
}

impl View for SearchFilter {
    type V = SearchFilterView;

    open spec fn view(&self) -> SearchFilterView {
        SearchFilterView { any_of: self.any_of@, pattern: self.pattern@, options: self.options@ }
    }
}

/// The filter of the search for a term: the term itself as a pattern, case
/// apart, in the name, the stacks and the nickname.
pub open spec fn filter_for(term: Seq<char>) -> SearchFilterView {
    SearchFilterView {
        any_of: seq![SearchField::Name, SearchField::Stacks, SearchField::Nickname],
        pattern: escaped(term),
        options: "i"@,
    }
}

/// The filter of the search for a term.
pub fn search_filter(term: &str) -> (filter: SearchFilter)
    ensures
        filter@ == filter_for(term@),
{
    let mut any_of: Vec<SearchField> = Vec::new();
    any_of.push(SearchField::Name);
    any_of.push(SearchField::Stacks);
    any_of.push(SearchField::Nickname);
    proof {
        assert(any_of@ =~= seq![SearchField::Name, SearchField::Stacks, SearchField::Nickname]);
    }
    SearchFilter { any_of, pattern: escape_pattern(term), options: String::from_str("i") }
}

} // verus!
