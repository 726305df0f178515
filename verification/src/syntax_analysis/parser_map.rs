//! A grammar table read from text: for each symbol of the grammar, the tokens
//! that may come first in it, those that may follow it, and those to look
//! ahead for.
//!
//! The text has three sections, in that order, each opened by a line that
//! starts with `!--!`. Every other line reads `symbol -> token token ...`.
//! A later line for a symbol replaces an earlier one of the same section.

use vstd::prelude::*;
use crate::error::{JuvinilError, JuvinilErrorView, JuvinilResult};
use crate::lexical_analysis::lex::{
    lemma_line_end_bounds, line_end, line_number, next_line, split_whitespace, words,
};
use crate::lexical_analysis::token::{Token, TokenType, TokenView};
use crate::text::{
    chars_of, contains, occurs_in, str_equal, string_of, strings_view, trim, trimmed,
};

verus! {

/// One line of a table: a symbol of the grammar and its tokens.
pub struct Entry {
    pub key: String,
    pub elements: Vec<String>,
}

/// What an [`Entry`] stands for.
pub struct EntryView {
    pub key: Seq<char>,
    pub elements: Seq<Seq<char>>,
}

impl View for Entry {
    type V = EntryView;

    open spec fn view(&self) -> EntryView {
        EntryView { key: self.key@, elements: strings_view(self.elements@) }
    }
}

/// A table: the tokens of each symbol.
pub type Table = Map<Seq<char>, Seq<Seq<char>>>;

/// The table that the entries make when they are entered one after the
/// other.
pub open spec fn table_of(entries: Seq<Entry>) -> Table
    decreases entries.len(),
{
    if entries.len() == 0 {
        Map::empty()
    } else {
        table_of(entries.drop_last()).insert(entries.last()@.key, entries.last()@.elements)
    }
}

/// The three tables.
pub struct ParserMap {
    first: Vec<Entry>,
    follow: Vec<Entry>,
    lookahead: Vec<Entry>,
}

/// What a [`ParserMap`] stands for.
pub struct ParserMapView {
    pub first: Table,
    pub follow: Table,
    pub lookahead: Table,
}

impl ParserMapView {
    /// The map with `entry` entered in the table of the section `section`.
    pub open spec fn with_entry(self, section: int, entry: EntryView) -> ParserMapView {
        if section == 1 {
            ParserMapView { first: self.first.insert(entry.key, entry.elements), ..self }
        } else if section == 2 {
            ParserMapView { follow: self.follow.insert(entry.key, entry.elements), ..self }
        } else {
            ParserMapView { lookahead: self.lookahead.insert(entry.key, entry.elements), ..self }
        }
    }
}

/// The map with three empty tables.
pub open spec fn empty_map() -> ParserMapView {
    ParserMapView { first: Map::empty(), follow: Map::empty(), lookahead: Map::empty() }
}

/// Whether the line opens a section: it starts with `!--!`.
pub open spec fn is_marker(line: Seq<char>) -> bool {
    line.len() >= 4 && line[0] == '!' && line[1] == '-' && line[2] == '-' && line[3] == '!'
}

/// The place of the first `->` at or after `from`, or the length of the line
/// if there is none.
pub open spec fn find_arrow(line: Seq<char>, from: int) -> int
    decreases line.len() - from,
{
    if from < 0 || from + 1 >= line.len() {
        line.len() as int
    } else if line[from] == '-' && line[from + 1] == '>' {
        from
    } else {
        find_arrow(line, from + 1)
    }
}

/// An arrow is found at or after the place where the search starts.
pub proof fn lemma_find_arrow_bounds(line: Seq<char>, from: int)
    requires
        0 <= from <= line.len(),
    ensures
        from <= find_arrow(line, from) <= line.len(),
        find_arrow(line, from) < line.len() ==> find_arrow(line, from) + 2 <= line.len(),
    decreases line.len() - from,
{
    if from + 1 < line.len() && !(line[from] == '-' && line[from + 1] == '>') {
        lemma_find_arrow_bounds(line, from + 1);
    }
}

/// The entry that the line writes: the symbol is what stands before the first
/// `->`, without the white space around it, and its tokens are the words
/// between that arrow and the next one. A line without `->` writes none.
pub open spec fn spec_entry(line: Seq<char>) -> Option<EntryView> {
    let arrow = find_arrow(line, 0);
    if arrow >= line.len() {
        None
    } else {
        let rest = line.subrange(arrow + 2, line.len() as int);
        Some(
            EntryView {
                key: trimmed(line.subrange(0, arrow)),
                elements: words(rest.subrange(0, find_arrow(rest, 0))),
            },
        )
    }
}

/// The map after the lines of `source[from..]`, of which the first has the
/// number `lines + 1`, when `sections` sections have been opened and `map` is
/// what the lines before gave. A line that writes no entry, or that stands
/// before the first section or behind the third, is a lexical error with the
/// line and its number.
pub open spec fn read_map(
    source: Seq<char>,
    from: int,
    lines: nat,
    sections: nat,
    map: ParserMapView,
) -> Result<ParserMapView, JuvinilErrorView>
    decreases source.len() - from,
{
    if from < 0 || from >= source.len() {
        Ok(map)
    } else {
        let line = source.subrange(from, line_end(source, from));
        proof {
            lemma_line_end_bounds(source, from);
        }
        if is_marker(line) {
            read_map(source, next_line(source, from), lines + 1, sections + 1, map)
        } else if spec_entry(line) is Some && 1 <= sections <= 3 {
            read_map(
                source,
                next_line(source, from),
                lines + 1,
                sections,
                map.with_entry(sections as int, spec_entry(line)->0),
            )
        } else {
            Err(JuvinilErrorView::LexicalError(line, line_number(lines + 1)))
        }
    }
}

/// The map that the text `source` describes.
pub open spec fn spec_parser_map(source: Seq<char>) -> Result<ParserMapView, JuvinilErrorView> {
    read_map(source, 0, 0, 0, empty_map())
}

/// The text by which a token is looked up: every identifier as `_ID_`, every
/// number as `_NUM_`, any other token as it reads.
pub open spec fn grammar_text(token: TokenView) -> Seq<char> {
    if token.token_type == TokenType::ID {
        "_ID_"@
    } else if token.token_type == TokenType::NUMBER {
        "_NUM_"@
    } else {
        token.value
    }
}

/// Whether one of `elements` occurs in `text`.
pub open spec fn any_occurs_in(text: Seq<char>, elements: Seq<Seq<char>>) -> bool {
    exists|k: int| 0 <= k < elements.len() && occurs_in(text, #[trigger] elements[k])
}

/// Whether `table` has the symbol `entry_type` and one of its tokens occurs
/// in the text by which `token` is looked up.
pub open spec fn table_holds(table: Table, entry_type: Seq<char>, token: TokenView) -> bool {
    table.dom().contains(entry_type) && any_occurs_in(grammar_text(token), table[entry_type])
}

/// The tokens of `key` in the table that `entries` make.
fn table_get<'a>(entries: &'a Vec<Entry>, key: &str) -> (found: Option<&'a Vec<String>>)
    ensures
        match found {
            Some(elements) => table_of(entries@).dom().contains(key@) && table_of(entries@)[key@]
                == strings_view(elements@),
            None => !table_of(entries@).dom().contains(key@),
        },
{
    let mut i: usize = entries.len();
    assert(entries@.take(i as int) =~= entries@);
    while i > 0
        invariant
            i <= entries@.len(),
            table_of(entries@).dom().contains(key@) == table_of(
                entries@.take(i as int),
            ).dom().contains(key@),
            table_of(entries@).dom().contains(key@) ==> table_of(entries@)[key@] == table_of(
                entries@.take(i as int),
            )[key@],
        decreases i,
    {
        assert(entries@.take(i as int).drop_last() =~= entries@.take(i - 1));
        if str_equal(entries[i - 1].key.as_str(), key) {
            return Some(&entries[i - 1].elements);
        }
        i = i - 1;
    }
    None
}

/// Whether one of `elements` occurs in `text`.
fn any_contained(text: &str, elements: &Vec<String>) -> (r: bool)
    ensures
        r == any_occurs_in(text@, strings_view(elements@)),
{
    let mut k: usize = 0;
    while k < elements.len()
        invariant
            k <= elements@.len(),
            forall|j: int| 0 <= j < k ==> !occurs_in(text@, #[trigger] strings_view(elements@)[j]),
        decreases elements@.len() - k,
    {
        if contains(text, elements[k].as_str()) {
            assert(occurs_in(text@, strings_view(elements@)[k as int]));
            return true;
        }
        k = k + 1;
    }
    false
}

/// The text by which `token` is looked up.
fn lookup_text(token: &Token) -> (text: String)
    ensures
        text@ == grammar_text(token@),
{
    match token.token_type {
        TokenType::ID => "_ID_".to_owned(),
        TokenType::NUMBER => "_NUM_".to_owned(),
        _ => token.value.clone(),
    }
}

/// Whether the table that `entries` make holds `token` under `entry_type`.
fn holds(entries: &Vec<Entry>, entry_type: &str, token: &Token) -> (r: bool)
    ensures
        r == table_holds(table_of(entries@), entry_type@, token@),
{
    let text = lookup_text(token);
    match table_get(entries, entry_type) {
        Some(elements) => any_contained(text.as_str(), elements),
        None => false,
    }
}

/// The place of the first `->` in `line[from..]`, or the length of the line if
/// there is none.
fn arrow(line: &Vec<char>, from: usize) -> (at: usize)
    requires
        from <= line@.len(),
    ensures
        at == find_arrow(line@.subrange(from as int, line@.len() as int), 0) + from,
        from <= at <= line@.len(),
{
    let ghost rest = line@.subrange(from as int, line@.len() as int);
    let mut at: usize = from;
    while at < line.len() && at + 1 < line.len()
        invariant
            from <= at <= line@.len(),
            rest == line@.subrange(from as int, line@.len() as int),
            find_arrow(rest, 0) == find_arrow(rest, at - from),
        decreases line@.len() - at,
    {
        if line[at] == '-' && line[at + 1] == '>' {
            return at;
        }
        at = at + 1;
    }
    line.len()
}

/// The entry that `line` writes, if it writes one.
pub fn parse_entry(line: &str) -> (r: Option<Entry>)
    ensures
        match r {
            Some(entry) => spec_entry(line@) == Some(entry@),
            None => spec_entry(line@) is None,
        },
{
    let chars = chars_of(line);
    let first = arrow(&chars, 0);
    assert(chars@.subrange(0, chars@.len() as int) =~= chars@);
    if first >= chars.len() {
        return None;
    }
    proof {
        lemma_find_arrow_bounds(chars@, 0);
    }
    let key = trim(&chars, 0, first);
    let second = arrow(&chars, first + 2);
    let ghost rest = chars@.subrange(first + 2, chars@.len() as int);
    let between = string_of(&chars, first + 2, second);
    assert(between@ =~= rest.subrange(0, find_arrow(rest, 0)));
    let elements = split_whitespace(between.as_str());
    Some(Entry { key, elements })
}

impl ParserMap {
    /// What the map stands for.
    pub closed spec fn view(&self) -> ParserMapView {
        ParserMapView {
            first: table_of(self.first@),
            follow: table_of(self.follow@),
            lookahead: table_of(self.lookahead@),
        }
    }

    /// Reads the three tables from the text `lang_map`.
    pub fn new(lang_map: &str) -> (r: JuvinilResult<Self>)
        ensures
            match r {
                Ok(map) => spec_parser_map(lang_map@) == Ok::<ParserMapView, JuvinilErrorView>(
                    map@,
                ),
                Err(e) => spec_parser_map(lang_map@) == Err::<ParserMapView, JuvinilErrorView>(
                    e@,
                ),
            },
    {
        let source = chars_of(lang_map);
        let mut map = ParserMap { first: Vec::new(), follow: Vec::new(), lookahead: Vec::new() };
        let mut from: usize = 0;
        let mut lines: usize = 0;
        let mut sections: usize = 0;
        while from < source.len()
            invariant
                lines <= from <= source@.len(),
                sections <= lines,
                source@ == lang_map@,
                spec_parser_map(lang_map@) == read_map(
                    source@,
                    from as int,
                    lines as nat,
                    sections as nat,
                    map@,
                ),
            decreases source@.len() - from,
        {
            let mut end: usize = from;
            while end < source.len() && source[end] != '\n'
                invariant
                    from <= end <= source@.len(),
                    line_end(source@, from as int) == line_end(source@, end as int),
                decreases source@.len() - end,
            {
                end = end + 1;
            }
            let line = string_of(&source, from, end);
            let marker = end - from >= 4 && source[from] == '!' && source[from + 1] == '-'
                && source[from + 2] == '-' && source[from + 3] == '!';
            assert(marker == is_marker(line@));
            if marker {
                sections = sections + 1;
            } else {
                let entry = if 1 <= sections && sections <= 3 {
                    parse_entry(line.as_str())
                } else {
                    None
                };
                match entry {
                    Some(entry) => {
                        let ghost before = map@;
                        let ghost added = entry@;
                        let ghost first = map.first@;
                        let ghost follow = map.follow@;
                        let ghost lookahead = map.lookahead@;
                        if sections == 1 {
                            map.first.push(entry);
                            assert(map.first@.drop_last() =~= first);
                        } else if sections == 2 {
                            map.follow.push(entry);
                            assert(map.follow@.drop_last() =~= follow);
                        } else {
                            map.lookahead.push(entry);
                            assert(map.lookahead@.drop_last() =~= lookahead);
                        }
                        assert(map@ == before.with_entry(sections as int, added));
                    },
                    None => {
                        return Err(JuvinilError::LexicalError(line, lines + 1));
                    },
                }
            }
            lines = lines + 1;
            if end < source.len() {
                from = end + 1;
            } else {
                from = end;
            }
        }
        Ok(map)
    }

    /// Whether `token` may come first in the symbol `entry_type`.
    pub fn is_first(&self, entry_type: &str, token: &Token) -> (r: bool)
        ensures
            r == table_holds(self@.first, entry_type@, token@),
    {
        holds(&self.first, entry_type, token)
    }

    /// Whether `token` may follow the symbol `entry_type`.
    pub fn is_follow(&self, entry_type: &str, token: &Token) -> (r: bool)
        ensures
            r == table_holds(self@.follow, entry_type@, token@),
    {
        holds(&self.follow, entry_type, token)
    }

    /// Whether `token` is one to look ahead for in the symbol `entry_type`.
    pub fn is_lookahead(&self, entry_type: &str, token: &Token) -> (r: bool)
        ensures
            r == table_holds(self@.lookahead, entry_type@, token@),
    {
        holds(&self.lookahead, entry_type, token)
    }
}

} // verus!
