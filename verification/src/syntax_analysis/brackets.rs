//! Matching brackets: a reading of a text that follows its braces and
//! parentheses, and leaves out what stands inside string literals.

use vstd::prelude::*;
use crate::text::{quoted, without_char};

verus! {

/// Where a reading of a text stands: whether it is inside a string literal,
/// the brackets that are open, innermost last, and whether every closing
/// bracket so far closed the innermost open one.
pub struct Level {
    pub in_string: bool,
    pub open: Seq<char>,
    pub ok: bool,
}

impl Level {
    /// Before anything is read.
    pub open spec fn start() -> Level {
        Level { in_string: false, open: Seq::empty(), ok: true }
    }

    /// Outside string literals, and no bracket was closed wrongly.
    pub open spec fn good(self) -> bool {
        self.ok && !self.in_string
    }

    /// With one more bracket open.
    pub open spec fn push(self, bracket: char) -> Level {
        Level { open: self.open.push(bracket), ..self }
    }

    /// Every bracket has been closed by its own closer, in nesting order,
    /// and no string literal is left open.
    pub open spec fn closed(self) -> bool {
        self.good() && self.open.len() == 0
    }
}

/// The bracket that `closer` closes.
pub open spec fn opener_of(closer: char) -> char {
    if closer == ')' {
        '('
    } else {
        '{'
    }
}

/// Reads one character.
pub open spec fn step(level: Level, c: char) -> Level {
    if !level.ok {
        level
    } else if level.in_string {
        if c == '"' {
            Level { in_string: false, ..level }
        } else {
            level
        }
    } else if c == '"' {
        Level { in_string: true, ..level }
    } else if c == '(' || c == '{' {
        level.push(c)
    } else if c == ')' || c == '}' {
        if level.open.len() > 0 && level.open.last() == opener_of(c) {
            Level { open: level.open.drop_last(), ..level }
        } else {
            Level { ok: false, ..level }
        }
    } else {
        level
    }
}

/// Reads a text, from `level` on.
pub open spec fn scan(level: Level, text: Seq<char>) -> Level
    decreases text.len(),
{
    if text.len() == 0 {
        level
    } else {
        step(scan(level, text.drop_last()), text.last())
    }
}

/// Where a reading of the whole text ends.
pub open spec fn level_of(text: Seq<char>) -> Level {
    scan(Level::start(), text)
}

/// The text is well-formed as far as brackets go: outside string literals
/// every `{` and every `(` has its matching closer, in nesting order, and
/// every string literal is closed.
pub open spec fn brackets_match(text: Seq<char>) -> bool {
    level_of(text).closed()
}

/// Whether `c` is a bracket or a double quote.
pub open spec fn is_mark(c: char) -> bool {
    c == '{' || c == '}' || c == '(' || c == ')' || c == '"'
}

/// The text holds no bracket and no double quote.
pub open spec fn plain_text(text: Seq<char>) -> bool {
    forall|i: int| 0 <= i < text.len() ==> !is_mark(#[trigger] text[i])
}

/// The text holds no double quote.
pub open spec fn quote_free(text: Seq<char>) -> bool {
    forall|i: int| 0 <= i < text.len() ==> #[trigger] text[i] != '"'
}

/// Outside a string literal, reading the text changes nothing.
pub open spec fn neutral(text: Seq<char>) -> bool {
    forall|level: Level| level.good() ==> #[trigger] scan(level, text) == level
}

/// Outside a string literal, reading the text opens `bracket`.
pub open spec fn opens(text: Seq<char>, bracket: char) -> bool {
    forall|level: Level| level.good() ==> #[trigger] scan(level, text) == level.push(bracket)
}

/// Reading the text closes `bracket` where it is the innermost open one.
pub open spec fn closes(text: Seq<char>, bracket: char) -> bool {
    forall|level: Level| level.good() ==> #[trigger] scan(level.push(bracket), text) == level
}

/// Reading two texts one after the other is reading them joined.
pub broadcast proof fn lemma_scan_joined(level: Level, a: Seq<char>, b: Seq<char>)
    ensures
        #[trigger] scan(level, a + b) == scan(scan(level, a), b),
    decreases b.len(),
{
    if b.len() == 0 {
        assert(a + b =~= a);
    } else {
        assert((a + b).drop_last() =~= a + b.drop_last());
        lemma_scan_joined(level, a, b.drop_last());
    }
}

/// Reading one character is one step.
pub proof fn lemma_scan_one(level: Level, c: char)
    ensures
        scan(level, seq![c]) == step(level, c),
{
    reveal_with_fuel(scan, 2);
    assert(seq![c].drop_last() =~= Seq::<char>::empty());
}

/// Outside a string literal, a plain text changes nothing.
pub proof fn lemma_scan_plain(level: Level, text: Seq<char>)
    requires
        level.good(),
        plain_text(text),
    ensures
        scan(level, text) == level,
    decreases text.len(),
{
    if text.len() > 0 {
        lemma_scan_plain(level, text.drop_last());
    }
}

/// Inside a string literal, a text without double quotes changes nothing.
pub proof fn lemma_scan_inside(level: Level, text: Seq<char>)
    requires
        level.ok,
        level.in_string,
        quote_free(text),
    ensures
        scan(level, text) == level,
    decreases text.len(),
{
    if text.len() > 0 {
        lemma_scan_inside(level, text.drop_last());
    }
}

/// A text is read by reading what stands before a place, the character at
/// the place, and what stands behind it.
pub proof fn lemma_scan_split(level: Level, text: Seq<char>, at: int)
    requires
        0 <= at < text.len(),
    ensures
        scan(level, text) == scan(
            step(scan(level, text.take(at)), text[at]),
            text.skip(at + 1),
        ),
{
    let before = text.take(at);
    let one = seq![text[at]];
    let behind = text.skip(at + 1);
    assert(text =~= before + one + behind);
    lemma_scan_joined(level, before + one, behind);
    lemma_scan_joined(level, before, one);
    lemma_scan_one(scan(level, before), text[at]);
}

/// A plain text is neutral.
pub proof fn lemma_plain_is_neutral(text: Seq<char>)
    requires
        plain_text(text),
    ensures
        neutral(text),
{
    assert forall|level: Level| level.good() implies #[trigger] scan(level, text) == level by {
        lemma_scan_plain(level, text);
    }
}

/// A text that holds one opening bracket, at `at`, and is plain otherwise
/// opens that bracket.
pub proof fn lemma_opener(text: Seq<char>, at: int)
    requires
        0 <= at < text.len(),
        text[at] == '(' || text[at] == '{',
        forall|i: int| 0 <= i < text.len() && i != at ==> !is_mark(#[trigger] text[i]),
    ensures
        opens(text, text[at]),
{
    assert forall|level: Level| level.good() implies #[trigger] scan(level, text) == level.push(
        text[at],
    ) by {
        lemma_scan_split(level, text, at);
        lemma_scan_plain(level, text.take(at));
        lemma_scan_plain(level.push(text[at]), text.skip(at + 1));
    }
}

/// A text that holds one closing bracket, at `at`, and is plain otherwise
/// closes the bracket that it matches.
pub proof fn lemma_closer(text: Seq<char>, at: int)
    requires
        0 <= at < text.len(),
        text[at] == ')' || text[at] == '}',
        forall|i: int| 0 <= i < text.len() && i != at ==> !is_mark(#[trigger] text[i]),
    ensures
        closes(text, opener_of(text[at])),
{
    let bracket = opener_of(text[at]);
    assert forall|level: Level| level.good() implies #[trigger] scan(level.push(bracket), text)
        == level by {
        let pushed = level.push(bracket);
        lemma_scan_split(pushed, text, at);
        lemma_scan_plain(pushed, text.take(at));
        assert(pushed.open.drop_last() =~= level.open);
        assert(step(pushed, text[at]) == level);
        lemma_scan_plain(level, text.skip(at + 1));
    }
}

/// A text without double quotes, put between double quotes, is neutral:
/// what a string literal holds does not count.
pub proof fn lemma_quoted_is_neutral(text: Seq<char>)
    requires
        quote_free(text),
    ensures
        neutral(quoted(text)),
{
    let quote = seq!['"'];
    assert forall|level: Level| level.good() implies #[trigger] scan(level, quoted(text))
        == level by {
        let inside = Level { in_string: true, ..level };
        lemma_scan_joined(level, quote + text, quote);
        lemma_scan_joined(level, quote, text);
        lemma_scan_one(level, '"');
        lemma_scan_inside(inside, text);
        lemma_scan_one(inside, '"');
    }
}

/// A text from which the double quotes were taken holds none: the text of a
/// string literal token, as the lexer makes it, is free of them.
pub proof fn lemma_without_quotes_is_quote_free(text: Seq<char>)
    ensures
        quote_free(without_char(text, '"')),
    decreases text.len(),
{
    if text.len() > 0 {
        lemma_without_quotes_is_quote_free(text.drop_last());
    }
}

} // verus!
