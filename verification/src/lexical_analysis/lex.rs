//! The lexer: from source text to tokens, line by line.
//!
//! A line is cut into words at white space. A word that begins with a double
//! quote opens a string literal, which runs, words joined by one space, up to
//! the first word that ends with a double quote. Any other word is cut at the
//! special symbols `++ -- += -= { } ( ) [ ] ; ,`, each of which stands for
//! itself. What comes out is classified: by the tables of keywords,
//! operators, types, symbols and comparators, in that order, and then by the
//! patterns for numbers, string literals and identifiers. The first line that
//! cannot be read ends the whole lexing.

use vstd::prelude::*;
use crate::error::{JuvinilError, JuvinilErrorView, JuvinilResult};
use crate::lexical_analysis::regex_token::{
    ID_PATTERN, NUMBER_PATTERN, STRING_PATTERN, regex_is_match, regex_match, regex_token_map,
};
use crate::lexical_analysis::token::{
    Token, TokenType, TokenView, eof_token, is_comparator, is_comparator_text, is_keyword,
    is_keyword_text, is_operator, is_operator_text, is_symbol, is_symbol_text, is_type,
    is_type_text, pattern_token, tokens_view,
};
use crate::text::{
    char_is_whitespace, chars_of, count_char, is_whitespace, push_char, string_of, strings_view,
};

verus! {

/// Where the word that starts at `from` ends: at the first white space at or
/// after `from`, or at the end of the line.
pub open spec fn word_end(line: Seq<char>, from: int) -> int
    decreases line.len() - from,
{
    if from >= line.len() {
        line.len() as int
    } else if char_is_whitespace(line[from]) {
        from
    } else {
        word_end(line, from + 1)
    }
}

/// A word does not end before it starts.
pub proof fn lemma_word_end_bounds(line: Seq<char>, from: int)
    requires
        0 <= from <= line.len(),
    ensures
        from <= word_end(line, from) <= line.len(),
        from < line.len() && !char_is_whitespace(line[from]) ==> from < word_end(line, from),
    decreases line.len() - from,
{
    if from < line.len() && !char_is_whitespace(line[from]) {
        lemma_word_end_bounds(line, from + 1);
    }
}

/// The words of `line[from..]`: its maximal runs of characters that are not
/// white space.
pub open spec fn words_from(line: Seq<char>, from: int) -> Seq<Seq<char>>
    decreases line.len() - from,
{
    if from < 0 || from >= line.len() {
        Seq::empty()
    } else if char_is_whitespace(line[from]) {
        words_from(line, from + 1)
    } else {
        proof {
            lemma_word_end_bounds(line, from);
        }
        seq![line.subrange(from, word_end(line, from))] + words_from(line, word_end(line, from))
    }
}

/// The words of `line`.
pub open spec fn words(line: Seq<char>) -> Seq<Seq<char>> {
    words_from(line, 0)
}

/// Whether `first` and `second` make one of the special symbols of two
/// characters: `++`, `--`, `+=` and `-=`.
pub open spec fn is_double_symbol(first: char, second: char) -> bool {
    (first == '+' || first == '-') && (second == first || second == '=')
}

/// Whether `c` is one of the special symbols of one character:
/// `{ } ( ) [ ] ; ,`.
pub open spec fn is_single_symbol(c: char) -> bool {
    c == '{' || c == '}' || c == '(' || c == ')' || c == '[' || c == ']' || c == ';' || c == ','
}

/// The length of the special symbol that stands in `word` at `at`, or 0 where
/// none does. A symbol of two characters goes before one of one character.
pub open spec fn symbol_len(word: Seq<char>, at: int) -> int {
    if 0 <= at && at + 1 < word.len() && is_double_symbol(word[at], word[at + 1]) {
        2
    } else if 0 <= at < word.len() && is_single_symbol(word[at]) {
        1
    } else {
        0
    }
}

/// `done`, followed by the pieces that `word[start..]` is cut into at its
/// special symbols, where `word[start..from]` holds no symbol. The symbols
/// are pieces themselves; no piece is empty.
pub open spec fn split_symbols_from(
    word: Seq<char>,
    from: int,
    start: int,
    done: Seq<Seq<char>>,
) -> Seq<Seq<char>>
    decreases word.len() - from,
{
    if from >= word.len() {
        if start < word.len() {
            done.push(word.subrange(start, word.len() as int))
        } else {
            done
        }
    } else if symbol_len(word, from) > 0 {
        let end = from + symbol_len(word, from);
        let before = if start < from {
            done.push(word.subrange(start, from))
        } else {
            done
        };
        split_symbols_from(word, end, end, before.push(word.subrange(from, end)))
    } else {
        split_symbols_from(word, from + 1, start, done)
    }
}

/// Where the reading of the words stands: the candidates found so far, and
/// the string literal that is open, if one is.
pub struct Reading {
    pub done: Seq<Seq<char>>,
    pub open: Option<Seq<char>>,
}

/// Reads one more word.
pub open spec fn read_word(reading: Reading, word: Seq<char>) -> Reading {
    if reading.open is Some || (word.len() > 0 && word[0] == '"') {
        let text = match reading.open {
            Some(text) => text + word,
            None => word,
        };
        if word.len() > 0 && word.last() == '"' {
            Reading { done: reading.done.push(text), open: None }
        } else {
            Reading { done: reading.done, open: Some(text.push(' ')) }
        }
    } else {
        Reading { done: split_symbols_from(word, 0, 0, reading.done), open: None }
    }
}

/// Reads the words from `words[from]` on.
pub open spec fn read_words(words: Seq<Seq<char>>, from: int, reading: Reading) -> Reading
    decreases words.len() - from,
{
    if from < 0 || from >= words.len() {
        reading
    } else {
        read_words(words, from + 1, read_word(reading, words[from]))
    }
}

/// The candidate tokens of the line with the index `line_number`, counted
/// from 0: `UnclosedString` where the line holds an odd number of double
/// quotes or ends inside a string literal. The error carries the number of
/// the line, counted from 1.
pub open spec fn spec_pre_process_line(line: Seq<char>, line_number: usize) -> Result<
    Seq<Seq<char>>,
    JuvinilErrorView,
> {
    let reading = read_words(words(line), 0, Reading { done: Seq::empty(), open: None });
    if count_char(line, '"') % 2 != 0 || reading.open is Some {
        Err(JuvinilErrorView::UnclosedString(self::line_number(line_number as nat + 1)))
    } else {
        Ok(reading.done)
    }
}

/// The kind of the first of the three patterns that matches, tried in the
/// order number, string literal, identifier. A pattern that does not compile
/// matches nothing.
pub open spec fn first_match(number: Option<bool>, string: Option<bool>, id: Option<bool>)
    -> Option<TokenType> {
    if number == Some(true) {
        Some(TokenType::NUMBER)
    } else if string == Some(true) {
        Some(TokenType::STRING)
    } else if id == Some(true) {
        Some(TokenType::ID)
    } else {
        None
    }
}

/// What a text that is in none of the tables is read as, given the verdicts
/// of the three patterns on it.
pub open spec fn spec_token_from_matches(
    text: Seq<char>,
    line_number: usize,
    number: Option<bool>,
    string: Option<bool>,
    id: Option<bool>,
) -> Result<TokenView, JuvinilErrorView> {
    match first_match(number, string, id) {
        Some(token_type) => Ok(pattern_token(token_type, text, line_number)),
        None => Err(JuvinilErrorView::LexicalError(text, line_number)),
    }
}

/// The token that `text` is.
pub open spec fn spec_process_token(text: Seq<char>, line_number: usize) -> Result<
    TokenView,
    JuvinilErrorView,
> {
    if is_keyword_text(text) {
        Ok(TokenView { token_type: TokenType::KEYWORD, value: text, file_line: line_number })
    } else if is_operator_text(text) {
        Ok(TokenView { token_type: TokenType::OPERATOR, value: text, file_line: line_number })
    } else if is_type_text(text) {
        Ok(TokenView { token_type: TokenType::TYPE, value: text, file_line: line_number })
    } else if is_symbol_text(text) {
        Ok(TokenView { token_type: TokenType::SYMBOL, value: text, file_line: line_number })
    } else if is_comparator_text(text) {
        Ok(TokenView { token_type: TokenType::COMPARATOR, value: text, file_line: line_number })
    } else {
        spec_token_from_matches(
            text,
            line_number,
            regex_match(NUMBER_PATTERN@, text),
            regex_match(STRING_PATTERN@, text),
            regex_match(ID_PATTERN@, text),
        )
    }
}

/// `done`, followed by the tokens that `candidates[from..]` are; the error of
/// the first candidate that is no token.
pub open spec fn process_tokens(
    candidates: Seq<Seq<char>>,
    line_number: usize,
    from: int,
    done: Seq<TokenView>,
) -> Result<Seq<TokenView>, JuvinilErrorView>
    decreases candidates.len() - from,
{
    if from < 0 || from >= candidates.len() {
        Ok(done)
    } else {
        match spec_process_token(candidates[from], line_number) {
            Err(e) => Err(e),
            Ok(token) => process_tokens(candidates, line_number, from + 1, done.push(token)),
        }
    }
}

/// `done`, followed by the tokens of the line that `lines` lines stand
/// before: the tokens carry its number, `lines + 1`.
pub open spec fn tokenize_line(line: Seq<char>, lines: nat, done: Seq<TokenView>) -> Result<
    Seq<TokenView>,
    JuvinilErrorView,
> {
    match spec_pre_process_line(line, line_number(lines)) {
        Err(e) => Err(e),
        Ok(candidates) => process_tokens(candidates, line_number(lines + 1), 0, done),
    }
}

/// Where the line that starts at `from` ends: at the first line feed at or
/// after `from`, or at the end of the text.
pub open spec fn line_end(source: Seq<char>, from: int) -> int
    decreases source.len() - from,
{
    if from >= source.len() {
        source.len() as int
    } else if source[from] == '\n' {
        from
    } else {
        line_end(source, from + 1)
    }
}

/// A line does not end before it starts.
pub proof fn lemma_line_end_bounds(source: Seq<char>, from: int)
    requires
        0 <= from <= source.len(),
    ensures
        from <= line_end(source, from) <= source.len(),
    decreases source.len() - from,
{
    if from < source.len() && source[from] != '\n' {
        lemma_line_end_bounds(source, from + 1);
    }
}

/// Where the line after the one that starts at `from` starts: behind the line
/// feed that ends this one, or at the end of the text.
pub open spec fn next_line(source: Seq<char>, from: int) -> int {
    if line_end(source, from) < source.len() {
        line_end(source, from) + 1
    } else {
        source.len() as int
    }
}

/// The number of a line as tokens and errors carry it.
pub open spec fn line_number(lines: nat) -> usize {
    #[verifier::truncate]
    (lines as usize)
}

/// `done`, followed by the tokens of the lines of `source[from..]`, of which
/// the first has the number `lines + 1`, and by the end marker, whose line is
/// the number of lines. A line feed ends a line; the text after the last line
/// feed is a line unless it is empty.
pub open spec fn tokenize_from(source: Seq<char>, from: int, lines: nat, done: Seq<TokenView>)
    -> Result<Seq<TokenView>, JuvinilErrorView>
    decreases source.len() - from,
{
    if from < 0 || from >= source.len() {
        Ok(done.push(eof_token(line_number(lines))))
    } else {
        match tokenize_line(source.subrange(from, line_end(source, from)), lines, done) {
            Err(e) => Err(e),
            Ok(tokens) => {
                proof {
                    lemma_line_end_bounds(source, from);
                }
                tokenize_from(source, next_line(source, from), lines + 1, tokens)
            },
        }
    }
}

/// The tokens of `source`, closed by the end marker, or the error of the
/// first line that cannot be read.
pub open spec fn spec_tokenize(source: Seq<char>) -> Result<Seq<TokenView>, JuvinilErrorView> {
    tokenize_from(source, 0, 0, Seq::empty())
}

/// What a run of the lexer on `source` may end with: the tokens or the error
/// that [`spec_tokenize`] gives.
pub open spec fn tokenize_result(source: Seq<char>, r: JuvinilResult<Vec<Token>>) -> bool {
    match r {
        Ok(tokens) => spec_tokenize(source) == Ok::<Seq<TokenView>, JuvinilErrorView>(
            tokens_view(tokens@),
        ),
        Err(e) => spec_tokenize(source) == Err::<Seq<TokenView>, JuvinilErrorView>(e@),
    }
}

/// Cuts `word` at its special symbols and adds the pieces to `out`.
fn split_symbols(word: &Vec<char>, out: &mut Vec<String>)
    ensures
        strings_view(final(out)@) == split_symbols_from(word@, 0, 0, strings_view(old(out)@)),
{
    let mut from: usize = 0;
    let mut start: usize = 0;
    while from < word.len()
        invariant
            start <= from <= word@.len(),
            split_symbols_from(word@, 0, 0, strings_view(old(out)@)) == split_symbols_from(
                word@,
                from as int,
                start as int,
                strings_view(out@),
            ),
        decreases word@.len() - from,
    {
        let c = word[from];
        let len: usize = if from + 1 < word.len() && (c == '+' || c == '-') && (word[from + 1] == c
            || word[from + 1] == '=') {
            2
        } else if c == '{' || c == '}' || c == '(' || c == ')' || c == '[' || c == ']' || c == ';'
            || c == ',' {
            1
        } else {
            0
        };
        assert(len == symbol_len(word@, from as int));
        if len > 0 {
            if start < from {
                let ghost before = strings_view(out@);
                let piece = string_of(word, start, from);
                out.push(piece);
                assert(strings_view(out@) =~= before.push(word@.subrange(start as int, from as int)));
            }
            let ghost before = strings_view(out@);
            let symbol = string_of(word, from, from + len);
            out.push(symbol);
            assert(strings_view(out@) =~= before.push(
                word@.subrange(from as int, from as int + len as int),
            ));
            from = from + len;
            start = from;
        } else {
            from = from + 1;
        }
    }
    if start < word.len() {
        let ghost before = strings_view(out@);
        let piece = string_of(word, start, word.len());
        out.push(piece);
        assert(strings_view(out@) =~= before.push(
            word@.subrange(start as int, word@.len() as int),
        ));
    }
}

/// The words of `line`: what stands between its white space.
pub fn split_whitespace(line: &str) -> (r: Vec<String>)
    ensures
        strings_view(r@) == words(line@),
{
    let chars = chars_of(line);
    let mut found: Vec<String> = Vec::new();
    let mut from: usize = 0;
    assert(strings_view(found@) =~= Seq::empty());
    while from < chars.len()
        invariant
            from <= chars@.len(),
            chars@ == line@,
            words(line@) =~= strings_view(found@) + words_from(chars@, from as int),
        decreases chars@.len() - from,
    {
        if is_whitespace(chars[from]) {
            from = from + 1;
            continue ;
        }
        let mut end: usize = from + 1;
        while end < chars.len() && !is_whitespace(chars[end])
            invariant
                from < end <= chars@.len(),
                word_end(chars@, from as int) == word_end(chars@, end as int),
            decreases chars@.len() - end,
        {
            end = end + 1;
        }
        let ghost before = strings_view(found@);
        let word = string_of(&chars, from, end);
        found.push(word);
        assert(strings_view(found@) =~= before.push(chars@.subrange(from as int, end as int)));
        from = end;
    }
    assert(words_from(chars@, from as int) =~= Seq::empty());
    found
}

/// The candidate tokens of the line `line_content`: its words, with each
/// string literal joined into one candidate and every other word cut at the
/// special symbols.
///
/// `line_number` is the index of the line, counted from 0; an error carries
/// the number of the line, counted from 1.
pub fn pre_process_line(line_content: &str, line_number: usize) -> (r: JuvinilResult<Vec<String>>)
    requires
        line_number < usize::MAX,
    ensures
        match r {
            Ok(candidates) => spec_pre_process_line(line_content@, line_number) == Ok::<
                Seq<Seq<char>>,
                JuvinilErrorView,
            >(strings_view(candidates@)),
            Err(e) => spec_pre_process_line(line_content@, line_number) == Err::<
                Seq<Seq<char>>,
                JuvinilErrorView,
            >(e@),
        },
{
    let line = chars_of(line_content);
    let mut quotes: usize = 0;
    let mut i: usize = 0;
    while i < line.len()
        invariant
            i <= line@.len(),
            quotes == count_char(line@.take(i as int), '"'),
            quotes <= i,
        decreases line@.len() - i,
    {
        assert(line@.take(i + 1).drop_last() =~= line@.take(i as int));
        if line[i] == '"' {
            quotes = quotes + 1;
        }
        i = i + 1;
    }
    assert(line@.take(i as int) =~= line@);
    if quotes % 2 != 0 {
        return Err(JuvinilError::UnclosedString(line_number + 1));
    }
    let line_words = split_whitespace(line_content);
    let mut processed_content: Vec<String> = Vec::new();
    let mut complete_string = String::new();
    let mut inside_string = false;
    let mut i: usize = 0;
    assert(strings_view(processed_content@) =~= Seq::empty());
    while i < line_words.len()
        invariant
            i <= line_words@.len(),
            strings_view(line_words@) == words(line_content@),
            !inside_string ==> complete_string@ =~= Seq::<char>::empty(),
            read_words(words(line_content@), 0, Reading { done: Seq::empty(), open: None })
                == read_words(
                words(line_content@),
                i as int,
                Reading {
                    done: strings_view(processed_content@),
                    open: if inside_string {
                        Some(complete_string@)
                    } else {
                        None
                    },
                },
            ),
        decreases line_words@.len() - i,
    {
        let word = chars_of(line_words[i].as_str());
        if inside_string || (word.len() > 0 && word[0] == '"') {
            complete_string.append(line_words[i].as_str());
            assert(!inside_string ==> complete_string@ =~= word@);
            if word.len() > 0 && word[word.len() - 1] == '"' {
                let ghost before = strings_view(processed_content@);
                processed_content.push(complete_string);
                assert(strings_view(processed_content@) =~= before.push(complete_string@));
                complete_string = String::new();
                inside_string = false;
            } else {
                push_char(&mut complete_string, ' ');
                inside_string = true;
            }
        } else {
            split_symbols(&word, &mut processed_content);
        }
        i = i + 1;
    }
    if inside_string {
        return Err(JuvinilError::UnclosedString(line_number + 1));
    }
    Ok(processed_content)
}

/// What `text`, which is in none of the tables, is read as, given the
/// verdicts of the three patterns on it: a number, a string literal or an
/// identifier, by the first pattern that matched, and a lexical error where
/// none did.
pub fn token_from_matches(
    text: &str,
    line_number: usize,
    number: Option<bool>,
    string: Option<bool>,
    id: Option<bool>,
) -> (r: JuvinilResult<Token>)
    ensures
        match r {
            Ok(token) => spec_token_from_matches(text@, line_number, number, string, id) == Ok::<
                TokenView,
                JuvinilErrorView,
            >(token@),
            Err(e) => spec_token_from_matches(text@, line_number, number, string, id) == Err::<
                TokenView,
                JuvinilErrorView,
            >(e@),
        },
{
    let map = regex_token_map();
    if matches!(number, Some(true)) {
        Ok(Token::from_regex_token(&map[0], text, line_number))
    } else if matches!(string, Some(true)) {
        Ok(Token::from_regex_token(&map[1], text, line_number))
    } else if matches!(id, Some(true)) {
        Ok(Token::from_regex_token(&map[2], text, line_number))
    } else {
        Err(JuvinilError::LexicalError(text.to_owned(), line_number))
    }
}

/// The token that `token` is, on line `line_number`: a keyword, an operator,
/// a type, a symbol or a comparator if one of the tables holds it, and
/// otherwise what the patterns make of it.
pub fn process_token(token: &str, line_number: usize) -> (r: JuvinilResult<Token>)
    ensures
        match r {
            Ok(t) => spec_process_token(token@, line_number) == Ok::<TokenView, JuvinilErrorView>(
                t@,
            ),
            Err(e) => spec_process_token(token@, line_number) == Err::<
                TokenView,
                JuvinilErrorView,
            >(e@),
        },
{
    if is_keyword(token) {
        return Ok(Token::new_keyword(token.to_owned(), line_number));
    }
    if is_operator(token) {
        return Ok(Token::new_operator(token.to_owned(), line_number));
    }
    if is_type(token) {
        return Ok(Token::new_type(token.to_owned(), line_number));
    }
    if is_symbol(token) {
        return Ok(Token::new_symbol(token.to_owned(), line_number));
    }
    if is_comparator(token) {
        return Ok(Token::new_comparator(token.to_owned(), line_number));
    }
    let number = regex_is_match(NUMBER_PATTERN, token);
    let string = regex_is_match(STRING_PATTERN, token);
    let id = regex_is_match(ID_PATTERN, token);
    token_from_matches(token, line_number, number, string, id)
}

/// The tokens of `content`, closed by the end marker.
///
/// Lines are numbered from 1, and each token and each error carries the
/// number of its line; the end marker carries the number of lines.
pub fn tokenize(content: String) -> (r: JuvinilResult<Vec<Token>>)
    ensures
        tokenize_result(content@, r),
        r is Ok ==> r->Ok_0@.len() > 0 && r->Ok_0@.last().token_type == TokenType::EOF,
{
    let source = chars_of(content.as_str());
    let mut tokens: Vec<Token> = Vec::new();
    let mut from: usize = 0;
    let mut lines: usize = 0;
    assert(tokens_view(tokens@) =~= Seq::empty());
    while from < source.len()
        invariant
            lines <= from <= source@.len(),
            source@ == content@,
            spec_tokenize(content@) == tokenize_from(
                source@,
                from as int,
                lines as nat,
                tokens_view(tokens@),
            ),
        decreases source@.len() - from,
    {
        let mut end: usize = from;
        while end < source.len() && source[end] != '\n'
            invariant
                from <= end <= source@.len(),
                line_end(source@, from as int) == line_end(source@, end as int),
            decreases source@.len() - end,
        {
            end = end + 1;
        }
        let line_number = lines + 1;
        let line_content = string_of(&source, from, end);
        let pre_processed_line = pre_process_line(line_content.as_str(), lines)?;
        let ghost line_start = tokens_view(tokens@);
        let mut i: usize = 0;
        while i < pre_processed_line.len()
            invariant
                i <= pre_processed_line@.len(),
                from < source@.len(),
                line_number == lines + 1,
                spec_tokenize(content@) == tokenize_from(
                    source@,
                    from as int,
                    lines as nat,
                    line_start,
                ),
                spec_pre_process_line(
                    source@.subrange(from as int, line_end(source@, from as int)),
                    lines,
                ) == Ok::<Seq<Seq<char>>, JuvinilErrorView>(strings_view(pre_processed_line@)),
                process_tokens(strings_view(pre_processed_line@), line_number, 0, line_start)
                    == process_tokens(
                    strings_view(pre_processed_line@),
                    line_number,
                    i as int,
                    tokens_view(tokens@),
                ),
            decreases pre_processed_line@.len() - i,
        {
            let ghost before = tokens_view(tokens@);
            let token = process_token(pre_processed_line[i].as_str(), line_number)?;
            tokens.push(token);
            assert(tokens_view(tokens@) =~= before.push(token@));
            i = i + 1;
        }
        lines = line_number;
        if end < source.len() {
            from = end + 1;
        } else {
            from = end;
        }
    }
    let ghost before = tokens_view(tokens@);
    tokens.push(Token::eof(lines));
    assert(tokens_view(tokens@) =~= before.push(eof_token(line_number(lines as nat))));
    Ok(tokens)
}

} // verus!
