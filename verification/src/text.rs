//! Characters and strings: the handful of operations on `char`, `str` and
//! `String` that the lexer and the parser are built from.

use vstd::prelude::*;
use vstd::string::StringSliceAdditionalSpecFns;

verus! {

/// Whether `c` is white space: whether it has the Unicode property
/// White_Space. These are the tab, the line feed, the vertical tab, the form
/// feed, the carriage return, the space, the next-line character, the
/// no-break space and the spaces and separators from U+1680 on.
pub open spec fn char_is_whitespace(c: char) -> bool {
    let code = c as u32;
    ||| 0x09 <= code <= 0x0D
    ||| code == 0x20
    ||| code == 0x85
    ||| code == 0xA0
    ||| code == 0x1680
    ||| 0x2000 <= code <= 0x200A
    ||| code == 0x2028
    ||| code == 0x2029
    ||| code == 0x202F
    ||| code == 0x205F
    ||| code == 0x3000
}

/// `char::is_whitespace`, which tells whether a character has the property
/// White_Space; the contract writes that set out.
#[verifier::external_body]
pub(crate) fn is_whitespace(c: char) -> (r: bool)
    ensures
        r == char_is_whitespace(c),
{
    c.is_whitespace()
}

/// Whether `a` and `b` hold the same characters. The two are compared byte
/// by byte: texts are equal exactly when their encodings are.
pub fn str_equal(a: &str, b: &str) -> (r: bool)
    ensures
        r == (a@ == b@),
{
    let left = a.as_bytes();
    let right = b.as_bytes();
    proof {
        vstd::utf8::encode_utf8_decode_utf8(a@);
        vstd::utf8::encode_utf8_decode_utf8(b@);
    }
    if left.len() != right.len() {
        return false;
    }
    let mut i: usize = 0;
    while i < left.len()
        invariant
            i <= left@.len(),
            left@.len() == right@.len(),
            left@ == a.spec_bytes(),
            right@ == b.spec_bytes(),
            forall|j: int| 0 <= j < i ==> left@[j] == right@[j],
        decreases left@.len() - i,
    {
        if left[i] != right[i] {
            return false;
        }
        i = i + 1;
    }
    assert(left@ =~= right@);
    true
}

/// `String::push`: appends `c` to the end of `s`.
#[verifier::external_body]
pub(crate) fn push_char(s: &mut String, c: char)
    ensures
        final(s)@ == old(s)@.push(c),
{
    s.push(c)
}

/// The texts that a sequence of strings stands for.
pub open spec fn strings_view(strings: Seq<String>) -> Seq<Seq<char>> {
    Seq::new(strings.len(), |i: int| strings[i]@)
}

/// The characters of `s`, in order.
pub fn chars_of(s: &str) -> (v: Vec<char>)
    ensures
        v@ == s@,
{
    let mut v: Vec<char> = Vec::new();
    for c in it: s.chars()
        invariant
            v@ == it.seq().take(it.index() as int),
            it.seq() == s@,
    {
        v.push(c);
    }
    assert(v@ =~= s@);
    v
}

/// The string made of the characters `v[from..to]`.
pub(crate) fn string_of(v: &Vec<char>, from: usize, to: usize) -> (s: String)
    requires
        from <= to <= v@.len(),
    ensures
        s@ == v@.subrange(from as int, to as int),
{
    let mut s = String::new();
    let mut i: usize = from;
    while i < to
        invariant
            from <= i <= to <= v@.len(),
            s@ == v@.subrange(from as int, i as int),
        decreases to - i,
    {
        push_char(&mut s, v[i]);
        i = i + 1;
        assert(s@ =~= v@.subrange(from as int, i as int));
    }
    s
}

/// `s` between two double quotes.
pub open spec fn quoted(s: Seq<char>) -> Seq<char> {
    seq!['"'] + s + seq!['"']
}

/// Puts `s` between two double quotes.
pub fn quote(s: &str) -> (r: String)
    ensures
        r@ == quoted(s@),
{
    let mut r = String::new();
    push_char(&mut r, '"');
    r.append(s);
    push_char(&mut r, '"');
    assert(r@ =~= quoted(s@));
    r
}

/// `s` without its occurrences of `c`.
pub open spec fn without_char(s: Seq<char>, c: char) -> Seq<char>
    decreases s.len(),
{
    if s.len() == 0 {
        s
    } else if s.last() == c {
        without_char(s.drop_last(), c)
    } else {
        without_char(s.drop_last(), c).push(s.last())
    }
}

/// How often `c` occurs in `s`.
pub open spec fn count_char(s: Seq<char>, c: char) -> nat
    decreases s.len(),
{
    if s.len() == 0 {
        0
    } else if s.last() == c {
        count_char(s.drop_last(), c) + 1
    } else {
        count_char(s.drop_last(), c)
    }
}

/// `new` starts with `old`: it is `old` with something added at its end.
#[verifier::opaque]
pub open spec fn grows(old: Seq<char>, new: Seq<char>) -> bool {
    old.is_prefix_of(new)
}

/// A text starts with itself.
pub broadcast proof fn lemma_grows_self(text: Seq<char>)
    ensures
        #[trigger] grows(text, text),
{
    reveal(grows);
}

/// What a text starts with, it still starts with when more is added to it.
pub broadcast proof fn lemma_grows_more(old: Seq<char>, new: Seq<char>, more: Seq<char>)
    requires
        grows(old, new),
    ensures
        #[trigger] grows(old, new + more),
{
    reveal(grows);
}

/// Removes every occurrence of `c` from `s`.
pub fn remove_char(s: &str, c: char) -> (r: String)
    ensures
        r@ == without_char(s@, c),
{
    let v = chars_of(s);
    let mut r = String::new();
    let mut i: usize = 0;
    while i < v.len()
        invariant
            i <= v@.len(),
            r@ == without_char(v@.take(i as int), c),
        decreases v@.len() - i,
    {
        assert(v@.take(i + 1).drop_last() =~= v@.take(i as int));
        if v[i] != c {
            push_char(&mut r, v[i]);
        }
        i = i + 1;
    }
    assert(v@.take(i as int) =~= v@);
    r
}


/// Whether `needle` stands in `hay` at `at`.
pub open spec fn occurs_at(hay: Seq<char>, needle: Seq<char>, at: int) -> bool {
    0 <= at && at + needle.len() <= hay.len() && hay.subrange(at, at + needle.len()) == needle
}

/// Whether `needle` occurs in `hay`. The empty text occurs in every text.
pub open spec fn occurs_in(hay: Seq<char>, needle: Seq<char>) -> bool {
    exists|at: int| occurs_at(hay, needle, at)
}

/// Whether `needle` stands in `hay` at `at`.
fn matches_at(hay: &Vec<char>, needle: &Vec<char>, at: usize) -> (r: bool)
    requires
        at + needle@.len() <= hay@.len(),
    ensures
        r == occurs_at(hay@, needle@, at as int),
{
    let mut k: usize = 0;
    while k < needle.len()
        invariant
            k <= needle@.len(),
            at + needle@.len() <= hay@.len() == hay.len(),
            forall|j: int| 0 <= j < k ==> hay@[at + j] == needle@[j],
        decreases needle@.len() - k,
    {
        if hay[at + k] != needle[k] {
            assert(hay@.subrange(at as int, at + needle@.len())[k as int] != needle@[k as int]);
            return false;
        }
        k = k + 1;
    }
    assert(hay@.subrange(at as int, at + needle@.len()) =~= needle@);
    true
}

/// Whether `needle` occurs in `hay`.
pub fn contains(hay: &str, needle: &str) -> (r: bool)
    ensures
        r == occurs_in(hay@, needle@),
{
    let text = chars_of(hay);
    let part = chars_of(needle);
    if part.len() > text.len() {
        return false;
    }
    let last = text.len() - part.len();
    let mut at: usize = 0;
    loop
        invariant
            at <= last,
            last == text@.len() - part@.len(),
            text@ == hay@,
            part@ == needle@,
            forall|j: int| 0 <= j < at ==> !occurs_at(text@, part@, j),
        decreases last - at,
    {
        if matches_at(&text, &part, at) {
            assert(occurs_at(hay@, needle@, at as int));
            return true;
        }
        if at == last {
            return false;
        }
        at = at + 1;
    }
}

/// Where `s` starts once the white space at `s[from..]` is left out: the
/// place of the first character at or after `from` that is no white space, or
/// the end of `s`.
pub open spec fn trim_start(s: Seq<char>, from: int) -> int
    decreases s.len() - from,
{
    if from >= s.len() {
        s.len() as int
    } else if !char_is_whitespace(s[from]) {
        from
    } else {
        trim_start(s, from + 1)
    }
}

/// Where `s[..to]` ends once the white space at its end is left out.
pub open spec fn trim_end(s: Seq<char>, to: int) -> int
    decreases to,
{
    if to <= 0 {
        0
    } else if !char_is_whitespace(s[to - 1]) {
        to
    } else {
        trim_end(s, to - 1)
    }
}

/// `s` without the white space at its start and at its end.
pub open spec fn trimmed(s: Seq<char>) -> Seq<char> {
    if trim_start(s, 0) < trim_end(s, s.len() as int) {
        s.subrange(trim_start(s, 0), trim_end(s, s.len() as int))
    } else {
        Seq::empty()
    }
}

/// `v[from..to]` without the white space at its start and at its end.
pub(crate) fn trim(v: &Vec<char>, from: usize, to: usize) -> (r: String)
    requires
        from <= to <= v@.len(),
    ensures
        r@ == trimmed(v@.subrange(from as int, to as int)),
{
    let ghost s = v@.subrange(from as int, to as int);
    let mut start: usize = from;
    while start < to && is_whitespace(v[start])
        invariant
            from <= start <= to <= v@.len(),
            s == v@.subrange(from as int, to as int),
            trim_start(s, 0) == trim_start(s, start - from),
        decreases to - start,
    {
        start = start + 1;
    }
    let mut end: usize = to;
    while end > from && is_whitespace(v[end - 1])
        invariant
            from <= end <= to <= v@.len(),
            s == v@.subrange(from as int, to as int),
            trim_end(s, s.len() as int) == trim_end(s, end - from),
        decreases end,
    {
        end = end - 1;
    }
    if start < end {
        let r = string_of(v, start, end);
        assert(r@ =~= s.subrange(start - from, end - from));
        r
    } else {
        String::new()
    }
}

} // verus!
