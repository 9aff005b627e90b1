//! Character-level helpers: splitting a text on a separator, picking
//! pieces out of it, and removing a pattern from it. Everything here is
//! stated over `Seq<char>`, the view of `str` and `String`.

use vstd::prelude::*;

verus! {

/// The pieces of `s` that lie between occurrences of `sep`, in order.
///
/// There is always at least one piece; a text of `n` separators has `n + 1`
/// pieces, some of which may be empty.
pub open spec fn split(s: Seq<char>, sep: char) -> Seq<Seq<char>>
    decreases s.len(),
{
    if s.len() == 0 {
        seq![Seq::<char>::empty()]
    } else {
        let before = split(s.drop_last(), sep);
        if s.last() == sep {
            before.push(Seq::<char>::empty())
        } else {
            before.drop_last().push(before.last().push(s.last()))
        }
    }
}

/// The last piece that holds at least one character, if there is one.
pub open spec fn last_non_empty(pieces: Seq<Seq<char>>) -> Option<Seq<char>>
    decreases pieces.len(),
{
    if pieces.len() == 0 {
        None
    } else if pieces.last().len() > 0 {
        Some(pieces.last())
    } else {
        last_non_empty(pieces.drop_last())
    }
}

/// Whether `pattern` stands at the start of `text`.
pub open spec fn starts_with(text: Seq<char>, pattern: Seq<char>) -> bool {
    pattern.len() <= text.len() && text.take(pattern.len() as int) == pattern
}

/// `text` without the occurrences of `pattern`, found from left to right;
/// an occurrence begins only after the end of the one before it. An empty
/// pattern occurs nowhere.
pub open spec fn without(text: Seq<char>, pattern: Seq<char>) -> Seq<char>
    decreases text.len(),
{
    if text.len() == 0 || pattern.len() == 0 {
        text
    } else if starts_with(text, pattern) {
        without(text.skip(pattern.len() as int), pattern)
    } else {
        seq![text[0]] + without(text.skip(1), pattern)
    }
}

/// `split` never returns an empty list of pieces.
pub proof fn lemma_split_non_empty(s: Seq<char>, sep: char)
    ensures
        split(s, sep).len() >= 1,
    decreases s.len(),
{
    if s.len() > 0 {
        lemma_split_non_empty(s.drop_last(), sep);
    }
}

/// No piece of a split holds the separator.
pub proof fn lemma_split_pieces_hold_no_separator(s: Seq<char>, sep: char)
    ensures
        forall|p: int, i: int|
            0 <= p < split(s, sep).len() && 0 <= i < split(s, sep)[p].len() ==> split(
                s,
                sep,
            )[p][i] != sep,
    decreases s.len(),
{
    if s.len() > 0 {
        lemma_split_non_empty(s.drop_last(), sep);
        lemma_split_pieces_hold_no_separator(s.drop_last(), sep);
    }
}

/// The last non-empty piece is one of the pieces, and it is not empty.
pub proof fn lemma_last_non_empty_is_a_piece(pieces: Seq<Seq<char>>)
    requires
        last_non_empty(pieces) is Some,
    ensures
        last_non_empty(pieces)->Some_0.len() > 0,
        exists|p: int| 0 <= p < pieces.len() && pieces[p] == last_non_empty(pieces)->Some_0,
    decreases pieces.len(),
{
    if pieces.len() > 0 && pieces.last().len() == 0 {
        lemma_last_non_empty_is_a_piece(pieces.drop_last());
    }
}

/// The last piece of the first `end` characters of `s` is the run
/// `s[start..end]`, whenever that run holds no separator and begins either
/// at the start of `s` or right after a separator.
pub proof fn lemma_last_piece(s: Seq<char>, sep: char, start: int, end: int)
    requires
        0 <= start <= end <= s.len(),
        forall|i: int| start <= i < end ==> s[i] != sep,
        start == 0 || s[start - 1] == sep,
    ensures
        split(s.take(end), sep).len() >= 1,
        split(s.take(end), sep).last() == s.subrange(start, end),
    decreases end - start,
{
    lemma_split_non_empty(s.take(end), sep);
    if start < end {
        assert(s.take(end).drop_last() =~= s.take(end - 1));
        lemma_last_piece(s, sep, start, end - 1);
    }
}

/// Separators at the end of a text add only empty pieces, so they do not
/// change which piece is the last non-empty one.
pub proof fn lemma_trailing_separator(s: Seq<char>, sep: char)
    requires
        s.len() > 0,
        s.last() == sep,
    ensures
        last_non_empty(split(s, sep)) == last_non_empty(split(s.drop_last(), sep)),
{
    let before = split(s.drop_last(), sep);
    assert(split(s, sep).drop_last() =~= before);
}

/// The view of a text result: the text by its characters, the error as it is.
pub open spec fn text_result<E>(r: Result<String, E>) -> Result<Seq<char>, E> {
    match r {
        Ok(text) => Ok(text@),
        Err(e) => Err(e),
    }
}

/// `std::string::String::push` appends one character to the end of the
/// string and changes nothing else.
pub assume_specification[ String::push ](text: &mut String, c: char)
    ensures
        final(text)@ == old(text)@.push(c),
;

/// The characters of `s`, in order.
pub fn chars_of(s: &str) -> (chars: Vec<char>)
    ensures
        chars@ == s@,
{
    let mut chars: Vec<char> = Vec::new();
    for c in it: s.chars()
        invariant
            chars@ == it.seq().take(it.index() as int),
            it.seq() == s@,
    {
        chars.push(c);
    }
    chars
}

/// The last non-empty piece of `path` split on `'/'`; `None` when every
/// piece is empty, that is when `path` is empty or holds nothing but slashes.
pub fn last_segment(path: &str) -> (name: Option<String>)
    ensures
        name.deep_view() == last_non_empty(split(path@, '/')),
{
    let chars = chars_of(path);
    let mut end: usize = chars.len();
    assert(path@.take(end as int) =~= path@);
    while end > 0 && chars[end - 1] == '/'
        invariant
            chars@ == path@,
            end <= chars.len(),
            last_non_empty(split(path@, '/')) == last_non_empty(
                split(path@.take(end as int), '/'),
            ),
        decreases end,
    {
        proof {
            lemma_trailing_separator(path@.take(end as int), '/');
            assert(path@.take(end as int).drop_last() =~= path@.take(end - 1));
        }
        end = end - 1;
    }
    if end == 0 {
        assert(split(Seq::<char>::empty(), '/').drop_last() =~= Seq::<Seq<char>>::empty());
        assert(last_non_empty(Seq::<Seq<char>>::empty()) is None);
        return None;
    }
    let mut start: usize = end - 1;
    while start > 0 && chars[start - 1] != '/'
        invariant
            chars@ == path@,
            start < end <= chars.len(),
            forall|i: int| start <= i < end ==> path@[i] != '/',
        decreases start,
    {
        start = start - 1;
    }
    proof {
        lemma_last_piece(path@, '/', start as int, end as int);
    }
    let name = path.substring_char(start, end).to_owned();
    Some(name)
}

/// Whether `pattern` stands in `chars` at position `at`.
fn occurs_at(chars: &Vec<char>, at: usize, pattern: &Vec<char>) -> (found: bool)
    requires
        at <= chars.len(),
    ensures
        found == starts_with(chars@.skip(at as int), pattern@),
{
    if pattern.len() > chars.len() - at {
        return false;
    }
    let mut matched: usize = 0;
    while matched < pattern.len()
        invariant
            matched <= pattern.len(),
            at + pattern.len() <= chars.len(),
            forall|i: int| 0 <= i < matched ==> chars@[at + i] == pattern@[i],
        decreases pattern.len() - matched,
    {
        if chars[at + matched] != pattern[matched] {
            return false;
        }
        matched = matched + 1;
    }
    assert(chars@.skip(at as int).take(pattern.len() as int) =~= pattern@);
    true
}

/// Removes every occurrence of `pattern` from `text`.
pub fn remove_all(text: &str, pattern: &str) -> (rest: String)
    ensures
        rest@ == without(text@, pattern@),
{
    let chars = chars_of(text);
    let sought = chars_of(pattern);
    if sought.len() == 0 {
        return text.to_owned();
    }
    let mut rest = String::new();
    let mut at: usize = 0;
    assert(text@.skip(0) =~= text@);
    while at < chars.len()
        invariant
            chars@ == text@,
            sought@ == pattern@,
            sought.len() > 0,
            at <= chars.len(),
            without(text@, pattern@) == rest@ + without(text@.skip(at as int), pattern@),
        decreases chars.len() - at,
    {
        let ghost tail = text@.skip(at as int);
        if occurs_at(&chars, at, &sought) {
            assert(tail.skip(sought.len() as int) =~= text@.skip(at + sought.len()));
            at = at + sought.len();
        } else {
            assert(tail.skip(1) =~= text@.skip(at + 1));
            rest.push(chars[at]);
            at = at + 1;
        }
    }
    rest
}

} // verus!
