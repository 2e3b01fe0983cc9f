//! Small helpers on text.

use vstd::prelude::*;

verus! {

/// Whether two pieces of text are the same.
pub fn same_text(a: &str, b: &str) -> (r: bool)
    ensures
        r == (a@ == b@),
{
    a.to_owned() == b.to_owned()
}

/// Whether two lists of characters are the same.
pub fn same_chars(a: &Vec<char>, b: &Vec<char>) -> (r: bool)
    ensures
        r == (a@ == b@),
{
    if a.len() != b.len() {
        return false;
    }
    let mut i: usize = 0;
    while i < a.len()
        invariant
            i <= a.len(),
            a.len() == b.len(),
            forall|k: int| 0 <= k < i ==> a@[k] == b@[k],
        decreases a.len() - i,
    {
        if a[i] != b[i] {
            return false;
        }
        i += 1;
    }
    assert(a@ =~= b@);
    true
}

/// The characters of `text`.
pub fn chars_of(text: &str) -> (r: Vec<char>)
    ensures
        r@ == text@,
{
    let mut found: Vec<char> = Vec::new();
    for c in it: text.chars()
        invariant
            found@ == it.seq().take(it.index() as int),
            it.seq() == text@,
    {
        found.push(c);
    }
    found
}

/// The pieces of `text` between the occurrences of `separator`. Text
/// without one is one piece, and so is empty text; a separator at either
/// end borders on an empty piece.
pub open spec fn pieces(text: Seq<char>, separator: char) -> Seq<Seq<char>>
    decreases text.len(),
{
    if text.len() == 0 {
        seq![Seq::empty()]
    } else {
        let before = pieces(text.drop_last(), separator);
        if text.last() == separator {
            before.push(Seq::empty())
        } else {
            before.update(before.len() - 1, before.last().push(text.last()))
        }
    }
}

/// Text has more pieces than one exactly where it holds the separator.
pub proof fn pieces_tell_separators(text: Seq<char>, separator: char)
    ensures
        pieces(text, separator).len() >= 1,
        pieces(text, separator).len() >= 2 <==> text.contains(separator),
    decreases text.len(),
{
    if text.len() > 0 {
        let before = text.drop_last();
        pieces_tell_separators(before, separator);
        if text.last() == separator {
            assert(text[text.len() - 1] == separator);
        } else if before.contains(separator) {
            let i = choose|i: int| 0 <= i < before.len() && before[i] == separator;
            assert(text[i] == separator);
        } else if text.contains(separator) {
            let i = choose|i: int| 0 <= i < text.len() && text[i] == separator;
            assert(before[i] == separator);
        }
    }
}

/// Splits `text` at each `separator`.
pub fn split_text(text: &Vec<char>, separator: char) -> (r: Vec<Vec<char>>)
    ensures
        r@.len() == pieces(text@, separator).len(),
        forall|i: int| 0 <= i < r@.len() ==> (#[trigger] r@[i])@ == pieces(text@, separator)[i],
{
    let mut parts: Vec<Vec<char>> = Vec::new();
    let mut piece: Vec<char> = Vec::new();
    let mut n: usize = 0;
    assert(text@.take(0) =~= Seq::empty());
    while n < text.len()
        invariant
            n <= text.len(),
            parts@.len() + 1 == pieces(text@.take(n as int), separator).len(),
            forall|i: int|
                0 <= i < parts@.len() ==> (#[trigger] parts@[i])@ == pieces(text@.take(n as int), separator)[i],
            piece@ == pieces(text@.take(n as int), separator).last(),
        decreases text.len() - n,
    {
        assert(text@.take(n + 1).drop_last() =~= text@.take(n as int));
        assert(text@.take(n + 1).last() == text@[n as int]);
        let c = text[n];
        if c == separator {
            parts.push(piece);
            piece = Vec::new();
        } else {
            piece.push(c);
        }
        n += 1;
    }
    assert(text@.take(n as int) =~= text@);
    parts.push(piece);
    parts
}

/// `needle` stands in `haystack` from position `i` on.
pub open spec fn occurs_at(haystack: Seq<char>, needle: Seq<char>, i: int) -> bool {
    0 <= i && i + needle.len() <= haystack.len() && haystack.subrange(i, i + needle.len()) == needle
}

/// `needle` stands somewhere in `haystack`. Empty text stands in every
/// text.
pub open spec fn contains_text(haystack: Seq<char>, needle: Seq<char>) -> bool {
    exists|i: int| occurs_at(haystack, needle, i)
}

/// Whether `needle` stands in `haystack` from position `i` on.
pub fn stands_at(haystack: &Vec<char>, needle: &Vec<char>, i: usize) -> (r: bool)
    requires
        i + needle.len() <= haystack.len(),
    ensures
        r == occurs_at(haystack@, needle@, i as int),
{
    let mut k: usize = 0;
    while k < needle.len()
        invariant
            k <= needle.len(),
            i + needle.len() <= haystack.len(),
            forall|x: int| 0 <= x < k ==> haystack@[i + x] == needle@[x],
        decreases needle.len() - k,
    {
        if haystack[i + k] != needle[k] {
            assert(haystack@.subrange(i as int, i + needle.len())[k as int] != needle@[k as int]);
            return false;
        }
        k += 1;
    }
    assert(haystack@.subrange(i as int, i + needle.len()) =~= needle@);
    true
}

/// Whether `needle` stands somewhere in `haystack`.
pub fn has_text(haystack: &Vec<char>, needle: &Vec<char>) -> (r: bool)
    ensures
        r == contains_text(haystack@, needle@),
{
    if needle.len() > haystack.len() {
        return false;
    }
    let last: usize = haystack.len() - needle.len();
    let mut i: usize = 0;
    loop
        invariant
            i <= last,
            last == haystack.len() - needle.len(),
            needle.len() <= haystack.len(),
            forall|x: int| 0 <= x < i ==> !occurs_at(haystack@, needle@, x),
        decreases last - i,
    {
        if stands_at(haystack, needle, i) {
            return true;
        }
        if i == last {
            return false;
        }
        i += 1;
    }
}

} // verus!
