//! Operations on text: the sequences of characters behind strings.

use vstd::prelude::*;

verus! {

/// `s` without its spaces.
pub open spec fn squeeze(s: Seq<char>) -> Seq<char> {
    s.filter(|c: char| c != ' ')
}

/// The pieces written one after the other, with `sep` between a piece and the
/// next.
pub open spec fn joined(pieces: Seq<Seq<char>>, sep: char) -> Seq<char>
    decreases pieces.len(),
{
    if pieces.len() == 0 {
        Seq::empty()
    } else if pieces.len() == 1 {
        pieces[0]
    } else {
        joined(pieces.drop_last(), sep) + seq![sep] + pieces.last()
    }
}

/// The pieces into which the occurrences of `sep` cut `s`: one more piece
/// than there are occurrences, so at least one.
pub open spec fn split(s: Seq<char>, sep: char) -> Seq<Seq<char>>
    decreases s.len(),
{
    if s.len() == 0 {
        seq![Seq::<char>::empty()]
    } else if s.last() == sep {
        split(s.drop_last(), sep).push(Seq::<char>::empty())
    } else {
        let before = split(s.drop_last(), sep);
        before.drop_last().push(before.last().push(s.last()))
    }
}

/// The texts of a list of strings.
pub open spec fn texts(list: Seq<String>) -> Seq<Seq<char>> {
    Seq::new(list.len(), |i: int| list[i]@)
}

/// Appends to `out` the text of `s` without its spaces.
pub(crate) fn push_squeezed(out: &mut String, s: &str)
    ensures
        final(out)@ == old(out)@ + squeeze(s@),
{
    let n = s.unicode_len();
    let mut i: usize = 0;
    proof {
        reveal(Seq::filter);
        assert(s@.subrange(0, 0) =~= Seq::<char>::empty());
        assert(old(out)@ + squeeze(Seq::<char>::empty()) =~= old(out)@);
    }
    while i < n
        invariant
            i <= n,
            n == s@.len(),
            out@ == old(out)@ + squeeze(s@.subrange(0, i as int)),
        decreases n - i,
    {
        let c = s.get_char(i);
        let ghost before = s@.subrange(0, i as int);
        let ghost after = s@.subrange(0, i + 1);
        assert(after.drop_last() =~= before);
        assert(after.last() == c);
        proof {
            reveal(Seq::filter);
        }
        if c != ' ' {
            let piece = s.substring_char(i, i + 1);
            assert(piece@ =~= seq![c]);
            out.append(piece);
            assert(out@ =~= old(out)@ + squeeze(after));
        }
        i = i + 1;
    }
    assert(s@.subrange(0, n as int) =~= s@);
}

/// Whether some string of `list` has the text of `name`.
pub(crate) fn listed(list: &Vec<String>, name: &String) -> (found: bool)
    ensures
        found == texts(list@).contains(name@),
{
    let mut i: usize = 0;
    while i < list.len()
        invariant
            i <= list.len(),
            forall|j: int| 0 <= j < i ==> list@[j]@ != name@,
        decreases list.len() - i,
    {
        if list[i] == *name {
            assert(texts(list@)[i as int] == name@);
            return true;
        }
        i = i + 1;
    }
    false
}

/// The tokens written one after the other, each without its spaces.
pub open spec fn squeezed(tokens: Seq<Seq<char>>) -> Seq<char>
    decreases tokens.len(),
{
    if tokens.len() == 0 {
        Seq::empty()
    } else {
        squeezed(tokens.drop_last()) + squeeze(tokens.last())
    }
}

/// The tokens written one after the other, with one space between a token
/// and the next.
pub open spec fn spaced(tokens: Seq<Seq<char>>) -> Seq<char> {
    joined(tokens, ' ')
}

/// What `split` is: there is at least one piece, no piece holds the
/// separator, and the pieces with the separator between them are the text.
pub proof fn law_split(s: Seq<char>, sep: char)
    ensures
        split(s, sep).len() >= 1,
        forall|i: int| 0 <= i < split(s, sep).len() ==> !(#[trigger] split(s, sep)[i]).contains(sep),
        joined(split(s, sep), sep) == s,
    decreases s.len(),
{
    let pieces = split(s, sep);
    if s.len() == 0 {
        assert(pieces[0] =~= s);
    } else {
        let before = split(s.drop_last(), sep);
        law_split(s.drop_last(), sep);
        assert(s =~= s.drop_last().push(s.last()));
        if s.last() == sep {
            assert(pieces.drop_last() =~= before);
            assert(joined(pieces, sep) =~= s);
        } else {
            let grown = before.last().push(s.last());
            assert(pieces.last() == grown);
            assert(pieces.drop_last() =~= before.drop_last());
            assert(joined(pieces, sep) =~= joined(before, sep).push(s.last()));
            assert forall|i: int| 0 <= i < pieces.len() implies !(#[trigger] pieces[i]).contains(
                sep,
            ) by {
                if i == pieces.len() - 1 {
                    assert(forall|j: int| 0 <= j < grown.len() - 1 ==> grown[j] == before.last()[j]);
                    assert(!before.last().contains(sep));
                } else {
                    assert(pieces[i] == before[i]);
                }
            }
        }
    }
}

/// The strings of `tokens` written one after the other, each without its
/// spaces.
pub(crate) fn join_squeezed(tokens: &Vec<String>) -> (joined: String)
    ensures
        joined@ == squeezed(texts(tokens@)),
{
    let ghost all = texts(tokens@);
    let mut joined = String::new();
    let mut i: usize = 0;
    while i < tokens.len()
        invariant
            i <= tokens.len(),
            all == texts(tokens@),
            joined@ == squeezed(all.subrange(0, i as int)),
        decreases tokens.len() - i,
    {
        assert(all.subrange(0, i + 1).drop_last() =~= all.subrange(0, i as int));
        push_squeezed(&mut joined, tokens[i].as_str());
        i = i + 1;
    }
    assert(all.subrange(0, tokens.len() as int) =~= all);
    joined
}

/// The strings of `tokens` written one after the other, with one space
/// between a string and the next.
pub(crate) fn join_spaced(tokens: &Vec<String>) -> (joined: String)
    ensures
        joined@ == spaced(texts(tokens@)),
{
    let ghost all = texts(tokens@);
    let mut joined = String::new();
    let mut i: usize = 0;
    while i < tokens.len()
        invariant
            i <= tokens.len(),
            all == texts(tokens@),
            joined@ == spaced(all.subrange(0, i as int)),
        decreases tokens.len() - i,
    {
        let ghost after = all.subrange(0, i + 1);
        assert(after.drop_last() =~= all.subrange(0, i as int));
        if i > 0 {
            proof {
                reveal_strlit(" ");
            }
            joined.append(" ");
            assert(" "@ =~= seq![' ']);
        }
        joined.append(tokens[i].as_str());
        assert(after.len() == 1 ==> after[0] == after.last());
        assert(joined@ =~= spaced(after));
        i = i + 1;
    }
    assert(all.subrange(0, tokens.len() as int) =~= all);
    joined
}

/// Whether `s` has the text of `word`.
pub(crate) fn reads(s: &String, word: &str) -> (same: bool)
    ensures
        same == (s@ == word@),
{
    *s == String::from_str(word)
}

/// `s` without its first and its last character.
pub open spec fn inside(s: Seq<char>) -> Seq<char>
    recommends
        s.len() >= 2,
{
    s.subrange(1, s.len() - 1)
}

/// Whether `s` stands between the characters `open` and `close`.
pub open spec fn enclosed(s: Seq<char>, open: char, close: char) -> bool {
    s.len() >= 2 && s.first() == open && s.last() == close
}

/// Whether `s` stands between the characters `open` and `close`.
pub(crate) fn is_enclosed(s: &str, open: char, close: char) -> (yes: bool)
    ensures
        yes == enclosed(s@, open, close),
{
    let n = s.unicode_len();
    n >= 2 && s.get_char(0) == open && s.get_char(n - 1) == close
}

/// A string of what stands between the first and the last character of `s`.
pub(crate) fn inner(s: &str) -> (middle: String)
    requires
        s@.len() >= 2,
    ensures
        middle@ == inside(s@),
{
    let n = s.unicode_len();
    String::from_str(s.substring_char(1, n - 1))
}

/// A string of the text of `s` without its spaces.
pub(crate) fn squeezed_text(s: &str) -> (tight: String)
    ensures
        tight@ == squeeze(s@),
{
    let mut tight = String::new();
    push_squeezed(&mut tight, s);
    assert(Seq::<char>::empty() + squeeze(s@) =~= squeeze(s@));
    tight
}

/// The pieces into which the occurrences of `sep` cut `s`.
pub(crate) fn split_text(s: &str, sep: char) -> (pieces: Vec<String>)
    ensures
        texts(pieces@) == split(s@, sep),
{
    let n = s.unicode_len();
    let mut pieces: Vec<String> = Vec::new();
    let mut start: usize = 0;
    let mut i: usize = 0;
    assert(s@.subrange(0, 0) =~= Seq::<char>::empty());
    assert(split(s@.subrange(0, 0), sep) =~= texts(pieces@).push(s@.subrange(0, 0)));
    while i < n
        invariant
            start <= i <= n,
            n == s@.len(),
            split(s@.subrange(0, i as int), sep) == texts(pieces@).push(
                s@.subrange(start as int, i as int),
            ),
        decreases n - i,
    {
        let ghost before = s@.subrange(0, i as int);
        let ghost after = s@.subrange(0, i + 1);
        let ghost done = texts(pieces@);
        let ghost piece = s@.subrange(start as int, i as int);
        assert(after.drop_last() =~= before);
        assert(after.last() == s@[i as int]);
        assert(done.push(piece).drop_last() =~= done);
        if s.get_char(i) == sep {
            pieces.push(String::from_str(s.substring_char(start, i)));
            start = i + 1;
            assert(texts(pieces@) =~= done.push(piece));
            assert(s@.subrange(start as int, i + 1) =~= Seq::<char>::empty());
        } else {
            assert(s@.subrange(start as int, i + 1) =~= piece.push(s@[i as int]));
        }
        i = i + 1;
    }
    assert(s@.subrange(0, n as int) =~= s@);
    let ghost done = texts(pieces@);
    pieces.push(String::from_str(s.substring_char(start, n)));
    assert(texts(pieces@) =~= done.push(s@.subrange(start as int, n as int)));
    pieces
}

} // verus!
