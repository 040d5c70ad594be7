//! Splitting a text at a separator and joining the pieces again.
//!
//! The API transmits a list as one text with `,` between the entries. `split`
//! and `join` say what the two directions mean; `split_comma` and `join_comma`
//! compute them.

use vstd::prelude::*;

verus! {

/// How many characters of `s` come before the first `sep`; the length of `s`
/// where it holds no `sep`.
pub open spec fn reach(s: Seq<char>, sep: char) -> int
    decreases s.len(),
{
    if s.len() == 0 || s[0] == sep {
        0
    } else {
        1 + reach(s.drop_first(), sep)
    }
}

/// The pieces of `s` that lie between the occurrences of `sep`, in order. A
/// text without `sep` is one piece, the empty text too; `n` separators always
/// give `n + 1` pieces, some of which may be empty.
pub open spec fn split(s: Seq<char>, sep: char) -> Seq<Seq<char>>
    decreases s.len(),
{
    let n = reach(s, sep);
    if n < 0 || n >= s.len() {
        seq![s]
    } else {
        seq![s.take(n)] + split(s.skip(n + 1), sep)
    }
}

/// The pieces in order, with one `sep` between neighbours.
pub open spec fn join(pieces: Seq<Seq<char>>, sep: char) -> Seq<char>
    decreases pieces.len(),
{
    if pieces.len() == 0 {
        Seq::empty()
    } else if pieces.len() == 1 {
        pieces[0]
    } else {
        join(pieces.drop_last(), sep) + seq![sep] + pieces.last()
    }
}

/// `reach` finds position `k` where no `sep` comes before it and either a
/// `sep` stands there or the text ends there.
pub proof fn lemma_reach(s: Seq<char>, sep: char, k: int)
    requires
        0 <= k <= s.len(),
        forall|j: int| 0 <= j < k ==> s[j] != sep,
        k < s.len() ==> s[k] == sep,
    ensures
        reach(s, sep) == k,
    decreases s.len(),
{
    if k > 0 {
        lemma_reach(s.drop_first(), sep, k - 1);
    }
}

/// Splits a text at each `,`, keeping every piece as it stands.
pub fn split_comma(s: &str) -> (pieces: Vec<String>)
    ensures
        pieces.deep_view() == split(s@, ','),
{
    let n = s.unicode_len();
    let mut pieces: Vec<String> = Vec::new();
    let mut start: usize = 0;
    let mut i: usize = 0;
    assert(s@.skip(0) == s@);
    assert(pieces.deep_view() == Seq::<Seq<char>>::empty());
    for c in it: s.chars()
        invariant
            it.seq() == s@,
            i == it.index(),
            start <= i <= n,
            n == s@.len(),
            forall|j: int| start <= j < i ==> s@[j] != ',',
            split(s@, ',') == pieces.deep_view() + split(s@.skip(start as int), ','),
    {
        if c == ',' {
            let piece = s.substring_char(start, i).to_owned();
            proof {
                let rest = s@.skip(start as int);
                lemma_reach(rest, ',', i - start);
                assert(rest.take(i - start) == s@.subrange(start as int, i as int));
                assert(rest.skip(i - start + 1) == s@.skip(i + 1));
                assert(pieces.deep_view().push(piece@) + split(s@.skip(i + 1), ',')
                    == pieces.deep_view() + (seq![piece@] + split(s@.skip(i + 1), ',')));
            }
            let ghost before = pieces.deep_view();
            pieces.push(piece);
            assert(pieces.deep_view() == before.push(piece@));
            start = i + 1;
        }
        i += 1;
    }
    let piece = s.substring_char(start, n).to_owned();
    proof {
        let rest = s@.skip(start as int);
        lemma_reach(rest, ',', n - start);
        assert(rest == s@.subrange(start as int, n as int));
    }
    let ghost before = pieces.deep_view();
    pieces.push(piece);
    assert(pieces.deep_view() == before.push(piece@));
    pieces
}

/// Joins the pieces with a `,` between neighbours.
pub fn join_comma(pieces: &Vec<String>) -> (s: String)
    ensures
        s@ == join(pieces.deep_view(), ','),
{
    let mut s = String::new();
    let mut i: usize = 0;
    proof {
        reveal_strlit(",");
        assert(pieces.deep_view().take(0) == Seq::<Seq<char>>::empty());
    }
    while i < pieces.len()
        invariant
            i <= pieces.len(),
            ","@ == seq![','],
            s@ == join(pieces.deep_view().take(i as int), ','),
        decreases pieces.len() - i,
    {
        if i > 0 {
            s.append(",");
        }
        s.append(pieces[i].as_str());
        proof {
            let upto = pieces.deep_view().take(i + 1);
            assert(upto.drop_last() == pieces.deep_view().take(i as int));
            assert(upto.last() == pieces[i as int]@);
        }
        i += 1;
    }
    assert(pieces.deep_view().take(i as int) == pieces.deep_view());
    s
}

/// What `reach` returns is a position in the text or its end, no `sep` comes
/// before it, and a `sep` stands there unless the text ends there.
pub proof fn lemma_reach_is_first(s: Seq<char>, sep: char)
    ensures
        0 <= reach(s, sep) <= s.len(),
        forall|j: int| 0 <= j < reach(s, sep) ==> s[j] != sep,
        reach(s, sep) < s.len() ==> s[reach(s, sep)] == sep,
    decreases s.len(),
{
    if s.len() > 0 && s[0] != sep {
        let rest = s.drop_first();
        lemma_reach_is_first(rest, sep);
        assert forall|j: int| 0 <= j < reach(s, sep) implies s[j] != sep by {
            if j > 0 {
                assert(s[j] == rest[j - 1]);
            }
        }
        assert(reach(rest, sep) < rest.len() ==> s[reach(s, sep)] == rest[reach(rest, sep)]);
    }
}

/// A text without `sep` is a single piece.
pub proof fn lemma_split_plain(s: Seq<char>, sep: char)
    requires
        !s.contains(sep),
    ensures
        split(s, sep) == seq![s],
{
    lemma_reach_is_first(s, sep);
}

/// Joining a first piece and at least one more puts the first piece, then one
/// `sep`, then the others joined.
pub proof fn lemma_join_front(first: Seq<char>, others: Seq<Seq<char>>, sep: char)
    requires
        others.len() > 0,
    ensures
        join(seq![first] + others, sep) == first + seq![sep] + join(others, sep),
    decreases others.len(),
{
    let all = seq![first] + others;
    assert(all.last() == others.last());
    if others.len() == 1 {
        assert(all.drop_last() == seq![first]);
        assert(join(all.drop_last(), sep) == first);
    } else {
        lemma_join_front(first, others.drop_last(), sep);
        assert(all.drop_last() == seq![first] + others.drop_last());
        let inner = join(others.drop_last(), sep);
        assert((first + seq![sep] + inner) + seq![sep] + others.last()
            == first + seq![sep] + (inner + seq![sep] + others.last()));
    }
}

/// Splitting a text and joining the pieces with the same separator gives the
/// text back, whatever the text.
pub proof fn lemma_join_split(s: Seq<char>, sep: char)
    ensures
        split(s, sep).len() >= 1,
        join(split(s, sep), sep) == s,
    decreases s.len(),
{
    lemma_reach_is_first(s, sep);
    let n = reach(s, sep);
    if n < s.len() {
        let rest = s.skip(n + 1);
        lemma_join_split(rest, sep);
        lemma_join_front(s.take(n), split(rest, sep), sep);
        assert(s.take(n) + seq![sep] + rest == s);
    }
}

/// Splitting two texts that were put together with one `sep` between them
/// gives the pieces of the first followed by the pieces of the second.
pub proof fn lemma_split_concat(a: Seq<char>, b: Seq<char>, sep: char)
    ensures
        split(a + seq![sep] + b, sep) == split(a, sep) + split(b, sep),
    decreases a.len(),
{
    let whole = a + seq![sep] + b;
    lemma_reach_is_first(a, sep);
    let n = reach(a, sep);
    lemma_reach(whole, sep, n);
    assert(whole.take(n) == a.take(n));
    if n < a.len() {
        let rest = a.skip(n + 1);
        lemma_split_concat(rest, b, sep);
        assert(whole.skip(n + 1) == rest + seq![sep] + b);
    } else {
        assert(a.take(n) == a);
        assert(whole.skip(n + 1) == b);
    }
}

/// Joining pieces of which none holds the separator, and splitting the result,
/// gives the pieces back. It fails for no pieces at all, which join to the
/// empty text, and that splits into one empty piece.
pub proof fn lemma_split_join(pieces: Seq<Seq<char>>, sep: char)
    requires
        pieces.len() >= 1,
        forall|i: int| 0 <= i < pieces.len() ==> !(#[trigger] pieces[i]).contains(sep),
    ensures
        split(join(pieces, sep), sep) == pieces,
    decreases pieces.len(),
{
    lemma_split_plain(pieces.last(), sep);
    if pieces.len() > 1 {
        let front = pieces.drop_last();
        lemma_split_join(front, sep);
        lemma_split_concat(join(front, sep), pieces.last(), sep);
        assert(front + seq![pieces.last()] == pieces);
    }
}

} // verus!
