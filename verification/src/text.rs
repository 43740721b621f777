//! Texts as sequences of characters: comparing, splitting, searching.
use vstd::prelude::*;
use vstd::std_specs::iter::IteratorSpec;
use vstd::string::StrSliceExecFns;

verus! {

/// The pieces of `s` between occurrences of `sep`, in order.
///
/// A text without any separator is its own single piece, so the result is
/// never empty; two adjacent separators enclose an empty piece, and so do a
/// separator at either end and that end.
pub open spec fn split_on(s: Seq<char>, sep: char) -> Seq<Seq<char>>
    decreases s.len(),
{
    if s.len() == 0 {
        seq![Seq::<char>::empty()]
    } else {
        let before = split_on(s.drop_last(), sep);
        if s.last() == sep {
            before.push(Seq::<char>::empty())
        } else {
            before.drop_last().push(before.last().push(s.last()))
        }
    }
}

/// The character sequences that a list of strings stands for.
pub open spec fn texts(v: Seq<String>) -> Seq<Seq<char>> {
    v.map_values(|s: String| s@)
}

/// The pieces put together again, with `sep` between each two neighbours.
pub open spec fn join_with(pieces: Seq<Seq<char>>, sep: char) -> Seq<char>
    decreases pieces.len(),
{
    if pieces.len() == 0 {
        Seq::<char>::empty()
    } else if pieces.len() == 1 {
        pieces[0]
    } else {
        join_with(pieces.drop_last(), sep).push(sep) + pieces.last()
    }
}

/// A split always yields at least one piece.
pub proof fn lemma_split_on_nonempty(s: Seq<char>, sep: char)
    ensures
        split_on(s, sep).len() >= 1,
    decreases s.len(),
{
    if s.len() > 0 {
        lemma_split_on_nonempty(s.drop_last(), sep);
    }
}

/// No piece of a split holds the separator.
pub proof fn lemma_split_on_pieces_lack_separator(s: Seq<char>, sep: char)
    ensures
        forall|i: int, j: int|
            0 <= i < split_on(s, sep).len() && 0 <= j < split_on(s, sep)[i].len()
                ==> #[trigger] split_on(s, sep)[i][j] != sep,
    decreases s.len(),
{
    if s.len() > 0 {
        lemma_split_on_pieces_lack_separator(s.drop_last(), sep);
        lemma_split_on_nonempty(s.drop_last(), sep);
        let before = split_on(s.drop_last(), sep);
        let pieces = split_on(s, sep);
        assert forall|i: int, j: int|
            0 <= i < pieces.len() && 0 <= j < pieces[i].len() implies #[trigger] pieces[i][j]
            != sep by {
            if s.last() == sep {
                if i < before.len() {
                    assert(pieces[i][j] == before[i][j]);
                }
            } else {
                if i < before.len() - 1 {
                    assert(pieces[i][j] == before[i][j]);
                } else if j < before.last().len() {
                    assert(pieces[i][j] == before[before.len() - 1][j]);
                }
            }
        }
    }
}

/// Joining the pieces of a split with the separator gives the text back, so
/// a split loses nothing and changes no order.
pub proof fn lemma_split_on_joins_back(s: Seq<char>, sep: char)
    ensures
        join_with(split_on(s, sep), sep) == s,
    decreases s.len(),
{
    if s.len() == 0 {
        assert(join_with(split_on(s, sep), sep) =~= s);
    } else {
        lemma_split_on_joins_back(s.drop_last(), sep);
        lemma_split_on_nonempty(s.drop_last(), sep);
        let before = split_on(s.drop_last(), sep);
        let pieces = split_on(s, sep);
        if s.last() == sep {
            assert(pieces.drop_last() =~= before);
            assert(join_with(pieces, sep) =~= s.drop_last().push(sep));
        } else if before.len() == 1 {
            assert(pieces[0] =~= before[0].push(s.last()));
            assert(join_with(pieces, sep) =~= s.drop_last().push(s.last()));
        } else {
            assert(pieces.drop_last() =~= before.drop_last());
            assert(join_with(pieces, sep) =~= join_with(before, sep).push(s.last()));
        }
        assert(s.drop_last().push(s.last()) =~= s);
    }
}

/// Whether two string slices hold the same characters.
pub fn same_text(a: &str, b: &str) -> (r: bool)
    ensures
        r == (a@ == b@),
{
    let x = a.to_owned();
    let y = b.to_owned();
    x == y
}

/// The characters of `s`, in order.
pub fn chars_of(s: &str) -> (v: Vec<char>)
    ensures
        v@ == s@,
{
    let mut v: Vec<char> = Vec::new();
    for c in it: s.chars()
        invariant
            v@ == it.seq().take(it.index() as int),
    {
        v.push(c);
    }
    v
}

/// Splits `value` at every `sep`, as `split_on` describes.
pub fn split_text(value: &str, sep: char) -> (parts: Vec<String>)
    ensures
        texts(parts@) == split_on(value@, sep),
{
    let chars = chars_of(value);
    let mut parts: Vec<String> = Vec::new();
    let mut start: usize = 0;
    let mut i: usize = 0;
    assert(value@.take(0) =~= Seq::<char>::empty());
    assert(texts(parts@).push(value@.subrange(0, 0)) =~= seq![Seq::<char>::empty()]);
    while i < chars.len()
        invariant
            start <= i <= chars.len(),
            chars@ == value@,
            split_on(value@.take(i as int), sep) == texts(parts@).push(
                value@.subrange(start as int, i as int),
            ),
        decreases chars.len() - i,
    {
        let ghost before = split_on(value@.take(i as int), sep);
        let ghost prefix = value@.take(i + 1);
        assert(prefix.drop_last() =~= value@.take(i as int));
        assert(prefix.last() == value@[i as int]);
        if chars[i] == sep {
            let piece = value.substring_char(start, i).to_owned();
            let ghost old_parts = parts@;
            parts.push(piece);
            assert(texts(parts@) =~= texts(old_parts).push(piece@));
            start = i + 1;
            assert(value@.subrange(start as int, i + 1) =~= Seq::<char>::empty());
        } else {
            assert(before.drop_last() =~= texts(parts@));
            assert(before.last().push(value@[i as int]) =~= value@.subrange(
                start as int,
                i + 1,
            ));
        }
        i += 1;
    }
    assert(value@.take(i as int) =~= value@);
    let piece = value.substring_char(start, i).to_owned();
    let ghost old_parts = parts@;
    parts.push(piece);
    assert(texts(parts@) =~= texts(old_parts).push(piece@));
    parts
}

/// Whether some string of `list` holds the characters of `item`.
pub fn contains_text(list: &Vec<String>, item: &str) -> (r: bool)
    ensures
        r == texts(list@).contains(item@),
{
    let mut i: usize = 0;
    while i < list.len()
        invariant
            i <= list.len(),
            forall|j: int| 0 <= j < i ==> texts(list@)[j] != item@,
        decreases list.len() - i,
    {
        if same_text(list[i].as_str(), item) {
            assert(texts(list@)[i as int] == item@);
            return true;
        }
        i += 1;
    }
    false
}

} // verus!
