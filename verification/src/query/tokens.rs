//! Cutting a text at its commas, and the errors that reading the pieces
//! as a record can end in.

use vstd::prelude::*;
use vstd::string::*;
use vstd::utf8::encode_utf8_decode_utf8;

verus! {

/// `tokens` with the character `c` added to the last of them.
pub open spec fn grow_last(tokens: Seq<Seq<char>>, c: char) -> Seq<Seq<char>> {
    tokens.update(tokens.len() - 1, tokens.last().push(c))
}

/// The pieces of `s` between its commas, in order. There is always at
/// least one, and any of them may be empty.
pub open spec fn split_commas(s: Seq<char>) -> Seq<Seq<char>>
    decreases s.len(),
{
    if s.len() == 0 {
        seq![Seq::empty()]
    } else if s.last() == ',' {
        split_commas(s.drop_last()).push(Seq::empty())
    } else {
        grow_last(split_commas(s.drop_last()), s.last())
    }
}

/// The number of commas in `s`.
pub open spec fn comma_count(s: Seq<char>) -> nat
    decreases s.len(),
{
    if s.len() == 0 {
        0
    } else {
        comma_count(s.drop_last()) + if s.last() == ',' {
            1nat
        } else {
            0nat
        }
    }
}

/// `tokens` written out with a comma between each two neighbours.
pub open spec fn join_commas(tokens: Seq<Seq<char>>) -> Seq<char>
    decreases tokens.len(),
{
    if tokens.len() == 0 {
        Seq::empty()
    } else if tokens.len() == 1 {
        tokens[0]
    } else {
        join_commas(tokens.drop_last()) + seq![','] + tokens.last()
    }
}

/// The characters of each of `tokens`.
pub open spec fn token_views(tokens: Seq<&str>) -> Seq<Seq<char>> {
    tokens.map_values(|t: &str| t@)
}

/// The error for a key that no value follows.
pub open spec fn missing_value(record: Seq<char>) -> Seq<char> {
    "Missing value while parsing "@ + record
}

/// The error for a key that the record `record` does not have.
pub open spec fn unexpected_key(record: Seq<char>) -> Seq<char> {
    "Unexpected key while parsing "@ + record
}

/// The error for a field that a record must have and the text lacks.
pub open spec fn missing_field(field: Seq<char>, record: Seq<char>) -> Seq<char> {
    field + " missing in "@ + record
}

/// `new` where nothing was read before, else what was read first.
pub open spec fn first_of<T>(seen: Option<T>, new: T) -> Option<T> {
    if seen is Some {
        seen
    } else {
        Some(new)
    }
}

/// The characters of a text that may be absent.
pub open spec fn text_view(text: Option<String>) -> Option<Seq<char>> {
    match text {
        Some(t) => Some(t@),
        None => None,
    }
}

/// Cutting at the commas loses nothing and leaves no comma behind: a
/// text has one piece more than it has commas, no piece holds a comma,
/// and the pieces joined by commas are the text again.
pub proof fn lemma_split_commas(s: Seq<char>)
    ensures
        split_commas(s).len() == comma_count(s) + 1,
        forall|i: int, j: int|
            0 <= i < split_commas(s).len() && 0 <= j < split_commas(s)[i].len()
                ==> #[trigger] split_commas(s)[i][j] != ',',
        join_commas(split_commas(s)) == s,
    decreases s.len(),
{
    if s.len() > 0 {
        let head = s.drop_last();
        let before = split_commas(head);
        lemma_split_commas(head);
        if s.last() == ',' {
            let after = before.push(Seq::empty());
            assert(after.drop_last() =~= before);
            assert(join_commas(after) =~= s);
        } else {
            let after = grow_last(before, s.last());
            if before.len() == 1 {
                assert(join_commas(after) =~= s);
            } else {
                assert(after.drop_last() =~= before.drop_last());
                assert(after.last() == before.last().push(s.last()));
                assert(join_commas(before) == join_commas(before.drop_last()) + seq![',']
                    + before.last());
                assert(join_commas(after) == join_commas(before.drop_last()) + seq![',']
                    + before.last().push(s.last()));
                assert(join_commas(after) =~= join_commas(before).push(s.last()));
                assert(head.push(s.last()) =~= s);
            }
        }
    } else {
        assert(join_commas(split_commas(s)) =~= s);
    }
}

/// A text with no comma in it counts no commas.
proof fn lemma_no_comma_counts_none(s: Seq<char>)
    requires
        forall|j: int| 0 <= j < s.len() ==> s[j] != ',',
    ensures
        comma_count(s) == 0,
    decreases s.len(),
{
    if s.len() > 0 {
        lemma_no_comma_counts_none(s.drop_last());
    }
}

/// No piece of a text has a comma to be cut at in its turn.
pub proof fn lemma_pieces_have_no_comma(s: Seq<char>, i: int)
    requires
        0 <= i < split_commas(s).len(),
    ensures
        comma_count(split_commas(s)[i]) == 0,
        split_commas(split_commas(s)[i]).len() == 1,
{
    lemma_split_commas(s);
    let piece = split_commas(s)[i];
    assert forall|j: int| 0 <= j < piece.len() implies piece[j] != ',' by {
        assert(split_commas(s)[i][j] != ',');
    }
    lemma_no_comma_counts_none(piece);
    lemma_split_commas(piece);
}

/// Cuts `s` at its commas.
pub fn split_on_commas(s: &str) -> (tokens: Vec<&str>)
    ensures
        token_views(tokens@) == split_commas(s@),
{
    let mut tokens: Vec<&str> = Vec::new();
    let mut start: usize = 0;
    let mut i: usize = 0;
    let n = s.unicode_len();
    let chars = s.chars();
    assert(split_commas(s@.take(0)) =~~= token_views(tokens@).push(s@.subrange(0, 0)));
    for c in it: chars
        invariant
            it.seq() == s@,
            n == s@.len(),
            i == it.index(),
            start <= i <= n,
            split_commas(s@.take(i as int)) == token_views(tokens@).push(
                s@.subrange(start as int, i as int),
            ),
    {
        let ghost before = s@.take(i as int);
        let ghost now = s@.take(i + 1);
        let ghost done = token_views(tokens@);
        let ghost piece = s@.subrange(start as int, i as int);
        assert(now.drop_last() == before);
        assert(now.last() == c);
        if c == ',' {
            tokens.push(s.substring_char(start, i));
            start = i + 1;
            assert(token_views(tokens@) =~~= done.push(piece));
            assert(s@.subrange(start as int, i + 1) =~= Seq::empty());
        } else {
            assert(s@.subrange(start as int, i + 1) =~= piece.push(c));
            assert(grow_last(done.push(piece), c) =~~= done.push(piece.push(c)));
        }
        i += 1;
    }
    assert(s@.take(i as int) == s@);
    let ghost done = token_views(tokens@);
    tokens.push(s.substring_char(start, i));
    assert(token_views(tokens@) =~~= done.push(s@.subrange(start as int, i as int)));
    tokens
}

/// Whether two texts hold the same characters.
pub fn same_text(a: &str, b: &str) -> (same: bool)
    ensures
        same == (a@ == b@),
{
    let x = a.as_bytes();
    let y = b.as_bytes();
    proof {
        encode_utf8_decode_utf8(a@);
        encode_utf8_decode_utf8(b@);
    }
    if x.len() != y.len() {
        return false;
    }
    let mut i: usize = 0;
    while i < x.len()
        invariant
            i <= x.len(),
            x.len() == y.len(),
            a@ == b@ ==> x@ == y@,
            forall|j: int| 0 <= j < i ==> x@[j] == y@[j],
        decreases x.len() - i,
    {
        if x[i] != y[i] {
            return false;
        }
        i += 1;
    }
    assert(x@ =~= y@);
    true
}

/// `value`, unless a text was read before.
pub fn first_text(seen: Option<String>, value: &str) -> (kept: Option<String>)
    ensures
        text_view(kept) == first_of(text_view(seen), value@),
{
    match seen {
        Some(text) => Some(text),
        None => Some(value.to_owned()),
    }
}

/// The text of [`missing_value`].
pub fn missing_value_text(record: &str) -> (text: String)
    ensures
        text@ == missing_value(record@),
{
    let mut text = String::from_str("Missing value while parsing ");
    text.append(record);
    text
}

/// The text of [`unexpected_key`].
pub fn unexpected_key_text(record: &str) -> (text: String)
    ensures
        text@ == unexpected_key(record@),
{
    let mut text = String::from_str("Unexpected key while parsing ");
    text.append(record);
    text
}

/// The text of [`missing_field`].
pub fn missing_field_text(field: &str, record: &str) -> (text: String)
    ensures
        text@ == missing_field(field@, record@),
{
    let mut text = String::from_str(field);
    text.append(" missing in ");
    text.append(record);
    text
}

} // verus!
