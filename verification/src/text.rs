//! Small helpers on strings, stated over their views as sequences of characters.

use vstd::prelude::*;
use vstd::string::*;

verus! {

/// The characters of `s`, in order.
pub fn chars_of(s: &str) -> (r: Vec<char>)
    ensures
        r@ == s@,
{
    let mut out: Vec<char> = Vec::new();
    for c in it: s.chars()
        invariant
            it.seq() == s@,
            out@ == it.seq().take(it.index() as int),
    {
        out.push(c);
    }
    out
}

/// Whether two string slices hold the same characters.
pub fn str_eq(a: &str, b: &str) -> (r: bool)
    ensures
        r == (a@ == b@),
{
    let x = a.as_bytes();
    let y = b.as_bytes();
    if x.len() != y.len() {
        return false;
    }
    let mut i: usize = 0;
    while i < x.len()
        invariant
            x@ == a.spec_bytes(),
            y@ == b.spec_bytes(),
            x@.len() == y@.len(),
            i <= x@.len(),
            forall|j: int| 0 <= j < i ==> x@[j] == y@[j],
        decreases x@.len() - i,
    {
        if x[i] != y[i] {
            return false;
        }
        i += 1;
    }
    proof {
        assert(x@ =~= y@);
        vstd::utf8::encode_utf8_decode_utf8(a@);
        vstd::utf8::encode_utf8_decode_utf8(b@);
    }
    true
}

/// The tokens joined by `sep`, with no separator before the first or after the last.
pub open spec fn joined(tokens: Seq<Seq<char>>, sep: Seq<char>) -> Seq<char>
    decreases tokens.len(),
{
    if tokens.len() == 0 {
        Seq::empty()
    } else if tokens.len() == 1 {
        tokens[0]
    } else {
        joined(tokens.drop_last(), sep) + sep + tokens.last()
    }
}

/// The views of a sequence of strings.
pub open spec fn views_of(strings: Seq<String>) -> Seq<Seq<char>> {
    strings.map_values(|s: String| s@)
}

/// Joins `tokens` with `sep` between each two neighbours.
pub fn join(tokens: &Vec<String>, sep: &str) -> (r: String)
    ensures
        r@ == joined(views_of(tokens@), sep@),
{
    let mut out = String::new();
    let mut i: usize = 0;
    while i < tokens.len()
        invariant
            i <= tokens@.len(),
            out@ == joined(views_of(tokens@).take(i as int), sep@),
        decreases tokens@.len() - i,
    {
        let ghost before = views_of(tokens@).take(i as int);
        let ghost after = views_of(tokens@).take(i + 1);
        proof {
            assert(after.drop_last() =~= before);
            assert(after.last() == tokens@[i as int]@);
        }
        if i > 0 {
            out.append(sep);
        }
        out.append(tokens[i].as_str());
        proof {
            if i == 0 {
                assert(before.len() == 0);
                assert(out@ =~= tokens@[0]@);
            }
        }
        i += 1;
    }
    proof {
        assert(views_of(tokens@).take(i as int) =~= views_of(tokens@));
    }
    out
}

/// Copies the characters of `s` from `from` up to `to`.
pub fn substring(s: &str, from: usize, to: usize) -> (r: String)
    requires
        from <= to <= s@.len(),
    ensures
        r@ == s@.subrange(from as int, to as int),
{
    String::from_str(s.substring_char(from, to))
}

/// The first position at or after `from` at which `sep` stands in `s`, or the
/// length of `s` if it stands at none.
pub open spec fn first_at(s: Seq<char>, sep: char, from: int) -> int
    decreases s.len() - from,
{
    if 0 <= from < s.len() && s[from] != sep {
        first_at(s, sep, from + 1)
    } else {
        from
    }
}

/// The pieces of `s` between the occurrences of `sep`. There is one piece
/// more than there are separators: a string that ends in `sep` has an empty
/// last piece, and the empty string has one empty piece.
pub open spec fn split_on(s: Seq<char>, sep: char) -> Seq<Seq<char>>
    decreases s.len(),
{
    let at = first_at(s, sep, 0);
    if 0 <= at < s.len() {
        seq![s.subrange(0, at)] + split_on(s.subrange(at + 1, s.len() as int), sep)
    } else {
        seq![s]
    }
}

/// A position before which `sep` does not stand, and which holds `sep` or is
/// the end of `s`, is where `sep` first stands.
pub proof fn lemma_first_at_is(s: Seq<char>, sep: char, from: int, to: int)
    requires
        0 <= from <= to <= s.len(),
        forall|i: int| from <= i < to ==> #[trigger] s[i] != sep,
        to < s.len() ==> s[to] == sep,
    ensures
        first_at(s, sep, from) == to,
    decreases to - from,
{
    if from < to {
        lemma_first_at_is(s, sep, from + 1, to);
    }
}

/// Splits `text` at every occurrence of `sep`.
pub fn split(text: &str, sep: char) -> (r: Vec<String>)
    ensures
        views_of(r@) == split_on(text@, sep),
{
    let chars = chars_of(text);
    let len = chars.len();
    let mut out: Vec<String> = Vec::new();
    let mut start: usize = 0;
    let mut i: usize = 0;
    assert(text@.subrange(0, len as int) =~= text@);
    while i < len
        invariant
            len == text@.len(),
            chars@ == text@,
            start <= i <= len,
            forall|j: int| start <= j < i ==> #[trigger] text@[j] != sep,
            views_of(out@) + split_on(text@.subrange(start as int, len as int), sep) == split_on(
                text@,
                sep,
            ),
        decreases len - i,
    {
        if chars[i] == sep {
            let ghost rest = text@.subrange(start as int, len as int);
            let ghost before = views_of(out@);
            proof {
                lemma_first_at_is(rest, sep, 0, i - start);
                assert(rest.subrange(0, i - start) =~= text@.subrange(start as int, i as int));
                assert(rest.subrange(i - start + 1, rest.len() as int) =~= text@.subrange(
                    i + 1,
                    len as int,
                ));
            }
            let part = substring(text, start, i);
            out.push(part);
            start = i + 1;
            proof {
                assert(views_of(out@) =~= before.push(part@));
                assert(views_of(out@) + split_on(text@.subrange(start as int, len as int), sep)
                    =~= before + split_on(rest, sep));
            }
        }
        i += 1;
    }
    let ghost rest = text@.subrange(start as int, len as int);
    let ghost before = views_of(out@);
    proof {
        lemma_first_at_is(rest, sep, 0, len - start);
    }
    let part = substring(text, start, len);
    out.push(part);
    proof {
        assert(views_of(out@) =~= before + seq![rest]);
    }
    out
}

} // verus!
