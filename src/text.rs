use vstd::prelude::*;
use vstd::std_specs::iter::IteratorSpec;

verus! {

/// The characters of `s`, in order.
pub fn chars_of(s: &str) -> (r: Vec<char>)
    ensures
        r@ == s@,
{
    let mut it = s.chars();
    let mut v: Vec<char> = Vec::new();
    loop
        invariant
            v@ + it.remaining() == s@,
            it.decrease() is Some,
        ensures
            v@ == s@,
        decreases it.decrease()->0,
    {
        let ghost before = it.remaining();
        match it.next() {
            Some(c) => {
                assert(before.len() > 0 && c == before[0] && it.remaining() == before.drop_first());
                v.push(c);
                assert(v@ + it.remaining() =~= s@);
            },
            None => {
                assert(before.len() == 0);
                assert(v@ =~= s@);
                break;
            },
        }
    }
    v
}

/// Relies on `String`'s `FromIterator<char>`: the characters of `cs[from..to]`, in order.
#[verifier::external_body]
pub fn string_of_range(cs: &Vec<char>, from: usize, to: usize) -> (r: String)
    requires
        from <= to <= cs@.len(),
    ensures
        r@ == cs@.subrange(from as int, to as int),
{
    cs[from..to].iter().collect()
}

/// Relies on `String::push`: appends one character.
#[verifier::external_body]
pub fn push_char(s: &mut String, c: char)
    ensures
        final(s)@ == old(s)@.push(c),
{
    s.push(c)
}

/// Copy of a string slice into an owned `String`.
pub fn owned(s: &str) -> (r: String)
    ensures
        r@ == s@,
{
    s.to_string()
}

/// The pieces of `s` between occurrences of `sep`, in order; an empty text has
/// one empty piece, and a separator at the end leaves an empty last piece.
pub open spec fn split_on(s: Seq<char>, sep: char) -> Seq<Seq<char>>
    decreases s.len(),
{
    if s.len() == 0 {
        seq![Seq::<char>::empty()]
    } else {
        let p = split_on(s.drop_last(), sep);
        if s.last() == sep {
            p.push(Seq::<char>::empty())
        } else {
            p.update(p.len() - 1, p.last().push(s.last()))
        }
    }
}

pub proof fn lemma_split_on_nonempty(s: Seq<char>, sep: char)
    ensures
        split_on(s, sep).len() >= 1,
    decreases s.len(),
{
    if s.len() > 0 {
        lemma_split_on_nonempty(s.drop_last(), sep);
    }
}

/// One step of scanning `s` for `sep`: if the pieces of `s[..i]` are `done`
/// followed by `s[start..i]`, the pieces of `s[..i + 1]` follow from `s[i]`.
pub proof fn lemma_split_on_step(s: Seq<char>, sep: char, i: int, start: int, done: Seq<Seq<char>>)
    requires
        0 <= start <= i < s.len(),
        split_on(s.take(i), sep) == done.push(s.subrange(start, i)),
    ensures
        s[i] == sep ==> split_on(s.take(i + 1), sep) == done.push(s.subrange(start, i)).push(
            s.subrange(i + 1, i + 1),
        ),
        s[i] != sep ==> split_on(s.take(i + 1), sep) == done.push(s.subrange(start, i + 1)),
{
    let t = s.take(i + 1);
    assert(t.drop_last() =~= s.take(i));
    assert(t.last() == s[i]);
    assert(s.subrange(i + 1, i + 1) =~= Seq::<char>::empty());
    assert(s.subrange(start, i + 1) =~= s.subrange(start, i).push(s[i]));
    if s[i] != sep {
        assert(split_on(t, sep) =~= done.push(s.subrange(start, i + 1)));
    }
}

/// A text holding the separator has at least two pieces.
pub proof fn lemma_split_on_has_piece_after(s: Seq<char>, sep: char)
    requires
        s.contains(sep),
    ensures
        split_on(s, sep).len() >= 2,
    decreases s.len(),
{
    lemma_split_on_nonempty(s.drop_last(), sep);
    if s.last() != sep {
        let k = choose|k: int| 0 <= k < s.len() && s[k] == sep;
        assert(s.drop_last()[k] == sep);
        lemma_split_on_has_piece_after(s.drop_last(), sep);
    }
}

/// The pieces of `s` between occurrences of `sep`.
pub fn split_text(s: &str, sep: char) -> (r: Vec<String>)
    ensures
        r@.map_values(|p: String| p@) == split_on(s@, sep),
{
    let cs = chars_of(s);
    let n = cs.len();
    let mut out: Vec<String> = Vec::new();
    let mut start: usize = 0;
    let mut i: usize = 0;
    assert(cs@.take(0) =~= Seq::<char>::empty());
    assert(split_on(cs@.take(0), sep) =~= out@.map_values(|p: String| p@).push(cs@.subrange(0, 0)));
    while i < n
        invariant
            n == cs@.len(),
            cs@ == s@,
            start <= i <= n,
            split_on(cs@.take(i as int), sep) == out@.map_values(|p: String| p@).push(
                cs@.subrange(start as int, i as int),
            ),
        decreases n - i,
    {
        proof {
            lemma_split_on_step(cs@, sep, i as int, start as int, out@.map_values(|p: String| p@));
        }
        if cs[i] == sep {
            let ghost before = out@.map_values(|p: String| p@);
            out.push(string_of_range(&cs, start, i));
            assert(out@.map_values(|p: String| p@) =~= before.push(cs@.subrange(start as int, i as int)));
            start = i + 1;
        }
        i = i + 1;
    }
    let ghost before = out@.map_values(|p: String| p@);
    out.push(string_of_range(&cs, start, n));
    assert(out@.map_values(|p: String| p@) =~= before.push(cs@.subrange(start as int, n as int)));
    assert(cs@.take(n as int) =~= cs@);
    out
}

/// A piece without one trailing carriage return.
pub open spec fn strip_cr(s: Seq<char>) -> Seq<char> {
    if s.len() > 0 && s.last() == '\r' { s.drop_last() } else { s }
}

/// The lines of `s` as `str::lines` reads them, apart from a last empty line:
/// the pieces between line feeds, where a line ended by "\r\n" loses the '\r'.
pub open spec fn spec_lines(s: Seq<char>) -> Seq<Seq<char>> {
    let p = split_on(s, '\n');
    Seq::new(p.len(), |i: int| if i < p.len() - 1 { strip_cr(p[i]) } else { p[i] })
}

/// The lines of `s`; see `spec_lines`.
pub fn split_lines(s: &str) -> (r: Vec<String>)
    ensures
        r@.map_values(|p: String| p@) == spec_lines(s@),
{
    let pieces = split_text(s, '\n');
    let ghost ps = pieces@.map_values(|p: String| p@);
    proof {
        lemma_split_on_nonempty(s@, '\n');
    }
    let n = pieces.len();
    let mut out: Vec<String> = Vec::new();
    let mut i: usize = 0;
    while i < n
        invariant
            n == pieces@.len(),
            ps == pieces@.map_values(|p: String| p@),
            ps == split_on(s@, '\n'),
            i <= n,
            out@.len() == i,
            forall|k: int| 0 <= k < i ==> #[trigger] out@[k]@ == spec_lines(s@)[k],
        decreases n - i,
    {
        let cs = chars_of(pieces[i].as_str());
        let m = cs.len();
        assert(cs@ == ps[i as int]);
        let line = if i + 1 < n && m > 0 && cs[m - 1] == '\r' {
            let l = string_of_range(&cs, 0, m - 1);
            assert(l@ =~= cs@.drop_last());
            l
        } else {
            string_of_range(&cs, 0, m)
        };
        assert(cs@.subrange(0, m as int) =~= cs@);
        out.push(line);
        i = i + 1;
    }
    assert(out@.map_values(|p: String| p@) =~= spec_lines(s@));
    out
}

} // verus!
