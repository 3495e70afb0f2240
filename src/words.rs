use vstd::prelude::*;
use crate::text::{chars_of, string_of_range, push_char};

verus! {

/// Unicode White_Space, the characters that `char::is_whitespace` accepts.
pub open spec fn is_space(c: char) -> bool {
    ('\t' <= c && c <= '\r') || c == ' ' || c == '\u{85}' || c == '\u{a0}' || c == '\u{1680}'
        || ('\u{2000}' <= c && c <= '\u{200a}') || c == '\u{2028}' || c == '\u{2029}'
        || c == '\u{202f}' || c == '\u{205f}' || c == '\u{3000}'
}

pub fn is_space_char(c: char) -> (r: bool)
    ensures
        r == is_space(c),
{
    ('\t' <= c && c <= '\r') || c == ' ' || c == '\u{85}' || c == '\u{a0}' || c == '\u{1680}'
        || ('\u{2000}' <= c && c <= '\u{200a}') || c == '\u{2028}' || c == '\u{2029}'
        || c == '\u{202f}' || c == '\u{205f}' || c == '\u{3000}'
}

/// `s` without its leading whitespace.
pub open spec fn skip_space(s: Seq<char>) -> Seq<char>
    decreases s.len(),
{
    if s.len() > 0 && is_space(s[0]) { skip_space(s.drop_first()) } else { s }
}

/// `s` without its trailing whitespace.
pub open spec fn skip_space_end(s: Seq<char>) -> Seq<char>
    decreases s.len(),
{
    if s.len() > 0 && is_space(s.last()) { skip_space_end(s.drop_last()) } else { s }
}

/// A text without leading and trailing whitespace, as `str::trim` gives it.
pub open spec fn trim_of(s: Seq<char>) -> Seq<char> {
    skip_space_end(skip_space(s))
}

/// The text without leading and trailing whitespace.
pub fn trim(text: &str) -> (r: String)
    ensures
        r@ == trim_of(text@),
{
    let cs = chars_of(text);
    let n = cs.len();
    let mut i: usize = 0;
    assert(cs@.subrange(0, n as int) =~= cs@);
    while i < n && is_space_char(cs[i])
        invariant
            cs@ == text@,
            n == cs@.len(),
            i <= n,
            skip_space(cs@) == skip_space(cs@.subrange(i as int, n as int)),
        decreases n - i,
    {
        assert(cs@.subrange(i as int, n as int).drop_first() =~= cs@.subrange(i + 1, n as int));
        i = i + 1;
    }
    let ghost a = cs@.subrange(i as int, n as int);
    assert(skip_space(a) == a);
    let mut j: usize = n;
    assert(a.subrange(0, (j - i) as int) =~= a);
    while j > i && is_space_char(cs[j - 1])
        invariant
            cs@ == text@,
            n == cs@.len(),
            i <= j <= n,
            a == cs@.subrange(i as int, n as int),
            skip_space_end(a) == skip_space_end(cs@.subrange(i as int, j as int)),
        decreases j,
    {
        assert(cs@.subrange(i as int, j as int).drop_last() =~= cs@.subrange(i as int, j - 1));
        j = j - 1;
    }
    assert(j > i ==> cs@.subrange(i as int, j as int).last() == cs@[j - 1]);
    string_of_range(&cs, i, j)
}

/// The maximal runs of non-whitespace characters of `s`, in order.
pub open spec fn spec_words(s: Seq<char>) -> Seq<Seq<char>>
    decreases s.len(),
{
    if s.len() == 0 {
        seq![]
    } else if is_space(s.last()) {
        spec_words(s.drop_last())
    } else {
        let p = spec_words(s.drop_last());
        if s.len() >= 2 && !is_space(s[s.len() - 2]) {
            p.update(p.len() - 1, p.last().push(s.last()))
        } else {
            p.push(seq![s.last()])
        }
    }
}

/// Words of `s[..i]` while a word starts at `start` and runs to `i`.
proof fn lemma_words_open(s: Seq<char>, start: int, i: int)
    requires
        0 <= start < i <= s.len(),
        forall|k: int| start <= k < i ==> !is_space(s[k]),
        start == 0 || is_space(s[start - 1]),
    ensures
        spec_words(s.take(i)).len() >= 1,
        spec_words(s.take(i)) == spec_words(s.take(start)).push(s.subrange(start, i)),
    decreases i - start,
{
    let t = s.take(i);
    assert(t.drop_last() =~= s.take(i - 1));
    if i - 1 == start {
        assert(s.subrange(start, i) =~= seq![s[start]]);
        if start >= 1 {
            assert(t[t.len() - 2] == s[start - 1]);
        }
    } else {
        lemma_words_open(s, start, i - 1);
        assert(t[t.len() - 2] == s[i - 2]);
        assert(s.subrange(start, i) =~= s.subrange(start, i - 1).push(s[i - 1]));
    }
}

/// The words of `s`, split on Unicode whitespace.
pub fn words(s: &str) -> (r: Vec<String>)
    ensures
        r@.len() == spec_words(s@).len(),
        forall|k: int| 0 <= k < r@.len() ==> #[trigger] r@[k]@ == spec_words(s@)[k],
{
    let cs = chars_of(s);
    let n = cs.len();
    let mut out: Vec<String> = Vec::new();
    let mut i: usize = 0;
    assert(cs@.take(0) =~= Seq::<char>::empty());
    while i < n
        invariant
            n == cs@.len(),
            cs@ == s@,
            i <= n,
            i == 0 || i == n || is_space(cs@[i - 1]),
            out@.len() == spec_words(cs@.take(i as int)).len(),
            forall|k: int| 0 <= k < out@.len() ==> #[trigger] out@[k]@ == spec_words(cs@.take(i as int))[k],
        decreases n - i,
    {
        if is_space_char(cs[i]) {
            proof {
                let t = cs@.take(i + 1);
                assert(t.drop_last() =~= cs@.take(i as int));
            }
            i = i + 1;
        } else {
            let start = i;
            while i < n && !is_space_char(cs[i])
                invariant
                    n == cs@.len(),
                    start < n,
                    start <= i <= n,
                    !is_space(cs@[start as int]),
                    forall|k: int| start <= k < i ==> !is_space(cs@[k]),
                decreases n - i,
            {
                i = i + 1;
            }
            assert(i > start);
            proof {
                lemma_words_open(cs@, start as int, i as int);
            }
            let w = string_of_range(&cs, start, i);
            out.push(w);
            if i < n {
                proof {
                    let t = cs@.take(i + 1);
                    assert(t.drop_last() =~= cs@.take(i as int));
                }
                i = i + 1;
            }
            assert(forall|k: int| 0 <= k < out@.len() ==> #[trigger] out@[k]@ == spec_words(cs@.take(i as int))[k]);
        }
    }
    assert(cs@.take(n as int) =~= cs@);
    out
}

/// The value of a non-empty run of decimal digits.
pub open spec fn digits_value(s: Seq<char>) -> int
    decreases s.len(),
{
    if s.len() == 0 {
        0
    } else {
        digits_value(s.drop_last()) * 10 + (s.last() as int - '0' as int)
    }
}

pub open spec fn all_digits(s: Seq<char>) -> bool {
    forall|k: int| 0 <= k < s.len() ==> '0' <= #[trigger] s[k] && s[k] <= '9'
}

/// What `u32::from_str` gives: an optional leading '+', then one or more
/// decimal digits whose value fits in a `u32`.
pub open spec fn spec_parse_u32(s: Seq<char>) -> Option<u32> {
    let d = if s.len() > 0 && s[0] == '+' { s.drop_first() } else { s };
    if d.len() > 0 && all_digits(d) && digits_value(d) <= u32::MAX {
        Some(digits_value(d) as u32)
    } else {
        None
    }
}

proof fn lemma_digits_value_nonneg(s: Seq<char>)
    requires
        all_digits(s),
    ensures
        digits_value(s) >= 0,
    decreases s.len(),
{
    if s.len() > 0 {
        assert(all_digits(s.drop_last()));
        lemma_digits_value_nonneg(s.drop_last());
    }
}

/// Parses an unsigned 32-bit decimal number as `u32::from_str` does.
pub fn parse_u32(s: &str) -> (r: Option<u32>)
    ensures
        r == spec_parse_u32(s@),
{
    let cs = chars_of(s);
    let n = cs.len();
    let mut i: usize = 0;
    if n > 0 && cs[0] == '+' {
        i = 1;
    }
    let ghost d = if s@.len() > 0 && s@[0] == '+' { s@.drop_first() } else { s@ };
    assert(d =~= cs@.subrange(i as int, n as int));
    if i == n {
        return None;
    }
    let mut value: u64 = 0;
    let begin = i;
    while i < n
        invariant
            n == cs@.len(),
            begin <= i <= n,
            all_digits(cs@.subrange(begin as int, i as int)),
            value as int == digits_value(cs@.subrange(begin as int, i as int)),
            value <= u32::MAX,
            d == cs@.subrange(begin as int, n as int),
            d == (if s@.len() > 0 && s@[0] == '+' { s@.drop_first() } else { s@ }),
        decreases n - i,
    {
        let c = cs[i];
        let ghost prefix = cs@.subrange(begin as int, i as int);
        let ghost next = cs@.subrange(begin as int, i + 1);
        assert(next.drop_last() =~= prefix);
        if !('0' <= c && c <= '9') {
            assert(!all_digits(d)) by {
                assert(d[i - begin] == c);
            }
            return None;
        }
        let digit = (c as u32 - '0' as u32) as u64;
        let v = value * 10 + digit;
        assert(all_digits(next));
        if v > u32::MAX as u64 {
            proof {
                assert(digits_value(next) > u32::MAX);
                if all_digits(d) {
                    assert(d.take(i + 1 - begin) =~= next);
                    lemma_prefix_value_grows(d, (i + 1 - begin) as int);
                }
            }
            return None;
        }
        value = v;
        i = i + 1;
    }
    assert(cs@.subrange(begin as int, n as int) =~= d);
    Some(value as u32)
}

/// The value of digits never falls below the value of a prefix of them.
proof fn lemma_prefix_value_grows(d: Seq<char>, k: int)
    requires
        0 <= k <= d.len(),
        all_digits(d),
    ensures
        digits_value(d) >= digits_value(d.take(k)),
    decreases d.len() - k,
{
    if k < d.len() {
        lemma_prefix_value_grows(d, k + 1);
        assert(d.take(k + 1).drop_last() =~= d.take(k));
        assert(all_digits(d.take(k)));
        lemma_digits_value_nonneg(d.take(k));
    } else {
        assert(d.take(k) =~= d);
    }
}

pub open spec fn digit_char(d: nat) -> char {
    ((d + '0' as nat) as u32) as char
}

/// The decimal representation of `n`, without leading zeros.
pub open spec fn decimal_text(n: nat) -> Seq<char>
    decreases n,
{
    if n < 10 {
        seq![digit_char(n)]
    } else {
        decimal_text(n / 10).push(digit_char(n % 10))
    }
}

/// Appends the decimal representation of `n`.
pub fn push_decimal(s: &mut String, n: u64)
    ensures
        final(s)@ == old(s)@ + decimal_text(n as nat),
    decreases n,
{
    if n >= 10 {
        push_decimal(s, n / 10);
    }
    let c = ((n % 10) as u8 + 48u8) as char;
    assert(c == digit_char((n % 10) as nat));
    push_char(s, c);
    assert(decimal_text(n as nat) =~= if n < 10 { seq![digit_char(n as nat)] } else {
        decimal_text((n / 10) as nat).push(digit_char((n % 10) as nat))
    });
}

} // verus!
