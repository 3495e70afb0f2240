use vstd::prelude::*;
use crate::text::chars_of;
use crate::rules::texts;

verus! {

/// Lexicographic order of texts by code point; for UTF-8 strings this is the
/// byte order that `String`'s `Ord` uses.
pub open spec fn text_lt(a: Seq<char>, b: Seq<char>) -> bool
    decreases a.len(),
{
    if a.len() == 0 {
        b.len() > 0
    } else if b.len() == 0 {
        false
    } else if a[0] != b[0] {
        a[0] < b[0]
    } else {
        text_lt(a.drop_first(), b.drop_first())
    }
}

pub proof fn lemma_text_lt_irreflexive(a: Seq<char>)
    ensures
        !text_lt(a, a),
    decreases a.len(),
{
    if a.len() > 0 {
        lemma_text_lt_irreflexive(a.drop_first());
    }
}

pub proof fn lemma_text_lt_total(a: Seq<char>, b: Seq<char>)
    ensures
        a == b || text_lt(a, b) || text_lt(b, a),
    decreases a.len(),
{
    if a.len() > 0 && b.len() > 0 && a[0] == b[0] {
        lemma_text_lt_total(a.drop_first(), b.drop_first());
        if a.drop_first() == b.drop_first() {
            assert(a =~= seq![a[0]] + a.drop_first());
            assert(b =~= seq![b[0]] + b.drop_first());
        }
    } else if a.len() == 0 && b.len() == 0 {
        assert(a =~= b);
    } else if a.len() > 0 && b.len() > 0 {
        assert(a[0] != b[0]);
    }
}

pub proof fn lemma_text_lt_asymmetric(a: Seq<char>, b: Seq<char>)
    requires
        text_lt(a, b),
    ensures
        !text_lt(b, a),
    decreases a.len(),
{
    if a.len() > 0 && b.len() > 0 && a[0] == b[0] {
        lemma_text_lt_asymmetric(a.drop_first(), b.drop_first());
    }
}

pub proof fn lemma_text_lt_transitive(a: Seq<char>, b: Seq<char>, c: Seq<char>)
    requires
        text_lt(a, b),
        text_lt(b, c),
    ensures
        text_lt(a, c),
    decreases a.len(),
{
    if a.len() > 0 && b.len() > 0 && c.len() > 0 && a[0] == b[0] && b[0] == c[0] {
        lemma_text_lt_transitive(a.drop_first(), b.drop_first(), c.drop_first());
    }
}

/// Whether `a` comes before `b` in code-point order.
pub fn text_less(a: &str, b: &str) -> (r: bool)
    ensures
        r == text_lt(a@, b@),
{
    let x = chars_of(a);
    let y = chars_of(b);
    let mut i: usize = 0;
    assert(x@.subrange(0, x@.len() as int) =~= x@);
    assert(y@.subrange(0, y@.len() as int) =~= y@);
    while i < x.len() && i < y.len() && x[i] == y[i]
        invariant
            x@ == a@,
            y@ == b@,
            i <= x@.len(),
            i <= y@.len(),
            text_lt(a@, b@) == text_lt(
                x@.subrange(i as int, x@.len() as int),
                y@.subrange(i as int, y@.len() as int),
            ),
        decreases x@.len() - i,
    {
        let ghost xs = x@.subrange(i as int, x@.len() as int);
        let ghost ys = y@.subrange(i as int, y@.len() as int);
        assert(xs.drop_first() =~= x@.subrange(i + 1, x@.len() as int));
        assert(ys.drop_first() =~= y@.subrange(i + 1, y@.len() as int));
        i = i + 1;
    }
    if i == x.len() {
        i < y.len()
    } else if i == y.len() {
        false
    } else {
        x[i] < y[i]
    }
}

/// Each text comes strictly before the next: ascending, with no repeats.
pub open spec fn strictly_ascending(s: Seq<Seq<char>>) -> bool {
    forall|i: int, j: int| 0 <= i < j < s.len() ==> text_lt(#[trigger] s[i], #[trigger] s[j])
}

/// The first position of an ascending list whose text is not before `x`.
fn find_slot(v: &Vec<String>, x: &str) -> (r: usize)
    ensures
        r <= v@.len(),
        forall|k: int| 0 <= k < r ==> text_lt(#[trigger] v@[k]@, x@),
        r < v@.len() ==> !text_lt(v@[r as int]@, x@),
{
    let mut i: usize = 0;
    while i < v.len() && text_less(v[i].as_str(), x)
        invariant
            i <= v@.len(),
            forall|k: int| 0 <= k < i ==> text_lt(#[trigger] v@[k]@, x@),
        decreases v@.len() - i,
    {
        i = i + 1;
    }
    i
}

/// Adds `x` to an ascending list without repeats, keeping it so.
pub fn insert_text(v: &mut Vec<String>, x: String)
    requires
        strictly_ascending(texts(old(v)@)),
    ensures
        strictly_ascending(texts(final(v)@)),
        forall|y: Seq<char>| #[trigger] texts(final(v)@).contains(y) <==> (texts(old(v)@).contains(y) || y == x@),
{
    let ghost o = texts(v@);
    let pos = find_slot(v, x.as_str());
    if pos < v.len() && v[pos].eq(&x) {
        assert(o[pos as int] == x@);
        return;
    }
    let ghost xv = x@;
    if pos < v.len() {
        proof {
            lemma_text_lt_total(o[pos as int], xv);
        }
    }
    v.insert(pos, x);
    proof {
        let n = texts(v@);
        assert(n =~= o.insert(pos as int, xv));
        assert forall|i: int, j: int| 0 <= i < j < n.len() implies text_lt(#[trigger] n[i], #[trigger] n[j]) by {
            if j < pos {
                assert(n[i] == o[i] && n[j] == o[j]);
            } else if j == pos {
                assert(n[i] == o[i]);
            } else if i == pos {
                assert(n[j] == o[j - 1]);
                if j - 1 > pos {
                    assert(text_lt(o[pos as int], o[j - 1]));
                    lemma_text_lt_transitive(xv, o[pos as int], o[j - 1]);
                }
            } else if i < pos {
                assert(n[i] == o[i] && n[j] == o[j - 1]);
            } else {
                assert(n[i] == o[i - 1] && n[j] == o[j - 1]);
            }
        }
        assert forall|y: Seq<char>| n.contains(y) <==> (o.contains(y) || y == xv) by {
            if n.contains(y) {
                let k = choose|k: int| 0 <= k < n.len() && n[k] == y;
                if k < pos {
                    assert(o[k] == y);
                } else if k > pos {
                    assert(o[k - 1] == y);
                }
            }
            if o.contains(y) {
                let k = choose|k: int| 0 <= k < o.len() && o[k] == y;
                if k < pos {
                    assert(n[k] == y);
                } else {
                    assert(n[k + 1] == y);
                }
            }
            if y == xv {
                assert(n[pos as int] == y);
            }
        }
    }
}

/// Adds every text of `items` to an ascending list without repeats.
pub fn insert_texts(v: &mut Vec<String>, items: &Vec<String>)
    requires
        strictly_ascending(texts(old(v)@)),
    ensures
        strictly_ascending(texts(final(v)@)),
        forall|y: Seq<char>| #[trigger] texts(final(v)@).contains(y) <==> (texts(old(v)@).contains(y) || texts(items@).contains(y)),
{
    let ghost o = texts(v@);
    let mut i: usize = 0;
    while i < items.len()
        invariant
            i <= items@.len(),
            o == texts(old(v)@),
            strictly_ascending(texts(v@)),
            forall|y: Seq<char>| texts(v@).contains(y) <==> (o.contains(y) || texts(items@).take(i as int).contains(y)),
        decreases items@.len() - i,
    {
        let ghost before = texts(v@);
        assert(forall|y: Seq<char>| #[trigger] before.contains(y) <==> (o.contains(y) || texts(items@).take(i as int).contains(y)));
        let c = items[i].clone();
        assert(c@ == items@[i as int]@);
        insert_text(v, c);
        proof {
            let t1 = texts(items@).take(i + 1);
            let t0 = texts(items@).take(i as int);
            assert(t1 =~= t0.push(items@[i as int]@));
            assert forall|y: Seq<char>| t1.contains(y) <==> (t0.contains(y) || y == items@[i as int]@) by {
                if t1.contains(y) {
                    let k = choose|k: int| 0 <= k < t1.len() && t1[k] == y;
                    if k < i {
                        assert(t0[k] == y);
                    }
                }
                if t0.contains(y) {
                    let k = choose|k: int| 0 <= k < t0.len() && t0[k] == y;
                    assert(t1[k] == y);
                }
                if y == items@[i as int]@ {
                    assert(t1[i as int] == y);
                }
            }
            assert forall|y: Seq<char>| texts(v@).contains(y) <==> (o.contains(y) || t1.contains(y)) by {
                assert(texts(v@).contains(y) <==> (before.contains(y) || y == c@));
                assert(before.contains(y) <==> (o.contains(y) || t0.contains(y)));
                assert(t1.contains(y) <==> (t0.contains(y) || y == items@[i as int]@));
            }
        }
        i = i + 1;
    }
    assert(texts(items@).take(items@.len() as int) =~= texts(items@));
    assert(forall|y: Seq<char>| #[trigger] texts(v@).contains(y) <==> (o.contains(y) || texts(items@).contains(y)));
}

} // verus!
