use vstd::prelude::*;
use crate::tree::ConfigValue;
use crate::text::chars_of;
use crate::interaction::{flag_map, set_flag};

verus! {

/// Whether `t` occurs in `s` as a contiguous run.
pub open spec fn has_sub(s: Seq<char>, t: Seq<char>) -> bool {
    exists|i: int| 0 <= i && i + t.len() <= s.len() && #[trigger] s.subrange(i, i + t.len()) == t
}

/// Whether `t` occurs in `s`.
pub fn contains_str(s: &str, t: &str) -> (r: bool)
    ensures
        r == has_sub(s@, t@),
{
    let a = chars_of(s);
    let b = chars_of(t);
    let n = a.len();
    let m = b.len();
    if m > n {
        return false;
    }
    let mut i: usize = 0;
    while i <= n - m
        invariant
            a@ == s@,
            b@ == t@,
            n == a@.len(),
            m == b@.len(),
            m <= n,
            i <= n - m + 1,
            forall|p: int| 0 <= p < i ==> #[trigger] a@.subrange(p, p + m) != b@,
        decreases n - m + 1 - i,
    {
        let mut k: usize = 0;
        while k < m && a[i + k] == b[k]
            invariant
                i + m <= n,
                n == a@.len(),
                m == b@.len(),
                k <= m,
                forall|q: int| 0 <= q < k ==> a@[i + q] == b@[q],
            decreases m - k,
        {
            k = k + 1;
        }
        if k == m {
            assert(a@.subrange(i as int, i + m) =~= b@);
            return true;
        }
        assert(a@.subrange(i as int, i + m)[k as int] != b@[k as int]);
        i = i + 1;
    }
    proof {
        if has_sub(s@, t@) {
            let p = choose|p: int| 0 <= p && p + t@.len() <= s@.len() && #[trigger] s@.subrange(p, p + t@.len()) == t@;
            assert(a@.subrange(p, p + m) == b@);
        }
    }
    false
}

/// Whether two texts are equal.
pub fn same_str(s: &str, t: &str) -> (r: bool)
    ensures
        r == (s@ == t@),
{
    let a = chars_of(s);
    let b = chars_of(t);
    if a.len() != b.len() {
        return false;
    }
    let mut i: usize = 0;
    while i < a.len()
        invariant
            a@ == s@,
            b@ == t@,
            a@.len() == b@.len(),
            i <= a@.len(),
            forall|q: int| 0 <= q < i ==> a@[q] == b@[q],
        decreases a@.len() - i,
    {
        if a[i] != b[i] {
            return false;
        }
        i = i + 1;
    }
    assert(a@ =~= b@);
    true
}

/// A table key that is the text `name`.
pub open spec fn is_text_key(k: ConfigValue, name: Seq<char>) -> bool {
    k matches ConfigValue::Text(s) && s@ == name
}

/// The rules a configuration value yields: a text is a rule; a list yields the
/// rules of its items in order; a table yields, in this order, the rules under
/// its "rules", "instructions", "prompts", "guidelines" and "constraints" keys.
pub open spec fn rules_of(v: ConfigValue) -> Seq<Seq<char>>
    decreases v,
{
    match v {
        ConfigValue::Text(s) => seq![s@],
        ConfigValue::List(items) => rules_of_items(items@),
        ConfigValue::Table(entries) => rules_for_key(entries@, "rules"@) + rules_for_key(
            entries@,
            "instructions"@,
        ) + rules_for_key(entries@, "prompts"@) + rules_for_key(entries@, "guidelines"@)
            + rules_for_key(entries@, "constraints"@),
        _ => seq![],
    }
}

pub open spec fn rules_of_items(items: Seq<ConfigValue>) -> Seq<Seq<char>>
    decreases items,
{
    if items.len() == 0 {
        seq![]
    } else {
        rules_of_items(items.drop_last()) + rules_of(items.last())
    }
}

/// The rules under the first entry keyed `key`; none where there is no such entry.
pub open spec fn rules_for_key(entries: Seq<(ConfigValue, ConfigValue)>, key: Seq<char>) -> Seq<Seq<char>>
    decreases entries,
{
    if entries.len() == 0 {
        seq![]
    } else if is_text_key(entries[0].0, key) {
        rules_of(entries[0].1)
    } else {
        rules_for_key(entries.drop_first(), key)
    }
}

pub open spec fn texts(v: Seq<String>) -> Seq<Seq<char>> {
    v.map_values(|s: String| s@)
}

proof fn lemma_texts_push(v: Seq<String>, s: String)
    ensures
        texts(v.push(s)) == texts(v).push(s@),
{
    assert(texts(v.push(s)) =~= texts(v).push(s@));
}

/// Appends the rules of a configuration value.
pub fn collect_rules(v: &ConfigValue, out: &mut Vec<String>)
    ensures
        texts(final(out)@) == texts(old(out)@) + rules_of(*v),
    decreases v,
{
    match v {
        ConfigValue::Text(s) => {
            proof {
                lemma_texts_push(out@, *s);
            }
            out.push(s.clone());
        },
        ConfigValue::List(items) => {
            let mut i: usize = 0;
            let ghost start = texts(out@);
            assert(items@.take(0) =~= Seq::<ConfigValue>::empty());
            while i < items.len()
                invariant
                    *v == ConfigValue::List(*items),
                    i <= items@.len(),
                    texts(out@) == start + rules_of_items(items@.take(i as int)),
                decreases items@.len() - i,
            {
                assert(items@.take(i + 1).drop_last() =~= items@.take(i as int));
                proof {
                    assert(decreases_to!(*v => (*v)->List_0));
                    assert(decreases_to!(*items => items@));
                    assert(decreases_to!(items@ => items@[i as int]));
                }
                collect_rules(&items[i], out);
                i = i + 1;
            }
            assert(items@.take(items@.len() as int) =~= items@);
        },
        ConfigValue::Table(entries) => {
            let ghost start = texts(out@);
            collect_rules_for_key(entries, "rules", out);
            collect_rules_for_key(entries, "instructions", out);
            collect_rules_for_key(entries, "prompts", out);
            collect_rules_for_key(entries, "guidelines", out);
            collect_rules_for_key(entries, "constraints", out);
            assert(texts(out@) =~= start + rules_of(*v));
        },
        _ => {
            assert(texts(out@) =~= texts(out@) + rules_of(*v));
        },
    }
}

/// Appends the rules under the first entry keyed `key`.
fn collect_rules_for_key(entries: &Vec<(ConfigValue, ConfigValue)>, key: &str, out: &mut Vec<String>)
    ensures
        texts(final(out)@) == texts(old(out)@) + rules_for_key(entries@, key@),
    decreases entries,
{
    let mut i: usize = 0;
    assert(entries@.subrange(0, entries@.len() as int) =~= entries@);
    while i < entries.len()
        invariant
            i <= entries@.len(),
            rules_for_key(entries@, key@) == rules_for_key(entries@.subrange(i as int, entries@.len() as int), key@),
            texts(out@) == texts(old(out)@),
        decreases entries@.len() - i,
    {
        let ghost rest = entries@.subrange(i as int, entries@.len() as int);
        assert(rest[0] == entries@[i as int]);
        let is_key = match &entries[i].0 {
            ConfigValue::Text(s) => same_str(s.as_str(), key),
            _ => false,
        };
        if is_key {
            collect_rules(&entries[i].1, out);
            return;
        }
        assert(rest.drop_first() =~= entries@.subrange(i + 1, entries@.len() as int));
        i = i + 1;
    }
    assert(texts(out@) =~= texts(old(out)@) + rules_for_key(entries@, key@));
}

/// The named prompts of a table: each entry whose key is a text containing
/// "prompt" or "template" and whose value is a text; a later entry wins.
pub open spec fn prompts_of_entries(entries: Seq<(ConfigValue, ConfigValue)>) -> Map<Seq<char>, Seq<char>>
    decreases entries.len(),
{
    if entries.len() == 0 {
        Map::empty()
    } else {
        let prev = prompts_of_entries(entries.drop_last());
        let (k, v) = entries.last();
        match (k, v) {
            (ConfigValue::Text(ks), ConfigValue::Text(vs)) => if has_sub(ks@, "prompt"@) || has_sub(
                ks@,
                "template"@,
            ) {
                prev.insert(ks@, vs@)
            } else {
                prev
            },
            _ => prev,
        }
    }
}

/// The named prompts of a configuration value: only a top-level table has any.
pub open spec fn prompts_of(v: ConfigValue) -> Map<Seq<char>, Seq<char>> {
    match v {
        ConfigValue::Table(entries) => prompts_of_entries(entries@),
        _ => Map::empty(),
    }
}

/// Sets the named prompts of a configuration value into `acc`.
pub fn collect_prompts(v: &ConfigValue, acc: Vec<(String, String)>) -> (r: Vec<(String, String)>)
    ensures
        flag_map(r@) == flag_map(acc@).union_prefer_right(prompts_of(*v)),
{
    match v {
        ConfigValue::Table(entries) => {
            let mut out = acc;
            let mut i: usize = 0;
            assert(entries@.take(0) =~= Seq::<(ConfigValue, ConfigValue)>::empty());
            assert(flag_map(out@) =~= flag_map(acc@).union_prefer_right(Map::empty()));
            while i < entries.len()
                invariant
                    i <= entries@.len(),
                    flag_map(out@) == flag_map(acc@).union_prefer_right(
                        prompts_of_entries(entries@.take(i as int)),
                    ),
                decreases entries@.len() - i,
            {
                assert(entries@.take(i + 1).drop_last() =~= entries@.take(i as int));
                assert(entries@.take(i + 1).last() == entries@[i as int]);
                match (&entries[i].0, &entries[i].1) {
                    (ConfigValue::Text(ks), ConfigValue::Text(vs)) => {
                        if contains_str(ks.as_str(), "prompt") || contains_str(ks.as_str(), "template") {
                            out = set_flag(&out, ks.clone(), vs.clone());
                        }
                    },
                    _ => {},
                }
                assert(flag_map(out@) =~= flag_map(acc@).union_prefer_right(
                    prompts_of_entries(entries@.take(i + 1)),
                ));
                i = i + 1;
            }
            assert(entries@.take(entries@.len() as int) =~= entries@);
            out
        },
        _ => {
            assert(flag_map(acc@) =~= flag_map(acc@).union_prefer_right(Map::empty()));
            acc
        },
    }
}

} // verus!
