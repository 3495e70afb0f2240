use vstd::prelude::*;
use crate::types::{AgentConfigFile, AgentContext, ConfigFormat, ContextData};
use crate::text::{chars_of, string_of_range, split_on, split_text};
use crate::words::{trim, trim_of};
use crate::tree::{json_tree_of, yaml_tree_of, parse_json_tree, parse_yaml_tree};
use crate::rules::{rules_of, prompts_of, collect_rules, collect_prompts, texts, same_str};
use crate::interaction::flag_map;
use crate::order::{text_less, text_lt, lemma_text_lt_irreflexive, lemma_text_lt_total, lemma_text_lt_transitive};

verus! {

/// Conventional configuration file names, checked in every directory from the
/// current one up to the root.
pub const CONFIG_FILE_NAMES: [&'static str; 11] = [
    ".cursoragent",
    ".cursor-agent",
    ".aiconfig",
    ".cursor/agent.json",
    ".cursor/agent.yaml",
    ".cursor/agent.yml",
    ".cursor/config.json",
    "cursor-agent.json",
    "cursor-agent.yaml",
    "cursor-agent.yml",
    ".cursorrules",
];

/// The conventional configuration subdirectory, scanned two levels deep.
pub const CONFIG_DIR_NAME: &'static str = ".cursor";

/// The index of the last occurrence of `c` in `s`, or -1.
pub open spec fn last_index(s: Seq<char>, c: char) -> int
    decreases s.len(),
{
    if s.len() == 0 {
        -1
    } else if s.last() == c {
        s.len() - 1
    } else {
        last_index(s.drop_last(), c)
    }
}

proof fn lemma_last_index_range(s: Seq<char>, c: char)
    ensures
        -1 <= last_index(s, c) < s.len(),
    decreases s.len(),
{
    if s.len() > 0 {
        lemma_last_index_range(s.drop_last(), c);
    }
}

fn find_last(cs: &Vec<char>, c: char) -> (r: Option<usize>)
    ensures
        match r {
            Some(i) => last_index(cs@, c) == i as int,
            None => last_index(cs@, c) == -1,
        },
{
    let mut i: usize = cs.len();
    assert(cs@.take(i as int) =~= cs@);
    while i > 0
        invariant
            i <= cs@.len(),
            last_index(cs@, c) == last_index(cs@.take(i as int), c),
        decreases i,
    {
        let ghost t = cs@.take(i as int);
        assert(t.drop_last() =~= cs@.take(i - 1));
        if cs[i - 1] == c {
            return Some(i - 1);
        }
        i = i - 1;
    }
    assert(cs@.take(0) =~= Seq::<char>::empty());
    None
}

/// The last component of a path: the text after its last '/'.
pub open spec fn file_name_of(p: Seq<char>) -> Seq<char> {
    p.subrange(last_index(p, '/') + 1, p.len() as int)
}

/// A path's extension as `Path::extension` gives it: the text after the last
/// '.' of the file name, where that dot is not the name's first character and
/// the name is not "..".
pub open spec fn extension_of(p: Seq<char>) -> Option<Seq<char>> {
    let name = file_name_of(p);
    let d = last_index(name, '.');
    if d > 0 && name != ".."@ {
        Some(name.subrange(d + 1, name.len() as int))
    } else {
        None
    }
}

/// ASCII lower case of one character.
pub open spec fn lower_ascii(c: char) -> char {
    if 'A' <= c && c <= 'Z' {
        ((c as u32) + 32) as char
    } else {
        c
    }
}

/// Whether `s`, lower-cased, is `lit` (a lower-case ASCII word).
pub open spec fn lower_is(s: Seq<char>, lit: Seq<char>) -> bool {
    s.len() == lit.len() && forall|k: int| 0 <= k < s.len() ==> lower_ascii(#[trigger] s[k]) == lit[k]
}

fn lower_matches(s: &Vec<char>, from: usize, lit: &str) -> (r: bool)
    requires
        from <= s@.len(),
    ensures
        r == lower_is(s@.subrange(from as int, s@.len() as int), lit@),
{
    let l = chars_of(lit);
    let ghost t = s@.subrange(from as int, s@.len() as int);
    let slen = s.len();
    if slen - from != l.len() {
        return false;
    }
    let mut k: usize = 0;
    while k < l.len()
        invariant
            l@ == lit@,
            t == s@.subrange(from as int, s@.len() as int),
            t.len() == l@.len(),
            from + l@.len() == s@.len(),
            s@.len() <= usize::MAX,
            k <= l@.len(),
            forall|q: int| 0 <= q < k ==> lower_ascii(#[trigger] t[q]) == l@[q],
        decreases l@.len() - k,
    {
        let c = s[from + k];
        assert(t[k as int] == c);
        let lc = if 'A' <= c && c <= 'Z' { ((c as u32) + 32) as u8 as char } else { c };
        assert(lc == lower_ascii(c)) by {
            if 'A' <= c && c <= 'Z' {
                assert((((c as u32) + 32) as u8 as char) == (((c as u32) + 32) as char));
            }
        }
        if lc != l[k] {
            return false;
        }
        k = k + 1;
    }
    true
}

/// The format an extension names: json, yaml or yml, toml (in any case).
pub open spec fn format_of_extension(e: Seq<char>) -> Option<ConfigFormat> {
    if lower_is(e, "json"@) {
        Some(ConfigFormat::Json)
    } else if lower_is(e, "yaml"@) || lower_is(e, "yml"@) {
        Some(ConfigFormat::Yaml)
    } else if lower_is(e, "toml"@) {
        Some(ConfigFormat::Toml)
    } else {
        None
    }
}

/// Number of bytes of the UTF-8 encoding of a text.
pub open spec fn utf8_len(s: Seq<char>) -> int
    decreases s.len(),
{
    if s.len() == 0 {
        0
    } else {
        utf8_len(s.drop_last()) + (if (s.last() as u32) < 0x80 {
            1int
        } else if (s.last() as u32) < 0x800 {
            2int
        } else if (s.last() as u32) < 0x10000 {
            3int
        } else {
            4int
        })
    }
}

/// The format the content suggests: braces around it mean JSON; a colon on a
/// text of several lines (or over 100 bytes) means YAML; brackets with an
/// equals sign mean TOML; anything else is plain text.
pub open spec fn format_of_content(trimmed: Seq<char>) -> ConfigFormat {
    if trimmed.len() > 0 && trimmed[0] == '{' && trimmed.last() == '}' {
        ConfigFormat::Json
    } else if trimmed.contains(':') && (trimmed.contains('\n') || utf8_len(trimmed) > 100) {
        ConfigFormat::Yaml
    } else if trimmed.contains('[') && trimmed.contains(']') && trimmed.contains('=') {
        ConfigFormat::Toml
    } else {
        ConfigFormat::Text
    }
}

/// A file's format: by its extension first, else by its trimmed content.
pub open spec fn spec_detect_format(path: Seq<char>, content: Seq<char>) -> ConfigFormat {
    match extension_of(path) {
        Some(e) => match format_of_extension(e) {
            Some(f) => f,
            None => format_of_content(trim_of(content)),
        },
        None => format_of_content(trim_of(content)),
    }
}

fn has_char(cs: &Vec<char>, c: char) -> (r: bool)
    ensures
        r == cs@.contains(c),
{
    let mut i: usize = 0;
    while i < cs.len()
        invariant
            i <= cs@.len(),
            forall|q: int| 0 <= q < i ==> cs@[q] != c,
        decreases cs@.len() - i,
    {
        if cs[i] == c {
            assert(cs@[i as int] == c);
            return true;
        }
        i = i + 1;
    }
    false
}

/// Whether the UTF-8 encoding of the text is longer than `limit` bytes.
fn utf8_longer_than(cs: &Vec<char>, limit: u64) -> (r: bool)
    ensures
        r == (utf8_len(cs@) > limit),
{
    let mut total: u64 = 0;
    let mut i: usize = 0;
    assert(cs@.take(0) =~= Seq::<char>::empty());
    while i < cs.len()
        invariant
            i <= cs@.len(),
            total as int == utf8_len(cs@.take(i as int)),
            total <= limit,
        decreases cs@.len() - i,
    {
        assert(cs@.take(i + 1).drop_last() =~= cs@.take(i as int));
        let c = cs[i] as u32;
        let w: u64 = if c < 0x80 { 1 } else if c < 0x800 { 2 } else if c < 0x10000 { 3 } else { 4 };
        if w > limit - total {
            proof {
                lemma_utf8_len_grows(cs@, i + 1);
            }
            return true;
        }
        total = total + w;
        i = i + 1;
    }
    assert(cs@.take(cs@.len() as int) =~= cs@);
    false
}

proof fn lemma_utf8_len_grows(s: Seq<char>, k: int)
    requires
        0 <= k <= s.len(),
    ensures
        utf8_len(s) >= utf8_len(s.take(k)),
    decreases s.len() - k,
{
    if k < s.len() {
        lemma_utf8_len_grows(s, k + 1);
        assert(s.take(k + 1).drop_last() =~= s.take(k));
    } else {
        assert(s.take(k) =~= s);
    }
}

/// The format of a configuration file, by extension first, then by content.
pub fn detect_config_format(path: &str, content: &str) -> (r: ConfigFormat)
    ensures
        r == spec_detect_format(path@, content@),
{
    let p = chars_of(path);
    let plen = p.len();
    proof { lemma_last_index_range(p@, '/'); }
    let start = match find_last(&p, '/') {
        Some(i) => i + 1,
        None => 0,
    };
    proof { lemma_last_index_range(p@, '/'); }
    let name = string_of_range(&p, start, p.len());
    let nc = chars_of(name.as_str());
    if let Some(dot) = find_last(&nc, '.') {
        if dot > 0 && !same_str(name.as_str(), "..") {
            proof { lemma_last_index_range(nc@, '.'); }
            let e_from = start + dot + 1;
            assert(p@.subrange(e_from as int, p@.len() as int) =~= nc@.subrange(dot + 1, nc@.len() as int));
            if lower_matches(&p, e_from, "json") {
                return ConfigFormat::Json;
            }
            if lower_matches(&p, e_from, "yaml") || lower_matches(&p, e_from, "yml") {
                return ConfigFormat::Yaml;
            }
            if lower_matches(&p, e_from, "toml") {
                return ConfigFormat::Toml;
            }
        }
    }
    let t = trim(content);
    let tc = chars_of(t.as_str());
    let n = tc.len();
    if n > 0 && tc[0] == '{' && tc[n - 1] == '}' {
        ConfigFormat::Json
    } else if has_char(&tc, ':') && (has_char(&tc, '\n') || utf8_longer_than(&tc, 100)) {
        ConfigFormat::Yaml
    } else if has_char(&tc, '[') && has_char(&tc, ']') && has_char(&tc, '=') {
        ConfigFormat::Toml
    } else {
        ConfigFormat::Text
    }
}

/// Rules of a plain-text file: each line, trimmed, that is neither empty nor
/// a '#' comment.
pub open spec fn text_rules_of(lines: Seq<Seq<char>>) -> Seq<Seq<char>>
    decreases lines.len(),
{
    if lines.len() == 0 {
        seq![]
    } else {
        let prev = text_rules_of(lines.drop_last());
        let t = trim_of(lines.last());
        if t.len() > 0 && t[0] != '#' {
            prev.push(t)
        } else {
            prev
        }
    }
}

/// `s` without leading occurrences of `c`.
pub open spec fn strip_start(s: Seq<char>, c: char) -> Seq<char>
    decreases s.len(),
{
    if s.len() > 0 && s[0] == c {
        strip_start(s.drop_first(), c)
    } else {
        s
    }
}

/// `s` without trailing occurrences of `c`.
pub open spec fn strip_end(s: Seq<char>, c: char) -> Seq<char>
    decreases s.len(),
{
    if s.len() > 0 && s.last() == c {
        strip_end(s.drop_last(), c)
    } else {
        s
    }
}

/// `s` without leading and trailing occurrences of `c`, as `str::trim_matches`.
pub open spec fn strip_both(s: Seq<char>, c: char) -> Seq<char> {
    strip_end(strip_start(s, c), c)
}

/// Removes leading and trailing occurrences of `c`.
pub fn trim_char(s: &str, c: char) -> (r: String)
    ensures
        r@ == strip_both(s@, c),
{
    let cs = chars_of(s);
    let n = cs.len();
    let mut i: usize = 0;
    assert(cs@.subrange(0, n as int) =~= cs@);
    while i < n && cs[i] == c
        invariant
            cs@ == s@,
            n == cs@.len(),
            i <= n,
            strip_start(cs@, c) == strip_start(cs@.subrange(i as int, n as int), c),
        decreases n - i,
    {
        assert(cs@.subrange(i as int, n as int).drop_first() =~= cs@.subrange(i + 1, n as int));
        i = i + 1;
    }
    let ghost a = cs@.subrange(i as int, n as int);
    assert(strip_start(a, c) == a);
    let mut j: usize = n;
    assert(a.subrange(0, (j - i) as int) =~= a);
    while j > i && cs[j - 1] == c
        invariant
            cs@ == s@,
            n == cs@.len(),
            i <= j <= n,
            a == cs@.subrange(i as int, n as int),
            strip_end(a, c) == strip_end(cs@.subrange(i as int, j as int), c),
        decreases j,
    {
        assert(cs@.subrange(i as int, j as int).drop_last() =~= cs@.subrange(i as int, j - 1));
        j = j - 1;
    }
    string_of_range(&cs, i, j)
}

/// The value of a TOML `rule... = value` line: the text between the first and
/// second '=', trimmed, then stripped of double and then single quotes.
pub open spec fn toml_rule_value(t: Seq<char>) -> Seq<char> {
    strip_both(strip_both(trim_of(split_on(t, '=')[1]), '"'), '\'')
}

/// Rules of a TOML file: each trimmed line that starts with "rule" and has an
/// '=' gives its value, where that is not empty.
pub open spec fn toml_rules_of(lines: Seq<Seq<char>>) -> Seq<Seq<char>>
    decreases lines.len(),
{
    if lines.len() == 0 {
        seq![]
    } else {
        let prev = toml_rules_of(lines.drop_last());
        let t = trim_of(lines.last());
        if t.len() >= 4 && t.take(4) == "rule"@ && t.contains('=') && toml_rule_value(t).len() > 0 {
            prev.push(toml_rule_value(t))
        } else {
            prev
        }
    }
}

/// The rules one configuration file yields, by its format; a JSON or YAML file
/// that does not parse yields none.
pub open spec fn spec_file_rules(f: AgentConfigFile) -> Seq<Seq<char>> {
    match f.format {
        ConfigFormat::Json => match json_tree_of(f.content@) {
            Some(t) => rules_of(t),
            None => seq![],
        },
        ConfigFormat::Yaml => match yaml_tree_of(f.content@) {
            Some(t) => rules_of(t),
            None => seq![],
        },
        ConfigFormat::Text => text_rules_of(split_on(f.content@, '\n')),
        ConfigFormat::Toml => toml_rules_of(split_on(f.content@, '\n')),
    }
}

/// The rules of all files, in order.
pub open spec fn spec_all_rules(files: Seq<AgentConfigFile>) -> Seq<Seq<char>>
    decreases files.len(),
{
    if files.len() == 0 {
        seq![]
    } else {
        spec_all_rules(files.drop_last()) + spec_file_rules(files.last())
    }
}

/// The named prompts of one file: only JSON and YAML files have any.
pub open spec fn spec_file_prompts(f: AgentConfigFile) -> Map<Seq<char>, Seq<char>> {
    match f.format {
        ConfigFormat::Json => match json_tree_of(f.content@) {
            Some(t) => prompts_of(t),
            None => Map::empty(),
        },
        ConfigFormat::Yaml => match yaml_tree_of(f.content@) {
            Some(t) => prompts_of(t),
            None => Map::empty(),
        },
        _ => Map::empty(),
    }
}

/// The named prompts of all files; a later file wins on a shared name.
pub open spec fn spec_all_prompts(files: Seq<AgentConfigFile>) -> Map<Seq<char>, Seq<char>>
    decreases files.len(),
{
    if files.len() == 0 {
        Map::empty()
    } else {
        spec_all_prompts(files.drop_last()).union_prefer_right(spec_file_prompts(files.last()))
    }
}

fn starts_with_rule(cs: &Vec<char>) -> (r: bool)
    ensures
        r == (cs@.len() >= 4 && cs@.take(4) == "rule"@),
{
    proof {
        reveal_strlit("rule");
    }
    if cs.len() < 4 {
        return false;
    }
    let r = cs[0] == 'r' && cs[1] == 'u' && cs[2] == 'l' && cs[3] == 'e';
    if r {
        assert(cs@.take(4) =~= "rule"@);
    } else {
        assert(cs@.take(4) != "rule"@) by {
            if cs@.take(4) == "rule"@ {
                assert(cs@.take(4)[0] == 'r' && cs@.take(4)[1] == 'u');
                assert(cs@.take(4)[2] == 'l' && cs@.take(4)[3] == 'e');
            }
        }
    }
    r
}

/// Appends the rules of the lines of a plain-text or TOML file.
fn line_rules(content: &str, toml: bool, out: &mut Vec<String>)
    ensures
        texts(final(out)@) == texts(old(out)@) + (if toml {
            toml_rules_of(split_on(content@, '\n'))
        } else {
            text_rules_of(split_on(content@, '\n'))
        }),
{
    let lines = split_text(content, '\n');
    let ghost ls = lines@.map_values(|p: String| p@);
    let ghost start = texts(out@);
    let mut j: usize = 0;
    assert(ls.take(0) =~= Seq::<Seq<char>>::empty());
    assert(texts(out@) =~= start + Seq::<Seq<char>>::empty());
    while j < lines.len()
        invariant
            ls == lines@.map_values(|p: String| p@),
            ls == split_on(content@, '\n'),
            j <= lines@.len(),
            texts(out@) == start + (if toml {
                toml_rules_of(ls.take(j as int))
            } else {
                text_rules_of(ls.take(j as int))
            }),
        decreases lines@.len() - j,
    {
        assert(ls.take(j + 1).drop_last() =~= ls.take(j as int));
        assert(ls.take(j + 1).last() == lines@[j as int]@);
        let t = trim(lines[j].as_str());
        let tc = chars_of(t.as_str());
        let ghost before = texts(out@);
        let ghost line = ls[j as int];
        assert(t@ == trim_of(line));
        if toml {
            let mut pushed = false;
            if starts_with_rule(&tc) && has_char(&tc, '=') {
                let pieces = split_text(t.as_str(), '=');
                assert(pieces@.len() >= 2) by {
                    crate::text::lemma_split_on_has_piece_after(tc@, '=');
                }
                assert(pieces@.map_values(|p: String| p@)[1] == pieces@[1]@);
                let v1 = trim(pieces[1].as_str());
                let v2 = trim_char(v1.as_str(), '"');
                let v3 = trim_char(v2.as_str(), '\'');
                assert(v3@ == toml_rule_value(t@));
                if !v3.as_str().is_empty() {
                    out.push(v3);
                    pushed = true;
                    assert(texts(out@) =~= before.push(toml_rule_value(t@)));
                }
            }
            assert(texts(out@) == start + toml_rules_of(ls.take(j + 1))) by {
                if !pushed {
                    assert(toml_rules_of(ls.take(j + 1)) == toml_rules_of(ls.take(j as int)));
                } else {
                    assert(toml_rules_of(ls.take(j + 1)) == toml_rules_of(ls.take(j as int)).push(toml_rule_value(t@)));
                    assert(texts(out@) =~= start + toml_rules_of(ls.take(j + 1)));
                }
            }
        } else {
            if tc.len() > 0 && tc[0] != '#' {
                out.push(t);
                assert(texts(out@) =~= before.push(trim_of(line)));
                assert(texts(out@) =~= start + text_rules_of(ls.take(j + 1)));
            } else {
                assert(text_rules_of(ls.take(j + 1)) == text_rules_of(ls.take(j as int)));
            }
        }
        j = j + 1;
    }
    assert(ls.take(lines@.len() as int) =~= ls);
}

/// The rules of every configuration file, in order: structured files yield the
/// rules found under their rule keys, plain-text files their non-comment lines,
/// TOML files the values of their `rule...` lines.
pub fn extract_rules(files: &Vec<AgentConfigFile>) -> (r: Vec<String>)
    ensures
        texts(r@) == spec_all_rules(files@),
{
    let mut out: Vec<String> = Vec::new();
    let mut i: usize = 0;
    assert(files@.take(0) =~= Seq::<AgentConfigFile>::empty());
    assert(texts(out@) =~= Seq::<Seq<char>>::empty());
    while i < files.len()
        invariant
            i <= files@.len(),
            texts(out@) == spec_all_rules(files@.take(i as int)),
        decreases files@.len() - i,
    {
        assert(files@.take(i + 1).drop_last() =~= files@.take(i as int));
        assert(files@.take(i + 1).last() == files@[i as int]);
        let f = &files[i];
        match f.format {
            ConfigFormat::Json => {
                if let Some(t) = parse_json_tree(f.content.as_str()) {
                    collect_rules(&t, &mut out);
                } else {
                    assert(texts(out@) =~= texts(out@) + Seq::<Seq<char>>::empty());
                }
            },
            ConfigFormat::Yaml => {
                if let Some(t) = parse_yaml_tree(f.content.as_str()) {
                    collect_rules(&t, &mut out);
                } else {
                    assert(texts(out@) =~= texts(out@) + Seq::<Seq<char>>::empty());
                }
            },
            ConfigFormat::Text => line_rules(f.content.as_str(), false, &mut out),
            ConfigFormat::Toml => line_rules(f.content.as_str(), true, &mut out),
        }
        i = i + 1;
    }
    assert(files@.take(files@.len() as int) =~= files@);
    out
}

/// The named prompt overrides of every configuration file; a later file wins
/// on a shared name.
pub fn extract_custom_prompts(files: &Vec<AgentConfigFile>) -> (r: Vec<(String, String)>)
    ensures
        flag_map(r@) == spec_all_prompts(files@),
{
    let mut acc: Vec<(String, String)> = Vec::new();
    let mut i: usize = 0;
    assert(files@.take(0) =~= Seq::<AgentConfigFile>::empty());
    assert(flag_map(acc@) =~= Map::<Seq<char>, Seq<char>>::empty());
    while i < files.len()
        invariant
            i <= files@.len(),
            flag_map(acc@) == spec_all_prompts(files@.take(i as int)),
        decreases files@.len() - i,
    {
        assert(files@.take(i + 1).drop_last() =~= files@.take(i as int));
        assert(files@.take(i + 1).last() == files@[i as int]);
        let f = &files[i];
        let tree = match f.format {
            ConfigFormat::Json => parse_json_tree(f.content.as_str()),
            ConfigFormat::Yaml => parse_yaml_tree(f.content.as_str()),
            _ => None,
        };
        match tree {
            Some(t) => {
                acc = collect_prompts(&t, acc);
            },
            None => {
                assert(flag_map(acc@) =~= flag_map(acc@).union_prefer_right(Map::empty()));
            },
        }
        i = i + 1;
    }
    assert(files@.take(files@.len() as int) =~= files@);
    acc
}

/// A configuration file as plain values: path, content and format.
pub open spec fn file_view(f: AgentConfigFile) -> (Seq<char>, Seq<char>, ConfigFormat) {
    (f.path@, f.content@, f.format)
}

pub open spec fn files_view(v: Seq<AgentConfigFile>) -> Seq<(Seq<char>, Seq<char>, ConfigFormat)> {
    v.map_values(|f: AgentConfigFile| file_view(f))
}

/// Whether some file of `v` has path `p`.
pub open spec fn path_seen(v: Seq<(Seq<char>, Seq<char>, ConfigFormat)>, p: Seq<char>) -> bool {
    exists|k: int| 0 <= k < v.len() && (#[trigger] v[k]).0 == p
}

/// The files with the first of each repeated path kept, in order.
pub open spec fn spec_dedup_files(v: Seq<(Seq<char>, Seq<char>, ConfigFormat)>) -> Seq<(Seq<char>, Seq<char>, ConfigFormat)>
    decreases v.len(),
{
    if v.len() == 0 {
        seq![]
    } else {
        let prev = spec_dedup_files(v.drop_last());
        if path_seen(prev, v.last().0) {
            prev
        } else {
            prev.push(v.last())
        }
    }
}

/// Paths strictly ascending in code-point order (the byte order of their UTF-8).
pub open spec fn paths_ascending(v: Seq<(Seq<char>, Seq<char>, ConfigFormat)>) -> bool {
    forall|i: int, j: int| 0 <= i < j < v.len() ==> text_lt(#[trigger] v[i].0, #[trigger] v[j].0)
}

/// Two lists with the same members have the same paths.
proof fn lemma_same_members_paths(
    a: Seq<(Seq<char>, Seq<char>, ConfigFormat)>,
    b: Seq<(Seq<char>, Seq<char>, ConfigFormat)>,
    p: Seq<char>,
)
    requires
        forall|z: (Seq<char>, Seq<char>, ConfigFormat)| #[trigger] a.contains(z) <==> b.contains(z),
    ensures
        path_seen(a, p) == path_seen(b, p),
{
    if path_seen(a, p) {
        let k = choose|k: int| 0 <= k < a.len() && (#[trigger] a[k]).0 == p;
        assert(a.contains(a[k]));
        assert(b.contains(a[k]));
        let m = choose|m: int| 0 <= m < b.len() && b[m] == a[k];
        assert(b[m].0 == p);
    }
    if path_seen(b, p) {
        let k = choose|k: int| 0 <= k < b.len() && (#[trigger] b[k]).0 == p;
        assert(b.contains(b[k]));
        assert(a.contains(b[k]));
        let m = choose|m: int| 0 <= m < a.len() && a[m] == b[k];
        assert(a[m].0 == p);
    }
}

/// Adds a file to a list ascending by path, unless its path is already listed.
fn insert_file(v: &mut Vec<AgentConfigFile>, f: &AgentConfigFile)
    requires
        paths_ascending(files_view(old(v)@)),
    ensures
        paths_ascending(files_view(final(v)@)),
        path_seen(files_view(old(v)@), f.path@) ==> files_view(final(v)@) == files_view(old(v)@),
        !path_seen(files_view(old(v)@), f.path@) ==> forall|z: (Seq<char>, Seq<char>, ConfigFormat)|
            #[trigger] files_view(final(v)@).contains(z) <==> (files_view(old(v)@).contains(z) || z == file_view(*f)),
{
    let ghost o = files_view(v@);
    let ghost p = f.path@;
    let mut pos: usize = 0;
    while pos < v.len() && text_less(v[pos].path.as_str(), f.path.as_str())
        invariant
            pos <= v@.len(),
            o == files_view(v@),
            p == f.path@,
            forall|k: int| 0 <= k < pos ==> text_lt(#[trigger] o[k].0, p),
        decreases v@.len() - pos,
    {
        assert(o[pos as int] == file_view(v@[pos as int]));
        pos = pos + 1;
    }
    if pos < v.len() && v[pos].path.eq(&f.path) {
        assert(o[pos as int].0 == p);
        return;
    }
    assert(!path_seen(o, p)) by {
        if path_seen(o, p) {
            let k = choose|k: int| 0 <= k < o.len() && (#[trigger] o[k]).0 == p;
            if k < pos {
                lemma_text_lt_irreflexive(p);
            } else if k > pos {
                assert(text_lt(o[pos as int].0, o[k].0));
                lemma_text_lt_total(o[pos as int].0, p);
                lemma_text_lt_transitive(p, o[pos as int].0, o[k].0);
                lemma_text_lt_irreflexive(p);
            }
        }
    }
    if pos < v.len() {
        proof {
            lemma_text_lt_total(o[pos as int].0, p);
        }
    }
    let g = AgentConfigFile { path: f.path.clone(), content: f.content.clone(), format: f.format };
    let ghost xv = file_view(g);
    assert(xv == file_view(*f));
    v.insert(pos, g);
    proof {
        let n = files_view(v@);
        assert(n =~= o.insert(pos as int, xv));
        assert forall|i: int, j: int| 0 <= i < j < n.len() implies text_lt(#[trigger] n[i].0, #[trigger] n[j].0) by {
            if j < pos {
                assert(n[i] == o[i] && n[j] == o[j]);
            } else if j == pos {
                assert(n[i] == o[i]);
            } else if i == pos {
                assert(n[j] == o[j - 1]);
                if j - 1 > pos {
                    assert(text_lt(o[pos as int].0, o[j - 1].0));
                    lemma_text_lt_transitive(p, o[pos as int].0, o[j - 1].0);
                }
            } else if i < pos {
                assert(n[i] == o[i] && n[j] == o[j - 1]);
            } else {
                assert(n[i] == o[i - 1] && n[j] == o[j - 1]);
            }
        }
        assert forall|z: (Seq<char>, Seq<char>, ConfigFormat)| #[trigger] n.contains(z) <==> (o.contains(z) || z == xv) by {
            if n.contains(z) {
                let k = choose|k: int| 0 <= k < n.len() && n[k] == z;
                if k < pos {
                    assert(o[k] == z);
                } else if k > pos {
                    assert(o[k - 1] == z);
                }
            }
            if o.contains(z) {
                let k = choose|k: int| 0 <= k < o.len() && o[k] == z;
                if k < pos {
                    assert(n[k] == z);
                } else {
                    assert(n[k + 1] == z);
                }
            }
            if z == xv {
                assert(n[pos as int] == z);
            }
        }
    }
}

/// The files ascending by path, one per path: of several files with the same
/// path, the first one found is kept.
pub fn dedup_by_path(files: &Vec<AgentConfigFile>) -> (r: Vec<AgentConfigFile>)
    ensures
        paths_ascending(files_view(r@)),
        forall|z: (Seq<char>, Seq<char>, ConfigFormat)|
            #[trigger] files_view(r@).contains(z) <==> spec_dedup_files(files_view(files@)).contains(z),
{
    let mut out: Vec<AgentConfigFile> = Vec::new();
    let mut i: usize = 0;
    let ghost fv = files_view(files@);
    assert(fv.take(0) =~= Seq::<(Seq<char>, Seq<char>, ConfigFormat)>::empty());
    assert(files_view(out@) =~= Seq::<(Seq<char>, Seq<char>, ConfigFormat)>::empty());
    while i < files.len()
        invariant
            fv == files_view(files@),
            i <= files@.len(),
            paths_ascending(files_view(out@)),
            forall|z: (Seq<char>, Seq<char>, ConfigFormat)|
                #[trigger] files_view(out@).contains(z) <==> spec_dedup_files(fv.take(i as int)).contains(z),
        decreases files@.len() - i,
    {
        let ghost d0 = spec_dedup_files(fv.take(i as int));
        let ghost o = files_view(out@);
        assert(fv.take(i + 1).drop_last() =~= fv.take(i as int));
        assert(fv.take(i + 1).last() == fv[i as int]);
        let ghost x = fv[i as int];
        proof {
            lemma_same_members_paths(o, d0, x.0);
        }
        insert_file(&mut out, &files[i]);
        proof {
            let d1 = spec_dedup_files(fv.take(i + 1));
            if !path_seen(d0, x.0) {
                assert(d1 == d0.push(x));
                assert forall|z: (Seq<char>, Seq<char>, ConfigFormat)| #[trigger] d1.contains(z) <==> (d0.contains(z) || z == x) by {
                    if d1.contains(z) {
                        let k = choose|k: int| 0 <= k < d1.len() && d1[k] == z;
                        if k < d0.len() {
                            assert(d0[k] == z);
                        }
                    }
                    if d0.contains(z) {
                        let k = choose|k: int| 0 <= k < d0.len() && d0[k] == z;
                        assert(d1[k] == z);
                    }
                    if z == x {
                        assert(d1[d0.len() as int] == z);
                    }
                }
            }
        }
        i = i + 1;
    }
    assert(fv.take(files@.len() as int) =~= fv);
    out
}

/// Whether a file found in the configuration subdirectory is read: its
/// extension is json, yaml, yml or toml, in any case.
pub fn is_config_dir_file(path: &str) -> (r: bool)
    ensures
        r == (extension_of(path@) matches Some(e) && format_of_extension(e) is Some),
{
    let p = chars_of(path);
    let plen = p.len();
    proof { lemma_last_index_range(p@, '/'); }
    let start = match find_last(&p, '/') {
        Some(i) => i + 1,
        None => 0,
    };
    let name = string_of_range(&p, start, p.len());
    let nc = chars_of(name.as_str());
    if let Some(dot) = find_last(&nc, '.') {
        if dot > 0 && !same_str(name.as_str(), "..") {
            proof { lemma_last_index_range(nc@, '.'); }
            let e_from = start + dot + 1;
            assert(p@.subrange(e_from as int, p@.len() as int) =~= nc@.subrange(dot + 1, nc@.len() as int));
            return lower_matches(&p, e_from, "json") || lower_matches(&p, e_from, "yaml")
                || lower_matches(&p, e_from, "yml") || lower_matches(&p, e_from, "toml");
        }
    }
    false
}

/// The tool-configuration snapshot of the discovered files: the files sorted
/// by path with repeated paths dropped (the first one found is kept), their
/// rules in that order, and their named prompts.
pub fn agent_context(files: Vec<AgentConfigFile>) -> (r: ContextData)
    ensures
        r matches ContextData::Agent(a) && {
            &&& paths_ascending(files_view(a.config_files@))
            &&& forall|z: (Seq<char>, Seq<char>, ConfigFormat)| #[trigger] files_view(a.config_files@).contains(z)
                <==> spec_dedup_files(files_view(files@)).contains(z)
            &&& texts(a.rules@) == spec_all_rules(a.config_files@)
            &&& flag_map(a.custom_prompts@) == spec_all_prompts(a.config_files@)
        },
{
    let config_files = dedup_by_path(&files);
    let rules = extract_rules(&config_files);
    let custom_prompts = extract_custom_prompts(&config_files);
    ContextData::Agent(AgentContext { config_files, rules, custom_prompts })
}

} // verus!
