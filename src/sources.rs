//! Ranked configuration sources and the typed reading of their values.
//!
//! A source is a list of `section.field = text` entries. Sources are kept
//! lowest precedence first: the value of a key is the one of the last
//! source that holds it, and within a source the last entry for it.

use vstd::prelude::*;
use vstd::string::{StrSliceExecFns, StringExecFns};

verus! {

/// One `key = value` entry of a source, with dotted `section.field` keys.
pub struct Entry {
    pub key: String,
    pub value: String,
}

/// One ranked provider of configuration values.
pub struct Source {
    pub entries: Vec<Entry>,
}

/// Errors of configuration resolution.
#[derive(Clone, Debug, PartialEq, Eq)]
pub enum ConfigError {
    /// The value under this key cannot be read as the field's type.
    Malformed(String),
    /// The merged configuration breaks an invariant; the text says which.
    Invalid(String),
}

/// The value a single source gives `key`: that of its last entry for it.
pub open spec fn source_value(s: Seq<Entry>, key: Seq<char>) -> Option<Seq<char>>
    decreases s.len(),
{
    if s.len() == 0 {
        None
    } else if s.last().key@ == key {
        Some(s.last().value@)
    } else {
        source_value(s.drop_last(), key)
    }
}

/// The value the ranked sources give `key`: that of the highest-ranked
/// source holding it, or none when no source holds it.
pub open spec fn layered_value(srcs: Seq<Source>, key: Seq<char>) -> Option<Seq<char>>
    decreases srcs.len(),
{
    if srcs.len() == 0 {
        None
    } else {
        match source_value(srcs.last().entries@, key) {
            Some(v) => Some(v),
            None => layered_value(srcs.drop_last(), key),
        }
    }
}

fn source_lookup<'a>(s: &'a Source, key: &String) -> (r: Option<&'a String>)
    ensures
        r is None <==> source_value(s.entries@, key@) is None,
        r matches Some(v) ==> source_value(s.entries@, key@) == Some(v@),
{
    let mut i: usize = s.entries.len();
    assert(s.entries@.take(i as int) =~= s.entries@);
    while i > 0
        invariant
            i <= s.entries@.len(),
            source_value(s.entries@, key@) == source_value(s.entries@.take(i as int), key@),
        decreases i,
    {
        let e = &s.entries[i - 1];
        assert(s.entries@.take(i as int).drop_last() =~= s.entries@.take(i - 1));
        if e.key == *key {
            return Some(&e.value);
        }
        i = i - 1;
    }
    None
}

/// The value of `key` over the ranked `sources`.
pub fn lookup<'a>(sources: &'a Vec<Source>, key: &str) -> (r: Option<&'a String>)
    ensures
        r is None <==> layered_value(sources@, key@) is None,
        r matches Some(v) ==> layered_value(sources@, key@) == Some(v@),
{
    let k = String::from_str(key);
    let mut i: usize = sources.len();
    assert(sources@.take(i as int) =~= sources@);
    while i > 0
        invariant
            i <= sources@.len(),
            k@ == key@,
            layered_value(sources@, key@) == layered_value(sources@.take(i as int), key@),
        decreases i,
    {
        assert(sources@.take(i as int).drop_last() =~= sources@.take(i - 1));
        match source_lookup(&sources[i - 1], &k) {
            Some(v) => return Some(v),
            None => {},
        }
        i = i - 1;
    }
    None
}

/// Whether `c` is a decimal digit.
pub open spec fn is_digit(c: char) -> bool {
    '0' <= c && c <= '9'
}

pub open spec fn digit_value(c: char) -> nat {
    (c as u32 - '0' as u32) as nat
}

/// Whether `s` is a non-empty run of decimal digits.
pub open spec fn is_decimal(s: Seq<char>) -> bool {
    s.len() > 0 && forall|i: int| 0 <= i < s.len() ==> is_digit(#[trigger] s[i])
}

/// The number written by the digits of `s`.
pub open spec fn decimal_value(s: Seq<char>) -> nat
    decreases s.len(),
{
    if s.len() == 0 {
        0
    } else {
        decimal_value(s.drop_last()) * 10 + digit_value(s.last())
    }
}

proof fn lemma_decimal_grows(s: Seq<char>, i: int)
    requires
        0 <= i < s.len(),
        is_digit(s[i]),
    ensures
        decimal_value(s.take(i + 1)) >= decimal_value(s.take(i)),
{
    assert(s.take(i + 1).drop_last() =~= s.take(i));
}

proof fn lemma_decimal_prefix_bound(s: Seq<char>, i: int)
    requires
        0 <= i <= s.len(),
        is_decimal(s),
    ensures
        decimal_value(s) >= decimal_value(s.take(i)),
    decreases s.len() - i,
{
    if i < s.len() {
        lemma_decimal_grows(s, i);
        lemma_decimal_prefix_bound(s, i + 1);
    } else {
        assert(s.take(i) =~= s);
    }
}

/// Reads `s` as a decimal number no greater than `max`.
pub fn parse_decimal(s: &str, max: u64) -> (r: Option<u64>)
    ensures
        r is Some <==> is_decimal(s@) && decimal_value(s@) <= max,
        r matches Some(v) ==> v == decimal_value(s@),
{
    let n = s.unicode_len();
    if n == 0 {
        return None;
    }
    let mut v: u64 = 0;
    let mut i: usize = 0;
    while i < n
        invariant
            n == s@.len(),
            i <= n,
            forall|k: int| 0 <= k < i ==> is_digit(#[trigger] s@[k]),
            v == decimal_value(s@.take(i as int)),
            v <= max,
        decreases n - i,
    {
        let c = s.get_char(i);
        if !('0' <= c && c <= '9') {
            return None;
        }
        let d = (c as u32 - '0' as u32) as u64;
        assert(s@.take(i + 1).drop_last() =~= s@.take(i as int));
        if d > max || v > (max - d) / 10 {
            proof {
                assert(v * 10 + d > max) by (nonlinear_arith)
                    requires
                        d > max || v > (max - d) / 10,
                        v >= 0,
                ;
                if is_decimal(s@) {
                    lemma_decimal_prefix_bound(s@, i + 1);
                }
            }
            return None;
        }
        v = v * 10 + d;
        i = i + 1;
    }
    assert(s@.take(n as int) =~= s@);
    Some(v)
}

/// The text under `key`, or `default` when no source holds it.
pub open spec fn text_or(srcs: Seq<Source>, key: Seq<char>, default: Seq<char>) -> Seq<char> {
    match layered_value(srcs, key) {
        Some(v) => v,
        None => default,
    }
}

/// Whether the value under `key`, if any, is a decimal number up to `max`.
pub open spec fn number_readable(srcs: Seq<Source>, key: Seq<char>, max: nat) -> bool {
    match layered_value(srcs, key) {
        Some(v) => is_decimal(v) && decimal_value(v) <= max,
        None => true,
    }
}

/// The number under `key`, or `default` when no source holds it.
pub open spec fn number_or(srcs: Seq<Source>, key: Seq<char>, default: nat) -> nat {
    match layered_value(srcs, key) {
        Some(v) => decimal_value(v),
        None => default,
    }
}

/// Whether the value under `key`, if any, is `true` or `false`.
pub open spec fn flag_readable(srcs: Seq<Source>, key: Seq<char>) -> bool {
    match layered_value(srcs, key) {
        Some(v) => v == "true"@ || v == "false"@,
        None => true,
    }
}

/// The flag under `key`, or `default` when no source holds it.
pub open spec fn flag_or(srcs: Seq<Source>, key: Seq<char>, default: bool) -> bool {
    match layered_value(srcs, key) {
        Some(v) => v == "true"@,
        None => default,
    }
}

/// The parts joined back with commas between them.
pub open spec fn join_commas(parts: Seq<Seq<char>>) -> Seq<char>
    decreases parts.len(),
{
    if parts.len() <= 1 {
        if parts.len() == 0 { Seq::empty() } else { parts[0] }
    } else {
        join_commas(parts.drop_last()) + seq![','] + parts.last()
    }
}

/// `parts` is `s` cut at each of its commas.
pub open spec fn is_comma_split(s: Seq<char>, parts: Seq<Seq<char>>) -> bool {
    &&& parts.len() > 0
    &&& join_commas(parts) == s
    &&& forall|i: int, j: int| 0 <= i < parts.len() && 0 <= j < parts[i].len() ==> #[trigger] parts[i][j] != ','
}

/// The text under `key`, as a `String`.
pub fn read_text(sources: &Vec<Source>, key: &str, default: &str) -> (r: String)
    ensures
        r@ == text_or(sources@, key@, default@),
{
    match lookup(sources, key) {
        Some(v) => v.clone(),
        None => String::from_str(default),
    }
}

/// The text under `key`, if any source holds it.
pub fn read_optional(sources: &Vec<Source>, key: &str) -> (r: Option<String>)
    ensures
        r is None <==> layered_value(sources@, key@) is None,
        r matches Some(v) ==> layered_value(sources@, key@) == Some(v@),
{
    match lookup(sources, key) {
        Some(v) => Some(v.clone()),
        None => None,
    }
}

/// The number under `key`, at most `max`; `Malformed(key)` when the text
/// is not such a number.
pub fn read_number(sources: &Vec<Source>, key: &str, default: u64, max: u64) -> (r: Result<u64, ConfigError>)
    requires
        default <= max,
    ensures
        r is Ok <==> number_readable(sources@, key@, max as nat),
        r matches Ok(v) ==> v == number_or(sources@, key@, default as nat),
        r matches Err(e) ==> (e matches ConfigError::Malformed(k) && k@ == key@),
{
    match lookup(sources, key) {
        Some(v) => match parse_decimal(v.as_str(), max) {
            Some(n) => Ok(n),
            None => Err(ConfigError::Malformed(String::from_str(key))),
        },
        None => Ok(default),
    }
}

/// The flag under `key`; `Malformed(key)` when the text is neither `true`
/// nor `false`.
pub fn read_flag(sources: &Vec<Source>, key: &str, default: bool) -> (r: Result<bool, ConfigError>)
    ensures
        r is Ok <==> flag_readable(sources@, key@),
        r matches Ok(b) ==> b == flag_or(sources@, key@, default),
        r matches Err(e) ==> (e matches ConfigError::Malformed(k) && k@ == key@),
{
    let t = String::from_str("true");
    let f = String::from_str("false");
    proof {
        reveal_strlit("true");
        reveal_strlit("false");
    }
    match lookup(sources, key) {
        Some(v) => {
            if *v == t {
                Ok(true)
            } else if *v == f {
                Ok(false)
            } else {
                Err(ConfigError::Malformed(String::from_str(key)))
            }
        },
        None => Ok(default),
    }
}

/// `s` cut at each of its commas.
pub fn split_commas(s: &str) -> (r: Vec<String>)
    ensures
        is_comma_split(s@, r@.map_values(|p: String| p@)),
{
    let n = s.unicode_len();
    let mut parts: Vec<String> = Vec::new();
    let mut start: usize = 0;
    let mut i: usize = 0;
    while i < n
        invariant
            n == s@.len(),
            start <= i <= n,
            parts@.len() == 0 ==> start == 0,
            parts@.len() > 0 ==> join_commas(parts@.map_values(|p: String| p@)) + seq![',']
                == s@.subrange(0, start as int),
            forall|a: int, b: int|
                0 <= a < parts@.len() && 0 <= b < parts@[a]@.len() ==> #[trigger] parts@[a]@[b] != ',',
            forall|b: int| start <= b < i ==> #[trigger] s@[b] != ',',
        decreases n - i,
    {
        let c = s.get_char(i);
        if c == ',' {
            let part = String::from_str(s.substring_char(start, i));
            let ghost old_parts = parts@.map_values(|p: String| p@);
            parts.push(part);
            proof {
                let ps = parts@.map_values(|p: String| p@);
                assert(ps.drop_last() =~= old_parts);
                assert(ps.last() == s@.subrange(start as int, i as int));
                if old_parts.len() == 0 {
                    assert(ps.len() == 1);
                    assert(join_commas(ps) == ps[0]);
                    assert(join_commas(ps) + seq![','] =~= s@.subrange(0, i + 1));
                } else {
                    assert(join_commas(ps) == join_commas(old_parts) + seq![','] + ps.last());
                    assert(join_commas(ps) + seq![','] =~= s@.subrange(0, i + 1));
                }
                assert forall|a: int, b: int|
                    0 <= a < parts@.len() && 0 <= b < parts@[a]@.len() implies #[trigger] parts@[a]@[b] != ',' by {
                    if a == parts@.len() - 1 {
                        assert(parts@[a]@[b] == s@[start + b]);
                    }
                }
            }
            start = i + 1;
        }
        i = i + 1;
    }
    let last = String::from_str(s.substring_char(start, n));
    let ghost old_parts = parts@.map_values(|p: String| p@);
    parts.push(last);
    proof {
        let ps = parts@.map_values(|p: String| p@);
        assert(ps.drop_last() =~= old_parts);
        if old_parts.len() == 0 {
            assert(join_commas(ps) =~= s@);
        } else {
            assert(join_commas(ps) == join_commas(old_parts) + seq![','] + ps.last());
            assert(join_commas(ps) =~= s@);
        }
        assert forall|a: int, b: int| 0 <= a < ps.len() && 0 <= b < ps[a].len() implies #[trigger] ps[a][b] != ',' by {
            assert(ps[a] == parts@[a]@);
            if a == parts@.len() - 1 {
                assert(parts@[a]@[b] == s@[start + b]);
            }
        }
    }
    parts
}

/// A text has one comma split only.
pub proof fn lemma_comma_split_unique(t: Seq<char>, a: Seq<Seq<char>>, b: Seq<Seq<char>>)
    requires
        is_comma_split(t, a),
        is_comma_split(t, b),
    ensures
        a == b,
    decreases a.len(),
{
    if a.len() == 1 && b.len() == 1 {
        assert(a =~= b);
    } else if a.len() == 1 {
        let pb = join_commas(b.drop_last());
        assert(t[pb.len() as int] == ',');
        assert(t == a[0]);
        assert(a[0][pb.len() as int] != ',');
    } else if b.len() == 1 {
        let pa = join_commas(a.drop_last());
        assert(t[pa.len() as int] == ',');
        assert(t == b[0]);
        assert(b[0][pa.len() as int] != ',');
    } else {
        let pa = join_commas(a.drop_last());
        let pb = join_commas(b.drop_last());
        let la = a.last();
        let lb = b.last();
        assert(t == pa + seq![','] + la);
        assert(t == pb + seq![','] + lb);
        if pa.len() < pb.len() {
            assert(t[pb.len() as int] == ',');
            assert(t[pb.len() as int] == la[pb.len() - pa.len() - 1]);
            assert(a[a.len() - 1][pb.len() - pa.len() - 1] != ',');
        } else if pb.len() < pa.len() {
            assert(t[pa.len() as int] == ',');
            assert(t[pa.len() as int] == lb[pa.len() - pb.len() - 1]);
            assert(b[b.len() - 1][pa.len() - pb.len() - 1] != ',');
        } else {
            assert(pa =~= t.subrange(0, pa.len() as int));
            assert(pb =~= t.subrange(0, pb.len() as int));
            assert(la =~= t.subrange(pa.len() as int + 1, t.len() as int));
            assert(lb =~= t.subrange(pb.len() as int + 1, t.len() as int));
            assert forall|i: int, j: int| 0 <= i < a.drop_last().len() && 0 <= j < a.drop_last()[i].len()
                implies #[trigger] a.drop_last()[i][j] != ',' by {
                assert(a.drop_last()[i] == a[i]);
            }
            assert forall|i: int, j: int| 0 <= i < b.drop_last().len() && 0 <= j < b.drop_last()[i].len()
                implies #[trigger] b.drop_last()[i][j] != ',' by {
                assert(b.drop_last()[i] == b[i]);
            }
            lemma_comma_split_unique(pa, a.drop_last(), b.drop_last());
            assert(a =~= a.drop_last().push(la));
            assert(b =~= b.drop_last().push(lb));
        }
    }
}

/// The parts joined back with commas between them.
pub fn join_with_commas(parts: &Vec<String>) -> (r: String)
    ensures
        r@ == join_commas(parts@.map_values(|p: String| p@)),
{
    let ghost ps = parts@.map_values(|p: String| p@);
    if parts.len() == 0 {
        return String::new();
    }
    let mut r = parts[0].clone();
    assert(ps.take(1).len() == 1);
    let mut i: usize = 1;
    while i < parts.len()
        invariant
            1 <= i <= parts@.len(),
            ps == parts@.map_values(|p: String| p@),
            r@ == join_commas(ps.take(i as int)),
        decreases parts@.len() - i,
    {
        proof {
            reveal_strlit(",");
        }
        r.append(",");
        r.append(parts[i].as_str());
        assert(ps.take(i + 1).drop_last() =~= ps.take(i as int));
        assert(r@ =~= join_commas(ps.take(i + 1)));
        i = i + 1;
    }
    assert(ps.take(i as int) =~= ps);
    r
}

} // verus!
