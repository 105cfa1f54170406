use vstd::prelude::*;

use crate::strings::{
    chars_of, lemma_trim_end, lemma_trim_start, push_char, string_of_range, trim_bounds, trim_end,
    trim_matching, trim_start,
};

verus! {

// ---------------------------------------------------------------------------
// Character classes
// ---------------------------------------------------------------------------

/// ASCII letters and digits (`char::is_ascii_alphanumeric`).
pub open spec fn is_ascii_alnum(c: char) -> bool {
    ('0' <= c && c <= '9') || ('a' <= c && c <= 'z') || ('A' <= c && c <= 'Z')
}

/// `char::to_ascii_lowercase`: ASCII upper-case letters map to lower case,
/// every other character is unchanged.
pub open spec fn ascii_lower(c: char) -> char {
    if 'A' <= c && c <= 'Z' {
        ((c as u32) + 32) as char
    } else {
        c
    }
}

/// The characters an id keeps (lower-cased): letters and digits, and for
/// unique-id parts also `-`. Every other character separates words.
pub open spec fn is_kept_char(c: char, allow_dash: bool) -> bool {
    is_ascii_alnum(c) || (allow_dash && c == '-')
}

// ---------------------------------------------------------------------------
// The normalized form of an id
// ---------------------------------------------------------------------------

/// Kept characters lower-cased; each maximal run of other characters
/// becomes a single `_`.
pub open spec fn squash_separators(s: Seq<char>, allow_dash: bool) -> Seq<char>
    decreases s.len(),
{
    if s.len() == 0 {
        Seq::empty()
    } else {
        let prev = squash_separators(s.drop_last(), allow_dash);
        let c = s.last();
        if is_kept_char(c, allow_dash) {
            prev.push(ascii_lower(c))
        } else if prev.len() > 0 && prev.last() == '_' {
            prev
        } else {
            prev.push('_')
        }
    }
}

/// The id used when nothing of the input survives normalization.
pub open spec fn unknown_id() -> Seq<char> {
    seq!['u', 'n', 'k', 'n', 'o', 'w', 'n']
}

/// The normalized form of `value`: `/` trimmed from both ends, words
/// squashed, `_` trimmed from both ends, and `unknown` if that is empty.
pub open spec fn normalized_id(value: Seq<char>, allow_dash: bool) -> Seq<char> {
    let core = trim_matching(squash_separators(trim_matching(value, '/'), allow_dash), '_');
    if core.len() == 0 {
        unknown_id()
    } else {
        core
    }
}

/// A character that may stand in a normalized id: a lower-case ASCII
/// letter, a digit, `_`, and for unique-id parts `-`.
pub open spec fn is_id_output_char(c: char, allow_dash: bool) -> bool {
    ('0' <= c && c <= '9') || ('a' <= c && c <= 'z') || (allow_dash && c == '-') || c == '_'
}

/// No two `_` stand next to each other in `s`.
pub open spec fn no_double_separator(s: Seq<char>) -> bool {
    forall|i: int, j: int|
        #![trigger s[i], s[j]]
        0 <= i && j == i + 1 && j < s.len() ==> !(s[i] == '_' && s[j] == '_')
}

/// The shape of every normalized id.
pub open spec fn is_normalized_form(s: Seq<char>, allow_dash: bool) -> bool {
    &&& s.len() > 0
    &&& forall|i: int| 0 <= i < s.len() ==> is_id_output_char(#[trigger] s[i], allow_dash)
    &&& s[0] != '_'
    &&& s.last() != '_'
    &&& no_double_separator(s)
}

// ---------------------------------------------------------------------------
// Laws of normalization
// ---------------------------------------------------------------------------

proof fn lemma_lower_kept(c: char, allow_dash: bool)
    requires
        is_kept_char(c, allow_dash),
    ensures
        is_id_output_char(ascii_lower(c), allow_dash),
        ascii_lower(c) != '_',
{
}

proof fn lemma_squash_shape(s: Seq<char>, allow_dash: bool)
    ensures
        forall|i: int|
            0 <= i < squash_separators(s, allow_dash).len() ==> is_id_output_char(
                #[trigger] squash_separators(s, allow_dash)[i],
                allow_dash,
            ),
        no_double_separator(squash_separators(s, allow_dash)),
    decreases s.len(),
{
    if s.len() > 0 {
        lemma_squash_shape(s.drop_last(), allow_dash);
        let c = s.last();
        if is_kept_char(c, allow_dash) {
            lemma_lower_kept(c, allow_dash);
        }
    }
}

proof fn lemma_trimmed_shape(s: Seq<char>, allow_dash: bool)
    requires
        forall|i: int| 0 <= i < s.len() ==> is_id_output_char(#[trigger] s[i], allow_dash),
        no_double_separator(s),
    ensures
        trim_matching(s, '_').len() > 0 ==> is_normalized_form(trim_matching(s, '_'), allow_dash),
{
    let a = lemma_trim_start(s, '_');
    let t = trim_start(s, '_');
    let b = lemma_trim_end(t, '_');
    let r = trim_matching(s, '_');
    assert(r =~= s.subrange(a, a + b));
    assert forall|i: int, j: int|
        #![trigger r[i], r[j]]
        0 <= i && j == i + 1 && j < r.len() implies !(r[i] == '_' && r[j] == '_') by {
        assert(r[i] == s[a + i]);
        assert(r[j] == s[a + j]);
    }
    assert forall|i: int| 0 <= i < r.len() implies is_id_output_char(#[trigger] r[i], allow_dash) by {
        assert(r[i] == s[a + i]);
    }
    if r.len() > 0 {
        assert(r[0] == t[0]);
    }
}

/// Every normalized id is non-empty, holds only lower-case ASCII letters,
/// digits, `_` (and `-` in a unique-id part), neither starts nor ends with
/// `_`, and never holds two `_` in a row.
pub proof fn normalized_id_has_normal_form(value: Seq<char>, allow_dash: bool)
    ensures
        is_normalized_form(normalized_id(value, allow_dash), allow_dash),
{
    let q = squash_separators(trim_matching(value, '/'), allow_dash);
    lemma_squash_shape(trim_matching(value, '/'), allow_dash);
    lemma_trimmed_shape(q, allow_dash);
    let u = unknown_id();
    assert(u[0] == 'u' && u.last() == 'n');
    assert forall|i: int| 0 <= i < u.len() implies is_id_output_char(#[trigger] u[i], allow_dash) by {
    }
}

proof fn lemma_squash_fixed(s: Seq<char>, allow_dash: bool)
    requires
        forall|i: int| 0 <= i < s.len() ==> is_id_output_char(#[trigger] s[i], allow_dash),
        no_double_separator(s),
    ensures
        squash_separators(s, allow_dash) == s,
    decreases s.len(),
{
    if s.len() > 0 {
        let p = s.drop_last();
        assert forall|i: int| 0 <= i < p.len() implies is_id_output_char(#[trigger] p[i], allow_dash) by {
            assert(p[i] == s[i]);
        }
        assert forall|i: int, j: int|
            #![trigger p[i], p[j]]
            0 <= i && j == i + 1 && j < p.len() implies !(p[i] == '_' && p[j] == '_') by {
            assert(p[i] == s[i] && p[j] == s[j]);
        }
        lemma_squash_fixed(p, allow_dash);
        let c = s.last();
        assert(is_id_output_char(s[s.len() - 1], allow_dash));
        if p.len() > 0 && c == '_' {
            assert(p.last() == s[s.len() - 2]);
        }
        assert(p.push(c) =~= s);
    }
}

/// Normalizing an id that is already normalized gives it back unchanged.
pub proof fn normalization_is_idempotent(value: Seq<char>, allow_dash: bool)
    ensures
        normalized_id(normalized_id(value, allow_dash), allow_dash) == normalized_id(
            value,
            allow_dash,
        ),
{
    let w = normalized_id(value, allow_dash);
    normalized_id_has_normal_form(value, allow_dash);
    assert(w[0] != '/');
    assert(w.last() != '/');
    assert(trim_start(w, '/') == w);
    assert(trim_end(w, '/') == w);
    lemma_squash_fixed(w, allow_dash);
    assert(trim_start(w, '_') == w);
    assert(trim_end(w, '_') == w);
}

proof fn lemma_squash_kept_suffix(p: Seq<char>, w: Seq<char>, allow_dash: bool)
    requires
        forall|i: int| 0 <= i < w.len() ==> is_kept_char(#[trigger] w[i], allow_dash),
    ensures
        squash_separators(p + w, allow_dash) == squash_separators(p, allow_dash) + w.map_values(
            |c: char| ascii_lower(c),
        ),
    decreases w.len(),
{
    if w.len() == 0 {
        assert(p + w =~= p);
        assert(w.map_values(|c: char| ascii_lower(c)) =~= Seq::<char>::empty());
        assert(squash_separators(p, allow_dash) + Seq::<char>::empty() =~= squash_separators(
            p,
            allow_dash,
        ));
    } else {
        let v = w.drop_last();
        assert forall|i: int| 0 <= i < v.len() implies is_kept_char(#[trigger] v[i], allow_dash) by {
            assert(v[i] == w[i]);
        }
        lemma_squash_kept_suffix(p, v, allow_dash);
        assert((p + w).drop_last() =~= p + v);
        assert((p + w).last() == w[w.len() - 1]);
        assert(is_kept_char(w[w.len() - 1], allow_dash));
        assert(squash_separators(p, allow_dash) + w.map_values(|c: char| ascii_lower(c)) =~= (
        squash_separators(p, allow_dash) + v.map_values(|c: char| ascii_lower(c))).push(
            ascii_lower(w[w.len() - 1]),
        ));
    }
}

/// A non-empty word of kept characters normalizes to itself lower-cased.
proof fn lemma_kept_word_normalizes(w: Seq<char>, allow_dash: bool)
    requires
        w.len() > 0,
        forall|i: int| 0 <= i < w.len() ==> is_kept_char(#[trigger] w[i], allow_dash),
    ensures
        normalized_id(w, allow_dash) == w.map_values(|c: char| ascii_lower(c)),
{
    assert(is_kept_char(w[0], allow_dash));
    assert(is_kept_char(w[w.len() - 1], allow_dash));
    assert(trim_start(w, '/') == w);
    assert(trim_end(w, '/') == w);
    lemma_squash_kept_suffix(Seq::empty(), w, allow_dash);
    assert(Seq::<char>::empty() + w =~= w);
    assert(Seq::<char>::empty() + w.map_values(|c: char| ascii_lower(c)) =~= w.map_values(
        |c: char| ascii_lower(c),
    ));
    let l = w.map_values(|c: char| ascii_lower(c));
    lemma_lower_kept(w[0], allow_dash);
    lemma_lower_kept(w[w.len() - 1], allow_dash);
    assert(l[0] != '_');
    assert(l[l.len() - 1] != '_');
    assert(trim_start(l, '_') == l);
    assert(trim_end(l, '_') == l);
}

/// A non-empty name made only of ASCII letters and digits (and, in a
/// unique-id part, `-`) normalizes to itself with each upper-case letter
/// `A`..=`Z` replaced by its lower-case letter: nothing is dropped, nothing
/// is added, nothing else changes.
pub proof fn letters_and_digits_are_kept_lowercased(value: Seq<char>, allow_dash: bool)
    requires
        value.len() > 0,
        forall|i: int|
            0 <= i < value.len() ==> ('0' <= #[trigger] value[i] && value[i] <= '9') || ('a'
                <= value[i] && value[i] <= 'z') || ('A' <= value[i] && value[i] <= 'Z') || (
            allow_dash && value[i] == '-'),
    ensures
        normalized_id(value, allow_dash).len() == value.len(),
        forall|i: int|
            #![trigger normalized_id(value, allow_dash)[i]]
            0 <= i < value.len() ==> if 'A' <= value[i] && value[i] <= 'Z' {
                normalized_id(value, allow_dash)[i] as u32 == value[i] as u32 + 32
            } else {
                normalized_id(value, allow_dash)[i] == value[i]
            },
{
    assert forall|i: int| 0 <= i < value.len() implies is_kept_char(#[trigger] value[i], allow_dash) by {
    }
    lemma_kept_word_normalizes(value, allow_dash);
}

proof fn lemma_squash_separator_run(a: Seq<char>, sep: Seq<char>, allow_dash: bool)
    requires
        a.len() > 0,
        forall|i: int| 0 <= i < a.len() ==> is_kept_char(#[trigger] a[i], allow_dash),
        sep.len() > 0,
        forall|i: int| 0 <= i < sep.len() ==> !is_kept_char(#[trigger] sep[i], allow_dash),
    ensures
        squash_separators(a + sep, allow_dash) == a.map_values(|x: char| ascii_lower(x)).push('_'),
    decreases sep.len(),
{
    let la = a.map_values(|x: char| ascii_lower(x));
    lemma_squash_kept_suffix(Seq::empty(), a, allow_dash);
    assert(Seq::<char>::empty() + a =~= a);
    assert(squash_separators(a, allow_dash) =~= la);
    lemma_lower_kept(a[a.len() - 1], allow_dash);
    assert(la.last() != '_');
    assert((a + sep).last() == sep[sep.len() - 1]);
    assert(!is_kept_char(sep[sep.len() - 1], allow_dash));
    if sep.len() == 1 {
        assert((a + sep).drop_last() =~= a);
    } else {
        let rest = sep.drop_last();
        assert forall|i: int| 0 <= i < rest.len() implies !is_kept_char(#[trigger] rest[i], allow_dash) by {
            assert(rest[i] == sep[i]);
        }
        lemma_squash_separator_run(a, rest, allow_dash);
        assert((a + sep).drop_last() =~= a + rest);
    }
}

/// Every run of characters that are not kept (not ASCII letters or digits,
/// nor `-` in a unique-id part) separates words: two non-empty words of
/// kept characters joined by such a run normalize to the two words
/// normalized, joined by one `_`.
pub proof fn other_characters_separate_words(
    a: Seq<char>,
    sep: Seq<char>,
    b: Seq<char>,
    allow_dash: bool,
)
    requires
        a.len() > 0,
        b.len() > 0,
        sep.len() > 0,
        forall|i: int|
            0 <= i < a.len() ==> ('0' <= #[trigger] a[i] && a[i] <= '9') || ('a' <= a[i] && a[i]
                <= 'z') || ('A' <= a[i] && a[i] <= 'Z') || (allow_dash && a[i] == '-'),
        forall|i: int|
            0 <= i < b.len() ==> ('0' <= #[trigger] b[i] && b[i] <= '9') || ('a' <= b[i] && b[i]
                <= 'z') || ('A' <= b[i] && b[i] <= 'Z') || (allow_dash && b[i] == '-'),
        forall|i: int|
            0 <= i < sep.len() ==> !(('0' <= #[trigger] sep[i] && sep[i] <= '9') || ('a' <= sep[i]
                && sep[i] <= 'z') || ('A' <= sep[i] && sep[i] <= 'Z') || (allow_dash && sep[i]
                == '-')),
    ensures
        normalized_id(a + sep + b, allow_dash) == normalized_id(a, allow_dash) + seq!['_']
            + normalized_id(b, allow_dash),
{
    assert forall|i: int| 0 <= i < a.len() implies is_kept_char(#[trigger] a[i], allow_dash) by {}
    assert forall|i: int| 0 <= i < b.len() implies is_kept_char(#[trigger] b[i], allow_dash) by {}
    assert forall|i: int| 0 <= i < sep.len() implies !is_kept_char(#[trigger] sep[i], allow_dash) by {}
    lemma_kept_word_normalizes(a, allow_dash);
    lemma_kept_word_normalizes(b, allow_dash);
    let la = a.map_values(|x: char| ascii_lower(x));
    let lb = b.map_values(|x: char| ascii_lower(x));
    let s = a + sep + b;
    // no `/` at either end
    assert(s[0] == a[0]);
    assert(s[s.len() - 1] == b[b.len() - 1]);
    assert(is_kept_char(a[0], allow_dash));
    assert(is_kept_char(b[b.len() - 1], allow_dash));
    assert(trim_start(s, '/') == s);
    assert(trim_end(s, '/') == s);
    // squash
    lemma_squash_separator_run(a, sep, allow_dash);
    lemma_squash_kept_suffix(a + sep, b, allow_dash);
    let q = la.push('_') + lb;
    assert(squash_separators(s, allow_dash) == q);
    lemma_lower_kept(a[0], allow_dash);
    lemma_lower_kept(b[b.len() - 1], allow_dash);
    assert(q[0] == la[0]);
    assert(q[q.len() - 1] == lb[lb.len() - 1]);
    assert(trim_start(q, '_') == q);
    assert(trim_end(q, '_') == q);
    assert(q =~= la + seq!['_'] + lb);
}

proof fn lemma_squash_separators_only(s: Seq<char>, allow_dash: bool)
    requires
        forall|i: int| 0 <= i < s.len() ==> !is_kept_char(#[trigger] s[i], allow_dash),
    ensures
        squash_separators(s, allow_dash) == (if s.len() == 0 {
            Seq::<char>::empty()
        } else {
            seq!['_']
        }),
    decreases s.len(),
{
    if s.len() > 0 {
        let p = s.drop_last();
        assert forall|i: int| 0 <= i < p.len() implies !is_kept_char(#[trigger] p[i], allow_dash) by {
            assert(p[i] == s[i]);
        }
        lemma_squash_separators_only(p, allow_dash);
        assert(!is_kept_char(s[s.len() - 1], allow_dash));
        assert(Seq::<char>::empty().push('_') =~= seq!['_']);
    }
}

/// A name without a single ASCII letter or digit (nor `-`, in a unique-id
/// part) normalizes to `unknown`.
pub proof fn names_without_kept_characters_are_unknown(value: Seq<char>, allow_dash: bool)
    requires
        forall|i: int|
            0 <= i < value.len() ==> !(('0' <= #[trigger] value[i] && value[i] <= '9') || ('a'
                <= value[i] && value[i] <= 'z') || ('A' <= value[i] && value[i] <= 'Z') || (
            allow_dash && value[i] == '-')),
    ensures
        normalized_id(value, allow_dash) == seq!['u', 'n', 'k', 'n', 'o', 'w', 'n'],
{
    let k1 = lemma_trim_start(value, '/');
    let t1 = trim_start(value, '/');
    let k2 = lemma_trim_end(t1, '/');
    let t = trim_matching(value, '/');
    assert(t =~= value.subrange(k1, k1 + k2));
    assert forall|i: int| 0 <= i < t.len() implies !is_kept_char(#[trigger] t[i], allow_dash) by {
        assert(t[i] == value[k1 + i]);
    }
    lemma_squash_separators_only(t, allow_dash);
    let q = squash_separators(t, allow_dash);
    if q.len() > 0 {
        assert(trim_start(q, '_') == trim_start(q.drop_first(), '_'));
        assert(q.drop_first().len() == 0);
    }
    assert(trim_matching(q, '_').len() == 0);
    assert(unknown_id() =~= seq!['u', 'n', 'k', 'n', 'o', 'w', 'n']);
}

// ---------------------------------------------------------------------------
// Executable normalization
// ---------------------------------------------------------------------------

fn is_ascii_alphanumeric(c: char) -> (b: bool)
    ensures
        b == is_ascii_alnum(c),
{
    ('0' <= c && c <= '9') || ('a' <= c && c <= 'z') || ('A' <= c && c <= 'Z')
}

fn to_ascii_lowercase(c: char) -> (r: char)
    ensures
        r == ascii_lower(c),
{
    if 'A' <= c && c <= 'Z' {
        let b: u8 = c as u8;
        (b + 32) as char
    } else {
        c
    }
}

/// The string `unknown`.
fn unknown_string() -> (s: String)
    ensures
        s@ == unknown_id(),
{
    let mut s = String::new();
    push_char(&mut s, 'u');
    push_char(&mut s, 'n');
    push_char(&mut s, 'k');
    push_char(&mut s, 'n');
    push_char(&mut s, 'o');
    push_char(&mut s, 'w');
    push_char(&mut s, 'n');
    assert(s@ =~= unknown_id());
    s
}

/// Normalization shared by object ids and unique-id parts.
fn normalize_id(value: &str, allow_dash: bool) -> (r: String)
    ensures
        r@ == normalized_id(value@, allow_dash),
{
    let chars = chars_of(value);
    let (lo, hi) = trim_bounds(&chars, '/');
    let ghost trimmed = chars@.subrange(lo as int, hi as int);
    let mut normalized: Vec<char> = Vec::new();
    let mut last_was_separator = false;
    let mut i = lo;
    while i < hi
        invariant
            lo <= i <= hi <= chars@.len(),
            trimmed == chars@.subrange(lo as int, hi as int),
            normalized@ == squash_separators(chars@.subrange(lo as int, i as int), allow_dash),
            last_was_separator == (normalized@.len() > 0 && normalized@.last() == '_'),
        decreases hi - i,
    {
        let c = chars[i];
        let ghost prev = normalized@;
        assert(chars@.subrange(lo as int, i + 1).drop_last() =~= chars@.subrange(lo as int, i as int));
        if is_ascii_alphanumeric(c) || (allow_dash && c == '-') {
            normalized.push(to_ascii_lowercase(c));
            last_was_separator = false;
        } else if !last_was_separator {
            normalized.push('_');
            last_was_separator = true;
        }
        i = i + 1;
    }
    assert(chars@.subrange(lo as int, hi as int) == trimmed);
    let (a, b) = trim_bounds(&normalized, '_');
    if a == b {
        unknown_string()
    } else {
        string_of_range(&normalized, a, b)
    }
}

/// Normalizes a name into a Home Assistant object id: ASCII letters and
/// digits are kept in lower case, every run of other characters becomes one
/// `_`, and `/` and `_` are trimmed from both ends; `unknown` if nothing
/// remains.
pub fn normalize_object_id(value: &str) -> (r: String)
    ensures
        r@ == normalized_id(value@, false),
{
    normalize_id(value, false)
}

/// Normalizes a part of a unique id: as [`normalize_object_id`], except
/// that `-` is kept as well.
pub fn normalize_unique_id_part(value: &str) -> (r: String)
    ensures
        r@ == normalized_id(value@, true),
{
    normalize_id(value, true)
}


// ---------------------------------------------------------------------------
// Entities
// ---------------------------------------------------------------------------

/// The topic under which Home Assistant discovers an entity:
/// `<base>/<component>/<node id>/<object id>/config`.
pub open spec fn config_topic(
    base_topic: Seq<char>,
    component: Seq<char>,
    node_id: Seq<char>,
    object_id: Seq<char>,
) -> Seq<char> {
    base_topic + "/"@ + component + "/"@ + node_id + "/"@ + object_id + "/config"@
}

/// The object id an entity is filed under: its own when it has one, else
/// its name normalized.
pub open spec fn entity_object_id(object_id: Option<Seq<char>>, name: Seq<char>) -> Seq<char> {
    match object_id {
        Some(id) => id,
        None => normalized_id(name, false),
    }
}

/// Builds [`config_topic`].
pub fn config_topic_string(
    base_topic: &str,
    component: &str,
    node_id: &str,
    object_id: &str,
) -> (topic: String)
    ensures
        topic@ == config_topic(base_topic@, component@, node_id@, object_id@),
{
    let mut topic = base_topic.to_owned();
    topic.append("/");
    topic.append(component);
    topic.append("/");
    topic.append(node_id);
    topic.append("/");
    topic.append(object_id);
    topic.append("/config");
    topic
}

/// Something that Home Assistant discovers over MQTT.
pub trait Entity {
    /// The discovery topic of the entity for the given discovery prefix and
    /// node id.
    spec fn discovery_topic(&self, base_topic: Seq<char>, node_id: Seq<char>) -> Seq<char>;

    fn topic(&self, base_topic: &str, node_id: &str) -> (topic: String)
        ensures
            topic@ == self.discovery_topic(base_topic@, node_id@),
    ;
}

/// The device class of a button.
#[derive(Debug, Clone, Copy, PartialEq, Eq, Structural)]
pub enum DeviceClass {
    Restart,
    Update,
}

/// The category of an entity.
#[derive(Debug, Clone, Copy, PartialEq, Eq, Structural)]
pub enum EntityCategory {
    Config,
    Diagnostic,
}

/// The state class of a sensor.
#[derive(Debug, Clone, Copy, PartialEq, Eq, Structural)]
pub enum StateClass {
    Measurement,
    Total,
    TotalIncreasing,
}

} // verus!
