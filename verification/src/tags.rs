//! Discussion tags: the normal form they are stored in and their JSON column.
use vstd::prelude::*;

use crate::text::{
    ascii_lower, ascii_lowered, chars_of, is_ascii_char, is_ascii_text, lemma_ascii_lower,
    lemma_trimmed_shape, lowercase_of, str_equal, string_of, to_lowercase, trim_chars, trimmed,
};

verus! {

/// At most this many tags per discussion.
pub const HISTORY_TAGS_MAX: usize = 10;

/// At most this many characters per tag.
pub const HISTORY_TAG_MAX_CHARS: usize = 32;

/// `s` without its leading `#` characters (`str::trim_start_matches('#')`).
pub open spec fn strip_hashes(s: Seq<char>) -> Seq<char>
    decreases s.len(),
{
    if s.len() > 0 && s[0] == '#' {
        strip_hashes(s.drop_first())
    } else {
        s
    }
}

/// The first `n` characters of `s` (all of them when it is shorter).
pub open spec fn first_chars(s: Seq<char>, n: nat) -> Seq<char> {
    if s.len() <= n {
        s
    } else {
        s.take(n as int)
    }
}

/// One raw tag in stored form: trimmed, without its leading `#`, lower-cased,
/// cut to `HISTORY_TAG_MAX_CHARS` characters, and trimmed again.
pub open spec fn tag_form(raw: Seq<char>) -> Seq<char> {
    trimmed(first_chars(lowercase_of(strip_hashes(trimmed(raw))), HISTORY_TAG_MAX_CHARS as nat))
}

/// A stored tag has at most `HISTORY_TAG_MAX_CHARS` characters and is trimmed.
proof fn lemma_tag_form_bounded(raw: Seq<char>)
    ensures
        tag_form(raw).len() <= HISTORY_TAG_MAX_CHARS,
        trimmed(tag_form(raw)) == tag_form(raw),
{
    lemma_trimmed_shape(first_chars(lowercase_of(strip_hashes(trimmed(raw))), HISTORY_TAG_MAX_CHARS as nat));
}

/// The stored tags of `raw`, read left to right: empty and repeated forms are
/// skipped, and nothing is added once `HISTORY_TAGS_MAX` tags are kept.
pub open spec fn normalised(raw: Seq<Seq<char>>) -> Seq<Seq<char>>
    decreases raw.len(),
{
    if raw.len() == 0 {
        seq![]
    } else {
        let prev = normalised(raw.drop_last());
        let t = tag_form(raw.last());
        if prev.len() >= HISTORY_TAGS_MAX || t.len() == 0 || prev.contains(t) {
            prev
        } else {
            prev.push(t)
        }
    }
}

/// The views of a sequence of strings.
pub open spec fn strings_view(v: Seq<String>) -> Seq<Seq<char>> {
    Seq::new(v.len(), |i: int| v[i]@)
}

/// Once the list is full, later tags change nothing.
proof fn lemma_normalised_full(raw: Seq<Seq<char>>, i: int, j: int)
    requires
        0 <= i <= j <= raw.len(),
        normalised(raw.take(i)).len() >= HISTORY_TAGS_MAX,
    ensures
        normalised(raw.take(j)) == normalised(raw.take(i)),
    decreases j - i,
{
    if i < j {
        lemma_normalised_full(raw, i, j - 1);
        assert(raw.take(j).drop_last() =~= raw.take(j - 1));
    }
}

/// The stored tags are distinct, non-empty, at most `HISTORY_TAG_MAX_CHARS`
/// characters long, at most `HISTORY_TAGS_MAX` of them, each the stored form
/// of one of the raw tags.
pub proof fn lemma_normalised_shape(raw: Seq<Seq<char>>)
    ensures
        normalised(raw).len() <= HISTORY_TAGS_MAX,
        forall|k: int|
            0 <= k < normalised(raw).len() ==> {
                &&& #[trigger] normalised(raw)[k].len() > 0
                &&& normalised(raw)[k].len() <= HISTORY_TAG_MAX_CHARS
                &&& exists|i: int| 0 <= i < raw.len() && normalised(raw)[k] == tag_form(raw[i])
            },
        forall|a: int, b: int|
            0 <= a < b < normalised(raw).len() ==> #[trigger] normalised(raw)[a]
                != #[trigger] normalised(raw)[b],
    decreases raw.len(),
{
    if raw.len() > 0 {
        let p = raw.drop_last();
        lemma_normalised_shape(p);
        let prev = normalised(p);
        let t = tag_form(raw.last());
        let cur = normalised(raw);
        assert forall|k: int| 0 <= k < cur.len() implies {
            &&& #[trigger] cur[k].len() > 0
            &&& cur[k].len() <= HISTORY_TAG_MAX_CHARS
            &&& exists|i: int| 0 <= i < raw.len() && cur[k] == tag_form(raw[i])
        } by {
            if k < prev.len() {
                assert(cur[k] == prev[k]);
                let i = choose|i: int| 0 <= i < p.len() && prev[k] == tag_form(p[i]);
                assert(raw[i] == p[i]);
            } else {
                assert(cur[k] == t);
                lemma_tag_form_bounded(raw.last());
                assert(raw[raw.len() - 1] == raw.last());
            }
        }
        assert forall|a: int, b: int| 0 <= a < b < cur.len() implies #[trigger] cur[a]
            != #[trigger] cur[b] by {
            if b >= prev.len() {
                assert(cur[a] == prev[a]);
                assert(prev.contains(prev[a]));
            } else {
                assert(cur[a] == prev[a] && cur[b] == prev[b]);
            }
        }
    }
}

/// `strip_hashes(s)` is a suffix of `s`.
proof fn lemma_strip_hashes_shape(s: Seq<char>)
    ensures
        strip_hashes(s).len() <= s.len(),
        strip_hashes(s) == s.subrange(s.len() - strip_hashes(s).len(), s.len() as int),
    decreases s.len(),
{
    if s.len() > 0 && s[0] == '#' {
        let t = s.drop_first();
        lemma_strip_hashes_shape(t);
        let k: int = strip_hashes(t).len() as int;
        assert(t.subrange(t.len() - k, t.len() as int) =~= s.subrange(s.len() - k, s.len() as int));
    } else {
        assert(s.subrange(0, s.len() as int) =~= s);
    }
}

/// The stored form of an ASCII tag is its own lower case.
proof fn lemma_ascii_tag_lower(x: Seq<char>)
    requires
        is_ascii_text(x),
    ensures
        lowercase_of(tag_form(x)) == tag_form(x),
{
    lemma_trimmed_shape(x);
    let t = trimmed(x);
    lemma_strip_hashes_shape(t);
    let y = strip_hashes(t);
    let off: int = t.len() - y.len();
    assert forall|i: int| 0 <= i < y.len() implies is_ascii_char(#[trigger] y[i]) by {
        assert(y[i] == t[off + i]);
    }
    let l = ascii_lowered(y);
    assert(lowercase_of(y) == l);
    assert forall|i: int| 0 <= i < l.len() implies is_ascii_char(#[trigger] l[i]) && ascii_lower(l[i])
        == l[i] by {
        lemma_ascii_lower(y[i]);
    }
    let c = first_chars(l, HISTORY_TAG_MAX_CHARS as nat);
    assert forall|i: int| 0 <= i < c.len() implies #[trigger] c[i] == l[i] by {}
    assert(is_ascii_text(c));
    lemma_trimmed_shape(c);
    let f = trimmed(c);
    assert(f == tag_form(x));
    assert forall|i: int| 0 <= i < f.len() implies ascii_lower(#[trigger] f[i]) == f[i] by {
        let j = choose|j: int| 0 <= j < c.len() && f[i] == c[j];
        assert(c[j] == l[j]);
    }
    assert(ascii_lowered(f) =~= f);
}

/// A trimmed tag of at most `HISTORY_TAG_MAX_CHARS` characters that does not
/// begin with `#` and is its own lower case is its own stored form.
proof fn lemma_stored_tag_fixed(t: Seq<char>)
    requires
        trimmed(t) == t,
        t.len() <= HISTORY_TAG_MAX_CHARS,
        t.len() > 0 ==> t[0] != '#',
        lowercase_of(t) == t,
    ensures
        tag_form(t) == t,
{
    assert(strip_hashes(t) == t);
    assert(first_chars(t, HISTORY_TAG_MAX_CHARS as nat) == t);
}

/// A list of distinct, non-empty tags that are their own stored forms, at
/// most `HISTORY_TAGS_MAX` of them, is its own normal form.
proof fn lemma_normalised_stored(s: Seq<Seq<char>>)
    requires
        s.len() <= HISTORY_TAGS_MAX,
        forall|k: int| 0 <= k < s.len() ==> tag_form(#[trigger] s[k]) == s[k] && s[k].len() > 0,
        forall|a: int, b: int| 0 <= a < b < s.len() ==> #[trigger] s[a] != #[trigger] s[b],
    ensures
        normalised(s) == s,
    decreases s.len(),
{
    if s.len() > 0 {
        let p = s.drop_last();
        assert forall|k: int| 0 <= k < p.len() implies tag_form(#[trigger] p[k]) == p[k] && p[k].len()
            > 0 by {
            assert(p[k] == s[k]);
        }
        assert forall|a: int, b: int| 0 <= a < b < p.len() implies #[trigger] p[a] != #[trigger] p[b] by {
            assert(p[a] == s[a] && p[b] == s[b]);
        }
        lemma_normalised_stored(p);
        let t = s.last();
        assert(s[s.len() - 1] == t);
        if p.contains(t) {
            let k = choose|k: int| 0 <= k < p.len() && p[k] == t;
            assert(s[k] == p[k]);
        }
        assert(p.push(t) =~= s);
    }
}

/// Normalising stored tags again keeps them as they are, provided no stored
/// tag begins with `#` (`"# #ia"` is stored as `"#ia"`, which a second pass
/// turns into `"ia"`) and each is its own lower case (always so for ASCII
/// tags, see `law_ascii_tags_lower`; for other text the Unicode lower-case
/// mapping is named, not spelled out).
pub proof fn law_normalise_idempotent(raw: Seq<Seq<char>>)
    requires
        forall|k: int|
            0 <= k < normalised(raw).len() ==> #[trigger] normalised(raw)[k][0] != '#'
                && lowercase_of(normalised(raw)[k]) == normalised(raw)[k],
    ensures
        normalised(normalised(raw)) == normalised(raw),
{
    lemma_normalised_shape(raw);
    let n = normalised(raw);
    assert forall|k: int| 0 <= k < n.len() implies tag_form(#[trigger] n[k]) == n[k] && n[k].len() > 0 by {
        assert(n[k].len() > 0);
        assert(n[k][0] != '#');
        let i = choose|i: int| 0 <= i < raw.len() && n[k] == tag_form(raw[i]);
        lemma_tag_form_bounded(raw[i]);
        lemma_stored_tag_fixed(n[k]);
    }
    lemma_normalised_stored(n);
}

/// Stored tags of ASCII raw tags are lower case.
pub proof fn law_ascii_tags_lower(raw: Seq<Seq<char>>)
    requires
        forall|i: int| 0 <= i < raw.len() ==> is_ascii_text(#[trigger] raw[i]),
    ensures
        forall|k: int|
            0 <= k < normalised(raw).len() ==> lowercase_of(#[trigger] normalised(raw)[k])
                == normalised(raw)[k],
{
    lemma_normalised_shape(raw);
    let n = normalised(raw);
    assert forall|k: int| 0 <= k < n.len() implies lowercase_of(#[trigger] n[k]) == n[k] by {
        assert(n[k].len() > 0);
        let i = choose|i: int| 0 <= i < raw.len() && n[k] == tag_form(raw[i]);
        lemma_ascii_tag_lower(raw[i]);
    }
}

/// Stored tags are trimmed.
pub proof fn law_stored_tags_trimmed(raw: Seq<Seq<char>>)
    ensures
        forall|k: int|
            0 <= k < normalised(raw).len() ==> trimmed(#[trigger] normalised(raw)[k])
                == normalised(raw)[k],
{
    lemma_normalised_shape(raw);
    let n = normalised(raw);
    assert forall|k: int| 0 <= k < n.len() implies trimmed(#[trigger] n[k]) == n[k] by {
        let i = choose|i: int| 0 <= i < raw.len() && n[k] == tag_form(raw[i]);
        lemma_tag_form_bounded(raw[i]);
    }
}

/// `v` without its leading `#` characters.
fn strip_leading_hashes(v: &Vec<char>) -> (r: Vec<char>)
    ensures
        r@ == strip_hashes(v@),
{
    let mut i: usize = 0;
    proof {
        assert(v@.subrange(0, v.len() as int) =~= v@);
    }
    while i < v.len() && v[i] == '#'
        invariant
            i <= v.len(),
            strip_hashes(v@) == strip_hashes(v@.subrange(i as int, v.len() as int)),
        decreases v.len() - i,
    {
        proof {
            let s = v@.subrange(i as int, v.len() as int);
            assert(s[0] == v@[i as int]);
            assert(s.drop_first() =~= v@.subrange(i + 1, v.len() as int));
        }
        i += 1;
    }
    let mut r: Vec<char> = Vec::new();
    let mut k: usize = i;
    while k < v.len()
        invariant
            i <= k <= v.len(),
            r@ == v@.subrange(i as int, k as int),
        decreases v.len() - k,
    {
        r.push(v[k]);
        proof {
            assert(v@.subrange(i as int, k + 1) =~= v@.subrange(i as int, k as int).push(v@[k as int]));
        }
        k += 1;
    }
    proof {
        let s = v@.subrange(i as int, v.len() as int);
        if s.len() > 0 {
            assert(s[0] == v@[i as int]);
        }
        assert(strip_hashes(s) == s);
    }
    r
}

/// The stored form of one raw tag.
pub fn tag_of(raw: &str) -> (r: String)
    ensures
        r@ == tag_form(raw@),
{
    let core = strip_leading_hashes(&trim_chars(&chars_of(raw)));
    let lower = chars_of(to_lowercase(string_of(&core).as_str()).as_str());
    let mut cut: Vec<char> = Vec::new();
    let mut i: usize = 0;
    while i < lower.len() && i < HISTORY_TAG_MAX_CHARS
        invariant
            i <= lower.len(),
            i <= HISTORY_TAG_MAX_CHARS,
            cut@ == lower@.take(i as int),
        decreases lower.len() - i,
    {
        cut.push(lower[i]);
        proof {
            assert(lower@.take(i + 1) =~= lower@.take(i as int).push(lower@[i as int]));
        }
        i += 1;
    }
    proof {
        if lower.len() <= HISTORY_TAG_MAX_CHARS {
            assert(lower@.take(lower.len() as int) =~= lower@);
        }
    }
    string_of(&trim_chars(&cut))
}

/// Whether `v` already holds a string equal to `s`.
fn contains_string(v: &Vec<String>, s: &String) -> (r: bool)
    ensures
        r == strings_view(v@).contains(s@),
{
    let mut i: usize = 0;
    while i < v.len()
        invariant
            i <= v.len(),
            forall|k: int| 0 <= k < i ==> v@[k]@ != s@,
        decreases v.len() - i,
    {
        if str_equal(v[i].as_str(), s.as_str()) {
            proof {
                assert(strings_view(v@)[i as int] == s@);
            }
            return true;
        }
        i += 1;
    }
    proof {
        if strings_view(v@).contains(s@) {
            let k = choose|k: int| 0 <= k < v@.len() && strings_view(v@)[k] == s@;
            assert(v@[k]@ == s@);
        }
    }
    false
}

/// Tags as stored: trimmed, lower-cased, bounded in length, deduplicated, at
/// most `HISTORY_TAGS_MAX` of them.
pub fn normalise_tags(tags: Vec<String>) -> (r: Vec<String>)
    ensures
        strings_view(r@) == normalised(strings_view(tags@)),
{
    let ghost raw = strings_view(tags@);
    let mut out: Vec<String> = Vec::new();
    let mut i: usize = 0;
    while i < tags.len()
        invariant
            i <= tags.len(),
            raw == strings_view(tags@),
            strings_view(out@) == normalised(raw.take(i as int)),
            out@.len() < HISTORY_TAGS_MAX,
        decreases tags.len() - i,
    {
        let tag = tag_of(tags[i].as_str());
        proof {
            assert(raw.take(i + 1).drop_last() =~= raw.take(i as int));
            assert(raw.take(i + 1).last() == tags@[i as int]@);
        }
        if tag.as_str().is_empty() || contains_string(&out, &tag) {
            i += 1;
            continue;
        }
        let ghost before = out@;
        out.push(tag);
        proof {
            assert(strings_view(out@) =~= strings_view(before).push(tag@));
        }
        i += 1;
        if out.len() >= HISTORY_TAGS_MAX {
            proof {
                lemma_normalised_full(raw, i as int, raw.len() as int);
                assert(raw.take(raw.len() as int) =~= raw);
            }
            return out;
        }
    }
    proof {
        assert(raw.take(tags.len() as int) =~= raw);
    }
    out
}

// ── The JSON column ─────────────────────────────────────────────────

/// serde_json's error type.
#[verifier::external_type_specification]
#[verifier::external_body]
pub struct ExJsonError(serde_json::Error);

/// A hexadecimal digit in lower case.
pub open spec fn hex_digit(n: int) -> char {
    if n < 10 {
        (48 + n) as char
    } else {
        (87 + n) as char
    }
}

/// How serde_json writes one character inside a JSON string: `"` and `\`
/// and the control characters below 0x20 escaped (short forms where JSON has
/// them, `\u00XX` otherwise), every other character as it is.
pub open spec fn json_char(c: char) -> Seq<char> {
    let n: int = c as u32 as int;
    if c == '"' {
        seq!['\\', '"']
    } else if c == '\\' {
        seq!['\\', '\\']
    } else if n == 8 {
        seq!['\\', 'b']
    } else if n == 9 {
        seq!['\\', 't']
    } else if n == 10 {
        seq!['\\', 'n']
    } else if n == 12 {
        seq!['\\', 'f']
    } else if n == 13 {
        seq!['\\', 'r']
    } else if n < 32 {
        seq!['\\', 'u', '0', '0', hex_digit(n / 16), hex_digit(n % 16)]
    } else {
        seq![c]
    }
}

/// The escaped characters of a JSON string, without the quotes.
pub open spec fn json_string_body(s: Seq<char>) -> Seq<char>
    decreases s.len(),
{
    if s.len() == 0 {
        seq![]
    } else {
        json_string_body(s.drop_last()) + json_char(s.last())
    }
}

/// The JSON strings of `items`, separated by commas.
pub open spec fn json_items(items: Seq<Seq<char>>) -> Seq<char>
    decreases items.len(),
{
    if items.len() == 0 {
        seq![]
    } else if items.len() == 1 {
        seq!['"'] + json_string_body(items[0]) + seq!['"']
    } else {
        json_items(items.drop_last()) + seq![','] + seq!['"'] + json_string_body(items.last())
            + seq!['"']
    }
}

/// What `serde_json::to_string` writes for a list of strings: a compact JSON
/// array of JSON strings.
pub open spec fn json_of_strings(items: Seq<Seq<char>>) -> Seq<char> {
    seq!['['] + json_items(items) + seq![']']
}

/// What `serde_json::from_str::<Vec<String>>` reads from a text, `None` when
/// the text is not a JSON array of strings.
pub uninterp spec fn strings_of_json(text: Seq<char>) -> Option<Seq<Seq<char>>>;

/// `serde_json::to_string` on a list of strings. Stated: it succeeds (its
/// documentation names only failing `Serialize` impls and maps with
/// non-string keys as causes of failure), it writes the compact JSON array
/// `json_of_strings` spells out (the escaping of `format_escaped_str_contents`
/// with the compact formatter), and `serde_json::from_str` reads the written
/// text back as the same list.
#[verifier::external_body]
fn json_write_strings(items: &Vec<String>) -> (r: Result<String, serde_json::Error>)
    ensures
        r is Ok,
        r matches Ok(t) ==> t@ == json_of_strings(strings_view(items@)) && strings_of_json(t@)
            == Some(strings_view(items@)),
{
    serde_json::to_string(items)
}

/// `serde_json::from_str::<Vec<String>>`: its result is the named reading of
/// the text.
#[verifier::external_body]
fn json_read_strings(text: &str) -> (r: Result<Vec<String>, serde_json::Error>)
    ensures
        match r {
            Ok(v) => strings_of_json(text@) == Some(strings_view(v@)),
            Err(_) => strings_of_json(text@) is None,
        },
{
    serde_json::from_str::<Vec<String>>(text)
}

/// The tags a stored JSON column holds: none when it is not an array of strings.
pub open spec fn tags_read(text: Seq<char>) -> Seq<Seq<char>> {
    match strings_of_json(text) {
        Some(v) => v,
        None => seq![],
    }
}

/// The stored `tags` column for a raw tag list: the JSON array of its
/// normalised tags.
pub fn tags_column(tags: Vec<String>) -> (r: String)
    ensures
        r@ == json_of_strings(normalised(strings_view(tags@))),
        strings_of_json(r@) == Some(normalised(strings_view(tags@))),
{
    let norm = normalise_tags(tags);
    match json_write_strings(&norm) {
        Ok(t) => t,
        Err(_) => {
            proof {
                assert(false);
            }
            String::new()
        },
    }
}

/// Tags are stored as a JSON array of strings; anything else reads as no tags.
pub fn parse_tags(json: &str) -> (r: Vec<String>)
    ensures
        strings_view(r@) == tags_read(json@),
{
    match json_read_strings(json) {
        Ok(v) => v,
        Err(_) => Vec::new(),
    }
}

/// Tags written through `tags_column` read back as the normalised tags.
pub proof fn law_tags_read_back(raw: Seq<Seq<char>>, column: Seq<char>)
    requires
        strings_of_json(column) == Some(normalised(raw)),
    ensures
        tags_read(column) == normalised(raw),
{
}

} // verus!
