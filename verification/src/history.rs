//! The Tavily usage history: a JSON array in the settings table to which the
//! usage of every expired period is appended.
use vstd::prelude::*;

use crate::tags::{hex_digit, json_char, json_string_body, strings_view};
use crate::text::{chars_of, decimal, extend_chars, string_of, u32_text};

verus! {

/// A JSON string literal: the escaped characters of `s` between quotes.
pub open spec fn json_string(s: Seq<char>) -> Seq<char> {
    seq!['"'] + json_string_body(s) + seq!['"']
}

/// Item texts separated by commas.
pub open spec fn joined_items(items: Seq<Seq<char>>) -> Seq<char>
    decreases items.len(),
{
    if items.len() == 0 {
        seq![]
    } else if items.len() == 1 {
        items[0]
    } else {
        joined_items(items.drop_last()) + seq![','] + items.last()
    }
}

/// The compact JSON array of the item texts `items`.
pub open spec fn json_array_of(items: Seq<Seq<char>>) -> Seq<char> {
    seq!['['] + joined_items(items) + seq![']']
}

/// What `serde_json::from_str::<Vec<serde_json::Value>>` reads from a text, as
/// the compact JSON text of each item; `None` when the text is not a JSON array.
pub uninterp spec fn json_array_items(text: Seq<char>) -> Option<Seq<Seq<char>>>;

/// `serde_json::from_str::<Vec<serde_json::Value>>`, each item rendered back
/// to its compact text by `Value`'s `Display`. Its result is the named reading
/// of the text; which texts parse, and how an item is re-rendered, is not
/// spelled out.
#[verifier::external_body]
fn read_json_array(text: &str) -> (r: Option<Vec<String>>)
    ensures
        match r {
            Some(v) => json_array_items(text@) == Some(strings_view(v@)),
            None => json_array_items(text@) is None,
        },
{
    match serde_json::from_str::<Vec<serde_json::Value>>(text) {
        Ok(v) => Some(v.iter().map(|x| x.to_string()).collect()),
        Err(_) => None,
    }
}

/// The items of a stored history: none when it is not a JSON array.
pub open spec fn history_items(text: Seq<char>) -> Seq<Seq<char>> {
    match json_array_items(text) {
        Some(v) => v,
        None => seq![],
    }
}

/// The JSON object archiving an expired Tavily period, keys in the order
/// serde_json's map keeps them (sorted).
pub open spec fn archive_json(period_start: Seq<char>, period_end: Seq<char>, usage_count: u32) -> Seq<char> {
    "{\"periodEnd\":"@ + json_string(period_end) + ",\"periodStart\":"@ + json_string(period_start)
        + ",\"usageCount\":"@ + decimal(usage_count as nat) + "}"@
}

/// The history text with the archive of a period appended.
pub open spec fn history_appended(
    history: Seq<char>,
    period_start: Seq<char>,
    period_end: Seq<char>,
    usage_count: u32,
) -> Seq<char> {
    json_array_of(history_items(history).push(archive_json(period_start, period_end, usage_count)))
}

/// Appending an item after the others.
proof fn lemma_joined_push(items: Seq<Seq<char>>, x: Seq<char>)
    ensures
        joined_items(items.push(x)) == (if items.len() == 0 {
            x
        } else {
            joined_items(items) + seq![','] + x
        }),
{
    assert(items.push(x).drop_last() =~= items);
    if items.len() == 0 {
        assert(items.push(x)[0] == x);
    }
}

/// A lower-case hexadecimal digit.
fn hex_char(n: u32) -> (c: char)
    requires
        n < 16,
    ensures
        c == hex_digit(n as int),
{
    if n < 10 {
        if n == 0 { '0' } else if n == 1 { '1' } else if n == 2 { '2' } else if n == 3 { '3' }
        else if n == 4 { '4' } else if n == 5 { '5' } else if n == 6 { '6' } else if n == 7 { '7' }
        else if n == 8 { '8' } else { '9' }
    } else {
        if n == 10 { 'a' } else if n == 11 { 'b' } else if n == 12 { 'c' } else if n == 13 { 'd' }
        else if n == 14 { 'e' } else { 'f' }
    }
}

/// Appends one character as written inside a JSON string.
fn push_json_char(out: &mut Vec<char>, c: char)
    ensures
        final(out)@ == old(out)@ + json_char(c),
{
    let n: u32 = c as u32;
    if c == '"' {
        out.push('\\');
        out.push('"');
    } else if c == '\\' {
        out.push('\\');
        out.push('\\');
    } else if n == 8 {
        out.push('\\');
        out.push('b');
    } else if n == 9 {
        out.push('\\');
        out.push('t');
    } else if n == 10 {
        out.push('\\');
        out.push('n');
    } else if n == 12 {
        out.push('\\');
        out.push('f');
    } else if n == 13 {
        out.push('\\');
        out.push('r');
    } else if n < 32 {
        out.push('\\');
        out.push('u');
        out.push('0');
        out.push('0');
        out.push(hex_char(n / 16));
        out.push(hex_char(n % 16));
    } else {
        out.push(c);
    }
    proof {
        assert(final(out)@ =~= old(out)@ + json_char(c));
    }
}

/// Appends the JSON string literal of `s`.
fn push_json_string(out: &mut Vec<char>, s: &str)
    ensures
        final(out)@ == old(out)@ + json_string(s@),
{
    let v = chars_of(s);
    out.push('"');
    let ghost base = out@;
    let mut k: usize = 0;
    while k < v.len()
        invariant
            k <= v.len(),
            v@ == s@,
            out@ == base + json_string_body(v@.take(k as int)),
        decreases v.len() - k,
    {
        proof {
            assert(v@.take(k + 1).drop_last() =~= v@.take(k as int));
            assert(v@.take(k + 1).last() == v@[k as int]);
        }
        push_json_char(out, v[k]);
        proof {
            assert(out@ =~= base + json_string_body(v@.take(k + 1)));
        }
        k += 1;
    }
    proof {
        assert(v@.take(v.len() as int) =~= v@);
    }
    out.push('"');
    proof {
        assert(out@ =~= old(out)@ + json_string(s@));
    }
}

/// Appends the characters of `s`.
fn push_str(out: &mut Vec<char>, s: &str)
    ensures
        final(out)@ == old(out)@ + s@,
{
    extend_chars(out, &chars_of(s));
}

/// The JSON object archiving a period.
fn archive_text(period_start: &str, period_end: &str, usage_count: u32) -> (r: Vec<char>)
    ensures
        r@ == archive_json(period_start@, period_end@, usage_count),
{
    let mut out: Vec<char> = Vec::new();
    push_str(&mut out, "{\"periodEnd\":");
    push_json_string(&mut out, period_end);
    push_str(&mut out, ",\"periodStart\":");
    push_json_string(&mut out, period_start);
    push_str(&mut out, ",\"usageCount\":");
    push_str(&mut out, u32_text(usage_count).as_str());
    push_str(&mut out, "}");
    proof {
        assert(out@ =~= archive_json(period_start@, period_end@, usage_count));
    }
    out
}

/// The stored history with the archive of a period appended: the items of
/// `history` (none when it is not a JSON array) followed by the period's
/// object, as a compact JSON array.
pub fn history_with_period(history: &str, period_start: &str, period_end: &str, usage_count: u32) -> (r: String)
    ensures
        r@ == history_appended(history@, period_start@, period_end@, usage_count),
{
    let items: Vec<String> = match read_json_array(history) {
        Some(v) => v,
        None => Vec::new(),
    };
    let ghost view = strings_view(items@);
    assert(view == history_items(history@));
    let mut out: Vec<char> = Vec::new();
    out.push('[');
    let mut i: usize = 0;
    while i < items.len()
        invariant
            i <= items.len(),
            view == strings_view(items@),
            out@ == seq!['['] + joined_items(view.take(i as int)),
        decreases items.len() - i,
    {
        proof {
            lemma_joined_push(view.take(i as int), view[i as int]);
            assert(view.take(i as int).push(view[i as int]) =~= view.take(i + 1));
        }
        if i > 0 {
            out.push(',');
        }
        push_str(&mut out, items[i].as_str());
        proof {
            assert(out@ =~= seq!['['] + joined_items(view.take(i + 1)));
        }
        i += 1;
    }
    proof {
        assert(view.take(items.len() as int) =~= view);
    }
    let entry = archive_text(period_start, period_end, usage_count);
    let ghost a = entry@;
    proof {
        lemma_joined_push(view, a);
    }
    if items.len() > 0 {
        out.push(',');
    }
    extend_chars(&mut out, &entry);
    out.push(']');
    proof {
        assert(out@ =~= json_array_of(view.push(a)));
    }
    string_of(&out)
}

} // verus!
