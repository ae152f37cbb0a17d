//! License tracking kept in the settings table: the hash of the active key,
//! how many discussions it has run, and when it was last checked.
use vstd::prelude::*;

use crate::settings::{owned, rows_view};
use crate::text::{
    decimal, i64_text, lemma_i64_text_parses, lemma_u32_text_parses, parse_i64, parse_u32,
    parsed_i64, parsed_u32, signed_decimal, str_equal, u32_text,
};

verus! {

/// License tracking data: `(key_hash, discussions_count, last_check_timestamp)`.
pub struct LicenseTracking {
    pub key_hash: String,
    pub discussions_count: u32,
    pub last_check_timestamp: i64,
}

/// The abstract value of `LicenseTracking`.
pub ghost struct LicenseModel {
    pub key_hash: Seq<char>,
    pub discussions_count: u32,
    pub last_check_timestamp: i64,
}

impl View for LicenseTracking {
    type V = LicenseModel;

    open spec fn view(&self) -> LicenseModel {
        LicenseModel {
            key_hash: self.key_hash@,
            discussions_count: self.discussions_count,
            last_check_timestamp: self.last_check_timestamp,
        }
    }
}

/// Tracking data after reading one stored row; unreadable numbers read as 0
/// and other keys change nothing.
pub open spec fn license_applied(m: LicenseModel, key: Seq<char>, value: Seq<char>) -> LicenseModel {
    if key == "license_key_hash"@ {
        LicenseModel { key_hash: value, ..m }
    } else if key == "license_discussions_count"@ {
        LicenseModel {
            discussions_count: match parsed_u32(value) {
                Some(n) => n,
                None => 0,
            },
            ..m
        }
    } else if key == "last_check_timestamp"@ {
        LicenseModel {
            last_check_timestamp: match parsed_i64(value) {
                Some(n) => n,
                None => 0,
            },
            ..m
        }
    } else {
        m
    }
}

/// Tracking data read from stored rows in order, starting from nothing recorded.
pub open spec fn license_read(rows: Seq<(Seq<char>, Seq<char>)>) -> LicenseModel
    decreases rows.len(),
{
    if rows.len() == 0 {
        LicenseModel { key_hash: seq![], discussions_count: 0, last_check_timestamp: 0 }
    } else {
        license_applied(license_read(rows.drop_last()), rows.last().0, rows.last().1)
    }
}

/// Read license tracking data from the rows of the settings table.
pub fn license_from_rows(rows: &Vec<(String, String)>) -> (r: LicenseTracking)
    ensures
        r@ == license_read(rows_view(rows@)),
{
    let mut t = LicenseTracking { key_hash: String::new(), discussions_count: 0, last_check_timestamp: 0 };
    let mut i: usize = 0;
    while i < rows.len()
        invariant
            i <= rows.len(),
            t@ == license_read(rows_view(rows@).take(i as int)),
        decreases rows.len() - i,
    {
        let ghost rv = rows_view(rows@);
        proof {
            assert(rv.take(i + 1).drop_last() =~= rv.take(i as int));
            assert(rv.take(i + 1).last() == (rows@[i as int].0@, rows@[i as int].1@));
        }
        let key = rows[i].0.as_str();
        let value = rows[i].1.as_str();
        if str_equal(key, "license_key_hash") {
            t.key_hash = owned(value);
        } else if str_equal(key, "license_discussions_count") {
            t.discussions_count = match parse_u32(value) {
                Some(n) => n,
                None => 0,
            };
        } else if str_equal(key, "last_check_timestamp") {
            t.last_check_timestamp = match parse_i64(value) {
                Some(n) => n,
                None => 0,
            };
        }
        i += 1;
    }
    proof {
        assert(rows_view(rows@).take(rows.len() as int) =~= rows_view(rows@));
    }
    t
}

/// The discussion count after one more discussion with the key hashed as
/// `key_hash`: a new key starts over at 1.
pub open spec fn next_count(stored: LicenseModel, key_hash: Seq<char>) -> int {
    if stored.key_hash == key_hash {
        stored.discussions_count + 1
    } else {
        1
    }
}

/// Count one more discussion. Handles key change implicitly: if `key_hash`
/// differs from the stored hash the count restarts at 1, otherwise it grows by 1.
pub fn next_license_count(stored: &LicenseTracking, key_hash: &str) -> (r: u32)
    requires
        stored@.key_hash == key_hash@ ==> stored.discussions_count < u32::MAX,
    ensures
        r == next_count(stored@, key_hash@),
{
    if str_equal(stored.key_hash.as_str(), key_hash) {
        stored.discussions_count + 1
    } else {
        1
    }
}

/// The rows recording a key hash, its discussion count and the check time.
pub open spec fn license_rows_spec(key_hash: Seq<char>, count: u32, now: i64) -> Seq<(Seq<char>, Seq<char>)> {
    seq![
        ("license_key_hash"@, key_hash),
        ("license_discussions_count"@, decimal(count as nat)),
        ("last_check_timestamp"@, signed_decimal(now as int)),
    ]
}

/// The rows recording a key hash, its discussion count and the check time.
pub fn license_rows(key_hash: &str, count: u32, now: i64) -> (r: Vec<(String, String)>)
    ensures
        rows_view(r@) == license_rows_spec(key_hash@, count, now),
{
    let mut v: Vec<(String, String)> = Vec::new();
    v.push((owned("license_key_hash"), owned(key_hash)));
    v.push((owned("license_discussions_count"), u32_text(count)));
    v.push((owned("last_check_timestamp"), i64_text(now)));
    proof {
        assert(rows_view(v@) =~= license_rows_spec(key_hash@, count, now));
    }
    v
}

/// The row recording the last check time.
pub fn last_check_row(now: i64) -> (r: (String, String))
    ensures
        r.0@ == "last_check_timestamp"@,
        r.1@ == signed_decimal(now as int),
{
    (owned("last_check_timestamp"), i64_text(now))
}

/// Recorded tracking data reads back as written.
pub proof fn law_license_round_trip(key_hash: Seq<char>, count: u32, now: i64)
    ensures
        license_read(license_rows_spec(key_hash, count, now)) == (LicenseModel {
            key_hash,
            discussions_count: count,
            last_check_timestamp: now,
        }),
{
    let rows = license_rows_spec(key_hash, count, now);
    reveal_strlit("license_key_hash");
    reveal_strlit("license_discussions_count");
    reveal_strlit("last_check_timestamp");
    assert("license_discussions_count"@.len() != "license_key_hash"@.len());
    assert("last_check_timestamp"@.len() != "license_key_hash"@.len());
    assert("last_check_timestamp"@.len() != "license_discussions_count"@.len());
    lemma_u32_text_parses(count);
    lemma_i64_text_parses(now);
    assert(rows.take(0) =~= Seq::<(Seq<char>, Seq<char>)>::empty());
    assert(rows.take(1).drop_last() =~= rows.take(0));
    assert(rows.take(2).drop_last() =~= rows.take(1));
    assert(rows.take(3).drop_last() =~= rows.take(2));
    assert(rows.take(3) =~= rows);
    assert(license_read(rows.take(0)).discussions_count == 0);
    assert(license_read(rows.take(1)).key_hash == key_hash);
    assert(license_read(rows.take(2)).discussions_count == count);
}

/// Counting discussions: with the same key each discussion adds one to the
/// recorded count; a different key starts over at one.
pub proof fn law_license_counting(key_hash: Seq<char>, count: u32, now: i64, other: Seq<char>)
    requires
        other != key_hash,
    ensures
        next_count(license_read(license_rows_spec(key_hash, count, now)), key_hash) == count + 1,
        next_count(license_read(license_rows_spec(key_hash, count, now)), other) == 1,
{
    law_license_round_trip(key_hash, count, now);
}

/// `rows` hold the rows written for `(key_hash, count, now)`: every row under
/// one of their keys is that written row, and each written row is there; the
/// rows may come in any order, repeated, among rows of other keys.
pub open spec fn license_rows_hold(
    rows: Seq<(Seq<char>, Seq<char>)>,
    key_hash: Seq<char>,
    count: u32,
    now: i64,
) -> bool {
    let w = license_rows_spec(key_hash, count, now);
    &&& forall|p: int, f: int|
        0 <= p < rows.len() && 0 <= f < 3 && #[trigger] rows[p].0 == #[trigger] w[f].0 ==> rows[p] == w[f]
    &&& forall|f: int| 0 <= f < 3 ==> exists|p: int| 0 <= p < rows.len() && rows[p].0 == #[trigger] w[f].0
}

/// Some row among the first `n` has key `key`.
pub open spec fn key_seen(rows: Seq<(Seq<char>, Seq<char>)>, n: int, key: Seq<char>) -> bool {
    exists|p: int| 0 <= p < n && #[trigger] rows[p].0 == key
}

/// The tracking read after the first `n` rows that hold `(key_hash, count, now)`:
/// each field as written once its row has been read, as unrecorded before.
spec fn license_partly_read(
    rows: Seq<(Seq<char>, Seq<char>)>,
    n: int,
    key_hash: Seq<char>,
    count: u32,
    now: i64,
) -> LicenseModel {
    LicenseModel {
        key_hash: if key_seen(rows, n, "license_key_hash"@) {
            key_hash
        } else {
            seq![]
        },
        discussions_count: if key_seen(rows, n, "license_discussions_count"@) {
            count
        } else {
            0
        },
        last_check_timestamp: if key_seen(rows, n, "last_check_timestamp"@) {
            now
        } else {
            0
        },
    }
}

/// Reading the first `n` rows sets exactly the fields whose rows were read.
proof fn lemma_license_read_prefix(
    rows: Seq<(Seq<char>, Seq<char>)>,
    n: int,
    key_hash: Seq<char>,
    count: u32,
    now: i64,
)
    requires
        license_rows_hold(rows, key_hash, count, now),
        0 <= n <= rows.len(),
    ensures
        license_read(rows.take(n)) == license_partly_read(rows, n, key_hash, count, now),
    decreases n,
{
    let w = license_rows_spec(key_hash, count, now);
    reveal_strlit("license_key_hash");
    reveal_strlit("license_discussions_count");
    reveal_strlit("last_check_timestamp");
    let k0 = "license_key_hash"@;
    let k1 = "license_discussions_count"@;
    let k2 = "last_check_timestamp"@;
    assert(k1.len() != k0.len() && k2.len() != k0.len() && k2.len() != k1.len());
    assert(w[0].0 == k0 && w[1].0 == k1 && w[2].0 == k2);
    if n == 0 {
        assert(rows.take(0) =~= Seq::<(Seq<char>, Seq<char>)>::empty());
    } else {
        lemma_license_read_prefix(rows, n - 1, key_hash, count, now);
        let r = rows[n - 1];
        assert(rows.take(n).drop_last() =~= rows.take(n - 1));
        assert(rows.take(n).last() == r);
        let prev = license_partly_read(rows, n - 1, key_hash, count, now);
        let cur = license_partly_read(rows, n, key_hash, count, now);
        assert forall|k: Seq<char>| key_seen(rows, n, k) == (key_seen(rows, n - 1, k) || r.0 == k) by {
            if key_seen(rows, n, k) {
                let p = choose|p: int| 0 <= p < n && #[trigger] rows[p].0 == k;
                if p < n - 1 {
                    assert(key_seen(rows, n - 1, k));
                }
            }
            if key_seen(rows, n - 1, k) {
                let p = choose|p: int| 0 <= p < n - 1 && #[trigger] rows[p].0 == k;
                assert(rows[p].0 == k);
            }
            if r.0 == k {
                assert(rows[n - 1].0 == k);
            }
        }
        if r.0 == k0 {
            assert(r == w[0]);
        } else if r.0 == k1 {
            assert(r == w[1]);
            lemma_u32_text_parses(count);
        } else if r.0 == k2 {
            assert(r == w[2]);
            lemma_i64_text_parses(now);
        }
        assert(key_seen(rows, n, k0) == (key_seen(rows, n - 1, k0) || r.0 == k0));
        assert(key_seen(rows, n, k1) == (key_seen(rows, n - 1, k1) || r.0 == k1));
        assert(key_seen(rows, n, k2) == (key_seen(rows, n - 1, k2) || r.0 == k2));
    }
}

/// Reading license rows does not depend on their order: whatever the order of
/// the rows written for `(key_hash, count, now)`, repeated or not, and
/// whatever rows of other keys lie among them, the tracking read is
/// `(key_hash, count, now)`; in particular each row sets only its own field.
pub proof fn law_license_read_any_order(
    rows: Seq<(Seq<char>, Seq<char>)>,
    key_hash: Seq<char>,
    count: u32,
    now: i64,
)
    requires
        license_rows_hold(rows, key_hash, count, now),
    ensures
        license_read(rows) == (LicenseModel {
            key_hash,
            discussions_count: count,
            last_check_timestamp: now,
        }),
{
    let w = license_rows_spec(key_hash, count, now);
    lemma_license_read_prefix(rows, rows.len() as int, key_hash, count, now);
    assert(rows.take(rows.len() as int) =~= rows);
    assert(w[0].0 == "license_key_hash"@ && w[1].0 == "license_discussions_count"@ && w[2].0
        == "last_check_timestamp"@);
    let p0 = choose|p: int| 0 <= p < rows.len() && rows[p].0 == #[trigger] w[0].0;
    let p1 = choose|p: int| 0 <= p < rows.len() && rows[p].0 == #[trigger] w[1].0;
    let p2 = choose|p: int| 0 <= p < rows.len() && rows[p].0 == #[trigger] w[2].0;
    assert(key_seen(rows, rows.len() as int, "license_key_hash"@)) by {
        assert(rows[p0].0 == "license_key_hash"@);
    }
    assert(key_seen(rows, rows.len() as int, "license_discussions_count"@)) by {
        assert(rows[p1].0 == "license_discussions_count"@);
    }
    assert(key_seen(rows, rows.len() as int, "last_check_timestamp"@)) by {
        assert(rows[p2].0 == "last_check_timestamp"@);
    }
}

} // verus!
