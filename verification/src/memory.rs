//! Long memory of the personas: which recaps of a saved discussion are kept,
//! and the order in which memories are recalled.
use vstd::prelude::*;

use vstd::set_lib::{lemma_int_range, lemma_len_subset, set_int_range};

use crate::text::{chars_of, decimal, extend_chars, string_of, trim_str, trimmed, usize_text};

verus! {

/// What a persona retained from one discussion.
pub struct PersonaRecap {
    pub positions: Vec<String>,
    pub best_lines: Vec<String>,
    pub allies: Vec<String>,
    pub rivals: Vec<String>,
    pub lesson: String,
}

impl PersonaRecap {
    /// Nothing was retained.
    pub open spec fn spec_is_empty(&self) -> bool {
        &&& self.positions@.len() == 0
        &&& self.best_lines@.len() == 0
        &&& self.allies@.len() == 0
        &&& self.rivals@.len() == 0
        &&& self.lesson@.len() == 0
    }

    /// Whether nothing was retained.
    pub fn is_empty(&self) -> (r: bool)
        ensures
            r == self.spec_is_empty(),
    {
        self.positions.len() == 0 && self.best_lines.len() == 0 && self.allies.len() == 0
            && self.rivals.len() == 0 && self.lesson.as_str().is_empty()
    }
}

/// The recap of one speaker at the end of a discussion.
pub struct SpeakerRecap {
    pub speaker_id: String,
    pub speaker_name: String,
    /// Profile the speaker was played from (blank for an ad-hoc persona).
    pub profile_id: String,
    pub recap: PersonaRecap,
}

/// One stored memory of a persona.
pub struct PersonaMemory {
    pub id: String,
    pub profile_id: String,
    pub discussion_id: String,
    pub topic: String,
    pub created_at: String,
    pub recap: PersonaRecap,
}

/// A recap is stored when it names a profile and retained something.
pub open spec fn recap_kept(r: SpeakerRecap) -> bool {
    trimmed(r.profile_id@).len() > 0 && !r.recap.spec_is_empty()
}

/// Id of the memory made from recap `i` of discussion `discussion_id`: `"{id}-{i}"`.
pub open spec fn memory_id(discussion_id: Seq<char>, i: nat) -> Seq<char> {
    discussion_id + seq!['-'] + decimal(i)
}

/// The indices of the kept recaps among the first `n`, in order.
pub open spec fn kept_recaps(recaps: Seq<SpeakerRecap>, n: int) -> Seq<usize>
    decreases n,
{
    if n <= 0 {
        seq![]
    } else {
        let prev = kept_recaps(recaps, n - 1);
        if recap_kept(recaps[n - 1]) {
            prev.push((n - 1) as usize)
        } else {
            prev
        }
    }
}

/// `"{discussion_id}-{i}"`.
fn memory_id_of(discussion_id: &str, i: usize) -> (r: String)
    ensures
        r@ == memory_id(discussion_id@, i as nat),
{
    let mut v = chars_of(discussion_id);
    v.push('-');
    let n = usize_text(i);
    extend_chars(&mut v, &chars_of(n.as_str()));
    proof {
        assert(v@ =~= memory_id(discussion_id@, i as nat));
    }
    string_of(&v)
}

/// The persona memories a saved discussion creates: for every recap that
/// names a profile and retained something, its index among the recaps and the
/// memory id `"{discussion_id}-{index}"`, in recap order.
pub fn memory_rows(discussion_id: &str, recaps: &Vec<SpeakerRecap>) -> (r: Vec<(usize, String)>)
    ensures
        r@.len() == kept_recaps(recaps@, recaps@.len() as int).len(),
        forall|k: int|
            0 <= k < r@.len() ==> {
                &&& (#[trigger] r@[k]).0 == kept_recaps(recaps@, recaps@.len() as int)[k]
                &&& r@[k].1@ == memory_id(discussion_id@, r@[k].0 as nat)
            },
{
    let mut rows: Vec<(usize, String)> = Vec::new();
    let mut i: usize = 0;
    while i < recaps.len()
        invariant
            i <= recaps.len(),
            rows@.len() == kept_recaps(recaps@, i as int).len(),
            forall|k: int|
                0 <= k < rows@.len() ==> {
                    &&& (#[trigger] rows@[k]).0 == kept_recaps(recaps@, i as int)[k]
                    &&& rows@[k].1@ == memory_id(discussion_id@, rows@[k].0 as nat)
                },
        decreases recaps.len() - i,
    {
        let r = &recaps[i];
        let profile = trim_str(r.profile_id.as_str());
        if !profile.as_str().is_empty() && !r.recap.is_empty() {
            let id = memory_id_of(discussion_id, i);
            rows.push((i, id));
        }
        i += 1;
    }
    rows
}

// ── Recall order ────────────────────────────────────────────────────

/// The topic matches, deduplicated and restricted to indices below `n`, in
/// the order given.
pub open spec fn matched_order(n: nat, matches: Seq<usize>) -> Seq<usize>
    decreases matches.len(),
{
    if matches.len() == 0 {
        seq![]
    } else {
        let prev = matched_order(n, matches.drop_last());
        let i: usize = matches.last();
        if i < n && !prev.contains(i) {
            prev.push(i)
        } else {
            prev
        }
    }
}

/// `base` completed by recency: the indices `0..k` not yet in it are added in
/// order while fewer than `limit` are listed.
pub open spec fn recency_filled(base: Seq<usize>, limit: nat, k: nat) -> Seq<usize>
    decreases k,
{
    if k == 0 {
        base
    } else {
        let prev = recency_filled(base, limit, (k - 1) as nat);
        let i: usize = (k - 1) as usize;
        if prev.len() < limit && !prev.contains(i) {
            prev.push(i)
        } else {
            prev
        }
    }
}

/// The positions recalled out of `n` memories (newest first): the topic
/// matches first, then the most recent others, `limit` at most.
pub open spec fn recall_order(n: nat, matches: Seq<usize>, limit: nat) -> Seq<usize> {
    if n == 0 || limit == 0 {
        seq![]
    } else {
        let full = recency_filled(matched_order(n, matches), limit, n);
        if full.len() <= limit {
            full
        } else {
            full.take(limit as int)
        }
    }
}

/// No index repeats, and every index is below `n`.
pub open spec fn distinct_below(s: Seq<usize>, n: nat) -> bool {
    &&& forall|a: int, b: int| 0 <= a < b < s.len() ==> s[a] != s[b]
    &&& forall|a: int| 0 <= a < s.len() ==> s[a] < n
}

proof fn lemma_matched_order_distinct(n: nat, matches: Seq<usize>)
    ensures
        distinct_below(matched_order(n, matches), n),
    decreases matches.len(),
{
    if matches.len() > 0 {
        let p = matched_order(n, matches.drop_last());
        lemma_matched_order_distinct(n, matches.drop_last());
        let i: usize = matches.last();
        if i < n && !p.contains(i) {
            let q = p.push(i);
            assert forall|a: int, b: int| 0 <= a < b < q.len() implies q[a] != q[b] by {
                if b == p.len() {
                    assert(q[a] == p[a]);
                    assert(p.contains(p[a]));
                } else {
                    assert(q[a] == p[a] && q[b] == p[b]);
                }
            }
            assert forall|a: int| 0 <= a < q.len() implies q[a] < n by {
                if a < p.len() {
                    assert(q[a] == p[a]);
                }
            }
        }
    }
}

proof fn lemma_recency_filled_distinct(base: Seq<usize>, limit: nat, k: nat, n: nat)
    requires
        distinct_below(base, n),
        k <= n,
    ensures
        distinct_below(recency_filled(base, limit, k), n),
        base.len() <= recency_filled(base, limit, k).len(),
        forall|a: int| 0 <= a < base.len() ==> recency_filled(base, limit, k)[a] == base[a],
    decreases k,
{
    if k > 0 {
        lemma_recency_filled_distinct(base, limit, (k - 1) as nat, n);
        let p = recency_filled(base, limit, (k - 1) as nat);
        let i: usize = (k - 1) as usize;
        if p.len() < limit && !p.contains(i) {
            let q = p.push(i);
            assert forall|a: int, b: int| 0 <= a < b < q.len() implies q[a] != q[b] by {
                if b == p.len() {
                    assert(q[a] == p[a]);
                    assert(p.contains(p[a]));
                } else {
                    assert(q[a] == p[a] && q[b] == p[b]);
                }
            }
            assert forall|a: int| 0 <= a < q.len() implies q[a] < n by {
                if a < p.len() {
                    assert(q[a] == p[a]);
                }
            }
            assert forall|a: int| 0 <= a < base.len() implies q[a] == base[a] by {
                assert(q[a] == p[a]);
            }
        }
    }
}

/// A duplicate-free list of indices below `n` has at most `n` of them, and
/// exactly `n` when it holds every index below `n`.
proof fn lemma_distinct_below_len(s: Seq<usize>, n: nat)
    requires
        distinct_below(s, n),
        n <= usize::MAX + 1,
    ensures
        s.len() <= n,
        (forall|i: usize| i < n ==> #[trigger] s.contains(i)) ==> s.len() == n,
{
    broadcast use vstd::seq_lib::seq_to_set_is_finite;

    let t = s.map_values(|x: usize| x as int);
    assert(t.no_duplicates()) by {
        assert forall|a: int, b: int| 0 <= a < t.len() && 0 <= b < t.len() && a != b implies t[a]
            != t[b] by {
            if a < b {
                assert(s[a] != s[b]);
            } else {
                assert(s[b] != s[a]);
            }
        }
    }
    t.unique_seq_to_set();
    lemma_int_range(0, n as int);
    assert(t.to_set().subset_of(set_int_range(0, n as int))) by {
        assert forall|x: int| t.to_set().contains(x) implies set_int_range(0, n as int).contains(x) by {
            let j = choose|j: int| 0 <= j < t.len() && t[j] == x;
            assert(s[j] < n);
        }
    }
    lemma_len_subset(t.to_set(), set_int_range(0, n as int));
    if forall|i: usize| i < n ==> #[trigger] s.contains(i) {
        assert(set_int_range(0, n as int).subset_of(t.to_set())) by {
            assert forall|x: int| set_int_range(0, n as int).contains(x) implies t.to_set().contains(x) by {
                let u: usize = x as usize;
                assert(s.contains(u));
                let j = choose|j: int| 0 <= j < s.len() && s[j] == u;
                assert(t[j] == x);
            }
        }
        lemma_len_subset(set_int_range(0, n as int), t.to_set());
    }
}

/// While `recency_filled` stays below `limit`, it holds every index it considered.
proof fn lemma_recency_filled_covers(base: Seq<usize>, limit: nat, k: nat)
    requires
        k <= usize::MAX + 1,
    ensures
        recency_filled(base, limit, k).len() < limit ==> forall|i: usize|
            i < k ==> #[trigger] recency_filled(base, limit, k).contains(i),
        base.len() <= recency_filled(base, limit, k).len(),
    decreases k,
{
    if k > 0 {
        lemma_recency_filled_covers(base, limit, (k - 1) as nat);
        let p = recency_filled(base, limit, (k - 1) as nat);
        let cur = recency_filled(base, limit, k);
        let last: usize = (k - 1) as usize;
        if cur.len() < limit {
            assert forall|i: usize| i < k implies #[trigger] cur.contains(i) by {
                if p.len() < limit && !p.contains(last) {
                    assert(cur == p.push(last));
                    if i == last {
                        assert(cur[p.len() as int] == last);
                    } else {
                        assert(p.contains(i));
                        let j = choose|j: int| 0 <= j < p.len() && p[j] == i;
                        assert(cur[j] == i);
                    }
                } else {
                    assert(cur == p);
                    if i != last {
                        assert(p.contains(i));
                    }
                }
            }
        }
    }
}

/// Every memory is recalled at most once, the topic matches come first in
/// their ranking order, and `limit` memories are recalled, or all of them
/// when there are fewer.
pub proof fn law_recall_order(n: nat, matches: Seq<usize>, limit: nat)
    requires
        n <= usize::MAX,
    ensures
        distinct_below(recall_order(n, matches, limit), n),
        recall_order(n, matches, limit).len() == (if n < limit {
            n
        } else {
            limit
        }),
        forall|a: int|
            0 <= a < matched_order(n, matches).len() && a < limit && n > 0 ==> #[trigger] recall_order(
                n,
                matches,
                limit,
            )[a] == matched_order(n, matches)[a],
{
    if n > 0 && limit > 0 {
        let m = matched_order(n, matches);
        lemma_matched_order_distinct(n, matches);
        lemma_recency_filled_distinct(m, limit, n, n);
        lemma_recency_filled_covers(m, limit, n);
        let full = recency_filled(m, limit, n);
        lemma_distinct_below_len(full, n);
        if full.len() > limit {
            let t = full.take(limit as int);
            assert forall|a: int, b: int| 0 <= a < b < t.len() implies t[a] != t[b] by {
                assert(t[a] == full[a] && t[b] == full[b]);
            }
            assert forall|a: int| 0 <= a < t.len() implies t[a] < n by {
                assert(t[a] == full[a]);
            }
        }
    }
}

/// What `matched_order` keeps of the matches: only matches, every valid one,
/// each after the first occurrence of those kept before it.
proof fn lemma_matched_order_members(n: nat, matches: Seq<usize>)
    ensures
        forall|a: int|
            0 <= a < matched_order(n, matches).len() ==> matches.contains(
                #[trigger] matched_order(n, matches)[a],
            ),
        forall|j: int|
            0 <= j < matches.len() && matches[j] < n ==> matched_order(n, matches).contains(
                #[trigger] matches[j],
            ),
        forall|a: int, b: int, j: int|
            0 <= a < b < matched_order(n, matches).len() && 0 <= j < matches.len() && #[trigger] matches[j]
                == #[trigger] matched_order(n, matches)[b] ==> exists|i: int|
                0 <= i < j && matches[i] == #[trigger] matched_order(n, matches)[a],
    decreases matches.len(),
{
    if matches.len() > 0 {
        let p = matches.drop_last();
        lemma_matched_order_members(n, p);
        lemma_matched_order_distinct(n, p);
        let mp = matched_order(n, p);
        let m = matched_order(n, matches);
        let x: usize = matches.last();
        let last: int = matches.len() - 1;
        assert(matches[last] == x);
        assert forall|a: int| 0 <= a < m.len() implies matches.contains(#[trigger] m[a]) by {
            if a < mp.len() {
                assert(m[a] == mp[a]);
                let i = choose|i: int| 0 <= i < p.len() && p[i] == mp[a];
                assert(matches[i] == p[i]);
            } else {
                assert(m[a] == x);
            }
        }
        assert forall|j: int| 0 <= j < matches.len() && matches[j] < n implies m.contains(
            #[trigger] matches[j],
        ) by {
            if j < last {
                assert(matches[j] == p[j]);
                assert(mp.contains(p[j]));
                let i = choose|i: int| 0 <= i < mp.len() && mp[i] == p[j];
                assert(m[i] == mp[i]);
            } else if !mp.contains(x) {
                assert(m[mp.len() as int] == x);
            } else {
                let i = choose|i: int| 0 <= i < mp.len() && mp[i] == x;
                assert(m[i] == mp[i]);
            }
        }
        assert forall|a: int, b: int, j: int|
            0 <= a < b < m.len() && 0 <= j < matches.len() && #[trigger] matches[j] == #[trigger] m[b]
                implies exists|i: int| 0 <= i < j && matches[i] == #[trigger] m[a] by {
            assert(m[a] == mp[a]);
            let ia = choose|i: int| 0 <= i < p.len() && p[i] == mp[a];
            assert(matches[ia] == p[ia]);
            if b < mp.len() {
                assert(m[b] == mp[b]);
                if j < last {
                    assert(matches[j] == p[j]);
                    let i = choose|i: int| 0 <= i < j && p[i] == mp[a];
                    assert(matches[i] == p[i]);
                } else {
                    assert(mp.contains(mp[b]));
                    if !mp.contains(x) {
                        assert(false);
                    }
                    assert(ia < j);
                }
            } else {
                assert(m[b] == x);
                if j < last {
                    assert(matches[j] == p[j]);
                    assert(mp.contains(p[j]));
                    assert(m.len() == mp.len());
                } else {
                    assert(ia < j);
                }
            }
        }
    }
}

/// A memory that does not match the topic is recalled only once every memory
/// that does (a valid position among `matches`) has been recalled before it;
/// and recalled matches keep the order of `matches`: a match recalled after
/// another first appears in `matches` after an occurrence of the other.
pub proof fn law_recall_matches_first(n: nat, matches: Seq<usize>, limit: nat)
    requires
        n <= usize::MAX,
    ensures
        forall|a: int, j: int|
            0 <= a < recall_order(n, matches, limit).len() && !matches.contains(
                #[trigger] recall_order(n, matches, limit)[a],
            ) && 0 <= j < matches.len() && #[trigger] matches[j] < n ==> exists|b: int|
                0 <= b < a && recall_order(n, matches, limit)[b] == matches[j],
        forall|a: int, b: int, j: int|
            0 <= a < b < recall_order(n, matches, limit).len() && matches.contains(
                recall_order(n, matches, limit)[a],
            ) && 0 <= j < matches.len() && #[trigger] matches[j] == #[trigger] recall_order(
                n,
                matches,
                limit,
            )[b] ==> exists|i: int|
                0 <= i < j && matches[i] == #[trigger] recall_order(n, matches, limit)[a],
{
    law_recall_order(n, matches, limit);
    lemma_matched_order_members(n, matches);
    lemma_matched_order_distinct(n, matches);
    let r = recall_order(n, matches, limit);
    let m = matched_order(n, matches);
    assert forall|a: int, j: int|
        0 <= a < r.len() && !matches.contains(#[trigger] r[a]) && 0 <= j < matches.len()
            && #[trigger] matches[j] < n implies exists|b: int| 0 <= b < a && r[b] == matches[j] by {
        if a < m.len() {
            assert(r[a] == m[a]);
            assert(matches.contains(m[a]));
        }
        assert(m.contains(matches[j]));
        let b = choose|b: int| 0 <= b < m.len() && m[b] == matches[j];
        assert(r[b] == m[b]);
    }
    assert forall|a: int, b: int, j: int|
        0 <= a < b < r.len() && matches.contains(r[a]) && 0 <= j < matches.len() && #[trigger] matches[j]
            == #[trigger] r[b] implies exists|i: int| 0 <= i < j && matches[i] == #[trigger] r[a] by {
        assert(r[b] < n);
        assert(m.contains(matches[j]));
        let c = choose|c: int| 0 <= c < m.len() && m[c] == matches[j];
        assert(r[c] == m[c]);
        assert(c == b);
        assert(r[a] == m[a]);
        assert(r[b] == m[b]);
    }
}

/// Recency fills in order: an index added after `base` comes after every
/// smaller index that is not in `base`.
proof fn lemma_recency_filled_order(base: Seq<usize>, limit: nat, k: nat)
    requires
        k <= usize::MAX + 1,
    ensures
        forall|a: int, y: usize|
            #![trigger recency_filled(base, limit, k)[a], base.contains(y)]
            base.len() <= a < recency_filled(base, limit, k).len() && y < recency_filled(
                base,
                limit,
                k,
            )[a] && !base.contains(y) ==> exists|b: int|
                0 <= b < a && #[trigger] recency_filled(base, limit, k)[b] == y,
    decreases k,
{
    if k > 0 {
        lemma_recency_filled_order(base, limit, (k - 1) as nat);
        lemma_recency_filled_covers(base, limit, (k - 1) as nat);
        lemma_recency_filled_prefix(base, limit, (k - 1) as nat);
        let p = recency_filled(base, limit, (k - 1) as nat);
        let cur = recency_filled(base, limit, k);
        let x: usize = (k - 1) as usize;
        if p.len() < limit && !p.contains(x) {
            assert(cur == p.push(x));
            assert forall|a: int, y: usize|
                #![trigger cur[a], base.contains(y)]
                base.len() <= a < cur.len() && y < cur[a] && !base.contains(y) implies exists|b: int|
                0 <= b < a && #[trigger] cur[b] == y by {
                if a < p.len() {
                    assert(cur[a] == p[a]);
                    let b = choose|b: int| 0 <= b < a && #[trigger] p[b] == y;
                    assert(cur[b] == p[b]);
                } else {
                    assert(cur[a] == x);
                    assert(p.contains(y));
                    let b = choose|b: int| 0 <= b < p.len() && p[b] == y;
                    assert(cur[b] == p[b]);
                }
            }
        }
    }
}

/// `recency_filled` only appends to `base`.
proof fn lemma_recency_filled_prefix(base: Seq<usize>, limit: nat, k: nat)
    ensures
        base.len() <= recency_filled(base, limit, k).len(),
        forall|a: int| 0 <= a < base.len() ==> #[trigger] recency_filled(base, limit, k)[a] == base[a],
    decreases k,
{
    if k > 0 {
        lemma_recency_filled_prefix(base, limit, (k - 1) as nat);
        let p = recency_filled(base, limit, (k - 1) as nat);
        let cur = recency_filled(base, limit, k);
        assert forall|a: int| 0 <= a < base.len() implies #[trigger] cur[a] == base[a] by {
            assert(p[a] == base[a]);
            if cur != p {
                assert(cur[a] == p[a]);
            }
        }
    }
}

/// Memories that do not match the topic are recalled newest first: before a
/// recalled non-matching memory, every newer non-matching memory is recalled.
pub proof fn law_recall_recency_after(n: nat, matches: Seq<usize>, limit: nat)
    requires
        n <= usize::MAX,
    ensures
        forall|a: int, y: usize|
            #![trigger recall_order(n, matches, limit)[a], matches.contains(y)]
            0 <= a < recall_order(n, matches, limit).len() && !matches.contains(
                recall_order(n, matches, limit)[a],
            ) && y < recall_order(n, matches, limit)[a] && !matches.contains(y) ==> exists|b: int|
                0 <= b < a && #[trigger] recall_order(n, matches, limit)[b] == y,
{
    law_recall_order(n, matches, limit);
    lemma_matched_order_members(n, matches);
    let r = recall_order(n, matches, limit);
    let m = matched_order(n, matches);
    if n > 0 && limit > 0 {
        let full = recency_filled(m, limit, n);
        lemma_recency_filled_order(m, limit, n);
        assert forall|a: int, y: usize|
            #![trigger r[a], matches.contains(y)]
            0 <= a < r.len() && !matches.contains(r[a]) && y < r[a] && !matches.contains(y)
                implies exists|b: int| 0 <= b < a && #[trigger] r[b] == y by {
            if a < m.len() {
                assert(r[a] == m[a]);
                assert(matches.contains(m[a]));
            }
            assert(r[a] == full[a]);
            if m.contains(y) {
                let c = choose|c: int| 0 <= c < m.len() && m[c] == y;
                assert(matches.contains(m[c]));
            }
            let b = choose|b: int| 0 <= b < a && #[trigger] full[b] == y;
            assert(r[b] == full[b]);
        }
    }
}

/// Whether `v` holds `x`.
fn contains_index(v: &Vec<usize>, x: usize) -> (r: bool)
    ensures
        r == v@.contains(x),
{
    let mut i: usize = 0;
    while i < v.len()
        invariant
            i <= v.len(),
            forall|k: int| 0 <= k < i ==> v@[k] != x,
        decreases v.len() - i,
    {
        if v[i] == x {
            proof {
                assert(v@[i as int] == x);
            }
            return true;
        }
        i += 1;
    }
    false
}

/// The positions recalled out of `n` memories for ranked topic `matches`.
pub fn recall_positions(n: usize, matches: &Vec<usize>, limit: usize) -> (r: Vec<usize>)
    ensures
        r@ == recall_order(n as nat, matches@, limit as nat),
{
    if n == 0 || limit == 0 {
        return Vec::new();
    }
    let mut order: Vec<usize> = Vec::new();
    let mut j: usize = 0;
    while j < matches.len()
        invariant
            j <= matches.len(),
            order@ == matched_order(n as nat, matches@.take(j as int)),
        decreases matches.len() - j,
    {
        let i: usize = matches[j];
        proof {
            assert(matches@.take(j + 1).drop_last() =~= matches@.take(j as int));
            assert(matches@.take(j + 1).last() == i);
        }
        if i < n && !contains_index(&order, i) {
            order.push(i);
        }
        j += 1;
    }
    proof {
        assert(matches@.take(matches.len() as int) =~= matches@);
    }
    let ghost base = order@;
    let mut k: usize = 0;
    while k < n
        invariant
            k <= n,
            order@ == recency_filled(base, limit as nat, k as nat),
        decreases n - k,
    {
        if order.len() < limit && !contains_index(&order, k) {
            order.push(k);
        }
        k += 1;
    }
    if order.len() > limit {
        order.truncate(limit);
    }
    order
}

/// Memories ranked for recall: `matches` lists, best first, the positions of
/// the memories whose text matches the topic (positions index `memories`,
/// newest first). The matches come first, recency completes the list, and at
/// most `limit` memories are returned.
pub fn rank_memories(memories: Vec<PersonaMemory>, matches: Vec<usize>, limit: usize) -> (r: Vec<PersonaMemory>)
    ensures
        r@.len() == recall_order(memories@.len(), matches@, limit as nat).len(),
        r@.len() == (if memories@.len() < limit {
            memories@.len() as int
        } else {
            limit as int
        }),
        forall|k: int|
            0 <= k < r@.len() ==> #[trigger] r@[k] == memories@[recall_order(
                memories@.len(),
                matches@,
                limit as nat,
            )[k] as int],
{
    let n: usize = memories.len();
    let order = recall_positions(n, &matches, limit);
    proof {
        law_recall_order(n as nat, matches@, limit as nat);
    }
    let ghost mems = memories@;
    let mut slots: Vec<Option<PersonaMemory>> = Vec::new();
    let mut memories = memories;
    while memories.len() > 0
        invariant
            memories@ == mems.take(memories@.len() as int),
            memories@.len() + slots@.len() == mems.len(),
            forall|q: int| 0 <= q < slots@.len() ==> #[trigger] slots@[q] == Some(mems[mems.len() - 1 - q]),
        decreases memories@.len(),
    {
        let ghost before = memories@;
        let m = memories.pop().unwrap();
        proof {
            assert(memories@ =~= mems.take(memories@.len() as int));
        }
        slots.push(Some(m));
    }
    let mut out: Vec<PersonaMemory> = Vec::new();
    let mut k: usize = 0;
    while k < order.len()
        invariant
            n == mems.len(),
            slots@.len() == n,
            order@ == recall_order(n as nat, matches@, limit as nat),
            distinct_below(order@, n as nat),
            k <= order.len(),
            out@.len() == k,
            forall|q: int| 0 <= q < k ==> #[trigger] out@[q] == mems[order@[q] as int],
            forall|q: int|
                k <= q < order@.len() ==> slots@[n - 1 - order@[q]] == Some(
                    mems[order@[q] as int],
                ),
        decreases order.len() - k,
    {
        let i: usize = order[k];
        let mut taken: Option<PersonaMemory> = None;
        std::mem::swap(&mut taken, &mut slots[n - 1 - i]);
        match taken {
            Some(m) => {
                out.push(m);
            },
            None => {
                proof {
                    assert(false);
                }
            },
        }
        k += 1;
    }
    out
}

} // verus!
