//! Ordered association tables keyed by 16-bit slot identifiers.
//!
//! Every slot table of a schema is a vector of `(id, value)` pairs whose keys
//! grow strictly, so each id occurs at most once and the canonical form of a
//! schema does not depend on construction order.

use vstd::prelude::*;

verus! {

/// Keys appear in strictly increasing order, hence each key at most once.
pub open spec fn keys_sorted<V>(s: Seq<(u16, V)>) -> bool {
    forall|i: int, j: int| 0 <= i < j < s.len() ==> s[i].0 < s[j].0
}

/// Some entry carries the key `k`.
pub open spec fn map_contains_key<V>(s: Seq<(u16, V)>, k: u16) -> bool {
    exists|i: int| 0 <= i < s.len() && s[i].0 == k
}

/// The value stored under `k`, if any (the first match; under `keys_sorted`
/// there is at most one).
pub open spec fn map_get<V>(s: Seq<(u16, V)>, k: u16) -> Option<V>
    decreases s.len(),
{
    if s.len() == 0 {
        None
    } else if s[0].0 == k {
        Some(s[0].1)
    } else {
        map_get(s.drop_first(), k)
    }
}

proof fn lemma_sorted_pair<V>(s: Seq<(u16, V)>, i: int, j: int)
    requires
        forall|p: int| 0 < p < s.len() ==> s[p - 1].0 < (#[trigger] s[p]).0,
        0 <= i < j < s.len(),
    ensures
        s[i].0 < s[j].0,
    decreases j - i,
{
    if i + 1 < j {
        lemma_sorted_pair(s, i, j - 1);
    }
    assert(s[j - 1].0 < s[j].0);
}

/// Pairwise order follows from order between neighbours.
pub proof fn lemma_adjacent_sorted<V>(s: Seq<(u16, V)>)
    requires
        forall|p: int| 0 < p < s.len() ==> s[p - 1].0 < (#[trigger] s[p]).0,
    ensures
        keys_sorted(s),
{
    assert forall|i: int, j: int| 0 <= i < j < s.len() implies s[i].0 < s[j].0 by {
        lemma_sorted_pair(s, i, j);
    }
}

/// Exec check of `keys_sorted`.
pub fn check_keys_sorted<V>(m: &Vec<(u16, V)>) -> (r: bool)
    ensures
        r == keys_sorted(m@),
{
    let n = m.len();
    let mut i: usize = 1;
    while i < n
        invariant
            1 <= i,
            n == m@.len(),
            forall|p: int| 0 < p < i ==> m@[p - 1].0 < (#[trigger] m@[p]).0,
        decreases n - i,
    {
        if m[i - 1].0 >= m[i].0 {
            assert(!keys_sorted(m@));
            return false;
        }
        i += 1;
    }
    proof {
        lemma_adjacent_sorted(m@);
    }
    true
}

/// Exec check of `map_contains_key`.
pub fn map_contains<V>(m: &Vec<(u16, V)>, k: u16) -> (r: bool)
    ensures
        r == map_contains_key(m@, k),
{
    let n = m.len();
    let mut i: usize = 0;
    while i < n
        invariant
            i <= n,
            n == m@.len(),
            forall|p: int| 0 <= p < i ==> m@[p].0 != k,
        decreases n - i,
    {
        if m[i].0 == k {
            return true;
        }
        i += 1;
    }
    false
}

/// Every key of `rule` is declared in `slots`.
pub open spec fn rule_keys_within<A, B>(rule: Seq<(u16, A)>, slots: Seq<(u16, B)>) -> bool {
    forall|i: int| 0 <= i < rule.len() ==> #[trigger] map_contains_key(slots, rule[i].0)
}

/// Exec check of `rule_keys_within`.
pub fn check_rule_keys_within<A, B>(rule: &Vec<(u16, A)>, slots: &Vec<(u16, B)>) -> (r: bool)
    ensures
        r == rule_keys_within(rule@, slots@),
{
    let n = rule.len();
    let mut i: usize = 0;
    while i < n
        invariant
            i <= n,
            n == rule@.len(),
            forall|p: int| 0 <= p < i ==> #[trigger] map_contains_key(slots@, rule@[p].0),
        decreases n - i,
    {
        if !map_contains(slots, rule[i].0) {
            assert(!map_contains_key(slots@, rule@[i as int].0));
            return false;
        }
        i += 1;
    }
    true
}

/// Two tables with the same keys in the same places agree on order and
/// membership, whatever their values.
pub proof fn lemma_same_keys<V, W>(s: Seq<(u16, V)>, t: Seq<(u16, W)>)
    requires
        s.len() == t.len(),
        forall|i: int| 0 <= i < s.len() ==> (#[trigger] t[i]).0 == s[i].0,
    ensures
        keys_sorted(t) == keys_sorted(s),
        forall|k: u16| map_contains_key(t, k) == map_contains_key(s, k),
{
    if keys_sorted(s) {
        assert forall|i: int, j: int| 0 <= i < j < t.len() implies t[i].0 < t[j].0 by {
            assert(s[i].0 < s[j].0);
        }
    }
    if keys_sorted(t) {
        assert forall|i: int, j: int| 0 <= i < j < s.len() implies s[i].0 < s[j].0 by {
            assert(t[i].0 < t[j].0);
        }
    }
    assert forall|k: u16| map_contains_key(t, k) == map_contains_key(s, k) by {
        if map_contains_key(s, k) {
            let i = choose|i: int| 0 <= i < s.len() && s[i].0 == k;
            assert(t[i].0 == k);
        }
        if map_contains_key(t, k) {
            let i = choose|i: int| 0 <= i < t.len() && t[i].0 == k;
            assert(s[i].0 == k);
        }
    }
}

/// Two rules with the same keys in the same places make the same demands on
/// a slot table.
pub proof fn lemma_same_rule_keys<A, B, C>(
    r1: Seq<(u16, A)>,
    r2: Seq<(u16, B)>,
    slots: Seq<(u16, C)>,
)
    requires
        r1.len() == r2.len(),
        forall|i: int| 0 <= i < r1.len() ==> (#[trigger] r2[i]).0 == r1[i].0,
    ensures
        rule_keys_within(r1, slots) == rule_keys_within(r2, slots),
{
    if rule_keys_within(r1, slots) {
        assert forall|i: int| 0 <= i < r2.len() implies #[trigger] map_contains_key(
            slots,
            r2[i].0,
        ) by {
            assert(map_contains_key(slots, r1[i].0));
        }
    }
    if rule_keys_within(r2, slots) {
        assert forall|i: int| 0 <= i < r1.len() implies #[trigger] map_contains_key(
            slots,
            r1[i].0,
        ) by {
            assert(map_contains_key(slots, r2[i].0));
        }
    }
}

/// Two slot tables declaring the same keys satisfy the same rules.
pub proof fn lemma_same_slot_tables<A, V, W>(
    rule: Seq<(u16, A)>,
    t1: Seq<(u16, V)>,
    t2: Seq<(u16, W)>,
)
    requires
        forall|k: u16| #[trigger] map_contains_key(t1, k) == map_contains_key(t2, k),
    ensures
        rule_keys_within(rule, t1) == rule_keys_within(rule, t2),
{
    if rule_keys_within(rule, t1) {
        assert forall|i: int| 0 <= i < rule.len() implies #[trigger] map_contains_key(
            t2,
            rule[i].0,
        ) by {
            assert(map_contains_key(t1, rule[i].0));
        }
    }
    if rule_keys_within(rule, t2) {
        assert forall|i: int| 0 <= i < rule.len() implies #[trigger] map_contains_key(
            t1,
            rule[i].0,
        ) by {
            assert(map_contains_key(t2, rule[i].0));
        }
    }
}

/// Exec lookup mirroring `map_get`, for copyable values.
pub fn map_get_copied<V: Copy>(m: &Vec<(u16, V)>, k: u16) -> (r: Option<V>)
    ensures
        r == map_get(m@, k),
{
    let n = m.len();
    let mut i: usize = 0;
    assert(m@.skip(0) =~= m@);
    while i < n
        invariant
            i <= n,
            n == m@.len(),
            map_get(m@, k) == map_get(m@.skip(i as int), k),
        decreases n - i,
    {
        proof {
            assert(m@.skip(i as int)[0] == m@[i as int]);
            assert(m@.skip(i as int).drop_first() =~= m@.skip(i as int + 1));
        }
        if m[i].0 == k {
            return Some(m[i].1);
        }
        i += 1;
    }
    assert(m@.skip(n as int) =~= Seq::<(u16, V)>::empty());
    None
}

} // verus!
