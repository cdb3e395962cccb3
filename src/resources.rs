use vstd::prelude::*;

verus! {

/// The kinds of resource that stations produce and upgrades cost.
#[derive(Debug, Clone, Copy, PartialEq, Eq, Structural)]
pub enum Resources {
    Research,
    Drones,
    Metals,
    Power,
    Prestige,
}

/// The one-line explanation of each resource.
pub open spec fn description_of(k: Resources) -> Seq<char> {
    match k {
        Resources::Research => "RESEARCH. Scientific data about the Exoplanet."@,
        Resources::Drones => "DRONES. Autonomous workers assigned to gather resources."@,
        Resources::Metals => "METALS. Crafting components for advanced tech."@,
        Resources::Power => "POWER. Energy for amplifying other systems."@,
        Resources::Prestige => "PRESTIGE. Used to upgrade the autonomous probe."@,
    }
}

/// The upper-case name of each resource.
pub open spec fn label_of(k: Resources) -> Seq<char> {
    match k {
        Resources::Research => "RESEARCH"@,
        Resources::Drones => "DRONES"@,
        Resources::Metals => "METALS"@,
        Resources::Power => "POWER"@,
        Resources::Prestige => "PRESTIGE"@,
    }
}

impl Resources {
    /// A one-line explanation of the resource, shown in the resource panel.
    pub fn description(&self) -> (r: String)
        ensures
            r@ == description_of(*self),
    {
        match self {
            Resources::Research => String::from_str("RESEARCH. Scientific data about the Exoplanet."),
            Resources::Drones => String::from_str("DRONES. Autonomous workers assigned to gather resources."),
            Resources::Metals => String::from_str("METALS. Crafting components for advanced tech."),
            Resources::Power => String::from_str("POWER. Energy for amplifying other systems."),
            Resources::Prestige => String::from_str("PRESTIGE. Used to upgrade the autonomous probe."),
        }
    }

    /// The upper-case name of the resource, which is also its icon's name.
    pub fn label(&self) -> (r: String)
        ensures
            r@ == label_of(*self),
    {
        match self {
            Resources::Research => String::from_str("RESEARCH"),
            Resources::Drones => String::from_str("DRONES"),
            Resources::Metals => String::from_str("METALS"),
            Resources::Power => String::from_str("POWER"),
            Resources::Prestige => String::from_str("PRESTIGE"),
        }
    }
}

/// `a + b`, held at `u64::MAX` when it would exceed it.
pub open spec fn sat_add(a: nat, b: nat) -> nat {
    if a + b <= u64::MAX {
        a + b
    } else {
        u64::MAX as nat
    }
}

/// A ledger holds each kind at most once.
pub open spec fn ledger_wf(l: Seq<(Resources, u64)>) -> bool {
    forall|i: int, j: int|
        0 <= i < l.len() && 0 <= j < l.len() && i != j ==> #[trigger] l[i].0 != #[trigger] l[j].0
}

/// Whether the ledger has an entry for `k`.
pub open spec fn has_kind(l: Seq<(Resources, u64)>, k: Resources) -> bool {
    exists|i: int| 0 <= i < l.len() && #[trigger] l[i].0 == k
}

/// The quantity of `k` held in the ledger; an absent kind holds zero.
pub open spec fn amount(l: Seq<(Resources, u64)>, k: Resources) -> nat {
    if has_kind(l, k) {
        l[choose|i: int| 0 <= i < l.len() && #[trigger] l[i].0 == k].1 as nat
    } else {
        0
    }
}

/// The position of kind `k` in a ledger that has it.
pub open spec fn slot(l: Seq<(Resources, u64)>, k: Resources) -> int {
    choose|i: int| 0 <= i < l.len() && #[trigger] l[i].0 == k
}

/// The ledger after collecting `a` of `k`: its entry grows in place (held at the cap),
/// or a new entry is appended.
pub open spec fn collected(l: Seq<(Resources, u64)>, k: Resources, a: u64) -> Seq<(Resources, u64)> {
    if has_kind(l, k) {
        l.update(slot(l, k), (k, sat_add(l[slot(l, k)].1 as nat, a as nat) as u64))
    } else {
        l.push((k, a))
    }
}

/// The ledger after removing `a` of `k`: its entry shrinks in place, or leaves the
/// list when it holds less than `a`; an absent kind changes nothing.
pub open spec fn removed(l: Seq<(Resources, u64)>, k: Resources, a: u64) -> Seq<(Resources, u64)> {
    if !has_kind(l, k) {
        l
    } else if l[slot(l, k)].1 >= a {
        l.update(slot(l, k), (k, (l[slot(l, k)].1 - a) as u64))
    } else {
        l.remove(slot(l, k))
    }
}

/// In a well-formed ledger the slot of a kind is the index that holds it.
proof fn lemma_slot(l: Seq<(Resources, u64)>, i: int)
    requires
        ledger_wf(l),
        0 <= i < l.len(),
    ensures
        slot(l, l[i].0) == i,
{
    assert(l[i].0 == l[i].0);
    let j = slot(l, l[i].0);
    assert(l[j].0 == l[i].0);
}

/// In a well-formed ledger, the entry at `i` gives the amount of its kind.
pub proof fn lemma_amount_at(l: Seq<(Resources, u64)>, i: int)
    requires
        ledger_wf(l),
        0 <= i < l.len(),
    ensures
        has_kind(l, l[i].0),
        amount(l, l[i].0) == l[i].1,
{
    assert(l[i].0 == l[i].0);
}

/// Adds `a` of kind `k`, inserting the entry when absent; the sum saturates at `u64::MAX`.
pub fn ledger_collect(l: &mut Vec<(Resources, u64)>, k: Resources, a: u64)
    requires
        ledger_wf(old(l)@),
    ensures
        ledger_wf(final(l)@),
        amount(final(l)@, k) == sat_add(amount(old(l)@, k), a as nat),
        forall|o: Resources| o != k ==> amount(final(l)@, o) == amount(old(l)@, o),
        forall|o: Resources| has_kind(old(l)@, o) ==> has_kind(final(l)@, o),
        has_kind(final(l)@, k),
        final(l)@ == collected(old(l)@, k, a),
{
    let ghost l0 = l@;
    let n = l.len();
    let mut i: usize = 0;
    while i < n
        invariant
            n == l.len(),
            l@ == l0,
            l0 == old(l)@,
            ledger_wf(l0),
            i <= n,
            forall|j: int| 0 <= j < i ==> l0[j].0 != k,
        decreases n - i,
    {
        if l[i].0 == k {
            let cur = l[i].1;
            let v: u64 = if cur <= u64::MAX - a {
                cur + a
            } else {
                u64::MAX
            };
            l.set(i, (k, v));
            proof {
                lemma_slot(l0, i as int);
                lemma_amount_at(l0, i as int);
                assert(ledger_wf(l@)) by {
                    assert forall|p: int, q: int|
                        0 <= p < l@.len() && 0 <= q < l@.len() && p != q implies #[trigger] l@[p].0
                        != #[trigger] l@[q].0 by {
                        assert(l@[p].0 == l0[p].0);
                        assert(l@[q].0 == l0[q].0);
                    }
                }
                lemma_amount_at(l@, i as int);
                assert forall|o: Resources| o != k implies amount(l@, o) == amount(l0, o) by {
                    if has_kind(l0, o) {
                        let w = choose|j: int| 0 <= j < l0.len() && #[trigger] l0[j].0 == o;
                        lemma_amount_at(l0, w);
                        assert(l@[w] == l0[w]);
                        lemma_amount_at(l@, w);
                    } else {
                        assert forall|j: int| 0 <= j < l@.len() implies #[trigger] l@[j].0 != o by {
                            assert(l@[j].0 == l0[j].0);
                        }
                    }
                }
                assert forall|o: Resources| has_kind(l0, o) implies has_kind(l@, o) by {
                    let w = choose|j: int| 0 <= j < l0.len() && #[trigger] l0[j].0 == o;
                    assert(l@[w].0 == l0[w].0);
                    assert(l@[w].0 == o);
                }
            }
            return;
        }
        i = i + 1;
    }
    l.push((k, a));
    proof {
        assert(!has_kind(l0, k));
        assert(l@ == l0.push((k, a)));
        assert(ledger_wf(l@)) by {
            assert forall|p: int, q: int|
                0 <= p < l@.len() && 0 <= q < l@.len() && p != q implies #[trigger] l@[p].0
                != #[trigger] l@[q].0 by {
                if p < n && q < n {
                    assert(l@[p] == l0[p]);
                    assert(l@[q] == l0[q]);
                }
            }
        }
        lemma_amount_at(l@, n as int);
        assert(!has_kind(l0, k));
        assert forall|o: Resources| o != k implies amount(l@, o) == amount(l0, o) by {
            if has_kind(l0, o) {
                let w = choose|j: int| 0 <= j < l0.len() && #[trigger] l0[j].0 == o;
                lemma_amount_at(l0, w);
                assert(l@[w] == l0[w]);
                lemma_amount_at(l@, w);
            } else {
                assert forall|j: int| 0 <= j < l@.len() implies #[trigger] l@[j].0 != o by {
                    if j < n {
                        assert(l@[j] == l0[j]);
                    }
                }
            }
        }
        assert forall|o: Resources| has_kind(l0, o) implies has_kind(l@, o) by {
            let w = choose|j: int| 0 <= j < l0.len() && #[trigger] l0[j].0 == o;
            assert(l@[w] == l0[w]);
        }
    }
}

/// In a well-formed ledger without an entry for `k`, no index holds `k`.
proof fn lemma_absent(l: Seq<(Resources, u64)>, k: Resources, j: int)
    requires
        !has_kind(l, k),
        0 <= j < l.len(),
    ensures
        l[j].0 != k,
{
}

/// Takes `a` of kind `k` away. A balance smaller than `a` loses its entry,
/// so no quantity ever goes below zero.
pub fn ledger_remove(l: &mut Vec<(Resources, u64)>, k: Resources, a: u64)
    requires
        ledger_wf(old(l)@),
    ensures
        ledger_wf(final(l)@),
        amount(final(l)@, k) == if amount(old(l)@, k) >= a {
            (amount(old(l)@, k) - a) as nat
        } else {
            0
        },
        has_kind(final(l)@, k) == (has_kind(old(l)@, k) && amount(old(l)@, k) >= a),
        forall|o: Resources| o != k ==> amount(final(l)@, o) == amount(old(l)@, o),
        forall|o: Resources| o != k ==> has_kind(final(l)@, o) == has_kind(old(l)@, o),
        final(l)@ == removed(old(l)@, k, a),
{
    let ghost l0 = l@;
    let n = l.len();
    let mut i: usize = 0;
    while i < n
        invariant
            n == l.len(),
            l@ == l0,
            l0 == old(l)@,
            ledger_wf(l0),
            i <= n,
            forall|j: int| 0 <= j < i ==> l0[j].0 != k,
        decreases n - i,
    {
        if l[i].0 == k {
            proof {
                lemma_amount_at(l0, i as int);
                lemma_slot(l0, i as int);
            }
            let cur = l[i].1;
            if cur >= a {
                l.set(i, (k, cur - a));
                proof {
                    assert forall|p: int, q: int|
                        0 <= p < l@.len() && 0 <= q < l@.len() && p != q implies #[trigger] l@[p].0
                        != #[trigger] l@[q].0 by {
                        assert(l@[p].0 == l0[p].0);
                        assert(l@[q].0 == l0[q].0);
                    }
                    lemma_amount_at(l@, i as int);
                    assert forall|o: Resources| o != k implies amount(l@, o) == amount(l0, o)
                        && has_kind(l@, o) == has_kind(l0, o) by {
                        if has_kind(l0, o) {
                            let w = choose|j: int| 0 <= j < l0.len() && #[trigger] l0[j].0 == o;
                            lemma_amount_at(l0, w);
                            assert(l@[w] == l0[w]);
                            lemma_amount_at(l@, w);
                        } else {
                            assert forall|j: int| 0 <= j < l@.len() implies #[trigger] l@[j].0
                                != o by {
                                assert(l@[j].0 == l0[j].0);
                                lemma_absent(l0, o, j);
                            }
                        }
                    }
                }
            } else {
                l.remove(i);
                proof {
                    let r = l@;
                    assert(r == l0.remove(i as int));
                    assert forall|j: int| 0 <= j < r.len() implies #[trigger] r[j] == if j < i {
                        l0[j]
                    } else {
                        l0[j + 1]
                    } by {}
                    assert forall|p: int, q: int|
                        0 <= p < r.len() && 0 <= q < r.len() && p != q implies #[trigger] r[p].0
                        != #[trigger] r[q].0 by {
                        let pp = if p < i { p } else { p + 1 };
                        let qq = if q < i { q } else { q + 1 };
                        assert(r[p] == l0[pp]);
                        assert(r[q] == l0[qq]);
                    }
                    assert forall|j: int| 0 <= j < r.len() implies #[trigger] r[j].0 != k by {
                        let jj = if j < i { j } else { j + 1 };
                        assert(r[j] == l0[jj]);
                    }
                    assert forall|o: Resources| o != k implies amount(r, o) == amount(l0, o)
                        && has_kind(r, o) == has_kind(l0, o) by {
                        if has_kind(l0, o) {
                            let w = choose|j: int| 0 <= j < l0.len() && #[trigger] l0[j].0 == o;
                            lemma_amount_at(l0, w);
                            let ww = if w < i { w } else { w - 1 };
                            assert(r[ww] == l0[w]);
                            lemma_amount_at(r, ww);
                        } else {
                            assert forall|j: int| 0 <= j < r.len() implies #[trigger] r[j].0
                                != o by {
                                let jj = if j < i { j } else { j + 1 };
                                assert(r[j] == l0[jj]);
                                lemma_absent(l0, o, jj);
                            }
                        }
                    }
                }
            }
            return;
        }
        i = i + 1;
    }
    proof {
        assert(!has_kind(l0, k));
    }
}

/// The quantity of `k` held in the ledger.
pub fn ledger_amount(l: &Vec<(Resources, u64)>, k: Resources) -> (r: u64)
    requires
        ledger_wf(l@),
    ensures
        r == amount(l@, k),
{
    let n = l.len();
    let mut i: usize = 0;
    while i < n
        invariant
            n == l.len(),
            ledger_wf(l@),
            i <= n,
            forall|j: int| 0 <= j < i ==> l@[j].0 != k,
        decreases n - i,
    {
        if l[i].0 == k {
            proof {
                lemma_amount_at(l@, i as int);
            }
            return l[i].1;
        }
        i = i + 1;
    }
    0
}

/// The ledger holds every entry of `cost`: each kind is present with at least the amount asked.
pub open spec fn covers(l: Seq<(Resources, u64)>, cost: Seq<(Resources, u64)>) -> bool {
    forall|t: int|
        0 <= t < cost.len() ==> has_kind(l, #[trigger] cost[t].0) && amount(l, cost[t].0)
            >= cost[t].1
}

/// Whether the ledger can pay `cost` in full.
pub fn ledger_covers(l: &Vec<(Resources, u64)>, cost: &Vec<(Resources, u64)>) -> (r: bool)
    requires
        ledger_wf(l@),
    ensures
        r == covers(l@, cost@),
{
    let n = cost.len();
    let mut t: usize = 0;
    while t < n
        invariant
            n == cost.len(),
            ledger_wf(l@),
            t <= n,
            forall|u: int|
                0 <= u < t ==> has_kind(l@, #[trigger] cost@[u].0) && amount(l@, cost@[u].0)
                    >= cost@[u].1,
        decreases n - t,
    {
        let (k, a) = cost[t];
        let m = find_entry(l, k);
        if m.is_none() {
            return false;
        }
        let held = ledger_amount(l, k);
        if held < a {
            return false;
        }
        t = t + 1;
    }
    true
}

/// Whether the ledger has an entry for `k`.
fn find_entry(l: &Vec<(Resources, u64)>, k: Resources) -> (r: Option<usize>)
    requires
        ledger_wf(l@),
    ensures
        r.is_some() == has_kind(l@, k),
        r.is_some() ==> r.unwrap() < l@.len() && l@[r.unwrap() as int].0 == k,
{
    let n = l.len();
    let mut i: usize = 0;
    while i < n
        invariant
            n == l.len(),
            i <= n,
            forall|j: int| 0 <= j < i ==> l@[j].0 != k,
        decreases n - i,
    {
        if l[i].0 == k {
            return Some(i);
        }
        i = i + 1;
    }
    proof {
        if has_kind(l@, k) {
            let w = choose|j: int| 0 <= j < l@.len() && #[trigger] l@[j].0 == k;
            assert(l@[w].0 == k);
        }
    }
    None
}

/// Pays `cost` out of a ledger that covers it: each kind drops by its cost, and
/// every entry stays in place.
pub fn ledger_spend(l: &mut Vec<(Resources, u64)>, cost: &Vec<(Resources, u64)>)
    requires
        ledger_wf(old(l)@),
        ledger_wf(cost@),
        covers(old(l)@, cost@),
    ensures
        ledger_wf(final(l)@),
        forall|k: Resources| #[trigger]
            amount(final(l)@, k) == amount(old(l)@, k) - amount(cost@, k),
        forall|k: Resources| #[trigger] has_kind(final(l)@, k) == has_kind(old(l)@, k),
{
    let ghost l0 = l@;
    let n = cost.len();
    let mut t: usize = 0;
    while t < n
        invariant
            n == cost.len(),
            l0 == old(l)@,
            ledger_wf(l@),
            ledger_wf(l0),
            ledger_wf(cost@),
            covers(l0, cost@),
            t <= n,
            forall|k: Resources| #[trigger]
                amount(l@, k) == if exists|u: int| 0 <= u < t && #[trigger] cost@[u].0 == k {
                    amount(l0, k) - amount(cost@, k)
                } else {
                    amount(l0, k) as int
                },
            forall|k: Resources| #[trigger] has_kind(l@, k) == has_kind(l0, k),
        decreases n - t,
    {
        let (k, a) = cost[t];
        proof {
            lemma_amount_at(cost@, t as int);
            assert(has_kind(l0, cost@[t as int].0));
            assert forall|u: int| 0 <= u < t implies #[trigger] cost@[u].0 != k by {}
            assert(!(exists|u: int| 0 <= u < t && #[trigger] cost@[u].0 == k));
        }
        ledger_remove(l, k, a);
        proof {
            assert forall|o: Resources| #[trigger]
                amount(l@, o) == if exists|u: int| 0 <= u < t + 1 && #[trigger] cost@[u].0 == o {
                    amount(l0, o) - amount(cost@, o)
                } else {
                    amount(l0, o) as int
                } by {
                if o == k {
                    assert(cost@[t as int].0 == o);
                } else {
                    if exists|u: int| 0 <= u < t + 1 && #[trigger] cost@[u].0 == o {
                        let u = choose|u: int| 0 <= u < t + 1 && #[trigger] cost@[u].0 == o;
                        assert(u < t);
                    } else {
                        assert(!exists|u: int| 0 <= u < t && #[trigger] cost@[u].0 == o);
                    }
                }
            }
        }
        t = t + 1;
    }
    proof {
        assert forall|k: Resources| #[trigger]
            amount(l@, k) == amount(l0, k) - amount(cost@, k) by {
            if !(exists|u: int| 0 <= u < n && #[trigger] cost@[u].0 == k) {
                assert(!has_kind(cost@, k));
            }
        }
    }
}

/// Whether the ledger holds each kind at most once.
pub fn ledger_is_wf(l: &Vec<(Resources, u64)>) -> (r: bool)
    ensures
        r == ledger_wf(l@),
{
    let n = l.len();
    let mut i: usize = 0;
    while i < n
        invariant
            n == l@.len(),
            i <= n,
            forall|p: int, q: int| 0 <= p < i && 0 <= q < n && p != q ==> #[trigger] l@[p].0 != #[trigger] l@[q].0,
        decreases n - i,
    {
        let mut j: usize = 0;
        while j < n
            invariant
                n == l@.len(),
                i < n,
                j <= n,
                forall|p: int, q: int| 0 <= p < i && 0 <= q < n && p != q ==> #[trigger] l@[p].0 != #[trigger] l@[q].0,
                forall|q: int| 0 <= q < j && q != i ==> l@[i as int].0 != #[trigger] l@[q].0,
            decreases n - j,
        {
            if j != i && l[i].0 == l[j].0 {
                return false;
            }
            j = j + 1;
        }
        i = i + 1;
    }
    true
}

} // verus!
