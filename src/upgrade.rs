use vstd::prelude::*;
use crate::resources::{
    ledger_is_wf,
    Resources,
    ledger_wf,
    covers,
    amount,
    has_kind,
    ledger_covers,
    ledger_spend,
};
use crate::cost::{CostFormula, scaled_list};

verus! {

/// What buying an upgrade does to the station (or the probe) that offers it.
#[derive(Debug, Clone, Copy, PartialEq, Eq, Structural)]
pub enum Effect {
    /// Raises the exoplanet's manual scanner level.
    Scanner,
    /// Builds the station.
    Construct,
    /// Builds the drone depot's fabricator.
    ConstructFabricator,
    /// Assigns one more drone to the station.
    Deploy,
    /// Raises the level of the station's drones.
    DroneLevel,
    /// Raises the speed of the station's drones.
    DroneSpeed,
    /// Grants the player one drone.
    DroneShipment,
    /// Opens the jumpgate.
    Jump,
    /// An upgrade of the player's probe.
    Probe,
}

/// Returned when the ledger cannot pay for an upgrade, or it is already at its top level.
#[derive(Debug, Clone, Copy, PartialEq, Eq, Structural)]
pub struct InsufficientResources {}

/// A purchasable unlock with a price per level.
#[derive(Debug)]
pub struct Upgrade {
    pub name: String,
    pub description: String,
    /// The price at the current level.
    pub cost: Vec<(Resources, u64)>,
    /// Indices, in the owner's template list, of the upgrades that the first purchase offers.
    pub unlocks: Vec<usize>,
    pub level: u32,
    pub max_level: u32,
    pub display_lvl: bool,
    /// Whether the ledger last shown to `update` could pay for it.
    pub buyable: bool,
    /// The price at level zero.
    pub base_cost: Vec<(Resources, u64)>,
    pub cost_formula: CostFormula,
    pub effect: Effect,
}

/// The mathematical content of an upgrade.
pub struct UpgradeView {
    pub name: Seq<char>,
    pub description: Seq<char>,
    pub cost: Seq<(Resources, u64)>,
    pub unlocks: Seq<usize>,
    pub level: u32,
    pub max_level: u32,
    pub display_lvl: bool,
    pub buyable: bool,
    pub base_cost: Seq<(Resources, u64)>,
    pub cost_formula: CostFormula,
    pub effect: Effect,
}

impl View for Upgrade {
    type V = UpgradeView;

    open spec fn view(&self) -> UpgradeView {
        UpgradeView {
            name: self.name@,
            description: self.description@,
            cost: self.cost@,
            unlocks: self.unlocks@,
            level: self.level,
            max_level: self.max_level,
            display_lvl: self.display_lvl,
            buyable: self.buyable,
            base_cost: self.base_cost@,
            cost_formula: self.cost_formula,
            effect: self.effect,
        }
    }
}

/// An upgrade is well formed when its level is in range, its price lists hold each
/// kind once, and below the top level its price is the base price scaled to the level.
pub open spec fn upgrade_wf(u: UpgradeView) -> bool {
    &&& u.level <= u.max_level
    &&& ledger_wf(u.base_cost)
    &&& ledger_wf(u.cost)
    &&& u.level < u.max_level ==> u.cost == scaled_list(u.cost_formula, u.base_cost, u.level as nat)
}

/// Every upgrade of the list is well formed.
pub open spec fn all_wf(l: Seq<UpgradeView>) -> bool {
    forall|i: int| 0 <= i < l.len() ==> upgrade_wf(#[trigger] l[i])
}

/// The views of a list of upgrades.
pub open spec fn views(l: Seq<Upgrade>) -> Seq<UpgradeView> {
    l.map_values(|u: Upgrade| u@)
}

/// Purchasable: below the top level, and the ledger covers the price.
pub open spec fn purchasable(u: UpgradeView, ledger: Seq<(Resources, u64)>) -> bool {
    u.level < u.max_level && covers(ledger, u.cost)
}

/// The upgrade after one more level: held at the top level (no longer buyable), or
/// repriced for the new level.
pub open spec fn level_up(u: UpgradeView) -> UpgradeView {
    if u.level as int + 1 >= u.max_level {
        UpgradeView { level: u.max_level, buyable: false, ..u }
    } else {
        UpgradeView {
            level: (u.level + 1) as u32,
            cost: scaled_list(u.cost_formula, u.base_cost, (u.level + 1) as nat),
            ..u
        }
    }
}

/// Whether one more level reaches the top.
pub open spec fn maxes_out(u: UpgradeView) -> bool {
    u.level as int + 1 >= u.max_level
}

/// The templates that `unlocks` names, in order; indices past the list name nothing.
pub open spec fn fan_out(unlocks: Seq<usize>, templates: Seq<UpgradeView>) -> Seq<UpgradeView>
    decreases unlocks.len(),
{
    if unlocks.len() == 0 {
        Seq::empty()
    } else {
        let rest = fan_out(unlocks.drop_last(), templates);
        let k = unlocks.last();
        if k < templates.len() {
            rest.push(templates[k as int])
        } else {
            rest
        }
    }
}

/// The offer list after buying entry `i`: the entry gains a level and forgets its unlocks,
/// the unlocked templates are appended, and an entry that reached its top level leaves.
pub open spec fn after_purchase(l: Seq<UpgradeView>, i: int, templates: Seq<UpgradeView>) -> Seq<
    UpgradeView,
> {
    let u = l[i];
    let grown = l.update(i, UpgradeView { unlocks: Seq::empty(), ..level_up(u) }) + fan_out(
        u.unlocks,
        templates,
    );
    if maxes_out(u) {
        grown.remove(i)
    } else {
        grown
    }
}

proof fn lemma_scaled_list_wf(f: CostFormula, base: Seq<(Resources, u64)>, n: nat)
    requires
        ledger_wf(base),
    ensures
        ledger_wf(scaled_list(f, base, n)),
{
    let s = scaled_list(f, base, n);
    assert forall|i: int, j: int|
        0 <= i < s.len() && 0 <= j < s.len() && i != j implies #[trigger] s[i].0 != #[trigger] s[j].0 by {
        assert(s[i].0 == base[i].0);
        assert(s[j].0 == base[j].0);
    }
}

proof fn lemma_level_up_wf(u: UpgradeView)
    requires
        upgrade_wf(u),
    ensures
        upgrade_wf(level_up(u)),
{
    lemma_scaled_list_wf(u.cost_formula, u.base_cost, (u.level + 1) as nat);
}

/// A copy of a price list.
fn copy_pairs(v: &Vec<(Resources, u64)>) -> (r: Vec<(Resources, u64)>)
    ensures
        r@ == v@,
{
    let mut out: Vec<(Resources, u64)> = Vec::new();
    let n = v.len();
    let mut i: usize = 0;
    while i < n
        invariant
            n == v@.len(),
            i <= n,
            out@ =~= v@.subrange(0, i as int),
        decreases n - i,
    {
        out.push(v[i]);
        i = i + 1;
    }
    assert(out@ =~= v@);
    out
}

/// A copy of an index list.
fn copy_indices(v: &Vec<usize>) -> (r: Vec<usize>)
    ensures
        r@ == v@,
{
    let mut out: Vec<usize> = Vec::new();
    let n = v.len();
    let mut i: usize = 0;
    while i < n
        invariant
            n == v@.len(),
            i <= n,
            out@ =~= v@.subrange(0, i as int),
        decreases n - i,
    {
        out.push(v[i]);
        i = i + 1;
    }
    assert(out@ =~= v@);
    out
}

impl Upgrade {
    /// An upgrade at level zero, priced at `base_cost`.
    pub fn create(
        name: &str,
        description: &str,
        base_cost: Vec<(Resources, u64)>,
        cost_formula: CostFormula,
        max_level: u32,
        unlocks: Vec<usize>,
        effect: Effect,
    ) -> (r: Upgrade)
        requires
            ledger_wf(base_cost@),
        ensures
            upgrade_wf(r@),
            r@.name == name@,
            r@.level == 0,
            r@.max_level == max_level,
            r@.base_cost == base_cost@,
            r@.cost == scaled_list(cost_formula, base_cost@, 0),
            r@.unlocks == unlocks@,
            r@.cost_formula == cost_formula,
            r@.effect == effect,
    {
        let base = copy_pairs(&base_cost);
        let cost = cost_formula.calculate_cost(base, 0);
        proof {
            lemma_scaled_list_wf(cost_formula, base_cost@, 0);
        }
        Upgrade {
            name: String::from_str(name),
            description: String::from_str(description),
            cost,
            unlocks,
            level: 0,
            max_level,
            display_lvl: max_level > 1,
            buyable: false,
            base_cost,
            cost_formula,
            effect,
        }
    }

    /// A copy with the same content.
    pub fn duplicate(&self) -> (r: Upgrade)
        ensures
            r@ == self@,
    {
        Upgrade {
            name: self.name.clone(),
            description: self.description.clone(),
            cost: copy_pairs(&self.cost),
            unlocks: copy_indices(&self.unlocks),
            level: self.level,
            max_level: self.max_level,
            display_lvl: self.display_lvl,
            buyable: self.buyable,
            base_cost: copy_pairs(&self.base_cost),
            cost_formula: self.cost_formula,
            effect: self.effect,
        }
    }

    /// Whether the upgrade can be bought from `resources` now.
    pub fn purchasable(&self, resources: &Vec<(Resources, u64)>) -> (r: bool)
        requires
            ledger_wf(resources@),
        ensures
            r == purchasable(self@, resources@),
    {
        self.level < self.max_level && ledger_covers(resources, &self.cost)
    }

    /// Records in `buyable` whether `resources` can pay for the upgrade now.
    pub fn update(&mut self, resources: &Vec<(Resources, u64)>)
        requires
            ledger_wf(resources@),
        ensures
            final(self)@ == (UpgradeView { buyable: purchasable(old(self)@, resources@), ..old(self)@ }),
    {
        self.buyable = self.purchasable(resources);
    }

    /// Whether a press on the buy button buys the upgrade: only when it is buyable
    /// and the pointer was just pressed over the button.
    pub fn on_click(&self, over_button: bool, just_pressed: bool) -> (r: bool)
        ensures
            r == (self.buyable && over_button && just_pressed),
    {
        self.buyable && over_button && just_pressed
    }

    /// Advances one level. Returns true when the top level is reached (the owner then
    /// drops the upgrade); otherwise the price is recomputed for the new level.
    pub fn next_level(&mut self) -> (maxed: bool)
        requires
            upgrade_wf(old(self)@),
        ensures
            final(self)@ == level_up(old(self)@),
            maxed == maxes_out(old(self)@),
            maxed ==> !final(self).buyable,
            upgrade_wf(final(self)@),
    {
        proof {
            lemma_level_up_wf(self@);
        }
        if self.level >= self.max_level || self.level + 1 >= self.max_level {
            self.level = self.max_level;
            self.buyable = false;
            return true;
        }
        self.level = self.level + 1;
        let base = copy_pairs(&self.base_cost);
        self.cost = self.cost_formula.calculate_cost(base, self.level);
        false
    }
}

impl Upgrade {
    /// Appends a copy of template `index` to an offer list; an index past the templates
    /// adds nothing.
    pub fn add_upgrade(list: &mut Vec<Upgrade>, templates: &Vec<Upgrade>, index: usize)
        requires
            all_wf(views(old(list)@)),
            all_wf(views(templates@)),
        ensures
            all_wf(views(final(list)@)),
            index < templates@.len() ==> views(final(list)@) == views(old(list)@).push(templates@[index as int]@),
            index >= templates@.len() ==> final(list)@ == old(list)@,
    {
        if index < templates.len() {
            let u = templates[index].duplicate();
            proof {
                assert(views(templates@)[index as int] == templates@[index as int]@);
            }
            let ghost before = list@;
            list.push(u);
            proof {
                assert(views(list@) =~= views(before).push(u@));
            }
        }
    }

    /// Buys one level: pays the current price out of `ledger`, then advances.
    /// Returns whether the top level was reached, or an error (and no change at all)
    /// when the upgrade is not purchasable.
    pub fn purchase(&mut self, ledger: &mut Vec<(Resources, u64)>) -> (r: Result<
        bool,
        InsufficientResources,
    >)
        requires
            upgrade_wf(old(self)@),
            ledger_wf(old(ledger)@),
        ensures
            r.is_ok() == purchasable(old(self)@, old(ledger)@),
            ledger_wf(final(ledger)@),
            upgrade_wf(final(self)@),
            r.is_err() ==> final(self)@ == old(self)@ && final(ledger)@ == old(ledger)@,
            r.is_ok() ==> final(self)@ == level_up(old(self)@) && r.unwrap() == maxes_out(
                old(self)@,
            ),
            r.is_ok() ==> forall|k: Resources| #[trigger]
                amount(final(ledger)@, k) == amount(old(ledger)@, k) - amount(old(self)@.cost, k),
    {
        if !self.purchasable(ledger) {
            return Err(InsufficientResources {  });
        }
        ledger_spend(ledger, &self.cost);
        let maxed = self.next_level();
        Ok(maxed)
    }
}

proof fn lemma_views_push(l: Seq<Upgrade>, u: Upgrade)
    ensures
        views(l.push(u)) == views(l).push(u@),
{
    assert(views(l.push(u)) =~= views(l).push(u@));
}

/// Takes entry `index` of an offer list when `ledger` can pay for it (the price is paid
/// by the player, see `Player::upgrade`). On success the entry advances a level, the
/// templates it unlocks are appended once (its unlocks are then cleared), and an entry
/// that reached its top level is dropped; the entry as it was before the purchase is
/// returned, with the price to pay. Otherwise nothing changes and `None` comes back.
pub fn purchase_from_list(
    list: &mut Vec<Upgrade>,
    index: usize,
    ledger: &Vec<(Resources, u64)>,
    templates: &Vec<Upgrade>,
) -> (r: Option<Upgrade>)
    requires
        all_wf(views(old(list)@)),
        all_wf(views(templates@)),
        ledger_wf(ledger@),
    ensures
        r.is_some() == (index < old(list)@.len() && purchasable(old(list)@[index as int]@, ledger@)),
        all_wf(views(final(list)@)),
        r.is_none() ==> final(list)@ == old(list)@,
        r.is_some() ==> r.unwrap()@ == old(list)@[index as int]@ && upgrade_wf(r.unwrap()@),
        r.is_some() ==> views(final(list)@) == after_purchase(
            views(old(list)@),
            index as int,
            views(templates@),
        ),
{
    if index >= list.len() {
        return None;
    }
    if !list[index].purchasable(ledger) {
        return None;
    }
    let ghost l0 = views(list@);
    let ghost t0 = views(templates@);
    let bought = list[index].duplicate();
    assert(l0[index as int] == bought@);
    assert(upgrade_wf(bought@));
    let mut u = list[index].duplicate();
    let maxed = u.next_level();
    u.unlocks = Vec::new();
    list.set(index, u);
    let ghost grown0 = views(list@);
    assert(grown0 =~= l0.update(
        index as int,
        UpgradeView { unlocks: Seq::empty(), ..level_up(bought@) },
    ));
    proof {
        lemma_level_up_wf(bought@);
        assert forall|i: int| 0 <= i < grown0.len() implies upgrade_wf(#[trigger] grown0[i]) by {
            if i != index {
                assert(grown0[i] == l0[i]);
            }
        }
    }
    let n = bought.unlocks.len();
    let mut j: usize = 0;
    assert(bought.unlocks@.subrange(0, 0) =~= Seq::<usize>::empty());
    assert(grown0 + fan_out(Seq::<usize>::empty(), t0) =~= grown0);
    while j < n
        invariant
            n == bought.unlocks@.len(),
            j <= n,
            t0 == views(templates@),
            all_wf(t0),
            all_wf(grown0),
            views(list@) == grown0 + fan_out(bought.unlocks@.subrange(0, j as int), t0),
            index < grown0.len(),
        decreases n - j,
    {
        let k = bought.unlocks[j];
        let ghost before = bought.unlocks@.subrange(0, j as int);
        let ghost after = bought.unlocks@.subrange(0, j as int + 1);
        assert(after.drop_last() =~= before);
        assert(after.last() == k);
        if k < templates.len() {
            let t = templates[k].duplicate();
            proof {
                lemma_views_push(list@, t);
                assert(t0[k as int] == t@);
            }
            list.push(t);
            assert(views(list@) =~= grown0 + fan_out(after, t0));
        } else {
            assert(fan_out(after, t0) == fan_out(before, t0));
        }
        j = j + 1;
    }
    assert(bought.unlocks@.subrange(0, n as int) =~= bought.unlocks@);
    proof {
        let full = views(list@);
        let f = fan_out(bought.unlocks@, t0);
        lemma_fan_out_wf(bought.unlocks@, t0);
        assert forall|i: int| 0 <= i < full.len() implies upgrade_wf(#[trigger] full[i]) by {
            if i < grown0.len() {
                assert(full[i] == grown0[i]);
            } else {
                assert(full[i] == f[i - grown0.len()]);
            }
        }
    }
    if maxed {
        let ghost before_removal = views(list@);
        list.remove(index);
        assert(views(list@) =~= before_removal.remove(index as int));
        proof {
            let full = views(list@);
            assert forall|i: int| 0 <= i < full.len() implies upgrade_wf(#[trigger] full[i]) by {
                if i < index {
                    assert(full[i] == before_removal[i]);
                } else {
                    assert(full[i] == before_removal[i + 1]);
                }
            }
        }
    }
    Some(bought)
}

proof fn lemma_fan_out_wf(unlocks: Seq<usize>, templates: Seq<UpgradeView>)
    requires
        all_wf(templates),
    ensures
        all_wf(fan_out(unlocks, templates)),
    decreases unlocks.len(),
{
    if unlocks.len() > 0 {
        lemma_fan_out_wf(unlocks.drop_last(), templates);
    }
}

/// The upgrade after `k` more levels.
pub open spec fn level_up_n(u: UpgradeView, k: nat) -> UpgradeView
    decreases k,
{
    if k == 0 {
        u
    } else {
        level_up(level_up_n(u, (k - 1) as nat))
    }
}

proof fn lemma_level_up_n_level(u: UpgradeView, k: nat)
    requires
        u.level <= u.max_level,
    ensures
        level_up_n(u, k).level == if u.level + k <= u.max_level {
            (u.level + k) as u32
        } else {
            u.max_level
        },
        level_up_n(u, k).max_level == u.max_level,
    decreases k,
{
    if k > 0 {
        lemma_level_up_n_level(u, (k - 1) as nat);
    }
}

/// Buying a fresh upgrade `max_level` times brings it to its top level, where it is no
/// longer purchasable from any ledger; a further `purchase` then fails and leaves the
/// ledger as it was.
pub proof fn lemma_purchases_reach_max(u: UpgradeView, ledger: Seq<(Resources, u64)>)
    requires
        u.level == 0,
    ensures
        level_up_n(u, u.max_level as nat).level == u.max_level,
        !purchasable(level_up_n(u, u.max_level as nat), ledger),
{
    lemma_level_up_n_level(u, u.max_level as nat);
}

/// Buying an entry whose unlocks name one template `k` appends exactly that template
/// and clears the entry's unlocks, so buying the same entry again appends nothing.
pub proof fn lemma_fan_out_once(l: Seq<UpgradeView>, i: int, templates: Seq<UpgradeView>, k: usize)
    requires
        0 <= i < l.len(),
        l[i].unlocks == seq![k],
        k < templates.len(),
        !maxes_out(l[i]),
    ensures
        after_purchase(l, i, templates).len() == l.len() + 1,
        after_purchase(l, i, templates).last() == templates[k as int],
        after_purchase(l, i, templates)[i].unlocks.len() == 0,
        after_purchase(after_purchase(l, i, templates), i, templates).len() == if maxes_out(
            after_purchase(l, i, templates)[i],
        ) {
            l.len()
        } else {
            l.len() + 1
        },
{
    let t = templates;
    assert(seq![k].drop_last() =~= Seq::<usize>::empty());
    assert(seq![k].last() == k);
    assert(fan_out(Seq::<usize>::empty(), t) == Seq::<UpgradeView>::empty());
    assert(fan_out(seq![k], t) =~= Seq::<UpgradeView>::empty().push(t[k as int]));
    let a = after_purchase(l, i, t);
    let u = l[i];
    let g = l.update(i, UpgradeView { unlocks: Seq::empty(), ..level_up(u) });
    assert(a == g + fan_out(u.unlocks, t));
    assert(a[i] == g[i]);
    let b = a[i];
    assert(fan_out(b.unlocks, t) =~= Seq::<UpgradeView>::empty());
}

/// A copy of every upgrade of a list, in order.
pub fn duplicate_all(list: &Vec<Upgrade>) -> (r: Vec<Upgrade>)
    ensures
        views(r@) == views(list@),
{
    let mut out: Vec<Upgrade> = Vec::new();
    let n = list.len();
    let mut i: usize = 0;
    while i < n
        invariant
            n == list@.len(),
            i <= n,
            views(out@) =~= views(list@).subrange(0, i as int),
        decreases n - i,
    {
        let u = list[i].duplicate();
        proof {
            lemma_views_push(out@, u);
        }
        out.push(u);
        i = i + 1;
    }
    assert(views(list@).subrange(0, n as int) =~= views(list@));
    out
}

/// Whether two price lists are the same.
fn same_prices(a: &Vec<(Resources, u64)>, b: &Vec<(Resources, u64)>) -> (r: bool)
    ensures
        r == (a@ == b@),
{
    if a.len() != b.len() {
        return false;
    }
    let n = a.len();
    let mut i: usize = 0;
    while i < n
        invariant
            n == a@.len(),
            n == b@.len(),
            i <= n,
            forall|j: int| 0 <= j < i ==> a@[j] == b@[j],
        decreases n - i,
    {
        if !(a[i].0 == b[i].0 && a[i].1 == b[i].1) {
            return false;
        }
        i = i + 1;
    }
    assert(a@ =~= b@);
    true
}

impl Upgrade {
    /// Whether the upgrade is well formed (see `upgrade_wf`).
    pub fn is_valid(&self) -> (r: bool)
        ensures
            r == upgrade_wf(self@),
    {
        if self.level > self.max_level || !ledger_is_wf(&self.base_cost) || !ledger_is_wf(&self.cost) {
            return false;
        }
        if self.level < self.max_level {
            let base = copy_pairs(&self.base_cost);
            let priced = self.cost_formula.calculate_cost(base, self.level);
            return same_prices(&self.cost, &priced);
        }
        true
    }
}

/// Whether every upgrade of the list is well formed.
pub fn all_valid(list: &Vec<Upgrade>) -> (r: bool)
    ensures
        r == all_wf(views(list@)),
{
    let n = list.len();
    let mut i: usize = 0;
    while i < n
        invariant
            n == list@.len(),
            i <= n,
            forall|j: int| 0 <= j < i ==> upgrade_wf(#[trigger] views(list@)[j]),
        decreases n - i,
    {
        if !list[i].is_valid() {
            assert(views(list@)[i as int] == list@[i as int]@);
            return false;
        }
        i = i + 1;
    }
    true
}

} // verus!
