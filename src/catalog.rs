use vstd::prelude::*;
use crate::resources::{Resources, ledger_wf};
use crate::cost::CostFormula;
use crate::upgrade::{Effect, Upgrade, UpgradeView, all_wf, upgrade_wf, views};

verus! {

/// A price of one kind.
fn price(k: Resources, a: u64) -> (r: Vec<(Resources, u64)>)
    ensures
        r@ == seq![(k, a)],
        ledger_wf(r@),
{
    let mut v: Vec<(Resources, u64)> = Vec::new();
    v.push((k, a));
    assert(v@ =~= seq![(k, a)]);
    v
}

/// An index list of one entry.
fn leads_to(k: usize) -> (r: Vec<usize>)
    ensures
        r@ == seq![k],
{
    let mut v: Vec<usize> = Vec::new();
    v.push(k);
    assert(v@ =~= seq![k]);
    v
}

/// Appends `u`, keeping every entry well formed.
fn offer(list: &mut Vec<Upgrade>, u: Upgrade)
    requires
        all_wf(views(old(list)@)),
        upgrade_wf(u@),
    ensures
        all_wf(views(final(list)@)),
        final(list)@.len() == old(list)@.len() + 1,
        final(list)@.last()@ == u@,
        forall|i: int| 0 <= i < old(list)@.len() ==> #[trigger] final(list)@[i]@ == old(list)@[i]@,
{
    let ghost before = list@;
    list.push(u);
    assert(views(list@) =~= views(before).push(u@));
}

/// The upgrades that the exoplanet can offer.
pub fn exoplanet_upgrades() -> (r: Vec<Upgrade>)
    ensures
        all_wf(views(r@)),
        r@.len() == 4,
        r@[0]@.effect == Effect::Scanner && r@[0]@.cost == seq![(Resources::Research, 10u64)]
            && r@[0]@.level == 0 && r@[0]@.max_level == 9,
{
    let mut l: Vec<Upgrade> = Vec::new();
    assert(views(l@) =~= Seq::<UpgradeView>::empty());
    offer(&mut l, Upgrade::create("FIELD SCANNER", "Sharpen the probe's scanner: each manual scan gathers one more RESEARCH.", price(Resources::Research, 10), CostFormula::Double, 9, Vec::new(), Effect::Scanner));
    proof {
        assert(l@[0]@.cost == seq![(Resources::Research, 10u64)]) by {
            crate::cost::lemma_scaled_level_zero(CostFormula::Double, seq![(Resources::Research, 10u64)]);
        }
    }
    offer(&mut l, Upgrade::create("DEPLOY SURVEY DRONE", "Assign a drone to orbit the Exoplanet and scan it for RESEARCH.", price(Resources::Drones, 1), CostFormula::Flat, 20, leads_to(2), Effect::Deploy));
    offer(&mut l, Upgrade::create("ADV. SURVEY DRONES", "Survey drones gather more RESEARCH per orbit.", price(Resources::Research, 100), CostFormula::Exponential, 10, Vec::new(), Effect::DroneLevel));
    offer(&mut l, Upgrade::create("BIO-SCANNERS", "Survey drones complete their orbits faster.", price(Resources::Power, 50), CostFormula::Exponential, 10, Vec::new(), Effect::DroneSpeed));
    l
}

/// The upgrades that the drone depot and its fabricator can offer.
pub fn depot_upgrades() -> (r: Vec<Upgrade>)
    ensures
        all_wf(views(r@)),
        r@.len() == 6,
{
    let mut l: Vec<Upgrade> = Vec::new();
    assert(views(l@) =~= Seq::<UpgradeView>::empty());
    offer(&mut l, Upgrade::create("CONSTRUCT", "Build the DRONE DEPOT.", price(Resources::Research, 50), CostFormula::Flat, 1, leads_to(1), Effect::Construct));
    offer(&mut l, Upgrade::create("DRONE SHIPMENT", "Order one autonomous drone.", price(Resources::Research, 40), CostFormula::Exponential, 100, Vec::new(), Effect::DroneShipment));
    offer(&mut l, Upgrade::create("CONSTRUCT FABRICATOR", "Build a fabricator that turns METALS into DRONES.", price(Resources::Metals, 200), CostFormula::Flat, 1, Vec::new(), Effect::ConstructFabricator));
    offer(&mut l, Upgrade::create("DEPLOY CARGO DRONE", "Assign a drone to ship METALS to the fabricator.", price(Resources::Drones, 1), CostFormula::Flat, 20, Vec::new(), Effect::Deploy));
    offer(&mut l, Upgrade::create("CARGO HOLDS", "Cargo drones carry more METALS per trip.", price(Resources::Metals, 60), CostFormula::Exponential, 10, Vec::new(), Effect::DroneLevel));
    offer(&mut l, Upgrade::create("PLASMA THRUSTERS", "Cargo drones fly faster.", price(Resources::Power, 60), CostFormula::Exponential, 10, Vec::new(), Effect::DroneSpeed));
    l
}

/// The upgrades that the asteroid mines can offer.
pub fn mines_upgrades() -> (r: Vec<Upgrade>)
    ensures
        all_wf(views(r@)),
        r@.len() == 4,
{
    let mut l: Vec<Upgrade> = Vec::new();
    assert(views(l@) =~= Seq::<UpgradeView>::empty());
    offer(&mut l, Upgrade::create("CONSTRUCT", "Build the ASTEROID MINES.", price(Resources::Research, 150), CostFormula::Flat, 1, leads_to(1), Effect::Construct));
    offer(&mut l, Upgrade::create("DEPLOY MINING DRONE", "Assign a drone to drill asteroids for METALS.", price(Resources::Drones, 1), CostFormula::Flat, 20, leads_to(2), Effect::Deploy));
    offer(&mut l, Upgrade::create("DRILL BITS", "Mining drones bring back more METALS.", price(Resources::Metals, 40), CostFormula::Exponential, 10, Vec::new(), Effect::DroneLevel));
    offer(&mut l, Upgrade::create("ADV. THRUSTERS", "Mining drones fly faster.", price(Resources::Power, 40), CostFormula::Exponential, 10, Vec::new(), Effect::DroneSpeed));
    l
}

/// The upgrades that the power plant can offer.
pub fn power_upgrades() -> (r: Vec<Upgrade>)
    ensures
        all_wf(views(r@)),
        r@.len() == 4,
{
    let mut l: Vec<Upgrade> = Vec::new();
    assert(views(l@) =~= Seq::<UpgradeView>::empty());
    let mut both: Vec<usize> = leads_to(2);
    both.push(3);
    offer(&mut l, Upgrade::create("CONSTRUCT", "Build the POWER PLANT.", price(Resources::Metals, 200), CostFormula::Flat, 1, leads_to(1), Effect::Construct));
    offer(&mut l, Upgrade::create("DEPLOY CONDUIT DRONE", "Assign a drone to harvest POWER from the storm.", price(Resources::Drones, 1), CostFormula::Flat, 20, both, Effect::Deploy));
    offer(&mut l, Upgrade::create("REFLECTORS", "Conduit drones harvest more POWER per bolt.", price(Resources::Power, 30), CostFormula::Exponential, 10, Vec::new(), Effect::DroneLevel));
    offer(&mut l, Upgrade::create("ARC CAPACITORS", "Conduit drones harvest bolts more often.", price(Resources::Metals, 60), CostFormula::Exponential, 10, Vec::new(), Effect::DroneSpeed));
    l
}

/// The upgrades that the jumpgate can offer.
pub fn gate_upgrades() -> (r: Vec<Upgrade>)
    ensures
        all_wf(views(r@)),
        r@.len() == 2,
{
    let mut l: Vec<Upgrade> = Vec::new();
    assert(views(l@) =~= Seq::<UpgradeView>::empty());
    let mut cost = price(Resources::Research, 1000);
    cost.push((Resources::Metals, 1000));
    cost.push((Resources::Power, 1000));
    assert(cost@ =~= seq![(Resources::Research, 1000u64), (Resources::Metals, 1000u64), (Resources::Power, 1000u64)]);
    offer(&mut l, Upgrade::create("CONSTRUCT", "Build the JUMPGATE.", cost, CostFormula::Flat, 1, leads_to(1), Effect::Construct));
    offer(&mut l, Upgrade::create("JUMP", "Leave this sector and start again in a new one.", price(Resources::Power, 500), CostFormula::Flat, 1, Vec::new(), Effect::Jump));
    l
}

/// The upgrades that the research complex can offer.
pub fn complex_upgrades() -> (r: Vec<Upgrade>)
    ensures
        all_wf(views(r@)),
        r@.len() == 1,
{
    let mut l: Vec<Upgrade> = Vec::new();
    assert(views(l@) =~= Seq::<UpgradeView>::empty());
    offer(&mut l, Upgrade::create("CONSTRUCT", "Build the RESEARCH COMPLEX.", price(Resources::Research, 5000), CostFormula::Flat, 1, Vec::new(), Effect::Construct));
    l
}

/// The upgrades of the research probe, bought with PRESTIGE.
pub fn probe_upgrades() -> (r: Vec<Upgrade>)
    ensures
        all_wf(views(r@)),
        r@.len() == 2,
{
    let mut l: Vec<Upgrade> = Vec::new();
    assert(views(l@) =~= Seq::<UpgradeView>::empty());
    offer(&mut l, Upgrade::create("PROBE THRUSTERS", "The probe follows the camera faster.", price(Resources::Prestige, 1), CostFormula::Double, 5, Vec::new(), Effect::Probe));
    offer(&mut l, Upgrade::create("PROBE SCANNER", "The probe scans a wider area.", price(Resources::Prestige, 1), CostFormula::Double, 5, Vec::new(), Effect::Probe));
    l
}

/// The read-only template lists of every station, loaded once.
#[derive(Debug)]
pub struct Catalog {
    pub exoplanet: Vec<Upgrade>,
    pub depot: Vec<Upgrade>,
    pub mines: Vec<Upgrade>,
    pub power: Vec<Upgrade>,
    pub gate: Vec<Upgrade>,
    pub complex: Vec<Upgrade>,
    pub probe: Vec<Upgrade>,
}

impl Catalog {
    /// Every list well formed and as long as the stations expect.
    pub open spec fn wf(&self) -> bool {
        &&& all_wf(views(self.exoplanet@)) && self.exoplanet@.len() == 4
        &&& all_wf(views(self.depot@)) && self.depot@.len() == 6
        &&& all_wf(views(self.mines@)) && self.mines@.len() == 4
        &&& all_wf(views(self.power@)) && self.power@.len() == 4
        &&& all_wf(views(self.gate@)) && self.gate@.len() == 2
        &&& all_wf(views(self.complex@)) && self.complex@.len() == 1
        &&& all_wf(views(self.probe@)) && self.probe@.len() == 2
    }

    /// All template lists.
    pub fn load() -> (r: Catalog)
        ensures
            r.wf(),
            r.exoplanet@[0]@.effect == Effect::Scanner,
            r.exoplanet@[0]@.cost == seq![(Resources::Research, 10u64)],
            r.exoplanet@[0]@.level == 0,
            r.exoplanet@[0]@.max_level == 9,
    {
        Catalog {
            exoplanet: exoplanet_upgrades(),
            depot: depot_upgrades(),
            mines: mines_upgrades(),
            power: power_upgrades(),
            gate: gate_upgrades(),
            complex: complex_upgrades(),
            probe: probe_upgrades(),
        }
    }
}

} // verus!
