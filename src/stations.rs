use vstd::prelude::*;
use crate::resources::{Resources, amount, sat_add};
use crate::cost::{CostFormula, capped, scaled};
use crate::upgrade::{Effect, Upgrade, all_wf, all_valid, views, purchase_from_list, after_purchase};
use crate::events::{Event, EventManager};
use crate::catalog::Catalog;
use crate::drone::{ship_step, Drone, DroneMode, ORBIT_ENTRY, PLANT_CENTER, MINES_DOCK, MINES_HOME, Target, targets_ok, tick_by};
use crate::player::{bump32};
use crate::player::Player;

verus! {

/// The tunable production figures of a station.
#[derive(Debug, Clone, Copy, PartialEq, Eq, Structural)]
pub struct Station {
    /// What one completed drone cycle yields at efficiency 1.
    pub drone_base: u64,
    /// The efficiency multiplier, in tenths.
    pub drone_eff: u64,
    /// The length of a drone cycle, in ticks.
    pub drone_speed: u64,
}

/// What one drone cycle of `s` yields: `drone_base * drone_eff / 10`.
pub open spec fn cycle_yield(s: Station) -> nat {
    (s.drone_base * s.drone_eff / 10) as nat
}

/// All drones well formed.
pub open spec fn drones_wf(ds: Seq<Drone>) -> bool {
    forall|i: int| 0 <= i < ds.len() ==> (#[trigger] ds[i]).wf()
}

/// `x + 1`, held at the type's largest value.
pub open spec fn up(x: u32) -> u32 {
    if x < u32::MAX {
        (x + 1) as u32
    } else {
        x
    }
}

/// Raises the level of every drone by one.
pub fn raise_levels(drones: &mut Vec<Drone>)
    requires
        drones_wf(old(drones)@),
    ensures
        drones_wf(final(drones)@),
        final(drones)@.len() == old(drones)@.len(),
        forall|i: int| 0 <= i < old(drones)@.len() ==> #[trigger] final(drones)@[i] == (Drone { level: up(old(drones)@[i].level), ..old(drones)@[i] }),
{
    let n = drones.len();
    let mut i: usize = 0;
    while i < n
        invariant
            n == drones@.len(),
            n == old(drones)@.len(),
            i <= n,
            forall|j: int| 0 <= j < i ==> #[trigger] drones@[j] == (Drone { level: up(old(drones)@[j].level), ..old(drones)@[j] }),
            forall|j: int| i <= j < n ==> #[trigger] drones@[j] == old(drones)@[j],
        decreases n - i,
    {
        let mut d = drones[i];
        d.level = d.level.saturating_add(1);
        drones.set(i, d);
        i = i + 1;
    }
}

/// Raises the speed of every drone by one.
pub fn raise_speeds(drones: &mut Vec<Drone>)
    requires
        drones_wf(old(drones)@),
    ensures
        drones_wf(final(drones)@),
        final(drones)@.len() == old(drones)@.len(),
        forall|i: int| 0 <= i < old(drones)@.len() ==> #[trigger] final(drones)@[i] == (Drone { speed: up(old(drones)@[i].speed), ..old(drones)@[i] }),
{
    let n = drones.len();
    let mut i: usize = 0;
    while i < n
        invariant
            n == drones@.len(),
            n == old(drones)@.len(),
            i <= n,
            forall|j: int| 0 <= j < i ==> #[trigger] drones@[j] == (Drone { speed: up(old(drones)@[j].speed), ..old(drones)@[j] }),
            forall|j: int| i <= j < n ==> #[trigger] drones@[j] == old(drones)@[j],
        decreases n - i,
    {
        let mut d = drones[i];
        d.speed = d.speed.saturating_add(1);
        drones.set(i, d);
        i = i + 1;
    }
}

/// Whether a drone completes a survey cycle on its next tick.
pub open spec fn survey_yields(d: Drone, cycle: u64) -> bool {
    d.on_site && tick_by(d.timer, 1) >= cycle
}

/// How many of the drones complete a survey cycle on their next tick.
pub open spec fn survey_count(ds: Seq<Drone>, cycle: u64) -> nat
    decreases ds.len(),
{
    if ds.len() == 0 {
        0
    } else {
        survey_count(ds.drop_last(), cycle) + if survey_yields(ds.last(), cycle) {
            1nat
        } else {
            0nat
        }
    }
}

proof fn lemma_capped_step(c: nat, r: nat)
    ensures
        sat_add(capped(c * r), r) == capped((c + 1) * r),
{
    assert((c + 1) * r == c * r + r) by (nonlinear_arith);
}

/// Whether the pointer state makes manual collection continue: the pointer must still
/// be over the station and not released.
pub open spec fn holds(over: bool, released: bool) -> bool {
    over && !released
}

/// The exoplanet: always available; the probe scans it by hand and survey drones
/// orbit it, both for RESEARCH.
#[derive(Debug)]
pub struct Exoplanet {
    pub drones: Vec<Drone>,
    pub scanner_level: u32,
    pub collecting: bool,
    pub station: Station,
    pub clicked_at: u64,
    pub collect_interval: u64,
    /// Whether a survey drone was ever assigned (the mines' milestone has fired).
    pub assigned: bool,
    pub avail_upgrades: Vec<Upgrade>,
}

impl Exoplanet {
    pub open spec fn wf(&self) -> bool {
        drones_wf(self.drones@) && all_wf(views(self.avail_upgrades@)) && self.station.drone_eff <= 10_000
            && self.station.drone_base <= 1_000_000 && 1 <= self.station.drone_speed <= 1_000_000
    }

    /// A fresh exoplanet offering its first template.
    pub fn load(catalog: &Catalog) -> (r: Exoplanet)
        requires
            catalog.wf(),
        ensures
            r.wf(),
            r.drones@.len() == 0,
            r.scanner_level == 1,
            !r.assigned,
            !r.collecting,
            r.station == (Station { drone_base: 20, drone_eff: 10, drone_speed: 800 }),
            r.collect_interval == 20,
            views(r.avail_upgrades@) == seq![catalog.exoplanet@[0]@],
    {
        let mut avail: Vec<Upgrade> = Vec::new();
        assert(views(avail@) =~= Seq::empty());
        Upgrade::add_upgrade(&mut avail, &catalog.exoplanet, 0);
        assert(views(avail@) =~= seq![catalog.exoplanet@[0]@]);
        Exoplanet {
            drones: Vec::new(),
            scanner_level: 1,
            collecting: false,
            station: Station { drone_base: 20, drone_eff: 10, drone_speed: 800 },
            clicked_at: 0,
            collect_interval: 20,
            assigned: false,
            avail_upgrades: avail,
        }
    }

    /// Unlock milestones offer new templates: the survey drone when the depot is built,
    /// the bio-scanners when the power plant is.
    pub fn handle_event(&mut self, event: Event, catalog: &Catalog)
        requires
            old(self).wf(),
            catalog.wf(),
        ensures
            final(self).wf(),
            event == Event::UnlockDroneDepot ==> views(final(self).avail_upgrades@) == views(old(self).avail_upgrades@).push(catalog.exoplanet@[1]@),
            event == Event::UnlockPowerPlant ==> views(final(self).avail_upgrades@) == views(old(self).avail_upgrades@).push(catalog.exoplanet@[3]@),
            event != Event::UnlockDroneDepot && event != Event::UnlockPowerPlant ==> final(self).avail_upgrades@ == old(self).avail_upgrades@,
            final(self).drones@ == old(self).drones@,
            final(self).scanner_level == old(self).scanner_level,
            final(self).station == old(self).station,
            final(self).assigned == old(self).assigned,
    {
        match event {
            Event::UnlockDroneDepot => Upgrade::add_upgrade(&mut self.avail_upgrades, &catalog.exoplanet, 1),
            Event::UnlockPowerPlant => Upgrade::add_upgrade(&mut self.avail_upgrades, &catalog.exoplanet, 3),
            _ => {},
        }
    }

    /// Applies a purchased upgrade: the scanner level (its third level raises the depot
    /// milestone), a new survey drone (the first raises the mines milestone, once), drone
    /// efficiency (+0.8, and every drone's level) or speed (cycles 5% shorter, and every
    /// drone's speed).
    pub fn upgrade(&mut self, upgrade: &Upgrade, event_manager: &mut EventManager)
        requires
            old(self).wf(),
        ensures
            final(self).wf(),
            final(event_manager).dialogue == old(event_manager).dialogue,
            final(event_manager).over == old(event_manager).over,
            upgrade.effect == Effect::Scanner ==> final(self).scanner_level == up(old(self).scanner_level)
                && final(event_manager).pending()@ == if up(old(self).scanner_level) == 3 && old(self).scanner_level != 3 {
                    old(event_manager).pending()@.push(Event::DroneDepotUnlockable)
                } else {
                    old(event_manager).pending()@
                },
            upgrade.effect == Effect::Deploy ==> final(self).drones@.len() == old(self).drones@.len() + 1
                && final(self).drones@.last().mode == DroneMode::Survey
                && final(self).assigned
                && final(event_manager).pending()@ == if !old(self).assigned {
                    old(event_manager).pending()@.push(Event::MinesUnlockable)
                } else {
                    old(event_manager).pending()@
                },
            upgrade.effect == Effect::DroneLevel ==> final(self).station.drone_eff == if old(self).station.drone_eff + 8 <= 10_000 {
                (old(self).station.drone_eff + 8) as u64
            } else {
                old(self).station.drone_eff
            } && forall|i: int| 0 <= i < old(self).drones@.len() ==> #[trigger] final(self).drones@[i].level == up(old(self).drones@[i].level),
            upgrade.effect == Effect::DroneSpeed ==> forall|i: int| 0 <= i < old(self).drones@.len() ==> #[trigger] final(self).drones@[i].speed == up(old(self).drones@[i].speed),
            upgrade.effect == Effect::DroneSpeed ==> final(self).station.drone_speed == if old(self).station.drone_speed * 95 / 100 >= 1 {
                (old(self).station.drone_speed * 95 / 100) as u64
            } else {
                1
            },
            upgrade.effect != Effect::Scanner && upgrade.effect != Effect::Deploy ==> final(event_manager).pending()@ == old(event_manager).pending()@,
            upgrade.effect != Effect::Scanner ==> final(self).scanner_level == old(self).scanner_level,
            final(self).avail_upgrades == old(self).avail_upgrades,
            upgrade.effect != Effect::Deploy ==> final(self).drones@.len() == old(self).drones@.len() && final(self).assigned == old(self).assigned,
    {
        match upgrade.effect {
            Effect::Scanner => {
                let before = self.scanner_level;
                self.scanner_level = self.scanner_level.saturating_add(1);
                if self.scanner_level == 3 && before != 3 {
                    event_manager.trigger(Event::DroneDepotUnlockable);
                }
            },
            Effect::Deploy => {
                let level = (self.station.drone_eff / 10) as u32;
                let speed: u32 = if self.station.drone_speed <= u32::MAX as u64 {
                    self.station.drone_speed as u32
                } else {
                    u32::MAX
                };
                let d = Drone::new(DroneMode::Survey, level, speed, ORBIT_ENTRY);
                let ghost before = self.drones@;
                self.drones.push(d);
                proof {
                    assert forall|i: int| 0 <= i < self.drones@.len() implies (#[trigger] self.drones@[i]).wf() by {
                        if i < before.len() {
                            assert(self.drones@[i] == before[i]);
                        }
                    }
                }
                if !self.assigned {
                    event_manager.trigger(Event::MinesUnlockable);
                    self.assigned = true;
                }
            },
            Effect::DroneLevel => {
                if self.station.drone_eff + 8 <= 10_000 {
                    self.station.drone_eff = self.station.drone_eff + 8;
                }
                raise_levels(&mut self.drones);
            },
            Effect::DroneSpeed => {
                let shorter = self.station.drone_speed * 95 / 100;
                self.station.drone_speed = if shorter >= 1 {
                    shorter
                } else {
                    1
                };
                raise_speeds(&mut self.drones);
            },
            _ => {},
        }
    }
}

/// Advances every survey drone one tick and returns the RESEARCH they yield together:
/// `rate` for each completed cycle, held at the cap.
fn run_survey(drones: &mut Vec<Drone>, cycle: u64, rate: u64) -> (r: u64)
    requires
        drones_wf(old(drones)@),
    ensures
        drones_wf(final(drones)@),
        final(drones)@.len() == old(drones)@.len(),
        r == capped((survey_count(old(drones)@, cycle) * rate) as nat),
{
    let n = drones.len();
    let mut produced: u64 = 0;
    let mut i: usize = 0;
    assert(old(drones)@.subrange(0, 0) =~= Seq::<Drone>::empty());
    assert(0 * rate == 0);
    while i < n
        invariant
            n == drones@.len(),
            n == old(drones)@.len(),
            i <= n,
            drones_wf(drones@),
            forall|j: int| i <= j < n ==> #[trigger] drones@[j] == old(drones)@[j],
            produced == capped((survey_count(old(drones)@.subrange(0, i as int), cycle) * rate) as nat),
        decreases n - i,
    {
        let mut d = drones[i];
        let ghost before = d;
        let yields = d.survey(cycle);
        proof {
            let pre = old(drones)@.subrange(0, i as int);
            let post = old(drones)@.subrange(0, i as int + 1);
            assert(post.drop_last() =~= pre);
            assert(post.last() == before);
            lemma_capped_step(survey_count(pre, cycle), rate as nat);
        }
        if yields {
            produced = produced.saturating_add(rate);
        }
        let ghost prev = drones@;
        drones.set(i, d);
        proof {
            assert forall|j: int| 0 <= j < drones@.len() implies (#[trigger] drones@[j]).wf() by {
                if j != i {
                    assert(drones@[j] == prev[j]);
                }
            }
        }
        i = i + 1;
    }
    assert(old(drones)@.subrange(0, n as int) =~= old(drones)@);
    produced
}

/// What a manual scan of the exoplanet yields this tick: the scanner level when the
/// probe is collecting, the cooldown has passed and the pointer is still held over the
/// planet; otherwise nothing.
pub open spec fn manual_yield(
    collecting: bool,
    clicked_at: u64,
    interval: u64,
    scanner_level: u32,
    modal: bool,
    over: bool,
    just_pressed: bool,
    released: bool,
    now: u64,
) -> nat {
    if !modal && (collecting || (over && just_pressed)) && now >= tick_by(clicked_at, interval as int)
        && holds(over, released) {
        scanner_level as nat
    } else {
        0
    }
}

impl Exoplanet {
    /// Removes the oldest survey drone, if any.
    pub fn unassign_drone(&mut self)
        requires
            old(self).wf(),
        ensures
            final(self).wf(),
            old(self).drones@.len() > 0 ==> final(self).drones@ == old(self).drones@.drop_first(),
            old(self).drones@.len() == 0 ==> final(self).drones@ == old(self).drones@,
            final(self).station == old(self).station,
            final(self).scanner_level == old(self).scanner_level,
    {
        if self.drones.len() > 0 {
            let ghost before = self.drones@;
            self.drones.remove(0);
            proof {
                assert(self.drones@ =~= before.drop_first());
                assert forall|i: int| 0 <= i < self.drones@.len() implies (#[trigger] self.drones@[i]).wf() by {
                    assert(self.drones@[i] == before[i + 1]);
                }
            }
        }
    }

    /// A manual scan yields one RESEARCH per scanner level.
    pub fn manual_produce(&self) -> (r: u64)
        ensures
            r == self.scanner_level,
    {
        self.scanner_level as u64
    }

    /// Advances the survey drones one tick and returns what they yield.
    pub fn produce(&mut self) -> (r: u64)
        requires
            old(self).wf(),
        ensures
            final(self).wf(),
            r == capped(survey_count(old(self).drones@, old(self).station.drone_speed) * cycle_yield(old(self).station)),
            final(self).drones@.len() == old(self).drones@.len(),
            final(self).station == old(self).station,
            final(self).scanner_level == old(self).scanner_level,
            final(self).assigned == old(self).assigned,
            final(self).collecting == old(self).collecting,
            final(self).clicked_at == old(self).clicked_at,
            final(self).collect_interval == old(self).collect_interval,
            views(final(self).avail_upgrades@) == views(old(self).avail_upgrades@),
    {
        assert(self.station.drone_base * self.station.drone_eff <= 1_000_000 * 10_000) by (nonlinear_arith)
            requires
                self.station.drone_base <= 1_000_000,
                self.station.drone_eff <= 10_000,
        ;
        let rate = self.station.drone_base * self.station.drone_eff / 10;
        run_survey(&mut self.drones, self.station.drone_speed, rate)
    }

    /// One tick: manual collection (press over the planet to start, hold to keep
    /// collecting once per cooldown; not while a dialogue is open), then the drones; the
    /// sum is collected by the player as RESEARCH.
    pub fn update(
        &mut self,
        player: &mut Player,
        event_manager: &EventManager,
        over: bool,
        just_pressed: bool,
        released: bool,
        now: u64,
    )
        requires
            old(self).wf(),
            old(player).wf(),
        ensures
            final(self).wf(),
            final(player).wf(),
            amount(final(player).resources@, Resources::Research) == sat_add(
                amount(old(player).resources@, Resources::Research),
                sat_add(
                    manual_yield(old(self).collecting, old(self).clicked_at, old(self).collect_interval, old(self).scanner_level,
                        event_manager.dialogue.is_some(), over, just_pressed, released, now),
                    capped(survey_count(old(self).drones@, old(self).station.drone_speed) * cycle_yield(old(self).station)),
                ),
            ),
            forall|o: Resources| o != Resources::Research ==> amount(final(player).resources@, o) == amount(old(player).resources@, o),
            final(self).scanner_level == old(self).scanner_level,
            final(self).station == old(self).station,
            final(self).drones@.len() == old(self).drones@.len(),
            final(player).prestige_index == old(player).prestige_index,
            final(player).prestige_limit == old(player).prestige_limit,
            final(player).prestige_earned == old(player).prestige_earned,
    {
        let mut manual: u64 = 0;
        if event_manager.dialogue.is_none() {
            if over && just_pressed && !self.collecting {
                self.collecting = true;
            }
            if self.collecting && now >= self.clicked_at.saturating_add(self.collect_interval) {
                if !over || released {
                    self.collecting = false;
                } else {
                    self.clicked_at = now;
                    manual = self.manual_produce();
                }
            }
        }
        let auto = self.produce();
        let total = manual.saturating_add(auto);
        player.collect((Resources::Research, total));
    }

    /// Buys entry `index` of the exoplanet's offers with the player's resources and
    /// applies it; nothing is bought while a dialogue is open.
    pub fn buy(&mut self, index: usize, player: &mut Player, event_manager: &mut EventManager, catalog: &Catalog) -> (r: bool)
        requires
            old(self).wf(),
            old(player).wf(),
            catalog.wf(),
        ensures
            final(self).wf(),
            final(player).wf(),
            r == (old(event_manager).dialogue.is_none() && index < old(self).avail_upgrades@.len()
                && crate::upgrade::purchasable(old(self).avail_upgrades@[index as int]@, old(player).resources@)),
            !r ==> final(player).resources@ == old(player).resources@ && final(self).avail_upgrades@ == old(self).avail_upgrades@
                && final(self).scanner_level == old(self).scanner_level && final(self).drones@.len() == old(self).drones@.len(),
            r ==> views(final(self).avail_upgrades@) == after_purchase(views(old(self).avail_upgrades@), index as int, views(catalog.exoplanet@)),
            r && old(self).avail_upgrades@[index as int].effect != Effect::DroneShipment ==> forall|k: Resources| #[trigger] amount(final(player).resources@, k)
                == amount(old(player).resources@, k) - amount(old(self).avail_upgrades@[index as int]@.cost, k),
            r && old(self).avail_upgrades@[index as int].effect == Effect::Scanner ==> final(self).scanner_level == up(old(self).scanner_level),
            r && old(self).avail_upgrades@[index as int].effect == Effect::Deploy ==> final(self).drones@.len() == old(self).drones@.len() + 1,
    {
        if event_manager.dialogue.is_some() {
            return false;
        }
        match purchase_from_list(&mut self.avail_upgrades, index, &player.resources, &catalog.exoplanet) {
            Some(u) => {
                self.upgrade(&u, event_manager);
                let paid = player.upgrade(&u);
                assert(paid.is_ok());
                true
            },
            None => false,
        }
    }
}

/// Whether a mining drone yields on its next tick.
pub open spec fn mining_yields(d: Drone) -> bool {
    d.on_site && tick_by(d.timer, 2 + d.speed) >= d.interval / 2
}

/// How many mining drones yield on their next tick.
pub open spec fn mining_count(ds: Seq<Drone>) -> nat
    decreases ds.len(),
{
    if ds.len() == 0 {
        0
    } else {
        mining_count(ds.drop_last()) + if mining_yields(ds.last()) {
            1nat
        } else {
            0nat
        }
    }
}

/// Whether a conduit drone yields on its next tick.
pub open spec fn conduit_yields(d: Drone) -> bool {
    d.on_site && tick_by(d.timer, 1) >= d.interval
}

/// How many conduit drones yield on their next tick.
pub open spec fn conduit_count(ds: Seq<Drone>) -> nat
    decreases ds.len(),
{
    if ds.len() == 0 {
        0
    } else {
        conduit_count(ds.drop_last()) + if conduit_yields(ds.last()) {
            1nat
        } else {
            0nat
        }
    }
}

/// METALS per mining trip: `(1 + 1.2 * level) * 15`.
pub open spec fn mining_rate(level: u32) -> nat {
    (15 + 18 * level) as nat
}

/// POWER per bolt: `round(1 + 0.9 * level) * 12`.
pub open spec fn conduit_rate(level: u32) -> nat {
    (((10 + 9 * level + 5) / 10) * 12) as nat
}

/// Advances every mining drone one tick; returns `rate` per yield, held at the cap.
fn run_mining(drones: &mut Vec<Drone>, eligible: &Vec<Target>, pick: u32, rate: u64) -> (r: u64)
    requires
        drones_wf(old(drones)@),
        targets_ok(eligible@),
    ensures
        drones_wf(final(drones)@),
        final(drones)@.len() == old(drones)@.len(),
        r == capped((mining_count(old(drones)@) * rate) as nat),
{
    let n = drones.len();
    let mut produced: u64 = 0;
    let mut i: usize = 0;
    assert(old(drones)@.subrange(0, 0) =~= Seq::<Drone>::empty());
    assert(0 * rate == 0);
    while i < n
        invariant
            n == drones@.len(),
            n == old(drones)@.len(),
            i <= n,
            drones_wf(drones@),
            targets_ok(eligible@),
            forall|j: int| i <= j < n ==> #[trigger] drones@[j] == old(drones)@[j],
            produced == capped((mining_count(old(drones)@.subrange(0, i as int)) * rate) as nat),
        decreases n - i,
    {
        let mut d = drones[i];
        let ghost before = d;
        let yields = d.update_mining(eligible, pick);
        proof {
            let pre = old(drones)@.subrange(0, i as int);
            let post = old(drones)@.subrange(0, i as int + 1);
            assert(post.drop_last() =~= pre);
            assert(post.last() == before);
            lemma_capped_step(mining_count(pre), rate as nat);
        }
        if yields {
            produced = produced.saturating_add(rate);
        }
        let ghost prev = drones@;
        drones.set(i, d);
        proof {
            assert forall|j: int| 0 <= j < drones@.len() implies (#[trigger] drones@[j]).wf() by {
                if j != i {
                    assert(drones@[j] == prev[j]);
                }
            }
        }
        i = i + 1;
    }
    assert(old(drones)@.subrange(0, n as int) =~= old(drones)@);
    produced
}

/// Advances every conduit drone one tick; returns `rate` per yield, held at the cap.
fn run_conduit(drones: &mut Vec<Drone>, rate: u64) -> (r: u64)
    requires
        drones_wf(old(drones)@),
    ensures
        drones_wf(final(drones)@),
        final(drones)@.len() == old(drones)@.len(),
        r == capped((conduit_count(old(drones)@) * rate) as nat),
{
    let n = drones.len();
    let mut produced: u64 = 0;
    let mut i: usize = 0;
    assert(old(drones)@.subrange(0, 0) =~= Seq::<Drone>::empty());
    assert(0 * rate == 0);
    while i < n
        invariant
            n == drones@.len(),
            n == old(drones)@.len(),
            i <= n,
            drones_wf(drones@),
            forall|j: int| i <= j < n ==> #[trigger] drones@[j] == old(drones)@[j],
            produced == capped((conduit_count(old(drones)@.subrange(0, i as int)) * rate) as nat),
        decreases n - i,
    {
        let mut d = drones[i];
        let ghost before = d;
        let yields = d.conduit();
        proof {
            let pre = old(drones)@.subrange(0, i as int);
            let post = old(drones)@.subrange(0, i as int + 1);
            assert(post.drop_last() =~= pre);
            assert(post.last() == before);
            lemma_capped_step(conduit_count(pre), rate as nat);
        }
        if yields {
            produced = produced.saturating_add(rate);
        }
        let ghost prev = drones@;
        drones.set(i, d);
        proof {
            assert forall|j: int| 0 <= j < drones@.len() implies (#[trigger] drones@[j]).wf() by {
                if j != i {
                    assert(drones@[j] == prev[j]);
                }
            }
        }
        i = i + 1;
    }
    assert(old(drones)@.subrange(0, n as int) =~= old(drones)@);
    produced
}

/// Appends a drone, keeping every drone well formed.
fn assign(drones: &mut Vec<Drone>, d: Drone)
    requires
        drones_wf(old(drones)@),
        d.wf(),
    ensures
        drones_wf(final(drones)@),
        final(drones)@ == old(drones)@.push(d),
{
    let ghost before = drones@;
    drones.push(d);
    proof {
        assert forall|i: int| 0 <= i < drones@.len() implies (#[trigger] drones@[i]).wf() by {
            if i < before.len() {
                assert(drones@[i] == before[i]);
            }
        }
    }
}

/// The asteroid mines: mining drones drill asteroids for METALS.
#[derive(Debug)]
pub struct AsteroidMines {
    pub drones: Vec<Drone>,
    pub drone_level: u32,
    pub drone_speed: u32,
    pub unlockable: bool,
    pub unlocked: bool,
    /// Whether a mining drone was ever assigned (the power plant's milestone has fired).
    pub assigned: bool,
    pub avail_upgrades: Vec<Upgrade>,
}

impl AsteroidMines {
    pub open spec fn wf(&self) -> bool {
        drones_wf(self.drones@) && all_wf(views(self.avail_upgrades@))
    }

    /// Locked mines with nothing on offer.
    pub fn load() -> (r: AsteroidMines)
        ensures
            r.wf(),
            r.drones@.len() == 0,
            !r.unlockable && !r.unlocked && !r.assigned,
            r.drone_level == 0 && r.drone_speed == 0,
            r.avail_upgrades@.len() == 0,
    {
        let avail: Vec<Upgrade> = Vec::new();
        assert(views(avail@) =~= Seq::empty());
        AsteroidMines { drones: Vec::new(), drone_level: 0, drone_speed: 0, unlockable: false, unlocked: false, assigned: false, avail_upgrades: avail }
    }

    /// The mines' milestone makes them unlockable and offers construction; the power
    /// plant's unlock offers thrusters.
    pub fn handle_event(&mut self, event: Event, catalog: &Catalog)
        requires
            old(self).wf(),
            catalog.wf(),
        ensures
            final(self).wf(),
            final(self).unlockable == (old(self).unlockable || event == Event::MinesUnlockable),
            event == Event::MinesUnlockable ==> views(final(self).avail_upgrades@) == views(old(self).avail_upgrades@).push(catalog.mines@[0]@),
            event == Event::UnlockPowerPlant ==> views(final(self).avail_upgrades@) == views(old(self).avail_upgrades@).push(catalog.mines@[3]@),
            event != Event::MinesUnlockable && event != Event::UnlockPowerPlant ==> final(self).avail_upgrades@ == old(self).avail_upgrades@,
            final(self).unlocked == old(self).unlocked,
            final(self).drones@ == old(self).drones@,
    {
        match event {
            Event::MinesUnlockable => {
                self.unlockable = true;
                Upgrade::add_upgrade(&mut self.avail_upgrades, &catalog.mines, 0);
            },
            Event::UnlockPowerPlant => Upgrade::add_upgrade(&mut self.avail_upgrades, &catalog.mines, 3),
            _ => {},
        }
    }

    /// Applies a purchased upgrade: construction, a new mining drone (the first raises
    /// the power plant milestone, once), or drone level or speed for all drones.
    pub fn upgrade(&mut self, upgrade: &Upgrade, event_manager: &mut EventManager)
        requires
            old(self).wf(),
        ensures
            final(self).wf(),
            final(self).avail_upgrades == old(self).avail_upgrades,
            final(event_manager).dialogue == old(event_manager).dialogue,
            final(event_manager).over == old(event_manager).over,
            final(self).unlocked == (old(self).unlocked || upgrade.effect == Effect::Construct),
            upgrade.effect == Effect::Deploy ==> final(self).drones@.len() == old(self).drones@.len() + 1
                && final(self).drones@.last().mode == DroneMode::Mining && final(self).assigned
                && final(event_manager).pending()@ == if !old(self).assigned {
                    old(event_manager).pending()@.push(Event::PowerPlantUnlockable)
                } else {
                    old(event_manager).pending()@
                },
            upgrade.effect != Effect::Deploy ==> final(event_manager).pending()@ == old(event_manager).pending()@
                && final(self).drones@.len() == old(self).drones@.len() && final(self).assigned == old(self).assigned,
            final(self).drone_level == if upgrade.effect == Effect::DroneLevel { up(old(self).drone_level) } else { old(self).drone_level },
            final(self).drone_speed == if upgrade.effect == Effect::DroneSpeed { up(old(self).drone_speed) } else { old(self).drone_speed },
    {
        match upgrade.effect {
            Effect::Construct => {
                self.unlocked = true;
            },
            Effect::Deploy => {
                assign(&mut self.drones, Drone::new(DroneMode::Mining, self.drone_level, self.drone_speed, MINES_HOME));
                if !self.assigned {
                    event_manager.trigger(Event::PowerPlantUnlockable);
                    self.assigned = true;
                }
            },
            Effect::DroneLevel => {
                self.drone_level = self.drone_level.saturating_add(1);
                raise_levels(&mut self.drones);
            },
            Effect::DroneSpeed => {
                self.drone_speed = self.drone_speed.saturating_add(1);
                raise_speeds(&mut self.drones);
            },
            _ => {},
        }
    }

    /// One tick: the mining drones work the `eligible` asteroids (`pick` is a random
    /// number for choosing among them); once the mines are built, their METALS go to
    /// the player.
    pub fn update(&mut self, player: &mut Player, eligible: &Vec<Target>, pick: u32)
        requires
            old(self).wf(),
            old(player).wf(),
            targets_ok(eligible@),
        ensures
            final(self).wf(),
            final(player).wf(),
            amount(final(player).resources@, Resources::Metals) == if old(self).unlocked {
                sat_add(amount(old(player).resources@, Resources::Metals), capped(mining_count(old(self).drones@) * mining_rate(old(self).drone_level)))
            } else {
                amount(old(player).resources@, Resources::Metals)
            },
            forall|o: Resources| o != Resources::Metals ==> amount(final(player).resources@, o) == amount(old(player).resources@, o),
            final(self).drones@.len() == old(self).drones@.len(),
            final(self).drone_level == old(self).drone_level,
            final(self).unlocked == old(self).unlocked,
            final(player).prestige_index == old(player).prestige_index,
    {
        let rate: u64 = 15 + 18 * (self.drone_level as u64);
        let produced = run_mining(&mut self.drones, eligible, pick, rate);
        if self.unlocked {
            player.collect((Resources::Metals, produced));
        }
    }

    /// Buys entry `index` of the mines' offers and applies it; not while a dialogue is open.
    pub fn buy(&mut self, index: usize, player: &mut Player, event_manager: &mut EventManager, catalog: &Catalog) -> (r: bool)
        requires
            old(self).wf(),
            old(player).wf(),
            catalog.wf(),
        ensures
            final(self).wf(),
            final(player).wf(),
            r == (old(event_manager).dialogue.is_none() && index < old(self).avail_upgrades@.len()
                && crate::upgrade::purchasable(old(self).avail_upgrades@[index as int]@, old(player).resources@)),
            !r ==> final(player).resources@ == old(player).resources@ && final(self).avail_upgrades@ == old(self).avail_upgrades@,
            r ==> views(final(self).avail_upgrades@) == after_purchase(views(old(self).avail_upgrades@), index as int, views(catalog.mines@)),
            r ==> forall|k: Resources| (k != Resources::Drones || old(self).avail_upgrades@[index as int].effect != Effect::DroneShipment) ==> #[trigger] amount(final(player).resources@, k)
                == amount(old(player).resources@, k) - amount(old(self).avail_upgrades@[index as int]@.cost, k),
            final(self).unlocked == (old(self).unlocked || (r && old(self).avail_upgrades@[index as int].effect == Effect::Construct)),
            final(self).drones@.len() == old(self).drones@.len() + if r && old(self).avail_upgrades@[index as int].effect == Effect::Deploy { 1int } else { 0int },
    {
        if event_manager.dialogue.is_some() {
            return false;
        }
        match purchase_from_list(&mut self.avail_upgrades, index, &player.resources, &catalog.mines) {
            Some(u) => {
                self.upgrade(&u, event_manager);
                let paid = player.upgrade(&u);
                assert(paid.is_ok());
                true
            },
            None => false,
        }
    }
}

/// The power plant: conduit drones harvest POWER from the nebula storm.
#[derive(Debug)]
pub struct PowerPlant {
    pub drones: Vec<Drone>,
    pub drone_level: u32,
    pub drone_speed: u32,
    pub unlockable: bool,
    pub unlocked: bool,
    /// Whether a conduit drone was ever assigned (the late-game milestone has fired).
    pub assigned: bool,
    pub avail_upgrades: Vec<Upgrade>,
}

impl PowerPlant {
    pub open spec fn wf(&self) -> bool {
        drones_wf(self.drones@) && all_wf(views(self.avail_upgrades@))
    }

    /// A locked plant with nothing on offer.
    pub fn load() -> (r: PowerPlant)
        ensures
            r.wf(),
            r.drones@.len() == 0,
            !r.unlockable && !r.unlocked && !r.assigned,
            r.drone_level == 0 && r.drone_speed == 0,
            r.avail_upgrades@.len() == 0,
    {
        let avail: Vec<Upgrade> = Vec::new();
        assert(views(avail@) =~= Seq::empty());
        PowerPlant { drones: Vec::new(), drone_level: 0, drone_speed: 0, unlockable: false, unlocked: false, assigned: false, avail_upgrades: avail }
    }

    /// The plant's milestone makes it unlockable and offers construction.
    pub fn handle_event(&mut self, event: Event, catalog: &Catalog)
        requires
            old(self).wf(),
            catalog.wf(),
        ensures
            final(self).wf(),
            final(self).unlockable == (old(self).unlockable || event == Event::PowerPlantUnlockable),
            event == Event::PowerPlantUnlockable ==> views(final(self).avail_upgrades@) == views(old(self).avail_upgrades@).push(catalog.power@[0]@),
            event != Event::PowerPlantUnlockable ==> final(self).avail_upgrades@ == old(self).avail_upgrades@,
            final(self).unlocked == old(self).unlocked,
            final(self).drones@ == old(self).drones@,
    {
        if event == Event::PowerPlantUnlockable {
            self.unlockable = true;
            Upgrade::add_upgrade(&mut self.avail_upgrades, &catalog.power, 0);
        }
    }

    /// Applies a purchased upgrade: construction (raises the plant's unlock), a new
    /// conduit drone (the first raises the late-game milestone, once), or drone level or
    /// speed for all drones.
    pub fn upgrade(&mut self, upgrade: &Upgrade, event_manager: &mut EventManager)
        requires
            old(self).wf(),
        ensures
            final(self).wf(),
            final(self).avail_upgrades == old(self).avail_upgrades,
            final(event_manager).dialogue == old(event_manager).dialogue,
            final(event_manager).over == old(event_manager).over,
            final(self).unlocked == (old(self).unlocked || upgrade.effect == Effect::Construct),
            upgrade.effect == Effect::Construct ==> final(event_manager).pending()@ == old(event_manager).pending()@.push(Event::UnlockPowerPlant),
            upgrade.effect == Effect::Deploy ==> final(self).drones@.len() == old(self).drones@.len() + 1
                && final(self).drones@.last().mode == DroneMode::Conduit && final(self).assigned
                && final(event_manager).pending()@ == if !old(self).assigned {
                    old(event_manager).pending()@.push(Event::LateGame)
                } else {
                    old(event_manager).pending()@
                },
            upgrade.effect != Effect::Deploy && upgrade.effect != Effect::Construct ==> final(event_manager).pending()@ == old(event_manager).pending()@,
            upgrade.effect != Effect::Deploy ==> final(self).drones@.len() == old(self).drones@.len() && final(self).assigned == old(self).assigned,
            final(self).drone_level == if upgrade.effect == Effect::DroneLevel { up(old(self).drone_level) } else { old(self).drone_level },
            final(self).drone_speed == if upgrade.effect == Effect::DroneSpeed { up(old(self).drone_speed) } else { old(self).drone_speed },
    {
        match upgrade.effect {
            Effect::Construct => {
                self.unlocked = true;
                event_manager.trigger(Event::UnlockPowerPlant);
            },
            Effect::Deploy => {
                assign(&mut self.drones, Drone::new(DroneMode::Conduit, self.drone_level, self.drone_speed, PLANT_CENTER));
                if !self.assigned {
                    event_manager.trigger(Event::LateGame);
                    self.assigned = true;
                }
            },
            Effect::DroneLevel => {
                self.drone_level = self.drone_level.saturating_add(1);
                raise_levels(&mut self.drones);
            },
            Effect::DroneSpeed => {
                self.drone_speed = self.drone_speed.saturating_add(1);
                raise_speeds(&mut self.drones);
            },
            _ => {},
        }
    }

    /// One tick: the conduit drones work; once the plant is built their POWER goes to
    /// the player.
    pub fn update(&mut self, player: &mut Player)
        requires
            old(self).wf(),
            old(player).wf(),
        ensures
            final(self).wf(),
            final(player).wf(),
            amount(final(player).resources@, Resources::Power) == if old(self).unlocked {
                sat_add(amount(old(player).resources@, Resources::Power), capped(conduit_count(old(self).drones@) * conduit_rate(old(self).drone_level)))
            } else {
                amount(old(player).resources@, Resources::Power)
            },
            forall|o: Resources| o != Resources::Power ==> amount(final(player).resources@, o) == amount(old(player).resources@, o),
            final(self).drones@.len() == old(self).drones@.len(),
            final(self).unlocked == old(self).unlocked,
            final(player).prestige_index == old(player).prestige_index,
    {
        let rate: u64 = ((10 + 9 * (self.drone_level as u64) + 5) / 10) * 12;
        let produced = run_conduit(&mut self.drones, rate);
        if self.unlocked {
            player.collect((Resources::Power, produced));
        }
    }

    /// Buys entry `index` of the plant's offers and applies it; not while a dialogue is open.
    pub fn buy(&mut self, index: usize, player: &mut Player, event_manager: &mut EventManager, catalog: &Catalog) -> (r: bool)
        requires
            old(self).wf(),
            old(player).wf(),
            catalog.wf(),
        ensures
            final(self).wf(),
            final(player).wf(),
            r == (old(event_manager).dialogue.is_none() && index < old(self).avail_upgrades@.len()
                && crate::upgrade::purchasable(old(self).avail_upgrades@[index as int]@, old(player).resources@)),
            !r ==> final(player).resources@ == old(player).resources@ && final(self).avail_upgrades@ == old(self).avail_upgrades@,
            r ==> views(final(self).avail_upgrades@) == after_purchase(views(old(self).avail_upgrades@), index as int, views(catalog.power@)),
            r ==> forall|k: Resources| (k != Resources::Drones || old(self).avail_upgrades@[index as int].effect != Effect::DroneShipment) ==> #[trigger] amount(final(player).resources@, k)
                == amount(old(player).resources@, k) - amount(old(self).avail_upgrades@[index as int]@.cost, k),
            final(self).unlocked == (old(self).unlocked || (r && old(self).avail_upgrades@[index as int].effect == Effect::Construct)),
            final(self).drones@.len() == old(self).drones@.len() + if r && old(self).avail_upgrades@[index as int].effect == Effect::Deploy { 1int } else { 0int },
    {
        if event_manager.dialogue.is_some() {
            return false;
        }
        match purchase_from_list(&mut self.avail_upgrades, index, &player.resources, &catalog.power) {
            Some(u) => {
                self.upgrade(&u, event_manager);
                let paid = player.upgrade(&u);
                assert(paid.is_ok());
                true
            },
            None => false,
        }
    }
}

/// The jumpgate: once built, it offers the jump to a new sector.
#[derive(Debug)]
pub struct Jumpgate {
    pub unlockable: bool,
    pub unlocked: bool,
    /// The player's prestige counters, mirrored for display.
    pub earn: u64,
    pub limit: u64,
    pub prog: u64,
    pub avail_upgrades: Vec<Upgrade>,
}

impl Jumpgate {
    pub open spec fn wf(&self) -> bool {
        all_wf(views(self.avail_upgrades@))
    }

    /// A locked gate with nothing on offer.
    pub fn load() -> (r: Jumpgate)
        ensures
            r.wf(),
            !r.unlockable && !r.unlocked,
            r.avail_upgrades@.len() == 0,
    {
        let avail: Vec<Upgrade> = Vec::new();
        assert(views(avail@) =~= Seq::empty());
        Jumpgate { unlockable: false, unlocked: false, earn: 0, limit: 0, prog: 0, avail_upgrades: avail }
    }

    /// The late-game milestone makes the jumpgate unlockable and offers construction.
    pub fn handle_event(&mut self, event: Event, catalog: &Catalog)
        requires
            old(self).wf(),
            catalog.wf(),
        ensures
            final(self).wf(),
            final(self).unlockable == (old(self).unlockable || event == Event::LateGame),
            event == Event::LateGame ==> views(final(self).avail_upgrades@) == views(old(self).avail_upgrades@).push(catalog.gate@[0]@),
            event != Event::LateGame ==> final(self).avail_upgrades@ == old(self).avail_upgrades@,
            final(self).unlocked == old(self).unlocked,
    {
        if event == Event::LateGame {
            self.unlockable = true;
            Upgrade::add_upgrade(&mut self.avail_upgrades, &catalog.gate, 0);
        }
    }

    /// Applies a purchased upgrade: construction, or the jump, which raises Prestige.
    pub fn upgrade(&mut self, upgrade: &Upgrade, event_manager: &mut EventManager)
        ensures
            final(self).avail_upgrades == old(self).avail_upgrades,
            final(self).unlocked == (old(self).unlocked || upgrade.effect == Effect::Construct),
            final(event_manager).dialogue == old(event_manager).dialogue,
            final(event_manager).over == old(event_manager).over,
            final(event_manager).pending()@ == if upgrade.effect == Effect::Jump {
                old(event_manager).pending()@.push(Event::Prestige)
            } else {
                old(event_manager).pending()@
            },
    {
        match upgrade.effect {
            Effect::Construct => {
                self.unlocked = true;
            },
            Effect::Jump => {
                event_manager.trigger(Event::Prestige);
            },
            _ => {},
        }
    }

    /// One tick: mirrors the player's prestige counters.
    pub fn update(&mut self, player: &Player)
        ensures
            final(self).limit == player.prestige_limit,
            final(self).earn == player.prestige_earned,
            final(self).prog == player.prestige_prog,
            final(self).avail_upgrades == old(self).avail_upgrades,
            final(self).unlocked == old(self).unlocked,
            final(self).unlockable == old(self).unlockable,
    {
        self.limit = player.prestige_limit;
        self.earn = player.prestige_earned;
        self.prog = player.prestige_prog;
    }

    /// Buys entry `index` of the jumpgate's offers and applies it; not while a dialogue is open.
    pub fn buy(&mut self, index: usize, player: &mut Player, event_manager: &mut EventManager, catalog: &Catalog) -> (r: bool)
        requires
            old(self).wf(),
            old(player).wf(),
            catalog.wf(),
        ensures
            final(self).wf(),
            final(player).wf(),
            r == (old(event_manager).dialogue.is_none() && index < old(self).avail_upgrades@.len()
                && crate::upgrade::purchasable(old(self).avail_upgrades@[index as int]@, old(player).resources@)),
            !r ==> final(player).resources@ == old(player).resources@ && final(self).avail_upgrades@ == old(self).avail_upgrades@,
            r ==> views(final(self).avail_upgrades@) == after_purchase(views(old(self).avail_upgrades@), index as int, views(catalog.gate@)),
            r ==> forall|k: Resources| (k != Resources::Drones || old(self).avail_upgrades@[index as int].effect != Effect::DroneShipment) ==> #[trigger] amount(final(player).resources@, k)
                == amount(old(player).resources@, k) - amount(old(self).avail_upgrades@[index as int]@.cost, k),
            final(self).unlocked == (old(self).unlocked || (r && old(self).avail_upgrades@[index as int].effect == Effect::Construct)),
            final(event_manager).pending()@ == if r && old(self).avail_upgrades@[index as int].effect == Effect::Jump {
                old(event_manager).pending()@.push(Event::Prestige)
            } else {
                old(event_manager).pending()@
            },
    {
        if event_manager.dialogue.is_some() {
            return false;
        }
        match purchase_from_list(&mut self.avail_upgrades, index, &player.resources, &catalog.gate) {
            Some(u) => {
                self.upgrade(&u, event_manager);
                let paid = player.upgrade(&u);
                assert(paid.is_ok());
                true
            },
            None => false,
        }
    }
}

/// The METALS the fabricator needs for its first drone.
pub const FAB_BASE: u64 = 500;

/// The METALS the fabricator needs at `level`: `500 * 1.2^level`, rounded up.
pub open spec fn fab_limit_at(level: u32) -> u64 {
    scaled(CostFormula::Exponential, FAB_BASE as nat, level as nat) as u64
}

/// The fabricator's limit at `level`.
pub fn fab_limit(level: u32) -> (r: u64)
    ensures
        r == fab_limit_at(level),
{
    let mut base: Vec<(Resources, u64)> = Vec::new();
    base.push((Resources::Metals, FAB_BASE));
    let priced = CostFormula::Exponential.calculate_cost(base, level);
    priced[0].1
}

/// What a depot tick changes: the player's METALS and DRONES and the fabricator.
pub struct DepotTally {
    pub metals: nat,
    pub drones: nat,
    pub prog: u64,
    pub level: u32,
}

/// The tally after `metals` are fed into the fabricator.
pub open spec fn feed(a: DepotTally, metals: u64) -> DepotTally {
    let p = sat_add(a.prog as nat, metals as nat);
    if p >= fab_limit_at(a.level) {
        DepotTally { prog: 0, level: bump32(a.level), drones: sat_add(a.drones, 1), ..a }
    } else {
        DepotTally { prog: p as u64, ..a }
    }
}

/// The tally after the cargo drones `ds` each take one shipping step in turn: a load
/// taken at the mines is paid from the player's METALS (a smaller balance is cleared),
/// and what is unloaded at the depot is fed to the fabricator.
pub open spec fn depot_fold(ds: Seq<Drone>, start: DepotTally) -> DepotTally
    decreases ds.len(),
{
    if ds.len() == 0 {
        start
    } else {
        let a = depot_fold(ds.drop_last(), start);
        let st = ship_step(ds.last());
        match st.1 {
            Some(shipped) => if !st.0.on_site && st.0.cargo.is_some() {
                DepotTally {
                    metals: if a.metals >= shipped.1 { (a.metals - shipped.1) as nat } else { 0 },
                    ..a
                }
            } else {
                feed(a, shipped.1)
            },
            None => a,
        }
    }
}

/// The drone depot: cargo drones ship METALS from the mines, paid by the player, into
/// a fabricator that turns them into DRONES.
#[derive(Debug)]
pub struct DroneDepot {
    pub drones: Vec<Drone>,
    pub drone_level: u32,
    pub drone_speed: u32,
    pub unlockable: bool,
    pub unlocked: bool,
    pub fabricator_unlocked: bool,
    pub power_plant_unlocked: bool,
    pub fab_prog: u64,
    pub fab_level: u32,
    pub fab_limit: u64,
    pub avail_upgrades: Vec<Upgrade>,
    pub fab_upgrades: Vec<Upgrade>,
}

impl DroneDepot {
    pub open spec fn wf(&self) -> bool {
        drones_wf(self.drones@) && all_wf(views(self.avail_upgrades@)) && all_wf(views(self.fab_upgrades@))
            && self.fab_limit == fab_limit_at(self.fab_level)
    }

    /// A locked depot with nothing on offer and an empty fabricator.
    pub fn load() -> (r: DroneDepot)
        ensures
            r.wf(),
            r.drones@.len() == 0,
            !r.unlockable && !r.unlocked && !r.fabricator_unlocked && !r.power_plant_unlocked,
            r.fab_prog == 0 && r.fab_level == 0 && r.fab_limit == FAB_BASE,
            r.avail_upgrades@.len() == 0 && r.fab_upgrades@.len() == 0,
    {
        let avail: Vec<Upgrade> = Vec::new();
        let fab: Vec<Upgrade> = Vec::new();
        assert(views(avail@) =~= Seq::empty());
        assert(views(fab@) =~= Seq::empty());
        let limit = fab_limit(0);
        proof {
            crate::cost::lemma_scaled_level_zero(CostFormula::Exponential, seq![(Resources::Metals, FAB_BASE)]);
            assert(crate::cost::scaled_list(CostFormula::Exponential, seq![(Resources::Metals, FAB_BASE)], 0)[0].1 == FAB_BASE);
        }
        DroneDepot {
            drones: Vec::new(),
            drone_level: 0,
            drone_speed: 0,
            unlockable: false,
            unlocked: false,
            fabricator_unlocked: false,
            power_plant_unlocked: false,
            fab_prog: 0,
            fab_level: 0,
            fab_limit: limit,
            avail_upgrades: avail,
            fab_upgrades: fab,
        }
    }

    /// The depot's milestone makes it unlockable and offers construction; the plant's
    /// milestone offers the fabricator; the plant's unlock offers plasma thrusters to a
    /// built fabricator.
    pub fn handle_event(&mut self, event: Event, catalog: &Catalog)
        requires
            old(self).wf(),
            catalog.wf(),
        ensures
            final(self).wf(),
            final(self).unlockable == (old(self).unlockable || event == Event::DroneDepotUnlockable),
            final(self).power_plant_unlocked == (old(self).power_plant_unlocked || event == Event::UnlockPowerPlant),
            event == Event::DroneDepotUnlockable ==> views(final(self).avail_upgrades@) == views(old(self).avail_upgrades@).push(catalog.depot@[0]@),
            event == Event::PowerPlantUnlockable ==> views(final(self).avail_upgrades@) == views(old(self).avail_upgrades@).push(catalog.depot@[2]@),
            event != Event::DroneDepotUnlockable && event != Event::PowerPlantUnlockable ==> final(self).avail_upgrades@ == old(self).avail_upgrades@,
            event == Event::UnlockPowerPlant && old(self).fabricator_unlocked ==> views(final(self).fab_upgrades@) == views(old(self).fab_upgrades@).push(catalog.depot@[5]@),
            !(event == Event::UnlockPowerPlant && old(self).fabricator_unlocked) ==> final(self).fab_upgrades@ == old(self).fab_upgrades@,
            final(self).unlocked == old(self).unlocked,
            final(self).drones@ == old(self).drones@,
    {
        match event {
            Event::DroneDepotUnlockable => {
                self.unlockable = true;
                Upgrade::add_upgrade(&mut self.avail_upgrades, &catalog.depot, 0);
            },
            Event::PowerPlantUnlockable => {
                Upgrade::add_upgrade(&mut self.avail_upgrades, &catalog.depot, 2);
            },
            Event::UnlockPowerPlant => {
                self.power_plant_unlocked = true;
                if self.fabricator_unlocked {
                    Upgrade::add_upgrade(&mut self.fab_upgrades, &catalog.depot, 5);
                }
            },
            _ => {},
        }
    }

    /// Applies a purchased upgrade: construction (raises the depot's unlock), the
    /// fabricator (offers its drone and cargo upgrades, and thrusters once the plant is
    /// built), a new cargo drone, or drone level or speed for all drones.
    pub fn upgrade(&mut self, upgrade: &Upgrade, event_manager: &mut EventManager, catalog: &Catalog)
        requires
            old(self).wf(),
            catalog.wf(),
        ensures
            final(self).wf(),
            final(self).avail_upgrades == old(self).avail_upgrades,
            final(event_manager).dialogue == old(event_manager).dialogue,
            final(event_manager).over == old(event_manager).over,
            final(self).unlocked == (old(self).unlocked || upgrade.effect == Effect::Construct),
            final(self).fabricator_unlocked == (old(self).fabricator_unlocked || upgrade.effect == Effect::ConstructFabricator),
            final(event_manager).pending()@ == if upgrade.effect == Effect::Construct {
                old(event_manager).pending()@.push(Event::UnlockDroneDepot)
            } else {
                old(event_manager).pending()@
            },
            upgrade.effect == Effect::ConstructFabricator ==> views(final(self).fab_upgrades@) == if old(self).power_plant_unlocked {
                views(old(self).fab_upgrades@).push(catalog.depot@[3]@).push(catalog.depot@[4]@).push(catalog.depot@[5]@)
            } else {
                views(old(self).fab_upgrades@).push(catalog.depot@[3]@).push(catalog.depot@[4]@)
            },
            upgrade.effect != Effect::ConstructFabricator ==> final(self).fab_upgrades@ == old(self).fab_upgrades@,
            final(self).drones@.len() == old(self).drones@.len() + if upgrade.effect == Effect::Deploy { 1int } else { 0int },
            upgrade.effect == Effect::Deploy ==> final(self).drones@.last().mode == DroneMode::Shipping,
            final(self).drone_level == if upgrade.effect == Effect::DroneLevel { up(old(self).drone_level) } else { old(self).drone_level },
            final(self).drone_speed == if upgrade.effect == Effect::DroneSpeed { up(old(self).drone_speed) } else { old(self).drone_speed },
            final(self).fab_prog == old(self).fab_prog && final(self).fab_level == old(self).fab_level,
    {
        match upgrade.effect {
            Effect::Construct => {
                self.unlocked = true;
                event_manager.trigger(Event::UnlockDroneDepot);
            },
            Effect::ConstructFabricator => {
                self.fabricator_unlocked = true;
                Upgrade::add_upgrade(&mut self.fab_upgrades, &catalog.depot, 3);
                Upgrade::add_upgrade(&mut self.fab_upgrades, &catalog.depot, 4);
                if self.power_plant_unlocked {
                    Upgrade::add_upgrade(&mut self.fab_upgrades, &catalog.depot, 5);
                }
            },
            Effect::Deploy => {
                assign(&mut self.drones, Drone::new(DroneMode::Shipping, self.drone_level, self.drone_speed, MINES_DOCK));
            },
            Effect::DroneLevel => {
                self.drone_level = self.drone_level.saturating_add(1);
                raise_levels(&mut self.drones);
            },
            Effect::DroneSpeed => {
                self.drone_speed = self.drone_speed.saturating_add(1);
                raise_speeds(&mut self.drones);
            },
            _ => {},
        }
    }

    /// Feeds `metals` into the fabricator. Crossing the limit makes one drone for
    /// the player, raises the fabricator's level, reprices the limit and empties it.
    /// Returns whether a drone was made.
    pub fn feed_fabricator(&mut self, metals: u64, player: &mut Player) -> (made: bool)
        requires
            old(self).wf(),
            old(player).wf(),
        ensures
            final(self).wf(),
            final(player).wf(),
            made == (sat_add(old(self).fab_prog as nat, metals as nat) >= old(self).fab_limit),
            made ==> final(self).fab_prog == 0 && final(self).fab_level == bump32(old(self).fab_level)
                && amount(final(player).resources@, Resources::Drones) == sat_add(amount(old(player).resources@, Resources::Drones), 1),
            !made ==> final(self).fab_prog == old(self).fab_prog + metals && final(self).fab_level == old(self).fab_level
                && final(player).resources@ == old(player).resources@,
            forall|o: Resources| o != Resources::Drones ==> amount(final(player).resources@, o) == amount(old(player).resources@, o),
            final(self).drones@ == old(self).drones@,
            final(self).avail_upgrades == old(self).avail_upgrades,
            final(self).fab_upgrades == old(self).fab_upgrades,
            final(self).unlocked == old(self).unlocked,
            final(self).drone_level == old(self).drone_level,
            final(player).prestige_index == old(player).prestige_index,
    {
        self.fab_prog = self.fab_prog.saturating_add(metals);
        if self.fab_prog >= self.fab_limit {
            self.fab_level = self.fab_level.saturating_add(1);
            self.fab_limit = fab_limit(self.fab_level);
            self.fab_prog = 0;
            player.collect((Resources::Drones, 1));
            return true;
        }
        false
    }

    /// One tick of the cargo drones, in order (see `depot_fold`).
    pub fn update(&mut self, player: &mut Player)
        requires
            old(self).wf(),
            old(player).wf(),
        ensures
            final(self).wf(),
            final(player).wf(),
            ({
                let t = depot_fold(old(self).drones@, DepotTally {
                    metals: amount(old(player).resources@, Resources::Metals),
                    drones: amount(old(player).resources@, Resources::Drones),
                    prog: old(self).fab_prog,
                    level: old(self).fab_level,
                });
                &&& amount(final(player).resources@, Resources::Metals) == t.metals
                &&& amount(final(player).resources@, Resources::Drones) == t.drones
                &&& final(self).fab_prog == t.prog
                &&& final(self).fab_level == t.level
            }),
            final(self).drones@.len() == old(self).drones@.len(),
            forall|i: int| 0 <= i < old(self).drones@.len() ==> #[trigger] final(self).drones@[i] == ship_step(old(self).drones@[i]).0,
            forall|o: Resources| o != Resources::Drones && o != Resources::Metals ==> amount(final(player).resources@, o) == amount(old(player).resources@, o),
            final(self).unlocked == old(self).unlocked,
            final(self).drone_level == old(self).drone_level,
            final(player).prestige_index == old(player).prestige_index,
    {
        let ghost start = DepotTally {
            metals: amount(old(player).resources@, Resources::Metals),
            drones: amount(old(player).resources@, Resources::Drones),
            prog: old(self).fab_prog,
            level: old(self).fab_level,
        };
        let n = self.drones.len();
        let mut i: usize = 0;
        assert(old(self).drones@.subrange(0, 0) =~= Seq::<Drone>::empty());
        while i < n
            invariant
                n == self.drones@.len(),
                n == old(self).drones@.len(),
                i <= n,
                self.wf(),
                player.wf(),
                self.unlocked == old(self).unlocked,
                self.drone_level == old(self).drone_level,
                player.prestige_index == old(player).prestige_index,
                forall|o: Resources| o != Resources::Drones && o != Resources::Metals ==> amount(player.resources@, o) == amount(old(player).resources@, o),
                forall|j: int| 0 <= j < i ==> #[trigger] self.drones@[j] == ship_step(old(self).drones@[j]).0,
                forall|j: int| i <= j < n ==> #[trigger] self.drones@[j] == old(self).drones@[j],
                start == (DepotTally {
                    metals: amount(old(player).resources@, Resources::Metals),
                    drones: amount(old(player).resources@, Resources::Drones),
                    prog: old(self).fab_prog,
                    level: old(self).fab_level,
                }),
                ({
                    let t = depot_fold(old(self).drones@.subrange(0, i as int), start);
                    &&& amount(player.resources@, Resources::Metals) == t.metals
                    &&& amount(player.resources@, Resources::Drones) == t.drones
                    &&& self.fab_prog == t.prog
                    &&& self.fab_level == t.level
                }),
            decreases n - i,
        {
            let mut d = self.drones[i];
            let ghost before = d;
            let shipped = d.shipping();
            let ghost prev = self.drones@;
            self.drones.set(i, d);
            proof {
                let pre = old(self).drones@.subrange(0, i as int);
                let post = old(self).drones@.subrange(0, i as int + 1);
                assert(post.drop_last() =~= pre);
                assert(post.last() == before);
                assert forall|j: int| 0 <= j < self.drones@.len() implies (#[trigger] self.drones@[j]).wf() by {
                    if j != i {
                        assert(self.drones@[j] == prev[j]);
                    }
                }
            }
            match shipped {
                Some((_, amt)) => {
                    if !d.on_site && d.cargo.is_some() {
                        player.remove((Resources::Metals, amt));
                    } else {
                        self.feed_fabricator(amt, player);
                    }
                },
                None => {},
            }
            i = i + 1;
        }
        assert(old(self).drones@.subrange(0, n as int) =~= old(self).drones@);
    }

    /// Buys entry `index` of the depot's offers (or, with `fab`, of the fabricator's)
    /// and applies it; not while a dialogue is open.
    pub fn buy(&mut self, index: usize, fab: bool, player: &mut Player, event_manager: &mut EventManager, catalog: &Catalog) -> (r: bool)
        requires
            old(self).wf(),
            old(player).wf(),
            catalog.wf(),
        ensures
            final(self).wf(),
            final(player).wf(),
            !fab ==> r == (old(event_manager).dialogue.is_none() && index < old(self).avail_upgrades@.len()
                && crate::upgrade::purchasable(old(self).avail_upgrades@[index as int]@, old(player).resources@)),
            fab ==> r == (old(event_manager).dialogue.is_none() && index < old(self).fab_upgrades@.len()
                && crate::upgrade::purchasable(old(self).fab_upgrades@[index as int]@, old(player).resources@)),
            !r ==> final(player).resources@ == old(player).resources@ && final(self).avail_upgrades@ == old(self).avail_upgrades@
                && final(self).fab_upgrades@ == old(self).fab_upgrades@,
            r && !fab ==> views(final(self).avail_upgrades@) == after_purchase(views(old(self).avail_upgrades@), index as int, views(catalog.depot@)),
            r && fab && old(self).fab_upgrades@[index as int].effect != Effect::ConstructFabricator ==> views(final(self).fab_upgrades@) == after_purchase(views(old(self).fab_upgrades@), index as int, views(catalog.depot@)),
            r ==> ({
                let e = if fab { old(self).fab_upgrades@[index as int] } else { old(self).avail_upgrades@[index as int] };
                &&& forall|k: Resources| (k != Resources::Drones || e.effect != Effect::DroneShipment) ==> #[trigger] amount(final(player).resources@, k)
                    == amount(old(player).resources@, k) - amount(e@.cost, k)
                &&& e.effect == Effect::DroneShipment ==> amount(final(player).resources@, Resources::Drones) == sat_add(
                    (amount(old(player).resources@, Resources::Drones) - amount(e@.cost, Resources::Drones)) as nat, 1)
                &&& final(self).unlocked == (old(self).unlocked || e.effect == Effect::Construct)
                &&& final(self).fabricator_unlocked == (old(self).fabricator_unlocked || e.effect == Effect::ConstructFabricator)
                &&& final(self).drones@.len() == old(self).drones@.len() + if e.effect == Effect::Deploy { 1int } else { 0int }
            }),
    {
        if event_manager.dialogue.is_some() {
            return false;
        }
        let bought = if fab {
            purchase_from_list(&mut self.fab_upgrades, index, &player.resources, &catalog.depot)
        } else {
            purchase_from_list(&mut self.avail_upgrades, index, &player.resources, &catalog.depot)
        };
        match bought {
            Some(u) => {
                self.upgrade(&u, event_manager, catalog);
                let paid = player.upgrade(&u);
                assert(paid.is_ok());
                true
            },
            None => false,
        }
    }
}

/// Whether every drone is well formed.
pub fn drones_valid(ds: &Vec<Drone>) -> (r: bool)
    ensures
        r == drones_wf(ds@),
{
    let n = ds.len();
    let mut i: usize = 0;
    while i < n
        invariant
            n == ds@.len(),
            i <= n,
            forall|j: int| 0 <= j < i ==> (#[trigger] ds@[j]).wf(),
        decreases n - i,
    {
        let d = ds[i];
        let ok = -crate::drone::COORD_BOUND <= d.pos.0 && d.pos.0 <= crate::drone::COORD_BOUND
            && -crate::drone::COORD_BOUND <= d.pos.1 && d.pos.1 <= crate::drone::COORD_BOUND
            && -crate::drone::COORD_BOUND <= d.target_pos.0 && d.target_pos.0 <= crate::drone::COORD_BOUND
            && -crate::drone::COORD_BOUND <= d.target_pos.1 && d.target_pos.1 <= crate::drone::COORD_BOUND
            && d.interval >= 1 && d.interval <= 1000;
        if !ok {
            return false;
        }
        i = i + 1;
    }
    true
}

impl Exoplanet {
    /// Whether the exoplanet is well formed.
    pub fn is_valid(&self) -> (r: bool)
        ensures
            r == self.wf(),
    {
        drones_valid(&self.drones) && all_valid(&self.avail_upgrades) && self.station.drone_eff <= 10_000
            && self.station.drone_base <= 1_000_000 && 1 <= self.station.drone_speed
            && self.station.drone_speed <= 1_000_000
    }
}

impl DroneDepot {
    /// Whether the depot is well formed.
    pub fn is_valid(&self) -> (r: bool)
        ensures
            r == self.wf(),
    {
        drones_valid(&self.drones) && all_valid(&self.avail_upgrades) && all_valid(&self.fab_upgrades)
            && self.fab_limit == fab_limit(self.fab_level)
    }
}

impl AsteroidMines {
    /// Whether the mines are well formed.
    pub fn is_valid(&self) -> (r: bool)
        ensures
            r == self.wf(),
    {
        drones_valid(&self.drones) && all_valid(&self.avail_upgrades)
    }
}

impl PowerPlant {
    /// Whether the plant is well formed.
    pub fn is_valid(&self) -> (r: bool)
        ensures
            r == self.wf(),
    {
        drones_valid(&self.drones) && all_valid(&self.avail_upgrades)
    }
}

impl Jumpgate {
    /// Whether the jumpgate is well formed.
    pub fn is_valid(&self) -> (r: bool)
        ensures
            r == self.wf(),
    {
        all_valid(&self.avail_upgrades)
    }
}

/// The research complex, a late-game station: it can be built once the late game
/// begins, and produces nothing of its own.
#[derive(Debug)]
pub struct ResearchComplex {
    pub unlockable: bool,
    pub unlocked: bool,
    pub avail_upgrades: Vec<Upgrade>,
}

impl ResearchComplex {
    pub open spec fn wf(&self) -> bool {
        all_wf(views(self.avail_upgrades@))
    }

    /// A locked complex with nothing on offer.
    pub fn load() -> (r: ResearchComplex)
        ensures
            r.wf(),
            !r.unlockable && !r.unlocked,
            r.avail_upgrades@.len() == 0,
    {
        let avail: Vec<Upgrade> = Vec::new();
        assert(views(avail@) =~= Seq::empty());
        ResearchComplex { unlockable: false, unlocked: false, avail_upgrades: avail }
    }

    /// The late-game milestone makes the complex unlockable and offers construction.
    pub fn handle_event(&mut self, event: Event, catalog: &Catalog)
        requires
            old(self).wf(),
            catalog.wf(),
        ensures
            final(self).wf(),
            final(self).unlockable == (old(self).unlockable || event == Event::LateGame),
            event == Event::LateGame ==> views(final(self).avail_upgrades@) == views(old(self).avail_upgrades@).push(catalog.complex@[0]@),
            event != Event::LateGame ==> final(self).avail_upgrades@ == old(self).avail_upgrades@,
            final(self).unlocked == old(self).unlocked,
    {
        if event == Event::LateGame {
            self.unlockable = true;
            Upgrade::add_upgrade(&mut self.avail_upgrades, &catalog.complex, 0);
        }
    }

    /// Applies a purchased upgrade: construction builds the complex.
    pub fn upgrade(&mut self, upgrade: &Upgrade)
        ensures
            final(self).avail_upgrades == old(self).avail_upgrades,
            final(self).unlockable == old(self).unlockable,
            final(self).unlocked == (old(self).unlocked || upgrade.effect == Effect::Construct),
    {
        if upgrade.effect == Effect::Construct {
            self.unlocked = true;
        }
    }

    /// Buys entry `index` of the complex's offers and applies it; not while a dialogue is open.
    pub fn buy(&mut self, index: usize, player: &mut Player, event_manager: &EventManager, catalog: &Catalog) -> (r: bool)
        requires
            old(self).wf(),
            old(player).wf(),
            catalog.wf(),
        ensures
            final(self).wf(),
            final(player).wf(),
            r == (event_manager.dialogue.is_none() && index < old(self).avail_upgrades@.len()
                && crate::upgrade::purchasable(old(self).avail_upgrades@[index as int]@, old(player).resources@)),
            !r ==> final(player).resources@ == old(player).resources@ && final(self).avail_upgrades@ == old(self).avail_upgrades@,
            r ==> views(final(self).avail_upgrades@) == after_purchase(views(old(self).avail_upgrades@), index as int, views(catalog.complex@)),
            r ==> forall|k: Resources| (k != Resources::Drones || old(self).avail_upgrades@[index as int].effect != Effect::DroneShipment) ==> #[trigger] amount(final(player).resources@, k)
                == amount(old(player).resources@, k) - amount(old(self).avail_upgrades@[index as int]@.cost, k),
            final(self).unlocked == (old(self).unlocked || (r && old(self).avail_upgrades@[index as int].effect == Effect::Construct)),
    {
        if event_manager.dialogue.is_some() {
            return false;
        }
        match purchase_from_list(&mut self.avail_upgrades, index, &player.resources, &catalog.complex) {
            Some(u) => {
                self.upgrade(&u);
                let paid = player.upgrade(&u);
                assert(paid.is_ok());
                true
            },
            None => false,
        }
    }

    /// Whether the complex is well formed.
    pub fn is_valid(&self) -> (r: bool)
        ensures
            r == self.wf(),
    {
        all_valid(&self.avail_upgrades)
    }
}

} // verus!
