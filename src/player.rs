use vstd::prelude::*;
use crate::resources::{Resources, collected, removed, ledger_wf, amount, sat_add, covers, ledger_collect, ledger_remove, ledger_covers, ledger_spend};
use crate::cost::{CostFormula, scaled};
use crate::upgrade::{Effect, InsufficientResources, Upgrade, UpgradeView, all_wf, views, purchasable, purchase_from_list, after_purchase};
use crate::events::{Event, EventManager};

verus! {

/// The lifetime production that earns the first prestige point.
pub const PRESTIGE_BASE: u64 = 200_000;

/// The tick of the jump animation at which the game ends.
pub const JUMP_TICKS: u32 = 150;

/// The lifetime production needed for prestige point number `index + 1`.
pub open spec fn prestige_limit_at(index: u32) -> u64 {
    scaled(CostFormula::Exponential, PRESTIGE_BASE as nat, index as nat) as u64
}

/// One more, held at the type's largest value.
pub open spec fn bump64(x: u64) -> u64 {
    if x < u64::MAX {
        (x + 1) as u64
    } else {
        x
    }
}

/// One more, held at the type's largest value.
pub open spec fn bump32(x: u32) -> u32 {
    if x < u32::MAX {
        (x + 1) as u32
    } else {
        x
    }
}

/// The counters `(progress, limit, index, earned)` after a prestige check.
pub open spec fn rolled(prog: u64, limit: u64, index: u32, earned: u64) -> (u64, u64, u32, u64) {
    if prog >= limit {
        (0, prestige_limit_at(bump32(index)), bump32(index), bump64(earned))
    } else {
        (prog, limit, index, earned)
    }
}

/// The research probe: owns the resource ledger and the prestige counters.
#[derive(Debug)]
pub struct Player {
    pub resources: Vec<(Resources, u64)>,
    pub prestiged: bool,
    pub jumping: bool,
    pub jump_timer: u32,
    /// Lifetime production since the last prestige point.
    pub prestige_prog: u64,
    pub prestige_index: u32,
    pub prestige_limit: u64,
    pub prestige_earned: u64,
    pub avail_upgrades: Vec<Upgrade>,
}

impl Player {
    /// The ledger holds each kind once and every offered upgrade is well formed.
    pub open spec fn wf(&self) -> bool {
        ledger_wf(self.resources@) && all_wf(views(self.avail_upgrades@))
    }

    /// A player for a new sector. `prestige_earned` is handed over as PRESTIGE in the
    /// ledger; the limit is priced for `prestige_index`.
    pub fn load(
        prestiged: bool,
        prestige_earned: u64,
        prestige_prog: u64,
        prestige_index: u32,
        avail_upgrades: Vec<Upgrade>,
    ) -> (r: Player)
        requires
            all_wf(views(avail_upgrades@)),
        ensures
            r.wf(),
            r.resources@ == seq![(Resources::Prestige, prestige_earned)],
            r.prestiged == prestiged,
            !r.jumping,
            r.jump_timer == 0,
            r.prestige_prog == prestige_prog,
            r.prestige_index == prestige_index,
            r.prestige_limit == prestige_limit_at(prestige_index),
            r.prestige_earned == 0,
            views(r.avail_upgrades@) == views(avail_upgrades@),
    {
        let mut resources: Vec<(Resources, u64)> = Vec::new();
        resources.push((Resources::Prestige, prestige_earned));
        assert(resources@ =~= seq![(Resources::Prestige, prestige_earned)]);
        Player {
            resources,
            prestiged,
            jumping: false,
            jump_timer: 0,
            prestige_prog,
            prestige_index,
            prestige_limit: prestige_limit(prestige_index),
            prestige_earned: 0,
            avail_upgrades,
        }
    }

    /// Adds `resource` to the ledger; the amount also counts toward prestige progress.
    pub fn collect(&mut self, resource: (Resources, u64))
        requires
            old(self).wf(),
        ensures
            final(self).wf(),
            final(self).prestige_prog == sat_add(old(self).prestige_prog as nat, resource.1 as nat),
            amount(final(self).resources@, resource.0) == sat_add(
                amount(old(self).resources@, resource.0),
                resource.1 as nat,
            ),
            forall|o: Resources| o != resource.0 ==> amount(final(self).resources@, o) == amount(old(self).resources@, o),
            final(self).resources@ == collected(old(self).resources@, resource.0, resource.1),
            final(self).prestige_index == old(self).prestige_index,
            final(self).prestige_limit == old(self).prestige_limit,
            final(self).prestige_earned == old(self).prestige_earned,
            final(self).prestiged == old(self).prestiged,
            final(self).jumping == old(self).jumping,
            final(self).jump_timer == old(self).jump_timer,
            views(final(self).avail_upgrades@) == views(old(self).avail_upgrades@),
    {
        self.prestige_prog = self.prestige_prog.saturating_add(resource.1);
        ledger_collect(&mut self.resources, resource.0, resource.1);
    }

    /// Takes `resource` out of the ledger; a smaller balance is cleared (see `ledger_remove`).
    pub fn remove(&mut self, resource: (Resources, u64))
        requires
            old(self).wf(),
        ensures
            final(self).wf(),
            amount(final(self).resources@, resource.0) == if amount(old(self).resources@, resource.0) >= resource.1 {
                (amount(old(self).resources@, resource.0) - resource.1) as nat
            } else {
                0
            },
            forall|o: Resources| o != resource.0 ==> amount(final(self).resources@, o) == amount(old(self).resources@, o),
            final(self).resources@ == removed(old(self).resources@, resource.0, resource.1),
            final(self).prestige_prog == old(self).prestige_prog,
            final(self).prestige_index == old(self).prestige_index,
            final(self).prestige_earned == old(self).prestige_earned,
            views(final(self).avail_upgrades@) == views(old(self).avail_upgrades@),
    {
        ledger_remove(&mut self.resources, resource.0, resource.1);
    }

    /// Pays for a purchased upgrade and applies what reaches past the station that sold
    /// it: a drone shipment grants one drone. When the ledger does not cover the price,
    /// nothing changes and the error comes back.
    pub fn upgrade(&mut self, upgrade: &Upgrade) -> (r: Result<(), InsufficientResources>)
        requires
            old(self).wf(),
            ledger_wf(upgrade.cost@),
        ensures
            final(self).wf(),
            r.is_ok() == covers(old(self).resources@, upgrade.cost@),
            r.is_err() ==> final(self).resources@ == old(self).resources@
                && final(self).prestige_prog == old(self).prestige_prog,
            r.is_ok() ==> forall|k: Resources| (k != Resources::Drones || upgrade.effect != Effect::DroneShipment)
                ==> #[trigger] amount(final(self).resources@, k) == amount(old(self).resources@, k) - amount(upgrade.cost@, k),
            r.is_ok() && upgrade.effect == Effect::DroneShipment ==> amount(final(self).resources@, Resources::Drones)
                == sat_add((amount(old(self).resources@, Resources::Drones) - amount(upgrade.cost@, Resources::Drones)) as nat, 1)
                && final(self).prestige_prog == sat_add(old(self).prestige_prog as nat, 1),
            upgrade.effect != Effect::DroneShipment ==> final(self).prestige_prog == old(self).prestige_prog,
            final(self).prestige_index == old(self).prestige_index,
            final(self).prestige_earned == old(self).prestige_earned,
            final(self).prestige_limit == old(self).prestige_limit,
            final(self).prestiged == old(self).prestiged,
            final(self).jumping == old(self).jumping,
            views(final(self).avail_upgrades@) == views(old(self).avail_upgrades@),
    {
        if !ledger_covers(&self.resources, &upgrade.cost) {
            return Err(InsufficientResources {  });
        }
        ledger_spend(&mut self.resources, &upgrade.cost);
        if upgrade.effect == Effect::DroneShipment {
            self.collect((Resources::Drones, 1));
        }
        Ok(())
    }

    /// Buys entry `index` of the probe's offers with the player's own ledger;
    /// `templates` is the probe's upgrade list, which unlocks refer to.
    pub fn buy(&mut self, index: usize, templates: &Vec<Upgrade>) -> (r: Option<Upgrade>)
        requires
            old(self).wf(),
            all_wf(views(templates@)),
        ensures
            final(self).wf(),
            r.is_some() == (index < old(self).avail_upgrades@.len() && purchasable(
                old(self).avail_upgrades@[index as int]@,
                old(self).resources@,
            )),
            r.is_some() ==> r.unwrap()@ == old(self).avail_upgrades@[index as int]@
                && views(final(self).avail_upgrades@) == after_purchase(
                views(old(self).avail_upgrades@),
                index as int,
                views(templates@),
            ),
            r.is_some() ==> forall|k: Resources| (k != Resources::Drones || r.unwrap().effect != Effect::DroneShipment)
                ==> #[trigger] amount(final(self).resources@, k) == amount(old(self).resources@, k) - amount(
                    old(self).avail_upgrades@[index as int]@.cost, k),
            r.is_none() ==> final(self).resources@ == old(self).resources@
                && final(self).avail_upgrades@ == old(self).avail_upgrades@,
            final(self).prestige_index == old(self).prestige_index,
    {
        match purchase_from_list(&mut self.avail_upgrades, index, &self.resources, templates) {
            Some(u) => {
                let paid = self.upgrade(&u);
                assert(paid.is_ok());
                Some(u)
            },
            None => None,
        }
    }
    /// The prestige rollover: once progress reaches the limit, one prestige point is
    /// earned, the index advances, the limit is repriced and progress starts over.
    pub fn check_prestige(&mut self)
        requires
            old(self).wf(),
        ensures
            final(self).wf(),
            (final(self).prestige_prog, final(self).prestige_limit, final(self).prestige_index, final(self).prestige_earned)
                == rolled(old(self).prestige_prog, old(self).prestige_limit, old(self).prestige_index, old(self).prestige_earned),
            final(self).resources@ == old(self).resources@,
            views(final(self).avail_upgrades@) == views(old(self).avail_upgrades@),
            old(self).prestige_prog >= old(self).prestige_limit ==> final(self).prestige_earned == bump64(old(self).prestige_earned)
                && final(self).prestige_index == bump32(old(self).prestige_index)
                && final(self).prestige_limit == prestige_limit_at(bump32(old(self).prestige_index))
                && final(self).prestige_prog == 0,
            old(self).prestige_prog < old(self).prestige_limit ==> final(self).prestige_earned == old(self).prestige_earned
                && final(self).prestige_index == old(self).prestige_index
                && final(self).prestige_limit == old(self).prestige_limit
                && final(self).prestige_prog == old(self).prestige_prog,
            final(self).prestiged == old(self).prestiged,
            final(self).jumping == old(self).jumping,
            final(self).jump_timer == old(self).jump_timer,
    {
        if self.prestige_prog >= self.prestige_limit {
            self.prestige_earned = self.prestige_earned.saturating_add(1);
            self.prestige_index = self.prestige_index.saturating_add(1);
            self.prestige_limit = prestige_limit(self.prestige_index);
            self.prestige_prog = 0;
        }
    }

    /// Reacts to a dispatched event: Prestige starts the jump, and a first prestige
    /// offers the probe's two upgrades from `probe_templates`.
    pub fn handle_event(&mut self, event: Event, probe_templates: &Vec<Upgrade>)
        requires
            old(self).wf(),
            all_wf(views(probe_templates@)),
            probe_templates@.len() >= 2,
        ensures
            final(self).wf(),
            final(self).resources@ == old(self).resources@,
            final(self).prestige_prog == old(self).prestige_prog,
            final(self).prestige_index == old(self).prestige_index,
            final(self).prestige_earned == old(self).prestige_earned,
            final(self).prestige_limit == old(self).prestige_limit,
            final(self).jumping == (old(self).jumping || event == Event::Prestige),
            event == Event::Prestige && !old(self).prestiged ==> views(final(self).avail_upgrades@)
                == views(old(self).avail_upgrades@).push(probe_templates@[0]@).push(probe_templates@[1]@),
            !(event == Event::Prestige && !old(self).prestiged) ==> views(final(self).avail_upgrades@)
                == views(old(self).avail_upgrades@),
    {
        if event == Event::Prestige {
            self.jumping = true;
            if !self.prestiged {
                let ghost l0 = self.avail_upgrades@;
                let a = probe_templates[0].duplicate();
                let b = probe_templates[1].duplicate();
                self.avail_upgrades.push(a);
                self.avail_upgrades.push(b);
                proof {
                    assert(views(self.avail_upgrades@) =~= views(l0).push(a@).push(b@));
                    let v = views(self.avail_upgrades@);
                    assert(probe_templates@[0]@ == views(probe_templates@)[0]);
                    assert(probe_templates@[1]@ == views(probe_templates@)[1]);
                    assert forall|i: int| 0 <= i < v.len() implies crate::upgrade::upgrade_wf(#[trigger] v[i]) by {
                        if i < l0.len() {
                            assert(v[i] == views(l0)[i]);
                        }
                    }
                }
            }
        }
    }

    /// The jump animation: after `JUMP_TICKS` ticks the game ends, once.
    pub fn jump(&mut self, event_manager: &mut EventManager)
        ensures
            final(self).jump_timer == if bump32(old(self).jump_timer) == JUMP_TICKS {
                (JUMP_TICKS + 100) as u32
            } else {
                bump32(old(self).jump_timer)
            },
            final(event_manager).pending()@ == if bump32(old(self).jump_timer) == JUMP_TICKS {
                old(event_manager).pending()@.push(Event::EndGame)
            } else {
                old(event_manager).pending()@
            },
            final(event_manager).dialogue == old(event_manager).dialogue,
            final(event_manager).over == old(event_manager).over,
            final(self).resources == old(self).resources,
            final(self).prestige_prog == old(self).prestige_prog,
            final(self).prestige_index == old(self).prestige_index,
            final(self).prestige_earned == old(self).prestige_earned,
            final(self).prestige_limit == old(self).prestige_limit,
            final(self).jumping == old(self).jumping,
            final(self).prestiged == old(self).prestiged,
            final(self).avail_upgrades == old(self).avail_upgrades,
    {
        self.jump_timer = self.jump_timer.saturating_add(1);
        if self.jump_timer == JUMP_TICKS {
            event_manager.trigger(Event::EndGame);
            self.jump_timer = self.jump_timer + 100;
        }
    }

    /// One tick: the jump advances while jumping, then the prestige rollover is checked.
    pub fn update(&mut self, event_manager: &mut EventManager)
        requires
            old(self).wf(),
        ensures
            final(self).wf(),
            final(self).resources@ == old(self).resources@,
            old(self).prestige_prog >= old(self).prestige_limit ==> final(self).prestige_earned == bump64(old(self).prestige_earned)
                && final(self).prestige_index == bump32(old(self).prestige_index)
                && final(self).prestige_limit == prestige_limit_at(bump32(old(self).prestige_index))
                && final(self).prestige_prog == 0,
            old(self).prestige_prog < old(self).prestige_limit ==> final(self).prestige_earned == old(self).prestige_earned
                && final(self).prestige_index == old(self).prestige_index
                && final(self).prestige_limit == old(self).prestige_limit
                && final(self).prestige_prog == old(self).prestige_prog,
            !old(self).jumping ==> final(event_manager).pending()@ == old(event_manager).pending()@
                && final(self).jump_timer == old(self).jump_timer,
            old(self).jumping ==> final(self).jump_timer == (if bump32(old(self).jump_timer) == JUMP_TICKS {
                (JUMP_TICKS + 100) as u32
            } else {
                bump32(old(self).jump_timer)
            }) && final(event_manager).pending()@ == if bump32(old(self).jump_timer) == JUMP_TICKS {
                old(event_manager).pending()@.push(Event::EndGame)
            } else {
                old(event_manager).pending()@
            },
            final(self).jumping == old(self).jumping,
            final(event_manager).dialogue == old(event_manager).dialogue,
            final(event_manager).over == old(event_manager).over,
    {
        if self.jumping {
            self.jump(event_manager);
        }
        self.check_prestige();
    }
}

impl Default for Player {
    /// A first-sector player with nothing carried over.
    fn default() -> (r: Player)
        ensures
            r.wf(),
            r.resources@ == seq![(Resources::Prestige, 0u64)],
            !r.prestiged,
            r.prestige_prog == 0 && r.prestige_index == 0 && r.prestige_earned == 0,
            r.prestige_limit == prestige_limit_at(0),
            r.avail_upgrades@.len() == 0,
    {
        let none: Vec<Upgrade> = Vec::new();
        assert(views(none@) =~= Seq::<UpgradeView>::empty());
        Player::load(false, 0, 0, 0, none)
    }
}

/// The prestige limit for `index`: `200_000 * 1.2^index`, rounded up.
pub fn prestige_limit(index: u32) -> (r: u64)
    ensures
        r == prestige_limit_at(index),
{
    let mut base: Vec<(Resources, u64)> = Vec::new();
    base.push((Resources::Prestige, PRESTIGE_BASE));
    let priced = CostFormula::Exponential.calculate_cost(base, index);
    priced[0].1
}

/// With progress one short of the limit, collecting a unit of any resource and then
/// checking for prestige earns one point, advances the index, starts progress over and
/// reprices the limit for the new index.
pub proof fn lemma_prestige_rollover(prog: u64, limit: u64, index: u32, earned: u64, a: u64)
    requires
        limit >= 1,
        prog == limit - 1,
        a >= 1,
        index < u32::MAX,
        earned < u64::MAX,
    ensures
        rolled(sat_add(prog as nat, a as nat) as u64, limit, index, earned) == (
            0u64,
            prestige_limit_at((index + 1) as u32),
            (index + 1) as u32,
            (earned + 1) as u64,
        ),
{
}

} // verus!
