use vstd::prelude::*;
use crate::resources::{Resources, amount, ledger_amount, ledger_is_wf};
use crate::upgrade::{Upgrade, all_wf, all_valid, views, duplicate_all};
use crate::events::{Event, EventManager, gate, gate_after, cutscene_gate, dispatched};
use crate::catalog::Catalog;
use crate::player::{Player, prestige_limit_at};
use crate::stations::{AsteroidMines, DroneDepot, Exoplanet, Jumpgate, PowerPlant, ResearchComplex};
use crate::drone::{Target, targets_ok};
use crate::cost::capped;
use crate::resources::sat_add;
use crate::stations::{manual_yield, survey_count, cycle_yield, conduit_count, conduit_rate};

verus! {

/// What the host must do after a round of event dispatch.
#[derive(Debug, Clone, Copy, PartialEq, Eq, Structural)]
pub enum Outcome {
    Continue,
    Save,
    Reset,
    Prestige,
}

/// The outcome that a dispatched event asks for.
pub open spec fn outcome_of(e: Option<Event>) -> Outcome {
    match e {
        Some(Event::ResetGame) => Outcome::Reset,
        Some(Event::SaveGame) => Outcome::Save,
        Some(Event::EndGame) => Outcome::Prestige,
        _ => Outcome::Continue,
    }
}

/// The input of one tick, already reduced to plain values.
#[derive(Debug)]
pub struct TickInput {
    /// The tick counter.
    pub now: u64,
    /// Whether the pointer is over the exoplanet.
    pub over_planet: bool,
    pub just_pressed: bool,
    pub released: bool,
    /// Whether the dialogue panel was tapped.
    pub tapped: bool,
    /// The choice made on a prompt, if any.
    pub choice: Option<bool>,
    /// The asteroids that mining drones may pick.
    pub eligible: Vec<Target>,
    /// A random number for the mining drones' choice.
    pub pick: u32,
}

/// The whole sector: the player, the event sequencer and every station.
#[derive(Debug)]
pub struct GameState {
    pub player: Player,
    pub event_manager: EventManager,
    pub exoplanet: Exoplanet,
    pub drone_depot: DroneDepot,
    pub asteroid_mines: AsteroidMines,
    pub power_plant: PowerPlant,
    pub jumpgate: Jumpgate,
    pub research_complex: ResearchComplex,
    pub catalog: Catalog,
}

impl GameState {
    pub open spec fn wf(&self) -> bool {
        &&& self.player.wf()
        &&& self.exoplanet.wf()
        &&& self.drone_depot.wf()
        &&& self.asteroid_mines.wf()
        &&& self.power_plant.wf()
        &&& self.jumpgate.wf()
        &&& self.research_complex.wf()
        &&& self.catalog.wf()
        &&& self.event_manager.dialogue.is_some() ==> self.event_manager.dialogue.unwrap().messages@.len() > 0
    }

    /// A new sector: a player carrying the given prestige state, fresh locked stations,
    /// and the opening cutscene.
    pub fn new(
        prestiged: bool,
        prestige_earned: u64,
        prestige_prog: u64,
        prestige_index: u32,
        avail_upgrades: Vec<Upgrade>,
    ) -> (r: GameState)
        requires
            all_wf(views(avail_upgrades@)),
        ensures
            r.wf(),
            r.player.resources@ == seq![(Resources::Prestige, prestige_earned)],
            r.player.prestiged == prestiged,
            r.player.prestige_prog == prestige_prog,
            r.player.prestige_index == prestige_index,
            r.player.prestige_limit == prestige_limit_at(prestige_index),
            views(r.player.avail_upgrades@) == views(avail_upgrades@),
            r.exoplanet.drones@.len() == 0 && r.exoplanet.scanner_level == 1,
            !r.drone_depot.unlockable && !r.asteroid_mines.unlockable && !r.power_plant.unlockable && !r.jumpgate.unlockable,
            !r.research_complex.unlockable && !r.research_complex.unlocked,
            !r.drone_depot.unlocked && !r.asteroid_mines.unlocked && !r.power_plant.unlocked && !r.jumpgate.unlocked,
            r.drone_depot.drones@.len() == 0 && r.asteroid_mines.drones@.len() == 0 && r.power_plant.drones@.len() == 0,
            r.drone_depot.avail_upgrades@.len() == 0 && r.asteroid_mines.avail_upgrades@.len() == 0
                && r.power_plant.avail_upgrades@.len() == 0 && r.jumpgate.avail_upgrades@.len() == 0,
            views(r.exoplanet.avail_upgrades@) == seq![r.catalog.exoplanet@[0]@],
            r.event_manager.pending()@.len() == 0,
            gate(r.event_manager.dialogue) == Some(cutscene_gate(0)),
    {
        let catalog = Catalog::load();
        GameState {
            player: Player::load(prestiged, prestige_earned, prestige_prog, prestige_index, avail_upgrades),
            event_manager: EventManager::new(),
            exoplanet: Exoplanet::load(&catalog),
            drone_depot: DroneDepot::load(),
            asteroid_mines: AsteroidMines::load(),
            power_plant: PowerPlant::load(),
            jumpgate: Jumpgate::load(),
            research_complex: ResearchComplex::load(),
            catalog,
        }
    }

    /// Hands `event` to every subscriber and returns what the host must do next.
    pub fn dispatch(&mut self, event: Event) -> (r: Outcome)
        requires
            old(self).wf(),
        ensures
            final(self).wf(),
            r == outcome_of(Some(event)),
            final(self).player.resources@ == old(self).player.resources@,
            final(self).player.prestige_index == old(self).player.prestige_index,
            final(self).player.prestige_prog == old(self).player.prestige_prog,
            final(self).player.prestige_earned == old(self).player.prestige_earned,
            final(self).event_manager == old(self).event_manager,
            final(self).player.jumping == (old(self).player.jumping || event == Event::Prestige),
            final(self).drone_depot.unlockable == (old(self).drone_depot.unlockable || event == Event::DroneDepotUnlockable),
            final(self).drone_depot.power_plant_unlocked == (old(self).drone_depot.power_plant_unlocked || event == Event::UnlockPowerPlant),
            final(self).asteroid_mines.unlockable == (old(self).asteroid_mines.unlockable || event == Event::MinesUnlockable),
            final(self).power_plant.unlockable == (old(self).power_plant.unlockable || event == Event::PowerPlantUnlockable),
            final(self).jumpgate.unlockable == (old(self).jumpgate.unlockable || event == Event::LateGame),
            final(self).research_complex.unlockable == (old(self).research_complex.unlockable || event == Event::LateGame),
            event == Event::UnlockDroneDepot ==> views(final(self).exoplanet.avail_upgrades@)
                == views(old(self).exoplanet.avail_upgrades@).push(old(self).catalog.exoplanet@[1]@),
            event == Event::UnlockPowerPlant ==> views(final(self).exoplanet.avail_upgrades@)
                == views(old(self).exoplanet.avail_upgrades@).push(old(self).catalog.exoplanet@[3]@)
                && views(final(self).asteroid_mines.avail_upgrades@)
                == views(old(self).asteroid_mines.avail_upgrades@).push(old(self).catalog.mines@[3]@),
            event == Event::DroneDepotUnlockable ==> views(final(self).drone_depot.avail_upgrades@)
                == views(old(self).drone_depot.avail_upgrades@).push(old(self).catalog.depot@[0]@),
            event == Event::MinesUnlockable ==> views(final(self).asteroid_mines.avail_upgrades@)
                == views(old(self).asteroid_mines.avail_upgrades@).push(old(self).catalog.mines@[0]@),
            event == Event::PowerPlantUnlockable ==> views(final(self).power_plant.avail_upgrades@)
                == views(old(self).power_plant.avail_upgrades@).push(old(self).catalog.power@[0]@)
                && views(final(self).drone_depot.avail_upgrades@)
                == views(old(self).drone_depot.avail_upgrades@).push(old(self).catalog.depot@[2]@),
            event == Event::LateGame ==> views(final(self).jumpgate.avail_upgrades@)
                == views(old(self).jumpgate.avail_upgrades@).push(old(self).catalog.gate@[0]@),
            event == Event::Prestige && !old(self).player.prestiged ==> views(final(self).player.avail_upgrades@)
                == views(old(self).player.avail_upgrades@).push(old(self).catalog.probe@[0]@).push(old(self).catalog.probe@[1]@),
    {
        self.player.handle_event(event, &self.catalog.probe);
        self.exoplanet.handle_event(event, &self.catalog);
        self.drone_depot.handle_event(event, &self.catalog);
        self.asteroid_mines.handle_event(event, &self.catalog);
        self.power_plant.handle_event(event, &self.catalog);
        self.jumpgate.handle_event(event, &self.catalog);
        self.research_complex.handle_event(event, &self.catalog);
        match event {
            Event::ResetGame => Outcome::Reset,
            Event::SaveGame => Outcome::Save,
            Event::EndGame => Outcome::Prestige,
            _ => Outcome::Continue,
        }
    }

    /// Lets the event manager hand out at most one event, dispatches it, and rebuilds
    /// the sector when it asks for a reset (everything zeroed) or ends the game
    /// (prestige carried over). Returns the outcome.
    pub fn process_events(&mut self) -> (r: Outcome)
        requires
            old(self).wf(),
        ensures
            final(self).wf(),
            r == outcome_of(dispatched(old(self).event_manager.pending()@, gate(old(self).event_manager.dialogue))),
            r == Outcome::Reset ==> final(self).player.resources@ == seq![(Resources::Prestige, 0u64)]
                && final(self).player.prestige_index == 0 && final(self).player.prestige_prog == 0
                && !final(self).player.prestiged && final(self).player.avail_upgrades@.len() == 0,
            r == Outcome::Prestige ==> final(self).player.prestiged
                && final(self).player.prestige_index == old(self).player.prestige_index
                && final(self).player.prestige_prog == old(self).player.prestige_prog
                && final(self).player.resources@ == seq![(Resources::Prestige, crate::resources::sat_add(
                    amount(old(self).player.resources@, Resources::Prestige),
                    old(self).player.prestige_earned as nat,
                ) as u64)],
            r == Outcome::Continue || r == Outcome::Save ==> final(self).player.resources@ == old(self).player.resources@
                && final(self).player.prestige_index == old(self).player.prestige_index
                && gate(final(self).event_manager.dialogue) == gate_after(
                old(self).event_manager.pending()@,
                gate(old(self).event_manager.dialogue),
                old(self).event_manager.just_ended(),
            ),
    {
        let next = self.event_manager.process_events();
        let outcome = match next {
            Some(e) => self.dispatch(e),
            None => Outcome::Continue,
        };
        match outcome {
            Outcome::Reset => {
                let none: Vec<Upgrade> = Vec::new();
                assert(views(none@) =~= Seq::empty());
                *self = GameState::new(false, 0, 0, 0, none);
            },
            Outcome::Prestige => {
                let leftover = ledger_amount(&self.player.resources, Resources::Prestige);
                let earned = leftover.saturating_add(self.player.prestige_earned);
                let prog = self.player.prestige_prog;
                let index = self.player.prestige_index;
                let carried = duplicate_all(&self.player.avail_upgrades);
                *self = GameState::new(true, earned, prog, index, carried);
            },
            _ => {},
        }
        outcome
    }

    /// The first half of a tick: the player (while no dialogue is open), then every
    /// station that is visible. Only a jumping player raises an event here.
    fn run_stations(&mut self, input: &TickInput)
        requires
            old(self).wf(),
            targets_ok(input.eligible@),
        ensures
            final(self).wf(),
            !old(self).player.jumping ==> final(self).event_manager.pending()@ == old(self).event_manager.pending()@,
            final(self).event_manager.dialogue == old(self).event_manager.dialogue,
            final(self).event_manager.over == old(self).event_manager.over,
            amount(final(self).player.resources@, Resources::Research) == sat_add(
                amount(old(self).player.resources@, Resources::Research),
                sat_add(
                    manual_yield(old(self).exoplanet.collecting, old(self).exoplanet.clicked_at,
                        old(self).exoplanet.collect_interval, old(self).exoplanet.scanner_level,
                        old(self).event_manager.dialogue.is_some(), input.over_planet, input.just_pressed,
                        input.released, input.now),
                    capped(survey_count(old(self).exoplanet.drones@, old(self).exoplanet.station.drone_speed)
                        * cycle_yield(old(self).exoplanet.station)),
                ),
            ),
            amount(final(self).player.resources@, Resources::Power) == if old(self).power_plant.unlockable
                && old(self).power_plant.unlocked {
                sat_add(
                    amount(old(self).player.resources@, Resources::Power),
                    capped(conduit_count(old(self).power_plant.drones@) * conduit_rate(old(self).power_plant.drone_level)),
                )
            } else {
                amount(old(self).player.resources@, Resources::Power)
            },
    {
        if self.event_manager.dialogue.is_none() {
            self.player.update(&mut self.event_manager);
        }
        self.exoplanet.update(&mut self.player, &self.event_manager, input.over_planet, input.just_pressed, input.released, input.now);
        if self.asteroid_mines.unlockable {
            self.asteroid_mines.update(&mut self.player, &input.eligible, input.pick);
        }
        if self.drone_depot.unlockable {
            self.drone_depot.update(&mut self.player);
        }
        if self.power_plant.unlockable {
            self.power_plant.update(&mut self.player);
        }
        if self.jumpgate.unlockable {
            self.jumpgate.update(&self.player);
        }
    }

    /// One simulation tick: the player (while no dialogue is open), every station that
    /// is visible, one round of event dispatch, then the dialogue's input. Returns the
    /// outcome of the dispatch.
    pub fn tick(&mut self, input: &TickInput) -> (r: Outcome)
        requires
            old(self).wf(),
            targets_ok(input.eligible@),
        ensures
            final(self).wf(),
            r == Outcome::Reset ==> final(self).player.resources@ == seq![(Resources::Prestige, 0u64)]
                && final(self).player.prestige_index == 0 && final(self).player.prestige_prog == 0
                && !final(self).player.prestiged && final(self).player.avail_upgrades@.len() == 0,
            r == Outcome::Prestige ==> final(self).player.prestiged,
            !old(self).player.jumping ==> r == outcome_of(
                dispatched(old(self).event_manager.pending()@, gate(old(self).event_manager.dialogue)),
            ),
            r == Outcome::Continue || r == Outcome::Save ==> amount(final(self).player.resources@, Resources::Research)
                == sat_add(
                amount(old(self).player.resources@, Resources::Research),
                sat_add(
                    manual_yield(old(self).exoplanet.collecting, old(self).exoplanet.clicked_at,
                        old(self).exoplanet.collect_interval, old(self).exoplanet.scanner_level,
                        old(self).event_manager.dialogue.is_some(), input.over_planet, input.just_pressed,
                        input.released, input.now),
                    capped(survey_count(old(self).exoplanet.drones@, old(self).exoplanet.station.drone_speed)
                        * cycle_yield(old(self).exoplanet.station)),
                ),
            ),
            r == Outcome::Continue || r == Outcome::Save ==> amount(final(self).player.resources@, Resources::Power)
                == if old(self).power_plant.unlockable && old(self).power_plant.unlocked {
                sat_add(
                    amount(old(self).player.resources@, Resources::Power),
                    capped(conduit_count(old(self).power_plant.drones@) * conduit_rate(old(self).power_plant.drone_level)),
                )
            } else {
                amount(old(self).player.resources@, Resources::Power)
            },
            !old(self).player.jumping && old(self).event_manager.pending()@.len() == 0
                && old(self).event_manager.dialogue.is_none() ==> final(self).event_manager.dialogue.is_none(),
    {
        self.run_stations(input);
        let outcome = self.process_events();
        self.event_manager.update(input.tapped, input.choice);
        outcome
    }
}

impl GameState {
    /// Whether the state is well formed, for a state that did not come from this
    /// library (a restored checkpoint): a malformed one is to be replaced by a new game.
    pub fn is_valid(&self) -> (r: bool)
        ensures
            r == self.wf(),
    {
        let dialogue_ok = match &self.event_manager.dialogue {
            Some(d) => d.messages.len() > 0,
            None => true,
        };
        let c = &self.catalog;
        let catalog_ok = all_valid(&c.exoplanet) && c.exoplanet.len() == 4 && all_valid(&c.depot) && c.depot.len() == 6
            && all_valid(&c.mines) && c.mines.len() == 4 && all_valid(&c.power) && c.power.len() == 4
            && all_valid(&c.gate) && c.gate.len() == 2 && all_valid(&c.complex) && c.complex.len() == 1 && all_valid(&c.probe) && c.probe.len() == 2;
        ledger_is_wf(&self.player.resources) && all_valid(&self.player.avail_upgrades) && self.exoplanet.is_valid()
            && self.drone_depot.is_valid() && self.asteroid_mines.is_valid() && self.power_plant.is_valid()
            && self.jumpgate.is_valid() && self.research_complex.is_valid() && catalog_ok && dialogue_ok
    }
}

} // verus!
