use exoplanet_idle::drone::{DEPOT_CENTER, DEPOT_DOCK, MINES_DOCK, ORBIT_ENTRY, PLANT_CENTER};
use exoplanet_idle::resources::ledger_amount;
use exoplanet_idle::stations::fab_limit;
use exoplanet_idle::{
    AsteroidMines, Catalog, Drone, DroneDepot, DroneMode, Effect, Event, EventManager, Exoplanet, Player,
    PowerPlant, Resources, Upgrade, CostFormula,
};

fn effect(e: Effect) -> Upgrade {
    Upgrade::create("X", "x", vec![(Resources::Research, 1)], CostFormula::Flat, 5, vec![], e)
}

fn quiet_manager() -> EventManager {
    let mut em = EventManager::new();
    while em.dialogue.is_some() {
        em.update(true, None);
    }
    em.process_events();
    em
}

#[test]
fn follow_steps_then_snaps() {
    let mut d = Drone::new(DroneMode::Survey, 0, 0, (DEPOT_CENTER.0 + 3500, DEPOT_CENTER.1));
    assert!(!d.follow(10));
    assert_eq!(d.pos, (DEPOT_CENTER.0 + 1000, DEPOT_CENTER.1));
    assert!(!d.follow(10));
    assert!(d.follow(10));
    assert_eq!(d.pos, d.target_pos);
    let mut fast = Drone::new(DroneMode::Survey, 0, 100, (DEPOT_CENTER.0 + 10_000, DEPOT_CENTER.1 - 10_000));
    assert!(!fast.follow(10));
    assert_eq!(fast.pos, (DEPOT_CENTER.0 + 1414, DEPOT_CENTER.1 - 1414));
}

#[test]
fn survey_travels_then_cycles() {
    let mut d = Drone::new(DroneMode::Survey, 1, 800, ORBIT_ENTRY);
    let mut guard = 0;
    while !d.on_site && guard < 10_000 {
        assert!(!d.survey(10));
        guard += 1;
    }
    assert_eq!(d.pos, ORBIT_ENTRY);
    let mut yields = 0;
    for t in 1..=30 {
        if d.survey(10) {
            yields += 1;
            assert_eq!(t % 10, 0);
        }
        if t % 10 == 5 {
            assert!(d.scanned);
        }
    }
    assert_eq!(yields, 3);
}

#[test]
fn conduit_yields_every_interval() {
    let mut d = Drone::new(DroneMode::Conduit, 0, 0, PLANT_CENTER);
    d.pos = PLANT_CENTER;
    d.target_pos = PLANT_CENTER;
    assert!(!d.conduit());
    assert!(d.on_site);
    let mut yields = 0;
    for _ in 0..800 {
        if d.conduit() {
            yields += 1;
        }
    }
    assert_eq!(yields, 2);
}

#[test]
fn shipping_loads_at_mines_and_unloads_at_depot() {
    let mut d = Drone::new(DroneMode::Shipping, 2, 0, MINES_DOCK);
    d.pos = MINES_DOCK;
    let mut loaded = None;
    for _ in 0..400 {
        if let Some(r) = d.shipping() {
            loaded = Some(r);
            break;
        }
    }
    assert_eq!(loaded, Some((Resources::Metals, 32 + 24 * 2)));
    assert_eq!(d.cargo, Some(80));
    assert_eq!(d.target_pos, DEPOT_DOCK);
    d.pos = DEPOT_DOCK;
    assert_eq!(d.shipping(), None);
    assert!(d.on_site);
    let mut unloaded = vec![];
    for _ in 0..2000 {
        if let Some((_, a)) = d.shipping() {
            unloaded.push(a);
        }
        if !d.on_site {
            break;
        }
    }
    assert_eq!(unloaded, vec![18, 18, 18, 18, 18]);
    assert_eq!(d.cargo, None);
    assert_eq!(d.target_pos, MINES_DOCK);
}

#[test]
fn mining_drills_eligible_asteroid_and_returns() {
    let rock = (7u32, (100_000i64, 10_000i64));
    let eligible = vec![rock];
    let mut d = Drone::new(DroneMode::Mining, 0, 0, (100_000, 10_000));
    assert!(!d.update_mining(&eligible, 0));
    assert_eq!(d.asteroid_id, Some(7));
    let mut produced = 0;
    for _ in 0..20_000 {
        if d.update_mining(&eligible, 0) {
            produced += 1;
            break;
        }
    }
    assert_eq!(produced, 1);
    assert_eq!(d.cargo, None);
    assert_eq!(d.asteroid_id, Some(7));
}

#[test]
fn mining_waits_without_eligible_asteroids() {
    let mut d = Drone::new(DroneMode::Mining, 0, 0, (100_000, 10_000));
    for _ in 0..100 {
        assert!(!d.update_mining(&vec![], 3));
    }
    assert_eq!(d.asteroid_id, None);
    assert_eq!(d.timer, 0);
}

#[test]
fn level_and_speed_upgrades_touch_every_drone() {
    let catalog = Catalog::load();
    let mut em = quiet_manager();
    let mut ex = Exoplanet::load(&catalog);
    ex.upgrade(&effect(Effect::Deploy), &mut em);
    ex.upgrade(&effect(Effect::Deploy), &mut em);
    ex.upgrade(&effect(Effect::DroneLevel), &mut em);
    assert_eq!(ex.station.drone_eff, 18);
    assert!(ex.drones.iter().all(|d| d.level == 2));
    ex.upgrade(&effect(Effect::DroneSpeed), &mut em);
    assert_eq!(ex.station.drone_speed, 760);
    assert!(ex.drones.iter().all(|d| d.speed == 801));
    ex.unassign_drone();
    assert_eq!(ex.drones.len(), 1);
    assert_eq!(em.pending_events(), vec![Event::MinesUnlockable]);
}

#[test]
fn mines_pay_metals_once_built() {
    let catalog = Catalog::load();
    let mut em = quiet_manager();
    let mut mines = AsteroidMines::load();
    mines.handle_event(Event::MinesUnlockable, &catalog);
    assert!(mines.unlockable);
    assert_eq!(mines.avail_upgrades.len(), 1);
    mines.upgrade(&effect(Effect::Construct), &mut em);
    mines.upgrade(&effect(Effect::Deploy), &mut em);
    mines.upgrade(&effect(Effect::Deploy), &mut em);
    assert_eq!(em.pending_events(), vec![Event::PowerPlantUnlockable]);
    mines.upgrade(&effect(Effect::DroneLevel), &mut em);
    let mut p = Player::load(false, 0, 0, 0, vec![]);
    let eligible = vec![(1u32, (175_000i64, 0i64))];
    for _ in 0..20_000 {
        mines.update(&mut p, &eligible, 0);
    }
    let metals = ledger_amount(&p.resources, Resources::Metals);
    assert!(metals > 0);
    assert_eq!(metals % (15 + 18), 0);
}

#[test]
fn power_plant_chain() {
    let catalog = Catalog::load();
    let mut em = quiet_manager();
    let mut plant = PowerPlant::load();
    plant.handle_event(Event::PowerPlantUnlockable, &catalog);
    plant.upgrade(&effect(Effect::Construct), &mut em);
    plant.upgrade(&effect(Effect::Deploy), &mut em);
    plant.upgrade(&effect(Effect::Deploy), &mut em);
    assert_eq!(em.pending_events(), vec![Event::UnlockPowerPlant, Event::LateGame]);
    let mut p = Player::load(false, 0, 0, 0, vec![]);
    for _ in 0..5_000 {
        plant.update(&mut p);
    }
    let power = ledger_amount(&p.resources, Resources::Power);
    assert!(power > 0);
    assert_eq!(power % 12, 0);
}

#[test]
fn fabricator_turns_metals_into_drones() {
    let catalog = Catalog::load();
    let mut em = quiet_manager();
    let mut depot = DroneDepot::load();
    depot.handle_event(Event::DroneDepotUnlockable, &catalog);
    depot.upgrade(&effect(Effect::Construct), &mut em, &catalog);
    assert_eq!(em.pending_events(), vec![Event::UnlockDroneDepot]);
    depot.upgrade(&effect(Effect::ConstructFabricator), &mut em, &catalog);
    assert_eq!(depot.fab_upgrades.len(), 2);
    depot.handle_event(Event::UnlockPowerPlant, &catalog);
    assert_eq!(depot.fab_upgrades.len(), 3);
    let mut p = Player::load(false, 0, 0, 0, vec![]);
    assert!(!depot.feed_fabricator(499, &mut p));
    assert!(depot.feed_fabricator(1, &mut p));
    assert_eq!(ledger_amount(&p.resources, Resources::Drones), 1);
    assert_eq!(depot.fab_level, 1);
    assert_eq!(depot.fab_limit, 600);
    assert_eq!(fab_limit(2), 720);
    assert_eq!(depot.fab_prog, 0);
}

#[test]
fn depot_drones_pay_for_loads() {
    let catalog = Catalog::load();
    let mut em = quiet_manager();
    let mut depot = DroneDepot::load();
    depot.upgrade(&effect(Effect::Deploy), &mut em, &catalog);
    let mut p = Player::load(false, 0, 0, 0, vec![]);
    p.collect((Resources::Metals, 1000));
    for _ in 0..5_000 {
        depot.update(&mut p);
    }
    let left = ledger_amount(&p.resources, Resources::Metals);
    assert!(left < 1000);
    assert_eq!((1000 - left) % 32, 0);
    assert!(depot.fab_prog > 0 || depot.fab_level > 0);
}
