use exoplanet_idle::resources::ledger_amount;
use exoplanet_idle::player::prestige_limit;
use exoplanet_idle::{Event, GameState, Outcome, Player, Resources, TickInput};

fn fresh() -> GameState {
    let mut g = GameState::new(false, 0, 0, 0, vec![]);
    let mut guard = 0;
    while g.event_manager.dialogue.is_some() && guard < 20 {
        g.event_manager.update(true, None);
        guard += 1;
    }
    assert_eq!(g.process_events(), Outcome::Continue);
    g
}

fn click_planet(g: &mut GameState, now: u64) {
    g.exoplanet.update(&mut g.player, &g.event_manager, true, true, false, now);
}

#[test]
fn manual_scans_then_field_scanner() {
    let mut g = fresh();
    for i in 1..=10u64 {
        click_planet(&mut g, 20 * i);
    }
    assert_eq!(ledger_amount(&g.player.resources, Resources::Research), 10);
    assert!(g.exoplanet.buy(0, &mut g.player, &mut g.event_manager, &g.catalog));
    assert_eq!(ledger_amount(&g.player.resources, Resources::Research), 0);
    assert_eq!(g.exoplanet.scanner_level, 2);
}

#[test]
fn manual_scan_respects_cooldown() {
    let mut g = fresh();
    click_planet(&mut g, 20);
    click_planet(&mut g, 30);
    assert_eq!(ledger_amount(&g.player.resources, Resources::Research), 1);
    g.exoplanet.update(&mut g.player, &g.event_manager, true, false, true, 60);
    assert_eq!(ledger_amount(&g.player.resources, Resources::Research), 1);
    assert!(!g.exoplanet.collecting);
}

#[test]
fn first_deploy_queues_mines_milestone_once() {
    let mut g = fresh();
    g.exoplanet.handle_event(Event::UnlockDroneDepot, &g.catalog);
    g.player.collect((Resources::Drones, 3));
    for _ in 0..3 {
        assert!(g.exoplanet.buy(1, &mut g.player, &mut g.event_manager, &g.catalog));
    }
    assert_eq!(g.exoplanet.drones.len(), 3);
    assert_eq!(g.event_manager.pending_events(), vec![Event::MinesUnlockable]);
    assert_eq!(ledger_amount(&g.player.resources, Resources::Drones), 0);
}

#[test]
fn third_scanner_level_raises_depot_milestone() {
    let mut g = fresh();
    g.player.collect((Resources::Research, 1000));
    assert!(g.exoplanet.buy(0, &mut g.player, &mut g.event_manager, &g.catalog));
    assert!(g.event_manager.pending_events().is_empty());
    assert!(g.exoplanet.buy(0, &mut g.player, &mut g.event_manager, &g.catalog));
    assert_eq!(g.exoplanet.scanner_level, 3);
    assert_eq!(g.event_manager.pending_events(), vec![Event::DroneDepotUnlockable]);
    assert_eq!(ledger_amount(&g.player.resources, Resources::Research), 1000 - 10 - 20);
}

#[test]
fn no_purchase_during_dialogue() {
    let mut g = GameState::new(false, 0, 0, 0, vec![]);
    g.player.collect((Resources::Research, 100));
    assert!(!g.exoplanet.buy(0, &mut g.player, &mut g.event_manager, &g.catalog));
    assert_eq!(g.exoplanet.scanner_level, 1);
}

fn reset_prompt(g: &mut GameState) {
    g.event_manager.trigger(Event::ResetGame);
    assert_eq!(g.process_events(), Outcome::Continue);
    let d = g.event_manager.dialogue.as_ref().unwrap();
    assert!(d.prompt);
}

#[test]
fn reset_cancel_keeps_everything() {
    let mut g = fresh();
    g.player.collect((Resources::Metals, 77));
    g.player.prestige_index = 3;
    reset_prompt(&mut g);
    g.event_manager.update(false, Some(false));
    assert!(g.event_manager.dialogue.is_none());
    assert_eq!(g.process_events(), Outcome::Continue);
    assert!(g.event_manager.pending_events().is_empty());
    assert_eq!(g.player.prestige_index, 3);
    assert_eq!(ledger_amount(&g.player.resources, Resources::Metals), 77);
    assert_eq!(g.process_events(), Outcome::Continue);
    assert!(g.event_manager.dialogue.is_none());
}

#[test]
fn reset_confirm_rebuilds_everything() {
    let mut g = fresh();
    g.player.collect((Resources::Metals, 77));
    g.player.prestige_index = 3;
    g.exoplanet.handle_event(Event::UnlockDroneDepot, &g.catalog);
    reset_prompt(&mut g);
    g.event_manager.update(false, Some(true));
    assert_eq!(g.process_events(), Outcome::Reset);
    assert_eq!(g.player.prestige_index, 0);
    assert_eq!(g.player.resources, vec![(Resources::Prestige, 0)]);
    assert_eq!(g.exoplanet.avail_upgrades.len(), 1);
    assert!(g.event_manager.dialogue.is_some());
}

#[test]
fn prestige_rollover_on_collect() {
    let mut p = Player::load(false, 0, 0, 0, vec![]);
    p.prestige_prog = p.prestige_limit - 1;
    p.collect((Resources::Power, 1));
    p.check_prestige();
    assert_eq!(p.prestige_earned, 1);
    assert_eq!(p.prestige_index, 1);
    assert_eq!(p.prestige_prog, 0);
    assert_eq!(p.prestige_limit, 240_000);
    assert_eq!(prestige_limit(1), 240_000);
}

#[test]
fn no_rollover_below_limit() {
    let mut p = Player::load(false, 0, 0, 0, vec![]);
    p.prestige_prog = p.prestige_limit - 2;
    p.collect((Resources::Research, 1));
    p.check_prestige();
    assert_eq!(p.prestige_earned, 0);
    assert_eq!(p.prestige_prog, 199_999);
}

#[test]
fn end_game_carries_prestige_over() {
    let mut g = fresh();
    g.player.collect((Resources::Prestige, 4));
    g.player.prestige_earned = 2;
    g.player.prestige_index = 5;
    g.player.prestige_prog = 1234;
    let mut d = exoplanet_idle::events::cutscene(7);
    g.event_manager.dialogue = Some(d.start());
    g.event_manager.dialogue.as_mut().unwrap().event_broadcast = 0;
    g.event_manager.trigger(Event::EndGame);
    assert_eq!(g.process_events(), Outcome::Prestige);
    assert!(g.player.prestiged);
    assert_eq!(g.player.resources, vec![(Resources::Prestige, 6)]);
    assert_eq!(g.player.prestige_index, 5);
    assert_eq!(g.player.prestige_prog, 1234);
    assert_eq!(g.player.prestige_limit, prestige_limit(5));
}

#[test]
fn prestige_event_starts_the_jump() {
    let mut g = fresh();
    g.event_manager.trigger(Event::Prestige);
    assert_eq!(g.process_events(), Outcome::Continue);
    assert!(!g.player.jumping);
    assert_eq!(g.event_manager.dialogue.as_ref().unwrap().event_broadcast, 2);
    assert_eq!(g.process_events(), Outcome::Continue);
    assert!(!g.player.jumping);
    g.event_manager.update(true, None);
    g.event_manager.update(true, None);
    assert_eq!(g.process_events(), Outcome::Continue);
    assert!(g.player.jumping);
    assert_eq!(g.player.avail_upgrades.len(), 2);
    for _ in 0..150 {
        g.player.jump(&mut g.event_manager);
    }
    assert_eq!(g.event_manager.pending_events(), vec![Event::EndGame]);
}

#[test]
fn tick_runs_a_whole_step() {
    let mut g = GameState::new(false, 0, 0, 0, vec![]);
    let mut input = TickInput {
        now: 1,
        over_planet: false,
        just_pressed: false,
        released: false,
        tapped: true,
        choice: None,
        eligible: vec![],
        pick: 0,
    };
    for t in 1..=3u64 {
        input.now = t;
        assert_eq!(g.tick(&input), Outcome::Continue);
    }
    assert!(g.event_manager.dialogue.is_none());
    input.tapped = false;
    input.over_planet = true;
    input.just_pressed = true;
    input.now = 40;
    g.tick(&input);
    assert_eq!(ledger_amount(&g.player.resources, Resources::Research), 1);
}

#[test]
fn restored_state_is_checked() {
    let mut g = fresh();
    assert!(g.is_valid());
    g.player.resources.push((Resources::Prestige, 3));
    assert!(!g.is_valid());
    let mut g = fresh();
    g.exoplanet.avail_upgrades[0].cost = vec![(Resources::Research, 11)];
    assert!(!g.is_valid());
    let mut g = fresh();
    g.drone_depot.fab_limit = 7;
    assert!(!g.is_valid());
    let mut g = fresh();
    g.exoplanet.station.drone_speed = 0;
    assert!(!g.is_valid());
}

#[test]
fn late_game_offers_the_research_complex() {
    let mut g = fresh();
    assert_eq!(g.dispatch(Event::LateGame), Outcome::Continue);
    assert!(g.research_complex.unlockable);
    assert!(g.jumpgate.unlockable);
    assert_eq!(g.research_complex.avail_upgrades.len(), 1);
    g.player.collect((Resources::Research, 6000));
    assert!(g.research_complex.buy(0, &mut g.player, &g.event_manager, &g.catalog));
    assert!(g.research_complex.unlocked);
    assert!(g.research_complex.avail_upgrades.is_empty());
    assert_eq!(ledger_amount(&g.player.resources, Resources::Research), 1000);
}
