use exoplanet_idle::resources::{ledger_amount, ledger_collect, ledger_covers, ledger_remove, ledger_spend};
use exoplanet_idle::upgrade::purchase_from_list;
use exoplanet_idle::{CostFormula, Effect, InsufficientResources, Resources, Upgrade};

fn one(k: Resources, a: u64) -> Vec<(Resources, u64)> {
    vec![(k, a)]
}

#[test]
fn exponential_rounds_up() {
    let r = CostFormula::Exponential.calculate_cost(one(Resources::Research, 10), 2);
    assert_eq!(r, vec![(Resources::Research, 15)]);
    let r = CostFormula::Exponential.calculate_cost(one(Resources::Metals, 7), 10);
    assert_eq!(r, vec![(Resources::Metals, 44)]);
    let r = CostFormula::Exponential.calculate_cost(one(Resources::Power, 1), 3);
    assert_eq!(r, vec![(Resources::Power, 2)]);
}

#[test]
fn exponential_prestige_limits() {
    let base = one(Resources::Prestige, 200_000);
    assert_eq!(CostFormula::Exponential.calculate_cost(base.clone(), 0)[0].1, 200_000);
    assert_eq!(CostFormula::Exponential.calculate_cost(base.clone(), 1)[0].1, 240_000);
    assert_eq!(CostFormula::Exponential.calculate_cost(base.clone(), 5)[0].1, 497_664);
    assert_eq!(CostFormula::Exponential.calculate_cost(base, 6)[0].1, 597_197);
}

#[test]
fn exponential_saturates_at_the_cap() {
    let r = CostFormula::Exponential.calculate_cost(one(Resources::Research, 1), 300);
    assert_eq!(r[0].1, u64::MAX);
    let r = CostFormula::Exponential.calculate_cost(one(Resources::Research, 0), 300);
    assert_eq!(r[0].1, 0);
}

#[test]
fn exponential_never_falls_over_levels() {
    for base in [1u64, 3, 10, 999, 200_000, 123_456_789] {
        let mut last = 0u64;
        for level in 0..80u32 {
            let now = CostFormula::Exponential.calculate_cost(one(Resources::Metals, base), level)[0].1;
            assert!(now >= last, "base {} level {}", base, level);
            last = now;
        }
    }
}

#[test]
fn double_doubles_each_level() {
    for level in 0..40u32 {
        let a = CostFormula::Double.calculate_cost(one(Resources::Metals, 3), level)[0].1;
        let b = CostFormula::Double.calculate_cost(one(Resources::Metals, 3), level + 1)[0].1;
        assert_eq!(b, 2 * a);
    }
    assert_eq!(CostFormula::Double.calculate_cost(one(Resources::Metals, 3), 4)[0].1, 48);
    assert_eq!(CostFormula::Double.calculate_cost(one(Resources::Metals, 1), 64)[0].1, u64::MAX);
}

#[test]
fn flat_keeps_the_base_and_order() {
    let base = vec![(Resources::Research, 5), (Resources::Power, 9)];
    assert_eq!(CostFormula::Flat.calculate_cost(base.clone(), 7), base);
    let d = CostFormula::Double.calculate_cost(base, 1);
    assert_eq!(d, vec![(Resources::Research, 10), (Resources::Power, 18)]);
}

#[test]
fn ledger_collect_inserts_then_adds() {
    let mut l = vec![];
    ledger_collect(&mut l, Resources::Metals, 5);
    ledger_collect(&mut l, Resources::Metals, 7);
    ledger_collect(&mut l, Resources::Power, 1);
    assert_eq!(l, vec![(Resources::Metals, 12), (Resources::Power, 1)]);
    ledger_collect(&mut l, Resources::Power, u64::MAX);
    assert_eq!(ledger_amount(&l, Resources::Power), u64::MAX);
}

#[test]
fn ledger_remove_never_goes_negative() {
    let mut l = vec![(Resources::Research, 10), (Resources::Drones, 2)];
    ledger_remove(&mut l, Resources::Research, 10);
    assert_eq!(l, vec![(Resources::Research, 0), (Resources::Drones, 2)]);
    ledger_remove(&mut l, Resources::Drones, 3);
    assert_eq!(l, vec![(Resources::Research, 0)]);
    assert_eq!(ledger_amount(&l, Resources::Drones), 0);
    ledger_remove(&mut l, Resources::Power, 1);
    assert_eq!(l, vec![(Resources::Research, 0)]);
}

#[test]
fn ledger_random_walk_stays_consistent() {
    let kinds = [Resources::Research, Resources::Drones, Resources::Metals, Resources::Power, Resources::Prestige];
    let mut l: Vec<(Resources, u64)> = vec![];
    let mut model = [0u64; 5];
    let mut seed: u64 = 12345;
    for _ in 0..2000 {
        seed = seed.wrapping_mul(6364136223846793005).wrapping_add(1442695040888963407);
        let k = ((seed >> 33) % 5) as usize;
        let a = (seed >> 40) % 50;
        if (seed >> 20) % 2 == 0 {
            ledger_collect(&mut l, kinds[k], a);
            model[k] += a;
        } else {
            ledger_remove(&mut l, kinds[k], a);
            model[k] = if model[k] >= a { model[k] - a } else { 0 };
        }
        for i in 0..5 {
            assert_eq!(ledger_amount(&l, kinds[i]), model[i]);
        }
        for i in 0..l.len() {
            for j in 0..l.len() {
                if i != j {
                    assert_ne!(l[i].0, l[j].0);
                }
            }
        }
    }
}

#[test]
fn covers_needs_every_kind_present() {
    let l = vec![(Resources::Research, 10)];
    assert!(ledger_covers(&l, &vec![(Resources::Research, 10)]));
    assert!(!ledger_covers(&l, &vec![(Resources::Research, 11)]));
    assert!(!ledger_covers(&l, &vec![(Resources::Power, 0)]));
    assert!(ledger_covers(&vec![], &vec![]));
    assert!(!ledger_covers(&vec![], &vec![(Resources::Power, 0)]));
    let mut l = vec![(Resources::Research, 10), (Resources::Metals, 4)];
    ledger_spend(&mut l, &vec![(Resources::Metals, 4), (Resources::Research, 3)]);
    assert_eq!(l, vec![(Resources::Research, 7), (Resources::Metals, 0)]);
}

fn scanner() -> Upgrade {
    Upgrade::create("FIELD SCANNER", "scan", one(Resources::Research, 10), CostFormula::Double, 3, vec![], Effect::Scanner)
}

#[test]
fn purchase_pays_and_reprices() {
    let mut u = scanner();
    let mut l = vec![(Resources::Research, 100)];
    assert_eq!(u.purchase(&mut l), Ok(false));
    assert_eq!(l, vec![(Resources::Research, 90)]);
    assert_eq!(u.level, 1);
    assert_eq!(u.cost, vec![(Resources::Research, 20)]);
}

#[test]
fn purchase_without_funds_changes_nothing() {
    let mut u = scanner();
    let mut l = vec![(Resources::Research, 9)];
    assert_eq!(u.purchase(&mut l), Err(InsufficientResources {}));
    assert_eq!(l, vec![(Resources::Research, 9)]);
    assert_eq!(u.level, 0);
    let mut empty = vec![];
    assert!(u.purchase(&mut empty).is_err());
}

#[test]
fn max_level_purchases_then_no_effect() {
    let mut u = scanner();
    let mut l = vec![(Resources::Research, 1000)];
    assert_eq!(u.purchase(&mut l), Ok(false));
    assert_eq!(u.purchase(&mut l), Ok(false));
    assert_eq!(u.purchase(&mut l), Ok(true));
    assert_eq!(u.level, u.max_level);
    assert_eq!(l, vec![(Resources::Research, 1000 - 10 - 20 - 40)]);
    assert!(!u.purchasable(&l));
    assert!(u.purchase(&mut l).is_err());
    assert_eq!(l, vec![(Resources::Research, 930)]);
}

#[test]
fn next_level_signals_the_top() {
    let mut u = Upgrade::create("CONSTRUCT", "build", one(Resources::Metals, 1), CostFormula::Flat, 1, vec![], Effect::Construct);
    u.update(&vec![(Resources::Metals, 1)]);
    assert!(u.buyable);
    assert!(u.next_level());
    assert_eq!(u.level, 1);
    assert!(!u.buyable);
    assert!(!u.on_click(true, true));
}

#[test]
fn update_and_on_click_follow_affordability() {
    let mut u = scanner();
    u.update(&vec![(Resources::Research, 10)]);
    assert!(u.buyable);
    assert!(u.on_click(true, true));
    assert!(!u.on_click(false, true));
    u.update(&vec![(Resources::Research, 9)]);
    assert!(!u.buyable);
    assert!(!u.on_click(true, true));
}

#[test]
fn unlock_fans_out_once() {
    let templates = vec![
        Upgrade::create("DEPLOY", "d", one(Resources::Drones, 1), CostFormula::Flat, 5, vec![1], Effect::Deploy),
        Upgrade::create("ADV.", "a", one(Resources::Research, 100), CostFormula::Exponential, 10, vec![], Effect::DroneLevel),
    ];
    let mut list = vec![templates[0].duplicate()];
    let mut l = vec![(Resources::Drones, 3)];
    let first = purchase_from_list(&mut list, 0, &l, &templates).unwrap();
    assert_eq!(first.level, 0);
    assert_eq!(list.len(), 2);
    assert_eq!(list[1].name, "ADV.");
    assert!(list[0].unlocks.is_empty());
    assert!(purchase_from_list(&mut list, 0, &l, &templates).is_some());
    assert_eq!(list.len(), 2);
    assert_eq!(l, vec![(Resources::Drones, 3)]);
}

#[test]
fn maxed_entry_leaves_the_list() {
    let templates = vec![
        Upgrade::create("CONSTRUCT", "c", one(Resources::Research, 50), CostFormula::Flat, 1, vec![1], Effect::Construct),
        Upgrade::create("SHIP", "s", one(Resources::Research, 40), CostFormula::Exponential, 100, vec![], Effect::DroneShipment),
    ];
    let mut list = vec![templates[0].duplicate()];
    let l = vec![(Resources::Research, 50)];
    assert!(purchase_from_list(&mut list, 0, &l, &templates).is_some());
    assert_eq!(list.len(), 1);
    assert_eq!(list[0].name, "SHIP");
    let poor = vec![(Resources::Research, 30)];
    assert!(purchase_from_list(&mut list, 0, &poor, &templates).is_none());
    assert!(purchase_from_list(&mut list, 5, &l, &templates).is_none());
    assert_eq!(list[0].level, 0);
}

#[test]
fn player_upgrade_pays_or_changes_nothing() {
    let mut p = exoplanet_idle::Player::load(false, 0, 0, 0, vec![]);
    p.collect((Resources::Research, 10));
    let field = scanner();
    assert_eq!(p.upgrade(&field), Ok(()));
    assert_eq!(ledger_amount(&p.resources, Resources::Research), 0);
    assert_eq!(p.upgrade(&field), Err(InsufficientResources {}));
    assert_eq!(ledger_amount(&p.resources, Resources::Research), 0);
    let ship = Upgrade::create("DRONE SHIPMENT", "s", vec![(Resources::Research, 40)], CostFormula::Exponential, 100, vec![], Effect::DroneShipment);
    let before = p.resources.clone();
    assert!(p.upgrade(&ship).is_err());
    assert_eq!(p.resources, before);
    p.collect((Resources::Research, 45));
    assert_eq!(p.upgrade(&ship), Ok(()));
    assert_eq!(ledger_amount(&p.resources, Resources::Research), 5);
    assert_eq!(ledger_amount(&p.resources, Resources::Drones), 1);
}

#[test]
fn descriptions_and_labels() {
    assert_eq!(Resources::Research.description(), "RESEARCH. Scientific data about the Exoplanet.");
    assert_eq!(Resources::Prestige.label(), "PRESTIGE");
}
