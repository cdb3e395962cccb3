use exoplanet_idle::ui::{rgba_to_u32, u32_to_rgba};
use exoplanet_idle::{Bounds, Event, EventManager, Global, PopUp, Resources, CostFormula, Effect, Upgrade};

fn no_dialogue() -> EventManager {
    let mut em = EventManager::new();
    while em.dialogue.is_some() {
        em.update(true, None);
    }
    em.process_events();
    em
}

#[test]
fn colour_packing_round_trips() {
    assert_eq!(rgba_to_u32(0x1f, 0x12, 0x2b, 0xff), 0x1f122bff);
    assert_eq!(u32_to_rgba(0x847e87ff), (0x84, 0x7e, 0x87, 0xff));
    assert_eq!(u32_to_rgba(rgba_to_u32(1, 2, 3, 4)), (1, 2, 3, 4));
}

#[test]
fn settings_menu_toggles() {
    let mut g = Global::new();
    let mut em = no_dialogue();
    assert!(g.update((5, 5), true, true, &mut em));
    assert!(g.options);
    let music_at = (g.music_toggle.bounds.x + 1, g.music_toggle.bounds.y + 1);
    assert!(!g.update(music_at, true, true, &mut em));
    assert!(!g.music);
    let save_at = (g.save_button.bounds.x + 1, g.save_button.bounds.y + 1);
    g.update(save_at, true, true, &mut em);
    assert_eq!(em.pending_events(), vec![Event::SaveGame]);
    let reset_at = (g.reset_button.bounds.x + 1, g.reset_button.bounds.y + 1);
    g.update(reset_at, true, true, &mut em);
    assert_eq!(em.pending_events(), vec![Event::SaveGame, Event::ResetGame]);
    assert!(!g.options);
    g.update((300, 300), true, true, &mut em);
    assert!(!g.options);
    assert!(!g.info);
    g.update((27, 1), true, true, &mut em);
    assert!(g.info);
    g.update((300, 300), true, true, &mut em);
    assert!(!g.info);
}

#[test]
fn pop_up_panels() {
    let mut p = PopUp::new("EXOPLANET".to_string(), Resources::Research);
    assert_eq!(p.hitbox, Bounds::new(-336, -320, 224, 106));
    assert_eq!(p.panel, Bounds::new(-326, -310, 204, 86));
    assert!(p.hovered((-300, -300)));
    assert!(!p.hovered((0, 0)));
    assert!(!p.inspecting((-300, -300)));
    let f = PopUp::new_fab("JUMPGATE".to_string(), Resources::Prestige);
    assert_eq!(f.hitbox.h, 130);
    assert!(f.fab);
    let offers = vec![
        Upgrade::create("A", "a", vec![(Resources::Research, 1)], CostFormula::Flat, 1, vec![], Effect::Probe),
        Upgrade::create("B", "b", vec![(Resources::Research, 1), (Resources::Metals, 2)], CostFormula::Flat, 1, vec![], Effect::Probe),
    ];
    p.resize(&offers);
    assert_eq!(p.hitbox.h, 48 + 3 * 20);
    p.resize(&vec![]);
    assert_eq!(p.hitbox.h, 68);
}
