use exoplanet_idle::events::cutscene;
use exoplanet_idle::{Dialogue, DialogueBox, Event, EventManager};

fn dismiss(em: &mut EventManager) {
    let mut guard = 0;
    while em.dialogue.is_some() && guard < 20 {
        em.update(true, None);
        guard += 1;
    }
    assert!(em.dialogue.is_none());
    assert_eq!(em.process_events(), None);
}

#[test]
fn opening_cutscene_is_active() {
    let em = EventManager::new();
    let d = em.dialogue.as_ref().unwrap();
    assert_eq!(d.messages.len(), 3);
    assert_eq!(d.d_box.message, "Exoplanet detected!");
    assert_eq!(d.d_box.camera_target, Some((320, 240)));
    assert!(em.pending_events().is_empty());
}

#[test]
fn trigger_only_queues() {
    let mut em = EventManager::new();
    dismiss(&mut em);
    em.trigger(Event::SaveGame);
    em.trigger(Event::UnlockPowerPlant);
    assert_eq!(em.pending_events(), vec![Event::SaveGame, Event::UnlockPowerPlant]);
    assert_eq!(em.process_events(), Some(Event::SaveGame));
    assert_eq!(em.pending_events(), vec![Event::UnlockPowerPlant]);
    assert_eq!(em.process_events(), Some(Event::UnlockPowerPlant));
    assert_eq!(em.process_events(), None);
}

#[test]
fn milestone_opens_its_cutscene_and_waits() {
    let mut em = EventManager::new();
    dismiss(&mut em);
    em.trigger(Event::MinesUnlockable);
    assert_eq!(em.process_events(), None);
    let d = em.dialogue.as_ref().unwrap();
    assert_eq!(d.event_broadcast, 2);
    assert_eq!(d.messages.len(), 4);
    assert_eq!(em.pending_events(), vec![Event::MinesUnlockable]);
    em.update(true, None);
    assert_eq!(em.process_events(), None);
    em.update(true, None);
    assert_eq!(em.process_events(), Some(Event::MinesUnlockable));
    assert!(em.pending_events().is_empty());
    assert!(em.dialogue.is_some());
    em.update(true, None);
    em.update(true, None);
    assert!(em.dialogue.is_none());
}

#[test]
fn gated_event_dispatches_once_after_dialogue() {
    let mut em = EventManager::new();
    dismiss(&mut em);
    let mut d = cutscene(2);
    em.dialogue = Some(d.start());
    em.events = vec![Event::SaveGame];
    assert_eq!(em.process_events(), None);
    assert_eq!(em.pending_events(), vec![Event::SaveGame]);
    for _ in 0..4 {
        em.update(true, None);
    }
    assert!(em.dialogue.is_none());
    assert_eq!(em.process_events(), Some(Event::SaveGame));
    assert_eq!(em.process_events(), None);
}

#[test]
fn dialogue_next_walks_messages_and_waypoints() {
    let mut d = cutscene(1);
    let mut started = d.start();
    assert_eq!(started.d_box.message, "Significant RESEARCH gathered from research probe!");
    assert!(started.next());
    assert_eq!(started.event_broadcast, 0);
    assert_eq!(started.d_box.message, "Authorizing construction of DRONE DEPOT.");
    assert_eq!(started.d_box.camera_target, Some((160, 304)));
    assert!(started.next());
    assert!(!started.next());
    assert!(started.messages.is_empty());
    assert!(!started.next());
}

#[test]
fn prompt_waits_for_a_choice() {
    let mut d = cutscene(6);
    let mut p = d.start();
    assert!(p.d_box.prompt);
    assert!(p.update(true, None));
    assert_eq!(p.event_broadcast, 1);
    assert!(p.update(false, Some(true)));
    assert_eq!(p.event_broadcast, 0);
    assert!(!p.update(false, Some(false)));
}

#[test]
fn dialogue_box_shows_message() {
    let mut b = DialogueBox::new();
    assert!(b.message.is_empty());
    b.set_message("hello".to_string());
    assert_eq!(b.message, "hello");
    assert_eq!(b.typed_message, "hello");
}

#[test]
fn every_cutscene_has_messages() {
    let sizes = [3usize, 3, 4, 4, 4, 2, 1, 3];
    for i in 0..8 {
        let d: Dialogue = cutscene(i);
        assert_eq!(d.messages.len(), sizes[i]);
    }
}

#[test]
fn panel_tap_and_prompt_buttons() {
    let mut b = DialogueBox::new();
    assert!(b.update((230, 330), true));
    assert!(!b.update((230, 330), false));
    assert!(!b.update((10, 10), true));
    assert_eq!(b.prompt((300, 360), true, true), Some(true));
    assert_eq!(b.prompt((360, 360), true, true), Some(false));
    assert_eq!(b.prompt((230, 330), true, true), None);
}
