use vstd::prelude::*;
use crate::ui::{Bounds, Btn, contains};

verus! {

/// Milestone and control signals raised by stations and the menu.
#[derive(Debug, Clone, Copy, PartialEq, Eq, Structural)]
pub enum Event {
    StartGame,
    SaveGame,
    ResetGame,
    DroneDepotUnlockable,
    UnlockDroneDepot,
    MinesUnlockable,
    PowerPlantUnlockable,
    UnlockPowerPlant,
    LateGame,
    Prestige,
    EndGame,
}

/// The cutscene that an event opens when no dialogue is active, if any.
pub open spec fn cutscene_of(e: Event) -> Option<nat> {
    match e {
        Event::StartGame => Some(0),
        Event::DroneDepotUnlockable => Some(1),
        Event::MinesUnlockable => Some(2),
        Event::PowerPlantUnlockable => Some(3),
        Event::LateGame => Some(4),
        Event::Prestige => Some(7),
        Event::ResetGame => Some(6),
        Event::EndGame => Some(5),
        _ => None,
    }
}

/// How many messages a cutscene must be advanced past before its event is dispatched,
/// and whether it ends in a confirm/cancel prompt.
pub open spec fn cutscene_gate(i: nat) -> (i32, bool) {
    if i == 0 {
        (0, false)
    } else if i == 1 {
        (1, false)
    } else if i <= 4 {
        (2, false)
    } else if i == 5 {
        (0, false)
    } else if i == 6 {
        (1, true)
    } else {
        (2, false)
    }
}

/// The number of messages of each cutscene.
pub open spec fn cutscene_len(i: nat) -> nat {
    cutscene_text(i).len()
}

/// Whether one tick of input ends dialogue `d`: Cancel on a prompt, or a tap on the
/// last message of a plain dialogue.
pub open spec fn ends(d: Dialogue, tapped: bool, choice: Option<bool>) -> bool {
    if d.d_box.prompt {
        choice == Some(false)
    } else {
        tapped && d.messages@.len() <= 1
    }
}

/// The countdown of dialogue `d` after one tick of input that does not end it: a tap
/// on a plain dialogue or Confirm on a prompt counts it down.
pub open spec fn countdown_after(d: Dialogue, tapped: bool, choice: Option<bool>) -> i32 {
    if (!d.d_box.prompt && tapped) || (d.d_box.prompt && choice == Some(true)) {
        countdown(d.event_broadcast)
    } else {
        d.event_broadcast
    }
}

/// One less, held at `i32::MIN`.
pub open spec fn countdown(b: i32) -> i32 {
    if b > i32::MIN {
        (b - 1) as i32
    } else {
        b
    }
}

/// The panel that shows the current message of a dialogue.
#[derive(Debug)]
pub struct DialogueBox {
    pub panel: Bounds,
    pub message: String,
    pub typed_message: String,
    pub prompt: bool,
    /// Where the camera should pan to for the current message.
    pub camera_target: Option<(i32, i32)>,
    pub confirm: Btn,
    pub cancel: Btn,
}

impl DialogueBox {
    /// An empty panel at the bottom of the screen, with its Confirm and Cancel buttons.
    pub fn new() -> (r: DialogueBox)
        ensures
            r.panel == (Bounds { x: 224i32, y: 320i32, w: 192i32, h: 64i32 }),
            r.confirm.bounds == (Bounds { x: 296i32, y: 358i32, w: 48i32, h: 22i32 }),
            r.cancel.bounds == (Bounds { x: 352i32, y: 358i32, w: 48i32, h: 22i32 }),
            r.confirm.interactable && r.confirm.clickable,
            r.cancel.interactable && r.cancel.clickable,
            r.message@ == Seq::<char>::empty(),
            r.typed_message@ == Seq::<char>::empty(),
            !r.prompt,
            r.camera_target.is_none(),
    {
        DialogueBox {
            panel: Bounds::new(224, 320, 192, 64),
            message: String::new(),
            typed_message: String::new(),
            prompt: false,
            camera_target: None,
            confirm: Btn::new(String::from_str("CONFIRM"), Bounds::new(296, 358, 48, 22), true, 1),
            cancel: Btn::new(String::from_str("CANCEL"), Bounds::new(352, 358, 48, 22), true, 1),
        }
    }

    /// Whether the panel was tapped: the pointer `p` was just pressed on it.
    pub fn update(&self, p: (i32, i32), just_pressed: bool) -> (tapped: bool)
        ensures
            tapped == (contains(self.panel, p) && just_pressed),
    {
        self.panel.intersects_xy(p) && just_pressed
    }

    /// The choice made on a prompt under pointer `p`: Some(true) for Confirm, Some(false)
    /// for Cancel, None while neither is clicked.
    pub fn prompt(&mut self, p: (i32, i32), pressed: bool, just_pressed: bool) -> (r: Option<bool>)
        ensures
            r == if old(self).confirm.on_click_spec(p, just_pressed) {
                Some(true)
            } else if old(self).cancel.on_click_spec(p, just_pressed) {
                Some(false)
            } else {
                None::<bool>
            },
            final(self).message@ == old(self).message@,
            final(self).prompt == old(self).prompt,
            final(self).panel == old(self).panel,
    {
        let yes = self.confirm.on_click(p, just_pressed);
        let no = self.cancel.on_click(p, just_pressed);
        self.confirm.update(p, pressed);
        self.cancel.update(p, pressed);
        if yes {
            Some(true)
        } else if no {
            Some(false)
        } else {
            None
        }
    }

    /// Shows `message` on the panel.
    pub fn set_message(&mut self, message: String)
        ensures
            final(self).message@ == message@,
            final(self).typed_message@ == message@,
            final(self).prompt == old(self).prompt,
            final(self).camera_target == old(self).camera_target,
            final(self).panel == old(self).panel,
            final(self).confirm == old(self).confirm,
            final(self).cancel == old(self).cancel,
    {
        self.typed_message = message.clone();
        self.message = message;
    }

    fn duplicate(&self) -> (r: DialogueBox)
        ensures
            r.panel == self.panel,
            r.message@ == self.message@,
            r.typed_message@ == self.typed_message@,
            r.prompt == self.prompt,
            r.camera_target == self.camera_target,
            r.confirm.bounds == self.confirm.bounds,
            r.cancel.bounds == self.cancel.bounds,
    {
        DialogueBox {
            panel: self.panel,
            message: self.message.clone(),
            typed_message: self.typed_message.clone(),
            prompt: self.prompt,
            camera_target: self.camera_target,
            confirm: self.confirm.duplicate(),
            cancel: self.cancel.duplicate(),
        }
    }
}

/// A scripted sequence of messages. The event that opened it is dispatched once
/// `event_broadcast` messages have been passed (or, for a prompt, on Confirm).
#[derive(Debug)]
pub struct Dialogue {
    pub messages: Vec<String>,
    /// Camera waypoints, each with the number of messages left before it is reached.
    pub camera_pos: Vec<((i32, i32), i32)>,
    pub event_broadcast: i32,
    pub d_box: DialogueBox,
    pub prompt: bool,
}

/// Two dialogues with the same content.
pub open spec fn same_dialogue(a: Dialogue, b: Dialogue) -> bool {
    &&& texts(a.messages@) == texts(b.messages@)
    &&& a.camera_pos@ == b.camera_pos@
    &&& a.event_broadcast == b.event_broadcast
    &&& a.prompt == b.prompt
    &&& a.d_box.panel == b.d_box.panel
    &&& a.d_box.message@ == b.d_box.message@
    &&& a.d_box.typed_message@ == b.d_box.typed_message@
    &&& a.d_box.prompt == b.d_box.prompt
    &&& a.d_box.camera_target == b.d_box.camera_target
    &&& a.d_box.confirm.bounds == b.d_box.confirm.bounds
    &&& a.d_box.cancel.bounds == b.d_box.cancel.bounds
}

/// The countdown and prompt flag of the active dialogue, if any.
pub open spec fn gate(d: Option<Dialogue>) -> Option<(i32, bool)> {
    match d {
        Some(x) => Some((x.event_broadcast, x.prompt)),
        None => None,
    }
}

fn copy_waypoints(v: &Vec<((i32, i32), i32)>) -> (r: Vec<((i32, i32), i32)>)
    ensures
        r@ == v@,
{
    let mut out: Vec<((i32, i32), i32)> = Vec::new();
    let n = v.len();
    let mut i: usize = 0;
    while i < n
        invariant
            n == v@.len(),
            i <= n,
            out@ =~= v@.subrange(0, i as int),
        decreases n - i,
    {
        out.push(v[i]);
        i = i + 1;
    }
    assert(out@ =~= v@);
    out
}

fn copy_strings(v: &Vec<String>) -> (r: Vec<String>)
    ensures
        r@.len() == v@.len(),
        forall|i: int| 0 <= i < v@.len() ==> #[trigger] r@[i]@ == v@[i]@,
{
    let mut out: Vec<String> = Vec::new();
    let n = v.len();
    let mut i: usize = 0;
    while i < n
        invariant
            n == v@.len(),
            i <= n,
            out@.len() == i,
            forall|j: int| 0 <= j < i ==> #[trigger] out@[j]@ == v@[j]@,
        decreases n - i,
    {
        out.push(v[i].clone());
        i = i + 1;
    }
    out
}

impl Dialogue {
    /// Shows the first message, pans to the waypoints due now, and returns a copy of
    /// the started dialogue.
    pub fn start(&mut self) -> (r: Dialogue)
        requires
            old(self).messages@.len() > 0,
        ensures
            final(self).messages@ == old(self).messages@,
            final(self).camera_pos@ == old(self).camera_pos@,
            final(self).event_broadcast == old(self).event_broadcast,
            final(self).prompt == old(self).prompt,
            final(self).d_box.message@ == old(self).messages@[0]@,
            final(self).d_box.typed_message@ == old(self).messages@[0]@,
            final(self).d_box.prompt == old(self).prompt,
            final(self).d_box.camera_target == due(old(self).camera_pos@, old(self).d_box.camera_target),
            final(self).d_box.panel == old(self).d_box.panel,
            final(self).d_box.confirm.bounds == old(self).d_box.confirm.bounds,
            final(self).d_box.cancel.bounds == old(self).d_box.cancel.bounds,
            same_dialogue(r, *final(self)),
    {
        let first = self.messages[0].clone();
        self.d_box.set_message(first);
        let n = self.camera_pos.len();
        let mut i: usize = 0;
        assert(self.camera_pos@.subrange(0, 0) =~= Seq::<((i32, i32), i32)>::empty());
        while i < n
            invariant
                n == self.camera_pos@.len(),
                i <= n,
                self.messages@ == old(self).messages@,
                self.camera_pos@ == old(self).camera_pos@,
                self.event_broadcast == old(self).event_broadcast,
                self.prompt == old(self).prompt,
                self.d_box.message@ == old(self).messages@[0]@,
                self.d_box.typed_message@ == old(self).messages@[0]@,
                self.d_box.panel == old(self).d_box.panel,
                self.d_box.confirm.bounds == old(self).d_box.confirm.bounds,
                self.d_box.cancel.bounds == old(self).d_box.cancel.bounds,
                self.d_box.camera_target == due(self.camera_pos@.subrange(0, i as int), old(self).d_box.camera_target),
            decreases n - i,
        {
            let ghost pre = self.camera_pos@.subrange(0, i as int);
            let ghost post = self.camera_pos@.subrange(0, i as int + 1);
            assert(post.drop_last() =~= pre);
            assert(post.last() == self.camera_pos@[i as int]);
            if self.camera_pos[i].1 == 0 {
                self.d_box.camera_target = Some(self.camera_pos[i].0);
            }
            i = i + 1;
        }
        assert(self.camera_pos@.subrange(0, n as int) =~= self.camera_pos@);
        self.d_box.prompt = self.prompt;
        let messages = copy_strings(&self.messages);
        assert(texts(messages@) =~= texts(self.messages@));
        Dialogue {
            messages,
            camera_pos: copy_waypoints(&self.camera_pos),
            event_broadcast: self.event_broadcast,
            d_box: self.d_box.duplicate(),
            prompt: self.prompt,
        }
    }

    /// Passes the current message. Returns false when no message is left: the dialogue
    /// is over. Each pass counts `event_broadcast` down and moves the waypoints one
    /// message closer.
    pub fn next(&mut self) -> (r: bool)
        ensures
            old(self).messages@.len() == 0 ==> !r && final(self).messages@ == old(self).messages@
                && final(self).event_broadcast == old(self).event_broadcast,
            old(self).messages@.len() > 0 ==> final(self).messages@ == old(self).messages@.drop_first()
                && final(self).event_broadcast == countdown(old(self).event_broadcast)
                && r == (old(self).messages@.len() > 1),
            r ==> final(self).d_box.message@ == final(self).messages@[0]@,
            final(self).prompt == old(self).prompt,
            final(self).d_box.prompt == old(self).d_box.prompt,
            final(self).camera_pos@.len() == old(self).camera_pos@.len(),
            r ==> forall|i: int| 0 <= i < old(self).camera_pos@.len() ==> #[trigger] final(self).camera_pos@[i] == (
                old(self).camera_pos@[i].0,
                countdown(old(self).camera_pos@[i].1),
            ),
            !r ==> final(self).camera_pos@ == old(self).camera_pos@,
    {
        if self.messages.len() == 0 {
            return false;
        }
        self.messages.remove(0);
        if self.event_broadcast > i32::MIN {
            self.event_broadcast = self.event_broadcast - 1;
        }
        if self.messages.len() == 0 {
            return false;
        }
        let current = self.messages[0].clone();
        self.d_box.set_message(current);
        let n = self.camera_pos.len();
        let mut i: usize = 0;
        while i < n
            invariant
                n == self.camera_pos@.len(),
                i <= n,
                self.messages@ == old(self).messages@.drop_first(),
                self.messages@.len() > 0,
                self.event_broadcast == countdown(old(self).event_broadcast),
                self.prompt == old(self).prompt,
                self.d_box.prompt == old(self).d_box.prompt,
                self.d_box.message@ == self.messages@[0]@,
                n == old(self).camera_pos@.len(),
                forall|j: int| 0 <= j < i ==> #[trigger] self.camera_pos@[j] == (
                    old(self).camera_pos@[j].0,
                    countdown(old(self).camera_pos@[j].1),
                ),
                forall|j: int| i <= j < n ==> #[trigger] self.camera_pos@[j] == old(self).camera_pos@[j],
            decreases n - i,
        {
            let (pos, left) = self.camera_pos[i];
            let now: i32 = if left > i32::MIN {
                left - 1
            } else {
                left
            };
            self.camera_pos.set(i, (pos, now));
            if now == 0 {
                self.d_box.camera_target = Some(pos);
            }
            i = i + 1;
        }
        true
    }

    /// One tick of the dialogue's input. A plain dialogue passes its message on a tap; a
    /// prompt counts down on Confirm and ends on Cancel. Returns false when it is over.
    pub fn update(&mut self, tapped: bool, choice: Option<bool>) -> (r: bool)
        ensures
            !old(self).d_box.prompt && tapped ==> r == (old(self).messages@.len() > 1),
            !old(self).d_box.prompt && tapped && old(self).messages@.len() > 0 ==> final(self).messages@
                == old(self).messages@.drop_first() && final(self).event_broadcast == countdown(old(self).event_broadcast),
            !old(self).d_box.prompt && !tapped ==> r && final(self).messages@ == old(self).messages@
                && final(self).event_broadcast == old(self).event_broadcast,
            old(self).d_box.prompt ==> final(self).messages@ == old(self).messages@,
            old(self).d_box.prompt ==> r == (choice != Some(false)),
            old(self).d_box.prompt ==> final(self).event_broadcast == if choice == Some(true) {
                countdown(old(self).event_broadcast)
            } else {
                old(self).event_broadcast
            },
            final(self).prompt == old(self).prompt,
            final(self).d_box.prompt == old(self).d_box.prompt,
    {
        if !self.d_box.prompt {
            if tapped {
                return self.next();
            }
        } else {
            match choice {
                Some(true) => {
                    if self.event_broadcast > i32::MIN {
                        self.event_broadcast = self.event_broadcast - 1;
                    }
                },
                Some(false) => {
                    return false;
                },
                None => {},
            }
        }
        true
    }
}

/// The message texts of a list of strings.
pub open spec fn texts(v: Seq<String>) -> Seq<Seq<char>> {
    v.map_values(|m: String| m@)
}

/// The target of the last waypoint in `ws` that is due now, else `t`.
pub open spec fn due(ws: Seq<((i32, i32), i32)>, t: Option<(i32, i32)>) -> Option<(i32, i32)>
    decreases ws.len(),
{
    if ws.len() == 0 {
        t
    } else if ws.last().1 == 0 {
        Some(ws.last().0)
    } else {
        due(ws.drop_last(), t)
    }
}

/// The messages of cutscene `i`.
pub open spec fn cutscene_text(i: nat) -> Seq<Seq<char>> {
    if i == 0 {
        seq!["Exoplanet detected!"@, "Sending autonomous research probe to Exoplanet..."@, "Scan the Exoplanet to gather scientific RESEARCH and report back."@]
    } else if i == 1 {
        seq!["Significant RESEARCH gathered from research probe!"@, "Authorizing construction of DRONE DEPOT."@, "Establish a hub for additional autonomous workers and deploy them to gather RESEARCH."@]
    } else if i == 2 {
        seq!["Automated RESEARCH production initiated."@, "New scans revealed nearby mineral rich asteroid belt!"@, "Authorizing construction of ASTEROID MINES."@, "Gather METALS from the asteroids to build advanced tech."@]
    } else if i == 3 {
        seq!["Automated METALS production initiated."@, "Further scans have revealed nearby nebula storm."@, "Authorizing construction of POWER PLANT."@, "Harvest POWER from the storm to amplify other stations."@]
    } else if i == 4 {
        seq!["Automated POWER production initiated."@, "Sector self-sufficiency achieved. Final stage of exoplanet observation."@, "Authorizing construction of JUMPGATE."@, "Use the JUMPGATE to leave this sector and start again in a new sector."@]
    } else if i == 5 {
        seq!["Jumpgate initiated. Prepare for imminent jump."@, "Good work, researcher. There's more work in the next sector!"@]
    } else if i == 6 {
        seq!["Reset all your progress and start the game over?"@]
    } else {
        seq!["Thank you for playing. This is the end of the demo."@, "Play again?"@, ""@]
    }
}

/// The camera waypoints of cutscene `i`, each with the messages left before it is due.
pub open spec fn cutscene_waypoints(i: nat) -> Seq<((i32, i32), i32)> {
    if i == 0 {
        seq![((320i32, 240i32), 0i32), ((320i32, 296i32), 2i32)]
    } else if i == 1 {
        seq![((320i32, 200i32), 0i32), ((160i32, 304i32), 1i32)]
    } else if i == 2 {
        seq![((320i32, 200i32), 0i32), ((112i32, 32i32), 2i32)]
    } else if i == 3 {
        seq![((64i32, 32i32), 0i32), ((608i32, 48i32), 2i32)]
    } else if i == 4 {
        seq![((608i32, 101i32), 0i32), ((320i32, 416i32), 2i32)]
    } else if i == 5 {
        seq![((320i32, 416i32), 0i32)]
    } else if i == 6 {
        seq![((320i32, 240i32), 0i32)]
    } else {
        seq![((320i32, 240i32), 0i32)]
    }
}

/// Dialogue `d` is cutscene `i`, started: its first message is shown and the camera
/// pans to the waypoint due now.
pub open spec fn opened(d: Dialogue, i: nat) -> bool {
    &&& texts(d.messages@) == cutscene_text(i)
    &&& d.camera_pos@ == cutscene_waypoints(i)
    &&& (d.event_broadcast, d.prompt) == cutscene_gate(i)
    &&& d.d_box.message@ == cutscene_text(i)[0]
    &&& d.d_box.typed_message@ == cutscene_text(i)[0]
    &&& d.d_box.prompt == d.prompt
    &&& d.d_box.camera_target == due(cutscene_waypoints(i), None)
}

fn say(v: &mut Vec<String>, line: &str)
    ensures
        texts(final(v)@) == texts(old(v)@).push(line@),
{
    let ghost before = v@;
    v.push(String::from_str(line));
    assert(texts(v@) =~= texts(before).push(line@));
}

fn way(v: &mut Vec<((i32, i32), i32)>, x: i32, y: i32, left: i32)
    ensures
        final(v)@ == old(v)@.push(((x, y), left)),
{
    v.push(((x, y), left));
}

/// The scripted cutscene `i` of the catalog (the last one for any larger index), not
/// yet started.
pub fn cutscene(i: usize) -> (r: Dialogue)
    ensures
        (r.event_broadcast, r.prompt) == cutscene_gate(i as nat),
        texts(r.messages@) == cutscene_text(i as nat),
        r.messages@.len() == cutscene_len(i as nat),
        r.camera_pos@ == cutscene_waypoints(i as nat),
        r.d_box.prompt == false,
        r.d_box.camera_target.is_none(),
{
    let mut m: Vec<String> = Vec::new();
    let mut w: Vec<((i32, i32), i32)> = Vec::new();
    assert(texts(m@) =~= Seq::<Seq<char>>::empty());
    assert(w@ =~= Seq::<((i32, i32), i32)>::empty());
    if i == 0 {
        say(&mut m, "Exoplanet detected!");
        say(&mut m, "Sending autonomous research probe to Exoplanet...");
        say(&mut m, "Scan the Exoplanet to gather scientific RESEARCH and report back.");
        way(&mut w, 320, 240, 0);
        way(&mut w, 320, 296, 2);
        assert(texts(m@) =~= seq!["Exoplanet detected!"@, "Sending autonomous research probe to Exoplanet..."@, "Scan the Exoplanet to gather scientific RESEARCH and report back."@]);
        assert(w@ =~= seq![((320i32, 240i32), 0i32), ((320i32, 296i32), 2i32)]);
    } else if i == 1 {
        say(&mut m, "Significant RESEARCH gathered from research probe!");
        say(&mut m, "Authorizing construction of DRONE DEPOT.");
        say(&mut m, "Establish a hub for additional autonomous workers and deploy them to gather RESEARCH.");
        way(&mut w, 320, 200, 0);
        way(&mut w, 160, 304, 1);
        assert(texts(m@) =~= seq!["Significant RESEARCH gathered from research probe!"@, "Authorizing construction of DRONE DEPOT."@, "Establish a hub for additional autonomous workers and deploy them to gather RESEARCH."@]);
        assert(w@ =~= seq![((320i32, 200i32), 0i32), ((160i32, 304i32), 1i32)]);
    } else if i == 2 {
        say(&mut m, "Automated RESEARCH production initiated.");
        say(&mut m, "New scans revealed nearby mineral rich asteroid belt!");
        say(&mut m, "Authorizing construction of ASTEROID MINES.");
        say(&mut m, "Gather METALS from the asteroids to build advanced tech.");
        way(&mut w, 320, 200, 0);
        way(&mut w, 112, 32, 2);
        assert(texts(m@) =~= seq!["Automated RESEARCH production initiated."@, "New scans revealed nearby mineral rich asteroid belt!"@, "Authorizing construction of ASTEROID MINES."@, "Gather METALS from the asteroids to build advanced tech."@]);
        assert(w@ =~= seq![((320i32, 200i32), 0i32), ((112i32, 32i32), 2i32)]);
    } else if i == 3 {
        say(&mut m, "Automated METALS production initiated.");
        say(&mut m, "Further scans have revealed nearby nebula storm.");
        say(&mut m, "Authorizing construction of POWER PLANT.");
        say(&mut m, "Harvest POWER from the storm to amplify other stations.");
        way(&mut w, 64, 32, 0);
        way(&mut w, 608, 48, 2);
        assert(texts(m@) =~= seq!["Automated METALS production initiated."@, "Further scans have revealed nearby nebula storm."@, "Authorizing construction of POWER PLANT."@, "Harvest POWER from the storm to amplify other stations."@]);
        assert(w@ =~= seq![((64i32, 32i32), 0i32), ((608i32, 48i32), 2i32)]);
    } else if i == 4 {
        say(&mut m, "Automated POWER production initiated.");
        say(&mut m, "Sector self-sufficiency achieved. Final stage of exoplanet observation.");
        say(&mut m, "Authorizing construction of JUMPGATE.");
        say(&mut m, "Use the JUMPGATE to leave this sector and start again in a new sector.");
        way(&mut w, 608, 101, 0);
        way(&mut w, 320, 416, 2);
        assert(texts(m@) =~= seq!["Automated POWER production initiated."@, "Sector self-sufficiency achieved. Final stage of exoplanet observation."@, "Authorizing construction of JUMPGATE."@, "Use the JUMPGATE to leave this sector and start again in a new sector."@]);
        assert(w@ =~= seq![((608i32, 101i32), 0i32), ((320i32, 416i32), 2i32)]);
    } else if i == 5 {
        say(&mut m, "Jumpgate initiated. Prepare for imminent jump.");
        say(&mut m, "Good work, researcher. There's more work in the next sector!");
        way(&mut w, 320, 416, 0);
        assert(texts(m@) =~= seq!["Jumpgate initiated. Prepare for imminent jump."@, "Good work, researcher. There's more work in the next sector!"@]);
        assert(w@ =~= seq![((320i32, 416i32), 0i32)]);
    } else if i == 6 {
        say(&mut m, "Reset all your progress and start the game over?");
        way(&mut w, 320, 240, 0);
        assert(texts(m@) =~= seq!["Reset all your progress and start the game over?"@]);
        assert(w@ =~= seq![((320i32, 240i32), 0i32)]);
    } else {
        say(&mut m, "Thank you for playing. This is the end of the demo.");
        say(&mut m, "Play again?");
        say(&mut m, "");
        way(&mut w, 320, 240, 0);
        assert(texts(m@) =~= seq!["Thank you for playing. This is the end of the demo."@, "Play again?"@, ""@]);
        assert(w@ =~= seq![((320i32, 240i32), 0i32)]);
    }
    let (event_broadcast, prompt): (i32, bool) = if i == 0 {
        (0, false)
    } else if i == 1 {
        (1, false)
    } else if i == 2 {
        (2, false)
    } else if i == 3 {
        (2, false)
    } else if i == 4 {
        (2, false)
    } else if i == 5 {
        (0, false)
    } else if i == 6 {
        (1, true)
    } else {
        (2, false)
    };
    assert(texts(m@).len() == m@.len());
    Dialogue { messages: m, camera_pos: w, event_broadcast, d_box: DialogueBox::new(), prompt }
}

/// The event that `process_events` hands out for dispatch.
pub open spec fn dispatched(events: Seq<Event>, g: Option<(i32, bool)>) -> Option<Event> {
    if events.len() == 0 {
        None
    } else {
        match g {
            Some((b, _)) => if b <= 0 {
                Some(events[0])
            } else {
                None
            },
            None => if cutscene_of(events[0]).is_some() {
                None
            } else {
                Some(events[0])
            },
        }
    }
}

/// The queue after `process_events`: drained when a dialogue's countdown has run out,
/// the first event removed when it is dispatched directly, a Reset or Prestige dropped
/// when the dialogue it opened has just ended, and otherwise kept.
pub open spec fn events_after(events: Seq<Event>, g: Option<(i32, bool)>, over: bool) -> Seq<
    Event,
> {
    if events.len() == 0 {
        events
    } else {
        match g {
            Some((b, _)) => if b <= 0 {
                Seq::empty()
            } else {
                events
            },
            None => if (events[0] == Event::Prestige || events[0] == Event::ResetGame) && over {
                Seq::empty()
            } else if cutscene_of(events[0]).is_some() {
                events
            } else {
                events.drop_first()
            },
        }
    }
}

/// The dialogue gate after `process_events`.
pub open spec fn gate_after(events: Seq<Event>, g: Option<(i32, bool)>, over: bool) -> Option<
    (i32, bool),
> {
    if events.len() == 0 {
        g
    } else {
        match g {
            Some((b, p)) => if b <= 0 && p {
                None
            } else {
                g
            },
            None => if (events[0] == Event::Prestige || events[0] == Event::ResetGame) && over {
                None
            } else {
                match cutscene_of(events[0]) {
                    Some(i) => Some(cutscene_gate(i)),
                    None => None,
                }
            },
        }
    }
}

/// A FIFO of pending events and at most one active dialogue, which holds back their
/// dispatch.
#[derive(Debug)]
pub struct EventManager {
    pub events: Vec<Event>,
    pub dialogue: Option<Dialogue>,
    /// Whether a dialogue ended since the last `process_events`.
    pub over: bool,
}

impl EventManager {
    /// An empty queue, with the opening cutscene started.
    pub fn new() -> (r: EventManager)
        ensures
            r.pending()@ == Seq::<Event>::empty(),
            gate(r.dialogue) == Some(cutscene_gate(0)),
            r.dialogue.unwrap().messages@.len() == cutscene_len(0),
            r.dialogue.is_some() && opened(r.dialogue.unwrap(), 0),
            !r.just_ended(),
    {
        let mut opening = cutscene(0);
        let started = opening.start();
        proof {
            assert(texts(opening.messages@)[0] == opening.messages@[0]@);
        }
        EventManager { events: Vec::new(), dialogue: Some(started), over: false }
    }

    /// The events waiting for dispatch, oldest first.
    pub open spec fn pending(&self) -> Vec<Event> {
        self.events
    }

    /// Whether a dialogue ended since the last `process_events`.
    pub open spec fn just_ended(&self) -> bool {
        self.over
    }

    /// A copy of the pending events, oldest first.
    pub fn pending_events(&self) -> (r: Vec<Event>)
        ensures
            r@ == self.pending()@,
    {
        let mut out: Vec<Event> = Vec::new();
        let n = self.events.len();
        let mut i: usize = 0;
        while i < n
            invariant
                n == self.events@.len(),
                i <= n,
                out@ =~= self.events@.subrange(0, i as int),
            decreases n - i,
        {
            out.push(self.events[i]);
            i = i + 1;
        }
        assert(out@ =~= self.events@);
        out
    }

    /// Queues `event`; nothing is processed yet.
    pub fn trigger(&mut self, event: Event)
        ensures
            final(self).pending()@ == old(self).pending()@.push(event),
            final(self).dialogue == old(self).dialogue,
            final(self).just_ended() == old(self).just_ended(),
    {
        self.events.push(event);
    }

    /// Looks at the oldest event. With a dialogue active, the event is handed out only
    /// once the dialogue's countdown has run out, and the queue is drained (a prompt
    /// dialogue then closes). Without one, a milestone event opens its cutscene and stays
    /// queued, and any other event is handed out and removed. Returns the event to
    /// dispatch to the subscribers.
    pub fn process_events(&mut self) -> (r: Option<Event>)
        requires
            old(self).dialogue.is_some() ==> old(self).dialogue.unwrap().messages@.len() > 0,
        ensures
            r == dispatched(old(self).pending()@, gate(old(self).dialogue)),
            final(self).pending()@ == events_after(
                old(self).pending()@,
                gate(old(self).dialogue),
                old(self).just_ended(),
            ),
            gate(final(self).dialogue) == gate_after(
                old(self).pending()@,
                gate(old(self).dialogue),
                old(self).just_ended(),
            ),
            final(self).dialogue.is_some() ==> final(self).dialogue.unwrap().messages@.len() > 0,
            !final(self).just_ended(),
            old(self).pending()@.len() == 0 ==> final(self).dialogue == old(self).dialogue,
            old(self).pending()@.len() > 0 && old(self).dialogue.is_some() && !(old(self).dialogue.unwrap().event_broadcast
                <= 0 && old(self).dialogue.unwrap().prompt) ==> final(self).dialogue == old(self).dialogue,
            old(self).pending()@.len() > 0 && old(self).dialogue.is_none() && cutscene_of(old(self).pending()@[0]).is_some()
                && !((old(self).pending()@[0] == Event::Prestige || old(self).pending()@[0] == Event::ResetGame)
                && old(self).just_ended()) ==> final(self).dialogue.is_some() && opened(
                final(self).dialogue.unwrap(),
                cutscene_of(old(self).pending()@[0]).unwrap(),
            ),
    {
        let mut out: Option<Event> = None;
        if self.events.len() > 0 {
            let event = self.events[0];
            match &self.dialogue {
                Some(d) => {
                    if d.event_broadcast <= 0 {
                        out = Some(event);
                        let prompt = d.prompt;
                        self.events.clear();
                        if prompt {
                            self.dialogue = None;
                        }
                    }
                },
                None => {
                    let scene: Option<usize> = match event {
                        Event::StartGame => Some(0),
                        Event::DroneDepotUnlockable => Some(1),
                        Event::MinesUnlockable => Some(2),
                        Event::PowerPlantUnlockable => Some(3),
                        Event::LateGame => Some(4),
                        Event::Prestige => Some(7),
                        Event::ResetGame => Some(6),
                        Event::EndGame => Some(5),
                        _ => None,
                    };
                    match scene {
                        Some(i) => {
                            if (event == Event::Prestige || event == Event::ResetGame) && self.over {
                                self.events.clear();
                            } else {
                                let mut d = cutscene(i);
                                let started = d.start();
                                proof {
                                    assert(texts(d.messages@)[0] == d.messages@[0]@);
                                }
                                self.dialogue = Some(started);
                            }
                        },
                        None => {
                            out = Some(event);
                            self.events.remove(0);
                        },
                    }
                },
            }
        }
        self.over = false;
        proof {
            if old(self).pending()@.len() > 0 && old(self).dialogue.is_some() && old(self).dialogue.unwrap().event_broadcast <= 0 {
                assert(self.events@ =~= Seq::<Event>::empty());
            }
            if old(self).pending()@.len() > 0 && old(self).dialogue.is_none() {
                assert(self.events@ =~= events_after(old(self).pending()@, None, old(self).over));
            }
        }
        out
    }

    /// One tick of the active dialogue's input (see `Dialogue::update`); a dialogue that
    /// ends is closed and remembered as just ended.
    pub fn update(&mut self, tapped: bool, choice: Option<bool>)
        requires
            old(self).dialogue.is_some() ==> old(self).dialogue.unwrap().messages@.len() > 0,
        ensures
            final(self).pending()@ == old(self).pending()@,
            final(self).dialogue.is_some() ==> final(self).dialogue.unwrap().messages@.len() > 0,
            old(self).dialogue.is_none() ==> final(self).dialogue.is_none() && final(self).just_ended() == old(self).just_ended(),
            old(self).dialogue.is_some() && ends(old(self).dialogue.unwrap(), tapped, choice) ==> final(self).dialogue.is_none()
                && final(self).just_ended(),
            old(self).dialogue.is_some() && !ends(old(self).dialogue.unwrap(), tapped, choice) ==> ({
                let d = old(self).dialogue.unwrap();
                let e = final(self).dialogue.unwrap();
                &&& final(self).dialogue.is_some()
                &&& final(self).just_ended() == old(self).just_ended()
                &&& e.messages@ == if !d.d_box.prompt && tapped { d.messages@.drop_first() } else { d.messages@ }
                &&& e.event_broadcast == countdown_after(d, tapped, choice)
                &&& e.prompt == d.prompt
                &&& e.d_box.prompt == d.d_box.prompt
            }),
    {
        let mut ended = false;
        match &mut self.dialogue {
            Some(d) => {
                let going = d.update(tapped, choice);
                ended = !going || d.messages.len() == 0;
            },
            None => {},
        }
        if ended {
            self.over = true;
            self.dialogue = None;
        }
    }
}

impl Default for EventManager {
    /// The same as `new`.
    fn default() -> (r: EventManager)
        ensures
            r.pending()@ == Seq::<Event>::empty(),
            gate(r.dialogue) == Some(cutscene_gate(0)),
            !r.just_ended(),
    {
        EventManager::new()
    }
}

/// While a dialogue's countdown is running, a queued event that opens no cutscene is not
/// dispatched and stays queued; once no dialogue is active, the same event is dispatched
/// and removed, so a further call dispatches nothing.
pub proof fn lemma_event_gating(e: Event, countdown_left: i32, prompt: bool, over: bool)
    requires
        countdown_left > 0,
        cutscene_of(e).is_none(),
    ensures
        dispatched(seq![e], Some((countdown_left, prompt))) == None::<Event>,
        events_after(seq![e], Some((countdown_left, prompt)), over) == seq![e],
        dispatched(seq![e], None) == Some(e),
        events_after(seq![e], None, over).len() == 0,
        dispatched(events_after(seq![e], None, over), None) == None::<Event>,
{
    assert(seq![e].drop_first() =~= Seq::<Event>::empty());
}

} // verus!
