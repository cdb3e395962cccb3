use vstd::prelude::*;
use crate::resources::Resources;
use crate::upgrade::Upgrade;

verus! {

/// An axis-aligned rectangle in screen pixels.
#[derive(Debug, Clone, Copy, PartialEq, Eq, Structural)]
pub struct Bounds {
    pub x: i32,
    pub y: i32,
    pub w: i32,
    pub h: i32,
}

/// Whether point `p` lies inside `b` (left and top edges included).
pub open spec fn contains(b: Bounds, p: (i32, i32)) -> bool {
    b.x <= p.0 < b.x + b.w && b.y <= p.1 < b.y + b.h
}

impl Bounds {
    pub fn new(x: i32, y: i32, w: i32, h: i32) -> (r: Bounds)
        ensures
            r == (Bounds { x, y, w, h }),
    {
        Bounds { x, y, w, h }
    }

    /// Whether point `p` lies inside.
    pub fn intersects_xy(&self, p: (i32, i32)) -> (r: bool)
        ensures
            r == contains(*self, p),
    {
        let px = p.0 as i64;
        let py = p.1 as i64;
        (self.x as i64) <= px && px < (self.x as i64) + (self.w as i64) && (self.y as i64) <= py && py < (self.y as i64) + (self.h as i64)
    }
}

/// The look of a button.
#[derive(Debug, Clone, Copy, PartialEq, Eq, Structural)]
pub enum BtnState {
    Disabled,
    Normal,
    Hovered,
    Pressed,
}

/// The (fill, border, text) colours of a state in palette 0.
pub open spec fn palette_zero(s: BtnState) -> (u32, u32, u32) {
    match s {
        BtnState::Disabled => (0x9badb7ff, 0x847e87ff, 0xffffffff),
        BtnState::Normal => (0x222034ff, 0x222034ff, 0xffffffff),
        BtnState::Hovered => (0x847e87ff, 0x847e87ff, 0xffffffff),
        BtnState::Pressed => (0x847e87ff, 0xffffffff, 0x9badb7ff),
    }
}

/// The (fill, border, text) colours of a state in every other palette.
pub open spec fn palette_other(s: BtnState) -> (u32, u32, u32) {
    match s {
        BtnState::Disabled => (0x222034ff, 0x222034ff, 0x847e87ff),
        BtnState::Normal => (0x222034ff, 0xffffffff, 0xffffffff),
        BtnState::Hovered => (0xffffffff, 0x222034ff, 0x222034ff),
        BtnState::Pressed => (0xffffffff, 0xffffffff, 0x222034ff),
    }
}

impl BtnState {
    /// The (fill, border, text) colours of the state in palette `index`.
    pub fn colors(&self, index: u32) -> (r: (u32, u32, u32))
        ensures
            r == if index == 0 { palette_zero(*self) } else { palette_other(*self) },
    {
        if index == 0 {
            match self {
                BtnState::Disabled => (0x9badb7ff, 0x847e87ff, 0xffffffff),
                BtnState::Normal => (0x222034ff, 0x222034ff, 0xffffffff),
                BtnState::Hovered => (0x847e87ff, 0x847e87ff, 0xffffffff),
                BtnState::Pressed => (0x847e87ff, 0xffffffff, 0x9badb7ff),
            }
        } else {
            match self {
                BtnState::Disabled => (0x222034ff, 0x222034ff, 0x847e87ff),
                BtnState::Normal => (0x222034ff, 0xffffffff, 0xffffffff),
                BtnState::Hovered => (0xffffffff, 0x222034ff, 0x222034ff),
                BtnState::Pressed => (0xffffffff, 0xffffffff, 0x222034ff),
            }
        }
    }
}

/// A button: its rectangle, label and the state it shows.
#[derive(Debug)]
pub struct Btn {
    pub bounds: Bounds,
    pub state: BtnState,
    pub string: String,
    /// Whether the label is drawn as text (else it names a sprite).
    pub text: bool,
    pub interactable: bool,
    pub clickable: bool,
    pub colors_index: u32,
    /// Whether the button is placed in screen space rather than world space.
    pub fixed: bool,
}

impl Btn {
    /// An interactable, clickable button in screen space.
    pub fn new(string: String, bounds: Bounds, text: bool, colors_index: u32) -> (r: Btn)
        ensures
            r.string@ == string@,
            r.bounds == bounds,
            r.text == text,
            r.colors_index == colors_index,
            r.state == BtnState::Normal,
            r.interactable && r.clickable && r.fixed,
    {
        Btn { bounds, state: BtnState::Normal, string, text, interactable: true, clickable: true, colors_index, fixed: true }
    }

    /// The "+" buy button of an upgrade entry: clickable but not interactable until
    /// the upgrade becomes affordable.
    pub fn buy() -> (r: Btn)
        ensures
            r.bounds == (Bounds { x: 0, y: 0, w: 0, h: 0 }),
            r.string@ == "+"@,
            !r.text && !r.interactable && r.clickable && r.fixed,
            r.colors_index == 1,
            r.state == BtnState::Normal,
    {
        Btn {
            bounds: Bounds::new(0, 0, 0, 0),
            state: BtnState::Normal,
            string: String::from_str("+"),
            text: false,
            interactable: false,
            clickable: true,
            colors_index: 1,
            fixed: true,
        }
    }

    /// A copy of the button.
    pub fn duplicate(&self) -> (r: Btn)
        ensures
            r.bounds == self.bounds,
            r.state == self.state,
            r.string@ == self.string@,
            r.text == self.text,
            r.interactable == self.interactable,
            r.clickable == self.clickable,
            r.colors_index == self.colors_index,
            r.fixed == self.fixed,
    {
        Btn {
            bounds: self.bounds,
            state: self.state,
            string: self.string.clone(),
            text: self.text,
            interactable: self.interactable,
            clickable: self.clickable,
            colors_index: self.colors_index,
            fixed: self.fixed,
        }
    }

    /// Whether pointer `p`, just pressed or not, clicks the button.
    pub open spec fn on_click_spec(&self, p: (i32, i32), just_pressed: bool) -> bool {
        self.interactable && self.clickable && contains(self.bounds, p) && just_pressed
    }

    /// A click: the button is interactable and clickable, and the pointer `p` was just
    /// pressed inside it.
    pub fn on_click(&self, p: (i32, i32), just_pressed: bool) -> (r: bool)
        ensures
            r == self.on_click_spec(p, just_pressed),
    {
        self.interactable && self.clickable && self.bounds.intersects_xy(p) && just_pressed
    }

    /// Sets the state from the pointer `p`: disabled when not interactable; pressed when
    /// clickable and held inside; hovered when inside; otherwise normal.
    pub fn update(&mut self, p: (i32, i32), pressed: bool)
        ensures
            final(self).state == if !old(self).interactable {
                BtnState::Disabled
            } else if old(self).clickable && contains(old(self).bounds, p) && pressed {
                BtnState::Pressed
            } else if contains(old(self).bounds, p) {
                BtnState::Hovered
            } else {
                BtnState::Normal
            },
            final(self).bounds == old(self).bounds,
            final(self).interactable == old(self).interactable,
            final(self).clickable == old(self).clickable,
            final(self).string == old(self).string,
            final(self).text == old(self).text,
            final(self).colors_index == old(self).colors_index,
            final(self).fixed == old(self).fixed,
    {
        if self.interactable {
            let inside = self.bounds.intersects_xy(p);
            if self.clickable && inside && pressed {
                self.state = BtnState::Pressed;
            } else if inside {
                self.state = BtnState::Hovered;
            } else {
                self.state = BtnState::Normal;
            }
        } else {
            self.state = BtnState::Disabled;
        }
    }
}

/// Packs a colour as `0xRRGGBBAA`.
pub fn rgba_to_u32(r: u8, g: u8, b: u8, a: u8) -> (c: u32)
    ensures
        c == r as int * 0x1000000 + g as int * 0x10000 + b as int * 0x100 + a as int,
{
    (r as u32) * 0x1000000 + (g as u32) * 0x10000 + (b as u32) * 0x100 + (a as u32)
}

/// Unpacks a colour written `0xRRGGBBAA`.
pub fn u32_to_rgba(color: u32) -> (r: (u8, u8, u8, u8))
    ensures
        r.0 == color / 0x1000000,
        r.1 == (color / 0x10000) % 0x100,
        r.2 == (color / 0x100) % 0x100,
        r.3 == color % 0x100,
{
    (
        (color / 0x1000000) as u8,
        ((color / 0x10000) % 0x100) as u8,
        ((color / 0x100) % 0x100) as u8,
        (color % 0x100) as u8,
    )
}

/// A rectangle shrunk by `n` on every side.
pub open spec fn inset(b: Bounds, n: i32) -> Bounds {
    Bounds { x: (b.x + n) as i32, y: (b.y + n) as i32, w: (b.w - 2 * n) as i32, h: (b.h - 2 * n) as i32 }
}

/// The rows a station's panel needs: one per price line of each offer (two more for
/// a fabricator panel), at least one.
pub open spec fn panel_rows(costs: Seq<nat>, fab: bool) -> int {
    let base = rows_of(costs) + if fab { 2int } else { 0int };
    if base <= 0 { 1 } else { base }
}

/// The sum of `costs`.
pub open spec fn rows_of(costs: Seq<nat>) -> int
    decreases costs.len(),
{
    if costs.len() == 0 {
        0
    } else {
        rows_of(costs.drop_last()) + costs.last()
    }
}

/// The number of price lines of each offer.
pub open spec fn cost_lines(l: Seq<Upgrade>) -> Seq<nat> {
    l.map_values(|u: Upgrade| u.cost@.len())
}

/// The shop panel of a station: where it is, and whether the pointer is over it or
/// over its drone list.
#[derive(Debug)]
pub struct PopUp {
    pub hitbox: Bounds,
    pub panel: Bounds,
    pub drone_hitbox: Bounds,
    pub drone_panel: Bounds,
    pub hovered: bool,
    pub drone_inspect: Btn,
    pub inspecting: bool,
    pub title: String,
    /// How many drones the station has.
    pub drones: u32,
    pub drone_resource: Resources,
    /// Whether this is a fabricator-style panel, with two extra rows.
    pub fab: bool,
}

impl PopUp {
    fn build(title: String, resource: Resources, h: i32, fab: bool) -> (r: PopUp)
        requires
            20 <= h <= 1000,
        ensures
            r.hitbox == (Bounds { x: -336i32, y: -320i32, w: 224i32, h }),
            r.panel == inset(r.hitbox, 10),
            r.drone_hitbox == r.hitbox,
            r.drone_panel == r.panel,
            !r.hovered && !r.inspecting,
            r.title@ == title@,
            r.drones == 0,
            r.drone_resource == resource,
            r.fab == fab,
            !r.drone_inspect.clickable,
    {
        let hitbox = Bounds::new(-336, -320, 224, h);
        let panel = Bounds::new(-326, -310, 204, h - 20);
        let mut drone_inspect = Btn::new(String::new(), Bounds::new(0, 0, 0, 0), false, 0);
        drone_inspect.clickable = false;
        PopUp {
            hitbox,
            panel,
            drone_hitbox: hitbox,
            drone_panel: panel,
            hovered: false,
            drone_inspect,
            inspecting: false,
            title,
            drones: 0,
            drone_resource: resource,
            fab,
        }
    }

    /// A shop panel titled `title` whose drones gather `resource`.
    pub fn new(title: String, resource: Resources) -> (r: PopUp)
        ensures
            r.hitbox == (Bounds { x: -336i32, y: -320i32, w: 224i32, h: 106i32 }),
            r.panel == inset(r.hitbox, 10),
            !r.hovered && !r.inspecting && !r.fab,
            r.title@ == title@,
            r.drones == 0,
            r.drone_resource == resource,
    {
        PopUp::build(title, resource, 106, false)
    }

    /// A fabricator-style shop panel, taller by two rows.
    pub fn new_fab(title: String, resource: Resources) -> (r: PopUp)
        ensures
            r.hitbox == (Bounds { x: -336i32, y: -320i32, w: 224i32, h: 130i32 }),
            r.panel == inset(r.hitbox, 10),
            !r.hovered && !r.inspecting && r.fab,
            r.title@ == title@,
            r.drones == 0,
            r.drone_resource == resource,
    {
        PopUp::build(title, resource, 130, true)
    }

    /// Records and returns whether the pointer `p` is over the panel.
    pub fn hovered(&mut self, p: (i32, i32)) -> (r: bool)
        ensures
            r == contains(old(self).hitbox, p),
            final(self).hovered == r,
            final(self).inspecting == old(self).inspecting,
            final(self).hitbox == old(self).hitbox,
            final(self).drones == old(self).drones,
    {
        self.hovered = self.hitbox.intersects_xy(p);
        self.hovered
    }

    /// Records and returns whether the drone list is being inspected: the pointer is on
    /// its button, or was inspecting and is still over the list. Never without drones.
    pub fn inspecting(&mut self, p: (i32, i32)) -> (r: bool)
        ensures
            r == (old(self).drones > 0 && (contains(old(self).drone_inspect.bounds, p) || (old(self).inspecting
                && contains(old(self).drone_hitbox, p)))),
            final(self).inspecting == r,
            final(self).hovered == old(self).hovered,
            final(self).hitbox == old(self).hitbox,
            final(self).drones == old(self).drones,
    {
        if self.drones > 0 {
            let on_button = self.drone_inspect.bounds.intersects_xy(p);
            let on_list = self.drone_hitbox.intersects_xy(p);
            self.inspecting = on_button || (self.inspecting && on_list);
        } else {
            self.inspecting = false;
        }
        self.inspecting
    }

    /// Sizes the panel to the offers: 48 pixels plus 20 a row (see `panel_rows`); the
    /// inner panel is 20 pixels shorter.
    pub fn resize(&mut self, upgrades: &Vec<Upgrade>)
        requires
            upgrades@.len() <= 1000,
            forall|i: int| 0 <= i < upgrades@.len() ==> #[trigger] upgrades@[i].cost@.len() <= 10,
        ensures
            final(self).hitbox.h == 48 + 20 * panel_rows(cost_lines(upgrades@), old(self).fab),
            final(self).panel.h == 28 + 20 * panel_rows(cost_lines(upgrades@), old(self).fab),
            final(self).hitbox.x == old(self).hitbox.x && final(self).hitbox.y == old(self).hitbox.y,
            final(self).hitbox.w == old(self).hitbox.w,
            final(self).fab == old(self).fab,
            final(self).drones == old(self).drones,
    {
        let n = upgrades.len();
        let mut rows: i64 = 0;
        let mut i: usize = 0;
        assert(cost_lines(upgrades@).subrange(0, 0) =~= Seq::<nat>::empty());
        while i < n
            invariant
                n == upgrades@.len(),
                n <= 1000,
                i <= n,
                forall|k: int| 0 <= k < upgrades@.len() ==> #[trigger] upgrades@[k].cost@.len() <= 10,
                rows == rows_of(cost_lines(upgrades@).subrange(0, i as int)),
                0 <= rows <= 10 * i,
            decreases n - i,
        {
            let ghost pre = cost_lines(upgrades@).subrange(0, i as int);
            let ghost post = cost_lines(upgrades@).subrange(0, i as int + 1);
            assert(post.drop_last() =~= pre);
            assert(post.last() == upgrades@[i as int].cost@.len());
            rows = rows + upgrades[i].cost.len() as i64;
            i = i + 1;
        }
        assert(cost_lines(upgrades@).subrange(0, n as int) =~= cost_lines(upgrades@));
        if self.fab {
            rows = rows + 2;
        }
        if rows <= 0 {
            rows = 1;
        }
        let h = (48 + rows * 20) as i32;
        let ph = (28 + rows * 20) as i32;
        self.hitbox = Bounds::new(self.hitbox.x, self.hitbox.y, self.hitbox.w, h);
        self.panel = Bounds::new(self.panel.x, self.panel.y, self.panel.w, ph);
    }
}

} // verus!
