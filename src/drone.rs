use vstd::prelude::*;
use crate::resources::Resources;
use vstd::arithmetic::div_mod::lemma_fundamental_div_mod;

verus! {

/// Coordinates stay within this distance of the origin, in thousandths of a pixel.
pub const COORD_BOUND: i64 = 1_000_000_000_000;

/// The task a drone performs, which depends on the station that owns it.
#[derive(Debug, Clone, Copy, PartialEq, Eq, Structural)]
pub enum DroneMode {
    Survey,
    Mining,
    Shipping,
    Conduit,
}

/// An eligible asteroid: its id and position (thousandths of a pixel).
pub type Target = (u32, (i64, i64));

/// An autonomous worker. Positions are in thousandths of a pixel.
#[derive(Debug, Clone, Copy)]
pub struct Drone {
    pub mode: DroneMode,
    pub pos: (i64, i64),
    pub target_pos: (i64, i64),
    /// Ticks (in the mode's own unit) since the current phase began.
    pub timer: u64,
    /// Length of the mode's cycle, in ticks.
    pub interval: u64,
    pub level: u32,
    pub speed: u32,
    /// Whether the drone has reached its working site (or, shipping, the depot).
    pub on_site: bool,
    /// Survey: whether this cycle's scan has been made.
    pub scanned: bool,
    /// Mining: the asteroid being worked, if any.
    pub asteroid_id: Option<u32>,
    /// The METALS carried, if any.
    pub cargo: Option<u64>,
}

/// `v` lies within the coordinate bound.
pub open spec fn in_bounds(v: i64) -> bool {
    -COORD_BOUND <= v <= COORD_BOUND
}

/// Both coordinates lie within the bound.
pub open spec fn point_ok(p: (i64, i64)) -> bool {
    in_bounds(p.0) && in_bounds(p.1)
}

/// The integer square root of `n`: the `r` with `r * r <= n < (r + 1) * (r + 1)`.
pub open spec fn isqrt(n: nat) -> nat {
    choose|r: nat| #[trigger] is_root(n, r)
}

/// `r` is the integer square root of `n`.
pub open spec fn is_root(n: nat, r: nat) -> bool {
    r * r <= n < (r + 1) * (r + 1)
}

/// The part of a step of length `s` that falls on an axis where the target lies `dd`
/// away, at distance `len`: `dd * s / len`, rounded toward zero.
pub open spec fn toward(dd: int, s: int, len: int) -> int {
    if dd >= 0 {
        (dd * s) / len
    } else {
        -(((-dd) * s) / len)
    }
}

/// Whether `x` is strictly within `step` of zero.
pub open spec fn within(x: int, step: int) -> bool {
    -step < x < step
}

/// The step length of `follow`: `1 + 0.1 * speed * mult / 100` pixels.
pub open spec fn step_len(speed: u32, mult: u32) -> int {
    1000 + speed * mult
}

/// The cycle length of each mode, in ticks.
pub open spec fn mode_interval(mode: DroneMode) -> u64 {
    match mode {
        DroneMode::Survey => 800,
        DroneMode::Mining => 500,
        DroneMode::Shipping => 300,
        DroneMode::Conduit => 400,
    }
}

/// Where a new drone starts: the drone depot's centre.
pub const DEPOT_CENTER: (i64, i64) = (160_000, 352_000);

/// Where survey drones join their orbit round the exoplanet.
pub const ORBIT_ENTRY: (i64, i64) = (423_000, 203_000);

/// Where shipping drones load at the asteroid mines.
pub const MINES_DOCK: (i64, i64) = (154_000, 42_000);

/// Where shipping drones unload at the drone depot.
pub const DEPOT_DOCK: (i64, i64) = (160_000, 376_000);

/// Where mining drones drop their load.
pub const MINES_HOME: (i64, i64) = (175_000, 0);

/// The power plant's centre, where conduit drones work.
pub const PLANT_CENTER: (i64, i64) = (608_000, 101_000);

/// METALS loaded at the mines per trip: `(1 + 0.75 * level) * 32`.
pub open spec fn load_amount(level: u32) -> u64 {
    (32 + 24 * level) as u64
}

/// METALS unloaded per pass at the depot: `(1 + 0.2 * speed) * 10 + 3.75 * level`, rounded.
pub open spec fn unload_amount(level: u32, speed: u32) -> u64 {
    (10 + 2 * speed + (15 * level + 2) / 4) as u64
}

/// The drone after one `follow` step, and whether it arrived: a target within one
/// step is reached at once; otherwise the drone moves one step along the straight line
/// to it, and snaps onto it when then within one step on both axes.
pub open spec fn follow_step(d: Drone, mult: u32) -> (Drone, bool) {
    let s = step_len(d.speed, mult);
    let dx = d.target_pos.0 - d.pos.0;
    let dy = d.target_pos.1 - d.pos.1;
    let len = isqrt((dx * dx + dy * dy) as nat);
    if len <= s {
        (Drone { pos: d.target_pos, ..d }, true)
    } else {
        let x = d.pos.0 + toward(dx, s, len as int);
        let y = d.pos.1 + toward(dy, s, len as int);
        let arrived = within(d.target_pos.0 - x, s) && within(d.target_pos.1 - y, s);
        (Drone { pos: if arrived { d.target_pos } else { (x as i64, y as i64) }, ..d }, arrived)
    }
}

/// The shipping drone after one tick, and the METALS it reports.
pub open spec fn ship_step(d: Drone) -> (Drone, Option<(Resources, u64)>) {
    if d.on_site {
        let t = tick_by(d.timer, 5 + d.speed);
        if t >= d.interval * 5 {
            let amt = unload_amount(d.level, d.speed);
            let held = d.cargo.unwrap_or(0);
            if amt >= held {
                (Drone { timer: 0, cargo: None, target_pos: MINES_DOCK, on_site: false, ..d }, Some((Resources::Metals, amt)))
            } else {
                (Drone { timer: 0, cargo: Some((held - amt) as u64), ..d }, Some((Resources::Metals, amt)))
            }
        } else {
            (Drone { timer: t, ..d }, None)
        }
    } else {
        let d1 = Drone { target_pos: if d.cargo.is_none() { MINES_DOCK } else { DEPOT_DOCK }, ..d };
        let f = follow_step(d1, 20);
        let d2 = f.0;
        if f.1 {
            if d2.cargo.is_some() {
                (Drone { on_site: true, ..d2 }, None)
            } else {
                let t = tick_by(d2.timer, 5);
                if t >= d2.interval * 5 {
                    (
                        Drone { timer: 0, cargo: Some(load_amount(d2.level)), target_pos: DEPOT_DOCK, ..d2 },
                        Some((Resources::Metals, load_amount(d2.level))),
                    )
                } else {
                    (Drone { timer: t, ..d2 }, None)
                }
            }
        } else {
            (d2, None)
        }
    }
}

impl Drone {
    /// Positions in bounds, and a cycle length that is at least one tick.
    pub open spec fn wf(&self) -> bool {
        point_ok(self.pos) && point_ok(self.target_pos) && self.interval >= 1 && self.interval <= 1000
    }

    /// A drone of `mode` leaving the depot for `target_pos`.
    pub fn new(mode: DroneMode, level: u32, speed: u32, target_pos: (i64, i64)) -> (r: Drone)
        requires
            point_ok(target_pos),
        ensures
            r.wf(),
            r.mode == mode,
            r.level == level,
            r.speed == speed,
            r.pos == DEPOT_CENTER,
            r.target_pos == target_pos,
            r.interval == mode_interval(mode),
            r.timer == 0,
            !r.on_site,
            !r.scanned,
            r.asteroid_id.is_none(),
            r.cargo.is_none(),
    {
        let interval: u64 = match mode {
            DroneMode::Survey => 800,
            DroneMode::Mining => 500,
            DroneMode::Shipping => 300,
            DroneMode::Conduit => 400,
        };
        Drone {
            mode,
            pos: DEPOT_CENTER,
            target_pos,
            timer: 0,
            interval,
            level,
            speed,
            on_site: false,
            scanned: false,
            asteroid_id: None,
            cargo: None,
        }
    }

    /// Moves one step of `1 + 0.1 * speed * mult / 100` pixels along the straight line
    /// to `target_pos` (see `follow_step`); returns whether the drone arrived.
    pub fn follow(&mut self, mult: u32) -> (arrived: bool)
        requires
            old(self).wf(),
            mult <= 100,
        ensures
            final(self).wf(),
            (*final(self), arrived) == follow_step(*old(self), mult),
            arrived ==> final(self).pos == old(self).target_pos,
            final(self).target_pos == old(self).target_pos,
            final(self).timer == old(self).timer,
            final(self).interval == old(self).interval,
            final(self).level == old(self).level,
            final(self).speed == old(self).speed,
            final(self).mode == old(self).mode,
            final(self).on_site == old(self).on_site,
            final(self).scanned == old(self).scanned,
            final(self).asteroid_id == old(self).asteroid_id,
            final(self).cargo == old(self).cargo,
    {
        assert((self.speed as int) * (mult as int) <= 4294967295 * 100) by (nonlinear_arith)
            requires
                self.speed <= 4294967295,
                mult <= 100,
        ;
        let step: i64 = 1000 + (self.speed as i64) * (mult as i64);
        assert(1000 <= step <= 430_000_000_000);
        let dx: i64 = self.target_pos.0 - self.pos.0;
        let dy: i64 = self.target_pos.1 - self.pos.1;
        let ax: u128 = if dx >= 0 { dx as u128 } else { (-dx) as u128 };
        let ay: u128 = if dy >= 0 { dy as u128 } else { (-dy) as u128 };
        assert(ax * ax <= 4_000_000_000_000_000_000_000_000u128 && ay * ay <= 4_000_000_000_000_000_000_000_000u128)
            by (nonlinear_arith)
            requires
                ax <= 2_000_000_000_000u128,
                ay <= 2_000_000_000_000u128,
        ;
        let n: u128 = ax * ax + ay * ay;
        proof {
            assert((dx * dx + dy * dy) as nat == n) by (nonlinear_arith)
                requires
                    ax == if dx >= 0 { dx as int } else { -dx },
                    ay == if dy >= 0 { dy as int } else { -dy },
                    n == ax * ax + ay * ay,
            ;
        }
        let len = int_sqrt(n);
        proof {
            lemma_isqrt(n as nat, len as nat);
        }
        if len <= step as u128 {
            self.pos = self.target_pos;
            return true;
        }
        let st: u128 = step as u128;
        assert(ax <= 2_000_000_000_000u128 && ay <= 2_000_000_000_000u128 && st <= 430_000_000_000u128);
        assert(ax * st <= 2_000_000_000_000u128 * 430_000_000_000u128) by (nonlinear_arith)
            requires
                ax <= 2_000_000_000_000u128,
                st <= 430_000_000_000u128,
        ;
        assert(ay * st <= 2_000_000_000_000u128 * 430_000_000_000u128) by (nonlinear_arith)
            requires
                ay <= 2_000_000_000_000u128,
                st <= 430_000_000_000u128,
        ;
        let mx: u128 = ax * st / len;
        let my: u128 = ay * st / len;
        proof {
            lemma_share_at_most(ax as nat, step as nat, len as nat);
            lemma_share_at_most(ay as nat, step as nat, len as nat);
            lemma_sqrt_covers(ax as nat, ay as nat, n as nat, len as nat);
        }
        let x: i64 = if dx >= 0 { self.pos.0 + mx as i64 } else { self.pos.0 - mx as i64 };
        let y: i64 = if dy >= 0 { self.pos.1 + my as i64 } else { self.pos.1 - my as i64 };
        let rx = self.target_pos.0 - x;
        let ry = self.target_pos.1 - y;
        if -step < rx && rx < step && -step < ry && ry < step {
            self.pos = self.target_pos;
            true
        } else {
            self.pos = (x, y);
            false
        }
    }
}

/// The integer square root of `n`, by bisection.
fn int_sqrt(n: u128) -> (r: u128)
    requires
        n <= 8_000_000_000_000_000_000_000_000u128,
    ensures
        r * r <= n < (r + 1) * (r + 1),
{
    let mut lo: u128 = 0;
    let mut hi: u128 = 0x400_0000_0000;
    assert(n < hi * hi) by (nonlinear_arith)
        requires
            hi == 0x400_0000_0000u128,
            n <= 8_000_000_000_000_000_000_000_000u128,
    ;
    while hi - lo > 1
        invariant
            lo < hi,
            hi <= 0x400_0000_0000,
            lo * lo <= n,
            n < hi * hi,
        decreases hi - lo,
    {
        let mid: u128 = lo + (hi - lo) / 2;
        assert(mid * mid <= 0x400_0000_0000u128 * 0x400_0000_0000u128) by (nonlinear_arith)
            requires
                mid < hi,
                hi <= 0x400_0000_0000u128,
        ;
        if mid * mid <= n {
            lo = mid;
        } else {
            hi = mid;
        }
    }
    assert(hi == lo + 1);
    lo
}

proof fn lemma_isqrt(n: nat, r: nat)
    requires
        r * r <= n < (r + 1) * (r + 1),
    ensures
        isqrt(n) == r,
{
    assert(is_root(n, r));
    let c = isqrt(n);
    assert(is_root(n, c));
    if c < r {
        assert((c + 1) * (c + 1) <= r * r) by (nonlinear_arith)
            requires
                c + 1 <= r,
        ;
    } else if c > r {
        assert((r + 1) * (r + 1) <= c * c) by (nonlinear_arith)
            requires
                r + 1 <= c,
        ;
    }
}

/// `a * s / len <= a` when `s < len`.
proof fn lemma_share_at_most(a: nat, s: nat, len: nat)
    requires
        s < len,
    ensures
        (a * s) / len <= a,
{
    let x: int = (a * s) as int;
    let d: int = len as int;
    let q: int = x / d;
    let m: int = x % d;
    lemma_fundamental_div_mod(x, d);
    assert(q <= a) by (nonlinear_arith)
        requires
            x == a * s,
            x == d * q + m,
            0 <= m,
            s < d,
    ;
}

/// The root of `ax * ax + ay * ay` is at least each of `ax` and `ay`.
proof fn lemma_sqrt_covers(ax: nat, ay: nat, n: nat, len: nat)
    requires
        n == ax * ax + ay * ay,
        n < (len + 1) * (len + 1),
    ensures
        ax <= len,
        ay <= len,
{
    assert(ax <= len) by (nonlinear_arith)
        requires
            ax * ax <= n,
            n < (len + 1) * (len + 1),
    ;
    assert(ay <= len) by (nonlinear_arith)
        requires
            ay * ay <= n,
            n < (len + 1) * (len + 1),
    ;
}

/// `t + d`, held at `u64::MAX`.
pub open spec fn tick_by(t: u64, d: int) -> u64 {
    if t + d <= u64::MAX {
        (t + d) as u64
    } else {
        u64::MAX
    }
}

/// Every listed target lies within the coordinate bound.
pub open spec fn targets_ok(eligible: Seq<Target>) -> bool {
    forall|i: int| 0 <= i < eligible.len() ==> point_ok(#[trigger] eligible[i].1)
}

/// Whether asteroid `id` is listed.
pub open spec fn listed(eligible: Seq<Target>, id: u32) -> bool {
    exists|i: int| 0 <= i < eligible.len() && #[trigger] eligible[i].0 == id
}

/// The position of the first listed asteroid `id` from index `from` on.
pub open spec fn first_pos(eligible: Seq<Target>, id: u32, from: nat) -> Option<(i64, i64)>
    decreases eligible.len() - from,
{
    if from >= eligible.len() {
        None
    } else if eligible[from as int].0 == id {
        Some(eligible[from as int].1)
    } else {
        first_pos(eligible, id, from + 1)
    }
}

/// The drone pointed at `eligible[pick % len]`; unchanged when nothing is eligible.
pub open spec fn retargeted(d: Drone, eligible: Seq<Target>, pick: u32) -> Drone {
    if eligible.len() > 0 {
        let t = eligible[(pick as int) % (eligible.len() as int)];
        Drone { asteroid_id: Some(t.0), target_pos: t.1, ..d }
    } else {
        d
    }
}

/// The mining drone after one tick, and whether it yielded.
pub open spec fn mine_step(d: Drone, eligible: Seq<Target>, pick: u32) -> (Drone, bool) {
    if d.on_site {
        let t = tick_by(d.timer, 2 + d.speed);
        if t >= d.interval / 2 {
            (Drone { on_site: false, ..retargeted(Drone { timer: 0, cargo: None, ..d }, eligible, pick) }, true)
        } else {
            (Drone { timer: t, ..d }, false)
        }
    } else {
        let f = follow_step(d, 15);
        let d1 = f.0;
        if d1.cargo.is_none() {
            let cur = match d1.asteroid_id {
                Some(id) => first_pos(eligible, id, 0),
                None => None,
            };
            match cur {
                Some(at) => {
                    let d2 = Drone { target_pos: at, ..d1 };
                    if f.1 {
                        let t = tick_by(d2.timer, 100 + 15 * d2.speed);
                        if t >= d2.interval * 100 {
                            (Drone { timer: 0, cargo: Some(0), target_pos: MINES_HOME, ..d2 }, false)
                        } else {
                            (Drone { timer: t, ..d2 }, false)
                        }
                    } else {
                        (d2, false)
                    }
                },
                None => (retargeted(d1, eligible, pick), false),
            }
        } else if f.1 {
            (Drone { on_site: true, ..d1 }, false)
        } else {
            (d1, false)
        }
    }
}

proof fn lemma_first_pos_listed(eligible: Seq<Target>, id: u32, from: nat)
    ensures
        first_pos(eligible, id, from).is_some() ==> exists|i: int| 0 <= i < eligible.len() && #[trigger] eligible[i] == (id, first_pos(eligible, id, from).unwrap()),
    decreases eligible.len() - from,
{
    if from < eligible.len() && eligible[from as int].0 != id {
        lemma_first_pos_listed(eligible, id, from + 1);
    } else if from < eligible.len() {
        assert(eligible[from as int] == (id, eligible[from as int].1));
    }
}

/// The position of asteroid `id`, when it is listed.
fn find_target(eligible: &Vec<Target>, id: u32) -> (r: Option<(i64, i64)>)
    ensures
        r == first_pos(eligible@, id, 0),
        r.is_some() == listed(eligible@, id),
        r.is_some() ==> exists|i: int| 0 <= i < eligible@.len() && #[trigger] eligible@[i] == (id, r.unwrap()),
{
    proof {
        lemma_first_pos_listed(eligible@, id, 0);
    }
    let n = eligible.len();
    let mut i: usize = 0;
    while i < n
        invariant
            n == eligible@.len(),
            i <= n,
            forall|j: int| 0 <= j < i ==> #[trigger] eligible@[j].0 != id,
            first_pos(eligible@, id, 0) == first_pos(eligible@, id, i as nat),
        decreases n - i,
    {
        if eligible[i].0 == id {
            assert(eligible@[i as int] == (id, eligible@[i as int].1));
            return Some(eligible[i].1);
        }
        i = i + 1;
    }
    None
}

impl Drone {
    /// Survey (exoplanet): fly to the orbit, then run cycles of `cycle` ticks. The scan
    /// is made once per cycle, from its half-way point; a completed cycle yields one
    /// production (true) and starts the next.
    pub fn survey(&mut self, cycle: u64) -> (produced: bool)
        requires
            old(self).wf(),
        ensures
            final(self).wf(),
            old(self).on_site ==> produced == (tick_by(old(self).timer, 1) >= cycle)
                && final(self).on_site
                && final(self).timer == (if produced { 0 } else { tick_by(old(self).timer, 1) })
                && final(self).scanned == (!produced && (old(self).scanned || tick_by(old(self).timer, 1) >= cycle / 2))
                && final(self).pos == old(self).pos,
            !old(self).on_site ==> !produced && final(self).target_pos == ORBIT_ENTRY
                && (final(self).on_site ==> final(self).pos == ORBIT_ENTRY && final(self).timer == 0)
                && (!final(self).on_site ==> final(self).timer == old(self).timer),
            final(self).level == old(self).level,
            final(self).speed == old(self).speed,
            final(self).mode == old(self).mode,
            final(self).interval == old(self).interval,
    {
        if self.on_site {
            self.timer = self.timer.saturating_add(1);
            if self.timer >= cycle / 2 && !self.scanned {
                self.scanned = true;
            }
            if self.timer >= cycle {
                self.timer = 0;
                self.scanned = false;
                return true;
            }
            false
        } else {
            self.target_pos = ORBIT_ENTRY;
            if self.follow(10) {
                self.on_site = true;
                self.timer = 0;
            }
            false
        }
    }

    /// Conduit (power plant): fly to the plant, then yield one production (true) every
    /// `interval` ticks.
    pub fn conduit(&mut self) -> (produced: bool)
        requires
            old(self).wf(),
        ensures
            final(self).wf(),
            old(self).on_site ==> produced == (tick_by(old(self).timer, 1) >= old(self).interval)
                && final(self).on_site
                && final(self).timer == (if produced { 0 } else { tick_by(old(self).timer, 1) }),
            !old(self).on_site ==> !produced && final(self).target_pos == PLANT_CENTER
                && (final(self).on_site ==> final(self).pos == PLANT_CENTER)
                && final(self).timer == old(self).timer,
            final(self).level == old(self).level,
            final(self).speed == old(self).speed,
            final(self).interval == old(self).interval,
    {
        if self.on_site {
            self.timer = self.timer.saturating_add(1);
            if self.timer >= self.interval {
                self.timer = 0;
                return true;
            }
            false
        } else {
            self.target_pos = PLANT_CENTER;
            self.on_site = self.follow(10);
            false
        }
    }

    /// Shipping (drone depot), timed in fifths of a tick. Empty, the drone flies to the
    /// mines and, after `interval` ticks there, loads `load_amount(level)` METALS, which it
    /// reports. Loaded, it flies to the depot and unloads `unload_amount(level, speed)`
    /// per `interval` (faster with speed), reporting each part, until the cargo is gone.
    pub fn shipping(&mut self) -> (r: Option<(Resources, u64)>)
        requires
            old(self).wf(),
        ensures
            final(self).wf(),
            (*final(self), r) == ship_step(*old(self)),
            old(self).on_site ==> r == (if tick_by(old(self).timer, 5 + old(self).speed) >= old(self).interval * 5 {
                Some((Resources::Metals, unload_amount(old(self).level, old(self).speed)))
            } else {
                None
            }),
            old(self).on_site && r.is_some() ==> final(self).timer == 0
                && (unload_amount(old(self).level, old(self).speed) >= old(self).cargo.unwrap_or(0) ==> final(self).cargo.is_none() && !final(self).on_site)
                && (unload_amount(old(self).level, old(self).speed) < old(self).cargo.unwrap_or(0) ==> final(self).cargo == Some(
                    (old(self).cargo.unwrap_or(0) - unload_amount(old(self).level, old(self).speed)) as u64,
                ) && final(self).on_site),
            !old(self).on_site && old(self).cargo.is_some() ==> r.is_none(),
            !old(self).on_site && r.is_some() ==> r == Some((Resources::Metals, load_amount(old(self).level)))
                && final(self).cargo == Some(load_amount(old(self).level))
                && final(self).target_pos == DEPOT_DOCK,
            final(self).level == old(self).level,
            final(self).speed == old(self).speed,
            final(self).interval == old(self).interval,
    {
        if self.on_site {
            self.timer = self.timer.saturating_add(5 + self.speed as u64);
            if self.timer >= self.interval * 5 {
                self.timer = 0;
                let amount: u64 = 10 + 2 * (self.speed as u64) + (15 * (self.level as u64) + 2) / 4;
                let held: u64 = match self.cargo {
                    Some(c) => c,
                    None => 0,
                };
                if amount >= held {
                    self.cargo = None;
                    self.target_pos = MINES_DOCK;
                    self.on_site = false;
                } else {
                    self.cargo = Some(held - amount);
                }
                return Some((Resources::Metals, amount));
            }
        } else {
            self.target_pos = if self.cargo.is_none() {
                MINES_DOCK
            } else {
                DEPOT_DOCK
            };
            if self.follow(20) {
                if self.cargo.is_some() {
                    self.on_site = true;
                } else {
                    self.timer = self.timer.saturating_add(5);
                    if self.timer >= self.interval * 5 {
                        self.timer = 0;
                        let amount: u64 = 32 + 24 * (self.level as u64);
                        self.cargo = Some(amount);
                        self.target_pos = DEPOT_DOCK;
                        return Some((Resources::Metals, amount));
                    }
                }
            }
        }
        None
    }

    /// Points the drone at `eligible[pick % len]`; with no eligible asteroid, nothing changes.
    fn retarget(&mut self, eligible: &Vec<Target>, pick: u32)
        requires
            old(self).wf(),
            targets_ok(eligible@),
        ensures
            final(self).wf(),
            eligible@.len() > 0 ==> final(self).asteroid_id == Some(eligible@[(pick as int) % (eligible@.len() as int)].0)
                && final(self).target_pos == eligible@[(pick as int) % (eligible@.len() as int)].1,
            eligible@.len() == 0 ==> final(self).asteroid_id == old(self).asteroid_id
                && final(self).target_pos == old(self).target_pos,
            *final(self) == retargeted(*old(self), eligible@, pick),
            final(self).pos == old(self).pos,
            final(self).timer == old(self).timer,
            final(self).on_site == old(self).on_site,
            final(self).cargo == old(self).cargo,
            final(self).level == old(self).level,
            final(self).speed == old(self).speed,
            final(self).interval == old(self).interval,
    {
        let n = eligible.len();
        if n > 0 {
            let i = (pick as usize) % n;
            let (id, at) = eligible[i];
            self.asteroid_id = Some(id);
            self.target_pos = at;
        }
    }

    /// Mining (asteroid mines). Empty, the drone flies to its asteroid while it stays
    /// eligible and drills it for `interval` ticks (faster with speed), then flies home
    /// loaded. An asteroid that left the eligible list is replaced by
    /// `eligible[pick % len]`; with none eligible the drone waits. At home it unloads for
    /// a quarter `interval`, yields one production (true) and picks its next asteroid.
    pub fn update_mining(&mut self, eligible: &Vec<Target>, pick: u32) -> (produced: bool)
        requires
            old(self).wf(),
            targets_ok(eligible@),
        ensures
            final(self).wf(),
            (*final(self), produced) == mine_step(*old(self), eligible@, pick),
            produced == (old(self).on_site && tick_by(old(self).timer, 2 + old(self).speed) >= old(self).interval / 2),
            produced ==> final(self).cargo.is_none() && !final(self).on_site && final(self).timer == 0,
            produced && eligible@.len() > 0 ==> final(self).asteroid_id == Some(eligible@[(pick as int) % (eligible@.len() as int)].0),
            !old(self).on_site && old(self).cargo.is_none() && !(old(self).asteroid_id.is_some() && listed(eligible@, old(self).asteroid_id.unwrap()))
                && eligible@.len() == 0 ==> final(self).asteroid_id == old(self).asteroid_id
                && final(self).timer == old(self).timer && final(self).cargo.is_none(),
            final(self).level == old(self).level,
            final(self).speed == old(self).speed,
            final(self).interval == old(self).interval,
    {
        if self.on_site {
            self.timer = self.timer.saturating_add(2 + self.speed as u64);
            if self.timer >= self.interval / 2 {
                self.timer = 0;
                self.cargo = None;
                self.retarget(eligible, pick);
                self.on_site = false;
                return true;
            }
            return false;
        }
        let done = self.follow(15);
        if self.cargo.is_none() {
            let current = match self.asteroid_id {
                Some(id) => find_target(eligible, id),
                None => None,
            };
            match current {
                Some(at) => {
                    proof {
                        let id = self.asteroid_id.unwrap();
                        let i = choose|i: int| 0 <= i < eligible@.len() && #[trigger] eligible@[i] == (id, at);
                        assert(point_ok(eligible@[i].1));
                    }
                    self.target_pos = at;
                    if done {
                        self.timer = self.timer.saturating_add(100 + 15 * (self.speed as u64));
                        if self.timer >= self.interval * 100 {
                            self.timer = 0;
                            self.cargo = Some(0);
                            self.target_pos = MINES_HOME;
                        }
                    }
                },
                None => {
                    self.retarget(eligible, pick);
                },
            }
        } else if done {
            self.on_site = true;
        }
        false
    }
}

} // verus!
