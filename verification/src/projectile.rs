//! A projectile flight under gravity and wind, drawn onto a canvas.
//!
//! Each tick moves the projectile by its velocity and bends the velocity by
//! the net acceleration.  The flight is followed while the projectile stays
//! in view and keeps either velocity or acceleration; a net downward
//! acceleration guarantees that the flight ends.

use vstd::prelude::*;

use crate::canvas::Canvas;
use crate::color::Color;
use crate::fixed::{in_range, LIMIT, ONE};

verus! {

/// A plane vector of fixed-point components.
#[derive(Clone, Copy, Debug, PartialEq, Eq, Structural)]
pub struct Vec2 {
    pub x: i64,
    pub y: i64,
}

/// A projectile: where it is and how fast it moves, in canvas units.
#[derive(Clone, Copy, Debug, PartialEq, Eq, Structural)]
pub struct Projectile {
    pub position: Vec2,
    pub velocity: Vec2,
}

/// What bends the flight: gravity and wind, each an acceleration per tick.
#[derive(Clone, Copy, Debug, PartialEq, Eq, Structural)]
pub struct Environment {
    pub gravity: Vec2,
    pub wind: Vec2,
}

/// The mathematical state of a flight: unbounded position and velocity.
pub struct FlightState {
    pub px: int,
    pub py: int,
    pub vx: int,
    pub vy: int,
}

/// One tick of flight: the position moves by the velocity, the velocity
/// bends by the net acceleration.
pub open spec fn step(ax: int, ay: int, s: FlightState) -> FlightState {
    FlightState { px: s.px + s.vx, py: s.py + s.vy, vx: s.vx + ax, vy: s.vy + ay }
}

/// The state after `n` ticks.
pub open spec fn iterate(ax: int, ay: int, s: FlightState, n: nat) -> FlightState
    decreases n,
{
    if n == 0 {
        s
    } else {
        step(ax, ay, iterate(ax, ay, s, (n - 1) as nat))
    }
}

/// The state lies inside a `width` by `height` canvas (in canvas units of
/// `ONE` per pixel).
pub open spec fn in_view_state(s: FlightState, width: int, height: int) -> bool {
    0 <= s.px < width * ONE && 0 <= s.py < height * ONE
}

/// The state still moves.
pub open spec fn moving_state(s: FlightState) -> bool {
    s.vx != 0 || s.vy != 0
}

impl Vec2 {
    /// A plane vector from its two components.
    pub fn new(x: i64, y: i64) -> (v: Vec2)
        ensures
            v == (Vec2 { x, y }),
    {
        Vec2 { x, y }
    }

    /// Both components lie in the working range.
    pub open spec fn bounded(self) -> bool {
        in_range(self.x as int) && in_range(self.y as int)
    }
}

impl Projectile {
    /// A projectile from its position and velocity.
    pub fn new(position: Vec2, velocity: Vec2) -> (p: Projectile)
        ensures
            p == (Projectile { position, velocity }),
    {
        Projectile { position, velocity }
    }

    /// The unbounded flight state this projectile holds.
    pub open spec fn spec_state(self) -> FlightState {
        FlightState {
            px: self.position.x as int,
            py: self.position.y as int,
            vx: self.velocity.x as int,
            vy: self.velocity.y as int,
        }
    }

    /// Is the projectile inside a `width` by `height` canvas?
    pub fn is_in_view(&self, width: usize, height: usize) -> (r: bool)
        requires
            width * ONE <= LIMIT,
            height * ONE <= LIMIT,
        ensures
            r == in_view_state(self.spec_state(), width as int, height as int),
    {
        self.position.x >= 0 && self.position.x < (width as i64) * ONE && self.position.y >= 0
            && self.position.y < (height as i64) * ONE
    }

    /// Is the projectile moving at all?
    pub fn has_velocity(&self) -> (r: bool)
        ensures
            r == moving_state(self.spec_state()),
    {
        self.velocity.x != 0 || self.velocity.y != 0
    }

    /// Both velocity components lie in the working range.
    pub fn velocity_in_range(&self) -> (r: bool)
        ensures
            r == self.velocity.bounded(),
    {
        -LIMIT <= self.velocity.x && self.velocity.x <= LIMIT && -LIMIT <= self.velocity.y
            && self.velocity.y <= LIMIT
    }
}

impl Environment {
    /// An environment from its gravity and wind.
    pub fn new(gravity: Vec2, wind: Vec2) -> (e: Environment)
        ensures
            e == (Environment { gravity, wind }),
    {
        Environment { gravity, wind }
    }

    /// The net horizontal acceleration per tick.
    pub open spec fn accel_x(self) -> int {
        self.gravity.x + self.wind.x
    }

    /// The net vertical acceleration per tick.
    pub open spec fn accel_y(self) -> int {
        self.gravity.y + self.wind.y
    }

    /// Both acceleration sums lie in the working range.
    pub open spec fn bounded(self) -> bool {
        self.gravity.bounded() && self.wind.bounded() && in_range(self.accel_x()) && in_range(
            self.accel_y(),
        )
    }

    /// Does the environment bend the velocity at all?
    pub fn has_acceleration(&self) -> (r: bool)
        requires
            self.bounded(),
        ensures
            r == (self.accel_x() != 0 || self.accel_y() != 0),
    {
        self.gravity.x + self.wind.x != 0 || self.gravity.y + self.wind.y != 0
    }
}

/// Advance the projectile by one tick.
pub fn tick(env: &Environment, proj: Projectile) -> (next: Projectile)
    requires
        env.bounded(),
        proj.position.bounded(),
        proj.velocity.bounded(),
    ensures
        next.spec_state() == step(env.accel_x(), env.accel_y(), proj.spec_state()),
{
    Projectile {
        position: Vec2 {
            x: proj.position.x + proj.velocity.x,
            y: proj.position.y + proj.velocity.y,
        },
        velocity: Vec2 {
            x: proj.velocity.x + env.gravity.x + env.wind.x,
            y: proj.velocity.y + env.gravity.y + env.wind.y,
        },
    }
}

/// The canvas cell a state in view falls into: the position is scaled down
/// to whole pixels, and the row is flipped because the canvas counts rows
/// downward while the flight counts height upward.
pub open spec fn pixel_of_state(s: FlightState, height: int) -> (int, int) {
    (s.px / (ONE as int), height - 1 - s.py / (ONE as int))
}

/// The `i`th collected cell is the cell of the `i`th flight state, which
/// lies in view.
pub open spec fn path_entry_ok(
    path: Seq<(usize, usize)>,
    ax: int,
    ay: int,
    s0: FlightState,
    width: int,
    height: int,
    i: int,
) -> bool {
    let s = iterate(ax, ay, s0, i as nat);
    &&& in_view_state(s, width, height)
    &&& path[i].0 == pixel_of_state(s, height).0
    &&& path[i].1 == pixel_of_state(s, height).1
    &&& path[i].0 < width
    &&& path[i].1 < height
}

/// Follow a flight tick by tick and collect the canvas cell of every state
/// that lies in view, until the projectile leaves the view, stops dead with
/// nothing to bend its path, or its velocity leaves the working range.  The
/// required net downward acceleration makes the flight end: the velocity
/// sinks, and then so does the projectile.
pub fn trajectory(env: &Environment, start: Projectile, width: usize, height: usize) -> (path: Vec<
    (usize, usize),
>)
    requires
        env.bounded(),
        env.accel_y() <= -1,
        start.position.bounded(),
        start.velocity.bounded(),
        1 <= width,
        1 <= height,
        width * ONE <= LIMIT,
        height * ONE <= LIMIT,
    ensures
        forall|i: int|
            0 <= i < path.len() ==> path_entry_ok(
                path@,
                env.accel_x(),
                env.accel_y(),
                start.spec_state(),
                width as int,
                height as int,
                i,
            ),
        !{
            let s = iterate(env.accel_x(), env.accel_y(), start.spec_state(), path.len() as nat);
            &&& in_view_state(s, width as int, height as int)
            &&& moving_state(s) || env.accel_x() != 0 || env.accel_y() != 0
            &&& in_range(s.vx) && in_range(s.vy)
        },
{
    let ghost s0 = start.spec_state();
    let ghost ax = env.accel_x();
    let ghost ay = env.accel_y();
    let mut p = start;
    let mut path: Vec<(usize, usize)> = Vec::new();
    while p.is_in_view(width, height) && (p.has_velocity() || env.has_acceleration())
        && p.velocity_in_range()
        invariant
            env.bounded(),
            ay == env.accel_y(),
            ax == env.accel_x(),
            ay <= -1,
            s0 == start.spec_state(),
            1 <= width && width * ONE <= LIMIT,
            1 <= height && height * ONE <= LIMIT,
            p.spec_state() == iterate(ax, ay, s0, path@.len() as nat),
            forall|i: int|
                0 <= i < path@.len() ==> path_entry_ok(
                    path@,
                    ax,
                    ay,
                    s0,
                    width as int,
                    height as int,
                    i,
                ),
        decreases
            (if p.spec_state().vy >= 0 {
                p.spec_state().vy + 1
            } else {
                0
            }),
            (if p.spec_state().py >= 0 {
                p.spec_state().py + 1
            } else {
                0
            }),
    {
        proof {
            lemma_div_floor_below(p.position.x as int, width as int, ONE as int);
            lemma_div_floor_below(p.position.y as int, height as int, ONE as int);
        }
        let cx: usize = ((p.position.x as u64) / (ONE as u64)) as usize;
        let cy: usize = height - 1 - ((p.position.y as u64) / (ONE as u64)) as usize;
        let ghost prefix = path@;
        path.push((cx, cy));
        proof {
            assert(path@[path@.len() - 1] == (cx, cy));
            assert(iterate(ax, ay, s0, path@.len() as nat) == step(
                ax,
                ay,
                iterate(ax, ay, s0, (path@.len() - 1) as nat),
            ));
            assert forall|i: int| 0 <= i < path@.len() implies path_entry_ok(
                path@,
                ax,
                ay,
                s0,
                width as int,
                height as int,
                i,
            ) by {
                if i < prefix.len() {
                    assert(path_entry_ok(prefix, ax, ay, s0, width as int, height as int, i));
                    assert(path@[i] == prefix[i]);
                } else {
                    assert(path@[i] == (cx, cy));
                }
            }
        }
        p = tick(env, p);
    }
    path
}

/// After `n` ticks the velocity has absorbed the net acceleration `n`
/// times.
pub proof fn lemma_velocity_after_ticks(ax: int, ay: int, s: FlightState, n: nat)
    ensures
        iterate(ax, ay, s, n).vx == s.vx + n * ax,
        iterate(ax, ay, s, n).vy == s.vy + n * ay,
    decreases n,
{
    if n == 0 {
        assert(n * ax == 0) by (nonlinear_arith)
            requires
                n == 0,
        ;
        assert(n * ay == 0) by (nonlinear_arith)
            requires
                n == 0,
        ;
    } else {
        let m: nat = (n - 1) as nat;
        lemma_velocity_after_ticks(ax, ay, s, m);
        assert(iterate(ax, ay, s, n) == step(ax, ay, iterate(ax, ay, s, m)));
        assert(m * ax + ax == n * ax) by (nonlinear_arith)
            requires
                m == n - 1,
        ;
        assert(m * ay + ay == n * ay) by (nonlinear_arith)
            requires
                m == n - 1,
        ;
    }
}

/// Under a net downward acceleration the flight sinks: after enough ticks
/// the vertical velocity has turned negative, and from then on every
/// further tick strictly lowers the height.  This is what lets the flight
/// loop stop instead of running forever.
pub proof fn lemma_flight_descends(ax: int, ay: int, s: FlightState, n: nat)
    requires
        ay <= -1,
        n > s.vy,
    ensures
        iterate(ax, ay, s, n).vy < 0,
        iterate(ax, ay, s, n + 1).py < iterate(ax, ay, s, n).py,
{
    lemma_velocity_after_ticks(ax, ay, s, n);
    assert(s.vy + n * ay < 0) by (nonlinear_arith)
        requires
            ay <= -1,
            n > s.vy,
            n >= 0,
    ;
    assert(iterate(ax, ay, s, n + 1) == step(ax, ay, iterate(ax, ay, s, n)));
}

/// A non-negative value below `bound * d` scales down by `d` to below
/// `bound`.
proof fn lemma_div_floor_below(v: int, bound: int, d: int)
    requires
        0 <= v,
        d >= 1,
        v < bound * d,
    ensures
        0 <= v / d < bound,
{
    assert(0 <= v / d < bound) by (nonlinear_arith)
        requires
            0 <= v,
            d >= 1,
            v < bound * d,
    ;
}

/// Some cell among the first `upto` of `path` is `(x, y)`.
pub open spec fn painted(path: Seq<(usize, usize)>, upto: int, x: int, y: int) -> bool {
    exists|i: int| 0 <= i < upto && (#[trigger] path[i]).0 == x && path[i].1 == y
}

/// Follow a flight and draw it onto the canvas: the returned path is the
/// flight's `trajectory`, every cell on it ends up in the given color, and
/// every other cell keeps its color.
pub fn draw_trajectory(
    canvas: &mut Canvas,
    env: &Environment,
    start: Projectile,
    color: Color,
) -> (path: Vec<(usize, usize)>)
    requires
        old(canvas).wf(),
        env.bounded(),
        env.accel_y() <= -1,
        start.position.bounded(),
        start.velocity.bounded(),
        1 <= old(canvas).spec_width(),
        1 <= old(canvas).spec_height(),
        old(canvas).spec_width() * ONE <= LIMIT,
        old(canvas).spec_height() * ONE <= LIMIT,
    ensures
        final(canvas).wf(),
        final(canvas).spec_width() == old(canvas).spec_width(),
        final(canvas).spec_height() == old(canvas).spec_height(),
        forall|i: int|
            0 <= i < path.len() ==> path_entry_ok(
                path@,
                env.accel_x(),
                env.accel_y(),
                start.spec_state(),
                old(canvas).spec_width(),
                old(canvas).spec_height(),
                i,
            ),
        forall|i: int|
            0 <= i < path.len() ==> final(canvas).spec_pixel(
                (#[trigger] path[i]).0 as int,
                path[i].1 as int,
            ) == color,
        forall|x: int, y: int|
            0 <= x < old(canvas).spec_width() && 0 <= y < old(canvas).spec_height() && !painted(
                path@,
                path.len() as int,
                x,
                y,
            ) ==> final(canvas).spec_pixel(x, y) == old(canvas).spec_pixel(x, y),
{
    let width = canvas.width();
    let height = canvas.height();
    let path = trajectory(env, start, width, height);
    let mut j: usize = 0;
    while j < path.len()
        invariant
            canvas.wf(),
            canvas.spec_width() == old(canvas).spec_width(),
            canvas.spec_height() == old(canvas).spec_height(),
            width == canvas.spec_width(),
            height == canvas.spec_height(),
            j <= path.len(),
            forall|i: int|
                0 <= i < path.len() ==> path_entry_ok(
                    path@,
                    env.accel_x(),
                    env.accel_y(),
                    start.spec_state(),
                    width as int,
                    height as int,
                    i,
                ),
            forall|i: int|
                0 <= i < j ==> canvas.spec_pixel(
                    (#[trigger] path@[i]).0 as int,
                    path@[i].1 as int,
                ) == color,
            forall|x: int, y: int|
                0 <= x < old(canvas).spec_width() && 0 <= y < old(canvas).spec_height() && !painted(
                    path@,
                    j as int,
                    x,
                    y,
                ) ==> canvas.spec_pixel(x, y) == old(canvas).spec_pixel(x, y),
        decreases path.len() - j,
    {
        proof {
            assert(path_entry_ok(
                path@,
                env.accel_x(),
                env.accel_y(),
                start.spec_state(),
                width as int,
                height as int,
                j as int,
            ));
        }
        let (x, y) = path[j];
        let ghost before = *canvas;
        canvas.set_pixel(x, y, color);
        proof {
            assert forall|i: int| 0 <= i < j + 1 implies canvas.spec_pixel(
                (#[trigger] path@[i]).0 as int,
                path@[i].1 as int,
            ) == color by {
                assert(path_entry_ok(
                    path@,
                    env.accel_x(),
                    env.accel_y(),
                    start.spec_state(),
                    width as int,
                    height as int,
                    i,
                ));
                if !(path@[i].0 == x && path@[i].1 == y) {
                    assert(canvas.spec_pixel(path@[i].0 as int, path@[i].1 as int) == before
                        .spec_pixel(path@[i].0 as int, path@[i].1 as int));
                }
            }
            assert forall|a: int, b: int|
                0 <= a < old(canvas).spec_width() && 0 <= b < old(canvas).spec_height() && !painted(
                    path@,
                    j + 1,
                    a,
                    b,
                ) implies canvas.spec_pixel(a, b) == old(canvas).spec_pixel(a, b) by {
                assert(!(a == x && b == y)) by {
                    if a == x && b == y {
                        assert(path@[j as int].0 == a && path@[j as int].1 == b);
                    }
                }
                assert(!painted(path@, j as int, a, b));
            }
        }
        j = j + 1;
    }
    path
}

} // verus!
