use vstd::prelude::*;

use crate::planets::total;

verus! {

/// Steps of a quarter of pi in a full turn.
pub const HEADING_STEPS: u8 = 8;

/// Speed that a projectile has over the airplane that fires it, in units per second.
pub const BULLET_SPEED_BONUS: u64 = 10;

/// Distance after which a projectile is destroyed: 100 units, counted in
/// billionths of a unit (a speed in units per second times nanoseconds).
pub const MAX_BULLET_DISTANCE: u128 = 100_000_000_000;

/// A direction of flight as two angles, each a whole number of steps of a
/// quarter of pi: `yaw` about the vertical axis, and `pitch` from the vertical.
#[derive(Clone, Copy, Debug, PartialEq, Eq, Structural)]
pub struct Heading {
    pub yaw: u8,
    pub pitch: u8,
}

/// A key of the keyboard, as far as the airplane is concerned.
#[derive(Clone, Copy, Debug, PartialEq, Eq, Structural)]
pub enum Key {
    Left,
    Right,
    Up,
    Down,
    A,
    D,
    S,
    W,
    Other,
}

/// A keyboard event: a key went down (`pressed`) or up.
#[derive(Clone, Copy, Debug, PartialEq, Eq, Structural)]
pub struct KeyEvent {
    pub key: Key,
    pub pressed: bool,
}

/// An axis of the airplane's model.
#[derive(Clone, Copy, Debug, PartialEq, Eq, Structural)]
pub enum Axis {
    Y,
    Z,
}

/// A rotation of the airplane's model by a quarter of pi about `axis`,
/// counter-clockwise where `positive`.
#[derive(Clone, Copy, Debug, PartialEq, Eq, Structural)]
pub struct ModelTurn {
    pub axis: Axis,
    pub positive: bool,
}

/// The steerable airplane: a constant speed in units per second, and a heading.
#[derive(Clone, Copy, Debug, PartialEq, Eq, Structural)]
pub struct Airplane {
    pub velocity: u32,
    pub direction: Heading,
}

/// A projectile: its speed in units per second, the heading it was fired
/// along, and the distance it has covered, in billionths of a unit.
#[derive(Clone, Copy, Debug, PartialEq, Eq, Structural)]
pub struct Bullet {
    pub velocity: u64,
    pub direction: Heading,
    pub distance: u128,
}

/// `a - 1` modulo a full turn.
pub open spec fn step_down(a: u8) -> u8 {
    ((a % HEADING_STEPS + HEADING_STEPS - 1) % HEADING_STEPS as int) as u8
}

/// `a + 1` modulo a full turn.
pub open spec fn step_up(a: u8) -> u8 {
    ((a % HEADING_STEPS + 1) % HEADING_STEPS as int) as u8
}

/// Whether the sine of `yaw` steps of a quarter of pi is at least zero.
pub open spec fn sin_nonneg(yaw: u8) -> bool {
    yaw % HEADING_STEPS <= 4
}

/// What a pressed key does to the heading, and how it turns the model: the
/// left and right arrows (or D) turn about the vertical axis, the up and
/// down arrows (or W and S) change the pitch. Other keys do nothing.
pub open spec fn steer(h: Heading, key: Key) -> Option<(Heading, ModelTurn)> {
    match key {
        Key::Left => Some(
            (Heading { yaw: step_down(h.yaw), ..h }, ModelTurn { axis: Axis::Y, positive: true }),
        ),
        Key::Right | Key::D => Some(
            (Heading { yaw: step_up(h.yaw), ..h }, ModelTurn { axis: Axis::Y, positive: false }),
        ),
        Key::Up | Key::W => Some(
            (
                Heading { pitch: step_down(h.pitch), ..h },
                ModelTurn { axis: Axis::Z, positive: sin_nonneg(h.yaw) },
            ),
        ),
        Key::Down | Key::S => Some(
            (
                Heading { pitch: step_up(h.pitch), ..h },
                ModelTurn { axis: Axis::Z, positive: !sin_nonneg(h.yaw) },
            ),
        ),
        _ => None,
    }
}

/// The heading after a frame's keyboard events, applied in order, and the
/// turns of the model that they call for. Released keys do nothing.
pub open spec fn steer_all(h: Heading, events: Seq<KeyEvent>) -> (Heading, Seq<ModelTurn>)
    decreases events.len(),
{
    if events.len() == 0 {
        (h, Seq::empty())
    } else {
        let before = steer_all(h, events.drop_last());
        let e = events.last();
        if e.pressed {
            match steer(before.0, e.key) {
                Some((next, turn)) => (next, before.1.push(turn)),
                None => before,
            }
        } else {
            before
        }
    }
}

fn turn_down(a: u8) -> (r: u8)
    ensures
        r == step_down(a),
        r < HEADING_STEPS,
{
    (a % HEADING_STEPS + HEADING_STEPS - 1) % HEADING_STEPS
}

fn turn_up(a: u8) -> (r: u8)
    ensures
        r == step_up(a),
        r < HEADING_STEPS,
{
    (a % HEADING_STEPS + 1) % HEADING_STEPS
}

impl Airplane {
    /// An airplane flying level (pitch of half pi) along the x axis.
    pub fn new(velocity: u32) -> (r: Self)
        ensures
            r.velocity == velocity,
            r.direction == (Heading { yaw: 0, pitch: 2 }),
    {
        Airplane { velocity, direction: Heading { yaw: 0, pitch: 2 } }
    }

    /// Applies one pressed key.
    fn steer(&mut self, key: Key) -> (r: Option<ModelTurn>)
        ensures
            final(self).velocity == old(self).velocity,
            match steer(old(self).direction, key) {
                Some((h, t)) => final(self).direction == h && r == Some(t),
                None => final(self).direction == old(self).direction && r is None,
            },
    {
        let yaw = self.direction.yaw;
        let pitch = self.direction.pitch;
        match key {
            Key::Left => {
                self.direction.yaw = turn_down(yaw);
                Some(ModelTurn { axis: Axis::Y, positive: true })
            },
            Key::Right | Key::D => {
                self.direction.yaw = turn_up(yaw);
                Some(ModelTurn { axis: Axis::Y, positive: false })
            },
            Key::Up | Key::W => {
                self.direction.pitch = turn_down(pitch);
                Some(ModelTurn { axis: Axis::Z, positive: yaw % HEADING_STEPS <= 4 })
            },
            Key::Down | Key::S => {
                self.direction.pitch = turn_up(pitch);
                Some(ModelTurn { axis: Axis::Z, positive: !(yaw % HEADING_STEPS <= 4) })
            },
            _ => None,
        }
    }
}

/// Applies a frame's keyboard events to the airplane's heading, in order and
/// each on top of the last, and returns the turns of its model, in order.
pub fn airplane_direction(plane: &mut Airplane, events: &Vec<KeyEvent>) -> (turns: Vec<ModelTurn>)
    ensures
        final(plane).velocity == old(plane).velocity,
        final(plane).direction == steer_all(old(plane).direction, events@).0,
        turns@ == steer_all(old(plane).direction, events@).1,
{
    let ghost start = plane.direction;
    let mut turns: Vec<ModelTurn> = Vec::new();
    let mut i: usize = 0;
    while i < events.len()
        invariant
            i <= events@.len(),
            plane.velocity == old(plane).velocity,
            start == old(plane).direction,
            plane.direction == steer_all(start, events@.take(i as int)).0,
            turns@ == steer_all(start, events@.take(i as int)).1,
        decreases events@.len() - i,
    {
        let e = events[i];
        assert(events@.take(i + 1).drop_last() =~= events@.take(i as int));
        if e.pressed {
            match plane.steer(e.key) {
                Some(t) => turns.push(t),
                None => {},
            }
        }
        i += 1;
    }
    assert(events@.take(events@.len() as int) =~= events@);
    turns
}

impl Bullet {
    /// A projectile at the start of its flight.
    pub fn new(velocity: u64, direction: Heading) -> (r: Self)
        ensures
            r == (Bullet { velocity, direction, distance: 0 }),
    {
        Bullet { velocity, direction, distance: 0 }
    }
}

/// The projectile that the fire key fires from `plane`, if it was pressed
/// this frame: faster than the airplane by the bonus, along its heading.
pub open spec fn fired(plane: Airplane, fire_just_pressed: bool) -> Option<Bullet> {
    if fire_just_pressed {
        Some(
            Bullet {
                velocity: (plane.velocity + BULLET_SPEED_BONUS) as u64,
                direction: plane.direction,
                distance: 0,
            },
        )
    } else {
        None
    }
}

/// Fires one projectile in a frame where the fire key went down.
pub fn spawn_bullet(plane: &Airplane, fire_just_pressed: bool) -> (r: Option<Bullet>)
    ensures
        r == fired(*plane, fire_just_pressed),
{
    if fire_just_pressed {
        Some(Bullet::new(plane.velocity as u64 + BULLET_SPEED_BONUS, plane.direction))
    } else {
        None
    }
}

/// A projectile after a frame of `delta_nanos` nanoseconds: it covers its
/// speed times the frame's length (a count that stops at the largest `u128`).
pub open spec fn bullet_step(b: Bullet, delta_nanos: u64) -> Bullet {
    let covered = b.distance + b.velocity * delta_nanos;
    Bullet {
        distance: if covered > u128::MAX {
            u128::MAX
        } else {
            covered as u128
        },
        ..b
    }
}

/// Moves a projectile through one frame; returns whether it has now covered
/// the largest distance, and is to be destroyed.
pub fn control_bullet(bullet: &mut Bullet, delta_nanos: u64) -> (despawn: bool)
    ensures
        *final(bullet) == bullet_step(*old(bullet), delta_nanos),
        despawn == (final(bullet).distance >= MAX_BULLET_DISTANCE),
{
    assert(bullet.velocity * delta_nanos <= u64::MAX * u64::MAX) by (nonlinear_arith);
    let covered: u128 = bullet.velocity as u128 * delta_nanos as u128;
    if bullet.distance > u128::MAX - covered {
        bullet.distance = u128::MAX;
    } else {
        bullet.distance = bullet.distance + covered;
    }
    bullet.distance >= MAX_BULLET_DISTANCE
}

/// A projectile after a sequence of frames.
pub open spec fn fly(b: Bullet, frames: Seq<u64>) -> Bullet
    decreases frames.len(),
{
    if frames.len() == 0 {
        b
    } else {
        bullet_step(fly(b, frames.drop_last()), frames.last())
    }
}

/// Whether the projectile is destroyed in frame `k` of `frames`: whether
/// that frame's step reports the largest distance covered.
pub open spec fn despawned_in_frame(b: Bullet, frames: Seq<u64>, k: int) -> bool {
    bullet_step(fly(b, frames.take(k)), frames[k]).distance >= MAX_BULLET_DISTANCE
}

proof fn lemma_fly(b: Bullet, frames: Seq<u64>)
    ensures
        fly(b, frames).velocity == b.velocity,
        fly(b, frames).direction == b.direction,
        fly(b, frames).distance == if b.distance + b.velocity * total(frames) > u128::MAX {
            u128::MAX as int
        } else {
            b.distance + b.velocity * total(frames)
        },
    decreases frames.len(),
{
    if frames.len() > 0 {
        let rest = frames.drop_last();
        lemma_fly(b, rest);
        let x = frames.last();
        assert(fly(b, frames) == bullet_step(fly(b, rest), x));
        assert(total(frames) == total(rest) + x);
        assert(b.velocity * total(frames) == b.velocity * total(rest) + b.velocity * x)
            by (nonlinear_arith)
            requires
                total(frames) == total(rest) + x,
        ;
        assert(b.velocity * total(rest) >= 0) by (nonlinear_arith);
        assert(b.velocity * x >= 0) by (nonlinear_arith);
        let prev = fly(b, rest);
        let d = b.distance + b.velocity * total(rest);
        let vx = b.velocity * x;
        assert(prev.velocity * x == vx);
        if d > u128::MAX {
            assert(prev.distance == u128::MAX);
        } else {
            assert(prev.distance == d);
        }
        assert(d + vx == b.distance + b.velocity * total(frames));
        assert(fly(b, frames).distance == if prev.distance + vx > u128::MAX {
            u128::MAX as int
        } else {
            prev.distance + vx
        });
    } else {
        assert(total(frames) == 0);
        assert(fly(b, frames) == b);
    }
}

proof fn lemma_total_prefix_monotone(frames: Seq<u64>, j: int, k: int)
    requires
        0 <= j <= k <= frames.len(),
    ensures
        total(frames.take(j)) <= total(frames.take(k)),
    decreases k - j,
{
    if j < k {
        lemma_total_prefix_monotone(frames, j, k - 1);
        assert(frames.take(k).drop_last() =~= frames.take(k - 1));
    }
}

proof fn lemma_total_at_least_len(frames: Seq<u64>)
    requires
        forall|i: int| 0 <= i < frames.len() ==> frames[i] >= 1,
    ensures
        total(frames) >= frames.len(),
    decreases frames.len(),
{
    if frames.len() > 0 {
        lemma_total_at_least_len(frames.drop_last());
    }
}

proof fn lemma_despawned_iff(b: Bullet, frames: Seq<u64>, k: int)
    requires
        b.distance == 0,
        0 <= k < frames.len(),
    ensures
        despawned_in_frame(b, frames, k) <==> b.velocity * total(frames.take(k + 1))
            >= MAX_BULLET_DISTANCE,
{
    let upto = frames.take(k + 1);
    assert(upto.drop_last() =~= frames.take(k));
    assert(upto.last() == frames[k]);
    assert(fly(b, upto) == bullet_step(fly(b, frames.take(k)), frames[k]));
    lemma_fly(b, upto);
}

/// A projectile fired with speed `s` (distance zero) is destroyed in the
/// first frame at whose end `s` times the time since it was fired reaches
/// the largest distance: in frame `k` exactly when that holds of the first
/// `k + 1` frames, never in an earlier one, and once the largest distance
/// is reached it stays reached.
pub proof fn lemma_bullet_lifetime(b: Bullet, frames: Seq<u64>, j: int, k: int)
    requires
        b.distance == 0,
        0 <= j <= k < frames.len(),
    ensures
        despawned_in_frame(b, frames, k) <==> b.velocity * total(frames.take(k + 1))
            >= MAX_BULLET_DISTANCE,
        despawned_in_frame(b, frames, j) ==> despawned_in_frame(b, frames, k),
{
    lemma_despawned_iff(b, frames, j);
    lemma_despawned_iff(b, frames, k);
    lemma_total_prefix_monotone(frames, j + 1, k + 1);
    let tj = total(frames.take(j + 1));
    let tk = total(frames.take(k + 1));
    assert(b.velocity * tj <= b.velocity * tk) by (nonlinear_arith)
        requires
            tj <= tk,
    ;
}

/// A moving projectile does not last for ever: with a speed of at least one
/// unit per second and frames of at least a nanosecond, it is destroyed by
/// the frame whose number reaches the largest distance.
pub proof fn lemma_bullet_ends(b: Bullet, frames: Seq<u64>, k: int)
    requires
        b.distance == 0,
        b.velocity >= 1,
        forall|i: int| 0 <= i < frames.len() ==> frames[i] >= 1,
        0 <= k < frames.len(),
        k + 1 >= MAX_BULLET_DISTANCE,
    ensures
        despawned_in_frame(b, frames, k),
{
    lemma_despawned_iff(b, frames, k);
    let upto = frames.take(k + 1);
    lemma_total_at_least_len(upto);
    let t = total(upto);
    assert(b.velocity * t >= t) by (nonlinear_arith)
        requires
            b.velocity >= 1,
    ;
}

} // verus!
