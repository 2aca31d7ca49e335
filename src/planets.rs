use vstd::arithmetic::div_mod::lemma_mod_multiples_vanish;
use vstd::prelude::*;

use crate::constant::{MOON_ORBITAL_PERIOD, MOON_ROTATION_PERIOD, NANOS_PER_SECOND, TIME_SCALE};

verus! {

/// The fraction `num / den` of a full turn, with `num < den`.
#[derive(Clone, Copy, Debug, PartialEq, Eq, Structural)]
pub struct Turn {
    pub num: u128,
    pub den: u128,
}

/// Simulated nanoseconds that pass in `real_nanos` nanoseconds of real time.
pub open spec fn simulated_nanos(real_nanos: nat) -> nat {
    (real_nanos * TIME_SCALE) as nat
}

/// The part of a turn made in `sim_nanos` simulated nanoseconds by a body
/// that turns once every `period_secs` simulated seconds; a period of zero
/// stands for a body that does not turn.
pub open spec fn turn_of(period_secs: nat, sim_nanos: nat) -> Turn {
    if period_secs == 0 {
        Turn { num: 0, den: 1 }
    } else {
        let den = (period_secs * NANOS_PER_SECOND) as nat;
        Turn { num: (sim_nanos % den) as u128, den: den as u128 }
    }
}

/// The part of a turn made in `real_nanos` nanoseconds of real time.
pub open spec fn turn_after_spec(period_secs: nat, real_nanos: nat) -> Turn {
    turn_of(period_secs, simulated_nanos(real_nanos))
}

/// The part of a turn that a body with period `period_secs` (in simulated
/// seconds) makes in `real_nanos` nanoseconds of real time. Whole turns are
/// dropped, so the result is exact for any span of time.
pub fn turn_after(period_secs: u64, real_nanos: u64) -> (r: Turn)
    ensures
        r == turn_after_spec(period_secs as nat, real_nanos as nat),
        r.num < r.den,
{
    if period_secs == 0 {
        Turn { num: 0, den: 1 }
    } else {
        assert(real_nanos * TIME_SCALE <= u64::MAX * 8640) by (nonlinear_arith)
            requires
                TIME_SCALE == 8640,
        ;
        assert(period_secs * NANOS_PER_SECOND <= u64::MAX * 1_000_000_000) by (nonlinear_arith)
            requires
                NANOS_PER_SECOND == 1_000_000_000,
        ;
        let sim = real_nanos as u128 * TIME_SCALE as u128;
        let den = period_secs as u128 * NANOS_PER_SECOND as u128;
        Turn { num: sim % den, den }
    }
}

/// How a body moves in one frame: the spin it adds about its own vertical
/// axis, and the absolute phase of its orbit.
#[derive(Clone, Copy, Debug, PartialEq, Eq, Structural)]
pub struct PlanetMotion {
    pub spin: Turn,
    pub orbit: Turn,
}

/// The motion of a body with the given periods, in the frame that ends
/// `elapsed_nanos` after the start and lasted `delta_nanos`.
pub open spec fn motion_of(
    rotation_period: nat,
    orbital_period: nat,
    elapsed_nanos: nat,
    delta_nanos: nat,
) -> PlanetMotion {
    PlanetMotion {
        spin: turn_after_spec(rotation_period, delta_nanos),
        orbit: turn_after_spec(orbital_period, elapsed_nanos),
    }
}

/// A body on a circular orbit about the Sun.
pub trait Planets {
    /// The body's orbit radius, as the contracts see it.
    spec fn spec_distance_to_sun(&self) -> nat;

    /// The body's radius, as the contracts see it.
    spec fn spec_radius(&self) -> nat;

    /// The body's rotation period, as the contracts see it.
    spec fn spec_rotation_period(&self) -> nat;

    /// The body's orbital period, as the contracts see it.
    spec fn spec_orbital_period(&self) -> nat;

    /// The body's name, as the contracts see it.
    spec fn spec_name(&self) -> Seq<char>;

    /// Radius of the orbit, in kilometres.
    fn distance_to_sun(&self) -> (r: u64)
        ensures
            r == self.spec_distance_to_sun(),
    ;

    /// Radius of the body, in metres.
    fn radius(&self) -> (r: u64)
        ensures
            r == self.spec_radius(),
    ;

    /// Simulated seconds for one turn about its own axis.
    fn rotation_period(&self) -> (r: u64)
        ensures
            r == self.spec_rotation_period(),
    ;

    /// Simulated seconds for one orbit.
    fn orbital_period(&self) -> (r: u64)
        ensures
            r == self.spec_orbital_period(),
    ;

    fn name(&self) -> (r: &str)
        ensures
            r@ == self.spec_name(),
    ;
}

/// A planet with no body that orbits it.
pub struct CommonPlanets {
    pub distance_to_sun: u64,
    pub radius: u64,
    pub rotation_period: u64,
    pub orbital_period: u64,
    pub name: String,
}

impl CommonPlanets {
    pub fn new(
        distance_to_sun: u64,
        radius: u64,
        rotation_period: u64,
        orbital_period: u64,
        name: String,
    ) -> (r: Self)
        ensures
            r.distance_to_sun == distance_to_sun,
            r.radius == radius,
            r.rotation_period == rotation_period,
            r.orbital_period == orbital_period,
            r.name@ == name@,
    {
        CommonPlanets { distance_to_sun, radius, rotation_period, orbital_period, name }
    }
}

impl Planets for CommonPlanets {
    open spec fn spec_distance_to_sun(&self) -> nat {
        self.distance_to_sun as nat
    }

    open spec fn spec_radius(&self) -> nat {
        self.radius as nat
    }

    open spec fn spec_rotation_period(&self) -> nat {
        self.rotation_period as nat
    }

    open spec fn spec_orbital_period(&self) -> nat {
        self.orbital_period as nat
    }

    open spec fn spec_name(&self) -> Seq<char> {
        self.name@
    }

    fn distance_to_sun(&self) -> (r: u64) {
        self.distance_to_sun
    }

    fn radius(&self) -> (r: u64) {
        self.radius
    }

    fn rotation_period(&self) -> (r: u64) {
        self.rotation_period
    }

    fn orbital_period(&self) -> (r: u64) {
        self.orbital_period
    }

    fn name(&self) -> (r: &str) {
        self.name.as_str()
    }
}

/// The Earth: a planet that the Moon orbits.
pub struct Earth {
    pub distance_to_sun: u64,
    pub radius: u64,
    pub rotation_period: u64,
    pub orbital_period: u64,
    pub name: String,
}

impl Earth {
    pub fn new(
        distance_to_sun: u64,
        radius: u64,
        rotation_period: u64,
        orbital_period: u64,
        name: String,
    ) -> (r: Self)
        ensures
            r.distance_to_sun == distance_to_sun,
            r.radius == radius,
            r.rotation_period == rotation_period,
            r.orbital_period == orbital_period,
            r.name@ == name@,
    {
        Earth { distance_to_sun, radius, rotation_period, orbital_period, name }
    }
}

impl Planets for Earth {
    open spec fn spec_distance_to_sun(&self) -> nat {
        self.distance_to_sun as nat
    }

    open spec fn spec_radius(&self) -> nat {
        self.radius as nat
    }

    open spec fn spec_rotation_period(&self) -> nat {
        self.rotation_period as nat
    }

    open spec fn spec_orbital_period(&self) -> nat {
        self.orbital_period as nat
    }

    open spec fn spec_name(&self) -> Seq<char> {
        self.name@
    }

    fn distance_to_sun(&self) -> (r: u64) {
        self.distance_to_sun
    }

    fn radius(&self) -> (r: u64) {
        self.radius
    }

    fn rotation_period(&self) -> (r: u64) {
        self.rotation_period
    }

    fn orbital_period(&self) -> (r: u64) {
        self.orbital_period
    }

    fn name(&self) -> (r: &str) {
        self.name.as_str()
    }
}

/// The Moon, which orbits the Earth's current position.
#[derive(Clone, Copy, Debug, PartialEq, Eq, Structural)]
pub struct Moon {
    /// Radius of its orbit about the Earth, in kilometres.
    pub distance_to_earth: u64,
}

impl Moon {
    pub fn new(distance_to_earth: u64) -> (r: Self)
        ensures
            r.distance_to_earth == distance_to_earth,
    {
        Moon { distance_to_earth }
    }
}

/// The motion of a planet in the frame that ends `elapsed_nanos` of real
/// time after the start and lasted `delta_nanos`: its spin for this frame,
/// and its orbit phase, which depends on the elapsed time alone.
pub fn move_planets<T: Planets>(planet: &T, elapsed_nanos: u64, delta_nanos: u64) -> (r:
    PlanetMotion)
    ensures
        r == motion_of(
            planet.spec_rotation_period(),
            planet.spec_orbital_period(),
            elapsed_nanos as nat,
            delta_nanos as nat,
        ),
{
    PlanetMotion {
        spin: turn_after(planet.rotation_period(), delta_nanos),
        orbit: turn_after(planet.orbital_period(), elapsed_nanos),
    }
}

/// The motion of the Earth in a frame, as for any planet.
pub fn move_earth(earth: &Earth, elapsed_nanos: u64, delta_nanos: u64) -> (r: PlanetMotion)
    ensures
        r == motion_of(
            earth.rotation_period as nat,
            earth.orbital_period as nat,
            elapsed_nanos as nat,
            delta_nanos as nat,
        ),
{
    move_planets(earth, elapsed_nanos, delta_nanos)
}

/// The motion of the Moon in a frame: its spin, and the phase of its orbit
/// about the Earth, whose position it is drawn relative to.
pub fn move_moon(moon: &Moon, elapsed_nanos: u64, delta_nanos: u64) -> (r: PlanetMotion)
    ensures
        r == motion_of(
            MOON_ROTATION_PERIOD as nat,
            MOON_ORBITAL_PERIOD as nat,
            elapsed_nanos as nat,
            delta_nanos as nat,
        ),
{
    PlanetMotion {
        spin: turn_after(MOON_ROTATION_PERIOD, delta_nanos),
        orbit: turn_after(MOON_ORBITAL_PERIOD, elapsed_nanos),
    }
}

/// The sum of a sequence of frame lengths.
pub open spec fn total(frames: Seq<u64>) -> nat
    decreases frames.len(),
{
    if frames.len() == 0 {
        0
    } else {
        (total(frames.drop_last()) + frames.last()) as nat
    }
}

/// Where a body stands on its orbit depends on the elapsed time alone: two
/// histories of frames that add up to the same time, however long each
/// frame, give the same orbit phase.
pub proof fn lemma_orbit_ignores_frame_history(
    rotation_period: nat,
    orbital_period: nat,
    history1: Seq<u64>,
    history2: Seq<u64>,
    last_delta1: nat,
    last_delta2: nat,
)
    requires
        total(history1) == total(history2),
    ensures
        motion_of(rotation_period, orbital_period, total(history1), last_delta1).orbit
            == motion_of(rotation_period, orbital_period, total(history2), last_delta2).orbit,
{
}

/// An orbit comes back to where it was: two instants of real time whose
/// simulated times differ by whole orbital periods have the same orbit phase.
pub proof fn lemma_orbit_period(period_secs: nat, t1: nat, t2: nat, turns: nat)
    requires
        simulated_nanos(t2) == simulated_nanos(t1) + turns * (period_secs * NANOS_PER_SECOND),
    ensures
        turn_after_spec(period_secs, t2) == turn_after_spec(period_secs, t1),
{
    if period_secs > 0 {
        let den = period_secs * NANOS_PER_SECOND;
        assert(den > 0) by (nonlinear_arith)
            requires
                period_secs > 0,
                NANOS_PER_SECOND > 0,
                den == period_secs * NANOS_PER_SECOND,
        ;
        lemma_mod_multiples_vanish(turns as int, simulated_nanos(t1) as int, den as int);
        assert(simulated_nanos(t2) == den * turns + simulated_nanos(t1)) by (nonlinear_arith)
            requires
                simulated_nanos(t2) == simulated_nanos(t1) + turns * den,
        ;
    }
}

} // verus!
