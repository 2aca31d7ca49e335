use vstd::prelude::*;

verus! {

/// Simulated seconds that pass in one real second (ten real seconds make a day).
pub const TIME_SCALE: u64 = 8640;

/// Nanoseconds in one second.
pub const NANOS_PER_SECOND: u64 = 1_000_000_000;

/// Seconds in one day.
pub const ONE_DAY_SECONDS: u64 = 86400;

/// Seconds in a hundredth of a day.
pub const CENTIDAY_SECONDS: u64 = 864;

/// A body's model is drawn at its radius in kilometres divided by this.
pub const PLANET_GLTF_SCALE_DIVISOR: u64 = 500;

pub const SUN_NAME: &'static str = "Sun";
/// Radius in metres.
pub const SUN_RADIUS: u64 = 696_000_000;

pub const MERCURY_NAME: &'static str = "Mercury";
/// Orbital period in simulated seconds (87.97 days).
pub const MERCURY_ORBITAL_PERIOD: u64 = 8797 * CENTIDAY_SECONDS;
/// Rotation period in simulated seconds (59 days).
pub const MERCURY_ROTATION_PERIOD: u64 = 59 * ONE_DAY_SECONDS;
/// Radius in metres.
pub const MERCURY_RADIUS: u64 = 2_439_700;
/// Distance to the Sun in kilometres.
pub const MERCURY_DISTANCE_TO_SUN: u64 = 58_000_000;

pub const VENUS_NAME: &'static str = "Venus";
/// 224.7 days.
pub const VENUS_ORBITAL_PERIOD: u64 = 22470 * CENTIDAY_SECONDS;
/// 243 days.
pub const VENUS_ROTATION_PERIOD: u64 = 243 * ONE_DAY_SECONDS;
pub const VENUS_RADIUS: u64 = 6_051_800;
pub const VENUS_DISTANCE_TO_SUN: u64 = 108_000_000;

pub const EARTH_NAME: &'static str = "Earth";
/// 365.26 days.
pub const EARTH_ORBITAL_PERIOD: u64 = 36526 * CENTIDAY_SECONDS;
/// One day.
pub const EARTH_ROTATION_PERIOD: u64 = ONE_DAY_SECONDS;
pub const EARTH_RADIUS: u64 = 6_371_000;
pub const EARTH_DISTANCE_TO_SUN: u64 = 149_597_871;

pub const MOON_NAME: &'static str = "Moon";
/// 27.3 days, around the Earth.
pub const MOON_ORBITAL_PERIOD: u64 = 2730 * CENTIDAY_SECONDS;
/// 27.3 days: the Moon always shows the Earth the same face.
pub const MOON_ROTATION_PERIOD: u64 = 2730 * CENTIDAY_SECONDS;
pub const MOON_RADIUS: u64 = 1_737_100;
/// Distance to the Earth in kilometres.
pub const MOON_DISTANCE_TO_EARTH: u64 = 384_400;

pub const MARS_NAME: &'static str = "Mars";
/// 687 days.
pub const MARS_ORBITAL_PERIOD: u64 = 687 * ONE_DAY_SECONDS;
/// 24 hours 37 minutes.
pub const MARS_ROTATION_PERIOD: u64 = (24 * 60 + 37) * 60;
pub const MARS_RADIUS: u64 = 3_390_000;
pub const MARS_DISTANCE_TO_SUN: u64 = 227_900_000;

pub const JUPITER_NAME: &'static str = "Jupiter";
/// 11.86 years of 365 days.
pub const JUPITER_ORBITAL_PERIOD: u64 = 1186 * 365 * CENTIDAY_SECONDS;
/// 9 hours 50 minutes.
pub const JUPITER_ROTATION_PERIOD: u64 = (9 * 60 + 50) * 60;
pub const JUPITER_RADIUS: u64 = 69_911_000;
pub const JUPITER_DISTANCE_TO_SUN: u64 = 778_500_000;

pub const SATURN_NAME: &'static str = "Saturn";
/// 29.46 years of 365 days.
pub const SATURN_ORBITAL_PERIOD: u64 = 2946 * 365 * CENTIDAY_SECONDS;
/// 10 hours 39 minutes.
pub const SATURN_ROTATION_PERIOD: u64 = (10 * 60 + 39) * 60;
pub const SATURN_RADIUS: u64 = 58_232_000;
pub const SATURN_DISTANCE_TO_SUN: u64 = 1_434_000_000;

pub const URANUS_NAME: &'static str = "Uranus";
/// 84.01 years of 365 days.
pub const URANUS_ORBITAL_PERIOD: u64 = 8401 * 365 * CENTIDAY_SECONDS;
/// 17 hours 14 minutes.
pub const URANUS_ROTATION_PERIOD: u64 = (17 * 60 + 14) * 60;
pub const URANUS_RADIUS: u64 = 25_362_000;
pub const URANUS_DISTANCE_TO_SUN: u64 = 2_871_000_000;

pub const NEPTUNE_NAME: &'static str = "Neptune";
/// 164.82 years of 365 days.
pub const NEPTUNE_ORBITAL_PERIOD: u64 = 16482 * 365 * CENTIDAY_SECONDS;
/// 16 hours 6 minutes.
pub const NEPTUNE_ROTATION_PERIOD: u64 = (16 * 60 + 6) * 60;
pub const NEPTUNE_RADIUS: u64 = 24_622_000;
pub const NEPTUNE_DISTANCE_TO_SUN: u64 = 4_495_000_000;

pub const AIRPLANE_NAME: &'static str = "Airplane";

/// Name of the free camera, which follows no body.
pub const GLOBAL_NAME: &'static str = "Global";

} // verus!
