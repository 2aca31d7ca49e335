use orrery::constant::{
    EARTH_DISTANCE_TO_SUN, EARTH_NAME, EARTH_ORBITAL_PERIOD, EARTH_RADIUS, EARTH_ROTATION_PERIOD,
    MERCURY_ORBITAL_PERIOD, MOON_DISTANCE_TO_EARTH, MOON_ORBITAL_PERIOD, ONE_DAY_SECONDS,
};
use orrery::planets::{
    move_earth, move_moon, move_planets, turn_after, CommonPlanets, Earth, Moon, Planets, Turn,
};

fn earth() -> Earth {
    Earth::new(
        EARTH_DISTANCE_TO_SUN,
        EARTH_RADIUS,
        EARTH_ROTATION_PERIOD,
        EARTH_ORBITAL_PERIOD,
        EARTH_NAME.to_string(),
    )
}

#[test]
fn earth_period_constant() {
    // 365.26 days of 86400 seconds
    assert_eq!(EARTH_ORBITAL_PERIOD, 31_558_464);
    assert_eq!(EARTH_ROTATION_PERIOD, ONE_DAY_SECONDS);
}

#[test]
fn turn_after_exact_value() {
    // ten real seconds make one simulated day
    let t = turn_after(2 * ONE_DAY_SECONDS, 10_000_000_000);
    assert_eq!(t, Turn { num: 86_400_000_000_000, den: 172_800_000_000_000 });
    let quarter = turn_after(4 * ONE_DAY_SECONDS, 10_000_000_000);
    assert_eq!(quarter.num * 4, quarter.den);
}

#[test]
fn turn_after_drops_whole_turns() {
    let one = turn_after(ONE_DAY_SECONDS, 10_000_000_000);
    assert_eq!(one.num, 0);
    let more = turn_after(ONE_DAY_SECONDS, 25_000_000_000);
    assert_eq!(more, turn_after(ONE_DAY_SECONDS, 5_000_000_000));
    assert_eq!(more.num * 2, more.den);
}

#[test]
fn zero_period_does_not_turn() {
    assert_eq!(turn_after(0, 123_456_789), Turn { num: 0, den: 1 });
}

#[test]
fn position_is_deterministic_in_time() {
    let e = earth();
    let a = move_planets(&e, 1_234_567_890, 16_000_000);
    let b = move_planets(&e, 1_234_567_890, 16_000_000);
    assert_eq!(a, b);
    let c = move_planets(&e, 1_234_567_890, 33_000_000);
    assert_eq!(a.orbit, c.orbit);
}

#[test]
fn earth_returns_after_one_year() {
    // 365.26 * 86400 / 8640 real seconds
    let year_nanos: u64 = 3_652_600_000_000;
    let start = move_earth(&earth(), 0, 0).orbit;
    let later = move_earth(&earth(), year_nanos, 16_000_000).orbit;
    assert_eq!(start.num, 0);
    assert_eq!(later, start);
    let half = move_earth(&earth(), year_nanos / 2, 16_000_000).orbit;
    assert_eq!(half.num * 2, half.den);
}

#[test]
fn orbit_repeats_after_its_period() {
    // 87.97 days take 879.7 real seconds
    let period_nanos: u64 = 879_700_000_000;
    let t: u64 = 123_456_789_012;
    assert_eq!(
        turn_after(MERCURY_ORBITAL_PERIOD, t + period_nanos),
        turn_after(MERCURY_ORBITAL_PERIOD, t)
    );
    assert_eq!(
        turn_after(MERCURY_ORBITAL_PERIOD, t + 3 * period_nanos),
        turn_after(MERCURY_ORBITAL_PERIOD, t)
    );
    assert_ne!(
        turn_after(MERCURY_ORBITAL_PERIOD, t + period_nanos / 2),
        turn_after(MERCURY_ORBITAL_PERIOD, t)
    );
}

#[test]
fn spin_follows_frame_length() {
    let e = earth();
    // a frame of one real second turns the Earth a tenth of a day
    let m = move_planets(&e, 50_000_000_000, 1_000_000_000);
    assert_eq!(m.spin.num * 10, m.spin.den);
}

#[test]
fn planet_getters() {
    let p = CommonPlanets::new(10, 20, 30, 40, "Vulcan".to_string());
    assert_eq!(p.distance_to_sun(), 10);
    assert_eq!(p.radius(), 20);
    assert_eq!(p.rotation_period(), 30);
    assert_eq!(p.orbital_period(), 40);
    assert_eq!(p.name(), "Vulcan");
    let e = earth();
    assert_eq!(e.distance_to_sun(), EARTH_DISTANCE_TO_SUN);
    assert_eq!(e.radius(), EARTH_RADIUS);
    assert_eq!(e.name(), "Earth");
}

#[test]
fn common_planet_motion() {
    let p = CommonPlanets::new(100, 1, 0, ONE_DAY_SECONDS, "Toy".to_string());
    let m = move_planets(&p, 2_500_000_000, 20_000_000);
    assert_eq!(m.spin, Turn { num: 0, den: 1 });
    assert_eq!(m.orbit.num * 4, m.orbit.den);
}

#[test]
fn moon_orbits_on_its_own_period() {
    let moon = Moon::new(MOON_DISTANCE_TO_EARTH);
    assert_eq!(moon.distance_to_earth, 384_400);
    let m = move_moon(&moon, 273_000_000_000, 1_000_000);
    assert_eq!(m.orbit.num, 0);
    assert_eq!(m.orbit, turn_after(MOON_ORBITAL_PERIOD, 0));
    let half = move_moon(&moon, 136_500_000_000, 1_000_000);
    assert_eq!(half.orbit.num * 2, half.orbit.den);
}
