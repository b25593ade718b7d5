use game::controls::{thrust_intent, turn_intent, Controls, Thrust, Turn};
use game::frame::{
    accept_velocity, contact_of, contacts_of, plan_frame, title_fade_step, Contact, ForceSource,
    PlanetProbe,
};
use game::ship::Ship;

fn controls(turn_left: bool, turn_right: bool, accelerate: bool, decelerate: bool) -> Controls {
    Controls { turn_left, turn_right, accelerate, decelerate, launch_down: false }
}

fn probe(distance: f32) -> PlanetProbe<f32> {
    PlanetProbe { distance, surface_radius: 100.0, radius: 100.0, g_radius: 250.0 }
}

#[test]
fn decelerate_wins_over_accelerate() {
    assert_eq!(thrust_intent(true, true), Thrust::Reverse);
    assert_eq!(thrust_intent(true, false), Thrust::Forward);
    assert_eq!(thrust_intent(false, false), Thrust::Idle);
    assert_eq!(Thrust::Reverse.sign(), -1);
    assert_eq!(Thrust::Forward.sign(), 1);
}

#[test]
fn turn_right_wins_over_turn_left() {
    assert_eq!(turn_intent(true, true), Turn::Right);
    assert!(Turn::Right.sign() < 0);
    assert_eq!(turn_intent(true, false), Turn::Left);
    assert_eq!(Turn::Left.sign(), 1);
    let mut ship = Ship::default();
    let plan = plan_frame(&mut ship, &controls(true, true, false, false), false, &Vec::new());
    assert_eq!(plan.turn, Turn::Right);
}

#[test]
fn first_frame_sets_up_ship() {
    let mut ship = Ship::default();
    assert_eq!(ship, Ship { fuel_level: 0, fuel_burn_rate: 0 });
    plan_frame(&mut ship, &controls(false, false, false, false), false, &Vec::new());
    assert_eq!(ship, Ship { fuel_level: 1000, fuel_burn_rate: 1 });
}

#[test]
fn thrust_in_flight_burns_fuel() {
    let mut ship = Ship { fuel_level: 500, fuel_burn_rate: 1 };
    let plan = plan_frame(&mut ship, &controls(false, false, true, false), false, &Vec::new());
    assert_eq!(ship.fuel_level, 499);
    assert_eq!(plan.thrust, Thrust::Forward);
}

#[test]
fn landed_ship_burns_no_fuel() {
    let mut ship = Ship { fuel_level: 500, fuel_burn_rate: 1 };
    let plan = plan_frame(&mut ship, &controls(false, false, true, false), true, &Vec::new());
    assert_eq!(ship.fuel_level, 500);
    assert_eq!(plan.thrust, Thrust::Forward);
}

#[test]
fn last_drop_of_fuel_gives_no_thrust() {
    let mut ship = Ship { fuel_level: 1, fuel_burn_rate: 1 };
    let plan = plan_frame(&mut ship, &controls(false, false, false, true), false, &Vec::new());
    assert_eq!(ship.fuel_level, 0);
    assert_eq!(plan.thrust, Thrust::Idle);
}

#[test]
fn fuel_never_goes_below_empty() {
    let mut ship = Ship { fuel_level: 3, fuel_burn_rate: 5 };
    ship.burn(Thrust::Forward, false);
    assert_eq!(ship.fuel_level, 0);
    let mut full = Ship { fuel_level: 1000, fuel_burn_rate: 1 };
    for _ in 0..1500 {
        plan_frame(&mut full, &controls(false, false, true, false), false, &Vec::new());
        assert!(full.fuel_level <= 1000);
    }
    assert_eq!(full.fuel_level, 0);
}

#[test]
fn contact_just_inside_surface_is_landed() {
    assert_eq!(contact_of(&probe(99.9)), Contact::Surface);
    assert_eq!(contact_of(&probe(0.0)), Contact::Surface);
}

#[test]
fn contact_at_surface_boundary_is_landed() {
    assert_eq!(contact_of(&probe(100.0)), Contact::Surface);
}

#[test]
fn contact_just_outside_surface_is_in_well() {
    assert_eq!(contact_of(&probe(100.1)), Contact::Well);
    assert_eq!(contact_of(&probe(101.0)), Contact::Well);
    assert_eq!(contact_of(&probe(250.0)), Contact::Well);
}

#[test]
fn landed_at_distances_around_the_surface() {
    for (distance, expected) in [(99.0f32, true), (100.0, true), (101.0, false)] {
        let mut ship = Ship { fuel_level: 1000, fuel_burn_rate: 1 };
        let contacts = contacts_of(&vec![probe(distance)]);
        let plan = plan_frame(&mut ship, &controls(false, false, false, false), false, &contacts);
        assert_eq!(plan.landed, expected);
        assert_eq!(plan.solar_gravity, !expected);
    }
}

#[test]
fn contact_beyond_well_or_in_gap_is_clear() {
    assert_eq!(contact_of(&probe(250.1)), Contact::Clear);
    let gap = PlanetProbe { distance: 95i64, surface_radius: 90, radius: 100, g_radius: 250 };
    assert_eq!(contact_of(&gap), Contact::Clear);
}

#[test]
fn contacts_keep_planet_order() {
    let probes = vec![probe(50.0), probe(300.0), probe(200.0)];
    assert_eq!(contacts_of(&probes), vec![Contact::Surface, Contact::Clear, Contact::Well]);
}

#[test]
fn no_contact_leaves_only_thrust_force() {
    let mut ship = Ship { fuel_level: 1000, fuel_burn_rate: 1 };
    let contacts = vec![Contact::Clear, Contact::Clear, Contact::Clear, Contact::Clear];
    let plan = plan_frame(&mut ship, &controls(false, false, false, false), false, &contacts);
    assert_eq!(plan.forces, vec![ForceSource::Thrust]);
    assert!(!plan.landed);
    assert!(plan.solar_gravity);
}

#[test]
fn last_contact_decides_landed() {
    let mut ship = Ship { fuel_level: 1000, fuel_burn_rate: 1 };
    let contacts = vec![Contact::Surface, Contact::Clear, Contact::Well, Contact::Clear];
    let plan = plan_frame(&mut ship, &controls(false, false, false, false), true, &contacts);
    assert!(!plan.landed);
    assert!(plan.solar_gravity);
    assert_eq!(
        plan.forces,
        vec![ForceSource::Thrust, ForceSource::Friction(0), ForceSource::Gravity(2)]
    );
    let contacts = vec![Contact::Well, Contact::Surface];
    let plan = plan_frame(&mut ship, &controls(false, false, false, false), false, &contacts);
    assert!(plan.landed);
    assert!(!plan.solar_gravity);
}

#[test]
fn no_contact_clears_landed_flag() {
    let mut ship = Ship { fuel_level: 1000, fuel_burn_rate: 1 };
    let contacts = contacts_of(&vec![probe(300.0)]);
    let plan = plan_frame(&mut ship, &controls(false, false, false, false), true, &contacts);
    assert!(!plan.landed);
    assert!(plan.solar_gravity);
    let plan = plan_frame(&mut ship, &controls(false, false, false, false), true, &Vec::new());
    assert!(!plan.landed);
}

#[test]
fn velocity_over_cap_is_kept_unchanged() {
    let current = (3.0f32, 4.0f32);
    let candidate = (30.0f32, 40.0f32);
    assert_eq!(accept_velocity(current, candidate, 50.0f32, 20.0f32), current);
    assert_eq!(accept_velocity(current, (12.0, 16.0), 20.0f32, 20.0f32), (12.0, 16.0));
    assert_eq!(accept_velocity(1i64, 2i64, 21i64, 20i64), 1);
}

#[test]
fn title_fade_rises_and_saturates() {
    assert_eq!(title_fade_step(0, false), 0);
    assert_eq!(title_fade_step(0, true), 20);
    assert_eq!(title_fade_step(990, true), 1000);
    assert_eq!(title_fade_step(1000, true), 1000);
    assert_eq!(title_fade_step(u32::MAX, true), 1000);
}
