use vstd::prelude::*;
use vstd::std_specs::cmp::PartialOrdSpec;

use core::cmp::Ordering;

use crate::controls::{thrust_spec, turn_sign_spec, turn_spec, Controls, Thrust, Turn};
use crate::frame::{
    capped_velocity, contact_spec, landed_after, planet_forces, ship_after_frame, Contact,
    ForceSource, PlanetProbe,
};
use crate::math::wrapped;
use crate::ship::{Ship, DEFAULT_BURN_RATE, FUEL_FULL};
use crate::world::{standard_planets, world_after, Planet};

verus! {

/// Whatever the controls and the landed flag, a frame keeps the fuel level
/// between empty and a full tank.
pub proof fn law_fuel_in_range(ship: Ship, controls: Controls, landed_before: bool)
    requires
        ship.wf(),
    ensures
        0 <= ship_after_frame(ship, controls, landed_before).fuel_level <= FUEL_FULL,
{
}

/// A ship that has not been set up has a full tank and the default burn rate
/// after its first frame, provided that frame spends no fuel (the ship is
/// landed or does not thrust).
pub proof fn law_first_frame_fills_tank(ship: Ship, controls: Controls, landed_before: bool)
    requires
        ship.fuel_burn_rate == 0,
        landed_before || thrust_spec(controls.accelerate, controls.decelerate) == Thrust::Idle,
    ensures
        ship_after_frame(ship, controls, landed_before) == (Ship {
            fuel_level: FUEL_FULL,
            fuel_burn_rate: DEFAULT_BURN_RATE,
        }),
{
}

/// Creating the world a second time changes nothing: the planets after two
/// calls are those after one.
pub proof fn law_world_generation_idempotent(planets: Option<Seq<Planet>>)
    ensures
        world_after(world_after(planets)) == world_after(planets),
{
}

/// The generated world holds four planets, one at each corner (±600, ±400),
/// each with solid radius 100 and gravity radius 250.
pub proof fn law_standard_layout()
    ensures
        standard_planets().len() == 4,
        forall|i: int|
            0 <= i < 4 ==> {
                let p = #[trigger] standard_planets()[i];
                &&& (p.pos.x == 600 || p.pos.x == -600)
                &&& (p.pos.y == 400 || p.pos.y == -400)
                &&& p.radius == 100
                &&& p.g_radius == 250
            },
        forall|i: int, j: int|
            0 <= i < j < 4 ==> standard_planets()[i].pos != standard_planets()[j].pos,
{
}

/// On a world of width `w`, a coordinate one unit past the right edge jumps
/// to the left edge in one step.
pub proof fn law_wrap_overshoot(w: i64)
    requires
        0 <= w,
    ensures
        wrapped::<i64>((w / 2 + 1) as i64, (-(w / 2)) as i64, (w / 2) as i64) == -(w / 2),
{
}

/// When the candidate speed is above the cap the velocity stays as it was;
/// it is never scaled down. This holds for every scalar type whose ordering
/// is specified.
pub proof fn law_speed_cap_keeps_velocity<V, T: PartialOrd>(
    current: V,
    candidate: V,
    speed: T,
    max_speed: T,
)
    requires
        speed.partial_cmp_spec(&max_speed) == Some(Ordering::Greater),
    ensures
        capped_velocity(current, candidate, speed, max_speed) == current,
{
}

/// Within the surface radius, its bound included, the ship is landed; just
/// outside it (the solid radius being the surface radius, and the gravity
/// well reaching further) it is in the gravity well and not landed.
pub proof fn law_landing_boundary(surface_radius: i64, g_radius: i64)
    requires
        i64::MIN < surface_radius < g_radius,
    ensures
        ({
            let inside = PlanetProbe {
                distance: (surface_radius - 1) as i64,
                surface_radius,
                radius: surface_radius,
                g_radius,
            };
            &&& contact_spec(inside) == Contact::Surface
            &&& landed_after(seq![contact_spec(inside)])
        }),
        ({
            let boundary = PlanetProbe {
                distance: surface_radius,
                surface_radius,
                radius: surface_radius,
                g_radius,
            };
            &&& contact_spec(boundary) == Contact::Surface
            &&& landed_after(seq![contact_spec(boundary)])
        }),
        ({
            let outside = PlanetProbe {
                distance: (surface_radius + 1) as i64,
                surface_radius,
                radius: surface_radius,
                g_radius,
            };
            &&& contact_spec(outside) == Contact::Well
            &&& !landed_after(seq![contact_spec(outside)])
        }),
{
    let inside = seq![Contact::Surface];
    let outside = seq![Contact::Well];
    assert(inside.drop_last() == Seq::<Contact>::empty());
    assert(outside.drop_last() == Seq::<Contact>::empty());
}

/// With no planet in contact the ship is not landed, whatever it was before.
pub proof fn law_no_contact_not_landed(contacts: Seq<Contact>)
    requires
        forall|i: int| 0 <= i < contacts.len() ==> contacts[i] == Contact::Clear,
    ensures
        !landed_after(contacts),
    decreases contacts.len(),
{
    if contacts.len() > 0 {
        law_no_contact_not_landed(contacts.drop_last());
        assert(contacts.last() == Contact::Clear);
    }
}

/// With both turns held the right turn wins, and the rotation decreases.
pub proof fn law_turn_right_wins(controls: Controls)
    requires
        controls.turn_left,
        controls.turn_right,
    ensures
        turn_spec(controls.turn_left, controls.turn_right) == Turn::Right,
        turn_sign_spec(turn_spec(controls.turn_left, controls.turn_right)) < 0,
{
}

/// With no planet in contact the force list holds the thrust alone, and is never empty.
pub proof fn law_no_contact_single_force(contacts: Seq<Contact>)
    requires
        forall|i: int| 0 <= i < contacts.len() ==> contacts[i] == Contact::Clear,
    ensures
        seq![ForceSource::Thrust] + planet_forces(contacts) == seq![ForceSource::Thrust],
    decreases contacts.len(),
{
    if contacts.len() > 0 {
        law_no_contact_single_force(contacts.drop_last());
        assert(contacts.last() == Contact::Clear);
    }
    assert(planet_forces(contacts) == Seq::<ForceSource>::empty());
}

} // verus!
