use vstd::prelude::*;
use vstd::std_specs::cmp::{PartialOrdIs, PartialOrdSpec};

use crate::controls::{thrust_intent, thrust_spec, turn_intent, turn_spec, Controls, Thrust, Turn};
use crate::math::{in_range, BetweenScalar};
use crate::ship::Ship;

verus! {

/// Thrust acceleration per frame, in thousandths of a world unit.
pub const THRUST_ACCELERATION: u32 = 300;

/// Rotation per frame while turning, in thousandths of a radian.
pub const TURN_RATE: u32 = 100;

/// Share of the velocity that ground contact removes per frame, in thousandths.
pub const SURFACE_FRICTION: u32 = 100;

/// Largest speed, in world units per frame, that a frame's forces may lead to.
pub const MAX_SPEED: u32 = 20;

/// A fully shown title, in thousandths.
pub const TITLE_FADE_FULL: u32 = 1000;

/// Title fade gained per frame once the ship has moved, in thousandths.
pub const TITLE_FADE_STEP: u32 = 20;

/// How the ship stands to one planet this frame.
#[derive(Clone, Copy, Debug, PartialEq, Eq, Structural)]
pub enum Contact {
    /// Beyond the gravity well, or between the surface and the solid radius.
    Clear,
    /// Within the surface radius, its bound included: on the ground, with friction.
    Surface,
    /// Within the gravity well, its bounds included: pulled towards the planet.
    Well,
}

/// The distance from the ship to a planet, with the planet's radii, in one scalar type.
#[derive(Clone, Copy, Debug)]
pub struct PlanetProbe<T> {
    pub distance: T,
    pub surface_radius: T,
    pub radius: T,
    pub g_radius: T,
}

/// One entry of the frame's force list.
#[derive(Clone, Copy, Debug, PartialEq, Eq, Structural)]
pub enum ForceSource {
    /// The ship's own thrust along its heading (zero when idle).
    Thrust,
    /// Ground friction against the planet with this index.
    Friction(usize),
    /// Gravity of the planet with this index.
    Gravity(usize),
}

/// What the frame does, once the controls, the fuel and the planets have been read.
#[derive(Debug)]
pub struct FramePlan {
    pub thrust: Thrust,
    pub turn: Turn,
    /// Whether the ship is on the ground after this frame.
    pub landed: bool,
    /// Whether the sun pulls the ship this frame.
    pub solar_gravity: bool,
    /// The forces of the frame, in the order they are listed.
    pub forces: Vec<ForceSource>,
}

pub open spec fn contact_spec<T: PartialOrd>(p: PlanetProbe<T>) -> Contact {
    if p.distance.is_le(&p.surface_radius) {
        Contact::Surface
    } else if in_range(p.distance, p.radius, p.g_radius) {
        Contact::Well
    } else {
        Contact::Clear
    }
}

/// The landed flag after the planets have been visited in order: the last
/// planet in contact decides, and with none in contact the ship is not landed.
pub open spec fn landed_after(contacts: Seq<Contact>) -> bool
    decreases contacts.len(),
{
    if contacts.len() == 0 {
        false
    } else {
        match contacts.last() {
            Contact::Surface => true,
            Contact::Well => false,
            Contact::Clear => landed_after(contacts.drop_last()),
        }
    }
}

/// One force per planet in contact, in planet order.
pub open spec fn planet_forces(contacts: Seq<Contact>) -> Seq<ForceSource>
    decreases contacts.len(),
{
    if contacts.len() == 0 {
        seq![]
    } else {
        let rest = planet_forces(contacts.drop_last());
        let i = (contacts.len() - 1) as usize;
        match contacts.last() {
            Contact::Surface => rest.push(ForceSource::Friction(i)),
            Contact::Well => rest.push(ForceSource::Gravity(i)),
            Contact::Clear => rest,
        }
    }
}

pub open spec fn ship_after_frame(ship: Ship, controls: Controls, landed_before: bool) -> Ship {
    ship.set_up().burned(thrust_spec(controls.accelerate, controls.decelerate), landed_before)
}

pub open spec fn thrust_after_frame(ship: Ship, controls: Controls, landed_before: bool) -> Thrust {
    ship_after_frame(ship, controls, landed_before).gated(
        thrust_spec(controls.accelerate, controls.decelerate),
        landed_before,
    )
}

pub open spec fn capped_velocity<V, T: PartialOrd>(
    current: V,
    candidate: V,
    candidate_speed: T,
    max_speed: T,
) -> V {
    if candidate_speed.is_le(&max_speed) {
        candidate
    } else {
        current
    }
}

pub open spec fn title_fade_spec(fade: u32, moved: bool) -> u32 {
    if !moved {
        fade
    } else if fade + TITLE_FADE_STEP >= TITLE_FADE_FULL {
        TITLE_FADE_FULL
    } else {
        (fade + TITLE_FADE_STEP) as u32
    }
}

/// Classifies the ship against one planet.
pub fn contact_of<T: PartialOrd + Copy>(probe: &PlanetProbe<T>) -> (r: Contact)
    ensures
        T::obeys_partial_cmp_spec() ==> r == contact_spec(*probe),
{
    if probe.distance <= probe.surface_radius {
        Contact::Surface
    } else if probe.distance.between(probe.radius, probe.g_radius) {
        Contact::Well
    } else {
        Contact::Clear
    }
}

/// Classifies the ship against every planet, keeping the planets' order.
pub fn contacts_of<T: PartialOrd + Copy>(probes: &Vec<PlanetProbe<T>>) -> (r: Vec<Contact>)
    ensures
        r@.len() == probes@.len(),
        T::obeys_partial_cmp_spec() ==> forall|i: int|
            0 <= i < r@.len() ==> #[trigger] r@[i] == contact_spec(probes@[i]),
{
    let mut contacts: Vec<Contact> = Vec::new();
    let mut i: usize = 0;
    while i < probes.len()
        invariant
            i <= probes@.len(),
            contacts@.len() == i,
            T::obeys_partial_cmp_spec() ==> forall|j: int|
                0 <= j < i ==> #[trigger] contacts@[j] == contact_spec(probes@[j]),
        decreases probes@.len() - i,
    {
        contacts.push(contact_of(&probes[i]));
        i = i + 1;
    }
    contacts
}

/// Keeps the candidate velocity when its speed is within the cap, else the current one.
pub fn accept_velocity<V: Copy, T: PartialOrd + Copy>(
    current: V,
    candidate: V,
    candidate_speed: T,
    max_speed: T,
) -> (r: V)
    ensures
        T::obeys_partial_cmp_spec() ==> r == capped_velocity(
            current,
            candidate,
            candidate_speed,
            max_speed,
        ),
{
    if candidate_speed <= max_speed {
        candidate
    } else {
        current
    }
}

/// The title fades in by one step each frame the ship is away from the origin.
pub fn title_fade_step(fade: u32, moved: bool) -> (r: u32)
    ensures
        r == title_fade_spec(fade, moved),
        fade <= TITLE_FADE_FULL ==> r <= TITLE_FADE_FULL,
{
    if moved {
        let raised = fade.saturating_add(TITLE_FADE_STEP);
        if raised >= TITLE_FADE_FULL {
            TITLE_FADE_FULL
        } else {
            raised
        }
    } else {
        fade
    }
}

/// Decides one frame: sets the ship up on its first frame, reads the
/// controls, spends fuel, and works out from the planet contacts whether the
/// ship is landed, whether the sun pulls it, and which forces act.
/// The previous frame's flag, `landed_before`, decides only whether fuel is
/// spent; the new flag comes from this frame's contacts alone.
pub fn plan_frame(
    ship: &mut Ship,
    controls: &Controls,
    landed_before: bool,
    contacts: &Vec<Contact>,
) -> (r: FramePlan)
    ensures
        *final(ship) == ship_after_frame(*old(ship), *controls, landed_before),
        old(ship).wf() ==> final(ship).wf(),
        r.thrust == thrust_after_frame(*old(ship), *controls, landed_before),
        r.turn == turn_spec(controls.turn_left, controls.turn_right),
        r.landed == landed_after(contacts@),
        r.solar_gravity == !r.landed,
        r.forces@ == seq![ForceSource::Thrust] + planet_forces(contacts@),
{
    ship.set_up_if_new();
    let wanted = thrust_intent(controls.accelerate, controls.decelerate);
    let thrust = ship.burn(wanted, landed_before);
    let turn = turn_intent(controls.turn_left, controls.turn_right);

    let mut forces: Vec<ForceSource> = Vec::new();
    forces.push(ForceSource::Thrust);
    let mut landed = false;
    let mut i: usize = 0;
    while i < contacts.len()
        invariant
            i <= contacts@.len(),
            landed == landed_after(contacts@.take(i as int)),
            forces@ == seq![ForceSource::Thrust] + planet_forces(contacts@.take(i as int)),
        decreases contacts@.len() - i,
    {
        proof {
            assert(contacts@.take(i + 1).drop_last() == contacts@.take(i as int));
        }
        match contacts[i] {
            Contact::Surface => {
                landed = true;
                forces.push(ForceSource::Friction(i));
            },
            Contact::Well => {
                landed = false;
                forces.push(ForceSource::Gravity(i));
            },
            Contact::Clear => {},
        }
        proof {
            assert(seq![ForceSource::Thrust] + planet_forces(contacts@.take(i + 1)) == forces@);
        }
        i = i + 1;
    }
    proof {
        assert(contacts@.take(contacts@.len() as int) == contacts@);
    }
    FramePlan { thrust, turn, landed, solar_gravity: !landed, forces }
}

} // verus!
