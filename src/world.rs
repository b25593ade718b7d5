use vstd::prelude::*;

use crate::math::{vector_2i, Vector2i};

verus! {

/// Stars per row and per column of the starfield grid.
pub const STAR_DENSITY: u32 = 150;

/// Largest distance, in world units, that a star is moved from its grid point on each axis.
pub const STAR_SCATTER: u32 = 10;

/// Solar gravity strength, in thousandths.
pub const SUN_G_FORCE: u32 = 2;

/// Planet gravity strength, in thousandths.
pub const PLANET_G_FORCE: u32 = 9800;

pub const PLANET_RADIUS: u32 = 100;

pub const PLANET_SURFACE_RADIUS: u32 = 100;

pub const PLANET_G_RADIUS: u32 = 250;

/// Distance of each planet from the world's vertical axis.
pub const PLANET_OFFSET_X: i32 = 600;

/// Distance of each planet from the world's horizontal axis.
pub const PLANET_OFFSET_Y: i32 = 400;

/// A colour whose channels are in thousandths.
#[derive(Clone, Copy, Debug, PartialEq, Eq, Structural)]
pub struct Color {
    pub r: u16,
    pub g: u16,
    pub b: u16,
    pub a: u16,
}

/// The single solar gravity source.
#[derive(Clone, Copy, Debug, PartialEq, Eq, Structural)]
pub struct Sun {
    pub pos: Vector2i,
    /// Gravity strength, in thousandths.
    pub g_force: u32,
}

#[derive(Clone, Copy, Debug, PartialEq, Eq, Structural)]
pub enum PlanetItemType {
    Empty,
    Fuel,
}

/// What lies on a planet, placed relative to the planet's centre.
#[derive(Clone, Copy, Debug, PartialEq, Eq, Structural)]
pub struct PlanetItem {
    pub itype: PlanetItemType,
    pub pos: Vector2i,
}

/// A static body: solid disc, landing surface and gravity well.
#[derive(Clone, Copy, Debug, PartialEq, Eq, Structural)]
pub struct Planet {
    pub radius: u32,
    pub pos: Vector2i,
    pub color: Color,
    /// Outer edge of the gravity well.
    pub g_radius: u32,
    /// Gravity strength, in thousandths.
    pub g_force: u32,
    /// Within this distance of the centre the ship is on the ground.
    pub surface_radius: u32,
    /// Landing zone, relative to the planet's centre.
    pub lz_rel_pos: Vector2i,
    pub lz_color: Color,
    pub item: PlanetItem,
}

/// One point of the starfield grid: column and row, counted from the world's lower left.
#[derive(Clone, Copy, Debug, PartialEq, Eq, Structural)]
pub struct StarCell {
    pub col: u32,
    pub row: u32,
}

pub open spec fn standard_sun() -> Sun {
    Sun { pos: Vector2i { x: 0, y: 0 }, g_force: SUN_G_FORCE as u32 }
}

pub open spec fn planet_at(x: i32, y: i32) -> Planet {
    Planet {
        radius: PLANET_RADIUS,
        pos: Vector2i { x, y },
        color: Color { r: 200, g: 500, b: 500, a: 1000 },
        g_radius: PLANET_G_RADIUS,
        g_force: PLANET_G_FORCE,
        surface_radius: PLANET_SURFACE_RADIUS,
        lz_rel_pos: Vector2i { x: 0, y: 0 },
        lz_color: Color { r: 200, g: 200, b: 200, a: 1000 },
        item: PlanetItem { itype: PlanetItemType::Fuel, pos: Vector2i { x: 10, y: 10 } },
    }
}

/// The four planets, one in each corner of the world, in the order they are visited.
pub open spec fn standard_planets() -> Seq<Planet> {
    seq![
        planet_at((-600) as i32, (-400) as i32),
        planet_at((-600) as i32, 400 as i32),
        planet_at(600 as i32, 400 as i32),
        planet_at(600 as i32, (-400) as i32),
    ]
}

/// The planets once the world exists: those already there, or the standard four.
pub open spec fn world_after(planets: Option<Seq<Planet>>) -> Option<Seq<Planet>> {
    match planets {
        Some(p) => Some(p),
        None => Some(standard_planets()),
    }
}

pub open spec fn planets_view(planets: Option<Vec<Planet>>) -> Option<Seq<Planet>> {
    match planets {
        Some(v) => Some(v@),
        None => None,
    }
}

/// Row-major grid: cell `k` lies in column `k % density` of row `k / density`.
pub open spec fn star_cell_spec(density: nat, k: nat) -> StarCell {
    StarCell { col: (k % density) as u32, row: (k / density) as u32 }
}

fn new_planet(pos: Vector2i) -> (r: Planet)
    ensures
        r == planet_at(pos.x, pos.y),
{
    Planet {
        radius: PLANET_RADIUS,
        pos,
        color: Color { r: 200, g: 500, b: 500, a: 1000 },
        g_radius: PLANET_G_RADIUS,
        g_force: PLANET_G_FORCE,
        surface_radius: PLANET_SURFACE_RADIUS,
        lz_rel_pos: vector_2i(0, 0),
        lz_color: Color { r: 200, g: 200, b: 200, a: 1000 },
        item: PlanetItem { itype: PlanetItemType::Fuel, pos: vector_2i(10, 10) },
    }
}

/// The standard planets, at the corners (-600, -400), (-600, 400), (600, 400), (600, -400).
pub fn generate_planets() -> (r: Vec<Planet>)
    ensures
        r@ == standard_planets(),
{
    let corners = [
        vector_2i(-PLANET_OFFSET_X, -PLANET_OFFSET_Y),
        vector_2i(-PLANET_OFFSET_X, PLANET_OFFSET_Y),
        vector_2i(PLANET_OFFSET_X, PLANET_OFFSET_Y),
        vector_2i(PLANET_OFFSET_X, -PLANET_OFFSET_Y),
    ];
    let mut planets: Vec<Planet> = Vec::new();
    let mut i: usize = 0;
    while i < 4
        invariant
            0 <= i <= 4,
            corners@ == seq![
                Vector2i { x: (-600) as i32, y: (-400) as i32 },
                Vector2i { x: (-600) as i32, y: (400) as i32 },
                Vector2i { x: (600) as i32, y: (400) as i32 },
                Vector2i { x: (600) as i32, y: (-400) as i32 },
            ],
            planets@ == standard_planets().take(i as int),
        decreases 4 - i,
    {
        planets.push(new_planet(corners[i]));
        proof {
            assert(standard_planets().take(i + 1) == standard_planets().take(i as int).push(
                standard_planets()[i as int],
            ));
        }
        i = i + 1;
    }
    proof {
        assert(standard_planets().take(4) == standard_planets());
    }
    planets
}

/// Creates the sun and the planets on the first call of a session; later calls change nothing.
pub fn ensure_world(sun: &mut Sun, planets: &mut Option<Vec<Planet>>)
    ensures
        planets_view(*final(planets)) == world_after(planets_view(*old(planets))),
        old(planets).is_none() ==> *final(sun) == standard_sun(),
        old(planets).is_some() ==> *final(sun) == *old(sun),
{
    if planets.is_none() {
        *sun = Sun { pos: vector_2i(0, 0), g_force: SUN_G_FORCE };
        *planets = Some(generate_planets());
    }
}

/// The starfield's grid points, row by row.
pub fn star_grid(density: u32) -> (r: Vec<StarCell>)
    requires
        density <= 0xffff,
    ensures
        r@.len() == density * density,
        forall|k: int|
            0 <= k < r@.len() ==> #[trigger] r@[k] == star_cell_spec(density as nat, k as nat),
{
    let mut cells: Vec<StarCell> = Vec::new();
    let mut row: u32 = 0;
    while row < density
        invariant
            row <= density <= 0xffff,
            cells@.len() == row * density,
            forall|k: int|
                0 <= k < cells@.len() ==> #[trigger] cells@[k] == star_cell_spec(
                    density as nat,
                    k as nat,
                ),
        decreases density - row,
    {
        let mut col: u32 = 0;
        while col < density
            invariant
                row < density <= 0xffff,
                col <= density,
                cells@.len() == row * density + col,
                forall|k: int|
                    0 <= k < cells@.len() ==> #[trigger] cells@[k] == star_cell_spec(
                        density as nat,
                        k as nat,
                    ),
            decreases density - col,
        {
            proof {
                let k = row * density + col;
                assert(k / (density as int) == row && k % (density as int) == col) by (nonlinear_arith)
                    requires
                        k == row * density + col,
                        col < density,
                        0 <= row,
                ;
            }
            cells.push(StarCell { col, row });
            col = col + 1;
        }
        proof {
            assert(row * density + density == (row + 1) * density) by (nonlinear_arith);
        }
        row = row + 1;
    }
    cells
}

/// The world is twice the visible screen in each direction.
pub fn world_size(screen_width: i32, screen_height: i32) -> (r: (i64, i64))
    ensures
        r.0 == 2 * screen_width,
        r.1 == 2 * screen_height,
{
    (2 * screen_width as i64, 2 * screen_height as i64)
}

} // verus!
