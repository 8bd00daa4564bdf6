//! What the play state puts into the world: the lane, the pins, the light,
//! the camera, and the balls that the launcher fires.
use vstd::prelude::*;

verus! {

/// A point or a vector, in thousandths of a world unit.
#[derive(Clone, Copy, Debug, PartialEq, Eq, Structural)]
pub struct Vec3i {
    pub x: i64,
    pub y: i64,
    pub z: i64,
}

/// What an entity is in the game.
#[derive(Clone, Copy, Debug, PartialEq, Eq, Structural)]
pub enum Role {
    Ground,
    Railing,
    Pin,
    Ball,
    Light,
    Camera,
}

/// How the physics engine treats a body.
#[derive(Clone, Copy, Debug, PartialEq, Eq, Structural)]
pub enum Body {
    Fixed,
    Dynamic,
}

/// A collision shape; the visible mesh has the same extent.
#[derive(Clone, Copy, Debug, PartialEq, Eq, Structural)]
pub enum Shape {
    /// A box given by its half extents.
    Cuboid { half: Vec3i },
    Sphere { radius: i64 },
}

/// The colours that the scene uses.
#[derive(Clone, Copy, Debug, PartialEq, Eq, Structural)]
pub enum Colour {
    Lane,
    White,
    Purple,
    Blue,
    Pink,
    Red,
}

/// Everything needed to create one entity.
#[derive(Clone, Copy, Debug, PartialEq, Eq, Structural)]
pub struct SpawnSpec {
    pub role: Role,
    /// Removed, with the whole round, when the play state is left.
    pub level_unload: bool,
    pub shape: Option<Shape>,
    pub body: Option<Body>,
    /// Mass density in thousandths, where the engine's default is not used.
    pub density: Option<u32>,
    /// Continuous collision detection.
    pub ccd: bool,
    pub colour: Option<Colour>,
    pub pos: Vec3i,
    pub vel: Vec3i,
    /// The settings of a point light.
    pub light: Option<LightSettings>,
    /// Where a camera looks, with world up along +y.
    pub look_at: Option<Vec3i>,
}

/// A point light: its intensity, its range in world units, and whether it
/// casts shadows.
#[derive(Clone, Copy, Debug, PartialEq, Eq, Structural)]
pub struct LightSettings {
    pub intensity: u32,
    pub range: u32,
    pub shadows: bool,
}

pub const PIN_ROWS: i64 = 4;
pub const PIN_COUNT: usize = 10;
pub const PIN_DENSITY: u32 = 100;
pub const BALL_DENSITY: u32 = 10000;
pub const LIGHT_INTENSITY: u32 = 200000;
pub const LIGHT_RANGE: u32 = 2000;
/// How far below the lane a ball or a pin is taken out of the world.
pub const FALL_LIMIT: i64 = -5000;

pub open spec fn v3(x: int, y: int, z: int) -> Vec3i {
    Vec3i { x: x as i64, y: y as i64, z: z as i64 }
}

pub open spec fn fixed_box(role: Role, half: Vec3i, pos: Vec3i) -> SpawnSpec {
    SpawnSpec {
        role,
        level_unload: true,
        shape: Some(Shape::Cuboid { half }),
        body: Some(Body::Fixed),
        density: None,
        ccd: false,
        colour: Some(Colour::Lane),
        pos,
        vel: v3(0, 0, 0),
        light: None,
        look_at: None,
    }
}

pub open spec fn ground_spec() -> SpawnSpec {
    fixed_box(Role::Ground, v3(6000, 500, 64000), v3(0, 0, 0))
}

pub open spec fn left_railing_spec() -> SpawnSpec {
    fixed_box(Role::Railing, v3(500, 1000, 64000), v3(-4500, 1000, 0))
}

pub open spec fn right_railing_spec() -> SpawnSpec {
    fixed_box(Role::Railing, v3(500, 500, 64000), v3(4500, 1000, 0))
}

/// The pin in row `row` at lateral offset `col` world units. Row 0 holds the
/// head pin, the first that a ball reaches; pins of a row stand 2 units apart.
pub open spec fn pin_spec(row: int, col: int) -> SpawnSpec {
    SpawnSpec {
        role: Role::Pin,
        level_unload: true,
        shape: Some(Shape::Cuboid { half: v3(250, 1000, 250) }),
        body: Some(Body::Dynamic),
        density: Some(PIN_DENSITY),
        ccd: true,
        colour: Some(Colour::White),
        pos: v3(col * 1000, 2000, -(25 + row) * 1000),
        vel: v3(0, 0, 0),
        light: None,
        look_at: None,
    }
}

/// Row `row` of the triangle: row + 1 pins, from offset -row to row.
pub open spec fn pin_row(row: int) -> Seq<SpawnSpec> {
    Seq::new((row + 1) as nat, |k: int| pin_spec(row, 2 * k - row))
}

/// The first `rows` rows of the triangle.
pub open spec fn pin_rows(rows: nat) -> Seq<SpawnSpec>
    decreases rows,
{
    if rows == 0 {
        Seq::empty()
    } else {
        pin_rows((rows - 1) as nat) + pin_row(rows - 1)
    }
}

/// A light with shadows, high above and to the side of the lane.
pub open spec fn light_spec() -> SpawnSpec {
    SpawnSpec {
        role: Role::Light,
        level_unload: true,
        shape: None,
        body: None,
        density: None,
        ccd: false,
        colour: None,
        pos: v3(40000, 30000, -10000),
        vel: v3(0, 0, 0),
        light: Some(LightSettings { intensity: LIGHT_INTENSITY, range: LIGHT_RANGE, shadows: true }),
        look_at: None,
    }
}

/// The camera stands beyond the pins and looks at the origin.
pub open spec fn camera_spec() -> SpawnSpec {
    SpawnSpec {
        role: Role::Camera,
        level_unload: true,
        shape: None,
        body: None,
        density: None,
        ccd: false,
        colour: None,
        pos: v3(0, 8000, -50000),
        vel: v3(0, 0, 0),
        light: None,
        look_at: Some(v3(0, 0, 0)),
    }
}

/// The scene that entering the play state creates, in creation order.
pub open spec fn scene() -> Seq<SpawnSpec> {
    seq![ground_spec(), left_railing_spec(), right_railing_spec()] + pin_rows(PIN_ROWS as nat)
        + seq![light_spec(), camera_spec()]
}

fn fixed_box_of(role: Role, half: Vec3i, pos: Vec3i) -> (r: SpawnSpec)
    ensures
        r == fixed_box(role, half, pos),
{
    SpawnSpec {
        role,
        level_unload: true,
        shape: Some(Shape::Cuboid { half }),
        body: Some(Body::Fixed),
        density: None,
        ccd: false,
        colour: Some(Colour::Lane),
        pos,
        vel: Vec3i { x: 0, y: 0, z: 0 },
        light: None,
        look_at: None,
    }
}

/// The pin of row `row` at offset `col`.
pub fn pin_at(row: i64, col: i64) -> (r: SpawnSpec)
    requires
        0 <= row < PIN_ROWS,
        -row <= col <= row,
    ensures
        r == pin_spec(row as int, col as int),
{
    SpawnSpec {
        role: Role::Pin,
        level_unload: true,
        shape: Some(Shape::Cuboid { half: Vec3i { x: 250, y: 1000, z: 250 } }),
        body: Some(Body::Dynamic),
        density: Some(PIN_DENSITY),
        ccd: true,
        colour: Some(Colour::White),
        pos: Vec3i { x: col * 1000, y: 2000, z: -(25 + row) * 1000 },
        vel: Vec3i { x: 0, y: 0, z: 0 },
        light: None,
        look_at: None,
    }
}

/// Builds the play-state scene: the ground, the two railings, the triangle
/// of pins row by row, the light and the camera.
pub fn setup_scene() -> (r: Vec<SpawnSpec>)
    ensures
        r@ == scene(),
{
    let mut v: Vec<SpawnSpec> = Vec::new();
    v.push(fixed_box_of(Role::Ground, Vec3i { x: 6000, y: 500, z: 64000 }, Vec3i { x: 0, y: 0, z: 0 }));
    v.push(fixed_box_of(Role::Railing, Vec3i { x: 500, y: 1000, z: 64000 }, Vec3i { x: -4500, y: 1000, z: 0 }));
    v.push(fixed_box_of(Role::Railing, Vec3i { x: 500, y: 500, z: 64000 }, Vec3i { x: 4500, y: 1000, z: 0 }));
    let ghost head = seq![ground_spec(), left_railing_spec(), right_railing_spec()];
    assert(v@ =~= head);
    let mut row: i64 = 0;
    while row < PIN_ROWS
        invariant
            0 <= row <= PIN_ROWS,
            v@ == head + pin_rows(row as nat),
        decreases PIN_ROWS - row,
    {
        let ghost before = v@;
        let mut col: i64 = -row;
        while col <= row
            invariant
                0 <= row < PIN_ROWS,
                -row <= col <= row + 2,
                (col + row) % 2 == 0,
                v@ == before + pin_row(row as int).take((col + row) / 2),
            decreases row - col + 2,
        {
            let ghost k = (col + row) / 2;
            v.push(pin_at(row, col));
            assert(pin_row(row as int).take(k + 1) =~= pin_row(row as int).take(k).push(
                pin_spec(row as int, col as int),
            ));
            assert(v@ =~= before + pin_row(row as int).take(k + 1));
            col = col + 2;
        }
        assert(pin_row(row as int).take((col + row) / 2) =~= pin_row(row as int));
        assert(v@ =~= head + pin_rows((row + 1) as nat));
        row = row + 1;
    }
    v.push(SpawnSpec {
        role: Role::Light,
        level_unload: true,
        shape: None,
        body: None,
        density: None,
        ccd: false,
        colour: None,
        pos: Vec3i { x: 40000, y: 30000, z: -10000 },
        vel: Vec3i { x: 0, y: 0, z: 0 },
        light: Some(LightSettings { intensity: LIGHT_INTENSITY, range: LIGHT_RANGE, shadows: true }),
        look_at: None,
    });
    v.push(SpawnSpec {
        role: Role::Camera,
        level_unload: true,
        shape: None,
        body: None,
        density: None,
        ccd: false,
        colour: None,
        pos: Vec3i { x: 0, y: 8000, z: -50000 },
        vel: Vec3i { x: 0, y: 0, z: 0 },
        light: None,
        look_at: Some(Vec3i { x: 0, y: 0, z: 0 }),
    });
    assert(v@ =~= scene());
    v
}

} // verus!
