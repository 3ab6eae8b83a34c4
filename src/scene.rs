use vstd::prelude::*;
use vstd::string::*;

verus! {

/// A point in the world, each coordinate in tenths of a world unit.
#[derive(Clone, Copy, Debug, PartialEq, Eq, Structural, Hash)]
pub struct Point {
    pub x: i32,
    pub y: i32,
    pub z: i32,
}

impl Point {
    pub open spec fn spec_new(x: i32, y: i32, z: i32) -> Point {
        Point { x, y, z }
    }
}

#[derive(Clone, Copy, Debug, PartialEq, Eq, Structural, Hash)]
pub enum ObjectKind {
    /// The camera, looking at the origin.
    Camera,
    /// A point light that casts shadows.
    Light,
    /// A flat green plane, 50 by 50 units.
    Ground,
    /// A red sphere standing for the player.
    Player,
}

/// An object to be placed in the scene.
#[derive(Clone, Debug)]
pub struct SceneObject {
    pub kind: ObjectKind,
    pub name: String,
    pub position: Point,
}

/// How many objects of `s` are of kind `k`.
pub open spec fn count_kind(s: Seq<SceneObject>, k: ObjectKind) -> nat
    decreases s.len(),
{
    if s.len() == 0 {
        0
    } else {
        count_kind(s.drop_last(), k) + if s.last().kind == k {
            1nat
        } else {
            0nat
        }
    }
}

/// The camera, set up once at start: it stands at (0, 32, 6) and looks at
/// the origin.
pub fn camera() -> (r: SceneObject)
    ensures
        r.kind == ObjectKind::Camera,
        r.name@ == "Main Camera"@,
        r.position == Point::spec_new(0, 320, 60),
{
    SceneObject {
        kind: ObjectKind::Camera,
        name: String::from_str("Main Camera"),
        position: Point { x: 0, y: 320, z: 60 },
    }
}

/// What entering the game places in the scene: a light at (8, 16, 8), the
/// ground at the origin, and the player at (0, 0.5, 0).
pub fn game_scene() -> (r: Vec<SceneObject>)
    ensures
        r.len() == 3,
        count_kind(r@, ObjectKind::Light) == 1,
        count_kind(r@, ObjectKind::Ground) == 1,
        count_kind(r@, ObjectKind::Player) == 1,
        count_kind(r@, ObjectKind::Camera) == 0,
        r[0].kind == ObjectKind::Light,
        r[0].name@ == "Light"@,
        r[0].position == Point::spec_new(80, 160, 80),
        r[1].kind == ObjectKind::Ground,
        r[1].name@ == "Ground"@,
        r[1].position == Point::spec_new(0, 0, 0),
        r[2].kind == ObjectKind::Player,
        r[2].name@ == "Player"@,
        r[2].position == Point::spec_new(0, 5, 0),
{
    let mut r: Vec<SceneObject> = Vec::new();
    r.push(
        SceneObject {
            kind: ObjectKind::Light,
            name: String::from_str("Light"),
            position: Point { x: 80, y: 160, z: 80 },
        },
    );
    r.push(
        SceneObject {
            kind: ObjectKind::Ground,
            name: String::from_str("Ground"),
            position: Point { x: 0, y: 0, z: 0 },
        },
    );
    r.push(
        SceneObject {
            kind: ObjectKind::Player,
            name: String::from_str("Player"),
            position: Point { x: 0, y: 5, z: 0 },
        },
    );
    proof {
        let s = r@;
        assert(s.drop_last().drop_last().drop_last().len() == 0);
        reveal_with_fuel(count_kind, 4);
    }
    r
}

} // verus!
