use vstd::prelude::*;
use vstd::string::*;

use crate::components::{BodyDef, BodyKind, LevelConfig, LevelView, Point};

verus! {

pub open spec fn pt(x: i32, y: i32) -> Point {
    Point { x, y }
}

pub open spec fn body(x: i32, y: i32, mass: u32, radius: u32, kind: BodyKind) -> BodyDef {
    BodyDef { pos: pt(x, y), mass, radius, kind }
}

/// The levels of the game, in the order in which they are played.
pub open spec fn level_table() -> Seq<LevelView> {
    seq![
        // straight shot, one planet deflects
        LevelView {
            index: 0,
            name: "Gravity Assist"@,
            ship_pos: pt(-480i32, 0i32),
            ship_vel: pt(180i32, 0i32),
            target_pos: pt(480i32, 0i32),
            max_placed: 2,
            bodies: seq![body(0i32, -200i32, 3000, 28, BodyKind::Planet)],
        },
        // orbit around a star
        LevelView {
            index: 1,
            name: "Solar Slingshot"@,
            ship_pos: pt(-400i32, 200i32),
            ship_vel: pt(120i32, -80i32),
            target_pos: pt(400i32, -200i32),
            max_placed: 2,
            bodies: seq![body(0i32, 0i32, 8000, 42, BodyKind::Star)],
        },
        // binary planets
        LevelView {
            index: 2,
            name: "Binary Dance"@,
            ship_pos: pt(-500i32, 0i32),
            ship_vel: pt(200i32, 30i32),
            target_pos: pt(500i32, 0i32),
            max_placed: 3,
            bodies: seq![
                body(-150i32, 160i32, 4000, 32, BodyKind::Planet),
                body(150i32, -160i32, 4000, 32, BodyKind::Planet),
            ],
        },
        // black hole funnel
        LevelView {
            index: 3,
            name: "Event Horizon"@,
            ship_pos: pt(-500i32, 180i32),
            ship_vel: pt(200i32, -60i32),
            target_pos: pt(480i32, 180i32),
            max_placed: 3,
            bodies: seq![body(0i32, -80i32, 12000, 22, BodyKind::BlackHole)],
        },
        // maze of gravity wells
        LevelView {
            index: 4,
            name: "Asteroid Field"@,
            ship_pos: pt(-520i32, 0i32),
            ship_vel: pt(220i32, 0i32),
            target_pos: pt(520i32, 0i32),
            max_placed: 4,
            bodies: seq![
                body(-200i32, 180i32, 2500, 22, BodyKind::Planet),
                body(0i32, -180i32, 2500, 22, BodyKind::Planet),
                body(200i32, 180i32, 2500, 22, BodyKind::Planet),
            ],
        },
    ]
}

fn make_body(x: i32, y: i32, mass: u32, radius: u32, kind: BodyKind) -> (b: BodyDef)
    ensures
        b == body(x, y, mass, radius, kind),
{
    BodyDef { pos: Point::new(x, y), mass, radius, kind }
}

fn make_level(
    index: usize,
    name: &str,
    ship_pos: Point,
    ship_vel: Point,
    target_pos: Point,
    max_placed: usize,
    bodies: Vec<BodyDef>,
) -> (level: LevelConfig)
    ensures
        level@ == (LevelView {
            index,
            name: name@,
            ship_pos,
            ship_vel,
            target_pos,
            max_placed,
            bodies: bodies@,
        }),
{
    LevelConfig {
        index,
        name: String::from_str(name),
        ship_pos,
        ship_vel,
        target_pos,
        max_placed,
        bodies,
    }
}

/// Builds the level table.
pub fn build_levels() -> (levels: Vec<LevelConfig>)
    ensures
        levels@.len() == level_table().len(),
        forall|i: int| 0 <= i < levels@.len() ==> #[trigger] levels@[i]@ == level_table()[i],
{
    let mut levels: Vec<LevelConfig> = Vec::new();

    let mut b: Vec<BodyDef> = Vec::new();
    b.push(make_body(0, -200, 3000, 28, BodyKind::Planet));
    levels.push(
        make_level(0, "Gravity Assist", Point::new(-480, 0), Point::new(180, 0), Point::new(480, 0), 2, b),
    );

    let mut b: Vec<BodyDef> = Vec::new();
    b.push(make_body(0, 0, 8000, 42, BodyKind::Star));
    levels.push(
        make_level(
            1,
            "Solar Slingshot",
            Point::new(-400, 200),
            Point::new(120, -80),
            Point::new(400, -200),
            2,
            b,
        ),
    );

    let mut b: Vec<BodyDef> = Vec::new();
    b.push(make_body(-150, 160, 4000, 32, BodyKind::Planet));
    b.push(make_body(150, -160, 4000, 32, BodyKind::Planet));
    levels.push(
        make_level(2, "Binary Dance", Point::new(-500, 0), Point::new(200, 30), Point::new(500, 0), 3, b),
    );

    let mut b: Vec<BodyDef> = Vec::new();
    b.push(make_body(0, -80, 12000, 22, BodyKind::BlackHole));
    levels.push(
        make_level(
            3,
            "Event Horizon",
            Point::new(-500, 180),
            Point::new(200, -60),
            Point::new(480, 180),
            3,
            b,
        ),
    );

    let mut b: Vec<BodyDef> = Vec::new();
    b.push(make_body(-200, 180, 2500, 22, BodyKind::Planet));
    b.push(make_body(0, -180, 2500, 22, BodyKind::Planet));
    b.push(make_body(200, 180, 2500, 22, BodyKind::Planet));
    levels.push(
        make_level(4, "Asteroid Field", Point::new(-520, 0), Point::new(220, 0), Point::new(520, 0), 4, b),
    );

    assert(levels@[0]@.bodies =~= level_table()[0].bodies);
    assert(levels@[1]@.bodies =~= level_table()[1].bodies);
    assert(levels@[2]@.bodies =~= level_table()[2].bodies);
    assert(levels@[3]@.bodies =~= level_table()[3].bodies);
    assert(levels@[4]@.bodies =~= level_table()[4].bodies);
    levels
}

/// How many levels the game has.
pub fn level_count() -> (n: usize)
    ensures
        n == level_table().len(),
{
    5
}

impl Default for LevelConfig {
    /// The first level.
    fn default() -> (level: LevelConfig)
        ensures
            level@ == level_table()[0],
    {
        let mut levels = build_levels();
        levels.swap_remove(0)
    }
}

} // verus!
