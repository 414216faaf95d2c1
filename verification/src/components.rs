use vstd::prelude::*;

verus! {

// ── Bodies ───────────────────────────────────────────────────────────────────

/// What a gravity body is; decides how it is drawn.
#[derive(Clone, Copy, PartialEq, Eq, Structural, Debug)]
pub enum BodyKind {
    Planet,
    Star,
    BlackHole,
    Placed,
}

/// A point or a vector of the playing field, in whole world units.
#[derive(Clone, Copy, PartialEq, Eq, Structural, Debug)]
pub struct Point {
    pub x: i32,
    pub y: i32,
}

impl Point {
    pub fn new(x: i32, y: i32) -> (p: Point)
        ensures
            p.x == x,
            p.y == y,
    {
        Point { x, y }
    }
}

/// A fixed gravity body of a level: where it sits, how heavy and how large it is.
#[derive(Clone, Copy, PartialEq, Eq, Structural, Debug)]
pub struct BodyDef {
    pub pos: Point,
    pub mass: u32,
    pub radius: u32,
    pub kind: BodyKind,
}

/// Mass, radius and kind of a body that the player places.
#[derive(Clone, Copy, PartialEq, Eq, Structural, Debug)]
pub struct BodyStats {
    pub mass: u32,
    pub radius: u32,
    pub kind: BodyKind,
}

// ── Global state ─────────────────────────────────────────────────────────────

/// The tool that a click on the playing field applies.
#[derive(Clone, Copy, PartialEq, Eq, Structural, Debug)]
pub enum PlaceTool {
    Planet,
    Star,
    BlackHole,
    Erase,
}

/// How the current attempt stands.
#[derive(Clone, Copy, PartialEq, Eq, Structural, Debug)]
pub enum Outcome {
    Playing,
    Win,
    Fail,
}

/// The state of a game session.
#[derive(Clone, Copy, Debug)]
pub struct GameState {
    pub simulating: bool,
    pub outcome: Outcome,
    pub current_level: usize,
    pub placed_count: usize,
    pub active_tool: PlaceTool,
}

impl GameState {
    /// A session in this state is coherent: a flight only runs while the
    /// attempt is still undecided.
    pub open spec fn is_consistent(self) -> bool {
        self.simulating ==> self.outcome == Outcome::Playing
    }

    /// The state a session starts in.
    pub open spec fn initial() -> GameState {
        GameState {
            simulating: false,
            outcome: Outcome::Playing,
            current_level: 0,
            placed_count: 0,
            active_tool: PlaceTool::Planet,
        }
    }

    /// Whether the flight is running.
    pub fn is_simulating(&self) -> (b: bool)
        ensures
            b == self.simulating,
    {
        self.simulating
    }
}

impl Default for GameState {
    fn default() -> (s: GameState)
        ensures
            s == GameState::initial(),
    {
        GameState {
            simulating: false,
            outcome: Outcome::Playing,
            current_level: 0,
            placed_count: 0,
            active_tool: PlaceTool::Planet,
        }
    }
}

// ── Level data ───────────────────────────────────────────────────────────────

/// A level: the ship's start, the target, the fixed bodies and how many
/// bodies the player may place.
pub struct LevelConfig {
    pub index: usize,
    pub name: String,
    pub ship_pos: Point,
    pub ship_vel: Point,
    pub target_pos: Point,
    pub max_placed: usize,
    pub bodies: Vec<BodyDef>,
}

/// The mathematical value of a [`LevelConfig`].
pub struct LevelView {
    pub index: usize,
    pub name: Seq<char>,
    pub ship_pos: Point,
    pub ship_vel: Point,
    pub target_pos: Point,
    pub max_placed: usize,
    pub bodies: Seq<BodyDef>,
}

impl View for LevelConfig {
    type V = LevelView;

    open spec fn view(&self) -> LevelView {
        LevelView {
            index: self.index,
            name: self.name@,
            ship_pos: self.ship_pos,
            ship_vel: self.ship_vel,
            target_pos: self.target_pos,
            max_placed: self.max_placed,
            bodies: self.bodies@,
        }
    }
}

impl Clone for LevelConfig {
    fn clone(&self) -> (res: Self)
        ensures
            res@ == self@,
    {
        let mut bodies: Vec<BodyDef> = Vec::new();
        let n = self.bodies.len();
        for i in 0..n
            invariant
                n == self.bodies@.len(),
                bodies@ == self.bodies@.take(i as int),
        {
            bodies.push(self.bodies[i]);
            assert(self.bodies@.take(i + 1) == self.bodies@.take(i as int).push(self.bodies@[i as int]));
        }
        assert(self.bodies@.take(n as int) == self.bodies@);
        LevelConfig {
            index: self.index,
            name: self.name.clone(),
            ship_pos: self.ship_pos,
            ship_vel: self.ship_vel,
            target_pos: self.target_pos,
            max_placed: self.max_placed,
            bodies,
        }
    }
}

} // verus!
