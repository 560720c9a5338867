use vstd::prelude::*;
use rand::Rng;

verus! {

/// Number of grid columns; cell x-coordinates range over `[0, GRID_X_SIZE)`.
pub const GRID_X_SIZE: u32 = 40;

/// Number of grid rows; cell y-coordinates range over `[0, GRID_Y_SIZE)`.
pub const GRID_Y_SIZE: u32 = 30;

/// Side length, in pixels, of one grid cell when rendered.
pub const DOT_SIZE_IN_PXS: u32 = 20;

/// Exclusive upper bound of the random offset drawn when food is relocated.
pub const FOOD_STEP_RANGE: i32 = 30;

/// Lifecycle of one game. `Playing` is the initial state; `GameOver` is
/// terminal: no operation leaves it.
#[derive(Copy, Clone, Debug, PartialEq, Eq, Structural)]
pub enum GameState {
    Playing,
    Paused,
    GameOver,
}

/// Heading of the snake. The y-axis grows downward, so `Up` decreases y.
#[derive(Copy, Clone, Debug, PartialEq, Eq, Structural)]
pub enum PlayerDirection {
    Up,
    Down,
    Right,
    Left,
}

/// A grid cell, as an ordered pair of signed coordinates `(x, y)`.
#[derive(Copy, Clone, Debug, PartialEq, Eq, Structural)]
pub struct Point(pub i32, pub i32);

/// Whether a cell lies within the grid `[0, GRID_X_SIZE) x [0, GRID_Y_SIZE)`.
pub open spec fn in_grid(p: Point) -> bool {
    &&& 0 <= p.0 && (p.0 as int) < (GRID_X_SIZE as int)
    &&& 0 <= p.1 && (p.1 as int) < (GRID_Y_SIZE as int)
}

/// x-component of the unit vector of a direction.
pub open spec fn delta_x(d: PlayerDirection) -> int {
    match d {
        PlayerDirection::Left => -1,
        PlayerDirection::Right => 1,
        _ => 0,
    }
}

/// y-component of the unit vector of a direction.
pub open spec fn delta_y(d: PlayerDirection) -> int {
    match d {
        PlayerDirection::Up => -1,
        PlayerDirection::Down => 1,
        _ => 0,
    }
}

impl Point {
    /// Componentwise addition.
    pub fn add(self, rhs: Point) -> (r: Point)
        requires
            i32::MIN <= self.0 as int + rhs.0 as int <= i32::MAX,
            i32::MIN <= self.1 as int + rhs.1 as int <= i32::MAX,
        ensures
            r.0 as int == self.0 as int + rhs.0 as int,
            r.1 as int == self.1 as int + rhs.1 as int,
    {
        Point(self.0 + rhs.0, self.1 + rhs.1)
    }
}

/// The whole game state: the snake's body (head first), its heading, the
/// single food cell, and the lifecycle state.
pub struct GameContext {
    pub player_position: Vec<Point>,
    pub player_direction: PlayerDirection,
    pub food: Point,
    pub state: GameState,
}

/// Relates the state before and after one feeding step with offset `r`:
/// either the head misses the food and nothing changes, or the food cell is
/// prepended to the body and the food moves to
/// `((x + r) mod GRID_X_SIZE, (y + r) mod GRID_Y_SIZE)`.
pub open spec fn fed_with(pre: GameContext, post: GameContext, r: i32) -> bool {
    if pre.spec_head() == pre.food {
        &&& post.player_position@ == seq![pre.food] + pre.player_position@
        &&& post.food.0 as int == (pre.food.0 as int + r as int) % (GRID_X_SIZE as int)
        &&& post.food.1 as int == (pre.food.1 as int + r as int) % (GRID_Y_SIZE as int)
        &&& post.player_direction == pre.player_direction
        &&& post.state == pre.state
    } else {
        post == pre
    }
}

impl GameContext {
    /// Well-formedness: the body is never empty, the food lies on the grid,
    /// and every body cell lies on the grid until the game is over.
    pub open spec fn wf(self) -> bool {
        &&& self.player_position@.len() >= 1
        &&& in_grid(self.food)
        &&& (self.state !is GameOver ==> forall|i: int|
            0 <= i < self.player_position@.len() ==> in_grid(
                #[trigger] self.player_position@[i],
            ))
    }

    /// The head cell: the first element of the body.
    pub open spec fn spec_head(self) -> Point
        recommends
            self.player_position@.len() >= 1,
    {
        self.player_position@[0]
    }

    /// The cell the head moves to on the next advancing tick.
    pub open spec fn spec_next_head(self) -> Point
        recommends
            self.player_position@.len() >= 1,
    {
        Point(
            (self.spec_head().0 as int + delta_x(self.player_direction)) as i32,
            (self.spec_head().1 as int + delta_y(self.player_direction)) as i32,
        )
    }

    /// The initial configuration: a three-cell body heading right, food at
    /// `(3, 3)`, state `Playing`.
    pub fn new() -> (g: GameContext)
        ensures
            g.wf(),
            g.player_position@ == seq![Point(3, 1), Point(2, 1), Point(1, 1)],
            g.player_direction is Right,
            g.food == (Point(3, 3)),
            g.state is Playing,
    {
        let mut body: Vec<Point> = Vec::new();
        body.push(Point(3, 1));
        body.push(Point(2, 1));
        body.push(Point(1, 1));
        let g = GameContext {
            player_position: body,
            player_direction: PlayerDirection::Right,
            food: Point(3, 3),
            state: GameState::Playing,
        };
        g
    }

    /// Advance one simulation step. When the game is `Paused` or over,
    /// nothing changes; when `Playing`, the head moves one cell along the
    /// current direction, the tail cell is dropped, and the state becomes
    /// `GameOver` exactly when the new head has left the grid (the body is
    /// still advanced on that terminal tick).
    pub fn next_tick(&mut self)
        requires
            old(self).wf(),
        ensures
            final(self).wf(),
            final(self).player_position@.len() == old(self).player_position@.len(),
            old(self).state !is Playing ==> *final(self) == *old(self),
            old(self).state is Playing ==> {
                &&& final(self).player_position@ == seq![old(self).spec_next_head()]
                    + old(self).player_position@.take(old(self).player_position@.len() - 1)
                &&& final(self).spec_head().0 as int == old(self).spec_head().0 as int + delta_x(
                    old(self).player_direction,
                )
                &&& final(self).spec_head().1 as int == old(self).spec_head().1 as int + delta_y(
                    old(self).player_direction,
                )
                &&& final(self).food == old(self).food
                &&& final(self).player_direction == old(self).player_direction
                &&& final(self).state == (if in_grid(old(self).spec_next_head()) {
                    GameState::Playing
                } else {
                    GameState::GameOver
                })
            },
    {
        match self.state {
            GameState::Playing => self.update_game(),
            _ => {},
        }
    }

    /// One advancing step: compute the next head, mark `GameOver` if it has
    /// left the grid, then prepend it and drop the tail.
    fn update_game(&mut self)
        requires
            old(self).wf(),
            old(self).state is Playing,
        ensures
            final(self).wf(),
            final(self).player_position@ == seq![old(self).spec_next_head()]
                + old(self).player_position@.take(old(self).player_position@.len() - 1),
            final(self).food == old(self).food,
            final(self).player_direction == old(self).player_direction,
            final(self).state == (if in_grid(old(self).spec_next_head()) {
                GameState::Playing
            } else {
                GameState::GameOver
            }),
    {
        let head_position = self.player_position[0];
        let next_head_position = match self.player_direction {
            PlayerDirection::Up => head_position.add(Point(0, -1)),
            PlayerDirection::Down => head_position.add(Point(0, 1)),
            PlayerDirection::Left => head_position.add(Point(-1, 0)),
            PlayerDirection::Right => head_position.add(Point(1, 0)),
        };
        self.check_position(&next_head_position);

        self.player_position.pop();
        self.player_position.insert(0, next_head_position);

        proof {
            assert(self.player_position@ =~= seq![old(self).spec_next_head()]
                + old(self).player_position@.take(old(self).player_position@.len() - 1));
        }
    }

    /// Mark the game over when the given cell lies outside the grid;
    /// otherwise change nothing.
    fn check_position(&mut self, position: &Point)
        ensures
            final(self).player_position@ == old(self).player_position@,
            final(self).player_direction == old(self).player_direction,
            final(self).food == old(self).food,
            final(self).state == (if in_grid(*position) {
                old(self).state
            } else {
                GameState::GameOver
            }),
    {
        if position.0 >= GRID_X_SIZE as i32 || position.0 < 0 || position.1 >= GRID_Y_SIZE as i32
            || position.1 < 0 {
            self.state = GameState::GameOver;
        }
    }

    /// Set the heading to `Up`. Body, food and state are untouched.
    pub fn move_up(&mut self)
        ensures
            final(self).player_direction is Up,
            final(self).player_position@ == old(self).player_position@,
            final(self).food == old(self).food,
            final(self).state == old(self).state,
            old(self).wf() ==> final(self).wf(),
    {
        self.player_direction = PlayerDirection::Up;
    }

    /// Set the heading to `Down`. Body, food and state are untouched.
    pub fn move_down(&mut self)
        ensures
            final(self).player_direction is Down,
            final(self).player_position@ == old(self).player_position@,
            final(self).food == old(self).food,
            final(self).state == old(self).state,
            old(self).wf() ==> final(self).wf(),
    {
        self.player_direction = PlayerDirection::Down;
    }

    /// Set the heading to `Left`. Body, food and state are untouched.
    pub fn move_left(&mut self)
        ensures
            final(self).player_direction is Left,
            final(self).player_position@ == old(self).player_position@,
            final(self).food == old(self).food,
            final(self).state == old(self).state,
            old(self).wf() ==> final(self).wf(),
    {
        self.player_direction = PlayerDirection::Left;
    }

    /// Set the heading to `Right`. Body, food and state are untouched.
    pub fn move_right(&mut self)
        ensures
            final(self).player_direction is Right,
            final(self).player_position@ == old(self).player_position@,
            final(self).food == old(self).food,
            final(self).state == old(self).state,
            old(self).wf() ==> final(self).wf(),
    {
        self.player_direction = PlayerDirection::Right;
    }

    /// Toggle between `Playing` and `Paused`. A finished game stays
    /// `GameOver`. Body, heading and food are untouched.
    pub fn toggle_pause(&mut self)
        ensures
            final(self).player_position@ == old(self).player_position@,
            final(self).player_direction == old(self).player_direction,
            final(self).food == old(self).food,
            final(self).state == (match old(self).state {
                GameState::Paused => GameState::Playing,
                GameState::Playing => GameState::Paused,
                GameState::GameOver => GameState::GameOver,
            }),
            old(self).wf() ==> final(self).wf(),
    {
        self.state = match self.state {
            GameState::Paused => GameState::Playing,
            GameState::Playing => GameState::Paused,
            _ => GameState::GameOver,
        }
    }

    /// One feeding step with a caller-supplied offset `r`: if the head sits
    /// on the food, the body grows by one cell (the food cell is prepended;
    /// the duplicate head resolves on the next tick) and the food moves to
    /// `((x + r) mod GRID_X_SIZE, (y + r) mod GRID_Y_SIZE)`; otherwise
    /// nothing changes.
    pub fn feed_with(&mut self, r: i32)
        requires
            old(self).wf(),
            0 <= r < FOOD_STEP_RANGE,
        ensures
            final(self).wf(),
            fed_with(*old(self), *final(self), r),
            old(self).spec_head() != old(self).food ==> *final(self) == *old(self),
            final(self).player_position@.len() == old(self).player_position@.len()
                || final(self).player_position@.len() == old(self).player_position@.len() + 1,
    {
        let head = self.player_position[0];
        if head == self.food {
            let f = self.food;
            self.player_position.insert(0, f);
            self.food = Point(
                (f.0 + r) % (GRID_X_SIZE as i32),
                (f.1 + r) % (GRID_Y_SIZE as i32),
            );
            proof {
                assert(self.player_position@ =~= seq![old(self).food]
                    + old(self).player_position@);
            }
        }
    }

    /// Feed from the process-wide random number generator: as `feed_with`,
    /// with an offset drawn uniformly from `[0, FOOD_STEP_RANGE)`.
    pub fn feed(&mut self)
        requires
            old(self).wf(),
        ensures
            final(self).wf(),
            old(self).spec_head() != old(self).food ==> *final(self) == *old(self),
            exists|r: i32| 0 <= r < FOOD_STEP_RANGE && fed_with(*old(self), *final(self), r),
            final(self).player_position@.len() == old(self).player_position@.len()
                || final(self).player_position@.len() == old(self).player_position@.len() + 1,
    {
        let r: i32 = random_offset();
        self.feed_with(r);
    }
}

/// Relies on `rand::Rng::gen_range` over `rand::thread_rng()`: a draw from
/// the non-empty half-open range `0..FOOD_STEP_RANGE` lies within it.
#[verifier::external_body]
fn random_offset() -> (r: i32)
    ensures
        0 <= r < FOOD_STEP_RANGE,
{
    let mut rng = rand::thread_rng();
    rng.gen_range(0..FOOD_STEP_RANGE)
}

} // verus!
