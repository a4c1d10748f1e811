use vstd::prelude::*;
use crate::geometry::{Point, abs, adjacent, sum, sum_fits};

verus! {

/// The lifecycle of a game: ticks only move the snake while `Playing`.
#[derive(Clone, Copy, Debug, PartialEq, Eq, Structural)]
pub enum GameState {
    Playing,
    Paused,
}

/// The direction the snake travels in.
#[derive(Clone, Copy, Debug, PartialEq, Eq, Structural)]
pub enum PlayerDirection {
    Up,
    Down,
    Right,
    Left,
}

/// The one-cell step of a direction; rows grow downward on screen.
pub open spec fn unit_vector_spec(d: PlayerDirection) -> Point {
    match d {
        PlayerDirection::Up => Point(0, -1i32),
        PlayerDirection::Down => Point(0, 1),
        PlayerDirection::Right => Point(1, 0),
        PlayerDirection::Left => Point(-1i32, 0),
    }
}

/// The cell one step from `p` in direction `d`.
pub open spec fn step(p: Point, d: PlayerDirection) -> Point {
    sum(p, unit_vector_spec(d))
}

/// Whether the step from `p` in direction `d` stays within `i32`.
pub open spec fn step_fits(p: Point, d: PlayerDirection) -> bool {
    sum_fits(p, unit_vector_spec(d))
}

/// Every two consecutive segments of a body are neighbouring cells.
pub open spec fn is_contiguous(body: Seq<Point>) -> bool {
    forall|i: int| 0 <= i < body.len() - 1 ==> #[trigger] adjacent(body[i], body[i + 1])
}

/// The body with its tail dropped and the cell ahead of its head prepended.
pub open spec fn shifted_body(body: Seq<Point>, d: PlayerDirection) -> Seq<Point> {
    seq![step(body[0], d)] + body.drop_last()
}

/// The body after one tick of play: it shifts one cell forward; when the new
/// head lands on the food, one more segment is prepended, one further step
/// ahead of the new head.
pub open spec fn next_body(body: Seq<Point>, d: PlayerDirection, food: Point) -> Seq<Point> {
    let shifted = shifted_body(body, d);
    if shifted[0] == food {
        seq![step(shifted[0], d)] + shifted
    } else {
        shifted
    }
}

/// Whether a tick of play from `body` keeps every coordinate within `i32`.
pub open spec fn tick_fits(body: Seq<Point>, d: PlayerDirection, food: Point) -> bool {
    &&& body.len() > 0
    &&& step_fits(body[0], d)
    &&& step(body[0], d) == food ==> step_fits(step(body[0], d), d)
}

/// The lifecycle after a pause command.
pub open spec fn toggled(s: GameState) -> GameState {
    match s {
        GameState::Playing => GameState::Paused,
        GameState::Paused => GameState::Playing,
    }
}

/// The whole state of a game: the snake's body (head first), the direction
/// it travels in, the food cell and the lifecycle.
pub struct GameContext {
    pub player_position: Vec<Point>,
    pub player_direction: PlayerDirection,
    pub food: Point,
    pub state: GameState,
}

/// The step of a direction.
pub fn unit_vector(d: PlayerDirection) -> (r: Point)
    ensures
        r == unit_vector_spec(d),
{
    match d {
        PlayerDirection::Up => Point(0, -1),
        PlayerDirection::Down => Point(0, 1),
        PlayerDirection::Right => Point(1, 0),
        PlayerDirection::Left => Point(-1, 0),
    }
}

impl GameContext {
    /// The body is non-empty and contiguous.
    pub open spec fn wf(&self) -> bool {
        self.player_position@.len() > 0 && is_contiguous(self.player_position@)
    }

    /// Whether the next tick can run: the game is paused, or the body is
    /// non-empty and the cells it moves into have coordinates within `i32`.
    pub open spec fn can_tick(&self) -> bool {
        self.state == GameState::Paused
            || tick_fits(self.player_position@, self.player_direction, self.food)
    }

    /// A paused game: body `(3,1), (2,1), (1,1)` heading right, food at `(3,3)`.
    pub fn new() -> (r: GameContext)
        ensures
            r.player_position@ == seq![Point(3, 1), Point(2, 1), Point(1, 1)],
            r.player_direction == PlayerDirection::Right,
            r.food == Point(3, 3),
            r.state == GameState::Paused,
            r.wf(),
    {
        let r = GameContext {
            player_position: vec![Point(3, 1), Point(2, 1), Point(1, 1)],
            player_direction: PlayerDirection::Right,
            state: GameState::Paused,
            food: Point(3, 3),
        };
        assert(adjacent(r.player_position@[0], r.player_position@[1]));
        assert(adjacent(r.player_position@[1], r.player_position@[2]));
        r
    }

    /// Advances the game by one tick. A paused game stays as it is; a game
    /// in play moves its body to `next_body`, and keeps direction, food and
    /// lifecycle. A well-formed game stays well-formed.
    pub fn next_tick(&mut self)
        requires
            old(self).can_tick(),
        ensures
            old(self).state == GameState::Paused ==> *final(self) == *old(self),
            old(self).state == GameState::Playing ==> final(self).player_position@ == next_body(
                old(self).player_position@,
                old(self).player_direction,
                old(self).food,
            ),
            final(self).player_direction == old(self).player_direction,
            final(self).food == old(self).food,
            final(self).state == old(self).state,
            old(self).wf() ==> final(self).wf(),
    {
        if let GameState::Paused = self.state {
            return;
        }
        proof {
            if is_contiguous(self.player_position@) {
                lemma_next_body_contiguous(self.player_position@, self.player_direction, self.food);
            }
        }
        let ghost body = self.player_position@;
        let next_head_position = self.player_position[0] + unit_vector(self.player_direction);
        self.player_position.pop();
        self.player_position.insert(0, next_head_position);
        assert(self.player_position@ =~= shifted_body(body, self.player_direction));
        if next_head_position == self.food {
            let grown_head_position = next_head_position + unit_vector(self.player_direction);
            self.player_position.insert(0, grown_head_position);
        }
        assert(self.player_position@ =~= next_body(body, self.player_direction, self.food));
    }

    /// Sets the direction to `Up`, changing nothing else.
    pub fn move_up(&mut self)
        ensures
            *final(self) == (GameContext { player_direction: PlayerDirection::Up, ..*old(self) }),
    {
        self.player_direction = PlayerDirection::Up;
    }

    /// Sets the direction to `Down`, changing nothing else.
    pub fn move_down(&mut self)
        ensures
            *final(self) == (GameContext { player_direction: PlayerDirection::Down, ..*old(self) }),
    {
        self.player_direction = PlayerDirection::Down;
    }

    /// Sets the direction to `Right`, changing nothing else.
    pub fn move_right(&mut self)
        ensures
            *final(self) == (GameContext { player_direction: PlayerDirection::Right, ..*old(self) }),
    {
        self.player_direction = PlayerDirection::Right;
    }

    /// Sets the direction to `Left`, changing nothing else.
    pub fn move_left(&mut self)
        ensures
            *final(self) == (GameContext { player_direction: PlayerDirection::Left, ..*old(self) }),
    {
        self.player_direction = PlayerDirection::Left;
    }

    /// Flips the lifecycle between `Playing` and `Paused`, changing nothing else.
    pub fn toggle_pause(&mut self)
        ensures
            *final(self) == (GameContext { state: toggled(old(self).state), ..*old(self) }),
    {
        self.state = match self.state {
            GameState::Playing => GameState::Paused,
            GameState::Paused => GameState::Playing,
        }
    }
}

/// A step from `p` lands on a neighbouring cell.
pub proof fn lemma_step_adjacent(p: Point, d: PlayerDirection)
    requires
        step_fits(p, d),
    ensures
        adjacent(step(p, d), p),
{
}

/// A tick of play keeps a contiguous body contiguous.
pub proof fn lemma_next_body_contiguous(body: Seq<Point>, d: PlayerDirection, food: Point)
    requires
        tick_fits(body, d, food),
        is_contiguous(body),
    ensures
        is_contiguous(next_body(body, d, food)),
{
    let shifted = shifted_body(body, d);
    assert forall|i: int| 0 <= i < shifted.len() - 1 implies #[trigger] adjacent(shifted[i], shifted[i + 1]) by {
        assert(shifted[i + 1] == body[i]);
        if i > 0 {
            let j = i - 1;
            assert(shifted[i] == body[j]);
            assert(adjacent(body[j], body[j + 1]));
        } else {
            lemma_step_adjacent(body[0], d);
        }
    }
    if shifted[0] == food {
        let grown = seq![step(shifted[0], d)] + shifted;
        assert forall|i: int| 0 <= i < grown.len() - 1 implies #[trigger] adjacent(grown[i], grown[i + 1]) by {
            assert(grown[i + 1] == shifted[i]);
            if i > 0 {
                let j = i - 1;
                assert(grown[i] == shifted[j]);
                assert(adjacent(shifted[j], shifted[j + 1]));
            } else {
                lemma_step_adjacent(shifted[0], d);
            }
        }
    }
}

/// A step in any direction changes exactly one coordinate, by one, and
/// leaves the other as it was.
pub proof fn lemma_step_changes_one_coordinate(p: Point, d: PlayerDirection)
    requires
        step_fits(p, d),
    ensures
        ({
            let q = sum(p, unit_vector_spec(d));
            ||| q.0 == p.0 && abs(q.1 - p.1) == 1
            ||| q.1 == p.1 && abs(q.0 - p.0) == 1
        }),
{
}

/// Pausing twice gives back the lifecycle one started with.
pub proof fn lemma_toggle_twice(s: GameState)
    ensures
        toggled(toggled(s)) == s,
{
}

/// A tick of play whose new head misses the food keeps the length; the new
/// head is one step ahead of the old one, and the new tail is the old body's
/// second-to-last segment.
pub proof fn lemma_tick_without_food(body: Seq<Point>, d: PlayerDirection, food: Point)
    requires
        body.len() >= 2,
        step(body[0], d) != food,
    ensures
        next_body(body, d, food).len() == body.len(),
        next_body(body, d, food)[0] == sum(body[0], unit_vector_spec(d)),
        next_body(body, d, food).last() == body[body.len() - 2],
{
}

} // verus!
