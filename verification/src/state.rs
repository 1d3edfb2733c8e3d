use vstd::prelude::*;

use rand::Rng;

use crate::control::Control;

verus! {

/// One cell of the grid, as a pair of unsigned coordinates. Equality is
/// structural; no bounds checking happens here (collision detection against
/// the board bounds is the `Board`'s responsibility).
#[derive(PartialEq, Eq, Structural, Clone, Copy, Debug)]
pub struct Point {
    pub x: u8,
    pub y: u8,
}

impl Point {
    pub fn from(x: u8, y: u8) -> (r: Self)
        ensures
            r.x == x,
            r.y == y,
    {
        Self { x, y }
    }

    pub fn x(&self) -> (r: u8)
        ensures
            r == self.x,
    {
        self.x
    }

    pub fn y(&self) -> (r: u8)
        ensures
            r == self.y,
    {
        self.y
    }
}

/// The run state of a game.
///
/// `Running` is the ordinary state; `FruitCollected` marks the one frame in
/// which the snake has grown and the tail retraction must be skipped;
/// `GameOver` is terminal.
#[derive(PartialEq, Eq, Structural, Clone, Copy, Debug)]
pub enum State {
    Running,
    FruitCollected,
    GameOver,
}

/// The head of the snake: the last, most recently added, segment.
pub open spec fn head_of(snake: Seq<Point>) -> Point
    recommends
        snake.len() >= 1,
{
    snake.last()
}

/// The x coordinate one cell ahead of `head` in direction `dir`, as an
/// unbounded integer (a step off the low edge would leave `u8`).
pub open spec fn next_x_of(head: Point, dir: Control) -> int {
    match dir {
        Control::LEFT => head.x - 1,
        Control::RIGHT => head.x + 1,
        _ => head.x as int,
    }
}

/// The y coordinate one cell ahead of `head` in direction `dir`.
pub open spec fn next_y_of(head: Point, dir: Control) -> int {
    match dir {
        Control::UP => head.y - 1,
        Control::DOWN => head.y + 1,
        _ => head.y as int,
    }
}

/// The whole mutable game state: fixed grid bounds, run state, the pending
/// movement direction, the snake body (tail first, head last), at most one
/// food item, and a counter that throttles food respawning.
pub struct Board {
    pub width: u8,
    pub height: u8,

    pub state: State,
    pub move_direction: Control,

    pub snake: Vec<Point>,
    pub fruit: Option<Point>,
    pub frames_since_fruit: u16,
}

impl Board {
    /// The x coordinate of the projected next head position.
    pub open spec fn next_x(self) -> int {
        next_x_of(head_of(self.snake@), self.move_direction)
    }

    /// The y coordinate of the projected next head position.
    pub open spec fn next_y(self) -> int {
        next_y_of(head_of(self.snake@), self.move_direction)
    }

    /// The projected next head position fits in the `u8` grid coordinates.
    pub open spec fn next_point_representable(self) -> bool {
        0 <= self.next_x() <= u8::MAX && 0 <= self.next_y() <= u8::MAX
    }

    /// The projected next head position as a `Point`; meaningful only when it
    /// is representable.
    pub open spec fn next_point(self) -> Point
        recommends
            self.next_point_representable(),
    {
        Point { x: self.next_x() as u8, y: self.next_y() as u8 }
    }

    /// `p` lies on or beyond the boundary ring: coordinate 0 counts as a wall,
    /// as do `width` and `height` (the playable interior is strictly inside).
    pub open spec fn on_wall(self, p: Point) -> bool {
        p.x == 0 || p.x >= self.width || p.y == 0 || p.y >= self.height
    }

    /// Some body segment lies on or beyond the boundary.
    pub open spec fn hits_wall(self) -> bool {
        exists|i: int| 0 <= i < self.snake@.len() && self.on_wall(self.snake@[i])
    }

    /// The projected next head position lands on a current body segment.
    pub open spec fn hits_body(self) -> bool {
        exists|i: int|
            0 <= i < self.snake@.len() && self.snake@[i].x == self.next_x()
                && self.snake@[i].y == self.next_y()
    }

    /// The death-collision check of this frame fires: a wall has been reached
    /// or the next move would run into the body.
    pub open spec fn collides(self) -> bool {
        self.hits_wall() || self.hits_body()
    }

    /// The food is present and lies under the current head.
    pub open spec fn eats(self) -> bool {
        self.fruit matches Some(f) && f == head_of(self.snake@)
    }

    /// A board in ordinary play: a non-empty body, a grid wide enough for
    /// the food inset region, and any present food inside that region.
    /// `new` establishes this on such a grid, and one frame preserves it.
    pub open spec fn wf(self) -> bool {
        &&& self.snake@.len() >= 1
        &&& self.width > 8
        &&& self.height > 8
        &&& (self.fruit matches Some(f) ==> 4 <= f.x < self.width - 4 && 4 <= f.y < self.height
            - 4)
    }
}

/// Relies on `rand`: `Rng::gen_range(lo..hi)` on `thread_rng()` returns a
/// uniformly sampled value of the half-open range `[lo, hi)`, and panics only
/// when the range is empty. Nothing more is assumed of which value comes back.
#[verifier::external_body]
fn rand_in_range(lo: u8, hi: u8) -> (r: u8)
    requires
        lo < hi,
    ensures
        lo <= r < hi,
{
    let mut rng = rand::thread_rng();
    rng.gen_range(lo..hi)
}

impl Board {
    /// Create a new board: centered snake of length 4 facing right, no food,
    /// state `Running`. `width >= 6` keeps the leftmost initial segment on the
    /// grid.
    pub fn new(width: u8, height: u8) -> (r: Self)
        requires
            width >= 6,
        ensures
            r.width == width,
            r.height == height,
            r.state == State::Running,
            r.move_direction == Control::RIGHT,
            r.fruit is None,
            r.frames_since_fruit == 0,
            r.snake@.len() == 4,
            forall|i: int|
                0 <= i < 4 ==> r.snake@[i].x == width / 2 - 3 + i && r.snake@[i].y == height / 2,
    {
        let tail_point = Point::from(width / 2, height / 2);

        Board {
            width,
            height,

            state: State::Running,
            move_direction: Control::RIGHT,

            snake: vec![
                Point::from(tail_point.x - 3, tail_point.y),
                Point::from(tail_point.x - 2, tail_point.y),
                Point::from(tail_point.x - 1, tail_point.y),
                tail_point,
            ],
            fruit: None,
            frames_since_fruit: 0,
        }
    }

    /// The next cell the snake is headed for: one step from the current head
    /// in the pending direction.
    fn get_next_point(&self) -> (r: Point)
        requires
            self.snake@.len() >= 1,
            self.next_point_representable(),
        ensures
            r.x == self.next_x(),
            r.y == self.next_y(),
    {
        let head = self.snake[self.snake.len() - 1];
        match self.move_direction {
            Control::UP => Point::from(head.x, head.y - 1),
            Control::DOWN => Point::from(head.x, head.y + 1),
            Control::LEFT => Point::from(head.x - 1, head.y),
            _ => Point::from(head.x + 1, head.y),
        }
    }

    /// Append the projected next head position to the snake; a no-op once the
    /// game is over. This always grows the body by one; the matching tail
    /// retraction is `chop_tail`'s job.
    pub fn move_snake(&mut self)
        requires
            old(self).state != State::GameOver ==> old(self).snake@.len() >= 1
                && old(self).next_point_representable(),
        ensures
            final(self).width == old(self).width,
            final(self).height == old(self).height,
            final(self).state == old(self).state,
            final(self).move_direction == old(self).move_direction,
            final(self).fruit == old(self).fruit,
            final(self).frames_since_fruit == old(self).frames_since_fruit,
            old(self).state == State::GameOver ==> final(self).snake@ == old(self).snake@,
            old(self).state != State::GameOver ==> final(self).snake@ == old(self).snake@.push(
                old(self).next_point(),
            ),
    {
        if self.state == State::GameOver {
            return;
        }

        let next = self.get_next_point();
        self.snake.push(next);
    }

    /// The death-collision check: if any segment lies on or beyond the
    /// boundary, or the projected next head position lands on a current
    /// segment, the state becomes `GameOver`; otherwise nothing changes.
    pub fn check_collision_death(&mut self)
        requires
            old(self).snake@.len() >= 1,
        ensures
            final(self).width == old(self).width,
            final(self).height == old(self).height,
            final(self).move_direction == old(self).move_direction,
            final(self).snake@ == old(self).snake@,
            final(self).fruit == old(self).fruit,
            final(self).frames_since_fruit == old(self).frames_since_fruit,
            old(self).collides() ==> final(self).state == State::GameOver,
            !old(self).collides() ==> final(self).state == old(self).state,
    {
        let n = self.snake.len();
        let mut i: usize = 0;
        while i < n
            invariant
                *self == *old(self),
                n == self.snake@.len(),
                i <= n,
                forall|j: int| 0 <= j < i ==> !self.on_wall(self.snake@[j]),
            decreases n - i,
        {
            let p = self.snake[i];
            if p.x == 0 || p.x >= self.width || p.y == 0 || p.y >= self.height {
                self.state = State::GameOver;
                return;
            }
            i += 1;
        }
        assert(!self.hits_wall());
        assert(!self.on_wall(self.snake@[self.snake@.len() - 1]));

        let next_move = self.get_next_point();
        let mut i: usize = 0;
        while i < n
            invariant
                *self == *old(self),
                n == self.snake@.len(),
                i <= n,
                self.snake@.len() >= 1,
                next_move.x == self.next_x(),
                next_move.y == self.next_y(),
                forall|j: int|
                    0 <= j < i ==> !(self.snake@[j].x == self.next_x() && self.snake@[j].y
                        == self.next_y()),
            decreases n - i,
        {
            if next_move == self.snake[i] {
                self.state = State::GameOver;
                return;
            }
            i += 1;
        }
        assert(!self.hits_body());
    }

    /// The food-collision check: if the food lies under the current head, the
    /// state becomes `FruitCollected` and the food is taken off the board.
    pub fn check_collision_food(&mut self)
        requires
            old(self).snake@.len() >= 1,
        ensures
            final(self).width == old(self).width,
            final(self).height == old(self).height,
            final(self).move_direction == old(self).move_direction,
            final(self).snake@ == old(self).snake@,
            final(self).frames_since_fruit == old(self).frames_since_fruit,
            old(self).eats() ==> final(self).state == State::FruitCollected && final(self).fruit
                is None,
            !old(self).eats() ==> final(self).state == old(self).state && final(self).fruit == old(self).fruit,
    {
        if let Some(fruit) = self.fruit {
            let last_body = self.snake[self.snake.len() - 1];
            if fruit == last_body {
                self.state = State::FruitCollected;
                self.fruit = None;
            }
        }
    }

    /// The tail retraction. A `FruitCollected` frame is consumed here: the
    /// state returns to `Running` and the tail is kept, so the body stays one
    /// segment longer. In `Running` the oldest, front segment is removed; once
    /// the game is over nothing changes.
    pub fn chop_tail(&mut self)
        requires
            old(self).state == State::Running ==> old(self).snake@.len() >= 1,
        ensures
            final(self).width == old(self).width,
            final(self).height == old(self).height,
            final(self).move_direction == old(self).move_direction,
            final(self).fruit == old(self).fruit,
            final(self).frames_since_fruit == old(self).frames_since_fruit,
            old(self).state == State::FruitCollected ==> final(self).state == State::Running
                && final(self).snake@ == old(self).snake@,
            old(self).state == State::GameOver ==> final(self).state == State::GameOver && final(self).snake@ == old(self).snake@,
            old(self).state == State::Running ==> final(self).state == State::Running && final(self).snake@ == old(self).snake@.remove(0),
    {
        if self.state == State::FruitCollected {
            self.state = State::Running;
            return;
        }

        if self.state != State::Running {
            return;
        }

        let _last_body = self.snake.remove(0);
    }

    /// Overwrite the pending movement direction; no validation against the
    /// current heading happens here (a reversal is caught, one frame later, by
    /// the self-collision check).
    pub fn change_control(&mut self, control: Control)
        ensures
            final(self).width == old(self).width,
            final(self).height == old(self).height,
            final(self).state == old(self).state,
            final(self).move_direction == control,
            final(self).snake@ == old(self).snake@,
            final(self).fruit == old(self).fruit,
            final(self).frames_since_fruit == old(self).frames_since_fruit,
    {
        self.move_direction = control;
    }

    /// The food respawn step. Present food is left exactly where it is. With
    /// no food on the board the frame counter climbs, and once it has reached
    /// 5 a food point is placed at a random cell of the inset region
    /// `[4, width - 4) x [4, height - 4)` and the counter resets to 0. No
    /// check is made that the chosen cell is free of the snake body.
    pub fn spawn_fruit(&mut self)
        requires
            old(self).fruit is None && old(self).frames_since_fruit >= 5 ==> old(self).width > 8
                && old(self).height > 8,
        ensures
            final(self).width == old(self).width,
            final(self).height == old(self).height,
            final(self).state == old(self).state,
            final(self).move_direction == old(self).move_direction,
            final(self).snake@ == old(self).snake@,
            old(self).fruit is Some ==> final(self).fruit == old(self).fruit && final(self).frames_since_fruit == old(self).frames_since_fruit,
            old(self).fruit is None && old(self).frames_since_fruit < 5 ==> final(self).fruit
                is None && final(self).frames_since_fruit == old(self).frames_since_fruit + 1,
            old(self).fruit is None && old(self).frames_since_fruit >= 5 ==> (final(self).fruit matches Some(f) && 4 <= f.x < old(self).width - 4 && 4 <= f.y < old(self).height - 4) && final(self).frames_since_fruit == 0,
    {
        if self.fruit.is_some() {
            return;
        }

        let frames_since_fruit = self.frames_since_fruit;
        if frames_since_fruit < 5 {
            self.frames_since_fruit += 1;
            return;
        }

        let pos_x = rand_in_range(4, self.width - 4);
        let pos_y = rand_in_range(4, self.height - 4);
        self.fruit = Some(Point::from(pos_x, pos_y));
        self.frames_since_fruit = 0;
    }

    pub fn state(&self) -> (r: &State)
        ensures
            *r == self.state,
    {
        &self.state
    }

    pub fn snake(&self) -> (r: &Vec<Point>)
        ensures
            r@ == self.snake@,
    {
        &self.snake
    }

    pub fn fruit(&self) -> (r: &Option<Point>)
        ensures
            *r == self.fruit,
    {
        &self.fruit
    }
}

} // verus!
