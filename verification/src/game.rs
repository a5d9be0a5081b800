//! One tick of the game: the snake advances by a cell, eats and grows where
//! the food is, and dies where its own body or a wall is.

use vstd::prelude::*;
use crate::food::{free_cells, generate_food, is_free, lemma_free_cells};
use crate::level::{in_grid, lemma_grid_rows, Shape};
use crate::point::Point;
use crate::snake::{Direction, Snake};
use crate::sound::Sound;

verus! {

/// What the snake's head ran into.
#[derive(PartialEq, Eq, Structural, Clone, Copy, Debug)]
pub enum Collision {
    /// A cell of the snake itself.
    Body,
    /// A wall of the level.
    Wall,
}

/// What a tick did.
#[derive(PartialEq, Eq, Structural, Clone, Copy, Debug)]
pub struct Outcome {
    /// Whether the snake ate the food and grew.
    pub grew: bool,
    /// What the head ran into, if anything. The game is over if it did.
    pub collision: Option<Collision>,
}

/// How long the game waits after a collision, in milliseconds.
pub const GAME_OVER_PAUSE: u64 = 500;

/// Something for the program that runs the game to do after a tick.
#[derive(PartialEq, Eq, Structural, Clone, Copy, Debug)]
pub enum Effect {
    /// Play the sound once, from its start.
    PlayOnce(Sound),
    /// Wait for so many milliseconds.
    Pause(u64),
    /// Print the line that tells of the collision.
    Print(Collision),
}

impl Collision {
    /// The line that tells the player of the collision.
    pub open spec fn spec_message(self) -> Seq<char> {
        match self {
            Collision::Body => "Game Over!"@,
            Collision::Wall => "Hit the wall Game Over!"@,
        }
    }

    /// The line that tells the player of the collision.
    pub fn message(self) -> (line: &'static str)
        ensures
            line@ == self.spec_message(),
    {
        match self {
            Collision::Body => "Game Over!",
            Collision::Wall => "Hit the wall Game Over!",
        }
    }
}

impl Outcome {
    /// What is to be done after the tick, in this order: the sound of
    /// growing if the snake grew; then, after a collision, the sound of the
    /// hit, a pause and the line that tells of it.
    pub open spec fn spec_effects(self) -> Seq<Effect> {
        let growth = if self.grew {
            seq![Effect::PlayOnce(Sound::Grow)]
        } else {
            Seq::empty()
        };
        match self.collision {
            Some(collision) => growth + seq![
                Effect::PlayOnce(Sound::Hit),
                Effect::Pause(GAME_OVER_PAUSE),
                Effect::Print(collision),
            ],
            None => growth,
        }
    }

    /// What is to be done after the tick, in the order in which it is to be
    /// done.
    pub fn effects(&self) -> (effects: Vec<Effect>)
        ensures
            effects@ == self.spec_effects(),
    {
        let mut effects: Vec<Effect> = Vec::new();
        if self.grew {
            effects.push(Effect::PlayOnce(Sound::Grow));
        }
        if let Some(collision) = self.collision {
            effects.push(Effect::PlayOnce(Sound::Hit));
            effects.push(Effect::Pause(GAME_OVER_PAUSE));
            effects.push(Effect::Print(collision));
        }
        effects
    }

    /// Whether the game goes on.
    pub fn alive(&self) -> (alive: bool)
        ensures
            alive == (self.collision is None),
    {
        self.collision.is_none()
    }
}

/// Whether the cell next to `head` in direction `dir` has coordinates that
/// can be written down.
pub open spec fn can_step(head: Point, dir: Direction) -> bool {
    match dir {
        Direction::Right => head.x < usize::MAX,
        Direction::Down => head.y < usize::MAX,
        Direction::Left => head.x > 0,
        Direction::Up => head.y > 0,
    }
}

/// The cell next to `head` in direction `dir`.
pub open spec fn step(head: Point, dir: Direction) -> Point {
    match dir {
        Direction::Right => Point { x: (head.x + 1) as usize, y: head.y },
        Direction::Down => Point { x: head.x, y: (head.y + 1) as usize },
        Direction::Left => Point { x: (head.x - 1) as usize, y: head.y },
        Direction::Up => Point { x: head.x, y: (head.y - 1) as usize },
    }
}

/// The snake's cells after a tick in direction `dir` with the food at `food`:
/// the head moves on by one cell, and every other cell takes the place of the
/// one before it. The cell where the tail was is left, unless the head comes
/// upon the food: then the snake is one cell longer.
pub open spec fn moved_body(body: Seq<Point>, dir: Direction, food: Point) -> Seq<Point> {
    let head = step(body[0], dir);
    if head == food {
        seq![head] + body
    } else {
        seq![head] + body.drop_last()
    }
}

/// What the head of a snake with the cells `body` has run into on `level`.
/// Running into itself comes first.
pub open spec fn collision_of(level: Seq<Seq<i8>>, body: Seq<Point>) -> Option<Collision> {
    let head = body[0];
    if body.skip(1).contains(head) {
        Some(Collision::Body)
    } else if level[head.y as int][head.x as int] == Shape::Wall.spec_code() {
        Some(Collision::Wall)
    } else {
        None
    }
}

/// Whether a tick can be made: there is a snake and food; the cell in front
/// of the head can be written down; if the snake does not run into itself,
/// that cell is on the level; and if the snake eats, a cell is left for new
/// food.
pub open spec fn updatable(
    level: Seq<Seq<i8>>,
    body: Seq<Point>,
    dir: Direction,
    food: Option<Point>,
) -> bool {
    &&& body.len() > 0
    &&& food is Some
    &&& can_step(body[0], dir)
    &&& {
        let after = moved_body(body, dir, food->0);
        &&& !after.skip(1).contains(after[0]) ==> in_grid(
            level,
            after[0].x as int,
            after[0].y as int,
        )
        &&& after[0] == food->0 ==> exists|p: Point| is_free(level, after, p)
    }
}

/// A tick moves the snake by one cell: the head goes to a cell next to where
/// it was, every other cell to where the cell before it was, and the snake is
/// as long as before, or one cell longer if the head comes upon the food.
pub proof fn tick_moves_one_cell(body: Seq<Point>, dir: Direction, food: Point)
    requires
        body.len() > 0,
        can_step(body[0], dir),
    ensures
        ({
            let after = moved_body(body, dir, food);
            let dx = after[0].x - body[0].x;
            let dy = after[0].y - body[0].y;
            &&& (dx == 0 && (dy == 1 || dy == -1)) || (dy == 0 && (dx == 1 || dx == -1))
            &&& after.len() == body.len() + (if after[0] == food {
                1int
            } else {
                0int
            })
            &&& forall|i: int| 1 <= i < after.len() ==> after[i] == body[i - 1]
        }),
{
}

/// Moves `head` by one cell in direction `dir`.
fn advance(head: Point, dir: Direction) -> (next: Point)
    requires
        can_step(head, dir),
    ensures
        next == step(head, dir),
{
    let mut next = head;
    match dir {
        Direction::Right => next.add(1, 0),
        Direction::Down => next.add(0, 1),
        Direction::Left => next.sub(1, 0),
        Direction::Up => next.sub(0, 1),
    }
    next
}

/// With one more cell in front, the snake leaves free the cells that it left
/// free before, but for that cell.
proof fn lemma_free_after_growth(level: Seq<Seq<i8>>, body: Seq<Point>, head: Point, p: Point)
    ensures
        is_free(level, seq![head] + body, p) <==> is_free(level, body, p) && p != head,
{
    let grown = seq![head] + body;
    if grown.contains(p) {
        let k = choose|k: int| 0 <= k < grown.len() && grown[k] == p;
        if k > 0 {
        }
    }
    if body.contains(p) {
        let k = choose|k: int| 0 <= k < body.len() && body[k] == p;
        assert(grown[k + 1] == p);
    }
    assert(grown[0] == head);
}

/// Whether a tick can be made, so that `update` may be called.
pub fn can_update(level: &Vec<Vec<i8>>, snake: &Snake, food: &Option<Point>) -> (ok: bool)
    ensures
        ok == updatable(level.deep_view(), snake.body@, snake.dir, *food),
{
    let n = snake.body.len();
    if n == 0 {
        return false;
    }
    let target = match food {
        Some(p) => *p,
        None => {
            return false;
        },
    };
    let head = snake.body[0];
    let fits = match snake.dir {
        Direction::Right => head.x < usize::MAX,
        Direction::Down => head.y < usize::MAX,
        Direction::Left => head.x > 0,
        Direction::Up => head.y > 0,
    };
    if !fits {
        return false;
    }
    let next = advance(head, snake.dir);
    let grew = next == target;
    let ghost after = moved_body(snake.body@, snake.dir, target);
    proof {
        lemma_grid_rows(level);
        assert(after.skip(1) =~= if grew {
            snake.body@
        } else {
            snake.body@.drop_last()
        });
    }
    let hits_itself = if grew {
        snake.covers(next)
    } else {
        snake.covers_between(0, n - 1, next)
    };
    if !hits_itself && !(next.y < level.len() && next.x < level[next.y].len()) {
        return false;
    }
    if grew {
        let cells = free_cells(level, snake);
        let mut found = false;
        for i in 0..cells.len()
            invariant
                found <==> exists|k: int| 0 <= k < i && cells@[k] != next,
        {
            if cells[i] != next {
                found = true;
            }
        }
        proof {
            let grid = level.deep_view();
            if found {
                let k = choose|k: int| 0 <= k < cells@.len() && cells@[k] != next;
                lemma_free_cells(level, snake.body@, cells@[k]);
                lemma_free_after_growth(grid, snake.body@, next, cells@[k]);
            }
            if exists|p: Point| is_free(grid, after, p) {
                let p = choose|p: Point| is_free(grid, after, p);
                lemma_free_after_growth(grid, snake.body@, next, p);
                lemma_free_cells(level, snake.body@, p);
                let k = choose|k: int| 0 <= k < cells@.len() && cells@[k] == p;
            }
        }
        return found;
    }
    true
}

/// Makes one tick: moves the snake by one cell in its direction, lets it grow
/// and puts new food at a random free cell if it ate, and says what happened.
pub fn update(level: &Vec<Vec<i8>>, snake: &mut Snake, food: &mut Option<Point>) -> (outcome:
    Outcome)
    requires
        updatable(level.deep_view(), old(snake).body@, old(snake).dir, *old(food)),
    ensures
        final(snake).dir == old(snake).dir,
        final(snake).body@ == moved_body(old(snake).body@, old(snake).dir, old(food)->0),
        outcome.grew == (step(old(snake).body@[0], old(snake).dir) == old(food)->0),
        outcome.collision == collision_of(level.deep_view(), final(snake).body@),
        !outcome.grew ==> *final(food) == *old(food),
        outcome.grew ==> (*final(food) matches Some(p) && is_free(
            level.deep_view(),
            final(snake).body@,
            p,
        )),
{
    // the head moves on by one cell in the snake's direction
    let snake_head = advance(snake.body[0], snake.dir);
    // the new head comes first
    snake.body.insert(0, snake_head);
    assert(snake.body@ =~= seq![snake_head] + old(snake).body@);

    // where the food is the snake keeps its tail and grows, and new food is put
    let grew = snake_head == food.unwrap();
    if !grew {
        snake.body.pop();
        assert(snake.body@ =~= seq![snake_head] + old(snake).body@.drop_last());
    } else {
        generate_food(food, level, snake);
    }

    proof {
        lemma_grid_rows(level);
    }
    // the head on a cell of the snake itself ends the game
    if snake.covers_between(1, snake.body.len(), snake_head) {
        return Outcome { grew, collision: Some(Collision::Body) };
    }
    // so does the head on a wall
    if level[snake_head.y][snake_head.x] == Shape::Wall.code() {
        return Outcome { grew, collision: Some(Collision::Wall) };
    }
    Outcome { grew, collision: None }
}

} // verus!
