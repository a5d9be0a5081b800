//! Where food can go, and putting new food on the board.

use vstd::prelude::*;
use vstd::arithmetic::div_mod::lemma_fundamental_div_mod_converse;
use rand::Rng;
use rand::rngs::ThreadRng;
use crate::level::{in_grid, lemma_grid_rows, Shape};
use crate::point::Point;
use crate::snake::Snake;

verus! {

/// The generator of random numbers that rand keeps for each thread. Nothing
/// is said of what it holds.
#[verifier::external_type_specification]
#[verifier::external_body]
pub struct ExThreadRng(ThreadRng);

/// `rand::thread_rng` hands out the calling thread's generator. Nothing is
/// claimed of it.
pub assume_specification[ rand::thread_rng ]() -> (rng: ThreadRng)
;

/// `Rng::gen_range` of rand, called on the range `0..n`. rand refuses an
/// empty range, so `n` must be positive; the number it draws then lies in the
/// range. Which number comes is left open.
#[verifier::external_body]
fn gen_below(rng: &mut ThreadRng, n: usize) -> (k: usize)
    requires
        n > 0,
    ensures
        k < n,
{
    rng.gen_range(0..n)
}

/// Whether food may be put at `p`: `p` is a cell of the level, in a column
/// that the first row has, the cell is empty and the snake does not cover it.
pub open spec fn is_free(level: Seq<Seq<i8>>, body: Seq<Point>, p: Point) -> bool {
    &&& in_grid(level, p.x as int, p.y as int)
    &&& p.x < level[0].len()
    &&& level[p.y as int][p.x as int] == Shape::Empty.spec_code()
    &&& !body.contains(p)
}

/// The cells of a board of the given size in reading order: row by row from
/// the top, each row from the left.
pub open spec fn reading_order(width: nat, height: nat) -> Seq<Point> {
    Seq::new(
        height * width,
        |k: int| Point { x: (k % width as int) as usize, y: (k / width as int) as usize },
    )
}

/// The cells where food may be put, in reading order.
pub open spec fn free_cells_of(level: Seq<Seq<i8>>, body: Seq<Point>) -> Seq<Point> {
    reading_order(level[0].len(), level.len()).filter(|p: Point| is_free(level, body, p))
}

/// Cell `x` of row `y` stands at place `y * width + x` of the reading order.
proof fn lemma_reading_order_at(width: nat, height: nat, x: int, y: int)
    requires
        0 <= x < width <= usize::MAX,
        0 <= y < height <= usize::MAX,
    ensures
        0 <= y * width + x < height * width,
        reading_order(width, height)[y * width + x] == (Point { x: x as usize, y: y as usize }),
{
    assert(0 <= y * width + x < height * width) by (nonlinear_arith)
        requires
            0 <= x < width,
            0 <= y < height,
    ;
    lemma_fundamental_div_mod_converse(y * width + x, width as int, y, x);
}

/// The list of free cells holds a cell if and only if food may be put there.
pub proof fn lemma_free_cells(level: &Vec<Vec<i8>>, body: Seq<Point>, p: Point)
    ensures
        free_cells_of(level.deep_view(), body).contains(p) <==> is_free(level.deep_view(), body, p),
{
    broadcast use vstd::seq_lib::group_filter_ensures;

    lemma_grid_rows(level);
    let grid = level.deep_view();
    let all = reading_order(grid[0].len(), grid.len());
    let pred = |p: Point| is_free(grid, body, p);
    if is_free(grid, body, p) {
        assert(level@.len() == level.len() && level@[0]@.len() == level@[0].len());
        lemma_reading_order_at(grid[0].len(), grid.len(), p.x as int, p.y as int);
        let k = p.y * grid[0].len() + p.x;
    }
    if all.filter(pred).contains(p) {
        let i = choose|i: int| 0 <= i < all.filter(pred).len() && all.filter(pred)[i] == p;
    }
}

/// Lists the cells where food may be put, in reading order.
pub fn free_cells(level: &Vec<Vec<i8>>, snake: &Snake) -> (cells: Vec<Point>)
    ensures
        cells@ == free_cells_of(level.deep_view(), snake.body@),
{
    let mut cells: Vec<Point> = Vec::new();
    let ghost grid = level.deep_view();
    let ghost pred = |p: Point| is_free(grid, snake.body@, p);
    let height = level.len();
    proof {
        lemma_grid_rows(level);
    }
    if height == 0 {
        return cells;
    }
    let width = level[0].len();
    let ghost all = reading_order(width as nat, height as nat);
    assert(all.take(0).filter(pred) =~= Seq::empty()) by {
        reveal(Seq::filter);
    }
    let mut y: usize = 0;
    while y < height
        invariant
            0 < height == level@.len() == grid.len(),
            y <= height,
            width == level@[0]@.len() == grid[0].len(),
            grid == level.deep_view(),
            forall|y: int| 0 <= y < level@.len() ==> #[trigger] grid[y] == level@[y]@,
            all == reading_order(width as nat, height as nat),
            pred == |p: Point| is_free(grid, snake.body@, p),
            0 <= y * width <= height * width,
            cells@ == all.take(y * width).filter(pred),
        decreases height - y,
    {
        let mut x: usize = 0;
        while x < width
            invariant
                0 <= y < height == level@.len() == grid.len(),
                x <= width,
                width == level@[0]@.len() == grid[0].len(),
                grid == level.deep_view(),
                forall|y: int| 0 <= y < level@.len() ==> #[trigger] grid[y] == level@[y]@,
                all == reading_order(width as nat, height as nat),
                pred == |p: Point| is_free(grid, snake.body@, p),
                0 <= y * width + x <= height * width,
                cells@ == all.take(y * width + x).filter(pred),
            decreases width - x,
        {
            let p = Point::new(x, y);
            proof {
                lemma_reading_order_at(width as nat, height as nat, x as int, y as int);
                let k = y * width + x;
                assert(all.take(k + 1).drop_last() =~= all.take(k));
                reveal(Seq::filter);
            }
            if x < level[y].len() && level[y][x] == Shape::Empty.code() && !snake.covers(p) {
                cells.push(p);
            }
            x += 1;
        }
        assert((y + 1) * width == y * width + width) by (nonlinear_arith);
        y += 1;
    }
    assert(all.take(height * width) =~= all);
    cells
}

/// Whether there is a cell where food may be put, so that `generate_food`
/// may be called.
pub fn has_free_cell(level: &Vec<Vec<i8>>, snake: &Snake) -> (found: bool)
    ensures
        found == exists|p: Point| is_free(level.deep_view(), snake.body@, p),
{
    let cells = free_cells(level, snake);
    proof {
        if cells@.len() > 0 {
            lemma_free_cells(level, snake.body@, cells@[0]);
        }
        if exists|p: Point| is_free(level.deep_view(), snake.body@, p) {
            let p = choose|p: Point| is_free(level.deep_view(), snake.body@, p);
            lemma_free_cells(level, snake.body@, p);
        }
    }
    cells.len() > 0
}

/// Puts the food at the cell that stands at place `k` of `cells`.
pub fn place_food(food: &mut Option<Point>, cells: &Vec<Point>, k: usize)
    requires
        k < cells@.len(),
    ensures
        *final(food) == Some(cells@[k as int]),
{
    let Point { x, y } = cells[k];
    if let Some(f) = food {
        f.set(x, y);
    } else {
        *food = Some(Point::new(x, y));
    }
}

/// Puts the food at a cell drawn at random from those where food may be put.
pub fn generate_food(food: &mut Option<Point>, level: &Vec<Vec<i8>>, snake: &Snake)
    requires
        exists|p: Point| is_free(level.deep_view(), snake.body@, p),
    ensures
        *final(food) matches Some(p) && is_free(level.deep_view(), snake.body@, p),
{
    let cells = free_cells(level, snake);
    proof {
        let p = choose|p: Point| is_free(level.deep_view(), snake.body@, p);
        lemma_free_cells(level, snake.body@, p);
    }
    let mut rng = rand::thread_rng();
    let k = gen_below(&mut rng, cells.len());
    place_food(food, &cells, k);
    proof {
        lemma_free_cells(level, snake.body@, cells@[k as int]);
    }
}

} // verus!
