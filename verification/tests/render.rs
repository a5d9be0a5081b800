use snake_game::{back_buffer, can_render, draw, load_level, render, Direction, Point, Snake};

fn nothing() -> Snake {
    Snake::new(Vec::new(), Direction::Down)
}

#[test]
fn render_draws_the_start_of_a_game() {
    let (level, snake) = load_level();
    let food = Some(Point::new(4, 4));
    let expected = [
        " $ $ $ $ $ $ $ $ $ $\n",
        " $ _ _ _ _ _ _ _ _ $\n",
        " $ _ _ _ _ _ _ _ _ $\n",
        " $ _ # _ _ _ _ _ _ $\n",
        " $ _ # _ % _ _ _ _ $\n",
        " $ _ @ _ _ _ _ _ _ $\n",
        " $ _ _ _ _ _ _ _ _ $\n",
        " $ _ _ _ _ _ _ _ _ $\n",
        " $ _ _ _ _ _ _ _ _ $\n",
        " $ _ _ _ _ _ _ _ _ $\n",
        " $ _ _ _ _ _ _ _ _ $\n",
        " $ _ _ _ _ _ _ _ _ $\n",
        " $ _ _ _ _ _ _ _ _ $\n",
        " $ _ _ _ _ _ _ _ _ $\n",
        " $ $ $ $ $ $ $ $ $ $\n",
    ]
    .concat();
    assert_eq!(render(&level, &snake, &food), expected);
}

#[test]
fn render_draws_a_level_alone() {
    let level: Vec<Vec<i8>> = vec![vec![-1, 0], vec![0, -1]];
    assert_eq!(render(&level, &nothing(), &None), " $ _\n _ $\n");
}

#[test]
fn render_draws_every_code_of_the_level() {
    let level: Vec<Vec<i8>> = vec![vec![0, -1, 1, 2, 3]];
    assert_eq!(render(&level, &nothing(), &None), " _ $ # @ %\n");
}

#[test]
fn render_of_no_rows_is_empty() {
    let level: Vec<Vec<i8>> = Vec::new();
    assert_eq!(render(&level, &nothing(), &None), "");
}

#[test]
fn render_of_rows_without_cells_is_line_feeds() {
    let level: Vec<Vec<i8>> = vec![Vec::new(), Vec::new(), Vec::new()];
    assert_eq!(render(&level, &nothing(), &None), "\n\n\n");
}

#[test]
fn render_keeps_rows_of_different_lengths() {
    let level: Vec<Vec<i8>> = vec![vec![0], vec![0, 0, 0], vec![], vec![-1, -1]];
    let snake = Snake::new(vec![Point::new(2, 1)], Direction::Up);
    assert_eq!(render(&level, &snake, &Some(Point::new(0, 0))), " %\n _ _ @\n\n $ $\n");
}

#[test]
fn food_is_drawn_over_the_snake() {
    let level: Vec<Vec<i8>> = vec![vec![0, 0, 0]];
    let snake = Snake::new(vec![Point::new(0, 0), Point::new(1, 0)], Direction::Left);
    assert_eq!(render(&level, &snake, &Some(Point::new(0, 0))), " % # _\n");
    assert_eq!(render(&level, &snake, &Some(Point::new(1, 0))), " @ % _\n");
    assert_eq!(render(&level, &snake, &Some(Point::new(2, 0))), " @ # %\n");
}

#[test]
fn snake_is_drawn_over_walls() {
    let level: Vec<Vec<i8>> = vec![vec![-1, -1, -1]];
    let snake = Snake::new(vec![Point::new(1, 0), Point::new(2, 0)], Direction::Left);
    assert_eq!(render(&level, &snake, &None), " $ @ #\n");
}

#[test]
fn a_cell_where_the_head_is_shows_the_head() {
    // after a collision the head lies on a cell of the body
    let level: Vec<Vec<i8>> = vec![vec![0, 0], vec![0, 0]];
    let body = vec![
        Point::new(0, 0),
        Point::new(1, 0),
        Point::new(1, 1),
        Point::new(0, 1),
        Point::new(0, 0),
    ];
    let snake = Snake::new(body, Direction::Up);
    assert_eq!(render(&level, &snake, &None), " @ #\n # #\n");
}

#[test]
fn a_code_that_is_no_shape_may_lie_under_snake_or_food() {
    let level: Vec<Vec<i8>> = vec![vec![9, 0, -7]];
    let snake = Snake::new(vec![Point::new(0, 0)], Direction::Up);
    assert_eq!(render(&level, &snake, &Some(Point::new(2, 0))), " @ _ %\n");
}

#[test]
fn back_buffer_lays_snake_and_food_over_the_level() {
    let (level, snake) = load_level();
    let buffer = back_buffer(&level, &snake, &Some(Point::new(4, 4)));
    assert_eq!(buffer.len(), 15);
    for y in 0..15 {
        for x in 0..10 {
            let expected: i8 = match (x, y) {
                (4, 4) => 3,
                (2, 5) => 2,
                (2, 4) | (2, 3) => 1,
                _ => level[y][x],
            };
            assert_eq!(buffer[y][x], expected, "cell {} {}", x, y);
        }
    }
}

#[test]
fn back_buffer_of_a_level_alone_is_the_level() {
    let (level, _) = load_level();
    assert_eq!(back_buffer(&level, &nothing(), &None), level);
}

#[test]
fn draw_writes_a_space_before_each_cell_and_a_line_feed_after_each_row() {
    let buffer: Vec<Vec<i8>> = vec![vec![2, 1, 1], vec![0, 3, -1]];
    assert_eq!(draw(&buffer), " @ # #\n _ % $\n");
}

#[test]
fn render_is_as_long_as_the_cells_ask() {
    let (level, snake) = load_level();
    let text = render(&level, &snake, &None);
    assert_eq!(text.chars().count(), 15 * (2 * 10 + 1));
    assert_eq!(text.lines().count(), 15);
}

#[test]
fn the_start_of_a_game_can_be_drawn() {
    let (level, snake) = load_level();
    assert!(can_render(&level, &snake, &None));
    assert!(can_render(&level, &snake, &Some(Point::new(4, 4))));
    assert!(can_render(&level, &snake, &Some(Point::new(9, 14))));
}

#[test]
fn nothing_off_the_level_can_be_drawn() {
    let (level, snake) = load_level();
    assert!(!can_render(&level, &snake, &Some(Point::new(10, 4))));
    assert!(!can_render(&level, &snake, &Some(Point::new(4, 15))));
    let long = Snake::new(vec![Point::new(2, 2), Point::new(2, 15)], Direction::Up);
    assert!(!can_render(&level, &long, &None));
    let wide = Snake::new(vec![Point::new(10, 2), Point::new(9, 2)], Direction::Right);
    assert!(!can_render(&level, &wide, &None));
    let ragged: Vec<Vec<i8>> = vec![vec![0, 0, 0], vec![0]];
    assert!(can_render(&ragged, &nothing(), &Some(Point::new(2, 0))));
    assert!(!can_render(&ragged, &nothing(), &Some(Point::new(2, 1))));
}

#[test]
fn a_code_that_is_no_shape_cannot_be_drawn() {
    let level: Vec<Vec<i8>> = vec![vec![0, 4, 0]];
    assert!(!can_render(&level, &nothing(), &None));
    assert!(!can_render(&level, &nothing(), &Some(Point::new(0, 0))));
    // covered by the food or by the snake, it is not drawn
    assert!(can_render(&level, &nothing(), &Some(Point::new(1, 0))));
    let snake = Snake::new(vec![Point::new(1, 0)], Direction::Up);
    assert!(can_render(&level, &snake, &None));
    let low: Vec<Vec<i8>> = vec![vec![-2]];
    assert!(!can_render(&low, &nothing(), &None));
}
