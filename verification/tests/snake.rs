use snake_game::{Direction, Point, Snake};

const ALL: [Direction; 4] = [Direction::Right, Direction::Down, Direction::Left, Direction::Up];

fn opposite(dir: Direction) -> Direction {
    match dir {
        Direction::Right => Direction::Left,
        Direction::Down => Direction::Up,
        Direction::Left => Direction::Right,
        Direction::Up => Direction::Down,
    }
}

#[test]
fn new_snake_holds_body_and_direction() {
    let snake = Snake::new(vec![Point::new(4, 4), Point::new(3, 4)], Direction::Right);
    assert_eq!(snake.body, vec![Point::new(4, 4), Point::new(3, 4)]);
    assert_eq!(snake.dir, Direction::Right);
}

#[test]
fn default_snake_is_three_cells_heading_down() {
    let snake = Snake::default();
    assert_eq!(snake.body, vec![Point::new(2, 5), Point::new(2, 4), Point::new(2, 3)]);
    assert_eq!(snake.dir, Direction::Down);
    assert_eq!(snake.body[0], Point::default());
}

#[test]
fn move_to_takes_every_turn_but_the_reverse() {
    for current in ALL {
        for wanted in ALL {
            let mut snake = Snake::new(vec![Point::new(5, 5)], current);
            snake.move_to(wanted);
            let expected = if wanted == opposite(current) { current } else { wanted };
            assert_eq!(snake.dir, expected);
            assert_eq!(snake.body, vec![Point::new(5, 5)]);
        }
    }
}

#[test]
fn move_to_refuses_to_reverse() {
    let mut snake = Snake::default();
    snake.move_to(Direction::Up);
    assert_eq!(snake.dir, Direction::Down);
    snake.move_to(Direction::Left);
    assert_eq!(snake.dir, Direction::Left);
    snake.move_to(Direction::Right);
    assert_eq!(snake.dir, Direction::Left);
    snake.move_to(Direction::Up);
    assert_eq!(snake.dir, Direction::Up);
    snake.move_to(Direction::Down);
    assert_eq!(snake.dir, Direction::Up);
    snake.move_to(Direction::Right);
    assert_eq!(snake.dir, Direction::Right);
    snake.move_to(Direction::Left);
    assert_eq!(snake.dir, Direction::Right);
}

#[test]
fn move_to_the_same_direction_changes_nothing() {
    for dir in ALL {
        let mut snake = Snake::new(vec![Point::new(1, 1), Point::new(1, 2)], dir);
        snake.move_to(dir);
        assert_eq!(snake.dir, dir);
        assert_eq!(snake.body, vec![Point::new(1, 1), Point::new(1, 2)]);
    }
}

#[test]
fn covers_finds_each_cell_of_the_snake() {
    let snake = Snake::default();
    assert!(snake.covers(Point::new(2, 5)));
    assert!(snake.covers(Point::new(2, 4)));
    assert!(snake.covers(Point::new(2, 3)));
    assert!(!snake.covers(Point::new(2, 6)));
    assert!(!snake.covers(Point::new(5, 2)));
    assert!(!snake.covers(Point::new(3, 4)));
}

#[test]
fn covers_nothing_without_a_body() {
    let snake = Snake::new(Vec::new(), Direction::Up);
    assert!(!snake.covers(Point::new(0, 0)));
    assert!(!snake.covers_between(0, 0, Point::new(0, 0)));
}

#[test]
fn covers_between_looks_at_the_given_cells_only() {
    let snake = Snake::default();
    let head = Point::new(2, 5);
    let tail = Point::new(2, 3);
    assert!(snake.covers_between(0, 3, head));
    assert!(snake.covers_between(0, 1, head));
    assert!(!snake.covers_between(1, 3, head));
    assert!(snake.covers_between(1, 3, tail));
    assert!(snake.covers_between(2, 3, tail));
    assert!(!snake.covers_between(0, 2, tail));
    assert!(!snake.covers_between(1, 1, Point::new(2, 4)));
    assert!(!snake.covers_between(3, 3, tail));
}
