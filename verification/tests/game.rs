use snake::control::Control;
use snake::frame::update_logic;
use snake::state::{Board, Point, State};

fn board(
    width: u8,
    height: u8,
    direction: Control,
    snake: Vec<Point>,
    fruit: Option<Point>,
    frames_since_fruit: u16,
) -> Board {
    Board {
        width,
        height,
        state: State::Running,
        move_direction: direction,
        snake,
        fruit,
        frames_since_fruit,
    }
}

fn p(x: u8, y: u8) -> Point {
    Point::from(x, y)
}

#[test]
fn new_board_centers_a_snake_of_four_facing_right() {
    let b = Board::new(78, 24);
    assert_eq!(*b.state(), State::Running);
    assert_eq!(b.move_direction, Control::RIGHT);
    assert_eq!(*b.snake(), vec![p(36, 12), p(37, 12), p(38, 12), p(39, 12)]);
    assert_eq!(*b.fruit(), None);
    assert_eq!(b.frames_since_fruit, 0);
    assert_eq!(b.width, 78);
    assert_eq!(b.height, 24);
}

#[test]
fn point_accessors_return_the_coordinates() {
    let q = Point::from(7, 200);
    assert_eq!(q.x(), 7);
    assert_eq!(q.y(), 200);
}

#[test]
fn straight_move_slides_the_snake_without_growing() {
    // Board 78x24, initial snake [(36,12)..(39,12)], direction Right, no
    // food: after one transition the snake is [(37,12)..(40,12)], Running.
    let mut b = Board::new(78, 24);
    update_logic(&mut b);
    assert_eq!(*b.state(), State::Running);
    assert_eq!(*b.snake(), vec![p(37, 12), p(38, 12), p(39, 12), p(40, 12)]);
    assert_eq!(*b.fruit(), None);
    assert_eq!(b.frames_since_fruit, 1);
}

#[test]
fn reversal_into_the_neck_is_not_blocked_pre_emptively() {
    // Head at (37,12) with neck at (38,12), direction turned to Left: the
    // projected next point (36,12) is not on the current body, so the move
    // succeeds this frame.
    let mut b = board(
        78,
        24,
        Control::RIGHT,
        vec![p(40, 12), p(39, 12), p(38, 12), p(37, 12)],
        None,
        0,
    );
    b.change_control(Control::LEFT);
    update_logic(&mut b);
    assert_eq!(*b.state(), State::Running);
    assert_eq!(*b.snake(), vec![p(39, 12), p(38, 12), p(37, 12), p(36, 12)]);
}

#[test]
fn head_on_the_left_wall_ends_the_game_regardless_of_input() {
    let mut b = board(
        78,
        24,
        Control::LEFT,
        vec![p(3, 12), p(2, 12), p(1, 12), p(0, 12)],
        None,
        0,
    );
    b.change_control(Control::UP);
    update_logic(&mut b);
    assert_eq!(*b.state(), State::GameOver);
    // the snake did not move on the death frame
    assert_eq!(*b.snake(), vec![p(3, 12), p(2, 12), p(1, 12), p(0, 12)]);
    // ... and stays frozen on every later frame, whatever the input
    b.change_control(Control::DOWN);
    update_logic(&mut b);
    assert_eq!(*b.state(), State::GameOver);
    assert_eq!(*b.snake(), vec![p(3, 12), p(2, 12), p(1, 12), p(0, 12)]);
}

#[test]
fn segment_on_the_top_boundary_ends_the_game() {
    // y == 0 counts as a wall even though the coordinate itself is on the grid
    let mut b = board(78, 24, Control::UP, vec![p(10, 1), p(10, 0)], None, 0);
    update_logic(&mut b);
    assert_eq!(*b.state(), State::GameOver);
}

#[test]
fn segment_on_the_far_boundary_ends_the_game() {
    // x == width counts as a wall as well
    let mut b = board(78, 24, Control::RIGHT, vec![p(77, 12), p(78, 12)], None, 0);
    update_logic(&mut b);
    assert_eq!(*b.state(), State::GameOver);
}

#[test]
fn next_head_on_the_body_ends_the_game() {
    // head (10,11) turning up would land on (10,10), a current segment
    let mut b = board(
        78,
        24,
        Control::UP,
        vec![p(10, 10), p(11, 10), p(11, 11), p(10, 11)],
        None,
        0,
    );
    update_logic(&mut b);
    assert_eq!(*b.state(), State::GameOver);
    assert_eq!(
        *b.snake(),
        vec![p(10, 10), p(11, 10), p(11, 11), p(10, 11)]
    );
}

#[test]
fn collecting_food_grows_the_snake_and_clears_the_food() {
    let mut b = board(
        78,
        24,
        Control::RIGHT,
        vec![p(9, 10), p(10, 10), p(11, 10), p(12, 10)],
        Some(p(12, 10)),
        0,
    );
    update_logic(&mut b);
    assert_eq!(*b.state(), State::Running);
    assert_eq!(
        *b.snake(),
        vec![p(9, 10), p(10, 10), p(11, 10), p(12, 10), p(13, 10)]
    );
    assert_eq!(*b.fruit(), None);
    assert_eq!(b.frames_since_fruit, 1);
}

#[test]
fn present_food_is_never_relocated() {
    let mut b = board(
        78,
        24,
        Control::RIGHT,
        vec![p(9, 10), p(10, 10), p(11, 10), p(12, 10)],
        Some(p(20, 20)),
        0,
    );
    update_logic(&mut b);
    assert_eq!(*b.fruit(), Some(p(20, 20)));
    assert_eq!(b.frames_since_fruit, 0);
    update_logic(&mut b);
    assert_eq!(*b.fruit(), Some(p(20, 20)));
}

#[test]
fn food_spawns_after_five_frames_inside_the_inset_region() {
    // frames_since_fruit has reached 5 with no food present: a food point is
    // placed within [4, width-4) x [4, height-4) and the counter resets to 0.
    let mut b = board(
        78,
        24,
        Control::RIGHT,
        vec![p(9, 10), p(10, 10), p(11, 10), p(12, 10)],
        None,
        5,
    );
    update_logic(&mut b);
    let f = b.fruit().expect("food must spawn once the counter reaches 5");
    assert!(4 <= f.x() && f.x() < 78 - 4);
    assert!(4 <= f.y() && f.y() < 24 - 4);
    assert_eq!(b.frames_since_fruit, 0);
}

#[test]
fn the_spawn_counter_climbs_one_frame_at_a_time() {
    let mut b = Board::new(78, 24);
    for expected in 1..=5u16 {
        b.spawn_fruit();
        assert_eq!(b.frames_since_fruit, expected);
        assert_eq!(*b.fruit(), None);
    }
    b.spawn_fruit();
    assert!(b.fruit().is_some());
    assert_eq!(b.frames_since_fruit, 0);
}

#[test]
fn spawn_fruit_leaves_present_food_alone() {
    let mut b = board(78, 24, Control::RIGHT, vec![p(10, 10)], Some(p(30, 15)), 3);
    b.spawn_fruit();
    assert_eq!(*b.fruit(), Some(p(30, 15)));
    assert_eq!(b.frames_since_fruit, 3);
}

#[test]
fn spawned_food_varies_within_the_inset_region() {
    // the spawn point is sampled, not fixed: over many spawns on a wide board
    // more than one cell must come up
    let mut seen = Vec::new();
    for _ in 0..64 {
        let mut b = board(78, 24, Control::RIGHT, vec![p(10, 10)], None, 5);
        b.spawn_fruit();
        let f = b.fruit().expect("food must spawn");
        assert!(4 <= f.x() && f.x() < 74);
        assert!(4 <= f.y() && f.y() < 20);
        if !seen.contains(&f) {
            seen.push(f);
        }
    }
    assert!(seen.len() > 1);
}

#[test]
fn move_snake_is_a_no_op_once_the_game_is_over() {
    let mut b = board(78, 24, Control::RIGHT, vec![p(10, 10), p(11, 10)], None, 0);
    b.state = State::GameOver;
    b.move_snake();
    assert_eq!(*b.snake(), vec![p(10, 10), p(11, 10)]);
}

#[test]
fn chop_tail_consumes_the_growth_frame() {
    let mut b = board(78, 24, Control::RIGHT, vec![p(10, 10), p(11, 10)], None, 0);
    b.state = State::FruitCollected;
    b.chop_tail();
    assert_eq!(*b.state(), State::Running);
    assert_eq!(*b.snake(), vec![p(10, 10), p(11, 10)]);
}

#[test]
fn chop_tail_removes_the_oldest_segment_while_running() {
    let mut b = board(78, 24, Control::RIGHT, vec![p(10, 10), p(11, 10)], None, 0);
    b.chop_tail();
    assert_eq!(*b.snake(), vec![p(11, 10)]);
    assert_eq!(*b.state(), State::Running);
}

#[test]
fn change_control_overwrites_the_pending_direction() {
    let mut b = Board::new(78, 24);
    b.change_control(Control::UP);
    assert_eq!(b.move_direction, Control::UP);
    b.change_control(Control::DOWN);
    assert_eq!(b.move_direction, Control::DOWN);
}

#[test]
fn food_is_only_collected_under_the_head() {
    // food on a non-head segment does nothing
    let mut b = board(
        78,
        24,
        Control::RIGHT,
        vec![p(9, 10), p(10, 10), p(11, 10), p(12, 10)],
        Some(p(10, 10)),
        0,
    );
    b.check_collision_food();
    assert_eq!(*b.state(), State::Running);
    assert_eq!(*b.fruit(), Some(p(10, 10)));
}
