use snake::{
    Ate, Choice, Direction, Food, GameState, GridPosition, Key, Mode, OptionScreen, Segment,
    Snake, Tick, TARGET_LENGTH,
};
use std::collections::VecDeque;

fn pos(x: i16, y: i16) -> GridPosition {
    GridPosition::new(x, y)
}

fn no_overlap(g: &GameState) -> bool {
    !g.snake.occupies(g.food.pos)
}

/// Every cell of the field, column by column, each column walked in turn
/// down and up, so that consecutive cells are neighbours.
fn serpentine() -> Vec<GridPosition> {
    let mut cells = Vec::new();
    for x in 0..30 {
        for i in 0..20 {
            let y = if x % 2 == 0 { i } else { 19 - i };
            cells.push(pos(x, y));
        }
    }
    cells
}

#[test]
fn option_screen_lays_out_two_buttons() {
    let s = OptionScreen::new("Snake!", "Start", "Quit");
    assert_eq!(s.title, "Snake!");
    assert_eq!(s.button1_text, "Start");
    assert_eq!(s.button2_text, "Quit");
    assert_eq!(s.button1, (380, 370, 120, 64));
    assert_eq!(s.button2, (580, 370, 120, 64));
    assert!(!s.button1_clicked && !s.button2_clicked);
}

#[test]
fn option_screen_update_clears_clicks() {
    let mut s = OptionScreen::new("Game Over", "Try Again?", "Quit");
    s.press(Choice::Confirm);
    s.press(Choice::Cancel);
    assert!(s.button1_clicked && s.button2_clicked);
    s.update();
    assert!(!s.button1_clicked && !s.button2_clicked);
}

#[test]
fn new_game_starts_on_the_title_with_food_off_the_snake() {
    for seed in 0..50 {
        let g = GameState::new(seed);
        assert_eq!(g.mode, Mode::Title);
        assert_eq!(g.snake.num_segments, 2);
        assert!(no_overlap(&g));
    }
}

#[test]
fn confirm_on_the_title_starts_play() {
    let mut g = GameState::new(11);
    let head = g.snake.head.pos;
    let food = g.food.pos;
    g.key_down(Key::Return);
    assert!(g.title_screen.button1_clicked);
    assert_eq!(g.update(), Tick::Continue);
    assert_eq!(g.mode, Mode::Playing);
    assert_eq!(g.snake.head.pos, head);
    assert_eq!(g.food.pos, food);
    assert!(no_overlap(&g));
    assert!(!g.title_screen.button1_clicked);
}

#[test]
fn escape_on_the_title_asks_to_exit() {
    let mut g = GameState::new(12);
    g.key_down(Key::Escape);
    assert_eq!(g.update(), Tick::Exit);
    assert_eq!(g.mode, Mode::Title);
    assert!(!g.title_screen.button2_clicked);
}

#[test]
fn title_tick_without_clicks_stays() {
    let mut g = GameState::new(13);
    g.key_down(Key::Other);
    assert_eq!(g.update(), Tick::Continue);
    assert_eq!(g.mode, Mode::Title);
}

#[test]
fn confirm_wins_over_cancel() {
    let mut g = GameState::new(14);
    g.click(Choice::Cancel);
    g.click(Choice::Confirm);
    assert_eq!(g.update(), Tick::Continue);
    assert_eq!(g.mode, Mode::Playing);
}

#[test]
fn clicks_are_ignored_during_play() {
    let mut g = GameState::new(15);
    g.mode = Mode::Playing;
    g.click(Choice::Confirm);
    g.key_down(Key::Escape);
    assert!(!g.title_screen.button1_clicked);
    assert!(!g.loss_screen.button2_clicked);
    assert!(!g.win_screen.button1_clicked);
}

#[test]
fn arrow_keys_steer_only_during_play() {
    let mut g = GameState::new(16);
    let dir = g.snake.dir;
    let turn = match dir {
        Direction::Up | Direction::Down => Key::Left,
        Direction::Left | Direction::Right => Key::Up,
    };
    g.key_down(turn);
    assert_eq!(g.snake.dir, dir);
    g.mode = Mode::Playing;
    g.key_down(turn);
    assert_eq!(g.snake.dir, Direction::from_keycode(turn).unwrap());
}

#[test]
fn playing_tick_moves_the_snake() {
    let mut g = GameState::new(17);
    g.mode = Mode::Playing;
    g.snake = Snake::new(pos(10, 10), Direction::Left);
    g.food = Food::new(pos(0, 0));
    assert_eq!(g.update(), Tick::Continue);
    assert_eq!(g.mode, Mode::Playing);
    assert_eq!(g.snake.head.pos, pos(11, 10));
    assert_eq!(g.food.pos, pos(0, 0));
}

#[test]
fn eating_food_grows_and_moves_the_food_to_a_free_cell() {
    let mut g = GameState::new(18);
    g.mode = Mode::Playing;
    g.snake = Snake::new(pos(10, 10), Direction::Left);
    g.food = Food::new(pos(11, 10));
    g.update();
    assert_eq!(g.snake.ate, Some(Ate::Food));
    assert_eq!(g.snake.num_segments, 3);
    assert_eq!(g.mode, Mode::Playing);
    assert!(no_overlap(&g));
    assert!(0 <= g.food.pos.x && g.food.pos.x < 30 && 0 <= g.food.pos.y && g.food.pos.y < 20);
}

#[test]
fn running_into_itself_loses() {
    let mut g = GameState::new(19);
    g.mode = Mode::Playing;
    let mut body = VecDeque::new();
    for p in [pos(5, 4), pos(6, 4), pos(6, 5), pos(6, 6), pos(5, 6)] {
        body.push_back(Segment::new(p));
    }
    g.snake = Snake {
        head: Segment::new(pos(5, 5)),
        dir: Direction::Down,
        body,
        ate: None,
        last_update_dir: Direction::Down,
        next_dir: None,
        num_segments: 6,
    };
    g.food = Food::new(pos(20, 15));
    assert_eq!(g.update(), Tick::Continue);
    assert_eq!(g.mode, Mode::Lost);
}

#[test]
fn filling_the_field_wins() {
    let cells = serpentine();
    let mut body = VecDeque::new();
    for i in (0..598).rev() {
        body.push_back(Segment::new(cells[i]));
    }
    let mut g = GameState::new(20);
    g.mode = Mode::Playing;
    g.snake = Snake {
        head: Segment::new(cells[598]),
        dir: Direction::Up,
        body,
        ate: None,
        last_update_dir: Direction::Up,
        next_dir: None,
        num_segments: 599,
    };
    g.food = Food::new(cells[599]);
    assert_eq!(g.update(), Tick::Continue);
    assert_eq!(g.snake.ate, Some(Ate::Food));
    assert_eq!(g.snake.num_segments, TARGET_LENGTH);
    assert_eq!(g.mode, Mode::Won);
    assert_eq!(g.food.pos, cells[599]);
}

#[test]
fn confirm_after_a_loss_starts_a_fresh_round() {
    let mut g = GameState::new(21);
    g.mode = Mode::Lost;
    g.snake.num_segments = 40;
    g.key_down(Key::Return);
    assert_eq!(g.update(), Tick::Continue);
    assert_eq!(g.mode, Mode::Playing);
    assert_eq!(g.snake.num_segments, 2);
    assert_eq!(g.snake.body.len(), 1);
    assert_eq!(g.snake.next_dir, None);
    assert!(no_overlap(&g));
    assert!(!g.loss_screen.button1_clicked);
}

#[test]
fn cancel_after_a_win_asks_to_exit() {
    let mut g = GameState::new(22);
    g.mode = Mode::Won;
    g.key_down(Key::Escape);
    assert_eq!(g.update(), Tick::Exit);
    assert_eq!(g.mode, Mode::Won);
    assert!(!g.win_screen.button2_clicked);
}

#[test]
fn confirm_after_a_win_starts_a_fresh_round() {
    let mut g = GameState::new(23);
    g.mode = Mode::Won;
    g.click(Choice::Confirm);
    assert!(g.win_screen.button1_clicked);
    assert_eq!(g.update(), Tick::Continue);
    assert_eq!(g.mode, Mode::Playing);
    assert_eq!(g.snake.num_segments, 2);
    assert!(no_overlap(&g));
}

#[test]
fn reset_places_snake_and_food_apart() {
    let mut g = GameState::new(24);
    for _ in 0..50 {
        g.reset();
        assert_eq!(g.mode, Mode::Playing);
        assert!(no_overlap(&g));
        assert_eq!(g.snake.dir, g.snake.last_update_dir);
    }
}

#[test]
fn key_presses_and_clicks_leave_the_generator_alone() {
    let mut g = GameState::new(30);
    let before = g.rng;
    g.key_down(Key::Return);
    g.key_down(Key::Escape);
    g.key_down(Key::Other);
    assert_eq!(g.rng, before);
    g.mode = Mode::Playing;
    g.key_down(Key::Up);
    g.key_down(Key::Left);
    g.key_down(Key::Other);
    g.click(Choice::Confirm);
    assert_eq!(g.rng, before);
}

#[test]
fn plain_tick_keeps_food_count_and_generator() {
    let mut g = GameState::new(31);
    g.mode = Mode::Playing;
    g.snake = Snake::new(pos(10, 10), Direction::Left);
    g.food = Food::new(pos(0, 0));
    let before = g.rng;
    g.update();
    assert_eq!(g.food.pos, pos(0, 0));
    assert_eq!(g.snake.num_segments, 2);
    assert_eq!(g.rng, before);
}
