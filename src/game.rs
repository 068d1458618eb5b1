use crate::grid::{key_direction, Direction, GridPosition, Key, GRID_HEIGHT, GRID_WIDTH};
use crate::snake::{lemma_short_snake_leaves_room, Ate, Food, Snake};
use oorandom::Rand32;
use vstd::prelude::*;

verus! {

/// Segment count of a snake that covers the whole field.
pub const TARGET_LENGTH: u32 = 600;

/// Width of the window, in pixels.
pub const SCREEN_WIDTH: i32 = 960;

/// Height of the window, in pixels.
pub const SCREEN_HEIGHT: i32 = 640;

/// The screen the game is on.
#[derive(Clone, Copy, Debug, PartialEq, Eq, Structural)]
pub enum Mode {
    Title,
    Playing,
    Won,
    Lost,
}

/// One of the two buttons of a menu screen: the first (start, retry) or
/// the second (quit).
#[derive(Clone, Copy, Debug, PartialEq, Eq, Structural)]
pub enum Choice {
    Confirm,
    Cancel,
}

/// What the caller is to do after a tick.
#[derive(Clone, Copy, Debug, PartialEq, Eq, Structural)]
pub enum Tick {
    Continue,
    Exit,
}

/// A menu screen: a title, two labelled buttons given as pixel rectangles
/// `(x, y, width, height)`, and whether each was clicked since the last tick.
pub struct OptionScreen {
    pub title: String,
    pub button1: (i32, i32, i32, i32),
    pub button2: (i32, i32, i32, i32),
    pub button1_text: String,
    pub button2_text: String,
    pub button1_clicked: bool,
    pub button2_clicked: bool,
}

impl OptionScreen {
    /// A screen with the given labels, its buttons side by side below the
    /// middle of the window, nothing clicked.
    pub fn new(title: &str, button1_text: &str, button2_text: &str) -> (r: Self)
        ensures
            r.title@ == title@,
            r.button1_text@ == button1_text@,
            r.button2_text@ == button2_text@,
            r.button1 == (380i32, 370i32, 120i32, 64i32),
            r.button2 == (580i32, 370i32, 120i32, 64i32),
            !r.button1_clicked,
            !r.button2_clicked,
    {
        let w = SCREEN_WIDTH / 8;
        let h = SCREEN_HEIGHT / 10;
        let top = SCREEN_HEIGHT / 2 + 50;
        OptionScreen {
            title: title.to_owned(),
            button1: (SCREEN_WIDTH / 2 - 100, top, w, h),
            button2: (SCREEN_WIDTH / 2 + 100, top, w, h),
            button1_text: button1_text.to_owned(),
            button2_text: button2_text.to_owned(),
            button1_clicked: false,
            button2_clicked: false,
        }
    }

    /// `s` is this screen with button `c` clicked.
    pub open spec fn clicked(&self, s: &OptionScreen, c: Choice) -> bool {
        &&& s.title == self.title
        &&& s.button1 == self.button1
        &&& s.button2 == self.button2
        &&& s.button1_text == self.button1_text
        &&& s.button2_text == self.button2_text
        &&& s.button1_clicked == (self.button1_clicked || c == Choice::Confirm)
        &&& s.button2_clicked == (self.button2_clicked || c == Choice::Cancel)
    }

    /// `s` is this screen with its clicks cleared.
    pub open spec fn cleared(&self, s: &OptionScreen) -> bool {
        &&& s.title == self.title
        &&& s.button1 == self.button1
        &&& s.button2 == self.button2
        &&& s.button1_text == self.button1_text
        &&& s.button2_text == self.button2_text
        &&& !s.button1_clicked
        &&& !s.button2_clicked
    }

    /// Records a click on button `c`.
    pub fn press(&mut self, c: Choice)
        ensures
            old(self).clicked(&*final(self), c),
    {
        match c {
            Choice::Confirm => self.button1_clicked = true,
            Choice::Cancel => self.button2_clicked = true,
        }
    }

    /// Forgets the clicks once a tick has read them.
    pub fn update(&mut self)
        ensures
            old(self).cleared(&*final(self)),
    {
        self.button1_clicked = false;
        self.button2_clicked = false;
    }
}

/// The whole game: the snake, the food, the random source, the mode, and
/// the three menu screens.
pub struct GameState {
    pub snake: Snake,
    pub food: Food,
    pub rng: Rand32,
    pub mode: Mode,
    pub title_screen: OptionScreen,
    pub loss_screen: OptionScreen,
    pub win_screen: OptionScreen,
}

impl GameState {
    /// Well-formed: a well-formed snake whose count matches its cells until
    /// it has run into itself, and, while a round is ahead or under way, a
    /// snake short of the whole field and food on a free cell.
    pub open spec fn wf(&self) -> bool {
        &&& self.snake.wf()
        &&& self.mode != Mode::Lost ==> self.snake.num_segments == self.snake.body@.len() + 1
        &&& (self.mode == Mode::Title || self.mode == Mode::Playing) ==> {
            &&& self.snake.num_segments < TARGET_LENGTH
            &&& self.food.pos.in_grid()
            &&& !self.snake.covers(self.food.pos)
        }
    }

    /// `s` is a fresh round: a two-cell snake with no turn pending and food
    /// on a free cell.
    pub open spec fn fresh_round(s: &GameState) -> bool {
        &&& s.snake.num_segments == 2
        &&& s.snake.body@.len() == 1
        &&& s.snake.dir == s.snake.last_update_dir
        &&& s.snake.next_dir is None
        &&& s.snake.ate is None
        &&& s.food.pos.in_grid()
        &&& !s.snake.covers(s.food.pos)
    }

    /// `s` is this state with a click on button `c` of the screen shown;
    /// during play nothing changes.
    pub open spec fn chose(&self, s: &GameState, c: Choice) -> bool {
        &&& s.snake == self.snake
        &&& s.food == self.food
        &&& s.rng == self.rng
        &&& s.mode == self.mode
        &&& if self.mode == Mode::Title {
            self.title_screen.clicked(&s.title_screen, c)
        } else {
            s.title_screen == self.title_screen
        }
        &&& if self.mode == Mode::Lost {
            self.loss_screen.clicked(&s.loss_screen, c)
        } else {
            s.loss_screen == self.loss_screen
        }
        &&& if self.mode == Mode::Won {
            self.win_screen.clicked(&s.win_screen, c)
        } else {
            s.win_screen == self.win_screen
        }
    }

    /// The game at its title screen, with a random snake and food on a free
    /// cell, all drawn from a generator seeded with `seed`.
    pub fn new(seed: u64) -> (r: Self)
        ensures
            r.wf(),
            r.mode == Mode::Title,
            GameState::fresh_round(&r),
            !r.title_screen.button1_clicked && !r.title_screen.button2_clicked,
            !r.loss_screen.button1_clicked && !r.loss_screen.button2_clicked,
            !r.win_screen.button1_clicked && !r.win_screen.button2_clicked,
            r.title_screen.title@ == "Snake!"@,
            r.title_screen.button1_text@ == "Start"@,
            r.title_screen.button2_text@ == "Quit"@,
            r.loss_screen.title@ == "Game Over"@,
            r.loss_screen.button1_text@ == "Try Again?"@,
            r.loss_screen.button2_text@ == "Quit"@,
            r.win_screen.title@ == "You Won!"@,
            r.win_screen.button1_text@ == "Restart"@,
            r.win_screen.button2_text@ == "Quit"@,
            r.title_screen.button1 == (380i32, 370i32, 120i32, 64i32),
            r.title_screen.button2 == (580i32, 370i32, 120i32, 64i32),
            r.loss_screen.button1 == (380i32, 370i32, 120i32, 64i32),
            r.loss_screen.button2 == (580i32, 370i32, 120i32, 64i32),
            r.win_screen.button1 == (380i32, 370i32, 120i32, 64i32),
            r.win_screen.button2 == (580i32, 370i32, 120i32, 64i32),
    {
        let mut rng = Rand32::new(seed);
        let snake_pos = GridPosition::random(&mut rng, GRID_WIDTH, GRID_HEIGHT);
        let random_direction = Direction::random_direction(&mut rng);
        let snake = Snake::new(snake_pos, random_direction);
        proof {
            lemma_short_snake_leaves_room(&snake);
        }
        let food_pos = snake.get_food_space(&mut rng).unwrap();
        GameState {
            snake,
            food: Food::new(food_pos),
            rng,
            mode: Mode::Title,
            title_screen: OptionScreen::new("Snake!", "Start", "Quit"),
            loss_screen: OptionScreen::new("Game Over", "Try Again?", "Quit"),
            win_screen: OptionScreen::new("You Won!", "Restart", "Quit"),
        }
    }

    /// Starts a new round: a new random snake, food on a free cell, and
    /// the mode set to playing.
    pub fn reset(&mut self)
        ensures
            final(self).wf(),
            final(self).mode == Mode::Playing,
            GameState::fresh_round(&*final(self)),
            final(self).title_screen == old(self).title_screen,
            final(self).loss_screen == old(self).loss_screen,
            final(self).win_screen == old(self).win_screen,
    {
        let snake_pos = GridPosition::random(&mut self.rng, GRID_WIDTH, GRID_HEIGHT);
        let random_direction = Direction::random_direction(&mut self.rng);
        self.snake = Snake::new(snake_pos, random_direction);
        proof {
            lemma_short_snake_leaves_room(&self.snake);
        }
        let food_pos = self.snake.get_food_space(&mut self.rng).unwrap();
        self.food = Food::new(food_pos);
        self.mode = Mode::Playing;
    }

    /// Records a click on button `c` of the screen shown; ignored during
    /// play.
    pub fn click(&mut self, c: Choice)
        ensures
            old(self).chose(&*final(self), c),
            old(self).wf() ==> final(self).wf(),
    {
        match self.mode {
            Mode::Title => self.title_screen.press(c),
            Mode::Lost => self.loss_screen.press(c),
            Mode::Won => self.win_screen.press(c),
            Mode::Playing => {},
        }
    }

    /// Handles a key press. During play an arrow key steers the snake; on a
    /// menu screen Return clicks the first button and Escape the second.
    /// Every other key is ignored.
    pub fn key_down(&mut self, key: Key)
        ensures
            old(self).wf() ==> final(self).wf(),
            old(self).mode == Mode::Playing ==> {
                &&& final(self).mode == old(self).mode
                &&& final(self).food == old(self).food
                &&& final(self).rng == old(self).rng
                &&& final(self).title_screen == old(self).title_screen
                &&& final(self).loss_screen == old(self).loss_screen
                &&& final(self).win_screen == old(self).win_screen
                &&& match key_direction(key) {
                    Some(d) => old(self).snake.turned(&final(self).snake, d),
                    None => final(self).snake == old(self).snake,
                }
            },
            old(self).mode != Mode::Playing ==> {
                if key == Key::Return {
                    old(self).chose(&*final(self), Choice::Confirm)
                } else if key == Key::Escape {
                    old(self).chose(&*final(self), Choice::Cancel)
                } else {
                    *final(self) == *old(self)
                }
            },
    {
        match self.mode {
            Mode::Playing => {
                if let Some(d) = Direction::from_keycode(key) {
                    self.snake.steer(d);
                    assert(self.snake.cells() =~= old(self).snake.cells());
                }
            },
            _ => match key {
                Key::Return => self.click(Choice::Confirm),
                Key::Escape => self.click(Choice::Cancel),
                _ => {},
            },
        }
    }

    /// One tick of the game. On a menu screen the first button starts play
    /// (from the title) or a new round (after a win or a loss), the second
    /// asks the caller to exit, and the clicks are then cleared. During
    /// play the snake moves; running into itself loses, and eating food
    /// either wins, when the snake now covers the whole field, or moves the
    /// food to a free cell.
    pub fn update(&mut self) -> (r: Tick)
        requires
            old(self).wf(),
        ensures
            final(self).wf(),
            old(self).mode == Mode::Title ==> {
                let s = old(self).title_screen;
                &&& final(self).mode == (if s.button1_clicked {
                    Mode::Playing
                } else {
                    Mode::Title
                })
                &&& r == (if !s.button1_clicked && s.button2_clicked {
                    Tick::Exit
                } else {
                    Tick::Continue
                })
                &&& final(self).snake == old(self).snake
                &&& final(self).food == old(self).food
                &&& final(self).rng == old(self).rng
                &&& s.cleared(&final(self).title_screen)
                &&& final(self).loss_screen == old(self).loss_screen
                &&& final(self).win_screen == old(self).win_screen
            },
            old(self).mode == Mode::Lost ==> {
                let s = old(self).loss_screen;
                &&& (if s.button1_clicked {
                    final(self).mode == Mode::Playing && GameState::fresh_round(&*final(self))
                } else {
                    &&& final(self).mode == Mode::Lost
                    &&& final(self).snake == old(self).snake
                    &&& final(self).food == old(self).food
                    &&& final(self).rng == old(self).rng
                })
                &&& r == (if !s.button1_clicked && s.button2_clicked {
                    Tick::Exit
                } else {
                    Tick::Continue
                })
                &&& s.cleared(&final(self).loss_screen)
                &&& final(self).title_screen == old(self).title_screen
                &&& final(self).win_screen == old(self).win_screen
            },
            old(self).mode == Mode::Won ==> {
                let s = old(self).win_screen;
                &&& (if s.button1_clicked {
                    final(self).mode == Mode::Playing && GameState::fresh_round(&*final(self))
                } else {
                    &&& final(self).mode == Mode::Won
                    &&& final(self).snake == old(self).snake
                    &&& final(self).food == old(self).food
                    &&& final(self).rng == old(self).rng
                })
                &&& r == (if !s.button1_clicked && s.button2_clicked {
                    Tick::Exit
                } else {
                    Tick::Continue
                })
                &&& s.cleared(&final(self).win_screen)
                &&& final(self).title_screen == old(self).title_screen
                &&& final(self).loss_screen == old(self).loss_screen
            },
            old(self).mode == Mode::Playing ==> {
                &&& old(self).snake.stepped(&final(self).snake, old(self).food.pos)
                &&& final(self).mode == match final(self).snake.ate {
                    Some(Ate::Itself) => Mode::Lost,
                    Some(Ate::Food) => if final(self).snake.num_segments == TARGET_LENGTH {
                        Mode::Won
                    } else {
                        Mode::Playing
                    },
                    None => Mode::Playing,
                }
                &&& final(self).snake.ate != Some(Ate::Food) ==> {
                    &&& final(self).food == old(self).food
                    &&& final(self).rng == old(self).rng
                }
                &&& final(self).mode == Mode::Won ==> final(self).food == old(self).food
                &&& final(self).snake.num_segments == TARGET_LENGTH ==> final(self).rng == old(self).rng
                &&& final(self).snake.ate == Some(Ate::Food) ==> {
                    &&& final(self).snake.num_segments == old(self).snake.num_segments + 1
                    &&& final(self).mode == Mode::Playing ==> final(self).food.pos.in_grid()
                        && !final(self).snake.covers(final(self).food.pos)
                }
                &&& r == Tick::Continue
                &&& final(self).title_screen == old(self).title_screen
                &&& final(self).loss_screen == old(self).loss_screen
                &&& final(self).win_screen == old(self).win_screen
            },
    {
        match self.mode {
            Mode::Title => {
                let mut r = Tick::Continue;
                if self.title_screen.button1_clicked {
                    self.mode = Mode::Playing;
                } else if self.title_screen.button2_clicked {
                    r = Tick::Exit;
                }
                self.title_screen.update();
                r
            },
            Mode::Lost => {
                let mut r = Tick::Continue;
                if self.loss_screen.button1_clicked {
                    self.reset();
                } else if self.loss_screen.button2_clicked {
                    r = Tick::Exit;
                }
                self.loss_screen.update();
                r
            },
            Mode::Won => {
                let mut r = Tick::Continue;
                if self.win_screen.button1_clicked {
                    self.reset();
                } else if self.win_screen.button2_clicked {
                    r = Tick::Exit;
                }
                self.win_screen.update();
                r
            },
            Mode::Playing => {
                self.snake.update(&self.food);
                match self.snake.ate {
                    Some(Ate::Food) => {
                        if self.snake.num_segments == TARGET_LENGTH {
                            self.mode = Mode::Won;
                        } else {
                            proof {
                                lemma_short_snake_leaves_room(&self.snake);
                            }
                            let p = self.snake.get_food_space(&mut self.rng).unwrap();
                            self.food = Food::new(p);
                        }
                    },
                    Some(Ate::Itself) => self.mode = Mode::Lost,
                    None => {
                        proof {
                            assert forall|i: int| 0 <= i < self.snake.cells().len() implies
                                #[trigger] self.snake.cells()[i].pos != self.food.pos by {
                                if i > 0 {
                                    assert(self.snake.cells()[i] == old(self).snake.cells()[i
                                        - 1]);
                                }
                            }
                        }
                    },
                }
                Tick::Continue
            },
        }
    }
}

} // verus!
