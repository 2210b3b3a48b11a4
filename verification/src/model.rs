//! The game as a mathematical value, and its rules as relations between
//! such values.
//!
//! Every rule is stated here once, over sequences and unbounded integers.
//! The executable game in `game` is proved to follow these rules, and `laws`
//! proves what follows from them. Where chance decides, namely where new
//! food lands, a rule is a relation between the state before and the state
//! after instead of a function.

use vstd::prelude::*;
use crate::direction::Direction;
use crate::game_state::GameState;
use crate::grid::all_in_grid;
use crate::input::FrameInput;
use crate::input_buffer::dequeued;
use crate::input_buffer::enqueued;
use crate::input_buffer::front;
use crate::input_buffer::no_adjacent_repeat;
use crate::position::Position;
use crate::timing::nudged;
use crate::timing::progress_at;
use crate::timing::sped_up;
use crate::timing::BASE_MOVE_INTERVAL;
use crate::timing::MIN_MOVE_INTERVAL;
use crate::timing::PROGRESS_SCALE;

verus! {


/// Columns of the grid of a new game.
pub const GRID_WIDTH: i32 = 25;

/// Rows of the grid of a new game.
pub const GRID_HEIGHT: i32 = 20;

/// The most columns or rows a grid may have.
pub const MAX_GRID_SIDE: i32 = 10_000;

/// How many direction changes can wait for their move.
pub const INPUT_BUFFER_CAPACITY: usize = 3;

/// Points for one piece of food.
pub const SCORE_PER_FOOD: i32 = 10;

/// The state of a game.
pub struct GameModel {
    /// The snake's cells from tail to head.
    pub snake: Seq<Position>,
    /// The cell that holds the food.
    pub food: Position,
    /// The snake's heading.
    pub direction: Direction,
    /// The mode of the state machine.
    pub state: GameState,
    /// Points of the current round.
    pub score: int,
    /// The best score of the rounds that have been followed by a new one.
    pub high_score: int,
    /// Microseconds between two moves.
    pub move_interval: int,
    /// Time of the last move, in microseconds.
    pub last_move_time: int,
    /// Animation phase, in thousandths of a move.
    pub animation_progress: int,
    /// Direction changes waiting for their move, oldest first.
    pub pending: Seq<Direction>,
    /// Columns of the grid.
    pub width: int,
    /// Rows of the grid.
    pub height: int,
}

impl GameModel {
    /// The cell in the middle of the grid.
    pub open spec fn center(self) -> Position {
        Position { x: (self.width / 2) as i32, y: (self.height / 2) as i32 }
    }

    /// The snake's head.
    pub open spec fn head(self) -> Position {
        self.snake.last()
    }

    /// Whether `p` is a cell of the grid that the snake does not cover.
    pub open spec fn is_free(self, p: Position) -> bool {
        p.in_grid(self.width, self.height) && !self.snake.contains(p)
    }

    /// Whether the snake covers every cell of the grid.
    pub open spec fn grid_full(self) -> bool {
        forall|p: Position| #[trigger] p.in_grid(self.width, self.height) ==> self.snake.contains(p)
    }

    /// Everything that holds of a game at all times, but for where the food
    /// lies: the grid has a sound size, the snake is a non-empty run of
    /// pairwise different cells of the grid, the score is ten points for
    /// each cell the snake has gained, and the timing values and the waiting
    /// direction changes are within their bounds.
    pub open spec fn well_shaped(self) -> bool {
        &&& 0 < self.width <= MAX_GRID_SIDE
        &&& 0 < self.height <= MAX_GRID_SIDE
        &&& self.snake.len() >= 1
        &&& self.snake.no_duplicates()
        &&& all_in_grid(self.snake, self.width, self.height)
        &&& self.food.in_grid(self.width, self.height)
        &&& self.score == SCORE_PER_FOOD * (self.snake.len() - 1)
        &&& 0 <= self.high_score <= i32::MAX
        &&& MIN_MOVE_INTERVAL <= self.move_interval <= BASE_MOVE_INTERVAL
        &&& -BASE_MOVE_INTERVAL <= self.last_move_time <= u64::MAX
        &&& 0 <= self.animation_progress <= PROGRESS_SCALE
        &&& self.pending.len() <= INPUT_BUFFER_CAPACITY
        &&& no_adjacent_repeat(self.pending)
    }

    /// What holds of a game at all times: it is well shaped, and the food
    /// lies on a cell that the snake does not cover, unless the snake covers
    /// the whole grid.
    pub open spec fn inv(self) -> bool {
        &&& self.well_shaped()
        &&& self.snake.contains(self.food) ==> self.grid_full()
    }

    /// A game as it is made: one segment in the middle of a 25 by 20 grid,
    /// heading right, in the menu, with food on `food`.
    pub open spec fn initial(food: Position) -> GameModel {
        GameModel {
            snake: seq![Position { x: 12, y: 10 }],
            food,
            direction: Direction::Right,
            state: GameState::Menu,
            score: 0,
            high_score: 0,
            move_interval: BASE_MOVE_INTERVAL as int,
            last_move_time: 0,
            animation_progress: 0,
            pending: Seq::empty(),
            width: GRID_WIDTH as int,
            height: GRID_HEIGHT as int,
        }
    }

    /// The game after new food was looked for. If the snake leaves a cell
    /// free, the food lies on a free cell and nothing else has changed. If
    /// the snake covers the grid, the game is over and the food stays.
    pub open spec fn food_respawned(self, post: GameModel) -> bool {
        if self.grid_full() {
            post == (GameModel { state: GameState::GameOver, ..self })
        } else {
            &&& post == (GameModel { food: post.food, ..self })
            &&& self.is_free(post.food)
        }
    }

    /// The new round before its food is placed: the high score takes the
    /// score in if that is higher, the snake is one segment in the middle
    /// heading right, the score is zero, the interval is the base interval,
    /// and no direction change is waiting. The time of the last move stays.
    pub open spec fn round_start(self) -> GameModel {
        GameModel {
            snake: seq![self.center()],
            direction: Direction::Right,
            state: GameState::Playing,
            score: 0,
            high_score: if self.score > self.high_score {
                self.score
            } else {
                self.high_score
            },
            move_interval: BASE_MOVE_INTERVAL as int,
            animation_progress: 0,
            pending: Seq::empty(),
            ..self
        }
    }

    /// `post` is the game after a new round was started from `self`.
    pub open spec fn restarted(self, post: GameModel) -> bool {
        self.round_start().food_respawned(post)
    }

    /// The game after the player asked for direction `d` at time `now`
    /// while playing. A reversal is ignored. Any other direction becomes the
    /// heading at once if no change is waiting, and the next move is brought
    /// forward; if a change is waiting, the direction joins the queue.
    pub open spec fn steered(self, d: Direction, now: int) -> GameModel {
        if d == self.direction.opposite() {
            self
        } else if self.pending.len() == 0 {
            GameModel {
                direction: d,
                animation_progress: 0,
                last_move_time: nudged(now, self.move_interval),
                ..self
            }
        } else {
            GameModel {
                pending: enqueued(self.pending, INPUT_BUFFER_CAPACITY as nat, d),
                ..self
            }
        }
    }

    /// The game after this frame's direction keys, which count only while
    /// playing.
    pub open spec fn after_direction_keys(self, input: FrameInput, now: int) -> GameModel {
        if self.state == GameState::Playing {
            match input.requested() {
                Some(d) => self.steered(d, now),
                None => self,
            }
        } else {
            self
        }
    }

    /// `post` is the game after the keys of one frame at time `now`. The
    /// direction keys are taken first. Then, by the mode the frame began in:
    /// confirm starts a round from the menu and after a game over; cancel
    /// pauses a round, resumes a paused one, and leaves a finished round for
    /// the menu when confirm was not pressed too.
    pub open spec fn handled(self, input: FrameInput, now: int, post: GameModel) -> bool {
        let turned = self.after_direction_keys(input, now);
        match self.state {
            GameState::Menu => if input.confirm {
                turned.restarted(post)
            } else {
                post == turned
            },
            GameState::Playing => post == if input.cancel {
                GameModel { state: GameState::Paused, ..turned }
            } else {
                turned
            },
            GameState::Paused => post == if input.cancel {
                GameModel { state: GameState::Playing, ..turned }
            } else {
                turned
            },
            GameState::GameOver => if input.confirm {
                turned.restarted(post)
            } else {
                post == if input.cancel {
                    GameModel { state: GameState::Menu, ..turned }
                } else {
                    turned
                }
            },
        }
    }

    /// The heading for the next move: the oldest waiting change if there is
    /// one and it is no reversal, else the present heading.
    pub open spec fn next_direction(self) -> Direction {
        match front(self.pending) {
            Some(d) => self.direction.turned(d),
            None => self.direction,
        }
    }

    /// The cell the head moves to next.
    pub open spec fn next_head(self) -> Position {
        self.head().stepped(self.next_direction())
    }

    /// Whether the next move runs into a wall or into the snake as it lies
    /// before the move.
    pub open spec fn next_move_collides(self) -> bool {
        !self.next_head().in_grid(self.width, self.height) || self.snake.contains(
            self.next_head(),
        )
    }

    /// Whether the next move takes the food.
    pub open spec fn next_move_grows(self) -> bool {
        !self.next_move_collides() && self.next_head() == self.food
    }

    /// The game at the start of a move at time `now`: the move is timed, the
    /// oldest waiting change is used up, and the animation starts over.
    pub open spec fn move_begun(self, now: int) -> GameModel {
        GameModel {
            last_move_time: now,
            direction: self.next_direction(),
            pending: dequeued(self.pending),
            animation_progress: 0,
            ..self
        }
    }

    /// `post` is the game after one move at time `now`. A move into a wall
    /// or into the snake ends the game and leaves the snake where it is. A
    /// move onto the food lets the snake grow by the new head, adds ten
    /// points, shortens the interval and has new food looked for. Any other
    /// move adds the new head and drops the tail.
    pub open spec fn ticked(self, now: int, post: GameModel) -> bool {
        let begun = self.move_begun(now);
        if self.next_move_collides() {
            post == (GameModel { state: GameState::GameOver, ..begun })
        } else if self.next_move_grows() {
            (GameModel {
                snake: self.snake.push(self.next_head()),
                score: self.score + SCORE_PER_FOOD,
                move_interval: sped_up(self.move_interval),
                ..begun
            }).food_respawned(post)
        } else {
            post == (GameModel { snake: self.snake.push(self.next_head()).drop_first(), ..begun })
        }
    }

    /// Whether the frame update at time `now` makes a move: the game is in
    /// play and a whole interval has passed since the last move.
    pub open spec fn moves_at(self, now: int) -> bool {
        self.state == GameState::Playing && now - self.last_move_time >= self.move_interval
    }

    /// `post` is the game after the frame update at time `now`. Outside of
    /// play nothing changes. In play the animation phase follows the time
    /// since the last move, and once a whole interval has passed the snake
    /// moves.
    pub open spec fn updated(self, now: int, post: GameModel) -> bool {
        if self.state != GameState::Playing {
            post == self
        } else if !self.moves_at(now) {
            post == (GameModel {
                animation_progress: progress_at(now - self.last_move_time, self.move_interval),
                ..self
            })
        } else {
            self.ticked(now, post)
        }
    }
}

/// The mode changes only along the arrows of the state machine. The menu
/// leads to play. Play leads to a pause and to the end of the game. A pause
/// leads back to play. The end of the game leads to the menu and to play. A
/// new round that finds the grid covered by its first segment is over at
/// once.
pub open spec fn mode_may_follow(pre: GameModel, post: GameModel) -> bool {
    match pre.state {
        GameState::Menu => {
            ||| post.state == GameState::Menu
            ||| post.state == GameState::Playing
            ||| post.state == GameState::GameOver && post.grid_full()
        },
        GameState::Playing => {
            ||| post.state == GameState::Playing
            ||| post.state == GameState::Paused
            ||| post.state == GameState::GameOver
        },
        GameState::Paused => {
            ||| post.state == GameState::Paused
            ||| post.state == GameState::Playing
        },
        GameState::GameOver => {
            ||| post.state == GameState::GameOver
            ||| post.state == GameState::Menu
            ||| post.state == GameState::Playing
        },
    }
}

/// One step in the life of a game: the keys of a frame are taken, the frame
/// is updated, or the food is put on a free cell.
pub open spec fn is_step(pre: GameModel, post: GameModel) -> bool {
    ||| exists|input: FrameInput, now: int|
        0 <= now <= u64::MAX && #[trigger] pre.handled(input, now, post)
    ||| exists|now: int| 0 <= now <= u64::MAX && #[trigger] pre.updated(now, post)
    ||| pre.is_free(post.food) && post == (GameModel { food: post.food, ..pre })
}

/// A run of a game: it begins as a new game with its food on a free cell,
/// and each state follows from the one before by one step.
pub open spec fn is_run(run: Seq<GameModel>) -> bool {
    &&& run.len() > 0
    &&& run[0] == GameModel::initial(run[0].food)
    &&& run[0].is_free(run[0].food)
    &&& forall|i: int, j: int|
        0 <= i && j == i + 1 && j < run.len() ==> is_step(#[trigger] run[i], #[trigger] run[j])
}

} // verus!
