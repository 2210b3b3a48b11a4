//! The game: snake, food, score, timing and the state machine, advanced by
//! the keys and the clock of each frame.

use vstd::prelude::*;
use crate::direction::Direction;
use crate::game_state::GameState;
use crate::grid::lemma_push_distinct;
use crate::input::FrameInput;
use crate::input_buffer::InputBuffer;
use crate::laws::lemma_food_respawned_inv;
use crate::laws::lemma_round_start_shaped;
use crate::laws::lemma_snake_fits_grid;
use crate::laws::lemma_steered_inv;
use crate::laws::lemma_updated_inv;
use crate::model::GameModel;
use crate::model::GRID_HEIGHT;
use crate::model::GRID_WIDTH;
use crate::model::INPUT_BUFFER_CAPACITY;
use crate::model::SCORE_PER_FOOD;
use crate::position::Position;
use crate::random::gen_range;
use crate::spatial_hash::SpatialHash;
use crate::timing::animation_progress;
use crate::timing::lemma_speed_up_bounds;
use crate::timing::nudge;
use crate::timing::speed_up;
use crate::timing::BASE_MOVE_INTERVAL;
use crate::timing::MIN_MOVE_INTERVAL;
use crate::vec2_pool::IVec2;
use crate::vec2_pool::Vec2Pool;

verus! {

/// How many random cells are tried for new food before the grid is searched
/// cell by cell.
pub const FOOD_SAMPLE_ATTEMPTS: u32 = 256;

/// The shadow position of a grid cell.
pub open spec fn shadow_of(p: Position) -> IVec2 {
    IVec2 { x: p.x, y: p.y }
}

/// The shadow positions of a run of cells, in order.
pub open spec fn shadows(s: Seq<Position>) -> Seq<IVec2> {
    s.map_values(|p: Position| shadow_of(p))
}

/// A game of snake on a bounded grid.
pub struct Game {
    snake: Vec<Position>,
    snake_positions: Vec2Pool,
    food: Position,
    direction: Direction,
    grid_width: i32,
    grid_height: i32,
    score: i32,
    state: GameState,
    last_move_time: i128,
    move_interval: u64,
    high_score: i32,
    animation_progress: u32,
    spatial_hash: SpatialHash,
    input_buffer: InputBuffer,
}

impl View for Game {
    type V = GameModel;

    /// The game as a mathematical value.
    closed spec fn view(&self) -> GameModel {
        GameModel {
            snake: self.snake@,
            food: self.food,
            direction: self.direction,
            state: self.state,
            score: self.score as int,
            high_score: self.high_score as int,
            move_interval: self.move_interval as int,
            last_move_time: self.last_move_time as int,
            animation_progress: self.animation_progress as int,
            pending: self.input_buffer@,
            width: self.grid_width as int,
            height: self.grid_height as int,
        }
    }
}

impl Game {
    /// The parts fit together: the state is well shaped, the buckets of the
    /// occupancy index are single cells, there is one shadow position for
    /// each segment, and the input buffer has its fixed limit.
    spec fn shaped(&self) -> bool {
        &&& self@.well_shaped()
        &&& self.spatial_hash.cell_size() == 1
        &&& self.snake_positions.wf()
        &&& self.snake_positions@ == shadows(self.snake@)
        &&& self.input_buffer.capacity() == INPUT_BUFFER_CAPACITY
    }

    /// The occupancy index holds exactly the snake's cells.
    spec fn indexed(&self) -> bool {
        &&& self.spatial_hash.wf()
        &&& self.spatial_hash@ == self.snake@.to_set()
    }

    /// The invariant of the game. `new` establishes it and every operation
    /// keeps it.
    pub closed spec fn wf(&self) -> bool {
        &&& self.shaped()
        &&& self.indexed()
        &&& self@.inv()
    }

    /// A well-formed game is sound as a mathematical value: among other
    /// things its snake is a run of pairwise different cells of the grid.
    pub proof fn lemma_wf_inv(&self)
        requires
            self.wf(),
        ensures
            self@.inv(),
    {
    }

    /// Rebuilds the occupancy index from the snake.
    fn update_spatial_hash(&mut self)
        requires
            old(self).spatial_hash.cell_size() == 1,
        ensures
            final(self).indexed(),
            final(self).spatial_hash.cell_size() == 1,
            *final(self) == (Game { spatial_hash: final(self).spatial_hash, ..*old(self) }),
    {
        self.spatial_hash.clear();
        let n: usize = self.snake.len();
        let mut i: usize = 0;
        while i < n
            invariant
                i <= n,
                n == self.snake@.len(),
                self.spatial_hash.cell_size() == 1,
                self.spatial_hash.wf(),
                self.spatial_hash@ == self.snake@.take(i as int).to_set(),
                *self == (Game { spatial_hash: self.spatial_hash, ..*old(self) }),
            decreases n - i,
        {
            let pos: Position = self.snake[i];
            self.spatial_hash.insert(pos);
            proof {
                self.snake@.lemma_take_succ_push(i as int);
                self.snake@.take(i as int).lemma_push_to_set_commute(pos);
            }
            i += 1;
        }
        assert(self.snake@.take(n as int) =~= self.snake@);
    }

    /// Rebuilds the shadow positions from the snake.
    fn rebuild_positions(&mut self)
        requires
            old(self).snake_positions.wf(),
            old(self).snake@.len() < usize::MAX,
        ensures
            final(self).snake_positions.wf(),
            final(self).snake_positions@ == shadows(final(self).snake@),
            *final(self) == (Game { snake_positions: final(self).snake_positions, ..*old(self) }),
    {
        self.snake_positions.reset();
        let n: usize = self.snake.len();
        let mut i: usize = 0;
        while i < n
            invariant
                i <= n,
                n == self.snake@.len(),
                n < usize::MAX,
                self.snake_positions.wf(),
                self.snake_positions@ == shadows(self.snake@.take(i as int)),
                *self == (Game { snake_positions: self.snake_positions, ..*old(self) }),
            decreases n - i,
        {
            let pos: Position = self.snake[i];
            let _ = self.snake_positions.get(pos.x, pos.y);
            proof {
                self.snake@.lemma_take_succ_push(i as int);
                assert(shadows(self.snake@.take(i as int).push(pos)) =~= shadows(
                    self.snake@.take(i as int),
                ).push(shadow_of(pos)));
            }
            i += 1;
        }
    }

    /// Puts the food on the cell `(x, y)` if that is a cell of the grid
    /// that the snake does not cover.
    fn try_place_food(&mut self, x: i32, y: i32) -> (placed: bool)
        requires
            old(self).shaped(),
            old(self).indexed(),
        ensures
            placed == old(self)@.is_free(Position { x, y }),
            placed ==> *final(self) == (Game { food: Position { x, y }, ..*old(self) }),
            !placed ==> *final(self) == *old(self),
    {
        let pos = Position { x, y };
        if x < 0 || x >= self.grid_width || y < 0 || y >= self.grid_height {
            return false;
        }
        if self.spatial_hash.contains(pos) {
            return false;
        }
        self.food = pos;
        true
    }

    /// Searches the grid row by row, each row from the left, for the first
    /// cell that the snake does not cover.
    fn first_free_cell(&self) -> (cell: Option<Position>)
        requires
            self.shaped(),
            self.indexed(),
        ensures
            match cell {
                Some(p) => {
                    &&& self@.is_free(p)
                    &&& forall|q: Position| #[trigger]
                        self@.is_free(q) ==> p.y < q.y || (p.y == q.y && p.x <= q.x)
                },
                None => self@.grid_full(),
            },
    {
        let ghost w = self.grid_width as int;
        let ghost h = self.grid_height as int;
        let mut y: i32 = 0;
        while y < self.grid_height
            invariant
                0 <= y <= self.grid_height,
                self.shaped(),
                self.indexed(),
                w == self.grid_width,
                h == self.grid_height,
                forall|p: Position| #[trigger] p.in_grid(w, h) && p.y < y ==> self.snake@.contains(p),
            decreases self.grid_height - y,
        {
            let mut x: i32 = 0;
            while x < self.grid_width
                invariant
                    0 <= x <= self.grid_width,
                    0 <= y < self.grid_height,
                    self.shaped(),
                    self.indexed(),
                    w == self.grid_width,
                    h == self.grid_height,
                    forall|p: Position| #[trigger]
                        p.in_grid(w, h) && p.y < y ==> self.snake@.contains(p),
                    forall|p: Position| #[trigger]
                        p.in_grid(w, h) && p.y == y && p.x < x ==> self.snake@.contains(p),
                decreases self.grid_width - x,
            {
                let pos = Position { x, y };
                if !self.spatial_hash.contains(pos) {
                    return Some(pos);
                }
                x += 1;
            }
            y += 1;
        }
        None
    }

    /// Looks for a cell for new food. Random cells are tried first; if none
    /// of them is free, the grid is searched row by row. If the snake covers
    /// the whole grid, the game is over.
    fn spawn_food(&mut self)
        requires
            old(self).shaped(),
        ensures
            final(self).shaped(),
            final(self).indexed(),
            old(self)@.food_respawned(final(self)@),
    {
        self.update_spatial_hash();
        let mut attempts: u32 = 0;
        while attempts < FOOD_SAMPLE_ATTEMPTS
            invariant
                self.shaped(),
                self.indexed(),
                self@ == old(self)@,
            decreases FOOD_SAMPLE_ATTEMPTS - attempts,
        {
            let x: i32 = gen_range(0, self.grid_width);
            let y: i32 = gen_range(0, self.grid_height);
            if self.try_place_food(x, y) {
                return;
            }
            attempts += 1;
        }
        match self.first_free_cell() {
            Some(cell) => {
                self.food = cell;
            },
            None => {
                self.state = GameState::GameOver;
            },
        }
    }

    /// A game in the menu: a snake of one segment in the middle of a 25 by
    /// 20 grid, heading right, no points, and food on a free cell.
    pub fn new() -> (game: Game)
        ensures
            game.wf(),
            game@.inv(),
            game@ == GameModel::initial(game@.food),
            game@.is_free(game@.food),
    {
        let grid_width: i32 = GRID_WIDTH;
        let grid_height: i32 = GRID_HEIGHT;
        let max_snake_length: usize = (grid_width * grid_height) as usize;

        let mut snake: Vec<Position> = Vec::with_capacity(max_snake_length);
        snake.push(Position { x: grid_width / 2, y: grid_height / 2 });

        let mut snake_positions = Vec2Pool::new(max_snake_length);
        let _ = snake_positions.get(grid_width / 2, grid_height / 2);

        let mut game = Game {
            snake,
            snake_positions,
            food: Position { x: 0, y: 0 },
            direction: Direction::Right,
            grid_width,
            grid_height,
            score: 0,
            state: GameState::Menu,
            last_move_time: 0,
            move_interval: BASE_MOVE_INTERVAL,
            high_score: 0,
            animation_progress: 0,
            spatial_hash: SpatialHash::new(1),
            input_buffer: InputBuffer::new(INPUT_BUFFER_CAPACITY),
        };
        proof {
            assert(game.snake_positions@ =~= shadows(game.snake@));
            assert((Position { x: 0, y: 0 }).in_grid(game@.width, game@.height));
        }
        let ghost before = game@;
        game.spawn_food();
        proof {
            lemma_food_respawned_inv(before, game@);
        }
        game
    }

    /// Starts a new round: the high score takes the score in if that is
    /// higher, the snake goes back to one segment in the middle heading
    /// right, score and interval start over, waiting direction changes are
    /// dropped, and new food is placed.
    fn reset(&mut self)
        requires
            old(self).shaped(),
        ensures
            final(self).wf(),
            old(self)@.restarted(final(self)@),
    {
        proof {
            lemma_snake_fits_grid(self@);
            lemma_round_start_shaped(self@);
        }
        if self.score > self.high_score {
            self.high_score = self.score;
        }
        self.snake.clear();
        self.snake.push(Position { x: self.grid_width / 2, y: self.grid_height / 2 });

        self.snake_positions.reset();
        let _ = self.snake_positions.get(self.grid_width / 2, self.grid_height / 2);

        self.direction = Direction::Right;
        self.score = 0;
        self.move_interval = BASE_MOVE_INTERVAL;
        self.animation_progress = 0;
        self.input_buffer.clear();
        self.state = GameState::Playing;
        proof {
            assert(self.snake_positions@ =~= shadows(self.snake@));
        }
        let ghost start = self@;
        self.spawn_food();
        proof {
            lemma_food_respawned_inv(start, self@);
        }
    }

    /// Puts the food on the cell `(x, y)` if that is a cell of the grid
    /// that the snake does not cover, and says whether it did. Nothing else
    /// changes.
    pub fn place_food(&mut self, x: i32, y: i32) -> (placed: bool)
        requires
            old(self).wf(),
        ensures
            final(self).wf(),
            final(self)@.inv(),
            placed == old(self)@.is_free(Position { x, y }),
            placed ==> final(self)@ == (GameModel { food: Position { x, y }, ..old(self)@ }),
            !placed ==> final(self)@ == old(self)@,
    {
        self.try_place_food(x, y)
    }

    /// Takes the keys of one frame, sampled at time `now` in microseconds.
    ///
    /// While playing, a direction key that is no reversal of the heading
    /// turns the snake at once if no change is waiting, and brings the next
    /// move forward; if a change is waiting, the direction is queued. Then
    /// the mode keys are judged: confirm starts a round from the menu and
    /// after a game over, cancel pauses and resumes, and leaves a finished
    /// round for the menu.
    pub fn handle_input(&mut self, input: FrameInput, now: u64)
        requires
            old(self).wf(),
        ensures
            final(self).wf(),
            final(self)@.inv(),
            old(self)@.handled(input, now as int, final(self)@),
            ({
                let before = old(self)@;
                let after = final(self)@;
                let reversal = input.requested() == Some(before.direction.opposite());
                &&& before.state == GameState::Playing ==> after.direction
                    != before.direction.opposite()
                &&& before.state == GameState::Playing && reversal ==> after.direction
                    == before.direction && after.pending == before.pending
            }),
    {
        if self.state == GameState::Playing {
            if let Some(dir) = input.direction() {
                if !self.direction.is_opposite(dir) {
                    if self.input_buffer.is_empty() {
                        self.direction = dir;
                        self.animation_progress = 0;
                        self.last_move_time = nudge(now, self.move_interval);
                    } else {
                        self.input_buffer.add_command(dir);
                    }
                }
            }
        }
        proof {
            if old(self)@.state == GameState::Playing && input.requested() is Some {
                lemma_steered_inv(old(self)@, input.requested().unwrap(), now as int);
            }
        }

        match self.state {
            GameState::Menu => {
                if input.confirm {
                    self.reset();
                }
            },
            GameState::Playing => {
                if input.cancel {
                    self.state = GameState::Paused;
                }
            },
            GameState::Paused => {
                if input.cancel {
                    self.state = GameState::Playing;
                }
            },
            GameState::GameOver => {
                if input.confirm {
                    self.reset();
                } else if input.cancel {
                    self.state = GameState::Menu;
                }
            },
        }
    }

    /// Advances the game to time `now`, in microseconds.
    ///
    /// Outside of play nothing happens. In play the animation phase follows
    /// the time since the last move. Once a whole interval has passed, the
    /// oldest waiting direction change is applied unless it is a reversal,
    /// and the head moves one cell. Running into a wall or into the snake
    /// ends the game. Reaching the food lets the snake grow, adds ten
    /// points, places new food and shortens the interval; if no cell is
    /// left for the food, the game is over. Any other move drops the tail.
    pub fn update(&mut self, now: u64)
        requires
            old(self).wf(),
        ensures
            final(self).wf(),
            final(self)@.inv(),
            old(self)@.updated(now as int, final(self)@),
            ({
                let before = old(self)@;
                let after = final(self)@;
                let grows = before.moves_at(now as int) && before.next_move_grows();
                &&& grows ==> after.snake.len() == before.snake.len() + 1
                &&& !grows ==> after.snake.len() == before.snake.len()
                &&& after.snake.no_duplicates()
                &&& after.snake.contains(after.food) ==> after.grid_full()
                &&& MIN_MOVE_INTERVAL <= after.move_interval <= before.move_interval
            }),
    {
        proof {
            lemma_speed_up_bounds(self@.move_interval);
        }
        if self.state != GameState::Playing {
            return;
        }
        let elapsed: i128 = now as i128 - self.last_move_time;
        self.animation_progress = animation_progress(elapsed, self.move_interval);

        if elapsed < self.move_interval as i128 {
            proof {
                lemma_updated_inv(old(self)@, now as int, self@);
            }
            return;
        }
        self.last_move_time = now as i128;

        if let Some(buffered_direction) = self.input_buffer.get_next_command() {
            self.direction = self.direction.turn(buffered_direction);
        }
        self.animation_progress = 0;

        let head: Position = self.snake[self.snake.len() - 1];
        let new_head: Position = head.step(self.direction);
        proof {
            lemma_snake_fits_grid(old(self)@);
        }

        if new_head.x < 0 || new_head.x >= self.grid_width || new_head.y < 0 || new_head.y
            >= self.grid_height {
            self.state = GameState::GameOver;
            proof {
                lemma_updated_inv(old(self)@, now as int, self@);
            }
            return;
        }
        if self.spatial_hash.contains(new_head) {
            self.state = GameState::GameOver;
            proof {
                lemma_updated_inv(old(self)@, now as int, self@);
            }
            return;
        }
        self.snake.push(new_head);
        let _ = self.snake_positions.get(new_head.x, new_head.y);
        proof {
            assert(shadows(old(self).snake@.push(new_head)) =~= shadows(old(self).snake@).push(
                shadow_of(new_head),
            ));
        }

        if new_head == self.food {
            self.score += SCORE_PER_FOOD;
            self.move_interval = speed_up(self.move_interval);
            proof {
                lemma_push_distinct(old(self)@.snake, new_head);
                lemma_speed_up_bounds(old(self)@.move_interval);
            }
            self.spawn_food();
        } else {
            let _ = self.snake.remove(0);
            self.rebuild_positions();
        }
        self.update_spatial_hash();
        proof {
            lemma_updated_inv(old(self)@, now as int, self@);
        }
    }

    /// The snake's cells from tail to head.
    pub fn snake(&self) -> (cells: &[Position])
        ensures
            cells@ == self@.snake,
    {
        self.snake.as_slice()
    }

    /// One shadow position for each segment, from tail to head.
    pub fn snake_positions(&self) -> (positions: &[IVec2])
        requires
            self.wf(),
        ensures
            positions@ == shadows(self@.snake),
    {
        self.snake_positions.get_slice()
    }

    /// The cell that holds the food.
    pub fn food(&self) -> (cell: Position)
        ensures
            cell == self@.food,
    {
        self.food
    }

    /// The snake's heading.
    pub fn direction(&self) -> (heading: Direction)
        ensures
            heading == self@.direction,
    {
        self.direction
    }

    /// The mode of the state machine.
    pub fn state(&self) -> (mode: GameState)
        ensures
            mode == self@.state,
    {
        self.state
    }

    /// Points of the current round.
    pub fn score(&self) -> (points: i32)
        ensures
            points == self@.score,
    {
        self.score
    }

    /// The best score of the rounds that were followed by a new one.
    pub fn high_score(&self) -> (points: i32)
        ensures
            points == self@.high_score,
    {
        self.high_score
    }

    /// Animation phase in thousandths of a move.
    pub fn animation_progress(&self) -> (phase: u32)
        ensures
            phase == self@.animation_progress,
    {
        self.animation_progress
    }

    /// Microseconds between two moves.
    pub fn move_interval(&self) -> (interval: u64)
        ensures
            interval == self@.move_interval,
    {
        self.move_interval
    }

    /// Number of direction changes waiting for their move.
    pub fn buffered_inputs(&self) -> (waiting: usize)
        ensures
            waiting == self@.pending.len(),
    {
        self.input_buffer.len()
    }

    /// Columns of the grid.
    pub fn grid_width(&self) -> (columns: i32)
        ensures
            columns == self@.width,
    {
        self.grid_width
    }

    /// Rows of the grid.
    pub fn grid_height(&self) -> (rows: i32)
        ensures
            rows == self@.height,
    {
        self.grid_height
    }
}

} // verus!
