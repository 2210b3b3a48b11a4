//! What follows from the rules of the game: every state a game can reach
//! is sound, and each move does to length, score, interval, food and mode
//! what it should.

use vstd::prelude::*;
use crate::direction::Direction;
use crate::game_state::GameState;
use crate::grid::all_in_grid;
use crate::grid::lemma_distinct_cells_fit;
use crate::grid::lemma_drop_first_distinct;
use crate::grid::lemma_push_distinct;
use crate::input::FrameInput;
use crate::input_buffer::lemma_dequeue_keeps_no_repeat;
use crate::input_buffer::lemma_enqueue_bounded;
use crate::input_buffer::lemma_enqueue_keeps_no_repeat;
use crate::model::is_run;
use crate::model::is_step;
use crate::model::mode_may_follow;
use crate::model::GameModel;
use crate::model::INPUT_BUFFER_CAPACITY;
use crate::model::SCORE_PER_FOOD;
use crate::position::Position;
use crate::timing::lemma_progress_bounds;
use crate::timing::lemma_speed_up_bounds;
use crate::timing::sped_up;
use crate::timing::BASE_MOVE_INTERVAL;
use crate::timing::MIN_MOVE_INTERVAL;

verus! {

/// The snake of a well-shaped game has at most as many cells as the grid,
/// so its score stays far below the largest 32-bit number.
pub proof fn lemma_snake_fits_grid(m: GameModel)
    requires
        m.well_shaped(),
    ensures
        m.snake.len() <= m.width * m.height,
        m.snake.len() <= 100_000_000,
        m.score <= 1_000_000_000,
{
    lemma_distinct_cells_fit(m.snake, m.width, m.height);
    assert(m.width * m.height <= 100_000_000) by (nonlinear_arith)
        requires
            0 < m.width <= 10_000,
            0 < m.height <= 10_000,
    ;
}

/// Looking for new food keeps a well-shaped game sound: afterwards the food
/// is on no cell of the snake, unless no cell is left.
pub proof fn lemma_food_respawned_inv(pre: GameModel, post: GameModel)
    requires
        pre.well_shaped(),
        pre.food_respawned(post),
    ensures
        post.inv(),
        !pre.grid_full() ==> !post.snake.contains(post.food),
{
}

/// A new round is well shaped before its food is placed.
pub proof fn lemma_round_start_shaped(pre: GameModel)
    requires
        pre.well_shaped(),
    ensures
        pre.round_start().well_shaped(),
{
    lemma_snake_fits_grid(pre);
}

/// Starting a new round keeps the game sound, whatever state it starts
/// from: the round begins with one segment in the middle and no points, and
/// the high score has taken the last score in.
pub proof fn lemma_restarted_inv(pre: GameModel, post: GameModel)
    requires
        pre.well_shaped(),
        pre.restarted(post),
    ensures
        post.inv(),
        post.score == 0,
        post.snake == seq![pre.center()],
        post.high_score >= pre.high_score,
        post.high_score >= pre.score,
{
    lemma_round_start_shaped(pre);
    lemma_food_respawned_inv(pre.round_start(), post);
}

/// Asking for a direction keeps the game sound. A reversal changes
/// nothing, so the heading after the request is never the reverse of the
/// heading before it.
pub proof fn lemma_steered_inv(pre: GameModel, d: Direction, now: int)
    requires
        pre.inv(),
        0 <= now <= u64::MAX,
    ensures
        pre.steered(d, now).inv(),
        pre.steered(pre.direction.opposite(), now) == pre,
        pre.steered(d, now).direction != pre.direction.opposite(),
        pre.steered(d, now).snake == pre.snake,
{
    lemma_enqueue_bounded(pre.pending, INPUT_BUFFER_CAPACITY as nat, d);
    lemma_enqueue_keeps_no_repeat(pre.pending, INPUT_BUFFER_CAPACITY as nat, d);
}

/// The keys of a frame keep the game sound.
pub proof fn lemma_handled_inv(pre: GameModel, input: FrameInput, now: int, post: GameModel)
    requires
        pre.inv(),
        0 <= now <= u64::MAX,
        pre.handled(input, now, post),
    ensures
        post.inv(),
{
    let turned = pre.after_direction_keys(input, now);
    if pre.state == GameState::Playing && input.requested() is Some {
        lemma_steered_inv(pre, input.requested().unwrap(), now);
    }
    if (pre.state == GameState::Menu || pre.state == GameState::GameOver) && input.confirm {
        lemma_restarted_inv(turned, post);
    }
}

/// One move keeps the game sound. In particular no two segments of the
/// snake ever share a cell.
pub proof fn lemma_ticked_inv(pre: GameModel, now: int, post: GameModel)
    requires
        pre.inv(),
        0 <= now <= u64::MAX,
        pre.ticked(now, post),
    ensures
        post.inv(),
        post.snake.no_duplicates(),
{
    let new_head = pre.next_head();
    lemma_dequeue_keeps_no_repeat(pre.pending);
    if pre.next_move_grows() {
        let grown = GameModel {
            snake: pre.snake.push(new_head),
            score: pre.score + SCORE_PER_FOOD,
            move_interval: sped_up(pre.move_interval),
            ..pre.move_begun(now)
        };
        lemma_push_distinct(pre.snake, new_head);
        lemma_speed_up_bounds(pre.move_interval);
        lemma_food_respawned_inv(grown, post);
    } else if !pre.next_move_collides() {
        // The snake had a free cell to move to, so the food was not under
        // it, and the move has not put it there.
        let longer = pre.snake.push(new_head);
        lemma_push_distinct(pre.snake, new_head);
        lemma_drop_first_distinct(longer);
        assert(all_in_grid(post.snake, post.width, post.height));
        assert(!pre.grid_full());
        assert(longer.contains(post.food) ==> pre.snake.contains(post.food));
    }
}

/// The frame update keeps the game sound.
pub proof fn lemma_updated_inv(pre: GameModel, now: int, post: GameModel)
    requires
        pre.inv(),
        0 <= now <= u64::MAX,
        pre.updated(now, post),
    ensures
        post.inv(),
{
    if pre.moves_at(now) {
        lemma_ticked_inv(pre, now, post);
    } else {
        lemma_progress_bounds(now - pre.last_move_time, pre.move_interval);
    }
}

/// A move that takes no food leaves the snake as long as it was; a move
/// that takes the food makes it longer by exactly one cell; a move that
/// ends the game leaves the snake untouched.
pub proof fn lemma_tick_length(pre: GameModel, now: int, post: GameModel)
    requires
        pre.snake.len() >= 1,
        pre.ticked(now, post),
    ensures
        pre.next_move_collides() ==> post.snake == pre.snake,
        pre.next_move_grows() ==> post.snake == pre.snake.push(pre.next_head()) && post.snake.len()
            == pre.snake.len() + 1,
        !pre.next_move_grows() ==> post.snake.len() == pre.snake.len(),
        !pre.next_move_collides() ==> post.head() == pre.next_head(),
{
}

/// A move that takes the food adds ten points, and the interval after it
/// is no longer than before and no shorter than the shortest interval. No
/// other move touches score or interval.
pub proof fn lemma_tick_score_and_interval(pre: GameModel, now: int, post: GameModel)
    requires
        pre.inv(),
        pre.ticked(now, post),
    ensures
        pre.next_move_grows() ==> post.score == pre.score + SCORE_PER_FOOD && post.move_interval
            == sped_up(pre.move_interval),
        !pre.next_move_grows() ==> post.score == pre.score && post.move_interval
            == pre.move_interval,
        MIN_MOVE_INTERVAL <= post.move_interval <= pre.move_interval,
{
    lemma_speed_up_bounds(pre.move_interval);
}

/// When a move in play takes the food, the game is over exactly if the
/// grown snake covers the grid; otherwise the new food lies on the grid and
/// on no cell of the snake.
pub proof fn lemma_tick_food(pre: GameModel, now: int, post: GameModel)
    requires
        pre.inv(),
        pre.state == GameState::Playing,
        pre.ticked(now, post),
        pre.next_move_grows(),
    ensures
        post.state == GameState::GameOver || (post.food.in_grid(post.width, post.height)
            && !post.snake.contains(post.food)),
        post.state == GameState::GameOver <==> post.grid_full(),
{
    let grown = GameModel {
        snake: pre.snake.push(pre.next_head()),
        score: pre.score + SCORE_PER_FOOD,
        move_interval: sped_up(pre.move_interval),
        ..pre.move_begun(now)
    };
    assert(grown.grid_full() ==> post.grid_full());
}

/// A waiting reversal is used up by the move but does not change the
/// heading.
pub proof fn lemma_tick_rejects_reversal(pre: GameModel, now: int, post: GameModel)
    requires
        pre.pending.len() > 0,
        pre.pending.first() == pre.direction.opposite(),
        pre.ticked(now, post),
    ensures
        post.direction == pre.direction,
        post.pending == pre.pending.drop_first(),
{
}

/// What a move in play does to the mode: the game is over if the move runs
/// into a wall or into the snake, or if the snake has grown to cover the
/// whole grid; otherwise play goes on.
pub proof fn lemma_tick_state(pre: GameModel, now: int, post: GameModel)
    requires
        pre.inv(),
        pre.state == GameState::Playing,
        pre.ticked(now, post),
    ensures
        post.state == GameState::Playing || post.state == GameState::GameOver,
        post.state == GameState::GameOver <==> pre.next_move_collides() || (pre.next_move_grows()
            && post.grid_full()),
{
    if pre.next_move_grows() {
        lemma_tick_food(pre, now, post);
    }
}

/// The keys of a frame change the mode only along the arrows of the state
/// machine, and never end a round that is being played.
pub proof fn lemma_handled_mode(pre: GameModel, input: FrameInput, now: int, post: GameModel)
    requires
        pre.inv(),
        pre.handled(input, now, post),
    ensures
        mode_may_follow(pre, post),
        pre.state == GameState::Playing ==> post.state != GameState::GameOver,
        pre.state == GameState::Paused ==> post.snake == pre.snake && post.food == pre.food
            && post.score == pre.score,
{
    let start = pre.after_direction_keys(input, now).round_start();
    if (pre.state == GameState::Menu || pre.state == GameState::GameOver) && input.confirm {
        assert(start.grid_full() ==> post.grid_full());
    }
}

/// The frame update changes the mode only from play to the end of the
/// game, and changes nothing at all outside of play.
pub proof fn lemma_updated_mode(pre: GameModel, now: int, post: GameModel)
    requires
        pre.inv(),
        pre.updated(now, post),
    ensures
        mode_may_follow(pre, post),
        post.state == pre.state || (pre.state == GameState::Playing && post.state
            == GameState::GameOver),
        pre.state != GameState::Playing ==> post == pre,
{
    if pre.moves_at(now) {
        lemma_tick_state(pre, now, post);
    }
}

/// A new game is sound.
pub proof fn lemma_initial_inv(food: Position)
    requires
        GameModel::initial(food).is_free(food),
    ensures
        GameModel::initial(food).inv(),
{
    assert(GameModel::initial(food).snake[0] == Position { x: 12, y: 10 });
}

/// One step keeps the game sound.
pub proof fn lemma_step_inv(pre: GameModel, post: GameModel)
    requires
        pre.inv(),
        is_step(pre, post),
    ensures
        post.inv(),
        mode_may_follow(pre, post),
{
    if exists|input: FrameInput, now: int|
        0 <= now <= u64::MAX && #[trigger] pre.handled(input, now, post) {
        let (input, now) = choose|input: FrameInput, now: int|
            0 <= now <= u64::MAX && #[trigger] pre.handled(input, now, post);
        lemma_handled_inv(pre, input, now, post);
        lemma_handled_mode(pre, input, now, post);
    } else if exists|now: int| 0 <= now <= u64::MAX && #[trigger] pre.updated(now, post) {
        let now = choose|now: int| 0 <= now <= u64::MAX && #[trigger] pre.updated(now, post);
        lemma_updated_inv(pre, now, post);
        lemma_updated_mode(pre, now, post);
    }
}

/// Every state a game can reach is sound. In particular, in every state a
/// game can reach, the snake lies on the grid, no two of its segments share
/// a cell, it has at most as many segments as the grid has cells, and the
/// interval between moves is between the shortest and the base interval.
pub proof fn lemma_run_inv(run: Seq<GameModel>, i: int)
    requires
        is_run(run),
        0 <= i < run.len(),
    ensures
        run[i].inv(),
        run[i].snake.no_duplicates(),
        all_in_grid(run[i].snake, run[i].width, run[i].height),
        1 <= run[i].snake.len() <= run[i].width * run[i].height,
        MIN_MOVE_INTERVAL <= run[i].move_interval <= BASE_MOVE_INTERVAL,
    decreases i,
{
    if i == 0 {
        lemma_initial_inv(run[0].food);
    } else {
        lemma_run_inv(run, i - 1);
        lemma_step_inv(run[i - 1], run[i]);
    }
    lemma_snake_fits_grid(run[i]);
}

} // verus!
