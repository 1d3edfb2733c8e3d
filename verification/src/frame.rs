use vstd::prelude::*;

use crate::state::Board;
use crate::state::State;
use crate::state::Point;

verus! {

/// The run state after the death and food checks of one frame: a collision
/// turns the state to `GameOver`, but food under the head wins and turns it
/// to `FruitCollected` (the checks run in that order, and the food check does
/// not consult the state).
pub open spec fn checked_state(b: Board) -> State {
    if b.eats() {
        State::FruitCollected
    } else if b.collides() {
        State::GameOver
    } else {
        b.state
    }
}

/// The food after the checks of one frame: eaten food is gone, anything else
/// stays.
pub open spec fn fruit_after_checks(b: Board) -> Option<Point> {
    if b.eats() {
        None
    } else {
        b.fruit
    }
}

/// The respawn step of this frame places a food point: there is none left
/// after the checks and the counter has reached the threshold of 5.
pub open spec fn spawns(b: Board) -> bool {
    fruit_after_checks(b) is None && b.frames_since_fruit >= 5
}

/// The snake body after the movement and tail-retraction steps of one frame:
/// unchanged on a death, grown by the next head on a food frame, slid forward
/// otherwise.
pub open spec fn stepped_snake(b: Board) -> Seq<Point> {
    if checked_state(b) == State::GameOver {
        b.snake@
    } else if checked_state(b) == State::FruitCollected {
        b.snake@.push(b.next_point())
    } else {
        b.snake@.push(b.next_point()).remove(0)
    }
}

/// The run state after the whole frame: a death is terminal, and a
/// `FruitCollected` frame is consumed by the tail retraction, so every other
/// outcome is `Running`.
pub open spec fn stepped_state(b: Board) -> State {
    if checked_state(b) == State::GameOver {
        State::GameOver
    } else {
        State::Running
    }
}

/// Advance the game by one frame: the death-collision check, the
/// food-collision check, the movement, the tail retraction and the food
/// respawn, in exactly that order.
///
/// The contract fixes the whole outcome but the position of newly spawned
/// food, which is random within the inset region. In particular: while the
/// game runs and nothing is hit or eaten the body length is preserved;
/// eating grows the body by one and clears the food; a body segment on the
/// boundary, or a projected next head on the body, ends the game (unless
/// food sits under the head, which the original check order lets win); and
/// food that stays uneaten is never relocated.
pub fn update_logic(board: &mut Board)
    requires
        old(board).snake@.len() >= 1,
        checked_state(*old(board)) != State::GameOver ==> old(board).next_point_representable(),
        spawns(*old(board)) ==> old(board).width > 8 && old(board).height > 8,
    ensures
        final(board).width == old(board).width,
        final(board).height == old(board).height,
        final(board).move_direction == old(board).move_direction,
        final(board).state == stepped_state(*old(board)),
        final(board).snake@ == stepped_snake(*old(board)),
        spawns(*old(board)) ==> (final(board).fruit matches Some(f) && 4 <= f.x < old(board).width
            - 4 && 4 <= f.y < old(board).height - 4) && final(board).frames_since_fruit == 0,
        !spawns(*old(board)) ==> final(board).fruit == fruit_after_checks(*old(board)),
        !spawns(*old(board)) && fruit_after_checks(*old(board)) is None ==> final(board).frames_since_fruit == old(board).frames_since_fruit + 1,
        fruit_after_checks(*old(board)) is Some ==> final(board).fruit == old(board).fruit
            && final(board).frames_since_fruit == old(board).frames_since_fruit,
        old(board).state == State::Running && !old(board).collides() && !old(board).eats() ==>
            final(board).snake@.len() == old(board).snake@.len() && final(board).state
            == State::Running,
        old(board).eats() ==> final(board).snake@.len() == old(board).snake@.len() + 1 && (old(board).frames_since_fruit < 5 ==> final(board).fruit is None),
        old(board).hits_wall() && !old(board).eats() ==> final(board).state == State::GameOver,
        old(board).hits_body() && !old(board).eats() ==> final(board).state == State::GameOver,
        old(board).wf() ==> final(board).wf(),
{
    board.check_collision_death();
    board.check_collision_food();

    board.move_snake();
    board.chop_tail();

    board.spawn_fruit();
}

/// A well-formed board meets every precondition of `update_logic`: the body
/// is non-empty, the grid can hold the inset region, and, since food only
/// ever lies inside that region, a move that happens never projects the
/// head off the `u8` grid.
pub proof fn lemma_wf_permits_update(b: Board)
    requires
        b.wf(),
    ensures
        b.snake@.len() >= 1,
        checked_state(b) != State::GameOver ==> b.next_point_representable(),
        spawns(b) ==> b.width > 8 && b.height > 8,
{
    if checked_state(b) != State::GameOver {
        if b.eats() {
            assert(b.next_point_representable());
        } else {
            assert(!b.hits_wall());
            assert(!b.on_wall(b.snake@[b.snake@.len() - 1]));
            assert(b.next_point_representable());
        }
    }
}

} // verus!

