//! Session-wide laws of the arena state.
//!
//! Each core operation preserves well-formedness and never lowers the score;
//! here that single-step guarantee is carried over whole sessions: along any
//! trace of states joined by core operations, the enemy population stays
//! within its cap and the score is non-decreasing between any two states in
//! order.

use vstd::prelude::*;
use crate::arena::ENEMY_CAP;
use crate::arena::World;

verus! {

/// The population bound: a well-formed session never holds more than
/// `ENEMY_CAP` live enemies, and the count is never negative.
pub proof fn lemma_population_bound(w: World)
    requires
        w.wf(),
    ensures
        0 <= w.enemy_count <= ENEMY_CAP,
{
}

/// What every core operation guarantees of the session state it leaves
/// behind, starting from a well-formed one: the state stays well-formed and
/// the score does not decrease.  `spawn_tick`, `process_collision`,
/// `player_tick`, `enemy_tick` and `boundary_tick` all ensure this pair.
pub open spec fn step_guarantee(pre: World, post: World) -> bool {
    &&& post.wf()
    &&& pre.score <= post.score
}

/// The score reaches from one state of a trace to a later one without ever
/// decreasing, provided consecutive states are joined by core operations.
proof fn lemma_score_chain(trace: Seq<World>, i: int, j: int)
    requires
        0 <= i <= j < trace.len(),
        forall|k: int| 0 <= k < trace.len() - 1 ==> #[trigger] step_guarantee(trace[k], trace[k + 1]),
    ensures
        trace[i].score <= trace[j].score,
    decreases j - i,
{
    if i < j {
        lemma_score_chain(trace, i, j - 1);
        assert(step_guarantee(trace[j - 1], trace[j - 1 + 1]));
    }
}

/// Over any session trace that starts well-formed and whose consecutive
/// states are joined by core operations: the population bound `0 <=
/// enemy_count <= ENEMY_CAP` holds at every state, and the score is
/// non-decreasing between any two states in order.
pub proof fn lemma_session_invariants(trace: Seq<World>)
    requires
        trace.len() > 0,
        trace[0].wf(),
        forall|k: int| 0 <= k < trace.len() - 1 ==> #[trigger] step_guarantee(trace[k], trace[k + 1]),
    ensures
        forall|i: int| 0 <= i < trace.len() ==> 0 <= (#[trigger] trace[i]).enemy_count <= ENEMY_CAP,
        forall|i: int, j: int|
            0 <= i <= j < trace.len() ==> (#[trigger] trace[i]).score <= (#[trigger] trace[j]).score,
{
    assert forall|i: int| 0 <= i < trace.len() implies
        0 <= (#[trigger] trace[i]).enemy_count <= ENEMY_CAP by {
        if i > 0 {
            assert(step_guarantee(trace[i - 1], trace[i - 1 + 1]));
        }
    }
    assert forall|i: int, j: int|
        0 <= i <= j < trace.len() implies (#[trigger] trace[i]).score <= (#[trigger] trace[j]).score by {
        lemma_score_chain(trace, i, j);
    }
}

} // verus!
