//! Run life-cycle state, score, and the events the core emits.
//!
//! The core never draws or plays anything itself: collaborators (UI, audio,
//! camera) consume the `GameEvent`s and the score-up queue that the
//! simulation produces.

use vstd::prelude::*;

use crate::geometry::Pos3;
use crate::player::JumpState;

verus! {

/// The run's life-cycle phase; it decides which systems are active.
#[derive(Clone, Copy, Debug, PartialEq, Eq, Structural)]
pub enum GameState {
    MainMenu,
    Playing,
    GameOver,
}

/// The per-run score counter.
#[derive(Clone, Copy, Debug, PartialEq, Eq, Structural)]
pub struct Score(pub u32);

/// A score increment; the counter sticks at its maximum rather than wrap.
pub open spec fn score_inc(s: u32) -> u32 {
    if s == u32::MAX {
        u32::MAX
    } else {
        (s + 1) as u32
    }
}

/// Discrete events emitted by the simulation for UI, audio and camera
/// collaborators.
#[derive(Clone, Copy, Debug, PartialEq, Eq, Structural)]
pub enum GameEvent {
    /// A charge began (press accepted).
    ChargeStarted,
    /// A charge ended (release processed, successfully or not).
    ChargeEnded,
    /// An arc finished on a platform: success cue.
    JumpSuccess,
    /// A fall's first tick: fall cue.
    FallStarted,
    /// A fall reached the ground: the run is over.
    GameOver,
}

/// A scored landing, carrying the point where the score cue should appear.
#[derive(Clone, Copy, Debug, PartialEq, Eq, Structural)]
pub struct ScoreUpEvent {
    pub landing_pos: Pos3,
}

/// Scored landings not yet shown by the UI.
#[derive(Debug)]
pub struct ScoreUpQueue(pub Vec<ScoreUpEvent>);

/// The actions of the menu buttons.
#[derive(Clone, Copy, Debug, PartialEq, Eq, Structural)]
pub enum MenuButtonAction {
    StartGame,
    RestartGame,
    BackToMainMenu,
}

/// Reset the score at the start of a run.
pub fn reset_score(score: &mut Score)
    ensures
        final(score).0 == 0,
{
    score.0 = 0;
}

/// Hand the queued score cues to the UI, once the arc that produced them has
/// finished; while the arc is still flying the queue is left untouched.
pub fn drain_score_up_queue(queue: &mut ScoreUpQueue, jump: &JumpState) -> (evs: Vec<ScoreUpEvent>)
    ensures
        jump.completed ==> evs@ == old(queue).0@ && final(queue).0@.len() == 0,
        !jump.completed ==> evs@.len() == 0 && final(queue).0@ == old(queue).0@,
{
    let mut out: Vec<ScoreUpEvent> = Vec::new();
    if jump.completed {
        let n = queue.0.len();
        for i in 0..n
            invariant
                n == queue.0@.len(),
                out@ == queue.0@.subrange(0, i as int),
        {
            out.push(queue.0[i]);
            proof {
                assert(out@ =~= queue.0@.subrange(0, i + 1));
            }
        }
        proof {
            assert(out@ =~= queue.0@);
        }
        queue.0.clear();
    }
    out
}

} // verus!
