//! The run context: every per-run resource in one place, with the input
//! handler that charges and resolves jumps, the menu handler, and the
//! per-tick driver that runs the systems in their fixed order.

use vstd::pervasive::VecAdditionalExecFns;
use vstd::prelude::*;

use crate::geometry::{pos_in_range, Pos3};
use crate::platform::{
    at_most_one_role, clear_platforms, find_role, generate_next_platform, generate_step, has_role,
    platforms_wf, role_idx, setup_first_platform, Platform, PlatformRole,
};
use crate::player::{
    animate_fall, animate_jump, classify_landing, classify_spec, elapsed_of, fall_step_rel,
    initial_player_pos, jump_step_rel, landing_pos, landing_pos_spec, prepare_finished,
    prepare_jump, reset_prepare_jump_timer, setup_player, travel_axis, Accumulator, Axis,
    FallState, FallType, JumpState, Outcome, PrepareJumpTimer, AXIS_EPSILON, MIN_JUMP_DURATION_MS,
    PREPARE_MS,
};
use crate::ui::{
    reset_score, score_inc, GameEvent, GameState, MenuButtonAction, Score, ScoreUpEvent,
    ScoreUpQueue,
};

verus! {

/// How far above the landing point the score cue appears (0.5 world units).
pub const SCORE_CUE_RISE: i64 = 500_000;

/// Every per-run resource of the simulation.
pub struct RunContext {
    pub phase: GameState,
    pub score: Score,
    pub platforms: Vec<Platform>,
    pub player_pos: Pos3,
    pub accumulator: Accumulator,
    pub jump: JumpState,
    pub fall: FallState,
    pub prepare_timer: PrepareJumpTimer,
    pub score_up_queue: ScoreUpQueue,
}

/// The run context's invariant: a well-formed platform set; one current
/// platform whenever a run is underway or just over; no platforms at the
/// menu; all modelled positions in range; and a charge only while no arc or
/// fall is pending.
pub open spec fn wf(c: RunContext) -> bool {
    &&& platforms_wf(c.platforms@)
    &&& (c.phase is Playing || c.phase is GameOver) ==> has_role(
        c.platforms@,
        PlatformRole::Current,
    )
    &&& c.phase is MainMenu ==> c.platforms@.len() == 0
    &&& pos_in_range(c.player_pos)
    &&& pos_in_range(c.jump.start_pos)
    &&& pos_in_range(c.jump.end_pos)
    &&& pos_in_range(c.fall.pos)
    &&& c.accumulator.0 is Some ==> c.jump.completed && c.fall.completed
}

/// Contexts equal in every field but the charge accumulator.
pub open spec fn ctx_eq_except_accum(a: RunContext, b: RunContext) -> bool {
    &&& a.phase == b.phase
    &&& a.score == b.score
    &&& a.platforms@ == b.platforms@
    &&& a.player_pos == b.player_pos
    &&& a.jump == b.jump
    &&& a.fall == b.fall
    &&& a.prepare_timer == b.prepare_timer
    &&& a.score_up_queue.0@ == b.score_up_queue.0@
}

/// Contexts equal in every field.
pub open spec fn ctx_eq(a: RunContext, b: RunContext) -> bool {
    ctx_eq_except_accum(a, b) && a.accumulator.0 == b.accumulator.0
}

impl RunContext {
    /// A fresh context: at the main menu, nothing spawned, nothing pending.
    pub fn new() -> (c: RunContext)
        ensures
            wf(c),
            c.phase is MainMenu,
            c.score.0 == 0,
            c.platforms@.len() == 0,
            c.player_pos == initial_player_pos(),
            c.accumulator.0 is None,
            c.jump.completed,
            c.fall.completed,
            c.prepare_timer.0 == 0,
            c.score_up_queue.0@.len() == 0,
    {
        RunContext {
            phase: GameState::MainMenu,
            score: Score(0),
            platforms: Vec::new(),
            player_pos: Pos3 { x: 0, y: crate::player::INITIAL_PLAYER_Y, z: 0 },
            accumulator: Accumulator(None),
            jump: JumpState::default(),
            fall: FallState::default(),
            prepare_timer: PrepareJumpTimer(0),
            score_up_queue: ScoreUpQueue(Vec::new()),
        }
    }
}

/// Entering play: platforms and player respawned, the score and the input
/// debounce reset, everything else carried over.
pub open spec fn playing_entry_rel(c0: RunContext, c1: RunContext) -> bool {
    &&& c1.phase is Playing
    &&& c1.score.0 == 0
    &&& c1.platforms@.len() == 1
    &&& c1.platforms@[0].role is Current
    &&& c1.platforms@[0].pos == (Pos3 { x: 0, y: crate::platform::PLATFORM_Y, z: 0 })
    &&& c1.player_pos == initial_player_pos()
    &&& c1.prepare_timer.0 == 0
    &&& c1.accumulator.0 == c0.accumulator.0
    &&& c1.jump == c0.jump
    &&& c1.fall == c0.fall
    &&& c1.score_up_queue.0@ == c0.score_up_queue.0@
}

/// Returning to the main menu: platforms despawned and the player parked at
/// its starting pose, everything else carried over.
pub open spec fn main_menu_rel(c0: RunContext, c1: RunContext) -> bool {
    &&& c1.phase is MainMenu
    &&& c1.platforms@.len() == 0
    &&& c1.player_pos == initial_player_pos()
    &&& c1.score == c0.score
    &&& c1.prepare_timer == c0.prepare_timer
    &&& c1.accumulator.0 == c0.accumulator.0
    &&& c1.jump == c0.jump
    &&& c1.fall == c0.fall
    &&& c1.score_up_queue.0@ == c0.score_up_queue.0@
}

/// Reset the context for a fresh run and enter play.
fn enter_playing(ctx: &mut RunContext)
    requires
        wf(*old(ctx)),
    ensures
        playing_entry_rel(*old(ctx), *final(ctx)),
        wf(*final(ctx)),
{
    clear_platforms(&mut ctx.platforms);
    setup_first_platform(&mut ctx.platforms);
    setup_player(&mut ctx.player_pos);
    reset_score(&mut ctx.score);
    reset_prepare_jump_timer(&mut ctx.prepare_timer);
    ctx.phase = GameState::Playing;
    proof {
        assert(ctx.platforms@[0].role == PlatformRole::Current);
        assert(has_role(ctx.platforms@, PlatformRole::Current));
    }
}

/// Apply a menu button press.
///
/// Starting a game is possible from the main menu, restarting and going
/// home from the game-over screen; each entry into play resets the run as
/// `playing_entry_rel` describes. A button that does not belong to the
/// current screen does nothing.
pub fn click_button(ctx: &mut RunContext, action: MenuButtonAction)
    requires
        wf(*old(ctx)),
    ensures
        wf(*final(ctx)),
        action is StartGame && old(ctx).phase is MainMenu ==> playing_entry_rel(
            *old(ctx),
            *final(ctx),
        ),
        action is StartGame && !(old(ctx).phase is MainMenu) ==> ctx_eq(*final(ctx), *old(ctx)),
        action is RestartGame && old(ctx).phase is GameOver ==> playing_entry_rel(
            *old(ctx),
            *final(ctx),
        ),
        action is RestartGame && !(old(ctx).phase is GameOver) ==> ctx_eq(*final(ctx), *old(ctx)),
        action is BackToMainMenu && old(ctx).phase is GameOver ==> main_menu_rel(
            *old(ctx),
            *final(ctx),
        ),
        action is BackToMainMenu && !(old(ctx).phase is GameOver) ==> ctx_eq(
            *final(ctx),
            *old(ctx),
        ),
{
    match action {
        MenuButtonAction::StartGame => {
            if ctx.phase == GameState::MainMenu {
                enter_playing(ctx);
            }
        },
        MenuButtonAction::RestartGame => {
            if ctx.phase == GameState::GameOver {
                enter_playing(ctx);
            }
        },
        MenuButtonAction::BackToMainMenu => {
            if ctx.phase == GameState::GameOver {
                clear_platforms(&mut ctx.platforms);
                setup_player(&mut ctx.player_pos);
                ctx.phase = GameState::MainMenu;
            }
        },
    }
}

/// Input is looked at only during play, once the debounce has elapsed.
pub open spec fn input_gate(c: RunContext) -> bool {
    c.phase is Playing && prepare_finished(c.prepare_timer)
}

/// A press starts a charge only when the previous arc and fall are done.
pub open spec fn press_fires(c: RunContext, press: bool) -> bool {
    input_gate(c) && press && c.jump.completed && c.fall.completed
}

/// A release resolves only while a charge is active (possibly one started
/// by a press in the same tick) and the previous arc and fall are done; a
/// release with no active charge is a no-op.
pub open spec fn release_fires(c: RunContext, press: bool, release: bool) -> bool {
    &&& input_gate(c)
    &&& release
    &&& c.jump.completed
    &&& c.fall.completed
    &&& press_fires(c, press) || c.accumulator.0 is Some
}

/// When the charge driving a release began.
pub open spec fn charge_start(c: RunContext, press: bool, now_ms: u64) -> u64 {
    if press_fires(c, press) {
        now_ms
    } else {
        c.accumulator.0->0
    }
}

/// The charge events one input tick emits.
pub open spec fn charge_events(pf: bool, rf: bool) -> Seq<GameEvent> {
    if pf && rf {
        seq![GameEvent::ChargeStarted, GameEvent::ChargeEnded]
    } else if pf {
        seq![GameEvent::ChargeStarted]
    } else if rf {
        seq![GameEvent::ChargeEnded]
    } else {
        Seq::<GameEvent>::empty()
    }
}

/// Where the score cue for a landing appears: half a unit above it.
pub open spec fn score_cue_pos(landing: Pos3) -> Pos3 {
    Pos3 { x: landing.x, y: (landing.y + SCORE_CUE_RISE) as i64, z: landing.z }
}

/// The platform set after a scored landing: the next platform becomes
/// current, the old current platform is retired, everything else as it was.
pub open spec fn scored_platforms(s: Seq<Platform>) -> Seq<Platform> {
    let i = role_idx(s, PlatformRole::Current);
    let j = role_idx(s, PlatformRole::Next);
    s.update(j, (Platform { role: PlatformRole::Current, ..s[j] })).update(
        i,
        (Platform { role: PlatformRole::Retired, ..s[i] }),
    )
}

/// What resolving a release does to the context.
///
/// Without a next platform the release is ignored, except that the charge
/// is cleared. Otherwise the landing point follows from the charge and the
/// travel axis, an arc toward it starts (its duration half the charge,
/// floored), and the classified outcome decides the rest: a scored landing
/// bumps the score, queues the score cue and rotates the platform roles; a
/// safe landing changes nothing else; a graze starts a tilt fall and a
/// miss a straight fall. The charge is cleared in every case.
pub open spec fn release_step(c0: RunContext, c1: RunContext, press: bool, now_ms: u64) -> bool {
    if !has_role(c0.platforms@, PlatformRole::Next) {
        ctx_eq_except_accum(c1, c0) && c1.accumulator.0 is None
    } else {
        let cur = c0.platforms@[role_idx(c0.platforms@, PlatformRole::Current)];
        let nxt = c0.platforms@[role_idx(c0.platforms@, PlatformRole::Next)];
        let e = elapsed_of(charge_start(c0, press, now_ms), now_ms);
        let landing = landing_pos_spec(c0.player_pos, travel_axis(cur.pos, nxt.pos), e);
        let out = classify_spec(cur.shape, cur.pos, nxt.shape, nxt.pos, landing);
        &&& c1.jump == (JumpState {
            start_pos: c0.player_pos,
            end_pos: landing,
            animation_duration_ms: crate::player::jump_duration_spec(e),
            elapsed_ms: 0,
            falled: !(out is Scored || out is Safe),
            completed: false,
        })
        &&& c1.accumulator.0 is None
        &&& c1.phase == c0.phase
        &&& c1.player_pos == c0.player_pos
        &&& c1.prepare_timer == c0.prepare_timer
        &&& (out is Scored ==> {
            &&& c1.score.0 == score_inc(c0.score.0)
            &&& c1.score_up_queue.0@ == c0.score_up_queue.0@.push(
                ScoreUpEvent { landing_pos: score_cue_pos(landing) },
            )
            &&& c1.platforms@ == scored_platforms(c0.platforms@)
            &&& c1.fall == c0.fall
        })
        &&& (out is Safe ==> {
            &&& c1.score == c0.score
            &&& c1.score_up_queue.0@ == c0.score_up_queue.0@
            &&& c1.platforms@ == c0.platforms@
            &&& c1.fall == c0.fall
        })
        &&& (out matches Outcome::TiltFall(d) ==> {
            &&& c1.score == c0.score
            &&& c1.score_up_queue.0@ == c0.score_up_queue.0@
            &&& c1.platforms@ == c0.platforms@
            &&& c1.fall == (FallState {
                pos: landing,
                fall_type: FallType::Tilt(d),
                tilt_completed: false,
                completed: false,
                played_sound: false,
                tilt_elapsed_ms: 0,
            })
        })
        &&& (out is StraightFall ==> {
            &&& c1.score == c0.score
            &&& c1.score_up_queue.0@ == c0.score_up_queue.0@
            &&& c1.platforms@ == c0.platforms@
            &&& c1.fall == (FallState {
                pos: landing,
                fall_type: FallType::Straight,
                completed: false,
                played_sound: false,
                ..c0.fall
            })
        })
    }
}

/// What one input tick does to the context: nothing while input is not
/// accepted; a firing press records the charge's start; a firing release
/// resolves as `release_step` says; and the matching charge events come
/// back.
pub open spec fn player_jump_rel(
    c0: RunContext,
    c1: RunContext,
    press: bool,
    release: bool,
    now_ms: u64,
    evs: Seq<GameEvent>,
) -> bool {
    &&& evs == charge_events(press_fires(c0, press), release_fires(c0, press, release))
    &&& if !input_gate(c0) {
        ctx_eq(c1, c0)
    } else if !release_fires(c0, press, release) {
        &&& ctx_eq_except_accum(c1, c0)
        &&& c1.accumulator.0 == if press_fires(c0, press) {
            Some(now_ms)
        } else {
            c0.accumulator.0
        }
    } else {
        release_step(c0, c1, press, now_ms)
    }
}

/// Handle one tick of pointer input: a press edge, a release edge, and the
/// current time in milliseconds.
///
/// A press during play (after the debounce) with no arc or fall pending
/// starts a charge. A release with an active charge resolves it: the
/// landing point follows from the charge duration, and its classification
/// decides between scoring, staying safe, and the two kinds of fall. A
/// release with no active charge, or with no next platform, is ignored —
/// the charge, if any, is cleared either way.
#[verifier::rlimit(100)]
pub fn player_jump(ctx: &mut RunContext, press: bool, release: bool, now_ms: u64) -> (evs: Vec<
    GameEvent,
>)
    requires
        wf(*old(ctx)),
    ensures
        wf(*final(ctx)),
        player_jump_rel(*old(ctx), *final(ctx), press, release, now_ms, evs@),
{
    let ghost c0 = *ctx;
    let mut evs: Vec<GameEvent> = Vec::new();
    if !(ctx.phase == GameState::Playing) {
        proof {
            assert(evs@ =~= charge_events(
                press_fires(c0, press),
                release_fires(c0, press, release),
            ));
        }
        return evs;
    }
    if ctx.prepare_timer.0 < PREPARE_MS {
        proof {
            assert(evs@ =~= charge_events(
                press_fires(c0, press),
                release_fires(c0, press, release),
            ));
        }
        return evs;
    }
    if press && ctx.jump.completed && ctx.fall.completed {
        ctx.accumulator.0 = Some(now_ms);
        evs.push(GameEvent::ChargeStarted);
    }
    if release && ctx.jump.completed && ctx.fall.completed && ctx.accumulator.0.is_some() {
        match find_role(&ctx.platforms, PlatformRole::Next) {
            None => {
                ctx.accumulator.0 = None;
                evs.push(GameEvent::ChargeEnded);
            },
            Some(j) => {
                let i = match find_role(&ctx.platforms, PlatformRole::Current) {
                    Some(k) => k,
                    None => {
                        proof {
                            assert(false);
                        }
                        0
                    },
                };
                proof {
                    let s = ctx.platforms@;
                    let ci = role_idx(s, PlatformRole::Current);
                    let nj = role_idx(s, PlatformRole::Next);
                    assert(s[j as int].role == PlatformRole::Next);
                    assert(s[i as int].role == PlatformRole::Current);
                    assert(0 <= nj < s.len() && s[nj].role == PlatformRole::Next);
                    assert(0 <= ci < s.len() && s[ci].role == PlatformRole::Current);
                    assert(nj == j as int);
                    assert(ci == i as int);
                    assert(pos_in_range(s[i as int].pos));
                    assert(pos_in_range(s[j as int].pos));
                }
                let start_t = match ctx.accumulator.0 {
                    Some(t) => t,
                    None => {
                        proof {
                            assert(false);
                        }
                        0
                    },
                };
                let elapsed = if now_ms >= start_t {
                    now_ms - start_t
                } else {
                    0
                };
                let cur = ctx.platforms[i];
                let nxt = ctx.platforms[j];
                let axis = if nxt.pos.x - cur.pos.x < AXIS_EPSILON {
                    Axis::NegZ
                } else {
                    Axis::PosX
                };
                let start = ctx.player_pos;
                let landing = landing_pos(start, axis, elapsed);
                let half = elapsed / 2;
                let dur = if half >= MIN_JUMP_DURATION_MS {
                    half
                } else {
                    MIN_JUMP_DURATION_MS
                };
                ctx.jump.animate_jump(start, landing, dur);
                let out = classify_landing(cur.shape, cur.pos, nxt.shape, nxt.pos, landing);
                match out {
                    Outcome::Scored => {
                        ctx.jump.falled = false;
                        ctx.score.0 = if ctx.score.0 == u32::MAX {
                            u32::MAX
                        } else {
                            ctx.score.0 + 1
                        };
                        ctx.score_up_queue.0.push(
                            ScoreUpEvent {
                                landing_pos: Pos3 {
                                    x: landing.x,
                                    y: landing.y + SCORE_CUE_RISE,
                                    z: landing.z,
                                },
                            },
                        );
                        let mut promoted = ctx.platforms[j];
                        promoted.role = PlatformRole::Current;
                        ctx.platforms.set(j, promoted);
                        let mut retired = ctx.platforms[i];
                        retired.role = PlatformRole::Retired;
                        ctx.platforms.set(i, retired);
                        proof {
                            assert(ctx.platforms@ =~= scored_platforms(c0.platforms@));
                            assert(ctx.platforms@[j as int].role == PlatformRole::Current);
                            assert(has_role(ctx.platforms@, PlatformRole::Current));
                            assert forall|a: int, b: int|
                                0 <= a < ctx.platforms@.len() && 0 <= b < ctx.platforms@.len()
                                    && (#[trigger] ctx.platforms@[a]).role == PlatformRole::Current
                                    && (#[trigger] ctx.platforms@[b]).role
                                    == PlatformRole::Current implies a == b by {
                                assert(a != i as int && b != i as int);
                                if a != j as int {
                                    assert(c0.platforms@[a].role == PlatformRole::Current);
                                    assert(a == i as int);
                                }
                                if b != j as int {
                                    assert(c0.platforms@[b].role == PlatformRole::Current);
                                    assert(b == i as int);
                                }
                            }
                            assert forall|a: int, b: int|
                                0 <= a < ctx.platforms@.len() && 0 <= b < ctx.platforms@.len()
                                    && (#[trigger] ctx.platforms@[a]).role == PlatformRole::Next
                                    && (#[trigger] ctx.platforms@[b]).role
                                    == PlatformRole::Next implies a == b by {
                                assert(a != i as int && a != j as int);
                                assert(c0.platforms@[a].role == PlatformRole::Next);
                                assert(a == j as int);
                                assert(false);
                            }
                            assert forall|k: int| 0 <= k < ctx.platforms@.len() implies
                                pos_in_range((#[trigger] ctx.platforms@[k]).pos) by {
                                assert(ctx.platforms@[k].pos == c0.platforms@[k].pos);
                                assert(pos_in_range(c0.platforms@[k].pos));
                            }
                        }
                    },
                    Outcome::Safe => {
                        ctx.jump.falled = false;
                    },
                    Outcome::TiltFall(direction) => {
                        ctx.jump.falled = true;
                        ctx.fall.animate_tilt_fall(landing, direction);
                    },
                    Outcome::StraightFall => {
                        ctx.jump.falled = true;
                        ctx.fall.animate_straight_fall(landing);
                    },
                }
                ctx.accumulator.0 = None;
                evs.push(GameEvent::ChargeEnded);
            },
        }
    }
    proof {
        assert(evs@ =~= charge_events(press_fires(c0, press), release_fires(c0, press, release)));
    }
    evs
}

/// The outcome a release would be classified as, before applying it.
pub open spec fn release_outcome(c0: RunContext, press: bool, now_ms: u64) -> Outcome {
    let cur = c0.platforms@[role_idx(c0.platforms@, PlatformRole::Current)];
    let nxt = c0.platforms@[role_idx(c0.platforms@, PlatformRole::Next)];
    let e = elapsed_of(charge_start(c0, press, now_ms), now_ms);
    let landing = landing_pos_spec(c0.player_pos, travel_axis(cur.pos, nxt.pos), e);
    classify_spec(cur.shape, cur.pos, nxt.shape, nxt.pos, landing)
}

/// After a scored landing the platform roles have rotated: the former next
/// platform is now the current one, the former current platform no longer
/// is, no next platform remains — and one subsequent generator call yields
/// exactly one new next platform.
pub proof fn lemma_scored_round_trip(
    c0: RunContext,
    c1: RunContext,
    s2: Seq<Platform>,
    press: bool,
    now_ms: u64,
)
    requires
        wf(c0),
        has_role(c0.platforms@, PlatformRole::Current),
        has_role(c0.platforms@, PlatformRole::Next),
        release_outcome(c0, press, now_ms) is Scored,
        release_step(c0, c1, press, now_ms),
        generate_step(c1.platforms@, s2),
    ensures
        c1.platforms@[role_idx(c0.platforms@, PlatformRole::Next)].role is Current,
        c1.platforms@[role_idx(c0.platforms@, PlatformRole::Current)].role is Retired,
        !has_role(c1.platforms@, PlatformRole::Next),
        has_role(c1.platforms@, PlatformRole::Current),
        has_role(s2, PlatformRole::Next),
        at_most_one_role(s2, PlatformRole::Next),
{
    let s0 = c0.platforms@;
    let i = role_idx(s0, PlatformRole::Current);
    let j = role_idx(s0, PlatformRole::Next);
    assert(0 <= i < s0.len() && s0[i].role == PlatformRole::Current);
    assert(0 <= j < s0.len() && s0[j].role == PlatformRole::Next);
    let s1 = c1.platforms@;
    assert(s1 == scored_platforms(s0));
    assert forall|k: int| 0 <= k < s1.len() implies (#[trigger] s1[k]).role
        != PlatformRole::Next by {
        if k != i && k != j {
            assert(s1[k] == s0[k]);
            if s0[k].role == PlatformRole::Next {
                assert(k == j);
            }
        }
    }
    assert(!has_role(s1, PlatformRole::Next));
    assert(s1[j].role == PlatformRole::Current);
    assert(has_role(s1, PlatformRole::Current));
    assert(s2.len() == s1.len() + 1);
    assert(s2[s1.len() as int].role == PlatformRole::Next);
    assert(has_role(s2, PlatformRole::Next));
    assert forall|a: int, b: int|
        0 <= a < s2.len() && 0 <= b < s2.len() && (#[trigger] s2[a]).role == PlatformRole::Next
            && (#[trigger] s2[b]).role == PlatformRole::Next implies a == b by {
        if a < s1.len() {
            assert(s2[a] == s1[a]);
            assert(false);
        }
        if b < s1.len() {
            assert(s2[b] == s1[b]);
            assert(false);
        }
    }
}

/// The events of an optional cue, as a sequence.
pub open spec fn opt_event_seq(ev: Option<GameEvent>) -> Seq<GameEvent> {
    match ev {
        Some(e) => seq![e],
        None => Seq::<GameEvent>::empty(),
    }
}

/// One tick of play, staged: the debounce timer advances; the generator
/// runs; the input handler runs; the arc animator runs; the fall animator
/// runs — each stage starting from the state the previous one left.
/// `w` carries the intermediate states and events as witnesses.
pub open spec fn tick_stages(
    c0: RunContext,
    c4: RunContext,
    press: bool,
    release: bool,
    now_ms: u64,
    dt_ms: u64,
    evs: Seq<GameEvent>,
    w: (RunContext, RunContext, RunContext, RunContext, Seq<GameEvent>, Option<GameEvent>, Seq<
        GameEvent,
    >),
) -> bool {
    let (c1, c2, c3, c3j, e1, ev2, e3) = w;
    &&& c1 == (RunContext {
        prepare_timer: PrepareJumpTimer(
            if c0.prepare_timer.0 + dt_ms > PREPARE_MS {
                PREPARE_MS
            } else {
                (c0.prepare_timer.0 + dt_ms) as u64
            },
        ),
        ..c0
    })
    &&& generate_step(c1.platforms@, c2.platforms@)
    &&& c2 == (RunContext { platforms: c2.platforms, ..c1 })
    &&& player_jump_rel(c2, c3, press, release, now_ms, e1)
    &&& jump_step_rel(c3.jump, c3j.jump, c3.player_pos, c3j.player_pos, dt_ms, ev2)
    &&& c3j == (RunContext { jump: c3j.jump, player_pos: c3j.player_pos, ..c3 })
    &&& fall_step_rel(
        c3j.fall,
        c4.fall,
        c3j.jump,
        c3j.player_pos,
        c4.player_pos,
        c3j.phase,
        c4.phase,
        dt_ms,
        e3,
    )
    &&& c4 == (RunContext { fall: c4.fall, player_pos: c4.player_pos, phase: c4.phase, ..c3j })
    &&& evs == e1 + opt_event_seq(ev2) + e3
}

/// What one frame of the simulation does: nothing outside play; during
/// play, the five systems run in their fixed order, witnessed stage by
/// stage by `tick_stages`.
pub open spec fn tick_rel(
    c0: RunContext,
    c4: RunContext,
    press: bool,
    release: bool,
    now_ms: u64,
    dt_ms: u64,
    evs: Seq<GameEvent>,
) -> bool {
    if !(c0.phase is Playing) {
        ctx_eq(c4, c0) && evs == Seq::<GameEvent>::empty()
    } else {
        exists|
            w: (
                RunContext,
                RunContext,
                RunContext,
                RunContext,
                Seq<GameEvent>,
                Option<GameEvent>,
                Seq<GameEvent>,
            ),
        | #[trigger] tick_stages(c0, c4, press, release, now_ms, dt_ms, evs, w)
    }
}

/// Run one frame of the simulation.
///
/// During play the systems run in their fixed cooperative order — debounce,
/// platform generation, input handling, arc animation, fall animation — and
/// the events they emitted come back in order. Outside play the frame does
/// nothing; menus are driven through `click_button`.
pub fn tick(ctx: &mut RunContext, press: bool, release: bool, now_ms: u64, dt_ms: u64) -> (evs:
    Vec<GameEvent>)
    requires
        wf(*old(ctx)),
    ensures
        wf(*final(ctx)),
        tick_rel(*old(ctx), *final(ctx), press, release, now_ms, dt_ms, evs@),
{
    let ghost c0 = *ctx;
    if !(ctx.phase == GameState::Playing) {
        let evs: Vec<GameEvent> = Vec::new();
        return evs;
    }
    prepare_jump(&mut ctx.prepare_timer, dt_ms);
    let ghost c1 = *ctx;
    generate_next_platform(&mut ctx.platforms);
    let ghost c2 = *ctx;
    proof {
        assert(wf(c2));
    }
    let mut evs = player_jump(ctx, press, release, now_ms);
    let ghost c3 = *ctx;
    let ghost e1 = evs@;
    let ev2 = animate_jump(&mut ctx.jump, &mut ctx.player_pos, dt_ms);
    let ghost c3j = *ctx;
    proof {
        assert(wf(c3j));
    }
    let mut e3vec = animate_fall(&mut ctx.fall, &ctx.jump, &mut ctx.player_pos, &mut ctx.phase, dt_ms);
    let ghost e3 = e3vec@;
    if let Some(e) = ev2 {
        evs.push(e);
    }
    evs.append(&mut e3vec);
    proof {
        let c4 = *ctx;
        assert(wf(c4));
        assert(evs@ =~= e1 + opt_event_seq(ev2) + e3);
        assert(tick_stages(c0, c4, press, release, now_ms, dt_ms, evs@, (c1, c2, c3, c3j, e1, ev2, e3)));
    }
    evs
}

} // verus!
