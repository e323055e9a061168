use jump_arcade::geometry::Pos3;
use jump_arcade::platform::PlatformRole;
use jump_arcade::player::{
    animate_fall, animate_jump, prepare_jump, reset_prepare_jump_timer, FallDirection, FallState,
    FallType, JumpState, PrepareJumpTimer,
};
use jump_arcade::ui::{
    drain_score_up_queue, reset_score, GameEvent, GameState, Score, ScoreUpEvent, ScoreUpQueue,
};
use jump_arcade::ui::MenuButtonAction;
use jump_arcade::world::{click_button, RunContext};

const U: i64 = 1_000_000;

fn flying_jump(end: Pos3, duration_ms: u64, falled: bool) -> JumpState {
    let mut jump = JumpState::default();
    jump.animate_jump(Pos3 { x: 0, y: 3 * U / 2, z: 0 }, end, duration_ms);
    jump.falled = falled;
    jump
}

#[test]
fn jump_advances_then_snaps_to_landing_with_success_cue() {
    let end = Pos3 { x: 3 * U, y: 3 * U / 2, z: 0 };
    let mut jump = flying_jump(end, 500, false);
    let mut pos = Pos3 { x: 0, y: 3 * U / 2, z: 0 };
    // Mid-flight: the clock advances, the pose stays put.
    let ev = animate_jump(&mut jump, &mut pos, 300);
    assert!(ev.is_none());
    assert!(!jump.completed);
    assert_eq!(jump.elapsed_ms, 300);
    assert_eq!(pos, Pos3 { x: 0, y: 3 * U / 2, z: 0 });
    // Passing the duration: snap to the landing point, success cue.
    let ev = animate_jump(&mut jump, &mut pos, 300);
    assert_eq!(ev, Some(GameEvent::JumpSuccess));
    assert!(jump.completed);
    assert_eq!(pos, end);
}

#[test]
fn jump_into_fall_completes_without_success_cue() {
    let end = Pos3 { x: 3 * U / 2, y: 3 * U / 2, z: 0 };
    let mut jump = flying_jump(end, 500, true);
    let mut pos = Pos3 { x: 0, y: 3 * U / 2, z: 0 };
    let ev = animate_jump(&mut jump, &mut pos, 600);
    assert!(ev.is_none());
    assert!(jump.completed);
    assert_eq!(pos, end);
}

#[test]
fn idle_jump_tick_changes_nothing() {
    let mut jump = JumpState::default();
    let mut pos = Pos3 { x: 5, y: 6, z: 7 };
    let ev = animate_jump(&mut jump, &mut pos, 1_000);
    assert!(ev.is_none());
    assert_eq!(pos, Pos3 { x: 5, y: 6, z: 7 });
    assert!(jump.completed);
}

#[test]
fn straight_fall_drops_and_ends_the_run() {
    let landing = Pos3 { x: 3 * U / 2, y: 3 * U / 2, z: 0 };
    let mut fall = FallState::default();
    fall.animate_straight_fall(landing);
    let jump = JumpState::default();
    let mut pos = landing;
    let mut phase = GameState::Playing;
    // First tick: fall cue once, 0.7 units per second of drop.
    let evs = animate_fall(&mut fall, &jump, &mut pos, &mut phase, 100);
    assert_eq!(evs, vec![GameEvent::FallStarted]);
    assert_eq!(pos.y, 3 * U / 2 - 70_000);
    // Later ticks emit no second cue.
    let evs = animate_fall(&mut fall, &jump, &mut pos, &mut phase, 100);
    assert!(evs.is_empty());
    let mut game_over = 0u32;
    for _ in 0..100 {
        let evs = animate_fall(&mut fall, &jump, &mut pos, &mut phase, 100);
        for e in &evs {
            if *e == GameEvent::GameOver {
                game_over += 1;
            }
        }
        if fall.completed {
            break;
        }
    }
    assert_eq!(game_over, 1);
    assert!(fall.completed);
    assert_eq!(phase, GameState::GameOver);
    assert!(pos.y < U / 2);
}

#[test]
fn fall_waits_for_the_arc_to_finish() {
    let landing = Pos3 { x: 3 * U / 2, y: 3 * U / 2, z: 0 };
    let mut fall = FallState::default();
    fall.animate_straight_fall(landing);
    let flying = {
        let mut jump = JumpState::default();
        jump.animate_jump(Pos3 { x: 0, y: 3 * U / 2, z: 0 }, landing, 500);
        jump
    };
    let mut pos = landing;
    let mut phase = GameState::Playing;
    let evs = animate_fall(&mut fall, &flying, &mut pos, &mut phase, 100);
    assert!(evs.is_empty());
    assert_eq!(pos, landing);
    assert!(!fall.played_sound);
}

#[test]
fn tilt_fall_leans_then_drops_from_the_pivot() {
    let landing = Pos3 { x: 0, y: 3 * U / 2, z: -3_300_000 };
    let mut fall = FallState::default();
    fall.animate_tilt_fall(landing, FallDirection::NegX);
    let jump = JumpState::default();
    let mut pos = landing;
    let mut phase = GameState::Playing;
    // During the lean the modelled height holds still.
    for _ in 0..10 {
        animate_fall(&mut fall, &jump, &mut pos, &mut phase, 100);
    }
    assert!(!fall.tilt_completed);
    assert_eq!(pos.y, 3 * U / 2);
    // The lean lasts one second (a quarter turn at a quarter turn per
    // second); once past it the height pins to the pivot.
    animate_fall(&mut fall, &jump, &mut pos, &mut phase, 100);
    animate_fall(&mut fall, &jump, &mut pos, &mut phase, 100);
    assert!(fall.tilt_completed);
    assert_eq!(pos.y, U);
    // Then the drop runs to below 0.2 and the run ends.
    for _ in 0..100 {
        animate_fall(&mut fall, &jump, &mut pos, &mut phase, 100);
        if fall.completed {
            break;
        }
    }
    assert!(fall.completed);
    assert_eq!(phase, GameState::GameOver);
    assert!(pos.y < U / 5);
}

#[test]
fn prepare_timer_saturates_and_resets() {
    let mut timer = PrepareJumpTimer(0);
    prepare_jump(&mut timer, 150);
    assert_eq!(timer.0, 150);
    prepare_jump(&mut timer, 150);
    assert_eq!(timer.0, 200);
    reset_prepare_jump_timer(&mut timer);
    assert_eq!(timer.0, 0);
}

#[test]
fn score_resets_to_zero() {
    let mut score = Score(41);
    reset_score(&mut score);
    assert_eq!(score.0, 0);
}

#[test]
fn score_queue_drains_only_after_the_arc() {
    let mut queue = ScoreUpQueue(vec![ScoreUpEvent {
        landing_pos: Pos3 { x: 3 * U, y: 2 * U, z: 0 },
    }]);
    let mut flying = JumpState::default();
    flying.animate_jump(
        Pos3 { x: 0, y: 3 * U / 2, z: 0 },
        Pos3 { x: 3 * U, y: 3 * U / 2, z: 0 },
        500,
    );
    let held = drain_score_up_queue(&mut queue, &flying);
    assert!(held.is_empty());
    assert_eq!(queue.0.len(), 1);
    let done = JumpState::default();
    let drained = drain_score_up_queue(&mut queue, &done);
    assert_eq!(drained.len(), 1);
    assert_eq!(drained[0].landing_pos, Pos3 { x: 3 * U, y: 2 * U, z: 0 });
    assert!(queue.0.is_empty());
}

#[test]
fn menu_flow_starts_restarts_and_returns_home() {
    let mut ctx = RunContext::new();
    assert_eq!(ctx.phase, GameState::MainMenu);
    // Restart and home do nothing at the main menu.
    click_button(&mut ctx, MenuButtonAction::RestartGame);
    assert_eq!(ctx.phase, GameState::MainMenu);
    click_button(&mut ctx, MenuButtonAction::BackToMainMenu);
    assert_eq!(ctx.phase, GameState::MainMenu);
    // Start: one current platform at the origin, score 0, debounce armed.
    click_button(&mut ctx, MenuButtonAction::StartGame);
    assert_eq!(ctx.phase, GameState::Playing);
    assert_eq!(ctx.score.0, 0);
    assert_eq!(ctx.platforms.len(), 1);
    assert_eq!(ctx.platforms[0].role, PlatformRole::Current);
    assert_eq!(ctx.prepare_timer.0, 0);
    assert_eq!(ctx.player_pos, Pos3 { x: 0, y: 3 * U / 2, z: 0 });
    // Simulate the run ending, then restart resets the score.
    ctx.score = Score(5);
    ctx.phase = GameState::GameOver;
    click_button(&mut ctx, MenuButtonAction::RestartGame);
    assert_eq!(ctx.phase, GameState::Playing);
    assert_eq!(ctx.score.0, 0);
    assert_eq!(ctx.platforms.len(), 1);
    // Home from game over clears the platforms; the score keeps its value
    // until the next run starts.
    ctx.phase = GameState::GameOver;
    ctx.score = Score(3);
    click_button(&mut ctx, MenuButtonAction::BackToMainMenu);
    assert_eq!(ctx.phase, GameState::MainMenu);
    assert!(ctx.platforms.is_empty());
    assert_eq!(ctx.score.0, 3);
}
