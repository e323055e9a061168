use jump_arcade::geometry::Pos3;
use jump_arcade::platform::PlatformShape;
use jump_arcade::player::{classify_landing, FallDirection, Outcome, PLAYER_RADIUS};

const U: i64 = 1_000_000;

fn p(x: i64, y: i64, z: i64) -> Pos3 {
    Pos3 { x, y, z }
}

#[test]
fn landed_strictly_inside() {
    let shape = PlatformShape::Box;
    let center = p(0, U / 2, 0);
    assert!(shape.is_landed_on_platform(center, p(0, 3 * U / 2, 0)));
    assert!(shape.is_landed_on_platform(center, p(700_000, 3 * U / 2, 0)));
    assert!(shape.is_landed_on_platform(center, p(-700_000, 3 * U / 2, 700_000)));
}

#[test]
fn landed_boundary_is_strict() {
    // Half-extent is 750_000: one step inside lands, the boundary itself
    // and one step outside do not.
    let shape = PlatformShape::Box;
    let center = p(0, U / 2, 0);
    assert!(shape.is_landed_on_platform(center, p(749_999, 3 * U / 2, 0)));
    assert!(!shape.is_landed_on_platform(center, p(750_000, 3 * U / 2, 0)));
    assert!(!shape.is_landed_on_platform(center, p(750_001, 3 * U / 2, 0)));
}

#[test]
fn cylinder_uses_axis_aligned_test() {
    // The cylinder footprint is the same axis-aligned square as the box:
    // a corner point inside both axis distances counts as landed even
    // though it is outside the Euclidean radius.
    let shape = PlatformShape::Cylinder;
    let center = p(0, U / 2, 0);
    assert!(shape.is_landed_on_platform(center, p(700_000, 3 * U / 2, 700_000)));
    assert!(!shape.is_landed_on_platform(center, p(800_000, 3 * U / 2, 0)));
}

#[test]
fn touched_inflates_by_player_radius() {
    let shape = PlatformShape::Box;
    let center = p(0, U / 2, 0);
    // Between 750_000 and 950_000 from the centre: not landed, touched.
    assert!(!shape.is_landed_on_platform(center, p(800_000, 3 * U / 2, 0)));
    assert!(shape.is_touched_player(center, p(800_000, 3 * U / 2, 0), PLAYER_RADIUS));
    assert!(shape.is_touched_player(center, p(949_999, 3 * U / 2, 0), PLAYER_RADIUS));
    assert!(!shape.is_touched_player(center, p(950_000, 3 * U / 2, 0), PLAYER_RADIUS));
}

#[test]
fn classify_priority_scored_over_safe() {
    // A landing inside both footprints counts as scored.
    let cur = p(0, U / 2, 0);
    let nxt = p(U, U / 2, 0);
    let landing = p(700_000, 3 * U / 2, 0);
    let c = classify_landing(PlatformShape::Box, cur, PlatformShape::Box, nxt, landing);
    assert_eq!(c, Outcome::Scored);
}

#[test]
fn classify_safe_on_current() {
    let cur = p(0, U / 2, 0);
    let nxt = p(3 * U, U / 2, 0);
    let landing = p(600_000, 3 * U / 2, 0);
    let c = classify_landing(PlatformShape::Box, cur, PlatformShape::Box, nxt, landing);
    assert_eq!(c, Outcome::Safe);
}

#[test]
fn classify_tilt_on_current_grazes() {
    // X travel, landing just past the current platform's edge.
    let cur = p(0, U / 2, 0);
    let nxt = p(3 * U, U / 2, 0);
    let landing = p(800_000, 3 * U / 2, 0);
    let c = classify_landing(PlatformShape::Box, cur, PlatformShape::Box, nxt, landing);
    assert_eq!(c, Outcome::TiltFall(FallDirection::NegX));
}

#[test]
fn classify_tilt_on_current_z_travel() {
    // -Z travel, grazing the current platform tilts about -Z.
    let cur = p(0, U / 2, 0);
    let nxt = p(0, U / 2, -3 * U);
    let landing = p(0, 3 * U / 2, -800_000);
    let c = classify_landing(PlatformShape::Box, cur, PlatformShape::Box, nxt, landing);
    assert_eq!(c, Outcome::TiltFall(FallDirection::NegZ));
}

#[test]
fn classify_tilt_on_next_overshoot_z() {
    // -Z travel overshooting the next platform: outward tilt about -X.
    let cur = p(0, U / 2, 0);
    let nxt = p(0, U / 2, -5 * U / 2);
    let landing = p(0, 3 * U / 2, -3_300_000);
    let c = classify_landing(PlatformShape::Box, cur, PlatformShape::Box, nxt, landing);
    assert_eq!(c, Outcome::TiltFall(FallDirection::NegX));
}

#[test]
fn classify_tilt_on_next_undershoot_z() {
    let cur = p(0, U / 2, 0);
    let nxt = p(0, U / 2, -5 * U / 2);
    let landing = p(0, 3 * U / 2, -1_700_000);
    let c = classify_landing(PlatformShape::Box, cur, PlatformShape::Box, nxt, landing);
    assert_eq!(c, Outcome::TiltFall(FallDirection::PosX));
}

#[test]
fn classify_tilt_on_next_overshoot_x() {
    // +X travel overshooting the next platform: outward tilt about -Z.
    let cur = p(0, U / 2, 0);
    let nxt = p(3 * U, U / 2, 0);
    let landing = p(3_800_000, 3 * U / 2, 0);
    let c = classify_landing(PlatformShape::Box, cur, PlatformShape::Box, nxt, landing);
    assert_eq!(c, Outcome::TiltFall(FallDirection::NegZ));
}

#[test]
fn classify_tilt_on_next_undershoot_x() {
    let cur = p(0, U / 2, 0);
    let nxt = p(3 * U, U / 2, 0);
    let landing = p(2_200_000, 3 * U / 2, 0);
    let c = classify_landing(PlatformShape::Box, cur, PlatformShape::Box, nxt, landing);
    assert_eq!(c, Outcome::TiltFall(FallDirection::PosZ));
}

#[test]
fn classify_straight_miss() {
    let cur = p(0, U / 2, 0);
    let nxt = p(3 * U, U / 2, 0);
    let landing = p(3 * U / 2, 3 * U / 2, 0);
    let c = classify_landing(PlatformShape::Box, cur, PlatformShape::Box, nxt, landing);
    assert_eq!(c, Outcome::StraightFall);
}

#[test]
fn classify_is_total_over_sample_grid() {
    // Every landing point yields exactly one of the four outcomes.
    let cur = p(0, U / 2, 0);
    let nxt = p(3 * U, U / 2, 0);
    let mut seen_scored = 0u32;
    let mut seen_safe = 0u32;
    let mut seen_tilt = 0u32;
    let mut seen_straight = 0u32;
    let mut x: i64 = -2 * U;
    while x <= 6 * U {
        let c = classify_landing(PlatformShape::Box, cur, PlatformShape::Cylinder, nxt, p(x, 3 * U / 2, 0));
        match c {
            Outcome::Scored => seen_scored += 1,
            Outcome::Safe => seen_safe += 1,
            Outcome::TiltFall(_) => seen_tilt += 1,
            Outcome::StraightFall => seen_straight += 1,
        }
        x += 100_000;
    }
    assert!(seen_scored > 0 && seen_safe > 0 && seen_tilt > 0 && seen_straight > 0);
}
