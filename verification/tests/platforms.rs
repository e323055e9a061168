use jump_arcade::geometry::Pos3;
use jump_arcade::platform::{
    clear_platforms, find_role, generate_next_platform, setup_first_platform, Platform,
    PlatformColor, PlatformRole, PlatformShape,
};

const U: i64 = 1_000_000;

fn count_role(platforms: &[Platform], role: PlatformRole) -> usize {
    platforms.iter().filter(|p| p.role == role).count()
}

fn current_platform(x: i64, z: i64) -> Platform {
    Platform {
        shape: PlatformShape::Box,
        color: PlatformColor { red: 0, green: 0, blue: 0 },
        pos: Pos3 { x, y: U / 2, z },
        role: PlatformRole::Current,
    }
}

#[test]
fn first_platform_sits_at_origin_footprint() {
    let mut platforms: Vec<Platform> = Vec::new();
    setup_first_platform(&mut platforms);
    assert_eq!(platforms.len(), 1);
    assert_eq!(platforms[0].role, PlatformRole::Current);
    assert_eq!(platforms[0].pos, Pos3 { x: 0, y: U / 2, z: 0 });
}

#[test]
fn generator_creates_single_axis_offset_in_range() {
    // The new platform lies 2.5 to 4 units away along exactly one of +X
    // and -Z. A generator that echoed the current position back would
    // fail the distance check.
    for _ in 0..50 {
        let mut platforms = vec![current_platform(7 * U, -3 * U)];
        generate_next_platform(&mut platforms);
        assert_eq!(platforms.len(), 2);
        let next = platforms[1];
        assert_eq!(next.role, PlatformRole::Next);
        assert_eq!(next.pos.y, U / 2);
        let dx = next.pos.x - 7 * U;
        let dz = -3 * U - next.pos.z;
        if dx != 0 {
            assert_eq!(dz, 0);
            assert!((5 * U / 2..4 * U).contains(&dx), "dx out of range: {dx}");
        } else {
            assert!((5 * U / 2..4 * U).contains(&dz), "dz out of range: {dz}");
        }
    }
}

#[test]
fn generator_is_idempotent_with_next_present() {
    // Calling the generator twice in succession leaves exactly one next
    // platform and changes nothing on the second call.
    let mut platforms = vec![current_platform(0, 0)];
    generate_next_platform(&mut platforms);
    let snapshot = platforms.clone();
    generate_next_platform(&mut platforms);
    assert_eq!(platforms, snapshot);
    assert_eq!(count_role(&platforms, PlatformRole::Next), 1);
}

#[test]
fn generator_respawns_after_role_rotation() {
    // Retire the old current platform and promote the next one, as a
    // scored landing does; the generator then produces exactly one new
    // next platform.
    let mut platforms = vec![current_platform(0, 0)];
    generate_next_platform(&mut platforms);
    platforms[0].role = PlatformRole::Retired;
    platforms[1].role = PlatformRole::Current;
    generate_next_platform(&mut platforms);
    assert_eq!(platforms.len(), 3);
    assert_eq!(count_role(&platforms, PlatformRole::Next), 1);
    assert_eq!(count_role(&platforms, PlatformRole::Current), 1);
}

#[test]
fn find_role_reports_first_match() {
    let mut platforms = vec![current_platform(0, 0)];
    generate_next_platform(&mut platforms);
    assert_eq!(find_role(&platforms, PlatformRole::Current), Some(0));
    assert_eq!(find_role(&platforms, PlatformRole::Next), Some(1));
    assert_eq!(find_role(&platforms, PlatformRole::Retired), None);
}

#[test]
fn clear_platforms_empties_the_set() {
    let mut platforms = vec![current_platform(0, 0)];
    generate_next_platform(&mut platforms);
    clear_platforms(&mut platforms);
    assert!(platforms.is_empty());
}
