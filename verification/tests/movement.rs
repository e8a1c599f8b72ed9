use wolf3d::cell::{Cell, ThinWall};
use wolf3d::direction::Direction;
use wolf3d::fixed::FX_SCALE;
use wolf3d::player::{Action, Player, WALK_SPEED};
use wolf3d::vector::{Vector2, Vector3};
use wolf3d::world::WorldMap;

fn open_map(sx: usize, sy: usize) -> WorldMap {
    WorldMap {
        size_x: sx,
        size_y: sy,
        size_z: 1,
        cells: vec![Cell::Empty; sx * sy],
        portals: vec![],
    }
}

fn set_cell(m: &mut WorldMap, x: usize, y: usize, c: Cell) {
    let i = y * m.size_x + x;
    m.cells[i] = c;
}

#[test]
fn gravity_floor_clamp_lands_on_ground() {
    let map = open_map(4, 4);
    let mut p = Player::new(Vector3::new(500_000, 500_000, 500_000));
    p.velocity.z = -20_000_000; // falling fast
    p.update_gravity(&map, 33_333);
    // velocity accelerates to -20_126_665 first; the tentative height
    // 500_000 - 670_882 is below the ground plane, so the actor is clamped
    assert_eq!(p.pos.z, 0);
    assert_eq!(p.velocity.z, 0);
}

#[test]
fn gravity_step_never_goes_below_ground() {
    let map = open_map(4, 4);
    let mut p = Player::new(Vector3::new(500_000, 500_000, 100_000));
    p.velocity.z = -1_000_000;
    for _ in 0..10 {
        p.update_gravity(&map, 33_333);
        assert!(p.pos.z >= 0);
    }
}

#[test]
fn wall_top_standing_is_idempotent() {
    let mut map = open_map(4, 4);
    set_cell(&mut map, 0, 0, Cell::Wall { value: 7, height: 500_000 });
    let mut p = Player::new(Vector3::new(500_000, 500_000, 500_000));
    p.velocity.z = -1_000_000;
    p.update_gravity(&map, 33_333);
    assert_eq!(p.pos.z, 500_000);
    assert_eq!(p.velocity.z, 0);
    // a second step changes nothing either
    p.velocity.z = -1_000_000;
    p.update_gravity(&map, 33_333);
    assert_eq!(p.pos.z, 500_000);
    assert_eq!(p.velocity.z, 0);
}

#[test]
fn falling_actor_lands_exactly_on_platform_top() {
    let mut map = open_map(4, 4);
    set_cell(&mut map, 0, 0, Cell::Wall { value: 3, height: 300_000 });
    // the actor floats above the wall cell and falls onto its top
    let mut p = Player::new(Vector3::new(500_000, 500_000, 1_100_000));
    p.velocity.z = -1_000_000;
    for _ in 0..50 {
        p.update_gravity(&map, 33_333);
        assert!(p.pos.z >= 0);
        if p.velocity.z == 0 {
            break;
        }
    }
    assert_eq!(p.pos.z, 300_000);
    assert_eq!(p.velocity.z, 0);
}

#[test]
fn x_before_y_tie_break() {
    let mut map = open_map(3, 3);
    // full-height wall blocks the X target cell; Y target stays open
    set_cell(&mut map, 1, 0, Cell::Wall { value: 1, height: FX_SCALE });
    let mut p = Player::new(Vector3::new(500_000, 500_000, 0));
    // facing diagonally (+x, +y)
    p.dir = Vector2::new(1_000_000, 1_000_000);
    p.velocity.x = WALK_SPEED;
    // speed = 4.0 * 0.25 = 1.0; displacement (1.0, 1.0)
    p.update_pos(&map, 250_000);
    assert_eq!(p.pos.x, 500_000); // X rejected
    assert_eq!(p.pos.y, 1_500_000); // Y moved
}

#[test]
fn thin_wall_slide_gate_passes_when_lined_up() {
    let mut map = open_map(3, 3);
    set_cell(
        &mut map,
        1,
        0,
        Cell::Thin(
            ThinWall { value: 5, dir: Direction::East, slide: 300_000, depth: 500_000, shut: true },
        ),
    );
    // fractional Y offset 0.5 >= slide 0.3: the move crosses the plane
    let mut p = Player::new(Vector3::new(1_700_000, 500_000, 0));
    p.dir = Vector2::new(-1_000_000, 0);
    p.velocity.x = WALK_SPEED;
    // speed = 4.0 * 0.1 = 0.4; new_x = 1.3, crossing limit 1.5
    p.update_pos(&map, 100_000);
    assert_eq!(p.pos.x, 1_300_000);
}

#[test]
fn thin_wall_slide_gate_blocks_when_offset_small() {
    let mut map = open_map(3, 3);
    set_cell(
        &mut map,
        1,
        0,
        Cell::Thin(
            ThinWall { value: 5, dir: Direction::East, slide: 300_000, depth: 500_000, shut: true },
        ),
    );
    // fractional Y offset 0.2 < slide 0.3: the crossing move is rejected
    let mut p = Player::new(Vector3::new(1_700_000, 200_000, 0));
    p.dir = Vector2::new(-1_000_000, 0);
    p.velocity.x = WALK_SPEED;
    p.update_pos(&map, 100_000);
    assert_eq!(p.pos.x, 1_700_000);
    assert_eq!(p.pos.y, 200_000);
}

#[test]
fn open_thin_wall_does_not_block() {
    let mut map = open_map(3, 3);
    set_cell(
        &mut map,
        1,
        0,
        Cell::Thin(
            ThinWall {
                value: 5,
                dir: Direction::East,
                slide: 300_000,
                depth: 500_000,
                shut: false,
            },
        ),
    );
    let mut p = Player::new(Vector3::new(1_700_000, 200_000, 0));
    p.dir = Vector2::new(-1_000_000, 0);
    p.velocity.x = WALK_SPEED;
    p.update_pos(&map, 100_000);
    assert_eq!(p.pos.x, 1_300_000);
}

#[test]
fn wall_is_passable_from_above() {
    let mut map = open_map(3, 3);
    set_cell(&mut map, 1, 0, Cell::Wall { value: 1, height: 500_000 });
    // standing at the wall's top: the move over it is permitted
    let mut p = Player::new(Vector3::new(500_000, 500_000, 500_000));
    p.dir = Vector2::new(1_000_000, 0);
    p.velocity.x = WALK_SPEED;
    p.update_pos(&map, 250_000);
    assert_eq!(p.pos.x, 1_500_000);
}

#[test]
fn player_new_faces_north() {
    let p = Player::new(Vector3::new(0, 0, 0));
    assert_eq!(p.dir.x, 0);
    assert_eq!(p.dir.y, FX_SCALE);
    assert_eq!(p.plane.x, -660_000);
    assert_eq!(p.plane.y, 0);
    assert_eq!(p.action, Action::Idle);
    assert_eq!(p.gravity, -3_800_000);
}
