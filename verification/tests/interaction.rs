use wolf3d::cell::{Cell, ThinWall};
use wolf3d::direction::Direction;
use wolf3d::fixed::{fx_cell, fx_fract, fx_mul, isqrt, FX_SCALE};
use wolf3d::player::{Action, InputKey, Player, JUMP_SPEED, TURN_RATE, WALK_SPEED};
use wolf3d::portal::{PortalEnd, PortalPair};
use wolf3d::ray::Ray;
use wolf3d::vector::{Rot2, Vector2, Vector3};
use wolf3d::world::WorldMap;

fn open_map(sx: usize, sy: usize) -> WorldMap {
    WorldMap {
        size_x: sx,
        size_y: sy,
        size_z: 1,
        cells: vec![Cell::Empty; sx * sy],
        portals: vec![],
    }
}

fn set_cell(m: &mut WorldMap, x: usize, y: usize, c: Cell) {
    let i = y * m.size_x + x;
    m.cells[i] = c;
}

fn door() -> Cell {
    Cell::Thin(
        ThinWall { value: 9, dir: Direction::East, slide: 300_000, depth: 500_000, shut: true },
    )
}

#[test]
fn ray_hits_wall_at_analytic_distance() {
    let mut map = open_map(5, 5);
    set_cell(&mut map, 3, 0, Cell::Wall { value: 4, height: FX_SCALE });
    let mut p = Player::new(Vector3::new(500_000, 500_000, 0));
    p.dir = Vector2::new(FX_SCALE, 0);
    let hit = Ray::new(&p, Vector2::default()).cast(&map);
    // two empty cells, then the wall's near face at x = 3.0
    assert_eq!(hit.value, Some(4));
    assert_eq!(hit.dist, 2_500_000);
    assert_eq!(hit.pos.x, 3_000_000);
    assert_eq!(hit.pos.y, 500_000);
    assert_eq!(hit.cell_x, 3);
    assert_eq!(hit.cell_y, 0);
}

#[test]
fn ray_diagonal_distance() {
    let mut map = open_map(5, 5);
    set_cell(&mut map, 1, 1, Cell::Wall { value: 8, height: FX_SCALE });
    let mut p = Player::new(Vector3::new(500_000, 500_000, 0));
    p.dir = Vector2::new(FX_SCALE, FX_SCALE);
    let hit = Ray::new(&p, Vector2::default()).cast(&map);
    assert_eq!(hit.value, Some(8));
    // crossing into (1,1) at (1.0, 1.0): distance 0.5 * sqrt(2)
    assert_eq!(hit.dist, 707_106);
    assert_eq!(hit.pos.x, 1_000_000);
    assert_eq!(hit.pos.y, 1_000_000);
}

#[test]
fn ray_misses_in_open_map() {
    let map = open_map(4, 4);
    let mut p = Player::new(Vector3::new(500_000, 500_000, 0));
    p.dir = Vector2::new(FX_SCALE, 0);
    let hit = Ray::new(&p, Vector2::default()).cast(&map);
    assert_eq!(hit.value, None);
    assert_eq!(hit.dist, 0);
}

#[test]
fn open_triggers_at_reach_boundary() {
    let mut map = open_map(5, 5);
    set_cell(&mut map, 2, 0, door());
    // near face of the door cell is at x = 2.0: distance exactly 1.5
    let mut p = Player::new(Vector3::new(500_000, 500_000, 0));
    p.dir = Vector2::new(FX_SCALE, 0);
    p.action = Action::Open;
    p.update(&mut map, 33_333, Rot2 { cos: FX_SCALE, sin: 0 });
    match map.get_cell(2, 0, 0) {
        Cell::Thin(t) => assert!(!t.shut),
        _ => panic!("door vanished"),
    }
    assert_eq!(p.action, Action::Idle);
}

#[test]
fn open_does_not_trigger_past_reach() {
    let mut map = open_map(5, 5);
    set_cell(&mut map, 2, 0, door());
    // one raw step further away: distance 1.500001 > 1.5
    let mut p = Player::new(Vector3::new(499_999, 500_000, 0));
    p.dir = Vector2::new(FX_SCALE, 0);
    p.action = Action::Open;
    p.update(&mut map, 33_333, Rot2 { cos: FX_SCALE, sin: 0 });
    match map.get_cell(2, 0, 0) {
        Cell::Thin(t) => assert!(t.shut),
        _ => panic!("door vanished"),
    }
    assert_eq!(p.action, Action::Idle);
}

#[test]
fn portal_crossing_remaps_heading_and_round_trip_restores_it() {
    let a = PortalEnd { pos: Vector3::new(2_500_000, 2_500_000, 0), dir: Direction::East };
    let b = PortalEnd { pos: Vector3::new(7_500_000, 7_500_000, 0), dir: Direction::North };
    // crossing a -> b turns a quarter left; crossing back turns it undone
    let r1 = b.link_dir(&a);
    let r2 = a.link_dir(&b);
    let mut v = Vector2::new(900_000, 200_000);
    v.rotate(r1);
    assert_eq!((v.x, v.y), (-200_000, 900_000));
    v.rotate(r2);
    assert_eq!((v.x, v.y), (900_000, 200_000));
}

#[test]
fn portal_teleports_the_actor() {
    let mut map = open_map(10, 10);
    let a = PortalEnd { pos: Vector3::new(2_500_000, 500_000, 0), dir: Direction::East };
    let b = PortalEnd { pos: Vector3::new(7_500_000, 7_500_000, 0), dir: Direction::East };
    map.portals = vec![PortalPair { a, b }];
    let mut p = Player::new(Vector3::new(1_900_000, 500_000, 0));
    p.dir = Vector2::new(FX_SCALE, 0);
    p.velocity.x = WALK_SPEED;
    // speed 0.4: tentative x = 2.3, inside the portal cell (2,0)
    p.update_pos(&map, 100_000);
    // same-direction link: no turn; exit carries the offset from the source
    assert_eq!(p.dir.x, FX_SCALE);
    assert_eq!(p.dir.y, 0);
    // offset at entry: (1.9 - 2.5, 0.5 - 0.5) = (-0.6, 0); exit at
    // (7.5 - 0.6, 7.5) plus the frame's forward travel (0.4, 0)
    assert_eq!(p.pos.x, 7_300_000);
    assert_eq!(p.pos.y, 7_500_000);
    assert_eq!(p.pos.z, 0);
}

#[test]
fn handle_inputs_drives_actions() {
    let mut p = Player::new(Vector3::new(0, 0, 0));
    p.handle_inputs(InputKey::Up, true);
    assert_eq!(p.velocity.x, WALK_SPEED);
    assert_eq!(p.action, Action::MoveForward);
    p.handle_inputs(InputKey::Run, true);
    assert_eq!(p.velocity.x, 2 * WALK_SPEED);
    assert_eq!(p.action, Action::Run);
    p.handle_inputs(InputKey::Run, false);
    assert_eq!(p.velocity.x, WALK_SPEED);
    assert_eq!(p.action, Action::Idle);
    p.handle_inputs(InputKey::Up, false);
    assert_eq!(p.velocity.x, 0);
    p.handle_inputs(InputKey::Right, true);
    assert_eq!(p.rotation.x, TURN_RATE);
    assert_eq!(p.action, Action::LookRight);
    p.handle_inputs(InputKey::Right, false);
    p.handle_inputs(InputKey::Jump, true);
    assert_eq!(p.velocity.z, JUMP_SPEED);
    assert_eq!(p.action, Action::Jump);
    p.handle_inputs(InputKey::Open, true);
    assert_eq!(p.action, Action::Open);
}

#[test]
fn fixed_point_helpers() {
    assert_eq!(fx_cell(1_500_000), 1);
    assert_eq!(fx_cell(-500_000), -1);
    assert_eq!(fx_cell(-1_000_000), -1);
    assert_eq!(fx_fract(-500_000), 500_000);
    assert_eq!(fx_mul(2_000_000, 3_000_000), 6_000_000);
    assert_eq!(fx_mul(-1_500_000, 1_000_000), -1_500_000);
    assert_eq!(isqrt(2_000_000_000_000), 1_414_213);
    assert_eq!(isqrt(25), 5);
    assert_eq!(isqrt(24), 4);
}

#[test]
fn look_rotation_turns_dir_and_plane() {
    let mut p = Player::new(Vector3::new(500_000, 500_000, 0));
    p.rotation.x = TURN_RATE;
    // a quarter turn this tick: north becomes west
    p.update(&mut open_map(3, 3), 33_333, Rot2 { cos: 0, sin: FX_SCALE });
    assert_eq!((p.dir.x, p.dir.y), (-FX_SCALE, 0));
    assert_eq!((p.plane.x, p.plane.y), (0, -660_000));
}
