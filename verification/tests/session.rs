use wolf3d::cell::{Cell, ThinWall};
use wolf3d::direction::Direction;
use wolf3d::fixed::FX_SCALE;
use wolf3d::player::{Action, InputKey, Player, STRAFE_TURN_COS, STRAFE_TURN_SIN};
use wolf3d::portal::{PortalEnd, PortalPair};
use wolf3d::vector::{Rot2, Vector2, Vector3};
use wolf3d::world::WorldMap;

fn open_map(sx: usize, sy: usize) -> WorldMap {
    WorldMap {
        size_x: sx,
        size_y: sy,
        size_z: 1,
        cells: vec![Cell::Empty; sx * sy],
        portals: vec![],
    }
}

const NO_TURN: Rot2 = Rot2 { cos: 1_000_000, sin: 0 };

#[test]
fn jump_arc_returns_to_ground() {
    let mut map = open_map(4, 4);
    let mut p = Player::new(Vector3::new(500_000, 500_000, 0));
    p.handle_inputs(InputKey::Jump, true);
    assert_eq!(p.action, Action::Jump);
    let delta = FX_SCALE / 30;
    let mut rose = false;
    for _ in 0..60 {
        p.update(&mut map, delta, NO_TURN);
        assert!(p.pos.z >= 0);
        if p.pos.z > 0 {
            rose = true;
        }
    }
    assert!(rose);
    assert_eq!(p.pos.z, 0);
    assert_eq!(p.velocity.z, 0);
}

#[test]
fn combined_move_and_turn_latches_strafe() {
    let mut map = open_map(6, 6);
    let mut p = Player::new(Vector3::new(2_500_000, 2_500_000, 0));
    p.velocity.x = 1_000_000;
    p.rotation.x = -1_000_000;
    let d0 = p.dir;
    p.update(&mut map, FX_SCALE / 30, NO_TURN);
    // the facing-only turn applied once and the latch engaged
    assert_eq!(p.action, Action::Strafe);
    assert_ne!((p.dir.x, p.dir.y), (d0.x, d0.y));
    let d1 = p.dir;
    let y1 = p.pos.y;
    p.update(&mut map, FX_SCALE / 30, NO_TURN);
    // latched: the second tick moves but does not turn again
    assert_eq!(p.action, Action::Strafe);
    assert_eq!((p.dir.x, p.dir.y), (d1.x, d1.y));
    assert!(p.pos.y != y1);
    // the strafe turn constants describe an eighth of a full turn
    assert_eq!(STRAFE_TURN_COS, 707_107);
    assert_eq!(STRAFE_TURN_SIN, 707_107);
}

#[test]
fn portals_at_finds_the_matched_pair() {
    let mut map = open_map(10, 10);
    let a = PortalEnd { pos: Vector3::new(2_500_000, 1_500_000, 0), dir: Direction::East };
    let b = PortalEnd { pos: Vector3::new(8_500_000, 8_500_000, 0), dir: Direction::West };
    map.portals = vec![PortalPair { a, b }];
    // asking at b's cell with any direction gives (b, a)
    let r = map.portals_at(&Vector3::new(8_700_000, 8_100_000, 0), Direction::Neutral);
    let (src, dst) = r.expect("a crossing");
    assert_eq!(src.unwrap().pos.x, 8_500_000);
    assert_eq!(dst.unwrap().pos.x, 2_500_000);
    // a cell with no link
    assert!(map.portals_at(&Vector3::new(500_000, 500_000, 0), Direction::Neutral).is_none());
    // a direction filter that matches no endpoint
    assert!(map.portals_at(&Vector3::new(8_700_000, 8_100_000, 0), Direction::North).is_none());
}

#[test]
fn trigger_at_toggles_a_door_and_nothing_else() {
    let mut map = open_map(3, 3);
    let door = Cell::Thin(
        ThinWall { value: 2, dir: Direction::North, slide: 300_000, depth: 200_000, shut: true },
    );
    map.cells[1] = door; // cell (1,0)
    map.cells[4] = Cell::Wall { value: 6, height: 500_000 }; // cell (1,1)
    map.trigger_at(&Vector3::new(1_500_000, 500_000, 0));
    match map.get_cell(1, 0, 0) {
        Cell::Thin(t) => assert!(!t.shut),
        _ => panic!("door vanished"),
    }
    // a wall does not react, and other cells are untouched
    map.trigger_at(&Vector3::new(1_500_000, 1_500_000, 0));
    assert_eq!(map.get_cell(1, 1, 0), Cell::Wall { value: 6, height: 500_000 });
    assert_eq!(map.get_cell(0, 0, 0), Cell::Empty);
    // triggering twice shuts the door again
    map.trigger_at(&Vector3::new(1_500_000, 500_000, 0));
    match map.get_cell(1, 0, 0) {
        Cell::Thin(t) => assert!(t.shut),
        _ => panic!("door vanished"),
    }
}

#[test]
fn out_of_range_reads_are_empty() {
    let map = open_map(2, 2);
    assert_eq!(map.get(&Vector3::new(-500_000, 500_000, 0)), Cell::Empty);
    assert_eq!(map.get(&Vector3::new(500_000, 500_000, 5_000_000)), Cell::Empty);
    assert_eq!(map.get_cell(7, 0, 0), Cell::Empty);
}

#[test]
fn rotation_composes_quarter_turns_exactly() {
    let mut v = Vector2::new(660_000, -123_456);
    let quarter = Rot2 { cos: 0, sin: FX_SCALE };
    v.rotate(quarter);
    v.rotate(quarter);
    v.rotate(quarter);
    v.rotate(quarter);
    assert_eq!((v.x, v.y), (660_000, -123_456));
}
