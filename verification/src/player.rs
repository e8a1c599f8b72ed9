use vstd::prelude::*;
use crate::cell::Cell;
use crate::direction::Direction;
use crate::fixed::{
    FX_SCALE,
    FX_MAX,
    POS_LIMIT,
    div_t,
    fx_cell_spec,
    fx_floor,
    fx_floor_spec,
    fx_fract,
    fx_fract_spec,
    fx_mul,
    fx_mul_spec,
    lemma_fx_mul_bound,
    lemma_fx_mul_unit,
};
use crate::ray::{Ray, RayHit, cast_spec, cast_dist_spec};
use crate::vector::{Vector2, Vector3, Rot2, rot_x_spec, rot_y_spec, rot_wf};
use crate::world::{WorldMap, find_portal_from, lemma_find_portal_from_props};

verus! {

/// Downward acceleration, map units per second squared.
pub const GRAVITY_ACCEL: i64 = -3_800_000;

/// Forward walking speed, map units per second.
pub const WALK_SPEED: i64 = 4_000_000;

/// Turning rate while looking, radians per second.
pub const TURN_RATE: i64 = 3_500_000;

/// Upward velocity a jump starts with, map units per second.
pub const JUMP_SPEED: i64 = 1_650_000;

/// How far an interaction ray may reach and still trigger its target.
pub const REACH: i64 = 1_500_000;

/// Cosine and sine of the fixed an-eighth-turn a combined move-and-turn
/// input applies to the facing alone, once per gesture.
pub const STRAFE_TURN_COS: i64 = 707_107;

pub const STRAFE_TURN_SIN: i64 = 707_107;

/// Largest facing/camera-plane component the resolver accepts.
pub const DIR_LIMIT: i64 = 16_000_000;

/// Largest velocity or turning-rate magnitude the resolver accepts.
pub const VEL_LIMIT: i64 = 100_000_000;

/// Largest time step the resolver accepts (ten seconds).
pub const DELTA_MAX: i64 = 10_000_000;

/// The discrete input state an actor is in.
#[derive(Clone, Copy, Debug, Eq, PartialEq, Structural)]
pub enum Action {
    Idle,
    LookLeft,
    LookRight,
    MoveForward,
    MoveBackward,
    Run,
    Open,
    Jump,
    Strafe,
}

/// The abstract keys the input shell reports; each maps to exactly one
/// action transition.
#[derive(Clone, Copy, Debug, Eq, PartialEq, Structural)]
pub enum InputKey {
    Up,
    Down,
    Left,
    Right,
    Run,
    Open,
    Jump,
    Strafe,
}

/// The actor: position, facing, camera plane, motion state.
#[derive(Clone, Copy, Debug, Eq, PartialEq, Structural)]
pub struct Player {
    pub pos: Vector3,
    pub dir: Vector2,
    pub plane: Vector2,
    pub frame: u32,
    pub gravity: i64,
    pub velocity: Vector3,
    pub rotation: Vector2,
    pub action: Action,
}

/// `a` and `b` lie strictly on opposite sides of `limit`.
pub open spec fn crosses(a: int, b: int, limit: int) -> bool {
    (a > limit && b < limit) || (a < limit && b > limit)
}

/// The blocking plane of a thin wall restricting X, within its cell.
pub open spec fn thin_limit_x(x_coord: int, dir: Direction, depth: int) -> int {
    x_coord + if dir == Direction::East {
        depth
    } else {
        FX_SCALE - depth
    }
}

/// The blocking plane of a thin wall restricting Y, within its cell.
pub open spec fn thin_limit_y(y_coord: int, dir: Direction, depth: int) -> int {
    y_coord + if dir == Direction::North {
        depth
    } else {
        FX_SCALE - depth
    }
}

/// Whether a thin wall lets an X move from `px` to `new_x` through: walls
/// whose orientation is under light restrict only Y, so X is free; otherwise
/// the move may not cross the blocking plane while the actor's fractional
/// Y offset is below the slide threshold.
pub open spec fn x_thin_allows(
    px: int,
    py: int,
    new_x: int,
    x_coord: int,
    dir: Direction,
    slide: int,
    depth: int,
) -> bool {
    if dir.is_under_light_spec() {
        true
    } else {
        !(crosses(px, new_x, thin_limit_x(x_coord, dir, depth)) && fx_fract_spec(py) < slide)
    }
}

/// The Y counterpart of `x_thin_allows`.
pub open spec fn y_thin_allows(
    px: int,
    py: int,
    new_y: int,
    y_coord: int,
    dir: Direction,
    slide: int,
    depth: int,
) -> bool {
    if !dir.is_under_light_spec() {
        true
    } else {
        !(crosses(py, new_y, thin_limit_y(y_coord, dir, depth)) && fx_fract_spec(px) < slide)
    }
}

/// Resulting X after resolving the X axis of a tentative move at `(px, py,
/// pz)` toward `new_x`: empty targets are entered unless the current cell is
/// a shut thin wall that forbids it; wall targets only from at or above
/// their top; thin targets under their own sliding rule.
pub open spec fn x_step_spec(m: WorldMap, px: int, py: int, pz: int, new_x: int) -> int {
    match m.cell_at(fx_cell_spec(new_x), fx_cell_spec(py), fx_cell_spec(pz)) {
        Cell::Empty => match m.cell_at(fx_cell_spec(px), fx_cell_spec(py), fx_cell_spec(pz)) {
            Cell::Thin(t) => if !t.shut {
                new_x
            } else if x_thin_allows(
                px,
                py,
                new_x,
                fx_floor_spec(px),
                t.dir,
                t.slide as int,
                t.depth as int,
            ) {
                new_x
            } else {
                px
            },
            _ => new_x,
        },
        Cell::Wall { value, height } => if pz >= fx_floor_spec(pz) + height {
            new_x
        } else {
            px
        },
        Cell::Thin(t) => if !t.shut {
            new_x
        } else if x_thin_allows(
            px,
            py,
            new_x,
            fx_floor_spec(new_x),
            t.dir,
            t.slide as int,
            t.depth as int,
        ) {
            new_x
        } else {
            px
        },
    }
}

/// The Y counterpart of `x_step_spec`; it sees the X already resolved.
pub open spec fn y_step_spec(m: WorldMap, px: int, py: int, pz: int, new_y: int) -> int {
    match m.cell_at(fx_cell_spec(px), fx_cell_spec(new_y), fx_cell_spec(pz)) {
        Cell::Empty => match m.cell_at(fx_cell_spec(px), fx_cell_spec(py), fx_cell_spec(pz)) {
            Cell::Thin(t) => if !t.shut {
                new_y
            } else if y_thin_allows(
                px,
                py,
                new_y,
                fx_floor_spec(py),
                t.dir,
                t.slide as int,
                t.depth as int,
            ) {
                new_y
            } else {
                py
            },
            _ => new_y,
        },
        Cell::Wall { value, height } => if pz >= fx_floor_spec(pz) + height {
            new_y
        } else {
            py
        },
        Cell::Thin(t) => if !t.shut {
            new_y
        } else if y_thin_allows(
            px,
            py,
            new_y,
            fx_floor_spec(new_y),
            t.dir,
            t.slide as int,
            t.depth as int,
        ) {
            new_y
        } else {
            py
        },
    }
}

/// The vertical velocity after one time step of gravity: a gravity step
/// accelerates the velocity first, and the tentative height then integrates
/// the updated velocity.
pub open spec fn gravity_accel_vz(p: Player, delta: int) -> int {
    p.velocity.z + fx_mul_spec(p.gravity as int, delta)
}

/// The tentative height of one gravity step: the current height plus one
/// time step of the freshly accelerated velocity.
pub open spec fn gravity_future_z(p: Player, delta: int) -> int {
    p.pos.z + fx_mul_spec(gravity_accel_vz(p, delta), delta)
}

/// Vertical position after one gravity step: clamp the tentative height at
/// the ground plane, else stand on the top of the wall the actor is inside
/// of, else land on the platform directly under the tentative height.
pub open spec fn gravity_z_spec(p: Player, m: WorldMap, delta: int) -> int {
    let fz = gravity_future_z(p, delta);
    if fz < 0 {
        0
    } else {
        match m.cell_at_pos(p.pos) {
            Cell::Wall { value, height } => if fz <= fx_floor_spec(p.pos.z as int) + height {
                fx_floor_spec(p.pos.z as int) + height
            } else {
                fz
            },
            Cell::Empty => {
                let under = m.cell_at(
                    fx_cell_spec(p.pos.x as int),
                    fx_cell_spec(p.pos.y as int),
                    fx_cell_spec(fz),
                );
                if fz <= fx_floor_spec(fz) + under.height_spec() {
                    fx_floor_spec(fz) + under.height_spec()
                } else {
                    fz
                }
            },
            Cell::Thin(t) => fz,
        }
    }
}

/// Vertical velocity after one gravity step: accelerated by gravity, zeroed
/// whenever the position was clamped.
pub open spec fn gravity_vz_spec(p: Player, m: WorldMap, delta: int) -> int {
    let fz = gravity_future_z(p, delta);
    let accel = gravity_accel_vz(p, delta);
    if fz < 0 {
        0
    } else {
        match m.cell_at_pos(p.pos) {
            Cell::Wall { value, height } => if fz <= fx_floor_spec(p.pos.z as int) + height {
                0
            } else {
                accel
            },
            Cell::Empty => {
                let under = m.cell_at(
                    fx_cell_spec(p.pos.x as int),
                    fx_cell_spec(p.pos.y as int),
                    fx_cell_spec(fz),
                );
                if fz <= fx_floor_spec(fz) + under.height_spec() {
                    0
                } else {
                    accel
                }
            },
            Cell::Thin(t) => accel,
        }
    }
}

/// The whole actor after one gravity step.
pub open spec fn gravity_step_spec(p: Player, m: WorldMap, delta: int) -> Player {
    Player {
        pos: Vector3 { x: p.pos.x, y: p.pos.y, z: gravity_z_spec(p, m, delta) as i64 },
        velocity: Vector3 {
            x: p.velocity.x,
            y: p.velocity.y,
            z: gravity_vz_spec(p, m, delta) as i64,
        },
        dir: p.dir,
        plane: p.plane,
        frame: p.frame,
        gravity: p.gravity,
        rotation: p.rotation,
        action: p.action,
    }
}

/// The actor after rotating facing and camera plane together.
pub open spec fn dir_plane_step_spec(p: Player, r: Rot2) -> Player {
    Player {
        dir: Vector2 {
            x: rot_x_spec(p.dir.x as int, p.dir.y as int, r) as i64,
            y: rot_y_spec(p.dir.x as int, p.dir.y as int, r) as i64,
        },
        plane: Vector2 {
            x: rot_x_spec(p.plane.x as int, p.plane.y as int, r) as i64,
            y: rot_y_spec(p.plane.x as int, p.plane.y as int, r) as i64,
        },
        pos: p.pos,
        frame: p.frame,
        gravity: p.gravity,
        velocity: p.velocity,
        rotation: p.rotation,
        action: p.action,
    }
}

/// The actor after the once-per-gesture facing-only turn: latched by the
/// `Strafe` action, the camera plane stays.
pub open spec fn dir_only_step_spec(p: Player, r: Rot2) -> Player {
    if p.action == Action::Strafe {
        p
    } else {
        Player {
            dir: Vector2 {
                x: rot_x_spec(p.dir.x as int, p.dir.y as int, r) as i64,
                y: rot_y_spec(p.dir.x as int, p.dir.y as int, r) as i64,
            },
            action: Action::Strafe,
            pos: p.pos,
            plane: p.plane,
            frame: p.frame,
            gravity: p.gravity,
            velocity: p.velocity,
            rotation: p.rotation,
        }
    }
}

/// The actor after one horizontal move, portals included: with no portal at
/// the tentative coarse coordinate, X then Y are resolved independently in
/// that fixed order; with a portal, the actor is re-oriented by the link and
/// continues from the exit by the same frame's travel.
pub open spec fn move_pos_spec(p: Player, m: WorldMap, delta: int) -> Player {
    let speed = fx_mul_spec(p.velocity.x as int, delta);
    let nx = p.pos.x + fx_mul_spec(p.dir.x as int, speed);
    let ny = p.pos.y + fx_mul_spec(p.dir.y as int, speed);
    match find_portal_from(
        m.portals@,
        0,
        fx_cell_spec(nx),
        fx_cell_spec(ny),
        fx_cell_spec(p.pos.z as int),
        Direction::Neutral,
    ) {
        Option::None => {
            let x1 = x_step_spec(m, p.pos.x as int, p.pos.y as int, p.pos.z as int, nx);
            let y1 = y_step_spec(m, x1, p.pos.y as int, p.pos.z as int, ny);
            Player {
                pos: Vector3 { x: x1 as i64, y: y1 as i64, z: p.pos.z },
                dir: p.dir,
                plane: p.plane,
                frame: p.frame,
                gravity: p.gravity,
                velocity: p.velocity,
                rotation: p.rotation,
                action: p.action,
            }
        },
        Option::Some(pr) => {
            let rot = pr.1.link_rot_spec(pr.0);
            let dx = rot_x_spec(p.dir.x as int, p.dir.y as int, rot);
            let dy = rot_y_spec(p.dir.x as int, p.dir.y as int, rot);
            let px = pr.1.link_x_sp(pr.0, p.pos) + fx_mul_spec(dx, speed);
            let py = pr.1.link_y_sp(pr.0, p.pos) + fx_mul_spec(dy, speed);
            Player {
                pos: Vector3 { x: px as i64, y: py as i64, z: pr.1.pos.z },
                dir: Vector2 { x: dx as i64, y: dy as i64 },
                plane: Vector2 {
                    x: rot_x_spec(p.plane.x as int, p.plane.y as int, rot) as i64,
                    y: rot_y_spec(p.plane.x as int, p.plane.y as int, rot) as i64,
                },
                frame: p.frame,
                gravity: p.gravity,
                velocity: p.velocity,
                rotation: p.rotation,
                action: p.action,
            }
        },
    }
}

impl Player {
    /// Motion magnitudes and orientation components are in range.
    pub open spec fn wf(self) -> bool {
        &&& -DIR_LIMIT <= self.dir.x <= DIR_LIMIT
        &&& -DIR_LIMIT <= self.dir.y <= DIR_LIMIT
        &&& -DIR_LIMIT <= self.plane.x <= DIR_LIMIT
        &&& -DIR_LIMIT <= self.plane.y <= DIR_LIMIT
        &&& -VEL_LIMIT <= self.velocity.x <= VEL_LIMIT
        &&& -VEL_LIMIT <= self.velocity.y <= VEL_LIMIT
        &&& -VEL_LIMIT <= self.velocity.z <= VEL_LIMIT
        &&& -VEL_LIMIT <= self.rotation.x <= VEL_LIMIT
        &&& -VEL_LIMIT <= self.rotation.y <= VEL_LIMIT
        &&& -VEL_LIMIT <= self.gravity <= VEL_LIMIT
    }

    /// The actor's position is within the resolver's coordinate range.
    pub open spec fn pos_ok(self) -> bool {
        &&& -POS_LIMIT <= self.pos.x <= POS_LIMIT
        &&& -POS_LIMIT <= self.pos.y <= POS_LIMIT
        &&& -POS_LIMIT <= self.pos.z <= POS_LIMIT
    }

    /// A fresh actor at `pos`: facing north (east turned a quarter left),
    /// standard camera plane, at rest.
    pub fn new(pos: Vector3) -> (p: Player)
        requires
            -POS_LIMIT <= pos.x <= POS_LIMIT,
            -POS_LIMIT <= pos.y <= POS_LIMIT,
            -POS_LIMIT <= pos.z <= POS_LIMIT,
        ensures
            p.pos == pos,
            p.dir.x == 0 && p.dir.y == FX_SCALE,
            p.plane.x == -660_000 && p.plane.y == 0,
            p.frame == 0,
            p.gravity == GRAVITY_ACCEL,
            p.velocity.x == 0 && p.velocity.y == 0 && p.velocity.z == 0,
            p.rotation.x == 0 && p.rotation.y == 0,
            p.action == Action::Idle,
            p.wf(),
            p.pos_ok(),
    {
        let mut player = Player {
            pos,
            dir: Vector2::new(FX_SCALE, 0),
            plane: Vector2::new(0, 660_000),
            frame: 0,
            gravity: GRAVITY_ACCEL,
            velocity: Vector3::default(),
            rotation: Vector2::default(),
            action: Action::Idle,
        };
        proof {
            lemma_fx_mul_unit(FX_SCALE as int);
            lemma_fx_mul_unit(0);
            lemma_fx_mul_unit(660_000);
        }
        player.update_dir_plane(Rot2 { cos: 0, sin: FX_SCALE });
        player
    }

    /// Rotate facing and camera plane together by `r`.
    pub fn update_dir_plane(&mut self, r: Rot2)
        requires
            rot_wf(r),
            -FX_MAX <= old(self).dir.x <= FX_MAX,
            -FX_MAX <= old(self).dir.y <= FX_MAX,
            -FX_MAX <= old(self).plane.x <= FX_MAX,
            -FX_MAX <= old(self).plane.y <= FX_MAX,
        ensures
            *final(self) == dir_plane_step_spec(*old(self), r),
    {
        self.dir.rotate(r);
        self.plane.rotate(r);
    }

    /// Rotate the facing alone by `r`, once per combined-input gesture: the
    /// `Strafe` action latches until the input shell resets it.
    pub fn update_dir_only(&mut self, r: Rot2)
        requires
            rot_wf(r),
            -FX_MAX <= old(self).dir.x <= FX_MAX,
            -FX_MAX <= old(self).dir.y <= FX_MAX,
        ensures
            *final(self) == dir_only_step_spec(*old(self), r),
    {
        if !matches!(self.action, Action::Strafe) {
            self.action = Action::Strafe;
            self.dir.rotate(r);
        }
    }

    /// Apply one abstract key press or release: each key makes exactly one
    /// action transition together with its velocity or turning-rate
    /// assignment. As long as the forward velocity and turning rate stay
    /// within half their caps — every value the key table itself writes
    /// does, doubling included — the actor stays well-formed, so key events
    /// chain from the contract alone.
    pub fn handle_inputs(&mut self, key: InputKey, pressed: bool)
        requires
            old(self).wf(),
        ensures
            *final(self) == input_step_spec(*old(self), key, pressed),
            (-VEL_LIMIT / 2 <= old(self).velocity.x <= VEL_LIMIT / 2 && -VEL_LIMIT / 2 <= old(
                self,
            ).rotation.x <= VEL_LIMIT / 2) ==> final(self).wf(),
    {
        match key {
            InputKey::Up => {
                if pressed {
                    if matches!(self.action, Action::Idle) {
                        self.velocity.x = WALK_SPEED;
                        self.action = Action::MoveForward;
                    }
                } else {
                    self.velocity.x = 0;
                    self.action = Action::Idle;
                }
            },
            InputKey::Down => {
                if pressed {
                    if matches!(self.action, Action::Idle) {
                        self.velocity.x = -WALK_SPEED;
                        self.action = Action::MoveBackward;
                    }
                } else {
                    self.velocity.x = 0;
                    self.action = Action::Idle;
                }
            },
            InputKey::Left => {
                if pressed {
                    if matches!(self.action, Action::Idle) {
                        self.rotation.x = -TURN_RATE;
                        self.action = Action::LookLeft;
                    }
                } else {
                    self.rotation.x = 0;
                    self.action = Action::Idle;
                }
            },
            InputKey::Right => {
                if pressed {
                    if matches!(self.action, Action::Idle) {
                        self.rotation.x = TURN_RATE;
                        self.action = Action::LookRight;
                    }
                } else {
                    self.rotation.x = 0;
                    self.action = Action::Idle;
                }
            },
            InputKey::Run => {
                if pressed {
                    if matches!(self.action, Action::MoveForward | Action::MoveBackward) {
                        self.velocity.x = self.velocity.x * 2;
                        self.action = Action::Run;
                    } else if matches!(self.action, Action::LookLeft | Action::LookRight) {
                        self.rotation.x = self.rotation.x * 2;
                        self.action = Action::Run;
                    }
                } else {
                    self.velocity.x = self.velocity.x / 2;
                    self.rotation.x = self.rotation.x / 2;
                    self.action = Action::Idle;
                }
            },
            InputKey::Strafe => {
                if pressed {
                    self.rotation.x = -FX_SCALE;
                    self.velocity.x = FX_SCALE;
                } else {
                    self.velocity.x = 0;
                    self.rotation.x = 0;
                    self.action = Action::Idle;
                }
            },
            InputKey::Jump => {
                if pressed && self.velocity.z == 0 {
                    self.velocity.z = JUMP_SPEED;
                    self.action = Action::Jump;
                } else {
                    self.action = Action::Idle;
                }
            },
            InputKey::Open => {
                self.action = Action::Open;
            },
        }
    }

    /// One gravity step: accelerate the vertical velocity, integrate it
    /// into a tentative height, then clamp at the ground plane, stand on
    /// the wall the actor is inside of, or land on the platform directly
    /// under the tentative height.
    pub fn update_gravity(&mut self, map: &WorldMap, delta: i64)
        requires
            old(self).wf(),
            old(self).pos_ok(),
            map.wf(),
            0 <= delta <= DELTA_MAX,
        ensures
            *final(self) == gravity_step_spec(*old(self), *map, delta as int),
            -200_000_000_000 <= final(self).pos.z <= 200_000_000_000,
            -2_000_000_000 <= final(self).velocity.z <= 2_000_000_000,
    {
        proof {
            lemma_fx_mul_bound(self.gravity as int, delta as int, VEL_LIMIT as int, DELTA_MAX as int);
        }
        self.velocity.z = self.velocity.z + fx_mul(self.gravity, delta);
        proof {
            lemma_fx_mul_bound(
                self.velocity.z as int,
                delta as int,
                2_000_000_000int,
                DELTA_MAX as int,
            );
        }
        let mut future_z: i64 = self.pos.z + fx_mul(self.velocity.z, delta);
        let inside_wall: Cell = map.get(&self.pos);
        let future_under_wall: Cell = map.get(
            &Vector3::new(self.pos.x, self.pos.y, future_z),
        );
        if future_z < 0 {
            self.velocity.z = 0;
            self.pos.z = 0;
        } else {
            match inside_wall {
                Cell::Wall { value, height } => {
                    let top: i64 = fx_floor(self.pos.z) + height;
                    if future_z <= top {
                        future_z = top;
                        self.velocity.z = 0;
                    }
                },
                Cell::Empty => {
                    let top: i64 = fx_floor(future_z) + future_under_wall.height();
                    if future_z <= top {
                        future_z = top;
                        self.velocity.z = 0;
                    }
                },
                _ => {},
            }
            self.pos.z = future_z;
        }
    }

    /// Resolve an X move inside or into a thin wall: the wall's sliding
    /// rule decides whether the move goes through.
    pub fn move_x_in_thin_wall(
        &mut self,
        x_coord: i64,
        new_x: i64,
        dir: Direction,
        slide: i64,
        depth: i64,
    )
        requires
            -FX_MAX <= old(self).pos.y <= FX_MAX,
            -FX_MAX <= x_coord <= FX_MAX,
            0 <= depth <= FX_SCALE,
        ensures
            final(self).pos.x == (if x_thin_allows(
                old(self).pos.x as int,
                old(self).pos.y as int,
                new_x as int,
                x_coord as int,
                dir,
                slide as int,
                depth as int,
            ) {
                new_x
            } else {
                old(self).pos.x
            }),
            final(self).pos.y == old(self).pos.y,
            final(self).pos.z == old(self).pos.z,
            final(self).dir == old(self).dir,
            final(self).plane == old(self).plane,
            final(self).frame == old(self).frame,
            final(self).gravity == old(self).gravity,
            final(self).velocity == old(self).velocity,
            final(self).rotation == old(self).rotation,
            final(self).action == old(self).action,
    {
        if dir.is_under_light() {
            self.pos.x = new_x;
        } else {
            let limit: i64 = x_coord + (if matches!(dir, Direction::East) {
                depth
            } else {
                FX_SCALE - depth
            });
            let relative_pos_y: i64 = fx_fract(self.pos.y);
            if (self.pos.x > limit && new_x < limit || self.pos.x < limit && new_x > limit)
                && relative_pos_y < slide {
                return ;
            }
            self.pos.x = new_x;
        }
    }

    /// Resolve a Y move inside or into a thin wall, as `move_x_in_thin_wall`.
    pub fn move_y_in_thin_wall(
        &mut self,
        y_coord: i64,
        new_y: i64,
        dir: Direction,
        slide: i64,
        depth: i64,
    )
        requires
            -FX_MAX <= old(self).pos.x <= FX_MAX,
            -FX_MAX <= y_coord <= FX_MAX,
            0 <= depth <= FX_SCALE,
        ensures
            final(self).pos.y == (if y_thin_allows(
                old(self).pos.x as int,
                old(self).pos.y as int,
                new_y as int,
                y_coord as int,
                dir,
                slide as int,
                depth as int,
            ) {
                new_y
            } else {
                old(self).pos.y
            }),
            final(self).pos.x == old(self).pos.x,
            final(self).pos.z == old(self).pos.z,
            final(self).dir == old(self).dir,
            final(self).plane == old(self).plane,
            final(self).frame == old(self).frame,
            final(self).gravity == old(self).gravity,
            final(self).velocity == old(self).velocity,
            final(self).rotation == old(self).rotation,
            final(self).action == old(self).action,
    {
        if !dir.is_under_light() {
            self.pos.y = new_y;
        } else {
            let limit: i64 = y_coord + (if matches!(dir, Direction::North) {
                depth
            } else {
                FX_SCALE - depth
            });
            let relative_pos_x: i64 = fx_fract(self.pos.x);
            if (self.pos.y > limit && new_y < limit || self.pos.y < limit && new_y > limit)
                && relative_pos_x < slide {
                return ;
            }
            self.pos.y = new_y;
        }
    }
}

impl Player {
    /// One horizontal movement step, portals included: X resolved before Y,
    /// each axis independently, against the map's cells.
    pub fn update_pos(&mut self, map: &WorldMap, delta: i64)
        requires
            -VEL_LIMIT <= old(self).velocity.x <= VEL_LIMIT,
            -DIR_LIMIT <= old(self).dir.x <= DIR_LIMIT,
            -DIR_LIMIT <= old(self).dir.y <= DIR_LIMIT,
            -DIR_LIMIT <= old(self).plane.x <= DIR_LIMIT,
            -DIR_LIMIT <= old(self).plane.y <= DIR_LIMIT,
            -POS_LIMIT <= old(self).pos.x <= POS_LIMIT,
            -POS_LIMIT <= old(self).pos.y <= POS_LIMIT,
            -200_000_000_000 <= old(self).pos.z <= 200_000_000_000,
            map.wf(),
            0 <= delta <= DELTA_MAX,
        ensures
            *final(self) == move_pos_spec(*old(self), *map, delta as int),
            -2 * DIR_LIMIT <= final(self).dir.x <= 2 * DIR_LIMIT,
            -2 * DIR_LIMIT <= final(self).dir.y <= 2 * DIR_LIMIT,
    {
        proof {
            lemma_fx_mul_bound(
                self.velocity.x as int,
                delta as int,
                VEL_LIMIT as int,
                DELTA_MAX as int,
            );
        }
        let speed: i64 = fx_mul(self.velocity.x, delta);
        proof {
            lemma_fx_mul_bound(self.dir.x as int, speed as int, DIR_LIMIT as int, 1_000_000_000int);
            lemma_fx_mul_bound(self.dir.y as int, speed as int, DIR_LIMIT as int, 1_000_000_000int);
        }
        let new_x: i64 = self.pos.x + fx_mul(self.dir.x, speed);
        let new_y: i64 = self.pos.y + fx_mul(self.dir.y, speed);
        match map.portals_at(&Vector3::new(new_x, new_y, self.pos.z), Direction::Neutral) {
            Option::None => {
                let target_x: Cell = map.get(&Vector3::new(new_x, self.pos.y, self.pos.z));
                match target_x {
                    Cell::Empty => {
                        match map.get(&self.pos) {
                            Cell::Thin(t) => {
                                if !t.shut {
                                    self.pos.x = new_x;
                                } else {
                                    let xc: i64 = fx_floor(self.pos.x);
                                    self.move_x_in_thin_wall(xc, new_x, t.dir, t.slide, t.depth);
                                }
                            },
                            _ => {
                                self.pos.x = new_x;
                            },
                        }
                    },
                    Cell::Wall { value, height } => {
                        if self.pos.z >= fx_floor(self.pos.z) + height {
                            self.pos.x = new_x;
                        }
                    },
                    Cell::Thin(t) => {
                        if !t.shut {
                            self.pos.x = new_x;
                        } else {
                            let xc: i64 = fx_floor(new_x);
                            self.move_x_in_thin_wall(xc, new_x, t.dir, t.slide, t.depth);
                        }
                    },
                }
                let target_y: Cell = map.get(&Vector3::new(self.pos.x, new_y, self.pos.z));
                match target_y {
                    Cell::Empty => {
                        match map.get(&self.pos) {
                            Cell::Thin(t) => {
                                if !t.shut {
                                    self.pos.y = new_y;
                                } else {
                                    let yc: i64 = fx_floor(self.pos.y);
                                    self.move_y_in_thin_wall(yc, new_y, t.dir, t.slide, t.depth);
                                }
                            },
                            _ => {
                                self.pos.y = new_y;
                            },
                        }
                    },
                    Cell::Wall { value, height } => {
                        if self.pos.z >= fx_floor(self.pos.z) + height {
                            self.pos.y = new_y;
                        }
                    },
                    Cell::Thin(t) => {
                        if !t.shut {
                            self.pos.y = new_y;
                        } else {
                            let yc: i64 = fx_floor(new_y);
                            self.move_y_in_thin_wall(yc, new_y, t.dir, t.slide, t.depth);
                        }
                    },
                }
            },
            Option::Some((first, second)) => {
                proof {
                    lemma_find_portal_from_props(
                        map.portals@,
                        0,
                        fx_cell_spec(new_x as int),
                        fx_cell_spec(new_y as int),
                        fx_cell_spec(self.pos.z as int),
                        Direction::Neutral,
                    );
                }
                match (first, second) {
                    (Option::Some(source), Option::Some(dest)) => {
                        let tmp: Vector3 = self.pos;
                        let ghost d0 = self.dir;
                        let rot: Rot2 = dest.link_dir(&source);
                        self.update_dir_plane(rot);
                        proof {
                            crate::vector::lemma_fx_mul_contract(
                                d0.x as int,
                                rot.cos as int,
                                DIR_LIMIT as int,
                            );
                            crate::vector::lemma_fx_mul_contract(
                                d0.y as int,
                                rot.sin as int,
                                DIR_LIMIT as int,
                            );
                            crate::vector::lemma_fx_mul_contract(
                                d0.x as int,
                                rot.sin as int,
                                DIR_LIMIT as int,
                            );
                            crate::vector::lemma_fx_mul_contract(
                                d0.y as int,
                                rot.cos as int,
                                DIR_LIMIT as int,
                            );
                            lemma_fx_mul_bound(
                                self.dir.x as int,
                                speed as int,
                                2 * DIR_LIMIT as int,
                                1_000_000_000int,
                            );
                            lemma_fx_mul_bound(
                                self.dir.y as int,
                                speed as int,
                                2 * DIR_LIMIT as int,
                                1_000_000_000int,
                            );
                        }
                        proof {
                            crate::vector::lemma_fx_mul_contract(
                                tmp.x - source.pos.x,
                                rot.cos as int,
                                2 * POS_LIMIT as int,
                            );
                            crate::vector::lemma_fx_mul_contract(
                                tmp.x - source.pos.x,
                                rot.sin as int,
                                2 * POS_LIMIT as int,
                            );
                            crate::vector::lemma_fx_mul_contract(
                                tmp.y - source.pos.y,
                                rot.cos as int,
                                2 * POS_LIMIT as int,
                            );
                            crate::vector::lemma_fx_mul_contract(
                                tmp.y - source.pos.y,
                                rot.sin as int,
                                2 * POS_LIMIT as int,
                            );
                        }
                        let lx: i64 = dest.link_x(&source, &tmp);
                        let ly: i64 = dest.link_y(&source, &tmp);
                        self.pos.x = lx + fx_mul(self.dir.x, speed);
                        self.pos.y = ly + fx_mul(self.dir.y, speed);
                        self.pos.z = dest.pos.z;
                    },
                    _ => {
                        proof {
                            assert(false);
                        }
                    },
                }
            },
        }
    }

    /// One full simulation tick: an `Open` action casts an interaction ray
    /// and triggers its target within reach; gravity integrates the
    /// vertical axis; then the actor moves, turns, or both, per the input
    /// state. `turn` is this tick's look rotation (the rotation rate times
    /// the time step), supplied by the caller.
    pub fn update(&mut self, map: &mut WorldMap, delta: i64, turn: Rot2)
        requires
            old(self).wf(),
            old(self).pos_ok(),
            old(map).wf(),
            0 <= delta <= DELTA_MAX,
            rot_wf(turn),
        ensures
            ({
                let h = cast_spec(*old(map), old(self).pos, old(self).dir);
                let zc = fx_cell_spec(old(self).pos.z as int);
                match h {
                    Option::Some(hit) => {
                        if old(self).action == Action::Open && cast_dist_spec(
                            old(self).dir,
                            hit,
                        ) <= REACH {
                            &&& final(map).wf()
                            &&& final(map).size_x == old(map).size_x
                            &&& final(map).size_y == old(map).size_y
                            &&& final(map).size_z == old(map).size_z
                            &&& final(map).portals == old(map).portals
                            &&& final(map).cell_at(hit.cx, hit.cy, zc) == old(map).cell_at(
                                hit.cx,
                                hit.cy,
                                zc,
                            ).trigger_spec()
                            &&& forall|ax: int, ay: int, az: int|
                                (ax != hit.cx || ay != hit.cy || az != zc) ==> final(map).cell_at(
                                    ax,
                                    ay,
                                    az,
                                ) == old(map).cell_at(ax, ay, az)
                        } else {
                            *final(map) == *old(map)
                        }
                    },
                    Option::None => *final(map) == *old(map),
                }
            }),
            *final(self) == update_player_spec(*old(self), *final(map), delta as int, turn),
    {
        if matches!(self.action, Action::Open) {
            let ray: Ray = Ray::new(self, Vector2::default());
            let hit: RayHit = ray.cast(map);
            if hit.value.is_some() {
                if hit.dist <= REACH {
                    map.trigger_cell(hit.cell_x, hit.cell_y, hit.cell_z);
                }
            }
            self.action = Action::Idle;
        }
        if self.velocity.z != 0 || self.pos.z > 0 {
            self.update_gravity(map, delta);
        }
        if self.velocity.x != 0 && self.rotation.x == 0 {
            self.update_pos(map, delta);
        } else if self.velocity.x == 0 && self.rotation.x != 0 {
            self.update_dir_plane(turn);
        } else if self.velocity.x != 0 && self.rotation.x != 0 {
            self.update_pos(map, delta);
            self.update_dir_only(Rot2 { cos: STRAFE_TURN_COS, sin: STRAFE_TURN_SIN });
        }
    }
}

/// The actor after one full tick, against the map as it stands after the
/// tick's interaction: the `Open` action resets to idle, gravity applies
/// when airborne or moving vertically, and exactly one of moving, turning,
/// or moving-with-a-latched-turn follows from the input state.
pub open spec fn update_player_spec(p: Player, m: WorldMap, delta: int, turn: Rot2) -> Player {
    let p1 = if p.action == Action::Open {
        with_action(p, Action::Idle)
    } else {
        p
    };
    let p2 = if p1.velocity.z != 0 || p1.pos.z > 0 {
        gravity_step_spec(p1, m, delta)
    } else {
        p1
    };
    if p2.velocity.x != 0 && p2.rotation.x == 0 {
        move_pos_spec(p2, m, delta)
    } else if p2.velocity.x == 0 && p2.rotation.x != 0 {
        dir_plane_step_spec(p2, turn)
    } else if p2.velocity.x != 0 && p2.rotation.x != 0 {
        dir_only_step_spec(
            move_pos_spec(p2, m, delta),
            Rot2 { cos: STRAFE_TURN_COS, sin: STRAFE_TURN_SIN },
        )
    } else {
        p2
    }
}

/// The actor after one abstract key event.
pub open spec fn input_step_spec(p: Player, key: InputKey, pressed: bool) -> Player {
    match key {
        InputKey::Up => if pressed {
            if p.action == Action::Idle {
                with_vx_action(p, WALK_SPEED, Action::MoveForward)
            } else {
                p
            }
        } else {
            with_vx_action(p, 0, Action::Idle)
        },
        InputKey::Down => if pressed {
            if p.action == Action::Idle {
                with_vx_action(p, (-WALK_SPEED) as i64, Action::MoveBackward)
            } else {
                p
            }
        } else {
            with_vx_action(p, 0, Action::Idle)
        },
        InputKey::Left => if pressed {
            if p.action == Action::Idle {
                with_rx_action(p, (-TURN_RATE) as i64, Action::LookLeft)
            } else {
                p
            }
        } else {
            with_rx_action(p, 0, Action::Idle)
        },
        InputKey::Right => if pressed {
            if p.action == Action::Idle {
                with_rx_action(p, TURN_RATE, Action::LookRight)
            } else {
                p
            }
        } else {
            with_rx_action(p, 0, Action::Idle)
        },
        InputKey::Run => if pressed {
            if p.action == Action::MoveForward || p.action == Action::MoveBackward {
                with_vx_action(p, (2 * p.velocity.x) as i64, Action::Run)
            } else if p.action == Action::LookLeft || p.action == Action::LookRight {
                with_rx_action(p, (2 * p.rotation.x) as i64, Action::Run)
            } else {
                p
            }
        } else {
            with_vx_rx_action(
                p,
                div_t(p.velocity.x as int, 2) as i64,
                div_t(p.rotation.x as int, 2) as i64,
                Action::Idle,
            )
        },
        InputKey::Strafe => if pressed {
            with_vx_rx(p, FX_SCALE, (-FX_SCALE) as i64)
        } else {
            with_vx_rx_action(p, 0, 0, Action::Idle)
        },
        InputKey::Jump => if pressed && p.velocity.z == 0 {
            with_vz_action(p, JUMP_SPEED, Action::Jump)
        } else {
            with_action(p, Action::Idle)
        },
        InputKey::Open => with_action(p, Action::Open),
    }
}

/// `p` with a new forward velocity and action.
pub open spec fn with_vx_action(p: Player, vx: i64, a: Action) -> Player {
    Player {
        velocity: Vector3 { x: vx, y: p.velocity.y, z: p.velocity.z },
        action: a,
        pos: p.pos,
        dir: p.dir,
        plane: p.plane,
        frame: p.frame,
        gravity: p.gravity,
        rotation: p.rotation,
    }
}

/// `p` with a new turning rate and action.
pub open spec fn with_rx_action(p: Player, rx: i64, a: Action) -> Player {
    Player {
        rotation: Vector2 { x: rx, y: p.rotation.y },
        action: a,
        pos: p.pos,
        dir: p.dir,
        plane: p.plane,
        frame: p.frame,
        gravity: p.gravity,
        velocity: p.velocity,
    }
}

/// `p` with a new forward velocity, turning rate and action.
pub open spec fn with_vx_rx_action(p: Player, vx: i64, rx: i64, a: Action) -> Player {
    with_rx_action(with_vx_action(p, vx, a), rx, a)
}

/// `p` with a new forward velocity and turning rate, action untouched.
pub open spec fn with_vx_rx(p: Player, vx: i64, rx: i64) -> Player {
    Player {
        velocity: Vector3 { x: vx, y: p.velocity.y, z: p.velocity.z },
        rotation: Vector2 { x: rx, y: p.rotation.y },
        action: p.action,
        pos: p.pos,
        dir: p.dir,
        plane: p.plane,
        frame: p.frame,
        gravity: p.gravity,
    }
}

/// `p` with a new vertical velocity and action.
pub open spec fn with_vz_action(p: Player, vz: i64, a: Action) -> Player {
    Player {
        velocity: Vector3 { x: p.velocity.x, y: p.velocity.y, z: vz },
        action: a,
        pos: p.pos,
        dir: p.dir,
        plane: p.plane,
        frame: p.frame,
        gravity: p.gravity,
        rotation: p.rotation,
    }
}

/// `p` with a new action only.
pub open spec fn with_action(p: Player, a: Action) -> Player {
    Player {
        action: a,
        pos: p.pos,
        dir: p.dir,
        plane: p.plane,
        frame: p.frame,
        gravity: p.gravity,
        velocity: p.velocity,
        rotation: p.rotation,
    }
}

} // verus!
