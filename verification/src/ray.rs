use vstd::prelude::*;
use crate::cell::Cell;
use crate::fixed::{
    FX_SCALE,
    abs_i,
    sign_i,
    div_t,
    div_trunc,
    fx_cell,
    fx_cell_spec,
    fx_floor,
    fx_floor_spec,
    isqrt,
    isqrt_spec,
    lemma_isqrt_unique,
    lemma_mul_le,
};
use crate::player::Player;
use crate::vector::{Vector2, Vector3};
use crate::world::WorldMap;

verus! {

/// Largest direction component a ray accepts.
pub const RAY_DIR_MAX: i64 = 32_000_000;

/// Largest origin coordinate a ray accepts.
pub const RAY_POS_MAX: i64 = 400_000_000_000;

/// A ray: an origin in the map and a horizontal direction. The walk happens
/// at the origin's height.
#[derive(Clone, Copy, PartialEq, Eq, Structural, Debug)]
pub struct Ray {
    pub origin: Vector3,
    pub dir: Vector2,
}

/// What a cast returns: the id of the hit cell (if any), the exact
/// boundary-crossing point, the Euclidean distance from the origin, and the
/// grid coordinate of the hit cell.
#[derive(Clone, Copy, PartialEq, Eq, Structural, Debug)]
pub struct RayHit {
    pub value: Option<u32>,
    pub pos: Vector3,
    pub dist: i64,
    pub cell_x: i64,
    pub cell_y: i64,
    pub cell_z: i64,
}

/// The cell the grid walk stops in: its coordinate, whether the crossing was
/// through a vertical (X) boundary, and the fixed-point distance `n` along
/// the crossed axis from the origin to the crossing plane.
pub struct CastHit {
    pub cx: int,
    pub cy: int,
    pub x_axis: bool,
    pub n: int,
}

/// One DDA walk from cell `(cx, cy)`: repeatedly cross the nearer of the
/// next vertical and horizontal cell boundary (measured by crossing time,
/// compared exactly by cross-multiplication) and stop at the first non-empty
/// cell, giving up after `fuel` steps.
pub open spec fn cast_walk(
    m: WorldMap,
    zc: int,
    dx: int,
    dy: int,
    cx: int,
    cy: int,
    nx: int,
    ny: int,
    fuel: nat,
) -> Option<CastHit>
    decreases fuel,
{
    if fuel == 0 {
        Option::None
    } else {
        let xstep = if dy == 0 {
            true
        } else if dx == 0 {
            false
        } else {
            nx * abs_i(dy) <= ny * abs_i(dx)
        };
        if xstep {
            let cx2 = cx + sign_i(dx);
            if m.cell_at(cx2, cy, zc) is Empty {
                cast_walk(m, zc, dx, dy, cx2, cy, nx + FX_SCALE, ny, (fuel - 1) as nat)
            } else {
                Option::Some(CastHit { cx: cx2, cy: cy, x_axis: true, n: nx })
            }
        } else {
            let cy2 = cy + sign_i(dy);
            if m.cell_at(cx, cy2, zc) is Empty {
                cast_walk(m, zc, dx, dy, cx, cy2, nx, ny + FX_SCALE, (fuel - 1) as nat)
            } else {
                Option::Some(CastHit { cx: cx, cy: cy2, x_axis: false, n: ny })
            }
        }
    }
}

/// Fixed-point distance from `a` to the first cell boundary in direction
/// `d`, zero when the axis is not walked.
pub open spec fn first_boundary_spec(a: int, d: int) -> int {
    if d > 0 {
        fx_floor_spec(a) + FX_SCALE - a
    } else if d < 0 {
        a - fx_floor_spec(a)
    } else {
        0
    }
}

/// The walk budget: crossing more boundaries than the extent offers leaves
/// the grid, where every cell is empty.
pub open spec fn cast_fuel_spec(m: WorldMap) -> nat {
    (m.size_x + m.size_y + 2) as nat
}

/// The full cast: `None` for a degenerate direction or when the walk budget
/// runs out without a hit.
pub open spec fn cast_spec(m: WorldMap, o: Vector3, d: Vector2) -> Option<CastHit> {
    if d.x == 0 && d.y == 0 {
        Option::None
    } else {
        cast_walk(
            m,
            fx_cell_spec(o.z as int),
            d.x as int,
            d.y as int,
            fx_cell_spec(o.x as int),
            fx_cell_spec(o.y as int),
            first_boundary_spec(o.x as int, d.x as int),
            first_boundary_spec(o.y as int, d.y as int),
            cast_fuel_spec(m),
        )
    }
}

/// X coordinate of the exact crossing point of a hit.
pub open spec fn cast_hit_x_spec(o: Vector3, d: Vector2, h: CastHit) -> int {
    if h.x_axis {
        o.x + sign_i(d.x as int) * h.n
    } else {
        o.x + div_t(d.x * h.n, abs_i(d.y as int))
    }
}

/// Y coordinate of the exact crossing point of a hit.
pub open spec fn cast_hit_y_spec(o: Vector3, d: Vector2, h: CastHit) -> int {
    if h.x_axis {
        o.y + div_t(d.y * h.n, abs_i(d.x as int))
    } else {
        o.y + sign_i(d.y as int) * h.n
    }
}

/// Euclidean distance from the origin to the crossing point: the crossing
/// time `n / |d_axis|` times the direction's length.
pub open spec fn cast_dist_spec(d: Vector2, h: CastHit) -> int {
    let norm = isqrt_spec(d.x * d.x + d.y * d.y);
    if h.x_axis {
        div_t(h.n * norm, abs_i(d.x as int))
    } else {
        div_t(h.n * norm, abs_i(d.y as int))
    }
}

impl Ray {
    pub open spec fn wf(self) -> bool {
        &&& -RAY_POS_MAX <= self.origin.x <= RAY_POS_MAX
        &&& -RAY_POS_MAX <= self.origin.y <= RAY_POS_MAX
        &&& -RAY_POS_MAX <= self.origin.z <= RAY_POS_MAX
        &&& -RAY_DIR_MAX <= self.dir.x <= RAY_DIR_MAX
        &&& -RAY_DIR_MAX <= self.dir.y <= RAY_DIR_MAX
    }

    /// A ray from the actor's position along its facing, bent sideways by
    /// `offset` (zero for a straight interaction cast).
    pub fn new(p: &Player, offset: Vector2) -> (r: Ray)
        requires
            -RAY_DIR_MAX / 2 <= p.dir.x <= RAY_DIR_MAX / 2,
            -RAY_DIR_MAX / 2 <= p.dir.y <= RAY_DIR_MAX / 2,
            -RAY_DIR_MAX / 2 <= offset.x <= RAY_DIR_MAX / 2,
            -RAY_DIR_MAX / 2 <= offset.y <= RAY_DIR_MAX / 2,
            -RAY_POS_MAX <= p.pos.x <= RAY_POS_MAX,
            -RAY_POS_MAX <= p.pos.y <= RAY_POS_MAX,
            -RAY_POS_MAX <= p.pos.z <= RAY_POS_MAX,
        ensures
            r.origin == p.pos,
            r.dir.x == p.dir.x + offset.x,
            r.dir.y == p.dir.y + offset.y,
            r.wf(),
    {
        Ray {
            origin: p.pos,
            dir: Vector2 { x: p.dir.x + offset.x, y: p.dir.y + offset.y },
        }
    }

    /// Step through the grid along the ray and report the first non-empty
    /// cell, the exact crossing point and the Euclidean distance to it.
    pub fn cast(&self, map: &WorldMap) -> (r: RayHit)
        requires
            self.wf(),
            map.wf(),
        ensures
            ({
                let w = cast_spec(*map, self.origin, self.dir);
                match w {
                    Option::None => r.value is None && r.pos == self.origin && r.dist == 0,
                    Option::Some(h) => {
                        &&& r.value == map.cell_at(h.cx, h.cy, fx_cell_spec(self.origin.z as int)).value_spec()
                        &&& r.value is Some
                        &&& r.cell_x == h.cx
                        &&& r.cell_y == h.cy
                        &&& r.cell_z == fx_cell_spec(self.origin.z as int)
                        &&& r.pos.x == cast_hit_x_spec(self.origin, self.dir, h)
                        &&& r.pos.y == cast_hit_y_spec(self.origin, self.dir, h)
                        &&& r.pos.z == self.origin.z
                        &&& r.dist == cast_dist_spec(self.dir, h)
                    },
                }
            }),
    {
        let o: Vector3 = self.origin;
        let dx: i64 = self.dir.x;
        let dy: i64 = self.dir.y;
        if dx == 0 && dy == 0 {
            return RayHit {
                value: Option::None,
                pos: o,
                dist: 0,
                cell_x: 0,
                cell_y: 0,
                cell_z: 0,
            };
        }
        let adx: i64 = if dx >= 0 {
            dx
        } else {
            -dx
        };
        let ady: i64 = if dy >= 0 {
            dy
        } else {
            -dy
        };
        let zc: i64 = fx_cell(o.z);
        let mut cx: i64 = fx_cell(o.x);
        let mut cy: i64 = fx_cell(o.y);
        let mut nx: i64 = if dx > 0 {
            fx_floor(o.x) + FX_SCALE - o.x
        } else if dx < 0 {
            o.x - fx_floor(o.x)
        } else {
            0
        };
        let mut ny: i64 = if dy > 0 {
            fx_floor(o.y) + FX_SCALE - o.y
        } else if dy < 0 {
            o.y - fx_floor(o.y)
        } else {
            0
        };
        let mut fuel: usize = map.size_x + map.size_y + 2;
        let ghost total: nat = fuel as nat;
        while fuel > 0
            invariant
                map.wf(),
                self.wf(),
                dx == self.dir.x,
                dy == self.dir.y,
                o == self.origin,
                !(dx == 0 && dy == 0),
                adx == abs_i(dx as int),
                ady == abs_i(dy as int),
                zc == fx_cell_spec(o.z as int),
                total == cast_fuel_spec(*map),
                fuel <= total,
                total <= 2050,
                0 <= nx <= ((total - fuel) as int + 1) * FX_SCALE,
                0 <= ny <= ((total - fuel) as int + 1) * FX_SCALE,
                -402_001 - ((total - fuel) as int) <= cx <= 402_001 + ((total - fuel) as int),
                -402_001 - ((total - fuel) as int) <= cy <= 402_001 + ((total - fuel) as int),
                cast_walk(
                    *map,
                    zc as int,
                    dx as int,
                    dy as int,
                    cx as int,
                    cy as int,
                    nx as int,
                    ny as int,
                    fuel as nat,
                ) == cast_spec(*map, self.origin, self.dir),
            decreases fuel,
        {
            proof {
                lemma_mul_le(nx as int, ady as int, 2051 * FX_SCALE as int, RAY_DIR_MAX as int);
                lemma_mul_le(ny as int, adx as int, 2051 * FX_SCALE as int, RAY_DIR_MAX as int);
            }
            let xstep: bool = if dy == 0 {
                true
            } else if dx == 0 {
                false
            } else {
                nx * ady <= ny * adx
            };
            if xstep {
                let cx2: i64 = cx + (if dx > 0 {
                    1
                } else if dx < 0 {
                    -1
                } else {
                    0
                });
                let c: Cell = map.get_cell(cx2, cy, zc);
                if !(matches!(c, Cell::Empty)) {
                    return self.finish_hit(map, c, cx2, cy, zc, nx, dx, dy, adx, ady, true);
                }
                cx = cx2;
                nx = nx + FX_SCALE;
            } else {
                let cy2: i64 = cy + (if dy > 0 {
                    1
                } else if dy < 0 {
                    -1
                } else {
                    0
                });
                let c: Cell = map.get_cell(cx, cy2, zc);
                if !(matches!(c, Cell::Empty)) {
                    return self.finish_hit(map, c, cx, cy2, zc, ny, dx, dy, adx, ady, false);
                }
                cy = cy2;
                ny = ny + FX_SCALE;
            }
            fuel = fuel - 1;
        }
        RayHit { value: Option::None, pos: o, dist: 0, cell_x: 0, cell_y: 0, cell_z: 0 }
    }

    /// Package a found crossing: exact crossing point and distance.
    fn finish_hit(
        &self,
        map: &WorldMap,
        c: Cell,
        hx: i64,
        hy: i64,
        zc: i64,
        n: i64,
        dx: i64,
        dy: i64,
        adx: i64,
        ady: i64,
        x_axis: bool,
    ) -> (r: RayHit)
        requires
            self.wf(),
            map.wf(),
            dx == self.dir.x,
            dy == self.dir.y,
            adx == abs_i(dx as int),
            ady == abs_i(dy as int),
            x_axis ==> dx != 0,
            !x_axis ==> dy != 0,
            0 <= n <= 2051 * FX_SCALE,
            zc == fx_cell_spec(self.origin.z as int),
            c == map.cell_at(hx as int, hy as int, zc as int),
            !(c is Empty),
            ({
                let h = CastHit { cx: hx as int, cy: hy as int, x_axis: x_axis, n: n as int };
                cast_spec(*map, self.origin, self.dir) == Option::Some(h)
            }),
        ensures
            ({
                let w = cast_spec(*map, self.origin, self.dir);
                match w {
                    Option::None => false,
                    Option::Some(h) => {
                        &&& r.value == map.cell_at(h.cx, h.cy, fx_cell_spec(self.origin.z as int)).value_spec()
                        &&& r.value is Some
                        &&& r.cell_x == h.cx
                        &&& r.cell_y == h.cy
                        &&& r.cell_z == fx_cell_spec(self.origin.z as int)
                        &&& r.pos.x == cast_hit_x_spec(self.origin, self.dir, h)
                        &&& r.pos.y == cast_hit_y_spec(self.origin, self.dir, h)
                        &&& r.pos.z == self.origin.z
                        &&& r.dist == cast_dist_spec(self.dir, h)
                    },
                }
            }),
    {
        proof {
            lemma_mul_le(adx as int, adx as int, RAY_DIR_MAX as int, RAY_DIR_MAX as int);
            lemma_mul_le(ady as int, ady as int, RAY_DIR_MAX as int, RAY_DIR_MAX as int);
        }
        let sq: i64 = adx * adx + ady * ady;
        let norm_u: u64 = isqrt(sq as u128);
        proof {
            assert((adx as int) * (adx as int) == (dx as int) * (dx as int)
                && (ady as int) * (ady as int) == (dy as int) * (dy as int)) by (nonlinear_arith)
                requires
                    adx == abs_i(dx as int),
                    ady == abs_i(dy as int),
            ;
            assert((norm_u as int) <= 50_000_000) by (nonlinear_arith)
                requires
                    (norm_u as int) * (norm_u as int) <= sq as int,
                    sq <= 2_048_000_000_000_000i64,
                    0 <= norm_u as int,
            ;
            lemma_isqrt_unique(sq as int, norm_u as int);
        }
        let norm: i64 = norm_u as i64;
        proof {
            lemma_mul_le(n as int, norm as int, 2051 * FX_SCALE as int, 50_000_000int);
            lemma_mul_le(dy as int, n as int, RAY_DIR_MAX as int, 2051 * FX_SCALE as int);
            lemma_mul_le(dx as int, n as int, RAY_DIR_MAX as int, 2051 * FX_SCALE as int);
        }
        let o: Vector3 = self.origin;
        if x_axis {
            let dist: i64 = div_trunc(n * norm, adx);
            let px: i64 = o.x + (if dx > 0 {
                n
            } else {
                -n
            });
            let py: i64 = o.y + div_trunc(dy * n, adx);
            RayHit {
                value: c.value_of(),
                pos: Vector3 { x: px, y: py, z: o.z },
                dist: dist,
                cell_x: hx,
                cell_y: hy,
                cell_z: zc,
            }
        } else {
            let dist: i64 = div_trunc(n * norm, ady);
            let px: i64 = o.x + div_trunc(dx * n, ady);
            let py: i64 = o.y + (if dy > 0 {
                n
            } else {
                -n
            });
            RayHit {
                value: c.value_of(),
                pos: Vector3 { x: px, y: py, z: o.z },
                dist: dist,
                cell_x: hx,
                cell_y: hy,
                cell_z: zc,
            }
        }
    }
}

} // verus!
