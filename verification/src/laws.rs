use vstd::prelude::*;
use vstd::arithmetic::div_mod::{lemma_div_is_ordered, lemma_div_multiples_vanish};
use crate::cell::{Cell, ThinWall};
use crate::fixed::{
    FX_SCALE,
    fx_cell_spec,
    fx_floor_spec,
    fx_fract_spec,
    fx_mul_spec,
    isqrt_spec,
    lemma_isqrt_unique,
    sign_i,
};
use crate::player::{
    Player,
    crosses,
    gravity_accel_vz,
    gravity_future_z,
    gravity_z_spec,
    gravity_vz_spec,
    thin_limit_x,
    x_step_spec,
    x_thin_allows,
    y_step_spec,
};
use crate::ray::{CastHit, cast_dist_spec, cast_walk};
use crate::vector::Vector2;
use crate::world::WorldMap;

verus! {

/// A well-formed map stores only well-formed cells, wherever it is read.
pub proof fn lemma_cell_at_wf(m: WorldMap, cx: int, cy: int, cz: int)
    requires
        m.wf(),
    ensures
        m.cell_at(cx, cy, cz).wf(),
{
    if m.in_range(cx, cy, cz) {
        assert((0 <= cz * m.size_y + cy) && ((cz * m.size_y + cy) * m.size_x + cx < m.size_x
            * m.size_y * m.size_z)) by (nonlinear_arith)
            requires
                0 <= cx < m.size_x,
                0 <= cy < m.size_y,
                0 <= cz < m.size_z,
        ;
        assert((0 <= (cz * m.size_y + cy) * m.size_x + cx)) by (nonlinear_arith)
            requires
                0 <= cx < m.size_x,
                0 <= cz * m.size_y + cy,
        ;
        assert(m.cells[m.idx_spec(cx, cy, cz)].wf());
    }
}

/// A fixed-point product of a non-positive and a non-negative factor is
/// non-positive.
proof fn lemma_fx_mul_nonpos(a: int, b: int)
    requires
        a <= 0,
        0 <= b,
    ensures
        fx_mul_spec(a, b) <= 0,
{
    assert(a * b <= 0) by (nonlinear_arith)
        requires
            a <= 0,
            0 <= b,
    ;
    if a * b < 0 {
        lemma_div_is_ordered(0, -(a * b), FX_SCALE as int);
    }
}

/// Floor clamp: a gravity step never carries an actor below the ground
/// plane, and when the tentative height would be below it, the actor lands
/// exactly on it with its fall stopped.
pub proof fn lemma_floor_clamp(p: Player, m: WorldMap, delta: int)
    requires
        m.wf(),
        p.pos.z >= 0,
    ensures
        gravity_z_spec(p, m, delta) >= 0,
        gravity_future_z(p, delta) < 0 ==> gravity_z_spec(p, m, delta) == 0 && gravity_vz_spec(
            p,
            m,
            delta,
        ) == 0,
{
    let fz = gravity_future_z(p, delta);
    lemma_cell_at_wf(
        m,
        fx_cell_spec(p.pos.x as int),
        fx_cell_spec(p.pos.y as int),
        fx_cell_spec(p.pos.z as int),
    );
    lemma_cell_at_wf(
        m,
        fx_cell_spec(p.pos.x as int),
        fx_cell_spec(p.pos.y as int),
        fx_cell_spec(fz),
    );
    if fz >= 0 {
        lemma_div_is_ordered(0, p.pos.z as int, FX_SCALE as int);
        lemma_div_is_ordered(0, fz, FX_SCALE as int);
    }
}

/// Wall-top standing: an actor at rest-or-falling whose height is exactly a
/// wall cell's top stays exactly there, with its vertical velocity zeroed.
/// (A fall fast enough to carry the tentative height below the ground plane
/// is excluded: the ground clamp takes over there.)
pub proof fn lemma_wall_top_standing(p: Player, m: WorldMap, delta: int, v: u32, h: i64)
    requires
        m.wf(),
        m.cell_at_pos(p.pos) == (Cell::Wall { value: v, height: h }),
        p.pos.z == fx_floor_spec(p.pos.z as int) + h,
        p.velocity.z <= 0,
        p.gravity <= 0,
        0 <= delta,
        gravity_future_z(p, delta) >= 0,
    ensures
        gravity_z_spec(p, m, delta) == p.pos.z,
        gravity_vz_spec(p, m, delta) == 0,
{
    lemma_fx_mul_nonpos(p.gravity as int, delta);
    lemma_fx_mul_nonpos(gravity_accel_vz(p, delta), delta);
}

/// X-before-Y tie-break: a diagonal tentative move blocked on X by a wall
/// rising above the actor, and open on Y, changes Y only.
pub proof fn lemma_x_before_y(
    m: WorldMap,
    px: int,
    py: int,
    pz: int,
    nx: int,
    ny: int,
    v: u32,
    h: i64,
)
    requires
        m.cell_at(fx_cell_spec(nx), fx_cell_spec(py), fx_cell_spec(pz)) == (Cell::Wall {
            value: v,
            height: h,
        }),
        pz < fx_floor_spec(pz) + h,
        m.cell_at(fx_cell_spec(px), fx_cell_spec(ny), fx_cell_spec(pz)) is Empty,
        m.cell_at(fx_cell_spec(px), fx_cell_spec(py), fx_cell_spec(pz)) is Empty,
    ensures
        x_step_spec(m, px, py, pz, nx) == px,
        y_step_spec(m, px, py, pz, ny) == ny,
{
}

/// Thin-wall slide gate: against a shut thin wall restricting X, a move
/// that crosses its blocking plane goes through exactly when the actor's
/// fractional offset on the free axis is at least the slide threshold.
pub proof fn lemma_thin_slide_gate(m: WorldMap, px: int, py: int, pz: int, nx: int, t: ThinWall)
    requires
        m.cell_at(fx_cell_spec(nx), fx_cell_spec(py), fx_cell_spec(pz)) == Cell::Thin(t),
        t.shut,
        !t.dir.is_under_light_spec(),
        crosses(px, nx, thin_limit_x(fx_floor_spec(nx), t.dir, t.depth as int)),
    ensures
        fx_fract_spec(py) >= t.slide ==> x_step_spec(m, px, py, pz, nx) == nx,
        fx_fract_spec(py) < t.slide ==> x_step_spec(m, px, py, pz, nx) == px,
{
}

/// A walk that reports a hit stopped at a non-empty cell; a walk that
/// reports none ran its whole step budget without finding one (or was
/// degenerate). The budget covers the stored extent, so beyond it only
/// empty cells remain.
pub proof fn lemma_cast_hit_nonempty(
    m: WorldMap,
    zc: int,
    dx: int,
    dy: int,
    cx: int,
    cy: int,
    nx: int,
    ny: int,
    fuel: nat,
)
    ensures
        match cast_walk(m, zc, dx, dy, cx, cy, nx, ny, fuel) {
            Option::Some(h) => !(m.cell_at(h.cx, h.cy, zc) is Empty) && h.n >= if h.x_axis {
                nx
            } else {
                ny
            },
            Option::None => true,
        },
    decreases fuel,
{
    if fuel > 0 {
        lemma_cast_hit_nonempty(
            m,
            zc,
            dx,
            dy,
            cx + sign_i(dx),
            cy,
            nx + FX_SCALE,
            ny,
            (fuel - 1) as nat,
        );
        lemma_cast_hit_nonempty(
            m,
            zc,
            dx,
            dy,
            cx,
            cy + sign_i(dy),
            nx,
            ny + FX_SCALE,
            (fuel - 1) as nat,
        );
    }
}

/// Ray-cast distance, axis-aligned case: a cast straight along X reports
/// exactly the fixed-point distance from the origin to the crossing plane
/// of the cell it hits.
pub proof fn lemma_axis_cast_dist(d: Vector2, h: CastHit)
    requires
        d.y == 0,
        d.x > 0,
        h.x_axis,
        h.n >= 0,
    ensures
        cast_dist_spec(d, h) == h.n,
{
    let dx = d.x as int;
    assert(dx * dx < ((dx + 1) * (dx + 1)) && 0 <= dx * dx) by (nonlinear_arith)
        requires
            dx > 0,
    ;
    lemma_isqrt_unique(dx * dx, dx);
    lemma_div_multiples_vanish(h.n, dx);
    assert(h.n * dx == dx * h.n) by (nonlinear_arith);
}

} // verus!
