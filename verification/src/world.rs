use vstd::prelude::*;
use vstd::arithmetic::div_mod::lemma_fundamental_div_mod_converse;
use crate::cell::Cell;
use crate::direction::Direction;
use crate::fixed::{FX_MAX, fx_cell, fx_cell_spec};
use crate::portal::{PortalEnd, PortalPair};
use crate::vector::Vector3;

verus! {

/// The grid side length limits: kept small so that index arithmetic and the
/// ray walk's step budget stay comfortably within machine integers.
pub const GRID_MAX: usize = 1024;

/// A 3D-indexed grid of cells plus the set of portal links. A coordinate
/// outside the stored extent reads as `Cell::Empty`: every query is total.
pub struct WorldMap {
    pub size_x: usize,
    pub size_y: usize,
    pub size_z: usize,
    pub cells: Vec<Cell>,
    pub portals: Vec<PortalPair>,
}

/// Where a portal lookup found a crossing: the matched (source) endpoint
/// and its linked (destination) endpoint.
pub open spec fn end_matches(e: PortalEnd, cx: int, cy: int, cz: int, dir: Direction) -> bool {
    &&& fx_cell_spec(e.pos.x as int) == cx
    &&& fx_cell_spec(e.pos.y as int) == cy
    &&& fx_cell_spec(e.pos.z as int) == cz
    &&& (dir == Direction::Neutral || e.dir == dir)
}

/// The source/destination pair a single link offers at a coordinate, if any.
pub open spec fn pair_hit(p: PortalPair, cx: int, cy: int, cz: int, dir: Direction) -> Option<
    (PortalEnd, PortalEnd),
> {
    if end_matches(p.a, cx, cy, cz, dir) {
        Option::Some((p.a, p.b))
    } else if end_matches(p.b, cx, cy, cz, dir) {
        Option::Some((p.b, p.a))
    } else {
        Option::None
    }
}

/// First crossing offered at a coordinate by the links from index `i` on.
pub open spec fn find_portal_from(
    s: Seq<PortalPair>,
    i: int,
    cx: int,
    cy: int,
    cz: int,
    dir: Direction,
) -> Option<(PortalEnd, PortalEnd)>
    decreases s.len() - i,
{
    if i < 0 || i >= s.len() {
        Option::None
    } else if pair_hit(s[i], cx, cy, cz, dir) is Some {
        pair_hit(s[i], cx, cy, cz, dir)
    } else {
        find_portal_from(s, i + 1, cx, cy, cz, dir)
    }
}

/// A found crossing is a stored, well-formed pair, matched at the queried
/// coordinate.
pub proof fn lemma_find_portal_from_props(
    s: Seq<PortalPair>,
    i: int,
    cx: int,
    cy: int,
    cz: int,
    dir: Direction,
)
    requires
        forall|j: int| 0 <= j < s.len() ==> (#[trigger] s[j]).wf(),
    ensures
        match find_portal_from(s, i, cx, cy, cz, dir) {
            Option::None => true,
            Option::Some(p) => p.0.wf() && p.1.wf() && end_matches(p.0, cx, cy, cz, dir),
        },
    decreases s.len() - i,
{
    if i < 0 || i >= s.len() {
    } else if pair_hit(s[i], cx, cy, cz, dir) is Some {
    } else {
        lemma_find_portal_from_props(s, i + 1, cx, cy, cz, dir);
    }
}

proof fn lemma_grid_index(cx: int, cy: int, cz: int, sx: int, sy: int, sz: int)
    requires
        0 <= cx < sx,
        0 <= cy < sy,
        0 <= cz < sz,
        sx <= GRID_MAX,
        sy <= GRID_MAX,
        sz <= GRID_MAX,
    ensures
        0 <= cz * sy + cy,
        cz * sy + cy < sz * sy,
        sz * sy <= GRID_MAX * GRID_MAX,
        0 <= (cz * sy + cy) * sx + cx,
        (cz * sy + cy) * sx + cx < sx * sy * sz,
        sx * sy * sz <= GRID_MAX * GRID_MAX * GRID_MAX,
{
    assert((0 <= cz * sy + cy) && (cz * sy + cy < sz * sy) && (sz * sy <= GRID_MAX * GRID_MAX)
        && (0 <= (cz * sy + cy) * sx + cx) && ((cz * sy + cy) * sx + cx < sx * sy * sz) && (sx * sy
        * sz <= GRID_MAX * GRID_MAX * GRID_MAX)) by (nonlinear_arith)
        requires
            0 <= cx < sx,
            0 <= cy < sy,
            0 <= cz < sz,
            sx <= GRID_MAX,
            sy <= GRID_MAX,
            sz <= GRID_MAX,
    ;
}

/// Two in-range coordinate triples with the same flat index are equal.
proof fn lemma_grid_index_injective(
    ax: int,
    ay: int,
    az: int,
    bx: int,
    by: int,
    bz: int,
    sx: int,
    sy: int,
    sz: int,
)
    requires
        0 <= ax < sx,
        0 <= ay < sy,
        0 <= az < sz,
        0 <= bx < sx,
        0 <= by < sy,
        0 <= bz < sz,
        (az * sy + ay) * sx + ax == (bz * sy + by) * sx + bx,
    ensures
        ax == bx,
        ay == by,
        az == bz,
{
    let i = (az * sy + ay) * sx + ax;
    lemma_fundamental_div_mod_converse(i, sx, az * sy + ay, ax);
    lemma_fundamental_div_mod_converse(i, sx, bz * sy + by, bx);
    lemma_fundamental_div_mod_converse(az * sy + ay, sy, az, ay);
    lemma_fundamental_div_mod_converse(bz * sy + by, sy, bz, by);
}

impl WorldMap {
    /// The backing vector holds exactly one well-formed cell per coordinate,
    /// the extent is bounded, and every portal endpoint is in range.
    pub open spec fn wf(self) -> bool {
        &&& self.cells.len() == self.size_x * self.size_y * self.size_z
        &&& self.size_x <= GRID_MAX
        &&& self.size_y <= GRID_MAX
        &&& self.size_z <= GRID_MAX
        &&& forall|i: int| 0 <= i < self.cells.len() ==> self.cells[i].wf()
        &&& forall|i: int| 0 <= i < self.portals.len() ==> (#[trigger] self.portals[i]).wf()
    }

    /// Flat index of an in-range grid coordinate.
    pub open spec fn idx_spec(self, cx: int, cy: int, cz: int) -> int {
        (cz * self.size_y + cy) * self.size_x + cx
    }

    pub open spec fn in_range(self, cx: int, cy: int, cz: int) -> bool {
        0 <= cx < self.size_x && 0 <= cy < self.size_y && 0 <= cz < self.size_z
    }

    /// The cell stored at a grid coordinate; `Empty` outside the extent.
    pub open spec fn cell_at(self, cx: int, cy: int, cz: int) -> Cell {
        if self.in_range(cx, cy, cz) {
            self.cells[self.idx_spec(cx, cy, cz)]
        } else {
            Cell::Empty
        }
    }

    /// The cell a continuous position falls in.
    pub open spec fn cell_at_pos(self, p: Vector3) -> Cell {
        self.cell_at(fx_cell_spec(p.x as int), fx_cell_spec(p.y as int), fx_cell_spec(p.z as int))
    }

    /// Point query: floor the continuous position to a grid coordinate and
    /// return the stored cell, `Empty` when absent or out of range.
    pub fn get(&self, pos: &Vector3) -> (c: Cell)
        requires
            self.wf(),
            -FX_MAX <= pos.x <= FX_MAX,
            -FX_MAX <= pos.y <= FX_MAX,
            -FX_MAX <= pos.z <= FX_MAX,
        ensures
            c == self.cell_at_pos(*pos),
            c.wf(),
    {
        let cx: i64 = fx_cell(pos.x);
        let cy: i64 = fx_cell(pos.y);
        let cz: i64 = fx_cell(pos.z);
        self.get_cell(cx, cy, cz)
    }

    /// The stored cell at a grid coordinate, `Empty` out of range.
    pub fn get_cell(&self, cx: i64, cy: i64, cz: i64) -> (c: Cell)
        requires
            self.wf(),
        ensures
            c == self.cell_at(cx as int, cy as int, cz as int),
            c.wf(),
    {
        if cx >= 0 && cy >= 0 && cz >= 0 && cx < (self.size_x as i64) && cy < (self.size_y as i64)
            && cz < (self.size_z as i64) {
            proof {
                lemma_grid_index(
                    cx as int,
                    cy as int,
                    cz as int,
                    self.size_x as int,
                    self.size_y as int,
                    self.size_z as int,
                );
            }
            let i: usize = ((cz as usize) * self.size_y + (cy as usize)) * self.size_x + (
            cx as usize);
            self.cells[i]
        } else {
            Cell::Empty
        }
    }

    /// Toggle the interactable state of the cell at a grid coordinate; the
    /// rest of the map is untouched. Out of range, nothing changes.
    pub fn trigger_cell(&mut self, cx: i64, cy: i64, cz: i64)
        requires
            old(self).wf(),
        ensures
            final(self).wf(),
            final(self).size_x == old(self).size_x,
            final(self).size_y == old(self).size_y,
            final(self).size_z == old(self).size_z,
            final(self).portals == old(self).portals,
            final(self).cell_at(cx as int, cy as int, cz as int) == old(self).cell_at(
                cx as int,
                cy as int,
                cz as int,
            ).trigger_spec(),
            forall|ax: int, ay: int, az: int|
                (ax != cx || ay != cy || az != cz) ==> final(self).cell_at(ax, ay, az) == old(
                    self,
                ).cell_at(ax, ay, az),
    {
        if cx >= 0 && cy >= 0 && cz >= 0 && cx < (self.size_x as i64) && cy < (self.size_y as i64)
            && cz < (self.size_z as i64) {
            proof {
                lemma_grid_index(
                    cx as int,
                    cy as int,
                    cz as int,
                    self.size_x as int,
                    self.size_y as int,
                    self.size_z as int,
                );
            }
            let i: usize = ((cz as usize) * self.size_y + (cy as usize)) * self.size_x + (
            cx as usize);
            let mut c: Cell = self.cells[i];
            c.trigger();
            self.cells.set(i, c);
            proof {
                assert forall|ax: int, ay: int, az: int|
                    (ax != cx || ay != cy || az != cz) implies final(self).cell_at(ax, ay, az)
                    == old(self).cell_at(ax, ay, az) by {
                    if old(self).in_range(ax, ay, az) {
                        lemma_grid_index(
                            ax,
                            ay,
                            az,
                            self.size_x as int,
                            self.size_y as int,
                            self.size_z as int,
                        );
                        if old(self).idx_spec(ax, ay, az) == i {
                            lemma_grid_index_injective(
                                ax,
                                ay,
                                az,
                                cx as int,
                                cy as int,
                                cz as int,
                                self.size_x as int,
                                self.size_y as int,
                                self.size_z as int,
                            );
                        }
                    }
                }
            }
        }
    }

    /// Toggle the interactable state of the cell a continuous position
    /// falls in.
    pub fn trigger_at(&mut self, pos: &Vector3)
        requires
            old(self).wf(),
            -FX_MAX <= pos.x <= FX_MAX,
            -FX_MAX <= pos.y <= FX_MAX,
            -FX_MAX <= pos.z <= FX_MAX,
        ensures
            final(self).wf(),
            final(self).size_x == old(self).size_x,
            final(self).size_y == old(self).size_y,
            final(self).size_z == old(self).size_z,
            final(self).portals == old(self).portals,
            final(self).cell_at_pos(*pos) == old(self).cell_at_pos(*pos).trigger_spec(),
            forall|ax: int, ay: int, az: int|
                (ax != fx_cell_spec(pos.x as int) || ay != fx_cell_spec(pos.y as int) || az
                    != fx_cell_spec(pos.z as int)) ==> final(self).cell_at(ax, ay, az) == old(
                    self,
                ).cell_at(ax, ay, az),
    {
        let cx: i64 = fx_cell(pos.x);
        let cy: i64 = fx_cell(pos.y);
        let cz: i64 = fx_cell(pos.z);
        self.trigger_cell(cx, cy, cz);
    }

    /// First portal crossing at a grid coordinate, as the original pair of
    /// optional endpoints: `None` when no link touches the coordinate,
    /// otherwise the matched side and its destination, both present.
    pub fn portals_at(&self, pos: &Vector3, dir: Direction) -> (r: Option<
        (Option<PortalEnd>, Option<PortalEnd>),
    >)
        requires
            self.wf(),
            -FX_MAX <= pos.x <= FX_MAX,
            -FX_MAX <= pos.y <= FX_MAX,
            -FX_MAX <= pos.z <= FX_MAX,
        ensures
            ({
                let f = find_portal_from(
                    self.portals@,
                    0,
                    fx_cell_spec(pos.x as int),
                    fx_cell_spec(pos.y as int),
                    fx_cell_spec(pos.z as int),
                    dir,
                );
                match f {
                    Option::None => r is None,
                    Option::Some(p) => r == Option::Some(
                        (Option::Some(p.0), Option::Some(p.1)),
                    ),
                }
            }),
    {
        let cx: i64 = fx_cell(pos.x);
        let cy: i64 = fx_cell(pos.y);
        let cz: i64 = fx_cell(pos.z);
        let mut i: usize = 0;
        while i < self.portals.len()
            invariant
                self.wf(),
                0 <= i <= self.portals.len(),
                cx == fx_cell_spec(pos.x as int),
                cy == fx_cell_spec(pos.y as int),
                cz == fx_cell_spec(pos.z as int),
                find_portal_from(
                    self.portals@,
                    0,
                    cx as int,
                    cy as int,
                    cz as int,
                    dir,
                ) == find_portal_from(self.portals@, i as int, cx as int, cy as int, cz as int, dir),
            decreases self.portals.len() - i,
        {
            let p: PortalPair = self.portals[i];
            let amatch: bool = self.end_matches_ex(&p.a, cx, cy, cz, dir);
            proof {
                assert(find_portal_from(self.portals@, i as int, cx as int, cy as int, cz as int, dir) == (
                if pair_hit(self.portals@[i as int], cx as int, cy as int, cz as int, dir) is Some {
                    pair_hit(self.portals@[i as int], cx as int, cy as int, cz as int, dir)
                } else {
                    find_portal_from(self.portals@, i as int + 1, cx as int, cy as int, cz as int, dir)
                }));
            }
            if amatch {
                return Option::Some((Option::Some(p.a), Option::Some(p.b)));
            }
            let bmatch: bool = self.end_matches_ex(&p.b, cx, cy, cz, dir);
            if bmatch {
                return Option::Some((Option::Some(p.b), Option::Some(p.a)));
            }
            i = i + 1;
        }
        Option::None
    }

    /// Whether one endpoint sits at the given grid coordinate and answers to
    /// the given direction filter.
    fn end_matches_ex(&self, e: &PortalEnd, cx: i64, cy: i64, cz: i64, dir: Direction) -> (r:
        bool)
        requires
            e.wf(),
        ensures
            r == end_matches(*e, cx as int, cy as int, cz as int, dir),
    {
        let ex: i64 = fx_cell(e.pos.x);
        let ey: i64 = fx_cell(e.pos.y);
        let ez: i64 = fx_cell(e.pos.z);
        ex == cx && ey == cy && ez == cz && (matches!(dir, Direction::Neutral) || e.dir == dir)
    }
}

} // verus!
