use vstd::prelude::*;
use crate::direction::Direction;
use crate::fixed::{FX_SCALE, POS_LIMIT, fx_mul, lemma_fx_mul_unit};
use crate::vector::{Vector3, Rot2, rot_x_spec, rot_y_spec};

verus! {

/// One side of a teleport link: a position in the map and the orientation an
/// actor faces when it leaves the portal on this side.
#[derive(Clone, Copy, PartialEq, Eq, Structural, Debug)]
pub struct PortalEnd {
    pub pos: Vector3,
    pub dir: Direction,
}

/// A bidirectional teleport link between two map locations.
#[derive(Clone, Copy, PartialEq, Eq, Structural, Debug)]
pub struct PortalPair {
    pub a: PortalEnd,
    pub b: PortalEnd,
}

/// The exact rotation by `k` counterclockwise quarter turns, `0 <= k < 4`.
pub open spec fn quarter_rot_spec(k: int) -> Rot2 {
    if k == 0 {
        Rot2 { cos: FX_SCALE, sin: 0 }
    } else if k == 1 {
        Rot2 { cos: 0, sin: FX_SCALE }
    } else if k == 2 {
        Rot2 { cos: (-FX_SCALE) as i64, sin: 0 }
    } else {
        Rot2 { cos: 0, sin: (-FX_SCALE) as i64 }
    }
}

/// X component of `(x, y)` turned by `k` quarter turns, exactly.
pub open spec fn quarter_x_spec(x: int, y: int, k: int) -> int {
    if k == 0 {
        x
    } else if k == 1 {
        -y
    } else if k == 2 {
        -x
    } else {
        y
    }
}

/// Y component of `(x, y)` turned by `k` quarter turns, exactly.
pub open spec fn quarter_y_spec(x: int, y: int, k: int) -> int {
    if k == 0 {
        y
    } else if k == 1 {
        x
    } else if k == 2 {
        -y
    } else {
        -x
    }
}

/// Fixed-point rotation by a quarter-turn rotation loses nothing.
pub proof fn lemma_quarter_rot_exact(x: int, y: int, k: int)
    requires
        0 <= k < 4,
    ensures
        rot_x_spec(x, y, quarter_rot_spec(k)) == quarter_x_spec(x, y, k),
        rot_y_spec(x, y, quarter_rot_spec(k)) == quarter_y_spec(x, y, k),
{
    lemma_fx_mul_unit(x);
    lemma_fx_mul_unit(y);
}

impl PortalEnd {
    /// Quarter turns an actor's heading makes crossing from `other` to `self`.
    pub open spec fn link_quarters_spec(self, other: PortalEnd) -> int {
        (self.dir.quarters_spec() - other.dir.quarters_spec() + 4) % 4
    }

    /// The rotation an actor's facing and camera plane undergo when it
    /// crosses from `other` to `self`.
    pub open spec fn link_rot_spec(self, other: PortalEnd) -> Rot2 {
        quarter_rot_spec(self.link_quarters_spec(other))
    }

    /// Both endpoint coordinates stay small enough for exact remapping.
    pub open spec fn wf(self) -> bool {
        &&& -POS_LIMIT <= self.pos.x <= POS_LIMIT
        &&& -POS_LIMIT <= self.pos.y <= POS_LIMIT
        &&& -POS_LIMIT <= self.pos.z <= POS_LIMIT
    }

    /// The orientation change for an actor crossing from `other` to here.
    pub fn link_dir(&self, other: &PortalEnd) -> (r: Rot2)
        ensures
            r == self.link_rot_spec(*other),
    {
        let q: i64 = (self.dir.quarters() - other.dir.quarters() + 4) % 4;
        if q == 0 {
            Rot2 { cos: FX_SCALE, sin: 0 }
        } else if q == 1 {
            Rot2 { cos: 0, sin: FX_SCALE }
        } else if q == 2 {
            Rot2 { cos: -FX_SCALE, sin: 0 }
        } else {
            Rot2 { cos: 0, sin: -FX_SCALE }
        }
    }

    /// The remapped X coordinate on this side for an actor at `p` on the
    /// other side: the actor's offset from `other` is turned by the link
    /// rotation and carried over to this endpoint.
    pub open spec fn link_x_sp(self, other: PortalEnd, p: Vector3) -> int {
        self.pos.x as int + rot_x_spec(
            p.x - other.pos.x,
            p.y - other.pos.y,
            self.link_rot_spec(other),
        )
    }

    /// The remapped Y coordinate on this side, as `link_x_sp`.
    pub open spec fn link_y_sp(self, other: PortalEnd, p: Vector3) -> int {
        self.pos.y as int + rot_y_spec(
            p.x - other.pos.x,
            p.y - other.pos.y,
            self.link_rot_spec(other),
        )
    }

    pub fn link_x(&self, other: &PortalEnd, p: &Vector3) -> (r: i64)
        requires
            self.wf(),
            other.wf(),
            -POS_LIMIT * 4 <= p.x <= POS_LIMIT * 4,
            -POS_LIMIT * 4 <= p.y <= POS_LIMIT * 4,
        ensures
            r == self.link_x_sp(*other, *p),
    {
        proof {
            lemma_fx_mul_unit(p.x - other.pos.x);
            lemma_fx_mul_unit(p.y - other.pos.y);
            lemma_fx_mul_unit(0);
        }
        let rot: Rot2 = self.link_dir(other);
        let rx: i64 = p.x - other.pos.x;
        let ry: i64 = p.y - other.pos.y;
        self.pos.x + (fx_mul(rx, rot.cos) - fx_mul(ry, rot.sin))
    }

    pub fn link_y(&self, other: &PortalEnd, p: &Vector3) -> (r: i64)
        requires
            self.wf(),
            other.wf(),
            -POS_LIMIT * 4 <= p.x <= POS_LIMIT * 4,
            -POS_LIMIT * 4 <= p.y <= POS_LIMIT * 4,
        ensures
            r == self.link_y_sp(*other, *p),
    {
        proof {
            lemma_fx_mul_unit(p.x - other.pos.x);
            lemma_fx_mul_unit(p.y - other.pos.y);
            lemma_fx_mul_unit(0);
        }
        let rot: Rot2 = self.link_dir(other);
        let rx: i64 = p.x - other.pos.x;
        let ry: i64 = p.y - other.pos.y;
        self.pos.y + (fx_mul(rx, rot.sin) + fx_mul(ry, rot.cos))
    }
}

impl PortalPair {
    pub open spec fn wf(self) -> bool {
        self.a.wf() && self.b.wf()
    }
}

/// Crossing a link one way and then crossing back through the mutually
/// inverse link turns a heading by a whole number of full turns: the
/// original facing is restored exactly.
pub proof fn lemma_portal_round_trip(a: PortalEnd, b: PortalEnd, x: int, y: int)
    ensures
        ({
            let x1 = rot_x_spec(x, y, b.link_rot_spec(a));
            let y1 = rot_y_spec(x, y, b.link_rot_spec(a));
            rot_x_spec(x1, y1, a.link_rot_spec(b)) == x
                && rot_y_spec(x1, y1, a.link_rot_spec(b)) == y
        }),
{
    let k1 = b.link_quarters_spec(a);
    let k2 = a.link_quarters_spec(b);
    let x1 = rot_x_spec(x, y, b.link_rot_spec(a));
    let y1 = rot_y_spec(x, y, b.link_rot_spec(a));
    lemma_quarter_rot_exact(x, y, k1);
    lemma_quarter_rot_exact(x1, y1, k2);
    assert((k1 + k2) % 4 == 0);
}

} // verus!
