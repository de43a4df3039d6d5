//! Per-instance transforms.
//!
//! An instance is a position and a unit rotation quaternion; its only
//! GPU-visible representation is the raw form: the 4x4 row-major matrix
//! `translation(position) * rotation_matrix(rotation)`.  The matrix is
//! recomputed whenever the instance data changes, never patched.  All
//! values are exact fixed-point integers (`FP_ONE` is 1.0); the raw matrix
//! entries use the same scale.

use vstd::prelude::*;

use crate::fixed::{FP_ONE, spec_div_trunc, div_trunc};

verus! {

/// A rotation quaternion in fixed-point form.  Well-formed when each
/// component lies in [-1, 1], as the components of a unit quaternion do.
#[derive(Clone, Copy, Debug, PartialEq)]
pub struct Quaternion {
    pub x: i64,
    pub y: i64,
    pub z: i64,
    pub w: i64,
}

impl Quaternion {
    pub open spec fn wf(self) -> bool {
        &&& -FP_ONE <= self.x <= FP_ONE
        &&& -FP_ONE <= self.y <= FP_ONE
        &&& -FP_ONE <= self.z <= FP_ONE
        &&& -FP_ONE <= self.w <= FP_ONE
    }
}

/// The identity rotation: no turn at all.
pub open spec fn spec_identity_rotation() -> Quaternion {
    Quaternion { x: 0, y: 0, z: 0, w: FP_ONE }
}

/// The identity rotation, in executable form.
pub fn identity_rotation() -> (q: Quaternion)
    ensures
        q == spec_identity_rotation(),
        q.wf(),
{
    Quaternion { x: 0, y: 0, z: 0, w: FP_ONE }
}

/// Entry (r, c) of the 3x3 rotation matrix of `q`, in fixed-point scale:
/// the standard quaternion-to-matrix formulas, with the one truncating
/// division that returns the doubled products to the base scale.
pub open spec fn spec_rot_entry(q: Quaternion, r: int, c: int) -> int
    recommends
        0 <= r < 3,
        0 <= c < 3,
{
    let x = q.x as int;
    let y = q.y as int;
    let z = q.z as int;
    let w = q.w as int;
    let s = FP_ONE as int;
    let num = if r == 0 && c == 0 {
        s * s - 2 * (y * y + z * z)
    } else if r == 0 && c == 1 {
        2 * (x * y - z * w)
    } else if r == 0 && c == 2 {
        2 * (x * z + y * w)
    } else if r == 1 && c == 0 {
        2 * (x * y + z * w)
    } else if r == 1 && c == 1 {
        s * s - 2 * (x * x + z * z)
    } else if r == 1 && c == 2 {
        2 * (y * z - x * w)
    } else if r == 2 && c == 0 {
        2 * (x * z - y * w)
    } else if r == 2 && c == 1 {
        2 * (y * z + x * w)
    } else {
        s * s - 2 * (x * x + y * y)
    };
    spec_div_trunc(num, s)
}

/// A product of two fixed-point values from [-1, 1] stays within one
/// squared unit.
proof fn lemma_unit_product_bounded(a: i64, b: i64)
    requires
        -FP_ONE <= a <= FP_ONE,
        -FP_ONE <= b <= FP_ONE,
    ensures
        -1_000_000_000_000 <= (a as int) * (b as int) <= 1_000_000_000_000,
{
    assert(-1_000_000_000_000 <= (a as int) * (b as int) <= 1_000_000_000_000)
        by (nonlinear_arith)
        requires
            -1_000_000 <= a as int <= 1_000_000,
            -1_000_000 <= b as int <= 1_000_000,
    ;
}

/// One repetition of the base mesh, with its own world transform.
#[derive(Clone, Copy, Debug, PartialEq)]
pub struct Instance {
    pub position: [i64; 3],
    pub rotation: Quaternion,
}

/// The GPU-visible form of an instance: a 4x4 row-major model matrix in
/// fixed-point scale.
#[derive(Clone, Copy, Debug, PartialEq)]
pub struct InstanceRaw {
    pub model: [[i64; 4]; 4],
}

/// `raw` is exactly the raw form of `inst`: the rotation in the upper-left
/// 3x3 block, the position in the last column, and the homogeneous row
/// (0, 0, 0, 1) at the bottom.
pub open spec fn spec_matches_raw(inst: Instance, raw: InstanceRaw) -> bool {
    &&& forall|r: int, c: int|
        0 <= r < 3 && 0 <= c < 3 ==> #[trigger] raw.model[r][c] == spec_rot_entry(
            inst.rotation,
            r,
            c,
        )
    &&& forall|r: int| 0 <= r < 3 ==> #[trigger] raw.model[r][3] == inst.position[r]
    &&& raw.model[3][0] == 0
    &&& raw.model[3][1] == 0
    &&& raw.model[3][2] == 0
    &&& raw.model[3][3] == FP_ONE
}

impl Instance {
    pub open spec fn wf(self) -> bool {
        self.rotation.wf()
    }

    pub fn new(position: [i64; 3], rotation: Quaternion) -> (r: Instance)
        ensures
            r == (Instance { position, rotation }),
    {
        Instance { position, rotation }
    }

    /// Compute the raw model matrix of this instance.
    pub fn to_raw(&self) -> (r: InstanceRaw)
        requires
            self.wf(),
        ensures
            spec_matches_raw(*self, r),
    {
        let x = self.rotation.x;
        let y = self.rotation.y;
        let z = self.rotation.z;
        let w = self.rotation.w;
        let s = FP_ONE;
        proof {
            lemma_unit_product_bounded(x, x);
            lemma_unit_product_bounded(y, y);
            lemma_unit_product_bounded(z, z);
            lemma_unit_product_bounded(w, w);
            lemma_unit_product_bounded(x, y);
            lemma_unit_product_bounded(x, z);
            lemma_unit_product_bounded(x, w);
            lemma_unit_product_bounded(y, z);
            lemma_unit_product_bounded(y, w);
            lemma_unit_product_bounded(z, w);
        }
        let r00 = div_trunc(s * s - 2 * (y * y + z * z), s);
        let r01 = div_trunc(2 * (x * y - z * w), s);
        let r02 = div_trunc(2 * (x * z + y * w), s);
        let r10 = div_trunc(2 * (x * y + z * w), s);
        let r11 = div_trunc(s * s - 2 * (x * x + z * z), s);
        let r12 = div_trunc(2 * (y * z - x * w), s);
        let r20 = div_trunc(2 * (x * z - y * w), s);
        let r21 = div_trunc(2 * (y * z + x * w), s);
        let r22 = div_trunc(s * s - 2 * (x * x + y * y), s);
        InstanceRaw {
            model: [
                [r00, r01, r02, self.position[0]],
                [r10, r11, r12, self.position[1]],
                [r20, r21, r22, self.position[2]],
                [0, 0, 0, s],
            ],
        }
    }
}

/// The store of instances and the buffer of their raw forms.
///
/// Invariant: the raw buffer always holds exactly one entry per instance,
/// and each entry is the raw form of its instance.  An empty store is
/// valid and yields zero instanced draws.
pub struct InstanceStore {
    pub instances: Vec<Instance>,
    pub raws: Vec<InstanceRaw>,
}

impl InstanceStore {
    pub open spec fn wf(self) -> bool {
        &&& self.raws@.len() == self.instances@.len()
        &&& self.instances@.len() <= u32::MAX
        &&& forall|i: int| 0 <= i < self.instances@.len() ==> (#[trigger] self.instances@[i]).wf()
        &&& forall|i: int|
            0 <= i < self.instances@.len() ==> spec_matches_raw(
                #[trigger] self.instances@[i],
                self.raws@[i],
            )
    }

    /// An empty store: no instances, no raw entries.
    pub fn new() -> (r: InstanceStore)
        ensures
            r.wf(),
            r.instances@.len() == 0,
    {
        InstanceStore { instances: Vec::new(), raws: Vec::new() }
    }

    /// Replace the whole instance list: every raw form is recomputed and
    /// the raw buffer rebuilt in one shot, with no partial update.
    pub fn set_instances(&mut self, list: Vec<Instance>)
        requires
            forall|i: int| 0 <= i < list@.len() ==> (#[trigger] list@[i]).wf(),
            list@.len() <= u32::MAX,
        ensures
            final(self).wf(),
            final(self).instances@ == list@,
    {
        let n = list.len();
        let mut raws: Vec<InstanceRaw> = Vec::new();
        let mut i: usize = 0;
        while i < n
            invariant
                n == list@.len(),
                0 <= i <= n,
                raws@.len() == i,
                forall|k: int| 0 <= k < n ==> (#[trigger] list@[k]).wf(),
                forall|k: int|
                    0 <= k < i ==> spec_matches_raw(#[trigger] list@[k], raws@[k]),
            decreases n - i,
        {
            let raw = list[i].to_raw();
            raws.push(raw);
            i += 1;
        }
        self.instances = list;
        self.raws = raws;
    }

    /// Number of instances; always equals the raw buffer length.
    pub fn len(&self) -> (r: usize)
        requires
            self.wf(),
        ensures
            r == self.instances@.len(),
            r == self.raws@.len(),
    {
        self.instances.len()
    }

    /// The raw buffer, ready to bind as the instance vertex buffer.
    pub fn buffer(&self) -> (r: &Vec<InstanceRaw>)
        ensures
            *r == self.raws,
    {
        &self.raws
    }
}

/// `m` is the identity transform: ones (in fixed-point scale) on the
/// diagonal, zeroes everywhere else.
pub open spec fn spec_is_identity_matrix(m: [[i64; 4]; 4]) -> bool {
    forall|r: int, c: int|
        0 <= r < 4 && 0 <= c < 4 ==> #[trigger] m[r][c] == if r == c {
            FP_ONE as int
        } else {
            0
        }
}

/// The raw form of the instance at the origin with the identity rotation
/// is exactly the identity matrix.
pub proof fn lemma_identity_instance_raw_is_identity(inst: Instance, raw: InstanceRaw)
    requires
        inst.position[0] == 0,
        inst.position[1] == 0,
        inst.position[2] == 0,
        inst.rotation == spec_identity_rotation(),
        spec_matches_raw(inst, raw),
    ensures
        spec_is_identity_matrix(raw.model),
{
    assert forall|r: int, c: int| 0 <= r < 3 && 0 <= c < 3 implies #[trigger] spec_rot_entry(
        inst.rotation,
        r,
        c,
    ) == if r == c {
        FP_ONE as int
    } else {
        0
    } by {
        assert(spec_div_trunc(0, FP_ONE as int) == 0);
        assert((FP_ONE as int) * (FP_ONE as int) == 1_000_000_000_000) by (nonlinear_arith);
        assert(spec_div_trunc(1_000_000_000_000, FP_ONE as int) == FP_ONE as int);
    }
}

} // verus!
