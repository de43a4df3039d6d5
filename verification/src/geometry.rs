//! Named geometry sets and the store that owns them.
//!
//! A geometry set is a vertex buffer, an index buffer and a name.  Buffers
//! are immutable once built: `replace` swaps in a whole new pair, never
//! patches one in place.  The store keeps the active selection, which the
//! frame renderer reads once per tick.

use vstd::prelude::*;

use crate::error::RenderError;
use crate::fixed::{spec_div_trunc, div_trunc};

verus! {

/// One vertex: position and color, each three fixed-point coordinates.
#[derive(Clone, Copy, Debug, PartialEq)]
pub struct Vertex {
    pub position: [i64; 3],
    pub color: [i64; 3],
}

/// A named vertex/index buffer pair.
///
/// Invariant: every index refers into the vertex buffer, and the index
/// count (the buffer length) fits the `u32` a draw call takes.
pub struct GeometrySet {
    pub name: String,
    pub vertices: Vec<Vertex>,
    pub indices: Vec<u16>,
}

impl GeometrySet {
    pub open spec fn wf(self) -> bool {
        &&& forall|i: int|
            0 <= i < self.indices@.len() ==> #[trigger] self.indices@[i] < self.vertices@.len()
        &&& self.indices@.len() <= u32::MAX
        &&& self.vertices@.len() <= u32::MAX
    }

    /// Number of vertices a non-indexed draw of this set covers.
    pub fn vertex_count(&self) -> (r: u32)
        requires
            self.wf(),
        ensures
            r == self.vertices@.len(),
    {
        self.vertices.len() as u32
    }

    /// Number of indices a draw of this set covers; equals the index
    /// buffer length.
    pub fn index_count(&self) -> (r: u32)
        requires
            self.wf(),
        ensures
            r == self.indices@.len(),
    {
        self.indices.len() as u32
    }
}

/// Check that `indices` only refer into a vertex buffer of length
/// `vertex_count`, so that the pair may form a well-formed set.
pub fn indices_in_bounds(indices: &Vec<u16>, vertex_count: usize) -> (r: bool)
    ensures
        r == forall|i: int| 0 <= i < indices@.len() ==> #[trigger] indices@[i] < vertex_count,
{
    let n = indices.len();
    let mut i: usize = 0;
    while i < n
        invariant
            n == indices@.len(),
            0 <= i <= n,
            forall|k: int| 0 <= k < i ==> #[trigger] indices@[k] < vertex_count,
        decreases n - i,
    {
        if indices[i] as usize >= vertex_count {
            return false;
        }
        i += 1;
    }
    true
}

/// Some set in `sets` carries `name`.
pub open spec fn spec_has_named(sets: Seq<GeometrySet>, name: Seq<char>) -> bool {
    exists|i: int| 0 <= i < sets.len() && #[trigger] sets[i].name@ == name
}

/// `i` is the first position in `sets` that carries `name`.
pub open spec fn spec_is_first_named(sets: Seq<GeometrySet>, name: Seq<char>, i: int) -> bool {
    &&& 0 <= i < sets.len()
    &&& sets[i].name@ == name
    &&& forall|k: int| 0 <= k < i ==> #[trigger] sets[k].name@ != name
}

/// The store of named geometry sets and the active selection.
pub struct GeometryStore {
    pub sets: Vec<GeometrySet>,
    pub active: usize,
}

impl GeometryStore {
    pub open spec fn wf(self) -> bool {
        &&& self.sets@.len() > 0
        &&& self.active < self.sets@.len()
        &&& forall|i: int| 0 <= i < self.sets@.len() ==> (#[trigger] self.sets@[i]).wf()
    }

    /// The identifier of the active set.
    pub open spec fn spec_active_name(self) -> Seq<char> {
        self.sets@[self.active as int].name@
    }

    /// Create a store whose only set is `initial`, which starts active.
    pub fn new(initial: GeometrySet) -> (r: GeometryStore)
        requires
            initial.wf(),
        ensures
            r.wf(),
            r.sets@.len() == 1,
            r.sets@[0] == initial,
            r.active == 0,
    {
        let mut sets: Vec<GeometrySet> = Vec::new();
        sets.push(initial);
        GeometryStore { sets, active: 0 }
    }

    /// Position of the first set named `name`, if any.
    pub fn find(&self, name: &String) -> (r: Option<usize>)
        ensures
            match r {
                Some(i) => spec_is_first_named(self.sets@, name@, i as int),
                None => !spec_has_named(self.sets@, name@),
            },
    {
        let n = self.sets.len();
        let mut i: usize = 0;
        while i < n
            invariant
                n == self.sets@.len(),
                0 <= i <= n,
                forall|k: int| 0 <= k < i ==> #[trigger] self.sets@[k].name@ != name@,
            decreases n - i,
        {
            if self.sets[i].name == *name {
                return Some(i);
            }
            i += 1;
        }
        None
    }

    /// Make the set named `name` the one that is drawn.  Fails with
    /// `UnknownGeometry`, leaving the store untouched, exactly when no set
    /// carries that name; the sets themselves are never changed.
    pub fn set_active(&mut self, name: &String) -> (r: Result<(), RenderError>)
        requires
            old(self).wf(),
        ensures
            final(self).wf(),
            final(self).sets@ == old(self).sets@,
            match r {
                Ok(()) => spec_is_first_named(
                    old(self).sets@,
                    name@,
                    final(self).active as int,
                ),
                Err(e) => {
                    &&& e == RenderError::UnknownGeometry
                    &&& !spec_has_named(old(self).sets@, name@)
                    &&& *final(self) == *old(self)
                },
            },
    {
        match self.find(name) {
            Some(i) => {
                self.active = i;
                Ok(())
            },
            None => Err(RenderError::UnknownGeometry),
        }
    }

    /// The set the frame renderer draws this tick.
    pub fn current(&self) -> (r: &GeometrySet)
        requires
            self.wf(),
        ensures
            *r == self.sets@[self.active as int],
            r.wf(),
    {
        &self.sets[self.active]
    }

    /// Replace the buffers under `name` with a freshly built pair, or
    /// register them under that name if it was never used.  The old
    /// buffers are dropped only after the new set is fully built, and no
    /// other set, nor the active selection, is touched.
    pub fn replace(&mut self, name: String, vertices: Vec<Vertex>, indices: Vec<u16>) -> (r:
        Result<(), RenderError>)
        requires
            old(self).wf(),
            forall|i: int| 0 <= i < indices@.len() ==> #[trigger] indices@[i] < vertices@.len(),
            indices@.len() <= u32::MAX,
            vertices@.len() <= u32::MAX,
        ensures
            final(self).wf(),
            r is Ok,
            final(self).active == old(self).active,
            ({
                let fresh = GeometrySet { name, vertices, indices };
                if spec_has_named(old(self).sets@, name@) {
                    exists|i: int|
                        {
                            &&& #[trigger] spec_is_first_named(old(self).sets@, name@, i)
                            &&& final(self).sets@ == old(self).sets@.update(i, fresh)
                        }
                } else {
                    final(self).sets@ == old(self).sets@.push(fresh)
                }
            }),
    {
        let fresh = GeometrySet { name, vertices, indices };
        match self.find(&fresh.name) {
            Some(i) => {
                self.sets[i] = fresh;
                Ok(())
            },
            None => {
                self.sets.push(fresh);
                Ok(())
            },
        }
    }
}

/// Scale every vertex position down by two, keeping colors: the form in
/// which the unit-cube set is registered so it fits the view volume.
pub fn halve_positions(vertices: &Vec<Vertex>) -> (r: Vec<Vertex>)
    requires
        forall|i: int, k: int|
            0 <= i < vertices@.len() && 0 <= k < 3 ==> -0x4000_0000_0000_0000 <= (
            #[trigger] vertices@[i].position[k]) <= 0x4000_0000_0000_0000,
    ensures
        r@.len() == vertices@.len(),
        forall|i: int, k: int|
            0 <= i < vertices@.len() && 0 <= k < 3 ==> (#[trigger] r@[i].position[k])
                == spec_div_trunc(vertices@[i].position[k] as int, 2),
        forall|i: int| 0 <= i < vertices@.len() ==> (#[trigger] r@[i].color) == vertices@[i].color,
{
    let n = vertices.len();
    let mut out: Vec<Vertex> = Vec::new();
    let mut i: usize = 0;
    while i < n
        invariant
            n == vertices@.len(),
            0 <= i <= n,
            out@.len() == i,
            forall|i2: int, k: int|
                0 <= i2 < n && 0 <= k < 3 ==> -0x4000_0000_0000_0000 <= (
                #[trigger] vertices@[i2].position[k]) <= 0x4000_0000_0000_0000,
            forall|i2: int, k: int|
                0 <= i2 < i && 0 <= k < 3 ==> (#[trigger] out@[i2].position[k]) == spec_div_trunc(
                    vertices@[i2].position[k] as int,
                    2,
                ),
            forall|i2: int| 0 <= i2 < i ==> (#[trigger] out@[i2].color) == vertices@[i2].color,
        decreases n - i,
    {
        let v = vertices[i];
        let halved = Vertex {
            position: [
                div_trunc(v.position[0], 2),
                div_trunc(v.position[1], 2),
                div_trunc(v.position[2], 2),
            ],
            color: v.color,
        };
        proof {
            assert(vertices@[i as int].position[0] == v.position[0]);
            assert(vertices@[i as int].position[1] == v.position[1]);
            assert(vertices@[i as int].position[2] == v.position[2]);
        }
        out.push(halved);
        proof {
            assert(forall|k: int| 0 <= k < 3 ==> (#[trigger] out@[i as int].position[k])
                == spec_div_trunc(vertices@[i as int].position[k] as int, 2));
        }
        i += 1;
    }
    out
}

/// The identifier a toggle switches to: the alternate if the active set is
/// the primary, the primary otherwise.
pub open spec fn spec_toggle_target(active_name: Seq<char>, primary: Seq<char>, alternate: Seq<
    char,
>) -> Seq<char> {
    if active_name == primary {
        alternate
    } else {
        primary
    }
}

impl GeometryStore {
    /// Switch the active set between the `primary` and `alternate`
    /// identifiers: from the primary to the alternate, from anything else
    /// to the primary.  Fails with `UnknownGeometry`, leaving the store
    /// untouched, exactly when the target identifier names no set.
    pub fn toggle(&mut self, primary: &String, alternate: &String) -> (r: Result<(), RenderError>)
        requires
            old(self).wf(),
        ensures
            final(self).wf(),
            final(self).sets@ == old(self).sets@,
            ({
                let target = spec_toggle_target(old(self).spec_active_name(), primary@, alternate@);
                match r {
                    Ok(()) => spec_is_first_named(
                        old(self).sets@,
                        target,
                        final(self).active as int,
                    ) && final(self).spec_active_name() == target,
                    Err(e) => {
                        &&& e == RenderError::UnknownGeometry
                        &&& !spec_has_named(old(self).sets@, target)
                        &&& *final(self) == *old(self)
                    },
                }
            }),
    {
        let target: &String = if self.sets[self.active].name == *primary {
            alternate
        } else {
            primary
        };
        self.set_active(target)
    }
}

/// Toggling the geometry mode twice restores the active identifier.
///
/// If the active set is named by the primary or the alternate identifier,
/// and both identifiers name a set, then toggling, and toggling again from
/// the state the first toggle left behind, ends on a set carrying the
/// identifier the store started with.
pub proof fn lemma_toggle_twice_restores_active_name(
    s0: GeometryStore,
    s1: GeometryStore,
    s2: GeometryStore,
    primary: Seq<char>,
    alternate: Seq<char>,
)
    requires
        s0.wf(),
        s0.spec_active_name() == primary || s0.spec_active_name() == alternate,
        spec_has_named(s0.sets@, primary),
        spec_has_named(s0.sets@, alternate),
        // what `toggle`'s ensures says of the first call
        s1.sets@ == s0.sets@,
        s1.spec_active_name() == spec_toggle_target(s0.spec_active_name(), primary, alternate),
        // and of the second
        s2.sets@ == s1.sets@,
        s2.spec_active_name() == spec_toggle_target(s1.spec_active_name(), primary, alternate),
    ensures
        s2.spec_active_name() == s0.spec_active_name(),
{
}

} // verus!
