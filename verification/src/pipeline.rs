//! The registry of compiled pipeline variants.
//!
//! Each variant pairs a shader (vertex and fragment entry points) with the
//! buffer layouts it expects.  The registry is populated once at startup;
//! selecting a variant afterwards is a handle swap, never a rebuild.

use vstd::prelude::*;

use crate::error::RenderError;
use crate::geometry::spec_toggle_target;
use crate::layout::BufferLayout;

verus! {

/// One compiled shader/layout combination, selectable by its identifier.
pub struct PipelineVariant {
    pub id: String,
    pub vertex_entry: String,
    pub fragment_entry: String,
    pub layouts: Vec<BufferLayout>,
}

impl PipelineVariant {
    pub open spec fn wf(self) -> bool {
        forall|i: int| 0 <= i < self.layouts@.len() ==> (#[trigger] self.layouts@[i]).wf()
    }
}

/// Some variant in `variants` carries `id`.
pub open spec fn spec_has_variant(variants: Seq<PipelineVariant>, id: Seq<char>) -> bool {
    exists|i: int| 0 <= i < variants.len() && #[trigger] variants[i].id@ == id
}

/// `i` is the first position in `variants` that carries `id`.
pub open spec fn spec_is_first_variant(variants: Seq<PipelineVariant>, id: Seq<char>, i: int) -> bool {
    &&& 0 <= i < variants.len()
    &&& variants[i].id@ == id
    &&& forall|k: int| 0 <= k < i ==> #[trigger] variants[k].id@ != id
}

/// The registry of pipeline variants and the active selection.
pub struct PipelineRegistry {
    pub variants: Vec<PipelineVariant>,
    pub active: usize,
}

impl PipelineRegistry {
    pub open spec fn wf(self) -> bool {
        &&& self.variants@.len() > 0
        &&& self.active < self.variants@.len()
        &&& forall|i: int| 0 <= i < self.variants@.len() ==> (#[trigger] self.variants@[i]).wf()
    }

    /// The identifier of the active variant.
    pub open spec fn spec_active_id(self) -> Seq<char> {
        self.variants@[self.active as int].id@
    }

    /// Create a registry whose only variant is `initial`, which starts
    /// active.
    pub fn new(initial: PipelineVariant) -> (r: PipelineRegistry)
        requires
            initial.wf(),
        ensures
            r.wf(),
            r.variants@.len() == 1,
            r.variants@[0] == initial,
            r.active == 0,
    {
        let mut variants: Vec<PipelineVariant> = Vec::new();
        variants.push(initial);
        PipelineRegistry { variants, active: 0 }
    }

    /// Add a compiled variant.  Registration appends: it never disturbs the
    /// variants already present, their handles, or the active selection.
    pub fn register(&mut self, variant: PipelineVariant)
        requires
            old(self).wf(),
            variant.wf(),
        ensures
            final(self).wf(),
            final(self).variants@ == old(self).variants@.push(variant),
            final(self).active == old(self).active,
    {
        self.variants.push(variant);
    }

    /// Position of the first variant carrying `id`, if any.
    pub fn find(&self, id: &String) -> (r: Option<usize>)
        ensures
            match r {
                Some(i) => spec_is_first_variant(self.variants@, id@, i as int),
                None => !spec_has_variant(self.variants@, id@),
            },
    {
        let n = self.variants.len();
        let mut i: usize = 0;
        while i < n
            invariant
                n == self.variants@.len(),
                0 <= i <= n,
                forall|k: int| 0 <= k < i ==> #[trigger] self.variants@[k].id@ != id@,
            decreases n - i,
        {
            if self.variants[i].id == *id {
                return Some(i);
            }
            i += 1;
        }
        None
    }

    /// Make the variant carrying `id` the one that is bound, and return
    /// its handle.  The handle of an identifier never changes: selecting
    /// the same identifier again yields the same handle.  Fails with
    /// `UnknownPipeline`, leaving the registry untouched, exactly when the
    /// identifier was never registered.
    pub fn select(&mut self, id: &String) -> (r: Result<usize, RenderError>)
        requires
            old(self).wf(),
        ensures
            final(self).wf(),
            final(self).variants@ == old(self).variants@,
            match r {
                Ok(handle) => {
                    &&& spec_is_first_variant(old(self).variants@, id@, handle as int)
                    &&& final(self).active == handle
                },
                Err(e) => {
                    &&& e == RenderError::UnknownPipeline
                    &&& !spec_has_variant(old(self).variants@, id@)
                    &&& *final(self) == *old(self)
                },
            },
    {
        match self.find(id) {
            Some(i) => {
                self.active = i;
                Ok(i)
            },
            None => Err(RenderError::UnknownPipeline),
        }
    }

    /// The variant the frame renderer binds this tick.
    pub fn current(&self) -> (r: &PipelineVariant)
        requires
            self.wf(),
        ensures
            *r == self.variants@[self.active as int],
            r.wf(),
    {
        &self.variants[self.active]
    }

    /// Switch the active variant between the `primary` and `alternate`
    /// identifiers, as the geometry toggle does for sets.  Fails with
    /// `UnknownPipeline`, leaving the registry untouched, exactly when the
    /// target identifier was never registered.
    pub fn toggle(&mut self, primary: &String, alternate: &String) -> (r: Result<
        usize,
        RenderError,
    >)
        requires
            old(self).wf(),
        ensures
            final(self).wf(),
            final(self).variants@ == old(self).variants@,
            ({
                let target = spec_toggle_target(old(self).spec_active_id(), primary@, alternate@);
                match r {
                    Ok(handle) => {
                        &&& spec_is_first_variant(old(self).variants@, target, handle as int)
                        &&& final(self).active == handle
                        &&& final(self).spec_active_id() == target
                    },
                    Err(e) => {
                        &&& e == RenderError::UnknownPipeline
                        &&& !spec_has_variant(old(self).variants@, target)
                        &&& *final(self) == *old(self)
                    },
                }
            }),
    {
        let target: &String = if self.variants[self.active].id == *primary {
            alternate
        } else {
            primary
        };
        self.select(target)
    }
}

/// Toggling the pipeline mode twice restores the active identifier.
///
/// If the active variant carries the primary or the alternate identifier,
/// and both identifiers are registered, then toggling, and toggling again
/// from the registry the first toggle left behind, ends on a variant
/// carrying the identifier the registry started with.
pub proof fn lemma_pipeline_toggle_twice_restores_active_id(
    r0: PipelineRegistry,
    r1: PipelineRegistry,
    r2: PipelineRegistry,
    primary: Seq<char>,
    alternate: Seq<char>,
)
    requires
        r0.wf(),
        r0.spec_active_id() == primary || r0.spec_active_id() == alternate,
        spec_has_variant(r0.variants@, primary),
        spec_has_variant(r0.variants@, alternate),
        // what `toggle`'s ensures says of the first call
        r1.variants@ == r0.variants@,
        r1.spec_active_id() == spec_toggle_target(r0.spec_active_id(), primary, alternate),
        // and of the second
        r2.variants@ == r1.variants@,
        r2.spec_active_id() == spec_toggle_target(r1.spec_active_id(), primary, alternate),
    ensures
        r2.spec_active_id() == r0.spec_active_id(),
{
}

/// Selecting an identifier is stable: whenever two selections of the same
/// identifier on the same variant list both succeed, they return the same
/// handle, however many selections of other identifiers ran in between
/// (selection never changes the variant list).
pub proof fn lemma_select_returns_stable_handle(
    variants: Seq<PipelineVariant>,
    id: Seq<char>,
    h1: int,
    h2: int,
)
    requires
        spec_is_first_variant(variants, id, h1),
        spec_is_first_variant(variants, id, h2),
    ensures
        h1 == h2,
{
    if h1 < h2 {
        assert(variants[h1].id@ != id);
    }
    if h2 < h1 {
        assert(variants[h2].id@ != id);
    }
}

} // verus!
