//! The ordered dependency chain of constructed resources.
//!
//! Every object the builder constructs is recorded here, in creation
//! order, together with the chain positions of the parents it depends
//! on. Teardown follows the reverse of this order, so every child is
//! destroyed before each of its parents, every object exactly once —
//! also on the failure path, where the chain holds just the prefix built
//! before the failing native call.

use vstd::prelude::*;

use crate::error::Error;
use crate::registry::Key;

verus! {

/// The resource types of the dependency chain, from root to leaves.
#[derive(Clone, Copy, Debug, PartialEq, Eq, Structural)]
pub enum ResourceKind {
    Instance,
    DebugUtils,
    Surface,
    PhysicalDevice,
    Device,
    Queue,
    Swapchain,
    Image,
    ImageView,
    RenderPass,
    PipelineLayout,
    GraphicsPipeline,
    Framebuffer,
    CommandPool,
    CommandBuffer,
    Semaphore,
    Fence,
}

/// Which resource kind may appear as a declared parent of which: the
/// creation DAG of the renderer.
pub open spec fn spec_may_depend(child: ResourceKind, parent: ResourceKind) -> bool {
    match child {
        ResourceKind::Instance => false,
        ResourceKind::DebugUtils => parent == ResourceKind::Instance,
        ResourceKind::Surface => parent == ResourceKind::Instance,
        ResourceKind::PhysicalDevice => parent == ResourceKind::Instance,
        ResourceKind::Device => parent == ResourceKind::PhysicalDevice || parent
            == ResourceKind::Surface,
        ResourceKind::Queue => parent == ResourceKind::Device,
        ResourceKind::Swapchain => parent == ResourceKind::Device || parent
            == ResourceKind::Surface,
        ResourceKind::Image => parent == ResourceKind::Swapchain,
        ResourceKind::ImageView => parent == ResourceKind::Image,
        ResourceKind::RenderPass => parent == ResourceKind::Device || parent
            == ResourceKind::Swapchain,
        ResourceKind::PipelineLayout => parent == ResourceKind::Device,
        ResourceKind::GraphicsPipeline => parent == ResourceKind::RenderPass || parent
            == ResourceKind::PipelineLayout,
        ResourceKind::Framebuffer => parent == ResourceKind::Device || parent
            == ResourceKind::RenderPass || parent == ResourceKind::ImageView,
        ResourceKind::CommandPool => parent == ResourceKind::Device,
        ResourceKind::CommandBuffer => parent == ResourceKind::CommandPool,
        ResourceKind::Semaphore => parent == ResourceKind::Device,
        ResourceKind::Fence => parent == ResourceKind::Device,
    }
}

/// The depth of a resource kind in the creation DAG: a parent's level is
/// always strictly below its children's, so the relation is acyclic.
pub open spec fn spec_level(kind: ResourceKind) -> int {
    match kind {
        ResourceKind::Instance => 0,
        ResourceKind::DebugUtils => 1,
        ResourceKind::Surface => 1,
        ResourceKind::PhysicalDevice => 1,
        ResourceKind::Device => 2,
        ResourceKind::Queue => 3,
        ResourceKind::Swapchain => 3,
        ResourceKind::CommandPool => 3,
        ResourceKind::PipelineLayout => 3,
        ResourceKind::Image => 4,
        ResourceKind::RenderPass => 4,
        ResourceKind::CommandBuffer => 4,
        ResourceKind::Semaphore => 4,
        ResourceKind::Fence => 4,
        ResourceKind::ImageView => 5,
        ResourceKind::GraphicsPipeline => 5,
        ResourceKind::Framebuffer => 6,
    }
}

/// The creation relation is a DAG: every declared parent kind sits at a
/// strictly lower level than its child.
pub proof fn lemma_dependencies_are_acyclic(child: ResourceKind, parent: ResourceKind)
    requires
        spec_may_depend(child, parent),
    ensures
        spec_level(parent) < spec_level(child),
{
}

/// Whether `parent` may stand as a declared parent of `child`.
pub fn may_depend(child: ResourceKind, parent: ResourceKind) -> (r: bool)
    ensures
        r == spec_may_depend(child, parent),
{
    match child {
        ResourceKind::Instance => false,
        ResourceKind::DebugUtils => parent == ResourceKind::Instance,
        ResourceKind::Surface => parent == ResourceKind::Instance,
        ResourceKind::PhysicalDevice => parent == ResourceKind::Instance,
        ResourceKind::Device => parent == ResourceKind::PhysicalDevice || parent
            == ResourceKind::Surface,
        ResourceKind::Queue => parent == ResourceKind::Device,
        ResourceKind::Swapchain => parent == ResourceKind::Device || parent
            == ResourceKind::Surface,
        ResourceKind::Image => parent == ResourceKind::Swapchain,
        ResourceKind::ImageView => parent == ResourceKind::Image,
        ResourceKind::RenderPass => parent == ResourceKind::Device || parent
            == ResourceKind::Swapchain,
        ResourceKind::PipelineLayout => parent == ResourceKind::Device,
        ResourceKind::GraphicsPipeline => parent == ResourceKind::RenderPass || parent
            == ResourceKind::PipelineLayout,
        ResourceKind::Framebuffer => parent == ResourceKind::Device || parent
            == ResourceKind::RenderPass || parent == ResourceKind::ImageView,
        ResourceKind::CommandPool => parent == ResourceKind::Device,
        ResourceKind::CommandBuffer => parent == ResourceKind::CommandPool,
        ResourceKind::Semaphore => parent == ResourceKind::Device,
        ResourceKind::Fence => parent == ResourceKind::Device,
    }
}

/// One constructed resource: its creation sequence number (also its
/// position in the chain), its kind, its key in that kind's registry,
/// the native handle it owns, and the chain positions of its parents.
pub struct ChainEntry {
    pub id: usize,
    pub kind: ResourceKind,
    pub key: Key,
    pub handle: u64,
    pub parents: Vec<usize>,
}

/// The creation log of the renderer's object chain.
pub struct ResourceChain {
    entries: Vec<ChainEntry>,
}

impl ResourceChain {
    pub closed spec fn spec_entries(&self) -> Seq<ChainEntry> {
        self.entries@
    }

    /// Well-formedness: ids are positions, and every declared parent was
    /// created earlier and is of a kind the child may depend on.
    pub closed spec fn wf(&self) -> bool {
        &&& forall|p: int|
            0 <= p < self.entries@.len() ==> (#[trigger] self.entries@[p]).id == p
        &&& forall|p: int, q: int|
            0 <= p < self.entries@.len() && 0 <= q < self.entries@[p].parents@.len()
                ==> (#[trigger] self.entries@[p].parents@[q]) < p && spec_may_depend(
                self.entries@[p].kind,
                self.entries@[self.entries@[p].parents@[q] as int].kind,
            )
    }

    /// An empty chain.
    pub fn new() -> (c: ResourceChain)
        ensures
            c.wf(),
            c.spec_entries() == Seq::<ChainEntry>::empty(),
    {
        ResourceChain { entries: Vec::new() }
    }

    pub fn len(&self) -> (n: usize)
        ensures
            n == self.spec_entries().len(),
    {
        self.entries.len()
    }

    /// Records a newly constructed resource. Succeeds exactly when every
    /// declared parent names an earlier entry of a kind the child may
    /// depend on; otherwise the chain is unchanged and the lookup error
    /// is surfaced.
    pub fn push(&mut self, kind: ResourceKind, key: Key, handle: u64, parents: Vec<usize>) -> (r:
        Result<usize, Error>)
        requires
            old(self).wf(),
        ensures
            final(self).wf(),
            r is Ok <==> (forall|q: int|
                0 <= q < parents@.len() ==> parents@[q] < old(self).spec_entries().len()
                    && spec_may_depend(
                    kind,
                    old(self).spec_entries()[parents@[q] as int].kind,
                )),
            match r {
                Ok(id) => {
                    &&& id == old(self).spec_entries().len()
                    &&& final(self).spec_entries().len() == old(self).spec_entries().len() + 1
                    &&& final(self).spec_entries()[id as int].id == id
                    &&& final(self).spec_entries()[id as int].kind == kind
                    &&& final(self).spec_entries()[id as int].key == key
                    &&& final(self).spec_entries()[id as int].handle == handle
                    &&& final(self).spec_entries()[id as int].parents@ == parents@
                    &&& forall|p: int|
                        0 <= p < old(self).spec_entries().len() ==> final(self).spec_entries()[p]
                            == old(self).spec_entries()[p]
                },
                Err(e) => {
                    &&& e == Error::KeyNotFound
                    &&& final(self).spec_entries() == old(self).spec_entries()
                },
            },
    {
        let n = self.entries.len();
        let mut q: usize = 0;
        while q < parents.len()
            invariant
                self.wf(),
                self.spec_entries() == old(self).spec_entries(),
                n == self.entries@.len(),
                q <= parents@.len(),
                forall|t: int|
                    0 <= t < q ==> parents@[t] < n && spec_may_depend(
                        kind,
                        self.entries@[parents@[t] as int].kind,
                    ),
            decreases parents@.len() - q,
        {
            let p = parents[q];
            if p >= n {
                return Err(Error::KeyNotFound);
            }
            if !may_depend(kind, self.entries[p].kind) {
                return Err(Error::KeyNotFound);
            }
            q = q + 1;
        }
        let entry = ChainEntry { id: n, kind, key, handle, parents };
        self.entries.push(entry);
        Ok(n)
    }

    /// The entry at one chain position.
    pub fn get(&self, p: usize) -> (e: &ChainEntry)
        requires
            p < self.spec_entries().len(),
        ensures
            *e == self.spec_entries()[p as int],
    {
        &self.entries[p]
    }

    /// The teardown plan: one destruction step per recorded object, in
    /// strict reverse creation order. Destroying in this order destroys
    /// every recorded object exactly once, each child before each of its
    /// parents.
    pub fn teardown_steps(&self) -> (steps: Vec<TeardownStep>)
        requires
            self.wf(),
        ensures
            steps@.len() == self.spec_entries().len(),
            forall|t: int|
                0 <= t < steps@.len() ==> {
                    let e = self.spec_entries()[self.spec_entries().len() - 1 - t];
                    (#[trigger] steps@[t]) == (TeardownStep {
                        kind: e.kind,
                        key: e.key,
                        handle: e.handle,
                    })
                },
    {
        let n = self.entries.len();
        let mut steps: Vec<TeardownStep> = Vec::new();
        let mut t: usize = 0;
        while t < n
            invariant
                n == self.spec_entries().len(),
                t <= n,
                steps@.len() == t,
                forall|u: int|
                    0 <= u < t ==> {
                        let e = self.spec_entries()[n - 1 - u];
                        (#[trigger] steps@[u]) == (TeardownStep {
                            kind: e.kind,
                            key: e.key,
                            handle: e.handle,
                        })
                    },
            decreases n - t,
        {
            let entry = &self.entries[n - 1 - t];
            steps.push(TeardownStep { kind: entry.kind, key: entry.key, handle: entry.handle });
            t = t + 1;
        }
        steps
    }
}

/// One step of the teardown plan: destroy the native object `handle` of
/// kind `kind` and drop its registry entry under `key`.
#[derive(Clone, Copy, Debug, PartialEq, Eq, Structural)]
pub struct TeardownStep {
    pub kind: ResourceKind,
    pub key: Key,
    pub handle: u64,
}

/// Teardown in the plan's order destroys children before parents: every
/// declared parent was created earlier, so in the reversed order the
/// child's destruction step comes strictly before the parent's.
pub proof fn lemma_teardown_destroys_children_first(c: &ResourceChain, p: int, q: int)
    requires
        c.wf(),
        0 <= p < c.spec_entries().len(),
        0 <= q < c.spec_entries()[p].parents@.len(),
    ensures
        c.spec_entries()[p].parents@[q] < p,
        c.spec_entries().len() - 1 - p < c.spec_entries().len() - 1 - c.spec_entries()[p].parents@[
            q
        ],
{
}

} // verus!
