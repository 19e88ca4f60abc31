//! Physical-device selection: filter the enumerated devices against the
//! capability and presentation-support predicates, keep the best survivor
//! and remove every other candidate from the registry.

use vstd::prelude::*;

use crate::error::Error;
use crate::registry::{Key, Registry};

verus! {

/// What the selection logic reads of one queue family: whether it can
/// record graphics work and whether its presentation support for the
/// target surface was confirmed.
#[derive(Clone, Copy, Debug, PartialEq, Eq, Structural)]
pub struct QueueFamilyProperties {
    pub graphics: bool,
    pub present: bool,
}

/// What the selection logic reads of one candidate physical device: its
/// native handle, a deterministic ranking key (higher is better, e.g.
/// discrete above integrated), and its queue families.
#[derive(Debug)]
pub struct PhysicalDeviceInfo {
    pub handle: u64,
    pub type_rank: u32,
    pub queue_families: Vec<QueueFamilyProperties>,
}

/// The device exposes at least one queue family supporting graphics.
pub open spec fn spec_supports_graphics(d: PhysicalDeviceInfo) -> bool {
    exists|i: int| 0 <= i < d.queue_families@.len() && d.queue_families@[i].graphics
}

/// The device exposes at least one queue family whose presentation
/// support for the target surface is confirmed.
pub open spec fn spec_supports_present(d: PhysicalDeviceInfo) -> bool {
    exists|i: int| 0 <= i < d.queue_families@.len() && d.queue_families@[i].present
}

/// The intersection of graphics-capable and presentation-capable queue
/// families is non-empty.
pub open spec fn spec_shared_family(d: PhysicalDeviceInfo) -> bool {
    exists|i: int|
        0 <= i < d.queue_families@.len() && d.queue_families@[i].graphics
            && d.queue_families@[i].present
}

/// A device is usable when it passes both the capability predicate and
/// the surface-compatibility predicate.
pub open spec fn spec_suitable(d: PhysicalDeviceInfo) -> bool {
    spec_supports_graphics(d) && spec_supports_present(d) && spec_shared_family(d)
}

impl PhysicalDeviceInfo {
    /// Tests the capability and surface-compatibility predicates.
    pub fn is_suitable(&self) -> (r: bool)
        ensures
            r == spec_suitable(*self),
    {
        let mut has_graphics = false;
        let mut has_present = false;
        let mut has_shared = false;
        let n = self.queue_families.len();
        let mut i: usize = 0;
        while i < n
            invariant
                n == self.queue_families@.len(),
                i <= n,
                has_graphics == exists|t: int|
                    0 <= t < i && self.queue_families@[t].graphics,
                has_present == exists|t: int|
                    0 <= t < i && self.queue_families@[t].present,
                has_shared == exists|t: int|
                    0 <= t < i && self.queue_families@[t].graphics
                        && self.queue_families@[t].present,
            decreases n - i,
        {
            let family = self.queue_families[i];
            if family.graphics {
                has_graphics = true;
            }
            if family.present {
                has_present = true;
            }
            if family.graphics && family.present {
                has_shared = true;
            }
            i = i + 1;
        }
        has_graphics && has_present && has_shared
    }

    /// The index of the first queue family supporting graphics, if any:
    /// the family the command pool is created on.
    pub fn graphics_family_index(&self) -> (r: Option<usize>)
        ensures
            match r {
                Some(i) => {
                    &&& i < self.queue_families@.len()
                    &&& self.queue_families@[i as int].graphics
                    &&& forall|t: int| 0 <= t < i ==> !self.queue_families@[t].graphics
                },
                None => !spec_supports_graphics(*self),
            },
    {
        let n = self.queue_families.len();
        let mut i: usize = 0;
        while i < n
            invariant
                n == self.queue_families@.len(),
                i <= n,
                forall|t: int| 0 <= t < i ==> !self.queue_families@[t].graphics,
            decreases n - i,
        {
            if self.queue_families[i].graphics {
                return Some(i);
            }
            i = i + 1;
        }
        None
    }
}

/// The candidate key resolves in the registry and its device passes both
/// selection predicates.
pub open spec fn spec_passes(m: Map<Key, PhysicalDeviceInfo>, k: Key) -> bool {
    m.dom().contains(k) && spec_suitable(m[k])
}

/// Candidate `i` is the selection winner: it passes both predicates, no
/// passing candidate outranks it, and every earlier passing candidate is
/// strictly outranked — ties resolve to the first maximal element in
/// enumeration order.
pub open spec fn spec_first_best(
    candidates: Seq<Key>,
    m: Map<Key, PhysicalDeviceInfo>,
    i: int,
) -> bool {
    &&& 0 <= i < candidates.len()
    &&& spec_passes(m, candidates[i])
    &&& forall|j: int|
        0 <= j < candidates.len() && spec_passes(m, #[trigger] candidates[j])
            ==> m[candidates[j]].type_rank <= m[candidates[i]].type_rank
    &&& forall|j: int|
        0 <= j < i && spec_passes(m, #[trigger] candidates[j])
            ==> m[candidates[j]].type_rank < m[candidates[i]].type_rank
}

/// Membership in a prefix one longer: the new element, or membership in
/// the shorter prefix.
proof fn lemma_take_succ_contains(s: Seq<Key>, j: int, k2: Key)
    requires
        0 <= j < s.len(),
    ensures
        s.take(j + 1).contains(k2) == (s.take(j).contains(k2) || k2 == s[j]),
{
    if s.take(j).contains(k2) {
        let t = choose|t: int| 0 <= t < s.take(j).len() && s.take(j)[t] == k2;
        assert(s.take(j + 1)[t] == k2);
        assert(s.take(j + 1).contains(k2));
    }
    if k2 == s[j] {
        assert(s.take(j + 1)[j] == k2);
        assert(s.take(j + 1).contains(k2));
    }
    if s.take(j + 1).contains(k2) {
        let t = choose|t: int| 0 <= t < s.take(j + 1).len() && #[trigger] s.take(j + 1)[t] == k2;
        if t < j {
            assert(s.take(j)[t] == k2);
            assert(s.take(j).contains(k2));
        } else {
            assert(k2 == s[j]);
        }
    }
}

/// Picks exactly one physical device usable for both graphics submission
/// and presentation. Candidates failing either predicate are removed from
/// the registry, the best survivor (first maximal rank in enumeration
/// order) is kept, and all other survivors are removed as well. When no
/// candidate survives, every candidate is removed and selection fails.
pub fn select_physical_device(
    registry: &mut Registry<PhysicalDeviceInfo>,
    candidates: &Vec<Key>,
) -> (r: Result<Key, Error>)
    requires
        old(registry).wf(),
        forall|j: int|
            0 <= j < candidates@.len() ==> old(registry)@.dom().contains(
                #[trigger] candidates@[j],
            ),
        forall|a: int, b: int|
            0 <= a < b < candidates@.len() ==> candidates@[a] != candidates@[b],
    ensures
        final(registry).wf(),
        forall|k2: Key|
            #[trigger] final(registry)@.dom().contains(k2) ==> final(registry)@[k2] == old(
                registry,
            )@[k2],
        match r {
            Ok(k) => {
                &&& exists|i: int|
                    spec_first_best(candidates@, old(registry)@, i) && candidates@[i] == k
                &&& forall|k2: Key|
                    #[trigger] final(registry)@.dom().contains(k2) == (old(
                        registry,
                    )@.dom().contains(k2) && (!candidates@.contains(k2) || k2 == k))
            },
            Err(e) => {
                &&& e == Error::NoSuitableDevice
                &&& forall|j: int|
                    0 <= j < candidates@.len() ==> !spec_passes(
                        old(registry)@,
                        #[trigger] candidates@[j],
                    )
                &&& forall|k2: Key|
                    #[trigger] final(registry)@.dom().contains(k2) == (old(
                        registry,
                    )@.dom().contains(k2) && !candidates@.contains(k2))
            },
        },
{
    let ghost m0 = registry@;
    let n = candidates.len();

    // First pass: find the winner, the first maximal passing candidate in
    // enumeration order.
    let mut best: Option<usize> = None;
    let mut j: usize = 0;
    while j < n
        invariant
            n == candidates@.len(),
            j <= n,
            registry@ == m0,
            registry.wf(),
            forall|t: int|
                0 <= t < candidates@.len() ==> m0.dom().contains(#[trigger] candidates@[t]),
            match best {
                Some(b) => {
                    &&& b < j
                    &&& spec_passes(m0, candidates@[b as int])
                    &&& forall|t: int|
                        0 <= t < j && spec_passes(m0, #[trigger] candidates@[t])
                            ==> m0[candidates@[t]].type_rank <= m0[candidates@[b as int]].type_rank
                    &&& forall|t: int|
                        0 <= t < b && spec_passes(m0, #[trigger] candidates@[t])
                            ==> m0[candidates@[t]].type_rank < m0[candidates@[b as int]].type_rank
                },
                None => forall|t: int|
                    0 <= t < j ==> !spec_passes(m0, #[trigger] candidates@[t]),
            },
        decreases n - j,
    {
        let k = candidates[j];
        let info = registry.get(k);
        match info {
            Some(d) => {
                if d.is_suitable() {
                    let rank = d.type_rank;
                    match best {
                        Some(b) => {
                            let best_key = candidates[b];
                            let best_rank = match registry.get(best_key) {
                                Some(bd) => bd.type_rank,
                                None => 0,
                            };
                            if rank > best_rank {
                                best = Some(j);
                            }
                        },
                        None => {
                            best = Some(j);
                        },
                    }
                }
            },
            None => {
                // The candidate was required to resolve.
            },
        }
        j = j + 1;
    }

    // Second pass: remove every candidate but the winner.
    match best {
        Some(b) => {
            let selected = candidates[b];
            let mut j2: usize = 0;
            while j2 < n
                invariant
                    n == candidates@.len(),
                    j2 <= n,
                    b < n,
                    selected == candidates@[b as int],
                    registry.wf(),
                    forall|a: int, c: int|
                        0 <= a < c < candidates@.len() ==> candidates@[a] != candidates@[c],
                    forall|k2: Key|
                        #[trigger] registry@.dom().contains(k2) == (m0.dom().contains(k2) && (
                        !candidates@.take(j2 as int).contains(k2) || k2 == selected)),
                    forall|k2: Key|
                        #[trigger] registry@.dom().contains(k2) ==> registry@[k2] == m0[k2],
                decreases n - j2,
            {
                let k = candidates[j2];
                if !(k == selected) {
                    let ghost pre = registry@;
                    let _removed = registry.remove(k);
                    proof {
                        assert forall|k2: Key| registry@.dom().contains(k2) == (m0.dom().contains(
                            k2,
                        ) && (!candidates@.take(j2 as int + 1).contains(k2) || k2 == selected)) by {
                            lemma_take_succ_contains(candidates@, j2 as int, k2);
                        }
                    }
                } else {
                    proof {
                        assert forall|k2: Key| registry@.dom().contains(k2) == (m0.dom().contains(
                            k2,
                        ) && (!candidates@.take(j2 as int + 1).contains(k2) || k2 == selected)) by {
                            lemma_take_succ_contains(candidates@, j2 as int, k2);
                        }
                    }
                }
                j2 = j2 + 1;
            }
            proof {
                assert(candidates@.take(n as int) =~= candidates@);
                assert(spec_first_best(candidates@, m0, b as int));
            }
            Ok(selected)
        },
        None => {
            let mut j2: usize = 0;
            while j2 < n
                invariant
                    n == candidates@.len(),
                    j2 <= n,
                    registry.wf(),
                    forall|a: int, c: int|
                        0 <= a < c < candidates@.len() ==> candidates@[a] != candidates@[c],
                    forall|k2: Key|
                        #[trigger] registry@.dom().contains(k2) == (m0.dom().contains(k2)
                            && !candidates@.take(j2 as int).contains(k2)),
                    forall|k2: Key|
                        #[trigger] registry@.dom().contains(k2) ==> registry@[k2] == m0[k2],
                decreases n - j2,
            {
                let k = candidates[j2];
                let _removed = registry.remove(k);
                proof {
                    assert forall|k2: Key| registry@.dom().contains(k2) == (m0.dom().contains(k2)
                        && !candidates@.take(j2 as int + 1).contains(k2)) by {
                        lemma_take_succ_contains(candidates@, j2 as int, k2);
                    }
                }
                j2 = j2 + 1;
            }
            proof {
                assert(candidates@.take(n as int) =~= candidates@);
            }
            Err(Error::NoSuitableDevice)
        },
    }
}

/// When the candidates cover the whole registry, selection leaves exactly
/// the selected device live: the registry contains one physical device
/// afterwards and no trace of any rejected candidate.
pub proof fn lemma_selection_leaves_exactly_one(
    before: Map<Key, PhysicalDeviceInfo>,
    after: Map<Key, PhysicalDeviceInfo>,
    candidates: Seq<Key>,
    k: Key,
)
    requires
        forall|k2: Key| #[trigger] before.dom().contains(k2) ==> candidates.contains(k2),
        candidates.contains(k),
        before.dom().contains(k),
        forall|k2: Key|
            #[trigger] after.dom().contains(k2) == (before.dom().contains(k2) && (
            !candidates.contains(k2) || k2 == k)),
    ensures
        after.dom() =~= set![k],
{
    assert forall|k2: Key| after.dom().contains(k2) == set![k].contains(k2) by {
        if after.dom().contains(k2) {
            assert(before.dom().contains(k2));
            assert(candidates.contains(k2));
            assert(k2 == k);
        }
        if k2 == k {
            assert(after.dom().contains(k2));
        }
    }
}

} // verus!
