//! Frame synchronization engine: the bounded ring of in-flight frame
//! slots and the acquire/submit/present protocol.
//!
//! Each frame slot owns an "image available" semaphore, a "render
//! finished" semaphore and a frame fence; a table indexed by swapchain
//! image records which slot, if any, currently owns that image. The
//! engine decides the protocol; the surrounding application performs the
//! native waits, the submission and the presentation that a returned
//! [`FramePlan`] prescribes. The ghost event history carries the proof
//! that no slot's command buffer is ever resubmitted before its previous
//! submission's fence has been waited on.

use vstd::prelude::*;

verus! {

/// One synchronization action of the protocol, as it appears in the
/// engine's event history.
#[derive(Clone, Copy, Debug, PartialEq, Eq, Structural)]
pub enum FrameEvent {
    /// The host blocked until the fence of this slot was signaled.
    WaitFence { slot: usize },
    /// The fence of this slot was reset to unsignaled.
    ResetFence { slot: usize },
    /// The pre-recorded command buffer of this image was submitted on the
    /// graphics queue; the slot's fence signals on completion.
    Submit { slot: usize, image: usize },
    /// The image was presented, waiting on the slot's render-finished
    /// semaphore.
    Present { slot: usize, image: usize },
}

/// The event waits on the fence of slot `f`.
pub open spec fn is_wait_of(e: FrameEvent, f: int) -> bool {
    match e {
        FrameEvent::WaitFence { slot } => slot == f,
        _ => false,
    }
}

/// The event submits work fenced by slot `f`.
pub open spec fn is_submit_of(e: FrameEvent, f: int) -> bool {
    match e {
        FrameEvent::Submit { slot, image: _ } => slot == f,
        _ => false,
    }
}

/// The event submits work fenced by some slot.
pub open spec fn is_submit(e: FrameEvent) -> bool {
    match e {
        FrameEvent::Submit { slot: _, image: _ } => true,
        _ => false,
    }
}

/// No wait on the fence of slot `f` occurs after position `j`.
pub open spec fn no_wait_after(h: Seq<FrameEvent>, f: int, j: int) -> bool {
    forall|m: int| j < m < h.len() ==> !is_wait_of(#[trigger] h[m], f)
}

/// Slot `f` has a submission whose completion has not yet been waited on.
pub open spec fn pending_submit(h: Seq<FrameEvent>, f: int) -> bool {
    exists|j: int| 0 <= j < h.len() && is_submit_of(#[trigger] h[j], f) && no_wait_after(h, f, j)
}

/// A wait on the fence of slot `f` stands strictly between the two
/// positions.
pub open spec fn wait_between(h: Seq<FrameEvent>, f: int, j1: int, j2: int) -> bool {
    exists|m: int| j1 < m < j2 && is_wait_of(#[trigger] h[m], f)
}

/// Between any two submissions fenced by the same slot stands a wait on
/// that slot's fence: a command buffer is never resubmitted while its
/// previous submission may still be executing.
pub open spec fn wf_submission_history(h: Seq<FrameEvent>) -> bool {
    forall|j1: int, j2: int, f: int|
        0 <= j1 < j2 < h.len() && #[trigger] is_submit_of(h[j1], f) && #[trigger] is_submit_of(
            h[j2],
            f,
        ) ==> wait_between(h, f, j1, j2)
}

/// Appending events that neither wait on nor submit to slot `f` does not
/// change whether `f` has a pending submission.
proof fn lemma_append_preserves_pending(h: Seq<FrameEvent>, e: Seq<FrameEvent>, f: int)
    requires
        forall|j: int|
            0 <= j < e.len() ==> !is_wait_of(#[trigger] e[j], f) && !is_submit_of(e[j], f),
    ensures
        pending_submit(h + e, f) == pending_submit(h, f),
{
    let h2 = h + e;
    if pending_submit(h, f) {
        let j = choose|j: int|
            0 <= j < h.len() && is_submit_of(#[trigger] h[j], f) && no_wait_after(h, f, j);
        assert(h2[j] == h[j]);
        assert forall|m: int| j < m < h2.len() implies !is_wait_of(#[trigger] h2[m], f) by {
            if m < h.len() {
                assert(h2[m] == h[m]);
            } else {
                assert(h2[m] == e[m - h.len()]);
            }
        }
        assert(is_submit_of(h2[j], f) && no_wait_after(h2, f, j));
        assert(pending_submit(h2, f));
    }
    if pending_submit(h2, f) {
        let j = choose|j: int|
            0 <= j < h2.len() && is_submit_of(#[trigger] h2[j], f) && no_wait_after(h2, f, j);
        if j >= h.len() {
            assert(h2[j] == e[j - h.len()]);
            assert(false);
        }
        assert(h2[j] == h[j]);
        assert forall|m: int| j < m < h.len() implies !is_wait_of(#[trigger] h[m], f) by {
            assert(h2[m] == h[m]);
        }
        assert(pending_submit(h, f));
    }
}

/// After waiting on the fence of slot `f`, slot `f` has no pending
/// submission.
proof fn lemma_wait_clears_pending(h: Seq<FrameEvent>, f: int)
    requires
        0 <= f <= usize::MAX,
    ensures
        !pending_submit(h.push(FrameEvent::WaitFence { slot: f as usize }), f),
{
    let h2 = h.push(FrameEvent::WaitFence { slot: f as usize });
    assert forall|j: int|
        0 <= j < h2.len() && is_submit_of(#[trigger] h2[j], f) implies !no_wait_after(
        h2,
        f,
        j,
    ) by {
        assert(j < h.len());
        assert(is_wait_of(h2[h.len() as int], f));
    }
}

/// Appending events that contain no submission preserves the submission
/// discipline of the history.
proof fn lemma_append_no_submit_preserves_wf(h: Seq<FrameEvent>, e: Seq<FrameEvent>)
    requires
        wf_submission_history(h),
        forall|j: int| 0 <= j < e.len() ==> !is_submit(#[trigger] e[j]),
    ensures
        wf_submission_history(h + e),
{
    let h2 = h + e;
    assert forall|j1: int, j2: int, f: int|
        0 <= j1 < j2 < h2.len() && #[trigger] is_submit_of(h2[j1], f) && #[trigger] is_submit_of(
            h2[j2],
            f,
        ) implies wait_between(h2, f, j1, j2) by {
        assert(j2 < h.len()) by {
            if j2 >= h.len() {
                assert(h2[j2] == e[j2 - h.len()]);
            }
        }
        assert(h2[j1] == h[j1]);
        assert(h2[j2] == h[j2]);
        assert(wait_between(h, f, j1, j2));
        let m = choose|m: int| j1 < m < j2 && is_wait_of(#[trigger] h[m], f);
        assert(h2[m] == h[m]);
        assert(wait_between(h2, f, j1, j2));
    }
}

/// The plan of one steady-state frame: the synchronization actions the
/// application must perform, in order, around the already-acquired image.
#[derive(Clone, Copy, Debug, PartialEq, Eq, Structural)]
pub struct FramePlan {
    /// The frame slot `f` whose per-slot resources this frame uses.
    pub frame_slot: usize,
    /// Step 1: block on this frame fence before touching any per-slot
    /// resource (always the slot's own fence).
    pub first_wait_fence: usize,
    /// Step 3: if the acquired image is still owned by some frame fence,
    /// block on that fence too before submitting.
    pub extra_wait_fence: Option<usize>,
    /// The acquired swapchain image.
    pub image_index: usize,
    /// Step 5: the pre-recorded command buffer to submit (one per image).
    pub command_buffer_index: usize,
    /// Step 5: the "image available" semaphore the submission waits on at
    /// the color-output stage (the slot's own).
    pub wait_semaphore: usize,
    /// Steps 5 and 6: the "render finished" semaphore the submission
    /// signals and the presentation waits on (the slot's own).
    pub signal_semaphore: usize,
    /// Step 5: the fence to reset and have the submission signal (the
    /// slot's own).
    pub reset_and_signal_fence: usize,
}

/// The events one `render` transition appends to the history.
pub open spec fn spec_render_events(f: usize, extra: Option<usize>, image: usize) -> Seq<
    FrameEvent,
> {
    let tail = seq![
        FrameEvent::ResetFence { slot: f },
        FrameEvent::Submit { slot: f, image },
        FrameEvent::Present { slot: f, image },
    ];
    match extra {
        Some(g) => seq![
            FrameEvent::WaitFence { slot: f },
            FrameEvent::WaitFence { slot: g },
        ] + tail,
        None => seq![FrameEvent::WaitFence { slot: f }] + tail,
    }
}

/// The bounded ring of in-flight frame slots and the per-image ownership
/// table, together with the model of what is known of each frame fence.
pub struct FrameEngine {
    frame_count: usize,
    image_count: usize,
    frame_index: usize,
    /// Whether the completion of the slot's last submission has been
    /// observed (fences are created signaled).
    fence_signaled: Vec<bool>,
    /// For each swapchain image, the frame slot whose fence currently
    /// owns it.
    images_in_flight: Vec<Option<usize>>,
    history: Ghost<Seq<FrameEvent>>,
}

impl FrameEngine {
    pub closed spec fn spec_frame_count(&self) -> usize {
        self.frame_count
    }

    pub closed spec fn spec_image_count(&self) -> usize {
        self.image_count
    }

    pub closed spec fn spec_frame_index(&self) -> usize {
        self.frame_index
    }

    /// The fence state of every slot: whether the completion of the
    /// slot's last submission has been observed.
    pub closed spec fn spec_fences(&self) -> Seq<bool> {
        self.fence_signaled@
    }

    /// The ownership table: for each swapchain image, the frame slot
    /// whose fence currently owns it.
    pub closed spec fn spec_owners(&self) -> Seq<Option<usize>> {
        self.images_in_flight@
    }

    pub open spec fn spec_fence_signaled(&self, f: int) -> bool {
        self.spec_fences()[f]
    }

    pub open spec fn spec_image_owner(&self, i: int) -> Option<usize> {
        self.spec_owners()[i]
    }

    pub closed spec fn spec_history(&self) -> Seq<FrameEvent> {
        self.history@
    }

    /// The engine invariant: indices in range, the ownership table names
    /// real slots, the submission discipline holds of the history, and a
    /// slot's fence is unsignaled exactly while a submission of that slot
    /// has not yet been waited on.
    pub closed spec fn wf(&self) -> bool {
        &&& self.frame_count >= 1
        &&& self.frame_index < self.frame_count
        &&& self.fence_signaled@.len() == self.frame_count
        &&& self.images_in_flight@.len() == self.image_count
        &&& forall|i: int|
            0 <= i < self.images_in_flight@.len() && (#[trigger] self.images_in_flight@[i])
                is Some ==> self.images_in_flight@[i].unwrap() < self.frame_count
        &&& wf_submission_history(self.history@)
        &&& forall|f: int|
            0 <= f < self.frame_count ==> (!(#[trigger] self.fence_signaled@[f])
                == pending_submit(self.history@, f))
        &&& forall|j: int, f: int|
            0 <= j < self.history@.len() && #[trigger] is_submit_of(self.history@[j], f) ==> 0 <= f
                < self.frame_count
    }

    /// The number of frame slots in the ring.
    pub fn frame_count(&self) -> (n: usize)
        ensures
            n == self.spec_frame_count(),
    {
        self.frame_count
    }

    /// The number of swapchain images the ownership table covers.
    pub fn image_count(&self) -> (n: usize)
        ensures
            n == self.spec_image_count(),
    {
        self.image_count
    }

    /// The slot the next frame will use.
    pub fn frame_index(&self) -> (n: usize)
        ensures
            n == self.spec_frame_index(),
    {
        self.frame_index
    }

    /// Whether the completion of the slot's last submission has been
    /// observed; a slot out of range reports nothing.
    pub fn fence_observed_signaled(&self, slot: usize) -> (r: Option<bool>)
        requires
            self.wf(),
        ensures
            r is Some <==> slot < self.spec_frame_count(),
            r matches Some(b) ==> b == self.spec_fence_signaled(slot as int),
    {
        if slot < self.fence_signaled.len() {
            Some(self.fence_signaled[slot])
        } else {
            None
        }
    }

    /// A fresh engine: all fences signaled, no image owned, the ring at
    /// slot zero.
    pub fn new(frame_count: usize, image_count: usize) -> (e: FrameEngine)
        requires
            frame_count >= 1,
        ensures
            e.wf(),
            e.spec_frame_count() == frame_count,
            e.spec_image_count() == image_count,
            e.spec_frame_index() == 0,
            forall|f: int| 0 <= f < frame_count ==> e.spec_fence_signaled(f),
            forall|i: int| 0 <= i < image_count ==> e.spec_image_owner(i) is None,
            e.spec_history() == Seq::<FrameEvent>::empty(),
    {
        let mut fence_signaled: Vec<bool> = Vec::new();
        let mut f: usize = 0;
        while f < frame_count
            invariant
                f <= frame_count,
                fence_signaled@.len() == f,
                forall|t: int| 0 <= t < f ==> fence_signaled@[t],
            decreases frame_count - f,
        {
            fence_signaled.push(true);
            f = f + 1;
        }
        let mut images_in_flight: Vec<Option<usize>> = Vec::new();
        let mut i: usize = 0;
        while i < image_count
            invariant
                i <= image_count,
                images_in_flight@.len() == i,
                forall|t: int| 0 <= t < i ==> images_in_flight@[t] is None,
            decreases image_count - i,
        {
            images_in_flight.push(None);
            i = i + 1;
        }
        FrameEngine {
            frame_count,
            image_count,
            frame_index: 0,
            fence_signaled,
            images_in_flight,
            history: Ghost(Seq::empty()),
        }
    }

    /// Step 1 or step 3: block on the fence of one slot. Afterwards the
    /// slot has no submission whose completion is unobserved.
    fn wait_fence(&mut self, f: usize)
        requires
            old(self).wf(),
            f < old(self).spec_frame_count(),
        ensures
            final(self).wf(),
            final(self).spec_frame_count() == old(self).spec_frame_count(),
            final(self).spec_image_count() == old(self).spec_image_count(),
            final(self).spec_frame_index() == old(self).spec_frame_index(),
            final(self).spec_fences() == old(self).spec_fences().update(f as int, true),
            final(self).spec_owners() == old(self).spec_owners(),
            final(self).spec_history() == old(self).spec_history().push(
                FrameEvent::WaitFence { slot: f },
            ),
    {
        self.fence_signaled[f] = true;
        let ghost h = self.history@;
        proof {
            self.history@ = self.history@.push(FrameEvent::WaitFence { slot: f });
            lemma_wait_clears_pending(h, f as int);
            assert forall|f2: int| 0 <= f2 < self.frame_count && f2 != f implies pending_submit(
                self.history@,
                f2,
            ) == pending_submit(h, f2) by {
                assert(self.history@ =~= h + seq![FrameEvent::WaitFence { slot: f }]);
                lemma_append_preserves_pending(h, seq![FrameEvent::WaitFence { slot: f }], f2);
            }
            assert(self.history@ =~= h + seq![FrameEvent::WaitFence { slot: f }]);
            lemma_append_no_submit_preserves_wf(h, seq![FrameEvent::WaitFence { slot: f }]);
        }
    }

    /// Steps 5 and 6: reset the slot's fence, submit the image's
    /// pre-recorded command buffer fenced by it, and present. Requires
    /// the fence to have been observed signaled — the slot's previous
    /// submission is complete.
    fn submit_frame(&mut self, f: usize, image: usize)
        requires
            old(self).wf(),
            f < old(self).spec_frame_count(),
            image < old(self).spec_image_count(),
            old(self).spec_fence_signaled(f as int),
        ensures
            final(self).wf(),
            final(self).spec_frame_count() == old(self).spec_frame_count(),
            final(self).spec_image_count() == old(self).spec_image_count(),
            final(self).spec_frame_index() == old(self).spec_frame_index(),
            final(self).spec_fences() == old(self).spec_fences().update(f as int, false),
            final(self).spec_owners() == old(self).spec_owners(),
            final(self).spec_history() == old(self).spec_history() + seq![
                FrameEvent::ResetFence { slot: f },
                FrameEvent::Submit { slot: f, image },
                FrameEvent::Present { slot: f, image },
            ],
    {
        self.fence_signaled[f] = false;
        let ghost h = self.history@;
        let ghost e = seq![
            FrameEvent::ResetFence { slot: f },
            FrameEvent::Submit { slot: f, image },
            FrameEvent::Present { slot: f, image },
        ];
        proof {
            self.history@ = self.history@ + e;
            let h2 = self.history@;
            // The appended submission is pending: only a present follows it.
            let p = h.len() + 1;
            assert(is_submit_of(h2[p as int], f as int));
            assert forall|m: int| p < m < h2.len() implies !is_wait_of(
                #[trigger] h2[m],
                f as int,
            ) by {
                assert(h2[m] == e[m - h.len()]);
            }
            assert(pending_submit(h2, f as int));
            // Other slots are untouched.
            assert forall|f2: int| 0 <= f2 < self.frame_count && f2 != f implies pending_submit(
                h2,
                f2,
            ) == pending_submit(h, f2) by {
                lemma_append_preserves_pending(h, e, f2);
            }
            // The discipline is kept: the slot's fence was signaled, so
            // every earlier submission of it has a later wait.
            assert(!pending_submit(h, f as int));
            assert forall|j1: int, j2: int, f3: int|
                0 <= j1 < j2 < h2.len() && #[trigger] is_submit_of(h2[j1], f3)
                    && #[trigger] is_submit_of(h2[j2], f3) implies wait_between(
                h2,
                f3,
                j1,
                j2,
            ) by {
                if j2 < h.len() {
                    assert(h2[j1] == h[j1]);
                    assert(h2[j2] == h[j2]);
                    assert(wait_between(h, f3, j1, j2));
                    let m = choose|m: int| j1 < m < j2 && is_wait_of(#[trigger] h[m], f3);
                    assert(h2[m] == h[m]);
                    assert(wait_between(h2, f3, j1, j2));
                } else {
                    // j2 lies in the appended events: it is the submission.
                    assert(h2[j2] == e[j2 - h.len()]);
                    assert(j2 == p);
                    assert(f3 == f as int);
                    if j1 < h.len() {
                        assert(h2[j1] == h[j1]);
                        // The fence was signaled: no pending submission, so
                        // a wait follows every earlier submission.
                        assert(is_submit_of(h[j1], f3) && !no_wait_after(h, f3, j1));
                        let m = choose|m: int| j1 < m < h.len() && is_wait_of(#[trigger] h[m], f3);
                        assert(h2[m] == h[m]);
                        assert(m < j2);
                        assert(wait_between(h2, f3, j1, j2));
                    } else {
                        assert(h2[j1] == e[j1 - h.len()]);
                        assert(false);
                    }
                }
            }
        }
    }

    /// One steady-state frame, after the application has acquired
    /// `image_index` (step 2, signaling the slot's "image available"
    /// semaphore). The engine blocks on the slot's own fence, blocks on
    /// the fence owning the acquired image if there is one, records the
    /// new ownership, models the reset/submit/present of steps 5 and 6,
    /// and advances the ring. The returned plan names the actions the
    /// application performs natively, in order.
    pub fn render(&mut self, image_index: usize) -> (plan: FramePlan)
        requires
            old(self).wf(),
            image_index < old(self).spec_image_count(),
        ensures
            final(self).wf(),
            final(self).spec_frame_count() == old(self).spec_frame_count(),
            final(self).spec_image_count() == old(self).spec_image_count(),
            plan.frame_slot == old(self).spec_frame_index(),
            plan.first_wait_fence == plan.frame_slot,
            plan.extra_wait_fence == old(self).spec_image_owner(image_index as int),
            plan.image_index == image_index,
            plan.command_buffer_index == image_index,
            plan.wait_semaphore == plan.frame_slot,
            plan.signal_semaphore == plan.frame_slot,
            plan.reset_and_signal_fence == plan.frame_slot,
            final(self).spec_frame_index() as int == (old(self).spec_frame_index() + 1) % (old(
                self,
            ).spec_frame_count() as int),
            final(self).spec_image_owner(image_index as int) == Some(plan.frame_slot),
            forall|i: int|
                0 <= i < old(self).spec_image_count() && i != image_index
                    ==> final(self).spec_image_owner(i) == old(self).spec_image_owner(i),
            !final(self).spec_fence_signaled(plan.frame_slot as int),
            final(self).spec_history() == old(self).spec_history() + spec_render_events(
                plan.frame_slot,
                plan.extra_wait_fence,
                image_index,
            ),
    {
        let f = self.frame_index;
        let ghost h0 = self.history@;
        let ghost owners0 = self.images_in_flight@;

        // Step 1: block on the slot's own frame fence.
        self.wait_fence(f);
        proof {
            assert(self.images_in_flight@ =~= owners0);
        }

        // Step 3: if the acquired image is owned by some frame fence,
        // block on that fence too.
        let previous_owner = self.images_in_flight[image_index];
        match previous_owner {
            Some(g) => {
                self.wait_fence(g);
                proof {
                    assert(self.images_in_flight@ =~= owners0);
                }
            },
            None => {},
        }

        // Step 4: the image is now owned by this slot's fence.
        self.images_in_flight[image_index] = Some(f);
        proof {
            assert(self.spec_image_owner(image_index as int) == Some(f));
        }

        // Steps 5 and 6: reset the fence, submit, present.
        self.submit_frame(f, image_index);
        proof {
            assert(self.images_in_flight@ =~= owners0.update(image_index as int, Some(f)));
        }

        // Step 7: advance the ring.
        self.frame_index = (f + 1) % self.frame_count;

        proof {
            assert(self.history@ =~= h0 + spec_render_events(f, previous_owner, image_index));
            assert forall|i: int|
                0 <= i < old(self).spec_image_count() && i != image_index implies self
                .spec_image_owner(i) == old(self).spec_image_owner(i) by {}
        }
        FramePlan {
            frame_slot: f,
            first_wait_fence: f,
            extra_wait_fence: previous_owner,
            image_index,
            command_buffer_index: image_index,
            wait_semaphore: f,
            signal_semaphore: f,
            reset_and_signal_fence: f,
        }
    }

    /// Teardown barrier: the device goes idle, so the completion of every
    /// outstanding submission is observed and every fence reports
    /// signaled.
    pub fn wait_idle(&mut self)
        requires
            old(self).wf(),
        ensures
            final(self).wf(),
            final(self).spec_frame_count() == old(self).spec_frame_count(),
            final(self).spec_image_count() == old(self).spec_image_count(),
            final(self).spec_frame_index() == old(self).spec_frame_index(),
            forall|f: int|
                0 <= f < old(self).spec_frame_count() ==> final(self).spec_fence_signaled(f),
    {
        let mut f: usize = 0;
        while f < self.frame_count
            invariant
                self.wf(),
                self.spec_frame_count() == old(self).spec_frame_count(),
                self.spec_image_count() == old(self).spec_image_count(),
                self.spec_frame_index() == old(self).spec_frame_index(),
                f <= self.spec_frame_count(),
                forall|f2: int| 0 <= f2 < f ==> self.spec_fence_signaled(f2),
            decreases self.spec_frame_count() - f,
        {
            let ghost fences_before = self.spec_fences();
            proof {
                assert forall|f2: int| 0 <= f2 < f implies fences_before[f2] == true by {
                    assert(self.spec_fence_signaled(f2));
                }
            }
            self.wait_fence(f);
            proof {
                assert forall|f2: int| 0 <= f2 <= f implies self.spec_fence_signaled(f2) by {
                    if f2 == f {
                        assert(self.spec_fences()[f2] == true);
                    } else {
                        assert(self.spec_fences()[f2] == fences_before[f2]);
                        assert(fences_before[f2] == true);
                    }
                }
            }
            f = f + 1;
        }
    }
}

/// No frame slot's command buffer is ever resubmitted before its previous
/// submission's fence has been waited on: in the history of any
/// well-formed engine, a wait on the slot's fence stands between any two
/// of its submissions.
pub proof fn lemma_no_resubmission_without_wait(e: &FrameEngine, f: int, j1: int, j2: int)
    requires
        e.wf(),
        0 <= j1 < j2 < e.spec_history().len(),
        is_submit_of(e.spec_history()[j1], f),
        is_submit_of(e.spec_history()[j2], f),
    ensures
        wait_between(e.spec_history(), f, j1, j2),
{
}

/// The frame fences account exactly for the outstanding submissions: a
/// slot's fence is reported unsignaled precisely while that slot has a
/// submission whose completion has not been waited on.
pub proof fn lemma_fences_account_for_submissions(e: &FrameEngine, f: int)
    requires
        e.wf(),
        0 <= f < e.spec_frame_count(),
    ensures
        !e.spec_fence_signaled(f) == pending_submit(e.spec_history(), f),
{
}

} // verus!
