//! Properties that hold across the interface's operations.
use vstd::prelude::*;
use crate::command::{
    ImageBarrier, LayoutTransition, LAYOUT_COLOR_ATTACHMENT, LAYOUT_UNDEFINED, spec_barriers,
    spec_layouts_after,
};
use crate::frame::{FRAMES_IN_FLIGHT, spec_frame_plan};
use crate::heap::Entry;
use crate::queue::{PoolState, SUBMITTED, spec_all_signals, spec_all_waits, spec_effective_used};
use crate::command::CommandState;
use crate::slot_heap::{
    Slot, SlotHeap, SlotHeapView, spec_after_free, spec_after_insert, spec_next_slot, spec_slots_wf,
};
use crate::swapchain::{spec_acquire_slot, spec_is_preferred_format, SurfaceFormat};
use crate::command::{spec_pass_transitions, spec_present_transition, TargetSpec};
use crate::gpu_ptr::GpuPtr;
use crate::rhi::Memory;
use crate::vk_map::{spec_allocation_plan, HostAccess, MemoryPlacement};

verus! {

/// A freed handle names nothing, so freeing it again is refused.
pub proof fn law_freed_handle_is_gone<P>(m: Map<u64, Entry<P>>, h: u64)
    ensures
        !m.remove(h).contains_key(h),
{
}

/// After a sequence of transitions, an image whose layout is tracked (not a
/// swapchain image) is in the layout that the last transition of it asked for.
pub proof fn law_last_transition_wins(
    layouts: Map<u64, i32>,
    swapchain: Set<u64>,
    ts: Seq<LayoutTransition>,
    t: LayoutTransition,
)
    requires
        !swapchain.contains(t.image@.handle),
    ensures
        spec_layouts_after(layouts, swapchain, ts.push(t))[t.image@.handle] == t.new_layout,
{
    assert(ts.push(t).drop_last() =~= ts);
}

/// Transitions of swapchain images leave the tracked layouts as they are.
pub proof fn law_swapchain_layouts_are_untracked(
    layouts: Map<u64, i32>,
    swapchain: Set<u64>,
    ts: Seq<LayoutTransition>,
    t: LayoutTransition,
)
    requires
        swapchain.contains(t.image@.handle),
    ensures
        spec_layouts_after(layouts, swapchain, ts.push(t)) == spec_layouts_after(layouts, swapchain, ts),
{
    assert(ts.push(t).drop_last() =~= ts);
}

/// Moving a swapchain image to the color attachment layout always records a
/// barrier from `VK_IMAGE_LAYOUT_UNDEFINED`; moving it to any other layout
/// records one from the color attachment layout.
pub proof fn law_swapchain_barrier_rule(
    layouts: Map<u64, i32>,
    swapchain: Set<u64>,
    ts: Seq<LayoutTransition>,
    t: LayoutTransition,
)
    requires
        swapchain.contains(t.image@.handle),
    ensures
        t.new_layout == LAYOUT_COLOR_ATTACHMENT ==> spec_barriers(layouts, swapchain, ts.push(t)) == spec_barriers(
            layouts,
            swapchain,
            ts,
        ).push(ImageBarrier { transition: t, old_layout: LAYOUT_UNDEFINED }),
        t.new_layout != LAYOUT_COLOR_ATTACHMENT ==> spec_barriers(layouts, swapchain, ts.push(t)) == spec_barriers(
            layouts,
            swapchain,
            ts,
        ).push(ImageBarrier { transition: t, old_layout: LAYOUT_COLOR_ATTACHMENT }),
{
    assert(ts.push(t).drop_last() =~= ts);
    assert(ts.push(t).last() == t);
}

/// No more barriers are recorded than transitions were asked for, and every
/// barrier changes its image's layout.
pub proof fn law_barriers_change_layouts(layouts: Map<u64, i32>, swapchain: Set<u64>, ts: Seq<LayoutTransition>)
    ensures
        spec_barriers(layouts, swapchain, ts).len() <= ts.len(),
        forall|i: int|
            0 <= i < spec_barriers(layouts, swapchain, ts).len() ==> (#[trigger] spec_barriers(
                layouts,
                swapchain,
                ts,
            )[i]).old_layout != spec_barriers(layouts, swapchain, ts)[i].transition.new_layout,
    decreases ts.len(),
{
    if ts.len() > 0 {
        law_barriers_change_layouts(layouts, swapchain, ts.drop_last());
    }
}

/// Asking twice in a row for the same transition of a tracked image records
/// at most one barrier: the second finds the image already in its layout.
pub proof fn law_repeated_transition_is_free(
    layouts: Map<u64, i32>,
    swapchain: Set<u64>,
    ts: Seq<LayoutTransition>,
    t: LayoutTransition,
)
    requires
        !swapchain.contains(t.image@.handle),
    ensures
        spec_barriers(layouts, swapchain, ts.push(t).push(t)) == spec_barriers(layouts, swapchain, ts.push(t)),
{
    let s1 = ts.push(t);
    let s2 = s1.push(t);
    assert(s2.drop_last() =~= s1);
    assert(s1.drop_last() =~= ts);
}

/// A pool whose command buffers were submitted starts over from its first
/// command buffer.
pub proof fn law_submitted_pool_restarts(p: PoolState)
    requires
        p.used == SUBMITTED,
    ensures
        spec_effective_used(p) == 0,
{
}

/// Taking command buffers one after another from a pool that is not reset
/// in between hands out consecutive, hence distinct, buffers.
pub proof fn law_acquires_are_consecutive(p: PoolState)
    requires
        SUBMITTED <= p.used,
        spec_effective_used(p) < i32::MAX,
    ensures
        spec_effective_used(
            PoolState { capacity: p.capacity, used: (spec_effective_used(p) + 1) as i32 },
        ) == spec_effective_used(p) + 1,
{
}

/// A submission of one command buffer waits on exactly that buffer's waits
/// and signals exactly its signals.
pub proof fn law_single_submission(c: CommandState)
    ensures
        spec_all_waits(seq![c]) == c.wait@,
        spec_all_signals(seq![c]) == c.signal@,
{
    let fw = |x: CommandState| x.wait@;
    let fs = |x: CommandState| x.signal@;
    assert(seq![c].map_values(fw) =~= seq![c.wait@]);
    assert(seq![c].map_values(fs) =~= seq![c.signal@]);
    seq![c.wait@].lemma_flatten_one_element();
    seq![c.signal@].lemma_flatten_one_element();
}

/// A frame that waits on the timeline waits for the frame that last used its
/// command pool: the frame `FRAMES_IN_FLIGHT` before it, which signalled
/// exactly that value.
pub proof fn law_frame_waits_for_pool_user(frame: u64)
    requires
        frame > FRAMES_IN_FLIGHT,
    ensures
        spec_frame_plan(frame).wait_value == Some(
            spec_frame_plan((frame - FRAMES_IN_FLIGHT) as u64).signal_value,
        ),
        spec_frame_plan(frame).command_pool == spec_frame_plan(
            (frame - FRAMES_IN_FLIGHT) as u64,
        ).command_pool,
{
}

/// Consecutive frames record into different command pools.
pub proof fn law_consecutive_frames_alternate_pools(frame: u64)
    requires
        frame < u64::MAX,
    ensures
        spec_frame_plan(frame).command_pool != spec_frame_plan((frame + 1) as u64).command_pool,
{
}

/// Only the first `FRAMES_IN_FLIGHT` frames skip the wait.
pub proof fn law_only_first_frames_skip_wait(frame: u64)
    ensures
        spec_frame_plan(frame).wait_value is None <==> frame <= FRAMES_IN_FLIGHT,
{
}

/// With two or more acquire semaphores, consecutive frames acquire with
/// different semaphore slots.
pub proof fn law_consecutive_acquires_use_other_slots(frame: u64, n: nat)
    requires
        n >= 2,
        frame < usize::MAX,
    ensures
        spec_acquire_slot(frame, n) != spec_acquire_slot((frame + 1) as u64, n),
{
    let a = frame as int;
    assert((frame as usize) as int == a);
    assert(((frame + 1) as u64) as usize as int == a + 1);
    let d = n as int;
    let q = a / d;
    let r = a % d;
    vstd::arithmetic::div_mod::lemma_fundamental_div_mod(a, d);
    vstd::arithmetic::div_mod::lemma_mod_pos_bound(a, d);
    vstd::arithmetic::mul::lemma_mul_is_commutative(d, q);
    if r + 1 < d {
        vstd::arithmetic::div_mod::lemma_fundamental_div_mod_converse(a + 1, d, q, r + 1);
    } else {
        vstd::arithmetic::mul::lemma_mul_is_distributive_add_other_way(d, q, 1);
        vstd::arithmetic::div_mod::lemma_fundamental_div_mod_converse(a + 1, d, q + 1, 0);
    }
    assert(a % d != (a + 1) % d);
}

/// With consistent bookkeeping, the slot that the next resource takes is
/// empty, and putting a resource there keeps the bookkeeping consistent.
pub proof fn law_slot_insert_keeps_wf<P>(v: SlotHeapView<P>, slot: Slot<P>)
    requires
        spec_slots_wf(v),
        spec_next_slot(v) < v.slots.len(),
        v.free_list.len() == 0 ==> v.next_free < u32::MAX,
    ensures
        v.slots[spec_next_slot(v) as int] is Empty,
        spec_slots_wf(spec_after_insert(v, slot)),
{
    let w = spec_after_insert(v, slot);
    if v.free_list.len() > 0 {
        let last = v.free_list.len() - 1;
        assert(v.free_list[last] == v.free_list.last());
        assert forall|i: int| 0 <= i < w.free_list.len() implies #[trigger] w.free_list[i] < w.next_free
            && w.slots[w.free_list[i] as int] is Empty by {
            assert(w.free_list[i] == v.free_list[i]);
            assert(v.free_list[i] != v.free_list[last]);
        }
        assert(w.free_list.no_duplicates());
    }
}

/// Freeing an occupied slot keeps the bookkeeping consistent, and the next
/// resource takes the slot freed last.
pub proof fn law_slot_free_is_reused_first<P>(v: SlotHeapView<P>, idx: u32)
    requires
        spec_slots_wf(v),
        idx < v.next_free,
        !(v.slots[idx as int] is Empty),
    ensures
        spec_slots_wf(spec_after_free(v, idx)),
        spec_next_slot(spec_after_free(v, idx)) == idx,
{
    let w = spec_after_free(v, idx);
    assert(!v.free_list.contains(idx));
    assert forall|i: int| 0 <= i < w.free_list.len() implies #[trigger] w.free_list[i] < w.next_free
        && w.slots[w.free_list[i] as int] is Empty by {
        if i < v.free_list.len() {
            assert(w.free_list[i] == v.free_list[i]);
        }
    }
    assert(w.free_list.no_duplicates()) by {
        assert forall|i: int, j: int|
            0 <= i < w.free_list.len() && 0 <= j < w.free_list.len() && i != j implies w.free_list[i]
            != w.free_list[j] by {
            if i < v.free_list.len() && j < v.free_list.len() {
            } else if i < v.free_list.len() {
                assert(v.free_list.contains(v.free_list[i]));
            } else {
                assert(v.free_list.contains(v.free_list[j]));
            }
        }
    }
}

/// Every barrier is planned for one of the transitions asked for.
pub proof fn law_barriers_come_from_transitions(
    layouts: Map<u64, i32>,
    swapchain: Set<u64>,
    ts: Seq<LayoutTransition>,
)
    ensures
        forall|i: int|
            0 <= i < spec_barriers(layouts, swapchain, ts).len() ==> exists|j: int|
                0 <= j < ts.len() && ts[j] == (#[trigger] spec_barriers(layouts, swapchain, ts)[i]).transition,
    decreases ts.len(),
{
    if ts.len() > 0 {
        let prev = ts.drop_last();
        law_barriers_come_from_transitions(layouts, swapchain, prev);
        let b = spec_barriers(layouts, swapchain, ts);
        let bp = spec_barriers(layouts, swapchain, prev);
        assert forall|i: int| 0 <= i < b.len() implies exists|j: int|
            0 <= j < ts.len() && ts[j] == (#[trigger] b[i]).transition by {
            if i < bp.len() {
                assert(b[i] == bp[i]);
                let j = choose|j: int| 0 <= j < prev.len() && prev[j] == bp[i].transition;
                assert(ts[j] == prev[j]);
            } else {
                assert(b[i].transition == ts[ts.len() - 1]);
            }
        }
    }
}

/// A render pass queues, after the transitions already pending, one
/// transition of the presented image to the color attachment layout, then
/// one of the depth target to the color attachment layout, then one of the
/// stencil target to the stencil attachment layout; each waits for late
/// fragment tests and makes the image ready for color attachment writes.
pub proof fn law_pass_transitions_are_attachment_barriers(
    pending: Seq<LayoutTransition>,
    presented: GpuPtr,
    depth: Option<TargetSpec>,
    stencil: Option<TargetSpec>,
)
    ensures
        ({
            let ts = spec_pass_transitions(pending, presented, depth, stencil);
            let n = pending.len() as int;
            &&& ts.len() == n + 1 + (if depth is Some { 1int } else { 0int }) + (if stencil is Some {
                1int
            } else {
                0int
            })
            &&& forall|i: int| 0 <= i < n ==> ts[i] == pending[i]
            &&& ts[n].image == presented
            &&& ts[n].new_layout == 2
            &&& depth matches Some(d) ==> ts[n + 1].image == d.image && ts[n + 1].new_layout == 2
            &&& stencil matches Some(s) ==> ts[ts.len() - 1].image == s.image && ts[ts.len() - 1].new_layout
                == 1_000_241_002
            &&& forall|i: int|
                n <= i < ts.len() ==> {
                    &&& (#[trigger] ts[i]).src_stage_mask == 0x200
                    &&& ts[i].src_access_mask == 0
                    &&& ts[i].dst_stage_mask == 0x400
                    &&& ts[i].dst_access_mask == 0x100
                }
        }),
{
}

/// The transition that hands a presented image over to presentation moves
/// it to `VK_IMAGE_LAYOUT_PRESENT_SRC_KHR` once color attachment output has
/// written it, and needs no access at the bottom of the pipe.
pub proof fn law_present_transition_masks(image: GpuPtr)
    ensures
        spec_present_transition(image) == (LayoutTransition {
            image,
            new_layout: 1_000_001_002,
            src_stage_mask: 0x400,
            src_access_mask: 0x100,
            dst_stage_mask: 0x2000,
            dst_access_mask: 0,
        }),
{
}

/// The preferred surface format is exactly 8-bit sRGB RGBA
/// (`VK_FORMAT_R8G8B8A8_SRGB`, 43) in the nonlinear sRGB color space (0).
pub proof fn law_preferred_format_is_rgba8_srgb(f: SurfaceFormat)
    ensures
        spec_is_preferred_format(f) <==> (f.format == 43 && f.color_space == 0),
{
}

/// Only host-coherent memory requires host-coherent memory types; only
/// device-only memory prefers the device and gives the host no access;
/// default memory is written sequentially by the host, host-coherent memory
/// accessed at random.
pub proof fn law_allocation_plans(m: Memory)
    ensures
        spec_allocation_plan(m).require_host_coherent <==> m == Memory::HostCoherent,
        spec_allocation_plan(m).placement == MemoryPlacement::AutoPreferDevice <==> m == Memory::DeviceOnly,
        spec_allocation_plan(m).host_access == HostAccess::NoAccess <==> m == Memory::DeviceOnly,
        spec_allocation_plan(m).host_access == HostAccess::SequentialWrite <==> m == Memory::Default,
        spec_allocation_plan(m).host_access == HostAccess::Random <==> m == Memory::HostCoherent,
{
}

/// A slot heap with consistent bookkeeping has room exactly when a freed
/// slot waits for reuse, or an untouched slot is left below the slot count
/// (and below the largest slot number).
pub proof fn law_slot_room<P>(h: SlotHeap<P>)
    requires
        spec_slots_wf(h@),
    ensures
        h.spec_has_room() <==> (h@.free_list.len() > 0 || (h@.next_free < h@.slots.len()
            && h@.next_free < u32::MAX)),
{
    if h@.free_list.len() > 0 {
        let last = h@.free_list.len() - 1;
        assert(h@.free_list[last] < h@.next_free);
    }
}

} // verus!
