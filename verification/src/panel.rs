//! The decisions the mask editing panel takes each frame: whether to paint, whether
//! the renderer must be given the mask again, whether the brush cursor must be
//! rebuilt, and whether the painting clock runs or starts over. The panel's
//! floating-point state (the mask, the brush settings, the clock's last reading) lives
//! with its caller.

use vstd::prelude::*;

verus! {

/// The panel's flags and the side of the square it is drawn in.
#[derive(Clone, Copy, Debug, PartialEq, Eq, Structural)]
pub struct PanelState {
    /// Side, in points, of the square the panel draws the mask in.
    pub image_size: usize,
    /// The mask changed since the renderer last got it.
    pub mesh_updated: bool,
    /// The brush falloff changed since the brush cursor was last built.
    pub brush_updated: bool,
    /// A stroke is under way: a button is held with the pointer on the canvas.
    pub is_painting: bool,
    /// The painting clock holds a reading from an earlier frame, so the time elapsed
    /// since then counts. When it does not, the frame's elapsed time is zero.
    pub clock_running: bool,
}

/// What the pointer did in a frame where it hovers the panel.
#[derive(Clone, Copy, Debug, PartialEq, Eq, Structural)]
pub struct PointerSample {
    /// The primary, secondary or middle button is held.
    pub any_button: bool,
    /// The pointer lies on the canvas (both coordinates between 0 and 1).
    pub in_canvas: bool,
    /// The clock reads later than at its previous reading. It only counts while the
    /// clock runs.
    pub clock_advanced: bool,
}

/// What the caller must do in a frame.
#[derive(Clone, Copy, Debug, PartialEq, Eq, Structural)]
pub struct FramePlan {
    /// Apply the brush stroke to the mask.
    pub paint: bool,
    /// Hand the mask to the renderer.
    pub upload_mask: bool,
    /// Rebuild the brush cursor from the current settings.
    pub rebuild_brush: bool,
    /// The frame's elapsed time is the difference between the clock's reading now and
    /// its previous reading; otherwise it is zero. Either way the caller keeps the
    /// reading taken now.
    pub elapsed_counts: bool,
}

/// The state of a new panel drawn in a square of side `image_size`: nothing pending,
/// no stroke, and the clock not yet started.
pub open spec fn initial_state(image_size: usize) -> PanelState {
    PanelState {
        image_size,
        mesh_updated: false,
        brush_updated: false,
        is_painting: false,
        clock_running: false,
    }
}

/// The state after a new mask is given to the panel.
pub open spec fn state_after_display(s: PanelState, image_size: usize) -> PanelState {
    PanelState { image_size, mesh_updated: true, ..s }
}

/// Whether a frame drawn from state `s` paints: the pointer hovers the panel, a button
/// is held, the pointer is on the canvas, and time has elapsed, which needs the clock
/// to run and to have advanced.
pub open spec fn paints(s: PanelState, pointer: Option<PointerSample>) -> bool {
    match pointer {
        Some(p) => p.any_button && p.in_canvas && s.clock_running && p.clock_advanced,
        None => false,
    }
}

/// The plan of a frame drawn from state `s`.
pub open spec fn frame_plan(s: PanelState, pointer: Option<PointerSample>) -> FramePlan {
    FramePlan {
        paint: paints(s, pointer),
        upload_mask: s.mesh_updated || paints(s, pointer),
        rebuild_brush: s.brush_updated,
        elapsed_counts: s.clock_running,
    }
}

/// The state after a frame drawn from state `s`: the painting flag follows the pointer
/// where there is one and stays as it was where there is none, the mask counts as
/// handed over, and the clock holds this frame's reading.
pub open spec fn state_after_frame(s: PanelState, pointer: Option<PointerSample>) -> PanelState {
    PanelState {
        is_painting: match pointer {
            Some(p) => p.any_button && p.in_canvas,
            None => s.is_painting,
        },
        mesh_updated: false,
        clock_running: true,
        ..s
    }
}

/// The state after the panel settles its clock at the end of a frame's drawing: the
/// clock stops unless a stroke is under way.
pub open spec fn state_after_settle(s: PanelState) -> PanelState {
    PanelState { clock_running: s.clock_running && s.is_painting, ..s }
}

impl PanelState {
    /// A new panel drawn in a square of side `image_size`, with nothing to hand over
    /// and the clock not yet started.
    pub fn new(image_size: usize) -> (s: PanelState)
        ensures
            s == initial_state(image_size),
            s.image_size == image_size,
            !s.mesh_updated,
            !s.brush_updated,
            !s.is_painting,
            !s.clock_running,
    {
        PanelState {
            image_size,
            mesh_updated: false,
            brush_updated: false,
            is_painting: false,
            clock_running: false,
        }
    }

    /// Records that a new mask is shown in a square of side `image_size`: the renderer
    /// must get it at the next frame.
    pub fn display_mask(&mut self, image_size: usize)
        ensures
            *final(self) == state_after_display(*old(self), image_size),
            final(self).image_size == image_size,
            final(self).mesh_updated,
            final(self).brush_updated == old(self).brush_updated,
            final(self).is_painting == old(self).is_painting,
            final(self).clock_running == old(self).clock_running,
    {
        self.image_size = image_size;
        self.mesh_updated = true;
    }

    /// Decides a frame. `pointer` is `None` when the pointer is not over the window.
    pub fn begin_frame(&mut self, pointer: Option<PointerSample>) -> (plan: FramePlan)
        ensures
            plan == frame_plan(*old(self), pointer),
            *final(self) == state_after_frame(*old(self), pointer),
            plan.rebuild_brush == old(self).brush_updated,
            plan.elapsed_counts == old(self).clock_running,
            plan.upload_mask == (old(self).mesh_updated || plan.paint),
            plan.paint == (pointer matches Some(p) && p.any_button && p.in_canvas
                && old(self).clock_running && p.clock_advanced),
            final(self).is_painting == (match pointer {
                Some(p) => p.any_button && p.in_canvas,
                None => old(self).is_painting,
            }),
            !final(self).mesh_updated,
            final(self).clock_running,
            final(self).brush_updated == old(self).brush_updated,
            final(self).image_size == old(self).image_size,
    {
        let mut mesh_updated = self.mesh_updated;
        let brush_updated = self.brush_updated;
        let elapsed_counts = self.clock_running;
        let mut paint = false;
        if let Some(p) = pointer {
            self.is_painting = p.any_button && p.in_canvas;
            if self.is_painting && elapsed_counts && p.clock_advanced {
                paint = true;
                mesh_updated = true;
            }
        }
        self.mesh_updated = false;
        self.clock_running = true;
        FramePlan { paint, upload_mask: mesh_updated, rebuild_brush: brush_updated, elapsed_counts }
    }

    /// Settles the painting clock after a frame is drawn: whenever no stroke is under
    /// way the clock stops, so that a new stroke does not count the time spent idle.
    /// Returns whether it stopped, in which case the caller forgets its reading.
    pub fn settle_clock(&mut self) -> (reset: bool)
        ensures
            reset == !old(self).is_painting,
            *final(self) == state_after_settle(*old(self)),
            final(self).clock_running == (old(self).clock_running && old(self).is_painting),
            final(self).is_painting == old(self).is_painting,
            final(self).mesh_updated == old(self).mesh_updated,
            final(self).brush_updated == old(self).brush_updated,
            final(self).image_size == old(self).image_size,
    {
        if self.is_painting {
            false
        } else {
            self.clock_running = false;
            true
        }
    }

    /// Records, after the brush controls are drawn, whether the falloff changed: the
    /// brush cursor is then rebuilt at the next frame.
    pub fn finish_controls(&mut self, falloff_changed: bool)
        ensures
            *final(self) == (PanelState { brush_updated: falloff_changed, ..*old(self) }),
    {
        self.brush_updated = falloff_changed;
    }
}

/// Law: a frame always hands the pending mask over, so the next frame has none pending;
/// and after it the clock holds a reading.
pub proof fn lemma_frame_clears_pending_mask(s: PanelState, pointer: Option<PointerSample>)
    ensures
        !state_after_frame(s, pointer).mesh_updated,
        state_after_frame(s, pointer).clock_running,
        frame_plan(s, pointer).upload_mask == (s.mesh_updated || frame_plan(s, pointer).paint),
{
}

/// Law: a mask given to the panel reaches the renderer at the very next frame, and only
/// then: a second frame hands it over again only if it paints.
pub proof fn lemma_displayed_mask_uploaded_once(
    s: PanelState,
    image_size: usize,
    first: Option<PointerSample>,
    second: Option<PointerSample>,
)
    ensures
        frame_plan(state_after_display(s, image_size), first).upload_mask,
        ({
            let t = state_after_frame(state_after_display(s, image_size), first);
            frame_plan(t, second).upload_mask == paints(t, second)
        }),
{
}

/// Law: a painting frame always hands the changed mask to the renderer, and painting
/// needs a held button, a pointer on the canvas, a running clock and elapsed time.
pub proof fn lemma_paint_is_uploaded(s: PanelState, pointer: Option<PointerSample>)
    ensures
        frame_plan(s, pointer).paint ==> frame_plan(s, pointer).upload_mask,
        frame_plan(s, pointer).paint ==> state_after_frame(s, pointer).is_painting,
        frame_plan(s, pointer).paint ==> frame_plan(s, pointer).elapsed_counts,
        frame_plan(s, pointer).paint <==> (pointer matches Some(p) && p.any_button && p.in_canvas
            && s.clock_running && p.clock_advanced),
{
}

/// Law: in a frame where the pointer is away from the window the painting flag and the
/// panel's size stay as they were.
pub proof fn lemma_no_pointer_keeps_painting(s: PanelState)
    ensures
        state_after_frame(s, None).is_painting == s.is_painting,
        state_after_frame(s, None).image_size == s.image_size,
{
}

/// Law: the first frame of a stroke paints nothing. If a frame ends with no stroke
/// under way, the clock is settled to a stop, so the next frame's elapsed time is zero
/// and it does not paint, whatever the pointer does; the frame after that, with the
/// stroke still under way, counts its elapsed time again.
pub proof fn lemma_idle_gap_not_painted(
    s: PanelState,
    first: Option<PointerSample>,
    second: Option<PointerSample>,
)
    requires
        !state_after_frame(s, first).is_painting,
    ensures
        ({
            let idle = state_after_settle(state_after_frame(s, first));
            &&& !idle.clock_running
            &&& !frame_plan(idle, second).elapsed_counts
            &&& !frame_plan(idle, second).paint
            &&& state_after_frame(idle, second).is_painting ==> {
                let busy = state_after_settle(state_after_frame(idle, second));
                busy.clock_running && frame_plan(busy, second).elapsed_counts
            }
        }),
{
}

/// Law: a stroke is under way after a frame exactly when, in that frame, a button is
/// held with the pointer on the canvas; with the pointer away from the window the
/// stroke carries on as it was. In particular no frame without a held button leaves a
/// stroke under way.
pub proof fn lemma_stroke_needs_button(s: PanelState, p: PointerSample)
    ensures
        state_after_frame(s, Some(p)).is_painting == (p.any_button && p.in_canvas),
        !p.any_button ==> !state_after_frame(s, Some(p)).is_painting,
        !p.in_canvas ==> !state_after_frame(s, Some(p)).is_painting,
        state_after_frame(s, None).is_painting == s.is_painting,
{
}

/// Law: a frame rebuilds the brush cursor exactly when the falloff changed, whatever the
/// pointer and the buttons do, and the frame leaves that flag as it found it.
pub proof fn lemma_brush_rebuild_follows_falloff(s: PanelState, pointer: Option<PointerSample>)
    ensures
        frame_plan(s, pointer).rebuild_brush == s.brush_updated,
        state_after_frame(s, pointer).brush_updated == s.brush_updated,
{
}

/// Law: each field of a frame's plan and of the state after it, in terms of the state
/// before and the pointer.
pub proof fn lemma_frame_fields(s: PanelState, pointer: Option<PointerSample>)
    ensures
        frame_plan(s, pointer).elapsed_counts == s.clock_running,
        frame_plan(s, pointer).paint == (pointer matches Some(p) && p.any_button && p.in_canvas
            && s.clock_running && p.clock_advanced),
        frame_plan(s, pointer).upload_mask == (s.mesh_updated || frame_plan(s, pointer).paint),
        !state_after_frame(s, pointer).mesh_updated,
        state_after_frame(s, pointer).clock_running,
        state_after_frame(s, pointer).image_size == s.image_size,
        !s.clock_running ==> !frame_plan(s, pointer).paint,
        !s.mesh_updated && !frame_plan(s, pointer).paint ==> !frame_plan(s, pointer).upload_mask,
{
}

/// Law: settling the clock stops it exactly when no stroke is under way and changes
/// nothing else; a new mask only marks itself pending and sets the size.
pub proof fn lemma_settle_and_display(s: PanelState, image_size: usize)
    ensures
        state_after_settle(s).clock_running == (s.clock_running && s.is_painting),
        state_after_settle(s).is_painting == s.is_painting,
        state_after_settle(s).mesh_updated == s.mesh_updated,
        state_after_settle(s).brush_updated == s.brush_updated,
        state_after_settle(s).image_size == s.image_size,
        state_after_display(s, image_size).image_size == image_size,
        state_after_display(s, image_size).mesh_updated,
        state_after_display(s, image_size).is_painting == s.is_painting,
        state_after_display(s, image_size).clock_running == s.clock_running,
        state_after_display(s, image_size).brush_updated == s.brush_updated,
        !initial_state(image_size).mesh_updated && !initial_state(image_size).brush_updated
            && !initial_state(image_size).is_painting && !initial_state(image_size).clock_running
            && initial_state(image_size).image_size == image_size,
{
}

} // verus!
