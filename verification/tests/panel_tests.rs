use maskedit::panel::{FramePlan, PanelState, PointerSample};

fn sample(any_button: bool, in_canvas: bool, clock_advanced: bool) -> Option<PointerSample> {
    Some(PointerSample { any_button, in_canvas, clock_advanced })
}

/// One frame as the panel draws it: decide, then settle the clock.
fn frame(s: &mut PanelState, pointer: Option<PointerSample>) -> (FramePlan, bool) {
    let plan = s.begin_frame(pointer);
    let reset = s.settle_clock();
    (plan, reset)
}

#[test]
fn new_panel_is_idle() {
    let s = PanelState::new(512);
    assert_eq!(s.image_size, 512);
    assert!(!s.mesh_updated && !s.brush_updated && !s.is_painting && !s.clock_running);
}

#[test]
fn displayed_mask_is_uploaded_once() {
    let mut s = PanelState::new(256);
    s.display_mask(300);
    assert_eq!(s.image_size, 300);
    let (plan, reset) = frame(&mut s, None);
    assert_eq!(
        plan,
        FramePlan { paint: false, upload_mask: true, rebuild_brush: false, elapsed_counts: false }
    );
    assert!(reset);
    let (plan, _) = frame(&mut s, None);
    assert!(!plan.upload_mask);
}

#[test]
fn first_stroke_frame_paints_nothing() {
    let mut s = PanelState::new(256);
    frame(&mut s, None);
    // stroke starts: clock was stopped, so no elapsed time
    let (plan, reset) = frame(&mut s, sample(true, true, true));
    assert!(!plan.paint && !plan.upload_mask && !plan.elapsed_counts);
    assert!(!reset);
    assert!(s.is_painting && s.clock_running);
    // stroke goes on: elapsed time counts and the mask is painted
    let (plan, _) = frame(&mut s, sample(true, true, true));
    assert!(plan.paint && plan.upload_mask && plan.elapsed_counts);
    // no time passed: nothing painted
    let (plan, _) = frame(&mut s, sample(true, true, false));
    assert!(!plan.paint);
}

#[test]
fn stroke_leaving_canvas_stops_clock() {
    let mut s = PanelState::new(256);
    frame(&mut s, sample(true, true, true));
    frame(&mut s, sample(true, true, true));
    let (plan, reset) = frame(&mut s, sample(true, false, true));
    assert!(!plan.paint && plan.elapsed_counts);
    assert!(reset && !s.is_painting && !s.clock_running);
    // back on the canvas: the gap is not painted
    let (plan, _) = frame(&mut s, sample(true, true, true));
    assert!(!plan.paint && !plan.elapsed_counts);
    let (plan, _) = frame(&mut s, sample(false, true, true));
    assert!(!plan.paint);
}

#[test]
fn painting_flag_kept_without_pointer() {
    let mut s = PanelState::new(256);
    frame(&mut s, sample(true, true, true));
    assert!(s.is_painting);
    let (plan, reset) = frame(&mut s, None);
    assert!(!plan.paint && !reset);
    assert!(s.is_painting && s.clock_running);
    assert!(!s.mesh_updated);
}

#[test]
fn brush_rebuilt_after_falloff_change() {
    let mut s = PanelState::new(256);
    s.finish_controls(true);
    let plan = s.begin_frame(None);
    assert!(plan.rebuild_brush);
    // the flag stays until the controls report no change
    let plan = s.begin_frame(None);
    assert!(plan.rebuild_brush);
    s.finish_controls(false);
    let plan = s.begin_frame(None);
    assert!(!plan.rebuild_brush);
}
