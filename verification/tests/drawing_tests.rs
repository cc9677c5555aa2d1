use spotlight::drawing::{
    Color, DrawOp, Drawing, ExcludeMask, OVERLAY_OPACITY_PERCENT,
};
use spotlight::renderer::{
    FrameStep, RenderSurface, FORMAT_B8G8R8A8_UNORM, ALPHA_MODE_PREMULTIPLIED,
    PRESENT_SYNC_INTERVAL, SWAP_CHAIN_BUFFER_COUNT,
};
use spotlight::selection::SelectionRect;

fn drawing_800x600() -> Drawing {
    Drawing::new(RenderSurface::new(0, 800, 600, 96, 96))
}

fn full_rect_800x600() -> SelectionRect {
    SelectionRect { left: 0, top: 0, right: 800, bottom: 600 }
}

#[test]
fn overlay_without_selection_plans_nothing_but_the_clear() {
    let d = drawing_800x600();
    let ops = d.draw_overlay(None);
    assert!(ops.is_empty());
    let steps = d.surface.compose_frame(&ops);
    assert_eq!(
        steps,
        vec![
            FrameStep::AcquireBackBuffer,
            FrameStep::BindTargetBitmap { dpi_x: 96, dpi_y: 96 },
            FrameStep::BeginDraw,
            FrameStep::ClearTransparent,
            FrameStep::EndDraw,
            FrameStep::Present { sync_interval: PRESENT_SYNC_INTERVAL },
        ]
    );
}

#[test]
fn overlay_with_selection_masks_fill_through_the_excluding_layer() {
    let d = drawing_800x600();
    let sel = SelectionRect { left: 50, top: 50, right: 100, bottom: 100 };
    let ops = d.draw_overlay(Some(sel));
    assert_eq!(
        ops,
        vec![
            DrawOp::PushExcludeLayer(ExcludeMask {
                bounds: full_rect_800x600(),
                hole: sel,
                opacity_percent: OVERLAY_OPACITY_PERCENT,
                brush: Color::black(),
            }),
            DrawOp::FillRect { rect: full_rect_800x600(), brush: Color::black() },
            DrawOp::PopLayer,
        ]
    );
}

#[test]
fn overlay_with_degenerate_selection_excludes_zero_area() {
    let d = drawing_800x600();
    let sel = SelectionRect { left: 200, top: 200, right: 200, bottom: 200 };
    let ops = d.draw_overlay(Some(sel));
    assert_eq!(ops.len(), 3);
    match ops[0] {
        DrawOp::PushExcludeLayer(mask) => {
            assert_eq!(mask.hole, sel);
            assert_eq!(mask.bounds, full_rect_800x600());
            assert_eq!(mask.opacity_percent, 60);
        }
        ref other => panic!("expected a layer push, got {:?}", other),
    }
}

#[test]
fn overlay_opacity_is_sixty_percent_with_a_black_brush() {
    assert_eq!(OVERLAY_OPACITY_PERCENT, 60);
    assert_eq!(Color::black(), Color { r: 0, g: 0, b: 0, a: 255 });
    assert_eq!(Color::white(), Color { r: 255, g: 255, b: 255, a: 255 });
}

#[test]
fn fill_background_plans_one_unmasked_full_fill() {
    let d = drawing_800x600();
    let white = Color::white();
    let ops = d.fill_background(white);
    assert_eq!(ops, vec![DrawOp::FillRect { rect: full_rect_800x600(), brush: white }]);
}

#[test]
fn frame_wraps_draws_between_clear_and_present() {
    let d = drawing_800x600();
    let ops = d.fill_background(Color::white());
    let steps = d.surface.compose_frame(&ops);
    assert_eq!(steps.len(), 7);
    assert_eq!(steps[0], FrameStep::AcquireBackBuffer);
    assert_eq!(steps[1], FrameStep::BindTargetBitmap { dpi_x: 96, dpi_y: 96 });
    assert_eq!(steps[2], FrameStep::BeginDraw);
    assert_eq!(steps[3], FrameStep::ClearTransparent);
    assert_eq!(
        steps[4],
        FrameStep::Draw(DrawOp::FillRect { rect: full_rect_800x600(), brush: Color::white() })
    );
    assert_eq!(steps[5], FrameStep::EndDraw);
    assert_eq!(steps[6], FrameStep::Present { sync_interval: 1 });
}

#[test]
fn failed_draws_still_end_the_pass_but_present_nothing() {
    let steps = spotlight::renderer::frame_epilogue(false);
    assert_eq!(steps, vec![FrameStep::EndDraw]);
    let steps_ok = spotlight::renderer::frame_epilogue(true);
    assert_eq!(steps_ok, vec![FrameStep::EndDraw, FrameStep::Present { sync_interval: 1 }]);
}

#[test]
fn swap_chain_is_double_buffered_premultiplied_bgra() {
    let s = RenderSurface::new(3, 1920, 1080, 120, 120);
    assert_eq!(s.desc.width, 1920);
    assert_eq!(s.desc.height, 1080);
    assert_eq!(s.desc.buffer_count, SWAP_CHAIN_BUFFER_COUNT);
    assert_eq!(s.desc.buffer_count, 2);
    assert_eq!(s.desc.format, FORMAT_B8G8R8A8_UNORM);
    assert_eq!(s.desc.alpha_mode, ALPHA_MODE_PREMULTIPLIED);
    assert_eq!(s.desc.sample_count, 1);
    assert_eq!(s.desc.sample_quality, 0);
    assert!(!s.desc.stereo);
    assert_eq!(s.desc.flags, 0);
    assert_eq!(s.id, 3);
    assert_eq!(s.dpi_x, 120);
    assert_eq!(s.width(), 1920);
    assert_eq!(s.height(), 1080);
}

#[test]
fn client_extent_measures_the_client_rect() {
    let (w, h): (i32, i32) = spotlight::renderer::client_extent(0, 0, 800, 600);
    assert_eq!((w, h), (800, 600));
    let (w2, h2): (i32, i32) = spotlight::renderer::client_extent(10, 20, 10, 20);
    assert_eq!((w2, h2), (0, 0));
}
