use skiwin::cycle::{frame_step, FrameAction, FrameEvent, FrameState};
use skiwin::device::{select_config, select_context, select_device, select_queue_family, ContextKind};
use skiwin::geom::Size;
use skiwin::surface::RenderSurface;

#[test]
fn select_device_takes_the_first() {
    assert_eq!(select_device(0), None);
    assert_eq!(select_device(1), Some(0));
    assert_eq!(select_device(5), Some(0));
}

#[test]
fn select_config_of_nothing_is_nothing() {
    let counts: Vec<u32> = Vec::new();
    assert_eq!(select_config(&counts), None);
}

#[test]
fn select_config_takes_the_most_samples() {
    let counts: Vec<u32> = vec![1, 16, 4, 8];
    assert_eq!(select_config(&counts), Some(1));
    let single: Vec<u32> = vec![0];
    assert_eq!(select_config(&single), Some(0));
}

#[test]
fn select_config_tie_goes_to_the_later_candidate() {
    let counts: Vec<u32> = vec![4, 8, 8, 2];
    assert_eq!(select_config(&counts), Some(2));
    let all_equal: Vec<u32> = vec![4, 4, 4];
    assert_eq!(select_config(&all_equal), Some(2));
}

#[test]
fn select_queue_family_takes_the_first_graphics_family() {
    let families: Vec<bool> = vec![false, true, true];
    assert_eq!(select_queue_family(&families), Some(1));
    let first: Vec<bool> = vec![true, false];
    assert_eq!(select_queue_family(&first), Some(0));
}

#[test]
fn select_queue_family_without_graphics_is_nothing() {
    let families: Vec<bool> = vec![false, false];
    assert_eq!(select_queue_family(&families), None);
    let empty: Vec<bool> = Vec::new();
    assert_eq!(select_queue_family(&empty), None);
}

#[test]
fn select_context_tries_one_fallback_then_gives_up() {
    assert_eq!(select_context(true, true), Some(ContextKind::Preferred));
    assert_eq!(select_context(true, false), Some(ContextKind::Preferred));
    assert_eq!(select_context(false, true), Some(ContextKind::Fallback));
    assert_eq!(select_context(false, false), None);
}

#[test]
fn frame_cycle_creates_on_first_resume() {
    assert_eq!(
        frame_step(FrameState::Idle, FrameEvent::Resumed),
        (FrameState::Ready, FrameAction::CreateComponents)
    );
    assert_eq!(
        frame_step(FrameState::Ready, FrameEvent::Resumed),
        (FrameState::Ready, FrameAction::Ignore)
    );
}

#[test]
fn frame_cycle_ready_self_loops() {
    assert_eq!(
        frame_step(FrameState::Ready, FrameEvent::Resized),
        (FrameState::Ready, FrameAction::ResizeComponents)
    );
    assert_eq!(
        frame_step(FrameState::Ready, FrameEvent::RedrawRequested),
        (FrameState::Ready, FrameAction::DrawPresentAndRequestRedraw)
    );
    assert_eq!(
        frame_step(FrameState::Ready, FrameEvent::Suspended),
        (FrameState::Ready, FrameAction::Ignore)
    );
}

#[test]
fn frame_cycle_close_releases_and_ends() {
    assert_eq!(
        frame_step(FrameState::Ready, FrameEvent::CloseRequested),
        (FrameState::Closed, FrameAction::ReleaseComponents)
    );
    assert_eq!(
        frame_step(FrameState::Idle, FrameEvent::CloseRequested),
        (FrameState::Closed, FrameAction::Ignore)
    );
    for e in [
        FrameEvent::Resumed,
        FrameEvent::Suspended,
        FrameEvent::Resized,
        FrameEvent::RedrawRequested,
        FrameEvent::CloseRequested,
    ] {
        assert_eq!(
            frame_step(FrameState::Closed, e),
            (FrameState::Closed, FrameAction::Ignore)
        );
    }
}

#[test]
fn frame_cycle_idle_ignores_frame_events() {
    for e in [FrameEvent::Suspended, FrameEvent::Resized, FrameEvent::RedrawRequested] {
        assert_eq!(frame_step(FrameState::Idle, e), (FrameState::Idle, FrameAction::Ignore));
    }
}

#[test]
fn standalone_surface_draws_like_the_window() {
    let mut s = RenderSurface::new(Size::new(3, 2));
    assert_eq!(s.size(), Size::new(3, 2));
    s.clear(7);
    s.fill_rect(1, 0, 1, 1, 9);
    assert_eq!(s.pixel(0, 0), 7);
    assert_eq!(s.pixel(1, 0), 9);
    assert_eq!(s.pixel(2, 1), 7);
    // Row-major readback by linear index: row stride is the width.
    assert_eq!(s.pixel_linear(1), 9);
    assert_eq!(s.pixel_linear(4), 7);
}
