//! Whole-loop scenarios: steady frames, resize between frames, and rapid
//! out-of-date retries.

use frameloop::error::{FrameError, RetryReason};
use frameloop::frame::Pass;
use frameloop::record::SecondaryBatch;
use frameloop::renderer::Renderer;
use frameloop::scheduler::{PresentResponse, PresentStatus};
use frameloop::swapchain::{AcquireResponse, RecreateResponse};
use frameloop::target::PixelFormat;
use frameloop::token::ExecutionToken;

fn renderer() -> Renderer {
    Renderer::new(800, 600, 3, PixelFormat::Color(44))
}

/// Drives one frame to completion and returns its execution token.
fn run_frame(r: &mut Renderer, image: usize) -> ExecutionToken {
    let mut frame = r.begin_frame(AcquireResponse::Image(image)).expect("acquire must succeed");
    let draw_pass = match frame.next_pass() {
        Some(Pass::Deferred(p)) => p,
        _ => panic!("expected the deferred pass first"),
    };
    draw_pass.execute(&mut frame, SecondaryBatch { handle: 1 });
    assert!(matches!(frame.next_pass(), Some(Pass::Text(_))));
    let mut finished = match frame.next_pass() {
        Some(Pass::Finished(p)) => p,
        _ => panic!("expected the finished pass third"),
    };
    finished.take_token().expect("the token must be present once")
}

#[test]
fn three_frames_present_in_acquire_order() {
    let mut r = renderer();
    let order = [2usize, 0, 1];
    for (n, &image) in order.iter().enumerate() {
        let token = run_frame(&mut r, image);
        assert_eq!(token.frame, n as u64);
        assert_eq!(token.image_index, image);
        let status = r.present(token, PresentResponse::Completed).unwrap();
        assert_eq!(status, PresentStatus::Presented);
    }
    assert_eq!(r.scheduler.frames_presented, 3);
    assert_eq!(r.swapchain.next_frame, 3);
}

#[test]
fn steady_frames_reuse_the_framebuffer_cache_unchanged() {
    let mut r = renderer();
    for n in 0..3u64 {
        let token = run_frame(&mut r, 1);
        let slots_after_build = r.swapchain.cache.slots.clone();
        r.present(token, PresentResponse::Completed).unwrap();
        assert_eq!(r.swapchain.cache.slots, slots_after_build);
        let fb = r.swapchain.cache.slots[1].expect("slot 1 is built");
        assert_eq!(fb.generation, 0);
        assert_eq!(r.scheduler.frames_presented, n + 1);
    }
    // Only the accessed slot was ever built; nothing else changed.
    assert!(r.swapchain.cache.slots[0].is_none());
    assert!(r.swapchain.cache.slots[2].is_none());
}

#[test]
fn resize_between_frames_forces_recreate_before_the_next_acquire() {
    let mut r = renderer();
    for _ in 0..2 {
        let token = run_frame(&mut r, 0);
        r.present(token, PresentResponse::Completed).unwrap();
    }
    let generation_before = r.swapchain.target.generation;
    r.note_resize();
    assert!(r.needs_recreate());
    r.recreate(1024, 768, RecreateResponse::Created { image_count: 3 }).unwrap();
    assert!(!r.needs_recreate());
    assert_eq!(r.swapchain.target.generation, generation_before + 1);
    assert!(r.swapchain.cache.slots.iter().all(|s| s.is_none()));

    let token = run_frame(&mut r, 0);
    // The framebuffer was rebuilt exactly once, for the new generation...
    let rebuilt = r.swapchain.cache.slots[0].expect("slot 0 rebuilt");
    assert_eq!(rebuilt.generation, generation_before + 1);
    assert_eq!((rebuilt.width, rebuilt.height), (1024, 768));
    r.present(token, PresentResponse::Completed).unwrap();
    // ...and later frames leave it untouched.
    let token = run_frame(&mut r, 0);
    assert_eq!(r.swapchain.cache.slots[0], Some(rebuilt));
    r.present(token, PresentResponse::Completed).unwrap();
}

#[test]
fn rapid_out_of_date_retries_without_a_second_frame_in_flight() {
    let mut r = renderer();
    for _ in 0..2 {
        let e = r.begin_frame(AcquireResponse::OutOfDate).unwrap_err();
        assert_eq!(e, FrameError::Retryable(RetryReason::OutOfDate));
        assert!(e.is_retryable());
        assert!(r.needs_recreate());
        let in_flight = r.swapchain.next_frame - r.scheduler.frames_presented;
        assert!(in_flight <= 1);
        r.recreate(640, 480, RecreateResponse::Created { image_count: 3 }).unwrap();
    }
    let token = run_frame(&mut r, 2);
    let in_flight = r.swapchain.next_frame - r.scheduler.frames_presented;
    assert_eq!(in_flight, 1);
    r.present(token, PresentResponse::Completed).unwrap();
    assert_eq!(r.swapchain.next_frame - r.scheduler.frames_presented, 0);
    assert_eq!(r.swapchain.target.generation, 2);
}

#[test]
fn suboptimal_present_is_degraded_not_an_error() {
    let mut r = renderer();
    let token = run_frame(&mut r, 0);
    let status = r.present(token, PresentResponse::Suboptimal).unwrap();
    assert_eq!(status, PresentStatus::SuboptimalPresented);
    // The frame was displayed; only the next acquire needs a recreation.
    assert_eq!(r.scheduler.frames_presented, 1);
    assert!(r.needs_recreate());
    r.recreate(800, 600, RecreateResponse::Created { image_count: 3 }).unwrap();
    let token = run_frame(&mut r, 1);
    let status = r.present(token, PresentResponse::Completed).unwrap();
    assert_eq!(status, PresentStatus::Presented);
}

#[test]
fn out_of_date_present_is_degraded_not_an_error() {
    let mut r = renderer();
    let token = run_frame(&mut r, 0);
    let status = r.present(token, PresentResponse::OutOfDate).unwrap();
    assert_eq!(status, PresentStatus::SuboptimalPresented);
    assert!(r.needs_recreate());
}

#[test]
fn lost_surface_during_present_is_fatal_and_issues_no_token() {
    let mut r = renderer();
    let token = run_frame(&mut r, 0);
    let e = r.present(token, PresentResponse::Lost).unwrap_err();
    assert!(e.is_fatal());
    assert!(r.previous.is_none());
    assert_eq!(r.scheduler.frames_presented, 0);
}

#[test]
fn completion_tokens_chain_frame_by_frame() {
    let mut r = renderer();
    assert_eq!(r.previous.as_ref().map(|t| t.frames), Some(0));
    let token = run_frame(&mut r, 0);
    assert!(r.previous.is_none());
    r.present(token, PresentResponse::Completed).unwrap();
    assert_eq!(r.previous.as_ref().map(|t| t.frames), Some(1));
    let token = run_frame(&mut r, 1);
    r.present(token, PresentResponse::Completed).unwrap();
    assert_eq!(r.previous.as_ref().map(|t| t.frames), Some(2));
}
