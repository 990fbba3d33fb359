//! Swapchain lifecycle: negotiation, recreation, acquisition and the
//! versioned framebuffer cache.

use frameloop::error::{FrameError, RetryReason, Stage};
use frameloop::swapchain::{
    AcquireResponse, RecreateResponse, SurfaceCapabilities, SwapchainConfig, SwapchainManager,
};
use frameloop::target::PixelFormat;

fn manager() -> SwapchainManager {
    SwapchainManager::new(800, 600, 3, PixelFormat::Color(44))
}

#[test]
fn negotiation_prefers_the_pinned_extent() {
    let caps = SurfaceCapabilities {
        min_image_count: 2,
        current_extent: Some((1024, 768)),
        formats: vec![37, 44],
        composite_alphas: vec![1],
    };
    let config = SwapchainConfig::negotiate(&caps, 640, 480);
    assert_eq!(config.image_count, 2);
    assert_eq!((config.width, config.height), (1024, 768));
    assert_eq!(config.format, 37);
    assert_eq!(config.alpha, 1);
}

#[test]
fn negotiation_falls_back_to_the_window_extent() {
    let caps = SurfaceCapabilities {
        min_image_count: 3,
        current_extent: None,
        formats: vec![50],
        composite_alphas: vec![8, 1],
    };
    let config = SwapchainConfig::negotiate(&caps, 640, 480);
    assert_eq!((config.width, config.height), (640, 480));
    assert_eq!(config.alpha, 8);
}

#[test]
fn recreate_with_zero_dimensions_is_retryable_never_fatal() {
    let mut m = manager();
    let r = m.recreate(0, 600, RecreateResponse::Created { image_count: 3 });
    assert_eq!(r, Err(FrameError::Retryable(RetryReason::ZeroDimensions)));
    let r = m.recreate(800, 0, RecreateResponse::Created { image_count: 3 });
    assert_eq!(r, Err(FrameError::Retryable(RetryReason::ZeroDimensions)));
    assert_eq!(m.target.generation, 0);
    assert!(!r.unwrap_err().is_fatal());
}

#[test]
fn recreate_with_unsupported_dimensions_is_retryable_never_fatal() {
    let mut m = manager();
    let r = m.recreate(799, 601, RecreateResponse::UnsupportedDimensions);
    assert_eq!(r, Err(FrameError::Retryable(RetryReason::UnsupportedDimensions)));
    assert!(r.unwrap_err().is_retryable());
    assert_eq!(m.target.generation, 0);
    assert_eq!(m.target.width, 800);
}

#[test]
fn successful_recreate_bumps_generation_and_resizes_cache() {
    let mut m = manager();
    let r = m.recreate(1024, 768, RecreateResponse::Created { image_count: 4 });
    assert_eq!(r, Ok(()));
    assert_eq!(m.target.generation, 1);
    assert_eq!((m.target.width, m.target.height), (1024, 768));
    assert_eq!(m.target.image_count, 4);
    assert_eq!(m.cache.slots.len(), 4);
    assert!(m.cache.slots.iter().all(|s| s.is_none()));
    assert_eq!((m.depth.width, m.depth.height), (1024, 768));
    assert!(!m.needs_recreate);
}

#[test]
fn recreate_keeps_the_negotiated_format() {
    let mut m = manager();
    m.recreate(400, 300, RecreateResponse::Created { image_count: 3 }).unwrap();
    assert_eq!(m.target.format, PixelFormat::Color(44));
}

#[test]
fn lost_surface_during_recreate_is_fatal() {
    let mut m = manager();
    let r = m.recreate(800, 600, RecreateResponse::Lost);
    assert_eq!(r, Err(FrameError::Fatal(Stage::Recreate)));
}

#[test]
fn acquire_returns_index_and_matching_token() {
    let mut m = manager();
    let (index, token) = m.acquire(AcquireResponse::Image(2)).unwrap();
    assert_eq!(index, 2);
    assert_eq!(token.frame, 0);
    assert_eq!(token.image_index, 2);
    assert_eq!(token.generation, 0);
    assert_eq!(m.next_frame, 1);
}

#[test]
fn acquire_out_of_date_marks_for_recreation() {
    let mut m = manager();
    let r = m.acquire(AcquireResponse::OutOfDate);
    assert_eq!(r, Err(FrameError::Retryable(RetryReason::OutOfDate)));
    assert!(m.needs_recreate);
    assert_eq!(m.next_frame, 0);
}

#[test]
fn acquire_with_out_of_range_index_is_fatal() {
    let mut m = manager();
    let r = m.acquire(AcquireResponse::Image(3));
    assert_eq!(r, Err(FrameError::Fatal(Stage::Acquire)));
}

#[test]
fn acquire_lost_is_fatal() {
    let mut m = manager();
    let r = m.acquire(AcquireResponse::Lost);
    assert_eq!(r, Err(FrameError::Fatal(Stage::Acquire)));
}

#[test]
fn framebuffer_is_built_lazily_and_reused() {
    let mut m = manager();
    assert!(m.cache.slots[1].is_none());
    let fb = m.framebuffer(1);
    assert_eq!(fb.generation, 0);
    assert_eq!(fb.image_index, 1);
    assert_eq!((fb.width, fb.height), (800, 600));
    assert_eq!(m.cache.slots[1], Some(fb));
    let again = m.framebuffer(1);
    assert_eq!(again, fb);
    assert_eq!(m.cache.slots[1], Some(fb));
}

#[test]
fn stale_framebuffer_is_rebuilt_after_recreate() {
    let mut m = manager();
    let before = m.framebuffer(0);
    assert_eq!(before.generation, 0);
    m.recreate(400, 300, RecreateResponse::Created { image_count: 3 }).unwrap();
    assert!(m.cache.slots[0].is_none());
    let after = m.framebuffer(0);
    assert_eq!(after.generation, 1);
    assert_eq!((after.width, after.height), (400, 300));
}

#[test]
fn retryable_and_fatal_are_told_apart() {
    let retryable = FrameError::Retryable(RetryReason::OutOfDate);
    let fatal = FrameError::Fatal(Stage::Present);
    assert!(retryable.is_retryable());
    assert!(!retryable.is_fatal());
    assert!(fatal.is_fatal());
    assert!(!fatal.is_retryable());
}
