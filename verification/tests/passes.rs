//! The pass state machine: order, irreversibility, and the single-use
//! execution token.

use frameloop::frame::{Frame, FrameSystem, Pass, PassStage, TextRenderer};
use frameloop::record::{RecordedCommand, RecordingState, SecondaryBatch};
use frameloop::target::{Framebuffer, PixelFormat};
use frameloop::token::{AcquireToken, CompletionToken};

fn begin_test_frame() -> Frame {
    let system = FrameSystem::new(PixelFormat::Color(44));
    let previous = CompletionToken { frames: 0 };
    let acquire = AcquireToken { frame: 0, image_index: 1, generation: 0 };
    let framebuffer = Framebuffer { generation: 0, image_index: 1, width: 800, height: 600 };
    system.frame(previous, acquire, framebuffer)
}

#[test]
fn passes_come_in_order_then_none() {
    let mut frame = begin_test_frame();
    assert!(matches!(frame.next_pass(), Some(Pass::Deferred(_))));
    assert!(matches!(frame.next_pass(), Some(Pass::Text(_))));
    assert!(matches!(frame.next_pass(), Some(Pass::Finished(_))));
    assert!(frame.next_pass().is_none());
    assert!(frame.next_pass().is_none());
}

#[test]
fn pass_order_is_independent_of_draw_count() {
    let mut frame = begin_test_frame();
    let draw_pass = match frame.next_pass() {
        Some(Pass::Deferred(p)) => p,
        _ => panic!("expected the deferred pass first"),
    };
    for handle in 0..5 {
        draw_pass.execute(&mut frame, SecondaryBatch { handle });
    }
    assert_eq!(frame.recording.commands.len(), 5);
    assert!(matches!(frame.next_pass(), Some(Pass::Text(_))));
    assert!(matches!(frame.next_pass(), Some(Pass::Finished(_))));
    assert!(frame.next_pass().is_none());
}

#[test]
fn deferred_to_text_closes_the_render_pass() {
    let mut frame = begin_test_frame();
    frame.next_pass();
    assert_eq!(frame.recording.state, RecordingState::RenderPassOpen);
    frame.next_pass();
    assert_eq!(frame.recording.state, RecordingState::RenderPassClosed);
    frame.next_pass();
    assert_eq!(frame.recording.state, RecordingState::Finalized);
}

#[test]
fn viewport_dimensions_are_the_framebuffer_dimensions() {
    let mut frame = begin_test_frame();
    match frame.next_pass() {
        Some(Pass::Deferred(p)) => {
            assert_eq!(p.viewport_dimensions(), [800, 600]);
        }
        _ => panic!("expected the deferred pass first"),
    }
}

#[test]
fn text_pass_queues_text_and_appends_overlay() {
    let mut frame = begin_test_frame();
    frame.next_pass();
    let text_pass = match frame.next_pass() {
        Some(Pass::Text(p)) => p,
        _ => panic!("expected the text pass second"),
    };
    let mut renderer = TextRenderer::new();
    let line = String::from("16 ms (60 FPS)");
    text_pass.write(&mut frame, &line, &mut renderer, 1);
    assert_eq!(renderer.queued, vec![line]);
    match frame.recording.commands.last() {
        Some(RecordedCommand::Overlay(o)) => assert_eq!(o.image_index, 1),
        other => panic!("expected an overlay draw, got {:?}", other),
    }
}

#[test]
fn finished_token_is_consumable_exactly_once() {
    let mut frame = begin_test_frame();
    frame.next_pass();
    frame.next_pass();
    let mut finished = match frame.next_pass() {
        Some(Pass::Finished(p)) => p,
        _ => panic!("expected the finished pass third"),
    };
    let token = finished.take_token().expect("first consumption must succeed");
    assert_eq!(token.frame, 0);
    assert_eq!(token.image_index, 1);
    assert!(finished.take_token().is_none());
    assert!(finished.take_token().is_none());
}

#[test]
fn finalization_consumes_both_input_tokens() {
    let mut frame = begin_test_frame();
    frame.next_pass();
    assert!(frame.previous.is_some());
    assert!(frame.acquire.is_some());
    frame.next_pass();
    frame.next_pass();
    assert!(frame.previous.is_none());
    assert!(frame.acquire.is_none());
    assert_eq!(frame.stage, PassStage::Finished);
}

#[test]
fn deferred_render_pass_is_subpass_zero() {
    let system = FrameSystem::new(PixelFormat::Color(3));
    assert_eq!(system.deferred_render_pass().index, 0);
}
