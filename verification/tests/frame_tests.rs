use graphics::frame::FrameCommand;
use graphics::frame::FramePipeline;

#[test]
fn double_buffering_over_two_full_rotations() {
    let n: usize = 2;
    let mut pipeline = FramePipeline::new(n);
    for k in 0..(2 * n) {
        let slot = pipeline.begin_frame();
        assert_eq!(slot, k % n);
        assert!(!pipeline.acquire_result(false));
        pipeline.fence_observed();
        // Before the (k)th submission records, every prior submission on
        // this slot has retired.
        assert_eq!(
            pipeline.retired_count(slot),
            pipeline.submitted_count(slot)
        );
        assert_eq!(pipeline.submitted_count(slot), (k / n) as u64);
        let info = pipeline.submit(k as u64);
        assert_eq!(info.slot, slot);
        assert_eq!(info.transfer_wait_value, k as u64);
        assert_eq!(pipeline.submitted_count(slot), (k / n) as u64 + 1);
        pipeline.present();
        pipeline.end_frame();
    }
    assert_eq!(pipeline.submitted_count(0), 2);
    assert_eq!(pipeline.submitted_count(1), 2);
    assert_eq!(pipeline.retired_count(0), 1);
    assert_eq!(pipeline.retired_count(1), 1);
}

#[test]
fn suboptimal_acquire_retries() {
    let mut pipeline = FramePipeline::new(2);
    pipeline.begin_frame();
    assert!(pipeline.acquire_result(true));
    assert!(pipeline.acquire_result(true));
    assert!(!pipeline.acquire_result(false));
    assert!(!pipeline.is_recording());
    pipeline.fence_observed();
    assert!(pipeline.is_recording());
}

#[test]
fn recording_order() {
    let mut pipeline = FramePipeline::new(2);
    pipeline.begin_frame();
    pipeline.acquire_result(false);
    pipeline.fence_observed();
    let commands = pipeline.record();
    assert_eq!(
        commands,
        vec![
            FrameCommand::TransferEndBarriers,
            FrameCommand::DrawScene,
            FrameCommand::BlitToSwapchain,
            FrameCommand::TransitionToPresent,
        ]
    );
}

#[test]
fn slots_rotate_in_fixed_order() {
    let n: usize = 3;
    let mut pipeline = FramePipeline::new(n);
    let mut seen = Vec::new();
    for k in 0..7 {
        let slot = pipeline.begin_frame();
        seen.push(slot);
        pipeline.acquire_result(false);
        pipeline.fence_observed();
        pipeline.submit(k as u64);
        pipeline.present();
        pipeline.end_frame();
    }
    assert_eq!(seen, vec![0, 1, 2, 0, 1, 2, 0]);
}
