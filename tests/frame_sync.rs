use r2r2::frame_sync::{FramePhase, FrameStep, FrameSync};

#[test]
fn two_frames_cycle_back() {
    let mut s = FrameSync::new(2);
    for expected in [0usize, 1, 0, 1] {
        assert_eq!(s.begin_frame(), FrameStep::Record(expected));
        assert_eq!(s.phase, FramePhase::Recording);
        assert_eq!(s.end_frame(), expected);
        assert!(!s.fence_signaled[expected]);
        s.present();
        // the device finishes the frame's work before the slot comes round
        s.fence_signaled(expected);
    }
    assert_eq!(s.frame_index, 0);
}

#[test]
fn unsignaled_fence_blocks_recording() {
    let mut s = FrameSync::new(1);
    assert_eq!(s.begin_frame(), FrameStep::Record(0));
    s.end_frame();
    s.present();
    assert_eq!(s.frame_index, 0);
    assert_eq!(s.begin_frame(), FrameStep::WaitForFence(0));
    assert_eq!(s.phase, FramePhase::Idle);
    s.fence_signaled(0);
    assert_eq!(s.begin_frame(), FrameStep::Record(0));
}

#[test]
fn three_slots_overlap() {
    let mut s = FrameSync::new(3);
    for slot in 0..3usize {
        assert_eq!(s.begin_frame(), FrameStep::Record(slot));
        s.end_frame();
        s.present();
    }
    // slot 0's work has not completed yet
    assert_eq!(s.begin_frame(), FrameStep::WaitForFence(0));
}
