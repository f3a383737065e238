use voxel_render::frame::{FrameAction, FrameEvent, FramePhase, FrameRing, FrameStep, FRAMES_IN_FLIGHT};
use voxel_render::lifecycle::{loop_step, LoopAction, LoopEvent, LoopState};
use voxel_render::pipeline::{
    draw_call, mesh_data, pipeline_config, push_constant_block, words_to_bytes, DrawCall,
};
use voxel_render::surface::{
    choose_format, choose_present_mode, clamp_extent, negotiate, Extent, SurfaceCaps,
    SurfaceFormat, COLOR_SPACE_SRGB_NONLINEAR, FORMAT_B8G8R8A8_SRGB, PRESENT_MODE_FIFO,
    PRESENT_MODE_MAILBOX,
};
use voxel_render::device::SetupError;
use voxel_render::teardown::{Resource, ResourceKind, ResourceStack};

fn caps() -> SurfaceCaps {
    SurfaceCaps {
        min_image_count: 2,
        min_extent: Extent { width: 100, height: 50 },
        max_extent: Extent { width: 1920, height: 1080 },
    }
}

#[test]
fn extent_is_clamped_to_surface_bounds() {
    let c = caps();
    assert_eq!(clamp_extent(Extent { width: 800, height: 600 }, &c), Extent { width: 800, height: 600 });
    assert_eq!(clamp_extent(Extent { width: 10, height: 5000 }, &c), Extent { width: 100, height: 1080 });
    assert_eq!(clamp_extent(Extent { width: 4000, height: 0 }, &c), Extent { width: 1920, height: 50 });
}

#[test]
fn preferred_format_chosen_when_offered() {
    let other = SurfaceFormat { format: 44, color_space: 0 };
    let preferred = SurfaceFormat { format: FORMAT_B8G8R8A8_SRGB, color_space: COLOR_SPACE_SRGB_NONLINEAR };
    assert_eq!(choose_format(&vec![other, preferred]), Ok(preferred));
    let wrong_space = SurfaceFormat { format: FORMAT_B8G8R8A8_SRGB, color_space: 1000104002 };
    assert_eq!(choose_format(&vec![wrong_space, other]), Ok(wrong_space));
    assert_eq!(choose_format(&vec![]), Err(SetupError::NoSurfaceFormat));
}

#[test]
fn mailbox_preferred_else_fifo() {
    assert_eq!(choose_present_mode(&vec![0, 2, 1]), PRESENT_MODE_MAILBOX);
    assert_eq!(choose_present_mode(&vec![0, 3]), PRESENT_MODE_FIFO);
    assert_eq!(choose_present_mode(&vec![]), PRESENT_MODE_FIFO);
}

#[test]
fn negotiation_combines_the_choices() {
    let f = SurfaceFormat { format: 37, color_space: 0 };
    let cfg = negotiate(&caps(), &vec![f], &vec![2], Extent { width: 1280, height: 800 }).unwrap();
    assert_eq!(cfg.format, f);
    assert_eq!(cfg.present_mode, PRESENT_MODE_FIFO);
    assert_eq!(cfg.extent, Extent { width: 1280, height: 800 });
    assert_eq!(cfg.min_image_count, 2);
    assert_eq!(negotiate(&caps(), &vec![], &vec![1], Extent { width: 1, height: 1 }), Err(SetupError::NoSurfaceFormat));
}

#[test]
fn frame_slots_go_round_robin() {
    let mut ring = FrameRing::new();
    let start = ring.current();
    assert_eq!(start, 0);
    let mut prev = start;
    for k in 1..=7 {
        let s = ring.advance();
        assert_eq!(s, (start + k) % FRAMES_IN_FLIGHT);
        assert_ne!(s, prev);
        prev = s;
    }
    assert_eq!(FRAMES_IN_FLIGHT, 2);
}

#[test]
fn frame_steps_through_a_successful_frame() {
    let mut ring = FrameRing::new();
    let (st, act) = FrameStep::begin(&mut ring);
    assert_eq!(act, FrameAction::WaitFence { slot: 1 });
    let (st, act) = st.next(FrameEvent::FenceSignaled);
    assert_eq!(act, FrameAction::AcquireImage { slot: 1 });
    let (st, act) = st.next(FrameEvent::ImageAcquired { image: 2, suboptimal: false });
    assert_eq!(act, FrameAction::Record { slot: 1, image: 2 });
    let (st, act) = st.next(FrameEvent::Recorded);
    assert_eq!(act, FrameAction::SubmitAndPresent { slot: 1, image: 2 });
    let (st, act) = st.next(FrameEvent::PresentDone { suboptimal: false });
    assert_eq!(act, FrameAction::Finish { ok: true });
    assert_eq!(st.phase, FramePhase::Presented);
    let (st2, act2) = FrameStep::begin(&mut ring);
    assert_eq!(act2, FrameAction::WaitFence { slot: 0 });
    assert_eq!(st2.phase, FramePhase::Idle);
}

#[test]
fn stale_swapchain_ends_the_frame() {
    let mut ring = FrameRing::new();
    let (st, _) = FrameStep::begin(&mut ring);
    let (acq, _) = st.next(FrameEvent::FenceSignaled);
    let (s1, a1) = acq.next(FrameEvent::OutOfDate);
    assert_eq!((s1.phase, a1), (FramePhase::Stale, FrameAction::Finish { ok: false }));
    let (s2, a2) = acq.next(FrameEvent::ImageAcquired { image: 0, suboptimal: true });
    assert_eq!((s2.phase, a2), (FramePhase::Stale, FrameAction::Finish { ok: false }));
    let (rec, _) = acq.next(FrameEvent::ImageAcquired { image: 0, suboptimal: false });
    let (sub, _) = rec.next(FrameEvent::Recorded);
    let (s3, a3) = sub.next(FrameEvent::PresentDone { suboptimal: true });
    assert_eq!((s3.phase, a3), (FramePhase::Stale, FrameAction::Finish { ok: false }));
    let (s4, a4) = sub.next(FrameEvent::OutOfDate);
    assert_eq!((s4.phase, a4), (FramePhase::Stale, FrameAction::Finish { ok: false }));
}

#[test]
fn device_errors_abort_the_frame() {
    let mut ring = FrameRing::new();
    let (st, _) = FrameStep::begin(&mut ring);
    let (s, a) = st.next(FrameEvent::DeviceError);
    assert_eq!((s.phase, a), (FramePhase::Failed, FrameAction::Abort));
    let (s, a) = st.next(FrameEvent::Recorded);
    assert_eq!((s.phase, a), (FramePhase::Failed, FrameAction::Abort));
}

#[test]
fn resize_rebuild_sequence() {
    let c = caps();
    let (state, act) = loop_step(LoopState::Running, LoopEvent::Frame { ok: false });
    assert_eq!(act, LoopAction::WaitIdle);
    let (state, act) = loop_step(state, LoopEvent::DeviceIdle);
    assert_eq!(act, LoopAction::RebuildSurface);
    let new_size = Extent { width: 2500, height: 700 };
    let cfg = negotiate(&c, &vec![SurfaceFormat { format: 50, color_space: 0 }], &vec![2], new_size).unwrap();
    assert_eq!(cfg.extent, Extent { width: 1920, height: 700 });
    let (state, act) = loop_step(state, LoopEvent::SurfaceRebuilt { extent: cfg.extent });
    let extent = match act {
        LoopAction::RebuildRenderer { extent } => extent,
        other => panic!("unexpected {:?}", other),
    };
    assert_eq!(extent, cfg.extent);
    let pipe = pipeline_config(extent);
    assert_eq!(pipe.viewport, Extent { width: 1920, height: 700 });
    assert_eq!(pipe.scissor, pipe.viewport);
    let (state, act) = loop_step(state, LoopEvent::RendererRebuilt);
    assert_eq!((state, act), (LoopState::Running, LoopAction::Render));
}

#[test]
fn quit_waits_for_idle_then_exits() {
    let (s, a) = loop_step(LoopState::Running, LoopEvent::QuitRequested);
    assert_eq!(a, LoopAction::WaitIdle);
    let (s, a) = loop_step(s, LoopEvent::DeviceIdle);
    assert_eq!((s, a), (LoopState::Exited, LoopAction::Exit));
    assert_eq!(loop_step(LoopState::Running, LoopEvent::DeviceIdle), (LoopState::Failed, LoopAction::Abort));
    assert_eq!(loop_step(LoopState::Running, LoopEvent::Frame { ok: true }), (LoopState::Running, LoopAction::Render));
}

#[test]
fn teardown_reverses_creation() {
    let mut stack = ResourceStack::new();
    let created = [
        Resource { kind: ResourceKind::RenderPass, handle: 1 },
        Resource { kind: ResourceKind::Swapchain, handle: 2 },
        Resource { kind: ResourceKind::Image, handle: 3 },
        Resource { kind: ResourceKind::DeviceMemory, handle: 4 },
        Resource { kind: ResourceKind::ImageView, handle: 5 },
        Resource { kind: ResourceKind::ImageView, handle: 6 },
        Resource { kind: ResourceKind::Framebuffer, handle: 7 },
    ];
    for r in created.iter() {
        stack.push(*r);
    }
    assert_eq!(stack.len(), 7);
    let order = stack.teardown();
    let expected: Vec<Resource> = created.iter().rev().cloned().collect();
    assert_eq!(order, expected);
    assert_eq!(stack.len(), 0);
    assert!(stack.teardown().is_empty());
}

#[test]
fn words_serialize_little_endian() {
    assert_eq!(words_to_bytes(&[0x0403_0201, 0xA0B0_C0D0]), vec![1, 2, 3, 4, 0xD0, 0xC0, 0xB0, 0xA0]);
    assert!(words_to_bytes(&[]).is_empty());
}

#[test]
fn push_constant_block_is_sixty_four_bytes() {
    let mut m = [0u32; 16];
    for (i, w) in m.iter_mut().enumerate() {
        *w = (1.0f32 + i as f32).to_bits();
    }
    let block = push_constant_block(&m);
    assert_eq!(block.len(), 64);
    assert_eq!(&block[0..4], &1.0f32.to_le_bytes());
    assert_eq!(&block[60..64], &16.0f32.to_le_bytes());
}

#[test]
fn mesh_upload_layout() {
    let faces = vec![1u32, 0x0100_0000];
    let m = mesh_data(&faces);
    assert_eq!(m.size, 8);
    assert_eq!(m.instance_count, 2);
    assert_eq!(m.bytes, vec![1, 0, 0, 0, 0, 0, 0, 1]);
    assert_eq!(draw_call(m.instance_count), DrawCall { vertex_count: 6, instance_count: 2 });
}
