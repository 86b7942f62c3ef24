use scop::vulkan::{
    after_init_step, decode_api_version, device_features_supported, pick_graphics_queue,
    pick_physical_device, swapchain_image_count, ApiVersion, FrameCounters, FrameTicket, InitAction,
    InitStep, QueueFamily, RendererState, WindowEvent, WindowSize,
};

#[test]
fn api_version_parts() {
    let v = decode_api_version((1 << 22) | (3 << 12));
    assert_eq!(v, ApiVersion { major: 1, minor: 3, patch: 0 });
    let v = decode_api_version((1 << 29) | (1 << 22) | (2 << 12) | 283);
    assert_eq!(v, ApiVersion { major: 1, minor: 2, patch: 283 });
    assert_eq!(decode_api_version(u32::MAX), ApiVersion { major: 0x7f, minor: 0x3ff, patch: 0xfff });
}

#[test]
fn device_choice_prefers_discrete_gpus() {
    assert_eq!(pick_physical_device(&vec![]), None);
    assert_eq!(pick_physical_device(&vec![false, false]), Some(0));
    assert_eq!(pick_physical_device(&vec![false, true, true]), Some(1));
    assert_eq!(pick_physical_device(&vec![true]), Some(0));
}

#[test]
fn queue_choice_needs_present_and_graphics() {
    let f = |present, graphics| QueueFamily { present, graphics };
    assert_eq!(pick_graphics_queue(&vec![]), None);
    assert_eq!(pick_graphics_queue(&vec![f(Some(true), false), f(None, true), f(Some(true), true)]), Some(2));
    assert_eq!(pick_graphics_queue(&vec![f(Some(false), true), f(None, true)]), None);
}

#[test]
fn features_and_image_count() {
    assert!(device_features_supported(1, 1, 1));
    assert!(!device_features_supported(1, 0, 1));
    assert!(!device_features_supported(0, 1, 1));
    assert!(!device_features_supported(1, 1, 0));
    assert_eq!(swapchain_image_count(0), 3);
    assert_eq!(swapchain_image_count(2), 3);
    assert_eq!(swapchain_image_count(5), 5);
}

#[test]
fn frames_wait_two_frames_back() {
    let mut c = FrameCounters::new();
    let t0 = c.next_frame();
    let t1 = c.next_frame();
    let t2 = c.next_frame();
    assert_eq!(t0, FrameTicket { resource_index: 0, signal_value: 3, wait_value: 1 });
    assert_eq!(t1, FrameTicket { resource_index: 1, signal_value: 4, wait_value: 2 });
    assert_eq!(t2, FrameTicket { resource_index: 0, signal_value: 5, wait_value: 3 });
    assert_eq!(t2.wait_value, t0.signal_value);
    assert_eq!(c, FrameCounters { frame_index: 3, next_signal_value: 6 });
    let mut early = FrameCounters { frame_index: 0, next_signal_value: 1 };
    assert_eq!(early.next_frame().wait_value, 0);
}

#[test]
fn events_update_window_state() {
    let mut size = WindowSize::new();
    assert_eq!(size, WindowSize { width: 1280, height: 720 });
    let mut running = true;
    assert!(!size.handle_event(&mut running, WindowEvent::Other));
    assert!(running);
    assert!(size.handle_event(&mut running, WindowEvent::Resized(800, 600)));
    assert_eq!(size, WindowSize { width: 800, height: 600 });
    assert!(size.handle_event(&mut running, WindowEvent::Resized(-1, 2)));
    assert_eq!(size, WindowSize { width: u32::MAX, height: 2 });
    assert!(!size.handle_event(&mut running, WindowEvent::Quit));
    assert!(!running);
}

#[test]
fn init_steps_in_order() {
    let mut step = InitStep::Sdl;
    let mut n = 1;
    while let InitAction::Run(next) = after_init_step(step, true) {
        step = next;
        n += 1;
    }
    assert_eq!(step, InitStep::CommandBuffers);
    assert_eq!(n, 15);
    assert_eq!(after_init_step(InitStep::CommandBuffers, true), InitAction::Ready);
    assert_eq!(after_init_step(InitStep::Device, false), InitAction::Fail(InitStep::Device));
    assert_eq!(InitStep::Device.failure_message(), "Couldn't create the logical GPU device");
    assert_eq!(InitStep::Sdl.failure_message(), "Error creating window. No SDL2 init");
    assert_eq!(InitStep::Surface.next(), Some(InitStep::PhysicalDevice));
}

#[test]
fn renderer_starts_with_nothing_set_up() {
    let r = RendererState::new();
    assert_eq!(r.size, WindowSize { width: 1280, height: 720 });
    assert_eq!(r.frames, FrameCounters { frame_index: 0, next_signal_value: 3 });
    assert_eq!(r.gfx_queue_fam_idx, u32::MAX);
    assert_eq!((r.swapchain_width, r.swapchain_height), (0, 0));
    assert!(!r.require_swapchain_recreate);
}
