use vstd::prelude::*;

verus! {

/// The number of frames that the renderer records ahead of the GPU.
pub const MAX_FRAMES_IN_FLIGHT: usize = 2;

/// The fewest swapchain images the renderer asks for.
pub const MIN_SWAPCHAIN_IMAGES: u32 = 3;

/// Calls `ash::vk::api_version_major`, which ash defines as
/// `(version >> 22) & 0x7f`; the contract states that expression.
#[verifier::external_body]
fn ash_api_version_major(version: u32) -> (r: u32)
    ensures
        r == (version >> 22u32) & 0x7fu32,
{
    ash::vk::api_version_major(version)
}

/// Calls `ash::vk::api_version_minor`, which ash defines as
/// `(version >> 12) & 0x3ff`; the contract states that expression.
#[verifier::external_body]
fn ash_api_version_minor(version: u32) -> (r: u32)
    ensures
        r == (version >> 12u32) & 0x3ffu32,
{
    ash::vk::api_version_minor(version)
}

/// Calls `ash::vk::api_version_patch`, which ash defines as
/// `version & 0xfff`; the contract states that expression.
#[verifier::external_body]
fn ash_api_version_patch(version: u32) -> (r: u32)
    ensures
        r == version & 0xfffu32,
{
    ash::vk::api_version_patch(version)
}

/// A Vulkan API version, split into its parts.
#[derive(Clone, Copy, Debug, PartialEq, Eq, Structural)]
pub struct ApiVersion {
    pub major: u32,
    pub minor: u32,
    pub patch: u32,
}

/// The major, minor and patch numbers packed in the Vulkan version number
/// `version`: bits 22 to 28, 12 to 21 and 0 to 11.
pub fn decode_api_version(version: u32) -> (v: ApiVersion)
    ensures
        v.major == (version >> 22u32) & 0x7fu32,
        v.minor == (version >> 12u32) & 0x3ffu32,
        v.patch == version & 0xfffu32,
{
    ApiVersion {
        major: ash_api_version_major(version),
        minor: ash_api_version_minor(version),
        patch: ash_api_version_patch(version),
    }
}

/// Picks the physical device: the first discrete GPU, else the first device.
pub fn pick_physical_device(discrete: &Vec<bool>) -> (r: Option<usize>)
    ensures
        discrete@.len() == 0 <==> r is None,
        r matches Some(i) ==> i < discrete@.len(),
        r matches Some(i) ==> (discrete@[i as int] <==> exists|k: int| 0 <= k < discrete@.len() && discrete@[k]),
        r matches Some(i) ==> forall|j: int| 0 <= j < i ==> !discrete@[j],
        r matches Some(i) ==> !discrete@[i as int] ==> i == 0,
{
    if discrete.len() == 0 {
        return None;
    }
    let mut i: usize = 0;
    while i < discrete.len()
        invariant
            0 <= i <= discrete@.len(),
            forall|j: int| 0 <= j < i ==> !discrete@[j],
        decreases discrete@.len() - i,
    {
        if discrete[i] {
            return Some(i);
        }
        i = i + 1;
    }
    Some(0)
}

/// What the renderer learns of one queue family: whether it can present to
/// the window surface (`None` when the query failed) and whether it can draw.
#[derive(Clone, Copy, Debug, PartialEq, Eq, Structural)]
pub struct QueueFamily {
    pub present: Option<bool>,
    pub graphics: bool,
}

/// Whether the queue family can both present and draw.
pub open spec fn usable_family(f: QueueFamily) -> bool {
    f.present == Some(true) && f.graphics
}

/// A family is usable exactly when it can draw and reports that it can
/// present; a family that cannot draw, or cannot present, or does not say,
/// is not.
pub proof fn law_usable_family_draws_and_presents(f: QueueFamily)
    ensures
        usable_family(f) <==> (f.graphics && f.present == Some(true)),
        !f.graphics ==> !usable_family(f),
        f.present != Some(true) ==> !usable_family(f),
{
}

/// Picks the first queue family that can both present and draw.
pub fn pick_graphics_queue(families: &Vec<QueueFamily>) -> (r: Option<u32>)
    requires
        families@.len() <= u32::MAX,
    ensures
        r matches Some(i) ==> i < families@.len() && usable_family(families@[i as int])
            && forall|j: int| 0 <= j < i ==> !usable_family(#[trigger] families@[j]),
        r matches Some(i) ==> families@[i as int].graphics && families@[i as int].present == Some(
            true,
        ),
        r matches Some(i) ==> forall|j: int|
            0 <= j < i ==> !(#[trigger] families@[j].graphics && families@[j].present == Some(true)),
        r is None ==> forall|j: int|
            0 <= j < families@.len() ==> !(#[trigger] families@[j].graphics && families@[j].present
                == Some(true)),
        r is None ==> forall|j: int| 0 <= j < families@.len() ==> !usable_family(#[trigger] families@[j]),
{
    let mut i: usize = 0;
    while i < families.len()
        invariant
            0 <= i <= families@.len(),
            families@.len() <= u32::MAX,
            forall|j: int| 0 <= j < i ==> !usable_family(#[trigger] families@[j]),
        decreases families@.len() - i,
    {
        let f = families[i];
        let present = match f.present {
            Some(b) => b,
            None => false,
        };
        if present && f.graphics {
            return Some(i as u32);
        }
        i = i + 1;
    }
    None
}

/// Whether a device offers what the renderer needs: dynamic rendering,
/// synchronization2 and timeline semaphores (each a Vulkan boolean, 0 for
/// false).
pub fn device_features_supported(dynamic_rendering: u32, synchronization2: u32, timeline_semaphore: u32) -> (ok: bool)
    ensures
        ok == (dynamic_rendering != 0 && synchronization2 != 0 && timeline_semaphore != 0),
{
    !(dynamic_rendering == 0 || synchronization2 == 0 || timeline_semaphore == 0)
}

/// The number of swapchain images to ask for, given the surface's minimum:
/// at least `MIN_SWAPCHAIN_IMAGES`.
pub fn swapchain_image_count(surface_min: u32) -> (n: u32)
    ensures
        n == if surface_min > MIN_SWAPCHAIN_IMAGES { surface_min } else { MIN_SWAPCHAIN_IMAGES },
{
    if surface_min > MIN_SWAPCHAIN_IMAGES {
        surface_min
    } else {
        MIN_SWAPCHAIN_IMAGES
    }
}

/// What one frame uses: the slot of per-frame resources, the timeline value
/// its submission signals and the value to wait for before reusing the slot.
#[derive(Clone, Copy, Debug, PartialEq, Eq, Structural)]
pub struct FrameTicket {
    pub resource_index: u32,
    pub signal_value: u64,
    pub wait_value: u64,
}

/// The renderer's frame counters: how many frames were started and the next
/// timeline semaphore value to signal.
#[derive(Clone, Copy, Debug, PartialEq, Eq, Structural)]
pub struct FrameCounters {
    pub frame_index: u32,
    pub next_signal_value: u32,
}

/// The ticket of the frame started with the counters `c`: the slot
/// `frame_index % MAX_FRAMES_IN_FLIGHT`, the next timeline value to signal,
/// and the value signalled `MAX_FRAMES_IN_FLIGHT` values earlier (0 while
/// there is none) to wait for.
pub open spec fn frame_ticket(c: FrameCounters) -> FrameTicket {
    FrameTicket {
        resource_index: c.frame_index % (MAX_FRAMES_IN_FLIGHT as u32),
        signal_value: c.next_signal_value as u64,
        wait_value: if c.next_signal_value >= MAX_FRAMES_IN_FLIGHT {
            (c.next_signal_value - MAX_FRAMES_IN_FLIGHT) as u64
        } else {
            0
        },
    }
}

impl FrameCounters {
    /// No frame started; the first frame signals `MAX_FRAMES_IN_FLIGHT + 1`.
    pub fn new() -> (c: Self)
        ensures
            c.frame_index == 0,
            c.next_signal_value == MAX_FRAMES_IN_FLIGHT + 1,
    {
        FrameCounters { frame_index: 0, next_signal_value: 3 }
    }

    /// Starts a frame: it uses the slot `frame_index % MAX_FRAMES_IN_FLIGHT`,
    /// signals the next timeline value and waits for the value signalled
    /// `MAX_FRAMES_IN_FLIGHT` frames earlier (0 while there is none).
    pub fn next_frame(&mut self) -> (t: FrameTicket)
        requires
            old(self).frame_index < u32::MAX,
            old(self).next_signal_value < u32::MAX,
        ensures
            final(self).frame_index == old(self).frame_index + 1,
            final(self).next_signal_value == old(self).next_signal_value + 1,
            t == frame_ticket(*old(self)),
    {
        let resource_index: u32 = self.frame_index % (MAX_FRAMES_IN_FLIGHT as u32);
        self.frame_index += 1;
        let signal_value: u64 = self.next_signal_value as u64;
        self.next_signal_value += 1;
        let wait_value: u64 = if signal_value >= MAX_FRAMES_IN_FLIGHT as u64 {
            signal_value - MAX_FRAMES_IN_FLIGHT as u64
        } else {
            0
        };
        FrameTicket { resource_index, signal_value, wait_value }
    }
}

/// Counters that started at `FrameCounters::new` and have run `n` frames
/// since.
pub open spec fn counters_after(n: nat) -> FrameCounters {
    FrameCounters { frame_index: n as u32, next_signal_value: (n + MAX_FRAMES_IN_FLIGHT + 1) as u32 }
}

/// Frames started from `FrameCounters::new` share the resource slots in turn
/// and never run more than `MAX_FRAMES_IN_FLIGHT` ahead: the frame `n` waits
/// for the timeline value that the frame `n - MAX_FRAMES_IN_FLIGHT` (which used
/// the same slot) signalled, and the first frames wait for no more than the
/// timeline's starting value `MAX_FRAMES_IN_FLIGHT`. Each frame signals one
/// more than the frame before.
pub proof fn law_frames_in_flight(n: nat)
    requires
        n + MAX_FRAMES_IN_FLIGHT + 2 <= u32::MAX,
    ensures
        frame_ticket(counters_after(n + 1)).signal_value == frame_ticket(counters_after(n)).signal_value + 1,
        n >= MAX_FRAMES_IN_FLIGHT ==> {
            let earlier = (n - MAX_FRAMES_IN_FLIGHT) as nat;
            &&& frame_ticket(counters_after(n)).wait_value == frame_ticket(counters_after(earlier)).signal_value
            &&& frame_ticket(counters_after(n)).resource_index == frame_ticket(counters_after(earlier)).resource_index
        },
        n < MAX_FRAMES_IN_FLIGHT ==> frame_ticket(counters_after(n)).wait_value <= MAX_FRAMES_IN_FLIGHT,
{
    let m = MAX_FRAMES_IN_FLIGHT as u32;
    if n >= MAX_FRAMES_IN_FLIGHT {
        let e = (n - MAX_FRAMES_IN_FLIGHT) as nat;
        assert((n as u32) % m == (e as u32) % m) by (nonlinear_arith)
            requires
                m == 2,
                n == e + 2,
                n < 0x1_0000_0000,
        ;
    }
}

/// Consecutive frames use different resource slots, each slot is one of the
/// `MAX_FRAMES_IN_FLIGHT`, the slot of the frame `n` is `n` modulo that
/// number, and every frame waits for the value `MAX_FRAMES_IN_FLIGHT` below
/// the one it signals.
pub proof fn law_frame_slots(n: nat)
    requires
        n + MAX_FRAMES_IN_FLIGHT + 2 <= u32::MAX,
    ensures
        frame_ticket(counters_after(n)).resource_index < MAX_FRAMES_IN_FLIGHT,
        frame_ticket(counters_after(n)).resource_index == n % (MAX_FRAMES_IN_FLIGHT as nat),
        frame_ticket(counters_after(n + 1)).resource_index != frame_ticket(
            counters_after(n),
        ).resource_index,
        frame_ticket(counters_after(n)).wait_value + MAX_FRAMES_IN_FLIGHT == frame_ticket(
            counters_after(n),
        ).signal_value,
{
    let m = MAX_FRAMES_IN_FLIGHT as u32;
    assert((n as u32) % m != ((n + 1) as u32) % m) by (nonlinear_arith)
        requires
            m == 2,
            n + 1 < 0x1_0000_0000,
    ;
}

/// A window event, as far as the renderer cares.
#[derive(Clone, Copy, Debug, PartialEq, Eq, Structural)]
pub enum WindowEvent {
    /// The user asked to close the window.
    Quit,
    /// The window was resized to the given width and height.
    Resized(i32, i32),
    /// Any other event.
    Other,
}

/// The size of the renderer's window.
#[derive(Clone, Copy, Debug, PartialEq, Eq, Structural)]
pub struct WindowSize {
    pub width: u32,
    pub height: u32,
}

impl WindowSize {
    /// The size the window opens with: 1280 by 720.
    pub fn new() -> (s: Self)
        ensures
            s.width == 1280,
            s.height == 720,
    {
        WindowSize { width: 1280, height: 720 }
    }

    /// Takes one event of the event loop into account. A quit request clears
    /// `running`; a resize records the new size (each number taken modulo
    /// 2^32, as `as u32` does) and ends the polling of this batch of events,
    /// which the result reports.
    pub fn handle_event(&mut self, running: &mut bool, event: WindowEvent) -> (stop_polling: bool)
        ensures
            match event {
                WindowEvent::Quit => {
                    &&& !*final(running)
                    &&& *final(self) == *old(self)
                    &&& !stop_polling
                },
                WindowEvent::Resized(w, h) => {
                    &&& *final(running) == *old(running)
                    &&& final(self).width == w as u32
                    &&& final(self).height == h as u32
                    &&& stop_polling
                },
                WindowEvent::Other => {
                    &&& *final(running) == *old(running)
                    &&& *final(self) == *old(self)
                    &&& !stop_polling
                },
            },
    {
        match event {
            WindowEvent::Quit => {
                *running = false;
                false
            },
            WindowEvent::Resized(w, h) => {
                self.width = w as u32;
                self.height = h as u32;
                true
            },
            WindowEvent::Other => false,
        }
    }
}

/// The plain state of the renderer: its window size, frame counters, chosen
/// graphics queue family (`u32::MAX` while none is chosen), swapchain size
/// and whether the swapchain must be made again before the next frame.
#[derive(Clone, Copy, Debug, PartialEq, Eq, Structural)]
pub struct RendererState {
    pub size: WindowSize,
    pub frames: FrameCounters,
    pub gfx_queue_fam_idx: u32,
    pub swapchain_width: u32,
    pub swapchain_height: u32,
    pub require_swapchain_recreate: bool,
}

impl RendererState {
    /// The state before anything is set up: a 1280 by 720 window, no frame
    /// started, no queue family chosen, no swapchain.
    pub fn new() -> (r: Self)
        ensures
            r.size.width == 1280,
            r.size.height == 720,
            r.frames.frame_index == 0,
            r.frames.next_signal_value == MAX_FRAMES_IN_FLIGHT + 1,
            r.gfx_queue_fam_idx == u32::MAX,
            r.swapchain_width == 0,
            r.swapchain_height == 0,
            !r.require_swapchain_recreate,
    {
        RendererState {
            size: WindowSize::new(),
            frames: FrameCounters::new(),
            gfx_queue_fam_idx: u32::MAX,
            swapchain_width: 0,
            swapchain_height: 0,
            require_swapchain_recreate: false,
        }
    }
}

/// The steps of bringing the renderer up, in order.
#[derive(Clone, Copy, Debug, PartialEq, Eq, Structural)]
pub enum InitStep {
    Sdl,
    Video,
    Window,
    EventPump,
    Instance,
    Surface,
    PhysicalDevice,
    GraphicsQueue,
    Device,
    Allocator,
    Swapchain,
    Shaders,
    Pipeline,
    SyncResources,
    CommandBuffers,
}

/// The step that comes after `s`; none after the last.
pub open spec fn next_step(s: InitStep) -> Option<InitStep> {
    match s {
        InitStep::Sdl => Some(InitStep::Video),
        InitStep::Video => Some(InitStep::Window),
        InitStep::Window => Some(InitStep::EventPump),
        InitStep::EventPump => Some(InitStep::Instance),
        InitStep::Instance => Some(InitStep::Surface),
        InitStep::Surface => Some(InitStep::PhysicalDevice),
        InitStep::PhysicalDevice => Some(InitStep::GraphicsQueue),
        InitStep::GraphicsQueue => Some(InitStep::Device),
        InitStep::Device => Some(InitStep::Allocator),
        InitStep::Allocator => Some(InitStep::Swapchain),
        InitStep::Swapchain => Some(InitStep::Shaders),
        InitStep::Shaders => Some(InitStep::Pipeline),
        InitStep::Pipeline => Some(InitStep::SyncResources),
        InitStep::SyncResources => Some(InitStep::CommandBuffers),
        InitStep::CommandBuffers => None::<InitStep>,
    }
}

/// The steps of bringing the renderer up, in the order in which they run.
pub open spec fn init_order() -> Seq<InitStep> {
    seq![
        InitStep::Sdl,
        InitStep::Video,
        InitStep::Window,
        InitStep::EventPump,
        InitStep::Instance,
        InitStep::Surface,
        InitStep::PhysicalDevice,
        InitStep::GraphicsQueue,
        InitStep::Device,
        InitStep::Allocator,
        InitStep::Swapchain,
        InitStep::Shaders,
        InitStep::Pipeline,
        InitStep::SyncResources,
        InitStep::CommandBuffers,
    ]
}

/// Start-up runs the steps one after the other in their declared order: the
/// step after each is the one declared right after it (so the swapchain comes
/// before the shader modules, and those before the pipeline that uses them),
/// and nothing comes after the last. Every step has its place in that order.
pub proof fn law_steps_in_declared_order(s: InitStep)
    ensures
        forall|i: int| 0 <= i < 14 ==> next_step(#[trigger] init_order()[i]) == Some(init_order()[i + 1]),
        next_step(init_order()[14]) == None::<InitStep>,
        exists|i: int| 0 <= i < 15 && init_order()[i] == s,
{
    assert forall|i: int| 0 <= i < 14 implies next_step(#[trigger] init_order()[i]) == Some(init_order()[i + 1]) by {
        if i == 0 {} else if i == 1 {} else if i == 2 {} else if i == 3 {} else if i == 4 {}
        else if i == 5 {} else if i == 6 {} else if i == 7 {} else if i == 8 {} else if i == 9 {}
        else if i == 10 {} else if i == 11 {} else if i == 12 {} else {}
    }
    let k: int = match s {
        InitStep::Sdl => 0,
        InitStep::Video => 1,
        InitStep::Window => 2,
        InitStep::EventPump => 3,
        InitStep::Instance => 4,
        InitStep::Surface => 5,
        InitStep::PhysicalDevice => 6,
        InitStep::GraphicsQueue => 7,
        InitStep::Device => 8,
        InitStep::Allocator => 9,
        InitStep::Swapchain => 10,
        InitStep::Shaders => 11,
        InitStep::Pipeline => 12,
        InitStep::SyncResources => 13,
        InitStep::CommandBuffers => 14,
    };
    assert(init_order()[k] == s);
}

impl InitStep {
    /// The step that comes after this one; none after the last.
    pub fn next(self) -> (n: Option<InitStep>)
        ensures
            n == next_step(self),
    {
        match self {
            InitStep::Sdl => Some(InitStep::Video),
            InitStep::Video => Some(InitStep::Window),
            InitStep::Window => Some(InitStep::EventPump),
            InitStep::EventPump => Some(InitStep::Instance),
            InitStep::Instance => Some(InitStep::Surface),
            InitStep::Surface => Some(InitStep::PhysicalDevice),
            InitStep::PhysicalDevice => Some(InitStep::GraphicsQueue),
            InitStep::GraphicsQueue => Some(InitStep::Device),
            InitStep::Device => Some(InitStep::Allocator),
            InitStep::Allocator => Some(InitStep::Swapchain),
            InitStep::Swapchain => Some(InitStep::Shaders),
            InitStep::Shaders => Some(InitStep::Pipeline),
            InitStep::Pipeline => Some(InitStep::SyncResources),
            InitStep::SyncResources => Some(InitStep::CommandBuffers),
            InitStep::CommandBuffers => None,
        }
    }

    /// The message shown to the user when this step fails.
    pub fn failure_message(self) -> (m: &'static str)
        ensures
            m@ == match self {
                InitStep::Sdl => "Error creating window. No SDL2 init"@,
                InitStep::Video => "Error creating window. No video"@,
                InitStep::Window => "Error creating window"@,
                InitStep::EventPump => "Error creating event pump"@,
                InitStep::Instance => "Couldn't create a vulkan instance"@,
                InitStep::Surface => "Couldn't create window surface"@,
                InitStep::PhysicalDevice => "Unable to find an appropriate physical device"@,
                InitStep::GraphicsQueue => "Unable to find a compatible graphics queue"@,
                InitStep::Device => "Couldn't create the logical GPU device"@,
                InitStep::Allocator => "Unable to create Vulkan Memory Allocator"@,
                InitStep::Swapchain => "Unable to create swapchain"@,
                InitStep::Shaders => "Error creating shader modules"@,
                InitStep::Pipeline => "Unable to initialize the graphics pipeline"@,
                InitStep::SyncResources => "Couldn't create the sync related resources"@,
                InitStep::CommandBuffers => "Couldn't create command buffer objects"@,
            },
    {
        match self {
            InitStep::Sdl => "Error creating window. No SDL2 init",
            InitStep::Video => "Error creating window. No video",
            InitStep::Window => "Error creating window",
            InitStep::EventPump => "Error creating event pump",
            InitStep::Instance => "Couldn't create a vulkan instance",
            InitStep::Surface => "Couldn't create window surface",
            InitStep::PhysicalDevice => "Unable to find an appropriate physical device",
            InitStep::GraphicsQueue => "Unable to find a compatible graphics queue",
            InitStep::Device => "Couldn't create the logical GPU device",
            InitStep::Allocator => "Unable to create Vulkan Memory Allocator",
            InitStep::Swapchain => "Unable to create swapchain",
            InitStep::Shaders => "Error creating shader modules",
            InitStep::Pipeline => "Unable to initialize the graphics pipeline",
            InitStep::SyncResources => "Couldn't create the sync related resources",
            InitStep::CommandBuffers => "Couldn't create command buffer objects",
        }
    }
}

/// What bringing the renderer up does after a step: go on with the next
/// step, stop successfully after the last, or stop and show the step's
/// failure message.
#[derive(Clone, Copy, Debug, PartialEq, Eq, Structural)]
pub enum InitAction {
    Run(InitStep),
    Ready,
    Fail(InitStep),
}

/// The action after `step` has succeeded (`ok`) or failed.
pub fn after_init_step(step: InitStep, ok: bool) -> (a: InitAction)
    ensures
        !ok ==> a == InitAction::Fail(step),
        ok ==> a == match next_step(step) {
            Some(n) => InitAction::Run(n),
            None => InitAction::Ready,
        },
{
    if !ok {
        return InitAction::Fail(step);
    }
    match step.next() {
        Some(n) => InitAction::Run(n),
        None => InitAction::Ready,
    }
}

} // verus!
