//! The swapchain: its images, their views and framebuffers, and one set of
//! synchronization objects per image.

use vstd::prelude::*;
use crate::flags::{format_b8g8r8a8_unorm, FORMAT_B8G8R8A8_UNORM};
use crate::gpu::{
    rejection, reject, Call, Extent, ImageAspect, ImageUsage, ImageViewInfo, ImageViewType,
    ObjectKind, PresentMode, RenderError, Reply, SharingMode, Step, SurfaceCapabilities,
    SurfaceFormat, SwapchainConfig,
};

verus! {

/// Images asked of the surface at least.
pub const MIN_IMAGE_COUNT: u32 = 3;

/// The presentable images of a surface with everything kept per image.
///
/// `image_available`, `rendering_finished` and `may_begin_drawing` are
/// indexed by `current_image`, a counter that cycles with the frames; it is
/// not the index of the image the device hands out.
#[derive(Debug, PartialEq, Eq)]
pub struct RendererSwapchain {
    pub swapchain: u64,
    pub image_views: Vec<u64>,
    pub framebuffers: Vec<u64>,
    pub extent: Extent,
    pub image_available: Vec<u64>,
    pub rendering_finished: Vec<u64>,
    pub may_begin_drawing: Vec<u64>,
    pub image_count: u32,
    pub current_image: usize,
}

/// A swapchain as a mathematical value.
pub struct SwapchainView {
    pub swapchain: u64,
    pub image_views: Seq<u64>,
    pub framebuffers: Seq<u64>,
    pub extent: Extent,
    pub image_available: Seq<u64>,
    pub rendering_finished: Seq<u64>,
    pub may_begin_drawing: Seq<u64>,
    pub image_count: u32,
    pub current_image: usize,
}

impl View for RendererSwapchain {
    type V = SwapchainView;

    open spec fn view(&self) -> SwapchainView {
        SwapchainView {
            swapchain: self.swapchain,
            image_views: self.image_views@,
            framebuffers: self.framebuffers@,
            extent: self.extent,
            image_available: self.image_available@,
            rendering_finished: self.rendering_finished@,
            may_begin_drawing: self.may_begin_drawing@,
            image_count: self.image_count,
            current_image: self.current_image,
        }
    }
}

/// The calls that destroy `handles`, in order.
pub open spec fn destroy_all(kind: ObjectKind, handles: Seq<u64>) -> Seq<Call> {
    Seq::new(handles.len(), |i: int| Call::Destroy { kind, handle: handles[i] })
}

impl SwapchainView {
    /// A swapchain that holds nothing.
    pub open spec fn released(extent: Extent) -> SwapchainView {
        SwapchainView {
            swapchain: 0,
            image_views: Seq::empty(),
            framebuffers: Seq::empty(),
            extent,
            image_available: Seq::empty(),
            rendering_finished: Seq::empty(),
            may_begin_drawing: Seq::empty(),
            image_count: 0,
            current_image: 0,
        }
    }

    /// One view and one set of synchronization objects per image, at most
    /// one framebuffer per image, and a frame counter within the images.
    pub open spec fn well_formed(self) -> bool {
        &&& self.image_views.len() == self.image_count
        &&& self.image_available.len() == self.image_count
        &&& self.rendering_finished.len() == self.image_count
        &&& self.may_begin_drawing.len() == self.image_count
        &&& self.framebuffers.len() <= self.image_count
        &&& self.current_image < self.image_count || (self.image_count == 0
            && self.current_image == 0)
    }

    /// Well formed, with a framebuffer for every image.
    pub open spec fn complete(self) -> bool {
        &&& self.well_formed()
        &&& self.framebuffers.len() == self.image_count
    }

    /// The calls that take the swapchain down: semaphores, then fences, then
    /// framebuffers, then image views, then the swapchain itself.
    pub open spec fn teardown(self) -> Seq<Call> {
        destroy_all(ObjectKind::Semaphore, self.image_available) + destroy_all(
            ObjectKind::Semaphore,
            self.rendering_finished,
        ) + destroy_all(ObjectKind::Fence, self.may_begin_drawing) + destroy_all(
            ObjectKind::Framebuffer,
            self.framebuffers,
        ) + destroy_all(ObjectKind::ImageView, self.image_views) + (if self.swapchain != 0 {
            seq![Call::Destroy { kind: ObjectKind::Swapchain, handle: self.swapchain }]
        } else {
            Seq::empty()
        })
    }
}

/// The swapchain asked of a surface: at least three images in the first
/// reported format, used as color attachments by one queue family, with the
/// surface's own extent, transform and composite alpha, presented at once.
pub open spec fn swapchain_config(
    surface: u64,
    capabilities: SurfaceCapabilities,
    format: SurfaceFormat,
    queue_family: u32,
) -> SwapchainConfig {
    SwapchainConfig {
        surface,
        min_image_count: MIN_IMAGE_COUNT,
        format: format.format,
        color_space: format.color_space,
        extent: capabilities.current_extent,
        array_layers: 1,
        usage: ImageUsage::ColorAttachment,
        sharing: SharingMode::Exclusive,
        queue_family,
        pre_transform: capabilities.current_transform,
        composite_alpha: capabilities.composite_alpha,
        present_mode: PresentMode::Immediate,
    }
}

/// The view made of a swapchain image: two-dimensional, in the fixed
/// B8G8R8A8 format, showing the color of its single mip level and layer.
pub open spec fn color_view(image: u64) -> ImageViewInfo {
    ImageViewInfo {
        image,
        view_type: ImageViewType::TwoDimensional,
        format: FORMAT_B8G8R8A8_UNORM,
        aspect: ImageAspect::Color,
        base_mip_level: 0,
        level_count: 1,
        base_array_layer: 0,
        layer_count: 1,
    }
}

/// How far the creation of a swapchain has come.
#[derive(Clone, Copy, Debug, PartialEq, Eq)]
pub enum SwapchainStage {
    /// The capabilities of the surface are being queried.
    Capabilities,
    /// The formats of the surface are being queried.
    Formats { capabilities: SurfaceCapabilities },
    /// The swapchain object is being created.
    Creating { config: SwapchainConfig },
    /// Its images are being fetched.
    Listing,
    /// The view of the next image is being created.
    Viewing,
    /// The next synchronization object is being created.
    Syncing,
}

/// Creates the swapchain of a surface as the surface is at that moment, a
/// view for each of its images, and per image two semaphores and a fence
/// that starts signaled.
#[derive(Debug, PartialEq, Eq)]
pub struct SwapchainCreation {
    pub surface: u64,
    /// The queue family that owns the images.
    pub queue_family: u32,
    /// The images of the swapchain, once they are known.
    pub images: Vec<u64>,
    /// The swapchain as far as it is built.
    pub swapchain: RendererSwapchain,
    pub stage: SwapchainStage,
}

/// A swapchain creation as a mathematical value.
pub struct SwapchainCreationView {
    pub surface: u64,
    pub queue_family: u32,
    pub images: Seq<u64>,
    pub swapchain: SwapchainView,
    pub stage: SwapchainStage,
}

impl View for SwapchainCreation {
    type V = SwapchainCreationView;

    open spec fn view(&self) -> SwapchainCreationView {
        SwapchainCreationView {
            surface: self.surface,
            queue_family: self.queue_family,
            images: self.images@,
            swapchain: self.swapchain@,
            stage: self.stage,
        }
    }
}

impl SwapchainCreationView {
    /// A creation that has not received any reply yet.
    pub open spec fn begin(surface: u64, queue_family: u32) -> SwapchainCreationView {
        SwapchainCreationView {
            surface,
            queue_family,
            images: Seq::empty(),
            swapchain: SwapchainView::released(Extent { width: 0, height: 0 }),
            stage: SwapchainStage::Capabilities,
        }
    }

    /// The state is one that a creation passes through.
    pub open spec fn well_formed(self) -> bool {
        let s = self.swapchain;
        let n = self.images.len();
        &&& s.framebuffers.len() == 0
        &&& s.current_image == 0
        &&& n == s.image_count
        &&& s.image_views.len() <= n
        &&& s.may_begin_drawing.len() <= s.rendering_finished.len() <= s.image_available.len()
            <= s.may_begin_drawing.len() + 1
        &&& s.image_available.len() > 0 ==> s.image_views.len() == n
        &&& match self.stage {
            SwapchainStage::Capabilities => n == 0 && s.image_available.len() == 0 && s.swapchain
                == 0,
            SwapchainStage::Formats { .. } => n == 0 && s.image_available.len() == 0 && s.swapchain
                == 0,
            SwapchainStage::Creating { config } => n == 0 && s.image_available.len() == 0
                && s.swapchain == 0 && s.extent == config.extent,
            SwapchainStage::Listing => n == 0 && s.image_available.len() == 0,
            SwapchainStage::Viewing => s.image_views.len() < n,
            SwapchainStage::Syncing => s.image_views.len() == n && s.may_begin_drawing.len() < n,
        }
    }

    /// The synchronization object to create next: the semaphore for an
    /// available image, the semaphore for finished rendering, then the fence.
    pub open spec fn sync_call(self) -> Call {
        if self.swapchain.rendering_finished.len() < self.swapchain.image_available.len() {
            Call::CreateSemaphore
        } else if self.swapchain.may_begin_drawing.len() < self.swapchain.rendering_finished.len() {
            Call::CreateFence { signaled: true }
        } else {
            Call::CreateSemaphore
        }
    }

    /// The call whose reply this machine waits for.
    pub open spec fn pending(self) -> Call {
        match self.stage {
            SwapchainStage::Capabilities => Call::GetSurfaceCapabilities { surface: self.surface },
            SwapchainStage::Formats { .. } => Call::GetSurfaceFormats { surface: self.surface },
            SwapchainStage::Creating { config } => Call::CreateSwapchain { config },
            SwapchainStage::Listing => Call::GetSwapchainImages {
                swapchain: self.swapchain.swapchain,
            },
            SwapchainStage::Viewing => Call::CreateImageView {
                view: color_view(self.images[self.swapchain.image_views.len() as int]),
            },
            SwapchainStage::Syncing => self.sync_call(),
        }
    }

    /// This machine at another stage.
    pub open spec fn at(self, stage: SwapchainStage) -> SwapchainCreationView {
        SwapchainCreationView { stage, ..self }
    }

    /// This machine with its swapchain replaced.
    pub open spec fn with(self, swapchain: SwapchainView) -> SwapchainCreationView {
        SwapchainCreationView { swapchain, ..self }
    }

    /// The machine at `stage`, waiting for the reply to the call of that stage.
    pub open spec fn proceed(self, stage: SwapchainStage) -> Step<
        SwapchainCreationView,
        SwapchainView,
    > {
        Step::Next(self.at(stage), self.at(stage).pending())
    }

    /// What is left to do: views first, then synchronization objects; with
    /// every image served the swapchain is done.
    pub open spec fn settle(self) -> Step<SwapchainCreationView, SwapchainView> {
        if self.swapchain.image_views.len() < self.images.len() {
            self.proceed(SwapchainStage::Viewing)
        } else if self.swapchain.may_begin_drawing.len() < self.images.len() {
            self.proceed(SwapchainStage::Syncing)
        } else {
            Step::Done(self.swapchain)
        }
    }

    /// The swapchain with a new synchronization object put in its place.
    pub open spec fn with_sync(self, handle: u64) -> SwapchainView {
        let s = self.swapchain;
        if s.rendering_finished.len() < s.image_available.len() {
            SwapchainView { rendering_finished: s.rendering_finished.push(handle), ..s }
        } else if s.may_begin_drawing.len() < s.rendering_finished.len() {
            SwapchainView { may_begin_drawing: s.may_begin_drawing.push(handle), ..s }
        } else {
            SwapchainView { image_available: s.image_available.push(handle), ..s }
        }
    }

    /// What follows when the pending call is answered with `reply`.
    pub open spec fn resumed(self, reply: Reply) -> Step<SwapchainCreationView, SwapchainView> {
        match (self.stage, reply) {
            (SwapchainStage::Capabilities, Reply::Capabilities(capabilities)) => self.proceed(
                SwapchainStage::Formats { capabilities },
            ),
            (SwapchainStage::Formats { capabilities }, Reply::Formats(formats)) => if formats@.len()
                == 0 {
                Step::Failed(RenderError::NoSurfaceFormat)
            } else {
                let config = swapchain_config(
                    self.surface,
                    capabilities,
                    formats@[0],
                    self.queue_family,
                );
                self.with(SwapchainView { extent: config.extent, ..self.swapchain }).proceed(
                    SwapchainStage::Creating { config },
                )
            },
            (SwapchainStage::Creating { config }, Reply::Handle(swapchain)) => self.with(
                SwapchainView { swapchain, ..self.swapchain },
            ).proceed(SwapchainStage::Listing),
            (SwapchainStage::Listing, Reply::Handles(images)) => if images@.len() <= u32::MAX {
                SwapchainCreationView {
                    images: images@,
                    swapchain: SwapchainView {
                        image_count: images@.len() as u32,
                        ..self.swapchain
                    },
                    ..self
                }.settle()
            } else {
                Step::Failed(rejection(self.pending(), reply))
            },
            (SwapchainStage::Viewing, Reply::Handle(view)) => self.with(
                SwapchainView {
                    image_views: self.swapchain.image_views.push(view),
                    ..self.swapchain
                },
            ).settle(),
            (SwapchainStage::Syncing, Reply::Handle(handle)) => self.with(
                self.with_sync(handle),
            ).settle(),
            _ => Step::Failed(rejection(self.pending(), reply)),
        }
    }
}

impl SwapchainCreation {
    /// Whether the state is one that a creation passes through.
    pub fn is_well_formed(&self) -> (r: bool)
        ensures
            r == self@.well_formed(),
    {
        let s = &self.swapchain;
        let n = self.images.len();
        let views = s.image_views.len();
        let available = s.image_available.len();
        let finished = s.rendering_finished.len();
        let fences = s.may_begin_drawing.len();
        let untouched = n == 0 && available == 0 && s.swapchain == 0;
        s.framebuffers.len() == 0 && s.current_image == 0 && n == s.image_count as usize && views
            <= n && fences <= finished && finished <= available && available - fences <= 1 && (
        available == 0 || views == n) && match self.stage {
            SwapchainStage::Capabilities => untouched,
            SwapchainStage::Formats { .. } => untouched,
            SwapchainStage::Creating { config } => untouched && s.extent.width
                == config.extent.width && s.extent.height == config.extent.height,
            SwapchainStage::Listing => n == 0 && available == 0,
            SwapchainStage::Viewing => views < n,
            SwapchainStage::Syncing => views == n && fences < n,
        }
    }

    /// The call whose reply this machine waits for.
    pub fn call(&self) -> (c: Call)
        requires
            self@.well_formed(),
        ensures
            c == self@.pending(),
    {
        match self.stage {
            SwapchainStage::Capabilities => Call::GetSurfaceCapabilities { surface: self.surface },
            SwapchainStage::Formats { .. } => Call::GetSurfaceFormats { surface: self.surface },
            SwapchainStage::Creating { config } => Call::CreateSwapchain { config },
            SwapchainStage::Listing => Call::GetSwapchainImages {
                swapchain: self.swapchain.swapchain,
            },
            SwapchainStage::Viewing => Call::CreateImageView {
                view: ImageViewInfo {
                    image: self.images[self.swapchain.image_views.len()],
                    view_type: ImageViewType::TwoDimensional,
                    format: format_b8g8r8a8_unorm(),
                    aspect: ImageAspect::Color,
                    base_mip_level: 0,
                    level_count: 1,
                    base_array_layer: 0,
                    layer_count: 1,
                },
            },
            SwapchainStage::Syncing => {
                if self.swapchain.rendering_finished.len() < self.swapchain.image_available.len() {
                    Call::CreateSemaphore
                } else if self.swapchain.may_begin_drawing.len()
                    < self.swapchain.rendering_finished.len() {
                    Call::CreateFence { signaled: true }
                } else {
                    Call::CreateSemaphore
                }
            },
        }
    }

    fn settle(self) -> (r: Step<SwapchainCreation, RendererSwapchain>)
        requires
            self@.at(SwapchainStage::Viewing).well_formed() || self@.at(
                SwapchainStage::Syncing,
            ).well_formed() || (self@.swapchain.well_formed() && self@.swapchain.image_count
                == self@.images.len() && self@.swapchain.framebuffers.len() == 0),
        ensures
            r@ == self@.settle(),
            r matches Step::Next(machine, _) ==> machine@.well_formed(),
            r matches Step::Done(swapchain) ==> swapchain@.well_formed(),
    {
        if self.swapchain.image_views.len() < self.images.len() {
            let next = SwapchainCreation { stage: SwapchainStage::Viewing, ..self };
            let call = next.call();
            Step::Next(next, call)
        } else if self.swapchain.may_begin_drawing.len() < self.images.len() {
            let next = SwapchainCreation { stage: SwapchainStage::Syncing, ..self };
            let call = next.call();
            Step::Next(next, call)
        } else {
            Step::Done(self.swapchain)
        }
    }

    /// Takes the images of the new swapchain; their number is the image
    /// count from now on.
    fn create_image_views(self, images: Vec<u64>) -> (r: Step<SwapchainCreation, RendererSwapchain>)
        requires
            self@.well_formed(),
            self.stage == SwapchainStage::Listing,
        ensures
            r@ == self@.resumed(Reply::Handles(images)),
            r matches Step::Next(machine, _) ==> machine@.well_formed(),
            r matches Step::Done(swapchain) ==> swapchain@.well_formed(),
    {
        if images.len() > u32::MAX as usize {
            let call = self.call();
            return Step::Failed(RenderError::UnexpectedReply { call });
        }
        let mut next = self;
        next.swapchain.image_count = images.len() as u32;
        next.images = images;
        next.settle()
    }

    /// Puts a new synchronization object in its place.
    fn create_sync(self, handle: u64) -> (r: Step<SwapchainCreation, RendererSwapchain>)
        requires
            self@.well_formed(),
            self.stage == SwapchainStage::Syncing,
        ensures
            r@ == self@.resumed(Reply::Handle(handle)),
            r matches Step::Next(machine, _) ==> machine@.well_formed(),
            r matches Step::Done(swapchain) ==> swapchain@.well_formed(),
    {
        let mut next = self;
        if next.swapchain.rendering_finished.len() < next.swapchain.image_available.len() {
            next.swapchain.rendering_finished.push(handle);
        } else if next.swapchain.may_begin_drawing.len() < next.swapchain.rendering_finished.len() {
            next.swapchain.may_begin_drawing.push(handle);
        } else {
            next.swapchain.image_available.push(handle);
        }
        next.settle()
    }

    /// Takes the reply to the pending call and says what to do next.
    pub fn resume(self, reply: Reply) -> (r: Step<SwapchainCreation, RendererSwapchain>)
        requires
            self@.well_formed(),
        ensures
            r@ == self@.resumed(reply),
            r matches Step::Next(machine, _) ==> machine@.well_formed(),
            r matches Step::Done(swapchain) ==> swapchain@.well_formed(),
    {
        match self.stage {
            SwapchainStage::Capabilities => match reply {
                Reply::Capabilities(capabilities) => {
                    let mut next = self;
                    next.stage = SwapchainStage::Formats { capabilities };
                    let call = next.call();
                    Step::Next(next, call)
                },
                other => Step::Failed(reject(self.call(), &other)),
            },
            SwapchainStage::Formats { capabilities } => match reply {
                Reply::Formats(formats) => {
                    if formats.len() == 0 {
                        return Step::Failed(RenderError::NoSurfaceFormat);
                    }
                    let config = RendererSwapchain::create_swapchain(
                        self.surface,
                        &capabilities,
                        &formats[0],
                        self.queue_family,
                    );
                    let mut next = self;
                    next.swapchain.extent = config.extent;
                    next.stage = SwapchainStage::Creating { config };
                    let call = next.call();
                    Step::Next(next, call)
                },
                other => Step::Failed(reject(self.call(), &other)),
            },
            SwapchainStage::Creating { config } => match reply {
                Reply::Handle(swapchain) => {
                    let mut next = self;
                    next.swapchain.swapchain = swapchain;
                    next.stage = SwapchainStage::Listing;
                    let call = next.call();
                    Step::Next(next, call)
                },
                other => Step::Failed(reject(self.call(), &other)),
            },
            SwapchainStage::Listing => match reply {
                Reply::Handles(images) => self.create_image_views(images),
                other => Step::Failed(reject(self.call(), &other)),
            },
            SwapchainStage::Viewing => match reply {
                Reply::Handle(view) => {
                    let mut next = self;
                    next.swapchain.image_views.push(view);
                    next.settle()
                },
                other => Step::Failed(reject(self.call(), &other)),
            },
            SwapchainStage::Syncing => match reply {
                Reply::Handle(handle) => self.create_sync(handle),
                other => Step::Failed(reject(self.call(), &other)),
            },
        }
    }
}

/// Creates the framebuffers a swapchain still lacks, one per image view and
/// in their order, all bound to one render pass.
#[derive(Debug, PartialEq, Eq)]
pub struct FramebufferCreation {
    pub swapchain: RendererSwapchain,
    pub render_pass: u64,
}

/// A framebuffer creation as a mathematical value.
pub struct FramebufferCreationView {
    pub swapchain: SwapchainView,
    pub render_pass: u64,
}

impl View for FramebufferCreation {
    type V = FramebufferCreationView;

    open spec fn view(&self) -> FramebufferCreationView {
        FramebufferCreationView { swapchain: self.swapchain@, render_pass: self.render_pass }
    }
}

impl FramebufferCreationView {
    /// The swapchain is well formed and lacks a framebuffer.
    pub open spec fn well_formed(self) -> bool {
        &&& self.swapchain.well_formed()
        &&& self.swapchain.framebuffers.len() < self.swapchain.image_views.len()
    }

    /// The call whose reply this machine waits for: a framebuffer of one
    /// layer over the first image view without one, as large as the images.
    pub open spec fn pending(self) -> Call {
        Call::CreateFramebuffer {
            render_pass: self.render_pass,
            image_view: self.swapchain.image_views[self.swapchain.framebuffers.len() as int],
            extent: self.swapchain.extent,
            layers: 1,
        }
    }

    /// What follows when the pending call is answered with `reply`.
    pub open spec fn resumed(self, reply: Reply) -> Step<FramebufferCreationView, SwapchainView> {
        match reply {
            Reply::Handle(framebuffer) => framebuffers_from(
                SwapchainView {
                    framebuffers: self.swapchain.framebuffers.push(framebuffer),
                    ..self.swapchain
                },
                self.render_pass,
            ),
            _ => Step::Failed(rejection(self.pending(), reply)),
        }
    }
}

/// Where the creation of framebuffers stands for `swapchain`: done when
/// every image view has one, otherwise waiting for the next.
pub open spec fn framebuffers_from(swapchain: SwapchainView, render_pass: u64) -> Step<
    FramebufferCreationView,
    SwapchainView,
> {
    if swapchain.framebuffers.len() < swapchain.image_views.len() {
        let machine = FramebufferCreationView { swapchain, render_pass };
        Step::Next(machine, machine.pending())
    } else {
        Step::Done(swapchain)
    }
}

impl FramebufferCreation {
    /// Whether the swapchain is well formed and lacks a framebuffer.
    pub fn is_well_formed(&self) -> (r: bool)
        ensures
            r == self@.well_formed(),
    {
        self.swapchain.is_well_formed() && self.swapchain.framebuffers.len()
            < self.swapchain.image_views.len()
    }

    /// The call whose reply this machine waits for.
    pub fn call(&self) -> (c: Call)
        requires
            self@.well_formed(),
        ensures
            c == self@.pending(),
    {
        Call::CreateFramebuffer {
            render_pass: self.render_pass,
            image_view: self.swapchain.image_views[self.swapchain.framebuffers.len()],
            extent: self.swapchain.extent,
            layers: 1,
        }
    }

    /// Takes the reply to the pending call and says what to do next.
    pub fn resume(self, reply: Reply) -> (r: Step<FramebufferCreation, RendererSwapchain>)
        requires
            self@.well_formed(),
        ensures
            r@ == self@.resumed(reply),
            r matches Step::Next(machine, _) ==> machine@.well_formed(),
            r matches Step::Done(swapchain) ==> swapchain@.complete(),
    {
        match reply {
            Reply::Handle(framebuffer) => {
                let mut swapchain = self.swapchain;
                swapchain.framebuffers.push(framebuffer);
                swapchain.create_framebuffers(self.render_pass)
            },
            other => Step::Failed(reject(self.call(), &other)),
        }
    }
}

fn push_destroy(calls: &mut Vec<Call>, kind: ObjectKind, handles: &Vec<u64>)
    ensures
        final(calls)@ == old(calls)@ + destroy_all(kind, handles@),
{
    let mut i: usize = 0;
    while i < handles.len()
        invariant
            i <= handles.len(),
            calls@ == old(calls)@ + destroy_all(kind, handles@.subrange(0, i as int)),
        decreases handles.len() - i,
    {
        calls.push(Call::Destroy { kind, handle: handles[i] });
        assert(destroy_all(kind, handles@.subrange(0, i + 1)) =~= destroy_all(
            kind,
            handles@.subrange(0, i as int),
        ).push(Call::Destroy { kind, handle: handles@[i as int] }));
        i += 1;
    }
    assert(handles@.subrange(0, i as int) =~= handles@);
}

impl RendererSwapchain {
    /// The description of the swapchain to create for `surface`.
    pub fn create_swapchain(
        surface: u64,
        capabilities: &SurfaceCapabilities,
        format: &SurfaceFormat,
        queue_family: u32,
    ) -> (config: SwapchainConfig)
        ensures
            config == swapchain_config(surface, *capabilities, *format, queue_family),
    {
        SwapchainConfig {
            surface,
            min_image_count: MIN_IMAGE_COUNT,
            format: format.format,
            color_space: format.color_space,
            extent: capabilities.current_extent,
            array_layers: 1,
            usage: ImageUsage::ColorAttachment,
            sharing: SharingMode::Exclusive,
            queue_family,
            pre_transform: capabilities.current_transform,
            composite_alpha: capabilities.composite_alpha,
            present_mode: PresentMode::Immediate,
        }
    }

    /// Starts the creation of the swapchain for `surface`, whose images
    /// `graphics_queue_family` will own. The surface is asked for its
    /// capabilities and formats first; the first format it reports is taken.
    pub fn new(surface: u64, graphics_queue_family: u32) -> (r: (SwapchainCreation, Call))
        ensures
            r.0@ == SwapchainCreationView::begin(surface, graphics_queue_family),
            r.0@.well_formed(),
            r.1 == r.0@.pending(),
    {
        let swapchain = RendererSwapchain {
            swapchain: 0,
            image_views: Vec::new(),
            framebuffers: Vec::new(),
            extent: Extent { width: 0, height: 0 },
            image_available: Vec::new(),
            rendering_finished: Vec::new(),
            may_begin_drawing: Vec::new(),
            image_count: 0,
            current_image: 0,
        };
        let machine = SwapchainCreation {
            surface,
            queue_family: graphics_queue_family,
            images: Vec::new(),
            swapchain,
            stage: SwapchainStage::Capabilities,
        };
        (machine, Call::GetSurfaceCapabilities { surface })
    }

    /// Whether there is one view and one set of synchronization objects per
    /// image, at most one framebuffer per image, and a frame counter within
    /// the images.
    pub fn is_well_formed(&self) -> (r: bool)
        ensures
            r == self@.well_formed(),
    {
        let count = self.image_count as usize;
        self.image_views.len() == count && self.image_available.len() == count
            && self.rendering_finished.len() == count && self.may_begin_drawing.len() == count
            && self.framebuffers.len() <= count && (self.current_image < count || (count == 0
            && self.current_image == 0))
    }

    /// Whether the swapchain is well formed and every image has its
    /// framebuffer.
    pub fn is_complete(&self) -> (r: bool)
        ensures
            r == self@.complete(),
    {
        self.is_well_formed() && self.framebuffers.len() == self.image_count as usize
    }

    /// Creates the framebuffers this swapchain still lacks against
    /// `render_pass`, which must exist by now. With a framebuffer for every
    /// image view there is nothing to do.
    pub fn create_framebuffers(self, render_pass: u64) -> (r: Step<
        FramebufferCreation,
        RendererSwapchain,
    >)
        requires
            self@.well_formed(),
        ensures
            r@ == framebuffers_from(self@, render_pass),
            r matches Step::Next(machine, _) ==> machine@.well_formed(),
            r matches Step::Done(swapchain) ==> swapchain@.complete(),
    {
        if self.framebuffers.len() < self.image_views.len() {
            let call = Call::CreateFramebuffer {
                render_pass,
                image_view: self.image_views[self.framebuffers.len()],
                extent: self.extent,
                layers: 1,
            };
            Step::Next(FramebufferCreation { swapchain: self, render_pass }, call)
        } else {
            Step::Done(self)
        }
    }

    /// Takes the swapchain down. The calls destroy everything it holds in
    /// the reverse order of creation; afterwards it holds nothing, so that a
    /// second cleanup destroys nothing. The device must be idle.
    pub fn cleanup(&mut self) -> (calls: Vec<Call>)
        ensures
            calls@ == old(self)@.teardown(),
            final(self)@ == SwapchainView::released(old(self).extent),
    {
        let mut calls: Vec<Call> = Vec::new();
        push_destroy(&mut calls, ObjectKind::Semaphore, &self.image_available);
        push_destroy(&mut calls, ObjectKind::Semaphore, &self.rendering_finished);
        push_destroy(&mut calls, ObjectKind::Fence, &self.may_begin_drawing);
        push_destroy(&mut calls, ObjectKind::Framebuffer, &self.framebuffers);
        push_destroy(&mut calls, ObjectKind::ImageView, &self.image_views);
        if self.swapchain != 0 {
            calls.push(Call::Destroy { kind: ObjectKind::Swapchain, handle: self.swapchain });
        }
        self.swapchain = 0;
        self.image_views = Vec::new();
        self.framebuffers = Vec::new();
        self.image_available = Vec::new();
        self.rendering_finished = Vec::new();
        self.may_begin_drawing = Vec::new();
        self.image_count = 0;
        self.current_image = 0;
        calls
    }
}

/// The creation of a swapchain passes through well-formed states only, and
/// the swapchain it ends with has one view, two semaphores and one fence
/// for each of its images, and no framebuffer yet.
pub proof fn lemma_creation_keeps_well_formed(machine: SwapchainCreationView, reply: Reply)
    requires
        machine.well_formed(),
    ensures
        match machine.resumed(reply) {
            Step::Next(next, call) => next.well_formed() && call == next.pending(),
            Step::Done(swapchain) => swapchain.well_formed() && swapchain.framebuffers.len() == 0,
            Step::Failed(_) => true,
        },
{
}

/// The creation of framebuffers passes through well-formed states only, and
/// the swapchain it ends with is complete: as many image views,
/// framebuffers, semaphores of either kind and fences as images.
pub proof fn lemma_framebuffers_keep_well_formed(machine: FramebufferCreationView, reply: Reply)
    requires
        machine.well_formed(),
    ensures
        match machine.resumed(reply) {
            Step::Next(next, call) => {
                &&& next.well_formed()
                &&& call == next.pending()
                &&& next.render_pass == machine.render_pass
                &&& next.swapchain.image_count == machine.swapchain.image_count
            },
            Step::Done(swapchain) => {
                &&& swapchain.complete()
                &&& swapchain.image_count == machine.swapchain.image_count
            },
            Step::Failed(_) => true,
        },
{
}

/// A cleaned-up swapchain has nothing left to destroy: cleaning up again
/// issues no call, so no handle is destroyed twice.
pub proof fn lemma_cleanup_leaves_nothing(extent: Extent)
    ensures
        SwapchainView::released(extent).teardown() == Seq::<Call>::empty(),
        SwapchainView::released(extent).well_formed(),
{
    assert(SwapchainView::released(extent).teardown() =~= Seq::<Call>::empty());
}

/// Cleanup issues exactly one call for each object the swapchain holds.
pub proof fn lemma_teardown_covers_every_object(swapchain: SwapchainView)
    ensures
        swapchain.teardown().len() == swapchain.image_available.len()
            + swapchain.rendering_finished.len() + swapchain.may_begin_drawing.len()
            + swapchain.framebuffers.len() + swapchain.image_views.len() + (if swapchain.swapchain
            != 0 {
            1nat
        } else {
            0nat
        }),
{
}

/// A complete swapchain has as many image views, framebuffers, semaphores
/// of either kind and fences as it has images.
pub proof fn lemma_complete_swapchain_counts(swapchain: SwapchainView)
    requires
        swapchain.complete(),
    ensures
        swapchain.image_views.len() == swapchain.image_count,
        swapchain.framebuffers.len() == swapchain.image_count,
        swapchain.image_available.len() == swapchain.image_count,
        swapchain.rendering_finished.len() == swapchain.image_count,
        swapchain.may_begin_drawing.len() == swapchain.image_count,
{
}

} // verus!
