//! Presentation context: the composition root that owns the selected device,
//! the swap buffer chain and the frame synchronizer, and offers acquire,
//! begin and end of a frame, resize and mode change to the event loop.
//!
//! The context decides; it does not talk to the driver. Before a call the
//! caller does the work that [`PresentationContext::plan_acquire`] names, and
//! hands the driver's answers in.

use vstd::prelude::*;
use crate::config::FpsLimit;
use crate::device::{CommandQueue, GraphicsDevice};
use crate::frame::{
    AcquireError, AcquireOutcome, AcquiredFrame, CompletionSignal, FrameError, FrameState,
    PresentOutcome,
};
use crate::swapchain::{
    ChainBuild, ChainDescription, ChainModel, Extent, Format, PresentMode, SurfaceCapabilities,
    SwapBufferChain, SwapchainCreationError,
};

verus! {

/// The work at the driver that an acquire rests on.
#[derive(Copy, Clone, Debug, PartialEq, Eq, Structural)]
pub enum AcquireStep {
    /// Rebuild the chain to this description; if that succeeds, request the
    /// next image of the new chain.
    Rebuild(ChainDescription),
    /// Request the next image of the chain as it is.
    RequestImage,
}

/// Mathematical model of a presentation context.
#[derive(Copy, Clone, Debug, PartialEq, Eq, Structural)]
pub struct ContextModel {
    pub chain: ChainModel,
    pub frame: FrameState,
    /// The presentation mode asked for; the chain follows on its next rebuild.
    pub desired_mode: PresentMode,
}

impl ContextModel {
    /// The chain is well formed, the checked-out image is one of the chain's,
    /// and a chain that is not outdated has the mode that was asked for.
    pub open spec fn wf(self) -> bool {
        &&& self.chain.wf()
        &&& self.frame.checked_out() ==> self.frame.current_image_index < self.chain.image_count
        &&& !self.frame.outdated ==> self.chain.description.present_mode == self.desired_mode
    }

    /// The context around a chain that has just been created.
    pub open spec fn initial(chain: ChainModel) -> ContextModel {
        ContextModel {
            chain,
            frame: FrameState::initial(),
            desired_mode: chain.description.present_mode,
        }
    }

    /// The context set up for a window of the given extent, or the error
    /// that the creation of its chain ends with.
    pub open spec fn set_up(
        caps: SurfaceCapabilities,
        window_extent: Extent,
        mode: PresentMode,
        built: ChainBuild,
    ) -> Result<ContextModel, SwapchainCreationError> {
        match ChainModel::created(caps, window_extent, mode, built) {
            Ok(chain) => Ok(ContextModel::initial(chain)),
            Err(e) => Err(e),
        }
    }

    /// The chain is marked outdated; nothing else changes.
    pub open spec fn marked_outdated(self) -> ContextModel {
        ContextModel { frame: self.frame.marked_outdated(), ..self }
    }

    /// A resize does not touch the chain: it marks it outdated.
    pub open spec fn resized(self) -> ContextModel {
        self.marked_outdated()
    }

    /// Asking for the mode that is already asked for changes nothing; any
    /// other mode is noted and the chain marked outdated.
    pub open spec fn with_mode(self, mode: PresentMode) -> ContextModel {
        if mode == self.desired_mode {
            self
        } else {
            ContextModel { desired_mode: mode, ..self.marked_outdated() }
        }
    }

    /// What an acquire for a window of the given extent rests on, or the
    /// error it ends with before any work at the driver.
    pub open spec fn plan(self, window_extent: Extent) -> Result<AcquireStep, AcquireError> {
        if self.frame.checked_out() {
            Err(AcquireError::FrameInFlight)
        } else if !self.frame.outdated {
            Ok(AcquireStep::RequestImage)
        } else {
            match self.chain.recreate_request(window_extent, self.desired_mode) {
                None => Err(AcquireError::Minimized),
                Some(description) => Ok(AcquireStep::Rebuild(description)),
            }
        }
    }

    /// State and result once the driver has answered the request for the next
    /// image of the current chain.
    pub open spec fn image_requested(self, image: AcquireOutcome) -> (
        ContextModel,
        Result<AcquiredFrame, AcquireError>,
    ) {
        let (frame, result) = self.frame.image_acquired(image, self.chain.image_count);
        (ContextModel { frame, ..self }, result)
    }

    /// State and result of an acquire for a window of the given extent, with
    /// the driver's answers to the rebuild and to the request for an image.
    pub open spec fn acquired(self, window_extent: Extent, built: ChainBuild, image: AcquireOutcome) -> (
        ContextModel,
        Result<AcquiredFrame, AcquireError>,
    ) {
        match self.plan(window_extent) {
            Err(e) => (self, Err(e)),
            Ok(AcquireStep::RequestImage) => self.image_requested(image),
            Ok(AcquireStep::Rebuild(description)) => match ChainModel::assembled(
                description,
                built,
            ) {
                Err(e) => (self, Err(AcquireError::Rebuild(e))),
                Ok(chain) => ContextModel {
                    chain,
                    frame: self.frame.rebuilt(),
                    ..self
                }.image_requested(image),
            },
        }
    }

    pub open spec fn frame_begun(self, frame: AcquiredFrame) -> (
        ContextModel,
        Result<CompletionSignal, FrameError>,
    ) {
        let (state, result) = self.frame.begun(frame);
        (ContextModel { frame: state, ..self }, result)
    }

    pub open spec fn frame_ended(self, frame: AcquiredFrame, outcome: PresentOutcome) -> (
        ContextModel,
        Result<(), FrameError>,
    ) {
        let (state, result) = self.frame.presented(frame, outcome);
        (ContextModel { frame: state, ..self }, result)
    }
}

/// The presentation context of one window.
#[derive(Debug)]
pub struct PresentationContext {
    device: GraphicsDevice,
    queue: CommandQueue,
    chain: SwapBufferChain,
    frame: FrameState,
    desired_mode: PresentMode,
}

impl View for PresentationContext {
    type V = ContextModel;

    closed spec fn view(&self) -> ContextModel {
        ContextModel { chain: self.chain@, frame: self.frame, desired_mode: self.desired_mode }
    }
}

/// The model of the context in a result, or the error in its place.
pub open spec fn context_model(r: Result<PresentationContext, SwapchainCreationError>) -> Result<
    ContextModel,
    SwapchainCreationError,
> {
    match r {
        Ok(context) => Ok(context@),
        Err(e) => Err(e),
    }
}

impl PresentationContext {
    #[verifier::type_invariant]
    pub open spec fn inv(self) -> bool {
        self@.wf()
    }

    /// The selected device.
    pub closed spec fn graphics_device(self) -> GraphicsDevice {
        self.device
    }

    /// The queue of the selected device.
    pub closed spec fn command_queue(self) -> CommandQueue {
        self.queue
    }

    /// Sets up the context for a window of the given extent. `built` is the
    /// driver's answer to the description negotiated from the device's
    /// capabilities; it is not read when negotiation fails.
    pub fn new(
        device: GraphicsDevice,
        queue: CommandQueue,
        window_extent: Extent,
        mode: PresentMode,
        built: ChainBuild,
    ) -> (r: Result<PresentationContext, SwapchainCreationError>)
        ensures
            context_model(r) == ContextModel::set_up(device.capabilities, window_extent, mode, built),
            r matches Ok(context) ==> {
                &&& context@.wf()
                &&& context.graphics_device() == device
                &&& context.command_queue() == queue
            },
    {
        match SwapBufferChain::create(&device.capabilities, window_extent, mode, built) {
            Err(e) => Err(e),
            Ok(chain) => Ok(
                PresentationContext {
                    device,
                    queue,
                    chain,
                    frame: FrameState::new(),
                    desired_mode: mode,
                },
            ),
        }
    }

    /// Records that the chain no longer matches the surface, for whatever
    /// reason. The next acquire rebuilds it.
    pub fn mark_outdated(&mut self)
        ensures
            final(self)@ == old(self)@.marked_outdated(),
            final(self).graphics_device() == old(self).graphics_device(),
            final(self).command_queue() == old(self).command_queue(),
    {
        proof {
            use_type_invariant(&*self);
        }
        let mut frame = self.frame;
        frame.mark_outdated();
        self.frame = frame;
    }

    /// The window changed its geometry. The chain is marked outdated and
    /// rebuilt by the next acquire; nothing is asked of the driver here.
    pub fn resize(&mut self)
        ensures
            final(self)@ == old(self)@.resized(),
            final(self).graphics_device() == old(self).graphics_device(),
            final(self).command_queue() == old(self).command_queue(),
    {
        self.mark_outdated();
    }

    /// Asks for a presentation mode. The chain is not rebuilt here: where the
    /// mode differs from the one asked for before, the chain is marked
    /// outdated and the next acquire rebuilds it.
    pub fn set_presentation_mode(&mut self, mode: PresentMode)
        ensures
            final(self)@ == old(self)@.with_mode(mode),
            final(self).graphics_device() == old(self).graphics_device(),
            final(self).command_queue() == old(self).command_queue(),
    {
        proof {
            use_type_invariant(&*self);
        }
        if self.desired_mode != mode {
            self.mark_outdated();
            self.desired_mode = mode;
        }
    }

    /// Names the work at the driver that the next [`acquire`] for a window of
    /// this extent rests on, or the error that it will end with whatever the
    /// driver would answer.
    ///
    /// [`acquire`]: PresentationContext::acquire
    pub fn plan_acquire(&self, window_extent: Extent) -> (r: Result<AcquireStep, AcquireError>)
        ensures
            r == self@.plan(window_extent),
    {
        if self.frame.is_checked_out() {
            Err(AcquireError::FrameInFlight)
        } else if !self.frame.outdated {
            Ok(AcquireStep::RequestImage)
        } else {
            match self.chain.recreate_request(window_extent, self.desired_mode) {
                None => Err(AcquireError::Minimized),
                Some(description) => Ok(AcquireStep::Rebuild(description)),
            }
        }
    }

    /// Acquires the next image. An outdated chain is rebuilt first, for the
    /// extent the window has now and the mode asked for; while the window has
    /// no area the rebuild is put off and the frame skipped.
    ///
    /// `built` is the driver's answer to the rebuild and `image` its answer
    /// to the request for the next image, as [`plan_acquire`] names them. An
    /// answer to work that the plan does not name is not read.
    ///
    /// [`plan_acquire`]: PresentationContext::plan_acquire
    pub fn acquire(&mut self, window_extent: Extent, built: ChainBuild, image: AcquireOutcome) -> (r:
        Result<AcquiredFrame, AcquireError>)
        ensures
            (final(self)@, r) == old(self)@.acquired(window_extent, built, image),
            final(self).graphics_device() == old(self).graphics_device(),
            final(self).command_queue() == old(self).command_queue(),
    {
        proof {
            use_type_invariant(&*self);
        }
        let mut frame = self.frame;
        match self.plan_acquire(window_extent) {
            Err(e) => Err(e),
            Ok(AcquireStep::RequestImage) => {
                let result = frame.on_image(image, self.chain.image_count());
                self.frame = frame;
                result
            },
            Ok(AcquireStep::Rebuild(_)) => {
                match self.chain.recreate(window_extent, self.desired_mode, built) {
                    Err(e) => Err(AcquireError::Rebuild(e)),
                    Ok(chain) => {
                        frame.chain_rebuilt();
                        let result = frame.on_image(image, chain.image_count());
                        self.chain = chain;
                        self.frame = frame;
                        result
                    },
                }
            },
        }
    }

    /// Starts the rendering worker on `frame`. On success the result is the
    /// signal that the worker waits for before it submits. A second worker is
    /// refused while the first has not ended its frame.
    pub fn begin_frame(&mut self, frame: &AcquiredFrame) -> (r: Result<CompletionSignal, FrameError>)
        ensures
            (final(self)@, r) == old(self)@.frame_begun(*frame),
            final(self).graphics_device() == old(self).graphics_device(),
            final(self).command_queue() == old(self).command_queue(),
    {
        proof {
            use_type_invariant(&*self);
        }
        let mut state = self.frame;
        let result = state.begin(frame);
        self.frame = state;
        result
    }

    /// Ends `frame` with the driver's answer to its present request. The
    /// image is checked in whatever the answer was.
    pub fn end_frame(&mut self, frame: AcquiredFrame, outcome: PresentOutcome) -> (r: Result<
        (),
        FrameError,
    >)
        ensures
            (final(self)@, r) == old(self)@.frame_ended(frame, outcome),
            final(self).graphics_device() == old(self).graphics_device(),
            final(self).command_queue() == old(self).command_queue(),
    {
        proof {
            use_type_invariant(&*self);
        }
        let mut state = self.frame;
        let result = state.on_present(frame, outcome);
        self.frame = state;
        result
    }

    /// Asks for the presentation mode that goes with a frame-rate limit.
    pub fn set_fps_limit(&mut self, fps_limit: FpsLimit)
        ensures
            final(self)@ == old(self)@.with_mode(fps_limit.mode()),
            final(self).graphics_device() == old(self).graphics_device(),
            final(self).command_queue() == old(self).command_queue(),
    {
        self.set_presentation_mode(fps_limit.present_mode());
    }

    /// The frame-rate limit that the mode asked for amounts to.
    pub fn fps_limit(&self) -> (limit: FpsLimit)
        ensures
            limit == FpsLimit::of_mode(self@.desired_mode),
    {
        FpsLimit::from_present_mode(self.desired_mode)
    }

    /// Paces presentation to the display, or lets it run free.
    pub fn set_vsync(&mut self, vsync: bool)
        ensures
            final(self)@ == old(self)@.with_mode(
                if vsync {
                    FpsLimit::Vsync.mode()
                } else {
                    FpsLimit::Inf.mode()
                },
            ),
            final(self).graphics_device() == old(self).graphics_device(),
            final(self).command_queue() == old(self).command_queue(),
    {
        if vsync {
            self.set_fps_limit(FpsLimit::Vsync);
        } else {
            self.set_fps_limit(FpsLimit::Inf);
        }
    }

    pub fn is_vsync(&self) -> (vsync: bool)
        ensures
            vsync == (FpsLimit::of_mode(self@.desired_mode) == FpsLimit::Vsync),
    {
        self.fps_limit().is_vsync()
    }

    /// The presentation mode asked for.
    pub fn presentation_mode(&self) -> (mode: PresentMode)
        ensures
            mode == self@.desired_mode,
    {
        self.desired_mode
    }

    /// Whether a rebuild of the chain is pending.
    pub fn is_outdated(&self) -> (outdated: bool)
        ensures
            outdated == self@.frame.outdated,
    {
        self.frame.outdated
    }

    /// Index of the image that is checked out, if one is. It is an index into
    /// the chain's images.
    pub fn swapchain_image(&self) -> (index: Option<u32>)
        ensures
            index == if self@.frame.checked_out() {
                Some(self@.frame.current_image_index)
            } else {
                None
            },
            index matches Some(i) ==> i < self@.chain.image_count,
    {
        proof {
            use_type_invariant(self);
        }
        if self.frame.is_checked_out() {
            Some(self.frame.current_image_index)
        } else {
            None
        }
    }

    /// The pixel format of the chain.
    pub fn swapchain_format(&self) -> (format: Format)
        ensures
            format == self@.chain.description.image_format,
    {
        self.chain.format()
    }

    /// The chain as it is now.
    pub fn chain(&self) -> (chain: SwapBufferChain)
        ensures
            chain@ == self@.chain,
            chain@.wf(),
    {
        proof {
            use_type_invariant(self);
        }
        self.chain
    }

    /// The state of the frame synchronizer.
    pub fn frame_state(&self) -> (state: FrameState)
        ensures
            state == self@.frame,
    {
        self.frame
    }

    pub fn device(&self) -> (device: &GraphicsDevice)
        ensures
            *device == self.graphics_device(),
    {
        &self.device
    }

    pub fn queue(&self) -> (queue: CommandQueue)
        ensures
            queue == self.command_queue(),
    {
        self.queue
    }
}

} // verus!
