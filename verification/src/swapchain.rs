//! The swap buffer chain: what is negotiated with the surface, how a chain is
//! created, and how it is replaced when geometry or presentation mode change.
//!
//! The chain held here is the bookkeeping side of the presentable images. The
//! images themselves live with the graphics driver; whoever talks to the
//! driver hands its answer in as a [`ChainBuild`].

use vstd::prelude::*;

verus! {

/// Frame-pacing policy of a chain.
#[derive(Copy, Clone, Debug, PartialEq, Eq, Structural)]
pub enum PresentMode {
    Immediate,
    Mailbox,
    Fifo,
    FifoRelaxed,
}

/// Size of a surface or of the images of a chain, in pixels.
#[derive(Copy, Clone, Debug, PartialEq, Eq, Structural)]
pub struct Extent {
    pub width: u32,
    pub height: u32,
}

impl Extent {
    /// An extent with a zero dimension covers no pixel; a minimized window
    /// reports one.
    pub open spec fn has_zero_dimension(self) -> bool {
        self.width == 0 || self.height == 0
    }

    pub fn new(width: u32, height: u32) -> (e: Extent)
        ensures
            e == (Extent { width, height }),
    {
        Extent { width, height }
    }

    pub fn is_empty(&self) -> (b: bool)
        ensures
            b == self.has_zero_dimension(),
    {
        self.width == 0 || self.height == 0
    }
}

/// A pixel format, identified by the code the device reports for it.
#[derive(Copy, Clone, Debug, PartialEq, Eq, Structural)]
pub struct Format {
    pub code: u32,
}

/// How the alpha channel of the images is combined with what lies behind the
/// surface.
#[derive(Copy, Clone, Debug, PartialEq, Eq, Structural)]
pub enum CompositeAlpha {
    Opaque,
    PreMultiplied,
    PostMultiplied,
    Inherit,
}

/// What the images of a chain may be used for.
#[derive(Copy, Clone, Debug, PartialEq, Eq, Structural)]
pub struct ImageUsage {
    pub transfer_src: bool,
    pub transfer_dst: bool,
    pub sampled: bool,
    pub storage: bool,
    pub color_attachment: bool,
}

impl ImageUsage {
    /// Color attachment and nothing else: all that clear and draw passes need.
    pub open spec fn color_attachment_only() -> ImageUsage {
        ImageUsage {
            transfer_src: false,
            transfer_dst: false,
            sampled: false,
            storage: false,
            color_attachment: true,
        }
    }

    pub fn color_attachment() -> (u: ImageUsage)
        ensures
            u == ImageUsage::color_attachment_only(),
    {
        ImageUsage {
            transfer_src: false,
            transfer_dst: false,
            sampled: false,
            storage: false,
            color_attachment: true,
        }
    }
}

/// What a device reports about presenting to one surface.
#[derive(Clone, Debug)]
pub struct SurfaceCapabilities {
    /// The fewest images a chain on this surface may have.
    pub min_image_count: u32,
    /// Supported pixel formats, in the order the device reports them.
    pub formats: Vec<Format>,
    /// Supported composite-alpha modes, in the order the device reports them.
    pub composite_alphas: Vec<CompositeAlpha>,
}

/// Everything that is asked of the driver when a chain is built.
#[derive(Copy, Clone, Debug, PartialEq, Eq, Structural)]
pub struct ChainDescription {
    pub min_image_count: u32,
    pub image_format: Format,
    pub image_extent: Extent,
    pub image_usage: ImageUsage,
    pub composite_alpha: CompositeAlpha,
    pub present_mode: PresentMode,
}

/// The driver's answer to a request to build a chain.
#[derive(Copy, Clone, Debug, PartialEq, Eq, Structural)]
pub enum ChainBuild {
    /// The chain was built and holds this many images.
    Built { image_count: u32 },
    /// The driver refused.
    Failed,
}

/// Why no chain could be had. There is no fallback surface configuration:
/// each of these is fatal to the caller.
#[derive(Copy, Clone, Debug, PartialEq, Eq, Structural)]
pub enum SwapchainCreationError {
    /// A chain cannot be created on an extent without area.
    ZeroExtent,
    /// The device's minimum image count leaves no room for one more image.
    ImageCountOverflow,
    /// The device reports no pixel format for the surface.
    NoSurfaceFormat,
    /// The device reports no composite-alpha mode for the surface.
    NoCompositeAlpha,
    /// The driver refused to build the chain.
    Rejected,
    /// The driver built fewer images than were asked for.
    TooFewImages,
}

/// The description negotiated for a new chain: one image more than the
/// device's minimum, the first reported format, the first reported
/// composite-alpha mode, color-attachment usage, and the extent and mode
/// asked for.
pub open spec fn negotiated(
    caps: SurfaceCapabilities,
    extent: Extent,
    mode: PresentMode,
) -> Result<ChainDescription, SwapchainCreationError> {
    if extent.has_zero_dimension() {
        Err(SwapchainCreationError::ZeroExtent)
    } else if caps.min_image_count == u32::MAX {
        Err(SwapchainCreationError::ImageCountOverflow)
    } else if caps.formats@.len() == 0 {
        Err(SwapchainCreationError::NoSurfaceFormat)
    } else if caps.composite_alphas@.len() == 0 {
        Err(SwapchainCreationError::NoCompositeAlpha)
    } else {
        Ok(
            ChainDescription {
                min_image_count: (caps.min_image_count + 1) as u32,
                image_format: caps.formats@[0],
                image_extent: extent,
                image_usage: ImageUsage::color_attachment_only(),
                composite_alpha: caps.composite_alphas@[0],
                present_mode: mode,
            },
        )
    }
}

/// Negotiates the description of a new chain for a surface of the given
/// extent.
pub fn negotiate(caps: &SurfaceCapabilities, extent: Extent, mode: PresentMode) -> (r: Result<
    ChainDescription,
    SwapchainCreationError,
>)
    ensures
        r == negotiated(*caps, extent, mode),
{
    if extent.is_empty() {
        return Err(SwapchainCreationError::ZeroExtent);
    }
    if caps.min_image_count == u32::MAX {
        return Err(SwapchainCreationError::ImageCountOverflow);
    }
    if caps.formats.len() == 0 {
        return Err(SwapchainCreationError::NoSurfaceFormat);
    }
    if caps.composite_alphas.len() == 0 {
        return Err(SwapchainCreationError::NoCompositeAlpha);
    }
    Ok(
        ChainDescription {
            min_image_count: caps.min_image_count + 1,
            image_format: caps.formats[0],
            image_extent: extent,
            image_usage: ImageUsage::color_attachment(),
            composite_alpha: caps.composite_alphas[0],
            present_mode: mode,
        },
    )
}

/// Mathematical model of a chain: what was asked of the driver and how many
/// images it built.
#[derive(Copy, Clone, Debug, PartialEq, Eq, Structural)]
pub struct ChainModel {
    pub description: ChainDescription,
    pub image_count: u32,
}

impl ChainModel {
    /// A chain always has area, and at least the images that were asked for.
    pub open spec fn wf(self) -> bool {
        &&& !self.description.image_extent.has_zero_dimension()
        &&& self.image_count >= self.description.min_image_count
    }

    /// The chain that the driver's answer to `description` amounts to.
    pub open spec fn assembled(description: ChainDescription, built: ChainBuild) -> Result<
        ChainModel,
        SwapchainCreationError,
    > {
        match built {
            ChainBuild::Failed => Err(SwapchainCreationError::Rejected),
            ChainBuild::Built { image_count } => if image_count < description.min_image_count {
                Err(SwapchainCreationError::TooFewImages)
            } else {
                Ok(ChainModel { description, image_count })
            },
        }
    }

    /// A first chain: negotiated from the capabilities, then built.
    pub open spec fn created(
        caps: SurfaceCapabilities,
        extent: Extent,
        mode: PresentMode,
        built: ChainBuild,
    ) -> Result<ChainModel, SwapchainCreationError> {
        match negotiated(caps, extent, mode) {
            Err(e) => Err(e),
            Ok(description) => ChainModel::assembled(description, built),
        }
    }

    /// What is asked of the driver to replace this chain: the old description
    /// with the new extent and mode. Nothing is asked while the extent has a
    /// zero dimension.
    pub open spec fn recreate_request(self, extent: Extent, mode: PresentMode) -> Option<
        ChainDescription,
    > {
        if extent.has_zero_dimension() {
            None
        } else {
            Some(
                ChainDescription {
                    image_extent: extent,
                    present_mode: mode,
                    ..self.description
                },
            )
        }
    }

    /// The chain after a rebuild for `extent` and `mode`: unchanged while the
    /// extent has a zero dimension, else whatever the driver built.
    pub open spec fn recreated(self, extent: Extent, mode: PresentMode, built: ChainBuild) -> Result<
        ChainModel,
        SwapchainCreationError,
    > {
        match self.recreate_request(extent, mode) {
            None => Ok(self),
            Some(description) => ChainModel::assembled(description, built),
        }
    }
}

/// The chain of presentable images bound to a surface. It is replaced
/// wholesale, never changed in place.
#[derive(Copy, Clone, Debug)]
pub struct SwapBufferChain {
    description: ChainDescription,
    image_count: u32,
}

impl View for SwapBufferChain {
    type V = ChainModel;

    closed spec fn view(&self) -> ChainModel {
        ChainModel { description: self.description, image_count: self.image_count }
    }
}

/// The model of the chain in a result, or the error in its place.
pub open spec fn chain_model(r: Result<SwapBufferChain, SwapchainCreationError>) -> Result<
    ChainModel,
    SwapchainCreationError,
> {
    match r {
        Ok(chain) => Ok(chain@),
        Err(e) => Err(e),
    }
}

impl SwapBufferChain {
    #[verifier::type_invariant]
    pub open spec fn inv(self) -> bool {
        self@.wf()
    }

    fn assemble(description: ChainDescription, built: ChainBuild) -> (r: Result<
        SwapBufferChain,
        SwapchainCreationError,
    >)
        requires
            !description.image_extent.has_zero_dimension(),
        ensures
            chain_model(r) == ChainModel::assembled(description, built),
    {
        match built {
            ChainBuild::Failed => Err(SwapchainCreationError::Rejected),
            ChainBuild::Built { image_count } => {
                if image_count < description.min_image_count {
                    Err(SwapchainCreationError::TooFewImages)
                } else {
                    Ok(SwapBufferChain { description, image_count })
                }
            },
        }
    }

    /// Creates the first chain for a surface of the given extent. `built` is
    /// the driver's answer to the description that [`negotiate`] returns for
    /// the same arguments; it is not read when negotiation fails.
    pub fn create(
        caps: &SurfaceCapabilities,
        extent: Extent,
        mode: PresentMode,
        built: ChainBuild,
    ) -> (r: Result<SwapBufferChain, SwapchainCreationError>)
        ensures
            chain_model(r) == ChainModel::created(*caps, extent, mode, built),
            r matches Ok(chain) ==> chain@.wf(),
    {
        match negotiate(caps, extent, mode) {
            Err(e) => Err(e),
            Ok(description) => SwapBufferChain::assemble(description, built),
        }
    }

    /// What to ask of the driver to replace this chain, or `None` while the
    /// extent has a zero dimension and the rebuild is put off.
    pub fn recreate_request(&self, extent: Extent, mode: PresentMode) -> (r: Option<
        ChainDescription,
    >)
        ensures
            r == self@.recreate_request(extent, mode),
    {
        if extent.is_empty() {
            None
        } else {
            Some(
                ChainDescription {
                    min_image_count: self.description.min_image_count,
                    image_format: self.description.image_format,
                    image_extent: extent,
                    image_usage: self.description.image_usage,
                    composite_alpha: self.description.composite_alpha,
                    present_mode: mode,
                },
            )
        }
    }

    /// Replaces the chain for a new extent and mode. `built` is the driver's
    /// answer to [`SwapBufferChain::recreate_request`]; it is not read while
    /// the extent has a zero dimension, when the chain comes back unchanged.
    pub fn recreate(self, extent: Extent, mode: PresentMode, built: ChainBuild) -> (r: Result<
        SwapBufferChain,
        SwapchainCreationError,
    >)
        ensures
            chain_model(r) == self@.recreated(extent, mode, built),
            r matches Ok(chain) ==> chain@.wf(),
    {
        proof {
            use_type_invariant(&self);
        }
        match self.recreate_request(extent, mode) {
            None => Ok(self),
            Some(description) => SwapBufferChain::assemble(description, built),
        }
    }

    pub fn description(&self) -> (d: ChainDescription)
        ensures
            d == self@.description,
    {
        self.description
    }

    /// Number of presentable images in the chain.
    pub fn image_count(&self) -> (n: u32)
        ensures
            n == self@.image_count,
            n >= self@.description.min_image_count,
    {
        proof {
            use_type_invariant(self);
        }
        self.image_count
    }

    /// The negotiated pixel format.
    pub fn format(&self) -> (f: Format)
        ensures
            f == self@.description.image_format,
    {
        self.description.image_format
    }

    /// The extent of the images; it never has a zero dimension.
    pub fn extent(&self) -> (e: Extent)
        ensures
            e == self@.description.image_extent,
            !e.has_zero_dimension(),
    {
        proof {
            use_type_invariant(self);
        }
        self.description.image_extent
    }

    /// The presentation mode the chain was built with.
    pub fn present_mode(&self) -> (m: PresentMode)
        ensures
            m == self@.description.present_mode,
    {
        self.description.present_mode
    }
}

} // verus!
