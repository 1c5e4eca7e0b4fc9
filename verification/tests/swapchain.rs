use spe::swapchain::{
    negotiate, ChainBuild, ChainDescription, CompositeAlpha, Extent, Format, ImageUsage,
    PresentMode, SurfaceCapabilities, SwapBufferChain, SwapchainCreationError,
};

fn caps() -> SurfaceCapabilities {
    SurfaceCapabilities {
        min_image_count: 2,
        formats: vec![Format { code: 50 }, Format { code: 44 }],
        composite_alphas: vec![CompositeAlpha::PreMultiplied, CompositeAlpha::Opaque],
    }
}

fn chain() -> SwapBufferChain {
    SwapBufferChain::create(
        &caps(),
        Extent::new(800, 600),
        PresentMode::Fifo,
        ChainBuild::Built { image_count: 3 },
    )
    .unwrap()
}

#[test]
fn negotiates_one_more_image_first_format_first_alpha() {
    let description = negotiate(&caps(), Extent::new(800, 600), PresentMode::Mailbox).unwrap();
    assert_eq!(
        description,
        ChainDescription {
            min_image_count: 3,
            image_format: Format { code: 50 },
            image_extent: Extent { width: 800, height: 600 },
            image_usage: ImageUsage {
                transfer_src: false,
                transfer_dst: false,
                sampled: false,
                storage: false,
                color_attachment: true,
            },
            composite_alpha: CompositeAlpha::PreMultiplied,
            present_mode: PresentMode::Mailbox,
        }
    );
}

#[test]
fn negotiation_refuses_extent_without_area() {
    for extent in [Extent::new(0, 0), Extent::new(0, 600), Extent::new(800, 0)] {
        assert_eq!(
            negotiate(&caps(), extent, PresentMode::Fifo),
            Err(SwapchainCreationError::ZeroExtent)
        );
    }
}

#[test]
fn negotiation_refuses_full_image_count() {
    let mut full = caps();
    full.min_image_count = u32::MAX;
    assert_eq!(
        negotiate(&full, Extent::new(1, 1), PresentMode::Fifo),
        Err(SwapchainCreationError::ImageCountOverflow)
    );
    full.min_image_count = u32::MAX - 1;
    assert_eq!(
        negotiate(&full, Extent::new(1, 1), PresentMode::Fifo).unwrap().min_image_count,
        u32::MAX
    );
}

#[test]
fn negotiation_needs_a_format_and_an_alpha_mode() {
    let mut no_format = caps();
    no_format.formats = Vec::new();
    assert_eq!(
        negotiate(&no_format, Extent::new(1, 1), PresentMode::Fifo),
        Err(SwapchainCreationError::NoSurfaceFormat)
    );
    let mut no_alpha = caps();
    no_alpha.composite_alphas = Vec::new();
    assert_eq!(
        negotiate(&no_alpha, Extent::new(1, 1), PresentMode::Fifo),
        Err(SwapchainCreationError::NoCompositeAlpha)
    );
}

#[test]
fn extent_is_empty_with_a_zero_dimension() {
    assert!(Extent::new(0, 0).is_empty());
    assert!(Extent::new(0, 5).is_empty());
    assert!(Extent::new(5, 0).is_empty());
    assert!(!Extent::new(1, 1).is_empty());
}

#[test]
fn created_chain_holds_what_was_negotiated_and_built() {
    let chain = chain();
    assert_eq!(chain.image_count(), 3);
    assert_eq!(chain.format(), Format { code: 50 });
    assert_eq!(chain.extent(), Extent::new(800, 600));
    assert_eq!(chain.present_mode(), PresentMode::Fifo);
    assert_eq!(
        chain.description(),
        negotiate(&caps(), Extent::new(800, 600), PresentMode::Fifo).unwrap()
    );
    assert_eq!(chain.description().image_usage, ImageUsage::color_attachment());
}

#[test]
fn creation_fails_when_the_driver_refuses() {
    let result =
        SwapBufferChain::create(&caps(), Extent::new(8, 8), PresentMode::Fifo, ChainBuild::Failed);
    assert_eq!(result.unwrap_err(), SwapchainCreationError::Rejected);
}

#[test]
fn creation_fails_on_too_few_images() {
    let result = SwapBufferChain::create(
        &caps(),
        Extent::new(8, 8),
        PresentMode::Fifo,
        ChainBuild::Built { image_count: 2 },
    );
    assert_eq!(result.unwrap_err(), SwapchainCreationError::TooFewImages);
}

#[test]
fn creation_reports_negotiation_errors_whatever_was_built() {
    let result = SwapBufferChain::create(
        &caps(),
        Extent::new(0, 8),
        PresentMode::Fifo,
        ChainBuild::Built { image_count: 3 },
    );
    assert_eq!(result.unwrap_err(), SwapchainCreationError::ZeroExtent);
}

#[test]
fn recreate_takes_new_extent_and_mode_and_keeps_the_rest() {
    let old = chain();
    let request = old.recreate_request(Extent::new(1024, 768), PresentMode::Mailbox).unwrap();
    assert_eq!(
        request,
        ChainDescription {
            image_extent: Extent::new(1024, 768),
            present_mode: PresentMode::Mailbox,
            ..old.description()
        }
    );
    let new = old
        .recreate(
            Extent::new(1024, 768),
            PresentMode::Mailbox,
            ChainBuild::Built { image_count: 4 },
        )
        .unwrap();
    assert_eq!(new.description(), request);
    assert_eq!(new.image_count(), 4);
    assert_eq!(new.format(), old.format());
}

#[test]
fn recreate_with_zero_dimension_returns_chain_unchanged() {
    let old = chain();
    for extent in [Extent::new(0, 0), Extent::new(0, 768), Extent::new(1024, 0)] {
        assert_eq!(old.recreate_request(extent, PresentMode::Mailbox), None);
        for built in [ChainBuild::Failed, ChainBuild::Built { image_count: 9 }] {
            let same = old.recreate(extent, PresentMode::Mailbox, built).unwrap();
            assert_eq!(same.description(), old.description());
            assert_eq!(same.image_count(), old.image_count());
        }
    }
}

#[test]
fn recreate_failure_is_an_error() {
    let old = chain();
    assert_eq!(
        old.recreate(Extent::new(10, 10), PresentMode::Fifo, ChainBuild::Failed).unwrap_err(),
        SwapchainCreationError::Rejected
    );
    assert_eq!(
        old.recreate(Extent::new(10, 10), PresentMode::Fifo, ChainBuild::Built { image_count: 1 })
            .unwrap_err(),
        SwapchainCreationError::TooFewImages
    );
}
