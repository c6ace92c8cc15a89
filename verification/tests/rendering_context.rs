use dpi::PhysicalSize;
use verso_rendering::{
    ContextNegotiation, ContextProfile, CreateAction, PresentStep, RenderingContext,
    RenderingError, SurfaceId,
};

/// Complete a negotiation against a platform where every step succeeds and
/// conclude it into a rendering context bound to `initial_surface`.
fn working_context(size: PhysicalSize<u32>, initial_surface: SurfaceId) -> RenderingContext {
    let mut negotiation = ContextNegotiation::new();
    while !negotiation.is_settled() {
        negotiation.record_outcome(true);
    }
    RenderingContext::create(&negotiation, size, initial_surface).unwrap()
}

#[test]
fn create_concludes_a_failed_negotiation_with_its_error() {
    let mut negotiation = ContextNegotiation::new();
    while let Some(CreateAction::CreateContext { .. }) = negotiation.pending_action() {
        negotiation.record_outcome(false);
    }
    assert!(negotiation.is_settled());
    let result = RenderingContext::create(&negotiation, PhysicalSize::new(640, 480), 1);
    assert_eq!(result.err(), Some(RenderingError::ContextCreationError));
}

#[test]
fn create_caches_the_initial_size_and_binding() {
    let ctx = working_context(PhysicalSize::new(1024, 768), 1);
    assert_eq!(ctx.api(), ContextProfile::Core);
    assert_eq!(ctx.size(), PhysicalSize::new(1024, 768));
    assert_eq!(ctx.current_surface(), Some(1));
}

#[test]
fn resize_then_size_returns_the_externally_supplied_size() {
    let mut ctx = working_context(PhysicalSize::new(1024, 768), 1);
    assert!(ctx.resize(1, PhysicalSize::new(800, 600)).is_ok());
    // The cache is caller-driven, not surface-driven: the resize alone does
    // not move it.
    assert_eq!(ctx.size(), PhysicalSize::new(1024, 768));
    ctx.set_size(PhysicalSize::new(800, 600));
    assert_eq!(ctx.size(), PhysicalSize::new(800, 600));
    assert_eq!(
        ctx.size2d(),
        euclid::Size2D::<u32, webrender_api::units::DevicePixel>::new(800, 600)
    );
}

#[test]
fn resize_with_zero_width_or_height_fails() {
    let ctx = working_context(PhysicalSize::new(1024, 768), 1);
    assert_eq!(
        ctx.resize(1, PhysicalSize::new(0, 600)),
        Err(RenderingError::InvalidSurfaceSize)
    );
    assert_eq!(
        ctx.resize(1, PhysicalSize::new(800, 0)),
        Err(RenderingError::InvalidSurfaceSize)
    );
    assert_eq!(
        ctx.resize(1, PhysicalSize::new(0, 0)),
        Err(RenderingError::InvalidSurfaceSize)
    );
}

/// What a mock platform layer records while a frame is presented.
#[derive(Debug, PartialEq, Eq)]
enum PlatformCall {
    Bind(SurfaceId),
    Swap(SurfaceId),
}

#[test]
fn present_on_another_surface_rebinds_before_swapping() {
    let mut ctx = working_context(PhysicalSize::new(1024, 768), 1);
    assert_eq!(ctx.current_surface(), Some(1));

    // Present on a surface other than the last-bound one, performing each
    // planned step against a mock platform layer that records the order.
    let mut log: Vec<PlatformCall> = Vec::new();
    for step in ctx.present_plan(2) {
        match step {
            PresentStep::MakeCurrent { surface } => log.push(PlatformCall::Bind(surface)),
            PresentStep::SwapBuffers { surface } => log.push(PlatformCall::Swap(surface)),
        }
    }
    assert_eq!(log, vec![PlatformCall::Bind(2), PlatformCall::Swap(2)]);

    // The mock platform accepted both steps; record them.
    assert!(ctx.present(2, true, true).is_ok());
    assert_eq!(ctx.current_surface(), Some(2));
}

#[test]
fn present_with_rejected_bind_fails_and_keeps_the_binding() {
    let mut ctx = working_context(PhysicalSize::new(1024, 768), 1);
    assert_eq!(ctx.present(2, false, true), Err(RenderingError::PresentError));
    assert_eq!(ctx.current_surface(), Some(1));
}

#[test]
fn present_with_rejected_swap_fails_after_rebinding() {
    let mut ctx = working_context(PhysicalSize::new(1024, 768), 1);
    assert_eq!(ctx.present(2, true, false), Err(RenderingError::PresentError));
    assert_eq!(ctx.current_surface(), Some(2));
}

#[test]
fn make_gl_context_current_moves_the_binding() {
    let mut ctx = working_context(PhysicalSize::new(1024, 768), 1);
    assert!(ctx.make_gl_context_current(3, true).is_ok());
    assert_eq!(ctx.current_surface(), Some(3));
}

#[test]
fn rejected_bind_reports_context_bind_error() {
    let mut ctx = working_context(PhysicalSize::new(1024, 768), 1);
    assert_eq!(
        ctx.make_gl_context_current(3, false),
        Err(RenderingError::ContextBindError)
    );
    assert_eq!(ctx.current_surface(), Some(1));
}

#[test]
fn create_surface_reports_platform_refusal() {
    let ctx = working_context(PhysicalSize::new(1024, 768), 1);
    assert_eq!(ctx.create_surface(5, true), Ok(5));
    assert_eq!(
        ctx.create_surface(6, false),
        Err(RenderingError::SurfaceCreationError)
    );
    // Creating a surface binds nothing.
    assert_eq!(ctx.current_surface(), Some(1));
}

#[test]
fn legacy_context_reports_its_profile() {
    let mut negotiation = ContextNegotiation::new();
    while let Some(action) = negotiation.pending_action() {
        let outcome = match action {
            CreateAction::CreateContext { profile } => profile == ContextProfile::Legacy,
            _ => true,
        };
        negotiation.record_outcome(outcome);
    }
    let ctx = RenderingContext::create(&negotiation, PhysicalSize::new(320, 240), 9).unwrap();
    assert_eq!(ctx.api(), ContextProfile::Legacy);
    assert_eq!(ctx.current_surface(), Some(9));
}
