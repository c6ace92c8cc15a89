use vstd::prelude::*;

use crate::error::RenderingError;
use crate::negotiate::{ContextNegotiation, ContextProfile, NegotiationPhase};

verus! {

/// `dpi::PhysicalSize` is a plain pair of physical-pixel extents; both of its
/// fields are public, so contracts speak of them directly.
#[verifier::external_type_specification]
#[verifier::reject_recursive_types(P)]
pub struct ExPhysicalSize<P>(dpi::PhysicalSize<P>);

/// `euclid::Size2D` is a plain pair of extents tagged with a unit type; its
/// fields are public, so contracts speak of them directly.
#[verifier::external_type_specification]
#[verifier::reject_recursive_types(T)]
#[verifier::reject_recursive_types(U)]
pub struct ExSize2D<T, U>(euclid::Size2D<T, U>);

/// `webrender_api::units::DevicePixel` is an empty tag type naming the unit
/// of device-pixel sizes.
#[verifier::external_type_specification]
pub struct ExDevicePixel(webrender_api::units::DevicePixel);

/// Identifies one drawable surface among those the caller has created for the
/// window. The caller assigns the identifiers; this core only tracks which
/// one the context was last bound to.
pub type SurfaceId = u64;

/// One platform step of presenting a frame.
#[derive(Clone, Copy, Debug, PartialEq, Eq)]
pub enum PresentStep {
    /// Make the context current on `surface`.
    MakeCurrent { surface: SurfaceId },
    /// Swap the front and back buffers of `surface`.
    SwapBuffers { surface: SurfaceId },
}

/// The long-lived rendering handle produced by a successful context
/// negotiation: it knows which API profile bound, caches the last logical
/// size the caller supplied, and tracks the surface the context was last
/// successfully bound to. The native context and the loaded entry-point
/// table live with the platform; every operation here decides what the
/// platform must do and how its answers change this state.
pub struct RenderingContext {
    api: ContextProfile,
    size: dpi::PhysicalSize<u32>,
    current_surface: Option<SurfaceId>,
}

impl RenderingContext {
    /// The API profile the context bound with.
    pub closed spec fn spec_api(&self) -> ContextProfile {
        self.api
    }

    /// The cached logical size, exactly as the caller last supplied it.
    pub closed spec fn spec_size(&self) -> dpi::PhysicalSize<u32> {
        self.size
    }

    /// The surface the context was last successfully made current on.
    pub closed spec fn spec_current_surface(&self) -> Option<SurfaceId> {
        self.current_surface
    }

    /// Conclude a settled negotiation: a completed one yields the rendering
    /// context, current on the initial surface and caching the initial size;
    /// a failed one yields its error and no context.
    pub fn create(
        negotiation: &ContextNegotiation,
        size: dpi::PhysicalSize<u32>,
        initial_surface: SurfaceId,
    ) -> (r: Result<Self, RenderingError>)
        requires
            negotiation@.is_settled(),
            size.width > 0,
            size.height > 0,
        ensures
            match negotiation@ {
                NegotiationPhase::Complete { profile } => {
                    &&& r is Ok
                    &&& r->Ok_0.spec_api() == profile
                    &&& r->Ok_0.spec_size() == size
                    &&& r->Ok_0.spec_current_surface() == Some(initial_surface)
                },
                NegotiationPhase::Failed { error } => r == Err::<Self, RenderingError>(error),
                _ => false,
            },
    {
        match negotiation.phase() {
            NegotiationPhase::Complete { profile } => Ok(
                RenderingContext { api: profile, size, current_surface: Some(initial_surface) },
            ),
            NegotiationPhase::Failed { error } => Err(error),
            _ => {
                // A settled negotiation is Complete or Failed; no other phase
                // can reach this arm.
                proof {
                    assert(false);
                }
                Err(RenderingError::ContextCreationError)
            },
        }
    }

    /// Accept a freshly created drawable for the same window and
    /// configuration this context was built against. The platform either
    /// produced the surface or refused it; refusal is `SurfaceCreationError`.
    /// Creating a surface binds nothing: the context keeps its current one.
    pub fn create_surface(&self, new_surface: SurfaceId, platform_accepted: bool) -> (r: Result<
        SurfaceId,
        RenderingError,
    >)
        ensures
            platform_accepted ==> r == Ok::<SurfaceId, RenderingError>(new_surface),
            !platform_accepted ==> r == Err::<SurfaceId, RenderingError>(
                RenderingError::SurfaceCreationError,
            ),
    {
        if platform_accepted {
            Ok(new_surface)
        } else {
            Err(RenderingError::SurfaceCreationError)
        }
    }

    /// Record a bind of this context to `surface`. A rejected bind is
    /// `ContextBindError` and leaves the last successful binding as it was.
    pub fn make_gl_context_current(
        &mut self,
        surface: SurfaceId,
        platform_accepted: bool,
    ) -> (r: Result<(), RenderingError>)
        ensures
            platform_accepted ==> {
                &&& r is Ok
                &&& final(self).spec_current_surface() == Some(surface)
            },
            !platform_accepted ==> {
                &&& r == Err::<(), RenderingError>(RenderingError::ContextBindError)
                &&& *final(self) == *old(self)
            },
            final(self).spec_api() == old(self).spec_api(),
            final(self).spec_size() == old(self).spec_size(),
    {
        if platform_accepted {
            self.current_surface = Some(surface);
            Ok(())
        } else {
            Err(RenderingError::ContextBindError)
        }
    }

    /// The platform steps one present performs, in order: make this context
    /// current on `surface` — rebinding even when another surface was bound
    /// last — and only then swap that surface's buffers.
    pub fn present_plan(&self, surface: SurfaceId) -> (r: Vec<PresentStep>)
        ensures
            r@ == seq![
                PresentStep::MakeCurrent { surface },
                PresentStep::SwapBuffers { surface },
            ],
    {
        let mut steps: Vec<PresentStep> = Vec::new();
        steps.push(PresentStep::MakeCurrent { surface });
        steps.push(PresentStep::SwapBuffers { surface });
        proof {
            assert(steps@ =~= seq![
                PresentStep::MakeCurrent { surface },
                PresentStep::SwapBuffers { surface },
            ]);
        }
        steps
    }

    /// Record the outcome of presenting a frame on `surface`: first the
    /// rebind, then — only if the bind was accepted — the buffer swap. A
    /// rejection of either step is `PresentError`; a frame drop the caller
    /// may retry next tick. A successful bind moves the current surface even
    /// when the swap then fails.
    pub fn present(
        &mut self,
        surface: SurfaceId,
        bind_accepted: bool,
        swap_accepted: bool,
    ) -> (r: Result<(), RenderingError>)
        ensures
            r is Ok <==> (bind_accepted && swap_accepted),
            r is Err ==> r == Err::<(), RenderingError>(RenderingError::PresentError),
            bind_accepted ==> final(self).spec_current_surface() == Some(surface),
            !bind_accepted ==> *final(self) == *old(self),
            final(self).spec_api() == old(self).spec_api(),
            final(self).spec_size() == old(self).spec_size(),
    {
        if !bind_accepted {
            return Err(RenderingError::PresentError);
        }
        self.current_surface = Some(surface);
        if !swap_accepted {
            return Err(RenderingError::PresentError);
        }
        Ok(())
    }

    /// Decide a resize of the drawable behind `surface` to `size`: a zero
    /// width or height must fail here rather than reach the driver as a
    /// zero-area drawable or viewport. The cached logical size is
    /// deliberately left untouched — the caller supplies the authoritative
    /// size separately.
    pub fn resize(&self, surface: SurfaceId, size: dpi::PhysicalSize<u32>) -> (r: Result<
        (),
        RenderingError,
    >)
        ensures
            r is Ok <==> (size.width > 0 && size.height > 0),
            r is Err ==> r == Err::<(), RenderingError>(RenderingError::InvalidSurfaceSize),
    {
        let _ = surface;
        if size.width == 0 || size.height == 0 {
            Err(RenderingError::InvalidSurfaceSize)
        } else {
            Ok(())
        }
    }

    /// Update the cached logical size. The cache is caller-driven, never
    /// surface-driven: nothing else changes it.
    pub fn set_size(&mut self, size: dpi::PhysicalSize<u32>)
        ensures
            final(self).spec_size() == size,
            final(self).spec_api() == old(self).spec_api(),
            final(self).spec_current_surface() == old(self).spec_current_surface(),
    {
        self.size = size;
    }

    /// The cached logical size, as the raw width/height pair.
    pub fn size(&self) -> (r: dpi::PhysicalSize<u32>)
        ensures
            r == self.spec_size(),
    {
        self.size
    }

    /// The cached logical size, as a named two-dimensional size in device
    /// pixels — the same value `size` returns.
    pub fn size2d(&self) -> (r: euclid::Size2D<u32, webrender_api::units::DevicePixel>)
        ensures
            r.width == self.spec_size().width,
            r.height == self.spec_size().height,
    {
        euclid::Size2D {
            width: self.size.width,
            height: self.size.height,
            _unit: core::marker::PhantomData,
        }
    }

    /// The API profile the context bound with.
    pub fn api(&self) -> (r: ContextProfile)
        ensures
            r == self.spec_api(),
    {
        self.api
    }

    /// The surface the context was last successfully made current on.
    pub fn current_surface(&self) -> (r: Option<SurfaceId>)
        ensures
            r == self.spec_current_surface(),
    {
        self.current_surface
    }
}

}
