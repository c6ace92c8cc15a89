//! Lifecycle core for a native GPU rendering context bound to an on-screen
//! window surface.
//!
//! The platform driver stack (context creation, surface creation, binding,
//! buffer swaps) is an opaque external capability; this crate holds the
//! decisions around it: picking the best graphics configuration, driving the
//! ordered fallback chain of context-creation attempts, and tracking the
//! state of the long-lived rendering context (cached logical size, which
//! surface the context was last bound to, which API profile bound).

pub mod config;
pub mod context;
pub mod error;
pub mod negotiate;

pub use config::{gl_config_picker, spec_pick_best, GraphicsConfig};
pub use context::{PresentStep, RenderingContext, SurfaceId};
pub use error::RenderingError;
pub use negotiate::{
    ContextNegotiation, ContextProfile, CreateAction, FunctionTableKind, NegotiationPhase,
};
