use vstd::prelude::*;

use crate::error::RenderingError;

verus! {

/// The graphics API profile that one context-creation attempt asks the
/// platform for.
#[derive(Clone, Copy, Debug, PartialEq, Eq)]
pub enum ContextProfile {
    /// The default, core profile.
    Core,
    /// GLES with no particular version.
    Gles,
    /// A legacy fixed-version (2.1) context, for old devices that support
    /// neither a modern core profile nor GLES.
    Legacy,
}

/// Which graphics entry-point table is loaded once a context is current,
/// determined by the API profile that actually bound.
#[derive(Clone, Copy, Debug, PartialEq, Eq)]
pub enum FunctionTableKind {
    /// The desktop symbol set, used by both the core and the legacy profile.
    Gl,
    /// The GLES symbol set.
    Gles,
}

/// The ordered fallback chain of context-creation attempts.
pub open spec fn fallback_order() -> Seq<ContextProfile> {
    seq![ContextProfile::Core, ContextProfile::Gles, ContextProfile::Legacy]
}

/// The profile tried after `profile` fails, if any is left.
pub open spec fn spec_next_profile(profile: ContextProfile) -> Option<ContextProfile> {
    match profile {
        ContextProfile::Core => Some(ContextProfile::Gles),
        ContextProfile::Gles => Some(ContextProfile::Legacy),
        ContextProfile::Legacy => None,
    }
}

/// The entry-point table that belongs to each profile.
pub open spec fn spec_table_kind(profile: ContextProfile) -> FunctionTableKind {
    match profile {
        ContextProfile::Core => FunctionTableKind::Gl,
        ContextProfile::Gles => FunctionTableKind::Gles,
        ContextProfile::Legacy => FunctionTableKind::Gl,
    }
}

/// The entry-point table that belongs to the profile that bound.
pub fn table_kind_for(profile: ContextProfile) -> (r: FunctionTableKind)
    ensures
        r == spec_table_kind(profile),
{
    match profile {
        ContextProfile::Core => FunctionTableKind::Gl,
        ContextProfile::Gles => FunctionTableKind::Gles,
        ContextProfile::Legacy => FunctionTableKind::Gl,
    }
}

/// Where a context negotiation stands: which platform step it is waiting on,
/// or how it settled.
#[derive(Clone, Copy, Debug, PartialEq, Eq)]
pub enum NegotiationPhase {
    /// Waiting for the outcome of a context-creation attempt with `profile`.
    TryingContext { profile: ContextProfile },
    /// A context exists; waiting for the window surface to be created.
    CreatingSurface { profile: ContextProfile },
    /// Context and surface exist; waiting for the context to be made current
    /// on the surface.
    BindingContext { profile: ContextProfile },
    /// The context is current; waiting for the swap interval to be set.
    ConfiguringVsync { profile: ContextProfile },
    /// Waiting for the graphics entry-point table to be loaded.
    LoadingFunctions { profile: ContextProfile },
    /// The negotiation succeeded with a current context of `profile`.
    Complete { profile: ContextProfile },
    /// The negotiation failed; no rendering context can come of it.
    Failed { error: RenderingError },
}

impl NegotiationPhase {
    /// Whether the negotiation has settled, one way or the other.
    pub open spec fn is_settled(&self) -> bool {
        self is Complete || self is Failed
    }
}

/// The platform action a negotiation asks its caller to perform next.
#[derive(Clone, Copy, Debug, PartialEq, Eq)]
pub enum CreateAction {
    /// Attempt to create a (not yet current) context with `profile`.
    CreateContext { profile: ContextProfile },
    /// Create a drawable window surface from the chosen configuration.
    CreateWindowSurface,
    /// Make the new context current on the new surface.
    MakeContextCurrent,
    /// Ask the driver to wait for one vertical blank per swap.
    SetSwapInterval,
    /// Resolve the entry points of `table` through the platform display.
    LoadFunctionTable { table: FunctionTableKind },
}

/// The action a negotiation in `phase` is waiting on, or `None` once it has
/// settled.
pub open spec fn spec_action(phase: NegotiationPhase) -> Option<CreateAction> {
    match phase {
        NegotiationPhase::TryingContext { profile } => Some(
            CreateAction::CreateContext { profile },
        ),
        NegotiationPhase::CreatingSurface { .. } => Some(CreateAction::CreateWindowSurface),
        NegotiationPhase::BindingContext { .. } => Some(CreateAction::MakeContextCurrent),
        NegotiationPhase::ConfiguringVsync { .. } => Some(CreateAction::SetSwapInterval),
        NegotiationPhase::LoadingFunctions { profile } => Some(
            CreateAction::LoadFunctionTable { table: spec_table_kind(profile) },
        ),
        NegotiationPhase::Complete { .. } => None,
        NegotiationPhase::Failed { .. } => None,
    }
}

/// How a negotiation moves when the pending action succeeds or fails:
/// a failed creation attempt falls through to the next profile in the chain
/// (or settles on `ContextCreationError` after the last), surface-creation
/// and bind failures are fatal with their own errors, a rejected swap
/// interval is tolerated, and a settled negotiation never moves again.
pub open spec fn spec_step(phase: NegotiationPhase, succeeded: bool) -> NegotiationPhase {
    match phase {
        NegotiationPhase::TryingContext { profile } => if succeeded {
            NegotiationPhase::CreatingSurface { profile }
        } else {
            match spec_next_profile(profile) {
                Some(next) => NegotiationPhase::TryingContext { profile: next },
                None => NegotiationPhase::Failed { error: RenderingError::ContextCreationError },
            }
        },
        NegotiationPhase::CreatingSurface { profile } => if succeeded {
            NegotiationPhase::BindingContext { profile }
        } else {
            NegotiationPhase::Failed { error: RenderingError::SurfaceCreationError }
        },
        NegotiationPhase::BindingContext { profile } => if succeeded {
            NegotiationPhase::ConfiguringVsync { profile }
        } else {
            NegotiationPhase::Failed { error: RenderingError::ContextBindError }
        },
        NegotiationPhase::ConfiguringVsync { profile } => NegotiationPhase::LoadingFunctions {
            profile,
        },
        NegotiationPhase::LoadingFunctions { profile } => NegotiationPhase::Complete { profile },
        _ => phase,
    }
}

/// One context negotiation: the ordered sequence of platform steps that turns
/// a chosen graphics configuration into a current context with its entry
/// points loaded. The caller performs each pending action against the real
/// platform and records whether it succeeded.
pub struct ContextNegotiation {
    phase: NegotiationPhase,
}

impl View for ContextNegotiation {
    type V = NegotiationPhase;

    closed spec fn view(&self) -> NegotiationPhase {
        self.phase
    }
}

impl ContextNegotiation {
    /// Begin a negotiation: the first attempt asks for the default core
    /// profile.
    pub fn new() -> (r: Self)
        ensures
            r@ == (NegotiationPhase::TryingContext { profile: ContextProfile::Core }),
    {
        ContextNegotiation {
            phase: NegotiationPhase::TryingContext { profile: ContextProfile::Core },
        }
    }

    /// The platform action the caller must perform next, or `None` once the
    /// negotiation has settled.
    pub fn pending_action(&self) -> (r: Option<CreateAction>)
        ensures
            r == spec_action(self@),
    {
        match self.phase {
            NegotiationPhase::TryingContext { profile } => Some(
                CreateAction::CreateContext { profile },
            ),
            NegotiationPhase::CreatingSurface { .. } => Some(CreateAction::CreateWindowSurface),
            NegotiationPhase::BindingContext { .. } => Some(CreateAction::MakeContextCurrent),
            NegotiationPhase::ConfiguringVsync { .. } => Some(CreateAction::SetSwapInterval),
            NegotiationPhase::LoadingFunctions { profile } => Some(
                CreateAction::LoadFunctionTable { table: table_kind_for(profile) },
            ),
            NegotiationPhase::Complete { .. } => None,
            NegotiationPhase::Failed { .. } => None,
        }
    }

    /// Record whether the pending platform action succeeded, moving the
    /// negotiation along `spec_step`.
    pub fn record_outcome(&mut self, succeeded: bool)
        requires
            !old(self)@.is_settled(),
        ensures
            final(self)@ == spec_step(old(self)@, succeeded),
    {
        let next = match self.phase {
            NegotiationPhase::TryingContext { profile } => if succeeded {
                NegotiationPhase::CreatingSurface { profile }
            } else {
                match next_profile(profile) {
                    Some(next) => NegotiationPhase::TryingContext { profile: next },
                    None => NegotiationPhase::Failed {
                        error: RenderingError::ContextCreationError,
                    },
                }
            },
            NegotiationPhase::CreatingSurface { profile } => if succeeded {
                NegotiationPhase::BindingContext { profile }
            } else {
                NegotiationPhase::Failed { error: RenderingError::SurfaceCreationError }
            },
            NegotiationPhase::BindingContext { profile } => if succeeded {
                NegotiationPhase::ConfiguringVsync { profile }
            } else {
                NegotiationPhase::Failed { error: RenderingError::ContextBindError }
            },
            NegotiationPhase::ConfiguringVsync { profile } => NegotiationPhase::LoadingFunctions {
                profile,
            },
            NegotiationPhase::LoadingFunctions { profile } => NegotiationPhase::Complete {
                profile,
            },
            NegotiationPhase::Complete { .. } => self.phase,
            NegotiationPhase::Failed { .. } => self.phase,
        };
        self.phase = next;
    }

    /// Whether the negotiation has settled.
    pub fn is_settled(&self) -> (r: bool)
        ensures
            r == self@.is_settled(),
    {
        match self.phase {
            NegotiationPhase::Complete { .. } => true,
            NegotiationPhase::Failed { .. } => true,
            _ => false,
        }
    }

    /// The phase the negotiation currently stands in.
    pub fn phase(&self) -> (r: NegotiationPhase)
        ensures
            r == self@,
    {
        self.phase
    }
}

fn next_profile(profile: ContextProfile) -> (r: Option<ContextProfile>)
    ensures
        r == spec_next_profile(profile),
{
    match profile {
        ContextProfile::Core => Some(ContextProfile::Gles),
        ContextProfile::Gles => Some(ContextProfile::Legacy),
        ContextProfile::Legacy => None,
    }
}

/// Where a fresh negotiation stands after its first `k` context-creation
/// attempts have all failed.
pub open spec fn after_failed_attempts(k: nat) -> NegotiationPhase
    decreases k,
{
    if k == 0 {
        NegotiationPhase::TryingContext { profile: ContextProfile::Core }
    } else {
        spec_step(after_failed_attempts((k - 1) as nat), false)
    }
}

/// The fallback chain is tried in order — core first, then GLES, then the
/// legacy 2.1 profile: after `k` failed attempts the negotiation asks for a
/// context of the `k`-th profile of the chain. Once all three attempts have
/// failed it settles on `ContextCreationError`, asks for nothing further,
/// and no context can come of it.
pub proof fn lemma_fallback_chain_order()
    ensures
        forall|k: int|
            0 <= k < 3 ==> after_failed_attempts(k as nat) == (NegotiationPhase::TryingContext {
                profile: fallback_order()[k],
            }),
        forall|k: int|
            0 <= k < 3 ==> spec_action(after_failed_attempts(k as nat)) == Some(
                CreateAction::CreateContext { profile: fallback_order()[k] },
            ),
        after_failed_attempts(3) == (NegotiationPhase::Failed {
            error: RenderingError::ContextCreationError,
        }),
        spec_action(after_failed_attempts(3)) == None::<CreateAction>,
{
    assert(after_failed_attempts(0) == (NegotiationPhase::TryingContext {
        profile: fallback_order()[0],
    }));
    assert(after_failed_attempts(1) == (NegotiationPhase::TryingContext {
        profile: fallback_order()[1],
    }));
    assert(after_failed_attempts(2) == (NegotiationPhase::TryingContext {
        profile: fallback_order()[2],
    }));
    assert(after_failed_attempts(1) == spec_step(after_failed_attempts(0), false));
    assert(after_failed_attempts(2) == spec_step(after_failed_attempts(1), false));
    assert(after_failed_attempts(3) == spec_step(after_failed_attempts(2), false));
}

/// A rejected swap-interval request is tolerated: whether setting vsync
/// succeeds or fails, the negotiation moves on to loading the entry points.
pub proof fn lemma_vsync_failure_nonfatal(profile: ContextProfile)
    ensures
        spec_step(NegotiationPhase::ConfiguringVsync { profile }, false) == spec_step(
            NegotiationPhase::ConfiguringVsync { profile },
            true,
        ),
{
}

}
