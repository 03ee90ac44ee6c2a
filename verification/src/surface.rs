//! Binding a presentable surface to a window, as a three-phase exchange with
//! the windowing collaborator.
//!
//! The collaborator's calls (the presentation-support query, the surface
//! creation itself, the surface-support query on the adapter) happen outside
//! this crate.  The `SurfaceBinding` machine owns every decision between
//! those calls: the embedding program performs the command the machine hands
//! out, feeds the answer back as an event, and stops when told to.  The
//! pre-check is mandatory — a negative presentation answer fails the binding
//! before any creation command is ever issued — and a surface whose
//! post-check fails is refused even though the object now exists.

use vstd::prelude::*;

use crate::errors::RenderError;

verus! {

/// A presentation target bound to one window and one instance.  A value of
/// this type exists only after a positive presentation-support pre-check and
/// a positive surface-support post-check against the same adapter and queue
/// family that the device was created from.
#[derive(Clone, Copy, Debug, PartialEq, Eq, Structural)]
pub struct Surface {
    pub raw: u64,
    pub window: u64,
    pub instance_stamp: u64,
    pub adapter_id: u64,
    pub family_index: u32,
}

/// An answer from the windowing collaborator or the adapter.
#[derive(Clone, Copy, Debug, PartialEq, Eq, Structural)]
pub enum SurfaceEvent {
    /// Whether the adapter and queue family can present to the window system.
    PresentationSupport(bool),
    /// The raw handle of a surface the collaborator just created.
    SurfaceCreated(u64),
    /// Whether the adapter accepts the created surface for the queue family.
    SurfaceSupport(bool),
}

/// What the embedding program is to do next.
#[derive(Clone, Copy, Debug, PartialEq, Eq, Structural)]
pub enum SurfaceCommand {
    /// Ask the windowing collaborator whether the pair can present at all.
    QueryPresentation,
    /// Ask the collaborator for a surface on the window.
    CreateSurface,
    /// Ask the adapter whether it accepts the created surface.
    QuerySurfaceSupport(u64),
    /// The binding is over, bound or failed; make no further call.
    Stop,
}

/// Where the binding stands.
#[derive(Clone, Copy, Debug, PartialEq, Eq, Structural)]
pub enum SurfacePhase {
    /// Waiting for the presentation-support answer.
    AwaitPresentation,
    /// Pre-check passed; waiting for the created surface.
    AwaitCreation,
    /// Surface created; waiting for the surface-support answer on it.
    AwaitSupport(u64),
    /// Both checks passed: the surface is usable.
    Bound(Surface),
    /// The binding failed; the error is fatal and the surface, if one was
    /// created, must not be used.
    Failed(RenderError),
}

/// The binding of one window to one instance/adapter/family choice.  The
/// choice is fixed at the start; no fallback search is attempted when it
/// turns out incompatible.
#[derive(Clone, Copy, Debug, PartialEq, Eq, Structural)]
pub struct SurfaceBinding {
    pub phase: SurfacePhase,
    pub instance_stamp: u64,
    pub adapter_id: u64,
    pub family_index: u32,
    pub window: u64,
}

/// The command each phase calls for.
pub open spec fn command_of(phase: SurfacePhase) -> SurfaceCommand {
    match phase {
        SurfacePhase::AwaitPresentation => SurfaceCommand::QueryPresentation,
        SurfacePhase::AwaitCreation => SurfaceCommand::CreateSurface,
        SurfacePhase::AwaitSupport(raw) => SurfaceCommand::QuerySurfaceSupport(raw),
        SurfacePhase::Bound(_) => SurfaceCommand::Stop,
        SurfacePhase::Failed(_) => SurfaceCommand::Stop,
    }
}

/// The phase after `ev` arrives in `b`.  An answer that no phase is waiting
/// for changes nothing.
pub open spec fn next_phase(b: SurfaceBinding, ev: SurfaceEvent) -> SurfacePhase {
    match (b.phase, ev) {
        (SurfacePhase::AwaitPresentation, SurfaceEvent::PresentationSupport(true)) => {
            SurfacePhase::AwaitCreation
        },
        (SurfacePhase::AwaitPresentation, SurfaceEvent::PresentationSupport(false)) => {
            SurfacePhase::Failed(RenderError::PresentationUnsupportedError)
        },
        (SurfacePhase::AwaitCreation, SurfaceEvent::SurfaceCreated(raw)) => {
            SurfacePhase::AwaitSupport(raw)
        },
        (SurfacePhase::AwaitSupport(raw), SurfaceEvent::SurfaceSupport(true)) => {
            SurfacePhase::Bound(
                Surface {
                    raw,
                    window: b.window,
                    instance_stamp: b.instance_stamp,
                    adapter_id: b.adapter_id,
                    family_index: b.family_index,
                },
            )
        },
        (SurfacePhase::AwaitSupport(_), SurfaceEvent::SurfaceSupport(false)) => {
            SurfacePhase::Failed(RenderError::SurfaceIncompatibleError)
        },
        _ => b.phase,
    }
}

impl SurfaceBinding {
    /// Opens the binding of `window` to the given instance, adapter and
    /// queue family; the first command is the mandatory presentation
    /// pre-check.
    pub fn new(instance_stamp: u64, adapter_id: u64, family_index: u32, window: u64) -> (b:
        SurfaceBinding)
        ensures
            b.phase is AwaitPresentation,
            b.instance_stamp == instance_stamp,
            b.adapter_id == adapter_id,
            b.family_index == family_index,
            b.window == window,
            command_of(b.phase) == SurfaceCommand::QueryPresentation,
    {
        SurfaceBinding {
            phase: SurfacePhase::AwaitPresentation,
            instance_stamp,
            adapter_id,
            family_index,
            window,
        }
    }

    /// The command the binding is waiting to have performed.
    pub fn command(&self) -> (cmd: SurfaceCommand)
        ensures
            cmd == command_of(self.phase),
    {
        match self.phase {
            SurfacePhase::AwaitPresentation => SurfaceCommand::QueryPresentation,
            SurfacePhase::AwaitCreation => SurfaceCommand::CreateSurface,
            SurfacePhase::AwaitSupport(raw) => SurfaceCommand::QuerySurfaceSupport(raw),
            SurfacePhase::Bound(_) => SurfaceCommand::Stop,
            SurfacePhase::Failed(_) => SurfaceCommand::Stop,
        }
    }

    /// Feeds one answer in and hands the next command out.
    pub fn step(&mut self, ev: SurfaceEvent) -> (cmd: SurfaceCommand)
        ensures
            final(self).phase == next_phase(*old(self), ev),
            final(self).instance_stamp == old(self).instance_stamp,
            final(self).adapter_id == old(self).adapter_id,
            final(self).family_index == old(self).family_index,
            final(self).window == old(self).window,
            cmd == command_of(final(self).phase),
    {
        self.phase = match (self.phase, ev) {
            (SurfacePhase::AwaitPresentation, SurfaceEvent::PresentationSupport(true)) => {
                SurfacePhase::AwaitCreation
            },
            (SurfacePhase::AwaitPresentation, SurfaceEvent::PresentationSupport(false)) => {
                SurfacePhase::Failed(RenderError::PresentationUnsupportedError)
            },
            (SurfacePhase::AwaitCreation, SurfaceEvent::SurfaceCreated(raw)) => {
                SurfacePhase::AwaitSupport(raw)
            },
            (SurfacePhase::AwaitSupport(raw), SurfaceEvent::SurfaceSupport(true)) => {
                SurfacePhase::Bound(
                    Surface {
                        raw,
                        window: self.window,
                        instance_stamp: self.instance_stamp,
                        adapter_id: self.adapter_id,
                        family_index: self.family_index,
                    },
                )
            },
            (SurfacePhase::AwaitSupport(_), SurfaceEvent::SurfaceSupport(false)) => {
                SurfacePhase::Failed(RenderError::SurfaceIncompatibleError)
            },
            (phase, _) => phase,
        };
        self.command()
    }
}

/// A negative presentation pre-check fails the binding at once with
/// `PresentationUnsupportedError`, and the machine never again commands
/// anything — in particular, surface creation is never attempted.
pub proof fn lemma_presentation_denied_never_creates(b: SurfaceBinding)
    requires
        b.phase is AwaitPresentation,
    ensures
        next_phase(b, SurfaceEvent::PresentationSupport(false)) == SurfacePhase::Failed(
            RenderError::PresentationUnsupportedError,
        ),
        command_of(next_phase(b, SurfaceEvent::PresentationSupport(false)))
            == SurfaceCommand::Stop,
{
}

/// A failed binding is absorbing: whatever answer arrives later, the phase
/// keeps its error and the command stays `Stop`.
pub proof fn lemma_failed_is_absorbing(b: SurfaceBinding, ev: SurfaceEvent)
    requires
        b.phase is Failed,
    ensures
        next_phase(b, ev) == b.phase,
        command_of(next_phase(b, ev)) == SurfaceCommand::Stop,
{
}

/// A positive pre-check followed by a created surface whose post-check is
/// negative fails the binding with `SurfaceIncompatibleError`: creation was
/// commanded and succeeded, and the existing surface is still refused.
pub proof fn lemma_incompatible_after_creation(b: SurfaceBinding, raw: u64)
    requires
        b.phase is AwaitPresentation,
    ensures
        ({
            let b1 = SurfaceBinding {
                phase: next_phase(b, SurfaceEvent::PresentationSupport(true)),
                ..b
            };
            let b2 = SurfaceBinding { phase: next_phase(b1, SurfaceEvent::SurfaceCreated(raw)), ..b1 };
            &&& command_of(b1.phase) == SurfaceCommand::CreateSurface
            &&& command_of(b2.phase) == SurfaceCommand::QuerySurfaceSupport(raw)
            &&& next_phase(b2, SurfaceEvent::SurfaceSupport(false)) == SurfacePhase::Failed(
                RenderError::SurfaceIncompatibleError,
            )
        }),
{
}

/// A surface only ever becomes bound through the full checked path: the
/// binding must have been awaiting the post-check answer on the same raw
/// handle, the answer must have been positive, and the bound surface carries
/// exactly the window, instance, adapter and family the binding was opened
/// with.
pub proof fn lemma_bound_only_after_checks(b: SurfaceBinding, ev: SurfaceEvent, s: Surface)
    requires
        next_phase(b, ev) == SurfacePhase::Bound(s),
        !(b.phase is Bound),
    ensures
        b.phase == SurfacePhase::AwaitSupport(s.raw),
        ev == SurfaceEvent::SurfaceSupport(true),
        s.window == b.window,
        s.instance_stamp == b.instance_stamp,
        s.adapter_id == b.adapter_id,
        s.family_index == b.family_index,
{
}

} // verus!
