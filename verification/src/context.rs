//! The once-only home of the graphics context.  The first request through a
//! `ContextCell` runs the whole bootstrap chain; every later request hands
//! back handles to the context already built, without touching the chain
//! again.  The cell replaces a hidden process-wide singleton with a value
//! the embedding program owns and passes where it is needed.

use vstd::prelude::*;

use crate::adapter::PhysicalAdapter;
use crate::debug::DiagnosticSink;
use crate::errors::RenderError;
use crate::instance::HostCapabilities;
use crate::renderer::{init_diagnostics, init_post, Renderer};

verus! {

/// Plain handles naming the one instance, device and queue of a built
/// context.  Two values of this type refer to the same underlying objects
/// exactly when they are equal: each run of the chain carries a distinct
/// stamp.
#[derive(Clone, Copy, Debug, PartialEq, Eq, Structural)]
pub struct ContextHandles {
    pub instance_stamp: u64,
    pub device_stamp: u64,
    pub adapter_id: u64,
    pub queue_family: u32,
    pub queue_index: u32,
}

/// The handles of a built renderer.
pub open spec fn handles_of(rend: Renderer) -> ContextHandles {
    ContextHandles {
        instance_stamp: rend.instance.stamp,
        device_stamp: rend.device.stamp,
        adapter_id: rend.adapter.id,
        queue_family: rend.queue.family_index,
        queue_index: rend.queue.queue_index,
    }
}

impl Renderer {
    /// The plain handles of this context.
    pub fn handles(&self) -> (h: ContextHandles)
        ensures
            h == handles_of(*self),
    {
        ContextHandles {
            instance_stamp: self.instance.stamp,
            device_stamp: self.device.stamp,
            adapter_id: self.adapter.id,
            queue_family: self.queue.family_index,
            queue_index: self.queue.queue_index,
        }
    }
}

/// The cell the context lives in.  `inits_performed` counts the runs of the
/// chain the cell ever made; once a run succeeds, it never moves again.
#[derive(Debug)]
pub struct ContextCell {
    pub inner: Option<Renderer>,
    pub inits_performed: u64,
}

impl ContextCell {
    /// An empty cell: no context yet, no run of the chain performed.
    pub fn new() -> (c: ContextCell)
        ensures
            c.inner is None,
            c.inits_performed == 0,
    {
        ContextCell { inner: None, inits_performed: 0 }
    }

    /// The accessor.  On a cell that already holds a context this returns
    /// the same handles as before and changes nothing — neither the cell
    /// nor the sink.  On an empty cell it runs the chain once, stores the
    /// context on success, and reports the chain's own error on failure.
    pub fn get_or_init(
        &mut self,
        platform_surface_extension: String,
        host: &HostCapabilities,
        adapters: Vec<PhysicalAdapter>,
        sink: &mut DiagnosticSink,
    ) -> (r: Result<ContextHandles, RenderError>)
        requires
            old(self).inits_performed < u64::MAX,
            adapters@.len() > 0 ==> adapters@[0].queue_families@.len() <= u32::MAX,
        ensures
            old(self).inner matches Some(rend) ==> {
                &&& *final(self) == *old(self)
                &&& r == Ok::<ContextHandles, RenderError>(handles_of(rend))
                &&& final(sink).lines@ == old(sink).lines@
            },
            old(self).inner is None ==> {
                &&& final(self).inits_performed == old(self).inits_performed + 1
                &&& (r matches Ok(h) ==> (final(self).inner matches Some(rend) && h == handles_of(
                    rend,
                ) && init_post(
                    platform_surface_extension@,
                    *host,
                    adapters@,
                    final(self).inits_performed,
                    Ok(rend),
                )))
                &&& (r matches Err(e) ==> (final(self).inner is None && init_post(
                    platform_surface_extension@,
                    *host,
                    adapters@,
                    final(self).inits_performed,
                    Err(e),
                ) && init_diagnostics(
                    Err(e),
                    old(sink).lines@,
                    final(sink).lines@,
                )))
                &&& (r is Ok ==> final(sink).lines@ == old(sink).lines@)
            },
            r matches Ok(h) ==> (final(self).inner matches Some(rend) && h == handles_of(rend)),
    {
        if self.inner.is_some() {
            let h = self.inner.as_ref().unwrap().handles();
            return Ok(h);
        }
        self.inits_performed += 1;
        match Renderer::init(platform_surface_extension, host, adapters, sink, self.inits_performed,
        ) {
            Ok(rend) => {
                let h = rend.handles();
                self.inner = Some(rend);
                Ok(h)
            },
            Err(e) => Err(e),
        }
    }
}

} // verus!
