//! Hardware adapters and the selection policy over them.  Enumeration is
//! driver work; the reported adapters enter here as a plain list, in driver
//! order.  The policy is deliberately first-fit, not best-fit: the first
//! adapter enumerated is taken, and the first queue family whose capability
//! set covers the requirement is taken.

use vstd::prelude::*;

use crate::errors::RenderError;

verus! {

/// A queue family supports graphics commands.
pub const QUEUE_GRAPHICS: u32 = 1;

/// A queue family supports compute commands.
pub const QUEUE_COMPUTE: u32 = 2;

/// A queue family supports transfer commands.
pub const QUEUE_TRANSFER: u32 = 4;

/// One queue family as the adapter reports it: a capability bit set and the
/// number of queues the family offers.
#[derive(Clone, Copy, Debug, PartialEq, Eq, Structural)]
pub struct QueueFamily {
    pub flags: u32,
    pub count: u32,
}

/// One piece of graphics hardware as enumeration reports it: an identifying
/// handle, its queue families in reported order, and the device-level layers
/// and extensions it offers.  Adapters are only ever obtained from the
/// driver's enumeration, never made up by the chain.
#[derive(Debug)]
pub struct PhysicalAdapter {
    pub id: u64,
    pub queue_families: Vec<QueueFamily>,
    pub device_layers: Vec<String>,
    pub device_extensions: Vec<String>,
}

/// The family's capability set covers every required capability.
pub open spec fn family_matches(flags: u32, required: u32) -> bool {
    flags & required == required
}

/// Some reported family covers `required`.
pub open spec fn has_matching_family(families: Seq<QueueFamily>, required: u32) -> bool {
    exists|j: int| 0 <= j < families.len() && family_matches(#[trigger] families[j].flags, required)
}

/// Everything `find_queue_family` promises: `Ok(i)` names the first family
/// covering `required`, and `CapabilityError` comes exactly when none does.
pub open spec fn queue_family_search_post(
    families: Seq<QueueFamily>,
    required: u32,
    r: Result<u32, RenderError>,
) -> bool {
    match r {
        Ok(i) => {
            &&& i < families.len()
            &&& family_matches(families[i as int].flags, required)
            &&& forall|j: int| 0 <= j < i ==> !family_matches(
                #[trigger] families[j].flags,
                required,
            )
        },
        Err(e) => {
            &&& e == RenderError::CapabilityError
            &&& !has_matching_family(families, required)
        },
    }
}

/// Takes the first enumerated adapter, by policy; an empty enumeration is
/// the fatal `EnumerationError`.
pub fn select_adapter(mut adapters: Vec<PhysicalAdapter>) -> (r: Result<
    PhysicalAdapter,
    RenderError,
>)
    ensures
        adapters@.len() == 0 ==> r == Err::<PhysicalAdapter, RenderError>(
            RenderError::EnumerationError,
        ),
        adapters@.len() > 0 ==> (r matches Ok(a) && a == adapters@[0]),
{
    if adapters.len() == 0 {
        Err(RenderError::EnumerationError)
    } else {
        Ok(adapters.remove(0))
    }
}

/// Scans the reported families in order and returns the index of the first
/// whose capability set is a superset of `required`; `CapabilityError` if
/// none matches.
pub fn find_queue_family(adapter: &PhysicalAdapter, required: u32) -> (r: Result<u32, RenderError>)
    requires
        adapter.queue_families@.len() <= u32::MAX,
    ensures
        queue_family_search_post(adapter.queue_families@, required, r),
{
    let mut j: usize = 0;
    while j < adapter.queue_families.len()
        invariant
            j <= adapter.queue_families@.len() <= u32::MAX,
            forall|k: int| 0 <= k < j ==> !family_matches(
                #[trigger] adapter.queue_families@[k].flags,
                required,
            ),
        decreases adapter.queue_families@.len() - j,
    {
        let flags = adapter.queue_families[j].flags;
        if flags & required == required {
            return Ok(j as u32);
        }
        j += 1;
    }
    Err(RenderError::CapabilityError)
}

/// The scan is deterministic: for one adapter and one reported family order,
/// any two results that `find_queue_family` can return are the same.
pub proof fn lemma_find_queue_family_deterministic(
    families: Seq<QueueFamily>,
    required: u32,
    r1: Result<u32, RenderError>,
    r2: Result<u32, RenderError>,
)
    requires
        queue_family_search_post(families, required, r1),
        queue_family_search_post(families, required, r2),
    ensures
        r1 == r2,
{
    match (r1, r2) {
        (Ok(i1), Ok(i2)) => {
            if i1 < i2 {
                assert(!family_matches(families[i1 as int].flags, required));
            }
            if i2 < i1 {
                assert(!family_matches(families[i2 as int].flags, required));
            }
        },
        (Ok(i1), Err(_)) => {
            assert(has_matching_family(families, required));
        },
        (Err(_), Ok(i2)) => {
            assert(has_matching_family(families, required));
        },
        (Err(_), Err(_)) => {},
    }
}

} // verus!
