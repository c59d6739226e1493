//! Backend bootstrap decisions.
//!
//! Creating a render target provider means asking the platform what it
//! offers — graphics devices, framebuffer configurations, queue families,
//! context profiles — and picking one. The enumeration itself is platform
//! work that happens outside this crate; the choices, which are functions
//! of the enumerated facts alone, are made and verified here. Each
//! function takes the facts as plain values and pins down exactly which
//! entry is chosen.

use vstd::prelude::*;

verus! {

/// Which context profile the provider should create, when more than one
/// could do.
#[derive(Clone, Copy, Debug, PartialEq, Eq, Structural)]
pub enum ContextKind {
    /// The profile asked for first.
    Preferred,
    /// The single alternate profile tried when the preferred one fails.
    Fallback,
}

/// Pick the graphics device to build the display on: the first one the
/// platform enumerates, or nothing when there is none. There is no
/// fallback beyond that — creation fails fatally without a device.
pub fn select_device(device_count: usize) -> (r: Option<usize>)
    ensures
        r == if device_count == 0 {
            Option::<usize>::None
        } else {
            Option::Some(0usize)
        },
{
    if device_count == 0 {
        None
    } else {
        Some(0)
    }
}

/// Pick the framebuffer configuration to draw with, given each candidate's
/// sample count: the one with the most samples, the later candidate
/// winning a tie. Returns its index, or nothing when the platform offered
/// no configuration at all.
pub fn select_config(sample_counts: &Vec<u32>) -> (r: Option<usize>)
    ensures
        r is Some <==> sample_counts@.len() > 0,
        r matches Some(i) ==> i < sample_counts@.len()
            && (forall|j: int| 0 <= j < sample_counts@.len()
                ==> sample_counts@[j] <= sample_counts@[i as int])
            && (forall|j: int| i < j < sample_counts@.len()
                ==> sample_counts@[j] < sample_counts@[i as int]),
{
    if sample_counts.len() == 0 {
        return None;
    }
    let mut best: usize = 0;
    let mut k: usize = 1;
    while k < sample_counts.len()
        invariant
            best < k <= sample_counts@.len(),
            forall|j: int| 0 <= j < k ==> sample_counts@[j] <= sample_counts@[best as int],
            forall|j: int| best < j < k ==> sample_counts@[j] < sample_counts@[best as int],
        decreases sample_counts@.len() - k,
    {
        if sample_counts[k] >= sample_counts[best] {
            best = k;
        }
        k = k + 1;
    }
    Some(best)
}

/// Pick the queue family to run graphics on, given which families support
/// graphics: the first one that does. Returns its index, or nothing when
/// no family supports graphics — the fatal no-suitable-device case.
pub fn select_queue_family(supports_graphics: &Vec<bool>) -> (r: Option<usize>)
    ensures
        r is None <==> (forall|j: int| 0 <= j < supports_graphics@.len()
            ==> !supports_graphics@[j]),
        r matches Some(i) ==> i < supports_graphics@.len() && supports_graphics@[i as int]
            && (forall|j: int| 0 <= j < i ==> !supports_graphics@[j]),
{
    let mut k: usize = 0;
    while k < supports_graphics.len()
        invariant
            k <= supports_graphics@.len(),
            forall|j: int| 0 <= j < k ==> !supports_graphics@[j],
        decreases supports_graphics@.len() - k,
    {
        if supports_graphics[k] {
            return Some(k);
        }
        k = k + 1;
    }
    None
}

/// Pick the context profile: the preferred one when it can be created,
/// else the single fallback, else nothing — creation then fails fatally,
/// with no further alternatives.
pub fn select_context(preferred_ok: bool, fallback_ok: bool) -> (r: Option<ContextKind>)
    ensures
        r == if preferred_ok {
            Option::Some(ContextKind::Preferred)
        } else if fallback_ok {
            Option::Some(ContextKind::Fallback)
        } else {
            Option::<ContextKind>::None
        },
{
    if preferred_ok {
        Some(ContextKind::Preferred)
    } else if fallback_ok {
        Some(ContextKind::Fallback)
    } else {
        None
    }
}

} // verus!
