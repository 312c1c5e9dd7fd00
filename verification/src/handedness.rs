//! Translation of the device layer's handedness classification into the
//! scripting-visible enumeration.

use vstd::prelude::*;

verus! {

/// Handedness of an input device as the device-tracking layer reports it.
#[derive(Clone, Copy, Debug, PartialEq, Eq, Structural)]
pub enum Handedness {
    Unspecified,
    Left,
    Right,
}

/// Handedness as exposed to scripting callers.
#[derive(Clone, Copy, Debug, PartialEq, Eq, Structural)]
pub enum XRHandedness {
    Unspecified,
    Left,
    Right,
}

/// The mapping from device-layer handedness to the scripting-visible value.
pub open spec fn spec_map_handedness(h: Handedness) -> XRHandedness {
    match h {
        Handedness::Unspecified => XRHandedness::Unspecified,
        Handedness::Left => XRHandedness::Left,
        Handedness::Right => XRHandedness::Right,
    }
}

/// Pure, total translation of the device layer's three-valued handedness
/// into the scripting-visible three-valued handedness. No error path.
pub fn map_handedness(h: Handedness) -> (r: XRHandedness)
    ensures
        r == spec_map_handedness(h),
{
    match h {
        Handedness::Unspecified => XRHandedness::Unspecified,
        Handedness::Left => XRHandedness::Left,
        Handedness::Right => XRHandedness::Right,
    }
}

/// The mapping is total and exhaustive: each of the three device-layer
/// values maps to its corresponding scripting-visible value, and none maps
/// to an error.
pub proof fn lemma_handedness_mapping_total()
    ensures
        spec_map_handedness(Handedness::Unspecified) == XRHandedness::Unspecified,
        spec_map_handedness(Handedness::Left) == XRHandedness::Left,
        spec_map_handedness(Handedness::Right) == XRHandedness::Right,
{
}

} // verus!
