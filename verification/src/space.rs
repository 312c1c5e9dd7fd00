//! Coordinate spaces and the lazy one-shot cache slot that holds them.
//!
//! A coordinate space is a reference frame from which poses are later
//! queried. Within one session an input source constructs at most one
//! target-ray space and at most one grip space, so a space's identity is
//! exactly its construction parameters: the owning session, the input
//! source it belongs to, and whether it is a grip space.

use crate::input_source::InputId;
use vstd::prelude::*;

verus! {

/// Identifies the owning session: an index into the table of sessions that
/// the embedder exclusively owns. The entity's back-reference to its
/// session is this non-owning identifier, never a co-owning reference, so
/// no reference cycle can arise.
#[derive(Clone, Copy, Debug, PartialEq, Eq, Structural)]
pub struct SessionId(pub u32);

/// A coordinate space: either the target-ray frame (pointing direction) or
/// the grip frame (handheld grip pose) of one input source.
#[derive(Clone, Copy, Debug, PartialEq, Eq, Structural)]
pub struct XRSpace {
    /// The session this space belongs to.
    pub session: SessionId,
    /// The input source this space was derived from.
    pub input_source: InputId,
    /// Whether this is the grip frame; otherwise it is the target-ray frame.
    pub is_grip: bool,
}

impl XRSpace {
    /// The space that construction from these parameters yields.
    pub open spec fn spec_new(session: SessionId, input_source: InputId, is_grip: bool) -> XRSpace {
        XRSpace { session, input_source, is_grip }
    }

    /// Constructs the coordinate space of one input source, parameterized
    /// by whether it is the grip space, since that determines the pose
    /// semantics the space later exposes.
    pub fn new_inputspace(session: SessionId, input_source: InputId, is_grip: bool) -> (r: XRSpace)
        ensures
            r == XRSpace::spec_new(session, input_source, is_grip),
    {
        XRSpace { session, input_source, is_grip }
    }
}

/// A lazily-initialized slot for one coordinate space. The slot is
/// populated at most once, on first access, and reused thereafter; once
/// populated it is never cleared or replaced while its owner lives.
#[derive(Clone, Copy, Debug, PartialEq, Eq)]
pub struct SpaceSlot {
    /// The cached space, absent until first access.
    pub space: Option<XRSpace>,
}

impl SpaceSlot {
    /// A slot that holds nothing yet.
    pub fn empty() -> (s: SpaceSlot)
        ensures
            s.space is None,
    {
        SpaceSlot { space: None }
    }

    /// If the slot already holds a space, returns it and leaves the slot
    /// untouched; otherwise constructs the space exactly once from the
    /// given parameters, stores it, and returns it.
    pub fn get_or_init(&mut self, session: SessionId, input_source: InputId, is_grip: bool) -> (r: XRSpace)
        ensures
            old(self).space is None ==> r == XRSpace::spec_new(session, input_source, is_grip),
            old(self).space matches Some(s) ==> r == s && *final(self) == *old(self),
            final(self).space == Some(r),
    {
        match self.space {
            Some(s) => s,
            None => {
                let s = XRSpace::new_inputspace(session, input_source, is_grip);
                self.space = Some(s);
                s
            },
        }
    }
}

} // verus!
