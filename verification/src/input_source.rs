//! The input-source entity: one physical tracked controller or hand,
//! created by its owning session, holding an immutable snapshot of the
//! device-reported info and two lazily-populated coordinate-space slots.

use crate::handedness::{spec_map_handedness, map_handedness, Handedness, XRHandedness};
use crate::space::{SessionId, SpaceSlot, XRSpace};
use vstd::prelude::*;

verus! {

/// Opaque device identity, stable for the device's lifetime; it uniquely
/// identifies the input source within its session, and lets the session
/// reconcile per-frame device reports against existing entities.
#[derive(Clone, Copy, Debug, PartialEq, Eq, Structural)]
pub struct InputId(pub u32);

/// The immutable per-device snapshot the device-tracking layer delivers
/// once at entity creation. A changed device state is represented by the
/// owning session replacing the entity, never by mutating the snapshot.
#[derive(Clone, Copy, Debug, PartialEq, Eq, Structural)]
pub struct InputSource {
    /// Stable device identity.
    pub id: InputId,
    /// Device-reported handedness.
    pub handedness: Handedness,
    /// Whether the device can supply a grip pose.
    pub supports_grip: bool,
}

/// The scripting-exposed input source. It holds a non-owning back-reference
/// to its owning session, the immutable device snapshot, and one lazy slot
/// for each of the two derived coordinate spaces.
pub struct XRInputSource {
    /// Back-reference to the owning session; the session owns the entity,
    /// never the other way round.
    pub session: SessionId,
    /// Immutable device snapshot, supplied once at construction.
    pub info: InputSource,
    /// Lazily-populated target-ray space.
    pub target_ray_space: SpaceSlot,
    /// Lazily-populated grip space, populated only when the device
    /// supports a grip pose.
    pub grip_space: SpaceSlot,
}

impl XRInputSource {
    /// Well-formedness: a populated slot holds exactly the space
    /// constructed from this entity's own session, identity and slot kind,
    /// and the grip slot is never populated without grip support.
    pub open spec fn wf(self) -> bool {
        &&& (self.target_ray_space.space matches Some(s) ==>
            s == XRSpace::spec_new(self.session, self.info.id, false))
        &&& (self.grip_space.space matches Some(s) ==>
            s == XRSpace::spec_new(self.session, self.info.id, true))
        &&& (self.grip_space.space is Some ==> self.info.supports_grip)
    }

    /// Constructs the entity for a newly observed device: both space slots
    /// start empty.
    pub fn new_inherited(session: SessionId, info: InputSource) -> (s: XRInputSource)
        ensures
            s.session == session,
            s.info == info,
            s.target_ray_space.space is None,
            s.grip_space.space is None,
            s.wf(),
    {
        XRInputSource {
            session,
            info,
            target_ray_space: SpaceSlot::empty(),
            grip_space: SpaceSlot::empty(),
        }
    }

    /// Constructs the entity the owning session hands out to scripting
    /// code when the device layer reports a new device.
    pub fn new(session: SessionId, info: InputSource) -> (s: XRInputSource)
        ensures
            s.session == session,
            s.info == info,
            s.target_ray_space.space is None,
            s.grip_space.space is None,
            s.wf(),
    {
        XRInputSource::new_inherited(session, info)
    }

    /// Returns the immutable identity snapshot.
    pub fn id(&self) -> (r: InputId)
        ensures
            r == self.info.id,
    {
        self.info.id
    }

    /// Returns the mapped value of the snapshot's handedness.
    pub fn handedness(&self) -> (r: XRHandedness)
        ensures
            r == spec_map_handedness(self.info.handedness),
    {
        map_handedness(self.info.handedness)
    }

    /// The space every target-ray access yields: the target-ray frame of
    /// this entity within its session.
    pub open spec fn target_ray_result(self) -> XRSpace {
        XRSpace::spec_new(self.session, self.info.id, false)
    }

    /// The entity after a target-ray access: the target-ray slot is
    /// populated, everything else is untouched.
    pub open spec fn after_target_ray(self) -> XRInputSource {
        XRInputSource {
            target_ray_space: SpaceSlot { space: Some(self.target_ray_result()) },
            ..self
        }
    }

    /// What a grip access yields: absent whenever the device does not
    /// support a grip pose, otherwise the grip frame of this entity.
    pub open spec fn grip_result(self) -> Option<XRSpace> {
        if self.info.supports_grip {
            Some(XRSpace::spec_new(self.session, self.info.id, true))
        } else {
            None
        }
    }

    /// The entity after a grip access: with grip support the grip slot is
    /// populated, without it nothing changes at all.
    pub open spec fn after_grip(self) -> XRInputSource {
        if self.info.supports_grip {
            XRInputSource {
                grip_space: SpaceSlot { space: Some(XRSpace::spec_new(self.session, self.info.id, true)) },
                ..self
            }
        } else {
            self
        }
    }

    /// Returns the cached target-ray space, constructing it on first call.
    /// Never fails: once the entity is alive a usable space is always
    /// returned, and a populated slot is never touched again.
    pub fn target_ray_space(&mut self) -> (r: XRSpace)
        requires
            old(self).wf(),
        ensures
            r == old(self).target_ray_result(),
            *final(self) == old(self).after_target_ray(),
            final(self).wf(),
            old(self).target_ray_space.space is Some ==> *final(self) == *old(self),
    {
        let session = self.session;
        let id = self.info.id;
        self.target_ray_space.get_or_init(session, id, false)
    }

    /// If the device does not support a grip pose, returns absent and
    /// constructs nothing, however often it is called; otherwise returns
    /// the cached grip space, constructing it on first call.
    pub fn grip_space(&mut self) -> (r: Option<XRSpace>)
        requires
            old(self).wf(),
        ensures
            r == old(self).grip_result(),
            *final(self) == old(self).after_grip(),
            final(self).wf(),
            !old(self).info.supports_grip ==> r is None && *final(self) == *old(self),
            old(self).grip_space.space is Some ==> *final(self) == *old(self),
    {
        if self.info.supports_grip {
            let session = self.session;
            let id = self.info.id;
            Some(self.grip_space.get_or_init(session, id, true))
        } else {
            None
        }
    }
}

/// A second target-ray access on the same entity returns the identical
/// cached space and changes nothing: the slot transitions from empty to
/// populated at most once, so the underlying constructor runs exactly once.
pub proof fn lemma_target_ray_space_cached(s: XRInputSource)
    requires
        s.wf(),
    ensures
        s.after_target_ray().wf(),
        s.after_target_ray().target_ray_space.space == Some(s.target_ray_result()),
        s.after_target_ray().target_ray_result() == s.target_ray_result(),
        s.after_target_ray().after_target_ray() == s.after_target_ray(),
{
}

/// Without grip support a grip access returns absent and leaves the entity
/// exactly as it was, so however many times it is called no grip space is
/// ever constructed.
pub proof fn lemma_no_grip_without_support(s: XRInputSource)
    requires
        s.wf(),
        !s.info.supports_grip,
    ensures
        s.grip_result() is None,
        s.after_grip() == s,
{
}

/// With grip support the first grip access constructs the grip frame
/// (a space with its grip flag set); a second access returns the identical
/// cached space and changes nothing.
pub proof fn lemma_grip_space_cached(s: XRInputSource)
    requires
        s.wf(),
        s.info.supports_grip,
    ensures
        s.grip_result() == Some(XRSpace::spec_new(s.session, s.info.id, true)),
        s.grip_result() matches Some(g) && g.is_grip,
        s.after_grip().wf(),
        s.after_grip().grip_result() == s.grip_result(),
        s.after_grip().after_grip() == s.after_grip(),
{
}

/// The identity snapshot, like the whole device snapshot and the session
/// back-reference, is stable across any number of accessor calls: the only
/// accessors that mutate at all are the two space getters, and neither
/// touches anything but its own slot.
pub proof fn lemma_id_stable(s: XRInputSource)
    requires
        s.wf(),
    ensures
        s.after_target_ray().info == s.info,
        s.after_target_ray().session == s.session,
        s.after_grip().info == s.info,
        s.after_grip().session == s.session,
{
}

/// The two lazy slots are independent: a target-ray access never touches
/// the grip slot and a grip access never touches the target-ray slot, and
/// the two spaces they yield are distinct.
pub proof fn lemma_slots_independent(s: XRInputSource)
    requires
        s.wf(),
    ensures
        s.after_target_ray().grip_space == s.grip_space,
        s.after_grip().target_ray_space == s.target_ray_space,
        s.grip_result() matches Some(g) ==> g != s.target_ray_result(),
{
}

} // verus!

