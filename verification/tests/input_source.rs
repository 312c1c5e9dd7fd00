use xr_input::handedness::{map_handedness, Handedness, XRHandedness};
use xr_input::input_source::{InputId, InputSource, XRInputSource};
use xr_input::space::{SessionId, SpaceSlot, XRSpace};

fn entity(id: u32, handedness: Handedness, supports_grip: bool) -> XRInputSource {
    XRInputSource::new(
        SessionId(1),
        InputSource { id: InputId(id), handedness, supports_grip },
    )
}

#[test]
fn handedness_mapping_all_values() {
    assert_eq!(map_handedness(Handedness::Unspecified), XRHandedness::Unspecified);
    assert_eq!(map_handedness(Handedness::Left), XRHandedness::Left);
    assert_eq!(map_handedness(Handedness::Right), XRHandedness::Right);
}

#[test]
fn entity_handedness_is_mapped() {
    assert_eq!(entity(1, Handedness::Unspecified, false).handedness(), XRHandedness::Unspecified);
    assert_eq!(entity(2, Handedness::Left, false).handedness(), XRHandedness::Left);
    assert_eq!(entity(3, Handedness::Right, true).handedness(), XRHandedness::Right);
}

#[test]
fn target_ray_space_cached_identical() {
    let mut s = entity(5, Handedness::Right, false);
    let first = s.target_ray_space();
    let second = s.target_ray_space();
    assert_eq!(first, second);
    assert_eq!(first.session, SessionId(1));
    assert_eq!(first.input_source, InputId(5));
    assert!(!first.is_grip);
    // the slot was populated by the first call and never replaced
    assert_eq!(s.target_ray_space.space, Some(first));
}

#[test]
fn grip_absent_without_support() {
    let mut s = entity(4, Handedness::Left, false);
    assert!(s.grip_space().is_none());
    assert!(s.grip_space().is_none());
    assert!(s.grip_space().is_none());
    assert!(s.grip_space.space.is_none());
    // the target-ray space is unaffected
    let ray = s.target_ray_space();
    assert!(!ray.is_grip);
    assert!(s.grip_space().is_none());
}

#[test]
fn grip_constructed_once_with_support() {
    let mut s = entity(6, Handedness::Right, true);
    let first = s.grip_space().unwrap();
    assert!(first.is_grip);
    assert_eq!(first.session, SessionId(1));
    assert_eq!(first.input_source, InputId(6));
    let second = s.grip_space().unwrap();
    assert_eq!(first, second);
    assert_eq!(s.grip_space.space, Some(first));
}

#[test]
fn id_stable_across_accessors() {
    let mut s = entity(9, Handedness::Left, true);
    assert_eq!(s.id(), InputId(9));
    s.handedness();
    assert_eq!(s.id(), InputId(9));
    s.target_ray_space();
    assert_eq!(s.id(), InputId(9));
    s.grip_space();
    s.grip_space();
    assert_eq!(s.id(), InputId(9));
}

#[test]
fn scenario_left_handed_with_grip() {
    let mut s = entity(7, Handedness::Left, true);
    assert_eq!(s.handedness(), XRHandedness::Left);
    let a = s.target_ray_space();
    assert_eq!(s.target_ray_space(), a);
    let b = s.grip_space().unwrap();
    assert_ne!(a, b);
    assert_eq!(s.grip_space(), Some(b));
    assert_eq!(s.grip_space(), Some(b));
}

#[test]
fn scenario_unclassified_without_grip() {
    let mut s = entity(3, Handedness::Unspecified, false);
    assert!(s.grip_space().is_none());
    assert!(s.grip_space().is_none());
    let ray = s.target_ray_space();
    assert_eq!(ray, s.target_ray_space());
    assert_eq!(ray.input_source, InputId(3));
    assert!(s.grip_space().is_none());
}

#[test]
fn constructors_agree() {
    let info = InputSource { id: InputId(8), handedness: Handedness::Right, supports_grip: true };
    let a = XRInputSource::new_inherited(SessionId(2), info);
    let b = XRInputSource::new(SessionId(2), info);
    assert_eq!(a.session, b.session);
    assert_eq!(a.info, b.info);
    assert!(a.target_ray_space.space.is_none());
    assert!(a.grip_space.space.is_none());
    assert!(b.target_ray_space.space.is_none());
    assert!(b.grip_space.space.is_none());
}

#[test]
fn slot_populates_at_most_once() {
    let mut slot = SpaceSlot::empty();
    assert!(slot.space.is_none());
    let first = slot.get_or_init(SessionId(1), InputId(1), false);
    assert_eq!(first, XRSpace::new_inputspace(SessionId(1), InputId(1), false));
    // a populated slot hands out its cached space, whatever is asked for
    let second = slot.get_or_init(SessionId(2), InputId(2), true);
    assert_eq!(second, first);
    assert_eq!(slot.space, Some(first));
}
