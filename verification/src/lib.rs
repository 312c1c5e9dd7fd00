//! Model of a scripting-exposed input source: one physical tracked
//! controller or hand, owned by a session, lazily exposing its two derived
//! coordinate spaces (target-ray and grip).

pub mod handedness;
pub mod input_source;
pub mod space;
