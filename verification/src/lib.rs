//! Video quality-of-service control: round-trip estimation, per-user delay
//! tracking, frame-rate and bitrate adaptation.
use vstd::prelude::*;

pub mod capability;
pub mod clock;
pub mod delay;
pub mod hq;
pub mod laws;
pub mod model;
pub mod profile;
pub mod qos;
pub mod rtt;
pub mod users;

verus! {

} // verus!
