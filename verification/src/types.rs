//! The records exchanged with the simulator: controls, states, requests and
//! the spatial values that they carry.
//!
//! A record travels as a wire map keyed by its field names; an enumeration
//! travels as the number of its variant.
pub mod image;
pub mod records;
pub mod spatial;

pub use self::image::ImageType;
pub use self::records::{
    CarControls, CarState, CollisionInfo, EnvironmentState, GeoPoint, ImageRequest,
    ImageResponse, KinematicsState, RefereeState,
};
pub use self::spatial::{Pose, Position2D, Quaternionr, Vector3r};
