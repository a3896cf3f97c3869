//! Two-body orbital mechanics support library: the discrete domain model of orbit
//! families, bodies, local thrust directions, guided-transfer bookkeeping and surface
//! meshes, with its rules proved.

pub mod body_registry;
pub mod collision;
pub mod error;
pub mod host_codes;
pub mod orbits;
pub mod small_body;
pub mod surface_geometry;
pub mod thrust_flags;
pub mod thrust_frame;
pub mod transfer_burn;
pub mod transfer_viability;

pub use body_registry::BodyRegistry;
pub use collision::SurfaceResolution;
pub use error::ProjectError;
pub use host_codes::{
    GdBodyState, GdOrbitType, body_id_from_i64, transfer_availability_code, transfer_status_code,
};
pub use orbits::{
    OrbitPlane, OrbitType, is_circular_orbit_type, is_elliptical_orbit_type, is_retrograde_orbit,
    orbit_plane, orbit_uses_computed_altitude, orbit_uses_elliptical_params,
    orbit_uses_inclination_param, orbit_uses_star_obliquity,
};
pub use small_body::{BodyId, BodyState};
pub use surface_geometry::{corridor_triangle_indices, spherical_polyline_samples};
pub use thrust_frame::{ThrustDirection, thrust_directions_from_flags};
pub use transfer_burn::{GuidedTransfer, TransferBurnStatus, TransferBurnTracker};
pub use transfer_viability::TransferAvailability;
