//! Integer and text logic of a tile-scheduled Monte Carlo path tracer:
//! image layout and tile scheduling, the integrator's bounce policy, the
//! material roll of the random scene, option parsing and PNG output.

pub mod layout;
pub mod schedule;
pub mod image;
pub mod options;
pub mod path;
pub mod scene;
