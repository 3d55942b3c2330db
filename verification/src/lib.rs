//! Resource manager and dispatch engine for a volumetric fractal renderer.
//!
//! The engine owns a voxel-volume buffer and an image buffer on a compute
//! device, resizes them lazily on demand, keeps the kernels' argument
//! bindings in step with every resize so that no dispatch ever sees a
//! freed buffer, and marshals a camera description into the flat 18-slot
//! parameter layout the ray-march kernel expects.
//!
//! The device itself is carried as a host-side model (`device`): buffers
//! with stable identifiers, a capacity limit standing in for device memory,
//! and dispatches that validate their argument bindings. The fractal
//! kernels are opaque external programs, so nothing is claimed about what
//! they write — the theorems here are about lifecycle: resize idempotence,
//! strong exception safety on allocation failure, rebind completeness, the
//! independence of the two resources, and the exact wire encoding of the
//! camera, including its per-component float scaling carried out in
//! verified integer arithmetic (`fbits`).

pub mod error;
pub mod device;
pub mod fbits;
pub mod codec;
pub mod resources;
pub mod bindings;
pub mod engine;
pub mod exporter;
pub mod laws;
