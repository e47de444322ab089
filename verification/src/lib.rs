//! Procedural mesh generation for a capped cylinder.
//!
//! The library computes the structure of a triangulated cylinder mesh:
//! which vertex stands at which slot of the vertex buffer, the exact
//! triangle index buffer, and the shading region (radial wall, top cap,
//! bottom cap) of every vertex. All of it is stated in contracts and
//! verified. Turning the structure into numeric coordinates takes
//! floating-point trigonometry, which the verifier does not accept, so
//! that final evaluation step is left to the (unverified) caller; the
//! structure pins everything else down, including the angular step and
//! height level of every vertex.

pub mod laws;
pub mod shapes;
