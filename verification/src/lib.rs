//! A floating-origin coordinate model for large worlds.
//!
//! Positions are kept as a pair of a macro-cell index and a small local
//! position inside that cell, so that the coordinates handed to a renderer
//! stay close to the origin no matter how far an entity has travelled.
//! Each tick a detector re-centers the frame around a single reference
//! entity and a propagator applies the compensating shift to every other
//! entity, keeping all relative positions exactly consistent.  A stateless
//! compressor pulls very distant entities onto a finite render horizon and
//! computes the uniform scale that preserves their apparent size.

pub mod compress;
pub mod frame;
pub mod rebase;
pub mod vec3;
