//! Procedural entity-trait generator and visual-composition registry.
//!
//! A deterministic weighted sampler draws one value per trait axis (shape,
//! size, color), composes the drawn values into an immutable descriptor, and
//! a startup-built registry resolves the descriptor into a renderable
//! specification.

/// Weighted trait tables, descriptors and the generation pass.
pub mod buildings;
/// Slot positions and the planned generation pass.
pub mod layout;
/// Deterministic pseudo-random source.
pub mod random;
/// Visual asset registry and composition resolver.
pub mod registry;
/// Cumulative-weight selection over weighted tables.
pub mod sampler;
