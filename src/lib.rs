//! Discrete core of a ship-hull part editor: box feature indexing, hull
//! adjacency composition, seam-preserving edit propagation, snap-step
//! selection and the triangle topology of lofted hull segments.

pub mod faces;
pub mod adjacency;
pub mod propagation;
pub mod mesh;
pub mod service;
pub mod smart_move;
pub mod settings;
pub mod touch;
pub mod nearby;
pub mod text;
pub mod commands;
