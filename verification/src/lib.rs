//! Discrete-graph movement for maze-navigating agents.
//!
//! A maze grid is condensed into a node-and-edge graph (`node`), and each
//! moving agent carries a small navigation state machine (`nav`) that a
//! per-tick integrator drives: advance along the current heading, detect
//! overshoot of the target node, snap exactly onto it, teleport through
//! boundary portals, and resolve the next heading from queued input
//! (`pacman`) or a random pick among the valid edges (`ghosts`).
//!
//! All positions are integer sub-unit coordinates (`geometry::UNIT` sub-units
//! per world unit), so arrival snapping and portal mirroring are exact.

pub mod gameplay;
pub mod geometry;
pub mod ghosts;
pub mod map;
pub mod nav;
pub mod node;
pub mod pacman;
