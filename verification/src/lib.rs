//! The compositions behind the damage, heal and shield values of a character:
//! for each quantity (attack, multipliers, bonuses, reaction bonuses, ...), the
//! amount that each source contributes, gathered from an attribute graph and
//! from the extra amounts of a damage builder.
//!
//! Every quantity is a fixed-point integer: `composition::UNIT` stands for 1.0.

pub mod element;
pub mod composition;
pub mod reaction;
pub mod attribute_name;
pub mod attribute_graph;
pub mod builder;
pub mod analysis;
