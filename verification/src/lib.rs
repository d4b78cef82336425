//! Engine for a role-assignment button message: laying out role options as a
//! grid of button controls, validating the arguments of a "create" command,
//! and resolving a button activation into a role-membership toggle decision.

pub mod activation;
pub mod create;
pub mod engine;
pub mod grid_layout;
pub mod model;
pub mod numerals;
