//! Core of a parametric configurator for modular framing hardware.
//!
//! A design is a set of placed, configured part instances together with an
//! ordered edit history. Edits are reversible operations (add, remove,
//! reconfigure, resize, move) that can be pushed onto the history, undone,
//! and redone; consecutive compatible edits are merged into one entry.
//!
//! The catalog of parts lives in [`component`] with its taxonomy modules;
//! placed instances and their validity rules in [`instance`]; the edit
//! operations and their exact apply/invert/merge semantics in
//! [`operation`]; the history engine in [`design`]; and the fixed-point
//! rigid transform in [`pose`].

pub mod component;
pub mod design;
pub mod end_cap;
pub mod extrude;
pub mod extrude_connector;
pub mod floor;
pub mod instance;
pub mod operation;
pub mod panel;
pub mod pose;

use vstd::prelude::*;

verus! {

} // verus!
