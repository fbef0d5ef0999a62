//! Panels: flat boards mounted into or onto a frame.

use vstd::prelude::*;

verus! {

/// Material of a panel part.
#[derive(Clone, Copy, Debug, PartialEq, Eq)]
pub enum PanelData {
    Wood,
}

} // verus!
