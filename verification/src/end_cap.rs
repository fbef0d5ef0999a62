//! End caps that close off the open section of an extrusion profile.

use vstd::prelude::*;

verus! {

/// An end cap, by the profile series it fits.
#[derive(Clone, Copy, Debug, PartialEq, Eq)]
pub enum EndCapData {
    S20(EndCapShape),
    S30(EndCapShape),
    S40(EndCapShape),
}

/// Cross-section shape of an end cap.
#[derive(Clone, Copy, Debug, PartialEq, Eq)]
pub enum EndCapShape {
    Square,
    Arc,
    Rect,
}

} // verus!
