//! Aluminium extrusion profiles and the manufacturing constraints they
//! expose: standard, cross-section shape, and post-processing envelope.

use vstd::prelude::*;

verus! {

/// A catalog extrusion profile.
#[derive(Clone, Debug)]
pub struct ExtrudeData {
    pub standard: ExtrudeStandard,
    pub shape: ExtrudeShape,
    pub post_process: ExtrudePostProcess,
}

/// Standard an extrusion profile is made to.
#[derive(Clone, Copy, Debug, PartialEq, Eq)]
pub struct ExtrudeStandard {
    pub series: ExtrudeSeries,
    pub metarial: Metarial,
    pub surface: ExtrudeSurface,
}

/// Surface treatment of a profile.
#[derive(Clone, Copy, Debug, PartialEq, Eq)]
pub enum ExtrudeSurface {
    /// Anodized, 10 um layer.
    AA10,
}

/// Alloy and temper of a profile.
#[derive(Clone, Copy, Debug, PartialEq, Eq)]
pub enum Metarial {
    _6063T5,
}

/// Profile series, named by the base module in millimetres.
#[derive(Clone, Copy, Debug, PartialEq, Eq)]
pub enum ExtrudeSeries {
    /// 20 series, 6 mm slot.
    S20(),
    /// 30 series, 8 mm slot.
    S30(),
    /// 40 series, 8 mm slot.
    S40(S40ExtrudeSlotDepth),
}

/// Slot depth offered in the 40 series.
#[derive(Clone, Copy, Debug, PartialEq, Eq)]
pub enum S40ExtrudeSlotDepth {
    SlotDepth14_7mm,
    SlotDepth12_3mm,
}

/// Cross-section of a profile.
#[derive(Clone, Debug)]
pub struct ExtrudeShape {
    pub name: String,
    pub shape: ExtrudeShapeEnum,
    pub holes_count: u8,
}

/// Section outline of a profile.
#[derive(Clone, Copy, Debug, PartialEq, Eq)]
pub enum ExtrudeShapeEnum {
    Square(ExtrudeSquareShape),
    /// Long-side to short-side ratio, and the slot layout.
    Rect(u8, ExtrudeRectShape),
}

/// Slot layout of a square profile.
#[derive(Clone, Copy, Debug, PartialEq, Eq)]
pub enum ExtrudeSquareShape {
    FourSlot,
    ThreeSlot,
    TwoSlotOppositeSide,
    OneSlot,
    Arc,
    Bevel,
}

/// Slot layout of a rectangular profile.
#[derive(Clone, Copy, Debug, PartialEq, Eq)]
pub enum ExtrudeRectShape {
    FourSlot,
    ThreeSlot,
    TwoSlot,
    TwoSlotOppositeSide,
}

/// Post-processing a profile's maker offers, and the length envelope a cut
/// must satisfy.
#[derive(Clone, Copy, Debug, PartialEq, Eq)]
pub struct ExtrudePostProcess {
    pub drill: Drill,
    pub bevel_cut: bool,
    pub wrench_hole: bool,
    pub wrench_hole_size: u8,
    pub counterbore: bool,
    pub counterbore_size: CounterboreSize,
    pub length: ExtrudeLength,
}

/// Length envelope of a profile, in hundredths of a millimetre: a cut
/// length must lie in `[min, max]` and be a multiple of `step`.
#[derive(Clone, Copy, Debug, PartialEq, Eq)]
pub struct ExtrudeLength {
    pub min: u32,
    pub max: u32,
    pub step: u32,
}

/// Tap size and depth of an end drilling.
#[derive(Clone, Copy, Debug, PartialEq, Eq)]
pub enum Drill {
    M6_15mm,
    M8_20mm,
    M8_25mm,
    M12_30mm,
    M14_30mm,
}

/// Counterbore diameter class.
#[derive(Clone, Copy, Debug, PartialEq, Eq)]
pub enum CounterboreSize {
    /// d = 11 mm, d1 = 6.6 mm.
    Z6,
    /// d = 14 mm, d1 = 9 mm.
    Z8,
    /// d = 19 mm, d1 = 13 mm.
    Z12,
}

} // verus!
