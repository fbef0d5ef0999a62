//! Connector hardware for extrusion profiles: brackets, slot connectors,
//! plates, nuts, bolts, and elastic fasteners.

use vstd::prelude::*;

verus! {

/// A connector part for extrusion profiles.
#[derive(Clone, Copy, Debug, PartialEq, Eq)]
pub enum ExtrudeConnectorData {
    Bracket(BracketData),
    SlotBracket(SlotBracketData),
    ConnectorPlate(ConnectorPlateData),
    Nut(NutData),
    Bolt(BoltData),
    ElasticFastener(ElasticFastenerData),
}

/// A corner bracket.
#[derive(Clone, Copy, Debug, PartialEq, Eq)]
pub struct BracketData {
    pub series: BracketSeries,
    pub load: BracketLoad,
    pub surface: BracketSurface,
    pub manufacture_method: BracketManufactureMethod,
}

/// Profile pairings a bracket spans.
#[derive(Clone, Copy, Debug, PartialEq, Eq)]
pub enum BracketSeries {
    S2020,
    S3030,
    S3060,
    S6060,
    S4040,
    S4080,
    S8080,
}

/// Load rating of a bracket.
#[derive(Clone, Copy, Debug, PartialEq, Eq)]
pub enum BracketLoad {
    Light(BracketLightLoadSide),
    Standard,
    Strong,
    Heavy,
}

/// Whether a light bracket has one or two fastening sides.
#[derive(Clone, Copy, Debug, PartialEq, Eq)]
pub enum BracketLightLoadSide {
    Single,
    Double,
}

/// Surface finish of a bracket.
#[derive(Clone, Copy, Debug, PartialEq, Eq)]
pub enum BracketSurface {
    White,
    Black,
}

/// How a bracket is made.
#[derive(Clone, Copy, Debug, PartialEq, Eq)]
pub enum BracketManufactureMethod {
    Casting,
    Extrusion(BracketAngle),
}

/// Opening angle of an extruded bracket, in degrees.
#[derive(Clone, Copy, Debug, PartialEq, Eq)]
pub enum BracketAngle {
    _45,
    _135,
}

/// A connector that sits inside a profile slot.
#[derive(Clone, Copy, Debug, PartialEq, Eq)]
pub struct SlotBracketData {
    pub series: SlotBracketSeries,
    pub material: SlotBracketMaterial,
}

/// Profile series a slot bracket fits.
#[derive(Clone, Copy, Debug, PartialEq, Eq)]
pub enum SlotBracketSeries {
    S20,
    S30,
    S40,
}

/// Material of a slot bracket.
#[derive(Clone, Copy, Debug, PartialEq, Eq)]
pub enum SlotBracketMaterial {
    ZincAlloy,
    Steel,
}

/// A flat connecting plate.
#[derive(Clone, Copy, Debug, PartialEq, Eq)]
pub enum ConnectorPlateData {
    Outer(OuterConnectorPlateData),
    Inner(InnerConnectorPlateData),
}

/// A plate mounted on the outside of profiles.
#[derive(Clone, Copy, Debug, PartialEq, Eq)]
pub struct OuterConnectorPlateData {
    pub plate_type: OuterConnectorPlateType,
}

/// Outline of an outer plate.
#[derive(Clone, Copy, Debug, PartialEq, Eq)]
pub enum OuterConnectorPlateType {
    T,
    L,
}

/// A plate mounted inside profile slots.
#[derive(Clone, Copy, Debug, PartialEq, Eq)]
pub struct InnerConnectorPlateData {
    pub plate_type: InnerConnectorPlateType,
    pub hole: Hole,
}

/// Outline of an inner plate.
#[derive(Clone, Copy, Debug, PartialEq, Eq)]
pub enum InnerConnectorPlateType {
    L,
    Line,
}

/// A nut, either an ordinary one or one shaped for a profile slot.
#[derive(Clone, Copy, Debug, PartialEq, Eq)]
pub enum NutData {
    Normal(NormalNutData),
    Extrude(ExtrudeNutData),
}

/// An ordinary nut.
#[derive(Clone, Copy, Debug, PartialEq, Eq)]
pub struct NormalNutData {
    pub nut_type: NormalNutType,
    pub hole: Hole,
}

/// Kind of an ordinary nut.
#[derive(Clone, Copy, Debug, PartialEq, Eq)]
pub enum NormalNutType {
    FlangeNut,
}

/// A nut shaped for a profile slot.
#[derive(Clone, Copy, Debug, PartialEq, Eq)]
pub struct ExtrudeNutData {
    pub extrude_nut_type: ExtrudeNutType,
    pub series: ExtrudeNutSeries,
    pub hole: Hole,
}

/// Slot width a profile nut fits.
#[derive(Clone, Copy, Debug, PartialEq, Eq)]
pub enum ExtrudeNutSeries {
    SW4mm,
    SW8mm,
    SW10mm,
}

/// Kind of a profile nut.
#[derive(Clone, Copy, Debug, PartialEq, Eq)]
pub enum ExtrudeNutType {
    Slide,
    T,
    SpringPlate,
    SpringBall,
}

/// Metric thread size.
#[derive(Clone, Copy, Debug, PartialEq, Eq)]
pub enum Hole {
    M4,
    M5,
    M6,
    M7,
    M8,
    M10,
    M12,
}

/// Thread designation of a screw interface.
#[derive(Clone, Copy, Debug, PartialEq, Eq)]
pub enum ScrewType {
    M4,
    M5,
    M6,
    M8,
    M10,
    M12,
    M14,
}

/// A bolt, either an ordinary one or one shaped for a profile slot.
#[derive(Clone, Copy, Debug, PartialEq, Eq)]
pub enum BoltData {
    Normal(NormalBoltData),
    Extrude(ExtrudeBoltData),
}

/// An ordinary bolt.
#[derive(Clone, Copy, Debug, PartialEq, Eq)]
pub struct NormalBoltData {
    pub bolt_type: NormalBoltType,
    pub slot_width: u8,
    pub bolt_length: u16,
}

/// Head shape of an ordinary bolt.
#[derive(Clone, Copy, Debug, PartialEq, Eq)]
pub enum NormalBoltType {
    HalfSphere,
    Plate,
    Cylinder,
}

/// A bolt shaped for a profile slot.
#[derive(Clone, Copy, Debug, PartialEq, Eq)]
pub struct ExtrudeBoltData {
    pub extrude_bolt_type: ExtrudeBoltType,
    pub hole: Hole,
    /// Length in hundredths of a millimetre.
    pub bolt_length: u32,
}

/// Kind of a profile bolt.
#[derive(Clone, Copy, Debug, PartialEq, Eq)]
pub enum ExtrudeBoltType {
    T,
}

/// An elastic fastener clipped into a profile slot.
#[derive(Clone, Copy, Debug, PartialEq, Eq)]
pub struct ElasticFastenerData {
    pub series: ElasticFastenerSeries,
}

/// Profile series an elastic fastener fits.
#[derive(Clone, Copy, Debug, PartialEq, Eq)]
pub enum ElasticFastenerSeries {
    S30,
    S40,
}

} // verus!
