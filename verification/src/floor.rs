//! Floor hardware: wheels and feet that a frame stands on.

use vstd::prelude::*;

verus! {

/// Floor-contact hardware of a frame.
#[derive(Clone, Copy, Debug, PartialEq, Eq)]
pub enum FloorData {
    Wheel(WheelData),
    Foot(FootData),
}

/// A wheel, by maker and model line.
#[derive(Clone, Copy, Debug, PartialEq, Eq)]
pub enum WheelData {
    Fuma(FumaWheelData),
}

/// Fuma wheel models: diameter in millimetres, fixed (`F`) or swivel (`S`).
#[derive(Clone, Copy, Debug, PartialEq, Eq)]
pub enum FumaWheelData {
    _40F,
    _60F,
    _80F,
    _100F,
    _120F,
    _150F,
    _40S,
    _60S,
    _80S,
    _100S,
    _120S,
    _150S,
}

/// A levelling foot, by load rating.
#[derive(Clone, Copy, Debug, PartialEq, Eq)]
pub enum FootData {
    OrangeHeavy,
}

} // verus!
