//! The closed variant sets that parameterise the colour pipeline.
//!
//! `ColourSpace` and `ColourTransferCharacteristic` are the values accepted
//! on the command line; `ColorPrimaries` and `TransferCharacteristic` are
//! the parameter sets the metric pipeline understands. The mappings between
//! them live in `converters`.

use vstd::prelude::*;

verus! {

/// Colour primaries as named on the command line, including the reserved
/// and unspecified slots of the underlying signalling table.
#[derive(Clone, Copy, Debug, PartialEq, Eq, Structural)]
pub enum ColourSpace {
    Reserved0,
    BT709,
    Unspecified,
    Reserved,
    BT470M,
    BT470BG,
    ST170M,
    ST240M,
    Film,
    BT2020,
    ST428,
    P3DCI,
    P3Display,
    Tech3213,
}

/// Transfer characteristics as named on the command line, including the
/// reserved and unspecified slots of the underlying signalling table.
#[derive(Clone, Copy, Debug, PartialEq, Eq, Structural)]
pub enum ColourTransferCharacteristic {
    Reserved0,
    BT1886,
    Unspecified,
    Reserved,
    BT470M,
    BT470BG,
    ST170M,
    ST240M,
    Linear,
    Logarithmic100,
    Logarithmic316,
    XVYCC,
    BT1361E,
    SRGB,
    BT2020Ten,
    BT2020Twelve,
    PerceptualQuantizer,
    ST428,
    HybridLogGamma,
}

/// The colour-primaries values the metric pipeline accepts.
#[derive(Clone, Copy, Debug, PartialEq, Eq, Structural)]
pub enum ColorPrimaries {
    BT709,
    BT470M,
    BT470BG,
    ST170M,
    ST240M,
    Film,
    BT2020,
    ST428,
    P3DCI,
    P3Display,
    Tech3213,
}

/// The transfer-characteristic values the metric pipeline accepts.
#[derive(Clone, Copy, Debug, PartialEq, Eq, Structural)]
pub enum TransferCharacteristic {
    BT1886,
    BT470M,
    BT470BG,
    ST170M,
    ST240M,
    Linear,
    Logarithmic100,
    Logarithmic316,
    XVYCC,
    BT1361E,
    SRGB,
    BT2020Ten,
    BT2020Twelve,
    PerceptualQuantizer,
    ST428,
    HybridLogGamma,
}

} // verus!
