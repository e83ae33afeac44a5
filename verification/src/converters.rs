//! Total mappings from the command-line colour enums to the pipeline's
//! parameter sets.
//!
//! Reserved and unspecified variants deliberately fall back to the
//! defaults (BT.709 primaries, sRGB transfer): that is a policy choice of
//! the tool, not an oversight.

use vstd::prelude::*;

use crate::enums::{ColorPrimaries, ColourSpace, ColourTransferCharacteristic,
    TransferCharacteristic};

verus! {

/// The colour primaries each command-line value stands for; everything
/// without a pipeline counterpart falls back to BT.709.
pub open spec fn primaries_of(cs: ColourSpace) -> ColorPrimaries {
    match cs {
        ColourSpace::BT470M => ColorPrimaries::BT470M,
        ColourSpace::BT470BG => ColorPrimaries::BT470BG,
        ColourSpace::ST170M => ColorPrimaries::ST170M,
        ColourSpace::ST240M => ColorPrimaries::ST240M,
        ColourSpace::Film => ColorPrimaries::Film,
        ColourSpace::BT2020 => ColorPrimaries::BT2020,
        ColourSpace::ST428 => ColorPrimaries::ST428,
        ColourSpace::P3DCI => ColorPrimaries::P3DCI,
        ColourSpace::P3Display => ColorPrimaries::P3Display,
        ColourSpace::Tech3213 => ColorPrimaries::Tech3213,
        _ => ColorPrimaries::BT709,
    }
}

/// The transfer characteristic each command-line value stands for;
/// everything without a pipeline counterpart falls back to sRGB.
pub open spec fn transfer_of(ct: ColourTransferCharacteristic) -> TransferCharacteristic {
    match ct {
        ColourTransferCharacteristic::BT1886 => TransferCharacteristic::BT1886,
        ColourTransferCharacteristic::BT470M => TransferCharacteristic::BT470M,
        ColourTransferCharacteristic::BT470BG => TransferCharacteristic::BT470BG,
        ColourTransferCharacteristic::ST170M => TransferCharacteristic::ST170M,
        ColourTransferCharacteristic::ST240M => TransferCharacteristic::ST240M,
        ColourTransferCharacteristic::Linear => TransferCharacteristic::Linear,
        ColourTransferCharacteristic::Logarithmic100 => TransferCharacteristic::Logarithmic100,
        ColourTransferCharacteristic::Logarithmic316 => TransferCharacteristic::Logarithmic316,
        ColourTransferCharacteristic::XVYCC => TransferCharacteristic::XVYCC,
        ColourTransferCharacteristic::BT1361E => TransferCharacteristic::BT1361E,
        ColourTransferCharacteristic::BT2020Ten => TransferCharacteristic::BT2020Ten,
        ColourTransferCharacteristic::BT2020Twelve => TransferCharacteristic::BT2020Twelve,
        ColourTransferCharacteristic::PerceptualQuantizer =>
            TransferCharacteristic::PerceptualQuantizer,
        ColourTransferCharacteristic::ST428 => TransferCharacteristic::ST428,
        ColourTransferCharacteristic::HybridLogGamma => TransferCharacteristic::HybridLogGamma,
        _ => TransferCharacteristic::SRGB,
    }
}

/// Maps a command-line colour space to the pipeline's colour primaries.
pub fn colour_space_to_color_primaries(cs: &ColourSpace) -> (r: ColorPrimaries)
    ensures
        r == primaries_of(*cs),
{
    match cs {
        ColourSpace::BT470M => ColorPrimaries::BT470M,
        ColourSpace::BT470BG => ColorPrimaries::BT470BG,
        ColourSpace::ST170M => ColorPrimaries::ST170M,
        ColourSpace::ST240M => ColorPrimaries::ST240M,
        ColourSpace::Film => ColorPrimaries::Film,
        ColourSpace::BT2020 => ColorPrimaries::BT2020,
        ColourSpace::ST428 => ColorPrimaries::ST428,
        ColourSpace::P3DCI => ColorPrimaries::P3DCI,
        ColourSpace::P3Display => ColorPrimaries::P3Display,
        ColourSpace::Tech3213 => ColorPrimaries::Tech3213,
        _ => ColorPrimaries::BT709,
    }
}

/// Maps a command-line transfer curve to the pipeline's transfer
/// characteristic.
pub fn colour_transfer_to_transfer_char(ct: &ColourTransferCharacteristic)
    -> (r: TransferCharacteristic)
    ensures
        r == transfer_of(*ct),
{
    match ct {
        ColourTransferCharacteristic::BT1886 => TransferCharacteristic::BT1886,
        ColourTransferCharacteristic::BT470M => TransferCharacteristic::BT470M,
        ColourTransferCharacteristic::BT470BG => TransferCharacteristic::BT470BG,
        ColourTransferCharacteristic::ST170M => TransferCharacteristic::ST170M,
        ColourTransferCharacteristic::ST240M => TransferCharacteristic::ST240M,
        ColourTransferCharacteristic::Linear => TransferCharacteristic::Linear,
        ColourTransferCharacteristic::Logarithmic100 => TransferCharacteristic::Logarithmic100,
        ColourTransferCharacteristic::Logarithmic316 => TransferCharacteristic::Logarithmic316,
        ColourTransferCharacteristic::XVYCC => TransferCharacteristic::XVYCC,
        ColourTransferCharacteristic::BT1361E => TransferCharacteristic::BT1361E,
        ColourTransferCharacteristic::BT2020Ten => TransferCharacteristic::BT2020Ten,
        ColourTransferCharacteristic::BT2020Twelve => TransferCharacteristic::BT2020Twelve,
        ColourTransferCharacteristic::PerceptualQuantizer =>
            TransferCharacteristic::PerceptualQuantizer,
        ColourTransferCharacteristic::ST428 => TransferCharacteristic::ST428,
        ColourTransferCharacteristic::HybridLogGamma => TransferCharacteristic::HybridLogGamma,
        _ => TransferCharacteristic::SRGB,
    }
}

} // verus!
