//! Values and commands of the terrain painting: what a brush click asks the
//! painter to write into the texturing maps, and what a picker reads back.
use vstd::prelude::*;

use crate::terrain_material::MaterialSlot;

verus! {

/// Chance in percent that a texel is changed by a randomized command.
#[derive(Debug, Clone, Copy, PartialEq, Eq, Structural)]
pub struct OverwriteProbability(pub u8);

/// Maximal random deviation from the value a command writes.
#[derive(Debug, Clone, Copy, PartialEq, Eq, Structural)]
pub struct Variance(pub u8);

/// Scaling of the background texture (stored in three bits).
#[derive(Debug, Clone, Copy, Default, PartialEq, Eq, Structural)]
pub struct TextureScale(pub u8);

/// Slope blend threshold (stored in three bits).
#[derive(Debug, Clone, Copy, Default, PartialEq, Eq, Structural)]
pub struct SlopeBlendThreshold(pub u8);

impl vstd::std_specs::convert::FromSpecImpl<u8> for OverwriteProbability {
    open spec fn obeys_from_spec() -> bool {
        true
    }

    open spec fn from_spec(v: u8) -> OverwriteProbability {
        OverwriteProbability(v)
    }
}

impl From<u8> for OverwriteProbability {
    fn from(v: u8) -> (res: OverwriteProbability) {
        OverwriteProbability(v)
    }
}

/// One painting operation on the texels under the brush.
#[derive(Debug, Clone, Copy, PartialEq, Eq, Structural)]
pub enum PaintCommand {
    SetOverlayMaterial(MaterialSlot),
    RandomizedSetOverlayMaterial(OverwriteProbability, MaterialSlot),
    SetBackgroundMaterial(MaterialSlot),
    RandomizedSetBackgroundMaterial(OverwriteProbability, MaterialSlot),

    SetSlopeBlendThreshold(SlopeBlendThreshold),
    SetSlopeBlendThresholdWithVariance(SlopeBlendThreshold, Variance),
    RandomizedSetSlopeBlendThreshold(OverwriteProbability, SlopeBlendThreshold),
    RandomizedSetSlopeBlendThresholdWithVariance(OverwriteProbability, SlopeBlendThreshold, Variance),
    IncreaseSlopeBlendThreshold,
    IncreaseSlopeBlendThresholdWithVariance(Variance),
    RandomizedIncreaseSlopeBlendThreshold(OverwriteProbability),
    RandomizedIncreaseSlopeBlendThresholdWithVariance(OverwriteProbability, Variance),
    ReduceSlopeBlendThreshold,
    ReduceSlopeBlendThresholdWithVariance(Variance),
    RandomizedReduceSlopeBlendThreshold(OverwriteProbability),
    RandomizedReduceSlopeBlendThresholdWithVariance(OverwriteProbability, Variance),

    SetBackgroundScaling(TextureScale),
    SetBackgroundScalingWithVariance(TextureScale, Variance),
    RandomizedSetBackgroundScaling(OverwriteProbability, TextureScale),
    RandomizedSetBackgroundScalingWithVariance(OverwriteProbability, TextureScale, Variance),
    IncreaseBackgroundScaling,
    IncreaseBackgroundScalingWithVariance(Variance),
    RandomizedIncreaseBackgroundScaling(OverwriteProbability),
    RandomizedIncreaseBackgroundScalingWithVariance(OverwriteProbability, Variance),
    ReduceBackgroundScaling,
    ReduceBackgroundScalingWithVariance(Variance),
    RandomizedReduceBackgroundScaling(OverwriteProbability),
    RandomizedReduceBackgroundScalingWithVariance(OverwriteProbability, Variance),
}

impl PaintCommand {
    /// The chance of a texel to be changed, for a randomized command; `None`
    /// for a command that changes every texel under the brush.
    pub open spec fn overwrite_chance(self) -> Option<OverwriteProbability> {
        match self {
            PaintCommand::RandomizedSetOverlayMaterial(p, _)
            | PaintCommand::RandomizedSetBackgroundMaterial(p, _)
            | PaintCommand::RandomizedSetSlopeBlendThreshold(p, _)
            | PaintCommand::RandomizedSetSlopeBlendThresholdWithVariance(p, _, _)
            | PaintCommand::RandomizedIncreaseSlopeBlendThreshold(p)
            | PaintCommand::RandomizedIncreaseSlopeBlendThresholdWithVariance(p, _)
            | PaintCommand::RandomizedReduceSlopeBlendThreshold(p)
            | PaintCommand::RandomizedReduceSlopeBlendThresholdWithVariance(p, _)
            | PaintCommand::RandomizedSetBackgroundScaling(p, _)
            | PaintCommand::RandomizedSetBackgroundScalingWithVariance(p, _, _)
            | PaintCommand::RandomizedIncreaseBackgroundScaling(p)
            | PaintCommand::RandomizedIncreaseBackgroundScalingWithVariance(p, _)
            | PaintCommand::RandomizedReduceBackgroundScaling(p)
            | PaintCommand::RandomizedReduceBackgroundScalingWithVariance(p, _) => Some(p),
            _ => None,
        }
    }

    /// The random deviation of the written value, for a command with one.
    pub open spec fn written_variance(self) -> Option<Variance> {
        match self {
            PaintCommand::SetSlopeBlendThresholdWithVariance(_, v)
            | PaintCommand::RandomizedSetSlopeBlendThresholdWithVariance(_, _, v)
            | PaintCommand::IncreaseSlopeBlendThresholdWithVariance(v)
            | PaintCommand::RandomizedIncreaseSlopeBlendThresholdWithVariance(_, v)
            | PaintCommand::ReduceSlopeBlendThresholdWithVariance(v)
            | PaintCommand::RandomizedReduceSlopeBlendThresholdWithVariance(_, v)
            | PaintCommand::SetBackgroundScalingWithVariance(_, v)
            | PaintCommand::RandomizedSetBackgroundScalingWithVariance(_, _, v)
            | PaintCommand::IncreaseBackgroundScalingWithVariance(v)
            | PaintCommand::RandomizedIncreaseBackgroundScalingWithVariance(_, v)
            | PaintCommand::ReduceBackgroundScalingWithVariance(v)
            | PaintCommand::RandomizedReduceBackgroundScalingWithVariance(_, v) => Some(v),
            _ => None,
        }
    }

    /// The overlay material the command paints, if it paints one.
    pub open spec fn painted_overlay(self) -> Option<MaterialSlot> {
        match self {
            PaintCommand::SetOverlayMaterial(m) | PaintCommand::RandomizedSetOverlayMaterial(_, m) => Some(m),
            _ => None,
        }
    }

    /// The background material the command paints, if it paints one.
    pub open spec fn painted_background(self) -> Option<MaterialSlot> {
        match self {
            PaintCommand::SetBackgroundMaterial(m) | PaintCommand::RandomizedSetBackgroundMaterial(_, m) => Some(m),
            _ => None,
        }
    }

    /// The slope blend threshold the command writes, if it sets one.
    pub open spec fn assigned_slope_blend(self) -> Option<SlopeBlendThreshold> {
        match self {
            PaintCommand::SetSlopeBlendThreshold(t)
            | PaintCommand::SetSlopeBlendThresholdWithVariance(t, _)
            | PaintCommand::RandomizedSetSlopeBlendThreshold(_, t)
            | PaintCommand::RandomizedSetSlopeBlendThresholdWithVariance(_, t, _) => Some(t),
            _ => None,
        }
    }

    /// The command raises the slope blend threshold.
    pub open spec fn raises_slope_blend(self) -> bool {
        match self {
            PaintCommand::IncreaseSlopeBlendThreshold
            | PaintCommand::IncreaseSlopeBlendThresholdWithVariance(_)
            | PaintCommand::RandomizedIncreaseSlopeBlendThreshold(_)
            | PaintCommand::RandomizedIncreaseSlopeBlendThresholdWithVariance(_, _) => true,
            _ => false,
        }
    }

    /// The command lowers the slope blend threshold.
    pub open spec fn lowers_slope_blend(self) -> bool {
        match self {
            PaintCommand::ReduceSlopeBlendThreshold
            | PaintCommand::ReduceSlopeBlendThresholdWithVariance(_)
            | PaintCommand::RandomizedReduceSlopeBlendThreshold(_)
            | PaintCommand::RandomizedReduceSlopeBlendThresholdWithVariance(_, _) => true,
            _ => false,
        }
    }

    /// The background scaling the command writes, if it sets one.
    pub open spec fn assigned_scaling(self) -> Option<TextureScale> {
        match self {
            PaintCommand::SetBackgroundScaling(t)
            | PaintCommand::SetBackgroundScalingWithVariance(t, _)
            | PaintCommand::RandomizedSetBackgroundScaling(_, t)
            | PaintCommand::RandomizedSetBackgroundScalingWithVariance(_, t, _) => Some(t),
            _ => None,
        }
    }

    /// The command raises the background scaling.
    pub open spec fn raises_scaling(self) -> bool {
        match self {
            PaintCommand::IncreaseBackgroundScaling
            | PaintCommand::IncreaseBackgroundScalingWithVariance(_)
            | PaintCommand::RandomizedIncreaseBackgroundScaling(_)
            | PaintCommand::RandomizedIncreaseBackgroundScalingWithVariance(_, _) => true,
            _ => false,
        }
    }

    /// The command lowers the background scaling.
    pub open spec fn lowers_scaling(self) -> bool {
        match self {
            PaintCommand::ReduceBackgroundScaling
            | PaintCommand::ReduceBackgroundScalingWithVariance(_)
            | PaintCommand::RandomizedReduceBackgroundScaling(_)
            | PaintCommand::RandomizedReduceBackgroundScalingWithVariance(_, _) => true,
            _ => false,
        }
    }
}

/// What a picker click reads from the texel under the brush.
#[derive(Debug, Clone, Copy, PartialEq, Eq, Structural)]
pub enum PickedType {
    OverlayTexture,
    BackgroundTexture,
    SlopeBlendThreshold,
    BackgroundScaling,
}

/// A value read by a picker.
#[derive(Debug, Clone, Copy, PartialEq, Eq, Structural)]
pub enum PickerResult {
    OverlayTexture(MaterialSlot),
    BackgroundTexture(MaterialSlot),
    BlendThreshold(SlopeBlendThreshold),
    BackgroundScaling(TextureScale),
}

/// Mouse button of a brush click.
#[derive(Debug, Clone, Copy, PartialEq, Eq, Structural)]
pub enum PointerButton {
    Left,
    Right,
    Middle,
    Other(u16),
}

} // verus!
