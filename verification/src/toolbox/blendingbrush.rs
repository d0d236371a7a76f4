//! Settings of the slope blend brush.
use vstd::prelude::*;

use crate::terrain_painting::{OverwriteProbability, SlopeBlendThreshold, Variance};
use crate::terrain_render::TerrainRenderSettings;
use super::texturebrush::chance;

verus! {

/// Settings of the slope blend brush.
#[derive(Debug, Clone, Copy, PartialEq, Eq, Structural)]
pub struct BrushSettings {
    pub slope_blend: SlopeBlendThreshold,
    /// Increase / reduce the value instead of setting it.
    pub adjust_values: bool,

    pub draw_probability: u8,
    pub variance: Variance,

    pub randomize: bool,
    pub use_variance: bool,

    pub show_blend_threshold: bool,
    pub picker_activated: bool,
}

impl BrushSettings {
    pub open spec fn spec_overwrite_probability(self) -> Option<OverwriteProbability> {
        chance(self.randomize, self.draw_probability)
    }

    pub open spec fn spec_value_variance(self) -> Option<Variance> {
        if self.use_variance { Some(self.variance) } else { None }
    }

    /// Chance of a texel to be changed, `None` where every texel is.
    pub fn overwrite_probability(&self) -> (res: Option<OverwriteProbability>)
        ensures
            res == self.spec_overwrite_probability(),
    {
        if self.randomize && self.draw_probability < 100 {
            Some(OverwriteProbability::from(self.draw_probability))
        } else {
            None
        }
    }

    /// Variance of the written value, if used.
    pub fn value_variance(&self) -> (res: Option<Variance>)
        ensures
            res == self.spec_value_variance(),
    {
        if self.use_variance {
            Some(self.variance)
        } else {
            None
        }
    }

    /// Render settings after syncing with this brush: both textures shown,
    /// and the blend threshold view, if the brush had chosen it, as the only
    /// exclusive view.
    pub open spec fn synced_rendersettings(self, rs: TerrainRenderSettings) -> TerrainRenderSettings {
        TerrainRenderSettings {
            ignore_overlay_texture: false,
            ignore_bkgrnd_texture: false,
            show_blend_threshold: self.show_blend_threshold,
            ..rs.without_exclusive_view()
        }
    }

    /// Blending is only visible with both textures; a blend threshold view
    /// chosen before is shown again.
    pub fn sync_rendersettings(&mut self, settings: &mut TerrainRenderSettings)
        ensures
            *final(settings) == old(self).synced_rendersettings(*old(settings)),
            *final(self) == *old(self),
    {
        settings.reset_exclusive_view();

        settings.ignore_overlay_texture = false;
        settings.ignore_bkgrnd_texture = false;

        if self.show_blend_threshold {
            settings.show_blend_threshold = true;
        }
        self.show_blend_threshold = settings.show_blend_threshold;
    }
}

impl BrushSettings {
    /// The settings of a new slope blend brush: adjusting values, a quarter
    /// of the texels when randomized, variance 2 when used.
    pub open spec fn spec_default() -> BrushSettings {
        BrushSettings {
            slope_blend: SlopeBlendThreshold(0),
            adjust_values: true,
            draw_probability: 25,
            variance: Variance(2),
            randomize: false,
            use_variance: false,
            show_blend_threshold: false,
            picker_activated: false,
        }
    }
}

impl Default for BrushSettings {
    fn default() -> (res: BrushSettings)
        ensures
            res == BrushSettings::spec_default(),
    {
        BrushSettings {
            slope_blend: SlopeBlendThreshold(0),
            adjust_values: true,
            draw_probability: 25,
            variance: Variance(2),
            randomize: false,
            use_variance: false,
            show_blend_threshold: false,
            picker_activated: false,
        }
    }
}

} // verus!
