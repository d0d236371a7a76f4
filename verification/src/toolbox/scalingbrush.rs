//! Settings of the background scaling brush.
use vstd::prelude::*;

use crate::terrain_painting::{OverwriteProbability, TextureScale, Variance};
use crate::terrain_render::TerrainRenderSettings;
use super::texturebrush::chance;

verus! {

/// Settings of the background scaling brush.
#[derive(Debug, Clone, Copy, PartialEq, Eq, Structural)]
pub struct BrushSettings {
    pub scaling: TextureScale,
    /// Increase / reduce the value instead of setting it.
    pub adjust_values: bool,

    pub draw_probability: u8,
    pub variance: Variance,

    pub randomize: bool,
    pub use_variance: bool,

    pub show_bkgrnd_scaling: bool,
    pub picker_activated: bool,
}

impl BrushSettings {
    pub open spec fn spec_overwrite_probability(self) -> Option<OverwriteProbability> {
        chance(self.randomize, self.draw_probability)
    }

    pub open spec fn spec_value_variance(self) -> Option<Variance> {
        if self.use_variance { Some(self.variance) } else { None }
    }

    /// Chance of a texel to be changed, `None` where every texel is.
    pub fn overwrite_probability(&self) -> (res: Option<OverwriteProbability>)
        ensures
            res == self.spec_overwrite_probability(),
    {
        if self.randomize && self.draw_probability < 100 {
            Some(OverwriteProbability::from(self.draw_probability))
        } else {
            None
        }
    }

    /// Variance of the written value, if used.
    pub fn value_variance(&self) -> (res: Option<Variance>)
        ensures
            res == self.spec_value_variance(),
    {
        if self.use_variance {
            Some(self.variance)
        } else {
            None
        }
    }

    /// Render settings after syncing with this brush: background texture
    /// shown, and the scaling view, if the brush had chosen it, as the only
    /// exclusive view.
    pub open spec fn synced_rendersettings(self, rs: TerrainRenderSettings) -> TerrainRenderSettings {
        TerrainRenderSettings {
            ignore_bkgrnd_texture: false,
            show_bkgrnd_scaling: self.show_bkgrnd_scaling,
            ..rs.without_exclusive_view()
        }
    }

    /// Scaling applies to the background texture, which is switched on; a
    /// scaling view chosen before is shown again.
    pub fn sync_rendersettings(&mut self, settings: &mut TerrainRenderSettings)
        ensures
            *final(settings) == old(self).synced_rendersettings(*old(settings)),
            *final(self) == *old(self),
    {
        settings.reset_exclusive_view();

        settings.ignore_bkgrnd_texture = false;

        if self.show_bkgrnd_scaling {
            settings.show_bkgrnd_scaling = true;
        }
        self.show_bkgrnd_scaling = settings.show_bkgrnd_scaling;
    }
}

impl BrushSettings {
    /// The settings of a new scaling brush: adjusting values, half of the
    /// texels when randomized, variance 1 when used.
    pub open spec fn spec_default() -> BrushSettings {
        BrushSettings {
            scaling: TextureScale(0),
            adjust_values: true,
            draw_probability: 50,
            variance: Variance(1),
            randomize: false,
            use_variance: false,
            show_bkgrnd_scaling: false,
            picker_activated: false,
        }
    }
}

impl Default for BrushSettings {
    fn default() -> (res: BrushSettings)
        ensures
            res == BrushSettings::spec_default(),
    {
        BrushSettings {
            scaling: TextureScale(0),
            adjust_values: true,
            draw_probability: 50,
            variance: Variance(1),
            randomize: false,
            use_variance: false,
            show_bkgrnd_scaling: false,
            picker_activated: false,
        }
    }
}

} // verus!
