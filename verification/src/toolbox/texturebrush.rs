//! Settings of the texture brush.
use vstd::prelude::*;

use crate::terrain_material::MaterialSlot;
use crate::terrain_painting::{OverwriteProbability, SlopeBlendThreshold, TextureScale};
use crate::terrain_render::TerrainRenderSettings;

verus! {

/// Which materials the texture brush paints.
#[derive(Debug, Clone, Copy, PartialEq, Eq, Structural)]
pub enum BrushTexturesUsed {
    Overlay,
    Background,
    OverlayAndBackground,
}

impl Default for BrushTexturesUsed {
    fn default() -> (res: BrushTexturesUsed)
        ensures
            res == BrushTexturesUsed::OverlayAndBackground,
    {
        BrushTexturesUsed::OverlayAndBackground
    }
}

/// Settings of the texture brush.
#[derive(Debug, Clone, Copy)]
pub struct BrushSettings {
    pub overlay_texture: MaterialSlot,
    pub bkgrnd_texture: MaterialSlot,
    pub scaling: TextureScale,
    pub slope_blend: SlopeBlendThreshold,
    /// Chances in percent to paint the overlay and the background material.
    pub texture_probabilities: (u8, u8),

    pub textures_used: BrushTexturesUsed,
    pub overwrite_scale: bool,
    pub overwrite_slope_blend: bool,
    pub randomize: bool,

    pub picker_activated: bool,
    pub show_only_overlay: bool,
    pub show_only_background: bool,
}

/// The chance to use for a randomized overwrite: none when not randomized or
/// certain (100 percent or more).
pub open spec fn chance(randomize: bool, percent: u8) -> Option<OverwriteProbability> {
    if randomize && percent < 100 { Some(OverwriteProbability(percent)) } else { None }
}

impl BrushSettings {
    /// Chances of the overlay and the background overwrite.
    pub open spec fn spec_texture_probabilities(self) -> (Option<OverwriteProbability>, Option<OverwriteProbability>) {
        (chance(self.randomize, self.texture_probabilities.0), chance(self.randomize, self.texture_probabilities.1))
    }

    /// Chances of the overlay and the background overwrite, `None` where the
    /// material is set everywhere.
    pub fn texture_probabilities(&self) -> (res: (Option<OverwriteProbability>, Option<OverwriteProbability>))
        ensures
            res == self.spec_texture_probabilities(),
    {
        if self.randomize {
            let mut overlay = None;
            let mut bkgrnd = None;

            if self.texture_probabilities.0 < 100 {
                overlay = Some(OverwriteProbability::from(self.texture_probabilities.0));
            }
            if self.texture_probabilities.1 < 100 {
                bkgrnd = Some(OverwriteProbability::from(self.texture_probabilities.1));
            }
            (overlay, bkgrnd)
        } else {
            (None, None)
        }
    }

    /// Render settings after syncing with this brush: no exclusive view, and
    /// a "show only" choice of the brush applied again.
    pub open spec fn synced_rendersettings(self, rs: TerrainRenderSettings) -> TerrainRenderSettings {
        let base = rs.without_exclusive_view();
        if self.show_only_overlay {
            TerrainRenderSettings { ignore_bkgrnd_texture: true, ignore_overlay_texture: false, ..base }
        } else if self.show_only_background {
            TerrainRenderSettings { ignore_overlay_texture: true, ignore_bkgrnd_texture: false, ..base }
        } else {
            base
        }
    }

    /// The brush with its "show only" choices read from `rs`.
    pub open spec fn synced_with(self, rs: TerrainRenderSettings) -> BrushSettings {
        BrushSettings {
            show_only_overlay: rs.ignore_bkgrnd_texture && !rs.ignore_overlay_texture,
            show_only_background: rs.ignore_overlay_texture && !rs.ignore_bkgrnd_texture,
            ..self
        }
    }

    /// Makes the render settings show what this brush works on.
    pub fn sync_rendersettings(&mut self, settings: &mut TerrainRenderSettings)
        ensures
            *final(settings) == old(self).synced_rendersettings(*old(settings)),
            *final(self) == old(self).synced_with(*final(settings)),
    {
        settings.reset_exclusive_view();

        // a previously chosen "show only" is applied again
        if self.show_only_overlay {
            settings.ignore_bkgrnd_texture = true;
            settings.ignore_overlay_texture = false;
        } else if self.show_only_background {
            settings.ignore_overlay_texture = true;
            settings.ignore_bkgrnd_texture = false;
        }
        self.show_only_overlay = settings.ignore_bkgrnd_texture && !settings.ignore_overlay_texture;
        self.show_only_background = settings.ignore_overlay_texture && !settings.ignore_bkgrnd_texture;
    }
}

impl BrushSettings {
    /// The settings of a new texture brush: overlay material 2 over
    /// background material 1, both painted everywhere.
    pub open spec fn spec_default() -> BrushSettings {
        BrushSettings {
            overlay_texture: MaterialSlot(2),
            bkgrnd_texture: MaterialSlot(1),
            scaling: TextureScale(0),
            slope_blend: SlopeBlendThreshold(0),
            texture_probabilities: (50u8, 50u8),
            textures_used: BrushTexturesUsed::OverlayAndBackground,
            overwrite_scale: false,
            overwrite_slope_blend: false,
            randomize: false,
            picker_activated: false,
            show_only_overlay: false,
            show_only_background: false,
        }
    }
}

impl Default for BrushSettings {
    fn default() -> (res: BrushSettings)
        ensures
            res == BrushSettings::spec_default(),
    {
        BrushSettings {
            overlay_texture: MaterialSlot::from(2),
            bkgrnd_texture: MaterialSlot::from(1),
            scaling: TextureScale(0),
            slope_blend: SlopeBlendThreshold(0),
            texture_probabilities: (50, 50),
            textures_used: BrushTexturesUsed::OverlayAndBackground,
            randomize: false,
            overwrite_scale: false,
            overwrite_slope_blend: false,
            picker_activated: false,
            show_only_overlay: false,
            show_only_background: false,
        }
    }
}

} // verus!
