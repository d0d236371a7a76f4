//! Toolbox updates: what a brush click paints or picks, and how the render
//! settings and the selected tool follow the user's choices.
use vstd::prelude::*;

use crate::terrain_painting::{
    OverwriteProbability, PaintCommand, PickedType, PointerButton, SlopeBlendThreshold, TextureScale,
    Variance,
};
use crate::terrain_render::TerrainRenderSettings;
use super::texturebrush::BrushTexturesUsed;
use super::{blendingbrush, scalingbrush, texturebrush, ToolSelection, ToolboxState};

verus! {

/// How a value brush changes the value under it.
#[derive(Debug, Clone, Copy, PartialEq, Eq, Structural)]
pub enum ValueChange {
    Assign,
    Increase,
    Reduce,
}

/// The change a click with `button` makes: the left button sets the value,
/// or increases it when adjusting; the right button reduces it when
/// adjusting. Other clicks change nothing.
pub open spec fn value_change(button: PointerButton, adjust_values: bool) -> Option<ValueChange> {
    match button {
        PointerButton::Left => if adjust_values { Some(ValueChange::Increase) } else { Some(ValueChange::Assign) },
        PointerButton::Right => if adjust_values { Some(ValueChange::Reduce) } else { None },
        _ => None,
    }
}

/// The slope blend command for a change with optional chance and variance.
pub open spec fn blend_command(
    change: ValueChange,
    value: SlopeBlendThreshold,
    p: Option<OverwriteProbability>,
    v: Option<Variance>,
) -> PaintCommand {
    match change {
        ValueChange::Assign => match (p, v) {
            (None, None) => PaintCommand::SetSlopeBlendThreshold(value),
            (None, Some(v)) => PaintCommand::SetSlopeBlendThresholdWithVariance(value, v),
            (Some(p), None) => PaintCommand::RandomizedSetSlopeBlendThreshold(p, value),
            (Some(p), Some(v)) => PaintCommand::RandomizedSetSlopeBlendThresholdWithVariance(p, value, v),
        },
        ValueChange::Increase => match (p, v) {
            (None, None) => PaintCommand::IncreaseSlopeBlendThreshold,
            (None, Some(v)) => PaintCommand::IncreaseSlopeBlendThresholdWithVariance(v),
            (Some(p), None) => PaintCommand::RandomizedIncreaseSlopeBlendThreshold(p),
            (Some(p), Some(v)) => PaintCommand::RandomizedIncreaseSlopeBlendThresholdWithVariance(p, v),
        },
        ValueChange::Reduce => match (p, v) {
            (None, None) => PaintCommand::ReduceSlopeBlendThreshold,
            (None, Some(v)) => PaintCommand::ReduceSlopeBlendThresholdWithVariance(v),
            (Some(p), None) => PaintCommand::RandomizedReduceSlopeBlendThreshold(p),
            (Some(p), Some(v)) => PaintCommand::RandomizedReduceSlopeBlendThresholdWithVariance(p, v),
        },
    }
}

/// The background scaling command for a change with optional chance and variance.
pub open spec fn scaling_command(
    change: ValueChange,
    value: TextureScale,
    p: Option<OverwriteProbability>,
    v: Option<Variance>,
) -> PaintCommand {
    match change {
        ValueChange::Assign => match (p, v) {
            (None, None) => PaintCommand::SetBackgroundScaling(value),
            (None, Some(v)) => PaintCommand::SetBackgroundScalingWithVariance(value, v),
            (Some(p), None) => PaintCommand::RandomizedSetBackgroundScaling(p, value),
            (Some(p), Some(v)) => PaintCommand::RandomizedSetBackgroundScalingWithVariance(p, value, v),
        },
        ValueChange::Increase => match (p, v) {
            (None, None) => PaintCommand::IncreaseBackgroundScaling,
            (None, Some(v)) => PaintCommand::IncreaseBackgroundScalingWithVariance(v),
            (Some(p), None) => PaintCommand::RandomizedIncreaseBackgroundScaling(p),
            (Some(p), Some(v)) => PaintCommand::RandomizedIncreaseBackgroundScalingWithVariance(p, v),
        },
        ValueChange::Reduce => match (p, v) {
            (None, None) => PaintCommand::ReduceBackgroundScaling,
            (None, Some(v)) => PaintCommand::ReduceBackgroundScalingWithVariance(v),
            (Some(p), None) => PaintCommand::RandomizedReduceBackgroundScaling(p),
            (Some(p), Some(v)) => PaintCommand::RandomizedReduceBackgroundScalingWithVariance(p, v),
        },
    }
}

/// Commands of a slope blend brush click: one command, or none.
pub open spec fn blending_paint_cmds(button: PointerButton, s: blendingbrush::BrushSettings) -> Seq<PaintCommand> {
    match value_change(button, s.adjust_values) {
        Some(change) => seq![
            blend_command(change, s.slope_blend, s.spec_overwrite_probability(), s.spec_value_variance()),
        ],
        None => Seq::empty(),
    }
}

/// Commands of a background scaling brush click: one command, or none.
pub open spec fn scaling_paint_cmds(button: PointerButton, s: scalingbrush::BrushSettings) -> Seq<PaintCommand> {
    match value_change(button, s.adjust_values) {
        Some(change) => seq![
            scaling_command(change, s.scaling, s.spec_overwrite_probability(), s.spec_value_variance()),
        ],
        None => Seq::empty(),
    }
}

/// Sets the overlay material, with the brush's chance if randomized.
pub open spec fn overlay_command(s: texturebrush::BrushSettings) -> PaintCommand {
    match s.spec_texture_probabilities().0 {
        Some(p) => PaintCommand::RandomizedSetOverlayMaterial(p, s.overlay_texture),
        None => PaintCommand::SetOverlayMaterial(s.overlay_texture),
    }
}

/// Sets the background material, with the brush's chance if randomized.
pub open spec fn bkgrnd_command(s: texturebrush::BrushSettings) -> PaintCommand {
    match s.spec_texture_probabilities().1 {
        Some(p) => PaintCommand::RandomizedSetBackgroundMaterial(p, s.bkgrnd_texture),
        None => PaintCommand::SetBackgroundMaterial(s.bkgrnd_texture),
    }
}

/// The material commands for the materials the brush uses.
pub open spec fn material_cmds(s: texturebrush::BrushSettings) -> Seq<PaintCommand> {
    match s.textures_used {
        BrushTexturesUsed::Overlay => seq![overlay_command(s)],
        BrushTexturesUsed::Background => seq![bkgrnd_command(s)],
        BrushTexturesUsed::OverlayAndBackground => seq![overlay_command(s), bkgrnd_command(s)],
    }
}

/// Commands of a texture brush click: only the left button paints, the
/// materials first, then the optional scaling and slope blend overwrites.
pub open spec fn texture_paint_cmds(button: PointerButton, s: texturebrush::BrushSettings) -> Seq<PaintCommand> {
    if button == PointerButton::Left {
        material_cmds(s)
            + (if s.overwrite_scale { seq![PaintCommand::SetBackgroundScaling(s.scaling)] } else { Seq::empty() })
            + (if s.overwrite_slope_blend { seq![PaintCommand::SetSlopeBlendThreshold(s.slope_blend)] } else { Seq::empty() })
    } else {
        Seq::empty()
    }
}

/// What a texture picker click reads: the materials the brush uses, on a
/// left click only.
pub open spec fn texture_picker_cmds(button: PointerButton, s: texturebrush::BrushSettings) -> Seq<PickedType> {
    if button == PointerButton::Left {
        match s.textures_used {
            BrushTexturesUsed::Overlay => seq![PickedType::OverlayTexture],
            BrushTexturesUsed::Background => seq![PickedType::BackgroundTexture],
            BrushTexturesUsed::OverlayAndBackground => seq![PickedType::OverlayTexture, PickedType::BackgroundTexture],
        }
    } else {
        Seq::empty()
    }
}

/// What the texture picker reads on a click with `button`.
pub fn create_texture_picker_cmds(button: PointerButton, settings: &texturebrush::BrushSettings) -> (res: Vec<PickedType>)
    ensures
        res@ == texture_picker_cmds(button, *settings),
{
    let mut cmds: Vec<PickedType> = Vec::new();

    // other buttons are ignored
    if let PointerButton::Left = button {
        match settings.textures_used {
            BrushTexturesUsed::Overlay => {
                cmds.push(PickedType::OverlayTexture);
            },
            BrushTexturesUsed::Background => {
                cmds.push(PickedType::BackgroundTexture);
            },
            BrushTexturesUsed::OverlayAndBackground => {
                cmds.push(PickedType::OverlayTexture);
                cmds.push(PickedType::BackgroundTexture);
            },
        }
    }
    proof {
        assert(cmds@ =~= texture_picker_cmds(button, *settings));
    }
    cmds
}

/// What the texture brush paints on a click with `button`.
pub fn create_texture_paint_cmds(button: PointerButton, settings: &texturebrush::BrushSettings) -> (res: Vec<PaintCommand>)
    ensures
        res@ == texture_paint_cmds(button, *settings),
{
    let mut cmds: Vec<PaintCommand> = Vec::new();

    // other buttons are ignored for the texture brush
    if let PointerButton::Left = button {
        let (p_overlay, p_bkgrnd) = settings.texture_probabilities();
        let overlay = match p_overlay {
            Some(prob) => PaintCommand::RandomizedSetOverlayMaterial(prob, settings.overlay_texture),
            None => PaintCommand::SetOverlayMaterial(settings.overlay_texture),
        };
        let bkgrnd = match p_bkgrnd {
            Some(prob) => PaintCommand::RandomizedSetBackgroundMaterial(prob, settings.bkgrnd_texture),
            None => PaintCommand::SetBackgroundMaterial(settings.bkgrnd_texture),
        };
        match settings.textures_used {
            BrushTexturesUsed::Overlay => cmds.push(overlay),
            BrushTexturesUsed::Background => cmds.push(bkgrnd),
            BrushTexturesUsed::OverlayAndBackground => {
                cmds.push(overlay);
                cmds.push(bkgrnd);
            },
        }
        let ghost materials = cmds@;
        assert(materials =~= material_cmds(*settings));
        // optional scaling overwrite
        if settings.overwrite_scale {
            cmds.push(PaintCommand::SetBackgroundScaling(settings.scaling));
        }
        let ghost scaled = cmds@;
        // optional blending overwrite
        if settings.overwrite_slope_blend {
            cmds.push(PaintCommand::SetSlopeBlendThreshold(settings.slope_blend));
        }
        proof {
            let sc: Seq<PaintCommand> = if settings.overwrite_scale {
                seq![PaintCommand::SetBackgroundScaling(settings.scaling)]
            } else {
                Seq::empty()
            };
            let bl: Seq<PaintCommand> = if settings.overwrite_slope_blend {
                seq![PaintCommand::SetSlopeBlendThreshold(settings.slope_blend)]
            } else {
                Seq::empty()
            };
            assert(scaled =~= materials + sc);
            assert(cmds@ =~= materials + sc + bl);
        }
    } else {
        assert(cmds@ =~= texture_paint_cmds(button, *settings));
    }
    cmds
}

/// What the slope blend brush paints on a click with `button`.
pub fn create_blending_paint_cmds(button: PointerButton, settings: &blendingbrush::BrushSettings) -> (res: Vec<PaintCommand>)
    ensures
        res@ == blending_paint_cmds(button, *settings),
{
    let mut cmds: Vec<PaintCommand> = Vec::new();
    let overwrite_probability = settings.overwrite_probability();
    let variance = settings.value_variance();

    match button {
        PointerButton::Left if !settings.adjust_values => {
            // direct overwrite of slope blend
            let paint_operation = match (overwrite_probability, variance) {
                (None, None) => PaintCommand::SetSlopeBlendThreshold(settings.slope_blend),
                (None, Some(variance)) => PaintCommand::SetSlopeBlendThresholdWithVariance(settings.slope_blend, variance),
                (Some(prob), None) => PaintCommand::RandomizedSetSlopeBlendThreshold(prob, settings.slope_blend),
                (Some(prob), Some(variance)) => PaintCommand::RandomizedSetSlopeBlendThresholdWithVariance(
                    prob,
                    settings.slope_blend,
                    variance,
                ),
            };
            cmds.push(paint_operation);
        },
        PointerButton::Left => {
            // relative increase of slope blend
            let paint_operation = match (overwrite_probability, variance) {
                (None, None) => PaintCommand::IncreaseSlopeBlendThreshold,
                (None, Some(variance)) => PaintCommand::IncreaseSlopeBlendThresholdWithVariance(variance),
                (Some(prob), None) => PaintCommand::RandomizedIncreaseSlopeBlendThreshold(prob),
                (Some(prob), Some(variance)) => PaintCommand::RandomizedIncreaseSlopeBlendThresholdWithVariance(prob, variance),
            };
            cmds.push(paint_operation);
        },
        PointerButton::Right if settings.adjust_values => {
            // relative reduction of slope blend
            let paint_operation = match (overwrite_probability, variance) {
                (None, None) => PaintCommand::ReduceSlopeBlendThreshold,
                (None, Some(variance)) => PaintCommand::ReduceSlopeBlendThresholdWithVariance(variance),
                (Some(prob), None) => PaintCommand::RandomizedReduceSlopeBlendThreshold(prob),
                (Some(prob), Some(variance)) => PaintCommand::RandomizedReduceSlopeBlendThresholdWithVariance(prob, variance),
            };
            cmds.push(paint_operation);
        },
        _ => {},
    }
    proof {
        assert(cmds@ =~= blending_paint_cmds(button, *settings));
    }
    cmds
}

/// What the background scaling brush paints on a click with `button`.
pub fn create_scaling_paint_cmds(button: PointerButton, settings: &scalingbrush::BrushSettings) -> (res: Vec<PaintCommand>)
    ensures
        res@ == scaling_paint_cmds(button, *settings),
{
    let mut cmds: Vec<PaintCommand> = Vec::new();
    let overwrite_probability = settings.overwrite_probability();
    let variance = settings.value_variance();

    match button {
        PointerButton::Left if !settings.adjust_values => {
            // direct overwrite of scaling
            let paint_operation = match (overwrite_probability, variance) {
                (None, None) => PaintCommand::SetBackgroundScaling(settings.scaling),
                (None, Some(variance)) => PaintCommand::SetBackgroundScalingWithVariance(settings.scaling, variance),
                (Some(prob), None) => PaintCommand::RandomizedSetBackgroundScaling(prob, settings.scaling),
                (Some(prob), Some(variance)) => PaintCommand::RandomizedSetBackgroundScalingWithVariance(
                    prob,
                    settings.scaling,
                    variance,
                ),
            };
            cmds.push(paint_operation);
        },
        PointerButton::Left => {
            // relative increase of scaling
            let paint_operation = match (overwrite_probability, variance) {
                (None, None) => PaintCommand::IncreaseBackgroundScaling,
                (None, Some(variance)) => PaintCommand::IncreaseBackgroundScalingWithVariance(variance),
                (Some(prob), None) => PaintCommand::RandomizedIncreaseBackgroundScaling(prob),
                (Some(prob), Some(variance)) => PaintCommand::RandomizedIncreaseBackgroundScalingWithVariance(prob, variance),
            };
            cmds.push(paint_operation);
        },
        PointerButton::Right if settings.adjust_values => {
            // relative reduction of scaling
            let paint_operation = match (overwrite_probability, variance) {
                (None, None) => PaintCommand::ReduceBackgroundScaling,
                (None, Some(variance)) => PaintCommand::ReduceBackgroundScalingWithVariance(variance),
                (Some(prob), None) => PaintCommand::RandomizedReduceBackgroundScaling(prob),
                (Some(prob), Some(variance)) => PaintCommand::RandomizedReduceBackgroundScalingWithVariance(prob, variance),
            };
            cmds.push(paint_operation);
        },
        _ => {},
    }
    proof {
        assert(cmds@ =~= scaling_paint_cmds(button, *settings));
    }
    cmds
}

/// Shows only the overlay material, or stops doing so: the background
/// texture is left out of the rendering while the overlay is shown; any
/// exclusive view is switched off.
pub fn render_only_overlay_material(
    brush: &mut texturebrush::BrushSettings,
    rendersettings: &mut TerrainRenderSettings,
    render_overlay: bool,
)
    ensures
        *final(brush) == (texturebrush::BrushSettings {
            show_only_overlay: render_overlay,
            show_only_background: old(brush).show_only_background && !render_overlay,
            ..*old(brush)
        }),
        *final(rendersettings) == (TerrainRenderSettings {
            ignore_bkgrnd_texture: render_overlay,
            ignore_overlay_texture: old(rendersettings).ignore_overlay_texture && !render_overlay,
            ..old(rendersettings).without_exclusive_view()
        }),
{
    brush.show_only_overlay = render_overlay;
    if brush.show_only_overlay {
        brush.show_only_background = false;
    }

    rendersettings.reset_exclusive_view();
    rendersettings.ignore_bkgrnd_texture = render_overlay;
    if rendersettings.ignore_bkgrnd_texture {
        rendersettings.ignore_overlay_texture = false;
    }
}

/// Shows only the background material, or stops doing so: the overlay
/// texture is left out of the rendering while the background is shown; any
/// exclusive view is switched off.
pub fn render_only_bkgrnd_material(
    brush: &mut texturebrush::BrushSettings,
    rendersettings: &mut TerrainRenderSettings,
    render_bkgrnd: bool,
)
    ensures
        *final(brush) == (texturebrush::BrushSettings {
            show_only_background: render_bkgrnd,
            show_only_overlay: old(brush).show_only_overlay && !render_bkgrnd,
            ..*old(brush)
        }),
        *final(rendersettings) == (TerrainRenderSettings {
            ignore_overlay_texture: render_bkgrnd,
            ignore_bkgrnd_texture: old(rendersettings).ignore_bkgrnd_texture && !render_bkgrnd,
            ..old(rendersettings).without_exclusive_view()
        }),
{
    brush.show_only_background = render_bkgrnd;
    if brush.show_only_background {
        brush.show_only_overlay = false;
    }

    rendersettings.reset_exclusive_view();
    rendersettings.ignore_overlay_texture = render_bkgrnd;
    if rendersettings.ignore_overlay_texture {
        rendersettings.ignore_bkgrnd_texture = false;
    }
}

/// Shows the background scaling as the only exclusive view, or no
/// exclusive view.
pub fn render_only_bkgrnd_scaling(
    brush: &mut scalingbrush::BrushSettings,
    rendersettings: &mut TerrainRenderSettings,
    show: bool,
)
    ensures
        *final(brush) == (scalingbrush::BrushSettings { show_bkgrnd_scaling: show, ..*old(brush) }),
        *final(rendersettings) == (TerrainRenderSettings {
            show_bkgrnd_scaling: show,
            ..old(rendersettings).without_exclusive_view()
        }),
{
    brush.show_bkgrnd_scaling = show;

    rendersettings.reset_exclusive_view();
    rendersettings.show_bkgrnd_scaling = show;
}

/// Shows the slope blend threshold as the only exclusive view, or no
/// exclusive view.
pub fn render_only_slopeblend_threshold(
    brush: &mut blendingbrush::BrushSettings,
    rendersettings: &mut TerrainRenderSettings,
    show: bool,
)
    ensures
        *final(brush) == (blendingbrush::BrushSettings { show_blend_threshold: show, ..*old(brush) }),
        *final(rendersettings) == (TerrainRenderSettings {
            show_blend_threshold: show,
            ..old(rendersettings).without_exclusive_view()
        }),
{
    brush.show_blend_threshold = show;

    rendersettings.reset_exclusive_view();
    rendersettings.show_blend_threshold = show;
}

/// After a change of the selected tool: a picker left on is switched off and
/// the render settings follow the new tool. Returns whether the tool has a
/// brush pointer, which is then to be redrawn.
pub fn on_changed_tool_selection(toolbox: &mut ToolboxState, rendersettings: &mut TerrainRenderSettings) -> (pointer_shown: bool)
    ensures
        pointer_shown == old(toolbox).spec_has_projected_pointer(),
        *final(rendersettings) == old(toolbox).with_picker_reset().synced_rendersettings(*old(rendersettings)),
        *final(toolbox) == old(toolbox).with_picker_reset().synced_with(*final(rendersettings)),
{
    // reset if it was previously set
    toolbox.reset_picker();

    let pointer_shown = toolbox.has_projected_pointer();
    toolbox.sync_rendersettings(rendersettings);
    pointer_shown
}

/// The texture brush uses the material just selected: selecting the overlay
/// while only the background is used switches to the overlay, and the other
/// way round; otherwise the choice stays.
pub open spec fn textures_used_after_selection(used: BrushTexturesUsed, overlay_selected: bool) -> BrushTexturesUsed {
    match used {
        BrushTexturesUsed::Overlay if !overlay_selected => BrushTexturesUsed::Background,
        BrushTexturesUsed::Background if overlay_selected => BrushTexturesUsed::Overlay,
        _ => used,
    }
}

/// What selecting a material does to the toolbox and the render settings:
/// with a brush tool selected the texturing tool takes over, using the
/// selected material, and the render settings follow it; otherwise nothing
/// changes. `pointer_changed` tells whether the brush pointer is to be redrawn.
pub open spec fn material_selection_outcome(
    before: ToolboxState,
    rs_before: TerrainRenderSettings,
    overlay_selected: bool,
    after: ToolboxState,
    rs_after: TerrainRenderSettings,
    pointer_changed: bool,
) -> bool {
    if before.spec_has_projected_pointer() {
        let switched = ToolboxState {
            selection: Some(ToolSelection::Texturing),
            texture_brush: texturebrush::BrushSettings {
                textures_used: textures_used_after_selection(before.texture_brush.textures_used, overlay_selected),
                ..before.texture_brush
            },
            ..before
        };
        &&& pointer_changed
        &&& rs_after == switched.synced_rendersettings(rs_before)
        &&& after == switched.synced_with(rs_after)
    } else {
        &&& !pointer_changed
        &&& after == before
        &&& rs_after == rs_before
    }
}

/// Switches to the texturing tool with the selected material in use, unless
/// no brush tool is selected. Returns whether the brush pointer is to be
/// redrawn.
pub fn update_brush_on_material_selection(
    toolbox: &mut ToolboxState,
    rendersettings: &mut TerrainRenderSettings,
    overlay_selected: bool,
) -> (pointer_changed: bool)
    ensures
        material_selection_outcome(
            *old(toolbox),
            *old(rendersettings),
            overlay_selected,
            *final(toolbox),
            *final(rendersettings),
            pointer_changed,
        ),
{
    match toolbox.selection {
        Some(ToolSelection::MaterialParameters) | None => {
            // texture is used in current tool -> no need to switch tool or
            // change active texture in brush
            false
        },
        _ => {
            // switch to texturing brush...
            toolbox.selection = Some(ToolSelection::Texturing);

            // ...and activate background or overlay texture selection of the
            // brush to allow direct painting with the selected texture
            match toolbox.texture_brush.textures_used {
                BrushTexturesUsed::Overlay if !overlay_selected => {
                    toolbox.texture_brush.textures_used = BrushTexturesUsed::Background;
                },
                BrushTexturesUsed::Background if overlay_selected => {
                    toolbox.texture_brush.textures_used = BrushTexturesUsed::Overlay;
                },
                _ => {
                    // texture was already active
                },
            }
            // the shortcut show_* states follow the current render settings
            toolbox.sync_rendersettings(rendersettings);
            true
        },
    }
}

/// Takes a picked slope blend threshold into the blending brush, which then
/// sets that value.
pub fn update_brush_on_blendthreshold_pick(toolbox: &mut ToolboxState, value: SlopeBlendThreshold)
    ensures
        *final(toolbox) == (ToolboxState {
            blending_brush: blendingbrush::BrushSettings {
                slope_blend: value,
                adjust_values: false,
                ..old(toolbox).blending_brush
            },
            ..*old(toolbox)
        }),
{
    toolbox.blending_brush.slope_blend = value;
    toolbox.blending_brush.adjust_values = false;
}

/// Takes a picked background scaling into the scaling brush, which then sets
/// that value.
pub fn update_brush_on_scaling_pick(toolbox: &mut ToolboxState, value: TextureScale)
    ensures
        *final(toolbox) == (ToolboxState {
            scaling_brush: scalingbrush::BrushSettings {
                scaling: value,
                adjust_values: false,
                ..old(toolbox).scaling_brush
            },
            ..*old(toolbox)
        }),
{
    toolbox.scaling_brush.scaling = value;
    toolbox.scaling_brush.adjust_values = false;
}


/// A click of the slope blend brush paints with the brush's own chance and
/// variance. The left button sets the brush's threshold, or raises the
/// threshold when adjusting; the right button lowers it when adjusting; any
/// other click paints nothing. The chance is the brush's draw probability
/// when randomized below 100 percent (otherwise every texel changes), the
/// variance that of the brush when it is used.
pub proof fn law_blending_click_keeps_chance_and_variance(button: PointerButton, s: blendingbrush::BrushSettings)
    ensures
        ({
            let cmds = blending_paint_cmds(button, s);
            let p = if s.randomize && s.draw_probability < 100 {
                Some(OverwriteProbability(s.draw_probability))
            } else {
                None
            };
            let v = if s.use_variance { Some(s.variance) } else { None };
            let paints = button == PointerButton::Left || (button == PointerButton::Right && s.adjust_values);
            &&& paints ==> {
                &&& cmds.len() == 1
                &&& cmds[0].overwrite_chance() == p
                &&& cmds[0].written_variance() == v
                &&& (button == PointerButton::Left && !s.adjust_values) ==> cmds[0].assigned_slope_blend()
                    == Some(s.slope_blend)
                &&& (button == PointerButton::Left && s.adjust_values) ==> cmds[0].raises_slope_blend()
                &&& button == PointerButton::Right ==> cmds[0].lowers_slope_blend()
            }
            &&& !paints ==> cmds.len() == 0
        }),
{
}

/// A click of the background scaling brush paints with the brush's own
/// chance and variance. The left button sets the brush's scaling, or raises
/// the scaling when adjusting; the right button lowers it when adjusting;
/// any other click paints nothing.
pub proof fn law_scaling_click_keeps_chance_and_variance(button: PointerButton, s: scalingbrush::BrushSettings)
    ensures
        ({
            let cmds = scaling_paint_cmds(button, s);
            let p = if s.randomize && s.draw_probability < 100 {
                Some(OverwriteProbability(s.draw_probability))
            } else {
                None
            };
            let v = if s.use_variance { Some(s.variance) } else { None };
            let paints = button == PointerButton::Left || (button == PointerButton::Right && s.adjust_values);
            &&& paints ==> {
                &&& cmds.len() == 1
                &&& cmds[0].overwrite_chance() == p
                &&& cmds[0].written_variance() == v
                &&& (button == PointerButton::Left && !s.adjust_values) ==> cmds[0].assigned_scaling()
                    == Some(s.scaling)
                &&& (button == PointerButton::Left && s.adjust_values) ==> cmds[0].raises_scaling()
                &&& button == PointerButton::Right ==> cmds[0].lowers_scaling()
            }
            &&& !paints ==> cmds.len() == 0
        }),
{
}

/// A left click of the texture brush paints the overlay material exactly when
/// the brush uses it, and the background material exactly when the brush
/// uses it; each is painted with its own chance when randomized below 100
/// percent, and everywhere otherwise. Other buttons paint nothing.
pub proof fn law_texture_click_paints_materials_with_their_chances(button: PointerButton, s: texturebrush::BrushSettings)
    ensures
        ({
            let cmds = texture_paint_cmds(PointerButton::Left, s);
            let po = if s.randomize && s.texture_probabilities.0 < 100 {
                Some(OverwriteProbability(s.texture_probabilities.0))
            } else {
                None
            };
            let pb = if s.randomize && s.texture_probabilities.1 < 100 {
                Some(OverwriteProbability(s.texture_probabilities.1))
            } else {
                None
            };
            &&& (s.textures_used != BrushTexturesUsed::Background) <==> (exists|i: int|
                0 <= i < cmds.len() && (#[trigger] cmds[i]).painted_overlay() is Some)
            &&& (s.textures_used != BrushTexturesUsed::Overlay) <==> (exists|i: int|
                0 <= i < cmds.len() && (#[trigger] cmds[i]).painted_background() is Some)
            &&& forall|i: int| 0 <= i < cmds.len() && (#[trigger] cmds[i]).painted_overlay() is Some ==> {
                &&& cmds[i].painted_overlay() == Some(s.overlay_texture)
                &&& cmds[i].overwrite_chance() == po
            }
            &&& forall|i: int| 0 <= i < cmds.len() && (#[trigger] cmds[i]).painted_background() is Some ==> {
                &&& cmds[i].painted_background() == Some(s.bkgrnd_texture)
                &&& cmds[i].overwrite_chance() == pb
            }
        }),
        button != PointerButton::Left ==> texture_paint_cmds(button, s).len() == 0,
{
    let cmds = texture_paint_cmds(PointerButton::Left, s);
    let m = material_cmds(s);
    let sc = if s.overwrite_scale { seq![PaintCommand::SetBackgroundScaling(s.scaling)] } else { Seq::empty() };
    let bl = if s.overwrite_slope_blend { seq![PaintCommand::SetSlopeBlendThreshold(s.slope_blend)] } else { Seq::empty() };
    assert(cmds == m + sc + bl);
    assert forall|i: int| m.len() <= i < cmds.len() implies
        (#[trigger] cmds[i]).painted_overlay() is None && cmds[i].painted_background() is None by {
        if i < m.len() + sc.len() {
            assert(cmds[i] == sc[i - m.len()]);
        } else {
            assert(cmds[i] == bl[i - m.len() - sc.len()]);
        }
    }
    match s.textures_used {
        BrushTexturesUsed::Overlay => {
            assert(cmds[0] == m[0]);
            assert(cmds[0].painted_overlay() is Some);
        },
        BrushTexturesUsed::Background => {
            assert(cmds[0] == m[0]);
            assert(cmds[0].painted_background() is Some);
        },
        BrushTexturesUsed::OverlayAndBackground => {
            assert(cmds[0] == m[0]);
            assert(cmds[1] == m[1]);
            assert(cmds[0].painted_overlay() is Some);
            assert(cmds[1].painted_background() is Some);
        },
    }
}


/// A left click of the texture brush paints each used material once, the
/// overlay before the background, and then the overwrites the brush asks
/// for: the background scaling, then the slope blend threshold.
pub proof fn law_texture_click_order(s: texturebrush::BrushSettings)
    ensures
        ({
            let cmds = texture_paint_cmds(PointerButton::Left, s);
            let materials: int = if s.textures_used == BrushTexturesUsed::OverlayAndBackground { 2 } else { 1 };
            let scale: int = if s.overwrite_scale { 1 } else { 0 };
            let blend: int = if s.overwrite_slope_blend { 1 } else { 0 };
            &&& cmds.len() == materials + scale + blend
            &&& forall|i: int| 0 <= i < materials ==> (#[trigger] cmds[i]).painted_overlay() is Some
                || cmds[i].painted_background() is Some
            &&& forall|i: int, j: int| 0 <= i < cmds.len() && 0 <= j < cmds.len()
                && (#[trigger] cmds[i]).painted_overlay() is Some && (#[trigger] cmds[j]).painted_background() is Some
                ==> i < j
            &&& forall|i: int, j: int| 0 <= i < j < cmds.len() && (#[trigger] cmds[i]).painted_overlay() is Some
                ==> (#[trigger] cmds[j]).painted_overlay() is None
            &&& forall|i: int, j: int| 0 <= i < j < cmds.len() && (#[trigger] cmds[i]).painted_background() is Some
                ==> (#[trigger] cmds[j]).painted_background() is None
            &&& s.overwrite_scale ==> cmds[materials] == PaintCommand::SetBackgroundScaling(s.scaling)
            &&& s.overwrite_slope_blend ==> cmds[materials + scale] == PaintCommand::SetSlopeBlendThreshold(s.slope_blend)
        }),
{
    let cmds = texture_paint_cmds(PointerButton::Left, s);
    let m = material_cmds(s);
    let sc = if s.overwrite_scale { seq![PaintCommand::SetBackgroundScaling(s.scaling)] } else { Seq::empty() };
    let bl = if s.overwrite_slope_blend { seq![PaintCommand::SetSlopeBlendThreshold(s.slope_blend)] } else { Seq::empty() };
    assert(cmds == m + sc + bl);
    assert forall|i: int| m.len() <= i < cmds.len() implies
        (#[trigger] cmds[i]).painted_overlay() is None && cmds[i].painted_background() is None by {
        if i < m.len() + sc.len() {
            assert(cmds[i] == sc[i - m.len()]);
        } else {
            assert(cmds[i] == bl[i - m.len() - sc.len()]);
        }
    }
    assert forall|i: int| 0 <= i < m.len() implies #[trigger] cmds[i] == m[i] by {}
    if s.overwrite_scale {
        assert(cmds[m.len() as int] == sc[0]);
    }
    if s.overwrite_slope_blend {
        assert(cmds[(m.len() + sc.len()) as int] == bl[0]);
    }
}

} // verus!
