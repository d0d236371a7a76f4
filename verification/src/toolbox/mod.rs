//! The texturing toolbox: the selected tool, the settings of its brushes and
//! the rules that map user actions to painting commands and render settings.
use vstd::prelude::*;

pub mod blendingbrush;
pub mod scalingbrush;
pub mod texturebrush;
pub mod update;

use crate::terrain_material::MaterialSlot;
use crate::terrain_painting::{PaintCommand, PickedType, PickerResult, PointerButton};
use crate::terrain_render::{count_set, TerrainRenderSettings};
use self::texturebrush::BrushTexturesUsed;
use self::update::{
    blending_paint_cmds, material_selection_outcome, scaling_paint_cmds, texture_paint_cmds,
    texture_picker_cmds,
};

verus! {

/// The tool selected in the toolbox.
#[derive(Debug, Clone, Copy, PartialEq, Eq, Structural)]
pub enum ToolSelection {
    Texturing,
    Blending,
    Scaling,
    MaterialParameters,
}

impl Default for ToolSelection {
    fn default() -> (res: ToolSelection)
        ensures
            res == ToolSelection::Texturing,
    {
        ToolSelection::Texturing
    }
}

/// State of the texturing toolbox.
#[derive(Debug, Clone, Copy)]
pub struct ToolboxState {
    pub enabled: bool,
    pub selection: Option<ToolSelection>,
    pub texture_brush: texturebrush::BrushSettings,
    pub blending_brush: blendingbrush::BrushSettings,
    pub scaling_brush: scalingbrush::BrushSettings,
}

/// A user action in the toolbox on the brushes and the render settings (the
/// material parameters are set apart from the toolbox state).
#[derive(Debug, Clone, Copy)]
pub enum ToolboxAction {
    ChangedToolSelection(Option<ToolSelection>),
    UpdateBrushSettings,
    SelectOverlayTexture(MaterialSlot),
    SelectBackgroundTexture(MaterialSlot),
    ShowOnlyOverlayTexture(bool),
    ShowOnlyBackgroundTexture(bool),
    ShowBackgroundScaling(bool),
    ShowSlopeBlendThreshold(bool),
    TexturePickerSelected(bool),
    SlopeBlendThresholdPickerSelected(bool),
    BkgrndScalingPickerSelected(bool),
}

/// What a click of the brush asks for: a picker reading, or painting.
#[derive(Debug, Clone)]
pub enum BrushClick {
    Pick(Vec<PickedType>),
    Paint(Vec<PaintCommand>),
}

impl ToolboxState {
    /// A toolbox that is disabled, with no tool selected and new brushes.
    pub open spec fn spec_default() -> ToolboxState {
        ToolboxState {
            enabled: false,
            selection: None,
            texture_brush: texturebrush::BrushSettings::spec_default(),
            blending_brush: blendingbrush::BrushSettings::spec_default(),
            scaling_brush: scalingbrush::BrushSettings::spec_default(),
        }
    }
}

impl Default for ToolboxState {
    fn default() -> (res: ToolboxState)
        ensures
            res == ToolboxState::spec_default(),
    {
        ToolboxState {
            enabled: false,
            selection: None,
            texture_brush: texturebrush::BrushSettings::default(),
            blending_brush: blendingbrush::BrushSettings::default(),
            scaling_brush: scalingbrush::BrushSettings::default(),
        }
    }
}

impl ToolboxState {
    /// The selected tool paints with a brush pointer on the terrain.
    pub open spec fn spec_has_projected_pointer(self) -> bool {
        match self.selection {
            Some(ToolSelection::MaterialParameters) | None => false,
            _ => true,
        }
    }

    /// The picker of the selected tool is switched on.
    pub open spec fn picker_selected(self) -> bool {
        match self.selection {
            Some(ToolSelection::Texturing) => self.texture_brush.picker_activated,
            Some(ToolSelection::Blending) => self.blending_brush.picker_activated,
            Some(ToolSelection::Scaling) => self.scaling_brush.picker_activated,
            _ => false,
        }
    }

    /// The state with the picker of the selected tool switched off.
    pub open spec fn with_picker_reset(self) -> ToolboxState {
        match self.selection {
            Some(ToolSelection::Texturing) => ToolboxState {
                texture_brush: texturebrush::BrushSettings { picker_activated: false, ..self.texture_brush },
                ..self
            },
            Some(ToolSelection::Blending) => ToolboxState {
                blending_brush: blendingbrush::BrushSettings { picker_activated: false, ..self.blending_brush },
                ..self
            },
            Some(ToolSelection::Scaling) => ToolboxState {
                scaling_brush: scalingbrush::BrushSettings { picker_activated: false, ..self.scaling_brush },
                ..self
            },
            _ => self,
        }
    }

    /// The render settings after syncing with the selected tool.
    pub open spec fn synced_rendersettings(self, rs: TerrainRenderSettings) -> TerrainRenderSettings {
        match self.selection {
            Some(ToolSelection::Texturing) => self.texture_brush.synced_rendersettings(rs),
            Some(ToolSelection::Blending) => self.blending_brush.synced_rendersettings(rs),
            Some(ToolSelection::Scaling) => self.scaling_brush.synced_rendersettings(rs),
            _ => rs,
        }
    }

    /// The state after syncing with the render settings `rs`.
    pub open spec fn synced_with(self, rs: TerrainRenderSettings) -> ToolboxState {
        match self.selection {
            Some(ToolSelection::Texturing) => ToolboxState { texture_brush: self.texture_brush.synced_with(rs), ..self },
            _ => self,
        }
    }

    /// What the picker of the selected tool reads on a click with `button`.
    pub open spec fn spec_picked(self, button: PointerButton) -> Seq<PickedType> {
        match self.selection {
            Some(ToolSelection::Texturing) => texture_picker_cmds(button, self.texture_brush),
            Some(ToolSelection::Blending) => seq![PickedType::SlopeBlendThreshold],
            Some(ToolSelection::Scaling) => seq![PickedType::BackgroundScaling],
            _ => Seq::empty(),
        }
    }

    /// What the selected tool paints on a click with `button`.
    pub open spec fn spec_painted(self, button: PointerButton) -> Seq<PaintCommand> {
        match self.selection {
            Some(ToolSelection::Texturing) => texture_paint_cmds(button, self.texture_brush),
            Some(ToolSelection::Blending) => blending_paint_cmds(button, self.blending_brush),
            Some(ToolSelection::Scaling) => scaling_paint_cmds(button, self.scaling_brush),
            _ => Seq::empty(),
        }
    }

    /// True if the selected tool has a brush pointer on the terrain.
    pub fn has_projected_pointer(&self) -> (res: bool)
        ensures
            res == self.spec_has_projected_pointer(),
    {
        match self.selection {
            Some(ToolSelection::MaterialParameters) | None => false,
            Some(ToolSelection::Texturing) | Some(ToolSelection::Scaling) | Some(ToolSelection::Blending) => true,
        }
    }

    /// True if the picker of the selected tool is switched on.
    pub fn is_picker_selected(&self) -> (res: bool)
        ensures
            res == self.picker_selected(),
    {
        match self.selection {
            Some(ToolSelection::Texturing) => self.texture_brush.picker_activated,
            Some(ToolSelection::Blending) => self.blending_brush.picker_activated,
            Some(ToolSelection::Scaling) => self.scaling_brush.picker_activated,
            Some(ToolSelection::MaterialParameters) | None => false,
        }
    }

    /// Switches the picker of the selected tool off.
    pub fn reset_picker(&mut self)
        ensures
            *final(self) == old(self).with_picker_reset(),
    {
        match self.selection {
            Some(ToolSelection::Texturing) => self.texture_brush.picker_activated = false,
            Some(ToolSelection::Blending) => self.blending_brush.picker_activated = false,
            Some(ToolSelection::Scaling) => self.scaling_brush.picker_activated = false,
            Some(ToolSelection::MaterialParameters) | None => {},
        }
    }

    /// Makes the render settings show what the selected tool works on.
    pub fn sync_rendersettings(&mut self, rendersettings: &mut TerrainRenderSettings)
        ensures
            *final(rendersettings) == old(self).synced_rendersettings(*old(rendersettings)),
            *final(self) == old(self).synced_with(*final(rendersettings)),
    {
        match self.selection {
            Some(ToolSelection::Texturing) => self.texture_brush.sync_rendersettings(rendersettings),
            Some(ToolSelection::Blending) => self.blending_brush.sync_rendersettings(rendersettings),
            Some(ToolSelection::Scaling) => self.scaling_brush.sync_rendersettings(rendersettings),
            Some(ToolSelection::MaterialParameters) | None => {},
        }
    }

    /// What a click of the brush pointer with `button` asks for: nothing
    /// without a brush tool, a picker reading while the tool's picker is on,
    /// painting otherwise.
    pub fn brush_click(&self, button: PointerButton) -> (res: Option<BrushClick>)
        ensures
            res is None <==> !self.spec_has_projected_pointer(),
            res matches Some(BrushClick::Pick(v)) ==> self.picker_selected() && v@ == self.spec_picked(button),
            res matches Some(BrushClick::Paint(v)) ==> !self.picker_selected() && v@ == self.spec_painted(button),
    {
        match self.selection {
            None | Some(ToolSelection::MaterialParameters) => None,
            Some(ToolSelection::Texturing) => if self.texture_brush.picker_activated {
                Some(BrushClick::Pick(update::create_texture_picker_cmds(button, &self.texture_brush)))
            } else {
                Some(BrushClick::Paint(update::create_texture_paint_cmds(button, &self.texture_brush)))
            },
            Some(ToolSelection::Blending) => if self.blending_brush.picker_activated {
                let v = vec![PickedType::SlopeBlendThreshold];
                assert(v@ =~= seq![PickedType::SlopeBlendThreshold]);
                Some(BrushClick::Pick(v))
            } else {
                Some(BrushClick::Paint(update::create_blending_paint_cmds(button, &self.blending_brush)))
            },
            Some(ToolSelection::Scaling) => if self.scaling_brush.picker_activated {
                let v = vec![PickedType::BackgroundScaling];
                assert(v@ =~= seq![PickedType::BackgroundScaling]);
                Some(BrushClick::Pick(v))
            } else {
                Some(BrushClick::Paint(update::create_scaling_paint_cmds(button, &self.scaling_brush)))
            },
        }
    }

    /// Takes a picked value into the brushes: a picked material is selected
    /// for the texture brush, a picked threshold or scaling is set in the
    /// blending or scaling brush. Returns whether the brush pointer is to be
    /// redrawn.
    pub fn apply_picker_result(&mut self, rendersettings: &mut TerrainRenderSettings, pick: PickerResult) -> (pointer_changed: bool)
        ensures
            match pick {
                PickerResult::OverlayTexture(slot) => material_selection_outcome(
                    ToolboxState {
                        texture_brush: texturebrush::BrushSettings { overlay_texture: slot, ..old(self).texture_brush },
                        ..*old(self)
                    },
                    *old(rendersettings),
                    true,
                    *final(self),
                    *final(rendersettings),
                    pointer_changed,
                ),
                PickerResult::BackgroundTexture(slot) => material_selection_outcome(
                    ToolboxState {
                        texture_brush: texturebrush::BrushSettings { bkgrnd_texture: slot, ..old(self).texture_brush },
                        ..*old(self)
                    },
                    *old(rendersettings),
                    false,
                    *final(self),
                    *final(rendersettings),
                    pointer_changed,
                ),
                PickerResult::BlendThreshold(value) => {
                    &&& pointer_changed
                    &&& *final(rendersettings) == *old(rendersettings)
                    &&& *final(self) == (ToolboxState {
                        blending_brush: blendingbrush::BrushSettings {
                            slope_blend: value,
                            adjust_values: false,
                            ..old(self).blending_brush
                        },
                        ..*old(self)
                    })
                },
                PickerResult::BackgroundScaling(value) => {
                    &&& pointer_changed
                    &&& *final(rendersettings) == *old(rendersettings)
                    &&& *final(self) == (ToolboxState {
                        scaling_brush: scalingbrush::BrushSettings {
                            scaling: value,
                            adjust_values: false,
                            ..old(self).scaling_brush
                        },
                        ..*old(self)
                    })
                },
            },
    {
        match pick {
            PickerResult::OverlayTexture(material_slot) => {
                self.texture_brush.overlay_texture = material_slot;
                update::update_brush_on_material_selection(self, rendersettings, true)
            },
            PickerResult::BackgroundTexture(material_slot) => {
                self.texture_brush.bkgrnd_texture = material_slot;
                update::update_brush_on_material_selection(self, rendersettings, false)
            },
            PickerResult::BlendThreshold(value) => {
                update::update_brush_on_blendthreshold_pick(self, value);
                true
            },
            PickerResult::BackgroundScaling(value) => {
                update::update_brush_on_scaling_pick(self, value);
                true
            },
        }
    }
}

/// What a toolbox action does to the toolbox and the render settings, and
/// whether the brush pointer is then to be redrawn.
pub open spec fn action_outcome(
    before: ToolboxState,
    rs_before: TerrainRenderSettings,
    action: ToolboxAction,
    after: ToolboxState,
    rs_after: TerrainRenderSettings,
    redraw_pointer: bool,
) -> bool {
    match action {
        ToolboxAction::ChangedToolSelection(selection) => {
            let selected = ToolboxState { selection, ..before }.with_picker_reset();
            &&& redraw_pointer == ToolboxState { selection, ..before }.spec_has_projected_pointer()
            &&& rs_after == selected.synced_rendersettings(rs_before)
            &&& after == selected.synced_with(rs_after)
        },
        ToolboxAction::UpdateBrushSettings => {
            &&& redraw_pointer == before.spec_has_projected_pointer()
            &&& after == before
            &&& rs_after == rs_before
        },
        ToolboxAction::SelectOverlayTexture(slot) => material_selection_outcome(
            ToolboxState {
                texture_brush: texturebrush::BrushSettings { overlay_texture: slot, ..before.texture_brush },
                ..before
            },
            rs_before,
            true,
            after,
            rs_after,
            redraw_pointer,
        ),
        ToolboxAction::SelectBackgroundTexture(slot) => material_selection_outcome(
            ToolboxState {
                texture_brush: texturebrush::BrushSettings { bkgrnd_texture: slot, ..before.texture_brush },
                ..before
            },
            rs_before,
            false,
            after,
            rs_after,
            redraw_pointer,
        ),
        ToolboxAction::ShowOnlyOverlayTexture(only) => {
            &&& !redraw_pointer
            &&& after == ToolboxState {
                texture_brush: texturebrush::BrushSettings {
                    show_only_overlay: only,
                    show_only_background: before.texture_brush.show_only_background && !only,
                    ..before.texture_brush
                },
                ..before
            }
            &&& rs_after == TerrainRenderSettings {
                ignore_bkgrnd_texture: only,
                ignore_overlay_texture: rs_before.ignore_overlay_texture && !only,
                ..rs_before.without_exclusive_view()
            }
        },
        ToolboxAction::ShowOnlyBackgroundTexture(only) => {
            &&& !redraw_pointer
            &&& after == ToolboxState {
                texture_brush: texturebrush::BrushSettings {
                    show_only_background: only,
                    show_only_overlay: before.texture_brush.show_only_overlay && !only,
                    ..before.texture_brush
                },
                ..before
            }
            &&& rs_after == TerrainRenderSettings {
                ignore_overlay_texture: only,
                ignore_bkgrnd_texture: rs_before.ignore_bkgrnd_texture && !only,
                ..rs_before.without_exclusive_view()
            }
        },
        ToolboxAction::ShowBackgroundScaling(show) => {
            &&& !redraw_pointer
            &&& after == ToolboxState {
                scaling_brush: scalingbrush::BrushSettings { show_bkgrnd_scaling: show, ..before.scaling_brush },
                ..before
            }
            &&& rs_after == TerrainRenderSettings { show_bkgrnd_scaling: show, ..rs_before.without_exclusive_view() }
        },
        ToolboxAction::ShowSlopeBlendThreshold(show) => {
            &&& !redraw_pointer
            &&& after == ToolboxState {
                blending_brush: blendingbrush::BrushSettings { show_blend_threshold: show, ..before.blending_brush },
                ..before
            }
            &&& rs_after == TerrainRenderSettings { show_blend_threshold: show, ..rs_before.without_exclusive_view() }
        },
        ToolboxAction::TexturePickerSelected(selected) => {
            &&& redraw_pointer
            &&& after == ToolboxState {
                texture_brush: texturebrush::BrushSettings { picker_activated: selected, ..before.texture_brush },
                ..before
            }
            &&& rs_after == rs_before
        },
        ToolboxAction::SlopeBlendThresholdPickerSelected(selected) => {
            &&& redraw_pointer
            &&& after == ToolboxState {
                blending_brush: blendingbrush::BrushSettings { picker_activated: selected, ..before.blending_brush },
                ..before
            }
            &&& rs_after == rs_before
        },
        ToolboxAction::BkgrndScalingPickerSelected(selected) => {
            &&& redraw_pointer
            &&& after == ToolboxState {
                scaling_brush: scalingbrush::BrushSettings { picker_activated: selected, ..before.scaling_brush },
                ..before
            }
            &&& rs_after == rs_before
        },
    }
}

impl ToolboxState {
    /// Applies a user action of the toolbox to the brushes and the render
    /// settings. Returns whether the brush pointer is to be redrawn.
    pub fn apply_action(&mut self, rendersettings: &mut TerrainRenderSettings, action: ToolboxAction) -> (redraw_pointer: bool)
        ensures
            action_outcome(*old(self), *old(rendersettings), action, *final(self), *final(rendersettings), redraw_pointer),
    {
        match action {
            ToolboxAction::ChangedToolSelection(_)
            | ToolboxAction::UpdateBrushSettings
            | ToolboxAction::SelectOverlayTexture(_)
            | ToolboxAction::SelectBackgroundTexture(_) => self.apply_selection_action(rendersettings, action),
            ToolboxAction::ShowOnlyOverlayTexture(_)
            | ToolboxAction::ShowOnlyBackgroundTexture(_)
            | ToolboxAction::ShowBackgroundScaling(_)
            | ToolboxAction::ShowSlopeBlendThreshold(_) => self.apply_view_action(rendersettings, action),
            ToolboxAction::TexturePickerSelected(_)
            | ToolboxAction::SlopeBlendThresholdPickerSelected(_)
            | ToolboxAction::BkgrndScalingPickerSelected(_) => self.apply_picker_action(rendersettings, action),
        }
    }

    /// The actions on the selected tool and material.
    fn apply_selection_action(&mut self, rendersettings: &mut TerrainRenderSettings, action: ToolboxAction) -> (redraw_pointer: bool)
        requires
            action is ChangedToolSelection || action is UpdateBrushSettings || action is SelectOverlayTexture
                || action is SelectBackgroundTexture,
        ensures
            action_outcome(*old(self), *old(rendersettings), action, *final(self), *final(rendersettings), redraw_pointer),
    {
        match action {
            ToolboxAction::ChangedToolSelection(selection) => {
                self.selection = selection;
                update::on_changed_tool_selection(self, rendersettings)
            },
            ToolboxAction::SelectOverlayTexture(slot) => {
                self.texture_brush.overlay_texture = slot;
                update::update_brush_on_material_selection(self, rendersettings, true)
            },
            ToolboxAction::SelectBackgroundTexture(slot) => {
                self.texture_brush.bkgrnd_texture = slot;
                update::update_brush_on_material_selection(self, rendersettings, false)
            },
            ToolboxAction::UpdateBrushSettings => self.has_projected_pointer(),
            _ => false,
        }
    }

    /// The actions on what the terrain rendering shows.
    fn apply_view_action(&mut self, rendersettings: &mut TerrainRenderSettings, action: ToolboxAction) -> (redraw_pointer: bool)
        requires
            action is ShowOnlyOverlayTexture || action is ShowOnlyBackgroundTexture || action is ShowBackgroundScaling
                || action is ShowSlopeBlendThreshold,
        ensures
            action_outcome(*old(self), *old(rendersettings), action, *final(self), *final(rendersettings), redraw_pointer),
    {
        match action {
            ToolboxAction::ShowOnlyOverlayTexture(only) => {
                update::render_only_overlay_material(&mut self.texture_brush, rendersettings, only);
            },
            ToolboxAction::ShowOnlyBackgroundTexture(only) => {
                update::render_only_bkgrnd_material(&mut self.texture_brush, rendersettings, only);
            },
            ToolboxAction::ShowBackgroundScaling(show) => {
                update::render_only_bkgrnd_scaling(&mut self.scaling_brush, rendersettings, show);
            },
            ToolboxAction::ShowSlopeBlendThreshold(show) => {
                update::render_only_slopeblend_threshold(&mut self.blending_brush, rendersettings, show);
            },
            _ => {},
        }
        false
    }

    /// The actions that switch a picker on or off.
    fn apply_picker_action(&mut self, rendersettings: &mut TerrainRenderSettings, action: ToolboxAction) -> (redraw_pointer: bool)
        requires
            action is TexturePickerSelected || action is SlopeBlendThresholdPickerSelected
                || action is BkgrndScalingPickerSelected,
        ensures
            action_outcome(*old(self), *old(rendersettings), action, *final(self), *final(rendersettings), redraw_pointer),
    {
        match action {
            ToolboxAction::TexturePickerSelected(selected) => {
                self.texture_brush.picker_activated = selected;
            },
            ToolboxAction::SlopeBlendThresholdPickerSelected(selected) => {
                self.blending_brush.picker_activated = selected;
            },
            ToolboxAction::BkgrndScalingPickerSelected(selected) => {
                self.scaling_brush.picker_activated = selected;
            },
            _ => {},
        }
        true
    }
}

/// Once the picker of the selected tool is reset, a click of that tool
/// paints again; the selected tool stays.
pub proof fn law_reset_picker_paints(toolbox: ToolboxState)
    ensures
        !toolbox.with_picker_reset().picker_selected(),
        toolbox.with_picker_reset().selection == toolbox.selection,
{
}

/// Syncing the render settings with a brush tool leaves at most one
/// exclusive view shown, whatever was shown before.
pub proof fn law_sync_shows_one_view_at_most(toolbox: ToolboxState, rs: TerrainRenderSettings)
    requires
        toolbox.spec_has_projected_pointer(),
    ensures
        count_set(toolbox.synced_rendersettings(rs).exclusive_flags()) <= 1,
{
    let after = toolbox.synced_rendersettings(rs);
    let f = after.exclusive_flags();
    assert(f.drop_last().drop_last().drop_last().drop_last().drop_last().drop_last() =~= Seq::<bool>::empty());
    reveal_with_fuel(count_set, 7);
}

/// Selecting a material while a brush tool is active switches to the
/// texturing tool, which then paints the selected kind of material.
pub proof fn law_material_selection_paints_it(
    before: ToolboxState,
    rs_before: TerrainRenderSettings,
    overlay_selected: bool,
    after: ToolboxState,
    rs_after: TerrainRenderSettings,
    pointer_changed: bool,
)
    requires
        material_selection_outcome(before, rs_before, overlay_selected, after, rs_after, pointer_changed),
        before.spec_has_projected_pointer(),
    ensures
        after.selection == Some(ToolSelection::Texturing),
        overlay_selected ==> after.texture_brush.textures_used != BrushTexturesUsed::Background,
        !overlay_selected ==> after.texture_brush.textures_used != BrushTexturesUsed::Overlay,
        pointer_changed,
{
}

/// The number of exclusive views shown, flag by flag.
proof fn lemma_count_exclusive_views(rs: TerrainRenderSettings)
    ensures
        count_set(rs.exclusive_flags()) == (if rs.show_fragment_normals { 1int } else { 0int })
            + (if rs.show_combined_normals { 1int } else { 0int })
            + (if rs.show_blend_threshold { 1int } else { 0int })
            + (if rs.show_bkgrnd_scaling { 1int } else { 0int })
            + (if rs.show_tint_map { 1int } else { 0int })
            + (if rs.show_lightheight_map { 1int } else { 0int }),
{
    let f = rs.exclusive_flags();
    assert(f.drop_last().drop_last().drop_last().drop_last().drop_last().drop_last() =~= Seq::<bool>::empty());
    reveal_with_fuel(count_set, 7);
}

/// Toolbox actions keep the exclusive views of the terrain rendering
/// exclusive: if at most one of them was shown before an action, at most
/// one is shown after it.
pub proof fn law_actions_keep_views_exclusive(
    before: ToolboxState,
    rs_before: TerrainRenderSettings,
    action: ToolboxAction,
    after: ToolboxState,
    rs_after: TerrainRenderSettings,
    redraw_pointer: bool,
)
    requires
        action_outcome(before, rs_before, action, after, rs_after, redraw_pointer),
        count_set(rs_before.exclusive_flags()) <= 1,
    ensures
        count_set(rs_after.exclusive_flags()) <= 1,
{
    lemma_count_exclusive_views(rs_before);
    lemma_count_exclusive_views(rs_after);
    match action {
        ToolboxAction::ChangedToolSelection(selection) => {
            let selected = ToolboxState { selection, ..before }.with_picker_reset();
            if selected.spec_has_projected_pointer() {
                law_sync_shows_one_view_at_most(selected, rs_before);
            }
        },
        ToolboxAction::SelectOverlayTexture(slot) => {
            let switched = ToolboxState {
                texture_brush: texturebrush::BrushSettings { overlay_texture: slot, ..before.texture_brush },
                ..before
            };
            if switched.spec_has_projected_pointer() {
                let texturing = ToolboxState {
                    selection: Some(ToolSelection::Texturing),
                    texture_brush: texturebrush::BrushSettings {
                        textures_used: update::textures_used_after_selection(switched.texture_brush.textures_used, true),
                        ..switched.texture_brush
                    },
                    ..switched
                };
                law_sync_shows_one_view_at_most(texturing, rs_before);
            }
        },
        ToolboxAction::SelectBackgroundTexture(slot) => {
            let switched = ToolboxState {
                texture_brush: texturebrush::BrushSettings { bkgrnd_texture: slot, ..before.texture_brush },
                ..before
            };
            if switched.spec_has_projected_pointer() {
                let texturing = ToolboxState {
                    selection: Some(ToolSelection::Texturing),
                    texture_brush: texturebrush::BrushSettings {
                        textures_used: update::textures_used_after_selection(switched.texture_brush.textures_used, false),
                        ..switched.texture_brush
                    },
                    ..switched
                };
                law_sync_shows_one_view_at_most(texturing, rs_before);
            }
        },
        _ => {},
    }
}

} // verus!
