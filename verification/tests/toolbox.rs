use terrain_editor::terrain_material::MaterialSlot;
use terrain_editor::terrain_painting::{
    OverwriteProbability, PaintCommand, PickedType, PickerResult, PointerButton, SlopeBlendThreshold,
    TextureScale, Variance,
};
use terrain_editor::terrain_render::{select_exclusive_view, ExclusiveViewSelection, TerrainRenderSettings};
use terrain_editor::toolbox::texturebrush::BrushTexturesUsed;
use terrain_editor::toolbox::update::{
    create_blending_paint_cmds, create_scaling_paint_cmds, create_texture_paint_cmds,
    create_texture_picker_cmds, on_changed_tool_selection, render_only_bkgrnd_material,
    render_only_bkgrnd_scaling, render_only_overlay_material, render_only_slopeblend_threshold,
    update_brush_on_material_selection,
};
use terrain_editor::toolbox::{
    blendingbrush, scalingbrush, texturebrush, BrushClick, ToolSelection, ToolboxAction, ToolboxState,
};

#[test]
fn texture_brush_defaults() {
    let b = texturebrush::BrushSettings::default();
    assert_eq!(b.overlay_texture, MaterialSlot(2));
    assert_eq!(b.bkgrnd_texture, MaterialSlot(1));
    assert_eq!(b.texture_probabilities, (50, 50));
    assert_eq!(b.textures_used, BrushTexturesUsed::OverlayAndBackground);
    assert_eq!(b.texture_probabilities(), (None, None));
}

#[test]
fn texture_probabilities_when_randomized() {
    let mut b = texturebrush::BrushSettings::default();
    b.randomize = true;
    b.texture_probabilities = (30, 100);
    assert_eq!(b.texture_probabilities(), (Some(OverwriteProbability(30)), None));
}

#[test]
fn texture_paint_commands() {
    let mut b = texturebrush::BrushSettings::default();
    assert_eq!(
        create_texture_paint_cmds(PointerButton::Left, &b),
        vec![PaintCommand::SetOverlayMaterial(MaterialSlot(2)), PaintCommand::SetBackgroundMaterial(MaterialSlot(1))]
    );
    assert!(create_texture_paint_cmds(PointerButton::Right, &b).is_empty());
    assert!(create_texture_paint_cmds(PointerButton::Other(4), &b).is_empty());

    b.textures_used = BrushTexturesUsed::Background;
    b.randomize = true;
    b.texture_probabilities = (20, 40);
    b.overwrite_scale = true;
    b.scaling = TextureScale(3);
    b.overwrite_slope_blend = true;
    b.slope_blend = SlopeBlendThreshold(5);
    assert_eq!(
        create_texture_paint_cmds(PointerButton::Left, &b),
        vec![
            PaintCommand::RandomizedSetBackgroundMaterial(OverwriteProbability(40), MaterialSlot(1)),
            PaintCommand::SetBackgroundScaling(TextureScale(3)),
            PaintCommand::SetSlopeBlendThreshold(SlopeBlendThreshold(5)),
        ]
    );
    b.textures_used = BrushTexturesUsed::Overlay;
    b.overwrite_scale = false;
    assert_eq!(
        create_texture_paint_cmds(PointerButton::Left, &b),
        vec![
            PaintCommand::RandomizedSetOverlayMaterial(OverwriteProbability(20), MaterialSlot(2)),
            PaintCommand::SetSlopeBlendThreshold(SlopeBlendThreshold(5)),
        ]
    );
}

#[test]
fn texture_picker_commands() {
    let mut b = texturebrush::BrushSettings::default();
    assert_eq!(
        create_texture_picker_cmds(PointerButton::Left, &b),
        vec![PickedType::OverlayTexture, PickedType::BackgroundTexture]
    );
    b.textures_used = BrushTexturesUsed::Overlay;
    assert_eq!(create_texture_picker_cmds(PointerButton::Left, &b), vec![PickedType::OverlayTexture]);
    b.textures_used = BrushTexturesUsed::Background;
    assert_eq!(create_texture_picker_cmds(PointerButton::Left, &b), vec![PickedType::BackgroundTexture]);
    assert!(create_texture_picker_cmds(PointerButton::Middle, &b).is_empty());
}

#[test]
fn blending_paint_commands() {
    let mut b = blendingbrush::BrushSettings::default();
    assert_eq!(b.draw_probability, 25);
    assert_eq!(b.variance, Variance(2));
    // adjusting by default
    assert_eq!(create_blending_paint_cmds(PointerButton::Left, &b), vec![PaintCommand::IncreaseSlopeBlendThreshold]);
    assert_eq!(create_blending_paint_cmds(PointerButton::Right, &b), vec![PaintCommand::ReduceSlopeBlendThreshold]);
    assert!(create_blending_paint_cmds(PointerButton::Middle, &b).is_empty());

    b.randomize = true;
    b.use_variance = true;
    assert_eq!(
        create_blending_paint_cmds(PointerButton::Left, &b),
        vec![PaintCommand::RandomizedIncreaseSlopeBlendThresholdWithVariance(OverwriteProbability(25), Variance(2))]
    );
    assert_eq!(
        create_blending_paint_cmds(PointerButton::Right, &b),
        vec![PaintCommand::RandomizedReduceSlopeBlendThresholdWithVariance(OverwriteProbability(25), Variance(2))]
    );

    b.adjust_values = false;
    b.slope_blend = SlopeBlendThreshold(4);
    assert_eq!(
        create_blending_paint_cmds(PointerButton::Left, &b),
        vec![PaintCommand::RandomizedSetSlopeBlendThresholdWithVariance(OverwriteProbability(25), SlopeBlendThreshold(4), Variance(2))]
    );
    // a right click does nothing when values are set
    assert!(create_blending_paint_cmds(PointerButton::Right, &b).is_empty());

    b.draw_probability = 100;
    b.use_variance = false;
    assert_eq!(
        create_blending_paint_cmds(PointerButton::Left, &b),
        vec![PaintCommand::SetSlopeBlendThreshold(SlopeBlendThreshold(4))]
    );
}

#[test]
fn scaling_paint_commands() {
    let mut b = scalingbrush::BrushSettings::default();
    assert_eq!(b.draw_probability, 50);
    assert_eq!(b.variance, Variance(1));
    assert_eq!(create_scaling_paint_cmds(PointerButton::Left, &b), vec![PaintCommand::IncreaseBackgroundScaling]);
    assert_eq!(create_scaling_paint_cmds(PointerButton::Right, &b), vec![PaintCommand::ReduceBackgroundScaling]);
    b.use_variance = true;
    assert_eq!(
        create_scaling_paint_cmds(PointerButton::Left, &b),
        vec![PaintCommand::IncreaseBackgroundScalingWithVariance(Variance(1))]
    );
    b.adjust_values = false;
    b.randomize = true;
    b.scaling = TextureScale(6);
    assert_eq!(
        create_scaling_paint_cmds(PointerButton::Left, &b),
        vec![PaintCommand::RandomizedSetBackgroundScalingWithVariance(OverwriteProbability(50), TextureScale(6), Variance(1))]
    );
    b.use_variance = false;
    assert_eq!(
        create_scaling_paint_cmds(PointerButton::Left, &b),
        vec![PaintCommand::RandomizedSetBackgroundScaling(OverwriteProbability(50), TextureScale(6))]
    );
    assert!(create_scaling_paint_cmds(PointerButton::Right, &b).is_empty());
}

#[test]
fn exclusive_views_are_exclusive() {
    let mut rs = TerrainRenderSettings::default();
    rs.show_tint_map = true;
    rs.show_fragment_normals = true;
    rs.ignore_overlay_texture = true;
    select_exclusive_view(&mut rs, ExclusiveViewSelection::BlendThreshold, true);
    assert!(rs.show_blend_threshold);
    assert!(!rs.show_tint_map && !rs.show_fragment_normals);
    assert!(rs.ignore_overlay_texture);
    assert!(rs.exclusive_view_active());
    select_exclusive_view(&mut rs, ExclusiveViewSelection::BlendThreshold, false);
    assert!(!rs.exclusive_view_active());
}

#[test]
fn render_only_one_material() {
    let mut b = texturebrush::BrushSettings::default();
    let mut rs = TerrainRenderSettings::default();
    rs.show_bkgrnd_scaling = true;
    render_only_overlay_material(&mut b, &mut rs, true);
    assert!(b.show_only_overlay && !b.show_only_background);
    assert!(rs.ignore_bkgrnd_texture && !rs.ignore_overlay_texture);
    assert!(!rs.exclusive_view_active());

    render_only_bkgrnd_material(&mut b, &mut rs, true);
    assert!(!b.show_only_overlay && b.show_only_background);
    assert!(rs.ignore_overlay_texture && !rs.ignore_bkgrnd_texture);

    render_only_bkgrnd_material(&mut b, &mut rs, false);
    assert!(!b.show_only_background);
    assert!(!rs.ignore_overlay_texture && !rs.ignore_bkgrnd_texture);
}

#[test]
fn render_only_scaling_and_blending_views() {
    let mut sb = scalingbrush::BrushSettings::default();
    let mut bb = blendingbrush::BrushSettings::default();
    let mut rs = TerrainRenderSettings::default();
    render_only_bkgrnd_scaling(&mut sb, &mut rs, true);
    assert!(sb.show_bkgrnd_scaling && rs.show_bkgrnd_scaling);
    render_only_slopeblend_threshold(&mut bb, &mut rs, true);
    assert!(bb.show_blend_threshold && rs.show_blend_threshold);
    assert!(!rs.show_bkgrnd_scaling);
}

#[test]
fn brush_clicks() {
    let mut t = ToolboxState::default();
    assert!(!t.has_projected_pointer());
    assert!(t.brush_click(PointerButton::Left).is_none());

    t.selection = Some(ToolSelection::MaterialParameters);
    assert!(t.brush_click(PointerButton::Left).is_none());

    t.selection = Some(ToolSelection::Blending);
    match t.brush_click(PointerButton::Left) {
        Some(BrushClick::Paint(cmds)) => assert_eq!(cmds, vec![PaintCommand::IncreaseSlopeBlendThreshold]),
        other => panic!("unexpected {:?}", other),
    }
    t.blending_brush.picker_activated = true;
    match t.brush_click(PointerButton::Right) {
        Some(BrushClick::Pick(picks)) => assert_eq!(picks, vec![PickedType::SlopeBlendThreshold]),
        other => panic!("unexpected {:?}", other),
    }
    t.reset_picker();
    assert!(!t.blending_brush.picker_activated);
    assert!(matches!(t.brush_click(PointerButton::Left), Some(BrushClick::Paint(_))));

    t.selection = Some(ToolSelection::Scaling);
    t.scaling_brush.picker_activated = true;
    match t.brush_click(PointerButton::Left) {
        Some(BrushClick::Pick(picks)) => assert_eq!(picks, vec![PickedType::BackgroundScaling]),
        other => panic!("unexpected {:?}", other),
    }
}

#[test]
fn tool_change_syncs_render_settings() {
    let mut t = ToolboxState::default();
    let mut rs = TerrainRenderSettings::default();
    t.selection = Some(ToolSelection::Blending);
    t.blending_brush.picker_activated = true;
    t.blending_brush.show_blend_threshold = true;
    rs.ignore_overlay_texture = true;
    rs.show_tint_map = true;
    assert!(on_changed_tool_selection(&mut t, &mut rs));
    assert!(!t.blending_brush.picker_activated);
    assert!(!rs.ignore_overlay_texture && !rs.ignore_bkgrnd_texture);
    assert!(rs.show_blend_threshold && !rs.show_tint_map);

    t.selection = Some(ToolSelection::MaterialParameters);
    let before = rs;
    assert!(!on_changed_tool_selection(&mut t, &mut rs));
    assert_eq!(rs, before);
}

#[test]
fn material_selection_switches_to_texturing() {
    let mut t = ToolboxState::default();
    let mut rs = TerrainRenderSettings::default();
    // without a brush tool nothing changes
    assert!(!update_brush_on_material_selection(&mut t, &mut rs, true));
    assert_eq!(t.selection, None);

    t.selection = Some(ToolSelection::Scaling);
    t.texture_brush.textures_used = BrushTexturesUsed::Background;
    rs.show_bkgrnd_scaling = true;
    assert!(update_brush_on_material_selection(&mut t, &mut rs, true));
    assert_eq!(t.selection, Some(ToolSelection::Texturing));
    assert_eq!(t.texture_brush.textures_used, BrushTexturesUsed::Overlay);
    assert!(!rs.exclusive_view_active());

    // selecting the background while both are used keeps both
    t.texture_brush.textures_used = BrushTexturesUsed::OverlayAndBackground;
    assert!(update_brush_on_material_selection(&mut t, &mut rs, false));
    assert_eq!(t.texture_brush.textures_used, BrushTexturesUsed::OverlayAndBackground);
}

#[test]
fn picker_results_update_brushes() {
    let mut t = ToolboxState::default();
    let mut rs = TerrainRenderSettings::default();
    t.selection = Some(ToolSelection::Texturing);
    t.texture_brush.textures_used = BrushTexturesUsed::Overlay;
    assert!(t.apply_picker_result(&mut rs, PickerResult::BackgroundTexture(MaterialSlot(7))));
    assert_eq!(t.texture_brush.bkgrnd_texture, MaterialSlot(7));
    assert_eq!(t.texture_brush.textures_used, BrushTexturesUsed::Background);

    assert!(t.apply_picker_result(&mut rs, PickerResult::OverlayTexture(MaterialSlot(4))));
    assert_eq!(t.texture_brush.overlay_texture, MaterialSlot(4));

    t.selection = Some(ToolSelection::Blending);
    assert!(t.apply_picker_result(&mut rs, PickerResult::BlendThreshold(SlopeBlendThreshold(6))));
    assert_eq!(t.blending_brush.slope_blend, SlopeBlendThreshold(6));
    assert!(!t.blending_brush.adjust_values);

    assert!(t.apply_picker_result(&mut rs, PickerResult::BackgroundScaling(TextureScale(2))));
    assert_eq!(t.scaling_brush.scaling, TextureScale(2));
    assert!(!t.scaling_brush.adjust_values);
    assert_eq!(t.selection, Some(ToolSelection::Blending));
}

#[test]
fn material_slot_conversion() {
    assert_eq!(MaterialSlot::from(9).value(), 9);
    assert_eq!(OverwriteProbability::from(12), OverwriteProbability(12));
}

#[test]
fn toolbox_actions_change_brushes_and_views() {
    let mut t = ToolboxState::default();
    let mut rs = TerrainRenderSettings::default();
    // no tool selected: there is no brush pointer to redraw
    assert!(!t.apply_action(&mut rs, ToolboxAction::UpdateBrushSettings));
    assert!(t.apply_action(&mut rs, ToolboxAction::ChangedToolSelection(Some(ToolSelection::Blending))));
    assert_eq!(t.selection, Some(ToolSelection::Blending));
    assert!(t.apply_action(&mut rs, ToolboxAction::UpdateBrushSettings));
    // selecting a material switches to the texturing tool
    assert!(t.apply_action(&mut rs, ToolboxAction::SelectOverlayTexture(MaterialSlot(7))));
    assert_eq!(t.selection, Some(ToolSelection::Texturing));
    assert_eq!(t.texture_brush.overlay_texture, MaterialSlot(7));
    assert!(!t.apply_action(&mut rs, ToolboxAction::ShowOnlyOverlayTexture(true)));
    assert!(rs.ignore_bkgrnd_texture && !rs.ignore_overlay_texture);
    assert!(t.texture_brush.show_only_overlay && !t.texture_brush.show_only_background);
    assert!(t.apply_action(&mut rs, ToolboxAction::TexturePickerSelected(true)));
    assert!(t.texture_brush.picker_activated);
    assert!(!t.apply_action(&mut rs, ToolboxAction::ShowSlopeBlendThreshold(true)));
    assert!(rs.show_blend_threshold && t.blending_brush.show_blend_threshold);
    assert!(t.apply_action(&mut rs, ToolboxAction::BkgrndScalingPickerSelected(true)));
    assert!(t.scaling_brush.picker_activated);
}

#[test]
fn toolbox_actions_keep_one_exclusive_view() {
    let mut t = ToolboxState::default();
    let mut rs = TerrainRenderSettings::default();
    rs.show_tint_map = true;
    assert!(!t.apply_action(&mut rs, ToolboxAction::ShowBackgroundScaling(true)));
    assert!(rs.show_bkgrnd_scaling && !rs.show_tint_map && !rs.show_blend_threshold);
    assert!(!t.apply_action(&mut rs, ToolboxAction::ShowSlopeBlendThreshold(true)));
    assert!(rs.show_blend_threshold && !rs.show_bkgrnd_scaling);
    assert!(!t.apply_action(&mut rs, ToolboxAction::ShowOnlyBackgroundTexture(true)));
    assert!(!rs.exclusive_view_active());
    assert!(rs.ignore_overlay_texture && !rs.ignore_bkgrnd_texture);
}
