//! The render settings that the editor switches: textures left out of the
//! rendering and the "render only" views, of which at most one is shown.
use vstd::prelude::*;

verus! {

/// Render settings of the terrain that the editor changes.
#[derive(Debug, Clone, Copy, PartialEq, Eq, Structural)]
pub struct TerrainRenderSettings {
    pub ignore_overlay_texture: bool,
    pub ignore_bkgrnd_texture: bool,

    pub show_fragment_normals: bool,
    pub show_combined_normals: bool,
    pub show_blend_threshold: bool,
    pub show_bkgrnd_scaling: bool,
    pub show_tint_map: bool,
    pub show_lightheight_map: bool,
}

impl Default for TerrainRenderSettings {
    /// Everything rendered, no exclusive view.
    fn default() -> (res: TerrainRenderSettings)
        ensures
            !res.ignore_overlay_texture,
            !res.ignore_bkgrnd_texture,
            !res.spec_exclusive_view_active(),
    {
        TerrainRenderSettings {
            ignore_overlay_texture: false,
            ignore_bkgrnd_texture: false,
            show_fragment_normals: false,
            show_combined_normals: false,
            show_blend_threshold: false,
            show_bkgrnd_scaling: false,
            show_tint_map: false,
            show_lightheight_map: false,
        }
    }
}

/// The views that replace the normal rendering; only one can be applied.
#[derive(Debug, Clone, Copy, PartialEq, Eq, Structural)]
pub enum ExclusiveViewSelection {
    Normals,
    CombinedNormals,
    BlendThreshold,
    UvScaling,
    TintMap,
    LightheightMap,
}

/// Number of `true` values among the flags.
pub open spec fn count_set(flags: Seq<bool>) -> nat
    decreases flags.len(),
{
    if flags.len() == 0 {
        0
    } else {
        count_set(flags.drop_last()) + if flags.last() { 1nat } else { 0nat }
    }
}

impl TerrainRenderSettings {
    /// The flags of the exclusive views, in the order of `ExclusiveViewSelection`.
    pub open spec fn exclusive_flags(self) -> Seq<bool> {
        seq![
            self.show_fragment_normals,
            self.show_combined_normals,
            self.show_blend_threshold,
            self.show_bkgrnd_scaling,
            self.show_tint_map,
            self.show_lightheight_map,
        ]
    }

    /// The flag of the view `sel`.
    pub open spec fn view_flag(self, sel: ExclusiveViewSelection) -> bool {
        match sel {
            ExclusiveViewSelection::Normals => self.show_fragment_normals,
            ExclusiveViewSelection::CombinedNormals => self.show_combined_normals,
            ExclusiveViewSelection::BlendThreshold => self.show_blend_threshold,
            ExclusiveViewSelection::UvScaling => self.show_bkgrnd_scaling,
            ExclusiveViewSelection::TintMap => self.show_tint_map,
            ExclusiveViewSelection::LightheightMap => self.show_lightheight_map,
        }
    }

    /// No exclusive view is shown; the other settings are those of `self`.
    pub open spec fn without_exclusive_view(self) -> TerrainRenderSettings {
        TerrainRenderSettings {
            show_fragment_normals: false,
            show_combined_normals: false,
            show_blend_threshold: false,
            show_bkgrnd_scaling: false,
            show_tint_map: false,
            show_lightheight_map: false,
            ..self
        }
    }

    /// Some exclusive view is shown.
    pub open spec fn spec_exclusive_view_active(self) -> bool {
        self.show_fragment_normals || self.show_combined_normals || self.show_blend_threshold
            || self.show_bkgrnd_scaling || self.show_tint_map || self.show_lightheight_map
    }

    /// Switches all exclusive views off.
    pub fn reset_exclusive_view(&mut self)
        ensures
            *final(self) == old(self).without_exclusive_view(),
    {
        self.show_fragment_normals = false;
        self.show_combined_normals = false;
        self.show_blend_threshold = false;
        self.show_bkgrnd_scaling = false;
        self.show_tint_map = false;
        self.show_lightheight_map = false;
    }

    /// True if an exclusive view is shown.
    pub fn exclusive_view_active(&self) -> (res: bool)
        ensures
            res == self.spec_exclusive_view_active(),
    {
        self.show_fragment_normals || self.show_combined_normals || self.show_blend_threshold
            || self.show_bkgrnd_scaling || self.show_tint_map || self.show_lightheight_map
    }
}

/// Shows the view `selection` if `value`, and no other exclusive view.
pub fn select_exclusive_view(
    settings: &mut TerrainRenderSettings,
    selection: ExclusiveViewSelection,
    value: bool,
)
    ensures
        final(settings).view_flag(selection) == value,
        forall|other: ExclusiveViewSelection| other != selection ==> !final(settings).view_flag(other),
        final(settings).ignore_overlay_texture == old(settings).ignore_overlay_texture,
        final(settings).ignore_bkgrnd_texture == old(settings).ignore_bkgrnd_texture,
        count_set(final(settings).exclusive_flags()) == if value { 1nat } else { 0nat },
{
    settings.reset_exclusive_view();
    match selection {
        ExclusiveViewSelection::Normals => settings.show_fragment_normals = value,
        ExclusiveViewSelection::CombinedNormals => settings.show_combined_normals = value,
        ExclusiveViewSelection::BlendThreshold => settings.show_blend_threshold = value,
        ExclusiveViewSelection::UvScaling => settings.show_bkgrnd_scaling = value,
        ExclusiveViewSelection::TintMap => settings.show_tint_map = value,
        ExclusiveViewSelection::LightheightMap => settings.show_lightheight_map = value,
    }
    proof {
        lemma_single_view(*settings, selection, value);
    }
}

/// Settings in which no view but `selection` can be shown show one view
/// exactly when `selection` is shown.
proof fn lemma_single_view(
    after: TerrainRenderSettings,
    selection: ExclusiveViewSelection,
    value: bool,
)
    requires
        after.view_flag(selection) == value,
        forall|other: ExclusiveViewSelection| other != selection ==> !after.view_flag(other),
    ensures
        count_set(after.exclusive_flags()) == if value { 1nat } else { 0nat },
{
    let f = after.exclusive_flags();
    assert(!after.view_flag(ExclusiveViewSelection::Normals) || selection == ExclusiveViewSelection::Normals);
    assert(!after.view_flag(ExclusiveViewSelection::CombinedNormals) || selection == ExclusiveViewSelection::CombinedNormals);
    assert(!after.view_flag(ExclusiveViewSelection::BlendThreshold) || selection == ExclusiveViewSelection::BlendThreshold);
    assert(!after.view_flag(ExclusiveViewSelection::UvScaling) || selection == ExclusiveViewSelection::UvScaling);
    assert(!after.view_flag(ExclusiveViewSelection::TintMap) || selection == ExclusiveViewSelection::TintMap);
    assert(!after.view_flag(ExclusiveViewSelection::LightheightMap) || selection == ExclusiveViewSelection::LightheightMap);
    assert(f.drop_last().drop_last().drop_last().drop_last().drop_last().drop_last() =~= Seq::<bool>::empty());
    reveal_with_fuel(count_set, 7);
}

} // verus!
