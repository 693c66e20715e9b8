//! The Reaper tag taxonomy: the tags, colors and aliases for Reaper concepts.

use vstd::prelude::*;
use crate::reaper::actions::{action_item, actions_config, common_action_rows, common_action_tags_are_registered};
use crate::reaper::fx::{fx_config, fx_item};
use crate::reaper::markers::{marker_item, markers_config, region_item, MarkerInfo, RegionInfo};
use crate::reaper::tracks::{track_item, tracks_config, TrackInfo};
use crate::reaper::transport::{transport_config, transport_items};
use crate::text::{ascii_lowercase, last_index, lemma_last_index_is, lemma_last_index_none, owned};

verus! {

broadcast use vstd::string::group_string_axioms;

/// One registration made on a tag registry.
#[derive(Clone, Debug, PartialEq, Eq)]
pub enum TagOp {
    /// Registers the tag `id` with a display name and a description.
    Register { id: String, name: String, description: String },
    /// Gives the tag `id` a color.
    SetColor { id: String, color: String },
    /// Makes `alias` another name for the tag `target`.
    Alias { alias: String, target: String },
}

pub enum TagOpView {
    Register { id: Seq<char>, name: Seq<char>, description: Seq<char> },
    SetColor { id: Seq<char>, color: Seq<char> },
    Alias { alias: Seq<char>, target: Seq<char> },
}

impl View for TagOp {
    type V = TagOpView;

    open spec fn view(&self) -> TagOpView {
        match self {
            TagOp::Register { id, name, description } => TagOpView::Register {
                id: id@,
                name: name@,
                description: description@,
            },
            TagOp::SetColor { id, color } => TagOpView::SetColor { id: id@, color: color@ },
            TagOp::Alias { alias, target } => TagOpView::Alias { alias: alias@, target: target@ },
        }
    }
}

pub open spec fn tag_op_views(ops: Seq<TagOp>) -> Seq<TagOpView> {
    ops.map_values(|op: TagOp| op@)
}

pub open spec fn register_op(id: Seq<char>, name: Seq<char>, description: Seq<char>) -> TagOpView {
    TagOpView::Register { id, name, description }
}

pub open spec fn color_op(id: Seq<char>, color: Seq<char>) -> TagOpView {
    TagOpView::SetColor { id, color }
}

pub open spec fn alias_op(alias: Seq<char>, target: Seq<char>) -> TagOpView {
    TagOpView::Alias { alias, target }
}

/// A tag registry, kept as the registrations made on it, in order.
pub struct TagRegistry {
    ops: Vec<TagOp>,
}

impl TagRegistry {
    /// The registrations made so far, in order.
    pub closed spec fn ops(&self) -> Seq<TagOpView> {
        tag_op_views(self.ops@)
    }

    /// A registry with no registrations.
    pub fn new() -> (r: Self)
        ensures
            r.ops() == Seq::<TagOpView>::empty(),
    {
        let r = TagRegistry { ops: Vec::new() };
        assert(r.ops() =~= Seq::empty());
        r
    }

    /// The registrations made so far, in order.
    pub fn operations(&self) -> (r: &Vec<TagOp>)
        ensures
            tag_op_views(r@) == self.ops(),
    {
        &self.ops
    }

    /// Registers the tag `id`.
    pub fn register(&mut self, id: &str, name: &str, description: &str)
        ensures
            final(self).ops() == old(self).ops().push(register_op(id@, name@, description@)),
    {
        self.ops.push(TagOp::Register { id: owned(id), name: owned(name), description: owned(description) });
        assert(self.ops() =~= old(self).ops().push(register_op(id@, name@, description@)));
    }

    /// Gives the tag `id` a color.
    pub fn set_color(&mut self, id: &str, color: &str)
        ensures
            final(self).ops() == old(self).ops().push(color_op(id@, color@)),
    {
        self.ops.push(TagOp::SetColor { id: owned(id), color: owned(color) });
        assert(self.ops() =~= old(self).ops().push(color_op(id@, color@)));
    }

    /// Makes `alias` another name for the tag `target`.
    pub fn alias(&mut self, alias: &str, target: &str)
        ensures
            final(self).ops() == old(self).ops().push(alias_op(alias@, target@)),
    {
        self.ops.push(TagOp::Alias { alias: owned(alias), target: owned(target) });
        assert(self.ops() =~= old(self).ops().push(alias_op(alias@, target@)));
    }
}

/// The audio tags (green family): effects, plugin formats and instruments.
pub open spec fn audio_tag_ops() -> Seq<TagOpView> {
    seq![
        register_op("audio"@, "Audio"@, "Audio production"@),
        color_op("audio"@, "#a6e3a1"@),
        register_op("audio/effects"@, "Effects"@, "Audio effects"@),
        color_op("audio/effects"@, "#a6e3a1"@),
        register_op("audio/effects/reverb"@, "Reverb"@, "Reverb effects"@),
        register_op("audio/effects/delay"@, "Delay"@, "Delay effects"@),
        register_op("audio/effects/eq"@, "EQ"@, "Equalizers"@),
        register_op("audio/effects/dynamics"@, "Dynamics"@, "Compressors, gates, limiters"@),
        register_op("audio/effects/distortion"@, "Distortion"@, "Distortion and saturation"@),
        color_op("audio/effects/distortion"@, "#f38ba8"@),
        register_op("audio/effects/modulation"@, "Modulation"@, "Chorus, flanger, phaser"@),
        color_op("audio/effects/modulation"@, "#74c7ec"@),
        register_op("audio/effects/filter"@, "Filter"@, "Filter effects"@),
        register_op("audio/effects/stereo"@, "Stereo"@, "Stereo width and imaging"@),
        register_op("audio/effects/pitch"@, "Pitch"@, "Pitch shifting and correction"@),
        register_op("audio/effects/utility"@, "Utility"@, "Utility effects (gain, phase, etc.)"@),
        register_op("audio/effects/plugin"@, "Plugins"@, "Plugin formats"@),
        register_op("audio/effects/plugin/vst"@, "VST"@, "VST2 plugins"@),
        register_op("audio/effects/plugin/vst3"@, "VST3"@, "VST3 plugins"@),
        register_op("audio/effects/plugin/clap"@, "CLAP"@, "CLAP plugins"@),
        register_op("audio/effects/plugin/jsfx"@, "JSFX"@, "Jesusonic effects"@),
        register_op("audio/effects/plugin/lv2"@, "LV2"@, "LV2 plugins"@),
        register_op("audio/instruments"@, "Instruments"@, "Virtual instruments"@),
        color_op("audio/instruments"@, "#94e2d5"@),
        register_op("audio/instruments/synth"@, "Synth"@, "Synthesizers"@),
        register_op("audio/instruments/sampler"@, "Sampler"@, "Samplers"@),
        register_op("audio/instruments/piano"@, "Piano"@, "Piano instruments"@),
        register_op("audio/instruments/drums"@, "Drums"@, "Drum machines"@),
        register_op("audio/instruments/organ"@, "Organ"@, "Organ instruments"@),
        register_op("audio/instruments/strings"@, "Strings"@, "String instruments"@),
        register_op("audio/instruments/bass"@, "Bass"@, "Bass instruments"@),
    ]
}

/// The Reaper tags (peach family): actions, tracks, FX chains, items, markers, templates and visibility.
pub open spec fn reaper_tag_group_ops() -> Seq<TagOpView> {
    seq![
        register_op("reaper"@, "Reaper"@, "Reaper DAW"@),
        color_op("reaper"@, "#fab387"@),
        register_op("reaper/actions"@, "Actions"@, "Reaper actions"@),
        color_op("reaper/actions"@, "#fab387"@),
        register_op("reaper/actions/file"@, "File"@, "File operations"@),
        register_op("reaper/actions/edit"@, "Edit"@, "Edit operations"@),
        register_op("reaper/actions/transport"@, "Transport"@, "Transport controls"@),
        register_op("reaper/actions/view"@, "View"@, "View/UI actions"@),
        register_op("reaper/actions/insert"@, "Insert"@, "Insert operations"@),
        register_op("reaper/actions/item"@, "Item"@, "Media item actions"@),
        register_op("reaper/actions/track"@, "Track"@, "Track actions"@),
        register_op("reaper/actions/options"@, "Options"@, "Options/preferences"@),
        register_op("reaper/actions/extensions"@, "Extensions"@, "Extension actions"@),
        register_op("reaper/actions/scripts"@, "Scripts"@, "ReaScript actions"@),
        register_op("reaper/tracks"@, "Tracks"@, "Reaper tracks"@),
        color_op("reaper/tracks"@, "#f5c2e7"@),
        register_op("reaper/fx-chains"@, "FX Chains"@, "Saved FX chain presets"@),
        color_op("reaper/fx-chains"@, "#89b4fa"@),
        register_op("reaper/items"@, "Items"@, "Media items"@),
        color_op("reaper/items"@, "#f9e2af"@),
        register_op("reaper/markers"@, "Markers"@, "Markers and regions"@),
        color_op("reaper/markers"@, "#cba6f7"@),
        register_op("reaper/markers/marker"@, "Marker"@, "Project markers"@),
        register_op("reaper/markers/region"@, "Region"@, "Project regions"@),
        register_op("reaper/templates"@, "Templates"@, "Project and track templates"@),
        register_op("reaper/templates/project"@, "Project Templates"@, "Project templates"@),
        register_op("reaper/templates/track"@, "Track Templates"@, "Track templates"@),
        register_op("reaper/visibility"@, "Visibility"@, "Track visibility controls"@),
        color_op("reaper/visibility"@, "#cba6f7"@),
    ]
}

/// The desktop and tools tags.
pub open spec fn desktop_and_tools_tag_ops() -> Seq<TagOpView> {
    seq![
        register_op("desktop"@, "Desktop"@, "Desktop environment"@),
        color_op("desktop"@, "#89b4fa"@),
        register_op("desktop/applications"@, "Applications"@, "Desktop applications"@),
        register_op("tools"@, "Tools"@, "Utility tools"@),
        color_op("tools"@, "#f9e2af"@),
        register_op("tools/calculator"@, "Calculator"@, "Math calculator"@),
    ]
}

/// The short aliases of frequently used tags.
pub open spec fn alias_tag_ops() -> Seq<TagOpView> {
    seq![
        alias_op("apps"@, "desktop/applications"@),
        alias_op("fx"@, "audio/effects"@),
        alias_op("vst"@, "audio/effects/plugin/vst"@),
        alias_op("vst3"@, "audio/effects/plugin/vst3"@),
        alias_op("clap"@, "audio/effects/plugin/clap"@),
        alias_op("jsfx"@, "audio/effects/plugin/jsfx"@),
        alias_op("inst"@, "audio/instruments"@),
        alias_op("act"@, "reaper/actions"@),
        alias_op("calc"@, "tools/calculator"@),
        alias_op("vis"@, "reaper/visibility"@),
    ]
}

fn register_audio_tags(tags: &mut TagRegistry)
    ensures
        final(tags).ops() == old(tags).ops() + audio_tag_ops(),
{
    let ghost start = tags.ops();
    tags.register("audio", "Audio", "Audio production");
    tags.set_color("audio", "#a6e3a1");

    tags.register("audio/effects", "Effects", "Audio effects");
    tags.set_color("audio/effects", "#a6e3a1");
    tags.register("audio/effects/reverb", "Reverb", "Reverb effects");
    tags.register("audio/effects/delay", "Delay", "Delay effects");
    tags.register("audio/effects/eq", "EQ", "Equalizers");
    tags.register("audio/effects/dynamics", "Dynamics", "Compressors, gates, limiters");
    tags.register("audio/effects/distortion", "Distortion", "Distortion and saturation");
    tags.set_color("audio/effects/distortion", "#f38ba8");
    tags.register("audio/effects/modulation", "Modulation", "Chorus, flanger, phaser");
    tags.set_color("audio/effects/modulation", "#74c7ec");
    tags.register("audio/effects/filter", "Filter", "Filter effects");
    tags.register("audio/effects/stereo", "Stereo", "Stereo width and imaging");
    tags.register("audio/effects/pitch", "Pitch", "Pitch shifting and correction");
    tags.register("audio/effects/utility", "Utility", "Utility effects (gain, phase, etc.)");

    tags.register("audio/effects/plugin", "Plugins", "Plugin formats");
    tags.register("audio/effects/plugin/vst", "VST", "VST2 plugins");
    tags.register("audio/effects/plugin/vst3", "VST3", "VST3 plugins");
    tags.register("audio/effects/plugin/clap", "CLAP", "CLAP plugins");
    tags.register("audio/effects/plugin/jsfx", "JSFX", "Jesusonic effects");
    tags.register("audio/effects/plugin/lv2", "LV2", "LV2 plugins");

    tags.register("audio/instruments", "Instruments", "Virtual instruments");
    tags.set_color("audio/instruments", "#94e2d5");
    tags.register("audio/instruments/synth", "Synth", "Synthesizers");
    tags.register("audio/instruments/sampler", "Sampler", "Samplers");
    tags.register("audio/instruments/piano", "Piano", "Piano instruments");
    tags.register("audio/instruments/drums", "Drums", "Drum machines");
    tags.register("audio/instruments/organ", "Organ", "Organ instruments");
    tags.register("audio/instruments/strings", "Strings", "String instruments");
    tags.register("audio/instruments/bass", "Bass", "Bass instruments");
    assert(tags.ops() =~= start + audio_tag_ops());
}

fn register_reaper_group_tags(tags: &mut TagRegistry)
    ensures
        final(tags).ops() == old(tags).ops() + reaper_tag_group_ops(),
{
    let ghost start = tags.ops();
    tags.register("reaper", "Reaper", "Reaper DAW");
    tags.set_color("reaper", "#fab387");

    tags.register("reaper/actions", "Actions", "Reaper actions");
    tags.set_color("reaper/actions", "#fab387");
    tags.register("reaper/actions/file", "File", "File operations");
    tags.register("reaper/actions/edit", "Edit", "Edit operations");
    tags.register("reaper/actions/transport", "Transport", "Transport controls");
    tags.register("reaper/actions/view", "View", "View/UI actions");
    tags.register("reaper/actions/insert", "Insert", "Insert operations");
    tags.register("reaper/actions/item", "Item", "Media item actions");
    tags.register("reaper/actions/track", "Track", "Track actions");
    tags.register("reaper/actions/options", "Options", "Options/preferences");
    tags.register("reaper/actions/extensions", "Extensions", "Extension actions");
    tags.register("reaper/actions/scripts", "Scripts", "ReaScript actions");

    tags.register("reaper/tracks", "Tracks", "Reaper tracks");
    tags.set_color("reaper/tracks", "#f5c2e7");

    tags.register("reaper/fx-chains", "FX Chains", "Saved FX chain presets");
    tags.set_color("reaper/fx-chains", "#89b4fa");

    tags.register("reaper/items", "Items", "Media items");
    tags.set_color("reaper/items", "#f9e2af");

    tags.register("reaper/markers", "Markers", "Markers and regions");
    tags.set_color("reaper/markers", "#cba6f7");
    tags.register("reaper/markers/marker", "Marker", "Project markers");
    tags.register("reaper/markers/region", "Region", "Project regions");

    tags.register("reaper/templates", "Templates", "Project and track templates");
    tags.register("reaper/templates/project", "Project Templates", "Project templates");
    tags.register("reaper/templates/track", "Track Templates", "Track templates");

    tags.register("reaper/visibility", "Visibility", "Track visibility controls");
    tags.set_color("reaper/visibility", "#cba6f7");
    assert(tags.ops() =~= start + reaper_tag_group_ops());
}

fn register_desktop_and_tools_tags(tags: &mut TagRegistry)
    ensures
        final(tags).ops() == old(tags).ops() + desktop_and_tools_tag_ops(),
{
    let ghost start = tags.ops();
    tags.register("desktop", "Desktop", "Desktop environment");
    tags.set_color("desktop", "#89b4fa");
    tags.register("desktop/applications", "Applications", "Desktop applications");

    tags.register("tools", "Tools", "Utility tools");
    tags.set_color("tools", "#f9e2af");
    tags.register("tools/calculator", "Calculator", "Math calculator");
    assert(tags.ops() =~= start + desktop_and_tools_tag_ops());
}

fn register_alias_tags(tags: &mut TagRegistry)
    ensures
        final(tags).ops() == old(tags).ops() + alias_tag_ops(),
{
    let ghost start = tags.ops();
    tags.alias("apps", "desktop/applications");
    tags.alias("fx", "audio/effects");
    tags.alias("vst", "audio/effects/plugin/vst");
    tags.alias("vst3", "audio/effects/plugin/vst3");
    tags.alias("clap", "audio/effects/plugin/clap");
    tags.alias("jsfx", "audio/effects/plugin/jsfx");
    tags.alias("inst", "audio/instruments");
    tags.alias("act", "reaper/actions");
    tags.alias("calc", "tools/calculator");
    tags.alias("vis", "reaper/visibility");
    assert(tags.ops() =~= start + alias_tag_ops());
}

/// Every registration of the Reaper taxonomy, in order.
pub open spec fn reaper_tag_ops() -> Seq<TagOpView> {
    audio_tag_ops() + reaper_tag_group_ops() + desktop_and_tools_tag_ops() + alias_tag_ops()
}

/// Registers all Reaper-specific tags, with their colors and aliases.
pub fn register_reaper_tags(tags: &mut TagRegistry)
    ensures
        final(tags).ops() == old(tags).ops() + reaper_tag_ops(),
{
    let ghost start = tags.ops();
    register_audio_tags(tags);
    register_reaper_group_tags(tags);
    register_desktop_and_tools_tags(tags);
    register_alias_tags(tags);
    assert(tags.ops() =~= start + reaper_tag_ops());
}

/// `op` registers the tag `id`.
pub open spec fn registers(op: TagOpView, id: Seq<char>) -> bool {
    op matches TagOpView::Register { id: registered, .. } && registered == id
}

/// Some registration before index `k` of `ops` registers `id`.
pub open spec fn registered_before(ops: Seq<TagOpView>, k: int, id: Seq<char>) -> bool {
    exists|j: int| 0 <= j < k && #[trigger] registers(ops[j], id)
}

/// Every color and alias in `ops` is given to a tag registered before it.
pub open spec fn refers_to_registered_tags(ops: Seq<TagOpView>) -> bool {
    forall|k: int|
        0 <= k < ops.len() ==> match #[trigger] ops[k] {
            TagOpView::Register { .. } => true,
            TagOpView::SetColor { id, .. } => registered_before(ops, k, id),
            TagOpView::Alias { target, .. } => registered_before(ops, k, target),
        }
}

/// In the Reaper taxonomy, each color and each alias goes to a tag
/// registered before it.
pub proof fn reaper_taxonomy_refers_to_registered_tags()
    ensures
        refers_to_registered_tags(reaper_tag_ops()),
{
    let ops = reaper_tag_ops();
    assert(ops.len() == 76);
    assert forall|k: int| 0 <= k < ops.len() implies match #[trigger] ops[k] {
        TagOpView::Register { .. } => true,
        TagOpView::SetColor { id, .. } => registered_before(ops, k, id),
        TagOpView::Alias { target, .. } => registered_before(ops, k, target),
    } by {
        if k == 0 {
            assert(ops[0] is Register);
        } else if k == 1 {
            assert(registers(ops[0], ops[1]->SetColor_id));
        } else if k == 2 {
            assert(ops[2] is Register);
        } else if k == 3 {
            assert(registers(ops[2], ops[3]->SetColor_id));
        } else if k == 4 {
            assert(ops[4] is Register);
        } else if k == 5 {
            assert(ops[5] is Register);
        } else if k == 6 {
            assert(ops[6] is Register);
        } else if k == 7 {
            assert(ops[7] is Register);
        } else if k == 8 {
            assert(ops[8] is Register);
        } else if k == 9 {
            assert(registers(ops[8], ops[9]->SetColor_id));
        } else if k == 10 {
            assert(ops[10] is Register);
        } else if k == 11 {
            assert(registers(ops[10], ops[11]->SetColor_id));
        } else if k == 12 {
            assert(ops[12] is Register);
        } else if k == 13 {
            assert(ops[13] is Register);
        } else if k == 14 {
            assert(ops[14] is Register);
        } else if k == 15 {
            assert(ops[15] is Register);
        } else if k == 16 {
            assert(ops[16] is Register);
        } else if k == 17 {
            assert(ops[17] is Register);
        } else if k == 18 {
            assert(ops[18] is Register);
        } else if k == 19 {
            assert(ops[19] is Register);
        } else if k == 20 {
            assert(ops[20] is Register);
        } else if k == 21 {
            assert(ops[21] is Register);
        } else if k == 22 {
            assert(ops[22] is Register);
        } else if k == 23 {
            assert(registers(ops[22], ops[23]->SetColor_id));
        } else if k == 24 {
            assert(ops[24] is Register);
        } else if k == 25 {
            assert(ops[25] is Register);
        } else if k == 26 {
            assert(ops[26] is Register);
        } else if k == 27 {
            assert(ops[27] is Register);
        } else if k == 28 {
            assert(ops[28] is Register);
        } else if k == 29 {
            assert(ops[29] is Register);
        } else if k == 30 {
            assert(ops[30] is Register);
        } else if k == 31 {
            assert(ops[31] is Register);
        } else if k == 32 {
            assert(registers(ops[31], ops[32]->SetColor_id));
        } else if k == 33 {
            assert(ops[33] is Register);
        } else if k == 34 {
            assert(registers(ops[33], ops[34]->SetColor_id));
        } else if k == 35 {
            assert(ops[35] is Register);
        } else if k == 36 {
            assert(ops[36] is Register);
        } else if k == 37 {
            assert(ops[37] is Register);
        } else if k == 38 {
            assert(ops[38] is Register);
        } else if k == 39 {
            assert(ops[39] is Register);
        } else if k == 40 {
            assert(ops[40] is Register);
        } else if k == 41 {
            assert(ops[41] is Register);
        } else if k == 42 {
            assert(ops[42] is Register);
        } else if k == 43 {
            assert(ops[43] is Register);
        } else if k == 44 {
            assert(ops[44] is Register);
        } else if k == 45 {
            assert(ops[45] is Register);
        } else if k == 46 {
            assert(registers(ops[45], ops[46]->SetColor_id));
        } else if k == 47 {
            assert(ops[47] is Register);
        } else if k == 48 {
            assert(registers(ops[47], ops[48]->SetColor_id));
        } else if k == 49 {
            assert(ops[49] is Register);
        } else if k == 50 {
            assert(registers(ops[49], ops[50]->SetColor_id));
        } else if k == 51 {
            assert(ops[51] is Register);
        } else if k == 52 {
            assert(registers(ops[51], ops[52]->SetColor_id));
        } else if k == 53 {
            assert(ops[53] is Register);
        } else if k == 54 {
            assert(ops[54] is Register);
        } else if k == 55 {
            assert(ops[55] is Register);
        } else if k == 56 {
            assert(ops[56] is Register);
        } else if k == 57 {
            assert(ops[57] is Register);
        } else if k == 58 {
            assert(ops[58] is Register);
        } else if k == 59 {
            assert(registers(ops[58], ops[59]->SetColor_id));
        } else if k == 60 {
            assert(ops[60] is Register);
        } else if k == 61 {
            assert(registers(ops[60], ops[61]->SetColor_id));
        } else if k == 62 {
            assert(ops[62] is Register);
        } else if k == 63 {
            assert(ops[63] is Register);
        } else if k == 64 {
            assert(registers(ops[63], ops[64]->SetColor_id));
        } else if k == 65 {
            assert(ops[65] is Register);
        } else if k == 66 {
            assert(registers(ops[62], ops[66]->target));
        } else if k == 67 {
            assert(registers(ops[2], ops[67]->target));
        } else if k == 68 {
            assert(registers(ops[17], ops[68]->target));
        } else if k == 69 {
            assert(registers(ops[18], ops[69]->target));
        } else if k == 70 {
            assert(registers(ops[19], ops[70]->target));
        } else if k == 71 {
            assert(registers(ops[20], ops[71]->target));
        } else if k == 72 {
            assert(registers(ops[22], ops[72]->target));
        } else if k == 73 {
            assert(registers(ops[33], ops[73]->target));
        } else if k == 74 {
            assert(registers(ops[65], ops[74]->target));
        } else if k == 75 {
            assert(registers(ops[58], ops[75]->target));
        }
    }
}

/// The tag that contains `id`: `id` up to its last `/`.
pub open spec fn parent_tag(id: Seq<char>) -> Seq<char> {
    id.take(last_index(id, '/'))
}

/// Every registration in `ops` of a nested tag (one with a `/`) comes after
/// a registration of the tag that contains it.
pub open spec fn nests_under_registered_tags(ops: Seq<TagOpView>) -> bool {
    forall|k: int|
        0 <= k < ops.len() ==> match #[trigger] ops[k] {
            TagOpView::Register { id, .. } => last_index(id, '/') >= 0 ==> registered_before(ops, k, parent_tag(id)),
            _ => true,
        }
}

/// The Reaper taxonomy is a hierarchy: each nested tag is registered after
/// the tag that contains it.
pub proof fn reaper_taxonomy_nests_under_registered_tags()
    ensures
        nests_under_registered_tags(reaper_tag_ops()),
{
    let ops = reaper_tag_ops();
    assert(ops.len() == 76);
    assert forall|k: int| 0 <= k < ops.len() implies match #[trigger] ops[k] {
        TagOpView::Register { id, .. } => last_index(id, '/') >= 0 ==> registered_before(ops, k, parent_tag(id)),
        _ => true,
    } by {
        if k == 0 {
            reveal_strlit("audio");
            lemma_last_index_none("audio"@, '/', 5);
        } else if k == 1 {
            assert(!(ops[1] is Register));
        } else if k == 2 {
            reveal_strlit("audio/effects");
            reveal_strlit("audio");
            lemma_last_index_is("audio/effects"@, '/', 13, 5);
            assert("audio/effects"@.take(5) =~= "audio"@);
            assert(registers(ops[0], parent_tag("audio/effects"@)));
        } else if k == 3 {
            assert(!(ops[3] is Register));
        } else if k == 4 {
            reveal_strlit("audio/effects/reverb");
            reveal_strlit("audio/effects");
            lemma_last_index_is("audio/effects/reverb"@, '/', 20, 13);
            assert("audio/effects/reverb"@.take(13) =~= "audio/effects"@);
            assert(registers(ops[2], parent_tag("audio/effects/reverb"@)));
        } else if k == 5 {
            reveal_strlit("audio/effects/delay");
            reveal_strlit("audio/effects");
            lemma_last_index_is("audio/effects/delay"@, '/', 19, 13);
            assert("audio/effects/delay"@.take(13) =~= "audio/effects"@);
            assert(registers(ops[2], parent_tag("audio/effects/delay"@)));
        } else if k == 6 {
            reveal_strlit("audio/effects/eq");
            reveal_strlit("audio/effects");
            lemma_last_index_is("audio/effects/eq"@, '/', 16, 13);
            assert("audio/effects/eq"@.take(13) =~= "audio/effects"@);
            assert(registers(ops[2], parent_tag("audio/effects/eq"@)));
        } else if k == 7 {
            reveal_strlit("audio/effects/dynamics");
            reveal_strlit("audio/effects");
            lemma_last_index_is("audio/effects/dynamics"@, '/', 22, 13);
            assert("audio/effects/dynamics"@.take(13) =~= "audio/effects"@);
            assert(registers(ops[2], parent_tag("audio/effects/dynamics"@)));
        } else if k == 8 {
            reveal_strlit("audio/effects/distortion");
            reveal_strlit("audio/effects");
            lemma_last_index_is("audio/effects/distortion"@, '/', 24, 13);
            assert("audio/effects/distortion"@.take(13) =~= "audio/effects"@);
            assert(registers(ops[2], parent_tag("audio/effects/distortion"@)));
        } else if k == 9 {
            assert(!(ops[9] is Register));
        } else if k == 10 {
            reveal_strlit("audio/effects/modulation");
            reveal_strlit("audio/effects");
            lemma_last_index_is("audio/effects/modulation"@, '/', 24, 13);
            assert("audio/effects/modulation"@.take(13) =~= "audio/effects"@);
            assert(registers(ops[2], parent_tag("audio/effects/modulation"@)));
        } else if k == 11 {
            assert(!(ops[11] is Register));
        } else if k == 12 {
            reveal_strlit("audio/effects/filter");
            reveal_strlit("audio/effects");
            lemma_last_index_is("audio/effects/filter"@, '/', 20, 13);
            assert("audio/effects/filter"@.take(13) =~= "audio/effects"@);
            assert(registers(ops[2], parent_tag("audio/effects/filter"@)));
        } else if k == 13 {
            reveal_strlit("audio/effects/stereo");
            reveal_strlit("audio/effects");
            lemma_last_index_is("audio/effects/stereo"@, '/', 20, 13);
            assert("audio/effects/stereo"@.take(13) =~= "audio/effects"@);
            assert(registers(ops[2], parent_tag("audio/effects/stereo"@)));
        } else if k == 14 {
            reveal_strlit("audio/effects/pitch");
            reveal_strlit("audio/effects");
            lemma_last_index_is("audio/effects/pitch"@, '/', 19, 13);
            assert("audio/effects/pitch"@.take(13) =~= "audio/effects"@);
            assert(registers(ops[2], parent_tag("audio/effects/pitch"@)));
        } else if k == 15 {
            reveal_strlit("audio/effects/utility");
            reveal_strlit("audio/effects");
            lemma_last_index_is("audio/effects/utility"@, '/', 21, 13);
            assert("audio/effects/utility"@.take(13) =~= "audio/effects"@);
            assert(registers(ops[2], parent_tag("audio/effects/utility"@)));
        } else if k == 16 {
            reveal_strlit("audio/effects/plugin");
            reveal_strlit("audio/effects");
            lemma_last_index_is("audio/effects/plugin"@, '/', 20, 13);
            assert("audio/effects/plugin"@.take(13) =~= "audio/effects"@);
            assert(registers(ops[2], parent_tag("audio/effects/plugin"@)));
        } else if k == 17 {
            reveal_strlit("audio/effects/plugin/vst");
            reveal_strlit("audio/effects/plugin");
            lemma_last_index_is("audio/effects/plugin/vst"@, '/', 24, 20);
            assert("audio/effects/plugin/vst"@.take(20) =~= "audio/effects/plugin"@);
            assert(registers(ops[16], parent_tag("audio/effects/plugin/vst"@)));
        } else if k == 18 {
            reveal_strlit("audio/effects/plugin/vst3");
            reveal_strlit("audio/effects/plugin");
            lemma_last_index_is("audio/effects/plugin/vst3"@, '/', 25, 20);
            assert("audio/effects/plugin/vst3"@.take(20) =~= "audio/effects/plugin"@);
            assert(registers(ops[16], parent_tag("audio/effects/plugin/vst3"@)));
        } else if k == 19 {
            reveal_strlit("audio/effects/plugin/clap");
            reveal_strlit("audio/effects/plugin");
            lemma_last_index_is("audio/effects/plugin/clap"@, '/', 25, 20);
            assert("audio/effects/plugin/clap"@.take(20) =~= "audio/effects/plugin"@);
            assert(registers(ops[16], parent_tag("audio/effects/plugin/clap"@)));
        } else if k == 20 {
            reveal_strlit("audio/effects/plugin/jsfx");
            reveal_strlit("audio/effects/plugin");
            lemma_last_index_is("audio/effects/plugin/jsfx"@, '/', 25, 20);
            assert("audio/effects/plugin/jsfx"@.take(20) =~= "audio/effects/plugin"@);
            assert(registers(ops[16], parent_tag("audio/effects/plugin/jsfx"@)));
        } else if k == 21 {
            reveal_strlit("audio/effects/plugin/lv2");
            reveal_strlit("audio/effects/plugin");
            lemma_last_index_is("audio/effects/plugin/lv2"@, '/', 24, 20);
            assert("audio/effects/plugin/lv2"@.take(20) =~= "audio/effects/plugin"@);
            assert(registers(ops[16], parent_tag("audio/effects/plugin/lv2"@)));
        } else if k == 22 {
            reveal_strlit("audio/instruments");
            reveal_strlit("audio");
            lemma_last_index_is("audio/instruments"@, '/', 17, 5);
            assert("audio/instruments"@.take(5) =~= "audio"@);
            assert(registers(ops[0], parent_tag("audio/instruments"@)));
        } else if k == 23 {
            assert(!(ops[23] is Register));
        } else if k == 24 {
            reveal_strlit("audio/instruments/synth");
            reveal_strlit("audio/instruments");
            lemma_last_index_is("audio/instruments/synth"@, '/', 23, 17);
            assert("audio/instruments/synth"@.take(17) =~= "audio/instruments"@);
            assert(registers(ops[22], parent_tag("audio/instruments/synth"@)));
        } else if k == 25 {
            reveal_strlit("audio/instruments/sampler");
            reveal_strlit("audio/instruments");
            lemma_last_index_is("audio/instruments/sampler"@, '/', 25, 17);
            assert("audio/instruments/sampler"@.take(17) =~= "audio/instruments"@);
            assert(registers(ops[22], parent_tag("audio/instruments/sampler"@)));
        } else if k == 26 {
            reveal_strlit("audio/instruments/piano");
            reveal_strlit("audio/instruments");
            lemma_last_index_is("audio/instruments/piano"@, '/', 23, 17);
            assert("audio/instruments/piano"@.take(17) =~= "audio/instruments"@);
            assert(registers(ops[22], parent_tag("audio/instruments/piano"@)));
        } else if k == 27 {
            reveal_strlit("audio/instruments/drums");
            reveal_strlit("audio/instruments");
            lemma_last_index_is("audio/instruments/drums"@, '/', 23, 17);
            assert("audio/instruments/drums"@.take(17) =~= "audio/instruments"@);
            assert(registers(ops[22], parent_tag("audio/instruments/drums"@)));
        } else if k == 28 {
            reveal_strlit("audio/instruments/organ");
            reveal_strlit("audio/instruments");
            lemma_last_index_is("audio/instruments/organ"@, '/', 23, 17);
            assert("audio/instruments/organ"@.take(17) =~= "audio/instruments"@);
            assert(registers(ops[22], parent_tag("audio/instruments/organ"@)));
        } else if k == 29 {
            reveal_strlit("audio/instruments/strings");
            reveal_strlit("audio/instruments");
            lemma_last_index_is("audio/instruments/strings"@, '/', 25, 17);
            assert("audio/instruments/strings"@.take(17) =~= "audio/instruments"@);
            assert(registers(ops[22], parent_tag("audio/instruments/strings"@)));
        } else if k == 30 {
            reveal_strlit("audio/instruments/bass");
            reveal_strlit("audio/instruments");
            lemma_last_index_is("audio/instruments/bass"@, '/', 22, 17);
            assert("audio/instruments/bass"@.take(17) =~= "audio/instruments"@);
            assert(registers(ops[22], parent_tag("audio/instruments/bass"@)));
        } else if k == 31 {
            reveal_strlit("reaper");
            lemma_last_index_none("reaper"@, '/', 6);
        } else if k == 32 {
            assert(!(ops[32] is Register));
        } else if k == 33 {
            reveal_strlit("reaper/actions");
            reveal_strlit("reaper");
            lemma_last_index_is("reaper/actions"@, '/', 14, 6);
            assert("reaper/actions"@.take(6) =~= "reaper"@);
            assert(registers(ops[31], parent_tag("reaper/actions"@)));
        } else if k == 34 {
            assert(!(ops[34] is Register));
        } else if k == 35 {
            reveal_strlit("reaper/actions/file");
            reveal_strlit("reaper/actions");
            lemma_last_index_is("reaper/actions/file"@, '/', 19, 14);
            assert("reaper/actions/file"@.take(14) =~= "reaper/actions"@);
            assert(registers(ops[33], parent_tag("reaper/actions/file"@)));
        } else if k == 36 {
            reveal_strlit("reaper/actions/edit");
            reveal_strlit("reaper/actions");
            lemma_last_index_is("reaper/actions/edit"@, '/', 19, 14);
            assert("reaper/actions/edit"@.take(14) =~= "reaper/actions"@);
            assert(registers(ops[33], parent_tag("reaper/actions/edit"@)));
        } else if k == 37 {
            reveal_strlit("reaper/actions/transport");
            reveal_strlit("reaper/actions");
            lemma_last_index_is("reaper/actions/transport"@, '/', 24, 14);
            assert("reaper/actions/transport"@.take(14) =~= "reaper/actions"@);
            assert(registers(ops[33], parent_tag("reaper/actions/transport"@)));
        } else if k == 38 {
            reveal_strlit("reaper/actions/view");
            reveal_strlit("reaper/actions");
            lemma_last_index_is("reaper/actions/view"@, '/', 19, 14);
            assert("reaper/actions/view"@.take(14) =~= "reaper/actions"@);
            assert(registers(ops[33], parent_tag("reaper/actions/view"@)));
        } else if k == 39 {
            reveal_strlit("reaper/actions/insert");
            reveal_strlit("reaper/actions");
            lemma_last_index_is("reaper/actions/insert"@, '/', 21, 14);
            assert("reaper/actions/insert"@.take(14) =~= "reaper/actions"@);
            assert(registers(ops[33], parent_tag("reaper/actions/insert"@)));
        } else if k == 40 {
            reveal_strlit("reaper/actions/item");
            reveal_strlit("reaper/actions");
            lemma_last_index_is("reaper/actions/item"@, '/', 19, 14);
            assert("reaper/actions/item"@.take(14) =~= "reaper/actions"@);
            assert(registers(ops[33], parent_tag("reaper/actions/item"@)));
        } else if k == 41 {
            reveal_strlit("reaper/actions/track");
            reveal_strlit("reaper/actions");
            lemma_last_index_is("reaper/actions/track"@, '/', 20, 14);
            assert("reaper/actions/track"@.take(14) =~= "reaper/actions"@);
            assert(registers(ops[33], parent_tag("reaper/actions/track"@)));
        } else if k == 42 {
            reveal_strlit("reaper/actions/options");
            reveal_strlit("reaper/actions");
            lemma_last_index_is("reaper/actions/options"@, '/', 22, 14);
            assert("reaper/actions/options"@.take(14) =~= "reaper/actions"@);
            assert(registers(ops[33], parent_tag("reaper/actions/options"@)));
        } else if k == 43 {
            reveal_strlit("reaper/actions/extensions");
            reveal_strlit("reaper/actions");
            lemma_last_index_is("reaper/actions/extensions"@, '/', 25, 14);
            assert("reaper/actions/extensions"@.take(14) =~= "reaper/actions"@);
            assert(registers(ops[33], parent_tag("reaper/actions/extensions"@)));
        } else if k == 44 {
            reveal_strlit("reaper/actions/scripts");
            reveal_strlit("reaper/actions");
            lemma_last_index_is("reaper/actions/scripts"@, '/', 22, 14);
            assert("reaper/actions/scripts"@.take(14) =~= "reaper/actions"@);
            assert(registers(ops[33], parent_tag("reaper/actions/scripts"@)));
        } else if k == 45 {
            reveal_strlit("reaper/tracks");
            reveal_strlit("reaper");
            lemma_last_index_is("reaper/tracks"@, '/', 13, 6);
            assert("reaper/tracks"@.take(6) =~= "reaper"@);
            assert(registers(ops[31], parent_tag("reaper/tracks"@)));
        } else if k == 46 {
            assert(!(ops[46] is Register));
        } else if k == 47 {
            reveal_strlit("reaper/fx-chains");
            reveal_strlit("reaper");
            lemma_last_index_is("reaper/fx-chains"@, '/', 16, 6);
            assert("reaper/fx-chains"@.take(6) =~= "reaper"@);
            assert(registers(ops[31], parent_tag("reaper/fx-chains"@)));
        } else if k == 48 {
            assert(!(ops[48] is Register));
        } else if k == 49 {
            reveal_strlit("reaper/items");
            reveal_strlit("reaper");
            lemma_last_index_is("reaper/items"@, '/', 12, 6);
            assert("reaper/items"@.take(6) =~= "reaper"@);
            assert(registers(ops[31], parent_tag("reaper/items"@)));
        } else if k == 50 {
            assert(!(ops[50] is Register));
        } else if k == 51 {
            reveal_strlit("reaper/markers");
            reveal_strlit("reaper");
            lemma_last_index_is("reaper/markers"@, '/', 14, 6);
            assert("reaper/markers"@.take(6) =~= "reaper"@);
            assert(registers(ops[31], parent_tag("reaper/markers"@)));
        } else if k == 52 {
            assert(!(ops[52] is Register));
        } else if k == 53 {
            reveal_strlit("reaper/markers/marker");
            reveal_strlit("reaper/markers");
            lemma_last_index_is("reaper/markers/marker"@, '/', 21, 14);
            assert("reaper/markers/marker"@.take(14) =~= "reaper/markers"@);
            assert(registers(ops[51], parent_tag("reaper/markers/marker"@)));
        } else if k == 54 {
            reveal_strlit("reaper/markers/region");
            reveal_strlit("reaper/markers");
            lemma_last_index_is("reaper/markers/region"@, '/', 21, 14);
            assert("reaper/markers/region"@.take(14) =~= "reaper/markers"@);
            assert(registers(ops[51], parent_tag("reaper/markers/region"@)));
        } else if k == 55 {
            reveal_strlit("reaper/templates");
            reveal_strlit("reaper");
            lemma_last_index_is("reaper/templates"@, '/', 16, 6);
            assert("reaper/templates"@.take(6) =~= "reaper"@);
            assert(registers(ops[31], parent_tag("reaper/templates"@)));
        } else if k == 56 {
            reveal_strlit("reaper/templates/project");
            reveal_strlit("reaper/templates");
            lemma_last_index_is("reaper/templates/project"@, '/', 24, 16);
            assert("reaper/templates/project"@.take(16) =~= "reaper/templates"@);
            assert(registers(ops[55], parent_tag("reaper/templates/project"@)));
        } else if k == 57 {
            reveal_strlit("reaper/templates/track");
            reveal_strlit("reaper/templates");
            lemma_last_index_is("reaper/templates/track"@, '/', 22, 16);
            assert("reaper/templates/track"@.take(16) =~= "reaper/templates"@);
            assert(registers(ops[55], parent_tag("reaper/templates/track"@)));
        } else if k == 58 {
            reveal_strlit("reaper/visibility");
            reveal_strlit("reaper");
            lemma_last_index_is("reaper/visibility"@, '/', 17, 6);
            assert("reaper/visibility"@.take(6) =~= "reaper"@);
            assert(registers(ops[31], parent_tag("reaper/visibility"@)));
        } else if k == 59 {
            assert(!(ops[59] is Register));
        } else if k == 60 {
            reveal_strlit("desktop");
            lemma_last_index_none("desktop"@, '/', 7);
        } else if k == 61 {
            assert(!(ops[61] is Register));
        } else if k == 62 {
            reveal_strlit("desktop/applications");
            reveal_strlit("desktop");
            lemma_last_index_is("desktop/applications"@, '/', 20, 7);
            assert("desktop/applications"@.take(7) =~= "desktop"@);
            assert(registers(ops[60], parent_tag("desktop/applications"@)));
        } else if k == 63 {
            reveal_strlit("tools");
            lemma_last_index_none("tools"@, '/', 5);
        } else if k == 64 {
            assert(!(ops[64] is Register));
        } else if k == 65 {
            reveal_strlit("tools/calculator");
            reveal_strlit("tools");
            lemma_last_index_is("tools/calculator"@, '/', 16, 5);
            assert("tools/calculator"@.take(5) =~= "tools"@);
            assert(registers(ops[63], parent_tag("tools/calculator"@)));
        } else if k == 66 {
            assert(!(ops[66] is Register));
        } else if k == 67 {
            assert(!(ops[67] is Register));
        } else if k == 68 {
            assert(!(ops[68] is Register));
        } else if k == 69 {
            assert(!(ops[69] is Register));
        } else if k == 70 {
            assert(!(ops[70] is Register));
        } else if k == 71 {
            assert(!(ops[71] is Register));
        } else if k == 72 {
            assert(!(ops[72] is Register));
        } else if k == 73 {
            assert(!(ops[73] is Register));
        } else if k == 74 {
            assert(!(ops[74] is Register));
        } else if k == 75 {
            assert(!(ops[75] is Register));
        }
    }
}

/// Some registration of the Reaper taxonomy registers `id`.
pub open spec fn in_reaper_taxonomy(id: Seq<char>) -> bool {
    exists|j: int| 0 <= j < reaper_tag_ops().len() && #[trigger] registers(reaper_tag_ops()[j], id)
}

/// The Reaper taxonomy registers every tag of `tags`.
pub open spec fn all_in_reaper_taxonomy(tags: Seq<Seq<char>>) -> bool {
    forall|i: int| 0 <= i < tags.len() ==> in_reaper_taxonomy(#[trigger] tags[i])
}

/// The Reaper taxonomy does not register the tag of Audio Unit plugins.
proof fn lemma_au_tag_unregistered()
    ensures
        !in_reaper_taxonomy("audio/effects/plugin/au"@),
{
    let ops = reaper_tag_ops();
    reveal_strlit("audio/effects/plugin/au");
    assert(ops.len() == 76);
    assert forall|j: int| 0 <= j < ops.len() implies !#[trigger] registers(ops[j], "audio/effects/plugin/au"@) by {
        if j == 0 {
            reveal_strlit("audio");
            assert(ops[0]->Register_id.len() == 5);
        } else if j == 1 {
            assert(!(ops[1] is Register));
        } else if j == 2 {
            reveal_strlit("audio/effects");
            assert(ops[2]->Register_id.len() == 13);
        } else if j == 3 {
            assert(!(ops[3] is Register));
        } else if j == 4 {
            reveal_strlit("audio/effects/reverb");
            assert(ops[4]->Register_id.len() == 20);
        } else if j == 5 {
            reveal_strlit("audio/effects/delay");
            assert(ops[5]->Register_id.len() == 19);
        } else if j == 6 {
            reveal_strlit("audio/effects/eq");
            assert(ops[6]->Register_id.len() == 16);
        } else if j == 7 {
            reveal_strlit("audio/effects/dynamics");
            assert(ops[7]->Register_id.len() == 22);
        } else if j == 8 {
            reveal_strlit("audio/effects/distortion");
            assert(ops[8]->Register_id.len() == 24);
        } else if j == 9 {
            assert(!(ops[9] is Register));
        } else if j == 10 {
            reveal_strlit("audio/effects/modulation");
            assert(ops[10]->Register_id.len() == 24);
        } else if j == 11 {
            assert(!(ops[11] is Register));
        } else if j == 12 {
            reveal_strlit("audio/effects/filter");
            assert(ops[12]->Register_id.len() == 20);
        } else if j == 13 {
            reveal_strlit("audio/effects/stereo");
            assert(ops[13]->Register_id.len() == 20);
        } else if j == 14 {
            reveal_strlit("audio/effects/pitch");
            assert(ops[14]->Register_id.len() == 19);
        } else if j == 15 {
            reveal_strlit("audio/effects/utility");
            assert(ops[15]->Register_id.len() == 21);
        } else if j == 16 {
            reveal_strlit("audio/effects/plugin");
            assert(ops[16]->Register_id.len() == 20);
        } else if j == 17 {
            reveal_strlit("audio/effects/plugin/vst");
            assert(ops[17]->Register_id.len() == 24);
        } else if j == 18 {
            reveal_strlit("audio/effects/plugin/vst3");
            assert(ops[18]->Register_id.len() == 25);
        } else if j == 19 {
            reveal_strlit("audio/effects/plugin/clap");
            assert(ops[19]->Register_id.len() == 25);
        } else if j == 20 {
            reveal_strlit("audio/effects/plugin/jsfx");
            assert(ops[20]->Register_id.len() == 25);
        } else if j == 21 {
            reveal_strlit("audio/effects/plugin/lv2");
            assert(ops[21]->Register_id.len() == 24);
        } else if j == 22 {
            reveal_strlit("audio/instruments");
            assert(ops[22]->Register_id.len() == 17);
        } else if j == 23 {
            assert(!(ops[23] is Register));
        } else if j == 24 {
            reveal_strlit("audio/instruments/synth");
            assert(ops[24]->Register_id[6] != "audio/effects/plugin/au"@[6]);
        } else if j == 25 {
            reveal_strlit("audio/instruments/sampler");
            assert(ops[25]->Register_id.len() == 25);
        } else if j == 26 {
            reveal_strlit("audio/instruments/piano");
            assert(ops[26]->Register_id[6] != "audio/effects/plugin/au"@[6]);
        } else if j == 27 {
            reveal_strlit("audio/instruments/drums");
            assert(ops[27]->Register_id[6] != "audio/effects/plugin/au"@[6]);
        } else if j == 28 {
            reveal_strlit("audio/instruments/organ");
            assert(ops[28]->Register_id[6] != "audio/effects/plugin/au"@[6]);
        } else if j == 29 {
            reveal_strlit("audio/instruments/strings");
            assert(ops[29]->Register_id.len() == 25);
        } else if j == 30 {
            reveal_strlit("audio/instruments/bass");
            assert(ops[30]->Register_id.len() == 22);
        } else if j == 31 {
            reveal_strlit("reaper");
            assert(ops[31]->Register_id.len() == 6);
        } else if j == 32 {
            assert(!(ops[32] is Register));
        } else if j == 33 {
            reveal_strlit("reaper/actions");
            assert(ops[33]->Register_id.len() == 14);
        } else if j == 34 {
            assert(!(ops[34] is Register));
        } else if j == 35 {
            reveal_strlit("reaper/actions/file");
            assert(ops[35]->Register_id.len() == 19);
        } else if j == 36 {
            reveal_strlit("reaper/actions/edit");
            assert(ops[36]->Register_id.len() == 19);
        } else if j == 37 {
            reveal_strlit("reaper/actions/transport");
            assert(ops[37]->Register_id.len() == 24);
        } else if j == 38 {
            reveal_strlit("reaper/actions/view");
            assert(ops[38]->Register_id.len() == 19);
        } else if j == 39 {
            reveal_strlit("reaper/actions/insert");
            assert(ops[39]->Register_id.len() == 21);
        } else if j == 40 {
            reveal_strlit("reaper/actions/item");
            assert(ops[40]->Register_id.len() == 19);
        } else if j == 41 {
            reveal_strlit("reaper/actions/track");
            assert(ops[41]->Register_id.len() == 20);
        } else if j == 42 {
            reveal_strlit("reaper/actions/options");
            assert(ops[42]->Register_id.len() == 22);
        } else if j == 43 {
            reveal_strlit("reaper/actions/extensions");
            assert(ops[43]->Register_id.len() == 25);
        } else if j == 44 {
            reveal_strlit("reaper/actions/scripts");
            assert(ops[44]->Register_id.len() == 22);
        } else if j == 45 {
            reveal_strlit("reaper/tracks");
            assert(ops[45]->Register_id.len() == 13);
        } else if j == 46 {
            assert(!(ops[46] is Register));
        } else if j == 47 {
            reveal_strlit("reaper/fx-chains");
            assert(ops[47]->Register_id.len() == 16);
        } else if j == 48 {
            assert(!(ops[48] is Register));
        } else if j == 49 {
            reveal_strlit("reaper/items");
            assert(ops[49]->Register_id.len() == 12);
        } else if j == 50 {
            assert(!(ops[50] is Register));
        } else if j == 51 {
            reveal_strlit("reaper/markers");
            assert(ops[51]->Register_id.len() == 14);
        } else if j == 52 {
            assert(!(ops[52] is Register));
        } else if j == 53 {
            reveal_strlit("reaper/markers/marker");
            assert(ops[53]->Register_id.len() == 21);
        } else if j == 54 {
            reveal_strlit("reaper/markers/region");
            assert(ops[54]->Register_id.len() == 21);
        } else if j == 55 {
            reveal_strlit("reaper/templates");
            assert(ops[55]->Register_id.len() == 16);
        } else if j == 56 {
            reveal_strlit("reaper/templates/project");
            assert(ops[56]->Register_id.len() == 24);
        } else if j == 57 {
            reveal_strlit("reaper/templates/track");
            assert(ops[57]->Register_id.len() == 22);
        } else if j == 58 {
            reveal_strlit("reaper/visibility");
            assert(ops[58]->Register_id.len() == 17);
        } else if j == 59 {
            assert(!(ops[59] is Register));
        } else if j == 60 {
            reveal_strlit("desktop");
            assert(ops[60]->Register_id.len() == 7);
        } else if j == 61 {
            assert(!(ops[61] is Register));
        } else if j == 62 {
            reveal_strlit("desktop/applications");
            assert(ops[62]->Register_id.len() == 20);
        } else if j == 63 {
            reveal_strlit("tools");
            assert(ops[63]->Register_id.len() == 5);
        } else if j == 64 {
            assert(!(ops[64] is Register));
        } else if j == 65 {
            reveal_strlit("tools/calculator");
            assert(ops[65]->Register_id.len() == 16);
        } else if j == 66 {
            assert(!(ops[66] is Register));
        } else if j == 67 {
            assert(!(ops[67] is Register));
        } else if j == 68 {
            assert(!(ops[68] is Register));
        } else if j == 69 {
            assert(!(ops[69] is Register));
        } else if j == 70 {
            assert(!(ops[70] is Register));
        } else if j == 71 {
            assert(!(ops[71] is Register));
        } else if j == 72 {
            assert(!(ops[72] is Register));
        } else if j == 73 {
            assert(!(ops[73] is Register));
        } else if j == 74 {
            assert(!(ops[74] is Register));
        } else if j == 75 {
            assert(!(ops[75] is Register));
        }
    }
}

/// Every tag that the DAW providers start with as default tags, or attach
/// to their items, is registered by the Reaper taxonomy: those of tracks,
/// markers, regions, transport controls and plugins, the `reaper/actions`
/// tag of every action, and the section tag of every common action. The one
/// exception is the tag of Audio Unit plugins, `audio/effects/plugin/au`,
/// which the taxonomy does not list.
pub proof fn provider_tags_are_registered(
    track: TrackInfo,
    marker: MarkerInfo,
    region: RegionInfo,
    ident: Seq<char>,
    fx_name: Seq<char>,
    action_id: Seq<char>,
    action_name: Seq<char>,
    section: Seq<char>,
    cmd_id: u32,
)
    ensures
        all_in_reaper_taxonomy(tracks_config().default_tags),
        all_in_reaper_taxonomy(markers_config().default_tags),
        all_in_reaper_taxonomy(transport_config().default_tags),
        all_in_reaper_taxonomy(actions_config().default_tags),
        all_in_reaper_taxonomy(fx_config().default_tags),
        all_in_reaper_taxonomy(track_item(track).tags),
        all_in_reaper_taxonomy(marker_item(marker).tags),
        all_in_reaper_taxonomy(region_item(region).tags),
        forall|k: int| 0 <= k < transport_items().len() ==> all_in_reaper_taxonomy(#[trigger] transport_items()[k].tags),
        fx_item(ident, fx_name).tags[1] != "audio/effects/plugin/au"@ ==> all_in_reaper_taxonomy(
            fx_item(ident, fx_name).tags,
        ),
        !in_reaper_taxonomy("audio/effects/plugin/au"@),
        in_reaper_taxonomy(fx_item(ident, fx_name).tags[0]),
        in_reaper_taxonomy(action_item(action_id, action_name, section, cmd_id).tags[0]),
        forall|k: int|
            0 <= k < common_action_rows().len() ==> in_reaper_taxonomy(
                "reaper/actions/"@ + ascii_lowercase(#[trigger] common_action_rows()[k].2),
            ),
{
    let ops = reaper_tag_ops();
    assert(ops.len() == 76);
    assert(registers(ops[2], "audio/effects"@));
    assert(registers(ops[16], "audio/effects/plugin"@));
    assert(registers(ops[17], "audio/effects/plugin/vst"@));
    assert(registers(ops[18], "audio/effects/plugin/vst3"@));
    assert(registers(ops[19], "audio/effects/plugin/clap"@));
    assert(registers(ops[20], "audio/effects/plugin/jsfx"@));
    assert(registers(ops[22], "audio/instruments"@));
    assert(registers(ops[33], "reaper/actions"@));
    assert(registers(ops[37], "reaper/actions/transport"@));
    assert(registers(ops[45], "reaper/tracks"@));
    assert(registers(ops[53], "reaper/markers/marker"@));
    assert(registers(ops[54], "reaper/markers/region"@));
    assert(all_in_reaper_taxonomy(tracks_config().default_tags)) by {
        assert(tracks_config().default_tags[0] == "reaper/tracks"@);
    }
    assert(all_in_reaper_taxonomy(transport_config().default_tags)) by {
        assert(transport_config().default_tags[0] == "reaper/actions/transport"@);
    }
    assert(all_in_reaper_taxonomy(actions_config().default_tags)) by {
        assert(actions_config().default_tags[0] == "reaper/actions"@);
    }
    assert(all_in_reaper_taxonomy(marker_item(marker).tags)) by {
        assert(marker_item(marker).tags[0] == "reaper/markers/marker"@);
    }
    assert(all_in_reaper_taxonomy(region_item(region).tags)) by {
        assert(region_item(region).tags[0] == "reaper/markers/region"@);
    }
    let fx_tags = fx_item(ident, fx_name).tags;
    assert(in_reaper_taxonomy(fx_tags[0]));
    if fx_tags[1] != "audio/effects/plugin/au"@ {
        assert(in_reaper_taxonomy(fx_tags[1]));
        assert(all_in_reaper_taxonomy(fx_tags));
    }
    assert(in_reaper_taxonomy(action_item(action_id, action_name, section, cmd_id).tags[0]));
    common_action_tags_are_registered();
    lemma_au_tag_unregistered();
}

} // verus!
