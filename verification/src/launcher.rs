//! The launcher's own setup: its module identity and actions, the magic
//! words and presets its query engine starts with, and its theme.

use vstd::prelude::*;
use crate::item::{copy_texts, text_list1, texts};
use crate::text::owned;

verus! {

/// An action the launcher registers with the DAW.
#[derive(Clone, Debug, PartialEq, Eq)]
pub struct LauncherAction {
    pub command_id: String,
    pub display_name: String,
}

pub open spec fn launcher_action_views(v: Seq<LauncherAction>) -> Seq<(Seq<char>, Seq<char>)> {
    v.map_values(|a: LauncherAction| (a.command_id@, a.display_name@))
}

/// The launcher's DAW actions: toggle the launcher, and focus its search.
pub open spec fn launcher_actions_spec() -> Seq<(Seq<char>, Seq<char>)> {
    seq![
        ("FTS_LAUNCHER_TOGGLE"@, "FTS: Toggle Launcher"@),
        ("FTS_LAUNCHER_FOCUS"@, "FTS: Focus Launcher Search"@),
    ]
}

/// The launcher's DAW actions (each runs a handler that app code attaches).
pub fn launcher_actions() -> (r: Vec<LauncherAction>)
    ensures
        launcher_action_views(r@) == launcher_actions_spec(),
{
    let r = vec![
        LauncherAction {
            command_id: owned("FTS_LAUNCHER_TOGGLE"),
            display_name: owned("FTS: Toggle Launcher"),
        },
        LauncherAction {
            command_id: owned("FTS_LAUNCHER_FOCUS"),
            display_name: owned("FTS: Focus Launcher Search"),
        },
    ];
    assert(launcher_action_views(r@) =~= launcher_actions_spec());
    r
}

/// The launcher as a module of the DAW.
#[derive(Clone, Copy, Debug, PartialEq, Eq, Structural)]
pub struct LauncherModule;

impl LauncherModule {
    pub fn name(&self) -> (r: &str)
        ensures
            r@ == "launcher"@,
    {
        "launcher"
    }

    pub fn display_name(&self) -> (r: &str)
        ensures
            r@ == "FTS Launcher"@,
    {
        "FTS Launcher"
    }

    /// The actions the module registers.
    pub fn actions(&self) -> (r: Vec<LauncherAction>)
        ensures
            launcher_action_views(r@) == launcher_actions_spec(),
    {
        launcher_actions()
    }
}

/// The most results the query engine returns.
pub const MAX_RESULTS: usize = 50;

/// The directory of bundled workflow packs: the configured one, else `packs`.
pub fn bundled_packs_dir(configured: Option<String>) -> (r: String)
    ensures
        r@ == match configured {
            Some(d) => d@,
            None => "packs"@,
        },
{
    match configured {
        Some(d) => d,
        None => owned("packs"),
    }
}

/// The directory of bundled extensions: the configured one, else `extensions`.
pub fn bundled_extensions_dir(configured: Option<String>) -> (r: String)
    ensures
        r@ == match configured {
            Some(d) => d@,
            None => "extensions"@,
        },
{
    match configured {
        Some(d) => d,
        None => owned("extensions"),
    }
}

/// The magic words (a one-letter shortcut and the preset it selects).
pub open spec fn magic_words_spec() -> Seq<(Seq<char>, Seq<char>)> {
    seq![
        ("C"@, "Compressors"@),
        ("R"@, "Reverbs"@),
        ("E"@, "EQ"@),
        ("I"@, "Instruments"@),
        ("A"@, "Actions"@),
        ("V"@, "Visibility"@),
        ("T"@, "Tracks"@),
    ]
}

pub open spec fn pair_views(v: Seq<(String, String)>) -> Seq<(Seq<char>, Seq<char>)> {
    v.map_values(|p: (String, String)| (p.0@, p.1@))
}

fn pair(a: &str, b: &str) -> (r: (String, String))
    ensures
        r.0@ == a@,
        r.1@ == b@,
{
    (owned(a), owned(b))
}

/// The magic words the query engine starts with.
pub fn magic_words() -> (r: Vec<(String, String)>)
    ensures
        pair_views(r@) == magic_words_spec(),
{
    let r = vec![
        pair("C", "Compressors"),
        pair("R", "Reverbs"),
        pair("E", "EQ"),
        pair("I", "Instruments"),
        pair("A", "Actions"),
        pair("V", "Visibility"),
        pair("T", "Tracks"),
    ];
    assert(pair_views(r@) =~= magic_words_spec());
    r
}

/// A named filter preset: the tags it includes and those it excludes.
#[derive(Clone, Debug, PartialEq, Eq)]
pub struct PresetDef {
    pub name: String,
    pub included: Vec<String>,
    pub excluded: Vec<String>,
}

pub struct PresetView {
    pub name: Seq<char>,
    pub included: Seq<Seq<char>>,
    pub excluded: Seq<Seq<char>>,
}

impl View for PresetDef {
    type V = PresetView;

    open spec fn view(&self) -> PresetView {
        PresetView { name: self.name@, included: texts(self.included@), excluded: texts(self.excluded@) }
    }
}

pub open spec fn preset_views(v: Seq<PresetDef>) -> Seq<PresetView> {
    v.map_values(|p: PresetDef| p@)
}

pub open spec fn preset_names(v: Seq<PresetView>) -> Seq<Seq<char>> {
    v.map_values(|p: PresetView| p.name)
}

pub open spec fn default_preset(name: Seq<char>, tag: Seq<char>) -> PresetView {
    PresetView { name, included: seq![tag], excluded: Seq::empty() }
}

/// The presets seeded when absent, each including one tag.
pub open spec fn default_presets_spec() -> Seq<PresetView> {
    seq![
        default_preset("Compressors"@, "audio/effects/dynamics"@),
        default_preset("Reverbs"@, "audio/effects/reverb"@),
        default_preset("EQ"@, "audio/effects/eq"@),
        default_preset("Instruments"@, "audio/instruments"@),
        default_preset("Actions"@, "reaper/actions"@),
        default_preset("Tracks"@, "reaper/tracks"@),
    ]
}

fn preset(name: &str, tag: &str) -> (p: PresetDef)
    ensures
        p@ == default_preset(name@, tag@),
{
    let p = PresetDef { name: owned(name), included: text_list1(tag), excluded: Vec::new() };
    assert(p@.excluded =~= Seq::empty());
    p
}

/// The default presets.
pub fn default_presets() -> (r: Vec<PresetDef>)
    ensures
        preset_views(r@) == default_presets_spec(),
{
    let r = vec![
        preset("Compressors", "audio/effects/dynamics"),
        preset("Reverbs", "audio/effects/reverb"),
        preset("EQ", "audio/effects/eq"),
        preset("Instruments", "audio/instruments"),
        preset("Actions", "reaper/actions"),
        preset("Tracks", "reaper/tracks"),
    ];
    assert(preset_views(r@) =~= default_presets_spec());
    r
}

/// The presets saved when `candidates` are offered in order to a store that
/// already holds presets named `existing`: a candidate is saved when no
/// preset of its name is stored yet, and a saved preset is then found by name.
pub open spec fn seeded(existing: Seq<Seq<char>>, candidates: Seq<PresetView>) -> Seq<PresetView>
    decreases candidates.len(),
{
    if candidates.len() == 0 {
        Seq::empty()
    } else {
        let prev = seeded(existing, candidates.drop_last());
        let c = candidates.last();
        if existing.contains(c.name) || preset_names(prev).contains(c.name) {
            prev
        } else {
            prev.push(c)
        }
    }
}

fn copy_preset(p: &PresetDef) -> (r: PresetDef)
    ensures
        r@ == p@,
{
    PresetDef { name: p.name.clone(), included: copy_texts(&p.included), excluded: copy_texts(&p.excluded) }
}

fn has_text(v: &Vec<String>, s: &String) -> (r: bool)
    ensures
        r == texts(v@).contains(s@),
{
    for i in 0..v.len()
        invariant
            forall|k: int| 0 <= k < i ==> v@[k]@ != s@,
    {
        if v[i] == *s {
            assert(texts(v@)[i as int] == s@);
            return true;
        }
    }
    false
}

/// The presets to save, in order: the packs' presets, then the default
/// ones, each unless a preset of its name is already stored (`existing`) or
/// saved before it.
pub fn presets_to_save(existing: &Vec<String>, pack_presets: &Vec<PresetDef>) -> (r: Vec<PresetDef>)
    ensures
        preset_views(r@) == seeded(
            texts(existing@),
            preset_views(pack_presets@) + default_presets_spec(),
        ),
{
    let defaults = default_presets();
    let mut candidates: Vec<PresetDef> = Vec::new();
    for i in 0..pack_presets.len()
        invariant
            candidates@.len() == i,
            forall|k: int| 0 <= k < i ==> #[trigger] candidates@[k]@ == pack_presets@[k]@,
    {
        candidates.push(copy_preset(&pack_presets[i]));
    }
    let n = pack_presets.len();
    for i in 0..defaults.len()
        invariant
            n == pack_presets.len(),
            candidates@.len() == n + i,
            forall|k: int| 0 <= k < n ==> #[trigger] candidates@[k]@ == pack_presets@[k]@,
            forall|k: int| 0 <= k < i ==> #[trigger] candidates@[n + k]@ == defaults@[k]@,
    {
        candidates.push(copy_preset(&defaults[i]));
        assert(candidates@[n + i]@ == defaults@[i as int]@);
    }
    let ghost all = preset_views(candidates@);
    assert forall|k: int| n <= k < candidates@.len() implies #[trigger] candidates@[k]@ == defaults@[k - n]@ by {
        assert(candidates@[n + (k - n)]@ == defaults@[k - n]@);
    }
    assert(all =~= preset_views(pack_presets@) + default_presets_spec());
    let mut known = copy_texts(existing);
    let mut saved: Vec<PresetDef> = Vec::new();
    for i in 0..candidates.len()
        invariant
            all == preset_views(candidates@),
            preset_views(saved@) == seeded(texts(existing@), all.take(i as int)),
            texts(known@) == texts(existing@) + preset_names(preset_views(saved@)),
    {
        let ghost prev = preset_views(saved@);
        assert(all.take(i + 1).drop_last() =~= all.take(i as int));
        let c = &candidates[i];
        proof {
            assert(texts(known@).contains(c.name@) <==> (texts(existing@).contains(c.name@)
                || preset_names(prev).contains(c.name@))) by {
                if texts(known@).contains(c.name@) {
                    let j = choose|j: int| 0 <= j < texts(known@).len() && texts(known@)[j] == c.name@;
                    if j >= texts(existing@).len() {
                        assert(preset_names(prev)[j - texts(existing@).len()] == c.name@);
                    }
                }
                if texts(existing@).contains(c.name@) {
                    let j = choose|j: int| 0 <= j < texts(existing@).len() && texts(existing@)[j] == c.name@;
                    assert(texts(known@)[j] == c.name@);
                }
                if preset_names(prev).contains(c.name@) {
                    let j = choose|j: int| 0 <= j < preset_names(prev).len() && preset_names(prev)[j] == c.name@;
                    assert(texts(known@)[texts(existing@).len() + j] == c.name@);
                }
            }
        }
        if !has_text(&known, &c.name) {
            let ghost old_known = texts(known@);
            known.push(c.name.clone());
            assert(texts(known@) =~= old_known.push(c.name@));
            saved.push(copy_preset(c));
            assert(preset_views(saved@) =~= prev.push(all[i as int]));
            assert(preset_names(preset_views(saved@)) =~= preset_names(prev).push(c.name@));
            assert(texts(known@) =~= texts(existing@) + preset_names(preset_views(saved@)));
        }
    }
    assert(all.take(candidates.len() as int) =~= all);
    saved
}

/// Seeding presets: no two saved presets share a name, none is named like a
/// preset already stored, each saved preset is one of those offered, and
/// afterwards every offered name is stored.
pub proof fn seeding_keeps_names_unique(existing: Seq<Seq<char>>, candidates: Seq<PresetView>)
    ensures
        preset_names(seeded(existing, candidates)).no_duplicates(),
        forall|k: int|
            0 <= k < seeded(existing, candidates).len() ==> !existing.contains(
                #[trigger] seeded(existing, candidates)[k].name,
            ),
        forall|k: int|
            0 <= k < seeded(existing, candidates).len() ==> candidates.contains(
                #[trigger] seeded(existing, candidates)[k],
            ),
        forall|k: int|
            0 <= k < candidates.len() ==> existing.contains(#[trigger] candidates[k].name)
                || preset_names(seeded(existing, candidates)).contains(candidates[k].name),
    decreases candidates.len(),
{
    if candidates.len() > 0 {
        let init = candidates.drop_last();
        let c = candidates.last();
        seeding_keeps_names_unique(existing, init);
        let prev = seeded(existing, init);
        let cur = seeded(existing, candidates);
        assert forall|k: int| 0 <= k < prev.len() implies candidates.contains(#[trigger] prev[k]) by {
            let j = choose|j: int| 0 <= j < init.len() && init[j] == prev[k];
            assert(candidates[j] == prev[k]);
        }
        if !(existing.contains(c.name) || preset_names(prev).contains(c.name)) {
            assert(cur == prev.push(c));
            assert(preset_names(cur) =~= preset_names(prev).push(c.name));
            assert(candidates[candidates.len() - 1] == c);
            assert(preset_names(cur)[prev.len() as int] == c.name);
            assert forall|k: int| 0 <= k < candidates.len() implies existing.contains(
                #[trigger] candidates[k].name,
            ) || preset_names(cur).contains(candidates[k].name) by {
                if k < init.len() {
                    assert(init[k] == candidates[k]);
                    if preset_names(prev).contains(candidates[k].name) {
                        let j = choose|j: int| 0 <= j < preset_names(prev).len() && preset_names(prev)[j] == candidates[k].name;
                        assert(preset_names(cur)[j] == candidates[k].name);
                    }
                }
            }
        } else {
            assert forall|k: int| 0 <= k < candidates.len() implies existing.contains(
                #[trigger] candidates[k].name,
            ) || preset_names(cur).contains(candidates[k].name) by {
                if k < init.len() {
                    assert(init[k] == candidates[k]);
                }
            }
        }
    }
}

/// The launcher's theme: the dark theme, renamed, with a pink accent.
#[derive(Clone, Debug, PartialEq, Eq)]
pub struct FtsTheme {
    pub name: String,
    pub accent: String,
    pub accent_hover: String,
}

/// The theme's name and accent colors.
pub fn fts_theme() -> (t: FtsTheme)
    ensures
        t.name@ == "fts-dark"@,
        t.accent@ == "#f5c2e7"@,
        t.accent_hover@ == "#f5c2e7"@,
{
    FtsTheme { name: owned("fts-dark"), accent: owned("#f5c2e7"), accent_hover: owned("#f5c2e7") }
}

} // verus!
