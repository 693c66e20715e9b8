//! The tracks provider: live track data from the current project.

use vstd::prelude::*;
use crate::item::{
    action_command, action_keeps_open, copy_items, find_action, item_views, texts, ActionModifier, ActivationResult, Item,
    ItemAction, ItemActionView, ItemView, ProviderConfig, ProviderConfigView,
};
use crate::text::{
    concat, decimal, ends_with, lemma_split_three_parts, owned, split_in_three, split_three, u32_to_text,
};

verus! {

broadcast use vstd::string::group_string_axioms;

/// The DAW action that shows the FX chain of the selected track.
pub const SHOW_FX_CHAIN_ACTION: u32 = 40291;

/// A track of the current project as the DAW reports it.
#[derive(Clone, Debug, PartialEq, Eq)]
pub struct TrackInfo {
    pub guid: String,
    pub name: String,
    pub index: u32,
    pub is_folder: bool,
    pub muted: bool,
    pub soloed: bool,
    pub armed: bool,
}

/// The status shown after a track's number: mute wins over solo, solo over arm.
pub open spec fn track_status(muted: bool, soloed: bool, armed: bool) -> Seq<char> {
    if muted {
        " [muted]"@
    } else if soloed {
        " [solo]"@
    } else if armed {
        " [armed]"@
    } else {
        Seq::empty()
    }
}

/// The launcher item that lists a track; its number counts from 1.
pub open spec fn track_item(t: TrackInfo) -> ItemView {
    let guid = t.guid@;
    ItemView {
        id: guid,
        label: t.name@,
        provider: "tracks"@,
        sub: "Track "@ + decimal((t.index + 1) as nat) + (if t.is_folder { " (folder)"@ } else {
            Seq::empty()
        }) + track_status(t.muted, t.soloed, t.armed),
        icon: if t.is_folder { "F"@ } else { "T"@ },
        tags: Seq::empty(),
        search_fields: seq![t.name@],
        actions: seq![
            ItemActionView {
                name: "Select"@,
                command: "daw:track-select:"@ + guid,
                modifier: ActionModifier::Plain,
                keep_open: false,
            },
            ItemActionView {
                name: "Solo"@,
                command: "daw:track-solo:"@ + guid,
                modifier: ActionModifier::Shift,
                keep_open: true,
            },
            ItemActionView {
                name: "Mute"@,
                command: "daw:track-mute:"@ + guid,
                modifier: ActionModifier::Ctrl,
                keep_open: true,
            },
            ItemActionView {
                name: "Show FX"@,
                command: "daw:track-fx:"@ + guid,
                modifier: ActionModifier::Alt,
                keep_open: false,
            },
        ],
    }
}

/// The items listing `tracks`, in order.
pub open spec fn track_items(tracks: Seq<TrackInfo>) -> Seq<ItemView> {
    tracks.map_values(|t: TrackInfo| track_item(t))
}

fn status_text(muted: bool, soloed: bool, armed: bool) -> (s: String)
    ensures
        s@ == track_status(muted, soloed, armed),
{
    if muted {
        owned(" [muted]")
    } else if soloed {
        owned(" [solo]")
    } else if armed {
        owned(" [armed]")
    } else {
        String::new()
    }
}

/// Builds the launcher item for a track.
pub fn track_item_for(t: &TrackInfo) -> (item: Item)
    requires
        t.index < u32::MAX,
    ensures
        item@ == track_item(*t),
{
    let mut sub = concat("Track ", u32_to_text(t.index + 1).as_str());
    if t.is_folder {
        sub = concat(sub.as_str(), " (folder)");
    }
    let sub = concat(sub.as_str(), status_text(t.muted, t.soloed, t.armed).as_str());
    let guid = t.guid.as_str();
    let actions = vec![
        ItemAction::new("Select", concat("daw:track-select:", guid), ActionModifier::Plain, false),
        ItemAction::new("Solo", concat("daw:track-solo:", guid), ActionModifier::Shift, true),
        ItemAction::new("Mute", concat("daw:track-mute:", guid), ActionModifier::Ctrl, true),
        ItemAction::new("Show FX", concat("daw:track-fx:", guid), ActionModifier::Alt, false),
    ];
    let item = Item {
        id: t.guid.clone(),
        label: t.name.clone(),
        provider: owned("tracks"),
        sub,
        icon: if t.is_folder { owned("F") } else { owned("T") },
        tags: Vec::new(),
        search_fields: vec![t.name.clone()],
        actions,
    };
    assert(item@.sub =~= track_item(*t).sub);
    assert(item@.tags =~= track_item(*t).tags);
    assert(item@.search_fields =~= track_item(*t).search_fields);
    assert(item@.actions =~= track_item(*t).actions);
    item
}

/// A track's subtitle ends with its state: `" [muted]"` for a muted track,
/// whatever its solo and arm flags; `" [solo]"` for a soloed track that is
/// not muted; `" [armed]"` for an armed track that is neither muted nor
/// soloed. A track in none of these states shows only `Track <n>` with its
/// number counted from 1, and ` (folder)` for a folder. The item carries the
/// track's guid as its id and its name as label, and has a folder icon for a
/// folder.
pub proof fn track_item_shows_its_state(t: TrackInfo)
    ensures
        track_item(t).id == t.guid@,
        track_item(t).label == t.name@,
        track_item(t).icon == (if t.is_folder { "F"@ } else { "T"@ }),
        track_item(t).search_fields == seq![t.name@],
        t.muted ==> ends_with(track_item(t).sub, " [muted]"@),
        !t.muted && t.soloed ==> ends_with(track_item(t).sub, " [solo]"@),
        !t.muted && !t.soloed && t.armed ==> ends_with(track_item(t).sub, " [armed]"@),
        !t.muted && !t.soloed && !t.armed ==> track_item(t).sub == "Track "@ + decimal((t.index + 1) as nat) + (
        if t.is_folder {
            " (folder)"@
        } else {
            Seq::empty()
        }),
{
    let head = "Track "@ + decimal((t.index + 1) as nat) + (if t.is_folder { " (folder)"@ } else { Seq::empty() });
    let status = track_status(t.muted, t.soloed, t.armed);
    assert(track_item(t).sub == head + status);
    assert((head + status).skip(head.len() as int) =~= status);
    assert(head + Seq::<char>::empty() =~= head);
}

/// What a track action asks for.
#[derive(Clone, Copy, Debug, PartialEq, Eq, Structural)]
pub enum TrackCommand {
    /// Select the track.
    Select,
    /// Toggle the track's solo.
    ToggleSolo,
    /// Toggle the track's mute.
    ToggleMute,
    /// Select only this track, then run `SHOW_FX_CHAIN_ACTION`.
    ShowFx,
    /// Nothing to do on the track.
    Other,
}

/// The command named by the middle part of a track action's command text.
pub open spec fn track_command(cmd: Seq<char>) -> TrackCommand {
    if cmd == "track-select"@ {
        TrackCommand::Select
    } else if cmd == "track-solo"@ {
        TrackCommand::ToggleSolo
    } else if cmd == "track-mute"@ {
        TrackCommand::ToggleMute
    } else if cmd == "track-fx"@ {
        TrackCommand::ShowFx
    } else {
        TrackCommand::Other
    }
}

/// What activating `action` of `item` asks for, and on which track (by
/// guid): the command text is `daw:<cmd>:<guid>`; `None` when it has fewer
/// than three parts.
pub open spec fn track_request(item: ItemView, action: Seq<char>) -> Option<(TrackCommand, Seq<char>)> {
    match split_three(action_command(item, action), ':') {
        None => None,
        Some((_, cmd, guid)) => Some((track_command(cmd), guid)),
    }
}

impl TrackCommand {
    /// Whether the launcher stays open once the command is done.
    pub open spec fn keeps_launcher_open(self) -> bool {
        self == TrackCommand::ToggleSolo || self == TrackCommand::ToggleMute
    }

    pub fn keeps_open(&self) -> (r: bool)
        ensures
            r == self.keeps_launcher_open(),
    {
        match self {
            TrackCommand::ToggleSolo | TrackCommand::ToggleMute => true,
            _ => false,
        }
    }
}

/// Activating a track item asks for the command its action names, on the
/// track it lists; its solo and mute actions, the ones whose command keeps
/// the launcher open, are the ones marked to keep it open.
pub proof fn track_item_activates_its_track(t: TrackInfo)
    ensures
        track_request(track_item(t), "Select"@) == Some((TrackCommand::Select, t.guid@)),
        track_request(track_item(t), "Solo"@) == Some((TrackCommand::ToggleSolo, t.guid@)),
        track_request(track_item(t), "Mute"@) == Some((TrackCommand::ToggleMute, t.guid@)),
        track_request(track_item(t), "Show FX"@) == Some((TrackCommand::ShowFx, t.guid@)),
        !action_keeps_open(track_item(t), "Select"@),
        action_keeps_open(track_item(t), "Solo"@),
        action_keeps_open(track_item(t), "Mute"@),
        !action_keeps_open(track_item(t), "Show FX"@),
{
    let item = track_item(t);
    let g = t.guid@;
    reveal_strlit("Select");
    reveal_strlit("Solo");
    reveal_strlit("Mute");
    reveal_strlit("Show FX");
    reveal_strlit("daw");
    reveal_strlit("track-select");
    reveal_strlit("track-solo");
    reveal_strlit("track-mute");
    reveal_strlit("track-fx");
    reveal_strlit("daw:track-select:");
    reveal_strlit("daw:track-solo:");
    reveal_strlit("daw:track-mute:");
    reveal_strlit("daw:track-fx:");
    let a = item.actions;
    assert(a.drop_first()[0] == a[1]);
    assert(a.drop_first().drop_first()[0] == a[2]);
    assert(a.drop_first().drop_first().drop_first()[0] == a[3]);
    assert("Solo"@[0] != "Mute"@[0]);
    assert("Select"@.len() == 6 && "Solo"@.len() == 4 && "Mute"@.len() == 4 && "Show FX"@.len() == 7);
    assert(find_action(a.drop_first().drop_first().drop_first(), "Show FX"@) == Some(a[3]));
    assert(find_action(a.drop_first().drop_first(), "Show FX"@) == Some(a[3]));
    assert(find_action(a.drop_first(), "Show FX"@) == Some(a[3]));
    assert(find_action(a, "Show FX"@) == Some(a[3]));
    assert(find_action(a.drop_first().drop_first(), "Mute"@) == Some(a[2]));
    assert(find_action(a.drop_first(), "Mute"@) == Some(a[2]));
    assert(find_action(a, "Mute"@) == Some(a[2]));
    assert(find_action(a.drop_first(), "Solo"@) == Some(a[1]));
    assert(find_action(a, "Solo"@) == Some(a[1]));
    assert(find_action(a, "Select"@) == Some(a[0]));
    assert("daw:track-select:"@ + g =~= "daw"@ + seq![':'] + "track-select"@ + seq![':'] + g);
    assert("daw:track-solo:"@ + g =~= "daw"@ + seq![':'] + "track-solo"@ + seq![':'] + g);
    assert("daw:track-mute:"@ + g =~= "daw"@ + seq![':'] + "track-mute"@ + seq![':'] + g);
    assert("daw:track-fx:"@ + g =~= "daw"@ + seq![':'] + "track-fx"@ + seq![':'] + g);
    lemma_split_three_parts("daw"@, "track-select"@, g, ':');
    lemma_split_three_parts("daw"@, "track-solo"@, g, ':');
    lemma_split_three_parts("daw"@, "track-mute"@, g, ':');
    lemma_split_three_parts("daw"@, "track-fx"@, g, ':');
    assert("track-solo"@[6] != "track-mute"@[6]);
    assert("track-select"@.len() == 12 && "track-solo"@.len() == 10 && "track-fx"@.len() == 8);
}

/// How the DAW work for a track request ended.
#[derive(Clone, Copy, Debug, PartialEq, Eq, Structural)]
pub enum TrackOutcome {
    /// The work did not run.
    NotRun,
    /// The DAW reported an error.
    Failed,
    /// No track has the requested guid.
    TrackMissing,
    /// The command was carried out.
    Done,
}

/// The launcher's answer once the work for `command` ended with `outcome`:
/// it stays open only after a carried-out solo or mute toggle.
pub fn result_after(command: TrackCommand, outcome: TrackOutcome) -> (r: ActivationResult)
    ensures
        r == (if outcome == TrackOutcome::Done && command.keeps_launcher_open() {
            ActivationResult::KeepOpen
        } else {
            ActivationResult::Close
        }),
{
    match outcome {
        TrackOutcome::Done => if command.keeps_open() {
            ActivationResult::KeepOpen
        } else {
            ActivationResult::Close
        },
        _ => ActivationResult::Close,
    }
}

/// The configuration a new tracks provider starts with: named `tracks`, with
/// prefix `t`, tagged `reaper/tracks`.
pub open spec fn tracks_config() -> ProviderConfigView {
    ProviderConfigView {
        name: "tracks"@,
        icon: "T"@,
        prefix: Some('t'),
        default_tags: seq!["reaper/tracks"@],
    }
}

/// The provider of the current project's tracks.
pub struct DawTracksProvider {
    config: ProviderConfig,
    tracks: Vec<Item>,
}

impl DawTracksProvider {
    pub closed spec fn config_view(&self) -> ProviderConfigView {
        self.config@
    }

    /// The items this provider lists.
    pub closed spec fn tracks(&self) -> Seq<ItemView> {
        item_views(self.tracks@)
    }

    /// A provider named `tracks`, with prefix `t`, tagged `reaper/tracks`,
    /// and no tracks yet.
    pub fn new() -> (p: Self)
        ensures
            p.config_view() == tracks_config(),
            p.tracks() == Seq::<ItemView>::empty(),
    {
        let p = DawTracksProvider {
            config: ProviderConfig {
                name: owned("tracks"),
                icon: owned("T"),
                prefix: Some('t'),
                default_tags: vec![owned("reaper/tracks")],
            },
            tracks: Vec::new(),
        };
        assert(p.config_view().default_tags =~= seq!["reaper/tracks"@]);
        assert(p.tracks() =~= Seq::empty());
        p
    }

    pub fn name(&self) -> (r: &str)
        ensures
            r@ == "tracks"@,
    {
        "tracks"
    }

    pub fn config(&self) -> (r: &ProviderConfig)
        ensures
            r@ == self.config_view(),
    {
        &self.config
    }

    pub fn config_mut(&mut self) -> (r: &mut ProviderConfig)
        ensures
            r@ == old(self).config_view(),
            final(self).config_view() == final(r)@,
            final(self).tracks() == old(self).tracks(),
    {
        &mut self.config
    }

    /// Replaces the listed tracks by those the DAW reports; keeps them when
    /// the DAW reports nothing.
    pub fn refresh(&mut self, tracks: Option<Vec<TrackInfo>>)
        requires
            tracks matches Some(v) ==> forall|i: int| 0 <= i < v.len() ==> #[trigger] v[i].index < u32::MAX,
        ensures
            final(self).config_view() == old(self).config_view(),
            final(self).tracks() == match tracks {
                Some(v) => track_items(v@),
                None => old(self).tracks(),
            },
    {
        if let Some(tracks) = tracks {
            let mut items: Vec<Item> = Vec::new();
            for i in 0..tracks.len()
                invariant
                    forall|i: int| 0 <= i < tracks.len() ==> #[trigger] tracks[i].index < u32::MAX,
                    items@.len() == i,
                    forall|k: int| 0 <= k < i ==> #[trigger] items@[k]@ == track_item(tracks@[k]),
            {
                items.push(track_item_for(&tracks[i]));
            }
            self.tracks = items;
            assert(self.tracks() =~= track_items(tracks@));
        }
    }

    /// Loads the tracks the DAW reports.
    pub fn setup(&mut self, tracks: Option<Vec<TrackInfo>>)
        requires
            tracks matches Some(v) ==> forall|i: int| 0 <= i < v.len() ==> #[trigger] v[i].index < u32::MAX,
        ensures
            final(self).config_view() == old(self).config_view(),
            final(self).tracks() == match tracks {
                Some(v) => track_items(v@),
                None => old(self).tracks(),
            },
    {
        self.refresh(tracks);
    }

    /// Every listed track, whatever the query.
    pub fn query(&self, _q: &str, _exact: bool) -> (r: Vec<Item>)
        ensures
            item_views(r@) == self.tracks(),
    {
        copy_items(&self.tracks)
    }

    /// What activating `action` of `item` asks for, and on which track;
    /// `None` means the launcher closes at once.
    pub fn activate(&self, item: &Item, action: &str) -> (r: Option<(TrackCommand, String)>)
        ensures
            match r {
                Some((cmd, guid)) => track_request(item@, action@) == Some((cmd, guid@)),
                None => track_request(item@, action@) is None,
            },
    {
        let command = item.command_for(action);
        match split_in_three(command.as_str(), ':') {
            None => None,
            Some((_, cmd, guid)) => {
                let c = if cmd == owned("track-select") {
                    TrackCommand::Select
                } else if cmd == owned("track-solo") {
                    TrackCommand::ToggleSolo
                } else if cmd == owned("track-mute") {
                    TrackCommand::ToggleMute
                } else if cmd == owned("track-fx") {
                    TrackCommand::ShowFx
                } else {
                    TrackCommand::Other
                };
                Some((c, guid))
            },
        }
    }
}

} // verus!
