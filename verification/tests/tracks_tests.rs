use fts_launcher::item::{ActionModifier, ActivationResult};
use fts_launcher::reaper::tracks::{
    result_after, track_item_for, DawTracksProvider, TrackCommand, TrackInfo, TrackOutcome,
    SHOW_FX_CHAIN_ACTION,
};

fn track(index: u32, is_folder: bool, muted: bool, soloed: bool, armed: bool) -> TrackInfo {
    TrackInfo {
        guid: "{AB-12}".to_string(),
        name: "Drums".to_string(),
        index,
        is_folder,
        muted,
        soloed,
        armed,
    }
}

#[test]
fn track_item_counts_from_one() {
    let item = track_item_for(&track(0, false, false, false, false));
    assert_eq!(item.id, "{AB-12}");
    assert_eq!(item.label, "Drums");
    assert_eq!(item.provider, "tracks");
    assert_eq!(item.sub, "Track 1");
    assert_eq!(item.icon, "T");
    assert!(item.tags.is_empty());
    assert_eq!(item.search_fields, vec!["Drums".to_string()]);
}

#[test]
fn track_item_status_priority() {
    assert_eq!(track_item_for(&track(2, true, true, true, true)).sub, "Track 3 (folder) [muted]");
    assert_eq!(track_item_for(&track(2, false, false, true, true)).sub, "Track 3 [solo]");
    assert_eq!(track_item_for(&track(9, false, false, false, true)).sub, "Track 10 [armed]");
    assert_eq!(track_item_for(&track(2, true, false, false, false)).icon, "F");
}

#[test]
fn track_item_actions() {
    let item = track_item_for(&track(0, false, false, false, false));
    let names: Vec<&str> = item.actions.iter().map(|a| a.name.as_str()).collect();
    assert_eq!(names, vec!["Select", "Solo", "Mute", "Show FX"]);
    assert_eq!(item.actions[0].command, "daw:track-select:{AB-12}");
    assert_eq!(item.actions[1].command, "daw:track-solo:{AB-12}");
    assert_eq!(item.actions[2].command, "daw:track-mute:{AB-12}");
    assert_eq!(item.actions[3].command, "daw:track-fx:{AB-12}");
    assert_eq!(
        item.actions.iter().map(|a| a.modifier).collect::<Vec<_>>(),
        vec![ActionModifier::Plain, ActionModifier::Shift, ActionModifier::Ctrl, ActionModifier::Alt]
    );
    assert_eq!(item.actions.iter().map(|a| a.keep_open).collect::<Vec<_>>(), vec![false, true, true, false]);
}

#[test]
fn track_activation_reads_command_and_guid() {
    let p = DawTracksProvider::new();
    let item = track_item_for(&track(0, false, false, false, false));
    let guid = "{AB-12}".to_string();
    assert_eq!(p.activate(&item, "Select"), Some((TrackCommand::Select, guid.clone())));
    assert_eq!(p.activate(&item, "Solo"), Some((TrackCommand::ToggleSolo, guid.clone())));
    assert_eq!(p.activate(&item, "Mute"), Some((TrackCommand::ToggleMute, guid.clone())));
    assert_eq!(p.activate(&item, "Show FX"), Some((TrackCommand::ShowFx, guid)));
    assert_eq!(p.activate(&item, "Nope"), None);
}

#[test]
fn track_activation_results() {
    assert_eq!(result_after(TrackCommand::ToggleSolo, TrackOutcome::Done), ActivationResult::KeepOpen);
    assert_eq!(result_after(TrackCommand::ToggleMute, TrackOutcome::Done), ActivationResult::KeepOpen);
    assert_eq!(result_after(TrackCommand::Select, TrackOutcome::Done), ActivationResult::Close);
    assert_eq!(result_after(TrackCommand::ShowFx, TrackOutcome::Done), ActivationResult::Close);
    assert_eq!(result_after(TrackCommand::ToggleSolo, TrackOutcome::Failed), ActivationResult::Close);
    assert_eq!(result_after(TrackCommand::ToggleMute, TrackOutcome::TrackMissing), ActivationResult::Close);
    assert_eq!(result_after(TrackCommand::ToggleSolo, TrackOutcome::NotRun), ActivationResult::Close);
    assert_eq!(SHOW_FX_CHAIN_ACTION, 40291);
}

#[test]
fn tracks_provider_refresh() {
    let mut p = DawTracksProvider::new();
    assert_eq!(p.name(), "tracks");
    assert_eq!(p.config().default_tags, vec!["reaper/tracks".to_string()]);
    assert_eq!(p.config().prefix, Some('t'));
    p.setup(Some(vec![track(0, false, false, false, false), track(1, true, false, false, false)]));
    let items = p.query("", false);
    assert_eq!(items.len(), 2);
    assert_eq!(items[1].sub, "Track 2 (folder)");
    p.refresh(None);
    assert_eq!(p.query("x", true), items);
    p.refresh(Some(vec![]));
    assert!(p.query("", false).is_empty());
}
