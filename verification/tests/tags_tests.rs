use fts_launcher::reaper::actions::DawActionsProvider;
use fts_launcher::reaper::fx::{DawFxProvider, InstalledFx};
use fts_launcher::reaper::markers::{DawMarkersProvider, MarkerInfo, RegionInfo};
use fts_launcher::reaper::tags::{register_reaper_tags, TagOp, TagRegistry};
use fts_launcher::reaper::tracks::{DawTracksProvider, TrackInfo};
use fts_launcher::reaper::transport::DawTransportProvider;

fn registered(ops: &[TagOp], before: usize, id: &str) -> bool {
    ops[..before].iter().any(|op| matches!(op, TagOp::Register { id: i, .. } if i == id))
}

#[test]
fn reaper_taxonomy_starts_with_audio() {
    let mut tags = TagRegistry::new();
    register_reaper_tags(&mut tags);
    let ops = tags.operations();
    assert_eq!(ops.len(), 76);
    assert_eq!(
        ops[0],
        TagOp::Register {
            id: "audio".to_string(),
            name: "Audio".to_string(),
            description: "Audio production".to_string()
        }
    );
    assert_eq!(ops[1], TagOp::SetColor { id: "audio".to_string(), color: "#a6e3a1".to_string() });
    assert_eq!(
        ops[75],
        TagOp::Alias { alias: "vis".to_string(), target: "reaper/visibility".to_string() }
    );
}

#[test]
fn reaper_taxonomy_colors_and_aliases_follow_registration() {
    let mut tags = TagRegistry::new();
    register_reaper_tags(&mut tags);
    let ops = tags.operations();
    for (k, op) in ops.iter().enumerate() {
        match op {
            TagOp::Register { .. } => {}
            TagOp::SetColor { id, .. } => assert!(registered(ops, k, id), "{id}"),
            TagOp::Alias { target, .. } => assert!(registered(ops, k, target), "{target}"),
        }
    }
}

#[test]
fn reaper_taxonomy_appends_to_a_registry() {
    let mut tags = TagRegistry::new();
    tags.register("mine", "Mine", "Own tag");
    register_reaper_tags(&mut tags);
    assert_eq!(tags.operations().len(), 77);
    assert_eq!(
        tags.operations()[0],
        TagOp::Register { id: "mine".to_string(), name: "Mine".to_string(), description: "Own tag".to_string() }
    );
}

#[test]
fn reaper_taxonomy_registers_parents_first() {
    let mut tags = TagRegistry::new();
    register_reaper_tags(&mut tags);
    let ops = tags.operations();
    for (k, op) in ops.iter().enumerate() {
        if let TagOp::Register { id, .. } = op {
            if let Some(slash) = id.rfind('/') {
                assert!(registered(ops, k, &id[..slash]), "{id}");
            }
        }
    }
}

#[test]
fn provider_tags_are_registered_but_audio_units() {
    let mut tags = TagRegistry::new();
    register_reaper_tags(&mut tags);
    let ops = tags.operations();
    let n = ops.len();

    let mut tracks = DawTracksProvider::new();
    tracks.setup(Some(vec![TrackInfo {
        guid: "{T1}".to_string(),
        name: "Bass".to_string(),
        index: 0,
        is_folder: false,
        muted: false,
        soloed: false,
        armed: false,
    }]));
    let mut markers = DawMarkersProvider::new();
    markers.setup(Some((
        vec![MarkerInfo { guid: None, id: Some(1), name: "Intro".to_string(), position: "0.00s".to_string() }],
        vec![RegionInfo {
            guid: None,
            id: Some(2),
            name: "Verse".to_string(),
            start: "1.00s".to_string(),
            end: "2.00s".to_string(),
        }],
    )));
    let mut actions = DawActionsProvider::new();
    actions.setup();
    let transport = DawTransportProvider::new();
    let mut fx = DawFxProvider::new();
    let idents = ["VST: A (X)", "VST3: B (X)", "CLAP: C (X)", "JS: D", "VSTi: E (X)", "DX: F (X)", "G (X)"];
    fx.setup(Some(
        idents.iter().map(|i| InstalledFx { ident: i.to_string(), name: i.to_string() }).collect(),
    ));

    let mut seen: Vec<String> = Vec::new();
    seen.extend(tracks.config().default_tags.iter().cloned());
    seen.extend(markers.config().default_tags.iter().cloned());
    seen.extend(actions.config().default_tags.iter().cloned());
    seen.extend(transport.config().default_tags.iter().cloned());
    seen.extend(fx.config().default_tags.iter().cloned());
    for item in tracks
        .query("", false)
        .iter()
        .chain(markers.query("", false).iter())
        .chain(actions.query("", false).iter())
        .chain(transport.query("", false).iter())
        .chain(fx.query("", false).iter())
    {
        seen.extend(item.tags.iter().cloned());
    }
    assert!(seen.contains(&"reaper/tracks".to_string()));
    assert!(seen.contains(&"reaper/markers/region".to_string()));
    assert!(seen.contains(&"audio/effects/plugin/jsfx".to_string()));
    for tag in &seen {
        assert!(registered(ops, n, tag), "{tag}");
    }

    let mut au = DawFxProvider::new();
    au.setup(Some(vec![InstalledFx { ident: "AU: H (X)".to_string(), name: "H".to_string() }]));
    let au_tags = au.query("", false)[0].tags.clone();
    assert_eq!(au_tags[1], "audio/effects/plugin/au");
    assert!(registered(ops, n, &au_tags[0]));
    assert!(!registered(ops, n, &au_tags[1]));
}
