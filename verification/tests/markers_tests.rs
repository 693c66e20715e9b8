use fts_launcher::item::ActivationResult;
use fts_launcher::reaper::markers::{
    marker_item_for, region_item_for, DawMarkersProvider, MarkerInfo, RegionInfo,
};

fn marker(guid: Option<&str>, id: Option<u32>) -> MarkerInfo {
    MarkerInfo {
        guid: guid.map(|g| g.to_string()),
        id,
        name: "Verse".to_string(),
        position: "12.50s".to_string(),
    }
}

fn region(guid: Option<&str>, id: Option<u32>) -> RegionInfo {
    RegionInfo {
        guid: guid.map(|g| g.to_string()),
        id,
        name: "Chorus".to_string(),
        start: "1.00s".to_string(),
        end: "9.25s".to_string(),
    }
}

#[test]
fn marker_item_uses_guid_or_number() {
    let item = marker_item_for(&marker(Some("{G1}"), Some(4)));
    assert_eq!(item.id, "{G1}");
    assert_eq!(item.sub, "Marker at 12.50s");
    assert_eq!(item.icon, "M");
    assert_eq!(item.tags, vec!["reaper/markers/marker".to_string()]);
    assert_eq!(item.actions[0].name, "Go to");
    assert_eq!(item.actions[0].command, "daw:goto-marker:{G1}");
    assert_eq!(marker_item_for(&marker(None, Some(4))).id, "marker-4");
    assert_eq!(marker_item_for(&marker(None, None)).id, "marker-0");
}

#[test]
fn region_item_shows_its_span() {
    let item = region_item_for(&region(None, Some(7)));
    assert_eq!(item.id, "region-7");
    assert_eq!(item.label, "Chorus");
    assert_eq!(item.sub, "Region 1.00s - 9.25s");
    assert_eq!(item.icon, "R");
    assert_eq!(item.tags, vec!["reaper/markers/region".to_string()]);
    assert_eq!(item.actions[0].command, "daw:goto-region:region-7");
}

#[test]
fn markers_then_regions() {
    let mut p = DawMarkersProvider::new();
    assert_eq!(p.name(), "markers");
    assert_eq!(p.config().prefix, Some('m'));
    p.setup(Some((vec![marker(None, Some(1)), marker(None, Some(2))], vec![region(None, Some(1))])));
    let ids: Vec<String> = p.query("", false).into_iter().map(|i| i.id).collect();
    assert_eq!(ids, vec!["marker-1", "marker-2", "region-1"]);
    p.refresh(None);
    assert_eq!(p.query("", false).len(), 3);
    let item = marker_item_for(&marker(None, None));
    assert_eq!(p.activate(&item, "Go to"), ActivationResult::Close);
}
