//! The markers provider: project markers and regions.

use vstd::prelude::*;
use crate::item::{
    copy_items, item_views, ActionModifier, ActivationResult, Item, ItemAction, ItemActionView,
    ItemView, ProviderConfig, ProviderConfigView,
};
use crate::text::{concat, concat3, decimal, owned, u32_to_text};

verus! {

/// A project marker as the DAW reports it; `position` is its time as shown
/// (`"12.50s"`), empty when the DAW gives none.
#[derive(Clone, Debug, PartialEq, Eq)]
pub struct MarkerInfo {
    pub guid: Option<String>,
    pub id: Option<u32>,
    pub name: String,
    pub position: String,
}

/// A project region as the DAW reports it; `start` and `end` are its times
/// as shown, empty when the DAW gives none.
#[derive(Clone, Debug, PartialEq, Eq)]
pub struct RegionInfo {
    pub guid: Option<String>,
    pub id: Option<u32>,
    pub name: String,
    pub start: String,
    pub end: String,
}

/// The id of a marker or region: its guid, else `<kind>-<number>` (number 0
/// when the DAW gives none).
pub open spec fn marker_id(kind: Seq<char>, guid: Option<String>, id: Option<u32>) -> Seq<char> {
    match guid {
        Some(g) => g@,
        None => kind + "-"@ + decimal(
            match id {
                Some(n) => n as nat,
                None => 0,
            },
        ),
    }
}

pub open spec fn marker_item(m: MarkerInfo) -> ItemView {
    let id = marker_id("marker"@, m.guid, m.id);
    ItemView {
        id,
        label: m.name@,
        provider: "markers"@,
        sub: "Marker at "@ + m.position@,
        icon: "M"@,
        tags: seq!["reaper/markers/marker"@],
        search_fields: seq![m.name@],
        actions: seq![
            ItemActionView {
                name: "Go to"@,
                command: "daw:goto-marker:"@ + id,
                modifier: ActionModifier::Plain,
                keep_open: false,
            },
        ],
    }
}

pub open spec fn region_item(r: RegionInfo) -> ItemView {
    let id = marker_id("region"@, r.guid, r.id);
    ItemView {
        id,
        label: r.name@,
        provider: "markers"@,
        sub: "Region "@ + r.start@ + " - "@ + r.end@,
        icon: "R"@,
        tags: seq!["reaper/markers/region"@],
        search_fields: seq![r.name@],
        actions: seq![
            ItemActionView {
                name: "Go to"@,
                command: "daw:goto-region:"@ + id,
                modifier: ActionModifier::Plain,
                keep_open: false,
            },
        ],
    }
}

/// A marker's item and a region's item are labelled with the name that the
/// DAW gives the marker or region, and are found by that name; they take the
/// DAW's guid as their id when it gives one, and show the marker's position
/// or the region's span.
pub proof fn marker_items_are_labelled_by_name(m: MarkerInfo, r: RegionInfo)
    ensures
        marker_item(m).label == m.name@,
        match m.guid {
            Some(g) => marker_item(m).id == g@,
            None => true,
        },
        match r.guid {
            Some(g) => region_item(r).id == g@,
            None => true,
        },
        marker_item(m).sub == "Marker at "@ + m.position@,
        region_item(r).sub == "Region "@ + r.start@ + " - "@ + r.end@,
        marker_item(m).search_fields == seq![m.name@],
        region_item(r).label == r.name@,
        region_item(r).search_fields == seq![r.name@],
{
}

/// The items listing `markers`, then `regions`.
pub open spec fn marker_items(markers: Seq<MarkerInfo>, regions: Seq<RegionInfo>) -> Seq<ItemView> {
    markers.map_values(|m: MarkerInfo| marker_item(m)) + regions.map_values(
        |r: RegionInfo| region_item(r),
    )
}

fn id_text(kind: &str, guid: &Option<String>, id: Option<u32>) -> (s: String)
    ensures
        s@ == marker_id(kind@, *guid, id),
{
    match guid {
        Some(g) => g.clone(),
        None => {
            let n = match id {
                Some(n) => n,
                None => 0,
            };
            concat3(kind, "-", u32_to_text(n).as_str())
        },
    }
}

/// Builds the launcher item for a marker.
pub fn marker_item_for(m: &MarkerInfo) -> (item: Item)
    ensures
        item@ == marker_item(*m),
{
    let id = id_text("marker", &m.guid, m.id);
    let actions = vec![
        ItemAction::new("Go to", concat("daw:goto-marker:", id.as_str()), ActionModifier::Plain, false),
    ];
    let item = Item {
        id,
        label: m.name.clone(),
        provider: owned("markers"),
        sub: concat("Marker at ", m.position.as_str()),
        icon: owned("M"),
        tags: vec![owned("reaper/markers/marker")],
        search_fields: vec![m.name.clone()],
        actions,
    };
    assert(item@.tags =~= marker_item(*m).tags);
    assert(item@.search_fields =~= marker_item(*m).search_fields);
    assert(item@.actions =~= marker_item(*m).actions);
    item
}

/// Builds the launcher item for a region.
pub fn region_item_for(r: &RegionInfo) -> (item: Item)
    ensures
        item@ == region_item(*r),
{
    let id = id_text("region", &r.guid, r.id);
    let actions = vec![
        ItemAction::new("Go to", concat("daw:goto-region:", id.as_str()), ActionModifier::Plain, false),
    ];
    let item = Item {
        id,
        label: r.name.clone(),
        provider: owned("markers"),
        sub: concat("Region ", concat3(r.start.as_str(), " - ", r.end.as_str()).as_str()),
        icon: owned("R"),
        tags: vec![owned("reaper/markers/region")],
        search_fields: vec![r.name.clone()],
        actions,
    };
    assert(item@.sub =~= region_item(*r).sub);
    assert(item@.tags =~= region_item(*r).tags);
    assert(item@.search_fields =~= region_item(*r).search_fields);
    assert(item@.actions =~= region_item(*r).actions);
    item
}

/// The configuration a new markers provider starts with: named `markers`,
/// with prefix `m`, without default tags.
pub open spec fn markers_config() -> ProviderConfigView {
    ProviderConfigView {
        name: "markers"@,
        icon: "M"@,
        prefix: Some('m'),
        default_tags: Seq::empty(),
    }
}

/// The provider of project markers and regions.
pub struct DawMarkersProvider {
    config: ProviderConfig,
    items: Vec<Item>,
}

impl DawMarkersProvider {
    pub closed spec fn config_view(&self) -> ProviderConfigView {
        self.config@
    }

    /// The items this provider lists.
    pub closed spec fn items(&self) -> Seq<ItemView> {
        item_views(self.items@)
    }

    /// A provider named `markers`, with prefix `m`, and no items yet.
    pub fn new() -> (p: Self)
        ensures
            p.config_view() == markers_config(),
            p.items() == Seq::<ItemView>::empty(),
    {
        let p = DawMarkersProvider {
            config: ProviderConfig {
                name: owned("markers"),
                icon: owned("M"),
                prefix: Some('m'),
                default_tags: Vec::new(),
            },
            items: Vec::new(),
        };
        assert(p.config_view().default_tags =~= Seq::empty());
        assert(p.items() =~= Seq::empty());
        p
    }

    pub fn name(&self) -> (r: &str)
        ensures
            r@ == "markers"@,
    {
        "markers"
    }

    pub fn config(&self) -> (r: &ProviderConfig)
        ensures
            r@ == self.config_view(),
    {
        &self.config
    }

    pub fn config_mut(&mut self) -> (r: &mut ProviderConfig)
        ensures
            r@ == old(self).config_view(),
            final(self).config_view() == final(r)@,
            final(self).items() == old(self).items(),
    {
        &mut self.config
    }

    /// Replaces the listed items by the markers and then the regions the DAW
    /// reports; keeps them when the DAW reports nothing.
    pub fn refresh(&mut self, found: Option<(Vec<MarkerInfo>, Vec<RegionInfo>)>)
        ensures
            final(self).config_view() == old(self).config_view(),
            final(self).items() == match found {
                Some((m, r)) => marker_items(m@, r@),
                None => old(self).items(),
            },
    {
        if let Some((markers, regions)) = found {
            let mut items: Vec<Item> = Vec::new();
            for i in 0..markers.len()
                invariant
                    items@.len() == i,
                    forall|k: int| 0 <= k < i ==> #[trigger] items@[k]@ == marker_item(markers@[k]),
            {
                items.push(marker_item_for(&markers[i]));
            }
            let n = markers.len();
            for i in 0..regions.len()
                invariant
                    n == markers.len(),
                    items@.len() == n + i,
                    forall|k: int| 0 <= k < n ==> #[trigger] items@[k]@ == marker_item(markers@[k]),
                    forall|k: int| 0 <= k < i ==> #[trigger] items@[n + k]@ == region_item(regions@[k]),
            {
                items.push(region_item_for(&regions[i]));
                assert(items@[n + i]@ == region_item(regions@[i as int]));
            }
            self.items = items;
            assert forall|k: int| n <= k < items@.len() implies #[trigger] items@[k]@ == region_item(regions@[k - n]) by {
                assert(items@[n + (k - n)]@ == region_item(regions@[k - n]));
            }
            assert(self.items() =~= marker_items(markers@, regions@));
        }
    }

    /// Loads the markers and regions the DAW reports.
    pub fn setup(&mut self, found: Option<(Vec<MarkerInfo>, Vec<RegionInfo>)>)
        ensures
            final(self).config_view() == old(self).config_view(),
            final(self).items() == match found {
                Some((m, r)) => marker_items(m@, r@),
                None => old(self).items(),
            },
    {
        self.refresh(found);
    }

    /// Every listed item, whatever the query.
    pub fn query(&self, _q: &str, _exact: bool) -> (r: Vec<Item>)
        ensures
            item_views(r@) == self.items(),
    {
        copy_items(&self.items)
    }

    /// Activating a marker or region only closes the launcher.
    pub fn activate(&self, _item: &Item, _action: &str) -> (r: ActivationResult)
        ensures
            r == ActivationResult::Close,
    {
        ActivationResult::Close
    }
}

} // verus!
