//! The actions provider: a curated set of common DAW actions.

use vstd::prelude::*;
use crate::reaper::tags::{in_reaper_taxonomy, registers, reaper_tag_ops};
use crate::item::{
    action_command, action_keeps_open, find_action, copy_items, item_views, text_list1, texts,
    ActionModifier, ActivationResult, Item, ItemAction, ItemActionView, ItemView, ProviderConfig,
    ProviderConfigView,
};
use crate::text::{
    all_ascii, ascii_lowercase, concat, concat3, decimal, first_index_from, parse_reads_back_decimal, lowercase, owned, parse_u32, split_in_three, split_three,
    to_lowercase, u32_text_value, u32_to_text,
};

verus! {

broadcast use vstd::string::group_string_axioms;

/// The launcher item for the DAW action `cmd_id`, listed under `section`.
pub open spec fn action_item(id: Seq<char>, name: Seq<char>, section: Seq<char>, cmd_id: u32) -> ItemView {
    let command = "daw:action:"@ + decimal(cmd_id as nat);
    ItemView {
        id: "action-"@ + id,
        label: name,
        provider: "actions"@,
        sub: "Action: "@ + section + " > "@ + name,
        icon: "A"@,
        tags: seq!["reaper/actions"@, "reaper/actions/"@ + lowercase(section)],
        search_fields: seq![name, section],
        actions: seq![
            ItemActionView { name: "Run"@, command, modifier: ActionModifier::Plain, keep_open: false },
            ItemActionView {
                name: "Run (keep open)"@,
                command,
                modifier: ActionModifier::Shift,
                keep_open: true,
            },
        ],
    }
}

/// The common actions: id, name, section and DAW command id.
pub open spec fn common_action_rows() -> Seq<(Seq<char>, Seq<char>, Seq<char>, u32)> {
    seq![
        ("play"@, "Play/Stop"@, "Transport"@, 1007u32),
        ("record"@, "Record"@, "Transport"@, 1013u32),
        ("pause"@, "Pause"@, "Transport"@, 1008u32),
        ("stop"@, "Stop"@, "Transport"@, 1016u32),
        ("rewind"@, "Go to start"@, "Transport"@, 40042u32),
        ("repeat"@, "Toggle repeat"@, "Transport"@, 1068u32),
        ("save"@, "Save project"@, "File"@, 40026u32),
        ("saveas"@, "Save project as..."@, "File"@, 40022u32),
        ("render"@, "Render project to disk"@, "File"@, 40015u32),
        ("open"@, "Open project..."@, "File"@, 40025u32),
        ("new"@, "New project"@, "File"@, 40023u32),
        ("undo"@, "Undo"@, "Edit"@, 40029u32),
        ("redo"@, "Redo"@, "Edit"@, 40030u32),
        ("copy"@, "Copy items"@, "Edit"@, 40057u32),
        ("cut"@, "Cut items"@, "Edit"@, 40059u32),
        ("paste"@, "Paste items"@, "Edit"@, 40058u32),
        ("selall"@, "Select all items"@, "Edit"@, 40182u32),
        ("addtrk"@, "Insert new track"@, "Track"@, 40001u32),
        ("deltrk"@, "Remove selected tracks"@, "Track"@, 40005u32),
        ("mute"@, "Toggle mute"@, "Track"@, 40281u32),
        ("solo"@, "Toggle solo"@, "Track"@, 40282u32),
        ("arm"@, "Toggle arm"@, "Track"@, 40294u32),
        ("mixer"@, "Toggle mixer"@, "View"@, 40078u32),
        ("fxbrow"@, "Show FX browser"@, "View"@, 40271u32),
        ("actlist"@, "Show action list"@, "View"@, 40605u32),
    ]
}

/// The items of the common actions, in table order.
pub open spec fn common_action_items() -> Seq<ItemView> {
    common_action_rows().map_values(
        |r: (Seq<char>, Seq<char>, Seq<char>, u32)| action_item(r.0, r.1, r.2, r.3),
    )
}

/// Builds the launcher item for one action.
pub fn action_item_for(id: &str, name: &str, section: &str, cmd_id: u32) -> (item: Item)
    ensures
        item@ == action_item(id@, name@, section@, cmd_id),
        all_ascii(section@) ==> item@.tags[1] == "reaper/actions/"@ + ascii_lowercase(section@),
{
    let tag = concat("reaper/actions/", to_lowercase(section).as_str());
    let command = concat("daw:action:", u32_to_text(cmd_id).as_str());
    let run = ItemAction::new("Run", command.clone(), ActionModifier::Plain, false);
    let run_open = ItemAction::new("Run (keep open)", command, ActionModifier::Shift, true);
    let item = Item {
        id: concat("action-", id),
        label: owned(name),
        provider: owned("actions"),
        sub: concat3("Action: ", section, concat(" > ", name).as_str()),
        icon: owned("A"),
        tags: vec![owned("reaper/actions"), tag],
        search_fields: vec![owned(name), owned(section)],
        actions: vec![run, run_open],
    };
    assert(item@.sub =~= action_item(id@, name@, section@, cmd_id).sub);
    assert(item@.tags =~= action_item(id@, name@, section@, cmd_id).tags);
    assert(item@.search_fields =~= action_item(id@, name@, section@, cmd_id).search_fields);
    assert(item@.actions =~= action_item(id@, name@, section@, cmd_id).actions);
    item
}

/// The items of the common actions.
pub fn common_actions() -> (items: Vec<Item>)
    ensures
        item_views(items@) == common_action_items(),
        forall|k: int|
            0 <= k < items@.len() ==> #[trigger] items@[k]@.tags[1] == "reaper/actions/"@
                + ascii_lowercase(common_action_rows()[k].2),
{
    proof {
        reveal_strlit("Transport");
        reveal_strlit("File");
        reveal_strlit("Edit");
        reveal_strlit("Track");
        reveal_strlit("View");
        assert(all_ascii("Transport"@) && all_ascii("File"@) && all_ascii("Edit"@) && all_ascii("Track"@) && all_ascii("View"@));
    }
    let mut items: Vec<Item> = Vec::new();
    items.push(action_item_for("play", "Play/Stop", "Transport", 1007));
    items.push(action_item_for("record", "Record", "Transport", 1013));
    items.push(action_item_for("pause", "Pause", "Transport", 1008));
    items.push(action_item_for("stop", "Stop", "Transport", 1016));
    items.push(action_item_for("rewind", "Go to start", "Transport", 40042));
    items.push(action_item_for("repeat", "Toggle repeat", "Transport", 1068));
    items.push(action_item_for("save", "Save project", "File", 40026));
    items.push(action_item_for("saveas", "Save project as...", "File", 40022));
    items.push(action_item_for("render", "Render project to disk", "File", 40015));
    items.push(action_item_for("open", "Open project...", "File", 40025));
    items.push(action_item_for("new", "New project", "File", 40023));
    items.push(action_item_for("undo", "Undo", "Edit", 40029));
    items.push(action_item_for("redo", "Redo", "Edit", 40030));
    items.push(action_item_for("copy", "Copy items", "Edit", 40057));
    items.push(action_item_for("cut", "Cut items", "Edit", 40059));
    items.push(action_item_for("paste", "Paste items", "Edit", 40058));
    items.push(action_item_for("selall", "Select all items", "Edit", 40182));
    items.push(action_item_for("addtrk", "Insert new track", "Track", 40001));
    items.push(action_item_for("deltrk", "Remove selected tracks", "Track", 40005));
    items.push(action_item_for("mute", "Toggle mute", "Track", 40281));
    items.push(action_item_for("solo", "Toggle solo", "Track", 40282));
    items.push(action_item_for("arm", "Toggle arm", "Track", 40294));
    items.push(action_item_for("mixer", "Toggle mixer", "View", 40078));
    items.push(action_item_for("fxbrow", "Show FX browser", "View", 40271));
    items.push(action_item_for("actlist", "Show action list", "View", 40605));
    assert(item_views(items@) =~= common_action_items());
    items
}

/// The DAW command that activating `action` of `item` runs: the action's
/// command text is `daw:action:<id>`; no command when it has fewer than three
/// parts, or when the id does not read as a nonzero `u32`.
pub open spec fn action_run(item: ItemView, action: Seq<char>) -> Option<u32> {
    match split_three(action_command(item, action), ':') {
        None => None,
        Some((_, _, id)) => {
            let n = match u32_text_value(id) {
                Some(n) => n,
                None => 0u32,
            };
            if n == 0 {
                None
            } else {
                Some(n)
            }
        },
    }
}

/// Activating an action item runs the DAW command it was built for: its
/// `Run` action closes the launcher afterwards, its `Run (keep open)` action
/// keeps it open. (A command id of 0 is never run.)
pub proof fn action_item_runs_its_command(id: Seq<char>, name: Seq<char>, section: Seq<char>, cmd_id: u32)
    requires
        cmd_id != 0,
    ensures
        action_run(action_item(id, name, section, cmd_id), "Run"@) == Some(cmd_id),
        !action_keeps_open(action_item(id, name, section, cmd_id), "Run"@),
        action_run(action_item(id, name, section, cmd_id), "Run (keep open)"@) == Some(cmd_id),
        action_keeps_open(action_item(id, name, section, cmd_id), "Run (keep open)"@),
{
    let item = action_item(id, name, section, cmd_id);
    reveal_strlit("Run");
    reveal_strlit("Run (keep open)");
    reveal_strlit("daw:action:");
    assert(item.actions.drop_first()[0] == item.actions[1]);
    assert("Run"@.len() != "Run (keep open)"@.len());
    let c = "daw:action:"@ + decimal(cmd_id as nat);
    assert(action_command(item, "Run"@) == c);
    assert(find_action(item.actions.drop_first(), "Run (keep open)"@) == Some(item.actions[1]));
    assert(find_action(item.actions, "Run (keep open)"@) == Some(item.actions[1]));
    assert(action_command(item, "Run (keep open)"@) == c);
    reveal_with_fuel(first_index_from, 8);
    assert(c[3] == ':');
    assert(first_index_from(c, ':', 0) == 3);
    assert(c[10] == ':');
    assert(first_index_from(c, ':', 4) == 10);
    assert(c.skip(11) =~= decimal(cmd_id as nat));
    parse_reads_back_decimal(cmd_id);
}

/// Every row of `rows` has a nonzero command id.
pub open spec fn ids_nonzero(rows: Seq<(Seq<char>, Seq<char>, Seq<char>, u32)>) -> bool
    decreases rows.len(),
{
    rows.len() == 0 || (rows.last().3 != 0 && ids_nonzero(rows.drop_last()))
}

proof fn lemma_ids_nonzero(rows: Seq<(Seq<char>, Seq<char>, Seq<char>, u32)>)
    requires
        ids_nonzero(rows),
    ensures
        forall|k: int| 0 <= k < rows.len() ==> #[trigger] rows[k].3 != 0,
    decreases rows.len(),
{
    if rows.len() > 0 {
        lemma_ids_nonzero(rows.drop_last());
        assert forall|k: int| 0 <= k < rows.len() implies #[trigger] rows[k].3 != 0 by {
            if k < rows.len() - 1 {
                assert(rows[k] == rows.drop_last()[k]);
            }
        }
    }
}

/// Every common action item runs its table command: `Run` closes the
/// launcher afterwards, `Run (keep open)` keeps it open.
pub proof fn common_actions_run_their_commands()
    ensures
        forall|k: int|
            0 <= k < common_action_items().len() ==> {
                &&& action_run(#[trigger] common_action_items()[k], "Run"@) == Some(
                    common_action_rows()[k].3,
                )
                &&& !action_keeps_open(common_action_items()[k], "Run"@)
                &&& action_run(common_action_items()[k], "Run (keep open)"@) == Some(
                    common_action_rows()[k].3,
                )
                &&& action_keeps_open(common_action_items()[k], "Run (keep open)"@)
            },
{
    let rows = common_action_rows();
    assert(rows.len() == 25);
    reveal_with_fuel(ids_nonzero, 26);
    assert(ids_nonzero(rows));
    lemma_ids_nonzero(rows);
    assert forall|k: int| 0 <= k < common_action_items().len() implies {
        &&& action_run(#[trigger] common_action_items()[k], "Run"@) == Some(rows[k].3)
        &&& !action_keeps_open(common_action_items()[k], "Run"@)
        &&& action_run(common_action_items()[k], "Run (keep open)"@) == Some(rows[k].3)
        &&& action_keeps_open(common_action_items()[k], "Run (keep open)"@)
    } by {
        let r = rows[k];
        assert(rows[k].3 != 0);
        action_item_runs_its_command(r.0, r.1, r.2, r.3);
    }
}

/// The DAW command that each curated action runs, by the label it is listed
/// under.
#[verifier::opaque]
pub open spec fn curated_command(label: Seq<char>) -> Option<u32> {
    if label == "Play/Stop"@ {
        Some(1007u32)
    } else if label == "Record"@ {
        Some(1013u32)
    } else if label == "Pause"@ {
        Some(1008u32)
    } else if label == "Stop"@ {
        Some(1016u32)
    } else if label == "Go to start"@ {
        Some(40042u32)
    } else if label == "Toggle repeat"@ {
        Some(1068u32)
    } else if label == "Save project"@ {
        Some(40026u32)
    } else if label == "Save project as..."@ {
        Some(40022u32)
    } else if label == "Render project to disk"@ {
        Some(40015u32)
    } else if label == "Open project..."@ {
        Some(40025u32)
    } else if label == "New project"@ {
        Some(40023u32)
    } else if label == "Undo"@ {
        Some(40029u32)
    } else if label == "Redo"@ {
        Some(40030u32)
    } else if label == "Copy items"@ {
        Some(40057u32)
    } else if label == "Cut items"@ {
        Some(40059u32)
    } else if label == "Paste items"@ {
        Some(40058u32)
    } else if label == "Select all items"@ {
        Some(40182u32)
    } else if label == "Insert new track"@ {
        Some(40001u32)
    } else if label == "Remove selected tracks"@ {
        Some(40005u32)
    } else if label == "Toggle mute"@ {
        Some(40281u32)
    } else if label == "Toggle solo"@ {
        Some(40282u32)
    } else if label == "Toggle arm"@ {
        Some(40294u32)
    } else if label == "Toggle mixer"@ {
        Some(40078u32)
    } else if label == "Show FX browser"@ {
        Some(40271u32)
    } else if label == "Show action list"@ {
        Some(40605u32)
    } else {
        None
    }
}

/// The common actions are the curated DAW commands, each run by the action
/// listed under its label: activating `Undo` runs command 40029, `Redo` runs
/// 40030, and so on for every label of `curated_command`, whether the
/// launcher closes (`Run`) or stays open (`Run (keep open)`).
pub proof fn common_actions_run_their_curated_commands()
    ensures
        common_action_items().len() == 25,
        forall|k: int|
            0 <= k < common_action_items().len() ==> {
                let item = #[trigger] common_action_items()[k];
                &&& curated_command(item.label) is Some
                &&& action_run(item, "Run"@) == curated_command(item.label)
                &&& action_run(item, "Run (keep open)"@) == curated_command(item.label)
            },
{
    let rows = common_action_rows();
    assert(rows.len() == 25);
    common_actions_run_their_commands();
    reveal(curated_command);
    reveal_strlit("Play/Stop");
    reveal_strlit("Record");
    reveal_strlit("Pause");
    reveal_strlit("Stop");
    reveal_strlit("Go to start");
    reveal_strlit("Toggle repeat");
    reveal_strlit("Save project");
    reveal_strlit("Save project as...");
    reveal_strlit("Render project to disk");
    reveal_strlit("Open project...");
    reveal_strlit("New project");
    reveal_strlit("Undo");
    reveal_strlit("Redo");
    reveal_strlit("Copy items");
    reveal_strlit("Cut items");
    reveal_strlit("Paste items");
    reveal_strlit("Select all items");
    reveal_strlit("Insert new track");
    reveal_strlit("Remove selected tracks");
    reveal_strlit("Toggle mute");
    reveal_strlit("Toggle solo");
    reveal_strlit("Toggle arm");
    reveal_strlit("Toggle mixer");
    reveal_strlit("Show FX browser");
    reveal_strlit("Show action list");
    assert("Play/Stop"@.len() == 9);
    assert("Record"@.len() == 6);
    assert("Pause"@.len() == 5);
    assert("Stop"@.len() == 4);
    assert("Go to start"@.len() == 11);
    assert("Toggle repeat"@.len() == 13);
    assert("Save project"@.len() == 12);
    assert("Save project as..."@.len() == 18);
    assert("Render project to disk"@.len() == 22);
    assert("Open project..."@.len() == 15);
    assert("New project"@.len() == 11);
    assert("Undo"@.len() == 4);
    assert("Redo"@.len() == 4);
    assert("Copy items"@.len() == 10);
    assert("Cut items"@.len() == 9);
    assert("Paste items"@.len() == 11);
    assert("Select all items"@.len() == 16);
    assert("Insert new track"@.len() == 16);
    assert("Remove selected tracks"@.len() == 22);
    assert("Toggle mute"@.len() == 11);
    assert("Toggle solo"@.len() == 11);
    assert("Toggle arm"@.len() == 10);
    assert("Toggle mixer"@.len() == 12);
    assert("Show FX browser"@.len() == 15);
    assert("Show action list"@.len() == 16);
    assert forall|k: int| 0 <= k < rows.len() implies #[trigger] curated_command(rows[k].1) == Some(rows[k].3) by {
        if k == 0 {
            assert(curated_command(rows[0].1) == Some(rows[0].3));
        } else if k == 1 {
            assert(curated_command(rows[1].1) == Some(rows[1].3));
        } else if k == 2 {
            assert(curated_command(rows[2].1) == Some(rows[2].3));
        } else if k == 3 {
            assert(curated_command(rows[3].1) == Some(rows[3].3));
        } else if k == 4 {
            assert(curated_command(rows[4].1) == Some(rows[4].3));
        } else if k == 5 {
            assert(curated_command(rows[5].1) == Some(rows[5].3));
        } else if k == 6 {
            assert(curated_command(rows[6].1) == Some(rows[6].3));
        } else if k == 7 {
            assert(curated_command(rows[7].1) == Some(rows[7].3));
        } else if k == 8 {
            assert(curated_command(rows[8].1) == Some(rows[8].3));
        } else if k == 9 {
            assert(curated_command(rows[9].1) == Some(rows[9].3));
        } else if k == 10 {
            assert("New project"@[0] != "Go to start"@[0]);
            assert(curated_command(rows[10].1) == Some(rows[10].3));
        } else if k == 11 {
            assert("Undo"@[0] != "Stop"@[0]);
            assert(curated_command(rows[11].1) == Some(rows[11].3));
        } else if k == 12 {
            assert("Redo"@[0] != "Stop"@[0]);
            assert("Redo"@[0] != "Undo"@[0]);
            assert(curated_command(rows[12].1) == Some(rows[12].3));
        } else if k == 13 {
            assert(curated_command(rows[13].1) == Some(rows[13].3));
        } else if k == 14 {
            assert("Cut items"@[0] != "Play/Stop"@[0]);
            assert(curated_command(rows[14].1) == Some(rows[14].3));
        } else if k == 15 {
            assert("Paste items"@[0] != "Go to start"@[0]);
            assert("Paste items"@[0] != "New project"@[0]);
            assert(curated_command(rows[15].1) == Some(rows[15].3));
        } else if k == 16 {
            assert(curated_command(rows[16].1) == Some(rows[16].3));
        } else if k == 17 {
            assert("Insert new track"@[0] != "Select all items"@[0]);
            assert(curated_command(rows[17].1) == Some(rows[17].3));
        } else if k == 18 {
            assert("Remove selected tracks"@[2] != "Render project to disk"@[2]);
            assert(curated_command(rows[18].1) == Some(rows[18].3));
        } else if k == 19 {
            assert("Toggle mute"@[0] != "Go to start"@[0]);
            assert("Toggle mute"@[0] != "New project"@[0]);
            assert("Toggle mute"@[0] != "Paste items"@[0]);
            assert(curated_command(rows[19].1) == Some(rows[19].3));
        } else if k == 20 {
            assert("Toggle solo"@[0] != "Go to start"@[0]);
            assert("Toggle solo"@[0] != "New project"@[0]);
            assert("Toggle solo"@[0] != "Paste items"@[0]);
            assert("Toggle solo"@[7] != "Toggle mute"@[7]);
            assert(curated_command(rows[20].1) == Some(rows[20].3));
        } else if k == 21 {
            assert("Toggle arm"@[0] != "Copy items"@[0]);
            assert(curated_command(rows[21].1) == Some(rows[21].3));
        } else if k == 22 {
            assert("Toggle mixer"@[0] != "Save project"@[0]);
            assert(curated_command(rows[22].1) == Some(rows[22].3));
        } else if k == 23 {
            assert("Show FX browser"@[0] != "Open project..."@[0]);
            assert(curated_command(rows[23].1) == Some(rows[23].3));
        } else if k == 24 {
            assert("Show action list"@[1] != "Select all items"@[1]);
            assert("Show action list"@[0] != "Insert new track"@[0]);
            assert(curated_command(rows[24].1) == Some(rows[24].3));
        }
    }
    assert forall|k: int| 0 <= k < common_action_items().len() implies {
        let item = #[trigger] common_action_items()[k];
        &&& curated_command(item.label) is Some
        &&& action_run(item, "Run"@) == curated_command(item.label)
        &&& action_run(item, "Run (keep open)"@) == curated_command(item.label)
    } by {
        assert(common_action_items()[k].label == rows[k].1);
        assert(curated_command(rows[k].1) == Some(rows[k].3));
    }
}

/// One of the sections the common actions are listed under.
pub open spec fn known_section(section: Seq<char>) -> bool {
    section == "Transport"@ || section == "File"@ || section == "Edit"@ || section == "Track"@ || section == "View"@
}

/// Every row of `rows` is listed under a known section.
pub open spec fn sections_known(rows: Seq<(Seq<char>, Seq<char>, Seq<char>, u32)>) -> bool
    decreases rows.len(),
{
    rows.len() == 0 || (known_section(rows.last().2) && sections_known(rows.drop_last()))
}

proof fn lemma_sections_known(rows: Seq<(Seq<char>, Seq<char>, Seq<char>, u32)>)
    requires
        sections_known(rows),
    ensures
        forall|k: int| 0 <= k < rows.len() ==> known_section(#[trigger] rows[k].2),
    decreases rows.len(),
{
    if rows.len() > 0 {
        lemma_sections_known(rows.drop_last());
        assert forall|k: int| 0 <= k < rows.len() implies known_section(#[trigger] rows[k].2) by {
            if k < rows.len() - 1 {
                assert(rows[k] == rows.drop_last()[k]);
            }
        }
    }
}

/// The section tag of every common action (`reaper/actions/` and the
/// section in lower case, which `common_actions` gives its items) is a tag
/// that the Reaper taxonomy registers.
#[verifier::spinoff_prover]
pub proof fn common_action_tags_are_registered()
    ensures
        forall|k: int|
            0 <= k < common_action_rows().len() ==> in_reaper_taxonomy(
                "reaper/actions/"@ + ascii_lowercase(#[trigger] common_action_rows()[k].2),
            ),
{
    let rows = common_action_rows();
    let ops = reaper_tag_ops();
    reveal_with_fuel(sections_known, 26);
    assert(sections_known(rows));
    lemma_sections_known(rows);
    reveal_strlit("reaper/actions/");
    reveal_strlit("Transport");
    reveal_strlit("transport");
    reveal_strlit("reaper/actions/transport");
    reveal_strlit("File");
    reveal_strlit("file");
    reveal_strlit("reaper/actions/file");
    reveal_strlit("Edit");
    reveal_strlit("edit");
    reveal_strlit("reaper/actions/edit");
    reveal_strlit("Track");
    reveal_strlit("track");
    reveal_strlit("reaper/actions/track");
    reveal_strlit("View");
    reveal_strlit("view");
    reveal_strlit("reaper/actions/view");
    assert(ops.len() == 76);
    assert forall|k: int| 0 <= k < rows.len() implies in_reaper_taxonomy(
        "reaper/actions/"@ + ascii_lowercase(#[trigger] rows[k].2),
    ) by {
        assert(known_section(rows[k].2));
        if rows[k].2 == "Transport"@ {
            assert(ascii_lowercase("Transport"@) =~= "transport"@);
            assert("reaper/actions/"@ + "transport"@ =~= "reaper/actions/transport"@);
            assert(registers(ops[37], "reaper/actions/"@ + ascii_lowercase(rows[k].2)));
        } else if rows[k].2 == "File"@ {
            assert(ascii_lowercase("File"@) =~= "file"@);
            assert("reaper/actions/"@ + "file"@ =~= "reaper/actions/file"@);
            assert(registers(ops[35], "reaper/actions/"@ + ascii_lowercase(rows[k].2)));
        } else if rows[k].2 == "Edit"@ {
            assert(ascii_lowercase("Edit"@) =~= "edit"@);
            assert("reaper/actions/"@ + "edit"@ =~= "reaper/actions/edit"@);
            assert(registers(ops[36], "reaper/actions/"@ + ascii_lowercase(rows[k].2)));
        } else if rows[k].2 == "Track"@ {
            assert(ascii_lowercase("Track"@) =~= "track"@);
            assert("reaper/actions/"@ + "track"@ =~= "reaper/actions/track"@);
            assert(registers(ops[41], "reaper/actions/"@ + ascii_lowercase(rows[k].2)));
        } else if rows[k].2 == "View"@ {
            assert(ascii_lowercase("View"@) =~= "view"@);
            assert("reaper/actions/"@ + "view"@ =~= "reaper/actions/view"@);
            assert(registers(ops[38], "reaper/actions/"@ + ascii_lowercase(rows[k].2)));
        }
    }
}

/// The configuration a new actions provider starts with: named `actions`,
/// without prefix, tagged `reaper/actions`.
pub open spec fn actions_config() -> ProviderConfigView {
    ProviderConfigView {
        name: "actions"@,
        icon: "A"@,
        prefix: None,
        default_tags: seq!["reaper/actions"@],
    }
}

/// The provider of common DAW actions.
pub struct DawActionsProvider {
    config: ProviderConfig,
    actions: Vec<Item>,
}

impl DawActionsProvider {
    pub closed spec fn config_view(&self) -> ProviderConfigView {
        self.config@
    }

    /// The items this provider lists.
    pub closed spec fn actions(&self) -> Seq<ItemView> {
        item_views(self.actions@)
    }

    /// A provider named `actions`, without prefix, tagged `reaper/actions`,
    /// and no actions until set up.
    pub fn new() -> (p: Self)
        ensures
            p.config_view() == actions_config(),
            p.actions() == Seq::<ItemView>::empty(),
    {
        let p = DawActionsProvider {
            config: ProviderConfig {
                name: owned("actions"),
                icon: owned("A"),
                prefix: None,
                default_tags: text_list1("reaper/actions"),
            },
            actions: Vec::new(),
        };
        assert(p.actions() =~= Seq::empty());
        p
    }

    pub fn name(&self) -> (r: &str)
        ensures
            r@ == "actions"@,
    {
        "actions"
    }

    pub fn config(&self) -> (r: &ProviderConfig)
        ensures
            r@ == self.config_view(),
    {
        &self.config
    }

    pub fn config_mut(&mut self) -> (r: &mut ProviderConfig)
        ensures
            r@ == old(self).config_view(),
            final(self).config_view() == final(r)@,
            final(self).actions() == old(self).actions(),
    {
        &mut self.config
    }

    /// Loads the common actions.
    pub fn setup(&mut self)
        ensures
            final(self).config_view() == old(self).config_view(),
            final(self).actions() == common_action_items(),
            forall|k: int|
                0 <= k < final(self).actions().len() ==> #[trigger] final(self).actions()[k].tags[1]
                    == "reaper/actions/"@ + ascii_lowercase(common_action_rows()[k].2),
    {
        let items = common_actions();
        proof {
            assert forall|k: int| 0 <= k < items@.len() implies #[trigger] item_views(items@)[k].tags[1]
                == "reaper/actions/"@ + ascii_lowercase(common_action_rows()[k].2) by {
                assert(item_views(items@)[k] == items@[k]@);
            }
        }
        self.actions = items;
    }

    /// Every listed action, whatever the query.
    pub fn query(&self, _q: &str, _exact: bool) -> (r: Vec<Item>)
        ensures
            item_views(r@) == self.actions(),
    {
        copy_items(&self.actions)
    }

    /// The DAW command to run for `action` of `item`, and the launcher's
    /// answer: it stays open after a run whose action keeps it open.
    pub fn activate(&self, item: &Item, action: &str) -> (r: (Option<u32>, ActivationResult))
        ensures
            r.0 == action_run(item@, action@),
            r.1 == (if r.0 is Some && action_keeps_open(item@, action@) {
                ActivationResult::KeepOpen
            } else {
                ActivationResult::Close
            }),
    {
        let command = item.command_for(action);
        match split_in_three(command.as_str(), ':') {
            None => (None, ActivationResult::Close),
            Some((_, _, id)) => {
                let n = match parse_u32(id.as_str()) {
                    Some(n) => n,
                    None => 0,
                };
                if n == 0 {
                    (None, ActivationResult::Close)
                } else if item.keeps_open(action) {
                    (Some(n), ActivationResult::KeepOpen)
                } else {
                    (Some(n), ActivationResult::Close)
                }
            },
        }
    }
}

} // verus!
