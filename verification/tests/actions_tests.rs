use fts_launcher::item::{ActionModifier, ActivationResult, Item, ItemAction};
use fts_launcher::reaper::actions::{action_item_for, common_actions, DawActionsProvider};

#[test]
fn action_item_shape() {
    let item = action_item_for("rewind", "Go to start", "Transport", 40042);
    assert_eq!(item.id, "action-rewind");
    assert_eq!(item.label, "Go to start");
    assert_eq!(item.provider, "actions");
    assert_eq!(item.sub, "Action: Transport > Go to start");
    assert_eq!(item.icon, "A");
    assert_eq!(item.tags, vec!["reaper/actions".to_string(), "reaper/actions/transport".to_string()]);
    assert_eq!(item.search_fields, vec!["Go to start".to_string(), "Transport".to_string()]);
    assert_eq!(
        item.actions,
        vec![
            ItemAction {
                name: "Run".to_string(),
                command: "daw:action:40042".to_string(),
                modifier: ActionModifier::Plain,
                keep_open: false
            },
            ItemAction {
                name: "Run (keep open)".to_string(),
                command: "daw:action:40042".to_string(),
                modifier: ActionModifier::Shift,
                keep_open: true
            },
        ]
    );
}

#[test]
fn common_actions_table() {
    let items = common_actions();
    assert_eq!(items.len(), 25);
    assert_eq!(items[0].id, "action-play");
    assert_eq!(items[0].actions[0].command, "daw:action:1007");
    assert_eq!(items[24].id, "action-actlist");
    assert_eq!(items[24].tags[1], "reaper/actions/view");
    assert_eq!(items[6].sub, "Action: File > Save project");
}

#[test]
fn actions_provider_runs_commands() {
    let mut p = DawActionsProvider::new();
    assert_eq!(p.name(), "actions");
    assert_eq!(p.config().default_tags, vec!["reaper/actions".to_string()]);
    assert!(p.query("", false).is_empty());
    p.setup();
    let items = p.query("", false);
    assert_eq!(items.len(), 25);
    assert_eq!(p.activate(&items[0], "Run"), (Some(1007), ActivationResult::Close));
    assert_eq!(p.activate(&items[0], "Run (keep open)"), (Some(1007), ActivationResult::KeepOpen));
    assert_eq!(p.activate(&items[0], "Missing"), (None, ActivationResult::Close));
}

fn item_with(command: &str, keep_open: bool) -> Item {
    Item {
        id: "x".to_string(),
        label: "x".to_string(),
        provider: "actions".to_string(),
        sub: String::new(),
        icon: String::new(),
        tags: vec![],
        search_fields: vec![],
        actions: vec![ItemAction {
            name: "Run".to_string(),
            command: command.to_string(),
            modifier: ActionModifier::Plain,
            keep_open,
        }],
    }
}

#[test]
fn actions_provider_refuses_bad_ids() {
    let p = DawActionsProvider::new();
    assert_eq!(p.activate(&item_with("daw:action:abc", true), "Run"), (None, ActivationResult::Close));
    assert_eq!(p.activate(&item_with("daw:action:0", true), "Run"), (None, ActivationResult::Close));
    assert_eq!(p.activate(&item_with("daw:action", true), "Run"), (None, ActivationResult::Close));
    assert_eq!(p.activate(&item_with("x:y:+12", true), "Run"), (Some(12), ActivationResult::KeepOpen));
    assert_eq!(p.activate(&item_with("daw:action:7:8", false), "Run"), (None, ActivationResult::Close));
}

#[test]
fn every_common_action_runs_its_command() {
    let mut p = DawActionsProvider::new();
    p.setup();
    for item in p.query("", false) {
        let id: u32 = item.actions[0].command["daw:action:".len()..].parse().unwrap();
        assert_ne!(id, 0);
        assert_eq!(p.activate(&item, "Run"), (Some(id), ActivationResult::Close));
        assert_eq!(p.activate(&item, "Run (keep open)"), (Some(id), ActivationResult::KeepOpen));
    }
}
