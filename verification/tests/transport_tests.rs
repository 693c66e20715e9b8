use fts_launcher::item::{ActionModifier, ActivationResult};
use fts_launcher::reaper::transport::{DawTransportProvider, TransportCommand};

#[test]
fn transport_lists_six_items() {
    let p = DawTransportProvider::new();
    assert_eq!(p.name(), "transport");
    assert_eq!(p.config().prefix, None);
    assert_eq!(p.config().default_tags, vec!["reaper/actions/transport".to_string()]);
    let items = p.query("whatever", false);
    let ids: Vec<&str> = items.iter().map(|i| i.id.as_str()).collect();
    assert_eq!(
        ids,
        vec![
            "transport-play",
            "transport-stop",
            "transport-record",
            "transport-goto-start",
            "transport-goto-end",
            "transport-repeat"
        ]
    );
    assert_eq!(items[0].label, "Play / Pause");
    assert_eq!(items[0].icon, "\u{25B6}");
    assert_eq!(items[0].search_fields, vec!["play".to_string(), "pause".to_string(), "playback".to_string()]);
    assert_eq!(items[0].actions[1].modifier, ActionModifier::Shift);
    assert_eq!(items[5].icon, "\u{1F501}");
    assert!(items.iter().all(|i| i.provider == "transport" && i.tags.is_empty()));
}

#[test]
fn transport_activation_reads_the_last_part() {
    let p = DawTransportProvider::new();
    let items = p.query("", false);
    let expect = [
        (0, "Play/Pause", TransportCommand::PlayPause),
        (0, "Stop", TransportCommand::Stop),
        (1, "Stop", TransportCommand::Stop),
        (2, "Record", TransportCommand::Record),
        (2, "Stop recording", TransportCommand::StopRecording),
        (3, "Go to start", TransportCommand::GotoStart),
        (4, "Go to end", TransportCommand::GotoEnd),
        (5, "Toggle", TransportCommand::ToggleRepeat),
    ];
    for (i, action, cmd) in expect {
        assert_eq!(p.activate(&items[i], action), (cmd, ActivationResult::Close));
    }
    assert_eq!(p.activate(&items[0], "Unknown"), (TransportCommand::Nothing, ActivationResult::Close));
}
