//! The transport provider: playback control actions.

use vstd::prelude::*;
use crate::item::{
    action_command, action_list1, find_action, action_list2, action_views, item_views, text_list1, text_list2,
    text_list3, texts, ActionModifier, ActivationResult, Item, ItemAction, ItemActionView,
    ItemView, ProviderConfig, ProviderConfigView,
};
use crate::text::{after_last, last_segment, lemma_last_segment_is, owned};

verus! {

broadcast use vstd::string::group_string_axioms;

pub open spec fn action_view(name: Seq<char>, command: Seq<char>, modifier: ActionModifier) -> ItemActionView {
    ItemActionView { name, command, modifier, keep_open: false }
}

pub open spec fn transport_item(
    id: Seq<char>,
    label: Seq<char>,
    sub: Seq<char>,
    icon: Seq<char>,
    search_fields: Seq<Seq<char>>,
    actions: Seq<ItemActionView>,
) -> ItemView {
    ItemView {
        id,
        label,
        provider: "transport"@,
        sub,
        icon,
        tags: Seq::empty(),
        search_fields,
        actions,
    }
}

/// The fixed list of transport items.
pub open spec fn transport_items() -> Seq<ItemView> {
    seq![
        transport_item(
            "transport-play"@,
            "Play / Pause"@,
            "Toggle playback"@,
            "\u{25B6}"@,
            seq!["play"@, "pause"@, "playback"@],
            seq![
                action_view("Play/Pause"@, "daw:transport:play-pause"@, ActionModifier::Plain),
                action_view("Stop"@, "daw:transport:stop"@, ActionModifier::Shift),
            ],
        ),
        transport_item(
            "transport-stop"@,
            "Stop"@,
            "Stop playback and return to start"@,
            "\u{25A0}"@,
            seq!["stop"@],
            seq![action_view("Stop"@, "daw:transport:stop"@, ActionModifier::Plain)],
        ),
        transport_item(
            "transport-record"@,
            "Record"@,
            "Toggle recording"@,
            "\u{2B24}"@,
            seq!["record"@, "arm"@, "rec"@],
            seq![
                action_view("Record"@, "daw:transport:record"@, ActionModifier::Plain),
                action_view("Stop recording"@, "daw:transport:stop-recording"@, ActionModifier::Shift),
            ],
        ),
        transport_item(
            "transport-goto-start"@,
            "Go to Start"@,
            "Move cursor to project start"@,
            "\u{23EE}"@,
            seq!["start"@, "beginning"@, "rewind"@],
            seq![action_view("Go to start"@, "daw:transport:goto-start"@, ActionModifier::Plain)],
        ),
        transport_item(
            "transport-goto-end"@,
            "Go to End"@,
            "Move cursor to project end"@,
            "\u{23ED}"@,
            seq!["end"@, "last"@],
            seq![action_view("Go to end"@, "daw:transport:goto-end"@, ActionModifier::Plain)],
        ),
        transport_item(
            "transport-repeat"@,
            "Toggle Repeat"@,
            "Toggle loop/repeat mode"@,
            "\u{1F501}"@,
            seq!["repeat"@, "loop"@, "cycle"@],
            seq![action_view("Toggle"@, "daw:transport:toggle-repeat"@, ActionModifier::Plain)],
        ),
    ]
}

/// Each transport item is labelled with what its main action (the first,
/// run without a modifier) does: the item whose action plays or pauses is
/// `Play / Pause`, the one that stops `Stop`, the one that records `Record`,
/// the one that goes to the project start `Go to Start`, the one that goes
/// to the end `Go to End`, and the one that toggles repeat `Toggle Repeat`.
/// Its id names the same command.
pub proof fn transport_items_are_labelled_by_their_commands()
    ensures
        transport_items().len() == 6,
        forall|k: int|
            0 <= k < transport_items().len() ==> {
                let item = #[trigger] transport_items()[k];
                let c = item.actions[0].command;
                &&& item.actions.len() >= 1
                &&& item.actions[0].modifier == ActionModifier::Plain
                &&& c == "daw:transport:play-pause"@ ==> item.label == "Play / Pause"@ && item.id == "transport-play"@
                &&& c == "daw:transport:stop"@ ==> item.label == "Stop"@ && item.id == "transport-stop"@
                &&& c == "daw:transport:record"@ ==> item.label == "Record"@ && item.id == "transport-record"@
                &&& c == "daw:transport:goto-start"@ ==> item.label == "Go to Start"@ && item.id == "transport-goto-start"@
                &&& c == "daw:transport:goto-end"@ ==> item.label == "Go to End"@ && item.id == "transport-goto-end"@
                &&& c == "daw:transport:toggle-repeat"@ ==> item.label == "Toggle Repeat"@ && item.id == "transport-repeat"@
            },
{
    let items = transport_items();
    reveal_strlit("daw:transport:play-pause");
    reveal_strlit("daw:transport:stop");
    reveal_strlit("daw:transport:record");
    reveal_strlit("daw:transport:goto-start");
    reveal_strlit("daw:transport:goto-end");
    reveal_strlit("daw:transport:toggle-repeat");
    assert("daw:transport:play-pause"@.len() == 24 && "daw:transport:stop"@.len() == 18);
    assert("daw:transport:record"@.len() == 20 && "daw:transport:goto-start"@.len() == 24);
    assert("daw:transport:goto-end"@.len() == 22 && "daw:transport:toggle-repeat"@.len() == 27);
    assert("daw:transport:play-pause"@[14] != "daw:transport:goto-start"@[14]);
    assert(items.len() == 6);
    assert forall|k: int| 0 <= k < items.len() implies {
        let item = #[trigger] items[k];
        let c = item.actions[0].command;
        &&& item.actions.len() >= 1
        &&& item.actions[0].modifier == ActionModifier::Plain
        &&& c == "daw:transport:play-pause"@ ==> item.label == "Play / Pause"@ && item.id == "transport-play"@
        &&& c == "daw:transport:stop"@ ==> item.label == "Stop"@ && item.id == "transport-stop"@
        &&& c == "daw:transport:record"@ ==> item.label == "Record"@ && item.id == "transport-record"@
        &&& c == "daw:transport:goto-start"@ ==> item.label == "Go to Start"@ && item.id == "transport-goto-start"@
        &&& c == "daw:transport:goto-end"@ ==> item.label == "Go to End"@ && item.id == "transport-goto-end"@
        &&& c == "daw:transport:toggle-repeat"@ ==> item.label == "Toggle Repeat"@ && item.id == "transport-repeat"@
    } by {
        if k == 0 {
            assert(items[0].actions[0].command == "daw:transport:play-pause"@);
        } else if k == 1 {
            assert(items[1].actions[0].command == "daw:transport:stop"@);
        } else if k == 2 {
            assert(items[2].actions[0].command == "daw:transport:record"@);
        } else if k == 3 {
            assert(items[3].actions[0].command == "daw:transport:goto-start"@);
        } else if k == 4 {
            assert(items[4].actions[0].command == "daw:transport:goto-end"@);
        } else {
            assert(items[5].actions[0].command == "daw:transport:toggle-repeat"@);
        }
    }
}

fn make_item(
    id: &str,
    label: &str,
    sub: &str,
    icon: &str,
    search_fields: Vec<String>,
    actions: Vec<ItemAction>,
) -> (item: Item)
    ensures
        item@ == transport_item(id@, label@, sub@, icon@, texts(search_fields@), action_views(actions@)),
{
    let item = Item {
        id: owned(id),
        label: owned(label),
        provider: owned("transport"),
        sub: owned(sub),
        icon: owned(icon),
        tags: Vec::new(),
        search_fields,
        actions,
    };
    assert(item@.tags =~= Seq::empty());
    item
}

fn act(name: &str, command: &str, modifier: ActionModifier) -> (a: ItemAction)
    ensures
        a@ == action_view(name@, command@, modifier),
{
    ItemAction::new(name, owned(command), modifier, false)
}

/// What a transport action asks the DAW to do.
#[derive(Clone, Copy, Debug, PartialEq, Eq, Structural)]
pub enum TransportCommand {
    PlayPause,
    Stop,
    Record,
    StopRecording,
    GotoStart,
    GotoEnd,
    ToggleRepeat,
    Nothing,
}

/// The command named by the last part of a transport action's command text.
pub open spec fn transport_command(cmd: Seq<char>) -> TransportCommand {
    if cmd == "play-pause"@ {
        TransportCommand::PlayPause
    } else if cmd == "stop"@ {
        TransportCommand::Stop
    } else if cmd == "record"@ {
        TransportCommand::Record
    } else if cmd == "stop-recording"@ {
        TransportCommand::StopRecording
    } else if cmd == "goto-start"@ {
        TransportCommand::GotoStart
    } else if cmd == "goto-end"@ {
        TransportCommand::GotoEnd
    } else if cmd == "toggle-repeat"@ {
        TransportCommand::ToggleRepeat
    } else {
        TransportCommand::Nothing
    }
}

/// Every action of the transport items names a transport command that
/// activation understands.
pub proof fn transport_items_are_understood()
    ensures
        transport_command(last_segment(action_command(transport_items()[0], "Play/Pause"@), ':'))
            == TransportCommand::PlayPause,
        transport_command(last_segment(action_command(transport_items()[0], "Stop"@), ':'))
            == TransportCommand::Stop,
        transport_command(last_segment(action_command(transport_items()[1], "Stop"@), ':'))
            == TransportCommand::Stop,
        transport_command(last_segment(action_command(transport_items()[2], "Record"@), ':'))
            == TransportCommand::Record,
        transport_command(last_segment(action_command(transport_items()[2], "Stop recording"@), ':'))
            == TransportCommand::StopRecording,
        transport_command(last_segment(action_command(transport_items()[3], "Go to start"@), ':'))
            == TransportCommand::GotoStart,
        transport_command(last_segment(action_command(transport_items()[4], "Go to end"@), ':'))
            == TransportCommand::GotoEnd,
        transport_command(last_segment(action_command(transport_items()[5], "Toggle"@), ':'))
            == TransportCommand::ToggleRepeat,
{
    let items = transport_items();
    reveal_strlit("Go to end");
    reveal_strlit("Go to start");
    reveal_strlit("Play/Pause");
    reveal_strlit("Record");
    reveal_strlit("Stop");
    reveal_strlit("Stop recording");
    reveal_strlit("Toggle");
    reveal_strlit("daw:transport");
    reveal_strlit("daw:transport:goto-end");
    reveal_strlit("daw:transport:goto-start");
    reveal_strlit("daw:transport:play-pause");
    reveal_strlit("daw:transport:record");
    reveal_strlit("daw:transport:stop");
    reveal_strlit("daw:transport:stop-recording");
    reveal_strlit("daw:transport:toggle-repeat");
    reveal_strlit("goto-end");
    reveal_strlit("goto-start");
    reveal_strlit("play-pause");
    reveal_strlit("record");
    reveal_strlit("stop");
    reveal_strlit("stop-recording");
    reveal_strlit("toggle-repeat");
    assert("goto-end"@.len() == 8 && "goto-start"@.len() == 10 && "play-pause"@.len() == 10 && "record"@.len() == 6 && "stop"@.len() == 4 && "stop-recording"@.len() == 14 && "toggle-repeat"@.len() == 13);
    assert("play-pause"@[0] != "goto-start"@[0]);
    assert("Play/Pause"@.len() != "Stop"@.len());
    assert("Record"@.len() != "Stop recording"@.len());
    assert(items[0].actions.drop_first()[0] == items[0].actions[1]);
    assert(items[2].actions.drop_first()[0] == items[2].actions[1]);
    assert(find_action(items[0].actions.drop_first(), "Stop"@) == Some(items[0].actions[1]));
    assert(find_action(items[2].actions.drop_first(), "Stop recording"@) == Some(items[2].actions[1]));
    assert("daw:transport:goto-end"@ =~= "daw:transport"@ + seq![':'] + "goto-end"@);
    lemma_last_segment_is("daw:transport"@, "goto-end"@, ':');
    assert("daw:transport:goto-start"@ =~= "daw:transport"@ + seq![':'] + "goto-start"@);
    lemma_last_segment_is("daw:transport"@, "goto-start"@, ':');
    assert("daw:transport:play-pause"@ =~= "daw:transport"@ + seq![':'] + "play-pause"@);
    lemma_last_segment_is("daw:transport"@, "play-pause"@, ':');
    assert("daw:transport:record"@ =~= "daw:transport"@ + seq![':'] + "record"@);
    lemma_last_segment_is("daw:transport"@, "record"@, ':');
    assert("daw:transport:stop"@ =~= "daw:transport"@ + seq![':'] + "stop"@);
    lemma_last_segment_is("daw:transport"@, "stop"@, ':');
    assert("daw:transport:stop-recording"@ =~= "daw:transport"@ + seq![':'] + "stop-recording"@);
    lemma_last_segment_is("daw:transport"@, "stop-recording"@, ':');
    assert("daw:transport:toggle-repeat"@ =~= "daw:transport"@ + seq![':'] + "toggle-repeat"@);
    lemma_last_segment_is("daw:transport"@, "toggle-repeat"@, ':');
}

/// The configuration a new transport provider starts with: named
/// `transport`, without prefix, tagged `reaper/actions/transport`.
pub open spec fn transport_config() -> ProviderConfigView {
    ProviderConfigView {
        name: "transport"@,
        icon: "P"@,
        prefix: None,
        default_tags: seq!["reaper/actions/transport"@],
    }
}

/// The provider of transport controls.
pub struct DawTransportProvider {
    config: ProviderConfig,
}

impl DawTransportProvider {
    pub closed spec fn config_view(&self) -> ProviderConfigView {
        self.config@
    }

    /// A provider named `transport`, without prefix, tagged
    /// `reaper/actions/transport`.
    pub fn new() -> (p: Self)
        ensures
            p.config_view() == transport_config(),
    {
        let p = DawTransportProvider {
            config: ProviderConfig {
                name: owned("transport"),
                icon: owned("P"),
                prefix: None,
                default_tags: vec![owned("reaper/actions/transport")],
            },
        };
        assert(p.config_view().default_tags =~= seq!["reaper/actions/transport"@]);
        p
    }

    pub fn name(&self) -> (r: &str)
        ensures
            r@ == "transport"@,
    {
        "transport"
    }

    pub fn config(&self) -> (r: &ProviderConfig)
        ensures
            r@ == self.config_view(),
    {
        &self.config
    }

    pub fn config_mut(&mut self) -> (r: &mut ProviderConfig)
        ensures
            r@ == old(self).config_view(),
            final(self).config_view() == final(r)@,
    {
        &mut self.config
    }

    /// The transport items, whatever the query.
    pub fn query(&self, _query: &str, _exact: bool) -> (r: Vec<Item>)
        ensures
            item_views(r@) == transport_items(),
    {
        let r = vec![
            make_item(
                "transport-play",
                "Play / Pause",
                "Toggle playback",
                "\u{25B6}",
                text_list3("play", "pause", "playback"),
                action_list2(
                    act("Play/Pause", "daw:transport:play-pause", ActionModifier::Plain),
                    act("Stop", "daw:transport:stop", ActionModifier::Shift),
                ),
            ),
            make_item(
                "transport-stop",
                "Stop",
                "Stop playback and return to start",
                "\u{25A0}",
                text_list1("stop"),
                action_list1(act("Stop", "daw:transport:stop", ActionModifier::Plain)),
            ),
            make_item(
                "transport-record",
                "Record",
                "Toggle recording",
                "\u{2B24}",
                text_list3("record", "arm", "rec"),
                action_list2(
                    act("Record", "daw:transport:record", ActionModifier::Plain),
                    act("Stop recording", "daw:transport:stop-recording", ActionModifier::Shift),
                ),
            ),
            make_item(
                "transport-goto-start",
                "Go to Start",
                "Move cursor to project start",
                "\u{23EE}",
                text_list3("start", "beginning", "rewind"),
                action_list1(act("Go to start", "daw:transport:goto-start", ActionModifier::Plain)),
            ),
            make_item(
                "transport-goto-end",
                "Go to End",
                "Move cursor to project end",
                "\u{23ED}",
                text_list2("end", "last"),
                action_list1(act("Go to end", "daw:transport:goto-end", ActionModifier::Plain)),
            ),
            make_item(
                "transport-repeat",
                "Toggle Repeat",
                "Toggle loop/repeat mode",
                "\u{1F501}",
                text_list3("repeat", "loop", "cycle"),
                action_list1(act("Toggle", "daw:transport:toggle-repeat", ActionModifier::Plain)),
            ),
        ];
        assert(item_views(r@) =~= transport_items());
        r
    }

    /// What activating `action` of `item` asks the DAW to do: the last
    /// `:`-separated part of the action's command text names it. The
    /// launcher then closes.
    pub fn activate(&self, item: &Item, action: &str) -> (r: (TransportCommand, ActivationResult))
        ensures
            r.0 == transport_command(last_segment(action_command(item@, action@), ':')),
            r.1 == ActivationResult::Close,
    {
        let command = item.command_for(action);
        let cmd = after_last(command.as_str(), ':');
        let c = if cmd == owned("play-pause") {
            TransportCommand::PlayPause
        } else if cmd == owned("stop") {
            TransportCommand::Stop
        } else if cmd == owned("record") {
            TransportCommand::Record
        } else if cmd == owned("stop-recording") {
            TransportCommand::StopRecording
        } else if cmd == owned("goto-start") {
            TransportCommand::GotoStart
        } else if cmd == owned("goto-end") {
            TransportCommand::GotoEnd
        } else if cmd == owned("toggle-repeat") {
            TransportCommand::ToggleRepeat
        } else {
            TransportCommand::Nothing
        };
        (c, ActivationResult::Close)
    }
}

} // verus!
