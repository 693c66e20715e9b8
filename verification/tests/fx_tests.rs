use fts_launcher::item::{ActionModifier, ActivationResult, Item, ItemAction};
use fts_launcher::reaper::fx::{
    format_tag_for, fx_item_for, names_instrument, parse_fx_ident, removal_order, DawFxProvider,
    FxCommand, InstalledFx,
};

fn s(x: &str) -> String {
    x.to_string()
}

fn fx(ident: &str, name: &str) -> InstalledFx {
    InstalledFx { ident: s(ident), name: s(name) }
}

#[test]
fn parse_fx_ident_reads_format_name_developer() {
    assert_eq!(
        parse_fx_ident("VST3: Pro-Q 3 (FabFilter)"),
        (s("VST3"), s("Pro-Q 3"), s("FabFilter"))
    );
}

#[test]
fn parse_fx_ident_without_developer() {
    assert_eq!(parse_fx_ident("JS: gain"), (s("JS"), s("gain"), s("")));
}

#[test]
fn parse_fx_ident_without_format() {
    assert_eq!(parse_fx_ident("ReaEQ (Cockos)"), (s("Unknown"), s("ReaEQ"), s("Cockos")));
}

#[test]
fn parse_fx_ident_uses_last_parenthesis_and_strips_closers() {
    assert_eq!(
        parse_fx_ident("CLAP: Comp (x2) ( Vendor ))"),
        (s("CLAP"), s("Comp (x2)"), s("Vendor"))
    );
    assert_eq!(parse_fx_ident("VST: a: b"), (s("VST"), s("a: b"), s("")));
    assert_eq!(parse_fx_ident(""), (s("Unknown"), s(""), s("")));
}

#[test]
fn fx_item_for_an_effect() {
    let item = fx_item_for(&fx("VST3: Pro-Q 3 (FabFilter)", "Pro-Q 3"));
    assert_eq!(item.id, "fx-vst3--pro-q-3-(fabfilter)");
    assert_eq!(item.label, "Pro-Q 3");
    assert_eq!(item.provider, "fx");
    assert_eq!(item.sub, "FabFilter (VST3)");
    assert_eq!(item.icon, "F");
    assert_eq!(item.tags, vec![s("audio/effects"), s("audio/effects/plugin/vst3")]);
    assert_eq!(item.search_fields, vec![s("Pro-Q 3"), s("FabFilter"), s("VST3")]);
    assert_eq!(
        item.actions,
        vec![
            ItemAction {
                name: s("Add to track"),
                command: s("daw:fx-add:VST3: Pro-Q 3 (FabFilter)"),
                modifier: ActionModifier::Plain,
                keep_open: false
            },
            ItemAction {
                name: s("Add to new track"),
                command: s("daw:fx-new-track:VST3: Pro-Q 3 (FabFilter)"),
                modifier: ActionModifier::Shift,
                keep_open: false
            },
            ItemAction {
                name: s("Replace chain"),
                command: s("daw:fx-replace:VST3: Pro-Q 3 (FabFilter)"),
                modifier: ActionModifier::CtrlShift,
                keep_open: false
            },
        ]
    );
}

#[test]
fn fx_item_for_an_instrument() {
    let item = fx_item_for(&fx("VSTi: Serum (Xfer Records)", "Serum"));
    assert_eq!(item.tags, vec![s("audio/instruments"), s("audio/effects/plugin")]);
    let synth = fx_item_for(&fx("CLAP: Surge XT Synth (Surge)", "Surge XT"));
    assert_eq!(synth.tags, vec![s("audio/instruments"), s("audio/effects/plugin/clap")]);
    let inst = fx_item_for(&fx("AU: Kontakt INSTRUMENT (NI)", "Kontakt"));
    assert_eq!(inst.tags, vec![s("audio/instruments"), s("audio/effects/plugin/au")]);
}

#[test]
fn fx_format_tags() {
    let tag = |ident: &str| fx_item_for(&fx(ident, "x")).tags[1].clone();
    assert_eq!(tag("VST: a"), "audio/effects/plugin/vst");
    assert_eq!(tag("VST2: a"), "audio/effects/plugin/vst");
    assert_eq!(tag("vst3: a"), "audio/effects/plugin/vst3");
    assert_eq!(tag("JS: a"), "audio/effects/plugin/jsfx");
    assert_eq!(tag("JSFX: a"), "audio/effects/plugin/jsfx");
    assert_eq!(tag("LV2: a"), "audio/effects/plugin");
    assert_eq!(tag("plain"), "audio/effects/plugin");
}

#[test]
fn fx_provider_lists_what_the_daw_reports() {
    let mut p = DawFxProvider::new();
    assert_eq!(p.name(), "fx");
    assert_eq!(p.config().prefix, Some('f'));
    assert!(p.query("", false).is_empty());
    p.setup(Some(vec![fx("JS: gain", "gain"), fx("VST3: Pro-Q 3 (FabFilter)", "Pro-Q 3")]));
    let items = p.query("anything", true);
    assert_eq!(items.len(), 2);
    assert_eq!(items[0].id, "fx-js--gain");
    assert_eq!(items[1].label, "Pro-Q 3");
    p.refresh(None);
    assert_eq!(p.query("", false), items);
}

#[test]
fn fx_activation_commands() {
    let p = DawFxProvider::new();
    let item = fx_item_for(&fx("VST3: Pro-Q 3 (FabFilter)", "Pro-Q 3"));
    let ident = s("VST3: Pro-Q 3 (FabFilter)");
    assert_eq!(
        p.activate(&item, "Add to track"),
        (Some(FxCommand::AddToSelectedTrack { fx_ident: ident.clone() }), ActivationResult::Close)
    );
    assert_eq!(
        p.activate(&item, "Add to new track"),
        (
            Some(FxCommand::AddToNewTrack { track_name: s("Pro-Q 3"), fx_ident: ident.clone() }),
            ActivationResult::Close
        )
    );
    assert_eq!(
        p.activate(&item, "Replace chain"),
        (Some(FxCommand::ReplaceChains { fx_ident: ident }), ActivationResult::Close)
    );
    assert_eq!(p.activate(&item, "Missing"), (None, ActivationResult::Close));
}

#[test]
fn fx_activation_ignores_unknown_commands() {
    let p = DawFxProvider::new();
    let item = Item {
        id: s("x"),
        label: s("x"),
        provider: s("fx"),
        sub: s(""),
        icon: s(""),
        tags: vec![],
        search_fields: vec![],
        actions: vec![
            ItemAction { name: s("a"), command: s("daw:fx-other:id"), modifier: ActionModifier::Plain, keep_open: false },
            ItemAction { name: s("b"), command: s("daw:fx-add"), modifier: ActionModifier::Plain, keep_open: false },
        ],
    };
    assert_eq!(p.activate(&item, "a").0, Some(FxCommand::Nothing));
    assert_eq!(p.activate(&item, "b").0, None);
}

#[test]
fn removal_order_goes_backwards() {
    assert_eq!(removal_order(3), vec![2, 1, 0]);
    assert_eq!(removal_order(1), vec![0]);
    assert!(removal_order(0).is_empty());
}

#[test]
fn parse_fx_ident_round_trip() {
    for (f, n, d) in [("JS", "gain", "Cockos"), ("VST3", "Pro-Q 3 (x2)", "FabFilter"), ("a:", "", "")] {
        assert_eq!(parse_fx_ident(&format!("{f}: {n} ({d})")), (s(f), s(n), s(d)));
    }
}

#[test]
fn parse_fx_ident_parts_are_slices() {
    for ident in ["JS: gain (Cockos)", "x (y (z)) )", "VST:  a  (  b  ))", "plain"] {
        let (format, name, dev) = parse_fx_ident(ident);
        assert!(!format.contains(": "));
        assert!(format == "Unknown" || ident.starts_with(&format!("{format}: ")));
        assert!(ident.contains(name.as_str()));
        assert!(ident.contains(dev.as_str()));
        assert!(!dev.contains('('));
        assert_eq!(dev, dev.trim());
    }
}

#[test]
fn instrument_and_format_from_lowercase() {
    assert!(names_instrument("vsti: serum"));
    assert!(names_instrument("clap: my synth"));
    assert!(names_instrument("au: big instrument"));
    assert!(!names_instrument("vst3: pro-q 3"));
    assert!(!names_instrument("VSTi: Serum"));
    assert_eq!(format_tag_for("vst2"), "audio/effects/plugin/vst");
    assert_eq!(format_tag_for("au"), "audio/effects/plugin/au");
    assert_eq!(format_tag_for("VST3"), "audio/effects/plugin");
    assert_eq!(format_tag_for("jsfx"), "audio/effects/plugin/jsfx");
}
