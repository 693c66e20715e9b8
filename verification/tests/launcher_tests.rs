use fts_launcher::launcher::{
    bundled_extensions_dir, bundled_packs_dir, default_presets, fts_theme, launcher_actions,
    magic_words, presets_to_save, LauncherModule, PresetDef, MAX_RESULTS,
};

fn preset(name: &str, tags: &[&str]) -> PresetDef {
    PresetDef {
        name: name.to_string(),
        included: tags.iter().map(|t| t.to_string()).collect(),
        excluded: vec![],
    }
}

#[test]
fn module_identity() {
    let m = LauncherModule;
    assert_eq!(m.name(), "launcher");
    assert_eq!(m.display_name(), "FTS Launcher");
    let actions = m.actions();
    assert_eq!(actions.len(), 2);
    assert_eq!(actions[0].command_id, "FTS_LAUNCHER_TOGGLE");
    assert_eq!(actions[0].display_name, "FTS: Toggle Launcher");
    assert_eq!(actions[1].command_id, "FTS_LAUNCHER_FOCUS");
    assert_eq!(actions[1].display_name, "FTS: Focus Launcher Search");
    assert_eq!(launcher_actions(), actions);
}

#[test]
fn engine_setup_values() {
    assert_eq!(MAX_RESULTS, 50);
    let words = magic_words();
    assert_eq!(words.len(), 7);
    assert_eq!(words[0], ("C".to_string(), "Compressors".to_string()));
    assert_eq!(words[6], ("T".to_string(), "Tracks".to_string()));
    let theme = fts_theme();
    assert_eq!(theme.name, "fts-dark");
    assert_eq!(theme.accent, "#f5c2e7");
    assert_eq!(theme.accent_hover, "#f5c2e7");
}

#[test]
fn bundled_dirs_fall_back() {
    assert_eq!(bundled_packs_dir(None), "packs");
    assert_eq!(bundled_packs_dir(Some("/opt/p".to_string())), "/opt/p");
    assert_eq!(bundled_extensions_dir(None), "extensions");
    assert_eq!(bundled_extensions_dir(Some("e".to_string())), "e");
}

#[test]
fn default_presets_table() {
    let d = default_presets();
    assert_eq!(d.len(), 6);
    assert_eq!(d[0], preset("Compressors", &["audio/effects/dynamics"]));
    assert_eq!(d[5], preset("Tracks", &["reaper/tracks"]));
}

#[test]
fn seeding_on_an_empty_store_saves_the_defaults() {
    assert_eq!(presets_to_save(&vec![], &vec![]), default_presets());
}

#[test]
fn seeding_skips_stored_and_repeated_names() {
    let existing = vec!["Reverbs".to_string()];
    let packs = vec![
        preset("Compressors", &["my/comp"]),
        preset("Foo", &["a"]),
        preset("Foo", &["b"]),
        preset("Reverbs", &["x"]),
    ];
    let saved = presets_to_save(&existing, &packs);
    let names: Vec<&str> = saved.iter().map(|p| p.name.as_str()).collect();
    assert_eq!(names, vec!["Compressors", "Foo", "EQ", "Instruments", "Actions", "Tracks"]);
    assert_eq!(saved[0], preset("Compressors", &["my/comp"]));
    assert_eq!(saved[1], preset("Foo", &["a"]));
}

#[test]
fn seeding_twice_saves_nothing_more() {
    let first = presets_to_save(&vec![], &vec![preset("Mine", &["t"])]);
    let stored: Vec<String> = first.iter().map(|p| p.name.clone()).collect();
    assert!(presets_to_save(&stored, &vec![preset("Mine", &["t"])]).is_empty());
}
