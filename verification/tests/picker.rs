use emoji_picker::data::{EmojiEntry, Group, SkinTone, resolved_glyph, tone_index_exec};
use emoji_picker::grid::{build_grid, chunk_rows, filter_entries, row_count};
use emoji_picker::state::{AppData, AppEvent};
use emoji_picker::text::contains_substring;

fn entry(glyph: &str, name: &str, group: Group, vmaj: u32, vmin: u32) -> EmojiEntry {
    EmojiEntry {
        glyph: glyph.to_string(),
        name: name.to_string(),
        group,
        version_major: vmaj,
        version_minor: vmin,
        tone_variants: vec![None, None, None, None, None, None],
    }
}

fn toned_entry(
    glyph: &str,
    name: &str,
    group: Group,
    vmaj: u32,
    vmin: u32,
    variants: [&str; 6],
) -> EmojiEntry {
    EmojiEntry {
        glyph: glyph.to_string(),
        name: name.to_string(),
        group,
        version_major: vmaj,
        version_minor: vmin,
        tone_variants: variants.iter().map(|v| Some(v.to_string())).collect(),
    }
}

fn sample_dataset() -> Vec<EmojiEntry> {
    vec![
        entry("\u{1F4F7}", "camera", Group::Objects, 6, 0),
        entry("\u{1F4BB}", "laptop", Group::Objects, 6, 0),
        toned_entry(
            "\u{1F44B}",
            "waving hand",
            Group::PeopleAndBody,
            6,
            0,
            [
                "\u{1F44B}",
                "\u{1F44B}\u{1F3FB}",
                "\u{1F44B}\u{1F3FC}",
                "\u{1F44B}\u{1F3FD}",
                "\u{1F44B}\u{1F3FE}",
                "\u{1F44B}\u{1F3FF}",
            ],
        ),
        entry("\u{1F431}", "cat face", Group::SmileysAndEmotion, 6, 0),
        entry("\u{1F408}", "cat", Group::AnimalsAndNature, 6, 0),
        entry("\u{1FAA9}", "mirror ball", Group::Objects, 15, 0),
        entry("\u{1F9E9}", "puzzle piece", Group::Objects, 11, 0),
    ]
}

#[test]
fn substring_search_is_case_sensitive() {
    assert!(contains_substring("black cat face", "cat"));
    assert!(!contains_substring("black Cat face", "cat"));
    assert!(contains_substring("abc", ""));
    assert!(contains_substring("", ""));
    assert!(!contains_substring("", "a"));
    assert!(contains_substring("aab", "ab"));
    assert!(!contains_substring("ab", "abc"));
}

#[test]
fn empty_search_filters_by_group() {
    let ds = sample_dataset();
    let r = filter_entries(&ds, &Group::Objects, "");
    let names: Vec<&str> = r.iter().map(|e| e.name.as_str()).collect();
    assert_eq!(names, ["camera", "laptop", "puzzle piece"]);
}

#[test]
fn version_cutoff_excludes_late_emoji() {
    let ds = sample_dataset();
    let r = filter_entries(&ds, &Group::Objects, "");
    assert!(r.iter().all(|e| e.name != "mirror ball"));
}

#[test]
fn one_char_search_selects_nothing() {
    let ds = sample_dataset();
    for g in [Group::Objects, Group::SmileysAndEmotion, Group::Flags] {
        let r = filter_entries(&ds, &g, "a");
        assert!(r.is_empty());
    }
}

#[test]
fn long_search_ignores_group() {
    let ds = sample_dataset();
    let r1 = filter_entries(&ds, &Group::Objects, "cat");
    let r2 = filter_entries(&ds, &Group::Flags, "cat");
    let names1: Vec<&str> = r1.iter().map(|e| e.name.as_str()).collect();
    let names2: Vec<&str> = r2.iter().map(|e| e.name.as_str()).collect();
    assert_eq!(names1, ["cat face", "cat"]);
    assert_eq!(names1, names2);
}

#[test]
fn row_count_has_floor_one() {
    assert_eq!(row_count(0), 1);
    assert_eq!(row_count(9), 1);
    assert_eq!(row_count(10), 1);
    assert_eq!(row_count(23), 2);
    assert_eq!(row_count(100), 10);
}

#[test]
fn chunking_drops_trailing_partial_rows() {
    let glyphs: Vec<String> = (0..23).map(|i| format!("g{}", i)).collect();
    let grid = chunk_rows(&glyphs);
    assert_eq!(grid.len(), 2);
    assert_eq!(grid[0].len(), 10);
    assert_eq!(grid[1].len(), 10);
    assert_eq!(grid[0][0], "g0");
    assert_eq!(grid[1][9], "g19");
}

#[test]
fn chunking_empty_list_yields_one_empty_row() {
    let glyphs: Vec<String> = Vec::new();
    let grid = chunk_rows(&glyphs);
    assert_eq!(grid.len(), 1);
    assert!(grid[0].is_empty());
}

#[test]
fn chunking_short_list_yields_one_partial_row() {
    let glyphs: Vec<String> = (0..9).map(|i| format!("g{}", i)).collect();
    let grid = chunk_rows(&glyphs);
    assert_eq!(grid.len(), 1);
    assert_eq!(grid[0].len(), 9);
}

#[test]
fn objects_scenario_renders_base_glyphs() {
    let ds = sample_dataset();
    let grid = build_grid(&ds, &Group::Objects, &SkinTone::Default, "");
    assert_eq!(grid.len(), 1);
    let row: Vec<&str> = grid[0].iter().map(|g| g.as_str()).collect();
    assert_eq!(row, ["\u{1F4F7}", "\u{1F4BB}", "\u{1F9E9}"]);
}

#[test]
fn search_scenario_any_group_any_tone() {
    let ds = sample_dataset();
    let grid = build_grid(&ds, &Group::Flags, &SkinTone::Medium, "cat");
    assert_eq!(grid.len(), 1);
    let row: Vec<&str> = grid[0].iter().map(|g| g.as_str()).collect();
    assert_eq!(row, ["\u{1F431}", "\u{1F408}"]);
}

#[test]
fn tone_changes_only_glyphs() {
    let ds = sample_dataset();
    let base = build_grid(&ds, &Group::PeopleAndBody, &SkinTone::Default, "");
    let dark = build_grid(&ds, &Group::PeopleAndBody, &SkinTone::Dark, "");
    assert_eq!(base.len(), dark.len());
    for (r1, r2) in base.iter().zip(dark.iter()) {
        assert_eq!(r1.len(), r2.len());
    }
    assert_eq!(base[0][0], "\u{1F44B}");
    assert_eq!(dark[0][0], "\u{1F44B}\u{1F3FF}");
}

#[test]
fn glyph_resolution_falls_back_to_base() {
    let ds = sample_dataset();
    let camera = &ds[0];
    let wave = &ds[2];
    assert_eq!(resolved_glyph(camera, &SkinTone::Dark), "\u{1F4F7}");
    assert_eq!(resolved_glyph(wave, &SkinTone::Medium), "\u{1F44B}\u{1F3FD}");
    assert_eq!(resolved_glyph(wave, &SkinTone::Default), "\u{1F44B}");
}

#[test]
fn tone_indices_cover_all_tones() {
    let tones = [
        SkinTone::Default,
        SkinTone::Light,
        SkinTone::MediumLight,
        SkinTone::Medium,
        SkinTone::MediumDark,
        SkinTone::Dark,
    ];
    for (i, t) in tones.iter().enumerate() {
        assert_eq!(tone_index_exec(t), i);
    }
}

#[test]
fn initial_state_has_defaults() {
    let st = AppData::new();
    assert_eq!(st.search, "");
    assert_eq!(st.group, Group::SmileysAndEmotion);
    assert_eq!(st.skin_tone, SkinTone::Default);
    assert_eq!(st.filter.0, Group::SmileysAndEmotion);
    assert_eq!(st.filter.1, SkinTone::Default);
    assert_eq!(st.filter.2, "");
}

#[test]
fn events_recompute_filter() {
    let mut st = AppData::new();
    assert!(st.event(AppEvent::Search("cat".to_string())).is_none());
    assert_eq!(st.search, "cat");
    assert_eq!(st.filter.2, "cat");
    assert!(st.event(AppEvent::Group(Group::Objects)).is_none());
    assert_eq!(st.group, Group::Objects);
    assert_eq!(st.filter.0, Group::Objects);
    assert_eq!(st.filter.2, "cat");
    assert!(st.event(AppEvent::SkinTone(SkinTone::Medium)).is_none());
    assert_eq!(st.skin_tone, SkinTone::Medium);
    assert_eq!(st.filter.1, SkinTone::Medium);
    assert_eq!(st.filter.0, Group::Objects);
}

#[test]
fn clipboard_event_resolves_and_keeps_state() {
    let ds = sample_dataset();
    let mut st = AppData::new();
    st.event(AppEvent::SkinTone(SkinTone::Dark));
    let copied = st.event(AppEvent::Clipboard(ds[2].clone()));
    assert_eq!(copied.as_deref(), Some("\u{1F44B}\u{1F3FF}"));
    assert_eq!(st.search, "");
    assert_eq!(st.group, Group::SmileysAndEmotion);
    assert_eq!(st.skin_tone, SkinTone::Dark);
}

#[test]
fn repeated_group_event_is_idempotent() {
    let ds = sample_dataset();
    let mut once = AppData::new();
    once.event(AppEvent::Search("ca".to_string()));
    once.event(AppEvent::Group(Group::Objects));
    let mut twice = AppData::new();
    twice.event(AppEvent::Search("ca".to_string()));
    twice.event(AppEvent::Group(Group::Objects));
    let first = build_grid(&ds, &twice.filter.0, &twice.filter.1, twice.filter.2.as_str());
    twice.event(AppEvent::Group(Group::Objects));
    assert_eq!(once.search, twice.search);
    assert_eq!(once.group, twice.group);
    assert_eq!(once.skin_tone, twice.skin_tone);
    assert_eq!(once.filter, twice.filter);
    let second = build_grid(&ds, &twice.filter.0, &twice.filter.1, twice.filter.2.as_str());
    assert_eq!(first, second);
}
