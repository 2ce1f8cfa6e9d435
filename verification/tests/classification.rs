use mokareads_core::resources::cheatsheet::{
    get_lang_map, get_lang_vec, sort_cheatsheets, Cheatsheet, Language, Level, Metadata,
};

fn sheet(title: &str, level: u8, lang: &str) -> Cheatsheet {
    let metadata = Metadata::new(title, "Author", level, lang, "devicon");
    Cheatsheet::new(metadata, "content".to_string())
}

#[test]
fn test_level_from_u8_round_trip() {
    assert_eq!(Level::from_u8(1), Some(Level::Beginner));
    assert_eq!(Level::from_u8(2), Some(Level::Intermediate));
    assert_eq!(Level::from_u8(3), Some(Level::Advanced));
}

#[test]
fn test_level_from_u8_out_of_range() {
    assert_eq!(Level::from_u8(0), None);
    assert_eq!(Level::from_u8(4), None);
    assert_eq!(Level::from_u8(255), None);
}

#[test]
fn test_language_parse_is_total() {
    assert_eq!(Language::from_str("kotlin"), Language::Kotlin);
    assert_eq!(Language::from_str("rust"), Language::Rust);
    assert_eq!(Language::from_str("c"), Language::C);
    assert_eq!(Language::from_str("c++"), Language::CPP);
    assert_eq!(Language::from_str("zig"), Language::Zig);
    assert_eq!(Language::from_str("python"), Language::Python);
    assert_eq!(Language::from_str("swift"), Language::Swift);
    assert_eq!(Language::from_str("go"), Language::Go);
    assert_eq!(Language::from_str("other"), Language::Other);
    // Unrecognized and differently-cased strings all normalize to Other.
    assert_eq!(Language::from_str("Rust"), Language::Other);
    assert_eq!(Language::from_str("cobol"), Language::Other);
    assert_eq!(Language::from_str(""), Language::Other);
}

#[test]
fn test_language_canonical_round_trip() {
    let variants = Language::all_variants();
    assert_eq!(variants.len(), 9);
    for lang in variants {
        let name = lang.canonical_name();
        assert_eq!(Language::from_str(&name), lang);
    }
}

#[test]
fn test_language_icon_suggestion() {
    assert_eq!(Language::Rust.icon_suggestion(), "devicon-rust-plain");
    assert_eq!(Language::Other.icon_suggestion(), "devicon-github-original");
}

#[test]
fn test_sort_cheatsheets_is_stable() {
    // Input levels [3, 1, 2, 1]: the two level-1 sheets keep their relative
    // input order after the sort.
    let mut sheets = vec![
        sheet("Hard", 3, "go"),
        sheet("Easy A", 1, "go"),
        sheet("Medium", 2, "go"),
        sheet("Easy B", 1, "go"),
    ];
    sort_cheatsheets(&mut sheets);
    let titles: Vec<String> = sheets.iter().map(|c| c.title()).collect();
    assert_eq!(titles, vec!["Easy A", "Easy B", "Medium", "Hard"]);
}

#[test]
fn test_sort_normalizes_unknown_levels_to_beginner() {
    // A difficulty code outside 1..=3 counts as Beginner for ordering.
    let mut sheets = vec![sheet("Mid", 2, "c"), sheet("Odd", 9, "c")];
    sort_cheatsheets(&mut sheets);
    let titles: Vec<String> = sheets.iter().map(|c| c.title()).collect();
    assert_eq!(titles, vec!["Odd", "Mid"]);
}

#[test]
fn test_get_lang_vec_filters_by_parsed_language() {
    let sheets = vec![
        sheet("R1", 1, "rust"),
        sheet("P1", 1, "python"),
        sheet("R2", 2, "rust"),
        sheet("X1", 1, "cobol"),
    ];
    let rust = get_lang_vec(Language::Rust, &sheets);
    let titles: Vec<String> = rust.iter().map(|c| c.title()).collect();
    assert_eq!(titles, vec!["R1", "R2"]);
    // Unrecognized language strings land in the Other bucket.
    let other = get_lang_vec(Language::Other, &sheets);
    assert_eq!(other.len(), 1);
    assert_eq!(other[0].title(), "X1");
}

#[test]
fn test_get_lang_map_has_every_language_key() {
    // Even over an empty collection every variant has a bucket.
    let map = get_lang_map(&[]);
    assert_eq!(map.len(), 9);
    let variants = Language::all_variants();
    for (i, (lang, bucket)) in map.iter().enumerate() {
        assert_eq!(*lang, variants[i]);
        assert!(bucket.is_empty());
    }
}

#[test]
fn test_get_lang_map_buckets_sorted() {
    let sheets = vec![
        sheet("Z3", 3, "zig"),
        sheet("Z1", 1, "zig"),
        sheet("Z2", 2, "zig"),
    ];
    let map = get_lang_map(&sheets);
    let zig_bucket = &map
        .iter()
        .find(|(lang, _)| *lang == Language::Zig)
        .unwrap()
        .1;
    let titles: Vec<String> = zig_bucket.iter().map(|c| c.title()).collect();
    assert_eq!(titles, vec!["Z1", "Z2", "Z3"]);
}

#[test]
fn test_cheatsheet_find() {
    let sheets = vec![
        sheet("My Sheet", 1, "rust"),
        sheet("My Sheet", 2, "python"),
    ];
    let hit = Cheatsheet::find(&sheets, "My_Sheet".to_string(), "python".to_string());
    assert_eq!(hit, sheets[1]);
    let miss = Cheatsheet::find(&sheets, "My_Sheet".to_string(), "go".to_string());
    assert_eq!(miss, Cheatsheet::default());
}

#[test]
fn test_cheatsheet_accessors() {
    let c = sheet("My Sheet", 1, "rust");
    assert_eq!(c.title(), "My Sheet");
    assert_eq!(c.lang(), "rust");
    assert_eq!(c.slug, "My_Sheet");
    assert_eq!(c.link_short(), "/cheatsheets/My_Sheet");
}
