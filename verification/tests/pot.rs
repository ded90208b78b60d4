use clip_engine::pot::filter_matches;
use clip_engine::pot::BuildInput;
use clip_engine::pot::FilterItemId;
use clip_engine::pot::InnerPresetId;
use clip_engine::pot::PotFilterItemKind;
use clip_engine::pot::RfxChain;
use clip_engine::pot::RfxChainDatabase;
use clip_engine::pot::RfxChainError;

fn chain(name: &str, path: &str) -> RfxChain {
    RfxChain { preset_name: name.to_string(), relative_path: path.to_string() }
}

fn database() -> RfxChainDatabase {
    let mut db = RfxChainDatabase::open("/chains".to_string(), true).unwrap();
    db.refresh(vec![
        chain("Warm Bass", "bass/Warm Bass.RfxChain"),
        chain("Bright Lead", "Bright Lead.RfxChain"),
        chain("bass drum", "drums/bass drum.RfxChain"),
        chain("Pad", "Pad.RfxChain"),
    ]);
    db
}

fn search(db: &RfxChainDatabase, expression: &str, use_wildcard_search: bool) -> Vec<(u32, String)> {
    let input = BuildInput {
        filter_settings: vec![],
        search_expression: expression.to_string(),
        use_wildcard_search,
    };
    db.build_collections(&input).into_iter().map(|p| (p.inner_preset_id.0, p.preset_name)).collect()
}

#[test]
fn open_needs_an_existing_directory() {
    let missing = RfxChainDatabase::open("/nowhere".to_string(), false);
    assert!(matches!(missing, Err(RfxChainError::DirectoryMissing)));
    assert_eq!(RfxChainError::DirectoryMissing.description(), "path to FX chains directory doesn't exist");
    let db = RfxChainDatabase::open("/chains".to_string(), true).unwrap();
    assert_eq!(db.len(), 0);
    assert_eq!(db.filter_item_name(), "FX chains");
    assert!(db.find_preset_by_id(InnerPresetId(0)).is_none());
}

#[test]
fn empty_search_finds_all_presets_in_id_order() {
    let db = database();
    assert_eq!(db.len(), 4);
    assert_eq!(
        search(&db, "", false),
        vec![
            (0, "Warm Bass".to_string()),
            (1, "Bright Lead".to_string()),
            (2, "bass drum".to_string()),
            (3, "Pad".to_string()),
        ]
    );
    assert_eq!(search(&db, "   ", true).len(), 4);
}

#[test]
fn plain_search_is_a_case_insensitive_substring_search() {
    let db = database();
    assert_eq!(search(&db, "BASS", false), vec![(0, "Warm Bass".to_string()), (2, "bass drum".to_string())]);
    assert_eq!(search(&db, "  lead ", false), vec![(1, "Bright Lead".to_string())]);
    assert_eq!(search(&db, "b*s", false), vec![]);
    assert_eq!(search(&db, "xyz", false), vec![]);
}

#[test]
fn wildcard_search_matches_the_whole_name() {
    let db = database();
    assert_eq!(search(&db, "bass", true), vec![]);
    assert_eq!(search(&db, "*bass", true), vec![(0, "Warm Bass".to_string())]);
    assert_eq!(search(&db, "BASS*", true), vec![(2, "bass drum".to_string())]);
    assert_eq!(search(&db, "*bass*", true), vec![(0, "Warm Bass".to_string()), (2, "bass drum".to_string())]);
    assert_eq!(search(&db, "p?d", true), vec![(3, "Pad".to_string())]);
    assert_eq!(search(&db, "p?", true), vec![]);
    assert_eq!(search(&db, "*", true).len(), 4);
}

#[test]
fn filters_that_exclude_fx_chains_yield_nothing() {
    let db = database();
    let excluded = [
        (PotFilterItemKind::NksContentType, Some(FilterItemId(Some(2)))),
        (PotFilterItemKind::NksFavorite, Some(FilterItemId(Some(1)))),
        (PotFilterItemKind::NksBank, Some(FilterItemId(Some(5)))),
        (PotFilterItemKind::NksMode, Some(FilterItemId(Some(0)))),
    ];
    for setting in excluded {
        assert!(!filter_matches(setting.0, setting.1));
        let input = BuildInput {
            filter_settings: vec![(PotFilterItemKind::Database, Some(FilterItemId(Some(9)))), setting],
            search_expression: String::new(),
            use_wildcard_search: false,
        };
        assert!(db.build_collections(&input).is_empty());
    }
    let admitted = vec![
        (PotFilterItemKind::NksContentType, Some(FilterItemId(Some(1)))),
        (PotFilterItemKind::NksContentType, None),
        (PotFilterItemKind::NksFavorite, Some(FilterItemId(Some(2)))),
        (PotFilterItemKind::NksFavorite, Some(FilterItemId(None))),
        (PotFilterItemKind::NksProductType, None),
        (PotFilterItemKind::NksSubBank, Some(FilterItemId(None))),
        (PotFilterItemKind::NksCategory, None),
        (PotFilterItemKind::NksSubCategory, None),
        (PotFilterItemKind::Database, Some(FilterItemId(Some(3)))),
    ];
    for setting in &admitted {
        assert!(filter_matches(setting.0, setting.1));
    }
    let input = BuildInput { filter_settings: admitted, search_expression: "pad".to_string(), use_wildcard_search: false };
    assert_eq!(db.build_collections(&input).len(), 1);
}

#[test]
fn find_preset_by_id_hands_out_paths() {
    let db = database();
    let preset = db.find_preset_by_id(InnerPresetId(2)).unwrap();
    assert_eq!(preset.name, "bass drum");
    assert_eq!(preset.favorite_id, "drums/bass drum.RfxChain");
    assert_eq!(preset.file_name, "drums/bass drum.RfxChain");
    assert_eq!(preset.file_ext, "RfxChain");
    assert!(db.find_preset_by_id(InnerPresetId(4)).is_none());
}

fn reference_match(pattern: &[char], text: &[char]) -> bool {
    if pattern.is_empty() {
        text.is_empty()
    } else if pattern[0] == '*' {
        reference_match(&pattern[1..], text) || (!text.is_empty() && reference_match(pattern, &text[1..]))
    } else if text.is_empty() {
        false
    } else {
        (pattern[0] == '?' || pattern[0] == text[0]) && reference_match(&pattern[1..], &text[1..])
    }
}

fn all_texts(alphabet: &[char], max_len: usize) -> Vec<String> {
    let mut texts = vec![String::new()];
    let mut last = vec![String::new()];
    for _ in 0..max_len {
        let mut next = Vec::new();
        for text in &last {
            for c in alphabet {
                let mut longer = text.clone();
                longer.push(*c);
                next.push(longer);
            }
        }
        texts.extend(next.iter().cloned());
        last = next;
    }
    texts
}

#[test]
fn wildcard_search_agrees_with_its_definition() {
    let names = all_texts(&['a', 'b', '?'], 4);
    let mut db = RfxChainDatabase::open("/chains".to_string(), true).unwrap();
    db.refresh(names.iter().map(|n| chain(n, n)).collect());
    for pattern in all_texts(&['a', 'b', '*', '?'], 4) {
        if pattern.is_empty() {
            continue;
        }
        let pattern_chars: Vec<char> = pattern.chars().collect();
        let expected: Vec<(u32, String)> = names
            .iter()
            .enumerate()
            .filter(|(_, name)| {
                let name_chars: Vec<char> = name.chars().collect();
                reference_match(&pattern_chars, &name_chars)
            })
            .map(|(i, name)| (i as u32, name.clone()))
            .collect();
        assert_eq!(search(&db, &pattern, true), expected, "pattern {:?}", pattern);
        assert_eq!(
            wildmatch::WildMatch::new(&pattern).matches("ab?"),
            reference_match(&pattern_chars, &['a', 'b', '?'])
        );
    }
}
