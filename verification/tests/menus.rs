use clip_engine::backbone::ReaperTargetType;
use clip_engine::feedback_buffer::MappingId;
use clip_engine::menus::assign_command_ids;
use clip_engine::menus::grouped_menu_entries;
use clip_engine::menus::menu_containing_mappings;
use clip_engine::menus::reaper_target_type_menu;
use clip_engine::menus::GroupInfo;
use clip_engine::menus::MappingInfo;
use clip_engine::menus::MenuRow;
use clip_engine::menus::TargetSection;
use clip_engine::menus::TargetTypeDef;
use clip_engine::menus::build_compartment_preset_menu_entries;
use clip_engine::menus::menu_containing_compartment_presets;
use clip_engine::menus::CommonPresetInfo;
use clip_engine::menus::CommonPresetMetaData;
use clip_engine::menus::PresetOrigin;
use clip_engine::menus::command_names;
use clip_engine::menus::find_command_id;
use clip_engine::menus::get_bank_name;
use clip_engine::menus::menu_containing_realearn_params;
use clip_engine::menus::menu_containing_realearn_params_optional;
use clip_engine::menus::get_optional_param_name;
use clip_engine::menus::get_param_name;
use clip_engine::menus::item;
use clip_engine::menus::item_with_opts;
use clip_engine::menus::menu;
use clip_engine::menus::menu_containing_banks;
use clip_engine::menus::root_menu;
use clip_engine::menus::virtual_control_element_type_menu;
use clip_engine::menus::CompartmentParams;
use clip_engine::menus::Entry;
use clip_engine::menus::ItemOpts;
use clip_engine::menus::Menu;
use clip_engine::menus::VirtualControlElementType;
use clip_engine::menus::NONE;
use clip_engine::menus::THIS;
use clip_engine::menus::fill_menu;
use clip_engine::menus::Item;
use clip_engine::menus::MenuAction;

fn items_of<R: Clone>(menu: &Menu<R>) -> Vec<(String, bool, bool, R)> {
    menu.entries
        .iter()
        .map(|e| match e {
            Entry::Item(i) => (i.text.clone(), i.opts.enabled, i.opts.checked, i.result.clone()),
            _ => panic!("expected an item"),
        })
        .collect()
}

#[test]
fn menu_builders() {
    let root = root_menu(vec![
        item("A".to_string(), 1),
        menu("Sub".to_string(), vec![item_with_opts("B".to_string(), ItemOpts { enabled: false, checked: true }, 2)]),
    ]);
    assert_eq!(root.id, 0);
    assert_eq!(root.text, "");
    assert_eq!(root.entries.len(), 2);
    match &root.entries[0] {
        Entry::Item(i) => {
            assert_eq!(i.text, "A");
            assert_eq!(i.opts, ItemOpts { enabled: true, checked: false });
            assert_eq!(i.result, 1);
            assert_eq!(i.id, 0);
        }
        _ => panic!("expected an item"),
    }
    match &root.entries[1] {
        Entry::Menu(m) => {
            assert_eq!(m.text, "Sub");
            assert_eq!(items_of(m), vec![("B".to_string(), false, true, 2)]);
        }
        _ => panic!("expected a menu"),
    }
    assert_eq!(NONE, "<None>");
    assert_eq!(THIS, "<This>");
}

#[test]
fn virtual_control_element_type_menu_checks_current() {
    let menu = virtual_control_element_type_menu(VirtualControlElementType::Button);
    assert_eq!(
        items_of(&menu),
        vec![
            ("Multi".to_string(), true, false, VirtualControlElementType::Multi),
            ("Button".to_string(), true, true, VirtualControlElementType::Button),
        ]
    );
    let menu = virtual_control_element_type_menu(VirtualControlElementType::Multi);
    assert_eq!(items_of(&menu)[0], ("Multi".to_string(), true, true, VirtualControlElementType::Multi));
    assert_eq!(VirtualControlElementType::Multi.to_string(), "Multi");
}

#[test]
fn param_names_are_numbered_from_one() {
    let params = CompartmentParams { names: vec!["Volume".to_string(), "".to_string(), "Pan".to_string()] };
    assert_eq!(get_param_name(&params, 0), "1. Volume");
    assert_eq!(get_param_name(&params, 1), "2. ");
    assert_eq!(get_param_name(&params, 2), "3. Pan");
    assert_eq!(get_param_name(&params, 99), "100. ");
    assert_eq!(get_optional_param_name(&params, None), "<None>");
    assert_eq!(get_optional_param_name(&params, Some(2)), "3. Pan");
    assert_eq!(params.get_parameter_name(0), "Volume");
    assert_eq!(params.get_parameter_name(3), "");
}

#[test]
fn bank_name_is_label_or_index() {
    let labels = vec!["Drums".to_string(), "Bass".to_string()];
    assert_eq!(get_bank_name(&labels, 0), "Drums");
    assert_eq!(get_bank_name(&labels, 1), "Bass");
    assert_eq!(get_bank_name(&labels, 2), "2");
    assert_eq!(get_bank_name(&Vec::new(), 4_000_000_000), "4000000000");
}

#[test]
fn bank_menu_for_continuous_parameter_has_hundred_banks() {
    let menu = menu_containing_banks(None, 7);
    let items = items_of(&menu);
    assert_eq!(items.len(), 100);
    for (i, (text, enabled, checked, result)) in items.iter().enumerate() {
        assert_eq!(*text, i.to_string());
        assert!(*enabled);
        assert_eq!(*checked, i == 7);
        assert_eq!(*result, i as u32);
    }
    let none_checked = menu_containing_banks(None, 100);
    assert!(items_of(&none_checked).iter().all(|i| !i.2));
}

#[test]
fn bank_menu_for_discrete_parameter_uses_value_names() {
    let values = vec!["Low".to_string(), "Mid".to_string(), "High".to_string()];
    let menu = menu_containing_banks(Some(&values), 2);
    assert_eq!(
        items_of(&menu),
        vec![
            ("Low".to_string(), true, false, 0),
            ("Mid".to_string(), true, false, 1),
            ("High".to_string(), true, true, 2),
        ]
    );
    let empty = menu_containing_banks(Some(&Vec::new()), 0);
    assert!(empty.entries.is_empty());
}

#[test]
fn bank_menu_is_capped_at_five_hundred_banks() {
    let values: Vec<String> = (0..700).map(|i| format!("v{}", i)).collect();
    let menu = menu_containing_banks(Some(&values), 499);
    let items = items_of(&menu);
    assert_eq!(items.len(), 500);
    assert_eq!(items[499], ("v499".to_string(), true, true, 499));
}

#[test]
fn fill_menu_lists_the_steps_in_order() {
    let tree = root_menu(vec![
        Entry::Item(Item { id: 5, text: "Plain".to_string(), opts: ItemOpts { enabled: true, checked: false }, result: 0 }),
        Entry::Nothing,
        Entry::Separator,
        Entry::Menu(Menu {
            id: 0,
            text: "Sub".to_string(),
            entries: vec![
                Entry::Item(Item { id: 6, text: "Checked".to_string(), opts: ItemOpts { enabled: true, checked: true }, result: 1 }),
                Entry::Menu(Menu { id: 0, text: "Empty".to_string(), entries: vec![] }),
                Entry::Item(Item { id: 7, text: "Off".to_string(), opts: ItemOpts { enabled: false, checked: true }, result: 2 }),
            ],
        }),
        Entry::Item(Item { id: 8, text: "Last".to_string(), opts: ItemOpts { enabled: false, checked: false }, result: 3 }),
    ]);
    let expected = vec![
        MenuAction::AddItem { id: 5, text: "Plain".to_string() },
        MenuAction::AddSeparator,
        MenuAction::OpenMenu { text: "Sub".to_string() },
        MenuAction::AddItem { id: 6, text: "Checked".to_string() },
        MenuAction::CheckItem { id: 6 },
        MenuAction::OpenMenu { text: "Empty".to_string() },
        MenuAction::CloseMenu,
        MenuAction::AddItem { id: 7, text: "Off".to_string() },
        MenuAction::CheckItem { id: 7 },
        MenuAction::DisableItem { id: 7 },
        MenuAction::CloseMenu,
        MenuAction::AddItem { id: 8, text: "Last".to_string() },
        MenuAction::DisableItem { id: 8 },
    ];
    assert_eq!(fill_menu(true, &tree), expected);
    let mut with_separator = vec![MenuAction::AddSeparator];
    with_separator.extend(expected);
    assert_eq!(fill_menu(false, &tree), with_separator);
    let empty: Menu<u8> = root_menu(vec![]);
    assert_eq!(fill_menu(true, &empty), vec![]);
    assert_eq!(fill_menu(false, &empty), vec![MenuAction::AddSeparator]);
}


#[test]
fn params_menu_lists_numbered_parameters() {
    let params = CompartmentParams { names: vec!["Volume".to_string(), "Pan".to_string()] };
    let menu = menu_containing_realearn_params(&params, 3, 1);
    assert_eq!(
        items_of(&menu),
        vec![
            ("1. Volume".to_string(), true, false, 0),
            ("2. Pan".to_string(), true, true, 1),
            ("3. ".to_string(), true, false, 2),
        ]
    );
    assert!(menu_containing_realearn_params(&params, 0, 0).entries.is_empty());
    assert_eq!(menu_containing_realearn_params(&params, 100, 99).entries.len(), 100);
}

#[test]
fn optional_params_menu_starts_with_none() {
    let params = CompartmentParams { names: vec!["Volume".to_string(), "Pan".to_string()] };
    let menu = menu_containing_realearn_params_optional(&params, 2, None);
    assert_eq!(
        items_of(&menu),
        vec![
            ("<None>".to_string(), true, true, None),
            ("1. Volume".to_string(), true, false, Some(0)),
            ("2. Pan".to_string(), true, false, Some(1)),
        ]
    );
    let menu = menu_containing_realearn_params_optional(&params, 2, Some(1));
    assert_eq!(
        items_of(&menu),
        vec![
            ("<None>".to_string(), true, false, None),
            ("1. Volume".to_string(), true, false, Some(0)),
            ("2. Pan".to_string(), true, true, Some(1)),
        ]
    );
    let menu = menu_containing_realearn_params_optional(&params, 2, Some(7));
    assert!(items_of(&menu).iter().all(|i| !i.2));
}

fn command_tree() -> Menu<String> {
    root_menu(vec![
        menu(
            "Helgobox".to_string(),
            vec![
                item("Show".to_string(), "HB_SHOW".to_string()),
                Entry::Separator,
                menu("More".to_string(), vec![item("Hide".to_string(), "HB_HIDE".to_string())]),
                Entry::Nothing,
            ],
        ),
        item("Unknown".to_string(), "HB_UNKNOWN".to_string()),
    ])
}

#[test]
fn command_names_are_collected_in_tree_order() {
    assert_eq!(command_names(&command_tree()), vec!["_HB_SHOW", "_HB_HIDE", "_HB_UNKNOWN"]);
    let empty: Menu<String> = root_menu(vec![]);
    assert!(command_names(&empty).is_empty());
}

#[test]
fn command_ids_are_assigned_to_items() {
    let commands = vec![
        ("_HB_HIDE".to_string(), 41),
        ("_HB_SHOW".to_string(), 40),
        ("_HB_SHOW".to_string(), 99),
        ("HB_UNKNOWN".to_string(), 7),
    ];
    assert_eq!(find_command_id(&commands, &"_HB_SHOW".to_string()), 40);
    assert_eq!(find_command_id(&commands, &"_HB_UNKNOWN".to_string()), 0);
    assert_eq!(find_command_id(&Vec::new(), &"_HB_SHOW".to_string()), 0);
    let mut tree = command_tree();
    match &mut tree.entries[0] {
        Entry::Menu(m) => m.id = 5,
        _ => panic!("expected a menu"),
    }
    assign_command_ids(&mut tree, &commands);
    assert_eq!(tree.id, 0);
    match &tree.entries[0] {
        Entry::Menu(m) => {
            assert_eq!(m.id, 0);
            assert_eq!(m.text, "Helgobox");
            match &m.entries[0] {
                Entry::Item(i) => {
                    assert_eq!(i.id, 40);
                    assert_eq!(i.text, "Show");
                    assert_eq!(i.result, "HB_SHOW");
                }
                _ => panic!("expected an item"),
            }
            assert!(matches!(m.entries[1], Entry::Separator));
            match &m.entries[2] {
                Entry::Menu(more) => match &more.entries[0] {
                    Entry::Item(i) => assert_eq!(i.id, 41),
                    _ => panic!("expected an item"),
                },
                _ => panic!("expected a menu"),
            }
            assert!(matches!(m.entries[3], Entry::Nothing));
        }
        _ => panic!("expected a menu"),
    }
    match &tree.entries[1] {
        Entry::Item(i) => assert_eq!(i.id, 0),
        _ => panic!("expected an item"),
    }
}


fn preset(id: &str, name: &str, origin: PresetOrigin) -> CommonPresetInfo {
    CommonPresetInfo { id: id.to_string(), origin, meta_data: CommonPresetMetaData { name: name.to_string() } }
}

fn menu_of(entry: &Entry<Option<String>>) -> (String, Vec<(String, bool, bool, Option<String>)>) {
    match entry {
        Entry::Menu(m) => {
            assert_eq!(m.id, 0);
            (m.text.clone(), items_of(m))
        }
        _ => panic!("expected a menu"),
    }
}

#[test]
fn preset_menus_are_split_by_origin_and_sorted_by_name() {
    let presets = vec![
        preset("zeta", "Zeta", PresetOrigin::User),
        preset("f/b", "beta", PresetOrigin::Factory),
        preset("Alpha", "Alpha", PresetOrigin::User),
        preset("f/a", "Beta", PresetOrigin::Factory),
        preset("alpha-2", "Alpha", PresetOrigin::User),
        preset("m", "Mid", PresetOrigin::User),
    ];
    let entries = build_compartment_preset_menu_entries(&presets, Some("m"));
    assert_eq!(entries.len(), 2);
    let (text, items) = menu_of(&entries[0]);
    assert_eq!(text, "User presets");
    assert_eq!(
        items,
        vec![
            ("Alpha".to_string(), true, false, Some("Alpha".to_string())),
            ("Alpha (alpha-2)".to_string(), true, false, Some("alpha-2".to_string())),
            ("Mid (m)".to_string(), true, true, Some("m".to_string())),
            ("Zeta (zeta)".to_string(), true, false, Some("zeta".to_string())),
        ]
    );
    let (text, items) = menu_of(&entries[1]);
    assert_eq!(text, "Factory presets");
    assert_eq!(
        items,
        vec![
            ("Beta (f/a)".to_string(), true, false, Some("f/a".to_string())),
            ("beta (f/b)".to_string(), true, false, Some("f/b".to_string())),
        ]
    );
    let empty = build_compartment_preset_menu_entries(&Vec::new(), None);
    assert_eq!(menu_of(&empty[0]), ("User presets".to_string(), vec![]));
    assert_eq!(menu_of(&empty[1]), ("Factory presets".to_string(), vec![]));
}

#[test]
fn preset_names_are_sorted_like_strings() {
    let names = ["b", "a", "", "ab", "B", "a", "ä", "z", "aa", "é", "e", "Z", "日本", "a\u{10000}", "a\u{ffff}", "ab"];
    let presets: Vec<CommonPresetInfo> =
        names.iter().enumerate().map(|(i, n)| preset(&format!("id{}", i), n, PresetOrigin::User)).collect();
    let mut expected: Vec<(String, String)> =
        presets.iter().map(|p| (p.meta_data.name.clone(), p.id.clone())).collect();
    expected.sort_by_key(|p| p.0.clone());
    let entries = build_compartment_preset_menu_entries(&presets, None);
    let (_, items) = menu_of(&entries[0]);
    let ids: Vec<String> = items.iter().map(|i| i.3.clone().unwrap()).collect();
    let expected_ids: Vec<String> = expected.iter().map(|p| p.1.clone()).collect();
    assert_eq!(ids, expected_ids);
}

#[test]
fn compartment_preset_menu_starts_with_none() {
    let presets = vec![preset("a", "A", PresetOrigin::Factory)];
    let menu = menu_containing_compartment_presets(&presets, None);
    assert_eq!(menu.entries.len(), 3);
    match &menu.entries[0] {
        Entry::Item(i) => {
            assert_eq!(i.text, "<None>");
            assert!(i.opts.checked);
            assert!(i.opts.enabled);
            assert_eq!(i.result, None);
        }
        _ => panic!("expected an item"),
    }
    assert_eq!(menu_of(&menu.entries[1]), ("User presets".to_string(), vec![]));
    assert_eq!(
        menu_of(&menu.entries[2]),
        ("Factory presets".to_string(), vec![("A (a)".to_string(), true, false, Some("a".to_string()))])
    );
    let menu = menu_containing_compartment_presets(&presets, Some("a"));
    match &menu.entries[0] {
        Entry::Item(i) => assert!(!i.opts.checked),
        _ => panic!("expected an item"),
    }
    assert_eq!(menu_of(&menu.entries[2]).1[0].2, true);
    assert!(PresetOrigin::User.is_user());
    assert!(!PresetOrigin::Factory.is_user());
}


fn sub_menu<R: Clone>(entry: &Entry<R>) -> (String, Vec<(String, bool, bool, R)>) {
    match entry {
        Entry::Menu(m) => {
            assert_eq!(m.id, 0);
            (m.text.clone(), items_of(m))
        }
        _ => panic!("expected a menu"),
    }
}

#[test]
fn mappings_menu_groups_mappings() {
    let groups = vec![
        GroupInfo { id: 0, effective_name: "<Default>".to_string() },
        GroupInfo { id: 7, effective_name: "Faders".to_string() },
        GroupInfo { id: 9, effective_name: "Empty".to_string() },
    ];
    let mapping = |id: u128, group_id: u128, name: &str| MappingInfo {
        id: MappingId { uuid: id },
        group_id,
        effective_name: name.to_string(),
    };
    let mappings = vec![
        mapping(1, 7, "Volume"),
        mapping(2, 0, "Play"),
        mapping(3, 7, "Pan"),
        mapping(4, 5, "Orphan"),
        mapping(5, 0, "Stop"),
    ];
    let some = |id: u128| Some(MappingId { uuid: id });
    let menu = menu_containing_mappings(&groups, &mappings, some(3));
    assert_eq!(menu.entries.len(), 4);
    match &menu.entries[0] {
        Entry::Item(i) => {
            assert_eq!(i.text, "<None>");
            assert!(!i.opts.checked);
            assert_eq!(i.result, None);
        }
        _ => panic!("expected an item"),
    }
    assert_eq!(
        sub_menu(&menu.entries[1]),
        (
            "<Default>".to_string(),
            vec![("Play".to_string(), true, false, some(2)), ("Stop".to_string(), true, false, some(5))]
        )
    );
    assert_eq!(
        sub_menu(&menu.entries[2]),
        (
            "Faders".to_string(),
            vec![("Volume".to_string(), true, false, some(1)), ("Pan".to_string(), true, true, some(3))]
        )
    );
    assert_eq!(sub_menu(&menu.entries[3]), ("Empty".to_string(), vec![]));
    let none_checked = menu_containing_mappings(&groups, &mappings, None);
    match &none_checked.entries[0] {
        Entry::Item(i) => assert!(i.opts.checked),
        _ => panic!("expected an item"),
    }
    assert!(sub_menu(&none_checked.entries[2]).1.iter().all(|i| !i.2));
}

#[test]
fn target_type_menu_groups_types_by_section() {
    let sections = vec![
        TargetSection { code: 0, name: "Project".to_string() },
        TargetSection { code: 1, name: "Track".to_string() },
    ];
    let def = |code: u32, section: u32, name: &str| TargetTypeDef {
        target_type: ReaperTargetType { code },
        section,
        name: name.to_string(),
    };
    let types = vec![def(10, 1, "Volume"), def(11, 0, "Transport"), def(12, 1, "Pan"), def(13, 2, "Other")];
    let menu = reaper_target_type_menu(&sections, &types, ReaperTargetType { code: 12 });
    assert_eq!(menu.entries.len(), 2);
    assert_eq!(
        sub_menu(&menu.entries[0]),
        ("Project".to_string(), vec![("Transport".to_string(), true, false, ReaperTargetType { code: 11 })])
    );
    assert_eq!(
        sub_menu(&menu.entries[1]),
        (
            "Track".to_string(),
            vec![
                ("Volume".to_string(), true, false, ReaperTargetType { code: 10 }),
                ("Pan".to_string(), true, true, ReaperTargetType { code: 12 }),
            ]
        )
    );
}

#[test]
fn grouped_menu_entries_keep_the_order_of_groups_and_rows() {
    let groups = vec![(2u128, "B".to_string()), (1u128, "A".to_string()), (2u128, "B again".to_string())];
    let row = |group: u128, text: &str, checked: bool, result: u8| MenuRow { group, text: text.to_string(), checked, result };
    let rows = vec![row(1, "x", true, 1), row(2, "y", false, 2), row(1, "z", false, 3)];
    let entries = grouped_menu_entries(&groups, &rows);
    assert_eq!(entries.len(), 3);
    assert_eq!(sub_menu(&entries[0]), ("B".to_string(), vec![("y".to_string(), true, false, 2)]));
    assert_eq!(
        sub_menu(&entries[1]),
        ("A".to_string(), vec![("x".to_string(), true, true, 1), ("z".to_string(), true, false, 3)])
    );
    assert_eq!(sub_menu(&entries[2]), ("B again".to_string(), vec![("y".to_string(), true, false, 2)]));
}
