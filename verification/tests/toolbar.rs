use clip_engine::text::decimal;
use clip_engine::text::parse_u32;
use clip_engine::text::split_text_once;
use clip_engine::toolbar::next_toolbar_item_index;
use clip_engine::toolbar::plan_playtime_toolbar_button;
use clip_engine::toolbar::ToolbarItem;
use clip_engine::toolbar::ACTION_LABEL_SHOW_HIDE_PLAYTIME;
use clip_engine::toolbar::COMMAND_ID_SHOW_HIDE_PLAYTIME;

#[test]
fn parse_u32_like_std() {
    for text in [
        "", "0", "7", "007", "+5", "+", "-5", "++5", "5+", " 5", "5 ", "4294967295", "4294967296",
        "99999999999999999999999", "12a", "a12", "١٢", "+0", "00000000000000000000000001",
    ] {
        assert_eq!(parse_u32(text), text.parse::<u32>().ok(), "{:?}", text);
    }
    assert_eq!(parse_u32("42"), Some(42));
    assert_eq!(parse_u32("4294967295"), Some(u32::MAX));
    assert_eq!(parse_u32("4294967296"), None);
}

#[test]
fn toolbar_item_is_read_from_property() {
    assert_eq!(
        ToolbarItem::parse_from_ini_prop("item_3", "_HB_SHOW_HIDE_PLAYTIME Show/hide Playtime"),
        Some(ToolbarItem {
            index: 3,
            command: "_HB_SHOW_HIDE_PLAYTIME".to_string(),
            desc: "Show/hide Playtime".to_string(),
        })
    );
    assert_eq!(
        ToolbarItem::parse_from_ini_prop("item_0", "40001 "),
        Some(ToolbarItem { index: 0, command: "40001".to_string(), desc: "".to_string() })
    );
    assert_eq!(
        ToolbarItem::parse_from_ini_prop("item_12", " x y"),
        Some(ToolbarItem { index: 12, command: "".to_string(), desc: "x y".to_string() })
    );
}

#[test]
fn other_properties_are_no_toolbar_items() {
    assert_eq!(ToolbarItem::parse_from_ini_prop("title", "Main toolbar"), None);
    assert_eq!(ToolbarItem::parse_from_ini_prop("icon_3", "a b"), None);
    assert_eq!(ToolbarItem::parse_from_ini_prop("item_3", "nospace"), None);
    assert_eq!(ToolbarItem::parse_from_ini_prop("item_x", "a b"), None);
    assert_eq!(ToolbarItem::parse_from_ini_prop("item_", "a b"), None);
    assert_eq!(ToolbarItem::parse_from_ini_prop("item_1_2", "a b"), None);
    assert_eq!(ToolbarItem::parse_from_ini_prop("item3", "a b"), None);
    assert_eq!(ToolbarItem::parse_from_ini_prop("", ""), None);
}

#[test]
fn toolbar_constants() {
    assert_eq!(COMMAND_ID_SHOW_HIDE_PLAYTIME, "HB_SHOW_HIDE_PLAYTIME");
    assert_eq!(ACTION_LABEL_SHOW_HIDE_PLAYTIME, "Show/hide Playtime");
}

#[test]
fn decimal_like_to_string() {
    for number in [0u64, 1, 9, 10, 11, 99, 100, 101, 1000, 65_535, 4_294_967_295, u64::MAX] {
        assert_eq!(decimal(number), number.to_string());
    }
    assert_eq!(decimal(120), "120");
}

#[test]
fn split_once_like_std() {
    for text in ["", "_", "a_b", "a_b_c", "_a", "a_", "abc", "ä_ö"] {
        assert_eq!(split_text_once(text, '_'), text.split_once('_'), "{:?}", text);
    }
    assert_eq!(split_text_once("item_12", '_'), Some(("item", "12")));
}

fn props(entries: &[(&str, &str)]) -> Vec<(String, String)> {
    entries.iter().map(|(k, v)| (k.to_string(), v.to_string())).collect()
}

#[test]
fn next_toolbar_item_follows_the_largest_index() {
    assert_eq!(next_toolbar_item_index(&props(&[])), Some(0));
    assert_eq!(next_toolbar_item_index(&props(&[("title", "Main toolbar")])), Some(0));
    assert_eq!(next_toolbar_item_index(&props(&[("item_0", "40001 New")])), Some(1));
    assert_eq!(
        next_toolbar_item_index(&props(&[
            ("item_3", "40001 New"),
            ("icon_3", "new.png"),
            ("item_7", "40002 Open"),
            ("item_5", "40003 Save"),
            ("item_9", "nospace"),
        ])),
        Some(8)
    );
    assert_eq!(next_toolbar_item_index(&props(&[("item_4294967295", "1 x")])), Some(4_294_967_296));
}

#[test]
fn existing_playtime_button_is_found() {
    let with_button = props(&[
        ("item_0", "40001 New"),
        ("item_1", "_HB_SHOW_HIDE_PLAYTIME Show/hide Playtime"),
        ("item_2", "40002 Open"),
    ]);
    assert_eq!(next_toolbar_item_index(&with_button), None);
    assert_eq!(plan_playtime_toolbar_button(&with_button), None);
    // Any first character stands before the name of the command.
    assert_eq!(next_toolbar_item_index(&props(&[("item_0", "!HB_SHOW_HIDE_PLAYTIME x")])), None);
    // Without a first character, or under another name, it is not the button.
    assert_eq!(next_toolbar_item_index(&props(&[("item_0", "HB_SHOW_HIDE_PLAYTIME x")])), Some(1));
    assert_eq!(next_toolbar_item_index(&props(&[("item_0", " x")])), Some(1));
    assert_eq!(next_toolbar_item_index(&props(&[("other_0", "_HB_SHOW_HIDE_PLAYTIME x")])), Some(0));
}

#[test]
fn playtime_button_is_planned_after_the_last_item() {
    assert_eq!(
        plan_playtime_toolbar_button(&props(&[("item_0", "40001 New"), ("item_11", "40002 Open")])),
        Some(("item_12".to_string(), "_HB_SHOW_HIDE_PLAYTIME Show/hide Playtime".to_string()))
    );
    assert_eq!(
        plan_playtime_toolbar_button(&props(&[])),
        Some(("item_0".to_string(), "_HB_SHOW_HIDE_PLAYTIME Show/hide Playtime".to_string()))
    );
}
