//! The toolbar button of the extension: reading the items of a toolbar and finding the
//! place of a new one.

use vstd::prelude::*;
use vstd::string::*;
use crate::text::decimal;
use crate::text::decimal_text;
use crate::text::number_of;
use crate::text::parse_u32;
use crate::text::split_once;
use crate::text::split_text_once;

verus! {

/// The name of the command that shows or hides Playtime.
pub const COMMAND_ID_SHOW_HIDE_PLAYTIME: &'static str = "HB_SHOW_HIDE_PLAYTIME";

/// The label of the action that shows or hides Playtime.
pub const ACTION_LABEL_SHOW_HIDE_PLAYTIME: &'static str = "Show/hide Playtime";

/// An item of a toolbar.
#[derive(Clone, Debug, PartialEq, Eq)]
pub struct ToolbarItem {
    pub index: u32,
    pub command: String,
    pub desc: String,
}

/// What a property of the toolbar section says of an item.
pub struct ToolbarItemView {
    pub index: u32,
    pub command: Seq<char>,
    pub desc: Seq<char>,
}

/// The item that a property stands for, if it is one: the key is `item_` and the index,
/// the value the command, a space and the description.
pub open spec fn toolbar_item_of(key: Seq<char>, value: Seq<char>) -> Option<ToolbarItemView> {
    match (split_once(key, '_'), split_once(value, ' ')) {
        (Some(k), Some(v)) => if k.0 == "item"@ {
            match number_of(k.1) {
                Some(index) => Some(ToolbarItemView { index, command: v.0, desc: v.1 }),
                None => None,
            }
        } else {
            None
        },
        _ => None,
    }
}

impl ToolbarItem {
    /// Reads a property of the toolbar section.
    pub fn parse_from_ini_prop(key: &str, value: &str) -> (item: Option<ToolbarItem>)
        ensures
            item.is_some() == toolbar_item_of(key@, value@).is_some(),
            item matches Some(i) ==> Some(
                ToolbarItemView { index: i.index, command: i.command@, desc: i.desc@ },
            ) == toolbar_item_of(key@, value@),
    {
        let (name, i) = match split_text_once(key, '_') {
            Some(parts) => parts,
            None => { return None; },
        };
        let item_text = String::from_str("item");
        if !(String::from_str(name) == item_text) {
            return None;
        }
        let (command, desc) = match split_text_once(value, ' ') {
            Some(parts) => parts,
            None => { return None; },
        };
        match parse_u32(i) {
            Some(index) => Some(
                ToolbarItem {
                    index,
                    command: String::from_str(command),
                    desc: String::from_str(desc),
                },
            ),
            None => None,
        }
    }
}

/// The command is that of the button that shows or hides Playtime: the name of the command
/// after one leading character.
pub open spec fn is_playtime_command(command: Seq<char>) -> bool {
    command.len() >= 1 && command.skip(1) == COMMAND_ID_SHOW_HIDE_PLAYTIME@
}

/// The item that the property at `i` stands for, if it is one.
pub open spec fn item_at(props: Seq<(String, String)>, i: int) -> Option<ToolbarItemView> {
    toolbar_item_of(props[i].0@, props[i].1@)
}

/// The property at `i` is the button that shows or hides Playtime.
pub open spec fn is_button_at(props: Seq<(String, String)>, i: int) -> bool {
    match item_at(props, i) {
        Some(item) => is_playtime_command(item.command),
        None => false,
    }
}

/// One of the first `count` properties is the button that shows or hides Playtime.
pub open spec fn button_among(props: Seq<(String, String)>, count: int) -> bool {
    exists|i: int| 0 <= i < count && #[trigger] is_button_at(props, i)
}

/// The index after the largest index of the items among the first `count` properties, or 0
/// if there is no item among them.
pub open spec fn next_index(props: Seq<(String, String)>, count: int) -> int
    decreases count,
{
    if count <= 0 {
        0
    } else {
        let rest = next_index(props, count - 1);
        match item_at(props, count - 1) {
            Some(item) => if item.index + 1 > rest {
                item.index + 1
            } else {
                rest
            },
            None => rest,
        }
    }
}

fn is_playtime_button(item: &ToolbarItem) -> (is_button: bool)
    ensures
        is_button == is_playtime_command(item.command@),
{
    let length = item.command.as_str().unicode_len();
    if length < 1 {
        return false;
    }
    let name = String::from_str(item.command.as_str().substring_char(1, length));
    let expected = String::from_str(COMMAND_ID_SHOW_HIDE_PLAYTIME);
    proof {
        assert(item.command@.skip(1) =~= item.command@.subrange(1, length as int));
    }
    name == expected
}

/// Returns the index that a new button gets in a toolbar with the given properties: the
/// index after the largest one. Returns `None` if the toolbar has the button that shows
/// or hides Playtime already.
pub fn next_toolbar_item_index(props: &Vec<(String, String)>) -> (next: Option<u64>)
    ensures
        next.is_none() <==> button_among(props@, props@.len() as int),
        next matches Some(index) ==> index == next_index(props@, props@.len() as int),
{
    let mut next: u64 = 0;
    let mut i: usize = 0;
    while i < props.len()
        invariant
            i <= props@.len(),
            !button_among(props@, i as int),
            next == next_index(props@, i as int),
            next <= u32::MAX + 1,
        decreases props@.len() - i,
    {
        match ToolbarItem::parse_from_ini_prop(props[i].0.as_str(), props[i].1.as_str()) {
            Some(item) => {
                if is_playtime_button(&item) {
                    proof {
                        assert(is_button_at(props@, i as int));
                    }
                    return None;
                }
                if (item.index as u64) + 1 > next {
                    next = (item.index as u64) + 1;
                }
            },
            None => {},
        }
        proof {
            assert(!is_button_at(props@, i as int));
            assert forall|k: int| 0 <= k < i + 1 implies !#[trigger] is_button_at(props@, k) by {
                if k < i {
                    assert(!button_among(props@, i as int));
                }
            }
        }
        i = i + 1;
    }
    Some(next)
}

/// The property that adds the button that shows or hides Playtime at `index`.
pub open spec fn button_key(index: u64) -> Seq<char> {
    "item_"@ + decimal_text(index as nat)
}

/// The value of the property of the button that shows or hides Playtime.
pub open spec fn button_value() -> Seq<char> {
    "_"@ + COMMAND_ID_SHOW_HIDE_PLAYTIME@ + " "@ + ACTION_LABEL_SHOW_HIDE_PLAYTIME@
}

/// Returns the property that adds the button that shows or hides Playtime to a toolbar with
/// the given properties, as key and value, or `None` if the toolbar has the button
/// already.
pub fn plan_playtime_toolbar_button(props: &Vec<(String, String)>) -> (prop: Option<
    (String, String),
>)
    ensures
        prop.is_none() <==> button_among(props@, props@.len() as int),
        prop matches Some(p) ==> p.0@ == button_key(
            next_index(props@, props@.len() as int) as u64,
        ) && p.1@ == button_value(),
{
    match next_toolbar_item_index(props) {
        None => None,
        Some(index) => {
            let key = String::from_str("item_").concat(decimal(index).as_str());
            let value = String::from_str("_").concat(COMMAND_ID_SHOW_HIDE_PLAYTIME).concat(
                " ",
            ).concat(ACTION_LABEL_SHOW_HIDE_PLAYTIME);
            Some((key, value))
        },
    }
}

} // verus!
