//! Menu trees and the menus that are built from the state of a session.

use vstd::prelude::*;
use vstd::string::*;
use crate::backbone::ReaperTargetType;
use crate::feedback_buffer::MappingId;
use crate::text::decimal;
use crate::text::decimal_text;

verus! {

/// The text of the entry that stands for no choice.
pub const NONE: &'static str = "<None>";

/// The text of the entry that stands for the session itself.
pub const THIS: &'static str = "<This>";

/// The largest number of banks that a menu offers for a parameter with discrete values.
pub const MAX_BANK_COUNT: usize = 500;

/// The number of banks that a menu offers for a continuous parameter.
pub const DEFAULT_BANK_COUNT: u32 = 100;

/// How an item is shown.
#[derive(Copy, Clone, Debug, PartialEq, Eq, Structural)]
pub struct ItemOpts {
    pub enabled: bool,
    pub checked: bool,
}

/// An entry that can be chosen. Choosing it yields `result`.
#[derive(Debug)]
pub struct Item<R> {
    pub id: u32,
    pub text: String,
    pub opts: ItemOpts,
    pub result: R,
}

/// A menu: a list of entries under a text.
#[derive(Debug)]
pub struct Menu<R> {
    pub id: u32,
    pub text: String,
    pub entries: Vec<Entry<R>>,
}

/// An entry of a menu.
#[derive(Debug)]
pub enum Entry<R> {
    Menu(Menu<R>),
    Item(Item<R>),
    Separator,
    Nothing,
}

/// Returns a menu without text that holds the given entries.
pub fn root_menu<R>(entries: Vec<Entry<R>>) -> (menu: Menu<R>)
    ensures
        menu.id == 0,
        menu.text@ == Seq::<char>::empty(),
        menu.entries == entries,
{
    Menu { id: 0, text: String::new(), entries }
}

/// Returns a menu as an entry of another menu.
pub fn menu<R>(text: String, entries: Vec<Entry<R>>) -> (entry: Entry<R>)
    ensures
        entry == Entry::Menu(Menu { id: 0, text, entries }),
{
    Entry::Menu(Menu { id: 0, text, entries })
}

/// Returns an item that is enabled and not checked.
pub fn item<R>(text: String, result: R) -> (entry: Entry<R>)
    ensures
        entry == Entry::Item(
            Item { id: 0, text, opts: ItemOpts { enabled: true, checked: false }, result },
        ),
{
    item_with_opts(text, ItemOpts { enabled: true, checked: false }, result)
}

/// Returns an item.
pub fn item_with_opts<R>(text: String, opts: ItemOpts, result: R) -> (entry: Entry<R>)
    ensures
        entry == Entry::Item(Item { id: 0, text, opts, result }),
{
    Entry::Item(Item { id: 0, text, opts, result })
}

/// The kinds of control elements of a virtual controller.
#[derive(Copy, Clone, Debug, PartialEq, Eq, Structural)]
pub enum VirtualControlElementType {
    Multi,
    Button,
}

impl VirtualControlElementType {
    /// The name of the kind.
    pub open spec fn name(self) -> Seq<char> {
        match self {
            VirtualControlElementType::Multi => "Multi"@,
            VirtualControlElementType::Button => "Button"@,
        }
    }

    /// Returns the name of the kind.
    pub fn to_string(&self) -> (text: String)
        ensures
            text@ == self.name(),
    {
        match self {
            VirtualControlElementType::Multi => String::from_str("Multi"),
            VirtualControlElementType::Button => String::from_str("Button"),
        }
    }
}

/// The entry of `element_type` in a menu in which `current_value` is checked.
pub open spec fn is_element_type_item(
    entry: Entry<VirtualControlElementType>,
    element_type: VirtualControlElementType,
    current_value: VirtualControlElementType,
) -> bool {
    entry matches Entry::Item(item) && item.id == 0 && item.text@ == element_type.name()
        && item.opts.enabled && item.opts.checked == (element_type == current_value)
        && item.result == element_type
}

/// Returns the menu of the kinds of virtual control elements, in which the current one is
/// checked.
pub fn virtual_control_element_type_menu(current_value: VirtualControlElementType) -> (menu: Menu<
    VirtualControlElementType,
>)
    ensures
        menu.id == 0,
        menu.text@ == Seq::<char>::empty(),
        menu.entries@.len() == 2,
        is_element_type_item(menu.entries@[0], VirtualControlElementType::Multi, current_value),
        is_element_type_item(menu.entries@[1], VirtualControlElementType::Button, current_value),
{
    let mut entries: Vec<Entry<VirtualControlElementType>> = Vec::new();
    entries.push(
        item_with_opts(
            VirtualControlElementType::Multi.to_string(),
            ItemOpts {
                enabled: true,
                checked: matches!(current_value, VirtualControlElementType::Multi),
            },
            VirtualControlElementType::Multi,
        ),
    );
    entries.push(
        item_with_opts(
            VirtualControlElementType::Button.to_string(),
            ItemOpts {
                enabled: true,
                checked: matches!(current_value, VirtualControlElementType::Button),
            },
            VirtualControlElementType::Button,
        ),
    );
    root_menu(entries)
}

/// The names of the parameters of a compartment, by index.
#[derive(Debug)]
pub struct CompartmentParams {
    pub names: Vec<String>,
}

impl CompartmentParams {
    /// The name of the parameter at `index`: the name that was given to it, or no text for
    /// a parameter without name.
    pub open spec fn parameter_name(&self, index: u32) -> Seq<char> {
        if index < self.names@.len() {
            self.names@[index as int]@
        } else {
            Seq::<char>::empty()
        }
    }

    /// Returns the name of the parameter at `index`.
    pub fn get_parameter_name(&self, index: u32) -> (name: String)
        ensures
            name@ == self.parameter_name(index),
    {
        if (index as usize) < self.names.len() {
            self.names[index as usize].clone()
        } else {
            String::new()
        }
    }
}

/// The name of a parameter in a menu: its number, counted from 1, a full stop, a space and
/// its name.
pub open spec fn param_label(index: u32, name: Seq<char>) -> Seq<char> {
    decimal_text((index + 1) as nat) + ". "@ + name
}

/// Returns the name of the parameter at `index` as it is shown in a menu.
pub fn get_param_name(params: &CompartmentParams, index: u32) -> (label: String)
    ensures
        label@ == param_label(index, params.parameter_name(index)),
{
    let param_name = params.get_parameter_name(index);
    decimal((index as u64) + 1).concat(". ").concat(param_name.as_str())
}

/// Returns the name of the parameter at `index` as it is shown in a menu, or the text that
/// stands for no choice.
pub fn get_optional_param_name(params: &CompartmentParams, index: Option<u32>) -> (label: String)
    ensures
        index.is_none() ==> label@ == NONE@,
        index matches Some(i) ==> label@ == param_label(i, params.parameter_name(i)),
{
    match index {
        None => String::from_str(NONE),
        Some(i) => get_param_name(params, i),
    }
}

/// The entry of the parameter `index` in a menu in which the parameter `current_value` is
/// checked.
pub open spec fn is_param_item(
    entry: Entry<u32>,
    params: &CompartmentParams,
    index: int,
    current_value: u32,
) -> bool {
    entry matches Entry::Item(item) && item.id == 0 && item.text@ == param_label(
        index as u32,
        params.parameter_name(index as u32),
    ) && item.opts.enabled && item.opts.checked == (index == current_value) && item.result
        == index
}

/// The entry of the parameter `index` in a menu in which a parameter or none is checked.
pub open spec fn is_optional_param_item(
    entry: Entry<Option<u32>>,
    params: &CompartmentParams,
    index: int,
    current_value: Option<u32>,
) -> bool {
    entry matches Entry::Item(item) && item.id == 0 && item.text@ == param_label(
        index as u32,
        params.parameter_name(index as u32),
    ) && item.opts.enabled && item.opts.checked == (current_value == Some(index as u32))
        && item.result == Some(index as u32)
}

/// The entry that stands for no choice in a menu in which a parameter or none is checked.
pub open spec fn is_none_item(entry: Entry<Option<u32>>, current_value: Option<u32>) -> bool {
    entry matches Entry::Item(item) && item.id == 0 && item.text@ == NONE@ && item.opts.enabled
        && item.opts.checked == current_value.is_none() && item.result.is_none()
}

/// Returns the menu of the first `param_count` parameters of a compartment, in which the
/// current one is checked.
pub fn menu_containing_realearn_params(
    params: &CompartmentParams,
    param_count: u32,
    current_value: u32,
) -> (menu: Menu<u32>)
    ensures
        menu.id == 0,
        menu.text@ == Seq::<char>::empty(),
        menu.entries@.len() == param_count,
        forall|i: int|
            0 <= i < param_count ==> is_param_item(
                #[trigger] menu.entries@[i],
                params,
                i,
                current_value,
            ),
{
    let mut entries: Vec<Entry<u32>> = Vec::new();
    let mut i: u32 = 0;
    while i < param_count
        invariant
            i <= param_count,
            entries@.len() == i,
            forall|k: int|
                0 <= k < i ==> is_param_item(#[trigger] entries@[k], params, k, current_value),
        decreases param_count - i,
    {
        let param_name = get_param_name(params, i);
        entries.push(
            item_with_opts(param_name, ItemOpts { enabled: true, checked: i == current_value }, i),
        );
        i = i + 1;
    }
    root_menu(entries)
}

/// Returns the menu of the first `param_count` parameters of a compartment after an entry
/// that stands for no choice. The current choice is checked.
pub fn menu_containing_realearn_params_optional(
    params: &CompartmentParams,
    param_count: u32,
    current_value: Option<u32>,
) -> (menu: Menu<Option<u32>>)
    ensures
        menu.id == 0,
        menu.text@ == Seq::<char>::empty(),
        menu.entries@.len() == param_count + 1,
        is_none_item(menu.entries@[0], current_value),
        forall|i: int|
            0 <= i < param_count ==> is_optional_param_item(
                #[trigger] menu.entries@[i + 1],
                params,
                i,
                current_value,
            ),
{
    let mut entries: Vec<Entry<Option<u32>>> = Vec::new();
    entries.push(
        item_with_opts(
            String::from_str(NONE),
            ItemOpts { enabled: true, checked: current_value.is_none() },
            None,
        ),
    );
    let mut i: u32 = 0;
    while i < param_count
        invariant
            i <= param_count,
            entries@.len() == i + 1,
            is_none_item(entries@[0], current_value),
            forall|k: int|
                0 <= k < i ==> is_optional_param_item(
                    #[trigger] entries@[k + 1],
                    params,
                    k,
                    current_value,
                ),
        decreases param_count - i,
    {
        let param_name = get_param_name(params, i);
        let checked = match current_value {
            Some(current) => current == i,
            None => false,
        };
        entries.push(item_with_opts(param_name, ItemOpts { enabled: true, checked }, Some(i)));
        proof {
            assert forall|k: int| 0 <= k < i + 1 implies is_optional_param_item(
                #[trigger] entries@[k + 1],
                params,
                k,
                current_value,
            ) by {}
        }
        i = i + 1;
    }
    root_menu(entries)
}

/// Returns the name of a bank: the label that belongs to its index, or the index itself.
pub fn get_bank_name(labels: &Vec<String>, bank_index: u32) -> (name: String)
    ensures
        bank_index < labels@.len() ==> name@ == labels@[bank_index as int]@,
        bank_index >= labels@.len() ==> name@ == decimal_text(bank_index as nat),
{
    if (bank_index as usize) < labels.len() {
        labels[bank_index as usize].clone()
    } else {
        decimal(bank_index as u64)
    }
}

/// The entry of the bank `bank_index` in a menu in which the bank `current_bank_index` is
/// checked.
pub open spec fn is_bank_item(entry: Entry<u32>, bank_index: int, current_bank_index: u32) -> bool {
    entry matches Entry::Item(item) && item.id == 0 && item.opts.enabled && item.opts.checked == (
    bank_index == current_bank_index) && item.result == bank_index
}

/// The text of the entry, if it is an item.
pub open spec fn item_text<R>(entry: Entry<R>) -> String {
    match entry {
        Entry::Item(item) => item.text,
        _ => arbitrary(),
    }
}

fn bank_item(text: String, bank_index: u32, current_bank_index: u32) -> (entry: Entry<u32>)
    ensures
        is_bank_item(entry, bank_index as int, current_bank_index),
        item_text(entry) == text,
{
    item_with_opts(
        text,
        ItemOpts { enabled: true, checked: bank_index == current_bank_index },
        bank_index,
    )
}

/// Returns the menu of the banks of a parameter, in which the current bank is checked.
///
/// A parameter with discrete values has one bank for each of its first 500 values, named
/// by the value. A continuous parameter has 100 banks, named by their index.
pub fn menu_containing_banks(discrete_values: Option<&Vec<String>>, current_value: u32) -> (menu:
    Menu<u32>)
    ensures
        menu.id == 0,
        menu.text@ == Seq::<char>::empty(),
        discrete_values matches Some(values) ==> menu.entries@.len() == (if values@.len()
            <= MAX_BANK_COUNT {
            values@.len()
        } else {
            MAX_BANK_COUNT as nat
        }) && forall|i: int|
            0 <= i < menu.entries@.len() ==> is_bank_item(
                #[trigger] menu.entries@[i],
                i,
                current_value,
            ) && item_text(menu.entries@[i])@ == values@[i]@,
        discrete_values.is_none() ==> menu.entries@.len() == DEFAULT_BANK_COUNT && forall|i: int|
            0 <= i < menu.entries@.len() ==> is_bank_item(
                #[trigger] menu.entries@[i],
                i,
                current_value,
            ) && item_text(menu.entries@[i])@ == decimal_text(i as nat),
{
    let mut entries: Vec<Entry<u32>> = Vec::new();
    match discrete_values {
        Some(values) => {
            let count: usize = if values.len() <= MAX_BANK_COUNT {
                values.len()
            } else {
                MAX_BANK_COUNT
            };
            let mut i: usize = 0;
            while i < count
                invariant
                    i <= count,
                    count <= MAX_BANK_COUNT,
                    count <= values@.len(),
                    entries@.len() == i,
                    forall|k: int|
                        0 <= k < i ==> is_bank_item(#[trigger] entries@[k], k, current_value)
                            && item_text(entries@[k])@ == values@[k]@,
                decreases count - i,
            {
                entries.push(bank_item(values[i].clone(), i as u32, current_value));
                i = i + 1;
            }
        },
        None => {
            let mut i: u32 = 0;
            while i < DEFAULT_BANK_COUNT
                invariant
                    i <= DEFAULT_BANK_COUNT,
                    entries@.len() == i,
                    forall|k: int|
                        0 <= k < i ==> is_bank_item(#[trigger] entries@[k], k, current_value)
                            && item_text(entries@[k])@ == decimal_text(k as nat),
                decreases DEFAULT_BANK_COUNT - i,
            {
                entries.push(bank_item(decimal(i as u64), i, current_value));
                i = i + 1;
            }
        },
    }
    root_menu(entries)
}

/// One step of building a menu of the window system.
#[derive(Clone, Debug, PartialEq, Eq)]
pub enum MenuAction {
    /// A separator is added to the menu that is being built.
    AddSeparator,
    /// A menu with this text is added, and is the menu that is being built from now on.
    OpenMenu { text: String },
    /// The menu that is being built is complete: the one that holds it is built further.
    CloseMenu,
    /// An item is added to the menu that is being built.
    AddItem { id: u32, text: String },
    /// The item with this id is checked.
    CheckItem { id: u32 },
    /// The item with this id is disabled.
    DisableItem { id: u32 },
}

/// The steps that add an item: the item itself, then its check mark if it is checked, then
/// its disabling if it is not enabled.
pub open spec fn item_actions<R>(item: Item<R>) -> Seq<MenuAction> {
    seq![MenuAction::AddItem { id: item.id, text: item.text }] + (if item.opts.checked {
        seq![MenuAction::CheckItem { id: item.id }]
    } else {
        Seq::empty()
    }) + (if !item.opts.enabled {
        seq![MenuAction::DisableItem { id: item.id }]
    } else {
        Seq::empty()
    })
}

/// The steps that add an entry. A menu is opened, filled with its entries and closed.
pub open spec fn entry_actions<R>(entry: Entry<R>) -> Seq<MenuAction>
    decreases entry, 0nat,
{
    match entry {
        Entry::Menu(m) => seq![MenuAction::OpenMenu { text: m.text }] + entries_actions(
            m.entries,
            m.entries@.len(),
        ) + seq![MenuAction::CloseMenu],
        Entry::Item(i) => item_actions(i),
        Entry::Separator => seq![MenuAction::AddSeparator],
        Entry::Nothing => Seq::empty(),
    }
}

/// The steps that add the first `count` of the entries, in order.
pub open spec fn entries_actions<R>(entries: Vec<Entry<R>>, count: nat) -> Seq<MenuAction>
    decreases entries, count,
{
    if count == 0 || count > entries@.len() {
        Seq::empty()
    } else {
        entries_actions(entries, (count - 1) as nat) + entry_actions(entries[count - 1])
    }
}

/// The steps that add a menu tree to a menu of the window system: a separator first if
/// that menu is not empty, then the entries of the tree.
pub open spec fn menu_actions<R>(menu_is_empty: bool, menu: Menu<R>) -> Seq<MenuAction> {
    (if menu_is_empty {
        Seq::<MenuAction>::empty()
    } else {
        seq![MenuAction::AddSeparator]
    }) + entries_actions(menu.entries, menu.entries@.len())
}

/// Returns the steps that add the entries of `menu` to a menu of the window system, which
/// is empty or not as `menu_is_empty` says.
pub fn fill_menu<R>(menu_is_empty: bool, menu: &Menu<R>) -> (actions: Vec<MenuAction>)
    ensures
        actions@ == menu_actions(menu_is_empty, *menu),
{
    let mut actions: Vec<MenuAction> = Vec::new();
    if !menu_is_empty {
        actions.push(MenuAction::AddSeparator);
    }
    let ghost start = actions@;
    let mut i: usize = 0;
    while i < menu.entries.len()
        invariant
            i <= menu.entries@.len(),
            actions@ == start + entries_actions(menu.entries, i as nat),
        decreases menu.entries@.len() - i,
    {
        let ghost before = actions@;
        fill_menu_recursive(&mut actions, &menu.entries[i]);
        proof {
            assert(actions@ =~= start + entries_actions(menu.entries, (i + 1) as nat));
        }
        i = i + 1;
    }
    actions
}

fn fill_menu_recursive<R>(actions: &mut Vec<MenuAction>, entry: &Entry<R>)
    ensures
        final(actions)@ == old(actions)@ + entry_actions(*entry),
    decreases *entry,
{
    match entry {
        Entry::Menu(m) => {
            actions.push(MenuAction::OpenMenu { text: m.text.clone() });
            let ghost start = actions@;
            let mut i: usize = 0;
            while i < m.entries.len()
                invariant
                    i <= m.entries@.len(),
                    *entry == Entry::Menu(*m),
                    actions@ == start + entries_actions(m.entries, i as nat),
                decreases m.entries@.len() - i,
            {
                proof {
                    assert(*m == entry->Menu_0);
                    assert(decreases_to!(*entry => entry->Menu_0));
                    assert(decreases_to!(entry->Menu_0 => (entry->Menu_0).entries));
                    assert(decreases_to!(m.entries => m.entries[i as int]));
                }
                fill_menu_recursive(actions, &m.entries[i]);
                proof {
                    assert(actions@ =~= start + entries_actions(m.entries, (i + 1) as nat));
                }
                i = i + 1;
            }
            actions.push(MenuAction::CloseMenu);
            proof {
                assert(actions@ =~= old(actions)@ + entry_actions(*entry));
            }
        },
        Entry::Item(i) => {
            actions.push(MenuAction::AddItem { id: i.id, text: i.text.clone() });
            if i.opts.checked {
                actions.push(MenuAction::CheckItem { id: i.id });
            }
            if !i.opts.enabled {
                actions.push(MenuAction::DisableItem { id: i.id });
            }
            proof {
                assert(actions@ =~= old(actions)@ + entry_actions(*entry));
            }
        },
        Entry::Separator => {
            actions.push(MenuAction::AddSeparator);
            proof {
                assert(actions@ =~= old(actions)@ + entry_actions(*entry));
            }
        },
        Entry::Nothing => {
            proof {
                assert(actions@ =~= old(actions)@ + entry_actions(*entry));
            }
        },
    }
}

/// The id of the command `name` among the commands that were looked up, or 0 if it is not
/// among them. Where a name occurs twice, the first one counts.
pub open spec fn command_id_of(commands: Seq<(String, u32)>, name: Seq<char>) -> u32
    decreases commands.len(),
{
    if commands.len() == 0 {
        0
    } else if commands[0].0@ == name {
        commands[0].1
    } else {
        command_id_of(commands.drop_first(), name)
    }
}

/// The name of the command of an item: an underscore and the payload of the item.
pub open spec fn command_name_of(payload: Seq<char>) -> Seq<char> {
    "_"@ + payload
}

/// `after` is `before` with command ids: every item has the id of its command, every menu
/// the id 0, and nothing else has changed.
pub open spec fn has_command_ids(
    before: Entry<String>,
    after: Entry<String>,
    commands: Seq<(String, u32)>,
) -> bool
    decreases before,
{
    match before {
        Entry::Menu(b) => after matches Entry::Menu(a) && a.id == 0 && a.text == b.text
            && a.entries@.len() == b.entries@.len() && forall|i: int|
            0 <= i < b.entries@.len() ==> has_command_ids(
                #[trigger] b.entries@[i],
                a.entries@[i],
                commands,
            ),
        Entry::Item(b) => after matches Entry::Item(a) && a.id == command_id_of(
            commands,
            command_name_of(b.result@),
        ) && a.text == b.text && a.opts == b.opts && a.result == b.result,
        Entry::Separator => after is Separator,
        Entry::Nothing => after is Nothing,
    }
}

/// Returns the id of the command `name` among the commands that were looked up, or 0.
pub fn find_command_id(commands: &Vec<(String, u32)>, name: &String) -> (id: u32)
    ensures
        id == command_id_of(commands@, name@),
{
    let mut i: usize = 0;
    proof {
        assert(commands@.skip(0) =~= commands@);
    }
    while i < commands.len()
        invariant
            i <= commands@.len(),
            command_id_of(commands@, name@) == command_id_of(commands@.skip(i as int), name@),
        decreases commands@.len() - i,
    {
        proof {
            let rest = commands@.skip(i as int);
            assert(rest[0] == commands@[i as int]);
            assert(rest.drop_first() =~= commands@.skip(i + 1));
        }
        if commands[i].0 == *name {
            return commands[i].1;
        }
        i = i + 1;
    }
    0
}

/// Gives every item of the menu the id of its command, as it was looked up, and every menu
/// within it the id 0. The payload of an item is the name of its command without the
/// leading underscore.
pub fn assign_command_ids(menu: &mut Menu<String>, commands: &Vec<(String, u32)>)
    ensures
        final(menu).id == old(menu).id,
        final(menu).text == old(menu).text,
        final(menu).entries@.len() == old(menu).entries@.len(),
        forall|i: int|
            0 <= i < old(menu).entries@.len() ==> has_command_ids(
                #[trigger] old(menu).entries@[i],
                final(menu).entries@[i],
                commands@,
            ),
{
    let ghost before = menu.entries@;
    let mut i: usize = 0;
    while i < menu.entries.len()
        invariant
            i <= menu.entries@.len(),
            menu.id == old(menu).id,
            menu.text == old(menu).text,
            before == old(menu).entries@,
            menu.entries@.len() == before.len(),
            forall|j: int|
                0 <= j < i ==> has_command_ids(#[trigger] before[j], menu.entries@[j], commands@),
            forall|j: int| i <= j < before.len() ==> menu.entries@[j] == before[j],
        decreases menu.entries@.len() - i,
    {
        assign_command_ids_recursively(&mut menu.entries[i], commands);
        i = i + 1;
    }
}

fn assign_command_ids_recursively(entry: &mut Entry<String>, commands: &Vec<(String, u32)>)
    ensures
        has_command_ids(*old(entry), *final(entry), commands@),
    decreases *old(entry),
{
    match entry {
        Entry::Menu(m) => {
            m.id = 0;
            let ghost before = m.entries@;
            let mut i: usize = 0;
            while i < m.entries.len()
                invariant
                    i <= m.entries@.len(),
                    m.id == 0,
                    *old(entry) matches Entry::Menu(b) && b.text == m.text && b.entries@ == before,
                    m.entries@.len() == before.len(),
                    forall|j: int|
                        0 <= j < i ==> has_command_ids(
                            #[trigger] before[j],
                            m.entries@[j],
                            commands@,
                        ),
                    forall|j: int| i <= j < before.len() ==> m.entries@[j] == before[j],
                decreases m.entries@.len() - i,
            {
                proof {
                    assert(decreases_to!(*old(entry) => old(entry)->Menu_0));
                    assert(decreases_to!(old(entry)->Menu_0 => (old(entry)->Menu_0).entries));
                    assert(decreases_to!((old(entry)->Menu_0).entries => (old(
                        entry,
                    )->Menu_0).entries[i as int]));
                }
                assign_command_ids_recursively(&mut m.entries[i], commands);
                i = i + 1;
            }
        },
        Entry::Item(item) => {
            let name = String::from_str("_").concat(item.result.as_str());
            item.id = find_command_id(commands, &name);
        },
        _ => {},
    }
}

/// The names of the commands of the items of an entry, in the order of the tree.
pub open spec fn entry_command_names(entry: Entry<String>) -> Seq<Seq<char>>
    decreases entry, 0nat,
{
    match entry {
        Entry::Menu(m) => entries_command_names(m.entries, m.entries@.len()),
        Entry::Item(i) => seq![command_name_of(i.result@)],
        _ => Seq::empty(),
    }
}

/// The names of the commands of the items of the first `count` of the entries.
pub open spec fn entries_command_names(entries: Vec<Entry<String>>, count: nat) -> Seq<Seq<char>>
    decreases entries, count,
{
    if count == 0 || count > entries@.len() {
        Seq::empty()
    } else {
        entries_command_names(entries, (count - 1) as nat) + entry_command_names(
            entries[count - 1],
        )
    }
}

/// The texts of a list of names.
pub open spec fn name_texts(names: Seq<String>) -> Seq<Seq<char>> {
    names.map_values(|name: String| name@)
}

/// Returns the names of the commands of all items of the menu, in the order of the tree.
/// These are the commands whose ids are to be looked up.
pub fn command_names(menu: &Menu<String>) -> (names: Vec<String>)
    ensures
        name_texts(names@) == entries_command_names(menu.entries, menu.entries@.len()),
{
    let mut names: Vec<String> = Vec::new();
    let mut i: usize = 0;
    assert(name_texts(names@) =~= entries_command_names(menu.entries, 0));
    while i < menu.entries.len()
        invariant
            i <= menu.entries@.len(),
            name_texts(names@) == entries_command_names(menu.entries, i as nat),
        decreases menu.entries@.len() - i,
    {
        collect_command_names(&mut names, &menu.entries[i]);
        i = i + 1;
    }
    names
}

fn collect_command_names(names: &mut Vec<String>, entry: &Entry<String>)
    ensures
        name_texts(final(names)@) == name_texts(old(names)@) + entry_command_names(*entry),
    decreases *entry,
{
    match entry {
        Entry::Menu(m) => {
            let ghost start = name_texts(names@);
            let mut i: usize = 0;
            assert(name_texts(names@) =~= start + entries_command_names(m.entries, 0));
            while i < m.entries.len()
                invariant
                    i <= m.entries@.len(),
                    *entry == Entry::Menu(*m),
                    name_texts(names@) == start + entries_command_names(m.entries, i as nat),
                decreases m.entries@.len() - i,
            {
                proof {
                    assert(*m == entry->Menu_0);
                    assert(decreases_to!(*entry => entry->Menu_0));
                    assert(decreases_to!(entry->Menu_0 => (entry->Menu_0).entries));
                    assert(decreases_to!(m.entries => m.entries[i as int]));
                }
                collect_command_names(names, &m.entries[i]);
                proof {
                    assert(name_texts(names@) =~= start + entries_command_names(
                        m.entries,
                        (i + 1) as nat,
                    ));
                }
                i = i + 1;
            }
        },
        Entry::Item(item) => {
            let name = String::from_str("_").concat(item.result.as_str());
            let ghost before = names@;
            names.push(name);
            proof {
                assert(name_texts(names@) =~= name_texts(before) + seq![
                    command_name_of(item.result@),
                ]);
            }
        },
        _ => {
            proof {
                assert(name_texts(names@) =~= name_texts(old(names)@) + entry_command_names(
                    *entry,
                ));
            }
        },
    }
}

/// Where a preset comes from.
#[derive(Copy, Clone, Debug, PartialEq, Eq, Structural)]
pub enum PresetOrigin {
    User,
    Factory,
}

impl PresetOrigin {
    /// The preset was made by the user.
    pub open spec fn spec_is_user(&self) -> bool {
        *self == PresetOrigin::User
    }

    /// Returns whether the preset was made by the user.
    #[verifier::when_used_as_spec(spec_is_user)]
    pub fn is_user(&self) -> (user: bool)
        ensures
            user == self.spec_is_user(),
    {
        match self {
            PresetOrigin::User => true,
            PresetOrigin::Factory => false,
        }
    }
}

/// What a preset says of itself.
#[derive(Debug)]
pub struct CommonPresetMetaData {
    pub name: String,
}

/// What is known of a preset of a compartment without loading it.
#[derive(Debug)]
pub struct CommonPresetInfo {
    pub id: String,
    pub origin: PresetOrigin,
    pub meta_data: CommonPresetMetaData,
}

/// The text `a` does not come after the text `b` in the order of texts: the texts are
/// compared character by character, and a text comes before every text that it begins.
pub open spec fn text_le(a: Seq<char>, b: Seq<char>) -> bool
    decreases a.len(),
{
    if a.len() == 0 {
        true
    } else if b.len() == 0 {
        false
    } else if a[0] != b[0] {
        (a[0] as u32) < (b[0] as u32)
    } else {
        text_le(a.drop_first(), b.drop_first())
    }
}

/// `str::le` of std. Trusted: texts are ordered by their bytes, which is the order of
/// their characters, and a text comes before every text that it begins.
#[verifier::external_body]
fn not_after(a: &str, b: &str) -> (le: bool)
    ensures
        le == text_le(a@, b@),
{
    a <= b
}

/// The presets `sorted` with `info` put behind the last one whose name does not come after
/// the name of `info`.
pub open spec fn inserted(sorted: Seq<CommonPresetInfo>, info: CommonPresetInfo) -> Seq<
    CommonPresetInfo,
>
    decreases sorted.len(),
{
    if sorted.len() == 0 {
        seq![info]
    } else if text_le(sorted.last().meta_data.name@, info.meta_data.name@) {
        sorted.push(info)
    } else {
        inserted(sorted.drop_last(), info).push(sorted.last())
    }
}

/// The presets in the order of their names. Presets of the same name keep their order.
pub open spec fn sorted_by_name(infos: Seq<CommonPresetInfo>) -> Seq<CommonPresetInfo>
    decreases infos.len(),
{
    if infos.len() == 0 {
        Seq::empty()
    } else {
        inserted(sorted_by_name(infos.drop_last()), infos.last())
    }
}

/// The presets of the user, or those that are not, in their order.
pub open spec fn of_origin(infos: Seq<CommonPresetInfo>, user: bool) -> Seq<CommonPresetInfo> {
    infos.filter(|info: CommonPresetInfo| info.origin.is_user() == user)
}

/// The presets that the references refer to.
pub open spec fn referred(infos: Seq<&CommonPresetInfo>) -> Seq<CommonPresetInfo> {
    infos.map_values(|info: &CommonPresetInfo| *info)
}

/// The text of a preset in a menu: its name, and its id in brackets unless it is the name.
pub open spec fn preset_label(info: CommonPresetInfo) -> Seq<char> {
    if info.meta_data.name@ == info.id@ {
        info.meta_data.name@
    } else {
        info.meta_data.name@ + " ("@ + info.id@ + ")"@
    }
}

/// The entry of the preset `info` in a menu in which the preset `current_value` is checked.
pub open spec fn is_preset_item(
    entry: Entry<Option<String>>,
    info: CommonPresetInfo,
    current_value: Option<Seq<char>>,
) -> bool {
    entry matches Entry::Item(item) && item.id == 0 && item.text@ == preset_label(info)
        && item.opts.enabled && item.opts.checked == (current_value == Some(info.id@)) && (
    item.result matches Some(id) && id@ == info.id@)
}

/// The entries are those of the presets, in their order.
pub open spec fn are_preset_items(
    entries: Seq<Entry<Option<String>>>,
    infos: Seq<CommonPresetInfo>,
    current_value: Option<Seq<char>>,
) -> bool {
    &&& entries.len() == infos.len()
    &&& forall|i: int|
        0 <= i < entries.len() ==> is_preset_item(#[trigger] entries[i], infos[i], current_value)
}

/// The entry is the menu with the given text that holds the presets of one origin, sorted
/// by name.
pub open spec fn is_preset_menu(
    entry: Entry<Option<String>>,
    text: Seq<char>,
    infos: Seq<CommonPresetInfo>,
    user: bool,
    current_value: Option<Seq<char>>,
) -> bool {
    entry matches Entry::Menu(m) && m.id == 0 && m.text@ == text && are_preset_items(
        m.entries@,
        sorted_by_name(of_origin(infos, user)),
        current_value,
    )
}

/// The text of the current value, if there is one.
pub open spec fn current_text(current_value: Option<&str>) -> Option<Seq<char>> {
    match current_value {
        Some(text) => Some(text@),
        None => None,
    }
}

fn presets_of_origin(infos: &Vec<CommonPresetInfo>, user: bool) -> (found: Vec<&CommonPresetInfo>)
    ensures
        referred(found@) == of_origin(infos@, user),
{
    let ghost pred = |info: CommonPresetInfo| info.origin.is_user() == user;
    let mut found: Vec<&CommonPresetInfo> = Vec::new();
    let mut i: usize = 0;
    proof {
        reveal(Seq::filter);
        assert(infos@.take(0).filter(pred) =~= Seq::<CommonPresetInfo>::empty());
        assert(referred(found@) =~= Seq::<CommonPresetInfo>::empty());
    }
    while i < infos.len()
        invariant
            i <= infos@.len(),
            pred == (|info: CommonPresetInfo| info.origin.is_user() == user),
            referred(found@) == infos@.take(i as int).filter(pred),
        decreases infos@.len() - i,
    {
        let info = &infos[i];
        proof {
            reveal(Seq::filter);
            let next = infos@.take(i + 1);
            assert(next.drop_last() =~= infos@.take(i as int));
            assert(next.last() == *info);
        }
        if info.origin.is_user() == user {
            let ghost before = found@;
            found.push(info);
            proof {
                assert(referred(found@) =~= referred(before).push(*info));
            }
        }
        i = i + 1;
    }
    proof {
        assert(infos@.take(i as int) =~= infos@);
    }
    found
}

/// Putting `info` at `j` is putting it behind the last preset whose name does not come
/// after its name, if that is what stands before `j`.
proof fn lemma_inserted_at(sorted: Seq<CommonPresetInfo>, info: CommonPresetInfo, j: int)
    requires
        0 <= j <= sorted.len(),
        forall|k: int|
            j <= k < sorted.len() ==> !text_le(
                (#[trigger] sorted[k]).meta_data.name@,
                info.meta_data.name@,
            ),
        j > 0 ==> text_le(sorted[j - 1].meta_data.name@, info.meta_data.name@),
    ensures
        inserted(sorted, info) == sorted.insert(j, info),
    decreases sorted.len() - j,
{
    if sorted.len() == 0 {
        assert(sorted.insert(0, info) =~= seq![info]);
    } else if j == sorted.len() {
        assert(sorted.insert(j, info) =~= sorted.push(info));
    } else {
        let rest = sorted.drop_last();
        assert forall|k: int| j <= k < rest.len() implies !text_le(
            (#[trigger] rest[k]).meta_data.name@,
            info.meta_data.name@,
        ) by {
            assert(rest[k] == sorted[k]);
        }
        if j > 0 {
            assert(rest[j - 1] == sorted[j - 1]);
        }
        lemma_inserted_at(rest, info, j);
        assert(rest.insert(j, info).push(sorted.last()) =~= sorted.insert(j, info));
    }
}

fn sort_by_name<'a>(infos: Vec<&'a CommonPresetInfo>) -> (sorted: Vec<&'a CommonPresetInfo>)
    ensures
        referred(sorted@) == sorted_by_name(referred(infos@)),
{
    let mut sorted: Vec<&CommonPresetInfo> = Vec::new();
    let mut i: usize = 0;
    proof {
        assert(referred(infos@).take(0) =~= Seq::<CommonPresetInfo>::empty());
        assert(referred(sorted@) =~= Seq::<CommonPresetInfo>::empty());
    }
    while i < infos.len()
        invariant
            i <= infos@.len(),
            referred(sorted@) == sorted_by_name(referred(infos@).take(i as int)),
        decreases infos@.len() - i,
    {
        let info = infos[i];
        let mut j: usize = sorted.len();
        while j > 0 && !not_after(
            sorted[j - 1].meta_data.name.as_str(),
            info.meta_data.name.as_str(),
        )
            invariant
                j <= sorted@.len(),
                forall|k: int|
                    j <= k < sorted@.len() ==> !text_le(
                        (#[trigger] referred(sorted@)[k]).meta_data.name@,
                        info.meta_data.name@,
                    ),
            decreases j,
        {
            proof {
                assert(referred(sorted@)[j - 1] == *sorted@[j - 1]);
            }
            j = j - 1;
        }
        proof {
            let before = referred(sorted@);
            if j > 0 {
                assert(before[j - 1] == *sorted@[j - 1]);
            }
            lemma_inserted_at(before, *info, j as int);
            let next = referred(infos@).take(i + 1);
            assert(next.drop_last() =~= referred(infos@).take(i as int));
            assert(next.last() == *info);
        }
        let ghost before = sorted@;
        sorted.insert(j, info);
        proof {
            assert(referred(sorted@) =~= referred(before).insert(j as int, *info));
        }
        i = i + 1;
    }
    proof {
        assert(referred(infos@).take(i as int) =~= referred(infos@));
    }
    sorted
}

fn is_current(current_value: Option<&str>, id: &String) -> (current: bool)
    ensures
        current == (current_text(current_value) == Some(id@)),
{
    match current_value {
        Some(text) => String::from_str(text) == *id,
        None => false,
    }
}

fn build_compartment_preset_menu_entries_internal(
    preset_infos: &Vec<&CommonPresetInfo>,
    current_value: Option<&str>,
) -> (entries: Vec<Entry<Option<String>>>)
    ensures
        are_preset_items(entries@, referred(preset_infos@), current_text(current_value)),
{
    let mut entries: Vec<Entry<Option<String>>> = Vec::new();
    let mut i: usize = 0;
    while i < preset_infos.len()
        invariant
            i <= preset_infos@.len(),
            entries@.len() == i,
            forall|k: int|
                0 <= k < i ==> is_preset_item(
                    #[trigger] entries@[k],
                    referred(preset_infos@)[k],
                    current_text(current_value),
                ),
        decreases preset_infos@.len() - i,
    {
        let info = preset_infos[i];
        let label = if info.meta_data.name == info.id {
            info.meta_data.name.clone()
        } else {
            info.meta_data.name.clone().concat(" (").concat(info.id.as_str()).concat(")")
        };
        entries.push(
            item_with_opts(
                label,
                ItemOpts { enabled: true, checked: is_current(current_value, &info.id) },
                Some(info.id.clone()),
            ),
        );
        proof {
            assert(referred(preset_infos@)[i as int] == *info);
        }
        i = i + 1;
    }
    entries
}

/// Returns the menus of the presets of a compartment: that of the presets of the user, then
/// that of the factory presets, each sorted by name. The current preset is checked.
pub fn build_compartment_preset_menu_entries(
    preset_infos: &Vec<CommonPresetInfo>,
    current_value: Option<&str>,
) -> (entries: Vec<Entry<Option<String>>>)
    ensures
        entries@.len() == 2,
        is_preset_menu(
            entries@[0],
            "User presets"@,
            preset_infos@,
            true,
            current_text(current_value),
        ),
        is_preset_menu(
            entries@[1],
            "Factory presets"@,
            preset_infos@,
            false,
            current_text(current_value),
        ),
{
    let user_preset_infos = sort_by_name(presets_of_origin(preset_infos, true));
    let factory_preset_infos = sort_by_name(presets_of_origin(preset_infos, false));
    let mut entries: Vec<Entry<Option<String>>> = Vec::new();
    entries.push(
        menu(
            String::from_str("User presets"),
            build_compartment_preset_menu_entries_internal(&user_preset_infos, current_value),
        ),
    );
    entries.push(
        menu(
            String::from_str("Factory presets"),
            build_compartment_preset_menu_entries_internal(&factory_preset_infos, current_value),
        ),
    );
    entries
}

/// Returns the menu of the presets of a compartment after an entry that stands for no
/// preset. The current choice is checked.
pub fn menu_containing_compartment_presets(
    preset_infos: &Vec<CommonPresetInfo>,
    current_value: Option<&str>,
) -> (menu: Menu<Option<String>>)
    ensures
        menu.id == 0,
        menu.text@ == Seq::<char>::empty(),
        menu.entries@.len() == 3,
        menu.entries@[0] matches Entry::Item(none) && none.id == 0 && none.text@ == NONE@
            && none.opts.enabled && none.opts.checked == current_value.is_none()
            && none.result.is_none(),
        is_preset_menu(
            menu.entries@[1],
            "User presets"@,
            preset_infos@,
            true,
            current_text(current_value),
        ),
        is_preset_menu(
            menu.entries@[2],
            "Factory presets"@,
            preset_infos@,
            false,
            current_text(current_value),
        ),
{
    let mut entries: Vec<Entry<Option<String>>> = Vec::new();
    entries.push(
        item_with_opts(
            String::from_str(NONE),
            ItemOpts { enabled: true, checked: current_value.is_none() },
            None,
        ),
    );
    let mut presets = build_compartment_preset_menu_entries(preset_infos, current_value);
    let ghost user_menu = presets@[0];
    let ghost factory_menu = presets@[1];
    let factory = presets.pop().unwrap();
    let user = presets.pop().unwrap();
    entries.push(user);
    entries.push(factory);
    root_menu(entries)
}

/// A row of a menu that is divided into groups: an item and the group that it belongs to.
#[derive(Debug)]
pub struct MenuRow<R> {
    pub group: u128,
    pub text: String,
    pub checked: bool,
    pub result: R,
}

/// The rows among the first `count` that belong to `group`, in order.
pub open spec fn rows_of_group<R>(rows: Seq<MenuRow<R>>, group: u128, count: int) -> Seq<
    MenuRow<R>,
>
    decreases count,
{
    if count <= 0 {
        Seq::empty()
    } else {
        let rest = rows_of_group(rows, group, count - 1);
        if rows[count - 1].group == group {
            rest.push(rows[count - 1])
        } else {
            rest
        }
    }
}

/// The entry is the item of the row: enabled, with the text, the check mark and the result
/// of the row.
pub open spec fn is_row_item<R>(entry: Entry<R>, row: MenuRow<R>) -> bool {
    entry matches Entry::Item(item) && item.id == 0 && item.text == row.text
        && item.opts.enabled && item.opts.checked == row.checked && item.result == row.result
}

/// The entries are the items of the rows, in order.
pub open spec fn are_row_items<R>(entries: Seq<Entry<R>>, rows: Seq<MenuRow<R>>) -> bool {
    &&& entries.len() == rows.len()
    &&& forall|i: int| 0 <= i < entries.len() ==> is_row_item(#[trigger] entries[i], rows[i])
}

/// The entry is the menu of a group: it has the text of the group and holds the items of
/// the rows that belong to the group.
pub open spec fn is_group_menu<R>(entry: Entry<R>, group: (u128, String), rows: Seq<MenuRow<R>>) -> bool {
    entry matches Entry::Menu(m) && m.id == 0 && m.text == group.1 && are_row_items(
        m.entries@,
        rows_of_group(rows, group.0, rows.len() as int),
    )
}

fn group_items<R: Copy>(rows: &Vec<MenuRow<R>>, group: u128) -> (entries: Vec<Entry<R>>)
    ensures
        are_row_items(entries@, rows_of_group(rows@, group, rows@.len() as int)),
{
    let mut entries: Vec<Entry<R>> = Vec::new();
    let mut i: usize = 0;
    while i < rows.len()
        invariant
            i <= rows@.len(),
            are_row_items(entries@, rows_of_group(rows@, group, i as int)),
        decreases rows@.len() - i,
    {
        let row = &rows[i];
        if row.group == group {
            entries.push(
                item_with_opts(
                    row.text.clone(),
                    ItemOpts { enabled: true, checked: row.checked },
                    row.result,
                ),
            );
        }
        i = i + 1;
    }
    entries
}

/// Returns one menu for each group, in the order of the groups, which holds the items of
/// the rows that belong to the group, in the order of the rows. A group is given by its key
/// and its text.
pub fn grouped_menu_entries<R: Copy>(groups: &Vec<(u128, String)>, rows: &Vec<MenuRow<R>>) -> (entries:
    Vec<Entry<R>>)
    ensures
        entries@.len() == groups@.len(),
        forall|g: int|
            0 <= g < groups@.len() ==> is_group_menu(#[trigger] entries@[g], groups@[g], rows@),
{
    let mut entries: Vec<Entry<R>> = Vec::new();
    let mut g: usize = 0;
    while g < groups.len()
        invariant
            g <= groups@.len(),
            entries@.len() == g,
            forall|k: int|
                0 <= k < g ==> is_group_menu(#[trigger] entries@[k], groups@[k], rows@),
        decreases groups@.len() - g,
    {
        let items = group_items(rows, groups[g].0);
        entries.push(menu(groups[g].1.clone(), items));
        g = g + 1;
    }
    entries
}

/// A group of mappings.
#[derive(Debug)]
pub struct GroupInfo {
    pub id: u128,
    pub effective_name: String,
}

/// What a menu reads of a mapping.
#[derive(Debug)]
pub struct MappingInfo {
    pub id: MappingId,
    pub group_id: u128,
    pub effective_name: String,
}

/// The row of a mapping in a menu in which the mapping `current_value` is checked.
pub open spec fn mapping_row(mapping: MappingInfo, current_value: Option<MappingId>) -> MenuRow<
    Option<MappingId>,
> {
    MenuRow {
        group: mapping.group_id,
        text: mapping.effective_name,
        checked: current_value == Some(mapping.id),
        result: Some(mapping.id),
    }
}

/// The rows of the mappings.
pub open spec fn mapping_rows(mappings: Seq<MappingInfo>, current_value: Option<MappingId>) -> Seq<
    MenuRow<Option<MappingId>>,
> {
    mappings.map_values(|mapping: MappingInfo| mapping_row(mapping, current_value))
}

/// The key and the text of a group of mappings.
pub open spec fn group_key(group: GroupInfo) -> (u128, String) {
    (group.id, group.effective_name)
}

/// Returns the menu of the mappings of a compartment: an entry that stands for no mapping,
/// then one menu for each group with the mappings of the group. The current choice is
/// checked.
pub fn menu_containing_mappings(
    groups: &Vec<GroupInfo>,
    mappings: &Vec<MappingInfo>,
    current_value: Option<MappingId>,
) -> (menu: Menu<Option<MappingId>>)
    ensures
        menu.id == 0,
        menu.text@ == Seq::<char>::empty(),
        menu.entries@.len() == groups@.len() + 1,
        menu.entries@[0] matches Entry::Item(none) && none.id == 0 && none.text@ == NONE@
            && none.opts.enabled && none.opts.checked == current_value.is_none()
            && none.result.is_none(),
        forall|g: int|
            0 <= g < groups@.len() ==> is_group_menu(
                #[trigger] menu.entries@[g + 1],
                group_key(groups@[g]),
                mapping_rows(mappings@, current_value),
            ),
{
    let mut rows: Vec<MenuRow<Option<MappingId>>> = Vec::new();
    let mut i: usize = 0;
    while i < mappings.len()
        invariant
            i <= mappings@.len(),
            rows@.len() == i,
            forall|k: int| 0 <= k < i ==> rows@[k] == mapping_row(mappings@[k], current_value),
        decreases mappings@.len() - i,
    {
        let mapping = &mappings[i];
        let checked = match current_value {
            Some(current) => current.uuid == mapping.id.uuid,
            None => false,
        };
        rows.push(
            MenuRow {
                group: mapping.group_id,
                text: mapping.effective_name.clone(),
                checked,
                result: Some(mapping.id),
            },
        );
        i = i + 1;
    }
    assert(rows@ =~= mapping_rows(mappings@, current_value));
    let mut keys: Vec<(u128, String)> = Vec::new();
    let mut g: usize = 0;
    while g < groups.len()
        invariant
            g <= groups@.len(),
            keys@.len() == g,
            forall|k: int| 0 <= k < g ==> keys@[k] == group_key(groups@[k]),
        decreases groups@.len() - g,
    {
        keys.push((groups[g].id, groups[g].effective_name.clone()));
        g = g + 1;
    }
    let mut group_menus = grouped_menu_entries(&keys, &rows);
    let ghost menus = group_menus@;
    let mut entries: Vec<Entry<Option<MappingId>>> = Vec::new();
    entries.push(
        item_with_opts(
            String::from_str(NONE),
            ItemOpts { enabled: true, checked: current_value.is_none() },
            None,
        ),
    );
    entries.append(&mut group_menus);
    proof {
        assert forall|k: int| 0 <= k < groups@.len() implies is_group_menu(
            #[trigger] entries@[k + 1],
            group_key(groups@[k]),
            mapping_rows(mappings@, current_value),
        ) by {
            assert(entries@[k + 1] == menus[k]);
            assert(is_group_menu(menus[k], keys@[k], rows@));
        }
    }
    root_menu(entries)
}

/// A section of target types.
#[derive(Debug)]
pub struct TargetSection {
    pub code: u32,
    pub name: String,
}

/// What a target type is called and where it belongs.
#[derive(Debug)]
pub struct TargetTypeDef {
    pub target_type: ReaperTargetType,
    pub section: u32,
    pub name: String,
}

/// The row of a target type in a menu in which the type `current_value` is checked.
pub open spec fn target_type_row(def: TargetTypeDef, current_value: ReaperTargetType) -> MenuRow<
    ReaperTargetType,
> {
    MenuRow {
        group: def.section as u128,
        text: def.name,
        checked: def.target_type == current_value,
        result: def.target_type,
    }
}

/// The rows of the target types.
pub open spec fn target_type_rows(defs: Seq<TargetTypeDef>, current_value: ReaperTargetType) -> Seq<
    MenuRow<ReaperTargetType>,
> {
    defs.map_values(|def: TargetTypeDef| target_type_row(def, current_value))
}

/// The key and the text of a section of target types.
pub open spec fn section_key(section: TargetSection) -> (u128, String) {
    (section.code as u128, section.name)
}

/// Returns the menu of the target types: one menu for each section with the target types
/// of the section. The current type is checked.
pub fn reaper_target_type_menu(
    sections: &Vec<TargetSection>,
    target_types: &Vec<TargetTypeDef>,
    current_value: ReaperTargetType,
) -> (menu: Menu<ReaperTargetType>)
    ensures
        menu.id == 0,
        menu.text@ == Seq::<char>::empty(),
        menu.entries@.len() == sections@.len(),
        forall|s: int|
            0 <= s < sections@.len() ==> is_group_menu(
                #[trigger] menu.entries@[s],
                section_key(sections@[s]),
                target_type_rows(target_types@, current_value),
            ),
{
    let mut rows: Vec<MenuRow<ReaperTargetType>> = Vec::new();
    let mut i: usize = 0;
    while i < target_types.len()
        invariant
            i <= target_types@.len(),
            rows@.len() == i,
            forall|k: int|
                0 <= k < i ==> rows@[k] == target_type_row(target_types@[k], current_value),
        decreases target_types@.len() - i,
    {
        let def = &target_types[i];
        rows.push(
            MenuRow {
                group: def.section as u128,
                text: def.name.clone(),
                checked: def.target_type.code == current_value.code,
                result: def.target_type,
            },
        );
        i = i + 1;
    }
    assert(rows@ =~= target_type_rows(target_types@, current_value));
    let mut keys: Vec<(u128, String)> = Vec::new();
    let mut s: usize = 0;
    while s < sections.len()
        invariant
            s <= sections@.len(),
            keys@.len() == s,
            forall|k: int| 0 <= k < s ==> keys@[k] == section_key(sections@[k]),
        decreases sections@.len() - s,
    {
        keys.push((sections[s].code as u128, sections[s].name.clone()));
        s = s + 1;
    }
    let entries = grouped_menu_entries(&keys, &rows);
    root_menu(entries)
}

} // verus!
