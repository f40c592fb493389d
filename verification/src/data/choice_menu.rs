//! Choice menu payload for host-owned `<select>` popups.

use vstd::prelude::*;

use crate::codes;

verus! {

#[derive(Debug, Clone, Copy, PartialEq, Eq, Structural)]
pub enum ChromeChoiceMenuItemType {
    Option,
    CheckableOption,
    Group,
    Separator,
    SubMenu,
}

#[derive(Debug, Clone, Copy, PartialEq, Eq, Structural)]
pub enum ChromeChoiceMenuTextDirection {
    LeftToRight,
    RightToLeft,
}

#[derive(Debug, Clone, Copy, PartialEq, Eq, Structural)]
pub enum ChromeChoiceMenuSelectionMode {
    Single,
    Multiple,
}

#[derive(Debug, PartialEq, Eq)]
pub struct ChromeChoiceMenuItem {
    pub item_type: ChromeChoiceMenuItemType,
    pub label: Option<String>,
    pub tool_tip: Option<String>,
    pub action: u32,
    pub text_direction: ChromeChoiceMenuTextDirection,
    pub has_text_direction_override: bool,
    pub enabled: bool,
    pub checked: bool,
    pub children: Vec<ChromeChoiceMenuItem>,
}

/// A choice menu; `item_font_size_bits` holds the IEEE-754 bits of the
/// item font size.
#[derive(Debug, PartialEq, Eq)]
pub struct ChromeChoiceMenu {
    pub request_id: u64,
    pub x: i32,
    pub y: i32,
    pub width: i32,
    pub height: i32,
    pub item_font_size_bits: u64,
    pub selected_item: i32,
    pub right_aligned: bool,
    pub selection_mode: ChromeChoiceMenuSelectionMode,
    pub items: Vec<ChromeChoiceMenuItem>,
}

#[derive(Debug, Clone, PartialEq, Eq)]
pub struct ChromeChoiceMenuResponse {
    pub request_id: u64,
    pub indices: Vec<i32>,
}

pub open spec fn choice_menu_item_type_code(t: ChromeChoiceMenuItemType) -> u8 {
    match t {
        ChromeChoiceMenuItemType::Option => codes::CHOICE_MENU_ITEM_OPTION,
        ChromeChoiceMenuItemType::CheckableOption => codes::CHOICE_MENU_ITEM_CHECKABLE_OPTION,
        ChromeChoiceMenuItemType::Group => codes::CHOICE_MENU_ITEM_GROUP,
        ChromeChoiceMenuItemType::Separator => codes::CHOICE_MENU_ITEM_SEPARATOR,
        ChromeChoiceMenuItemType::SubMenu => codes::CHOICE_MENU_ITEM_SUB_MENU,
    }
}

/// The value a wire code decodes to.
pub open spec fn choice_menu_item_type_of(value: u8) -> ChromeChoiceMenuItemType {
    if value == codes::CHOICE_MENU_ITEM_OPTION {
        ChromeChoiceMenuItemType::Option
    } else if value == codes::CHOICE_MENU_ITEM_CHECKABLE_OPTION {
        ChromeChoiceMenuItemType::CheckableOption
    } else if value == codes::CHOICE_MENU_ITEM_GROUP {
        ChromeChoiceMenuItemType::Group
    } else if value == codes::CHOICE_MENU_ITEM_SEPARATOR {
        ChromeChoiceMenuItemType::Separator
    } else if value == codes::CHOICE_MENU_ITEM_SUB_MENU {
        ChromeChoiceMenuItemType::SubMenu
    } else {
        ChromeChoiceMenuItemType::Option
    }
}

/// Decode a choice menu item type; unknown codes read as a plain option.
pub fn choice_menu_item_type_from_ffi(value: u8) -> (t: ChromeChoiceMenuItemType)
    ensures
        t == choice_menu_item_type_of(value),
        choice_menu_item_type_code(t) == value || (t == ChromeChoiceMenuItemType::Option && forall|
            x: ChromeChoiceMenuItemType,
        | choice_menu_item_type_code(x) != value),
{
    match value {
        codes::CHOICE_MENU_ITEM_OPTION => ChromeChoiceMenuItemType::Option,
        codes::CHOICE_MENU_ITEM_CHECKABLE_OPTION => ChromeChoiceMenuItemType::CheckableOption,
        codes::CHOICE_MENU_ITEM_GROUP => ChromeChoiceMenuItemType::Group,
        codes::CHOICE_MENU_ITEM_SEPARATOR => ChromeChoiceMenuItemType::Separator,
        codes::CHOICE_MENU_ITEM_SUB_MENU => ChromeChoiceMenuItemType::SubMenu,
        _ => ChromeChoiceMenuItemType::Option,
    }
}

pub open spec fn choice_menu_text_direction_code(d: ChromeChoiceMenuTextDirection) -> u8 {
    match d {
        ChromeChoiceMenuTextDirection::LeftToRight => codes::CHOICE_MENU_TEXT_DIRECTION_LEFT_TO_RIGHT,
        ChromeChoiceMenuTextDirection::RightToLeft => codes::CHOICE_MENU_TEXT_DIRECTION_RIGHT_TO_LEFT,
    }
}

/// The value a wire code decodes to.
pub open spec fn choice_menu_text_direction_of(value: u8) -> ChromeChoiceMenuTextDirection {
    if value == codes::CHOICE_MENU_TEXT_DIRECTION_RIGHT_TO_LEFT {
        ChromeChoiceMenuTextDirection::RightToLeft
    } else if value == codes::CHOICE_MENU_TEXT_DIRECTION_LEFT_TO_RIGHT {
        ChromeChoiceMenuTextDirection::LeftToRight
    } else {
        ChromeChoiceMenuTextDirection::LeftToRight
    }
}

/// Decode a text direction; unknown codes read as left-to-right.
pub fn choice_menu_text_direction_from_ffi(value: u8) -> (d: ChromeChoiceMenuTextDirection)
    ensures
        d == choice_menu_text_direction_of(value),
        choice_menu_text_direction_code(d) == value || (d
            == ChromeChoiceMenuTextDirection::LeftToRight && forall|
            x: ChromeChoiceMenuTextDirection,
        | choice_menu_text_direction_code(x) != value),
{
    match value {
        codes::CHOICE_MENU_TEXT_DIRECTION_RIGHT_TO_LEFT => ChromeChoiceMenuTextDirection::RightToLeft,
        codes::CHOICE_MENU_TEXT_DIRECTION_LEFT_TO_RIGHT => ChromeChoiceMenuTextDirection::LeftToRight,
        _ => ChromeChoiceMenuTextDirection::LeftToRight,
    }
}

/// A choice menu item seen as a tree: its own fields, and the views of its children.
pub struct ChoiceItemView {
    pub item_type: ChromeChoiceMenuItemType,
    pub label: Option<String>,
    pub tool_tip: Option<String>,
    pub action: u32,
    pub text_direction: ChromeChoiceMenuTextDirection,
    pub has_text_direction_override: bool,
    pub enabled: bool,
    pub checked: bool,
    pub children: Seq<ChoiceItemView>,
}

/// The tree view of a list of choice menu items.
pub open spec fn choice_items_view(items: Seq<ChromeChoiceMenuItem>) -> Seq<ChoiceItemView>
    decreases items, 0int,
{
    if items.len() == 0 {
        Seq::empty()
    } else {
        proof {
            assert(decreases_to!(items => items[items.len() - 1]));
        }
        choice_items_view(items.subrange(0, items.len() - 1)).push(
            choice_item_view(items[items.len() - 1]),
        )
    }
}

/// The tree view of one choice menu item.
pub open spec fn choice_item_view(item: ChromeChoiceMenuItem) -> ChoiceItemView
    decreases item, 1int,
{
    proof {
        assert(decreases_to!(item => item.children));
        assert(decreases_to!(item.children => item.children@));
    }
    ChoiceItemView {
        item_type: item.item_type,
        label: item.label,
        tool_tip: item.tool_tip,
        action: item.action,
        text_direction: item.text_direction,
        has_text_direction_override: item.has_text_direction_override,
        enabled: item.enabled,
        checked: item.checked,
        children: choice_items_view(item.children@),
    }
}

/// Appending an item appends its view.
pub proof fn lemma_choice_items_view_push(items: Seq<ChromeChoiceMenuItem>, item: ChromeChoiceMenuItem)
    ensures
        choice_items_view(items.push(item)) == choice_items_view(items).push(choice_item_view(item)),
{
    assert(items.push(item).subrange(0, items.len() as int) =~= items);
}

/// Decoding undoes encoding: every value with a wire code decodes back to itself.
pub proof fn lemma_choice_menu_codes_round_trip()
    ensures
        forall|x: ChromeChoiceMenuItemType| #[trigger] choice_menu_item_type_of(choice_menu_item_type_code(x)) == x,
        forall|x: ChromeChoiceMenuTextDirection| #[trigger] choice_menu_text_direction_of(choice_menu_text_direction_code(x)) == x,
{
}

} // verus!
