//! Context menu items: types, icons, accelerators and submenus, and the
//! filter that keeps only the commands a host can carry out.

use vstd::prelude::*;

verus! {

#[derive(Debug, Clone, Copy, PartialEq, Eq, Structural)]
pub enum ChromeContextMenuItemType {
    Command,
    Check,
    Radio,
    Separator,
    ButtonItem,
    Submenu,
    ActionableSubmenu,
    Highlighted,
    Title,
}

#[derive(Debug, Clone, PartialEq, Eq)]
pub struct ChromeContextMenuIcon {
    pub png_bytes: Vec<u8>,
    pub width: u32,
    pub height: u32,
}

#[derive(Debug, Clone, PartialEq, Eq)]
pub struct ChromeContextMenuAccelerator {
    pub key_equivalent: String,
    pub modifier_mask: u32,
}

#[derive(Debug, PartialEq, Eq)]
pub struct ChromeContextMenuItem {
    pub item_type: ChromeContextMenuItemType,
    pub command_id: i32,
    pub label: String,
    pub secondary_label: String,
    pub minor_text: String,
    pub accessible_name: String,
    pub enabled: bool,
    pub visible: bool,
    pub checked: bool,
    pub group_id: i32,
    pub is_new_feature: bool,
    pub is_alerted: bool,
    pub may_have_mnemonics: bool,
    pub accelerator: Option<ChromeContextMenuAccelerator>,
    pub icon: Option<ChromeContextMenuIcon>,
    pub minor_icon: Option<ChromeContextMenuIcon>,
    pub submenu: Vec<ChromeContextMenuItem>,
}

#[derive(Debug, PartialEq, Eq)]
pub struct ChromeContextMenu {
    pub menu_id: u64,
    pub x: i32,
    pub y: i32,
    pub source_type: u32,
    pub items: Vec<ChromeContextMenuItem>,
}

/// Chromium command ids, mirrored from `chrome/app/chrome_command_ids.h`.
/// They must stay aligned with the Chromium revision the runtime is built
/// from, because the backend reports and accepts the same id space.
///
/// Command id for navigating back.
pub const CMD_BACK: i32 = 33000;
/// Command id for navigating forward.
pub const CMD_FORWARD: i32 = 33001;
/// Command id for reloading the page.
pub const CMD_RELOAD: i32 = 33002;
/// Command id for printing the page.
pub const CMD_PRINT: i32 = 35003;
/// Command id for cutting selection.
pub const CMD_CUT: i32 = 36000;
/// Command id for copying selection.
pub const CMD_COPY: i32 = 36001;
/// Command id for pasting clipboard contents.
pub const CMD_PASTE: i32 = 36003;
/// Command id for opening a link in a new tab.
pub const CMD_CONTENT_OPEN_LINK_NEW_TAB: i32 = 50100;
/// Command id for opening a link in a new window.
pub const CMD_CONTENT_OPEN_LINK_NEW_WINDOW: i32 = 50101;
/// Command id for copying a link location.
pub const CMD_CONTENT_COPY_LINK_LOCATION: i32 = 50104;
/// Command id for saving an image as a file.
pub const CMD_CONTENT_SAVE_IMAGE_AS: i32 = 50120;
/// Command id for copying an image location.
pub const CMD_CONTENT_COPY_IMAGE_LOCATION: i32 = 50121;
/// Command id for copying an image.
pub const CMD_CONTENT_COPY_IMAGE: i32 = 50122;
/// Command id for copying selected content.
pub const CMD_CONTENT_COPY: i32 = 50150;
/// Command id for cutting selected content.
pub const CMD_CONTENT_CUT: i32 = 50151;
/// Command id for pasting into content.
pub const CMD_CONTENT_PASTE: i32 = 50152;
/// Command id for undo in editable content.
pub const CMD_CONTENT_UNDO: i32 = 50154;
/// Command id for redo in editable content.
pub const CMD_CONTENT_REDO: i32 = 50155;
/// Command id for selecting all content.
pub const CMD_CONTENT_SELECT_ALL: i32 = 50156;
/// Command id for pasting while matching style.
pub const CMD_CONTENT_PASTE_AND_MATCH_STYLE: i32 = 50157;
/// Command id for inspecting element via DevTools.
pub const CMD_CONTENT_INSPECT_ELEMENT: i32 = 50162;
/// DevTools command id for storing a node as a global variable.
pub const CMD_DEVTOOLS_STORE_AS_GLOBAL_VARIABLE: i32 = 47000;
/// DevTools command id for adding an attribute to a node.
pub const CMD_DEVTOOLS_ADD_ATTRIBUTE: i32 = 47001;
/// DevTools command id for editing an attribute.
pub const CMD_DEVTOOLS_EDIT_ATTRIBUTE: i32 = 47002;
/// DevTools command id for editing a node as HTML.
pub const CMD_DEVTOOLS_EDIT_AS_HTML: i32 = 47003;
/// DevTools command id for cutting a node.
pub const CMD_DEVTOOLS_CUT: i32 = 47004;
/// DevTools command id for copying a node outer HTML.
pub const CMD_DEVTOOLS_COPY_OUTER_HTML: i32 = 47005;
/// DevTools command id for copying a node selector.
pub const CMD_DEVTOOLS_COPY_SELECTOR: i32 = 47006;
/// DevTools command id for copying a node JS path.
pub const CMD_DEVTOOLS_COPY_JS_PATH: i32 = 47007;
/// DevTools command id for copying node styles.
pub const CMD_DEVTOOLS_COPY_STYLES: i32 = 47008;
/// DevTools command id for copying a node XPath.
pub const CMD_DEVTOOLS_COPY_XPATH: i32 = 47009;
/// DevTools command id for copying a node full XPath.
pub const CMD_DEVTOOLS_COPY_FULL_XPATH: i32 = 47010;
/// DevTools command id for copying an element.
pub const CMD_DEVTOOLS_COPY_ELEMENT: i32 = 47011;
/// DevTools command id for duplicating an element.
pub const CMD_DEVTOOLS_DUPLICATE_ELEMENT: i32 = 47012;
/// DevTools command id for pasting into a node.
pub const CMD_DEVTOOLS_PASTE: i32 = 47013;
/// DevTools command id for hiding an element.
pub const CMD_DEVTOOLS_HIDE_ELEMENT: i32 = 47014;
/// DevTools command id for deleting an element.
pub const CMD_DEVTOOLS_DELETE_ELEMENT: i32 = 47015;
/// DevTools command id for expanding a node recursively.
pub const CMD_DEVTOOLS_EXPAND_RECURSIVELY: i32 = 47016;
/// DevTools command id for collapsing a node's children.
pub const CMD_DEVTOOLS_COLLAPSE_CHILDREN: i32 = 47017;
/// DevTools command id for forcing :active state.
pub const CMD_DEVTOOLS_FORCE_STATE_ACTIVE: i32 = 47019;
/// DevTools command id for forcing :hover state.
pub const CMD_DEVTOOLS_FORCE_STATE_HOVER: i32 = 47020;
/// DevTools command id for forcing :focus state.
pub const CMD_DEVTOOLS_FORCE_STATE_FOCUS: i32 = 47021;
/// DevTools command id for forcing :visited state.
pub const CMD_DEVTOOLS_FORCE_STATE_VISITED: i32 = 47022;
/// DevTools command id for forcing :focus-within state.
pub const CMD_DEVTOOLS_FORCE_STATE_FOCUS_WITHIN: i32 = 47023;
/// DevTools command id for forcing :focus-visible state.
pub const CMD_DEVTOOLS_FORCE_STATE_FOCUS_VISIBLE: i32 = 47024;
/// DevTools command id for scrolling a node into view.
pub const CMD_DEVTOOLS_SCROLL_INTO_VIEW: i32 = 47025;
/// DevTools command id for focusing a node.
pub const CMD_DEVTOOLS_FOCUS: i32 = 47026;
/// DevTools command id for toggling the ad badge.
pub const CMD_DEVTOOLS_BADGE_AD: i32 = 47027;
/// DevTools command id for toggling the container badge.
pub const CMD_DEVTOOLS_BADGE_CONTAINER: i32 = 47028;
/// DevTools command id for toggling the flex badge.
pub const CMD_DEVTOOLS_BADGE_FLEX: i32 = 47029;
/// DevTools command id for toggling the grid badge.
pub const CMD_DEVTOOLS_BADGE_GRID: i32 = 47030;
/// DevTools command id for toggling the grid-lanes badge.
pub const CMD_DEVTOOLS_BADGE_GRID_LANES: i32 = 47031;
/// DevTools command id for toggling the media badge.
pub const CMD_DEVTOOLS_BADGE_MEDIA: i32 = 47032;
/// DevTools command id for toggling the popover badge.
pub const CMD_DEVTOOLS_BADGE_POPOVER: i32 = 47033;
/// DevTools command id for toggling the reveal badge.
pub const CMD_DEVTOOLS_BADGE_REVEAL: i32 = 47034;
/// DevTools command id for toggling the scroll badge.
pub const CMD_DEVTOOLS_BADGE_SCROLL: i32 = 47035;
/// DevTools command id for toggling the scroll-snap badge.
pub const CMD_DEVTOOLS_BADGE_SCROLL_SNAP: i32 = 47036;
/// DevTools command id for toggling the slot badge.
pub const CMD_DEVTOOLS_BADGE_SLOT: i32 = 47037;
/// DevTools command id for toggling the view-source badge.
pub const CMD_DEVTOOLS_BADGE_VIEW_SOURCE: i32 = 47038;
/// DevTools command id for toggling the starting-style badge.
pub const CMD_DEVTOOLS_BADGE_STARTING_STYLE: i32 = 47039;
/// DevTools command id for toggling the subgrid badge.
pub const CMD_DEVTOOLS_BADGE_SUBGRID: i32 = 47040;
/// DevTools command id for toggling the top-layer badge.
pub const CMD_DEVTOOLS_BADGE_TOP_LAYER: i32 = 47041;
/// DevTools command id for breaking on subtree modifications.
pub const CMD_DEVTOOLS_BREAK_ON_SUBTREE_MODIFICATIONS: i32 = 47042;
/// DevTools command id for breaking on attribute modifications.
pub const CMD_DEVTOOLS_BREAK_ON_ATTRIBUTE_MODIFICATIONS: i32 = 47043;
/// DevTools command id for breaking on node removal.
pub const CMD_DEVTOOLS_BREAK_ON_NODE_REMOVAL: i32 = 47044;

/// Whether a command id is one the host can carry out.
pub open spec fn is_allowlisted(id: i32) -> bool {
    id == CMD_BACK
        || id == CMD_FORWARD
        || id == CMD_RELOAD
        || id == CMD_PRINT
        || id == CMD_CUT
        || id == CMD_COPY
        || id == CMD_PASTE
        || id == CMD_CONTENT_OPEN_LINK_NEW_TAB
        || id == CMD_CONTENT_OPEN_LINK_NEW_WINDOW
        || id == CMD_CONTENT_COPY_LINK_LOCATION
        || id == CMD_CONTENT_SAVE_IMAGE_AS
        || id == CMD_CONTENT_COPY_IMAGE_LOCATION
        || id == CMD_CONTENT_COPY_IMAGE
        || id == CMD_CONTENT_COPY
        || id == CMD_CONTENT_CUT
        || id == CMD_CONTENT_PASTE
        || id == CMD_CONTENT_UNDO
        || id == CMD_CONTENT_REDO
        || id == CMD_CONTENT_SELECT_ALL
        || id == CMD_CONTENT_PASTE_AND_MATCH_STYLE
        || id == CMD_CONTENT_INSPECT_ELEMENT
        || id == CMD_DEVTOOLS_STORE_AS_GLOBAL_VARIABLE
        || id == CMD_DEVTOOLS_ADD_ATTRIBUTE
        || id == CMD_DEVTOOLS_EDIT_ATTRIBUTE
        || id == CMD_DEVTOOLS_EDIT_AS_HTML
        || id == CMD_DEVTOOLS_CUT
        || id == CMD_DEVTOOLS_COPY_OUTER_HTML
        || id == CMD_DEVTOOLS_COPY_SELECTOR
        || id == CMD_DEVTOOLS_COPY_JS_PATH
        || id == CMD_DEVTOOLS_COPY_STYLES
        || id == CMD_DEVTOOLS_COPY_XPATH
        || id == CMD_DEVTOOLS_COPY_FULL_XPATH
        || id == CMD_DEVTOOLS_COPY_ELEMENT
        || id == CMD_DEVTOOLS_DUPLICATE_ELEMENT
        || id == CMD_DEVTOOLS_PASTE
        || id == CMD_DEVTOOLS_HIDE_ELEMENT
        || id == CMD_DEVTOOLS_DELETE_ELEMENT
        || id == CMD_DEVTOOLS_EXPAND_RECURSIVELY
        || id == CMD_DEVTOOLS_COLLAPSE_CHILDREN
        || id == CMD_DEVTOOLS_FORCE_STATE_ACTIVE
        || id == CMD_DEVTOOLS_FORCE_STATE_HOVER
        || id == CMD_DEVTOOLS_FORCE_STATE_FOCUS
        || id == CMD_DEVTOOLS_FORCE_STATE_VISITED
        || id == CMD_DEVTOOLS_FORCE_STATE_FOCUS_WITHIN
        || id == CMD_DEVTOOLS_FORCE_STATE_FOCUS_VISIBLE
        || id == CMD_DEVTOOLS_SCROLL_INTO_VIEW
        || id == CMD_DEVTOOLS_FOCUS
        || id == CMD_DEVTOOLS_BADGE_AD
        || id == CMD_DEVTOOLS_BADGE_CONTAINER
        || id == CMD_DEVTOOLS_BADGE_FLEX
        || id == CMD_DEVTOOLS_BADGE_GRID
        || id == CMD_DEVTOOLS_BADGE_GRID_LANES
        || id == CMD_DEVTOOLS_BADGE_MEDIA
        || id == CMD_DEVTOOLS_BADGE_POPOVER
        || id == CMD_DEVTOOLS_BADGE_REVEAL
        || id == CMD_DEVTOOLS_BADGE_SCROLL
        || id == CMD_DEVTOOLS_BADGE_SCROLL_SNAP
        || id == CMD_DEVTOOLS_BADGE_SLOT
        || id == CMD_DEVTOOLS_BADGE_VIEW_SOURCE
        || id == CMD_DEVTOOLS_BADGE_STARTING_STYLE
        || id == CMD_DEVTOOLS_BADGE_SUBGRID
        || id == CMD_DEVTOOLS_BADGE_TOP_LAYER
        || id == CMD_DEVTOOLS_BREAK_ON_SUBTREE_MODIFICATIONS
        || id == CMD_DEVTOOLS_BREAK_ON_ATTRIBUTE_MODIFICATIONS
        || id == CMD_DEVTOOLS_BREAK_ON_NODE_REMOVAL
}

/// Check whether a command id is on the allowlist.
pub fn is_supported_command(id: i32) -> (b: bool)
    ensures
        b == is_allowlisted(id),
{
    match id {
        CMD_BACK | CMD_FORWARD | CMD_RELOAD | CMD_PRINT | CMD_CUT | CMD_COPY | CMD_PASTE | CMD_CONTENT_OPEN_LINK_NEW_TAB | CMD_CONTENT_OPEN_LINK_NEW_WINDOW | CMD_CONTENT_COPY_LINK_LOCATION | CMD_CONTENT_SAVE_IMAGE_AS | CMD_CONTENT_COPY_IMAGE_LOCATION | CMD_CONTENT_COPY_IMAGE | CMD_CONTENT_COPY | CMD_CONTENT_CUT | CMD_CONTENT_PASTE | CMD_CONTENT_UNDO | CMD_CONTENT_REDO | CMD_CONTENT_SELECT_ALL | CMD_CONTENT_PASTE_AND_MATCH_STYLE | CMD_CONTENT_INSPECT_ELEMENT | CMD_DEVTOOLS_STORE_AS_GLOBAL_VARIABLE | CMD_DEVTOOLS_ADD_ATTRIBUTE | CMD_DEVTOOLS_EDIT_ATTRIBUTE | CMD_DEVTOOLS_EDIT_AS_HTML | CMD_DEVTOOLS_CUT | CMD_DEVTOOLS_COPY_OUTER_HTML | CMD_DEVTOOLS_COPY_SELECTOR | CMD_DEVTOOLS_COPY_JS_PATH | CMD_DEVTOOLS_COPY_STYLES | CMD_DEVTOOLS_COPY_XPATH | CMD_DEVTOOLS_COPY_FULL_XPATH | CMD_DEVTOOLS_COPY_ELEMENT | CMD_DEVTOOLS_DUPLICATE_ELEMENT | CMD_DEVTOOLS_PASTE | CMD_DEVTOOLS_HIDE_ELEMENT | CMD_DEVTOOLS_DELETE_ELEMENT | CMD_DEVTOOLS_EXPAND_RECURSIVELY | CMD_DEVTOOLS_COLLAPSE_CHILDREN | CMD_DEVTOOLS_FORCE_STATE_ACTIVE | CMD_DEVTOOLS_FORCE_STATE_HOVER | CMD_DEVTOOLS_FORCE_STATE_FOCUS | CMD_DEVTOOLS_FORCE_STATE_VISITED | CMD_DEVTOOLS_FORCE_STATE_FOCUS_WITHIN | CMD_DEVTOOLS_FORCE_STATE_FOCUS_VISIBLE | CMD_DEVTOOLS_SCROLL_INTO_VIEW | CMD_DEVTOOLS_FOCUS | CMD_DEVTOOLS_BADGE_AD | CMD_DEVTOOLS_BADGE_CONTAINER | CMD_DEVTOOLS_BADGE_FLEX | CMD_DEVTOOLS_BADGE_GRID | CMD_DEVTOOLS_BADGE_GRID_LANES | CMD_DEVTOOLS_BADGE_MEDIA | CMD_DEVTOOLS_BADGE_POPOVER | CMD_DEVTOOLS_BADGE_REVEAL | CMD_DEVTOOLS_BADGE_SCROLL | CMD_DEVTOOLS_BADGE_SCROLL_SNAP | CMD_DEVTOOLS_BADGE_SLOT | CMD_DEVTOOLS_BADGE_VIEW_SOURCE | CMD_DEVTOOLS_BADGE_STARTING_STYLE | CMD_DEVTOOLS_BADGE_SUBGRID | CMD_DEVTOOLS_BADGE_TOP_LAYER | CMD_DEVTOOLS_BREAK_ON_SUBTREE_MODIFICATIONS | CMD_DEVTOOLS_BREAK_ON_ATTRIBUTE_MODIFICATIONS | CMD_DEVTOOLS_BREAK_ON_NODE_REMOVAL => true,
        _ => false,
    }
}

/// Check whether a command id represents "open link in new tab".
pub fn is_open_link_new_tab(command_id: i32) -> (b: bool)
    ensures
        b == (command_id == CMD_CONTENT_OPEN_LINK_NEW_TAB),
{
    command_id == CMD_CONTENT_OPEN_LINK_NEW_TAB
}

/// Check whether a command id represents "open link in new window".
pub fn is_open_link_new_window(command_id: i32) -> (b: bool)
    ensures
        b == (command_id == CMD_CONTENT_OPEN_LINK_NEW_WINDOW),
{
    command_id == CMD_CONTENT_OPEN_LINK_NEW_WINDOW
}

/// A menu item seen as a tree: its own fields, and the views of its children.
pub struct MenuItemView {
    pub item_type: ChromeContextMenuItemType,
    pub command_id: i32,
    pub label: String,
    pub secondary_label: String,
    pub minor_text: String,
    pub accessible_name: String,
    pub enabled: bool,
    pub visible: bool,
    pub checked: bool,
    pub group_id: i32,
    pub is_new_feature: bool,
    pub is_alerted: bool,
    pub may_have_mnemonics: bool,
    pub accelerator: Option<ChromeContextMenuAccelerator>,
    pub icon: Option<ChromeContextMenuIcon>,
    pub minor_icon: Option<ChromeContextMenuIcon>,
    pub submenu: Seq<MenuItemView>,
}

/// The tree view of a list of items.
pub open spec fn items_view(items: Seq<ChromeContextMenuItem>) -> Seq<MenuItemView>
    decreases items, 0int,
{
    if items.len() == 0 {
        Seq::empty()
    } else {
        proof {
            assert(decreases_to!(items => items[items.len() - 1]));
        }
        items_view(items.subrange(0, items.len() - 1)).push(item_view(items[items.len() - 1]))
    }
}

/// The tree view of one item.
pub open spec fn item_view(item: ChromeContextMenuItem) -> MenuItemView
    decreases item, 1int,
{
    proof {
        assert(decreases_to!(item => item.submenu));
        assert(decreases_to!(item.submenu => item.submenu@));
    }
    MenuItemView {
        item_type: item.item_type,
        command_id: item.command_id,
        label: item.label,
        secondary_label: item.secondary_label,
        minor_text: item.minor_text,
        accessible_name: item.accessible_name,
        enabled: item.enabled,
        visible: item.visible,
        checked: item.checked,
        group_id: item.group_id,
        is_new_feature: item.is_new_feature,
        is_alerted: item.is_alerted,
        may_have_mnemonics: item.may_have_mnemonics,
        accelerator: item.accelerator,
        icon: item.icon,
        minor_icon: item.minor_icon,
        submenu: items_view(item.submenu@),
    }
}

/// The view of a list has one entry per item, in order.
pub proof fn lemma_items_view_index(items: Seq<ChromeContextMenuItem>)
    ensures
        items_view(items).len() == items.len(),
        forall|i: int| 0 <= i < items.len() ==> #[trigger] items_view(items)[i] == item_view(items[i]),
    decreases items.len(),
{
    if items.len() > 0 {
        lemma_items_view_index(items.subrange(0, items.len() - 1));
    }
}

/// Views of sublists are sublists of the view.
pub proof fn lemma_items_view_subrange(items: Seq<ChromeContextMenuItem>, lo: int, hi: int)
    requires
        0 <= lo <= hi <= items.len(),
    ensures
        items_view(items.subrange(lo, hi)) == items_view(items).subrange(lo, hi),
{
    lemma_items_view_index(items);
    lemma_items_view_index(items.subrange(lo, hi));
    assert(items_view(items.subrange(lo, hi)) =~= items_view(items).subrange(lo, hi));
}

/// Appending an item appends its view.
pub proof fn lemma_items_view_push(items: Seq<ChromeContextMenuItem>, item: ChromeContextMenuItem)
    ensures
        items_view(items.push(item)) == items_view(items).push(item_view(item)),
{
    assert(items.push(item).subrange(0, items.len() as int) =~= items);
}

pub open spec fn is_separator(v: MenuItemView) -> bool {
    v.item_type == ChromeContextMenuItemType::Separator
}

pub open spec fn is_submenu(v: MenuItemView) -> bool {
    v.item_type == ChromeContextMenuItemType::Submenu || v.item_type
        == ChromeContextMenuItemType::ActionableSubmenu
}

/// Drop each separator that follows a separator, or that would come first;
/// `after_separator` tells whether the items kept so far end in one (or are none).
pub open spec fn collapse_separators(vs: Seq<MenuItemView>, after_separator: bool) -> Seq<MenuItemView>
    decreases vs.len(),
{
    if vs.len() == 0 {
        Seq::empty()
    } else if is_separator(vs[0]) {
        if after_separator {
            collapse_separators(vs.subrange(1, vs.len() as int), true)
        } else {
            seq![vs[0]] + collapse_separators(vs.subrange(1, vs.len() as int), true)
        }
    } else {
        seq![vs[0]] + collapse_separators(vs.subrange(1, vs.len() as int), false)
    }
}

/// A list with no leading, trailing or doubled separators, the other items
/// kept in order.
pub open spec fn spec_trim(vs: Seq<MenuItemView>) -> Seq<MenuItemView> {
    let c = collapse_separators(vs, true);
    if c.len() > 0 && is_separator(c.last()) {
        c.subrange(0, c.len() - 1)
    } else {
        c
    }
}

/// Keep separators, submenus whose filtered children are not empty (with the
/// filtered children), and items whose command is on the allowlist.
pub open spec fn spec_keep(vs: Seq<MenuItemView>) -> Seq<MenuItemView>
    decreases vs, 0int,
{
    if vs.len() == 0 {
        Seq::empty()
    } else {
        let last = vs[vs.len() - 1];
        let rest = spec_keep(vs.subrange(0, vs.len() - 1));
        if is_separator(last) {
            rest.push(last)
        } else if is_submenu(last) {
            proof {
                assert(decreases_to!(vs => last));
            }
            let children = spec_filter(last.submenu);
            if children.len() == 0 {
                rest
            } else {
                rest.push(MenuItemView { submenu: children, ..last })
            }
        } else if is_allowlisted(last.command_id) {
            rest.push(last)
        } else {
            rest
        }
    }
}

/// The items of a menu that the host can carry out, with separators tidied.
pub open spec fn spec_filter(vs: Seq<MenuItemView>) -> Seq<MenuItemView>
    decreases vs, 1int,
{
    spec_trim(spec_keep(vs))
}

/// Drop leading, trailing and doubled separators, keeping every other item in order.
pub fn trim_menu_separators(items: Vec<ChromeContextMenuItem>) -> (out: Vec<ChromeContextMenuItem>)
    ensures
        items_view(out@) == spec_trim(items_view(items@)),
{
    let ghost all = items_view(items@);
    let mut remaining = items;
    let mut trimmed: Vec<ChromeContextMenuItem> = Vec::new();
    let mut last_was_separator = true;
    proof {
        lemma_items_view_subrange(remaining@, 0, remaining@.len() as int);
        assert(remaining@.subrange(0, remaining@.len() as int) =~= remaining@);
    }
    while remaining.len() > 0
        invariant
            items_view(trimmed@) + collapse_separators(items_view(remaining@), last_was_separator)
                == collapse_separators(all, true),
            (trimmed@.len() == 0 || is_separator(item_view(trimmed@.last()))) <==> last_was_separator,
        decreases remaining@.len(),
    {
        let ghost before = remaining@;
        let ghost flag = last_was_separator;
        let ghost t0 = items_view(trimmed@);
        let item = remaining.remove(0);
        proof {
            lemma_items_view_index(before);
            lemma_items_view_subrange(before, 1, before.len() as int);
            assert(remaining@ =~= before.subrange(1, before.len() as int));
            assert(items_view(before)[0] == item_view(item));
            lemma_items_view_push(trimmed@, item);
            let bv = items_view(before);
            assert(bv.subrange(1, bv.len() as int) == items_view(remaining@));
            assert(collapse_separators(bv, flag) == (if is_separator(bv[0]) {
                if flag {
                    collapse_separators(items_view(remaining@), true)
                } else {
                    seq![bv[0]] + collapse_separators(items_view(remaining@), true)
                }
            } else {
                seq![bv[0]] + collapse_separators(items_view(remaining@), false)
            }));
        }
        let separator = matches!(item.item_type, ChromeContextMenuItemType::Separator);
        if separator {
            if !last_was_separator {
                trimmed.push(item);
                proof {
                    assert(items_view(trimmed@).last() == item_view(item));
                }
                last_was_separator = true;
                proof {
                    assert(t0 + (seq![item_view(item)] + collapse_separators(items_view(remaining@), true))
                        =~= items_view(trimmed@) + collapse_separators(items_view(remaining@), true));
                }
            }
        } else {
            trimmed.push(item);
            last_was_separator = false;
            proof {
                assert(t0 + (seq![item_view(item)] + collapse_separators(items_view(remaining@), false))
                    =~= items_view(trimmed@) + collapse_separators(items_view(remaining@), false));
            }
        }
    }
    proof {
        assert(collapse_separators(items_view(remaining@), last_was_separator) =~= Seq::<MenuItemView>::empty());
        assert(items_view(trimmed@) + Seq::<MenuItemView>::empty() =~= items_view(trimmed@));
    }
    if trimmed.len() > 0 && matches!(trimmed[trimmed.len() - 1].item_type, ChromeContextMenuItemType::Separator) {
        let ghost before = trimmed@;
        trimmed.pop();
        proof {
            lemma_items_view_index(before);
            lemma_items_view_subrange(before, 0, before.len() - 1);
            assert(trimmed@ =~= before.subrange(0, before.len() - 1));
        }
    } else {
        proof {
            lemma_items_view_index(trimmed@);
        }
    }
    trimmed
}

/// Keep separators, non-empty filtered submenus and allowlisted commands.
fn keep_items(items: Vec<ChromeContextMenuItem>) -> (out: Vec<ChromeContextMenuItem>)
    ensures
        items_view(out@) == spec_keep(items_view(items@)),
    decreases items@, 0int,
{
    let ghost orig = items@;
    let mut items = items;
    match items.pop() {
        None => {
            proof {
                assert(orig.len() == 0);
            }
            Vec::new()
        },
        Some(last) => {
            proof {
                lemma_items_view_index(orig);
                lemma_items_view_subrange(orig, 0, orig.len() - 1);
                assert(items@ =~= orig.subrange(0, orig.len() - 1));
                assert(decreases_to!(orig => items@));
            }
            let mut rest = keep_items(items);
            let ghost rest_view = items_view(rest@);
            let ghost lv = item_view(last);
            proof {
                lemma_items_view_push(rest@, last);
                assert(items_view(orig)[orig.len() - 1] == lv);
                assert(items_view(orig).subrange(0, orig.len() - 1) == items_view(items@));
            }
            match last.item_type {
                ChromeContextMenuItemType::Separator => {
                    rest.push(last);
                },
                ChromeContextMenuItemType::Submenu | ChromeContextMenuItemType::ActionableSubmenu => {
                    let mut item = last;
                    let mut children: Vec<ChromeContextMenuItem> = Vec::new();
                    std::mem::swap(&mut children, &mut item.submenu);
                    proof {
                        assert(decreases_to!(orig => orig[orig.len() - 1]));
                        assert(decreases_to!(orig[orig.len() - 1] => orig[orig.len() - 1].submenu));
                        assert(decreases_to!(orig[orig.len() - 1].submenu => children@));
                    }
                    let filtered = filter_items(children);
                    if filtered.len() > 0 {
                        item.submenu = filtered;
                        proof {
                            assert(item_view(item) == (MenuItemView { submenu: spec_filter(lv.submenu), ..lv }));
                            lemma_items_view_push(rest@, item);
                        }
                        rest.push(item);
                    } else {
                        proof {
                            lemma_items_view_index(filtered@);
                        }
                    }
                },
                _ => {
                    if is_supported_command(last.command_id) {
                        rest.push(last);
                    }
                },
            }
            rest
        },
    }
}

/// The items that the host can carry out, with separators tidied.
fn filter_items(items: Vec<ChromeContextMenuItem>) -> (out: Vec<ChromeContextMenuItem>)
    ensures
        items_view(out@) == spec_filter(items_view(items@)),
    decreases items@, 1int,
{
    let kept = keep_items(items);
    trim_menu_separators(kept)
}

/// Keep only the menu entries that the host can carry out: allowlisted
/// commands, separators between them, and submenus that keep an entry.
pub fn filter_supported(menu: ChromeContextMenu) -> (out: ChromeContextMenu)
    ensures
        out.menu_id == menu.menu_id,
        out.x == menu.x,
        out.y == menu.y,
        out.source_type == menu.source_type,
        items_view(out.items@) == spec_filter(items_view(menu.items@)),
{
    let ChromeContextMenu { menu_id, x, y, source_type, items } = menu;
    let items = filter_items(items);
    ChromeContextMenu { menu_id, x, y, source_type, items }
}

/// No separator comes first, last, or right after another separator.
pub open spec fn separators_tidy(vs: Seq<MenuItemView>) -> bool {
    &&& (vs.len() > 0 ==> !is_separator(vs[0]) && !is_separator(vs[vs.len() - 1]))
    &&& forall|i: int| 0 <= i < vs.len() - 1 ==> !(#[trigger] is_separator(vs[i]) && is_separator(vs[i + 1]))
}

/// The items that are not separators, in order.
pub open spec fn non_separators(vs: Seq<MenuItemView>) -> Seq<MenuItemView> {
    vs.filter(not_separator())
}

pub open spec fn not_separator() -> spec_fn(MenuItemView) -> bool {
    |v: MenuItemView| !is_separator(v)
}

proof fn lemma_collapse(vs: Seq<MenuItemView>, after_separator: bool)
    ensures
        ({
            let c = collapse_separators(vs, after_separator);
            &&& after_separator && c.len() > 0 ==> !is_separator(c[0])
            &&& forall|i: int| 0 <= i < c.len() - 1 ==> !(#[trigger] is_separator(c[i]) && is_separator(c[i + 1]))
            &&& non_separators(c) == non_separators(vs)
        }),
    decreases vs.len(),
{
    if vs.len() > 0 {
        let rest = vs.subrange(1, vs.len() as int);
        let sep = is_separator(vs[0]);
        lemma_collapse(rest, true);
        lemma_collapse(rest, false);
        let c = collapse_separators(vs, after_separator);
        let cr = collapse_separators(rest, sep);
        assert(vs =~= seq![vs[0]] + rest);
        rest.lemma_filter_prepend(vs[0], not_separator());
        if sep && after_separator {
            assert(c == cr);
        } else {
            assert(c == seq![vs[0]] + cr);
            cr.lemma_filter_prepend(vs[0], not_separator());
            assert forall|i: int| 0 <= i < c.len() - 1 implies !(#[trigger] is_separator(c[i]) && is_separator(c[i + 1])) by {
                if i > 0 {
                    assert(c[i] == cr[i - 1]);
                    assert(c[i + 1] == cr[i]);
                } else {
                    assert(c[1] == cr[0]);
                }
            }
        }
    }
}

/// Trimming leaves no separator first, last or doubled, and keeps every
/// other item, in order.
pub proof fn lemma_trim_tidy(vs: Seq<MenuItemView>)
    ensures
        separators_tidy(spec_trim(vs)),
        non_separators(spec_trim(vs)) == non_separators(vs),
{
    lemma_collapse(vs, true);
    let c = collapse_separators(vs, true);
    if c.len() > 0 && is_separator(c.last()) {
        let t = c.subrange(0, c.len() - 1);
        assert(c =~= t + seq![c.last()]);
        Seq::filter_distributes_over_add(t, seq![c.last()], not_separator());
        Seq::<MenuItemView>::empty().lemma_filter_prepend(c.last(), not_separator());
        assert(seq![c.last()] + Seq::<MenuItemView>::empty() =~= seq![c.last()]);
        reveal(Seq::filter);
        assert(non_separators(seq![c.last()]) =~= Seq::<MenuItemView>::empty());
        assert(non_separators(t) + Seq::<MenuItemView>::empty() =~= non_separators(t));
        if t.len() > 0 {
            assert(!(is_separator(c[c.len() - 2]) && is_separator(c[c.len() - 1])));
        }
    }
}

/// An entry the host can carry out: a separator, an allowlisted command, or
/// a submenu with at least one entry, all of them supported.
pub open spec fn entry_supported(v: MenuItemView) -> bool
    decreases v, 0int,
{
    if is_separator(v) {
        true
    } else if is_submenu(v) {
        proof {
            assert(decreases_to!(v => v.submenu));
        }
        v.submenu.len() > 0 && menu_supported(v.submenu)
    } else {
        is_allowlisted(v.command_id)
    }
}

/// Every entry of a menu level is supported.
pub open spec fn entries_supported(vs: Seq<MenuItemView>) -> bool
    decreases vs, 1int,
{
    if vs.len() == 0 {
        true
    } else {
        entries_supported(vs.subrange(0, vs.len() - 1)) && entry_supported(vs[vs.len() - 1])
    }
}

/// A menu level with tidy separators whose every entry is supported.
pub open spec fn menu_supported(vs: Seq<MenuItemView>) -> bool
    decreases vs, 2int,
{
    separators_tidy(vs) && entries_supported(vs)
}

/// `entries_supported` holds exactly when each entry is supported.
pub proof fn lemma_entries_supported(vs: Seq<MenuItemView>)
    ensures
        entries_supported(vs) <==> forall|i: int| 0 <= i < vs.len() ==> #[trigger] entry_supported(vs[i]),
    decreases vs.len(),
{
    if vs.len() > 0 {
        let prefix = vs.subrange(0, vs.len() - 1);
        lemma_entries_supported(prefix);
        assert(entries_supported(vs) == (entries_supported(prefix) && entry_supported(vs[vs.len() - 1])));
        if forall|i: int| 0 <= i < vs.len() ==> #[trigger] entry_supported(vs[i]) {
            assert forall|i: int| 0 <= i < prefix.len() implies #[trigger] entry_supported(prefix[i]) by {
                assert(prefix[i] == vs[i]);
            }
        }
        if entries_supported(vs) {
            assert forall|i: int| 0 <= i < vs.len() implies #[trigger] entry_supported(vs[i]) by {
                if i < vs.len() - 1 {
                    assert(prefix[i] == vs[i]);
                }
            }
        }
    }
}

proof fn lemma_collapse_elements(vs: Seq<MenuItemView>, after_separator: bool)
    ensures
        forall|j: int| 0 <= j < collapse_separators(vs, after_separator).len()
            ==> vs.contains(#[trigger] collapse_separators(vs, after_separator)[j]),
    decreases vs.len(),
{
    if vs.len() > 0 {
        let rest = vs.subrange(1, vs.len() as int);
        lemma_collapse_elements(rest, true);
        lemma_collapse_elements(rest, false);
        let c = collapse_separators(vs, after_separator);
        assert forall|j: int| 0 <= j < c.len() implies vs.contains(#[trigger] c[j]) by {
            let sep = is_separator(vs[0]);
            let cr = collapse_separators(rest, sep);
            if sep && after_separator {
                assert(rest.contains(c[j]));
                let k = choose|k: int| 0 <= k < rest.len() && rest[k] == c[j];
                assert(vs[k + 1] == c[j]);
            } else if j == 0 {
                assert(vs[0] == c[j]);
            } else {
                assert(c[j] == cr[j - 1]);
                assert(rest.contains(c[j]));
                let k = choose|k: int| 0 <= k < rest.len() && rest[k] == c[j];
                assert(vs[k + 1] == c[j]);
            }
        }
    }
}

proof fn lemma_keep_entries(vs: Seq<MenuItemView>)
    ensures
        forall|i: int| 0 <= i < spec_keep(vs).len() ==> #[trigger] entry_supported(spec_keep(vs)[i]),
    decreases vs, 0int,
{
    if vs.len() > 0 {
        let last = vs[vs.len() - 1];
        let prefix = vs.subrange(0, vs.len() - 1);
        lemma_keep_entries(prefix);
        let rest = spec_keep(prefix);
        let k = spec_keep(vs);
        if is_submenu(last) && !is_separator(last) {
            assert(decreases_to!(vs => last));
            assert(decreases_to!(last => last.submenu));
            lemma_filter_supported(last.submenu);
            let children = spec_filter(last.submenu);
            if children.len() > 0 {
                let node = MenuItemView { submenu: children, ..last };
                assert(entry_supported(node));
            }
        }
        assert forall|i: int| 0 <= i < k.len() implies #[trigger] entry_supported(k[i]) by {
            if i < rest.len() {
                assert(k[i] == rest[i]);
            }
        }
    }
}

/// Filtering yields a supported menu: separators are tidy at every level,
/// every command is on the allowlist, and every submenu kept has entries.
pub proof fn lemma_filter_supported(vs: Seq<MenuItemView>)
    ensures
        menu_supported(spec_filter(vs)),
    decreases vs, 3int,
{
    lemma_keep_entries(vs);
    let k = spec_keep(vs);
    lemma_trim_tidy(k);
    lemma_collapse_elements(k, true);
    let c = collapse_separators(k, true);
    let t = spec_trim(k);
    assert forall|i: int| 0 <= i < t.len() implies #[trigger] entry_supported(t[i]) by {
        assert(t[i] == c[i]);
        assert(k.contains(c[i]));
    }
    assert(spec_filter(vs) == t);
    assert(separators_tidy(t));
    lemma_entries_supported(t);
}

} // verus!
