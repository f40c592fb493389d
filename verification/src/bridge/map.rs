//! Decoding of bridge events.
//!
//! A [`BridgeEvent`] is the record the bridge fills for one event, its
//! C strings read as `String` (a null string as the empty one) and its lists
//! as `Vec`. [`parse_event`] turns it into an [`IpcEvent`].

use vstd::prelude::*;

use std::collections::BTreeMap;

use crate::bridge::event::IpcEvent;
use crate::bridge::BridgeError;
use crate::codes;
use crate::data::custom_scheme::{ChromeCustomSchemeRequest, ChromeCustomSchemeRequestMethod};
use crate::data::drag::{ChromeDragData, ChromeDragImage, ChromeDragOperations, ChromeDragStartRequest};
use crate::data::choice_menu::{
    choice_item_view, choice_items_view, choice_menu_item_type_from_ffi, choice_menu_item_type_of,
    choice_menu_text_direction_from_ffi, choice_menu_text_direction_of, lemma_choice_items_view_push,
    ChoiceItemView, ChromeChoiceMenu, ChromeChoiceMenuItem, ChromeChoiceMenuSelectionMode,
};
use crate::data::context_menu::{
    filter_supported, item_view, items_view, lemma_filter_supported, lemma_items_view_push, menu_supported, spec_filter,
    ChromeContextMenu, ChromeContextMenuAccelerator, ChromeContextMenuIcon, ChromeContextMenuItem,
    ChromeContextMenuItemType, MenuItemView,
};
use crate::data::download::{
    ChromeDownloadCompletion, ChromeDownloadId, ChromeDownloadProgress, ChromeDownloadSnapshot,
};
use crate::data::prompt_ui::{PromptUiId, PromptUiKind, PromptUiResolution};
use crate::data::{cursor, download, drag, ipc, lifecycle, prompt_ui, tab_open};
use crate::data::extension::{ChromeExtensionInfo, ChromeIconData};
use crate::data::find::ChromeFindRect;
use crate::data::ids::{PopupId, TabId};
use crate::data::ime::{
    ChromeImeBoundsUpdate, ChromeImeCompositionBounds, ChromeImeRect, ChromeTextSelectionBounds,
};
use crate::data::surface::SurfaceHandle;

verus! {

/// A rectangle as the bridge reports it.
#[derive(Debug, Clone, Copy, Default, PartialEq, Eq)]
pub struct BridgeRect {
    pub x: i32,
    pub y: i32,
    pub width: i32,
    pub height: i32,
}

/// A rendering surface handle as the bridge reports it.
#[derive(Debug, Clone, Copy, Default, PartialEq, Eq)]
pub struct BridgeSurfaceHandle {
    pub kind: u8,
    pub ca_context_id: u32,
}

/// IME composition bounds as the bridge reports them.
#[derive(Debug, Clone, Default, PartialEq, Eq)]
pub struct BridgeImeComposition {
    pub range_start: i32,
    pub range_end: i32,
    pub character_bounds: Vec<BridgeRect>,
}

/// Text selection bounds as the bridge reports them.
#[derive(Debug, Clone, Copy, Default, PartialEq, Eq)]
pub struct BridgeTextSelection {
    pub range_start: i32,
    pub range_end: i32,
    pub caret_rect: BridgeRect,
    pub first_selection_rect: BridgeRect,
}

/// IME bounds as the bridge reports them; each part counts only when flagged.
#[derive(Debug, Clone, Default, PartialEq, Eq)]
pub struct BridgeImeBounds {
    pub has_composition: bool,
    pub composition: BridgeImeComposition,
    pub has_selection: bool,
    pub selection: BridgeTextSelection,
}

/// A context menu icon; no bytes means no icon.
#[derive(Debug, Clone, Default, PartialEq, Eq)]
pub struct BridgeContextMenuIcon {
    pub png_bytes: Vec<u8>,
    pub width: u32,
    pub height: u32,
}

/// A context menu item as the bridge reports it.
#[derive(Debug, Default, PartialEq, Eq)]
pub struct BridgeContextMenuItem {
    pub item_type: u8,
    pub command_id: i32,
    pub label: String,
    pub secondary_label: String,
    pub minor_text: String,
    pub accessible_name: String,
    pub enabled: bool,
    pub visible: bool,
    pub checked: bool,
    pub group_id: i32,
    pub is_new_feature: bool,
    pub is_alerted: bool,
    pub may_have_mnemonics: bool,
    pub has_accelerator: bool,
    pub accelerator_key_equivalent: String,
    pub accelerator_modifier_mask: u32,
    pub icon: BridgeContextMenuIcon,
    pub minor_icon: BridgeContextMenuIcon,
    pub submenu: Vec<BridgeContextMenuItem>,
}

/// A context menu as the bridge reports it.
#[derive(Debug, Default, PartialEq, Eq)]
pub struct BridgeContextMenu {
    pub menu_id: u64,
    pub x: i32,
    pub y: i32,
    pub source_type: u32,
    pub items: Vec<BridgeContextMenuItem>,
}

/// A choice menu item as the bridge reports it.
#[derive(Debug, Default, PartialEq, Eq)]
pub struct BridgeChoiceMenuItem {
    pub item_type: u8,
    pub label: String,
    pub tool_tip: String,
    pub enabled: bool,
    pub checked: bool,
    pub text_direction: u8,
    pub has_text_direction_override: bool,
    pub action: u32,
    pub children: Vec<BridgeChoiceMenuItem>,
}

/// A choice menu as the bridge reports it; `item_font_size_bits` holds the
/// IEEE-754 bits of the font size.
#[derive(Debug, Default, PartialEq, Eq)]
pub struct BridgeChoiceMenu {
    pub request_id: u64,
    pub x: i32,
    pub y: i32,
    pub width: i32,
    pub height: i32,
    pub item_font_size_bits: u64,
    pub selected_item: i32,
    pub right_aligned: bool,
    pub allow_multiple_selection: bool,
    pub items: Vec<BridgeChoiceMenuItem>,
}

/// Icon data as the bridge reports it.
#[derive(Debug, Clone, Default, PartialEq, Eq)]
pub struct BridgeIconData {
    pub kind: u8,
    pub url: String,
    pub bytes: Vec<u8>,
    pub media_type: String,
}

/// Extension info as the bridge reports it.
#[derive(Debug, Clone, Default, PartialEq, Eq)]
pub struct BridgeExtensionInfo {
    pub id: String,
    pub name: String,
    pub version: String,
    pub enabled: bool,
    pub permission_names: Vec<String>,
    pub icon: BridgeIconData,
}

/// A drag image as the bridge reports it; no bytes means no image, and
/// `scale_bits` holds the IEEE-754 bits of the scale.
#[derive(Debug, Clone, Default, PartialEq, Eq)]
pub struct BridgeDragImage {
    pub png_bytes: Vec<u8>,
    pub pixel_width: u32,
    pub pixel_height: u32,
    pub scale_bits: u32,
    pub cursor_offset_x: i32,
    pub cursor_offset_y: i32,
}

/// A drag start request as the bridge reports it.
#[derive(Debug, Clone, Default, PartialEq, Eq)]
pub struct BridgeDragStartRequest {
    pub session_id: u64,
    pub tab_id: u64,
    pub allowed_operations: u32,
    pub source_origin: String,
    pub data: ChromeDragData,
    pub image: BridgeDragImage,
}

/// The text of a C string the bridge may leave empty: empty means absent.
pub open spec fn spec_optional_text(value: String) -> Option<String> {
    if value@.len() == 0 {
        None
    } else {
        Some(value)
    }
}

/// Read a C string the bridge may leave empty: empty means absent.
pub fn optional_string_from_ffi(value: String) -> (r: Option<String>)
    ensures
        r == spec_optional_text(value),
{
    if value.as_str().is_empty() {
        None
    } else {
        Some(value)
    }
}

/// A value that counts only when its flag is set.
pub open spec fn spec_flagged<T>(flag: bool, value: T) -> Option<T> {
    if flag {
        Some(value)
    } else {
        None
    }
}

pub open spec fn spec_ime_rect(rect: BridgeRect) -> ChromeImeRect {
    ChromeImeRect { x: rect.x, y: rect.y, width: rect.width, height: rect.height }
}

/// An IME rectangle from a bridge rectangle.
pub fn rect_from_ffi(rect: BridgeRect) -> (r: ChromeImeRect)
    ensures
        r == spec_ime_rect(rect),
{
    ChromeImeRect { x: rect.x, y: rect.y, width: rect.width, height: rect.height }
}

pub open spec fn spec_find_rect(rect: BridgeRect) -> ChromeFindRect {
    ChromeFindRect { x: rect.x, y: rect.y, width: rect.width, height: rect.height }
}

/// A find-reply rectangle from a bridge rectangle.
pub fn find_rect_from_ffi(rect: BridgeRect) -> (r: ChromeFindRect)
    ensures
        r == spec_find_rect(rect),
{
    ChromeFindRect { x: rect.x, y: rect.y, width: rect.width, height: rect.height }
}

/// The text selection bounds of a bridge record.
pub open spec fn spec_selection(selection: BridgeTextSelection) -> ChromeTextSelectionBounds {
    ChromeTextSelectionBounds {
        range_start: selection.range_start,
        range_end: selection.range_end,
        caret_rect: spec_ime_rect(selection.caret_rect),
        first_selection_rect: spec_ime_rect(selection.first_selection_rect),
    }
}

/// IME bounds: the composition and the selection, each present when flagged;
/// the composition's character bounds in order.
pub open spec fn ime_bounds_parsed(raw: BridgeImeBounds, update: ChromeImeBoundsUpdate) -> bool {
    &&& update.selection == spec_flagged(raw.has_selection, spec_selection(raw.selection))
    &&& (update.composition is Some <==> raw.has_composition)
    &&& update.composition matches Some(c) ==> {
        &&& c.range_start == raw.composition.range_start
        &&& c.range_end == raw.composition.range_end
        &&& c.character_bounds@ == raw.composition.character_bounds@.map_values(
            |r: BridgeRect| spec_ime_rect(r),
        )
    }
}

/// Decode the IME bounds of an event.
pub fn parse_ime_bounds(update: BridgeImeBounds) -> (r: ChromeImeBoundsUpdate)
    ensures
        ime_bounds_parsed(update, r),
{
    let BridgeImeBounds { has_composition, composition, has_selection, selection } = update;
    let composition_bounds = if has_composition {
        let list = composition.character_bounds;
        let mut rects: Vec<ChromeImeRect> = Vec::new();
        let mut i: usize = 0;
        while i < list.len()
            invariant
                0 <= i <= list@.len(),
                rects@ == list@.subrange(0, i as int).map_values(|r: BridgeRect| spec_ime_rect(r)),
            decreases list@.len() - i,
        {
            let rect = rect_from_ffi(list[i]);
            rects.push(rect);
            proof {
                assert(list@.subrange(0, i + 1) =~= list@.subrange(0, i as int).push(list@[i as int]));
                assert(rects@ =~= list@.subrange(0, i + 1).map_values(|r: BridgeRect| spec_ime_rect(r)));
            }
            i = i + 1;
        }
        proof {
            assert(list@.subrange(0, list@.len() as int) =~= list@);
        }
        Some(
            ChromeImeCompositionBounds {
                range_start: composition.range_start,
                range_end: composition.range_end,
                character_bounds: rects,
            },
        )
    } else {
        None
    };
    let selection_bounds = if has_selection {
        Some(
            ChromeTextSelectionBounds {
                range_start: selection.range_start,
                range_end: selection.range_end,
                caret_rect: rect_from_ffi(selection.caret_rect),
                first_selection_rect: rect_from_ffi(selection.first_selection_rect),
            },
        )
    } else {
        None
    };
    ChromeImeBoundsUpdate { composition: composition_bounds, selection: selection_bounds }
}

/// The icon data a bridge record describes: nothing for an empty URL or
/// empty bytes, and nothing for an unknown kind.
pub open spec fn spec_icon_data(icon: BridgeIconData) -> Option<ChromeIconData> {
    if icon.kind == codes::ICON_DATA_URL {
        if icon.url@.len() == 0 {
            None
        } else {
            Some(ChromeIconData::Url(icon.url))
        }
    } else if icon.kind == codes::ICON_DATA_PNG {
        if icon.bytes@.len() == 0 {
            None
        } else {
            Some(ChromeIconData::Png(icon.bytes))
        }
    } else if icon.kind == codes::ICON_DATA_BINARY {
        if icon.bytes@.len() == 0 {
            None
        } else {
            Some(
                ChromeIconData::Binary {
                    media_type: spec_optional_text(icon.media_type),
                    bytes: icon.bytes,
                },
            )
        }
    } else {
        None
    }
}

/// Decode icon data.
pub fn parse_icon_data(icon: BridgeIconData) -> (r: Option<ChromeIconData>)
    ensures
        r == spec_icon_data(icon),
{
    let BridgeIconData { kind, url, bytes, media_type } = icon;
    if kind == codes::ICON_DATA_URL {
        if url.as_str().is_empty() {
            None
        } else {
            Some(ChromeIconData::Url(url))
        }
    } else if kind == codes::ICON_DATA_PNG {
        if bytes.len() == 0 {
            None
        } else {
            Some(ChromeIconData::Png(bytes))
        }
    } else if kind == codes::ICON_DATA_BINARY {
        if bytes.len() == 0 {
            None
        } else {
            let media_type = optional_string_from_ffi(media_type);
            Some(ChromeIconData::Binary { media_type, bytes })
        }
    } else {
        None
    }
}

pub open spec fn spec_extension_info(info: BridgeExtensionInfo) -> ChromeExtensionInfo {
    ChromeExtensionInfo {
        id: info.id,
        name: info.name,
        version: info.version,
        enabled: info.enabled,
        permission_names: info.permission_names,
        icon: spec_icon_data(info.icon),
    }
}

/// Decode a list of extensions, in order.
pub fn parse_extension_list(list: Vec<BridgeExtensionInfo>) -> (r: Vec<ChromeExtensionInfo>)
    ensures
        r@ == list@.map_values(|info: BridgeExtensionInfo| spec_extension_info(info)),
{
    let ghost orig = list@;
    let mut rest = list;
    let mut out: Vec<ChromeExtensionInfo> = Vec::new();
    while rest.len() > 0
        invariant
            out@ + rest@.map_values(|info: BridgeExtensionInfo| spec_extension_info(info))
                == orig.map_values(|info: BridgeExtensionInfo| spec_extension_info(info)),
        decreases rest@.len(),
    {
        let ghost before = rest@;
        let info = rest.remove(0);
        let BridgeExtensionInfo { id, name, version, enabled, permission_names, icon } = info;
        let icon = parse_icon_data(icon);
        out.push(ChromeExtensionInfo { id, name, version, enabled, permission_names, icon });
        proof {
            assert(before =~= seq![info] + rest@);
            assert(before.map_values(|info: BridgeExtensionInfo| spec_extension_info(info))
                =~= seq![spec_extension_info(info)] + rest@.map_values(
                |info: BridgeExtensionInfo| spec_extension_info(info),
            ));
        }
    }
    proof {
        assert(out@ =~= orig.map_values(|info: BridgeExtensionInfo| spec_extension_info(info)));
    }
    out
}

/// The drag image a bridge record describes: none without bytes.
pub open spec fn spec_drag_image(image: BridgeDragImage) -> Option<ChromeDragImage> {
    if image.png_bytes@.len() == 0 {
        None
    } else {
        Some(
            ChromeDragImage {
                png_bytes: image.png_bytes,
                pixel_width: image.pixel_width,
                pixel_height: image.pixel_height,
                scale_bits: image.scale_bits,
                cursor_offset_x: image.cursor_offset_x,
                cursor_offset_y: image.cursor_offset_y,
            },
        )
    }
}

/// Decode a drag image.
pub fn parse_drag_image(image: BridgeDragImage) -> (r: Option<ChromeDragImage>)
    ensures
        r == spec_drag_image(image),
{
    if image.png_bytes.len() == 0 {
        None
    } else {
        let BridgeDragImage {
            png_bytes,
            pixel_width,
            pixel_height,
            scale_bits,
            cursor_offset_x,
            cursor_offset_y,
        } = image;
        Some(
            ChromeDragImage {
                png_bytes,
                pixel_width,
                pixel_height,
                scale_bits,
                cursor_offset_x,
                cursor_offset_y,
            },
        )
    }
}

pub open spec fn spec_drag_start_request(request: BridgeDragStartRequest) -> ChromeDragStartRequest {
    ChromeDragStartRequest {
        session_id: request.session_id,
        browsing_context_id: TabId(request.tab_id),
        allowed_operations: ChromeDragOperations(request.allowed_operations),
        source_origin: request.source_origin,
        data: request.data,
        image: spec_drag_image(request.image),
    }
}

/// Decode a drag start request.
pub fn parse_drag_start_request(request: BridgeDragStartRequest) -> (r: ChromeDragStartRequest)
    ensures
        r == spec_drag_start_request(request),
{
    let BridgeDragStartRequest { session_id, tab_id, allowed_operations, source_origin, data, image } =
        request;
    ChromeDragStartRequest {
        session_id,
        browsing_context_id: TabId::new(tab_id),
        allowed_operations: ChromeDragOperations::from_bits(allowed_operations),
        source_origin,
        data,
        image: parse_drag_image(image),
    }
}

/// The method of a custom scheme request: `GET` is named, any other kept as text.
pub open spec fn spec_request_method(value: String) -> ChromeCustomSchemeRequestMethod {
    if value@ == "GET"@ {
        ChromeCustomSchemeRequestMethod::Get
    } else {
        ChromeCustomSchemeRequestMethod::Other(value)
    }
}

/// Decode the method of a custom scheme request.
pub fn custom_scheme_request_method_from_ffi(value: String) -> (r: ChromeCustomSchemeRequestMethod)
    ensures
        r == spec_request_method(value),
{
    let get = String::from_str("GET");
    if value == get {
        ChromeCustomSchemeRequestMethod::Get
    } else {
        ChromeCustomSchemeRequestMethod::Other(value)
    }
}

/// Decode a rendering surface handle; a kind without a decoding is an invalid event.
pub open spec fn spec_surface_handle(handle: BridgeSurfaceHandle) -> Result<SurfaceHandle, BridgeError> {
    if handle.kind == codes::SURFACE_HANDLE_MAC_CA_CONTEXT_ID {
        Ok(SurfaceHandle::MacCaContextId(handle.ca_context_id))
    } else {
        Err(BridgeError::InvalidEvent)
    }
}

/// Decode a rendering surface handle. Windows window handles have no
/// decoding yet, so they are left out.
pub fn parse_surface_handle(handle: BridgeSurfaceHandle) -> (r: Result<SurfaceHandle, BridgeError>)
    requires
        handle.kind != codes::SURFACE_HANDLE_WINDOWS_HWND,
    ensures
        r == spec_surface_handle(handle),
{
    if handle.kind == codes::SURFACE_HANDLE_MAC_CA_CONTEXT_ID {
        Ok(SurfaceHandle::MacCaContextId(handle.ca_context_id))
    } else {
        Err(BridgeError::InvalidEvent)
    }
}

/// The value a context menu item type code decodes to.
pub open spec fn context_menu_item_type_of(value: u8) -> ChromeContextMenuItemType {
    if value == codes::MENU_ITEM_COMMAND {
        ChromeContextMenuItemType::Command
    } else if value == codes::MENU_ITEM_CHECK {
        ChromeContextMenuItemType::Check
    } else if value == codes::MENU_ITEM_RADIO {
        ChromeContextMenuItemType::Radio
    } else if value == codes::MENU_ITEM_SEPARATOR {
        ChromeContextMenuItemType::Separator
    } else if value == codes::MENU_ITEM_BUTTON_ITEM {
        ChromeContextMenuItemType::ButtonItem
    } else if value == codes::MENU_ITEM_SUBMENU {
        ChromeContextMenuItemType::Submenu
    } else if value == codes::MENU_ITEM_ACTIONABLE_SUBMENU {
        ChromeContextMenuItemType::ActionableSubmenu
    } else if value == codes::MENU_ITEM_HIGHLIGHTED {
        ChromeContextMenuItemType::Highlighted
    } else if value == codes::MENU_ITEM_TITLE {
        ChromeContextMenuItemType::Title
    } else {
        ChromeContextMenuItemType::Command
    }
}

/// Decode a context menu item type; unknown codes read as a command.
pub fn context_menu_item_type_from_ffi(value: u8) -> (t: ChromeContextMenuItemType)
    ensures
        t == context_menu_item_type_of(value),
{
    match value {
        codes::MENU_ITEM_COMMAND => ChromeContextMenuItemType::Command,
        codes::MENU_ITEM_CHECK => ChromeContextMenuItemType::Check,
        codes::MENU_ITEM_RADIO => ChromeContextMenuItemType::Radio,
        codes::MENU_ITEM_SEPARATOR => ChromeContextMenuItemType::Separator,
        codes::MENU_ITEM_BUTTON_ITEM => ChromeContextMenuItemType::ButtonItem,
        codes::MENU_ITEM_SUBMENU => ChromeContextMenuItemType::Submenu,
        codes::MENU_ITEM_ACTIONABLE_SUBMENU => ChromeContextMenuItemType::ActionableSubmenu,
        codes::MENU_ITEM_HIGHLIGHTED => ChromeContextMenuItemType::Highlighted,
        codes::MENU_ITEM_TITLE => ChromeContextMenuItemType::Title,
        _ => ChromeContextMenuItemType::Command,
    }
}

/// The icon a bridge record describes: none without bytes.
pub open spec fn spec_menu_icon(icon: BridgeContextMenuIcon) -> Option<ChromeContextMenuIcon> {
    if icon.png_bytes@.len() == 0 {
        None
    } else {
        Some(ChromeContextMenuIcon { png_bytes: icon.png_bytes, width: icon.width, height: icon.height })
    }
}

/// Decode a context menu icon.
pub fn parse_context_menu_icon(icon: BridgeContextMenuIcon) -> (r: Option<ChromeContextMenuIcon>)
    ensures
        r == spec_menu_icon(icon),
{
    if icon.png_bytes.len() == 0 {
        None
    } else {
        let BridgeContextMenuIcon { png_bytes, width, height } = icon;
        Some(ChromeContextMenuIcon { png_bytes, width, height })
    }
}

/// The tree view of bridge menu items.
pub open spec fn bridge_items_view(items: Seq<BridgeContextMenuItem>) -> Seq<MenuItemView>
    decreases items, 0int,
{
    if items.len() == 0 {
        Seq::empty()
    } else {
        proof {
            assert(decreases_to!(items => items[items.len() - 1]));
        }
        bridge_items_view(items.subrange(0, items.len() - 1)).push(
            bridge_item_view(items[items.len() - 1]),
        )
    }
}

/// The tree view of a bridge menu item: its type decoded, its accelerator
/// present when flagged, its icons present when they have bytes.
pub open spec fn bridge_item_view(item: BridgeContextMenuItem) -> MenuItemView
    decreases item, 1int,
{
    proof {
        assert(decreases_to!(item => item.submenu));
        assert(decreases_to!(item.submenu => item.submenu@));
    }
    MenuItemView {
        item_type: context_menu_item_type_of(item.item_type),
        command_id: item.command_id,
        label: item.label,
        secondary_label: item.secondary_label,
        minor_text: item.minor_text,
        accessible_name: item.accessible_name,
        enabled: item.enabled,
        visible: item.visible,
        checked: item.checked,
        group_id: item.group_id,
        is_new_feature: item.is_new_feature,
        is_alerted: item.is_alerted,
        may_have_mnemonics: item.may_have_mnemonics,
        accelerator: spec_flagged(
            item.has_accelerator,
            ChromeContextMenuAccelerator {
                key_equivalent: item.accelerator_key_equivalent,
                modifier_mask: item.accelerator_modifier_mask,
            },
        ),
        icon: spec_menu_icon(item.icon),
        minor_icon: spec_menu_icon(item.minor_icon),
        submenu: bridge_items_view(item.submenu@),
    }
}

/// Decode one context menu item and its submenu.
fn parse_context_menu_item(item: BridgeContextMenuItem) -> (out: ChromeContextMenuItem)
    ensures
        item_view(out) == bridge_item_view(item),
    decreases item, 1int,
{
    let ghost orig = item;
    let BridgeContextMenuItem {
        item_type,
        command_id,
        label,
        secondary_label,
        minor_text,
        accessible_name,
        enabled,
        visible,
        checked,
        group_id,
        is_new_feature,
        is_alerted,
        may_have_mnemonics,
        has_accelerator,
        accelerator_key_equivalent,
        accelerator_modifier_mask,
        icon,
        minor_icon,
        submenu,
    } = item;
    proof {
        assert(decreases_to!(orig => orig.submenu));
        assert(decreases_to!(orig.submenu => submenu@));
    }
    let submenu = parse_context_menu_items(submenu);
    let accelerator = if has_accelerator {
        Some(
            ChromeContextMenuAccelerator {
                key_equivalent: accelerator_key_equivalent,
                modifier_mask: accelerator_modifier_mask,
            },
        )
    } else {
        None
    };
    ChromeContextMenuItem {
        item_type: context_menu_item_type_from_ffi(item_type),
        command_id,
        label,
        secondary_label,
        minor_text,
        accessible_name,
        enabled,
        visible,
        checked,
        group_id,
        is_new_feature,
        is_alerted,
        may_have_mnemonics,
        accelerator,
        icon: parse_context_menu_icon(icon),
        minor_icon: parse_context_menu_icon(minor_icon),
        submenu,
    }
}

/// Decode a list of context menu items, in order.
fn parse_context_menu_items(items: Vec<BridgeContextMenuItem>) -> (out: Vec<ChromeContextMenuItem>)
    ensures
        items_view(out@) == bridge_items_view(items@),
    decreases items@, 0int,
{
    let ghost orig = items@;
    let mut items = items;
    match items.pop() {
        None => {
            proof {
                assert(orig.len() == 0);
            }
            Vec::new()
        },
        Some(last) => {
            proof {
                assert(items@ =~= orig.subrange(0, orig.len() - 1));
                assert(decreases_to!(orig => items@));
                assert(decreases_to!(orig => orig[orig.len() - 1]));
            }
            let mut rest = parse_context_menu_items(items);
            let parsed = parse_context_menu_item(last);
            proof {
                lemma_items_view_push(rest@, parsed);
            }
            rest.push(parsed);
            rest
        },
    }
}

/// The fields of a context menu are kept, and its items are those the host
/// can carry out, with separators tidied.
pub open spec fn context_menu_parsed(raw: BridgeContextMenu, menu: ChromeContextMenu) -> bool {
    &&& menu.menu_id == raw.menu_id
    &&& menu.x == raw.x
    &&& menu.y == raw.y
    &&& menu.source_type == raw.source_type
    &&& items_view(menu.items@) == spec_filter(bridge_items_view(raw.items@))
}

/// Decode a context menu, keeping only the entries the host can carry out.
pub fn parse_context_menu(menu: BridgeContextMenu) -> (r: ChromeContextMenu)
    ensures
        context_menu_parsed(menu, r),
{
    let BridgeContextMenu { menu_id, x, y, source_type, items } = menu;
    let items = parse_context_menu_items(items);
    filter_supported(ChromeContextMenu { menu_id, x, y, source_type, items })
}

/// The tree view of bridge choice menu items.
pub open spec fn bridge_choice_items_view(items: Seq<BridgeChoiceMenuItem>) -> Seq<ChoiceItemView>
    decreases items, 0int,
{
    if items.len() == 0 {
        Seq::empty()
    } else {
        proof {
            assert(decreases_to!(items => items[items.len() - 1]));
        }
        bridge_choice_items_view(items.subrange(0, items.len() - 1)).push(
            bridge_choice_item_view(items[items.len() - 1]),
        )
    }
}

/// The tree view of a bridge choice menu item: codes decoded, empty texts absent.
pub open spec fn bridge_choice_item_view(item: BridgeChoiceMenuItem) -> ChoiceItemView
    decreases item, 1int,
{
    proof {
        assert(decreases_to!(item => item.children));
        assert(decreases_to!(item.children => item.children@));
    }
    ChoiceItemView {
        item_type: choice_menu_item_type_of(item.item_type),
        label: spec_optional_text(item.label),
        tool_tip: spec_optional_text(item.tool_tip),
        action: item.action,
        text_direction: choice_menu_text_direction_of(item.text_direction),
        has_text_direction_override: item.has_text_direction_override,
        enabled: item.enabled,
        checked: item.checked,
        children: bridge_choice_items_view(item.children@),
    }
}

/// Decode one choice menu item and its children.
fn parse_choice_menu_item(item: BridgeChoiceMenuItem) -> (out: ChromeChoiceMenuItem)
    ensures
        choice_item_view(out) == bridge_choice_item_view(item),
    decreases item, 1int,
{
    let ghost orig = item;
    let BridgeChoiceMenuItem {
        item_type,
        label,
        tool_tip,
        enabled,
        checked,
        text_direction,
        has_text_direction_override,
        action,
        children,
    } = item;
    proof {
        assert(decreases_to!(orig => orig.children));
        assert(decreases_to!(orig.children => children@));
    }
    let children = parse_choice_menu_items(children);
    ChromeChoiceMenuItem {
        item_type: choice_menu_item_type_from_ffi(item_type),
        label: optional_string_from_ffi(label),
        tool_tip: optional_string_from_ffi(tool_tip),
        action,
        text_direction: choice_menu_text_direction_from_ffi(text_direction),
        has_text_direction_override,
        enabled,
        checked,
        children,
    }
}

/// Decode a list of choice menu items, in order.
fn parse_choice_menu_items(items: Vec<BridgeChoiceMenuItem>) -> (out: Vec<ChromeChoiceMenuItem>)
    ensures
        choice_items_view(out@) == bridge_choice_items_view(items@),
    decreases items@, 0int,
{
    let ghost orig = items@;
    let mut items = items;
    match items.pop() {
        None => {
            proof {
                assert(orig.len() == 0);
            }
            Vec::new()
        },
        Some(last) => {
            proof {
                assert(items@ =~= orig.subrange(0, orig.len() - 1));
                assert(decreases_to!(orig => items@));
                assert(decreases_to!(orig => orig[orig.len() - 1]));
            }
            let mut rest = parse_choice_menu_items(items);
            let parsed = parse_choice_menu_item(last);
            proof {
                lemma_choice_items_view_push(rest@, parsed);
            }
            rest.push(parsed);
            rest
        },
    }
}

/// The fields of a choice menu are kept, its selection mode follows the
/// multiple-selection flag, and its items are decoded in order.
pub open spec fn choice_menu_parsed(raw: BridgeChoiceMenu, menu: ChromeChoiceMenu) -> bool {
    &&& menu.request_id == raw.request_id
    &&& menu.x == raw.x
    &&& menu.y == raw.y
    &&& menu.width == raw.width
    &&& menu.height == raw.height
    &&& menu.item_font_size_bits == raw.item_font_size_bits
    &&& menu.selected_item == raw.selected_item
    &&& menu.right_aligned == raw.right_aligned
    &&& menu.selection_mode == (if raw.allow_multiple_selection {
        ChromeChoiceMenuSelectionMode::Multiple
    } else {
        ChromeChoiceMenuSelectionMode::Single
    })
    &&& choice_items_view(menu.items@) == bridge_choice_items_view(raw.items@)
}

/// Decode a choice menu.
pub fn parse_choice_menu(menu: BridgeChoiceMenu) -> (r: ChromeChoiceMenu)
    ensures
        choice_menu_parsed(menu, r),
{
    let BridgeChoiceMenu {
        request_id,
        x,
        y,
        width,
        height,
        item_font_size_bits,
        selected_item,
        right_aligned,
        allow_multiple_selection,
        items,
    } = menu;
    let selection_mode = if allow_multiple_selection {
        ChromeChoiceMenuSelectionMode::Multiple
    } else {
        ChromeChoiceMenuSelectionMode::Single
    };
    let items = parse_choice_menu_items(items);
    ChromeChoiceMenu {
        request_id,
        x,
        y,
        width,
        height,
        item_font_size_bits,
        selected_item,
        right_aligned,
        selection_mode,
        items,
    }
}

/// The prompt a bridge event describes.
pub open spec fn spec_prompt_ui_kind(
    kind: u8,
    permission: u8,
    permission_key: String,
    download_reason: u8,
    download_id: u64,
    download_file_name: String,
    download_total_bytes: u64,
    download_has_total_bytes: bool,
    download_suggested_path: String,
    extension_id: String,
    extension_name: String,
    triggering_extension_name: String,
    can_report_abuse: bool,
    permission_names: Vec<String>,
    repost_reason: u8,
    repost_target_url: String,
) -> PromptUiKind {
    if kind == codes::PROMPT_UI_KIND_PERMISSION_PROMPT {
        PromptUiKind::PermissionPrompt {
            permission: prompt_ui::prompt_ui_permission_of(permission),
            permission_key: spec_optional_text(permission_key),
        }
    } else if kind == codes::PROMPT_UI_KIND_DOWNLOAD_PROMPT {
        PromptUiKind::DownloadPrompt {
            download_id: ChromeDownloadId(download_id),
            file_name: download_file_name,
            total_bytes: spec_flagged(download_has_total_bytes, download_total_bytes),
            suggested_path: spec_optional_text(download_suggested_path),
            reason: download::download_prompt_reason_of(download_reason),
        }
    } else if kind == codes::PROMPT_UI_KIND_EXTENSION_INSTALL_PROMPT {
        PromptUiKind::ExtensionInstallPrompt { extension_id, extension_name, permission_names }
    } else if kind == codes::PROMPT_UI_KIND_EXTENSION_UNINSTALL_PROMPT {
        PromptUiKind::ExtensionUninstallPrompt {
            extension_id,
            extension_name,
            triggering_extension_name: spec_optional_text(triggering_extension_name),
            can_report_abuse,
        }
    } else if kind == codes::PROMPT_UI_KIND_PRINT_PREVIEW_DIALOG {
        PromptUiKind::PrintPreviewDialog
    } else if kind == codes::PROMPT_UI_KIND_FORM_RESUBMISSION_PROMPT {
        PromptUiKind::FormResubmissionPrompt {
            reason: prompt_ui::prompt_ui_form_resubmission_reason_of(repost_reason),
            target_url: spec_optional_text(repost_target_url),
        }
    } else {
        PromptUiKind::Unknown
    }
}

/// Decode the prompt a bridge event describes.
pub fn prompt_ui_kind_from_ffi(
    kind: u8,
    permission: u8,
    permission_key: String,
    download_reason: u8,
    download_id: u64,
    download_file_name: String,
    download_total_bytes: u64,
    download_has_total_bytes: bool,
    download_suggested_path: String,
    extension_id: String,
    extension_name: String,
    triggering_extension_name: String,
    can_report_abuse: bool,
    permission_names: Vec<String>,
    repost_reason: u8,
    repost_target_url: String,
) -> (r: PromptUiKind)
    ensures
        r == spec_prompt_ui_kind(
            kind,
            permission,
            permission_key,
            download_reason,
            download_id,
            download_file_name,
            download_total_bytes,
            download_has_total_bytes,
            download_suggested_path,
            extension_id,
            extension_name,
            triggering_extension_name,
            can_report_abuse,
            permission_names,
            repost_reason,
            repost_target_url,
        ),
{
    if kind == codes::PROMPT_UI_KIND_PERMISSION_PROMPT {
        PromptUiKind::PermissionPrompt {
            permission: prompt_ui::prompt_ui_permission_from_ffi(permission),
            permission_key: optional_string_from_ffi(permission_key),
        }
    } else if kind == codes::PROMPT_UI_KIND_DOWNLOAD_PROMPT {
        PromptUiKind::DownloadPrompt {
            download_id: ChromeDownloadId::new(download_id),
            file_name: download_file_name,
            total_bytes: if download_has_total_bytes {
                Some(download_total_bytes)
            } else {
                None
            },
            suggested_path: optional_string_from_ffi(download_suggested_path),
            reason: download::download_prompt_reason_from_ffi(download_reason),
        }
    } else if kind == codes::PROMPT_UI_KIND_EXTENSION_INSTALL_PROMPT {
        PromptUiKind::ExtensionInstallPrompt { extension_id, extension_name, permission_names }
    } else if kind == codes::PROMPT_UI_KIND_EXTENSION_UNINSTALL_PROMPT {
        PromptUiKind::ExtensionUninstallPrompt {
            extension_id,
            extension_name,
            triggering_extension_name: optional_string_from_ffi(triggering_extension_name),
            can_report_abuse,
        }
    } else if kind == codes::PROMPT_UI_KIND_PRINT_PREVIEW_DIALOG {
        PromptUiKind::PrintPreviewDialog
    } else if kind == codes::PROMPT_UI_KIND_FORM_RESUBMISSION_PROMPT {
        PromptUiKind::FormResubmissionPrompt {
            reason: prompt_ui::prompt_ui_form_resubmission_reason_from_ffi(repost_reason),
            target_url: optional_string_from_ffi(repost_target_url),
        }
    } else {
        PromptUiKind::Unknown
    }
}

/// How a prompt a bridge event describes was resolved; the one result code
/// is read in the terms of the prompt's kind.
pub open spec fn spec_prompt_ui_resolution(
    kind: u8,
    permission: u8,
    permission_key: String,
    result: u8,
    download_id: u64,
    download_destination_path: String,
    extension_id: String,
    extension_install_result: u8,
    extension_uninstall_result: u8,
    detail: String,
    report_abuse: bool,
    repost_reason: u8,
    repost_target_url: String,
) -> PromptUiResolution {
    if kind == codes::PROMPT_UI_KIND_PERMISSION_PROMPT {
        PromptUiResolution::PermissionPrompt {
            permission: prompt_ui::prompt_ui_permission_of(permission),
            permission_key: spec_optional_text(permission_key),
            result: prompt_ui::prompt_ui_resolution_result_of(result),
        }
    } else if kind == codes::PROMPT_UI_KIND_DOWNLOAD_PROMPT {
        PromptUiResolution::DownloadPrompt {
            download_id: ChromeDownloadId(download_id),
            destination_path: spec_optional_text(download_destination_path),
            result: download::download_prompt_result_of(result),
        }
    } else if kind == codes::PROMPT_UI_KIND_EXTENSION_INSTALL_PROMPT {
        PromptUiResolution::ExtensionInstallPrompt {
            extension_id,
            result: prompt_ui::prompt_ui_extension_install_result_of(extension_install_result),
            detail: spec_optional_text(detail),
        }
    } else if kind == codes::PROMPT_UI_KIND_EXTENSION_UNINSTALL_PROMPT {
        PromptUiResolution::ExtensionUninstallPrompt {
            extension_id,
            result: prompt_ui::prompt_ui_extension_uninstall_result_of(extension_uninstall_result),
            detail: spec_optional_text(detail),
            report_abuse,
        }
    } else if kind == codes::PROMPT_UI_KIND_PRINT_PREVIEW_DIALOG {
        PromptUiResolution::PrintPreviewDialog { result: prompt_ui::prompt_ui_dialog_result_of(result) }
    } else if kind == codes::PROMPT_UI_KIND_FORM_RESUBMISSION_PROMPT {
        PromptUiResolution::FormResubmissionPrompt {
            reason: prompt_ui::prompt_ui_form_resubmission_reason_of(repost_reason),
            target_url: spec_optional_text(repost_target_url),
            result: prompt_ui::prompt_ui_resolution_result_of(result),
        }
    } else {
        PromptUiResolution::Unknown
    }
}

/// Decode how a prompt was resolved.
pub fn prompt_ui_resolution_from_ffi(
    kind: u8,
    permission: u8,
    permission_key: String,
    result: u8,
    download_id: u64,
    download_destination_path: String,
    extension_id: String,
    extension_install_result: u8,
    extension_uninstall_result: u8,
    detail: String,
    report_abuse: bool,
    repost_reason: u8,
    repost_target_url: String,
) -> (r: PromptUiResolution)
    ensures
        r == spec_prompt_ui_resolution(
            kind,
            permission,
            permission_key,
            result,
            download_id,
            download_destination_path,
            extension_id,
            extension_install_result,
            extension_uninstall_result,
            detail,
            report_abuse,
            repost_reason,
            repost_target_url,
        ),
{
    if kind == codes::PROMPT_UI_KIND_PERMISSION_PROMPT {
        PromptUiResolution::PermissionPrompt {
            permission: prompt_ui::prompt_ui_permission_from_ffi(permission),
            permission_key: optional_string_from_ffi(permission_key),
            result: prompt_ui::prompt_ui_resolution_result_from_ffi(result),
        }
    } else if kind == codes::PROMPT_UI_KIND_DOWNLOAD_PROMPT {
        PromptUiResolution::DownloadPrompt {
            download_id: ChromeDownloadId::new(download_id),
            destination_path: optional_string_from_ffi(download_destination_path),
            result: download::download_prompt_result_from_ffi(result),
        }
    } else if kind == codes::PROMPT_UI_KIND_EXTENSION_INSTALL_PROMPT {
        PromptUiResolution::ExtensionInstallPrompt {
            extension_id,
            result: prompt_ui::prompt_ui_extension_install_result_from_ffi(extension_install_result),
            detail: optional_string_from_ffi(detail),
        }
    } else if kind == codes::PROMPT_UI_KIND_EXTENSION_UNINSTALL_PROMPT {
        PromptUiResolution::ExtensionUninstallPrompt {
            extension_id,
            result: prompt_ui::prompt_ui_extension_uninstall_result_from_ffi(
                extension_uninstall_result,
            ),
            detail: optional_string_from_ffi(detail),
            report_abuse,
        }
    } else if kind == codes::PROMPT_UI_KIND_PRINT_PREVIEW_DIALOG {
        PromptUiResolution::PrintPreviewDialog {
            result: prompt_ui::prompt_ui_dialog_result_from_ffi(result),
        }
    } else if kind == codes::PROMPT_UI_KIND_FORM_RESUBMISSION_PROMPT {
        PromptUiResolution::FormResubmissionPrompt {
            reason: prompt_ui::prompt_ui_form_resubmission_reason_from_ffi(repost_reason),
            target_url: optional_string_from_ffi(repost_target_url),
            result: prompt_ui::prompt_ui_resolution_result_from_ffi(result),
        }
    } else {
        PromptUiResolution::Unknown
    }
}

/// One event as the bridge reports it.
#[derive(Debug, Default, PartialEq, Eq)]
pub struct BridgeEvent {
    pub kind: u8,
    pub profile_id: String,
    pub tab_id: u64,
    pub request_id: u64,
    pub surface_handle: BridgeSurfaceHandle,
    pub extension_popup_id: u64,
    pub extension_id: String,
    pub title: String,
    pub width: i32,
    pub height: i32,
    pub context_menu: BridgeContextMenu,
    pub choice_menu: BridgeChoiceMenu,
    pub cursor_type: u8,
    pub javascript_dialog_type: u8,
    pub message: String,
    pub default_prompt_text: String,
    pub beforeunload_reason: u8,
    pub crashed: bool,
    pub inspected_tab_id: u64,
    pub ime_bounds: BridgeImeBounds,
    pub tab_open_has_source: bool,
    pub tab_open_source_tab_id: u64,
    pub target_url: String,
    pub tab_open_hint: u8,
    pub tab_open_user_gesture: bool,
    pub tab_open_result_kind: u8,
    pub tab_open_has_target: bool,
    pub tab_open_target_tab_id: u64,
    pub url: String,
    pub can_go_back: bool,
    pub can_go_forward: bool,
    pub is_loading: bool,
    pub favicon_url: String,
    pub dom_html: String,
    pub find_number_of_matches: i32,
    pub find_active_match_ordinal: i32,
    pub find_selection_rect: BridgeRect,
    pub find_final_update: bool,
    pub ipc_channel: String,
    pub ipc_message_type: u8,
    pub ipc_payload_kind: u8,
    pub ipc_payload_text: String,
    pub ipc_payload_binary: Vec<u8>,
    pub ipc_content_type: String,
    pub ipc_error_code: u8,
    pub drag_start_request: BridgeDragStartRequest,
    pub drag_operation: u32,
    pub extensions: Vec<BridgeExtensionInfo>,
    pub prompt_ui_has_source_tab_id: bool,
    pub prompt_ui_source_tab_id: u64,
    pub prompt_ui_kind: u8,
    pub prompt_ui_permission: u8,
    pub prompt_ui_permission_key: String,
    pub prompt_ui_result: u8,
    pub prompt_ui_id: u64,
    pub prompt_ui_title: String,
    pub prompt_ui_modal: bool,
    pub prompt_ui_close_reason: u8,
    pub prompt_ui_can_report_abuse: bool,
    pub prompt_ui_report_abuse: bool,
    pub prompt_ui_repost_reason: u8,
    pub prompt_ui_repost_target_url: String,
    pub permission_names: Vec<String>,
    pub extension_name: String,
    pub triggering_extension_name: String,
    pub extension_install_prompt_result: u8,
    pub extension_uninstall_prompt_result: u8,
    pub extension_install_prompt_detail: String,
    pub custom_scheme_scheme: String,
    pub custom_scheme_host: String,
    pub custom_scheme_path: String,
    pub custom_scheme_query: String,
    pub custom_scheme_method: String,
    pub extension_runtime_warning: String,
    pub download_id: u64,
    pub download_reason: u8,
    pub download_file_name: String,
    pub download_total_bytes: u64,
    pub download_has_total_bytes: bool,
    pub download_suggested_path: String,
    pub download_destination_path: String,
    pub download_has_source_tab_id: bool,
    pub download_source_tab_id: u64,
    pub download_target_path: String,
    pub download_state: u8,
    pub download_received_bytes: u64,
    pub download_can_resume: bool,
    pub download_is_paused: bool,
    pub download_outcome: u8,
}

/// Whether an event names a Windows window handle, which has no decoding yet.
pub open spec fn names_windows_surface(e: BridgeEvent) -> bool {
    (e.kind == codes::EVENT_SURFACE_HANDLE_UPDATED || e.kind
        == codes::EVENT_EXTENSION_POPUP_SURFACE_HANDLE_UPDATED) && e.surface_handle.kind
        == codes::SURFACE_HANDLE_WINDOWS_HWND
}

/// The prompt an event describes.
pub open spec fn spec_event_prompt_kind(e: BridgeEvent) -> PromptUiKind {
    spec_prompt_ui_kind(
        e.prompt_ui_kind,
        e.prompt_ui_permission,
        e.prompt_ui_permission_key,
        e.download_reason,
        e.download_id,
        e.download_file_name,
        e.download_total_bytes,
        e.download_has_total_bytes,
        e.download_suggested_path,
        e.extension_id,
        e.extension_name,
        e.triggering_extension_name,
        e.prompt_ui_can_report_abuse,
        e.permission_names,
        e.prompt_ui_repost_reason,
        e.prompt_ui_repost_target_url,
    )
}

/// The tab a prompt event comes from, when it names one.
pub open spec fn spec_prompt_source(e: BridgeEvent) -> Option<TabId> {
    spec_flagged(e.prompt_ui_has_source_tab_id, TabId(e.prompt_ui_source_tab_id))
}

/// The tab a download event comes from, when it names one.
pub open spec fn spec_download_source(e: BridgeEvent) -> Option<TabId> {
    spec_flagged(e.download_has_source_tab_id, TabId(e.download_source_tab_id))
}

/// The decoding of the events that carry no menu; an unknown kind is an invalid event.
pub open spec fn spec_parse_event(e: BridgeEvent) -> Result<IpcEvent, BridgeError> {
    let profile_id = e.profile_id;
    let tab = TabId(e.tab_id);
    let popup = PopupId(e.extension_popup_id);
    if e.kind == codes::EVENT_SURFACE_HANDLE_UPDATED {
        match spec_surface_handle(e.surface_handle) {
            Ok(handle) => Ok(IpcEvent::SurfaceHandleUpdated { profile_id, browsing_context_id: tab, handle }),
            Err(err) => Err(err),
        }
    } else if e.kind == codes::EVENT_EXTENSION_POPUP_OPENED {
        Ok(IpcEvent::ExtensionPopupOpened {
            profile_id,
            browsing_context_id: tab,
            popup_id: e.extension_popup_id,
            extension_id: e.extension_id,
            title: e.title,
        })
    } else if e.kind == codes::EVENT_EXTENSION_POPUP_SURFACE_HANDLE_UPDATED {
        match spec_surface_handle(e.surface_handle) {
            Ok(handle) => Ok(IpcEvent::ExtensionPopupSurfaceHandleUpdated {
                profile_id,
                browsing_context_id: tab,
                popup_id: e.extension_popup_id,
                handle,
            }),
            Err(err) => Err(err),
        }
    } else if e.kind == codes::EVENT_EXTENSION_POPUP_PREFERRED_SIZE_CHANGED {
        Ok(IpcEvent::ExtensionPopupPreferredSizeChanged {
            profile_id,
            browsing_context_id: tab,
            popup_id: e.extension_popup_id,
            width: e.width,
            height: e.height,
        })
    } else if e.kind == codes::EVENT_EXTENSION_POPUP_CURSOR_CHANGED {
        Ok(IpcEvent::ExtensionPopupCursorChanged {
            profile_id,
            browsing_context_id: tab,
            popup_id: popup,
            cursor_type: cursor::cursor_type_of(e.cursor_type),
        })
    } else if e.kind == codes::EVENT_EXTENSION_POPUP_TITLE_UPDATED {
        Ok(IpcEvent::ExtensionPopupTitleUpdated {
            profile_id,
            browsing_context_id: tab,
            popup_id: popup,
            title: e.title,
        })
    } else if e.kind == codes::EVENT_EXTENSION_POPUP_JAVASCRIPT_DIALOG_REQUESTED {
        Ok(IpcEvent::ExtensionPopupJavaScriptDialogRequested {
            profile_id,
            browsing_context_id: tab,
            popup_id: popup,
            request_id: e.request_id,
            dialog_type: lifecycle::javascript_dialog_type_of(e.javascript_dialog_type),
            message: e.message,
            default_prompt_text: spec_optional_text(e.default_prompt_text),
            reason: lifecycle::beforeunload_reason_of(e.beforeunload_reason),
        })
    } else if e.kind == codes::EVENT_EXTENSION_POPUP_CLOSE_REQUESTED {
        Ok(IpcEvent::ExtensionPopupCloseRequested { profile_id, browsing_context_id: tab, popup_id: popup })
    } else if e.kind == codes::EVENT_EXTENSION_POPUP_RENDER_PROCESS_GONE {
        Ok(IpcEvent::ExtensionPopupRenderProcessGone {
            profile_id,
            browsing_context_id: tab,
            popup_id: popup,
            crashed: e.crashed,
        })
    } else if e.kind == codes::EVENT_EXTENSION_POPUP_CLOSED {
        Ok(IpcEvent::ExtensionPopupClosed {
            profile_id,
            browsing_context_id: tab,
            popup_id: e.extension_popup_id,
        })
    } else if e.kind == codes::EVENT_TAB_CREATED {
        Ok(IpcEvent::TabCreated { profile_id, browsing_context_id: tab, request_id: e.request_id })
    } else if e.kind == codes::EVENT_DEV_TOOLS_OPENED {
        Ok(IpcEvent::DevToolsOpened {
            profile_id,
            browsing_context_id: tab,
            inspected_browsing_context_id: TabId(e.inspected_tab_id),
        })
    } else if e.kind == codes::EVENT_SHUTDOWN_PROCEEDING {
        Ok(IpcEvent::ShutdownProceeding { request_id: e.request_id })
    } else if e.kind == codes::EVENT_SHUTDOWN_CANCELLED {
        Ok(IpcEvent::ShutdownCancelled { request_id: e.request_id })
    } else if e.kind == codes::EVENT_TAB_OPEN_REQUESTED {
        Ok(IpcEvent::TabOpenRequested {
            profile_id,
            request_id: e.request_id,
            source_tab_id: spec_flagged(e.tab_open_has_source, TabId(e.tab_open_source_tab_id)),
            target_url: e.target_url,
            open_hint: tab_open::tab_open_hint_of(e.tab_open_hint),
            user_gesture: e.tab_open_user_gesture,
        })
    } else if e.kind == codes::EVENT_TAB_OPEN_RESOLVED {
        Ok(IpcEvent::TabOpenResolved {
            profile_id,
            request_id: e.request_id,
            result: tab_open::spec_tab_open_result(
                e.tab_open_result_kind,
                e.tab_open_has_target,
                e.tab_open_target_tab_id,
            ),
        })
    } else if e.kind == codes::EVENT_NAVIGATION_STATE_CHANGED {
        Ok(IpcEvent::NavigationStateChanged {
            profile_id,
            browsing_context_id: tab,
            url: e.url,
            can_go_back: e.can_go_back,
            can_go_forward: e.can_go_forward,
            is_loading: e.is_loading,
        })
    } else if e.kind == codes::EVENT_CURSOR_CHANGED {
        Ok(IpcEvent::CursorChanged {
            profile_id,
            browsing_context_id: tab,
            cursor_type: cursor::cursor_type_of(e.cursor_type),
        })
    } else if e.kind == codes::EVENT_TITLE_UPDATED {
        Ok(IpcEvent::TitleUpdated { profile_id, browsing_context_id: tab, title: e.title })
    } else if e.kind == codes::EVENT_FAVICON_URL_UPDATED {
        Ok(IpcEvent::FaviconUrlUpdated { profile_id, browsing_context_id: tab, url: e.favicon_url })
    } else if e.kind == codes::EVENT_BEFORE_UNLOAD_DIALOG_REQUESTED {
        Ok(IpcEvent::BeforeUnloadDialogRequested {
            profile_id,
            browsing_context_id: tab,
            request_id: e.request_id,
            reason: lifecycle::beforeunload_reason_of(e.beforeunload_reason),
        })
    } else if e.kind == codes::EVENT_JAVASCRIPT_DIALOG_REQUESTED {
        Ok(IpcEvent::JavaScriptDialogRequested {
            profile_id,
            browsing_context_id: tab,
            request_id: e.request_id,
            dialog_type: lifecycle::javascript_dialog_type_of(e.javascript_dialog_type),
            message: e.message,
            default_prompt_text: spec_optional_text(e.default_prompt_text),
            reason: lifecycle::beforeunload_reason_of(e.beforeunload_reason),
        })
    } else if e.kind == codes::EVENT_TAB_CLOSED {
        Ok(IpcEvent::TabClosed { profile_id, browsing_context_id: tab })
    } else if e.kind == codes::EVENT_TAB_RESIZE_ACKNOWLEDGED {
        Ok(IpcEvent::TabResizeAcknowledged { profile_id, browsing_context_id: tab })
    } else if e.kind == codes::EVENT_TAB_DOM_HTML_READ {
        Ok(IpcEvent::TabDomHtmlRead {
            profile_id,
            browsing_context_id: tab,
            request_id: e.request_id,
            html: e.dom_html,
        })
    } else if e.kind == codes::EVENT_FIND_REPLY {
        Ok(IpcEvent::FindReply {
            profile_id,
            browsing_context_id: tab,
            request_id: e.request_id,
            number_of_matches: e.find_number_of_matches,
            active_match_ordinal: e.find_active_match_ordinal,
            selection_rect: spec_find_rect(e.find_selection_rect),
            final_update: e.find_final_update,
        })
    } else if e.kind == codes::EVENT_TAB_IPC_MESSAGE_RECEIVED {
        Ok(IpcEvent::TabIpcMessageReceived {
            profile_id,
            browsing_context_id: tab,
            channel: e.ipc_channel,
            message_type: ipc::ipc_message_type_of(e.ipc_message_type),
            request_id: e.request_id,
            payload: ipc::spec_ipc_payload(e.ipc_payload_kind, e.ipc_payload_text, e.ipc_payload_binary),
            content_type: spec_optional_text(e.ipc_content_type),
            error_code: ipc::ipc_error_code_of(e.ipc_error_code),
        })
    } else if e.kind == codes::EVENT_DRAG_START_REQUESTED {
        Ok(IpcEvent::DragStartRequested {
            profile_id,
            browsing_context_id: TabId(e.drag_start_request.tab_id),
            request: spec_drag_start_request(e.drag_start_request),
        })
    } else if e.kind == codes::EVENT_EXTERNAL_DRAG_OPERATION_CHANGED {
        Ok(IpcEvent::ExternalDragOperationChanged {
            profile_id,
            browsing_context_id: tab,
            operation: drag::drag_operation_of(e.drag_operation),
        })
    } else if e.kind == codes::EVENT_PROMPT_UI_REQUESTED {
        Ok(IpcEvent::PromptUiOpenRequested {
            profile_id,
            source_tab_id: spec_prompt_source(e),
            request_id: e.request_id,
            kind: spec_event_prompt_kind(e),
        })
    } else if e.kind == codes::EVENT_PROMPT_UI_RESOLVED {
        Ok(IpcEvent::PromptUiResolved {
            profile_id,
            source_tab_id: spec_prompt_source(e),
            request_id: e.request_id,
            resolution: spec_prompt_ui_resolution(
                e.prompt_ui_kind,
                e.prompt_ui_permission,
                e.prompt_ui_permission_key,
                e.prompt_ui_result,
                e.download_id,
                e.download_destination_path,
                e.extension_id,
                e.extension_install_prompt_result,
                e.extension_uninstall_prompt_result,
                e.extension_install_prompt_detail,
                e.prompt_ui_report_abuse,
                e.prompt_ui_repost_reason,
                e.prompt_ui_repost_target_url,
            ),
        })
    } else if e.kind == codes::EVENT_CUSTOM_SCHEME_REQUEST_RECEIVED {
        Ok(IpcEvent::CustomSchemeRequestReceived {
            request: ChromeCustomSchemeRequest {
                request_id: e.request_id,
                profile_id,
                url: e.url,
                scheme: e.custom_scheme_scheme,
                host: e.custom_scheme_host,
                path: e.custom_scheme_path,
                query: spec_optional_text(e.custom_scheme_query),
                method: spec_request_method(e.custom_scheme_method),
            },
        })
    } else if e.kind == codes::EVENT_EXTENSION_RUNTIME_WARNING {
        Ok(IpcEvent::ExtensionRuntimeWarning {
            profile_id,
            browsing_context_id: tab,
            detail: e.extension_runtime_warning,
        })
    } else if e.kind == codes::EVENT_PROMPT_UI_OPENED {
        Ok(IpcEvent::PromptUiOpened {
            profile_id,
            source_tab_id: spec_prompt_source(e),
            prompt_ui_id: PromptUiId(e.prompt_ui_id),
            kind: spec_event_prompt_kind(e),
            title: spec_optional_text(e.prompt_ui_title),
            modal: e.prompt_ui_modal,
        })
    } else if e.kind == codes::EVENT_PROMPT_UI_CLOSED {
        Ok(IpcEvent::PromptUiClosed {
            profile_id,
            source_tab_id: spec_prompt_source(e),
            prompt_ui_id: PromptUiId(e.prompt_ui_id),
            kind: spec_event_prompt_kind(e),
            reason: prompt_ui::prompt_ui_close_reason_of(e.prompt_ui_close_reason),
        })
    } else if e.kind == codes::EVENT_DOWNLOAD_CREATED {
        Ok(IpcEvent::DownloadCreated {
            profile_id,
            download: ChromeDownloadSnapshot {
                download_id: ChromeDownloadId(e.download_id),
                source_tab_id: spec_download_source(e),
                file_name: e.download_file_name,
                total_bytes: spec_flagged(e.download_has_total_bytes, e.download_total_bytes),
                target_path: spec_optional_text(e.download_target_path),
            },
        })
    } else if e.kind == codes::EVENT_DOWNLOAD_UPDATED {
        Ok(IpcEvent::DownloadUpdated {
            profile_id,
            download: ChromeDownloadProgress {
                download_id: ChromeDownloadId(e.download_id),
                source_tab_id: spec_download_source(e),
                state: download::download_state_of(e.download_state),
                file_name: e.download_file_name,
                received_bytes: e.download_received_bytes,
                total_bytes: spec_flagged(e.download_has_total_bytes, e.download_total_bytes),
                target_path: spec_optional_text(e.download_target_path),
                can_resume: e.download_can_resume,
                is_paused: e.download_is_paused,
            },
        })
    } else if e.kind == codes::EVENT_DOWNLOAD_COMPLETED {
        Ok(IpcEvent::DownloadCompleted {
            profile_id,
            download: ChromeDownloadCompletion {
                download_id: ChromeDownloadId(e.download_id),
                source_tab_id: spec_download_source(e),
                outcome: download::download_outcome_of(e.download_outcome),
                file_name: e.download_file_name,
                received_bytes: e.download_received_bytes,
                total_bytes: spec_flagged(e.download_has_total_bytes, e.download_total_bytes),
                target_path: spec_optional_text(e.download_target_path),
            },
        })
    } else {
        Err(BridgeError::InvalidEvent)
    }
}

/// Whether an event kind carries a list or a menu, decoded item by item.
pub open spec fn is_structured_kind(kind: u8) -> bool {
    kind == codes::EVENT_IME_BOUNDS_UPDATED || kind == codes::EVENT_EXTENSION_POPUP_IME_BOUNDS_UPDATED
        || kind == codes::EVENT_SHUTDOWN_BLOCKED || kind == codes::EVENT_CONTEXT_MENU_REQUESTED
        || kind == codes::EVENT_EXTENSION_POPUP_CONTEXT_MENU_REQUESTED || kind
        == codes::EVENT_CHOICE_MENU_REQUESTED || kind
        == codes::EVENT_EXTENSION_POPUP_CHOICE_MENU_REQUESTED || kind
        == codes::EVENT_EXTENSIONS_LISTED
}

/// How an event decodes: the events that carry lists or menus by what
/// their items become, every other one by [`spec_parse_event`].
pub open spec fn event_parsed(e: BridgeEvent, r: Result<IpcEvent, BridgeError>) -> bool {
    if e.kind == codes::EVENT_IME_BOUNDS_UPDATED {
        r matches Ok(IpcEvent::ImeBoundsUpdated { profile_id, browsing_context_id, update })
            && profile_id == e.profile_id && browsing_context_id == TabId(e.tab_id)
            && ime_bounds_parsed(e.ime_bounds, update)
    } else if e.kind == codes::EVENT_EXTENSION_POPUP_IME_BOUNDS_UPDATED {
        r matches Ok(
            IpcEvent::ExtensionPopupImeBoundsUpdated { profile_id, browsing_context_id, popup_id, update },
        ) && profile_id == e.profile_id && browsing_context_id == TabId(e.tab_id) && popup_id
            == PopupId(e.extension_popup_id) && ime_bounds_parsed(e.ime_bounds, update)
    } else if e.kind == codes::EVENT_SHUTDOWN_BLOCKED {
        r matches Ok(IpcEvent::ShutdownBlocked { request_id, dirty_browsing_context_ids })
            && request_id == e.request_id && dirty_browsing_context_ids@ == seq![TabId(e.tab_id)]
    } else if e.kind == codes::EVENT_CONTEXT_MENU_REQUESTED {
        r matches Ok(IpcEvent::ContextMenuRequested { profile_id, browsing_context_id, menu })
            && profile_id == e.profile_id && browsing_context_id == TabId(e.tab_id)
            && context_menu_parsed(e.context_menu, menu)
    } else if e.kind == codes::EVENT_EXTENSION_POPUP_CONTEXT_MENU_REQUESTED {
        r matches Ok(
            IpcEvent::ExtensionPopupContextMenuRequested { profile_id, browsing_context_id, popup_id, menu },
        ) && profile_id == e.profile_id && browsing_context_id == TabId(e.tab_id) && popup_id
            == PopupId(e.extension_popup_id) && context_menu_parsed(e.context_menu, menu)
    } else if e.kind == codes::EVENT_CHOICE_MENU_REQUESTED {
        r matches Ok(
            IpcEvent::ChoiceMenuRequested { profile_id, browsing_context_id, request_id, menu },
        ) && profile_id == e.profile_id && browsing_context_id == TabId(e.tab_id) && request_id
            == e.request_id && choice_menu_parsed(e.choice_menu, menu)
    } else if e.kind == codes::EVENT_EXTENSION_POPUP_CHOICE_MENU_REQUESTED {
        r matches Ok(
            IpcEvent::ExtensionPopupChoiceMenuRequested {
                profile_id,
                browsing_context_id,
                popup_id,
                request_id,
                menu,
            },
        ) && profile_id == e.profile_id && browsing_context_id == TabId(e.tab_id) && popup_id
            == PopupId(e.extension_popup_id) && request_id == e.request_id && choice_menu_parsed(
            e.choice_menu,
            menu,
        )
    } else if e.kind == codes::EVENT_EXTENSIONS_LISTED {
        r matches Ok(IpcEvent::ExtensionsListed { profile_id, extensions }) && profile_id
            == e.profile_id && extensions@ == e.extensions@.map_values(
            |info: BridgeExtensionInfo| spec_extension_info(info),
        )
    } else {
        r == spec_parse_event(e)
    }
}

/// Decode an event that carries a list or a menu.
fn parse_structured_event(event: BridgeEvent) -> (r: Result<IpcEvent, BridgeError>)
    requires
        is_structured_kind(event.kind),
    ensures
        event_parsed(event, r),
{
    let ghost e = event;
    let BridgeEvent {
        kind,
        profile_id,
        tab_id,
        request_id,
        extension_popup_id,
        context_menu,
        choice_menu,
        ime_bounds,
        extensions,
        ..
    } = event;
    let browsing_context_id = TabId::new(tab_id);
    if kind == codes::EVENT_IME_BOUNDS_UPDATED {
        let update = parse_ime_bounds(ime_bounds);
        Ok(IpcEvent::ImeBoundsUpdated { profile_id, browsing_context_id, update })
    } else if kind == codes::EVENT_EXTENSION_POPUP_IME_BOUNDS_UPDATED {
        let update = parse_ime_bounds(ime_bounds);
        Ok(
            IpcEvent::ExtensionPopupImeBoundsUpdated {
                profile_id,
                browsing_context_id,
                popup_id: PopupId::new(extension_popup_id),
                update,
            },
        )
    } else if kind == codes::EVENT_SHUTDOWN_BLOCKED {
        let mut dirty: Vec<TabId> = Vec::new();
        dirty.push(browsing_context_id);
        proof {
            assert(dirty@ =~= seq![TabId(e.tab_id)]);
        }
        Ok(IpcEvent::ShutdownBlocked { request_id, dirty_browsing_context_ids: dirty })
    } else if kind == codes::EVENT_CONTEXT_MENU_REQUESTED {
        let menu = parse_context_menu(context_menu);
        Ok(IpcEvent::ContextMenuRequested { profile_id, browsing_context_id, menu })
    } else if kind == codes::EVENT_EXTENSION_POPUP_CONTEXT_MENU_REQUESTED {
        let menu = parse_context_menu(context_menu);
        Ok(
            IpcEvent::ExtensionPopupContextMenuRequested {
                profile_id,
                browsing_context_id,
                popup_id: PopupId::new(extension_popup_id),
                menu,
            },
        )
    } else if kind == codes::EVENT_CHOICE_MENU_REQUESTED {
        let menu = parse_choice_menu(choice_menu);
        Ok(IpcEvent::ChoiceMenuRequested { profile_id, browsing_context_id, request_id, menu })
    } else if kind == codes::EVENT_EXTENSION_POPUP_CHOICE_MENU_REQUESTED {
        let menu = parse_choice_menu(choice_menu);
        Ok(
            IpcEvent::ExtensionPopupChoiceMenuRequested {
                profile_id,
                browsing_context_id,
                popup_id: PopupId::new(extension_popup_id),
                request_id,
                menu,
            },
        )
    } else {
        let extensions = parse_extension_list(extensions);
        Ok(IpcEvent::ExtensionsListed { profile_id, extensions })
    }
}

/// Decode an event that carries neither a list nor a menu.
fn parse_plain_event(event: BridgeEvent) -> (r: Result<IpcEvent, BridgeError>)
    requires
        !is_structured_kind(event.kind),
        !names_windows_surface(event),
    ensures
        r == spec_parse_event(event),
{
    let BridgeEvent {
        kind,
        profile_id,
        tab_id,
        request_id,
        surface_handle,
        extension_popup_id,
        extension_id,
        title,
        width,
        height,
        cursor_type,
        javascript_dialog_type,
        message,
        default_prompt_text,
        beforeunload_reason,
        crashed,
        inspected_tab_id,
        tab_open_has_source,
        tab_open_source_tab_id,
        target_url,
        tab_open_hint,
        tab_open_user_gesture,
        tab_open_result_kind,
        tab_open_has_target,
        tab_open_target_tab_id,
        url,
        can_go_back,
        can_go_forward,
        is_loading,
        favicon_url,
        dom_html,
        find_number_of_matches,
        find_active_match_ordinal,
        find_selection_rect,
        find_final_update,
        ipc_channel,
        ipc_message_type,
        ipc_payload_kind,
        ipc_payload_text,
        ipc_payload_binary,
        ipc_content_type,
        ipc_error_code,
        drag_start_request,
        drag_operation,
        prompt_ui_has_source_tab_id,
        prompt_ui_source_tab_id,
        prompt_ui_kind,
        prompt_ui_permission,
        prompt_ui_permission_key,
        prompt_ui_result,
        prompt_ui_id,
        prompt_ui_title,
        prompt_ui_modal,
        prompt_ui_close_reason,
        prompt_ui_can_report_abuse,
        prompt_ui_report_abuse,
        prompt_ui_repost_reason,
        prompt_ui_repost_target_url,
        permission_names,
        extension_name,
        triggering_extension_name,
        extension_install_prompt_result,
        extension_uninstall_prompt_result,
        extension_install_prompt_detail,
        custom_scheme_scheme,
        custom_scheme_host,
        custom_scheme_path,
        custom_scheme_query,
        custom_scheme_method,
        extension_runtime_warning,
        download_id,
        download_reason,
        download_file_name,
        download_total_bytes,
        download_has_total_bytes,
        download_suggested_path,
        download_destination_path,
        download_has_source_tab_id,
        download_source_tab_id,
        download_target_path,
        download_state,
        download_received_bytes,
        download_can_resume,
        download_is_paused,
        download_outcome,
        ..
    } = event;
    let browsing_context_id = TabId::new(tab_id);
    let prompt_source = if prompt_ui_has_source_tab_id {
        Some(TabId::new(prompt_ui_source_tab_id))
    } else {
        None
    };
    let download_source = if download_has_source_tab_id {
        Some(TabId::new(download_source_tab_id))
    } else {
        None
    };
    let total_bytes = if download_has_total_bytes {
        Some(download_total_bytes)
    } else {
        None
    };
    if kind == codes::EVENT_SURFACE_HANDLE_UPDATED {
        let handle = parse_surface_handle(surface_handle)?;
        Ok(IpcEvent::SurfaceHandleUpdated { profile_id, browsing_context_id, handle })
    } else if kind == codes::EVENT_EXTENSION_POPUP_OPENED {
        Ok(
            IpcEvent::ExtensionPopupOpened {
                profile_id,
                browsing_context_id,
                popup_id: extension_popup_id,
                extension_id,
                title,
            },
        )
    } else if kind == codes::EVENT_EXTENSION_POPUP_SURFACE_HANDLE_UPDATED {
        let handle = parse_surface_handle(surface_handle)?;
        Ok(
            IpcEvent::ExtensionPopupSurfaceHandleUpdated {
                profile_id,
                browsing_context_id,
                popup_id: extension_popup_id,
                handle,
            },
        )
    } else if kind == codes::EVENT_EXTENSION_POPUP_PREFERRED_SIZE_CHANGED {
        Ok(
            IpcEvent::ExtensionPopupPreferredSizeChanged {
                profile_id,
                browsing_context_id,
                popup_id: extension_popup_id,
                width,
                height,
            },
        )
    } else if kind == codes::EVENT_EXTENSION_POPUP_CURSOR_CHANGED {
        Ok(
            IpcEvent::ExtensionPopupCursorChanged {
                profile_id,
                browsing_context_id,
                popup_id: PopupId::new(extension_popup_id),
                cursor_type: cursor::cursor_type_from_ffi(cursor_type),
            },
        )
    } else if kind == codes::EVENT_EXTENSION_POPUP_TITLE_UPDATED {
        Ok(
            IpcEvent::ExtensionPopupTitleUpdated {
                profile_id,
                browsing_context_id,
                popup_id: PopupId::new(extension_popup_id),
                title,
            },
        )
    } else if kind == codes::EVENT_EXTENSION_POPUP_JAVASCRIPT_DIALOG_REQUESTED {
        Ok(
            IpcEvent::ExtensionPopupJavaScriptDialogRequested {
                profile_id,
                browsing_context_id,
                popup_id: PopupId::new(extension_popup_id),
                request_id,
                dialog_type: lifecycle::javascript_dialog_type_from_ffi(javascript_dialog_type),
                message,
                default_prompt_text: optional_string_from_ffi(default_prompt_text),
                reason: lifecycle::beforeunload_reason_from_ffi(beforeunload_reason),
            },
        )
    } else if kind == codes::EVENT_EXTENSION_POPUP_CLOSE_REQUESTED {
        Ok(
            IpcEvent::ExtensionPopupCloseRequested {
                profile_id,
                browsing_context_id,
                popup_id: PopupId::new(extension_popup_id),
            },
        )
    } else if kind == codes::EVENT_EXTENSION_POPUP_RENDER_PROCESS_GONE {
        Ok(
            IpcEvent::ExtensionPopupRenderProcessGone {
                profile_id,
                browsing_context_id,
                popup_id: PopupId::new(extension_popup_id),
                crashed,
            },
        )
    } else if kind == codes::EVENT_EXTENSION_POPUP_CLOSED {
        Ok(
            IpcEvent::ExtensionPopupClosed {
                profile_id,
                browsing_context_id,
                popup_id: extension_popup_id,
            },
        )
    } else if kind == codes::EVENT_TAB_CREATED {
        Ok(IpcEvent::TabCreated { profile_id, browsing_context_id, request_id })
    } else if kind == codes::EVENT_DEV_TOOLS_OPENED {
        Ok(
            IpcEvent::DevToolsOpened {
                profile_id,
                browsing_context_id,
                inspected_browsing_context_id: TabId::new(inspected_tab_id),
            },
        )
    } else if kind == codes::EVENT_SHUTDOWN_PROCEEDING {
        Ok(IpcEvent::ShutdownProceeding { request_id })
    } else if kind == codes::EVENT_SHUTDOWN_CANCELLED {
        Ok(IpcEvent::ShutdownCancelled { request_id })
    } else if kind == codes::EVENT_TAB_OPEN_REQUESTED {
        Ok(
            IpcEvent::TabOpenRequested {
                profile_id,
                request_id,
                source_tab_id: if tab_open_has_source {
                    Some(TabId::new(tab_open_source_tab_id))
                } else {
                    None
                },
                target_url,
                open_hint: tab_open::tab_open_hint_from_ffi(tab_open_hint),
                user_gesture: tab_open_user_gesture,
            },
        )
    } else if kind == codes::EVENT_TAB_OPEN_RESOLVED {
        Ok(
            IpcEvent::TabOpenResolved {
                profile_id,
                request_id,
                result: tab_open::tab_open_result_from_ffi(
                    tab_open_result_kind,
                    tab_open_has_target,
                    tab_open_target_tab_id,
                ),
            },
        )
    } else if kind == codes::EVENT_NAVIGATION_STATE_CHANGED {
        Ok(
            IpcEvent::NavigationStateChanged {
                profile_id,
                browsing_context_id,
                url,
                can_go_back,
                can_go_forward,
                is_loading,
            },
        )
    } else if kind == codes::EVENT_CURSOR_CHANGED {
        Ok(
            IpcEvent::CursorChanged {
                profile_id,
                browsing_context_id,
                cursor_type: cursor::cursor_type_from_ffi(cursor_type),
            },
        )
    } else if kind == codes::EVENT_TITLE_UPDATED {
        Ok(IpcEvent::TitleUpdated { profile_id, browsing_context_id, title })
    } else if kind == codes::EVENT_FAVICON_URL_UPDATED {
        Ok(IpcEvent::FaviconUrlUpdated { profile_id, browsing_context_id, url: favicon_url })
    } else if kind == codes::EVENT_BEFORE_UNLOAD_DIALOG_REQUESTED {
        Ok(
            IpcEvent::BeforeUnloadDialogRequested {
                profile_id,
                browsing_context_id,
                request_id,
                reason: lifecycle::beforeunload_reason_from_ffi(beforeunload_reason),
            },
        )
    } else if kind == codes::EVENT_JAVASCRIPT_DIALOG_REQUESTED {
        Ok(
            IpcEvent::JavaScriptDialogRequested {
                profile_id,
                browsing_context_id,
                request_id,
                dialog_type: lifecycle::javascript_dialog_type_from_ffi(javascript_dialog_type),
                message,
                default_prompt_text: optional_string_from_ffi(default_prompt_text),
                reason: lifecycle::beforeunload_reason_from_ffi(beforeunload_reason),
            },
        )
    } else if kind == codes::EVENT_TAB_CLOSED {
        Ok(IpcEvent::TabClosed { profile_id, browsing_context_id })
    } else if kind == codes::EVENT_TAB_RESIZE_ACKNOWLEDGED {
        Ok(IpcEvent::TabResizeAcknowledged { profile_id, browsing_context_id })
    } else if kind == codes::EVENT_TAB_DOM_HTML_READ {
        Ok(IpcEvent::TabDomHtmlRead { profile_id, browsing_context_id, request_id, html: dom_html })
    } else if kind == codes::EVENT_FIND_REPLY {
        Ok(
            IpcEvent::FindReply {
                profile_id,
                browsing_context_id,
                request_id,
                number_of_matches: find_number_of_matches,
                active_match_ordinal: find_active_match_ordinal,
                selection_rect: find_rect_from_ffi(find_selection_rect),
                final_update: find_final_update,
            },
        )
    } else if kind == codes::EVENT_TAB_IPC_MESSAGE_RECEIVED {
        Ok(
            IpcEvent::TabIpcMessageReceived {
                profile_id,
                browsing_context_id,
                channel: ipc_channel,
                message_type: ipc::ipc_message_type_from_ffi(ipc_message_type),
                request_id,
                payload: ipc::ipc_payload_from_ffi(ipc_payload_kind, ipc_payload_text, ipc_payload_binary),
                content_type: optional_string_from_ffi(ipc_content_type),
                error_code: ipc::ipc_error_code_from_ffi(ipc_error_code),
            },
        )
    } else if kind == codes::EVENT_DRAG_START_REQUESTED {
        let request = parse_drag_start_request(drag_start_request);
        Ok(
            IpcEvent::DragStartRequested {
                profile_id,
                browsing_context_id: request.browsing_context_id,
                request,
            },
        )
    } else if kind == codes::EVENT_EXTERNAL_DRAG_OPERATION_CHANGED {
        Ok(
            IpcEvent::ExternalDragOperationChanged {
                profile_id,
                browsing_context_id,
                operation: drag::drag_operation_from_ffi(drag_operation),
            },
        )
    } else if kind == codes::EVENT_PROMPT_UI_REQUESTED || kind == codes::EVENT_PROMPT_UI_OPENED
        || kind == codes::EVENT_PROMPT_UI_CLOSED {
        let prompt_kind = prompt_ui_kind_from_ffi(
            prompt_ui_kind,
            prompt_ui_permission,
            prompt_ui_permission_key,
            download_reason,
            download_id,
            download_file_name,
            download_total_bytes,
            download_has_total_bytes,
            download_suggested_path,
            extension_id,
            extension_name,
            triggering_extension_name,
            prompt_ui_can_report_abuse,
            permission_names,
            prompt_ui_repost_reason,
            prompt_ui_repost_target_url,
        );
        if kind == codes::EVENT_PROMPT_UI_REQUESTED {
            Ok(
                IpcEvent::PromptUiOpenRequested {
                    profile_id,
                    source_tab_id: prompt_source,
                    request_id,
                    kind: prompt_kind,
                },
            )
        } else if kind == codes::EVENT_PROMPT_UI_OPENED {
            Ok(
                IpcEvent::PromptUiOpened {
                    profile_id,
                    source_tab_id: prompt_source,
                    prompt_ui_id: PromptUiId::new(prompt_ui_id),
                    kind: prompt_kind,
                    title: optional_string_from_ffi(prompt_ui_title),
                    modal: prompt_ui_modal,
                },
            )
        } else {
            Ok(
                IpcEvent::PromptUiClosed {
                    profile_id,
                    source_tab_id: prompt_source,
                    prompt_ui_id: PromptUiId::new(prompt_ui_id),
                    kind: prompt_kind,
                    reason: prompt_ui::prompt_ui_close_reason_from_ffi(prompt_ui_close_reason),
                },
            )
        }
    } else if kind == codes::EVENT_PROMPT_UI_RESOLVED {
        Ok(
            IpcEvent::PromptUiResolved {
                profile_id,
                source_tab_id: prompt_source,
                request_id,
                resolution: prompt_ui_resolution_from_ffi(
                    prompt_ui_kind,
                    prompt_ui_permission,
                    prompt_ui_permission_key,
                    prompt_ui_result,
                    download_id,
                    download_destination_path,
                    extension_id,
                    extension_install_prompt_result,
                    extension_uninstall_prompt_result,
                    extension_install_prompt_detail,
                    prompt_ui_report_abuse,
                    prompt_ui_repost_reason,
                    prompt_ui_repost_target_url,
                ),
            },
        )
    } else if kind == codes::EVENT_CUSTOM_SCHEME_REQUEST_RECEIVED {
        Ok(
            IpcEvent::CustomSchemeRequestReceived {
                request: ChromeCustomSchemeRequest {
                    request_id,
                    profile_id,
                    url,
                    scheme: custom_scheme_scheme,
                    host: custom_scheme_host,
                    path: custom_scheme_path,
                    query: optional_string_from_ffi(custom_scheme_query),
                    method: custom_scheme_request_method_from_ffi(custom_scheme_method),
                },
            },
        )
    } else if kind == codes::EVENT_EXTENSION_RUNTIME_WARNING {
        Ok(
            IpcEvent::ExtensionRuntimeWarning {
                profile_id,
                browsing_context_id,
                detail: extension_runtime_warning,
            },
        )
    } else if kind == codes::EVENT_DOWNLOAD_CREATED {
        Ok(
            IpcEvent::DownloadCreated {
                profile_id,
                download: ChromeDownloadSnapshot {
                    download_id: ChromeDownloadId::new(download_id),
                    source_tab_id: download_source,
                    file_name: download_file_name,
                    total_bytes,
                    target_path: optional_string_from_ffi(download_target_path),
                },
            },
        )
    } else if kind == codes::EVENT_DOWNLOAD_UPDATED {
        Ok(
            IpcEvent::DownloadUpdated {
                profile_id,
                download: ChromeDownloadProgress {
                    download_id: ChromeDownloadId::new(download_id),
                    source_tab_id: download_source,
                    state: download::download_state_from_ffi(download_state),
                    file_name: download_file_name,
                    received_bytes: download_received_bytes,
                    total_bytes,
                    target_path: optional_string_from_ffi(download_target_path),
                    can_resume: download_can_resume,
                    is_paused: download_is_paused,
                },
            },
        )
    } else if kind == codes::EVENT_DOWNLOAD_COMPLETED {
        Ok(
            IpcEvent::DownloadCompleted {
                profile_id,
                download: ChromeDownloadCompletion {
                    download_id: ChromeDownloadId::new(download_id),
                    source_tab_id: download_source,
                    outcome: download::download_outcome_from_ffi(download_outcome),
                    file_name: download_file_name,
                    received_bytes: download_received_bytes,
                    total_bytes,
                    target_path: optional_string_from_ffi(download_target_path),
                },
            },
        )
    } else {
        Err(BridgeError::InvalidEvent)
    }
}

/// Decode an event reported by the bridge; an unknown kind, or a surface
/// handle of an unknown kind, is an invalid event. Windows window handles
/// have no decoding yet, so events naming one are left out.
pub fn parse_event(event: BridgeEvent) -> (r: Result<IpcEvent, BridgeError>)
    requires
        !names_windows_surface(event),
    ensures
        event_parsed(event, r),
{
    if event.kind == codes::EVENT_IME_BOUNDS_UPDATED || event.kind
        == codes::EVENT_EXTENSION_POPUP_IME_BOUNDS_UPDATED || event.kind
        == codes::EVENT_SHUTDOWN_BLOCKED || event.kind == codes::EVENT_CONTEXT_MENU_REQUESTED
        || event.kind == codes::EVENT_EXTENSION_POPUP_CONTEXT_MENU_REQUESTED || event.kind
        == codes::EVENT_CHOICE_MENU_REQUESTED || event.kind
        == codes::EVENT_EXTENSION_POPUP_CHOICE_MENU_REQUESTED || event.kind
        == codes::EVENT_EXTENSIONS_LISTED {
        parse_structured_event(event)
    } else {
        parse_plain_event(event)
    }
}

/// Whether an event kind is one the bridge defines.
pub open spec fn is_known_event_kind(kind: u8) -> bool {
    kind == codes::EVENT_SURFACE_HANDLE_UPDATED
        || kind == codes::EVENT_EXTENSION_POPUP_OPENED
        || kind == codes::EVENT_EXTENSION_POPUP_SURFACE_HANDLE_UPDATED
        || kind == codes::EVENT_EXTENSION_POPUP_PREFERRED_SIZE_CHANGED
        || kind == codes::EVENT_EXTENSION_POPUP_CONTEXT_MENU_REQUESTED
        || kind == codes::EVENT_EXTENSION_POPUP_CHOICE_MENU_REQUESTED
        || kind == codes::EVENT_EXTENSION_POPUP_CURSOR_CHANGED
        || kind == codes::EVENT_EXTENSION_POPUP_TITLE_UPDATED
        || kind == codes::EVENT_EXTENSION_POPUP_JAVASCRIPT_DIALOG_REQUESTED
        || kind == codes::EVENT_EXTENSION_POPUP_CLOSE_REQUESTED
        || kind == codes::EVENT_EXTENSION_POPUP_RENDER_PROCESS_GONE
        || kind == codes::EVENT_EXTENSION_POPUP_CLOSED
        || kind == codes::EVENT_TAB_CREATED
        || kind == codes::EVENT_DEV_TOOLS_OPENED
        || kind == codes::EVENT_IME_BOUNDS_UPDATED
        || kind == codes::EVENT_EXTENSION_POPUP_IME_BOUNDS_UPDATED
        || kind == codes::EVENT_SHUTDOWN_BLOCKED
        || kind == codes::EVENT_SHUTDOWN_PROCEEDING
        || kind == codes::EVENT_SHUTDOWN_CANCELLED
        || kind == codes::EVENT_CONTEXT_MENU_REQUESTED
        || kind == codes::EVENT_CHOICE_MENU_REQUESTED
        || kind == codes::EVENT_TAB_OPEN_REQUESTED
        || kind == codes::EVENT_TAB_OPEN_RESOLVED
        || kind == codes::EVENT_NAVIGATION_STATE_CHANGED
        || kind == codes::EVENT_CURSOR_CHANGED
        || kind == codes::EVENT_TITLE_UPDATED
        || kind == codes::EVENT_FAVICON_URL_UPDATED
        || kind == codes::EVENT_BEFORE_UNLOAD_DIALOG_REQUESTED
        || kind == codes::EVENT_JAVASCRIPT_DIALOG_REQUESTED
        || kind == codes::EVENT_TAB_CLOSED
        || kind == codes::EVENT_TAB_RESIZE_ACKNOWLEDGED
        || kind == codes::EVENT_TAB_DOM_HTML_READ
        || kind == codes::EVENT_FIND_REPLY
        || kind == codes::EVENT_TAB_IPC_MESSAGE_RECEIVED
        || kind == codes::EVENT_DRAG_START_REQUESTED
        || kind == codes::EVENT_EXTERNAL_DRAG_OPERATION_CHANGED
        || kind == codes::EVENT_EXTENSIONS_LISTED
        || kind == codes::EVENT_PROMPT_UI_REQUESTED
        || kind == codes::EVENT_PROMPT_UI_RESOLVED
        || kind == codes::EVENT_CUSTOM_SCHEME_REQUEST_RECEIVED
        || kind == codes::EVENT_EXTENSION_RUNTIME_WARNING
        || kind == codes::EVENT_PROMPT_UI_OPENED
        || kind == codes::EVENT_PROMPT_UI_CLOSED
        || kind == codes::EVENT_DOWNLOAD_CREATED
        || kind == codes::EVENT_DOWNLOAD_UPDATED
        || kind == codes::EVENT_DOWNLOAD_COMPLETED
}

/// Whether an event carries a surface handle of a kind without a decoding.
pub open spec fn has_unknown_surface(e: BridgeEvent) -> bool {
    (e.kind == codes::EVENT_SURFACE_HANDLE_UPDATED || e.kind
        == codes::EVENT_EXTENSION_POPUP_SURFACE_HANDLE_UPDATED) && e.surface_handle.kind
        != codes::SURFACE_HANDLE_MAC_CA_CONTEXT_ID
}

/// Every event without a list or a menu is decoded field for field from the
/// bridge record: each identifier, flag, count and text of the decoded event
/// is the record's own field of that meaning (navigation state, popup sizes,
/// find replies, download progress, prompts, dialogs and the rest).
#[verifier::rlimit(50)]
pub proof fn lemma_plain_events_decoded_field_for_field(e: BridgeEvent, r: Result<IpcEvent, BridgeError>)
    requires
        event_parsed(e, r),
    ensures
        e.kind == codes::EVENT_EXTENSION_POPUP_OPENED ==> (r matches Ok(IpcEvent::ExtensionPopupOpened { profile_id, browsing_context_id, popup_id, extension_id, title }) && profile_id == e.profile_id && browsing_context_id == TabId(e.tab_id) && popup_id == e.extension_popup_id && extension_id == e.extension_id && title == e.title),
        e.kind == codes::EVENT_EXTENSION_POPUP_PREFERRED_SIZE_CHANGED ==> (r matches Ok(IpcEvent::ExtensionPopupPreferredSizeChanged { profile_id, browsing_context_id, popup_id, width, height }) && profile_id == e.profile_id && browsing_context_id == TabId(e.tab_id) && popup_id == e.extension_popup_id && width == e.width && height == e.height),
        e.kind == codes::EVENT_EXTENSION_POPUP_CURSOR_CHANGED ==> (r matches Ok(IpcEvent::ExtensionPopupCursorChanged { profile_id, browsing_context_id, popup_id, cursor_type }) && profile_id == e.profile_id && browsing_context_id == TabId(e.tab_id) && popup_id == PopupId(e.extension_popup_id) && cursor_type == cursor::cursor_type_of(e.cursor_type)),
        e.kind == codes::EVENT_EXTENSION_POPUP_TITLE_UPDATED ==> (r matches Ok(IpcEvent::ExtensionPopupTitleUpdated { profile_id, browsing_context_id, popup_id, title }) && profile_id == e.profile_id && browsing_context_id == TabId(e.tab_id) && popup_id == PopupId(e.extension_popup_id) && title == e.title),
        e.kind == codes::EVENT_EXTENSION_POPUP_JAVASCRIPT_DIALOG_REQUESTED ==> (r matches Ok(IpcEvent::ExtensionPopupJavaScriptDialogRequested { profile_id, browsing_context_id, popup_id, request_id, dialog_type, message, default_prompt_text, reason }) && profile_id == e.profile_id && browsing_context_id == TabId(e.tab_id) && popup_id == PopupId(e.extension_popup_id) && request_id == e.request_id && dialog_type == lifecycle::javascript_dialog_type_of(e.javascript_dialog_type) && message == e.message && default_prompt_text == spec_optional_text(e.default_prompt_text) && reason == lifecycle::beforeunload_reason_of(e.beforeunload_reason)),
        e.kind == codes::EVENT_EXTENSION_POPUP_CLOSE_REQUESTED ==> (r matches Ok(IpcEvent::ExtensionPopupCloseRequested { profile_id, browsing_context_id, popup_id }) && profile_id == e.profile_id && browsing_context_id == TabId(e.tab_id) && popup_id == PopupId(e.extension_popup_id)),
        e.kind == codes::EVENT_EXTENSION_POPUP_RENDER_PROCESS_GONE ==> (r matches Ok(IpcEvent::ExtensionPopupRenderProcessGone { profile_id, browsing_context_id, popup_id, crashed }) && profile_id == e.profile_id && browsing_context_id == TabId(e.tab_id) && popup_id == PopupId(e.extension_popup_id) && crashed == e.crashed),
        e.kind == codes::EVENT_EXTENSION_POPUP_CLOSED ==> (r matches Ok(IpcEvent::ExtensionPopupClosed { profile_id, browsing_context_id, popup_id }) && profile_id == e.profile_id && browsing_context_id == TabId(e.tab_id) && popup_id == e.extension_popup_id),
        e.kind == codes::EVENT_TAB_CREATED ==> (r matches Ok(IpcEvent::TabCreated { profile_id, browsing_context_id, request_id }) && profile_id == e.profile_id && browsing_context_id == TabId(e.tab_id) && request_id == e.request_id),
        e.kind == codes::EVENT_DEV_TOOLS_OPENED ==> (r matches Ok(IpcEvent::DevToolsOpened { profile_id, browsing_context_id, inspected_browsing_context_id }) && profile_id == e.profile_id && browsing_context_id == TabId(e.tab_id) && inspected_browsing_context_id == TabId(e.inspected_tab_id)),
        e.kind == codes::EVENT_SHUTDOWN_PROCEEDING ==> (r matches Ok(IpcEvent::ShutdownProceeding { request_id }) && request_id == e.request_id),
        e.kind == codes::EVENT_SHUTDOWN_CANCELLED ==> (r matches Ok(IpcEvent::ShutdownCancelled { request_id }) && request_id == e.request_id),
        e.kind == codes::EVENT_TAB_OPEN_REQUESTED ==> (r matches Ok(IpcEvent::TabOpenRequested { profile_id, request_id, source_tab_id, target_url, open_hint, user_gesture }) && profile_id == e.profile_id && request_id == e.request_id && source_tab_id == spec_flagged(e.tab_open_has_source, TabId(e.tab_open_source_tab_id)) && target_url == e.target_url && open_hint == tab_open::tab_open_hint_of(e.tab_open_hint) && user_gesture == e.tab_open_user_gesture),
        e.kind == codes::EVENT_TAB_OPEN_RESOLVED ==> (r matches Ok(IpcEvent::TabOpenResolved { profile_id, request_id, result }) && profile_id == e.profile_id && request_id == e.request_id && result == tab_open::spec_tab_open_result( e.tab_open_result_kind, e.tab_open_has_target, e.tab_open_target_tab_id, )),
        e.kind == codes::EVENT_NAVIGATION_STATE_CHANGED ==> (r matches Ok(IpcEvent::NavigationStateChanged { profile_id, browsing_context_id, url, can_go_back, can_go_forward, is_loading }) && profile_id == e.profile_id && browsing_context_id == TabId(e.tab_id) && url == e.url && can_go_back == e.can_go_back && can_go_forward == e.can_go_forward && is_loading == e.is_loading),
        e.kind == codes::EVENT_CURSOR_CHANGED ==> (r matches Ok(IpcEvent::CursorChanged { profile_id, browsing_context_id, cursor_type }) && profile_id == e.profile_id && browsing_context_id == TabId(e.tab_id) && cursor_type == cursor::cursor_type_of(e.cursor_type)),
        e.kind == codes::EVENT_TITLE_UPDATED ==> (r matches Ok(IpcEvent::TitleUpdated { profile_id, browsing_context_id, title }) && profile_id == e.profile_id && browsing_context_id == TabId(e.tab_id) && title == e.title),
        e.kind == codes::EVENT_FAVICON_URL_UPDATED ==> (r matches Ok(IpcEvent::FaviconUrlUpdated { profile_id, browsing_context_id, url }) && profile_id == e.profile_id && browsing_context_id == TabId(e.tab_id) && url == e.favicon_url),
        e.kind == codes::EVENT_BEFORE_UNLOAD_DIALOG_REQUESTED ==> (r matches Ok(IpcEvent::BeforeUnloadDialogRequested { profile_id, browsing_context_id, request_id, reason }) && profile_id == e.profile_id && browsing_context_id == TabId(e.tab_id) && request_id == e.request_id && reason == lifecycle::beforeunload_reason_of(e.beforeunload_reason)),
        e.kind == codes::EVENT_JAVASCRIPT_DIALOG_REQUESTED ==> (r matches Ok(IpcEvent::JavaScriptDialogRequested { profile_id, browsing_context_id, request_id, dialog_type, message, default_prompt_text, reason }) && profile_id == e.profile_id && browsing_context_id == TabId(e.tab_id) && request_id == e.request_id && dialog_type == lifecycle::javascript_dialog_type_of(e.javascript_dialog_type) && message == e.message && default_prompt_text == spec_optional_text(e.default_prompt_text) && reason == lifecycle::beforeunload_reason_of(e.beforeunload_reason)),
        e.kind == codes::EVENT_TAB_CLOSED ==> (r matches Ok(IpcEvent::TabClosed { profile_id, browsing_context_id }) && profile_id == e.profile_id && browsing_context_id == TabId(e.tab_id)),
        e.kind == codes::EVENT_TAB_RESIZE_ACKNOWLEDGED ==> (r matches Ok(IpcEvent::TabResizeAcknowledged { profile_id, browsing_context_id }) && profile_id == e.profile_id && browsing_context_id == TabId(e.tab_id)),
        e.kind == codes::EVENT_TAB_DOM_HTML_READ ==> (r matches Ok(IpcEvent::TabDomHtmlRead { profile_id, browsing_context_id, request_id, html }) && profile_id == e.profile_id && browsing_context_id == TabId(e.tab_id) && request_id == e.request_id && html == e.dom_html),
        e.kind == codes::EVENT_FIND_REPLY ==> (r matches Ok(IpcEvent::FindReply { profile_id, browsing_context_id, request_id, number_of_matches, active_match_ordinal, selection_rect, final_update }) && profile_id == e.profile_id && browsing_context_id == TabId(e.tab_id) && request_id == e.request_id && number_of_matches == e.find_number_of_matches && active_match_ordinal == e.find_active_match_ordinal && selection_rect == spec_find_rect(e.find_selection_rect) && final_update == e.find_final_update),
        e.kind == codes::EVENT_TAB_IPC_MESSAGE_RECEIVED ==> (r matches Ok(IpcEvent::TabIpcMessageReceived { profile_id, browsing_context_id, channel, message_type, request_id, payload, content_type, error_code }) && profile_id == e.profile_id && browsing_context_id == TabId(e.tab_id) && channel == e.ipc_channel && message_type == ipc::ipc_message_type_of(e.ipc_message_type) && request_id == e.request_id && payload == ipc::spec_ipc_payload(e.ipc_payload_kind, e.ipc_payload_text, e.ipc_payload_binary) && content_type == spec_optional_text(e.ipc_content_type) && error_code == ipc::ipc_error_code_of(e.ipc_error_code)),
        e.kind == codes::EVENT_DRAG_START_REQUESTED ==> (r matches Ok(IpcEvent::DragStartRequested { profile_id, browsing_context_id, request }) && profile_id == e.profile_id && browsing_context_id == TabId(e.drag_start_request.tab_id) && request == spec_drag_start_request(e.drag_start_request)),
        e.kind == codes::EVENT_EXTERNAL_DRAG_OPERATION_CHANGED ==> (r matches Ok(IpcEvent::ExternalDragOperationChanged { profile_id, browsing_context_id, operation }) && profile_id == e.profile_id && browsing_context_id == TabId(e.tab_id) && operation == drag::drag_operation_of(e.drag_operation)),
        e.kind == codes::EVENT_PROMPT_UI_REQUESTED ==> (r matches Ok(IpcEvent::PromptUiOpenRequested { profile_id, source_tab_id, request_id, kind }) && profile_id == e.profile_id && source_tab_id == spec_prompt_source(e) && request_id == e.request_id && kind == spec_event_prompt_kind(e)),
        e.kind == codes::EVENT_PROMPT_UI_RESOLVED ==> (r matches Ok(IpcEvent::PromptUiResolved { profile_id, source_tab_id, request_id, resolution }) && profile_id == e.profile_id && source_tab_id == spec_prompt_source(e) && request_id == e.request_id && resolution == spec_prompt_ui_resolution( e.prompt_ui_kind, e.prompt_ui_permission, e.prompt_ui_permission_key, e.prompt_ui_result, e.download_id, e.download_destination_path, e.extension_id, e.extension_install_prompt_result, e.extension_uninstall_prompt_result, e.extension_install_prompt_detail, e.prompt_ui_report_abuse, e.prompt_ui_repost_reason, e.prompt_ui_repost_target_url, )),
        e.kind == codes::EVENT_CUSTOM_SCHEME_REQUEST_RECEIVED ==> (r matches Ok(IpcEvent::CustomSchemeRequestReceived { request }) && request == (ChromeCustomSchemeRequest { request_id: e.request_id, profile_id: e.profile_id, url: e.url, scheme: e.custom_scheme_scheme, host: e.custom_scheme_host, path: e.custom_scheme_path, query: spec_optional_text(e.custom_scheme_query), method: spec_request_method(e.custom_scheme_method) })),
        e.kind == codes::EVENT_EXTENSION_RUNTIME_WARNING ==> (r matches Ok(IpcEvent::ExtensionRuntimeWarning { profile_id, browsing_context_id, detail }) && profile_id == e.profile_id && browsing_context_id == TabId(e.tab_id) && detail == e.extension_runtime_warning),
        e.kind == codes::EVENT_PROMPT_UI_OPENED ==> (r matches Ok(IpcEvent::PromptUiOpened { profile_id, source_tab_id, prompt_ui_id, kind, title, modal }) && profile_id == e.profile_id && source_tab_id == spec_prompt_source(e) && prompt_ui_id == PromptUiId(e.prompt_ui_id) && kind == spec_event_prompt_kind(e) && title == spec_optional_text(e.prompt_ui_title) && modal == e.prompt_ui_modal),
        e.kind == codes::EVENT_PROMPT_UI_CLOSED ==> (r matches Ok(IpcEvent::PromptUiClosed { profile_id, source_tab_id, prompt_ui_id, kind, reason }) && profile_id == e.profile_id && source_tab_id == spec_prompt_source(e) && prompt_ui_id == PromptUiId(e.prompt_ui_id) && kind == spec_event_prompt_kind(e) && reason == prompt_ui::prompt_ui_close_reason_of(e.prompt_ui_close_reason)),
        e.kind == codes::EVENT_DOWNLOAD_CREATED ==> (r matches Ok(IpcEvent::DownloadCreated { profile_id, download }) && profile_id == e.profile_id && download == (ChromeDownloadSnapshot { download_id: ChromeDownloadId(e.download_id), source_tab_id: spec_download_source(e), file_name: e.download_file_name, total_bytes: spec_flagged(e.download_has_total_bytes, e.download_total_bytes), target_path: spec_optional_text(e.download_target_path) })),
        e.kind == codes::EVENT_DOWNLOAD_UPDATED ==> (r matches Ok(IpcEvent::DownloadUpdated { profile_id, download }) && profile_id == e.profile_id && download == (ChromeDownloadProgress { download_id: ChromeDownloadId(e.download_id), source_tab_id: spec_download_source(e), state: download::download_state_of(e.download_state), file_name: e.download_file_name, received_bytes: e.download_received_bytes, total_bytes: spec_flagged(e.download_has_total_bytes, e.download_total_bytes), target_path: spec_optional_text(e.download_target_path), can_resume: e.download_can_resume, is_paused: e.download_is_paused })),
        e.kind == codes::EVENT_DOWNLOAD_COMPLETED ==> (r matches Ok(IpcEvent::DownloadCompleted { profile_id, download }) && profile_id == e.profile_id && download == (ChromeDownloadCompletion { download_id: ChromeDownloadId(e.download_id), source_tab_id: spec_download_source(e), outcome: download::download_outcome_of(e.download_outcome), file_name: e.download_file_name, received_bytes: e.download_received_bytes, total_bytes: spec_flagged(e.download_has_total_bytes, e.download_total_bytes), target_path: spec_optional_text(e.download_target_path) })),
{
}

/// Events that carry a list or a menu keep the record's own values: IME
/// bounds keep their composition range and one bound per character, and have
/// a composition and a selection exactly when the record has them; a blocked
/// shutdown names the request and the tab; a choice menu keeps its request,
/// place, size, selected item, alignment and selection mode; an extension
/// list keeps each extension's id, name, version, state and permissions, in
/// order.
pub proof fn lemma_structured_events_keep_fields(e: BridgeEvent, r: Result<IpcEvent, BridgeError>)
    requires
        event_parsed(e, r),
    ensures
        e.kind == codes::EVENT_IME_BOUNDS_UPDATED ==> (r matches Ok(
            IpcEvent::ImeBoundsUpdated { profile_id, browsing_context_id, update },
        ) && profile_id == e.profile_id && browsing_context_id == TabId(e.tab_id) && (update.composition is Some
            <==> e.ime_bounds.has_composition) && (update.selection is Some <==> e.ime_bounds.has_selection)
            && (update.composition matches Some(c) ==> c.range_start == e.ime_bounds.composition.range_start
            && c.range_end == e.ime_bounds.composition.range_end && c.character_bounds.len()
            == e.ime_bounds.composition.character_bounds.len())),
        e.kind == codes::EVENT_SHUTDOWN_BLOCKED ==> (r matches Ok(
            IpcEvent::ShutdownBlocked { request_id, dirty_browsing_context_ids },
        ) && request_id == e.request_id && dirty_browsing_context_ids.len() == 1
            && dirty_browsing_context_ids@[0] == TabId(e.tab_id)),
        e.kind == codes::EVENT_CHOICE_MENU_REQUESTED ==> (r matches Ok(
            IpcEvent::ChoiceMenuRequested { profile_id, browsing_context_id, request_id, menu },
        ) && profile_id == e.profile_id && browsing_context_id == TabId(e.tab_id) && request_id
            == e.request_id && menu.request_id == e.choice_menu.request_id && menu.x == e.choice_menu.x
            && menu.y == e.choice_menu.y && menu.width == e.choice_menu.width && menu.height
            == e.choice_menu.height && menu.selected_item == e.choice_menu.selected_item
            && menu.right_aligned == e.choice_menu.right_aligned && (menu.selection_mode
            == ChromeChoiceMenuSelectionMode::Multiple <==> e.choice_menu.allow_multiple_selection)),
        e.kind == codes::EVENT_EXTENSIONS_LISTED ==> (r matches Ok(IpcEvent::ExtensionsListed { profile_id, extensions })
            && profile_id == e.profile_id && extensions.len() == e.extensions.len() && forall|i: int|
            0 <= i < extensions.len() ==> {
                &&& (#[trigger] extensions@[i]).id == e.extensions@[i].id
                &&& extensions@[i].name == e.extensions@[i].name
                &&& extensions@[i].version == e.extensions@[i].version
                &&& extensions@[i].enabled == e.extensions@[i].enabled
                &&& extensions@[i].permission_names == e.extensions@[i].permission_names
            }),
{
    if e.kind == codes::EVENT_EXTENSIONS_LISTED {
        if let Ok(IpcEvent::ExtensionsListed { extensions, .. }) = r {
            assert forall|i: int| 0 <= i < extensions.len() implies (#[trigger] extensions@[i]).id
                == e.extensions@[i].id by {
                assert(extensions@[i] == spec_extension_info(e.extensions@[i]));
            }
        }
    }
}

/// Decoding fails only on what the bridge does not define: an unknown event
/// kind, or a surface handle of an unknown kind; the failure is then an
/// invalid event.
pub proof fn lemma_parse_fails_only_on_unknown_input(e: BridgeEvent, r: Result<IpcEvent, BridgeError>)
    requires
        event_parsed(e, r),
    ensures
        r is Err <==> (!is_known_event_kind(e.kind) || has_unknown_surface(e)),
        r matches Err(err) ==> err == BridgeError::InvalidEvent,
{
}

/// Every context menu an event delivers holds only entries the host can
/// carry out, with separators tidied.
pub proof fn lemma_parsed_context_menus_supported(e: BridgeEvent, r: Result<IpcEvent, BridgeError>)
    requires
        event_parsed(e, r),
    ensures
        r matches Ok(IpcEvent::ContextMenuRequested { menu, .. }) ==> menu_supported(
            items_view(menu.items@),
        ),
        r matches Ok(IpcEvent::ExtensionPopupContextMenuRequested { menu, .. }) ==> menu_supported(
            items_view(menu.items@),
        ),
{
    lemma_filter_supported(bridge_items_view(e.context_menu.items@));
}

} // verus!
