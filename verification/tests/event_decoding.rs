use cbf_chrome::bridge::event::IpcEvent;
use cbf_chrome::bridge::map::{
    parse_event, BridgeChoiceMenuItem, BridgeContextMenuItem, BridgeEvent, BridgeExtensionInfo,
    BridgeIconData, BridgeRect,
};
use cbf_chrome::bridge::BridgeError;
use cbf_chrome::codes;
use cbf_chrome::data::choice_menu::{ChromeChoiceMenuItemType, ChromeChoiceMenuSelectionMode};
use cbf_chrome::data::context_menu::{CMD_CONTENT_SAVE_IMAGE_AS, CMD_BACK};
use cbf_chrome::data::cursor::ChromeCursorType;
use cbf_chrome::data::custom_scheme::ChromeCustomSchemeRequestMethod;
use cbf_chrome::data::download::{ChromeDownloadId, ChromeDownloadPromptReason, ChromeDownloadState};
use cbf_chrome::data::extension::ChromeIconData;
use cbf_chrome::data::ids::{PopupId, TabId};
use cbf_chrome::data::ipc::{TabIpcErrorCode, TabIpcPayload};
use cbf_chrome::data::prompt_ui::{
    PromptUiCloseReason, PromptUiDialogResult, PromptUiExtensionInstallResult, PromptUiId,
    PromptUiKind, PromptUiPermissionType, PromptUiResolution, PromptUiResolutionResult,
};
use cbf_chrome::data::surface::SurfaceHandle;
use cbf_chrome::data::tab_open::TabOpenResult;

fn make_event(kind: u8) -> BridgeEvent {
    BridgeEvent { kind, ..Default::default() }
}

#[test]
fn parse_event_tab_created_maps_tab_id() {
    let mut event = make_event(codes::EVENT_TAB_CREATED);
    event.tab_id = 7;
    event.request_id = 11;

    let parsed = parse_event(event).expect("tab created should parse");
    assert!(matches!(
        parsed,
        IpcEvent::TabCreated { browsing_context_id, request_id, .. }
            if browsing_context_id == TabId::new(7) && request_id == 11
    ));
}

#[test]
fn parse_event_shutdown_blocked_maps_dirty_tab_id() {
    let mut event = make_event(codes::EVENT_SHUTDOWN_BLOCKED);
    event.request_id = 9;
    event.tab_id = 2;

    let parsed = parse_event(event).expect("shutdown blocked should parse");
    assert!(matches!(
        parsed,
        IpcEvent::ShutdownBlocked { request_id, dirty_browsing_context_ids }
            if request_id == 9 && dirty_browsing_context_ids == vec![TabId::new(2)]
    ));
}

#[test]
fn parse_event_extension_popup_ime_bounds_maps_popup_id() {
    let mut event = make_event(codes::EVENT_EXTENSION_POPUP_IME_BOUNDS_UPDATED);
    event.tab_id = 44;
    event.extension_popup_id = 88;
    event.ime_bounds.has_selection = true;
    event.ime_bounds.selection.range_start = 1;
    event.ime_bounds.selection.range_end = 1;
    event.ime_bounds.selection.caret_rect = BridgeRect { x: 10, y: 20, width: 2, height: 16 };
    event.ime_bounds.selection.first_selection_rect = BridgeRect { x: 10, y: 20, width: 2, height: 16 };

    let parsed = parse_event(event).expect("popup ime bounds should parse");
    assert!(matches!(
        parsed,
        IpcEvent::ExtensionPopupImeBoundsUpdated { browsing_context_id, popup_id, update, .. }
            if browsing_context_id == TabId::new(44)
                && popup_id == PopupId::new(88)
                && update.selection.as_ref().is_some_and(|selection| selection.range_start == 1)
    ));
}

#[test]
fn parse_event_ime_bounds_keeps_composition_rects_in_order() {
    let mut event = make_event(codes::EVENT_IME_BOUNDS_UPDATED);
    event.ime_bounds.has_composition = true;
    event.ime_bounds.composition.range_start = 2;
    event.ime_bounds.composition.range_end = 4;
    event.ime_bounds.composition.character_bounds = vec![
        BridgeRect { x: 1, y: 2, width: 3, height: 4 },
        BridgeRect { x: 5, y: 6, width: 7, height: 8 },
    ];

    let parsed = parse_event(event).expect("ime bounds should parse");
    match parsed {
        IpcEvent::ImeBoundsUpdated { update, .. } => {
            assert!(update.selection.is_none());
            let composition = update.composition.expect("composition is flagged");
            assert_eq!(composition.range_start, 2);
            assert_eq!(composition.character_bounds.len(), 2);
            assert_eq!(composition.character_bounds[1].x, 5);
            assert_eq!(composition.character_bounds[1].height, 8);
        },
        other => panic!("unexpected event {other:?}"),
    }
}

#[test]
fn parse_event_find_reply_maps_selection_rect() {
    let mut event = make_event(codes::EVENT_FIND_REPLY);
    event.tab_id = 52;
    event.request_id = 7;
    event.find_number_of_matches = 9;
    event.find_active_match_ordinal = 3;
    event.find_selection_rect = BridgeRect { x: 10, y: 11, width: 12, height: 13 };
    event.find_final_update = true;

    let parsed = parse_event(event).expect("find reply should parse");
    assert!(matches!(
        parsed,
        IpcEvent::FindReply {
            browsing_context_id,
            request_id,
            number_of_matches,
            active_match_ordinal,
            selection_rect,
            final_update,
            ..
        } if browsing_context_id == TabId::new(52)
            && request_id == 7
            && number_of_matches == 9
            && active_match_ordinal == 3
            && selection_rect.x == 10
            && selection_rect.height == 13
            && final_update
    ));
}

#[test]
fn parse_event_tab_open_resolved_maps_target_tab_id() {
    let mut event = make_event(codes::EVENT_TAB_OPEN_RESOLVED);
    event.request_id = 55;
    event.tab_open_result_kind = codes::TAB_OPEN_RESULT_OPENED_NEW_CONTEXT;
    event.tab_open_has_target = true;
    event.tab_open_target_tab_id = 123;

    let parsed = parse_event(event).expect("tab open resolved should parse");
    assert!(matches!(
        parsed,
        IpcEvent::TabOpenResolved { request_id, result: TabOpenResult::OpenedNewTab { tab_id }, .. }
            if request_id == 55 && tab_id.get() == 123
    ));
}

#[test]
fn parse_event_tab_open_resolved_without_target_is_aborted() {
    let mut event = make_event(codes::EVENT_TAB_OPEN_RESOLVED);
    event.tab_open_result_kind = codes::TAB_OPEN_RESULT_OPENED_EXISTING_CONTEXT;
    event.tab_open_has_target = false;

    let parsed = parse_event(event).expect("tab open resolved should parse");
    assert!(matches!(parsed, IpcEvent::TabOpenResolved { result: TabOpenResult::Aborted, .. }));
}

#[test]
fn parse_event_prompt_ui_open_requested_maps_permission_kind() {
    let mut event = make_event(codes::EVENT_PROMPT_UI_REQUESTED);
    event.prompt_ui_has_source_tab_id = true;
    event.prompt_ui_source_tab_id = 21;
    event.request_id = 99;
    event.prompt_ui_kind = codes::PROMPT_UI_KIND_PERMISSION_PROMPT;
    event.prompt_ui_permission = codes::PROMPT_UI_PERMISSION_GEOLOCATION;
    event.prompt_ui_permission_key = "geolocation".to_string();

    let parsed = parse_event(event).expect("prompt ui requested should parse");
    assert!(matches!(
        parsed,
        IpcEvent::PromptUiOpenRequested {
            source_tab_id: Some(source_tab_id),
            request_id,
            kind: PromptUiKind::PermissionPrompt {
                permission: PromptUiPermissionType::Geolocation,
                permission_key: Some(ref permission_key),
            },
            ..
        } if source_tab_id == TabId::new(21)
            && request_id == 99
            && permission_key == "geolocation"
    ));
}

#[test]
fn parse_event_prompt_ui_open_requested_maps_download_kind() {
    let mut event = make_event(codes::EVENT_PROMPT_UI_REQUESTED);
    event.prompt_ui_has_source_tab_id = true;
    event.prompt_ui_source_tab_id = 31;
    event.request_id = 109;
    event.prompt_ui_kind = codes::PROMPT_UI_KIND_DOWNLOAD_PROMPT;
    event.download_reason = codes::DOWNLOAD_REASON_SAVE_AS;
    event.download_id = 55;
    event.download_file_name = "sample.zip".to_string();
    event.download_suggested_path = "/tmp/sample.zip".to_string();
    event.download_has_total_bytes = true;
    event.download_total_bytes = 1234;

    let parsed = parse_event(event).expect("download prompt requested should parse");
    assert!(matches!(
        parsed,
        IpcEvent::PromptUiOpenRequested {
            source_tab_id: Some(source_tab_id),
            request_id,
            kind: PromptUiKind::DownloadPrompt {
                download_id,
                file_name,
                total_bytes: Some(1234),
                suggested_path: Some(ref suggested_path),
                reason: ChromeDownloadPromptReason::SaveAs,
            },
            ..
        } if source_tab_id == TabId::new(31)
            && request_id == 109
            && download_id == ChromeDownloadId::new(55)
            && file_name == "sample.zip"
            && suggested_path == "/tmp/sample.zip"
    ));
}

#[test]
fn parse_event_prompt_ui_open_requested_maps_unknown_download_reason() {
    let mut event = make_event(codes::EVENT_PROMPT_UI_REQUESTED);
    event.tab_id = 31;
    event.request_id = 110;
    event.prompt_ui_kind = codes::PROMPT_UI_KIND_DOWNLOAD_PROMPT;
    event.download_reason = 250;
    event.download_id = 56;
    event.download_file_name = "sample-2.zip".to_string();

    let parsed = parse_event(event).expect("download prompt requested should parse");
    assert!(matches!(
        parsed,
        IpcEvent::PromptUiOpenRequested {
            kind: PromptUiKind::DownloadPrompt { reason: ChromeDownloadPromptReason::Unknown, .. },
            ..
        }
    ));
}

#[test]
fn parse_event_prompt_ui_resolved_maps_result() {
    let mut event = make_event(codes::EVENT_PROMPT_UI_RESOLVED);
    event.prompt_ui_has_source_tab_id = true;
    event.prompt_ui_source_tab_id = 18;
    event.request_id = 77;
    event.prompt_ui_kind = codes::PROMPT_UI_KIND_PERMISSION_PROMPT;
    event.prompt_ui_permission = codes::PROMPT_UI_PERMISSION_NOTIFICATIONS;
    event.prompt_ui_result = codes::PROMPT_UI_RESOLUTION_DENIED;
    event.prompt_ui_permission_key = "notifications".to_string();

    let parsed = parse_event(event).expect("prompt ui resolved should parse");
    assert!(matches!(
        parsed,
        IpcEvent::PromptUiResolved {
            source_tab_id: Some(source_tab_id),
            request_id,
            resolution: PromptUiResolution::PermissionPrompt {
                permission: PromptUiPermissionType::Notifications,
                permission_key: Some(ref permission_key),
                result: PromptUiResolutionResult::Denied
            },
            ..
        } if source_tab_id == TabId::new(18)
            && request_id == 77
            && permission_key == "notifications"
    ));
}

#[test]
fn parse_event_prompt_ui_opened_maps_extension_kind_and_metadata() {
    let mut event = make_event(codes::EVENT_PROMPT_UI_OPENED);
    event.prompt_ui_has_source_tab_id = true;
    event.prompt_ui_source_tab_id = 12;
    event.prompt_ui_id = 44;
    event.prompt_ui_kind = codes::PROMPT_UI_KIND_EXTENSION_INSTALL_PROMPT;
    event.prompt_ui_title = "Install extension".to_string();
    event.prompt_ui_modal = true;
    event.extension_id = "ext-id".to_string();
    event.extension_name = "Ext".to_string();
    event.permission_names = vec!["tabs".to_string(), "storage".to_string()];

    let parsed = parse_event(event).expect("prompt ui opened should parse");
    assert!(matches!(
        parsed,
        IpcEvent::PromptUiOpened {
            source_tab_id: Some(source_tab_id),
            prompt_ui_id,
            kind: PromptUiKind::ExtensionInstallPrompt { extension_id, extension_name, permission_names },
            title: Some(ref title),
            modal,
            ..
        } if source_tab_id == TabId::new(12)
            && prompt_ui_id == PromptUiId::new(44)
            && extension_id == "ext-id"
            && extension_name == "Ext"
            && permission_names == vec!["tabs".to_string(), "storage".to_string()]
            && title == "Install extension"
            && modal
    ));
}

fn extension_with_icon(enabled: bool, icon: BridgeIconData) -> BridgeExtensionInfo {
    BridgeExtensionInfo {
        id: "ext".to_string(),
        name: "Example".to_string(),
        version: "1.0.0".to_string(),
        enabled,
        permission_names: Vec::new(),
        icon,
    }
}

#[test]
fn parse_event_extensions_listed_maps_png_icon() {
    let mut event = make_event(codes::EVENT_EXTENSIONS_LISTED);
    event.extensions = vec![extension_with_icon(
        true,
        BridgeIconData { kind: codes::ICON_DATA_PNG, bytes: vec![1, 2, 3], ..Default::default() },
    )];

    let parsed = parse_event(event).expect("extensions listed should parse");
    assert!(matches!(
        parsed,
        IpcEvent::ExtensionsListed { extensions, .. }
            if matches!(
                extensions.as_slice(),
                [cbf_chrome::data::extension::ChromeExtensionInfo {
                    icon: Some(ChromeIconData::Png(icon)),
                    ..
                }] if icon == &vec![1, 2, 3]
            )
    ));
}

#[test]
fn parse_event_extensions_listed_maps_missing_icon_to_none() {
    let mut event = make_event(codes::EVENT_EXTENSIONS_LISTED);
    event.extensions = vec![extension_with_icon(
        false,
        BridgeIconData { kind: codes::ICON_DATA_PNG, bytes: Vec::new(), ..Default::default() },
    )];

    let parsed = parse_event(event).expect("extensions listed should parse");
    assert!(matches!(
        parsed,
        IpcEvent::ExtensionsListed { extensions, .. }
            if matches!(
                extensions.as_slice(),
                [cbf_chrome::data::extension::ChromeExtensionInfo { icon: None, .. }]
            )
    ));
}

#[test]
fn parse_event_extensions_listed_maps_binary_icon() {
    let mut event = make_event(codes::EVENT_EXTENSIONS_LISTED);
    event.extensions = vec![extension_with_icon(
        true,
        BridgeIconData {
            kind: codes::ICON_DATA_BINARY,
            bytes: vec![4, 5, 6],
            media_type: "image/webp".to_string(),
            ..Default::default()
        },
    )];

    let parsed = parse_event(event).expect("extensions listed should parse");
    assert!(matches!(
        parsed,
        IpcEvent::ExtensionsListed { extensions, .. }
            if matches!(
                extensions.as_slice(),
                [cbf_chrome::data::extension::ChromeExtensionInfo {
                    icon: Some(ChromeIconData::Binary { media_type: Some(media_type), bytes: icon_bytes }),
                    ..
                }] if media_type == "image/webp" && icon_bytes == &vec![4, 5, 6]
            )
    ));
}

#[test]
fn parse_event_extensions_listed_keeps_order_and_url_icons() {
    let mut event = make_event(codes::EVENT_EXTENSIONS_LISTED);
    event.extensions = vec![
        extension_with_icon(
            true,
            BridgeIconData { kind: codes::ICON_DATA_URL, url: "https://icon".to_string(), ..Default::default() },
        ),
        extension_with_icon(
            true,
            BridgeIconData { kind: codes::ICON_DATA_URL, url: String::new(), ..Default::default() },
        ),
    ];
    event.extensions[1].id = "second".to_string();

    let parsed = parse_event(event).expect("extensions listed should parse");
    match parsed {
        IpcEvent::ExtensionsListed { extensions, .. } => {
            assert_eq!(extensions.len(), 2);
            assert_eq!(extensions[0].icon, Some(ChromeIconData::Url("https://icon".to_string())));
            assert_eq!(extensions[1].id, "second");
            assert_eq!(extensions[1].icon, None);
        },
        other => panic!("unexpected event {other:?}"),
    }
}

#[test]
fn parse_event_prompt_ui_closed_maps_reason() {
    let mut event = make_event(codes::EVENT_PROMPT_UI_CLOSED);
    event.prompt_ui_has_source_tab_id = true;
    event.prompt_ui_source_tab_id = 8;
    event.prompt_ui_id = 19;
    event.prompt_ui_kind = codes::PROMPT_UI_KIND_PRINT_PREVIEW_DIALOG;
    event.prompt_ui_close_reason = codes::PROMPT_UI_CLOSE_HOST_FORCED;

    let parsed = parse_event(event).expect("prompt ui closed should parse");
    assert!(matches!(
        parsed,
        IpcEvent::PromptUiClosed {
            source_tab_id: Some(source_tab_id),
            prompt_ui_id,
            kind: PromptUiKind::PrintPreviewDialog,
            reason: PromptUiCloseReason::HostForced,
            ..
        } if source_tab_id == TabId::new(8)
            && prompt_ui_id == PromptUiId::new(19)
    ));
}

#[test]
fn parse_event_prompt_ui_resolved_maps_extension_install_result() {
    let mut event = make_event(codes::EVENT_PROMPT_UI_RESOLVED);
    event.prompt_ui_has_source_tab_id = true;
    event.prompt_ui_source_tab_id = 99;
    event.request_id = 101;
    event.prompt_ui_kind = codes::PROMPT_UI_KIND_EXTENSION_INSTALL_PROMPT;
    event.extension_id = "abc".to_string();
    event.extension_install_prompt_result = codes::EXTENSION_INSTALL_ACCEPTED_WITH_WITHHELD_PERMISSIONS;
    event.extension_install_prompt_detail = "withheld".to_string();

    let parsed = parse_event(event).expect("prompt ui resolved should parse");
    assert!(matches!(
        parsed,
        IpcEvent::PromptUiResolved {
            source_tab_id: Some(source_tab_id),
            request_id,
            resolution: PromptUiResolution::ExtensionInstallPrompt {
                extension_id,
                result: PromptUiExtensionInstallResult::AcceptedWithWithheldPermissions,
                detail: Some(ref detail),
            },
            ..
        } if source_tab_id == TabId::new(99)
            && request_id == 101
            && extension_id == "abc"
            && detail == "withheld"
    ));
}

#[test]
fn parse_event_prompt_ui_resolved_maps_print_preview_result() {
    let mut event = make_event(codes::EVENT_PROMPT_UI_RESOLVED);
    event.prompt_ui_has_source_tab_id = true;
    event.prompt_ui_source_tab_id = 41;
    event.request_id = 51;
    event.prompt_ui_kind = codes::PROMPT_UI_KIND_PRINT_PREVIEW_DIALOG;
    event.prompt_ui_result = codes::PROMPT_UI_DIALOG_CANCELED;

    let parsed = parse_event(event).expect("prompt ui resolved should parse");
    assert!(matches!(
        parsed,
        IpcEvent::PromptUiResolved {
            source_tab_id: Some(source_tab_id),
            request_id,
            resolution: PromptUiResolution::PrintPreviewDialog { result: PromptUiDialogResult::Canceled },
            ..
        } if source_tab_id == TabId::new(41)
            && request_id == 51
    ));
}

#[test]
fn parse_event_prompt_ui_requested_maps_extension_kind() {
    let mut event = make_event(codes::EVENT_PROMPT_UI_REQUESTED);
    event.prompt_ui_has_source_tab_id = true;
    event.prompt_ui_source_tab_id = 64;
    event.request_id = 808;
    event.prompt_ui_kind = codes::PROMPT_UI_KIND_EXTENSION_INSTALL_PROMPT;
    event.extension_id = "ext-aux".to_string();
    event.extension_name = "AuxExt".to_string();

    let parsed = parse_event(event).expect("prompt ui requested should parse");
    assert!(matches!(
        parsed,
        IpcEvent::PromptUiOpenRequested {
            source_tab_id: Some(source_tab_id),
            request_id,
            kind: PromptUiKind::ExtensionInstallPrompt { extension_id, extension_name, .. },
            ..
        } if source_tab_id == TabId::new(64)
            && request_id == 808
            && extension_id == "ext-aux"
            && extension_name == "AuxExt"
    ));
}

#[test]
fn parse_event_prompt_without_source_tab_has_none() {
    let mut event = make_event(codes::EVENT_PROMPT_UI_REQUESTED);
    event.prompt_ui_source_tab_id = 64;
    event.prompt_ui_kind = 200;

    let parsed = parse_event(event).expect("prompt ui requested should parse");
    assert!(matches!(
        parsed,
        IpcEvent::PromptUiOpenRequested { source_tab_id: None, kind: PromptUiKind::Unknown, .. }
    ));
}

#[test]
fn parse_event_unknown_kind_is_invalid() {
    assert_eq!(parse_event(make_event(200)).err(), Some(BridgeError::InvalidEvent));
}

#[test]
fn parse_event_surface_handles() {
    let mut event = make_event(codes::EVENT_SURFACE_HANDLE_UPDATED);
    event.surface_handle.kind = codes::SURFACE_HANDLE_MAC_CA_CONTEXT_ID;
    event.surface_handle.ca_context_id = 42;
    let parsed = parse_event(event).expect("surface handle should parse");
    assert!(matches!(
        parsed,
        IpcEvent::SurfaceHandleUpdated { handle: SurfaceHandle::MacCaContextId(42), .. }
    ));

    let mut unknown = make_event(codes::EVENT_EXTENSION_POPUP_SURFACE_HANDLE_UPDATED);
    unknown.surface_handle.kind = 77;
    assert_eq!(parse_event(unknown).err(), Some(BridgeError::InvalidEvent));
}

#[test]
fn parse_event_context_menu_keeps_supported_commands() {
    let mut event = make_event(codes::EVENT_CONTEXT_MENU_REQUESTED);
    event.tab_id = 3;
    event.context_menu.menu_id = 12;
    event.context_menu.items = vec![
        BridgeContextMenuItem { item_type: codes::MENU_ITEM_SEPARATOR, ..Default::default() },
        BridgeContextMenuItem {
            item_type: codes::MENU_ITEM_COMMAND,
            command_id: CMD_BACK,
            label: "Back".to_string(),
            has_accelerator: true,
            accelerator_key_equivalent: "[".to_string(),
            accelerator_modifier_mask: 1,
            ..Default::default()
        },
        BridgeContextMenuItem { item_type: codes::MENU_ITEM_COMMAND, command_id: -12345, ..Default::default() },
        BridgeContextMenuItem { item_type: codes::MENU_ITEM_SEPARATOR, ..Default::default() },
    ];

    let parsed = parse_event(event).expect("context menu should parse");
    match parsed {
        IpcEvent::ContextMenuRequested { browsing_context_id, menu, .. } => {
            assert_eq!(browsing_context_id, TabId::new(3));
            assert_eq!(menu.menu_id, 12);
            assert_eq!(menu.items.len(), 1);
            assert_eq!(menu.items[0].command_id, CMD_BACK);
            assert_eq!(menu.items[0].label, "Back");
            let accelerator = menu.items[0].accelerator.as_ref().expect("flagged accelerator");
            assert_eq!(accelerator.key_equivalent, "[");
            assert!(menu.items[0].icon.is_none());
        },
        other => panic!("unexpected event {other:?}"),
    }
}

#[test]
fn parse_event_context_menu_keeps_save_image_as_in_submenu() {
    let mut event = make_event(codes::EVENT_EXTENSION_POPUP_CONTEXT_MENU_REQUESTED);
    event.extension_popup_id = 6;
    event.context_menu.items = vec![BridgeContextMenuItem {
        item_type: codes::MENU_ITEM_SUBMENU,
        submenu: vec![BridgeContextMenuItem {
            item_type: codes::MENU_ITEM_COMMAND,
            command_id: CMD_CONTENT_SAVE_IMAGE_AS,
            ..Default::default()
        }],
        ..Default::default()
    }];

    let parsed = parse_event(event).expect("popup context menu should parse");
    match parsed {
        IpcEvent::ExtensionPopupContextMenuRequested { popup_id, menu, .. } => {
            assert_eq!(popup_id, PopupId::new(6));
            assert_eq!(menu.items.len(), 1);
            assert_eq!(menu.items[0].submenu.len(), 1);
            assert_eq!(menu.items[0].submenu[0].command_id, CMD_CONTENT_SAVE_IMAGE_AS);
        },
        other => panic!("unexpected event {other:?}"),
    }
}

#[test]
fn parse_event_choice_menu_decodes_items_and_selection_mode() {
    let mut event = make_event(codes::EVENT_CHOICE_MENU_REQUESTED);
    event.request_id = 31;
    event.choice_menu.request_id = 31;
    event.choice_menu.allow_multiple_selection = true;
    event.choice_menu.selected_item = 1;
    event.choice_menu.items = vec![
        BridgeChoiceMenuItem {
            item_type: codes::CHOICE_MENU_ITEM_GROUP,
            label: "Fruits".to_string(),
            children: vec![BridgeChoiceMenuItem {
                item_type: codes::CHOICE_MENU_ITEM_OPTION,
                label: "Apple".to_string(),
                action: 1,
                enabled: true,
                ..Default::default()
            }],
            ..Default::default()
        },
        BridgeChoiceMenuItem { item_type: 99, ..Default::default() },
    ];

    let parsed = parse_event(event).expect("choice menu should parse");
    match parsed {
        IpcEvent::ChoiceMenuRequested { request_id, menu, .. } => {
            assert_eq!(request_id, 31);
            assert_eq!(menu.selection_mode, ChromeChoiceMenuSelectionMode::Multiple);
            assert_eq!(menu.selected_item, 1);
            assert_eq!(menu.items.len(), 2);
            assert_eq!(menu.items[0].item_type, ChromeChoiceMenuItemType::Group);
            assert_eq!(menu.items[0].label.as_deref(), Some("Fruits"));
            assert_eq!(menu.items[0].tool_tip, None);
            assert_eq!(menu.items[0].children[0].label.as_deref(), Some("Apple"));
            assert_eq!(menu.items[1].item_type, ChromeChoiceMenuItemType::Option);
        },
        other => panic!("unexpected event {other:?}"),
    }
}

#[test]
fn parse_event_cursor_and_dialogs_decode_codes() {
    let mut event = make_event(codes::EVENT_CURSOR_CHANGED);
    event.cursor_type = codes::CURSOR_GRABBING;
    assert!(matches!(
        parse_event(event),
        Ok(IpcEvent::CursorChanged { cursor_type: ChromeCursorType::Grabbing, .. })
    ));

    let mut unknown = make_event(codes::EVENT_EXTENSION_POPUP_CURSOR_CHANGED);
    unknown.cursor_type = 250;
    assert!(matches!(
        parse_event(unknown),
        Ok(IpcEvent::ExtensionPopupCursorChanged { cursor_type: ChromeCursorType::Default, .. })
    ));

    let mut dialog = make_event(codes::EVENT_JAVASCRIPT_DIALOG_REQUESTED);
    dialog.message = "Leave?".to_string();
    dialog.default_prompt_text = String::new();
    assert!(matches!(
        parse_event(dialog),
        Ok(IpcEvent::JavaScriptDialogRequested { default_prompt_text: None, ref message, .. }) if message == "Leave?"
    ));
}

#[test]
fn parse_event_ipc_message_decodes_payload_and_error() {
    let mut event = make_event(codes::EVENT_TAB_IPC_MESSAGE_RECEIVED);
    event.ipc_channel = "chan".to_string();
    event.ipc_payload_kind = codes::IPC_PAYLOAD_BINARY;
    event.ipc_payload_binary = vec![9];
    event.ipc_error_code = codes::IPC_ERROR_TIMEOUT;
    assert!(matches!(
        parse_event(event),
        Ok(IpcEvent::TabIpcMessageReceived {
            payload: TabIpcPayload::Binary(ref bytes),
            error_code: Some(TabIpcErrorCode::Timeout),
            content_type: None,
            ..
        }) if bytes == &vec![9]
    ));

    let mut empty_binary = make_event(codes::EVENT_TAB_IPC_MESSAGE_RECEIVED);
    empty_binary.ipc_payload_kind = codes::IPC_PAYLOAD_BINARY;
    empty_binary.ipc_payload_text = "fallback".to_string();
    assert!(matches!(
        parse_event(empty_binary),
        Ok(IpcEvent::TabIpcMessageReceived { payload: TabIpcPayload::Text(ref text), error_code: None, .. })
            if text == "fallback"
    ));
}

#[test]
fn parse_event_custom_scheme_request_names_get() {
    let mut event = make_event(codes::EVENT_CUSTOM_SCHEME_REQUEST_RECEIVED);
    event.request_id = 5;
    event.custom_scheme_method = "GET".to_string();
    event.custom_scheme_query = "a=1".to_string();
    assert!(matches!(
        parse_event(event),
        Ok(IpcEvent::CustomSchemeRequestReceived { ref request })
            if request.method == ChromeCustomSchemeRequestMethod::Get
                && request.query.as_deref() == Some("a=1")
                && request.request_id == 5
    ));

    let mut post = make_event(codes::EVENT_CUSTOM_SCHEME_REQUEST_RECEIVED);
    post.custom_scheme_method = "POST".to_string();
    assert!(matches!(
        parse_event(post),
        Ok(IpcEvent::CustomSchemeRequestReceived { ref request })
            if request.method == ChromeCustomSchemeRequestMethod::Other("POST".to_string())
                && request.query.is_none()
    ));
}

#[test]
fn parse_event_download_progress_decodes_state() {
    let mut event = make_event(codes::EVENT_DOWNLOAD_UPDATED);
    event.download_id = 3;
    event.download_state = codes::DOWNLOAD_STATE_PAUSED;
    event.download_received_bytes = 10;
    event.download_has_source_tab_id = true;
    event.download_source_tab_id = 4;
    event.download_is_paused = true;
    assert!(matches!(
        parse_event(event),
        Ok(IpcEvent::DownloadUpdated { ref download, .. })
            if download.state == ChromeDownloadState::Paused
                && download.received_bytes == 10
                && download.source_tab_id == Some(TabId::new(4))
                && download.total_bytes.is_none()
                && download.target_path.is_none()
                && download.is_paused
    ));
}
