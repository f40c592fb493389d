use cbf_chrome::codes;
use cbf_chrome::data::browsing_context_open::{ChromeBrowsingContextOpenHint, ChromeBrowsingContextOpenResult};
use cbf_chrome::data::context_menu::{
    filter_supported, ChromeContextMenu, ChromeContextMenuItem, ChromeContextMenuItemType,
    CMD_CONTENT_SAVE_IMAGE_AS,
};
use cbf_chrome::data::custom_scheme::{
    ChromeCustomSchemeRegistration, ChromeCustomSchemeRequest, ChromeCustomSchemeRequestMethod,
    ChromeCustomSchemeResponse, ChromeCustomSchemeResponseResult,
};
use cbf_chrome::data::find::{ChromeFindInPageOptions, ChromeStopFindAction};
use cbf_chrome::data::ids::TabId;
use cbf_chrome::data::tab_open::{TabOpenHint, TabOpenResult};

#[test]
fn find_options_default_to_forward_new_session() {
    let options = ChromeFindInPageOptions::new("needle".to_string());
    assert_eq!(options.query, "needle");
    assert!(options.forward);
    assert!(!options.match_case);
    assert!(options.new_session);
    assert!(options.find_match);
}

#[test]
fn stop_find_action_maps_to_expected_ffi_value() {
    assert_eq!(
        ChromeStopFindAction::ClearSelection.to_ffi(),
        codes::STOP_FIND_ACTION_CLEAR_SELECTION
    );
    assert_eq!(
        ChromeStopFindAction::KeepSelection.to_ffi(),
        codes::STOP_FIND_ACTION_KEEP_SELECTION
    );
    assert_eq!(
        ChromeStopFindAction::ActivateSelection.to_ffi(),
        codes::STOP_FIND_ACTION_ACTIVATE_SELECTION
    );
}

#[test]
fn request_method_as_str_returns_expected_value() {
    assert_eq!(ChromeCustomSchemeRequestMethod::Get.as_str(), "GET");
    assert_eq!(ChromeCustomSchemeRequestMethod::Other("HEAD".to_string()).as_str(), "HEAD");
}

#[test]
fn custom_scheme_models_are_cloneable() {
    let registration = ChromeCustomSchemeRegistration {
        scheme: "app".to_string(),
        host: "simpleapp".to_string(),
    };
    let request = ChromeCustomSchemeRequest {
        request_id: 1,
        profile_id: "profile".to_string(),
        url: "app://simpleapp/ui.html".to_string(),
        scheme: "app".to_string(),
        host: "simpleapp".to_string(),
        path: "/ui.html".to_string(),
        query: None,
        method: ChromeCustomSchemeRequestMethod::Get,
    };
    let response = ChromeCustomSchemeResponse {
        request_id: 1,
        result: ChromeCustomSchemeResponseResult::Succeeded,
        body: b"ok".to_vec(),
        mime_type: "text/plain".to_string(),
        content_security_policy: Some("default-src 'self'".to_string()),
        access_control_allow_origin: Some("app://simpleapp".to_string()),
    };

    assert_eq!(registration.clone(), registration);
    assert_eq!(request.clone(), request);
    assert_eq!(response.clone(), response);
}

#[test]
fn tab_open_hint_round_trip() {
    assert_eq!(
        TabOpenHint::from(ChromeBrowsingContextOpenHint::CurrentContext),
        TabOpenHint::CurrentTab
    );
    assert_eq!(
        TabOpenHint::NewBackgroundTab.to_browsing_context_open_hint(),
        Some(ChromeBrowsingContextOpenHint::NewBackgroundContext)
    );
    assert_eq!(TabOpenHint::Popup.to_browsing_context_open_hint(), None);
}

#[test]
fn tab_open_result_round_trip() {
    let raw = TabOpenResult::OpenedExistingTab { tab_id: TabId::new(42) };
    let chrome_result = ChromeBrowsingContextOpenResult::from(raw);
    let round_trip = TabOpenResult::from(chrome_result);

    assert_eq!(round_trip, raw);
}

fn command_item(command_id: i32) -> ChromeContextMenuItem {
    ChromeContextMenuItem {
        item_type: ChromeContextMenuItemType::Command,
        command_id,
        label: String::new(),
        secondary_label: String::new(),
        minor_text: String::new(),
        accessible_name: String::new(),
        enabled: true,
        visible: true,
        checked: false,
        group_id: 0,
        is_new_feature: false,
        is_alerted: false,
        may_have_mnemonics: false,
        accelerator: None,
        icon: None,
        minor_icon: None,
        submenu: Vec::new(),
    }
}

#[test]
fn filter_supported_keeps_save_image_as_item() {
    let menu = ChromeContextMenu {
        menu_id: 1,
        x: 0,
        y: 0,
        source_type: 0,
        items: vec![command_item(CMD_CONTENT_SAVE_IMAGE_AS)],
    };

    let filtered = filter_supported(menu);

    assert_eq!(filtered.items.len(), 1);
    assert_eq!(filtered.items[0].command_id, CMD_CONTENT_SAVE_IMAGE_AS);
}

#[test]
fn filter_supported_drops_unknown_commands_and_tidies_separators() {
    let mut separator = command_item(0);
    separator.item_type = ChromeContextMenuItemType::Separator;
    let mut second_separator = command_item(0);
    second_separator.item_type = ChromeContextMenuItemType::Separator;
    let mut empty_submenu = command_item(0);
    empty_submenu.item_type = ChromeContextMenuItemType::Submenu;
    empty_submenu.submenu = vec![command_item(-1)];
    let menu = ChromeContextMenu {
        menu_id: 2,
        x: 5,
        y: 6,
        source_type: 1,
        items: vec![
            separator,
            command_item(CMD_CONTENT_SAVE_IMAGE_AS),
            command_item(-1),
            second_separator,
            empty_submenu,
        ],
    };

    let filtered = filter_supported(menu);

    assert_eq!(filtered.menu_id, 2);
    assert_eq!(filtered.x, 5);
    assert_eq!(filtered.items.len(), 1);
    assert_eq!(filtered.items[0].command_id, CMD_CONTENT_SAVE_IMAGE_AS);
}
