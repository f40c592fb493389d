use cbf_chrome::bridge::call::BridgeCall;
use cbf_chrome::bridge::client::IpcClient;
use cbf_chrome::bridge::BridgeError;
use cbf_chrome::codes;
use cbf_chrome::command::{plan_command, ChromeCommand};
use cbf_chrome::data::edit::{edit_action_to_ffi, ChromeEditAction};
use cbf_chrome::data::ids::{PopupId, TabId};

#[test]
fn tab_created_without_url_opens_about_blank() {
    let mut client = IpcClient::from_handle(7);
    let command = ChromeCommand::CreateTab {
        request_id: 3,
        initial_url: None,
        profile_id: "default".to_string(),
    };
    assert_eq!(
        plan_command(&mut client, &command),
        Ok(BridgeCall::CreateTab {
            handle: 7,
            request_id: 3,
            url: "about:blank".to_string(),
            profile_id: "default".to_string(),
            has_policy: false,
            ipc_policy: codes::IPC_POLICY_DENY,
            allowed_origins: Vec::new(),
            extensions_policy: codes::CAPABILITY_POLICY_ALLOW,
        })
    );
}

#[test]
fn tab_created_with_url_opens_it() {
    let mut client = IpcClient::from_handle(7);
    let command = ChromeCommand::CreateTab {
        request_id: 4,
        initial_url: Some("https://example.com".to_string()),
        profile_id: "work".to_string(),
    };
    match plan_command(&mut client, &command) {
        Ok(BridgeCall::CreateTab { url, profile_id, request_id, .. }) => {
            assert_eq!(url, "https://example.com");
            assert_eq!(profile_id, "work");
            assert_eq!(request_id, 4);
        }
        other => panic!("unexpected plan: {other:?}"),
    }
}

#[test]
fn permission_answer_is_a_permission_prompt_response() {
    let mut client = IpcClient::from_handle(9);
    let command = ChromeCommand::ConfirmPermission {
        browsing_context_id: TabId::new(5),
        request_id: 11,
        allow: true,
    };
    assert_eq!(
        plan_command(&mut client, &command),
        Ok(BridgeCall::RespondPromptUiForTab {
            handle: 9,
            tab_id: 5,
            request_id: 11,
            kind: codes::PROMPT_UI_KIND_PERMISSION_PROMPT,
            proceed: true,
            report_abuse: false,
            destination_path: None,
        })
    );
}

#[test]
fn simple_command_carries_its_fields() {
    let mut client = IpcClient::from_handle(2);
    let command = ChromeCommand::SetTabSize { browsing_context_id: TabId::new(8), width: 640, height: 480 };
    assert_eq!(
        plan_command(&mut client, &command),
        Ok(BridgeCall::SetTabSize { handle: 2, tab_id: 8, width: 640, height: 480 })
    );
    assert_eq!(plan_command(&mut client, &ChromeCommand::ListProfiles), Ok(BridgeCall::ListProfiles { handle: 2 }));
}

#[test]
fn commands_on_a_closed_client_are_refused() {
    let mut client = IpcClient::from_handle(0);
    assert_eq!(
        plan_command(&mut client, &ChromeCommand::ForceShutdown),
        Err(BridgeError::InvalidState)
    );
    let navigate = ChromeCommand::Navigate { browsing_context_id: TabId::new(1), url: "a\0b".to_string() };
    assert_eq!(plan_command(&mut client, &navigate), Err(BridgeError::InvalidState));
}

#[test]
fn text_with_nul_is_invalid_input() {
    let mut client = IpcClient::from_handle(1);
    let navigate = ChromeCommand::Navigate { browsing_context_id: TabId::new(1), url: "a\0b".to_string() };
    assert_eq!(plan_command(&mut client, &navigate), Err(BridgeError::InvalidInput));
}

#[test]
fn edit_actions_carry_their_codes() {
    let mut client = IpcClient::from_handle(4);
    let command = ChromeCommand::ExecuteEditAction { browsing_context_id: TabId::new(6), action: ChromeEditAction::Paste };
    assert_eq!(
        plan_command(&mut client, &command),
        Ok(BridgeCall::ExecuteEditAction { handle: 4, tab_id: 6, action: codes::EDIT_ACTION_PASTE })
    );
    let popup = ChromeCommand::ExecuteExtensionPopupEditAction { popup_id: PopupId::new(2), action: ChromeEditAction::SelectAll };
    assert_eq!(
        plan_command(&mut client, &popup),
        Ok(BridgeCall::ExecuteExtensionPopupEditAction { handle: 4, popup_id: 2, action: codes::EDIT_ACTION_SELECT_ALL })
    );
    let all = [
        ChromeEditAction::Undo,
        ChromeEditAction::Redo,
        ChromeEditAction::Cut,
        ChromeEditAction::Copy,
        ChromeEditAction::Paste,
        ChromeEditAction::SelectAll,
    ];
    let codes_seen: Vec<u8> = all.iter().map(|a| edit_action_to_ffi(*a)).collect();
    assert_eq!(codes_seen, vec![0, 1, 2, 3, 4, 5]);
    let mut closed = IpcClient::from_handle(0);
    assert_eq!(plan_command(&mut closed, &command), Err(BridgeError::InvalidState));
}
