use cbf_chrome::bridge::call::{authentication_result, bridge_ok, finish_call, BridgeCall};
use cbf_chrome::bridge::client::{
    ensure_c_string, event_wait_result_from_status, parse_channel_switch_arg, wait_timeout_to_ffi,
    EventWait, EventWaitResult, IpcClient,
};
use cbf_chrome::bridge::map::BridgeEvent;
use cbf_chrome::bridge::event::IpcEvent;
use cbf_chrome::bridge::BridgeError;
use cbf_chrome::codes;
use cbf_chrome::data::background::ChromeBackgroundPolicy;
use cbf_chrome::data::browsing_context_open::ChromeBrowsingContextOpenResponse;
use cbf_chrome::data::find::{ChromeFindInPageOptions, ChromeStopFindAction};
use cbf_chrome::data::ids::{PopupId, TabId};
use cbf_chrome::data::ipc::{TabIpcConfig, TabIpcMessage, TabIpcMessageType, TabIpcPayload};
use cbf_chrome::data::policy::{ChromeBrowsingContextPolicy, ChromeCapabilityPolicy, ChromeIpcPolicy};
use cbf_chrome::data::prompt_ui::PromptUiResponse;
use cbf_chrome::data::visibility::ChromeTabVisibility;

#[test]
fn parse_channel_switch_arg_rejects_missing_nul() {
    assert_eq!(
        parse_channel_switch_arg(b"--cbf-ipc-handle=abc"),
        Err(BridgeError::InvalidChannelArgument)
    );
}

#[test]
fn parse_channel_switch_arg_rejects_invalid_utf8() {
    assert_eq!(
        parse_channel_switch_arg(b"--cbf-ipc-handle=\xFF\0"),
        Err(BridgeError::InvalidChannelArgument)
    );
}

#[test]
fn parse_channel_switch_arg_rejects_empty_string() {
    assert_eq!(parse_channel_switch_arg(b"\0"), Err(BridgeError::InvalidChannelArgument));
}

#[test]
fn parse_channel_switch_arg_reads_text_before_first_nul() {
    let mut buf = [0u8; 32];
    buf[..20].copy_from_slice(b"--cbf-ipc-handle=abc");
    buf[21] = b'x';
    assert_eq!(parse_channel_switch_arg(&buf), Ok("--cbf-ipc-handle=abc".to_string()));
}

#[test]
fn null_client_handle_reports_invalid_state() {
    let client = IpcClient::from_handle(0);

    assert_eq!(client.ensure_ready(), Err(BridgeError::InvalidState));
}

#[test]
fn authentication_result_reports_authentication_failure() {
    assert_eq!(authentication_result(false), Err(BridgeError::AuthenticationFailed));
    assert_eq!(authentication_result(true), Ok(()));
}

#[test]
fn bridge_ok_reports_operation_name() {
    assert_eq!(
        bridge_ok("navigate", false),
        Err(BridgeError::OperationFailed { operation: "navigate" })
    );
    assert_eq!(bridge_ok("navigate", true), Ok(()));
}

#[test]
fn null_client_refuses_every_call() {
    let mut client = IpcClient::from_handle(0);
    assert_eq!(client.request_close_tab(TabId::new(1)), Err(BridgeError::InvalidState));
    assert_eq!(client.navigate(TabId::new(1), "https://example.com"), Err(BridgeError::InvalidState));
    assert_eq!(client.force_shutdown(), Err(BridgeError::InvalidState));
    assert_eq!(client.authenticate("token"), Err(BridgeError::InvalidState));
    assert_eq!(client.accept_choice_menu_selection(4, &[1]), Err(BridgeError::InvalidState));
}

#[test]
fn ready_client_encodes_simple_calls() {
    let mut client = IpcClient::from_handle(77);
    assert_eq!(
        client.set_tab_size(TabId::new(3), 800, 600),
        Ok(BridgeCall::SetTabSize { handle: 77, tab_id: 3, width: 800, height: 600 })
    );
    assert_eq!(
        client.set_tab_visibility(TabId::new(3), ChromeTabVisibility::Hidden),
        Ok(BridgeCall::SetTabVisibility { handle: 77, tab_id: 3, visibility: codes::TAB_VISIBILITY_HIDDEN })
    );
    assert_eq!(
        client.set_tab_background_policy(TabId::new(3), ChromeBackgroundPolicy::Transparent),
        Ok(BridgeCall::SetTabBackgroundPolicy { handle: 77, tab_id: 3, transparent: true })
    );
    assert_eq!(
        client.stop_finding(TabId::new(3), ChromeStopFindAction::KeepSelection),
        Ok(BridgeCall::StopFinding {
            handle: 77,
            tab_id: 3,
            action: codes::STOP_FIND_ACTION_KEEP_SELECTION,
        })
    );
    assert_eq!(
        client.set_extension_popup_size(PopupId::new(5), 10, 20),
        Ok(BridgeCall::SetExtensionPopupSize { handle: 77, popup_id: 5, width: 10, height: 20 })
    );
    assert_eq!(
        client.confirm_shutdown(8, true),
        Ok(BridgeCall::ConfirmShutdown { handle: 77, request_id: 8, proceed: true })
    );
}

#[test]
fn strings_with_nul_are_invalid_input() {
    let mut client = IpcClient::from_handle(1);
    assert_eq!(client.navigate(TabId::new(1), "bad\0url"), Err(BridgeError::InvalidInput));
    assert_eq!(client.authenticate("to\0ken"), Err(BridgeError::InvalidInput));
    assert_eq!(
        client.respond_javascript_dialog(TabId::new(1), 2, true, Some("a\0b")),
        Err(BridgeError::InvalidInput)
    );
    assert_eq!(
        client.enable_tab_ipc(
            TabId::new(1),
            &TabIpcConfig { allowed_origins: vec!["https://ok".to_string(), "x\0".to_string()] }
        ),
        Err(BridgeError::InvalidInput)
    );
    assert_eq!(ensure_c_string("fine"), Ok(()));
    assert_eq!(ensure_c_string("\0"), Err(BridgeError::InvalidInput));
}

#[test]
fn navigate_copies_the_url() {
    let mut client = IpcClient::from_handle(5);
    assert_eq!(
        client.navigate(TabId::new(9), "https://example.com"),
        Ok(BridgeCall::Navigate { handle: 5, tab_id: 9, url: "https://example.com".to_string() })
    );
}

#[test]
fn create_tab_encodes_the_policy() {
    let mut client = IpcClient::from_handle(5);
    let policy = ChromeBrowsingContextPolicy {
        ipc: ChromeIpcPolicy::Allow { allowed_origins: vec!["app://main".to_string()] },
        extensions: ChromeCapabilityPolicy::Deny,
    };
    assert_eq!(
        client.create_tab(1, "about:blank", "default", Some(&policy)),
        Ok(BridgeCall::CreateTab {
            handle: 5,
            request_id: 1,
            url: "about:blank".to_string(),
            profile_id: "default".to_string(),
            has_policy: true,
            ipc_policy: codes::IPC_POLICY_ALLOW,
            allowed_origins: vec!["app://main".to_string()],
            extensions_policy: codes::CAPABILITY_POLICY_DENY,
        })
    );
    assert_eq!(
        client.create_tab(2, "about:blank", "default", None),
        Ok(BridgeCall::CreateTab {
            handle: 5,
            request_id: 2,
            url: "about:blank".to_string(),
            profile_id: "default".to_string(),
            has_policy: false,
            ipc_policy: codes::IPC_POLICY_DENY,
            allowed_origins: Vec::new(),
            extensions_policy: codes::CAPABILITY_POLICY_ALLOW,
        })
    );
}

#[test]
fn prompt_responses_encode_kind_and_destination() {
    let mut client = IpcClient::from_handle(5);
    assert_eq!(
        client.respond_prompt_ui_for_tab(
            TabId::new(4),
            10,
            &PromptUiResponse::DownloadPrompt {
                allow: true,
                destination_path: Some("/tmp/file".to_string()),
            }
        ),
        Ok(BridgeCall::RespondPromptUiForTab {
            handle: 5,
            tab_id: 4,
            request_id: 10,
            kind: codes::PROMPT_UI_KIND_DOWNLOAD_PROMPT,
            proceed: true,
            report_abuse: false,
            destination_path: Some("/tmp/file".to_string()),
        })
    );
    assert_eq!(
        client.respond_prompt_ui(
            "default",
            11,
            &PromptUiResponse::ExtensionUninstallPrompt { proceed: false, report_abuse: true }
        ),
        Ok(BridgeCall::RespondPromptUi {
            handle: 5,
            profile_id: "default".to_string(),
            request_id: 11,
            kind: codes::PROMPT_UI_KIND_EXTENSION_UNINSTALL_PROMPT,
            proceed: false,
            report_abuse: true,
            destination_path: None,
        })
    );
    assert_eq!(
        client.respond_prompt_ui_for_tab(TabId::new(4), 12, &PromptUiResponse::Unknown),
        Ok(BridgeCall::RespondPromptUiForTab {
            handle: 5,
            tab_id: 4,
            request_id: 12,
            kind: codes::PROMPT_UI_KIND_UNKNOWN,
            proceed: false,
            report_abuse: false,
            destination_path: None,
        })
    );
}

#[test]
fn tab_open_responses_encode_target() {
    let mut client = IpcClient::from_handle(5);
    assert_eq!(
        client.respond_tab_open(
            3,
            &ChromeBrowsingContextOpenResponse::AllowExistingContext {
                tab_id: TabId::new(12),
                activate: true,
            }
        ),
        Ok(BridgeCall::RespondTabOpen {
            handle: 5,
            request_id: 3,
            response_kind: codes::TAB_OPEN_RESPONSE_ALLOW_EXISTING_CONTEXT,
            target_tab_id: 12,
            activate: true,
        })
    );
    assert_eq!(
        client.respond_tab_open(4, &ChromeBrowsingContextOpenResponse::Deny),
        Ok(BridgeCall::RespondTabOpen {
            handle: 5,
            request_id: 4,
            response_kind: codes::TAB_OPEN_RESPONSE_DENY,
            target_tab_id: 0,
            activate: false,
        })
    );
}

#[test]
fn find_in_page_copies_the_options() {
    let mut client = IpcClient::from_handle(2);
    let options = ChromeFindInPageOptions::new("needle".to_string());
    assert_eq!(
        client.find_in_page(TabId::new(1), 6, &options),
        Ok(BridgeCall::FindInPage {
            handle: 2,
            tab_id: 1,
            request_id: 6,
            query: "needle".to_string(),
            forward: true,
            match_case: false,
            new_session: true,
            find_match: true,
        })
    );
}

#[test]
fn ipc_messages_encode_payload_and_codes() {
    let mut client = IpcClient::from_handle(2);
    let message = TabIpcMessage {
        channel: "chan".to_string(),
        message_type: TabIpcMessageType::Response,
        request_id: 4,
        payload: TabIpcPayload::Binary(vec![1, 2]),
        content_type: Some("application/octet-stream".to_string()),
        error_code: None,
    };
    assert_eq!(
        client.post_tab_ipc_message(TabId::new(1), &message),
        Ok(BridgeCall::PostTabIpcMessage {
            handle: 2,
            tab_id: 1,
            channel: "chan".to_string(),
            message_type: codes::IPC_MESSAGE_RESPONSE,
            request_id: 4,
            payload_kind: codes::IPC_PAYLOAD_BINARY,
            payload_text: None,
            payload_binary: vec![1, 2],
            content_type: Some("application/octet-stream".to_string()),
            error_code: codes::IPC_ERROR_NONE,
        })
    );
}

#[test]
fn finishing_a_call_reads_the_bridge_answer() {
    let call = BridgeCall::GoBack { handle: 1, tab_id: 2 };
    assert_eq!(call.operation(), "go_back");
    assert_eq!(finish_call(&call, Ok(true)), Ok(()));
    assert_eq!(
        finish_call(&call, Ok(false)),
        Err(BridgeError::OperationFailed { operation: "go_back" })
    );
    assert_eq!(finish_call(&call, Err(BridgeError::BridgeLoadFailed)), Err(BridgeError::BridgeLoadFailed));

    let auth = BridgeCall::Authenticate { handle: 1, token: "t".to_string() };
    assert_eq!(finish_call(&auth, Ok(false)), Err(BridgeError::AuthenticationFailed));
    let key = BridgeCall::ConfirmBeforeUnload { handle: 1, tab_id: 1, request_id: 1, proceed: true };
    assert_eq!(key.operation(), "confirm_beforeunload");
}

#[test]
fn wait_status_codes_decode_and_unknown_is_invalid() {
    assert_eq!(
        event_wait_result_from_status(codes::WAIT_STATUS_EVENT_AVAILABLE),
        Ok(EventWaitResult::EventAvailable)
    );
    assert_eq!(
        event_wait_result_from_status(codes::WAIT_STATUS_TIMED_OUT),
        Ok(EventWaitResult::TimedOut)
    );
    assert_eq!(
        event_wait_result_from_status(codes::WAIT_STATUS_DISCONNECTED),
        Ok(EventWaitResult::Disconnected)
    );
    assert_eq!(event_wait_result_from_status(codes::WAIT_STATUS_CLOSED), Ok(EventWaitResult::Closed));
    assert_eq!(event_wait_result_from_status(99), Err(BridgeError::InvalidEvent));
}

#[test]
fn wait_timeouts_saturate_and_none_waits_forever() {
    assert_eq!(wait_timeout_to_ffi(None), -1);
    assert_eq!(wait_timeout_to_ffi(Some(50)), 50);
    assert_eq!(wait_timeout_to_ffi(Some(u128::MAX)), i64::MAX);
    assert_eq!(IpcClient::from_handle(0).wait_for_event(Some(5)), EventWait::Done(EventWaitResult::Closed));
    assert_eq!(
        IpcClient::from_handle(3).wait_for_event(Some(5)),
        EventWait::Wait { handle: 3, timeout_ms: 5 }
    );
}

#[test]
fn polling_hands_over_and_decodes_events() {
    let mut null_client = IpcClient::from_handle(0);
    let event = BridgeEvent { kind: codes::EVENT_TAB_CLOSED, tab_id: 4, ..Default::default() };
    assert!(null_client.poll_event(Some(event)).is_none());

    let mut client = IpcClient::from_handle(1);
    assert!(client.poll_event(None).is_none());
    let event = BridgeEvent { kind: codes::EVENT_TAB_CLOSED, tab_id: 4, ..Default::default() };
    let polled = client.poll_event(Some(event));
    assert!(matches!(
        polled,
        Some(Ok(IpcEvent::TabClosed { browsing_context_id, .. })) if browsing_context_id == TabId::new(4)
    ));
}
