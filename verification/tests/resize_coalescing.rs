use cbf_chrome::bridge::event::IpcEvent;
use cbf_chrome::chromium_backend::{coalesce_resizes, ChromiumBackendOptions, CommunicationState};
use cbf_chrome::data::ids::TabId;

fn acknowledged(id: u64) -> IpcEvent {
    IpcEvent::TabResizeAcknowledged { profile_id: "default".to_string(), browsing_context_id: TabId::new(id) }
}

fn closed(id: u64) -> IpcEvent {
    IpcEvent::TabClosed { profile_id: "default".to_string(), browsing_context_id: TabId::new(id) }
}

#[test]
fn first_resize_is_sent_and_later_ones_wait_for_acknowledgement() {
    let mut state = CommunicationState::new();
    assert!(state.request_resize(TabId::new(1), 800, 600));
    assert!(!state.request_resize(TabId::new(1), 1024, 768));
    assert!(!state.request_resize(TabId::new(1), 1280, 720));
    // Another tab is independent.
    assert!(state.request_resize(TabId::new(2), 640, 480));
}

#[test]
fn acknowledgement_releases_only_the_latest_pending_size() {
    let mut state = CommunicationState::new();
    assert!(state.request_resize(TabId::new(7), 800, 600));
    assert!(!state.request_resize(TabId::new(7), 1024, 768));
    assert!(!state.request_resize(TabId::new(7), 1280, 720));
    assert_eq!(state.acknowledge_resize(TabId::new(7)), Some((1280, 720)));
    // The released size is itself in flight.
    assert!(!state.request_resize(TabId::new(7), 300, 200));
    assert_eq!(state.acknowledge_resize(TabId::new(7)), Some((300, 200)));
    assert_eq!(state.acknowledge_resize(TabId::new(7)), None);
    // Nothing in flight any more: the next request goes out at once.
    assert!(state.request_resize(TabId::new(7), 10, 20));
}

#[test]
fn failed_send_ends_the_flight() {
    let mut state = CommunicationState::new();
    assert!(state.request_resize(TabId::new(3), 800, 600));
    state.resize_send_failed(TabId::new(3));
    assert!(state.request_resize(TabId::new(3), 801, 601));
}

#[test]
fn closed_tab_forgets_pending_resizes() {
    let mut state = CommunicationState::new();
    assert!(state.request_resize(TabId::new(5), 800, 600));
    assert!(!state.request_resize(TabId::new(5), 900, 700));
    assert_eq!(state.observe_event(&closed(5)), None);
    assert_eq!(state.acknowledge_resize(TabId::new(5)), None);
    assert!(state.request_resize(TabId::new(5), 1, 1));
}

#[test]
fn observed_acknowledgement_names_the_tab_and_size_to_send() {
    let mut state = CommunicationState::new();
    assert!(state.request_resize(TabId::new(9), 800, 600));
    assert!(!state.request_resize(TabId::new(9), 1000, 500));
    assert_eq!(state.observe_event(&acknowledged(9)), Some((TabId::new(9), (1000, 500))));
    assert_eq!(state.observe_event(&acknowledged(9)), None);
    assert_eq!(
        state.observe_event(&IpcEvent::ShutdownProceeding { request_id: 1 }),
        None
    );
}

#[test]
fn coalescing_keeps_the_latest_size_per_tab() {
    let batch = vec![
        (TabId::new(1), 100, 100),
        (TabId::new(2), 200, 200),
        (TabId::new(1), 110, 120),
        (TabId::new(3), 300, 300),
        (TabId::new(2), 210, 220),
    ];
    let mut out = coalesce_resizes(&batch);
    out.sort_by_key(|entry| entry.0);
    assert_eq!(
        out,
        vec![(TabId::new(1), 110, 120), (TabId::new(2), 210, 220), (TabId::new(3), 300, 300)]
    );
    assert!(coalesce_resizes(&Vec::new()).is_empty());
}

#[test]
fn connection_gives_up_only_past_the_timeout() {
    let options = ChromiumBackendOptions::new("chan".to_string());
    assert!(!options.gives_up_after(0));
    assert!(!options.gives_up_after(60_000));
    assert!(options.gives_up_after(60_001));

    let patient = ChromiumBackendOptions { connect_timeout_millis: None, ..options };
    assert!(!patient.gives_up_after(u64::MAX));
}
