use niri_workspaces_enhanced::{
    is_relevant, step, Command, Config, Engine, EventKind, IconTable, Input, PassStep, Query,
    Reply, SyncError, SyncState, Window, WindowIconFormats, WindowLayout, Workspace,
};

const EVERY_KIND: [EventKind; 20] = [
    EventKind::WorkspacesChanged,
    EventKind::WorkspaceUrgencyChanged,
    EventKind::WorkspaceActivated,
    EventKind::WorkspaceActiveWindowChanged,
    EventKind::WindowsChanged,
    EventKind::WindowOpenedOrChanged,
    EventKind::WindowClosed,
    EventKind::WindowFocusChanged,
    EventKind::WindowFocusTimestampChanged,
    EventKind::WindowUrgencyChanged,
    EventKind::WindowLayoutsChanged,
    EventKind::KeyboardLayoutsChanged,
    EventKind::KeyboardLayoutSwitched,
    EventKind::OverviewOpenedOrClosed,
    EventKind::ConfigLoaded,
    EventKind::ScreenshotCaptured,
    EventKind::CastsChanged,
    EventKind::CastStartedOrChanged,
    EventKind::CastStopped,
    EventKind::Other,
];

const EVERY_STATE: [SyncState; 10] = [
    SyncState::Connecting,
    SyncState::InitialSync(PassStep::Workspaces),
    SyncState::InitialSync(PassStep::Windows),
    SyncState::InitialSync(PassStep::Delivery),
    SyncState::Subscribed,
    SyncState::AwaitEvent,
    SyncState::Reaggregate(PassStep::Workspaces),
    SyncState::Reaggregate(PassStep::Windows),
    SyncState::Reaggregate(PassStep::Delivery),
    SyncState::Failed,
];

fn every_input() -> Vec<Input> {
    let mut inputs = vec![
        Input::Connected,
        Input::ConnectFailed,
        Input::Replied(Reply::Handled),
        Input::Replied(Reply::Workspaces(Vec::new())),
        Input::Replied(Reply::Windows(Vec::new())),
        Input::Replied(Reply::Other),
        Input::RequestFailed,
        Input::Delivered,
        Input::DeliveryFailed,
        Input::EventReadFailed,
    ];
    for kind in EVERY_KIND {
        inputs.push(Input::Event(kind));
    }
    inputs
}

fn config() -> Config {
    let mut window_icons = IconTable::new();
    window_icons.insert("a".to_string(), "A".to_string());
    Config {
        window_icon_default: "?".to_string(),
        window_icon_formats: WindowIconFormats {
            focused: "{icon}".to_string(),
            urgent: "{icon}".to_string(),
            default: "{icon}".to_string(),
        },
        window_icons,
    }
}

fn workspace(id: u64, idx: u8) -> Workspace {
    Workspace {
        id,
        idx,
        name: None,
        output: None,
        is_urgent: false,
        is_active: false,
        is_focused: false,
        active_window_id: None,
    }
}

fn window(workspace_id: u64, app_id: &str) -> Window {
    Window {
        id: 1,
        title: None,
        app_id: Some(app_id.to_string()),
        pid: None,
        workspace_id: Some(workspace_id),
        is_focused: false,
        is_floating: false,
        is_urgent: false,
        layout: WindowLayout { pos_in_scrolling_layout: None, window_size: (0, 0) },
    }
}

#[test]
fn five_kinds_of_event_are_relevant() {
    let relevant = [
        EventKind::WindowOpenedOrChanged,
        EventKind::WindowClosed,
        EventKind::WindowLayoutsChanged,
        EventKind::WindowFocusChanged,
        EventKind::WorkspacesChanged,
    ];
    for kind in EVERY_KIND {
        assert_eq!(is_relevant(kind), relevant.contains(&kind), "{:?}", kind);
    }
}

#[test]
fn irrelevant_event_leads_to_no_query_and_no_delivery() {
    for kind in EVERY_KIND {
        if is_relevant(kind) {
            continue;
        }
        assert_eq!(
            step(SyncState::AwaitEvent, &Input::Event(kind)),
            (SyncState::AwaitEvent, Command::ReadEvent)
        );
        for state in EVERY_STATE {
            let (_, command) = step(state, &Input::Event(kind));
            assert!(!matches!(command, Command::Request(_) | Command::Deliver));
        }
    }
}

#[test]
fn relevant_event_starts_one_pass() {
    for kind in EVERY_KIND {
        if !is_relevant(kind) {
            continue;
        }
        assert_eq!(
            step(SyncState::AwaitEvent, &Input::Event(kind)),
            (SyncState::Reaggregate(PassStep::Workspaces), Command::Request(Query::Workspaces))
        );
    }
}

#[test]
fn the_loop_runs_from_connecting_to_awaiting_events() {
    let mut state = SyncState::Connecting;
    let mut command;
    (state, command) = step(state, &Input::Connected);
    assert_eq!((state, command), (SyncState::InitialSync(PassStep::Workspaces), Command::Request(Query::Workspaces)));
    (state, command) = step(state, &Input::Replied(Reply::Workspaces(Vec::new())));
    assert_eq!((state, command), (SyncState::InitialSync(PassStep::Windows), Command::Request(Query::Windows)));
    (state, command) = step(state, &Input::Replied(Reply::Windows(Vec::new())));
    assert_eq!((state, command), (SyncState::InitialSync(PassStep::Delivery), Command::Deliver));
    (state, command) = step(state, &Input::Delivered);
    assert_eq!((state, command), (SyncState::Subscribed, Command::Request(Query::EventStream)));
    (state, command) = step(state, &Input::Replied(Reply::Handled));
    assert_eq!((state, command), (SyncState::AwaitEvent, Command::ReadEvent));
    (state, command) = step(state, &Input::Event(EventKind::WindowClosed));
    assert_eq!((state, command), (SyncState::Reaggregate(PassStep::Workspaces), Command::Request(Query::Workspaces)));
    (state, command) = step(state, &Input::Replied(Reply::Workspaces(Vec::new())));
    assert_eq!((state, command), (SyncState::Reaggregate(PassStep::Windows), Command::Request(Query::Windows)));
    (state, command) = step(state, &Input::Replied(Reply::Windows(Vec::new())));
    assert_eq!((state, command), (SyncState::Reaggregate(PassStep::Delivery), Command::Deliver));
    (state, command) = step(state, &Input::Delivered);
    assert_eq!((state, command), (SyncState::AwaitEvent, Command::ReadEvent));
}

#[test]
fn each_failure_stops_the_loop_with_its_reason() {
    let failed = |error| (SyncState::Failed, Command::Stop(error));
    assert_eq!(step(SyncState::Connecting, &Input::ConnectFailed), failed(SyncError::Connection));
    for pass in [SyncState::InitialSync, SyncState::Reaggregate] {
        assert_eq!(step(pass(PassStep::Workspaces), &Input::RequestFailed), failed(SyncError::Request));
        assert_eq!(step(pass(PassStep::Windows), &Input::RequestFailed), failed(SyncError::Request));
        for reply in [Reply::Handled, Reply::Windows(Vec::new()), Reply::Other] {
            assert_eq!(
                step(pass(PassStep::Workspaces), &Input::Replied(reply)),
                failed(SyncError::ExpectedWorkspaces)
            );
        }
        for reply in [Reply::Handled, Reply::Workspaces(Vec::new()), Reply::Other] {
            assert_eq!(
                step(pass(PassStep::Windows), &Input::Replied(reply)),
                failed(SyncError::ExpectedWindows)
            );
        }
        assert_eq!(step(pass(PassStep::Delivery), &Input::DeliveryFailed), failed(SyncError::Delivery));
    }
    assert_eq!(step(SyncState::Subscribed, &Input::RequestFailed), failed(SyncError::Request));
    for reply in [Reply::Workspaces(Vec::new()), Reply::Windows(Vec::new()), Reply::Other] {
        assert_eq!(
            step(SyncState::Subscribed, &Input::Replied(reply)),
            failed(SyncError::ExpectedHandled)
        );
    }
    assert_eq!(step(SyncState::AwaitEvent, &Input::EventReadFailed), failed(SyncError::EventStream));
    assert_eq!(step(SyncState::AwaitEvent, &Input::Delivered), failed(SyncError::Unexpected));
    assert_eq!(step(SyncState::Connecting, &Input::Event(EventKind::WindowClosed)), failed(SyncError::Unexpected));
}

#[test]
fn failed_is_final_and_stop_means_failed() {
    for input in every_input() {
        assert_eq!(
            step(SyncState::Failed, &input),
            (SyncState::Failed, Command::Stop(SyncError::Unexpected))
        );
        for state in EVERY_STATE {
            let (next, command) = step(state, &input);
            assert_eq!(next == SyncState::Failed, matches!(command, Command::Stop(_)));
        }
    }
}

#[test]
fn errors_have_their_messages() {
    assert_eq!(SyncError::ExpectedWorkspaces.message(), "Expected Workspaces response");
    assert_eq!(SyncError::ExpectedWindows.message(), "Expected Windows response");
    assert_eq!(SyncError::ExpectedHandled.message(), "Expected Handled response");
    assert_eq!(SyncError::Delivery.message(), "Failed to send workspace info");
    assert_eq!(SyncError::Connection.message(), "Failed to connect to niri socket");
    assert_eq!(SyncError::Request.message(), "Request failed");
    assert_eq!(SyncError::EventStream.message(), "Failed to read the event stream");
    assert_eq!(SyncError::Unexpected.message(), "Unexpected report from the loop");
}

#[test]
fn engine_makes_a_snapshot_in_each_pass() {
    let mut engine = Engine::new(config());
    assert_eq!(engine.current_state(), SyncState::Connecting);
    assert_eq!(engine.advance(Input::Connected), Command::Request(Query::Workspaces));
    assert_eq!(
        engine.advance(Input::Replied(Reply::Workspaces(vec![workspace(1, 1), workspace(2, 2)]))),
        Command::Request(Query::Windows)
    );
    assert_eq!(
        engine.advance(Input::Replied(Reply::Windows(vec![window(2, "A"), window(2, "zzz")]))),
        Command::Deliver
    );
    assert_eq!(engine.current_state(), SyncState::InitialSync(PassStep::Delivery));
    let snapshot = engine.take_snapshot();
    assert_eq!(snapshot.len(), 2);
    assert_eq!((snapshot[0].id, snapshot[0].icons.as_str()), (1, ""));
    assert_eq!((snapshot[1].id, snapshot[1].icons.as_str()), (2, "A ?"));
    assert!(engine.take_snapshot().is_empty());
    assert_eq!(engine.advance(Input::Delivered), Command::Request(Query::EventStream));
    assert_eq!(engine.advance(Input::Replied(Reply::Handled)), Command::ReadEvent);
    assert_eq!(engine.advance(Input::Event(EventKind::ConfigLoaded)), Command::ReadEvent);
    assert_eq!(engine.current_state(), SyncState::AwaitEvent);
    assert!(engine.take_snapshot().is_empty());

    assert_eq!(
        engine.advance(Input::Event(EventKind::WorkspacesChanged)),
        Command::Request(Query::Workspaces)
    );
    assert_eq!(
        engine.advance(Input::Replied(Reply::Workspaces(vec![workspace(2, 1)]))),
        Command::Request(Query::Windows)
    );
    assert_eq!(
        engine.advance(Input::Replied(Reply::Windows(vec![window(1, "a"), window(2, "a")]))),
        Command::Deliver
    );
    let snapshot = engine.take_snapshot();
    assert_eq!(snapshot.len(), 1);
    assert_eq!((snapshot[0].id, snapshot[0].idx, snapshot[0].icons.as_str()), (2, 1, "A"));
    assert_eq!(engine.advance(Input::Delivered), Command::ReadEvent);
    assert_eq!(engine.advance(Input::EventReadFailed), Command::Stop(SyncError::EventStream));
    assert_eq!(engine.current_state(), SyncState::Failed);
    assert_eq!(engine.advance(Input::Connected), Command::Stop(SyncError::Unexpected));
}

#[test]
fn engine_keeps_no_list_that_came_out_of_turn() {
    let mut engine = Engine::new(config());
    assert_eq!(
        engine.advance(Input::Replied(Reply::Windows(vec![window(1, "a")]))),
        Command::Stop(SyncError::Unexpected)
    );
    assert!(engine.take_snapshot().is_empty());

    let mut engine = Engine::new(config());
    engine.advance(Input::Connected);
    assert_eq!(
        engine.advance(Input::Replied(Reply::Windows(vec![window(1, "a")]))),
        Command::Stop(SyncError::ExpectedWorkspaces)
    );
    assert!(engine.take_snapshot().is_empty());
    assert_eq!(engine.current_state(), SyncState::Failed);
}
