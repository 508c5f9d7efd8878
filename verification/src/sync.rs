//! The synchronization loop's decisions. The loop itself does the outside
//! work: it opens connections, sends requests, reads events and hands
//! snapshots on. After each piece of work it reports what came of it and is
//! told what to do next.

use crate::aggregate::{aggregate, is_snapshot};
use crate::config::Config;
use crate::model::{Window, Workspace, WorkspaceInfo};
use vstd::prelude::*;

verus! {

/// The kinds of event that the window manager sends on the event stream.
#[derive(Debug, Clone, Copy, PartialEq, Eq, Structural)]
pub enum EventKind {
    WorkspacesChanged,
    WorkspaceUrgencyChanged,
    WorkspaceActivated,
    WorkspaceActiveWindowChanged,
    WindowsChanged,
    WindowOpenedOrChanged,
    WindowClosed,
    WindowFocusChanged,
    WindowFocusTimestampChanged,
    WindowUrgencyChanged,
    WindowLayoutsChanged,
    KeyboardLayoutsChanged,
    KeyboardLayoutSwitched,
    OverviewOpenedOrClosed,
    ConfigLoaded,
    ScreenshotCaptured,
    CastsChanged,
    CastStartedOrChanged,
    CastStopped,
    /// An event of any other kind.
    Other,
}

/// A request to the window manager.
#[derive(Debug, Clone, Copy, PartialEq, Eq, Structural)]
pub enum Query {
    Workspaces,
    Windows,
    EventStream,
}

/// What the window manager answers to a request, as far as the loop tells
/// answers apart.
#[derive(Debug, Clone)]
pub enum Reply {
    /// The request was handled and there is nothing to report.
    Handled,
    Workspaces(Vec<Workspace>),
    Windows(Vec<Window>),
    /// An answer of any other kind.
    Other,
}

/// Why the loop stopped.
#[derive(Debug, Clone, Copy, PartialEq, Eq, Structural)]
pub enum SyncError {
    /// A connection could not be opened.
    Connection,
    /// A request could not be sent, or its answer could not be read, or the
    /// window manager answered with an error.
    Request,
    /// The answer to the workspace query was of another kind.
    ExpectedWorkspaces,
    /// The answer to the window query was of another kind.
    ExpectedWindows,
    /// The subscription was not acknowledged.
    ExpectedHandled,
    /// The snapshot could not be handed on.
    Delivery,
    /// The event stream could not be read.
    EventStream,
    /// The loop reported something that its state does not await.
    Unexpected,
}

/// The steps of one pass: two queries, then the delivery of the snapshot.
#[derive(Debug, Clone, Copy, PartialEq, Eq, Structural)]
pub enum PassStep {
    /// The workspace query is under way.
    Workspaces,
    /// The window query is under way.
    Windows,
    /// The snapshot is being handed on.
    Delivery,
}

/// The states of the loop.
#[derive(Debug, Clone, Copy, PartialEq, Eq, Structural)]
pub enum SyncState {
    /// The two connections are being opened.
    Connecting,
    /// The first pass is under way.
    InitialSync(PassStep),
    /// The subscription has been asked for.
    Subscribed,
    /// The next event is awaited.
    AwaitEvent,
    /// A pass after an event is under way.
    Reaggregate(PassStep),
    /// The loop has stopped for good.
    Failed,
}

/// What the loop reports of the work it was told to do.
#[derive(Debug, Clone)]
pub enum Input {
    /// Both connections are open.
    Connected,
    ConnectFailed,
    /// The window manager answered the request.
    Replied(Reply),
    RequestFailed,
    /// The snapshot was handed on.
    Delivered,
    DeliveryFailed,
    /// An event arrived.
    Event(EventKind),
    EventReadFailed,
}

/// What the loop is told to do next.
#[derive(Debug, Clone, Copy, PartialEq, Eq, Structural)]
pub enum Command {
    /// Open the command connection and the event connection.
    Connect,
    /// Send the request: a query on the command connection, the
    /// subscription on the event connection.
    Request(Query),
    /// Hand the snapshot on.
    Deliver,
    /// Read the next event from the event connection.
    ReadEvent,
    /// Stop for good.
    Stop(SyncError),
}

/// An event of this kind calls for a new pass: a window was opened or
/// changed, was closed or took the focus, window layouts changed, or the
/// workspaces changed.
pub open spec fn relevant(kind: EventKind) -> bool {
    kind is WindowOpenedOrChanged || kind is WindowClosed || kind is WindowLayoutsChanged
        || kind is WindowFocusChanged || kind is WorkspacesChanged
}

/// The loop stops for the given reason.
pub open spec fn failed(error: SyncError) -> (SyncState, Command) {
    (SyncState::Failed, Command::Stop(error))
}

/// The state of a pass at the given step.
pub open spec fn pass_state(initial: bool, step: PassStep) -> SyncState {
    if initial {
        SyncState::InitialSync(step)
    } else {
        SyncState::Reaggregate(step)
    }
}

/// What follows the report `input` at the step `step` of a pass. After the
/// first pass the loop subscribes; after a later one it awaits the next
/// event.
pub open spec fn pass_next(initial: bool, step: PassStep, input: Input) -> (SyncState, Command) {
    match step {
        PassStep::Workspaces => match input {
            Input::Replied(Reply::Workspaces(_)) => (
                pass_state(initial, PassStep::Windows),
                Command::Request(Query::Windows),
            ),
            Input::Replied(_) => failed(SyncError::ExpectedWorkspaces),
            Input::RequestFailed => failed(SyncError::Request),
            _ => failed(SyncError::Unexpected),
        },
        PassStep::Windows => match input {
            Input::Replied(Reply::Windows(_)) => (
                pass_state(initial, PassStep::Delivery),
                Command::Deliver,
            ),
            Input::Replied(_) => failed(SyncError::ExpectedWindows),
            Input::RequestFailed => failed(SyncError::Request),
            _ => failed(SyncError::Unexpected),
        },
        PassStep::Delivery => match input {
            Input::Delivered => if initial {
                (SyncState::Subscribed, Command::Request(Query::EventStream))
            } else {
                (SyncState::AwaitEvent, Command::ReadEvent)
            },
            Input::DeliveryFailed => failed(SyncError::Delivery),
            _ => failed(SyncError::Unexpected),
        },
    }
}

/// The state that follows `state` on the report `input`, and what the loop
/// is to do next.
pub open spec fn next(state: SyncState, input: Input) -> (SyncState, Command) {
    match state {
        SyncState::Connecting => match input {
            Input::Connected => (
                SyncState::InitialSync(PassStep::Workspaces),
                Command::Request(Query::Workspaces),
            ),
            Input::ConnectFailed => failed(SyncError::Connection),
            _ => failed(SyncError::Unexpected),
        },
        SyncState::InitialSync(step) => pass_next(true, step, input),
        SyncState::Subscribed => match input {
            Input::Replied(Reply::Handled) => (SyncState::AwaitEvent, Command::ReadEvent),
            Input::Replied(_) => failed(SyncError::ExpectedHandled),
            Input::RequestFailed => failed(SyncError::Request),
            _ => failed(SyncError::Unexpected),
        },
        SyncState::AwaitEvent => match input {
            Input::Event(kind) => if relevant(kind) {
                (SyncState::Reaggregate(PassStep::Workspaces), Command::Request(Query::Workspaces))
            } else {
                (SyncState::AwaitEvent, Command::ReadEvent)
            },
            Input::EventReadFailed => failed(SyncError::EventStream),
            _ => failed(SyncError::Unexpected),
        },
        SyncState::Reaggregate(step) => pass_next(false, step, input),
        SyncState::Failed => failed(SyncError::Unexpected),
    }
}

/// Tells whether an event of this kind calls for a new pass.
pub fn is_relevant(kind: EventKind) -> (b: bool)
    ensures
        b == relevant(kind),
{
    match kind {
        EventKind::WindowOpenedOrChanged
        | EventKind::WindowClosed
        | EventKind::WindowLayoutsChanged
        | EventKind::WindowFocusChanged
        | EventKind::WorkspacesChanged => true,
        _ => false,
    }
}

/// The loop stops for the given reason.
fn stop(error: SyncError) -> (r: (SyncState, Command))
    ensures
        r == failed(error),
{
    (SyncState::Failed, Command::Stop(error))
}

/// One step of a pass.
fn pass_advance(initial: bool, step: PassStep, input: &Input) -> (r: (SyncState, Command))
    ensures
        r == pass_next(initial, step, *input),
{
    match step {
        PassStep::Workspaces => match input {
            Input::Replied(Reply::Workspaces(_)) => (
                if initial {
                    SyncState::InitialSync(PassStep::Windows)
                } else {
                    SyncState::Reaggregate(PassStep::Windows)
                },
                Command::Request(Query::Windows),
            ),
            Input::Replied(_) => stop(SyncError::ExpectedWorkspaces),
            Input::RequestFailed => stop(SyncError::Request),
            _ => stop(SyncError::Unexpected),
        },
        PassStep::Windows => match input {
            Input::Replied(Reply::Windows(_)) => (
                if initial {
                    SyncState::InitialSync(PassStep::Delivery)
                } else {
                    SyncState::Reaggregate(PassStep::Delivery)
                },
                Command::Deliver,
            ),
            Input::Replied(_) => stop(SyncError::ExpectedWindows),
            Input::RequestFailed => stop(SyncError::Request),
            _ => stop(SyncError::Unexpected),
        },
        PassStep::Delivery => match input {
            Input::Delivered => if initial {
                (SyncState::Subscribed, Command::Request(Query::EventStream))
            } else {
                (SyncState::AwaitEvent, Command::ReadEvent)
            },
            Input::DeliveryFailed => stop(SyncError::Delivery),
            _ => stop(SyncError::Unexpected),
        },
    }
}

/// The state that follows `state` on the report `input`, and what the loop
/// is to do next.
pub fn step(state: SyncState, input: &Input) -> (r: (SyncState, Command))
    ensures
        r == next(state, *input),
{
    match state {
        SyncState::Connecting => match input {
            Input::Connected => (
                SyncState::InitialSync(PassStep::Workspaces),
                Command::Request(Query::Workspaces),
            ),
            Input::ConnectFailed => stop(SyncError::Connection),
            _ => stop(SyncError::Unexpected),
        },
        SyncState::InitialSync(step) => pass_advance(true, step, input),
        SyncState::Subscribed => match input {
            Input::Replied(Reply::Handled) => (SyncState::AwaitEvent, Command::ReadEvent),
            Input::Replied(_) => stop(SyncError::ExpectedHandled),
            Input::RequestFailed => stop(SyncError::Request),
            _ => stop(SyncError::Unexpected),
        },
        SyncState::AwaitEvent => match input {
            Input::Event(kind) => if is_relevant(*kind) {
                (SyncState::Reaggregate(PassStep::Workspaces), Command::Request(Query::Workspaces))
            } else {
                (SyncState::AwaitEvent, Command::ReadEvent)
            },
            Input::EventReadFailed => stop(SyncError::EventStream),
            _ => stop(SyncError::Unexpected),
        },
        SyncState::Reaggregate(step) => pass_advance(false, step, input),
        SyncState::Failed => stop(SyncError::Unexpected),
    }
}

impl SyncError {
    /// The reason in words.
    pub fn message(&self) -> (text: &'static str)
        ensures
            text@ == match *self {
                SyncError::Connection => "Failed to connect to niri socket"@,
                SyncError::Request => "Request failed"@,
                SyncError::ExpectedWorkspaces => "Expected Workspaces response"@,
                SyncError::ExpectedWindows => "Expected Windows response"@,
                SyncError::ExpectedHandled => "Expected Handled response"@,
                SyncError::Delivery => "Failed to send workspace info"@,
                SyncError::EventStream => "Failed to read the event stream"@,
                SyncError::Unexpected => "Unexpected report from the loop"@,
            },
    {
        match self {
            SyncError::Connection => "Failed to connect to niri socket",
            SyncError::Request => "Request failed",
            SyncError::ExpectedWorkspaces => "Expected Workspaces response",
            SyncError::ExpectedWindows => "Expected Windows response",
            SyncError::ExpectedHandled => "Expected Handled response",
            SyncError::Delivery => "Failed to send workspace info",
            SyncError::EventStream => "Failed to read the event stream",
            SyncError::Unexpected => "Unexpected report from the loop",
        }
    }
}

/// The state awaits what the given step of a pass awaits.
pub open spec fn awaits(state: SyncState, step: PassStep) -> bool {
    state == SyncState::InitialSync(step) || state == SyncState::Reaggregate(step)
}

/// The synchronization loop's memory: the configuration, the state, the
/// workspaces of the pass under way and the snapshot made last.
pub struct Engine {
    config: Config,
    state: SyncState,
    workspaces: Vec<Workspace>,
    snapshot: Vec<WorkspaceInfo>,
}

impl Engine {
    /// The configuration that every pass uses.
    pub closed spec fn config(&self) -> Config {
        self.config
    }

    /// The state of the loop.
    pub closed spec fn state(&self) -> SyncState {
        self.state
    }

    /// The workspaces that the pass under way has received.
    pub closed spec fn workspaces(&self) -> Seq<Workspace> {
        self.workspaces@
    }

    /// The snapshot made last and not yet taken.
    pub closed spec fn snapshot(&self) -> Seq<WorkspaceInfo> {
        self.snapshot@
    }

    /// An engine at its start. The loop begins with `Command::Connect`.
    pub fn new(config: Config) -> (engine: Self)
        ensures
            engine.config() == config,
            engine.state() == SyncState::Connecting,
            engine.workspaces() == Seq::<Workspace>::empty(),
            engine.snapshot() == Seq::<WorkspaceInfo>::empty(),
    {
        Engine { config, state: SyncState::Connecting, workspaces: Vec::new(), snapshot: Vec::new() }
    }

    /// The state of the loop.
    pub fn current_state(&self) -> (state: SyncState)
        ensures
            state == self.state(),
    {
        self.state
    }

    /// Takes the report `input` and tells what to do next. A workspace list
    /// that the pass awaits is kept for the pass; a window list that the
    /// pass awaits is aggregated with those workspaces into the snapshot
    /// that `Command::Deliver` then asks to hand on.
    pub fn advance(&mut self, input: Input) -> (command: Command)
        ensures
            (final(self).state(), command) == next(old(self).state(), input),
            final(self).config() == old(self).config(),
            final(self).workspaces() == (match input {
                Input::Replied(Reply::Workspaces(list)) if awaits(
                    old(self).state(),
                    PassStep::Workspaces,
                ) => list@,
                _ => old(self).workspaces(),
            }),
            match input {
                Input::Replied(Reply::Windows(list)) if awaits(
                    old(self).state(),
                    PassStep::Windows,
                ) => is_snapshot(
                    final(self).snapshot(),
                    old(self).config(),
                    old(self).workspaces(),
                    list@,
                ),
                _ => final(self).snapshot() == old(self).snapshot(),
            },
    {
        let (state, command) = step(self.state, &input);
        let in_workspaces = match self.state {
            SyncState::InitialSync(PassStep::Workspaces)
            | SyncState::Reaggregate(PassStep::Workspaces) => true,
            _ => false,
        };
        let in_windows = match self.state {
            SyncState::InitialSync(PassStep::Windows)
            | SyncState::Reaggregate(PassStep::Windows) => true,
            _ => false,
        };
        match input {
            Input::Replied(Reply::Workspaces(list)) => {
                if in_workspaces {
                    self.workspaces = list;
                }
            },
            Input::Replied(Reply::Windows(list)) => {
                if in_windows {
                    self.snapshot = aggregate(&self.config, &self.workspaces, list);
                }
            },
            _ => {},
        }
        self.state = state;
        command
    }

    /// Hands out the snapshot made last and keeps none.
    pub fn take_snapshot(&mut self) -> (snapshot: Vec<WorkspaceInfo>)
        ensures
            snapshot@ == old(self).snapshot(),
            final(self).snapshot() == Seq::<WorkspaceInfo>::empty(),
            final(self).state() == old(self).state(),
            final(self).config() == old(self).config(),
            final(self).workspaces() == old(self).workspaces(),
    {
        let mut snapshot: Vec<WorkspaceInfo> = Vec::new();
        core::mem::swap(&mut snapshot, &mut self.snapshot);
        snapshot
    }
}

/// An event that calls for no new pass changes nothing while the loop
/// awaits events: no query is sent and no snapshot is handed on. In no
/// state does such an event lead to a query or a delivery.
pub proof fn lemma_irrelevant_event_is_ignored(state: SyncState, kind: EventKind)
    requires
        !relevant(kind),
    ensures
        next(SyncState::AwaitEvent, Input::Event(kind)) == (
            SyncState::AwaitEvent,
            Command::ReadEvent,
        ),
        !(next(state, Input::Event(kind)).1 is Request),
        !(next(state, Input::Event(kind)).1 is Deliver),
{
}

/// An event that calls for a new pass starts one, with the workspace
/// query, while the loop awaits events.
pub proof fn lemma_relevant_event_starts_pass(kind: EventKind)
    requires
        relevant(kind),
    ensures
        next(SyncState::AwaitEvent, Input::Event(kind)) == (
            SyncState::Reaggregate(PassStep::Workspaces),
            Command::Request(Query::Workspaces),
        ),
{
}

/// The loop does not leave the state `Failed`, and every failure leads to
/// it: whenever the loop is told to stop, the state is `Failed`, and the
/// other way round.
pub proof fn lemma_failed_is_final(state: SyncState, input: Input)
    ensures
        next(SyncState::Failed, input).0 == SyncState::Failed,
        next(state, input).0 == SyncState::Failed <==> next(state, input).1 is Stop,
{
}

} // verus!
