//! Viewing a peer's screen: who may be viewed, what is shown, and what input is sent.

use vstd::prelude::*;

use crate::text::{opt_text, same_text};

verus! {

/// Why a peer's screen is not viewed, if it is not.
pub open spec fn view_objection(screen_view: bool, online: bool) -> Option<Seq<char>> {
    if !screen_view {
        Some("Peer has not granted screen viewing permission"@)
    } else if !online {
        Some("Peer is not online"@)
    } else {
        None
    }
}

/// Why a peer's screen is not viewed, if it is not: `screen_view` is what the peer allows us.
pub fn refuse_view(screen_view: bool, online: bool) -> (r: Option<String>)
    ensures
        opt_text(r) == view_objection(screen_view, online),
{
    if !screen_view {
        Some("Peer has not granted screen viewing permission".to_owned())
    } else if !online {
        Some("Peer is not online".to_owned())
    } else {
        None
    }
}

// ---------------------------------------------------------------------------
// Streams

/// What a stream reports.
#[derive(Debug, PartialEq, Eq)]
pub enum StreamEvent<T = String> {
    Accepted,
    Rejected { reason: T },
    /// A frame that was decoded, or not.
    Frame { sequence: u64, decoded: bool },
    Ended { reason: T },
    Error { message: T },
    /// Nothing more will come.
    Closed,
}

impl View for StreamEvent<String> {
    type V = StreamEvent<Seq<char>>;

    open spec fn view(&self) -> StreamEvent<Seq<char>> {
        match *self {
            StreamEvent::Accepted => StreamEvent::Accepted,
            StreamEvent::Rejected { reason } => StreamEvent::Rejected { reason: reason@ },
            StreamEvent::Frame { sequence, decoded } => StreamEvent::Frame { sequence, decoded },
            StreamEvent::Ended { reason } => StreamEvent::Ended { reason: reason@ },
            StreamEvent::Error { message } => StreamEvent::Error { message: message@ },
            StreamEvent::Closed => StreamEvent::Closed,
        }
    }
}

/// What the viewer is told.
#[derive(Debug, PartialEq, Eq)]
pub enum ViewerCall<T = String> {
    Nothing,
    Connected,
    Rejected { reason: T },
    /// The latest frame is shown.
    ShowFrame,
    Disconnect { reason: T },
    Fail { message: T },
}

impl View for ViewerCall<String> {
    type V = ViewerCall<Seq<char>>;

    open spec fn view(&self) -> ViewerCall<Seq<char>> {
        match *self {
            ViewerCall::Nothing => ViewerCall::Nothing,
            ViewerCall::Connected => ViewerCall::Connected,
            ViewerCall::Rejected { reason } => ViewerCall::Rejected { reason: reason@ },
            ViewerCall::ShowFrame => ViewerCall::ShowFrame,
            ViewerCall::Disconnect { reason } => ViewerCall::Disconnect { reason: reason@ },
            ViewerCall::Fail { message } => ViewerCall::Fail { message: message@ },
        }
    }
}

/// What follows from what a stream reports.
#[derive(Debug, PartialEq, Eq)]
pub struct StreamStep<T = String> {
    pub call: ViewerCall<T>,
    /// The statistics are shown anew.
    pub stats: bool,
    /// The stream is over.
    pub stop: bool,
}

impl View for StreamStep<String> {
    type V = StreamStep<Seq<char>>;

    open spec fn view(&self) -> StreamStep<Seq<char>> {
        StreamStep { call: self.call@, stats: self.stats, stop: self.stop }
    }
}

/// How often statistics are shown, in frames.
pub const STATS_EVERY: u64 = 30;

/// What follows from what a stream reports.
pub open spec fn stream_step(event: StreamEvent<Seq<char>>) -> StreamStep<Seq<char>> {
    match event {
        StreamEvent::Accepted => StreamStep {
            call: ViewerCall::Connected,
            stats: false,
            stop: false,
        },
        StreamEvent::Rejected { reason } => StreamStep {
            call: ViewerCall::Rejected { reason },
            stats: false,
            stop: true,
        },
        StreamEvent::Frame { sequence, decoded } => if decoded {
            StreamStep {
                call: ViewerCall::ShowFrame,
                stats: sequence % STATS_EVERY == 0,
                stop: false,
            }
        } else {
            StreamStep { call: ViewerCall::Nothing, stats: false, stop: false }
        },
        StreamEvent::Ended { reason } => StreamStep {
            call: ViewerCall::Disconnect { reason },
            stats: false,
            stop: true,
        },
        StreamEvent::Error { message } => StreamStep {
            call: ViewerCall::Fail { message },
            stats: false,
            stop: true,
        },
        StreamEvent::Closed => StreamStep { call: ViewerCall::Nothing, stats: false, stop: true },
    }
}

/// Takes in what a stream reports.
pub fn on_stream_event(event: &StreamEvent) -> (r: StreamStep)
    ensures
        r@ == stream_step(event@),
{
    match event {
        StreamEvent::Accepted => StreamStep {
            call: ViewerCall::Connected,
            stats: false,
            stop: false,
        },
        StreamEvent::Rejected { reason } => StreamStep {
            call: ViewerCall::Rejected { reason: reason.clone() },
            stats: false,
            stop: true,
        },
        StreamEvent::Frame { sequence, decoded } => if *decoded {
            StreamStep {
                call: ViewerCall::ShowFrame,
                stats: *sequence % STATS_EVERY == 0,
                stop: false,
            }
        } else {
            StreamStep { call: ViewerCall::Nothing, stats: false, stop: false }
        },
        StreamEvent::Ended { reason } => StreamStep {
            call: ViewerCall::Disconnect { reason: reason.clone() },
            stats: false,
            stop: true,
        },
        StreamEvent::Error { message } => StreamStep {
            call: ViewerCall::Fail { message: message.clone() },
            stats: false,
            stop: true,
        },
        StreamEvent::Closed => StreamStep { call: ViewerCall::Nothing, stats: false, stop: true },
    }
}

// ---------------------------------------------------------------------------
// The viewer

/// What the viewer reports.
#[derive(Debug, PartialEq, Eq)]
pub enum ViewerEvent<T = String> {
    StateChanged { state: T },
    FrameReady { width: u32, height: u32 },
    StreamRejected { reason: T },
    StreamEnded { reason: T },
    Error { message: T },
    Other,
}

impl View for ViewerEvent<String> {
    type V = ViewerEvent<Seq<char>>;

    open spec fn view(&self) -> ViewerEvent<Seq<char>> {
        match *self {
            ViewerEvent::StateChanged { state } => ViewerEvent::StateChanged { state: state@ },
            ViewerEvent::FrameReady { width, height } => ViewerEvent::FrameReady { width, height },
            ViewerEvent::StreamRejected { reason } => ViewerEvent::StreamRejected {
                reason: reason@,
            },
            ViewerEvent::StreamEnded { reason } => ViewerEvent::StreamEnded { reason: reason@ },
            ViewerEvent::Error { message } => ViewerEvent::Error { message: message@ },
            ViewerEvent::Other => ViewerEvent::Other,
        }
    }
}

/// What changes in the viewer's window.
#[derive(Debug, PartialEq, Eq)]
pub struct ViewerPatch<T = String> {
    pub status: Option<T>,
    pub error: Option<T>,
    /// Width and height.
    pub size: Option<(i32, i32)>,
}

impl View for ViewerPatch<String> {
    type V = ViewerPatch<Seq<char>>;

    open spec fn view(&self) -> ViewerPatch<Seq<char>> {
        ViewerPatch {
            status: opt_text(self.status),
            error: opt_text(self.error),
            size: self.size,
        }
    }
}

/// What changes in the viewer's window. That the user has ended a stream is no error, nor is an end
/// without a reason.
pub open spec fn viewer_patch(event: ViewerEvent<Seq<char>>) -> ViewerPatch<Seq<char>> {
    match event {
        ViewerEvent::StateChanged { state } => ViewerPatch {
            status: Some(state),
            error: None,
            size: None,
        },
        ViewerEvent::FrameReady { width, height } => ViewerPatch {
            status: None,
            error: None,
            size: Some((width as i32, height as i32)),
        },
        ViewerEvent::StreamRejected { reason } => ViewerPatch {
            status: Some("error"@),
            error: Some(reason),
            size: None,
        },
        ViewerEvent::StreamEnded { reason } => ViewerPatch {
            status: Some("disconnected"@),
            error: if reason.len() > 0 && reason != "user request"@ {
                Some(reason)
            } else {
                None
            },
            size: None,
        },
        ViewerEvent::Error { message } => ViewerPatch {
            status: None,
            error: Some(message),
            size: None,
        },
        ViewerEvent::Other => ViewerPatch { status: None, error: None, size: None },
    }
}

/// Takes in what the viewer reports.
pub fn on_viewer_event(event: &ViewerEvent) -> (r: ViewerPatch)
    ensures
        r@ == viewer_patch(event@),
{
    match event {
        ViewerEvent::StateChanged { state } => ViewerPatch {
            status: Some(state.clone()),
            error: None,
            size: None,
        },
        ViewerEvent::FrameReady { width, height } => ViewerPatch {
            status: None,
            error: None,
            size: Some(
                (#[verifier::truncate] (*width as i32), #[verifier::truncate] (*height as i32)),
            ),
        },
        ViewerEvent::StreamRejected { reason } => ViewerPatch {
            status: Some("error".to_owned()),
            error: Some(reason.clone()),
            size: None,
        },
        ViewerEvent::StreamEnded { reason } => {
            let error = if !reason.as_str().is_empty() && !same_text(
                reason.as_str(),
                "user request",
            ) {
                Some(reason.clone())
            } else {
                None
            };
            ViewerPatch { status: Some("disconnected".to_owned()), error, size: None }
        },
        ViewerEvent::Error { message } => ViewerPatch {
            status: None,
            error: Some(message.clone()),
            size: None,
        },
        ViewerEvent::Other => ViewerPatch { status: None, error: None, size: None },
    }
}

// ---------------------------------------------------------------------------
// Control

/// The quality of a stream.
#[derive(Clone, Copy, Debug, PartialEq, Eq, Structural)]
pub enum ScreenQuality {
    Fast,
    Balanced,
    Quality,
    Auto,
}

/// The quality that a text names, balanced where it names none.
pub open spec fn quality_of(s: Seq<char>) -> ScreenQuality {
    if s == "fast"@ {
        ScreenQuality::Fast
    } else if s == "balanced"@ {
        ScreenQuality::Balanced
    } else if s == "quality"@ {
        ScreenQuality::Quality
    } else if s == "auto"@ {
        ScreenQuality::Auto
    } else {
        ScreenQuality::Balanced
    }
}

/// Reads the quality of a stream.
pub fn parse_quality(s: &str) -> (r: ScreenQuality)
    ensures
        r == quality_of(s@),
{
    if same_text(s, "fast") {
        ScreenQuality::Fast
    } else if same_text(s, "balanced") {
        ScreenQuality::Balanced
    } else if same_text(s, "quality") {
        ScreenQuality::Quality
    } else if same_text(s, "auto") {
        ScreenQuality::Auto
    } else {
        ScreenQuality::Balanced
    }
}

/// A button of the mouse.
#[derive(Clone, Copy, Debug, PartialEq, Eq, Structural)]
pub enum MouseButton {
    Left,
    Right,
    Middle,
}

/// Input for a peer's screen.
#[derive(Clone, Copy, Debug, PartialEq, Eq, Structural)]
pub enum InputEvent {
    MouseMove { x: i32, y: i32 },
    MouseButton { button: MouseButton, pressed: bool },
    MouseScroll { dx: i32, dy: i32 },
    Key { code: i32, pressed: bool },
}

/// The button with a number, the left one where there is no such button.
pub open spec fn button_of(data: i32) -> MouseButton {
    if data == 2 {
        MouseButton::Right
    } else if data == 3 {
        MouseButton::Middle
    } else {
        MouseButton::Left
    }
}

/// The input that an event of the window stands for, if any: a move of the mouse, a button that
/// goes down or up, the wheel, or a key that goes down or up.
pub open spec fn input_of(event_type: i32, x: i32, y: i32, data: i32) -> Option<InputEvent> {
    if event_type == 0 {
        Some(InputEvent::MouseMove { x, y })
    } else if event_type == 1 {
        Some(InputEvent::MouseButton { button: button_of(data), pressed: true })
    } else if event_type == 2 {
        Some(InputEvent::MouseButton { button: button_of(data), pressed: false })
    } else if event_type == 3 {
        Some(InputEvent::MouseScroll { dx: x, dy: y })
    } else if event_type == 4 {
        Some(InputEvent::Key { code: data, pressed: true })
    } else if event_type == 5 {
        Some(InputEvent::Key { code: data, pressed: false })
    } else {
        None
    }
}

fn button(data: i32) -> (r: MouseButton)
    ensures
        r == button_of(data),
{
    if data == 2 {
        MouseButton::Right
    } else if data == 3 {
        MouseButton::Middle
    } else {
        MouseButton::Left
    }
}

/// Reads an event of the window.
pub fn input_event(event_type: i32, x: i32, y: i32, data: i32) -> (r: Option<InputEvent>)
    ensures
        r == input_of(event_type, x, y, data),
{
    if event_type == 0 {
        Some(InputEvent::MouseMove { x, y })
    } else if event_type == 1 {
        Some(InputEvent::MouseButton { button: button(data), pressed: true })
    } else if event_type == 2 {
        Some(InputEvent::MouseButton { button: button(data), pressed: false })
    } else if event_type == 3 {
        Some(InputEvent::MouseScroll { dx: x, dy: y })
    } else if event_type == 4 {
        Some(InputEvent::Key { code: data, pressed: true })
    } else if event_type == 5 {
        Some(InputEvent::Key { code: data, pressed: false })
    } else {
        None
    }
}

/// What goes down comes up: for a button and for a key, the event that presses and the one that
/// releases say the same but for that.
pub proof fn presses_match_releases(x: i32, y: i32, data: i32)
    ensures
        input_of(1, x, y, data) == Some(
            InputEvent::MouseButton { button: button_of(data), pressed: true },
        ),
        input_of(2, x, y, data) == Some(
            InputEvent::MouseButton { button: button_of(data), pressed: false },
        ),
        input_of(4, x, y, data) == Some(InputEvent::Key { code: data, pressed: true }),
        input_of(5, x, y, data) == Some(InputEvent::Key { code: data, pressed: false }),
{
}

/// A stream that was rejected, has ended or has failed is over, and nothing else ends it but the
/// end of the reports; statistics come only with frames that are shown.
pub proof fn streams_stop_at_their_end(event: StreamEvent<Seq<char>>)
    ensures
        stream_step(event).stop <==> (event is Rejected || event is Ended || event is Error
            || event is Closed),
        stream_step(event).stats ==> stream_step(event).call is ShowFrame,
{
}

/// A peer's screen is viewed just where the peer allows it and is online, and the lack of the
/// permission is told first.
pub proof fn willing_peers_are_viewed(screen_view: bool, online: bool)
    ensures
        view_objection(screen_view, online) is None <==> screen_view && online,
        !screen_view ==> view_objection(screen_view, online) == Some(
            "Peer has not granted screen viewing permission"@,
        ),
        screen_view && !online ==> view_objection(screen_view, online) == Some(
            "Peer is not online"@,
        ),
{
}

/// The viewer is told what the stream reports, with the reasons and messages of the report: each
/// frame that was decoded is shown, and every thirtieth of them brings the statistics along.
pub proof fn viewers_hear_what_streams_report(event: StreamEvent, step: StreamStep)
    requires
        step@ == stream_step(event@),
    ensures
        event is Accepted ==> step.call is Connected,
        event matches StreamEvent::Rejected { reason } ==> (step.call matches ViewerCall::Rejected {
            reason: told,
        } && told@ == reason@),
        event matches StreamEvent::Frame { sequence, decoded } ==> (decoded ==> step.call
            is ShowFrame && (step.stats <==> sequence % 30 == 0)) && (!decoded ==> step.call
            is Nothing && !step.stats),
        event matches StreamEvent::Ended { reason } ==> (step.call matches ViewerCall::Disconnect {
            reason: told,
        } && told@ == reason@),
        event matches StreamEvent::Error { message } ==> (step.call matches ViewerCall::Fail {
            message: told,
        } && told@ == message@),
        event is Closed ==> step.call is Nothing,
        step.stop <==> event is Rejected || event is Ended || event is Error || event is Closed,
        !(event is Frame) ==> !step.stats,
{
}

/// The viewer's window shows what the viewer reports: its state, the size of its frames, and its
/// errors. That a stream has ended is an error only for a reason that the user has not given.
pub proof fn windows_show_what_viewers_report(event: ViewerEvent, patch: ViewerPatch)
    requires
        patch@ == viewer_patch(event@),
    ensures
        event matches ViewerEvent::StateChanged { state } ==> (patch.status matches Some(s) && s@
            == state@) && patch.error is None && patch.size is None,
        event matches ViewerEvent::FrameReady { width, height } ==> patch.status is None
            && patch.error is None && (width <= i32::MAX && height <= i32::MAX ==> (
        patch.size matches Some(size) && size.0 == width && size.1 == height)),
        event matches ViewerEvent::StreamRejected { reason } ==> (patch.status matches Some(s) && s@
            == "error"@) && (patch.error matches Some(e) && e@ == reason@),
        event matches ViewerEvent::StreamEnded { reason } ==> (patch.status matches Some(s) && s@
            == "disconnected"@) && (reason@.len() == 0 || reason@ == "user request"@ ==> patch.error
            is None) && (reason@.len() > 0 && reason@ != "user request"@ ==> (
        patch.error matches Some(e) && e@ == reason@)),
        event matches ViewerEvent::Error { message } ==> patch.status is None && (
        patch.error matches Some(e) && e@ == message@),
        event is Other ==> patch.status is None && patch.error is None && patch.size is None,
        !(event is FrameReady) ==> patch.size is None,
{
}

/// Each quality has its own word, and any other text means the balanced one.
pub proof fn qualities_are_named(s: Seq<char>)
    ensures
        quality_of(s) == ScreenQuality::Fast <==> s == "fast"@,
        quality_of(s) == ScreenQuality::Quality <==> s == "quality"@,
        quality_of(s) == ScreenQuality::Auto <==> s == "auto"@,
        s != "fast"@ && s != "quality"@ && s != "auto"@ <==> quality_of(s)
            == ScreenQuality::Balanced,
{
    reveal_strlit("fast");
    reveal_strlit("balanced");
    reveal_strlit("quality");
    reveal_strlit("auto");
    assert("fast"@[0] == 'f' && "balanced"@[0] == 'b' && "quality"@[0] == 'q' && "auto"@[0] == 'a');
}

/// Every move of the mouse and every turn of the wheel is sent as it was made, each button under its
/// own number, and an event of no known type is not sent.
pub proof fn input_is_sent_as_made(event_type: i32, x: i32, y: i32, data: i32)
    ensures
        input_of(0, x, y, data) == Some(InputEvent::MouseMove { x, y }),
        input_of(3, x, y, data) == Some(InputEvent::MouseScroll { dx: x, dy: y }),
        data == 2 ==> input_of(1, x, y, data) == Some(
            InputEvent::MouseButton { button: MouseButton::Right, pressed: true },
        ),
        data == 3 ==> input_of(1, x, y, data) == Some(
            InputEvent::MouseButton { button: MouseButton::Middle, pressed: true },
        ),
        data != 2 && data != 3 ==> input_of(1, x, y, data) == Some(
            InputEvent::MouseButton { button: MouseButton::Left, pressed: true },
        ),
        input_of(1, x, y, data) matches Some(InputEvent::MouseButton { button, pressed })
            && input_of(2, x, y, data) == Some(InputEvent::MouseButton { button, pressed: !pressed }),
        event_type < 0 || event_type > 5 ==> input_of(event_type, x, y, data) is None,
{
}

} // verus!
