//! The decisions behind the server's window: what each message does to the
//! window's state and which task it starts, what the window shows, and what
//! the mouse does with each message that a client sends.

use vstd::prelude::*;

use crate::protocol::{
    parse_requires, parse_spec, FromBytes, IntoBytes, MouseButton, MouseState, ParsedMessage,
    ServerInformation,
};

verus! {

/// The state of the server's window. The running mouse loop itself, and the
/// connection, are held by the caller; `mouse_loop_running` records whether
/// the window has started one.
pub struct WindowState {
    pub server_info: ServerInformation,
    pub mouse_loop_running: bool,
    pub pin: Option<String>,
    pub key: Option<String>,
    pub wait_reason: String,
    pub error: String,
}

/// The text of an optional string.
pub open spec fn opt_text(o: Option<String>) -> Option<Seq<char>> {
    match o {
        Some(s) => Some(s@),
        None => None,
    }
}

/// The mathematical value of a [`WindowState`].
pub ghost struct WindowModel {
    pub server_info: ServerInformation,
    pub mouse_loop_running: bool,
    pub pin: Option<Seq<char>>,
    pub key: Option<Seq<char>>,
    pub wait_reason: Seq<char>,
    pub error: Seq<char>,
}

impl View for WindowState {
    type V = WindowModel;

    open spec fn view(&self) -> WindowModel {
        WindowModel {
            server_info: self.server_info,
            mouse_loop_running: self.mouse_loop_running,
            pin: opt_text(self.pin),
            key: opt_text(self.key),
            wait_reason: self.wait_reason@,
            error: self.error@,
        }
    }
}

/// What the window is told.
pub enum WindowEvent {
    /// The user asked to accept connections.
    Register,
    /// Registration finished: with the peer key and the pin under which it
    /// was published, or with a description of what failed.
    AwaitClient(Result<(String, String), String>),
    /// The waiting for a client ended; an error, if any, is only reported.
    ConnectionEstablished(Result<(), String>),
    /// The user asked to disconnect.
    Disconnect,
    /// An edit of a read-only field.
    Drop,
    /// A finished task with nothing to report.
    Null,
}

/// The mathematical value of a [`WindowEvent`].
pub ghost enum EventModel {
    Register,
    Registered { key: Seq<char>, pin: Seq<char> },
    RegistrationFailed(Seq<char>),
    ConnectionEstablished,
    Disconnect,
    Drop,
    Null,
}

impl View for WindowEvent {
    type V = EventModel;

    open spec fn view(&self) -> EventModel {
        match self {
            WindowEvent::Register => EventModel::Register,
            WindowEvent::AwaitClient(Ok((key, pin))) => EventModel::Registered {
                key: key@,
                pin: pin@,
            },
            WindowEvent::AwaitClient(Err(e)) => EventModel::RegistrationFailed(e@),
            WindowEvent::ConnectionEstablished(_) => EventModel::ConnectionEstablished,
            WindowEvent::Disconnect => EventModel::Disconnect,
            WindowEvent::Drop => EventModel::Drop,
            WindowEvent::Null => EventModel::Null,
        }
    }
}

/// The task that the window asks its caller to run.
pub enum WindowAction {
    /// No task.
    Nothing,
    /// Start a peer endpoint and publish its key under a fresh pin; report
    /// back with [`WindowEvent::AwaitClient`].
    Register,
    /// Wait for a client to connect; report back with
    /// [`WindowEvent::ConnectionEstablished`].
    AwaitConnection,
    /// Send these server information bytes to the client, then run the
    /// mouse loop.
    StartMouseLoop(Vec<u8>),
    /// Let go of the mouse loop's handle (the loop itself is not stopped)
    /// and shut the peer endpoint down.
    CloseConnection,
}

/// The mathematical value of a [`WindowAction`].
pub ghost enum ActionModel {
    Nothing,
    Register,
    AwaitConnection,
    StartMouseLoop(Seq<u8>),
    CloseConnection,
}

impl View for WindowAction {
    type V = ActionModel;

    open spec fn view(&self) -> ActionModel {
        match self {
            WindowAction::Nothing => ActionModel::Nothing,
            WindowAction::Register => ActionModel::Register,
            WindowAction::AwaitConnection => ActionModel::AwaitConnection,
            WindowAction::StartMouseLoop(b) => ActionModel::StartMouseLoop(b@),
            WindowAction::CloseConnection => ActionModel::CloseConnection,
        }
    }
}

/// The window as it first opens.
pub open spec fn boot_spec(info: ServerInformation) -> WindowModel {
    WindowModel {
        server_info: info,
        mouse_loop_running: false,
        pin: None,
        key: None,
        wait_reason: Seq::empty(),
        error: Seq::empty(),
    }
}

/// The window after it handles event `e`.
pub open spec fn next_window(w: WindowModel, e: EventModel) -> WindowModel {
    match e {
        EventModel::Register => WindowModel { wait_reason: "Registering..."@, ..w },
        EventModel::Registered { key, pin } => WindowModel {
            key: Some(key),
            pin: Some(pin),
            wait_reason: "Waiting for connection"@,
            ..w
        },
        EventModel::RegistrationFailed(description) => WindowModel {
            error: description,
            wait_reason: Seq::empty(),
            ..w
        },
        EventModel::ConnectionEstablished => WindowModel {
            wait_reason: "Connection Established"@,
            mouse_loop_running: true,
            ..w
        },
        EventModel::Disconnect => WindowModel {
            mouse_loop_running: false,
            pin: None,
            key: None,
            error: Seq::empty(),
            wait_reason: Seq::empty(),
            ..w
        },
        EventModel::Drop => w,
        EventModel::Null => w,
    }
}

/// The task that the window asks for when it handles event `e`.
pub open spec fn window_action(w: WindowModel, e: EventModel) -> ActionModel {
    match e {
        EventModel::Register => ActionModel::Register,
        EventModel::Registered { .. } => ActionModel::AwaitConnection,
        EventModel::RegistrationFailed(_) => ActionModel::Nothing,
        EventModel::ConnectionEstablished => ActionModel::StartMouseLoop(
            w.server_info.spec_into_bytes(),
        ),
        EventModel::Disconnect => ActionModel::CloseConnection,
        EventModel::Drop => ActionModel::Nothing,
        EventModel::Null => ActionModel::Nothing,
    }
}

/// What the window shows.
pub enum WindowView {
    /// Only a button to disconnect: a client is being served.
    Connected,
    /// The pin and key fields, the button that allows connections, and the
    /// wait reason and error lines.
    Form { pin: String, key: String, wait_reason: String, error: String },
}

/// The mathematical value of a [`WindowView`].
pub ghost enum ViewModel {
    Connected,
    Form { pin: Seq<char>, key: Seq<char>, wait_reason: Seq<char>, error: Seq<char> },
}

impl View for WindowView {
    type V = ViewModel;

    open spec fn view(&self) -> ViewModel {
        match self {
            WindowView::Connected => ViewModel::Connected,
            WindowView::Form { pin, key, wait_reason, error } => ViewModel::Form {
                pin: pin@,
                key: key@,
                wait_reason: wait_reason@,
                error: error@,
            },
        }
    }
}

/// The text of a field: its value, or "None" when it has none.
pub open spec fn field_text(o: Option<Seq<char>>) -> Seq<char> {
    match o {
        Some(s) => s,
        None => "None"@,
    }
}

/// What the window `w` shows.
pub open spec fn view_spec(w: WindowModel) -> ViewModel {
    if w.mouse_loop_running {
        ViewModel::Connected
    } else {
        ViewModel::Form {
            pin: field_text(w.pin),
            key: field_text(w.key),
            wait_reason: w.wait_reason,
            error: w.error,
        }
    }
}

/// The text of a field, or "None".
fn field_or_none(o: &Option<String>) -> (r: String)
    ensures
        r@ == field_text(opt_text(*o)),
{
    match o {
        Some(s) => s.clone(),
        None => "None".to_owned(),
    }
}

impl WindowState {
    /// The window as it first opens, showing no pin, key or message.
    pub fn boot(server_information: ServerInformation) -> (r: Self)
        ensures
            r@ == boot_spec(server_information),
    {
        WindowState {
            server_info: server_information,
            mouse_loop_running: false,
            pin: None,
            key: None,
            wait_reason: String::new(),
            error: String::new(),
        }
    }

    /// Handles one event and says which task to run next.
    pub fn update(&mut self, event: WindowEvent) -> (r: WindowAction)
        ensures
            final(self)@ == next_window(old(self)@, event@),
            r@ == window_action(old(self)@, event@),
    {
        match event {
            WindowEvent::Register => {
                self.wait_reason = "Registering...".to_owned();
                WindowAction::Register
            },
            WindowEvent::AwaitClient(result) => {
                match result {
                    Ok((key, pin)) => {
                        self.key = Some(key);
                        self.pin = Some(pin);
                        self.wait_reason = "Waiting for connection".to_owned();
                        WindowAction::AwaitConnection
                    },
                    Err(description) => {
                        self.error = description;
                        self.wait_reason = String::new();
                        WindowAction::Nothing
                    },
                }
            },
            WindowEvent::ConnectionEstablished(_) => {
                self.wait_reason = "Connection Established".to_owned();
                let bytes = self.server_info.into_bytes();
                self.mouse_loop_running = true;
                WindowAction::StartMouseLoop(bytes)
            },
            WindowEvent::Disconnect => {
                self.mouse_loop_running = false;
                self.pin = None;
                self.key = None;
                self.error = String::new();
                self.wait_reason = String::new();
                WindowAction::CloseConnection
            },
            WindowEvent::Drop => WindowAction::Nothing,
            WindowEvent::Null => WindowAction::Nothing,
        }
    }

    /// What the window shows: only a disconnect button while a client is
    /// served, else the pin and key ("None" when unset) and the messages.
    pub fn display(&self) -> (r: WindowView)
        ensures
            r@ == view_spec(self@),
    {
        if self.mouse_loop_running {
            return WindowView::Connected;
        }
        WindowView::Form {
            pin: field_or_none(&self.pin),
            key: field_or_none(&self.key),
            wait_reason: self.wait_reason.clone(),
            error: self.error.clone(),
        }
    }
}

/// What the mouse is to do for one message from the client.
#[derive(Debug, Copy, Clone, PartialEq, Eq, Structural)]
pub enum MouseCommand {
    /// Move the pointer to this absolute position.
    Move { x: u32, y: u32 },
    /// Press or release this button.
    Click { button: MouseButton, state: MouseState },
    /// Nothing: the message is not a mouse message.
    Ignore,
}

/// The command that a parsed message calls for.
pub open spec fn mouse_command_spec(m: ParsedMessage) -> MouseCommand {
    match m {
        ParsedMessage::MouseMove(mv) => MouseCommand::Move { x: mv.x, y: mv.y },
        ParsedMessage::MouseClick(c) => MouseCommand::Click { button: c.button, state: c.state },
        _ => MouseCommand::Ignore,
    }
}

/// Parses one message from the client and says what the mouse is to do.
pub fn mouse_command(message: &[u8]) -> (r: MouseCommand)
    requires
        parse_requires(message@),
    ensures
        r == mouse_command_spec(parse_spec(message@)),
{
    match FromBytes::parse(message) {
        FromBytes::MouseMove(m) => MouseCommand::Move { x: m.x, y: m.y },
        FromBytes::MouseClick(c) => MouseCommand::Click { button: c.button, state: c.state },
        _ => MouseCommand::Ignore,
    }
}

/// No event changes the server information that the window holds.
pub proof fn lemma_window_keeps_server_info(w: WindowModel, e: EventModel)
    ensures
        next_window(w, e).server_info == w.server_info,
{
}

/// Edits of read-only fields and finished tasks change nothing and start
/// nothing.
pub proof fn lemma_window_ignores_drop_and_null(w: WindowModel)
    ensures
        next_window(w, EventModel::Drop) == w,
        window_action(w, EventModel::Drop) == ActionModel::Nothing,
        next_window(w, EventModel::Null) == w,
        window_action(w, EventModel::Null) == ActionModel::Nothing,
{
}

/// Whatever came before, a disconnect closes the connection and brings the
/// window back to how it first opened: the form with "None" for pin and key
/// and no messages.
pub proof fn lemma_disconnect_resets(w: WindowModel)
    ensures
        next_window(w, EventModel::Disconnect) == boot_spec(w.server_info),
        window_action(w, EventModel::Disconnect) == ActionModel::CloseConnection,
        view_spec(next_window(w, EventModel::Disconnect)) == (ViewModel::Form {
            pin: "None"@,
            key: "None"@,
            wait_reason: Seq::empty(),
            error: Seq::empty(),
        }),
{
}

/// Once a connection is established the window shows only the disconnect
/// button and starts the mouse loop by sending the server information,
/// which the client parses back to the same information.
pub proof fn lemma_connection_established(w: WindowModel)
    ensures
        view_spec(next_window(w, EventModel::ConnectionEstablished)) == ViewModel::Connected,
        window_action(w, EventModel::ConnectionEstablished) == ActionModel::StartMouseLoop(
            w.server_info.spec_into_bytes(),
        ),
        parse_requires(w.server_info.spec_into_bytes()),
        parse_spec(w.server_info.spec_into_bytes()) == ParsedMessage::ServerInformation(
            w.server_info,
        ),
{
    crate::protocol::lemma_parse_written_message(
        w.server_info,
        crate::protocol::MouseMove { x: 0, y: 0 },
        crate::protocol::MouseClick { button: MouseButton::Left, state: MouseState::Released },
    );
}

/// A registration that succeeds shows its pin and key while the window
/// waits for a client; one that fails shows its description and no wait
/// reason. Neither starts the mouse loop.
pub proof fn lemma_registration_outcome(
    w: WindowModel,
    key: Seq<char>,
    pin: Seq<char>,
    description: Seq<char>,
)
    requires
        !w.mouse_loop_running,
    ensures
        view_spec(next_window(w, EventModel::Registered { key, pin })) == (ViewModel::Form {
            pin,
            key,
            wait_reason: "Waiting for connection"@,
            error: w.error,
        }),
        view_spec(next_window(w, EventModel::RegistrationFailed(description))) == (ViewModel::Form {
            pin: field_text(w.pin),
            key: field_text(w.key),
            wait_reason: Seq::empty(),
            error: description,
        }),
{
}

/// The window after the events `events`, one after another.
pub open spec fn run_window(w: WindowModel, events: Seq<EventModel>) -> WindowModel
    decreases events.len(),
{
    if events.len() == 0 {
        w
    } else {
        run_window(next_window(w, events[0]), events.drop_first())
    }
}

/// Whether `s` is one of the wait reasons that the window shows.
pub open spec fn known_wait_reason(s: Seq<char>) -> bool {
    ||| s == Seq::<char>::empty()
    ||| s == "Registering..."@
    ||| s == "Waiting for connection"@
    ||| s == "Connection Established"@
}

/// What holds of every window opened with `info`: pin and key are set
/// together, the wait reason is one of the known texts, and the server
/// information is the one it opened with.
pub open spec fn window_invariant(w: WindowModel, info: ServerInformation) -> bool {
    &&& (w.key is Some) == (w.pin is Some)
    &&& known_wait_reason(w.wait_reason)
    &&& w.server_info == info
}

/// Every window reached from its first opening by any sequence of events
/// (whether or not the tasks they ask for are run) has pin and key set
/// together, shows a known wait reason, and keeps its server information.
pub proof fn lemma_window_invariant(info: ServerInformation, events: Seq<EventModel>)
    ensures
        window_invariant(run_window(boot_spec(info), events), info),
{
    lemma_window_invariant_from(boot_spec(info), info, events);
}

/// Each event keeps the invariant, so any sequence of events does.
proof fn lemma_window_invariant_from(w: WindowModel, info: ServerInformation, events: Seq<EventModel>)
    requires
        window_invariant(w, info),
    ensures
        window_invariant(run_window(w, events), info),
    decreases events.len(),
{
    if events.len() > 0 {
        lemma_window_invariant_from(next_window(w, events[0]), info, events.drop_first());
    }
}

/// Every click that the client sends presses or releases the very button
/// it names, every move goes to the very position it names, and nothing
/// else moves the mouse. Read off the wire: a click message drives the
/// button of bit 1 of its argument into the state of bit 0.
pub proof fn lemma_mouse_command_follows_message(m: ParsedMessage, bytes: Seq<u8>)
    ensures
        m matches ParsedMessage::MouseClick(c) ==> mouse_command_spec(m) == (MouseCommand::Click {
            button: c.button,
            state: c.state,
        }),
        m matches ParsedMessage::MouseMove(mv) ==> mouse_command_spec(m) == (MouseCommand::Move {
            x: mv.x,
            y: mv.y,
        }),
        (m is ServerInformation || m is UnknownInstruction) ==> mouse_command_spec(m)
            == MouseCommand::Ignore,
        bytes.len() >= 2 && bytes[0] == 0x11 ==> mouse_command_spec(parse_spec(bytes)) == (
        MouseCommand::Click {
            button: if (bytes[1] / 2) % 2 == 1 {
                MouseButton::Right
            } else {
                MouseButton::Left
            },
            state: if bytes[1] % 2 == 1 {
                MouseState::Pressed
            } else {
                MouseState::Released
            },
        }),
{
}

/// While no client is served, the window shows its own wait reason and
/// error, and the pin and key it holds, or "None" for one it does not hold;
/// while a client is served, it shows only the disconnect button.
pub proof fn lemma_display_shows_state(w: WindowModel)
    ensures
        w.mouse_loop_running ==> view_spec(w) == ViewModel::Connected,
        !w.mouse_loop_running ==> (view_spec(w) matches ViewModel::Form { pin, key, wait_reason, error } && {
            &&& wait_reason == w.wait_reason
            &&& error == w.error
            &&& (w.pin matches Some(p) ==> pin == p)
            &&& (w.pin is None ==> pin == "None"@)
            &&& (w.key matches Some(k) ==> key == k)
            &&& (w.key is None ==> key == "None"@)
        }),
{
}

/// What each event does to each part of the window. Only an established
/// connection starts the mouse loop and only a disconnect stops it;
/// registering changes only the wait reason; a finished registration sets
/// pin, key and wait reason, or error and wait reason; nothing changes the
/// server information.
pub proof fn lemma_window_event_effects(w: WindowModel, e: EventModel)
    ensures
        next_window(w, e).server_info == w.server_info,
        !(e is ConnectionEstablished) && next_window(w, e).mouse_loop_running
            ==> w.mouse_loop_running,
        !(e is Disconnect) && w.mouse_loop_running ==> next_window(w, e).mouse_loop_running,
        e is ConnectionEstablished ==> next_window(w, e).mouse_loop_running,
        e is Disconnect ==> !next_window(w, e).mouse_loop_running,
        e is Register ==> {
            let n = next_window(w, e);
            &&& n.wait_reason == "Registering..."@
            &&& n.mouse_loop_running == w.mouse_loop_running
            &&& n.pin == w.pin
            &&& n.key == w.key
            &&& n.error == w.error
        },
        e matches EventModel::Registered { key, pin } ==> {
            let n = next_window(w, e);
            &&& n.wait_reason == "Waiting for connection"@
            &&& n.mouse_loop_running == w.mouse_loop_running
            &&& n.pin == Some(pin)
            &&& n.key == Some(key)
            &&& n.error == w.error
        },
        e matches EventModel::RegistrationFailed(description) ==> {
            let n = next_window(w, e);
            &&& n.wait_reason == Seq::<char>::empty()
            &&& n.mouse_loop_running == w.mouse_loop_running
            &&& n.pin == w.pin
            &&& n.key == w.key
            &&& n.error == description
        },
        e is ConnectionEstablished ==> {
            let n = next_window(w, e);
            &&& n.wait_reason == "Connection Established"@
            &&& n.pin == w.pin
            &&& n.key == w.key
            &&& n.error == w.error
        },
{
}

} // verus!
