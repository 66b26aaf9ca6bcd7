//! The rules by which one inbound connection becomes a tunnel.
//!
//! A connection is driven from outside: whoever owns the sockets performs the
//! action that `step` hands out and reports what came of it as the next
//! event. The rules themselves touch no socket and no file, and every
//! connection starts from `ConnectionState::new` with nothing carried over
//! from an earlier one.
//!
//! The egress flag alone decides between Tor and a direct connection. The
//! routing policy of `crate::router` is advisory and has no say here.

use crate::flag::{egress_on, flag_bytes, lemma_flag_round_trip, should_use_tor};
use crate::request::{
    connect_word, ends_header, header_complete, parse_request_line, parsed_request,
    MAX_HEADER_BYTES,
};
use crate::text::utf8_lossy;
use vstd::prelude::*;

verus! {

/// The way a tunnel leaves the gateway.
#[derive(Debug, Clone, Copy, PartialEq, Eq, Structural)]
pub enum Egress {
    /// Through the SOCKS5 relay of the local Tor daemon.
    Tor,
    /// By a TCP connection straight to the target.
    Direct,
}

/// Why a connection was turned away before any upstream was opened.
#[derive(Debug, Clone, Copy, PartialEq, Eq, Structural)]
pub enum Rejection {
    /// The client closed before its header was complete.
    ClientClosed,
    /// The header was not complete within `MAX_HEADER_BYTES`.
    HeaderTooLarge,
    /// The request was complete but asked for something other than a tunnel.
    MethodNotAllowed,
}

/// The status lines that a client may get to see. No other is ever sent.
#[derive(Debug, Clone, Copy, PartialEq, Eq, Structural)]
pub enum Response {
    ConnectionEstablished,
    MethodNotAllowed,
}

/// Where a connection stands.
#[derive(Debug, Clone, PartialEq, Eq)]
pub enum ConnectionState {
    /// Reading the request, byte by byte, until its header is complete.
    AwaitingRequestLine { received: Vec<u8> },
    /// A tunnel to `target` was asked for. `egress` is `None` until the flag
    /// was read, and from then on the way that is being opened.
    EstablishingUpstream { target: String, egress: Option<Egress> },
    /// The client was told that the tunnel stands; bytes flow both ways.
    Relaying,
    /// The connection is over.
    Closed,
    /// The connection was turned away.
    Rejected { reason: Rejection },
}

/// What the outside reports back.
#[derive(Debug, Clone, PartialEq, Eq)]
pub enum Event {
    /// The client sent one more byte.
    Byte(u8),
    /// The client closed its side.
    EndOfStream,
    /// The flag artifact was read: its content, or `None` where it could not
    /// be read.
    Flag(Option<Vec<u8>>),
    /// The upstream connection stands.
    Connected,
    /// The step that was asked for failed: a read, a write or the upstream
    /// connection.
    Failed,
    /// One direction of the relay reached its end.
    RelayEnded,
}

/// What the outside is to do next.
#[derive(Debug, Clone, PartialEq, Eq)]
pub enum Action {
    /// Read the next byte from the client.
    ReadByte,
    /// Read the flag artifact.
    ReadFlag,
    /// Open the upstream to `target`, by way of `egress`.
    Connect { egress: Egress, target: String },
    /// Send `Response::ConnectionEstablished`, then copy bytes both ways until
    /// one side ends.
    Relay,
    /// Send `Response::MethodNotAllowed`, then close.
    Refuse,
    /// Close both ends and send nothing.
    Close,
}

pub enum StateView {
    AwaitingRequestLine { received: Seq<u8> },
    EstablishingUpstream { target: Seq<char>, egress: Option<Egress> },
    Relaying,
    Closed,
    Rejected { reason: Rejection },
}

pub enum EventView {
    Byte(u8),
    EndOfStream,
    Flag(Option<Seq<u8>>),
    Connected,
    Failed,
    RelayEnded,
}

pub enum ActionView {
    ReadByte,
    ReadFlag,
    Connect { egress: Egress, target: Seq<char> },
    Relay,
    Refuse,
    Close,
}

impl View for ConnectionState {
    type V = StateView;

    open spec fn view(&self) -> StateView {
        match self {
            ConnectionState::AwaitingRequestLine { received } => StateView::AwaitingRequestLine {
                received: received@,
            },
            ConnectionState::EstablishingUpstream {
                target,
                egress,
            } => StateView::EstablishingUpstream { target: target@, egress: *egress },
            ConnectionState::Relaying => StateView::Relaying,
            ConnectionState::Closed => StateView::Closed,
            ConnectionState::Rejected { reason } => StateView::Rejected { reason: *reason },
        }
    }
}

impl View for Event {
    type V = EventView;

    open spec fn view(&self) -> EventView {
        match self {
            Event::Byte(b) => EventView::Byte(*b),
            Event::EndOfStream => EventView::EndOfStream,
            Event::Flag(Some(content)) => EventView::Flag(Some(content@)),
            Event::Flag(None) => EventView::Flag(None),
            Event::Connected => EventView::Connected,
            Event::Failed => EventView::Failed,
            Event::RelayEnded => EventView::RelayEnded,
        }
    }
}

impl View for Action {
    type V = ActionView;

    open spec fn view(&self) -> ActionView {
        match self {
            Action::ReadByte => ActionView::ReadByte,
            Action::ReadFlag => ActionView::ReadFlag,
            Action::Connect { egress, target } => ActionView::Connect {
                egress: *egress,
                target: target@,
            },
            Action::Relay => ActionView::Relay,
            Action::Refuse => ActionView::Refuse,
            Action::Close => ActionView::Close,
        }
    }
}

/// The address on which tunnel requests are accepted.
pub const LISTEN_ADDRESS: &'static str = "127.0.0.1:7777";

/// The address of the SOCKS5 relay through which Tor is reached.
pub const TOR_RELAY: &'static str = "127.0.0.1:9050";

/// The status line that `response` stands for, with the empty line that ends
/// it.
pub open spec fn status_line_of(response: Response) -> Seq<char> {
    match response {
        Response::ConnectionEstablished => "HTTP/1.1 200 Connection Established\r\n\r\n"@,
        Response::MethodNotAllowed => "HTTP/1.1 405 Method Not Allowed\r\n\r\n"@,
    }
}

/// The status line that an action sends to the client, if it sends any.
pub open spec fn response_of(action: ActionView) -> Option<Response> {
    match action {
        ActionView::Relay => Some(Response::ConnectionEstablished),
        ActionView::Refuse => Some(Response::MethodNotAllowed),
        _ => None,
    }
}

/// What is logged of a rejection. A request for another method is answered
/// and is no error: nothing is logged of it.
pub open spec fn message_of(reason: Rejection) -> Option<Seq<char>> {
    match reason {
        Rejection::ClientClosed => Some("client closed before sending request"@),
        Rejection::HeaderTooLarge => Some("request header too large"@),
        Rejection::MethodNotAllowed => None,
    }
}

impl Response {
    /// The bytes to send, as text.
    pub fn status_line(&self) -> (line: &'static str)
        ensures
            line@ == status_line_of(*self),
    {
        match self {
            Response::ConnectionEstablished => "HTTP/1.1 200 Connection Established\r\n\r\n",
            Response::MethodNotAllowed => "HTTP/1.1 405 Method Not Allowed\r\n\r\n",
        }
    }
}

impl Rejection {
    /// The message to log.
    pub fn message(&self) -> (text: Option<&'static str>)
        ensures
            match text {
                Some(t) => message_of(*self) == Some(t@),
                None => message_of(*self) is None,
            },
    {
        match self {
            Rejection::ClientClosed => Some("client closed before sending request"),
            Rejection::HeaderTooLarge => Some("request header too large"),
            Rejection::MethodNotAllowed => None,
        }
    }
}

impl Egress {
    /// The relay to go through: `TOR_RELAY` for Tor, none for a direct
    /// connection.
    pub fn relay(&self) -> (address: Option<&'static str>)
        ensures
            match address {
                Some(a) => *self == Egress::Tor && a@ == TOR_RELAY@,
                None => *self == Egress::Direct,
            },
    {
        match self {
            Egress::Tor => Some(TOR_RELAY),
            Egress::Direct => None,
        }
    }
}

impl Action {
    /// The status line to send to the client before anything else is done,
    /// if the action sends one.
    pub fn response(&self) -> (response: Option<Response>)
        ensures
            response == response_of(self@),
    {
        match self {
            Action::Relay => Some(Response::ConnectionEstablished),
            Action::Refuse => Some(Response::MethodNotAllowed),
            _ => None,
        }
    }
}

/// The state in which every connection starts: nothing received yet.
pub open spec fn initial_state() -> StateView {
    StateView::AwaitingRequestLine { received: Seq::empty() }
}

/// The way out that the flag's content stands for.
pub open spec fn egress_for(content: Option<Seq<u8>>) -> Egress {
    if egress_on(content) {
        Egress::Tor
    } else {
        Egress::Direct
    }
}

/// What one more byte of the request leads to. The bound is looked at
/// first: a header has to be complete within `MAX_HEADER_BYTES`, and a byte
/// beyond them is one too many even where it would complete the header.
pub open spec fn after_byte(received: Seq<u8>, byte: u8) -> (StateView, ActionView) {
    let grown = received.push(byte);
    if grown.len() > MAX_HEADER_BYTES {
        (StateView::Rejected { reason: Rejection::HeaderTooLarge }, ActionView::Close)
    } else if ends_header(grown) {
        let request = parsed_request(grown);
        if request.method == connect_word() {
            (
                StateView::EstablishingUpstream {
                    target: utf8_lossy(request.target),
                    egress: None,
                },
                ActionView::ReadFlag,
            )
        } else {
            (StateView::Rejected { reason: Rejection::MethodNotAllowed }, ActionView::Refuse)
        }
    } else {
        (StateView::AwaitingRequestLine { received: grown }, ActionView::ReadByte)
    }
}

/// The rules: the state that follows `state` on `event`, and the action that
/// goes with it. An event that the state did not ask for ends the
/// connection; a connection that is over stays so.
pub open spec fn step_spec(state: StateView, event: EventView) -> (StateView, ActionView) {
    match state {
        StateView::AwaitingRequestLine { received } => match event {
            EventView::Byte(byte) => after_byte(received, byte),
            EventView::EndOfStream => (
                StateView::Rejected { reason: Rejection::ClientClosed },
                ActionView::Close,
            ),
            _ => (StateView::Closed, ActionView::Close),
        },
        StateView::EstablishingUpstream { target, egress: None } => match event {
            EventView::Flag(content) => (
                StateView::EstablishingUpstream { target, egress: Some(egress_for(content)) },
                ActionView::Connect { egress: egress_for(content), target },
            ),
            _ => (StateView::Closed, ActionView::Close),
        },
        StateView::EstablishingUpstream { target, egress: Some(_) } => match event {
            EventView::Connected => (StateView::Relaying, ActionView::Relay),
            _ => (StateView::Closed, ActionView::Close),
        },
        StateView::Relaying => (StateView::Closed, ActionView::Close),
        StateView::Closed => (StateView::Closed, ActionView::Close),
        StateView::Rejected { reason } => (StateView::Rejected { reason }, ActionView::Close),
    }
}

impl ConnectionState {
    /// The state of a connection that was just accepted.
    pub fn new() -> (state: ConnectionState)
        ensures
            state@ == initial_state(),
    {
        ConnectionState::AwaitingRequestLine { received: Vec::new() }
    }

    /// Whether the connection is over: no further event is expected.
    pub fn is_terminal(&self) -> (over: bool)
        ensures
            over == (self@ is Closed || self@ is Rejected),
    {
        match self {
            ConnectionState::Closed => true,
            ConnectionState::Rejected { .. } => true,
            _ => false,
        }
    }
}

/// Takes one more byte of the request.
fn on_byte(received: Vec<u8>, byte: u8) -> (next: (ConnectionState, Action))
    ensures
        (next.0@, next.1@) == after_byte(received@, byte),
{
    let mut received = received;
    received.push(byte);
    if received.len() > MAX_HEADER_BYTES {
        (ConnectionState::Rejected { reason: Rejection::HeaderTooLarge }, Action::Close)
    } else if header_complete(received.as_slice()) {
        let request = parse_request_line(received.as_slice());
        if request.is_connect() {
            let target = request.target_text();
            (ConnectionState::EstablishingUpstream { target, egress: None }, Action::ReadFlag)
        } else {
            (ConnectionState::Rejected { reason: Rejection::MethodNotAllowed }, Action::Refuse)
        }
    } else {
        (ConnectionState::AwaitingRequestLine { received }, Action::ReadByte)
    }
}

/// Moves a connection on by one event.
pub fn step(state: ConnectionState, event: Event) -> (next: (ConnectionState, Action))
    ensures
        (next.0@, next.1@) == step_spec(state@, event@),
{
    match state {
        ConnectionState::AwaitingRequestLine { received } => match event {
            Event::Byte(byte) => on_byte(received, byte),
            Event::EndOfStream => (
                ConnectionState::Rejected { reason: Rejection::ClientClosed },
                Action::Close,
            ),
            _ => (ConnectionState::Closed, Action::Close),
        },
        ConnectionState::EstablishingUpstream { target, egress: None } => match event {
            Event::Flag(content) => {
                let on = match &content {
                    Some(bytes) => should_use_tor(Some(bytes.as_slice())),
                    None => should_use_tor(None),
                };
                let egress = if on {
                    Egress::Tor
                } else {
                    Egress::Direct
                };
                let dialled = target.clone();
                (
                    ConnectionState::EstablishingUpstream { target, egress: Some(egress) },
                    Action::Connect { egress, target: dialled },
                )
            },
            _ => (ConnectionState::Closed, Action::Close),
        },
        ConnectionState::EstablishingUpstream { target: _, egress: Some(_) } => match event {
            Event::Connected => (ConnectionState::Relaying, Action::Relay),
            _ => (ConnectionState::Closed, Action::Close),
        },
        ConnectionState::Relaying => (ConnectionState::Closed, Action::Close),
        ConnectionState::Closed => (ConnectionState::Closed, Action::Close),
        ConnectionState::Rejected { reason } => (ConnectionState::Rejected { reason }, Action::Close),
    }
}

/// The state that a connection is in after `events`, starting from `state`.
pub open spec fn run(state: StateView, events: Seq<EventView>) -> StateView
    decreases events.len(),
{
    if events.len() == 0 {
        state
    } else {
        step_spec(run(state, events.drop_last()), events.last()).0
    }
}

/// The action that the last of `events` leads to.
pub open spec fn last_action(state: StateView, events: Seq<EventView>) -> ActionView
    recommends
        events.len() > 0,
{
    step_spec(run(state, events.drop_last()), events.last()).1
}

/// How many status lines are sent in the course of `events`.
pub open spec fn responses(state: StateView, events: Seq<EventView>) -> nat
    decreases events.len(),
{
    if events.len() == 0 {
        0
    } else {
        let sent: nat = if response_of(last_action(state, events)) is Some {
            1
        } else {
            0
        };
        responses(state, events.drop_last()) + sent
    }
}

/// The events that stand for the client sending `bytes`.
pub open spec fn bytes_sent(bytes: Seq<u8>) -> Seq<EventView> {
    bytes.map_values(|b: u8| EventView::Byte(b))
}

/// A status line is sent at most once in the life of a connection, whatever
/// happens to it, and a connection that has sent one reads no more of the
/// request and opens no upstream.
pub proof fn lemma_at_most_one_response(state: StateView, events: Seq<EventView>)
    ensures
        responses(state, events) <= 1,
        responses(state, events) == 1 ==> run(state, events) is Relaying || run(state, events)
            is Closed || run(state, events) is Rejected,
    decreases events.len(),
{
    if events.len() > 0 {
        lemma_at_most_one_response(state, events.drop_last());
    }
}

/// A request whose header is not complete within `MAX_HEADER_BYTES` gets no
/// answer. While the bytes are within the bound the connection only reads
/// on; the byte beyond the bound has it rejected, and from then on every
/// further byte is met by closing, whatever those bytes hold. No status line
/// is sent and no upstream is opened on the way.
pub proof fn lemma_unterminated_header(bytes: Seq<u8>)
    requires
        forall|n: int| 0 <= n <= bytes.len() && n <= MAX_HEADER_BYTES ==> !ends_header(
            #[trigger] bytes.take(n),
        ),
    ensures
        bytes.len() <= MAX_HEADER_BYTES ==> run(initial_state(), bytes_sent(bytes))
            == (StateView::AwaitingRequestLine { received: bytes }),
        bytes.len() > MAX_HEADER_BYTES ==> run(initial_state(), bytes_sent(bytes))
            == (StateView::Rejected { reason: Rejection::HeaderTooLarge }),
        0 < bytes.len() <= MAX_HEADER_BYTES ==> last_action(initial_state(), bytes_sent(bytes))
            == ActionView::ReadByte,
        bytes.len() > MAX_HEADER_BYTES ==> last_action(initial_state(), bytes_sent(bytes))
            == ActionView::Close,
        responses(initial_state(), bytes_sent(bytes)) == 0,
    decreases bytes.len(),
{
    if bytes.len() > 0 {
        let shorter = bytes.drop_last();
        assert forall|n: int| 0 <= n <= shorter.len() && n <= MAX_HEADER_BYTES implies !ends_header(
            #[trigger] shorter.take(n),
        ) by {
            assert(shorter.take(n) =~= bytes.take(n));
        }
        lemma_unterminated_header(shorter);
        assert(bytes_sent(bytes).drop_last() =~= bytes_sent(shorter));
        assert(bytes_sent(bytes).last() == EventView::Byte(bytes.last()));
        assert(shorter.push(bytes.last()) =~= bytes);
        assert(bytes.take(bytes.len() as int) =~= bytes);
    } else {
        assert(bytes =~= Seq::<u8>::empty());
    }
}

/// A client that closes before its header is complete is turned away
/// without a word.
pub proof fn lemma_closed_before_header(bytes: Seq<u8>)
    requires
        bytes.len() <= MAX_HEADER_BYTES,
        forall|n: int| 0 <= n <= bytes.len() ==> !ends_header(#[trigger] bytes.take(n)),
    ensures
        step_spec(run(initial_state(), bytes_sent(bytes)), EventView::EndOfStream) == (
            StateView::Rejected { reason: Rejection::ClientClosed },
            ActionView::Close,
        ),
{
    lemma_unterminated_header(bytes);
}

/// A header within the bound that is complete with its last byte and not
/// before decides the connection by its first line: a request for a tunnel
/// goes on to read the flag, every other request is answered with
/// `Response::MethodNotAllowed` and the connection is over.
pub proof fn lemma_complete_header(header: Seq<u8>)
    requires
        ends_header(header),
        header.len() <= MAX_HEADER_BYTES,
        forall|n: int| 0 <= n < header.len() ==> !ends_header(#[trigger] header.take(n)),
    ensures
        parsed_request(header).method == connect_word() ==> run(
            initial_state(),
            bytes_sent(header),
        ) == (StateView::EstablishingUpstream {
            target: utf8_lossy(parsed_request(header).target),
            egress: None,
        }) && last_action(initial_state(), bytes_sent(header)) == ActionView::ReadFlag,
        parsed_request(header).method != connect_word() ==> run(
            initial_state(),
            bytes_sent(header),
        ) == (StateView::Rejected { reason: Rejection::MethodNotAllowed }) && last_action(
            initial_state(),
            bytes_sent(header),
        ) == ActionView::Refuse,
        responses(initial_state(), bytes_sent(header)) == (if parsed_request(header).method
            == connect_word() {
            0nat
        } else {
            1nat
        }),
{
    let shorter = header.drop_last();
    assert forall|n: int| 0 <= n <= shorter.len() && n <= MAX_HEADER_BYTES implies !ends_header(
        #[trigger] shorter.take(n),
    ) by {
        assert(shorter.take(n) =~= header.take(n));
    }
    lemma_unterminated_header(shorter);
    assert(bytes_sent(header).drop_last() =~= bytes_sent(shorter));
    assert(bytes_sent(header).last() == EventView::Byte(header.last()));
    assert(shorter.push(header.last()) =~= header);
}

/// Once the flag was read, the upstream is opened by the way that the flag
/// stands for, and the client is told that the tunnel stands when, and only
/// when, the upstream was opened.
pub proof fn lemma_upstream(target: Seq<char>, content: Option<Seq<u8>>, outcome: EventView)
    ensures
        ({
            let asked = StateView::EstablishingUpstream { target, egress: None };
            let dialling = StateView::EstablishingUpstream {
                target,
                egress: Some(egress_for(content)),
            };
            &&& step_spec(asked, EventView::Flag(content)) == (
                dialling,
                ActionView::Connect { egress: egress_for(content), target },
            )
            &&& step_spec(dialling, EventView::Connected) == (StateView::Relaying, ActionView::Relay)
            &&& outcome != EventView::Connected ==> step_spec(dialling, outcome) == (
                StateView::Closed,
                ActionView::Close,
            )
        }),
{
}

/// Setting the flag takes effect with the next connection: with the content
/// stored for off a tunnel goes straight to its target, with the content
/// stored for on it goes through Tor.
pub proof fn lemma_flag_decides_path(target: Seq<char>, on: bool)
    ensures
        step_spec(
            StateView::EstablishingUpstream { target, egress: None },
            EventView::Flag(Some(flag_bytes(on))),
        ).1 == (ActionView::Connect {
            egress: if on {
                Egress::Tor
            } else {
                Egress::Direct
            },
            target,
        }),
{
    lemma_flag_round_trip(on);
}

} // verus!
