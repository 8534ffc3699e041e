//! The control connection: when it is made, greeted, lost and made again, and
//! who gets which answer.

use vstd::prelude::*;
use std::collections::VecDeque;
use crate::config::{after_event, apply_control_event, ClientConfig};
use crate::playback::ClientConnectionEvent;
use crate::protocol::{
    offered_codecs, supported_codecs, ButtonCapability, ClientCapabilities, ClientRole,
    ControlEvent, ControlResponse, EnrollmentStatus, HelloMessage,
};
use crate::text::{concat4, contains_part, has_part, owned};

verus! {

/// Milliseconds before the first attempt to connect again.
pub const CONTROL_RECONNECT_INITIAL_MS: u64 = 500;

/// The longest time between attempts in milliseconds.
pub const CONTROL_RECONNECT_MAX_MS: u64 = 5000;

/// The time before the next attempt: twice that before the last, up to a limit.
pub open spec fn backed_off(current: u64) -> u64 {
    if 2 * current < CONTROL_RECONNECT_MAX_MS {
        (2 * current) as u64
    } else {
        CONTROL_RECONNECT_MAX_MS
    }
}

/// The time before the next attempt, in milliseconds.
pub fn next_reconnect_delay(current: u64) -> (r: u64)
    ensures
        r == backed_off(current),
{
    if current < CONTROL_RECONNECT_MAX_MS / 2 {
        2 * current
    } else {
        CONTROL_RECONNECT_MAX_MS
    }
}

// ---------------------------------------------------------------------------
// The connection
// ---------------------------------------------------------------------------

/// Where the connection stands.
#[derive(Debug, Clone, Copy, PartialEq, Eq, Structural)]
pub enum LinkPhase {
    /// An attempt to connect is under way.
    Connecting,
    /// Connected again: the client introduces itself.
    Greeting,
    /// Requests and replies go back and forth.
    Active,
    /// Waiting for the next attempt.
    Waiting,
    /// Nobody has requests any more.
    Stopped,
}

/// The state of the control connection.
#[derive(Debug, Clone, Copy, PartialEq, Eq, Structural)]
pub struct ControlLink {
    pub phase: LinkPhase,
    /// Milliseconds before the next attempt.
    pub reconnect_delay_ms: u64,
    /// The client has been connected before.
    pub connected_once: bool,
}

/// What happens to the connection.
#[derive(Debug, Clone, Copy, PartialEq, Eq, Structural)]
pub enum LinkEvent {
    /// The attempt to connect succeeded.
    Opened,
    /// The attempt to connect failed.
    OpenFailed,
    /// The introduction was sent.
    HelloSent,
    /// The introduction could not be sent.
    HelloFailed,
    /// A request came up while waiting.
    Request,
    /// A request was sent.
    RequestSent,
    /// A request could not be sent.
    RequestFailed,
    /// There will be no more requests.
    RequestsEnded,
    /// The connection was closed, or reading from it failed, or answering a ping did.
    Lost,
    /// The time before the next attempt is over.
    WaitOver,
}

/// What is to be done.
#[derive(Debug, Clone, Copy, PartialEq, Eq, Structural)]
pub enum LinkAction {
    /// Try to connect.
    Open,
    /// Send the introduction.
    SendHello,
    /// Note that the request just sent awaits an answer.
    AwaitAnswer,
    /// Answer the request that came up: the connection is not available.
    RefuseRequest,
    /// Answer all requests that await one: the connection is not available.
    FailPending,
    /// Take all buttons as released.
    ReleaseButtons,
    /// Tell the rest of the client.
    Notify(ClientConnectionEvent),
    /// Wait that many milliseconds, answering requests where the flag says so.
    Wait(u64, bool),
    /// End.
    Stop,
}

/// What a lost connection asks for.
pub open spec fn loss_actions(delay: u64) -> Seq<LinkAction> {
    seq![
        LinkAction::FailPending,
        LinkAction::ReleaseButtons,
        LinkAction::Notify(ClientConnectionEvent::Disconnected),
        LinkAction::Notify(ClientConnectionEvent::Reconnecting),
        LinkAction::Wait(delay, true),
    ]
}

/// The state after an event, and what is to be done.
pub open spec fn link_step(s: ControlLink, e: LinkEvent) -> (ControlLink, Seq<LinkAction>) {
    match (s.phase, e) {
        (LinkPhase::Connecting, LinkEvent::OpenFailed) => (
            ControlLink { phase: LinkPhase::Waiting, ..s },
            seq![
                LinkAction::Notify(ClientConnectionEvent::Reconnecting),
                LinkAction::Wait(s.reconnect_delay_ms, s.connected_once),
            ],
        ),
        (LinkPhase::Connecting, LinkEvent::Opened) => if s.connected_once {
            (
                ControlLink { phase: LinkPhase::Greeting, ..s },
                seq![
                    LinkAction::Notify(ClientConnectionEvent::Connected),
                    LinkAction::SendHello,
                ],
            )
        } else {
            (
                ControlLink {
                    phase: LinkPhase::Active,
                    reconnect_delay_ms: CONTROL_RECONNECT_INITIAL_MS,
                    connected_once: true,
                },
                seq![LinkAction::Notify(ClientConnectionEvent::Connected)],
            )
        },
        (LinkPhase::Greeting, LinkEvent::HelloFailed) => (
            ControlLink { phase: LinkPhase::Waiting, ..s },
            seq![
                LinkAction::Notify(ClientConnectionEvent::Reconnecting),
                LinkAction::Wait(s.reconnect_delay_ms, true),
            ],
        ),
        (LinkPhase::Greeting, LinkEvent::HelloSent) => (
            ControlLink {
                phase: LinkPhase::Active,
                reconnect_delay_ms: CONTROL_RECONNECT_INITIAL_MS,
                connected_once: true,
            },
            Seq::empty(),
        ),
        (LinkPhase::Active, LinkEvent::RequestSent) => (s, seq![LinkAction::AwaitAnswer]),
        (LinkPhase::Active, LinkEvent::RequestFailed) => (
            ControlLink { phase: LinkPhase::Waiting, ..s },
            seq![LinkAction::RefuseRequest] + loss_actions(s.reconnect_delay_ms),
        ),
        (LinkPhase::Active, LinkEvent::Lost) => (
            ControlLink { phase: LinkPhase::Waiting, ..s },
            loss_actions(s.reconnect_delay_ms),
        ),
        (LinkPhase::Active, LinkEvent::RequestsEnded) => (
            ControlLink { phase: LinkPhase::Stopped, ..s },
            seq![LinkAction::Stop],
        ),
        (LinkPhase::Waiting, LinkEvent::Request) => (s, seq![LinkAction::RefuseRequest]),
        (LinkPhase::Waiting, LinkEvent::RequestsEnded) => (
            ControlLink { phase: LinkPhase::Stopped, ..s },
            seq![LinkAction::Stop],
        ),
        (LinkPhase::Waiting, LinkEvent::WaitOver) => (
            ControlLink {
                phase: LinkPhase::Connecting,
                reconnect_delay_ms: backed_off(s.reconnect_delay_ms),
                ..s
            },
            seq![LinkAction::Open],
        ),
        _ => (s, Seq::empty()),
    }
}

impl ControlLink {
    /// The state before the first attempt, which is to be made at once.
    pub fn new() -> (r: Self)
        ensures
            r == (ControlLink {
                phase: LinkPhase::Connecting,
                reconnect_delay_ms: CONTROL_RECONNECT_INITIAL_MS,
                connected_once: false,
            }),
    {
        ControlLink {
            phase: LinkPhase::Connecting,
            reconnect_delay_ms: CONTROL_RECONNECT_INITIAL_MS,
            connected_once: false,
        }
    }

    /// Takes an event, and tells what is to be done, in that order.
    pub fn step(&mut self, event: LinkEvent) -> (actions: Vec<LinkAction>)
        ensures
            (*final(self), actions@) == link_step(*old(self), event),
    {
        let mut actions: Vec<LinkAction> = Vec::new();
        match (self.phase, event) {
            (LinkPhase::Connecting, LinkEvent::OpenFailed) => {
                actions.push(LinkAction::Notify(ClientConnectionEvent::Reconnecting));
                actions.push(LinkAction::Wait(self.reconnect_delay_ms, self.connected_once));
                self.phase = LinkPhase::Waiting;
            },
            (LinkPhase::Connecting, LinkEvent::Opened) => {
                actions.push(LinkAction::Notify(ClientConnectionEvent::Connected));
                if self.connected_once {
                    actions.push(LinkAction::SendHello);
                    self.phase = LinkPhase::Greeting;
                } else {
                    self.connected_once = true;
                    self.reconnect_delay_ms = CONTROL_RECONNECT_INITIAL_MS;
                    self.phase = LinkPhase::Active;
                }
            },
            (LinkPhase::Greeting, LinkEvent::HelloFailed) => {
                actions.push(LinkAction::Notify(ClientConnectionEvent::Reconnecting));
                actions.push(LinkAction::Wait(self.reconnect_delay_ms, true));
                self.phase = LinkPhase::Waiting;
            },
            (LinkPhase::Greeting, LinkEvent::HelloSent) => {
                self.connected_once = true;
                self.reconnect_delay_ms = CONTROL_RECONNECT_INITIAL_MS;
                self.phase = LinkPhase::Active;
            },
            (LinkPhase::Active, LinkEvent::RequestSent) => {
                actions.push(LinkAction::AwaitAnswer);
            },
            (LinkPhase::Active, LinkEvent::RequestFailed) => {
                actions.push(LinkAction::RefuseRequest);
                self.lose(&mut actions);
            },
            (LinkPhase::Active, LinkEvent::Lost) => {
                self.lose(&mut actions);
            },
            (LinkPhase::Active, LinkEvent::RequestsEnded) => {
                actions.push(LinkAction::Stop);
                self.phase = LinkPhase::Stopped;
            },
            (LinkPhase::Waiting, LinkEvent::Request) => {
                actions.push(LinkAction::RefuseRequest);
            },
            (LinkPhase::Waiting, LinkEvent::RequestsEnded) => {
                actions.push(LinkAction::Stop);
                self.phase = LinkPhase::Stopped;
            },
            (LinkPhase::Waiting, LinkEvent::WaitOver) => {
                actions.push(LinkAction::Open);
                self.reconnect_delay_ms = next_reconnect_delay(self.reconnect_delay_ms);
                self.phase = LinkPhase::Connecting;
            },
            _ => {},
        }
        proof {
            assert(actions@ =~= link_step(*old(self), event).1);
        }
        actions
    }

    fn lose(&mut self, actions: &mut Vec<LinkAction>)
        ensures
            *final(self) == (ControlLink { phase: LinkPhase::Waiting, ..*old(self) }),
            final(actions)@ == old(actions)@ + loss_actions(old(self).reconnect_delay_ms),
    {
        actions.push(LinkAction::FailPending);
        actions.push(LinkAction::ReleaseButtons);
        actions.push(LinkAction::Notify(ClientConnectionEvent::Disconnected));
        actions.push(LinkAction::Notify(ClientConnectionEvent::Reconnecting));
        actions.push(LinkAction::Wait(self.reconnect_delay_ms, true));
        self.phase = LinkPhase::Waiting;
        proof {
            assert(actions@ =~= old(actions)@ + loss_actions(old(self).reconnect_delay_ms));
        }
    }
}

// ---------------------------------------------------------------------------
// Requests and answers
// ---------------------------------------------------------------------------

/// The text of the answer to a request that cannot be sent.
pub open spec fn unavailable_text() -> Seq<char> {
    "control connection unavailable; reconnecting"@
}

/// The answer says that the connection is not available.
pub open spec fn is_unavailable(r: ControlResponse) -> bool {
    r matches ControlResponse::Error { message } && message@ == unavailable_text()
}

/// The answer to a request that cannot be sent.
pub fn control_unavailable_response() -> (r: ControlResponse)
    ensures
        is_unavailable(r),
{
    ControlResponse::Error { message: owned("control connection unavailable; reconnecting") }
}

/// Empties the queue of requests that await an answer, the oldest first, with the
/// answer that each of them gets: the connection is not available.
pub fn fail_pending_control_responses<T>(pending: &mut VecDeque<T>) -> (r: Vec<(
    T,
    ControlResponse,
)>)
    ensures
        final(pending)@.len() == 0,
        r@.len() == old(pending)@.len(),
        forall|i: int|
            0 <= i < r@.len() ==> (#[trigger] r@[i]).0 == old(pending)@[i] && is_unavailable(
                r@[i].1,
            ),
{
    let ghost all = pending@;
    let mut out: Vec<(T, ControlResponse)> = Vec::new();
    while pending.len() > 0
        invariant
            out@.len() + pending@.len() == all.len(),
            pending@ == all.skip(out@.len() as int),
            forall|i: int|
                0 <= i < out@.len() ==> (#[trigger] out@[i]).0 == all[i] && is_unavailable(
                    out@[i].1,
                ),
        decreases pending@.len(),
    {
        let ghost n = out@.len();
        match pending.pop_front() {
            Some(waiter) => {
                out.push((waiter, control_unavailable_response()));
                proof {
                    assert(pending@ =~= all.skip(n as int + 1));
                }
            },
            None => {},
        }
    }
    out
}

/// A message from the server, as far as it can be read.
#[derive(Debug)]
pub enum ServerMessage {
    Event(ControlEvent),
    Response(ControlResponse),
    Unknown,
}

/// Takes a message from the server. An event changes the configuration. A response
/// goes to the oldest request that awaits one, if there is any.
pub fn handle_control_message<T>(
    config: &mut ClientConfig,
    pending: &mut VecDeque<T>,
    message: ServerMessage,
) -> (r: Option<(T, ControlResponse)>)
    ensures
        match message {
            ServerMessage::Event(e) => *final(config) == after_event(*old(config), e)
                && final(pending)@ == old(pending)@ && r is None,
            ServerMessage::Response(answer) => *final(config) == *old(config) && if old(
                pending,
            )@.len() > 0 {
                r == Some((old(pending)@[0], answer)) && final(pending)@ == old(
                    pending,
                )@.drop_first()
            } else {
                r is None && final(pending)@ == old(pending)@
            },
            ServerMessage::Unknown => *final(config) == *old(config) && final(pending)@ == old(
                pending,
            )@ && r is None,
        },
{
    match message {
        ServerMessage::Event(e) => {
            apply_control_event(config, e);
            None
        },
        ServerMessage::Response(answer) => {
            match pending.pop_front() {
                Some(waiter) => {
                    proof {
                        assert(pending@ =~= old(pending)@.drop_first());
                    }
                    Some((waiter, answer))
                },
                None => None,
            }
        },
        ServerMessage::Unknown => None,
    }
}

/// The outcome of a request that only asks for an acknowledgement.
#[derive(Debug)]
pub enum Acknowledgement {
    Done,
    Refused(String),
    Unexpected,
}

/// Reads the answer to a request that only asks for an acknowledgement.
pub fn acknowledgement(response: ControlResponse) -> (r: Acknowledgement)
    ensures
        match response {
            ControlResponse::Ack => r is Done,
            ControlResponse::Error { message } => r == Acknowledgement::Refused(message),
            ControlResponse::Hello { .. } => r is Unexpected,
        },
{
    match response {
        ControlResponse::Ack => Acknowledgement::Done,
        ControlResponse::Error { message } => Acknowledgement::Refused(message),
        ControlResponse::Hello { .. } => Acknowledgement::Unexpected,
    }
}

// ---------------------------------------------------------------------------
// Introductions
// ---------------------------------------------------------------------------

/// A copy of a list of offered buttons.
pub fn copy_buttons(v: &Vec<ButtonCapability>) -> (r: Vec<ButtonCapability>)
    ensures
        r@ == v@,
{
    let mut r: Vec<ButtonCapability> = Vec::new();
    let mut i: usize = 0;
    while i < v.len()
        invariant
            0 <= i <= v@.len(),
            r@ == v@.take(i as int),
        decreases v@.len() - i,
    {
        r.push(ButtonCapability { id: v[i].id.clone(), label: v[i].label.clone() });
        proof {
            assert(v@.take(i + 1) =~= v@.take(i as int).push(v@[i as int]));
        }
        i = i + 1;
    }
    proof {
        assert(v@.take(v@.len() as int) =~= v@);
    }
    r
}

/// How a client introduces itself on its first connection. Without a user number
/// of its own it asks for none.
pub fn first_hello(config: &ClientConfig, role: ClientRole) -> (r: HelloMessage)
    ensures
        r.user_id == config.user_id,
        r.requested_user_id == if config.user_id > 0 {
            Some(config.user_id)
        } else {
            None
        },
        r.client_uid == config.client_uid,
        r.codecs@ == offered_codecs(),
        r.buttons@ == config.advertised_buttons@,
        r.capabilities is None,
        r.role == role,
{
    HelloMessage {
        user_id: config.user_id,
        requested_user_id: if config.user_id > 0 {
            Some(config.user_id)
        } else {
            None
        },
        client_uid: config.client_uid.clone(),
        codecs: supported_codecs(),
        buttons: copy_buttons(&config.advertised_buttons),
        capabilities: None,
        role,
    }
}

/// How a bridge introduces itself on its first connection, and a route for browsers
/// too: it asks for the user number that it was given, offers no buttons, and
/// announces what it can do.
pub fn bridge_hello(config: &ClientConfig) -> (r: HelloMessage)
    ensures
        r.user_id == config.user_id,
        r.requested_user_id == Some(config.user_id),
        r.client_uid == config.client_uid,
        r.codecs@ == offered_codecs(),
        r.buttons@.len() == 0,
        r.capabilities == Some(ClientCapabilities::Bridge),
        r.role == ClientRole::Bridge,
{
    HelloMessage {
        user_id: config.user_id,
        requested_user_id: Some(config.user_id),
        client_uid: config.client_uid.clone(),
        codecs: supported_codecs(),
        buttons: Vec::new(),
        capabilities: Some(ClientCapabilities::Bridge),
        role: ClientRole::Bridge,
    }
}

/// How a client introduces itself when it is connected again.
pub fn reconnect_hello(config: &ClientConfig) -> (r: HelloMessage)
    ensures
        r.user_id == config.user_id,
        r.requested_user_id == Some(config.user_id),
        r.client_uid == config.client_uid,
        r.codecs@ == offered_codecs(),
        r.buttons@ == config.advertised_buttons@,
        r.capabilities is None,
        r.role == config.role,
{
    HelloMessage {
        user_id: config.user_id,
        requested_user_id: Some(config.user_id),
        client_uid: config.client_uid.clone(),
        codecs: supported_codecs(),
        buttons: copy_buttons(&config.advertised_buttons),
        capabilities: None,
        role: config.role,
    }
}

/// Why a client was not let in.
#[derive(Debug)]
pub enum HelloError {
    /// The administrator has not admitted the client.
    NotEnrolled(EnrollmentStatus),
    /// The server refused the introduction.
    Refused(String),
}

/// The name of an enrollment.
pub open spec fn enrollment_name(status: EnrollmentStatus) -> Seq<char> {
    match status {
        EnrollmentStatus::Enrolled => "Enrolled"@,
        EnrollmentStatus::Pending => "Pending"@,
        EnrollmentStatus::Rejected => "Rejected"@,
    }
}

fn enrollment_text(status: EnrollmentStatus) -> (r: &'static str)
    ensures
        r@ == enrollment_name(status),
{
    match status {
        EnrollmentStatus::Enrolled => "Enrolled",
        EnrollmentStatus::Pending => "Pending",
        EnrollmentStatus::Rejected => "Rejected",
    }
}

impl HelloError {
    /// The error in words, told of a `client` or a `browser source`.
    pub open spec fn words(self, who: Seq<char>) -> Seq<char> {
        match self {
            HelloError::NotEnrolled(status) => who + " enrollment is "@ + enrollment_name(status)
                + "; waiting for admin approval"@,
            HelloError::Refused(message) => message@,
        }
    }

    /// The error in words.
    pub fn message(&self, who: &str) -> (r: String)
        ensures
            r@ == self.words(who@),
    {
        match self {
            HelloError::NotEnrolled(status) => concat4(
                who,
                " enrollment is ",
                enrollment_text(*status),
                "; waiting for admin approval",
            ),
            HelloError::Refused(message) => owned(message.as_str()),
        }
    }
}

/// Takes the answer to the first introduction: the server gives the client its
/// user number, and maybe its id. The result tells whether the server has a
/// configuration for the client.
pub fn accept_hello(config: &mut ClientConfig, response: ControlResponse) -> (r: Result<
    bool,
    HelloError,
>)
    ensures
        match response {
            ControlResponse::Hello { preconfigured, user_id, client_uid, enrollment } => if enrollment
                == EnrollmentStatus::Enrolled {
                r == Ok::<bool, HelloError>(preconfigured) && *final(config) == (ClientConfig {
                    user_id,
                    client_uid: if client_uid@.len() == 0 {
                        old(config).client_uid
                    } else {
                        client_uid
                    },
                    ..*old(config)
                })
            } else {
                r == Err::<bool, HelloError>(HelloError::NotEnrolled(enrollment)) && *final(config)
                    == *old(config)
            },
            ControlResponse::Ack => r == Ok::<bool, HelloError>(false) && *final(config) == *old(
                config,
            ),
            ControlResponse::Error { message } => r == Err::<bool, HelloError>(
                HelloError::Refused(message),
            ) && *final(config) == *old(config),
        },
{
    match response {
        ControlResponse::Hello { preconfigured, user_id, client_uid, enrollment } => {
            if enrollment != EnrollmentStatus::Enrolled {
                return Err(HelloError::NotEnrolled(enrollment));
            }
            config.user_id = user_id;
            if !client_uid.as_str().is_empty() {
                config.client_uid = client_uid;
            }
            Ok(preconfigured)
        },
        ControlResponse::Ack => Ok(false),
        ControlResponse::Error { message } => Err(HelloError::Refused(message)),
    }
}

/// Tells whether a refusal only says that the connection is being made again.
pub fn is_deferred(message: &str) -> (r: bool)
    ensures
        r == has_part(message@, "control connection unavailable"@),
{
    contains_part(message, "control connection unavailable")
}

// ---------------------------------------------------------------------------
// Laws
// ---------------------------------------------------------------------------

/// The time between attempts never shrinks while they fail, and has a limit.
pub proof fn delays_grow_up_to_a_limit(current: u64)
    requires
        CONTROL_RECONNECT_INITIAL_MS <= current <= CONTROL_RECONNECT_MAX_MS,
    ensures
        current <= backed_off(current) <= CONTROL_RECONNECT_MAX_MS,
        current < CONTROL_RECONNECT_MAX_MS ==> current < backed_off(current),
{
}

/// The delay stays between the first and the longest one, whatever happens.
pub open spec fn delay_in_range(s: ControlLink) -> bool {
    CONTROL_RECONNECT_INITIAL_MS <= s.reconnect_delay_ms <= CONTROL_RECONNECT_MAX_MS
}

/// A connection whose session is under way counts as connected before.
pub open spec fn link_inv(s: ControlLink) -> bool {
    &&& delay_in_range(s)
    &&& (s.phase == LinkPhase::Active || s.phase == LinkPhase::Greeting) ==> s.connected_once
    &&& s.phase == LinkPhase::Active ==> s.reconnect_delay_ms == CONTROL_RECONNECT_INITIAL_MS
}

/// Every event keeps the invariant of the connection. A session begins with the
/// shortest delay.
pub proof fn steps_keep_the_invariant(s: ControlLink, e: LinkEvent)
    requires
        link_inv(s),
    ensures
        link_inv(link_step(s, e).0),
        s.connected_once ==> link_step(s, e).0.connected_once,
{
}

/// A lost session answers every request that waits, releases the buttons, and is
/// announced before the wait for the next attempt begins.
pub proof fn losses_are_announced(s: ControlLink)
    requires
        s.phase == LinkPhase::Active,
    ensures
        link_step(s, LinkEvent::Lost).0.phase == LinkPhase::Waiting,
        link_step(s, LinkEvent::Lost).1[0] == LinkAction::FailPending,
        link_step(s, LinkEvent::Lost).1[1] == LinkAction::ReleaseButtons,
        link_step(s, LinkEvent::Lost).1[2] == LinkAction::Notify(
            ClientConnectionEvent::Disconnected,
        ),
        link_step(s, LinkEvent::Lost).1[3] == LinkAction::Notify(
            ClientConnectionEvent::Reconnecting,
        ),
        link_step(s, LinkEvent::Lost).1.last() == LinkAction::Wait(s.reconnect_delay_ms, true),
        link_step(s, LinkEvent::RequestFailed).1.skip(1) == link_step(s, LinkEvent::Lost).1,
{
    assert(link_step(s, LinkEvent::RequestFailed).1.skip(1) =~= loss_actions(s.reconnect_delay_ms));
}

/// A stopped connection stays stopped.
pub proof fn stopped_links_stay_stopped(s: ControlLink, e: LinkEvent)
    requires
        s.phase == LinkPhase::Stopped,
    ensures
        link_step(s, e) == (s, Seq::<LinkAction>::empty()),
{
}

} // verus!
