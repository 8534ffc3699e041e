//! The control connection.

use std::collections::VecDeque;
use vstd::prelude::*;

use crate::config::{apply_control_event, ClientConfig};
use crate::control::{
    accept_hello, acknowledgement, bridge_hello, control_unavailable_response, copy_buttons,
    fail_pending_control_responses, first_hello, handle_control_message, is_deferred,
    next_reconnect_delay, reconnect_hello, Acknowledgement, ControlLink, HelloError, LinkAction,
    LinkEvent, LinkPhase, ServerMessage,
};
use crate::playback::ClientConnectionEvent;
use crate::protocol::{
    ButtonCapability, ClientCapabilities, ClientRole, Codec, ControlEvent, ControlResponse,
    EnrollmentStatus, HelloMessage,
};

verus! {

// ---------------------------------------------------------------------------
// The connection
// ---------------------------------------------------------------------------

/// The time before the next attempt doubles, up to five seconds.
pub proof fn delays_double_up_to_a_limit(current: u64, r: u64)
    requires
        call_ensures(next_reconnect_delay, (current,), r),
    ensures
        current <= 2500 ==> r == current * 2,
        current > 2500 ==> r == 5000,
{
}

/// The first attempt is made at once; the first delay is half a second.
pub proof fn links_start_by_connecting(link: ControlLink)
    requires
        call_ensures(ControlLink::new, (), link),
    ensures
        link.phase == LinkPhase::Connecting,
        link.reconnect_delay_ms == 500,
        !link.connected_once,
{
}

/// A connection that comes up is told. The first time the client goes on at once;
/// later it introduces itself before.
pub proof fn connections_that_come_up_are_told(
    link: &mut ControlLink,
    actions: Vec<LinkAction>,
)
    requires
        call_ensures(ControlLink::step, (link, LinkEvent::Opened), actions),
        old(link).phase == LinkPhase::Connecting,
    ensures
        actions@.len() > 0 && actions@[0] == LinkAction::Notify(ClientConnectionEvent::Connected),
        old(link).connected_once ==> final(link).phase == LinkPhase::Greeting && actions@.len() == 2
            && actions@[1] == LinkAction::SendHello,
        !old(link).connected_once ==> final(link).phase == LinkPhase::Active && actions@.len() == 1
            && final(link).reconnect_delay_ms == 500,
        final(link).connected_once,
{
}

/// After an introduction the connection is in use, and the delay starts over.
pub proof fn greetings_bring_the_connection_up(
    link: &mut ControlLink,
    actions: Vec<LinkAction>,
)
    requires
        call_ensures(ControlLink::step, (link, LinkEvent::HelloSent), actions),
        old(link).phase == LinkPhase::Greeting,
    ensures
        final(link).phase == LinkPhase::Active,
        final(link).reconnect_delay_ms == 500,
        final(link).connected_once,
        actions@.len() == 0,
{
}

/// An attempt that fails, or an introduction that cannot be sent, is told as being
/// restored, and the next attempt waits for its time.
pub proof fn failed_attempts_wait(
    link: &mut ControlLink,
    event: LinkEvent,
    actions: Vec<LinkAction>,
)
    requires
        call_ensures(ControlLink::step, (link, event), actions),
        old(link).phase == LinkPhase::Connecting && event == LinkEvent::OpenFailed || old(
            link,
        ).phase == LinkPhase::Greeting && event == LinkEvent::HelloFailed,
    ensures
        final(link).phase == LinkPhase::Waiting,
        final(link).reconnect_delay_ms == old(link).reconnect_delay_ms,
        final(link).connected_once == old(link).connected_once,
        actions@.len() == 2,
        actions@[0] == LinkAction::Notify(ClientConnectionEvent::Reconnecting),
        actions@[1] is Wait,
        actions@[1]->Wait_0 == old(link).reconnect_delay_ms,
        event == LinkEvent::HelloFailed ==> actions@[1]->Wait_1,
        event == LinkEvent::OpenFailed ==> actions@[1]->Wait_1 == old(link).connected_once,
{
}

/// A connection that is lost fails what awaits an answer, releases the buttons, and is
/// told as lost and then as being restored, before the next attempt is waited for. A
/// request that could not be sent is refused first.
pub proof fn losses_are_dealt_with_in_order(
    link: &mut ControlLink,
    event: LinkEvent,
    actions: Vec<LinkAction>,
)
    requires
        call_ensures(ControlLink::step, (link, event), actions),
        old(link).phase == LinkPhase::Active,
        event == LinkEvent::Lost || event == LinkEvent::RequestFailed,
    ensures
        final(link).phase == LinkPhase::Waiting,
        final(link).reconnect_delay_ms == old(link).reconnect_delay_ms,
        ({
            let n = if event == LinkEvent::RequestFailed {
                1int
            } else {
                0
            };
            &&& actions@.len() == n + 5
            &&& n == 1 ==> actions@[0] == LinkAction::RefuseRequest
            &&& actions@[n] == LinkAction::FailPending
            &&& actions@[n + 1] == LinkAction::ReleaseButtons
            &&& actions@[n + 2] == LinkAction::Notify(ClientConnectionEvent::Disconnected)
            &&& actions@[n + 3] == LinkAction::Notify(ClientConnectionEvent::Reconnecting)
            &&& actions@[n + 4] == LinkAction::Wait(old(link).reconnect_delay_ms, true)
        }),
{
}

/// While the connection is up a request awaits its answer; while it is not, a request
/// is refused and nothing else happens.
pub proof fn requests_are_awaited_or_refused(
    up: &mut ControlLink,
    sent: Vec<LinkAction>,
    down: &mut ControlLink,
    refused: Vec<LinkAction>,
)
    requires
        call_ensures(ControlLink::step, (up, LinkEvent::RequestSent), sent),
        old(up).phase == LinkPhase::Active,
        call_ensures(ControlLink::step, (down, LinkEvent::Request), refused),
        old(down).phase == LinkPhase::Waiting,
    ensures
        sent@ == seq![LinkAction::AwaitAnswer],
        *final(up) == *old(up),
        refused@ == seq![LinkAction::RefuseRequest],
        *final(down) == *old(down),
{
}

/// When the time is over the next attempt is made, and the one after that waits twice
/// as long, up to five seconds.
pub proof fn waiting_ends_with_an_attempt(link: &mut ControlLink, actions: Vec<LinkAction>)
    requires
        call_ensures(ControlLink::step, (link, LinkEvent::WaitOver), actions),
        old(link).phase == LinkPhase::Waiting,
    ensures
        final(link).phase == LinkPhase::Connecting,
        actions@ == seq![LinkAction::Open],
        old(link).reconnect_delay_ms <= 2500 ==> final(link).reconnect_delay_ms == 2 * old(
            link,
        ).reconnect_delay_ms,
        old(link).reconnect_delay_ms > 2500 ==> final(link).reconnect_delay_ms == 5000,
        final(link).connected_once == old(link).connected_once,
{
}

/// The connection ends when there are no more requests, and then stays as it is.
pub proof fn links_end_with_their_requests(
    link: &mut ControlLink,
    actions: Vec<LinkAction>,
    after: &mut ControlLink,
    event: LinkEvent,
    nothing: Vec<LinkAction>,
)
    requires
        call_ensures(ControlLink::step, (link, LinkEvent::RequestsEnded), actions),
        old(link).phase == LinkPhase::Active || old(link).phase == LinkPhase::Waiting,
        call_ensures(ControlLink::step, (after, event), nothing),
        *old(after) == *final(link),
    ensures
        final(link).phase == LinkPhase::Stopped,
        actions@ == seq![LinkAction::Stop],
        *final(after) == *old(after),
        nothing@.len() == 0,
{
}

// ---------------------------------------------------------------------------
// Answers
// ---------------------------------------------------------------------------

/// Requests that await an answer when the connection is lost are all answered, in
/// their order, with an error that says so.
pub proof fn pending_requests_are_failed<T>(
    pending: &mut VecDeque<T>,
    r: Vec<(T, ControlResponse)>,
    i: int,
)
    requires
        call_ensures(fail_pending_control_responses::<T>, (pending,), r),
        0 <= i < old(pending)@.len(),
    ensures
        final(pending)@.len() == 0,
        r@.len() == old(pending)@.len(),
        r@[i].0 == old(pending)@[i],
        r@[i].1 matches ControlResponse::Error { message } && message@
            == "control connection unavailable; reconnecting"@,
{
    let x = r@[i];
}

/// An answer goes to the request that has waited longest. An event goes to none, and
/// changes the configuration as the event says.
pub proof fn answers_go_to_the_oldest_request<T>(
    config: &mut ClientConfig,
    pending: &mut VecDeque<T>,
    message: ServerMessage,
    r: Option<(T, ControlResponse)>,
)
    requires
        call_ensures(handle_control_message::<T>, (config, pending, message), r),
    ensures
        message matches ServerMessage::Response(answer) ==> (old(pending)@.len() > 0 ==> r == Some(
            (old(pending)@[0], answer),
        ) && old(pending)@ == seq![r->Some_0.0] + final(pending)@),
        !(message is Response) || old(pending)@.len() == 0 ==> r is None && final(pending)@ == old(
            pending,
        )@,
        !(message is Event) ==> *final(config) == *old(config),
{
    if r is Some {
        assert(old(pending)@ =~= seq![r->Some_0.0] + final(pending)@);
    }
}

/// An event that comes over the connection does to the configuration what the event
/// does.
pub proof fn events_reach_the_configuration<T>(
    config: &mut ClientConfig,
    pending: &mut VecDeque<T>,
    event: ControlEvent,
    r: Option<(T, ControlResponse)>,
    other: &mut ClientConfig,
)
    requires
        call_ensures(handle_control_message::<T>, (config, pending, ServerMessage::Event(event)), r),
        call_ensures(apply_control_event, (other, event), ()),
        *old(other) == *old(config),
    ensures
        *final(config) == *final(other),
{
}

/// A request is done where it was acknowledged, and refused with the server's words
/// where it was not.
pub proof fn acknowledgements_are_read(response: ControlResponse, r: Acknowledgement)
    requires
        call_ensures(acknowledgement, (response,), r),
    ensures
        r is Done <==> response is Ack,
        r is Refused <==> response is Error,
        r is Refused ==> r->Refused_0 == response->message,
        r is Unexpected <==> response is Hello,
{
}

/// An error that says that the connection is not there puts a request off.
pub proof fn unavailable_connections_defer(response: ControlResponse, message: &str, r: bool)
    requires
        call_ensures(control_unavailable_response, (), response),
        response is Error,
        message@ == response->message@,
        call_ensures(is_deferred, (message,), r),
    ensures
        r,
{
    reveal_strlit("control connection unavailable; reconnecting");
    reveal_strlit("control connection unavailable");
    let s = "control connection unavailable; reconnecting"@;
    let p = "control connection unavailable"@;
    assert(s.subrange(0, p.len() as int) =~= p);
    assert(crate::text::occurs_at(s, p, 0));
}

// ---------------------------------------------------------------------------
// Introductions
// ---------------------------------------------------------------------------

/// The codecs that a client offers: all but the one that it cannot decode.
pub open spec fn offers_codecs(codecs: Seq<Codec>) -> bool {
    &&& forall|c: Codec| #[trigger] codecs.contains(c) <==> c != Codec::Adpcm
    &&& codecs.len() == 4
}

proof fn lemma_codecs()
    ensures
        offers_codecs(crate::protocol::offered_codecs()),
{
    assert forall|c: Codec| #[trigger]
        crate::protocol::offered_codecs().contains(c) <==> c != Codec::Adpcm by {
        crate::protocol::offered_codecs_are_the_supported_ones(c);
    }
}

/// A client introduces itself as who it is, with the codecs that it can decode and the
/// buttons that it offers. It asks for its number where it has one.
pub proof fn clients_introduce_themselves(
    config: ClientConfig,
    role: ClientRole,
    first: HelloMessage,
    again: HelloMessage,
)
    requires
        call_ensures(first_hello, (&config, role), first),
        call_ensures(reconnect_hello, (&config,), again),
    ensures
        first.user_id == config.user_id && again.user_id == config.user_id,
        first.client_uid == config.client_uid && again.client_uid == config.client_uid,
        config.user_id == 0 ==> first.requested_user_id is None,
        config.user_id > 0 ==> first.requested_user_id == Some(config.user_id),
        again.requested_user_id == Some(config.user_id),
        offers_codecs(first.codecs@) && offers_codecs(again.codecs@),
        first.buttons@ == config.advertised_buttons@ && again.buttons@
            == config.advertised_buttons@,
        first.capabilities is None && again.capabilities is None,
        first.role == role && again.role == config.role,
{
    lemma_codecs();
}

/// A bridge introduces itself as one, and tells what it can do.
pub proof fn bridges_introduce_themselves(config: ClientConfig, r: HelloMessage)
    requires
        call_ensures(bridge_hello, (&config,), r),
    ensures
        r.user_id == config.user_id,
        r.requested_user_id == Some(config.user_id),
        r.client_uid == config.client_uid,
        offers_codecs(r.codecs@),
        r.buttons@.len() == 0,
        r.capabilities == Some(ClientCapabilities::Bridge),
        r.role == ClientRole::Bridge,
{
    lemma_codecs();
}

/// A client that is admitted takes over the number that it is given, and the id where
/// there is one. One that is not admitted, or refused, stays as it is and is told why.
pub proof fn introductions_are_answered(
    config: &mut ClientConfig,
    response: ControlResponse,
    r: Result<bool, HelloError>,
)
    requires
        call_ensures(accept_hello, (config, response), r),
    ensures
        match response {
            ControlResponse::Hello { preconfigured, user_id, client_uid, enrollment } => {
                &&& r is Ok <==> enrollment == EnrollmentStatus::Enrolled
                &&& r is Ok ==> r->Ok_0 == preconfigured && final(config).user_id == user_id && (
                client_uid@.len() > 0 ==> final(config).client_uid == client_uid) && (
                client_uid@.len() == 0 ==> final(config).client_uid == old(config).client_uid)
                &&& r is Err ==> r->Err_0 == HelloError::NotEnrolled(enrollment)
            },
            ControlResponse::Ack => r is Ok && !r->Ok_0 && *final(config) == *old(config),
            ControlResponse::Error { message } => r is Err && r->Err_0 == HelloError::Refused(
                message,
            ),
        },
        r is Err ==> *final(config) == *old(config),
        *final(config) == (ClientConfig {
            user_id: final(config).user_id,
            client_uid: final(config).client_uid,
            ..*old(config)
        }),
{
}

/// What is told of a client that was not let in names it and its state, or is what the
/// server said.
pub proof fn refusals_are_told(e: HelloError, who: &str, r: String)
    requires
        call_ensures(HelloError::message, (&e, who), r),
    ensures
        e matches HelloError::Refused(message) ==> r@ == message@,
        e matches HelloError::NotEnrolled(status) ==> r@ == who@ + " enrollment is "@ + (
        match status {
            EnrollmentStatus::Enrolled => "Enrolled"@,
            EnrollmentStatus::Pending => "Pending"@,
            EnrollmentStatus::Rejected => "Rejected"@,
        }) + "; waiting for admin approval"@,
{
}

/// Buttons are copied as they are.
pub proof fn buttons_are_copied(v: Vec<ButtonCapability>, r: Vec<ButtonCapability>)
    requires
        call_ensures(copy_buttons, (&v,), r),
    ensures
        r@.len() == v@.len(),
        forall|i: int| 0 <= i < v@.len() ==> #[trigger] r@[i] == v@[i],
{
}

} // verus!
