//! What the local interface of a client lets an operator do.

use vstd::prelude::*;

use crate::config::ClientConfig;
use crate::local_api::{
    call_index, config_button, forward_answer, other_alerts, other_calls, queue_answer,
    same_channels, set_active_button, set_active_direct_call, validate_full_config_allowed,
    without_text, ApiError, ForwardOutcome, LocalClientApi, QueueOutcome,
};
use crate::playback::PlaybackStats;
use crate::protocol::{
    Codec, ControlMessage, ControlResponse, DirectCallStatus, TalkButtonConfig, TalkButtonMode,
    TalkMode,
};
use crate::text::texts;
use crate::ui::{
    AlertRequest, FullConfigRequest, GainRequest, MacosMicrophoneModeStatus, OkResponse,
    StateResponse,
};

verus! {

// ---------------------------------------------------------------------------
// Asking the server
// ---------------------------------------------------------------------------

/// A request that is answered with this message.
pub open spec fn asks(r: Result<ControlMessage, ApiError>, message: ControlMessage) -> bool {
    r is Ok && r->Ok_0 == message
}

/// Talk modes are asked for where that is allowed, in the name of this client: the
/// mode given, muting, and the last mode that did not mute.
pub proof fn modes_are_asked_for(
    api: LocalClientApi,
    mode: TalkMode,
    set: Result<ControlMessage, ApiError>,
    mute: Result<ControlMessage, ApiError>,
    unmute: Result<ControlMessage, ApiError>,
)
    requires
        call_ensures(LocalClientApi::set_talk_mode, (&api, mode), set),
        call_ensures(LocalClientApi::mute, (&api,), mute),
        call_ensures(LocalClientApi::unmute, (&api,), unmute),
    ensures
        ({
            let user_id = api.config.user_id;
            let allowed = api.config.lockout.allow_local_api && api.config.lockout.allow_talk_mode;
            &&& allowed <==> set is Ok
            &&& allowed <==> mute is Ok
            &&& allowed <==> unmute is Ok
            &&& allowed ==> asks(set, ControlMessage::TalkMode { user_id, mode })
            &&& allowed ==> asks(mute, ControlMessage::TalkMode { user_id, mode: TalkMode::Muted })
            &&& allowed ==> (unmute->Ok_0 matches ControlMessage::TalkMode { user_id: u, mode: m }
                && u == user_id && m != TalkMode::Muted && (
            api.config.last_non_muted_talk_mode != TalkMode::Muted ==> m
                == api.config.last_non_muted_talk_mode))
        }),
{
}

/// Talking is begun, ended and toggled as asked.
pub proof fn talking_is_asked_for(
    api: LocalClientApi,
    down: Result<ControlMessage, ApiError>,
    up: Result<ControlMessage, ApiError>,
    toggle: Result<ControlMessage, ApiError>,
)
    requires
        call_ensures(LocalClientApi::talk_down, (&api,), down),
        call_ensures(LocalClientApi::talk_up, (&api,), up),
        call_ensures(LocalClientApi::talk_toggle, (&api,), toggle),
    ensures
        ({
            let user_id = api.config.user_id;
            let allowed = api.config.lockout.allow_local_api;
            &&& !allowed ==> down is Err && up is Err && toggle is Err
            &&& allowed ==> asks(down, ControlMessage::Talk { user_id, active: true })
            &&& allowed ==> asks(up, ControlMessage::Talk { user_id, active: false })
            &&& allowed && api.config.regular_talk_active ==> toggle == up
            &&& allowed && !api.config.regular_talk_active ==> toggle == down
        }),
{
}

/// A codec is asked for where that is allowed.
pub proof fn codecs_are_asked_for(
    api: LocalClientApi,
    codec: Codec,
    r: Result<ControlMessage, ApiError>,
)
    requires
        call_ensures(LocalClientApi::set_codec, (&api, codec), r),
    ensures
        r is Ok <==> api.config.lockout.allow_local_api && api.config.lockout.allow_codec,
        r is Ok ==> asks(
            r,
            ControlMessage::AudioCodec { user_id: api.config.user_id, codec },
        ),
{
}

/// Buttons are pressed and released as asked, where that is allowed; toggling presses.
pub proof fn buttons_are_asked_for(
    api: LocalClientApi,
    id: &str,
    down: Result<ControlMessage, ApiError>,
    up: Result<ControlMessage, ApiError>,
    toggle: Result<ControlMessage, ApiError>,
)
    requires
        call_ensures(LocalClientApi::button_down, (&api, id), down),
        call_ensures(LocalClientApi::button_up, (&api, id), up),
        call_ensures(LocalClientApi::button_toggle, (&api, id), toggle),
    ensures
        ({
            let allowed = api.config.lockout.allow_local_api && api.config.lockout.allow_buttons;
            &&& allowed <==> down is Ok
            &&& allowed <==> up is Ok
            &&& allowed <==> toggle is Ok
            &&& allowed ==> (down->Ok_0 matches ControlMessage::Button { user_id, button_id, pressed }
                && user_id == api.config.user_id && button_id@ == id@ && pressed)
            &&& allowed ==> (up->Ok_0 matches ControlMessage::Button { user_id, button_id, pressed }
                && user_id == api.config.user_id && button_id@ == id@ && !pressed)
            &&& allowed ==> (toggle->Ok_0 matches ControlMessage::Button {
                user_id,
                button_id,
                pressed,
            } && user_id == api.config.user_id && button_id@ == id@ && pressed)
        }),
{
}

/// This client is in an active call of its own to the user.
pub open spec fn calling(config: ClientConfig, user: u16) -> bool {
    exists|i: int|
        0 <= i < config.active_direct_calls@.len() && (
        #[trigger] config.active_direct_calls@[i]).active && config.active_direct_calls@[i].caller
            == config.user_id && config.active_direct_calls@[i].target == user
}

proof fn lemma_calling(config: ClientConfig, user: u16)
    ensures
        crate::local_api::in_call(config, user) <==> calling(config, user),
{
    if crate::local_api::in_call(config, user) {
        let n = config.active_direct_calls@.len() as int;
        let i = choose|i: int|
            0 <= i < n && (#[trigger] config.active_direct_calls@[i]).caller == config.user_id
                && config.active_direct_calls@[i].active && config.active_direct_calls@[i].target
                == user;
        assert(config.active_direct_calls@[i].active);
    }
    if calling(config, user) {
        let i = choose|i: int|
            0 <= i < config.active_direct_calls@.len() && (
            #[trigger] config.active_direct_calls@[i]).active
                && config.active_direct_calls@[i].caller == config.user_id
                && config.active_direct_calls@[i].target == user;
        assert(config.active_direct_calls@[i].caller == config.user_id);
    }
}

/// A call is made, ended and toggled as asked: toggling ends a call that there is and
/// makes one that there is not.
pub proof fn calls_are_asked_for(
    api: LocalClientApi,
    target: u16,
    down: Result<ControlMessage, ApiError>,
    up: Result<ControlMessage, ApiError>,
    toggle: Result<ControlMessage, ApiError>,
)
    requires
        call_ensures(LocalClientApi::call_down, (&api, target), down),
        call_ensures(LocalClientApi::call_up, (&api, target), up),
        call_ensures(LocalClientApi::call_toggle, (&api, target), toggle),
    ensures
        ({
            let user_id = api.config.user_id;
            let allowed = api.config.lockout.allow_local_api;
            &&& !allowed ==> down is Err && up is Err && toggle is Err
            &&& allowed ==> asks(
                down,
                ControlMessage::DirectCall {
                    user_id,
                    target_user_id: target,
                    active: true,
                    duck: false,
                },
            )
            &&& allowed ==> asks(
                up,
                ControlMessage::DirectCall {
                    user_id,
                    target_user_id: target,
                    active: false,
                    duck: false,
                },
            )
            &&& allowed && calling(api.config, target) ==> toggle == up
            &&& allowed && !calling(api.config, target) ==> toggle == down
        }),
{
    lemma_calling(api.config, target);
}

/// A reply goes to whoever called last: toggling ends the call to them where there is
/// one, and is refused where nobody has called.
pub proof fn replies_are_asked_for(
    api: LocalClientApi,
    down: Result<ControlMessage, ApiError>,
    up: Result<ControlMessage, ApiError>,
    toggle: Result<ControlMessage, ApiError>,
)
    requires
        call_ensures(LocalClientApi::reply_down, (&api,), down),
        call_ensures(LocalClientApi::reply_up, (&api,), up),
        call_ensures(LocalClientApi::reply_toggle, (&api,), toggle),
    ensures
        ({
            let user_id = api.config.user_id;
            let allowed = api.config.lockout.allow_local_api;
            let caller = api.config.last_direct_caller;
            &&& !allowed ==> down is Err && up is Err && toggle is Err
            &&& allowed ==> asks(
                down,
                ControlMessage::ReplyCall { user_id, active: true, duck: false },
            )
            &&& allowed ==> asks(
                up,
                ControlMessage::ReplyCall { user_id, active: false, duck: false },
            )
            &&& caller is None ==> toggle is Err
            &&& allowed && caller is None ==> (toggle->Err_0 matches ApiError::BadRequest(m) && m@
                == "no last direct caller to reply to"@)
            &&& allowed && caller is Some && calling(api.config, caller->Some_0) ==> toggle == up
            &&& allowed && caller is Some && !calling(api.config, caller->Some_0) ==> toggle == down
        }),
{
    if api.config.last_direct_caller is Some {
        lemma_calling(api.config, api.config.last_direct_caller->Some_0);
    }
}

/// Alerts are sent, acknowledged and cancelled as asked.
pub proof fn alerts_are_asked_for(
    api: LocalClientApi,
    request: AlertRequest,
    id: u64,
    send: Result<ControlMessage, ApiError>,
    ack: Result<ControlMessage, ApiError>,
    cancel: Result<ControlMessage, ApiError>,
)
    requires
        call_ensures(LocalClientApi::send_alert, (&api, request), send),
        call_ensures(LocalClientApi::ack_alert, (&api, id), ack),
        call_ensures(LocalClientApi::cancel_alert, (&api, id), cancel),
    ensures
        ({
            let user_id = api.config.user_id;
            let allowed = api.config.lockout.allow_local_api;
            &&& !allowed ==> send is Err && ack is Err && cancel is Err
            &&& allowed ==> asks(
                send,
                ControlMessage::SendAlert {
                    user_id,
                    target: request.target,
                    message: request.message,
                },
            )
            &&& allowed ==> asks(ack, ControlMessage::AckAlert { user_id, alert_id: id })
            &&& allowed ==> asks(cancel, ControlMessage::CancelAlert { user_id, alert_id: id })
        }),
{
}

/// Refused requests are told as such: with status 400, and with what is locked.
pub proof fn refusals_name_what_is_locked(
    api: LocalClientApi,
    codec: Codec,
    r: Result<ControlMessage, ApiError>,
    status: u16,
    message: &str,
)
    requires
        call_ensures(LocalClientApi::set_codec, (&api, codec), r),
        r is Err,
        call_ensures(ApiError::status, (&r->Err_0,), status),
        call_ensures(ApiError::message, (&r->Err_0,), message),
    ensures
        status == 400,
        !api.config.lockout.allow_local_api ==> message@ == "local API controls"@
            + " locked by admin"@,
        api.config.lockout.allow_local_api ==> message@ == "codec"@ + " locked by admin"@,
{
}

// ---------------------------------------------------------------------------
// Full configurations
// ---------------------------------------------------------------------------

/// A full configuration is refused exactly where it changes something that is locked.
pub proof fn locked_settings_cannot_be_changed(
    config: ClientConfig,
    request: FullConfigRequest,
    r: Result<(), ApiError>,
)
    requires
        call_ensures(validate_full_config_allowed, (&config, &request), r),
    ensures
        r is Err <==> {
            let l = config.lockout;
            ||| !l.allow_channels && request.listen@.to_multiset() != config.listen@.to_multiset()
            ||| !l.allow_channels && request.tx@.to_multiset() != config.tx@.to_multiset()
            ||| !l.allow_volumes && !request.vol.equals(config.vol)
            ||| !l.allow_volumes && !request.talker_vol.equals(config.talker_vol)
            ||| !l.allow_codec && request.codec != config.codec
            ||| !l.allow_talk_mode && request.talk_mode != config.talk_mode
            ||| !l.allow_priority && request.priority != config.priority
            ||| !l.allow_priority && request.priority_channels@.to_multiset()
                != config.priority_channels@.to_multiset()
            ||| !l.allow_ifb && !request.ifb.equals(config.ifb)
        },
{
}

/// A full configuration that is allowed is asked for as it was requested, and the
/// priority with it.
pub proof fn full_configurations_are_asked_for(
    api: LocalClientApi,
    request: FullConfigRequest,
    r: Result<Vec<ControlMessage>, ApiError>,
    allowed: Result<(), ApiError>,
)
    requires
        call_ensures(LocalClientApi::apply_config, (&api, &request), r),
        call_ensures(validate_full_config_allowed, (&api.config, &request), allowed),
    ensures
        r is Ok <==> api.config.lockout.allow_local_api && allowed is Ok,
        r is Ok ==> r->Ok_0@.len() == 2 && (r->Ok_0@[0] matches ControlMessage::Config(m)
            && m.user_id == api.config.user_id && m.listen@ == request.listen@ && m.tx@
            == request.tx@ && m.vol@ == request.vol@ && m.codec == Some(request.codec)
            && m.opus_profile == Some(request.opus_profile) && m.talk_mode == Some(
            request.talk_mode,
        ) && m.priority == Some(request.priority) && (m.talker_vol is Some
            && m.talker_vol->Some_0@ == request.talker_vol@) && (m.priority_channels is Some
            && m.priority_channels->Some_0@ == request.priority_channels@) && (m.ifb is Some
            && m.ifb->Some_0.enabled == request.ifb.enabled && m.ifb->Some_0.program@
            == request.ifb.program@ && m.ifb->Some_0.interrupt@ == request.ifb.interrupt@
            && m.ifb->Some_0.duck_gain == request.ifb.duck_gain)) && r->Ok_0@[1] == (
        ControlMessage::Priority { user_id: api.config.user_id, active: request.priority }),
{
}

/// Two lists of channels are the same where each channel is as often in both.
pub proof fn channel_lists_differ_by_their_channels(left: Vec<u16>, right: Vec<u16>, r: bool, c: u16)
    requires
        call_ensures(same_channels, (&left, &right), r),
    ensures
        r ==> left@.to_multiset().count(c) == right@.to_multiset().count(c),
        left@ == right@ ==> r,
        r ==> left@.len() == right@.len(),
{
    left@.to_multiset_ensures();
    right@.to_multiset_ensures();
}

// ---------------------------------------------------------------------------
// Gains and the state
// ---------------------------------------------------------------------------

/// A gain that is given is taken over where it lies between nothing and eight times,
/// and one that is not given stays. Nothing else changes.
pub proof fn gains_are_taken_over(
    api: &mut LocalClientApi,
    request: GainRequest,
    r: Result<OkResponse, ApiError>,
)
    requires
        call_ensures(LocalClientApi::set_gain, (api, request), r),
    ensures
        r is Ok <==> old(api).config.lockout.allow_local_api,
        r is Err ==> *final(api) == *old(api),
        r is Ok && request.mic_gain is None ==> final(api).audio_settings.mic() == old(
            api,
        ).audio_settings.mic(),
        r is Ok && request.speaker_gain is None ==> final(api).audio_settings.speaker() == old(
            api,
        ).audio_settings.speaker(),
        r is Ok && request.mic_gain is Some && request.mic_gain->Some_0.bits <= 0x4100_0000
            ==> final(api).audio_settings.mic() == request.mic_gain->Some_0,
        r is Ok && request.speaker_gain is Some && request.speaker_gain->Some_0.bits <= 0x4100_0000
            ==> final(api).audio_settings.speaker() == request.speaker_gain->Some_0,
        r is Ok && request.mic_gain is Some ==> final(api).audio_settings.mic().bits <= 0x4100_0000
            || final(api).audio_settings.mic().magnitude() == 0,
        final(api).config == old(api).config,
        final(api).input_backend == old(api).input_backend,
        final(api).telemetry == old(api).telemetry,
        final(api).connection == old(api).connection,
{
}

/// The state shows the configuration, the gains, the backend, the playback and the
/// connection as they are.
pub proof fn the_state_is_shown(
    api: LocalClientApi,
    mode: Option<MacosMicrophoneModeStatus>,
    playback: PlaybackStats,
    r: StateResponse,
)
    requires
        call_ensures(LocalClientApi::state, (api, mode, playback), r),
    ensures
        r.user_id == api.config.user_id && r.client_uid == api.config.client_uid && r.name
            == api.config.name,
        r.listen == api.config.listen && r.tx == api.config.tx,
        r.vol == api.config.vol && r.talker_vol == api.config.talker_vol,
        r.codec == api.config.codec && r.opus_profile == api.config.opus_profile,
        r.talk_mode == api.config.talk_mode && r.regular_talk_active
            == api.config.regular_talk_active,
        r.priority == api.config.priority && r.priority_channels == api.config.priority_channels,
        r.processing == api.config.processing && r.channel_rosters == api.config.channel_rosters,
        r.emergency == api.config.emergency,
        r.buttons == api.config.buttons && r.active_buttons == api.config.active_buttons
            && r.advertised_buttons == api.config.advertised_buttons,
        r.active_direct_calls == api.config.active_direct_calls && r.last_direct_caller
            == api.config.last_direct_caller && r.direct_call_history
            == api.config.direct_call_history,
        r.active_alerts == api.config.active_alerts && r.recent_alerts == api.config.recent_alerts,
        r.ifb == api.config.ifb && r.lockout == api.config.lockout && r.stereo
            == api.config.stereo,
        r.mic_gain == api.audio_settings.mic() && r.speaker_gain == api.audio_settings.speaker(),
        r.requested_input_backend == api.input_backend.requested && r.active_input_backend
            == api.input_backend.active && r.input_backend_note == api.input_backend.note,
        r.macos_microphone_mode == mode,
        r.playback == playback,
        r.telemetry == api.telemetry,
        r.server_connection == api.connection,
{
}

// ---------------------------------------------------------------------------
// Held buttons, calls and alerts
// ---------------------------------------------------------------------------

/// The texts but one, in their order.
pub open spec fn all_but(s: Seq<Seq<char>>, id: Seq<char>) -> Seq<Seq<char>> {
    s.filter(|x: Seq<char>| x != id)
}

proof fn lemma_without_text(s: Seq<Seq<char>>, id: Seq<char>)
    ensures
        without_text(s, id) == all_but(s, id),
    decreases s.len(),
{
    reveal(Seq::filter);
    if s.len() > 0 {
        lemma_without_text(s.drop_last(), id);
    }
}

/// A button that is held is among those held, behind the others where it was not; one
/// that is released is not. The others stay in their order.
pub proof fn held_buttons_come_and_go(buttons: &mut Vec<String>, id: &str, active: bool)
    requires
        call_ensures(set_active_button, (buttons, id, active), ()),
    ensures
        !active ==> texts(final(buttons)@) == all_but(texts(old(buttons)@), id@),
        active && texts(old(buttons)@).contains(id@) ==> texts(final(buttons)@) == texts(
            old(buttons)@,
        ),
        active && !texts(old(buttons)@).contains(id@) ==> texts(final(buttons)@) == texts(
            old(buttons)@,
        ).push(id@),
        texts(final(buttons)@).contains(id@) <==> active,
{
    lemma_without_text(texts(old(buttons)@), id@);
    crate::local_api::held_buttons_are_as_set(texts(old(buttons)@), id@, active, id@);
}

/// The calls but those of a caller to a user, in their order.
pub open spec fn calls_but(s: Seq<DirectCallStatus>, caller: u16, target: u16) -> Seq<
    DirectCallStatus,
> {
    s.filter(|c: DirectCallStatus| c.caller != caller || c.target != target)
}

proof fn lemma_other_calls(s: Seq<DirectCallStatus>, caller: u16, target: u16)
    ensures
        other_calls(s, caller, target) == calls_but(s, caller, target),
    decreases s.len(),
{
    reveal(Seq::filter);
    if s.len() > 0 {
        lemma_other_calls(s.drop_last(), caller, target);
    }
}

proof fn lemma_call_index(s: Seq<DirectCallStatus>, caller: u16, target: u16, i: int)
    requires
        0 <= i <= s.len(),
    ensures
        i <= call_index(s, caller, target, i) <= s.len(),
        call_index(s, caller, target, i) < s.len() ==> s[call_index(s, caller, target, i)].caller
            == caller && s[call_index(s, caller, target, i)].target == target,
        forall|j: int|
            i <= j < call_index(s, caller, target, i) ==> (#[trigger] s[j]).caller != caller
                || s[j].target != target,
    decreases s.len() - i,
{
    if i < s.len() && !(s[i].caller == caller && s[i].target == target) {
        lemma_call_index(s, caller, target, i + 1);
    }
}

/// A call of this client that is made is active, with the ducking asked for; one that
/// is ended is gone. Calls of others, and to others, stay, and so does everything else.
pub proof fn calls_come_and_go(
    config: &mut ClientConfig,
    target: u16,
    active: bool,
    duck: bool,
)
    requires
        call_ensures(set_active_direct_call, (config, target, active, duck), ()),
    ensures
        !active ==> final(config).active_direct_calls@ == calls_but(
            old(config).active_direct_calls@,
            old(config).user_id,
            target,
        ),
        active ==> exists|i: int|
            0 <= i < final(config).active_direct_calls@.len() && {
                let c = #[trigger] final(config).active_direct_calls@[i];
                c.caller == old(config).user_id && c.target == target && c.active && c.duck == duck
            } && (forall|j: int|
                0 <= j < old(config).active_direct_calls@.len() && j != i
                    ==> #[trigger] final(config).active_direct_calls@[j] == old(
                    config,
                ).active_direct_calls@[j]) && (final(config).active_direct_calls@.len() == old(
                config,
            ).active_direct_calls@.len() || i == old(config).active_direct_calls@.len()),
        *final(config) == (ClientConfig {
            active_direct_calls: final(config).active_direct_calls,
            ..*old(config)
        }),
{
    let s = old(config).active_direct_calls@;
    let t = final(config).active_direct_calls@;
    lemma_other_calls(s, old(config).user_id, target);
    lemma_call_index(s, old(config).user_id, target, 0);
    let i = call_index(s, old(config).user_id, target, 0);
    if active {
        assert(t[i].active);
        assert(forall|j: int| 0 <= j < s.len() && j != i ==> #[trigger] t[j] == s[j]);
    }
}

/// Pressing and releasing a button that is held while pressed, or that toggles.
pub proof fn queued_buttons_are_held(
    api: &mut LocalClientApi,
    id: &str,
    pressed: bool,
    r: Result<ControlMessage, ApiError>,
    k: int,
)
    requires
        call_ensures(LocalClientApi::queue_button, (api, id, pressed), r),
        0 <= k < old(api).config.buttons@.len(),
        old(api).config.buttons@[k].id@ == id@,
        forall|j: int| 0 <= j < k ==> (#[trigger] old(api).config.buttons@[j]).id@ != id@,
    ensures
        r is Ok <==> old(api).config.lockout.allow_local_api && old(
            api,
        ).config.lockout.allow_buttons,
        r is Err ==> *final(api) == *old(api),
        r is Ok ==> (r->Ok_0 matches ControlMessage::Button { user_id, button_id, pressed: p }
            && user_id == old(api).config.user_id && button_id@ == id@ && p == pressed),
        r is Ok ==> ({
            let before = texts(old(api).config.active_buttons@).contains(id@);
            let after = texts(final(api).config.active_buttons@).contains(id@);
            match old(api).config.buttons@[k].mode {
                TalkButtonMode::Momentary => after == pressed,
                TalkButtonMode::Latching => if pressed {
                    after == !before
                } else {
                    after == before
                },
            }
        }),
        *final(api) == (LocalClientApi {
            config: ClientConfig {
                active_buttons: final(api).config.active_buttons,
                ..old(api).config
            },
            ..*old(api)
        }),
{
    lemma_config_button(old(api).config.buttons@, id@, 0, k);
    let c = old(api).config;
    let held = crate::local_api::held_after(
        c.buttons@[k].mode,
        texts(c.active_buttons@).contains(id@),
        pressed,
    );
    crate::local_api::held_buttons_are_as_set(texts(c.active_buttons@), id@, held, id@);
}

proof fn lemma_config_button(s: Seq<TalkButtonConfig>, id: Seq<char>, i: int, k: int)
    requires
        0 <= i <= k < s.len(),
        s[k].id@ == id,
        forall|j: int| i <= j < k ==> (#[trigger] s[j]).id@ != id,
    ensures
        config_button(s, id, i) == k,
    decreases k - i,
{
    if i < k {
        lemma_config_button(s, id, i + 1, k);
    }
}

proof fn lemma_no_button(s: Seq<TalkButtonConfig>, id: Seq<char>, i: int)
    requires
        0 <= i <= s.len(),
        forall|j: int| i <= j < s.len() ==> (#[trigger] s[j]).id@ != id,
    ensures
        config_button(s, id, i) == s.len(),
    decreases s.len() - i,
{
    if i < s.len() {
        lemma_no_button(s, id, i + 1);
    }
}

/// A button that is not configured is refused.
pub proof fn unknown_buttons_are_refused(
    api: &mut LocalClientApi,
    id: &str,
    pressed: bool,
    r: Result<ControlMessage, ApiError>,
)
    requires
        call_ensures(LocalClientApi::queue_button, (api, id, pressed), r),
        forall|j: int|
            0 <= j < old(api).config.buttons@.len() ==> (#[trigger] old(api).config.buttons@[j]).id@
                != id@,
    ensures
        r is Err,
        old(api).config.lockout.allow_local_api && old(api).config.lockout.allow_buttons ==> (
        r->Err_0 matches ApiError::BadRequest(m) && m@ == "unknown button `"@ + id@ + "`"@),
        *final(api) == *old(api),
{
    lemma_no_button(old(api).config.buttons@, id@, 0);
}

/// Where the server cannot be waited for, what is asked for is taken as done at once:
/// the configuration shows the mode, the talking or the codec asked for, and nothing
/// else of it changes.
pub proof fn queued_settings_show_at_once(
    a: &mut LocalClientApi,
    mode: TalkMode,
    set: Result<ControlMessage, ApiError>,
    b: &mut LocalClientApi,
    active: bool,
    talk: Result<ControlMessage, ApiError>,
    c: &mut LocalClientApi,
    codec: Codec,
    coded: Result<ControlMessage, ApiError>,
    d: &mut LocalClientApi,
    toggled: Result<ControlMessage, ApiError>,
)
    requires
        call_ensures(LocalClientApi::queue_set_talk_mode, (a, mode), set),
        call_ensures(LocalClientApi::queue_talk, (b, active), talk),
        call_ensures(LocalClientApi::queue_set_codec, (c, codec), coded),
        call_ensures(LocalClientApi::queue_talk_toggle, (d,), toggled),
    ensures
        set is Ok <==> old(a).config.lockout.allow_local_api && old(
            a,
        ).config.lockout.allow_talk_mode,
        set is Err ==> *final(a) == *old(a),
        set is Ok ==> asks(
            set,
            ControlMessage::TalkMode { user_id: old(a).config.user_id, mode },
        ) && final(a).config.talk_mode == mode && (mode == TalkMode::Muted
            ==> !final(a).config.regular_talk_active && final(a).config.last_non_muted_talk_mode
            == old(a).config.last_non_muted_talk_mode) && (mode != TalkMode::Muted
            ==> final(a).config.regular_talk_active == old(a).config.regular_talk_active
            && final(a).config.last_non_muted_talk_mode == mode),
        final(a).config.tx == old(a).config.tx && final(a).config.listen == old(a).config.listen
            && final(a).config.codec == old(a).config.codec,
        talk is Ok <==> old(b).config.lockout.allow_local_api,
        talk is Err ==> *final(b) == *old(b),
        talk is Ok ==> asks(
            talk,
            ControlMessage::Talk { user_id: old(b).config.user_id, active },
        ) && *final(b) == (LocalClientApi {
            config: ClientConfig { regular_talk_active: active, ..old(b).config },
            ..*old(b)
        }),
        coded is Ok <==> old(c).config.lockout.allow_local_api && old(c).config.lockout.allow_codec,
        coded is Err ==> *final(c) == *old(c),
        coded is Ok ==> asks(
            coded,
            ControlMessage::AudioCodec { user_id: old(c).config.user_id, codec },
        ) && *final(c) == (LocalClientApi {
            config: ClientConfig { codec, ..old(c).config },
            ..*old(c)
        }),
        toggled is Ok <==> old(d).config.lockout.allow_local_api,
        toggled is Err ==> *final(d) == *old(d),
        toggled is Ok ==> asks(
            toggled,
            ControlMessage::Talk {
                user_id: old(d).config.user_id,
                active: final(d).config.regular_talk_active,
            },
        ) && final(d).config.regular_talk_active != old(d).config.regular_talk_active,
{
}

/// Muting and unmuting show at once too; unmuting goes back to the last mode that did
/// not mute.
pub proof fn queued_muting_shows_at_once(
    a: &mut LocalClientApi,
    mute: Result<ControlMessage, ApiError>,
    b: &mut LocalClientApi,
    unmute: Result<ControlMessage, ApiError>,
)
    requires
        call_ensures(LocalClientApi::queue_mute, (a,), mute),
        call_ensures(LocalClientApi::queue_unmute, (b,), unmute),
    ensures
        mute is Ok <==> old(a).config.lockout.allow_local_api && old(
            a,
        ).config.lockout.allow_talk_mode,
        mute is Err ==> *final(a) == *old(a),
        mute is Ok ==> final(a).config.talk_mode == TalkMode::Muted
            && !final(a).config.regular_talk_active && final(a).config.last_non_muted_talk_mode
            == old(a).config.last_non_muted_talk_mode && asks(
            mute,
            ControlMessage::TalkMode { user_id: old(a).config.user_id, mode: TalkMode::Muted },
        ),
        unmute is Ok <==> old(b).config.lockout.allow_local_api && old(
            b,
        ).config.lockout.allow_talk_mode,
        unmute is Err ==> *final(b) == *old(b),
        unmute is Ok ==> final(b).config.talk_mode != TalkMode::Muted && (old(
            b,
        ).config.last_non_muted_talk_mode != TalkMode::Muted ==> final(b).config.talk_mode == old(
            b,
        ).config.last_non_muted_talk_mode) && asks(
            unmute,
            ControlMessage::TalkMode {
                user_id: old(b).config.user_id,
                mode: final(b).config.talk_mode,
            },
        ) && final(b).config.regular_talk_active == old(b).config.regular_talk_active,
        final(a).config.tx == old(a).config.tx && final(b).config.tx == old(b).config.tx,
{
}

/// A call that is queued is made or ended at once: it is asked for and shows among the
/// calls as `set_active_direct_call` leaves them.
pub proof fn queued_calls_show_at_once(
    a: &mut LocalClientApi,
    target: u16,
    active: bool,
    duck: bool,
    call: Result<ControlMessage, ApiError>,
    b: &mut LocalClientApi,
    toggle: Result<ControlMessage, ApiError>,
)
    requires
        call_ensures(LocalClientApi::queue_direct_call, (a, target, active, duck), call),
        call_ensures(LocalClientApi::queue_direct_call_toggle, (b, target), toggle),
    ensures
        call is Ok <==> old(a).config.lockout.allow_local_api,
        call is Err ==> *final(a) == *old(a),
        call is Ok ==> asks(
            call,
            ControlMessage::DirectCall {
                user_id: old(a).config.user_id,
                target_user_id: target,
                active,
                duck,
            },
        ) && calling(final(a).config, target) == active,
        toggle is Ok <==> old(b).config.lockout.allow_local_api,
        toggle is Err ==> *final(b) == *old(b),
        toggle is Ok ==> asks(
            toggle,
            ControlMessage::DirectCall {
                user_id: old(b).config.user_id,
                target_user_id: target,
                active: calling(final(b).config, target),
                duck: false,
            },
        ) && calling(final(b).config, target) != calling(old(b).config, target),
{
    if call is Ok {
        lemma_calls_after(old(a).config, final(a).config, target, active, duck);
    }
    if toggle is Ok {
        lemma_calling(old(b).config, target);
        lemma_calls_after(
            old(b).config,
            final(b).config,
            target,
            !calling(old(b).config, target),
            false,
        );
    }
}

proof fn lemma_calls_after(
    before: ClientConfig,
    after: ClientConfig,
    target: u16,
    active: bool,
    duck: bool,
)
    requires
        after.user_id == before.user_id,
        after.active_direct_calls@ == crate::local_api::calls_after(
            before.active_direct_calls@,
            before.user_id,
            target,
            active,
            duck,
        ),
    ensures
        calling(after, target) == active,
{
    let s = before.active_direct_calls@;
    let t = after.active_direct_calls@;
    lemma_call_index(s, before.user_id, target, 0);
    let i = call_index(s, before.user_id, target, 0);
    if active {
        assert(t[i].active && t[i].caller == before.user_id && t[i].target == target);
    } else if calling(after, target) {
        let j = choose|j: int|
            0 <= j < t.len() && (#[trigger] t[j]).active && t[j].caller == after.user_id
                && t[j].target == target;
        lemma_other_calls(s, before.user_id, target);
        let p = |c: DirectCallStatus| c.caller != before.user_id || c.target != target;
        broadcast use vstd::seq_lib::group_filter_ensures;

        assert(p(t[j]));
    }
}

/// A reply that is queued makes or ends the call to whoever called last, and is
/// refused where nobody has.
pub proof fn queued_replies_show_at_once(
    a: &mut LocalClientApi,
    active: bool,
    duck: bool,
    reply: Result<ControlMessage, ApiError>,
    b: &mut LocalClientApi,
    toggle: Result<ControlMessage, ApiError>,
)
    requires
        call_ensures(LocalClientApi::queue_reply_call, (a, active, duck), reply),
        call_ensures(LocalClientApi::queue_reply_toggle, (b,), toggle),
    ensures
        reply is Ok <==> old(a).config.lockout.allow_local_api && old(a).config.last_direct_caller
            is Some,
        reply is Err ==> *final(a) == *old(a),
        reply is Ok ==> asks(
            reply,
            ControlMessage::ReplyCall { user_id: old(a).config.user_id, active, duck },
        ) && calling(final(a).config, old(a).config.last_direct_caller->Some_0) == active,
        toggle is Ok <==> old(b).config.lockout.allow_local_api && old(b).config.last_direct_caller
            is Some,
        toggle is Err ==> *final(b) == *old(b),
        toggle is Ok ==> ({
            let caller = old(b).config.last_direct_caller->Some_0;
            asks(
                toggle,
                ControlMessage::ReplyCall {
                    user_id: old(b).config.user_id,
                    active: calling(final(b).config, caller),
                    duck: false,
                },
            ) && calling(final(b).config, caller) != calling(old(b).config, caller)
        }),
{
    if reply is Ok {
        lemma_calls_after(
            old(a).config,
            final(a).config,
            old(a).config.last_direct_caller->Some_0,
            active,
            duck,
        );
    }
    if toggle is Ok {
        let caller = old(b).config.last_direct_caller->Some_0;
        lemma_calling(old(b).config, caller);
        lemma_calls_after(
            old(b).config,
            final(b).config,
            caller,
            !calling(old(b).config, caller),
            false,
        );
    }
}

proof fn lemma_other_alerts(s: Seq<crate::protocol::AlertStatus>, id: u64)
    ensures
        other_alerts(s, id) == s.filter(|a: crate::protocol::AlertStatus| a.id != id),
    decreases s.len(),
{
    reveal(Seq::filter);
    if s.len() > 0 {
        lemma_other_alerts(s.drop_last(), id);
    }
}

/// An alert that is acknowledged or cancelled is no longer active; the others stay.
/// Sending one changes nothing yet.
pub proof fn queued_alerts_are_gone(
    a: &mut LocalClientApi,
    id: u64,
    ack: Result<ControlMessage, ApiError>,
    b: &mut LocalClientApi,
    cancel: Result<ControlMessage, ApiError>,
    c: &mut LocalClientApi,
    request: AlertRequest,
    send: Result<ControlMessage, ApiError>,
)
    requires
        call_ensures(LocalClientApi::queue_ack_alert, (a, id), ack),
        call_ensures(LocalClientApi::queue_cancel_alert, (b, id), cancel),
        call_ensures(LocalClientApi::queue_send_alert, (c, request), send),
    ensures
        ack is Ok <==> old(a).config.lockout.allow_local_api,
        ack is Err ==> *final(a) == *old(a),
        ack is Ok ==> asks(
            ack,
            ControlMessage::AckAlert { user_id: old(a).config.user_id, alert_id: id },
        ) && final(a).config.active_alerts@ == old(a).config.active_alerts@.filter(
            |x: crate::protocol::AlertStatus| x.id != id,
        ),
        cancel is Ok <==> old(b).config.lockout.allow_local_api,
        cancel is Err ==> *final(b) == *old(b),
        cancel is Ok ==> asks(
            cancel,
            ControlMessage::CancelAlert { user_id: old(b).config.user_id, alert_id: id },
        ) && final(b).config.active_alerts@ == old(b).config.active_alerts@.filter(
            |x: crate::protocol::AlertStatus| x.id != id,
        ),
        *final(c) == *old(c),
        send is Ok <==> old(c).config.lockout.allow_local_api,
        send is Ok ==> asks(
            send,
            ControlMessage::SendAlert {
                user_id: old(c).config.user_id,
                target: request.target,
                message: request.message,
            },
        ),
{
    lemma_other_alerts(old(a).config.active_alerts@, id);
    lemma_other_alerts(old(b).config.active_alerts@, id);
}

// ---------------------------------------------------------------------------
// Answers
// ---------------------------------------------------------------------------

/// A command that was queued is answered well; one that could not be is answered with
/// status 503.
pub proof fn queued_commands_are_answered(
    outcome: QueueOutcome,
    r: Result<OkResponse, ApiError>,
    status: u16,
)
    requires
        call_ensures(queue_answer, (outcome,), r),
        r is Err ==> call_ensures(ApiError::status, (&r->Err_0,), status),
    ensures
        r is Ok <==> outcome is Queued,
        r is Ok ==> r->Ok_0.ok,
        r is Err ==> status == 503,
{
}

/// A command that was forwarded is answered as the server answered it; where the server
/// refused it, with its words and status 400, and where it did not answer, with 503.
pub proof fn forwarded_commands_are_answered(
    outcome: ForwardOutcome,
    unexpected: &str,
    r: Result<OkResponse, ApiError>,
    status: u16,
    message: &str,
)
    requires
        call_ensures(forward_answer, (outcome, unexpected), r),
        r is Err ==> call_ensures(ApiError::status, (&r->Err_0,), status),
        r is Err ==> call_ensures(ApiError::message, (&r->Err_0,), message),
    ensures
        r is Ok <==> outcome == ForwardOutcome::Answered(ControlResponse::Ack),
        r is Ok ==> r->Ok_0.ok,
        outcome is NotQueued || outcome is Unanswered ==> status == 503,
        outcome matches ForwardOutcome::Answered(ControlResponse::Error { message: m })
            ==> status == 400 && message@ == m@,
        outcome matches ForwardOutcome::Answered(ControlResponse::Hello { .. }) ==> status == 400,
{
}

/// What the administrator does not allow is refused, and what is allowed is not.
pub proof fn locked_controls_are_refused(
    allowed: bool,
    label: &str,
    r: Result<(), ApiError>,
    config: ClientConfig,
    s: Result<(), ApiError>,
)
    requires
        call_ensures(crate::local_api::ensure_policy_allowed, (allowed, label), r),
        call_ensures(crate::local_api::ensure_local_api_allowed, (&config,), s),
    ensures
        r is Ok <==> allowed,
        r is Err ==> (r->Err_0 matches ApiError::BadRequest(m) && m@ == label@
            + " locked by admin"@),
        s is Ok <==> config.lockout.allow_local_api,
        s is Err ==> (s->Err_0 matches ApiError::BadRequest(m) && m@ == "local API controls"@
            + " locked by admin"@),
{
}

} // verus!
