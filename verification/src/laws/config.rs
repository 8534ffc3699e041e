//! Whom a client transmits to, and what the server's events do to it.

use vstd::prelude::*;

use crate::config::{apply_control_event, ClientConfig};
use crate::protocol::{
    AudioTarget, ChannelPresenceRoster, Codec, ConfigUpdate, ControlEvent, ControlMessage,
    TalkButtonAction, TalkMode,
};
use crate::laws::text::lemma_blank;
use crate::text::is_space;

verus! {

// ---------------------------------------------------------------------------
// Targets
// ---------------------------------------------------------------------------

/// A client that is the caller of an active direct call transmits to whom it calls.
pub proof fn own_calls_are_transmitted_to(
    config: ClientConfig,
    targets: Vec<AudioTarget>,
    i: int,
)
    requires
        call_ensures(ClientConfig::active_tx_targets, (&config,), targets),
        0 <= i < config.active_direct_calls@.len(),
        config.active_direct_calls@[i].active,
        config.active_direct_calls@[i].caller == config.user_id,
    ensures
        targets@.contains(AudioTarget::Direct(config.active_direct_calls@[i].target)),
{
    let u = config.active_direct_calls@[i].target;
    assert(config.calls_user(config.active_direct_calls@.len() as int, u));
}

/// A held button transmits on every channel, and to every user, that one of its
/// actions names.
pub proof fn held_buttons_are_transmitted_by(
    config: ClientConfig,
    targets: Vec<AudioTarget>,
    held: int,
    button: int,
    action: int,
    k: int,
)
    requires
        call_ensures(ClientConfig::active_tx_targets, (&config,), targets),
        0 <= held < config.active_buttons@.len(),
        0 <= button < config.buttons@.len(),
        config.active_buttons@[held]@ == config.buttons@[button].id@,
        0 <= action < config.buttons@[button].actions@.len(),
    ensures
        match config.buttons@[button].actions@[action] {
            TalkButtonAction::Transmit { channels, users, .. } => {
                &&& 0 <= k < channels@.len() ==> targets@.contains(
                    AudioTarget::Channel(channels@[k]),
                )
                &&& 0 <= k < users@.len() ==> targets@.contains(AudioTarget::Direct(users@[k]))
            },
            _ => true,
        },
{
    let b = config.buttons@[button];
    assert(crate::text::texts(config.active_buttons@)[held] == b.id@);
    assert(config.holds(b));
    let a = b.actions@[action];
    match a {
        TalkButtonAction::Transmit { channels, users, .. } => {
            if 0 <= k < channels@.len() {
                assert(crate::config::action_channels(a).contains(channels@[k]));
                assert(crate::config::actions_reach_channel(
                    b.actions@,
                    b.actions@.len() as int,
                    channels@[k],
                ));
                assert(config.buttons_reach_channel(config.buttons@.len() as int, channels@[k]));
                assert(config.sends_to(AudioTarget::Channel(channels@[k])));
            }
            if 0 <= k < users@.len() {
                assert(crate::config::action_users(a).contains(users@[k]));
                assert(crate::config::actions_reach_user(
                    b.actions@,
                    b.actions@.len() as int,
                    users@[k],
                ));
                assert(config.buttons_reach_user(config.buttons@.len() as int, users@[k]));
                assert(config.sends_to(AudioTarget::Direct(users@[k])));
            }
        },
        _ => {},
    }
}

/// A microphone that is open, or that is talked into, transmits on every channel
/// that the client is set to transmit on.
pub proof fn live_microphones_are_transmitted(
    config: ClientConfig,
    targets: Vec<AudioTarget>,
    k: int,
)
    requires
        call_ensures(ClientConfig::active_tx_targets, (&config,), targets),
        0 <= k < config.tx@.len(),
        config.talk_mode == TalkMode::Open || (config.talk_mode == TalkMode::Ptt
            && config.regular_talk_active),
    ensures
        targets@.contains(AudioTarget::Channel(config.tx@[k])),
{
    assert(config.tx@.contains(config.tx@[k]));
    assert(config.sends_to(AudioTarget::Channel(config.tx@[k])));
}

/// The mix is transmitted to exactly by the source of a running emergency
/// announcement.
pub proof fn announcements_go_to_everyone(config: ClientConfig, targets: Vec<AudioTarget>)
    requires
        call_ensures(ClientConfig::active_tx_targets, (&config,), targets),
    ensures
        targets@.contains(AudioTarget::Mixed) <==> (config.emergency is Some
            && config.emergency->Some_0.active && config.emergency->Some_0.source
            == config.user_id),
{
    assert(targets@.contains(AudioTarget::Mixed) <==> config.sends_to(AudioTarget::Mixed));
}

/// Some held button has an action that transmits on the channel.
pub open spec fn by_held_button(config: ClientConfig, target: AudioTarget) -> bool {
    exists|held: int, button: int, action: int|
        0 <= held < config.active_buttons@.len() && 0 <= button < config.buttons@.len() && 0
            <= action < config.buttons@[button].actions@.len() && (
        #[trigger] config.active_buttons@[held])@ == config.buttons@[button].id@ && match (
        #[trigger] config.buttons@[button].actions@[action]) {
            TalkButtonAction::Transmit { channels, users, .. } => match target {
                AudioTarget::Channel(c) => channels@.contains(c),
                AudioTarget::Direct(u) => users@.contains(u),
                AudioTarget::Mixed => false,
            },
            _ => false,
        }
}

/// A client transmits on a channel only by a live microphone or a held button, and
/// to a user only by a call of its own or a held button.
pub proof fn nothing_else_is_transmitted_to(
    config: ClientConfig,
    targets: Vec<AudioTarget>,
    target: AudioTarget,
)
    requires
        call_ensures(ClientConfig::active_tx_targets, (&config,), targets),
        targets@.contains(target),
    ensures
        match target {
            AudioTarget::Channel(c) => by_held_button(config, target) || (config.tx@.contains(c)
                && (config.talk_mode == TalkMode::Open || (config.talk_mode == TalkMode::Ptt
                && config.regular_talk_active))),
            AudioTarget::Direct(u) => by_held_button(config, target) || (exists|i: int|
                0 <= i < config.active_direct_calls@.len() && (
                #[trigger] config.active_direct_calls@[i]).active
                    && config.active_direct_calls@[i].caller == config.user_id
                    && config.active_direct_calls@[i].target == u),
            AudioTarget::Mixed => true,
        },
{
    assert(config.sends_to(target));
    match target {
        AudioTarget::Channel(c) => {
            let n = config.buttons@.len() as int;
            if config.buttons_reach_channel(n, c) {
                let i = choose|i: int|
                    0 <= i < n && config.holds(#[trigger] config.buttons@[i])
                        && crate::config::actions_reach_channel(
                        config.buttons@[i].actions@,
                        config.buttons@[i].actions@.len() as int,
                        c,
                    );
                lemma_held(config, i);
                let a = config.buttons@[i].actions@;
                let j = choose|j: int|
                    0 <= j < a.len() && crate::config::action_channels(#[trigger] a[j]).contains(c);
                let h = choose|h: int|
                    0 <= h < config.active_buttons@.len() && (
                    #[trigger] config.active_buttons@[h])@ == config.buttons@[i].id@;
                assert(config.active_buttons@[h]@ == config.buttons@[i].id@);
                assert(config.buttons@[i].actions@[j] is Transmit);
                assert(by_held_button(config, target));
            }
        },
        AudioTarget::Direct(u) => {
            let n = config.buttons@.len() as int;
            if config.buttons_reach_user(n, u) {
                let i = choose|i: int|
                    0 <= i < n && config.holds(#[trigger] config.buttons@[i])
                        && crate::config::actions_reach_user(
                        config.buttons@[i].actions@,
                        config.buttons@[i].actions@.len() as int,
                        u,
                    );
                lemma_held(config, i);
                let a = config.buttons@[i].actions@;
                let j = choose|j: int|
                    0 <= j < a.len() && crate::config::action_users(#[trigger] a[j]).contains(u);
                let h = choose|h: int|
                    0 <= h < config.active_buttons@.len() && (
                    #[trigger] config.active_buttons@[h])@ == config.buttons@[i].id@;
                assert(config.active_buttons@[h]@ == config.buttons@[i].id@);
                assert(config.buttons@[i].actions@[j] is Transmit);
                assert(by_held_button(config, target));
            }
        },
        AudioTarget::Mixed => {},
    }
}

proof fn lemma_held(config: ClientConfig, button: int)
    requires
        config.holds(config.buttons@[button]),
    ensures
        exists|h: int|
            0 <= h < config.active_buttons@.len() && (#[trigger] config.active_buttons@[h])@
                == config.buttons@[button].id@,
{
    let t = crate::text::texts(config.active_buttons@);
    let h = choose|h: int| 0 <= h < t.len() && t[h] == config.buttons@[button].id@;
    assert(config.active_buttons@[h]@ == config.buttons@[button].id@);
}

/// No target is named twice. Channels come first, then users, each in increasing
/// order, and then the mix.
pub proof fn targets_come_in_order(
    config: ClientConfig,
    targets: Vec<AudioTarget>,
    i: int,
    j: int,
)
    requires
        call_ensures(ClientConfig::active_tx_targets, (&config,), targets),
        0 <= i < j < targets@.len(),
    ensures
        match (targets@[i], targets@[j]) {
            (AudioTarget::Channel(a), AudioTarget::Channel(b)) => a < b,
            (AudioTarget::Direct(a), AudioTarget::Direct(b)) => a < b,
            (AudioTarget::Channel(_), _) => true,
            (AudioTarget::Direct(_), AudioTarget::Mixed) => true,
            _ => false,
        },
{
    assert(crate::config::target_rank(targets@[i]) < crate::config::target_rank(targets@[j]));
}

/// The channels that a client transmits on are those among its targets, each once
/// and in increasing order.
pub proof fn channels_are_those_of_the_targets(
    config: ClientConfig,
    targets: Vec<AudioTarget>,
    channels: Vec<u16>,
    c: u16,
)
    requires
        call_ensures(ClientConfig::active_tx_targets, (&config,), targets),
        call_ensures(ClientConfig::active_tx_channels, (&config,), channels),
    ensures
        channels@.contains(c) <==> targets@.contains(AudioTarget::Channel(c)),
        forall|i: int, j: int|
            0 <= i < j < channels@.len() ==> #[trigger] channels@[i] < #[trigger] channels@[j],
{
    assert(targets@.contains(AudioTarget::Channel(c)) <==> config.sends_to(
        AudioTarget::Channel(c),
    ));
}

// ---------------------------------------------------------------------------
// Events
// ---------------------------------------------------------------------------

/// Whatever the server pushes for this client is taken over: who it is called, what
/// it hears and transmits on, how it talks, its buttons, calls and alerts, and what
/// it may do. A client id is taken over where there is one.
pub proof fn updates_are_taken_over(config: &mut ClientConfig, u: ConfigUpdate)
    requires
        call_ensures(apply_control_event, (config, ControlEvent::ConfigUpdate(u)), ()),
        u.user_id == old(config).user_id,
    ensures
        final(config).name == u.name,
        final(config).listen == u.listen,
        final(config).tx == u.tx,
        final(config).vol == u.vol,
        final(config).talker_vol == u.talker_vol,
        final(config).talk_mode == u.talk_mode,
        final(config).regular_talk_active == u.regular_talk_active,
        final(config).priority == u.priority,
        final(config).priority_channels == u.priority_channels,
        final(config).processing == u.processing,
        final(config).buttons == u.buttons,
        final(config).active_buttons == u.active_buttons,
        final(config).active_direct_calls == u.active_direct_calls,
        final(config).last_direct_caller == u.last_direct_caller,
        final(config).direct_call_history == u.direct_call_history,
        final(config).active_alerts == u.active_alerts,
        final(config).recent_alerts == u.recent_alerts,
        final(config).emergency == u.emergency,
        final(config).ifb == u.ifb,
        final(config).lockout == u.lockout,
        final(config).stereo == u.stereo,
        final(config).esp32_audio == u.esp32_audio,
        u.client_uid@.len() > 0 ==> final(config).client_uid == u.client_uid,
        u.client_uid@.len() == 0 ==> final(config).client_uid == old(config).client_uid,
{
}

/// A codec and its profile come together: both are those that the server pushed
/// where the client can decode the codec, and both stay where it cannot.
pub proof fn codecs_come_with_their_profile(config: &mut ClientConfig, u: ConfigUpdate)
    requires
        call_ensures(apply_control_event, (config, ControlEvent::ConfigUpdate(u)), ()),
        u.user_id == old(config).user_id,
    ensures
        u.codec != Codec::Adpcm ==> final(config).codec == u.codec && final(config).opus_profile
            == u.opus_profile,
        u.codec == Codec::Adpcm ==> final(config).codec == old(config).codec
            && final(config).opus_profile == old(config).opus_profile,
{
}

/// The mode to go back to from muting is the last one that did not mute.
pub proof fn updates_remember_the_mode(config: &mut ClientConfig, u: ConfigUpdate)
    requires
        call_ensures(apply_control_event, (config, ControlEvent::ConfigUpdate(u)), ()),
        u.user_id == old(config).user_id,
    ensures
        u.talk_mode != TalkMode::Muted ==> final(config).last_non_muted_talk_mode == u.talk_mode,
        u.talk_mode == TalkMode::Muted ==> final(config).last_non_muted_talk_mode == old(
            config,
        ).last_non_muted_talk_mode,
{
}

/// An update leaves alone who the client is, what it offers, and who is on its
/// channels.
pub proof fn updates_keep_the_rest(config: &mut ClientConfig, u: ConfigUpdate)
    requires
        call_ensures(apply_control_event, (config, ControlEvent::ConfigUpdate(u)), ()),
    ensures
        final(config).user_id == old(config).user_id,
        final(config).role == old(config).role,
        final(config).channel_rosters == old(config).channel_rosters,
        final(config).advertised_buttons == old(config).advertised_buttons,
        final(config).capabilities == old(config).capabilities,
        final(config).tally == old(config).tally,
        u.user_id != old(config).user_id ==> *final(config) == *old(config),
{
}

/// News of who is on the channels change that and nothing else, and only for the
/// client that they are for.
pub proof fn presence_changes_the_rosters_alone(
    config: &mut ClientConfig,
    user_id: u16,
    client_uid: String,
    channels: Vec<ChannelPresenceRoster>,
)
    requires
        call_ensures(
            apply_control_event,
            (config, ControlEvent::PresenceUpdate { user_id, client_uid, channels }),
            (),
        ),
    ensures
        user_id == old(config).user_id ==> final(config).channel_rosters == channels,
        user_id != old(config).user_id ==> final(config).channel_rosters == old(
            config,
        ).channel_rosters,
        *final(config) == (ClientConfig {
            channel_rosters: final(config).channel_rosters,
            ..*old(config)
        }),
{
}

/// Saying the same once more changes nothing.
pub proof fn events_said_twice_count_once(
    first: &mut ClientConfig,
    second: &mut ClientConfig,
    event: ControlEvent,
)
    requires
        call_ensures(apply_control_event, (first, event), ()),
        call_ensures(apply_control_event, (second, event), ()),
        *old(second) == *final(first),
    ensures
        *final(second) == *final(first),
{
}

// ---------------------------------------------------------------------------
// Talk modes and the routing that the server is told
// ---------------------------------------------------------------------------

/// A mode that is set is the one in use, and the one that unmuting goes back to
/// unless it mutes. Nothing else changes.
pub proof fn modes_are_as_set(config: &mut ClientConfig, mode: TalkMode)
    requires
        call_ensures(ClientConfig::set_talk_mode, (config, mode), ()),
    ensures
        final(config).talk_mode == mode,
        mode == TalkMode::Muted ==> final(config).last_non_muted_talk_mode == old(
            config,
        ).last_non_muted_talk_mode,
        mode != TalkMode::Muted ==> final(config).last_non_muted_talk_mode == mode,
        *final(config) == (ClientConfig {
            talk_mode: final(config).talk_mode,
            last_non_muted_talk_mode: final(config).last_non_muted_talk_mode,
            ..*old(config)
        }),
{
}

/// Unmuting goes back to a mode that lets the client talk: the one in use before it
/// was muted, or talking while a button is held where there was none.
pub proof fn unmuting_lets_the_client_talk(config: ClientConfig, mode: TalkMode)
    requires
        call_ensures(ClientConfig::restored_unmute_talk_mode, (&config,), mode),
    ensures
        mode != TalkMode::Muted,
        config.last_non_muted_talk_mode != TalkMode::Muted ==> mode
            == config.last_non_muted_talk_mode,
        config.last_non_muted_talk_mode == TalkMode::Muted ==> mode == TalkMode::Ptt,
{
}

/// The server is told the routing that the client has, and nothing of what only the
/// server sets.
pub proof fn the_server_is_told_the_routing(config: ClientConfig, message: ControlMessage)
    requires
        call_ensures(ClientConfig::control_message, (&config,), message),
    ensures
        message matches ControlMessage::Config(m) && {
            &&& m.user_id == config.user_id
            &&& m.role == Some(config.role)
            &&& m.listen@ == config.listen@
            &&& m.tx@ == config.tx@
            &&& m.vol@ == config.vol@
            &&& m.codec == Some(config.codec)
            &&& m.opus_profile == Some(config.opus_profile)
            &&& m.talk_mode == Some(config.talk_mode)
            &&& m.talker_vol is None && m.priority is None && m.priority_channels is None
                && m.ifb is None
        },
{
}

/// A name is told exactly where it is more than white space.
pub proof fn names_are_told_where_given(config: ClientConfig, message: ControlMessage, i: int)
    requires
        call_ensures(ClientConfig::control_message, (&config,), message),
    ensures
        message matches ControlMessage::Config(m) && {
            &&& m.name is None || m.name == Some(config.name)
            &&& 0 <= i < config.name@.len() && !is_space(config.name@[i]) ==> m.name == Some(
                config.name,
            )
            &&& m.name is Some ==> exists|k: int|
                0 <= k < config.name@.len() && !is_space(#[trigger] config.name@[k])
        },
{
    lemma_blank(config.name@);
}

/// A button is known exactly where one that is configured or offered has its id.
pub proof fn known_buttons_are_configured_or_offered(
    config: ClientConfig,
    id: &str,
    known: bool,
    i: int,
)
    requires
        call_ensures(ClientConfig::button_known, (&config, id), known),
    ensures
        0 <= i < config.buttons@.len() && config.buttons@[i].id@ == id@ ==> known,
        0 <= i < config.advertised_buttons@.len() && config.advertised_buttons@[i].id@ == id@
            ==> known,
        known ==> exists|k: int|
            (0 <= k < config.buttons@.len() && (#[trigger] config.buttons@[k]).id@ == id@) || (0
                <= k < config.advertised_buttons@.len() && (
            #[trigger] config.advertised_buttons@[k]).id@ == id@),
{
    if known && !(exists|k: int|
        0 <= k < config.buttons@.len() && (#[trigger] config.buttons@[k]).id@ == id@) {
        let k = choose|k: int|
            0 <= k < config.advertised_buttons@.len() && (
            #[trigger] config.advertised_buttons@[k]).id@ == id@;
        let b = config.buttons@[k];
        assert(config.advertised_buttons@[k].id@ == id@);
    } else if known {
        let k = choose|k: int|
            0 <= k < config.buttons@.len() && (#[trigger] config.buttons@[k]).id@ == id@;
        let b = config.advertised_buttons@[k];
        assert(config.buttons@[k].id@ == id@);
    }
}

} // verus!
