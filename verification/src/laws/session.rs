//! How a session starts, what it sends and how it receives.

use vstd::prelude::*;

use crate::commands::ButtonArg;
use crate::config::ClientConfig;
use crate::endpoint::{EndpointError, HostLookup};
use crate::gain::Gain;
use crate::playback::{samples_cover_the_duration, PlaybackBuffer};
use crate::protocol::{
    AudioTarget, ButtonCapability, ClientCapabilities, ClientRole, Codec, OpusProfile, TalkMode,
};
use crate::session::{
    active_transmit_snapshot, desktop_config, endpoint_lookup, fresh_config, playback_for_jitter,
    receive_channels, resolve_endpoint_args, Args, ClientStart, EndpointArgs, FailureLog,
    PacketHeader, PacketSender, SharedDefaults, TransmitSnapshot, WireCodec, WireOpusProfile,
};

verus! {

// ---------------------------------------------------------------------------
// Starting
// ---------------------------------------------------------------------------

/// A client starts as it is told to, and with nothing going on: it does not talk, holds
/// no button, is in no call, has no volumes, and nothing is locked for it.
pub proof fn clients_start_with_nothing_going_on(
    start: ClientStart,
    defaults: SharedDefaults,
    c: ClientConfig,
)
    requires
        call_ensures(fresh_config, (start, defaults), c),
    ensures
        c.user_id == start.user_id && c.client_uid == start.client_uid && c.role == start.role
            && c.name == start.name,
        c.listen == start.listen && c.tx == start.tx,
        c.codec == start.codec && c.opus_profile == start.opus_profile,
        c.talk_mode == start.talk_mode && c.last_non_muted_talk_mode
            == start.last_non_muted_talk_mode,
        c.advertised_buttons == start.advertised_buttons,
        c.stereo.enabled == start.stereo && c.stereo.channel_pan@ == Map::<u16, Gain>::empty(),
        !c.regular_talk_active && !c.priority && c.priority_channels@.len() == 0,
        c.active_buttons@.len() == 0 && c.buttons@.len() == 0,
        c.active_direct_calls@.len() == 0 && c.last_direct_caller is None
            && c.direct_call_history@.len() == 0,
        c.active_alerts@.len() == 0 && c.recent_alerts@.len() == 0 && c.emergency is None,
        c.channel_rosters@.len() == 0,
        c.vol@ == Map::<u16, Gain>::empty() && c.talker_vol@ == Map::<u16, Gain>::empty(),
        c.lockout.allow_local_api && c.lockout.allow_channels && c.lockout.allow_volumes
            && c.lockout.allow_codec && c.lockout.allow_talk_mode && c.lockout.allow_priority
            && c.lockout.allow_buttons && c.lockout.allow_ifb,
        c.processing == defaults.processing && c.ifb == defaults.ifb && c.esp32_audio
            == defaults.esp32_audio,
        start.role == ClientRole::Bridge ==> c.capabilities == Some(ClientCapabilities::Bridge)
            && c.tally == Some(defaults.tally),
        start.role == ClientRole::Client ==> c.capabilities is None && c.tally is None,
{
}

/// A desktop client starts on the channels given, for talking while a key is held, with
/// the codec and profile asked for. It transmits to nobody yet.
pub proof fn desktop_clients_start_silent(
    args: Args,
    client_uid: String,
    defaults: SharedDefaults,
    c: ClientConfig,
    sent: Option<TransmitSnapshot>,
)
    requires
        call_ensures(desktop_config, (&args, client_uid, defaults), c),
        call_ensures(active_transmit_snapshot, (&c,), sent),
    ensures
        args.user_id is Some ==> c.user_id == args.user_id->Some_0,
        args.user_id is None ==> c.user_id == 0,
        c.client_uid == client_uid,
        c.role == ClientRole::Client,
        c.name@.len() == 0,
        c.listen@.len() == 1 && c.listen@[0] == args.listen_channel,
        c.tx@.len() == 1 && c.tx@[0] == args.tx_channel,
        c.talk_mode == TalkMode::Ptt && c.last_non_muted_talk_mode == TalkMode::Ptt
            && !c.regular_talk_active,
        !c.stereo.enabled && c.capabilities is None && c.tally is None,
        sent is None,
{
    if sent is Some {
        let t = sent->Some_0.targets@[0];
        assert(sent->Some_0.targets@.contains(t));
        assert(c.sends_to(t));
        assert(!c.talks());
    }
}

/// The codec and the profile that are asked for are those used.
pub proof fn codecs_are_those_asked_for(
    args: Args,
    client_uid: String,
    defaults: SharedDefaults,
    c: ClientConfig,
)
    requires
        call_ensures(desktop_config, (&args, client_uid, defaults), c),
    ensures
        args.codec == WireCodec::Pcm16 <==> c.codec == Codec::Pcm16,
        args.codec == WireCodec::Pcm24 <==> c.codec == Codec::Pcm24,
        args.codec == WireCodec::Pcm48 <==> c.codec == Codec::Pcm48,
        args.codec == WireCodec::Opus <==> c.codec == Codec::Opus,
        args.opus_profile == WireOpusProfile::Speech16Low <==> c.opus_profile
            == OpusProfile::Speech16Low,
        args.opus_profile == WireOpusProfile::Speech24Standard <==> c.opus_profile
            == OpusProfile::Speech24Standard,
        args.opus_profile == WireOpusProfile::Speech48High <==> c.opus_profile
            == OpusProfile::Speech48High,
        args.opus_profile == WireOpusProfile::Music48 <==> c.opus_profile == OpusProfile::Music48,
{
}

/// Addresses that are given stay; those that are not are derived from the host.
pub proof fn given_addresses_stay(
    args: &mut EndpointArgs,
    found: HostLookup,
    r: Result<(), EndpointError>,
)
    requires
        call_ensures(resolve_endpoint_args, (args, found), r),
    ensures
        final(args).server_host == old(args).server_host,
        old(args).server_host is None ==> r is Ok && *final(args) == *old(args),
        r is Err ==> *final(args) == *old(args),
        old(args).server.port != 40000 ==> final(args).server == old(args).server,
        old(args).control@ != "ws://127.0.0.1:40001"@ ==> final(args).control@ == old(
            args,
        ).control@,
        r is Ok && final(args).server != old(args).server ==> found == HostLookup::Found(
            final(args).server,
        ),
{
}

/// A host is looked up exactly where its address is taken over.
pub proof fn hosts_are_looked_up_where_needed(
    args: EndpointArgs,
    r: Result<Option<(String, u16)>, EndpointError>,
    then: &mut EndpointArgs,
    found: HostLookup,
    done: Result<(), EndpointError>,
)
    requires
        call_ensures(endpoint_lookup, (&args,), r),
        call_ensures(resolve_endpoint_args, (then, found), done),
        *old(then) == args,
        found is Found,
    ensures
        r is Err <==> done is Err,
        r is Err ==> r->Err_0 == done->Err_0,
        r is Ok && r->Ok_0 is Some ==> final(then).server == found->Found_0
            && r->Ok_0->Some_0.1 == 40000,
        r is Ok && r->Ok_0 is None ==> final(then).server == args.server,
{
}

/// The playback of a client waits for the jitter given, in whole frames, and holds
/// twelve frames more.
pub proof fn playback_waits_for_the_jitter(jitter_ms: u32, b: PlaybackBuffer)
    requires
        call_ensures(playback_for_jitter, (jitter_ms,), b),
    ensures
        b@.queue.len() == 0,
        b@.prebuffer * 1000 >= jitter_ms * 48_000,
        (b@.prebuffer - 960) * 1000 < jitter_ms * 48_000,
        b@.capacity == b@.prebuffer + 12 * 960,
        b@.channels == 1,
        b@.started <==> jitter_ms == 0,
{
    samples_cover_the_duration(jitter_ms);
}

// ---------------------------------------------------------------------------
// Sending and receiving
// ---------------------------------------------------------------------------

/// A frame is sent to the client's targets, in its name and with its codec; it is sent
/// at all exactly where there is a target.
pub proof fn frames_are_sent_to_the_targets(
    config: ClientConfig,
    targets: Vec<AudioTarget>,
    r: Option<TransmitSnapshot>,
    t: AudioTarget,
)
    requires
        call_ensures(ClientConfig::active_tx_targets, (&config,), targets),
        call_ensures(active_transmit_snapshot, (&config,), r),
    ensures
        r is Some <==> targets@.len() > 0,
        r is Some ==> r->Some_0.user_id == config.user_id && r->Some_0.codec == config.codec
            && r->Some_0.opus_profile == config.opus_profile,
        r is Some ==> (r->Some_0.targets@.contains(t) <==> targets@.contains(t)),
{
    if targets@.len() > 0 {
        assert(targets@.contains(targets@[0]));
        assert(config.sends_to(targets@[0]));
    }
    if r is Some {
        let x = r->Some_0.targets@[0];
        assert(r->Some_0.targets@.contains(x));
        assert(config.sends_to(x));
        assert(targets@.contains(x));
    }
    assert(targets@.contains(t) <==> config.sends_to(t));
}

/// Another encoder is needed exactly where the codec or its profile has changed.
pub proof fn encoders_are_kept_while_they_fit(
    codec: Codec,
    profile: OpusProfile,
    sender: PacketSender,
    snapshot: TransmitSnapshot,
    r: bool,
)
    requires
        call_ensures(PacketSender::new, (codec, profile), sender),
        call_ensures(PacketSender::needs_encoder, (&sender, &snapshot), r),
    ensures
        sender.seq == 0 && sender.timestamp == 0,
        !r <==> snapshot.codec == codec && snapshot.opus_profile == profile,
{
}

/// The timestamp counts the samples of the frames before: it goes on by a frame of the
/// codec, which lasts 20 ms.
pub proof fn timestamps_count_samples(s: &mut PacketSender, r: u32)
    requires
        call_ensures(PacketSender::next_timestamp, (s,), r),
    ensures
        r == old(s).timestamp,
        final(s).timestamp as int == (old(s).timestamp + (match old(s).codec {
            Codec::Pcm16 => 320int,
            Codec::Pcm24 => 480,
            _ => 960,
        })) % 0x1_0000_0000,
        final(s).seq == old(s).seq && final(s).codec == old(s).codec && final(s).opus_profile
            == old(s).opus_profile,
{
}

/// Packets are numbered in a row, and carry what they are for.
pub proof fn packets_are_numbered_in_a_row(
    s: &mut PacketSender,
    user_id: u16,
    target: AudioTarget,
    timestamp: u32,
    r: PacketHeader,
    then: &mut PacketSender,
    other: AudioTarget,
    next: PacketHeader,
)
    requires
        call_ensures(PacketSender::next_packet, (s, user_id, target, timestamp), r),
        call_ensures(PacketSender::next_packet, (then, user_id, other, timestamp), next),
        *old(then) == *final(s),
    ensures
        r.user_id == user_id && r.target == target && r.timestamp == timestamp && r.codec == old(
            s,
        ).codec && r.seq == old(s).seq,
        next.seq as int == (r.seq + 1) % 65_536,
        next.timestamp == r.timestamp && next.target == other,
        final(s).timestamp == old(s).timestamp && final(s).codec == old(s).codec
            && final(s).opus_profile == old(s).opus_profile,
{
}

/// A failure that goes on is reported once, and that it is over once.
pub proof fn failures_are_reported_once(
    fresh: FailureLog,
    a: &mut FailureLog,
    first: bool,
    b: &mut FailureLog,
    second: bool,
    c: &mut FailureLog,
    over: bool,
    d: &mut FailureLog,
    still: bool,
)
    requires
        call_ensures(FailureLog::new, (), fresh),
        call_ensures(FailureLog::failed, (a,), first),
        call_ensures(FailureLog::failed, (b,), second),
        call_ensures(FailureLog::succeeded, (c,), over),
        call_ensures(FailureLog::succeeded, (d,), still),
        *old(a) == fresh,
        *old(b) == *final(a),
        *old(c) == *final(b),
        *old(d) == *final(c),
    ensures
        first && !second && over && !still,
{
}

/// Audio is received in stereo exactly where the client wants it and both its codec and
/// that of the packet carry it.
pub proof fn stereo_needs_a_codec_that_carries_it(config: ClientConfig, codec: Codec, r: usize)
    requires
        call_ensures(receive_channels, (&config, codec), r),
    ensures
        r == 1 || r == 2,
        r == 2 <==> config.stereo.enabled && (config.codec == Codec::Pcm48 || config.codec
            == Codec::Opus) && (codec == Codec::Pcm48 || codec == Codec::Opus),
{
}

/// A client offers the numbered buttons, with those that are given in their place.
pub proof fn given_buttons_take_their_place(
    count: u16,
    given: Vec<ButtonArg>,
    r: Vec<ButtonCapability>,
    numbered: Vec<ButtonCapability>,
    asked: Vec<ButtonCapability>,
    merged: Vec<ButtonCapability>,
)
    requires
        call_ensures(crate::session::offered_buttons, (count, &given), r),
        call_ensures(crate::buttons::default_button_capabilities, (count,), numbered),
        asked@.len() == given@.len(),
        forall|i: int|
            0 <= i < given@.len() ==> (#[trigger] asked@[i]).id@ == given@[i].id@
                && asked@[i].label@ == given@[i].label@,
        call_ensures(crate::buttons::merge_button_capabilities, (numbered, asked), merged),
    ensures
        r@.len() == merged@.len(),
        forall|i: int|
            0 <= i < r@.len() ==> (#[trigger] r@[i]).id@ == merged@[i].id@ && r@[i].label@
                == merged@[i].label@,
{
    assert(crate::buttons::caps(numbered@) =~= crate::session::default_caps(count));
    assert(crate::buttons::caps(asked@) =~= crate::session::arg_caps(given@));
    assert(crate::buttons::caps(r@).len() == r@.len());
    assert(crate::buttons::caps(merged@).len() == merged@.len());
    assert forall|i: int| 0 <= i < r@.len() implies (#[trigger] r@[i]).id@ == merged@[i].id@
        && r@[i].label@ == merged@[i].label@ by {
        assert(crate::buttons::caps(r@)[i] == crate::buttons::caps(merged@)[i]);
    }
}

} // verus!
