//! The local interface of a client: which requests its operator may make, what
//! they change at once, and what they ask of the server.

use vstd::prelude::*;
use crate::config::ClientConfig;
use crate::gain::{runtime_gain, AudioSettings};
use crate::playback::{ClientConnectionEvent, PlaybackStats};
use crate::protocol::{
    AlertStatus, ClientLockoutPolicy, Codec, ControlMessage, ControlResponse, DirectCallStatus,
    TalkButtonConfig, TalkButtonMode, TalkMode,
};
use crate::telemetry::CaptureHealthStatus;
use crate::text::{concat2, concat3, owned, same, text_in, texts};
use crate::ui::{
    shows_config, AlertRequest, FullConfigRequest, GainRequest, InputBackendState,
    MacosMicrophoneModeStatus, OkResponse, StateResponse,
};

verus! {

/// Why a request was not carried out.
#[derive(Debug, Clone)]
pub enum ApiError {
    /// The request is not in order.
    BadRequest(String),
    /// The server cannot be reached.
    Unavailable(String),
}

/// An error as mathematical value.
pub enum ApiFault {
    BadRequest(Seq<char>),
    Unavailable(Seq<char>),
}

impl View for ApiError {
    type V = ApiFault;

    open spec fn view(&self) -> ApiFault {
        match self {
            ApiError::BadRequest(s) => ApiFault::BadRequest(s@),
            ApiError::Unavailable(s) => ApiFault::Unavailable(s@),
        }
    }
}

impl ApiError {
    /// The text of the error.
    pub fn message(&self) -> (r: &str)
        ensures
            r@ == match self@ {
                ApiFault::BadRequest(s) => s,
                ApiFault::Unavailable(s) => s,
            },
    {
        match self {
            ApiError::BadRequest(s) => s.as_str(),
            ApiError::Unavailable(s) => s.as_str(),
        }
    }

    /// The HTTP status of the error.
    pub fn status(&self) -> (r: u16)
        ensures
            r == match self@ {
                ApiFault::BadRequest(_) => 400u16,
                ApiFault::Unavailable(_) => 503,
            },
    {
        match self {
            ApiError::BadRequest(_) => 400,
            ApiError::Unavailable(_) => 503,
        }
    }
}

/// The body of an answer that reports an error.
#[derive(Debug, PartialEq, Eq)]
pub struct ErrorResponse {
    pub error: String,
}

// ---------------------------------------------------------------------------
// What the administrator allows
// ---------------------------------------------------------------------------

/// The refusal of something that the administrator has locked.
pub open spec fn locked(label: Seq<char>) -> ApiFault {
    ApiFault::BadRequest(label + " locked by admin"@)
}

/// Refuses what is not allowed.
pub fn ensure_policy_allowed(allowed: bool, label: &str) -> (r: Result<(), ApiError>)
    ensures
        allowed ==> r is Ok,
        !allowed ==> r is Err && r->Err_0@ == locked(label@),
{
    if allowed {
        Ok(())
    } else {
        Err(ApiError::BadRequest(concat2(label, " locked by admin")))
    }
}

/// Refuses a client whose local interface is locked.
pub fn ensure_local_api_allowed(config: &ClientConfig) -> (r: Result<(), ApiError>)
    ensures
        config.lockout.allow_local_api ==> r is Ok,
        !config.lockout.allow_local_api ==> r is Err && r->Err_0@ == locked("local API controls"@),
{
    ensure_policy_allowed(config.lockout.allow_local_api, "local API controls")
}

/// Why a control is refused: the local interface is locked, or the control is.
pub open spec fn refusal(
    lockout: ClientLockoutPolicy,
    allowed: bool,
    label: Seq<char>,
) -> Option<ApiFault> {
    if !lockout.allow_local_api {
        Some(locked("local API controls"@))
    } else if !allowed {
        Some(locked(label))
    } else {
        None
    }
}

fn ensure_control_allowed(config: &ClientConfig, allowed: bool, label: &str) -> (r: Result<
    (),
    ApiError,
>)
    ensures
        match refusal(config.lockout, allowed, label@) {
            Some(fault) => r is Err && r->Err_0@ == fault,
            None => r is Ok,
        },
{
    match ensure_local_api_allowed(config) {
        Err(e) => Err(e),
        Ok(_) => ensure_policy_allowed(allowed, label),
    }
}

fn count(v: &Vec<u16>, x: u16) -> (r: usize)
    ensures
        r == v@.to_multiset().count(x),
{
    broadcast use vstd::seq_lib::group_to_multiset_ensures;

    let mut n: usize = 0;
    let mut i: usize = 0;
    proof {
        assert(v@.take(0) =~= Seq::<u16>::empty());
    }
    while i < v.len()
        invariant
            0 <= i <= v@.len(),
            n <= i,
            n == v@.take(i as int).to_multiset().count(x),
        decreases v@.len() - i,
    {
        proof {
            broadcast use vstd::seq_lib::group_to_multiset_ensures;

            assert(v@.take(i + 1) =~= v@.take(i as int).push(v@[i as int]));
        }
        if v[i] == x {
            n = n + 1;
        }
        i = i + 1;
    }
    proof {
        assert(v@.take(v@.len() as int) =~= v@);
    }
    n
}

fn counts_agree(left: &Vec<u16>, right: &Vec<u16>) -> (r: bool)
    ensures
        r == forall|i: int|
            0 <= i < left@.len() ==> left@.to_multiset().count(#[trigger] left@[i])
                == right@.to_multiset().count(left@[i]),
{
    let mut i: usize = 0;
    while i < left.len()
        invariant
            0 <= i <= left@.len(),
            forall|j: int|
                0 <= j < i ==> left@.to_multiset().count(#[trigger] left@[j])
                    == right@.to_multiset().count(left@[j]),
        decreases left@.len() - i,
    {
        if count(left, left[i]) != count(right, left[i]) {
            return false;
        }
        i = i + 1;
    }
    true
}

/// Tells whether two lists hold the same channels, each as often, in any order.
pub fn same_channels(left: &Vec<u16>, right: &Vec<u16>) -> (r: bool)
    ensures
        r == (left@.to_multiset() == right@.to_multiset()),
{
    broadcast use vstd::seq_lib::group_to_multiset_ensures;

    let one = counts_agree(left, right);
    let two = counts_agree(right, left);
    proof {
        let a = left@.to_multiset();
        let b = right@.to_multiset();
        if one && two {
            assert forall|x: u16| a.count(x) == b.count(x) by {
                if a.count(x) > 0 {
                    assert(left@.contains(x));
                    let i = choose|i: int| 0 <= i < left@.len() && left@[i] == x;
                    assert(a.count(left@[i]) == b.count(left@[i]));
                }
                if b.count(x) > 0 {
                    assert(right@.contains(x));
                    let i = choose|i: int| 0 <= i < right@.len() && right@[i] == x;
                    assert(b.count(right@[i]) == a.count(right@[i]));
                }
            }
            assert(a =~= b);
        }
    }
    one && two
}

/// The first part of a request that changes something locked, if there is one.
pub open spec fn config_refusal(config: ClientConfig, request: FullConfigRequest) -> Option<
    ApiFault,
> {
    let l = config.lockout;
    if !l.allow_channels && (request.listen@.to_multiset() != config.listen@.to_multiset()
        || request.tx@.to_multiset() != config.tx@.to_multiset()) {
        Some(locked("channels"@))
    } else if !l.allow_volumes && (!request.vol.equals(config.vol) || !request.talker_vol.equals(
        config.talker_vol,
    )) {
        Some(locked("volumes"@))
    } else if !l.allow_codec && request.codec != config.codec {
        Some(locked("codec"@))
    } else if !l.allow_talk_mode && request.talk_mode != config.talk_mode {
        Some(locked("talk mode"@))
    } else if !l.allow_priority && (request.priority != config.priority
        || request.priority_channels@.to_multiset() != config.priority_channels@.to_multiset()) {
        Some(locked("priority"@))
    } else if !l.allow_ifb && !request.ifb.equals(config.ifb) {
        Some(locked("IFB"@))
    } else {
        None
    }
}

/// Refuses a request that changes something locked. What stays the same may be locked.
pub fn validate_full_config_allowed(config: &ClientConfig, request: &FullConfigRequest) -> (r:
    Result<(), ApiError>)
    requires
        config.vol.wf() && config.talker_vol.wf(),
        request.vol.wf() && request.talker_vol.wf(),
    ensures
        match config_refusal(*config, *request) {
            Some(fault) => r is Err && r->Err_0@ == fault,
            None => r is Ok,
        },
{
    let l = config.lockout;
    if !l.allow_channels && (!same_channels(&request.listen, &config.listen) || !same_channels(
        &request.tx,
        &config.tx,
    )) {
        return ensure_policy_allowed(false, "channels");
    }
    if !l.allow_volumes && (!request.vol.is_equal(&config.vol) || !request.talker_vol.is_equal(
        &config.talker_vol,
    )) {
        return ensure_policy_allowed(false, "volumes");
    }
    if !l.allow_codec && request.codec != config.codec {
        return ensure_policy_allowed(false, "codec");
    }
    if !l.allow_talk_mode && request.talk_mode != config.talk_mode {
        return ensure_policy_allowed(false, "talk mode");
    }
    if !l.allow_priority && (request.priority != config.priority || !same_channels(
        &request.priority_channels,
        &config.priority_channels,
    )) {
        return ensure_policy_allowed(false, "priority");
    }
    if !l.allow_ifb && !request.ifb.is_equal(&config.ifb) {
        return ensure_policy_allowed(false, "IFB");
    }
    Ok(())
}

// ---------------------------------------------------------------------------
// Changes made at once
// ---------------------------------------------------------------------------

/// The texts without those equal to `id`.
pub open spec fn without_text(s: Seq<Seq<char>>, id: Seq<char>) -> Seq<Seq<char>>
    decreases s.len(),
{
    if s.len() == 0 {
        Seq::empty()
    } else if s.last() == id {
        without_text(s.drop_last(), id)
    } else {
        without_text(s.drop_last(), id).push(s.last())
    }
}

/// The held buttons after one of them was taken as held or released.
pub open spec fn held_buttons(s: Seq<Seq<char>>, id: Seq<char>, active: bool) -> Seq<Seq<char>> {
    if !active {
        without_text(s, id)
    } else if s.contains(id) {
        s
    } else {
        s.push(id)
    }
}

/// Takes a button as held or released.
pub fn set_active_button(active_buttons: &mut Vec<String>, id: &str, active: bool)
    ensures
        texts(final(active_buttons)@) == held_buttons(texts(old(active_buttons)@), id@, active),
{
    let ghost all = texts(active_buttons@);
    if active {
        if !text_in(active_buttons, id) {
            active_buttons.push(owned(id));
            proof {
                assert(texts(active_buttons@) =~= all.push(id@));
            }
        }
    } else {
        let mut kept: Vec<String> = Vec::new();
        let mut i: usize = 0;
        proof {
            assert(texts(kept@) =~= without_text(all.take(0), id@));
        }
        while i < active_buttons.len()
            invariant
                0 <= i <= active_buttons@.len(),
                all == texts(active_buttons@),
                texts(kept@) == without_text(all.take(i as int), id@),
            decreases active_buttons@.len() - i,
        {
            let ghost before = kept@;
            proof {
                assert(all.take(i + 1).drop_last() =~= all.take(i as int));
                assert(all.take(i + 1).last() == active_buttons@[i as int]@);
            }
            if !same(active_buttons[i].as_str(), id) {
                kept.push(active_buttons[i].clone());
                proof {
                    assert(texts(kept@) =~= texts(before).push(active_buttons@[i as int]@));
                }
            }
            i = i + 1;
        }
        proof {
            assert(all.take(all.len() as int) =~= all);
        }
        *active_buttons = kept;
    }
}

/// A call of `caller` to `target`.
pub open spec fn is_call(c: DirectCallStatus, caller: u16, target: u16) -> bool {
    c.caller == caller && c.target == target
}

/// The first call of `caller` to `target` at or after `i`, or the number of calls.
pub open spec fn call_index(s: Seq<DirectCallStatus>, caller: u16, target: u16, i: int) -> int
    decreases s.len() - i,
{
    if i >= s.len() {
        s.len() as int
    } else if is_call(s[i], caller, target) {
        i
    } else {
        call_index(s, caller, target, i + 1)
    }
}

/// The calls but those of `caller` to `target`.
pub open spec fn other_calls(s: Seq<DirectCallStatus>, caller: u16, target: u16) -> Seq<
    DirectCallStatus,
>
    decreases s.len(),
{
    if s.len() == 0 {
        Seq::empty()
    } else if is_call(s.last(), caller, target) {
        other_calls(s.drop_last(), caller, target)
    } else {
        other_calls(s.drop_last(), caller, target).push(s.last())
    }
}

/// The calls after one of them was begun or ended.
pub open spec fn calls_after(
    s: Seq<DirectCallStatus>,
    caller: u16,
    target: u16,
    active: bool,
    duck: bool,
) -> Seq<DirectCallStatus> {
    let i = call_index(s, caller, target, 0);
    if !active {
        other_calls(s, caller, target)
    } else if i < s.len() {
        s.update(i, DirectCallStatus { active: true, duck, ..s[i] })
    } else {
        s.push(
            DirectCallStatus {
                caller,
                caller_name: None,
                target,
                target_name: None,
                active: true,
                duck,
            },
        )
    }
}

fn copy_name(n: &Option<String>) -> (r: Option<String>)
    ensures
        r == *n,
{
    match n {
        Some(s) => Some(s.clone()),
        None => None,
    }
}

fn copy_call(c: &DirectCallStatus) -> (r: DirectCallStatus)
    ensures
        r == *c,
{
    DirectCallStatus {
        caller: c.caller,
        caller_name: copy_name(&c.caller_name),
        target: c.target,
        target_name: copy_name(&c.target_name),
        active: c.active,
        duck: c.duck,
    }
}

/// Takes a direct call of this client as begun or ended.
pub fn set_active_direct_call(
    config: &mut ClientConfig,
    target_user_id: u16,
    active: bool,
    duck: bool,
)
    ensures
        final(config).active_direct_calls@ == calls_after(
            old(config).active_direct_calls@,
            old(config).user_id,
            target_user_id,
            active,
            duck,
        ),
        *final(config) == (ClientConfig {
            active_direct_calls: final(config).active_direct_calls,
            ..*old(config)
        }),
{
    let caller = config.user_id;
    let ghost all = config.active_direct_calls@;
    if active {
        let mut i: usize = 0;
        while i < config.active_direct_calls.len() && !(config.active_direct_calls[i].caller
            == caller && config.active_direct_calls[i].target == target_user_id)
            invariant
                0 <= i <= config.active_direct_calls@.len(),
                config.active_direct_calls@ == all,
                *config == *old(config),
                call_index(all, caller, target_user_id, 0) == call_index(
                    all,
                    caller,
                    target_user_id,
                    i as int,
                ),
            decreases config.active_direct_calls@.len() - i,
        {
            i = i + 1;
        }
        if i < config.active_direct_calls.len() {
            let mut call = copy_call(&config.active_direct_calls[i]);
            call.active = true;
            call.duck = duck;
            config.active_direct_calls.set(i, call);
        } else {
            config.active_direct_calls.push(
                DirectCallStatus {
                    caller,
                    caller_name: None,
                    target: target_user_id,
                    target_name: None,
                    active: true,
                    duck,
                },
            );
        }
    } else {
        let mut kept: Vec<DirectCallStatus> = Vec::new();
        let mut i: usize = 0;
        proof {
            assert(kept@ =~= other_calls(all.take(0), caller, target_user_id));
        }
        while i < config.active_direct_calls.len()
            invariant
                0 <= i <= config.active_direct_calls@.len(),
                all == config.active_direct_calls@,
                kept@ == other_calls(all.take(i as int), caller, target_user_id),
            decreases config.active_direct_calls@.len() - i,
        {
            let call = &config.active_direct_calls[i];
            proof {
                assert(all.take(i + 1).drop_last() =~= all.take(i as int));
                assert(all.take(i + 1).last() == all[i as int]);
            }
            if !(call.caller == caller && call.target == target_user_id) {
                kept.push(copy_call(call));
            }
            i = i + 1;
        }
        proof {
            assert(all.take(all.len() as int) =~= all);
        }
        config.active_direct_calls = kept;
    }
}

/// The alerts but that with the number.
pub open spec fn other_alerts(s: Seq<AlertStatus>, id: u64) -> Seq<AlertStatus>
    decreases s.len(),
{
    if s.len() == 0 {
        Seq::empty()
    } else if s.last().id == id {
        other_alerts(s.drop_last(), id)
    } else {
        other_alerts(s.drop_last(), id).push(s.last())
    }
}

fn drop_alert(alerts: &Vec<AlertStatus>, id: u64) -> (r: Vec<AlertStatus>)
    ensures
        r@ == other_alerts(alerts@, id),
{
    let ghost all = alerts@;
    let mut kept: Vec<AlertStatus> = Vec::new();
    let mut i: usize = 0;
    proof {
        assert(kept@ =~= other_alerts(all.take(0), id));
    }
    while i < alerts.len()
        invariant
            0 <= i <= alerts@.len(),
            all == alerts@,
            kept@ == other_alerts(all.take(i as int), id),
        decreases alerts@.len() - i,
    {
        proof {
            assert(all.take(i + 1).drop_last() =~= all.take(i as int));
            assert(all.take(i + 1).last() == all[i as int]);
        }
        if alerts[i].id != id {
            kept.push(AlertStatus { id: alerts[i].id, encoded: alerts[i].encoded.clone() });
        }
        i = i + 1;
    }
    proof {
        assert(all.take(all.len() as int) =~= all);
    }
    kept
}

/// The first button at or after `i` with that id, or the number of buttons.
pub open spec fn config_button(s: Seq<TalkButtonConfig>, id: Seq<char>, i: int) -> int
    decreases s.len() - i,
{
    if i >= s.len() {
        s.len() as int
    } else if s[i].id@ == id {
        i
    } else {
        config_button(s, id, i + 1)
    }
}

/// A button counts as held after it was pressed or released: a latching one
/// changes when it is pressed.
pub open spec fn held_after(mode: TalkButtonMode, held: bool, pressed: bool) -> bool {
    match mode {
        TalkButtonMode::Momentary => pressed,
        TalkButtonMode::Latching => if pressed {
            !held
        } else {
            held
        },
    }
}

// ---------------------------------------------------------------------------
// The interface
// ---------------------------------------------------------------------------

/// The local interface of a client, over the state that it works on. A request
/// that is allowed gives the message that is to be sent to the server.
#[derive(Debug, Clone)]
pub struct LocalClientApi {
    pub config: ClientConfig,
    pub audio_settings: AudioSettings,
    pub input_backend: InputBackendState,
    pub telemetry: Option<CaptureHealthStatus>,
    pub connection: ClientConnectionEvent,
}

/// There is an active call of this client to `target`.
pub open spec fn in_call(config: ClientConfig, target: u16) -> bool {
    config.calls_user(config.active_direct_calls@.len() as int, target)
}

impl LocalClientApi {
    /// What the client shows of itself.
    pub fn state(
        self,
        macos_microphone_mode: Option<MacosMicrophoneModeStatus>,
        playback: PlaybackStats,
    ) -> (r: StateResponse)
        ensures
            shows_config(r, self.config),
            r.mic_gain == self.audio_settings.mic(),
            r.speaker_gain == self.audio_settings.speaker(),
            r.requested_input_backend == self.input_backend.requested,
            r.active_input_backend == self.input_backend.active,
            r.input_backend_note == self.input_backend.note,
            r.macos_microphone_mode == macos_microphone_mode,
            r.playback == playback,
            r.telemetry == self.telemetry,
            r.server_connection == self.connection,
            r.supported_codecs@ == crate::protocol::offered_codecs(),
    {
        StateResponse::from_runtime_state(
            self.config,
            &self.audio_settings,
            self.input_backend,
            macos_microphone_mode,
            playback,
            self.telemetry,
            self.connection,
        )
    }

    /// Why a change of the talk mode is refused, if it is.
    pub open spec fn talk_mode_refusal(self) -> Option<ApiFault> {
        refusal(self.config.lockout, self.config.lockout.allow_talk_mode, "talk mode"@)
    }

    /// Why any request is refused, if it is.
    pub open spec fn any_refusal(self) -> Option<ApiFault> {
        refusal(self.config.lockout, true, ""@)
    }

    /// Asks for another routing: the messages to send, one after the other.
    pub fn apply_config(&self, request: &FullConfigRequest) -> (r: Result<
        Vec<ControlMessage>,
        ApiError,
    >)
        requires
            self.config.vol.wf() && self.config.talker_vol.wf(),
            request.vol.wf() && request.talker_vol.wf(),
        ensures
            match self.any_refusal() {
                Some(fault) => r is Err && r->Err_0@ == fault,
                None => match config_refusal(self.config, *request) {
                    Some(fault) => r is Err && r->Err_0@ == fault,
                    None => r is Ok && r->Ok_0@.len() == 2 && (r->Ok_0@[0] matches
                        ControlMessage::Config(m) && request.asked_by(m, self.config.user_id))
                        && r->Ok_0@[1] == (ControlMessage::Priority {
                        user_id: self.config.user_id,
                        active: request.priority,
                    }),
                },
            },
    {
        match ensure_local_api_allowed(&self.config) {
            Err(e) => {
                return Err(e);
            },
            Ok(_) => {},
        }
        match validate_full_config_allowed(&self.config, request) {
            Err(e) => {
                return Err(e);
            },
            Ok(_) => {},
        }
        Ok(request.control_messages(self.config.user_id))
    }

    pub fn set_talk_mode(&self, mode: TalkMode) -> (r: Result<ControlMessage, ApiError>)
        ensures
            match self.talk_mode_refusal() {
                Some(fault) => r is Err && r->Err_0@ == fault,
                None => r == Ok::<ControlMessage, ApiError>(
                    ControlMessage::TalkMode { user_id: self.config.user_id, mode },
                ),
            },
    {
        match ensure_control_allowed(
            &self.config,
            self.config.lockout.allow_talk_mode,
            "talk mode",
        ) {
            Err(e) => Err(e),
            Ok(_) => Ok(ControlMessage::TalkMode { user_id: self.config.user_id, mode }),
        }
    }

    pub fn mute(&self) -> (r: Result<ControlMessage, ApiError>)
        ensures
            match self.talk_mode_refusal() {
                Some(fault) => r is Err && r->Err_0@ == fault,
                None => r == Ok::<ControlMessage, ApiError>(
                    ControlMessage::TalkMode {
                        user_id: self.config.user_id,
                        mode: TalkMode::Muted,
                    },
                ),
            },
    {
        self.set_talk_mode(TalkMode::Muted)
    }

    /// Asks for the talk mode in use before the client was muted.
    pub fn unmute(&self) -> (r: Result<ControlMessage, ApiError>)
        ensures
            match self.talk_mode_refusal() {
                Some(fault) => r is Err && r->Err_0@ == fault,
                None => r == Ok::<ControlMessage, ApiError>(
                    ControlMessage::TalkMode {
                        user_id: self.config.user_id,
                        mode: self.config.unmuted_mode(),
                    },
                ),
            },
    {
        self.set_talk_mode(self.config.restored_unmute_talk_mode())
    }

    fn talk(&self, active: bool) -> (r: Result<ControlMessage, ApiError>)
        ensures
            match self.any_refusal() {
                Some(fault) => r is Err && r->Err_0@ == fault,
                None => r == Ok::<ControlMessage, ApiError>(
                    ControlMessage::Talk { user_id: self.config.user_id, active },
                ),
            },
    {
        match ensure_local_api_allowed(&self.config) {
            Err(e) => Err(e),
            Ok(_) => Ok(ControlMessage::Talk { user_id: self.config.user_id, active }),
        }
    }

    pub fn talk_down(&self) -> (r: Result<ControlMessage, ApiError>)
        ensures
            match self.any_refusal() {
                Some(fault) => r is Err && r->Err_0@ == fault,
                None => r == Ok::<ControlMessage, ApiError>(
                    ControlMessage::Talk { user_id: self.config.user_id, active: true },
                ),
            },
    {
        self.talk(true)
    }

    pub fn talk_up(&self) -> (r: Result<ControlMessage, ApiError>)
        ensures
            match self.any_refusal() {
                Some(fault) => r is Err && r->Err_0@ == fault,
                None => r == Ok::<ControlMessage, ApiError>(
                    ControlMessage::Talk { user_id: self.config.user_id, active: false },
                ),
            },
    {
        self.talk(false)
    }

    pub fn talk_toggle(&self) -> (r: Result<ControlMessage, ApiError>)
        ensures
            match self.any_refusal() {
                Some(fault) => r is Err && r->Err_0@ == fault,
                None => r == Ok::<ControlMessage, ApiError>(
                    ControlMessage::Talk {
                        user_id: self.config.user_id,
                        active: !self.config.regular_talk_active,
                    },
                ),
            },
    {
        self.talk(!self.config.regular_talk_active)
    }

    pub fn set_codec(&self, codec: Codec) -> (r: Result<ControlMessage, ApiError>)
        ensures
            match refusal(self.config.lockout, self.config.lockout.allow_codec, "codec"@) {
                Some(fault) => r is Err && r->Err_0@ == fault,
                None => r == Ok::<ControlMessage, ApiError>(
                    ControlMessage::AudioCodec { user_id: self.config.user_id, codec },
                ),
            },
    {
        match ensure_control_allowed(&self.config, self.config.lockout.allow_codec, "codec") {
            Err(e) => Err(e),
            Ok(_) => Ok(ControlMessage::AudioCodec { user_id: self.config.user_id, codec }),
        }
    }

    /// Sets the gains that are given.
    pub fn set_gain(&mut self, request: GainRequest) -> (r: Result<OkResponse, ApiError>)
        ensures
            match old(self).any_refusal() {
                Some(fault) => r is Err && r->Err_0@ == fault && *final(self) == *old(self),
                None => {
                    &&& r == Ok::<OkResponse, ApiError>(OkResponse { ok: true })
                    &&& final(self).audio_settings.mic() == match request.mic_gain {
                        Some(g) => runtime_gain(g),
                        None => old(self).audio_settings.mic(),
                    }
                    &&& final(self).audio_settings.speaker() == match request.speaker_gain {
                        Some(g) => runtime_gain(g),
                        None => old(self).audio_settings.speaker(),
                    }
                    &&& *final(self) == (LocalClientApi {
                        audio_settings: final(self).audio_settings,
                        ..*old(self)
                    })
                },
            },
    {
        match ensure_local_api_allowed(&self.config) {
            Err(e) => {
                return Err(e);
            },
            Ok(_) => {},
        }
        match request.mic_gain {
            Some(g) => {
                self.audio_settings.set_mic_gain(g);
            },
            None => {},
        }
        match request.speaker_gain {
            Some(g) => {
                self.audio_settings.set_speaker_gain(g);
            },
            None => {},
        }
        Ok(OkResponse { ok: true })
    }

    fn button(&self, id: &str, pressed: bool) -> (r: Result<ControlMessage, ApiError>)
        ensures
            match refusal(self.config.lockout, self.config.lockout.allow_buttons, "buttons"@) {
                Some(fault) => r is Err && r->Err_0@ == fault,
                None => r is Ok && is_button_message(
                    r->Ok_0,
                    self.config.user_id,
                    id@,
                    pressed,
                ),
            },
    {
        match ensure_control_allowed(&self.config, self.config.lockout.allow_buttons, "buttons") {
            Err(e) => Err(e),
            Ok(_) => Ok(
                ControlMessage::Button {
                    user_id: self.config.user_id,
                    button_id: owned(id),
                    pressed,
                },
            ),
        }
    }

    pub fn button_down(&self, id: &str) -> (r: Result<ControlMessage, ApiError>)
        ensures
            match refusal(self.config.lockout, self.config.lockout.allow_buttons, "buttons"@) {
                Some(fault) => r is Err && r->Err_0@ == fault,
                None => r is Ok && is_button_message(r->Ok_0, self.config.user_id, id@, true),
            },
    {
        self.button(id, true)
    }

    pub fn button_up(&self, id: &str) -> (r: Result<ControlMessage, ApiError>)
        ensures
            match refusal(self.config.lockout, self.config.lockout.allow_buttons, "buttons"@) {
                Some(fault) => r is Err && r->Err_0@ == fault,
                None => r is Ok && is_button_message(r->Ok_0, self.config.user_id, id@, false),
            },
    {
        self.button(id, false)
    }

    /// The server toggles a button when it hears that it is pressed.
    pub fn button_toggle(&self, id: &str) -> (r: Result<ControlMessage, ApiError>)
        ensures
            match refusal(self.config.lockout, self.config.lockout.allow_buttons, "buttons"@) {
                Some(fault) => r is Err && r->Err_0@ == fault,
                None => r is Ok && is_button_message(r->Ok_0, self.config.user_id, id@, true),
            },
    {
        self.button(id, true)
    }

    fn call(&self, target_user_id: u16, active: bool) -> (r: Result<ControlMessage, ApiError>)
        ensures
            match self.any_refusal() {
                Some(fault) => r is Err && r->Err_0@ == fault,
                None => r == Ok::<ControlMessage, ApiError>(
                    ControlMessage::DirectCall {
                        user_id: self.config.user_id,
                        target_user_id,
                        active,
                        duck: false,
                    },
                ),
            },
    {
        match ensure_local_api_allowed(&self.config) {
            Err(e) => Err(e),
            Ok(_) => Ok(
                ControlMessage::DirectCall {
                    user_id: self.config.user_id,
                    target_user_id,
                    active,
                    duck: false,
                },
            ),
        }
    }

    pub fn call_down(&self, target_user_id: u16) -> (r: Result<ControlMessage, ApiError>)
        ensures
            match self.any_refusal() {
                Some(fault) => r is Err && r->Err_0@ == fault,
                None => r == Ok::<ControlMessage, ApiError>(
                    ControlMessage::DirectCall {
                        user_id: self.config.user_id,
                        target_user_id,
                        active: true,
                        duck: false,
                    },
                ),
            },
    {
        self.call(target_user_id, true)
    }

    pub fn call_up(&self, target_user_id: u16) -> (r: Result<ControlMessage, ApiError>)
        ensures
            match self.any_refusal() {
                Some(fault) => r is Err && r->Err_0@ == fault,
                None => r == Ok::<ControlMessage, ApiError>(
                    ControlMessage::DirectCall {
                        user_id: self.config.user_id,
                        target_user_id,
                        active: false,
                        duck: false,
                    },
                ),
            },
    {
        self.call(target_user_id, false)
    }

    /// Tells whether there is an active call of this client to `target`.
    fn is_in_call(&self, target: u16) -> (r: bool)
        ensures
            r == in_call(self.config, target),
    {
        let mut i: usize = 0;
        while i < self.config.active_direct_calls.len()
            invariant
                0 <= i <= self.config.active_direct_calls@.len(),
                forall|j: int|
                    0 <= j < i ==> !((#[trigger] self.config.active_direct_calls@[j]).caller
                        == self.config.user_id && self.config.active_direct_calls@[j].active
                        && self.config.active_direct_calls@[j].target == target),
            decreases self.config.active_direct_calls@.len() - i,
        {
            let c = &self.config.active_direct_calls[i];
            if c.caller == self.config.user_id && c.target == target && c.active {
                return true;
            }
            i = i + 1;
        }
        false
    }

    pub fn call_toggle(&self, target_user_id: u16) -> (r: Result<ControlMessage, ApiError>)
        ensures
            match self.any_refusal() {
                Some(fault) => r is Err && r->Err_0@ == fault,
                None => r == Ok::<ControlMessage, ApiError>(
                    ControlMessage::DirectCall {
                        user_id: self.config.user_id,
                        target_user_id,
                        active: !in_call(self.config, target_user_id),
                        duck: false,
                    },
                ),
            },
    {
        let active = !self.is_in_call(target_user_id);
        self.call(target_user_id, active)
    }

    fn reply(&self, active: bool) -> (r: Result<ControlMessage, ApiError>)
        ensures
            match self.any_refusal() {
                Some(fault) => r is Err && r->Err_0@ == fault,
                None => r == Ok::<ControlMessage, ApiError>(
                    ControlMessage::ReplyCall {
                        user_id: self.config.user_id,
                        active,
                        duck: false,
                    },
                ),
            },
    {
        match ensure_local_api_allowed(&self.config) {
            Err(e) => Err(e),
            Ok(_) => Ok(
                ControlMessage::ReplyCall { user_id: self.config.user_id, active, duck: false },
            ),
        }
    }

    pub fn reply_down(&self) -> (r: Result<ControlMessage, ApiError>)
        ensures
            match self.any_refusal() {
                Some(fault) => r is Err && r->Err_0@ == fault,
                None => r == Ok::<ControlMessage, ApiError>(
                    ControlMessage::ReplyCall {
                        user_id: self.config.user_id,
                        active: true,
                        duck: false,
                    },
                ),
            },
    {
        self.reply(true)
    }

    pub fn reply_up(&self) -> (r: Result<ControlMessage, ApiError>)
        ensures
            match self.any_refusal() {
                Some(fault) => r is Err && r->Err_0@ == fault,
                None => r == Ok::<ControlMessage, ApiError>(
                    ControlMessage::ReplyCall {
                        user_id: self.config.user_id,
                        active: false,
                        duck: false,
                    },
                ),
            },
    {
        self.reply(false)
    }

    pub fn reply_toggle(&self) -> (r: Result<ControlMessage, ApiError>)
        ensures
            match self.any_refusal() {
                Some(fault) => r is Err && r->Err_0@ == fault,
                None => match self.config.last_direct_caller {
                    None => r is Err && r->Err_0@ == no_caller(),
                    Some(target) => r == Ok::<ControlMessage, ApiError>(
                        ControlMessage::ReplyCall {
                            user_id: self.config.user_id,
                            active: !in_call(self.config, target),
                            duck: false,
                        },
                    ),
                },
            },
    {
        match ensure_local_api_allowed(&self.config) {
            Err(e) => {
                return Err(e);
            },
            Ok(_) => {},
        }
        match self.config.last_direct_caller {
            None => Err(ApiError::BadRequest(owned("no last direct caller to reply to"))),
            Some(target) => {
                let active = !self.is_in_call(target);
                self.reply(active)
            },
        }
    }

    pub fn send_alert(&self, request: AlertRequest) -> (r: Result<ControlMessage, ApiError>)
        ensures
            match self.any_refusal() {
                Some(fault) => r is Err && r->Err_0@ == fault,
                None => r == Ok::<ControlMessage, ApiError>(
                    ControlMessage::SendAlert {
                        user_id: self.config.user_id,
                        target: request.target,
                        message: request.message,
                    },
                ),
            },
    {
        match ensure_local_api_allowed(&self.config) {
            Err(e) => Err(e),
            Ok(_) => Ok(
                ControlMessage::SendAlert {
                    user_id: self.config.user_id,
                    target: request.target,
                    message: request.message,
                },
            ),
        }
    }

    pub fn ack_alert(&self, alert_id: u64) -> (r: Result<ControlMessage, ApiError>)
        ensures
            match self.any_refusal() {
                Some(fault) => r is Err && r->Err_0@ == fault,
                None => r == Ok::<ControlMessage, ApiError>(
                    ControlMessage::AckAlert { user_id: self.config.user_id, alert_id },
                ),
            },
    {
        match ensure_local_api_allowed(&self.config) {
            Err(e) => Err(e),
            Ok(_) => Ok(ControlMessage::AckAlert { user_id: self.config.user_id, alert_id }),
        }
    }

    pub fn cancel_alert(&self, alert_id: u64) -> (r: Result<ControlMessage, ApiError>)
        ensures
            match self.any_refusal() {
                Some(fault) => r is Err && r->Err_0@ == fault,
                None => r == Ok::<ControlMessage, ApiError>(
                    ControlMessage::CancelAlert { user_id: self.config.user_id, alert_id },
                ),
            },
    {
        match ensure_local_api_allowed(&self.config) {
            Err(e) => Err(e),
            Ok(_) => Ok(ControlMessage::CancelAlert { user_id: self.config.user_id, alert_id }),
        }
    }
}

/// The refusal of a reply when nobody has called.
pub open spec fn no_caller() -> ApiFault {
    ApiFault::BadRequest("no last direct caller to reply to"@)
}

/// The refusal of a button that is not configured.
pub open spec fn unknown_button(id: Seq<char>) -> ApiFault {
    ApiFault::BadRequest("unknown button `"@ + id + "`"@)
}

/// The message tells that a button was pressed or released.
pub open spec fn is_button_message(
    m: ControlMessage,
    user_id: u16,
    id: Seq<char>,
    pressed: bool,
) -> bool {
    m matches ControlMessage::Button { user_id: u, button_id, pressed: p } && u == user_id
        && button_id@ == id && p == pressed
}

// ---------------------------------------------------------------------------
// Requests that take effect before the server has answered
// ---------------------------------------------------------------------------

impl LocalClientApi {
    /// The interface with another configuration.
    pub open spec fn with_config(self, config: ClientConfig) -> LocalClientApi {
        LocalClientApi { config, ..self }
    }

    pub fn queue_set_talk_mode(&mut self, mode: TalkMode) -> (r: Result<ControlMessage, ApiError>)
        ensures
            match old(self).talk_mode_refusal() {
                Some(fault) => r is Err && r->Err_0@ == fault && *final(self) == *old(self),
                None => {
                    &&& r == Ok::<ControlMessage, ApiError>(
                        ControlMessage::TalkMode { user_id: old(self).config.user_id, mode },
                    )
                    &&& *final(self) == old(self).with_config(
                        (ClientConfig {
                            regular_talk_active: old(self).config.regular_talk_active && mode
                                != TalkMode::Muted,
                            ..crate::config::with_talk_mode(old(self).config, mode)
                        }),
                    )
                },
            },
    {
        match ensure_control_allowed(
            &self.config,
            self.config.lockout.allow_talk_mode,
            "talk mode",
        ) {
            Err(e) => {
                return Err(e);
            },
            Ok(_) => {},
        }
        self.config.set_talk_mode(mode);
        if mode == TalkMode::Muted {
            self.config.regular_talk_active = false;
        }
        Ok(ControlMessage::TalkMode { user_id: self.config.user_id, mode })
    }

    pub fn queue_mute(&mut self) -> (r: Result<ControlMessage, ApiError>)
        ensures
            match old(self).talk_mode_refusal() {
                Some(fault) => r is Err && r->Err_0@ == fault && *final(self) == *old(self),
                None => {
                    &&& r == Ok::<ControlMessage, ApiError>(
                        ControlMessage::TalkMode {
                            user_id: old(self).config.user_id,
                            mode: TalkMode::Muted,
                        },
                    )
                    &&& *final(self) == old(self).with_config(
                        (ClientConfig {
                            talk_mode: TalkMode::Muted,
                            regular_talk_active: false,
                            ..old(self).config
                        }),
                    )
                },
            },
    {
        self.queue_set_talk_mode(TalkMode::Muted)
    }

    pub fn queue_unmute(&mut self) -> (r: Result<ControlMessage, ApiError>)
        ensures
            match old(self).talk_mode_refusal() {
                Some(fault) => r is Err && r->Err_0@ == fault && *final(self) == *old(self),
                None => {
                    &&& r == Ok::<ControlMessage, ApiError>(
                        ControlMessage::TalkMode {
                            user_id: old(self).config.user_id,
                            mode: old(self).config.unmuted_mode(),
                        },
                    )
                    &&& *final(self) == old(self).with_config(
                        crate::config::with_talk_mode(
                            old(self).config,
                            old(self).config.unmuted_mode(),
                        ),
                    )
                },
            },
    {
        let mode = self.config.restored_unmute_talk_mode();
        match ensure_control_allowed(
            &self.config,
            self.config.lockout.allow_talk_mode,
            "talk mode",
        ) {
            Err(e) => {
                return Err(e);
            },
            Ok(_) => {},
        }
        self.config.set_talk_mode(mode);
        Ok(ControlMessage::TalkMode { user_id: self.config.user_id, mode })
    }

    pub fn queue_talk(&mut self, active: bool) -> (r: Result<ControlMessage, ApiError>)
        ensures
            match old(self).any_refusal() {
                Some(fault) => r is Err && r->Err_0@ == fault && *final(self) == *old(self),
                None => {
                    &&& r == Ok::<ControlMessage, ApiError>(
                        ControlMessage::Talk { user_id: old(self).config.user_id, active },
                    )
                    &&& *final(self) == old(self).with_config(
                        (ClientConfig { regular_talk_active: active, ..old(self).config }),
                    )
                },
            },
    {
        match ensure_local_api_allowed(&self.config) {
            Err(e) => {
                return Err(e);
            },
            Ok(_) => {},
        }
        self.config.regular_talk_active = active;
        Ok(ControlMessage::Talk { user_id: self.config.user_id, active })
    }

    pub fn queue_talk_toggle(&mut self) -> (r: Result<ControlMessage, ApiError>)
        ensures
            match old(self).any_refusal() {
                Some(fault) => r is Err && r->Err_0@ == fault && *final(self) == *old(self),
                None => {
                    &&& r == Ok::<ControlMessage, ApiError>(
                        ControlMessage::Talk {
                            user_id: old(self).config.user_id,
                            active: !old(self).config.regular_talk_active,
                        },
                    )
                    &&& *final(self) == old(self).with_config(
                        (ClientConfig {
                            regular_talk_active: !old(self).config.regular_talk_active,
                            ..old(self).config
                        }),
                    )
                },
            },
    {
        let active = !self.config.regular_talk_active;
        self.queue_talk(active)
    }

    pub fn queue_set_codec(&mut self, codec: Codec) -> (r: Result<ControlMessage, ApiError>)
        ensures
            match refusal(old(self).config.lockout, old(self).config.lockout.allow_codec, "codec"@) {
                Some(fault) => r is Err && r->Err_0@ == fault && *final(self) == *old(self),
                None => {
                    &&& r == Ok::<ControlMessage, ApiError>(
                        ControlMessage::AudioCodec { user_id: old(self).config.user_id, codec },
                    )
                    &&& *final(self) == old(self).with_config(
                        (ClientConfig { codec, ..old(self).config }),
                    )
                },
            },
    {
        match ensure_control_allowed(&self.config, self.config.lockout.allow_codec, "codec") {
            Err(e) => {
                return Err(e);
            },
            Ok(_) => {},
        }
        self.config.codec = codec;
        Ok(ControlMessage::AudioCodec { user_id: self.config.user_id, codec })
    }

    /// Presses or releases a configured button.
    pub fn queue_button(&mut self, id: &str, pressed: bool) -> (r: Result<ControlMessage, ApiError>)
        ensures
            ({
                let c = old(self).config;
                let k = config_button(c.buttons@, id@, 0);
                match refusal(c.lockout, c.lockout.allow_buttons, "buttons"@) {
                    Some(fault) => r is Err && r->Err_0@ == fault && *final(self) == *old(self),
                    None => if k >= c.buttons@.len() {
                        r is Err && r->Err_0@ == unknown_button(id@) && *final(self) == *old(self)
                    } else {
                        &&& r is Ok && is_button_message(r->Ok_0, c.user_id, id@, pressed)
                        &&& texts(final(self).config.active_buttons@) == held_buttons(
                            texts(c.active_buttons@),
                            id@,
                            held_after(
                                c.buttons@[k].mode,
                                texts(c.active_buttons@).contains(id@),
                                pressed,
                            ),
                        )
                        &&& *final(self) == old(self).with_config(
                            (ClientConfig {
                                active_buttons: final(self).config.active_buttons,
                                ..c
                            }),
                        )
                    },
                }
            }),
    {
        match ensure_control_allowed(&self.config, self.config.lockout.allow_buttons, "buttons") {
            Err(e) => {
                return Err(e);
            },
            Ok(_) => {},
        }
        let mut i: usize = 0;
        while i < self.config.buttons.len() && !same(self.config.buttons[i].id.as_str(), id)
            invariant
                0 <= i <= self.config.buttons@.len(),
                *self == *old(self),
                config_button(self.config.buttons@, id@, 0) == config_button(
                    self.config.buttons@,
                    id@,
                    i as int,
                ),
            decreases self.config.buttons@.len() - i,
        {
            i = i + 1;
        }
        if i >= self.config.buttons.len() {
            return Err(ApiError::BadRequest(concat3("unknown button `", id, "`")));
        }
        let was_active = text_in(&self.config.active_buttons, id);
        let now_active = match self.config.buttons[i].mode {
            TalkButtonMode::Momentary => pressed,
            TalkButtonMode::Latching => if pressed {
                !was_active
            } else {
                was_active
            },
        };
        set_active_button(&mut self.config.active_buttons, id, now_active);
        Ok(
            ControlMessage::Button {
                user_id: self.config.user_id,
                button_id: owned(id),
                pressed,
            },
        )
    }

    pub fn queue_direct_call(&mut self, target_user_id: u16, active: bool, duck: bool) -> (r: Result<
        ControlMessage,
        ApiError,
    >)
        ensures
            ({
                let c = old(self).config;
                match old(self).any_refusal() {
                    Some(fault) => r is Err && r->Err_0@ == fault && *final(self) == *old(self),
                    None => {
                        &&& r == Ok::<ControlMessage, ApiError>(
                            ControlMessage::DirectCall {
                                user_id: c.user_id,
                                target_user_id,
                                active,
                                duck,
                            },
                        )
                        &&& final(self).config.active_direct_calls@ == calls_after(
                            c.active_direct_calls@,
                            c.user_id,
                            target_user_id,
                            active,
                            duck,
                        )
                        &&& *final(self) == old(self).with_config(
                            (ClientConfig {
                                active_direct_calls: final(self).config.active_direct_calls,
                                ..c
                            }),
                        )
                    },
                }
            }),
    {
        match ensure_local_api_allowed(&self.config) {
            Err(e) => {
                return Err(e);
            },
            Ok(_) => {},
        }
        set_active_direct_call(&mut self.config, target_user_id, active, duck);
        Ok(
            ControlMessage::DirectCall {
                user_id: self.config.user_id,
                target_user_id,
                active,
                duck,
            },
        )
    }

    pub fn queue_direct_call_toggle(&mut self, target_user_id: u16) -> (r: Result<
        ControlMessage,
        ApiError,
    >)
        ensures
            ({
                let c = old(self).config;
                let active = !in_call(c, target_user_id);
                match old(self).any_refusal() {
                    Some(fault) => r is Err && r->Err_0@ == fault && *final(self) == *old(self),
                    None => {
                        &&& r == Ok::<ControlMessage, ApiError>(
                            ControlMessage::DirectCall {
                                user_id: c.user_id,
                                target_user_id,
                                active,
                                duck: false,
                            },
                        )
                        &&& final(self).config.active_direct_calls@ == calls_after(
                            c.active_direct_calls@,
                            c.user_id,
                            target_user_id,
                            active,
                            false,
                        )
                        &&& *final(self) == old(self).with_config(
                            (ClientConfig {
                                active_direct_calls: final(self).config.active_direct_calls,
                                ..c
                            }),
                        )
                    },
                }
            }),
    {
        let active = !self.is_in_call(target_user_id);
        self.queue_direct_call(target_user_id, active, false)
    }

    pub fn queue_reply_call(&mut self, active: bool, duck: bool) -> (r: Result<
        ControlMessage,
        ApiError,
    >)
        ensures
            ({
                let c = old(self).config;
                match old(self).any_refusal() {
                    Some(fault) => r is Err && r->Err_0@ == fault && *final(self) == *old(self),
                    None => match c.last_direct_caller {
                        None => r is Err && r->Err_0@ == no_caller() && *final(self) == *old(self),
                        Some(target) => {
                            &&& r == Ok::<ControlMessage, ApiError>(
                                ControlMessage::ReplyCall { user_id: c.user_id, active, duck },
                            )
                            &&& final(self).config.active_direct_calls@ == calls_after(
                                c.active_direct_calls@,
                                c.user_id,
                                target,
                                active,
                                duck,
                            )
                            &&& *final(self) == old(self).with_config(
                                (ClientConfig {
                                    active_direct_calls: final(self).config.active_direct_calls,
                                    ..c
                                }),
                            )
                        },
                    },
                }
            }),
    {
        match ensure_local_api_allowed(&self.config) {
            Err(e) => {
                return Err(e);
            },
            Ok(_) => {},
        }
        match self.config.last_direct_caller {
            None => Err(ApiError::BadRequest(owned("no last direct caller to reply to"))),
            Some(target) => {
                set_active_direct_call(&mut self.config, target, active, duck);
                Ok(ControlMessage::ReplyCall { user_id: self.config.user_id, active, duck })
            },
        }
    }

    pub fn queue_reply_toggle(&mut self) -> (r: Result<ControlMessage, ApiError>)
        ensures
            ({
                let c = old(self).config;
                match old(self).any_refusal() {
                    Some(fault) => r is Err && r->Err_0@ == fault && *final(self) == *old(self),
                    None => match c.last_direct_caller {
                        None => r is Err && r->Err_0@ == no_caller() && *final(self) == *old(self),
                        Some(target) => {
                            let active = !in_call(c, target);
                            &&& r == Ok::<ControlMessage, ApiError>(
                                ControlMessage::ReplyCall {
                                    user_id: c.user_id,
                                    active,
                                    duck: false,
                                },
                            )
                            &&& final(self).config.active_direct_calls@ == calls_after(
                                c.active_direct_calls@,
                                c.user_id,
                                target,
                                active,
                                false,
                            )
                            &&& *final(self) == old(self).with_config(
                                (ClientConfig {
                                    active_direct_calls: final(self).config.active_direct_calls,
                                    ..c
                                }),
                            )
                        },
                    },
                }
            }),
    {
        let active = match self.config.last_direct_caller {
            None => false,
            Some(target) => !self.is_in_call(target),
        };
        self.queue_reply_call(active, false)
    }

    pub fn queue_send_alert(&mut self, request: AlertRequest) -> (r: Result<
        ControlMessage,
        ApiError,
    >)
        ensures
            *final(self) == *old(self),
            match old(self).any_refusal() {
                Some(fault) => r is Err && r->Err_0@ == fault,
                None => r == Ok::<ControlMessage, ApiError>(
                    ControlMessage::SendAlert {
                        user_id: old(self).config.user_id,
                        target: request.target,
                        message: request.message,
                    },
                ),
            },
    {
        self.send_alert(request)
    }

    pub fn queue_ack_alert(&mut self, alert_id: u64) -> (r: Result<ControlMessage, ApiError>)
        ensures
            ({
                let c = old(self).config;
                match old(self).any_refusal() {
                    Some(fault) => r is Err && r->Err_0@ == fault && *final(self) == *old(self),
                    None => {
                        &&& r == Ok::<ControlMessage, ApiError>(
                            ControlMessage::AckAlert { user_id: c.user_id, alert_id },
                        )
                        &&& final(self).config.active_alerts@ == other_alerts(
                            c.active_alerts@,
                            alert_id,
                        )
                        &&& *final(self) == old(self).with_config(
                            (ClientConfig {
                                active_alerts: final(self).config.active_alerts,
                                ..c
                            }),
                        )
                    },
                }
            }),
    {
        match ensure_local_api_allowed(&self.config) {
            Err(e) => {
                return Err(e);
            },
            Ok(_) => {},
        }
        let kept = drop_alert(&self.config.active_alerts, alert_id);
        self.config.active_alerts = kept;
        Ok(ControlMessage::AckAlert { user_id: self.config.user_id, alert_id })
    }

    pub fn queue_cancel_alert(&mut self, alert_id: u64) -> (r: Result<ControlMessage, ApiError>)
        ensures
            ({
                let c = old(self).config;
                match old(self).any_refusal() {
                    Some(fault) => r is Err && r->Err_0@ == fault && *final(self) == *old(self),
                    None => {
                        &&& r == Ok::<ControlMessage, ApiError>(
                            ControlMessage::CancelAlert { user_id: c.user_id, alert_id },
                        )
                        &&& final(self).config.active_alerts@ == other_alerts(
                            c.active_alerts@,
                            alert_id,
                        )
                        &&& *final(self) == old(self).with_config(
                            (ClientConfig {
                                active_alerts: final(self).config.active_alerts,
                                ..c
                            }),
                        )
                    },
                }
            }),
    {
        match ensure_local_api_allowed(&self.config) {
            Err(e) => {
                return Err(e);
            },
            Ok(_) => {},
        }
        let kept = drop_alert(&self.config.active_alerts, alert_id);
        self.config.active_alerts = kept;
        Ok(ControlMessage::CancelAlert { user_id: self.config.user_id, alert_id })
    }
}

/// What became of a message that was put in the queue to the server.
#[derive(Debug, Clone, Copy, PartialEq, Eq, Structural)]
pub enum QueueOutcome {
    Queued,
    Full,
    Closed,
}

/// The answer to a request whose message was put in the queue.
pub fn queue_answer(outcome: QueueOutcome) -> (r: Result<OkResponse, ApiError>)
    ensures
        match outcome {
            QueueOutcome::Queued => r == Ok::<OkResponse, ApiError>(OkResponse { ok: true }),
            QueueOutcome::Full => r is Err && r->Err_0@ == ApiFault::Unavailable(
                "control command queue is full"@,
            ),
            QueueOutcome::Closed => r is Err && r->Err_0@ == ApiFault::Unavailable(
                "control connection is not available"@,
            ),
        },
{
    match outcome {
        QueueOutcome::Queued => Ok(OkResponse { ok: true }),
        QueueOutcome::Full => Err(ApiError::Unavailable(owned("control command queue is full"))),
        QueueOutcome::Closed => Err(
            ApiError::Unavailable(owned("control connection is not available")),
        ),
    }
}

/// What became of a message that was sent to the server.
#[derive(Debug)]
pub enum ForwardOutcome {
    /// It could not be put in the queue.
    NotQueued,
    /// Nobody answered it any more.
    Unanswered,
    /// The server answered.
    Answered(ControlResponse),
}

/// The answer to a request whose message was sent to the server. `unexpected` is
/// the text of an answer that is neither an acknowledgement nor an error.
pub fn forward_answer(outcome: ForwardOutcome, unexpected: &str) -> (r: Result<
    OkResponse,
    ApiError,
>)
    ensures
        match outcome {
            ForwardOutcome::NotQueued => r is Err && r->Err_0@ == ApiFault::Unavailable(
                "control connection is not available"@,
            ),
            ForwardOutcome::Unanswered => r is Err && r->Err_0@ == ApiFault::Unavailable(
                "control response channel closed"@,
            ),
            ForwardOutcome::Answered(ControlResponse::Ack) => r == Ok::<OkResponse, ApiError>(
                OkResponse { ok: true },
            ),
            ForwardOutcome::Answered(ControlResponse::Error { message }) => r is Err && r->Err_0@
                == ApiFault::BadRequest(message@),
            ForwardOutcome::Answered(ControlResponse::Hello { .. }) => r is Err && r->Err_0@
                == ApiFault::BadRequest("unexpected control response: "@ + unexpected@),
        },
{
    match outcome {
        ForwardOutcome::NotQueued => Err(
            ApiError::Unavailable(owned("control connection is not available")),
        ),
        ForwardOutcome::Unanswered => Err(
            ApiError::Unavailable(owned("control response channel closed")),
        ),
        ForwardOutcome::Answered(response) => match response {
            ControlResponse::Ack => Ok(OkResponse { ok: true }),
            ControlResponse::Error { message } => Err(ApiError::BadRequest(message)),
            ControlResponse::Hello { .. } => Err(
                ApiError::BadRequest(concat2("unexpected control response: ", unexpected)),
            ),
        },
    }
}

// ---------------------------------------------------------------------------
// Laws
// ---------------------------------------------------------------------------

/// Whatever else is allowed, nothing is while the local interface is locked.
pub proof fn a_locked_interface_refuses_everything(
    lockout: ClientLockoutPolicy,
    allowed: bool,
    label: Seq<char>,
)
    requires
        !lockout.allow_local_api,
    ensures
        refusal(lockout, allowed, label) == Some(locked("local API controls"@)),
{
}

/// A request that changes nothing is allowed, whatever is locked, unless one of
/// its gains is not a number.
pub proof fn unchanged_routing_is_always_allowed(config: ClientConfig, request: FullConfigRequest)
    requires
        request.listen@ == config.listen@,
        request.tx@ == config.tx@,
        request.vol.equals(config.vol),
        request.talker_vol.equals(config.talker_vol),
        request.codec == config.codec,
        request.talk_mode == config.talk_mode,
        request.priority == config.priority,
        request.priority_channels@ == config.priority_channels@,
        request.ifb.equals(config.ifb),
    ensures
        config_refusal(config, request) is None,
{
}

/// After a button was taken as held it is among the held ones, after it was
/// released it is not, and the others stay as they were.
pub proof fn held_buttons_are_as_set(
    s: Seq<Seq<char>>,
    id: Seq<char>,
    active: bool,
    other: Seq<char>,
)
    ensures
        held_buttons(s, id, active).contains(id) == active,
        other != id ==> held_buttons(s, id, active).contains(other) == s.contains(other),
{
    if active {
        if !s.contains(id) {
            let t = s.push(id);
            assert(t[s.len() as int] == id);
            if s.contains(other) {
                let k = choose|k: int| 0 <= k < s.len() && s[k] == other;
                assert(t[k] == other);
            }
            if t.contains(other) && other != id {
                let k = choose|k: int| 0 <= k < t.len() && t[k] == other;
                assert(s[k] == other);
            }
        }
    } else {
        lemma_without_text(s, id, other);
        lemma_without_text(s, id, id);
    }
}

proof fn lemma_without_text(s: Seq<Seq<char>>, id: Seq<char>, x: Seq<char>)
    ensures
        without_text(s, id).contains(x) == (s.contains(x) && x != id),
    decreases s.len(),
{
    if s.len() > 0 {
        let t = s.drop_last();
        lemma_without_text(t, id, x);
        let r = without_text(s, id);
        let q = without_text(t, id);
        assert(s.contains(x) == (t.contains(x) || s.last() == x)) by {
            if s.contains(x) {
                let k = choose|k: int| 0 <= k < s.len() && s[k] == x;
                if k < t.len() {
                    assert(t[k] == x);
                }
            }
            if t.contains(x) {
                let k = choose|k: int| 0 <= k < t.len() && t[k] == x;
                assert(s[k] == x);
            }
            assert(s[s.len() - 1] == s.last());
        }
        if s.last() != id {
            assert(r.contains(x) == (q.contains(x) || s.last() == x)) by {
                if r.contains(x) {
                    let k = choose|k: int| 0 <= k < r.len() && r[k] == x;
                    if k < q.len() {
                        assert(q[k] == x);
                    }
                }
                if q.contains(x) {
                    let k = choose|k: int| 0 <= k < q.len() && q[k] == x;
                    assert(r[k] == x);
                }
                assert(r[r.len() - 1] == s.last());
            }
        }
    }
}

/// Pressing a latching button twice leaves it as it was, whatever is done about
/// releasing it.
pub proof fn latching_buttons_toggle(held: bool)
    ensures
        held_after(
            TalkButtonMode::Latching,
            held_after(
                TalkButtonMode::Latching,
                held_after(
                    TalkButtonMode::Latching,
                    held_after(TalkButtonMode::Latching, held, true),
                    false,
                ),
                true,
            ),
            false,
        ) == held,
{
}

/// After a call was ended there is no call to that user any more.
pub proof fn ended_calls_are_gone(s: Seq<DirectCallStatus>, caller: u16, target: u16, i: int)
    requires
        0 <= i < calls_after(s, caller, target, false, false).len(),
    ensures
        !is_call(calls_after(s, caller, target, false, false)[i], caller, target),
    decreases s.len(),
{
    if s.len() > 0 && i < other_calls(s.drop_last(), caller, target).len() {
        ended_calls_are_gone(s.drop_last(), caller, target, i);
    }
}

} // verus!
