//! The configuration of a running client, and what the server's events do to it.

use vstd::prelude::*;
use crate::gain::Volumes;
use crate::protocol::{
    codec_supported, copy_ids, supports, AlertStatus, AudioTarget, ButtonCapability,
    ChannelPresenceRoster, ClientCapabilities, ClientLockoutPolicy, ClientRole, Codec,
    ConfigMessage, ConfigUpdate, ControlEvent, ControlMessage, DirectCallHistoryEntry,
    DirectCallStatus, EmergencyStatus, Esp32AudioConfig, IfbConfig, OpusProfile, ProcessingConfig,
    StereoConfig, TalkButtonAction, TalkButtonConfig, TalkMode, TallyStatus,
};
use crate::text::{blank, is_blank, same, text_in, texts};

verus! {

/// The configuration of a running client.
#[derive(Debug, Clone)]
pub struct ClientConfig {
    pub user_id: u16,
    pub client_uid: String,
    pub role: ClientRole,
    pub name: String,
    pub listen: Vec<u16>,
    pub tx: Vec<u16>,
    pub codec: Codec,
    pub opus_profile: OpusProfile,
    pub talk_mode: TalkMode,
    pub last_non_muted_talk_mode: TalkMode,
    pub regular_talk_active: bool,
    pub priority: bool,
    pub priority_channels: Vec<u16>,
    pub processing: ProcessingConfig,
    pub channel_rosters: Vec<ChannelPresenceRoster>,
    pub emergency: Option<EmergencyStatus>,
    pub vol: Volumes,
    pub talker_vol: Volumes,
    pub buttons: Vec<TalkButtonConfig>,
    pub active_buttons: Vec<String>,
    pub active_direct_calls: Vec<DirectCallStatus>,
    pub last_direct_caller: Option<u16>,
    pub direct_call_history: Vec<DirectCallHistoryEntry>,
    pub active_alerts: Vec<AlertStatus>,
    pub recent_alerts: Vec<AlertStatus>,
    pub advertised_buttons: Vec<ButtonCapability>,
    /// What the client can do, where it is a bridge.
    pub capabilities: Option<ClientCapabilities>,
    pub ifb: IfbConfig,
    pub lockout: ClientLockoutPolicy,
    pub stereo: StereoConfig,
    pub esp32_audio: Esp32AudioConfig,
    /// The tally, where the client is a bridge.
    pub tally: Option<TallyStatus>,
}

// ---------------------------------------------------------------------------
// Sorted sets of ranks
// ---------------------------------------------------------------------------

/// The numbers stand in strictly increasing order.
pub open spec fn increasing(s: Seq<u32>) -> bool {
    forall|i: int, j: int| 0 <= i < j < s.len() ==> #[trigger] s[i] < #[trigger] s[j]
}

/// Adds a number to a sorted set.
fn add_rank(v: &mut Vec<u32>, x: u32)
    requires
        increasing(old(v)@),
    ensures
        increasing(final(v)@),
        forall|y: u32| #[trigger] final(v)@.contains(y) <==> (old(v)@.contains(y) || y == x),
{
    let ghost s = v@;
    let mut i: usize = 0;
    while i < v.len() && v[i] < x
        invariant
            0 <= i <= v@.len(),
            v@ == s,
            forall|j: int| 0 <= j < i ==> #[trigger] s[j] < x,
        decreases v@.len() - i,
    {
        i = i + 1;
    }
    if i < v.len() && v[i] == x {
        proof {
            assert(s.contains(x)) by {
                assert(s[i as int] == x);
            }
        }
        return;
    }
    proof {
        assert forall|j: int| i <= j < s.len() implies #[trigger] s[j] > x by {
            if j > i {
                assert(s[i as int] < s[j]);
            }
        }
    }
    v.insert(i, x);
    let ghost t = v@;
    proof {
        assert(t =~= s.insert(i as int, x));
        assert forall|a: int, b: int| 0 <= a < b < t.len() implies #[trigger] t[a]
            < #[trigger] t[b] by {
            let sa = if a < i {
                a
            } else {
                a - 1
            };
            let sb = if b < i {
                b
            } else {
                b - 1
            };
            if a != i {
                assert(t[a] == s[sa]);
            }
            if b != i {
                assert(t[b] == s[sb]);
            }
        }
        assert forall|y: u32| #[trigger] t.contains(y) <==> (s.contains(y) || y == x) by {
            if t.contains(y) {
                let k = choose|k: int| 0 <= k < t.len() && t[k] == y;
                if k < i {
                    assert(s[k] == y);
                } else if k > i {
                    assert(s[k - 1] == y);
                }
            }
            if s.contains(y) {
                let k = choose|k: int| 0 <= k < s.len() && s[k] == y;
                if k < i {
                    assert(t[k] == y);
                } else {
                    assert(t[k + 1] == y);
                }
            }
            assert(t[i as int] == x);
        }
    }
}

/// The rank of a channel among targets.
pub open spec fn channel_rank(id: u16) -> u32 {
    id as u32
}

/// The rank of a user among targets: after all channels.
pub open spec fn user_rank(id: u16) -> u32 {
    (65_536 + id) as u32
}

/// The rank of the mixed target: after all users.
pub const MIXED_RANK: u32 = 131_072;

/// The rank of a target: channels come first, then users, then the mix.
pub open spec fn target_rank(t: AudioTarget) -> u32 {
    match t {
        AudioTarget::Channel(id) => channel_rank(id),
        AudioTarget::Direct(id) => user_rank(id),
        AudioTarget::Mixed => MIXED_RANK,
    }
}

/// Targets in the order of their ranks, each once.
pub open spec fn targets_increase(s: Seq<AudioTarget>) -> bool {
    forall|i: int, j: int|
        0 <= i < j < s.len() ==> target_rank(#[trigger] s[i]) < target_rank(#[trigger] s[j])
}

/// Channels in increasing order, each once.
pub open spec fn channels_increase(s: Seq<u16>) -> bool {
    forall|i: int, j: int| 0 <= i < j < s.len() ==> #[trigger] s[i] < #[trigger] s[j]
}

/// The channels that an action transmits on.
pub open spec fn action_channels(a: TalkButtonAction) -> Seq<u16> {
    match a {
        TalkButtonAction::Transmit { channels, .. } => channels@,
        _ => Seq::empty(),
    }
}

/// The users that an action transmits to.
pub open spec fn action_users(a: TalkButtonAction) -> Seq<u16> {
    match a {
        TalkButtonAction::Transmit { users, .. } => users@,
        _ => Seq::empty(),
    }
}

/// One of the first `n` actions transmits on channel `c`.
pub open spec fn actions_reach_channel(a: Seq<TalkButtonAction>, n: int, c: u16) -> bool {
    exists|j: int| 0 <= j < n && action_channels(#[trigger] a[j]).contains(c)
}

/// One of the first `n` actions transmits to user `u`.
pub open spec fn actions_reach_user(a: Seq<TalkButtonAction>, n: int, u: u16) -> bool {
    exists|j: int| 0 <= j < n && action_users(#[trigger] a[j]).contains(u)
}

impl ClientConfig {
    /// The regular microphone is live.
    pub open spec fn talks(self) -> bool {
        self.talk_mode == TalkMode::Open || (self.talk_mode == TalkMode::Ptt
            && self.regular_talk_active)
    }

    /// The button is among those held.
    pub open spec fn holds(self, b: TalkButtonConfig) -> bool {
        texts(self.active_buttons@).contains(b.id@)
    }

    /// One of the first `n` buttons is held and transmits on channel `c`.
    pub open spec fn buttons_reach_channel(self, n: int, c: u16) -> bool {
        exists|i: int|
            0 <= i < n && self.holds(#[trigger] self.buttons@[i]) && actions_reach_channel(
                self.buttons@[i].actions@,
                self.buttons@[i].actions@.len() as int,
                c,
            )
    }

    /// One of the first `n` buttons is held and transmits to user `u`.
    pub open spec fn buttons_reach_user(self, n: int, u: u16) -> bool {
        exists|i: int|
            0 <= i < n && self.holds(#[trigger] self.buttons@[i]) && actions_reach_user(
                self.buttons@[i].actions@,
                self.buttons@[i].actions@.len() as int,
                u,
            )
    }

    /// The client transmits on channel `c`: by the regular microphone or by a held button.
    pub open spec fn sends_to_channel(self, c: u16) -> bool {
        (self.talks() && self.tx@.contains(c)) || self.buttons_reach_channel(
            self.buttons@.len() as int,
            c,
        )
    }

    /// One of the first `n` direct calls is an active one of this client to user `u`.
    pub open spec fn calls_user(self, n: int, u: u16) -> bool {
        exists|i: int|
            0 <= i < n && (#[trigger] self.active_direct_calls@[i]).caller == self.user_id
                && self.active_direct_calls@[i].active && self.active_direct_calls@[i].target == u
    }

    /// The client is the source of a running emergency announcement.
    pub open spec fn announces(self) -> bool {
        match self.emergency {
            Some(e) => e.active && e.source == self.user_id,
            None => false,
        }
    }

    /// The client transmits to the target.
    pub open spec fn sends_to(self, t: AudioTarget) -> bool {
        match t {
            AudioTarget::Channel(c) => self.sends_to_channel(c),
            AudioTarget::Direct(u) => self.calls_user(self.active_direct_calls@.len() as int, u)
                || self.buttons_reach_user(self.buttons@.len() as int, u),
            AudioTarget::Mixed => self.announces(),
        }
    }

    /// Sets the talk mode, and remembers it unless it mutes.
    pub fn set_talk_mode(&mut self, talk_mode: TalkMode)
        ensures
            *final(self) == (ClientConfig {
                talk_mode,
                last_non_muted_talk_mode: if talk_mode == TalkMode::Muted {
                    old(self).last_non_muted_talk_mode
                } else {
                    talk_mode
                },
                ..*old(self)
            }),
    {
        self.talk_mode = talk_mode;
        if talk_mode != TalkMode::Muted {
            self.last_non_muted_talk_mode = talk_mode;
        }
    }

    /// The talk mode that unmuting goes back to.
    pub open spec fn unmuted_mode(self) -> TalkMode {
        if self.last_non_muted_talk_mode == TalkMode::Muted {
            TalkMode::Ptt
        } else {
            self.last_non_muted_talk_mode
        }
    }

    /// The talk mode that unmuting goes back to.
    pub fn restored_unmute_talk_mode(&self) -> (r: TalkMode)
        ensures
            r == self.unmuted_mode(),
    {
        if self.last_non_muted_talk_mode == TalkMode::Muted {
            TalkMode::Ptt
        } else {
            self.last_non_muted_talk_mode
        }
    }

    fn add_channels(&self, v: &mut Vec<u32>)
        requires
            old(v)@.len() == 0,
        ensures
            increasing(final(v)@),
            forall|y: u32| #[trigger]
                final(v)@.contains(y) <==> y <= u16::MAX && self.sends_to_channel(y as u16),
    {
        if self.talk_mode == TalkMode::Open || (self.talk_mode == TalkMode::Ptt
            && self.regular_talk_active) {
            add_ids(v, &self.tx, 0);
        }
        let ghost start = v@;
        let mut i: usize = 0;
        while i < self.buttons.len()
            invariant
                0 <= i <= self.buttons@.len(),
                increasing(v@),
                forall|y: u32| #[trigger]
                    v@.contains(y) <==> y <= u16::MAX && ((self.talks() && self.tx@.contains(
                        y as u16,
                    )) || self.buttons_reach_channel(i as int, y as u16)),
            decreases self.buttons@.len() - i,
        {
            let button = &self.buttons[i];
            let ghost before = v@;
            if text_in(&self.active_buttons, button.id.as_str()) {
                let mut j: usize = 0;
                while j < button.actions.len()
                    invariant
                        0 <= j <= button.actions@.len(),
                        increasing(v@),
                        forall|y: u32| #[trigger]
                            v@.contains(y) <==> (before.contains(y) || (y <= u16::MAX
                                && actions_reach_channel(button.actions@, j as int, y as u16))),
                    decreases button.actions@.len() - j,
                {
                    let ghost inner = v@;
                    match &button.actions[j] {
                        TalkButtonAction::Transmit { channels, .. } => {
                            add_ids(v, channels, 0);
                        },
                        _ => {},
                    }
                    proof {
                        let a = button.actions@;
                        assert forall|y: u32| #[trigger] v@.contains(y) <==> (before.contains(y)
                            || (y <= u16::MAX && actions_reach_channel(a, j + 1, y as u16))) by {
                            let c = y as u16;
                            if y <= u16::MAX && actions_reach_channel(a, j + 1, c) {
                                let k = choose|k: int|
                                    0 <= k < j + 1 && action_channels(#[trigger] a[k]).contains(c);
                                if k < j {
                                    assert(actions_reach_channel(a, j as int, c));
                                }
                            }
                            if v@.contains(y) && !inner.contains(y) {
                                assert(action_channels(a[j as int]).contains(c));
                            }
                            if y <= u16::MAX && actions_reach_channel(a, j as int, c) {
                                let k = choose|k: int|
                                    0 <= k < j && action_channels(#[trigger] a[k]).contains(c);
                                assert(action_channels(a[k]).contains(c));
                            }
                        }
                    }
                    j = j + 1;
                }
            }
            proof {
                let n = i as int;
                assert forall|y: u32| #[trigger] v@.contains(y) <==> y <= u16::MAX && ((
                self.talks() && self.tx@.contains(y as u16)) || self.buttons_reach_channel(
                    n + 1,
                    y as u16,
                )) by {
                    let c = y as u16;
                    if self.buttons_reach_channel(n + 1, c) {
                        let k = choose|k: int|
                            0 <= k < n + 1 && self.holds(#[trigger] self.buttons@[k])
                                && actions_reach_channel(
                                self.buttons@[k].actions@,
                                self.buttons@[k].actions@.len() as int,
                                c,
                            );
                        if k < n {
                            assert(self.holds(self.buttons@[k]));
                            assert(self.buttons_reach_channel(n, c));
                        }
                    }
                    if self.buttons_reach_channel(n, c) {
                        let k = choose|k: int|
                            0 <= k < n && self.holds(#[trigger] self.buttons@[k])
                                && actions_reach_channel(
                                self.buttons@[k].actions@,
                                self.buttons@[k].actions@.len() as int,
                                c,
                            );
                        assert(self.holds(self.buttons@[k]));
                        assert(self.buttons_reach_channel(n + 1, c));
                    }
                    if v@.contains(y) && !before.contains(y) {
                        assert(self.holds(self.buttons@[n]));
                        assert(self.buttons_reach_channel(n + 1, c));
                    }
                }
            }
            i = i + 1;
        }
    }

    /// The channels that the client transmits on, in increasing order.
    pub fn active_tx_channels(&self) -> (r: Vec<u16>)
        ensures
            channels_increase(r@),
            forall|c: u16| #[trigger] r@.contains(c) <==> self.sends_to_channel(c),
    {
        let mut ranks: Vec<u32> = Vec::new();
        self.add_channels(&mut ranks);
        let mut out: Vec<u16> = Vec::new();
        let mut i: usize = 0;
        proof {
            assert forall|k: int| 0 <= k < ranks@.len() implies #[trigger] ranks@[k]
                <= u16::MAX by {
                assert(ranks@.contains(ranks@[k]));
            }
        }
        while i < ranks.len()
            invariant
                0 <= i <= ranks@.len(),
                increasing(ranks@),
                forall|k: int| 0 <= k < ranks@.len() ==> #[trigger] ranks@[k] <= u16::MAX,
                out@.len() == i,
                forall|k: int| 0 <= k < i ==> #[trigger] out@[k] == ranks@[k],
            decreases ranks@.len() - i,
        {
            out.push(ranks[i] as u16);
            i = i + 1;
        }
        proof {
            assert forall|a: int, b: int| 0 <= a < b < out@.len() implies #[trigger] out@[a]
                < #[trigger] out@[b] by {
                assert(ranks@[a] < ranks@[b]);
            }
            assert forall|c: u16| #[trigger] out@.contains(c) <==> self.sends_to_channel(c) by {
                if out@.contains(c) {
                    let k = choose|k: int| 0 <= k < out@.len() && out@[k] == c;
                    assert(ranks@[k] == c as u32);
                    assert(ranks@.contains(c as u32));
                }
                if self.sends_to_channel(c) {
                    assert(ranks@.contains(c as u32));
                    let k = choose|k: int| 0 <= k < ranks@.len() && ranks@[k] == c as u32;
                    assert(out@[k] == c);
                }
            }
        }
        out
    }
}

/// Adds numbers, each raised by `base`, to a sorted set.
fn add_ids(v: &mut Vec<u32>, ids: &Vec<u16>, base: u32)
    requires
        increasing(old(v)@),
        base == 0 || base == 65_536,
    ensures
        increasing(final(v)@),
        forall|y: u32| #[trigger]
            final(v)@.contains(y) <==> (old(v)@.contains(y) || (base <= y <= base + u16::MAX
                && ids@.contains((y - base) as u16))),
{
    let ghost s = v@;
    let mut i: usize = 0;
    while i < ids.len()
        invariant
            0 <= i <= ids@.len(),
            base == 0 || base == 65_536,
            increasing(v@),
            forall|y: u32| #[trigger]
                v@.contains(y) <==> (s.contains(y) || (base <= y <= base + u16::MAX && ids@.take(
                    i as int,
                ).contains((y - base) as u16))),
        decreases ids@.len() - i,
    {
        add_rank(v, base + ids[i] as u32);
        proof {
            let p = ids@.take(i as int);
            let q = ids@.take(i + 1);
            assert(q =~= p.push(ids@[i as int]));
            assert forall|c: u16| #[trigger] q.contains(c) <==> (p.contains(c) || c
                == ids@[i as int]) by {
                if q.contains(c) {
                    let k = choose|k: int| 0 <= k < q.len() && q[k] == c;
                    if k < i {
                        assert(p[k] == c);
                    }
                }
                if p.contains(c) {
                    let k = choose|k: int| 0 <= k < p.len() && p[k] == c;
                    assert(q[k] == c);
                }
                assert(q[i as int] == ids@[i as int]);
            }
        }
        i = i + 1;
    }
    proof {
        assert(ids@.take(ids@.len() as int) =~= ids@);
    }
}


/// Adds the users that held buttons transmit to, and those called directly.
fn add_users(config: &ClientConfig, v: &mut Vec<u32>)
    requires
        increasing(old(v)@),
        forall|y: u32| #[trigger] old(v)@.contains(y) ==> y <= u16::MAX,
    ensures
        increasing(final(v)@),
        forall|y: u32| #[trigger]
            final(v)@.contains(y) <==> (old(v)@.contains(y) || (65_536 <= y < MIXED_RANK
                && config.sends_to(AudioTarget::Direct((y - 65_536) as u16)))),
{
    let ghost start = v@;
    let mut i: usize = 0;
    while i < config.active_direct_calls.len()
        invariant
            0 <= i <= config.active_direct_calls@.len(),
            increasing(v@),
            forall|y: u32| #[trigger]
                v@.contains(y) <==> (start.contains(y) || (65_536 <= y < MIXED_RANK
                    && config.calls_user(i as int, (y - 65_536) as u16))),
        decreases config.active_direct_calls@.len() - i,
    {
        let call = &config.active_direct_calls[i];
        let ghost before = v@;
        if call.caller == config.user_id && call.active {
            add_rank(v, 65_536 + call.target as u32);
        }
        proof {
            let n = i as int;
            let calls = config.active_direct_calls@;
            assert forall|y: u32| #[trigger] v@.contains(y) <==> (start.contains(y) || (65_536
                <= y < MIXED_RANK && config.calls_user(n + 1, (y - 65_536) as u16))) by {
                let u = (y - 65_536) as u16;
                if config.calls_user(n + 1, u) {
                    let k = choose|k: int|
                        0 <= k < n + 1 && (#[trigger] calls[k]).caller == config.user_id
                            && calls[k].active && calls[k].target == u;
                    if k < n {
                        assert(config.calls_user(n, u));
                    }
                }
                if config.calls_user(n, u) {
                    let k = choose|k: int|
                        0 <= k < n && (#[trigger] calls[k]).caller == config.user_id
                            && calls[k].active && calls[k].target == u;
                    assert(config.calls_user(n + 1, u)) by {
                        assert(calls[k].caller == config.user_id);
                    }
                }
                if v@.contains(y) && !before.contains(y) {
                    assert(calls[n].target == u);
                }
            }
        }
        i = i + 1;
    }
    let ghost called = v@;
    let mut b: usize = 0;
    while b < config.buttons.len()
        invariant
            0 <= b <= config.buttons@.len(),
            increasing(v@),
            forall|y: u32| #[trigger]
                v@.contains(y) <==> (called.contains(y) || (65_536 <= y < MIXED_RANK
                    && config.buttons_reach_user(b as int, (y - 65_536) as u16))),
        decreases config.buttons@.len() - b,
    {
        let button = &config.buttons[b];
        let ghost before = v@;
        if text_in(&config.active_buttons, button.id.as_str()) {
            let mut j: usize = 0;
            while j < button.actions.len()
                invariant
                    0 <= j <= button.actions@.len(),
                    increasing(v@),
                    forall|y: u32| #[trigger]
                        v@.contains(y) <==> (before.contains(y) || (65_536 <= y < MIXED_RANK
                            && actions_reach_user(
                            button.actions@,
                            j as int,
                            (y - 65_536) as u16,
                        ))),
                decreases button.actions@.len() - j,
            {
                let ghost inner = v@;
                match &button.actions[j] {
                    TalkButtonAction::Transmit { users, .. } => {
                        add_ids(v, users, 65_536);
                    },
                    _ => {},
                }
                proof {
                    let a = button.actions@;
                    let n = j as int;
                    assert forall|y: u32| #[trigger] v@.contains(y) <==> (before.contains(y) || (
                    65_536 <= y < MIXED_RANK && actions_reach_user(
                        a,
                        n + 1,
                        (y - 65_536) as u16,
                    ))) by {
                        let u = (y - 65_536) as u16;
                        if actions_reach_user(a, n + 1, u) {
                            let k = choose|k: int|
                                0 <= k < n + 1 && action_users(#[trigger] a[k]).contains(u);
                            if k < n {
                                assert(actions_reach_user(a, n, u));
                            }
                        }
                        if v@.contains(y) && !inner.contains(y) {
                            assert(action_users(a[n]).contains(u));
                        }
                        if actions_reach_user(a, n, u) {
                            let k = choose|k: int|
                                0 <= k < n && action_users(#[trigger] a[k]).contains(u);
                            assert(action_users(a[k]).contains(u));
                        }
                    }
                }
                j = j + 1;
            }
        }
        proof {
            let n = b as int;
            assert forall|y: u32| #[trigger] v@.contains(y) <==> (called.contains(y) || (65_536
                <= y < MIXED_RANK && config.buttons_reach_user(n + 1, (y - 65_536) as u16))) by {
                let u = (y - 65_536) as u16;
                if config.buttons_reach_user(n + 1, u) {
                    let k = choose|k: int|
                        0 <= k < n + 1 && config.holds(#[trigger] config.buttons@[k])
                            && actions_reach_user(
                            config.buttons@[k].actions@,
                            config.buttons@[k].actions@.len() as int,
                            u,
                        );
                    if k < n {
                        assert(config.holds(config.buttons@[k]));
                        assert(config.buttons_reach_user(n, u));
                    }
                }
                if config.buttons_reach_user(n, u) {
                    let k = choose|k: int|
                        0 <= k < n && config.holds(#[trigger] config.buttons@[k])
                            && actions_reach_user(
                            config.buttons@[k].actions@,
                            config.buttons@[k].actions@.len() as int,
                            u,
                        );
                    assert(config.holds(config.buttons@[k]));
                    assert(config.buttons_reach_user(n + 1, u));
                }
                if v@.contains(y) && !before.contains(y) {
                    assert(config.holds(config.buttons@[n]));
                    assert(config.buttons_reach_user(n + 1, u));
                }
            }
        }
        b = b + 1;
    }
}

/// The target with a given rank.
pub open spec fn ranked_target(y: u32) -> AudioTarget {
    if y < 65_536 {
        AudioTarget::Channel(y as u16)
    } else if y < MIXED_RANK {
        AudioTarget::Direct((y - 65_536) as u16)
    } else {
        AudioTarget::Mixed
    }
}

/// One of the buttons that a client knows, configured or offered, has the id.
pub open spec fn knows_button(config: ClientConfig, id: Seq<char>) -> bool {
    ||| exists|i: int| 0 <= i < config.buttons@.len() && (#[trigger] config.buttons@[i]).id@ == id
    ||| exists|i: int|
        0 <= i < config.advertised_buttons@.len() && (#[trigger] config.advertised_buttons@[i]).id@
            == id
}

impl ClientConfig {
    /// The targets that the client transmits to: channels, then users, then the mix.
    pub fn active_tx_targets(&self) -> (r: Vec<AudioTarget>)
        ensures
            targets_increase(r@),
            forall|t: AudioTarget| #[trigger] r@.contains(t) <==> self.sends_to(t),
    {
        let mut ranks: Vec<u32> = Vec::new();
        self.add_channels(&mut ranks);
        add_users(self, &mut ranks);
        let ghost below = ranks@;
        let announces = match &self.emergency {
            Some(e) => e.active && e.source == self.user_id,
            None => false,
        };
        if announces {
            add_rank(&mut ranks, MIXED_RANK);
        }
        proof {
            assert forall|y: u32| #[trigger] ranks@.contains(y) <==> y <= MIXED_RANK
                && self.sends_to(ranked_target(y)) by {}
            assert forall|k: int| 0 <= k < ranks@.len() implies #[trigger] ranks@[k]
                <= MIXED_RANK by {
                assert(ranks@.contains(ranks@[k]));
            }
        }
        let mut out: Vec<AudioTarget> = Vec::new();
        let mut i: usize = 0;
        while i < ranks.len()
            invariant
                0 <= i <= ranks@.len(),
                forall|k: int| 0 <= k < ranks@.len() ==> #[trigger] ranks@[k] <= MIXED_RANK,
                out@.len() == i,
                forall|k: int| 0 <= k < i ==> #[trigger] out@[k] == ranked_target(ranks@[k]),
            decreases ranks@.len() - i,
        {
            let y = ranks[i];
            if y < 65_536 {
                out.push(AudioTarget::Channel(y as u16));
            } else if y < MIXED_RANK {
                out.push(AudioTarget::Direct((y - 65_536) as u16));
            } else {
                out.push(AudioTarget::Mixed);
            }
            i = i + 1;
        }
        proof {
            assert forall|a: int, b: int| 0 <= a < b < out@.len() implies target_rank(
                #[trigger] out@[a],
            ) < target_rank(#[trigger] out@[b]) by {
                assert(ranks@[a] < ranks@[b]);
                assert(target_rank(ranked_target(ranks@[a])) == ranks@[a]);
                assert(target_rank(ranked_target(ranks@[b])) == ranks@[b]);
            }
            assert forall|t: AudioTarget| #[trigger] out@.contains(t) <==> self.sends_to(t) by {
                let y = target_rank(t);
                assert(ranked_target(y) == t);
                if out@.contains(t) {
                    let k = choose|k: int| 0 <= k < out@.len() && out@[k] == t;
                    assert(ranks@.contains(ranks@[k]));
                }
                if self.sends_to(t) {
                    assert(ranks@.contains(y));
                    let k = choose|k: int| 0 <= k < ranks@.len() && ranks@[k] == y;
                    assert(out@[k] == t);
                }
            }
        }
        out
    }

    /// Tells whether the client has a button with that id, configured or offered.
    pub fn button_known(&self, button_id: &str) -> (r: bool)
        ensures
            r == knows_button(*self, button_id@),
    {
        let mut i: usize = 0;
        while i < self.buttons.len()
            invariant
                0 <= i <= self.buttons@.len(),
                forall|j: int| 0 <= j < i ==> (#[trigger] self.buttons@[j]).id@ != button_id@,
            decreases self.buttons@.len() - i,
        {
            if same(self.buttons[i].id.as_str(), button_id) {
                return true;
            }
            i = i + 1;
        }
        let mut k: usize = 0;
        while k < self.advertised_buttons.len()
            invariant
                0 <= k <= self.advertised_buttons@.len(),
                forall|j: int|
                    0 <= j < k ==> (#[trigger] self.advertised_buttons@[j]).id@ != button_id@,
            decreases self.advertised_buttons@.len() - k,
        {
            if same(self.advertised_buttons[k].id.as_str(), button_id) {
                return true;
            }
            k = k + 1;
        }
        false
    }

    /// The message tells the server this client's routing.
    pub open spec fn told_by(self, message: ControlMessage) -> bool {
        message matches ControlMessage::Config(m) && {
            &&& m.user_id == self.user_id
            &&& m.role == Some(self.role)
            &&& m.name == (if is_blank(self.name@) {
                None
            } else {
                Some(self.name)
            })
            &&& m.listen@ == self.listen@
            &&& m.tx@ == self.tx@
            &&& m.vol.entries@ == self.vol.entries@
            &&& m.talker_vol is None
            &&& m.codec == Some(self.codec)
            &&& m.opus_profile == Some(self.opus_profile)
            &&& m.talk_mode == Some(self.talk_mode)
            &&& m.priority is None
            &&& m.priority_channels is None
            &&& m.ifb is None
        }
    }

    /// The message that tells the server this client's routing.
    pub fn control_message(&self) -> (r: ControlMessage)
        ensures
            self.told_by(r),
    {
        let name = if blank(self.name.as_str()) {
            None
        } else {
            Some(self.name.clone())
        };
        ControlMessage::Config(
            ConfigMessage {
                user_id: self.user_id,
                role: Some(self.role),
                name,
                listen: copy_ids(&self.listen),
                tx: copy_ids(&self.tx),
                vol: self.vol.copy(),
                talker_vol: None,
                codec: Some(self.codec),
                opus_profile: Some(self.opus_profile),
                talk_mode: Some(self.talk_mode),
                priority: None,
                priority_channels: None,
                ifb: None,
            },
        )
    }
}

// ---------------------------------------------------------------------------
// Events from the server
// ---------------------------------------------------------------------------

/// The configuration after the server pushed an update for this client. A codec
/// that this client cannot decode is not taken over, and an empty client id
/// leaves the old one.
pub open spec fn updated(config: ClientConfig, u: ConfigUpdate) -> ClientConfig {
    ClientConfig {
        client_uid: if u.client_uid@.len() == 0 {
            config.client_uid
        } else {
            u.client_uid
        },
        name: u.name,
        listen: u.listen,
        tx: u.tx,
        vol: u.vol,
        talker_vol: u.talker_vol,
        codec: if supports(u.codec) {
            u.codec
        } else {
            config.codec
        },
        opus_profile: if supports(u.codec) {
            u.opus_profile
        } else {
            config.opus_profile
        },
        talk_mode: u.talk_mode,
        last_non_muted_talk_mode: if u.talk_mode == TalkMode::Muted {
            config.last_non_muted_talk_mode
        } else {
            u.talk_mode
        },
        regular_talk_active: u.regular_talk_active,
        priority: u.priority,
        priority_channels: u.priority_channels,
        processing: u.processing,
        buttons: u.buttons,
        active_buttons: u.active_buttons,
        active_direct_calls: u.active_direct_calls,
        last_direct_caller: u.last_direct_caller,
        direct_call_history: u.direct_call_history,
        active_alerts: u.active_alerts,
        recent_alerts: u.recent_alerts,
        emergency: u.emergency,
        ifb: u.ifb,
        lockout: u.lockout,
        stereo: u.stereo,
        esp32_audio: u.esp32_audio,
        ..config
    }
}

/// The configuration after an event. Events for another user change nothing.
pub open spec fn after_event(config: ClientConfig, event: ControlEvent) -> ClientConfig {
    match event {
        ControlEvent::PresenceUpdate { user_id, channels, .. } => if user_id == config.user_id {
            ClientConfig { channel_rosters: channels, ..config }
        } else {
            config
        },
        ControlEvent::ConfigUpdate(u) => if u.user_id == config.user_id {
            updated(config, u)
        } else {
            config
        },
    }
}

/// Applies an event from the server.
pub fn apply_control_event(config: &mut ClientConfig, event: ControlEvent)
    ensures
        *final(config) == after_event(*old(config), event),
{
    match event {
        ControlEvent::PresenceUpdate { user_id, client_uid: _, channels } => {
            if config.user_id != user_id {
                return;
            }
            config.channel_rosters = channels;
        },
        ControlEvent::ConfigUpdate(u) => {
            if config.user_id != u.user_id {
                return;
            }
            if !u.client_uid.as_str().is_empty() {
                config.client_uid = u.client_uid;
            }
            config.listen = u.listen;
            config.name = u.name;
            config.tx = u.tx;
            config.vol = u.vol;
            config.talker_vol = u.talker_vol;
            if codec_supported(u.codec) {
                config.codec = u.codec;
                config.opus_profile = u.opus_profile;
            }
            config.set_talk_mode(u.talk_mode);
            config.regular_talk_active = u.regular_talk_active;
            config.priority = u.priority;
            config.priority_channels = u.priority_channels;
            config.processing = u.processing;
            config.buttons = u.buttons;
            config.active_buttons = u.active_buttons;
            config.active_direct_calls = u.active_direct_calls;
            config.last_direct_caller = u.last_direct_caller;
            config.direct_call_history = u.direct_call_history;
            config.active_alerts = u.active_alerts;
            config.recent_alerts = u.recent_alerts;
            config.emergency = u.emergency;
            config.ifb = u.ifb;
            config.lockout = u.lockout;
            config.stereo = u.stereo;
            config.esp32_audio = u.esp32_audio;
        },
    }
}

// ---------------------------------------------------------------------------
// Laws
// ---------------------------------------------------------------------------

/// An event for another user leaves the configuration as it is.
pub proof fn foreign_events_change_nothing(config: ClientConfig, event: ControlEvent)
    requires
        match event {
            ControlEvent::PresenceUpdate { user_id, .. } => user_id != config.user_id,
            ControlEvent::ConfigUpdate(u) => u.user_id != config.user_id,
        },
    ensures
        after_event(config, event) == config,
{
}

/// A client whose codec is supported never ends up with one that is not.
pub proof fn events_keep_the_codec_supported(config: ClientConfig, event: ControlEvent)
    requires
        supports(config.codec),
    ensures
        supports(after_event(config, event).codec),
{
}

/// An event never changes who the client is to the server, its role, or the
/// buttons that it offers.
pub proof fn events_keep_the_identity(config: ClientConfig, event: ControlEvent)
    ensures
        after_event(config, event).user_id == config.user_id,
        after_event(config, event).role == config.role,
        after_event(config, event).advertised_buttons == config.advertised_buttons,
{
}

/// The configuration after the talk mode was set.
pub open spec fn with_talk_mode(config: ClientConfig, mode: TalkMode) -> ClientConfig {
    ClientConfig {
        talk_mode: mode,
        last_non_muted_talk_mode: if mode == TalkMode::Muted {
            config.last_non_muted_talk_mode
        } else {
            mode
        },
        ..config
    }
}

/// Muting and then unmuting goes back to the mode in use before, and touches
/// nothing else: neither the channels nor the mode to go back to.
pub proof fn unmuting_restores_the_mode(config: ClientConfig, mode: TalkMode)
    requires
        mode != TalkMode::Muted,
    ensures
        ({
            let talking = with_talk_mode(config, mode);
            let muted = with_talk_mode(talking, TalkMode::Muted);
            &&& muted.tx == config.tx
            &&& muted.unmuted_mode() == mode
            &&& with_talk_mode(muted, muted.unmuted_mode()) == talking
        }),
{
}

/// A muted client that holds no button, is in no call and announces no
/// emergency transmits to nobody.
pub proof fn muted_clients_are_silent(config: ClientConfig, target: AudioTarget)
    requires
        config.talk_mode == TalkMode::Muted,
        config.active_buttons@.len() == 0,
        config.active_direct_calls@.len() == 0,
        config.emergency is None,
    ensures
        !config.sends_to(target),
{
    assert forall|i: int| 0 <= i < config.buttons@.len() implies !config.holds(
        #[trigger] config.buttons@[i],
    ) by {}
}

} // verus!
