//! What commands and keys do.

use vstd::prelude::*;

use crate::commands::{
    apply_runtime_command, asks_for_help, command_message, command_rest, hotkey_message,
    last_binding, parse_action_active, parse_bool, parse_duck_flag, parse_talk_mode, ButtonArg,
    ButtonKeyArg, CommandUpdate, KeyStroke,
};
use crate::config::ClientConfig;
use crate::gain::Gain;
use crate::laws::text::{is_word, lemma_blank, lemma_words_are_words, lemma_words_of_join};
use crate::protocol::{ControlMessage, DirectCallStatus, TalkMode};
use crate::routing::channels_text;
use crate::text::{ascii_lowercase, decimal, is_space, lemma_trim_keeps, trim, words};

verus! {

// ---------------------------------------------------------------------------
// Words
// ---------------------------------------------------------------------------

/// The words for what begins: a button that goes down, a call that is made.
pub open spec fn begins(w: Seq<char>) -> bool {
    w == "down"@ || w == "press"@ || w == "on"@ || w == "toggle"@
}

/// The words for what ends: a button that comes up, a call that is over.
pub open spec fn ends(w: Seq<char>) -> bool {
    w == "up"@ || w == "release"@ || w == "off"@
}

proof fn lemma_actions(w: Seq<char>)
    ensures
        begins(w) ==> crate::commands::action_of(w) == Some(true),
        ends(w) ==> crate::commands::action_of(w) == Some(false),
        !begins(w) && !ends(w) ==> crate::commands::action_of(w) is None,
        !(begins(w) && ends(w)),
{
    reveal_strlit("down");
    reveal_strlit("press");
    reveal_strlit("on");
    reveal_strlit("toggle");
    reveal_strlit("up");
    reveal_strlit("release");
    reveal_strlit("off");
    assert("down"@.len() == 4 && "press"@.len() == 5 && "on"@.len() == 2 && "toggle"@.len() == 6);
    assert("up"@.len() == 2 && "release"@.len() == 7 && "off"@.len() == 3);
    assert("on"@[0] == 'o' && "up"@[0] == 'u');
}

/// The words for on and off differ, and so do the names of the talk modes.
proof fn lemma_values()
    ensures
        "on"@.len() == 2 && "true"@.len() == 4 && "1"@.len() == 1,
        "off"@.len() == 3 && "false"@.len() == 5 && "0"@.len() == 1,
        "1"@[0] == '1' && "0"@[0] == '0',
        "muted"@.len() == 5 && "mute"@.len() == 4 && "ptt"@.len() == 3 && "open"@.len() == 4,
        "mute"@[0] == 'm' && "open"@[0] == 'o',
        "duck"@.len() == 4 && "no-duck"@.len() == 7,
{
    reveal_strlit("on");
    reveal_strlit("true");
    reveal_strlit("1");
    reveal_strlit("off");
    reveal_strlit("false");
    reveal_strlit("0");
    reveal_strlit("muted");
    reveal_strlit("mute");
    reveal_strlit("ptt");
    reveal_strlit("open");
    reveal_strlit("duck");
    reveal_strlit("no-duck");
}

/// The first words of commands differ.
proof fn lemma_names()
    ensures
        "tx"@.len() == 2,
        "listen"@.len() == 6 && "listen"@[0] == 'l',
        "vol"@.len() == 3,
        "mute"@.len() == 4 && "mute"@[0] == 'm' && "mute"@[1] == 'u',
        "unmute"@.len() == 6 && "unmute"@[0] == 'u',
        "talk-mode"@.len() == 9,
        "mode"@.len() == 4 && "mode"@[0] == 'm' && "mode"@[1] == 'o',
        "talk"@.len() == 4 && "talk"@[0] == 't',
        "button"@.len() == 6 && "button"@[0] == 'b',
        "call"@.len() == 4 && "call"@[0] == 'c',
        "reply"@.len() == 5 && "reply"@[0] == 'r',
        "buttons"@.len() == 7,
        "calls"@.len() == 5 && "calls"@[0] == 'c',
        "show"@.len() == 4 && "show"@[0] == 's',
        "help"@.len() == 4 && "help"@[0] == 'h',
{
    reveal_strlit("tx");
    reveal_strlit("listen");
    reveal_strlit("vol");
    reveal_strlit("mute");
    reveal_strlit("unmute");
    reveal_strlit("talk-mode");
    reveal_strlit("mode");
    reveal_strlit("talk");
    reveal_strlit("button");
    reveal_strlit("call");
    reveal_strlit("reply");
    reveal_strlit("buttons");
    reveal_strlit("calls");
    reveal_strlit("show");
    reveal_strlit("help");
}

/// What follows the name of a command is read as the other words.
proof fn lemma_rest(command: Seq<char>)
    requires
        words(command).len() > 0,
    ensures
        words(command_rest(command)) == words(command).skip(1),
        words(command).len() == 2 ==> command_rest(command) == words(command)[1],
        words(command).len() == 1 ==> command_rest(command).len() == 0,
{
    lemma_words_are_words(command);
    let w = words(command).skip(1);
    assert forall|i: int| 0 <= i < w.len() implies is_word(#[trigger] w[i]) by {
        assert(w[i] == words(command)[i + 1]);
    }
    lemma_words_of_join(w);
}

/// A word is read as what begins or what ends, or not at all.
pub proof fn actions_begin_or_end(action: &str, r: Result<bool, String>)
    requires
        call_ensures(parse_action_active, (action,), r),
    ensures
        begins(action@) ==> r == Ok::<bool, String>(true),
        ends(action@) ==> r == Ok::<bool, String>(false),
        !begins(action@) && !ends(action@) ==> r is Err,
{
    lemma_actions(action@);
}

/// `on`, `true` and `1` are on, `off`, `false` and `0` are off, whatever white space
/// stands around them, and nothing else is either.
pub proof fn switches_are_on_or_off(value: &str, r: Result<bool, String>, v: Seq<char>)
    requires
        call_ensures(parse_bool, (value,), r),
        v == trim(value@),
    ensures
        r == Ok::<bool, String>(true) <==> v == "on"@ || v == "true"@ || v == "1"@,
        r == Ok::<bool, String>(false) <==> v == "off"@ || v == "false"@ || v == "0"@,
{
    lemma_values();
}

/// A talk mode is read by its name, in large or small letters.
pub proof fn modes_are_read_by_name(value: &str, r: Result<TalkMode, String>, v: Seq<char>)
    requires
        call_ensures(parse_talk_mode, (value,), r),
        v == ascii_lowercase(trim(value@)),
    ensures
        r == Ok::<TalkMode, String>(TalkMode::Muted) <==> v == "muted"@ || v == "mute"@,
        r == Ok::<TalkMode, String>(TalkMode::Ptt) <==> v == "ptt"@,
        r == Ok::<TalkMode, String>(TalkMode::Open) <==> v == "open"@,
{
    lemma_values();
}

/// Other audio is ducked only where it is said.
pub proof fn ducking_is_asked_for(value: Option<&str>, r: Result<bool, String>)
    requires
        call_ensures(parse_duck_flag, (value,), r),
    ensures
        r == Ok::<bool, String>(true) <==> value is Some && value->Some_0@ == "duck"@,
        r == Ok::<bool, String>(false) <==> value is None || value->Some_0@ == "no-duck"@,
{
    lemma_values();
}

// ---------------------------------------------------------------------------
// Calls, replies and buttons
// ---------------------------------------------------------------------------

/// A call that is made is asked for as one, and a call that is ended as an end: never
/// the other way round. It goes to the user named, and ducks where that is said.
pub proof fn calls_begin_and_end_as_told(
    config: &mut ClientConfig,
    command: &str,
    gains: Vec<Option<Gain>>,
    r: Result<CommandUpdate, String>,
    target: u16,
    action: Seq<char>,
)
    requires
        call_ensures(apply_runtime_command, (config, command, &gains), r),
        words(command@).len() == 3 || (words(command@).len() == 4 && (words(command@)[3]
            == "duck"@ || words(command@)[3] == "no-duck"@)),
        words(command@)[0] == "call"@,
        words(command@)[1] == decimal(target as nat),
        words(command@)[2] == action,
    ensures
        ({
            let duck = words(command@).len() == 4 && words(command@)[3] == "duck"@;
            &&& begins(action) ==> r == Ok::<CommandUpdate, String>(
                CommandUpdate::SendDirectCall { target_user_id: target, active: true, duck },
            )
            &&& ends(action) ==> r == Ok::<CommandUpdate, String>(
                CommandUpdate::SendDirectCall { target_user_id: target, active: false, duck },
            )
            &&& !begins(action) && !ends(action) ==> r is Err
        }),
        *final(config) == *old(config),
{
    lemma_names();
    lemma_actions(action);
    lemma_rest(command@);
    let w = words(command@).skip(1);
    assert(w[0] == words(command@)[1] && w[1] == words(command@)[2]);
    if w.len() == 3 {
        assert(w[2] == words(command@)[3]);
    }
    lemma_values();
    crate::text::decimal_round_trip(target as nat, u16::MAX as nat);
}

/// A reply is begun and ended as the word says.
pub proof fn replies_begin_and_end_as_told(
    config: &mut ClientConfig,
    command: &str,
    gains: Vec<Option<Gain>>,
    r: Result<CommandUpdate, String>,
    action: Seq<char>,
)
    requires
        call_ensures(apply_runtime_command, (config, command, &gains), r),
        words(command@).len() == 2 || (words(command@).len() == 3 && (words(command@)[2]
            == "duck"@ || words(command@)[2] == "no-duck"@)),
        words(command@)[0] == "reply"@,
        words(command@)[1] == action,
    ensures
        ({
            let duck = words(command@).len() == 3 && words(command@)[2] == "duck"@;
            &&& begins(action) ==> r == Ok::<CommandUpdate, String>(
                CommandUpdate::SendReplyCall { active: true, duck },
            )
            &&& ends(action) ==> r == Ok::<CommandUpdate, String>(
                CommandUpdate::SendReplyCall { active: false, duck },
            )
            &&& !begins(action) && !ends(action) ==> r is Err
        }),
        *final(config) == *old(config),
{
    lemma_names();
    lemma_actions(action);
    lemma_rest(command@);
    let w = words(command@).skip(1);
    assert(w[0] == words(command@)[1]);
    if w.len() == 2 {
        assert(w[1] == words(command@)[2]);
    }
    lemma_values();
}

/// A button that the client knows is pressed and released as the word says; one that
/// it does not know is refused.
pub proof fn buttons_are_pressed_as_told(
    config: &mut ClientConfig,
    command: &str,
    gains: Vec<Option<Gain>>,
    r: Result<CommandUpdate, String>,
    id: Seq<char>,
    action: Seq<char>,
    i: int,
)
    requires
        call_ensures(apply_runtime_command, (config, command, &gains), r),
        words(command@).len() == 3,
        words(command@)[0] == "button"@,
        words(command@)[1] == id,
        words(command@)[2] == action,
    ensures
        *final(config) == *old(config),
        ({
            let c = *old(config);
            let known = (0 <= i < c.buttons@.len() && c.buttons@[i].id@ == id) || (0 <= i
                < c.advertised_buttons@.len() && c.advertised_buttons@[i].id@ == id);
            known && (begins(action) || ends(action)) ==> (r matches Ok(
                CommandUpdate::SendButton { button_id, pressed },
            ) && button_id@ == id && pressed == begins(action))
        }),
        r is Ok ==> begins(action) || ends(action),
        (forall|k: int| 0 <= k < old(config).buttons@.len() ==> (#[trigger] old(
            config,
        ).buttons@[k]).id@ != id) && (forall|k: int|
            0 <= k < old(config).advertised_buttons@.len() ==> (#[trigger] old(
                config,
            ).advertised_buttons@[k]).id@ != id) ==> r is Err,
{
    lemma_names();
    lemma_actions(action);
    lemma_rest(command@);
    let w = words(command@).skip(1);
    assert(w[0] == words(command@)[1] && w[1] == words(command@)[2]);
}

/// Too few or too many words on a call, a reply or a button are refused.
pub proof fn incomplete_commands_are_refused(
    config: &mut ClientConfig,
    command: &str,
    gains: Vec<Option<Gain>>,
    r: Result<CommandUpdate, String>,
)
    requires
        call_ensures(apply_runtime_command, (config, command, &gains), r),
        words(command@).len() > 0,
    ensures
        words(command@)[0] == "call"@ && (words(command@).len() < 3 || words(command@).len() > 4)
            ==> r is Err,
        words(command@)[0] == "reply"@ && (words(command@).len() < 2 || words(command@).len() > 3)
            ==> r is Err,
        words(command@)[0] == "button"@ && words(command@).len() != 3 ==> r is Err,
        r is Err ==> *final(config) == *old(config),
{
    lemma_names();
    lemma_rest(command@);
}

// ---------------------------------------------------------------------------
// Channels, modes and talking
// ---------------------------------------------------------------------------

/// Channels that are given for transmitting become those transmitted on, and channels
/// that are given for listening those listened to: neither touches the other.
pub proof fn channels_become_those_given(
    config: &mut ClientConfig,
    command: &str,
    gains: Vec<Option<Gain>>,
    r: Result<CommandUpdate, String>,
    ids: Seq<u16>,
)
    requires
        call_ensures(apply_runtime_command, (config, command, &gains), r),
        (words(command@).len() == 2 && ids.len() > 0 && words(command@)[1] == channels_text(ids))
            || (words(command@).len() == 1 && ids.len() == 0),
    ensures
        words(command@)[0] == "tx"@ ==> r == Ok::<CommandUpdate, String>(CommandUpdate::SendConfig)
            && final(config).tx@ == ids && *final(config) == (ClientConfig {
            tx: final(config).tx,
            ..*old(config)
        }),
        words(command@)[0] == "listen"@ ==> r == Ok::<CommandUpdate, String>(
            CommandUpdate::SendConfig,
        ) && final(config).listen@ == ids && *final(config) == (ClientConfig {
            listen: final(config).listen,
            ..*old(config)
        }),
{
    lemma_names();
    lemma_rest(command@);
    if ids.len() > 0 {
        crate::routing::channels_round_trip(ids);
    } else {
        lemma_blank(command_rest(command@));
        assert(ids =~= Seq::<u16>::empty());
    }
}

/// A volume that is given becomes that of the channel, and the only one.
pub proof fn volumes_become_those_given(
    config: &mut ClientConfig,
    command: &str,
    gains: Vec<Option<Gain>>,
    r: Result<CommandUpdate, String>,
    channel: u16,
    text: Seq<char>,
    gain: Gain,
)
    requires
        call_ensures(apply_runtime_command, (config, command, &gains), r),
        words(command@).len() == 2,
        words(command@)[0] == "vol"@,
        words(command@)[1] == decimal(channel as nat) + seq!['='] + text,
        !text.contains(','),
        gains@ == seq![Some(gain)],
    ensures
        r == Ok::<CommandUpdate, String>(CommandUpdate::SendConfig),
        final(config).vol@ == Map::<u16, Gain>::empty().insert(channel, gain),
        *final(config) == (ClientConfig { vol: final(config).vol, ..*old(config) }),
{
    lemma_names();
    lemma_rest(command@);
    lemma_words_are_words(command@);
    let rest = command_rest(command@);
    assert(is_word(words(command@)[1]));
    lemma_blank(rest);
    assert(!is_space(rest[0]));
    let d = decimal(channel as nat);
    crate::text::decimal_round_trip(channel as nat, u16::MAX as nat);
    assert(!rest.contains(',')) by {
        if rest.contains(',') {
            let k = choose|k: int| 0 <= k < rest.len() && rest[k] == ',';
            if k < d.len() {
                assert(crate::text::is_digit(d[k]));
            } else if k > d.len() {
                assert(text[k - d.len() - 1] == ',');
            }
        }
    }
    assert(seq![rest][0] == rest);
    assert forall|i: int| 0 <= i < seq![rest].len() implies !(#[trigger] seq![rest][i]).contains(
        ',',
    ) by {}
    crate::laws::text::lemma_join_split(seq![rest], ',');
    let e = crate::routing::volume_entries(rest);
    assert(e == seq![rest]);
    assert(e.drop_last() =~= Seq::<Seq<char>>::empty());
    let n = d.len() as int;
    crate::text::lemma_index_from(rest, '=', 0);
    let k = crate::text::index_from(rest, '=', 0);
    assert(rest[n] == '=');
    if k < n {
        assert(rest[k] == d[k]);
        assert(crate::text::is_digit(d[k]));
    }
    assert(k == n);
    assert(rest.take(k) =~= d);
    assert forall|j: int| 0 <= j < d.len() implies !is_space(#[trigger] d[j]) by {
        assert(crate::text::is_digit(d[j]));
    }
    assert(!is_space(d[0]) && !is_space(d[d.len() - 1]));
    lemma_trim_keeps(d);
    assert(gains@[0] == Some(gain));
    let head = crate::routing::volumes_of(e.drop_last(), gains@);
    assert(head == Ok::<Map<u16, Gain>, crate::routing::VolumeFault>(Map::empty()));
    assert(crate::routing::volume_entry(rest, Some(gain)) == Ok::<
        (u16, Gain),
        crate::routing::VolumeFault,
    >((channel, gain)));
}

/// Muting mutes and stops talking; unmuting goes back to a mode that does not mute; a
/// mode that is named is set. The mode to go back to is the last that did not mute.
pub proof fn modes_are_set_as_told(
    config: &mut ClientConfig,
    command: &str,
    gains: Vec<Option<Gain>>,
    r: Result<CommandUpdate, String>,
)
    requires
        call_ensures(apply_runtime_command, (config, command, &gains), r),
        words(command@).len() > 0,
    ensures
        words(command@)[0] == "mute"@ ==> r == Ok::<CommandUpdate, String>(
            CommandUpdate::SendTalkMode,
        ) && final(config).talk_mode == TalkMode::Muted && !final(config).regular_talk_active
            && final(config).last_non_muted_talk_mode == old(config).last_non_muted_talk_mode,
        words(command@)[0] == "unmute"@ ==> r == Ok::<CommandUpdate, String>(
            CommandUpdate::SendTalkMode,
        ) && final(config).talk_mode != TalkMode::Muted && final(config).talk_mode
            == final(config).last_non_muted_talk_mode && (old(config).last_non_muted_talk_mode
            != TalkMode::Muted ==> final(config).talk_mode == old(config).last_non_muted_talk_mode)
            && final(config).regular_talk_active == old(config).regular_talk_active,
        words(command@)[0] == "mute"@ || words(command@)[0] == "unmute"@ ==> final(config).tx
            == old(config).tx && final(config).listen == old(config).listen && final(config).vol
            == old(config).vol,
{
    lemma_names();
}

/// A talk mode that is named is set, by either name of the command.
pub proof fn named_modes_are_set(
    config: &mut ClientConfig,
    command: &str,
    gains: Vec<Option<Gain>>,
    r: Result<CommandUpdate, String>,
    name: Seq<char>,
)
    requires
        call_ensures(apply_runtime_command, (config, command, &gains), r),
        words(command@).len() == 2,
        words(command@)[0] == "mode"@ || words(command@)[0] == "talk-mode"@,
        name == ascii_lowercase(words(command@)[1]),
    ensures
        name == "open"@ ==> r is Ok && final(config).talk_mode == TalkMode::Open
            && final(config).last_non_muted_talk_mode == TalkMode::Open,
        name == "ptt"@ ==> r is Ok && final(config).talk_mode == TalkMode::Ptt
            && final(config).last_non_muted_talk_mode == TalkMode::Ptt,
        name == "muted"@ || name == "mute"@ ==> r is Ok && final(config).talk_mode
            == TalkMode::Muted && final(config).last_non_muted_talk_mode == old(
            config,
        ).last_non_muted_talk_mode,
        r is Ok ==> r->Ok_0 is SendTalkMode && (name == "open"@ || name == "ptt"@ || name
            == "muted"@ || name == "mute"@),
        *final(config) == (ClientConfig {
            talk_mode: final(config).talk_mode,
            last_non_muted_talk_mode: final(config).last_non_muted_talk_mode,
            ..*old(config)
        }),
{
    lemma_names();
    lemma_rest(command@);
    lemma_words_are_words(command@);
    assert(is_word(words(command@)[1]));
    lemma_trim_keeps(words(command@)[1]);
    lemma_values();
}

/// Talking is switched on and off as told, and the mode stays.
pub proof fn talking_is_switched_as_told(
    config: &mut ClientConfig,
    command: &str,
    gains: Vec<Option<Gain>>,
    r: Result<CommandUpdate, String>,
    v: Seq<char>,
)
    requires
        call_ensures(apply_runtime_command, (config, command, &gains), r),
        words(command@).len() == 2,
        words(command@)[0] == "talk"@,
        v == words(command@)[1],
    ensures
        v == "on"@ || v == "true"@ || v == "1"@ ==> final(config).regular_talk_active && r == Ok::<
            CommandUpdate,
            String,
        >(CommandUpdate::SendTalk { active: true }),
        v == "off"@ || v == "false"@ || v == "0"@ ==> !final(config).regular_talk_active && r
            == Ok::<CommandUpdate, String>(CommandUpdate::SendTalk { active: false }),
        *final(config) == (ClientConfig {
            regular_talk_active: final(config).regular_talk_active,
            ..*old(config)
        }),
        r is Err ==> *final(config) == *old(config),
{
    lemma_names();
    lemma_rest(command@);
    lemma_words_are_words(command@);
    assert(is_word(words(command@)[1]));
    lemma_trim_keeps(words(command@)[1]);
    lemma_values();
}

/// Commands that show something change nothing, and a name that no command has is
/// refused.
pub proof fn showing_changes_nothing(
    config: &mut ClientConfig,
    command: &str,
    gains: Vec<Option<Gain>>,
    r: Result<CommandUpdate, String>,
    help: bool,
)
    requires
        call_ensures(apply_runtime_command, (config, command, &gains), r),
        call_ensures(asks_for_help, (command,), help),
    ensures
        words(command@).len() == 0 ==> r == Ok::<CommandUpdate, String>(CommandUpdate::Show)
            && !help,
        words(command@).len() > 0 && (words(command@)[0] == "show"@ || words(command@)[0]
            == "help"@ || words(command@)[0] == "buttons"@ || words(command@)[0] == "calls"@)
            ==> r == Ok::<CommandUpdate, String>(CommandUpdate::Show),
        r == Ok::<CommandUpdate, String>(CommandUpdate::Show) ==> *final(config) == *old(config),
        help <==> words(command@).len() > 0 && words(command@)[0] == "help"@,
        r is Ok && words(command@).len() > 0 ==> {
            let name = words(command@)[0];
            ||| name == "tx"@ || name == "listen"@ || name == "vol"@ || name == "mute"@
            ||| name == "unmute"@ || name == "mode"@ || name == "talk-mode"@ || name == "talk"@
            ||| name == "button"@ || name == "call"@ || name == "reply"@ || name == "buttons"@
            ||| name == "calls"@ || name == "show"@ || name == "help"@
        },
{
    lemma_names();
}

// ---------------------------------------------------------------------------
// Messages and keys
// ---------------------------------------------------------------------------

/// The server is told of a command in the name of this client, with what the command
/// asks for; it is told nothing of showing the state.
pub proof fn commands_are_told_to_the_server(
    config: ClientConfig,
    update: CommandUpdate,
    r: Option<ControlMessage>,
)
    requires
        call_ensures(command_message, (&config, update), r),
    ensures
        r is None <==> update is Show,
        match update {
            CommandUpdate::SendConfig => r matches Some(ControlMessage::Config(m)) && m.user_id
                == config.user_id && m.listen@ == config.listen@ && m.tx@ == config.tx@ && m.vol@
                == config.vol@ && m.codec == Some(config.codec) && m.talk_mode == Some(
                config.talk_mode,
            ),
            CommandUpdate::SendTalkMode => r matches Some(ControlMessage::TalkMode { user_id, mode })
                && user_id == config.user_id && mode == config.talk_mode,
            CommandUpdate::SendTalk { active } => r matches Some(
                ControlMessage::Talk { user_id, active: a },
            ) && user_id == config.user_id && a == active,
            CommandUpdate::SendButton { button_id, pressed } => r matches Some(
                ControlMessage::Button { user_id, button_id: b, pressed: p },
            ) && user_id == config.user_id && b == button_id && p == pressed,
            CommandUpdate::SendDirectCall { target_user_id, active, duck } => r matches Some(
                ControlMessage::DirectCall { user_id, target_user_id: t, active: a, duck: d },
            ) && user_id == config.user_id && t == target_user_id && a == active && d == duck,
            CommandUpdate::SendReplyCall { active, duck } => r matches Some(
                ControlMessage::ReplyCall { user_id, active: a, duck: d },
            ) && user_id == config.user_id && a == active && d == duck,
            CommandUpdate::Show => true,
        },
{
}

proof fn lemma_last_binding(s: Seq<ButtonKeyArg>, key: char, n: int)
    requires
        0 <= n <= s.len(),
    ensures
        -1 <= last_binding(s, key, n) < n || n == 0 && last_binding(s, key, n) == -1,
        last_binding(s, key, n) >= 0 ==> s[last_binding(s, key, n)].key == key,
        forall|j: int| last_binding(s, key, n) < j < n ==> (#[trigger] s[j]).key != key,
    decreases n,
{
    if n > 0 && s[n - 1].key != key {
        lemma_last_binding(s, key, n - 1);
    }
}

/// A key presses its button when it goes down and releases it when it comes up; the
/// last binding of a key counts.
pub proof fn keys_press_and_release_their_button(
    bindings: Vec<ButtonKeyArg>,
    key: char,
    stroke: KeyStroke,
    user_id: u16,
    r: Option<ControlMessage>,
    k: int,
)
    requires
        call_ensures(hotkey_message, (&bindings, key, stroke, user_id), r),
        0 <= k < bindings@.len(),
        bindings@[k].key == key,
        forall|j: int| k < j < bindings@.len() ==> (#[trigger] bindings@[j]).key != key,
    ensures
        stroke == KeyStroke::Press ==> r == Some(
            ControlMessage::Button { user_id, button_id: bindings@[k].button_id, pressed: true },
        ),
        stroke == KeyStroke::Release ==> r == Some(
            ControlMessage::Button { user_id, button_id: bindings@[k].button_id, pressed: false },
        ),
        stroke == KeyStroke::Repeat ==> r is None,
{
    lemma_last_binding(bindings@, key, bindings@.len() as int);
    let l = last_binding(bindings@, key, bindings@.len() as int);
    if l < k {
        assert(bindings@[k].key != key);
    }
    if l > k {
        assert(bindings@[l].key != key);
    }
}

/// A key that is bound to nothing asks for nothing.
pub proof fn other_keys_ask_for_nothing(
    bindings: Vec<ButtonKeyArg>,
    key: char,
    stroke: KeyStroke,
    user_id: u16,
    r: Option<ControlMessage>,
)
    requires
        call_ensures(hotkey_message, (&bindings, key, stroke, user_id), r),
        forall|j: int| 0 <= j < bindings@.len() ==> (#[trigger] bindings@[j]).key != key,
    ensures
        r is None,
{
    lemma_last_binding(bindings@, key, bindings@.len() as int);
}

/// A button on the command line has the id before the equals sign and the label
/// behind it, or its id as the label where there is none.
pub proof fn button_arguments_are_read(
    value: &str,
    r: Result<ButtonArg, String>,
    id: Seq<char>,
    label: Seq<char>,
)
    requires
        call_ensures(ButtonArg::parse, (value,), r),
        !id.contains('='),
        id.len() > 0 && !is_space(id[0]) && !is_space(id.last()),
    ensures
        value@ == id ==> r is Ok && r->Ok_0.id@ == id && r->Ok_0.label@ == id,
        value@ == id + seq!['='] + label && label.len() == 0 ==> r is Ok && r->Ok_0.id@ == id
            && r->Ok_0.label@ == id,
        value@ == id + seq!['='] + label && label.len() > 0 && !is_space(label[0]) && !is_space(
            label.last(),
        ) ==> r is Ok && r->Ok_0.id@ == id && r->Ok_0.label@ == label,
{
    lemma_trim_keeps(id);
    crate::text::lemma_index_from(value@, '=', 0);
    let k = crate::text::index_from(value@, '=', 0);
    if value@ == id {
        if k < value@.len() {
            assert(id[k] == '=');
        }
    }
    if value@ == id + seq!['='] + label {
        let n = id.len() as int;
        assert(value@[n] == '=');
        if k < n {
            assert(id[k] == value@[k]);
        }
        assert(value@.take(n) =~= id);
        assert(value@.skip(n + 1) =~= label);
        lemma_blank(label);
        if label.len() > 0 && !is_space(label[0]) && !is_space(label.last()) {
            lemma_trim_keeps(label);
        }
    }
}

/// A key is bound to the button before the equals sign; it is the one character
/// behind it.
pub proof fn key_arguments_are_read(
    value: &str,
    r: Result<ButtonKeyArg, String>,
    id: Seq<char>,
    key: char,
)
    requires
        call_ensures(ButtonKeyArg::parse, (value,), r),
        !id.contains('='),
        id.len() > 0 && !is_space(id[0]) && !is_space(id.last()),
        !is_space(key),
    ensures
        value@ == id + seq!['=', key] ==> r is Ok && r->Ok_0.button_id@ == id && r->Ok_0.key
            == key,
        !value@.contains('=') ==> r is Err,
{
    lemma_trim_keeps(id);
    crate::text::lemma_index_from(value@, '=', 0);
    let k = crate::text::index_from(value@, '=', 0);
    if value@ == id + seq!['=', key] {
        let n = id.len() as int;
        assert(value@[n] == '=');
        if k < n {
            assert(id[k] == value@[k]);
        }
        assert(value@.take(n) =~= id);
        assert(value@.skip(n + 1) =~= seq![key]);
        lemma_blank(seq![key]);
        assert(!is_space(seq![key][0]));
        lemma_trim_keeps(seq![key]);
    }
    if !value@.contains('=') && k < value@.len() {
        assert(value@[k] == '=');
    }
}

/// A call, a reply and a button are read from the words behind the command.
pub proof fn words_behind_the_command_are_read(
    config: ClientConfig,
    rest: &str,
    call: Result<CommandUpdate, String>,
    reply: Result<CommandUpdate, String>,
    button: Result<CommandUpdate, String>,
    target: u16,
)
    requires
        call_ensures(crate::commands::parse_direct_call_command, (rest,), call),
        call_ensures(crate::commands::parse_reply_call_command, (rest,), reply),
        call_ensures(crate::commands::parse_button_command, (&config, rest), button),
    ensures
        words(rest@).len() == 2 && words(rest@)[0] == decimal(target as nat) && begins(
            words(rest@)[1],
        ) ==> call == Ok::<CommandUpdate, String>(
            CommandUpdate::SendDirectCall { target_user_id: target, active: true, duck: false },
        ),
        words(rest@).len() == 2 && words(rest@)[0] == decimal(target as nat) && ends(
            words(rest@)[1],
        ) ==> call == Ok::<CommandUpdate, String>(
            CommandUpdate::SendDirectCall { target_user_id: target, active: false, duck: false },
        ),
        words(rest@).len() == 1 && begins(words(rest@)[0]) ==> reply == Ok::<
            CommandUpdate,
            String,
        >(CommandUpdate::SendReplyCall { active: true, duck: false }),
        words(rest@).len() == 1 && ends(words(rest@)[0]) ==> reply == Ok::<CommandUpdate, String>(
            CommandUpdate::SendReplyCall { active: false, duck: false },
        ),
        button is Ok ==> words(rest@).len() == 2 && (button matches Ok(
            CommandUpdate::SendButton { button_id, pressed },
        ) && button_id@ == words(rest@)[0] && pressed == begins(words(rest@)[1])),
        words(rest@).len() == 0 ==> call is Err && reply is Err && button is Err,
{
    let w = words(rest@);
    if w.len() > 0 {
        lemma_actions(w[0]);
    }
    if w.len() > 1 {
        lemma_actions(w[1]);
    }
    crate::text::decimal_round_trip(target as nat, u16::MAX as nat);
}

/// The operator is told what was asked for.
pub proof fn operators_are_told_what_was_asked_for(
    config: ClientConfig,
    update: CommandUpdate,
    volumes: &str,
    r: String,
    listen: String,
    tx: String,
)
    requires
        call_ensures(crate::commands::command_report, (&config, &update, volumes), r),
        call_ensures(crate::routing::format_channels, (&config.listen,), listen),
        call_ensures(crate::routing::format_channels, (&config.tx,), tx),
    ensures
        update is SendConfig ==> r@ == "updated: listen="@ + listen@ + " tx="@ + tx@ + " vol="@
            + volumes@,
        update == (CommandUpdate::SendTalk { active: true }) ==> r@ == "regular_talk_active="@
            + "true"@,
        update == (CommandUpdate::SendTalk { active: false }) ==> r@ == "regular_talk_active="@
            + "false"@,
        update is SendTalkMode && config.talk_mode == TalkMode::Open ==> r@ == "talk_mode="@
            + "Open"@,
        update is SendTalkMode && config.talk_mode == TalkMode::Ptt ==> r@ == "talk_mode="@
            + "Ptt"@,
        update is SendTalkMode && config.talk_mode == TalkMode::Muted ==> r@ == "talk_mode="@
            + "Muted"@,
        update matches CommandUpdate::SendButton { button_id, pressed } ==> (pressed ==> r@
            == "button "@ + button_id@ + " pressed="@ + "true"@) && (!pressed ==> r@ == "button "@
            + button_id@ + " pressed="@ + "false"@),
        update matches CommandUpdate::SendDirectCall { target_user_id, active, duck } ==> {
            &&& active && duck ==> r@ == "direct_call target="@ + decimal(target_user_id as nat)
                + " active="@ + "true"@ + " duck="@ + "true"@
            &&& active && !duck ==> r@ == "direct_call target="@ + decimal(target_user_id as nat)
                + " active="@ + "true"@ + " duck="@ + "false"@
            &&& !active && duck ==> r@ == "direct_call target="@ + decimal(target_user_id as nat)
                + " active="@ + "false"@ + " duck="@ + "true"@
            &&& !active && !duck ==> r@ == "direct_call target="@ + decimal(target_user_id as nat)
                + " active="@ + "false"@ + " duck="@ + "false"@
        },
        update matches CommandUpdate::SendReplyCall { active, duck } ==> {
            &&& active && duck ==> r@ == "reply_call active="@ + "true"@ + " duck="@ + "true"@
            &&& active && !duck ==> r@ == "reply_call active="@ + "true"@ + " duck="@ + "false"@
            &&& !active && duck ==> r@ == "reply_call active="@ + "false"@ + " duck="@ + "true"@
            &&& !active && !duck ==> r@ == "reply_call active="@ + "false"@ + " duck="@ + "false"@
        },
{
}

/// The state that is shown names each of its parts.
pub proof fn the_shown_state_names_its_parts(
    config: ClientConfig,
    volumes: &str,
    r: String,
    listen: String,
    tx: String,
    buttons: String,
    pressed: String,
    calls: String,
    mode: &'static str,
)
    requires
        call_ensures(
            crate::commands::command_report,
            (&config, &CommandUpdate::Show, volumes),
            r,
        ),
        call_ensures(crate::routing::format_channels, (&config.listen,), listen),
        call_ensures(crate::routing::format_channels, (&config.tx,), tx),
        call_ensures(crate::buttons::format_buttons, (&config.buttons,), buttons),
        call_ensures(crate::buttons::format_button_ids, (&config.active_buttons,), pressed),
        call_ensures(crate::commands::format_direct_calls, (&config.active_direct_calls,), calls),
        call_ensures(crate::protocol::talk_mode_text, (config.talk_mode,), mode),
    ensures
        ({
            let caller = match config.last_direct_caller {
                Some(user) => "Some("@ + decimal(user as nat) + ")"@,
                None => "None"@,
            };
            let talking = if config.regular_talk_active {
                "true"@
            } else {
                "false"@
            };
            let priority = if config.priority {
                "true"@
            } else {
                "false"@
            };
            r@ == "listen="@ + listen@ + " tx="@ + tx@ + " buttons="@ + buttons@
                + " active_buttons="@ + pressed@ + " active_calls="@ + calls@ + " last_caller="@
                + caller + " codec="@ + crate::protocol::codec_name(config.codec) + " talk_mode="@
                + mode@ + " regular_talk="@ + talking + " priority="@ + priority + " vol="@
                + volumes@
        }),
{
}

/// Active calls are told in turn, by who calls whom and whether others are ducked; a
/// call that is not active is not told.
pub proof fn active_calls_are_told_in_turn(
    fewer: Vec<DirectCallStatus>,
    more: Vec<DirectCallStatus>,
    c: DirectCallStatus,
    a: String,
    b: String,
    i: int,
)
    requires
        more@ == fewer@.push(c),
        call_ensures(crate::commands::format_direct_calls, (&fewer,), a),
        call_ensures(crate::commands::format_direct_calls, (&more,), b),
    ensures
        !c.active ==> b@ == a@,
        ({
            let told = decimal(c.caller as nat) + "->"@ + decimal(c.target as nat);
            let whole = if c.duck {
                told + ":duck"@
            } else {
                told
            };
            &&& c.active && 0 <= i < fewer@.len() && fewer@[i].active ==> b@ == a@ + ","@ + whole
            &&& c.active && fewer@.len() == 0 ==> b@ == whole
        }),
{
    let s = fewer@;
    let t = more@;
    assert(t.drop_last() =~= s);
    reveal_strlit("");
    let told = decimal(c.caller as nat) + "->"@ + decimal(c.target as nat);
    assert(told + ""@ =~= told);
    let x = crate::commands::active_call_texts(s);
    let y = crate::commands::active_call_texts(t);
    if c.active {
        assert(y.drop_last() =~= x);
        if 0 <= i < s.len() && s[i].active {
            lemma_some_call(s, i);
        }
    }
}

proof fn lemma_some_call(s: Seq<DirectCallStatus>, i: int)
    requires
        0 <= i < s.len(),
        s[i].active,
    ensures
        crate::commands::active_call_texts(s).len() > 0,
    decreases s.len(),
{
    if i < s.len() - 1 {
        lemma_some_call(s.drop_last(), i);
    }
}

} // verus!
