//! The commands that an operator types at a running client, and its hotkeys.

use vstd::prelude::*;
use vstd::string::StringExecFns;
use crate::buttons::{buttons_text, format_button_ids, format_buttons};
use crate::config::{knows_button, with_talk_mode, ClientConfig};
use crate::gain::Gain;
use crate::protocol::{
    codec_name, format_codec, talk_mode_label, talk_mode_text, ButtonCapability, ControlMessage,
    DirectCallStatus, TalkMode,
};
use crate::routing::{
    channel_list, channels_text, format_channels, parse_channels, parse_volumes, split_at_equals,
    split_entry, volume_entries, volume_gain_texts, volumes_of, VolumeError, VolumeFault,
};
use crate::text::{
    ascii_lowercase, blank, chars_of, concat2, concat3, concat4, decimal, is_blank, join, join_texts, owned,
    parse_u16, parse_unsigned, same, split_words, texts, to_ascii_lower, trim, trimmed, u64_text,
    words,
};

verus! {

/// What a command asks for after it has been carried out.
#[derive(Debug, Clone, PartialEq, Eq)]
pub enum CommandUpdate {
    SendConfig,
    SendTalkMode,
    SendTalk { active: bool },
    SendButton { button_id: String, pressed: bool },
    SendDirectCall { target_user_id: u16, active: bool, duck: bool },
    SendReplyCall { active: bool, duck: bool },
    Show,
}

/// What a command does.
pub enum CommandEffect {
    Tx(Seq<u16>),
    Listen(Seq<u16>),
    Vol(Map<u16, Gain>),
    /// Sets the talk mode, and stops talking where the flag says so.
    Mode(TalkMode, bool),
    Talk(bool),
    Button(Seq<char>, bool),
    Call(u16, bool, bool),
    Reply(bool, bool),
    Show,
}

// ---------------------------------------------------------------------------
// The parts of commands
// ---------------------------------------------------------------------------

/// `value` in a message that quotes it.
pub open spec fn quoted(before: Seq<char>, value: Seq<char>, after: Seq<char>) -> Seq<char> {
    before + value + after
}

/// On or off.
pub open spec fn bool_of(value: Seq<char>) -> Result<bool, Seq<char>> {
    let v = trim(value);
    if v == "on"@ || v == "true"@ || v == "1"@ {
        Ok(true)
    } else if v == "off"@ || v == "false"@ || v == "0"@ {
        Ok(false)
    } else {
        Err(quoted("invalid boolean `"@, v, "`, expected on/off"@))
    }
}

/// Reads on or off. The error is the message for the operator.
pub fn parse_bool(value: &str) -> (r: Result<bool, String>)
    ensures
        match r {
            Ok(b) => bool_of(value@) == Ok::<bool, Seq<char>>(b),
            Err(m) => bool_of(value@) == Err::<bool, Seq<char>>(m@),
        },
{
    let t = trimmed(value);
    let v = t.as_str();
    if same(v, "on") || same(v, "true") || same(v, "1") {
        Ok(true)
    } else if same(v, "off") || same(v, "false") || same(v, "0") {
        Ok(false)
    } else {
        Err(concat3("invalid boolean `", v, "`, expected on/off"))
    }
}

/// A talk mode by its name, in any case.
pub open spec fn talk_mode_of(value: Seq<char>) -> Result<TalkMode, Seq<char>> {
    let v = ascii_lowercase(trim(value));
    if v == "muted"@ || v == "mute"@ {
        Ok(TalkMode::Muted)
    } else if v == "ptt"@ {
        Ok(TalkMode::Ptt)
    } else if v == "open"@ {
        Ok(TalkMode::Open)
    } else {
        Err(quoted("invalid talk mode `"@, v, "`, expected muted, ptt, or open"@))
    }
}

/// Reads a talk mode.
pub fn parse_talk_mode(value: &str) -> (r: Result<TalkMode, String>)
    ensures
        match r {
            Ok(m) => talk_mode_of(value@) == Ok::<TalkMode, Seq<char>>(m),
            Err(m) => talk_mode_of(value@) == Err::<TalkMode, Seq<char>>(m@),
        },
{
    let t = to_ascii_lower(trimmed(value).as_str());
    let v = t.as_str();
    if same(v, "muted") || same(v, "mute") {
        Ok(TalkMode::Muted)
    } else if same(v, "ptt") {
        Ok(TalkMode::Ptt)
    } else if same(v, "open") {
        Ok(TalkMode::Open)
    } else {
        Err(concat3("invalid talk mode `", v, "`, expected muted, ptt, or open"))
    }
}

/// Whether an action begins or ends something. Toggling begins it.
pub open spec fn action_of(action: Seq<char>) -> Option<bool> {
    if action == "down"@ || action == "press"@ || action == "on"@ || action == "toggle"@ {
        Some(true)
    } else if action == "up"@ || action == "release"@ || action == "off"@ {
        Some(false)
    } else {
        None
    }
}

fn read_action(action: &str) -> (r: Option<bool>)
    ensures
        r == action_of(action@),
{
    if same(action, "down") || same(action, "press") || same(action, "on") || same(
        action,
        "toggle",
    ) {
        Some(true)
    } else if same(action, "up") || same(action, "release") || same(action, "off") {
        Some(false)
    } else {
        None
    }
}

/// Reads an action of a call.
pub fn parse_action_active(action: &str) -> (r: Result<bool, String>)
    ensures
        match r {
            Ok(b) => action_of(action@) == Some(b),
            Err(m) => action_of(action@) is None && m@ == quoted(
                "invalid action `"@,
                action@,
                "`, expected down/up/toggle"@,
            ),
        },
{
    match read_action(action) {
        Some(b) => Ok(b),
        None => Err(concat3("invalid action `", action, "`, expected down/up/toggle")),
    }
}

/// Whether a call ducks other audio: not where nothing is said.
pub open spec fn duck_of(value: Option<Seq<char>>) -> Result<bool, Seq<char>> {
    match value {
        None => Ok(false),
        Some(v) => if v == "duck"@ {
            Ok(true)
        } else if v == "no-duck"@ {
            Ok(false)
        } else {
            Err(quoted("invalid duck flag `"@, v, "`, expected duck or no-duck"@))
        },
    }
}

/// Reads whether a call ducks other audio.
pub fn parse_duck_flag(value: Option<&str>) -> (r: Result<bool, String>)
    ensures
        match r {
            Ok(b) => duck_of(crate::endpoint::opt_str(value)) == Ok::<bool, Seq<char>>(b),
            Err(m) => duck_of(crate::endpoint::opt_str(value)) == Err::<bool, Seq<char>>(m@),
        },
{
    match value {
        None => Ok(false),
        Some(v) => if same(v, "duck") {
            Ok(true)
        } else if same(v, "no-duck") {
            Ok(false)
        } else {
            Err(concat3("invalid duck flag `", v, "`, expected duck or no-duck"))
        },
    }
}

/// The word at position `i`, if there is one.
pub open spec fn word(w: Seq<Seq<char>>, i: int) -> Option<Seq<char>> {
    if 0 <= i < w.len() {
        Some(w[i])
    } else {
        None
    }
}

// ---------------------------------------------------------------------------
// Commands on buttons and calls
// ---------------------------------------------------------------------------

/// What a command on a button does.
pub open spec fn button_effect(config: ClientConfig, rest: Seq<char>) -> Result<
    CommandEffect,
    Seq<char>,
> {
    let w = words(rest);
    if w.len() == 0 {
        Err("button command requires a button id"@)
    } else if w.len() == 1 {
        Err("button command requires down, up, or toggle"@)
    } else if w.len() > 2 {
        Err("button command accepts exactly: button <id> down|up|toggle"@)
    } else if !knows_button(config, w[0]) {
        Err(quoted("unknown button `"@, w[0], "`"@))
    } else {
        match action_of(w[1]) {
            Some(pressed) => Ok(CommandEffect::Button(w[0], pressed)),
            None => Err(
                quoted("invalid button action `"@, w[1], "`, expected down/up/toggle"@),
            ),
        }
    }
}

/// What a command on a call does.
pub open spec fn call_effect(rest: Seq<char>) -> Result<CommandEffect, Seq<char>> {
    let w = words(rest);
    if w.len() == 0 {
        Err("call command requires a target user id"@)
    } else {
        match parse_unsigned(w[0], u16::MAX as nat) {
            None => Err("call target must be a user id"@),
            Some(target) => if w.len() == 1 {
                Err("call command requires down, up, or toggle"@)
            } else {
                match duck_of(word(w, 2)) {
                    Err(m) => Err(m),
                    Ok(duck) => if w.len() > 3 {
                        Err(
                            "call command accepts exactly: call <user> down|up|toggle [duck|no-duck]"@,
                        )
                    } else {
                        match action_of(w[1]) {
                            Some(active) => Ok(CommandEffect::Call(target as u16, active, duck)),
                            None => Err(
                                quoted("invalid action `"@, w[1], "`, expected down/up/toggle"@),
                            ),
                        }
                    },
                }
            },
        }
    }
}

/// What a command on a reply does.
pub open spec fn reply_effect(rest: Seq<char>) -> Result<CommandEffect, Seq<char>> {
    let w = words(rest);
    if w.len() == 0 {
        Err("reply command requires down, up, or toggle"@)
    } else {
        match duck_of(word(w, 1)) {
            Err(m) => Err(m),
            Ok(duck) => if w.len() > 2 {
                Err("reply command accepts exactly: reply down|up|toggle [duck|no-duck]"@)
            } else {
                match action_of(w[0]) {
                    Some(active) => Ok(CommandEffect::Reply(active, duck)),
                    None => Err(quoted("invalid action `"@, w[0], "`, expected down/up/toggle"@)),
                }
            },
        }
    }
}

/// The update is what the effect asks for.
pub open spec fn asks_for(u: CommandUpdate, e: CommandEffect) -> bool {
    match e {
        CommandEffect::Tx(_) => u is SendConfig,
        CommandEffect::Listen(_) => u is SendConfig,
        CommandEffect::Vol(_) => u is SendConfig,
        CommandEffect::Mode(_, _) => u is SendTalkMode,
        CommandEffect::Talk(active) => u == (CommandUpdate::SendTalk { active }),
        CommandEffect::Button(id, pressed) => u matches CommandUpdate::SendButton {
            button_id,
            pressed: p,
        } && button_id@ == id && p == pressed,
        CommandEffect::Call(target_user_id, active, duck) => u == (CommandUpdate::SendDirectCall {
            target_user_id,
            active,
            duck,
        }),
        CommandEffect::Reply(active, duck) => u == (CommandUpdate::SendReplyCall { active, duck }),
        CommandEffect::Show => u is Show,
    }
}

/// The word at position `i` of a list of words.
fn word_at(w: &Vec<String>, i: usize) -> (r: Option<&str>)
    ensures
        crate::endpoint::opt_str(r) == word(texts(w@), i as int),
{
    if i < w.len() {
        Some(w[i].as_str())
    } else {
        None
    }
}

/// Reads a command on a button.
pub fn parse_button_command(config: &ClientConfig, rest: &str) -> (r: Result<CommandUpdate, String>)
    ensures
        match r {
            Ok(u) => button_effect(*config, rest@) is Ok && asks_for(
                u,
                button_effect(*config, rest@)->Ok_0,
            ),
            Err(m) => button_effect(*config, rest@) == Err::<CommandEffect, Seq<char>>(m@),
        },
{
    let w = split_words(rest);
    let ghost all = texts(w@);
    if w.len() == 0 {
        return Err(owned("button command requires a button id"));
    }
    if w.len() == 1 {
        return Err(owned("button command requires down, up, or toggle"));
    }
    if w.len() > 2 {
        return Err(owned("button command accepts exactly: button <id> down|up|toggle"));
    }
    proof {
        assert(all[0] == w@[0]@ && all[1] == w@[1]@);
    }
    let id = w[0].as_str();
    let action = w[1].as_str();
    if !config.button_known(id) {
        return Err(concat3("unknown button `", id, "`"));
    }
    match read_action(action) {
        Some(pressed) => Ok(CommandUpdate::SendButton { button_id: owned(id), pressed }),
        None => Err(concat3("invalid button action `", action, "`, expected down/up/toggle")),
    }
}

/// Reads a command on a call.
pub fn parse_direct_call_command(rest: &str) -> (r: Result<CommandUpdate, String>)
    ensures
        match r {
            Ok(u) => call_effect(rest@) is Ok && asks_for(u, call_effect(rest@)->Ok_0),
            Err(m) => call_effect(rest@) == Err::<CommandEffect, Seq<char>>(m@),
        },
{
    let w = split_words(rest);
    let ghost all = texts(w@);
    if w.len() == 0 {
        return Err(owned("call command requires a target user id"));
    }
    proof {
        assert(all[0] == w@[0]@);
    }
    let target_user_id = match parse_u16(w[0].as_str()) {
        Some(n) => n,
        None => {
            return Err(owned("call target must be a user id"));
        },
    };
    if w.len() == 1 {
        return Err(owned("call command requires down, up, or toggle"));
    }
    proof {
        assert(all[1] == w@[1]@);
    }
    let duck = match parse_duck_flag(word_at(&w, 2)) {
        Ok(d) => d,
        Err(m) => {
            return Err(m);
        },
    };
    if w.len() > 3 {
        return Err(
            owned("call command accepts exactly: call <user> down|up|toggle [duck|no-duck]"),
        );
    }
    match parse_action_active(w[1].as_str()) {
        Ok(active) => Ok(CommandUpdate::SendDirectCall { target_user_id, active, duck }),
        Err(m) => Err(m),
    }
}

/// Reads a command on a reply.
pub fn parse_reply_call_command(rest: &str) -> (r: Result<CommandUpdate, String>)
    ensures
        match r {
            Ok(u) => reply_effect(rest@) is Ok && asks_for(u, reply_effect(rest@)->Ok_0),
            Err(m) => reply_effect(rest@) == Err::<CommandEffect, Seq<char>>(m@),
        },
{
    let w = split_words(rest);
    let ghost all = texts(w@);
    if w.len() == 0 {
        return Err(owned("reply command requires down, up, or toggle"));
    }
    proof {
        assert(all[0] == w@[0]@);
    }
    let duck = match parse_duck_flag(word_at(&w, 1)) {
        Ok(d) => d,
        Err(m) => {
            return Err(m);
        },
    };
    if w.len() > 2 {
        return Err(owned("reply command accepts exactly: reply down|up|toggle [duck|no-duck]"));
    }
    match parse_action_active(w[0].as_str()) {
        Ok(active) => Ok(CommandUpdate::SendReplyCall { active, duck }),
        Err(m) => Err(m),
    }
}

// ---------------------------------------------------------------------------
// All commands
// ---------------------------------------------------------------------------

/// What follows the name of a command, with single spaces between the words.
pub open spec fn command_rest(command: Seq<char>) -> Seq<char> {
    join(words(command).skip(1), " "@)
}

/// The message for an error in a list of volumes.
pub open spec fn volume_message(fault: VolumeFault) -> Seq<char> {
    match fault {
        VolumeFault::Entry(e) => quoted("invalid volume `"@, e, "`, expected channel=gain"@),
        VolumeFault::Channel(c) => quoted("invalid channel `"@, c, "`"@),
        VolumeFault::Gain(g) => quoted("invalid gain `"@, g, "`"@),
    }
}

/// What a command does, or the message for the operator.
pub open spec fn command_effect(
    config: ClientConfig,
    command: Seq<char>,
    gains: Seq<Option<Gain>>,
) -> Result<CommandEffect, Seq<char>> {
    let w = words(command);
    let rest = command_rest(command);
    if w.len() == 0 {
        Ok(CommandEffect::Show)
    } else {
        let name = w[0];
        if name == "tx"@ {
            match channel_list(rest) {
                Ok(s) => Ok(CommandEffect::Tx(s)),
                Err(part) => Err(quoted("invalid channel `"@, part, "`"@)),
            }
        } else if name == "listen"@ {
            match channel_list(rest) {
                Ok(s) => Ok(CommandEffect::Listen(s)),
                Err(part) => Err(quoted("invalid channel `"@, part, "`"@)),
            }
        } else if name == "vol"@ {
            match volumes_of(volume_entries(rest), gains) {
                Ok(m) => Ok(CommandEffect::Vol(m)),
                Err(fault) => Err(volume_message(fault)),
            }
        } else if name == "mute"@ {
            Ok(CommandEffect::Mode(TalkMode::Muted, true))
        } else if name == "unmute"@ {
            Ok(CommandEffect::Mode(config.unmuted_mode(), false))
        } else if name == "talk-mode"@ || name == "mode"@ {
            match talk_mode_of(rest) {
                Ok(m) => Ok(CommandEffect::Mode(m, false)),
                Err(m) => Err(m),
            }
        } else if name == "talk"@ {
            match bool_of(rest) {
                Ok(b) => Ok(CommandEffect::Talk(b)),
                Err(m) => Err(m),
            }
        } else if name == "button"@ {
            button_effect(config, rest)
        } else if name == "call"@ {
            call_effect(rest)
        } else if name == "reply"@ {
            reply_effect(rest)
        } else if name == "buttons"@ || name == "calls"@ || name == "show"@ || name == "help"@ {
            Ok(CommandEffect::Show)
        } else {
            Err(quoted("unknown command `"@, name, "`"@))
        }
    }
}

/// The configuration after a command.
pub open spec fn carried_out(before: ClientConfig, after: ClientConfig, e: CommandEffect) -> bool {
    match e {
        CommandEffect::Tx(s) => after.tx@ == s && after == (ClientConfig {
            tx: after.tx,
            ..before
        }),
        CommandEffect::Listen(s) => after.listen@ == s && after == (ClientConfig {
            listen: after.listen,
            ..before
        }),
        CommandEffect::Vol(m) => after.vol.wf() && after.vol@ == m && after == (ClientConfig {
            vol: after.vol,
            ..before
        }),
        CommandEffect::Mode(mode, stop) => after == (ClientConfig {
            regular_talk_active: before.regular_talk_active && !stop,
            ..with_talk_mode(before, mode)
        }),
        CommandEffect::Talk(active) => after == (ClientConfig {
            regular_talk_active: active,
            ..before
        }),
        _ => after == before,
    }
}

/// The name of a command and what follows it.
fn split_command(command: &str) -> (r: Option<(String, String)>)
    ensures
        match r {
            Some((name, rest)) => words(command@).len() > 0 && name@ == words(command@)[0]
                && rest@ == command_rest(command@),
            None => words(command@).len() == 0,
        },
{
    let w = split_words(command);
    let ghost all = texts(w@);
    if w.len() == 0 {
        return None;
    }
    let mut tail: Vec<String> = Vec::new();
    let mut i: usize = 1;
    while i < w.len()
        invariant
            1 <= i <= w@.len(),
            all == texts(w@),
            texts(tail@) == all.subrange(1, i as int),
        decreases w@.len() - i,
    {
        let ghost before = tail@;
        tail.push(w[i].clone());
        proof {
            assert(texts(tail@) =~= texts(before).push(all[i as int]));
            assert(all.subrange(1, i + 1) =~= all.subrange(1, i as int).push(all[i as int]));
        }
        i = i + 1;
    }
    proof {
        assert(all.subrange(1, all.len() as int) =~= all.skip(1));
        assert(all[0] == w@[0]@);
    }
    Some((w[0].clone(), join_texts(&tail, " ")))
}

/// The texts of the gains of a command that sets volumes, for which
/// `apply_runtime_command` takes the numbers; none for another command.
pub fn command_gain_texts(command: &str) -> (r: Vec<Option<String>>)
    ensures
        words(command@).len() > 0 && words(command@)[0] == "vol"@ ==> {
            let entries = volume_entries(command_rest(command@));
            &&& r@.len() == entries.len()
            &&& forall|i: int|
                0 <= i < r@.len() ==> match #[trigger] r@[i] {
                    Some(t) => split_entry(entries[i]) is Some && t@ == trim(
                        split_entry(entries[i])->Some_0.1,
                    ),
                    None => split_entry(entries[i]) is None,
                }
        },
        !(words(command@).len() > 0 && words(command@)[0] == "vol"@) ==> r@.len() == 0,
{
    match split_command(command) {
        Some((name, rest)) => if same(name.as_str(), "vol") {
            volume_gain_texts(rest.as_str())
        } else {
            Vec::new()
        },
        None => Vec::new(),
    }
}

fn volume_error_text(e: &VolumeError) -> (r: String)
    ensures
        r@ == volume_message(e@),
{
    match e {
        VolumeError::Entry(s) => concat3(
            "invalid volume `",
            s.as_str(),
            "`, expected channel=gain",
        ),
        VolumeError::Channel(s) => concat3("invalid channel `", s.as_str(), "`"),
        VolumeError::Gain(s) => concat3("invalid gain `", s.as_str(), "`"),
    }
}

/// Carries out a command. `gains` holds what the gains of a command that sets
/// volumes read as, in the order of `command_gain_texts`. The error is the message
/// for the operator.
pub fn apply_runtime_command(
    config: &mut ClientConfig,
    command: &str,
    gains: &Vec<Option<Gain>>,
) -> (r: Result<CommandUpdate, String>)
    requires
        words(command@).len() > 0 && words(command@)[0] == "vol"@ ==> gains@.len()
            == volume_entries(command_rest(command@)).len(),
    ensures
        match command_effect(*old(config), command@, gains@) {
            Ok(e) => r is Ok && asks_for(r->Ok_0, e) && carried_out(*old(config), *final(config), e),
            Err(m) => r is Err && r->Err_0@ == m && *final(config) == *old(config),
        },
{
    let (name_text, rest_text) = match split_command(command) {
        Some(parts) => parts,
        None => {
            return Ok(CommandUpdate::Show);
        },
    };
    let name = name_text.as_str();
    let rest = rest_text.as_str();
    if same(name, "tx") {
        match parse_channels(rest) {
            Ok(v) => {
                config.tx = v;
                Ok(CommandUpdate::SendConfig)
            },
            Err(part) => Err(concat3("invalid channel `", part.as_str(), "`")),
        }
    } else if same(name, "listen") {
        match parse_channels(rest) {
            Ok(v) => {
                config.listen = v;
                Ok(CommandUpdate::SendConfig)
            },
            Err(part) => Err(concat3("invalid channel `", part.as_str(), "`")),
        }
    } else if same(name, "vol") {
        match parse_volumes(rest, gains) {
            Ok(v) => {
                config.vol = v;
                Ok(CommandUpdate::SendConfig)
            },
            Err(e) => Err(volume_error_text(&e)),
        }
    } else if same(name, "mute") {
        config.set_talk_mode(TalkMode::Muted);
        config.regular_talk_active = false;
        Ok(CommandUpdate::SendTalkMode)
    } else if same(name, "unmute") {
        let mode = config.restored_unmute_talk_mode();
        config.set_talk_mode(mode);
        Ok(CommandUpdate::SendTalkMode)
    } else if same(name, "talk-mode") || same(name, "mode") {
        match parse_talk_mode(rest) {
            Ok(mode) => {
                config.set_talk_mode(mode);
                Ok(CommandUpdate::SendTalkMode)
            },
            Err(m) => Err(m),
        }
    } else if same(name, "talk") {
        match parse_bool(rest) {
            Ok(active) => {
                config.regular_talk_active = active;
                Ok(CommandUpdate::SendTalk { active })
            },
            Err(m) => Err(m),
        }
    } else if same(name, "button") {
        parse_button_command(config, rest)
    } else if same(name, "call") {
        parse_direct_call_command(rest)
    } else if same(name, "reply") {
        parse_reply_call_command(rest)
    } else if same(name, "buttons") || same(name, "calls") || same(name, "show") || same(
        name,
        "help",
    ) {
        Ok(CommandUpdate::Show)
    } else {
        Err(concat3("unknown command `", name, "`"))
    }
}

/// The commands, as they are listed for the operator.
pub const COMMAND_LIST: &'static str = "commands: tx <channels>, listen <channels>, vol <channel=gain,...>, talk-mode muted|ptt|open, talk on|off, mute, unmute, button <id> down|up|toggle, call <user> down|up|toggle [duck|no-duck], reply down|up|toggle [duck|no-duck], buttons, calls, show";

/// Whether a command asks for the list of commands.
pub fn asks_for_help(command: &str) -> (r: bool)
    ensures
        r == (words(command@).len() > 0 && words(command@)[0] == "help"@),
{
    match split_command(command) {
        Some((name, _)) => same(name.as_str(), "help"),
        None => false,
    }
}

/// The message to the server that a command asks for; none for showing the state.
pub fn command_message(config: &ClientConfig, update: CommandUpdate) -> (r: Option<ControlMessage>)
    ensures
        match update {
            CommandUpdate::SendConfig => r is Some && (r->Some_0 matches ControlMessage::Config(m)
                && m.user_id == config.user_id && m.listen@ == config.listen@ && m.tx@
                == config.tx@ && m.vol.entries@ == config.vol.entries@ && m.codec == Some(
                config.codec,
            ) && m.opus_profile == Some(config.opus_profile) && m.talk_mode == Some(
                config.talk_mode,
            ) && m.role == Some(config.role) && m.name == (if is_blank(config.name@) {
                None
            } else {
                Some(config.name)
            }) && m.talker_vol is None && m.priority is None && m.priority_channels is None
                && m.ifb is None),
            CommandUpdate::SendTalkMode => r == Some(
                ControlMessage::TalkMode { user_id: config.user_id, mode: config.talk_mode },
            ),
            CommandUpdate::SendTalk { active } => r == Some(
                ControlMessage::Talk { user_id: config.user_id, active },
            ),
            CommandUpdate::SendButton { button_id, pressed } => r == Some(
                ControlMessage::Button { user_id: config.user_id, button_id, pressed },
            ),
            CommandUpdate::SendDirectCall { target_user_id, active, duck } => r == Some(
                ControlMessage::DirectCall {
                    user_id: config.user_id,
                    target_user_id,
                    active,
                    duck,
                },
            ),
            CommandUpdate::SendReplyCall { active, duck } => r == Some(
                ControlMessage::ReplyCall { user_id: config.user_id, active, duck },
            ),
            CommandUpdate::Show => r is None,
        },
{
    let user_id = config.user_id;
    match update {
        CommandUpdate::SendConfig => Some(config.control_message()),
        CommandUpdate::SendTalkMode => Some(
            ControlMessage::TalkMode { user_id, mode: config.talk_mode },
        ),
        CommandUpdate::SendTalk { active } => Some(ControlMessage::Talk { user_id, active }),
        CommandUpdate::SendButton { button_id, pressed } => Some(
            ControlMessage::Button { user_id, button_id, pressed },
        ),
        CommandUpdate::SendDirectCall { target_user_id, active, duck } => Some(
            ControlMessage::DirectCall { user_id, target_user_id, active, duck },
        ),
        CommandUpdate::SendReplyCall { active, duck } => Some(
            ControlMessage::ReplyCall { user_id, active, duck },
        ),
        CommandUpdate::Show => None,
    }
}

// ---------------------------------------------------------------------------
// Calls as text
// ---------------------------------------------------------------------------

/// A call as text.
pub open spec fn call_text(c: DirectCallStatus) -> Seq<char> {
    decimal(c.caller as nat) + "->"@ + decimal(c.target as nat) + (if c.duck {
        ":duck"@
    } else {
        ""@
    })
}

/// The active calls as texts.
pub open spec fn active_call_texts(s: Seq<DirectCallStatus>) -> Seq<Seq<char>>
    decreases s.len(),
{
    if s.len() == 0 {
        Seq::empty()
    } else if s.last().active {
        active_call_texts(s.drop_last()).push(call_text(s.last()))
    } else {
        active_call_texts(s.drop_last())
    }
}

/// The active calls as text.
pub fn format_direct_calls(calls: &Vec<DirectCallStatus>) -> (r: String)
    ensures
        r@ == join(active_call_texts(calls@), ","@),
{
    let ghost all = calls@;
    let mut out: Vec<String> = Vec::new();
    let mut i: usize = 0;
    proof {
        assert(texts(out@) =~= active_call_texts(all.take(0)));
    }
    while i < calls.len()
        invariant
            0 <= i <= calls@.len(),
            all == calls@,
            texts(out@) == active_call_texts(all.take(i as int)),
        decreases calls@.len() - i,
    {
        let c = &calls[i];
        let ghost before = out@;
        proof {
            assert(all.take(i + 1).drop_last() =~= all.take(i as int));
            assert(all.take(i + 1).last() == all[i as int]);
        }
        if c.active {
            let mut t = concat3(
                u64_text(c.caller as u64).as_str(),
                "->",
                u64_text(c.target as u64).as_str(),
            );
            t.append(
                if c.duck {
                    ":duck"
                } else {
                    ""
                },
            );
            out.push(t);
            proof {
                assert(texts(out@) =~= texts(before).push(call_text(*c)));
            }
        }
        i = i + 1;
    }
    proof {
        assert(all.take(all.len() as int) =~= all);
    }
    join_texts(&out, ",")
}

// ---------------------------------------------------------------------------
// Buttons on the command line, and hotkeys
// ---------------------------------------------------------------------------

/// A button given on the command line.
#[derive(Debug, Clone)]
pub struct ButtonArg {
    pub id: String,
    pub label: String,
}

/// The id and label that `ID` or `ID=LABEL` names. A blank label becomes the id.
pub open spec fn button_arg(value: Seq<char>) -> Option<(Seq<char>, Seq<char>)> {
    let (id, label) = match split_entry(value) {
        Some(parts) => parts,
        None => (value, value),
    };
    if is_blank(id) {
        None
    } else {
        Some(
            (
                trim(id),
                if is_blank(label) {
                    trim(id)
                } else {
                    trim(label)
                },
            ),
        )
    }
}

impl ButtonArg {
    /// Reads `ID` or `ID=LABEL`. The error is the message for the operator.
    pub fn parse(value: &str) -> (r: Result<Self, String>)
        ensures
            match r {
                Ok(b) => button_arg(value@) == Some((b.id@, b.label@)),
                Err(m) => button_arg(value@) is None && m@ == "button id cannot be empty"@,
            },
    {
        let (id, label) = match split_at_equals(value) {
            Some(parts) => parts,
            None => (owned(value), owned(value)),
        };
        let id = trimmed(id.as_str());
        if id.as_str().is_empty() {
            return Err(owned("button id cannot be empty"));
        }
        let label = trimmed(label.as_str());
        if label.as_str().is_empty() {
            let label = id.clone();
            Ok(ButtonArg { id, label })
        } else {
            Ok(ButtonArg { id, label })
        }
    }
}

impl From<ButtonArg> for ButtonCapability {
    fn from(value: ButtonArg) -> (r: Self) {
        ButtonCapability { id: value.id, label: value.label }
    }
}

impl vstd::std_specs::convert::FromSpecImpl<ButtonArg> for ButtonCapability {
    open spec fn obeys_from_spec() -> bool {
        true
    }

    open spec fn from_spec(value: ButtonArg) -> Self {
        ButtonCapability { id: value.id, label: value.label }
    }
}

/// A key that stands for a button.
#[derive(Debug, Clone)]
pub struct ButtonKeyArg {
    pub button_id: String,
    pub key: char,
}

/// The button and the key that `ID=KEY` names, or the message for the operator.
pub open spec fn button_key_arg(value: Seq<char>) -> Result<(Seq<char>, char), Seq<char>> {
    match split_entry(value) {
        None => Err("button key must be ID=KEY"@),
        Some((id, key)) => if is_blank(id) {
            Err("button id cannot be empty"@)
        } else if is_blank(key) {
            Err("hotkey cannot be empty"@)
        } else if trim(key).len() > 1 {
            Err("hotkey must be a single character"@)
        } else {
            Ok((trim(id), trim(key)[0]))
        },
    }
}

impl ButtonKeyArg {
    /// Reads `ID=KEY`. The error is the message for the operator.
    pub fn parse(value: &str) -> (r: Result<Self, String>)
        ensures
            match r {
                Ok(b) => button_key_arg(value@) == Ok::<(Seq<char>, char), Seq<char>>(
                    (b.button_id@, b.key),
                ),
                Err(m) => button_key_arg(value@) == Err::<(Seq<char>, char), Seq<char>>(m@),
            },
    {
        let (id, key) = match split_at_equals(value) {
            Some(parts) => parts,
            None => {
                return Err(owned("button key must be ID=KEY"));
            },
        };
        let button_id = trimmed(id.as_str());
        if button_id.as_str().is_empty() {
            return Err(owned("button id cannot be empty"));
        }
        let keys = chars_of(trimmed(key.as_str()).as_str());
        if keys.len() == 0 {
            return Err(owned("hotkey cannot be empty"));
        }
        if keys.len() > 1 {
            return Err(owned("hotkey must be a single character"));
        }
        Ok(ButtonKeyArg { button_id, key: keys[0] })
    }
}

/// What a key did.
#[derive(Debug, Clone, Copy, PartialEq, Eq, Structural)]
pub enum KeyStroke {
    Press,
    Release,
    Repeat,
}

/// The last of the first `n` bindings of a key, or -1: later ones count.
pub open spec fn last_binding(s: Seq<ButtonKeyArg>, key: char, n: int) -> int
    decreases n,
{
    if n <= 0 {
        -1
    } else if s[n - 1].key == key {
        n - 1
    } else {
        last_binding(s, key, n - 1)
    }
}

/// The message that a key stroke asks for: the button bound to the key was pressed
/// or released. Other keys and repeated strokes ask for none.
pub fn hotkey_message(
    bindings: &Vec<ButtonKeyArg>,
    key: char,
    stroke: KeyStroke,
    user_id: u16,
) -> (r: Option<ControlMessage>)
    ensures
        ({
            let k = last_binding(bindings@, key, bindings@.len() as int);
            if k < 0 || stroke == KeyStroke::Repeat {
                r is None
            } else {
                r == Some(
                    ControlMessage::Button {
                        user_id,
                        button_id: bindings@[k].button_id,
                        pressed: stroke == KeyStroke::Press,
                    },
                )
            }
        }),
{
    let mut i: usize = bindings.len();
    while i > 0 && bindings[i - 1].key != key
        invariant
            0 <= i <= bindings@.len(),
            last_binding(bindings@, key, bindings@.len() as int) == last_binding(
                bindings@,
                key,
                i as int,
            ),
        decreases i,
    {
        i = i - 1;
    }
    if i == 0 {
        return None;
    }
    match stroke {
        KeyStroke::Repeat => None,
        KeyStroke::Press => Some(
            ControlMessage::Button {
                user_id,
                button_id: bindings[i - 1].button_id.clone(),
                pressed: true,
            },
        ),
        KeyStroke::Release => Some(
            ControlMessage::Button {
                user_id,
                button_id: bindings[i - 1].button_id.clone(),
                pressed: false,
            },
        ),
    }
}

// ---------------------------------------------------------------------------
// Laws
// ---------------------------------------------------------------------------

/// Whatever command is given, the client keeps its identity, its role and the
/// buttons configured for it.
pub proof fn commands_keep_the_identity(before: ClientConfig, after: ClientConfig, e: CommandEffect)
    requires
        carried_out(before, after, e),
    ensures
        after.user_id == before.user_id,
        after.client_uid == before.client_uid,
        after.role == before.role,
        after.codec == before.codec,
        after.lockout == before.lockout,
        after.buttons == before.buttons,
        after.active_buttons == before.active_buttons,
{
}

/// Muting and unmuting by commands goes back to the mode in use before, and
/// leaves the channels alone.
pub proof fn mute_and_unmute_keep_the_channels(
    start: ClientConfig,
    muted: ClientConfig,
    end: ClientConfig,
)
    requires
        start.talk_mode != TalkMode::Muted,
        start.last_non_muted_talk_mode == start.talk_mode,
        carried_out(start, muted, CommandEffect::Mode(TalkMode::Muted, true)),
        carried_out(muted, end, CommandEffect::Mode(muted.unmuted_mode(), false)),
    ensures
        muted.talk_mode == TalkMode::Muted,
        !muted.regular_talk_active,
        muted.tx == start.tx && end.tx == start.tx,
        end.talk_mode == start.talk_mode,
{
}

// ---------------------------------------------------------------------------
// Reports

/// `true` or `false`.
pub open spec fn bool_word(b: bool) -> Seq<char> {
    if b {
        "true"@
    } else {
        "false"@
    }
}

fn bool_text(b: bool) -> (r: &'static str)
    ensures
        r@ == bool_word(b),
{
    if b {
        "true"
    } else {
        "false"
    }
}

/// The caller to reply to, as it is shown.
pub open spec fn caller_word(caller: Option<u16>) -> Seq<char> {
    match caller {
        Some(user) => "Some("@ + decimal(user as nat) + ")"@,
        None => "None"@,
    }
}

fn caller_text(caller: Option<u16>) -> (r: String)
    ensures
        r@ == caller_word(caller),
{
    match caller {
        Some(user) => concat3("Some(", u64_text(user as u64).as_str(), ")"),
        None => owned("None"),
    }
}

/// The ids of buttons, as they are shown.
pub open spec fn ids_word(ids: Seq<Seq<char>>) -> Seq<char> {
    if ids.len() == 0 {
        "-"@
    } else {
        join(ids, ","@)
    }
}

/// The state of a client in one line; `volumes` is the text of its volumes.
pub open spec fn state_line(c: ClientConfig, volumes: Seq<char>) -> Seq<char> {
    "listen="@ + channels_text(c.listen@) + " tx="@ + channels_text(c.tx@) + " buttons="@
        + buttons_text(c.buttons@) + " active_buttons="@ + ids_word(texts(c.active_buttons@))
        + " active_calls="@ + join(active_call_texts(c.active_direct_calls@), ","@)
        + " last_caller="@ + caller_word(c.last_direct_caller) + " codec="@ + codec_name(c.codec)
        + " talk_mode="@ + talk_mode_label(c.talk_mode) + " regular_talk="@ + bool_word(
        c.regular_talk_active,
    ) + " priority="@ + bool_word(c.priority) + " vol="@ + volumes
}

/// What the operator is told after a command.
pub open spec fn command_line(c: ClientConfig, update: CommandUpdate, volumes: Seq<char>) -> Seq<
    char,
> {
    match update {
        CommandUpdate::SendConfig => "updated: listen="@ + channels_text(c.listen@) + " tx="@
            + channels_text(c.tx@) + " vol="@ + volumes,
        CommandUpdate::SendTalkMode => "talk_mode="@ + talk_mode_label(c.talk_mode),
        CommandUpdate::SendTalk { active } => "regular_talk_active="@ + bool_word(active),
        CommandUpdate::SendButton { button_id, pressed } => "button "@ + button_id@ + " pressed="@
            + bool_word(pressed),
        CommandUpdate::SendDirectCall { target_user_id, active, duck } => "direct_call target="@
            + decimal(target_user_id as nat) + " active="@ + bool_word(active) + " duck="@
            + bool_word(duck),
        CommandUpdate::SendReplyCall { active, duck } => "reply_call active="@ + bool_word(active)
            + " duck="@ + bool_word(duck),
        CommandUpdate::Show => state_line(c, volumes),
    }
}

fn state_text(config: &ClientConfig, volumes: &str) -> (r: String)
    ensures
        r@ == state_line(*config, volumes@),
{
    let mut line = concat4(
        "listen=",
        format_channels(&config.listen).as_str(),
        " tx=",
        format_channels(&config.tx).as_str(),
    );
    line = concat4(
        line.as_str(),
        " buttons=",
        format_buttons(&config.buttons).as_str(),
        " active_buttons=",
    );
    proof {
        assert(texts(config.active_buttons@).len() == config.active_buttons@.len());
    }
    line = concat4(
        line.as_str(),
        format_button_ids(&config.active_buttons).as_str(),
        " active_calls=",
        format_direct_calls(&config.active_direct_calls).as_str(),
    );
    line = concat4(
        line.as_str(),
        " last_caller=",
        caller_text(config.last_direct_caller).as_str(),
        " codec=",
    );
    line = concat4(
        line.as_str(),
        format_codec(config.codec),
        " talk_mode=",
        talk_mode_text(config.talk_mode),
    );
    line = concat4(
        line.as_str(),
        " regular_talk=",
        bool_text(config.regular_talk_active),
        " priority=",
    );
    concat4(line.as_str(), bool_text(config.priority), " vol=", volumes)
}

/// What the operator is told after a command; `volumes` is the text of the
/// client's volumes.
pub fn command_report(config: &ClientConfig, update: &CommandUpdate, volumes: &str) -> (r: String)
    ensures
        r@ == command_line(*config, *update, volumes@),
{
    match update {
        CommandUpdate::SendConfig => {
            let head = concat4(
                "updated: listen=",
                format_channels(&config.listen).as_str(),
                " tx=",
                format_channels(&config.tx).as_str(),
            );
            concat3(head.as_str(), " vol=", volumes)
        },
        CommandUpdate::SendTalkMode => concat2("talk_mode=", talk_mode_text(config.talk_mode)),
        CommandUpdate::SendTalk { active } => concat2("regular_talk_active=", bool_text(*active)),
        CommandUpdate::SendButton { button_id, pressed } => concat4(
            "button ",
            button_id.as_str(),
            " pressed=",
            bool_text(*pressed),
        ),
        CommandUpdate::SendDirectCall { target_user_id, active, duck } => {
            let head = concat4(
                "direct_call target=",
                u64_text(*target_user_id as u64).as_str(),
                " active=",
                bool_text(*active),
            );
            concat3(head.as_str(), " duck=", bool_text(*duck))
        },
        CommandUpdate::SendReplyCall { active, duck } => concat4(
            "reply_call active=",
            bool_text(*active),
            " duck=",
            bool_text(*duck),
        ),
        CommandUpdate::Show => state_text(config, volumes),
    }
}

} // verus!
