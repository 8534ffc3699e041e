//! The microphone modes of macOS.

use vstd::prelude::*;

use crate::launch::audio_session_error;
use crate::text::{concat2, decimal, owned, same, u64_text};
use crate::ui::{ClientAudioBackend, ClientAudioBackendKind, MacosMicrophoneModeStatus};

verus! {

/// What the operator is told while the voice is not isolated.
pub const VOICE_ISOLATION_NOTE: &'static str = "Voice Isolation is user-selected in macOS Control Center; open microphone modes and choose Voice Isolation.";

/// A whole number in decimal.
pub open spec fn signed_decimal(n: int) -> Seq<char> {
    if n < 0 {
        "-"@ + decimal((-n) as nat)
    } else {
        decimal(n as nat)
    }
}

fn signed_text(n: i32) -> (r: String)
    ensures
        r@ == signed_decimal(n as int),
{
    if n < 0 {
        concat2("-", u64_text((-(n as i64)) as u64).as_str())
    } else {
        u64_text(n as u64)
    }
}

/// The name of a microphone mode.
pub open spec fn mode_word(value: i32) -> Seq<char> {
    if value == 0 {
        "standard"@
    } else if value == 1 {
        "wide_spectrum"@
    } else if value == 2 {
        "voice_isolation"@
    } else if value == -1 {
        "unsupported"@
    } else {
        "unknown_"@ + signed_decimal(value as int)
    }
}

/// The name of a microphone mode.
pub fn mode_name(value: i32) -> (r: String)
    ensures
        r@ == mode_word(value),
{
    if value == 0 {
        owned("standard")
    } else if value == 1 {
        owned("wide_spectrum")
    } else if value == 2 {
        owned("voice_isolation")
    } else if value == -1 {
        owned("unsupported")
    } else {
        concat2("unknown_", signed_text(value).as_str())
    }
}

/// The microphone modes as they are reported, where the system has them.
pub fn microphone_mode_status(supported: bool, preferred: i32, active: i32) -> (r: Option<
    MacosMicrophoneModeStatus,
>)
    ensures
        match r {
            None => !supported,
            Some(s) => supported && s.preferred@ == mode_word(preferred) && s.active@ == mode_word(
                active,
            ) && s.voice_isolation_active == (mode_word(active) == "voice_isolation"@)
                && s.system_ui_available && match s.note {
                Some(note) => !s.voice_isolation_active && note@ == VOICE_ISOLATION_NOTE@,
                None => s.voice_isolation_active,
            },
        },
{
    if !supported {
        return None;
    }
    let preferred = mode_name(preferred);
    let active = mode_name(active);
    let voice_isolation_active = same(active.as_str(), "voice_isolation");
    let note = if voice_isolation_active {
        None
    } else {
        Some(owned(VOICE_ISOLATION_NOTE))
    };
    Some(
        MacosMicrophoneModeStatus {
            preferred,
            active,
            voice_isolation_active,
            system_ui_available: true,
            note,
        },
    )
}

/// What the operator is told of the microphone modes.
pub fn context_note(status: Option<MacosMicrophoneModeStatus>) -> (r: Option<String>)
    ensures
        r == (match status {
            Some(s) => if s.voice_isolation_active {
                None
            } else {
                s.note
            },
            None => None,
        }),
{
    match status {
        Some(s) => if s.voice_isolation_active {
            None
        } else {
            s.note
        },
        None => None,
    }
}

/// The audio of a phone: whether it is an iPhone, and what the preparation of its
/// audio session gave.
#[derive(Debug)]
pub struct DefaultMobileAudioPlatform {
    pub ios: bool,
    pub session: Result<(), String>,
}

impl ClientAudioBackend for DefaultMobileAudioPlatform {
    fn kind(&self) -> (r: ClientAudioBackendKind)
        ensures
            r == (if self.ios {
                ClientAudioBackendKind::IosAvAudioSession
            } else {
                ClientAudioBackendKind::Raw
            }),
    {
        if self.ios {
            ClientAudioBackendKind::IosAvAudioSession
        } else {
            ClientAudioBackendKind::Raw
        }
    }

    fn prepare(&self) -> (r: Result<(), String>)
        ensures
            match self.session {
                Err(m) => if self.ios {
                    r matches Err(e) && e@ == (if m@.len() == 0 {
                        "iOS audio session setup failed"@
                    } else {
                        m@
                    })
                } else {
                    r is Ok
                },
                Ok(_) => r is Ok,
            },
    {
        if !self.ios {
            return Ok(());
        }
        match &self.session {
            Ok(_) => Ok(()),
            Err(m) => Err(audio_session_error(m.clone())),
        }
    }
}

} // verus!
