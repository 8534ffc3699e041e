//! The choice of audio devices and of the backend that captures audio.

use vstd::prelude::*;
use crate::text::{concat2, concat3, contains_part, has_part, owned, texts};
use crate::ui::{ClientAudioBackend, ClientAudioBackendKind, InputBackendState};

verus! {

/// A text in lower case, by the rules of Unicode.
pub uninterp spec fn unicode_lowercase(text: Seq<char>) -> Seq<char>;

/// `str::to_lowercase` gives the text in lower case, by the rules of Unicode. What
/// it gives depends on the text alone.
#[verifier::external_body]
fn to_lowercase(text: &str) -> (r: String)
    ensures
        r@ == unicode_lowercase(text@),
{
    text.to_lowercase()
}

/// A device's name holds the pattern, whatever the case of the letters.
pub open spec fn name_matches(name: Seq<char>, pattern: Seq<char>) -> bool {
    has_part(unicode_lowercase(name), unicode_lowercase(pattern))
}

/// Tells whether a name in lower case holds a pattern in lower case.
pub fn lowered_name_matches(name: &str, pattern: &str) -> (r: bool)
    ensures
        r == has_part(name@, pattern@),
{
    contains_part(name, pattern)
}

/// Tells whether a device's name holds the pattern, whatever the case of the letters.
pub fn device_name_matches(name: &str, pattern: &str) -> (r: bool)
    ensures
        r == name_matches(name@, pattern@),
{
    lowered_name_matches(to_lowercase(name).as_str(), to_lowercase(pattern).as_str())
}

/// Which device is to be used.
#[derive(Debug, Clone, Copy, PartialEq, Eq, Structural)]
pub enum DeviceChoice {
    /// The default device of the system.
    Default,
    /// The device at that position.
    Index(usize),
    /// No device matches.
    NoMatch,
}

/// The first name at or after `i` that matches, or the number of names.
pub open spec fn matching_index(names: Seq<Seq<char>>, pattern: Seq<char>, i: int) -> int
    decreases names.len() - i,
{
    if i >= names.len() {
        names.len() as int
    } else if name_matches(names[i], pattern) {
        i
    } else {
        matching_index(names, pattern, i + 1)
    }
}

/// Chooses the first device whose name matches, or the default one where no
/// pattern is given.
pub fn select_device(names: &Vec<String>, pattern: Option<&str>) -> (r: DeviceChoice)
    ensures
        r == match pattern {
            None => DeviceChoice::Default,
            Some(p) => {
                let k = matching_index(texts(names@), p@, 0);
                if k < names@.len() {
                    DeviceChoice::Index(k as usize)
                } else {
                    DeviceChoice::NoMatch
                }
            },
        },
{
    let p = match pattern {
        None => {
            return DeviceChoice::Default;
        },
        Some(p) => p,
    };
    let mut i: usize = 0;
    while i < names.len()
        invariant
            0 <= i <= names@.len(),
            pattern == Some(p),
            matching_index(texts(names@), p@, 0) == matching_index(
                texts(names@),
                p@,
                i as int,
            ),
        decreases names@.len() - i,
    {
        proof {
            assert(texts(names@)[i as int] == names@[i as int]@);
        }
        if device_name_matches(names[i].as_str(), p) {
            return DeviceChoice::Index(i);
        }
        i = i + 1;
    }
    DeviceChoice::NoMatch
}

/// The message for a pattern that matches no device of a desktop client or, in short,
/// of a bridge.
pub fn no_match_message(kind: &str, pattern: &str, bridge: bool) -> (r: String)
    ensures
        r@ == "no "@ + kind@ + " device matched `"@ + pattern@ + (if bridge {
            "`; run --list-devices"@
        } else {
            "`; run with --list-devices to inspect devices"@
        }),
{
    let head = concat3("no ", kind, " device matched `");
    let hint = if bridge {
        "`; run --list-devices"
    } else {
        "`; run with --list-devices to inspect devices"
    };
    concat3(head.as_str(), pattern, hint)
}

// ---------------------------------------------------------------------------
// The backend that captures audio
// ---------------------------------------------------------------------------

/// The capture backend that an operator asks for.
#[derive(Debug, Clone, Copy, PartialEq, Eq, Structural)]
pub enum AudioInputBackend {
    Auto,
    Raw,
    VoiceProcessing,
}

impl Default for AudioInputBackend {
    fn default() -> (r: Self)
        ensures
            r == AudioInputBackend::Auto,
    {
        AudioInputBackend::Auto
    }
}

/// The kind of a capture backend.
pub open spec fn backend_kind(b: AudioInputBackend) -> ClientAudioBackendKind {
    match b {
        AudioInputBackend::Auto => ClientAudioBackendKind::Auto,
        AudioInputBackend::Raw => ClientAudioBackendKind::Raw,
        AudioInputBackend::VoiceProcessing => ClientAudioBackendKind::VoiceProcessing,
    }
}

impl From<AudioInputBackend> for ClientAudioBackendKind {
    fn from(value: AudioInputBackend) -> (r: Self) {
        match value {
            AudioInputBackend::Auto => ClientAudioBackendKind::Auto,
            AudioInputBackend::Raw => ClientAudioBackendKind::Raw,
            AudioInputBackend::VoiceProcessing => ClientAudioBackendKind::VoiceProcessing,
        }
    }
}

impl vstd::std_specs::convert::FromSpecImpl<AudioInputBackend> for ClientAudioBackendKind {
    open spec fn obeys_from_spec() -> bool {
        true
    }

    open spec fn from_spec(value: AudioInputBackend) -> Self {
        backend_kind(value)
    }
}

/// The name of a capture backend in reports.
pub fn backend_label(b: AudioInputBackend) -> (r: &'static str)
    ensures
        r@ == match b {
            AudioInputBackend::Auto => "Auto"@,
            AudioInputBackend::Raw => "Raw"@,
            AudioInputBackend::VoiceProcessing => "VoiceProcessing"@,
        },
{
    match b {
        AudioInputBackend::Auto => "Auto",
        AudioInputBackend::Raw => "Raw",
        AudioInputBackend::VoiceProcessing => "VoiceProcessing",
    }
}

/// The backend of the desktop client that captures raw audio.
#[derive(Debug, Clone, Copy)]
pub struct DesktopCpalAudioBackend;

impl Default for DesktopCpalAudioBackend {
    fn default() -> (r: Self)
        ensures
            r == DesktopCpalAudioBackend,
    {
        DesktopCpalAudioBackend
    }
}

impl ClientAudioBackend for DesktopCpalAudioBackend {
    fn kind(&self) -> (r: ClientAudioBackendKind)
        ensures
            r == ClientAudioBackendKind::Raw,
    {
        ClientAudioBackendKind::Raw
    }

    fn prepare(&self) -> (r: Result<(), String>)
        ensures
            r is Ok,
    {
        Ok(())
    }
}

/// The backend of the desktop client that has macOS process the voice.
#[derive(Debug, Clone, Copy)]
pub struct MacosVoiceProcessingAudioBackend;

impl Default for MacosVoiceProcessingAudioBackend {
    fn default() -> (r: Self)
        ensures
            r == MacosVoiceProcessingAudioBackend,
    {
        MacosVoiceProcessingAudioBackend
    }
}

impl ClientAudioBackend for MacosVoiceProcessingAudioBackend {
    fn kind(&self) -> (r: ClientAudioBackendKind)
        ensures
            r == ClientAudioBackendKind::VoiceProcessing,
    {
        ClientAudioBackendKind::VoiceProcessing
    }

    fn prepare(&self) -> (r: Result<(), String>)
        ensures
            r is Ok,
    {
        Ok(())
    }
}

/// The capture backend that is in use.
#[derive(Debug, Clone, PartialEq, Eq)]
pub struct InputBackendStatus {
    pub requested: AudioInputBackend,
    pub active: Option<AudioInputBackend>,
    pub note: Option<String>,
}

impl InputBackendStatus {
    /// No backend is in use yet.
    pub fn starting(requested: AudioInputBackend) -> (r: Self)
        ensures
            r.requested == requested,
            r.active is None,
            r.note is Some,
            r.note->Some_0@ == "input backend is starting"@,
    {
        InputBackendStatus {
            requested,
            active: None,
            note: Some(owned("input backend is starting")),
        }
    }

    /// That backend is in use.
    pub fn active(
        requested: AudioInputBackend,
        active: AudioInputBackend,
        note: Option<String>,
    ) -> (r: Self)
        ensures
            r == (InputBackendStatus { requested, active: Some(active), note }),
    {
        InputBackendStatus { requested, active: Some(active), note }
    }

    /// The status as a client shows it.
    pub fn to_client_core(&self) -> (r: InputBackendState)
        ensures
            r.requested == backend_kind(self.requested),
            r.active == match self.active {
                Some(b) => Some(backend_kind(b)),
                None => None,
            },
            r.note == self.note,
    {
        let note = match &self.note {
            Some(s) => Some(s.clone()),
            None => None,
        };
        let active = match self.active {
            Some(b) => Some(ClientAudioBackendKind::from(b)),
            None => None,
        };
        InputBackendState { requested: ClientAudioBackendKind::from(self.requested), active, note }
    }
}

/// The system that a client runs on, as far as its voice processing goes.
#[derive(Debug, Clone, Copy, PartialEq, Eq, Structural)]
pub enum VoicePlatform {
    Macos,
    Ios,
    Other,
}

/// How audio is to be captured.
#[derive(Debug)]
pub enum InputPlan {
    /// With the raw backend, and that status.
    Raw(InputBackendStatus),
    /// With the voice processing of the system, if it can be had.
    TryVoiceProcessing,
}

/// Voice processing is wanted and can be tried.
pub open spec fn tries_voice(
    platform: VoicePlatform,
    requested: AudioInputBackend,
    device_selected: bool,
) -> bool {
    requested != AudioInputBackend::Raw && platform != VoicePlatform::Other && !device_selected
}

/// The note on why the raw backend is used, if there is one to give.
pub open spec fn raw_note(
    platform: VoicePlatform,
    requested: AudioInputBackend,
) -> Option<Seq<char>> {
    match (requested, platform) {
        (AudioInputBackend::Raw, _) => None,
        (_, VoicePlatform::Macos) => Some(
            "selected input devices use the raw backend; macOS voice processing requires the default input device"@,
        ),
        (_, VoicePlatform::Ios) => Some(
            "selected input devices use the raw backend; iOS VoiceProcessingIO requires the default input route"@,
        ),
        (AudioInputBackend::Auto, VoicePlatform::Other) => Some(
            "auto uses the raw input backend on this platform"@,
        ),
        (AudioInputBackend::VoiceProcessing, VoicePlatform::Other) => Some(
            "voice-processing input backend is only available on macOS; using raw input"@,
        ),
    }
}

fn raw_note_text(platform: VoicePlatform, requested: AudioInputBackend) -> (r: Option<String>)
    ensures
        crate::endpoint::opt_text(r) == raw_note(platform, requested),
{
    match (requested, platform) {
        (AudioInputBackend::Raw, _) => None,
        (_, VoicePlatform::Macos) => Some(
            owned(
                "selected input devices use the raw backend; macOS voice processing requires the default input device",
            ),
        ),
        (_, VoicePlatform::Ios) => Some(
            owned(
                "selected input devices use the raw backend; iOS VoiceProcessingIO requires the default input route",
            ),
        ),
        (AudioInputBackend::Auto, VoicePlatform::Other) => Some(
            owned("auto uses the raw input backend on this platform"),
        ),
        (AudioInputBackend::VoiceProcessing, VoicePlatform::Other) => Some(
            owned("voice-processing input backend is only available on macOS; using raw input"),
        ),
    }
}

/// Plans how audio is captured. Voice processing takes the default device only.
pub fn plan_input(
    platform: VoicePlatform,
    requested: AudioInputBackend,
    device_selected: bool,
) -> (r: InputPlan)
    ensures
        if tries_voice(platform, requested, device_selected) {
            r is TryVoiceProcessing
        } else {
            r matches InputPlan::Raw(s) && s.requested == requested && s.active == Some(
                AudioInputBackend::Raw,
            ) && crate::endpoint::opt_text(s.note) == raw_note(platform, requested)
        },
{
    if requested != AudioInputBackend::Raw && platform != VoicePlatform::Other && !device_selected {
        InputPlan::TryVoiceProcessing
    } else {
        InputPlan::Raw(
            InputBackendStatus::active(
                requested,
                AudioInputBackend::Raw,
                raw_note_text(platform, requested),
            ),
        )
    }
}

/// What became of the attempt to use voice processing.
#[derive(Debug)]
pub enum VoiceAttempt {
    /// It works, with a note of the system where it has one.
    Works(Option<String>),
    /// It failed, for that reason.
    Failed(String),
}

/// The status after voice processing was tried: where it failed the raw backend
/// takes its place.
pub fn voice_status(
    platform: VoicePlatform,
    requested: AudioInputBackend,
    attempt: VoiceAttempt,
) -> (r: InputBackendStatus)
    ensures
        r.requested == requested,
        match attempt {
            VoiceAttempt::Works(note) => r.active == Some(AudioInputBackend::VoiceProcessing) && (
            if platform == VoicePlatform::Ios {
                crate::endpoint::opt_text(r.note) == Some(
                    "using iOS VoiceProcessingIO input with automatic gain control"@,
                )
            } else {
                r.note == note
            }),
            VoiceAttempt::Failed(reason) => r.active == Some(AudioInputBackend::Raw)
                && crate::endpoint::opt_text(r.note) == Some(
                if platform == VoicePlatform::Ios {
                    "iOS voice processing unavailable; using raw input: "@ + reason@
                } else {
                    "macOS voice processing unavailable; using raw input: "@ + reason@
                },
            ),
        },
{
    match attempt {
        VoiceAttempt::Works(note) => {
            let note = if platform == VoicePlatform::Ios {
                Some(owned("using iOS VoiceProcessingIO input with automatic gain control"))
            } else {
                note
            };
            InputBackendStatus::active(requested, AudioInputBackend::VoiceProcessing, note)
        },
        VoiceAttempt::Failed(reason) => {
            let head = if platform == VoicePlatform::Ios {
                "iOS voice processing unavailable; using raw input: "
            } else {
                "macOS voice processing unavailable; using raw input: "
            };
            InputBackendStatus::active(
                requested,
                AudioInputBackend::Raw,
                Some(concat2(head, reason.as_str())),
            )
        },
    }
}

} // verus!
