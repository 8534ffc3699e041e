//! Devices and the backends that capture from them.

use vstd::prelude::*;

use crate::device::{
    backend_label, device_name_matches, lowered_name_matches, matching_index, no_match_message,
    plan_input, select_device, voice_status, AudioInputBackend, DeviceChoice, InputBackendStatus,
    InputPlan, VoiceAttempt, VoicePlatform,
};
use crate::text::texts;
use crate::ui::{ClientAudioBackendKind, InputBackendState};

verus! {

/// In lower case a name matches where the pattern is a part of it.
pub proof fn names_match_by_a_part(
    name: &str,
    pattern: &str,
    r: bool,
    head: Seq<char>,
    tail: Seq<char>,
)
    requires
        call_ensures(lowered_name_matches, (name, pattern), r),
    ensures
        name@ == head + pattern@ + tail ==> r,
        r ==> exists|i: int|
            0 <= i && i + pattern@.len() <= name@.len() && #[trigger] name@.subrange(
                i,
                i + pattern@.len(),
            ) == pattern@,
{
    if name@ == head + pattern@ + tail {
        let k = head.len() as int;
        assert(name@.subrange(k, k + pattern@.len()) =~= pattern@);
        assert(crate::text::occurs_at(name@, pattern@, k));
    }
    if r {
        let i = choose|i: int| #[trigger] crate::text::occurs_at(name@, pattern@, i);
        assert(name@.subrange(i, i + pattern@.len()) == pattern@);
    }
}

proof fn lemma_matching(names: Seq<Seq<char>>, pattern: Seq<char>, i: int)
    requires
        0 <= i <= names.len(),
    ensures
        i <= matching_index(names, pattern, i) <= names.len(),
        matching_index(names, pattern, i) < names.len() ==> crate::device::name_matches(
            names[matching_index(names, pattern, i)],
            pattern,
        ),
        forall|j: int|
            i <= j < matching_index(names, pattern, i) ==> !crate::device::name_matches(
                #[trigger] names[j],
                pattern,
            ),
    decreases names.len() - i,
{
    if i < names.len() && !crate::device::name_matches(names[i], pattern) {
        lemma_matching(names, pattern, i + 1);
    }
}

/// Where no device is asked for it is the default one; else it is the first whose name
/// matches, and none where no name does.
pub proof fn the_first_matching_device_is_taken(
    names: Vec<String>,
    pattern: Option<&str>,
    r: DeviceChoice,
    i: int,
    name: &str,
    matched: bool,
)
    requires
        call_ensures(select_device, (&names, pattern), r),
        0 <= i < names@.len(),
        name@ == names@[i]@,
        pattern is Some ==> call_ensures(device_name_matches, (name, pattern->Some_0), matched),
    ensures
        r == DeviceChoice::Default <==> pattern is None,
        r matches DeviceChoice::Index(k) ==> k < names@.len() && (i == k ==> matched) && (i < k
            ==> !matched),
        r == DeviceChoice::NoMatch ==> !matched,
        pattern is Some && matched ==> (r matches DeviceChoice::Index(k) && k <= i),
{
    if pattern is Some {
        let t = texts(names@);
        lemma_matching(t, pattern->Some_0@, 0);
        assert(t.len() == names@.len() && names.len() == names@.len());
        assert(t[i] == names@[i]@);
    }
}

/// The operator is told which device was asked for in vain.
pub proof fn missing_devices_are_told(kind: &str, pattern: &str, bridge: bool, r: String)
    requires
        call_ensures(no_match_message, (kind, pattern, bridge), r),
    ensures
        ({
            let start = "no "@ + kind@ + " device matched `"@ + pattern@;
            &&& bridge ==> r@ == start + "`; run --list-devices"@
            &&& !bridge ==> r@ == start + "`; run with --list-devices to inspect devices"@
        }),
{
}

/// Voice processing is tried exactly where the system has it, no device was chosen, and
/// raw audio was not asked for. Otherwise audio is raw, and the operator is told why
/// unless they asked for it.
pub proof fn voice_processing_is_tried_where_it_can_be(
    platform: VoicePlatform,
    requested: AudioInputBackend,
    chosen: bool,
    r: InputPlan,
)
    requires
        call_ensures(plan_input, (platform, requested, chosen), r),
    ensures
        r is TryVoiceProcessing <==> requested != AudioInputBackend::Raw && platform
            != VoicePlatform::Other && !chosen,
        r matches InputPlan::Raw(s) ==> s.requested == requested && s.active == Some(
            AudioInputBackend::Raw,
        ) && (s.note is None <==> requested == AudioInputBackend::Raw),
{
}

/// Voice processing that works is the backend in use; where it fails raw audio is, and
/// the operator is told the reason.
pub proof fn failed_voice_processing_falls_back(
    platform: VoicePlatform,
    requested: AudioInputBackend,
    attempt: VoiceAttempt,
    r: InputBackendStatus,
)
    requires
        call_ensures(voice_status, (platform, requested, attempt), r),
    ensures
        r.requested == requested,
        attempt is Works <==> r.active == Some(AudioInputBackend::VoiceProcessing),
        attempt is Failed <==> r.active == Some(AudioInputBackend::Raw),
        attempt matches VoiceAttempt::Failed(reason) ==> r.note is Some && reason@.len()
            <= r.note->Some_0@.len() && r.note->Some_0@.skip(
            r.note->Some_0@.len() - reason@.len(),
        ) == reason@,
        attempt matches VoiceAttempt::Works(note) ==> platform != VoicePlatform::Ios ==> r.note
            == note,
{
    if let VoiceAttempt::Failed(reason) = attempt {
        let n = r.note->Some_0@;
        assert(n.skip(n.len() - reason@.len()) =~= reason@);
    }
}

/// A backend is shown as what was asked for and what is in use.
pub proof fn backends_are_shown(
    requested: AudioInputBackend,
    start: InputBackendStatus,
    active: AudioInputBackend,
    note: Option<String>,
    s: InputBackendStatus,
    r: InputBackendState,
    label: &'static str,
)
    requires
        call_ensures(InputBackendStatus::starting, (requested,), start),
        call_ensures(InputBackendStatus::active, (requested, active, note), s),
        call_ensures(InputBackendStatus::to_client_core, (&s,), r),
        call_ensures(backend_label, (requested,), label),
    ensures
        start.requested == requested && start.active is None && start.note is Some,
        s.requested == requested && s.active == Some(active) && s.note == note,
        r.note == note,
        r.requested == ClientAudioBackendKind::Auto <==> requested == AudioInputBackend::Auto,
        r.requested == ClientAudioBackendKind::Raw <==> requested == AudioInputBackend::Raw,
        r.requested == ClientAudioBackendKind::VoiceProcessing <==> requested
            == AudioInputBackend::VoiceProcessing,
        r.active is Some,
        r.active == Some(ClientAudioBackendKind::Raw) <==> active == AudioInputBackend::Raw,
        r.active == Some(ClientAudioBackendKind::VoiceProcessing) <==> active
            == AudioInputBackend::VoiceProcessing,
        requested == AudioInputBackend::Auto ==> label@ == "Auto"@,
        requested == AudioInputBackend::Raw ==> label@ == "Raw"@,
        requested == AudioInputBackend::VoiceProcessing ==> label@ == "VoiceProcessing"@,
{
}

} // verus!
