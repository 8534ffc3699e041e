//! The microphone modes of macOS.

use vstd::prelude::*;

use crate::mic_mode::{context_note, microphone_mode_status, mode_name};
use crate::text::decimal;
use crate::ui::MacosMicrophoneModeStatus;

verus! {

/// A mode has its name; one that is not known is named by its number.
pub proof fn modes_have_their_name(value: i32, r: String)
    requires
        call_ensures(mode_name, (value,), r),
    ensures
        value == 0 ==> r@ == "standard"@,
        value == 1 ==> r@ == "wide_spectrum"@,
        value == 2 ==> r@ == "voice_isolation"@,
        value == -1 ==> r@ == "unsupported"@,
        value > 2 ==> r@ == "unknown_"@ + decimal(value as nat),
        value < -1 ==> r@ == "unknown_"@ + ("-"@ + decimal((-value) as nat)),
{
}

/// The modes are reported where the system has them: voice isolation is on exactly while
/// it is the active mode, and the operator is told how to switch it on while it is not.
pub proof fn isolation_is_reported_while_active(
    supported: bool,
    preferred: i32,
    active: i32,
    r: Option<MacosMicrophoneModeStatus>,
    p: String,
    a: String,
    note: Option<String>,
)
    requires
        call_ensures(microphone_mode_status, (supported, preferred, active), r),
        call_ensures(mode_name, (preferred,), p),
        call_ensures(mode_name, (active,), a),
        call_ensures(context_note, (r,), note),
    ensures
        r is Some <==> supported,
        r is Some ==> r->Some_0.preferred@ == p@ && r->Some_0.active@ == a@,
        r is Some ==> (r->Some_0.voice_isolation_active <==> active == 2),
        r is Some ==> (r->Some_0.note is None <==> active == 2),
        r is None ==> note is None,
        r is Some ==> note == r->Some_0.note,
        r is Some ==> r->Some_0.system_ui_available,
{
    reveal_strlit("standard");
    reveal_strlit("wide_spectrum");
    reveal_strlit("voice_isolation");
    reveal_strlit("unsupported");
    reveal_strlit("unknown_");
    assert("voice_isolation"@[0] == 'v' && "voice_isolation"@.len() == 15);
    assert("standard"@[0] == 's' && "wide_spectrum"@[0] == 'w' && "unsupported"@[0] == 'u');
    if active > 2 || active < -1 {
        assert(a@[0] == 'u');
    }
}

} // verus!
