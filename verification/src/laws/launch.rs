//! Starting the client and its windows.

use vstd::prelude::*;

use crate::launch::{
    audio_session_error, build_launch_plan, mobile_controls_url, mobile_runtime_phase_name,
    mobile_state, open_command_for_platform, opens_window, summarize_state_fields, url_to_open,
    AppLaunchPlan, HostPlatform, NativeTrayAction, OpenCommand, RuntimeCheck, WindowKind,
    WindowRuntime,
};
use crate::net::SocketAddress;
use crate::settings::{AppSettings, AppWindowMode};
use crate::telemetry::{CaptureHealthStatus, ClientTelemetryRuntimeStatus};
use crate::text::{decimal, texts};
use crate::ui::{ClientRuntimePhase, StateResponse};

verus! {

/// A window opens unless devices are only listed, the local page is off, or windows are.
pub proof fn windows_open_where_wanted(
    s: &mut AppSettings,
    list_devices: bool,
    bound: SocketAddress,
    r: AppLaunchPlan,
    wanted: bool,
    address: String,
)
    requires
        call_ensures(build_launch_plan, (s, list_devices, bound), r),
        call_ensures(opens_window, (old(s), list_devices), wanted),
        call_ensures(SocketAddress::to_text, (&bound,), address),
    ensures
        wanted <==> !list_devices && !old(s).disable_local_ui && old(s).window_mode
            != AppWindowMode::Disabled,
        r.opens_window == wanted && r.window_mode == old(s).window_mode && r.app_title
            == old(s).app_title,
        r.local_ui_url is Some <==> wanted,
        wanted ==> r.local_ui_url->Some_0@ == "http://"@ + address@ + "/"@,
        wanted ==> final(s).local_ui_bind == bound,
        !wanted ==> *final(s) == *old(s),
        final(s).server == old(s).server && final(s).user_id == old(s).user_id,
{
}

/// The page is opened in a browser where the browser is what is asked for.
pub proof fn pages_open_in_the_browser_asked_for(plan: AppLaunchPlan, r: Option<String>)
    requires
        call_ensures(url_to_open, (&plan,), r),
    ensures
        plan.window_mode == AppWindowMode::SystemBrowser ==> r == plan.local_ui_url,
        plan.window_mode != AppWindowMode::SystemBrowser ==> r is None,
{
}

/// Each platform has its own program for opening a page, which is told the page last.
pub proof fn pages_are_opened_by_the_platform(url: &str, platform: HostPlatform, r: OpenCommand)
    requires
        call_ensures(open_command_for_platform, (url, platform), r),
    ensures
        platform == HostPlatform::Macos ==> r.program@ == "open"@,
        platform == HostPlatform::Windows ==> r.program@ == "cmd"@,
        platform == HostPlatform::Linux ==> r.program@ == "xdg-open"@,
        r.args@.len() > 0 && r.args@.last()@ == url@,
        platform != HostPlatform::Windows ==> r.args@.len() == 1,
        platform == HostPlatform::Windows ==> r.args@.len() == 4 && r.args@[0]@ == "/C"@
            && r.args@[1]@ == "start"@ && r.args@[2]@ == ""@,
{
    let t = texts(r.args@);
    assert(t.len() == r.args@.len());
    assert(t[t.len() - 1] == r.args@.last()@);
    if platform == HostPlatform::Windows {
        assert(t[0] == r.args@[0]@ && t[1] == r.args@[1]@ && t[2] == r.args@[2]@);
    }
}

// ---------------------------------------------------------------------------
// The client of a window
// ---------------------------------------------------------------------------

/// A window begins without a client, and begins one only where it has none.
pub proof fn clients_are_begun_once(
    kind: WindowKind,
    fresh: WindowRuntime,
    w: &mut WindowRuntime,
    began: bool,
)
    requires
        call_ensures(WindowRuntime::new, (kind,), fresh),
        call_ensures(WindowRuntime::begin, (w,), began),
    ensures
        !fresh.present && fresh.phase == ClientRuntimePhase::Stopped && fresh.last_error is None
            && fresh.kind == kind,
        began <==> !old(w).present,
        old(w).present ==> *final(w) == *old(w),
        !old(w).present ==> final(w).phase == ClientRuntimePhase::Starting && final(w).last_error is None && !final(w).present,
{
}

/// A client that started runs, one that failed or stopped is gone; only a failure leaves
/// an error.
pub proof fn clients_start_fail_and_stop(
    a: &mut WindowRuntime,
    b: &mut WindowRuntime,
    error: String,
    c: &mut WindowRuntime,
    was: bool,
)
    requires
        call_ensures(WindowRuntime::started, (a,), ()),
        call_ensures(WindowRuntime::failed, (b, error), ()),
        call_ensures(WindowRuntime::stopped, (c,), was),
    ensures
        final(a).present && final(a).phase == ClientRuntimePhase::Running && final(a).last_error is None,
        !final(b).present && final(b).phase == ClientRuntimePhase::Failed && final(b).last_error
            == Some(error),
        !final(c).present && final(c).phase == ClientRuntimePhase::Stopped && final(c).last_error is None,
        was == old(c).present,
        final(a).kind == old(a).kind && final(b).kind == old(b).kind && final(c).kind
            == old(c).kind,
{
}

/// A client that is alive is left running; one that ended or broke is gone, and what
/// became of it is told.
pub proof fn ended_clients_are_noticed(w: &mut WindowRuntime, seen: RuntimeCheck)
    requires
        call_ensures(WindowRuntime::refresh, (w, seen), ()),
    ensures
        old(w).present && seen is Alive ==> final(w).present && final(w).phase
            == ClientRuntimePhase::Running && final(w).last_error == old(w).last_error,
        old(w).present && seen is Exited ==> !final(w).present && final(w).phase
            == ClientRuntimePhase::Stopped && final(w).last_error is Some,
        old(w).present && seen is Exited && old(w).kind == WindowKind::Mobile ==> final(w).last_error->Some_0@ == "mobile"@ + " client runtime exited"@,
        old(w).present && seen is Exited && old(w).kind == WindowKind::Native ==> final(w).last_error->Some_0@ == "native"@ + " client runtime exited"@,
        old(w).present ==> (seen matches RuntimeCheck::Broke(e) ==> !final(w).present && final(w).phase == ClientRuntimePhase::Failed && final(w).last_error == Some(e)),
        !old(w).present ==> !final(w).present && final(w).last_error == old(w).last_error,
        !old(w).present && old(w).phase == ClientRuntimePhase::Failed ==> final(w).phase
            == ClientRuntimePhase::Failed,
        !old(w).present && old(w).phase != ClientRuntimePhase::Failed ==> final(w).phase
            == ClientRuntimePhase::Stopped,
{
}

/// A window without a client refuses, with the error that it has.
pub proof fn windows_without_a_client_refuse(w: WindowRuntime, r: Option<String>)
    requires
        call_ensures(WindowRuntime::refusal, (&w,), r),
    ensures
        r is Some <==> !w.present,
        r is Some && w.last_error is Some ==> r->Some_0@ == w.last_error->Some_0@,
        r is Some && w.last_error is None && w.kind == WindowKind::Mobile ==> r->Some_0@
            == "mobile"@ + " client is not running"@,
        r is Some && w.last_error is None && w.kind == WindowKind::Native ==> r->Some_0@
            == "native"@ + " client is not running"@,
{
}

/// A phase is told by its name.
pub proof fn phases_have_names(phase: ClientRuntimePhase, r: &'static str)
    requires
        call_ensures(mobile_runtime_phase_name, (phase,), r),
    ensures
        phase == ClientRuntimePhase::Stopped ==> r@ == "stopped"@,
        phase == ClientRuntimePhase::Starting ==> r@ == "starting"@,
        phase == ClientRuntimePhase::Running ==> r@ == "running"@,
        phase == ClientRuntimePhase::Failed ==> r@ == "failed"@,
{
}

/// The state on a phone tells how the client runs, and is else what it was.
pub proof fn phones_tell_how_the_client_runs(
    response: StateResponse,
    runtime: ClientTelemetryRuntimeStatus,
    blank: CaptureHealthStatus,
    r: StateResponse,
)
    requires
        call_ensures(mobile_state, (response, runtime, blank), r),
    ensures
        r.telemetry is Some && r.telemetry->Some_0.runtime == Some(runtime),
        response.telemetry is Some ==> r.telemetry->Some_0.adc_input
            == response.telemetry->Some_0.adc_input && r.telemetry->Some_0.capture_channel
            == response.telemetry->Some_0.capture_channel,
        response.telemetry is None ==> r.telemetry->Some_0.adc_input@ == "mobile"@
            && r.telemetry->Some_0.capture_channel@ == "mobile"@,
        r.user_id == response.user_id && r.listen == response.listen && r.tx == response.tx
            && r.talk_mode == response.talk_mode && r.playback == response.playback,
{
}

/// What an audio session says went wrong is told, and something where it says nothing.
pub proof fn audio_sessions_tell_what_went_wrong(message: String, r: String, page: String)
    requires
        call_ensures(audio_session_error, (message,), r),
        call_ensures(mobile_controls_url, (), page),
    ensures
        message@.len() > 0 ==> r@ == message@,
        message@.len() == 0 ==> r@ == "iOS audio session setup failed"@,
        page@ == "client-controls.html"@,
{
}

// ---------------------------------------------------------------------------
// The tray
// ---------------------------------------------------------------------------

/// Each entry of the menu does what it is called.
pub proof fn menu_entries_do_what_they_are_called(id: &str, r: NativeTrayAction)
    requires
        call_ensures(NativeTrayAction::from_menu_id, (id,), r),
    ensures
        r == NativeTrayAction::Open <==> id@ == "open"@,
        r == NativeTrayAction::Settings <==> id@ == "settings"@,
        r == NativeTrayAction::Status <==> id@ == "status"@,
        r == NativeTrayAction::Mute <==> id@ == "mute"@,
        r == NativeTrayAction::Unmute <==> id@ == "unmute"@,
        r == NativeTrayAction::TalkDown <==> id@ == "talk_down"@,
        r == NativeTrayAction::TalkUp <==> id@ == "talk_up"@,
        r == NativeTrayAction::Quit <==> id@ == "quit"@,
{
    reveal_strlit("open");
    reveal_strlit("settings");
    reveal_strlit("status");
    reveal_strlit("mute");
    reveal_strlit("unmute");
    reveal_strlit("talk_down");
    reveal_strlit("talk_up");
    reveal_strlit("quit");
    assert("open"@.len() == 4 && "settings"@.len() == 8 && "status"@.len() == 6 && "mute"@.len()
        == 4 && "unmute"@.len() == 6 && "talk_down"@.len() == 9 && "talk_up"@.len() == 7
        && "quit"@.len() == 4);
    assert("open"@[0] == 'o' && "mute"@[0] == 'm' && "quit"@[0] == 'q' && "status"@[0] == 's'
        && "unmute"@[0] == 'u');
}

/// Muting and talking are sent to the client; the state is asked of it; all else needs
/// no client.
pub proof fn actions_that_need_the_client(action: NativeTrayAction, uses: bool, told: String)
    requires
        call_ensures(NativeTrayAction::uses_client_api, (action,), uses),
        call_ensures(NativeTrayAction::report, (action,), told),
    ensures
        uses <==> action == NativeTrayAction::Status || action == NativeTrayAction::Mute || action
            == NativeTrayAction::Unmute || action == NativeTrayAction::TalkDown || action
            == NativeTrayAction::TalkUp,
        action == NativeTrayAction::Mute ==> told@ == "Mute"@ + " sent"@,
        action == NativeTrayAction::Unmute ==> told@ == "Unmute"@ + " sent"@,
        action == NativeTrayAction::TalkDown ==> told@ == "TalkDown"@ + " sent"@,
        action == NativeTrayAction::TalkUp ==> told@ == "TalkUp"@ + " sent"@,
        action == NativeTrayAction::Status ==> told@ == "status refreshed"@,
{
}

/// The state in short is the number, the mode and the codec of the client.
pub proof fn states_are_told_in_short(user_id: u16, mode: &str, codec: &str, r: String)
    requires
        call_ensures(summarize_state_fields, (user_id, mode, codec), r),
    ensures
        r@ == "client "@ + decimal(user_id as nat) + " "@ + mode@ + " "@ + codec@,
{
}

} // verus!
