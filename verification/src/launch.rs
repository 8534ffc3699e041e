//! Starting a client with a window, and watching it.

use vstd::prelude::*;

use crate::settings::{AppSettings, AppWindowMode};
use crate::net::SocketAddress;
use crate::telemetry::{CaptureHealthStatus, ClientTelemetryRuntimeStatus};
use crate::text::{concat2, concat3, concat4, decimal, owned, same, texts, u64_text};
use crate::ui::{ClientRuntimePhase, StateResponse};
use crate::web::address_text;

verus! {

/// How the controls of a client are shown.
#[derive(Debug, Clone, PartialEq, Eq)]
pub struct AppLaunchPlan {
    pub app_title: String,
    pub window_mode: AppWindowMode,
    pub local_ui_url: Option<String>,
    pub opens_window: bool,
}

/// The settings ask for a window.
pub open spec fn wants_window(s: AppSettings, list_devices: bool) -> bool {
    !list_devices && !s.disable_local_ui && s.window_mode != AppWindowMode::Disabled
}

/// Tells whether the settings ask for a window, and so for a free local address.
pub fn opens_window(settings: &AppSettings, list_devices: bool) -> (r: bool)
    ensures
        r == wants_window(*settings, list_devices),
{
    !list_devices && !settings.disable_local_ui && settings.window_mode != AppWindowMode::Disabled
}

/// Plans how the controls are shown. `bound` is the free local address, which
/// takes the place of that in the settings; it is used only where a window is
/// asked for.
pub fn build_launch_plan(settings: &mut AppSettings, list_devices: bool, bound: SocketAddress) -> (r:
    AppLaunchPlan)
    ensures
        *final(settings) == (if wants_window(*old(settings), list_devices) {
            AppSettings { local_ui_bind: bound, ..*old(settings) }
        } else {
            *old(settings)
        }),
        r.app_title == old(settings).app_title,
        r.window_mode == old(settings).window_mode,
        r.opens_window == wants_window(*old(settings), list_devices),
        match r.local_ui_url {
            Some(url) => r.opens_window && url@ == "http://"@ + address_text(bound.ip@, bound.port)
                + "/"@,
            None => !r.opens_window,
        },
{
    let opens = opens_window(settings, list_devices);
    let local_ui_url = if opens {
        let url = concat3("http://", bound.to_text().as_str(), "/");
        settings.local_ui_bind = bound;
        Some(url)
    } else {
        None
    };
    AppLaunchPlan {
        app_title: settings.app_title.clone(),
        window_mode: settings.window_mode,
        local_ui_url,
        opens_window: opens,
    }
}

/// The URL that a browser is to open for a plan, where one is to.
pub fn url_to_open(plan: &AppLaunchPlan) -> (r: Option<String>)
    ensures
        r == (if plan.window_mode == AppWindowMode::SystemBrowser {
            plan.local_ui_url
        } else {
            None
        }),
{
    if plan.window_mode != AppWindowMode::SystemBrowser {
        return None;
    }
    match &plan.local_ui_url {
        Some(url) => Some(url.clone()),
        None => None,
    }
}

/// A kind of machine.
#[derive(Debug, Clone, Copy, PartialEq, Eq, Structural)]
pub enum HostPlatform {
    Macos,
    Windows,
    Linux,
}

/// A program and its arguments.
#[derive(Debug, Clone, PartialEq, Eq)]
pub struct OpenCommand {
    pub program: String,
    pub args: Vec<String>,
}

/// The command that opens a URL.
pub fn open_command_for_platform(url: &str, platform: HostPlatform) -> (r: OpenCommand)
    ensures
        match platform {
            HostPlatform::Macos => r.program@ == "open"@ && texts(r.args@) == seq![url@],
            HostPlatform::Windows => r.program@ == "cmd"@ && texts(r.args@) == seq![
                "/C"@,
                "start"@,
                ""@,
                url@,
            ],
            HostPlatform::Linux => r.program@ == "xdg-open"@ && texts(r.args@) == seq![url@],
        },
{
    let mut args: Vec<String> = Vec::new();
    match platform {
        HostPlatform::Macos => {
            args.push(owned(url));
            proof {
                assert(texts(args@) =~= seq![url@]);
            }
            OpenCommand { program: owned("open"), args }
        },
        HostPlatform::Windows => {
            args.push(owned("/C"));
            args.push(owned("start"));
            args.push(owned(""));
            args.push(owned(url));
            proof {
                assert(texts(args@) =~= seq!["/C"@, "start"@, ""@, url@]);
            }
            OpenCommand { program: owned("cmd"), args }
        },
        HostPlatform::Linux => {
            args.push(owned(url));
            proof {
                assert(texts(args@) =~= seq![url@]);
            }
            OpenCommand { program: owned("xdg-open"), args }
        },
    }
}

// ---------------------------------------------------------------------------
// The runtime behind a window

/// The device whose window shows a client.
#[derive(Debug, Clone, Copy, PartialEq, Eq, Structural)]
pub enum WindowKind {
    Mobile,
    Native,
}

/// What is known of the client behind a window.
#[derive(Debug, Clone)]
pub struct WindowRuntime {
    pub kind: WindowKind,
    /// There is a client.
    pub present: bool,
    pub phase: ClientRuntimePhase,
    pub last_error: Option<String>,
}

/// What is seen of a client that there is.
#[derive(Debug)]
pub enum RuntimeCheck {
    Alive,
    Exited,
    Broke(String),
}

/// The word for the kind of a window.
pub open spec fn kind_word(kind: WindowKind) -> Seq<char> {
    match kind {
        WindowKind::Mobile => "mobile"@,
        WindowKind::Native => "native"@,
    }
}

fn kind_text(kind: WindowKind) -> (r: &'static str)
    ensures
        r@ == kind_word(kind),
{
    match kind {
        WindowKind::Mobile => "mobile",
        WindowKind::Native => "native",
    }
}

impl WindowRuntime {
    /// The phase agrees with whether there is a client.
    pub open spec fn settled(self) -> bool {
        if self.present {
            self.phase == ClientRuntimePhase::Running
        } else {
            self.phase == ClientRuntimePhase::Stopped || self.phase == ClientRuntimePhase::Failed
        }
    }

    /// There is no client yet.
    pub fn new(kind: WindowKind) -> (r: Self)
        ensures
            r == (WindowRuntime {
                kind,
                present: false,
                phase: ClientRuntimePhase::Stopped,
                last_error: None,
            }),
            r.settled(),
    {
        WindowRuntime {
            kind,
            present: false,
            phase: ClientRuntimePhase::Stopped,
            last_error: None,
        }
    }

    /// Takes what is seen of the client, where there is one.
    pub fn refresh(&mut self, seen: RuntimeCheck)
        ensures
            final(self).settled(),
            final(self).kind == old(self).kind,
            if !old(self).present {
                *final(self) == (WindowRuntime {
                    phase: if old(self).phase == ClientRuntimePhase::Failed {
                        ClientRuntimePhase::Failed
                    } else {
                        ClientRuntimePhase::Stopped
                    },
                    ..*old(self)
                })
            } else {
                match seen {
                    RuntimeCheck::Alive => *final(self) == (WindowRuntime {
                        phase: ClientRuntimePhase::Running,
                        ..*old(self)
                    }),
                    RuntimeCheck::Exited => !final(self).present && final(self).phase
                        == ClientRuntimePhase::Stopped && final(self).last_error is Some
                        && final(self).last_error->Some_0@ == kind_word(old(self).kind)
                        + " client runtime exited"@,
                    RuntimeCheck::Broke(e) => *final(self) == (WindowRuntime {
                        present: false,
                        phase: ClientRuntimePhase::Failed,
                        last_error: Some(e),
                        ..*old(self)
                    }),
                }
            },
    {
        if !self.present {
            if self.phase != ClientRuntimePhase::Failed {
                self.phase = ClientRuntimePhase::Stopped;
            }
            return;
        }
        match seen {
            RuntimeCheck::Alive => {
                self.phase = ClientRuntimePhase::Running;
            },
            RuntimeCheck::Exited => {
                self.present = false;
                self.phase = ClientRuntimePhase::Stopped;
                self.last_error = Some(concat2(kind_text(self.kind), " client runtime exited"));
            },
            RuntimeCheck::Broke(e) => {
                self.present = false;
                self.phase = ClientRuntimePhase::Failed;
                self.last_error = Some(e);
            },
        }
    }

    /// A client is being started, unless there is one. The result tells which.
    pub fn begin(&mut self) -> (r: bool)
        ensures
            r == !old(self).present,
            *final(self) == (if old(self).present {
                *old(self)
            } else {
                WindowRuntime {
                    phase: ClientRuntimePhase::Starting,
                    last_error: None,
                    ..*old(self)
                }
            }),
    {
        if self.present {
            return false;
        }
        self.phase = ClientRuntimePhase::Starting;
        self.last_error = None;
        true
    }

    /// The client runs.
    pub fn started(&mut self)
        ensures
            final(self).settled(),
            *final(self) == (WindowRuntime {
                present: true,
                phase: ClientRuntimePhase::Running,
                last_error: None,
                ..*old(self)
            }),
    {
        self.present = true;
        self.phase = ClientRuntimePhase::Running;
        self.last_error = None;
    }

    /// The client could not be started.
    pub fn failed(&mut self, error: String)
        ensures
            final(self).settled(),
            *final(self) == (WindowRuntime {
                present: false,
                phase: ClientRuntimePhase::Failed,
                last_error: Some(error),
                ..*old(self)
            }),
    {
        self.present = false;
        self.phase = ClientRuntimePhase::Failed;
        self.last_error = Some(error);
    }

    /// The client was stopped. The result tells whether there was one.
    pub fn stopped(&mut self) -> (r: bool)
        ensures
            r == old(self).present,
            final(self).settled(),
            *final(self) == (WindowRuntime {
                present: false,
                phase: ClientRuntimePhase::Stopped,
                last_error: None,
                ..*old(self)
            }),
    {
        let was = self.present;
        self.present = false;
        self.phase = ClientRuntimePhase::Stopped;
        self.last_error = None;
        was
    }

    /// Why a request to the client cannot be met, where there is no client.
    pub fn refusal(&self) -> (r: Option<String>)
        ensures
            match r {
                None => self.present,
                Some(m) => !self.present && m@ == match self.last_error {
                    Some(e) => e@,
                    None => kind_word(self.kind) + " client is not running"@,
                },
            },
    {
        if self.present {
            return None;
        }
        match &self.last_error {
            Some(e) => Some(e.clone()),
            None => Some(concat2(kind_text(self.kind), " client is not running")),
        }
    }
}

/// The name of a phase.
pub fn mobile_runtime_phase_name(phase: ClientRuntimePhase) -> (r: &'static str)
    ensures
        r@ == match phase {
            ClientRuntimePhase::Stopped => "stopped"@,
            ClientRuntimePhase::Starting => "starting"@,
            ClientRuntimePhase::Running => "running"@,
            ClientRuntimePhase::Failed => "failed"@,
        },
{
    match phase {
        ClientRuntimePhase::Stopped => "stopped",
        ClientRuntimePhase::Starting => "starting",
        ClientRuntimePhase::Running => "running",
        ClientRuntimePhase::Failed => "failed",
    }
}

/// The state of a client as a phone shows it: with how the client runs. `blank`
/// is a report in which nothing is said.
pub fn mobile_state(
    response: StateResponse,
    runtime: ClientTelemetryRuntimeStatus,
    blank: CaptureHealthStatus,
) -> (r: StateResponse)
    ensures
        r == (StateResponse { telemetry: r.telemetry, ..response }),
        match response.telemetry {
            Some(t) => r.telemetry == Some(CaptureHealthStatus { runtime: Some(runtime), ..t }),
            None => r.telemetry is Some && r.telemetry->Some_0 == (CaptureHealthStatus {
                runtime: Some(runtime),
                adc_input: r.telemetry->Some_0.adc_input,
                capture_channel: r.telemetry->Some_0.capture_channel,
                ..blank
            }) && r.telemetry->Some_0.adc_input@ == "mobile"@
                && r.telemetry->Some_0.capture_channel@ == "mobile"@,
        },
{
    let mut response = response;
    let telemetry = match response.telemetry {
        Some(t) => {
            let mut t = t;
            t.runtime = Some(runtime);
            t
        },
        None => {
            let mut t = blank;
            t.runtime = Some(runtime);
            t.adc_input = owned("mobile");
            t.capture_channel = owned("mobile");
            t
        },
    };
    response.telemetry = Some(telemetry);
    response
}

/// The page with the controls of a client behind a window.
pub fn mobile_controls_url() -> (r: String)
    ensures
        r@ == "client-controls.html"@,
{
    owned("client-controls.html")
}

/// What a failed preparation of the audio session says.
pub fn audio_session_error(message: String) -> (r: String)
    ensures
        r@ == (if message@.len() == 0 {
            "iOS audio session setup failed"@
        } else {
            message@
        }),
{
    if message.as_str().is_empty() {
        owned("iOS audio session setup failed")
    } else {
        message
    }
}

// ---------------------------------------------------------------------------
// The tray

pub const MENU_OPEN: &'static str = "open";

pub const MENU_SETTINGS: &'static str = "settings";

pub const MENU_STATUS: &'static str = "status";

pub const MENU_MUTE: &'static str = "mute";

pub const MENU_UNMUTE: &'static str = "unmute";

pub const MENU_TALK_DOWN: &'static str = "talk_down";

pub const MENU_TALK_UP: &'static str = "talk_up";

pub const MENU_QUIT: &'static str = "quit";

/// What an entry of the tray menu asks for.
#[derive(Debug, Clone, Copy, PartialEq, Eq, Structural)]
pub enum NativeTrayAction {
    Open,
    Settings,
    Status,
    Mute,
    Unmute,
    TalkDown,
    TalkUp,
    Quit,
    Unknown,
}

/// What the entry with that id asks for.
pub open spec fn menu_action(id: Seq<char>) -> NativeTrayAction {
    if id == MENU_OPEN@ {
        NativeTrayAction::Open
    } else if id == MENU_SETTINGS@ {
        NativeTrayAction::Settings
    } else if id == MENU_STATUS@ {
        NativeTrayAction::Status
    } else if id == MENU_MUTE@ {
        NativeTrayAction::Mute
    } else if id == MENU_UNMUTE@ {
        NativeTrayAction::Unmute
    } else if id == MENU_TALK_DOWN@ {
        NativeTrayAction::TalkDown
    } else if id == MENU_TALK_UP@ {
        NativeTrayAction::TalkUp
    } else if id == MENU_QUIT@ {
        NativeTrayAction::Quit
    } else {
        NativeTrayAction::Unknown
    }
}

/// The name of what an entry of the tray menu asks for.
pub open spec fn action_word(action: NativeTrayAction) -> Seq<char> {
    match action {
        NativeTrayAction::Open => "Open"@,
        NativeTrayAction::Settings => "Settings"@,
        NativeTrayAction::Status => "Status"@,
        NativeTrayAction::Mute => "Mute"@,
        NativeTrayAction::Unmute => "Unmute"@,
        NativeTrayAction::TalkDown => "TalkDown"@,
        NativeTrayAction::TalkUp => "TalkUp"@,
        NativeTrayAction::Quit => "Quit"@,
        NativeTrayAction::Unknown => "Unknown"@,
    }
}

impl NativeTrayAction {
    /// The client is needed for it.
    pub open spec fn needs_client(self) -> bool {
        ||| self == NativeTrayAction::Status
        ||| self.sends()
    }

    /// The client is told to do something.
    pub open spec fn sends(self) -> bool {
        ||| self == NativeTrayAction::Mute
        ||| self == NativeTrayAction::Unmute
        ||| self == NativeTrayAction::TalkDown
        ||| self == NativeTrayAction::TalkUp
    }

    /// What the entry with that id asks for.
    pub fn from_menu_id(id: &str) -> (r: Self)
        ensures
            r == menu_action(id@),
    {
        if same(id, MENU_OPEN) {
            NativeTrayAction::Open
        } else if same(id, MENU_SETTINGS) {
            NativeTrayAction::Settings
        } else if same(id, MENU_STATUS) {
            NativeTrayAction::Status
        } else if same(id, MENU_MUTE) {
            NativeTrayAction::Mute
        } else if same(id, MENU_UNMUTE) {
            NativeTrayAction::Unmute
        } else if same(id, MENU_TALK_DOWN) {
            NativeTrayAction::TalkDown
        } else if same(id, MENU_TALK_UP) {
            NativeTrayAction::TalkUp
        } else if same(id, MENU_QUIT) {
            NativeTrayAction::Quit
        } else {
            NativeTrayAction::Unknown
        }
    }

    /// Tells whether the client is needed for it.
    pub fn uses_client_api(self) -> (r: bool)
        ensures
            r == self.needs_client(),
    {
        self == NativeTrayAction::Status || self == NativeTrayAction::Mute || self
            == NativeTrayAction::Unmute || self == NativeTrayAction::TalkDown || self
            == NativeTrayAction::TalkUp
    }

    /// What the tray shows after the client was told.
    pub fn report(self) -> (r: String)
        ensures
            r@ == (if self.sends() {
                action_word(self) + " sent"@
            } else {
                "status refreshed"@
            }),
    {
        match self {
            NativeTrayAction::Mute => concat2("Mute", " sent"),
            NativeTrayAction::Unmute => concat2("Unmute", " sent"),
            NativeTrayAction::TalkDown => concat2("TalkDown", " sent"),
            NativeTrayAction::TalkUp => concat2("TalkUp", " sent"),
            _ => owned("status refreshed"),
        }
    }
}

/// The state of a client in one line.
pub fn summarize_state_fields(user_id: u16, talk_mode: &str, codec: &str) -> (r: String)
    ensures
        r@ == "client "@ + decimal(user_id as nat) + " "@ + talk_mode@ + " "@ + codec@,
{
    let head = concat4("client ", u64_text(user_id as u64).as_str(), " ", talk_mode);
    concat3(head.as_str(), " ", codec)
}

} // verus!
