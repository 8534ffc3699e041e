//! Buttons and lamps on the pins of a small computer.

use vstd::prelude::*;

use crate::endpoint::opt_str;
use crate::json::{json_text, read_json_text, text_read};
use crate::text::{
    blank, chars_of, concat3, concat4, decimal, find_last, has_prefix, is_blank, last_index, owned,
    parse_u16, parse_unsigned, same, starts_with, string_of, strip_prefix, texts, trim, trimmed,
    u64_text,
};
use crate::web::{
    encode_path_segment, first_line, header_body, path_segment, read_first_line, split_response,
    trim_end_char, without_trailing,
};

verus! {

/// How a button works.
#[derive(Debug, Clone, Copy, PartialEq, Eq, Structural)]
pub enum ButtonMode {
    /// The button acts while it is held.
    Momentary,
    /// Each press of the button toggles.
    Latching,
}

impl Default for ButtonMode {
    fn default() -> (r: Self)
        ensures
            r == ButtonMode::Momentary,
    {
        ButtonMode::Momentary
    }
}

/// What a button does.
#[derive(Debug, Clone, PartialEq, Eq)]
pub enum ButtonAction {
    RegularTalk,
    TalkButton { button_id: String },
}

/// A button on a pin.
#[derive(Debug, Clone, PartialEq, Eq)]
pub struct GpioButton {
    pub name: String,
    pub gpio: u32,
    /// The pin is low while the button is pressed.
    pub active_low: bool,
    pub mode: ButtonMode,
    pub action: ButtonAction,
}

/// A lamp on a pin.
#[derive(Debug, Clone, PartialEq, Eq)]
pub struct GpioOutput {
    pub name: String,
    pub gpio: u32,
    /// The pin is low while the lamp is lit.
    pub active_low: bool,
}

/// The lamps that show the tally.
#[derive(Debug, Clone, PartialEq, Eq)]
pub struct GpioOutputs {
    pub preview: Option<GpioOutput>,
    pub live: Option<GpioOutput>,
}

impl Default for GpioOutputs {
    fn default() -> (r: Self)
        ensures
            r.preview is None,
            r.live is None,
    {
        GpioOutputs { preview: None, live: None }
    }
}

/// The pins that are used, and how often they are looked at.
#[derive(Debug, Clone, PartialEq, Eq)]
pub struct GpioConfig {
    pub debounce_ms: u64,
    pub poll_ms: u64,
    pub tally_poll_ms: u64,
    pub outputs: GpioOutputs,
    pub buttons: Vec<GpioButton>,
}

/// How often the tally is asked for, unless it is said.
pub const DEFAULT_TALLY_POLL_MS: u64 = 500;

impl Default for GpioConfig {
    fn default() -> (r: Self)
        ensures
            r.debounce_ms == 30,
            r.poll_ms == 20,
            r.tally_poll_ms == DEFAULT_TALLY_POLL_MS,
            r.outputs.preview is None,
            r.outputs.live is None,
            r.buttons@.len() == 2,
            r.buttons@[0].name@ == "regular-talk"@,
            r.buttons@[0].gpio == 17,
            r.buttons@[0].active_low,
            r.buttons@[0].mode == ButtonMode::Momentary,
            r.buttons@[0].action is RegularTalk,
            r.buttons@[1].name@ == "director"@,
            r.buttons@[1].gpio == 27,
            r.buttons@[1].active_low,
            r.buttons@[1].mode == ButtonMode::Momentary,
            r.buttons@[1].action is TalkButton,
            r.buttons@[1].action->button_id@ == "director"@,
    {
        let mut buttons: Vec<GpioButton> = Vec::new();
        buttons.push(
            GpioButton {
                name: owned("regular-talk"),
                gpio: 17,
                active_low: true,
                mode: ButtonMode::Momentary,
                action: ButtonAction::RegularTalk,
            },
        );
        buttons.push(
            GpioButton {
                name: owned("director"),
                gpio: 27,
                active_low: true,
                mode: ButtonMode::Momentary,
                action: ButtonAction::TalkButton { button_id: owned("director") },
            },
        );
        GpioConfig {
            debounce_ms: 30,
            poll_ms: 20,
            tally_poll_ms: DEFAULT_TALLY_POLL_MS,
            outputs: GpioOutputs::default(),
            buttons,
        }
    }
}

/// A lamp without a name.
pub open spec fn nameless(output: Option<GpioOutput>) -> bool {
    match output {
        Some(o) => is_blank(o.name@),
        None => false,
    }
}

fn is_nameless(output: &Option<GpioOutput>) -> (r: bool)
    ensures
        r == nameless(*output),
{
    match output {
        Some(o) => blank(o.name.as_str()),
        None => false,
    }
}

/// What is wrong with a button, if anything.
pub open spec fn button_fault(b: GpioButton) -> Option<Seq<char>> {
    if is_blank(b.name@) {
        Some("GPIO button name cannot be empty"@)
    } else {
        match b.action {
            ButtonAction::RegularTalk => None,
            ButtonAction::TalkButton { button_id } => if is_blank(button_id@) {
                Some("GPIO talk button action requires a button_id"@)
            } else {
                None
            },
        }
    }
}

/// What is wrong with the first `n` buttons, if anything: the first fault counts.
pub open spec fn gpio_buttons_fault(s: Seq<GpioButton>, n: int) -> Option<Seq<char>>
    decreases n,
{
    if n <= 0 {
        None
    } else if gpio_buttons_fault(s, n - 1) is Some {
        gpio_buttons_fault(s, n - 1)
    } else {
        button_fault(s[n - 1])
    }
}

/// What is wrong with a configuration, if anything: the first fault counts.
pub open spec fn gpio_fault(c: GpioConfig) -> Option<Seq<char>> {
    if c.buttons@.len() == 0 && c.outputs.preview is None && c.outputs.live is None {
        Some("GPIO config must define at least one button or tally output"@)
    } else if nameless(c.outputs.preview) || nameless(c.outputs.live) {
        Some("GPIO output name cannot be empty"@)
    } else {
        gpio_buttons_fault(c.buttons@, c.buttons@.len() as int)
    }
}

proof fn lemma_first_gpio_fault(s: Seq<GpioButton>, i: int, n: int)
    requires
        0 <= i <= n,
        gpio_buttons_fault(s, i) is Some,
    ensures
        gpio_buttons_fault(s, n) == gpio_buttons_fault(s, i),
    decreases n,
{
    if i < n {
        lemma_first_gpio_fault(s, i, n - 1);
    }
}

/// Checks a configuration.
pub fn validate_config(config: &GpioConfig) -> (r: Result<(), String>)
    ensures
        match r {
            Ok(_) => gpio_fault(*config) is None,
            Err(m) => gpio_fault(*config) == Some(m@),
        },
{
    if config.buttons.len() == 0 && config.outputs.preview.is_none()
        && config.outputs.live.is_none() {
        return Err(owned("GPIO config must define at least one button or tally output"));
    }
    if is_nameless(&config.outputs.preview) || is_nameless(&config.outputs.live) {
        return Err(owned("GPIO output name cannot be empty"));
    }
    let n = config.buttons.len();
    let mut i: usize = 0;
    while i < n
        invariant
            n == config.buttons@.len(),
            0 <= i <= n,
            !(n == 0 && config.outputs.preview is None && config.outputs.live is None),
            !nameless(config.outputs.preview) && !nameless(config.outputs.live),
            gpio_buttons_fault(config.buttons@, i as int) is None,
        decreases n - i,
    {
        proof {
            if gpio_buttons_fault(config.buttons@, i + 1) is Some {
                lemma_first_gpio_fault(config.buttons@, i + 1, n as int);
            }
        }
        if blank(config.buttons[i].name.as_str()) {
            return Err(owned("GPIO button name cannot be empty"));
        }
        match &config.buttons[i].action {
            ButtonAction::RegularTalk => {},
            ButtonAction::TalkButton { button_id } => {
                if blank(button_id.as_str()) {
                    return Err(owned("GPIO talk button action requires a button_id"));
                }
            },
        }
        i = i + 1;
    }
    Ok(())
}

// ---------------------------------------------------------------------------
// Pins

/// A button is pressed by what its pin reads.
pub open spec fn reads_pressed(value: Seq<char>, active_low: bool) -> bool {
    (trim(value) == "1"@) != active_low
}

/// Tells whether a button is pressed by what its pin reads.
pub fn gpio_pressed(value: &str, button: &GpioButton) -> (r: bool)
    ensures
        r == reads_pressed(value@, button.active_low),
{
    let high = same(trimmed(value).as_str(), "1");
    if button.active_low {
        !high
    } else {
        high
    }
}

/// What is written to the pin of a lamp.
pub open spec fn lamp_value(active: bool, active_low: bool) -> Seq<char> {
    if active != active_low {
        "1\n"@
    } else {
        "0\n"@
    }
}

/// What is written to the pin of a lamp.
pub fn gpio_output_value(output: &GpioOutput, active: bool) -> (r: &'static str)
    ensures
        r@ == lamp_value(active, output.active_low),
{
    let high = if output.active_low {
        !active
    } else {
        active
    };
    if high {
        "1\n"
    } else {
        "0\n"
    }
}

/// The file of a pin, below the directory of all pins.
pub fn gpio_value_file(gpio: u32) -> (r: String)
    ensures
        r@ == "gpio"@ + decimal(gpio as nat) + "/value"@,
{
    concat3("gpio", u64_text(gpio as u64).as_str(), "/value")
}

/// A button that is watched. Times are in milliseconds since some start.
#[derive(Debug, Clone, Copy, PartialEq, Eq, Structural)]
pub struct ButtonRuntime {
    /// The button counts as pressed.
    pub stable_pressed: bool,
    /// What the pin read last.
    pub candidate_pressed: bool,
    /// Since when the pin reads that.
    pub candidate_since_ms: u64,
}

/// A button after its pin was read, and whether its state has changed.
pub open spec fn watched(b: ButtonRuntime, pressed: bool, now_ms: u64, debounce_ms: u64) -> (
    ButtonRuntime,
    bool,
) {
    if pressed != b.candidate_pressed {
        (ButtonRuntime { candidate_pressed: pressed, candidate_since_ms: now_ms, ..b }, false)
    } else if pressed != b.stable_pressed && now_ms - b.candidate_since_ms >= debounce_ms {
        (ButtonRuntime { stable_pressed: pressed, ..b }, true)
    } else {
        (b, false)
    }
}

impl ButtonRuntime {
    /// A button as it is found.
    pub fn new(pressed: bool, now_ms: u64) -> (r: Self)
        ensures
            r == (ButtonRuntime {
                stable_pressed: pressed,
                candidate_pressed: pressed,
                candidate_since_ms: now_ms,
            }),
    {
        ButtonRuntime {
            stable_pressed: pressed,
            candidate_pressed: pressed,
            candidate_since_ms: now_ms,
        }
    }

    /// Takes what the pin reads. The result tells whether the state of the button
    /// has changed.
    pub fn step(&mut self, pressed: bool, now_ms: u64, debounce_ms: u64) -> (r: bool)
        requires
            old(self).candidate_since_ms <= now_ms,
        ensures
            (*final(self), r) == watched(*old(self), pressed, now_ms, debounce_ms),
            final(self).candidate_since_ms <= now_ms,
    {
        if pressed != self.candidate_pressed {
            self.candidate_pressed = pressed;
            self.candidate_since_ms = now_ms;
            return false;
        }
        if pressed != self.stable_pressed && now_ms - self.candidate_since_ms >= debounce_ms {
            self.stable_pressed = pressed;
            return true;
        }
        false
    }
}

/// A change of a button is told only where the button was in its new state for
/// the whole time, and it is told once: the state that is told differs from the
/// one before, and is the one that the button is then in.
pub proof fn changes_are_debounced(
    b: ButtonRuntime,
    pressed: bool,
    now_ms: u64,
    debounce_ms: u64,
)
    ensures
        ({
            let (after, changed) = watched(b, pressed, now_ms, debounce_ms);
            &&& changed ==> b.candidate_pressed == pressed && now_ms - b.candidate_since_ms
                >= debounce_ms
            &&& changed ==> b.stable_pressed != pressed && after.stable_pressed == pressed
            &&& !changed ==> after.stable_pressed == b.stable_pressed
            &&& changed ==> !watched(after, pressed, now_ms, debounce_ms).1
        }),
{
}

/// A change that lasts is told: a button that reads the same from some time on is
/// told once enough time has passed.
pub proof fn lasting_changes_are_told(
    b: ButtonRuntime,
    pressed: bool,
    since_ms: u64,
    now_ms: u64,
    debounce_ms: u64,
)
    requires
        pressed != b.stable_pressed,
        pressed != b.candidate_pressed,
        now_ms - since_ms >= debounce_ms,
    ensures
        watched(watched(b, pressed, since_ms, debounce_ms).0, pressed, now_ms, debounce_ms).1,
{
}

/// Whether the tally is to be looked up again, where it was last looked up at `last_ms`.
pub fn tally_due(last_ms: Option<u64>, now_ms: u64, poll_ms: u64) -> (r: bool)
    ensures
        r == (match last_ms {
            None => true,
            Some(l) => (if now_ms >= l {
                now_ms - l
            } else {
                0
            }) >= poll_ms,
        }),
{
    match last_ms {
        None => true,
        Some(l) => now_ms.saturating_sub(l) >= poll_ms,
    }
}

/// The time between two looks: at least one millisecond.
pub fn poll_interval_ms(ms: u64) -> (r: u64)
    ensures
        r == (if ms == 0 {
            1
        } else {
            ms
        }),
{
    if ms == 0 {
        1
    } else {
        ms
    }
}

// ---------------------------------------------------------------------------
// Requests

/// What a button asks the client for.
pub open spec fn event_endpoints(b: GpioButton, pressed: bool) -> Seq<Seq<char>> {
    match b.action {
        ButtonAction::RegularTalk => match (b.mode, pressed) {
            (ButtonMode::Momentary, true) => seq!["/talk/down"@],
            (ButtonMode::Momentary, false) => seq!["/talk/up"@],
            (ButtonMode::Latching, true) => seq!["/talk/toggle"@],
            (ButtonMode::Latching, false) => Seq::empty(),
        },
        ButtonAction::TalkButton { button_id } => match (b.mode, pressed) {
            (ButtonMode::Momentary, true) => seq![
                "/buttons/"@ + path_segment(button_id@) + "/down"@,
            ],
            (ButtonMode::Momentary, false) => seq![
                "/buttons/"@ + path_segment(button_id@) + "/up"@,
            ],
            (ButtonMode::Latching, true) => seq![
                "/buttons/"@ + path_segment(button_id@) + "/toggle"@,
            ],
            (ButtonMode::Latching, false) => Seq::empty(),
        },
    }
}

fn talk_endpoint(mode: ButtonMode, pressed: bool) -> (r: Option<String>)
    ensures
        match r {
            Some(s) => s@ == (if mode == ButtonMode::Latching {
                "/talk/toggle"@
            } else if pressed {
                "/talk/down"@
            } else {
                "/talk/up"@
            }) && !(mode == ButtonMode::Latching && !pressed),
            None => mode == ButtonMode::Latching && !pressed,
        },
{
    match (mode, pressed) {
        (ButtonMode::Momentary, true) => Some(owned("/talk/down")),
        (ButtonMode::Momentary, false) => Some(owned("/talk/up")),
        (ButtonMode::Latching, true) => Some(owned("/talk/toggle")),
        (ButtonMode::Latching, false) => None,
    }
}

fn button_endpoint(button_id: &str, mode: ButtonMode, pressed: bool) -> (r: Option<String>)
    ensures
        match r {
            Some(s) => s@ == "/buttons/"@ + path_segment(button_id@) + (if mode
                == ButtonMode::Latching {
                "/toggle"@
            } else if pressed {
                "/down"@
            } else {
                "/up"@
            }) && !(mode == ButtonMode::Latching && !pressed),
            None => mode == ButtonMode::Latching && !pressed,
        },
{
    let id = encode_path_segment(button_id);
    match (mode, pressed) {
        (ButtonMode::Momentary, true) => Some(concat3("/buttons/", id.as_str(), "/down")),
        (ButtonMode::Momentary, false) => Some(concat3("/buttons/", id.as_str(), "/up")),
        (ButtonMode::Latching, true) => Some(concat3("/buttons/", id.as_str(), "/toggle")),
        (ButtonMode::Latching, false) => None,
    }
}

/// What a button asks the client for.
pub fn endpoints_for_event(button: &GpioButton, pressed: bool) -> (r: Vec<String>)
    ensures
        texts(r@) == event_endpoints(*button, pressed),
{
    let endpoint = match &button.action {
        ButtonAction::RegularTalk => talk_endpoint(button.mode, pressed),
        ButtonAction::TalkButton { button_id } => button_endpoint(
            button_id.as_str(),
            button.mode,
            pressed,
        ),
    };
    let mut out: Vec<String> = Vec::new();
    if let Some(endpoint) = endpoint {
        out.push(endpoint);
    }
    proof {
        assert(texts(out@) =~= event_endpoints(*button, pressed));
    }
    out
}

/// Where the client answers.
#[derive(Debug, Clone, PartialEq, Eq)]
pub struct HttpTarget {
    pub host: String,
    pub port: u16,
}

/// The host and port that a URL of the client names, or what is wrong with it.
pub open spec fn local_target(url: Seq<char>) -> Result<(Seq<char>, u16), Seq<char>> {
    if !has_prefix(url, "http://"@) {
        Err("local API URL must start with http://"@)
    } else {
        let rest = without_trailing(url.skip("http://"@.len() as int), '/');
        let k = last_index(rest, ':', rest.len() as int);
        if k < 0 {
            Err("local API URL must include host:port"@)
        } else {
            match parse_unsigned(rest.skip(k + 1), u16::MAX as nat) {
                Some(port) => Ok((rest.take(k), port as u16)),
                None => Err("parse local API port"@),
            }
        }
    }
}

/// Reads a URL of the client.
pub fn parse_http_target(value: &str) -> (r: Result<HttpTarget, String>)
    ensures
        match r {
            Ok(t) => local_target(value@) == Ok::<(Seq<char>, u16), Seq<char>>((t.host@, t.port)),
            Err(m) => local_target(value@) == Err::<(Seq<char>, u16), Seq<char>>(m@),
        },
{
    let rest = match strip_prefix(value, "http://") {
        None => {
            return Err(owned("local API URL must start with http://"));
        },
        Some(rest) => trim_end_char(rest.as_str(), '/'),
    };
    let v = chars_of(rest.as_str());
    let n = v.len();
    match find_last(&v, ':') {
        None => Err(owned("local API URL must include host:port")),
        Some(k) => {
            let digits = string_of(&v, k + 1, n);
            proof {
                assert(v@.subrange(k + 1, n as int) =~= v@.skip(k + 1));
                assert(v@.subrange(0, k as int) =~= v@.take(k as int));
            }
            match parse_u16(digits.as_str()) {
                Some(port) => Ok(HttpTarget { host: string_of(&v, 0, k), port }),
                None => Err(owned("parse local API port")),
            }
        },
    }
}

/// The header that a token is sent in.
pub open spec fn token_header(token: Option<Seq<char>>) -> Seq<char> {
    match token {
        Some(t) => if t.len() == 0 {
            Seq::empty()
        } else {
            "Authorization: Bearer "@ + t + "\r\n"@
        },
        None => Seq::empty(),
    }
}

/// Writes a request to the client.
pub fn request_text(target: &HttpTarget, method: &str, endpoint: &str, token: Option<&str>) -> (r:
    String)
    ensures
        r@ == method@ + " "@ + endpoint@ + " HTTP/1.1\r\nHost: "@ + target.host@ + ":"@ + decimal(
            target.port as nat,
        ) + "\r\n"@ + token_header(opt_str(token))
            + "Content-Length: 0\r\nConnection: close\r\n\r\n"@,
{
    let authorization = match token {
        Some(t) => if t.is_empty() {
            String::new()
        } else {
            concat3("Authorization: Bearer ", t, "\r\n")
        },
        None => String::new(),
    };
    proof {
        assert(authorization@ =~= token_header(opt_str(token)));
    }
    let line = concat4(method, " ", endpoint, " HTTP/1.1\r\nHost: ");
    let head = concat4(
        line.as_str(),
        target.host.as_str(),
        ":",
        u64_text(target.port as u64).as_str(),
    );
    concat4(
        head.as_str(),
        "\r\n",
        authorization.as_str(),
        "Content-Length: 0\r\nConnection: close\r\n\r\n",
    )
}

/// A response tells of success.
pub open spec fn is_accepted(response: Seq<char>) -> bool {
    has_prefix(response, "HTTP/1.1 2"@) || has_prefix(response, "HTTP/1.0 2"@)
}

/// What is said of a request that the client refused.
pub open spec fn rejection(endpoint: Seq<char>, response: Seq<char>) -> Seq<char> {
    "local API rejected "@ + endpoint + ": "@ + first_line(response)
}

/// Reads the response to a request.
pub fn check_response(endpoint: &str, response: &str) -> (r: Result<(), String>)
    ensures
        match r {
            Ok(_) => is_accepted(response@),
            Err(m) => !is_accepted(response@) && m@ == rejection(endpoint@, response@),
        },
{
    if starts_with(response, "HTTP/1.1 2") || starts_with(response, "HTTP/1.0 2") {
        Ok(())
    } else {
        Err(
            concat4(
                "local API rejected ",
                endpoint,
                ": ",
                read_first_line(response).as_str(),
            ),
        )
    }
}

// ---------------------------------------------------------------------------
// Tally

/// What the JSON text of a client's state says of the tally: the text `state` of the
/// object `tally`.
pub open spec fn tally_in_json(text: Seq<char>) -> Option<Option<Seq<char>>> {
    json_text(text, "tally"@, "state"@)
}

/// What the tally shows of a client.
#[derive(Debug, Clone, Copy, PartialEq, Eq, Structural)]
pub struct TallyLamps {
    pub preview: bool,
    pub live: bool,
}

/// The tally that was read, or what is wrong with it.
pub open spec fn tally_of(read: Option<Option<Seq<char>>>) -> Result<TallyLamps, Seq<char>> {
    match read {
        None => Err("parse local API state JSON"@),
        Some(state) => Ok(
            TallyLamps {
                preview: state == Some("preview"@),
                live: state == Some("live"@),
            },
        ),
    }
}

/// The tally that was read.
pub fn tally_lamps(read: Option<Option<String>>) -> (r: Result<TallyLamps, String>)
    ensures
        match r {
            Ok(t) => tally_of(text_read(read)) == Ok::<TallyLamps, Seq<char>>(t),
            Err(m) => tally_of(text_read(read)) == Err::<TallyLamps, Seq<char>>(m@),
        },
{
    match read {
        None => Err(owned("parse local API state JSON")),
        Some(None) => Ok(TallyLamps { preview: false, live: false }),
        Some(Some(state)) => Ok(
            TallyLamps {
                preview: same(state.as_str(), "preview"),
                live: same(state.as_str(), "live"),
            },
        ),
    }
}

/// The body of a response with the client's state, or what is wrong with it.
pub open spec fn local_state_body(response: Seq<char>) -> Result<Seq<char>, Seq<char>> {
    if !is_accepted(response) {
        Err(rejection("/api/state"@, response))
    } else {
        match header_body(response) {
            Some((_, body)) => Ok(body),
            None => Err("local API state response has no body"@),
        }
    }
}

/// The tally that a response with the client's state gives.
pub fn tally_of_response(response: &str) -> (r: Result<TallyLamps, String>)
    ensures
        ({
            let expected = match local_state_body(response@) {
                Ok(body) => tally_of(tally_in_json(body)),
                Err(m) => Err(m),
            };
            match r {
                Ok(t) => expected == Ok::<TallyLamps, Seq<char>>(t),
                Err(m) => expected == Err::<TallyLamps, Seq<char>>(m@),
            }
        }),
{
    match check_response("/api/state", response) {
        Err(m) => Err(m),
        Ok(_) => match split_response(response) {
            None => Err(owned("local API state response has no body")),
            Some((_, body)) => tally_lamps(read_json_text(body.as_str(), "tally", "state")),
        },
    }
}

/// What the lamps were last set to.
#[derive(Debug, Clone, Copy, PartialEq, Eq, Structural)]
pub struct TallyOutputState {
    pub preview: Option<bool>,
    pub live: Option<bool>,
}

/// What a lamp is to be set to, where there is one that shows something else.
pub open spec fn lamp_change(output: Option<GpioOutput>, shown: Option<bool>, lit: bool) -> Option<
    bool,
> {
    if output is Some && shown != Some(lit) {
        Some(lit)
    } else {
        None
    }
}

fn change_lamp(output: &Option<GpioOutput>, shown: Option<bool>, lit: bool) -> (r: Option<bool>)
    ensures
        r == lamp_change(*output, shown, lit),
{
    let differs = match shown {
        Some(now) => now != lit,
        None => true,
    };
    if output.is_some() && differs {
        Some(lit)
    } else {
        None
    }
}

impl Default for TallyOutputState {
    fn default() -> (r: Self)
        ensures
            r == (TallyOutputState { preview: None, live: None }),
    {
        TallyOutputState::new()
    }
}

impl TallyOutputState {
    /// Nothing is known of the lamps.
    pub fn new() -> (r: Self)
        ensures
            r == (TallyOutputState { preview: None, live: None }),
    {
        TallyOutputState { preview: None, live: None }
    }

    /// What the lamps are to be set to, each where it shows something else: that
    /// for preview, and that for live.
    pub fn changes(&self, outputs: &GpioOutputs, tally: TallyLamps) -> (r: (
        Option<bool>,
        Option<bool>,
    ))
        ensures
            r.0 == lamp_change(outputs.preview, self.preview, tally.preview),
            r.1 == lamp_change(outputs.live, self.live, tally.live),
    {
        (
            change_lamp(&outputs.preview, self.preview, tally.preview),
            change_lamp(&outputs.live, self.live, tally.live),
        )
    }

    /// The lamp for preview was set.
    pub fn preview_set(&mut self, lit: bool)
        ensures
            *final(self) == (TallyOutputState { preview: Some(lit), ..*old(self) }),
    {
        self.preview = Some(lit);
    }

    /// The lamp for live was set.
    pub fn live_set(&mut self, lit: bool)
        ensures
            *final(self) == (TallyOutputState { live: Some(lit), ..*old(self) }),
    {
        self.live = Some(lit);
    }
}

/// A lamp that was set to what the tally says is left alone until the tally says
/// something else.
pub proof fn set_lamps_are_left_alone(
    output: Option<GpioOutput>,
    shown: Option<bool>,
    lit: bool,
    next: bool,
)
    requires
        lamp_change(output, shown, lit) == Some(lit),
    ensures
        lamp_change(output, Some(lit), next) is Some <==> next != lit,
{
}

/// Tells whether the tally is to be asked for at all.
pub fn shows_tally(outputs: &GpioOutputs) -> (r: bool)
    ensures
        r == (outputs.preview is Some || outputs.live is Some),
{
    outputs.preview.is_some() || outputs.live.is_some()
}

} // verus!
