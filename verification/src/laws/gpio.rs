//! Buttons and lamps on pins.

use vstd::prelude::*;

use crate::gpio::{
    check_response, endpoints_for_event, gpio_output_value, gpio_pressed, gpio_value_file,
    parse_http_target, poll_interval_ms, request_text, shows_tally, tally_due, tally_lamps,
    validate_config, ButtonAction, ButtonMode, ButtonRuntime, GpioButton, GpioConfig, GpioOutput,
    GpioOutputs, HttpTarget, TallyLamps, TallyOutputState,
};
use crate::laws::text::{all_space, lemma_blank};
use crate::text::{is_space, texts};

verus! {

// ---------------------------------------------------------------------------
// Pins
// ---------------------------------------------------------------------------

/// The two levels of a pin, as they are written.
proof fn lemma_levels()
    ensures
        "1\n"@.len() == 2 && "1\n"@[0] == '1' && "1\n"@[1] == '\n',
        "0\n"@.len() == 2 && "0\n"@[0] == '0' && "0\n"@[1] == '\n',
{
    reveal_strlit("1\n");
    reveal_strlit("0\n");
}

/// A lamp is told apart from a dark one: what is written for a lit lamp differs from
/// what is written for a dark one.
pub proof fn lit_lamps_differ_from_dark_ones(
    output: GpioOutput,
    lit: &'static str,
    dark: &'static str,
)
    requires
        call_ensures(gpio_output_value, (&output, true), lit),
        call_ensures(gpio_output_value, (&output, false), dark),
    ensures
        lit@ != dark@,
        lit@[0] != dark@[0],
{
    lemma_levels();
}

/// A pin is high while its lamp is lit, or while it is dark where the pin is low for
/// a lit lamp.
pub proof fn pins_follow_their_lamps(output: GpioOutput, active: bool, value: &'static str)
    requires
        call_ensures(gpio_output_value, (&output, active), value),
    ensures
        value@.len() == 2,
        value@[1] == '\n',
        value@[0] == '1' || value@[0] == '0',
        !output.active_low ==> (value@[0] == '1' <==> active),
        output.active_low ==> (value@[0] == '0' <==> active),
{
    lemma_levels();
}

/// A lamp wired the other way round gets the other level for the same.
pub proof fn wiring_swaps_the_levels(
    one: GpioOutput,
    other: GpioOutput,
    active: bool,
    a: &'static str,
    b: &'static str,
    c: &'static str,
)
    requires
        one.active_low != other.active_low,
        call_ensures(gpio_output_value, (&one, active), a),
        call_ensures(gpio_output_value, (&other, active), b),
        call_ensures(gpio_output_value, (&other, !active), c),
    ensures
        a@ != b@,
        a@ == c@,
{
    lemma_levels();
}

/// A pin that reads `1` is high, whatever white space stands around it; every other
/// text is low. A button is pressed while its pin is high, or while it is low where
/// that is how it is wired.
pub proof fn buttons_follow_their_pins(
    value: &str,
    button: GpioButton,
    pressed: bool,
    head: Seq<char>,
    tail: Seq<char>,
    middle: char,
)
    requires
        call_ensures(gpio_pressed, (value, &button), pressed),
        value@ == head + seq![middle] + tail,
        !is_space(middle),
        all_space(head),
        all_space(tail),
    ensures
        !button.active_low ==> (pressed <==> middle == '1'),
        button.active_low ==> (pressed <==> middle != '1'),
{
    let (i, j) = crate::laws::text::lemma_trim_at(value@);
    let k = head.len() as int;
    assert(value@[k] == middle);
    assert forall|n: int| 0 <= n < value@.len() && n != k implies is_space(
        #[trigger] value@[n],
    ) by {
        if n < k {
            assert(value@[n] == head[n]);
        } else {
            assert(value@[n] == tail[n - k - 1]);
        }
    }
    if k < i {
        assert(value@.take(i)[k] == middle);
    }
    if k >= j {
        assert(value@.skip(j)[k - j] == middle);
    }
    assert(i == k && j == k + 1);
    reveal_strlit("1");
    assert(value@.subrange(i, j)[0] == middle);
    if middle == '1' {
        assert(value@.subrange(i, j) =~= "1"@);
    }
}

/// A pin that reads nothing is low.
pub proof fn blank_pins_are_low(value: &str, button: GpioButton, pressed: bool)
    requires
        call_ensures(gpio_pressed, (value, &button), pressed),
        all_space(value@),
    ensures
        pressed <==> button.active_low,
{
    lemma_blank(value@);
    reveal_strlit("1");
}

/// Every pin has a file of its own.
pub proof fn pins_have_files_of_their_own(a: u32, b: u32, fa: String, fb: String)
    requires
        call_ensures(gpio_value_file, (a,), fa),
        call_ensures(gpio_value_file, (b,), fb),
        fa@ == fb@,
    ensures
        a == b,
{
    reveal_strlit("gpio");
    reveal_strlit("/value");
    let da = crate::text::decimal(a as nat);
    let db = crate::text::decimal(b as nat);
    assert(fa@.len() == da.len() + 10);
    assert(fb@.len() == db.len() + 10);
    assert(fa@.subrange(4, 4int + da.len()) =~= da);
    assert(fb@.subrange(4, 4int + db.len()) =~= db);
    crate::text::decimal_round_trip(a as nat, u32::MAX as nat);
    crate::text::decimal_round_trip(b as nat, u32::MAX as nat);
}

// ---------------------------------------------------------------------------
// Debouncing
// ---------------------------------------------------------------------------

/// A change is told exactly where the pin has read something else than the state of
/// the button for the whole time; the state is then what the pin reads.
pub proof fn changes_are_told_after_their_time(
    b: &mut ButtonRuntime,
    pressed: bool,
    now_ms: u64,
    debounce_ms: u64,
    changed: bool,
)
    requires
        call_ensures(ButtonRuntime::step, (b, pressed, now_ms, debounce_ms), changed),
        old(b).candidate_since_ms <= now_ms,
    ensures
        changed <==> pressed != old(b).stable_pressed && pressed == old(b).candidate_pressed
            && now_ms - old(b).candidate_since_ms >= debounce_ms,
        changed ==> final(b).stable_pressed == pressed,
        !changed ==> final(b).stable_pressed == old(b).stable_pressed,
        final(b).candidate_pressed == pressed,
{
}

/// The time runs from when the pin began to read what it reads.
pub proof fn time_runs_from_the_first_reading(
    b: &mut ButtonRuntime,
    pressed: bool,
    now_ms: u64,
    debounce_ms: u64,
    changed: bool,
)
    requires
        call_ensures(ButtonRuntime::step, (b, pressed, now_ms, debounce_ms), changed),
    ensures
        pressed != old(b).candidate_pressed ==> final(b).candidate_since_ms == now_ms && !changed,
        pressed == old(b).candidate_pressed ==> final(b).candidate_since_ms == old(
            b,
        ).candidate_since_ms,
{
}

/// A button is found in the state that its pin reads, and is not told then.
pub proof fn buttons_start_as_found(
    pressed: bool,
    now_ms: u64,
    b: ButtonRuntime,
    c: &mut ButtonRuntime,
    later_ms: u64,
    debounce_ms: u64,
    changed: bool,
)
    requires
        call_ensures(ButtonRuntime::new, (pressed, now_ms), b),
        call_ensures(ButtonRuntime::step, (c, pressed, later_ms, debounce_ms), changed),
        *old(c) == b,
    ensures
        b.stable_pressed == pressed,
        b.candidate_since_ms == now_ms,
        !changed,
        *final(c) == b,
{
}

/// The tally is looked up at once, and again when its time has passed.
pub proof fn tally_is_looked_up_in_time(
    last_ms: Option<u64>,
    now_ms: u64,
    poll_ms: u64,
    due: bool,
    every_ms: u64,
)
    requires
        call_ensures(tally_due, (last_ms, now_ms, poll_ms), due),
        call_ensures(poll_interval_ms, (poll_ms,), every_ms),
    ensures
        last_ms is None ==> due,
        last_ms is Some && now_ms >= last_ms->Some_0 + poll_ms ==> due,
        last_ms is Some && last_ms->Some_0 <= now_ms < last_ms->Some_0 + poll_ms ==> !due,
        last_ms is Some && now_ms < last_ms->Some_0 ==> (due <==> poll_ms == 0),
        every_ms >= 1,
        poll_ms >= 1 ==> every_ms == poll_ms,
        poll_ms == 0 ==> every_ms == 1,
{
}

// ---------------------------------------------------------------------------
// Requests
// ---------------------------------------------------------------------------

/// A button that acts while it is held asks for one thing when it is pressed and for
/// another when it is released; one that toggles asks only when it is pressed.
pub proof fn buttons_ask_when_they_act(
    button: GpioButton,
    pressed: Vec<String>,
    released: Vec<String>,
)
    requires
        call_ensures(endpoints_for_event, (&button, true), pressed),
        call_ensures(endpoints_for_event, (&button, false), released),
    ensures
        pressed@.len() == 1,
        button.mode == ButtonMode::Latching ==> released@.len() == 0,
        button.mode == ButtonMode::Momentary ==> released@.len() == 1 && pressed@[0]@
            != released@[0]@,
{
    reveal_strlit("/talk/down");
    reveal_strlit("/talk/up");
    reveal_strlit("/down");
    reveal_strlit("/up");
    let p = texts(pressed@);
    let r = texts(released@);
    assert(p.len() == pressed@.len() && r.len() == released@.len());
    assert(p[0] == pressed@[0]@);
    if button.mode == ButtonMode::Momentary {
        assert(r[0] == released@[0]@);
        assert(p[0].last() == 'n');
        assert(r[0].last() == 'p');
    }
}

/// What a button asks for ends in what is to happen, and names the button where it
/// is not the regular microphone.
pub proof fn requests_name_the_button_and_the_action(
    button: GpioButton,
    pressed: bool,
    r: Vec<String>,
)
    requires
        call_ensures(endpoints_for_event, (&button, pressed), r),
        button.mode == ButtonMode::Momentary || pressed,
    ensures
        r@.len() == 1,
        ({
            let what = if button.mode == ButtonMode::Latching {
                "/toggle"@
            } else if pressed {
                "/down"@
            } else {
                "/up"@
            };
            match button.action {
                ButtonAction::RegularTalk => r@[0]@ == "/talk"@ + what,
                ButtonAction::TalkButton { button_id } => r@[0]@ == "/buttons/"@
                    + crate::web::path_segment(button_id@) + what,
            }
        }),
{
    reveal_strlit("/talk/down");
    reveal_strlit("/talk/up");
    reveal_strlit("/talk/toggle");
    reveal_strlit("/talk");
    reveal_strlit("/down");
    reveal_strlit("/up");
    reveal_strlit("/toggle");
    assert(texts(r@).len() == r@.len());
    assert(texts(r@)[0] == r@[0]@);
    match button.action {
        ButtonAction::RegularTalk => {
            assert("/talk/down"@ =~= "/talk"@ + "/down"@);
            assert("/talk/up"@ =~= "/talk"@ + "/up"@);
            assert("/talk/toggle"@ =~= "/talk"@ + "/toggle"@);
        },
        ButtonAction::TalkButton { button_id } => {},
    }
}

/// A response is accepted exactly where its status begins with a two.
pub proof fn responses_are_accepted_by_their_status(
    endpoint: &str,
    response: &str,
    r: Result<(), String>,
    status: char,
    rest: Seq<char>,
)
    requires
        call_ensures(check_response, (endpoint, response), r),
        response@ == "HTTP/1.1 "@ + seq![status] + rest || response@ == "HTTP/1.0 "@
            + seq![status] + rest,
    ensures
        r is Ok <==> status == '2',
{
    reveal_strlit("HTTP/1.1 ");
    reveal_strlit("HTTP/1.0 ");
    reveal_strlit("HTTP/1.1 2");
    reveal_strlit("HTTP/1.0 2");
    let t = response@.take(10);
    assert(response@[9] == status);
    assert(t[9] == status);
    if status == '2' {
        if response@ == "HTTP/1.1 "@ + seq![status] + rest {
            assert(t =~= "HTTP/1.1 2"@);
        } else {
            assert(t =~= "HTTP/1.0 2"@);
        }
    }
}

/// A response that is not accepted is told with the request and the first line of the
/// response.
pub proof fn refusals_name_the_request(endpoint: &str, response: &str, r: Result<(), String>)
    requires
        call_ensures(check_response, (endpoint, response), r),
        r is Err,
    ensures
        r->Err_0@ == "local API rejected "@ + endpoint@ + ": "@ + crate::web::first_line(
            response@,
        ),
{
}

/// An address of the client that is written as a URL is read as its host and port.
pub proof fn targets_are_read_as_written(
    value: &str,
    host: Seq<char>,
    port: u16,
    r: Result<HttpTarget, String>,
)
    requires
        call_ensures(parse_http_target, (value,), r),
        value@ == "http://"@ + host + ":"@ + crate::text::decimal(port as nat),
    ensures
        r is Ok,
        r->Ok_0.host@ == host,
        r->Ok_0.port == port,
{
    reveal_strlit("http://");
    reveal_strlit(":");
    let d = crate::text::decimal(port as nat);
    crate::text::decimal_round_trip(port as nat, u16::MAX as nat);
    assert(value@.take(7) =~= "http://"@);
    let rest = value@.skip(7);
    assert(rest =~= host + ":"@ + d);
    assert(crate::text::is_digit(d[d.len() - 1]));
    assert(rest.last() == d.last());
    assert(crate::web::without_trailing(rest, '/') == rest);
    let k = host.len() as int;
    assert(rest[k] == ':');
    crate::text::lemma_last_index(rest, ':', rest.len() as int);
    let l = crate::text::last_index(rest, ':', rest.len() as int);
    if l > k {
        assert(rest[l] == d[l - k - 1]);
        assert(crate::text::is_digit(d[l - k - 1]));
    }
    assert(l == k);
    assert(rest.skip(k + 1) =~= d);
    assert(rest.take(k) =~= host);
}

/// A URL of another kind, or one without a port, is refused.
pub proof fn targets_need_a_port(value: &str, r: Result<HttpTarget, String>)
    requires
        call_ensures(parse_http_target, (value,), r),
        r is Ok,
    ensures
        value@.len() >= 7 && value@.take(7) == "http://"@,
        exists|i: int| 7 <= i < value@.len() && #[trigger] value@[i] == ':',
{
    reveal_strlit("http://");
    let rest = value@.skip(7);
    let t = crate::web::without_trailing(rest, '/');
    lemma_without_trailing(rest, '/');
    let k = crate::text::last_index(t, ':', t.len() as int);
    crate::text::lemma_last_index(t, ':', t.len() as int);
    assert(t[k] == ':');
    assert(value@[7 + k] == ':');
}

proof fn lemma_without_trailing(s: Seq<char>, c: char)
    ensures
        crate::web::without_trailing(s, c).len() <= s.len(),
        crate::web::without_trailing(s, c) == s.take(
            crate::web::without_trailing(s, c).len() as int,
        ),
    decreases s.len(),
{
    if s.len() > 0 && s.last() == c {
        lemma_without_trailing(s.drop_last(), c);
        let t = crate::web::without_trailing(s.drop_last(), c);
        assert(s.drop_last().take(t.len() as int) =~= s.take(t.len() as int));
    } else {
        assert(s.take(s.len() as int) =~= s);
    }
}

/// A request names what it asks for first, and where, and ends with an empty line. A
/// token goes with it where there is one.
pub proof fn requests_are_written(
    target: HttpTarget,
    method: &str,
    endpoint: &str,
    token: Option<&str>,
    r: String,
)
    requires
        call_ensures(request_text, (&target, method, endpoint, token), r),
    ensures
        ({
            let start = method@ + " "@ + endpoint@ + " HTTP/1.1\r\nHost: "@ + target.host@ + ":"@
                + crate::text::decimal(target.port as nat) + "\r\n"@;
            let end = "Content-Length: 0\r\nConnection: close\r\n\r\n"@;
            &&& token is None || token->Some_0@.len() == 0 ==> r@ == start + end
            &&& token is Some && token->Some_0@.len() > 0 ==> r@ == start + (
            "Authorization: Bearer "@ + token->Some_0@ + "\r\n"@) + end
        }),
{
    let start = method@ + " "@ + endpoint@ + " HTTP/1.1\r\nHost: "@ + target.host@ + ":"@
        + crate::text::decimal(target.port as nat) + "\r\n"@;
    assert(start + Seq::<char>::empty() =~= start);
}

// ---------------------------------------------------------------------------
// Tally
// ---------------------------------------------------------------------------

/// The lamp for live shows that the client is live, the one for preview that it is in
/// preview, and never both.
pub proof fn lamps_show_the_state(read: Option<Option<String>>, r: Result<TallyLamps, String>)
    requires
        call_ensures(tally_lamps, (read,), r),
    ensures
        r is Err <==> read is None,
        r is Ok ==> !(r->Ok_0.live && r->Ok_0.preview),
        read == Some(None::<String>) ==> !r->Ok_0.live && !r->Ok_0.preview,
        read is Some && read->Some_0 is Some ==> (r->Ok_0.live <==> read->Some_0->Some_0@
            == "live"@) && (r->Ok_0.preview <==> read->Some_0->Some_0@ == "preview"@),
{
    reveal_strlit("live");
    reveal_strlit("preview");
    assert("live"@.len() != "preview"@.len());
    assert(crate::json::text_read(read) is Some <==> read is Some);
}

/// A lamp is set exactly where there is one that shows something else than the tally,
/// or of which nothing is known, and it is set to what the tally says.
pub proof fn lamps_are_set_where_they_differ(
    shown: TallyOutputState,
    outputs: GpioOutputs,
    tally: TallyLamps,
    r: (Option<bool>, Option<bool>),
)
    requires
        call_ensures(TallyOutputState::changes, (&shown, &outputs, tally), r),
    ensures
        r.0 is Some <==> outputs.preview is Some && shown.preview != Some(tally.preview),
        r.1 is Some <==> outputs.live is Some && shown.live != Some(tally.live),
        r.0 is Some ==> r.0 == Some(tally.preview),
        r.1 is Some ==> r.1 == Some(tally.live),
{
}

/// Once the lamps were set nothing is to be set until the tally changes.
pub proof fn set_lamps_need_no_change(
    shown: &mut TallyOutputState,
    then: &mut TallyOutputState,
    outputs: GpioOutputs,
    tally: TallyLamps,
    r: (Option<bool>, Option<bool>),
)
    requires
        call_ensures(TallyOutputState::preview_set, (shown, tally.preview), ()),
        call_ensures(TallyOutputState::live_set, (then, tally.live), ()),
        *old(then) == *final(shown),
        call_ensures(TallyOutputState::changes, (final(then), &outputs, tally), r),
    ensures
        r == (None::<bool>, None::<bool>),
        final(shown).preview == Some(tally.preview) && final(shown).live == old(shown).live,
        final(then).live == Some(tally.live) && final(then).preview == old(then).preview,
{
}

/// The tally is asked for exactly where a lamp shows it, and nothing is known of the
/// lamps at first.
pub proof fn tally_is_asked_for_where_shown(
    outputs: GpioOutputs,
    r: bool,
    start: TallyOutputState,
)
    requires
        call_ensures(shows_tally, (&outputs,), r),
        call_ensures(TallyOutputState::new, (), start),
    ensures
        !r <==> outputs.preview is None && outputs.live is None,
        start.preview is None && start.live is None,
{
}

// ---------------------------------------------------------------------------
// Configurations
// ---------------------------------------------------------------------------

proof fn lemma_buttons_fault(s: Seq<GpioButton>, n: int, i: int)
    requires
        0 <= i < n <= s.len(),
        crate::gpio::gpio_buttons_fault(s, n) is None,
    ensures
        crate::gpio::button_fault(s[i]) is None,
    decreases n,
{
    if i < n - 1 {
        lemma_buttons_fault(s, n - 1, i);
    }
}

proof fn lemma_faulty_button(s: Seq<GpioButton>, n: int) -> (i: int)
    requires
        0 <= n <= s.len(),
        crate::gpio::gpio_buttons_fault(s, n) is Some,
    ensures
        0 <= i < n,
        crate::gpio::button_fault(s[i]) is Some,
    decreases n,
{
    if crate::gpio::gpio_buttons_fault(s, n - 1) is Some {
        lemma_faulty_button(s, n - 1)
    } else {
        n - 1
    }
}

/// A button has a name, and a talk button says which.
pub open spec fn button_is_named(b: GpioButton) -> bool {
    &&& !all_space(b.name@)
    &&& b.action matches ButtonAction::TalkButton { button_id } ==> !all_space(button_id@)
}

/// A lamp has a name.
pub open spec fn lamp_is_named(o: Option<GpioOutput>) -> bool {
    o is Some ==> !all_space(o->Some_0.name@)
}

/// A configuration is accepted exactly where it uses a pin and everything in it has a
/// name.
pub proof fn configurations_name_what_they_use(config: GpioConfig, r: Result<(), String>)
    requires
        call_ensures(validate_config, (&config,), r),
    ensures
        r is Ok <==> {
            &&& config.buttons@.len() > 0 || config.outputs.preview is Some || config.outputs.live
                is Some
            &&& lamp_is_named(config.outputs.preview) && lamp_is_named(config.outputs.live)
            &&& forall|i: int|
                0 <= i < config.buttons@.len() ==> button_is_named(#[trigger] config.buttons@[i])
        },
{
    let s = config.buttons@;
    let n = s.len() as int;
    if config.outputs.preview is Some {
        lemma_blank(config.outputs.preview->Some_0.name@);
    }
    if config.outputs.live is Some {
        lemma_blank(config.outputs.live->Some_0.name@);
    }
    assert forall|i: int| 0 <= i < n implies (button_is_named(#[trigger] s[i])
        <==> crate::gpio::button_fault(s[i]) is None) by {
        lemma_blank(s[i].name@);
        match s[i].action {
            ButtonAction::TalkButton { button_id } => lemma_blank(button_id@),
            ButtonAction::RegularTalk => {},
        }
    }
    if crate::gpio::gpio_buttons_fault(s, n) is None {
        assert forall|i: int| 0 <= i < n implies button_is_named(#[trigger] s[i]) by {
            lemma_buttons_fault(s, n, i);
        }
    } else {
        let i = lemma_faulty_button(s, n);
        assert(!button_is_named(s[i]));
    }
}

/// The tally is read from the body of a response that was accepted.
pub proof fn tallies_are_read_from_responses(
    response: &str,
    r: Result<TallyLamps, String>,
    endpoint: &str,
    accepted: Result<(), String>,
    parts: Option<(String, String)>,
    body: &str,
    outer: &str,
    inner: &str,
    read: Option<Option<String>>,
    lamps: Result<TallyLamps, String>,
)
    requires
        call_ensures(crate::gpio::tally_of_response, (response,), r),
        endpoint@ == "/api/state"@,
        call_ensures(crate::gpio::check_response, (endpoint, response), accepted),
        call_ensures(crate::web::split_response, (response,), parts),
        parts is Some ==> body@ == parts->Some_0.1@,
        outer@ == "tally"@ && inner@ == "state"@,
        call_ensures(crate::json::read_json_text, (body, outer, inner), read),
        call_ensures(crate::gpio::tally_lamps, (read,), lamps),
    ensures
        accepted is Err ==> r is Err && r->Err_0@ == accepted->Err_0@,
        accepted is Ok && parts is None ==> r is Err,
        accepted is Ok && parts is Some ==> (r is Ok <==> lamps is Ok) && (r is Ok ==> r->Ok_0
            == lamps->Ok_0),
{
}

} // verus!
