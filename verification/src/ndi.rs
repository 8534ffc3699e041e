//! Audio to and from NDI.

use vstd::prelude::*;

use crate::endpoint::{filled, filled_text, opt_text};
use crate::gain::{Gain, GAIN_ONE};
use crate::launch::HostPlatform;
use crate::text::{concat2, concat4, contains_char, join, join_texts, owned, texts, trim, trimmed};

verus! {

pub const NDI_FRAME_TYPE_NONE: i32 = 0;

pub const NDI_FRAME_TYPE_AUDIO: i32 = 2;

pub const NDI_FRAME_TYPE_ERROR: i32 = 4;

pub const NDI_RECV_BANDWIDTH_AUDIO_ONLY: i32 = 10;

/// The letters `FLTp`, the first one lowest: planar audio in single precision.
pub const NDI_FOURCC_FLTP: u32 = 0x7054_4c46;

/// A source that NDI knows of.
#[derive(Debug, Clone, PartialEq, Eq)]
pub struct NdiSource {
    pub name: String,
    pub url: Option<String>,
}

/// The sources whose names say something, with their texts trimmed.
pub open spec fn named_sources(s: Seq<(Option<Seq<char>>, Option<Seq<char>>)>) -> Seq<
    (Seq<char>, Option<Seq<char>>),
>
    decreases s.len(),
{
    if s.len() == 0 {
        Seq::empty()
    } else {
        let rest = named_sources(s.drop_last());
        match filled(s.last().0) {
            Some(name) => rest.push((name, filled(s.last().1))),
            None => rest,
        }
    }
}

/// Sources as texts.
pub open spec fn sources(s: Seq<NdiSource>) -> Seq<(Seq<char>, Option<Seq<char>>)> {
    s.map_values(|n: NdiSource| (n.name@, opt_text(n.url)))
}

/// Names and addresses as texts.
pub open spec fn raw_sources(s: Seq<(Option<String>, Option<String>)>) -> Seq<
    (Option<Seq<char>>, Option<Seq<char>>),
> {
    s.map_values(|p: (Option<String>, Option<String>)| (opt_text(p.0), opt_text(p.1)))
}

/// The sources of those that were listed, a name and an address each, whose names
/// say something.
pub fn listed_sources(listed: Vec<(Option<String>, Option<String>)>) -> (r: Vec<NdiSource>)
    ensures
        sources(r@) == named_sources(raw_sources(listed@)),
{
    let ghost all = raw_sources(listed@);
    let mut out: Vec<NdiSource> = Vec::new();
    let mut i: usize = 0;
    proof {
        assert(sources(out@) =~= Seq::<(Seq<char>, Option<Seq<char>>)>::empty());
    }
    while i < listed.len()
        invariant
            0 <= i <= listed@.len(),
            all == raw_sources(listed@),
            sources(out@) == named_sources(all.take(i as int)),
        decreases listed@.len() - i,
    {
        let ghost before = sources(out@);
        proof {
            assert(all.take(i + 1).drop_last() =~= all.take(i as int));
            assert(all.take(i + 1).last() == (
                opt_text(listed@[i as int].0),
                opt_text(listed@[i as int].1),
            ));
        }
        if let Some(name) = filled_text(&listed[i].0) {
            let source = NdiSource { name, url: filled_text(&listed[i].1) };
            let ghost seen = (source.name@, opt_text(source.url));
            out.push(source);
            proof {
                assert(sources(out@) =~= before.push(seen));
            }
        }
        i = i + 1;
    }
    proof {
        assert(all.take(all.len() as int) =~= all);
    }
    out
}

/// A text as C can take it: trimmed, and without a null character.
pub fn c_text(value: &str, refusal: &str) -> (r: Result<String, String>)
    ensures
        match r {
            Ok(s) => !trim(value@).contains('\0') && s@ == trim(value@),
            Err(m) => trim(value@).contains('\0') && m@ == refusal@,
        },
{
    let text = trimmed(value);
    if contains_char(text.as_str(), '\0') {
        Err(owned(refusal))
    } else {
        Ok(text)
    }
}

/// An optional text as C can take it: one that says nothing is left out.
pub fn optional_c_text(value: Option<String>) -> (r: Result<Option<String>, String>)
    ensures
        match filled(opt_text(value)) {
            None => r == Ok::<Option<String>, String>(None),
            Some(t) => match r {
                Ok(s) => !t.contains('\0') && opt_text(s) == Some(t),
                Err(m) => t.contains('\0') && m@ == "NDI string contains an embedded null byte"@,
            },
        },
{
    match filled_text(&value) {
        None => Ok(None),
        Some(text) => {
            if contains_char(text.as_str(), '\0') {
                Err(owned("NDI string contains an embedded null byte"))
            } else {
                Ok(Some(text))
            }
        },
    }
}

/// A time in milliseconds, as far as a number of this size can tell it.
pub fn millis_u32(millis: u128) -> (r: u32)
    ensures
        r == (if millis <= u32::MAX {
            millis as u32
        } else {
            u32::MAX
        }),
{
    if millis <= 0xffff_ffff {
        millis as u32
    } else {
        0xffff_ffff
    }
}

// ---------------------------------------------------------------------------
// Finding the library

/// Some text before the `n`th is the `n`th.
pub open spec fn seen_before(s: Seq<Seq<char>>, n: int) -> bool {
    exists|i: int| 0 <= i < n && #[trigger] s[i] == s[n]
}

/// The first `n` texts without those that came before.
pub open spec fn firsts(s: Seq<Seq<char>>, n: int) -> Seq<Seq<char>>
    decreases n,
{
    if n <= 0 {
        Seq::empty()
    } else if seen_before(s, n - 1) {
        firsts(s, n - 1)
    } else {
        firsts(s, n - 1).push(s[n - 1])
    }
}

fn came_before(values: &Vec<String>, n: usize) -> (r: bool)
    requires
        n < values@.len(),
    ensures
        r == seen_before(texts(values@), n as int),
{
    let ghost s = texts(values@);
    let mut i: usize = 0;
    while i < n
        invariant
            0 <= i <= n < values@.len(),
            s == texts(values@),
            forall|j: int| 0 <= j < i ==> #[trigger] s[j] != s[n as int],
        decreases n - i,
    {
        proof {
            assert(s[i as int] == values@[i as int]@);
            assert(s[n as int] == values@[n as int]@);
        }
        if crate::text::same(values[i].as_str(), values[n].as_str()) {
            return true;
        }
        i = i + 1;
    }
    false
}

/// The texts, each once, in the order in which they came first.
pub fn dedupe(values: Vec<String>) -> (r: Vec<String>)
    ensures
        texts(r@) == firsts(texts(values@), values@.len() as int),
{
    let ghost s = texts(values@);
    let mut out: Vec<String> = Vec::new();
    let mut i: usize = 0;
    proof {
        assert(texts(out@) =~= Seq::<Seq<char>>::empty());
    }
    while i < values.len()
        invariant
            0 <= i <= values@.len(),
            s == texts(values@),
            texts(out@) == firsts(s, i as int),
        decreases values@.len() - i,
    {
        let ghost before = texts(out@);
        if !came_before(&values, i) {
            out.push(values[i].clone());
            proof {
                assert(texts(out@) =~= before.push(s[i as int]));
            }
        }
        i = i + 1;
    }
    out
}

proof fn lemma_firsts(s: Seq<Seq<char>>, n: int, k: int)
    requires
        0 <= n <= s.len(),
        0 <= k < firsts(s, n).len(),
    ensures
        exists|i: int| 0 <= i < n && #[trigger] s[i] == firsts(s, n)[k],
    decreases n,
{
    let head = firsts(s, n - 1);
    if k < head.len() {
        lemma_firsts(s, n - 1, k);
        let i = choose|i: int| 0 <= i < n - 1 && #[trigger] s[i] == head[k];
        assert(s[i] == firsts(s, n)[k]);
    } else {
        assert(s[n - 1] == firsts(s, n)[k]);
    }
}

/// A text is kept where it came, and each text is kept once.
pub proof fn dedupe_keeps_each_once(s: Seq<Seq<char>>, n: int, i: int, j: int)
    requires
        0 <= n <= s.len(),
        0 <= i < j < firsts(s, n).len(),
    ensures
        firsts(s, n)[i] != firsts(s, n)[j],
    decreases n,
{
    let head = firsts(s, n - 1);
    if j < head.len() {
        dedupe_keeps_each_once(s, n - 1, i, j);
    } else {
        lemma_firsts(s, n - 1, i);
        let k = choose|k: int| 0 <= k < n - 1 && #[trigger] s[k] == head[i];
        assert(firsts(s, n)[i] == head[i]);
        assert(firsts(s, n)[j] == s[n - 1]);
        if s[k] == s[n - 1] {
            assert(seen_before(s, n - 1));
        }
    }
}

fn push_all(list: &mut Vec<String>, more: Vec<String>)
    ensures
        texts(final(list)@) == texts(old(list)@) + texts(more@),
{
    let mut more = more;
    let ghost tail = more@;
    list.append(&mut more);
    proof {
        assert(texts(list@) =~= texts(old(list)@) + texts(tail));
    }
}

/// Where the library may stand below a directory that is named for it.
pub open spec fn library_names(platform: HostPlatform) -> Seq<Seq<char>> {
    match platform {
        HostPlatform::Macos => seq![
            "libndi.dylib"@,
            "libndi.6.dylib"@,
            "libndi.5.dylib"@,
            "libndi.4.dylib"@,
            "lib/macOS/libndi.dylib"@,
            "lib/macOS/libndi.6.dylib"@,
            "lib/macOS/libndi.5.dylib"@,
            "lib/macOS/libndi.4.dylib"@,
        ],
        HostPlatform::Linux => seq!["libndi.so"@, "lib/libndi.so"@],
        HostPlatform::Windows => seq!["Processing.NDI.Lib.x64.dll"@],
    }
}

/// Where the library may stand below a directory that is named for it.
pub fn dir_library_names(platform: HostPlatform) -> (r: Vec<String>)
    ensures
        texts(r@) == library_names(platform),
{
    let mut v: Vec<String> = Vec::new();
    match platform {
        HostPlatform::Macos => {
            v.push(owned("libndi.dylib"));
            v.push(owned("libndi.6.dylib"));
            v.push(owned("libndi.5.dylib"));
            v.push(owned("libndi.4.dylib"));
            v.push(owned("lib/macOS/libndi.dylib"));
            v.push(owned("lib/macOS/libndi.6.dylib"));
            v.push(owned("lib/macOS/libndi.5.dylib"));
            v.push(owned("lib/macOS/libndi.4.dylib"));
        },
        HostPlatform::Linux => {
            v.push(owned("libndi.so"));
            v.push(owned("lib/libndi.so"));
        },
        HostPlatform::Windows => {
            v.push(owned("Processing.NDI.Lib.x64.dll"));
        },
    }
    proof {
        assert(texts(v@) =~= library_names(platform));
    }
    v
}

/// Where the library is looked for in any case.
pub open spec fn usual_libraries(platform: HostPlatform) -> Seq<Seq<char>> {
    match platform {
        HostPlatform::Macos => seq![
            "/usr/local/lib/libndi.dylib"@,
            "/usr/local/lib/libndi.6.dylib"@,
            "/usr/local/lib/libndi.5.dylib"@,
            "/usr/local/lib/libndi.4.dylib"@,
            "/opt/homebrew/lib/libndi.dylib"@,
            "/opt/homebrew/lib/libndi.6.dylib"@,
            "/opt/homebrew/lib/libndi.5.dylib"@,
            "/opt/homebrew/lib/libndi.4.dylib"@,
            "/Library/NDI SDK for Apple/lib/macOS/libndi.dylib"@,
            "/Library/Application Support/NDI/lib/libndi.dylib"@,
            "/Applications/NDI Monitor.app/Contents/Frameworks/libndi.dylib"@,
            "/Applications/NDI Virtual Input.app/Contents/Frameworks/libndi.dylib"@,
            "/Applications/NDI Scan Converter.app/Contents/Frameworks/libndi.dylib"@,
            "/Applications/NDI Router.app/Contents/Frameworks/NTFramework.framework/Versions/A/Frameworks/libndi.dylib"@,
            "/Applications/NDI Discovery.app/Contents/Frameworks/libndi_advanced.dylib"@,
            "/Applications/NDI Video Monitor.app/Contents/Frameworks/libndi_advanced.dylib"@,
            "/Applications/NDI Test Patterns.app/Contents/Frameworks/libndi_advanced.dylib"@,
            "/Library/Audio/Plug-Ins/HAL/NDIAudio.driver/Contents/Frameworks/libndi_advanced.dylib"@,
            "/Library/CoreMediaIO/Plug-Ins/DAL/NDIVideoOut.plugin/Contents/Frameworks/libndi.dylib"@,
            "/Library/CoreMediaIO/Plug-Ins/DAL/NDIVirtualCamera.plugin/Contents/Frameworks/libndi_advanced.dylib"@,
            "/Library/SystemExtensions/050BB35D-1379-45AB-B4B6-7A07CDD1FBE0/com.newtek.Application-Mac-NDI-VirtualInput.Extension.systemextension/Contents/Frameworks/libndi_advanced.dylib"@,
            "/Library/Application Support/Adobe/Common/Plug-ins/7.0/MediaCore/NDI_Transmit_AdobeCC.bundle/Contents/Frameworks/libndi.dylib"@,
            "libndi.dylib"@,
            "libndi.6.dylib"@,
            "libndi.5.dylib"@,
            "libndi.4.dylib"@,
        ],
        HostPlatform::Linux => seq![
            "libndi.so"@,
            "libndi.so.6"@,
            "/usr/local/lib/libndi.so"@,
            "/usr/lib/libndi.so"@,
        ],
        HostPlatform::Windows => seq!["Processing.NDI.Lib.x64.dll"@],
    }
}

/// Where the library is looked for in any case.
pub fn fixed_libraries(platform: HostPlatform) -> (r: Vec<String>)
    ensures
        texts(r@) == usual_libraries(platform),
{
    let mut v: Vec<String> = Vec::new();
    match platform {
        HostPlatform::Macos => {
            v.push(owned("/usr/local/lib/libndi.dylib"));
            v.push(owned("/usr/local/lib/libndi.6.dylib"));
            v.push(owned("/usr/local/lib/libndi.5.dylib"));
            v.push(owned("/usr/local/lib/libndi.4.dylib"));
            v.push(owned("/opt/homebrew/lib/libndi.dylib"));
            v.push(owned("/opt/homebrew/lib/libndi.6.dylib"));
            v.push(owned("/opt/homebrew/lib/libndi.5.dylib"));
            v.push(owned("/opt/homebrew/lib/libndi.4.dylib"));
            v.push(owned("/Library/NDI SDK for Apple/lib/macOS/libndi.dylib"));
            v.push(owned("/Library/Application Support/NDI/lib/libndi.dylib"));
            v.push(owned("/Applications/NDI Monitor.app/Contents/Frameworks/libndi.dylib"));
            v.push(owned("/Applications/NDI Virtual Input.app/Contents/Frameworks/libndi.dylib"));
            v.push(owned("/Applications/NDI Scan Converter.app/Contents/Frameworks/libndi.dylib"));
            v.push(owned("/Applications/NDI Router.app/Contents/Frameworks/NTFramework.framework/Versions/A/Frameworks/libndi.dylib"));
            v.push(owned("/Applications/NDI Discovery.app/Contents/Frameworks/libndi_advanced.dylib"));
            v.push(owned("/Applications/NDI Video Monitor.app/Contents/Frameworks/libndi_advanced.dylib"));
            v.push(owned("/Applications/NDI Test Patterns.app/Contents/Frameworks/libndi_advanced.dylib"));
            v.push(owned("/Library/Audio/Plug-Ins/HAL/NDIAudio.driver/Contents/Frameworks/libndi_advanced.dylib"));
            v.push(owned("/Library/CoreMediaIO/Plug-Ins/DAL/NDIVideoOut.plugin/Contents/Frameworks/libndi.dylib"));
            v.push(owned("/Library/CoreMediaIO/Plug-Ins/DAL/NDIVirtualCamera.plugin/Contents/Frameworks/libndi_advanced.dylib"));
            v.push(owned("/Library/SystemExtensions/050BB35D-1379-45AB-B4B6-7A07CDD1FBE0/com.newtek.Application-Mac-NDI-VirtualInput.Extension.systemextension/Contents/Frameworks/libndi_advanced.dylib"));
            v.push(owned("/Library/Application Support/Adobe/Common/Plug-ins/7.0/MediaCore/NDI_Transmit_AdobeCC.bundle/Contents/Frameworks/libndi.dylib"));
            v.push(owned("libndi.dylib"));
            v.push(owned("libndi.6.dylib"));
            v.push(owned("libndi.5.dylib"));
            v.push(owned("libndi.4.dylib"));
        },
        HostPlatform::Linux => {
            v.push(owned("libndi.so"));
            v.push(owned("libndi.so.6"));
            v.push(owned("/usr/local/lib/libndi.so"));
            v.push(owned("/usr/lib/libndi.so"));
        },
        HostPlatform::Windows => {
            v.push(owned("Processing.NDI.Lib.x64.dll"));
        },
    }
    proof {
        assert(texts(v@) =~= usual_libraries(platform));
    }
    v
}

/// Where the library is looked for, one place after the other.
pub open spec fn candidates(
    platform: HostPlatform,
    in_dirs: Seq<Seq<char>>,
    on_path: Seq<Seq<char>>,
) -> Seq<Seq<char>> {
    let all = in_dirs + (if platform == HostPlatform::Windows {
        on_path
    } else {
        Seq::empty()
    }) + usual_libraries(platform);
    firsts(all, all.len() as int)
}

/// Where the library is looked for: first below the directories that are named
/// for it, then, on Windows, on the path for programs, then in the usual places.
pub fn library_candidates(
    platform: HostPlatform,
    in_dirs: Vec<String>,
    on_path: Vec<String>,
) -> (r: Vec<String>)
    ensures
        texts(r@) == candidates(platform, texts(in_dirs@), texts(on_path@)),
{
    let ghost first = texts(in_dirs@);
    let mut all = in_dirs;
    if platform == HostPlatform::Windows {
        push_all(&mut all, on_path);
    }
    proof {
        assert(first + Seq::<Seq<char>>::empty() =~= first);
    }
    push_all(&mut all, fixed_libraries(platform));
    proof {
        assert(texts(all@).len() == all@.len());
    }
    dedupe(all)
}

/// What is said where no library could be used: where it was looked for, and what
/// was wrong with those that were found.
pub fn library_missing(tried: &Vec<String>, errors: &Vec<String>) -> (r: String)
    ensures
        r@ == "NDI runtime library was not found. Install the NDI runtime/SDK and make libndi available on the system library path. Tried: "@
            + join(texts(tried@), ", "@) + "."@ + (if errors@.len() == 0 {
            Seq::empty()
        } else {
            " Usable library errors: "@ + join(texts(errors@), "; "@)
        }),
{
    let used = if errors.len() == 0 {
        String::new()
    } else {
        concat2(" Usable library errors: ", join_texts(errors, "; ").as_str())
    };
    proof {
        if errors@.len() == 0 {
            assert(used@ =~= Seq::<char>::empty());
        }
    }
    concat4(
        "NDI runtime library was not found. Install the NDI runtime/SDK and make libndi available on the system library path. Tried: ",
        join_texts(tried, ", ").as_str(),
        ".",
        used.as_str(),
    )
}

// ---------------------------------------------------------------------------
// Sending audio

/// A sample within the range that audio has. Samples are the bits of numbers in
/// single precision.
pub open spec fn clipped(g: Gain) -> Gain {
    if g.nan() || g.magnitude() <= GAIN_ONE {
        g
    } else if g.negative() {
        Gain { bits: 0xbf80_0000 }
    } else {
        Gain { bits: GAIN_ONE }
    }
}

fn clip(g: Gain) -> (r: Gain)
    ensures
        r == clipped(g),
{
    if g.is_nan() {
        return g;
    }
    let negative = g.bits >= 0x8000_0000;
    let magnitude: u32 = if negative {
        g.bits - 0x8000_0000
    } else {
        g.bits
    };
    if magnitude <= GAIN_ONE {
        g
    } else if negative {
        Gain { bits: 0xbf80_0000 }
    } else {
        Gain { bits: GAIN_ONE }
    }
}

/// Samples by channel: first all of the first channel, then all of the second.
pub open spec fn planar(s: Seq<Gain>, channels: int) -> Seq<Gain> {
    let per_channel = s.len() as int / channels;
    Seq::new(
        (per_channel * channels) as nat,
        |k: int| clipped(s[(k % per_channel) * channels + k / per_channel]),
    )
}

proof fn lemma_split_index(k: int, per_channel: int, channels: int)
    requires
        0 <= k < per_channel * channels,
        per_channel > 0,
        channels > 0,
    ensures
        0 <= k % per_channel < per_channel,
        0 <= k / per_channel < channels,
        (k % per_channel) * channels + k / per_channel < per_channel * channels,
        0 <= (k % per_channel) * channels,
{
    assert(0 <= k % per_channel < per_channel && 0 <= k / per_channel < channels) by (nonlinear_arith)
        requires
            0 <= k < per_channel * channels,
            per_channel > 0,
            channels > 0,
    ;
    let a = k % per_channel;
    let b = k / per_channel;
    assert(a * channels + b < per_channel * channels && 0 <= a * channels) by (nonlinear_arith)
        requires
            0 <= a < per_channel,
            0 <= b < channels,
    ;
}

/// Puts samples in order by channel, within the range that audio has. Samples
/// that do not fill all channels are left out.
pub fn planarize(samples: &[Gain], channels: usize) -> (r: Vec<Gain>)
    requires
        channels > 0,
    ensures
        r@ == planar(samples@, channels as int),
{
    let per_channel = samples.len() / channels;
    proof {
        assert(per_channel * channels <= samples@.len()) by (nonlinear_arith)
            requires
                per_channel == samples@.len() / channels as nat,
                channels > 0,
        ;
    }
    let total = per_channel * channels;
    let mut out: Vec<Gain> = Vec::new();
    let mut k: usize = 0;
    while k < total
        invariant
            channels > 0,
            per_channel == samples@.len() as int / channels as int,
            total == per_channel * channels,
            total <= samples@.len(),
            0 <= k <= total,
            out@.len() == k,
            forall|j: int|
                0 <= j < k ==> #[trigger] out@[j] == clipped(
                    samples@[(j % (per_channel as int)) * channels + j / (per_channel as int)],
                ),
        decreases total - k,
    {
        proof {
            assert(per_channel > 0) by (nonlinear_arith)
                requires
                    0 <= k < per_channel * channels,
            ;
            lemma_split_index(k as int, per_channel as int, channels as int);
        }
        let row = k % per_channel;
        let column = k / per_channel;
        let at = row * channels + column;
        out.push(clip(samples[at]));
        k = k + 1;
    }
    proof {
        assert(out@ =~= planar(samples@, channels as int));
    }
    out
}

/// In planar order, the samples of a channel stand together, in their order.
pub proof fn planar_keeps_channels(s: Seq<Gain>, channels: int, channel: int, i: int)
    requires
        channels > 0,
        0 <= channel < channels,
        0 <= i < s.len() as int / channels,
    ensures
        ({
            let per_channel = s.len() as int / channels;
            &&& 0 <= channel * per_channel + i < planar(s, channels).len()
            &&& planar(s, channels)[channel * per_channel + i] == clipped(s[i * channels + channel])
        }),
{
    let n = s.len() as int / channels;
    let k = channel * n + i;
    assert(0 <= k < n * channels && k % n == i && k / n == channel) by {
        assert(0 <= channel * n + i < n * channels) by (nonlinear_arith)
            requires
                0 <= channel < channels,
                0 <= i < n,
        ;
        vstd::arithmetic::div_mod::lemma_fundamental_div_mod_converse(k, n, channel, i);
    }
}

/// The shape of a frame that is sent.
#[derive(Debug, Clone, Copy, PartialEq, Eq, Structural)]
pub struct SendShape {
    pub sample_rate: i32,
    pub no_channels: i32,
    pub no_samples: i32,
    pub channel_stride_in_bytes: i32,
}

/// A number, or a substitute where it does not fit.
pub open spec fn fit(n: int, otherwise: i32) -> i32 {
    if n <= i32::MAX {
        n as i32
    } else {
        otherwise
    }
}

fn fitted(n: u64, otherwise: i32) -> (r: i32)
    ensures
        r == fit(n as int, otherwise),
{
    if n <= 0x7fff_ffff {
        n as i32
    } else {
        otherwise
    }
}

/// The shape of a frame with so many samples: nothing where there is nothing to
/// send.
pub fn send_shape(sample_rate_hz: u32, channels: usize, samples: usize) -> (r: Result<
    Option<SendShape>,
    String,
>)
    requires
        4 * samples <= usize::MAX,
    ensures
        if channels == 0 {
            r matches Err(m) && m@ == "cannot send NDI audio with zero channels"@
        } else if samples < channels {
            r == Ok::<Option<SendShape>, String>(None)
        } else {
            r == Ok::<Option<SendShape>, String>(
                Some(
                    SendShape {
                        sample_rate: fit(sample_rate_hz as int, 48_000),
                        no_channels: fit(channels as int, i32::MAX),
                        no_samples: fit(samples as int / channels as int, i32::MAX),
                        channel_stride_in_bytes: fit(
                            4 * (samples as int / channels as int),
                            i32::MAX,
                        ),
                    },
                ),
            )
        },
{
    if channels == 0 {
        return Err(owned("cannot send NDI audio with zero channels"));
    }
    let per_channel = samples / channels;
    proof {
        assert(samples < channels <==> per_channel == 0) by (nonlinear_arith)
            requires
                per_channel == samples as int / channels as int,
                channels > 0,
                samples >= 0,
        ;
        assert(per_channel <= samples) by (nonlinear_arith)
            requires
                per_channel == samples as int / channels as int,
                channels > 0,
                samples >= 0,
        ;
    }
    if per_channel == 0 {
        return Ok(None);
    }
    Ok(
        Some(
            SendShape {
                sample_rate: fitted(sample_rate_hz as u64, 48_000),
                no_channels: fitted(channels as u64, i32::MAX),
                no_samples: fitted(per_channel as u64, i32::MAX),
                channel_stride_in_bytes: fitted((4 * per_channel) as u64, i32::MAX),
            },
        ),
    )
}

// ---------------------------------------------------------------------------
// Receiving audio

/// What was received.
#[derive(Debug, Clone, Copy, PartialEq, Eq, Structural)]
pub enum NdiReceived {
    Nothing,
    Audio,
    Fault,
}

/// What a frame of that type is.
pub fn received_kind(frame_type: i32) -> (r: NdiReceived)
    ensures
        r == (if frame_type == NDI_FRAME_TYPE_AUDIO {
            NdiReceived::Audio
        } else if frame_type == NDI_FRAME_TYPE_ERROR {
            NdiReceived::Fault
        } else {
            NdiReceived::Nothing
        }),
{
    if frame_type == NDI_FRAME_TYPE_AUDIO {
        NdiReceived::Audio
    } else if frame_type == NDI_FRAME_TYPE_ERROR {
        NdiReceived::Fault
    } else {
        NdiReceived::Nothing
    }
}

/// What a frame of audio says of itself.
#[derive(Debug, Clone, Copy, PartialEq, Eq, Structural)]
pub struct FrameHeader {
    pub has_data: bool,
    pub sample_rate: i32,
    pub no_channels: i32,
    pub no_samples: i32,
    pub four_cc: u32,
    pub channel_stride_in_bytes: i32,
}

/// The shape of a frame of audio that was received.
#[derive(Debug, Clone, Copy, PartialEq, Eq, Structural)]
pub struct FrameShape {
    pub sample_rate_hz: u32,
    pub channels: usize,
    pub samples_per_channel: usize,
    /// The bytes from the start of one channel to the start of the next.
    pub stride: usize,
}

impl FrameShape {
    /// The bytes that the samples of such a frame stand in.
    pub open spec fn data_len(self) -> int {
        (self.channels - 1) * self.stride + 4 * self.samples_per_channel
    }
}

/// The digit for a value below sixteen.
pub open spec fn hex_digit(n: int) -> char {
    if n < 10 {
        (48 + n) as char
    } else {
        (87 + n) as char
    }
}

/// A number in sixteens, of eight digits.
pub open spec fn hex8(n: u32) -> Seq<char> {
    Seq::new(8, |i: int| hex_digit((n as int / vstd::arithmetic::power::pow(16, (7 - i) as nat)) % 16))
}

fn hex_text(n: u32) -> (r: String)
    ensures
        r@ == hex8(n),
{
    let mut out = String::new();
    let mut unit: u32 = 0x1000_0000;
    let mut i: usize = 0;
    proof {
        reveal(vstd::arithmetic::power::pow);
        reveal_with_fuel(vstd::arithmetic::power::pow, 9);
    }
    while i < 8
        invariant
            0 <= i <= 8,
            i < 8 ==> unit == vstd::arithmetic::power::pow(16, (7 - i) as nat),
            out@.len() == i,
            forall|k: int| 0 <= k < i ==> #[trigger] out@[k] == hex8(n)[k],
        decreases 8 - i,
    {
        proof {
            vstd::arithmetic::power::lemma_pow_positive(16, (7 - i) as nat);
        }
        let d = (n / unit) % 16;
        let c = if d < 10 {
            (48 + d as u8) as char
        } else {
            (87 + d as u8) as char
        };
        out.push(c);
        proof {
            if i < 7 {
                reveal(vstd::arithmetic::power::pow);
                assert(vstd::arithmetic::power::pow(16, (7 - i) as nat) == 16
                    * vstd::arithmetic::power::pow(16, (6 - i) as nat));
            }
        }
        unit = unit / 16;
        i = i + 1;
    }
    proof {
        assert(out@ =~= hex8(n));
    }
    out
}

/// The shape of a frame, or what is wrong with it.
pub open spec fn shape_of(h: FrameHeader) -> Result<FrameShape, Seq<char>> {
    if !h.has_data {
        Err("NDI audio frame had no data"@)
    } else if h.no_channels <= 0 || h.no_samples <= 0 || h.sample_rate <= 0 {
        Err("NDI audio frame had invalid dimensions"@)
    } else if h.four_cc != NDI_FOURCC_FLTP {
        Err("unsupported NDI audio format: 0x"@ + hex8(h.four_cc))
    } else {
        Ok(
            FrameShape {
                sample_rate_hz: h.sample_rate as u32,
                channels: h.no_channels as usize,
                samples_per_channel: h.no_samples as usize,
                stride: if h.channel_stride_in_bytes > 0 {
                    h.channel_stride_in_bytes as usize
                } else {
                    (4 * h.no_samples) as usize
                },
            },
        )
    }
}

/// Reads what a frame says of itself.
pub fn frame_shape(header: FrameHeader) -> (r: Result<FrameShape, String>)
    requires
        4 * header.no_samples <= usize::MAX,
    ensures
        match r {
            Ok(s) => shape_of(header) == Ok::<FrameShape, Seq<char>>(s),
            Err(m) => shape_of(header) == Err::<FrameShape, Seq<char>>(m@),
        },
{
    if !header.has_data {
        return Err(owned("NDI audio frame had no data"));
    }
    if header.no_channels <= 0 || header.no_samples <= 0 || header.sample_rate <= 0 {
        return Err(owned("NDI audio frame had invalid dimensions"));
    }
    if header.four_cc != NDI_FOURCC_FLTP {
        return Err(
            concat2("unsupported NDI audio format: 0x", hex_text(header.four_cc).as_str()),
        );
    }
    let samples_per_channel = header.no_samples as usize;
    let stride: usize = if header.channel_stride_in_bytes > 0 {
        header.channel_stride_in_bytes as usize
    } else {
        samples_per_channel * 4
    };
    Ok(
        FrameShape {
            sample_rate_hz: header.sample_rate as u32,
            channels: header.no_channels as usize,
            samples_per_channel,
            stride,
        },
    )
}

/// The sample at a place of the data, its lowest byte first.
pub open spec fn sample_at(data: Seq<u8>, at: int) -> Gain {
    Gain {
        bits: (data[at] as int + 256 * data[at + 1] as int + 65_536 * data[at + 2] as int
            + 16_777_216 * data[at + 3] as int) as u32,
    }
}

/// The samples of a frame, one of each channel after the other.
pub open spec fn frame_samples(data: Seq<u8>, shape: FrameShape) -> Seq<Gain> {
    Seq::new(
        (shape.samples_per_channel * shape.channels) as nat,
        |k: int|
            sample_at(
                data,
                (k % shape.channels as int) * shape.stride + 4 * (k / shape.channels as int),
            ),
    )
}

fn read_sample(data: &[u8], at: usize) -> (r: Gain)
    requires
        at + 4 <= data@.len(),
    ensures
        r == sample_at(data@, at as int),
{
    let bits: u32 = data[at] as u32 + 256 * (data[at + 1] as u32) + 65_536 * (data[at + 2] as u32)
        + 16_777_216 * (data[at + 3] as u32);
    Gain { bits }
}

proof fn lemma_offset(k: int, channels: int, per_channel: int, stride: int)
    requires
        0 <= k < per_channel * channels,
        channels > 0,
        per_channel > 0,
        stride >= 0,
    ensures
        0 <= k % channels < channels,
        0 <= k / channels < per_channel,
        0 <= (k % channels) * stride <= (channels - 1) * stride,
        (k % channels) * stride + 4 * (k / channels) + 4 <= (channels - 1) * stride + 4
            * per_channel,
{
    assert(0 <= k % channels < channels && 0 <= k / channels < per_channel) by (nonlinear_arith)
        requires
            0 <= k < per_channel * channels,
            channels > 0,
            per_channel > 0,
    ;
    let c = k % channels;
    assert(0 <= c * stride <= (channels - 1) * stride) by (nonlinear_arith)
        requires
            0 <= c < channels,
            stride >= 0,
    ;
}

/// Takes the samples out of the data of a frame.
pub fn copy_audio_samples(data: &[u8], shape: FrameShape) -> (r: Vec<Gain>)
    requires
        shape.channels > 0,
        shape.samples_per_channel > 0,
        shape.channels * shape.samples_per_channel <= usize::MAX,
        shape.data_len() <= data@.len(),
    ensures
        r@ == frame_samples(data@, shape),
{
    let channels = shape.channels;
    proof {
        assert(shape.samples_per_channel * channels == channels * shape.samples_per_channel)
            by (nonlinear_arith);
    }
    let total = shape.samples_per_channel * channels;
    let mut out: Vec<Gain> = Vec::new();
    let mut k: usize = 0;
    while k < total
        invariant
            channels == shape.channels,
            channels > 0,
            shape.samples_per_channel > 0,
            total == shape.samples_per_channel * channels,
            shape.data_len() <= data@.len(),
            0 <= k <= total,
            out@.len() == k,
            forall|j: int| 0 <= j < k ==> #[trigger] out@[j] == frame_samples(data@, shape)[j],
        decreases total - k,
    {
        proof {
            lemma_offset(
                k as int,
                channels as int,
                shape.samples_per_channel as int,
                shape.stride as int,
            );
            assert(data@.len() == data.len());
        }
        let channel = k % channels;
        let index = k / channels;
        let at = channel * shape.stride + index * 4;
        out.push(read_sample(data, at));
        k = k + 1;
    }
    proof {
        assert(out@ =~= frame_samples(data@, shape));
    }
    out
}

} // verus!
