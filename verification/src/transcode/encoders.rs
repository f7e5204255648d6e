//! Choice of the H.264 encoder: hardware candidates of the platform, tried in
//! order, with libx264 as the fallback.

use vstd::prelude::*;

use crate::text::{starts_with, str_equal};

verus! {

/// The software encoder every platform falls back to.
pub const SOFTWARE_ENCODER: &'static str = "libx264";

/// The operating systems whose hardware encoders are known.
#[derive(Debug, Clone, Copy, PartialEq, Eq, Structural)]
pub enum TargetOs {
    MacOs,
    Windows,
    Other,
}

/// The name of the operating system of the target this crate was built
/// for, as `target_lexicon` writes it (`OperatingSystem::into_str` of
/// `target_lexicon::HOST`, which that crate takes from the build target):
/// "linux", "windows", "darwin" or "macosx" (either followed by a version
/// when one is given), and so on. Nothing is claimed of the answer: it
/// depends on the build.
#[verifier::external_body]
fn target_os_name() -> (r: String) {
    target_lexicon::HOST.operating_system.into_str().into_owned()
}

/// The platform an operating system name stands for: macOS for the Darwin
/// names ("darwin" and "macosx", with or without a version), Windows for
/// "windows", and any other name for a platform without known hardware
/// encoders.
pub open spec fn os_of_name(name: Seq<char>) -> TargetOs {
    if "darwin"@.is_prefix_of(name) || "macosx"@.is_prefix_of(name) {
        TargetOs::MacOs
    } else if name == "windows"@ {
        TargetOs::Windows
    } else {
        TargetOs::Other
    }
}

/// Sorts an operating system name into the platforms whose encoders are known.
pub fn classify_os(name: &str) -> (r: TargetOs)
    ensures
        r == os_of_name(name@),
{
    if starts_with(name, "darwin") || starts_with(name, "macosx") {
        TargetOs::MacOs
    } else if str_equal(name, "windows") {
        TargetOs::Windows
    } else {
        TargetOs::Other
    }
}

/// The platform this crate was built for: the build's operating system name
/// sorted by `classify_os`. Nothing is stated of the answer, which depends on
/// the build.
pub fn target_os() -> TargetOs {
    let name = target_os_name();
    classify_os(name.as_str())
}

/// The hardware encoders of `os`, by priority.
pub open spec fn candidate_names(os: TargetOs) -> Seq<Seq<char>> {
    match os {
        TargetOs::MacOs => seq!["h264_videotoolbox"@],
        TargetOs::Windows => seq!["h264_nvenc"@, "h264_amf"@, "h264_qsv"@, "h264_mf"@],
        TargetOs::Other => Seq::empty(),
    }
}

/// The texts of a list of names.
pub open spec fn names_view(names: Seq<&'static str>) -> Seq<Seq<char>> {
    names.map_values(|s: &'static str| s@)
}

/// The hardware encoder candidates of `os`, by priority.
pub fn candidates_for(os: TargetOs) -> (r: Vec<&'static str>)
    ensures
        names_view(r@) == candidate_names(os),
{
    let r = match os {
        TargetOs::MacOs => vec!["h264_videotoolbox"],
        TargetOs::Windows => vec!["h264_nvenc", "h264_amf", "h264_qsv", "h264_mf"],
        TargetOs::Other => Vec::new(),
    };
    proof {
        assert(names_view(r@) =~= candidate_names(os));
    }
    r
}

/// The hardware encoder candidates of the platform, by priority.
pub fn candidates() -> (r: Vec<&'static str>)
    ensures
        exists|os: TargetOs| names_view(r@) == candidate_names(os),
{
    let os = target_os();
    candidates_for(os)
}

/// `x` rounded up in steps of `d`: the ceiling of `x / d`.
pub open spec fn ceil_div(x: int, d: int) -> int {
    (x + d - 1) / d
}

/// The largest even number not above `x`.
pub open spec fn even_floor(x: int) -> int {
    x - x % 2
}

/// The height the scaler produces for `target_h`: never above the input's
/// (taken as at least 2).
pub open spec fn scaled_height(in_h: int, target_h: int) -> int {
    let floor_h = if in_h < 2 { 2 } else { in_h };
    if target_h < floor_h { target_h } else { floor_h }
}

/// The estimated output width: the input width scaled by the height ratio,
/// rounded up, at least 2, then made even by dropping the low bit.
pub open spec fn width_estimate(in_w: int, in_h: int, target_h: int) -> int {
    let w = ceil_div(in_w * scaled_height(in_h, target_h), in_h);
    even_floor(if w < 2 { 2 } else { w })
}

proof fn lemma_ceil_div_bound(x: int, d: int, c: int)
    by (nonlinear_arith)
    requires
        d > 0,
        0 <= x <= c * d,
    ensures
        0 <= ceil_div(x, d) <= c,
{
}

/// Estimates the output width for an input of `in_w` x `in_h` scaled to
/// `target_h` (the scaler's `force_original_aspect_ratio` behaviour).
/// The value is computed in 64 bits and then cut to 32; it is cut only
/// where the input is a single row high.
pub fn estimate_width(in_w: u32, in_h: u32, target_h: u32) -> (r: u32)
    requires
        in_h > 0,
    ensures
        r as int == width_estimate(in_w as int, in_h as int, target_h as int) % 0x1_0000_0000,
        r % 2 == 0,
        in_h >= 2 ==> r as int == width_estimate(in_w as int, in_h as int, target_h as int),
        in_h >= 2 ==> r >= 2,
        width_estimate(in_w as int, in_h as int, target_h as int) < 0x1_0000_0000 ==> r >= 2,
{
    let floor_h: u32 = if in_h < 2 { 2 } else { in_h };
    let h: u32 = if target_h < floor_h { target_h } else { floor_h };
    assert(in_w as int * h as int <= 0xffff_ffff * 0xffff_ffff) by (nonlinear_arith)
        requires
            in_w <= 0xffff_ffff,
            h <= 0xffff_ffff,
    ;
    let prod: u64 = in_w as u64 * h as u64;
    let w: u64 = (prod + in_h as u64 - 1) / in_h as u64;
    let wm: u64 = if w < 2 { 2 } else { w };
    let even: u64 = wm & !1u64;
    assert(even == wm - wm % 2) by (bit_vector)
        requires
            even == wm & !1u64,
    ;
    let r: u32 = even as u32;
    assert(r == even % 0x1_0000_0000) by (bit_vector)
        requires
            r == even as u32,
    ;
    proof {
        if in_h >= 2 {
            assert(in_w as int * h as int <= in_w as int * in_h as int) by (nonlinear_arith)
                requires
                    h <= in_h,
            ;
            lemma_ceil_div_bound(prod as int, in_h as int, in_w as int);
        }
    }
    r
}

/// The call of `probe` for `name` with the given picture size and rate
/// (in bit/s) can have answered `ok`.
pub open spec fn probe_answered<F: Fn(&str, i32, i32, i64) -> bool>(
    probe: F,
    name: &str,
    width: u32,
    height: u32,
    bit_rate_kbps: u32,
    ok: bool,
) -> bool {
    call_ensures(probe, (name, width as i32, height as i32, (bit_rate_kbps * 1000) as i64), ok)
}

/// The texts of the log messages.
pub open spec fn log_view(log: Seq<String>) -> Seq<Seq<char>> {
    log.map_values(|s: String| s@)
}

/// The message logged when hardware encoder `name` is taken.
pub open spec fn hardware_message(name: Seq<char>) -> Seq<char> {
    "已启用硬件编码:"@ + name
}

/// The message logged when every hardware candidate failed.
pub open spec fn fallback_message() -> Seq<char> {
    "硬件编码不可用,回退 libx264 软件编码"@
}

/// What `choose_from` does: with `force_software` libx264 is taken without
/// probing; otherwise the candidates are probed in order until one succeeds,
/// and that one is taken, or libx264 when none succeeds. One message is
/// logged when a candidate is taken, one when candidates existed and all
/// failed. `probed` lists the candidates probed, in the order of the calls.
pub open spec fn chose<F: Fn(&str, i32, i32, i64) -> bool>(
    cands: Seq<&'static str>,
    width: u32,
    height: u32,
    bit_rate_kbps: u32,
    force_software: bool,
    probe: F,
    before: Seq<Seq<char>>,
    after: Seq<Seq<char>>,
    r: (Seq<char>, bool),
    probed: Seq<&'static str>,
) -> bool {
    if force_software {
        &&& r == (SOFTWARE_ENCODER@, false)
        &&& after == before
        &&& probed.len() == 0
    } else if r.1 {
        exists|k: int|
            #![trigger cands[k]]
            0 <= k < cands.len() && r.0 == cands[k]@ && probe_answered(
                probe,
                cands[k],
                width,
                height,
                bit_rate_kbps,
                true,
            ) && (forall|j: int|
                0 <= j < k ==> probe_answered(
                    probe,
                    #[trigger] cands[j],
                    width,
                    height,
                    bit_rate_kbps,
                    false,
                )) && after == before.push(hardware_message(cands[k]@)) && probed == cands.take(
                k + 1,
            )
    } else {
        &&& r.0 == SOFTWARE_ENCODER@
        &&& probed == cands
        &&& forall|j: int|
            0 <= j < cands.len() ==> probe_answered(
                probe,
                #[trigger] cands[j],
                width,
                height,
                bit_rate_kbps,
                false,
            )
        &&& after == if cands.len() == 0 {
            before
        } else {
            before.push(fallback_message())
        }
    }
}

/// Chooses the encoder of a rendition among `cands`, trying each with
/// `probe` (name, width, height, bit rate in bit/s). Returns the encoder
/// name, whether it is a hardware one, and (as a ghost value) the
/// candidates handed to `probe`, in order; messages go to `log`.
pub fn choose_from<F: Fn(&str, i32, i32, i64) -> bool>(
    cands: &Vec<&'static str>,
    width: u32,
    height: u32,
    bit_rate_kbps: u32,
    force_software: bool,
    probe: F,
    log: &mut Vec<String>,
) -> (r: (String, bool, Ghost<Seq<&'static str>>))
    requires
        forall|name: &str|
            #[trigger] call_requires(
                probe,
                (name, width as i32, height as i32, (bit_rate_kbps * 1000) as i64),
            ),
    ensures
        chose(
            cands@,
            width,
            height,
            bit_rate_kbps,
            force_software,
            probe,
            log_view(old(log)@),
            log_view(final(log)@),
            (r.0@, r.1),
            r.2@,
        ),
{
    let ghost before = log_view(log@);
    let ghost mut probed: Seq<&'static str> = Seq::empty();
    if !force_software {
        let n = cands.len();
        let w: i32 = width as i32;
        let h: i32 = height as i32;
        let b: i64 = bit_rate_kbps as i64 * 1000;
        let mut i: usize = 0;
        while i < n
            invariant
                n == cands@.len(),
                i <= n,
                !force_software,
                w == width as i32,
                h == height as i32,
                b == (bit_rate_kbps * 1000) as i64,
                log_view(log@) == before,
                before == log_view(old(log)@),
                probed == cands@.take(i as int),
                forall|name: &str| #[trigger] call_requires(probe, (name, w, h, b)),
                forall|j: int|
                    0 <= j < i ==> probe_answered(
                        probe,
                        #[trigger] cands@[j],
                        width,
                        height,
                        bit_rate_kbps,
                        false,
                    ),
            decreases n - i,
        {
            let name: &'static str = cands[i];
            let ok = probe(name, w, h, b);
            proof {
                probed = probed.push(name);
                assert(probed == cands@.take(i + 1));
            }
            if ok {
                let mut msg = String::from_str("已启用硬件编码:");
                msg.append(name);
                log.push(msg);
                proof {
                    assert(log_view(log@) =~= before.push(hardware_message(cands@[i as int]@)));
                    assert(probe_answered(probe, cands@[i as int], width, height, bit_rate_kbps, true));
                }
                let chosen = String::from_str(name);
                proof {
                    let k = i as int;
                    assert(0 <= k < cands@.len() && chosen@ == cands@[k]@);
                    assert(probe_answered(probe, cands@[k], width, height, bit_rate_kbps, true));
                    assert(forall|j: int|
                        0 <= j < k ==> probe_answered(
                            probe,
                            #[trigger] cands@[j],
                            width,
                            height,
                            bit_rate_kbps,
                            false,
                        ));
                    assert(log_view(log@) == before.push(hardware_message(cands@[k]@)));
                }
                return (chosen, true, Ghost(probed));
            }
            i = i + 1;
        }
        if n != 0 {
            log.push(String::from_str("硬件编码不可用,回退 libx264 软件编码"));
            proof {
                assert(log_view(log@) =~= before.push(fallback_message()));
            }
        }
    }
    proof {
        if !force_software {
            assert(probed == cands@);
        }
    }
    (String::from_str(SOFTWARE_ENCODER), false, Ghost(probed))
}

/// Chooses the encoder of a rendition among the platform's candidates.
pub fn choose_encoder<F: Fn(&str, i32, i32, i64) -> bool>(
    width: u32,
    height: u32,
    bit_rate_kbps: u32,
    force_software: bool,
    probe: F,
    log: &mut Vec<String>,
) -> (r: (String, bool, Ghost<Seq<&'static str>>))
    requires
        forall|name: &str|
            #[trigger] call_requires(
                probe,
                (name, width as i32, height as i32, (bit_rate_kbps * 1000) as i64),
            ),
    ensures
        exists|os: TargetOs, cands: Seq<&'static str>|
            names_view(cands) == candidate_names(os) && chose(
                cands,
                width,
                height,
                bit_rate_kbps,
                force_software,
                probe,
                log_view(old(log)@),
                log_view(final(log)@),
                (r.0@, r.1),
                r.2@,
            ),
{
    let cands = candidates();
    choose_from(&cands, width, height, bit_rate_kbps, force_software, probe, log)
}

} // verus!
