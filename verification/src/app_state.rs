//! The front end's state: the settings the user edits, the configuration
//! built from them, and the status machine driven by the job's events.
//! Progress figures (fractions of the run, seconds) are kept by the front end.

use vstd::prelude::*;

use crate::transcode::event::{JobEvent, Phase};
use crate::text::{decimal, push_decimal};
use crate::transcode::job::{JobConfig, VariantSpec};

verus! {

/// The front end's status. Idle and the final states are set here; the
/// states of a running job follow its phase events.
#[derive(Debug, Clone, Copy, PartialEq, Eq, Structural)]
pub enum Status {
    Idle,
    Preparing,
    Transcoding,
    Finalizing,
    Done,
    Canceled,
    Failed,
}

/// The encoder list entry that lets hardware encoders be tried first.
pub const ENCODER_AUTO: &'static str = "自动(硬件优先)";

/// The encoder list entry that forces libx264.
pub const ENCODER_SOFTWARE: &'static str = "强制软编(libx264)";

/// The most log lines the front end keeps.
pub const MAX_LOG_LINES: usize = 2000;

/// The settings and status the front end shows.
#[derive(Debug, Clone)]
pub struct AppState {
    pub input_path: Option<String>,
    pub output_dir: Option<String>,
    /// Enabled renditions, indexed as the reference ladder (1080p, 720p, 480p).
    pub enabled_variants: [bool; 3],
    /// Average bit rate of each rendition in kbit/s (peak rate and buffer
    /// keep the reference values).
    pub bitrates_kbps: [u32; 3],
    pub fps: u32,
    pub segment_secs: u32,
    pub audio_bitrate_kbps: u32,
    pub force_software: bool,
    pub status: Status,
    pub logs: Vec<String>,
    pub output_root: Option<String>,
}

impl Default for AppState {
    fn default() -> (r: Self)
        ensures
            r.input_path is None,
            r.output_dir is None,
            r.enabled_variants@ == seq![true, true, true],
            r.bitrates_kbps@ == seq![4000u32, 2500u32, 1200u32],
            r.fps == 30,
            r.segment_secs == 10,
            r.audio_bitrate_kbps == 128,
            !r.force_software,
            r.status == Status::Idle,
            r.logs@.len() == 0,
            r.output_root is None,
    {
        let d = JobConfig::default();
        let r = AppState {
            input_path: None,
            output_dir: None,
            enabled_variants: [true, true, true],
            bitrates_kbps: [
                d.variants[0].bit_rate_kbps,
                d.variants[1].bit_rate_kbps,
                d.variants[2].bit_rate_kbps,
            ],
            fps: d.fps,
            segment_secs: d.segment_secs,
            audio_bitrate_kbps: d.audio_bitrate_kbps,
            force_software: false,
            status: Status::Idle,
            logs: Vec::new(),
            output_root: None,
        };
        proof {
            assert(r.enabled_variants@ =~= seq![true, true, true]);
            assert(r.bitrates_kbps@ =~= seq![4000u32, 2500u32, 1200u32]);
        }
        r
    }
}

/// A rendition as plain values: name, height, rate, peak rate, buffer.
pub open spec fn variant_view(v: VariantSpec) -> (Seq<char>, u32, u32, u32, u32) {
    (v.name@, v.height, v.bit_rate_kbps, v.max_rate_kbps, v.buf_size_kbps)
}

/// Rung `j` of the reference ladder with its average rate set to `rate`.
pub open spec fn reference_rung(j: int, rate: u32) -> (Seq<char>, u32, u32, u32, u32) {
    if j == 0 {
        ("1080p"@, 1080u32, rate, 5000u32, 8000u32)
    } else if j == 1 {
        ("720p"@, 720u32, rate, 3000u32, 5000u32)
    } else {
        ("480p"@, 480u32, rate, 1500u32, 2500u32)
    }
}

/// The enabled rungs among the first `n`, in ladder order, with the rates
/// the user set.
pub open spec fn selected_rungs(enabled: Seq<bool>, rates: Seq<u32>, n: nat) -> Seq<
    (Seq<char>, u32, u32, u32, u32),
>
    decreases n,
{
    if n == 0 {
        Seq::empty()
    } else {
        let prev = selected_rungs(enabled, rates, (n - 1) as nat);
        if enabled[n - 1] {
            prev.push(reference_rung(n - 1, rates[n - 1]))
        } else {
            prev
        }
    }
}

/// How many of the first `n` flags are raised.
pub open spec fn count_enabled(enabled: Seq<bool>, n: nat) -> nat
    decreases n,
{
    if n == 0 {
        0
    } else {
        count_enabled(enabled, (n - 1) as nat) + if enabled[n - 1] { 1nat } else { 0nat }
    }
}

/// The text of an optional path, empty when there is none.
pub open spec fn text_or_empty(p: Option<String>) -> Seq<char> {
    match p {
        Some(s) => s@,
        None => Seq::empty(),
    }
}

/// Whether the event ends the job.
pub open spec fn is_terminal(e: JobEvent) -> bool {
    e is Done || e is Canceled || e is Failed
}

/// The status after event `e` in status `s`.
pub open spec fn status_after(s: Status, e: JobEvent) -> Status {
    match e {
        JobEvent::Phase(Phase::Preparing) => Status::Preparing,
        JobEvent::Phase(Phase::Transcoding) => Status::Transcoding,
        JobEvent::Phase(Phase::Finalizing) => Status::Finalizing,
        JobEvent::Progress => if s == Status::Preparing {
            Status::Transcoding
        } else {
            s
        },
        JobEvent::Log(_) => s,
        JobEvent::Done(_) => Status::Done,
        JobEvent::Canceled => Status::Canceled,
        JobEvent::Failed(_) => Status::Failed,
    }
}

/// The log lines an event adds.
pub open spec fn event_lines(e: JobEvent) -> Seq<Seq<char>> {
    match e {
        JobEvent::Log(msg) => seq![msg@],
        JobEvent::Failed(msg) => seq![msg@],
        _ => Seq::empty(),
    }
}

/// The newest `MAX_LOG_LINES` lines of `lines`.
pub open spec fn keep_newest(lines: Seq<Seq<char>>) -> Seq<Seq<char>> {
    if lines.len() > MAX_LOG_LINES {
        lines.skip(lines.len() - MAX_LOG_LINES)
    } else {
        lines
    }
}

/// The texts of the log lines.
pub open spec fn lines_view(logs: Seq<String>) -> Seq<Seq<char>> {
    logs.map_values(|s: String| s@)
}

/// Keeps the newest `MAX_LOG_LINES` lines of `logs`.
pub fn trim_logs(logs: &mut Vec<String>)
    ensures
        lines_view(final(logs)@) == keep_newest(lines_view(old(logs)@)),
{
    let n = logs.len();
    if n > MAX_LOG_LINES {
        let kept = logs.split_off(n - MAX_LOG_LINES);
        *logs = kept;
        proof {
            assert(lines_view(logs@) =~= keep_newest(lines_view(old(logs)@)));
        }
    }
}

impl AppState {
    /// The job configuration of the current settings: the enabled renditions
    /// of the reference ladder, in its order, with the rates the user set.
    pub fn build_config(&self) -> (r: JobConfig)
        ensures
            r.input@ == text_or_empty(self.input_path),
            r.output_dir@ == text_or_empty(self.output_dir),
            r.variants@.map_values(|v: VariantSpec| variant_view(v)) == selected_rungs(
                self.enabled_variants@,
                self.bitrates_kbps@,
                3,
            ),
            r.fps == self.fps,
            r.segment_secs == self.segment_secs,
            r.audio_bitrate_kbps == self.audio_bitrate_kbps,
            r.force_software == self.force_software,
            r.input_format is None,
            r.output_stem is None,
    {
        let defaults = JobConfig::default();
        let mut variants: Vec<VariantSpec> = Vec::new();
        let mut i: usize = 0;
        while i < 3
            invariant
                i <= 3,
                crate::transcode::job::is_reference_ladder(defaults.variants@),
                variants@.map_values(|v: VariantSpec| variant_view(v)) == selected_rungs(
                    self.enabled_variants@,
                    self.bitrates_kbps@,
                    i as nat,
                ),
            decreases 3 - i,
        {
            if self.enabled_variants[i] {
                let v = &defaults.variants[i];
                variants.push(
                    VariantSpec {
                        name: v.name,
                        height: v.height,
                        bit_rate_kbps: self.bitrates_kbps[i],
                        max_rate_kbps: v.max_rate_kbps,
                        buf_size_kbps: v.buf_size_kbps,
                    },
                );
            }
            proof {
                assert(variants@.map_values(|v: VariantSpec| variant_view(v)) =~= selected_rungs(
                    self.enabled_variants@,
                    self.bitrates_kbps@,
                    (i + 1) as nat,
                ));
            }
            i = i + 1;
        }
        let input = match &self.input_path {
            Some(p) => p.clone(),
            None => String::new(),
        };
        let output_dir = match &self.output_dir {
            Some(p) => p.clone(),
            None => String::new(),
        };
        JobConfig {
            input,
            output_dir,
            variants,
            fps: self.fps,
            segment_secs: self.segment_secs,
            audio_bitrate_kbps: self.audio_bitrate_kbps,
            force_software: self.force_software,
            input_format: None,
            output_stem: None,
        }
    }

    /// Enters the state of a job that has just been started: status
    /// Preparing, no log lines, no output root.
    pub fn begin_job(&mut self)
        ensures
            final(self).status == Status::Preparing,
            final(self).logs@.len() == 0,
            final(self).output_root is None,
            final(self).input_path == old(self).input_path,
            final(self).output_dir == old(self).output_dir,
            final(self).enabled_variants == old(self).enabled_variants,
            final(self).bitrates_kbps == old(self).bitrates_kbps,
            final(self).fps == old(self).fps,
            final(self).segment_secs == old(self).segment_secs,
            final(self).audio_bitrate_kbps == old(self).audio_bitrate_kbps,
            final(self).force_software == old(self).force_software,
    {
        self.status = Status::Preparing;
        self.logs = Vec::new();
        self.output_root = None;
    }

    /// Applies a job event: the status follows it, log and failure messages
    /// are kept (the newest `MAX_LOG_LINES`), a finished job records its
    /// output root. Returns whether the event ends the job.
    pub fn on_event(&mut self, event: JobEvent) -> (finished: bool)
        ensures
            finished == is_terminal(event),
            final(self).status == status_after(old(self).status, event),
            lines_view(final(self).logs@) == keep_newest(
                lines_view(old(self).logs@) + event_lines(event),
            ),
            final(self).output_root == match event {
                JobEvent::Done(root) => Some(root),
                _ => old(self).output_root,
            },
            final(self).input_path == old(self).input_path,
            final(self).output_dir == old(self).output_dir,
            final(self).enabled_variants == old(self).enabled_variants,
            final(self).bitrates_kbps == old(self).bitrates_kbps,
            final(self).fps == old(self).fps,
            final(self).segment_secs == old(self).segment_secs,
            final(self).audio_bitrate_kbps == old(self).audio_bitrate_kbps,
            final(self).force_software == old(self).force_software,
    {
        let ghost before = lines_view(self.logs@);
        let ghost ev = event;
        let finished = match event {
            JobEvent::Phase(p) => {
                self.status = match p {
                    Phase::Preparing => Status::Preparing,
                    Phase::Transcoding => Status::Transcoding,
                    Phase::Finalizing => Status::Finalizing,
                };
                false
            },
            JobEvent::Progress => {
                if self.status == Status::Preparing {
                    self.status = Status::Transcoding;
                }
                false
            },
            JobEvent::Log(msg) => {
                self.logs.push(msg);
                false
            },
            JobEvent::Done(root) => {
                self.status = Status::Done;
                self.output_root = Some(root);
                true
            },
            JobEvent::Canceled => {
                self.status = Status::Canceled;
                true
            },
            JobEvent::Failed(msg) => {
                self.logs.push(msg);
                self.status = Status::Failed;
                true
            },
        };
        proof {
            assert(lines_view(self.logs@) =~= before + event_lines(ev));
        }
        trim_logs(&mut self.logs);
        finished
    }
}

} // verus!

verus! {

/// The configuration holds one rendition per enabled flag.
pub proof fn law_one_rendition_per_enabled_flag(enabled: Seq<bool>, rates: Seq<u32>, n: nat)
    requires
        n <= enabled.len(),
        n <= rates.len(),
    ensures
        selected_rungs(enabled, rates, n).len() == count_enabled(enabled, n),
    decreases n,
{
    if n > 0 {
        law_one_rendition_per_enabled_flag(enabled, rates, (n - 1) as nat);
    }
}

/// A job's end event always puts the front end in a final status (Done,
/// Canceled or Failed), whatever status it was in.
pub proof fn law_end_event_is_final(s: Status, e: JobEvent)
    requires
        is_terminal(e),
    ensures
        status_after(s, e) == Status::Done || status_after(s, e) == Status::Canceled
            || status_after(s, e) == Status::Failed,
{
}

/// Each phase event puts the front end in the status of the same name,
/// whatever status it was in.
pub proof fn law_phase_sets_its_own_status(s: Status, p: Phase)
    ensures
        p == Phase::Preparing ==> status_after(s, JobEvent::Phase(p)) == Status::Preparing,
        p == Phase::Transcoding ==> status_after(s, JobEvent::Phase(p)) == Status::Transcoding,
        p == Phase::Finalizing ==> status_after(s, JobEvent::Phase(p)) == Status::Finalizing,
{
}

/// Every rendition of the built configuration is a rung of the reference
/// ladder that the user enabled, with the rate the user set for that same
/// rung (its name tells which rung it is), and the renditions keep the
/// ladder's order: named "1080p" it has the first rate, "720p" the second,
/// "480p" the third.
pub proof fn law_each_rendition_has_its_own_rate(enabled: Seq<bool>, rates: Seq<u32>, n: nat)
    requires
        n <= 3,
        n <= enabled.len(),
        n <= rates.len(),
    ensures
        forall|k: int|
            0 <= k < selected_rungs(enabled, rates, n).len() ==> {
                let j = rung_index(#[trigger] selected_rungs(enabled, rates, n)[k].0);
                &&& 0 <= j < n
                &&& enabled[j]
                &&& selected_rungs(enabled, rates, n)[k] === reference_rung(j, rates[j])
            },
        forall|k: int, l: int|
            0 <= k < l < selected_rungs(enabled, rates, n).len() ==> rung_index(
                #[trigger] selected_rungs(enabled, rates, n)[k].0,
            ) < rung_index(#[trigger] selected_rungs(enabled, rates, n)[l].0),
        forall|k: int|
            0 <= k < selected_rungs(enabled, rates, n).len() ==> {
                let v = #[trigger] selected_rungs(enabled, rates, n)[k];
                &&& v.0 == "1080p"@ ==> v.1 == 1080 && v.2 == rates[0] && enabled[0]
                &&& v.0 == "720p"@ ==> v.1 == 720 && v.2 == rates[1] && enabled[1]
                &&& v.0 == "480p"@ ==> v.1 == 480 && v.2 == rates[2] && enabled[2]
            },
    decreases n,
{
    lemma_rung_names(0, 0);
    if n > 0 {
        law_each_rendition_has_its_own_rate(enabled, rates, (n - 1) as nat);
        let prev = selected_rungs(enabled, rates, (n - 1) as nat);
        let cur = selected_rungs(enabled, rates, n);
        lemma_rung_names(n - 1, rates[n - 1]);
        assert forall|k: int| 0 <= k < cur.len() implies {
            let j = rung_index(#[trigger] cur[k].0);
            &&& 0 <= j < n
            &&& enabled[j]
            &&& cur[k] === reference_rung(j, rates[j])
        } by {
            if k < prev.len() {
                assert(cur[k] === prev[k]);
                let j = rung_index(prev[k].0);
                lemma_rung_names(j, rates[j]);
            }
        }
        assert forall|k: int| 0 <= k < cur.len() implies {
            let v = #[trigger] cur[k];
            &&& v.0 == "1080p"@ ==> v.1 == 1080 && v.2 == rates[0] && enabled[0]
            &&& v.0 == "720p"@ ==> v.1 == 720 && v.2 == rates[1] && enabled[1]
            &&& v.0 == "480p"@ ==> v.1 == 480 && v.2 == rates[2] && enabled[2]
        } by {
            let j = rung_index(cur[k].0);
            lemma_rung_names(j, rates[j]);
        }
    }
}

/// The rungs of the reference ladder have distinct names, and the name of
/// rung `j` gives back `j`.
proof fn lemma_rung_names(j: int, rate: u32)
    requires
        0 <= j < 3,
    ensures
        rung_index(reference_rung(j, rate).0) == j,
        rung_index("1080p"@) == 0,
        rung_index("720p"@) == 1,
        rung_index("480p"@) == 2,
{
    reveal_strlit("1080p");
    reveal_strlit("720p");
    reveal_strlit("480p");
    assert("1080p"@.len() == 5);
    assert("720p"@.len() == 4);
    assert("480p"@[0] != "720p"@[0]);
}

/// The position in the reference ladder of the rung with this name
/// (3 for a name outside the ladder).
pub open spec fn rung_index(name: Seq<char>) -> int {
    if name == "1080p"@ {
        0
    } else if name == "720p"@ {
        1
    } else if name == "480p"@ {
        2
    } else {
        3
    }
}

/// A progress report only takes a preparing job to transcoding; in every
/// other status it leaves the status as it was.
pub proof fn law_progress_only_leaves_preparing(s: Status)
    ensures
        s == Status::Preparing ==> status_after(s, JobEvent::Progress) == Status::Transcoding,
        s != Status::Preparing ==> status_after(s, JobEvent::Progress) == s,
{
}

/// The log never holds more than `MAX_LOG_LINES` lines, and keeps the
/// newest: the last line before trimming is the last line after it.
pub proof fn law_log_is_bounded_and_keeps_newest(lines: Seq<Seq<char>>)
    ensures
        keep_newest(lines).len() <= MAX_LOG_LINES,
        lines.len() <= MAX_LOG_LINES ==> keep_newest(lines) == lines,
        lines.len() > 0 ==> keep_newest(lines).last() == lines.last(),
{
}

} // verus!

verus! {

/// Whatever a run returns, and also when its worker panics, the event sent
/// at its end ends the job, and the front end reaches a final status.
pub proof fn law_every_run_ends_the_job(
    result: Result<String, crate::transcode::pipeline::Outcome>,
    panic_message: Option<String>,
    s: Status,
)
    ensures
        is_terminal(crate::transcode::pipeline::spec_finish_event(result)),
        status_after(s, crate::transcode::pipeline::spec_finish_event(result)) == match result {
            Ok(_) => Status::Done,
            Err(crate::transcode::pipeline::Outcome::Canceled) => Status::Canceled,
            Err(crate::transcode::pipeline::Outcome::Failed(_)) => Status::Failed,
        },
        forall|e: JobEvent|
            (e matches JobEvent::Failed(msg) && msg@ == crate::transcode::pipeline::panic_text(
                panic_message,
            )) ==> is_terminal(e) && status_after(s, e) == Status::Failed,
{
}

} // verus!

verus! {

/// `n` kept within `lo` ..= `hi`.
pub open spec fn clamped(n: u32, lo: u32, hi: u32) -> u32 {
    if n < lo {
        lo
    } else if n > hi {
        hi
    } else {
        n
    }
}

/// `n` kept within `lo` ..= `hi` (`lo <= hi`).
fn clamp(n: u32, lo: u32, hi: u32) -> (r: u32)
    requires
        lo <= hi,
    ensures
        r == clamped(n, lo, hi),
{
    if n < lo {
        lo
    } else if n > hi {
        hi
    } else {
        n
    }
}

impl AppState {
    /// Sets the frame rate the user typed, kept within 1 ..= 240.
    pub fn set_fps(&mut self, n: u32)
        ensures
            *final(self) == (AppState { fps: clamped(n, 1, 240), ..*old(self) }),
    {
        self.fps = clamp(n, 1, 240);
    }

    /// Sets the segment length the user typed, kept within 1 ..= 60 seconds.
    pub fn set_segment_secs(&mut self, n: u32)
        ensures
            *final(self) == (AppState { segment_secs: clamped(n, 1, 60), ..*old(self) }),
    {
        self.segment_secs = clamp(n, 1, 60);
    }

    /// Sets the audio bit rate the user typed, kept within 32 ..= 512 kbit/s.
    pub fn set_audio_bitrate(&mut self, n: u32)
        ensures
            *final(self) == (AppState { audio_bitrate_kbps: clamped(n, 32, 512), ..*old(self) }),
    {
        self.audio_bitrate_kbps = clamp(n, 32, 512);
    }

    /// Takes the encoder the user picked in the list: software encoding is
    /// forced exactly when the forced-software entry is picked.
    pub fn set_encoder_choice(&mut self, label: &str)
        ensures
            *final(self) == (AppState { force_software: label@ == ENCODER_SOFTWARE@, ..*old(self) }),
    {
        self.force_software = crate::text::str_equal(label, ENCODER_SOFTWARE);
    }

    /// Whether the "open output directory" button is shown: the job is done
    /// and its output root is known.
    pub fn shows_output_button(&self) -> (r: bool)
        ensures
            r == (self.status == Status::Done && self.output_root is Some),
    {
        match self.status {
            Status::Done => self.output_root.is_some(),
            _ => false,
        }
    }
}

/// The status line of a status (while transcoding, the line used when the
/// progress is unknown; with a known progress the front end writes the
/// figures).
pub open spec fn spec_status_label(s: Status) -> Seq<char> {
    match s {
        Status::Idle => "就绪"@,
        Status::Preparing => "准备中…"@,
        Status::Transcoding => "转码中…"@,
        Status::Finalizing => "收尾中…"@,
        Status::Done => "已完成"@,
        Status::Canceled => "已取消"@,
        Status::Failed => "失败(见日志)"@,
    }
}

/// The status line of a status.
pub fn status_label(s: Status) -> (r: &'static str)
    ensures
        r@ == spec_status_label(s),
{
    match s {
        Status::Idle => "就绪",
        Status::Preparing => "准备中…",
        Status::Transcoding => "转码中…",
        Status::Finalizing => "收尾中…",
        Status::Done => "已完成",
        Status::Canceled => "已取消",
        Status::Failed => "失败(见日志)",
    }
}

/// A number with at least two digits: a leading zero below 10.
pub open spec fn two_digits(n: nat) -> Seq<char> {
    if n < 10 {
        seq!['0'] + decimal(n)
    } else {
        decimal(n)
    }
}

/// A duration as minutes and seconds, `MM:SS` (minutes may grow past 99).
pub open spec fn spec_clock_text(secs: nat) -> Seq<char> {
    two_digits(secs / 60) + ":"@ + two_digits(secs % 60)
}

/// Appends `n` with at least two digits.
fn push_two_digits(s: &mut String, n: u64)
    ensures
        final(s)@ == old(s)@ + two_digits(n as nat),
{
    if n < 10 {
        s.append("0");
        proof { reveal_strlit("0"); }
    }
    push_decimal(s, n);
}

/// A duration in whole seconds as `MM:SS`.
pub fn clock_text(secs: u64) -> (r: String)
    ensures
        r@ == spec_clock_text(secs as nat),
{
    let mut s = String::new();
    push_two_digits(&mut s, secs / 60);
    s.append(":");
    push_two_digits(&mut s, secs % 60);
    s
}

} // verus!
