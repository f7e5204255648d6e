//! The decisions of the transcoding pipeline (demux, decode, filter, encode,
//! mux): the argument texts of the filter graph's sources, which rendition
//! drives encoder probing, where each input packet goes, when the HLS header
//! can be written, what happens to packets that arrive before it, and how a
//! run ends. The FFmpeg calls themselves are made by the front end's worker.

use vstd::prelude::*;

use crate::text::{decimal, push_decimal, push_signed_decimal, signed_decimal};
use crate::transcode::encoders::{
    candidate_names, choose_encoder, chose, estimate_width, log_view, names_view, width_estimate,
    TargetOs,
};
use crate::transcode::event::JobEvent;
use crate::transcode::filters::{audio_spec, spec_audio_spec, spec_video_spec, video_spec};
use crate::transcode::job::{JobConfig, VariantSpec};
use crate::transcode::options::{option_pairs, Options};

verus! {

/// How a run that did not succeed ended: canceled by the user, or failed
/// (the message is meant for the user).
#[derive(Debug)]
pub enum Outcome {
    Canceled,
    Failed(String),
}

/// The message of a failed run: "转码失败:" and the error's description.
pub open spec fn failure_text(detail: Seq<char>) -> Seq<char> {
    "转码失败:"@ + detail
}

impl Outcome {
    /// The outcome of a run stopped by the error described by `detail`.
    pub fn failed(detail: &str) -> (r: Outcome)
        ensures
            r matches Outcome::Failed(msg) && msg@ == failure_text(detail@),
    {
        let mut msg = String::from_str("转码失败:");
        msg.append(detail);
        Outcome::Failed(msg)
    }
}

/// The event that ends a job whose run returned `result` (the output root,
/// or how it stopped).
pub open spec fn spec_finish_event(result: Result<String, Outcome>) -> JobEvent {
    match result {
        Ok(root) => JobEvent::Done(root),
        Err(Outcome::Canceled) => JobEvent::Canceled,
        Err(Outcome::Failed(msg)) => JobEvent::Failed(msg),
    }
}

/// The event that ends a job whose run returned `result`.
pub fn finish_event(result: Result<String, Outcome>) -> (r: JobEvent)
    ensures
        r == spec_finish_event(result),
{
    match result {
        Ok(root) => JobEvent::Done(root),
        Err(Outcome::Canceled) => JobEvent::Canceled,
        Err(Outcome::Failed(msg)) => JobEvent::Failed(msg),
    }
}

/// The message of a run that panicked: the panic's own message when it
/// carried text, a fixed one otherwise.
pub open spec fn panic_text(message: Option<String>) -> Seq<char> {
    match message {
        Some(m) => m@,
        None => "转码线程发生 panic"@,
    }
}

/// The event that ends a job whose worker panicked with `message`.
pub fn panic_event(message: Option<String>) -> (r: JobEvent)
    ensures
        r matches JobEvent::Failed(msg) && msg@ == panic_text(message),
{
    match message {
        Some(m) => JobEvent::Failed(m),
        None => JobEvent::Failed(String::from_str("转码线程发生 panic")),
    }
}

/// The whole filter graph: the video part, then, with audio, `;` and the
/// audio part.
pub open spec fn spec_graph_spec(job: JobConfig, has_audio: bool) -> Seq<char> {
    if has_audio {
        spec_video_spec(job) + ";"@ + spec_audio_spec()
    } else {
        spec_video_spec(job)
    }
}

/// The text parsed into the filter graph between its sources and sinks.
pub fn graph_spec(job: &JobConfig, has_audio: bool) -> (r: String)
    ensures
        r@ == spec_graph_spec(*job, has_audio),
{
    let mut spec = video_spec(job);
    if has_audio {
        spec.append(";");
        let a = audio_spec();
        spec.append(a.as_str());
    }
    spec
}

/// The name of the buffersink of rendition `i`: `s<i>`, the label that
/// closes its scale chain.
pub open spec fn spec_sink_name(i: nat) -> Seq<char> {
    "s"@ + decimal(i)
}

/// The name of the buffersink of rendition `i`.
pub fn sink_name(i: usize) -> (r: String)
    ensures
        r@ == spec_sink_name(i as nat),
{
    let mut s = String::from_str("s");
    push_decimal(&mut s, i as u64);
    s
}

/// The pixel format name handed to the buffer source: the format's own
/// name when FFmpeg knows one, "yuv420p" otherwise.
pub open spec fn spec_pixel_format_name(known: Option<Seq<char>>) -> Seq<char> {
    match known {
        Some(n) => n,
        None => "yuv420p"@,
    }
}

/// The pixel format name handed to the buffer source.
pub fn pixel_format_name(known: Option<&str>) -> (r: String)
    ensures
        r@ == spec_pixel_format_name(
            match known {
                Some(n) => Some(n@),
                None => None,
            },
        ),
{
    match known {
        Some(n) => String::from_str(n),
        None => String::from_str("yuv420p"),
    }
}

/// The sample aspect ratio handed to the buffer source: an unknown one (a
/// zero numerator or denominator) counts as square, 1/1.
pub open spec fn spec_aspect_ratio(num: i32, den: i32) -> (i32, i32) {
    if num == 0 || den == 0 {
        (1, 1)
    } else {
        (num, den)
    }
}

/// The sample aspect ratio handed to the buffer source.
pub fn aspect_ratio(num: i32, den: i32) -> (r: (i32, i32))
    ensures
        r == spec_aspect_ratio(num, den),
{
    if num == 0 || den == 0 {
        (1, 1)
    } else {
        (num, den)
    }
}

/// The channel layout handed to the abuffer source: the description FFmpeg
/// gave, or "stereo" when it gave none or an empty one.
pub open spec fn spec_channel_layout_name(described: Option<Seq<char>>) -> Seq<char> {
    match described {
        Some(d) => if d.len() == 0 {
            "stereo"@
        } else {
            d
        },
        None => "stereo"@,
    }
}

/// The channel layout handed to the abuffer source.
pub fn channel_layout_name(described: Option<&str>) -> (r: String)
    ensures
        r@ == spec_channel_layout_name(
            match described {
                Some(d) => Some(d@),
                None => None,
            },
        ),
{
    match described {
        Some(d) => {
            if d.is_empty() {
                String::from_str("stereo")
            } else {
                String::from_str(d)
            }
        },
        None => String::from_str("stereo"),
    }
}

/// The arguments of the video buffer source.
pub open spec fn spec_buffer_args(
    width: u32,
    height: u32,
    pix_fmt: Seq<char>,
    tb_num: i32,
    tb_den: i32,
    sar_num: i32,
    sar_den: i32,
) -> Seq<char> {
    "video_size="@ + decimal(width as nat) + "x"@ + decimal(height as nat) + ":pix_fmt="@ + pix_fmt
        + ":time_base="@ + signed_decimal(tb_num as int) + "/"@ + signed_decimal(tb_den as int)
        + ":pixel_aspect="@ + signed_decimal(sar_num as int) + "/"@ + signed_decimal(
        sar_den as int,
    )
}

/// The arguments of the video buffer source: picture size, pixel format,
/// time base and sample aspect ratio of the decoded input.
pub fn buffer_args(
    width: u32,
    height: u32,
    pix_fmt: &str,
    tb_num: i32,
    tb_den: i32,
    sar_num: i32,
    sar_den: i32,
) -> (r: String)
    ensures
        r@ == spec_buffer_args(width, height, pix_fmt@, tb_num, tb_den, sar_num, sar_den),
{
    let mut s = String::from_str("video_size=");
    push_decimal(&mut s, width as u64);
    s.append("x");
    push_decimal(&mut s, height as u64);
    s.append(":pix_fmt=");
    s.append(pix_fmt);
    s.append(":time_base=");
    push_signed_decimal(&mut s, tb_num as i64);
    s.append("/");
    push_signed_decimal(&mut s, tb_den as i64);
    s.append(":pixel_aspect=");
    push_signed_decimal(&mut s, sar_num as i64);
    s.append("/");
    push_signed_decimal(&mut s, sar_den as i64);
    proof {
        assert(s@ =~= spec_buffer_args(width, height, pix_fmt@, tb_num, tb_den, sar_num, sar_den));
    }
    s
}

/// The arguments of the audio abuffer source.
pub open spec fn spec_abuffer_args(
    tb_num: i32,
    tb_den: i32,
    sample_rate: u32,
    sample_fmt: Seq<char>,
    layout: Seq<char>,
) -> Seq<char> {
    "time_base="@ + signed_decimal(tb_num as int) + "/"@ + signed_decimal(tb_den as int)
        + ":sample_rate="@ + decimal(sample_rate as nat) + ":sample_fmt="@ + sample_fmt
        + ":channel_layout="@ + layout
}

/// The arguments of the audio abuffer source: time base, sample rate,
/// sample format and channel layout of the decoded input.
pub fn abuffer_args(
    tb_num: i32,
    tb_den: i32,
    sample_rate: u32,
    sample_fmt: &str,
    layout: &str,
) -> (r: String)
    ensures
        r@ == spec_abuffer_args(tb_num, tb_den, sample_rate, sample_fmt@, layout@),
{
    let mut s = String::from_str("time_base=");
    push_signed_decimal(&mut s, tb_num as i64);
    s.append("/");
    push_signed_decimal(&mut s, tb_den as i64);
    s.append(":sample_rate=");
    push_decimal(&mut s, sample_rate as u64);
    s.append(":sample_fmt=");
    s.append(sample_fmt);
    s.append(":channel_layout=");
    s.append(layout);
    proof {
        assert(s@ =~= spec_abuffer_args(tb_num, tb_den, sample_rate, sample_fmt@, layout@));
    }
    s
}

/// `k` is the rendition that drives encoder probing: the tallest one, and
/// the last of the tallest when several share the greatest height.
pub open spec fn is_tallest(vs: Seq<VariantSpec>, k: int) -> bool {
    &&& 0 <= k < vs.len()
    &&& forall|j: int| 0 <= j < vs.len() ==> #[trigger] vs[j].height <= vs[k].height
    &&& forall|j: int| k < j < vs.len() ==> #[trigger] vs[j].height < vs[k].height
}

/// The rendition whose size drives encoder probing (hardware encoders are
/// sensitive to the picture size; if the largest opens, all do): the
/// tallest, the last of them on a tie; `None` when there is none.
pub fn tallest_variant(variants: &Vec<VariantSpec>) -> (r: Option<usize>)
    ensures
        r is None <==> variants@.len() == 0,
        r matches Some(k) ==> is_tallest(variants@, k as int),
{
    let n = variants.len();
    if n == 0 {
        return None;
    }
    let mut best: usize = 0;
    let mut i: usize = 1;
    while i < n
        invariant
            n == variants@.len(),
            1 <= i <= n,
            best < i,
            forall|j: int| 0 <= j < i ==> #[trigger] variants@[j].height <= variants@[best as int].height,
            forall|j: int| best < j < i ==> #[trigger] variants@[j].height < variants@[best as int].height,
        decreases n - i,
    {
        if variants[i].height >= variants[best].height {
            best = i;
        }
        i = i + 1;
    }
    Some(best)
}

/// The encoder of a job, chosen on its tallest rendition: that rendition's
/// height and rate, and the width the input (`in_w` x `in_h`) scales to at
/// that height, go to `choose_encoder`, which probes with `probe` and logs
/// to `log`. `None`, with nothing probed or logged, when the job has no
/// rendition.
pub fn pick_encoder<F: Fn(&str, i32, i32, i64) -> bool>(
    config: &JobConfig,
    in_w: u32,
    in_h: u32,
    probe: F,
    log: &mut Vec<String>,
) -> (r: Option<(String, bool, Ghost<Seq<&'static str>>)>)
    requires
        config.variants@.len() > 0 ==> in_h > 0,
        forall|name: &str, w: i32, h: i32, b: i64| #[trigger] call_requires(probe, (name, w, h, b)),
    ensures
        r is None <==> config.variants@.len() == 0,
        r is None ==> final(log)@ == old(log)@,
        r matches Some(x) ==> exists|k: int, os: TargetOs, cands: Seq<&'static str>|
            #![trigger is_tallest(config.variants@, k), candidate_names(os), names_view(cands)]
            is_tallest(config.variants@, k) && names_view(cands) == candidate_names(os) && chose(
                cands,
                (width_estimate(
                    in_w as int,
                    in_h as int,
                    config.variants@[k].height as int,
                ) % 0x1_0000_0000) as u32,
                config.variants@[k].height,
                config.variants@[k].bit_rate_kbps,
                config.force_software,
                probe,
                log_view(old(log)@),
                log_view(final(log)@),
                (x.0@, x.1),
                x.2@,
            ),
{
    let k = match tallest_variant(&config.variants) {
        Some(k) => k,
        None => return None,
    };
    let v = &config.variants[k];
    let w = estimate_width(in_w, in_h, v.height);
    let r = choose_encoder(w, v.height, v.bit_rate_kbps, config.force_software, probe, log);
    Some(r)
}

/// The options of a rendition's video encoder that go by dictionary:
/// peak rate and buffer in kbit/s, the high profile, and the minimum
/// keyframe interval (the job's GOP).
pub open spec fn spec_video_encoder_options(v: VariantSpec, gop: u32) -> Seq<
    (Seq<char>, Seq<char>),
> {
    seq![
        ("maxrate"@, decimal(v.max_rate_kbps as nat) + "k"@),
        ("bufsize"@, decimal(v.buf_size_kbps as nat) + "k"@),
        ("profile"@, "high"@),
        ("keyint_min"@, decimal(gop as nat)),
    ]
}

/// The dictionary options of a rendition's video encoder.
pub fn video_encoder_options(v: &VariantSpec, gop: u32) -> (r: Options)
    ensures
        option_pairs(r.entries@) == spec_video_encoder_options(*v, gop),
{
    let mut maxrate = String::new();
    push_decimal(&mut maxrate, v.max_rate_kbps as u64);
    maxrate.append("k");
    let mut bufsize = String::new();
    push_decimal(&mut bufsize, v.buf_size_kbps as u64);
    bufsize.append("k");
    let mut keyint = String::new();
    push_decimal(&mut keyint, gop as u64);
    let mut entries: Vec<(String, String)> = Vec::new();
    entries.push((String::from_str("maxrate"), maxrate));
    entries.push((String::from_str("bufsize"), bufsize));
    entries.push((String::from_str("profile"), String::from_str("high")));
    entries.push((String::from_str("keyint_min"), keyint));
    let r = Options { entries };
    proof {
        assert(option_pairs(r.entries@) =~= spec_video_encoder_options(*v, gop));
    }
    r
}

/// Every segment can start on a keyframe: the encoder's minimum keyframe
/// interval is the job's GOP, the number of frames in one segment at the
/// job's frame rate, and the muxer cuts segments of that length.
pub proof fn law_keyframe_interval_is_one_segment(v: VariantSpec, job: JobConfig)
    requires
        job.fps * job.segment_secs <= u32::MAX,
    ensures
        crate::transcode::options::lookup(
            spec_video_encoder_options(v, (job.fps * job.segment_secs) as u32),
            "keyint_min"@,
        ) == Some(decimal((job.fps * job.segment_secs) as nat)),
        crate::transcode::options::lookup(
            crate::transcode::hls::spec_muxer_options(job, true),
            "hls_time"@,
        ) == Some(decimal(job.segment_secs as nat)),
{
    reveal_strlit("maxrate");
    reveal_strlit("bufsize");
    reveal_strlit("profile");
    reveal_strlit("keyint_min");
    let o = spec_video_encoder_options(v, (job.fps * job.segment_secs) as u32);
    assert(o[0].0.len() == 7);
    assert(o[1].0.len() == 7);
    assert(o[2].0.len() == 7);
    assert(o[3].0.len() == 10);
    crate::transcode::options::lemma_lookup_finds(o, 3);
    crate::transcode::hls::law_muxer_options_are_found(job, true);
}

/// Where an input packet goes.
#[derive(Debug, Clone, Copy, PartialEq, Eq, Structural)]
pub enum PacketRoute {
    Video,
    Audio,
    Skip,
}

/// Where a packet of stream `index` goes: to the video decoder when it is
/// the video stream; to the audio decoder when it is the audio stream and
/// the graph has an audio branch; nowhere otherwise.
pub open spec fn spec_route(
    index: usize,
    video_index: usize,
    audio_index: Option<usize>,
    audio_branch: bool,
) -> PacketRoute {
    if index == video_index {
        PacketRoute::Video
    } else if audio_branch && audio_index == Some(index) {
        PacketRoute::Audio
    } else {
        PacketRoute::Skip
    }
}

/// Where a packet of stream `index` goes.
pub fn route_packet(
    index: usize,
    video_index: usize,
    audio_index: Option<usize>,
    audio_branch: bool,
) -> (r: PacketRoute)
    ensures
        r == spec_route(index, video_index, audio_index, audio_branch),
{
    if index == video_index {
        PacketRoute::Video
    } else if audio_branch && match audio_index {
        Some(a) => a == index,
        None => false,
    } {
        PacketRoute::Audio
    } else {
        PacketRoute::Skip
    }
}

/// The most input packets read while probing for the first decoded frames.
pub const PROBE_MAX_PACKETS: usize = 400;

/// Probing is over once a video frame is decoded and the audio is settled:
/// an audio frame decoded, or no audio decoder to wait for.
pub fn probe_finished(video_found: bool, audio_found: bool, audio_decoder: bool) -> (r: bool)
    ensures
        r == (video_found && (audio_found || !audio_decoder)),
{
    video_found && (audio_found || !audio_decoder)
}

/// Where a packet read while probing goes: to the video decoder while no
/// video frame has been decoded, to the audio decoder (when there is one)
/// while no audio frame has been decoded, nowhere otherwise.
pub open spec fn spec_probe_route(
    index: usize,
    video_index: usize,
    video_found: bool,
    audio_index: Option<usize>,
    audio_found: bool,
) -> PacketRoute {
    if index == video_index && !video_found {
        PacketRoute::Video
    } else if audio_index == Some(index) && !audio_found {
        PacketRoute::Audio
    } else {
        PacketRoute::Skip
    }
}

/// Where a packet read while probing goes. `audio_index` is the audio
/// stream whose decoder opened, if any.
pub fn probe_route(
    index: usize,
    video_index: usize,
    video_found: bool,
    audio_index: Option<usize>,
    audio_found: bool,
) -> (r: PacketRoute)
    ensures
        r == spec_probe_route(index, video_index, video_found, audio_index, audio_found),
{
    if index == video_index && !video_found {
        PacketRoute::Video
    } else if !audio_found && match audio_index {
        Some(a) => a == index,
        None => false,
    } {
        PacketRoute::Audio
    } else {
        PacketRoute::Skip
    }
}

/// While probing, a packet goes to the video decoder exactly when it is of
/// the video stream and no video frame has been decoded yet; a packet of the
/// opened audio stream (another stream than the video) goes to the audio
/// decoder whenever no audio frame has been decoded yet, whether or not a
/// video frame has; a packet goes to the audio decoder only in that case,
/// and every other packet is skipped.
pub proof fn law_probe_routes_until_each_frame_is_found(
    index: usize,
    video_index: usize,
    video_found: bool,
    audio_index: Option<usize>,
    audio_found: bool,
)
    ensures
        (spec_probe_route(index, video_index, video_found, audio_index, audio_found)
            == PacketRoute::Video) <==> (index == video_index && !video_found),
        index != video_index && audio_index == Some(index) && !audio_found ==> spec_probe_route(
            index,
            video_index,
            video_found,
            audio_index,
            audio_found,
        ) == PacketRoute::Audio,
        spec_probe_route(index, video_index, video_found, audio_index, audio_found)
            == PacketRoute::Audio ==> audio_index == Some(index) && !audio_found,
        forall|other_video_found: bool|
            index != video_index ==> spec_probe_route(
                index,
                video_index,
                video_found,
                audio_index,
                audio_found,
            ) == spec_probe_route(index, video_index, other_video_found, audio_index, audio_found),
{
}

/// Whether the HLS header is to be written now: not yet written, every
/// video encoder open (each opens on its first frame, when the picture size
/// is known), and the audio settled: no audio stream, or audio frames seen.
/// Once the header declares an audio rendition the audio must exist, or the
/// master playlist would point at an empty one.
pub open spec fn spec_header_due(
    header_written: bool,
    encoders_open: Seq<bool>,
    has_audio: bool,
    audio_seen: bool,
) -> bool {
    &&& !header_written
    &&& forall|i: int| 0 <= i < encoders_open.len() ==> #[trigger] encoders_open[i]
    &&& (!has_audio || audio_seen)
}

/// Whether the HLS header is to be written now.
pub fn header_due(
    header_written: bool,
    encoders_open: &Vec<bool>,
    has_audio: bool,
    audio_seen: bool,
) -> (r: bool)
    ensures
        r == spec_header_due(header_written, encoders_open@, has_audio, audio_seen),
{
    if header_written {
        return false;
    }
    let n = encoders_open.len();
    let mut i: usize = 0;
    while i < n
        invariant
            n == encoders_open@.len(),
            i <= n,
            forall|j: int| 0 <= j < i ==> #[trigger] encoders_open@[j],
        decreases n - i,
    {
        if !encoders_open[i] {
            return false;
        }
        i = i + 1;
    }
    !has_audio || audio_seen
}

/// At the end of the input: whether the output goes without its audio
/// rendition because an audio stream was expected and no audio frame came.
pub fn drops_audio(has_audio: bool, audio_seen: bool) -> (r: bool)
    ensures
        r == (has_audio && !audio_seen),
{
    has_audio && !audio_seen
}

/// The log line on frames that could not be decoded, when there were any.
pub open spec fn spec_skipped_frames_line(skipped: u64) -> Option<Seq<char>> {
    if skipped == 0 {
        None
    } else {
        Some("跳过了 "@ + decimal(skipped as nat) + " 个无法解码的帧"@)
    }
}

/// The log line on frames that could not be decoded, when there were any.
pub fn skipped_frames_line(skipped: u64) -> (r: Option<String>)
    ensures
        r is Some <==> spec_skipped_frames_line(skipped) is Some,
        r matches Some(line) ==> line@ == spec_skipped_frames_line(skipped)->0,
{
    if skipped == 0 {
        None
    } else {
        let mut line = String::from_str("跳过了 ");
        push_decimal(&mut line, skipped);
        line.append(" 个无法解码的帧");
        Some(line)
    }
}

/// The error of a run that reached the end of its input without writing
/// the HLS header: nothing was produced.
pub fn no_output_error(header_written: bool) -> (r: Option<String>)
    ensures
        r is None <==> header_written,
        r matches Some(msg) ==> msg@ == "没有产生任何输出"@,
{
    if header_written {
        None
    } else {
        Some(String::from_str("没有产生任何输出"))
    }
}

/// The last log line of a successful run, naming its output root.
pub fn done_line(config: &JobConfig) -> (r: String)
    ensures
        r@ == "转码完成:"@ + config.spec_output_root(),
{
    let mut line = String::from_str("转码完成:");
    let root = config.output_root();
    line.append(root.as_str());
    line
}

/// Packets on their way to the muxer. The HLS header can only be written
/// once every encoder's parameters are known, so packets that come before
/// it wait here, in arrival order, and are released when it is written;
/// after that every packet goes straight through.
pub struct PacketQueue<T> {
    pending: Vec<T>,
    header_written: bool,
}

impl<T> PacketQueue<T> {
    /// The packets waiting, oldest first.
    pub closed spec fn waiting(self) -> Seq<T> {
        self.pending@
    }

    /// Whether the header has been written.
    pub closed spec fn is_open(self) -> bool {
        self.header_written
    }

    /// Once the header is written nothing waits.
    #[verifier::type_invariant]
    closed spec fn well_formed(self) -> bool {
        self.header_written ==> self.pending@.len() == 0
    }

    /// An empty queue before the header.
    pub fn new() -> (r: Self)
        ensures
            r.waiting() == Seq::<T>::empty(),
            !r.is_open(),
    {
        PacketQueue { pending: Vec::new(), header_written: false }
    }

    /// Whether the header has been written.
    pub fn header_written(&self) -> (r: bool)
        ensures
            r == self.is_open(),
    {
        self.header_written
    }

    /// Hands a packet to the queue: returned to be written at once when
    /// the header is written, kept (after the others) otherwise.
    pub fn submit(&mut self, packet: T) -> (r: Option<T>)
        ensures
            final(self).is_open() == old(self).is_open(),
            old(self).is_open() ==> r == Some(packet) && final(self).waiting() == old(self).waiting(),
            !old(self).is_open() ==> r is None && final(self).waiting() == old(self).waiting().push(
                packet,
            ),
    {
        if self.header_written {
            Some(packet)
        } else {
            let mut pending: Vec<T> = Vec::new();
            std::mem::swap(&mut pending, &mut self.pending);
            pending.push(packet);
            self.pending = pending;
            None
        }
    }

    /// Records that the header is written and releases the waiting
    /// packets, oldest first.
    pub fn open(&mut self) -> (r: Vec<T>)
        ensures
            final(self).is_open(),
            final(self).waiting() == Seq::<T>::empty(),
            r@ == old(self).waiting(),
    {
        let mut released: Vec<T> = Vec::new();
        std::mem::swap(&mut released, &mut self.pending);
        self.header_written = true;
        released
    }
}

} // verus!
