//! The options handed to FFmpeg's HLS muxer.

use vstd::prelude::*;

use crate::paths::{join, path_join};
use crate::text::{decimal, join_with, push_decimal};
use crate::transcode::options::{option_pairs, Options};
use crate::transcode::job::{stem_or_empty, JobConfig, VariantSpec};

verus! {

/// The `var_stream_map` entry of video rendition `i` named `name`; every
/// video stream belongs to the audio group "audio".
pub open spec fn video_entry(i: nat, name: Seq<char>) -> Seq<char> {
    "v:"@ + decimal(i) + ",agroup:audio,name:"@ + name
}

/// The `var_stream_map` entry of the audio-only rendition, the default one.
pub open spec fn audio_entry() -> Seq<char> {
    "a:0,agroup:audio,default:yes,name:audio"@
}

/// The entries of the video renditions, in order.
pub open spec fn video_entries(vs: Seq<VariantSpec>) -> Seq<Seq<char>> {
    Seq::new(vs.len(), |i: int| video_entry(i as nat, vs[i].name@))
}

/// All the entries: the video ones, then the audio one when there is audio.
pub open spec fn stream_map_entries(vs: Seq<VariantSpec>, has_audio: bool) -> Seq<Seq<char>> {
    if has_audio {
        video_entries(vs).push(audio_entry())
    } else {
        video_entries(vs)
    }
}

/// The `var_stream_map` option: the entries separated by single spaces.
pub open spec fn spec_var_stream_map(job: JobConfig, has_audio: bool) -> Seq<char> {
    join_with(stream_map_entries(job.variants@, has_audio), " "@)
}

/// The segment file pattern: `<root>/%v/<prefix>_%05d.m4s`.
pub open spec fn spec_segment_pattern(job: JobConfig) -> Seq<char> {
    path_join(path_join(job.spec_output_root(), "%v"@), stem_or_empty(job.input@) + "_%05d.m4s"@)
}

/// The playlist pattern: `<root>/%v/index.m3u8`; the muxer writes one
/// playlist per rendition, `%v` standing for its name.
pub open spec fn spec_output_pattern(job: JobConfig) -> Seq<char> {
    path_join(path_join(job.spec_output_root(), "%v"@), "index.m3u8"@)
}

/// The full option set for a job.
pub open spec fn spec_muxer_options(job: JobConfig, has_audio: bool) -> Seq<(Seq<char>, Seq<char>)> {
    seq![
        ("hls_time"@, decimal(job.segment_secs as nat)),
        ("hls_playlist_type"@, "vod"@),
        ("hls_flags"@, "independent_segments"@),
        ("hls_segment_type"@, "fmp4"@),
        ("hls_fmp4_init_filename"@, "init.mp4"@),
        ("hls_segment_filename"@, spec_segment_pattern(job)),
        ("master_pl_name"@, "master.m3u8"@),
        ("var_stream_map"@, spec_var_stream_map(job, has_audio)),
    ]
}

/// The `var_stream_map` option. Video streams share the audio group
/// "audio"; the audio-only rendition is the default one and exists only
/// when the input has audio.
pub fn var_stream_map(job: &JobConfig, has_audio: bool) -> (r: String)
    ensures
        r@ == spec_var_stream_map(*job, has_audio),
{
    let n = job.variants.len();
    let ghost entries = video_entries(job.variants@);
    let mut s = String::new();
    let mut i: usize = 0;
    while i < n
        invariant
            n == job.variants@.len(),
            entries == video_entries(job.variants@),
            i <= n,
            s@ == join_with(entries.take(i as int), " "@),
        decreases n - i,
    {
        if i != 0 {
            s.append(" ");
        }
        s.append("v:");
        push_decimal(&mut s, i as u64);
        s.append(",agroup:audio,name:");
        s.append(job.variants[i].name);
        proof {
            assert(entries.take((i + 1) as int).drop_last() =~= entries.take(i as int));
            if i == 0 {
                assert(entries.take(1) =~= seq![entries[0]]);
            }
        }
        i = i + 1;
    }
    proof {
        assert(entries.take(n as int) =~= entries);
    }
    if has_audio {
        let ghost before = s@;
        if n != 0 {
            s.append(" ");
        }
        s.append("a:0,agroup:audio,default:yes,name:audio");
        proof {
            let all = entries.push(audio_entry());
            assert(all.drop_last() =~= entries);
            if n == 0 {
                assert(all =~= seq![audio_entry()]);
            }
        }
    }
    s
}

/// The HLS muxer's private options, in the order the muxer is given them.
pub fn muxer_options(job: &JobConfig, has_audio: bool) -> (r: Options)
    ensures
        option_pairs(r.entries@) == spec_muxer_options(*job, has_audio),
{
    let root = job.output_root();
    let dir = join(root.as_str(), "%v");
    let mut file = job.segment_prefix();
    file.append("_%05d.m4s");
    let seg = join(dir.as_str(), file.as_str());
    let vsm = var_stream_map(job, has_audio);
    let mut secs = String::new();
    push_decimal(&mut secs, job.segment_secs as u64);
    let mut entries: Vec<(String, String)> = Vec::new();
    entries.push((String::from_str("hls_time"), secs));
    entries.push((String::from_str("hls_playlist_type"), String::from_str("vod")));
    entries.push((String::from_str("hls_flags"), String::from_str("independent_segments")));
    entries.push((String::from_str("hls_segment_type"), String::from_str("fmp4")));
    entries.push((String::from_str("hls_fmp4_init_filename"), String::from_str("init.mp4")));
    entries.push((String::from_str("hls_segment_filename"), seg));
    entries.push((String::from_str("master_pl_name"), String::from_str("master.m3u8")));
    entries.push((String::from_str("var_stream_map"), vsm));
    let r = Options { entries };
    proof {
        assert(option_pairs(r.entries@) =~= spec_muxer_options(*job, has_audio));
    }
    r
}

/// What a stream of the HLS output carries: the video of a rendition (its
/// index in the job), or the audio.
#[derive(Debug, Clone, Copy, PartialEq, Eq, Structural)]
pub enum StreamKind {
    Video(usize),
    Audio,
}

/// The streams of the HLS output in the order they are added to the muxer:
/// the `n` renditions' videos in order, then the audio when there is audio.
pub open spec fn spec_stream_layout(n: nat, has_audio: bool) -> Seq<StreamKind> {
    let videos = Seq::new(n, |i: int| StreamKind::Video(i as usize));
    if has_audio {
        videos.push(StreamKind::Audio)
    } else {
        videos
    }
}

/// The streams of the HLS output of `n` renditions, in the order they are
/// added to the muxer.
pub fn stream_layout(n: usize, has_audio: bool) -> (r: Vec<StreamKind>)
    ensures
        r@ == spec_stream_layout(n as nat, has_audio),
{
    let mut r: Vec<StreamKind> = Vec::new();
    let mut i: usize = 0;
    while i < n
        invariant
            i <= n,
            r@ == Seq::new(i as nat, |j: int| StreamKind::Video(j as usize)),
        decreases n - i,
    {
        r.push(StreamKind::Video(i));
        proof {
            assert(r@ =~= Seq::new((i + 1) as nat, |j: int| StreamKind::Video(j as usize)));
        }
        i = i + 1;
    }
    if has_audio {
        r.push(StreamKind::Audio);
    }
    proof {
        assert(r@ =~= spec_stream_layout(n as nat, has_audio));
    }
    r
}

/// The index of the output stream that carries rendition `i` of `n`.
pub fn video_stream_index(n: usize, has_audio: bool, i: usize) -> (r: usize)
    requires
        i < n,
    ensures
        r == i,
        spec_stream_layout(n as nat, has_audio)[r as int] == StreamKind::Video(i),
{
    i
}

/// The index of the output stream that carries the audio of a job with `n`
/// renditions.
pub fn audio_stream_index(n: usize) -> (r: usize)
    ensures
        r == n,
        spec_stream_layout(n as nat, true)[r as int] == StreamKind::Audio,
{
    n
}

/// How many of the first `s` streams are video streams (`video`) or audio
/// streams (`!video`): the rank of stream `s` among the streams of its kind.
pub open spec fn streams_of_kind_before(layout: Seq<StreamKind>, video: bool, s: nat) -> nat
    decreases s,
{
    if s == 0 {
        0
    } else {
        streams_of_kind_before(layout, video, (s - 1) as nat) + if (layout[s - 1] is Video) == video {
            1nat
        } else {
            0nat
        }
    }
}

/// `entry` is the `var_stream_map` entry of stream `s` of `layout`: for a
/// video stream, "v:" with its rank among the video streams and the name
/// of the rendition it carries; for the audio stream, "a:" with its rank
/// among the audio streams.
pub open spec fn entry_names_stream(
    vs: Seq<VariantSpec>,
    layout: Seq<StreamKind>,
    entry: Seq<char>,
    s: int,
) -> bool {
    match layout[s] {
        StreamKind::Video(r) => r < vs.len() && entry == video_entry(
            streams_of_kind_before(layout, true, s as nat),
            vs[r as int].name@,
        ),
        StreamKind::Audio => entry == "a:"@ + decimal(streams_of_kind_before(layout, false, s as nat))
            + ",agroup:audio,default:yes,name:audio"@,
    }
}

/// The output URL pattern: the muxer makes one playlist per rendition from `%v`.
pub fn output_pattern(job: &JobConfig) -> (r: String)
    ensures
        r@ == spec_output_pattern(*job),
{
    let root = job.output_root();
    let dir = join(root.as_str(), "%v");
    join(dir.as_str(), "index.m3u8")
}

} // verus!

verus! {

/// One `var_stream_map` entry per video rendition, naming it, in order;
/// the audio entry comes last and only when there is audio.
pub proof fn law_stream_map_names_every_rendition(vs: Seq<VariantSpec>, has_audio: bool)
    ensures
        stream_map_entries(vs, has_audio).len() == vs.len() + if has_audio { 1int } else { 0int },
        forall|i: int|
            0 <= i < vs.len() ==> #[trigger] stream_map_entries(vs, has_audio)[i] == video_entry(
                i as nat,
                vs[i].name@,
            ),
        has_audio ==> stream_map_entries(vs, has_audio)[vs.len() as int] == audio_entry(),
{
}

/// Every option the HLS muxer is given is found under its key with its
/// value (no key is set twice, so none hides another).
pub proof fn law_muxer_options_are_found(job: JobConfig, has_audio: bool)
    ensures
        ({
            let o = spec_muxer_options(job, has_audio);
            &&& crate::transcode::options::lookup(o, "hls_time"@) == Some(decimal(job.segment_secs as nat))
            &&& crate::transcode::options::lookup(o, "hls_playlist_type"@) == Some("vod"@)
            &&& crate::transcode::options::lookup(o, "hls_flags"@) == Some("independent_segments"@)
            &&& crate::transcode::options::lookup(o, "hls_segment_type"@) == Some("fmp4"@)
            &&& crate::transcode::options::lookup(o, "hls_fmp4_init_filename"@) == Some("init.mp4"@)
            &&& crate::transcode::options::lookup(o, "hls_segment_filename"@) == Some(spec_segment_pattern(job))
            &&& crate::transcode::options::lookup(o, "master_pl_name"@) == Some("master.m3u8"@)
            &&& crate::transcode::options::lookup(o, "var_stream_map"@) == Some(spec_var_stream_map(job, has_audio))
        }),
{
    reveal_strlit("hls_time");
    reveal_strlit("hls_playlist_type");
    reveal_strlit("hls_flags");
    reveal_strlit("hls_segment_type");
    reveal_strlit("hls_fmp4_init_filename");
    reveal_strlit("hls_segment_filename");
    reveal_strlit("master_pl_name");
    reveal_strlit("var_stream_map");
    let o = spec_muxer_options(job, has_audio);
    assert(o[0].0.len() == 8);
    assert(o[1].0.len() == 17);
    assert(o[2].0.len() == 9);
    assert(o[3].0.len() == 16);
    assert(o[4].0.len() == 22);
    assert(o[5].0.len() == 20);
    assert(o[6].0.len() == 14);
    assert(o[7].0.len() == 14);
    assert(o[6].0[0] != o[7].0[0]);
    crate::transcode::options::lemma_lookup_finds(o, 0);
    crate::transcode::options::lemma_lookup_finds(o, 1);
    crate::transcode::options::lemma_lookup_finds(o, 2);
    crate::transcode::options::lemma_lookup_finds(o, 3);
    crate::transcode::options::lemma_lookup_finds(o, 4);
    crate::transcode::options::lemma_lookup_finds(o, 5);
    crate::transcode::options::lemma_lookup_finds(o, 6);
    crate::transcode::options::lemma_lookup_finds(o, 7);
}

proof fn lemma_ranks_in_layout(n: nat, has_audio: bool, s: nat)
    requires
        s <= n,
    ensures
        streams_of_kind_before(spec_stream_layout(n, has_audio), true, s) == s,
        streams_of_kind_before(spec_stream_layout(n, has_audio), false, s) == 0,
    decreases s,
{
    if s > 0 {
        lemma_ranks_in_layout(n, has_audio, (s - 1) as nat);
    }
}

/// The output streams and the `var_stream_map` entries correspond one to
/// one, in order: the entry at a stream's index names that stream by its
/// kind and its rank among the streams of its kind, and a video entry
/// carries the name of the rendition the stream encodes. So rendition `i`
/// is stream `i` and entry "v:i", and the audio, last, is entry "a:0".
/// (A job holds its renditions in a `Vec`, so there are at most
/// `usize::MAX` of them.)
pub proof fn law_stream_map_follows_stream_order(vs: Seq<VariantSpec>, has_audio: bool)
    requires
        vs.len() <= usize::MAX,
    ensures
        spec_stream_layout(vs.len(), has_audio).len() == stream_map_entries(vs, has_audio).len(),
        forall|s: int|
            0 <= s < spec_stream_layout(vs.len(), has_audio).len() ==> entry_names_stream(
                vs,
                spec_stream_layout(vs.len(), has_audio),
                #[trigger] stream_map_entries(vs, has_audio)[s],
                s,
            ),
{
    let n = vs.len();
    let layout = spec_stream_layout(n, has_audio);
    let entries = stream_map_entries(vs, has_audio);
    assert forall|s: int| 0 <= s < layout.len() implies entry_names_stream(
        vs,
        layout,
        #[trigger] entries[s],
        s,
    ) by {
        if s < n {
            lemma_ranks_in_layout(n, has_audio, s as nat);
            assert(layout[s] == StreamKind::Video(s as usize));
            assert(entries[s] == video_entry(s as nat, vs[s].name@));
        } else {
            lemma_ranks_in_layout(n, has_audio, n);
            reveal_strlit("a:0,agroup:audio,default:yes,name:audio");
            reveal_strlit("a:");
            reveal_strlit(",agroup:audio,default:yes,name:audio");
            assert(decimal(0) =~= seq!['0']);
            assert(entries[s] =~= "a:"@ + decimal(0) + ",agroup:audio,default:yes,name:audio"@);
        }
    }
}

} // verus!
