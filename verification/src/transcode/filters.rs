//! The text of the filter graph that scales the input into every rendition.

use vstd::prelude::*;

use crate::text::{concat_all, decimal, join_with, push_decimal};
use crate::transcode::job::{JobConfig, VariantSpec};

verus! {

/// The label of the `i`-th output of the split filter: `[v<i>]`.
pub open spec fn split_label(i: nat) -> Seq<char> {
    "[v"@ + decimal(i) + "]"@
}

/// The labels `[v0]` .. `[v<n-1>]`.
pub open spec fn split_labels(n: nat) -> Seq<Seq<char>> {
    Seq::new(n, |i: int| split_label(i as nat))
}

/// The chain that scales split output `i` to `height`, resamples it to `fps`
/// and converts it to yuv420p, ending at the sink label `[s<i>]`.
pub open spec fn scale_chain(i: nat, height: nat, fps: nat) -> Seq<char> {
    split_label(i) + "scale=w=-2:h="@ + decimal(height)
        + ":force_original_aspect_ratio=decrease:force_divisible_by=2,fps="@ + decimal(fps)
        + ",format=yuv420p[s"@ + decimal(i) + "]"@
}

/// One scale chain per rendition, in order.
pub open spec fn scale_chains(vs: Seq<VariantSpec>, fps: nat) -> Seq<Seq<char>> {
    Seq::new(vs.len(), |i: int| scale_chain(i as nat, vs[i].height as nat, fps))
}

/// The video part of the filter graph: `[v_in]` split into one branch per
/// rendition, then the scale chains, separated by `;`.
pub open spec fn spec_video_spec(job: JobConfig) -> Seq<char> {
    let n = job.variants@.len();
    "[v_in]split="@ + decimal(n) + concat_all(split_labels(n)) + ";"@ + join_with(
        scale_chains(job.variants@, job.fps as nat),
        ";"@,
    )
}

/// The audio part of the filter graph.
pub open spec fn spec_audio_spec() -> Seq<char> {
    "[a_in]aformat=sample_fmts=fltp:sample_rates=48000:channel_layouts=stereo[sa]"@
}

/// Appends `scale_chain(i, height, fps)` to `s`.
fn push_scale_chain(s: &mut String, i: usize, height: u32, fps: u32)
    ensures
        final(s)@ == old(s)@ + scale_chain(i as nat, height as nat, fps as nat),
{
    s.append("[v");
    push_decimal(s, i as u64);
    s.append("]scale=w=-2:h=");
    push_decimal(s, height as u64);
    s.append(":force_original_aspect_ratio=decrease:force_divisible_by=2,fps=");
    push_decimal(s, fps as u64);
    s.append(",format=yuv420p[s");
    push_decimal(s, i as u64);
    s.append("]");
    proof {
        reveal_strlit("[v");
        reveal_strlit("]");
        reveal_strlit("]scale=w=-2:h=");
        reveal_strlit("scale=w=-2:h=");
        assert("]scale=w=-2:h="@ =~= "]"@ + "scale=w=-2:h="@);
        assert(final(s)@ =~= old(s)@ + scale_chain(i as nat, height as nat, fps as nat));
    }
}

/// The video part of the filter graph. Input label `[v_in]` (the buffer
/// source), output labels `[s0]` .. `[s<n-1>]` (one buffersink per rendition).
pub fn video_spec(job: &JobConfig) -> (r: String)
    ensures
        r@ == spec_video_spec(*job),
{
    let n = job.variants.len();
    let mut s = String::from_str("[v_in]split=");
    push_decimal(&mut s, n as u64);
    let ghost head = s@;
    let mut i: usize = 0;
    while i < n
        invariant
            n == job.variants@.len(),
            i <= n,
            s@ == head + concat_all(split_labels(i as nat)),
        decreases n - i,
    {
        s.append("[v");
        push_decimal(&mut s, i as u64);
        s.append("]");
        proof {
            assert(split_labels((i + 1) as nat).drop_last() =~= split_labels(i as nat));
        }
        i = i + 1;
    }
    s.append(";");
    let ghost head2 = s@;
    let ghost chains = scale_chains(job.variants@, job.fps as nat);
    let mut j: usize = 0;
    while j < n
        invariant
            n == job.variants@.len(),
            j <= n,
            chains == scale_chains(job.variants@, job.fps as nat),
            s@ == head2 + join_with(chains.take(j as int), ";"@),
        decreases n - j,
    {
        if j != 0 {
            s.append(";");
        }
        push_scale_chain(&mut s, j, job.variants[j].height, job.fps);
        proof {
            assert(chains.take((j + 1) as int).drop_last() =~= chains.take(j as int));
            if j == 0 {
                assert(chains.take(1) =~= seq![chains[0]]);
            }
        }
        j = j + 1;
    }
    proof {
        assert(chains.take(n as int) =~= chains);
    }
    s
}

/// The audio part of the filter graph: planar float, 48 kHz, stereo (aformat
/// inserts whatever conversions are needed). Input label `[a_in]` (the abuffer
/// source), output label `[sa]` (the abuffersink).
pub fn audio_spec() -> (r: String)
    ensures
        r@ == spec_audio_spec(),
{
    String::from_str("[a_in]aformat=sample_fmts=fltp:sample_rates=48000:channel_layouts=stereo[sa]")
}

} // verus!

verus! {

/// The scale chain of rendition `i` ends at the label `[s<i>]`, the name
/// the pipeline gives to that rendition's buffersink.
pub proof fn law_chain_ends_at_its_sink(i: nat, height: nat, fps: nat)
    ensures
        exists|prefix: Seq<char>|
            scale_chain(i, height, fps) == prefix + "["@ + crate::transcode::pipeline::spec_sink_name(
                i,
            ) + "]"@,
{
    reveal_strlit("[s");
    reveal_strlit("[");
    reveal_strlit("s");
    reveal_strlit(",format=yuv420p[s");
    reveal_strlit(",format=yuv420p");
    let prefix = split_label(i) + "scale=w=-2:h="@ + decimal(height)
        + ":force_original_aspect_ratio=decrease:force_divisible_by=2,fps="@ + decimal(fps)
        + ",format=yuv420p"@;
    assert(",format=yuv420p[s"@ =~= ",format=yuv420p"@ + "["@ + "s"@);
    assert(scale_chain(i, height, fps) =~= prefix + "["@ + crate::transcode::pipeline::spec_sink_name(i) + "]"@);
}

/// The video part splits the input into exactly as many branches as there
/// are renditions, and has one scale chain per rendition.
pub proof fn law_one_branch_per_rendition(job: JobConfig)
    ensures
        split_labels(job.variants@.len()).len() == job.variants@.len(),
        scale_chains(job.variants@, job.fps as nat).len() == job.variants@.len(),
        forall|i: int|
            0 <= i < job.variants@.len() ==> #[trigger] scale_chains(job.variants@, job.fps as nat)[i]
                == scale_chain(i as nat, job.variants@[i].height as nat, job.fps as nat),
{
}

} // verus!
