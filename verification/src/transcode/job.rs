//! A transcoding job: its input, its output location and its renditions.

use vstd::prelude::*;

use crate::paths::{
    dir_status, file_stem, has_file_name, is_file, join, path_file_stem, path_has_file_name,
    path_join,
};

verus! {

/// One video rendition (one `v` variant of the HLS `var_stream_map`).
#[derive(Debug, Clone, PartialEq)]
pub struct VariantSpec {
    /// Rendition name, also the name of its output subdirectory, such as "1080p".
    pub name: &'static str,
    /// Target height; the width follows the aspect ratio.
    pub height: u32,
    /// Average bit rate in kbit/s.
    pub bit_rate_kbps: u32,
    /// Peak bit rate (encoder `maxrate`) in kbit/s.
    pub max_rate_kbps: u32,
    /// Rate-control buffer (encoder `bufsize`) in kbit/s.
    pub buf_size_kbps: u32,
}

/// Everything a transcoding run needs to know. Paths are held as text.
#[derive(Debug, Clone)]
pub struct JobConfig {
    pub input: String,
    pub output_dir: String,
    pub variants: Vec<VariantSpec>,
    pub fps: u32,
    pub segment_secs: u32,
    pub audio_bitrate_kbps: u32,
    /// When true, hardware encoders are not probed and libx264 is used.
    pub force_software: bool,
    /// Forced input format name (the CLI's `-f`); "lavfi" in tests, `None` in production.
    pub input_format: Option<String>,
    /// Name of the output root under `output_dir` in place of the input's
    /// stem (an input that is no file path, such as a lavfi graph, has none
    /// worth using); `None` in production.
    pub output_stem: Option<String>,
}

/// `v` is the rendition with these name and rates.
pub open spec fn variant_is(
    v: VariantSpec,
    name: Seq<char>,
    height: u32,
    bit_rate: u32,
    max_rate: u32,
    buf_size: u32,
) -> bool {
    &&& v.name@ == name
    &&& v.height == height
    &&& v.bit_rate_kbps == bit_rate
    &&& v.max_rate_kbps == max_rate
    &&& v.buf_size_kbps == buf_size
}

/// The reference ladder: 1080p, 720p and 480p with their rates.
pub open spec fn is_reference_ladder(vs: Seq<VariantSpec>) -> bool {
    &&& vs.len() == 3
    &&& variant_is(vs[0], "1080p"@, 1080, 4000, 5000, 8000)
    &&& variant_is(vs[1], "720p"@, 720, 2500, 3000, 5000)
    &&& variant_is(vs[2], "480p"@, 480, 1200, 1500, 2500)
}

impl Default for JobConfig {
    fn default() -> (r: Self)
        ensures
            r.input@ == Seq::<char>::empty(),
            r.output_dir@ == Seq::<char>::empty(),
            is_reference_ladder(r.variants@),
            r.fps == 30,
            r.segment_secs == 10,
            r.audio_bitrate_kbps == 128,
            !r.force_software,
            r.input_format is None,
            r.output_stem is None,
    {
        JobConfig {
            input: String::new(),
            output_dir: String::new(),
            variants: vec![
                VariantSpec {
                    name: "1080p",
                    height: 1080,
                    bit_rate_kbps: 4000,
                    max_rate_kbps: 5000,
                    buf_size_kbps: 8000,
                },
                VariantSpec {
                    name: "720p",
                    height: 720,
                    bit_rate_kbps: 2500,
                    max_rate_kbps: 3000,
                    buf_size_kbps: 5000,
                },
                VariantSpec {
                    name: "480p",
                    height: 480,
                    bit_rate_kbps: 1200,
                    max_rate_kbps: 1500,
                    buf_size_kbps: 2500,
                },
            ],
            fps: 30,
            segment_secs: 10,
            audio_bitrate_kbps: 128,
            force_software: false,
            input_format: None,
            output_stem: None,
        }
    }
}

/// The index of the first rendition whose average bit rate is zero.
pub open spec fn first_zero_bitrate(vs: Seq<VariantSpec>) -> Option<int> {
    if exists|k: int| 0 <= k < vs.len() && vs[k].bit_rate_kbps == 0 {
        Some(
            choose|k: int|
                0 <= k < vs.len() && vs[k].bit_rate_kbps == 0 && forall|j: int|
                    0 <= j < k ==> vs[j].bit_rate_kbps != 0,
        )
    } else {
        None
    }
}

/// The message `validate` gives for a configuration, `None` when it is
/// accepted; `input_is_file` is whether a regular file stands at the input
/// path, `output_dir_writable` whether the output directory takes writes.
/// The checks come in this order and the first that fails decides.
pub open spec fn validation_error(
    c: JobConfig,
    input_is_file: bool,
    output_dir_writable: bool,
) -> Option<Seq<char>> {
    validation_error_given(c, path_has_file_name(c.input@), input_is_file, output_dir_writable)
}

/// The message of `validate`, with the answers about the paths given:
/// whether the input path has a final component, whether a regular file
/// stands there, and whether the output directory takes writes.
pub open spec fn validation_error_given(
    c: JobConfig,
    input_has_file_name: bool,
    input_is_file: bool,
    output_dir_writable: bool,
) -> Option<Seq<char>> {
    if !input_has_file_name {
        Some("未选择输入文件"@)
    } else if !input_is_file {
        Some("输入文件不存在:"@ + c.input@)
    } else if c.output_dir@.len() == 0 {
        Some("未选择输出目录"@)
    } else if !output_dir_writable {
        Some("输出目录不可写:"@ + c.output_dir@)
    } else if c.variants@.len() == 0 {
        Some("至少需要启用一档分辨率"@)
    } else if c.fps == 0 {
        Some("fps 必须大于 0"@)
    } else if c.segment_secs == 0 {
        Some("分段时长必须大于 0 秒"@)
    } else if let Some(k) = first_zero_bitrate(c.variants@) {
        Some(c.variants@[k].name@ + " 码率必须大于 0"@)
    } else {
        None
    }
}

/// `r` reports the message `e`: `Ok` exactly when there is none, and the
/// message itself otherwise.
pub open spec fn reports(r: Result<(), String>, e: Option<Seq<char>>) -> bool {
    match r {
        Ok(()) => e is None,
        Err(msg) => e == Some(msg@),
    }
}

/// Whether a directory takes writes, from what the file system says of the
/// path (`dir_status`): a directory whose permissions are not read-only.
pub open spec fn takes_writes(status: Option<(bool, bool)>) -> bool {
    match status {
        Some((is_dir, read_only)) => is_dir && !read_only,
        None => false,
    }
}

/// Whether a directory takes writes, from what the file system says of it.
pub fn dir_takes_writes(status: Option<(bool, bool)>) -> (r: bool)
    ensures
        r == takes_writes(status),
{
    match status {
        Some((is_dir, read_only)) => is_dir && !read_only,
        None => false,
    }
}

/// The stem of a path's final component, empty when it has none.
pub open spec fn stem_or_empty(path: Seq<char>) -> Seq<char> {
    match path_file_stem(path) {
        Some(s) => s,
        None => Seq::empty(),
    }
}

impl JobConfig {
    /// The name of the output root: the override when there is one, the
    /// input file's stem otherwise.
    pub open spec fn spec_root_name(self) -> Seq<char> {
        match self.output_stem {
            Some(s) => s@,
            None => stem_or_empty(self.input@),
        }
    }

    /// The output root: `<output_dir>/<output_stem or input file stem>`.
    pub open spec fn spec_output_root(self) -> Seq<char> {
        path_join(self.output_dir@, self.spec_root_name())
    }

    /// Checks the configuration; the error is the message shown to the user.
    /// Whether the input file exists and whether the output directory takes
    /// writes are asked of the file system (the latter only when the earlier
    /// checks pass).
    pub fn validate(&self) -> (r: Result<(), String>)
        ensures
            exists|input_is_file: bool, output_dir_writable: bool|
                reports(r, validation_error(*self, input_is_file, output_dir_writable)),
    {
        let present = is_file(self.input.as_str());
        let writable = if present && !self.output_dir.as_str().is_empty() {
            dir_takes_writes(dir_status(self.output_dir.as_str()))
        } else {
            false
        };
        let r = self.validate_with(present, writable);
        proof {
            if !present || self.output_dir@.len() == 0 {
                assert(validation_error(*self, present, writable) == validation_error(
                    *self,
                    present,
                    true,
                ));
            }
        }
        r
    }

    /// The checks of `validate`, with the answers of the file system given.
    pub fn validate_with(&self, input_is_file: bool, output_dir_writable: bool) -> (r: Result<
        (),
        String,
    >)
        ensures
            reports(r, validation_error(*self, input_is_file, output_dir_writable)),
    {
        let named = has_file_name(self.input.as_str());
        self.validate_given(named, input_is_file, output_dir_writable)
    }

    /// The checks of `validate`, with every answer about the paths given.
    pub fn validate_given(
        &self,
        input_has_file_name: bool,
        input_is_file: bool,
        output_dir_writable: bool,
    ) -> (r: Result<(), String>)
        ensures
            reports(
                r,
                validation_error_given(
                    *self,
                    input_has_file_name,
                    input_is_file,
                    output_dir_writable,
                ),
            ),
    {
        if !input_has_file_name {
            return Err(String::from_str("未选择输入文件"));
        }
        if !input_is_file {
            let mut msg = String::from_str("输入文件不存在:");
            msg.append(self.input.as_str());
            return Err(msg);
        }
        if self.output_dir.as_str().is_empty() {
            return Err(String::from_str("未选择输出目录"));
        }
        if !output_dir_writable {
            let mut msg = String::from_str("输出目录不可写:");
            msg.append(self.output_dir.as_str());
            return Err(msg);
        }
        if self.variants.len() == 0 {
            return Err(String::from_str("至少需要启用一档分辨率"));
        }
        if self.fps == 0 {
            return Err(String::from_str("fps 必须大于 0"));
        }
        if self.segment_secs == 0 {
            return Err(String::from_str("分段时长必须大于 0 秒"));
        }
        let n = self.variants.len();
        let mut i: usize = 0;
        while i < n
            invariant
                n == self.variants@.len(),
                i <= n,
                forall|j: int| 0 <= j < i ==> self.variants@[j].bit_rate_kbps != 0,
                input_has_file_name,
                input_is_file,
                self.output_dir@.len() != 0,
                output_dir_writable,
                n != 0,
                self.fps != 0,
                self.segment_secs != 0,
            decreases n - i,
        {
            if self.variants[i].bit_rate_kbps == 0 {
                let ghost vs = self.variants@;
                proof {
                    let k = choose|k: int|
                        0 <= k < vs.len() && vs[k].bit_rate_kbps == 0 && forall|j: int|
                            0 <= j < k ==> vs[j].bit_rate_kbps != 0;
                    assert(vs[i as int].bit_rate_kbps == 0);
                    if k < i {
                        assert(vs[k].bit_rate_kbps != 0);
                    }
                    if k > i {
                        assert(vs[i as int].bit_rate_kbps != 0);
                    }
                    assert(first_zero_bitrate(vs) == Some(i as int));
                }
                let mut msg = String::from_str(self.variants[i].name);
                msg.append(" 码率必须大于 0");
                return Err(msg);
            }
            i = i + 1;
        }
        Ok(())
    }

    /// The output root: `<output_dir>/<output_stem>`, or
    /// `<output_dir>/<input file stem>` when there is no override.
    pub fn output_root(&self) -> (r: String)
        ensures
            r@ == self.spec_output_root(),
    {
        match &self.output_stem {
            Some(name) => join(self.output_dir.as_str(), name.as_str()),
            None => {
                let stem = self.segment_prefix();
                join(self.output_dir.as_str(), stem.as_str())
            },
        }
    }

    /// The prefix of segment file names: the input file's stem.
    pub fn segment_prefix(&self) -> (r: String)
        ensures
            r@ == stem_or_empty(self.input@),
    {
        match file_stem(self.input.as_str()) {
            Some(s) => s,
            None => String::new(),
        }
    }

    /// Keyframe interval: the number of frames in one segment, so that every
    /// segment starts independently.
    pub fn gop(&self) -> (r: u32)
        requires
            self.fps * self.segment_secs <= u32::MAX,
        ensures
            r == self.fps * self.segment_secs,
    {
        self.fps * self.segment_secs
    }

    /// The subdirectories to create before muxing: one per rendition, then
    /// "audio" when there is an audio rendition.
    pub fn variant_dirs(&self, has_audio: bool) -> (r: Vec<String>)
        ensures
            r@.len() == self.variants@.len() + if has_audio { 1int } else { 0int },
            forall|i: int|
                0 <= i < self.variants@.len() ==> #[trigger] r@[i]@ == path_join(
                    self.spec_output_root(),
                    self.variants@[i].name@,
                ),
            has_audio ==> r@[self.variants@.len() as int]@ == path_join(
                self.spec_output_root(),
                "audio"@,
            ),
    {
        let root = self.output_root();
        let mut dirs: Vec<String> = Vec::new();
        let n = self.variants.len();
        let mut i: usize = 0;
        while i < n
            invariant
                n == self.variants@.len(),
                i <= n,
                root@ == self.spec_output_root(),
                dirs@.len() == i,
                forall|j: int|
                    0 <= j < i ==> #[trigger] dirs@[j]@ == path_join(
                        self.spec_output_root(),
                        self.variants@[j].name@,
                    ),
            decreases n - i,
        {
            dirs.push(join(root.as_str(), self.variants[i].name));
            i = i + 1;
        }
        if has_audio {
            dirs.push(join(root.as_str(), "audio"));
        }
        dirs
    }
}

} // verus!

verus! {

/// A configuration that passes validation can be run: it has at least one
/// rendition, a positive frame rate and segment length, and every rendition
/// has a positive bit rate.
pub proof fn law_accepted_config_is_runnable(
    c: JobConfig,
    input_is_file: bool,
    output_dir_writable: bool,
)
    requires
        validation_error(c, input_is_file, output_dir_writable) is None,
    ensures
        c.variants@.len() > 0,
        c.fps > 0,
        c.segment_secs > 0,
        forall|i: int| 0 <= i < c.variants@.len() ==> #[trigger] c.variants@[i].bit_rate_kbps > 0,
{
    assert forall|i: int| 0 <= i < c.variants@.len() implies #[trigger] c.variants@[i].bit_rate_kbps
        > 0 by {
        if c.variants@[i].bit_rate_kbps == 0 {
            assert(exists|k: int|
                0 <= k < c.variants@.len() && c.variants@[k].bit_rate_kbps == 0);
        }
    }
}

/// With an input file and an output directory that takes writes, a
/// configuration without any rendition is refused with the message that
/// asks for one.
pub proof fn law_no_rendition_is_refused(c: JobConfig)
    requires
        path_has_file_name(c.input@),
        c.output_dir@.len() > 0,
        c.variants@.len() == 0,
    ensures
        validation_error(c, true, true) == Some("至少需要启用一档分辨率"@),
{
}

} // verus!
