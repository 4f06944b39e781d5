//! One point of a sweep: the settings of one encoding, the name of its
//! output, and the guard that keeps it from asking for more than the source
//! holds.

use crate::decimal::{
    decimal, decimal_string, is_digit, lemma_decimal_injective, lemma_decimal_is_numeral,
    lemma_numeral_ends_at_first_non_digit, lemma_same_lead,
};
use crate::resolution::{res_of, VideoRes};
use crate::stat::{VideoStat, VideoStatView};
use vstd::prelude::*;
use vstd::string::*;

verus! {

/// The settings of one encoding: frame size, frame rate in frames per
/// second, quality factor (lower is better), and whether the output is meant
/// to carry audio.
#[derive(Debug, Clone, Copy, PartialEq, Eq, Structural)]
pub struct VideoConfig {
    pub res: VideoRes,
    pub fps: u32,
    pub crf: u32,
    pub has_audio: bool,
}

/// In what a configuration asks for more than the source holds.
#[derive(Debug, Clone, Copy, PartialEq, Eq, Structural)]
pub enum VideoConfigUpScalingErr {
    /// The frame is wider or higher than the source's: the size asked for,
    /// then the size of the source.
    Resolution(VideoRes, VideoRes),
    /// The frame rate is above the source's: the rate asked for, then the
    /// whole frames per second of the source.
    Fps(u32, u32),
    /// Audio is asked for and the source has none.
    HasAudio,
}

impl VideoConfigUpScalingErr {
    /// The text that describes the error to the user.
    pub open spec fn spec_message(self) -> Seq<char> {
        "アップスケーリングエラー: "@ + match self {
            VideoConfigUpScalingErr::Resolution(c, r) => "解像度が元動画より大きいです: "@ + c.name()
                + " > "@ + r.name(),
            VideoConfigUpScalingErr::Fps(c, r) => "FPSが元動画より大きいです: "@ + decimal(c as nat)
                + " > "@ + decimal(r as nat),
            VideoConfigUpScalingErr::HasAudio => "音声が元動画に含まれていません"@,
        }
    }

    /// The text that describes the error to the user.
    pub fn message(&self) -> (r: String)
        ensures
            r@ == self.spec_message(),
    {
        let mut r = String::from_str("アップスケーリングエラー: ");
        match self {
            VideoConfigUpScalingErr::Resolution(c, s) => {
                let ghost head = r@;
                r.append("解像度が元動画より大きいです: ");
                r.append(c.to_name());
                r.append(" > ");
                r.append(s.to_name());
                assert(r@ =~= head + ("解像度が元動画より大きいです: "@ + c.name() + " > "@
                    + s.name()));
            },
            VideoConfigUpScalingErr::Fps(c, s) => {
                let ghost head = r@;
                r.append("FPSが元動画より大きいです: ");
                r.append(decimal_string(*c as u64).as_str());
                r.append(" > ");
                r.append(decimal_string(*s as u64).as_str());
                assert(r@ =~= head + ("FPSが元動画より大きいです: "@ + decimal(*c as nat) + " > "@
                    + decimal(*s as nat)));
            },
            VideoConfigUpScalingErr::HasAudio => {
                r.append("音声が元動画に含まれていません");
            },
        }
        r
    }
}

/// The verdict of the guard on a configuration for a source. The checks are
/// made in this order, and the first that fails decides: the frame must be no
/// wider and no higher than the source's; the frame rate must not be above
/// the whole frames per second of the source; audio must not be asked for
/// where the source has none.
pub open spec fn up_scaling_verdict(config: VideoConfig, stat: VideoStatView) -> Result<
    (),
    VideoConfigUpScalingErr,
> {
    let source = stat.video_stream;
    if config.res.wh().0 > source.width || config.res.wh().1 > source.height {
        Err(VideoConfigUpScalingErr::Resolution(config.res, res_of(source.width, source.height)))
    } else if config.fps > source.fps_milli / 1000 {
        Err(VideoConfigUpScalingErr::Fps(config.fps, (source.fps_milli / 1000) as u32))
    } else if config.has_audio && stat.audio_streams.len() == 0 {
        Err(VideoConfigUpScalingErr::HasAudio)
    } else {
        Ok(())
    }
}

impl VideoConfig {
    /// The part of an output file's name that tells the configuration.
    pub open spec fn file_name(self) -> Seq<char> {
        "--res-"@ + self.res.file_name() + "--fps-"@ + decimal(self.fps as nat) + "--crf-"@
            + decimal(self.crf as nat)
    }

    /// The configuration as it is written in a label.
    pub open spec fn label(self) -> Seq<char> {
        "RES: "@ + self.res.tag() + ", FPS: "@ + decimal(self.fps as nat) + ", CRF: "@ + decimal(
            self.crf as nat,
        )
    }

    /// The encoder's output options for the configuration: the quality
    /// factor of the video, the frame size and the frame rate.
    pub open spec fn args(self) -> Seq<Seq<char>> {
        seq![
            "-crf:v"@,
            decimal(self.crf as nat),
            "-s"@,
            self.res.file_name(),
            "-r"@,
            decimal(self.fps as nat),
        ]
    }

    /// The encoder's output options for the configuration, one argument
    /// each: the quality factor of the video, the frame size and the frame
    /// rate. They stand between the input and the output path.
    pub fn to_args(&self) -> (r: Vec<String>)
        ensures
            r@.map_values(|a: String| a@) == self.args(),
    {
        let mut r: Vec<String> = Vec::new();
        r.push(String::from_str("-crf:v"));
        r.push(decimal_string(self.crf as u64));
        r.push(String::from_str("-s"));
        r.push(self.res.to_file_name());
        r.push(String::from_str("-r"));
        r.push(decimal_string(self.fps as u64));
        assert(r@.map_values(|a: String| a@) =~= self.args());
        r
    }

    /// The part of an output file's name that tells the configuration: the
    /// frame size, the frame rate and the quality factor.
    pub fn to_file_name(&self) -> (r: String)
        ensures
            r@ == self.file_name(),
    {
        let mut r = String::from_str("--res-");
        r.append(self.res.to_file_name().as_str());
        r.append("--fps-");
        r.append(decimal_string(self.fps as u64).as_str());
        r.append("--crf-");
        r.append(decimal_string(self.crf as u64).as_str());
        r
    }

    /// The configuration as it is written in a label: the frame size, the
    /// frame rate and the quality factor.
    pub fn to_label(&self) -> (r: String)
        ensures
            r@ == self.label(),
    {
        let mut r = String::from_str("RES: ");
        r.append(self.res.to_tag().as_str());
        r.append(", FPS: ");
        r.append(decimal_string(self.fps as u64).as_str());
        r.append(", CRF: ");
        r.append(decimal_string(self.crf as u64).as_str());
        r
    }

    /// Checks that the configuration asks for no more than the source holds.
    pub fn check_up_scaling(&self, stat: &VideoStat) -> (r: Result<(), VideoConfigUpScalingErr>)
        ensures
            r == up_scaling_verdict(*self, stat@),
    {
        let (c_width, c_height) = self.res.to_wh();
        let r_width = stat.video_stream.width;
        let r_height = stat.video_stream.height;
        let r_fps = stat.video_stream.whole_fps();
        if c_width > r_width || c_height > r_height {
            return Err(
                VideoConfigUpScalingErr::Resolution(self.res, VideoRes::from_wh(r_width, r_height)),
            );
        }
        if self.fps > r_fps {
            return Err(VideoConfigUpScalingErr::Fps(self.fps, r_fps));
        }
        if self.has_audio && stat.audio_streams.len() == 0 {
            return Err(VideoConfigUpScalingErr::HasAudio);
        }
        Ok(())
    }
}

impl Default for VideoConfig {
    /// 720p at 30 frames per second, quality factor 23, with audio.
    fn default() -> (r: Self)
        ensures
            r == (VideoConfig { res: VideoRes::R720p, fps: 30, crf: 23, has_audio: true }),
    {
        VideoConfig { res: VideoRes::R720p, fps: 30, crf: 23, has_audio: true }
    }
}

/// A configuration whose frame is wider or higher than the source's is
/// turned down for its frame size, whatever else it asks for.
pub proof fn lemma_larger_frame_is_rejected(config: VideoConfig, stat: VideoStatView)
    requires
        config.res.wh().0 > stat.video_stream.width || config.res.wh().1
            > stat.video_stream.height,
    ensures
        up_scaling_verdict(config, stat) == Err::<(), VideoConfigUpScalingErr>(
            VideoConfigUpScalingErr::Resolution(
                config.res,
                res_of(stat.video_stream.width, stat.video_stream.height),
            ),
        ),
{
}

/// Checking a configuration against a source a second time gives what the
/// first check gave.
pub proof fn lemma_check_is_repeatable(
    config: VideoConfig,
    stat: VideoStatView,
    first: Result<(), VideoConfigUpScalingErr>,
    second: Result<(), VideoConfigUpScalingErr>,
)
    requires
        first == up_scaling_verdict(config, stat),
        second == up_scaling_verdict(config, stat),
    ensures
        first == second,
{
}

/// What follows the frame rate in the name part of a configuration.
pub open spec fn name_from_crf(c: VideoConfig) -> Seq<char> {
    "--crf-"@ + decimal(c.crf as nat)
}

/// What follows the frame size in the name part of a configuration.
pub open spec fn name_from_fps(c: VideoConfig) -> Seq<char> {
    "--fps-"@ + (decimal(c.fps as nat) + name_from_crf(c))
}

/// What follows the width in the name part of a configuration.
pub open spec fn name_from_height(c: VideoConfig) -> Seq<char> {
    seq!['x'] + (decimal(c.res.wh().1 as nat) + name_from_fps(c))
}

/// The name part of a configuration, read from the left: the lead, the
/// width, and what follows the width.
proof fn lemma_file_name_from_left(c: VideoConfig)
    ensures
        c.file_name() == "--res-"@ + (decimal(c.res.wh().0 as nat) + name_from_height(c)),
        name_from_height(c).len() > 0 && !is_digit(name_from_height(c)[0]),
        name_from_fps(c).len() > 0 && !is_digit(name_from_fps(c)[0]),
        name_from_crf(c).len() > 0 && !is_digit(name_from_crf(c)[0]),
{
    reveal_strlit("--fps-");
    reveal_strlit("--crf-");
    assert(c.file_name() =~= "--res-"@ + (decimal(c.res.wh().0 as nat) + name_from_height(c)));
}

/// The name part of a configuration tells its frame size in pixels, its frame
/// rate and its quality factor: two configurations with the same name part
/// agree in all three.
pub proof fn lemma_file_name_injective(a: VideoConfig, b: VideoConfig)
    requires
        a.file_name() == b.file_name(),
    ensures
        a.res.wh() == b.res.wh(),
        a.fps == b.fps,
        a.crf == b.crf,
{
    let (aw, ah) = a.res.wh();
    let (bw, bh) = b.res.wh();
    lemma_file_name_from_left(a);
    lemma_file_name_from_left(b);
    lemma_decimal_is_numeral(aw as nat);
    lemma_decimal_is_numeral(ah as nat);
    lemma_decimal_is_numeral(a.fps as nat);
    lemma_decimal_is_numeral(bw as nat);
    lemma_decimal_is_numeral(bh as nat);
    lemma_decimal_is_numeral(b.fps as nat);
    assert(aw == bw && name_from_height(a) == name_from_height(b)) by {
        lemma_same_lead(
            "--res-"@,
            decimal(aw as nat) + name_from_height(a),
            decimal(bw as nat) + name_from_height(b),
        );
        lemma_numeral_ends_at_first_non_digit(
            decimal(aw as nat),
            name_from_height(a),
            decimal(bw as nat),
            name_from_height(b),
        );
        lemma_decimal_injective(aw as nat, bw as nat);
    }
    assert(ah == bh && name_from_fps(a) == name_from_fps(b)) by {
        lemma_same_lead(
            seq!['x'],
            decimal(ah as nat) + name_from_fps(a),
            decimal(bh as nat) + name_from_fps(b),
        );
        lemma_numeral_ends_at_first_non_digit(
            decimal(ah as nat),
            name_from_fps(a),
            decimal(bh as nat),
            name_from_fps(b),
        );
        lemma_decimal_injective(ah as nat, bh as nat);
    }
    assert(a.fps == b.fps && name_from_crf(a) == name_from_crf(b)) by {
        lemma_same_lead(
            "--fps-"@,
            decimal(a.fps as nat) + name_from_crf(a),
            decimal(b.fps as nat) + name_from_crf(b),
        );
        lemma_numeral_ends_at_first_non_digit(
            decimal(a.fps as nat),
            name_from_crf(a),
            decimal(b.fps as nat),
            name_from_crf(b),
        );
        lemma_decimal_injective(a.fps as nat, b.fps as nat);
    }
    assert(a.crf == b.crf) by {
        lemma_same_lead("--crf-"@, decimal(a.crf as nat), decimal(b.crf as nat));
        lemma_decimal_injective(a.crf as nat, b.crf as nat);
    }
}

} // verus!
