//! Frame sizes: the standard 16:9 sizes by name, and any other size by its
//! width and height.

use crate::decimal::{decimal, decimal_string};
use crate::stream::VideoStream;
use vstd::prelude::*;
use vstd::string::*;

verus! {

/// A frame size: one of the standard 16:9 sizes, or a width and a height.
#[derive(Debug, Clone, Copy, PartialEq, Eq, Structural)]
pub enum VideoRes {
    R240p,
    R360p,
    R480p,
    R720p,
    R1080p,
    R1440p,
    R2160p,
    R4320p,
    Other(u32, u32),
}

/// Why a frame size could not be made from a width and a height of which
/// either may be left open.
#[derive(Debug, Clone, Copy, PartialEq, Eq, Structural)]
pub enum ToStrError {
    /// Neither the width nor the height was given.
    BothAreDynamicValue,
}

impl ToStrError {
    /// The text that describes the error to the user.
    pub open spec fn spec_message(self) -> Seq<char> {
        "幅と高さの両方が動的値です."@
    }

    /// The text that describes the error to the user.
    pub fn message(&self) -> (r: String)
        ensures
            r@ == self.spec_message(),
    {
        String::from_str("幅と高さの両方が動的値です.")
    }
}

/// The standard size with this width and height, or `Other` with them.
pub open spec fn res_of(width: u32, height: u32) -> VideoRes {
    if width == 426 && height == 240 {
        VideoRes::R240p
    } else if width == 640 && height == 360 {
        VideoRes::R360p
    } else if width == 854 && height == 480 {
        VideoRes::R480p
    } else if width == 1280 && height == 720 {
        VideoRes::R720p
    } else if width == 1920 && height == 1080 {
        VideoRes::R1080p
    } else if width == 2560 && height == 1440 {
        VideoRes::R1440p
    } else if width == 3840 && height == 2160 {
        VideoRes::R2160p
    } else if width == 7680 && height == 4320 {
        VideoRes::R4320p
    } else {
        VideoRes::Other(width, height)
    }
}

/// The value of a width or height that was given: itself, or for a negative
/// number its two's complement.
pub open spec fn given_axis(v: i32) -> u32 {
    if v >= 0 {
        v as u32
    } else {
        (v + 0x1_0000_0000) as u32
    }
}

/// The axis that was left open, from the given axis and the source's
/// proportions: `fixed * num / den`, rounded to the nearest whole number with
/// halves rounded up, and kept within `u32`. Nothing positive to scale gives
/// 0; a positive length over a zero denominator gives the largest value.
pub open spec fn derived_axis(fixed: int, num: int, den: int) -> u32 {
    if fixed <= 0 || num <= 0 {
        0
    } else if den <= 0 {
        u32::MAX
    } else {
        let q = (2 * fixed * num + den) / (2 * den);
        if q > u32::MAX {
            u32::MAX
        } else {
            q as u32
        }
    }
}

/// The size that `from_wh_dynamic` makes of a width and a height of which
/// at most one is left open, for a source of `source_width` by
/// `source_height`.
pub open spec fn dynamic_res(
    width: Option<i32>,
    height: Option<i32>,
    source_width: u32,
    source_height: u32,
) -> Result<VideoRes, ToStrError> {
    match (width, height) {
        (None, None) => Err(ToStrError::BothAreDynamicValue),
        (Some(w), Some(h)) => Ok(res_of(given_axis(w), given_axis(h))),
        (Some(w), None) => Ok(
            res_of(given_axis(w), derived_axis(w as int, source_height as int, source_width as int)),
        ),
        (None, Some(h)) => Ok(
            res_of(derived_axis(h as int, source_width as int, source_height as int), given_axis(h)),
        ),
    }
}

/// Computes [`given_axis`].
fn axis_given(v: i32) -> (r: u32)
    ensures
        r == given_axis(v),
{
    if v >= 0 {
        v as u32
    } else {
        (v as i64 + 0x1_0000_0000) as u32
    }
}

/// Computes [`derived_axis`].
fn axis_derived(fixed: i32, num: u32, den: u32) -> (r: u32)
    ensures
        r == derived_axis(fixed as int, num as int, den as int),
{
    if fixed <= 0 || num == 0 {
        0
    } else if den == 0 {
        u32::MAX
    } else {
        assert(2 * (fixed as int) * (num as int) + den <= 0xffff_ffff_ffff_ffff) by (nonlinear_arith)
            requires
                0 < fixed <= 0x7fff_ffff,
                0 < num <= 0xffff_ffff,
                0 < den <= 0xffff_ffff,
        ;
        assert(2 * (fixed as int) * (num as int) >= 0) by (nonlinear_arith)
            requires
                0 < fixed,
                0 < num,
        ;
        let twice: u64 = 2 * (fixed as u64) * (num as u64) + den as u64;
        let q: u64 = twice / (2 * den as u64);
        if q > u32::MAX as u64 {
            u32::MAX
        } else {
            q as u32
        }
    }
}

impl VideoRes {
    /// Width and height in pixels.
    pub open spec fn wh(self) -> (u32, u32) {
        match self {
            VideoRes::R240p => (426, 240),
            VideoRes::R360p => (640, 360),
            VideoRes::R480p => (854, 480),
            VideoRes::R720p => (1280, 720),
            VideoRes::R1080p => (1920, 1080),
            VideoRes::R1440p => (2560, 1440),
            VideoRes::R2160p => (3840, 2160),
            VideoRes::R4320p => (7680, 4320),
            VideoRes::Other(w, h) => (w, h),
        }
    }

    /// The name under which the size is shown.
    pub open spec fn name(self) -> Seq<char> {
        match self {
            VideoRes::R240p => "240p (SD)"@,
            VideoRes::R360p => "360p (SD)"@,
            VideoRes::R480p => "480p (SD)"@,
            VideoRes::R720p => "720p (HD)"@,
            VideoRes::R1080p => "1080p (FHD)"@,
            VideoRes::R1440p => "1440p (QHD)"@,
            VideoRes::R2160p => "2160p (4K)"@,
            VideoRes::R4320p => "4320p (8K)"@,
            VideoRes::Other(_, _) => "その他"@,
        }
    }

    /// The size as it stands in a file name: width, `x`, height.
    pub open spec fn file_name(self) -> Seq<char> {
        decimal(self.wh().0 as nat) + seq!['x'] + decimal(self.wh().1 as nat)
    }

    /// The size as the encoder's option for the frame size.
    pub open spec fn args(self) -> Seq<char> {
        seq!['-', 's', ' '] + self.file_name()
    }

    /// The size as it is written in a label: the name of its variant, for
    /// `Other` with width and height in brackets.
    pub open spec fn tag(self) -> Seq<char> {
        match self {
            VideoRes::R240p => "R240p"@,
            VideoRes::R360p => "R360p"@,
            VideoRes::R480p => "R480p"@,
            VideoRes::R720p => "R720p"@,
            VideoRes::R1080p => "R1080p"@,
            VideoRes::R1440p => "R1440p"@,
            VideoRes::R2160p => "R2160p"@,
            VideoRes::R4320p => "R4320p"@,
            VideoRes::Other(w, h) => "Other("@ + decimal(w as nat) + ", "@ + decimal(h as nat)
                + ")"@,
        }
    }

    /// The standard 16:9 sizes, smallest first.
    pub fn list169() -> (r: Vec<Self>)
        ensures
            r@ == seq![
                VideoRes::R240p,
                VideoRes::R360p,
                VideoRes::R480p,
                VideoRes::R720p,
                VideoRes::R1080p,
                VideoRes::R1440p,
                VideoRes::R2160p,
                VideoRes::R4320p,
            ],
    {
        let mut r: Vec<VideoRes> = Vec::new();
        r.push(VideoRes::R240p);
        r.push(VideoRes::R360p);
        r.push(VideoRes::R480p);
        r.push(VideoRes::R720p);
        r.push(VideoRes::R1080p);
        r.push(VideoRes::R1440p);
        r.push(VideoRes::R2160p);
        r.push(VideoRes::R4320p);
        assert(r@ =~= seq![
            VideoRes::R240p,
            VideoRes::R360p,
            VideoRes::R480p,
            VideoRes::R720p,
            VideoRes::R1080p,
            VideoRes::R1440p,
            VideoRes::R2160p,
            VideoRes::R4320p,
        ]);
        r
    }

    /// Width and height in pixels.
    pub fn to_wh(&self) -> (r: (u32, u32))
        ensures
            r == self.wh(),
    {
        match self {
            VideoRes::R240p => (426, 240),
            VideoRes::R360p => (640, 360),
            VideoRes::R480p => (854, 480),
            VideoRes::R720p => (1280, 720),
            VideoRes::R1080p => (1920, 1080),
            VideoRes::R1440p => (2560, 1440),
            VideoRes::R2160p => (3840, 2160),
            VideoRes::R4320p => (7680, 4320),
            VideoRes::Other(w, h) => (*w, *h),
        }
    }

    /// The name under which the size is shown.
    pub fn to_name(&self) -> (r: &'static str)
        ensures
            r@ == self.name(),
    {
        match self {
            VideoRes::R240p => "240p (SD)",
            VideoRes::R360p => "360p (SD)",
            VideoRes::R480p => "480p (SD)",
            VideoRes::R720p => "720p (HD)",
            VideoRes::R1080p => "1080p (FHD)",
            VideoRes::R1440p => "1440p (QHD)",
            VideoRes::R2160p => "2160p (4K)",
            VideoRes::R4320p => "4320p (8K)",
            VideoRes::Other(_, _) => "その他",
        }
    }

    /// The size as it stands in a file name: width, `x`, height.
    pub fn to_file_name(&self) -> (r: String)
        ensures
            r@ == self.file_name(),
    {
        let (w, h) = self.to_wh();
        let mut r = decimal_string(w as u64);
        proof {
            reveal_strlit("x");
        }
        r.append("x");
        r.append(decimal_string(h as u64).as_str());
        assert(r@ =~= self.file_name());
        r
    }

    /// The standard size with this width and height, or `Other` with them.
    pub fn from_wh(width: u32, height: u32) -> (r: Self)
        ensures
            r == res_of(width, height),
    {
        match (width, height) {
            (426, 240) => VideoRes::R240p,
            (640, 360) => VideoRes::R360p,
            (854, 480) => VideoRes::R480p,
            (1280, 720) => VideoRes::R720p,
            (1920, 1080) => VideoRes::R1080p,
            (2560, 1440) => VideoRes::R1440p,
            (3840, 2160) => VideoRes::R2160p,
            (7680, 4320) => VideoRes::R4320p,
            _ => VideoRes::Other(width, height),
        }
    }

    /// The size with the given width and height, where one of them may be
    /// left open: it is then derived from the other and the proportions of
    /// `video_stream`. With both left open there is no size.
    pub fn from_wh_dynamic(width: Option<i32>, height: Option<i32>, video_stream: VideoStream) -> (r:
        Result<Self, ToStrError>)
        ensures
            r == dynamic_res(width, height, video_stream.width, video_stream.height),
    {
        let rw = video_stream.width;
        let rh = video_stream.height;
        let computed_width = match width {
            Some(w) => axis_given(w),
            None => match height {
                Some(h) => axis_derived(h, rw, rh),
                None => {
                    return Err(ToStrError::BothAreDynamicValue);
                },
            },
        };
        let computed_height = match height {
            Some(h) => axis_given(h),
            None => match width {
                Some(w) => axis_derived(w, rh, rw),
                None => {
                    return Err(ToStrError::BothAreDynamicValue);
                },
            },
        };
        Ok(VideoRes::from_wh(computed_width, computed_height))
    }

    /// The size as it is written in a label.
    pub fn to_tag(&self) -> (r: String)
        ensures
            r@ == self.tag(),
    {
        match self {
            VideoRes::R240p => String::from_str("R240p"),
            VideoRes::R360p => String::from_str("R360p"),
            VideoRes::R480p => String::from_str("R480p"),
            VideoRes::R720p => String::from_str("R720p"),
            VideoRes::R1080p => String::from_str("R1080p"),
            VideoRes::R1440p => String::from_str("R1440p"),
            VideoRes::R2160p => String::from_str("R2160p"),
            VideoRes::R4320p => String::from_str("R4320p"),
            VideoRes::Other(w, h) => {
                let mut r = String::from_str("Other(");
                r.append(decimal_string(*w as u64).as_str());
                r.append(", ");
                r.append(decimal_string(*h as u64).as_str());
                r.append(")");
                r
            },
        }
    }

    /// The size as the encoder's option for the frame size.
    pub fn to_args(&self) -> (r: String)
        ensures
            r@ == self.args(),
    {
        proof {
            reveal_strlit("-s ");
        }
        let mut r = String::from_str("-s ");
        r.append(self.to_file_name().as_str());
        assert(r@ =~= self.args());
        r
    }
}

/// A size made from a width and a height has that width and that height.
pub proof fn lemma_from_wh_keeps_size(width: u32, height: u32)
    ensures
        res_of(width, height).wh() == (width, height),
{
}

/// A size is made again from its own width and height, unless it is an
/// `Other` that holds the width and height of a standard size.
pub proof fn lemma_from_wh_of_to_wh(res: VideoRes)
    ensures
        res_of(res.wh().0, res.wh().1).wh() == res.wh(),
        !(res is Other) ==> res_of(res.wh().0, res.wh().1) == res,
{
}

} // verus!
