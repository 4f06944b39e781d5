//! Probing the source: what the encoder reports about it while it runs
//! without an output, gathered into a [`VideoStat`].

use crate::log::{handle_ffmpeg_event_log, log_verdict};
use crate::stream::{
    AudioStream, AudioStreamView, StreamDescriptor, StreamDescriptorView, StreamEvent,
    StreamEventView, VideoStream, VideoStreamView,
};
use crate::text::join;
use vstd::prelude::*;
use vstd::string::*;

verus! {

/// What is known of a source video. The duration is held in milliseconds.
#[derive(Debug, PartialEq, Eq)]
pub struct VideoStat {
    pub path: String,
    pub video_stream: VideoStream,
    pub audio_streams: Vec<AudioStream>,
    pub duration_ms: u64,
    pub file_size: u64,
}

/// The mathematical value of a [`VideoStat`].
pub struct VideoStatView {
    pub path: Seq<char>,
    pub video_stream: VideoStreamView,
    pub audio_streams: Seq<AudioStreamView>,
    pub duration_ms: u64,
    pub file_size: u64,
}

impl View for VideoStat {
    type V = VideoStatView;

    open spec fn view(&self) -> VideoStatView {
        VideoStatView {
            path: self.path@,
            video_stream: self.video_stream@,
            audio_streams: self.audio_streams@.map_values(|a: AudioStream| a@),
            duration_ms: self.duration_ms,
            file_size: self.file_size,
        }
    }
}

impl Clone for VideoStat {
    fn clone(&self) -> (r: Self)
        ensures
            r@ == self@,
    {
        let audio_streams = self.audio_streams.clone();
        assert(audio_streams@ =~= self.audio_streams@);
        VideoStat {
            path: self.path.clone(),
            video_stream: self.video_stream.clone(),
            audio_streams,
            duration_ms: self.duration_ms,
            file_size: self.file_size,
        }
    }
}

/// Why a source could not be probed.
#[derive(Debug, PartialEq, Eq)]
pub enum VideoStatErr {
    /// The source has no video stream.
    NoVideoStreamFound,
    /// The source has more than one video stream.
    MultipleVideoStreamFound,
    /// The encoder did not report the duration of the source.
    NoDurationFound,
    /// The encoder failed, with the body of its message.
    FfmpegError(String),
    /// The size of the source file could not be read, with the reason.
    FileError(String),
}

/// The mathematical value of a [`VideoStatErr`].
pub enum VideoStatErrView {
    NoVideoStreamFound,
    MultipleVideoStreamFound,
    NoDurationFound,
    FfmpegError(Seq<char>),
    FileError(Seq<char>),
}

impl View for VideoStatErr {
    type V = VideoStatErrView;

    open spec fn view(&self) -> VideoStatErrView {
        match self {
            VideoStatErr::NoVideoStreamFound => VideoStatErrView::NoVideoStreamFound,
            VideoStatErr::MultipleVideoStreamFound => VideoStatErrView::MultipleVideoStreamFound,
            VideoStatErr::NoDurationFound => VideoStatErrView::NoDurationFound,
            VideoStatErr::FfmpegError(e) => VideoStatErrView::FfmpegError(e@),
            VideoStatErr::FileError(e) => VideoStatErrView::FileError(e@),
        }
    }
}

impl VideoStatErrView {
    /// The text that describes the error to the user.
    pub open spec fn message(self) -> Seq<char> {
        match self {
            VideoStatErrView::NoVideoStreamFound => "動画ストリームが見つかりません"@,
            VideoStatErrView::MultipleVideoStreamFound => "動画ストリームが複数見つかりました"@,
            VideoStatErrView::NoDurationFound => "動画の長さが取得できません"@,
            VideoStatErrView::FfmpegError(e) => "ffmpegエラー: "@ + e,
            VideoStatErrView::FileError(e) => "ファイルエラー: "@ + e,
        }
    }
}

impl VideoStatErr {
    /// The text that describes the error to the user.
    pub fn message(&self) -> (r: String)
        ensures
            r@ == self@.message(),
    {
        match self {
            VideoStatErr::NoVideoStreamFound => String::from_str("動画ストリームが見つかりません"),
            VideoStatErr::MultipleVideoStreamFound => String::from_str(
                "動画ストリームが複数見つかりました",
            ),
            VideoStatErr::NoDurationFound => String::from_str("動画の長さが取得できません"),
            VideoStatErr::FfmpegError(e) => join("ffmpegエラー: ", e.as_str()),
            VideoStatErr::FileError(e) => join("ファイルエラー: ", e.as_str()),
        }
    }
}

/// What a probe has gathered so far.
#[derive(Debug, PartialEq, Eq)]
pub struct StatProbe {
    pub duration_ms: Option<u64>,
    pub streams: Vec<StreamDescriptor>,
}

/// The mathematical value of a [`StatProbe`].
pub struct StatProbeView {
    pub duration_ms: Option<u64>,
    pub streams: Seq<StreamDescriptorView>,
}

impl View for StatProbe {
    type V = StatProbeView;

    open spec fn view(&self) -> StatProbeView {
        StatProbeView {
            duration_ms: self.duration_ms,
            streams: self.streams@.map_values(|s: StreamDescriptor| s@),
        }
    }
}

/// The streams and the duration of a source whose probe has ended well; only
/// the size of its file is still to be read.
#[derive(Debug, PartialEq, Eq)]
pub struct ProbedSource {
    pub video_stream: VideoStream,
    pub audio_streams: Vec<AudioStream>,
    pub duration_ms: u64,
}

/// The mathematical value of a [`ProbedSource`].
pub struct ProbedSourceView {
    pub video_stream: VideoStreamView,
    pub audio_streams: Seq<AudioStreamView>,
    pub duration_ms: u64,
}

impl View for ProbedSource {
    type V = ProbedSourceView;

    open spec fn view(&self) -> ProbedSourceView {
        ProbedSourceView {
            video_stream: self.video_stream@,
            audio_streams: self.audio_streams@.map_values(|a: AudioStream| a@),
            duration_ms: self.duration_ms,
        }
    }
}

/// A probe that has seen nothing yet.
pub open spec fn probe_start() -> StatProbeView {
    StatProbeView { duration_ms: None, streams: Seq::empty() }
}

/// The probe after one more event. A duration replaces the one known, a
/// stream is added behind those known, and a log line is judged with the
/// complaint about a missing output file let through: `Err` where it ends the
/// probe. Any other event changes nothing.
pub open spec fn probe_step(state: StatProbeView, event: StreamEventView) -> Result<
    StatProbeView,
    VideoStatErrView,
> {
    match event {
        StreamEventView::DurationParsed(d) => Ok(
            StatProbeView { duration_ms: Some(d), streams: state.streams },
        ),
        StreamEventView::StreamDescriptorParsed(s) => Ok(
            StatProbeView { duration_ms: state.duration_ms, streams: state.streams.push(s) },
        ),
        StreamEventView::LogLine(level, message) => match log_verdict(level, message, true) {
            Ok(_) => Ok(state),
            Err(body) => Err(VideoStatErrView::FfmpegError(body)),
        },
        _ => Ok(state),
    }
}

/// The probe after a run of events, or the error of the first event that
/// ended it.
pub open spec fn probe_run(state: StatProbeView, events: Seq<StreamEventView>) -> Result<
    StatProbeView,
    VideoStatErrView,
>
    decreases events.len(),
{
    if events.len() == 0 {
        Ok(state)
    } else {
        match probe_run(state, events.drop_last()) {
            Ok(before) => probe_step(before, events.last()),
            Err(e) => Err(e),
        }
    }
}

/// The video streams among `streams`, in their order.
pub open spec fn video_streams(streams: Seq<StreamDescriptorView>) -> Seq<VideoStreamView>
    decreases streams.len(),
{
    if streams.len() == 0 {
        Seq::empty()
    } else {
        let before = video_streams(streams.drop_last());
        match streams.last() {
            StreamDescriptorView::Video(v) => before.push(v),
            _ => before,
        }
    }
}

/// The audio streams among `streams`, in their order.
pub open spec fn audio_streams(streams: Seq<StreamDescriptorView>) -> Seq<AudioStreamView>
    decreases streams.len(),
{
    if streams.len() == 0 {
        Seq::empty()
    } else {
        let before = audio_streams(streams.drop_last());
        match streams.last() {
            StreamDescriptorView::Audio(a) => before.push(a),
            _ => before,
        }
    }
}

/// What a probe amounts to once the encoder has ended: the source needs
/// exactly one video stream, and a duration.
pub open spec fn probe_verdict(state: StatProbeView) -> Result<ProbedSourceView, VideoStatErrView> {
    let videos = video_streams(state.streams);
    if videos.len() == 0 {
        Err(VideoStatErrView::NoVideoStreamFound)
    } else if videos.len() > 1 {
        Err(VideoStatErrView::MultipleVideoStreamFound)
    } else {
        match state.duration_ms {
            None => Err(VideoStatErrView::NoDurationFound),
            Some(d) => Ok(
                ProbedSourceView {
                    video_stream: videos[0],
                    audio_streams: audio_streams(state.streams),
                    duration_ms: d,
                },
            ),
        }
    }
}

/// The probed source with the path and the size of its file, or the reason
/// why the size could not be read.
pub open spec fn with_file_size(
    source: ProbedSourceView,
    path: Seq<char>,
    file_size: Result<u64, Seq<char>>,
) -> Result<VideoStatView, VideoStatErrView> {
    match file_size {
        Ok(size) => Ok(
            VideoStatView {
                path,
                video_stream: source.video_stream,
                audio_streams: source.audio_streams,
                duration_ms: source.duration_ms,
                file_size: size,
            },
        ),
        Err(reason) => Err(VideoStatErrView::FileError(reason)),
    }
}

/// The whole probe: the events of the encoder in the order in which it gave
/// them, then the verdict on what they told, then the size of the file.
pub open spec fn stat_outcome(
    path: Seq<char>,
    events: Seq<StreamEventView>,
    file_size: Result<u64, Seq<char>>,
) -> Result<VideoStatView, VideoStatErrView> {
    match probe_run(probe_start(), events) {
        Err(e) => Err(e),
        Ok(state) => match probe_verdict(state) {
            Err(e) => Err(e),
            Ok(source) => with_file_size(source, path, file_size),
        },
    }
}

impl StatProbe {
    /// A probe that has seen nothing yet.
    pub fn new() -> (r: Self)
        ensures
            r@ == probe_start(),
    {
        let r = StatProbe { duration_ms: None, streams: Vec::new() };
        assert(r@.streams =~= Seq::empty());
        r
    }

    /// Takes in one event of the encoder. On `Err` the probe has ended and
    /// is left as it was.
    pub fn on_event(&mut self, event: StreamEvent) -> (r: Result<(), VideoStatErr>)
        ensures
            match r {
                Ok(()) => probe_step(old(self)@, event@) == Ok::<StatProbeView, VideoStatErrView>(
                    final(self)@,
                ),
                Err(e) => probe_step(old(self)@, event@) == Err::<StatProbeView, VideoStatErrView>(
                    e@,
                ) && final(self)@ == old(self)@,
            },
    {
        match event {
            StreamEvent::DurationParsed(d) => {
                self.duration_ms = Some(d);
                Ok(())
            },
            StreamEvent::StreamDescriptorParsed(s) => {
                self.streams.push(s);
                assert(self@.streams =~= old(self)@.streams.push(s@));
                Ok(())
            },
            StreamEvent::LogLine(level, message) => {
                match handle_ffmpeg_event_log(level, message, true) {
                    Ok(()) => Ok(()),
                    Err(body) => Err(VideoStatErr::FfmpegError(body)),
                }
            },
            _ => Ok(()),
        }
    }

    /// The verdict on what the encoder told, once it has ended.
    pub fn finish(self) -> (r: Result<ProbedSource, VideoStatErr>)
        ensures
            match r {
                Ok(source) => probe_verdict(self@) == Ok::<ProbedSourceView, VideoStatErrView>(
                    source@,
                ),
                Err(e) => probe_verdict(self@) == Err::<ProbedSourceView, VideoStatErrView>(e@),
            },
    {
        let ghost all = self@.streams;
        let mut videos: Vec<VideoStream> = Vec::new();
        let mut audios: Vec<AudioStream> = Vec::new();
        let mut i: usize = 0;
        while i < self.streams.len()
            invariant
                i <= self.streams.len(),
                all == self@.streams,
                videos@.map_values(|v: VideoStream| v@) == video_streams(all.take(i as int)),
                audios@.map_values(|a: AudioStream| a@) == audio_streams(all.take(i as int)),
            decreases self.streams.len() - i,
        {
            proof {
                assert(all.take(i + 1).drop_last() =~= all.take(i as int));
                assert(all.take(i + 1).last() == self.streams@[i as int]@);
            }
            match &self.streams[i] {
                StreamDescriptor::Video(v) => {
                    videos.push(v.clone());
                    assert(videos@.map_values(|v: VideoStream| v@) =~= video_streams(
                        all.take(i + 1),
                    ));
                },
                StreamDescriptor::Audio(a) => {
                    audios.push(a.clone());
                    assert(audios@.map_values(|a: AudioStream| a@) =~= audio_streams(
                        all.take(i + 1),
                    ));
                },
                _ => {},
            }
            i += 1;
        }
        assert(all.take(i as int) =~= all);
        if videos.len() == 0 {
            return Err(VideoStatErr::NoVideoStreamFound);
        }
        if videos.len() > 1 {
            return Err(VideoStatErr::MultipleVideoStreamFound);
        }
        let video_stream = videos.remove(0);
        match self.duration_ms {
            None => Err(VideoStatErr::NoDurationFound),
            Some(duration_ms) => Ok(
                ProbedSource { video_stream, audio_streams: audios, duration_ms },
            ),
        }
    }
}

impl ProbedSource {
    /// Completes the probe with the path of the source and the size of its
    /// file, or with the reason why the size could not be read.
    pub fn into_stat(self, path: String, file_size: Result<u64, String>) -> (r: Result<
        VideoStat,
        VideoStatErr,
    >)
        ensures
            match r {
                Ok(stat) => with_file_size(self@, path@, view_file_size(file_size)) == Ok::<
                    VideoStatView,
                    VideoStatErrView,
                >(stat@),
                Err(e) => with_file_size(self@, path@, view_file_size(file_size)) == Err::<
                    VideoStatView,
                    VideoStatErrView,
                >(e@),
            },
    {
        match file_size {
            Ok(size) => Ok(
                VideoStat {
                    path,
                    video_stream: self.video_stream,
                    audio_streams: self.audio_streams,
                    duration_ms: self.duration_ms,
                    file_size: size,
                },
            ),
            Err(reason) => Err(VideoStatErr::FileError(reason)),
        }
    }
}

/// The mathematical value of the answer to a query for a file's size.
pub open spec fn view_file_size(file_size: Result<u64, String>) -> Result<u64, Seq<char>> {
    match file_size {
        Ok(size) => Ok(size),
        Err(reason) => Err(reason@),
    }
}

/// The mathematical value of a run of events.
pub open spec fn view_events(events: Seq<StreamEvent>) -> Seq<StreamEventView> {
    events.map_values(|e: StreamEvent| e@)
}

/// Probes a source from the events that the encoder gave for it, in their
/// order, and from the answer to the query for the size of its file. The
/// first log line that ends the probe decides; then the number of video
/// streams, which must be one; then the duration, which must be known; then
/// the size of the file.
pub fn stat(input_path: String, events: &Vec<StreamEvent>, file_size: Result<u64, String>) -> (r:
    Result<VideoStat, VideoStatErr>)
    ensures
        match r {
            Ok(stat) => stat_outcome(input_path@, view_events(events@), view_file_size(file_size))
                == Ok::<VideoStatView, VideoStatErrView>(stat@),
            Err(e) => stat_outcome(input_path@, view_events(events@), view_file_size(file_size))
                == Err::<VideoStatView, VideoStatErrView>(e@),
        },
{
    let ghost all = view_events(events@);
    let mut probe = StatProbe::new();
    let mut i: usize = 0;
    while i < events.len()
        invariant
            i <= events.len(),
            all == view_events(events@),
            probe_run(probe_start(), all.take(i as int)) == Ok::<StatProbeView, VideoStatErrView>(
                probe@,
            ),
        decreases events.len() - i,
    {
        proof {
            assert(all.take(i + 1).drop_last() =~= all.take(i as int));
            assert(all.take(i + 1).last() == events@[i as int]@);
        }
        match probe.on_event(events[i].clone()) {
            Ok(()) => {},
            Err(e) => {
                proof {
                    lemma_probe_run_stays_failed(probe_start(), all, i + 1);
                }
                return Err(e);
            },
        }
        i += 1;
    }
    assert(all.take(i as int) =~= all);
    match probe.finish() {
        Ok(source) => source.into_stat(input_path, file_size),
        Err(e) => Err(e),
    }
}

/// A probe that an event has ended stays ended: later events do not change
/// its error.
pub proof fn lemma_probe_run_stays_failed(
    state: StatProbeView,
    events: Seq<StreamEventView>,
    n: int,
)
    requires
        0 <= n <= events.len(),
        probe_run(state, events.take(n)) is Err,
    ensures
        probe_run(state, events) == probe_run(state, events.take(n)),
    decreases events.len(),
{
    if n < events.len() {
        assert(events.drop_last().take(n) =~= events.take(n));
        lemma_probe_run_stays_failed(state, events.drop_last(), n);
    } else {
        assert(events.take(n) =~= events);
    }
}

} // verus!
