//! What the encoder reports about its input and its progress, as plain
//! values.

use vstd::prelude::*;

verus! {

/// Description of a video stream of the source. The frame rate is held in
/// thousandths of a frame per second, so that rates such as 29.97 keep their
/// fraction.
#[derive(Debug, PartialEq, Eq)]
pub struct VideoStream {
    pub pix_fmt: String,
    pub width: u32,
    pub height: u32,
    pub fps_milli: u32,
}

/// The mathematical value of a [`VideoStream`].
pub struct VideoStreamView {
    pub pix_fmt: Seq<char>,
    pub width: u32,
    pub height: u32,
    pub fps_milli: u32,
}

impl View for VideoStream {
    type V = VideoStreamView;

    open spec fn view(&self) -> VideoStreamView {
        VideoStreamView {
            pix_fmt: self.pix_fmt@,
            width: self.width,
            height: self.height,
            fps_milli: self.fps_milli,
        }
    }
}

impl Clone for VideoStream {
    fn clone(&self) -> (r: Self)
        ensures
            r == *self,
    {
        VideoStream {
            pix_fmt: self.pix_fmt.clone(),
            width: self.width,
            height: self.height,
            fps_milli: self.fps_milli,
        }
    }
}

impl VideoStream {
    /// The frame rate in whole frames per second, the fraction cut off.
    pub open spec fn spec_whole_fps(&self) -> u32 {
        self.fps_milli / 1000
    }

    /// The frame rate in whole frames per second, the fraction cut off.
    #[verifier::when_used_as_spec(spec_whole_fps)]
    pub fn whole_fps(&self) -> (r: u32)
        ensures
            r == self.spec_whole_fps(),
    {
        self.fps_milli / 1000
    }
}

/// Description of an audio stream of the source.
#[derive(Debug, PartialEq, Eq)]
pub struct AudioStream {
    pub sample_rate: u32,
    pub channels: String,
}

/// The mathematical value of an [`AudioStream`].
pub struct AudioStreamView {
    pub sample_rate: u32,
    pub channels: Seq<char>,
}

impl View for AudioStream {
    type V = AudioStreamView;

    open spec fn view(&self) -> AudioStreamView {
        AudioStreamView { sample_rate: self.sample_rate, channels: self.channels@ }
    }
}

impl Clone for AudioStream {
    fn clone(&self) -> (r: Self)
        ensures
            r == *self,
    {
        AudioStream { sample_rate: self.sample_rate, channels: self.channels.clone() }
    }
}

/// One stream of the source, by its type.
#[derive(Debug, PartialEq, Eq)]
pub enum StreamDescriptor {
    Audio(AudioStream),
    Video(VideoStream),
    Subtitle,
    Other,
}

/// The mathematical value of a [`StreamDescriptor`].
pub enum StreamDescriptorView {
    Audio(AudioStreamView),
    Video(VideoStreamView),
    Subtitle,
    Other,
}

impl View for StreamDescriptor {
    type V = StreamDescriptorView;

    open spec fn view(&self) -> StreamDescriptorView {
        match self {
            StreamDescriptor::Audio(a) => StreamDescriptorView::Audio(a@),
            StreamDescriptor::Video(v) => StreamDescriptorView::Video(v@),
            StreamDescriptor::Subtitle => StreamDescriptorView::Subtitle,
            StreamDescriptor::Other => StreamDescriptorView::Other,
        }
    }
}

impl Clone for StreamDescriptor {
    fn clone(&self) -> (r: Self)
        ensures
            r == *self,
    {
        match self {
            StreamDescriptor::Audio(a) => StreamDescriptor::Audio(a.clone()),
            StreamDescriptor::Video(v) => StreamDescriptor::Video(v.clone()),
            StreamDescriptor::Subtitle => StreamDescriptor::Subtitle,
            StreamDescriptor::Other => StreamDescriptor::Other,
        }
    }
}

/// The severity that the encoder gives a line of its log.
#[derive(Debug, Clone, Copy, PartialEq, Eq, Structural)]
pub enum LogLevel {
    Info,
    Warning,
    Error,
    Fatal,
    Unknown,
}

/// One event of the encoder's output stream.
#[derive(Debug, PartialEq, Eq)]
pub enum StreamEvent {
    /// The total duration of the source, in milliseconds.
    DurationParsed(u64),
    /// One stream of the source.
    StreamDescriptorParsed(StreamDescriptor),
    /// The number of the frame that the encoder has reached.
    ProgressTick(u32),
    /// A line of the log with its severity.
    LogLine(LogLevel, String),
    /// Anything else that the encoder reports.
    Other,
}

/// The mathematical value of a [`StreamEvent`].
pub enum StreamEventView {
    DurationParsed(u64),
    StreamDescriptorParsed(StreamDescriptorView),
    ProgressTick(u32),
    LogLine(LogLevel, Seq<char>),
    Other,
}

impl View for StreamEvent {
    type V = StreamEventView;

    open spec fn view(&self) -> StreamEventView {
        match self {
            StreamEvent::DurationParsed(d) => StreamEventView::DurationParsed(*d),
            StreamEvent::StreamDescriptorParsed(s) => StreamEventView::StreamDescriptorParsed(s@),
            StreamEvent::ProgressTick(f) => StreamEventView::ProgressTick(*f),
            StreamEvent::LogLine(l, m) => StreamEventView::LogLine(*l, m@),
            StreamEvent::Other => StreamEventView::Other,
        }
    }
}

impl Clone for StreamEvent {
    fn clone(&self) -> (r: Self)
        ensures
            r == *self,
    {
        match self {
            StreamEvent::DurationParsed(d) => StreamEvent::DurationParsed(*d),
            StreamEvent::StreamDescriptorParsed(s) => StreamEvent::StreamDescriptorParsed(
                s.clone(),
            ),
            StreamEvent::ProgressTick(f) => StreamEvent::ProgressTick(*f),
            StreamEvent::LogLine(l, m) => StreamEvent::LogLine(*l, m.clone()),
            StreamEvent::Other => StreamEvent::Other,
        }
    }
}

} // verus!
