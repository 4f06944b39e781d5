use video_sweep::stat::{stat, ProbedSource, StatProbe, VideoStat, VideoStatErr};
use video_sweep::stream::{AudioStream, LogLevel, StreamDescriptor, StreamEvent, VideoStream};

fn video(width: u32, height: u32) -> VideoStream {
    VideoStream { pix_fmt: "yuv420p".to_string(), width, height, fps_milli: 30_000 }
}

fn audio(channels: &str) -> AudioStream {
    AudioStream { sample_rate: 48_000, channels: channels.to_string() }
}

fn described(d: StreamDescriptor) -> StreamEvent {
    StreamEvent::StreamDescriptorParsed(d)
}

fn log(level: LogLevel, text: &str) -> StreamEvent {
    StreamEvent::LogLine(level, text.to_string())
}

fn usual_events() -> Vec<StreamEvent> {
    vec![
        log(LogLevel::Info, "ffmpeg version 7"),
        StreamEvent::DurationParsed(10_500),
        described(StreamDescriptor::Video(video(1920, 1080))),
        described(StreamDescriptor::Audio(audio("stereo"))),
        described(StreamDescriptor::Subtitle),
        described(StreamDescriptor::Audio(audio("5.1"))),
        StreamEvent::Other,
        log(LogLevel::Fatal, "[fatal] At least one output file must be specified"),
    ]
}

#[test]
fn probe_gathers_the_source() {
    let r = stat("assets/2.mp4".to_string(), &usual_events(), Ok(123_456));
    assert_eq!(
        r,
        Ok(VideoStat {
            path: "assets/2.mp4".to_string(),
            video_stream: video(1920, 1080),
            audio_streams: vec![audio("stereo"), audio("5.1")],
            duration_ms: 10_500,
            file_size: 123_456,
        })
    );
}

#[test]
fn probe_keeps_the_last_duration() {
    let events = vec![
        StreamEvent::DurationParsed(1),
        described(StreamDescriptor::Video(video(4, 2))),
        StreamEvent::DurationParsed(2_000),
    ];
    let r = stat("a.mp4".to_string(), &events, Ok(0)).unwrap();
    assert_eq!(r.duration_ms, 2_000);
    assert!(r.audio_streams.is_empty());
}

#[test]
fn probe_without_video_stream_fails() {
    let events = vec![
        StreamEvent::DurationParsed(10_000),
        described(StreamDescriptor::Audio(audio("stereo"))),
        described(StreamDescriptor::Other),
    ];
    assert_eq!(stat("a.mp3".to_string(), &events, Ok(1)), Err(VideoStatErr::NoVideoStreamFound));
    assert_eq!(stat("a.mp3".to_string(), &vec![], Ok(1)), Err(VideoStatErr::NoVideoStreamFound));
}

#[test]
fn probe_with_two_video_streams_fails() {
    let events = vec![
        StreamEvent::DurationParsed(10_000),
        described(StreamDescriptor::Video(video(1920, 1080))),
        described(StreamDescriptor::Video(video(320, 240))),
    ];
    assert_eq!(
        stat("a.mkv".to_string(), &events, Ok(1)),
        Err(VideoStatErr::MultipleVideoStreamFound)
    );
}

#[test]
fn probe_without_duration_fails() {
    let events = vec![described(StreamDescriptor::Video(video(1920, 1080)))];
    assert_eq!(stat("a.mp4".to_string(), &events, Ok(1)), Err(VideoStatErr::NoDurationFound));
}

#[test]
fn probe_fails_with_the_first_failing_line() {
    let events = vec![
        StreamEvent::DurationParsed(10_000),
        log(LogLevel::Error, "[fatal] first"),
        described(StreamDescriptor::Video(video(1920, 1080))),
        log(LogLevel::Fatal, "[fatal] second"),
    ];
    assert_eq!(
        stat("a.mp4".to_string(), &events, Ok(1)),
        Err(VideoStatErr::FfmpegError("first".to_string()))
    );
}

#[test]
fn probe_reports_an_unreadable_file_last() {
    let unreadable = || Err("No such file or directory (os error 2)".to_string());
    assert_eq!(
        stat("a.mp4".to_string(), &usual_events(), unreadable()),
        Err(VideoStatErr::FileError("No such file or directory (os error 2)".to_string()))
    );
    assert_eq!(
        stat("a.mp4".to_string(), &vec![StreamEvent::DurationParsed(1)], unreadable()),
        Err(VideoStatErr::NoVideoStreamFound)
    );
    assert_eq!(
        stat(
            "a.mp4".to_string(),
            &vec![described(StreamDescriptor::Video(video(1, 1)))],
            unreadable()
        ),
        Err(VideoStatErr::NoDurationFound)
    );
}

#[test]
fn number_of_video_streams_is_checked_before_the_duration() {
    assert_eq!(stat("a.mp4".to_string(), &vec![], Ok(1)), Err(VideoStatErr::NoVideoStreamFound));
    let two = vec![
        described(StreamDescriptor::Video(video(1, 1))),
        described(StreamDescriptor::Video(video(2, 2))),
    ];
    assert_eq!(stat("a.mp4".to_string(), &two, Ok(1)), Err(VideoStatErr::MultipleVideoStreamFound));
}

#[test]
fn probe_lets_warnings_pass() {
    let mut events = usual_events();
    events.insert(0, log(LogLevel::Warning, "[fatal] only a warning"));
    assert!(stat("a.mp4".to_string(), &events, Ok(1)).is_ok());
}

#[test]
fn probe_event_by_event() {
    let mut probe = StatProbe::new();
    assert_eq!(probe, StatProbe { duration_ms: None, streams: vec![] });
    assert_eq!(probe.on_event(StreamEvent::DurationParsed(7_000)), Ok(()));
    assert_eq!(probe.on_event(described(StreamDescriptor::Audio(audio("mono")))), Ok(()));
    assert_eq!(probe.on_event(StreamEvent::ProgressTick(3)), Ok(()));
    assert_eq!(probe.on_event(described(StreamDescriptor::Video(video(640, 360)))), Ok(()));
    let before = StatProbe {
        duration_ms: Some(7_000),
        streams: vec![StreamDescriptor::Audio(audio("mono")), StreamDescriptor::Video(video(640, 360))],
    };
    assert_eq!(probe, before);
    assert_eq!(
        probe.on_event(log(LogLevel::Fatal, "[fatal] broken")),
        Err(VideoStatErr::FfmpegError("broken".to_string()))
    );
    assert_eq!(probe, before);
    let source = probe.finish().unwrap();
    assert_eq!(
        source,
        ProbedSource {
            video_stream: video(640, 360),
            audio_streams: vec![audio("mono")],
            duration_ms: 7_000
        }
    );
    let stat = source.into_stat("x.mp4".to_string(), Ok(9)).unwrap();
    assert_eq!(stat.path, "x.mp4");
    assert_eq!(stat.file_size, 9);
    assert_eq!(stat.video_stream, video(640, 360));
}

#[test]
fn messages_of_the_probe() {
    assert_eq!(VideoStatErr::NoVideoStreamFound.message(), "動画ストリームが見つかりません");
    assert_eq!(
        VideoStatErr::MultipleVideoStreamFound.message(),
        "動画ストリームが複数見つかりました"
    );
    assert_eq!(VideoStatErr::NoDurationFound.message(), "動画の長さが取得できません");
    assert_eq!(VideoStatErr::FfmpegError("boom".to_string()).message(), "ffmpegエラー: boom");
    assert_eq!(VideoStatErr::FileError("gone".to_string()).message(), "ファイルエラー: gone");
}
