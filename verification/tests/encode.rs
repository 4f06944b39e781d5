use video_sweep::config::{VideoConfig, VideoConfigUpScalingErr};
use video_sweep::encode::{
    conclude, encoding_status, process, EncodeProgress, JobStep, VideoProcessParams,
};
use video_sweep::outcome::{JobError, JobOutcome};
use video_sweep::resolution::VideoRes;
use video_sweep::stat::VideoStat;
use video_sweep::stream::{AudioStream, LogLevel, StreamDescriptor, StreamEvent, VideoStream};

fn source(duration_ms: u64, fps_milli: u32, audio: bool) -> VideoStat {
    VideoStat {
        path: "assets/2.mp4".to_string(),
        video_stream: VideoStream {
            pix_fmt: "yuv420p".to_string(),
            width: 1920,
            height: 1080,
            fps_milli,
        },
        audio_streams: if audio {
            vec![AudioStream { sample_rate: 48_000, channels: "stereo".to_string() }]
        } else {
            vec![]
        },
        duration_ms,
        file_size: 5_000_000,
    }
}

fn params(res: VideoRes, has_audio: bool) -> VideoProcessParams {
    VideoProcessParams {
        output_path: "out/2.mp4".to_string(),
        config: VideoConfig { res, fps: 30, crf: 23, has_audio },
    }
}

fn log(level: LogLevel, text: &str) -> StreamEvent {
    StreamEvent::LogLine(level, text.to_string())
}

#[test]
fn ten_seconds_at_thirty_frames_are_three_hundred_frames() {
    let stat = source(10_000, 30_000, true);
    let mut progress = EncodeProgress::start(&stat, &params(VideoRes::R720p, true).config).unwrap();
    assert_eq!(progress.length(), 300);
    assert_eq!(progress.percent(), 0);
    assert_eq!(progress.on_event(StreamEvent::ProgressTick(150)), JobStep::Progress(300, 150));
    assert_eq!(progress.position, 150);
    assert_eq!(progress.percent(), 50);
}

#[test]
fn expected_frames_are_duration_times_frame_rate_in_whole_frames() {
    let at = |duration_ms, fps_milli| EncodeProgress { duration_ms, fps_milli, position: 0 };
    assert_eq!(at(10_000, 29_970).length(), 299);
    assert_eq!(at(10_900, 30_000).length(), 327);
    assert_eq!(at(10_999, 30_000).length(), 329);
    assert_eq!(at(999, 30_000).length(), 29);
    assert_eq!(at(33, 30_000).length(), 0);
    assert_eq!(at(34, 30_000).length(), 1);
    assert_eq!(at(1_000, 999).length(), 0);
    assert_eq!(at(1_500, 1_000).length(), 1);
    assert_eq!(at(3_000, 500).length(), 1);
    assert_eq!(at(0, 60_000).length(), 0);
    assert_eq!(at(60_000, 0).length(), 0);
    assert_eq!(at(u64::MAX, u32::MAX).length(), u64::MAX);
    assert_eq!(at(u64::MAX, 1_000).length(), u64::MAX / 1000);
    assert_eq!(at(u64::MAX, 1_000_000).length(), u64::MAX);
}

#[test]
fn fraction_of_a_second_counts_in_the_progress_of_a_job() {
    let stat = source(10_900, 30_000, true);
    let events = vec![StreamEvent::ProgressTick(327)];
    let end = process(&stat, &params(VideoRes::R720p, true), &events).unwrap();
    assert_eq!(end.length(), 327);
    assert_eq!(end.percent(), 100);
    let mut progress = EncodeProgress::start(&stat, &params(VideoRes::R720p, true).config).unwrap();
    assert_eq!(progress.on_event(StreamEvent::ProgressTick(300)), JobStep::Progress(327, 300));
    assert_eq!(progress.percent(), 91);
}

#[test]
fn per_cent_of_the_expected_frames() {
    let at = |position| EncodeProgress { duration_ms: 10_000, fps_milli: 30_000, position };
    assert_eq!(at(0).percent(), 0);
    assert_eq!(at(1).percent(), 0);
    assert_eq!(at(3).percent(), 1);
    assert_eq!(at(299).percent(), 99);
    assert_eq!(at(300).percent(), 100);
    assert_eq!(at(301).percent(), 100);
    assert_eq!(at(u64::MAX).percent(), 100);
    let nothing = EncodeProgress { duration_ms: 0, fps_milli: 30_000, position: 0 };
    assert_eq!(nothing.percent(), 100);
    let huge = EncodeProgress { duration_ms: u64::MAX, fps_milli: u32::MAX, position: u64::MAX - 1 };
    assert_eq!(huge.percent(), 99);
}

#[test]
fn job_is_not_begun_for_a_configuration_beyond_the_source() {
    let stat = source(10_000, 30_000, true);
    assert_eq!(
        EncodeProgress::start(&stat, &params(VideoRes::R1440p, true).config),
        Err(JobError::Config(VideoConfigUpScalingErr::Resolution(
            VideoRes::R1440p,
            VideoRes::R1080p
        )))
    );
    assert_eq!(
        EncodeProgress::start(&stat, &params(VideoRes::R720p, true).config),
        Ok(EncodeProgress { duration_ms: 10_000, fps_milli: 30_000, position: 0 })
    );
}

#[test]
fn audio_of_a_silent_source_fails_the_job_before_any_event() {
    let stat = source(10_000, 30_000, false);
    let p = params(VideoRes::R720p, true);
    assert_eq!(p.config.check_up_scaling(&stat), Err(VideoConfigUpScalingErr::HasAudio));
    let events = vec![StreamEvent::ProgressTick(10), log(LogLevel::Fatal, "[fatal] never read")];
    let run = process(&stat, &p, &events);
    assert_eq!(run, Err(JobError::Config(VideoConfigUpScalingErr::HasAudio)));
    assert_eq!(process(&stat, &p, &vec![]), Err(JobError::Config(VideoConfigUpScalingErr::HasAudio)));
    assert_eq!(
        conclude(p.config, run, true, Ok(1)),
        JobOutcome::Failure(p.config, JobError::Config(VideoConfigUpScalingErr::HasAudio))
    );
}

#[test]
fn events_move_the_progress() {
    let stat = source(10_000, 30_000, true);
    let events = vec![
        log(LogLevel::Info, "frame= 1"),
        StreamEvent::ProgressTick(10),
        StreamEvent::Other,
        log(LogLevel::Warning, "slow"),
        StreamEvent::ProgressTick(299),
    ];
    assert_eq!(
        process(&stat, &params(VideoRes::R720p, true), &events),
        Ok(EncodeProgress { duration_ms: 10_000, fps_milli: 30_000, position: 299 })
    );
    assert_eq!(
        process(&stat, &params(VideoRes::R720p, true), &vec![]),
        Ok(EncodeProgress { duration_ms: 10_000, fps_milli: 30_000, position: 0 })
    );
}

#[test]
fn duration_and_frame_rate_of_the_encoder_replace_those_of_the_probe() {
    let stat = source(10_000, 30_000, true);
    let mut progress = EncodeProgress::start(&stat, &params(VideoRes::R720p, true).config).unwrap();
    assert_eq!(progress.on_event(StreamEvent::DurationParsed(20_000)), JobStep::Quiet);
    assert_eq!(progress.length(), 600);
    let other = VideoStream { pix_fmt: "yuv420p".to_string(), width: 1, height: 1, fps_milli: 60_000 };
    assert_eq!(
        progress.on_event(StreamEvent::StreamDescriptorParsed(StreamDescriptor::Video(other))),
        JobStep::Quiet
    );
    assert_eq!(progress.length(), 1_200);
    let sound = AudioStream { sample_rate: 1, channels: "mono".to_string() };
    assert_eq!(
        progress.on_event(StreamEvent::StreamDescriptorParsed(StreamDescriptor::Audio(sound))),
        JobStep::Quiet
    );
    assert_eq!(progress.on_event(StreamEvent::ProgressTick(600)), JobStep::Progress(1_200, 600));
    assert_eq!(progress.percent(), 50);
}

#[test]
fn log_lines_of_a_running_job() {
    let stat = source(10_000, 30_000, true);
    let mut progress = EncodeProgress::start(&stat, &params(VideoRes::R720p, true).config).unwrap();
    let before = progress;
    assert_eq!(
        progress.on_event(log(LogLevel::Warning, "deprecated")),
        JobStep::Warning("警告: deprecated".to_string())
    );
    assert_eq!(progress.on_event(log(LogLevel::Info, "hello")), JobStep::Quiet);
    assert_eq!(progress.on_event(log(LogLevel::Unknown, "hello")), JobStep::Quiet);
    assert_eq!(
        progress.on_event(log(LogLevel::Error, "[fatal] disk full")),
        JobStep::Failed(JobError::Encoding("disk full".to_string()))
    );
    assert_eq!(
        progress.on_event(log(LogLevel::Fatal, "[fatal] At least one output file must be specified")),
        JobStep::Failed(JobError::Encoding("At least one output file must be specified".to_string()))
    );
    assert_eq!(progress, before);
}

#[test]
fn first_failing_line_ends_the_run() {
    let stat = source(10_000, 30_000, true);
    let events = vec![
        StreamEvent::ProgressTick(10),
        log(LogLevel::Fatal, "[fatal] first"),
        StreamEvent::ProgressTick(20),
        log(LogLevel::Error, "second"),
    ];
    assert_eq!(
        process(&stat, &params(VideoRes::R720p, true), &events),
        Err(JobError::Encoding("first".to_string()))
    );
}

#[test]
fn end_of_a_job() {
    let config = params(VideoRes::R720p, true).config;
    let done = EncodeProgress { duration_ms: 10_000, fps_milli: 30_000, position: 300 };
    assert_eq!(conclude(config, Ok(done), true, Ok(4_321)), JobOutcome::Success(4_321));
    assert_eq!(
        conclude(config, Ok(done), false, Ok(4_321)),
        JobOutcome::Failure(config, JobError::Encoding("ffmpegが異常終了しました".to_string()))
    );
    assert_eq!(
        conclude(config, Ok(done), true, Err("permission denied".to_string())),
        JobOutcome::Failure(config, JobError::OutputSize("permission denied".to_string()))
    );
    assert_eq!(
        conclude(config, Ok(done), false, Err("permission denied".to_string())),
        JobOutcome::Failure(config, JobError::Encoding("ffmpegが異常終了しました".to_string()))
    );
    assert_eq!(
        conclude(config, Err(JobError::Encoding("boom".to_string())), true, Ok(1)),
        JobOutcome::Failure(config, JobError::Encoding("boom".to_string()))
    );
}

#[test]
fn status_of_a_running_encoding() {
    assert_eq!(encoding_status(), "エンコード中...");
}

#[test]
fn messages_of_job_errors() {
    assert_eq!(
        JobError::Config(VideoConfigUpScalingErr::HasAudio).message(),
        "エンコード設定に問題があります: アップスケーリングエラー: 音声が元動画に含まれていません"
    );
    assert_eq!(JobError::Encoding("boom".to_string()).message(), "boom");
    assert_eq!(
        JobError::OutputSize("gone".to_string()).message(),
        "出力動画のサイズの取得に失敗しました: gone"
    );
    assert_eq!(
        JobError::Runtime("panicked".to_string()).message(),
        "ジョブの実行に失敗しました: panicked"
    );
}
