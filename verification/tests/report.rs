use video_sweep::config::{VideoConfig, VideoConfigUpScalingErr};
use video_sweep::outcome::{JobError, JobOutcome};
use video_sweep::report::{
    banner, failure_report_line, failure_status_line, report, source_size_line,
    source_size_line_of, status_line, success_line, Report,
};
use video_sweep::resolution::VideoRes;
use video_sweep::size::human_size;

fn config(res: VideoRes, has_audio: bool) -> VideoConfig {
    VideoConfig { res, fps: 30, crf: 23, has_audio }
}

#[test]
fn sizes_as_a_person_reads_them() {
    assert_eq!(human_size(0), "0 B");
    assert_eq!(human_size(999), "999 B");
    assert_eq!(human_size(1_000), "1 kB");
    assert_eq!(human_size(1_500), "1.50 kB");
    assert_eq!(human_size(1_000_000), "1 MB");
    assert_eq!(human_size(123_456_789), "123.46 MB");
    assert_eq!(human_size(u64::MAX), "18.45 EB");
}

#[test]
fn line_of_the_source_size() {
    assert_eq!(source_size_line(1_000_000), "元動画のサイズ: 1 MB");
    assert_eq!(source_size_line(1_500), "元動画のサイズ: 1.50 kB");
    assert_eq!(source_size_line_of("7 B"), "元動画のサイズ: 7 B");
}

#[test]
fn lines_of_the_end_of_a_job() {
    assert_eq!(status_line(&JobOutcome::Success(1_000_000)), "✓ エンコード完了: 1 MB");
    assert_eq!(status_line(&JobOutcome::Success(2_340)), "✓ エンコード完了: 2.34 kB");
    assert_eq!(success_line("2.34 kB"), "✓ エンコード完了: 2.34 kB");
    let failed =
        JobOutcome::Failure(config(VideoRes::R720p, true), JobError::Encoding("boom".to_string()));
    assert_eq!(status_line(&failed), "✗ エンコード失敗: boom");
    assert_eq!(
        failure_status_line(&JobError::Runtime("gone".to_string())),
        "✗ エンコード失敗: ジョブの実行に失敗しました: gone"
    );
}

#[test]
fn report_of_a_sweep_without_failure() {
    let outcomes = vec![JobOutcome::Success(1), JobOutcome::Success(2)];
    assert_eq!(
        report(&outcomes),
        Report {
            banner: "✓ すべて正常にエンコードしました！".to_string(),
            failures: vec![],
            failed: false
        }
    );
    assert_eq!(
        report(&vec![]),
        Report {
            banner: "✓ すべて正常にエンコードしました！".to_string(),
            failures: vec![],
            failed: false
        }
    );
}

#[test]
fn report_names_each_failure_in_the_order_of_the_jobs() {
    let outcomes = vec![
        JobOutcome::Failure(
            config(VideoRes::R1440p, true),
            JobError::Config(VideoConfigUpScalingErr::Resolution(VideoRes::R1440p, VideoRes::R1080p)),
        ),
        JobOutcome::Success(10),
        JobOutcome::Failure(config(VideoRes::Other(8, 6), false), JobError::Encoding("boom".to_string())),
        JobOutcome::Failure(config(VideoRes::R240p, true), JobError::OutputSize("gone".to_string())),
    ];
    let r = report(&outcomes);
    assert!(r.failed);
    assert_eq!(r.banner, "✗ 3件のエンコードに失敗しました");
    assert_eq!(
        r.failures,
        vec![
            "✗ エンコード失敗 - RES: R1440p, FPS: 30, CRF: 23, AUDIO: true: エンコード設定に問題があります: アップスケーリングエラー: 解像度が元動画より大きいです: 1440p (QHD) > 1080p (FHD)",
            "✗ エンコード失敗 - RES: Other(8, 6), FPS: 30, CRF: 23, AUDIO: false: boom",
            "✗ エンコード失敗 - RES: R240p, FPS: 30, CRF: 23, AUDIO: true: 出力動画のサイズの取得に失敗しました: gone",
        ]
    );
}

#[test]
fn headline_of_the_report() {
    assert_eq!(banner(0), "✓ すべて正常にエンコードしました！");
    assert_eq!(banner(1), "✗ 1件のエンコードに失敗しました");
    assert_eq!(banner(16), "✗ 16件のエンコードに失敗しました");
}

#[test]
fn line_of_a_failure_holds_every_field_of_the_configuration() {
    let c = VideoConfig { res: VideoRes::R360p, fps: 24, crf: 18, has_audio: false };
    assert_eq!(
        failure_report_line(&c, &JobError::Encoding("x".to_string())),
        "✗ エンコード失敗 - RES: R360p, FPS: 24, CRF: 18, AUDIO: false: x"
    );
    assert_eq!(report(&vec![JobOutcome::Success(1)]).failures.len(), 0);
}
