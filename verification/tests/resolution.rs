use video_sweep::decimal::decimal_string;
use video_sweep::resolution::{ToStrError, VideoRes};
use video_sweep::stream::VideoStream;

fn full_hd() -> VideoStream {
    VideoStream { pix_fmt: "yuv420p".to_string(), width: 1920, height: 1080, fps_milli: 30_000 }
}

fn source(width: u32, height: u32) -> VideoStream {
    VideoStream { pix_fmt: "yuv420p".to_string(), width, height, fps_milli: 30_000 }
}

#[test]
fn test_from_wh_dynamic() {
    let video_stream = VideoStream {
        width: 1920,
        height: 1080,
        fps_milli: 30_000,
        pix_fmt: "yuv420p".to_string(),
    };

    assert_eq!(
        VideoRes::from_wh_dynamic(None, Some(720), video_stream.clone()).unwrap().to_wh(),
        VideoRes::R720p.to_wh()
    );
    assert_eq!(
        VideoRes::from_wh_dynamic(Some(1280), None, video_stream.clone()).unwrap().to_wh(),
        VideoRes::R720p.to_wh()
    );
    assert_eq!(
        VideoRes::from_wh_dynamic(Some(1280), Some(720), video_stream.clone()).unwrap().to_wh(),
        VideoRes::R720p.to_wh()
    );
}

#[test]
fn dynamic_size_needs_one_axis() {
    assert_eq!(
        VideoRes::from_wh_dynamic(None, None, full_hd()),
        Err(ToStrError::BothAreDynamicValue)
    );
}

#[test]
fn dynamic_size_names_the_standard_sizes() {
    assert_eq!(VideoRes::from_wh_dynamic(None, Some(720), full_hd()), Ok(VideoRes::R720p));
    assert_eq!(VideoRes::from_wh_dynamic(Some(3840), None, full_hd()), Ok(VideoRes::R2160p));
    assert_eq!(VideoRes::from_wh_dynamic(Some(100), Some(50), full_hd()), Ok(VideoRes::Other(100, 50)));
}

#[test]
fn derived_axis_rounds_to_the_nearest_with_halves_up() {
    // 3 * 1 / 2 = 1.5
    assert_eq!(VideoRes::from_wh_dynamic(None, Some(3), source(1, 2)), Ok(VideoRes::Other(2, 3)));
    // 240 * 16 / 9 = 426.67
    assert_eq!(VideoRes::from_wh_dynamic(None, Some(240), full_hd()), Ok(VideoRes::Other(427, 240)));
    // 480 * 16 / 9 = 853.33
    assert_eq!(VideoRes::from_wh_dynamic(None, Some(480), full_hd()), Ok(VideoRes::Other(853, 480)));
    // 854 * 9 / 16 = 480.375
    assert_eq!(VideoRes::from_wh_dynamic(Some(854), None, full_hd()), Ok(VideoRes::R480p));
}

#[test]
fn derived_axis_of_nothing_is_zero() {
    assert_eq!(VideoRes::from_wh_dynamic(None, Some(0), full_hd()), Ok(VideoRes::Other(0, 0)));
    assert_eq!(VideoRes::from_wh_dynamic(None, Some(720), source(0, 1080)), Ok(VideoRes::Other(0, 720)));
    assert_eq!(VideoRes::from_wh_dynamic(None, Some(720), source(0, 0)), Ok(VideoRes::Other(0, 720)));
    assert_eq!(
        VideoRes::from_wh_dynamic(None, Some(-1), full_hd()),
        Ok(VideoRes::Other(0, 4_294_967_295))
    );
}

#[test]
fn derived_axis_stays_within_range() {
    assert_eq!(
        VideoRes::from_wh_dynamic(None, Some(720), source(1920, 0)),
        Ok(VideoRes::Other(4_294_967_295, 720))
    );
    assert_eq!(
        VideoRes::from_wh_dynamic(Some(2_147_483_647), None, source(1, 4_294_967_295)),
        Ok(VideoRes::Other(2_147_483_647, 4_294_967_295))
    );
}

#[test]
fn given_axis_of_a_negative_number_wraps() {
    assert_eq!(
        VideoRes::from_wh_dynamic(Some(-2), Some(-1), full_hd()),
        Ok(VideoRes::Other(4_294_967_294, 4_294_967_295))
    );
}

#[test]
fn standard_sizes_in_order() {
    assert_eq!(
        VideoRes::list169(),
        vec![
            VideoRes::R240p,
            VideoRes::R360p,
            VideoRes::R480p,
            VideoRes::R720p,
            VideoRes::R1080p,
            VideoRes::R1440p,
            VideoRes::R2160p,
            VideoRes::R4320p,
        ]
    );
}

#[test]
fn sizes_in_pixels() {
    assert_eq!(VideoRes::R240p.to_wh(), (426, 240));
    assert_eq!(VideoRes::R360p.to_wh(), (640, 360));
    assert_eq!(VideoRes::R480p.to_wh(), (854, 480));
    assert_eq!(VideoRes::R720p.to_wh(), (1280, 720));
    assert_eq!(VideoRes::R1080p.to_wh(), (1920, 1080));
    assert_eq!(VideoRes::R1440p.to_wh(), (2560, 1440));
    assert_eq!(VideoRes::R2160p.to_wh(), (3840, 2160));
    assert_eq!(VideoRes::R4320p.to_wh(), (7680, 4320));
    assert_eq!(VideoRes::Other(5, 7).to_wh(), (5, 7));
}

#[test]
fn names_of_sizes() {
    assert_eq!(VideoRes::R240p.to_name(), "240p (SD)");
    assert_eq!(VideoRes::R360p.to_name(), "360p (SD)");
    assert_eq!(VideoRes::R480p.to_name(), "480p (SD)");
    assert_eq!(VideoRes::R720p.to_name(), "720p (HD)");
    assert_eq!(VideoRes::R1080p.to_name(), "1080p (FHD)");
    assert_eq!(VideoRes::R1440p.to_name(), "1440p (QHD)");
    assert_eq!(VideoRes::R2160p.to_name(), "2160p (4K)");
    assert_eq!(VideoRes::R4320p.to_name(), "4320p (8K)");
    assert_eq!(VideoRes::Other(1, 1).to_name(), "その他");
}

#[test]
fn tags_of_sizes() {
    assert_eq!(VideoRes::R240p.to_tag(), "R240p");
    assert_eq!(VideoRes::R1080p.to_tag(), "R1080p");
    assert_eq!(VideoRes::R4320p.to_tag(), "R4320p");
    assert_eq!(VideoRes::Other(100, 200).to_tag(), "Other(100, 200)");
    assert_eq!(VideoRes::Other(100, 200).to_tag(), format!("{:?}", VideoRes::Other(100, 200)));
    assert_eq!(VideoRes::R720p.to_tag(), format!("{:?}", VideoRes::R720p));
}

#[test]
fn size_in_file_name_and_option() {
    assert_eq!(VideoRes::R720p.to_file_name(), "1280x720");
    assert_eq!(VideoRes::Other(0, 4_294_967_295).to_file_name(), "0x4294967295");
    assert_eq!(VideoRes::R720p.to_args(), "-s 1280x720");
    assert_eq!(VideoRes::Other(10, 9).to_args(), "-s 10x9");
}

#[test]
fn from_wh_recognises_the_standard_sizes() {
    for res in VideoRes::list169() {
        let (w, h) = res.to_wh();
        assert_eq!(VideoRes::from_wh(w, h), res);
    }
    assert_eq!(VideoRes::from_wh(1280, 721), VideoRes::Other(1280, 721));
    assert_eq!(VideoRes::from_wh(1920, 720), VideoRes::Other(1920, 720));
    assert_eq!(VideoRes::from_wh(0, 0), VideoRes::Other(0, 0));
}

#[test]
fn from_wh_keeps_width_and_height() {
    let pairs = [(426, 240), (1, 2), (7680, 4320), (4_294_967_295, 0)];
    for (w, h) in pairs {
        assert_eq!(VideoRes::from_wh(w, h).to_wh(), (w, h));
    }
}

#[test]
fn message_of_the_size_error() {
    assert_eq!(ToStrError::BothAreDynamicValue.message(), "幅と高さの両方が動的値です.");
}

#[test]
fn decimal_numerals() {
    assert_eq!(decimal_string(0), "0");
    assert_eq!(decimal_string(7), "7");
    assert_eq!(decimal_string(10), "10");
    assert_eq!(decimal_string(1905), "1905");
    assert_eq!(decimal_string(4_294_967_295), "4294967295");
    assert_eq!(decimal_string(u64::MAX), "18446744073709551615");
    for n in [0u64, 9, 99, 100, 12345, 1 << 40] {
        assert_eq!(decimal_string(n), n.to_string());
    }
}
