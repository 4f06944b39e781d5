use video_sweep::log::{handle_ffmpeg_event_log, warning_line};
use video_sweep::stream::LogLevel;

const NO_OUTPUT: &str = "At least one output file must be specified";

#[test]
fn fatal_line_fails_with_its_body() {
    assert_eq!(
        handle_ffmpeg_event_log(LogLevel::Fatal, "[fatal] out of memory".to_string(), false),
        Err("out of memory".to_string())
    );
    assert_eq!(
        handle_ffmpeg_event_log(LogLevel::Fatal, "[fatal] out of memory".to_string(), true),
        Err("out of memory".to_string())
    );
}

#[test]
fn error_line_without_tag_fails_with_all_of_it() {
    assert_eq!(
        handle_ffmpeg_event_log(LogLevel::Error, "[error] no such file".to_string(), false),
        Err("[error] no such file".to_string())
    );
    assert_eq!(
        handle_ffmpeg_event_log(LogLevel::Error, String::new(), true),
        Err(String::new())
    );
}

#[test]
fn body_follows_the_last_tag() {
    assert_eq!(
        handle_ffmpeg_event_log(LogLevel::Fatal, "a[fatal] b[fatal] c".to_string(), false),
        Err("c".to_string())
    );
    assert_eq!(
        handle_ffmpeg_event_log(LogLevel::Fatal, "[fatal] [fatal] x".to_string(), false),
        Err("x".to_string())
    );
    assert_eq!(
        handle_ffmpeg_event_log(LogLevel::Fatal, "x[fatal] ".to_string(), false),
        Err(String::new())
    );
    assert_eq!(
        handle_ffmpeg_event_log(LogLevel::Fatal, "[fatal]no space".to_string(), false),
        Err("[fatal]no space".to_string())
    );
    assert_eq!(
        handle_ffmpeg_event_log(LogLevel::Error, "入力[fatal] 出力がありません".to_string(), false),
        Err("出力がありません".to_string())
    );
}

#[test]
fn body_is_what_split_leaves_last() {
    let lines = [
        "",
        "[fatal] ",
        "plain",
        "[fatal] a",
        "a[fatal] b[fatal] c",
        "[fatal] [fatal] [fatal] ",
        "[fatal [fatal] ] x",
        "[[fatal] fatal] y",
    ];
    for line in lines {
        let expected = line.split("[fatal] ").last().unwrap().to_owned();
        assert_eq!(
            handle_ffmpeg_event_log(LogLevel::Fatal, line.to_string(), false),
            Err(expected)
        );
    }
}

#[test]
fn missing_output_is_let_through_only_on_demand() {
    let tagged = format!("[fatal] {}", NO_OUTPUT);
    assert_eq!(handle_ffmpeg_event_log(LogLevel::Fatal, tagged.clone(), true), Ok(()));
    assert_eq!(handle_ffmpeg_event_log(LogLevel::Error, NO_OUTPUT.to_string(), true), Ok(()));
    assert_eq!(
        handle_ffmpeg_event_log(LogLevel::Fatal, tagged, false),
        Err(NO_OUTPUT.to_string())
    );
    assert_eq!(
        handle_ffmpeg_event_log(LogLevel::Error, NO_OUTPUT.to_string(), false),
        Err(NO_OUTPUT.to_string())
    );
    assert_eq!(
        handle_ffmpeg_event_log(LogLevel::Fatal, format!("{}.", NO_OUTPUT), true),
        Err(format!("{}.", NO_OUTPUT))
    );
}

#[test]
fn other_severities_never_fail() {
    for level in [LogLevel::Warning, LogLevel::Info, LogLevel::Unknown] {
        for ignore in [false, true] {
            assert_eq!(
                handle_ffmpeg_event_log(level, "[fatal] looks bad".to_string(), ignore),
                Ok(())
            );
            assert_eq!(handle_ffmpeg_event_log(level, NO_OUTPUT.to_string(), ignore), Ok(()));
        }
    }
}

#[test]
fn only_a_warning_is_shown() {
    assert_eq!(
        warning_line(LogLevel::Warning, "deprecated pixel format"),
        Some("警告: deprecated pixel format".to_string())
    );
    assert_eq!(warning_line(LogLevel::Warning, ""), Some("警告: ".to_string()));
    for level in [LogLevel::Info, LogLevel::Error, LogLevel::Fatal, LogLevel::Unknown] {
        assert_eq!(warning_line(level, "deprecated pixel format"), None);
    }
}
