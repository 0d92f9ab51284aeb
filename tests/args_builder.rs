use ytrs::args_builder::{build_ytdlp_args, YtDlpArgs};
use ytrs::config::{
    ARIA2C_ARGS, DEFAULT_FILENAME_PATTERN, DEFAULT_MERGE_FORMAT, FORMAT_QUALITY, FORMAT_SOCM,
    MAX_SLEEP_INTERVAL, MIN_SLEEP_INTERVAL, SLEEP_REQUESTS, SOCM_MERGE_FORMAT,
    SOCM_POSTPROCESSOR_ARGS, VP9_FORMAT_SORT,
};

#[test]
fn test_build_ytdlp_args_vp9() {
    let args = YtDlpArgs::default();
    let result = build_ytdlp_args("https://example.com", &args);
    assert!(result.iter().any(|s| s == "--format-sort"));
    assert!(result.iter().any(|s| s == VP9_FORMAT_SORT));
    assert!(result.iter().any(|s| s == "https://example.com"));
}

#[test]
fn test_build_ytdlp_args_socm() {
    let args = YtDlpArgs {
        socm: true,
        ..Default::default()
    };
    let result = build_ytdlp_args("https://example.com", &args);
    assert!(result.iter().any(|s| s == "mp4"));
    assert!(result.iter().any(|s| s.contains("libx264")));
}

#[test]
fn test_build_ytdlp_args_with_destination() {
    let args = YtDlpArgs {
        destination_path: Some("/tmp".to_string()),
        ..Default::default()
    };
    let result = build_ytdlp_args("https://example.com", &args);
    assert!(result.iter().any(|s| s.contains("/tmp")));
}

#[test]
fn test_build_ytdlp_args_with_cookies() {
    let args = YtDlpArgs {
        cookies_from: Some("firefox".to_string()),
        ..Default::default()
    };
    let result = build_ytdlp_args("https://example.com", &args);
    assert!(result.iter().any(|s| s == "--cookies-from-browser"));
    assert!(result.iter().any(|s| s == "firefox"));
}

fn common(template: &str) -> Vec<String> {
    [
        "--remote-components",
        "ejs:github",
        "--prefer-free-formats",
        "--format-sort-force",
        "--no-mtime",
        "--output",
        template,
        "--external-downloader",
        "aria2c",
        "--external-downloader-args",
        ARIA2C_ARGS,
    ]
    .iter()
    .map(|s| s.to_string())
    .collect()
}

#[test]
fn default_args_are_exact() {
    let result = build_ytdlp_args("https://a.example/v", &YtDlpArgs::default());
    let mut expected = common(DEFAULT_FILENAME_PATTERN);
    for s in [
        "--merge-output-format",
        DEFAULT_MERGE_FORMAT,
        "--format",
        FORMAT_QUALITY,
        "--format-sort",
        VP9_FORMAT_SORT,
        "https://a.example/v",
    ] {
        expected.push(s.to_string());
    }
    assert_eq!(result, expected);
}

#[test]
fn socm_args_with_cookies_and_rate_limit_are_exact() {
    let args = YtDlpArgs {
        cookies_from: Some("chrome".to_string()),
        socm: true,
        rate_limit: true,
        ..Default::default()
    };
    let result = build_ytdlp_args("https://a.example/v", &args);
    let mut expected = common(DEFAULT_FILENAME_PATTERN);
    for s in [
        "--cookies-from-browser",
        "chrome",
        "--sleep-requests",
        SLEEP_REQUESTS,
        "--min-sleep-interval",
        MIN_SLEEP_INTERVAL,
        "--max-sleep-interval",
        MAX_SLEEP_INTERVAL,
        "--merge-output-format",
        SOCM_MERGE_FORMAT,
        "--format",
        FORMAT_SOCM,
        "--format-sort",
        VP9_FORMAT_SORT,
        "--postprocessor-args",
        SOCM_POSTPROCESSOR_ARGS,
        "https://a.example/v",
    ] {
        expected.push(s.to_string());
    }
    assert_eq!(result, expected);
}

#[test]
fn destination_directory_is_joined_with_pattern() {
    let args = YtDlpArgs {
        destination_path: Some("/downloads".to_string()),
        destination_is_dir: true,
        ..Default::default()
    };
    let result = build_ytdlp_args("https://a.example/v", &args);
    assert_eq!(result[6], format!("/downloads/{}", DEFAULT_FILENAME_PATTERN));

    let args = YtDlpArgs {
        destination_path: Some("/downloads/".to_string()),
        destination_is_dir: true,
        ..Default::default()
    };
    let result = build_ytdlp_args("https://a.example/v", &args);
    assert_eq!(result[6], format!("/downloads/{}", DEFAULT_FILENAME_PATTERN));
}

#[test]
fn destination_file_is_used_as_is() {
    let args = YtDlpArgs {
        destination_path: Some("/tmp/out.mkv".to_string()),
        ..Default::default()
    };
    let result = build_ytdlp_args("https://a.example/v", &args);
    assert_eq!(result[6], "/tmp/out.mkv");
    assert_eq!(result.last().unwrap(), "https://a.example/v");
}
