use ytrs::cli::SocialMediaTarget;
use ytrs::mode::DownloadMode;

#[test]
fn test_download_mode_display() {
    assert_eq!(DownloadMode::Default.to_string(), "Default (Max Quality)");
    assert_eq!(DownloadMode::AudioOnly.to_string(), "Audio Only");
    assert_eq!(DownloadMode::VideoOnly.to_string(), "Video Only");
    assert_eq!(
        DownloadMode::SocialMedia(SocialMediaTarget::Discord).to_string(),
        "Social Media (Discord)"
    );
}

#[test]
fn test_whatsapp_preset() {
    let preset = SocialMediaTarget::WhatsApp.preset();
    assert_eq!(preset.max_size_mb, 16);
    assert_eq!(preset.max_height, 1080);
    assert_eq!(preset.crf, 23);
}

#[test]
fn test_signal_preset() {
    let preset = SocialMediaTarget::Signal.preset();
    assert_eq!(preset.max_size_mb, 100);
    assert_eq!(preset.crf, 18);
    assert_eq!(preset.preset, "slow");
}

#[test]
fn test_telegram_preset() {
    let preset = SocialMediaTarget::Telegram.preset();
    assert_eq!(preset.max_size_mb, 2000);
    assert_eq!(preset.max_height, 2160);
    assert_eq!(preset.crf, 18);
    assert_eq!(preset.preset, "slow");
}

#[test]
fn test_instagram_720p() {
    let preset = SocialMediaTarget::Instagram.preset();
    assert_eq!(preset.max_height, 720);
}

#[test]
fn test_format_selector() {
    let selector = SocialMediaTarget::Instagram.format_selector();
    assert_eq!(selector, "bv*[height<=720]+ba/b[height<=720]");
}

#[test]
fn test_format_sort() {
    let sort = SocialMediaTarget::Discord.format_sort();
    assert_eq!(sort, "res:1080,vcodec:avc,acodec:aac,size");
}

#[test]
fn test_postprocessor_args() {
    let args = SocialMediaTarget::WhatsApp.postprocessor_args();
    assert!(args.contains("-crf 23"));
    assert!(args.contains("-b:a 128k"));
    assert!(args.contains("+faststart"));
}

#[test]
fn postprocessor_args_exact() {
    assert_eq!(
        SocialMediaTarget::Signal.postprocessor_args(),
        "ffmpeg:-c:v libx264 -preset slow -crf 18 -c:a aac -b:a 192k -movflags +faststart"
    );
}

#[test]
fn telegram_selector_and_sort() {
    assert_eq!(
        SocialMediaTarget::Telegram.format_selector(),
        "bv*[height<=2160]+ba/b[height<=2160]"
    );
    assert_eq!(
        SocialMediaTarget::Telegram.format_sort(),
        "res:2160,vcodec:avc,acodec:aac,size"
    );
}

#[test]
fn discord_and_messenger_presets() {
    let d = SocialMediaTarget::Discord.preset();
    let m = SocialMediaTarget::Messenger.preset();
    assert_eq!((d.max_size_mb, d.max_height, d.crf), (25, 1080, 20));
    assert_eq!((m.max_size_mb, m.max_height, m.crf), (25, 1080, 20));
    assert_eq!(d.audio_bitrate, "160k");
    assert_eq!(m.video_codec, "libx264");
    assert_eq!(m.audio_codec, "aac");
    assert_eq!(m.preset, "medium");
}

#[test]
fn social_media_display_names_every_platform() {
    assert_eq!(
        DownloadMode::SocialMedia(SocialMediaTarget::Telegram).to_string(),
        "Social Media (Telegram)"
    );
}
