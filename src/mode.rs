//! Download modes and the encoding presets of social media platforms.
use vstd::prelude::*;

use crate::cli::SocialMediaTarget;
use crate::text::decimal;
use crate::text::decimal_text;

verus! {

/// Download mode: decides format selection, codec priority and post-processing.
#[derive(Clone, Copy, Debug, PartialEq, Eq, Structural)]
pub enum DownloadMode {
    /// Best video and audio, maximum quality (VP9 > AV1 > H.264)
    Default,
    /// Tuned for one social media platform
    SocialMedia(SocialMediaTarget),
    /// Audio only
    AudioOnly,
    /// Video only
    VideoOnly,
}

impl DownloadMode {
    /// The mode's display name.
    pub open spec fn spec_name(self) -> Seq<char> {
        match self {
            DownloadMode::Default => "Default (Max Quality)"@,
            DownloadMode::SocialMedia(target) => "Social Media ("@ + target.spec_name() + ")"@,
            DownloadMode::AudioOnly => "Audio Only"@,
            DownloadMode::VideoOnly => "Video Only"@,
        }
    }

    /// The mode's display name.
    pub fn to_string(&self) -> (r: String)
        ensures
            r@ == self.spec_name(),
    {
        match self {
            DownloadMode::Default => String::from_str("Default (Max Quality)"),
            DownloadMode::SocialMedia(target) => {
                let name = target.to_string();
                String::from_str("Social Media (").concat(name.as_str()).concat(")")
            },
            DownloadMode::AudioOnly => String::from_str("Audio Only"),
            DownloadMode::VideoOnly => String::from_str("Video Only"),
        }
    }
}

/// Encoding parameters tuned for one platform, balancing quality against its
/// file size and codec limits.
#[derive(Clone, Debug)]
pub struct SocialMediaPreset {
    /// Maximum file size in MB
    pub max_size_mb: u32,
    /// Maximum resolution height
    pub max_height: u32,
    /// FFmpeg video codec
    pub video_codec: &'static str,
    /// FFmpeg audio codec
    pub audio_codec: &'static str,
    /// Audio bitrate
    pub audio_bitrate: &'static str,
    /// CRF value for encoding
    pub crf: u8,
    /// FFmpeg preset
    pub preset: &'static str,
}

impl SocialMediaTarget {
    /// The encoding preset of this platform.
    pub open spec fn spec_preset(self) -> SocialMediaPreset {
        match self {
            SocialMediaTarget::WhatsApp => SocialMediaPreset {
                max_size_mb: 16,
                max_height: 1080,
                video_codec: "libx264",
                audio_codec: "aac",
                audio_bitrate: "128k",
                crf: 23,
                preset: "medium",
            },
            SocialMediaTarget::Discord => SocialMediaPreset {
                max_size_mb: 25,
                max_height: 1080,
                video_codec: "libx264",
                audio_codec: "aac",
                audio_bitrate: "160k",
                crf: 20,
                preset: "medium",
            },
            SocialMediaTarget::Instagram => SocialMediaPreset {
                max_size_mb: 15,
                max_height: 720,
                video_codec: "libx264",
                audio_codec: "aac",
                audio_bitrate: "128k",
                crf: 23,
                preset: "medium",
            },
            SocialMediaTarget::Messenger => SocialMediaPreset {
                max_size_mb: 25,
                max_height: 1080,
                video_codec: "libx264",
                audio_codec: "aac",
                audio_bitrate: "160k",
                crf: 20,
                preset: "medium",
            },
            SocialMediaTarget::Signal => SocialMediaPreset {
                max_size_mb: 100,
                max_height: 1080,
                video_codec: "libx264",
                audio_codec: "aac",
                audio_bitrate: "192k",
                crf: 18,
                preset: "slow",
            },
            SocialMediaTarget::Telegram => SocialMediaPreset {
                max_size_mb: 2000,
                max_height: 2160,
                video_codec: "libx264",
                audio_codec: "aac",
                audio_bitrate: "192k",
                crf: 18,
                preset: "slow",
            },
        }
    }

    /// The encoding preset of this platform.
    pub fn preset(&self) -> (r: SocialMediaPreset)
        ensures
            r == self.spec_preset(),
    {
        match self {
            SocialMediaTarget::WhatsApp => SocialMediaPreset {
                max_size_mb: 16,
                max_height: 1080,
                video_codec: "libx264",
                audio_codec: "aac",
                audio_bitrate: "128k",
                crf: 23,
                preset: "medium",
            },
            SocialMediaTarget::Discord => SocialMediaPreset {
                max_size_mb: 25,
                max_height: 1080,
                video_codec: "libx264",
                audio_codec: "aac",
                audio_bitrate: "160k",
                crf: 20,
                preset: "medium",
            },
            SocialMediaTarget::Instagram => SocialMediaPreset {
                max_size_mb: 15,
                max_height: 720,
                video_codec: "libx264",
                audio_codec: "aac",
                audio_bitrate: "128k",
                crf: 23,
                preset: "medium",
            },
            SocialMediaTarget::Messenger => SocialMediaPreset {
                max_size_mb: 25,
                max_height: 1080,
                video_codec: "libx264",
                audio_codec: "aac",
                audio_bitrate: "160k",
                crf: 20,
                preset: "medium",
            },
            SocialMediaTarget::Signal => SocialMediaPreset {
                max_size_mb: 100,
                max_height: 1080,
                video_codec: "libx264",
                audio_codec: "aac",
                audio_bitrate: "192k",
                crf: 18,
                preset: "slow",
            },
            SocialMediaTarget::Telegram => SocialMediaPreset {
                max_size_mb: 2000,
                max_height: 2160,
                video_codec: "libx264",
                audio_codec: "aac",
                audio_bitrate: "192k",
                crf: 18,
                preset: "slow",
            },
        }
    }

    /// yt-dlp format selector capped at the preset's height.
    pub open spec fn spec_format_selector(self) -> Seq<char> {
        let h = decimal(self.spec_preset().max_height as nat);
        "bv*[height<="@ + h + "]+ba/b[height<="@ + h + "]"@
    }

    /// yt-dlp format selector capped at the preset's height.
    pub fn format_selector(&self) -> (r: String)
        ensures
            r@ == self.spec_format_selector(),
    {
        let preset = self.preset();
        let h = decimal_text(preset.max_height as u64);
        String::from_str("bv*[height<=").concat(h.as_str()).concat("]+ba/b[height<=").concat(
            h.as_str(),
        ).concat("]")
    }

    /// yt-dlp format sort order for the preset's height.
    pub open spec fn spec_format_sort(self) -> Seq<char> {
        "res:"@ + decimal(self.spec_preset().max_height as nat) + ",vcodec:avc,acodec:aac,size"@
    }

    /// yt-dlp format sort order for the preset's height.
    pub fn format_sort(&self) -> (r: String)
        ensures
            r@ == self.spec_format_sort(),
    {
        let preset = self.preset();
        let h = decimal_text(preset.max_height as u64);
        String::from_str("res:").concat(h.as_str()).concat(",vcodec:avc,acodec:aac,size")
    }

    /// FFmpeg post-processing arguments of the preset.
    pub open spec fn spec_postprocessor_args(self) -> Seq<char> {
        let p = self.spec_preset();
        "ffmpeg:-c:v "@ + p.video_codec@ + " -preset "@ + p.preset@ + " -crf "@ + decimal(
            p.crf as nat,
        ) + " -c:a "@ + p.audio_codec@ + " -b:a "@ + p.audio_bitrate@ + " -movflags +faststart"@
    }

    /// FFmpeg post-processing arguments of the preset.
    pub fn postprocessor_args(&self) -> (r: String)
        ensures
            r@ == self.spec_postprocessor_args(),
    {
        let p = self.preset();
        let crf = decimal_text(p.crf as u64);
        String::from_str("ffmpeg:-c:v ").concat(p.video_codec).concat(" -preset ").concat(
            p.preset,
        ).concat(" -crf ").concat(crf.as_str()).concat(" -c:a ").concat(p.audio_codec).concat(
            " -b:a ",
        ).concat(p.audio_bitrate).concat(" -movflags +faststart")
    }
}

} // verus!
