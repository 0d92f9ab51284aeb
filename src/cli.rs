//! Command-line options, as plain values, and the download mode they select.
use vstd::prelude::*;

use crate::error::YtrsError;
use crate::mode::DownloadMode;

verus! {

/// Social media platforms with a tuned encoding preset.
#[derive(Clone, Copy, Debug, PartialEq, Eq, Structural)]
pub enum SocialMediaTarget {
    /// WhatsApp: 16MB limit, H.264/AAC, 1080p
    WhatsApp,
    /// Discord: 25MB, broad codec support, 1080p
    Discord,
    /// Instagram: 15MB limit, H.264/AAC, 720p
    Instagram,
    /// Facebook Messenger: 25MB limit, H.264/AAC, 1080p
    Messenger,
    /// Signal: 100MB limit, H.264/AAC, 1080p
    Signal,
    /// Telegram: 2GB limit, H.264/AAC, 4K
    Telegram,
}

impl SocialMediaTarget {
    /// The platform's display name.
    pub open spec fn spec_name(self) -> Seq<char> {
        match self {
            SocialMediaTarget::WhatsApp => "WhatsApp"@,
            SocialMediaTarget::Discord => "Discord"@,
            SocialMediaTarget::Instagram => "Instagram"@,
            SocialMediaTarget::Messenger => "Messenger"@,
            SocialMediaTarget::Signal => "Signal"@,
            SocialMediaTarget::Telegram => "Telegram"@,
        }
    }

    /// The platform's display name.
    pub fn to_string(&self) -> (r: String)
        ensures
            r@ == self.spec_name(),
    {
        match self {
            SocialMediaTarget::WhatsApp => String::from_str("WhatsApp"),
            SocialMediaTarget::Discord => String::from_str("Discord"),
            SocialMediaTarget::Instagram => String::from_str("Instagram"),
            SocialMediaTarget::Messenger => String::from_str("Messenger"),
            SocialMediaTarget::Signal => String::from_str("Signal"),
            SocialMediaTarget::Telegram => String::from_str("Telegram"),
        }
    }
}

/// Message for asking for audio only and video only at once.
pub const AUDIO_VIDEO_CONFLICT: &'static str = "Cannot use --audio and --video together";

/// Message for asking for audio only and a social media preset at once.
pub const AUDIO_SOCM_CONFLICT: &'static str = "Cannot use --audio with --socm";

/// Message for asking for video only and a social media preset at once.
pub const VIDEO_SOCM_CONFLICT: &'static str = "Cannot use --video with --socm";

/// Options of one invocation of the downloader.
pub struct Cli {
    /// Download destination: a directory or a file path
    pub destination: Option<String>,
    /// Browser to load cookies from
    pub cookies_from: Option<String>,
    /// Social media platform to optimise for
    pub socm: Option<SocialMediaTarget>,
    /// Download audio only
    pub audio_only: bool,
    /// Download video only
    pub video_only: bool,
    /// Number of parallel downloads in batch mode
    pub parallel: usize,
    /// URLs to download
    pub urls: Vec<String>,
}

/// The mode that the flags select, or the message of the conflict among them.
pub open spec fn mode_choice(audio_only: bool, video_only: bool, socm: Option<SocialMediaTarget>) -> Result<
    DownloadMode,
    Seq<char>,
> {
    if audio_only && video_only {
        Err(AUDIO_VIDEO_CONFLICT@)
    } else if audio_only && socm is Some {
        Err(AUDIO_SOCM_CONFLICT@)
    } else if video_only && socm is Some {
        Err(VIDEO_SOCM_CONFLICT@)
    } else if audio_only {
        Ok(DownloadMode::AudioOnly)
    } else if video_only {
        Ok(DownloadMode::VideoOnly)
    } else {
        match socm {
            Some(target) => Ok(DownloadMode::SocialMedia(target)),
            None => Ok(DownloadMode::Default),
        }
    }
}

impl Cli {
    /// Determine the download mode from the flags.
    pub fn download_mode(&self) -> (r: Result<DownloadMode, YtrsError>)
        ensures
            match r {
                Ok(mode) => mode_choice(self.audio_only, self.video_only, self.socm) == Ok::<
                    DownloadMode,
                    Seq<char>,
                >(mode),
                Err(YtrsError::InvalidModeCombo(msg)) => mode_choice(
                    self.audio_only,
                    self.video_only,
                    self.socm,
                ) == Err::<DownloadMode, Seq<char>>(msg@),
                Err(_) => false,
            },
    {
        if self.audio_only && self.video_only {
            return Err(YtrsError::InvalidModeCombo(String::from_str(AUDIO_VIDEO_CONFLICT)));
        }
        if self.audio_only && self.socm.is_some() {
            return Err(YtrsError::InvalidModeCombo(String::from_str(AUDIO_SOCM_CONFLICT)));
        }
        if self.video_only && self.socm.is_some() {
            return Err(YtrsError::InvalidModeCombo(String::from_str(VIDEO_SOCM_CONFLICT)));
        }
        if self.audio_only {
            Ok(DownloadMode::AudioOnly)
        } else if self.video_only {
            Ok(DownloadMode::VideoOnly)
        } else {
            match self.socm {
                Some(target) => Ok(DownloadMode::SocialMedia(target)),
                None => Ok(DownloadMode::Default),
            }
        }
    }
}

} // verus!
