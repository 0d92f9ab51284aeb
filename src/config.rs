//! Fixed values that shape every yt-dlp invocation.
use vstd::prelude::*;

verus! {

/// Output file name pattern used when no destination file is given.
pub const DEFAULT_FILENAME_PATTERN: &'static str =
    "%(title)s [%(id)s][%(height)sp][%(fps)sfps][%(vcodec)s][%(acodec)s].%(ext)s";

/// Container that merged downloads are written to.
pub const DEFAULT_MERGE_FORMAT: &'static str = "mkv";

/// Format sort order that prefers VP9 and Opus.
pub const VP9_FORMAT_SORT: &'static str =
    "res,fps,vcodec:vp9.2,vcodec:vp9,vcodec:hev1,acodec:opus,acodec:aac";

/// Container for social media re-encodes.
pub const SOCM_MERGE_FORMAT: &'static str = "mp4";

/// Arguments handed to the aria2c external downloader.
pub const ARIA2C_ARGS: &'static str = "aria2c:-x 16 -s 32 -k 1M --disk-cache=128M --enable-color=false";

/// Format selector for maximum-quality downloads.
pub const FORMAT_QUALITY: &'static str = "bv*[height<=2160]+ba/bv*[height<=2160]";

/// Format selector for social media downloads.
pub const FORMAT_SOCM: &'static str = "bv*[height<=1080]+ba/bv*[height<=1080]";

/// Post-processing arguments for social media re-encodes.
pub const SOCM_POSTPROCESSOR_ARGS: &'static str =
    "ffmpeg:-c:v libx264 -preset slow -crf 18 -c:a aac -b:a 192k -movflags +faststart";

/// Batches with more items than this are throttled.
pub const RATE_LIMIT_THRESHOLD: usize = 10;

/// Seconds to sleep between requests of one item, when throttled.
pub const SLEEP_REQUESTS: &'static str = "1";

/// Least number of seconds to sleep before each download, when throttled.
pub const MIN_SLEEP_INTERVAL: &'static str = "2";

/// Most seconds to sleep before each download, when throttled.
pub const MAX_SLEEP_INTERVAL: &'static str = "6";

/// External programs that a download needs.
pub const REQUIRED_TOOLS: [&'static str; 3] = ["yt-dlp", "aria2c", "ffmpeg"];

} // verus!
