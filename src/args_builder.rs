//! The argument list of one yt-dlp invocation.
use vstd::prelude::*;

use crate::config::{
    ARIA2C_ARGS, DEFAULT_FILENAME_PATTERN, DEFAULT_MERGE_FORMAT, FORMAT_QUALITY, FORMAT_SOCM,
    MAX_SLEEP_INTERVAL, MIN_SLEEP_INTERVAL, SLEEP_REQUESTS, SOCM_MERGE_FORMAT,
    SOCM_POSTPROCESSOR_ARGS, VP9_FORMAT_SORT,
};
use crate::text::{push_all, push_text, views};

verus! {

/// Options shared by every invocation of a run.
#[derive(Debug)]
pub struct YtDlpArgs {
    /// Where to write the download: a directory or a file path
    pub destination_path: Option<String>,
    /// Whether `destination_path` names an existing directory
    pub destination_is_dir: bool,
    /// Browser to load cookies from
    pub cookies_from: Option<String>,
    /// Re-encode for social media
    pub socm: bool,
    /// Sleep between requests, to stay under the server's rate limits
    pub rate_limit: bool,
}

impl Default for YtDlpArgs {
    fn default() -> (r: YtDlpArgs)
        ensures
            r.destination_path is None,
            !r.destination_is_dir,
            r.cookies_from is None,
            !r.socm,
            !r.rate_limit,
    {
        YtDlpArgs {
            destination_path: None,
            destination_is_dir: false,
            cookies_from: None,
            socm: false,
            rate_limit: false,
        }
    }
}

/// `name` placed inside the directory `dir`, as a Unix path.
pub open spec fn join_path(dir: Seq<char>, name: Seq<char>) -> Seq<char> {
    if dir.len() == 0 || dir.last() == '/' {
        dir + name
    } else {
        dir + seq!['/'] + name
    }
}

/// The output template that yt-dlp is given.
pub open spec fn output_template(args: YtDlpArgs) -> Seq<char> {
    match args.destination_path {
        Some(dest) => if args.destination_is_dir {
            join_path(dest@, DEFAULT_FILENAME_PATTERN@)
        } else {
            dest@
        },
        None => DEFAULT_FILENAME_PATTERN@,
    }
}

/// Arguments that every invocation starts with.
pub open spec fn common_args(template: Seq<char>) -> Seq<Seq<char>> {
    seq![
        "--remote-components"@,
        "ejs:github"@,
        "--prefer-free-formats"@,
        "--format-sort-force"@,
        "--no-mtime"@,
        "--output"@,
        template,
        "--external-downloader"@,
        "aria2c"@,
        "--external-downloader-args"@,
        ARIA2C_ARGS@,
    ]
}

/// Arguments that load cookies from a browser, if one is given.
pub open spec fn cookie_args(args: YtDlpArgs) -> Seq<Seq<char>> {
    match args.cookies_from {
        Some(browser) => seq!["--cookies-from-browser"@, browser@],
        None => seq![],
    }
}

/// Arguments that make yt-dlp sleep between requests, when throttled.
pub open spec fn rate_limit_args(args: YtDlpArgs) -> Seq<Seq<char>> {
    if args.rate_limit {
        seq![
            "--sleep-requests"@,
            SLEEP_REQUESTS@,
            "--min-sleep-interval"@,
            MIN_SLEEP_INTERVAL@,
            "--max-sleep-interval"@,
            MAX_SLEEP_INTERVAL@,
        ]
    } else {
        seq![]
    }
}

/// Arguments for a maximum-quality download.
pub open spec fn quality_args() -> Seq<Seq<char>> {
    seq![
        "--merge-output-format"@,
        DEFAULT_MERGE_FORMAT@,
        "--format"@,
        FORMAT_QUALITY@,
        "--format-sort"@,
        VP9_FORMAT_SORT@,
    ]
}

/// Arguments for a social media re-encode.
pub open spec fn socm_args() -> Seq<Seq<char>> {
    seq![
        "--merge-output-format"@,
        SOCM_MERGE_FORMAT@,
        "--format"@,
        FORMAT_SOCM@,
        "--format-sort"@,
        VP9_FORMAT_SORT@,
        "--postprocessor-args"@,
        SOCM_POSTPROCESSOR_ARGS@,
    ]
}

/// The full argument list for downloading `url`; the URL always comes last.
pub open spec fn ytdlp_args(url: Seq<char>, args: YtDlpArgs) -> Seq<Seq<char>> {
    common_args(output_template(args)) + cookie_args(args) + rate_limit_args(args) + (if args.socm {
        socm_args()
    } else {
        quality_args()
    }) + seq![url]
}

/// Joins `name` under the directory `dir`.
fn join_dir(dir: &String, name: &str) -> (r: String)
    ensures
        r@ == join_path(dir@, name@),
{
    let n = dir.as_str().unicode_len();
    if n == 0 {
        return dir.clone().concat(name);
    }
    let last = dir.as_str().get_char(n - 1);
    if last == '/' {
        dir.clone().concat(name)
    } else {
        proof { reveal_strlit("/"); }
        dir.clone().concat("/").concat(name)
    }
}

/// The output template that yt-dlp is given.
fn output_template_of(args: &YtDlpArgs) -> (r: String)
    ensures
        r@ == output_template(*args),
{
    match &args.destination_path {
        Some(dest) => if args.destination_is_dir {
            join_dir(dest, DEFAULT_FILENAME_PATTERN)
        } else {
            dest.clone()
        },
        None => String::from_str(DEFAULT_FILENAME_PATTERN),
    }
}

/// Builds the yt-dlp argument list for downloading `url`.
pub fn build_ytdlp_args(url: &str, args: &YtDlpArgs) -> (r: Vec<String>)
    ensures
        views(r@) == ytdlp_args(url@, *args),
{
    let template = output_template_of(args);
    let mut result: Vec<String> = Vec::new();
    push_all(
        &mut result,
        &["--remote-components", "ejs:github", "--prefer-free-formats", "--format-sort-force",
        "--no-mtime", "--output"],
    );
    let ghost before = result@;
    let ghost template_view = template@;
    result.push(template);
    assert(views(result@) =~= views(before).push(template_view));
    push_all(
        &mut result,
        &["--external-downloader", "aria2c", "--external-downloader-args", ARIA2C_ARGS],
    );
    assert(views(result@) =~= common_args(output_template(*args)));

    if let Some(browser) = &args.cookies_from {
        push_text(&mut result, "--cookies-from-browser");
        push_text(&mut result, browser.as_str());
    }
    assert(views(result@) =~= common_args(output_template(*args)) + cookie_args(*args));

    if args.rate_limit {
        push_all(
            &mut result,
            &["--sleep-requests", SLEEP_REQUESTS, "--min-sleep-interval", MIN_SLEEP_INTERVAL,
            "--max-sleep-interval", MAX_SLEEP_INTERVAL],
        );
    }
    assert(views(result@) =~= common_args(output_template(*args)) + cookie_args(*args)
        + rate_limit_args(*args));

    if args.socm {
        build_socm_args(&mut result);
    } else {
        build_quality_args(&mut result);
    }
    push_text(&mut result, url);
    assert(views(result@) =~= ytdlp_args(url@, *args));
    result
}

/// Appends the arguments of a maximum-quality download.
fn build_quality_args(result: &mut Vec<String>)
    ensures
        views(final(result)@) == views(old(result)@) + quality_args(),
{
    push_all(
        result,
        &["--merge-output-format", DEFAULT_MERGE_FORMAT, "--format", FORMAT_QUALITY,
        "--format-sort", VP9_FORMAT_SORT],
    );
}

/// Appends the arguments of a social media re-encode.
fn build_socm_args(result: &mut Vec<String>)
    ensures
        views(final(result)@) == views(old(result)@) + socm_args(),
{
    push_all(
        result,
        &["--merge-output-format", SOCM_MERGE_FORMAT, "--format", FORMAT_SOCM, "--format-sort",
        VP9_FORMAT_SORT, "--postprocessor-args", SOCM_POSTPROCESSOR_ARGS],
    );
}

} // verus!
