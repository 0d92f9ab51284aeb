//! Reasons for failed downloads, read from yt-dlp's error output.
use vstd::prelude::*;

use crate::text::{contains_seq, contains_text, signed_decimal, signed_decimal_text};

verus! {

/// Known error texts of yt-dlp and the reason each stands for; the first
/// that occurs in the error output decides.
pub const FAILURE_PATTERNS: [(&'static str, &'static str); 10] = [
    ("429", "Rate limited by server - try again later"),
    ("Too Many Requests", "Rate limited by server - try again later"),
    ("HTTP Error 403", "Access denied by server (HTTP 403)"),
    ("HTTP Error 404", "Not found on server (HTTP 404)"),
    ("Private video", "Video is private"),
    ("Sign in to confirm", "Sign-in required - try --cookies-from"),
    ("Video unavailable", "Video is unavailable"),
    ("Unsupported URL", "URL is not supported by yt-dlp"),
    ("Requested format is not available", "Requested format is not available"),
    ("Unable to extract", "Could not extract media information"),
];

/// Start of the reason given when no known error text occurs and yt-dlp exited.
pub const EXIT_CODE_PREFIX: &'static str = "yt-dlp exited with code ";

/// Reason given when no known error text occurs and yt-dlp did not exit by itself.
pub const KILLED_BY_SIGNAL: &'static str = "yt-dlp was terminated by a signal";

/// The patterns and reasons of the table, as character sequences.
pub open spec fn pattern_table() -> Seq<(Seq<char>, Seq<char>)> {
    FAILURE_PATTERNS@.map_values(|p: (&str, &str)| (p.0@, p.1@))
}

/// The reason of the first entry of `table` whose pattern occurs in `stderr`.
pub open spec fn first_match(stderr: Seq<char>, table: Seq<(Seq<char>, Seq<char>)>) -> Option<
    Seq<char>,
>
    decreases table.len(),
{
    if table.len() == 0 {
        None
    } else if contains_seq(stderr, table[0].0) {
        Some(table[0].1)
    } else {
        first_match(stderr, table.drop_first())
    }
}

/// The reason derived from the exit code alone.
pub open spec fn exit_code_reason(exit_code: Option<i32>) -> Seq<char> {
    match exit_code {
        Some(code) => EXIT_CODE_PREFIX@ + signed_decimal(code as int),
        None => KILLED_BY_SIGNAL@,
    }
}

/// The human-readable reason for a failure with this error output and exit code.
pub open spec fn classify_reason(stderr: Seq<char>, exit_code: Option<i32>) -> Seq<char> {
    match first_match(stderr, pattern_table()) {
        Some(reason) => reason,
        None => exit_code_reason(exit_code),
    }
}

/// Maps yt-dlp's error output and exit code to a human-readable reason.
pub fn classify(stderr: &str, exit_code: Option<i32>) -> (r: String)
    ensures
        r@ == classify_reason(stderr@, exit_code),
{
    let table = FAILURE_PATTERNS;
    let mut i: usize = 0;
    assert(pattern_table().skip(0) =~= pattern_table());
    while i < table.len()
        invariant
            table@ == FAILURE_PATTERNS@,
            i <= table@.len(),
            first_match(stderr@, pattern_table()) == first_match(
                stderr@,
                pattern_table().skip(i as int),
            ),
        decreases table@.len() - i,
    {
        let (pattern, reason) = table[i];
        assert(pattern_table().skip(i as int)[0] == (pattern@, reason@));
        if contains_text(stderr, pattern) {
            return String::from_str(reason);
        }
        assert(pattern_table().skip(i as int).drop_first() =~= pattern_table().skip(i + 1));
        i = i + 1;
    }
    match exit_code {
        Some(code) => String::from_str(EXIT_CODE_PREFIX).concat(signed_decimal_text(code).as_str()),
        None => String::from_str(KILLED_BY_SIGNAL),
    }
}

} // verus!
