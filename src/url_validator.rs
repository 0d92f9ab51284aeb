//! Validation and deduplication of the URLs given on the command line.
use vstd::prelude::*;

use crate::text::views;

verus! {

/// What `str::trim` leaves of a text.
pub uninterp spec fn trimmed(s: Seq<char>) -> Seq<char>;

/// The scheme of a text read as an absolute URL, `None` where it is no URL.
pub uninterp spec fn url_scheme(s: Seq<char>) -> Option<Seq<char>>;

/// Relies on `str::trim`: the text without leading and trailing whitespace,
/// which depends on the text alone.
#[verifier::external_body]
pub(crate) fn trim_text(s: &str) -> (r: String)
    ensures
        r@ == trimmed(s@),
{
    s.trim().to_string()
}

/// Relies on `url::Url::parse` and `url::Url::scheme`: the scheme of the parsed
/// URL, or `None` where parsing fails; both depend on the text alone.
#[verifier::external_body]
fn parse_scheme(s: &str) -> (r: Option<String>)
    ensures
        r is None <==> url_scheme(s@) is None,
        r matches Some(scheme) ==> url_scheme(s@) == Some(scheme@),
{
    url::Url::parse(s).ok().map(|u| u.scheme().to_string())
}

/// An already trimmed text is a usable URL: not empty, and an http or https URL.
pub open spec fn acceptable(clean: Seq<char>) -> bool {
    &&& clean.len() > 0
    &&& (url_scheme(clean) == Some("http"@) || url_scheme(clean) == Some("https"@))
}

/// A text is a usable URL once trimmed.
pub open spec fn valid_url(raw: Seq<char>) -> bool {
    acceptable(trimmed(raw))
}

/// Whether `raw`, once trimmed, is a non-empty http or https URL.
pub fn validate_url(raw_url: &str) -> (r: bool)
    ensures
        r == valid_url(raw_url@),
{
    let trimmed_url = trim_text(raw_url);
    if trimmed_url.as_str().unicode_len() == 0 {
        return false;
    }
    match parse_scheme(trimmed_url.as_str()) {
        Some(scheme) => {
            let http = String::from_str("http");
            let https = String::from_str("https");
            scheme == http || scheme == https
        },
        None => false,
    }
}

/// The URLs kept from `urls`: trimmed, valid, each once, in order of first appearance.
pub open spec fn sanitized(urls: Seq<Seq<char>>) -> Seq<Seq<char>>
    decreases urls.len(),
{
    if urls.len() == 0 {
        seq![]
    } else {
        let kept = sanitized(urls.drop_last());
        let clean = trimmed(urls.last());
        if clean.len() > 0 && valid_url(clean) && !kept.contains(clean) {
            kept.push(clean)
        } else {
            kept
        }
    }
}

/// The trimmed, non-empty entries of `urls` that are not valid URLs, in order.
pub open spec fn rejected(urls: Seq<Seq<char>>) -> Seq<Seq<char>>
    decreases urls.len(),
{
    if urls.len() == 0 {
        seq![]
    } else {
        let skipped = rejected(urls.drop_last());
        let clean = trimmed(urls.last());
        if clean.len() > 0 && !valid_url(clean) {
            skipped.push(clean)
        } else {
            skipped
        }
    }
}

/// Whether `s` is among `v`.
fn contains_string(v: &Vec<String>, s: &String) -> (r: bool)
    ensures
        r == views(v@).contains(s@),
{
    let mut i: usize = 0;
    while i < v.len()
        invariant
            i <= v@.len(),
            forall|k: int| 0 <= k < i ==> v@[k]@ != s@,
        decreases v@.len() - i,
    {
        if v[i] == *s {
            assert(views(v@)[i as int] == s@);
            return true;
        }
        i = i + 1;
    }
    false
}

/// Splits `urls` into the usable ones (trimmed and deduplicated) and the
/// non-empty ones that were skipped as invalid.
pub fn partition_urls(urls: &Vec<String>) -> (r: (Vec<String>, Vec<String>))
    ensures
        views(r.0@) == sanitized(views(urls@)),
        views(r.1@) == rejected(views(urls@)),
{
    let mut kept: Vec<String> = Vec::new();
    let mut skipped: Vec<String> = Vec::new();
    let mut i: usize = 0;
    while i < urls.len()
        invariant
            i <= urls@.len(),
            views(kept@) == sanitized(views(urls@).take(i as int)),
            views(skipped@) == rejected(views(urls@).take(i as int)),
        decreases urls@.len() - i,
    {
        let ghost prefix = views(urls@).take(i + 1);
        assert(prefix.drop_last() =~= views(urls@).take(i as int));
        assert(prefix.last() == urls@[i as int]@);
        let clean = trim_text(urls[i].as_str());
        if clean.as_str().unicode_len() > 0 {
            if validate_url(clean.as_str()) {
                if !contains_string(&kept, &clean) {
                    let ghost before = kept@;
                    let ghost clean_view = clean@;
                    kept.push(clean);
                    assert(views(kept@) =~= views(before).push(clean_view));
                }
            } else {
                let ghost before = skipped@;
                let ghost clean_view = clean@;
                skipped.push(clean);
                assert(views(skipped@) =~= views(before).push(clean_view));
            }
        }
        i = i + 1;
    }
    assert(views(urls@).take(i as int) =~= views(urls@));
    (kept, skipped)
}

/// The usable URLs of `urls`: trimmed, valid, each once, in order of first appearance.
pub fn sanitize_and_deduplicate(urls: Vec<String>) -> (r: Vec<String>)
    ensures
        views(r@) == sanitized(views(urls@)),
{
    partition_urls(&urls).0
}

} // verus!
