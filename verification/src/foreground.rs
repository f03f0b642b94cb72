//! Deciding whether the user's foreground context changed between two
//! observations: a different application is always a change; within a
//! browser, only a different domain counts, so that two tabs on the same
//! site stay one context.

use vstd::prelude::*;
use crate::strutil::str_eq;

verus! {

/// The host of a URL, as `url::Url::parse` normalizes it: a function of the
/// URL text alone; nothing when the text is not a valid URL or has no host.
pub uninterp spec fn url_host_of(url: Seq<char>) -> Option<Seq<char>>;

/// Extract the domain from a URL, or `None` when the text is not a valid
/// URL or has no host.
///
/// Relies on `url::Url::parse` and `Url::host_str`: both depend on the URL
/// text alone.
#[verifier::external_body]
fn extract_domain_from_url(url: &str) -> (r: Option<String>)
    ensures
        r is Some <==> url_host_of(url@) is Some,
        r matches Some(h) ==> url_host_of(url@) == Some(h@),
{
    match url::Url::parse(url) {
        Ok(parsed) => parsed.host_str().map(|h| h.to_owned()),
        Err(_) => None,
    }
}

/// The domain of a browser-tab URL for context comparison: URLs without a
/// recognizable host all count as one (empty) context.
pub open spec fn spec_domain_or_empty(url: Seq<char>) -> Seq<char> {
    match url_host_of(url) {
        Some(h) => h,
        None => Seq::<char>::empty(),
    }
}

/// The foreground context changed between two observations.
pub open spec fn spec_foreground_changed(
    cur_app: Seq<char>,
    last_app: Seq<char>,
    cur_tab: Seq<char>,
    last_tab: Seq<char>,
) -> bool {
    if cur_app != last_app {
        true
    } else if cur_app == "com.google.Chrome"@ || cur_app == "com.apple.Safari"@ {
        spec_domain_or_empty(cur_tab) != spec_domain_or_empty(last_tab)
    } else {
        false
    }
}

/// Has the frontmost application or browser tab changed?  A different
/// application is a change; within a browser, the tab URLs are normalized to
/// their domains before comparison, so that pages on one distracting site
/// count as a single lingering context.
pub fn frontmost_app_or_browser_tab_changed(
    cur_frontmost_app: &str,
    last_frontmost_app: &str,
    cur_browser_tab_url: &str,
    last_browser_tab_url: &str,
) -> (r: bool)
    ensures
        r == spec_foreground_changed(
            cur_frontmost_app@,
            last_frontmost_app@,
            cur_browser_tab_url@,
            last_browser_tab_url@,
        ),
{
    if !str_eq(cur_frontmost_app, last_frontmost_app) {
        true
    } else if str_eq(cur_frontmost_app, "com.google.Chrome") || str_eq(
        cur_frontmost_app,
        "com.apple.Safari",
    ) {
        let cur_domain = match extract_domain_from_url(cur_browser_tab_url) {
            Some(h) => h,
            None => String::new(),
        };
        let last_domain = match extract_domain_from_url(last_browser_tab_url) {
            Some(h) => h,
            None => String::new(),
        };
        !str_eq(cur_domain.as_str(), last_domain.as_str())
    } else {
        false
    }
}

} // verus!
