//! The sign-in popup: when a navigation in it ends the sign-in, and which
//! webview takes over afterwards.

use vstd::prelude::*;

use crate::services::first_slack_service;
use crate::state::AppState;
use crate::text::{contains_text, service_label_view, str_contains};

verus! {

/// Whether `url` is a Slack page past its sign-in: on a Slack workspace, and not
/// on a sign-in, OAuth or single-sign-on page.
pub open spec fn slack_sign_in_done(url: Seq<char>) -> bool {
    &&& (contains_text(url, "app.slack.com"@) || (contains_text(url, ".slack.com"@)
        && !contains_text(url, "accounts.google"@)))
    &&& !contains_text(url, "/signin"@)
    &&& !contains_text(url, "/oauth"@)
    &&& !contains_text(url, "/sso"@)
    &&& !contains_text(url, "oauth2.slack.com"@)
}

/// Whether navigating the popup to `url` ends the sign-in. With a target domain:
/// the address mentions it and is no sign-in address (`url_is_auth_page` tells
/// whether it is one). Without: the Slack rule.
pub open spec fn sign_in_done(
    url: Seq<char>,
    target_domain: Option<Seq<char>>,
    url_is_auth_page: bool,
) -> bool {
    match target_domain {
        Some(domain) => contains_text(url, domain) && !url_is_auth_page,
        None => slack_sign_in_done(url),
    }
}

/// Without a target domain, a sign-in, OAuth or single-sign-on page never ends
/// the sign-in, nor does a page that is not on Slack. With one, a sign-in
/// address never ends it, nor does an address that does not mention the domain.
pub proof fn lemma_sign_in_pages_never_complete(url: Seq<char>, domain: Seq<char>, is_auth: bool)
    ensures
        contains_text(url, "/sso"@) ==> !sign_in_done(url, None, is_auth),
        contains_text(url, "/signin"@) ==> !sign_in_done(url, None, is_auth),
        contains_text(url, "/oauth"@) ==> !sign_in_done(url, None, is_auth),
        contains_text(url, "oauth2.slack.com"@) ==> !sign_in_done(url, None, is_auth),
        !contains_text(url, ".slack.com"@) && !contains_text(url, "app.slack.com"@)
            ==> !sign_in_done(url, None, is_auth),
        !sign_in_done(url, Some(domain), true),
        !contains_text(url, domain) ==> !sign_in_done(url, Some(domain), is_auth),
{
}

/// Whether navigating the popup to `url` ends the sign-in; `url_is_auth_page`
/// tells whether `url` is a sign-in address.
pub fn is_auth_complete(url: &str, target_domain: Option<&str>, url_is_auth_page: bool) -> (r: bool)
    ensures
        r == sign_in_done(
            url@,
            match target_domain {
                Some(d) => Some(d@),
                None => None,
            },
            url_is_auth_page,
        ),
        target_domain is None && (contains_text(url@, "/sso"@) || contains_text(url@, "/signin"@)
            || contains_text(url@, "/oauth"@) || contains_text(url@, "oauth2.slack.com"@)) ==> !r,
        target_domain is Some && url_is_auth_page ==> !r,
{
    match target_domain {
        Some(domain) => str_contains(url, domain) && !url_is_auth_page,
        None => {
            let on_workspace = str_contains(url, "app.slack.com") || (str_contains(url, ".slack.com")
                && !str_contains(url, "accounts.google"));
            on_workspace && !str_contains(url, "/signin") && !str_contains(url, "/oauth")
                && !str_contains(url, "/sso") && !str_contains(url, "oauth2.slack.com")
        },
    }
}

impl AppState {
    /// The webview that takes over once the sign-in is done: the one that opened
    /// the popup, when known, else the first Slack service's.
    pub fn auth_return_label(&self, source_label: Option<String>) -> (r: Option<String>)
        ensures
            source_label is Some ==> r == source_label,
            source_label is None ==> match first_slack_service(self@.services) {
                Some(k) => r is Some && r->0@ == service_label_view(self@.services[k].id),
                None => r is None,
            },
    {
        match source_label {
            Some(label) => Some(label),
            None => self.slack_service_label(),
        }
    }
}

} // verus!
