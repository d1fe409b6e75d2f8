//! The two origins that every request goes to. They are fixed: nothing here
//! can be configured.
use crate::text::same_text;
use vstd::prelude::*;

verus! {

/// The sign-in endpoint of the authentication service.
pub const SSO_URL: &'static str = "https://sso.uom.gr/login";

/// The origin of the portal.
pub const PORTAL_URL: &'static str = "https://sis-portal.uom.gr";

/// The service that a sign-in is asked for: where the authentication service
/// sends the user back to.
pub const SERVICE_URL: &'static str = "https://sis-portal.uom.gr/login/cas";

/// How the client names itself to both origins.
pub const UA: &'static str =
    "Mozilla/5.0 (Windows NT 10.0; Win64; x64) AppleWebKit/537.36 (KHTML, like Gecko) Chrome/131.0.0.0 Safari/537.36";

/// The host of the authentication service.
pub const CAS_HOST: &'static str = "sso.uom.gr";

/// The host of `url` as the `url` crate reads it: none where the text is no
/// absolute URL or the URL has no host.
pub uninterp spec fn url_host(url: Seq<char>) -> Option<Seq<char>>;

/// Reads the host of `url` with `Url::parse` and `Url::host_str` of the `url`
/// crate. A text that `Url::parse` refuses has no host. The contract claims no
/// more than that the host is fixed by the text.
#[verifier::external_body]
pub(crate) fn host_of(url: &str) -> (host: Option<String>)
    ensures
        host.deep_view() == url_host(url@),
{
    url::Url::parse(url).ok()?.host_str().map(String::from)
}

/// Whether a response that ended at `host` is still with the authentication
/// service.
pub open spec fn is_cas_host(host: Option<Seq<char>>) -> bool {
    host == Some(CAS_HOST@)
}

/// Whether `host` is that of the authentication service.
pub fn at_cas_host(host: &Option<String>) -> (still_there: bool)
    ensures
        still_there == is_cas_host(host.deep_view()),
{
    match host {
        Some(name) => same_text(name.as_str(), CAS_HOST),
        None => false,
    }
}

} // verus!
