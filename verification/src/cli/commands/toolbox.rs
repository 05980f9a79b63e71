//! The route that the toolbox sets up for a mailer: the plugins it uses and
//! the address it is reached at.

use vstd::prelude::*;
use crate::utils::text::{is_prefix, starts_with};

verus! {

/// Identifier of the mailer plugin.
pub const MAILER_PLUGIN_ID: &'static str =
    "cp:otoroshi_plugins.com.cloud.apim.otoroshi.plugins.mailer.MailerEndpoint";

/// Identifier of the plugin that checks API keys.
pub const APIKEY_PLUGIN_ID: &'static str = "cp:otoroshi.next.plugins.ApikeyCalls";

/// Times a mail is tried again.
pub const MAILER_MAX_RETRIES: u8 = 5;

/// The address given for a route without a domain.
pub const UNKNOWN_ROUTE_URL: &'static str = "https://unknown/mailer";

/// `s` without the slashes at its end.
pub open spec fn without_trailing_slashes(s: Seq<char>) -> Seq<char>
    decreases s.len(),
{
    if s.len() > 0 && s.last() == '/' {
        without_trailing_slashes(s.drop_last())
    } else {
        s
    }
}

/// The domain of a route with a path added: the slashes at the end of the
/// domain go, then the path follows.
pub fn domain_with_path(domain: &str, path_suffix: &str) -> (res: String)
    ensures
        res@ == without_trailing_slashes(domain@) + path_suffix@,
{
    let mut end: usize = domain.unicode_len();
    proof {
        assert(domain@.subrange(0, end as int) =~= domain@);
    }
    while end > 0 && domain.get_char(end - 1) == '/'
        invariant
            end <= domain@.len(),
            without_trailing_slashes(domain@) == without_trailing_slashes(
                domain@.subrange(0, end as int),
            ),
        decreases end,
    {
        proof {
            let s = domain@.subrange(0, end as int);
            assert(s.last() == '/');
            assert(s.drop_last() =~= domain@.subrange(0, end - 1));
        }
        end = end - 1;
    }
    let mut out = String::new();
    let mut i: usize = 0;
    while i < end
        invariant
            i <= end <= domain@.len(),
            out@ == domain@.subrange(0, i as int),
        decreases end - i,
    {
        out.push(domain.get_char(i));
        proof {
            assert(domain@.subrange(0, i + 1) =~= domain@.subrange(0, i as int).push(
                domain@[i as int],
            ));
        }
        i = i + 1;
    }
    proof {
        let s = domain@.subrange(0, end as int);
        assert(without_trailing_slashes(s) == s);
    }
    out.append(path_suffix);
    out
}

/// The first domain of a route with a path added; a route without a domain
/// stays without one.
pub fn update_route_domain_path(first_domain: Option<&str>, path_suffix: &str) -> (res: Option<
    String,
>)
    ensures
        res.deep_view() == match first_domain {
            Some(d) => Some(without_trailing_slashes(d@) + path_suffix@),
            None => None,
        },
{
    match first_domain {
        Some(d) => Some(domain_with_path(d, path_suffix)),
        None => None,
    }
}

/// The address of a route, given its first domain: the domain itself where
/// it starts with `http`, else the domain over HTTPS.
pub open spec fn route_url_of(first_domain: Option<Seq<char>>) -> Seq<char> {
    match first_domain {
        Some(d) => if is_prefix(d, "http"@) {
            d
        } else {
            "https://"@ + d
        },
        None => UNKNOWN_ROUTE_URL@,
    }
}

/// The address of a route, given its first domain.
pub fn extract_route_url(first_domain: Option<&str>) -> (res: String)
    ensures
        res@ == route_url_of(first_domain.deep_view()),
{
    match first_domain {
        Some(d) => if starts_with(d, "http") {
            d.to_string()
        } else {
            let mut out = "https://".to_string();
            out.append(d);
            out
        },
        None => UNKNOWN_ROUTE_URL.to_string(),
    }
}

} // verus!
