//! Web addresses that may be handed to a browser.

use vstd::prelude::*;
use crate::utils::text::str_eq;

verus! {

/// Why an address was not opened.
#[derive(Debug, Clone, PartialEq, Eq)]
pub enum BrowserError {
    /// The address is empty.
    EmptyUrl,
    /// The address is no URL; the text says why.
    InvalidUrl(String),
    /// The scheme of the address is neither `http` nor `https`.
    InvalidScheme(String),
    /// The browser could not be started; the text says why.
    OpenFailed(String),
}

impl BrowserError {
    /// A message for the user.
    pub fn message(&self) -> (res: String)
        ensures
            res@ == match self {
                BrowserError::EmptyUrl => "URL cannot be empty"@,
                BrowserError::InvalidUrl(why) => "Invalid URL: "@ + why@,
                BrowserError::InvalidScheme(scheme) => "Invalid URL scheme '"@ + scheme@
                    + "'. Only http and https are allowed"@,
                BrowserError::OpenFailed(why) => "Failed to open browser: "@ + why@,
            },
    {
        match self {
            BrowserError::EmptyUrl => "URL cannot be empty".to_string(),
            BrowserError::InvalidUrl(why) => {
                let mut out = "Invalid URL: ".to_string();
                out.append(why.as_str());
                out
            },
            BrowserError::InvalidScheme(scheme) => {
                let mut out = "Invalid URL scheme '".to_string();
                out.append(scheme.as_str());
                out.append("'. Only http and https are allowed");
                out
            },
            BrowserError::OpenFailed(why) => {
                let mut out = "Failed to open browser: ".to_string();
                out.append(why.as_str());
                out
            },
        }
    }
}

/// A URL as the parser read it: its scheme and its normal form.
#[derive(Debug, Clone, PartialEq, Eq)]
pub struct WebAddress {
    scheme: String,
    href: String,
}

impl WebAddress {
    /// The scheme, in lower case.
    pub closed spec fn scheme_view(&self) -> Seq<char> {
        self.scheme@
    }

    /// The whole address in normal form.
    pub closed spec fn href_view(&self) -> Seq<char> {
        self.href@
    }

    /// The scheme, in lower case.
    pub fn scheme(&self) -> (res: &str)
        ensures
            res@ == self.scheme_view(),
    {
        self.scheme.as_str()
    }

    /// The whole address in normal form.
    pub fn as_str(&self) -> (res: &str)
        ensures
            res@ == self.href_view(),
    {
        self.href.as_str()
    }
}

/// `url::ParseError`: why a text was refused as a URL. Only its display
/// text is taken from it.
#[verifier::external_type_specification]
#[verifier::external_body]
pub struct ExParseError(url::ParseError);

/// The scheme and the normal form that `url::Url::parse` reads from a text;
/// `None` where it refuses the text.
pub uninterp spec fn parsed_url(text: Seq<char>) -> Option<(Seq<char>, Seq<char>)>;

/// Calls `url::Url::parse` and hands on the scheme and the normal form of
/// the URL. The contract claims only that the outcome is `parsed_url` of the
/// text.
#[verifier::external_body]
fn parse_url(text: &str) -> (res: Result<WebAddress, url::ParseError>)
    ensures
        match res {
            Ok(address) => parsed_url(text@) == Some((address.scheme_view(), address.href_view())),
            Err(_) => parsed_url(text@) is None,
        },
{
    let url = url::Url::parse(text)?;
    Ok(WebAddress { scheme: url.scheme().to_string(), href: url.as_str().to_string() })
}

/// The text that `url::ParseError` displays. Nothing is claimed of it.
#[verifier::external_body]
fn describe_parse_error(error: &url::ParseError) -> String {
    error.to_string()
}

/// The scheme is one a browser is opened for.
pub open spec fn is_web_scheme(scheme: Seq<char>) -> bool {
    scheme == "http"@ || scheme == "https"@
}

/// The address that `url` stands for, where it is not empty, reads as a URL
/// and has the scheme `http` or `https`; else the first of these that
/// fails.
pub fn validate_url(url: &str) -> (res: Result<WebAddress, BrowserError>)
    ensures
        match res {
            Ok(address) => url@.len() > 0 && parsed_url(url@) == Some(
                (address.scheme_view(), address.href_view()),
            ) && is_web_scheme(address.scheme_view()),
            Err(BrowserError::EmptyUrl) => url@.len() == 0,
            Err(BrowserError::InvalidUrl(_)) => url@.len() > 0 && parsed_url(url@) is None,
            Err(BrowserError::InvalidScheme(scheme)) => url@.len() > 0 && parsed_url(url@) is Some
                && parsed_url(url@).unwrap().0 == scheme@ && !is_web_scheme(scheme@),
            Err(BrowserError::OpenFailed(_)) => false,
        },
{
    if url.unicode_len() == 0 {
        return Err(BrowserError::EmptyUrl);
    }
    match parse_url(url) {
        Ok(address) => {
            if str_eq(address.scheme(), "http") || str_eq(address.scheme(), "https") {
                Ok(address)
            } else {
                Err(BrowserError::InvalidScheme(address.scheme().to_string()))
            }
        },
        Err(e) => Err(BrowserError::InvalidUrl(describe_parse_error(&e))),
    }
}

/// The address a browser is opened with for `url`: its normal form, where
/// `url` is not empty, reads as a URL and has the scheme `http` or `https`.
pub open spec fn openable(url: Seq<char>) -> Option<Seq<char>> {
    if url.len() > 0 {
        match parsed_url(url) {
            Some((scheme, href)) => if is_web_scheme(scheme) {
                Some(href)
            } else {
                None
            },
            None => None,
        }
    } else {
        None
    }
}

/// Opens `url` with `opener`. The opener is called only for an address that
/// is valid, and with its normal form; what it reports is handed on.
pub fn open_url_with<F: FnOnce(&str) -> Result<(), String>>(url: &str, opener: F) -> (res: Result<
    (),
    BrowserError,
>)
    requires
        forall|address: &str| opener.requires((address,)),
    ensures
        match openable(url@) {
            Some(href) => exists|address: &str, reported: Result<(), String>|
                #![trigger opener.ensures((address,), reported)]
                address@ == href && opener.ensures((address,), reported) && match reported {
                    Ok(_) => res is Ok,
                    Err(why) => res == Err::<(), BrowserError>(BrowserError::OpenFailed(why)),
                },
            None => match res {
                Ok(_) => false,
                Err(BrowserError::OpenFailed(_)) => false,
                Err(_) => true,
            },
        },
{
    match validate_url(url) {
        Ok(address) => {
            let href = address.as_str();
            let reported = opener(href);
            proof {
                assert(openable(url@) == Some(href@));
                assert(opener.ensures((href,), reported));
            }
            match reported {
                Ok(_) => Ok(()),
                Err(why) => Err(BrowserError::OpenFailed(why)),
            }
        },
        Err(e) => Err(e),
    }
}

} // verus!
