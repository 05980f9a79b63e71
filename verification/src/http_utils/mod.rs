//! Headers as the proxies see them: lists of names and values, looked up
//! whatever the case of a name.

use vstd::prelude::*;
use crate::utils::search::{first_index, lemma_first_index_is, lemma_first_index_none};
use crate::utils::text::{eq_ignore_ascii_case, eq_ignore_case};

verus! {

/// A list of headers: names and values in the order of the request.
pub type Headers = Vec<(String, String)>;

/// The headers that belong to one connection and are not passed on.
pub const HOP_BY_HOP_HEADERS: [&'static str; 9] = [
    "connection",
    "keep-alive",
    "proxy-authenticate",
    "proxy-authorization",
    "te",
    "trailers",
    "transfer-encoding",
    "upgrade",
    "host",
];

/// A header of this name belongs to one connection: the name is one of
/// `HOP_BY_HOP_HEADERS`, whatever its case.
pub open spec fn is_hop_by_hop(name: Seq<char>) -> bool {
    exists|i: int| 0 <= i < 9 && eq_ignore_case(name, #[trigger] HOP_BY_HOP_HEADERS@[i]@)
}

/// Whether a header of this name belongs to one connection and is not
/// passed on.
pub fn is_hop_by_hop_header(name: &str) -> (res: bool)
    ensures
        res == is_hop_by_hop(name@),
{
    let mut i: usize = 0;
    while i < 9
        invariant
            i <= 9,
            forall|j: int| 0 <= j < i ==> !eq_ignore_case(name@, #[trigger] HOP_BY_HOP_HEADERS@[j]@),
        decreases 9 - i,
    {
        if eq_ignore_ascii_case(name, HOP_BY_HOP_HEADERS[i]) {
            return true;
        }
        i = i + 1;
    }
    false
}

/// The condition that a header is passed on.
pub open spec fn is_end_to_end() -> spec_fn((Seq<char>, Seq<char>)) -> bool {
    |h: (Seq<char>, Seq<char>)| !is_hop_by_hop(h.0)
}

/// The headers that are passed on: all but those that belong to one
/// connection, in their order.
pub fn filter_hop_by_hop_headers(headers: &Headers) -> (res: Headers)
    ensures
        res.deep_view() == headers.deep_view().filter(is_end_to_end()),
{
    let ghost s = headers.deep_view();
    let mut out: Headers = Vec::new();
    proof {
        reveal(Seq::filter);
        assert(s.take(0) =~= seq![]);
        assert(out.deep_view() =~= seq![]);
    }
    let mut i: usize = 0;
    while i < headers.len()
        invariant
            i <= headers.len(),
            s == headers.deep_view(),
            out.deep_view() == s.take(i as int).filter(is_end_to_end()),
        decreases headers.len() - i,
    {
        let ghost before = out.deep_view();
        proof {
            reveal(Seq::filter);
            assert(s.take(i + 1).drop_last() =~= s.take(i as int));
            assert(s.take(i + 1).last() == s[i as int]);
        }
        if !is_hop_by_hop_header(headers[i].0.as_str()) {
            out.push((headers[i].0.clone(), headers[i].1.clone()));
            proof {
                assert(out.deep_view() =~= before.push(s[i as int]));
            }
        }
        i = i + 1;
    }
    proof {
        assert(s.take(headers.len() as int) =~= s);
    }
    out
}

/// The condition that a header is called `name`, whatever the case.
pub open spec fn header_called(name: Seq<char>) -> spec_fn((Seq<char>, Seq<char>)) -> bool {
    |h: (Seq<char>, Seq<char>)| eq_ignore_case(h.0, name)
}

/// The value of the first header called `name`.
pub open spec fn header_of(headers: Seq<(Seq<char>, Seq<char>)>, name: Seq<char>) -> Option<
    Seq<char>,
> {
    match first_index(headers, header_called(name)) {
        Some(i) => Some(headers[i].1),
        None => None,
    }
}

/// The value of the first header called `name`, whatever the case.
pub fn header_value<'a>(headers: &'a Headers, name: &str) -> (res: Option<&'a String>)
    ensures
        res.deep_view() == header_of(headers.deep_view(), name@),
{
    let ghost s = headers.deep_view();
    let mut i: usize = 0;
    while i < headers.len()
        invariant
            i <= headers.len(),
            s == headers.deep_view(),
            forall|j: int| 0 <= j < i ==> !header_called(name@)(s[j]),
        decreases headers.len() - i,
    {
        if eq_ignore_ascii_case(headers[i].0.as_str(), name) {
            proof {
                lemma_first_index_is(s, header_called(name@), i as int);
            }
            return Some(&headers[i].1);
        }
        i = i + 1;
    }
    proof {
        lemma_first_index_none(s, header_called(name@));
    }
    None
}

/// The condition that a header is not called `name`.
pub open spec fn not_called(name: Seq<char>) -> spec_fn((Seq<char>, Seq<char>)) -> bool {
    |h: (Seq<char>, Seq<char>)| !eq_ignore_case(h.0, name)
}

/// `headers` with `name` set to `value`: every header of that name is
/// dropped and one with the value is added at the end.
pub open spec fn with_header(
    headers: Seq<(Seq<char>, Seq<char>)>,
    name: Seq<char>,
    value: Seq<char>,
) -> Seq<(Seq<char>, Seq<char>)> {
    headers.filter(not_called(name)).push((name, value))
}

/// `headers` with each header of `added` set, one after the other.
pub open spec fn with_headers(
    headers: Seq<(Seq<char>, Seq<char>)>,
    added: Seq<(Seq<char>, Seq<char>)>,
    n: int,
) -> Seq<(Seq<char>, Seq<char>)>
    decreases n,
{
    if n <= 0 {
        headers
    } else {
        with_header(with_headers(headers, added, n - 1), added[n - 1].0, added[n - 1].1)
    }
}

/// Sets the header `name` to `value`, in place of every header of that
/// name.
pub fn set_header(headers: &Headers, name: &str, value: &str) -> (res: Headers)
    ensures
        res.deep_view() == with_header(headers.deep_view(), name@, value@),
{
    let ghost s = headers.deep_view();
    let mut out: Headers = Vec::new();
    proof {
        reveal(Seq::filter);
        assert(s.take(0) =~= seq![]);
        assert(out.deep_view() =~= seq![]);
    }
    let mut i: usize = 0;
    while i < headers.len()
        invariant
            i <= headers.len(),
            s == headers.deep_view(),
            out.deep_view() == s.take(i as int).filter(not_called(name@)),
        decreases headers.len() - i,
    {
        let ghost before = out.deep_view();
        proof {
            reveal(Seq::filter);
            assert(s.take(i + 1).drop_last() =~= s.take(i as int));
            assert(s.take(i + 1).last() == s[i as int]);
        }
        if !eq_ignore_ascii_case(headers[i].0.as_str(), name) {
            out.push((headers[i].0.clone(), headers[i].1.clone()));
            proof {
                assert(out.deep_view() =~= before.push(s[i as int]));
            }
        }
        i = i + 1;
    }
    let ghost kept = out.deep_view();
    out.push((name.to_string(), value.to_string()));
    proof {
        assert(s.take(headers.len() as int) =~= s);
        assert(out.deep_view() =~= kept.push((name@, value@)));
    }
    out
}

/// Sets each header of `added`, one after the other.
pub fn set_headers(headers: Headers, added: &Headers) -> (res: Headers)
    ensures
        res.deep_view() == with_headers(
            headers.deep_view(),
            added.deep_view(),
            added.deep_view().len() as int,
        ),
{
    let ghost start = headers.deep_view();
    let ghost a = added.deep_view();
    let mut out = headers;
    let mut i: usize = 0;
    while i < added.len()
        invariant
            i <= added.len(),
            a == added.deep_view(),
            out.deep_view() == with_headers(start, a, i as int),
        decreases added.len() - i,
    {
        out = set_header(&out, added[i].0.as_str(), added[i].1.as_str());
        i = i + 1;
    }
    out
}

/// The host a request is meant for: its `Host` header, else its
/// `:authority` header, else the host of its target, else `localhost`.
pub open spec fn host_of(headers: Seq<(Seq<char>, Seq<char>)>, authority: Option<Seq<char>>) -> Seq<
    char,
> {
    match header_of(headers, "Host"@) {
        Some(h) => h,
        None => match header_of(headers, ":authority"@) {
            Some(h) => h,
            None => match authority {
                Some(a) => a,
                None => "localhost"@,
            },
        },
    }
}

/// The host a request is meant for, given its headers and the host of its
/// target, if the target names one.
pub fn request_host(headers: &Headers, authority: Option<&str>) -> (res: String)
    ensures
        res@ == host_of(headers.deep_view(), authority.deep_view()),
{
    match header_value(headers, "Host") {
        Some(h) => h.clone(),
        None => match header_value(headers, ":authority") {
            Some(h) => h.clone(),
            None => match authority {
                Some(a) => a.to_string(),
                None => "localhost".to_string(),
            },
        },
    }
}

} // verus!
