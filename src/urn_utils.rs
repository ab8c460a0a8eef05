//! Uniform resource names of the form `METHOD:url`, or an `http:`/`https:`
//! URL taken as a `GET`.

use crate::text::{
    find_char, index_from, lemma_index_from_bounds, str_eq, starts_with, to_uppercase, trim,
    trimmed, upper_of,
};
use vstd::prelude::*;
use vstd::string::*;

verus! {

/// An HTTP method.
#[derive(Debug, Clone, Copy, PartialEq, Eq)]
pub enum Method {
    Get,
    Post,
    Put,
    Delete,
}

impl Method {
    pub open spec fn spec_name(self) -> Seq<char> {
        match self {
            Method::Get => "GET"@,
            Method::Post => "POST"@,
            Method::Put => "PUT"@,
            Method::Delete => "DELETE"@,
        }
    }

    /// The method's upper-case name.
    pub fn to_string(&self) -> (r: String)
        ensures
            r@ == self.spec_name(),
    {
        match self {
            Method::Get => String::from_str("GET"),
            Method::Post => String::from_str("POST"),
            Method::Put => String::from_str("PUT"),
            Method::Delete => String::from_str("DELETE"),
        }
    }
}

/// The method that an upper-case name names, if any.
pub open spec fn method_named(s: Seq<char>) -> Option<Method> {
    if s == "GET"@ {
        Some(Method::Get)
    } else if s == "POST"@ {
        Some(Method::Post)
    } else if s == "PUT"@ {
        Some(Method::Put)
    } else if s == "DELETE"@ {
        Some(Method::Delete)
    } else {
        None
    }
}

pub open spec fn has_prefix(s: Seq<char>, p: Seq<char>) -> bool {
    p.len() <= s.len() && s.subrange(0, p.len() as int) == p
}

/// The method and URL that the text `s` names, or `None` where it names
/// none: text starting with `http:` or `https:` is a `GET` of the whole
/// text; otherwise the part before the first `:`, trimmed and upper-cased,
/// must name a method, and the rest, trimmed, is a non-empty URL.
pub open spec fn urn_parts(s: Seq<char>) -> Option<(Method, Seq<char>)> {
    if has_prefix(s, "http:"@) || has_prefix(s, "https:"@) {
        Some((Method::Get, s))
    } else {
        let k = index_from(s, ':', 0);
        let url = trimmed(s.subrange(k + 1, s.len() as int));
        if k >= s.len() || url.len() == 0 {
            None
        } else {
            match method_named(upper_of(trimmed(s.subrange(0, k)))) {
                Some(m) => Some((m, url)),
                None => None,
            }
        }
    }
}

/// A method and the URL it applies to.
#[derive(Debug, Clone, PartialEq)]
pub struct Urn {
    pub method: Method,
    pub url: String,
}

/// The method that an already upper-cased name names, if any.
pub fn method_for_name(upper: &str) -> (r: Option<Method>)
    ensures
        r == method_named(upper@),
{
    if str_eq(upper, "GET") {
        Some(Method::Get)
    } else if str_eq(upper, "POST") {
        Some(Method::Post)
    } else if str_eq(upper, "PUT") {
        Some(Method::Put)
    } else if str_eq(upper, "DELETE") {
        Some(Method::Delete)
    } else {
        None
    }
}

/// The method and URL that `urn` names, as `urn_parts` says.
fn parts(urn: &str) -> (r: Option<(Method, String)>)
    ensures
        match urn_parts(urn@) {
            Some((m, u)) => r matches Some((x, y)) && x == m && y@ == u,
            None => r is None,
        },
{
    if starts_with(urn, "http:") || starts_with(urn, "https:") {
        return Some((Method::Get, String::from_str(urn)));
    }
    let n = urn.unicode_len();
    let k = find_char(urn, ':');
    proof {
        lemma_index_from_bounds(urn@, ':', 0);
    }
    if k >= n {
        return None;
    }
    let url = trim(urn.substring_char(k + 1, n));
    if url.unicode_len() == 0 {
        return None;
    }
    let name = to_uppercase(trim(urn.substring_char(0, k)));
    match method_for_name(name.as_str()) {
        Some(method) => Some((method, String::from_str(url))),
        None => None,
    }
}

impl Urn {
    /// Reads `urn`, which must name a method and URL.
    pub fn new(urn: String) -> (r: Urn)
        requires
            urn_parts(urn@) is Some,
        ensures
            urn_parts(urn@) matches Some((m, u)) && r.method == m && r.url@ == u,
    {
        let (method, url) = parts(urn.as_str()).unwrap();
        Urn { method, url }
    }

    /// Reads `urn`; `None` where it names no method and URL.
    pub fn try_new(urn: String) -> (r: Option<Urn>)
        ensures
            match urn_parts(urn@) {
                Some((m, u)) => r matches Some(x) && x.method == m && x.url@ == u,
                None => r is None,
            },
    {
        if parts(urn.as_str()).is_some() {
            Some(Self::new(urn))
        } else {
            None
        }
    }
}

} // verus!
