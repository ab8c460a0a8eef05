//! Splitting `host:port` text. Resolving the host is the caller's.

use crate::text::{chars_of, last_index_of, parse_u16, parse_u16_spec};
use vstd::prelude::*;
use vstd::string::*;

verus! {

/// Index of the first `]:` in `s` at or after `i`, or the length of `s`.
pub open spec fn bracket_colon_from(s: Seq<char>, i: int) -> int
    decreases s.len() - i,
{
    if i + 1 >= s.len() {
        s.len() as int
    } else if s[i] == ']' && s[i + 1] == ':' {
        i
    } else {
        bracket_colon_from(s, i + 1)
    }
}

/// The host and port that `s` names, or `None` where its port is no `u16`:
/// `[host]:port` for bracketed (IPv6) hosts; else `host:port` split at the
/// last `:`; else all of `s` is the host and the port is 0.
pub open spec fn host_port_of(s: Seq<char>) -> Option<(Seq<char>, u16)> {
    let b = bracket_colon_from(s, 0);
    let k = last_index_of(s, ':');
    if s.len() > 0 && s[0] == '[' && b < s.len() {
        match parse_u16_spec(s.subrange(b + 2, s.len() as int)) {
            Some(p) => Some((s.subrange(1, b), p)),
            None => None,
        }
    } else if k >= 0 {
        match parse_u16_spec(s.subrange(k + 1, s.len() as int)) {
            Some(p) => Some((s.subrange(0, k), p)),
            None => None,
        }
    } else {
        Some((s, 0))
    }
}

proof fn lemma_bracket_colon_from(s: Seq<char>, i: int)
    requires
        0 <= i <= s.len(),
    ensures
        i <= bracket_colon_from(s, i) <= s.len(),
        bracket_colon_from(s, i) < s.len() ==> bracket_colon_from(s, i) + 1 < s.len(),
    decreases s.len() - i,
{
    if i + 1 < s.len() && !(s[i] == ']' && s[i + 1] == ':') {
        lemma_bracket_colon_from(s, i + 1);
    }
}

proof fn lemma_last_index_of(s: Seq<char>, c: char)
    ensures
        -1 <= last_index_of(s, c) < s.len(),
    decreases s.len(),
{
    if s.len() > 0 && s.last() != c {
        lemma_last_index_of(s.drop_last(), c);
    }
}

fn invalid_port(host_port: &str) -> (r: String)
    ensures
        r@ == "Invalid port in address: "@ + host_port@,
{
    let mut m = String::from_str("Invalid port in address: ");
    m.append(host_port);
    m
}

/// Splits `host_port` into its host text and port, as `host_port_of` says;
/// a port that is no `u16` fails with a message naming the text.
pub fn split_host_port(host_port: &str) -> (r: Result<(String, u16), String>)
    ensures
        match host_port_of(host_port@) {
            Some((h, p)) => r matches Ok((hs, pp)) && hs@ == h && pp == p,
            None => r matches Err(m) && m@ == "Invalid port in address: "@ + host_port@,
        },
{
    let ghost s = host_port@;
    let c = chars_of(host_port);
    let n = c.len();
    proof {
        lemma_bracket_colon_from(s, 0);
        lemma_last_index_of(s, ':');
    }
    if n > 0 && c[0] == '[' {
        let mut b: usize = 0;
        while n - b > 1 && !(c[b] == ']' && c[b + 1] == ':')
            invariant
                c@ == s,
                n == c.len(),
                b <= n,
                bracket_colon_from(s, 0) == bracket_colon_from(s, b as int),
            decreases n - b,
        {
            b += 1;
        }
        proof {
            lemma_bracket_colon_from(s, b as int);
        }
        if n - b > 1 {
            return match parse_u16(host_port.substring_char(b + 2, n)) {
                Some(port) => Ok((String::from_str(host_port.substring_char(1, b)), port)),
                None => Err(invalid_port(host_port)),
            };
        }
    }
    let mut k: usize = n;
    assert(s.subrange(0, n as int) =~= s);
    while k > 0 && c[k - 1] != ':'
        invariant
            c@ == s,
            n == c.len(),
            k <= n,
            last_index_of(s, ':') == last_index_of(s.subrange(0, k as int), ':'),
        decreases k,
    {
        assert(s.subrange(0, k as int).drop_last() =~= s.subrange(0, k - 1));
        k -= 1;
    }
    if k == 0 {
        assert(last_index_of(s.subrange(0, 0), ':') == -1);
        return Ok((String::from_str(host_port), 0));
    }
    assert(s.subrange(0, k as int).last() == ':');
    match parse_u16(host_port.substring_char(k, n)) {
        Some(port) => Ok((String::from_str(host_port.substring_char(0, k - 1)), port)),
        None => Err(invalid_port(host_port)),
    }
}

} // verus!
