//! File-name extensions, SHA-256 digests as hex, and the cross-device test
//! for I/O errors.

use crate::text::{chars_of, last_index_of, lower_of, to_lowercase};
use sha2::Digest;
use vstd::prelude::*;
use vstd::string::*;

verus! {

/// The extension of a file name: what follows its last `.`, lower-cased;
/// empty where the name has no `.`.
pub open spec fn file_ext_of(s: Seq<char>) -> Seq<char> {
    if last_index_of(s, '.') >= 0 {
        lower_of(s.subrange(last_index_of(s, '.') + 1, s.len() as int))
    } else {
        Seq::empty()
    }
}

/// The lower-cased extension of `file_name`, or an empty string where it has
/// no `.`.
pub fn get_file_ext(file_name: &str) -> (r: String)
    ensures
        r@ == file_ext_of(file_name@),
{
    let c = chars_of(file_name);
    let n = c.len();
    let mut k: usize = n;
    assert(file_name@.subrange(0, n as int) =~= file_name@);
    while k > 0 && c[k - 1] != '.'
        invariant
            c@ == file_name@,
            n == c.len(),
            k <= n,
            last_index_of(file_name@, '.') == last_index_of(file_name@.subrange(0, k as int), '.'),
        decreases k,
    {
        assert(file_name@.subrange(0, k as int).drop_last() =~= file_name@.subrange(0, k - 1));
        k -= 1;
    }
    if k == 0 {
        assert(last_index_of(file_name@.subrange(0, 0), '.') == -1);
        return String::new();
    }
    assert(file_name@.subrange(0, k as int).last() == '.');
    to_lowercase(file_name.substring_char(k, n))
}

/// `errno` for a link across file systems.
pub const EXDEV: i32 = 18;

/// What the cross-device test reads of an I/O error: its raw OS error
/// code.
#[derive(Debug, Clone, Copy, PartialEq, Eq)]
pub struct IoErrorInfo {
    pub raw_os_error: Option<i32>,
}

/// Whether an I/O error reports a move across devices: its OS code is
/// `EXDEV`.
pub fn is_cross_device_error(err: &IoErrorInfo) -> (r: bool)
    ensures
        r == (err.raw_os_error == Some(EXDEV)),
{
    match err.raw_os_error {
        Some(code) => code == EXDEV,
        None => false,
    }
}

/// The SHA-256 digest of `data`.
pub uninterp spec fn sha256_of(data: Seq<u8>) -> Seq<u8>;

/// Relies on `sha2::Sha256::digest`: the 32-byte SHA-256 digest of the
/// bytes.
#[verifier::external_body]
fn sha256(data: &[u8]) -> (r: Vec<u8>)
    ensures
        r@ == sha256_of(data@),
        r@.len() == 32,
{
    sha2::Sha256::digest(data).to_vec()
}

pub open spec fn hex_digit(d: int) -> char {
    if 0 <= d < 10 {
        (('0' as u32) + d) as char
    } else {
        (('a' as u32) + d - 10) as char
    }
}

/// Two lower-case hex digits per byte, high nibble first.
pub open spec fn hex_lower(b: Seq<u8>) -> Seq<char>
    decreases b.len(),
{
    if b.len() == 0 {
        Seq::empty()
    } else {
        hex_lower(b.drop_last()) + seq![
            hex_digit(b.last() as int / 16),
            hex_digit(b.last() as int % 16),
        ]
    }
}

fn hex_digit_str(d: u8) -> (r: &'static str)
    requires
        d < 16,
    ensures
        r@ == seq![hex_digit(d as int)],
{
    let digits = "0123456789abcdef";
    proof {
        reveal_strlit("0123456789abcdef");
    }
    let r = digits.substring_ascii(d as usize, d as usize + 1);
    assert(r@ =~= seq![hex_digit(d as int)]);
    r
}

/// Lower-case hex text of `b`.
pub fn to_hex(b: &[u8]) -> (r: String)
    ensures
        r@ == hex_lower(b@),
{
    let mut r = String::new();
    let mut i: usize = 0;
    while i < b.len()
        invariant
            i <= b@.len(),
            r@ == hex_lower(b@.subrange(0, i as int)),
        decreases b@.len() - i,
    {
        let x = b[i];
        r.append(hex_digit_str(x / 16));
        r.append(hex_digit_str(x % 16));
        proof {
            let p = b@.subrange(0, i + 1);
            assert(p.drop_last() =~= b@.subrange(0, i as int));
        }
        i += 1;
    }
    assert(b@.subrange(0, b@.len() as int) =~= b@);
    r
}

/// The SHA-256 digest of `data` as 64 lower-case hex digits.
pub fn sha256_hex(data: &[u8]) -> (r: String)
    ensures
        r@ == hex_lower(sha256_of(data@)),
        r@.len() == 64,
{
    let d = sha256(data);
    let r = to_hex(d.as_slice());
    proof {
        lemma_hex_len(d@);
    }
    r
}

proof fn lemma_hex_len(b: Seq<u8>)
    ensures
        hex_lower(b).len() == 2 * b.len(),
    decreases b.len(),
{
    if b.len() > 0 {
        lemma_hex_len(b.drop_last());
    }
}

} // verus!
