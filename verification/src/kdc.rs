//! The Kerberos exchange policies that work on plain values: the
//! classification of a KDC endpoint URL — whether it is reached directly
//! or through a KDC proxy, read off its scheme, with the default `tcp`
//! scheme supplied to a bare address — and the clock-skew tolerance.
//!
//! Fetching the URL from the environment and opening the connection are
//! transport concerns outside this crate; these functions take and return
//! the plain text of the URL and timestamps in seconds.

use vstd::prelude::*;

use crate::error::{Error, ErrorKind};

verus! {

/// The widest clock skew between the peers that the exchanges tolerate,
/// in seconds: five minutes either way.
pub const MAX_CLOCK_SKEW_SECONDS: i64 = 300;

/// Accepts a remote timestamp if and only if it lies within five minutes
/// of the local one, either way; one second further is rejected as
/// `TimeSkew`. Both timestamps are in seconds since the Unix epoch.
pub fn validate_clock_skew(local_seconds: i64, remote_seconds: i64) -> (r: Result<(), Error>)
    ensures
        r is Ok <==> -300 <= local_seconds as int - remote_seconds as int <= 300,
        r matches Err(e) ==> e.error_type == ErrorKind::TimeSkew,
{
    let difference: i128 = local_seconds as i128 - remote_seconds as i128;
    if -300 <= difference && difference <= 300 {
        Ok(())
    } else {
        Err(
            Error::new(
                ErrorKind::TimeSkew,
                String::from_str("the peer's clock is more than five minutes away"),
            ),
        )
    }
}

/// How the KDC endpoint is reached: directly, or through a KDC proxy.
#[derive(Debug, Copy, Clone, Eq, PartialEq, Structural)]
pub enum KdcType {
    Kdc,
    KdcProxy,
}

/// Whether the three characters of a scheme separator stand at `i`.
pub open spec fn spec_is_scheme_sep_at(s: Seq<char>, i: int) -> bool {
    &&& 0 <= i
    &&& i + 3 <= s.len()
    &&& s[i] == ':'
    &&& s[i + 1] == '/'
    &&& s[i + 2] == '/'
}

/// Whether the text holds a scheme separator anywhere.
pub open spec fn spec_has_scheme_sep(s: Seq<char>) -> bool {
    exists|i: int| spec_is_scheme_sep_at(s, i)
}

/// Whether `i` points at the first scheme separator of the text.
pub open spec fn spec_is_first_scheme_sep(s: Seq<char>, i: int) -> bool {
    &&& spec_is_scheme_sep_at(s, i)
    &&& forall|j: int| 0 <= j < i ==> !spec_is_scheme_sep_at(s, j)
}

/// Whether two characters are the same letter, ASCII case apart.
pub open spec fn spec_char_eq_ignore_ascii_case(a: char, b: char) -> bool {
    ||| a == b
    ||| 'A' <= a <= 'Z' && b as int == a as int + 0x20
    ||| 'A' <= b <= 'Z' && a as int == b as int + 0x20
}

/// Whether two texts are equal, ASCII case apart.
pub open spec fn spec_eq_ignore_ascii_case(a: Seq<char>, b: Seq<char>) -> bool {
    a.len() == b.len() && forall|i: int|
        0 <= i < a.len() ==> spec_char_eq_ignore_ascii_case(a[i], b[i])
}

/// The endpoint type that a scheme names: `http` and `https`, in any
/// letter case, reach a KDC proxy; `tcp`, `udp` and every other scheme
/// reach the KDC directly. A URL parser folds the scheme's case away, so
/// the classification must not read it.
pub open spec fn spec_kdc_type_of_scheme(scheme: Seq<char>) -> KdcType {
    if spec_eq_ignore_ascii_case(scheme, "http"@) || spec_eq_ignore_ascii_case(scheme, "https"@) {
        KdcType::KdcProxy
    } else {
        KdcType::Kdc
    }
}

/// Whether two characters are the same letter, ASCII case apart.
fn char_eq_ignore_ascii_case(a: char, b: char) -> (r: bool)
    ensures
        r == spec_char_eq_ignore_ascii_case(a, b),
{
    if a == b {
        return true;
    }
    let x = a as u32;
    let y = b as u32;
    (0x41 <= x && x <= 0x5A && y == x + 0x20) || (0x41 <= y && y <= 0x5A && x == y + 0x20)
}

/// Whether two texts are equal, ASCII case apart.
fn eq_ignore_ascii_case(a: &str, b: &str) -> (r: bool)
    ensures
        r == spec_eq_ignore_ascii_case(a@, b@),
{
    let n = a.unicode_len();
    if n != b.unicode_len() {
        return false;
    }
    let mut i: usize = 0;
    while i < n
        invariant
            n == a@.len(),
            n == b@.len(),
            i <= n,
            forall|j: int| 0 <= j < i ==> spec_char_eq_ignore_ascii_case(a@[j], b@[j]),
        decreases n - i,
    {
        if !char_eq_ignore_ascii_case(a.get_char(i), b.get_char(i)) {
            return false;
        }
        i = i + 1;
    }
    true
}

/// The position of the first scheme separator of the text, if one stands
/// anywhere in it.
fn find_scheme_sep(url: &str) -> (r: Option<usize>)
    ensures
        r is Some <==> spec_has_scheme_sep(url@),
        r matches Some(i) ==> spec_is_first_scheme_sep(url@, i as int),
{
    let n = url.unicode_len();
    if n < 3 {
        proof {
            assert forall|i: int| !spec_is_scheme_sep_at(url@, i) by {}
        }
        return None;
    }
    let mut i: usize = 0;
    while i <= n - 3
        invariant
            n == url@.len(),
            3 <= n,
            i <= n - 2,
            forall|j: int| 0 <= j < i ==> !spec_is_scheme_sep_at(url@, j),
        decreases n - i,
    {
        if url.get_char(i) == ':' && url.get_char(i + 1) == '/' && url.get_char(i + 2) == '/' {
            proof {
                assert(spec_is_scheme_sep_at(url@, i as int));
            }
            return Some(i);
        }
        i = i + 1;
    }
    proof {
        assert forall|j: int| !spec_is_scheme_sep_at(url@, j) by {
            if i <= j && j + 3 <= n {
                assert(false);
            }
        }
    }
    None
}

/// The URL with a scheme supplied: a URL that already names a scheme is
/// kept verbatim, and a bare address is reached directly, over `tcp`.
pub fn normalize_kdc_url(url: &str) -> (r: String)
    ensures
        spec_has_scheme_sep(url@) ==> r@ == url@,
        !spec_has_scheme_sep(url@) ==> r@ == "tcp://"@ + url@,
{
    match find_scheme_sep(url) {
        Some(_) => url.to_owned(),
        None => {
            let mut prefixed = String::from_str("tcp://");
            prefixed.append(url);
            prefixed
        },
    }
}

/// The scheme of the URL: the text before the first scheme separator, or
/// nothing when the URL names no scheme.
pub fn kdc_url_scheme(url: &str) -> (r: Option<String>)
    ensures
        r is Some <==> spec_has_scheme_sep(url@),
        r matches Some(scheme) ==> exists|i: int|
            spec_is_first_scheme_sep(url@, i) && scheme@ == url@.subrange(0, i),
{
    match find_scheme_sep(url) {
        Some(i) => Some(String::from_str(url.substring_char(0, i))),
        None => None,
    }
}

/// The endpoint type that a scheme names. `http` and `https`, in any
/// letter case, reach a KDC proxy; `tcp`, `udp` and every other scheme
/// reach the KDC directly.
pub fn kdc_type_from_scheme(scheme: &str) -> (r: KdcType)
    ensures
        r == spec_kdc_type_of_scheme(scheme@),
{
    if eq_ignore_ascii_case(scheme, "http") || eq_ignore_ascii_case(scheme, "https") {
        KdcType::KdcProxy
    } else {
        KdcType::Kdc
    }
}

/// Normalises a KDC endpoint URL and classifies its endpoint: the URL is
/// kept verbatim when it names a scheme and prefixed with `tcp://`
/// otherwise, and the endpoint type is read off the scheme of the
/// normalised URL.
pub fn parse_kdc_url(url: &str) -> (r: (String, KdcType))
    ensures
        spec_has_scheme_sep(url@) ==> r.0@ == url@,
        !spec_has_scheme_sep(url@) ==> r.0@ == "tcp://"@ + url@,
        exists|i: int|
            spec_is_first_scheme_sep(r.0@, i) && r.1 == spec_kdc_type_of_scheme(
                r.0@.subrange(0, i),
            ),
{
    let normalized = normalize_kdc_url(url);
    proof {
        if !spec_has_scheme_sep(url@) {
            reveal_strlit("tcp://");
            assert(normalized@[3] == ':' && normalized@[4] == '/' && normalized@[5] == '/');
            assert(spec_is_scheme_sep_at(normalized@, 3));
        }
    }
    match kdc_url_scheme(normalized.as_str()) {
        Some(scheme) => {
            let kdc_type = kdc_type_from_scheme(scheme.as_str());
            let result = (normalized, kdc_type);
            proof {
                let i = choose|i: int|
                    spec_is_first_scheme_sep(result.0@, i) && scheme@ == result.0@.subrange(0, i);
                assert(spec_is_first_scheme_sep(result.0@, i));
                assert(result.1 == spec_kdc_type_of_scheme(result.0@.subrange(0, i)));
            }
            result
        },
        None => {
            proof {
                assert(false);
            }
            (normalized, KdcType::Kdc)
        },
    }
}

} // verus!
