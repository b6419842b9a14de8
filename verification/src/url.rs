//! The request URLs of the remote service.

use vstd::prelude::*;
use vstd::string::StringExecFns;
use vstd::string::StrSliceExecFns;
use vstd::utf8::encode_utf8;
use crate::text::spec_decimal;
use crate::text::spec_hex_upper;
use crate::text::hex_upper_str;
use crate::text::u32_to_decimal;

verus! {

/// The fixed base address every operation targets.
pub open spec fn spec_base() -> Seq<char> {
    "https://tipchain-api.deno.dev"@
}

/// Returns the fixed base address.
pub fn base_url() -> (r: String)
    ensures
        r@ == spec_base(),
{
    String::from_str("https://tipchain-api.deno.dev")
}

/// Characters a URL path segment carries unescaped (the unreserved set).
pub open spec fn is_unreserved(c: char) -> bool {
    (97 <= c as u32 && c as u32 <= 122)  // a-z
     || (65 <= c as u32 && c as u32 <= 90)  // A-Z
     || (48 <= c as u32 && c as u32 <= 57)  // 0-9
     || c == '-' || c == '.' || c == '_' || c == '~'
}

/// The percent-encoding of one byte.
pub open spec fn spec_pct_byte(b: u8) -> Seq<char> {
    "%"@ + spec_hex_upper(b as nat / 16) + spec_hex_upper(b as nat % 16)
}

/// The percent-encoding of a byte sequence.
pub open spec fn spec_pct_bytes(bs: Seq<u8>) -> Seq<char>
    decreases bs.len(),
{
    if bs.len() == 0 {
        Seq::empty()
    } else {
        spec_pct_bytes(bs.drop_last()) + spec_pct_byte(bs.last())
    }
}

/// How one character stands inside a path segment: unreserved characters
/// as themselves, every other character as the percent-encoding of its
/// UTF-8 bytes.
pub open spec fn spec_path_escape_char(c: char) -> Seq<char> {
    if is_unreserved(c) {
        seq![c]
    } else {
        spec_pct_bytes(encode_utf8(seq![c]))
    }
}

/// A string escaped for use as one URL path segment.
pub open spec fn spec_path_escape(s: Seq<char>) -> Seq<char>
    decreases s.len(),
{
    if s.len() == 0 {
        Seq::empty()
    } else {
        spec_path_escape(s.drop_last()) + spec_path_escape_char(s.last())
    }
}

fn append_pct_byte(out: &mut String, b: u8)
    ensures
        final(out)@ == old(out)@ + spec_pct_byte(b),
{
    out.append("%");
    out.append(hex_upper_str(b / 16));
    out.append(hex_upper_str(b % 16));
}

/// Escapes `s` for use as one URL path segment.
pub fn path_escape(s: &str) -> (r: String)
    ensures
        r@ == spec_path_escape(s@),
{
    let n = s.unicode_len();
    let mut out = String::new();
    let mut i: usize = 0;
    while i < n
        invariant
            i <= n,
            n == s@.len(),
            out@ == spec_path_escape(s@.subrange(0, i as int)),
        decreases n - i,
    {
        let c = s.get_char(i);
        let u = c as u32;
        if (97 <= u && u <= 122) || (65 <= u && u <= 90) || (48 <= u && u <= 57) || c == '-' || c
            == '.' || c == '_' || c == '~' {
            let ghost prev = out@;
            crate::chars::push_char(&mut out, c);
            proof {
                assert(prev.push(c) =~= prev + seq![c]);
            }
        } else {
            let piece = s.substring_char(i, i + 1);
            let bytes: &[u8] = piece.as_bytes();
            proof {
                assert(piece@ =~= seq![c]);
            }
            let m = bytes.len();
            let mut j: usize = 0;
            while j < m
                invariant
                    j <= m,
                    m == bytes@.len(),
                    bytes@ == encode_utf8(seq![c]),
                    out@ == spec_path_escape(s@.subrange(0, i as int)) + spec_pct_bytes(
                        bytes@.subrange(0, j as int),
                    ),
                decreases m - j,
            {
                append_pct_byte(&mut out, bytes[j]);
                proof {
                    let t = bytes@.subrange(0, j + 1);
                    assert(t.drop_last() =~= bytes@.subrange(0, j as int));
                    assert(t.last() == bytes@[j as int]);
                }
                j = j + 1;
            }
            proof {
                assert(bytes@.subrange(0, m as int) =~= bytes@);
            }
        }
        proof {
            let t = s@.subrange(0, i + 1);
            assert(t.drop_last() =~= s@.subrange(0, i as int));
            assert(t.last() == c);
        }
        i = i + 1;
    }
    proof {
        assert(s@.subrange(0, n as int) =~= s@);
    }
    out
}

/// The listing URL for a page of projects, with the defaults of one for
/// the page and twenty for the page size filled in.
pub open spec fn spec_projects_url(page: Option<u32>, limit: Option<u32>) -> Seq<char> {
    spec_base() + "/projects?page="@ + spec_decimal(
        match page {
            Some(p) => p as nat,
            None => 1,
        },
    ) + "&limit="@ + spec_decimal(
        match limit {
            Some(l) => l as nat,
            None => 20,
        },
    )
}

/// Builds the project-listing URL; omitted arguments default to page one
/// and a limit of twenty.
pub fn projects_url(page: Option<u32>, limit: Option<u32>) -> (r: String)
    ensures
        r@ == spec_projects_url(page, limit),
{
    let p: u32 = match page {
        Some(p) => p,
        None => 1,
    };
    let l: u32 = match limit {
        Some(l) => l,
        None => 20,
    };
    let mut out = base_url();
    out.append("/projects?page=");
    let pd = u32_to_decimal(p);
    out.append(pd.as_str());
    out.append("&limit=");
    let ld = u32_to_decimal(l);
    out.append(ld.as_str());
    out
}

/// The profile URL for one creator, the identifier escaped as a path
/// segment.
pub open spec fn spec_creator_url(address: Seq<char>) -> Seq<char> {
    spec_base() + "/creators/"@ + spec_path_escape(address)
}

/// Builds the creator-profile URL for `address`.
pub fn creator_url(address: &str) -> (r: String)
    ensures
        r@ == spec_creator_url(address@),
{
    let mut out = base_url();
    out.append("/creators/");
    let seg = path_escape(address);
    out.append(seg.as_str());
    out
}

/// The registration endpoint.
pub open spec fn spec_register_url() -> Seq<char> {
    spec_base() + "/creators/register"@
}

/// Returns the registration endpoint URL.
pub fn register_url() -> (r: String)
    ensures
        r@ == spec_register_url(),
{
    let mut out = base_url();
    out.append("/creators/register");
    out
}

/// The send-tip endpoint.
pub open spec fn spec_tips_url() -> Seq<char> {
    spec_base() + "/tips/send"@
}

/// Returns the send-tip endpoint URL.
pub fn tips_url() -> (r: String)
    ensures
        r@ == spec_tips_url(),
{
    let mut out = base_url();
    out.append("/tips/send");
    out
}

} // verus!
