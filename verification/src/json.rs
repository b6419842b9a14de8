//! Rendering JSON payloads as text: string escaping and the bodies of
//! the two POST operations.

use vstd::prelude::*;
use vstd::string::StringExecFns;
use crate::chars::push_char;
use crate::model::TipRequestV;
use crate::model::TipRequest;
use crate::text::spec_hex_lower;
use crate::text::hex_lower_str;

verus! {

/// How one character stands inside a JSON string literal: quote and
/// backslash escaped, control characters escaped (the five named ones by
/// name, the rest numerically), everything else as itself.
pub open spec fn spec_escape_char(c: char) -> Seq<char> {
    if c == '"' {
        "\\\""@
    } else if c == '\\' {
        "\\\\"@
    } else if c == '\u{8}' {
        "\\b"@
    } else if c == '\u{c}' {
        "\\f"@
    } else if c == '\n' {
        "\\n"@
    } else if c == '\r' {
        "\\r"@
    } else if c == '\t' {
        "\\t"@
    } else if (c as u32) < 32 {
        "\\u00"@ + spec_hex_lower((c as u32) as nat / 16) + spec_hex_lower((c as u32) as nat % 16)
    } else {
        seq![c]
    }
}

/// The body of a JSON string literal holding exactly the characters of `s`.
pub open spec fn spec_escape(s: Seq<char>) -> Seq<char>
    decreases s.len(),
{
    if s.len() == 0 {
        Seq::empty()
    } else {
        spec_escape(s.drop_last()) + spec_escape_char(s.last())
    }
}

/// The JSON string literal holding exactly the characters of `s`.
pub open spec fn spec_quoted(s: Seq<char>) -> Seq<char> {
    "\""@ + spec_escape(s) + "\""@
}

fn append_escaped_char(out: &mut String, c: char)
    ensures
        final(out)@ == old(out)@ + spec_escape_char(c),
{
    if c == '"' {
        out.append("\\\"");
    } else if c == '\\' {
        out.append("\\\\");
    } else if c == '\u{8}' {
        out.append("\\b");
    } else if c == '\u{c}' {
        out.append("\\f");
    } else if c == '\n' {
        out.append("\\n");
    } else if c == '\r' {
        out.append("\\r");
    } else if c == '\t' {
        out.append("\\t");
    } else if (c as u32) < 32 {
        let v = c as u32;
        out.append("\\u00");
        out.append(hex_lower_str((v / 16) as u8));
        out.append(hex_lower_str((v % 16) as u8));
    } else {
        push_char(out, c);
        assert(old(out)@.push(c) =~= old(out)@ + seq![c]);
    }
}

/// Escapes `s` for use inside a JSON string literal.
pub fn escape(s: &str) -> (r: String)
    ensures
        r@ == spec_escape(s@),
{
    let n = s.unicode_len();
    let mut out = String::new();
    let mut i: usize = 0;
    while i < n
        invariant
            i <= n,
            n == s@.len(),
            out@ == spec_escape(s@.subrange(0, i as int)),
        decreases n - i,
    {
        let c = s.get_char(i);
        append_escaped_char(&mut out, c);
        proof {
            let t = s@.subrange(0, i + 1);
            assert(t.drop_last() =~= s@.subrange(0, i as int));
            assert(t.last() == c);
        }
        i = i + 1;
    }
    proof {
        assert(s@.subrange(0, n as int) =~= s@);
    }
    out
}

/// Renders `s` as a JSON string literal, quotes included.
pub fn quoted(s: &str) -> (r: String)
    ensures
        r@ == spec_quoted(s@),
{
    let mut out = String::from_str("\"");
    let body = escape(s);
    out.append(body.as_str());
    out.append("\"");
    out
}

/// The registration body: the four profile fields under the remote
/// service's key names, keys in sorted order.
pub open spec fn spec_register_payload(
    basename: Seq<char>,
    display_name: Seq<char>,
    bio: Seq<char>,
    avatar_url: Seq<char>,
) -> Seq<char> {
    "{\"avatarUrl\":"@ + spec_quoted(avatar_url) + ",\"basename\":"@ + spec_quoted(basename)
        + ",\"bio\":"@ + spec_quoted(bio) + ",\"displayName\":"@ + spec_quoted(display_name)
        + "}"@
}

/// Builds the JSON body of a registration request.
pub fn register_payload(basename: &str, display_name: &str, bio: &str, avatar_url: &str) -> (r:
    String)
    ensures
        r@ == spec_register_payload(basename@, display_name@, bio@, avatar_url@),
{
    let mut out = String::from_str("{\"avatarUrl\":");
    let q_avatar = quoted(avatar_url);
    out.append(q_avatar.as_str());
    out.append(",\"basename\":");
    let q_basename = quoted(basename);
    out.append(q_basename.as_str());
    out.append(",\"bio\":");
    let q_bio = quoted(bio);
    out.append(q_bio.as_str());
    out.append(",\"displayName\":");
    let q_display = quoted(display_name);
    out.append(q_display.as_str());
    out.append("}");
    out
}

/// The token symbol a tip is sent in: the request's own, or `ETH` when
/// none was given.
pub open spec fn spec_tip_token(token: Option<Seq<char>>) -> Seq<char> {
    match token {
        Some(t) => t,
        None => "ETH"@,
    }
}

/// The send-tip body: recipient, amount, message and token symbol, keys
/// in sorted order, with the token defaulting to `ETH`.
pub open spec fn spec_tip_payload(req: TipRequestV) -> Seq<char> {
    "{\"amount\":"@ + spec_quoted(req.amount) + ",\"message\":"@ + spec_quoted(req.message)
        + ",\"to\":"@ + spec_quoted(req.to) + ",\"token\":"@ + spec_quoted(
        spec_tip_token(req.token),
    ) + "}"@
}

/// Builds the JSON body of a send-tip request.
pub fn tip_payload(req: &TipRequest) -> (r: String)
    ensures
        r@ == spec_tip_payload(req@),
{
    let mut out = String::from_str("{\"amount\":");
    let q_amount = quoted(req.amount.as_str());
    out.append(q_amount.as_str());
    out.append(",\"message\":");
    let q_message = quoted(req.message.as_str());
    out.append(q_message.as_str());
    out.append(",\"to\":");
    let q_to = quoted(req.to.as_str());
    out.append(q_to.as_str());
    out.append(",\"token\":");
    let q_token = match &req.token {
        Some(t) => quoted(t.as_str()),
        None => quoted("ETH"),
    };
    out.append(q_token.as_str());
    out.append("}");
    out
}

} // verus!
