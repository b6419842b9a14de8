use angel_requests::json::register_payload;
use angel_requests::json::tip_payload;
use angel_requests::json::quoted;
use angel_requests::model::TipRequest;
use angel_requests::text::u32_to_decimal;
use angel_requests::text::u64_to_decimal;
use angel_requests::url::base_url;
use angel_requests::url::creator_url;
use angel_requests::url::path_escape;
use angel_requests::url::projects_url;
use angel_requests::url::register_url;
use angel_requests::url::tips_url;

#[test]
fn decimal_rendering() {
    assert_eq!(u32_to_decimal(0), "0");
    assert_eq!(u32_to_decimal(7), "7");
    assert_eq!(u32_to_decimal(20), "20");
    assert_eq!(u32_to_decimal(4294967295), "4294967295");
    assert_eq!(u64_to_decimal(18446744073709551615), "18446744073709551615");
    assert_eq!(u64_to_decimal(1000), "1000");
}

#[test]
fn projects_url_defaults_to_first_page_of_twenty() {
    assert_eq!(
        projects_url(None, None),
        "https://tipchain-api.deno.dev/projects?page=1&limit=20"
    );
}

#[test]
fn projects_url_encodes_both_arguments() {
    assert_eq!(
        projects_url(Some(3), Some(50)),
        "https://tipchain-api.deno.dev/projects?page=3&limit=50"
    );
    assert_eq!(
        projects_url(Some(1), Some(20)),
        "https://tipchain-api.deno.dev/projects?page=1&limit=20"
    );
    assert_eq!(
        projects_url(Some(4294967295), None),
        "https://tipchain-api.deno.dev/projects?page=4294967295&limit=20"
    );
}

#[test]
fn fixed_endpoints() {
    assert_eq!(base_url(), "https://tipchain-api.deno.dev");
    assert_eq!(register_url(), "https://tipchain-api.deno.dev/creators/register");
    assert_eq!(tips_url(), "https://tipchain-api.deno.dev/tips/send");
}

#[test]
fn creator_url_keeps_unreserved_characters() {
    assert_eq!(
        creator_url("alice.base.eth"),
        "https://tipchain-api.deno.dev/creators/alice.base.eth"
    );
    assert_eq!(
        creator_url("A-Z_0.9~z"),
        "https://tipchain-api.deno.dev/creators/A-Z_0.9~z"
    );
}

#[test]
fn creator_url_escapes_the_rest() {
    assert_eq!(
        creator_url("a b/c"),
        "https://tipchain-api.deno.dev/creators/a%20b%2Fc"
    );
    assert_eq!(
        creator_url("tip?x=1&y=2"),
        "https://tipchain-api.deno.dev/creators/tip%3Fx%3D1%26y%3D2"
    );
}

#[test]
fn path_escape_multibyte_goes_by_utf8_bytes() {
    assert_eq!(path_escape("ü"), "%C3%BC");
    assert_eq!(path_escape("名"), "%E5%90%8D");
    assert_eq!(path_escape(""), "");
}

#[test]
fn quoted_escapes_json_metacharacters() {
    assert_eq!(quoted("plain"), "\"plain\"");
    assert_eq!(quoted("say \"hi\""), "\"say \\\"hi\\\"\"");
    assert_eq!(quoted("back\\slash"), "\"back\\\\slash\"");
    assert_eq!(quoted("line\nbreak\ttab\r"), "\"line\\nbreak\\ttab\\r\"");
    assert_eq!(quoted("\u{8}\u{c}"), "\"\\b\\f\"");
    assert_eq!(quoted("\u{1}\u{1f}"), "\"\\u0001\\u001f\"");
    assert_eq!(quoted("ünïcøde"), "\"ünïcøde\"");
}

#[test]
fn register_payload_uses_remote_key_names() {
    assert_eq!(
        register_payload("alice", "Alice A.", "builder", "https://pic/a.png"),
        "{\"avatarUrl\":\"https://pic/a.png\",\"basename\":\"alice\",\"bio\":\"builder\",\"displayName\":\"Alice A.\"}"
    );
}

#[test]
fn register_payload_escapes_field_content() {
    assert_eq!(
        register_payload("a\"b", "c\\d", "e\nf", "g"),
        "{\"avatarUrl\":\"g\",\"basename\":\"a\\\"b\",\"bio\":\"e\\nf\",\"displayName\":\"c\\\\d\"}"
    );
}

#[test]
fn tip_payload_defaults_token_to_eth() {
    let req = TipRequest {
        to: "bob".to_string(),
        amount: "0.05".to_string(),
        message: "thanks".to_string(),
        token: None,
    };
    assert_eq!(
        tip_payload(&req),
        "{\"amount\":\"0.05\",\"message\":\"thanks\",\"to\":\"bob\",\"token\":\"ETH\"}"
    );
}

#[test]
fn tip_payload_keeps_a_given_token() {
    let req = TipRequest {
        to: "bob".to_string(),
        amount: "1".to_string(),
        message: "".to_string(),
        token: Some("BTC".to_string()),
    };
    assert_eq!(
        tip_payload(&req),
        "{\"amount\":\"1\",\"message\":\"\",\"to\":\"bob\",\"token\":\"BTC\"}"
    );
}
