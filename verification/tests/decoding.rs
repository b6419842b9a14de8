use angel_requests::decode::parse_creator;
use angel_requests::decode::parse_projects;

#[test]
fn creator_document_decodes_field_for_field() {
    let body = "{\"basename\":\"alice\",\"display_name\":\"Alice\",\"bio\":\"builder\",\
                \"avatar_url\":\"https://pic/a.png\",\"total_tips_received\":\"12.5\",\
                \"tip_count\":3,\"is_active\":true,\"created_at\":1700000000}";
    let c = parse_creator(body).expect("well-formed profile");
    assert_eq!(c.basename, "alice");
    assert_eq!(c.display_name, "Alice");
    assert_eq!(c.bio, "builder");
    assert_eq!(c.avatar_url, "https://pic/a.png");
    assert_eq!(c.total_tips_received, "12.5");
    assert_eq!(c.tip_count, 3);
    assert!(c.is_active);
    assert_eq!(c.created_at, 1700000000);
}

#[test]
fn creator_document_tolerates_whitespace_and_unknown_members() {
    let body = " {\n  \"extra\": [1, {\"nested\": null}, \"x\"],\n  \"basename\": \"bob\",\
                \"display_name\": \"B\", \"bio\": \"\", \"avatar_url\": \"\",\
                \"total_tips_received\": \"0\", \"tip_count\": 0,\
                \"is_active\": false, \"created_at\": 0 }\n";
    let c = parse_creator(body).expect("unknown members are skipped");
    assert_eq!(c.basename, "bob");
    assert!(!c.is_active);
    assert_eq!(c.tip_count, 0);
}

#[test]
fn creator_document_last_duplicate_wins() {
    let body = "{\"basename\":\"first\",\"basename\":\"second\",\"display_name\":\"d\",\
                \"bio\":\"b\",\"avatar_url\":\"a\",\"total_tips_received\":\"1\",\
                \"tip_count\":1,\"is_active\":true,\"created_at\":1}";
    let c = parse_creator(body).expect("duplicates keep the last value");
    assert_eq!(c.basename, "second");
}

#[test]
fn creator_document_decodes_string_escapes() {
    let body = "{\"basename\":\"a\\\"b\\\\c\\n\\t\\u0041\\u00e9\",\"display_name\":\"d\",\
                \"bio\":\"b\",\"avatar_url\":\"a\",\"total_tips_received\":\"1\",\
                \"tip_count\":1,\"is_active\":true,\"created_at\":1}";
    let c = parse_creator(body).expect("escapes decode");
    assert_eq!(c.basename, "a\"b\\c\n\tAé");
}

#[test]
fn creator_document_missing_member_is_rejected() {
    let body = "{\"basename\":\"alice\",\"display_name\":\"Alice\",\"bio\":\"b\",\
                \"avatar_url\":\"a\",\"total_tips_received\":\"1\",\"tip_count\":1,\
                \"is_active\":true}";
    assert!(parse_creator(body).is_none());
}

#[test]
fn creator_document_wrong_shape_is_rejected() {
    assert!(parse_creator("").is_none());
    assert!(parse_creator("null").is_none());
    assert!(parse_creator("[]").is_none());
    assert!(parse_creator("{").is_none());
    // trailing content after the object
    let body = "{\"basename\":\"a\",\"display_name\":\"d\",\"bio\":\"b\",\"avatar_url\":\"a\",\
                \"total_tips_received\":\"1\",\"tip_count\":1,\"is_active\":true,\
                \"created_at\":1} x";
    assert!(parse_creator(body).is_none());
    // a member of the wrong shape
    let body2 = "{\"basename\":7,\"display_name\":\"d\",\"bio\":\"b\",\"avatar_url\":\"a\",\
                \"total_tips_received\":\"1\",\"tip_count\":1,\"is_active\":true,\
                \"created_at\":1}";
    assert!(parse_creator(body2).is_none());
}

#[test]
fn creator_document_bad_escapes_are_rejected() {
    // a lone surrogate names no scalar value
    let body = "{\"basename\":\"\\ud800\",\"display_name\":\"d\",\"bio\":\"b\",\
                \"avatar_url\":\"a\",\"total_tips_received\":\"1\",\"tip_count\":1,\
                \"is_active\":true,\"created_at\":1}";
    assert!(parse_creator(body).is_none());
    // an unknown escape letter
    let body2 = "{\"basename\":\"\\q\",\"display_name\":\"d\",\"bio\":\"b\",\
                \"avatar_url\":\"a\",\"total_tips_received\":\"1\",\"tip_count\":1,\
                \"is_active\":true,\"created_at\":1}";
    assert!(parse_creator(body2).is_none());
}

#[test]
fn creator_document_number_bounds() {
    // the largest value that fits
    let body = "{\"basename\":\"a\",\"display_name\":\"d\",\"bio\":\"b\",\"avatar_url\":\"a\",\
                \"total_tips_received\":\"1\",\"tip_count\":4294967295,\"is_active\":true,\
                \"created_at\":18446744073709551615}";
    let c = parse_creator(body).expect("maxima fit");
    assert_eq!(c.tip_count, 4294967295);
    assert_eq!(c.created_at, 18446744073709551615);
    // one too large for the field's width
    let over = "{\"basename\":\"a\",\"display_name\":\"d\",\"bio\":\"b\",\"avatar_url\":\"a\",\
                \"total_tips_received\":\"1\",\"tip_count\":4294967296,\"is_active\":true,\
                \"created_at\":1}";
    assert!(parse_creator(over).is_none());
    // one too large for sixty-four bits
    let over64 = "{\"basename\":\"a\",\"display_name\":\"d\",\"bio\":\"b\",\"avatar_url\":\"a\",\
                \"total_tips_received\":\"1\",\"tip_count\":1,\"is_active\":true,\
                \"created_at\":18446744073709551616}";
    assert!(parse_creator(over64).is_none());
}

#[test]
fn projects_document_decodes_every_project_in_order() {
    let body = "{\"data\":[\
                {\"uid\":\"u1\",\"title\":\"t1\",\"description\":\"d1\",\"recipient\":\"r1\",\
                 \"slug\":\"s1\",\"created_at\":\"c1\",\"updated_at\":\"m1\"},\
                {\"uid\":\"u2\",\"title\":\"t2\",\"description\":\"d2\",\"recipient\":\"r2\",\
                 \"slug\":\"s2\",\"created_at\":\"c2\",\"updated_at\":\"m2\"}],\
                \"page_info\":{\"total_items\":2,\"page\":1,\"page_limit\":20}}";
    let r = parse_projects(body).expect("well-formed page");
    assert_eq!(r.data.len(), 2);
    assert_eq!(r.data[0].uid, "u1");
    assert_eq!(r.data[0].updated_at, "m1");
    assert_eq!(r.data[1].uid, "u2");
    assert_eq!(r.data[1].title, "t2");
    assert_eq!(r.page_info.total_items, 2);
    assert_eq!(r.page_info.page, 1);
    assert_eq!(r.page_info.page_limit, 20);
}

#[test]
fn projects_document_empty_page() {
    let body = "{\"data\":[],\"page_info\":{\"total_items\":0,\"page\":1,\"page_limit\":20}}";
    let r = parse_projects(body).expect("an empty page is a page");
    assert_eq!(r.data.len(), 0);
    assert_eq!(r.page_info.total_items, 0);
}

#[test]
fn projects_document_requires_both_members() {
    assert!(parse_projects("{\"data\":[]}").is_none());
    assert!(
        parse_projects("{\"page_info\":{\"total_items\":0,\"page\":1,\"page_limit\":20}}")
            .is_none()
    );
    // a project missing a member poisons the page
    let body = "{\"data\":[{\"uid\":\"u1\"}],\
                \"page_info\":{\"total_items\":1,\"page\":1,\"page_limit\":20}}";
    assert!(parse_projects(body).is_none());
}
