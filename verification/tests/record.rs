use newsletter_ingest::json::Json;
use newsletter_ingest::post::{decode_post, DecodeFault};
use newsletter_ingest::record::{decode_record, extract_post, extract_record_text, locate_record};
use newsletter_ingest::text::chars_of;
use newsletter_ingest::ParserError;

const PAGE: &str =
    "<html><script>window._preloads = JSON.parse(\"{\\\"canonicalUrl\\\":\\\"http://x/p/1\\\"}\")</script></html>";

#[test]
fn record_text_is_found_and_unescaped() {
    assert_eq!(extract_record_text(PAGE).unwrap(), "{\"canonicalUrl\":\"http://x/p/1\"}");
}

#[test]
fn post_is_decoded_from_the_page() {
    let post = extract_post(PAGE).unwrap();
    assert_eq!(post.url(), "http://x/p/1");
    assert!(post.details().is_none());
    assert!(post.base_url().is_none());
}

#[test]
fn bare_record_is_decoded() {
    let html = "JSON.parse(\"{\\\"canonicalUrl\\\":\\\"http://x/p/1\\\"}\")</script>";
    let post = extract_post(html).unwrap();
    assert_eq!(post.url(), "http://x/p/1");
    assert!(post.details().is_none());
}

#[test]
fn missing_prefix_marker_is_record_not_found() {
    let out = extract_post("<html><body>no script here</body></html>");
    assert!(matches!(out, Err(ParserError::RecordNotFound)));
    let out = extract_record_text(")</script>");
    assert!(matches!(out, Err(ParserError::RecordNotFound)));
}

#[test]
fn missing_suffix_marker_is_record_not_found() {
    let out = extract_post("JSON.parse(\"{\\\"canonicalUrl\\\":\\\"http://x/p/1\\\"}\")");
    assert!(matches!(out, Err(ParserError::RecordNotFound)));
}

#[test]
fn suffix_before_prefix_does_not_count() {
    let out = extract_record_text(")</script>JSON.parse(\"{}\"");
    assert!(matches!(out, Err(ParserError::RecordNotFound)));
}

#[test]
fn first_markers_bound_the_record() {
    let html = "JSON.parse(\"a\")</script>JSON.parse(\"b\")</script>";
    assert_eq!(extract_record_text(html).unwrap(), "a");
    assert_eq!(locate_record(&chars_of(html)), Some((12, 13)));
}

#[test]
fn nothing_between_the_markers_is_an_empty_record() {
    assert_eq!(locate_record(&chars_of("JSON.parse(\")</script>")), Some((12, 12)));
    assert_eq!(extract_record_text("JSON.parse(\")</script>").unwrap(), "");
    assert_eq!(extract_record_text("JSON.parse(\"\")</script>").unwrap(), "");
    let out = extract_post("JSON.parse(\"\")</script>");
    assert!(matches!(out, Err(ParserError::RecordDecode { .. })));
}

#[test]
fn dangling_backslash_is_malformed_escape() {
    let out = extract_post("JSON.parse(\"{}\\\")</script>");
    assert!(matches!(out, Err(ParserError::MalformedEscape)));
}

#[test]
fn decode_failure_carries_text_and_message() {
    match extract_post("JSON.parse(\"{\\\"canonicalUrl\\\": 7}\")</script>") {
        Err(ParserError::RecordDecode { text, message }) => {
            assert_eq!(text, "{\"canonicalUrl\": 7}");
            assert_eq!(message, "field `canonicalUrl` is not a string");
        }
        _ => panic!("expected a decode failure"),
    }
    match extract_post("JSON.parse(\"{not json}\")</script>") {
        Err(ParserError::RecordDecode { text, message }) => {
            assert_eq!(text, "{not json}");
            assert_eq!(message, "key must be a string at line 1 column 2");
        }
        _ => panic!("expected a decode failure"),
    }
}

#[test]
fn decode_record_takes_the_parser_result() {
    let out = decode_record("x".to_string(), Err("bad".to_string()));
    match out {
        Err(ParserError::RecordDecode { text, message }) => {
            assert_eq!(text, "x");
            assert_eq!(message, "bad");
        }
        _ => panic!("expected a decode failure"),
    }
    let document = Json::Object(vec![("canonicalUrl".to_string(), Json::Text("u".to_string()))]);
    let post = decode_record("x".to_string(), Ok(document)).unwrap();
    assert_eq!(post.url(), "u");
}

#[test]
fn full_record_is_decoded() {
    let html = "JSON.parse(\"{\\\"base_url\\\":\\\"http://x\\\",\\\"canonicalUrl\\\":\\\"http://x/p/2\\\",\\\"extra\\\":[1,2.5,true],\\\"post\\\":{\\\"title\\\":\\\"T\\\",\\\"subtitle\\\":null,\\\"body_html\\\":\\\"<p>Hi<\\\\/p>\\\"}}\")</script>";
    let post = extract_post(html).unwrap();
    assert_eq!(post.url(), "http://x/p/2");
    assert_eq!(post.base_url().as_deref(), Some("http://x"));
    let details = post.details().as_ref().unwrap();
    assert_eq!(details.title.as_deref(), Some("T"));
    assert_eq!(details.subtitle, None);
    assert_eq!(details.canonical_url, None);
    assert_eq!(details.body_html.as_deref(), Some("<p>Hi</p>"));
}

fn text(s: &str) -> Json {
    Json::Text(s.to_string())
}

fn object(members: Vec<(&str, Json)>) -> Json {
    Json::Object(members.into_iter().map(|(name, value)| (name.to_string(), value)).collect())
}

#[test]
fn each_decode_fault_has_its_input() {
    assert_eq!(decode_post(&Json::Null).unwrap_err(), DecodeFault::NotAnObject);
    assert_eq!(decode_post(&Json::Array(vec![])).unwrap_err(), DecodeFault::NotAnObject);
    assert_eq!(decode_post(&object(vec![])).unwrap_err(), DecodeFault::MissingUrl);
    assert_eq!(
        decode_post(&object(vec![("canonicalUrl", Json::Null)])).unwrap_err(),
        DecodeFault::InvalidUrl
    );
    assert_eq!(
        decode_post(&object(vec![("canonicalUrl", text(""))])).unwrap_err(),
        DecodeFault::EmptyUrl
    );
    assert_eq!(
        decode_post(&object(vec![("canonicalUrl", text("u")), ("base_url", Json::Bool(true))]))
            .unwrap_err(),
        DecodeFault::InvalidBaseUrl
    );
    assert_eq!(
        decode_post(&object(vec![("canonicalUrl", text("u")), ("post", text("p"))])).unwrap_err(),
        DecodeFault::InvalidDetails
    );
    let with_member = |name: &str| {
        object(vec![
            ("canonicalUrl", text("u")),
            ("post", object(vec![(name, Json::Number("1".to_string()))])),
        ])
    };
    assert_eq!(decode_post(&with_member("title")).unwrap_err(), DecodeFault::InvalidTitle);
    assert_eq!(decode_post(&with_member("subtitle")).unwrap_err(), DecodeFault::InvalidSubtitle);
    assert_eq!(
        decode_post(&with_member("canonical_url")).unwrap_err(),
        DecodeFault::InvalidCanonicalUrl
    );
    assert_eq!(decode_post(&with_member("body_html")).unwrap_err(), DecodeFault::InvalidBody);
    assert!(decode_post(&with_member("unknown")).is_ok());
}

#[test]
fn the_first_fault_in_reading_order_is_reported() {
    let json = object(vec![
        ("post", object(vec![("body_html", Json::Bool(false)), ("title", Json::Bool(false))])),
        ("base_url", Json::Bool(false)),
        ("canonicalUrl", text("u")),
    ]);
    assert_eq!(decode_post(&json).unwrap_err(), DecodeFault::InvalidBaseUrl);
    let json = object(vec![
        ("post", object(vec![("body_html", Json::Bool(false)), ("title", Json::Bool(false))])),
        ("canonicalUrl", text("u")),
    ]);
    assert_eq!(decode_post(&json).unwrap_err(), DecodeFault::InvalidTitle);
}

#[test]
fn repeated_member_name_is_read_with_its_last_value() {
    let html = "JSON.parse(\"{\\\"canonicalUrl\\\":\\\"http://x/p/1\\\",\\\"canonicalUrl\\\":\\\"http://x/p/2\\\"}\")</script>";
    let post = extract_post(html).unwrap();
    assert_eq!(post.url(), "http://x/p/2");

    let html = "JSON.parse(\"{\\\"canonicalUrl\\\":\\\"http://x/p/1\\\",\\\"post\\\":{\\\"title\\\":\\\"A\\\",\\\"title\\\":\\\"B\\\"}}\")</script>";
    let post = extract_post(html).unwrap();
    assert_eq!(post.details().as_ref().unwrap().title.as_deref(), Some("B"));

    let html = "JSON.parse(\"{\\\"canonicalUrl\\\":\\\"http://x/p/1\\\",\\\"canonicalUrl\\\":7}\")</script>";
    match extract_post(html) {
        Err(ParserError::RecordDecode { message, .. }) => {
            assert_eq!(message, "field `canonicalUrl` is not a string")
        }
        _ => panic!("expected a decode failure"),
    }
}

#[test]
fn array_in_member_order_is_no_record() {
    let html = "JSON.parse(\"[\\\"http://x\\\",null,\\\"http://x/p/1\\\"]\")</script>";
    match extract_post(html) {
        Err(ParserError::RecordDecode { text, message }) => {
            assert_eq!(text, "[\"http://x\",null,\"http://x/p/1\"]");
            assert_eq!(message, "the record is not a JSON object");
        }
        _ => panic!("expected a decode failure"),
    }
    let array = Json::Array(vec![text("http://x"), Json::Null, text("http://x/p/1")]);
    assert_eq!(decode_post(&array).unwrap_err(), DecodeFault::NotAnObject);
}
