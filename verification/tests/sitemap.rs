use newsletter_ingest::sitemap::{extract_post_urls, is_loc, is_post_url, UrlScan, XmlEvent};
use newsletter_ingest::ParserError;

const SITEMAP: &str = "<?xml version=\"1.0\" encoding=\"UTF-8\"?>
<urlset xmlns=\"http://www.sitemaps.org/schemas/sitemap/0.9\">
  <url>
    <loc>https://x.example/p/first</loc>
    <lastmod>2024-01-01</lastmod>
  </url>
  <url><loc>https://x.example/about</loc></url>
  <url><loc>
      https://x.example/p/second?a=1&amp;b=2
  </loc></url>
  <url><loc>https://x.example/archive</loc></url>
  <url><loc>https://x.example/p/first</loc></url>
</urlset>";

#[test]
fn post_entries_are_kept_in_order() {
    let urls = extract_post_urls(SITEMAP).unwrap();
    assert_eq!(
        urls,
        vec![
            "https://x.example/p/first".to_string(),
            "https://x.example/p/second?a=1&b=2".to_string(),
            "https://x.example/p/first".to_string(),
        ]
    );
}

#[test]
fn sitemap_without_post_entries_gives_nothing() {
    let xml = "<urlset><url><loc>https://x.example/about</loc></url><url><loc>https://x.example/p</loc></url></urlset>";
    assert_eq!(extract_post_urls(xml).unwrap(), Vec::<String>::new());
    assert_eq!(extract_post_urls("<urlset></urlset>").unwrap(), Vec::<String>::new());
    assert_eq!(extract_post_urls("").unwrap(), Vec::<String>::new());
}

#[test]
fn text_outside_loc_is_not_an_entry() {
    let xml = "<urlset><url><link>https://x.example/p/a</link><loc/>https://x.example/p/b</url></urlset>";
    assert_eq!(extract_post_urls(xml).unwrap(), Vec::<String>::new());
}

#[test]
fn whitespace_only_text_is_ignored() {
    let xml = "<urlset><loc>   \n  </loc><loc> https://x.example/p/a </loc></urlset>";
    assert_eq!(extract_post_urls(xml).unwrap(), vec!["https://x.example/p/a".to_string()]);
}

#[test]
fn mismatched_end_tag_is_malformed() {
    let out = extract_post_urls("<urlset><loc>https://x.example/p/a</url></urlset>");
    match out {
        Err(ParserError::MalformedSitemap { message }) => {
            assert_eq!(message, "Expecting </loc> found </url>");
        }
        _ => panic!("expected a malformed sitemap"),
    }
}

#[test]
fn unfinished_tag_ends_the_document() {
    let out = extract_post_urls("<urlset><loc>https://x.example/p/a</loc><url");
    assert_eq!(out.unwrap(), vec!["https://x.example/p/a".to_string()]);
}

#[test]
fn unfinished_comment_is_malformed() {
    let out = extract_post_urls("<urlset><loc>https://x.example/p/a</loc><!-- no end");
    assert!(matches!(out, Err(ParserError::MalformedSitemap { .. })));
}

#[test]
fn malformed_right_after_loc_is_malformed() {
    let out = extract_post_urls("<urlset><loc><!DOCTYPE");
    assert!(matches!(out, Err(ParserError::MalformedSitemap { .. })));
}

#[test]
fn bad_entity_in_an_entry_is_malformed() {
    let out = extract_post_urls("<urlset><loc>https://x.example/p/a&nosuch;</loc></urlset>");
    assert!(matches!(out, Err(ParserError::MalformedSitemap { .. })));
}

#[test]
fn bad_entity_elsewhere_is_passed_over() {
    let xml = "<urlset><note>&nosuch;</note><loc>https://x.example/p/a</loc></urlset>";
    assert_eq!(extract_post_urls(xml).unwrap(), vec!["https://x.example/p/a".to_string()]);
}

#[test]
fn post_marker_is_a_substring_test() {
    assert!(is_post_url("https://x.example/p/a"));
    assert!(is_post_url("/p/"));
    assert!(is_post_url("https://x.example/help/p/"));
    assert!(!is_post_url("https://x.example/p"));
    assert!(!is_post_url("https://x.example/P/a"));
    assert!(!is_post_url(""));
}

#[test]
fn loc_is_matched_by_its_whole_name() {
    assert!(is_loc(b"loc"));
    assert!(!is_loc(b"lo"));
    assert!(!is_loc(b"locs"));
    assert!(!is_loc(b"LOC"));
    assert!(!is_loc(b"image:loc"));
}

#[test]
fn scan_takes_tokens_one_by_one() {
    let mut scan = UrlScan::new();
    assert!(scan.feed(XmlEvent::Start(b"loc".to_vec())).is_ok());
    assert!(scan.after_loc);
    assert!(scan.feed(XmlEvent::Text("http://x/p/1".to_string())).is_ok());
    assert!(!scan.after_loc);
    assert!(scan.feed(XmlEvent::Text("http://x/p/2".to_string())).is_ok());
    assert!(scan.feed(XmlEvent::Start(b"loc".to_vec())).is_ok());
    assert!(scan.feed(XmlEvent::Start(b"loc".to_vec())).is_ok());
    assert!(!scan.after_loc);
    assert!(scan.feed(XmlEvent::Text("http://x/p/3".to_string())).is_ok());
    assert!(scan.feed(XmlEvent::BadText("bad".to_string())).is_ok());
    assert!(scan.feed(XmlEvent::Start(b"loc".to_vec())).is_ok());
    assert!(scan.feed(XmlEvent::Other).is_ok());
    assert!(scan.feed(XmlEvent::Text("http://x/p/4".to_string())).is_ok());
    assert_eq!(scan.urls, vec!["http://x/p/1".to_string()]);
    assert!(scan.feed(XmlEvent::Start(b"loc".to_vec())).is_ok());
    match scan.feed(XmlEvent::BadText("bad entity".to_string())) {
        Err(ParserError::MalformedSitemap { message }) => assert_eq!(message, "bad entity"),
        _ => panic!("expected a malformed sitemap"),
    }
    assert!(scan.after_loc);
    match scan.feed(XmlEvent::Malformed("broken".to_string())) {
        Err(ParserError::MalformedSitemap { message }) => assert_eq!(message, "broken"),
        _ => panic!("expected a malformed sitemap"),
    }
    assert_eq!(scan.urls, vec!["http://x/p/1".to_string()]);
}
