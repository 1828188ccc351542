use newsletter_ingest::document::{body_of, file_name, make_document, placeholder_document, slug};
use newsletter_ingest::post::{Details, Post};

fn details(body_html: Option<&str>) -> Details {
    Details {
        title: Some("A title".to_string()),
        subtitle: None,
        canonical_url: None,
        body_html: body_html.map(|s| s.to_string()),
    }
}

#[test]
fn document_carries_slug_title_and_markdown() {
    let post = Post::new(
        "https://x.example/p/hello-world".to_string(),
        None,
        Some(details(Some("<p>Hello</p>"))),
    )
    .unwrap();
    assert_eq!(body_of(&post).as_deref(), Some("<p>Hello</p>"));
    let document = make_document(&post, "Hello".to_string());
    assert_eq!(document.markdown, "Hello");
    assert_eq!(document.slug, "hello-world");
    assert_eq!(document.title.as_deref(), Some("A title"));
    let copy = document.duplicate();
    assert_eq!(copy.markdown, "Hello");
    assert_eq!(copy.slug, "hello-world");
    assert_eq!(copy.title.as_deref(), Some("A title"));
}

#[test]
fn post_without_details_gives_the_placeholder() {
    let post = Post::new("https://x.example/p/a".to_string(), None, None).unwrap();
    assert_eq!(body_of(&post), None);
    let document = placeholder_document(&post);
    assert_eq!(document.markdown, "none");
    assert_eq!(document.title, None);
    assert_eq!(document.slug, "a");
}

#[test]
fn details_without_body_give_the_placeholder() {
    let post = Post::new("https://x.example/p/a".to_string(), None, Some(details(None))).unwrap();
    assert_eq!(body_of(&post), None);
    let document = placeholder_document(&post);
    assert_eq!(document.markdown, "none");
    assert_eq!(document.title.as_deref(), Some("A title"));
}

#[test]
fn empty_body_is_no_body() {
    let post =
        Post::new("https://x.example/p/a".to_string(), None, Some(details(Some("")))).unwrap();
    assert_eq!(body_of(&post), None);
    assert_eq!(placeholder_document(&post).markdown, "none");
}

#[test]
fn empty_address_is_no_post() {
    assert!(Post::new(String::new(), None, None).is_none());
}

#[test]
fn post_copy_keeps_every_text() {
    let post = Post::new(
        "https://x.example/p/a".to_string(),
        Some("https://x.example".to_string()),
        Some(details(Some("<p>b</p>"))),
    )
    .unwrap();
    let copy = post.duplicate();
    assert_eq!(copy.url(), "https://x.example/p/a");
    assert_eq!(copy.base_url().as_deref(), Some("https://x.example"));
    let details = copy.details().as_ref().unwrap();
    assert_eq!(details.title.as_deref(), Some("A title"));
    assert_eq!(details.body_html.as_deref(), Some("<p>b</p>"));
}

#[test]
fn slug_is_the_last_segment_made_safe() {
    assert_eq!(slug("https://x.example/p/my-post"), "my-post");
    assert_eq!(slug("https://x.example/p/my-post/"), "my-post");
    assert_eq!(slug("https://x.example/p/my-post///"), "my-post");
    assert_eq!(slug("https://x.example/p/a.b c?d=é"), "a-b-c-d--");
    assert_eq!(slug("no_slash_AT-all9"), "no_slash_AT-all9");
    assert_eq!(slug("///"), "");
    assert_eq!(slug(""), "");
    assert_eq!(slug("https://"), "https-");
}

#[test]
fn file_name_adds_the_extension() {
    assert_eq!(file_name("my-post"), "my-post.md");
}
