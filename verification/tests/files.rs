use honeypot::files::{guess_link_type, AttachmentInfo, MessageParts, UserFile, LINK_PATTERN};

fn file(url: &str, ct: Option<&str>) -> UserFile {
    UserFile { url: url.to_string(), content_type: ct.map(|s| s.to_string()) }
}

#[test]
fn image_types_are_recognised() {
    assert!(file("u", Some("image/png")).is_image());
    assert!(file("u", Some("image/jpg")).is_image());
    assert!(file("u", Some("image/jpeg")).is_image());
    assert!(file("u", Some("image/webp")).is_image());
    assert!(!file("u", Some("image/gif")).is_image());
    assert!(!file("u", Some("text/plain")).is_image());
    assert!(!file("u", Some("IMAGE/PNG")).is_image());
    assert!(!file("u", None).is_image());
}

#[test]
fn link_types_are_guessed_from_the_extension() {
    assert_eq!(guess_link_type("https://cdn.example.com/pic.png"), "image/png");
    assert_eq!(guess_link_type("https://cdn.example.com/pic.webp?width=10&h=2"), "image/webp");
    assert_eq!(guess_link_type("https://a.b/c.d.JPG"), "image/JPG");
    assert_eq!(guess_link_type("https://example.com/page"), "image/com/page");
    assert_eq!(guess_link_type("https://x.io/a.png?v=1.2"), "image/png");
    assert_eq!(guess_link_type("https://x.io/a.gif?v=1.2?w=3.4"), "image/gif");
}

#[test]
fn message_files_come_in_order() {
    let msg = MessageParts {
        attachments: vec![
            AttachmentInfo { url: "https://cdn/a.png".to_string(), content_type: Some("image/png".to_string()) },
            AttachmentInfo { url: "https://cdn/b.txt".to_string(), content_type: None },
        ],
        embed_images: vec![None, Some("https://media/e.gif".to_string())],
        content: "look https://scam.example/free.jpeg?x=1 and http://nodot also httpx".to_string(),
    };
    let files = UserFile::from_message(&msg).expect("the link pattern compiles");
    assert_eq!(files.len(), 4);
    assert_eq!(files[0].url, "https://cdn/a.png");
    assert_eq!(files[0].content_type.as_deref(), Some("image/png"));
    assert_eq!(files[1].url, "https://cdn/b.txt");
    assert_eq!(files[1].content_type, None);
    assert_eq!(files[2].url, "https://media/e.gif");
    assert_eq!(files[2].content_type.as_deref(), Some("image/webp"));
    assert_eq!(files[3].url, "https://scam.example/free.jpeg?x=1");
    assert_eq!(files[3].content_type.as_deref(), Some("image/jpeg"));
    assert!(files[3].is_image());
}

#[test]
fn links_run_to_the_next_blank() {
    let msg = MessageParts {
        attachments: vec![],
        embed_images: vec![],
        content: "xhttps://a.io/p.png\thttps://b.io/q.webp".to_string(),
    };
    let files = UserFile::from_message(&msg).unwrap();
    assert_eq!(files.len(), 2);
    assert_eq!(files[0].url, "https://a.io/p.png");
    assert_eq!(files[1].url, "https://b.io/q.webp");
}

#[test]
fn a_message_without_files() {
    let msg = MessageParts { attachments: vec![], embed_images: vec![None], content: "hello there".to_string() };
    assert_eq!(UserFile::from_message(&msg).unwrap().len(), 0);
}

#[test]
fn parts_with_given_links() {
    let msg = MessageParts { attachments: vec![], embed_images: vec![], content: String::new() };
    let links = vec!["https://x.y/z.png".to_string(), "nolink".to_string()];
    let files = UserFile::files_from_parts(&msg, &links);
    assert_eq!(files.len(), 1);
    assert_eq!(files[0].content_type.as_deref(), Some("image/png"));
}

#[test]
fn link_pattern_is_the_documented_one() {
    assert_eq!(LINK_PATTERN, r"(http|https)[a-z]*\S+");
}
