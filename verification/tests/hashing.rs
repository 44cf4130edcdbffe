use honeypot::errors::HashBotError;
use honeypot::files::UserFile;
use honeypot::hashing::{
    add_attachment_step, delete_hash_step, hash_image, AddAction, AddEvent, AddStage, DeleteAction,
    DeleteEvent, DeleteStage, HashEntry,
};

fn png_of(img: image::DynamicImage) -> Vec<u8> {
    let mut buf = std::io::Cursor::new(Vec::new());
    img.write_to(&mut buf, image::ImageOutputFormat::Png).unwrap();
    buf.into_inner()
}

#[test]
fn uniform_image_hashes_to_zero() {
    let img = image::DynamicImage::ImageRgb8(image::RgbImage::from_pixel(32, 32, image::Rgb([90, 90, 90])));
    assert_eq!(hash_image(&png_of(img)), Ok("0000000000000000".to_string()));
}

#[test]
fn hash_is_sixteen_hex_digits_and_repeatable() {
    let img = image::DynamicImage::ImageRgb8(image::RgbImage::from_fn(64, 64, |x, y| {
        if (x / 8 + y / 8) % 2 == 0 { image::Rgb([255, 255, 255]) } else { image::Rgb([0, 0, 0]) }
    }));
    let bytes = png_of(img);
    let h = hash_image(&bytes).unwrap();
    assert_eq!(h.len(), 16);
    assert!(h.chars().all(|c| c.is_ascii_digit() || ('a'..='f').contains(&c)));
    assert_ne!(h, "0000000000000000");
    assert_eq!(hash_image(&bytes), Ok(h));
}

#[test]
fn garbage_is_not_an_image() {
    assert_eq!(hash_image(b"definitely not an image"), Err(()));
}

#[test]
fn entry_seen_at_a_given_time() {
    let e = HashEntry::seen_at("ab".to_string(), 1_700_000_000_000_000);
    assert_eq!(e.hash, "ab");
    assert_eq!(e.instances, 1);
    assert_eq!(e.first_seen, 1_700_000_000_000_000);
    assert_eq!(e.last_seen, 1_700_000_000_000_000);
}

#[test]
fn new_entry_is_seen_once() {
    let e = HashEntry::new("0123456789abcdef".to_string());
    assert_eq!(e.hash, "0123456789abcdef");
    assert_eq!(e.instances, 1);
    assert_eq!(e.first_seen, e.last_seen);
    assert!(e.first_seen > 1_600_000_000_000_000);
}

fn image_file() -> UserFile {
    UserFile { url: "https://cdn/a.png".to_string(), content_type: Some("image/png".to_string()) }
}

#[test]
fn non_image_is_refused_with_its_type() {
    let f = UserFile { url: "https://cdn/a.txt".to_string(), content_type: Some("text/plain".to_string()) };
    let (stage, action) = add_attachment_step(&f, AddStage::Start, AddEvent::Begin);
    assert!(matches!(stage, AddStage::Finished));
    match action {
        AddAction::Report { result: Err(HashBotError::InvalidAttachmentFormat { format }) } => assert_eq!(format, "text/plain"),
        _ => panic!("expected a refusal"),
    }
}

#[test]
fn new_hash_is_recorded() {
    let f = image_file();
    let (stage, action) = add_attachment_step(&f, AddStage::Start, AddEvent::Begin);
    assert!(matches!(&action, AddAction::FetchImage { url } if url == "https://cdn/a.png"));
    let (stage, action) = add_attachment_step(&f, stage, AddEvent::Hashed { hash: Ok("ff00ff00ff00ff00".to_string()) });
    assert!(matches!(&action, AddAction::LookUp { hash } if hash == "ff00ff00ff00ff00"));
    let (stage, action) = add_attachment_step(&f, stage, AddEvent::LookedUp { found: false });
    match &action {
        AddAction::Insert { entry } => {
            assert_eq!(entry.hash, "ff00ff00ff00ff00");
            assert_eq!(entry.instances, 1);
            assert_eq!(entry.first_seen, entry.last_seen);
        },
        _ => panic!("expected an insert"),
    }
    let (stage, action) = add_attachment_step(&f, stage, AddEvent::Inserted);
    assert!(matches!(&action, AddAction::Report { result: Ok(h) } if h == "ff00ff00ff00ff00"));
    let (stage, action) = add_attachment_step(&f, stage, AddEvent::Inserted);
    assert!(matches!(stage, AddStage::Finished));
    assert!(matches!(action, AddAction::Wait));
}

#[test]
fn known_hash_is_refused() {
    let f = image_file();
    let stage = AddStage::AwaitLookup { hash: "abcd".to_string() };
    let (stage, action) = add_attachment_step(&f, stage, AddEvent::LookedUp { found: true });
    assert!(matches!(stage, AddStage::Finished));
    assert!(matches!(&action, AddAction::Report { result: Err(HashBotError::AttachmentAlreadyExists { hash }) } if hash == "abcd"));
}

#[test]
fn unreadable_image_stops_the_addition() {
    let f = image_file();
    let (stage, action) = add_attachment_step(&f, AddStage::AwaitHash, AddEvent::Hashed { hash: Err(()) });
    assert!(matches!(stage, AddStage::Finished));
    assert!(matches!(action, AddAction::ImageUnreadable));
}

#[test]
fn out_of_order_event_waits() {
    let f = image_file();
    let (stage, action) = add_attachment_step(&f, AddStage::AwaitHash, AddEvent::Inserted);
    assert!(matches!(stage, AddStage::AwaitHash));
    assert!(matches!(action, AddAction::Wait));
}

#[test]
fn removal_of_a_recorded_hash() {
    let h = "abcd".to_string();
    let (stage, action) = delete_hash_step(&h, DeleteStage::Start, DeleteEvent::Begin);
    assert!(matches!(&action, DeleteAction::LookUp { hash } if hash == "abcd"));
    let (stage, action) = delete_hash_step(&h, stage, DeleteEvent::LookedUp { found: true });
    assert!(matches!(&action, DeleteAction::Delete { hash } if hash == "abcd"));
    let (stage, action) = delete_hash_step(&h, stage, DeleteEvent::Deleted);
    assert!(matches!(stage, DeleteStage::Finished));
    assert!(matches!(action, DeleteAction::Report { result: Ok(()) }));
}

#[test]
fn removal_of_an_unknown_hash() {
    let h = "abcd".to_string();
    let (stage, _) = delete_hash_step(&h, DeleteStage::Start, DeleteEvent::Begin);
    let (stage, action) = delete_hash_step(&h, stage, DeleteEvent::LookedUp { found: false });
    assert!(matches!(stage, DeleteStage::Finished));
    assert!(matches!(&action, DeleteAction::Report { result: Err(HashBotError::HashNotFound { hash }) } if hash == "abcd"));
}
